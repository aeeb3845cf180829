use opaper_core::config::{config_mode, config_or_default, default_config, get_config_mode};
use opaper_core::policy::{mode_from_str, policy_for, InteractionPolicy, Mode, ZLayer};

#[test]
fn policy_is_deterministic_for_every_mode() {
    for mode in [Mode::Static, Mode::Shader, Mode::Html] {
        let first = policy_for(mode);
        let second = policy_for(mode);
        assert_eq!(first, second);
    }
}

#[test]
fn static_and_shader_share_the_passthrough_policy() {
    let expected = InteractionPolicy {
        z_layer: ZLayer::Below,
        mouse_passthrough: true,
        shadow: false,
        opaque: true,
        alpha_permille: 1000,
    };
    assert_eq!(policy_for(Mode::Static), expected);
    assert_eq!(policy_for(Mode::Shader), expected);
}

#[test]
fn shader_policy_sits_below_and_passes_the_mouse() {
    let p = policy_for(Mode::Shader);
    assert_eq!(p.z_layer, ZLayer::Below);
    assert!(p.mouse_passthrough);
}

#[test]
fn html_policy_sits_above_and_takes_the_mouse() {
    let p = policy_for(Mode::Html);
    assert_eq!(p.z_layer, ZLayer::Above);
    assert!(!p.mouse_passthrough);
    assert!(!p.shadow);
    assert!(p.opaque);
    assert_eq!(p.alpha_permille, 1000);
}

#[test]
fn unknown_mode_strings_fall_back_to_static() {
    assert_eq!(mode_from_str("static"), Mode::Static);
    assert_eq!(mode_from_str("shader"), Mode::Shader);
    assert_eq!(mode_from_str("html"), Mode::Html);
    assert_eq!(mode_from_str(""), Mode::Static);
    assert_eq!(mode_from_str("video"), Mode::Static);
    assert_eq!(mode_from_str("HTML"), Mode::Static);
    assert_eq!(mode_from_str("Shader"), Mode::Static);
}

#[test]
fn config_mode_reads_the_mode_field() {
    let content = Some("{\"mode\":\"html\",\"loop\":true}".to_string());
    assert_eq!(get_config_mode(&content), "html");
    assert_eq!(config_mode(&content), Mode::Html);
}

#[test]
fn config_mode_of_shader_config() {
    let content = Some("{\"mode\":\"shader\"}".to_string());
    assert_eq!(config_mode(&content), Mode::Shader);
}

#[test]
fn missing_config_falls_back_to_static() {
    assert_eq!(get_config_mode(&None), "static");
    assert_eq!(config_mode(&None), Mode::Static);
}

#[test]
fn malformed_config_falls_back_to_static() {
    let not_json = Some("mode = html".to_string());
    assert_eq!(get_config_mode(&not_json), "static");
    let no_field = Some("{\"loop\":false}".to_string());
    assert_eq!(get_config_mode(&no_field), "static");
    let wrong_type = Some("{\"mode\":3}".to_string());
    assert_eq!(get_config_mode(&wrong_type), "static");
}

#[test]
fn default_config_is_returned_and_flagged_for_writing() {
    let (content, needs_write) = config_or_default(None);
    assert!(needs_write);
    assert_eq!(
        content,
        "{\"mode\":\"static\",\"loop\":false,\"loop_mode\":\"cloud\",\"shaderPath\":\"\"}"
    );
}

#[test]
fn existing_config_is_passed_through_unchanged() {
    let (content, needs_write) = config_or_default(Some("{\"mode\":\"html\"}".to_string()));
    assert!(!needs_write);
    assert_eq!(content, "{\"mode\":\"html\"}");
}

#[test]
fn default_config_is_json_and_selects_static() {
    let default = default_config();
    let parsed: serde_json::Value = serde_json::from_str(&default).expect("default config is JSON");
    assert_eq!(parsed.get("mode").and_then(|v| v.as_str()), Some("static"));
    assert_eq!(config_mode(&Some(default)), Mode::Static);
}
