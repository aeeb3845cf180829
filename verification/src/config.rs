//! Configuration as this core consumes it: the mode value read from the
//! configuration file, with absent or unreadable configuration treated as
//! the safe static mode.

use vstd::prelude::*;
use crate::policy::{Mode, mode_of_string, mode_from_str};

verus! {

/// What the top-level `"mode"` field of a configuration string holds:
/// the field's string value when the string is JSON with such a field,
/// nothing otherwise. Both are functions of the string alone.
pub uninterp spec fn json_mode_field(s: Seq<char>) -> Option<Seq<char>>;

/// Relies on `serde_json::from_str` and `serde_json::Value::get` /
/// `Value::as_str`: whether a string parses as JSON and what string its
/// top-level `"mode"` field holds depend on the string alone.
#[verifier::external_body]
fn parse_mode_field(content: &str) -> (r: Option<String>)
    ensures
        (r is Some) == (json_mode_field(content@) is Some),
        r matches Some(m) ==> Some(m@) == json_mode_field(content@),
{
    match serde_json::from_str::<serde_json::Value>(content) {
        Ok(json) => json.get("mode").and_then(|v| v.as_str()).map(|s| s.to_string()),
        Err(_) => None,
    }
}

/// The mode string a configuration file yields: its `"mode"` field, or
/// `"static"` when the file is missing, unreadable, not JSON, or has no
/// string `"mode"` field.
pub open spec fn config_mode_spec(content: Option<Seq<char>>) -> Seq<char> {
    match content {
        Some(c) => match json_mode_field(c) {
            Some(m) => m,
            None => "static"@,
        },
        None => "static"@,
    }
}

/// Extracts the mode string from the configuration file's content
/// (`None` when the file could not be read).
pub fn get_config_mode(content: &Option<String>) -> (m: String)
    ensures
        m@ == config_mode_spec(content.deep_view()),
{
    match content {
        Some(c) => match parse_mode_field(c.as_str()) {
            Some(m) => m,
            None => "static".to_owned(),
        },
        None => "static".to_owned(),
    }
}

/// The mode a configuration file selects.
pub fn config_mode(content: &Option<String>) -> (m: Mode)
    ensures
        m == mode_of_string(config_mode_spec(content.deep_view())),
{
    let s = get_config_mode(content);
    mode_from_str(s.as_str())
}

/// A configuration file that cannot be read at all selects `Static`.
pub proof fn lemma_unreadable_config_is_static()
    ensures
        mode_of_string(config_mode_spec(None)) == Mode::Static,
{
    reveal_strlit("static");
    reveal_strlit("shader");
    reveal_strlit("html");
    assert("static"@[1] == 't' && "shader"@[1] == 'h');
    assert("static"@.len() == 6 && "html"@.len() == 4);
    assert("static"@ != "shader"@);
    assert("static"@ != "html"@);
}

/// The configuration written and returned when none exists yet.
pub fn default_config() -> (c: String)
    ensures
        c@ == "{\"mode\":\"static\",\"loop\":false,\"loop_mode\":\"cloud\",\"shaderPath\":\"\"}"@,
{
    "{\"mode\":\"static\",\"loop\":false,\"loop_mode\":\"cloud\",\"shaderPath\":\"\"}".to_owned()
}

/// What reading the configuration returns: the file's content as it is, or
/// the default configuration — which then needs to be written back —
/// when the file could not be read.
pub fn config_or_default(content: Option<String>) -> (r: (String, bool))
    ensures
        match content {
            Some(c) => r.0 == c && !r.1,
            None => r.0@
                == "{\"mode\":\"static\",\"loop\":false,\"loop_mode\":\"cloud\",\"shaderPath\":\"\"}"@
                && r.1,
        },
{
    match content {
        Some(c) => (c, false),
        None => (default_config(), true),
    }
}

} // verus!
