//! Mode-aware interaction policy: a pure mapping from the configured content
//! mode to the window properties the attachment driver applies.

use vstd::prelude::*;

verus! {

/// The content type currently selected for the desktop background.
#[derive(Clone, Copy, Debug, PartialEq, Eq, Structural)]
pub enum Mode {
    /// A static image handed to the OS wallpaper renderer.
    Static,
    /// A GPU shader rendered in the background window.
    Shader,
    /// An interactive HTML page rendered in the background window.
    Html,
}

/// Where the background window sits relative to the desktop-icon layer.
#[derive(Clone, Copy, Debug, PartialEq, Eq, Structural)]
pub enum ZLayer {
    /// Directly behind the desktop icons (non-interactive background).
    Below,
    /// Directly above the desktop icons (interactive background).
    Above,
}

/// Opacity is carried in thousandths, so 1000 stands for fully opaque.
pub const ALPHA_OPAQUE_PERMILLE: u32 = 1000;

/// The window properties derived from a mode: z-order intent, shadow,
/// opacity, and whether pointer input falls through to the desktop.
#[derive(Clone, Copy, Debug, PartialEq, Eq, Structural)]
pub struct InteractionPolicy {
    pub z_layer: ZLayer,
    pub mouse_passthrough: bool,
    pub shadow: bool,
    pub opaque: bool,
    pub alpha_permille: u32,
}

/// What the interaction policy is for each mode: `Static` and `Shader` sit
/// below the icons and let the mouse fall through; `Html` sits above the
/// icons and takes the mouse. No mode uses a shadow or translucency.
pub open spec fn policy_spec(mode: Mode) -> InteractionPolicy {
    match mode {
        Mode::Html => (InteractionPolicy {
            z_layer: ZLayer::Above,
            mouse_passthrough: false,
            shadow: false,
            opaque: true,
            alpha_permille: ALPHA_OPAQUE_PERMILLE as u32,
        }),
        _ => (InteractionPolicy {
            z_layer: ZLayer::Below,
            mouse_passthrough: true,
            shadow: false,
            opaque: true,
            alpha_permille: ALPHA_OPAQUE_PERMILLE as u32,
        }),
    }
}

/// Derives the interaction policy for a mode.
pub fn policy_for(mode: Mode) -> (p: InteractionPolicy)
    ensures
        p == policy_spec(mode),
{
    match mode {
        Mode::Html => InteractionPolicy {
            z_layer: ZLayer::Above,
            mouse_passthrough: false,
            shadow: false,
            opaque: true,
            alpha_permille: ALPHA_OPAQUE_PERMILLE,
        },
        _ => InteractionPolicy {
            z_layer: ZLayer::Below,
            mouse_passthrough: true,
            shadow: false,
            opaque: true,
            alpha_permille: ALPHA_OPAQUE_PERMILLE,
        },
    }
}

/// The policy is a pure function of the mode: any two results derived from
/// the same mode are identical.
pub proof fn lemma_policy_deterministic(mode: Mode, p1: InteractionPolicy, p2: InteractionPolicy)
    requires
        p1 == policy_spec(mode),
        p2 == policy_spec(mode),
    ensures
        p1 == p2,
{
}

/// What mode a configuration string selects: only the exact strings
/// `"shader"` and `"html"` select their modes; every other value, the
/// default `"static"` included, falls back to the static policy's mode.
pub open spec fn mode_of_string(s: Seq<char>) -> Mode {
    if s == "shader"@ {
        Mode::Shader
    } else if s == "html"@ {
        Mode::Html
    } else {
        Mode::Static
    }
}

/// Parses a mode value read from configuration; unrecognized values fall
/// back to `Static`.
pub fn mode_from_str(s: &str) -> (m: Mode)
    ensures
        m == mode_of_string(s@),
{
    if s.to_owned() == "shader".to_owned() {
        Mode::Shader
    } else if s.to_owned() == "html".to_owned() {
        Mode::Html
    } else {
        Mode::Static
    }
}

/// A string that names neither of the other modes selects `Static`.
pub proof fn lemma_unknown_mode_is_static(s: Seq<char>)
    requires
        s != "shader"@,
        s != "html"@,
    ensures
        mode_of_string(s) == Mode::Static,
{
}

} // verus!
