//! Platform attachment driver: decides how a window is placed into the
//! desktop's stacking order. One strategy reparents the window under the
//! shell's worker layer found by walking the top-level windows; the other
//! assigns a window level relative to the desktop-icon layer. The
//! surrounding application performs the window-manager calls; everything
//! decided here — which window to search for, which parent to use, which
//! level and flags to apply — is computed and verified in this module.

use vstd::prelude::*;
use crate::Error;
use crate::policy::{InteractionPolicy, ZLayer};

verus! {

/// The private message sent to the desktop manager window so that the
/// shell materializes the worker layer that hosts the desktop icons.
pub const SPAWN_WORKER_MESSAGE: u32 = 0x052C;

/// What the worker-layer search reads of one top-level window: its handle,
/// whether it owns an immediate child of the icon-view class, and its next
/// sibling in z-order (`0` for none).
#[derive(Clone, Copy, Debug, PartialEq, Eq, Structural)]
pub struct TopLevelWindow {
    pub handle: u64,
    pub has_icon_child: bool,
    pub next_sibling: u64,
}

/// A window identifies the icon-hosting layer when it owns an icon-view
/// child and has a next sibling to attach behind.
pub open spec fn hosts_icon_layer(w: TopLevelWindow) -> bool {
    w.has_icon_child && w.next_sibling != 0
}

/// The worker-layer search over a window list in enumeration order: the
/// target is the next sibling of the first window that owns an icon-view
/// child and has such a sibling; a list without one yields nothing.
pub open spec fn find_worker_spec(windows: Seq<TopLevelWindow>) -> Option<u64>
    decreases windows.len(),
{
    if windows.len() == 0 {
        None
    } else if hosts_icon_layer(windows[0]) {
        Some(windows[0].next_sibling)
    } else {
        find_worker_spec(windows.drop_first())
    }
}

/// Walks the enumerated top-level windows and returns the layer to attach
/// behind the desktop icons, short-circuiting at the first match. The
/// enumeration order is the OS's; the search is deterministic given that
/// order.
pub fn find_worker_target(windows: &Vec<TopLevelWindow>) -> (r: Option<u64>)
    ensures
        r == find_worker_spec(windows@),
{
    let n = windows.len();
    let mut i: usize = 0;
    proof {
        assert(windows@.skip(0) =~= windows@);
    }
    while i < n
        invariant
            n == windows@.len(),
            i <= n,
            find_worker_spec(windows@) == find_worker_spec(windows@.skip(i as int)),
        decreases n - i,
    {
        let w = windows[i];
        proof {
            assert(windows@.skip(i as int)[0] == windows@[i as int]);
            assert(windows@.skip(i as int).drop_first() =~= windows@.skip(i as int + 1));
        }
        if w.has_icon_child && w.next_sibling != 0 {
            return Some(w.next_sibling);
        }
        i = i + 1;
    }
    proof {
        assert(windows@.skip(n as int) =~= Seq::<TopLevelWindow>::empty());
    }
    None
}

/// The two steps of the reparenting strategy: send the spawn-worker message
/// to the shell window, then reparent the background window under the
/// resolved parent.
#[derive(Clone, Copy, Debug, PartialEq, Eq, Structural)]
pub struct ReparentPlan {
    /// The desktop manager window that receives `SPAWN_WORKER_MESSAGE`.
    pub shell_window: u64,
    /// The window to reparent under: the found worker layer, or the shell
    /// window itself as the degraded fallback.
    pub parent: u64,
}

/// What the reparenting strategy resolves to: without a shell window the
/// attachment fails; otherwise the parent is the found worker layer, with
/// the shell window itself as the degraded fallback.
pub open spec fn reparent_plan_spec(
    shell_window: u64,
    windows: Seq<TopLevelWindow>,
) -> Result<ReparentPlan, Error> {
    if shell_window == 0 {
        Err(Error::ShellNotFound)
    } else {
        match find_worker_spec(windows) {
            Some(worker) => Ok(ReparentPlan { shell_window, parent: worker }),
            None => Ok(ReparentPlan { shell_window, parent: shell_window }),
        }
    }
}

/// Resolves the reparenting strategy. `shell_window` is the handle of the
/// desktop manager window found by class name, `0` when there is none;
/// `windows` is the snapshot of the enumerated top-level windows.
pub fn reparent_plan(shell_window: u64, windows: &Vec<TopLevelWindow>) -> (r: Result<
    ReparentPlan,
    Error,
>)
    ensures
        r == reparent_plan_spec(shell_window, windows@),
{
    if shell_window == 0 {
        Err(Error::ShellNotFound)
    } else {
        match find_worker_target(windows) {
            Some(worker) => Ok(ReparentPlan { shell_window, parent: worker }),
            None => Ok(ReparentPlan { shell_window, parent: shell_window }),
        }
    }
}

/// Maps the outcome of the reparent call itself: a failed call is reported
/// as `ReparentFailed`, non-fatally — the window keeps its pre-attachment
/// state.
pub fn reparent_outcome(reparented: bool) -> (r: Result<(), Error>)
    ensures
        reparented <==> r is Ok,
        !reparented ==> r == Err::<(), Error>(Error::ReparentFailed),
{
    if reparented {
        Ok(())
    } else {
        Err(Error::ReparentFailed)
    }
}

/// The window level of the desktop-icon layer's base, on platforms with a
/// continuous window-level space.
pub const DESKTOP_BASE_LEVEL: i64 = -2147483648 + 30;

/// How far above the base an interactive background sits.
pub const ABOVE_ICONS_OFFSET: i64 = 100;

/// The level assigned for a z-order intent: at the desktop base for
/// `Below`, a fixed offset higher for `Above`.
pub open spec fn window_level_spec(z: ZLayer) -> i64 {
    match z {
        ZLayer::Below => DESKTOP_BASE_LEVEL,
        ZLayer::Above => (DESKTOP_BASE_LEVEL + ABOVE_ICONS_OFFSET) as i64,
    }
}

/// Computes the window level for a z-order intent.
pub fn window_level(z: ZLayer) -> (level: i64)
    ensures
        level == window_level_spec(z),
{
    match z {
        ZLayer::Below => DESKTOP_BASE_LEVEL,
        ZLayer::Above => DESKTOP_BASE_LEVEL + ABOVE_ICONS_OFFSET,
    }
}

/// A non-interactive background always sits strictly below an interactive
/// one in the level space.
pub proof fn lemma_below_is_under_above()
    ensures
        window_level_spec(ZLayer::Below) < window_level_spec(ZLayer::Above),
{
}

/// Everything the level-based strategy applies to the window: the level,
/// the collection behavior that keeps the window on all virtual desktops,
/// pinned in place and out of the window switcher, and the shadow, mouse
/// and opacity properties taken from the interaction policy.
#[derive(Clone, Copy, Debug, PartialEq, Eq, Structural)]
pub struct LevelPlan {
    pub level: i64,
    pub join_all_spaces: bool,
    pub stationary: bool,
    pub ignore_cycle: bool,
    pub has_shadow: bool,
    pub ignore_mouse: bool,
    pub opaque: bool,
    pub alpha_permille: u32,
}

/// The level-based placement derived from a policy.
pub open spec fn level_plan_spec(policy: InteractionPolicy) -> LevelPlan {
    LevelPlan {
        level: window_level_spec(policy.z_layer),
        join_all_spaces: true,
        stationary: true,
        ignore_cycle: true,
        has_shadow: policy.shadow,
        ignore_mouse: policy.mouse_passthrough,
        opaque: policy.opaque,
        alpha_permille: policy.alpha_permille,
    }
}

/// Resolves the level-based strategy for a policy. This strategy cannot
/// fail except for an invalid window handle, which only the caller holds.
pub fn level_plan(policy: InteractionPolicy) -> (p: LevelPlan)
    ensures
        p == level_plan_spec(policy),
{
    LevelPlan {
        level: window_level(policy.z_layer),
        join_all_spaces: true,
        stationary: true,
        ignore_cycle: true,
        has_shadow: policy.shadow,
        ignore_mouse: policy.mouse_passthrough,
        opaque: policy.opaque,
        alpha_permille: policy.alpha_permille,
    }
}

/// The platform family the attachment runs on, by its capability: a layered
/// shell that allows reparenting, a continuous window-level space, or
/// neither.
#[derive(Clone, Copy, Debug, PartialEq, Eq, Structural)]
pub enum Platform {
    /// The desktop exposes a layered shell; attachment reparents.
    LayeredShell,
    /// The desktop exposes window levels; attachment assigns a level.
    WindowLevels,
    /// Neither capability: background-wallpaper mode is unavailable.
    Unsupported,
}

/// The fully resolved attachment, one variant per strategy.
#[derive(Clone, Copy, Debug, PartialEq, Eq, Structural)]
pub enum AttachPlan {
    Reparent(ReparentPlan),
    Level(LevelPlan),
}

/// The attachment decision for a platform: reparenting where the shell is
/// layered (stacking is then inherited from the parent, so the policy adds
/// nothing), a level and window properties where levels exist, and
/// `Unsupported` elsewhere.
pub open spec fn attach_plan_spec(
    platform: Platform,
    policy: InteractionPolicy,
    shell_window: u64,
    windows: Seq<TopLevelWindow>,
) -> Result<AttachPlan, Error> {
    match platform {
        Platform::LayeredShell => match reparent_plan_spec(shell_window, windows) {
            Ok(plan) => Ok(AttachPlan::Reparent(plan)),
            Err(e) => Err(e),
        },
        Platform::WindowLevels => Ok(AttachPlan::Level(level_plan_spec(policy))),
        Platform::Unsupported => Err(Error::Unsupported),
    }
}

/// Resolves the attachment for the platform the caller runs on.
/// `shell_window` and `windows` are the caller's snapshot of the shell
/// topology and are only read on a layered shell.
pub fn attach_plan(
    platform: Platform,
    policy: InteractionPolicy,
    shell_window: u64,
    windows: &Vec<TopLevelWindow>,
) -> (r: Result<AttachPlan, Error>)
    ensures
        r == attach_plan_spec(platform, policy, shell_window, windows@),
{
    match platform {
        Platform::LayeredShell => match reparent_plan(shell_window, windows) {
            Ok(plan) => Ok(AttachPlan::Reparent(plan)),
            Err(e) => Err(e),
        },
        Platform::WindowLevels => Ok(AttachPlan::Level(level_plan(policy))),
        Platform::Unsupported => Err(Error::Unsupported),
    }
}

} // verus!
