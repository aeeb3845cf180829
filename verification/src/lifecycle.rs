//! Background window lifecycle: a state machine over one logical slot that
//! owns the single background window, plus the bounded wait that serializes
//! teardown against a subsequent static-wallpaper apply.
//!
//! Creating, reloading and closing the real window are operating-system
//! calls made by the surrounding application; this module makes every
//! decision and records every transition, taking the outcome of each
//! outside call as an explicit event.

use vstd::prelude::*;
use crate::Error;
use crate::geometry::MonitorGeometry;

verus! {

/// The fixed logical label of the one background window.
pub open spec fn background_label() -> Seq<char> {
    "background"@
}

/// Everything the background window is created with: borderless,
/// non-focused, hidden from the taskbar, sized to the logical monitor size
/// and positioned at the origin.
pub struct WindowSpec {
    pub label: String,
    pub url: String,
    pub x: i64,
    pub y: i64,
    pub logical_width: u64,
    pub logical_height: u64,
    pub decorations: bool,
    pub skip_taskbar: bool,
    pub focused: bool,
    pub visible: bool,
}

/// Builds the creation parameters of the background window for a monitor
/// snapshot.
pub fn window_spec_for(geometry: &MonitorGeometry) -> (w: WindowSpec)
    requires
        geometry.wf(),
    ensures
        w.label@ == background_label(),
        w.url@ == "index.html/#/background"@,
        w.x == 0 && w.y == 0,
        w.logical_width == geometry.logical_width_spec(),
        w.logical_height == geometry.logical_height_spec(),
        !w.decorations && w.skip_taskbar && !w.focused && w.visible,
{
    WindowSpec {
        label: "background".to_owned(),
        url: "index.html/#/background".to_owned(),
        x: 0,
        y: 0,
        logical_width: geometry.logical_width(),
        logical_height: geometry.logical_height(),
        decorations: false,
        skip_taskbar: true,
        focused: false,
        visible: true,
    }
}

/// The process-wide handle of the one background window.
#[derive(Clone, Copy, Debug, PartialEq, Eq, Structural)]
pub struct WindowHandle {
    pub id: u64,
}

/// What the caller must do to activate the background: reload the window
/// that already exists, or create a new one.
#[derive(Clone, Copy, Debug, PartialEq, Eq, Structural)]
pub enum ActivateAction {
    Reload,
    Create,
}

/// How an activation ended: a fresh window was created, or the existing one
/// was reloaded in place.
#[derive(Clone, Copy, Debug, PartialEq, Eq, Structural)]
pub enum ActivateOutcome {
    Created,
    Reloaded,
}

/// Owns the one background-window slot. At most one window exists at any
/// time, and all mutation goes through the two transition methods.
pub struct LifecycleManager {
    window: Option<WindowHandle>,
}

/// The activation transition: a present slot is kept as it is and reports a
/// reload; an absent slot takes the outcome of the window creation, holding
/// the new handle on success and staying empty on failure.
pub open spec fn activate_spec(
    slot: Option<WindowHandle>,
    creation: Option<u64>,
) -> (Option<WindowHandle>, Result<ActivateOutcome, Error>) {
    match slot {
        Some(w) => (Some(w), Ok(ActivateOutcome::Reloaded)),
        None => match creation {
            Some(id) => (Some(WindowHandle { id }), Ok(ActivateOutcome::Created)),
            None => (None, Err(Error::WindowCreateFailed)),
        },
    }
}

/// The deactivation transition: a present slot is emptied; deactivating an
/// absent slot is an explicit error, never a silent success.
pub open spec fn deactivate_spec(
    slot: Option<WindowHandle>,
) -> (Option<WindowHandle>, Result<(), Error>) {
    match slot {
        Some(_) => (None, Ok(())),
        None => (None, Err(Error::NotFound)),
    }
}

impl LifecycleManager {
    /// The slot as the contracts see it.
    pub closed spec fn slot(&self) -> Option<WindowHandle> {
        self.window
    }

    pub open spec fn is_present(&self) -> bool {
        self.slot() is Some
    }

    pub open spec fn is_absent(&self) -> bool {
        self.slot() is None
    }

    /// A fresh manager owns no window.
    pub fn new() -> (m: Self)
        ensures
            m.is_absent(),
    {
        LifecycleManager { window: None }
    }

    /// What activation requires of the caller in the current state: reload
    /// the existing window, or create a new one and report its handle back
    /// through `activate`.
    pub fn activate_decision(&self) -> (a: ActivateAction)
        ensures
            self.is_present() ==> a == ActivateAction::Reload,
            self.is_absent() ==> a == ActivateAction::Create,
    {
        match self.window {
            Some(_) => ActivateAction::Reload,
            None => ActivateAction::Create,
        }
    }

    /// Records an activation. `creation` is the outcome of the window
    /// creation the caller performed when the slot was absent (`Some` with
    /// the new window's handle, `None` when creation failed); it is ignored
    /// when a window already exists, since activating a present slot only
    /// reloads it and never attaches a second window.
    pub fn activate(&mut self, creation: Option<u64>) -> (r: Result<ActivateOutcome, Error>)
        ensures
            (final(self).slot(), r) == activate_spec(old(self).slot(), creation),
    {
        match self.window {
            Some(_) => Ok(ActivateOutcome::Reloaded),
            None => match creation {
                Some(id) => {
                    self.window = Some(WindowHandle { id });
                    Ok(ActivateOutcome::Created)
                },
                None => Err(Error::WindowCreateFailed),
            },
        }
    }

    /// Closes the background window: empties a present slot, and reports
    /// `NotFound` on an absent one.
    pub fn deactivate(&mut self) -> (r: Result<(), Error>)
        ensures
            (final(self).slot(), r) == deactivate_spec(old(self).slot()),
            final(self).is_absent(),
    {
        match self.window {
            Some(_) => {
                self.window = None;
                Ok(())
            },
            None => Err(Error::NotFound),
        }
    }
}

/// How long the bounded wait sleeps between two looks at the slot.
pub const POLL_INTERVAL_MS: u64 = 50;

/// What one round of the bounded wait does, given how much time has passed
/// and whether the window is still there: report the window closed, poll
/// again after one interval, or give up once the deadline has passed.
#[derive(Clone, Copy, Debug, PartialEq, Eq, Structural)]
pub enum WaitStep {
    Closed,
    Poll,
    TimedOut,
}

/// One decision of the polling wait. Before the deadline an absent window
/// ends the wait and a present one is polled again; at or past the deadline
/// the window's state decides between success and timeout.
pub open spec fn wait_step_spec(elapsed_ms: u64, max_wait_ms: u64, present: bool) -> WaitStep {
    if elapsed_ms < max_wait_ms {
        if present {
            WaitStep::Poll
        } else {
            WaitStep::Closed
        }
    } else {
        if present {
            WaitStep::TimedOut
        } else {
            WaitStep::Closed
        }
    }
}

/// Decides one round of the bounded wait; the caller sleeps for
/// `POLL_INTERVAL_MS` on `Poll` and observes the slot again.
pub fn wait_step(elapsed_ms: u64, max_wait_ms: u64, present: bool) -> (s: WaitStep)
    ensures
        s == wait_step_spec(elapsed_ms, max_wait_ms, present),
{
    if elapsed_ms < max_wait_ms {
        if present {
            WaitStep::Poll
        } else {
            WaitStep::Closed
        }
    } else {
        if present {
            WaitStep::TimedOut
        } else {
            WaitStep::Closed
        }
    }
}

/// The bounded wait, run to completion against a window whose teardown
/// finishes `close_at_ms` milliseconds after the wait starts (so the slot
/// is observed present exactly while the elapsed time is below
/// `close_at_ms`; a window that never closes is one with `close_at_ms`
/// beyond the deadline). Returns whether the window was seen closed, and
/// the elapsed time at which the wait ended.
///
/// The contract pins the polling behavior down: the wait succeeds exactly
/// when it observes the window gone, it reports success within one poll
/// interval of the close, it never times out before the deadline, and a
/// window that closes by the deadline is always seen closed.
pub fn wait_for_window_closed(close_at_ms: u64, max_wait_ms: u64) -> (r: (bool, u64))
    requires
        max_wait_ms <= u64::MAX - POLL_INTERVAL_MS,
    ensures
        r.1 % POLL_INTERVAL_MS == 0,
        r.1 < max_wait_ms + POLL_INTERVAL_MS,
        r.0 <==> close_at_ms <= r.1,
        r.0 ==> r.1 < close_at_ms + POLL_INTERVAL_MS,
        !r.0 ==> max_wait_ms <= r.1,
        close_at_ms <= max_wait_ms ==> r.0,
{
    let mut elapsed: u64 = 0;
    while elapsed < max_wait_ms
        invariant
            max_wait_ms <= u64::MAX - POLL_INTERVAL_MS,
            elapsed % POLL_INTERVAL_MS == 0,
            elapsed < max_wait_ms + POLL_INTERVAL_MS,
            elapsed > 0 ==> elapsed - POLL_INTERVAL_MS < close_at_ms,
        decreases max_wait_ms + POLL_INTERVAL_MS - elapsed,
    {
        if elapsed >= close_at_ms {
            return (true, elapsed);
        }
        elapsed = elapsed + POLL_INTERVAL_MS;
    }
    if elapsed >= close_at_ms {
        (true, elapsed)
    } else {
        (false, elapsed)
    }
}

/// A wait on a slot that is already absent ends immediately, before any
/// poll interval passes.
pub proof fn lemma_wait_immediate_when_absent(closed: bool, elapsed: u64)
    requires
        elapsed % POLL_INTERVAL_MS == 0,
        closed <==> 0 <= elapsed,
        closed ==> elapsed < 0 + POLL_INTERVAL_MS,
    ensures
        closed,
        elapsed == 0,
{
}

/// A wait on a window that never closes by the deadline times out, no
/// earlier than the deadline and no later than one poll interval past it.
pub proof fn lemma_wait_timeout_window(
    close_at_ms: u64,
    max_wait_ms: u64,
    closed: bool,
    elapsed: u64,
)
    requires
        close_at_ms > max_wait_ms + POLL_INTERVAL_MS,
        elapsed < max_wait_ms + POLL_INTERVAL_MS,
        closed <==> close_at_ms <= elapsed,
        !closed ==> max_wait_ms <= elapsed,
    ensures
        !closed,
        max_wait_ms <= elapsed <= max_wait_ms + POLL_INTERVAL_MS,
{
}

impl LifecycleManager {
    /// The teardown half of switching to a static wallpaper: closes the
    /// background window if one is present (an already absent slot is not
    /// an error here) and waits, bounded by `max_wait_ms`, until the OS has
    /// torn the window down. As in `wait_for_window_closed`, `close_at_ms`
    /// is when the OS finishes the teardown. Returns the elapsed wait time
    /// on success; after `CloseTimeout` the caller must not proceed with
    /// the wallpaper apply.
    pub fn close_and_confirm(&mut self, close_at_ms: u64, max_wait_ms: u64) -> (r: Result<
        u64,
        Error,
    >)
        requires
            max_wait_ms <= u64::MAX - POLL_INTERVAL_MS,
        ensures
            final(self).is_absent(),
            match r {
                Ok(elapsed) => close_at_ms <= elapsed < close_at_ms + POLL_INTERVAL_MS && elapsed
                    < max_wait_ms + POLL_INTERVAL_MS && elapsed % POLL_INTERVAL_MS == 0,
                Err(e) => e == Error::CloseTimeout && close_at_ms > max_wait_ms,
            },
            close_at_ms <= max_wait_ms ==> r is Ok,
    {
        match self.deactivate() {
            Ok(()) => (),
            Err(_) => (),  // nothing to close: deactivating an absent slot is fine here
        }
        let (closed, elapsed) = wait_for_window_closed(close_at_ms, max_wait_ms);
        if closed {
            Ok(elapsed)
        } else {
            Err(Error::CloseTimeout)
        }
    }
}

/// Activating an absent slot with a successful creation always transitions
/// to present and reports that a window was created.
pub proof fn lemma_activate_absent_transitions(id: u64)
    ensures
        activate_spec(None, Some(id)).0 == Some(WindowHandle { id }),
        activate_spec(None, Some(id)).1 == Ok::<ActivateOutcome, Error>(ActivateOutcome::Created),
{
}

/// Activating a present slot never creates a second window: the slot keeps
/// exactly the window it had, whatever the creation event says, and the
/// result is a reload.
pub proof fn lemma_activate_present_reloads(slot: Option<WindowHandle>, creation: Option<u64>)
    requires
        slot is Some,
    ensures
        activate_spec(slot, creation).0 == slot,
        activate_spec(slot, creation).1 == Ok::<ActivateOutcome, Error>(ActivateOutcome::Reloaded),
{
}

/// Deactivating an absent slot always reports `NotFound` and leaves the
/// slot absent.
pub proof fn lemma_deactivate_absent_not_found()
    ensures
        deactivate_spec(None).0 is None,
        deactivate_spec(None).1 == Err::<(), Error>(Error::NotFound),
{
}

} // verus!
