//! Core logic of a desktop-background manager: the interaction policy derived
//! from the current mode, monitor geometry, the platform attachment driver's
//! decisions, and the background-window lifecycle state machine.

use vstd::prelude::*;

pub mod attach;
pub mod commands;
pub mod config;
pub mod fetch;
pub mod geometry;
pub mod lifecycle;
pub mod naming;
pub mod paths;
pub mod policy;
pub mod stats;
pub mod thumbnail;

verus! {

/// Every failure the attachment subsystem can report.
#[derive(Clone, Copy, Debug, PartialEq, Eq, Structural)]
pub enum Error {
    /// No primary display could be identified.
    NoPrimaryMonitor,
    /// The desktop manager (shell) window was not found.
    ShellNotFound,
    /// Reparenting under the resolved desktop layer failed.
    ReparentFailed,
    /// The platform exposes neither reparenting nor window levels.
    Unsupported,
    /// The background window could not be created.
    WindowCreateFailed,
    /// There was no background window to deactivate.
    NotFound,
    /// The background window was still present when the wait deadline passed.
    CloseTimeout,
    /// A thumbnail string was not valid base64.
    ThumbnailDecode,
}

} // verus!
