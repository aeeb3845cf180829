//! Monitor geometry: the primary display's physical size and scale factor,
//! and the logical size a window must have to cover the full desktop.

use vstd::prelude::*;
use crate::Error;

verus! {

/// Scale factors are carried in thousandths, so 1000 stands for a scale
/// factor of one physical pixel per logical pixel.
pub const SCALE_ONE_PERMILLE: u32 = 1000;

/// A snapshot of the primary display: physical pixel size and scale
/// factor, taken fresh on every window creation.
#[derive(Clone, Copy, Debug, PartialEq, Eq, Structural)]
pub struct MonitorGeometry {
    pub physical_width: u32,
    pub physical_height: u32,
    pub scale_permille: u32,
}

impl MonitorGeometry {
    /// A meaningful snapshot has a positive scale factor.
    pub open spec fn wf(&self) -> bool {
        self.scale_permille > 0
    }

    /// The logical width: physical pixels divided by the scale factor.
    pub open spec fn logical_width_spec(&self) -> int {
        self.physical_width * SCALE_ONE_PERMILLE / self.scale_permille as int
    }

    /// The logical height: physical pixels divided by the scale factor.
    pub open spec fn logical_height_spec(&self) -> int {
        self.physical_height * SCALE_ONE_PERMILLE / self.scale_permille as int
    }

    pub fn new(physical_width: u32, physical_height: u32, scale_permille: u32) -> (g: Self)
        requires
            scale_permille > 0,
        ensures
            g == (MonitorGeometry { physical_width, physical_height, scale_permille }),
            g.wf(),
    {
        MonitorGeometry { physical_width, physical_height, scale_permille }
    }

    /// Computes the logical width from the physical width and the scale
    /// factor, rounding down.
    pub fn logical_width(&self) -> (w: u64)
        requires
            self.wf(),
        ensures
            w == self.logical_width_spec(),
    {
        (self.physical_width as u64) * (SCALE_ONE_PERMILLE as u64) / (self.scale_permille as u64)
    }

    /// Computes the logical height from the physical height and the scale
    /// factor, rounding down.
    pub fn logical_height(&self) -> (h: u64)
        requires
            self.wf(),
        ensures
            h == self.logical_height_spec(),
    {
        (self.physical_height as u64) * (SCALE_ONE_PERMILLE as u64) / (self.scale_permille as u64)
    }
}

/// Turns the caller's reading of the primary display into a geometry
/// snapshot; a missing primary display is the one failure of geometry
/// resolution.
pub fn resolve_geometry(primary: Option<MonitorGeometry>) -> (r: Result<MonitorGeometry, Error>)
    requires
        primary matches Some(g) ==> g.wf(),
    ensures
        match primary {
            Some(g) => r == Ok::<MonitorGeometry, Error>(g),
            None => r == Err::<MonitorGeometry, Error>(Error::NoPrimaryMonitor),
        },
{
    match primary {
        Some(g) => Ok(g),
        None => Err(Error::NoPrimaryMonitor),
    }
}

} // verus!
