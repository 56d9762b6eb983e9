//! Litchi's own mission formats.

use vstd::prelude::*;

pub mod bin;
pub mod csv;
pub mod kml;

verus! {

/// What the aircraft does on reaching a waypoint.
#[allow(inconsistent_fields)]
#[derive(Clone, Copy, Debug, PartialEq, Eq, Structural)]
pub enum Action {
    /// Hover for `ms` milliseconds.
    StayFor { ms: usize },
    TakePhoto,
    StartRecording,
    StopRecording,
    /// Turn the aircraft to a heading, in degrees.
    RotateAircraft { angle: u16 },
    /// Tilt the camera to a pitch, in degrees.
    TiltCamera { angle: i16 },
}

impl View for Action {
    type V = Action;

    open spec fn view(&self) -> Action {
        *self
    }
}

} // verus!
