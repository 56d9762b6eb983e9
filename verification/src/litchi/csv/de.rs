//! The records of a delimited-text mission, one per waypoint.

use vstd::prelude::*;

use crate::ieee::{Binary32, Binary64};
use crate::litchi::Action;

pub mod deserializer;
pub mod helpers;

verus! {

/// One line of a delimited-text mission: a waypoint with all that is done
/// on reaching it.
#[derive(Debug, PartialEq, Eq)]
pub struct MissionRecord {
    pub waypoint: Coordinates,
    pub heading: Binary64,
    pub curvesize: Binary64,
    pub rotationdir: u8,
    pub gimbal: Option<GimbalSettings>,
    pub speed: Binary32,
    pub poi: Option<Coordinates>,
    pub photo_timeinterval: i8,
    pub photo_distinterval: i8,
    pub actions: Vec<Action>,
}

/// Where the gimbal points while a waypoint is flown to; the angle is the
/// pitch in degrees.
#[derive(Clone, Copy, Debug, PartialEq, Eq, Structural)]
pub enum GimbalSettings {
    FocusPoi(Binary64),
    Interpolate(Binary64),
}

/// A place, with its height.
#[derive(Clone, Copy, Debug, PartialEq, Eq, Structural)]
pub struct Coordinates {
    pub latitude: Binary64,
    pub longitude: Binary64,
    pub altitude: Altitude,
}

/// A height in meters, and what it is measured from.
#[derive(Clone, Copy, Debug, PartialEq, Eq, Structural)]
pub enum Altitude {
    AboveGround(u16),
    Absolute(u16),
}

} // verus!
