//! The delimited-text mission format.

pub mod de;

pub use de::{Altitude, Coordinates, GimbalSettings, MissionRecord};
