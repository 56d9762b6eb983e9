//! What can go wrong between a mission file and a flight plan.

use vstd::prelude::*;

use crate::litchi;
use crate::mtp::MtpError;

verus! {

/// Why a height is none that a waypoint can have.
#[derive(Clone, Copy, Debug, PartialEq, Eq, Structural)]
pub enum IntErrorKind {
    /// Not a number.
    InvalidDigit,
    /// Infinitely far up.
    PosOverflow,
    /// Infinitely far down.
    NegOverflow,
    /// Less than one meter.
    Zero,
}

/// Why no flight plan could be made.
#[derive(Debug, PartialEq, Eq)]
pub enum Error {
    /// The binary mission did not decode.
    BinParsingFailed(litchi::bin::Error),
    /// The plan could not be stored on the device.
    MtpFailure(MtpError),
    /// The mission decoded, but is none that can be flown.
    MalformedLitchiMission(&'static str),
    /// A waypoint's height is out of range.
    AltitudeOverflow(IntErrorKind),
    MissingTitle,
    InvalidFileName,
}

impl Error {
    /// A failure of the binary decoder, as a failure to make a flight plan.
    pub fn from(underlying: litchi::bin::Error) -> (e: Error)
        ensures
            e == Error::BinParsingFailed(underlying),
    {
        Error::BinParsingFailed(underlying)
    }

    /// A failure to store a plan, as a failure to make one.
    pub fn from_mtp(underlying: MtpError) -> (e: Error)
        ensures
            e == Error::MtpFailure(underlying),
    {
        Error::MtpFailure(underlying)
    }
}

} // verus!
