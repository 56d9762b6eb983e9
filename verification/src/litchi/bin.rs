//! The binary mission format: a magic number followed by fixed-shape
//! big-endian records whose counts are read from the stream itself.

use vstd::prelude::*;

use crate::ieee::{Binary32, Binary64};

pub mod deserializer;
pub mod error;
pub mod mission;
pub mod waypoint;

pub use self::error::{Error, ErrorKind, Section};
pub use self::mission::{LitchiMission, LitchiMissionPartial};
pub use self::waypoint::{Waypoint, WaypointPartial};

use self::deserializer::{
    be_u32, be_u64, be_uint, lemma_be_uint_take, lemma_field, parse_seq, Deserializer, Record,
};
use self::mission::{
    declared_pois, declared_waypoints, lemma_counts, lemma_parse_passes_len, LitchiMissionView,
};

verus! {

/// The first four bytes of every mission file: `lchm`.
pub const MAGIC: u32 = 0x6C63_686D;

/// What the aircraft does once the last waypoint is reached.
#[derive(Clone, Copy, Debug, PartialEq, Eq, Structural)]
pub enum FinishAction {
    NoAction,
    ReturnToHome,
    Land,
    BackToFirst,
    Reverse,
}

/// How the aircraft passes through a waypoint.
#[derive(Clone, Copy, Debug, PartialEq, Eq, Structural)]
pub enum PathMode {
    StraigtLines,
    CurvedTurns,
}

/// A place the camera can be kept pointed at.
#[derive(Clone, Copy, Debug, PartialEq, Eq, Structural)]
pub struct PointOfInterest {
    pub latitude: Binary64,
    pub longitude: Binary64,
    pub altitude: Binary32,
}

/// When photos are taken on the way to the next waypoint.
#[derive(Clone, Copy, Debug, PartialEq, Eq, Structural)]
pub enum PhotoInterval {
    Time { seconds: Binary32 },
    Distance { meters: Binary32 },
}

impl FinishAction {
    /// The finish action that `code` stands for.
    pub open spec fn spec_from_u32(code: u32) -> Result<FinishAction, Error> {
        match code {
            0 => Ok(FinishAction::NoAction),
            1 => Ok(FinishAction::ReturnToHome),
            2 => Ok(FinishAction::Land),
            3 => Ok(FinishAction::BackToFirst),
            4 => Ok(FinishAction::Reverse),
            _ => Err(Error::InvalidFinishAction { value: code }),
        }
    }

    /// The finish action that `code` stands for.
    pub fn from_u32(code: u32) -> (r: Result<FinishAction, Error>)
        ensures
            r == Self::spec_from_u32(code),
    {
        match code {
            0 => Ok(FinishAction::NoAction),
            1 => Ok(FinishAction::ReturnToHome),
            2 => Ok(FinishAction::Land),
            3 => Ok(FinishAction::BackToFirst),
            4 => Ok(FinishAction::Reverse),
            _ => Err(Error::InvalidFinishAction { value: code }),
        }
    }
}

impl PathMode {
    /// The path mode that `code` stands for.
    pub open spec fn spec_from_u32(code: u32) -> Result<PathMode, Error> {
        match code {
            0 => Ok(PathMode::StraigtLines),
            1 => Ok(PathMode::CurvedTurns),
            _ => Err(Error::InvalidPathMode { value: code }),
        }
    }

    /// The path mode that `code` stands for.
    pub fn from_u32(code: u32) -> (r: Result<PathMode, Error>)
        ensures
            r == Self::spec_from_u32(code),
    {
        match code {
            0 => Ok(PathMode::StraigtLines),
            1 => Ok(PathMode::CurvedTurns),
            _ => Err(Error::InvalidPathMode { value: code }),
        }
    }
}

impl View for PointOfInterest {
    type V = PointOfInterest;

    open spec fn view(&self) -> PointOfInterest {
        *self
    }
}

impl Record for PointOfInterest {
    /// Twenty bytes: latitude, longitude, altitude.
    open spec fn parse(s: Seq<u8>) -> Result<(PointOfInterest, nat), Error> {
        if s.len() < 20 {
            Err(Error::OutOfData)
        } else {
            Ok(
                (
                    PointOfInterest {
                        latitude: be_u64(s, 0),
                        longitude: be_u64(s, 8),
                        altitude: be_u32(s, 16),
                    },
                    20,
                ),
            )
        }
    }

    proof fn lemma_parse_len(s: Seq<u8>) {
    }

    proof fn lemma_parse_prefix(s: Seq<u8>, k: int) {
        if k >= 20 {
            lemma_be_uint_take(s, k, 0, 8);
            lemma_be_uint_take(s, k, 8, 8);
            lemma_be_uint_take(s, k, 16, 4);
        }
    }

    fn deserialize(de: &mut Deserializer) -> (r: Result<Self, Error>) {
        let ghost s = de@;
        let latitude = de.parse_double()?;
        let longitude = de.parse_double()?;
        proof {
            lemma_field(s, 8, 8);
        }
        let altitude = de.parse_float()?;
        proof {
            lemma_field(s, 16, 4);
        }
        Ok(PointOfInterest { latitude, longitude, altitude })
    }
}

/// Decodes the mission that `bytes` holds. Bytes behind the mission are not
/// looked at.
pub fn from_slice(bytes: &[u8]) -> (r: Result<LitchiMission, Error>)
    ensures
        decodes_to(bytes@, r),
        bytes@.len() >= 4 && !starts_with_magic(bytes@) ==> r == Err::<LitchiMission, Error>(
            Error::BadMagic,
        ),
        r matches Ok(mission) ==> mission.waypoints@.len() == declared_waypoints(bytes@.skip(4)),
{
    proof {
        lemma_bad_magic(bytes@);
        lemma_declared_counts(bytes@);
    }
    let mut deserializer = Deserializer::from_slice(bytes);
    LitchiMission::deserialize(&mut deserializer)
}

/// `r` is what decoding `bytes` gives: the mission that the bytes spell, or
/// the failure of the first step that fails.
pub open spec fn decodes_to(bytes: Seq<u8>, r: Result<LitchiMission, Error>) -> bool {
    match LitchiMission::parse(bytes) {
        Ok((mission, _)) => r matches Ok(decoded) && decoded@ == mission,
        Err(e) => r == Err::<LitchiMission, Error>(e),
    }
}

/// Whether the first four bytes are `6C 63 68 6D`.
pub open spec fn starts_with_magic(bytes: Seq<u8>) -> bool {
    bytes.len() >= 4 && bytes[0] == 0x6C && bytes[1] == 0x63 && bytes[2] == 0x68 && bytes[3] == 0x6D
}

/// A buffer of four bytes or more that does not begin with the magic number
/// is refused as no mission file, whatever follows.
pub proof fn lemma_bad_magic(bytes: Seq<u8>)
    ensures
        bytes.len() >= 4 && !starts_with_magic(bytes) ==> LitchiMission::parse(bytes) == Err::<
            (LitchiMissionView, nat),
            Error,
        >(Error::BadMagic),
        LitchiMission::parse(bytes) is Ok ==> starts_with_magic(bytes),
{
    reveal_with_fuel(be_uint, 5);
}

/// A mission that decodes has exactly as many waypoints and points of
/// interest as the two counts in its metadata record declare.
pub proof fn lemma_declared_counts(bytes: Seq<u8>)
    ensures
        LitchiMission::parse(bytes) matches Ok((mission, _)) ==> {
            &&& mission.waypoints.len() == declared_waypoints(bytes.skip(4))
            &&& mission.poi.len() == declared_pois(
                bytes.skip(4),
                parse_seq::<WaypointPartial>(bytes.skip(40), Section::Waypoints)->Ok_0.1,
            )
        },
{
    if LitchiMission::parse(bytes) is Ok {
        let (partial, n) = LitchiMissionPartial::parse(bytes.skip(4))->Ok_0;
        lemma_counts(bytes.skip(4));
        LitchiMissionPartial::lemma_parse_len(bytes.skip(4));
        lemma_parse_passes_len(
            bytes.skip((4 + n) as int),
            partial.waypoints.len(),
            partial.poi.len(),
        );
        assert(bytes.skip(4).skip(36) == bytes.skip(40));
    }
}

/// Cutting a mission short is noticed. Where `bytes` decodes to a mission
/// that takes up `n` bytes, the first `k` bytes decode to the same mission
/// for `k >= n`, and for `k < n` they fail for want of input: never do they
/// decode to another mission.
pub proof fn lemma_truncation(bytes: Seq<u8>, k: int)
    requires
        LitchiMission::parse(bytes) is Ok,
        0 <= k <= bytes.len(),
    ensures
        k >= LitchiMission::parse(bytes)->Ok_0.1 ==> LitchiMission::parse(bytes.take(k))
            == LitchiMission::parse(bytes),
        k < LitchiMission::parse(bytes)->Ok_0.1 ==> LitchiMission::parse(bytes.take(k)) is Err
            && LitchiMission::parse(bytes.take(k))->Err_0.spec_kind()
            == ErrorKind::TruncatedInput,
{
    LitchiMission::lemma_parse_prefix(bytes, k);
}

/// Decoding is a function of the bytes: two decodings of one buffer both
/// succeed, with missions that hold the same, or both fail, in the same way.
pub proof fn lemma_decoding_repeats(
    bytes: Seq<u8>,
    first: Result<LitchiMission, Error>,
    second: Result<LitchiMission, Error>,
)
    requires
        decodes_to(bytes, first),
        decodes_to(bytes, second),
    ensures
        first matches Ok(a) ==> second matches Ok(b) && a@ == b@,
        first matches Err(e) ==> second == Err::<LitchiMission, Error>(e),
{
}

} // verus!
