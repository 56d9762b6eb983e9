//! The mission as a whole: the metadata record with its two arrays, the
//! passes behind it, and the putting together of what they hold.

use vstd::prelude::*;

use super::deserializer::{
    be_u16, be_u32, lemma_be_uint_take, lemma_field, lemma_parse_seq_len, lemma_parse_seq_prefix,
    lemma_parse_tuple_len, lemma_parse_tuple_prefix, parse_seq, parse_tuple, views, Deserializer,
    Record,
};
use super::error::{Error, ErrorKind, Section};
use super::waypoint::{Waypoint, WaypointPartial, WaypointPartialView, WaypointView};
use super::{FinishAction, PathMode, PhotoInterval, PointOfInterest, MAGIC};
use crate::ieee::{Binary32, MINUS_ONE};

verus! {

/// A decoded mission.
#[derive(Debug, PartialEq, Eq)]
pub struct LitchiMission {
    pub finish_action: FinishAction,
    pub path_mode: PathMode,
    pub cruising_speed: Binary32,
    pub max_speed: Binary32,
    pub waypoints: Vec<Waypoint>,
    pub poi: Vec<PointOfInterest>,
}

/// What a [`LitchiMission`] holds.
pub struct LitchiMissionView {
    pub finish_action: FinishAction,
    pub path_mode: PathMode,
    pub cruising_speed: Binary32,
    pub max_speed: Binary32,
    pub waypoints: Seq<WaypointView>,
    pub poi: Seq<PointOfInterest>,
}

impl View for LitchiMission {
    type V = LitchiMissionView;

    open spec fn view(&self) -> LitchiMissionView {
        LitchiMissionView {
            finish_action: self.finish_action,
            path_mode: self.path_mode,
            cruising_speed: self.cruising_speed,
            max_speed: self.max_speed,
            waypoints: views(self.waypoints@),
            poi: self.poi@,
        }
    }
}

/// The metadata record: the mission's settings and its two arrays, whose
/// lengths say how many records each of the later passes holds.
#[derive(Debug, PartialEq, Eq)]
pub struct LitchiMissionPartial {
    pub finish_action: FinishAction,
    pub path_mode: PathMode,
    pub cruising_speed: Binary32,
    pub max_speed: Binary32,
    pub waypoints: Vec<WaypointPartial>,
    pub poi: Vec<PointOfInterest>,
}

/// What a [`LitchiMissionPartial`] holds.
pub struct LitchiMissionPartialView {
    pub finish_action: FinishAction,
    pub path_mode: PathMode,
    pub cruising_speed: Binary32,
    pub max_speed: Binary32,
    pub waypoints: Seq<WaypointPartialView>,
    pub poi: Seq<PointOfInterest>,
}

impl View for LitchiMissionPartial {
    type V = LitchiMissionPartialView;

    open spec fn view(&self) -> LitchiMissionPartialView {
        LitchiMissionPartialView {
            finish_action: self.finish_action,
            path_mode: self.path_mode,
            cruising_speed: self.cruising_speed,
            max_speed: self.max_speed,
            waypoints: views(self.waypoints@),
            poi: self.poi@,
        }
    }
}

/// The settings record: three words of unknown meaning and the mission-wide
/// photo intervals. Nothing of it goes into the mission.
#[derive(Clone, Copy, Debug, PartialEq, Eq, Structural)]
pub struct OtherSettings {
    pub unknown_1: u32,
    pub unknown_2: u32,
    pub unknown_3: u32,
    pub photo_capture_interval_seconds: Binary32,
    pub photo_capture_interval_meters: Binary32,
}

/// What the detail pass adds to a waypoint.
#[derive(Clone, Copy, Debug, PartialEq, Eq, Structural)]
pub struct WaypointDetails {
    pub is_above_ground: u16,
    pub wp_altitude: Binary32,
    /// The index of the linked point of interest, or [`NO_POI`].
    pub waypoint_poi: u32,
}

/// What the detail pass adds to a point of interest.
#[derive(Clone, Copy, Debug, PartialEq, Eq, Structural)]
pub struct PoIDetails {
    pub is_above_ground: u16,
    pub wp_altitude: Binary32,
}

/// The index that stands for "no point of interest".
pub const NO_POI: u32 = 0xFFFF_FFFF;

impl PhotoInterval {
    /// The photo trigger that a tuple of seconds and meters stands for.
    pub open spec fn spec_from_tuple(tuple: (Binary32, Binary32)) -> Option<PhotoInterval> {
        if tuple.0 != MINUS_ONE {
            Some(PhotoInterval::Time { seconds: tuple.0 })
        } else if tuple.1 != MINUS_ONE {
            Some(PhotoInterval::Distance { meters: tuple.1 })
        } else {
            None
        }
    }

    /// The photo trigger that a tuple of seconds and meters stands for. A
    /// member that is `-1` is not set; where both are set, time wins.
    pub fn from_tuple(tuple: (Binary32, Binary32)) -> (r: Option<PhotoInterval>)
        ensures
            r == Self::spec_from_tuple(tuple),
    {
        let (time_interval, dist_interval) = tuple;
        if time_interval != MINUS_ONE {
            Some(PhotoInterval::Time { seconds: time_interval })
        } else if dist_interval != MINUS_ONE {
            Some(PhotoInterval::Distance { meters: dist_interval })
        } else {
            None
        }
    }
}

impl Waypoint {
    /// The waypoint made of its three parts.
    pub open spec fn spec_assemble(
        partial: WaypointPartialView,
        details: WaypointDetails,
        interval: (Binary32, Binary32),
    ) -> WaypointView {
        WaypointView {
            altitude: partial.altitude,
            heading: partial.heading,
            latitude: partial.latitude,
            longitude: partial.longitude,
            curve_size: partial.curve_size,
            gimbal: partial.gimbal,
            poi: if details.waypoint_poi == NO_POI {
                None
            } else {
                Some(details.waypoint_poi)
            },
            interval: PhotoInterval::spec_from_tuple(interval),
            actions: partial.actions,
        }
    }

    /// Makes a waypoint of its three parts. The link to a point of interest
    /// comes from the details, the photo trigger from the interval tuple,
    /// everything else, the altitude too, from the partial waypoint.
    pub fn assemble(
        partial: WaypointPartial,
        details: &WaypointDetails,
        interval: (Binary32, Binary32),
    ) -> (waypoint: Waypoint)
        ensures
            waypoint@ == Self::spec_assemble(partial@, *details, interval),
            details.waypoint_poi == NO_POI ==> waypoint.poi is None,
            details.waypoint_poi != NO_POI ==> waypoint.poi == Some(details.waypoint_poi),
    {
        let poi = if details.waypoint_poi != NO_POI {
            Some(details.waypoint_poi)
        } else {
            None
        };
        Waypoint {
            altitude: partial.altitude,
            heading: partial.heading,
            latitude: partial.latitude,
            longitude: partial.longitude,
            curve_size: partial.curve_size,
            gimbal: partial.gimbal,
            poi,
            interval: PhotoInterval::from_tuple(interval),
            actions: partial.actions,
        }
    }
}

impl View for OtherSettings {
    type V = OtherSettings;

    open spec fn view(&self) -> OtherSettings {
        *self
    }
}

impl View for WaypointDetails {
    type V = WaypointDetails;

    open spec fn view(&self) -> WaypointDetails {
        *self
    }
}

impl View for PoIDetails {
    type V = PoIDetails;

    open spec fn view(&self) -> PoIDetails {
        *self
    }
}

impl Record for WaypointDetails {
    /// Ten bytes: a 16-bit flag, the altitude, the index.
    open spec fn parse(s: Seq<u8>) -> Result<(WaypointDetails, nat), Error> {
        if s.len() < 10 {
            Err(Error::OutOfData)
        } else {
            Ok(
                (
                    WaypointDetails {
                        is_above_ground: be_u16(s, 0),
                        wp_altitude: be_u32(s, 2),
                        waypoint_poi: be_u32(s, 6),
                    },
                    10,
                ),
            )
        }
    }

    proof fn lemma_parse_len(s: Seq<u8>) {
    }

    proof fn lemma_parse_prefix(s: Seq<u8>, k: int) {
        if k >= 10 {
            lemma_be_uint_take(s, k, 0, 2);
            lemma_be_uint_take(s, k, 2, 4);
            lemma_be_uint_take(s, k, 6, 4);
        }
    }

    fn deserialize(de: &mut Deserializer) -> (r: Result<Self, Error>) {
        let ghost s = de@;
        let is_above_ground = de.parse_u16()?;
        let wp_altitude = de.parse_float()?;
        proof {
            lemma_field(s, 2, 4);
        }
        let waypoint_poi = de.parse_u32()?;
        proof {
            lemma_field(s, 6, 4);
        }
        Ok(WaypointDetails { is_above_ground, wp_altitude, waypoint_poi })
    }
}

impl Record for PoIDetails {
    /// Six bytes: a 16-bit flag and the altitude.
    open spec fn parse(s: Seq<u8>) -> Result<(PoIDetails, nat), Error> {
        if s.len() < 6 {
            Err(Error::OutOfData)
        } else {
            Ok((PoIDetails { is_above_ground: be_u16(s, 0), wp_altitude: be_u32(s, 2) }, 6))
        }
    }

    proof fn lemma_parse_len(s: Seq<u8>) {
    }

    proof fn lemma_parse_prefix(s: Seq<u8>, k: int) {
        if k >= 6 {
            lemma_be_uint_take(s, k, 0, 2);
            lemma_be_uint_take(s, k, 2, 4);
        }
    }

    fn deserialize(de: &mut Deserializer) -> (r: Result<Self, Error>) {
        let ghost s = de@;
        let is_above_ground = de.parse_u16()?;
        let wp_altitude = de.parse_float()?;
        proof {
            lemma_field(s, 2, 4);
        }
        Ok(PoIDetails { is_above_ground, wp_altitude })
    }
}

impl Record for OtherSettings {
    /// Twenty bytes: three words, then two single-precision numbers.
    open spec fn parse(s: Seq<u8>) -> Result<(OtherSettings, nat), Error> {
        if s.len() < 20 {
            Err(Error::OutOfData)
        } else {
            Ok(
                (
                    OtherSettings {
                        unknown_1: be_u32(s, 0),
                        unknown_2: be_u32(s, 4),
                        unknown_3: be_u32(s, 8),
                        photo_capture_interval_seconds: be_u32(s, 12),
                        photo_capture_interval_meters: be_u32(s, 16),
                    },
                    20,
                ),
            )
        }
    }

    proof fn lemma_parse_len(s: Seq<u8>) {
    }

    proof fn lemma_parse_prefix(s: Seq<u8>, k: int) {
        if k >= 20 {
            lemma_be_uint_take(s, k, 0, 4);
            lemma_be_uint_take(s, k, 4, 4);
            lemma_be_uint_take(s, k, 8, 4);
            lemma_be_uint_take(s, k, 12, 4);
            lemma_be_uint_take(s, k, 16, 4);
        }
    }

    fn deserialize(de: &mut Deserializer) -> (r: Result<Self, Error>) {
        let ghost s = de@;
        let unknown_1 = de.parse_u32()?;
        let unknown_2 = de.parse_u32()?;
        proof {
            lemma_field(s, 4, 4);
        }
        let unknown_3 = de.parse_u32()?;
        proof {
            lemma_field(s, 8, 4);
        }
        let photo_capture_interval_seconds = de.parse_float()?;
        proof {
            lemma_field(s, 12, 4);
        }
        let photo_capture_interval_meters = de.parse_float()?;
        proof {
            lemma_field(s, 16, 4);
        }
        Ok(
            OtherSettings {
                unknown_1,
                unknown_2,
                unknown_3,
                photo_capture_interval_seconds,
                photo_capture_interval_meters,
            },
        )
    }
}

/// An interval tuple: seconds, then meters.
impl Record for (Binary32, Binary32) {
    /// Eight bytes: two single-precision numbers.
    open spec fn parse(s: Seq<u8>) -> Result<((Binary32, Binary32), nat), Error> {
        if s.len() < 8 {
            Err(Error::OutOfData)
        } else {
            Ok(((be_u32(s, 0), be_u32(s, 4)), 8))
        }
    }

    proof fn lemma_parse_len(s: Seq<u8>) {
    }

    proof fn lemma_parse_prefix(s: Seq<u8>, k: int) {
        if k >= 8 {
            lemma_be_uint_take(s, k, 0, 4);
            lemma_be_uint_take(s, k, 4, 4);
        }
    }

    fn deserialize(de: &mut Deserializer) -> (r: Result<Self, Error>) {
        let ghost s = de@;
        let seconds = de.parse_float()?;
        let meters = de.parse_float()?;
        proof {
            lemma_field(s, 4, 4);
        }
        Ok((seconds, meters))
    }
}

impl Record for LitchiMissionPartial {
    /// A word that is not read, the finish action, the path mode, the two
    /// speeds, four words of padding, then the waypoints and the points of
    /// interest, each as a counted sequence. A field is judged as soon as it
    /// has been read.
    open spec fn parse(s: Seq<u8>) -> Result<(LitchiMissionPartialView, nat), Error> {
        if s.len() < 8 {
            Err(Error::OutOfData)
        } else {
            match FinishAction::spec_from_u32(be_u32(s, 4)) {
                Err(e) => Err(e),
                Ok(finish_action) => if s.len() < 12 {
                    Err(Error::OutOfData)
                } else {
                    match PathMode::spec_from_u32(be_u32(s, 8)) {
                        Err(e) => Err(e),
                        Ok(path_mode) => if s.len() < 36 {
                            Err(Error::OutOfData)
                        } else {
                            match parse_seq::<WaypointPartial>(s.skip(36), Section::Waypoints) {
                                Err(e) => Err(e),
                                Ok((waypoints, n)) => match parse_seq::<PointOfInterest>(
                                    s.skip((36 + n) as int),
                                    Section::PointsOfInterest,
                                ) {
                                    Err(e) => Err(e),
                                    Ok((poi, m)) => Ok(
                                        (
                                            LitchiMissionPartialView {
                                                finish_action,
                                                path_mode,
                                                cruising_speed: be_u32(s, 12),
                                                max_speed: be_u32(s, 16),
                                                waypoints,
                                                poi,
                                            },
                                            36 + n + m,
                                        ),
                                    ),
                                },
                            }
                        },
                    }
                },
            }
        }
    }

    proof fn lemma_parse_len(s: Seq<u8>) {
        if s.len() >= 36 {
            lemma_parse_seq_len::<WaypointPartial>(s.skip(36), Section::Waypoints);
            if let Ok((_, n)) = parse_seq::<WaypointPartial>(s.skip(36), Section::Waypoints) {
                lemma_parse_seq_len::<PointOfInterest>(s.skip((36 + n) as int), Section::PointsOfInterest);
            }
        }
    }

    proof fn lemma_parse_prefix(s: Seq<u8>, k: int) {
        if k >= 8 {
            lemma_be_uint_take(s, k, 4, 4);
        }
        if k >= 12 {
            lemma_be_uint_take(s, k, 8, 4);
        }
        if k >= 36 {
            lemma_be_uint_take(s, k, 12, 4);
            lemma_be_uint_take(s, k, 16, 4);
            let n = parse_seq::<WaypointPartial>(s.skip(36), Section::Waypoints)->Ok_0.1;
            lemma_parse_seq_len::<WaypointPartial>(s.skip(36), Section::Waypoints);
            assert(s.take(k).skip(36) == s.skip(36).take(k - 36));
            lemma_parse_seq_prefix::<WaypointPartial>(s.skip(36), Section::Waypoints, k - 36);
            if 36 + n <= k {
                assert(s.take(k).skip((36 + n) as int) == s.skip((36 + n) as int).take(k - 36 - n));
                lemma_parse_seq_prefix::<PointOfInterest>(
                    s.skip((36 + n) as int),
                    Section::PointsOfInterest,
                    k - 36 - n,
                );
            }
        }
    }

    fn deserialize(de: &mut Deserializer) -> (r: Result<Self, Error>) {
        let ghost s = de@;
        let _ = de.parse_u32()?;
        let finish_code = de.parse_u32()?;
        proof {
            lemma_field(s, 4, 4);
        }
        let finish_action = FinishAction::from_u32(finish_code)?;
        let path_code = de.parse_u32()?;
        proof {
            lemma_field(s, 8, 4);
        }
        let path_mode = PathMode::from_u32(path_code)?;
        let cruising_speed = de.parse_float()?;
        proof {
            lemma_field(s, 12, 4);
        }
        let max_speed = de.parse_float()?;
        proof {
            lemma_field(s, 16, 4);
        }
        let _ = de.parse_u32()?;
        proof {
            lemma_field(s, 20, 4);
        }
        let _ = de.parse_u32()?;
        proof {
            lemma_field(s, 24, 4);
        }
        let _ = de.parse_u32()?;
        proof {
            lemma_field(s, 28, 4);
        }
        let _ = de.parse_u32()?;
        proof {
            lemma_field(s, 32, 4);
        }
        let waypoints = de.deserialize_seq::<WaypointPartial>(Section::Waypoints)?;
        let ghost n = parse_seq::<WaypointPartial>(s.skip(36), Section::Waypoints)->Ok_0.1;
        proof {
            lemma_parse_seq_len::<WaypointPartial>(s.skip(36), Section::Waypoints);
            assert(s.skip(36).skip(n as int) == s.skip((36 + n) as int));
        }
        let poi = de.deserialize_seq::<PointOfInterest>(Section::PointsOfInterest)?;
        proof {
            let m = parse_seq::<PointOfInterest>(s.skip((36 + n) as int), Section::PointsOfInterest)->Ok_0.1;
            lemma_parse_seq_len::<PointOfInterest>(s.skip((36 + n) as int), Section::PointsOfInterest);
            assert(s.skip((36 + n) as int).skip(m as int) == s.skip((36 + n + m) as int));
            assert(views(poi@) == poi@);
        }
        Ok(
            LitchiMissionPartial {
                finish_action,
                path_mode,
                cruising_speed,
                max_speed,
                waypoints,
                poi,
            },
        )
    }
}

/// The waypoints made by putting the records of the three per-waypoint
/// passes together index by index, as far as all three reach.
pub open spec fn assemble_waypoints(
    partials: Seq<WaypointPartialView>,
    details: Seq<WaypointDetails>,
    intervals: Seq<(Binary32, Binary32)>,
) -> Seq<WaypointView> {
    Seq::new(
        if partials.len() <= details.len() && partials.len() <= intervals.len() {
            partials.len()
        } else if details.len() <= intervals.len() {
            details.len()
        } else {
            intervals.len()
        },
        |i: int| Waypoint::spec_assemble(partials[i], details[i], intervals[i]),
    )
}

impl LitchiMission {
    /// The mission made of the metadata record and the two passes that add
    /// to its waypoints.
    pub open spec fn spec_assemble(
        partial: LitchiMissionPartialView,
        details: Seq<WaypointDetails>,
        intervals: Seq<(Binary32, Binary32)>,
    ) -> LitchiMissionView {
        LitchiMissionView {
            finish_action: partial.finish_action,
            path_mode: partial.path_mode,
            cruising_speed: partial.cruising_speed,
            max_speed: partial.max_speed,
            waypoints: assemble_waypoints(partial.waypoints, details, intervals),
            poi: partial.poi,
        }
    }

    /// Makes the mission of the metadata record and the two passes that add
    /// to its waypoints: waypoint `i` is assembled from partial waypoint `i`,
    /// detail `i` and interval `i`; settings and points of interest are
    /// taken over.
    pub fn assemble(
        partial: LitchiMissionPartial,
        details: &Vec<WaypointDetails>,
        intervals: &Vec<(Binary32, Binary32)>,
    ) -> (mission: LitchiMission)
        ensures
            mission@ == Self::spec_assemble(partial@, details@, intervals@),
    {
        let LitchiMissionPartial {
            finish_action,
            path_mode,
            cruising_speed,
            max_speed,
            waypoints: partials,
            poi,
        } = partial;
        let ghost expected = assemble_waypoints(views(partials@), details@, intervals@);
        let mut waypoints: Vec<Waypoint> = Vec::new();
        let mut index: usize = 0;
        assert(partials@.len() == partials.len());
        for waypoint in it: partials
            invariant
                it.seq() == partials@,
                partials@.len() <= usize::MAX,
                index == it.index(),
                waypoints@.len() == if index <= expected.len() {
                    index as nat
                } else {
                    expected.len()
                },
                expected == assemble_waypoints(views(partials@), details@, intervals@),
                forall|i: int| 0 <= i < waypoints@.len() ==> (#[trigger] waypoints@[i])@ == expected[i],
        {
            if index < details.len() && index < intervals.len() {
                waypoints.push(Waypoint::assemble(waypoint, &details[index], intervals[index]));
            }
            index = index + 1;
        }
        assert(views(waypoints@) == expected);
        LitchiMission { finish_action, path_mode, cruising_speed, max_speed, waypoints, poi }
    }
}

/// What the passes behind the metadata record decode to, for a mission of
/// `waypoints` waypoints and `pois` points of interest: the details of the
/// waypoints, those of the points of interest, the settings record and the
/// interval tuples, in this order. Handed out are the details of the
/// waypoints, the intervals and the bytes taken up.
pub open spec fn parse_passes(s: Seq<u8>, waypoints: nat, pois: nat) -> Result<
    (Seq<WaypointDetails>, Seq<(Binary32, Binary32)>, nat),
    Error,
> {
    match parse_tuple::<WaypointDetails>(s, Section::WaypointDetails, waypoints) {
        Err(e) => Err(e),
        Ok((details, a)) => match parse_tuple::<PoIDetails>(
            s.skip(a as int),
            Section::PoiDetails,
            pois,
        ) {
            Err(e) => Err(e),
            Ok((_, b)) => match OtherSettings::parse(s.skip((a + b) as int)) {
                Err(e) => Err(e),
                Ok((_, c)) => match parse_tuple::<(Binary32, Binary32)>(
                    s.skip((a + b + c) as int),
                    Section::Intervals,
                    waypoints,
                ) {
                    Err(e) => Err(e),
                    Ok((intervals, d)) => Ok((details, intervals, a + b + c + d)),
                },
            },
        },
    }
}

/// The passes hold one detail and one interval for each waypoint, within
/// the input.
pub proof fn lemma_parse_passes_len(s: Seq<u8>, waypoints: nat, pois: nat)
    ensures
        parse_passes(s, waypoints, pois) matches Ok((details, intervals, n)) ==> details.len()
            == waypoints && intervals.len() == waypoints && n <= s.len(),
{
    lemma_parse_tuple_len::<WaypointDetails>(s, Section::WaypointDetails, waypoints);
    if let Ok((_, a)) = parse_tuple::<WaypointDetails>(s, Section::WaypointDetails, waypoints) {
        lemma_parse_tuple_len::<PoIDetails>(s.skip(a as int), Section::PoiDetails, pois);
        if let Ok((_, b)) = parse_tuple::<PoIDetails>(s.skip(a as int), Section::PoiDetails, pois) {
            OtherSettings::lemma_parse_len(s.skip((a + b) as int));
            if let Ok((_, c)) = OtherSettings::parse(s.skip((a + b) as int)) {
                lemma_parse_tuple_len::<(Binary32, Binary32)>(
                    s.skip((a + b + c) as int),
                    Section::Intervals,
                    waypoints,
                );
            }
        }
    }
}

/// The passes are decoded from their own bytes alone.
pub proof fn lemma_parse_passes_prefix(s: Seq<u8>, waypoints: nat, pois: nat, k: int)
    requires
        0 <= k <= s.len(),
        parse_passes(s, waypoints, pois) is Ok,
    ensures
        parse_passes(s, waypoints, pois)->Ok_0.2 <= k ==> parse_passes(s.take(k), waypoints, pois)
            == parse_passes(s, waypoints, pois),
        parse_passes(s, waypoints, pois)->Ok_0.2 > k ==> parse_passes(
            s.take(k),
            waypoints,
            pois,
        ) is Err && parse_passes(s.take(k), waypoints, pois)->Err_0.spec_kind()
            == ErrorKind::TruncatedInput,
{
    let a = parse_tuple::<WaypointDetails>(s, Section::WaypointDetails, waypoints)->Ok_0.1;
    let b = parse_tuple::<PoIDetails>(s.skip(a as int), Section::PoiDetails, pois)->Ok_0.1;
    let c = OtherSettings::parse(s.skip((a + b) as int))->Ok_0.1;
    lemma_parse_tuple_len::<WaypointDetails>(s, Section::WaypointDetails, waypoints);
    lemma_parse_tuple_len::<PoIDetails>(s.skip(a as int), Section::PoiDetails, pois);
    OtherSettings::lemma_parse_len(s.skip((a + b) as int));
    lemma_parse_tuple_prefix::<WaypointDetails>(s, Section::WaypointDetails, waypoints, k);
    if a <= k {
        assert(s.take(k).skip(a as int) == s.skip(a as int).take(k - a));
        lemma_parse_tuple_prefix::<PoIDetails>(s.skip(a as int), Section::PoiDetails, pois, k - a);
        if a + b <= k {
            assert(s.take(k).skip((a + b) as int) == s.skip((a + b) as int).take(k - a - b));
            OtherSettings::lemma_parse_prefix(s.skip((a + b) as int), k - a - b);
            if a + b + c <= k {
                assert(s.take(k).skip((a + b + c) as int) == s.skip((a + b + c) as int).take(
                    k - a - b - c,
                ));
                lemma_parse_tuple_prefix::<(Binary32, Binary32)>(
                    s.skip((a + b + c) as int),
                    Section::Intervals,
                    waypoints,
                    k - a - b - c,
                );
            }
        }
    }
}

/// Decodes the passes behind the metadata record of a mission of
/// `nb_waypoints` waypoints and `nb_poi` points of interest, and hands out
/// the details of the waypoints and the interval tuples. The details of the
/// points of interest and the settings record are decoded, so that the
/// cursor comes to stand where the intervals begin, and then dropped.
pub fn deserialize_passes(de: &mut Deserializer, nb_waypoints: u32, nb_poi: u32) -> (r: Result<
    (Vec<WaypointDetails>, Vec<(Binary32, Binary32)>),
    Error,
>)
    ensures
        match parse_passes(old(de)@, nb_waypoints as nat, nb_poi as nat) {
            Ok((details, intervals, n)) => r matches Ok(passes) && passes.0@ == details
                && passes.1@ == intervals && final(de)@ == old(de)@.skip(n as int),
            Err(e) => r == Err::<(Vec<WaypointDetails>, Vec<(Binary32, Binary32)>), Error>(e),
        },
{
    let ghost s = de@;
    let wp_details = de.deserialize_tuple::<WaypointDetails>(
        Section::WaypointDetails,
        nb_waypoints,
    )?;
    let ghost a = parse_tuple::<WaypointDetails>(
        s,
        Section::WaypointDetails,
        nb_waypoints as nat,
    )->Ok_0.1;
    proof {
        lemma_parse_tuple_len::<WaypointDetails>(s, Section::WaypointDetails, nb_waypoints as nat);
        assert(views(wp_details@) == wp_details@);
    }
    let _poi_details = de.deserialize_tuple::<PoIDetails>(Section::PoiDetails, nb_poi)?;
    let ghost b = parse_tuple::<PoIDetails>(
        s.skip(a as int),
        Section::PoiDetails,
        nb_poi as nat,
    )->Ok_0.1;
    proof {
        lemma_parse_tuple_len::<PoIDetails>(s.skip(a as int), Section::PoiDetails, nb_poi as nat);
        assert(s.skip(a as int).skip(b as int) == s.skip((a + b) as int));
    }
    let _other_settings = OtherSettings::deserialize(de)?;
    let ghost c = OtherSettings::parse(s.skip((a + b) as int))->Ok_0.1;
    proof {
        OtherSettings::lemma_parse_len(s.skip((a + b) as int));
        assert(s.skip((a + b) as int).skip(c as int) == s.skip((a + b + c) as int));
    }
    let wp_intervals = de.deserialize_tuple::<(Binary32, Binary32)>(
        Section::Intervals,
        nb_waypoints,
    )?;
    proof {
        let d = parse_tuple::<(Binary32, Binary32)>(
            s.skip((a + b + c) as int),
            Section::Intervals,
            nb_waypoints as nat,
        )->Ok_0.1;
        lemma_parse_tuple_len::<(Binary32, Binary32)>(
            s.skip((a + b + c) as int),
            Section::Intervals,
            nb_waypoints as nat,
        );
        assert(s.skip((a + b + c) as int).skip(d as int) == s.skip((a + b + c + d) as int));
        assert(views(wp_intervals@) == wp_intervals@);
    }
    Ok((wp_details, wp_intervals))
}

impl Record for LitchiMission {
    /// A whole mission: the magic number, the metadata record, and the
    /// passes that the counts in the metadata record call for. The first
    /// step that fails ends the decoding.
    open spec fn parse(s: Seq<u8>) -> Result<(LitchiMissionView, nat), Error> {
        if s.len() < 4 {
            Err(Error::OutOfData)
        } else if be_u32(s, 0) != MAGIC {
            Err(Error::BadMagic)
        } else {
            match LitchiMissionPartial::parse(s.skip(4)) {
                Err(e) => Err(e),
                Ok((partial, n)) => match parse_passes(
                    s.skip((4 + n) as int),
                    partial.waypoints.len(),
                    partial.poi.len(),
                ) {
                    Err(e) => Err(e),
                    Ok((details, intervals, m)) => Ok(
                        (LitchiMission::spec_assemble(partial, details, intervals), 4 + n + m),
                    ),
                },
            }
        }
    }

    proof fn lemma_parse_len(s: Seq<u8>) {
        if s.len() >= 4 {
            LitchiMissionPartial::lemma_parse_len(s.skip(4));
            if let Ok((partial, n)) = LitchiMissionPartial::parse(s.skip(4)) {
                lemma_parse_passes_len(
                    s.skip((4 + n) as int),
                    partial.waypoints.len(),
                    partial.poi.len(),
                );
            }
        }
    }

    proof fn lemma_parse_prefix(s: Seq<u8>, k: int) {
        if k >= 4 {
            lemma_be_uint_take(s, k, 0, 4);
            let (partial, n) = LitchiMissionPartial::parse(s.skip(4))->Ok_0;
            LitchiMissionPartial::lemma_parse_len(s.skip(4));
            assert(s.take(k).skip(4) == s.skip(4).take(k - 4));
            LitchiMissionPartial::lemma_parse_prefix(s.skip(4), k - 4);
            if 4 + n <= k {
                assert(s.take(k).skip((4 + n) as int) == s.skip((4 + n) as int).take(k - 4 - n));
                lemma_parse_passes_prefix(
                    s.skip((4 + n) as int),
                    partial.waypoints.len(),
                    partial.poi.len(),
                    k - 4 - n,
                );
            }
        }
    }

    fn deserialize(de: &mut Deserializer) -> (r: Result<Self, Error>) {
        let ghost s = de@;
        let maybe_magic = de.parse_u32()?;
        if maybe_magic != MAGIC {
            return Err(Error::BadMagic);
        }
        let mission_part = LitchiMissionPartial::deserialize(de)?;
        let ghost n = LitchiMissionPartial::parse(s.skip(4))->Ok_0.1;
        proof {
            LitchiMissionPartial::lemma_parse_len(s.skip(4));
            lemma_counts(s.skip(4));
            assert(s.skip(4).skip(n as int) == s.skip((4 + n) as int));
        }
        let nb_waypoints = mission_part.waypoints.len() as u32;
        let nb_poi = mission_part.poi.len() as u32;
        let (wp_details, wp_intervals) = deserialize_passes(de, nb_waypoints, nb_poi)?;
        proof {
            let m = parse_passes(s.skip((4 + n) as int), nb_waypoints as nat, nb_poi as nat)->Ok_0.2;
            lemma_parse_passes_len(s.skip((4 + n) as int), nb_waypoints as nat, nb_poi as nat);
            assert(s.skip((4 + n) as int).skip(m as int) == s.skip((4 + n + m) as int));
        }
        Ok(LitchiMission::assemble(mission_part, &wp_details, &wp_intervals))
    }
}

/// The place of the waypoint count in a metadata record.
pub open spec fn declared_waypoints(s: Seq<u8>) -> u32 {
    be_u32(s, 36)
}

/// The place of the count of points of interest in a metadata record
/// whose waypoint array takes up `n` bytes, its count included.
pub open spec fn declared_pois(s: Seq<u8>, n: nat) -> u32 {
    be_u32(s, (36 + n) as int)
}

/// A metadata record that decodes holds as many waypoints and points of
/// interest as the two counts in it declare.
pub proof fn lemma_counts(s: Seq<u8>)
    ensures
        LitchiMissionPartial::parse(s) matches Ok((partial, _)) ==> {
            &&& partial.waypoints.len() == declared_waypoints(s)
            &&& partial.poi.len() == declared_pois(
                s,
                parse_seq::<WaypointPartial>(s.skip(36), Section::Waypoints)->Ok_0.1,
            )
        },
{
    if LitchiMissionPartial::parse(s) is Ok {
        let n = parse_seq::<WaypointPartial>(s.skip(36), Section::Waypoints)->Ok_0.1;
        lemma_parse_seq_len::<WaypointPartial>(s.skip(36), Section::Waypoints);
        lemma_parse_seq_len::<PointOfInterest>(s.skip((36 + n) as int), Section::PointsOfInterest);
        lemma_field(s, 36, 4);
        lemma_field(s, (36 + n) as int, 4);
    }
}

} // verus!
