//! Waypoints, and the tuples in them that stand for actions and gimbal
//! directives.

use vstd::prelude::*;

use super::deserializer::{
    as_signed, be_u32, be_u64, lemma_be_uint_take, lemma_field, lemma_parse_tuple_len,
    lemma_parse_tuple_prefix, parse_tuple, views, Deserializer, Record,
};
use super::error::{Error, Section};
use super::PhotoInterval;
use crate::ieee::{binary64_from_i32, binary64_from_int, Binary32, Binary64};
use crate::litchi::csv::GimbalSettings;
use crate::litchi::Action;

verus! {

/// The fixed part of a waypoint: 56 bytes, of which the words at 4, 12, 16
/// and 52 carry nothing that is read.
#[derive(Clone, Copy, Debug, PartialEq, Eq)]
pub struct WaypointRaw {
    pub altitude: Binary32,
    pub heading: Binary32,
    pub latitude: Binary64,
    pub longitude: Binary64,
    pub curve_size: Binary32,
    /// Mode and angle of the gimbal directive.
    pub gimbal_settings: (u32, i32),
    /// How many action tuples follow the fixed part.
    pub nb_actions: u32,
}

/// A waypoint as it stands in the waypoint array, before the later passes
/// have added to it.
#[derive(Debug, PartialEq, Eq)]
pub struct WaypointPartial {
    pub altitude: Binary32,
    pub heading: Binary32,
    pub latitude: Binary64,
    pub longitude: Binary64,
    pub curve_size: Binary32,
    pub gimbal: Option<GimbalSettings>,
    pub actions: Vec<Action>,
}

/// What a [`WaypointPartial`] holds.
pub struct WaypointPartialView {
    pub altitude: Binary32,
    pub heading: Binary32,
    pub latitude: Binary64,
    pub longitude: Binary64,
    pub curve_size: Binary32,
    pub gimbal: Option<GimbalSettings>,
    pub actions: Seq<Action>,
}

impl View for WaypointPartial {
    type V = WaypointPartialView;

    open spec fn view(&self) -> WaypointPartialView {
        WaypointPartialView {
            altitude: self.altitude,
            heading: self.heading,
            latitude: self.latitude,
            longitude: self.longitude,
            curve_size: self.curve_size,
            gimbal: self.gimbal,
            actions: self.actions@,
        }
    }
}

impl WaypointPartial {
    /// The waypoint made of a fixed part and the actions that followed it.
    pub open spec fn spec_from_raw(raw: WaypointRaw, actions: Seq<Action>) -> Result<
        WaypointPartialView,
        Error,
    > {
        match GimbalSettings::spec_from_tuple(raw.gimbal_settings) {
            Ok(gimbal) => Ok(
                WaypointPartialView {
                    altitude: raw.altitude,
                    heading: raw.heading,
                    latitude: raw.latitude,
                    longitude: raw.longitude,
                    curve_size: raw.curve_size,
                    gimbal,
                    actions,
                },
            ),
            Err(e) => Err(e),
        }
    }

    /// Makes a waypoint of a fixed part and the actions that followed it:
    /// the gimbal tuple becomes a directive, everything else is taken over.
    pub fn from_raw(raw: WaypointRaw, actions: Vec<Action>) -> (r: Result<WaypointPartial, Error>)
        ensures
            match Self::spec_from_raw(raw, actions@) {
                Ok(v) => r matches Ok(w) && w@ == v,
                Err(e) => r == Err::<WaypointPartial, Error>(e),
            },
    {
        let gimbal = GimbalSettings::from_tuple(raw.gimbal_settings)?;
        Ok(
            WaypointPartial {
                altitude: raw.altitude,
                heading: raw.heading,
                latitude: raw.latitude,
                longitude: raw.longitude,
                curve_size: raw.curve_size,
                gimbal,
                actions,
            },
        )
    }
}

/// A waypoint of a decoded mission.
#[derive(Debug, PartialEq, Eq)]
pub struct Waypoint {
    pub altitude: Binary32,
    pub heading: Binary32,
    pub latitude: Binary64,
    pub longitude: Binary64,
    pub curve_size: Binary32,
    pub gimbal: Option<GimbalSettings>,
    /// The index of the point of interest the waypoint is linked to.
    pub poi: Option<u32>,
    pub interval: Option<PhotoInterval>,
    pub actions: Vec<Action>,
}

/// The low 16 bits of `value`.
pub open spec fn low_half(value: u32) -> u16 {
    (value % 0x1_0000) as u16
}

/// The low 16 bits of `value`, read in two's complement.
pub open spec fn low_half_signed(value: u32) -> i16 {
    if value % 0x1_0000 < 0x8000 {
        (value % 0x1_0000) as i16
    } else {
        (value % 0x1_0000 - 0x1_0000) as i16
    }
}

/// What a [`Waypoint`] holds.
pub struct WaypointView {
    pub altitude: Binary32,
    pub heading: Binary32,
    pub latitude: Binary64,
    pub longitude: Binary64,
    pub curve_size: Binary32,
    pub gimbal: Option<GimbalSettings>,
    pub poi: Option<u32>,
    pub interval: Option<PhotoInterval>,
    pub actions: Seq<Action>,
}

impl View for Waypoint {
    type V = WaypointView;

    open spec fn view(&self) -> WaypointView {
        WaypointView {
            altitude: self.altitude,
            heading: self.heading,
            latitude: self.latitude,
            longitude: self.longitude,
            curve_size: self.curve_size,
            gimbal: self.gimbal,
            poi: self.poi,
            interval: self.interval,
            actions: self.actions@,
        }
    }
}

impl GimbalSettings {
    /// The gimbal directive that a tuple of mode and angle stands for.
    pub open spec fn spec_from_tuple(tuple: (u32, i32)) -> Result<Option<GimbalSettings>, Error> {
        match tuple.0 {
            0 => Ok(None),
            1 => Ok(Some(GimbalSettings::FocusPoi(binary64_from_int(tuple.1 as int)))),
            2 => Ok(Some(GimbalSettings::Interpolate(binary64_from_int(tuple.1 as int)))),
            _ => Err(Error::UnknownGimbalMode { mode: tuple.0 }),
        }
    }

    /// The gimbal directive that a tuple of mode and angle stands for: mode
    /// 0 is no directive, whatever the angle; modes 1 and 2 carry the angle
    /// as a double-precision number; any other mode is refused.
    pub fn from_tuple(tuple: (u32, i32)) -> (r: Result<Option<GimbalSettings>, Error>)
        ensures
            r == Self::spec_from_tuple(tuple),
    {
        let (mode, angle) = tuple;
        match mode {
            0 => Ok(None),
            1 => Ok(Some(GimbalSettings::FocusPoi(binary64_from_i32(angle)))),
            2 => Ok(Some(GimbalSettings::Interpolate(binary64_from_i32(angle)))),
            _ => Err(Error::UnknownGimbalMode { mode }),
        }
    }
}

impl Action {
    /// The action that a tuple of code and value stands for.
    pub open spec fn spec_from_tuple(tuple: (u32, u32)) -> Result<Action, Error> {
        match tuple.0 {
            0 => Ok(Action::StayFor { ms: tuple.1 as usize }),
            1 => Ok(Action::TakePhoto),
            2 => Ok(Action::StartRecording),
            3 => Ok(Action::StopRecording),
            4 => Ok(Action::RotateAircraft { angle: low_half(tuple.1) }),
            5 => Ok(Action::TiltCamera { angle: low_half_signed(tuple.1) }),
            _ => Err(Error::UnknownAction { code: tuple.0, value: tuple.1 }),
        }
    }

    /// The action that a tuple of code and value stands for. Codes 1 to 3
    /// take no value; the angles of codes 4 and 5 are the low 16 bits of the
    /// value; a code above 5 is refused.
    pub fn from_tuple(tuple: (u32, u32)) -> (r: Result<Action, Error>)
        ensures
            r == Self::spec_from_tuple(tuple),
    {
        let (code, value) = tuple;
        match code {
            0 => Ok(Action::StayFor { ms: value as usize }),
            1 => Ok(Action::TakePhoto),
            2 => Ok(Action::StartRecording),
            3 => Ok(Action::StopRecording),
            4 => Ok(Action::RotateAircraft { angle: (value % 0x1_0000) as u16 }),
            5 => {
                let low: u32 = value % 0x1_0000;
                if low < 0x8000 {
                    Ok(Action::TiltCamera { angle: low as i16 })
                } else {
                    Ok(Action::TiltCamera { angle: (low as i32 - 0x1_0000) as i16 })
                }
            },
            _ => Err(Error::UnknownAction { code, value }),
        }
    }
}

impl Record for Action {
    /// Eight bytes: code, then value.
    open spec fn parse(s: Seq<u8>) -> Result<(Action, nat), Error> {
        if s.len() < 8 {
            Err(Error::OutOfData)
        } else {
            match Action::spec_from_tuple((be_u32(s, 0), be_u32(s, 4))) {
                Ok(action) => Ok((action, 8)),
                Err(e) => Err(e),
            }
        }
    }

    proof fn lemma_parse_len(s: Seq<u8>) {
    }

    proof fn lemma_parse_prefix(s: Seq<u8>, k: int) {
        if k >= 8 {
            lemma_be_uint_take(s, k, 0, 4);
            lemma_be_uint_take(s, k, 4, 4);
        }
    }

    fn deserialize(de: &mut Deserializer) -> (r: Result<Self, Error>) {
        let ghost s = de@;
        let code = de.parse_u32()?;
        let value = de.parse_u32()?;
        proof {
            lemma_field(s, 4, 4);
        }
        Action::from_tuple((code, value))
    }
}

impl View for WaypointRaw {
    type V = WaypointRaw;

    open spec fn view(&self) -> WaypointRaw {
        *self
    }
}

impl Record for WaypointRaw {
    open spec fn parse(s: Seq<u8>) -> Result<(WaypointRaw, nat), Error> {
        if s.len() < 56 {
            Err(Error::OutOfData)
        } else {
            Ok(
                (
                    WaypointRaw {
                        altitude: be_u32(s, 0),
                        heading: be_u32(s, 8),
                        latitude: be_u64(s, 20),
                        longitude: be_u64(s, 28),
                        curve_size: be_u32(s, 36),
                        gimbal_settings: (be_u32(s, 40), as_signed(be_u32(s, 44))),
                        nb_actions: be_u32(s, 48),
                    },
                    56,
                ),
            )
        }
    }

    proof fn lemma_parse_len(s: Seq<u8>) {
    }

    proof fn lemma_parse_prefix(s: Seq<u8>, k: int) {
        if k >= 56 {
            lemma_be_uint_take(s, k, 0, 4);
            lemma_be_uint_take(s, k, 8, 4);
            lemma_be_uint_take(s, k, 20, 8);
            lemma_be_uint_take(s, k, 28, 8);
            lemma_be_uint_take(s, k, 36, 4);
            lemma_be_uint_take(s, k, 40, 4);
            lemma_be_uint_take(s, k, 44, 4);
            lemma_be_uint_take(s, k, 48, 4);
        }
    }

    fn deserialize(de: &mut Deserializer) -> (r: Result<Self, Error>) {
        let ghost s = de@;
        let altitude = de.parse_float()?;
        let _ = de.parse_u32()?;
        proof {
            lemma_field(s, 4, 4);
        }
        let heading = de.parse_float()?;
        proof {
            lemma_field(s, 8, 4);
        }
        let _ = de.parse_u32()?;
        proof {
            lemma_field(s, 12, 4);
        }
        let _ = de.parse_u32()?;
        proof {
            lemma_field(s, 16, 4);
        }
        let latitude = de.parse_double()?;
        proof {
            lemma_field(s, 20, 8);
        }
        let longitude = de.parse_double()?;
        proof {
            lemma_field(s, 28, 8);
        }
        let curve_size = de.parse_float()?;
        proof {
            lemma_field(s, 36, 4);
        }
        let mode = de.parse_u32()?;
        proof {
            lemma_field(s, 40, 4);
        }
        let angle = de.parse_i32()?;
        proof {
            lemma_field(s, 44, 4);
        }
        let nb_actions = de.parse_u32()?;
        proof {
            lemma_field(s, 48, 4);
        }
        let _ = de.parse_u32()?;
        proof {
            lemma_field(s, 52, 4);
        }
        Ok(
            WaypointRaw {
                altitude,
                heading,
                latitude,
                longitude,
                curve_size,
                gimbal_settings: (mode, angle),
                nb_actions,
            },
        )
    }
}

impl Record for WaypointPartial {
    /// The fixed part, then as many actions as it announces. The gimbal
    /// tuple is looked at last.
    open spec fn parse(s: Seq<u8>) -> Result<(WaypointPartialView, nat), Error> {
        match WaypointRaw::parse(s) {
            Err(e) => Err(e),
            Ok((raw, n)) => match parse_tuple::<Action>(
                s.skip(n as int),
                Section::Actions,
                raw.nb_actions as nat,
            ) {
                Err(e) => Err(e),
                Ok((actions, m)) => match WaypointPartial::spec_from_raw(raw, actions) {
                    Err(e) => Err(e),
                    Ok(waypoint) => Ok((waypoint, n + m)),
                },
            },
        }
    }

    proof fn lemma_parse_len(s: Seq<u8>) {
        if let Ok((raw, n)) = WaypointRaw::parse(s) {
            lemma_parse_tuple_len::<Action>(s.skip(n as int), Section::Actions, raw.nb_actions as nat);
        }
    }

    proof fn lemma_parse_prefix(s: Seq<u8>, k: int) {
        let (raw, n) = WaypointRaw::parse(s)->Ok_0;
        WaypointRaw::lemma_parse_prefix(s, k);
        if n <= k {
            assert(s.take(k).skip(n as int) == s.skip(n as int).take(k - n));
            lemma_parse_tuple_prefix::<Action>(
                s.skip(n as int),
                Section::Actions,
                raw.nb_actions as nat,
                k - n,
            );
        }
    }

    fn deserialize(de: &mut Deserializer) -> (r: Result<Self, Error>) {
        let ghost s = de@;
        let raw = WaypointRaw::deserialize(de)?;
        let actions = de.deserialize_tuple::<Action>(Section::Actions, raw.nb_actions)?;
        proof {
            assert(views(actions@) == actions@);
            let m = parse_tuple::<Action>(s.skip(56), Section::Actions, raw.nb_actions as nat)->Ok_0.1;
            lemma_parse_tuple_len::<Action>(s.skip(56), Section::Actions, raw.nb_actions as nat);
            assert(s.skip(56).skip(m as int) == s.skip((56 + m) as int));
        }
        WaypointPartial::from_raw(raw, actions)
    }
}

} // verus!
