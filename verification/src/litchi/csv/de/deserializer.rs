//! Column names, and the gathering of a record from its columns.

use vstd::prelude::*;

use super::helpers::{
    ActionHelper, AltitudeHelper, ComposedFieldError, CoordinatesHelper, GimbalModeHelper,
};
use super::{Coordinates, GimbalSettings, MissionRecord};
use crate::ieee::{Binary32, Binary64};
use crate::litchi::Action;
use crate::text::{from_utf8, parse_unsigned, parse_usize, str_eq};
use vstd::utf8::{decode_utf8, valid_utf8};

verus! {

/// The columns of a delimited-text mission. The two columns of an action
/// carry the number of the action's slot, counted from 1.
#[derive(Clone, Copy, Debug, PartialEq, Eq, Structural)]
pub enum MissionField {
    Latitude,
    Longitude,
    Altitude,
    Heading,
    CurveSize,
    RotationDir,
    GimbalMode,
    GimbalPitchAngle,
    AlitudeMode,
    Speed,
    PoiLatitude,
    PoiLongitude,
    PoiAltitude,
    PoiAltitudeMode,
    PhotoTimeInterval,
    PhotoDistInterval,
    ActionType(usize),
    ActionParam(usize),
}

/// Why a column name names no column.
#[derive(Clone, Copy, Debug, PartialEq, Eq, Structural)]
pub enum FieldError {
    /// The name holds no run of lower-case letters and underscores.
    NoName,
    /// The run of letters is the name of no column.
    UnknownField,
    /// The column of an action without the number of its slot.
    MissingActionIndex,
    /// The number of an action's slot does not fit a machine word.
    BadActionIndex,
    /// The name is no text.
    InvalidUtf8,
}

/// How a column name is taken apart: a run of lower-case letters and
/// underscores, and the digits right behind it, if there are any.
pub const FIELD_PATTERN: &'static str = "([a-z_]+)([0-9]+)?";

/// What the capture groups of the leftmost match of `pattern` in `text`
/// hold, from group 1 on; `None` where the pattern is no regular expression
/// or matches nowhere in the text. A group that took no part in the match
/// holds `None`.
pub uninterp spec fn regex_captures(pattern: Seq<char>, text: Seq<char>) -> Option<
    Seq<Option<Seq<char>>>,
>;

/// What each group holds, as characters.
pub open spec fn group_views(groups: Seq<Option<String>>) -> Seq<Option<Seq<char>>> {
    Seq::new(
        groups.len(),
        |i: int|
            match groups[i] {
                Some(text) => Some(text@),
                None => None,
            },
    )
}

/// Matches `pattern` against `text` and hands out the text of each capture
/// group, from group 1 on.
///
/// This is `Regex::new` followed by `Regex::captures` of the regex crate:
/// the groups of the leftmost match, taken out one by one with
/// `Captures::get`. What they hold is a function of pattern and text alone,
/// and it is known here only by its name, [`regex_captures`].
#[verifier::external_body]
fn captures(pattern: &str, text: &str) -> (groups: Option<Vec<Option<String>>>)
    ensures
        match regex_captures(pattern@, text@) {
            Some(expected) => groups matches Some(found) && group_views(found@) == expected,
            None => groups is None,
        },
{
    let re = regex::Regex::new(pattern).ok()?;
    let found = re.captures(text)?;
    Some((1..found.len()).map(|i| found.get(i).map(|m| m.as_str().to_owned())).collect())
}

impl MissionField {
    /// The column that a name without a slot number names.
    pub open spec fn spec_plain(name: Seq<char>) -> Option<MissionField> {
        if name == "latitude"@ {
            Some(MissionField::Latitude)
        } else if name == "longitude"@ {
            Some(MissionField::Longitude)
        } else if name == "altitude"@ {
            Some(MissionField::Altitude)
        } else if name == "heading"@ {
            Some(MissionField::Heading)
        } else if name == "curvesize"@ {
            Some(MissionField::CurveSize)
        } else if name == "rotationdir"@ {
            Some(MissionField::RotationDir)
        } else if name == "gimbalmode"@ {
            Some(MissionField::GimbalMode)
        } else if name == "gimbalpitchangle"@ {
            Some(MissionField::GimbalPitchAngle)
        } else if name == "altitudemode"@ {
            Some(MissionField::AlitudeMode)
        } else if name == "speed"@ {
            Some(MissionField::Speed)
        } else if name == "poi_latitude"@ {
            Some(MissionField::PoiLatitude)
        } else if name == "poi_longitude"@ {
            Some(MissionField::PoiLongitude)
        } else if name == "poi_altitude"@ {
            Some(MissionField::PoiAltitude)
        } else if name == "poi_altitudemode"@ {
            Some(MissionField::PoiAltitudeMode)
        } else if name == "photo_timeinterval"@ {
            Some(MissionField::PhotoTimeInterval)
        } else if name == "photo_distinterval"@ {
            Some(MissionField::PhotoDistInterval)
        } else {
            None
        }
    }

    /// The slot number that the digits behind an action column's name spell.
    pub open spec fn spec_index(digits: Option<Seq<char>>) -> Result<usize, FieldError> {
        match digits {
            None => Err(FieldError::MissingActionIndex),
            Some(digits) => match parse_unsigned(digits, usize::MAX as nat) {
                Some(n) => Ok(n as usize),
                None => Err(FieldError::BadActionIndex),
            },
        }
    }

    /// The column that the capture groups of a column name stand for.
    pub open spec fn spec_from_captures(groups: Option<Seq<Option<Seq<char>>>>) -> Result<
        MissionField,
        FieldError,
    > {
        match groups {
            None => Err(FieldError::NoName),
            Some(groups) => if groups.len() < 2 || groups[0] is None {
                Err(FieldError::NoName)
            } else {
                let name = groups[0]->Some_0;
                match Self::spec_plain(name) {
                    Some(field) => Ok(field),
                    None => if name == "actiontype"@ {
                        match Self::spec_index(groups[1]) {
                            Ok(index) => Ok(MissionField::ActionType(index)),
                            Err(e) => Err(e),
                        }
                    } else if name == "actionparam"@ {
                        match Self::spec_index(groups[1]) {
                            Ok(index) => Ok(MissionField::ActionParam(index)),
                            Err(e) => Err(e),
                        }
                    } else {
                        Err(FieldError::UnknownField)
                    },
                }
            },
        }
    }

    /// The column that a name without a slot number names.
    fn plain(name: &str) -> (field: Option<MissionField>)
        ensures
            field == Self::spec_plain(name@),
    {
        if str_eq(name, "latitude") {
            Some(MissionField::Latitude)
        } else if str_eq(name, "longitude") {
            Some(MissionField::Longitude)
        } else if str_eq(name, "altitude") {
            Some(MissionField::Altitude)
        } else if str_eq(name, "heading") {
            Some(MissionField::Heading)
        } else if str_eq(name, "curvesize") {
            Some(MissionField::CurveSize)
        } else if str_eq(name, "rotationdir") {
            Some(MissionField::RotationDir)
        } else if str_eq(name, "gimbalmode") {
            Some(MissionField::GimbalMode)
        } else if str_eq(name, "gimbalpitchangle") {
            Some(MissionField::GimbalPitchAngle)
        } else if str_eq(name, "altitudemode") {
            Some(MissionField::AlitudeMode)
        } else if str_eq(name, "speed") {
            Some(MissionField::Speed)
        } else if str_eq(name, "poi_latitude") {
            Some(MissionField::PoiLatitude)
        } else if str_eq(name, "poi_longitude") {
            Some(MissionField::PoiLongitude)
        } else if str_eq(name, "poi_altitude") {
            Some(MissionField::PoiAltitude)
        } else if str_eq(name, "poi_altitudemode") {
            Some(MissionField::PoiAltitudeMode)
        } else if str_eq(name, "photo_timeinterval") {
            Some(MissionField::PhotoTimeInterval)
        } else if str_eq(name, "photo_distinterval") {
            Some(MissionField::PhotoDistInterval)
        } else {
            None
        }
    }

    /// The slot number that the digits behind an action column's name spell.
    fn index(digits: &Option<String>) -> (r: Result<usize, FieldError>)
        ensures
            r == Self::spec_index(
                match *digits {
                    Some(text) => Some(text@),
                    None => None,
                },
            ),
    {
        match digits {
            None => Err(FieldError::MissingActionIndex),
            Some(digits) => match parse_usize(digits.as_str()) {
                Some(n) => Ok(n),
                None => Err(FieldError::BadActionIndex),
            },
        }
    }

    /// The column that the capture groups of a column name stand for: group
    /// 1 is the name, group 2 the slot number of an action's column.
    pub fn from_captures(groups: &Option<Vec<Option<String>>>) -> (r: Result<
        MissionField,
        FieldError,
    >)
        ensures
            r == Self::spec_from_captures(
                match *groups {
                    Some(found) => Some(group_views(found@)),
                    None => None,
                },
            ),
    {
        let groups = match groups {
            Some(groups) => groups,
            None => {
                return Err(FieldError::NoName);
            },
        };
        if groups.len() < 2 {
            return Err(FieldError::NoName);
        }
        let name = match &groups[0] {
            Some(name) => name.as_str(),
            None => {
                return Err(FieldError::NoName);
            },
        };
        match Self::plain(name) {
            Some(field) => Ok(field),
            None => if str_eq(name, "actiontype") {
                Ok(MissionField::ActionType(Self::index(&groups[1])?))
            } else if str_eq(name, "actionparam") {
                Ok(MissionField::ActionParam(Self::index(&groups[1])?))
            } else {
                Err(FieldError::UnknownField)
            },
        }
    }

    /// The column that the bytes of a name name, where they are text.
    pub fn visit_bytes(name: &[u8]) -> (r: Result<MissionField, FieldError>)
        ensures
            !valid_utf8(name@) ==> r == Err::<MissionField, FieldError>(FieldError::InvalidUtf8),
            valid_utf8(name@) ==> r == Self::spec_from_captures(
                regex_captures(FIELD_PATTERN@, decode_utf8(name@)),
            ),
    {
        match from_utf8(name) {
            Some(text) => Self::visit_str(text),
            None => Err(FieldError::InvalidUtf8),
        }
    }

    /// The column that `name` names: the first run of lower-case letters and
    /// underscores in it decides, so that a unit in brackets behind the
    /// name does no harm.
    pub fn visit_str(name: &str) -> (r: Result<MissionField, FieldError>)
        ensures
            r == Self::spec_from_captures(regex_captures(FIELD_PATTERN@, name@)),
    {
        let groups = captures(FIELD_PATTERN, name);
        Self::from_captures(&groups)
    }
}

/// A column together with the value read from it.
#[derive(Clone, Copy, Debug, PartialEq, Eq)]
pub enum FieldValue {
    Latitude(Binary64),
    Longitude(Binary64),
    Altitude(u16),
    AlitudeMode(u8),
    Heading(Binary64),
    CurveSize(Binary64),
    RotationDir(u8),
    GimbalMode(u8),
    GimbalPitchAngle(Binary64),
    Speed(Binary32),
    /// `None` for a latitude of zero, which stands for "no point of
    /// interest".
    PoiLatitude(Option<Binary64>),
    /// `None` for a longitude of zero.
    PoiLongitude(Option<Binary64>),
    PoiAltitude(u16),
    PoiAltitudeMode(u8),
    PhotoTimeInterval(i8),
    PhotoDistInterval(i8),
    /// The slot, counted from 1, and the type found there, if any.
    ActionType(usize, Option<i8>),
    /// The slot, counted from 1, and the parameter.
    ActionParam(usize, isize),
}

/// The part of a record that is missing or incomplete.
#[derive(Clone, Copy, Debug, PartialEq, Eq, Structural)]
pub enum MissingField {
    ActionParam,
    WaypointCoordinates,
    PoiCoordinates,
    GimbalSettings,
    Heading,
    CurveSize,
    RotationDir,
    Speed,
    PhotoTimeInterval,
    PhotoDistInterval,
}

impl MissingField {
    /// What the part is called.
    pub open spec fn spec_name(self) -> Seq<char> {
        match self {
            MissingField::ActionParam => "action param"@,
            MissingField::WaypointCoordinates => "waypoint coordinates"@,
            MissingField::PoiCoordinates => "POI coordinates"@,
            MissingField::GimbalSettings => "gimbal settings"@,
            MissingField::Heading => "heading"@,
            MissingField::CurveSize => "curvesize"@,
            MissingField::RotationDir => "rotationdir"@,
            MissingField::Speed => "speed"@,
            MissingField::PhotoTimeInterval => "photo_timeinterval"@,
            MissingField::PhotoDistInterval => "photo_distinterval"@,
        }
    }

    /// What the part is called.
    pub fn name(&self) -> (name: &'static str)
        ensures
            name@ == self.spec_name(),
    {
        match self {
            MissingField::ActionParam => "action param",
            MissingField::WaypointCoordinates => "waypoint coordinates",
            MissingField::PoiCoordinates => "POI coordinates",
            MissingField::GimbalSettings => "gimbal settings",
            MissingField::Heading => "heading",
            MissingField::CurveSize => "curvesize",
            MissingField::RotationDir => "rotationdir",
            MissingField::Speed => "speed",
            MissingField::PhotoTimeInterval => "photo_timeinterval",
            MissingField::PhotoDistInterval => "photo_distinterval",
        }
    }
}

/// An action column whose slot cannot be: slot 0, or a type for a slot
/// that lies behind the first free one.
#[derive(Clone, Copy, Debug, PartialEq, Eq, Structural)]
pub struct BadActionSlot {
    pub slot: usize,
}

/// The coordinate of a point of interest, from the two readings of its
/// text: as a whole number, and as a floating-point number. Zero means
/// that there is no point of interest; text that is no number is refused.
pub fn poi_coordinate(as_integer: Option<i32>, as_float: Option<Binary64>) -> (r: Result<
    Option<Binary64>,
    (),
>)
    ensures
        r == spec_poi_coordinate(as_integer, as_float),
{
    match as_integer {
        Some(0) => Ok(None),
        _ => match as_float {
            Some(bits) => Ok(Some(bits)),
            None => Err(()),
        },
    }
}

/// The coordinate of a point of interest, from the two readings of its text.
pub open spec fn spec_poi_coordinate(as_integer: Option<i32>, as_float: Option<Binary64>) -> Result<
    Option<Binary64>,
    (),
> {
    if as_integer == Some(0i32) {
        Ok(None)
    } else {
        match as_float {
            Some(bits) => Ok(Some(bits)),
            None => Err(()),
        }
    }
}

/// The columns of a record that hold one value each.
#[derive(Clone, Copy, Debug, PartialEq, Eq)]
pub struct Columns {
    pub waypoint: CoordinatesHelper,
    pub heading: Option<Binary64>,
    pub curvesize: Option<Binary64>,
    pub rotationdir: Option<u8>,
    pub gimbal: GimbalModeHelper,
    pub speed: Option<Binary32>,
    pub poi: CoordinatesHelper,
    pub photo_timeinterval: Option<i8>,
    pub photo_distinterval: Option<i8>,
}

/// A record while its columns are read: what has been seen so far.
#[derive(Debug, PartialEq, Eq)]
pub struct MissionRecordVisitor {
    pub columns: Columns,
    pub actions: Vec<ActionHelper>,
}

/// What a [`MissionRecord`] holds.
pub struct MissionRecordView {
    pub waypoint: Coordinates,
    pub heading: Binary64,
    pub curvesize: Binary64,
    pub rotationdir: u8,
    pub gimbal: Option<GimbalSettings>,
    pub speed: Binary32,
    pub poi: Option<Coordinates>,
    pub photo_timeinterval: i8,
    pub photo_distinterval: i8,
    pub actions: Seq<Action>,
}

impl View for MissionRecord {
    type V = MissionRecordView;

    open spec fn view(&self) -> MissionRecordView {
        MissionRecordView {
            waypoint: self.waypoint,
            heading: self.heading,
            curvesize: self.curvesize,
            rotationdir: self.rotationdir,
            gimbal: self.gimbal,
            speed: self.speed,
            poi: self.poi,
            photo_timeinterval: self.photo_timeinterval,
            photo_distinterval: self.photo_distinterval,
            actions: self.actions@,
        }
    }
}

/// The columns with no value in any of them.
pub open spec fn no_columns() -> Columns {
    Columns {
        waypoint: CoordinatesHelper {
            latitude: None,
            longitude: None,
            altitude: AltitudeHelper { mode: None, height: None },
        },
        heading: None,
        curvesize: None,
        rotationdir: None,
        gimbal: GimbalModeHelper { mode: None, pitch_angle: None },
        speed: None,
        poi: CoordinatesHelper {
            latitude: None,
            longitude: None,
            altitude: AltitudeHelper { mode: None, height: None },
        },
        photo_timeinterval: None,
        photo_distinterval: None,
    }
}

/// The single-valued columns after one more column has been read. The
/// columns of an action leave them as they are.
pub open spec fn columns_after(columns: Columns, value: FieldValue) -> Columns {
    match value {
        FieldValue::Latitude(v) => Columns {
            waypoint: CoordinatesHelper { latitude: Some(v), ..columns.waypoint },
            ..columns
        },
        FieldValue::Longitude(v) => Columns {
            waypoint: CoordinatesHelper { longitude: Some(v), ..columns.waypoint },
            ..columns
        },
        FieldValue::Altitude(v) => Columns {
            waypoint: CoordinatesHelper {
                altitude: AltitudeHelper { height: Some(v), ..columns.waypoint.altitude },
                ..columns.waypoint
            },
            ..columns
        },
        FieldValue::AlitudeMode(v) => Columns {
            waypoint: CoordinatesHelper {
                altitude: AltitudeHelper { mode: Some(v), ..columns.waypoint.altitude },
                ..columns.waypoint
            },
            ..columns
        },
        FieldValue::Heading(v) => Columns { heading: Some(v), ..columns },
        FieldValue::CurveSize(v) => Columns { curvesize: Some(v), ..columns },
        FieldValue::RotationDir(v) => Columns { rotationdir: Some(v), ..columns },
        FieldValue::GimbalMode(v) => Columns {
            gimbal: GimbalModeHelper { mode: Some(v), ..columns.gimbal },
            ..columns
        },
        FieldValue::GimbalPitchAngle(v) => Columns {
            gimbal: GimbalModeHelper { pitch_angle: Some(v), ..columns.gimbal },
            ..columns
        },
        FieldValue::Speed(v) => Columns { speed: Some(v), ..columns },
        FieldValue::PoiLatitude(v) => Columns {
            poi: CoordinatesHelper { latitude: v, ..columns.poi },
            ..columns
        },
        FieldValue::PoiLongitude(v) => Columns {
            poi: CoordinatesHelper { longitude: v, ..columns.poi },
            ..columns
        },
        FieldValue::PoiAltitude(v) => Columns {
            poi: CoordinatesHelper {
                altitude: AltitudeHelper { height: Some(v), ..columns.poi.altitude },
                ..columns.poi
            },
            ..columns
        },
        FieldValue::PoiAltitudeMode(v) => Columns {
            poi: CoordinatesHelper {
                altitude: AltitudeHelper { mode: Some(v), ..columns.poi.altitude },
                ..columns.poi
            },
            ..columns
        },
        FieldValue::PhotoTimeInterval(v) => Columns { photo_timeinterval: Some(v), ..columns },
        FieldValue::PhotoDistInterval(v) => Columns { photo_distinterval: Some(v), ..columns },
        FieldValue::ActionType(_, _) | FieldValue::ActionParam(_, _) => columns,
    }
}

/// The slots of the actions after one more column has been read. A type
/// goes into its slot, or opens the first free one; a parameter goes into
/// its slot if the slot is there, and is dropped if it is not.
pub open spec fn actions_after(actions: Seq<ActionHelper>, value: FieldValue) -> Result<
    Seq<ActionHelper>,
    BadActionSlot,
> {
    match value {
        FieldValue::ActionType(slot, action_type) => if slot == 0 || slot - 1 > actions.len() {
            Err(BadActionSlot { slot })
        } else if slot - 1 < actions.len() {
            Ok(
                actions.update(
                    slot - 1,
                    ActionHelper { action_type, action_param: actions[slot - 1].action_param },
                ),
            )
        } else {
            Ok(actions.push(ActionHelper { action_type, action_param: None }))
        },
        FieldValue::ActionParam(slot, param) => if slot == 0 {
            Err(BadActionSlot { slot })
        } else if slot - 1 < actions.len() {
            Ok(
                actions.update(
                    slot - 1,
                    ActionHelper {
                        action_type: actions[slot - 1].action_type,
                        action_param: Some(param),
                    },
                ),
            )
        } else {
            Ok(actions)
        },
        _ => Ok(actions),
    }
}

/// The actions that the slots make up, in the order of the slots, without
/// the empty ones; no actions at all where a slot makes up none.
pub open spec fn collect_actions(slots: Seq<ActionHelper>) -> Option<Seq<Action>>
    decreases slots.len(),
{
    if slots.len() == 0 {
        Some(Seq::empty())
    } else {
        match collect_actions(slots.drop_last()) {
            None => None,
            Some(actions) => match Action::spec_try_from(slots.last()) {
                Err(_) => None,
                Ok(None) => Some(actions),
                Ok(Some(action)) => Some(actions.push(action)),
            },
        }
    }
}

/// Slots of which a first part makes up no actions make up none.
proof fn lemma_collect_actions_failed(slots: Seq<ActionHelper>, k: int)
    requires
        0 <= k <= slots.len(),
        collect_actions(slots.take(k)) is None,
    ensures
        collect_actions(slots) is None,
    decreases slots.len(),
{
    if k < slots.len() {
        assert(slots.drop_last().take(k) == slots.take(k));
        lemma_collect_actions_failed(slots.drop_last(), k);
    } else {
        assert(slots.take(k) == slots);
    }
}

/// The point of interest of a record: none where neither latitude nor
/// longitude was given, else the place that the columns make up.
pub open spec fn spec_poi(helper: CoordinatesHelper) -> Result<
    Option<Coordinates>,
    ComposedFieldError,
> {
    if helper.latitude is None && helper.longitude is None {
        Ok(None)
    } else {
        match Coordinates::spec_try_from(helper) {
            Ok(place) => Ok(Some(place)),
            Err(e) => Err(e),
        }
    }
}

/// The record that the columns read make up, or the first part of it, in
/// the order of [`MissingField`], that is missing or incomplete.
pub open spec fn spec_finish(columns: Columns, slots: Seq<ActionHelper>) -> Result<
    MissionRecordView,
    MissingField,
> {
    if collect_actions(slots) is None {
        Err(MissingField::ActionParam)
    } else if Coordinates::spec_try_from(columns.waypoint) is Err {
        Err(MissingField::WaypointCoordinates)
    } else if spec_poi(columns.poi) is Err {
        Err(MissingField::PoiCoordinates)
    } else if GimbalSettings::spec_try_from(columns.gimbal) is Err {
        Err(MissingField::GimbalSettings)
    } else if columns.heading is None {
        Err(MissingField::Heading)
    } else if columns.curvesize is None {
        Err(MissingField::CurveSize)
    } else if columns.rotationdir is None {
        Err(MissingField::RotationDir)
    } else if columns.speed is None {
        Err(MissingField::Speed)
    } else if columns.photo_timeinterval is None {
        Err(MissingField::PhotoTimeInterval)
    } else if columns.photo_distinterval is None {
        Err(MissingField::PhotoDistInterval)
    } else {
        Ok(
            MissionRecordView {
                waypoint: Coordinates::spec_try_from(columns.waypoint)->Ok_0,
                heading: columns.heading->Some_0,
                curvesize: columns.curvesize->Some_0,
                rotationdir: columns.rotationdir->Some_0,
                gimbal: GimbalSettings::spec_try_from(columns.gimbal)->Ok_0,
                speed: columns.speed->Some_0,
                poi: spec_poi(columns.poi)->Ok_0,
                photo_timeinterval: columns.photo_timeinterval->Some_0,
                photo_distinterval: columns.photo_distinterval->Some_0,
                actions: collect_actions(slots)->Some_0,
            },
        )
    }
}

impl MissionRecordVisitor {
    /// A record of which no column has been read.
    pub fn new() -> (visitor: Self)
        ensures
            visitor.columns == no_columns(),
            visitor.actions@ == Seq::<ActionHelper>::empty(),
    {
        MissionRecordVisitor {
            columns: Columns {
                waypoint: CoordinatesHelper::default(),
                heading: None,
                curvesize: None,
                rotationdir: None,
                gimbal: GimbalModeHelper::default(),
                speed: None,
                poi: CoordinatesHelper::default(),
                photo_timeinterval: None,
                photo_distinterval: None,
            },
            actions: Vec::new(),
        }
    }

    /// Takes in the value of one more column. A later value of a column
    /// replaces an earlier one. On a slot that cannot be, nothing changes.
    pub fn visit(&mut self, value: FieldValue) -> (r: Result<(), BadActionSlot>)
        ensures
            match actions_after(old(self).actions@, value) {
                Ok(actions) => r is Ok && final(self).actions@ == actions && final(self).columns
                    == columns_after(old(self).columns, value),
                Err(e) => r == Err::<(), BadActionSlot>(e) && *final(self) == *old(self),
            },
    {
        match value {
            FieldValue::Latitude(v) => {
                self.columns.waypoint.latitude = Some(v);
            },
            FieldValue::Longitude(v) => {
                self.columns.waypoint.longitude = Some(v);
            },
            FieldValue::Altitude(v) => {
                self.columns.waypoint.altitude.height = Some(v);
            },
            FieldValue::AlitudeMode(v) => {
                self.columns.waypoint.altitude.mode = Some(v);
            },
            FieldValue::Heading(v) => {
                self.columns.heading = Some(v);
            },
            FieldValue::CurveSize(v) => {
                self.columns.curvesize = Some(v);
            },
            FieldValue::RotationDir(v) => {
                self.columns.rotationdir = Some(v);
            },
            FieldValue::GimbalMode(v) => {
                self.columns.gimbal.mode = Some(v);
            },
            FieldValue::GimbalPitchAngle(v) => {
                self.columns.gimbal.pitch_angle = Some(v);
            },
            FieldValue::Speed(v) => {
                self.columns.speed = Some(v);
            },
            FieldValue::PoiLatitude(v) => {
                self.columns.poi.latitude = v;
            },
            FieldValue::PoiLongitude(v) => {
                self.columns.poi.longitude = v;
            },
            FieldValue::PoiAltitude(v) => {
                self.columns.poi.altitude.height = Some(v);
            },
            FieldValue::PoiAltitudeMode(v) => {
                self.columns.poi.altitude.mode = Some(v);
            },
            FieldValue::PhotoTimeInterval(v) => {
                self.columns.photo_timeinterval = Some(v);
            },
            FieldValue::PhotoDistInterval(v) => {
                self.columns.photo_distinterval = Some(v);
            },
            FieldValue::ActionType(slot, action_type) => {
                if slot == 0 || slot - 1 > self.actions.len() {
                    return Err(BadActionSlot { slot });
                }
                if slot - 1 < self.actions.len() {
                    let action_param = self.actions[slot - 1].action_param;
                    self.actions.set(slot - 1, ActionHelper { action_type, action_param });
                } else {
                    self.actions.push(ActionHelper { action_type, action_param: None });
                }
            },
            FieldValue::ActionParam(slot, param) => {
                if slot == 0 {
                    return Err(BadActionSlot { slot });
                }
                if slot - 1 < self.actions.len() {
                    let action_type = self.actions[slot - 1].action_type;
                    self.actions.set(
                        slot - 1,
                        ActionHelper { action_type, action_param: Some(param) },
                    );
                }
            },
        }
        Ok(())
    }

    /// Makes the record of the columns read.
    pub fn finish(self) -> (r: Result<MissionRecord, MissingField>)
        ensures
            match spec_finish(self.columns, self.actions@) {
                Ok(record) => r matches Ok(made) && made@ == record,
                Err(e) => r == Err::<MissionRecord, MissingField>(e),
            },
    {
        let mut actions: Vec<Action> = Vec::new();
        let mut i: usize = 0;
        assert(self.actions@.take(0) == Seq::<ActionHelper>::empty());
        while i < self.actions.len()
            invariant
                i <= self.actions@.len(),
                collect_actions(self.actions@.take(i as int)) == Some(actions@),
            decreases self.actions@.len() - i,
        {
            let made = Action::try_from(self.actions[i]);
            proof {
                assert(self.actions@.take(i + 1).drop_last() == self.actions@.take(i as int));
            }
            match made {
                Err(_) => {
                    proof {
                        lemma_collect_actions_failed(self.actions@, i + 1);
                    }
                    return Err(MissingField::ActionParam);
                },
                Ok(None) => {},
                Ok(Some(action)) => {
                    actions.push(action);
                },
            }
            i = i + 1;
        }
        assert(self.actions@.take(i as int) == self.actions@);
        let waypoint = match Coordinates::try_from(self.columns.waypoint) {
            Ok(place) => place,
            Err(_) => {
                return Err(MissingField::WaypointCoordinates);
            },
        };
        let poi = if self.columns.poi.latitude.is_none() && self.columns.poi.longitude.is_none() {
            None
        } else {
            match Coordinates::try_from(self.columns.poi) {
                Ok(place) => Some(place),
                Err(_) => {
                    return Err(MissingField::PoiCoordinates);
                },
            }
        };
        let gimbal = match GimbalSettings::try_from(self.columns.gimbal) {
            Ok(gimbal) => gimbal,
            Err(_) => {
                return Err(MissingField::GimbalSettings);
            },
        };
        let heading = match self.columns.heading {
            Some(v) => v,
            None => {
                return Err(MissingField::Heading);
            },
        };
        let curvesize = match self.columns.curvesize {
            Some(v) => v,
            None => {
                return Err(MissingField::CurveSize);
            },
        };
        let rotationdir = match self.columns.rotationdir {
            Some(v) => v,
            None => {
                return Err(MissingField::RotationDir);
            },
        };
        let speed = match self.columns.speed {
            Some(v) => v,
            None => {
                return Err(MissingField::Speed);
            },
        };
        let photo_timeinterval = match self.columns.photo_timeinterval {
            Some(v) => v,
            None => {
                return Err(MissingField::PhotoTimeInterval);
            },
        };
        let photo_distinterval = match self.columns.photo_distinterval {
            Some(v) => v,
            None => {
                return Err(MissingField::PhotoDistInterval);
            },
        };
        Ok(
            MissionRecord {
                waypoint,
                heading,
                curvesize,
                rotationdir,
                gimbal,
                speed,
                poi,
                photo_timeinterval,
                photo_distinterval,
                actions,
            },
        )
    }
}

} // verus!
