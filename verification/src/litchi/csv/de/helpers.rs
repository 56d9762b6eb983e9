//! Fields of a record that span several columns, while they are gathered.

use vstd::prelude::*;

use super::{Altitude, Coordinates, GimbalSettings};
use crate::ieee::Binary64;
use crate::litchi::Action;

verus! {

/// The two columns of an action: its type and its parameter.
#[derive(Clone, Copy, Debug, PartialEq, Eq)]
pub struct ActionHelper {
    pub action_type: Option<i8>,
    pub action_param: Option<isize>,
}

/// The two columns of the gimbal directive.
#[derive(Clone, Copy, Debug, PartialEq, Eq)]
pub struct GimbalModeHelper {
    pub mode: Option<u8>,
    pub pitch_angle: Option<Binary64>,
}

/// The two columns of a height.
#[derive(Clone, Copy, Debug, PartialEq, Eq)]
pub struct AltitudeHelper {
    pub mode: Option<u8>,
    pub height: Option<u16>,
}

/// The four columns of a place.
#[derive(Clone, Copy, Debug, PartialEq, Eq)]
pub struct CoordinatesHelper {
    pub latitude: Option<Binary64>,
    pub longitude: Option<Binary64>,
    pub altitude: AltitudeHelper,
}

/// Why the columns of a field do not make up the field.
#[derive(Clone, Copy, Debug, PartialEq, Eq, Structural)]
pub enum ComposedFieldError {
    MissingParameter,
    UnknownType,
}

impl Default for GimbalModeHelper {
    fn default() -> (helper: Self)
        ensures
            helper.mode is None,
            helper.pitch_angle is None,
    {
        GimbalModeHelper { mode: None, pitch_angle: None }
    }
}

impl Default for AltitudeHelper {
    fn default() -> (helper: Self)
        ensures
            helper.mode is None,
            helper.height is None,
    {
        AltitudeHelper { mode: None, height: None }
    }
}

impl Default for CoordinatesHelper {
    fn default() -> (helper: Self)
        ensures
            helper.latitude is None,
            helper.longitude is None,
            helper.altitude.mode is None,
            helper.altitude.height is None,
    {
        CoordinatesHelper {
            latitude: None,
            longitude: None,
            altitude: AltitudeHelper { mode: None, height: None },
        }
    }
}

/// The low 16 bits of `value`.
pub open spec fn low_half(value: int) -> u16 {
    (value % 0x1_0000) as u16
}

/// The low 16 bits of `value`, read in two's complement.
pub open spec fn low_half_signed(value: int) -> i16 {
    if value % 0x1_0000 < 0x8000 {
        (value % 0x1_0000) as i16
    } else {
        (value % 0x1_0000 - 0x1_0000) as i16
    }
}

/// `value` as a machine word without sign: itself, or for a negative one
/// what its bits spell.
pub open spec fn unsigned_word(value: isize) -> usize {
    if value >= 0 {
        value as usize
    } else {
        (value + usize::MAX + 1) as usize
    }
}

impl Altitude {
    /// The height that the two columns make up.
    pub open spec fn spec_try_from(value: AltitudeHelper) -> Result<Altitude, ComposedFieldError> {
        match value.height {
            None => Err(ComposedFieldError::MissingParameter),
            Some(height) => match value.mode {
                Some(0) => Ok(Altitude::Absolute(height)),
                Some(1) => Ok(Altitude::AboveGround(height)),
                Some(_) => Err(ComposedFieldError::UnknownType),
                None => Err(ComposedFieldError::MissingParameter),
            },
        }
    }

    /// The height that the two columns make up. The height has to be there;
    /// mode 0 measures from sea level, mode 1 from the ground.
    pub fn try_from(value: AltitudeHelper) -> (r: Result<Altitude, ComposedFieldError>)
        ensures
            r == Self::spec_try_from(value),
    {
        let height = match value.height {
            Some(height) => height,
            None => {
                return Err(ComposedFieldError::MissingParameter);
            },
        };
        match value.mode {
            Some(0) => Ok(Altitude::Absolute(height)),
            Some(1) => Ok(Altitude::AboveGround(height)),
            Some(_) => Err(ComposedFieldError::UnknownType),
            None => Err(ComposedFieldError::MissingParameter),
        }
    }

    /// The height in meters, whatever it is measured from.
    pub fn meters(&self) -> (m: u16)
        ensures
            m == self.spec_meters(),
    {
        match self {
            Altitude::AboveGround(x) => *x,
            Altitude::Absolute(x) => *x,
        }
    }

    /// The height in meters, whatever it is measured from.
    pub open spec fn spec_meters(&self) -> u16 {
        match self {
            Altitude::AboveGround(x) => *x,
            Altitude::Absolute(x) => *x,
        }
    }
}

impl Coordinates {
    /// The place that the four columns make up.
    pub open spec fn spec_try_from(value: CoordinatesHelper) -> Result<
        Coordinates,
        ComposedFieldError,
    > {
        match (value.latitude, value.longitude) {
            (Some(latitude), Some(longitude)) => match Altitude::spec_try_from(value.altitude) {
                Ok(altitude) => Ok(Coordinates { latitude, longitude, altitude }),
                Err(e) => Err(e),
            },
            _ => Err(ComposedFieldError::MissingParameter),
        }
    }

    /// The place that the four columns make up: latitude and longitude have
    /// to be there, and the height has to be one.
    pub fn try_from(value: CoordinatesHelper) -> (r: Result<Coordinates, ComposedFieldError>)
        ensures
            r == Self::spec_try_from(value),
    {
        let latitude = match value.latitude {
            Some(latitude) => latitude,
            None => {
                return Err(ComposedFieldError::MissingParameter);
            },
        };
        let longitude = match value.longitude {
            Some(longitude) => longitude,
            None => {
                return Err(ComposedFieldError::MissingParameter);
            },
        };
        let altitude = Altitude::try_from(value.altitude)?;
        Ok(Coordinates { latitude, longitude, altitude })
    }
}

impl GimbalSettings {
    /// The gimbal directive that the two columns make up.
    pub open spec fn spec_try_from(value: GimbalModeHelper) -> Result<
        Option<GimbalSettings>,
        ComposedFieldError,
    > {
        match value.mode {
            Some(0) => Ok(None),
            Some(1) => match value.pitch_angle {
                Some(angle) => Ok(Some(GimbalSettings::FocusPoi(angle))),
                None => Err(ComposedFieldError::MissingParameter),
            },
            Some(2) => match value.pitch_angle {
                Some(angle) => Ok(Some(GimbalSettings::Interpolate(angle))),
                None => Err(ComposedFieldError::MissingParameter),
            },
            Some(_) => Err(ComposedFieldError::UnknownType),
            None => Err(ComposedFieldError::MissingParameter),
        }
    }

    /// The gimbal directive that the two columns make up. Mode 0 is no
    /// directive and needs no angle; modes 1 and 2 need one.
    pub fn try_from(value: GimbalModeHelper) -> (r: Result<
        Option<GimbalSettings>,
        ComposedFieldError,
    >)
        ensures
            r == Self::spec_try_from(value),
    {
        match value.mode {
            Some(0) => Ok(None),
            Some(1) => match value.pitch_angle {
                Some(angle) => Ok(Some(GimbalSettings::FocusPoi(angle))),
                None => Err(ComposedFieldError::MissingParameter),
            },
            Some(2) => match value.pitch_angle {
                Some(angle) => Ok(Some(GimbalSettings::Interpolate(angle))),
                None => Err(ComposedFieldError::MissingParameter),
            },
            Some(_) => Err(ComposedFieldError::UnknownType),
            None => Err(ComposedFieldError::MissingParameter),
        }
    }
}

impl Action {
    /// The action that the two columns make up, if they make up one.
    pub open spec fn spec_try_from(value: ActionHelper) -> Result<
        Option<Action>,
        ComposedFieldError,
    > {
        match value.action_type {
            Some(-1) => Ok(None),
            Some(0) => match value.action_param {
                Some(param) => Ok(Some(Action::StayFor { ms: unsigned_word(param) })),
                None => Err(ComposedFieldError::MissingParameter),
            },
            Some(1) => Ok(Some(Action::TakePhoto)),
            Some(2) => Ok(Some(Action::StartRecording)),
            Some(3) => Ok(Some(Action::StopRecording)),
            Some(4) => match value.action_param {
                Some(param) => Ok(Some(Action::RotateAircraft { angle: low_half(param as int) })),
                None => Err(ComposedFieldError::MissingParameter),
            },
            Some(5) => match value.action_param {
                Some(param) => Ok(
                    Some(Action::TiltCamera { angle: low_half_signed(param as int) }),
                ),
                None => Err(ComposedFieldError::MissingParameter),
            },
            Some(_) => Err(ComposedFieldError::UnknownType),
            None => Err(ComposedFieldError::MissingParameter),
        }
    }

    /// The action that the two columns make up. Type -1 is an empty slot
    /// and no action; types 0, 4 and 5 need their parameter, of which the
    /// angles keep the low 16 bits.
    pub fn try_from(value: ActionHelper) -> (r: Result<Option<Action>, ComposedFieldError>)
        ensures
            r == Self::spec_try_from(value),
    {
        match value.action_type {
            Some(-1) => Ok(None),
            Some(0) => match value.action_param {
                Some(param) => Ok(Some(Action::StayFor { ms: word_of(param) })),
                None => Err(ComposedFieldError::MissingParameter),
            },
            Some(1) => Ok(Some(Action::TakePhoto)),
            Some(2) => Ok(Some(Action::StartRecording)),
            Some(3) => Ok(Some(Action::StopRecording)),
            Some(4) => match value.action_param {
                Some(param) => Ok(Some(Action::RotateAircraft { angle: low_half_of(param) })),
                None => Err(ComposedFieldError::MissingParameter),
            },
            Some(5) => match value.action_param {
                Some(param) => {
                    let low = low_half_of(param);
                    if low < 0x8000 {
                        Ok(Some(Action::TiltCamera { angle: low as i16 }))
                    } else {
                        Ok(Some(Action::TiltCamera { angle: (low as i32 - 0x1_0000) as i16 }))
                    }
                },
                None => Err(ComposedFieldError::MissingParameter),
            },
            Some(_) => Err(ComposedFieldError::UnknownType),
            None => Err(ComposedFieldError::MissingParameter),
        }
    }
}

/// The bits of `value`, read without sign.
fn word_of(value: isize) -> (word: usize)
    ensures
        word == unsigned_word(value),
{
    if value >= 0 {
        value as usize
    } else {
        // -1 has all bits set, and every step down clears the same bits
        // that it clears in the unsigned reading.
        usize::MAX - ((-(value + 1)) as usize)
    }
}

/// The low 16 bits of `value`.
fn low_half_of(value: isize) -> (low: u16)
    ensures
        low == low_half(value as int),
{
    let rest: isize = value % 0x1_0000;
    if rest >= 0 {
        rest as u16
    } else {
        (rest + 0x1_0000) as u16
    }
}

} // verus!
