//! Why a mission file does not decode.

use vstd::prelude::*;

verus! {

/// The passes of a mission file whose records are addressed by index.
#[derive(Clone, Copy, Debug, PartialEq, Eq, Structural)]
pub enum Section {
    Waypoints,
    Actions,
    PointsOfInterest,
    WaypointDetails,
    PoiDetails,
    Intervals,
}

/// The four classes every decode failure falls into.
#[derive(Clone, Copy, Debug, PartialEq, Eq, Structural)]
pub enum ErrorKind {
    /// The input is not a mission file at all.
    FormatError,
    /// The input ends before a value or a declared count is complete.
    TruncatedInput,
    /// A record does not have the shape its place in the stream asks for.
    SchemaViolation,
    /// An action code or a gimbal mode outside the known set.
    UnknownTag,
}

/// Why a mission could not be decoded.
#[derive(Debug, PartialEq, Eq)]
pub enum Error {
    /// A value was asked for that the format has no encoding of.
    UnsupportedValue,
    /// The input does not begin with the bytes `lchm`.
    BadMagic,
    /// The input ended inside a value that is not part of an indexed pass.
    OutOfData,
    /// The input ended inside record `index` of `section`.
    InvalidLength { section: Section, index: u32 },
    /// The finish action is none of the five known ones.
    InvalidFinishAction { value: u32 },
    /// The path mode is neither straight lines nor curved turns.
    InvalidPathMode { value: u32 },
    /// An action tuple with a code outside `0..=5`.
    UnknownAction { code: u32, value: u32 },
    /// A gimbal tuple with a mode outside `0..=2`.
    UnknownGimbalMode { mode: u32 },
    /// Any other violation, described in words.
    Custom(String),
}

impl Error {
    /// The class of this failure.
    pub open spec fn spec_kind(self) -> ErrorKind {
        match self {
            Error::BadMagic => ErrorKind::FormatError,
            Error::OutOfData | Error::InvalidLength { .. } => ErrorKind::TruncatedInput,
            Error::UnknownAction { .. } | Error::UnknownGimbalMode { .. } => ErrorKind::UnknownTag,
            Error::UnsupportedValue
            | Error::InvalidFinishAction { .. }
            | Error::InvalidPathMode { .. }
            | Error::Custom(_) => ErrorKind::SchemaViolation,
        }
    }

    /// The class of this failure.
    pub fn kind(&self) -> (k: ErrorKind)
        ensures
            k == self.spec_kind(),
    {
        match self {
            Error::BadMagic => ErrorKind::FormatError,
            Error::OutOfData | Error::InvalidLength { .. } => ErrorKind::TruncatedInput,
            Error::UnknownAction { .. } | Error::UnknownGimbalMode { .. } => ErrorKind::UnknownTag,
            Error::UnsupportedValue
            | Error::InvalidFinishAction { .. }
            | Error::InvalidPathMode { .. }
            | Error::Custom(_) => ErrorKind::SchemaViolation,
        }
    }

    /// The failure in words.
    pub open spec fn spec_message(self) -> Seq<char> {
        match self {
            Error::UnsupportedValue => "unsupported value"@,
            Error::BadMagic => "file does not begin with bytes 'lchm'"@,
            Error::OutOfData => "unexpected end of file"@,
            Error::InvalidLength { .. } => "invalid length: the file ends inside a record"@,
            Error::InvalidFinishAction { .. } => "invalid value: unknown finish action"@,
            Error::InvalidPathMode { .. } => "invalid value: unknown path mode"@,
            Error::UnknownAction { .. } => "unknown action code"@,
            Error::UnknownGimbalMode { .. } => "unknown gimbal mode"@,
            Error::Custom(text) => text@,
        }
    }

    /// The failure in words.
    pub fn message(&self) -> (text: String)
        ensures
            text@ == self.spec_message(),
    {
        match self {
            Error::UnsupportedValue => "unsupported value".to_owned(),
            Error::BadMagic => "file does not begin with bytes 'lchm'".to_owned(),
            Error::OutOfData => "unexpected end of file".to_owned(),
            Error::InvalidLength { .. } => "invalid length: the file ends inside a record".to_owned(),
            Error::InvalidFinishAction { .. } => "invalid value: unknown finish action".to_owned(),
            Error::InvalidPathMode { .. } => "invalid value: unknown path mode".to_owned(),
            Error::UnknownAction { .. } => "unknown action code".to_owned(),
            Error::UnknownGimbalMode { .. } => "unknown gimbal mode".to_owned(),
            Error::Custom(text) => text.clone(),
        }
    }

    /// A failure described in words.
    pub fn custom(msg: &str) -> (e: Error)
        ensures
            e matches Error::Custom(text) && text@ == msg@,
    {
        Error::Custom(msg.to_owned())
    }
}

} // verus!
