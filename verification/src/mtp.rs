//! Storing a flight plan on a device: which device, which folders, and in
//! which pieces. The talking to the device is left to the caller; here is
//! what is decided in between.

use vstd::prelude::*;

use crate::text::{parse_u16, parse_unsigned, split_at_first, split_once, str_eq};

verus! {

/// Why a plan could not be stored.
#[derive(Clone, Copy, Debug, PartialEq, Eq, Structural)]
pub enum MtpError {
    /// The device's own library failed.
    InternalFailure,
    NoMtpDeviceDetected,
    MalformedDeviceId,
    UnableToOpenDevice,
    NoFreeFlight6Folder,
    NoStorage,
}

/// The maker and the product of a device.
#[derive(Clone, Copy, Debug, PartialEq, Eq, Structural)]
pub struct DeviceId(pub u16, pub u16);

/// The folder on the device that the application keeps its files in.
pub const FREEFLIGHT6_FOLDER: &'static str = "FreeFlight 6";

/// The folder in it that holds the flight plans, each in a folder of its
/// own.
pub const FLIGHTPLAN_FOLDER: &'static str = "flightPlan";

/// The file that a plan is stored in.
pub const PLAN_FILE: &'static str = "savedPlan.json";

impl DeviceId {
    /// The device that `s` names: maker and product in decimal digits,
    /// with a colon between them.
    pub open spec fn spec_from_str(s: Seq<char>) -> Result<DeviceId, MtpError> {
        match split_at_first(s, ':') {
            None => Err(MtpError::MalformedDeviceId),
            Some((vendor, product)) => match (
                parse_unsigned(vendor, u16::MAX as nat),
                parse_unsigned(product, u16::MAX as nat),
            ) {
                (Some(v), Some(p)) => Ok(DeviceId(v as u16, p as u16)),
                _ => Err(MtpError::MalformedDeviceId),
            },
        }
    }

    /// The device that `s` names: maker and product in decimal digits,
    /// with a colon between them.
    pub fn from_str(s: &str) -> (r: Result<DeviceId, MtpError>)
        ensures
            r == Self::spec_from_str(s@),
    {
        match split_once(s, ':') {
            Some((vendor, product)) => match (parse_u16(vendor), parse_u16(product)) {
                (Some(v), Some(p)) => Ok(DeviceId(v, p)),
                _ => Err(MtpError::MalformedDeviceId),
            },
            None => Err(MtpError::MalformedDeviceId),
        }
    }
}

/// The place of the first of the devices from `from` on that is `wanted`.
pub open spec fn first_device(devices: Seq<DeviceId>, wanted: DeviceId, from: int) -> Option<int>
    decreases devices.len() - from,
{
    if from < 0 || from >= devices.len() {
        None
    } else if devices[from] == wanted {
        Some(from)
    } else {
        first_device(devices, wanted, from + 1)
    }
}

/// The device to use, of those found: the first that is the one asked
/// for, or the first of all where none is asked for.
pub open spec fn spec_find_raw_device(devices: Seq<DeviceId>, device_id: Option<Seq<char>>) -> Result<
    int,
    MtpError,
> {
    match device_id {
        Some(text) => match DeviceId::spec_from_str(text) {
            Err(e) => Err(e),
            Ok(wanted) => match first_device(devices, wanted, 0) {
                Some(at) => Ok(at),
                None => Err(MtpError::NoMtpDeviceDetected),
            },
        },
        None => if devices.len() > 0 {
            Ok(0)
        } else {
            Err(MtpError::NoMtpDeviceDetected)
        },
    }
}

/// Picks the device to use among those found, by its place among them.
pub fn find_raw_device(devices: &Vec<DeviceId>, device_id: Option<&str>) -> (r: Result<
    usize,
    MtpError,
>)
    ensures
        match spec_find_raw_device(
            devices@,
            match device_id {
                Some(text) => Some(text@),
                None => None,
            },
        ) {
            Ok(at) => r == Ok::<usize, MtpError>(at as usize) && 0 <= at < devices@.len(),
            Err(e) => r == Err::<usize, MtpError>(e),
        },
{
    match device_id {
        Some(text) => {
            let wanted = DeviceId::from_str(text)?;
            let mut i: usize = 0;
            while i < devices.len()
                invariant
                    device_id == Some(text),
                    DeviceId::spec_from_str(text@) == Ok::<DeviceId, MtpError>(wanted),
                    i <= devices@.len(),
                    first_device(devices@, wanted, 0) == first_device(devices@, wanted, i as int),
                decreases devices@.len() - i,
            {
                if devices[i].0 == wanted.0 && devices[i].1 == wanted.1 {
                    return Ok(i);
                }
                i = i + 1;
            }
            Err(MtpError::NoMtpDeviceDetected)
        },
        None => if devices.len() > 0 {
            Ok(0)
        } else {
            Err(MtpError::NoMtpDeviceDetected)
        },
    }
}

/// A file or folder on the device, as far as it is looked at.
#[derive(Debug, PartialEq, Eq)]
pub struct File {
    pub id: u32,
    pub name: String,
}

/// The first of the files from `from` on that is called `name`.
pub open spec fn first_named(files: Seq<File>, name: Seq<char>, from: int) -> Option<File>
    decreases files.len() - from,
{
    if from < 0 || from >= files.len() {
        None
    } else if files[from].name@ == name {
        Some(files[from])
    } else {
        first_named(files, name, from + 1)
    }
}

/// The first of the files that is called `name`.
pub fn find_folder_by_name<'f>(name: &str, files: &'f Vec<File>) -> (r: Option<&'f File>)
    ensures
        match first_named(files@, name@, 0) {
            Some(file) => r matches Some(found) && *found == file,
            None => r is None,
        },
{
    let mut i: usize = 0;
    while i < files.len()
        invariant
            i <= files@.len(),
            first_named(files@, name@, 0) == first_named(files@, name@, i as int),
        decreases files@.len() - i,
    {
        if str_eq(files[i].name.as_str(), name) {
            return Some(&files[i]);
        }
        i = i + 1;
    }
    None
}

/// The folder called `name` among the files of a folder of the first
/// storage, where the files of no storage stand for a device without one.
pub fn find_some_folder(name: &str, first_storage: Option<&Vec<File>>) -> (r: Option<u32>)
    ensures
        r == match first_storage {
            Some(files) => match first_named(files@, name@, 0) {
                Some(file) => Some(file.id),
                None => None,
            },
            None => None,
        },
{
    match first_storage {
        Some(files) => match find_folder_by_name(name, files) {
            Some(file) => Some(file.id),
            None => None,
        },
        None => None,
    }
}

/// What is to be done next to store a plan.
#[derive(Clone, Copy, Debug, PartialEq, Eq, Structural)]
pub enum StoreStep {
    /// Look for the application's folder at the root.
    FindFreeFlight6,
    /// Look for the folder of the flight plans in the application's.
    FindFlightPlans { parent: u32 },
    /// Make the folder of the flight plans in the application's.
    CreateFlightPlans { parent: u32 },
    /// Make the plan's own folder, called as the plan's identifier is.
    CreatePlanFolder { parent: u32 },
    /// Send the plan's file into its folder.
    SendPlan { parent: u32 },
    /// Nothing more.
    Done,
}

/// What came of a step.
#[derive(Clone, Copy, Debug, PartialEq, Eq, Structural)]
pub enum StoreEvent {
    /// The folder looked for, if it is there.
    Found(Option<u32>),
    /// The folder made.
    Created(u32),
    /// The file has been sent.
    Sent,
}

/// The step that follows on `step`, given what came of it.
pub open spec fn spec_store_flightplan(step: StoreStep, event: StoreEvent) -> Result<
    StoreStep,
    MtpError,
> {
    match (step, event) {
        (StoreStep::FindFreeFlight6, StoreEvent::Found(Some(id))) => Ok(
            StoreStep::FindFlightPlans { parent: id },
        ),
        (StoreStep::FindFreeFlight6, StoreEvent::Found(None)) => Err(MtpError::NoFreeFlight6Folder),
        (StoreStep::FindFlightPlans { parent }, StoreEvent::Found(Some(id))) => Ok(
            StoreStep::CreatePlanFolder { parent: id },
        ),
        (StoreStep::FindFlightPlans { parent }, StoreEvent::Found(None)) => Ok(
            StoreStep::CreateFlightPlans { parent },
        ),
        (StoreStep::CreateFlightPlans { parent }, StoreEvent::Created(id)) => Ok(
            StoreStep::CreatePlanFolder { parent: id },
        ),
        (StoreStep::CreatePlanFolder { parent }, StoreEvent::Created(id)) => Ok(
            StoreStep::SendPlan { parent: id },
        ),
        (StoreStep::SendPlan { parent }, StoreEvent::Sent) => Ok(StoreStep::Done),
        _ => Err(MtpError::InternalFailure),
    }
}

/// Storing a plan, step by step: the application's folder has to be there;
/// the folder of the flight plans is made if it is not; the plan gets a
/// folder of its own, and its file goes into that. An event that is none
/// of the step's ends the storing.
pub fn store_flightplan(step: StoreStep, event: StoreEvent) -> (r: Result<StoreStep, MtpError>)
    ensures
        r == spec_store_flightplan(step, event),
{
    match (step, event) {
        (StoreStep::FindFreeFlight6, StoreEvent::Found(Some(id))) => Ok(
            StoreStep::FindFlightPlans { parent: id },
        ),
        (StoreStep::FindFreeFlight6, StoreEvent::Found(None)) => Err(MtpError::NoFreeFlight6Folder),
        (StoreStep::FindFlightPlans { parent }, StoreEvent::Found(Some(id))) => Ok(
            StoreStep::CreatePlanFolder { parent: id },
        ),
        (StoreStep::FindFlightPlans { parent }, StoreEvent::Found(None)) => Ok(
            StoreStep::CreateFlightPlans { parent },
        ),
        (StoreStep::CreateFlightPlans { parent }, StoreEvent::Created(id)) => Ok(
            StoreStep::CreatePlanFolder { parent: id },
        ),
        (StoreStep::CreatePlanFolder { parent }, StoreEvent::Created(id)) => Ok(
            StoreStep::SendPlan { parent: id },
        ),
        (StoreStep::SendPlan { parent }, StoreEvent::Sent) => Ok(StoreStep::Done),
        _ => Err(MtpError::InternalFailure),
    }
}

/// Takes the next piece of a plan's file off the front of `buffer`, for a
/// device that has room for `room` bytes: as much as fits.
pub fn next_piece(buffer: &mut Vec<u8>, room: usize) -> (piece: Vec<u8>)
    ensures
        piece@.len() == (if room <= old(buffer)@.len() {
            room as nat
        } else {
            old(buffer)@.len()
        }),
        piece@ == old(buffer)@.take(piece@.len() as int),
        final(buffer)@ == old(buffer)@.skip(piece@.len() as int),
{
    let n = if room <= buffer.len() {
        room
    } else {
        buffer.len()
    };
    let rest = buffer.split_off(n);
    let mut piece = rest;
    std::mem::swap(buffer, &mut piece);
    assert(piece@ == old(buffer)@.subrange(0, n as int));
    assert(buffer@ == old(buffer)@.subrange(n as int, old(buffer)@.len() as int));
    piece
}

} // verus!
