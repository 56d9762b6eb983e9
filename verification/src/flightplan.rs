//! Flight plans, and how missions are turned into them.

use vstd::prelude::*;

use crate::error::Error;
use crate::ieee::Binary64;
use crate::litchi::Action as LitchiAction;

pub mod color;
pub mod defaults;
pub mod from_bin;
pub mod from_csv;
pub mod from_kml;
pub mod model;

pub use color::POI_COLORS;
pub use from_bin::from_bin;
pub use from_csv::from_csv;
pub use from_kml::from_kml;
pub use model::{Action, FlightPlan, Plan, PointOfInterest, Waypoint};

use defaults::{spec_video_4k_30fps, video_4k_30fps};
use model::{FlightPlanView, PlanView, WaypointView};

verus! {

/// The speed, in meters per second, of a waypoint that names none.
pub const DEFAULT_SPEED_MS: u8 = 5;

/// The height, in meters, of a waypoint that names none.
pub const DEFAULT_WAYPOINT_ALTITUDE_M: u16 = 3;

/// Double-precision `17`, the zoom level of a new plan's map.
pub const ZOOM_LEVEL: Binary64 = 0x4031_0000_0000_0000;

/// Double-precision `14`, the resolution of a single photo.
pub const PHOTO_RESOLUTION: Binary64 = 0x402C_0000_0000_0000;

/// The degrees per second at which the aircraft turns and the camera tilts.
pub const ANGULAR_SPEED: u8 = 10;

/// The low 8 bits of `value`, read in two's complement.
pub open spec fn low_byte_signed(value: int) -> i8 {
    if value % 0x100 < 0x80 {
        (value % 0x100) as i8
    } else {
        (value % 0x100 - 0x100) as i8
    }
}

/// The time now, in milliseconds since 1970.
///
/// This is `Utc::now` of the chrono crate, read with `timestamp_millis`.
/// The time differs from call to call; all that holds of every outcome is
/// that it does not lie before 1970: chrono takes the time as a span since
/// then, and ends the program where the system's clock stands earlier.
#[verifier::external_body]
fn now_millis() -> (millis: i64)
    ensures
        millis >= 0,
{
    chrono::Utc::now().timestamp_millis()
}

impl Action {
    /// What an action of a mission is in a flight plan.
    pub open spec fn spec_from(action: LitchiAction) -> Action {
        match action {
            LitchiAction::StayFor { ms } => Action::Delay { delay: ms / 1000 },
            LitchiAction::TakePhoto => Action::ImageStartCapture {
                period: 0,
                resolution: PHOTO_RESOLUTION,
                nb_of_pictures: 1,
            },
            LitchiAction::StartRecording => spec_video_4k_30fps(),
            LitchiAction::StopRecording => Action::VideoStopCapture,
            LitchiAction::RotateAircraft { angle } => Action::Panorama {
                angle: low_byte_signed(angle as int),
                speed: ANGULAR_SPEED,
            },
            LitchiAction::TiltCamera { angle } => Action::Tilt {
                angle: low_byte_signed(angle as int),
                speed: ANGULAR_SPEED,
            },
        }
    }

    /// What an action of a mission is in a flight plan: a stay becomes a
    /// delay of whole seconds, a photo a single picture, a rotation a
    /// panorama; of an angle the low 8 bits are kept.
    pub fn from(action: &LitchiAction) -> (r: Action)
        ensures
            r == Self::spec_from(*action),
    {
        match action {
            LitchiAction::StayFor { ms } => Action::Delay { delay: *ms / 1000 },
            LitchiAction::TakePhoto => Action::ImageStartCapture {
                period: 0,
                resolution: PHOTO_RESOLUTION,
                nb_of_pictures: 1,
            },
            LitchiAction::StartRecording => video_4k_30fps(),
            LitchiAction::StopRecording => Action::VideoStopCapture,
            LitchiAction::RotateAircraft { angle } => {
                let low: u16 = *angle % 0x100;
                let angle: i8 = if low < 0x80 {
                    low as i8
                } else {
                    (low as i16 - 0x100) as i8
                };
                Action::Panorama { angle, speed: ANGULAR_SPEED }
            },
            LitchiAction::TiltCamera { angle } => {
                let low: i32 = (*angle as i32 + 0x8000) % 0x100;
                let angle: i8 = if low < 0x80 {
                    low as i8
                } else {
                    (low - 0x100) as i8
                };
                Action::Tilt { angle, speed: ANGULAR_SPEED }
            },
        }
    }

    /// The actions of a flight plan that a mission's actions become.
    pub open spec fn spec_from_all(actions: Seq<LitchiAction>) -> Seq<Action> {
        Seq::new(actions.len(), |i: int| Self::spec_from(actions[i]))
    }

    /// What the actions of a mission are in a flight plan, one for one.
    pub fn from_all(actions: &Vec<LitchiAction>) -> (r: Vec<Action>)
        ensures
            r@ == Self::spec_from_all(actions@),
    {
        let mut made: Vec<Action> = Vec::new();
        let mut i: usize = 0;
        while i < actions.len()
            invariant
                i <= actions@.len(),
                made@ == Self::spec_from_all(actions@.take(i as int)),
            decreases actions@.len() - i,
        {
            made.push(Action::from(&actions[i]));
            i = i + 1;
            assert(made@ == Self::spec_from_all(actions@.take(i as int)));
        }
        assert(actions@.take(i as int) == actions@);
        made
    }
}

/// A plan with nothing in it but the recording started on takeoff.
pub open spec fn spec_new(title: Seq<char>, latitude: Binary64, longitude: Binary64, date: u64) -> FlightPlanView {
    FlightPlanView {
        version: 1,
        title,
        product: "ANAFI_4K"@,
        product_id: 2324,
        uuid: title,
        date,
        progressive_course_activated: true,
        dirty: false,
        longitude,
        latitude,
        longitude_delta: 0,
        latitude_delta: 0,
        zoom_level: ZOOM_LEVEL,
        rotation: 0,
        tilt: 0,
        map_type: 4,
        plan: PlanView {
            takeoff: seq![spec_video_4k_30fps()],
            poi: Seq::empty(),
            waypoints: Seq::empty(),
        },
    }
}

/// The plan called `title`, made at `date`, that flies `waypoints` past
/// `poi`; its map is centred on the first waypoint.
pub open spec fn spec_plan(
    title: Seq<char>,
    date: u64,
    poi: Seq<PointOfInterest>,
    waypoints: Seq<WaypointView>,
) -> FlightPlanView {
    let empty = spec_new(title, waypoints[0].latitude, waypoints[0].longitude, date);
    FlightPlanView {
        plan: PlanView { takeoff: empty.plan.takeoff, poi, waypoints },
        ..empty
    }
}

/// The waypoint as the last of its plan, in a plan that ends every
/// recording there and does nothing else.
pub open spec fn stop_only(waypoint: WaypointView) -> WaypointView {
    WaypointView { actions: Some(seq![Action::VideoStopCapture]), ..waypoint }
}

/// The waypoint as the last of its plan, in a plan that ends every
/// recording there after what else is done.
pub open spec fn stop_added(waypoint: WaypointView) -> WaypointView {
    WaypointView {
        actions: match waypoint.actions {
            Some(actions) => Some(actions.push(Action::VideoStopCapture)),
            None => Some(seq![Action::VideoStopCapture]),
        },
        ..waypoint
    }
}

/// The waypoints with the last one changed by `last`.
pub open spec fn with_last(
    waypoints: Seq<WaypointView>,
    last: spec_fn(WaypointView) -> WaypointView,
) -> Seq<WaypointView> {
    if waypoints.len() == 0 {
        waypoints
    } else {
        waypoints.update(waypoints.len() - 1, last(waypoints.last()))
    }
}

impl<'f> FlightPlan<'f> {
    /// A plan made at `date`, with nothing in it but the recording started
    /// on takeoff. The title is the plan's identifier too.
    pub fn dated(title: &str, latitude: Binary64, longitude: Binary64, date: u64) -> (plan: Self)
        ensures
            plan@ == spec_new(title@, latitude, longitude, date),
    {
        let mut takeoff: Vec<Action> = Vec::new();
        takeoff.push(video_4k_30fps());
        let plan = FlightPlan {
            version: 1,
            product: "ANAFI_4K",
            product_id: 2324,
            title: title.to_owned(),
            uuid: title.to_owned(),
            date,
            progressive_course_activated: true,
            dirty: false,
            longitude,
            latitude,
            longitude_delta: 0,
            latitude_delta: 0,
            zoom_level: ZOOM_LEVEL,
            rotation: 0,
            tilt: 0,
            map_type: 4,
            plan: Plan { takeoff, poi: Vec::new(), waypoints: Vec::new() },
        };
        assert(plan@.plan.takeoff == seq![spec_video_4k_30fps()]);
        assert(plan@.plan.waypoints == Seq::<WaypointView>::empty());
        assert(plan@.plan =~= spec_new(title@, latitude, longitude, date).plan);
        plan
    }

    /// A plan made now, with nothing in it but the recording started on
    /// takeoff.
    pub fn new(title: &str, latitude: Binary64, longitude: Binary64) -> (plan: Self)
        ensures
            plan@ == spec_new(title@, latitude, longitude, plan.date),
    {
        let now = now_millis();
        FlightPlan::dated(title, latitude, longitude, now as u64)
    }

    /// Calls the plan `title`; the title is the plan's identifier too.
    pub fn retitle(&mut self, title: &str)
        ensures
            final(self)@ == (FlightPlanView { title: title@, uuid: title@, ..old(self)@ }),
    {
        self.title = title.to_owned();
        self.uuid = title.to_owned();
    }

    /// The plan called `title`, made now, that flies `waypoints` past `poi`.
    /// A plan needs a waypoint to start from.
    pub fn with_plan(title: &str, poi: Vec<PointOfInterest>, waypoints: Vec<Waypoint>) -> (r: Result<
        Self,
        Error,
    >)
        ensures
            waypoints@.len() == 0 ==> r == Err::<Self, Error>(
                Error::MalformedLitchiMission("missing start point"),
            ),
            waypoints@.len() > 0 ==> (r matches Ok(plan) && plan@ == spec_plan(
                title@,
                plan.date,
                poi@,
                model::waypoint_views(waypoints@),
            )),
    {
        if waypoints.len() == 0 {
            return Err(Error::MalformedLitchiMission("missing start point"));
        }
        let latitude = waypoints[0].latitude;
        let longitude = waypoints[0].longitude;
        let mut flightplan = FlightPlan::new(title, latitude, longitude);
        flightplan.plan.poi = poi;
        flightplan.plan.waypoints = waypoints;
        Ok(flightplan)
    }
}

} // verus!
