//! The flight plan as the aircraft's application stores it.

use vstd::prelude::*;

use crate::ieee::Binary64;

verus! {

/// A flight plan: where the map is centred, and what is flown.
#[derive(Debug, PartialEq, Eq)]
pub struct FlightPlan<'f> {
    pub version: u8,
    pub title: String,
    pub product: &'f str,
    pub product_id: u16,
    pub uuid: String,
    /// When the plan was made, in milliseconds since 1970.
    pub date: u64,
    pub progressive_course_activated: bool,
    pub dirty: bool,
    pub longitude: Binary64,
    pub latitude: Binary64,
    pub longitude_delta: Binary64,
    pub latitude_delta: Binary64,
    pub zoom_level: Binary64,
    pub rotation: u16,
    pub tilt: u16,
    pub map_type: u8,
    pub plan: Plan,
}

/// What is flown: what is done on takeoff, the points of interest, and the
/// waypoints in the order in which they are flown to.
#[derive(Debug, PartialEq, Eq)]
pub struct Plan {
    pub takeoff: Vec<Action>,
    pub poi: Vec<PointOfInterest>,
    pub waypoints: Vec<Waypoint>,
}

/// A place the camera can be kept pointed at, and the colour it is drawn in.
#[derive(Clone, Copy, Debug, PartialEq, Eq, Structural)]
pub struct PointOfInterest {
    pub latitude: Binary64,
    pub longitude: Binary64,
    pub altitude: i16,
    pub color: i32,
}

/// A place that is flown to, and what is done there.
#[derive(Debug, PartialEq, Eq)]
pub struct Waypoint {
    pub latitude: Binary64,
    pub longitude: Binary64,
    pub altitude: u16,
    pub yaw: Binary64,
    pub speed: u8,
    /// The index of the point of interest that is followed.
    pub poi: Option<u8>,
    pub dont_stop: bool,
    pub follow_poi: bool,
    pub follow: u8,
    pub last_yaw: Binary64,
    pub actions: Option<Vec<Action>>,
}

/// What the aircraft does at a waypoint or on takeoff.
#[allow(inconsistent_fields)]
#[derive(Clone, Copy, Debug, PartialEq, Eq, Structural)]
pub enum Action {
    /// Start video recording, with the camera's number, the resolution in
    /// pixels and the frames per second.
    VideoStartCapture { camera_id: u8, resolution: usize, fps: u8 },
    /// Stop video recording.
    VideoStopCapture,
    /// Start taking pictures, one every `period` seconds.
    ImageStartCapture { period: usize, resolution: Binary64, nb_of_pictures: usize },
    /// Stop taking pictures.
    ImageStopCapture,
    /// Hover for so many seconds.
    Delay { delay: usize },
    /// Tilt the camera to an angle in degrees, at so many degrees per second.
    Tilt { angle: i8, speed: u8 },
    /// Turn on the spot by an angle in degrees, at so many degrees per second.
    Panorama { angle: i8, speed: u8 },
    Landing,
}

/// What a [`Waypoint`] holds.
pub struct WaypointView {
    pub latitude: Binary64,
    pub longitude: Binary64,
    pub altitude: u16,
    pub yaw: Binary64,
    pub speed: u8,
    pub poi: Option<u8>,
    pub dont_stop: bool,
    pub follow_poi: bool,
    pub follow: u8,
    pub last_yaw: Binary64,
    pub actions: Option<Seq<Action>>,
}

impl View for Waypoint {
    type V = WaypointView;

    open spec fn view(&self) -> WaypointView {
        WaypointView {
            latitude: self.latitude,
            longitude: self.longitude,
            altitude: self.altitude,
            yaw: self.yaw,
            speed: self.speed,
            poi: self.poi,
            dont_stop: self.dont_stop,
            follow_poi: self.follow_poi,
            follow: self.follow,
            last_yaw: self.last_yaw,
            actions: match self.actions {
                Some(actions) => Some(actions@),
                None => None,
            },
        }
    }
}

/// What a [`Plan`] holds.
pub struct PlanView {
    pub takeoff: Seq<Action>,
    pub poi: Seq<PointOfInterest>,
    pub waypoints: Seq<WaypointView>,
}

/// The views of waypoints, in order.
pub open spec fn waypoint_views(waypoints: Seq<Waypoint>) -> Seq<WaypointView> {
    Seq::new(waypoints.len(), |i: int| waypoints[i]@)
}

impl View for Plan {
    type V = PlanView;

    open spec fn view(&self) -> PlanView {
        PlanView {
            takeoff: self.takeoff@,
            poi: self.poi@,
            waypoints: waypoint_views(self.waypoints@),
        }
    }
}

/// What a [`FlightPlan`] holds.
pub struct FlightPlanView {
    pub version: u8,
    pub title: Seq<char>,
    pub product: Seq<char>,
    pub product_id: u16,
    pub uuid: Seq<char>,
    pub date: u64,
    pub progressive_course_activated: bool,
    pub dirty: bool,
    pub longitude: Binary64,
    pub latitude: Binary64,
    pub longitude_delta: Binary64,
    pub latitude_delta: Binary64,
    pub zoom_level: Binary64,
    pub rotation: u16,
    pub tilt: u16,
    pub map_type: u8,
    pub plan: PlanView,
}

impl<'f> View for FlightPlan<'f> {
    type V = FlightPlanView;

    open spec fn view(&self) -> FlightPlanView {
        FlightPlanView {
            version: self.version,
            title: self.title@,
            product: self.product@,
            product_id: self.product_id,
            uuid: self.uuid@,
            date: self.date,
            progressive_course_activated: self.progressive_course_activated,
            dirty: self.dirty,
            longitude: self.longitude,
            latitude: self.latitude,
            longitude_delta: self.longitude_delta,
            latitude_delta: self.latitude_delta,
            zoom_level: self.zoom_level,
            rotation: self.rotation,
            tilt: self.tilt,
            map_type: self.map_type,
            plan: self.plan@,
        }
    }
}

} // verus!
