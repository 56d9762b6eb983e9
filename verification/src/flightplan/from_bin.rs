//! Flight plans from binary missions.

use vstd::prelude::*;

use super::color::{poi_color, spec_poi_color};
use super::model::{waypoint_views, FlightPlanView, WaypointView};
use super::{
    spec_plan, stop_added, with_last, Action, FlightPlan, PointOfInterest, Waypoint,
};
use crate::error::Error;
use crate::ieee::{
    binary32_as_i16, binary32_as_u16, binary32_as_u8, binary32_to_i16, binary32_to_u16,
    binary32_to_u8, Binary32, Binary64,
};
use crate::litchi::bin;
use crate::litchi::bin::mission::LitchiMissionView;
use crate::litchi::bin::LitchiMission;

verus! {

/// The colour of a point of interest before it has been given its own.
pub const PLAIN_COLOR: i32 = 0x32a852;

impl PointOfInterest {
    /// A mission's point of interest in a flight plan.
    pub open spec fn spec_from(poi: bin::PointOfInterest) -> PointOfInterest {
        PointOfInterest {
            latitude: poi.latitude,
            longitude: poi.longitude,
            altitude: binary32_as_i16(poi.altitude),
            color: PLAIN_COLOR,
        }
    }

    /// A mission's point of interest in a flight plan: at the same place,
    /// its height in whole meters.
    pub fn from(poi: &bin::PointOfInterest) -> (r: PointOfInterest)
        ensures
            r == Self::spec_from(*poi),
    {
        PointOfInterest {
            latitude: poi.latitude,
            longitude: poi.longitude,
            altitude: binary32_to_i16(poi.altitude),
            color: PLAIN_COLOR,
        }
    }
}

/// The points of interest of a flight plan: those of the mission, each in
/// the colour of its place.
pub open spec fn spec_pois(pois: Seq<bin::PointOfInterest>) -> Seq<PointOfInterest> {
    Seq::new(
        pois.len(),
        |i: int|
            PointOfInterest { color: spec_poi_color(i as nat), ..PointOfInterest::spec_from(pois[i]) },
    )
}

impl Waypoint {
    /// A mission's waypoint in a flight plan of the given cruising speed,
    /// seen under the given yaw.
    pub open spec fn spec_from_bin(
        waypoint: bin::waypoint::WaypointView,
        cruising_speed: Binary32,
        yaw: Binary64,
    ) -> WaypointView {
        WaypointView {
            latitude: waypoint.latitude,
            longitude: waypoint.longitude,
            altitude: binary32_as_u16(waypoint.altitude),
            yaw,
            speed: binary32_as_u8(cruising_speed),
            poi: match waypoint.poi {
                Some(index) => Some((index % 0x100) as u8),
                None => None,
            },
            dont_stop: true,
            follow_poi: waypoint.poi is Some,
            follow: 1,
            last_yaw: 0,
            actions: if waypoint.actions.len() == 0 {
                None
            } else {
                Some(Action::spec_from_all(waypoint.actions))
            },
        }
    }

    /// A mission's waypoint in a flight plan: height and speed in whole
    /// units, the link to a point of interest cut to 8 bits, each action
    /// as the plan's action for it.
    pub fn from_bin(waypoint: &bin::Waypoint, cruising_speed: Binary32, yaw: Binary64) -> (r:
        Waypoint)
        ensures
            r@ == Self::spec_from_bin(waypoint@, cruising_speed, yaw),
    {
        let poi = match waypoint.poi {
            Some(index) => Some((index % 0x100) as u8),
            None => None,
        };
        let actions = if waypoint.actions.len() == 0 {
            None
        } else {
            Some(Action::from_all(&waypoint.actions))
        };
        Waypoint {
            latitude: waypoint.latitude,
            longitude: waypoint.longitude,
            altitude: binary32_to_u16(waypoint.altitude),
            yaw,
            speed: binary32_to_u8(cruising_speed),
            poi,
            dont_stop: true,
            follow_poi: waypoint.poi.is_some(),
            follow: 1,
            last_yaw: 0,
            actions,
        }
    }
}

/// The waypoints of a flight plan, before the last one is made to stop
/// the recording.
pub open spec fn spec_waypoints(mission: LitchiMissionView, yaws: Seq<Binary64>) -> Seq<
    WaypointView,
> {
    Seq::new(
        mission.waypoints.len(),
        |i: int| Waypoint::spec_from_bin(mission.waypoints[i], mission.cruising_speed, yaws[i]),
    )
}

/// The flight plan of a binary mission, called `title` and made at `date`.
pub open spec fn spec_from_bin(
    title: Seq<char>,
    mission: LitchiMissionView,
    yaws: Seq<Binary64>,
    date: u64,
) -> Result<FlightPlanView, Error> {
    if mission.waypoints.len() == 0 {
        Err(Error::MalformedLitchiMission("missing start point"))
    } else {
        Ok(
            spec_plan(
                title,
                date,
                spec_pois(mission.poi),
                with_last(spec_waypoints(mission, yaws), |w: WaypointView| stop_added(w)),
            ),
        )
    }
}

impl<'f> FlightPlan<'f> {
    /// The flight plan of a binary mission, without a title: the waypoints
    /// and points of interest of the mission, the recording stopped after
    /// what else is done at the last waypoint. `yaws` holds the yaw under
    /// which each waypoint is seen.
    pub fn try_from_bin(mission: &LitchiMission, yaws: &Vec<Binary64>) -> (r: Result<Self, Error>)
        requires
            yaws@.len() == mission.waypoints@.len(),
        ensures
            match r {
                Ok(plan) => spec_from_bin(Seq::empty(), mission@, yaws@, plan.date) == Ok::<
                    FlightPlanView,
                    Error,
                >(plan@),
                Err(e) => spec_from_bin(Seq::empty(), mission@, yaws@, 0) == Err::<
                    FlightPlanView,
                    Error,
                >(e),
            },
    {
        let mut waypoints: Vec<Waypoint> = Vec::new();
        let mut i: usize = 0;
        while i < mission.waypoints.len()
            invariant
                yaws@.len() == mission.waypoints@.len(),
                i <= mission.waypoints@.len(),
                waypoints@.len() == i,
                forall|k: int|
                    0 <= k < i ==> (#[trigger] waypoints@[k])@ == spec_waypoints(mission@, yaws@)[k],
            decreases mission.waypoints@.len() - i,
        {
            waypoints.push(
                Waypoint::from_bin(&mission.waypoints[i], mission.cruising_speed, yaws[i]),
            );
            i = i + 1;
        }
        assert(waypoint_views(waypoints@) == spec_waypoints(mission@, yaws@));
        let mut poi: Vec<PointOfInterest> = Vec::new();
        let mut j: usize = 0;
        while j < mission.poi.len()
            invariant
                j <= mission.poi@.len(),
                poi@.len() == j,
                forall|k: int| 0 <= k < j ==> #[trigger] poi@[k] == spec_pois(mission.poi@)[k],
            decreases mission.poi@.len() - j,
        {
            let plain = PointOfInterest::from(&mission.poi[j]);
            poi.push(PointOfInterest { color: poi_color(j), ..plain });
            j = j + 1;
        }
        assert(poi@ == spec_pois(mission@.poi));
        let ghost made = waypoint_views(waypoints@);
        match waypoints.pop() {
            Some(last) => {
                let Waypoint {
                    latitude,
                    longitude,
                    altitude,
                    yaw,
                    speed,
                    poi: link,
                    dont_stop,
                    follow_poi,
                    follow,
                    last_yaw,
                    actions,
                } = last;
                let actions = match actions {
                    Some(mut actions) => {
                        actions.push(Action::VideoStopCapture);
                        actions
                    },
                    None => {
                        let mut stop: Vec<Action> = Vec::new();
                        stop.push(Action::VideoStopCapture);
                        stop
                    },
                };
                let last = Waypoint {
                    latitude,
                    longitude,
                    altitude,
                    yaw,
                    speed,
                    poi: link,
                    dont_stop,
                    follow_poi,
                    follow,
                    last_yaw,
                    actions: Some(actions),
                };
                assert(last@ == stop_added(made.last()));
                waypoints.push(last);
                assert(waypoint_views(waypoints@) == with_last(
                    made,
                    |w: WaypointView| stop_added(w),
                ));
            },
            None => {},
        }
        proof {
            reveal_strlit("");
            assert(""@ == Seq::<char>::empty());
        }
        FlightPlan::with_plan("", poi, waypoints)
    }
}

/// The flight plan of a binary mission, called `title` and made now.
/// `yaws` holds the yaw under which each waypoint is seen.
pub fn from_bin<'f>(title: &str, mission: &LitchiMission, yaws: &Vec<Binary64>) -> (r: Result<
    FlightPlan<'f>,
    Error,
>)
    requires
        yaws@.len() == mission.waypoints@.len(),
    ensures
        match r {
            Ok(plan) => spec_from_bin(title@, mission@, yaws@, plan.date) == Ok::<
                FlightPlanView,
                Error,
            >(plan@),
            Err(e) => spec_from_bin(title@, mission@, yaws@, 0) == Err::<FlightPlanView, Error>(e),
        },
{
    let mut flightplan = FlightPlan::try_from_bin(mission, yaws)?;
    flightplan.retitle(title);
    Ok(flightplan)
}

} // verus!
