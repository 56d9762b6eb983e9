//! Flight plans from markup missions.

use vstd::prelude::*;

use super::model::{waypoint_views, WaypointView};
use super::{
    spec_plan, stop_only, with_last, Action, FlightPlan, Waypoint, DEFAULT_SPEED_MS,
    DEFAULT_WAYPOINT_ALTITUDE_M,
};
use crate::error::{Error, IntErrorKind};
use crate::ieee::{
    binary64_whole, binary64_whole_part, Binary64, INFINITY_64, ONE_64, SIGN_BIT, U16_MAX_64,
};
use crate::litchi::kml::{Coord, Mission};

verus! {

/// The height of a waypoint, from the height of a position.
pub open spec fn spec_altitude_checked(altitude: Option<Binary64>) -> Result<u16, Error> {
    match altitude {
        None => Ok(DEFAULT_WAYPOINT_ALTITUDE_M),
        Some(bits) => {
            let magnitude = bits % SIGN_BIT;
            if magnitude > INFINITY_64 {
                Err(Error::AltitudeOverflow(IntErrorKind::InvalidDigit))
            } else if magnitude == INFINITY_64 {
                if bits >= SIGN_BIT {
                    Err(Error::AltitudeOverflow(IntErrorKind::NegOverflow))
                } else {
                    Err(Error::AltitudeOverflow(IntErrorKind::PosOverflow))
                }
            } else if bits >= SIGN_BIT || bits < ONE_64 {
                Err(Error::AltitudeOverflow(IntErrorKind::Zero))
            } else if bits > U16_MAX_64 {
                Err(Error::AltitudeOverflow(IntErrorKind::PosOverflow))
            } else {
                Ok(binary64_whole(bits) as u16)
            }
        },
    }
}

/// The height of a waypoint, from the height of a position: the whole
/// meters of a height from 1 to 65535, and the default where the position
/// has no height. What is no number, infinite, below 1 or above 65535 is
/// refused, each in its own way.
pub fn altitude_checked(altitude: Option<Binary64>) -> (r: Result<u16, Error>)
    ensures
        r == spec_altitude_checked(altitude),
{
    match altitude {
        None => Ok(DEFAULT_WAYPOINT_ALTITUDE_M),
        Some(bits) => {
            let magnitude = bits % SIGN_BIT;
            if magnitude > INFINITY_64 {
                Err(Error::AltitudeOverflow(IntErrorKind::InvalidDigit))
            } else if magnitude == INFINITY_64 {
                if bits >= SIGN_BIT {
                    Err(Error::AltitudeOverflow(IntErrorKind::NegOverflow))
                } else {
                    Err(Error::AltitudeOverflow(IntErrorKind::PosOverflow))
                }
            } else if bits >= SIGN_BIT || bits < ONE_64 {
                Err(Error::AltitudeOverflow(IntErrorKind::Zero))
            } else if bits > U16_MAX_64 {
                Err(Error::AltitudeOverflow(IntErrorKind::PosOverflow))
            } else {
                Ok(binary64_whole_part(bits))
            }
        },
    }
}

impl Waypoint {
    /// The waypoint at a position of a path.
    pub open spec fn spec_try_from(coord: Coord) -> Result<WaypointView, Error> {
        match spec_altitude_checked(coord.z) {
            Err(e) => Err(e),
            Ok(altitude) => Ok(
                WaypointView {
                    latitude: coord.x,
                    longitude: coord.y,
                    altitude,
                    yaw: 0,
                    speed: DEFAULT_SPEED_MS,
                    poi: None,
                    dont_stop: true,
                    follow_poi: false,
                    follow: 0,
                    last_yaw: 0,
                    actions: None,
                },
            ),
        }
    }

    /// The waypoint at a position of a path: flown through at the default
    /// speed, heading north, with nothing done there.
    pub fn try_from(coord: &Coord) -> (r: Result<Waypoint, Error>)
        ensures
            match Self::spec_try_from(*coord) {
                Ok(waypoint) => r matches Ok(made) && made@ == waypoint,
                Err(e) => r == Err::<Waypoint, Error>(e),
            },
    {
        let altitude = altitude_checked(coord.z)?;
        Ok(
            Waypoint {
                latitude: coord.x,
                longitude: coord.y,
                altitude,
                yaw: 0,
                last_yaw: 0,
                speed: DEFAULT_SPEED_MS,
                poi: None,
                follow_poi: false,
                dont_stop: true,
                follow: 0,
                actions: None,
            },
        )
    }
}

/// The waypoints at the positions of a path, or the failure of the first
/// position that is none.
pub open spec fn path_waypoints(coords: Seq<Coord>) -> Result<Seq<WaypointView>, Error>
    decreases coords.len(),
{
    if coords.len() == 0 {
        Ok(Seq::empty())
    } else {
        match path_waypoints(coords.drop_last()) {
            Err(e) => Err(e),
            Ok(waypoints) => match Waypoint::spec_try_from(coords.last()) {
                Err(e) => Err(e),
                Ok(waypoint) => Ok(waypoints.push(waypoint)),
            },
        }
    }
}

/// A path whose beginning fails, fails in the same way.
proof fn lemma_path_waypoints_failed(coords: Seq<Coord>, k: int)
    requires
        0 <= k <= coords.len(),
        path_waypoints(coords.take(k)) is Err,
    ensures
        path_waypoints(coords) == path_waypoints(coords.take(k)),
    decreases coords.len(),
{
    if k < coords.len() {
        assert(coords.drop_last().take(k) == coords.take(k));
        lemma_path_waypoints_failed(coords.drop_last(), k);
    } else {
        assert(coords.take(k) == coords);
    }
}

/// A path gives one waypoint for each of its positions.
pub proof fn lemma_path_waypoints_len(coords: Seq<Coord>)
    ensures
        path_waypoints(coords) matches Ok(waypoints) ==> waypoints.len() == coords.len(),
    decreases coords.len(),
{
    if coords.len() > 0 {
        lemma_path_waypoints_len(coords.drop_last());
    }
}

/// The flight plan of a markup mission, made at `date`.
pub open spec fn spec_from_kml(
    name: Seq<char>,
    coords: Seq<Coord>,
    date: u64,
) -> Result<super::model::FlightPlanView, Error> {
    match path_waypoints(coords) {
        Err(e) => Err(e),
        Ok(waypoints) => if waypoints.len() == 0 {
            Err(Error::MalformedLitchiMission("missing start point"))
        } else {
            Ok(
                spec_plan(
                    name,
                    date,
                    Seq::empty(),
                    with_last(waypoints, |w: WaypointView| stop_only(w)),
                ),
            )
        },
    }
}

impl<'f> FlightPlan<'f> {
    /// The flight plan of a markup mission: a waypoint at each position of
    /// the path, the recording stopped at the last, no points of interest.
    /// The plan is called as the mission is.
    pub fn try_from_kml(mission: &Mission) -> (r: Result<Self, Error>)
        ensures
            match r {
                Ok(plan) => spec_from_kml(mission.name@, mission.path.coords@, plan.date) == Ok::<
                    super::model::FlightPlanView,
                    Error,
                >(plan@),
                Err(e) => spec_from_kml(mission.name@, mission.path.coords@, 0) == Err::<
                    super::model::FlightPlanView,
                    Error,
                >(e),
            },
    {
        let coords = &mission.path.coords;
        let mut waypoints: Vec<Waypoint> = Vec::new();
        let mut i: usize = 0;
        assert(coords@.take(0) == Seq::<Coord>::empty());
        assert(waypoint_views(waypoints@) == Seq::<WaypointView>::empty());
        while i < coords.len()
            invariant
                coords@ == mission.path.coords@,
                i <= coords@.len(),
                path_waypoints(coords@.take(i as int)) == Ok::<Seq<WaypointView>, Error>(
                    waypoint_views(waypoints@),
                ),
            decreases coords@.len() - i,
        {
            proof {
                assert(coords@.take(i + 1).drop_last() == coords@.take(i as int));
            }
            match Waypoint::try_from(&coords[i]) {
                Ok(waypoint) => {
                    assert(waypoint_views(waypoints@.push(waypoint)) == waypoint_views(
                        waypoints@,
                    ).push(waypoint@));
                    waypoints.push(waypoint);
                },
                Err(e) => {
                    proof {
                        assert(path_waypoints(coords@.take(i + 1)) == Err::<
                            Seq<WaypointView>,
                            Error,
                        >(e));
                        lemma_path_waypoints_failed(coords@, i + 1);
                    }
                    return Err(e);
                },
            }
            i = i + 1;
        }
        assert(coords@.take(i as int) == coords@);
        let ghost made = waypoint_views(waypoints@);
        match waypoints.pop() {
            Some(last) => {
                let mut stop: Vec<Action> = Vec::new();
                stop.push(Action::VideoStopCapture);
                let last = Waypoint { actions: Some(stop), ..last };
                assert(last@ == stop_only(made.last()));
                waypoints.push(last);
                assert(waypoint_views(waypoints@) == with_last(
                    made,
                    |w: WaypointView| stop_only(w),
                ));
            },
            None => {},
        }
        FlightPlan::with_plan(mission.name.as_str(), Vec::new(), waypoints)
    }
}

/// The flight plan of a markup mission, made now.
pub fn from_kml<'f>(mission: &Mission) -> (r: Result<FlightPlan<'f>, Error>)
    ensures
        match r {
            Ok(plan) => spec_from_kml(mission.name@, mission.path.coords@, plan.date) == Ok::<
                super::model::FlightPlanView,
                Error,
            >(plan@),
            Err(e) => spec_from_kml(mission.name@, mission.path.coords@, 0) == Err::<
                super::model::FlightPlanView,
                Error,
            >(e),
        },
{
    FlightPlan::try_from_kml(mission)
}

} // verus!
