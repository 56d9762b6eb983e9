//! Flight plans from delimited-text missions.

use vstd::prelude::*;

use super::color::{poi_color, spec_poi_color};
use super::from_bin::PLAIN_COLOR;
use super::model::{waypoint_views, FlightPlanView, WaypointView};
use super::{
    spec_plan, stop_only, with_last, Action, FlightPlan, PointOfInterest, Waypoint,
    DEFAULT_SPEED_MS,
};
use crate::error::Error;
use crate::ieee::{binary32_as_u8, binary32_to_u8, Binary64};
use crate::litchi::csv::de::deserializer::MissionRecordView;
use crate::litchi::csv::{Coordinates, MissionRecord};

verus! {

/// Latitude and longitude, by which a waypoint finds its point of interest.
pub type PoiKey = (Binary64, Binary64);

/// A number of 16 bits read with sign.
pub open spec fn signed_half(value: u16) -> i16 {
    if value < 0x8000 {
        value as i16
    } else {
        (value - 0x1_0000) as i16
    }
}

/// The point of interest at a place.
pub open spec fn spec_poi_at(place: Coordinates) -> PointOfInterest {
    PointOfInterest {
        latitude: place.latitude,
        longitude: place.longitude,
        altitude: signed_half(place.altitude.spec_meters()),
        color: PLAIN_COLOR,
    }
}

/// The point of interest at a place.
pub fn poi_at(place: &Coordinates) -> (poi: PointOfInterest)
    ensures
        poi == spec_poi_at(*place),
{
    let meters = place.altitude.meters();
    let altitude: i16 = if meters < 0x8000 {
        meters as i16
    } else {
        (meters as i32 - 0x1_0000) as i16
    };
    PointOfInterest {
        latitude: place.latitude,
        longitude: place.longitude,
        altitude,
        color: PLAIN_COLOR,
    }
}

/// The point of interest of a record, if it has one.
pub fn poi_of(record: &MissionRecord) -> (poi: Option<PointOfInterest>)
    ensures
        poi == match record.poi {
            Some(place) => Some(spec_poi_at(place)),
            None => None,
        },
{
    match &record.poi {
        Some(place) => Some(poi_at(place)),
        None => None,
    }
}

/// The key of a record's point of interest, if it has one.
pub fn key_of(record: &MissionRecord) -> (key: Option<PoiKey>)
    ensures
        key == match record.poi {
            Some(place) => Some((place.latitude, place.longitude)),
            None => None,
        },
{
    match &record.poi {
        Some(place) => Some((place.latitude, place.longitude)),
        None => None,
    }
}

/// The points of interest of the records: each one once, in the order in
/// which the records name them first.
pub open spec fn unique_pois(records: Seq<MissionRecordView>) -> Seq<PointOfInterest>
    decreases records.len(),
{
    if records.len() == 0 {
        Seq::empty()
    } else {
        let before = unique_pois(records.drop_last());
        match records.last().poi {
            None => before,
            Some(place) => if before.contains(spec_poi_at(place)) {
                before
            } else {
                before.push(spec_poi_at(place))
            },
        }
    }
}

/// The points of interest, each in the colour of its place.
pub open spec fn colored(pois: Seq<PointOfInterest>) -> Seq<PointOfInterest> {
    Seq::new(pois.len(), |i: int| PointOfInterest { color: spec_poi_color(i as nat), ..pois[i] })
}

/// The index, cut to 8 bits, of the last of the first `n` points of
/// interest that lies at `key`.
pub open spec fn link_to(pois: Seq<PointOfInterest>, key: PoiKey, n: nat) -> Option<u8>
    decreases n,
{
    if n == 0 {
        None
    } else if pois[n - 1].latitude == key.0 && pois[n - 1].longitude == key.1 {
        Some(((n - 1) % 0x100) as u8)
    } else {
        link_to(pois, key, (n - 1) as nat)
    }
}

impl Waypoint {
    /// A record's waypoint in a flight plan, seen under the given yaw and
    /// not yet linked to a point of interest.
    pub open spec fn spec_from_record(record: MissionRecordView, yaw: Binary64) -> WaypointView {
        WaypointView {
            latitude: record.waypoint.latitude,
            longitude: record.waypoint.longitude,
            altitude: record.waypoint.altitude.spec_meters(),
            yaw,
            speed: if binary32_as_u8(record.speed) == 0 {
                DEFAULT_SPEED_MS
            } else {
                binary32_as_u8(record.speed)
            },
            poi: None,
            dont_stop: true,
            follow_poi: false,
            follow: 1,
            last_yaw: 0,
            actions: if record.actions.len() == 0 {
                None
            } else {
                Some(Action::spec_from_all(record.actions))
            },
        }
    }

    /// A record's waypoint in a flight plan: the speed in whole meters per
    /// second, the default where that is none; each action as the plan's
    /// action for it.
    pub fn from_record(record: &MissionRecord, yaw: Binary64) -> (r: Waypoint)
        ensures
            r@ == Self::spec_from_record(record@, yaw),
    {
        let actions = if record.actions.len() == 0 {
            None
        } else {
            Some(Action::from_all(&record.actions))
        };
        let speed = match binary32_to_u8(record.speed) {
            0 => DEFAULT_SPEED_MS,
            x => x,
        };
        Waypoint {
            latitude: record.waypoint.latitude,
            longitude: record.waypoint.longitude,
            altitude: record.waypoint.altitude.meters(),
            yaw,
            speed,
            poi: None,
            dont_stop: true,
            follow_poi: false,
            follow: 1,
            last_yaw: 0,
            actions,
        }
    }
}

/// A record's waypoint, linked to its point of interest among `pois`.
pub open spec fn spec_linked(
    record: MissionRecordView,
    yaw: Binary64,
    pois: Seq<PointOfInterest>,
) -> WaypointView {
    let plain = Waypoint::spec_from_record(record, yaw);
    match record.poi {
        None => plain,
        Some(place) => match link_to(pois, (place.latitude, place.longitude), pois.len()) {
            None => plain,
            Some(index) => WaypointView { poi: Some(index), follow_poi: true, ..plain },
        },
    }
}

/// The waypoints of a flight plan, before the last one is made to stop
/// the recording.
pub open spec fn spec_waypoints(
    records: Seq<MissionRecordView>,
    yaws: Seq<Binary64>,
    pois: Seq<PointOfInterest>,
) -> Seq<WaypointView> {
    Seq::new(records.len(), |i: int| spec_linked(records[i], yaws[i], pois))
}

/// What each record holds.
pub open spec fn record_views(records: Seq<MissionRecord>) -> Seq<MissionRecordView> {
    Seq::new(records.len(), |i: int| records[i]@)
}

/// The flight plan of a delimited-text mission, called `title` and made at
/// `date`.
pub open spec fn spec_from_csv(
    title: Seq<char>,
    records: Seq<MissionRecordView>,
    yaws: Seq<Binary64>,
    date: u64,
) -> Result<FlightPlanView, Error> {
    if records.len() == 0 {
        Err(Error::MalformedLitchiMission("missing start point"))
    } else {
        let pois = colored(unique_pois(records));
        Ok(
            spec_plan(
                title,
                date,
                pois,
                with_last(spec_waypoints(records, yaws, pois), |w: WaypointView| stop_only(w)),
            ),
        )
    }
}

/// The points of interest of the records: each one once, in the order in
/// which the records name them first, and each in the colour of its place.
pub fn collect_pois(records: &Vec<MissionRecord>) -> (pois: Vec<PointOfInterest>)
    ensures
        pois@ == colored(unique_pois(record_views(records@))),
{
    let mut found: Vec<PointOfInterest> = Vec::new();
    let mut i: usize = 0;
    assert(record_views(records@).take(0) == Seq::<MissionRecordView>::empty());
    while i < records.len()
        invariant
            i <= records@.len(),
            found@ == unique_pois(record_views(records@).take(i as int)),
        decreases records@.len() - i,
    {
        proof {
            assert(record_views(records@).take(i + 1).drop_last() == record_views(records@).take(
                i as int,
            ));
        }
        match poi_of(&records[i]) {
            None => {},
            Some(poi) => {
                let mut known = false;
                let mut k: usize = 0;
                while k < found.len()
                    invariant
                        k <= found@.len(),
                        known == found@.take(k as int).contains(poi),
                    decreases found@.len() - k,
                {
                    let other = found[k];
                    proof {
                        assert(found@.take(k + 1) == found@.take(k as int).push(other));
                        if found@.take(k as int).contains(poi) {
                            let at = choose|at: int|
                                0 <= at < k && found@.take(k as int)[at] == poi;
                            assert(found@.take(k + 1)[at] == poi);
                        }
                        if other == poi {
                            assert(found@.take(k + 1)[k as int] == poi);
                        }
                    }
                    if other.latitude == poi.latitude && other.longitude == poi.longitude
                        && other.altitude == poi.altitude && other.color == poi.color {
                        known = true;
                    }
                    k = k + 1;
                }
                assert(found@.take(k as int) == found@);
                if !known {
                    found.push(poi);
                }
            },
        }
        i = i + 1;
    }
    assert(record_views(records@).take(i as int) == record_views(records@));
    let mut pois: Vec<PointOfInterest> = Vec::new();
    let mut j: usize = 0;
    while j < found.len()
        invariant
            j <= found@.len(),
            pois@.len() == j,
            forall|k: int| 0 <= k < j ==> #[trigger] pois@[k] == colored(found@)[k],
        decreases found@.len() - j,
    {
        pois.push(PointOfInterest { color: poi_color(j), ..found[j] });
        j = j + 1;
    }
    assert(pois@ == colored(found@));
    pois
}

/// The index, cut to 8 bits, of the last point of interest at `key`.
pub fn find_link(pois: &Vec<PointOfInterest>, key: PoiKey) -> (link: Option<u8>)
    ensures
        link == link_to(pois@, key, pois@.len()),
{
    let mut link: Option<u8> = None;
    let mut i: usize = 0;
    while i < pois.len()
        invariant
            i <= pois@.len(),
            link == link_to(pois@, key, i as nat),
        decreases pois@.len() - i,
    {
        if pois[i].latitude == key.0 && pois[i].longitude == key.1 {
            link = Some((i % 0x100) as u8);
        }
        i = i + 1;
    }
    link
}

impl<'f> FlightPlan<'f> {
    /// The flight plan of a delimited-text mission, without a title: a
    /// waypoint for each record, linked to the point of interest that the
    /// record names; the recording stopped at the last waypoint, in place of
    /// what else was to be done there. `yaws` holds the yaw under which
    /// each waypoint is seen.
    pub fn try_from_csv(records: &Vec<MissionRecord>, yaws: &Vec<Binary64>) -> (r: Result<
        Self,
        Error,
    >)
        requires
            yaws@.len() == records@.len(),
        ensures
            match r {
                Ok(plan) => spec_from_csv(Seq::empty(), record_views(records@), yaws@, plan.date)
                    == Ok::<FlightPlanView, Error>(plan@),
                Err(e) => spec_from_csv(Seq::empty(), record_views(records@), yaws@, 0) == Err::<
                    FlightPlanView,
                    Error,
                >(e),
            },
    {
        let poi = collect_pois(records);
        let ghost expected = spec_waypoints(record_views(records@), yaws@, poi@);
        let mut waypoints: Vec<Waypoint> = Vec::new();
        let mut i: usize = 0;
        while i < records.len()
            invariant
                yaws@.len() == records@.len(),
                i <= records@.len(),
                waypoints@.len() == i,
                expected == spec_waypoints(record_views(records@), yaws@, poi@),
                forall|k: int| 0 <= k < i ==> (#[trigger] waypoints@[k])@ == expected[k],
            decreases records@.len() - i,
        {
            let mut wp = Waypoint::from_record(&records[i], yaws[i]);
            match key_of(&records[i]) {
                Some(key) => match find_link(&poi, key) {
                    Some(index) => {
                        wp.poi = Some(index);
                        wp.follow_poi = true;
                    },
                    None => {},
                },
                None => {},
            }
            assert(wp@ == expected[i as int]);
            waypoints.push(wp);
            i = i + 1;
        }
        assert(waypoint_views(waypoints@) == expected);
        let ghost made = waypoint_views(waypoints@);
        match waypoints.pop() {
            Some(last) => {
                let mut stop: Vec<Action> = Vec::new();
                stop.push(Action::VideoStopCapture);
                let last = Waypoint { actions: Some(stop), ..last };
                assert(last@ == stop_only(made.last()));
                waypoints.push(last);
                assert(waypoint_views(waypoints@) == with_last(
                    made,
                    |w: WaypointView| stop_only(w),
                ));
            },
            None => {},
        }
        proof {
            reveal_strlit("");
            assert(""@ == Seq::<char>::empty());
        }
        FlightPlan::with_plan("", poi, waypoints)
    }
}

/// The flight plan of a delimited-text mission, called `title` and made
/// now. `yaws` holds the yaw under which each waypoint is seen.
pub fn from_csv<'f>(title: &str, records: &Vec<MissionRecord>, yaws: &Vec<Binary64>) -> (r: Result<
    FlightPlan<'f>,
    Error,
>)
    requires
        yaws@.len() == records@.len(),
    ensures
        match r {
            Ok(plan) => spec_from_csv(title@, record_views(records@), yaws@, plan.date) == Ok::<
                FlightPlanView,
                Error,
            >(plan@),
            Err(e) => spec_from_csv(title@, record_views(records@), yaws@, 0) == Err::<
                FlightPlanView,
                Error,
            >(e),
        },
{
    let mut flightplan = FlightPlan::try_from_csv(records, yaws)?;
    flightplan.retitle(title);
    Ok(flightplan)
}

} // verus!
