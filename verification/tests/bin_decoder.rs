use litchi_mission::ieee::binary64_from_i32;
use litchi_mission::litchi::bin::deserializer::{Deserializer, Record};
use litchi_mission::litchi::bin::mission::{
    deserialize_passes, OtherSettings, PoIDetails, WaypointDetails, NO_POI,
};
use litchi_mission::litchi::bin::waypoint::WaypointRaw;
use litchi_mission::litchi::bin::{
    from_slice, Error, ErrorKind, FinishAction, LitchiMission, LitchiMissionPartial, PathMode,
    PhotoInterval, PointOfInterest, Section, Waypoint, WaypointPartial, MAGIC,
};
use litchi_mission::litchi::csv::GimbalSettings;
use litchi_mission::litchi::Action;

fn put_u16(out: &mut Vec<u8>, v: u16) {
    out.extend_from_slice(&v.to_be_bytes());
}

fn put_u32(out: &mut Vec<u8>, v: u32) {
    out.extend_from_slice(&v.to_be_bytes());
}

fn put_i32(out: &mut Vec<u8>, v: i32) {
    out.extend_from_slice(&v.to_be_bytes());
}

fn put_f32(out: &mut Vec<u8>, v: f32) {
    out.extend_from_slice(&v.to_be_bytes());
}

fn put_f64(out: &mut Vec<u8>, v: f64) {
    out.extend_from_slice(&v.to_be_bytes());
}

struct SampleWaypoint {
    altitude: f32,
    heading: f32,
    latitude: f64,
    longitude: f64,
    curve_size: f32,
    gimbal: (u32, i32),
    actions: Vec<(u32, u32)>,
    poi: u32,
    interval: (f32, f32),
}

fn put_waypoint(out: &mut Vec<u8>, w: &SampleWaypoint) {
    put_f32(out, w.altitude);
    put_u32(out, 0xAAAA_AAAA);
    put_f32(out, w.heading);
    put_u32(out, 0xBBBB_BBBB);
    put_u32(out, 0xCCCC_CCCC);
    put_f64(out, w.latitude);
    put_f64(out, w.longitude);
    put_f32(out, w.curve_size);
    put_u32(out, w.gimbal.0);
    put_i32(out, w.gimbal.1);
    put_u32(out, w.actions.len() as u32);
    put_u32(out, 0xDDDD_DDDD);
    for (code, value) in &w.actions {
        put_u32(out, *code);
        put_u32(out, *value);
    }
}

fn put_mission(
    finish: u32,
    path: u32,
    cruising: f32,
    max: f32,
    waypoints: &[SampleWaypoint],
    pois: &[(f64, f64, f32)],
) -> Vec<u8> {
    let mut out = Vec::new();
    put_u32(&mut out, MAGIC);
    put_u32(&mut out, 7);
    put_u32(&mut out, finish);
    put_u32(&mut out, path);
    put_f32(&mut out, cruising);
    put_f32(&mut out, max);
    for pad in 0..4u32 {
        put_u32(&mut out, 0x1000 + pad);
    }
    put_u32(&mut out, waypoints.len() as u32);
    for w in waypoints {
        put_waypoint(&mut out, w);
    }
    put_u32(&mut out, pois.len() as u32);
    for (lat, lon, alt) in pois {
        put_f64(&mut out, *lat);
        put_f64(&mut out, *lon);
        put_f32(&mut out, *alt);
    }
    for (i, w) in waypoints.iter().enumerate() {
        put_u16(&mut out, (i % 2) as u16);
        put_f32(&mut out, w.altitude + 1.0);
        put_u32(&mut out, w.poi);
    }
    for (_, _, alt) in pois {
        put_u16(&mut out, 1);
        put_f32(&mut out, *alt);
    }
    put_u32(&mut out, 1);
    put_u32(&mut out, 2);
    put_u32(&mut out, 3);
    put_f32(&mut out, -1.0);
    put_f32(&mut out, -1.0);
    for w in waypoints {
        put_f32(&mut out, w.interval.0);
        put_f32(&mut out, w.interval.1);
    }
    out
}

fn sample_waypoints() -> Vec<SampleWaypoint> {
    vec![
        SampleWaypoint {
            altitude: 30.0,
            heading: 90.0,
            latitude: 48.8584,
            longitude: 2.2945,
            curve_size: 0.2,
            gimbal: (1, 45),
            actions: vec![(0, 5000), (1, 0), (4, 90)],
            poi: 0,
            interval: (2.5, -1.0),
        },
        SampleWaypoint {
            altitude: 42.5,
            heading: -12.0,
            latitude: -33.8568,
            longitude: 151.2153,
            curve_size: 1.5,
            gimbal: (0, 17),
            actions: vec![],
            poi: 0xFFFF_FFFF,
            interval: (-1.0, 10.0),
        },
        SampleWaypoint {
            altitude: 5.0,
            heading: 0.0,
            latitude: 0.0,
            longitude: -0.0,
            curve_size: 0.0,
            gimbal: (2, -30),
            actions: vec![(2, 0), (5, 0xFFFF_FFD3), (3, 0)],
            poi: 1,
            interval: (-1.0, -1.0),
        },
    ]
}

fn sample_mission() -> Vec<u8> {
    put_mission(
        1,
        1,
        8.0,
        12.0,
        &sample_waypoints(),
        &[(48.0, 2.0, 100.0), (-33.0, 151.0, 7.5)],
    )
}

#[test]
fn decodes_a_whole_mission() {
    let bytes = sample_mission();
    let mission = from_slice(&bytes).expect("a well-formed mission decodes");
    assert_eq!(mission.finish_action, FinishAction::ReturnToHome);
    assert_eq!(mission.path_mode, PathMode::CurvedTurns);
    assert_eq!(f32::from_bits(mission.cruising_speed), 8.0);
    assert_eq!(f32::from_bits(mission.max_speed), 12.0);
    assert_eq!(mission.waypoints.len(), 3);
    assert_eq!(mission.poi.len(), 2);

    let first = &mission.waypoints[0];
    assert_eq!(f32::from_bits(first.altitude), 30.0);
    assert_eq!(f32::from_bits(first.heading), 90.0);
    assert_eq!(f64::from_bits(first.latitude), 48.8584);
    assert_eq!(f64::from_bits(first.longitude), 2.2945);
    assert_eq!(f32::from_bits(first.curve_size), 0.2);
    assert_eq!(first.gimbal, Some(GimbalSettings::FocusPoi(45.0f64.to_bits())));
    assert_eq!(first.poi, Some(0));
    assert_eq!(first.interval, Some(PhotoInterval::Time { seconds: 2.5f32.to_bits() }));
    assert_eq!(
        first.actions,
        vec![
            Action::StayFor { ms: 5000 },
            Action::TakePhoto,
            Action::RotateAircraft { angle: 90 }
        ]
    );

    let second = &mission.waypoints[1];
    assert_eq!(f32::from_bits(second.altitude), 42.5);
    assert_eq!(f32::from_bits(second.heading), -12.0);
    assert_eq!(second.gimbal, None);
    assert_eq!(second.poi, None);
    assert_eq!(second.interval, Some(PhotoInterval::Distance { meters: 10.0f32.to_bits() }));
    assert!(second.actions.is_empty());

    let third = &mission.waypoints[2];
    assert_eq!(third.longitude, (-0.0f64).to_bits());
    assert_eq!(third.gimbal, Some(GimbalSettings::Interpolate((-30.0f64).to_bits())));
    assert_eq!(third.poi, Some(1));
    assert_eq!(third.interval, None);
    assert_eq!(
        third.actions,
        vec![Action::StartRecording, Action::TiltCamera { angle: -45 }, Action::StopRecording]
    );

    assert_eq!(
        mission.poi[1],
        PointOfInterest {
            latitude: (-33.0f64).to_bits(),
            longitude: 151.0f64.to_bits(),
            altitude: 7.5f32.to_bits(),
        }
    );
}

#[test]
fn keeps_the_partial_waypoints_altitude() {
    let bytes = sample_mission();
    let mission = from_slice(&bytes).unwrap();
    // The detail pass of the sample carries altitude + 1.
    assert_eq!(f32::from_bits(mission.waypoints[1].altitude), 42.5);
}

#[test]
fn decodes_an_empty_mission() {
    let bytes = put_mission(0, 0, 1.0, 2.0, &[], &[]);
    assert_eq!(bytes.len(), 4 + 36 + 4 + 4 + 20);
    let mission = from_slice(&bytes).unwrap();
    assert_eq!(mission.finish_action, FinishAction::NoAction);
    assert_eq!(mission.path_mode, PathMode::StraigtLines);
    assert!(mission.waypoints.is_empty());
    assert!(mission.poi.is_empty());
}

#[test]
fn counts_are_those_declared() {
    for n in 0..5usize {
        for m in 0..4usize {
            let mut waypoints = Vec::new();
            for i in 0..n {
                waypoints.push(SampleWaypoint {
                    altitude: i as f32,
                    heading: 0.0,
                    latitude: 1.0,
                    longitude: 2.0,
                    curve_size: 0.0,
                    gimbal: (0, 0),
                    actions: vec![(1, 0); i],
                    poi: 0xFFFF_FFFF,
                    interval: (-1.0, -1.0),
                });
            }
            let pois = vec![(1.0, 2.0, 3.0); m];
            let bytes = put_mission(2, 0, 1.0, 2.0, &waypoints, &pois);
            let mission = from_slice(&bytes).unwrap();
            assert_eq!(mission.waypoints.len(), n);
            assert_eq!(mission.poi.len(), m);
            let declared = u32::from_be_bytes([bytes[40], bytes[41], bytes[42], bytes[43]]);
            assert_eq!(declared as usize, n);
        }
    }
}

#[test]
fn refuses_a_wrong_magic() {
    let mut bytes = sample_mission();
    bytes[3] = b'n';
    assert_eq!(from_slice(&bytes), Err(Error::BadMagic));
    assert_eq!(Error::BadMagic.kind(), ErrorKind::FormatError);
    // Nothing behind the magic number is interpreted.
    assert_eq!(from_slice(b"lchn"), Err(Error::BadMagic));
    assert_eq!(from_slice(&[0x6C, 0x63, 0x68, 0x6C, 0xFF, 0xFF]), Err(Error::BadMagic));
    assert_eq!(from_slice(b"RIFF\0\0\0\0"), Err(Error::BadMagic));
}

#[test]
fn magic_alone_is_out_of_data() {
    assert_eq!(from_slice(b"lchm"), Err(Error::OutOfData));
    assert_eq!(from_slice(b"lch"), Err(Error::OutOfData));
    assert_eq!(from_slice(b""), Err(Error::OutOfData));
}

#[test]
fn every_truncation_is_reported() {
    let bytes = sample_mission();
    assert!(from_slice(&bytes).is_ok());
    for k in 0..bytes.len() {
        match from_slice(&bytes[..k]) {
            Err(e) => assert_eq!(e.kind(), ErrorKind::TruncatedInput, "prefix of {} bytes", k),
            Ok(_) => panic!("a prefix of {} bytes decoded", k),
        }
    }
}

#[test]
fn truncation_names_the_record() {
    let bytes = sample_mission();
    // The last interval tuple is cut in two.
    assert_eq!(
        from_slice(&bytes[..bytes.len() - 3]),
        Err(Error::InvalidLength { section: Section::Intervals, index: 2 })
    );
    // The first waypoint's second action is missing.
    let cut = 4 + 36 + 4 + 56 + 8 + 2;
    assert_eq!(
        from_slice(&bytes[..cut]),
        Err(Error::InvalidLength { section: Section::Actions, index: 1 })
    );
    // The second waypoint's fixed part is cut.
    let cut = 4 + 36 + 4 + 56 + 24 + 10;
    assert_eq!(
        from_slice(&bytes[..cut]),
        Err(Error::InvalidLength { section: Section::Waypoints, index: 1 })
    );
    // The metadata record's fixed part is cut.
    assert_eq!(from_slice(&bytes[..20]), Err(Error::OutOfData));
}

#[test]
fn bytes_behind_the_mission_are_ignored() {
    let bytes = sample_mission();
    let mut longer = bytes.clone();
    longer.extend_from_slice(&[1, 2, 3, 4, 5]);
    assert_eq!(from_slice(&longer), from_slice(&bytes));
}

#[test]
fn decoding_twice_gives_equal_missions() {
    let bytes = sample_mission();
    let copy = bytes.clone();
    let first = from_slice(&bytes);
    let second = from_slice(&bytes);
    assert_eq!(first, second);
    assert!(first.is_ok());
    assert_eq!(bytes, copy);
    let broken = &bytes[..bytes.len() / 2];
    assert_eq!(from_slice(broken), from_slice(broken));
}

#[test]
fn unknown_finish_action_and_path_mode() {
    let bytes = put_mission(5, 0, 1.0, 2.0, &[], &[]);
    assert_eq!(from_slice(&bytes), Err(Error::InvalidFinishAction { value: 5 }));
    let bytes = put_mission(4, 2, 1.0, 2.0, &[], &[]);
    assert_eq!(from_slice(&bytes), Err(Error::InvalidPathMode { value: 2 }));
    assert_eq!(Error::InvalidPathMode { value: 2 }.kind(), ErrorKind::SchemaViolation);
    assert_eq!(FinishAction::from_u32(0), Ok(FinishAction::NoAction));
    assert_eq!(FinishAction::from_u32(1), Ok(FinishAction::ReturnToHome));
    assert_eq!(FinishAction::from_u32(2), Ok(FinishAction::Land));
    assert_eq!(FinishAction::from_u32(3), Ok(FinishAction::BackToFirst));
    assert_eq!(FinishAction::from_u32(4), Ok(FinishAction::Reverse));
    assert_eq!(PathMode::from_u32(0), Ok(PathMode::StraigtLines));
    assert_eq!(PathMode::from_u32(1), Ok(PathMode::CurvedTurns));
}

#[test]
fn unknown_tags_inside_a_mission() {
    let mut waypoints = sample_waypoints();
    waypoints[2].actions[1] = (9, 77);
    let bytes = put_mission(1, 1, 8.0, 12.0, &waypoints, &[]);
    assert_eq!(from_slice(&bytes), Err(Error::UnknownAction { code: 9, value: 77 }));

    let mut waypoints = sample_waypoints();
    waypoints[0].gimbal = (3, 0);
    let bytes = put_mission(1, 1, 8.0, 12.0, &waypoints, &[]);
    assert_eq!(from_slice(&bytes), Err(Error::UnknownGimbalMode { mode: 3 }));
}

#[test]
fn sentinel_means_no_point_of_interest() {
    let partial = || WaypointPartial {
        altitude: 1.0f32.to_bits(),
        heading: 2.0f32.to_bits(),
        latitude: 3.0f64.to_bits(),
        longitude: 4.0f64.to_bits(),
        curve_size: 5.0f32.to_bits(),
        gimbal: None,
        actions: vec![Action::TakePhoto],
    };
    let details = |poi: u32| WaypointDetails {
        is_above_ground: 1,
        wp_altitude: 99.0f32.to_bits(),
        waypoint_poi: poi,
    };
    let none = (-1.0f32).to_bits();
    assert_eq!(NO_POI, 0xFFFF_FFFF);
    assert_eq!(Waypoint::assemble(partial(), &details(0xFFFF_FFFF), (none, none)).poi, None);
    for poi in [0u32, 1, 2, 255, 256, 0x7FFF_FFFF, 0x8000_0000, 0xFFFF_FFFE] {
        assert_eq!(Waypoint::assemble(partial(), &details(poi), (none, none)).poi, Some(poi));
    }
    let assembled = Waypoint::assemble(partial(), &details(3), (none, 7.0f32.to_bits()));
    assert_eq!(
        assembled,
        Waypoint {
            altitude: 1.0f32.to_bits(),
            heading: 2.0f32.to_bits(),
            latitude: 3.0f64.to_bits(),
            longitude: 4.0f64.to_bits(),
            curve_size: 5.0f32.to_bits(),
            gimbal: None,
            poi: Some(3),
            interval: Some(PhotoInterval::Distance { meters: 7.0f32.to_bits() }),
            actions: vec![Action::TakePhoto],
        }
    );
}

#[test]
fn interval_resolution() {
    let t = |a: f32, b: f32| PhotoInterval::from_tuple((a.to_bits(), b.to_bits()));
    assert_eq!(t(2.5, -1.0), Some(PhotoInterval::Time { seconds: 2.5f32.to_bits() }));
    assert_eq!(t(-1.0, 10.0), Some(PhotoInterval::Distance { meters: 10.0f32.to_bits() }));
    assert_eq!(t(-1.0, -1.0), None);
    // Time wins where both are set.
    assert_eq!(t(3.0, 4.0), Some(PhotoInterval::Time { seconds: 3.0f32.to_bits() }));
    // Only -1 itself means "not set".
    assert_eq!(t(0.0, -1.0), Some(PhotoInterval::Time { seconds: 0.0f32.to_bits() }));
    assert_eq!(t(1.0, -1.0), Some(PhotoInterval::Time { seconds: 1.0f32.to_bits() }));
    assert_eq!(t(-1.0, -1.0000001), Some(PhotoInterval::Distance { meters: (-1.0000001f32).to_bits() }));
    assert_eq!(
        t(f32::NAN, -1.0),
        Some(PhotoInterval::Time { seconds: f32::NAN.to_bits() })
    );
}

#[test]
fn interval_agrees_with_float_comparison() {
    let samples = [-1.0f32, 0.0, -0.0, 1.0, 2.5, 10.0, f32::INFINITY, f32::NEG_INFINITY, f32::NAN, -0.99999994, -1.0000001];
    for &time in &samples {
        for &dist in &samples {
            let expected = if time != -1.0 {
                Some(PhotoInterval::Time { seconds: time.to_bits() })
            } else if dist != -1.0 {
                Some(PhotoInterval::Distance { meters: dist.to_bits() })
            } else {
                None
            };
            assert_eq!(PhotoInterval::from_tuple((time.to_bits(), dist.to_bits())), expected);
        }
    }
}

#[test]
fn action_decode() {
    assert_eq!(Action::from_tuple((0, 5000)), Ok(Action::StayFor { ms: 5000 }));
    assert_eq!(Action::from_tuple((1, 12)), Ok(Action::TakePhoto));
    assert_eq!(Action::from_tuple((2, 0)), Ok(Action::StartRecording));
    assert_eq!(Action::from_tuple((3, 0)), Ok(Action::StopRecording));
    assert_eq!(Action::from_tuple((4, 90)), Ok(Action::RotateAircraft { angle: 90 }));
    assert_eq!(Action::from_tuple((5, 30)), Ok(Action::TiltCamera { angle: 30 }));
    assert_eq!(Action::from_tuple((6, 0)), Err(Error::UnknownAction { code: 6, value: 0 }));
    assert_eq!(Error::UnknownAction { code: 6, value: 0 }.kind(), ErrorKind::UnknownTag);
    assert_eq!(
        Action::from_tuple((0xFFFF_FFFF, 1)),
        Err(Error::UnknownAction { code: 0xFFFF_FFFF, value: 1 })
    );
}

#[test]
fn action_angles_are_the_low_half() {
    for value in [0u32, 1, 90, 359, 0x7FFF, 0x8000, 0xFFFF, 0x1_0000, 0x1_005A, 0xFFFF_FFD3, 0xFFFF_FFFF] {
        assert_eq!(
            Action::from_tuple((4, value)),
            Ok(Action::RotateAircraft { angle: value as u16 })
        );
        assert_eq!(
            Action::from_tuple((5, value)),
            Ok(Action::TiltCamera { angle: value as i16 })
        );
        assert_eq!(Action::from_tuple((0, value)), Ok(Action::StayFor { ms: value as usize }));
    }
}

#[test]
fn gimbal_decode() {
    assert_eq!(GimbalSettings::from_tuple((0, 0)), Ok(None));
    assert_eq!(GimbalSettings::from_tuple((0, 45)), Ok(None));
    assert_eq!(GimbalSettings::from_tuple((0, i32::MIN)), Ok(None));
    assert_eq!(
        GimbalSettings::from_tuple((1, 45)),
        Ok(Some(GimbalSettings::FocusPoi(45.0f64.to_bits())))
    );
    assert_eq!(
        GimbalSettings::from_tuple((2, -90)),
        Ok(Some(GimbalSettings::Interpolate((-90.0f64).to_bits())))
    );
    assert_eq!(GimbalSettings::from_tuple((3, 0)), Err(Error::UnknownGimbalMode { mode: 3 }));
    assert_eq!(Error::UnknownGimbalMode { mode: 3 }.kind(), ErrorKind::UnknownTag);
}

#[test]
fn integers_become_doubles() {
    let samples = [
        0i32, 1, -1, 2, 3, 45, -45, 90, 360, 1000, 65535, 65536, 0x7FFF_FFFF, -0x7FFF_FFFF,
        i32::MIN, i32::MAX, 0x4000_0000, 0x4000_0001, 123_456_789, -987_654_321,
    ];
    for &x in &samples {
        assert_eq!(binary64_from_i32(x), (x as f64).to_bits(), "for {}", x);
        assert_eq!(f64::from_bits(binary64_from_i32(x)), x as f64);
    }
    assert_eq!(binary64_from_i32(1), 0x3FF0_0000_0000_0000);
    assert_eq!(binary64_from_i32(-2), 0xC000_0000_0000_0000);
}

#[test]
fn cursor_reads_big_endian() {
    let bytes = [0x00, 0x00, 0x01, 0x00, 0xFF, 0xFF, 0xFF, 0xD3, 0x12, 0x34, 0x40, 0x20, 0x00, 0x00];
    let mut de = Deserializer::from_slice(&bytes);
    assert_eq!(de.parse_u32(), Ok(256));
    assert_eq!(de.parse_i32(), Ok(-45));
    assert_eq!(de.parse_u16(), Ok(0x1234));
    assert_eq!(de.parse_float(), Ok(2.5f32.to_bits()));
    assert_eq!(de.parse_u16(), Err(Error::OutOfData));
    assert_eq!(de.parse_u32(), Err(Error::OutOfData));
}

#[test]
fn cursor_reads_doubles() {
    let mut bytes = Vec::new();
    bytes.extend_from_slice(&48.8584f64.to_be_bytes());
    bytes.extend_from_slice(&[1, 2, 3, 4, 5, 6, 7]);
    let mut de = Deserializer::from_slice(&bytes);
    assert_eq!(de.parse_double(), Ok(48.8584f64.to_bits()));
    assert_eq!(de.parse_double(), Err(Error::OutOfData));
    // A failed read consumes nothing.
    assert_eq!(de.parse_u32(), Ok(0x0102_0304));
    assert_eq!(de.parse_double(), Err(Error::OutOfData));
    assert_eq!(de.parse_u16(), Ok(0x0506));
    assert_eq!(de.parse_float(), Err(Error::OutOfData));
}

#[test]
fn cursor_extremes() {
    let bytes = [0xFF; 8];
    assert_eq!(Deserializer::from_slice(&bytes).parse_u32(), Ok(u32::MAX));
    assert_eq!(Deserializer::from_slice(&bytes).parse_i32(), Ok(-1));
    assert_eq!(Deserializer::from_slice(&bytes).parse_u16(), Ok(u16::MAX));
    assert_eq!(Deserializer::from_slice(&bytes).parse_double(), Ok(u64::MAX));
    let bytes = [0x80, 0, 0, 0];
    assert_eq!(Deserializer::from_slice(&bytes).parse_i32(), Ok(i32::MIN));
    let bytes = [0x7F, 0xFF, 0xFF, 0xFF];
    assert_eq!(Deserializer::from_slice(&bytes).parse_i32(), Ok(i32::MAX));
}

#[test]
fn anything_else_is_unsupported() {
    let bytes = [1u8, 2, 3, 4];
    let mut de = Deserializer::from_slice(&bytes);
    assert_eq!(de.deserialize_any(), Err(Error::UnsupportedValue));
    assert_eq!(Error::UnsupportedValue.kind(), ErrorKind::SchemaViolation);
    // Nothing was read.
    assert_eq!(de.parse_u32(), Ok(0x0102_0304));
}

#[test]
fn tuples_and_sequences() {
    let mut wire = Vec::new();
    put_u32(&mut wire, 2);
    put_f64(&mut wire, 1.0);
    put_f64(&mut wire, 2.0);
    put_f32(&mut wire, 3.0);
    put_f64(&mut wire, 4.0);
    put_f64(&mut wire, 5.0);
    put_f32(&mut wire, 6.0);
    let expected = vec![
        PointOfInterest {
            latitude: 1.0f64.to_bits(),
            longitude: 2.0f64.to_bits(),
            altitude: 3.0f32.to_bits(),
        },
        PointOfInterest {
            latitude: 4.0f64.to_bits(),
            longitude: 5.0f64.to_bits(),
            altitude: 6.0f32.to_bits(),
        },
    ];
    let mut de = Deserializer::from_slice(&wire);
    assert_eq!(de.deserialize_seq::<PointOfInterest>(Section::PointsOfInterest), Ok(expected.clone()));
    let mut de = Deserializer::from_slice(&wire[4..]);
    assert_eq!(de.deserialize_tuple::<PointOfInterest>(Section::PointsOfInterest, 2), Ok(expected));
    let mut de = Deserializer::from_slice(&wire[4..]);
    assert_eq!(
        de.deserialize_tuple::<PointOfInterest>(Section::PointsOfInterest, 3),
        Err(Error::InvalidLength { section: Section::PointsOfInterest, index: 2 })
    );
    let mut de = Deserializer::from_slice(&wire[..3]);
    assert_eq!(
        de.deserialize_seq::<PointOfInterest>(Section::PointsOfInterest),
        Err(Error::OutOfData)
    );
    let mut de = Deserializer::from_slice(&wire);
    assert_eq!(de.deserialize_tuple::<PointOfInterest>(Section::PointsOfInterest, 0), Ok(vec![]));
    assert_eq!(de.parse_u32(), Ok(2));
}

#[test]
fn details_and_settings_records() {
    let mut wire = Vec::new();
    put_u16(&mut wire, 1);
    put_f32(&mut wire, 12.5);
    put_u32(&mut wire, 7);
    put_u16(&mut wire, 0);
    put_f32(&mut wire, 3.5);
    put_u32(&mut wire, 10);
    put_u32(&mut wire, 20);
    put_u32(&mut wire, 30);
    put_f32(&mut wire, 2.0);
    put_f32(&mut wire, -1.0);
    let mut de = Deserializer::from_slice(&wire);
    assert_eq!(
        WaypointDetails::deserialize(&mut de),
        Ok(WaypointDetails { is_above_ground: 1, wp_altitude: 12.5f32.to_bits(), waypoint_poi: 7 })
    );
    assert_eq!(
        PoIDetails::deserialize(&mut de),
        Ok(PoIDetails { is_above_ground: 0, wp_altitude: 3.5f32.to_bits() })
    );
    assert_eq!(
        OtherSettings::deserialize(&mut de),
        Ok(OtherSettings {
            unknown_1: 10,
            unknown_2: 20,
            unknown_3: 30,
            photo_capture_interval_seconds: 2.0f32.to_bits(),
            photo_capture_interval_meters: (-1.0f32).to_bits(),
        })
    );
    assert_eq!(WaypointDetails::deserialize(&mut de), Err(Error::OutOfData));
}

#[test]
fn waypoint_records() {
    let sample = &sample_waypoints()[0];
    let mut wire = Vec::new();
    put_waypoint(&mut wire, sample);
    let mut de = Deserializer::from_slice(&wire);
    let raw = WaypointRaw::deserialize(&mut de).unwrap();
    assert_eq!(
        raw,
        WaypointRaw {
            altitude: 30.0f32.to_bits(),
            heading: 90.0f32.to_bits(),
            latitude: 48.8584f64.to_bits(),
            longitude: 2.2945f64.to_bits(),
            curve_size: 0.2f32.to_bits(),
            gimbal_settings: (1, 45),
            nb_actions: 3,
        }
    );
    let from_raw = WaypointPartial::from_raw(raw, vec![Action::TakePhoto]).unwrap();
    assert_eq!(from_raw.gimbal, Some(GimbalSettings::FocusPoi(45.0f64.to_bits())));
    assert_eq!(from_raw.actions, vec![Action::TakePhoto]);
    assert_eq!(from_raw.altitude, raw.altitude);

    let mut de = Deserializer::from_slice(&wire);
    let partial = WaypointPartial::deserialize(&mut de).unwrap();
    assert_eq!(partial.actions.len(), 3);
    assert_eq!(de.parse_u16(), Err(Error::OutOfData));
}

#[test]
fn metadata_record_and_assembly() {
    let bytes = sample_mission();
    let mut de = Deserializer::from_slice(&bytes[4..]);
    let partial = LitchiMissionPartial::deserialize(&mut de).unwrap();
    assert_eq!(partial.waypoints.len(), 3);
    assert_eq!(partial.poi.len(), 2);
    let (details, intervals) = deserialize_passes(&mut de, 3, 2).unwrap();
    assert_eq!(details.len(), 3);
    assert_eq!(details[1].waypoint_poi, 0xFFFF_FFFF);
    assert_eq!(details[0].wp_altitude, 31.0f32.to_bits());
    assert_eq!(intervals, vec![
        (2.5f32.to_bits(), (-1.0f32).to_bits()),
        ((-1.0f32).to_bits(), 10.0f32.to_bits()),
        ((-1.0f32).to_bits(), (-1.0f32).to_bits()),
    ]);
    let mission = LitchiMission::assemble(partial, &details, &intervals);
    assert_eq!(Ok(mission), from_slice(&bytes));
}

#[test]
fn assembly_stops_at_the_shortest_pass() {
    let bytes = sample_mission();
    let mut de = Deserializer::from_slice(&bytes[4..]);
    let partial = LitchiMissionPartial::deserialize(&mut de).unwrap();
    let details = vec![
        WaypointDetails { is_above_ground: 0, wp_altitude: 0, waypoint_poi: 4 },
        WaypointDetails { is_above_ground: 0, wp_altitude: 0, waypoint_poi: 5 },
    ];
    let intervals = vec![(0u32, 0u32); 5];
    let mission = LitchiMission::assemble(partial, &details, &intervals);
    assert_eq!(mission.waypoints.len(), 2);
    assert_eq!(mission.waypoints[1].poi, Some(5));
    assert_eq!(mission.poi.len(), 2);
}
