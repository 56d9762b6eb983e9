use litchi_mission::litchi::csv::de::deserializer::{
    poi_coordinate, BadActionSlot, Columns, FieldError, FieldValue, MissingField, MissionField,
    MissionRecordVisitor, FIELD_PATTERN,
};
use litchi_mission::litchi::csv::de::helpers::{
    ActionHelper, AltitudeHelper, ComposedFieldError, CoordinatesHelper, GimbalModeHelper,
};
use litchi_mission::litchi::csv::{Altitude, Coordinates, GimbalSettings, MissionRecord};
use litchi_mission::litchi::Action;

const HEADER: [&str; 16] = [
    "latitude",
    "longitude",
    "altitude(m)",
    "heading(deg)",
    "curvesize(m)",
    "rotationdir",
    "gimbalmode",
    "gimbalpitchangle",
    "altitudemode",
    "speed(m/s)",
    "poi_latitude",
    "poi_longitude",
    "poi_altitude(m)",
    "poi_altitudemode",
    "photo_timeinterval",
    "photo_distinterval",
];

#[test]
fn column_names() {
    let expected = [
        MissionField::Latitude,
        MissionField::Longitude,
        MissionField::Altitude,
        MissionField::Heading,
        MissionField::CurveSize,
        MissionField::RotationDir,
        MissionField::GimbalMode,
        MissionField::GimbalPitchAngle,
        MissionField::AlitudeMode,
        MissionField::Speed,
        MissionField::PoiLatitude,
        MissionField::PoiLongitude,
        MissionField::PoiAltitude,
        MissionField::PoiAltitudeMode,
        MissionField::PhotoTimeInterval,
        MissionField::PhotoDistInterval,
    ];
    for (name, field) in HEADER.iter().zip(expected.iter()) {
        assert_eq!(MissionField::visit_str(name), Ok(*field), "for {}", name);
        assert_eq!(MissionField::visit_bytes(name.as_bytes()), Ok(*field), "for {}", name);
    }
}

#[test]
fn action_column_names() {
    assert_eq!(MissionField::visit_str("actiontype1"), Ok(MissionField::ActionType(1)));
    assert_eq!(MissionField::visit_str("actionparam1"), Ok(MissionField::ActionParam(1)));
    assert_eq!(MissionField::visit_str("actiontype15"), Ok(MissionField::ActionType(15)));
    assert_eq!(MissionField::visit_str("actionparam007"), Ok(MissionField::ActionParam(7)));
    assert_eq!(MissionField::visit_str("actiontype0"), Ok(MissionField::ActionType(0)));
    assert_eq!(MissionField::visit_str("actiontype"), Err(FieldError::MissingActionIndex));
    assert_eq!(MissionField::visit_str("actionparam(x)"), Err(FieldError::MissingActionIndex));
    assert_eq!(
        MissionField::visit_str("actiontype99999999999999999999999999"),
        Err(FieldError::BadActionIndex)
    );
}

#[test]
fn names_that_are_none() {
    assert_eq!(MissionField::visit_str(""), Err(FieldError::NoName));
    assert_eq!(MissionField::visit_str("123"), Err(FieldError::NoName));
    assert_eq!(MissionField::visit_str("(M/S)"), Err(FieldError::NoName));
    assert_eq!(MissionField::visit_str("blatringue"), Err(FieldError::UnknownField));
    assert_eq!(MissionField::visit_str("Latitude"), Err(FieldError::UnknownField));
    assert_eq!(MissionField::visit_bytes(&[0xFF, 0xFE, b'a']), Err(FieldError::InvalidUtf8));
    assert_eq!(MissionField::visit_bytes(&[0xC3]), Err(FieldError::InvalidUtf8));
}

#[test]
fn the_first_run_of_letters_decides() {
    assert_eq!(MissionField::visit_str("  speed (m/s)"), Ok(MissionField::Speed));
    assert_eq!(MissionField::visit_str("42speed"), Ok(MissionField::Speed));
    assert_eq!(MissionField::visit_str("latitude3"), Ok(MissionField::Latitude));
    assert_eq!(MissionField::visit_bytes("é speed".as_bytes()), Ok(MissionField::Speed));
    assert_eq!(FIELD_PATTERN, "([a-z_]+)([0-9]+)?");
}

#[test]
fn captures_by_hand() {
    let groups = |name: &str, index: Option<&str>| {
        Some(vec![Some(name.to_owned()), index.map(|i| i.to_owned())])
    };
    assert_eq!(MissionField::from_captures(&groups("heading", None)), Ok(MissionField::Heading));
    assert_eq!(
        MissionField::from_captures(&groups("heading", Some("4"))),
        Ok(MissionField::Heading)
    );
    assert_eq!(
        MissionField::from_captures(&groups("actiontype", Some("12"))),
        Ok(MissionField::ActionType(12))
    );
    assert_eq!(
        MissionField::from_captures(&groups("actionparam", Some("+3"))),
        Ok(MissionField::ActionParam(3))
    );
    assert_eq!(
        MissionField::from_captures(&groups("actionparam", Some("3x"))),
        Err(FieldError::BadActionIndex)
    );
    assert_eq!(
        MissionField::from_captures(&groups("actionparam", Some(""))),
        Err(FieldError::BadActionIndex)
    );
    assert_eq!(
        MissionField::from_captures(&groups("actionparam", None)),
        Err(FieldError::MissingActionIndex)
    );
    assert_eq!(MissionField::from_captures(&groups("nope", None)), Err(FieldError::UnknownField));
    assert_eq!(MissionField::from_captures(&None), Err(FieldError::NoName));
    assert_eq!(MissionField::from_captures(&Some(vec![])), Err(FieldError::NoName));
    assert_eq!(
        MissionField::from_captures(&Some(vec![Some("speed".to_owned())])),
        Err(FieldError::NoName)
    );
    assert_eq!(MissionField::from_captures(&Some(vec![None, None])), Err(FieldError::NoName));
}

#[test]
fn altitude_from_columns() {
    let h = |mode, height| AltitudeHelper { mode, height };
    assert_eq!(Altitude::try_from(h(Some(0), Some(30))), Ok(Altitude::Absolute(30)));
    assert_eq!(Altitude::try_from(h(Some(1), Some(30))), Ok(Altitude::AboveGround(30)));
    assert_eq!(Altitude::try_from(h(Some(2), Some(30))), Err(ComposedFieldError::UnknownType));
    assert_eq!(Altitude::try_from(h(None, Some(30))), Err(ComposedFieldError::MissingParameter));
    assert_eq!(Altitude::try_from(h(Some(0), None)), Err(ComposedFieldError::MissingParameter));
    // The height is looked for first.
    assert_eq!(Altitude::try_from(h(Some(9), None)), Err(ComposedFieldError::MissingParameter));
    assert_eq!(Altitude::try_from(AltitudeHelper::default()), Err(ComposedFieldError::MissingParameter));
    assert_eq!(Altitude::Absolute(12).meters(), 12);
    assert_eq!(Altitude::AboveGround(65535).meters(), 65535);
}

#[test]
fn coordinates_from_columns() {
    let full = CoordinatesHelper {
        latitude: Some(48.5f64.to_bits()),
        longitude: Some(2.25f64.to_bits()),
        altitude: AltitudeHelper { mode: Some(1), height: Some(20) },
    };
    assert_eq!(
        Coordinates::try_from(full),
        Ok(Coordinates {
            latitude: 48.5f64.to_bits(),
            longitude: 2.25f64.to_bits(),
            altitude: Altitude::AboveGround(20),
        })
    );
    assert_eq!(
        Coordinates::try_from(CoordinatesHelper { latitude: None, ..full }),
        Err(ComposedFieldError::MissingParameter)
    );
    assert_eq!(
        Coordinates::try_from(CoordinatesHelper { longitude: None, ..full }),
        Err(ComposedFieldError::MissingParameter)
    );
    assert_eq!(
        Coordinates::try_from(CoordinatesHelper {
            altitude: AltitudeHelper { mode: Some(7), height: Some(1) },
            ..full
        }),
        Err(ComposedFieldError::UnknownType)
    );
    assert_eq!(
        Coordinates::try_from(CoordinatesHelper::default()),
        Err(ComposedFieldError::MissingParameter)
    );
}

#[test]
fn gimbal_from_columns() {
    let h = |mode, pitch_angle: Option<f64>| GimbalModeHelper {
        mode,
        pitch_angle: pitch_angle.map(f64::to_bits),
    };
    assert_eq!(GimbalSettings::try_from(h(Some(0), None)), Ok(None));
    assert_eq!(GimbalSettings::try_from(h(Some(0), Some(-45.0))), Ok(None));
    assert_eq!(
        GimbalSettings::try_from(h(Some(1), Some(-45.5))),
        Ok(Some(GimbalSettings::FocusPoi((-45.5f64).to_bits())))
    );
    assert_eq!(
        GimbalSettings::try_from(h(Some(2), Some(10.0))),
        Ok(Some(GimbalSettings::Interpolate(10.0f64.to_bits())))
    );
    assert_eq!(GimbalSettings::try_from(h(Some(1), None)), Err(ComposedFieldError::MissingParameter));
    assert_eq!(GimbalSettings::try_from(h(Some(2), None)), Err(ComposedFieldError::MissingParameter));
    assert_eq!(GimbalSettings::try_from(h(Some(3), Some(1.0))), Err(ComposedFieldError::UnknownType));
    assert_eq!(GimbalSettings::try_from(h(None, Some(1.0))), Err(ComposedFieldError::MissingParameter));
    assert_eq!(
        GimbalSettings::try_from(GimbalModeHelper::default()),
        Err(ComposedFieldError::MissingParameter)
    );
}

#[test]
fn action_from_columns() {
    let h = |action_type, action_param| ActionHelper { action_type, action_param };
    assert_eq!(Action::try_from(h(Some(-1), None)), Ok(None));
    assert_eq!(Action::try_from(h(Some(-1), Some(9))), Ok(None));
    assert_eq!(Action::try_from(h(Some(0), Some(5000))), Ok(Some(Action::StayFor { ms: 5000 })));
    assert_eq!(Action::try_from(h(Some(1), None)), Ok(Some(Action::TakePhoto)));
    assert_eq!(Action::try_from(h(Some(2), Some(0))), Ok(Some(Action::StartRecording)));
    assert_eq!(Action::try_from(h(Some(3), None)), Ok(Some(Action::StopRecording)));
    assert_eq!(
        Action::try_from(h(Some(4), Some(90))),
        Ok(Some(Action::RotateAircraft { angle: 90 }))
    );
    assert_eq!(Action::try_from(h(Some(5), Some(-30))), Ok(Some(Action::TiltCamera { angle: -30 })));
    assert_eq!(Action::try_from(h(Some(0), None)), Err(ComposedFieldError::MissingParameter));
    assert_eq!(Action::try_from(h(Some(4), None)), Err(ComposedFieldError::MissingParameter));
    assert_eq!(Action::try_from(h(Some(5), None)), Err(ComposedFieldError::MissingParameter));
    assert_eq!(Action::try_from(h(Some(6), Some(1))), Err(ComposedFieldError::UnknownType));
    assert_eq!(Action::try_from(h(Some(-2), Some(1))), Err(ComposedFieldError::UnknownType));
    assert_eq!(Action::try_from(h(None, Some(1))), Err(ComposedFieldError::MissingParameter));
}

#[test]
fn action_parameters_are_cut_like_casts() {
    let samples = [
        0isize, 1, -1, 90, -90, 255, 256, 32767, 32768, -32768, -32769, 65535, 65536, 65537,
        -65536, 100_000, -100_000, isize::MAX, isize::MIN,
    ];
    for &p in &samples {
        let h = |t| ActionHelper { action_type: Some(t), action_param: Some(p) };
        assert_eq!(Action::try_from(h(0)), Ok(Some(Action::StayFor { ms: p as usize })));
        assert_eq!(Action::try_from(h(4)), Ok(Some(Action::RotateAircraft { angle: p as u16 })));
        assert_eq!(Action::try_from(h(5)), Ok(Some(Action::TiltCamera { angle: p as i16 })));
    }
}

#[test]
fn poi_coordinates() {
    assert_eq!(poi_coordinate(Some(0), Some(0.0f64.to_bits())), Ok(None));
    assert_eq!(poi_coordinate(Some(0), None), Ok(None));
    assert_eq!(poi_coordinate(Some(3), Some(3.0f64.to_bits())), Ok(Some(3.0f64.to_bits())));
    assert_eq!(poi_coordinate(None, Some(48.25f64.to_bits())), Ok(Some(48.25f64.to_bits())));
    // "0.0" is no whole number, and so a coordinate.
    assert_eq!(poi_coordinate(None, Some(0.0f64.to_bits())), Ok(Some(0)));
    assert_eq!(poi_coordinate(None, None), Err(()));
    assert_eq!(poi_coordinate(Some(7), None), Err(()));
}

fn full_record() -> MissionRecordVisitor {
    let mut visitor = MissionRecordVisitor::new();
    let values = [
        FieldValue::Latitude(48.5f64.to_bits()),
        FieldValue::Longitude(2.25f64.to_bits()),
        FieldValue::Altitude(30),
        FieldValue::Heading(180.0f64.to_bits()),
        FieldValue::CurveSize(0.2f64.to_bits()),
        FieldValue::RotationDir(0),
        FieldValue::GimbalMode(2),
        FieldValue::GimbalPitchAngle((-30.0f64).to_bits()),
        FieldValue::AlitudeMode(1),
        FieldValue::Speed(7.5f32.to_bits()),
        FieldValue::PoiLatitude(None),
        FieldValue::PoiLongitude(None),
        FieldValue::PoiAltitude(0),
        FieldValue::PoiAltitudeMode(0),
        FieldValue::PhotoTimeInterval(-1),
        FieldValue::PhotoDistInterval(-1),
        FieldValue::ActionType(1, Some(1)),
        FieldValue::ActionParam(1, 0),
        FieldValue::ActionType(2, Some(-1)),
        FieldValue::ActionParam(2, 0),
        FieldValue::ActionType(3, Some(0)),
        FieldValue::ActionParam(3, 3000),
    ];
    for value in values {
        assert_eq!(visitor.visit(value), Ok(()));
    }
    visitor
}

#[test]
fn a_record_from_its_columns() {
    let record = full_record().finish().unwrap();
    assert_eq!(
        record,
        MissionRecord {
            waypoint: Coordinates {
                latitude: 48.5f64.to_bits(),
                longitude: 2.25f64.to_bits(),
                altitude: Altitude::AboveGround(30),
            },
            heading: 180.0f64.to_bits(),
            curvesize: 0.2f64.to_bits(),
            rotationdir: 0,
            gimbal: Some(GimbalSettings::Interpolate((-30.0f64).to_bits())),
            speed: 7.5f32.to_bits(),
            poi: None,
            photo_timeinterval: -1,
            photo_distinterval: -1,
            actions: vec![Action::TakePhoto, Action::StayFor { ms: 3000 }],
        }
    );
}

#[test]
fn a_record_with_a_point_of_interest() {
    let mut visitor = full_record();
    assert_eq!(visitor.visit(FieldValue::PoiLatitude(Some(48.6f64.to_bits()))), Ok(()));
    assert_eq!(visitor.visit(FieldValue::PoiLongitude(Some(2.3f64.to_bits()))), Ok(()));
    assert_eq!(visitor.visit(FieldValue::PoiAltitude(12)), Ok(()));
    let record = visitor.finish().unwrap();
    assert_eq!(
        record.poi,
        Some(Coordinates {
            latitude: 48.6f64.to_bits(),
            longitude: 2.3f64.to_bits(),
            altitude: Altitude::Absolute(12),
        })
    );

    // One coordinate alone is an incomplete point of interest.
    let mut visitor = full_record();
    assert_eq!(visitor.visit(FieldValue::PoiLatitude(Some(48.6f64.to_bits()))), Ok(()));
    assert_eq!(visitor.finish(), Err(MissingField::PoiCoordinates));
}

#[test]
fn a_later_value_replaces_an_earlier_one() {
    let mut visitor = full_record();
    assert_eq!(visitor.visit(FieldValue::Heading(90.0f64.to_bits())), Ok(()));
    assert_eq!(visitor.visit(FieldValue::ActionType(1, Some(2))), Ok(()));
    let record = visitor.finish().unwrap();
    assert_eq!(record.heading, 90.0f64.to_bits());
    assert_eq!(record.actions, vec![Action::StartRecording, Action::StayFor { ms: 3000 }]);
}

#[test]
fn action_slots() {
    let mut visitor = MissionRecordVisitor::new();
    assert_eq!(visitor.columns, Columns {
        waypoint: CoordinatesHelper::default(),
        heading: None,
        curvesize: None,
        rotationdir: None,
        gimbal: GimbalModeHelper::default(),
        speed: None,
        poi: CoordinatesHelper::default(),
        photo_timeinterval: None,
        photo_distinterval: None,
    });
    assert!(visitor.actions.is_empty());
    // A parameter for a slot that is not there is dropped.
    assert_eq!(visitor.visit(FieldValue::ActionParam(1, 5)), Ok(()));
    assert!(visitor.actions.is_empty());
    assert_eq!(visitor.visit(FieldValue::ActionType(0, Some(1))), Err(BadActionSlot { slot: 0 }));
    assert_eq!(visitor.visit(FieldValue::ActionParam(0, 1)), Err(BadActionSlot { slot: 0 }));
    assert_eq!(visitor.visit(FieldValue::ActionType(2, Some(1))), Err(BadActionSlot { slot: 2 }));
    assert!(visitor.actions.is_empty());
    assert_eq!(visitor.visit(FieldValue::ActionType(1, None)), Ok(()));
    assert_eq!(visitor.actions, vec![ActionHelper { action_type: None, action_param: None }]);
    assert_eq!(visitor.visit(FieldValue::ActionParam(1, 5)), Ok(()));
    assert_eq!(visitor.visit(FieldValue::ActionType(2, Some(4))), Ok(()));
    assert_eq!(visitor.visit(FieldValue::ActionType(1, Some(0))), Ok(()));
    assert_eq!(
        visitor.actions,
        vec![
            ActionHelper { action_type: Some(0), action_param: Some(5) },
            ActionHelper { action_type: Some(4), action_param: None },
        ]
    );
    assert_eq!(visitor.visit(FieldValue::ActionType(4, Some(1))), Err(BadActionSlot { slot: 4 }));
}

#[test]
fn what_is_missing_is_named_in_order() {
    let all = [
        FieldValue::ActionType(1, Some(4)),
        FieldValue::Latitude(1),
        FieldValue::Longitude(2),
        FieldValue::Altitude(3),
        FieldValue::AlitudeMode(0),
        FieldValue::PoiLatitude(Some(1)),
        FieldValue::GimbalMode(9),
        FieldValue::Heading(0),
        FieldValue::CurveSize(0),
        FieldValue::RotationDir(0),
        FieldValue::Speed(0),
        FieldValue::PhotoTimeInterval(0),
        FieldValue::PhotoDistInterval(0),
    ];
    let with = |fix: &[FieldValue]| {
        let mut visitor = MissionRecordVisitor::new();
        for v in fix {
            visitor.visit(*v).unwrap();
        }
        visitor.finish()
    };
    assert_eq!(with(&all[..1]), Err(MissingField::ActionParam));
    assert_eq!(with(&[]), Err(MissingField::WaypointCoordinates));
    assert_eq!(with(&all[1..6]), Err(MissingField::PoiCoordinates));
    assert_eq!(with(&all[1..5]), Err(MissingField::GimbalSettings));
    let mut fixed = all[1..5].to_vec();
    fixed.push(FieldValue::GimbalMode(9));
    assert_eq!(with(&fixed), Err(MissingField::GimbalSettings));
    fixed.push(FieldValue::GimbalMode(0));
    assert_eq!(with(&fixed), Err(MissingField::Heading));
    fixed.push(FieldValue::Heading(0));
    assert_eq!(with(&fixed), Err(MissingField::CurveSize));
    fixed.push(FieldValue::CurveSize(0));
    assert_eq!(with(&fixed), Err(MissingField::RotationDir));
    fixed.push(FieldValue::RotationDir(0));
    assert_eq!(with(&fixed), Err(MissingField::Speed));
    fixed.push(FieldValue::Speed(0));
    assert_eq!(with(&fixed), Err(MissingField::PhotoTimeInterval));
    fixed.push(FieldValue::PhotoTimeInterval(0));
    assert_eq!(with(&fixed), Err(MissingField::PhotoDistInterval));
    fixed.push(FieldValue::PhotoDistInterval(0));
    assert!(with(&fixed).is_ok());
}

#[test]
fn names_of_missing_parts() {
    assert_eq!(MissingField::ActionParam.name(), "action param");
    assert_eq!(MissingField::WaypointCoordinates.name(), "waypoint coordinates");
    assert_eq!(MissingField::PoiCoordinates.name(), "POI coordinates");
    assert_eq!(MissingField::GimbalSettings.name(), "gimbal settings");
    assert_eq!(MissingField::Heading.name(), "heading");
    assert_eq!(MissingField::CurveSize.name(), "curvesize");
    assert_eq!(MissingField::RotationDir.name(), "rotationdir");
    assert_eq!(MissingField::Speed.name(), "speed");
    assert_eq!(MissingField::PhotoTimeInterval.name(), "photo_timeinterval");
    assert_eq!(MissingField::PhotoDistInterval.name(), "photo_distinterval");
}
