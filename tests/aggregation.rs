use queryfit::aggregate::{aggregate, present_if_positive, product_of, with_device_field, with_session_field, FieldError};
use queryfit::models::{Activity, Device, LocalTime, Number, Tenths};
use queryfit::record::{Field, MessageKind, Record};

const NOW: LocalTime = LocalTime { seconds: 1_700_000_000, offset: 3600 };

fn text(name: &str, value: &str) -> Field {
    Field { name: name.to_string(), text: value.to_string(), number: None, time: None }
}

fn num(name: &str, n: Number) -> Field {
    Field { name: name.to_string(), text: String::new(), number: Some(n), time: None }
}

fn time(name: &str, t: LocalTime) -> Field {
    Field { name: name.to_string(), text: String::new(), number: Some(Number::Integer(t.seconds)), time: Some(t) }
}

fn double(x: f64) -> Number {
    Number::Double(x.to_bits())
}

fn session(fields: Vec<Field>) -> Record {
    Record { kind: MessageKind::Session, fields }
}

fn device(fields: Vec<Field>) -> Record {
    Record { kind: MessageKind::DeviceInfo, fields }
}

#[test]
fn zero_distance_elevation_and_power_are_absent() {
    let a = Activity::starting_at(NOW);
    let a = with_session_field(a, &num("total_distance", double(0.0))).unwrap();
    let a = with_session_field(a, &num("total_ascent", Number::Integer(0))).unwrap();
    let a = with_session_field(a, &num("avg_power", double(0.0))).unwrap();
    assert_eq!(a.distance, None);
    assert_eq!(a.elevation, None);
    assert_eq!(a.avg_power, None);
}

#[test]
fn positive_distance_elevation_and_power_are_kept() {
    let a = Activity::starting_at(NOW);
    let a = with_session_field(a, &num("total_distance", double(250.0))).unwrap();
    let a = with_session_field(a, &num("total_ascent", double(250.0))).unwrap();
    let a = with_session_field(a, &num("avg_power", Number::Integer(250))).unwrap();
    assert_eq!(a.distance, Some(double(250.0)));
    assert_eq!(a.elevation, Some(double(250.0)));
    assert_eq!(a.avg_power, Some(Number::Integer(250)));
}

#[test]
fn sentinel_rule_on_edge_values() {
    assert_eq!(present_if_positive(Number::Integer(-3)), None);
    assert_eq!(present_if_positive(Number::Integer(1)), Some(Number::Integer(1)));
    assert_eq!(present_if_positive(Number::Unsigned(0)), None);
    assert_eq!(present_if_positive(Number::Unsigned(u64::MAX)), Some(Number::Unsigned(u64::MAX)));
    assert_eq!(present_if_positive(double(-0.0)), None);
    assert_eq!(present_if_positive(double(-250.0)), None);
    assert_eq!(present_if_positive(double(f64::NAN)), None);
    assert_eq!(present_if_positive(double(f64::INFINITY)), Some(double(f64::INFINITY)));
    assert_eq!(present_if_positive(double(f64::MIN_POSITIVE)), Some(double(f64::MIN_POSITIVE)));
    assert_eq!(present_if_positive(Number::Single(0.5f32.to_bits())), Some(Number::Single(0.5f32.to_bits())));
    assert_eq!(present_if_positive(Number::Single((-0.5f32).to_bits())), None);
    assert_eq!(present_if_positive(Number::Single(f32::NAN.to_bits())), None);
}

#[test]
fn perceived_exertion_is_rescaled_by_ten() {
    let a = with_session_field(Activity::starting_at(NOW), &num("workout_rpe", Number::Integer(75))).unwrap();
    let rpe = a.rpe.unwrap();
    assert_eq!(rpe, Tenths { raw: Number::Integer(75) });
    match rpe.raw {
        Number::Integer(raw) => assert_eq!(raw as f64 / 10.0, 7.5),
        _ => panic!("expected an integer"),
    }
    let zero = with_session_field(Activity::starting_at(NOW), &num("workout_rpe", Number::Integer(0))).unwrap();
    assert_eq!(zero.rpe, None);
}

#[test]
fn numeric_field_without_number_is_an_error() {
    let r = with_session_field(Activity::starting_at(NOW), &text("total_timer_time", "soon"));
    assert_eq!(r, Err(FieldError { field: "total_timer_time".to_string() }));
    let r = with_device_field(Device::starting_at(NOW), &text("battery_voltage", "low"));
    assert_eq!(r, Err(FieldError { field: "battery_voltage".to_string() }));
}

#[test]
fn session_fields_fill_the_activity() {
    let start = LocalTime { seconds: 1_600_000_000, offset: -7200 };
    let rec = session(vec![
        text("sport", "running"),
        time("start_time", start),
        num("total_timer_time", double(1800.5)),
        num("total_calories", Number::Integer(420)),
        num("avg_heart_rate", Number::Integer(150)),
    ]);
    let out = aggregate(&vec![rec], NOW).unwrap();
    assert_eq!(out.activities.len(), 1);
    let a = &out.activities[0];
    assert_eq!(a.sport, "running");
    assert_eq!(a.timestamp, start);
    assert_eq!(a.duration, double(1800.5));
    assert_eq!(a.calories, Number::Integer(420));
    assert_eq!(a.avg_hr, Some(Number::Integer(150)));
    assert!(out.devices.is_empty());
}

#[test]
fn start_time_without_a_time_is_ignored() {
    let a = with_session_field(Activity::starting_at(NOW), &text("start_time", "yesterday")).unwrap();
    assert_eq!(a.timestamp, NOW);
}

#[test]
fn product_codes_are_translated() {
    assert_eq!(product_of(&"1052".to_string()), "sram_power");
    assert_eq!(product_of(&"1037".to_string()), "sram_shifting");
    assert_eq!(product_of(&"edge_530".to_string()), "edge_530");
    let d = with_device_field(Device::starting_at(NOW), &text("product", "1052")).unwrap();
    assert_eq!(d.product, "sram_power");
    let d = with_device_field(d, &text("garmin_product", "1052")).unwrap();
    assert_eq!(d.product, "1052");
    let d = with_device_field(d, &num("battery_voltage", double(3.9))).unwrap();
    assert_eq!(d.battery, Some(double(3.9)));
}

#[test]
fn two_sessions_around_a_device_make_two_activities_and_one_device() {
    let t = LocalTime { seconds: 1_650_000_000, offset: 0 };
    let records = vec![
        session(vec![text("sport", "cycling"), num("total_distance", double(20000.0))]),
        device(vec![text("product", "1037"), time("timestamp", t), num("battery_voltage", double(4.1))]),
        session(vec![text("sport", "running"), num("total_calories", Number::Integer(300))]),
    ];
    let out = aggregate(&records, NOW).unwrap();
    assert_eq!(out.activities.len(), 2);
    assert_eq!(out.devices.len(), 1);
    let first = &out.activities[0];
    assert_eq!(first.sport, "cycling");
    assert_eq!(first.distance, Some(double(20000.0)));
    assert_eq!(first.calories, Number::Integer(0));
    let second = &out.activities[1];
    assert_eq!(second.sport, "running");
    assert_eq!(second.distance, None);
    assert_eq!(second.calories, Number::Integer(300));
    assert_eq!(out.devices[0].product, "sram_shifting");
    assert_eq!(out.devices[0].timestamp, t);
    assert_eq!(out.devices[0].battery, Some(double(4.1)));
}

#[test]
fn unrecognised_field_changes_nothing() {
    let plain = vec![session(vec![text("sport", "swimming"), num("total_ascent", Number::Integer(12))])];
    let extra = vec![session(vec![
        text("sport", "swimming"),
        num("pool_length", Number::Integer(25)),
        num("total_ascent", Number::Integer(12)),
    ])];
    let a = aggregate(&plain, NOW).unwrap();
    let b = aggregate(&extra, NOW).unwrap();
    assert_eq!(a, b);
    assert_eq!(b.activities.len(), 1);
}

#[test]
fn empty_stream_gives_nothing() {
    let out = aggregate(&vec![], NOW).unwrap();
    assert!(out.activities.is_empty());
    assert!(out.devices.is_empty());
}

#[test]
fn session_without_sport_is_still_being_filled() {
    let records = vec![
        session(vec![num("total_calories", Number::Integer(100))]),
        session(vec![text("sport", "rowing")]),
        Record { kind: MessageKind::Other, fields: vec![text("sport", "ignored")] },
    ];
    let out = aggregate(&records, NOW).unwrap();
    assert_eq!(out.activities.len(), 1);
    assert_eq!(out.activities[0].sport, "rowing");
    assert_eq!(out.activities[0].calories, Number::Integer(100));
}

#[test]
fn unpopulated_groups_are_not_kept() {
    let records = vec![session(vec![num("total_calories", Number::Integer(100))]), device(vec![])];
    let out = aggregate(&records, NOW).unwrap();
    assert!(out.activities.is_empty());
    assert!(out.devices.is_empty());
    assert!(Activity::starting_at(NOW).is_empty());
    assert!(Device::starting_at(NOW).is_empty());
    assert!(Activity::new().is_empty());
    assert!(Device::new().is_empty());
}

#[test]
fn error_in_a_later_record_stops_the_fold() {
    let records = vec![
        session(vec![text("sport", "running")]),
        session(vec![text("sport", "walking"), text("avg_heart_rate", "none")]),
    ];
    assert_eq!(aggregate(&records, NOW), Err(FieldError { field: "avg_heart_rate".to_string() }));
}
