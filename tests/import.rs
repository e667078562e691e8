use queryfit::commands::database::{add_activity, check_import_allowed, get_filename, import_plan, is_activity_file, matches_fit_extension, ImportError};
use queryfit::db::{resolve_state, DbState};
use queryfit::VERSION;
use fitparser::de::{from_bytes_with_options, DecodeOption};
use queryfit::models::LocalTime;
use queryfit::record::{decoded, DecodeError, Field, MessageKind, Record};
use std::collections::HashSet;

const NOW: LocalTime = LocalTime { seconds: 0, offset: 0 };

fn decode(bytes: &[u8]) -> Result<Vec<Record>, DecodeError> {
    let opts: HashSet<DecodeOption> = HashSet::from([
        DecodeOption::SkipHeaderCrcValidation,
        DecodeOption::SkipDataCrcValidation,
        DecodeOption::DropUnknownFields,
        DecodeOption::DropUnknownMessages,
    ]);
    decoded(from_bytes_with_options(bytes, &opts).map_err(|e| e.to_string()))
}

fn strings(v: &[&str]) -> Vec<String> {
    v.iter().map(|s| s.to_string()).collect()
}

#[test]
fn activity_files_are_told_by_extension_in_any_case() {
    assert!(is_activity_file("rides/a.fit"));
    assert!(is_activity_file("b.FIT"));
    assert!(is_activity_file("/data/c.Fit"));
    assert!(!is_activity_file("notes.txt"));
    assert!(!is_activity_file("fit"));
    assert!(!is_activity_file(".fit"));
    assert!(!is_activity_file("a.fits"));
    assert!(!is_activity_file("a.fit.bak"));
}

#[test]
fn file_name_is_the_last_component() {
    assert_eq!(get_filename(&"/data/2024/a.fit".to_string()), Ok("a.fit".to_string()));
    assert_eq!(get_filename(&"b.fit".to_string()), Ok("b.fit".to_string()));
    assert_eq!(
        get_filename(&"/".to_string()),
        Err(ImportError::NoFileName { path: "/".to_string() })
    );
}

#[test]
fn plan_skips_ledger_and_repeated_names() {
    let names = strings(&["a.fit", "b.fit", "a.fit", "c.fit"]);
    assert_eq!(import_plan(&vec![], &names), vec![0, 1, 3]);
    assert_eq!(import_plan(&strings(&["b.fit"]), &names), vec![0, 3]);
    assert_eq!(import_plan(&strings(&["a.fit", "b.fit", "c.fit"]), &names), Vec::<usize>::new());
}

#[test]
fn import_twice_reads_nothing_the_second_time() {
    let names = strings(&["x.fit", "y.fit"]);
    let ledger = strings(&["old.fit"]);
    let first = import_plan(&ledger, &names);
    assert_eq!(first, vec![0, 1]);
    let mut after = ledger.clone();
    for i in &first {
        after.push(names[*i].clone());
    }
    assert!(import_plan(&after, &names).is_empty());
}

#[test]
fn recreate_imports_each_activity_file_once() {
    let paths = strings(&["/d/one.fit", "/d/sub/two.FIT", "/d/three.fit", "/d/readme.md"]);
    let state = DbState::Invalid.after_recreate();
    assert_eq!(state, DbState::Valid);
    // the recreated schema records the running version
    assert_eq!(resolve_state(true, &VERSION.to_string(), &VERSION.to_string()), DbState::Valid);
    assert!(check_import_allowed(state).is_ok());
    let mut names = Vec::new();
    for p in &paths {
        if is_activity_file(p) {
            names.push(get_filename(p).unwrap());
        }
    }
    assert_eq!(names.len(), 3);
    let chosen = import_plan(&vec![], &names);
    assert_eq!(chosen.len(), 3);
    let ledger: Vec<String> = chosen.iter().map(|i| names[*i].clone()).collect();
    assert_eq!(ledger.len(), 3);
    assert!(import_plan(&ledger, &names).is_empty());
}

#[test]
fn import_is_refused_unless_valid() {
    assert_eq!(check_import_allowed(DbState::Invalid), Err(ImportError::InvalidDatabase));
    assert_eq!(check_import_allowed(DbState::Uninitialized), Err(ImportError::InvalidDatabase));
    assert_eq!(check_import_allowed(DbState::Valid), Ok(()));
}

#[test]
fn empty_file_holds_nothing() {
    let out = add_activity(&"empty.fit".to_string(), decode(&[]), NOW).unwrap();
    assert!(out.activities.is_empty());
    assert!(out.devices.is_empty());
}

#[test]
fn undecodable_file_is_named_in_the_error() {
    let bytes = [0x0Eu8, 0x10, 0xD9, 0x07, 0xFF, 0xFF, 0xFF, 0xFF, b'X', b'Y', b'Z', b'W', 0, 0];
    match add_activity(&"broken.fit".to_string(), decode(&bytes), NOW) {
        Err(ImportError::Decode { file, .. }) => assert_eq!(file, "broken.fit"),
        other => panic!("expected a decode error, got {:?}", other),
    }
}

// A minimal activity file: a session message with a sport and a distance,
// and a device-info message with a product code and a battery voltage.
fn small_fit_file() -> Vec<u8> {
    let mut data: Vec<u8> = Vec::new();
    // definition of local message 0: session, sport (enum) and total_distance (uint32)
    data.extend_from_slice(&[0x40, 0, 0, 18, 0, 2, 5, 1, 0x00, 9, 4, 0x86]);
    // sport 1 (running), total_distance 25000 (250 m at scale 100)
    data.extend_from_slice(&[0x00, 1, 0xA8, 0x61, 0, 0]);
    // definition of local message 1: device_info, product (uint16) and battery_voltage (uint16)
    data.extend_from_slice(&[0x41, 0, 0, 23, 0, 2, 4, 2, 0x84, 10, 2, 0x84]);
    // product 1052, battery_voltage 1024 (4 V at scale 256)
    data.extend_from_slice(&[0x01, 0x1C, 0x04, 0x00, 0x04]);
    let mut file: Vec<u8> = vec![14, 0x10, 0x2D, 0x08];
    file.extend_from_slice(&(data.len() as u32).to_le_bytes());
    file.extend_from_slice(b".FIT");
    file.extend_from_slice(&[0, 0]);
    file.extend_from_slice(&data);
    file.extend_from_slice(&[0, 0]);
    file
}

#[test]
fn decoded_file_is_aggregated() {
    let out = add_activity(&"small.fit".to_string(), decode(&small_fit_file()), NOW).unwrap();
    assert_eq!(out.activities.len(), 1);
    let a = &out.activities[0];
    assert_eq!(a.sport, "running");
    assert_eq!(a.distance, Some(queryfit::models::Number::Double(250.0f64.to_bits())));
    assert_eq!(a.timestamp, NOW);
    assert_eq!(out.devices.len(), 1);
    assert_eq!(out.devices[0].product, "sram_power");
    assert_eq!(out.devices[0].battery, Some(queryfit::models::Number::Double(4.0f64.to_bits())));
}

#[test]
fn decoder_error_is_named_with_its_message() {
    let err = DecodeError { message: "bad header".to_string() };
    assert_eq!(
        add_activity(&"bad.fit".to_string(), Err(err), NOW),
        Err(ImportError::Decode { file: "bad.fit".to_string(), message: "bad header".to_string() })
    );
    assert_eq!(
        decoded(Err("bad header".to_string())),
        Err(DecodeError { message: "bad header".to_string() })
    );
}

#[test]
fn non_numeric_field_is_named_with_the_file() {
    let rec = Record {
        kind: MessageKind::Session,
        fields: vec![Field { name: "total_calories".to_string(), text: "many".to_string(), number: None, time: None }],
    };
    assert_eq!(
        add_activity(&"odd.fit".to_string(), Ok(vec![rec]), NOW),
        Err(ImportError::Field { file: "odd.fit".to_string(), field: "total_calories".to_string() })
    );
}

#[test]
fn extension_matches_in_any_case() {
    assert!(matches_fit_extension("fit"));
    assert!(matches_fit_extension("FiT"));
    assert!(!matches_fit_extension("fits"));
    assert!(!matches_fit_extension("txt"));
    assert!(!matches_fit_extension(""));
}
