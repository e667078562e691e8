use crate::models::{
    Activity, ActivityView, Device, DeviceView, LocalTime, Number, Tenths, blank_activity,
    blank_device, is_positive,
};
use crate::record::{Field, FieldView, MessageKind, Record, RecordView};
use vstd::prelude::*;

verus! {

/// A field that must hold a number held none.
#[derive(Clone, Debug, PartialEq)]
pub struct FieldError {
    pub field: String,
}

/// The activities and devices of one file, each in file order.
#[derive(Clone, Debug, PartialEq)]
pub struct Aggregate {
    pub activities: Vec<Activity>,
    pub devices: Vec<Device>,
}

/// Zero and below mean "not recorded": such a value is absent.
pub open spec fn recorded(n: Number) -> Option<Number> {
    if is_positive(n) {
        Some(n)
    } else {
        None
    }
}

/// Vendor product codes that stand for a named product.
pub open spec fn product_name(code: Seq<char>) -> Seq<char> {
    if code == "1052"@ {
        "sram_power"@
    } else if code == "1037"@ {
        "sram_shifting"@
    } else {
        code
    }
}

/// What a field of a session message does to the activity being filled; the
/// error names a field that must be numeric and is not.
pub open spec fn session_with_field(a: ActivityView, f: FieldView) -> Result<ActivityView, Seq<char>> {
    if f.name == "sport"@ {
        Ok(ActivityView { sport: f.text, ..a })
    } else if f.name == "start_time"@ {
        match f.time {
            Some(t) => Ok(ActivityView { timestamp: t, ..a }),
            None => Ok(a),
        }
    } else if f.name == "total_timer_time"@ || f.name == "total_distance"@ || f.name
        == "avg_heart_rate"@ || f.name == "total_calories"@ || f.name == "total_ascent"@
        || f.name == "avg_power"@ || f.name == "workout_rpe"@ {
        match f.number {
            None => Err(f.name),
            Some(n) => Ok(
                if f.name == "total_timer_time"@ {
                    ActivityView { duration: n, ..a }
                } else if f.name == "total_distance"@ {
                    ActivityView { distance: recorded(n), ..a }
                } else if f.name == "avg_heart_rate"@ {
                    ActivityView { avg_hr: Some(n), ..a }
                } else if f.name == "total_calories"@ {
                    ActivityView { calories: n, ..a }
                } else if f.name == "total_ascent"@ {
                    ActivityView { elevation: recorded(n), ..a }
                } else if f.name == "avg_power"@ {
                    ActivityView { avg_power: recorded(n), ..a }
                } else {
                    ActivityView {
                        rpe: match recorded(n) {
                            Some(m) => Some(Tenths { raw: m }),
                            None => None,
                        },
                        ..a
                    }
                },
            ),
        }
    } else {
        Ok(a)
    }
}

/// The fields of one session message applied in order.
pub open spec fn session_with_fields(a: ActivityView, fs: Seq<FieldView>) -> Result<ActivityView, Seq<char>>
    decreases fs.len(),
{
    if fs.len() == 0 {
        Ok(a)
    } else {
        match session_with_fields(a, fs.drop_last()) {
            Ok(b) => session_with_field(b, fs.last()),
            Err(e) => Err(e),
        }
    }
}

/// What a field of a device-info message does to the device being filled.
pub open spec fn device_with_field(d: DeviceView, f: FieldView) -> Result<DeviceView, Seq<char>> {
    if f.name == "product"@ {
        Ok(DeviceView { product: product_name(f.text), ..d })
    } else if f.name == "garmin_product"@ {
        Ok(DeviceView { product: f.text, ..d })
    } else if f.name == "timestamp"@ {
        match f.time {
            Some(t) => Ok(DeviceView { timestamp: t, ..d }),
            None => Ok(d),
        }
    } else if f.name == "battery_voltage"@ {
        match f.number {
            Some(n) => Ok(DeviceView { battery: Some(n), ..d }),
            None => Err(f.name),
        }
    } else {
        Ok(d)
    }
}

/// The fields of one device-info message applied in order.
pub open spec fn device_with_fields(d: DeviceView, fs: Seq<FieldView>) -> Result<DeviceView, Seq<char>>
    decreases fs.len(),
{
    if fs.len() == 0 {
        Ok(d)
    } else {
        match device_with_fields(d, fs.drop_last()) {
            Ok(e) => device_with_field(e, fs.last()),
            Err(e) => Err(e),
        }
    }
}

/// The state of the fold: finished activities and devices, and the two
/// groups being filled.
pub struct Progress {
    pub activities: Seq<ActivityView>,
    pub session: ActivityView,
    pub devices: Seq<DeviceView>,
    pub device: DeviceView,
}

pub open spec fn start(now: LocalTime) -> Progress {
    Progress {
        activities: Seq::empty(),
        session: blank_activity(now),
        devices: Seq::empty(),
        device: blank_device(now),
    }
}

/// One record folded in. A session record closes the session group being
/// filled, unless it is still empty, and fills a fresh one; a device-info
/// record does the same for devices; other records change nothing.
pub open spec fn step(p: Progress, r: RecordView, now: LocalTime) -> Result<Progress, Seq<char>> {
    match r.kind {
        MessageKind::Session => {
            let (done, fresh) = if p.session.is_empty() {
                (p.activities, p.session)
            } else {
                (p.activities.push(p.session), blank_activity(now))
            };
            match session_with_fields(fresh, r.fields) {
                Ok(a) => Ok(Progress { activities: done, session: a, ..p }),
                Err(e) => Err(e),
            }
        },
        MessageKind::DeviceInfo => {
            let (done, fresh) = if p.device.is_empty() {
                (p.devices, p.device)
            } else {
                (p.devices.push(p.device), blank_device(now))
            };
            match device_with_fields(fresh, r.fields) {
                Ok(d) => Ok(Progress { devices: done, device: d, ..p }),
                Err(e) => Err(e),
            }
        },
        MessageKind::Other => Ok(p),
    }
}

pub open spec fn fold(rs: Seq<RecordView>, now: LocalTime) -> Result<Progress, Seq<char>>
    decreases rs.len(),
{
    if rs.len() == 0 {
        Ok(start(now))
    } else {
        match fold(rs.drop_last(), now) {
            Ok(p) => step(p, rs.last(), now),
            Err(e) => Err(e),
        }
    }
}

/// The groups still being filled at the end, closed unless empty.
pub open spec fn finish(p: Progress) -> (Seq<ActivityView>, Seq<DeviceView>) {
    (
        if p.session.is_empty() { p.activities } else { p.activities.push(p.session) },
        if p.device.is_empty() { p.devices } else { p.devices.push(p.device) },
    )
}

/// The activities and devices that a record stream describes; fresh groups
/// are stamped with `now` until a record gives their time.
pub open spec fn aggregation(rs: Seq<RecordView>, now: LocalTime) -> Result<(Seq<ActivityView>, Seq<DeviceView>), Seq<char>> {
    match fold(rs, now) {
        Ok(p) => Ok(finish(p)),
        Err(e) => Err(e),
    }
}

pub open spec fn record_views(rs: Seq<Record>) -> Seq<RecordView> {
    rs.map_values(|r: Record| r@)
}

pub open spec fn activity_views(v: Seq<Activity>) -> Seq<ActivityView> {
    v.map_values(|a: Activity| a@)
}

pub open spec fn device_views(v: Seq<Device>) -> Seq<DeviceView> {
    v.map_values(|d: Device| d@)
}

/// The sentinel rule: a positive value is kept, any other is absent.
pub fn present_if_positive(n: Number) -> (r: Option<Number>)
    ensures
        r == recorded(n),
{
    let positive = match n {
        Number::Integer(i) => i > 0,
        Number::Unsigned(u) => u > 0,
        Number::Double(b) => 0 < b && b <= 0x7FF0_0000_0000_0000,
        Number::Single(b) => 0 < b && b <= 0x7F80_0000,
    };
    if positive {
        Some(n)
    } else {
        None
    }
}

fn named(name: &String, lit: &str) -> (r: bool)
    ensures
        r == (name@ == lit@),
{
    *name == lit.to_owned()
}

/// Translates the vendor product codes that stand for a named product.
pub fn product_of(code: &String) -> (r: String)
    ensures
        r@ == product_name(code@),
{
    if named(code, "1052") {
        "sram_power".to_owned()
    } else if named(code, "1037") {
        "sram_shifting".to_owned()
    } else {
        code.clone()
    }
}

fn numeric(f: &Field) -> (r: Result<Number, FieldError>)
    ensures
        match f.number {
            Some(n) => r == Ok::<Number, FieldError>(n),
            None => r is Err && r->Err_0.field@ == f.name@,
        },
{
    match f.number {
        Some(n) => Ok(n),
        None => Err(FieldError { field: f.name.clone() }),
    }
}

/// Applies one field of a session message to the activity being filled.
pub fn with_session_field(a: Activity, f: &Field) -> (r: Result<Activity, FieldError>)
    ensures
        match session_with_field(a@, f@) {
            Ok(b) => r is Ok && r->Ok_0@ == b,
            Err(e) => r is Err && r->Err_0.field@ == e,
        },
{
    let mut a = a;
    if named(&f.name, "sport") {
        a.sport = f.text.clone();
    } else if named(&f.name, "start_time") {
        if let Some(t) = f.time {
            a.timestamp = t;
        }
    } else if named(&f.name, "total_timer_time") {
        a.duration = numeric(f)?;
    } else if named(&f.name, "total_distance") {
        a.distance = present_if_positive(numeric(f)?);
    } else if named(&f.name, "avg_heart_rate") {
        a.avg_hr = Some(numeric(f)?);
    } else if named(&f.name, "total_calories") {
        a.calories = numeric(f)?;
    } else if named(&f.name, "total_ascent") {
        a.elevation = present_if_positive(numeric(f)?);
    } else if named(&f.name, "avg_power") {
        a.avg_power = present_if_positive(numeric(f)?);
    } else if named(&f.name, "workout_rpe") {
        a.rpe = match present_if_positive(numeric(f)?) {
            Some(m) => Some(Tenths { raw: m }),
            None => None,
        };
    }
    Ok(a)
}

/// Applies one field of a device-info message to the device being filled.
pub fn with_device_field(d: Device, f: &Field) -> (r: Result<Device, FieldError>)
    ensures
        match device_with_field(d@, f@) {
            Ok(e) => r is Ok && r->Ok_0@ == e,
            Err(e) => r is Err && r->Err_0.field@ == e,
        },
{
    let mut d = d;
    if named(&f.name, "product") {
        d.product = product_of(&f.text);
    } else if named(&f.name, "garmin_product") {
        d.product = f.text.clone();
    } else if named(&f.name, "timestamp") {
        if let Some(t) = f.time {
            d.timestamp = t;
        }
    } else if named(&f.name, "battery_voltage") {
        d.battery = Some(numeric(f)?);
    }
    Ok(d)
}

proof fn lemma_session_error_kept(a: ActivityView, fs: Seq<FieldView>, k: int)
    requires
        0 <= k <= fs.len(),
        session_with_fields(a, fs.take(k)) is Err,
    ensures
        session_with_fields(a, fs) == session_with_fields(a, fs.take(k)),
    decreases fs.len(),
{
    if k < fs.len() {
        assert(fs.drop_last().take(k) =~= fs.take(k));
        lemma_session_error_kept(a, fs.drop_last(), k);
    } else {
        assert(fs.take(k) =~= fs);
    }
}

proof fn lemma_device_error_kept(d: DeviceView, fs: Seq<FieldView>, k: int)
    requires
        0 <= k <= fs.len(),
        device_with_fields(d, fs.take(k)) is Err,
    ensures
        device_with_fields(d, fs) == device_with_fields(d, fs.take(k)),
    decreases fs.len(),
{
    if k < fs.len() {
        assert(fs.drop_last().take(k) =~= fs.take(k));
        lemma_device_error_kept(d, fs.drop_last(), k);
    } else {
        assert(fs.take(k) =~= fs);
    }
}

proof fn lemma_fold_error_kept(rs: Seq<RecordView>, now: LocalTime, k: int)
    requires
        0 <= k <= rs.len(),
        fold(rs.take(k), now) is Err,
    ensures
        fold(rs, now) == fold(rs.take(k), now),
    decreases rs.len(),
{
    if k < rs.len() {
        assert(rs.drop_last().take(k) =~= rs.take(k));
        lemma_fold_error_kept(rs.drop_last(), now, k);
    } else {
        assert(rs.take(k) =~= rs);
    }
}

fn with_session_fields(a: Activity, fields: &Vec<Field>) -> (r: Result<Activity, FieldError>)
    ensures
        match session_with_fields(a@, fields@.map_values(|f: Field| f@)) {
            Ok(b) => r is Ok && r->Ok_0@ == b,
            Err(e) => r is Err && r->Err_0.field@ == e,
        },
{
    let ghost fs = fields@.map_values(|f: Field| f@);
    let ghost start = a@;
    let mut cur = a;
    let mut i: usize = 0;
    while i < fields.len()
        invariant
            i <= fields@.len(),
            fs == fields@.map_values(|f: Field| f@),
            start == a@,
            session_with_fields(start, fs.take(i as int)) == Ok::<ActivityView, Seq<char>>(cur@),
        decreases fields@.len() - i,
    {
        assert(fs.take(i + 1).drop_last() =~= fs.take(i as int));
        assert(fs.take(i + 1).last() == fields@[i as int]@);
        match with_session_field(cur, &fields[i]) {
            Ok(b) => cur = b,
            Err(e) => {
                proof {
                    lemma_session_error_kept(start, fs, i + 1);
                }
                return Err(e);
            },
        }
        i = i + 1;
    }
    assert(fs.take(i as int) =~= fs);
    Ok(cur)
}

fn with_device_fields(d: Device, fields: &Vec<Field>) -> (r: Result<Device, FieldError>)
    ensures
        match device_with_fields(d@, fields@.map_values(|f: Field| f@)) {
            Ok(e) => r is Ok && r->Ok_0@ == e,
            Err(e) => r is Err && r->Err_0.field@ == e,
        },
{
    let ghost fs = fields@.map_values(|f: Field| f@);
    let ghost start = d@;
    let mut cur = d;
    let mut i: usize = 0;
    while i < fields.len()
        invariant
            i <= fields@.len(),
            fs == fields@.map_values(|f: Field| f@),
            start == d@,
            device_with_fields(start, fs.take(i as int)) == Ok::<DeviceView, Seq<char>>(cur@),
        decreases fields@.len() - i,
    {
        assert(fs.take(i + 1).drop_last() =~= fs.take(i as int));
        assert(fs.take(i + 1).last() == fields@[i as int]@);
        match with_device_field(cur, &fields[i]) {
            Ok(e) => cur = e,
            Err(e) => {
                proof {
                    lemma_device_error_kept(start, fs, i + 1);
                }
                return Err(e);
            },
        }
        i = i + 1;
    }
    assert(fs.take(i as int) =~= fs);
    Ok(cur)
}

/// Folds a record stream into activities and devices. Each session record
/// starts a new activity once the one being filled has a sport, and each
/// device-info record a new device once the one being filled has a product;
/// fields that aggregation does not know are passed over; what is being filled
/// at the end is kept unless still empty. Fresh groups are stamped with `now`
/// until a field gives their time. The error names the first field that had
/// to be numeric and was not.
pub fn aggregate(records: &Vec<Record>, now: LocalTime) -> (r: Result<Aggregate, FieldError>)
    ensures
        match aggregation(record_views(records@), now) {
            Ok((acts, devs)) => r is Ok && activity_views(r->Ok_0.activities@) == acts
                && device_views(r->Ok_0.devices@) == devs,
            Err(e) => r is Err && r->Err_0.field@ == e,
        },
{
    let ghost rs = record_views(records@);
    let mut activities: Vec<Activity> = Vec::new();
    let mut session = Activity::starting_at(now);
    let mut devices: Vec<Device> = Vec::new();
    let mut device = Device::starting_at(now);
    let mut i: usize = 0;
    assert(activity_views(activities@) =~= Seq::<ActivityView>::empty());
    assert(device_views(devices@) =~= Seq::<DeviceView>::empty());
    while i < records.len()
        invariant
            i <= records@.len(),
            rs == record_views(records@),
            fold(rs.take(i as int), now) == Ok::<Progress, Seq<char>>(
                Progress {
                    activities: activity_views(activities@),
                    session: session@,
                    devices: device_views(devices@),
                    device: device@,
                },
            ),
        decreases records@.len() - i,
    {
        assert(rs.take(i + 1).drop_last() =~= rs.take(i as int));
        let r = &records[i];
        assert(rs.take(i + 1).last() == r@);
        let ghost before = Progress {
            activities: activity_views(activities@),
            session: session@,
            devices: device_views(devices@),
            device: device@,
        };
        match r.kind {
            MessageKind::Session => {
                if !session.is_empty() {
                    activities.push(session);
                    session = Activity::starting_at(now);
                    assert(activity_views(activities@) =~= activity_views(
                        activities@.drop_last(),
                    ).push(activities@.last()@));
                }
                assert(r@.fields == r.fields@.map_values(|f: Field| f@));
                match with_session_fields(session, &r.fields) {
                    Ok(a) => {
                        session = a;
                        assert(activity_views(activities@) == (if before.session.is_empty() {
                            before.activities
                        } else {
                            before.activities.push(before.session)
                        }));
                    },
                    Err(e) => {
                        proof {
                            lemma_fold_error_kept(rs, now, i + 1);
                        }
                        return Err(e);
                    },
                }
            },
            MessageKind::DeviceInfo => {
                if !device.is_empty() {
                    devices.push(device);
                    device = Device::starting_at(now);
                    assert(device_views(devices@) =~= device_views(devices@.drop_last()).push(
                        devices@.last()@,
                    ));
                }
                assert(r@.fields == r.fields@.map_values(|f: Field| f@));
                match with_device_fields(device, &r.fields) {
                    Ok(d) => {
                        device = d;
                        assert(device_views(devices@) == (if before.device.is_empty() {
                            before.devices
                        } else {
                            before.devices.push(before.device)
                        }));
                    },
                    Err(e) => {
                        proof {
                            lemma_fold_error_kept(rs, now, i + 1);
                        }
                        return Err(e);
                    },
                }
            },
            MessageKind::Other => {},
        }
        i = i + 1;
    }
    assert(rs.take(i as int) =~= rs);
    if !session.is_empty() {
        activities.push(session);
        assert(activity_views(activities@) =~= activity_views(activities@.drop_last()).push(
            activities@.last()@,
        ));
    }
    if !device.is_empty() {
        devices.push(device);
        assert(device_views(devices@) =~= device_views(devices@.drop_last()).push(
            devices@.last()@,
        ));
    }
    Ok(Aggregate { activities, devices })
}

/// The names of the fields that a session message contributes.
pub open spec fn is_session_field_name(name: Seq<char>) -> bool {
    name == "sport"@ || name == "start_time"@ || name == "total_timer_time"@ || name
        == "total_distance"@ || name == "avg_heart_rate"@ || name == "total_calories"@ || name
        == "total_ascent"@ || name == "avg_power"@ || name == "workout_rpe"@
}

proof fn lemma_unknown_field_in_fields(a: ActivityView, fs: Seq<FieldView>, k: int, f: FieldView)
    requires
        0 <= k <= fs.len(),
        !is_session_field_name(f.name),
    ensures
        session_with_fields(a, fs.insert(k, f)) == session_with_fields(a, fs),
    decreases fs.len(),
{
    let g = fs.insert(k, f);
    if k == fs.len() {
        assert(g.drop_last() =~= fs);
        assert(g.last() == f);
    } else {
        assert(g.drop_last() =~= fs.drop_last().insert(k, f));
        assert(g.last() == fs.last());
        lemma_unknown_field_in_fields(a, fs.drop_last(), k, f);
    }
}

proof fn lemma_unknown_field_in_fold(rs: Seq<RecordView>, j: int, k: int, f: FieldView, now: LocalTime)
    requires
        0 <= j < rs.len(),
        rs[j].kind == MessageKind::Session,
        0 <= k <= rs[j].fields.len(),
        !is_session_field_name(f.name),
    ensures
        fold(rs.update(j, RecordView { kind: rs[j].kind, fields: rs[j].fields.insert(k, f) }), now)
            == fold(rs, now),
    decreases rs.len(),
{
    let r2 = RecordView { kind: rs[j].kind, fields: rs[j].fields.insert(k, f) };
    let rs2 = rs.update(j, r2);
    if j == rs.len() - 1 {
        assert(rs2.drop_last() =~= rs.drop_last());
        match fold(rs.drop_last(), now) {
            Ok(p) => {
                lemma_unknown_field_in_fields(p.session, rs[j].fields, k, f);
                lemma_unknown_field_in_fields(blank_activity(now), rs[j].fields, k, f);
            },
            Err(_) => {},
        }
    } else {
        assert(rs2.drop_last() =~= rs.drop_last().update(j, r2));
        assert(rs2.last() == rs.last());
        lemma_unknown_field_in_fold(rs.drop_last(), j, k, f, now);
    }
}

/// A field that aggregation does not know changes nothing: inserting one
/// anywhere in a session message of a record stream leaves the activities,
/// the devices and any error exactly as they were.
pub proof fn unknown_field_is_ignored(rs: Seq<RecordView>, j: int, k: int, f: FieldView, now: LocalTime)
    requires
        0 <= j < rs.len(),
        rs[j].kind == MessageKind::Session,
        0 <= k <= rs[j].fields.len(),
        !is_session_field_name(f.name),
    ensures
        aggregation(rs.update(j, RecordView { kind: rs[j].kind, fields: rs[j].fields.insert(k, f) }), now)
            == aggregation(rs, now),
{
    lemma_unknown_field_in_fold(rs, j, k, f, now);
}

} // verus!
