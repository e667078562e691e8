use crate::models::{LocalTime, Number};
use vstd::prelude::*;

verus! {

#[verifier::external_type_specification]
#[verifier::external_body]
pub struct ExFitDataRecord(fitparser::FitDataRecord);

#[verifier::external_type_specification]
#[verifier::external_body]
pub struct ExFitDataField(fitparser::FitDataField);

/// The kind of a decoded message, as far as aggregation tells kinds apart.
#[derive(Clone, Copy, Debug, PartialEq, Eq, Structural)]
pub enum MessageKind {
    Session,
    DeviceInfo,
    Other,
}

/// One field of a decoded message. A value is read in up to three ways: as
/// the text it displays as, as a number when it has a numeric reading, and as
/// a local instant when it is a timestamp.
#[derive(Clone, Debug, PartialEq)]
pub struct Field {
    pub name: String,
    pub text: String,
    pub number: Option<Number>,
    pub time: Option<LocalTime>,
}

pub struct FieldView {
    pub name: Seq<char>,
    pub text: Seq<char>,
    pub number: Option<Number>,
    pub time: Option<LocalTime>,
}

impl View for Field {
    type V = FieldView;

    open spec fn view(&self) -> FieldView {
        FieldView { name: self.name@, text: self.text@, number: self.number, time: self.time }
    }
}

/// One decoded message: its kind and its fields in file order.
#[derive(Clone, Debug, PartialEq)]
pub struct Record {
    pub kind: MessageKind,
    pub fields: Vec<Field>,
}

pub struct RecordView {
    pub kind: MessageKind,
    pub fields: Seq<FieldView>,
}

impl View for Record {
    type V = RecordView;

    open spec fn view(&self) -> RecordView {
        RecordView { kind: self.kind, fields: self.fields@.map_values(|f: Field| f@) }
    }
}

/// The byte stream could not be decoded; the text is the decoder's account.
#[derive(Clone, Debug, PartialEq)]
pub struct DecodeError {
    pub message: String,
}

/// Relies on chrono::Local::now, read as seconds since the epoch and the
/// local offset: the current instant, whatever it is.
#[verifier::external_body]
pub(crate) fn now_local() -> (r: LocalTime) {
    let now = chrono::Local::now();
    LocalTime { seconds: now.timestamp(), offset: now.offset().local_minus_utc() }
}

/// Relies on fitparser::FitDataRecord::kind: session and device-info
/// messages told apart from all others.
#[verifier::external_body]
fn record_kind(r: &fitparser::FitDataRecord) -> (k: MessageKind) {
    match r.kind() {
        fitparser::profile::MesgNum::Session => MessageKind::Session,
        fitparser::profile::MesgNum::DeviceInfo => MessageKind::DeviceInfo,
        _ => MessageKind::Other,
    }
}

/// Relies on fitparser::FitDataRecord::fields: the fields of a message.
#[verifier::external_body]
fn record_fields(r: &fitparser::FitDataRecord) -> (f: &[fitparser::FitDataField]) {
    r.fields()
}

/// Relies on fitparser::FitDataField::name: the profile name of a field.
#[verifier::external_body]
fn field_name(f: &fitparser::FitDataField) -> (r: String) {
    f.name().to_owned()
}

/// Relies on the Display impl of fitparser::Value: the value as text.
#[verifier::external_body]
fn field_text(f: &fitparser::FitDataField) -> (r: String) {
    f.value().to_string()
}

/// Relies on fitparser's conversion of a value to `i64`, which reads the
/// integer kinds up to 32 bits, `SInt64`, and a timestamp's epoch seconds.
/// The unsigned 64-bit kinds are kept unsigned and floating point values are
/// taken as their bit patterns; text, arrays and invalid values have no
/// numeric reading.
#[verifier::external_body]
fn field_number(f: &fitparser::FitDataField) -> (r: Option<Number>) {
    match f.value() {
        fitparser::Value::Float64(x) => Some(Number::Double(x.to_bits())),
        fitparser::Value::Float32(x) => Some(Number::Single(x.to_bits())),
        fitparser::Value::UInt64(x) | fitparser::Value::UInt64z(x) => Some(Number::Unsigned(*x)),
        v => std::convert::TryInto::<i64>::try_into(v).ok().map(Number::Integer),
    }
}

/// Relies on fitparser::Value::Timestamp, which holds a chrono local time:
/// read as seconds since the epoch and the local offset.
#[verifier::external_body]
fn field_time(f: &fitparser::FitDataField) -> (r: Option<LocalTime>) {
    match f.value() {
        fitparser::Value::Timestamp(t) => {
            Some(LocalTime { seconds: t.timestamp(), offset: t.offset().local_minus_utc() })
        },
        _ => None,
    }
}

fn convert_field(f: &fitparser::FitDataField) -> (r: Field) {
    Field { name: field_name(f), text: field_text(f), number: field_number(f), time: field_time(f) }
}

fn convert_record(r: &fitparser::FitDataRecord) -> (out: Record) {
    let fields = record_fields(r);
    let mut converted: Vec<Field> = Vec::new();
    let mut i: usize = 0;
    while i < fields.len()
        invariant
            i <= fields@.len(),
        decreases fields@.len() - i,
    {
        converted.push(convert_field(&fields[i]));
        i = i + 1;
    }
    Record { kind: record_kind(r), fields: converted }
}

/// The records of a decoded activity file, in file order.
pub fn convert_records(raw: &Vec<fitparser::FitDataRecord>) -> (r: Vec<Record>)
    ensures
        r@.len() == raw@.len(),
{
    let mut records: Vec<Record> = Vec::new();
    let mut i: usize = 0;
    while i < raw.len()
        invariant
            i <= raw@.len(),
            records@.len() == i,
        decreases raw@.len() - i,
    {
        records.push(convert_record(&raw[i]));
        i = i + 1;
    }
    records
}

/// What the decoder handed back, as records or as the decoder's account of
/// why the bytes could not be decoded.
pub fn decoded(raw: Result<Vec<fitparser::FitDataRecord>, String>) -> (r: Result<Vec<Record>, DecodeError>)
    ensures
        match raw {
            Ok(v) => r is Ok && r->Ok_0@.len() == v@.len(),
            Err(m) => r is Err && r->Err_0.message@ == m@,
        },
{
    match raw {
        Ok(v) => Ok(convert_records(&v)),
        Err(message) => Err(DecodeError { message }),
    }
}

} // verus!
