use vstd::prelude::*;

verus! {

/// An instant as encoded in an activity file: seconds since the Unix epoch,
/// together with the offset of the local time zone in seconds east of UTC.
#[derive(Clone, Copy, Debug, PartialEq, Eq, Structural)]
pub struct LocalTime {
    pub seconds: i64,
    pub offset: i32,
}

/// A numeric field value exactly as the decoder produced it. Floating point
/// values are carried as their IEEE-754 bit patterns.
#[derive(Clone, Copy, Debug, PartialEq, Eq, Structural)]
pub enum Number {
    Integer(i64),
    Unsigned(u64),
    Double(u64),
    Single(u32),
}

/// Whether a number is greater than zero. For the floating point forms this is
/// the IEEE-754 order read off the bit pattern: the positive values, up to and
/// including infinity, are exactly the patterns with a clear sign bit that are
/// neither zero nor NaN.
pub open spec fn is_positive(n: Number) -> bool {
    match n {
        Number::Integer(i) => i > 0,
        Number::Unsigned(u) => u > 0,
        Number::Double(b) => 0 < b && b <= 0x7FF0_0000_0000_0000,
        Number::Single(b) => 0 < b && b <= 0x7F80_0000,
    }
}

/// A quantity given in tenths of its unit: its value is `raw / 10`.
#[derive(Clone, Copy, Debug, PartialEq, Eq, Structural)]
pub struct Tenths {
    pub raw: Number,
}

/// The placeholder that marks an activity or device as not yet populated.
pub open spec fn unknown() -> Seq<char> {
    seq!['U', 'n', 'k', 'n', 'o', 'w', 'n']
}

/// Returns an owned "Unknown".
pub fn unknown_string() -> (r: String)
    ensures
        r@ == unknown(),
{
    let s = "Unknown";
    proof {
        reveal_strlit("Unknown");
        assert(s@ =~= unknown());
    }
    s.to_owned()
}

/// A ledger entry: the name of a file that has been imported.
#[derive(Debug)]
pub struct File {
    pub filename: String,
}

impl File {
    pub fn new(filename: String) -> (r: File)
        ensures
            r.filename == filename,
    {
        File { filename: filename }
    }
}

/// One exercise session. Durations are in seconds, distances and elevation
/// in meters, energy in kcal, power in watts; the perceived exertion is on a
/// scale of 0 to 10.
#[derive(Clone, Debug, PartialEq)]
pub struct Activity {
    pub sport: String,
    pub timestamp: LocalTime,
    pub duration: Number,
    pub distance: Option<Number>,
    pub calories: Number,
    pub avg_hr: Option<Number>,
    pub elevation: Option<Number>,
    pub avg_power: Option<Number>,
    pub rpe: Option<Tenths>,
}

pub struct ActivityView {
    pub sport: Seq<char>,
    pub timestamp: LocalTime,
    pub duration: Number,
    pub distance: Option<Number>,
    pub calories: Number,
    pub avg_hr: Option<Number>,
    pub elevation: Option<Number>,
    pub avg_power: Option<Number>,
    pub rpe: Option<Tenths>,
}

impl View for Activity {
    type V = ActivityView;

    open spec fn view(&self) -> ActivityView {
        ActivityView {
            sport: self.sport@,
            timestamp: self.timestamp,
            duration: self.duration,
            distance: self.distance,
            calories: self.calories,
            avg_hr: self.avg_hr,
            elevation: self.elevation,
            avg_power: self.avg_power,
            rpe: self.rpe,
        }
    }
}

/// A fresh activity, stamped with the given instant, that holds nothing yet.
pub open spec fn blank_activity(t: LocalTime) -> ActivityView {
    ActivityView {
        sport: unknown(),
        timestamp: t,
        duration: Number::Integer(0),
        distance: None,
        calories: Number::Integer(0),
        avg_hr: None,
        elevation: None,
        avg_power: None,
        rpe: None,
    }
}

impl ActivityView {
    pub open spec fn is_empty(self) -> bool {
        self.sport == unknown()
    }
}

impl Activity {
    /// A blank activity stamped with the current local time.
    pub fn new() -> (r: Activity)
        ensures
            r@ == blank_activity(r.timestamp),
    {
        Activity::starting_at(crate::record::now_local())
    }

    /// A blank activity stamped with `t`.
    pub fn starting_at(t: LocalTime) -> (r: Activity)
        ensures
            r@ == blank_activity(t),
    {
        Activity {
            sport: unknown_string(),
            timestamp: t,
            duration: Number::Integer(0),
            distance: None,
            calories: Number::Integer(0),
            avg_hr: None,
            elevation: None,
            avg_power: None,
            rpe: None,
        }
    }

    /// Whether no session record has named a sport yet.
    pub fn is_empty(&self) -> (r: bool)
        ensures
            r == self@.is_empty(),
    {
        self.sport == unknown_string()
    }
}

/// One piece of recorded equipment; the battery voltage is in volts.
#[derive(Clone, Debug, PartialEq)]
pub struct Device {
    pub product: String,
    pub timestamp: LocalTime,
    pub battery: Option<Number>,
}

pub struct DeviceView {
    pub product: Seq<char>,
    pub timestamp: LocalTime,
    pub battery: Option<Number>,
}

impl View for Device {
    type V = DeviceView;

    open spec fn view(&self) -> DeviceView {
        DeviceView { product: self.product@, timestamp: self.timestamp, battery: self.battery }
    }
}

/// A fresh device, stamped with the given instant, that holds nothing yet.
pub open spec fn blank_device(t: LocalTime) -> DeviceView {
    DeviceView { product: unknown(), timestamp: t, battery: None }
}

impl DeviceView {
    pub open spec fn is_empty(self) -> bool {
        self.product == unknown()
    }
}

impl Device {
    /// A blank device stamped with the current local time.
    pub fn new() -> (r: Device)
        ensures
            r@ == blank_device(r.timestamp),
    {
        Device::starting_at(crate::record::now_local())
    }

    /// A blank device stamped with `t`.
    pub fn starting_at(t: LocalTime) -> (r: Device)
        ensures
            r@ == blank_device(t),
    {
        Device { product: unknown_string(), timestamp: t, battery: None }
    }

    /// Whether no device record has named a product yet.
    pub fn is_empty(&self) -> (r: bool)
        ensures
            r == self@.is_empty(),
    {
        self.product == unknown_string()
    }
}

} // verus!
