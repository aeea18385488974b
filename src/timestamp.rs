use vstd::prelude::*;

verus! {

/// An instant in UTC: whole seconds since the Unix epoch and the nanoseconds
/// past that second (a leap second shows as 1_000_000_000 or more).
#[derive(Debug, Clone, Copy, PartialEq, Eq, Structural)]
pub struct Timestamp {
    pub secs: i64,
    pub nanos: u32,
}

/// The layout of a date read from text: `2021-10-09 12:00:00`.
pub const DATE_FORMAT: &'static str = "%Y-%m-%d %H:%M:%S";

/// What chrono makes of `text` read under `format`, as a UTC instant.
pub uninterp spec fn parsed_utc(text: Seq<char>, format: Seq<char>) -> Option<Timestamp>;

impl Timestamp {
    /// `self` is the same instant as `other` or an earlier one.
    pub open spec fn is_not_after(self, other: Timestamp) -> bool {
        self.secs < other.secs || (self.secs == other.secs && self.nanos <= other.nanos)
    }

    /// Whether `self` is the same instant as `other` or an earlier one.
    pub fn not_after(&self, other: &Timestamp) -> (r: bool)
        ensures
            r == self.is_not_after(*other),
    {
        self.secs < other.secs || (self.secs == other.secs && self.nanos <= other.nanos)
    }

    /// The later of two instants.
    pub open spec fn later_of(self, other: Timestamp) -> Timestamp {
        if self.is_not_after(other) {
            other
        } else {
            self
        }
    }

    /// Returns the later of two instants.
    pub fn latest(self, other: Timestamp) -> (r: Timestamp)
        ensures
            r == self.later_of(other),
    {
        if self.not_after(&other) {
            other
        } else {
            self
        }
    }

    /// Reads a date written as `DATE_FORMAT` lays it out, taken as UTC.
    pub fn parse(text: &str) -> (r: Option<Timestamp>)
        ensures
            r == parsed_utc(text@, DATE_FORMAT@),
    {
        parse_utc(text, DATE_FORMAT)
    }
}

/// Relies on chrono's `NaiveDateTime::parse_from_str` and `and_utc`: the text
/// read under the format, as seconds and nanoseconds since the epoch, or `None`
/// where the text does not fit the format.
#[verifier::external_body]
fn parse_utc(text: &str, format: &str) -> (r: Option<Timestamp>)
    ensures
        r == parsed_utc(text@, format@),
{
    match chrono::NaiveDateTime::parse_from_str(text, format) {
        Ok(d) => Some(Timestamp { secs: d.and_utc().timestamp(), nanos: d.and_utc().timestamp_subsec_nanos() }),
        Err(_) => None,
    }
}

/// Relies on chrono's `Utc::now`: the system clock, read as seconds and
/// nanoseconds since the epoch. The clock may go back between two reads; chrono
/// panics where it stands before the epoch.
#[verifier::external_body]
pub(crate) fn clock_now() -> (r: Timestamp)
    ensures
        r.secs >= 0,
        r.nanos < 1_000_000_000,
{
    let now = chrono::Utc::now();
    Timestamp { secs: now.timestamp(), nanos: now.timestamp_subsec_nanos() }
}

} // verus!
