//! Points in time, read from the system clock and written out by the `time` crate.
use time::OffsetDateTime;
use vstd::prelude::*;

verus! {

/// The first point in time that the calendar of the `time` crate holds:
/// 00:00:00 UTC on the first of January of the year -100000, in nanoseconds since
/// 1970-01-01T00:00:00 UTC.
pub const FIRST_NANOS: i128 = -3_217_862_419_200_000_000_000i128;

/// The last point in time that the calendar of the `time` crate holds: the last nanosecond
/// of the year 100000, in nanoseconds since 1970-01-01T00:00:00 UTC.
pub const LAST_NANOS: i128 = 3_093_559_603_199_999_999_999i128;

/// Whether the calendar holds the point in time that lies `nanos` nanoseconds after
/// 1970-01-01T00:00:00 UTC.
pub open spec fn in_range(nanos: int) -> bool {
    FIRST_NANOS <= nanos <= LAST_NANOS
}

/// A point in time that the calendar holds. Its view is the number of nanoseconds that have
/// passed since 1970-01-01T00:00:00 UTC.
#[derive(Clone, Copy, Debug)]
pub struct Timestamp {
    nanos: i128,
}

impl View for Timestamp {
    type V = int;

    closed spec fn view(&self) -> int {
        self.nanos as int
    }
}

/// The text that the `time` crate writes for the point in time `nanos`, taken in UTC, under
/// the format string `format`.
pub uninterp spec fn formatted_time(nanos: int, format: Seq<char>) -> Seq<char>;

/// The format in which the time of a request is written: year, month and day, a `T`, then
/// hour, minute and second.
pub const REQUEST_TIME_FORMAT: &'static str = "%Y-%m-%dT%H:%M:%S";

impl Timestamp {
    #[verifier::type_invariant]
    spec fn held(self) -> bool {
        in_range(self.nanos as int)
    }

    /// The point in time `nanos` nanoseconds after 1970-01-01T00:00:00 UTC, where the
    /// calendar holds it.
    pub fn new(nanos: i128) -> (t: Option<Self>)
        ensures
            match t {
                Some(t) => in_range(nanos as int) && t@ == nanos,
                None => !in_range(nanos as int),
            },
    {
        if FIRST_NANOS <= nanos && nanos <= LAST_NANOS {
            Some(Timestamp { nanos })
        } else {
            None
        }
    }

    /// The nanoseconds that have passed since 1970-01-01T00:00:00 UTC.
    pub fn nanos(&self) -> (n: i128)
        ensures
            n == self@,
            in_range(n as int),
    {
        proof {
            use_type_invariant(self);
        }
        self.nanos
    }

    /// The point in time as it is written for a request.
    pub fn request_time(&self) -> (text: String)
        ensures
            text@ == formatted_time(self@, REQUEST_TIME_FORMAT@),
    {
        proof {
            use_type_invariant(self);
        }
        format_time(*self, REQUEST_TIME_FORMAT)
    }
}

/// `OffsetDateTime::now_utc` reads the system clock; `unix_timestamp_nanos` gives the reading
/// as nanoseconds since the epoch. Which point in time comes back is open. That the calendar
/// holds it is not: the crate builds no date outside its years.
#[verifier::external_body]
pub(crate) fn now() -> (t: Timestamp)
    ensures
        in_range(t@),
{
    Timestamp { nanos: OffsetDateTime::now_utc().unix_timestamp_nanos() }
}

/// `OffsetDateTime::from_unix_timestamp_nanos` followed by `OffsetDateTime::format`: the text
/// depends on the point in time and the format string alone, so it has a name. Both panic
/// outside what `requires` admits: the first on a date that the calendar does not hold, the
/// second on a format string that it cannot read.
#[verifier::external_body]
pub(crate) fn format_time(t: Timestamp, format: &str) -> (text: String)
    requires
        in_range(t@),
        format@ == REQUEST_TIME_FORMAT@,
    ensures
        text@ == formatted_time(t@, format@),
{
    OffsetDateTime::from_unix_timestamp_nanos(t.nanos).format(format)
}

} // verus!
