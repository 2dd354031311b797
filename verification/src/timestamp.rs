//! Points in time (UTC, as seconds and nanoseconds since the Unix epoch) and
//! their textual forms, which chrono computes.
use vstd::prelude::*;

verus! {

/// The earliest second that chrono represents (-262143-01-01 00:00:00 UTC).
pub const MIN_UNIX_SECS: i64 = -8334601228800i64;

/// The latest second that chrono represents (262142-12-31 23:59:59 UTC).
pub const MAX_UNIX_SECS: i64 = 8210266876799i64;

/// Nanoseconds in one second.
pub const NANOS_PER_SEC: u32 = 1000000000u32;

/// Whether `(secs, nanos)` names an instant that chrono represents: a second
/// in chrono's range, and fewer nanoseconds than one second, or than two in
/// the last second of a minute, which a leap second extends.
pub open spec fn valid_unix_time(secs: i64, nanos: u32) -> bool {
    &&& MIN_UNIX_SECS <= secs <= MAX_UNIX_SECS
    &&& (nanos < NANOS_PER_SEC || (nanos < 2 * NANOS_PER_SEC && secs % 60 == 59))
}

/// chrono's `%Y%m%d%H%M%S` rendering of the instant.
pub uninterp spec fn chrono_compact_stamp(secs: i64, nanos: u32) -> Seq<char>;

/// chrono's `Display` rendering of the instant as a `DateTime<Utc>`.
pub uninterp spec fn chrono_display(secs: i64, nanos: u32) -> Seq<char>;

/// chrono's RFC 3339 rendering of the instant as a `DateTime<Utc>`.
pub uninterp spec fn chrono_rfc3339(secs: i64, nanos: u32) -> Seq<char>;

/// An instant in UTC.
#[derive(Debug, Clone, Copy)]
pub struct Timestamp {
    secs: i64,
    nanos: u32,
}

impl View for Timestamp {
    type V = (i64, u32);

    closed spec fn view(&self) -> (i64, u32) {
        (self.secs, self.nanos)
    }
}

impl Timestamp {
    #[verifier::type_invariant]
    spec fn in_range(self) -> bool {
        valid_unix_time(self.secs, self.nanos)
    }

    /// The instant `secs` seconds and `nanos` nanoseconds after the Unix
    /// epoch, if chrono represents it.
    pub fn from_unix(secs: i64, nanos: u32) -> (r: Option<Timestamp>)
        ensures
            r is Some <==> valid_unix_time(secs, nanos),
            r matches Some(t) ==> t@ == (secs, nanos),
    {
        if secs < MIN_UNIX_SECS || secs > MAX_UNIX_SECS {
            return None;
        }
        // Counted from the first second chrono represents, which begins a
        // minute, so the count has the same remainder by 60 as `secs`.
        let from_min: u64 = (secs - MIN_UNIX_SECS) as u64;
        assert(from_min % 60 == secs % 60);
        let last_of_minute = from_min % 60 == 59;
        if nanos < NANOS_PER_SEC || (nanos < 2 * NANOS_PER_SEC && last_of_minute) {
            Some(Timestamp { secs, nanos })
        } else {
            None
        }
    }

    /// The current instant, as the system clock gives it.
    pub fn now() -> (r: Timestamp)
        ensures
            0 <= r@.0,
    {
        let (secs, nanos) = utc_now_parts();
        Timestamp { secs, nanos }
    }

    /// Whole seconds since the Unix epoch.
    pub fn unix_secs(&self) -> (r: i64)
        ensures
            r == self@.0,
            valid_unix_time(self@.0, self@.1),
    {
        proof {
            use_type_invariant(self);
        }
        self.secs
    }

    /// Nanoseconds past the whole second.
    pub fn subsec_nanos(&self) -> (r: u32)
        ensures
            r == self@.1,
            valid_unix_time(self@.0, self@.1),
    {
        proof {
            use_type_invariant(self);
        }
        self.nanos
    }

    /// The instant as `YYYYmmddHHMMSS`.
    pub fn compact_stamp(&self) -> (r: String)
        ensures
            r@ == chrono_compact_stamp(self@.0, self@.1),
    {
        proof {
            use_type_invariant(self);
        }
        utc_compact_parts(self.secs, self.nanos)
    }

    /// The instant as chrono displays a `DateTime<Utc>`.
    pub fn display(&self) -> (r: String)
        ensures
            r@ == chrono_display(self@.0, self@.1),
    {
        proof {
            use_type_invariant(self);
        }
        utc_display_parts(self.secs, self.nanos)
    }

    /// The instant in RFC 3339 form.
    pub fn rfc3339(&self) -> (r: String)
        ensures
            r@ == chrono_rfc3339(self@.0, self@.1),
    {
        proof {
            use_type_invariant(self);
        }
        utc_rfc3339_parts(self.secs, self.nanos)
    }
}

/// Calls `chrono::Utc::now` and splits the result with `DateTime::timestamp`
/// and `DateTime::timestamp_subsec_nanos`. chrono builds that value with
/// `DateTime::from_timestamp(secs, nanos).unwrap()` from the time elapsed
/// since the Unix epoch, so the seconds are not negative, the instant is in
/// chrono's range, and the nanoseconds are below one second. Which instant
/// comes back is not stated; chrono panics when the system clock is set
/// before 1970.
#[verifier::external_body]
fn utc_now_parts() -> (r: (i64, u32))
    ensures
        0 <= r.0,
        valid_unix_time(r.0, r.1),
{
    let now = chrono::Utc::now();
    (now.timestamp(), now.timestamp_subsec_nanos())
}

/// Calls `chrono::DateTime::from_timestamp`, then `format("%Y%m%d%H%M%S")`
/// and `to_string`. `from_timestamp` returns a value for every instant in
/// chrono's range with fewer than 10^9 nanoseconds, or fewer than 2 * 10^9
/// in the last second of a minute (`NaiveTime::from_num_seconds_from_midnight_opt`);
/// the text is named by `chrono_compact_stamp`.
#[verifier::external_body]
fn utc_compact_parts(secs: i64, nanos: u32) -> (r: String)
    requires
        valid_unix_time(secs, nanos),
    ensures
        r@ == chrono_compact_stamp(secs, nanos),
{
    chrono::DateTime::from_timestamp(secs, nanos).unwrap().format("%Y%m%d%H%M%S").to_string()
}

/// Calls `chrono::DateTime::from_timestamp`, then `to_string` (chrono's
/// `Display` for `DateTime<Utc>`); the text is named by `chrono_display`.
#[verifier::external_body]
fn utc_display_parts(secs: i64, nanos: u32) -> (r: String)
    requires
        valid_unix_time(secs, nanos),
    ensures
        r@ == chrono_display(secs, nanos),
{
    chrono::DateTime::from_timestamp(secs, nanos).unwrap().to_string()
}

/// Calls `chrono::DateTime::from_timestamp`, then `to_rfc3339`; the text is
/// named by `chrono_rfc3339`.
#[verifier::external_body]
fn utc_rfc3339_parts(secs: i64, nanos: u32) -> (r: String)
    requires
        valid_unix_time(secs, nanos),
    ensures
        r@ == chrono_rfc3339(secs, nanos),
{
    chrono::DateTime::from_timestamp(secs, nanos).unwrap().to_rfc3339()
}

} // verus!
