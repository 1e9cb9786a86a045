//! Points in time (UTC) as the application stores and shows them, computed
//! with the `chrono` crate.

use vstd::prelude::*;

verus! {

/// Whether `chrono::DateTime::from_timestamp(secs, nanos)` yields a date-time
/// (it yields none for out-of-range seconds or an invalid nanosecond part).
pub uninterp spec fn utc_timestamp_valid(secs: i64, nanos: u32) -> bool;

/// The text that `chrono` formats for the UTC date-time at `secs` seconds and
/// `nanos` nanoseconds after the epoch, with the strftime format `fmt`.
pub uninterp spec fn utc_format(secs: i64, nanos: u32, fmt: Seq<char>) -> Seq<char>;

/// What `chrono::Utc.datetime_from_str(text, fmt)` yields, as seconds and
/// nanoseconds after the epoch, or `None` when it reports an error.
pub uninterp spec fn utc_parse(text: Seq<char>, fmt: Seq<char>) -> Option<(i64, u32)>;

/// The strftime format in which times are written and read back.
pub open spec fn time_format() -> Seq<char> {
    "%Y-%m-%d %H:%M:%S"@
}

/// The system clock's reading.
#[verifier::external_type_specification]
#[verifier::external_body]
pub struct ExSystemTime(std::time::SystemTime);

/// Calls `std::time::SystemTime::now()`. Nothing is claimed of the reading:
/// it rests on the clock.
#[verifier::external_body]
fn system_clock_now() -> std::time::SystemTime {
    std::time::SystemTime::now()
}

/// Calls `SystemTime::duration_since(UNIX_EPOCH)` and reads the duration as
/// whole seconds and nanoseconds: `Ok` when the reading is at or after the
/// epoch, `Err` with the distance before it otherwise. The contract claims
/// only what `Duration` documents: the nanosecond part is below one
/// billion.
#[verifier::external_body]
fn offset_from_epoch(t: &std::time::SystemTime) -> (r: Result<(u64, u32), (u64, u32)>)
    ensures
        match r {
            Ok(p) => p.1 < 1_000_000_000,
            Err(p) => p.1 < 1_000_000_000,
        },
{
    match t.duration_since(std::time::UNIX_EPOCH) {
        Ok(d) => Ok((d.as_secs(), d.subsec_nanos())),
        Err(e) => Err((e.duration().as_secs(), e.duration().subsec_nanos())),
    }
}

/// Reads the timestamp parts of `chrono::DateTime::UNIX_EPOCH`. The
/// contract claims that they are zero, as the epoch is documented to be
/// 1970-01-01 00:00:00 UTC, and that they name a valid date-time (the
/// documented round trip of `from_timestamp`).
#[verifier::external_body]
fn utc_epoch() -> (r: (i64, u32))
    ensures
        r.0 == 0,
        r.1 == 0,
        utc_timestamp_valid(r.0, r.1),
{
    let epoch = ::chrono::DateTime::UNIX_EPOCH;
    (epoch.timestamp(), epoch.timestamp_subsec_nanos())
}

/// The timestamp parts (seconds, nanoseconds) of a clock reading given as
/// its distance from the epoch (`Ok` after it, `Err` before it), or `None`
/// when the seconds do not fit in an `i64`.
pub open spec fn clock_parts(offset: Result<(u64, u32), (u64, u32)>) -> Option<(i64, u32)> {
    match offset {
        Ok((s, n)) => if s <= i64::MAX { Some((s as i64, n)) } else { None },
        Err((s, n)) => if n == 0 {
            if s <= i64::MAX { Some(((0 - s) as i64, 0u32)) } else { None }
        } else {
            if s < i64::MAX { Some(((0 - s - 1) as i64, (1_000_000_000 - n) as u32)) } else { None }
        },
    }
}

/// Calls `chrono::DateTime::from_timestamp(secs, nanos)` and reports whether
/// it yields a date-time.
#[verifier::external_body]
fn utc_is_valid(secs: i64, nanos: u32) -> (r: bool)
    ensures
        r == utc_timestamp_valid(secs, nanos),
{
    ::chrono::DateTime::from_timestamp(secs, nanos).is_some()
}

/// Calls `chrono::DateTime::from_timestamp(secs, nanos)` and formats the
/// date-time with `format(fmt).to_string()`. The contract claims that the
/// text is the named result `utc_format` of the three arguments; `fmt` is
/// held to the one format this crate uses, for which formatting cannot fail.
/// It also claims that `datetime_from_str` reads the text back, with the
/// same format, as the same whole second: chrono writes `%Y` with four
/// digits, or with a sign outside 0..=9999, and reads a signed year of any
/// length back; `%m %d %H %M %S` are two digits each. A leap second
/// (`nanos` of a billion or more) is written as second 60 and is left out of
/// that claim.
#[verifier::external_body]
fn utc_format_text(secs: i64, nanos: u32, fmt: &str) -> (r: String)
    requires
        utc_timestamp_valid(secs, nanos),
        fmt@ == time_format(),
    ensures
        r@ == utc_format(secs, nanos, fmt@),
        nanos < 1_000_000_000 ==> utc_parse(r@, fmt@) == Some((secs, 0u32)),
{
    ::chrono::DateTime::from_timestamp(secs, nanos).unwrap().format(fmt).to_string()
}

/// Calls `chrono::Utc.datetime_from_str(text, fmt)` and reads the timestamp
/// parts of the result. The contract claims that the result is the named
/// `utc_parse` of the two arguments, and that parts it yields name a valid
/// date-time (the round trip that `chrono` documents).
#[verifier::external_body]
#[allow(deprecated)]
fn utc_parse_text(text: &str, fmt: &str) -> (r: Option<(i64, u32)>)
    ensures
        r == utc_parse(text@, fmt@),
        r matches Some(p) ==> utc_timestamp_valid(p.0, p.1),
{
    match ::chrono::TimeZone::datetime_from_str(&::chrono::Utc, text, fmt) {
        Ok(t) => Some((t.timestamp(), t.timestamp_subsec_nanos())),
        Err(_) => None,
    }
}

/// A clock reading becomes the point in time at exactly its distance from
/// the epoch: after the epoch for an `Ok` reading, before it for an `Err`
/// reading, counted in nanoseconds, with a nanosecond part below one
/// billion; a reading after the epoch never becomes a time before it.
pub proof fn lemma_clock_parts_distance(offset: Result<(u64, u32), (u64, u32)>)
    requires
        match offset {
            Ok(p) => p.1 < 1_000_000_000,
            Err(p) => p.1 < 1_000_000_000,
        },
    ensures
        clock_parts(offset) matches Some(p) ==> {
            &&& p.1 < 1_000_000_000
            &&& match offset {
                Ok(q) => p.0 * 1_000_000_000 + p.1 == q.0 * 1_000_000_000 + q.1 && p.0 >= 0,
                Err(q) => p.0 * 1_000_000_000 + p.1 == 0 - (q.0 * 1_000_000_000 + q.1)
                    && (p.0 < 0 || (q.0 == 0 && q.1 == 0)),
            }
        },
        offset matches Ok(q) && q.0 <= i64::MAX ==> clock_parts(offset) is Some,
{
}

/// A point in time in UTC, to the nanosecond.
#[derive(Debug, Clone, Copy, PartialEq, Eq, Structural)]
pub struct Time {
    secs: i64,
    nanos: u32,
}

impl Time {
    /// Every `Time` names a date-time that `chrono` can represent.
    #[verifier::type_invariant]
    spec fn valid(self) -> bool {
        utc_timestamp_valid(self.secs, self.nanos)
    }

    /// Whole seconds since 1970-01-01 00:00:00 UTC.
    pub closed spec fn secs(self) -> i64 {
        self.secs
    }

    /// Nanoseconds after the whole second.
    pub closed spec fn nanos(self) -> u32 {
        self.nanos
    }

    /// The current time, read from the system clock. A reading that no
    /// date-time of `chrono` can hold is taken as the epoch.
    pub fn new() -> (t: Time)
        ensures
            utc_timestamp_valid(t.secs(), t.nanos()),
    {
        let now = system_clock_now();
        let t = Time::from_clock_offset(offset_from_epoch(&now));
        proof {
            use_type_invariant(&t);
        }
        t
    }

    /// The time of a clock reading given as its distance from the epoch
    /// (`Ok` after it, `Err` before it), or the epoch when the reading is no
    /// date-time that `chrono` can hold.
    pub fn from_clock_offset(offset: Result<(u64, u32), (u64, u32)>) -> (t: Time)
        requires
            match offset {
                Ok(p) => p.1 < 1_000_000_000,
                Err(p) => p.1 < 1_000_000_000,
            },
        ensures
            match clock_parts(offset) {
                Some(p) if utc_timestamp_valid(p.0, p.1) => t.secs() == p.0 && t.nanos() == p.1,
                _ => t.secs() == 0 && t.nanos() == 0,
            },
    {
        let max: u64 = 9223372036854775807;
        let parts: Option<(i64, u32)> = match offset {
            Ok((s, n)) => if s <= max { Some((s as i64, n)) } else { None },
            Err((s, n)) => if n == 0 {
                if s <= max { Some((0 - (s as i64), 0u32)) } else { None }
            } else {
                if s < max { Some((0 - (s as i64) - 1, 1_000_000_000 - n)) } else { None }
            },
        };
        match parts {
            Some((secs, nanos)) => {
                if utc_is_valid(secs, nanos) {
                    return Time { secs, nanos };
                }
            },
            None => {},
        }
        let (secs, nanos) = utc_epoch();
        Time { secs, nanos }
    }

    /// The time `secs` seconds and `nanos` nanoseconds after the epoch, or
    /// `None` when that is no date-time `chrono` can represent.
    pub fn from_timestamp(secs: i64, nanos: u32) -> (r: Option<Time>)
        ensures
            r is Some <==> utc_timestamp_valid(secs, nanos),
            r matches Some(t) ==> t.secs() == secs && t.nanos() == nanos,
    {
        if utc_is_valid(secs, nanos) {
            Some(Time { secs, nanos })
        } else {
            None
        }
    }

    /// Whole seconds since the epoch.
    pub fn timestamp(&self) -> (s: i64)
        ensures
            s == self.secs(),
    {
        self.secs
    }

    /// Nanoseconds after the whole second.
    pub fn subsec_nanos(&self) -> (n: u32)
        ensures
            n == self.nanos(),
    {
        self.nanos
    }

    /// The time written as `YYYY-MM-DD hh:mm:ss` (the fraction of the second
    /// is dropped). Reading the text back gives the same whole second, for
    /// every time but a leap second.
    pub fn encode(&self) -> (s: String)
        ensures
            utc_timestamp_valid(self.secs(), self.nanos()),
            s@ == utc_format(self.secs(), self.nanos(), time_format()),
            self.nanos() < 1_000_000_000 ==> utc_parse(s@, time_format()) == Some((self.secs(), 0u32)),
    {
        proof {
            use_type_invariant(self);
        }
        utc_format_text(self.secs, self.nanos, "%Y-%m-%d %H:%M:%S")
    }

    /// The time written in `text` as `YYYY-MM-DD hh:mm:ss`, which must be
    /// readable in that format.
    pub fn decode(text: &str) -> (t: Time)
        requires
            utc_parse(text@, time_format()) is Some,
        ensures
            utc_parse(text@, time_format()) == Some((t.secs(), t.nanos())),
    {
        let (secs, nanos) = utc_parse_text(text, "%Y-%m-%d %H:%M:%S").unwrap();
        Time { secs, nanos }
    }

    /// The time written in `text` as `YYYY-MM-DD hh:mm:ss`, or `None` when
    /// the text is not readable in that format.
    pub fn try_decode(text: &str) -> (r: Option<Time>)
        ensures
            r is Some <==> utc_parse(text@, time_format()) is Some,
            r matches Some(t) ==> utc_parse(text@, time_format()) == Some((t.secs(), t.nanos())),
    {
        if utc_parse_text(text, "%Y-%m-%d %H:%M:%S").is_some() {
            Some(Time::decode(text))
        } else {
            None
        }
    }
}

} // verus!
