//! Unix timestamps as whole seconds plus nanoseconds, and the chrono instant
//! they name.

use chrono::NaiveDateTime;
use chrono::TimeZone;
use chrono::Utc;
use vstd::prelude::*;

verus! {

/// Nanoseconds in one second.
pub const NANOS_PER_SECOND: i64 = 1_000_000_000;

/// First second (1 January of year -262143, 00:00:00 UTC) that chrono can hold.
pub const CHRONO_MIN_SECONDS: i64 = -8_334_601_228_800;

/// Last second (31 December of year 262142, 23:59:59 UTC) that chrono can hold.
pub const CHRONO_MAX_SECONDS: i64 = 8_210_266_876_799;

/// The pair that a `(seconds, nanos)` reading becomes once a full second of
/// nanoseconds is carried into the seconds and a negative nanosecond count is
/// clamped to zero; `None` when the carry overflows the seconds.
pub open spec fn carried_timestamp(seconds: int, nanos: int) -> Option<(int, int)> {
    if nanos >= NANOS_PER_SECOND {
        if seconds + 1 > i64::MAX {
            None
        } else {
            Some((seconds + 1, nanos - NANOS_PER_SECOND))
        }
    } else if nanos < 0 {
        Some((seconds, 0))
    } else {
        Some((seconds, nanos))
    }
}

/// The instant, in nanoseconds since the Unix epoch, of a `(seconds, nanos)` reading.
pub open spec fn instant_nanos(seconds: int, nanos: int) -> int {
    seconds * NANOS_PER_SECOND + nanos
}

/// Whether chrono builds a UTC instant from `seconds` since the epoch and
/// `nanos` into the second: the day must lie in chrono's calendar range, and
/// a nanosecond count of a second or more is taken only as a leap second,
/// that is below two seconds and on the last second of a minute.
pub open spec fn chrono_accepts_timestamp(seconds: int, nanos: int) -> bool {
    &&& CHRONO_MIN_SECONDS <= seconds <= CHRONO_MAX_SECONDS
    &&& 0 <= nanos
    &&& (nanos < NANOS_PER_SECOND || (nanos < 2 * NANOS_PER_SECOND && seconds % 60 == 59))
}

/// Carries a full second of nanoseconds into `seconds` and clamps a negative
/// nanosecond count to zero, as the conversion of a Unix time does before it
/// asks chrono for the instant. The nanoseconds come back as `u32`, cut to
/// their low 32 bits as an `as` conversion does.
pub fn carry_nanoseconds(seconds: i64, nanos: i64) -> (res: Option<(i64, u32)>)
    ensures
        match carried_timestamp(seconds as int, nanos as int) {
            None => res is None,
            Some((s, n)) => res == Some((s as i64, n as u32)),
        },
        res is None <==> (nanos >= NANOS_PER_SECOND && seconds == i64::MAX),
        0 <= nanos < 2 * NANOS_PER_SECOND ==> match res {
            Some((s, n)) => n < NANOS_PER_SECOND && instant_nanos(s as int, n as int)
                == instant_nanos(seconds as int, nanos as int),
            None => true,
        },
{
    let mut secs: i64 = seconds;
    let mut subsec: i64 = nanos;
    if subsec >= NANOS_PER_SECOND {
        subsec = subsec - NANOS_PER_SECOND;
        if secs == i64::MAX {
            return None;
        }
        secs = secs + 1;
    }
    if subsec < 0 {
        subsec = 0;
    }
    Some((secs, subsec as u32))
}

/// The calendar-and-clock instant of chrono, carried through opaquely.
#[verifier::external_type_specification]
#[verifier::external_body]
pub struct ExNaiveDateTime(NaiveDateTime);

/// The UTC instant that chrono builds from `seconds` since the Unix epoch
/// and `nanos` nanoseconds into the second.
pub uninterp spec fn chrono_utc_naive(seconds: int, nanos: int) -> NaiveDateTime;

/// Calls chrono's `Utc.timestamp_opt(seconds, nanos)`, keeps its single
/// result and takes that result's naive UTC value. chrono's source builds the
/// instant through `DateTime::from_timestamp`, which refuses exactly the
/// inputs that `chrono_accepts_timestamp` rules out, so the contract claims
/// that `Some` comes back on the other inputs and only there, holding the
/// instant that `chrono_utc_naive` names for these arguments.
#[verifier::external_body]
fn utc_naive_from_timestamp(seconds: i64, nanos: u32) -> (res: Option<NaiveDateTime>)
    ensures
        res is Some <==> chrono_accepts_timestamp(seconds as int, nanos as int),
        res matches Some(d) ==> d == chrono_utc_naive(seconds as int, nanos as int),
{
    match Utc.timestamp_opt(seconds, nanos).single() {
        Some(datetime) => Some(datetime.naive_utc()),
        None => None,
    }
}

/// Whether a `(seconds, nanos)` reading, once carried, names an instant that
/// chrono can hold.
pub open spec fn timestamp_parts_valid(seconds: int, nanos: int) -> bool {
    match carried_timestamp(seconds, nanos) {
        Some((s, n)) => chrono_accepts_timestamp(s, (n as u32) as int),
        None => false,
    }
}

/// The chrono instant of a `(seconds, nanos)` reading once carried; `None`
/// when the carry overflows or chrono refuses the carried pair.
pub open spec fn naive_from_parts(seconds: int, nanos: int) -> Option<NaiveDateTime> {
    match carried_timestamp(seconds, nanos) {
        Some((s, n)) => if chrono_accepts_timestamp(s, (n as u32) as int) {
            Some(chrono_utc_naive(s, (n as u32) as int))
        } else {
            None
        },
        None => None,
    }
}

/// The UTC instant that `seconds` since the Unix epoch plus `nanos`
/// nanoseconds name, after the carry of `carry_nanoseconds`; `None` when the
/// carry overflows or chrono refuses the carried pair.
pub fn naive_from_timestamp_parts(seconds: i64, nanos: i64) -> (res: Option<NaiveDateTime>)
    ensures
        res is Some <==> timestamp_parts_valid(seconds as int, nanos as int),
        res == naive_from_parts(seconds as int, nanos as int),
        CHRONO_MIN_SECONDS <= seconds <= CHRONO_MAX_SECONDS && 0 <= nanos < NANOS_PER_SECOND
            ==> res == Some(chrono_utc_naive(seconds as int, nanos as int)),
        CHRONO_MIN_SECONDS <= seconds + 1 <= CHRONO_MAX_SECONDS && NANOS_PER_SECOND <= nanos < 2
            * NANOS_PER_SECOND ==> res == Some(
            chrono_utc_naive(seconds + 1, nanos - NANOS_PER_SECOND),
        ),
        CHRONO_MIN_SECONDS <= seconds <= CHRONO_MAX_SECONDS && nanos < 0 ==> res == Some(
            chrono_utc_naive(seconds as int, 0),
        ),
        !(CHRONO_MIN_SECONDS <= seconds <= CHRONO_MAX_SECONDS) && nanos < NANOS_PER_SECOND
            ==> res is None,
{
    match carry_nanoseconds(seconds, nanos) {
        Some((secs, subsec)) => utc_naive_from_timestamp(secs, subsec),
        None => None,
    }
}

/// A reading with whole seconds in chrono's range and nanoseconds below one
/// second names chrono's instant of exactly those seconds and nanoseconds;
/// one with a full second of nanoseconds names the instant one second later.
pub proof fn lemma_instant_of_reading(seconds: int, nanos: int)
    requires
        CHRONO_MIN_SECONDS <= seconds <= CHRONO_MAX_SECONDS,
        0 <= nanos < 2 * NANOS_PER_SECOND,
    ensures
        nanos < NANOS_PER_SECOND ==> naive_from_parts(seconds, nanos) == Some(
            chrono_utc_naive(seconds, nanos),
        ),
        NANOS_PER_SECOND <= nanos && seconds + 1 <= CHRONO_MAX_SECONDS ==> naive_from_parts(
            seconds,
            nanos,
        ) == Some(chrono_utc_naive(seconds + 1, nanos - NANOS_PER_SECOND)),
{
}

/// Whether a reading names an instant that chrono can hold depends on the
/// instant alone, not on how it is split between seconds and nanoseconds:
/// two readings with nanosecond counts below two seconds that name the same
/// instant are both valid or both invalid.
pub proof fn lemma_validity_follows_instant(s1: i64, n1: i64, s2: i64, n2: i64)
    requires
        0 <= n1 < 2 * NANOS_PER_SECOND,
        0 <= n2 < 2 * NANOS_PER_SECOND,
        instant_nanos(s1 as int, n1 as int) == instant_nanos(s2 as int, n2 as int),
    ensures
        timestamp_parts_valid(s1 as int, n1 as int) == timestamp_parts_valid(s2 as int, n2 as int),
{
    let c1 = carried_timestamp(s1 as int, n1 as int);
    let c2 = carried_timestamp(s2 as int, n2 as int);
    if c1 is Some && c2 is Some {
        let (a1, m1) = c1.unwrap();
        let (a2, m2) = c2.unwrap();
        assert(a1 * NANOS_PER_SECOND + m1 == a2 * NANOS_PER_SECOND + m2);
        assert(a1 == a2);
        assert(m1 == m2);
    }
}

} // verus!
