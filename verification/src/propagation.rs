//! SGP4 propagation of a two-line element set to an instant.

use crate::time::lemma_instant_of_reading;
use crate::time::naive_from_parts;
use crate::time::CHRONO_MAX_SECONDS;
use crate::time::CHRONO_MIN_SECONDS;
use crate::time::NANOS_PER_SECOND;
use crate::time::chrono_utc_naive;
use crate::time::naive_from_timestamp_parts;
use crate::time::timestamp_parts_valid;
use crate::tle::lemma_parsed_as_sgp4;
use crate::tle::parse_tle;
use crate::tle::sgp4_parse_tle;
use crate::tle::TLE_LINE_LEN;
use crate::tle::parsed_tle;
use crate::tle::tle_accepted;
use crate::tle::tle_layout_ok;
use chrono::NaiveDateTime;
use sgp4::Constants;
use sgp4::DatetimeToMinutesSinceEpochError;
use sgp4::Elements;
use sgp4::ElementsError;
use sgp4::MinutesSinceEpoch;
use sgp4::Prediction;
use vstd::prelude::*;

verus! {

/// Time elapsed since the epoch of a set of elements, carried through opaquely.
#[verifier::external_type_specification]
#[verifier::external_body]
pub struct ExMinutesSinceEpoch(MinutesSinceEpoch);

/// The overflow that `sgp4` reports when an instant lies too far from the epoch.
#[verifier::external_type_specification]
#[verifier::external_body]
pub struct ExDatetimeToMinutesSinceEpochError(DatetimeToMinutesSinceEpochError);

/// Epoch constants of the SGP4 model, carried through opaquely.
#[verifier::external_type_specification]
#[verifier::external_body]
pub struct ExConstants(Constants);

/// The reason `sgp4` gives for refusing to build model constants.
#[verifier::external_type_specification]
#[verifier::external_body]
pub struct ExElementsError(ElementsError);

/// Position and velocity predicted by SGP4, carried through opaquely.
#[verifier::external_type_specification]
#[verifier::external_body]
pub struct ExPrediction(Prediction);

/// The reason `sgp4` gives for refusing to propagate.
#[verifier::external_type_specification]
#[verifier::external_body]
pub struct ExPropagationError(sgp4::Error);

/// What `sgp4` gives as the time from the epoch of `elements` to `datetime`:
/// `None` when their nanosecond difference overflows an `i64`.
pub uninterp spec fn sgp4_minutes(elements: Elements, datetime: NaiveDateTime) -> Option<
    MinutesSinceEpoch,
>;

/// What `sgp4` builds as model constants from `elements`: `None` when the
/// elements do not describe an orbit that the model takes.
pub uninterp spec fn sgp4_constants(elements: Elements) -> Option<Constants>;

/// What `sgp4` predicts from `constants` at `minutes` after the epoch: `None`
/// when the model fails at that time.
pub uninterp spec fn sgp4_propagate(constants: Constants, minutes: MinutesSinceEpoch) -> Option<
    Prediction,
>;

/// Calls `sgp4::Elements::datetime_to_minutes_since_epoch`, which depends on
/// its arguments alone. The contract claims that it succeeds exactly when
/// `sgp4_minutes` is `Some`, with that value. When the difference fits is not
/// stated: it depends on the epoch inside the opaque elements.
#[verifier::external_body]
fn minutes_since_epoch(elements: &Elements, datetime: &NaiveDateTime) -> (res: Result<
    MinutesSinceEpoch,
    DatetimeToMinutesSinceEpochError,
>)
    ensures
        res is Ok <==> sgp4_minutes(*elements, *datetime) is Some,
        res matches Ok(m) ==> sgp4_minutes(*elements, *datetime) == Some(m),
{
    elements.datetime_to_minutes_since_epoch(datetime)
}

/// Calls `sgp4::Constants::from_elements`, which depends on its argument
/// alone. The contract claims that it succeeds exactly when `sgp4_constants`
/// is `Some`, with that value. When it succeeds is not stated: it depends on
/// the numeric fields of the opaque elements.
#[verifier::external_body]
fn constants_from_elements(elements: &Elements) -> (res: Result<Constants, ElementsError>)
    ensures
        res is Ok <==> sgp4_constants(*elements) is Some,
        res matches Ok(c) ==> sgp4_constants(*elements) == Some(c),
{
    Constants::from_elements(elements)
}

/// Calls `sgp4::Constants::propagate`, which starts from a fresh model state
/// and so depends on its arguments alone. The contract claims that it
/// succeeds exactly when `sgp4_propagate` is `Some`, with that value. When it
/// succeeds is not stated: it depends on the opaque constants.
#[verifier::external_body]
fn propagate_constants(constants: &Constants, minutes: MinutesSinceEpoch) -> (res: Result<
    Prediction,
    sgp4::Error,
>)
    ensures
        res is Ok <==> sgp4_propagate(*constants, minutes) is Some,
        res matches Ok(p) ==> sgp4_propagate(*constants, minutes) == Some(p),
{
    constants.propagate(minutes)
}

/// What `sgp4` alone predicts for the two lines at `datetime`: its elements
/// for the lines, the minutes from their epoch to `datetime`, their model
/// constants and the propagation of those constants to those minutes.
pub open spec fn sgp4_chain(line1: Seq<u8>, line2: Seq<u8>, datetime: NaiveDateTime) -> Option<
    Prediction,
> {
    match sgp4_parse_tle(line1, line2) {
        None => None,
        Some(elements) => match sgp4_minutes(elements, datetime) {
            None => None,
            Some(minutes) => match sgp4_constants(elements) {
                None => None,
                Some(constants) => sgp4_propagate(constants, minutes),
            },
        },
    }
}

/// For readable checksum characters, whole seconds in chrono's range and
/// nanoseconds below one second, the prediction is what `sgp4` predicts for
/// the two lines at chrono's instant of exactly those seconds and nanoseconds.
pub proof fn lemma_prediction_at_requested_instant(
    line1: Seq<u8>,
    line2: Seq<u8>,
    seconds: int,
    nanos: int,
)
    requires
        line1.len() == TLE_LINE_LEN ==> line1[68] >= 48u8,
        line2.len() == TLE_LINE_LEN ==> line2[68] >= 48u8,
        CHRONO_MIN_SECONDS <= seconds <= CHRONO_MAX_SECONDS,
        0 <= nanos < NANOS_PER_SECOND,
    ensures
        predicted(line1, line2, seconds, nanos) == sgp4_chain(
            line1,
            line2,
            chrono_utc_naive(seconds, nanos),
        ),
{
    lemma_parsed_as_sgp4(line1, line2);
    lemma_instant_of_reading(seconds, nanos);
}

/// The SGP4 prediction for the satellite of a two-line element set at the
/// instant `seconds` plus `nanos` nanoseconds after the Unix epoch: the
/// elements read from the lines, the chrono instant of the carried reading,
/// the minutes from the epoch to it, the model constants of the elements and
/// their propagation to those minutes; `None` as soon as a stage fails.
pub open spec fn predicted(line1: Seq<u8>, line2: Seq<u8>, seconds: int, nanos: int) -> Option<
    Prediction,
> {
    match parsed_tle(line1, line2) {
        None => None,
        Some(elements) => match naive_from_parts(seconds, nanos) {
            None => None,
            Some(datetime) => match sgp4_minutes(elements, datetime) {
                None => None,
                Some(minutes) => match sgp4_constants(elements) {
                    None => None,
                    Some(constants) => sgp4_propagate(constants, minutes),
                },
            },
        },
    }
}

/// Propagates the satellite that a two-line element set describes to the
/// instant `seconds` plus `nanos` nanoseconds after the Unix epoch. Any step
/// that fails gives `None`: the element set is refused, the instant is not
/// one that chrono holds, it lies too far from the epoch, the elements do not
/// make model constants, or the model fails at that time.
pub fn propagate_position(line1: &[u8], line2: &[u8], seconds: i64, nanos: i64) -> (res: Option<
    Prediction,
>)
    ensures
        res == predicted(line1@, line2@, seconds as int, nanos as int),
        res is Some ==> tle_accepted(line1@, line2@),
        res is Some ==> tle_layout_ok(line1@, line2@),
        res is Some ==> timestamp_parts_valid(seconds as int, nanos as int),
        (line1@.len() == TLE_LINE_LEN ==> line1@[68] >= 48u8) && (line2@.len() == TLE_LINE_LEN
            ==> line2@[68] >= 48u8) && CHRONO_MIN_SECONDS <= seconds <= CHRONO_MAX_SECONDS && 0
            <= nanos < NANOS_PER_SECOND ==> res == sgp4_chain(
            line1@,
            line2@,
            chrono_utc_naive(seconds as int, nanos as int),
        ),
        0 <= nanos < NANOS_PER_SECOND ==> (res matches Some(p) ==> {
            &&& sgp4_parse_tle(line1@, line2@) matches Some(e)
            &&& sgp4_constants(e) matches Some(c)
            &&& sgp4_minutes(e, chrono_utc_naive(seconds as int, nanos as int)) matches Some(m)
            &&& sgp4_propagate(c, m) == Some(p)
        }),
{
    let elements = match parse_tle(line1, line2) {
        Some(elements) => elements,
        None => return None,
    };
    let datetime = match naive_from_timestamp_parts(seconds, nanos) {
        Some(datetime) => datetime,
        None => return None,
    };
    let minutes = match minutes_since_epoch(&elements, &datetime) {
        Ok(minutes) => minutes,
        Err(_) => return None,
    };
    let constants = match constants_from_elements(&elements) {
        Ok(constants) => constants,
        Err(_) => return None,
    };
    match propagate_constants(&constants, minutes) {
        Ok(prediction) => Some(prediction),
        Err(_) => None,
    }
}

} // verus!
