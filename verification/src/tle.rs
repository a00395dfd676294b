//! Two-line element sets, read by the `sgp4` crate.

use sgp4::Elements;
use sgp4::TleError;
use vstd::prelude::*;

verus! {

/// Orbital elements parsed from a two-line element set, carried through opaquely.
#[verifier::external_type_specification]
#[verifier::external_body]
pub struct ExElements(Elements);

/// The reason `sgp4` gives for refusing a two-line element set.
#[verifier::external_type_specification]
#[verifier::external_body]
pub struct ExTleError(TleError);

/// Length in bytes of each line of a two-line element set.
pub const TLE_LINE_LEN: usize = 69;

/// What a character adds to a line's checksum: a minus sign counts one, a
/// digit its value, anything else nothing.
pub open spec fn checksum_value(c: u8) -> int {
    if c == 45u8 {
        1
    } else if 48u8 <= c <= 57u8 {
        c - 48
    } else {
        0
    }
}

/// Sum of the checksum values of the characters of `s`.
pub open spec fn checksum_sum(s: Seq<u8>) -> int
    decreases s.len(),
{
    if s.len() == 0 {
        0
    } else {
        checksum_sum(s.drop_last()) + checksum_value(s.last())
    }
}

/// The last character of a line is the decimal digit of its checksum, taken
/// over the first 68 characters modulo ten.
pub open spec fn line_checksum_ok(line: Seq<u8>) -> bool {
    checksum_sum(line.take(68)) % 10 == line[68] - 48
}

/// The field separators of the first line are spaces.
pub open spec fn line1_separators_ok(line: Seq<u8>) -> bool {
    &&& line[1] == 32u8
    &&& line[8] == 32u8
    &&& line[17] == 32u8
    &&& line[32] == 32u8
    &&& line[43] == 32u8
    &&& line[52] == 32u8
    &&& line[61] == 32u8
    &&& line[63] == 32u8
}

/// The field separators of the second line are spaces.
pub open spec fn line2_separators_ok(line: Seq<u8>) -> bool {
    &&& line[1] == 32u8
    &&& line[7] == 32u8
    &&& line[16] == 32u8
    &&& line[25] == 32u8
    &&& line[33] == 32u8
    &&& line[42] == 32u8
    &&& line[51] == 32u8
}

/// The layout that every accepted two-line element set has: two lines of 69
/// characters, numbered `1` and `2` in their first column, with spaces between
/// the fields and a correct checksum digit at the end of each line.
pub open spec fn tle_layout_ok(line1: Seq<u8>, line2: Seq<u8>) -> bool {
    &&& line1.len() == TLE_LINE_LEN
    &&& line2.len() == TLE_LINE_LEN
    &&& line1[0] == 49u8
    &&& line2[0] == 50u8
    &&& line1_separators_ok(line1)
    &&& line2_separators_ok(line2)
    &&& line_checksum_ok(line1)
    &&& line_checksum_ok(line2)
}

/// A line whose length is that of a TLE line does not end in a character
/// below the digit `0`.
pub open spec fn checksum_char_in_range(line: Seq<u8>) -> bool {
    line.len() == TLE_LINE_LEN ==> line[68] >= 48u8
}

/// What `sgp4` makes of the two lines as a two-line element set: `None` when
/// it refuses them, else the elements it reads. Besides the layout, every
/// field (NORAD catalogue numbers that agree on both lines, classification,
/// epoch, drag terms, angles, eccentricity, mean motion, revolution number)
/// must parse.
pub uninterp spec fn sgp4_parse_tle(line1: Seq<u8>, line2: Seq<u8>) -> Option<Elements>;

/// Calls `sgp4::Elements::from_tle(line1, line2)` (the form without an object
/// name). The contract claims that it succeeds exactly when
/// `sgp4_parse_tle` is `Some`, with those elements, and that whatever it
/// accepts has the layout of `tle_layout_ok`, which its source checks before
/// any field. It is not called on a line of 69 characters whose last one is
/// below `0`: the checksum comparison subtracts `b'0'` from that byte and
/// overflows there.
#[verifier::external_body]
fn elements_from_tle(line1: &[u8], line2: &[u8]) -> (res: Result<Elements, TleError>)
    requires
        checksum_char_in_range(line1@),
        checksum_char_in_range(line2@),
    ensures
        res is Ok <==> sgp4_parse_tle(line1@, line2@) is Some,
        res matches Ok(e) ==> sgp4_parse_tle(line1@, line2@) == Some(e),
        res is Ok ==> tle_layout_ok(line1@, line2@),
{
    Elements::from_tle(line1, line2)
}

/// Whether a two-line element set is accepted: its checksum characters can be
/// read, and `sgp4` parses it.
pub open spec fn tle_accepted(line1: Seq<u8>, line2: Seq<u8>) -> bool {
    &&& checksum_char_in_range(line1)
    &&& checksum_char_in_range(line2)
    &&& sgp4_parse_tle(line1, line2) is Some
}

/// The elements read from an accepted two-line element set; `None` when it
/// is refused.
pub open spec fn parsed_tle(line1: Seq<u8>, line2: Seq<u8>) -> Option<Elements> {
    if tle_accepted(line1, line2) {
        sgp4_parse_tle(line1, line2)
    } else {
        None
    }
}

/// Every set whose checksum characters are not below the digit `0` is read
/// exactly as `sgp4` reads it: accepted with the same elements when `sgp4`
/// accepts it, refused when `sgp4` refuses it.
pub proof fn lemma_parsed_as_sgp4(line1: Seq<u8>, line2: Seq<u8>)
    requires
        line1.len() == TLE_LINE_LEN ==> line1[68] >= 48u8,
        line2.len() == TLE_LINE_LEN ==> line2[68] >= 48u8,
    ensures
        parsed_tle(line1, line2) == sgp4_parse_tle(line1, line2),
        sgp4_parse_tle(line1, line2) is Some ==> tle_accepted(line1, line2),
{
}

/// Parses a two-line element set; `None` when it is refused. A line of 69
/// characters whose checksum character lies below `0` is refused without a
/// call: its checksum cannot match.
pub fn parse_tle(line1: &[u8], line2: &[u8]) -> (res: Option<Elements>)
    ensures
        res is Some <==> tle_accepted(line1@, line2@),
        res == parsed_tle(line1@, line2@),
        res is Some ==> tle_layout_ok(line1@, line2@),
        (line1@.len() == TLE_LINE_LEN ==> line1@[68] >= 48u8) && (line2@.len() == TLE_LINE_LEN
            ==> line2@[68] >= 48u8) ==> res == sgp4_parse_tle(line1@, line2@),
        (line1@.len() == TLE_LINE_LEN && line1@[68] < 48u8) || (line2@.len() == TLE_LINE_LEN
            && line2@[68] < 48u8) ==> res is None,
{
    if line1.len() == TLE_LINE_LEN && line1[68] < 48u8 {
        return None;
    }
    if line2.len() == TLE_LINE_LEN && line2[68] < 48u8 {
        return None;
    }
    match elements_from_tle(line1, line2) {
        Ok(elements) => Some(elements),
        Err(_) => None,
    }
}

} // verus!
