//! Overnight index swaps: the termination date an OIS tenor names.
//!
//! OIS tenors are read like swap tenors (`"<n>Y"`, `"<n>M"`) and also
//! accept weeks (`"<n>W"`).

use vstd::prelude::*;
use vstd::utf8::is_ascii_chars;

use crate::date::{
    add_days_in_range, days_from_ce, lemma_add_days_exists, spec_add_days, spec_days_between, valid_date,
    ymd_lt, Date,
};
use crate::error::{CurveError, CurveResult};
use crate::instruments::deposit::{is_invalid_data, parse_i64};
use crate::instruments::swap::{
    parse_tenor_upper, swap_end_matches, swap_tenor_count, swap_tenor_defined, swap_tenor_in_range,
};
use crate::text::{ascii_upper, char_len, concat, parse_signed_range, spec_to_uppercase, to_uppercase};

verus! {

/// The tenor counts weeks.
pub open spec fn is_week_tenor(u: Seq<char>) -> bool {
    u.len() > 0 && u.last() == 'W'
}

/// Reading an upper-cased OIS tenor from `start` runs without fault.
pub open spec fn ois_tenor_defined(start: (int, int, int), u: Seq<char>) -> bool {
    if is_week_tenor(u) {
        match parse_i64(u.drop_last()) {
            Some(n) => i64::MIN <= n * 7 <= i64::MAX && add_days_in_range(start, n * 7),
            None => true,
        }
    } else {
        swap_tenor_defined(start, u)
    }
}

/// What an upper-cased OIS tenor gives from `start`.
pub open spec fn ois_end_matches(start: (int, int, int), u: Seq<char>, r: CurveResult<Date>) -> bool {
    if is_week_tenor(u) {
        match parse_i64(u.drop_last()) {
            None => is_invalid_data(r, "Invalid tenor: "@ + u),
            Some(n) => r matches Ok(d) && d@ == spec_add_days(start.0, start.1, start.2, n * 7),
        }
    } else {
        swap_end_matches(start, u, r)
    }
}

/// The signed number of weeks, months or years an OIS tenor counts (0 for
/// an unreadable tenor).
pub open spec fn ois_tenor_count(u: Seq<char>) -> int {
    if is_week_tenor(u) {
        match parse_i64(u.drop_last()) {
            Some(n) => n,
            None => 0,
        }
    } else {
        swap_tenor_count(u)
    }
}

/// Whether reading the upper-cased tenor `u` from `start` is within
/// `parse_swap_tenor_upper`'s precondition.
pub fn ois_tenor_in_range(start: &Date, u: &str) -> (r: bool)
    ensures
        r == ois_tenor_defined(start@, u@),
{
    let n = char_len(u);
    if n > 0 && u.get_char(n - 1) == 'W' {
        assert(u@.subrange(0, n - 1) =~= u@.drop_last());
        match parse_signed_range(u, 0, n - 1, i64::MIN, i64::MAX) {
            None => true,
            Some(weeks) => {
                let days = (weeks as i128) * 7;
                if days < i64::MIN as i128 || days > i64::MAX as i128 {
                    false
                } else {
                    start.can_add_days(days as i64)
                }
            },
        }
    } else {
        swap_tenor_in_range(start, u)
    }
}

/// The termination date named by an upper-cased OIS tenor `u`.
pub fn parse_swap_tenor_upper(start: &Date, u: &str) -> (r: CurveResult<Date>)
    requires
        ois_tenor_defined(start@, u@),
    ensures
        ois_end_matches(start@, u@, r),
        r matches Ok(d) ==> (ois_tenor_count(u@) > 0 ==> ymd_lt(start@, d@)),
{
    let n = char_len(u);
    if n > 0 && u.get_char(n - 1) == 'W' {
        assert(u@.subrange(0, n - 1) =~= u@.drop_last());
        match parse_signed_range(u, 0, n - 1, i64::MIN, i64::MAX) {
            None => Err(CurveError::InvalidData { reason: concat("Invalid tenor: ", u) }),
            Some(weeks) => Ok(start.add_days(weeks * 7)),
        }
    } else {
        parse_tenor_upper(start, u)
    }
}

/// Parses an OIS tenor (`"<n>Y"`, `"<n>M"` or `"<n>W"`, any case) into the
/// termination date.
///
/// A tenor whose date arithmetic would fault (a day count past the
/// calendar's range, or an integer overflow) gives an `InvalidData` error
/// reading `"Tenor out of range: "` followed by the upper-cased tenor.
pub fn parse_swap_tenor(start: &Date, tenor: &str) -> (r: CurveResult<Date>)
    ensures
        is_ascii_chars(tenor@) ==> spec_to_uppercase(tenor@) == tenor@.map_values(|c: char| ascii_upper(c)),
        ois_tenor_defined(start@, spec_to_uppercase(tenor@)) ==> ois_end_matches(
            start@,
            spec_to_uppercase(tenor@),
            r,
        ),
        !ois_tenor_defined(start@, spec_to_uppercase(tenor@)) ==> is_invalid_data(
            r,
            "Tenor out of range: "@ + spec_to_uppercase(tenor@),
        ),
        r matches Ok(d) ==> (ois_tenor_count(spec_to_uppercase(tenor@)) > 0 ==> ymd_lt(start@, d@)),
{
    let upper = to_uppercase(tenor);
    if !ois_tenor_in_range(start, upper.as_str()) {
        return Err(
            CurveError::InvalidData { reason: concat("Tenor out of range: ", upper.as_str()) },
        );
    }
    parse_swap_tenor_upper(start, upper.as_str())
}

/// An OIS tenor of `n` weeks ends `7 n` days after the start.
pub proof fn lemma_ois_week_tenor_days(start: (int, int, int), u: Seq<char>, n: int, r: CurveResult<Date>)
    requires
        valid_date(start),
        u.len() > 0,
        u.last() == 'W',
        parse_i64(u.drop_last()) == Some(n),
        add_days_in_range(start, 7 * n),
        ois_end_matches(start, u, r),
    ensures
        r matches Ok(d) && valid_date(d@) && spec_days_between(
            start.0,
            start.1,
            start.2,
            d@.0,
            d@.1,
            d@.2,
        ) == 7 * n,
{
    lemma_add_days_exists(start, 7 * n);
    assert(days_from_ce((start.0, start.1, start.2)) == days_from_ce(start));
}

} // verus!
