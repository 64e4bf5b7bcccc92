//! Money market deposits: the maturity a deposit tenor names.
//!
//! A deposit runs from its spot date to the date its tenor names:
//! `ON`/`O/N` (one day), `TN`/`T/N` (two), `SN`/`S/N` (three), or a count
//! of weeks, months or years (`1W`, `3M`, `1Y`).

use vstd::prelude::*;
use vstd::utf8::is_ascii_chars;
use vstd::string::*;

use crate::date::{
    add_days_in_range, add_months_defined, add_months_result, add_years_defined, add_years_result,
    lemma_add_months_direction, lemma_add_years_direction, spec_add_days, spec_add_months_error,
    spec_add_years_error, ymd_lt, Date, days_from_ce, lemma_add_days_exists, spec_days_between, valid_date,
};
use crate::error::{CurveError, CurveResult};
use crate::text::{ascii_upper, char_len, concat, equals, parse_signed, parse_signed_range, spec_to_uppercase, to_uppercase,};

verus! {

/// `parse_signed` for the values of an `i64`.
pub open spec fn parse_i64(s: Seq<char>) -> Option<int> {
    parse_signed(s, i64::MIN as int, i64::MAX as int)
}

/// Days named by the short tenors `ON`, `TN`, `SN` (with or without `/`).
pub open spec fn special_tenor_days(u: Seq<char>) -> Option<int> {
    if u == "ON"@ || u == "O/N"@ {
        Some(1)
    } else if u == "TN"@ || u == "T/N"@ {
        Some(2)
    } else if u == "SN"@ || u == "S/N"@ {
        Some(3)
    } else {
        None
    }
}

/// The tenor ends with a unit letter `W`, `M` or `Y`.
pub open spec fn has_unit(u: Seq<char>) -> bool {
    u.len() > 0 && (u.last() == 'W' || u.last() == 'M' || u.last() == 'Y')
}

/// Reading an upper-cased deposit tenor from `start` runs without fault:
/// the day count of a week tenor fits in an `i64`, and the date arithmetic
/// stays within its preconditions.
pub open spec fn deposit_tenor_defined(start: (int, int, int), u: Seq<char>) -> bool {
    match special_tenor_days(u) {
        Some(k) => add_days_in_range(start, k),
        None => if has_unit(u) {
            match parse_i64(u.drop_last()) {
                None => true,
                Some(n) => if u.last() == 'W' {
                    i64::MIN <= n * 7 <= i64::MAX && add_days_in_range(start, n * 7)
                } else if u.last() == 'M' {
                    add_months_defined(start, (n as i32) as int)
                } else {
                    add_years_defined(start, (n as i32) as int)
                },
            }
        } else {
            true
        },
    }
}

/// `r` is an `InvalidData` error whose reason is `text`.
pub open spec fn is_invalid_data(r: CurveResult<Date>, text: Seq<char>) -> bool {
    r matches Err(CurveError::InvalidData { reason }) && reason@ == text
}

/// What a deposit tenor gives from `start`: the maturity, or the error.
pub open spec fn deposit_end_matches(start: (int, int, int), u: Seq<char>, r: CurveResult<Date>) -> bool {
    match special_tenor_days(u) {
        Some(k) => r matches Ok(d) && d@ == spec_add_days(start.0, start.1, start.2, k),
        None => if has_unit(u) {
            let num = u.drop_last();
            match parse_i64(num) {
                None => is_invalid_data(r, "Invalid tenor number: "@ + num),
                Some(n) => if u.last() == 'W' {
                    r matches Ok(d) && d@ == spec_add_days(start.0, start.1, start.2, n * 7)
                } else if u.last() == 'M' {
                    let k = (n as i32) as int;
                    match add_months_result(start, k) {
                        Some(v) => r matches Ok(d) && d@ == v,
                        None => is_invalid_data(
                            r,
                            "Failed to add months: "@ + spec_add_months_error(
                                start.0,
                                start.1,
                                start.2,
                                k,
                            ),
                        ),
                    }
                } else {
                    let k = (n as i32) as int;
                    match add_years_result(start, k) {
                        Some(v) => r matches Ok(d) && d@ == v,
                        None => is_invalid_data(
                            r,
                            "Failed to add years: "@ + spec_add_years_error(
                                start.0,
                                start.1,
                                start.2,
                                k,
                            ),
                        ),
                    }
                },
            }
        } else {
            is_invalid_data(r, "Invalid tenor format: "@ + u)
        },
    }
}

/// The signed number of days, weeks, months or years a deposit tenor
/// counts (0 for an unreadable tenor); months and years as the `i32` the
/// date arithmetic receives.
pub open spec fn deposit_tenor_count(u: Seq<char>) -> int {
    match special_tenor_days(u) {
        Some(k) => k,
        None => if has_unit(u) {
            match parse_i64(u.drop_last()) {
                Some(n) => if u.last() == 'W' {
                    n
                } else {
                    (n as i32) as int
                },
                None => 0,
            }
        } else {
            0
        },
    }
}

/// What reading `tenor` (any case) as a deposit tenor from `start` gives:
/// the result for the upper-cased tenor, or, where its date arithmetic
/// would fault (a day count past the calendar's range, or an integer
/// overflow), an `InvalidData` error reading `"Tenor out of range: "`
/// and the upper-cased tenor.
pub open spec fn deposit_tenor_result(start: (int, int, int), tenor: Seq<char>, r: CurveResult<Date>) -> bool {
    let u = spec_to_uppercase(tenor);
    if deposit_tenor_defined(start, u) {
        deposit_end_matches(start, u, r)
    } else {
        is_invalid_data(r, "Tenor out of range: "@ + u)
    }
}

/// Days of a short tenor, if `u` is one.
fn special_days(u: &str) -> (r: Option<i64>)
    ensures
        match special_tenor_days(u@) {
            Some(k) => r == Some(k as i64),
            None => r is None,
        },
{
    if equals(u, "ON") || equals(u, "O/N") {
        Some(1)
    } else if equals(u, "TN") || equals(u, "T/N") {
        Some(2)
    } else if equals(u, "SN") || equals(u, "S/N") {
        Some(3)
    } else {
        None
    }
}

/// Whether reading the upper-cased tenor `u` from `start` is within
/// `parse_tenor_upper`'s precondition.
pub fn deposit_tenor_in_range(start: &Date, u: &str) -> (r: bool)
    ensures
        r == deposit_tenor_defined(start@, u@),
{
    match special_days(u) {
        Some(k) => start.can_add_days(k),
        None => {
            let n = char_len(u);
            if n == 0 {
                return true;
            }
            let unit = u.get_char(n - 1);
            if !(unit == 'W' || unit == 'M' || unit == 'Y') {
                return true;
            }
            assert(u@.subrange(0, n - 1) =~= u@.drop_last());
            match parse_signed_range(u, 0, n - 1, i64::MIN, i64::MAX) {
                None => true,
                Some(num) => {
                    if unit == 'W' {
                        let days = (num as i128) * 7;
                        if days < i64::MIN as i128 || days > i64::MAX as i128 {
                            false
                        } else {
                            start.can_add_days(days as i64)
                        }
                    } else if unit == 'M' {
                        start.can_add_months(num as i32)
                    } else {
                        start.can_add_years(num as i32)
                    }
                },
            }
        },
    }
}

/// The maturity named by an upper-cased deposit tenor `u` from `start`.
pub fn parse_tenor_upper(start: &Date, u: &str) -> (r: CurveResult<Date>)
    requires
        deposit_tenor_defined(start@, u@),
    ensures
        deposit_end_matches(start@, u@, r),
        r matches Ok(d) ==> (deposit_tenor_count(u@) > 0 ==> ymd_lt(start@, d@)),
{
    match special_days(u) {
        Some(k) => Ok(start.add_days(k)),
        None => {
            // Parse numeric tenor like "1W", "3M", "1Y"
            let n = char_len(u);
            if n == 0 {
                return Err(CurveError::InvalidData { reason: concat("Invalid tenor format: ", u) });
            }
            let unit = u.get_char(n - 1);
            if !(unit == 'W' || unit == 'M' || unit == 'Y') {
                return Err(CurveError::InvalidData { reason: concat("Invalid tenor format: ", u) });
            }
            let num_str = u.substring_char(0, n - 1);
            assert(num_str@ =~= u@.drop_last());
            let num = match parse_signed_range(num_str, 0, n - 1, i64::MIN, i64::MAX) {
                Some(v) => v,
                None => {
                    assert(num_str@.subrange(0, n - 1) =~= num_str@);
                    return Err(
                        CurveError::InvalidData {
                            reason: concat("Invalid tenor number: ", num_str),
                        },
                    );
                },
            };
            assert(num_str@.subrange(0, n - 1) =~= num_str@);
            if unit == 'W' {
                Ok(start.add_days(num * 7))
            } else if unit == 'M' {
                match start.add_months(num as i32) {
                    Ok(d) => {
                        proof {
                            lemma_add_months_direction(start@, (num as i32) as int);
                        }
                        Ok(d)
                    },
                    Err(e) => Err(
                        CurveError::InvalidData {
                            reason: concat("Failed to add months: ", e.message.as_str()),
                        },
                    ),
                }
            } else {
                match start.add_years(num as i32) {
                    Ok(d) => {
                        proof {
                            lemma_add_years_direction(start@, (num as i32) as int);
                        }
                        Ok(d)
                    },
                    Err(e) => Err(
                        CurveError::InvalidData {
                            reason: concat("Failed to add years: ", e.message.as_str()),
                        },
                    ),
                }
            }
        },
    }
}

/// Parses a deposit tenor string and returns the maturity: the tenor is
/// upper-cased, then read as `ON`/`TN`/`SN` or a count of weeks, months or
/// years.
///
/// A tenor whose date arithmetic would fault (a day count past the
/// calendar's range, or an integer overflow) gives an `InvalidData` error reading `"Tenor out of range: "`
/// followed by the upper-cased tenor.
pub fn parse_tenor(start: &Date, tenor: &str) -> (r: CurveResult<Date>)
    ensures
        is_ascii_chars(tenor@) ==> spec_to_uppercase(tenor@) == tenor@.map_values(|c: char| ascii_upper(c)),
        deposit_tenor_result(start@, tenor@, r),
        r matches Ok(d) ==> (deposit_tenor_count(spec_to_uppercase(tenor@)) > 0 ==> ymd_lt(
            start@,
            d@,
        )),
{
    let upper = to_uppercase(tenor);
    if !deposit_tenor_in_range(start, upper.as_str()) {
        return Err(
            CurveError::InvalidData { reason: concat("Tenor out of range: ", upper.as_str()) },
        );
    }
    parse_tenor_upper(start, upper.as_str())
}

/// The short tenors are fixed day counts, with or without the `/`: from
/// any start, a tenor that upper-cases to `ON` or `O/N` ends one day
/// later, `TN` or `T/N` two days later and `SN` or `S/N` three days later.
pub proof fn lemma_short_tenor_days(
    start: (int, int, int),
    tenor: Seq<char>,
    k: int,
    r: CurveResult<Date>,
)
    requires
        valid_date(start),
        ({
            let u = spec_to_uppercase(tenor);
            ||| k == 1 && (u == "ON"@ || u == "O/N"@)
            ||| k == 2 && (u == "TN"@ || u == "T/N"@)
            ||| k == 3 && (u == "SN"@ || u == "S/N"@)
        }),
        add_days_in_range(start, k),
        deposit_tenor_result(start, tenor, r),
    ensures
        r matches Ok(d) && valid_date(d@) && spec_days_between(
            start.0,
            start.1,
            start.2,
            d@.0,
            d@.1,
            d@.2,
        ) == k,
{
    reveal_strlit("ON");
    reveal_strlit("O/N");
    reveal_strlit("TN");
    reveal_strlit("T/N");
    reveal_strlit("SN");
    reveal_strlit("S/N");
    let u = spec_to_uppercase(tenor);
    assert(special_tenor_days(u) == Some(k)) by {
        assert("ON"@ != "TN"@ && "ON"@ != "SN"@ && "TN"@ != "SN"@) by {
            assert("ON"@[0] != "TN"@[0] && "ON"@[0] != "SN"@[0] && "TN"@[0] != "SN"@[0]);
        }
        assert("O/N"@[0] != "TN"@[0] && "O/N"@[0] != "SN"@[0] && "T/N"@[0] != "SN"@[0]);
        assert("O/N"@ != "TN"@ && "O/N"@ != "T/N"@ && "O/N"@ != "SN"@ && "O/N"@ != "S/N"@);
        assert("T/N"@ != "ON"@ && "T/N"@ != "SN"@ && "T/N"@ != "S/N"@);
        assert("S/N"@ != "ON"@ && "S/N"@ != "TN"@);
    }
    lemma_add_days_exists(start, k);
    let d = spec_add_days(start.0, start.1, start.2, k);
    assert(days_from_ce((start.0, start.1, start.2)) == days_from_ce(start));
}

/// A deposit tenor of `n` weeks ends `7 n` days after the start.
pub proof fn lemma_week_tenor_days(start: (int, int, int), u: Seq<char>, n: int, r: CurveResult<Date>)
    requires
        valid_date(start),
        u.len() > 0,
        u.last() == 'W',
        parse_i64(u.drop_last()) == Some(n),
        add_days_in_range(start, 7 * n),
        deposit_end_matches(start, u, r),
    ensures
        r matches Ok(d) && valid_date(d@) && spec_days_between(
            start.0,
            start.1,
            start.2,
            d@.0,
            d@.1,
            d@.2,
        ) == 7 * n,
{
    reveal_strlit("ON");
    reveal_strlit("O/N");
    reveal_strlit("TN");
    reveal_strlit("T/N");
    reveal_strlit("SN");
    reveal_strlit("S/N");
    assert(u != "ON"@ && u != "O/N"@ && u != "TN"@ && u != "T/N"@ && u != "SN"@ && u != "S/N"@);
    lemma_add_days_exists(start, 7 * n);
    assert(days_from_ce((start.0, start.1, start.2)) == days_from_ce(start));
}

} // verus!
