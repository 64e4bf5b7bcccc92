//! Market-convention-aware pieces of curve building: tenor strings,
//! futures contract codes and the choice of bootstrap method.
//!
//! A tenor such as `"3M"`, `"2Y"` or `"6W"` names a number of months; a
//! futures code such as `"SFRZ4"` names a contract (SOFR, December, a year
//! ending in 4) whose accrual period starts on the IMM date of its month.

use vstd::prelude::*;
use vstd::utf8::is_ascii_chars;
use vstd::string::*;

use crate::date::{
    add_months_defined, add_months_result, days_in_month, lemma_in_month_in_range, lemma_same_month,
    spec_weekday, valid_ymd, Date, MAX_YEAR, MIN_YEAR,
};
use crate::instruments::future::{spec_third_wednesday, FutureType};
use crate::text::{
    all_digits, char_len, digit_value, is_digit, parse_signed, parse_signed_range, spec_to_uppercase, trimmed, ascii_upper,
    starts_with, strip_trailing, strip_trailing_end, to_uppercase, trim,
};

verus! {

/// Bootstrap method to use for curve construction.
#[derive(Debug, Clone, Copy, PartialEq, Eq, Structural)]
pub enum BootstrapMethod {
    /// Sequential bootstrap - solves for each instrument iteratively.
    Sequential,
    /// Global optimization - minimizes sum of squared pricing errors.
    Global,
}

impl Default for BootstrapMethod {
    fn default() -> (r: Self)
        ensures
            r == BootstrapMethod::Sequential,
    {
        BootstrapMethod::Sequential
    }
}

/// Integer division rounding toward zero, as Rust's `/` on integers.
pub open spec fn trunc_div(a: int, b: int) -> int {
    if a >= 0 {
        a / b
    } else {
        -((-a) / b)
    }
}

/// `parse_signed` for the values of an `i32`.
pub open spec fn parse_i32(s: Seq<char>) -> Option<int> {
    parse_signed(s, i32::MIN as int, i32::MAX as int)
}

/// Months named by a trimmed, upper-cased tenor: `"<n>M"` is `n` months,
/// `"<n>Y"` is `12 n`, `"<n>W"` is `(n + 3) / 4` (four weeks to the month,
/// rounded up); repeated unit letters at the end are ignored.
pub open spec fn spec_tenor_months(t: Seq<char>) -> Option<int> {
    if t.len() > 0 && t.last() == 'M' {
        parse_i32(strip_trailing(t, 'M'))
    } else if t.len() > 0 && t.last() == 'Y' {
        match parse_i32(strip_trailing(t, 'Y')) {
            Some(n) => Some(n * 12),
            None => None,
        }
    } else if t.len() > 0 && t.last() == 'W' {
        match parse_i32(strip_trailing(t, 'W')) {
            Some(n) => Some(trunc_div(n + 3, 4)),
            None => None,
        }
    } else {
        None
    }
}

/// The month count of a tenor is computed without `i32` overflow.
pub open spec fn tenor_months_fits(t: Seq<char>) -> bool {
    if t.len() > 0 && t.last() == 'M' {
        true
    } else if t.len() > 0 && t.last() == 'Y' {
        match parse_i32(strip_trailing(t, 'Y')) {
            Some(n) => i32::MIN <= n * 12 <= i32::MAX,
            None => true,
        }
    } else if t.len() > 0 && t.last() == 'W' {
        match parse_i32(strip_trailing(t, 'W')) {
            Some(n) => n + 3 <= i32::MAX,
            None => true,
        }
    } else {
        true
    }
}

/// The normalised form of a tenor: trimmed, then upper-cased.
pub open spec fn normalized_tenor(tenor: Seq<char>) -> Seq<char> {
    spec_to_uppercase(trimmed(tenor))
}

/// An `Option<i32>` read as an optional integer.
pub open spec fn opt_i32(o: Option<i32>) -> Option<int> {
    match o {
        Some(v) => Some(v as int),
        None => None,
    }
}

/// Parses the number before the unit letter `unit` of a tenor that ends
/// with it.
fn tenor_number(t: &str, unit: char) -> (r: Option<i32>)
    ensures
        opt_i32(r) == parse_i32(strip_trailing(t@, unit)),
{
    let e = strip_trailing_end(t, unit);
    match parse_signed_range(t, 0, e, i32::MIN as i64, i32::MAX as i64) {
        Some(v) => Some(v as i32),
        None => None,
    }
}

/// Whether the month count of a normalised tenor fits in an `i32`.
pub fn tenor_months_fit(t: &str) -> (r: bool)
    ensures
        r == tenor_months_fits(t@),
{
    let n = char_len(t);
    if n == 0 {
        return true;
    }
    let last = t.get_char(n - 1);
    if last == 'M' {
        true
    } else if last == 'Y' {
        match tenor_number(t, 'Y') {
            Some(v) => {
                let m = v as i64 * 12;
                i32::MIN as i64 <= m && m <= i32::MAX as i64
            },
            None => true,
        }
    } else if last == 'W' {
        match tenor_number(t, 'W') {
            Some(v) => v as i64 + 3 <= i32::MAX as i64,
            None => true,
        }
    } else {
        true
    }
}

/// Months named by an already trimmed and upper-cased tenor.
pub fn tenor_months_normalized(t: &str) -> (r: Option<i32>)
    requires
        tenor_months_fits(t@),
    ensures
        opt_i32(r) == spec_tenor_months(t@),
{
    let n = char_len(t);
    if n == 0 {
        return None;
    }
    let last = t.get_char(n - 1);
    if last == 'M' {
        tenor_number(t, 'M')
    } else if last == 'Y' {
        match tenor_number(t, 'Y') {
            Some(num) => Some(num * 12),
            None => None,
        }
    } else if last == 'W' {
        match tenor_number(t, 'W') {
            // Approximate weeks to months (4 weeks = 1 month), rounding up
            Some(num) => Some((num + 3) / 4),
            None => None,
        }
    } else {
        None
    }
}

/// Parses a tenor string to months: the text is trimmed and upper-cased,
/// then read as `"<n>M"`, `"<n>Y"` or `"<n>W"`.
///
/// A tenor whose month count overflows an `i32` gives `None`.
pub fn parse_tenor_to_months(tenor: &str) -> (r: Option<i32>)
    ensures
        tenor_months_fits(normalized_tenor(tenor@)) ==> opt_i32(r) == spec_tenor_months(
            normalized_tenor(tenor@),
        ),
        !tenor_months_fits(normalized_tenor(tenor@)) ==> r is None,
        is_ascii_chars(trimmed(tenor@)) ==> normalized_tenor(tenor@) == trimmed(tenor@).map_values(
            |c: char| ascii_upper(c),
        ),
{
    let trimmed = trim(tenor);
    let upper = to_uppercase(trimmed);
    if !tenor_months_fit(upper.as_str()) {
        return None;
    }
    tenor_months_normalized(upper.as_str())
}

/// Tenors of an FRA: the start and end months of `start_tenor` x
/// `end_tenor`, when the start is positive and the end after it (an
/// unreadable tenor counts as 0).
pub open spec fn spec_fra_months(start: Option<int>, end: Option<int>) -> Option<(int, int)> {
    let s = match start {
        Some(v) => v,
        None => 0,
    };
    let e = match end {
        Some(v) => v,
        None => 0,
    };
    if s > 0 && e > s {
        Some((s, e))
    } else {
        None
    }
}

/// The months of an FRA given by two tenors (e.g. `"3M"`, `"6M"` for a
/// 3x6 FRA); `None` when the pair does not make a forward period.
pub fn fra_tenor_months(start_tenor: &str, end_tenor: &str) -> (r: Option<(i32, i32)>)
    ensures
        ({
            let s = if tenor_months_fits(normalized_tenor(start_tenor@)) {
                spec_tenor_months(normalized_tenor(start_tenor@))
            } else {
                None
            };
            let e = if tenor_months_fits(normalized_tenor(end_tenor@)) {
                spec_tenor_months(normalized_tenor(end_tenor@))
            } else {
                None
            };
            match r {
                Some((a, b)) => spec_fra_months(s, e) == Some((a as int, b as int)),
                None => spec_fra_months(s, e) is None,
            }
        }),
{
    let start_months = match parse_tenor_to_months(start_tenor) {
        Some(v) => v,
        None => 0,
    };
    let end_months = match parse_tenor_to_months(end_tenor) {
        Some(v) => v,
        None => 0,
    };
    if start_months > 0 && end_months > start_months {
        Some((start_months, end_months))
    } else {
        None
    }
}

/// Finds the IMM date (third Wednesday) for a given month.
pub fn find_imm_date(year: i32, month: u32) -> (r: Option<Date>)
    ensures
        r is Some <==> spec_third_wednesday(year as int, month as int) is Some,
        r matches Some(d) ==> Some(d@) == spec_third_wednesday(year as int, month as int),
{
    let first = match Date::from_ymd(year, month, 1) {
        Some(d) => d,
        None => return None,
    };

    // Find the first Wednesday (weekdays count from Monday = 0)
    let days_to_wednesday = (2 - first.weekday() as i64 + 7) % 7;
    proof {
        lemma_in_month_in_range(first@, days_to_wednesday as int);
    }
    let first_wednesday = first.add_days(days_to_wednesday);

    // Third Wednesday is 14 days later
    proof {
        lemma_in_month_in_range(first_wednesday@, 14);
    }
    Some(first_wednesday.add_days(14))
}

/// Month of a futures month code (`F` January ... `Z` December).
pub open spec fn spec_month_code(c: char) -> Option<int> {
    if c == 'H' {
        Some(3)
    } else if c == 'M' {
        Some(6)
    } else if c == 'U' {
        Some(9)
    } else if c == 'Z' {
        Some(12)
    } else if c == 'F' {
        Some(1)
    } else if c == 'G' {
        Some(2)
    } else if c == 'J' {
        Some(4)
    } else if c == 'K' {
        Some(5)
    } else if c == 'N' {
        Some(7)
    } else if c == 'Q' {
        Some(8)
    } else if c == 'V' {
        Some(10)
    } else if c == 'X' {
        Some(11)
    } else {
        None
    }
}

/// `s` begins with `p`.
pub open spec fn has_prefix(s: Seq<char>, p: Seq<char>) -> bool {
    p.len() <= s.len() && s.subrange(0, p.len() as int) == p
}

/// Future type named by a contract code's prefix: `SFR` or `SR` is SOFR
/// 3M, `ED` is Eurodollar, anything else SOFR 3M.
pub open spec fn spec_contract_type(s: Seq<char>) -> FutureType {
    if has_prefix(s, "SFR"@) || has_prefix(s, "SR"@) {
        FutureType::SOFR3M
    } else if has_prefix(s, "ED"@) {
        FutureType::Eurodollar
    } else {
        FutureType::SOFR3M
    }
}

/// Year and month of a contract code of `byte_len` bytes, read against a
/// reference year: the month code is the character at position
/// `byte_len - 2`, the year is the reference year's decade plus the last
/// character's digit.
pub open spec fn spec_contract_year_month(s: Seq<char>, byte_len: int, ref_year: int) -> Option<
    (int, int),
> {
    if byte_len < 4 || byte_len - 2 >= s.len() || s.len() == 0 || !is_digit(s.last()) {
        None
    } else {
        match spec_month_code(s[byte_len - 2]) {
            Some(m) => Some((trunc_div(ref_year, 10) * 10 + digit_value(s.last()), m)),
            None => None,
        }
    }
}

/// Terms of a futures contract: its type, its IMM date (last trading day
/// and accrual start) and its accrual end three months later.
pub open spec fn spec_future_contract(s: Seq<char>, byte_len: int, ref_year: int) -> Option<
    (FutureType, (int, int, int), (int, int, int)),
> {
    match spec_contract_year_month(s, byte_len, ref_year) {
        Some((y, m)) => match spec_third_wednesday(y, m) {
            Some(imm) => match add_months_result(imm, 3) {
                Some(end) => Some((spec_contract_type(s), imm, end)),
                None => None,
            },
            None => None,
        },
        None => None,
    }
}

/// Reading a contract code runs without fault: the accrual end is three
/// months after an IMM date whose month index is representable.
pub open spec fn future_contract_defined(s: Seq<char>, byte_len: int, ref_year: int) -> bool {
    match spec_contract_year_month(s, byte_len, ref_year) {
        Some((y, m)) => valid_ymd(y, m, 1) ==> add_months_defined((y, m, 1), 3),
        None => true,
    }
}

/// The dates and type of a rate future named by its contract code.
#[derive(Debug, Clone, Copy, PartialEq, Eq)]
pub struct FutureContract {
    /// Future type.
    pub future_type: FutureType,
    /// Last trading date (the IMM date).
    pub last_trading_date: Date,
    /// Accrual period start (the IMM date).
    pub accrual_start: Date,
    /// Accrual period end, three months after the start.
    pub accrual_end: Date,
}

/// Year and month named by a contract code, as `spec_contract_year_month`
/// reads them.
fn contract_year_month(contract: &str, reference_date: &Date) -> (r: Option<(i32, u32)>)
    ensures
        match spec_contract_year_month(contract@, contract.len() as int, reference_date@.0) {
            Some((y, m)) => r == Some((y as i32, m as u32)) && y == (y as i32) && 1 <= m <= 12,
            None => r is None,
        },
{
    let byte_len = contract.len();
    if byte_len < 4 {
        return None;
    }
    let n = char_len(contract);
    if byte_len - 2 >= n {
        return None;
    }
    let month_code = contract.get_char(byte_len - 2);
    let last = contract.get_char(n - 1);
    if !('0' <= last && last <= '9') {
        return None;
    }
    let year_digit = (last as u32 - '0' as u32) as i32;

    let month: u32 = if month_code == 'H' {
        3
    } else if month_code == 'M' {
        6
    } else if month_code == 'U' {
        9
    } else if month_code == 'Z' {
        12
    } else if month_code == 'F' {
        1
    } else if month_code == 'G' {
        2
    } else if month_code == 'J' {
        4
    } else if month_code == 'K' {
        5
    } else if month_code == 'N' {
        7
    } else if month_code == 'Q' {
        8
    } else if month_code == 'V' {
        10
    } else if month_code == 'X' {
        11
    } else {
        return None;
    };

    // Determine year (assume current decade)
    let current_year = reference_date.year();
    let decade = (current_year / 10) * 10;
    let year = decade + year_digit;
    proof {
        assert(decade as int == trunc_div(current_year as int, 10) * 10);
        assert(spec_contract_year_month(contract@, byte_len as int, current_year as int) == Some(
            (year as int, month as int),
        ));
    }
    Some((year, month))
}

/// Whether `parse_future_contract` can read `contract` against
/// `reference_date` without fault (its precondition).
pub fn future_contract_in_range(contract: &str, reference_date: &Date) -> (r: bool)
    ensures
        r == future_contract_defined(contract@, contract.len() as int, reference_date@.0),
{
    match contract_year_month(contract, reference_date) {
        Some((year, month)) => {
            if year < MIN_YEAR || year > MAX_YEAR {
                true
            } else {
                let t: i64 = (year as i64) * 12 + (month as i64) - 1 + 3;
                (i32::MIN as i64) <= t && t <= (i32::MAX as i64) && (t >= 0 || t % 12 == 0)
            }
        },
        None => true,
    }
}

/// Parses a futures contract code such as `"SFRZ4"` (SOFR, December, year
/// ending in 4 within the reference date's decade).
///
/// Format: `{INDEX}{MONTH}{YEAR}` with INDEX `SFR`/`SR` (SOFR) or `ED`
/// (Eurodollar), MONTH one of `F G H J K M N Q U V X Z`, YEAR one digit.
pub fn parse_future_contract(contract: &str, reference_date: &Date) -> (r: Option<FutureContract>)
    requires
        future_contract_defined(contract@, contract.len() as int, reference_date@.0),
    ensures
        match spec_future_contract(contract@, contract.len() as int, reference_date@.0) {
            Some((t, imm, end)) => r matches Some(c) && c.future_type == t && c.last_trading_date@
                == imm && c.accrual_start@ == imm && c.accrual_end@ == end,
            None => r is None,
        },
{
    let (year, month) = match contract_year_month(contract, reference_date) {
        Some(ym) => ym,
        None => return None,
    };

    // Find the IMM date (third Wednesday of the month)
    let imm_date = match find_imm_date(year, month) {
        Some(d) => d,
        None => return None,
    };

    // Accrual dates for SOFR 3M future
    let accrual_start = imm_date;
    proof {
        assert(valid_ymd(year as int, month as int, 1));
        assert(add_months_defined((year as int, month as int, 1), 3));
        assert(imm_date@.0 == year && imm_date@.1 == month);
        assert(add_months_defined(imm_date@, 3));
    }
    let accrual_end = match imm_date.add_months(3) {
        Ok(d) => d,
        Err(_) => return None,
    };

    // Determine future type from contract prefix
    let future_type = if starts_with(contract, "SFR") || starts_with(contract, "SR") {
        FutureType::SOFR3M
    } else if starts_with(contract, "ED") {
        FutureType::Eurodollar
    } else {
        FutureType::SOFR3M
    };

    Some(FutureContract { future_type, last_trading_date: imm_date, accrual_start, accrual_end })
}

/// A tenor of `n` years is `12 n` months, one of `n` months is `n`, and
/// one of `n` weeks is `(n + 3) / 4` months, for any run of digits `n`.
pub proof fn lemma_tenor_units(s: Seq<char>)
    requires
        s.len() > 0,
        all_digits(s),
    ensures
        spec_tenor_months(s.push('M')) == parse_i32(s),
        spec_tenor_months(s.push('Y')) == (match parse_i32(s) {
            Some(n) => Some(n * 12),
            None => None,
        }),
        spec_tenor_months(s.push('W')) == (match parse_i32(s) {
            Some(n) => Some(trunc_div(n + 3, 4)),
            None => None,
        }),
{
    assert(is_digit(s.last()));
    assert(s.push('M').drop_last() =~= s);
    assert(s.push('Y').drop_last() =~= s);
    assert(s.push('W').drop_last() =~= s);
    assert(strip_trailing(s, 'M') == s);
    assert(strip_trailing(s, 'Y') == s);
    assert(strip_trailing(s, 'W') == s);
}

/// The month letters of futures codes follow the standard table: F January,
/// G February, H March, J April, K May, M June, N July, Q August,
/// U September, V October, X November, Z December; no other character
/// names a month.
pub proof fn lemma_month_code_table(c: char)
    ensures
        spec_month_code('F') == Some(1int),
        spec_month_code('G') == Some(2int),
        spec_month_code('H') == Some(3int),
        spec_month_code('J') == Some(4int),
        spec_month_code('K') == Some(5int),
        spec_month_code('M') == Some(6int),
        spec_month_code('N') == Some(7int),
        spec_month_code('Q') == Some(8int),
        spec_month_code('U') == Some(9int),
        spec_month_code('V') == Some(10int),
        spec_month_code('X') == Some(11int),
        spec_month_code('Z') == Some(12int),
        !(c == 'F' || c == 'G' || c == 'H' || c == 'J' || c == 'K' || c == 'M' || c == 'N' || c
            == 'Q' || c == 'U' || c == 'V' || c == 'X' || c == 'Z') ==> spec_month_code(c) is None,
{
}

/// The terms a contract code names: the IMM date falls in the month its
/// month letter names, in the year made of the reference year's decade and
/// the code's last digit; it is a Wednesday between the 15th and the 21st;
/// and the accrual ends on the same day of the month three months later.
pub proof fn lemma_contract_terms(s: Seq<char>, byte_len: int, ref_year: int)
    ensures
        spec_future_contract(s, byte_len, ref_year) matches Some((t, imm, end)) ==> {
            &&& spec_month_code(s[byte_len - 2]) == Some(imm.1)
            &&& imm.0 == trunc_div(ref_year, 10) * 10 + digit_value(s.last())
            &&& spec_weekday(imm.0, imm.1, imm.2) == 2
            &&& 15 <= imm.2 <= 21
            &&& end.0 * 12 + end.1 == imm.0 * 12 + imm.1 + 3
            &&& end.2 == imm.2
        },
{
    if let Some((t, imm, end)) = spec_future_contract(s, byte_len, ref_year) {
        let (y, m) = spec_contract_year_month(s, byte_len, ref_year)->0;
        lemma_same_month((y, m, 1), imm.2);
        assert(days_in_month(imm.0, imm.1) >= 28);
        let tm = imm.0 * 12 + imm.1 - 1 + 3;
        assert(end.0 * 12 + end.1 - 1 == tm);
    }
}

} // verus!
