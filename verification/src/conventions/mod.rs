//! Currency-specific market conventions.
//!
//! Standard settlement days, day count conventions, swap frequencies,
//! overnight and IBOR indices and holiday calendar names for USD (SOFR),
//! EUR (ESTR/EURIBOR), GBP (SONIA), JPY (TONAR) and CHF (SARON).

pub mod chf;
pub mod eur;
pub mod gbp;
pub mod jpy;
pub mod usd;

use vstd::prelude::*;
use vstd::utf8::is_ascii_chars;

use crate::basis::{DayCountConvention, Frequency};
use crate::text::{ascii_upper, equals, spec_to_uppercase, to_uppercase};

verus! {

/// Summary of market conventions for a currency.
#[derive(Debug, Clone, Copy)]
pub struct ConventionSummary {
    /// ISO currency code.
    pub currency: &'static str,
    /// Spot settlement days.
    pub spot_days: u32,
    /// Deposit day count convention.
    pub deposit_day_count: DayCountConvention,
    /// Swap fixed leg frequency.
    pub swap_fixed_freq: Frequency,
    /// Swap fixed leg day count.
    pub swap_fixed_day_count: DayCountConvention,
    /// Swap float leg frequency.
    pub swap_float_freq: Frequency,
    /// Overnight index name.
    pub overnight_index: &'static str,
    /// IBOR index name (if applicable).
    pub ibor_index: Option<&'static str>,
    /// Calendar name.
    pub calendar_name: &'static str,
}

/// The codes of the supported currencies, in order.
pub open spec fn spec_supported_codes() -> Seq<Seq<char>> {
    seq!["USD"@, "EUR"@, "GBP"@, "JPY"@, "CHF"@]
}

/// Conventions of an exact (already upper-cased) currency code.
pub open spec fn spec_conventions_match(code: Seq<char>, r: Option<ConventionSummary>) -> bool {
    if code == "USD"@ {
        r matches Some(s) && usd::is_summary(s)
    } else if code == "EUR"@ {
        r matches Some(s) && eur::is_summary(s)
    } else if code == "GBP"@ {
        r matches Some(s) && gbp::is_summary(s)
    } else if code == "JPY"@ {
        r matches Some(s) && jpy::is_summary(s)
    } else if code == "CHF"@ {
        r matches Some(s) && chf::is_summary(s)
    } else {
        r is None
    }
}

/// Returns the convention summary for an exact, upper-case currency code.
pub fn conventions_for_code(code: &str) -> (r: Option<ConventionSummary>)
    ensures
        spec_conventions_match(code@, r),
{
    if equals(code, "USD") {
        Some(usd::summary())
    } else if equals(code, "EUR") {
        Some(eur::summary())
    } else if equals(code, "GBP") {
        Some(gbp::summary())
    } else if equals(code, "JPY") {
        Some(jpy::summary())
    } else if equals(code, "CHF") {
        Some(chf::summary())
    } else {
        None
    }
}

/// Returns convention summary for a currency code; the code is upper-cased
/// first, so `"usd"` finds the USD conventions.
pub fn get_conventions(currency: &str) -> (r: Option<ConventionSummary>)
    ensures
        is_ascii_chars(currency@) ==> spec_to_uppercase(currency@) == currency@.map_values(|c: char| ascii_upper(c)),
        spec_conventions_match(spec_to_uppercase(currency@), r),
{
    let upper = to_uppercase(currency);
    conventions_for_code(upper.as_str())
}

/// Lists all supported currencies.
pub fn supported_currencies() -> (r: &'static [&'static str])
    ensures
        r@.len() == 5,
        forall|i: int| 0 <= i < 5 ==> (#[trigger] r@[i])@ == spec_supported_codes()[i],
{
    let r: &'static [&'static str] = &["USD", "EUR", "GBP", "JPY", "CHF"];
    r
}

/// The conventions found for a supported code are that currency's
/// published constants: looking up `"EUR"` gives a summary whose swap
/// float frequency is `eur::SWAP_FLOAT_FREQ`, and likewise for every field
/// and every currency.
pub proof fn lemma_conventions_use_constants(code: Seq<char>, r: Option<ConventionSummary>)
    requires
        spec_conventions_match(code, r),
    ensures
        code == "USD"@ ==> (r matches Some(s) && s.spot_days == usd::SPOT_DAYS && s.deposit_day_count == usd::DEPOSIT_DAY_COUNT && s.swap_fixed_freq == usd::SWAP_FIXED_FREQ && s.swap_fixed_day_count == usd::SWAP_FIXED_DAY_COUNT && s.swap_float_freq == usd::SWAP_FLOAT_FREQ),
        code == "EUR"@ ==> (r matches Some(s) && s.spot_days == eur::SPOT_DAYS && s.deposit_day_count == eur::DEPOSIT_DAY_COUNT && s.swap_fixed_freq == eur::SWAP_FIXED_FREQ && s.swap_fixed_day_count == eur::SWAP_FIXED_DAY_COUNT && s.swap_float_freq == eur::SWAP_FLOAT_FREQ),
        code == "GBP"@ ==> (r matches Some(s) && s.spot_days == gbp::SPOT_DAYS && s.deposit_day_count == gbp::DEPOSIT_DAY_COUNT && s.swap_fixed_freq == gbp::SWAP_FIXED_FREQ && s.swap_fixed_day_count == gbp::SWAP_FIXED_DAY_COUNT && s.swap_float_freq == gbp::SWAP_FLOAT_FREQ),
        code == "JPY"@ ==> (r matches Some(s) && s.spot_days == jpy::SPOT_DAYS && s.deposit_day_count == jpy::DEPOSIT_DAY_COUNT && s.swap_fixed_freq == jpy::SWAP_FIXED_FREQ && s.swap_fixed_day_count == jpy::SWAP_FIXED_DAY_COUNT && s.swap_float_freq == jpy::SWAP_FLOAT_FREQ),
        code == "CHF"@ ==> (r matches Some(s) && s.spot_days == chf::SPOT_DAYS && s.deposit_day_count == chf::DEPOSIT_DAY_COUNT && s.swap_fixed_freq == chf::SWAP_FIXED_FREQ && s.swap_fixed_day_count == chf::SWAP_FIXED_DAY_COUNT && s.swap_float_freq == chf::SWAP_FLOAT_FREQ),
{
    reveal_strlit("USD");
    reveal_strlit("EUR");
    reveal_strlit("GBP");
    reveal_strlit("JPY");
    reveal_strlit("CHF");
    assert("EUR"@[0] != "USD"@[0]);
    assert("GBP"@[0] != "USD"@[0] && "GBP"@[0] != "EUR"@[0]);
    assert("JPY"@[0] != "USD"@[0] && "JPY"@[0] != "EUR"@[0] && "JPY"@[0] != "GBP"@[0]);
    if let Some(s) = r {
        if code == "USD"@ {
            usd::lemma_summary_uses_constants(s);
        } else if code == "EUR"@ {
            eur::lemma_summary_uses_constants(s);
        } else if code == "GBP"@ {
            gbp::lemma_summary_uses_constants(s);
        } else if code == "JPY"@ {
            jpy::lemma_summary_uses_constants(s);
        } else if code == "CHF"@ {
            chf::lemma_summary_uses_constants(s);
        }
    }
}

/// Every supported currency has conventions, and they carry its code; the
/// supported codes are distinct.
pub proof fn lemma_supported_currencies_have_conventions(i: int, r: Option<ConventionSummary>)
    requires
        0 <= i < 5,
        spec_conventions_match(spec_supported_codes()[i], r),
    ensures
        r matches Some(s) && s.currency@ == spec_supported_codes()[i],
        forall|j: int| 0 <= j < 5 && j != i ==> spec_supported_codes()[j] != spec_supported_codes()[i],
{
    reveal_strlit("USD");
    reveal_strlit("EUR");
    reveal_strlit("GBP");
    reveal_strlit("JPY");
    reveal_strlit("CHF");
    let codes = spec_supported_codes();
    assert forall|j: int| 0 <= j < 5 && j != i implies codes[j] != codes[i] by {
        assert(codes[j][0] != codes[i][0]);
    }
}

} // verus!
