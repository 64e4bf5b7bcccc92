use convex_curves::basis::{DayCountConvention, Frequency};
use convex_curves::conventions::{
    chf, conventions_for_code, eur, gbp, get_conventions, jpy, supported_currencies, usd,
};

#[test]
fn test_supported_currencies() {
    let currencies = supported_currencies();
    assert!(currencies.contains(&"USD"));
    assert!(currencies.contains(&"EUR"));
    assert!(currencies.contains(&"GBP"));
}

#[test]
fn test_usd_conventions() {
    let summary = usd::summary();
    assert_eq!(summary.currency, "USD");
    assert_eq!(summary.spot_days, 2);
    assert_eq!(summary.overnight_index, "SOFR");
}

#[test]
fn test_eur_conventions() {
    let summary = eur::summary();
    assert_eq!(summary.currency, "EUR");
    assert_eq!(summary.spot_days, 2);
    assert_eq!(summary.overnight_index, "ESTR");
    assert_eq!(summary.ibor_index, Some("EURIBOR 6M"));
}

#[test]
fn test_gbp_conventions() {
    let summary = gbp::summary();
    assert_eq!(summary.currency, "GBP");
    assert_eq!(summary.spot_days, 0); // Same-day settlement
    assert_eq!(summary.overnight_index, "SONIA");
}

#[test]
fn test_get_conventions() {
    assert!(get_conventions("USD").is_some());
    assert!(get_conventions("usd").is_some()); // Case insensitive
    assert!(get_conventions("XXX").is_none());
}

#[test]
fn every_supported_currency_has_its_conventions() {
    for code in supported_currencies() {
        let summary = get_conventions(code).unwrap();
        assert_eq!(summary.currency, *code);
    }
    assert_eq!(supported_currencies().len(), 5);
}

#[test]
fn exact_code_lookup_is_case_sensitive() {
    assert!(conventions_for_code("JPY").is_some());
    assert!(conventions_for_code("jpy").is_none());
    assert_eq!(get_conventions("jPy").unwrap().currency, "JPY");
    assert!(get_conventions("").is_none());
    assert!(get_conventions("USDX").is_none());
}

#[test]
fn jpy_and_chf_conventions() {
    let j = jpy::summary();
    assert_eq!(j.swap_fixed_freq, Frequency::SemiAnnual);
    assert_eq!(j.deposit_day_count, DayCountConvention::Act365Fixed);
    assert_eq!(j.ibor_index, Some("TIBOR 6M"));
    assert_eq!(j.calendar_name, "Japan");
    let c = chf::summary();
    assert_eq!(c.overnight_index, "SARON");
    assert_eq!(c.swap_fixed_day_count, DayCountConvention::Thirty360E);
    assert_eq!(c.ibor_index, None);
    assert_eq!(c.calendar_name, "Zurich");
    assert_eq!(usd::OIS_FIXED_FREQ, Frequency::Annual);
    assert_eq!(eur::summary().calendar_name, "TARGET2");
}

#[test]
fn frequency_periods() {
    for f in [Frequency::Annual, Frequency::SemiAnnual, Frequency::Quarterly, Frequency::Monthly] {
        assert_eq!(f.months_per_period() * f.periods_per_year(), 12);
        assert!(!f.is_zero());
    }
    assert_eq!(Frequency::Zero.months_per_period(), 0);
    assert!(Frequency::Zero.is_zero());
    assert_eq!(Frequency::default(), Frequency::SemiAnnual);
}
