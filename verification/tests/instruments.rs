use convex_curves::instruments::future::{imm_date, next_imm_dates, FutureType};
use convex_curves::instruments::quotes::{BondQuoteType, QuoteCheck, QuoteType, RateQuoteType};
use convex_curves::instruments::{InstrumentType, RateIndex};

#[test]
fn test_future_type() {
    assert_eq!(FutureType::SOFR1M.tenor_months(), 1);
    assert_eq!(FutureType::SOFR3M.tenor_months(), 3);
    assert_eq!(FutureType::Eurodollar.tenor_months(), 3);
}

#[test]
fn test_instrument_type_ordering() {
    // Deposits should sort before FRAs, which sort before Swaps
    assert!(InstrumentType::Deposit < InstrumentType::FRA);
    assert!(InstrumentType::FRA < InstrumentType::Swap);
    assert!(InstrumentType::Swap < InstrumentType::TreasuryBond);
}

#[test]
fn test_rate_index() {
    let sofr = RateIndex::sofr_3m();
    assert_eq!(sofr.name, "SOFR");
    assert_eq!(sofr.tenor_months, 3);
    assert_eq!(sofr.display_text(), "SOFR 3M");
}

#[test]
fn test_rate_index_overnight() {
    let sofr = RateIndex::sofr();
    assert_eq!(sofr.tenor_months, 0);
    assert_eq!(sofr.display_text(), "SOFR");
}

#[test]
fn test_bond_quote_type_is_price() {
    assert!(BondQuoteType::CleanPrice.is_price());
    assert!(BondQuoteType::DirtyPrice.is_price());
    assert!(!BondQuoteType::YieldToMaturity.is_price());
    assert!(!BondQuoteType::DiscountRate.is_price());
}

#[test]
fn test_bond_quote_type_is_rate() {
    assert!(!BondQuoteType::CleanPrice.is_rate());
    assert!(!BondQuoteType::DirtyPrice.is_rate());
    assert!(BondQuoteType::YieldToMaturity.is_rate());
    assert!(BondQuoteType::DiscountRate.is_rate());
}

#[test]
fn test_imm_date() {
    // March 2025: 3rd Wednesday is March 19
    let date = imm_date(2025, 3).unwrap();
    assert_eq!(date.day(), 19);

    // June 2025: 3rd Wednesday is June 18
    let date = imm_date(2025, 6).unwrap();
    assert_eq!(date.day(), 18);
}

#[test]
fn test_next_imm_dates() {
    let from = convex_curves::date::Date::from_ymd(2025, 1, 15).unwrap();
    let dates = next_imm_dates(&from, 4);

    assert_eq!(dates.len(), 4);
    // March, June, September, December 2025
    assert_eq!(dates[0].month(), 3);
    assert_eq!(dates[1].month(), 6);
    assert_eq!(dates[2].month(), 9);
    assert_eq!(dates[3].month(), 12);
}

#[test]
fn imm_date_rejects_invalid_month() {
    assert!(imm_date(2025, 13).is_none());
    assert!(imm_date(2025, 0).is_none());
}

#[test]
fn imm_dates_are_wednesdays_in_third_week() {
    for month in 1..=12 {
        let d = imm_date(2024, month).unwrap();
        assert_eq!(d.weekday(), 2);
        assert!(d.day() >= 15 && d.day() <= 21);
        assert_eq!(d.month(), month);
    }
}

#[test]
fn next_imm_dates_skip_current_imm_month() {
    // From 10 March the March contract is skipped: the walk starts in June.
    let from = convex_curves::date::Date::from_ymd(2025, 3, 10).unwrap();
    let dates = next_imm_dates(&from, 2);
    assert_eq!(dates[0].month(), 6);
    assert_eq!(dates[1].month(), 9);
    // From December the walk starts in March of the next year.
    let from = convex_curves::date::Date::from_ymd(2025, 12, 1).unwrap();
    let dates = next_imm_dates(&from, 5);
    assert_eq!((dates[0].year(), dates[0].month(), dates[0].day()), (2026, 3, 18));
    assert_eq!((dates[4].year(), dates[4].month()), (2027, 3));
    for w in dates.windows(2) {
        assert!(w[0] < w[1]);
    }
}

#[test]
fn next_imm_dates_zero_count() {
    let from = convex_curves::date::Date::from_ymd(2025, 1, 15).unwrap();
    assert!(next_imm_dates(&from, 0).is_empty());
}

#[test]
fn future_type_names() {
    assert_eq!(FutureType::SOFR1M.name(), "SOFR 1M");
    assert_eq!(FutureType::SOFR3M.name(), "SOFR 3M");
    assert_eq!(FutureType::Eurodollar.name(), "Eurodollar");
    assert_eq!(FutureType::SONIA3M.name(), "SONIA 3M");
    assert_eq!(FutureType::EURIBOR3M.name(), "EURIBOR 3M");
}

#[test]
fn instrument_type_ranks_and_names() {
    assert_eq!(InstrumentType::Deposit.rank(), 0);
    assert_eq!(InstrumentType::GovernmentCouponBond.rank(), 9);
    assert!(InstrumentType::OIS.rank() < InstrumentType::BasisSwap.rank());
    assert_eq!(InstrumentType::TreasuryBill.name(), "T-Bill");
    assert_eq!(InstrumentType::GovernmentZeroCoupon.name(), "Gov Zero");
}

#[test]
fn rate_index_constructors() {
    let e = RateIndex::euribor_6m();
    assert_eq!(e.display_text(), "EURIBOR 6M");
    assert_eq!(e.day_count, "ACT/360");
    let s = RateIndex::sonia();
    assert_eq!(s.day_count, "ACT/365F");
    assert_eq!(s.display_text(), "SONIA");
    let custom = RateIndex::new("TONA", 12, "ACT/365F");
    assert_eq!(custom.display_text(), "TONA 12M");
    assert_eq!(RateIndex::estr().name, "ESTR");
    assert_eq!(RateIndex::sofr_1m().display_text(), "SOFR 1M");
    assert_eq!(RateIndex::euribor_3m().tenor_months, 3);
}

#[test]
fn quote_type_names_and_checks() {
    assert_eq!(BondQuoteType::YieldToMaturity.name(), "YTM");
    assert_eq!(RateQuoteType::SemiAnnual.name(), "Semi-Annual");
    assert_eq!(RateQuoteType::default(), RateQuoteType::Simple);
    assert_eq!(QuoteType::Rate(RateQuoteType::Annual).check_kind(), QuoteCheck::Rate);
    assert_eq!(
        QuoteType::Bond(BondQuoteType::YieldToMaturity).check_kind(),
        QuoteCheck::Yield
    );
    assert_eq!(QuoteType::Bond(BondQuoteType::CleanPrice).check_kind(), QuoteCheck::Price);
    assert_eq!(QuoteType::FuturesPrice.check_kind(), QuoteCheck::Price);
}

#[test]
fn bond_quote_is_price_xor_rate() {
    for q in [
        BondQuoteType::CleanPrice,
        BondQuoteType::YieldToMaturity,
        BondQuoteType::DiscountRate,
        BondQuoteType::DirtyPrice,
    ] {
        assert_ne!(q.is_price(), q.is_rate());
    }
}
