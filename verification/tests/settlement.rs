use convex_curves::bootstrap::sequential::bootstrap_order;
use convex_curves::conventions::{eur, gbp, jpy, usd};
use convex_curves::date::Date;

fn ymd(y: i32, m: u32, d: u32) -> Date {
    Date::from_ymd(y, m, d).unwrap()
}

#[test]
fn usd_deposit_settles_two_business_days_later() {
    let ref_date = ymd(2025, 1, 15);
    let (spot, end) = usd::deposit_period("3M", &ref_date).unwrap();
    assert_eq!(spot, ymd(2025, 1, 17));
    assert_eq!(end, ymd(2025, 4, 17));
    assert!(end > ref_date);
}

#[test]
fn usd_spot_skips_weekend_and_holiday() {
    // Monday 2024-12-23: Tuesday 24th, then Christmas on the 25th, so T+2
    // is Thursday 26th.
    let (spot, _) = usd::deposit_period("ON", &ymd(2024, 12, 23)).unwrap();
    assert_eq!(spot, ymd(2024, 12, 26));
    // Friday 2025-01-17: the weekend is skipped, T+2 is Wednesday 22nd
    // (Monday 20th is Martin Luther King Jr. Day).
    let (spot, _) = usd::deposit_period("ON", &ymd(2025, 1, 17)).unwrap();
    assert_eq!(spot, ymd(2025, 1, 22));
}

#[test]
fn eur_and_jpy_deposits() {
    let ref_date = ymd(2025, 1, 15);
    let (spot, end) = eur::deposit_period("6M", &ref_date).unwrap();
    assert_eq!(spot, ymd(2025, 1, 17));
    assert!(end > ref_date);
    let (jspot, jend) = jpy::deposit_period("1W", &ref_date).unwrap();
    assert_eq!(jspot, ymd(2025, 1, 17));
    assert_eq!(jend, ymd(2025, 1, 24));
}

#[test]
fn gbp_deposit_settles_same_day() {
    let ref_date = ymd(2025, 1, 15);
    let (spot, end) = gbp::deposit_period("1M", &ref_date).unwrap();
    assert_eq!(spot, ref_date);
    assert_eq!(end, ymd(2025, 2, 15));
}

#[test]
fn deposit_period_reports_bad_tenor() {
    assert!(usd::deposit_period("3Q", &ymd(2025, 1, 15)).is_err());
}

#[test]
fn bootstrap_order_sorts_by_pillar_and_keeps_ties() {
    let pillars = vec![
        ymd(2026, 1, 15),
        ymd(2025, 4, 15),
        ymd(2026, 1, 15),
        ymd(2025, 2, 15),
        ymd(2025, 4, 15),
    ];
    assert_eq!(bootstrap_order(&pillars), vec![3, 1, 4, 0, 2]);
    assert!(bootstrap_order(&Vec::new()).is_empty());
}

#[test]
fn days_between_dates() {
    let a = ymd(2025, 1, 15);
    let b = ymd(2025, 4, 15);
    assert_eq!(a.days_between(&b), 90);
    assert_eq!(b.days_between(&a), -90);
    assert_eq!(a.days_between(&a), 0);
}
