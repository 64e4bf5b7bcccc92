use convex_curves::basis::Frequency;
use convex_curves::date::Date;
use convex_curves::error::CurveError;
use convex_curves::instruments::deposit::parse_tenor;
use convex_curves::instruments::fra::fra_period;
use convex_curves::instruments::ois::parse_swap_tenor;
use convex_curves::instruments::swap::{generate_schedule, parse_tenor as parse_swap_end};
use convex_curves::instruments::tbond::{coupon_dates, coupon_schedule, coupon_walk_in_range};

fn ymd(y: i32, m: u32, d: u32) -> Date {
    Date::from_ymd(y, m, d).unwrap()
}

fn invalid_data_reason(r: Result<Date, CurveError>) -> String {
    match r {
        Err(CurveError::InvalidData { reason }) => reason,
        other => panic!("expected InvalidData, got {other:?}"),
    }
}

#[test]
fn test_parse_tenor_overnight() {
    let start = ymd(2025, 1, 15);

    let on = parse_tenor(&start, "ON").unwrap();
    assert_eq!(on, start.add_days(1));

    let tn = parse_tenor(&start, "TN").unwrap();
    assert_eq!(tn, start.add_days(2));
}

#[test]
fn test_parse_tenor_weeks() {
    let start = ymd(2025, 1, 15);

    let one_week = parse_tenor(&start, "1W").unwrap();
    assert_eq!(one_week, start.add_days(7));

    let two_weeks = parse_tenor(&start, "2W").unwrap();
    assert_eq!(two_weeks, start.add_days(14));
}

#[test]
fn test_parse_tenor_months() {
    let start = ymd(2025, 1, 15);

    let three_months = parse_tenor(&start, "3M").unwrap();
    assert_eq!(three_months, ymd(2025, 4, 15));

    let six_months = parse_tenor(&start, "6M").unwrap();
    assert_eq!(six_months, ymd(2025, 7, 15));
}

#[test]
fn test_parse_tenor_years() {
    let start = ymd(2025, 1, 15);

    let one_year = parse_tenor(&start, "1Y").unwrap();
    assert_eq!(one_year, ymd(2026, 1, 15));
}

#[test]
fn deposit_tenor_special_and_errors() {
    let start = ymd(2025, 1, 31);
    assert_eq!(parse_tenor(&start, "s/n").unwrap(), ymd(2025, 2, 3));
    assert_eq!(parse_tenor(&start, "O/N").unwrap(), ymd(2025, 2, 1));
    // Month ends are clamped.
    assert_eq!(parse_tenor(&start, "1m").unwrap(), ymd(2025, 2, 28));
    assert_eq!(invalid_data_reason(parse_tenor(&start, "3X")), "Invalid tenor format: 3X");
    assert_eq!(invalid_data_reason(parse_tenor(&start, "aM")), "Invalid tenor number: A");
    assert_eq!(invalid_data_reason(parse_tenor(&start, "")), "Invalid tenor format: ");
    assert_eq!(
        invalid_data_reason(parse_tenor(&start, "9223372036854775807W")),
        "Tenor out of range: 9223372036854775807W"
    );
    let far = parse_tenor(&start, "300000Y");
    assert!(invalid_data_reason(far).starts_with("Failed to add years: Invalid date"));
}

#[test]
fn test_parse_swap_tenor() {
    let start = ymd(2025, 1, 15);

    let end_1y = parse_swap_tenor(&start, "1Y").unwrap();
    assert_eq!(end_1y, ymd(2026, 1, 15));

    let end_6m = parse_swap_tenor(&start, "6M").unwrap();
    assert_eq!(end_6m, ymd(2025, 7, 15));

    let end_2w = parse_swap_tenor(&start, "2W").unwrap();
    assert_eq!(end_2w, start.add_days(14));
}

#[test]
fn swap_tenor_end_dates_and_errors() {
    let eff = ymd(2025, 1, 3);
    assert_eq!(parse_swap_end(&eff, "5Y").unwrap(), ymd(2030, 1, 3));
    assert_eq!(parse_swap_end(&eff, "18m").unwrap(), ymd(2026, 7, 3));
    assert_eq!(invalid_data_reason(parse_swap_end(&eff, "2W")), "Invalid tenor format: 2W");
    assert_eq!(invalid_data_reason(parse_swap_end(&eff, "xY")), "Invalid tenor: XY");
    assert_eq!(invalid_data_reason(parse_swap_tenor(&eff, "qW")), "Invalid tenor: QW");
    let far = parse_swap_end(&eff, "300000Y");
    assert!(invalid_data_reason(far).starts_with("Failed to calculate end date: Invalid date"));
}

#[test]
fn test_generate_schedule_semi_annual() {
    let start = ymd(2025, 1, 15);
    let end = ymd(2027, 1, 15);

    let dates = generate_schedule(&start, &end, Frequency::SemiAnnual);

    // 2 years, semi-annual = 4 payments
    assert_eq!(dates.len(), 4);
    assert_eq!(dates[0], ymd(2025, 7, 15));
    assert_eq!(dates[1], ymd(2026, 1, 15));
    assert_eq!(dates[2], ymd(2026, 7, 15));
    assert_eq!(dates[3], ymd(2027, 1, 15));
}

#[test]
fn test_generate_schedule_annual() {
    let start = ymd(2025, 1, 15);
    let end = ymd(2027, 1, 15);

    let dates = generate_schedule(&start, &end, Frequency::Annual);

    // 2 years, annual = 2 payments
    assert_eq!(dates.len(), 2);
    assert_eq!(dates[0], ymd(2026, 1, 15));
    assert_eq!(dates[1], ymd(2027, 1, 15));
}

#[test]
fn schedule_with_stub_and_zero_frequency() {
    let start = ymd(2025, 1, 31);
    let end = ymd(2025, 11, 15);
    let dates = generate_schedule(&start, &end, Frequency::Quarterly);
    // Rolling from Jan 31 clamps to Apr 30, then Jul 30, Oct 30; end appended.
    assert_eq!(dates, vec![ymd(2025, 4, 30), ymd(2025, 7, 30), ymd(2025, 10, 30), end]);
    assert_eq!(generate_schedule(&start, &end, Frequency::Zero), vec![end]);
    // An end before the start gives the end alone.
    assert_eq!(generate_schedule(&end, &start, Frequency::Monthly), vec![start]);
}

#[test]
fn fra_period_dates() {
    let trade = ymd(2025, 1, 3);
    let (s, e) = fra_period(&trade, 3, 6).unwrap();
    assert_eq!(s, ymd(2025, 4, 3));
    assert_eq!(e, ymd(2025, 7, 3));
}

#[test]
fn coupon_schedule_walks_back_from_maturity() {
    let settle = ymd(2025, 1, 15);
    let maturity = ymd(2027, 5, 15);
    let dates = coupon_schedule(&settle, &maturity, Frequency::SemiAnnual);
    assert_eq!(
        dates,
        vec![ymd(2025, 5, 15), ymd(2025, 11, 15), ymd(2026, 5, 15), ymd(2026, 11, 15), maturity]
    );
    assert!(coupon_schedule(&maturity, &settle, Frequency::SemiAnnual).is_empty());
    let (prev, next) = coupon_dates(&settle, &maturity, Frequency::SemiAnnual);
    assert_eq!(prev, ymd(2024, 11, 15));
    assert_eq!(next, ymd(2025, 5, 15));
}

#[test]
fn coupon_dates_on_a_coupon_date() {
    let settle = ymd(2025, 5, 15);
    let maturity = ymd(2027, 5, 15);
    let (prev, next) = coupon_dates(&settle, &maturity, Frequency::Annual);
    assert_eq!(prev, ymd(2025, 5, 15));
    assert_eq!(next, ymd(2026, 5, 15));
}

#[test]
fn date_arithmetic() {
    let d = ymd(2024, 2, 29);
    assert!(Date::from_ymd(2023, 2, 29).is_none());
    assert!(Date::from_ymd(2024, 4, 31).is_none());
    assert_eq!(d.add_years(1).unwrap(), ymd(2025, 2, 28));
    assert_eq!(d.add_months(-2).unwrap(), ymd(2023, 12, 29));
    assert_eq!(d.add_days(1), ymd(2024, 3, 1));
    assert_eq!(d.add_days(-60), ymd(2023, 12, 31));
    assert_eq!(d.weekday(), 3); // Thursday
    assert!(d.is_before(&ymd(2024, 3, 1)));
    assert!(d.is_after(&ymd(2024, 2, 28)));
    assert!(d.same_day(&ymd(2024, 2, 29)));
    assert!(d.can_add_months(1));
    assert!(!ymd(0, 1, 1).can_add_months(-1));
    let err = ymd(262142, 12, 1).add_months(1).unwrap_err();
    assert!(err.message.starts_with("Invalid date"));
}

#[test]
fn deposit_tenor_near_calendar_end() {
    let start = ymd(262141, 1, 1);
    assert_eq!(parse_tenor(&start, "60W").unwrap(), ymd(262142, 2, 25));
    assert_eq!(parse_swap_tenor(&start, "60w").unwrap(), ymd(262142, 2, 25));
    assert!(start.can_add_days(729));
    assert!(!start.can_add_days(730));
    assert!(ymd(-262143, 1, 2).can_add_days(-1));
    assert!(!ymd(-262143, 1, 1).can_add_days(-1));
}

#[test]
fn date_error_texts() {
    let err = ymd(262142, 12, 1).add_months(1).unwrap_err();
    assert_eq!(err.message, "Invalid date: 262143-01-01");
    let err = ymd(-262143, 3, 31).add_years(-1).unwrap_err();
    assert_eq!(err.message, "Invalid date: -262144-03-31");
    let err = ymd(262142, 1, 31).add_months(13).unwrap_err();
    assert_eq!(err.message, "Invalid date: 262143-02-28");
}

#[test]
fn day_arithmetic_laws() {
    let d = ymd(2024, 2, 29);
    for n in [-1000i64, -60, -1, 0, 1, 7, 365, 10000] {
        let e = d.add_days(n);
        assert_eq!(d.days_between(&e), n);
        assert_eq!(e.add_days(-n), d);
        assert_eq!(i64::from(e.weekday()), (i64::from(d.weekday()) + n).rem_euclid(7));
    }
    // January 1 of year 1 is a Monday.
    assert_eq!(ymd(1, 1, 1).weekday(), 0);
    assert_eq!(ymd(1, 1, 1).days_between(&ymd(2024, 2, 29)), 738_944);
}

#[test]
fn coupon_walk_range_check() {
    assert!(coupon_walk_in_range(&ymd(2025, 1, 15), &ymd(2030, 1, 15), Frequency::SemiAnnual));
    assert!(!coupon_walk_in_range(&ymd(-2, 1, 1), &ymd(1, 1, 1), Frequency::SemiAnnual));
    assert!(coupon_walk_in_range(&ymd(-2, 1, 1), &ymd(1, 1, 1), Frequency::Annual));
    assert!(!coupon_walk_in_range(&ymd(2025, 1, 15), &ymd(2030, 1, 15), Frequency::Zero));
    assert!(coupon_walk_in_range(&ymd(2030, 1, 15), &ymd(2030, 1, 15), Frequency::Zero));
}
