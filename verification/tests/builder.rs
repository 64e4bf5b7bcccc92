use convex_curves::builder::{
    find_imm_date, fra_tenor_months, future_contract_in_range, parse_future_contract, parse_tenor_to_months,
    tenor_months_fit, tenor_months_normalized, BootstrapMethod,
};
use convex_curves::date::Date;
use convex_curves::instruments::future::FutureType;

#[test]
fn test_find_imm_date() {
    // Dec 2024: Dec 1 is Sunday, first Wednesday is Dec 4, third is Dec 18
    let imm = find_imm_date(2024, 12).unwrap();
    assert!(imm.day() >= 15 && imm.day() <= 21, "IMM date should be third Wednesday, got day {}", imm.day());

    // Mar 2025: Mar 1 is Saturday, first Wednesday is Mar 5, third is Mar 19
    let imm = find_imm_date(2025, 3).unwrap();
    assert!(imm.day() >= 15 && imm.day() <= 21, "IMM date should be third Wednesday, got day {}", imm.day());
}

#[test]
fn find_imm_date_is_third_wednesday() {
    assert_eq!(find_imm_date(2024, 12).unwrap().day(), 18);
    assert_eq!(find_imm_date(2025, 3).unwrap().day(), 19);
    assert_eq!(find_imm_date(2025, 3).unwrap().weekday(), 2);
    assert!(find_imm_date(2025, 13).is_none());
}

#[test]
fn tenor_to_months() {
    assert_eq!(parse_tenor_to_months("3M"), Some(3));
    assert_eq!(parse_tenor_to_months("2Y"), Some(24));
    assert_eq!(parse_tenor_to_months(" 1y "), Some(12));
    assert_eq!(parse_tenor_to_months("1W"), Some(1));
    assert_eq!(parse_tenor_to_months("4W"), Some(1));
    assert_eq!(parse_tenor_to_months("5W"), Some(2));
    assert_eq!(parse_tenor_to_months("-5W"), Some(0));
    assert_eq!(parse_tenor_to_months("6MM"), Some(6));
    assert_eq!(parse_tenor_to_months("+6m"), Some(6));
    assert_eq!(parse_tenor_to_months("6D"), None);
    assert_eq!(parse_tenor_to_months("M"), None);
    assert_eq!(parse_tenor_to_months(""), None);
    assert_eq!(parse_tenor_to_months("x3M"), None);
}

#[test]
fn tenor_to_months_overflow_is_none() {
    // 200000000 years is more months than an i32 holds.
    assert!(!tenor_months_fit("200000000Y"));
    assert_eq!(parse_tenor_to_months("200000000Y"), None);
    assert!(tenor_months_fit("2147483647M"));
    assert_eq!(tenor_months_normalized("2147483647M"), Some(2147483647));
    assert_eq!(parse_tenor_to_months("2147483648M"), None);
    assert!(!tenor_months_fit("2147483647W"));
}

#[test]
fn year_tenor_is_twelve_month_tenor() {
    for n in ["1", "2", "10", "30"] {
        let y = parse_tenor_to_months(&format!("{n}Y")).unwrap();
        let m = parse_tenor_to_months(&format!("{n}M")).unwrap();
        assert_eq!(y, 12 * m);
    }
}

#[test]
fn fra_months_from_tenors() {
    assert_eq!(fra_tenor_months("3M", "6M"), Some((3, 6)));
    assert_eq!(fra_tenor_months("1Y", "18M"), Some((12, 18)));
    assert_eq!(fra_tenor_months("6M", "3M"), None);
    assert_eq!(fra_tenor_months("0M", "3M"), None);
    assert_eq!(fra_tenor_months("bad", "3M"), None);
}

#[test]
fn future_contract_codes() {
    let today = Date::from_ymd(2024, 11, 29).unwrap();
    let c = parse_future_contract("SFRZ4", &today).unwrap();
    assert_eq!(c.future_type, FutureType::SOFR3M);
    assert_eq!(
        (c.last_trading_date.year(), c.last_trading_date.month(), c.last_trading_date.day()),
        (2024, 12, 18)
    );
    assert_eq!(c.accrual_start, c.last_trading_date);
    assert_eq!(
        (c.accrual_end.year(), c.accrual_end.month(), c.accrual_end.day()),
        (2025, 3, 18)
    );
    let ed = parse_future_contract("EDH5", &today).unwrap();
    assert_eq!(ed.future_type, FutureType::Eurodollar);
    assert_eq!((ed.accrual_start.year(), ed.accrual_start.month()), (2025, 3));
    let other = parse_future_contract("XXM5", &today).unwrap();
    assert_eq!(other.future_type, FutureType::SOFR3M);
    assert!(parse_future_contract("SFR", &today).is_none());
    assert!(parse_future_contract("SFRA4", &today).is_none());
    assert!(parse_future_contract("SFRZX", &today).is_none());
}

#[test]
fn bootstrap_method_default() {
    assert_eq!(BootstrapMethod::default(), BootstrapMethod::Sequential);
}

#[test]
fn tenor_surrounding_white_space_is_trimmed() {
    assert_eq!(parse_tenor_to_months(" 2y "), Some(24));
    assert_eq!(parse_tenor_to_months("\t3m\n"), Some(3));
    assert_eq!(parse_tenor_to_months("\u{3000}1Y\u{a0}"), Some(12));
    assert_eq!(parse_tenor_to_months("1 Y"), None);
}

#[test]
fn future_contract_range_check() {
    let today = Date::from_ymd(2025, 1, 1).unwrap();
    assert!(future_contract_in_range("SFRZ4", &today));
    assert!(future_contract_in_range("XXXX", &today));
    let early = Date::from_ymd(-25, 1, 1).unwrap();
    assert!(!future_contract_in_range("SFRH3", &early));
    assert!(future_contract_in_range("SFRV3", &early));
    assert!(future_contract_in_range("SFRA3", &early));
    assert!(parse_future_contract("SFRA3", &early).is_none());
    let c = parse_future_contract("SFRV3", &early).unwrap();
    assert_eq!(c.accrual_end.year(), -16);
    assert_eq!(c.accrual_end.month(), 1);
}
