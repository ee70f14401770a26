use log_generator::calendar::{get_days_in_month, is_leap};

#[test]
fn leap_years() {
    assert!(is_leap(2020));
    assert!(is_leap(2000));
    assert!(is_leap(1996));
    assert!(!is_leap(1900));
    assert!(!is_leap(2021));
    assert!(!is_leap(2100));
}

#[test]
fn february_days() {
    assert_eq!(get_days_in_month(2020, 2), 29);
    assert_eq!(get_days_in_month(2000, 2), 29);
    assert_eq!(get_days_in_month(1900, 2), 28);
    assert_eq!(get_days_in_month(2021, 2), 28);
}

#[test]
fn thirty_day_months() {
    for m in [4u32, 6, 9, 11] {
        assert_eq!(get_days_in_month(2021, m), 30);
        assert_eq!(get_days_in_month(2020, m), 30);
    }
}

#[test]
fn thirty_one_day_months() {
    for m in [1u32, 3, 5, 7, 8, 10, 12] {
        assert_eq!(get_days_in_month(2021, m), 31);
        assert_eq!(get_days_in_month(2020, m), 31);
    }
}
