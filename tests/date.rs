use puccinia::date::{date_to_string, CalendarDate};

#[test]
fn formats_as_eight_digits() {
    assert_eq!(date_to_string(&CalendarDate::new(2023, 1, 1).unwrap()), "20230101");
    assert_eq!(date_to_string(&CalendarDate::new(1999, 12, 31).unwrap()), "19991231");
    assert_eq!(date_to_string(&CalendarDate::new(7, 3, 9).unwrap()), "00070309");
    assert_eq!(date_to_string(&CalendarDate::new(0, 1, 1).unwrap()), "00000101");
    assert_eq!(date_to_string(&CalendarDate::new(9999, 12, 31).unwrap()), "99991231");
}

#[test]
fn rejects_days_that_do_not_exist() {
    assert!(CalendarDate::new(2023, 2, 29).is_none());
    assert!(CalendarDate::new(1900, 2, 29).is_none());
    assert!(CalendarDate::new(2000, 2, 29).is_some());
    assert!(CalendarDate::new(2024, 2, 29).is_some());
    assert!(CalendarDate::new(2023, 4, 31).is_none());
    assert!(CalendarDate::new(2023, 13, 1).is_none());
    assert!(CalendarDate::new(2023, 0, 1).is_none());
    assert!(CalendarDate::new(2023, 1, 0).is_none());
    assert!(CalendarDate::new(10000, 1, 1).is_none());
}

#[test]
fn keeps_its_fields() {
    let d = CalendarDate::new(2021, 7, 15).unwrap();
    assert_eq!((d.year, d.month, d.day), (2021, 7, 15));
}

#[test]
fn today_is_a_valid_date() {
    let d = CalendarDate::today().unwrap();
    assert!(CalendarDate::new(d.year, d.month, d.day).is_some());
    assert!(d.year >= 2020);
}

#[test]
fn clock_readings_outside_four_digit_years_are_refused() {
    assert!(CalendarDate::from_clock(-1, 1, 1).is_none());
    assert!(CalendarDate::from_clock(10000, 1, 1).is_none());
    assert!(CalendarDate::from_clock(2023, 2, 30).is_none());
    let d = CalendarDate::from_clock(2024, 2, 29).unwrap();
    assert_eq!((d.year, d.month, d.day), (2024, 2, 29));
}
