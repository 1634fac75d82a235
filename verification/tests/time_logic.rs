use mart_status::dates::{make_window, next_day, nth_weekday_of_month, weekday_of, Date, ClockTime,
    Instant, TimeWindow};
use mart_status::evaluator::{evaluate, OperationalFlag};
use mart_status::responses::InfoStateKind;
use mart_status::textparse::{format_hhmm, format_yyyymmdd, parse_korean_12h_at, str_contains,
    str_eq};

fn date(year: u32, month: u32, day: u32) -> Date {
    Date { year, month, day }
}

fn at(d: Date, hour: u32, minute: u32) -> Instant {
    Instant { date: d, time: ClockTime { hour, minute, second: 0 } }
}

#[test]
fn weekday_of_known_dates() {
    // 2021-10-27 was a Wednesday, 2021-10-03 a Sunday.
    assert_eq!(weekday_of(date(2021, 10, 27)), 2);
    assert_eq!(weekday_of(date(2021, 10, 3)), 6);
    // 2000-02-29 (leap day) was a Tuesday.
    assert_eq!(weekday_of(date(2000, 2, 29)), 1);
}

#[test]
fn nth_weekday_first_and_third_sunday() {
    // October 2021: Sundays fall on 3, 10, 17, 24, 31.
    let first = nth_weekday_of_month(2021, 10, 6, 1);
    let third = nth_weekday_of_month(2021, 10, 6, 3);
    assert_eq!(first.day, 3);
    assert_eq!(third.day, 17);
}

#[test]
fn next_day_rolls_month_and_year() {
    assert_eq!(next_day(date(2021, 10, 31)), date(2021, 11, 1));
    assert_eq!(next_day(date(2021, 12, 31)), date(2022, 1, 1));
    assert_eq!(next_day(date(2020, 2, 28)), date(2020, 2, 29));
    assert_eq!(next_day(date(2021, 2, 28)), date(2021, 3, 1));
}

#[test]
fn window_close_past_midnight_rolls_to_next_day() {
    // A close time of 25:30 lies on the following day at 01:30.
    let w: TimeWindow = make_window(date(2021, 10, 26), 10, 0, 25, 30);
    assert_eq!(w.open.date, date(2021, 10, 26));
    assert_eq!(w.open.time.hour, 10);
    assert_eq!(w.close.date, date(2021, 10, 27));
    assert_eq!(w.close.time.hour, 1);
    assert_eq!(w.close.time.minute, 30);
}

#[test]
fn window_close_same_day() {
    let w: TimeWindow = make_window(date(2021, 10, 26), 10, 0, 22, 0);
    assert_eq!(w.close.date, date(2021, 10, 26));
    assert_eq!(w.close.time.hour, 22);
}

#[test]
fn evaluate_holiday_dominates_every_flag() {
    let today = date(2021, 10, 27);
    let w = make_window(today, 10, 0, 22, 0);
    let holidays = vec![20211027u32];
    // Inside the window with the open flag: still holiday-closed.
    let s1 = evaluate(&at(today, 12, 0), OperationalFlag::OpenNow, &w, &holidays);
    assert_eq!(s1, InfoStateKind::HolidayClosed);
    // Before the window with the closed flag: still holiday-closed.
    let s2 = evaluate(&at(today, 9, 0), OperationalFlag::ClosedNow, &w, &holidays);
    assert_eq!(s2, InfoStateKind::HolidayClosed);
    // After the window: still holiday-closed.
    let s3 = evaluate(&at(today, 23, 0), OperationalFlag::OpenNow, &w, &holidays);
    assert_eq!(s3, InfoStateKind::HolidayClosed);
}

#[test]
fn evaluate_closed_flag_short_circuits_window() {
    let today = date(2021, 10, 27);
    let w = make_window(today, 10, 0, 22, 0);
    let none: Vec<u32> = vec![];
    let s1 = evaluate(&at(today, 9, 0), OperationalFlag::ClosedNow, &w, &none);
    assert_eq!(s1, InfoStateKind::BeforeOpen);
    // Inside the window but reported closed: after-closed, not open.
    let s2 = evaluate(&at(today, 12, 0), OperationalFlag::ClosedNow, &w, &none);
    assert_eq!(s2, InfoStateKind::AfterClosed);
}

#[test]
fn evaluate_open_flag_uses_window() {
    let today = date(2021, 10, 27);
    let w = make_window(today, 10, 0, 22, 0);
    let none: Vec<u32> = vec![];
    assert_eq!(evaluate(&at(today, 9, 59), OperationalFlag::OpenNow, &w, &none),
        InfoStateKind::BeforeOpen);
    assert_eq!(evaluate(&at(today, 10, 0), OperationalFlag::OpenNow, &w, &none),
        InfoStateKind::Open);
    assert_eq!(evaluate(&at(today, 22, 0), OperationalFlag::OpenNow, &w, &none),
        InfoStateKind::Open);
    assert_eq!(evaluate(&at(today, 22, 1), OperationalFlag::OpenNow, &w, &none),
        InfoStateKind::AfterClosed);
}

#[test]
fn evaluate_overnight_window_spans_midnight() {
    let today = date(2021, 10, 26);
    let w = make_window(today, 10, 0, 24, 0);
    let none: Vec<u32> = vec![];
    // 23:30 on the same day is before the close instant on the next day.
    assert_eq!(evaluate(&at(today, 23, 30), OperationalFlag::OpenNow, &w, &none),
        InfoStateKind::Open);
}

#[test]
fn formatting_pads_with_zeros() {
    assert_eq!(format_hhmm(9, 5), "09:05");
    assert_eq!(format_hhmm(20, 30), "20:30");
    assert_eq!(format_yyyymmdd(20211027), "20211027");
    assert_eq!(format_yyyymmdd(20210102), "20210102");
}

#[test]
fn substring_and_equality_checks() {
    assert!(str_contains("코스트코 대전점", "대전"));
    assert!(!str_contains("코스트코 대전점", "서울"));
    assert!(str_contains("anything", ""));
    assert!(str_eq("emart", "emart"));
    assert!(!str_eq("emart", "emar"));
}

#[test]
fn korean_twelve_hour_conversion() {
    let v: Vec<char> = "오전 12:30".chars().collect();
    assert_eq!(parse_korean_12h_at(&v, 0), Some((0, 30)));
    let v: Vec<char> = "오후 12:15".chars().collect();
    assert_eq!(parse_korean_12h_at(&v, 0), Some((12, 15)));
    let v: Vec<char> = "오후 08:30".chars().collect();
    assert_eq!(parse_korean_12h_at(&v, 0), Some((20, 30)));
    let v: Vec<char> = "오전 13:00".chars().collect();
    assert_eq!(parse_korean_12h_at(&v, 0), None);
    let v: Vec<char> = "오전 00:30".chars().collect();
    assert_eq!(parse_korean_12h_at(&v, 0), None);
}
