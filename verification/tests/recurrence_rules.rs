use mart_status::dates::Date;
use mart_status::recurrence::{parse_recurrence, resolve_holidays};

fn date(year: u32, month: u32, day: u32) -> Date {
    Date { year, month, day }
}

#[test]
fn template_a_parses_shared_weekday() {
    // "1st and 3rd Sunday of every month."
    let rule = parse_recurrence("매월 첫째, 셋째 일요일").unwrap();
    assert_eq!(rule.first.nth, 1);
    assert_eq!(rule.first.weekday, 6);
    assert_eq!(rule.second.nth, 3);
    assert_eq!(rule.second.weekday, 6);
}

#[test]
fn template_a_found_inside_longer_text() {
    let rule = parse_recurrence("휴무 안내: 매월 둘째, 넷째 일요일 입니다").unwrap();
    assert_eq!(rule.first.nth, 2);
    assert_eq!(rule.second.nth, 4);
    assert_eq!(rule.first.weekday, 6);
}

#[test]
fn template_b_parses_independent_weekdays() {
    // "2nd Wednesday and 4th Saturday of every month."
    let rule = parse_recurrence("매월 둘째 수요일, 넷째 토요일").unwrap();
    assert_eq!(rule.first.nth, 2);
    assert_eq!(rule.first.weekday, 2);
    assert_eq!(rule.second.nth, 4);
    assert_eq!(rule.second.weekday, 5);
}

#[test]
fn unrecognized_text_yields_no_rule() {
    assert!(parse_recurrence("연중무휴").is_none());
    assert!(parse_recurrence("").is_none());
    assert!(parse_recurrence("매월 다섯째 일요일").is_none());
}

#[test]
fn resolve_first_and_third_sunday_from_first_sunday() {
    // October 2021: Sundays on 3, 10, 17, 24, 31. Reference date is the
    // first Sunday itself, so both dates are still upcoming.
    let r = resolve_holidays("매월 첫째, 셋째 일요일", &date(2021, 10, 3));
    assert_eq!(r, vec![20211003u32, 20211017u32]);
}

#[test]
fn resolve_drops_passed_dates() {
    // After the first Sunday only the third remains.
    let r = resolve_holidays("매월 첫째, 셋째 일요일", &date(2021, 10, 4));
    assert_eq!(r, vec![20211017u32]);
    // After the third Sunday the result is empty.
    let r = resolve_holidays("매월 첫째, 셋째 일요일", &date(2021, 10, 18));
    assert!(r.is_empty());
}

#[test]
fn resolve_template_b_keeps_pair_order() {
    // 2nd Wednesday of October 2021 is the 13th; 4th Saturday is the 23rd.
    let r = resolve_holidays("매월 둘째 수요일, 넷째 토요일", &date(2021, 10, 1));
    assert_eq!(r, vec![20211013u32, 20211023u32]);
    // Between the two dates only the second survives, order intact.
    let r = resolve_holidays("매월 둘째 수요일, 넷째 토요일", &date(2021, 10, 14));
    assert_eq!(r, vec![20211023u32]);
}

#[test]
fn resolve_unrecognized_text_is_empty_not_an_error() {
    let r = resolve_holidays("영업시간 안내", &date(2021, 10, 1));
    assert!(r.is_empty());
}
