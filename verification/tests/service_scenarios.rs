use mart_status::adapters::{emart_status, extract_emart_first, EmartFields, ParseError};
use mart_status::aggregator::{chain_of, info, search, Chain};
use mart_status::dates::{ClockTime, Date, Instant};
use mart_status::responses::{unsupported_chain_error, InfoStateKind};

fn at(year: u32, month: u32, day: u32, hour: u32, minute: u32) -> Instant {
    Instant { date: Date { year, month, day }, time: ClockTime { hour, minute, second: 0 } }
}

const EMART_OPEN_BODY: &str = r#"{"dataList":[{"NAME":"Seoul","JIJUM_STATUS":"OPEN","OPEN_SHOPPING_TIME":"10:00","CLOSE_SHOPPING_TIME":"22:00"}]}"#;

const EMART_CLOSED_BODY: &str = r#"{"dataList":[{"NAME":"Seoul","JIJUM_STATUS":"CLOSED","OPEN_SHOPPING_TIME":"10:00","CLOSE_SHOPPING_TIME":"22:00"}]}"#;

#[test]
fn emart_open_branch_reports_open() {
    let now = at(2021, 10, 26, 12, 0);
    let r = info(Chain::EMart, "Seoul", EMART_OPEN_BODY, &now).unwrap();
    assert_eq!(r.name, "Seoul");
    assert_eq!(r.state, InfoStateKind::Open);
    assert_eq!(r.start_time, "10:00");
    assert_eq!(r.end_time, "22:00");
    assert!(r.holidays.is_empty());
}

#[test]
fn emart_closed_flag_before_open_time() {
    let now = at(2021, 10, 26, 9, 0);
    let r = info(Chain::EMart, "Seoul", EMART_CLOSED_BODY, &now).unwrap();
    assert_eq!(r.state, InfoStateKind::BeforeOpen);
}

#[test]
fn emart_closed_flag_after_open_time() {
    let now = at(2021, 10, 26, 12, 0);
    let r = info(Chain::EMart, "Seoul", EMART_CLOSED_BODY, &now).unwrap();
    assert_eq!(r.state, InfoStateKind::AfterClosed);
}

#[test]
fn emart_holiday_today_dominates_open_flag() {
    let body = r#"{"dataList":[{"NAME":"Seoul","JIJUM_STATUS":"OPEN","OPEN_SHOPPING_TIME":"10:00","CLOSE_SHOPPING_TIME":"22:00","HOLIDAY_DAY1_YYYYMMDD":"20211026","HOLIDAY_DAY2_YYYYMMDD":"","HOLIDAY_DAY3_YYYYMMDD":"20211110"}]}"#;
    let now = at(2021, 10, 26, 12, 0);
    let r = info(Chain::EMart, "Seoul", body, &now).unwrap();
    assert_eq!(r.state, InfoStateKind::HolidayClosed);
    // Past dates are filtered; today and future dates survive in order.
    assert_eq!(r.holidays, vec!["20211026".to_string(), "20211110".to_string()]);
}

#[test]
fn emart_past_holiday_is_filtered_out() {
    let body = r#"{"dataList":[{"NAME":"Seoul","JIJUM_STATUS":"OPEN","OPEN_SHOPPING_TIME":"10:00","CLOSE_SHOPPING_TIME":"22:00","HOLIDAY_DAY1_YYYYMMDD":"20211001"}]}"#;
    let now = at(2021, 10, 26, 12, 0);
    let r = info(Chain::EMart, "Seoul", body, &now).unwrap();
    assert!(r.holidays.is_empty());
    assert_eq!(r.state, InfoStateKind::Open);
}

#[test]
fn emart_wrong_name_is_no_result() {
    let now = at(2021, 10, 26, 12, 0);
    let e = info(Chain::EMart, "Busan", EMART_OPEN_BODY, &now).unwrap_err();
    assert_eq!(e.error, "검색 결과가 없습니다.");
}

#[test]
fn emart_search_lists_all_names() {
    let body = r#"{"dataList":[{"NAME":"Seoul"},{"NAME":"Busan"}]}"#;
    let r = search(Chain::EMart, "S", body).unwrap();
    assert_eq!(r.result, vec!["Seoul".to_string(), "Busan".to_string()]);
}

#[test]
fn search_with_no_match_is_no_result() {
    let body = r#"{"dataList":[]}"#;
    let e = search(Chain::EMart, "nowhere", body).unwrap_err();
    assert_eq!(e.error, "검색 결과가 없습니다.");
}

#[test]
fn unsupported_chain_has_its_own_message() {
    assert!(chain_of("walmart").is_none());
    assert!(chain_of("").is_none());
    assert_eq!(chain_of("emart"), Some(Chain::EMart));
    assert_eq!(chain_of("traders"), Some(Chain::Traders));
    assert_eq!(chain_of("homeplus"), Some(Chain::HomePlus));
    assert_eq!(chain_of("costco"), Some(Chain::Costco));
    assert_eq!(unsupported_chain_error().error, "지원하지 않는 마트 종류입니다.");
}

const HOMEPLUS_BODY: &str = r#"<html><body><ul class="result_list">
<li class="clearfix"><span class="name"><a>강남점</a></span><div class="time"><span>10:00~24:00</span><span class="off">2021-10-27</span></div></li>
<li class="clearfix"><span class="name"><a>목동점</a></span><div class="time"><span>10:00~23:00</span><span class="off"></span></div></li>
</ul></body></html>"#;

#[test]
fn homeplus_search_lists_branch_names() {
    let r = search(Chain::HomePlus, "강남", HOMEPLUS_BODY).unwrap();
    assert_eq!(r.result, vec!["강남점".to_string(), "목동점".to_string()]);
}

#[test]
fn homeplus_info_matches_exact_name_and_rolls_midnight() {
    let now = at(2021, 10, 26, 23, 30);
    let r = info(Chain::HomePlus, "강남점", HOMEPLUS_BODY, &now).unwrap();
    assert_eq!(r.name, "강남점");
    // 23:30 is still before the 24:00 close on the following day.
    assert_eq!(r.state, InfoStateKind::Open);
    assert_eq!(r.start_time, "10:00");
    assert_eq!(r.end_time, "24:00");
    assert_eq!(r.holidays, vec!["20211027".to_string()]);
}

#[test]
fn homeplus_off_day_closes_the_branch() {
    let now = at(2021, 10, 27, 12, 0);
    let r = info(Chain::HomePlus, "강남점", HOMEPLUS_BODY, &now).unwrap();
    assert_eq!(r.state, InfoStateKind::HolidayClosed);
}

#[test]
fn homeplus_unknown_name_is_no_result() {
    let now = at(2021, 10, 26, 12, 0);
    let e = info(Chain::HomePlus, "부산점", HOMEPLUS_BODY, &now).unwrap_err();
    assert_eq!(e.error, "검색 결과가 없습니다.");
}

const COSTCO_BODY: &str = r#"{"data":[{"displayName":"코스트코 대전점","openings":{"월":{"individual":"오전 10:00 - 오후 08:30"}},"storeContent":"매월 첫째, 셋째 일요일"}]}"#;

#[test]
fn costco_info_parses_hours_and_recurring_holidays() {
    // 2021-10-04 is a Monday; the first Sunday (10-03) has passed and
    // the third (10-17) is upcoming.
    let now = at(2021, 10, 4, 12, 0);
    let r = info(Chain::Costco, "대전", COSTCO_BODY, &now).unwrap();
    assert_eq!(r.name, "코스트코 대전점");
    assert_eq!(r.state, InfoStateKind::Open);
    assert_eq!(r.start_time, "10:00");
    assert_eq!(r.end_time, "20:30");
    assert_eq!(r.holidays, vec!["20211017".to_string()]);
}

#[test]
fn costco_closed_on_a_resolved_holiday() {
    // 2021-10-17 is the third Sunday itself.
    let body = r#"{"data":[{"displayName":"코스트코 대전점","openings":{"일":{"individual":"오전 10:00 - 오후 08:30"}},"storeContent":"매월 첫째, 셋째 일요일"}]}"#;
    let now = at(2021, 10, 17, 12, 0);
    let r = info(Chain::Costco, "대전", body, &now).unwrap();
    assert_eq!(r.state, InfoStateKind::HolidayClosed);
    assert_eq!(r.holidays, vec!["20211017".to_string()]);
}

#[test]
fn costco_keyword_must_be_contained_in_display_name() {
    let now = at(2021, 10, 4, 12, 0);
    let e = info(Chain::Costco, "서울", COSTCO_BODY, &now).unwrap_err();
    assert_eq!(e.error, "검색 결과가 없습니다.");
}

#[test]
fn costco_search_narrows_by_keyword() {
    let body = r#"{"data":[{"displayName":"코스트코 대전점"},{"displayName":"코스트코 서울점"}]}"#;
    let r = search(Chain::Costco, "대전", body).unwrap();
    assert_eq!(r.result, vec!["코스트코 대전점".to_string()]);
    let e = search(Chain::Costco, "부산", body).unwrap_err();
    assert_eq!(e.error, "검색 결과가 없습니다.");
}

#[test]
fn malformed_payload_is_no_result_never_a_panic() {
    let now = at(2021, 10, 26, 12, 0);
    assert!(info(Chain::EMart, "Seoul", "not json at all", &now).is_err());
    assert!(info(Chain::Costco, "대전", r#"{"data":[]}"#, &now).is_err());
    assert!(search(Chain::EMart, "x", r#"{"other":1}"#).is_err());
    assert!(info(Chain::HomePlus, "강남점", "<html></html>", &now).is_err());
}

#[test]
fn parse_error_variants_are_typed() {
    assert_eq!(extract_emart_first("not json at all").unwrap_err(), ParseError::Malformed);
    assert_eq!(extract_emart_first(r#"{"x":1}"#).unwrap_err(), ParseError::MissingField);
    assert_eq!(
        extract_emart_first(r#"{"dataList":[{"NAME":"Seoul"}]}"#).unwrap_err(),
        ParseError::MissingField
    );
    let f = EmartFields {
        name: "Seoul".to_string(),
        status: "OPEN".to_string(),
        open_time: "10:00".to_string(),
        close_time: "22:00".to_string(),
        holiday1: Some("soon".to_string()),
        holiday2: None,
        holiday3: None,
    };
    let now = at(2021, 10, 26, 12, 0);
    assert_eq!(emart_status(&f, &now).unwrap_err(), ParseError::Malformed);
}

#[test]
fn homeplus_first_exact_name_match_wins() {
    // Two items under the same name: the response describes the first.
    let body = r#"<html><body><ul class="result_list">
<li class="clearfix"><span class="name"><a>강남점</a></span><div class="time"><span>10:00~22:00</span><span class="off"></span></div></li>
<li class="clearfix"><span class="name"><a>강남점</a></span><div class="time"><span>11:00~23:00</span><span class="off"></span></div></li>
</ul></body></html>"#;
    let now = at(2021, 10, 26, 12, 0);
    let r = info(Chain::HomePlus, "강남점", body, &now).unwrap();
    assert_eq!(r.start_time, "10:00");
    assert_eq!(r.end_time, "22:00");
}

#[test]
fn costco_search_keeps_upstream_order() {
    let body = r#"{"data":[{"displayName":"코스트코 대전점"},{"displayName":"코스트코 서울점"},{"displayName":"코스트코 대전 세이점"}]}"#;
    let r = search(Chain::Costco, "대전", body).unwrap();
    assert_eq!(r.result, vec!["코스트코 대전점".to_string(), "코스트코 대전 세이점".to_string()]);
}
