//! Upstream adapters, one per chain. Extraction walks the opaque JSON
//! or HTML tree through the trusted wrappers and hands back plain
//! records; everything after that point — time parsing, holiday
//! filtering, window construction and status evaluation — is verified
//! against exact contracts.

use vstd::prelude::*;
use crate::dates::{Date, Instant, TimeWindow, is_max_date, make_window, spec_make_window,
    valid_date, valid_instant, yyyymmdd, yyyymmdd_u32};
use crate::evaluator::{OperationalFlag, evaluate, spec_state};
use crate::recurrence::{resolve_holidays, spec_resolved, spec_rule};
use crate::responses::InfoResponse;
use crate::textparse::{chars_of, parse_hhmm_at, parse_korean_12h_at, parse_yyyymmdd_vec,
    spec_format_hhmm, spec_format_yyyymmdd, spec_hhmm_at, spec_korean_12h_at, spec_yyyymmdd_seq,
    format_hhmm, format_yyyymmdd, str_eq, strip_dashes, strip_dashes_vec};
use crate::upstream::{costco_first_of, costco_first_raw, costco_names_of, costco_names_raw,
    emart_first_of, emart_first_raw, emart_names_of, emart_names_raw, homeplus_items_of,
    homeplus_items_raw, json_ok};

verus! {

/// Failure to read an upstream payload. The aggregator recovers from
/// it as a "no result" outcome; it never aborts a request.
#[derive(Clone, Copy, PartialEq, Eq, Structural, Debug)]
pub enum ParseError {
    MissingField,
    Malformed,
}

/// The plain fields of one EMart/Traders branch record.
#[derive(Debug)]
pub struct EmartFields {
    pub name: String,
    pub status: String,
    pub open_time: String,
    pub close_time: String,
    pub holiday1: Option<String>,
    pub holiday2: Option<String>,
    pub holiday3: Option<String>,
}

/// The plain fields of one HomePlus branch list item.
#[derive(Debug)]
pub struct HomePlusFields {
    pub name: String,
    pub time_text: String,
    pub off_text: String,
}

/// The plain fields of the first Costco search result.
#[derive(Debug)]
pub struct CostcoFields {
    pub display_name: String,
    pub individual: String,
    pub store_content: String,
}

/// The views of a list of texts.
pub open spec fn texts_of(names: Seq<String>) -> Seq<Seq<char>> {
    names.map_values(|s: String| s@)
}

/// The view of an optional text.
pub open spec fn opt_text(h: Option<String>) -> Option<Seq<char>> {
    match h {
        Some(s) => Some(s@),
        None => None,
    }
}

/// The branch names of an EMart/Traders search payload: the `NAME` of
/// each element of `dataList`, exactly as the named extraction gives
/// them; an unparseable body is malformed, a missing list or name a
/// missing field.
pub fn extract_emart_names(body: &str) -> (r: Result<Vec<String>, ParseError>)
    ensures
        (r is Ok) == (json_ok(body@) && emart_names_of(body@) is Some),
        r is Ok ==> texts_of(r->Ok_0@) == emart_names_of(body@)->Some_0,
        r is Err && !json_ok(body@) ==> r->Err_0 is Malformed,
        r is Err && json_ok(body@) ==> r->Err_0 is MissingField,
{
    emart_names_raw(body)
}

/// The first record of an EMart/Traders payload, as plain fields equal
/// to the named extraction's.
pub fn extract_emart_first(body: &str) -> (r: Result<EmartFields, ParseError>)
    ensures
        (r is Ok) == (json_ok(body@) && emart_first_of(body@) is Some),
        r is Ok ==> ({
            let m = emart_first_of(body@)->Some_0;
            &&& r->Ok_0.name@ == m.0
            &&& r->Ok_0.status@ == m.1
            &&& r->Ok_0.open_time@ == m.2
            &&& r->Ok_0.close_time@ == m.3
            &&& opt_text(r->Ok_0.holiday1) == m.4
            &&& opt_text(r->Ok_0.holiday2) == m.5
            &&& opt_text(r->Ok_0.holiday3) == m.6
        }),
        r is Err && !json_ok(body@) ==> r->Err_0 is Malformed,
        r is Err && json_ok(body@) ==> r->Err_0 is MissingField,
{
    emart_first_raw(body)
}

/// The branch list items of a HomePlus result page, in document order,
/// field for field the named extraction's items.
pub fn extract_homeplus_items(body: &str) -> (r: Vec<HomePlusFields>)
    ensures
        r@.len() == homeplus_items_of(body@).len(),
        forall|k: int| #![auto]
            0 <= k < r@.len() ==> r@[k].name@ == homeplus_items_of(body@)[k].0
                && r@[k].time_text@ == homeplus_items_of(body@)[k].1 && r@[k].off_text@
                == homeplus_items_of(body@)[k].2,
{
    homeplus_items_raw(body)
}

/// The display names of a Costco search payload, exactly as the named
/// extraction gives them. Keyword narrowing happens afterwards, in
/// verified code.
pub fn extract_costco_names(body: &str) -> (r: Result<Vec<String>, ParseError>)
    ensures
        (r is Ok) == (json_ok(body@) && costco_names_of(body@) is Some),
        r is Ok ==> texts_of(r->Ok_0@) == costco_names_of(body@)->Some_0,
        r is Err && !json_ok(body@) ==> r->Err_0 is Malformed,
        r is Err && json_ok(body@) ==> r->Err_0 is MissingField,
{
    costco_names_raw(body)
}

/// The first record of a Costco payload, its opening hours keyed by
/// the current weekday's single-letter Korean label, field for field
/// the named extraction's record.
pub fn extract_costco_first(body: &str, weekday_key: &str) -> (r: Result<CostcoFields, ParseError>)
    ensures
        (r is Ok) == (json_ok(body@) && costco_first_of(body@, weekday_key@) is Some),
        r is Ok ==> ({
            let m = costco_first_of(body@, weekday_key@)->Some_0;
            &&& r->Ok_0.display_name@ == m.0
            &&& r->Ok_0.individual@ == m.1
            &&& r->Ok_0.store_content@ == m.2
        }),
        r is Err && !json_ok(body@) ==> r->Err_0 is Malformed,
        r is Err && json_ok(body@) ==> r->Err_0 is MissingField,
{
    costco_first_raw(body, weekday_key)
}

pub open spec fn spec_flag_of_status(status: Seq<char>) -> OperationalFlag {
    if status == "CLOSED"@ {
        OperationalFlag::ClosedNow
    } else {
        OperationalFlag::OpenNow
    }
}

/// One EMart holiday field: an absent or empty field yields no date; a
/// valid `YYYYMMDD` date is kept while today has not passed it (the
/// fields are checked independently, gaps included); anything else is
/// malformed.
pub open spec fn spec_one_holiday(h: Option<Seq<char>>, today: Date) -> Option<Seq<u32>> {
    match h {
        None => Some(Seq::empty()),
        Some(s) => if s.len() == 0 {
            Some(Seq::empty())
        } else {
            match spec_yyyymmdd_seq(s) {
                Some(d) => if yyyymmdd(d) >= yyyymmdd(today) {
                    Some(seq![yyyymmdd(d) as u32])
                } else {
                    Some(Seq::empty())
                },
                None => None,
            }
        },
    }
}

/// The surviving holiday dates of an EMart/Traders record, in field
/// order; `None` when some non-empty field is not a date.
pub open spec fn spec_emart_holidays(
    h1: Option<Seq<char>>,
    h2: Option<Seq<char>>,
    h3: Option<Seq<char>>,
    today: Date,
) -> Option<Seq<u32>> {
    match (spec_one_holiday(h1, today), spec_one_holiday(h2, today), spec_one_holiday(h3, today)) {
        (Some(a), Some(b), Some(c)) => Some(a + b + c),
        _ => None,
    }
}

/// The operating window of an EMart/Traders record: both time texts
/// start with `HH:MM`, the open hour on the day's clock, the close
/// hour allowed to run past midnight.
pub open spec fn spec_emart_window(open_time: Seq<char>, close_time: Seq<char>, today: Date) -> Option<
    TimeWindow,
> {
    match spec_hhmm_at(open_time, 0) {
        Some(o) => match spec_hhmm_at(close_time, 0) {
            Some(c) => if o.0 < 24 && o.1 < 60 && c.0 < 48 && c.1 < 60 {
                Some(spec_make_window(today, o.0, o.1, c.0, c.1))
            } else {
                None
            },
            None => None,
        },
        None => None,
    }
}

fn one_holiday(h: &Option<String>, today: &Date) -> (r: Result<Option<u32>, ParseError>)
    requires
        valid_date(*today),
    ensures
        match spec_one_holiday(opt_text(*h), *today) {
            Some(hs) => r is Ok && (match r->Ok_0 {
                Some(v) => hs == seq![v] && v < 100000000,
                None => hs == Seq::<u32>::empty(),
            }),
            None => r == Err::<Option<u32>, ParseError>(ParseError::Malformed),
        },
{
    match h {
        None => Ok(None),
        Some(s) => {
            if s.as_str().unicode_len() == 0 {
                Ok(None)
            } else {
                let v: Vec<char> = chars_of(s.as_str());
                match parse_yyyymmdd_vec(&v) {
                    Some(d) => {
                        let n: u32 = yyyymmdd_u32(&d);
                        if n >= yyyymmdd_u32(today) {
                            Ok(Some(n))
                        } else {
                            Ok(None)
                        }
                    },
                    None => Err(ParseError::Malformed),
                }
            }
        },
    }
}

fn format_holiday_list(hs: &Vec<u32>) -> (r: Vec<String>)
    requires
        forall|k: int| 0 <= k < hs@.len() ==> hs@[k] < 100000000,
    ensures
        r@.len() == hs@.len(),
        forall|k: int| 0 <= k < hs@.len() ==> r@[k]@ == spec_format_yyyymmdd(hs@[k] as int),
{
    let mut r: Vec<String> = Vec::new();
    let mut i: usize = 0;
    while i < hs.len()
        invariant
            i <= hs@.len(),
            r@.len() == i,
            forall|k: int| 0 <= k < hs@.len() ==> hs@[k] < 100000000,
            forall|k: int| 0 <= k < i ==> r@[k]@ == spec_format_yyyymmdd(hs@[k] as int),
        decreases hs@.len() - i,
    {
        let ghost r0: Seq<String> = r@;
        r.push(format_yyyymmdd(hs[i]));
        proof {
            assert forall|k: int| 0 <= k < i + 1 implies r@[k]@ == spec_format_yyyymmdd(
                hs@[k] as int,
            ) by {
                if k < i {
                    assert(r@[k] == r0[k]);
                } else {
                    assert(k == i);
                }
            }
        }
        i += 1;
    }
    r
}

/// Status of an EMart/Traders record. The record's own flag
/// short-circuits the close-time comparison; holiday membership
/// dominates everything. The raw time texts are echoed back.
pub fn emart_status(f: &EmartFields, now: &Instant) -> (r: Result<InfoResponse, ParseError>)
    requires
        valid_instant(*now),
        !is_max_date(now.date),
    ensures
        (r is Ok) == (spec_emart_holidays(opt_text(f.holiday1), opt_text(f.holiday2), opt_text(f.holiday3), now.date) is Some
            && spec_emart_window(f.open_time@, f.close_time@, now.date) is Some),
        r is Err ==> r->Err_0 == ParseError::Malformed,
        r is Ok ==> ({
            let resp = r->Ok_0;
            let hs = spec_emart_holidays(opt_text(f.holiday1), opt_text(f.holiday2), opt_text(
                f.holiday3,
            ), now.date)->Some_0;
            let w = spec_emart_window(f.open_time@, f.close_time@, now.date)->Some_0;
            &&& resp.name@ == f.name@
            &&& resp.start_time@ == f.open_time@
            &&& resp.end_time@ == f.close_time@
            &&& resp.state == spec_state(*now, spec_flag_of_status(f.status@), w, hs)
            &&& resp.holidays@.len() == hs.len()
            &&& forall|k: int|
                0 <= k < hs.len() ==> resp.holidays@[k]@ == spec_format_yyyymmdd(hs[k] as int)
        }),
{
    let h1: Option<u32> = match one_holiday(&f.holiday1, &now.date) {
        Ok(x) => x,
        Err(e) => {
            return Err(e);
        },
    };
    let h2: Option<u32> = match one_holiday(&f.holiday2, &now.date) {
        Ok(x) => x,
        Err(e) => {
            return Err(e);
        },
    };
    let h3: Option<u32> = match one_holiday(&f.holiday3, &now.date) {
        Ok(x) => x,
        Err(e) => {
            return Err(e);
        },
    };
    let mut hs: Vec<u32> = Vec::new();
    if let Some(v) = h1 {
        hs.push(v);
    }
    if let Some(v) = h2 {
        hs.push(v);
    }
    if let Some(v) = h3 {
        hs.push(v);
    }
    proof {
        assert(hs@ =~= spec_emart_holidays(opt_text(f.holiday1), opt_text(f.holiday2), opt_text(
            f.holiday3,
        ), now.date)->Some_0);
    }
    let ov: Vec<char> = chars_of(f.open_time.as_str());
    let o: (u32, u32) = match parse_hhmm_at(&ov, 0) {
        Some(p) => p,
        None => {
            return Err(ParseError::Malformed);
        },
    };
    let cv: Vec<char> = chars_of(f.close_time.as_str());
    let c: (u32, u32) = match parse_hhmm_at(&cv, 0) {
        Some(p) => p,
        None => {
            return Err(ParseError::Malformed);
        },
    };
    if !(o.0 < 24 && o.1 < 60 && c.0 < 48 && c.1 < 60) {
        return Err(ParseError::Malformed);
    }
    let w: TimeWindow = make_window(now.date, o.0, o.1, c.0, c.1);
    let flag: OperationalFlag = if str_eq(f.status.as_str(), "CLOSED") {
        OperationalFlag::ClosedNow
    } else {
        OperationalFlag::OpenNow
    };
    let state = evaluate(now, flag, &w, &hs);
    let holidays: Vec<String> = format_holiday_list(&hs);
    Ok(
        InfoResponse {
            name: f.name.clone(),
            state,
            start_time: f.open_time.clone(),
            end_time: f.close_time.clone(),
            holidays,
        },
    )
}

/// The operating window a HomePlus time-range text describes: exactly
/// `HH:MM~HH:MM`, the close hour allowed to run past midnight.
pub open spec fn spec_homeplus_window(t: Seq<char>, today: Date) -> Option<TimeWindow> {
    if t.len() == 11 && t[5] == '~' {
        match (spec_hhmm_at(t, 0), spec_hhmm_at(t, 6)) {
            (Some(o), Some(c)) => if o.0 < 24 && o.1 < 60 && c.0 < 48 && c.1 < 60 {
                Some(spec_make_window(today, o.0, o.1, c.0, c.1))
            } else {
                None
            },
            _ => None,
        }
    } else {
        None
    }
}

/// The holiday the HomePlus off-day label describes: its date with the
/// separators stripped, kept while today has not passed it; an empty
/// label means no holiday.
pub open spec fn spec_homeplus_holidays(off: Seq<char>, today: Date) -> Option<Seq<u32>> {
    let stripped = strip_dashes(off);
    if stripped.len() == 0 {
        Some(Seq::empty())
    } else {
        match spec_yyyymmdd_seq(stripped) {
            Some(d) => if yyyymmdd(d) >= yyyymmdd(today) {
                Some(seq![yyyymmdd(d) as u32])
            } else {
                Some(Seq::empty())
            },
            None => None,
        }
    }
}

/// Status of one HomePlus branch item. HomePlus reports no operational
/// flag, so the state rests on the window and the holiday alone. The
/// two halves of the raw time range are echoed back.
pub fn homeplus_status(item: &HomePlusFields, now: &Instant) -> (r: Result<
    InfoResponse,
    ParseError,
>)
    requires
        valid_instant(*now),
        !is_max_date(now.date),
    ensures
        (r is Ok) == (spec_homeplus_window(item.time_text@, now.date) is Some
            && spec_homeplus_holidays(item.off_text@, now.date) is Some),
        r is Err ==> r->Err_0 == ParseError::Malformed,
        r is Ok ==> ({
            let resp = r->Ok_0;
            let w = spec_homeplus_window(item.time_text@, now.date)->Some_0;
            let hs = spec_homeplus_holidays(item.off_text@, now.date)->Some_0;
            &&& resp.name@ == item.name@
            &&& resp.start_time@ == item.time_text@.subrange(0, 5)
            &&& resp.end_time@ == item.time_text@.subrange(6, 11)
            &&& resp.state == spec_state(*now, OperationalFlag::OpenNow, w, hs)
            &&& resp.holidays@.len() == hs.len()
            &&& forall|k: int|
                0 <= k < hs.len() ==> resp.holidays@[k]@ == spec_format_yyyymmdd(hs[k] as int)
        }),
{
    let tv: Vec<char> = chars_of(item.time_text.as_str());
    if tv.len() != 11 {
        return Err(ParseError::Malformed);
    }
    if tv[5] != '~' {
        return Err(ParseError::Malformed);
    }
    let o: (u32, u32) = match parse_hhmm_at(&tv, 0) {
        Some(p) => p,
        None => {
            return Err(ParseError::Malformed);
        },
    };
    let c: (u32, u32) = match parse_hhmm_at(&tv, 6) {
        Some(p) => p,
        None => {
            return Err(ParseError::Malformed);
        },
    };
    if !(o.0 < 24 && o.1 < 60 && c.0 < 48 && c.1 < 60) {
        return Err(ParseError::Malformed);
    }
    let ov: Vec<char> = chars_of(item.off_text.as_str());
    let stripped: Vec<char> = strip_dashes_vec(&ov);
    let mut hs: Vec<u32> = Vec::new();
    if stripped.len() > 0 {
        match parse_yyyymmdd_vec(&stripped) {
            Some(d) => {
                let n: u32 = yyyymmdd_u32(&d);
                if n >= yyyymmdd_u32(&now.date) {
                    hs.push(n);
                }
            },
            None => {
                return Err(ParseError::Malformed);
            },
        }
    }
    proof {
        assert(hs@ =~= spec_homeplus_holidays(item.off_text@, now.date)->Some_0);
    }
    let w: TimeWindow = make_window(now.date, o.0, o.1, c.0, c.1);
    let state = evaluate(now, OperationalFlag::OpenNow, &w, &hs);
    let holidays: Vec<String> = format_holiday_list(&hs);
    let start_time: String = item.time_text.as_str().substring_char(0, 5).to_owned();
    let end_time: String = item.time_text.as_str().substring_char(6, 11).to_owned();
    Ok(InfoResponse { name: item.name.clone(), state, start_time, end_time, holidays })
}

/// The operating window a Costco `individual` text describes: two
/// 12-hour times with Korean AM/PM markers joined by `" - "`, both on
/// the current day.
pub open spec fn spec_costco_window(ind: Seq<char>, today: Date) -> Option<TimeWindow> {
    if ind.len() == 19 && ind[8] == ' ' && ind[9] == '-' && ind[10] == ' ' {
        match (spec_korean_12h_at(ind, 0), spec_korean_12h_at(ind, 11)) {
            (Some(o), Some(c)) => Some(spec_make_window(today, o.0, o.1, c.0, c.1)),
            _ => None,
        }
    } else {
        None
    }
}

/// The holiday dates a Costco record's free-text `storeContent` yields
/// for the reference month.
pub open spec fn spec_costco_holidays(content: Seq<char>, today: Date) -> Seq<u32> {
    match spec_rule(content) {
        Some(rule) => spec_resolved(rule, today),
        None => Seq::empty(),
    }
}

/// Status of the first Costco search result. Costco reports no
/// operational flag; its holidays come from the recurrence resolver.
/// The parsed times are echoed back on the 24-hour clock.
pub fn costco_status(fields: &CostcoFields, now: &Instant) -> (r: Result<InfoResponse, ParseError>)
    requires
        valid_instant(*now),
    ensures
        (r is Ok) == (spec_costco_window(fields.individual@, now.date) is Some),
        r is Err ==> r->Err_0 == ParseError::Malformed,
        r is Ok ==> ({
            let resp = r->Ok_0;
            let w = spec_costco_window(fields.individual@, now.date)->Some_0;
            let hs = spec_costco_holidays(fields.store_content@, now.date);
            let o = spec_korean_12h_at(fields.individual@, 0)->Some_0;
            let c = spec_korean_12h_at(fields.individual@, 11)->Some_0;
            &&& resp.name@ == fields.display_name@
            &&& resp.start_time@ == spec_format_hhmm(o.0, o.1)
            &&& resp.end_time@ == spec_format_hhmm(c.0, c.1)
            &&& resp.state == spec_state(*now, OperationalFlag::OpenNow, w, hs)
            &&& resp.holidays@.len() == hs.len()
            &&& forall|k: int|
                0 <= k < hs.len() ==> resp.holidays@[k]@ == spec_format_yyyymmdd(hs[k] as int)
        }),
{
    let iv: Vec<char> = chars_of(fields.individual.as_str());
    if iv.len() != 19 {
        return Err(ParseError::Malformed);
    }
    if !(iv[8] == ' ' && iv[9] == '-' && iv[10] == ' ') {
        return Err(ParseError::Malformed);
    }
    let o: (u32, u32) = match parse_korean_12h_at(&iv, 0) {
        Some(p) => p,
        None => {
            return Err(ParseError::Malformed);
        },
    };
    let c: (u32, u32) = match parse_korean_12h_at(&iv, 11) {
        Some(p) => p,
        None => {
            return Err(ParseError::Malformed);
        },
    };
    let hs: Vec<u32> = resolve_holidays(fields.store_content.as_str(), &now.date);
    let w: TimeWindow = make_window(now.date, o.0, o.1, c.0, c.1);
    let state = evaluate(now, OperationalFlag::OpenNow, &w, &hs);
    let holidays: Vec<String> = format_holiday_list(&hs);
    let start_time: String = format_hhmm(o.0, o.1);
    let end_time: String = format_hhmm(c.0, c.1);
    Ok(InfoResponse { name: fields.display_name.clone(), state, start_time, end_time, holidays })
}


/// The holiday lists the adapters build keep only dates the reference
/// date has not passed: every surviving EMart holiday is today or
/// later.
pub proof fn lemma_emart_holidays_upcoming(
    h1: Option<Seq<char>>,
    h2: Option<Seq<char>>,
    h3: Option<Seq<char>>,
    today: Date,
)
    requires
        spec_emart_holidays(h1, h2, h3, today) is Some,
    ensures
        forall|k: int|
            0 <= k < spec_emart_holidays(h1, h2, h3, today)->Some_0.len()
                ==> spec_emart_holidays(h1, h2, h3, today)->Some_0[k] >= yyyymmdd(today),
{
}

/// The HomePlus off-day survives only while today has not passed it.
pub proof fn lemma_homeplus_holidays_upcoming(off: Seq<char>, today: Date)
    requires
        spec_homeplus_holidays(off, today) is Some,
    ensures
        forall|k: int|
            0 <= k < spec_homeplus_holidays(off, today)->Some_0.len() ==> spec_homeplus_holidays(
                off,
                today,
            )->Some_0[k] >= yyyymmdd(today),
{
}

} // verus!
