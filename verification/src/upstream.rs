//! Trusted extraction of the upstream payloads through serde_json and
//! nipper. Each payload's extraction result is a function of the raw
//! body text alone (JSON and HTML parsing, CSS selection and document
//! order are deterministic), so it is given a name here: an
//! uninterpreted function that the trusted items below apply and that
//! the adapters' and aggregator's contracts speak of. Everything after
//! extraction works on the plain values handed back and is verified.

use vstd::prelude::*;
use crate::adapters::{CostcoFields, EmartFields, HomePlusFields, ParseError, opt_text, texts_of};

verus! {

/// Whether serde_json parses the body at all.
pub uninterp spec fn json_ok(body: Seq<char>) -> bool;

/// The `NAME` of each element of `dataList`, in upstream order; `None`
/// when the list is missing or some element's name is not a string.
pub uninterp spec fn emart_names_of(body: Seq<char>) -> Option<Seq<Seq<char>>>;

/// The fields of `dataList[0]`: name, status, open and close time
/// texts, then the three optional holiday texts; `None` when the
/// record or a required field is missing.
pub uninterp spec fn emart_first_of(body: Seq<char>) -> Option<
    (Seq<char>, Seq<char>, Seq<char>, Seq<char>, Option<Seq<char>>, Option<Seq<char>>, Option<
        Seq<char>,
    >),
>;

/// For each branch list item of the result page, in document order:
/// the name anchor text, the first time-range text and the off-day
/// label text (empty texts where a part is absent).
pub uninterp spec fn homeplus_items_of(body: Seq<char>) -> Seq<(Seq<char>, Seq<char>, Seq<char>)>;

/// The `displayName` of each element of `data`, in upstream order.
pub uninterp spec fn costco_names_of(body: Seq<char>) -> Option<Seq<Seq<char>>>;

/// The fields of `data[0]`, with the opening hours read under the
/// given weekday key: display name, the day's `individual` hours text,
/// and the free-text `storeContent`.
pub uninterp spec fn costco_first_of(body: Seq<char>, day_key: Seq<char>) -> Option<
    (Seq<char>, Seq<char>, Seq<char>),
>;

/// Relies on serde_json (`from_str`, `Value::get`, `Value::as_array`,
/// `Value::as_str`): reads the `NAME` of each `dataList` element. The
/// result depends on the body alone.
#[verifier::external_body]
pub(crate) fn emart_names_raw(body: &str) -> (r: Result<Vec<String>, ParseError>)
    ensures
        !json_ok(body@) ==> r is Err && r->Err_0 is Malformed,
        json_ok(body@) ==> ((r is Ok) == (emart_names_of(body@) is Some)),
        json_ok(body@) && emart_names_of(body@) is None ==> r is Err && r->Err_0 is MissingField,
        r is Ok ==> texts_of(r->Ok_0@) == emart_names_of(body@)->Some_0,
{
    let parsed: serde_json::Value = match serde_json::from_str(body) {
        Ok(v) => v,
        Err(_) => return Err(ParseError::Malformed),
    };
    let arr = match parsed.get("dataList").and_then(|l| l.as_array()) {
        Some(a) => a,
        None => return Err(ParseError::MissingField),
    };
    let names: Option<Vec<String>> =
        arr.iter().map(|e| e.get("NAME").and_then(|n| n.as_str()).map(str::to_owned)).collect();
    names.ok_or(ParseError::MissingField)
}

/// Relies on serde_json (`from_str`, `Value::get`, `Value::as_str`):
/// reads the first `dataList` record's fields. The result depends on
/// the body alone.
#[verifier::external_body]
pub(crate) fn emart_first_raw(body: &str) -> (r: Result<EmartFields, ParseError>)
    ensures
        !json_ok(body@) ==> r is Err && r->Err_0 is Malformed,
        json_ok(body@) ==> ((r is Ok) == (emart_first_of(body@) is Some)),
        json_ok(body@) && emart_first_of(body@) is None ==> r is Err && r->Err_0 is MissingField,
        r is Ok ==> ({
            let m = emart_first_of(body@)->Some_0;
            &&& r->Ok_0.name@ == m.0
            &&& r->Ok_0.status@ == m.1
            &&& r->Ok_0.open_time@ == m.2
            &&& r->Ok_0.close_time@ == m.3
            &&& opt_text(r->Ok_0.holiday1) == m.4
            &&& opt_text(r->Ok_0.holiday2) == m.5
            &&& opt_text(r->Ok_0.holiday3) == m.6
        }),
{
    let parsed: serde_json::Value =
        serde_json::from_str(body).map_err(|_| ParseError::Malformed)?;
    let rec = |k: &str| -> Option<String> {
        parsed.get("dataList")?.get(0)?.get(k)?.as_str().map(str::to_owned)
    };
    let miss = ParseError::MissingField;
    Ok(EmartFields {
        name: rec("NAME").ok_or(miss)?,
        status: rec("JIJUM_STATUS").ok_or(miss)?,
        open_time: rec("OPEN_SHOPPING_TIME").ok_or(miss)?,
        close_time: rec("CLOSE_SHOPPING_TIME").ok_or(miss)?,
        holiday1: rec("HOLIDAY_DAY1_YYYYMMDD"), holiday2: rec("HOLIDAY_DAY2_YYYYMMDD"),
        holiday3: rec("HOLIDAY_DAY3_YYYYMMDD"),
    })
}

/// Relies on nipper (`Document::from<&str>` over html5ever,
/// `select`, `iter`, `text`): the branch list items in document order.
/// The selectors are fixed valid literals, so `select` cannot panic;
/// nipper's text buffers cap at 2^32 bytes, far above any HTTP body
/// seen here. The result depends on the body alone.
#[verifier::external_body]
pub(crate) fn homeplus_items_raw(body: &str) -> (r: Vec<HomePlusFields>)
    ensures
        r@.len() == homeplus_items_of(body@).len(),
        forall|k: int| #![auto]
            0 <= k < r@.len() ==> r@[k].name@ == homeplus_items_of(body@)[k].0
                && r@[k].time_text@ == homeplus_items_of(body@)[k].1 && r@[k].off_text@
                == homeplus_items_of(body@)[k].2,
{
    let doc = nipper::Document::from(body);
    doc.select("ul.result_list > li.clearfix").iter().map(|node| {
        let row = nipper::Selection::from(node);
        let text = |sel: &str| row.select(sel).text().to_string();
        HomePlusFields {
            name: text("span.name > a"),
            time_text: text(".time > span:nth-child(1)"),
            off_text: text(".time > span.off"),
        }
    }).collect()
}

/// Relies on serde_json (`from_str`, `Value::get`, `Value::as_array`,
/// `Value::as_str`): reads the `displayName` of each `data` element.
/// The result depends on the body alone.
#[verifier::external_body]
pub(crate) fn costco_names_raw(body: &str) -> (r: Result<Vec<String>, ParseError>)
    ensures
        !json_ok(body@) ==> r is Err && r->Err_0 is Malformed,
        json_ok(body@) ==> ((r is Ok) == (costco_names_of(body@) is Some)),
        json_ok(body@) && costco_names_of(body@) is None ==> r is Err && r->Err_0 is MissingField,
        r is Ok ==> texts_of(r->Ok_0@) == costco_names_of(body@)->Some_0,
{
    let parsed: serde_json::Value = match serde_json::from_str(body) {
        Ok(v) => v,
        Err(_) => return Err(ParseError::Malformed),
    };
    let arr = match parsed.get("data").and_then(|l| l.as_array()) {
        Some(a) => a,
        None => return Err(ParseError::MissingField),
    };
    let names: Option<Vec<String>> = arr.iter().map(
        |e| e.get("displayName").and_then(|n| n.as_str()).map(str::to_owned),
    ).collect();
    names.ok_or(ParseError::MissingField)
}

/// Relies on serde_json (`from_str`, `Value::get`, `Value::as_str`):
/// reads the first `data` record, its hours under the given weekday
/// key, and its free text. The result depends on the body and the key
/// alone.
#[verifier::external_body]
pub(crate) fn costco_first_raw(body: &str, day_key: &str) -> (r: Result<CostcoFields, ParseError>)
    ensures
        !json_ok(body@) ==> r is Err && r->Err_0 is Malformed,
        json_ok(body@) ==> ((r is Ok) == (costco_first_of(body@, day_key@) is Some)),
        json_ok(body@) && costco_first_of(body@, day_key@) is None ==> r is Err && r->Err_0
            is MissingField,
        r is Ok ==> ({
            let m = costco_first_of(body@, day_key@)->Some_0;
            &&& r->Ok_0.display_name@ == m.0
            &&& r->Ok_0.individual@ == m.1
            &&& r->Ok_0.store_content@ == m.2
        }),
{
    let parsed: serde_json::Value =
        serde_json::from_str(body).map_err(|_| ParseError::Malformed)?;
    let rec = |k: &str| -> Option<String> {
        parsed.get("data")?.get(0)?.get(k)?.as_str().map(str::to_owned)
    };
    let hours = || -> Option<String> {
        parsed.get("data")?.get(0)?.get("openings")?.get(day_key)?.get("individual")?.as_str().map(str::to_owned)
    };
    let miss = ParseError::MissingField;
    Ok(CostcoFields {
        display_name: rec("displayName").ok_or(miss)?,
        individual: hours().ok_or(miss)?,
        store_content: rec("storeContent").ok_or(miss)?,
    })
}

} // verus!
