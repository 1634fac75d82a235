//! The search/info aggregator: dispatches a request to the right
//! chain's adapter, applies the chain-specific matching rule, and maps
//! empty or failed outcomes to the typed "no result" message. Domain
//! failures never abort a request.

use vstd::prelude::*;
use crate::adapters::{CostcoFields, EmartFields, HomePlusFields, costco_status,
    extract_costco_first, extract_costco_names, extract_emart_first, extract_emart_names,
    extract_homeplus_items, emart_status, homeplus_status, spec_costco_holidays,
    spec_costco_window, spec_emart_holidays, spec_emart_window, spec_flag_of_status,
    spec_homeplus_holidays, spec_homeplus_window, texts_of};
use crate::dates::{Instant, is_max_date, valid_instant, weekday_index, weekday_of};
use crate::evaluator::{OperationalFlag, spec_state};
use crate::responses::{ErrorResponse, InfoResponse, SearchResponse, no_result_error,
    no_result_message};
use crate::textparse::{contains_seq, lemma_contains_self, spec_format_hhmm, spec_format_yyyymmdd,
    spec_korean_12h_at, str_contains, str_eq};
use crate::upstream::{costco_first_of, costco_names_of, emart_first_of, emart_names_of,
    homeplus_items_of, json_ok};

verus! {

/// The four supported retail chains. EMart and Traders share one
/// upstream, told apart by a discriminator.
#[derive(Clone, Copy, PartialEq, Eq, Structural, Debug)]
pub enum Chain {
    EMart,
    Traders,
    HomePlus,
    Costco,
}

pub open spec fn spec_chain_of(s: Seq<char>) -> Option<Chain> {
    if s == "emart"@ {
        Some(Chain::EMart)
    } else if s == "traders"@ {
        Some(Chain::Traders)
    } else if s == "homeplus"@ {
        Some(Chain::HomePlus)
    } else if s == "costco"@ {
        Some(Chain::Costco)
    } else {
        None
    }
}

/// The chain a path discriminator names; anything else is the
/// unsupported-chain outcome.
pub fn chain_of(mart: &str) -> (r: Option<Chain>)
    ensures
        r == spec_chain_of(mart@),
{
    if str_eq(mart, "emart") {
        Some(Chain::EMart)
    } else if str_eq(mart, "traders") {
        Some(Chain::Traders)
    } else if str_eq(mart, "homeplus") {
        Some(Chain::HomePlus)
    } else if str_eq(mart, "costco") {
        Some(Chain::Costco)
    } else {
        None
    }
}

/// The discriminator the shared EMart/Traders upstream expects in its
/// search form.
pub fn emart_search_type(chain: Chain) -> (r: &'static str)
    ensures
        chain is EMart ==> r@ == "EM"@,
        chain is Traders ==> r@ == "TR"@,
        !(chain is EMart) && !(chain is Traders) ==> r@ == ""@,
{
    match chain {
        Chain::EMart => "EM",
        Chain::Traders => "TR",
        _ => "",
    }
}

/// The single-letter Korean label of a weekday (Monday = 0), the key
/// Costco's `openings` map uses.
pub open spec fn spec_korean_weekday_char(wd: int) -> char {
    if wd == 0 {
        '월'
    } else if wd == 1 {
        '화'
    } else if wd == 2 {
        '수'
    } else if wd == 3 {
        '목'
    } else if wd == 4 {
        '금'
    } else if wd == 5 {
        '토'
    } else {
        '일'
    }
}

pub fn costco_weekday_key(wd: u32) -> (r: &'static str)
    requires
        wd < 7,
    ensures
        r@ =~= seq![spec_korean_weekday_char(wd as int)],
{
    proof {
        reveal_strlit("월");
        reveal_strlit("화");
        reveal_strlit("수");
        reveal_strlit("목");
        reveal_strlit("금");
        reveal_strlit("토");
        reveal_strlit("일");
    }
    if wd == 0 {
        "월"
    } else if wd == 1 {
        "화"
    } else if wd == 2 {
        "수"
    } else if wd == 3 {
        "목"
    } else if wd == 4 {
        "금"
    } else if wd == 5 {
        "토"
    } else {
        "일"
    }
}

/// The names that survive the keyword-containment narrowing, in their
/// original order.
pub open spec fn spec_matching_names(names: Seq<String>, kw: Seq<char>) -> Seq<String>
    decreases names.len(),
{
    if names.len() == 0 {
        Seq::empty()
    } else if contains_seq(names.last()@, kw) {
        spec_matching_names(names.drop_last(), kw).push(names.last())
    } else {
        spec_matching_names(names.drop_last(), kw)
    }
}

/// Every name the narrowing keeps contains the keyword.
pub proof fn lemma_matching_names_contain(names: Seq<String>, kw: Seq<char>)
    ensures
        forall|k: int|
            0 <= k < spec_matching_names(names, kw).len() ==> contains_seq(
                #[trigger] spec_matching_names(names, kw)[k]@,
                kw,
            ),
    decreases names.len(),
{
    if names.len() > 0 {
        lemma_matching_names_contain(names.drop_last(), kw);
        let rec = spec_matching_names(names.drop_last(), kw);
        let cur = spec_matching_names(names, kw);
        assert forall|k: int| 0 <= k < cur.len() implies contains_seq(cur[k]@, kw) by {
            if contains_seq(names.last()@, kw) {
                if k < rec.len() {
                    assert(cur[k] == rec[k]);
                } else {
                    assert(cur[k] == names.last());
                }
            } else {
                assert(cur[k] == rec[k]);
            }
        }
    }
}

/// The same narrowing, over the name texts themselves.
pub open spec fn spec_matching_texts(names: Seq<Seq<char>>, kw: Seq<char>) -> Seq<Seq<char>>
    decreases names.len(),
{
    if names.len() == 0 {
        Seq::empty()
    } else if contains_seq(names.last(), kw) {
        spec_matching_texts(names.drop_last(), kw).push(names.last())
    } else {
        spec_matching_texts(names.drop_last(), kw)
    }
}

/// Narrowing a name list and taking the texts commute.
proof fn lemma_matching_names_texts(names: Seq<String>, kw: Seq<char>)
    ensures
        texts_of(spec_matching_names(names, kw)) == spec_matching_texts(texts_of(names), kw),
    decreases names.len(),
{
    if names.len() == 0 {
        assert(texts_of(spec_matching_names(names, kw)) =~= spec_matching_texts(
            texts_of(names),
            kw,
        ));
    } else {
        lemma_matching_names_texts(names.drop_last(), kw);
        assert(texts_of(names).drop_last() =~= texts_of(names.drop_last()));
        assert(texts_of(names).last() == names.last()@);
        if contains_seq(names.last()@, kw) {
            assert(texts_of(spec_matching_names(names, kw)) =~= texts_of(
                spec_matching_names(names.drop_last(), kw),
            ).push(names.last()@));
        }
        assert(texts_of(spec_matching_names(names, kw)) =~= spec_matching_texts(
            texts_of(names),
            kw,
        ));
    }
}

/// Index of the first extracted item whose name text equals the
/// requested one, scanning from position `i`.
pub open spec fn hp_first_match(
    items: Seq<(Seq<char>, Seq<char>, Seq<char>)>,
    requested: Seq<char>,
    i: int,
) -> Option<int>
    decreases items.len() - i
        when 0 <= i
{
    if i >= items.len() {
        None
    } else if items[i].0 == requested {
        Some(i)
    } else {
        hp_first_match(items, requested, i + 1)
    }
}

proof fn lemma_hp_first_match_found(
    items: Seq<(Seq<char>, Seq<char>, Seq<char>)>,
    requested: Seq<char>,
    j: int,
    i: int,
)
    requires
        0 <= j <= i < items.len(),
        items[i].0 == requested,
        forall|k: int| j <= k < i ==> items[k].0 != requested,
    ensures
        hp_first_match(items, requested, j) == Some(i),
    decreases i - j,
{
    if j < i {
        lemma_hp_first_match_found(items, requested, j + 1, i);
    }
}

proof fn lemma_hp_first_match_none(
    items: Seq<(Seq<char>, Seq<char>, Seq<char>)>,
    requested: Seq<char>,
    j: int,
)
    requires
        0 <= j,
        forall|k: int| j <= k < items.len() ==> items[k].0 != requested,
    ensures
        hp_first_match(items, requested, j) is None,
    decreases items.len() - j,
{
    if j < items.len() {
        lemma_hp_first_match_none(items, requested, j + 1);
    }
}

/// Keeps the names that contain the decoded keyword: the upstream
/// Costco search matches loosely, so its results are narrowed here.
pub fn filter_names_by_keyword(names: &Vec<String>, keyword: &str) -> (r: Vec<String>)
    ensures
        r@ == spec_matching_names(names@, keyword@),
{
    let mut r: Vec<String> = Vec::new();
    let mut i: usize = 0;
    while i < names.len()
        invariant
            i <= names@.len(),
            r@ == spec_matching_names(names@.subrange(0, i as int), keyword@),
        decreases names@.len() - i,
    {
        proof {
            assert(names@.subrange(0, i + 1).drop_last() =~= names@.subrange(0, i as int));
            assert(names@.subrange(0, i + 1).last() == names@[i as int]);
        }
        if str_contains(names[i].as_str(), keyword) {
            r.push(names[i].clone());
        }
        i += 1;
    }
    proof {
        assert(names@.subrange(0, names@.len() as int) =~= names@);
    }
    r
}

/// An empty name list is the "no result" outcome; a non-empty one is a
/// successful search carrying exactly those names.
pub fn names_to_search_response(names: Vec<String>) -> (r: Result<SearchResponse, ErrorResponse>)
    ensures
        names@.len() == 0 ==> r is Err && r->Err_0.error@ == no_result_message(),
        names@.len() > 0 ==> r is Ok && r->Ok_0.result == names,
{
    if names.len() == 0 {
        Err(no_result_error())
    } else {
        Ok(SearchResponse { result: names })
    }
}

/// The branch names of the HomePlus items, in order.
pub fn homeplus_names(items: &Vec<HomePlusFields>) -> (r: Vec<String>)
    ensures
        r@.len() == items@.len(),
        forall|k: int| 0 <= k < items@.len() ==> r@[k]@ == items@[k].name@,
{
    let mut r: Vec<String> = Vec::new();
    let mut i: usize = 0;
    while i < items.len()
        invariant
            i <= items@.len(),
            r@.len() == i,
            forall|k: int| 0 <= k < i ==> r@[k]@ == items@[k].name@,
        decreases items@.len() - i,
    {
        let ghost r0: Seq<String> = r@;
        r.push(items[i].name.clone());
        proof {
            assert forall|k: int| 0 <= k < i + 1 implies r@[k]@ == items@[k].name@ by {
                if k < i {
                    assert(r@[k] == r0[k]);
                } else {
                    assert(k == i);
                }
            }
        }
        i += 1;
    }
    r
}

/// Index of the first item whose branch name equals the requested one.
fn find_name_match(items: &Vec<HomePlusFields>, requested: &str) -> (r: Option<usize>)
    ensures
        match r {
            Some(i) => i < items@.len() && items@[i as int].name@ == requested@ && forall|k: int|
                0 <= k < i ==> items@[k].name@ != requested@,
            None => forall|k: int| 0 <= k < items@.len() ==> items@[k].name@ != requested@,
        },
{
    let mut i: usize = 0;
    while i < items.len()
        invariant
            i <= items@.len(),
            forall|k: int| 0 <= k < i ==> items@[k].name@ != requested@,
        decreases items@.len() - i,
    {
        if str_eq(items[i].name.as_str(), requested) {
            return Some(i);
        }
        i += 1;
    }
    None
}

/// Searches one chain's raw payload for branch names. EMart/Traders
/// and HomePlus list every name the upstream returned; Costco narrows
/// to names containing the decoded keyword. An empty outcome or an
/// unreadable payload becomes the fixed "no result" message.
pub fn search(chain: Chain, keyword: &str, raw_body: &str) -> (r: Result<
    SearchResponse,
    ErrorResponse,
>)
    ensures
        r is Err ==> r->Err_0.error@ == no_result_message(),
        r is Ok ==> r->Ok_0.result@.len() > 0,
        chain is EMart || chain is Traders ==> ((r is Ok) == (json_ok(raw_body@)
            && emart_names_of(raw_body@) is Some && emart_names_of(raw_body@)->Some_0.len() > 0)),
        (chain is EMart || chain is Traders) && r is Ok ==> texts_of(r->Ok_0.result@)
            == emart_names_of(raw_body@)->Some_0,
        chain is HomePlus ==> ((r is Ok) == (homeplus_items_of(raw_body@).len() > 0)),
        chain is HomePlus && r is Ok ==> r->Ok_0.result@.len() == homeplus_items_of(
            raw_body@,
        ).len() && forall|k: int| #![auto]
            0 <= k < r->Ok_0.result@.len() ==> r->Ok_0.result@[k]@ == homeplus_items_of(
                raw_body@,
            )[k].0,
        chain is Costco ==> ((r is Ok) == (json_ok(raw_body@) && costco_names_of(raw_body@) is Some
            && spec_matching_texts(costco_names_of(raw_body@)->Some_0, keyword@).len() > 0)),
        chain is Costco && r is Ok ==> texts_of(r->Ok_0.result@) == spec_matching_texts(
            costco_names_of(raw_body@)->Some_0,
            keyword@,
        ),
        chain is Costco && r is Ok ==> forall|k: int|
            0 <= k < r->Ok_0.result@.len() ==> contains_seq(
                #[trigger] r->Ok_0.result@[k]@,
                keyword@,
            ),
{
    let names: Vec<String> = match chain {
        Chain::EMart | Chain::Traders => match extract_emart_names(raw_body) {
            Ok(n) => n,
            Err(_) => Vec::new(),
        },
        Chain::HomePlus => {
            let items: Vec<HomePlusFields> = extract_homeplus_items(raw_body);
            homeplus_names(&items)
        },
        Chain::Costco => {
            let all: Vec<String> = match extract_costco_names(raw_body) {
                Ok(n) => n,
                Err(_) => Vec::new(),
            };
            let kept: Vec<String> = filter_names_by_keyword(&all, keyword);
            proof {
                lemma_matching_names_contain(all@, keyword@);
                if json_ok(raw_body@) && costco_names_of(raw_body@) is Some {
                    lemma_matching_names_texts(all@, keyword@);
                } else {
                    assert(all@ =~= Seq::<String>::empty());
                    assert(kept@ =~= Seq::<String>::empty());
                }
            }
            kept
        },
    };
    names_to_search_response(names)
}

/// Detailed status of one branch from one chain's raw payload. The
/// requested name is matched against the top result for EMart/Traders
/// (exact equality) and Costco (containment of the decoded keyword, as
/// its upstream matches loosely); HomePlus items are scanned for the
/// first exact name match. Any parse failure or failed match becomes
/// the fixed "no result" message.
pub fn info(chain: Chain, name: &str, raw_body: &str, now: &Instant) -> (r: Result<
    InfoResponse,
    ErrorResponse,
>)
    requires
        valid_instant(*now),
        !is_max_date(now.date),
    ensures
        r is Err ==> r->Err_0.error@ == no_result_message(),
        r is Ok ==> contains_seq(r->Ok_0.name@, name@),
        !(chain is Costco) && r is Ok ==> r->Ok_0.name@ == name@,
        chain is EMart || chain is Traders ==> ({
            let m = emart_first_of(raw_body@);
            &&& (r is Ok) == (json_ok(raw_body@) && m is Some && m->Some_0.0 == name@
                && spec_emart_holidays(m->Some_0.4, m->Some_0.5, m->Some_0.6, now.date) is Some
                && spec_emart_window(m->Some_0.2, m->Some_0.3, now.date) is Some)
            &&& (r is Ok ==> ({
                let resp = r->Ok_0;
                let hs = spec_emart_holidays(m->Some_0.4, m->Some_0.5, m->Some_0.6, now.date)->Some_0;
                let w = spec_emart_window(m->Some_0.2, m->Some_0.3, now.date)->Some_0;
                &&& resp.name@ == m->Some_0.0
                &&& resp.start_time@ == m->Some_0.2
                &&& resp.end_time@ == m->Some_0.3
                &&& resp.state == spec_state(*now, spec_flag_of_status(m->Some_0.1), w, hs)
                &&& resp.holidays@.len() == hs.len()
                &&& forall|k: int|
                    0 <= k < hs.len() ==> resp.holidays@[k]@ == spec_format_yyyymmdd(hs[k] as int)
            }))
        }),
        chain is HomePlus ==> ({
            let items = homeplus_items_of(raw_body@);
            let fm = hp_first_match(items, name@, 0);
            &&& (r is Ok) == (fm is Some && spec_homeplus_window(items[fm->Some_0].1, now.date)
                is Some && spec_homeplus_holidays(items[fm->Some_0].2, now.date) is Some)
            &&& (r is Ok ==> ({
                let it = items[fm->Some_0];
                let resp = r->Ok_0;
                let w = spec_homeplus_window(it.1, now.date)->Some_0;
                let hs = spec_homeplus_holidays(it.2, now.date)->Some_0;
                &&& resp.name@ == it.0
                &&& resp.start_time@ == it.1.subrange(0, 5)
                &&& resp.end_time@ == it.1.subrange(6, 11)
                &&& resp.state == spec_state(*now, OperationalFlag::OpenNow, w, hs)
                &&& resp.holidays@.len() == hs.len()
                &&& forall|k: int|
                    0 <= k < hs.len() ==> resp.holidays@[k]@ == spec_format_yyyymmdd(hs[k] as int)
            }))
        }),
        chain is Costco ==> ({
            let m = costco_first_of(
                raw_body@,
                seq![spec_korean_weekday_char(weekday_index(now.date))],
            );
            &&& (r is Ok) == (json_ok(raw_body@) && m is Some && contains_seq(m->Some_0.0, name@)
                && spec_costco_window(m->Some_0.1, now.date) is Some)
            &&& (r is Ok ==> ({
                let resp = r->Ok_0;
                let w = spec_costco_window(m->Some_0.1, now.date)->Some_0;
                let hs = spec_costco_holidays(m->Some_0.2, now.date);
                let o = spec_korean_12h_at(m->Some_0.1, 0)->Some_0;
                let c = spec_korean_12h_at(m->Some_0.1, 11)->Some_0;
                &&& resp.name@ == m->Some_0.0
                &&& resp.start_time@ == spec_format_hhmm(o.0, o.1)
                &&& resp.end_time@ == spec_format_hhmm(c.0, c.1)
                &&& resp.state == spec_state(*now, OperationalFlag::OpenNow, w, hs)
                &&& resp.holidays@.len() == hs.len()
                &&& forall|k: int|
                    0 <= k < hs.len() ==> resp.holidays@[k]@ == spec_format_yyyymmdd(hs[k] as int)
            }))
        }),
{
    match chain {
        Chain::EMart | Chain::Traders => {
            let f: EmartFields = match extract_emart_first(raw_body) {
                Ok(f) => f,
                Err(_) => {
                    return Err(no_result_error());
                },
            };
            if !str_eq(f.name.as_str(), name) {
                return Err(no_result_error());
            }
            match emart_status(&f, now) {
                Ok(resp) => {
                    proof {
                        lemma_contains_self(resp.name@);
                    }
                    Ok(resp)
                },
                Err(_) => Err(no_result_error()),
            }
        },
        Chain::HomePlus => {
            let items: Vec<HomePlusFields> = extract_homeplus_items(raw_body);
            let ghost model = homeplus_items_of(raw_body@);
            match find_name_match(&items, name) {
                Some(i) => {
                    proof {
                        assert forall|k: int| 0 <= k < i implies model[k].0 != name@ by {
                            assert(items@[k].name@ == model[k].0);
                        }
                        lemma_hp_first_match_found(model, name@, 0, i as int);
                    }
                    match homeplus_status(&items[i], now) {
                        Ok(resp) => {
                            proof {
                                lemma_contains_self(resp.name@);
                            }
                            Ok(resp)
                        },
                        Err(_) => Err(no_result_error()),
                    }
                },
                None => {
                    proof {
                        assert forall|k: int| 0 <= k < model.len() implies model[k].0 != name@ by {
                            assert(items@[k].name@ == model[k].0);
                        }
                        lemma_hp_first_match_none(model, name@, 0);
                    }
                    Err(no_result_error())
                },
            }
        },
        Chain::Costco => {
            let wd: u32 = weekday_of(now.date);
            let key: &str = costco_weekday_key(wd);
            proof {
                assert(key@ =~= seq![spec_korean_weekday_char(weekday_index(now.date))]);
            }
            let f: CostcoFields = match extract_costco_first(raw_body, key) {
                Ok(f) => f,
                Err(_) => {
                    return Err(no_result_error());
                },
            };
            if !str_contains(f.display_name.as_str(), name) {
                return Err(no_result_error());
            }
            match costco_status(&f, now) {
                Ok(resp) => Ok(resp),
                Err(_) => Err(no_result_error()),
            }
        },
    }
}

} // verus!
