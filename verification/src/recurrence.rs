//! The recurrence resolver: recognizes the two fixed Korean sentence
//! templates for monthly holiday rules ("closed on the Nth and Mth
//! occurrence of given weekday(s) this month") and turns a match into
//! the concrete closure dates of the reference month that are still
//! upcoming. Text matching neither template means "no recurring holiday
//! known", never an error.

use vstd::prelude::*;
use crate::dates::{Date, lemma_nth_weekday, nth_weekday_of_month, spec_nth_weekday_day, valid_date,
    weekday_index, yyyymmdd, yyyymmdd_u32};
use crate::textparse::chars_of;

verus! {

/// One "Nth weekday" half of a rule: `nth` in 1..=4, `weekday` indexed
/// Monday = 0 .. Sunday = 6.
#[derive(Clone, Copy, PartialEq, Eq, Structural, Debug)]
pub struct RulePair {
    pub nth: u32,
    pub weekday: u32,
}

/// A monthly-recurring holiday rule: two ordinal/weekday pairs, in the
/// order the sentence gives them. The first template names one weekday
/// with two ordinals; the second pairs each ordinal with its own
/// weekday.
#[derive(Clone, Copy, PartialEq, Eq, Structural, Debug)]
pub struct RecurrenceRule {
    pub first: RulePair,
    pub second: RulePair,
}

pub open spec fn wf_pair(p: RulePair) -> bool {
    1 <= p.nth <= 4 && p.weekday < 7
}

pub open spec fn wf_rule(r: RecurrenceRule) -> bool {
    wf_pair(r.first) && wf_pair(r.second)
}

pub open spec fn is_ordinal_char(c: char) -> bool {
    c == '첫' || c == '둘' || c == '셋' || c == '넷'
}

pub open spec fn ordinal_of_char(c: char) -> int {
    if c == '첫' {
        1
    } else if c == '둘' {
        2
    } else if c == '셋' {
        3
    } else {
        4
    }
}

pub open spec fn is_weekday_char(c: char) -> bool {
    c == '월' || c == '화' || c == '수' || c == '목' || c == '금' || c == '토' || c == '일'
}

pub open spec fn weekday_of_char(c: char) -> int {
    if c == '월' {
        0
    } else if c == '화' {
        1
    } else if c == '수' {
        2
    } else if c == '목' {
        3
    } else if c == '금' {
        4
    } else if c == '토' {
        5
    } else {
        6
    }
}

/// Template "매월 N째, M째 W요일" (13 characters) occurs at position `i`:
/// two ordinals sharing one weekday.
pub open spec fn matches_a_at(s: Seq<char>, i: int) -> bool {
    &&& 0 <= i
    &&& i + 13 <= s.len()
    &&& s[i] == '매'
    &&& s[i + 1] == '월'
    &&& s[i + 2] == ' '
    &&& is_ordinal_char(s[i + 3])
    &&& s[i + 4] == '째'
    &&& s[i + 5] == ','
    &&& s[i + 6] == ' '
    &&& is_ordinal_char(s[i + 7])
    &&& s[i + 8] == '째'
    &&& s[i + 9] == ' '
    &&& is_weekday_char(s[i + 10])
    &&& s[i + 11] == '요'
    &&& s[i + 12] == '일'
}

pub open spec fn rule_a_at(s: Seq<char>, i: int) -> RecurrenceRule {
    RecurrenceRule {
        first: RulePair {
            nth: ordinal_of_char(s[i + 3]) as u32,
            weekday: weekday_of_char(s[i + 10]) as u32,
        },
        second: RulePair {
            nth: ordinal_of_char(s[i + 7]) as u32,
            weekday: weekday_of_char(s[i + 10]) as u32,
        },
    }
}

/// Template "매월 N째 W요일, M째 W요일" (17 characters) occurs at
/// position `i`: each ordinal paired with its own weekday.
pub open spec fn matches_b_at(s: Seq<char>, i: int) -> bool {
    &&& 0 <= i
    &&& i + 17 <= s.len()
    &&& s[i] == '매'
    &&& s[i + 1] == '월'
    &&& s[i + 2] == ' '
    &&& is_ordinal_char(s[i + 3])
    &&& s[i + 4] == '째'
    &&& s[i + 5] == ' '
    &&& is_weekday_char(s[i + 6])
    &&& s[i + 7] == '요'
    &&& s[i + 8] == '일'
    &&& s[i + 9] == ','
    &&& s[i + 10] == ' '
    &&& is_ordinal_char(s[i + 11])
    &&& s[i + 12] == '째'
    &&& s[i + 13] == ' '
    &&& is_weekday_char(s[i + 14])
    &&& s[i + 15] == '요'
    &&& s[i + 16] == '일'
}

pub open spec fn rule_b_at(s: Seq<char>, i: int) -> RecurrenceRule {
    RecurrenceRule {
        first: RulePair {
            nth: ordinal_of_char(s[i + 3]) as u32,
            weekday: weekday_of_char(s[i + 6]) as u32,
        },
        second: RulePair {
            nth: ordinal_of_char(s[i + 11]) as u32,
            weekday: weekday_of_char(s[i + 14]) as u32,
        },
    }
}

/// Position of the leftmost occurrence of the first template at or
/// after `i`.
pub open spec fn first_a(s: Seq<char>, i: int) -> Option<int>
    decreases s.len() - i
        when 0 <= i
{
    if i + 13 > s.len() {
        None
    } else if matches_a_at(s, i) {
        Some(i)
    } else {
        first_a(s, i + 1)
    }
}

/// Position of the leftmost occurrence of the second template at or
/// after `i`.
pub open spec fn first_b(s: Seq<char>, i: int) -> Option<int>
    decreases s.len() - i
        when 0 <= i
{
    if i + 17 > s.len() {
        None
    } else if matches_b_at(s, i) {
        Some(i)
    } else {
        first_b(s, i + 1)
    }
}

/// The rule the text describes: the first template is tried over the
/// whole text before the second, and the leftmost occurrence wins.
pub open spec fn spec_rule(s: Seq<char>) -> Option<RecurrenceRule> {
    match first_a(s, 0) {
        Some(i) => Some(rule_a_at(s, i)),
        None => match first_b(s, 0) {
            Some(i) => Some(rule_b_at(s, i)),
            None => None,
        },
    }
}

proof fn lemma_first_a_found(s: Seq<char>, j: int, i: int)
    requires
        0 <= j <= i,
        matches_a_at(s, i),
        forall|k: int| j <= k < i ==> !matches_a_at(s, k),
    ensures
        first_a(s, j) == Some(i),
    decreases i - j,
{
    if j < i {
        lemma_first_a_found(s, j + 1, i);
    }
}

proof fn lemma_first_a_none(s: Seq<char>, j: int)
    requires
        0 <= j,
        forall|k: int| j <= k ==> !matches_a_at(s, k),
    ensures
        first_a(s, j) is None,
    decreases s.len() - j,
{
    if j + 13 <= s.len() {
        lemma_first_a_none(s, j + 1);
    }
}

proof fn lemma_first_b_found(s: Seq<char>, j: int, i: int)
    requires
        0 <= j <= i,
        matches_b_at(s, i),
        forall|k: int| j <= k < i ==> !matches_b_at(s, k),
    ensures
        first_b(s, j) == Some(i),
    decreases i - j,
{
    if j < i {
        lemma_first_b_found(s, j + 1, i);
    }
}

proof fn lemma_first_b_none(s: Seq<char>, j: int)
    requires
        0 <= j,
        forall|k: int| j <= k ==> !matches_b_at(s, k),
    ensures
        first_b(s, j) is None,
    decreases s.len() - j,
{
    if j + 17 <= s.len() {
        lemma_first_b_none(s, j + 1);
    }
}

fn ordinal_val(c: char) -> (r: Option<u32>)
    ensures
        is_ordinal_char(c) ==> r == Some(ordinal_of_char(c) as u32),
        !is_ordinal_char(c) ==> r is None,
{
    match c {
        '첫' => Some(1),
        '둘' => Some(2),
        '셋' => Some(3),
        '넷' => Some(4),
        _ => None,
    }
}

fn weekday_val(c: char) -> (r: Option<u32>)
    ensures
        is_weekday_char(c) ==> r == Some(weekday_of_char(c) as u32),
        !is_weekday_char(c) ==> r is None,
{
    match c {
        '월' => Some(0),
        '화' => Some(1),
        '수' => Some(2),
        '목' => Some(3),
        '금' => Some(4),
        '토' => Some(5),
        '일' => Some(6),
        _ => None,
    }
}

fn rule_a_here(v: &Vec<char>, i: usize) -> (r: Option<RecurrenceRule>)
    requires
        i + 13 <= v.len(),
    ensures
        matches_a_at(v@, i as int) ==> r == Some(rule_a_at(v@, i as int)),
        !matches_a_at(v@, i as int) ==> r is None,
{
    if !(v[i] == '매' && v[i + 1] == '월' && v[i + 2] == ' ' && v[i + 4] == '째' && v[i + 5] == ','
        && v[i + 6] == ' ' && v[i + 8] == '째' && v[i + 9] == ' ' && v[i + 11] == '요' && v[i + 12]
        == '일') {
        return None;
    }
    let o1: Option<u32> = ordinal_val(v[i + 3]);
    let o2: Option<u32> = ordinal_val(v[i + 7]);
    let w: Option<u32> = weekday_val(v[i + 10]);
    match (o1, o2, w) {
        (Some(n1), Some(n2), Some(wd)) => Some(
            RecurrenceRule {
                first: RulePair { nth: n1, weekday: wd },
                second: RulePair { nth: n2, weekday: wd },
            },
        ),
        _ => None,
    }
}

fn rule_b_here(v: &Vec<char>, i: usize) -> (r: Option<RecurrenceRule>)
    requires
        i + 17 <= v.len(),
    ensures
        matches_b_at(v@, i as int) ==> r == Some(rule_b_at(v@, i as int)),
        !matches_b_at(v@, i as int) ==> r is None,
{
    if !(v[i] == '매' && v[i + 1] == '월' && v[i + 2] == ' ' && v[i + 4] == '째' && v[i + 5] == ' '
        && v[i + 7] == '요' && v[i + 8] == '일' && v[i + 9] == ',' && v[i + 10] == ' ' && v[i + 12]
        == '째' && v[i + 13] == ' ' && v[i + 15] == '요' && v[i + 16] == '일') {
        return None;
    }
    let o1: Option<u32> = ordinal_val(v[i + 3]);
    let w1: Option<u32> = weekday_val(v[i + 6]);
    let o2: Option<u32> = ordinal_val(v[i + 11]);
    let w2: Option<u32> = weekday_val(v[i + 14]);
    match (o1, w1, o2, w2) {
        (Some(n1), Some(wd1), Some(n2), Some(wd2)) => Some(
            RecurrenceRule {
                first: RulePair { nth: n1, weekday: wd1 },
                second: RulePair { nth: n2, weekday: wd2 },
            },
        ),
        _ => None,
    }
}

/// Parses the free text against the two templates. `None` means no
/// recognizable rule, which callers treat as "no recurring holiday".
pub fn parse_recurrence(text: &str) -> (r: Option<RecurrenceRule>)
    ensures
        r == spec_rule(text@),
        r is Some ==> wf_rule(r->Some_0),
{
    let v: Vec<char> = chars_of(text);
    let n: usize = v.len();
    if n >= 13 {
        let mut i: usize = 0;
        while i <= n - 13
            invariant
                n == v@.len() == text@.len(),
                v@ == text@,
                13 <= n,
                i <= n - 13 + 1,
                forall|k: int| 0 <= k < i ==> !matches_a_at(v@, k),
            decreases n - 13 + 1 - i,
        {
            match rule_a_here(&v, i) {
                Some(rule) => {
                    proof {
                        lemma_first_a_found(v@, 0, i as int);
                    }
                    return Some(rule);
                },
                None => {
                    proof {
                        assert forall|k: int| 0 <= k < i + 1 implies !matches_a_at(v@, k) by {
                            if k < i {
                                assert(!matches_a_at(v@, k));
                            } else {
                                assert(k == i);
                            }
                        }
                    }
                    i += 1;
                },
            }
        }
        proof {
            assert forall|k: int| 0 <= k implies !matches_a_at(v@, k) by {
                if k <= n - 13 {
                    assert(!matches_a_at(v@, k));
                }
            }
            lemma_first_a_none(v@, 0);
        }
    } else {
        proof {
            lemma_first_a_none(v@, 0);
        }
    }
    if n >= 17 {
        let mut i: usize = 0;
        while i <= n - 17
            invariant
                n == v@.len() == text@.len(),
                v@ == text@,
                17 <= n,
                i <= n - 17 + 1,
                first_a(v@, 0) is None,
                forall|k: int| 0 <= k < i ==> !matches_b_at(v@, k),
            decreases n - 17 + 1 - i,
        {
            match rule_b_here(&v, i) {
                Some(rule) => {
                    proof {
                        lemma_first_b_found(v@, 0, i as int);
                    }
                    return Some(rule);
                },
                None => {
                    proof {
                        assert forall|k: int| 0 <= k < i + 1 implies !matches_b_at(v@, k) by {
                            if k < i {
                                assert(!matches_b_at(v@, k));
                            } else {
                                assert(k == i);
                            }
                        }
                    }
                    i += 1;
                },
            }
        }
        proof {
            assert forall|k: int| 0 <= k implies !matches_b_at(v@, k) by {
                if k <= n - 17 {
                    assert(!matches_b_at(v@, k));
                }
            }
            lemma_first_b_none(v@, 0);
        }
    } else {
        proof {
            lemma_first_b_none(v@, 0);
        }
    }
    None
}

/// The `YYYYMMDD` value of the closure date one rule pair yields in the
/// reference month.
pub open spec fn spec_pair_date(p: RulePair, today: Date) -> int {
    yyyymmdd(
        Date {
            year: today.year,
            month: today.month,
            day: spec_nth_weekday_day(
                today.year,
                today.month,
                p.weekday as int,
                p.nth as int,
            ) as u32,
        },
    )
}

/// The resolved closure dates: the first pair's date before the second
/// pair's, each kept only while today has not passed it (an end-of-day
/// comparison: the closure date itself still counts).
pub open spec fn spec_resolved(rule: RecurrenceRule, today: Date) -> Seq<u32> {
    let keep1: Seq<u32> = if spec_pair_date(rule.first, today) >= yyyymmdd(today) {
        seq![spec_pair_date(rule.first, today) as u32]
    } else {
        Seq::empty()
    };
    let keep2: Seq<u32> = if spec_pair_date(rule.second, today) >= yyyymmdd(today) {
        seq![spec_pair_date(rule.second, today) as u32]
    } else {
        Seq::empty()
    };
    keep1 + keep2
}

fn pair_date(p: RulePair, today: &Date) -> (r: u32)
    requires
        valid_date(*today),
        wf_pair(p),
    ensures
        r == spec_pair_date(p, *today),
        r < 100000000,
{
    let d: Date = nth_weekday_of_month(today.year, today.month, p.weekday, p.nth);
    yyyymmdd_u32(&d)
}

/// Resolves the free-text holiday description against the reference
/// date: the rule's closure dates in the reference month, in template
/// order, filtered to those not yet past. Unrecognized text yields the
/// empty list, never an error.
pub fn resolve_holidays(text: &str, today: &Date) -> (r: Vec<u32>)
    requires
        valid_date(*today),
    ensures
        match spec_rule(text@) {
            Some(rule) => r@ == spec_resolved(rule, *today),
            None => r@ == Seq::<u32>::empty(),
        },
        forall|k: int| 0 <= k < r@.len() ==> r@[k] < 100000000,
{
    let mut r: Vec<u32> = Vec::new();
    match parse_recurrence(text) {
        Some(rule) => {
            let today_num: u32 = yyyymmdd_u32(today);
            let d1: u32 = pair_date(rule.first, today);
            let d2: u32 = pair_date(rule.second, today);
            if d1 >= today_num {
                r.push(d1);
            }
            if d2 >= today_num {
                r.push(d2);
            }
            proof {
                assert(r@ =~= spec_resolved(rule, *today));
            }
        },
        None => {
            proof {
                assert(r@ =~= Seq::<u32>::empty());
            }
        },
    }
    r
}

/// Round trip for the first template: when it matches the text
/// (leftmost at `i`), the rule pairs both ordinals with the one named
/// weekday, and the resolved dates are exactly the rule's two
/// nth-weekday dates of the reference month that the reference date
/// has not passed, in template order; when both have passed, the
/// result is empty.
pub proof fn lemma_template_a_round_trip(s: Seq<char>, i: int, today: Date)
    requires
        valid_date(today),
        matches_a_at(s, i),
        forall|k: int| 0 <= k < i ==> !matches_a_at(s, k),
    ensures
        spec_rule(s) == Some(rule_a_at(s, i)),
        wf_rule(rule_a_at(s, i)),
        rule_a_at(s, i).first.weekday == rule_a_at(s, i).second.weekday,
        ({
            let rule = rule_a_at(s, i);
            let d1: int = spec_pair_date(rule.first, today);
            let d2: int = spec_pair_date(rule.second, today);
            &&& (d1 < yyyymmdd(today) && d2 < yyyymmdd(today)) ==> spec_resolved(rule, today)
                =~= Seq::<u32>::empty()
            &&& (d1 >= yyyymmdd(today) && d2 >= yyyymmdd(today)) ==> spec_resolved(rule, today)
                =~= seq![d1 as u32, d2 as u32]
            &&& (d1 < yyyymmdd(today) && d2 >= yyyymmdd(today)) ==> spec_resolved(rule, today)
                =~= seq![d2 as u32]
            &&& (d1 >= yyyymmdd(today) && d2 < yyyymmdd(today)) ==> spec_resolved(rule, today)
                =~= seq![d1 as u32]
        }),
{
    lemma_first_a_found(s, 0, i);
}

/// Round trip for the second template: it is consulted only when the
/// first matches nowhere, each ordinal keeps its own weekday, and the
/// two dates are computed independently from their own pairs, order
/// preserved through the upcoming-date filter.
pub proof fn lemma_template_b_round_trip(s: Seq<char>, i: int, today: Date)
    requires
        valid_date(today),
        first_a(s, 0) is None,
        matches_b_at(s, i),
        forall|k: int| 0 <= k < i ==> !matches_b_at(s, k),
    ensures
        spec_rule(s) == Some(rule_b_at(s, i)),
        wf_rule(rule_b_at(s, i)),
        rule_b_at(s, i).first == (RulePair {
            nth: ordinal_of_char(s[i + 3]) as u32,
            weekday: weekday_of_char(s[i + 6]) as u32,
        }),
        rule_b_at(s, i).second == (RulePair {
            nth: ordinal_of_char(s[i + 11]) as u32,
            weekday: weekday_of_char(s[i + 14]) as u32,
        }),
        ({
            let rule = rule_b_at(s, i);
            let d1: int = spec_pair_date(rule.first, today);
            let d2: int = spec_pair_date(rule.second, today);
            &&& (d1 < yyyymmdd(today) && d2 < yyyymmdd(today)) ==> spec_resolved(rule, today)
                =~= Seq::<u32>::empty()
            &&& (d1 >= yyyymmdd(today) && d2 >= yyyymmdd(today)) ==> spec_resolved(rule, today)
                =~= seq![d1 as u32, d2 as u32]
            &&& (d1 < yyyymmdd(today) && d2 >= yyyymmdd(today)) ==> spec_resolved(rule, today)
                =~= seq![d2 as u32]
            &&& (d1 >= yyyymmdd(today) && d2 < yyyymmdd(today)) ==> spec_resolved(rule, today)
                =~= seq![d1 as u32]
        }),
{
    lemma_first_b_found(s, 0, i);
}

/// The calendar date behind one rule pair is sound: it lies in the
/// reference month, on the requested weekday, within the pair's
/// seven-day occurrence band.
pub proof fn lemma_pair_date_is_nth_weekday(p: RulePair, today: Date)
    requires
        valid_date(today),
        wf_pair(p),
    ensures
        ({
            let day: int = spec_nth_weekday_day(today.year, today.month, p.weekday as int,
                p.nth as int);
            let d = Date { year: today.year, month: today.month, day: day as u32 };
            &&& valid_date(d)
            &&& weekday_index(d) == p.weekday
            &&& 7 * (p.nth - 1) < day <= 7 * p.nth
            &&& spec_pair_date(p, today) == yyyymmdd(d)
        }),
{
    lemma_nth_weekday(today.year, today.month, p.weekday as int, p.nth as int);
}

/// Every resolved closure date is today or later, and the dates appear
/// in template order: when both survive the filter, the first pair's
/// date comes first.
pub proof fn lemma_resolved_upcoming_and_ordered(rule: RecurrenceRule, today: Date)
    requires
        valid_date(today),
        wf_rule(rule),
    ensures
        forall|k: int|
            0 <= k < spec_resolved(rule, today).len() ==> spec_resolved(rule, today)[k]
                >= yyyymmdd(today),
        spec_resolved(rule, today).len() == 2 ==> spec_resolved(rule, today)[0]
            == spec_pair_date(rule.first, today) && spec_resolved(rule, today)[1]
            == spec_pair_date(rule.second, today),
{
    lemma_pair_date_is_nth_weekday(rule.first, today);
    lemma_pair_date_is_nth_weekday(rule.second, today);
}

} // verus!
