//! Character-level parsing and formatting of the small fixed formats the
//! upstream payloads use: `HH:MM` clock times, 12-hour times with Korean
//! AM/PM markers, `YYYYMMDD` dates, and substring search for keyword
//! matching.

use vstd::prelude::*;
use crate::dates::{Date, valid_date};

verus! {

pub open spec fn is_digit(c: char) -> bool {
    48 <= c as int <= 57
}

pub open spec fn digit_val(c: char) -> int {
    c as int - 48
}

pub open spec fn digit_char(d: int) -> char {
    if d == 0 {
        '0'
    } else if d == 1 {
        '1'
    } else if d == 2 {
        '2'
    } else if d == 3 {
        '3'
    } else if d == 4 {
        '4'
    } else if d == 5 {
        '5'
    } else if d == 6 {
        '6'
    } else if d == 7 {
        '7'
    } else if d == 8 {
        '8'
    } else {
        '9'
    }
}

/// The characters of a string, as a vector indexable by verified code.
pub fn chars_of(s: &str) -> (v: Vec<char>)
    ensures
        v@ == s@,
{
    let n: usize = s.unicode_len();
    let mut v: Vec<char> = Vec::new();
    let mut i: usize = 0;
    while i < n
        invariant
            n == s@.len(),
            i <= n,
            v@ == s@.subrange(0, i as int),
        decreases n - i,
    {
        v.push(s.get_char(i));
        proof {
            assert(v@ =~= s@.subrange(0, i + 1));
        }
        i += 1;
    }
    proof {
        assert(v@ =~= s@);
    }
    v
}

pub fn str_eq(a: &str, b: &str) -> (r: bool)
    ensures
        r == (a@ == b@),
{
    let na: usize = a.unicode_len();
    let nb: usize = b.unicode_len();
    if na != nb {
        proof {
            assert(a@.len() != b@.len());
        }
        return false;
    }
    let mut i: usize = 0;
    while i < na
        invariant
            na == a@.len(),
            na == b@.len(),
            i <= na,
            forall|j: int| 0 <= j < i ==> a@[j] == b@[j],
        decreases na - i,
    {
        if a.get_char(i) != b.get_char(i) {
            return false;
        }
        i += 1;
    }
    proof {
        assert(a@ =~= b@);
    }
    true
}

/// The needle occurs in the haystack starting at index `i`.
pub open spec fn occurs_at(hay: Seq<char>, needle: Seq<char>, i: int) -> bool {
    &&& 0 <= i
    &&& i + needle.len() <= hay.len()
    &&& forall|j: int| 0 <= j < needle.len() ==> hay[i + j] == needle[j]
}

pub open spec fn contains_seq(hay: Seq<char>, needle: Seq<char>) -> bool {
    exists|i: int| occurs_at(hay, needle, i)
}

/// Every text contains itself.
pub proof fn lemma_contains_self(s: Seq<char>)
    ensures
        contains_seq(s, s),
{
    assert(occurs_at(s, s, 0));
}

pub fn str_contains(hay: &str, needle: &str) -> (r: bool)
    ensures
        r == contains_seq(hay@, needle@),
{
    let nh: usize = hay.unicode_len();
    let nn: usize = needle.unicode_len();
    if nn > nh {
        return false;
    }
    let mut i: usize = 0;
    while i <= nh - nn
        invariant
            nh == hay@.len(),
            nn == needle@.len(),
            nn <= nh,
            i <= nh - nn + 1,
            forall|k: int| 0 <= k < i ==> !occurs_at(hay@, needle@, k),
        decreases nh - nn + 1 - i,
    {
        let mut j: usize = 0;
        let mut all: bool = true;
        while j < nn
            invariant
                nh == hay@.len(),
                nn == needle@.len(),
                i + nn <= nh,
                j <= nn,
                all ==> forall|l: int| 0 <= l < j ==> hay@[i + l] == needle@[l],
                !all ==> !occurs_at(hay@, needle@, i as int),
            decreases nn - j,
        {
            if hay.get_char(i + j) != needle.get_char(j) {
                all = false;
                proof {
                    assert(hay@[i + j] != needle@[j as int]);
                    assert(!occurs_at(hay@, needle@, i as int));
                }
                j = nn;
            } else {
                proof {
                    if all {
                        assert forall|l: int| 0 <= l < j + 1 implies hay@[i + l] == needle@[l] by {
                            if l < j {
                                assert(hay@[i + l] == needle@[l]);
                            } else {
                                assert(l == j);
                            }
                        }
                    }
                }
                j += 1;
            }
        }
        if all {
            proof {
                assert(occurs_at(hay@, needle@, i as int));
            }
            return true;
        }
        proof {
            assert forall|k: int| 0 <= k < i + 1 implies !occurs_at(hay@, needle@, k) by {
                if k < i {
                    assert(!occurs_at(hay@, needle@, k));
                } else {
                    assert(k == i);
                }
            }
        }
        i += 1;
    }
    proof {
        assert(forall|k: int| !(0 <= k <= nh - nn) ==> !occurs_at(hay@, needle@, k));
    }
    false
}

/// Parses `HH:MM` with two-digit fields at position `at` of the text.
/// Yields the raw hour and minute values without range checks: callers
/// state the ranges they need.
pub open spec fn spec_hhmm_at(s: Seq<char>, at: int) -> Option<(int, int)> {
    if 0 <= at && at + 5 <= s.len() && is_digit(s[at]) && is_digit(s[at + 1]) && s[at + 2] == ':'
        && is_digit(s[at + 3]) && is_digit(s[at + 4]) {
        Some(
            (
                10 * digit_val(s[at]) + digit_val(s[at + 1]),
                10 * digit_val(s[at + 3]) + digit_val(s[at + 4]),
            ),
        )
    } else {
        None
    }
}

fn digit_at(v: &Vec<char>, i: usize) -> (r: Option<u32>)
    requires
        i < v@.len(),
    ensures
        is_digit(v@[i as int]) ==> r == Some(digit_val(v@[i as int]) as u32),
        !is_digit(v@[i as int]) ==> r is None,
{
    match v[i] {
        '0' => Some(0),
        '1' => Some(1),
        '2' => Some(2),
        '3' => Some(3),
        '4' => Some(4),
        '5' => Some(5),
        '6' => Some(6),
        '7' => Some(7),
        '8' => Some(8),
        '9' => Some(9),
        _ => None,
    }
}

pub fn parse_hhmm_at(v: &Vec<char>, at: usize) -> (r: Option<(u32, u32)>)
    ensures
        match spec_hhmm_at(v@, at as int) {
            Some(p) => r == Some((p.0 as u32, p.1 as u32)),
            None => r is None,
        },
{
    if at > v.len() || v.len() - at < 5 {
        return None;
    }
    let d0: Option<u32> = digit_at(v, at);
    let d1: Option<u32> = digit_at(v, at + 1);
    let d3: Option<u32> = digit_at(v, at + 3);
    let d4: Option<u32> = digit_at(v, at + 4);
    if v[at + 2] != ':' {
        return None;
    }
    match (d0, d1, d3, d4) {
        (Some(a), Some(b), Some(c), Some(d)) => Some((10 * a + b, 10 * c + d)),
        _ => None,
    }
}

/// Parses a 12-hour time of the form `오전 HH:MM` or `오후 HH:MM`
/// (Korean AM/PM marker first) at position `at`, converting to a
/// 24-hour clock: 12 AM is hour 0 and 12 PM is hour 12.
pub open spec fn spec_korean_12h_at(s: Seq<char>, at: int) -> Option<(int, int)> {
    if 0 <= at && at + 8 <= s.len() && s[at] == '오' && (s[at + 1] == '전' || s[at + 1] == '후')
        && s[at + 2] == ' ' {
        match spec_hhmm_at(s, at + 3) {
            Some(p) => if 1 <= p.0 <= 12 && 0 <= p.1 < 60 {
                let h24: int = if s[at + 1] == '전' {
                    if p.0 == 12 {
                        0
                    } else {
                        p.0
                    }
                } else {
                    if p.0 == 12 {
                        12
                    } else {
                        p.0 + 12
                    }
                };
                Some((h24, p.1))
            } else {
                None
            },
            None => None,
        }
    } else {
        None
    }
}

pub fn parse_korean_12h_at(v: &Vec<char>, at: usize) -> (r: Option<(u32, u32)>)
    ensures
        match spec_korean_12h_at(v@, at as int) {
            Some(p) => r == Some((p.0 as u32, p.1 as u32)),
            None => r is None,
        },
{
    if at > v.len() || v.len() - at < 8 {
        return None;
    }
    if v[at] != '오' {
        return None;
    }
    let marker: char = v[at + 1];
    if marker != '전' && marker != '후' {
        return None;
    }
    if v[at + 2] != ' ' {
        return None;
    }
    match parse_hhmm_at(v, at + 3) {
        Some((h, m)) => {
            if 1 <= h && h <= 12 && m < 60 {
                let h24: u32 = if marker == '전' {
                    if h == 12 {
                        0
                    } else {
                        h
                    }
                } else {
                    if h == 12 {
                        12
                    } else {
                        h + 12
                    }
                };
                Some((h24, m))
            } else {
                None
            }
        },
        None => None,
    }
}

/// Parses an eight-digit `YYYYMMDD` text into a valid calendar date.
pub open spec fn spec_yyyymmdd_seq(s: Seq<char>) -> Option<Date> {
    if s.len() == 8 && (forall|j: int| 0 <= j < 8 ==> is_digit(s[j])) {
        let y: int = 1000 * digit_val(s[0]) + 100 * digit_val(s[1]) + 10 * digit_val(s[2])
            + digit_val(s[3]);
        let m: int = 10 * digit_val(s[4]) + digit_val(s[5]);
        let d: int = 10 * digit_val(s[6]) + digit_val(s[7]);
        let date = Date { year: y as u32, month: m as u32, day: d as u32 };
        if valid_date(date) {
            Some(date)
        } else {
            None
        }
    } else {
        None
    }
}

pub fn parse_yyyymmdd_vec(v: &Vec<char>) -> (r: Option<Date>)
    ensures
        r == spec_yyyymmdd_seq(v@),
        r is Some ==> valid_date(r->Some_0),
{
    if v.len() != 8 {
        return None;
    }
    let r0: Option<u32> = digit_at(v, 0);
    let r1: Option<u32> = digit_at(v, 1);
    let r2: Option<u32> = digit_at(v, 2);
    let r3: Option<u32> = digit_at(v, 3);
    let r4: Option<u32> = digit_at(v, 4);
    let r5: Option<u32> = digit_at(v, 5);
    let r6: Option<u32> = digit_at(v, 6);
    let r7: Option<u32> = digit_at(v, 7);
    match (r0, r1, r2, r3, r4, r5, r6, r7) {
        (Some(a0), Some(a1), Some(a2), Some(a3), Some(a4), Some(a5), Some(a6), Some(a7)) => {
            proof {
                assert forall|j: int| 0 <= j < 8 implies is_digit(v@[j]) by {
                    assert(is_digit(v@[0]) && is_digit(v@[1]) && is_digit(v@[2]) && is_digit(v@[3])
                        && is_digit(v@[4]) && is_digit(v@[5]) && is_digit(v@[6]) && is_digit(
                        v@[7],
                    ));
                }
            }
            let y: u32 = 1000 * a0 + 100 * a1 + 10 * a2 + a3;
            let m: u32 = 10 * a4 + a5;
            let d: u32 = 10 * a6 + a7;
            let date = Date { year: y, month: m, day: d };
            if 1 <= y && 1 <= m && m <= 12 && 1 <= d && d <= crate::dates::days_in_month(y, m) {
                Some(date)
            } else {
                None
            }
        },
        _ => None,
    }
}

/// The text with every `-` removed; the HomePlus off-day label writes
/// its date with separators.
pub open spec fn strip_dashes(s: Seq<char>) -> Seq<char>
    decreases s.len(),
{
    if s.len() == 0 {
        Seq::empty()
    } else if s.last() == '-' {
        strip_dashes(s.drop_last())
    } else {
        strip_dashes(s.drop_last()).push(s.last())
    }
}

pub fn strip_dashes_vec(v: &Vec<char>) -> (r: Vec<char>)
    ensures
        r@ == strip_dashes(v@),
{
    let mut r: Vec<char> = Vec::new();
    let mut i: usize = 0;
    while i < v.len()
        invariant
            i <= v@.len(),
            r@ == strip_dashes(v@.subrange(0, i as int)),
        decreases v@.len() - i,
    {
        proof {
            assert(v@.subrange(0, i + 1).drop_last() =~= v@.subrange(0, i as int));
            assert(v@.subrange(0, i + 1).last() == v@[i as int]);
        }
        if v[i] != '-' {
            r.push(v[i]);
        }
        i += 1;
    }
    proof {
        assert(v@.subrange(0, v@.len() as int) =~= v@);
    }
    r
}

fn digit_str(d: u32) -> (r: &'static str)
    requires
        d < 10,
    ensures
        r@ =~= seq![digit_char(d as int)],
{
    proof {
        reveal_strlit("0");
        reveal_strlit("1");
        reveal_strlit("2");
        reveal_strlit("3");
        reveal_strlit("4");
        reveal_strlit("5");
        reveal_strlit("6");
        reveal_strlit("7");
        reveal_strlit("8");
        reveal_strlit("9");
    }
    if d == 0 {
        "0"
    } else if d == 1 {
        "1"
    } else if d == 2 {
        "2"
    } else if d == 3 {
        "3"
    } else if d == 4 {
        "4"
    } else if d == 5 {
        "5"
    } else if d == 6 {
        "6"
    } else if d == 7 {
        "7"
    } else if d == 8 {
        "8"
    } else {
        "9"
    }
}

pub open spec fn spec_two_digits(v: int) -> Seq<char> {
    seq![digit_char(v / 10), digit_char(v % 10)]
}

fn push_two_digits(s: &mut String, v: u32)
    requires
        v < 100,
    ensures
        final(s)@ == old(s)@ + spec_two_digits(v as int),
{
    s.append(digit_str(v / 10));
    s.append(digit_str(v % 10));
    proof {
        assert(old(s)@ + seq![digit_char(v as int / 10)] + seq![digit_char(v as int % 10)] =~= old(
            s,
        )@ + spec_two_digits(v as int));
    }
}

/// The time as the five characters `HH:MM`.
pub open spec fn spec_format_hhmm(h: int, m: int) -> Seq<char> {
    spec_two_digits(h) + seq![':'] + spec_two_digits(m)
}

pub fn format_hhmm(h: u32, m: u32) -> (r: String)
    requires
        h < 100,
        m < 100,
    ensures
        r@ == spec_format_hhmm(h as int, m as int),
{
    let mut s = String::new();
    push_two_digits(&mut s, h);
    s.append(":");
    push_two_digits(&mut s, m);
    proof {
        reveal_strlit(":");
        assert(Seq::<char>::empty() + spec_two_digits(h as int) + ":"@ + spec_two_digits(m as int)
            =~= spec_format_hhmm(h as int, m as int));
    }
    s
}

/// The date as the eight characters `YYYYMMDD`.
pub open spec fn spec_format_yyyymmdd(v: int) -> Seq<char> {
    spec_two_digits(v / 1000000) + spec_two_digits(v / 10000 % 100) + spec_two_digits(v / 100 % 100)
        + spec_two_digits(v % 100)
}

pub fn format_yyyymmdd(v: u32) -> (r: String)
    requires
        v < 100000000,
    ensures
        r@ == spec_format_yyyymmdd(v as int),
{
    let mut s = String::new();
    push_two_digits(&mut s, v / 1000000);
    push_two_digits(&mut s, v / 10000 % 100);
    push_two_digits(&mut s, v / 100 % 100);
    push_two_digits(&mut s, v % 100);
    proof {
        assert(Seq::<char>::empty() + spec_two_digits(v as int / 1000000) + spec_two_digits(
            v as int / 10000 % 100,
        ) + spec_two_digits(v as int / 100 % 100) + spec_two_digits(v as int % 100)
            =~= spec_format_yyyymmdd(v as int));
    }
    s
}

pub fn contains_u32(v: &Vec<u32>, x: u32) -> (r: bool)
    ensures
        r == v@.contains(x),
{
    let mut i: usize = 0;
    while i < v.len()
        invariant
            i <= v@.len(),
            forall|j: int| 0 <= j < i ==> v@[j] != x,
        decreases v@.len() - i,
    {
        if v[i] == x {
            return true;
        }
        i += 1;
    }
    proof {
        assert(forall|j: int| 0 <= j < v@.len() ==> v@[j] != x);
    }
    false
}

} // verus!
