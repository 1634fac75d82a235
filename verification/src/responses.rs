//! The response bodies the service produces, and the fixed localized
//! messages for domain failures.

use vstd::prelude::*;

verus! {

/// Computed status of a branch at a given instant.
#[derive(Clone, Copy, PartialEq, Eq, Structural, Debug)]
pub enum InfoStateKind {
    Open,
    BeforeOpen,
    AfterClosed,
    HolidayClosed,
}

/// Body of a successful branch search: the matching branch names in
/// upstream order.
#[derive(Debug)]
pub struct SearchResponse {
    pub result: Vec<String>,
}

/// Body of a successful status lookup. `start_time` and `end_time` are
/// `HH:MM` texts; `holidays` holds `YYYYMMDD` texts of today-or-future
/// closure dates.
#[derive(Debug)]
pub struct InfoResponse {
    pub name: String,
    pub state: InfoStateKind,
    pub start_time: String,
    pub end_time: String,
    pub holidays: Vec<String>,
}

/// Body of a domain failure: a fixed localized message. Domain failures
/// are reported as data, not as transport errors.
#[derive(Debug)]
pub struct ErrorResponse {
    pub error: String,
}

/// Simple search body kept for the plain HTTP front end.
#[derive(Debug)]
pub struct Search {
    pub result: Vec<String>,
}

/// Simple info body kept for the plain HTTP front end.
#[derive(Debug)]
pub struct Info {
    pub name: String,
    pub start_time: String,
    pub end_time: String,
    pub next_holiday: String,
}

/// The fixed message for a search or lookup that matched no branch.
pub open spec fn no_result_message() -> Seq<char> {
    "검색 결과가 없습니다."@
}

/// The fixed message for a chain discriminator outside the supported set.
pub open spec fn unsupported_chain_message() -> Seq<char> {
    "지원하지 않는 마트 종류입니다."@
}

pub fn no_result_error() -> (r: ErrorResponse)
    ensures
        r.error@ == no_result_message(),
{
    ErrorResponse { error: "검색 결과가 없습니다.".to_owned() }
}

pub fn unsupported_chain_error() -> (r: ErrorResponse)
    ensures
        r.error@ == unsupported_chain_message(),
{
    ErrorResponse { error: "지원하지 않는 마트 종류입니다.".to_owned() }
}

} // verus!
