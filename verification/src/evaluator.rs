//! The open/closed state machine: a pure function of the current
//! instant, the upstream operational flag, the day's operating window
//! and the holiday dates.

use vstd::prelude::*;
use crate::dates::{Instant, TimeWindow, instant_key, instant_lt, valid_instant, yyyymmdd,
    yyyymmdd_u32};
use crate::responses::InfoStateKind;
use crate::textparse::contains_u32;

verus! {

/// Upstream-reported operational signal, independent of the computed
/// window: a branch may be reported closed for reasons the window
/// cannot express.
#[derive(Clone, Copy, PartialEq, Eq, Structural, Debug)]
pub enum OperationalFlag {
    OpenNow,
    ClosedNow,
}

/// The decision order of the status machine; the first matching branch
/// wins. Holiday membership dominates everything; a reported
/// `ClosedNow` flag then short-circuits the close-time comparison.
pub open spec fn spec_state(
    now: Instant,
    flag: OperationalFlag,
    window: TimeWindow,
    holidays: Seq<u32>,
) -> InfoStateKind {
    if holidays.contains((yyyymmdd(now.date) as u32)) {
        InfoStateKind::HolidayClosed
    } else if flag is ClosedNow && instant_key(now) < instant_key(window.open) {
        InfoStateKind::BeforeOpen
    } else if flag is ClosedNow {
        InfoStateKind::AfterClosed
    } else if instant_key(now) < instant_key(window.open) {
        InfoStateKind::BeforeOpen
    } else if instant_key(now) > instant_key(window.close) {
        InfoStateKind::AfterClosed
    } else {
        InfoStateKind::Open
    }
}

pub fn evaluate(
    now: &Instant,
    flag: OperationalFlag,
    window: &TimeWindow,
    holidays: &Vec<u32>,
) -> (r: InfoStateKind)
    requires
        valid_instant(*now),
        valid_instant(window.open),
        valid_instant(window.close),
    ensures
        r == spec_state(*now, flag, *window, holidays@),
{
    let today: u32 = yyyymmdd_u32(&now.date);
    if contains_u32(holidays, today) {
        return InfoStateKind::HolidayClosed;
    }
    let before_open: bool = instant_lt(now, &window.open);
    match flag {
        OperationalFlag::ClosedNow => {
            if before_open {
                InfoStateKind::BeforeOpen
            } else {
                InfoStateKind::AfterClosed
            }
        },
        OperationalFlag::OpenNow => {
            if before_open {
                InfoStateKind::BeforeOpen
            } else if instant_lt(&window.close, now) {
                InfoStateKind::AfterClosed
            } else {
                InfoStateKind::Open
            }
        },
    }
}

/// Holiday membership dominates every branch of the state machine: when
/// the current calendar date is among the holiday dates, the state is
/// `HolidayClosed` whatever the flag and the window say.
pub proof fn lemma_holiday_dominates(
    now: Instant,
    flag: OperationalFlag,
    window: TimeWindow,
    holidays: Seq<u32>,
)
    requires
        holidays.contains((yyyymmdd(now.date) as u32)),
    ensures
        spec_state(now, flag, window, holidays) == InfoStateKind::HolidayClosed,
{
}

} // verus!
