//! Calendar days and the choice of an expiration by days to expiry.

use vstd::prelude::*;
use chrono::Datelike;

verus! {

/// A calendar day, counted as chrono counts days from the common era (0001-01-01 is day 1).
#[derive(Debug, Clone, Copy, PartialEq, Eq, Structural)]
pub struct CalendarDay {
    pub days_from_ce: i32,
}

/// The day number that chrono gives a year, month and day, if they make a date.
pub uninterp spec fn ymd_day_number(year: i32, month: u32, day: u32) -> Option<i32>;

/// Calls `chrono::NaiveDate::from_ymd_opt`, then `Datelike::num_days_from_ce` on the date.
/// Claimed of it: the day number is the one `ymd_day_number` names, and there is none
/// unless the month is 1 to 12 and the day 1 to 31.
#[verifier::external_body]
pub fn day_from_ymd(year: i32, month: u32, day: u32) -> (r: Option<CalendarDay>)
    ensures
        match ymd_day_number(year, month, day) {
            Some(n) => r == Some(CalendarDay { days_from_ce: n }),
            None => r is None,
        },
        r is Some ==> 1 <= month <= 12 && 1 <= day <= 31,
{
    match chrono::NaiveDate::from_ymd_opt(year, month, day) {
        Some(d) => Some(CalendarDay { days_from_ce: d.num_days_from_ce() }),
        None => None,
    }
}

/// Days from `from` to `to` (negative when `to` comes first).
pub open spec fn days_between(from: CalendarDay, to: CalendarDay) -> int {
    to.days_from_ce - from.days_from_ce
}

/// Absolute value.
pub open spec fn abs_int(x: int) -> int {
    if x < 0 {
        -x
    } else {
        x
    }
}

impl CalendarDay {
    /// Days from this day to `later`, as chrono's date difference counts them.
    pub fn days_until(&self, later: CalendarDay) -> (r: i64)
        ensures
            r == days_between(*self, later),
    {
        later.days_from_ce as i64 - self.days_from_ce as i64
    }
}

/// Whether an expiration is still open on the pricing date and within `tolerance` days of
/// the target days to expiry.
pub open spec fn near_target(exp: CalendarDay, pricing: CalendarDay, target: int, tolerance: int) -> bool {
    days_between(pricing, exp) > 0 && abs_int(days_between(pricing, exp) - target) <= tolerance
}

/// Distance of an expiration's days to expiry from the target.
pub open spec fn target_distance(exp: CalendarDay, pricing: CalendarDay, target: int) -> int {
    abs_int(days_between(pricing, exp) - target)
}

/// The first expiration, in list order, whose days to expiry are closest to the target
/// among those still open and within the tolerance; `None` when there is none.
pub fn closest_expiration_to_target(
    expirations: &[CalendarDay],
    pricing_date: CalendarDay,
    target_dte: i64,
    tolerance: i64,
) -> (r: Option<usize>)
    ensures
        r is None <==> forall|i: int|
            0 <= i < expirations@.len() ==> !near_target(
                #[trigger] expirations@[i],
                pricing_date,
                target_dte as int,
                tolerance as int,
            ),
        r matches Some(k) ==> {
            &&& k < expirations@.len()
            &&& near_target(expirations@[k as int], pricing_date, target_dte as int, tolerance as int)
            &&& forall|i: int|
                0 <= i < expirations@.len() && near_target(
                    #[trigger] expirations@[i],
                    pricing_date,
                    target_dte as int,
                    tolerance as int,
                ) ==> target_distance(expirations@[k as int], pricing_date, target_dte as int)
                    <= target_distance(expirations@[i], pricing_date, target_dte as int)
                    && (i < k ==> target_distance(expirations@[k as int], pricing_date, target_dte as int)
                    < target_distance(expirations@[i], pricing_date, target_dte as int))
        },
{
    let mut best: Option<usize> = None;
    let mut best_diff: i128 = 0;
    let mut i: usize = 0;
    while i < expirations.len()
        invariant
            i <= expirations@.len(),
            best is None <==> forall|j: int|
                0 <= j < i ==> !near_target(#[trigger] expirations@[j], pricing_date, target_dte as int, tolerance as int),
            best matches Some(k) ==> {
                &&& k < i
                &&& near_target(expirations@[k as int], pricing_date, target_dte as int, tolerance as int)
                &&& best_diff == target_distance(expirations@[k as int], pricing_date, target_dte as int)
                &&& forall|j: int|
                    0 <= j < i && near_target(#[trigger] expirations@[j], pricing_date, target_dte as int, tolerance as int)
                        ==> best_diff <= target_distance(expirations@[j], pricing_date, target_dte as int)
                        && (j < k ==> best_diff < target_distance(expirations@[j], pricing_date, target_dte as int))
            },
        decreases expirations@.len() - i,
    {
        let exp = expirations[i];
        let dte: i128 = exp.days_from_ce as i128 - pricing_date.days_from_ce as i128;
        if dte > 0 {
            let off: i128 = dte - target_dte as i128;
            let diff: i128 = if off < 0 { -off } else { off };
            if diff <= tolerance as i128 {
                match best {
                    None => {
                        best = Some(i);
                        best_diff = diff;
                    },
                    Some(_) => {
                        if diff < best_diff {
                            best = Some(i);
                            best_diff = diff;
                        }
                    },
                }
            }
        }
        i = i + 1;
    }
    best
}

/// The key by which a straddle expiration is chosen: distance to the target days to
/// expiry when there is a target, else the days to expiry themselves.
pub open spec fn straddle_key(exp: CalendarDay, pricing: CalendarDay, target: Option<i64>) -> int {
    match target {
        Some(t) => target_distance(exp, pricing, t as int),
        None => days_between(pricing, exp),
    }
}

/// The first expiration, in list order, with at least `min_dte` days to expiry whose key
/// (distance to the target, or days to expiry when there is no target) is smallest.
pub fn nearest_straddle_expiration(
    expirations: &[CalendarDay],
    pricing_date: CalendarDay,
    target_dte: Option<i64>,
    min_dte: i64,
) -> (r: Option<usize>)
    ensures
        r is None <==> forall|i: int|
            0 <= i < expirations@.len() ==> days_between(pricing_date, #[trigger] expirations@[i]) < min_dte,
        r matches Some(k) ==> {
            &&& k < expirations@.len()
            &&& days_between(pricing_date, expirations@[k as int]) >= min_dte
            &&& forall|i: int|
                0 <= i < expirations@.len() && days_between(pricing_date, #[trigger] expirations@[i]) >= min_dte
                    ==> straddle_key(expirations@[k as int], pricing_date, target_dte)
                    <= straddle_key(expirations@[i], pricing_date, target_dte)
                    && (i < k ==> straddle_key(expirations@[k as int], pricing_date, target_dte)
                    < straddle_key(expirations@[i], pricing_date, target_dte))
        },
{
    let mut best: Option<usize> = None;
    let mut best_key: i128 = 0;
    let mut i: usize = 0;
    while i < expirations.len()
        invariant
            i <= expirations@.len(),
            best is None <==> forall|j: int|
                0 <= j < i ==> days_between(pricing_date, #[trigger] expirations@[j]) < min_dte,
            best matches Some(k) ==> {
                &&& k < i
                &&& days_between(pricing_date, expirations@[k as int]) >= min_dte
                &&& best_key == straddle_key(expirations@[k as int], pricing_date, target_dte)
                &&& forall|j: int|
                    0 <= j < i && days_between(pricing_date, #[trigger] expirations@[j]) >= min_dte
                        ==> best_key <= straddle_key(expirations@[j], pricing_date, target_dte)
                        && (j < k ==> best_key < straddle_key(expirations@[j], pricing_date, target_dte))
            },
        decreases expirations@.len() - i,
    {
        let exp = expirations[i];
        let dte: i128 = exp.days_from_ce as i128 - pricing_date.days_from_ce as i128;
        if dte >= min_dte as i128 {
            let key: i128 = match target_dte {
                Some(t) => {
                    let off: i128 = dte - t as i128;
                    if off < 0 { -off } else { off }
                },
                None => dte,
            };
            match best {
                None => {
                    best = Some(i);
                    best_key = key;
                },
                Some(_) => {
                    if key < best_key {
                        best = Some(i);
                        best_key = key;
                    }
                },
            }
        }
        i = i + 1;
    }
    best
}

/// Whether the legs' expirations make a calendar structure: at least two different
/// expirations among them.
pub fn is_calendar_structure(expirations: &[CalendarDay]) -> (r: bool)
    ensures
        r == exists|i: int, j: int|
            0 <= i < expirations@.len() && 0 <= j < expirations@.len() && #[trigger] expirations@[i]
                != #[trigger] expirations@[j],
{
    if expirations.len() == 0 {
        return false;
    }
    let first = expirations[0];
    let mut k: usize = 1;
    while k < expirations.len()
        invariant
            1 <= k <= expirations@.len(),
            first == expirations@[0],
            forall|j: int| 0 <= j < k ==> expirations@[j] == first,
        decreases expirations@.len() - k,
    {
        if expirations[k] != first {
            assert(expirations@[0] != expirations@[k as int]);
            return true;
        }
        k = k + 1;
    }
    assert forall|i: int, j: int|
        0 <= i < expirations@.len() && 0 <= j < expirations@.len() implies #[trigger] expirations@[i]
            == #[trigger] expirations@[j] by {
        assert(expirations@[i] == first);
        assert(expirations@[j] == first);
    }
    false
}

} // verus!
