//! Buying-power-reduction timelines: sampling times, hedge share counts, and the
//! portfolio timeline summed over trades.
//!
//! Timestamps are microseconds since the Unix epoch, as `DateTime<Utc>::timestamp_micros`
//! gives them; they order as the date-times do.

use vstd::prelude::*;
use crate::money::{Money, spec_add, checked_add, sum_of};

verus! {

/// Whether a sequence of timestamps is strictly increasing.
pub open spec fn strictly_increasing(s: Seq<i64>) -> bool {
    forall|i: int, j: int| 0 <= i < j < s.len() ==> s[i] < s[j]
}

/// Inserts a timestamp into a strictly increasing list unless it is already there.
pub fn insert_sorted(v: &mut Vec<i64>, x: i64)
    requires
        strictly_increasing(old(v)@),
    ensures
        strictly_increasing(final(v)@),
        forall|y: i64| #[trigger] final(v)@.contains(y) <==> (old(v)@.contains(y) || y == x),
{
    let mut p: usize = 0;
    while p < v.len() && v[p] < x
        invariant
            p <= v@.len(),
            v@ == old(v)@,
            strictly_increasing(v@),
            forall|j: int| 0 <= j < p ==> v@[j] < x,
        decreases v@.len() - p,
    {
        p = p + 1;
    }
    if p < v.len() && v[p] == x {
        return;
    }
    let ghost before = v@;
    v.insert(p, x);
    assert(v@ == before.insert(p as int, x));
    assert forall|i: int, j: int| 0 <= i < j < v@.len() implies v@[i] < v@[j] by {
        if j < p {
            assert(v@[i] == before[i] && v@[j] == before[j]);
        } else if j == p {
            assert(v@[i] == before[i]);
        } else if i == p {
            assert(v@[j] == before[j - 1]);
            assert(before[p as int] > x);
            if j - 1 > p {
                assert(before[p as int] < before[j - 1]);
            }
        } else if i < p {
            assert(v@[i] == before[i] && v@[j] == before[j - 1]);
        } else {
            assert(v@[i] == before[i - 1] && v@[j] == before[j - 1]);
        }
    }
    assert forall|y: i64| #[trigger] v@.contains(y) <==> (before.contains(y) || y == x) by {
        if v@.contains(y) {
            let k = choose|k: int| 0 <= k < v@.len() && v@[k] == y;
            if k < p {
                assert(before[k] == y);
            } else if k > p {
                assert(before[k - 1] == y);
            }
        }
        if before.contains(y) {
            let k = choose|k: int| 0 <= k < before.len() && before[k] == y;
            if k < p {
                assert(v@[k] == y);
            } else {
                assert(v@[k + 1] == y);
            }
        }
        if y == x {
            assert(v@[p as int] == x);
        }
    }
}

/// The times at which a position's buying power is sampled: entry, exit and every hedge,
/// in increasing order, each once.
pub fn bpr_sample_times(entry_time: i64, exit_time: i64, hedge_times: &Vec<i64>) -> (r: Vec<i64>)
    ensures
        strictly_increasing(r@),
        forall|y: i64| #[trigger] r@.contains(y) <==> (y == entry_time || y == exit_time || hedge_times@.contains(y)),
{
    let mut times: Vec<i64> = Vec::new();
    insert_sorted(&mut times, entry_time);
    insert_sorted(&mut times, exit_time);
    let mut i: usize = 0;
    while i < hedge_times.len()
        invariant
            i <= hedge_times@.len(),
            strictly_increasing(times@),
            forall|y: i64|
                #[trigger] times@.contains(y) <==> (y == entry_time || y == exit_time || exists|j: int|
                    0 <= j < i && hedge_times@[j] == y),
        decreases hedge_times@.len() - i,
    {
        let ghost before = times@;
        insert_sorted(&mut times, hedge_times[i]);
        assert forall|y: i64|
            #[trigger] times@.contains(y) <==> (y == entry_time || y == exit_time || exists|j: int|
                0 <= j < i + 1 && hedge_times@[j] == y) by {
            if exists|j: int| 0 <= j < i + 1 && hedge_times@[j] == y {
                let j = choose|j: int| 0 <= j < i + 1 && hedge_times@[j] == y;
                if j < i {
                    assert(exists|j2: int| 0 <= j2 < i && hedge_times@[j2] == y);
                }
            }
        }
        i = i + 1;
    }
    times
}

/// One stock hedge trade.
#[derive(Debug, Clone, Copy, PartialEq, Eq, Structural)]
pub struct HedgeAction {
    pub timestamp: i64,
    /// Shares bought (positive) or sold (negative).
    pub shares: i32,
}

/// Shares held from the hedges done at or before `ts`, counted over the first hedges.
pub open spec fn shares_at(hedges: Seq<HedgeAction>, ts: i64) -> int
    decreases hedges.len(),
{
    if hedges.len() == 0 {
        0
    } else {
        shares_at(hedges.drop_last(), ts) + if hedges.last().timestamp <= ts {
            hedges.last().shares as int
        } else {
            0
        }
    }
}

/// Shares held at `ts`: the sum of the shares of the hedges done at or before it.
pub fn hedge_shares_at(hedges: &Vec<HedgeAction>, ts: i64) -> (r: i32)
    requires
        forall|n: int| 0 <= n <= hedges@.len() ==> i32::MIN <= #[trigger] shares_at(hedges@.take(n), ts) <= i32::MAX,
    ensures
        r == shares_at(hedges@, ts),
{
    let mut total: i32 = 0;
    let mut i: usize = 0;
    while i < hedges.len()
        invariant
            i <= hedges@.len(),
            forall|n: int| 0 <= n <= hedges@.len() ==> i32::MIN <= #[trigger] shares_at(hedges@.take(n), ts) <= i32::MAX,
            total == shares_at(hedges@.take(i as int), ts),
        decreases hedges@.len() - i,
    {
        assert(hedges@.take(i as int + 1).drop_last() =~= hedges@.take(i as int));
        assert(hedges@.take(i as int + 1).last() == hedges@[i as int]);
        assert(i32::MIN <= shares_at(hedges@.take(i as int + 1), ts) <= i32::MAX);
        let h = hedges[i];
        if h.timestamp <= ts {
            total = total + h.shares;
        }
        i = i + 1;
    }
    assert(hedges@.take(hedges@.len() as int) =~= hedges@);
    total
}

/// Buying-power requirement of a position at one time.
#[derive(Debug, Clone, Copy, PartialEq, Eq, Structural)]
pub struct BprSnapshot {
    pub ts: i64,
    pub option_initial: Money,
    pub option_maint: Money,
    pub hedge_initial: Money,
    pub hedge_maint: Money,
}

impl BprSnapshot {
    /// Whether every amount is one rust_decimal can hold.
    pub open spec fn wf(self) -> bool {
        self.option_initial.wf() && self.option_maint.wf() && self.hedge_initial.wf() && self.hedge_maint.wf()
    }
}

/// Buying-power snapshots of a position, in time order.
#[derive(Debug, Clone)]
pub struct BprTimeline {
    pub snapshots: Vec<BprSnapshot>,
}

/// What the portfolio timeline reads of one trade.
#[derive(Debug, Clone)]
pub struct TradeBpr {
    pub entry_time: i64,
    pub exit_time: i64,
    pub timeline: Option<BprTimeline>,
}

/// Number of leading snapshots taken at or before `ts`.
pub open spec fn leading_at_or_before(snaps: Seq<BprSnapshot>, ts: i64) -> nat
    decreases snaps.len(),
{
    if snaps.len() == 0 {
        0
    } else if snaps[0].ts <= ts {
        1 + leading_at_or_before(snaps.drop_first(), ts)
    } else {
        0
    }
}

/// The last snapshot before the first one taken after `ts`, if any.
pub open spec fn latest_at_or_before(snaps: Seq<BprSnapshot>, ts: i64) -> Option<BprSnapshot> {
    let n = leading_at_or_before(snaps, ts);
    if n == 0 {
        None
    } else {
        Some(snaps[n - 1])
    }
}

proof fn lemma_leading_count(snaps: Seq<BprSnapshot>, ts: i64, i: int)
    requires
        0 <= i <= snaps.len(),
        forall|j: int| 0 <= j < i ==> (#[trigger] snaps[j]).ts <= ts,
        i == snaps.len() || snaps[i].ts > ts,
    ensures
        leading_at_or_before(snaps, ts) == i,
    decreases i,
{
    if i > 0 {
        let rest = snaps.drop_first();
        assert forall|j: int| 0 <= j < i - 1 implies (#[trigger] rest[j]).ts <= ts by {
            assert(rest[j] == snaps[j + 1]);
        }
        if i < snaps.len() {
            assert(rest[i - 1] == snaps[i]);
        }
        lemma_leading_count(rest, ts, i - 1);
        assert(snaps[0].ts <= ts);
    } else if snaps.len() > 0 {
        assert(snaps[0].ts > ts);
    }
}

/// The last snapshot taken at or before `ts`, scanning from the first until one comes after.
pub fn latest_snapshot_at_or_before(timeline: &BprTimeline, ts: i64) -> (r: Option<BprSnapshot>)
    ensures
        r == latest_at_or_before(timeline.snapshots@, ts),
{
    let mut latest: Option<BprSnapshot> = None;
    let mut i: usize = 0;
    let ghost snaps = timeline.snapshots@;
    while i < timeline.snapshots.len()
        invariant
            snaps == timeline.snapshots@,
            i <= snaps.len(),
            forall|j: int| 0 <= j < i ==> (#[trigger] snaps[j]).ts <= ts,
            latest == (if i == 0 { None } else { Some(snaps[i - 1]) }),
        decreases snaps.len() - i,
    {
        let snap = timeline.snapshots[i];
        if snap.ts <= ts {
            latest = Some(snap);
        } else {
            proof {
                lemma_leading_count(snaps, ts, i as int);
            }
            return latest;
        }
        i = i + 1;
    }
    proof {
        lemma_leading_count(snaps, ts, i as int);
    }
    latest
}

/// The four totals of a portfolio snapshot.
pub open spec fn add_snapshot(acc: BprSnapshot, s: BprSnapshot) -> Option<BprSnapshot> {
    match (
        spec_add(acc.option_initial, s.option_initial),
        spec_add(acc.option_maint, s.option_maint),
        spec_add(acc.hedge_initial, s.hedge_initial),
        spec_add(acc.hedge_maint, s.hedge_maint),
    ) {
        (Some(a), Some(b), Some(c), Some(d)) => Some(
            BprSnapshot { ts: acc.ts, option_initial: a, option_maint: b, hedge_initial: c, hedge_maint: d },
        ),
        _ => None,
    }
}

/// The snapshot that a trade adds to the portfolio at `ts`: its latest one, when the
/// trade has a timeline and is open at `ts`.
pub open spec fn contribution(t: TradeBpr, ts: i64) -> Option<BprSnapshot> {
    match t.timeline {
        None => None,
        Some(tl) => if ts < t.entry_time || ts > t.exit_time {
            None
        } else {
            latest_at_or_before(tl.snapshots@, ts)
        },
    }
}

/// The portfolio snapshot at `ts`, summed over the trades from the first on; `None` when
/// a sum overflows.
pub open spec fn portfolio_at(trades: Seq<TradeBpr>, ts: i64) -> Option<BprSnapshot>
    decreases trades.len(),
{
    if trades.len() == 0 {
        Some(
            BprSnapshot {
                ts,
                option_initial: Money::spec_zero(),
                option_maint: Money::spec_zero(),
                hedge_initial: Money::spec_zero(),
                hedge_maint: Money::spec_zero(),
            },
        )
    } else {
        match portfolio_at(trades.drop_last(), ts) {
            None => None,
            Some(acc) => match contribution(trades.last(), ts) {
                None => Some(acc),
                Some(s) => add_snapshot(acc, s),
            },
        }
    }
}

/// The latest snapshots at `ts` of the trades open then that have one, in trade order.
pub open spec fn open_snapshots(trades: Seq<TradeBpr>, ts: i64) -> Seq<BprSnapshot>
    decreases trades.len(),
{
    if trades.len() == 0 {
        Seq::empty()
    } else {
        match contribution(trades.last(), ts) {
            None => open_snapshots(trades.drop_last(), ts),
            Some(s) => open_snapshots(trades.drop_last(), ts).push(s),
        }
    }
}

/// The four amounts of a buying-power snapshot.
#[derive(Debug, Clone, Copy, PartialEq, Eq, Structural)]
pub enum BprField {
    OptionInitial,
    OptionMaint,
    HedgeInitial,
    HedgeMaint,
}

/// One amount of a snapshot.
pub open spec fn field_of(s: BprSnapshot, f: BprField) -> Money {
    match f {
        BprField::OptionInitial => s.option_initial,
        BprField::OptionMaint => s.option_maint,
        BprField::HedgeInitial => s.hedge_initial,
        BprField::HedgeMaint => s.hedge_maint,
    }
}

/// One amount of each snapshot, in order.
pub open spec fn field_seq(snaps: Seq<BprSnapshot>, f: BprField) -> Seq<Money>
    decreases snaps.len(),
{
    if snaps.len() == 0 {
        Seq::empty()
    } else {
        field_seq(snaps.drop_last(), f).push(field_of(snaps.last(), f))
    }
}

/// The checked sum of one amount over snapshots.
pub open spec fn field_total(snaps: Seq<BprSnapshot>, f: BprField) -> Option<Money> {
    sum_of(field_seq(snaps, f))
}

proof fn lemma_field_total_push(snaps: Seq<BprSnapshot>, s: BprSnapshot, f: BprField)
    ensures
        field_total(snaps.push(s), f) == (match field_total(snaps, f) {
            None => None,
            Some(a) => spec_add(a, field_of(s, f)),
        }),
{
    assert(snaps.push(s).drop_last() =~= snaps);
    let q = field_seq(snaps.push(s), f);
    assert(q == field_seq(snaps, f).push(field_of(s, f)));
    assert(q.drop_last() =~= field_seq(snaps, f));
}

/// The portfolio sums each amount on its own: its option initial, option maintenance,
/// hedge initial and hedge maintenance requirements at `ts` are the sums of that same
/// amount over the latest snapshots of the trades open then, and it exists exactly when
/// none of these four sums overflows.
pub proof fn lemma_portfolio_sums_each_field(trades: Seq<TradeBpr>, ts: i64)
    ensures
        portfolio_at(trades, ts) is Some <==> {
            &&& field_total(open_snapshots(trades, ts), BprField::OptionInitial) is Some
            &&& field_total(open_snapshots(trades, ts), BprField::OptionMaint) is Some
            &&& field_total(open_snapshots(trades, ts), BprField::HedgeInitial) is Some
            &&& field_total(open_snapshots(trades, ts), BprField::HedgeMaint) is Some
        },
        portfolio_at(trades, ts) matches Some(p) ==> {
            &&& p.ts == ts
            &&& field_total(open_snapshots(trades, ts), BprField::OptionInitial) == Some(p.option_initial)
            &&& field_total(open_snapshots(trades, ts), BprField::OptionMaint) == Some(p.option_maint)
            &&& field_total(open_snapshots(trades, ts), BprField::HedgeInitial) == Some(p.hedge_initial)
            &&& field_total(open_snapshots(trades, ts), BprField::HedgeMaint) == Some(p.hedge_maint)
        },
    decreases trades.len(),
{
    if trades.len() > 0 {
        let p = trades.drop_last();
        lemma_portfolio_sums_each_field(p, ts);
        let os = open_snapshots(p, ts);
        match contribution(trades.last(), ts) {
            None => {},
            Some(s) => {
                lemma_field_total_push(os, s, BprField::OptionInitial);
                lemma_field_total_push(os, s, BprField::OptionMaint);
                lemma_field_total_push(os, s, BprField::HedgeInitial);
                lemma_field_total_push(os, s, BprField::HedgeMaint);
            },
        }
    }
}

/// Whether the trade at `i` has a timeline whose snapshot at `j` was taken at `ts`.
pub open spec fn snapshot_taken_at(trades: Seq<TradeBpr>, i: int, j: int, ts: i64) -> bool {
    &&& 0 <= i < trades.len()
    &&& trades[i].timeline is Some
    &&& 0 <= j < trades[i].timeline->0.snapshots@.len()
    &&& trades[i].timeline->0.snapshots@[j].ts == ts
}

/// Whether a timestamp is that of some snapshot of a trade with a timeline.
pub open spec fn is_snapshot_time(trades: Seq<TradeBpr>, ts: i64) -> bool {
    exists|i: int, j: int| #[trigger] snapshot_taken_at(trades, i, j, ts)
}

/// Whether the trade at `i` has a timeline whose snapshot at `j` holds well-formed amounts.
pub open spec fn snapshot_wf_at(trades: Seq<TradeBpr>, i: int, j: int) -> bool {
    (0 <= i < trades.len() && trades[i].timeline is Some && 0 <= j < trades[i].timeline->0.snapshots@.len())
        ==> trades[i].timeline->0.snapshots@[j].wf()
}

/// Whether every snapshot of every trade holds amounts rust_decimal can hold.
pub open spec fn trades_wf(trades: Seq<TradeBpr>) -> bool {
    forall|i: int, j: int| #[trigger] snapshot_wf_at(trades, i, j)
}

/// A sum of buying-power amounts did not fit in a decimal.
#[derive(Debug, Clone, Copy, PartialEq, Eq, Structural)]
pub struct AmountOverflow;

/// All snapshot timestamps of the trades with timelines, increasing and each once.
fn snapshot_times(trades: &Vec<TradeBpr>) -> (r: Vec<i64>)
    ensures
        strictly_increasing(r@),
        forall|y: i64| #[trigger] r@.contains(y) <==> is_snapshot_time(trades@, y),
{
    let mut times: Vec<i64> = Vec::new();
    let mut i: usize = 0;
    while i < trades.len()
        invariant
            i <= trades@.len(),
            strictly_increasing(times@),
            forall|y: i64|
                #[trigger] times@.contains(y) <==> is_snapshot_time(trades@.take(i as int), y),
        decreases trades@.len() - i,
    {
        let ghost prefix = trades@.take(i as int);
        let ghost next = trades@.take(i as int + 1);
        match &trades[i].timeline {
            None => {
                assert forall|y: i64| is_snapshot_time(next, y) <==> is_snapshot_time(prefix, y) by {
                    if is_snapshot_time(next, y) {
                        let (a, b) = choose|a: int, b: int| #[trigger] snapshot_taken_at(next, a, b, y);
                        assert(a < i);
                        assert(prefix[a] == next[a]);
                        assert(snapshot_taken_at(prefix, a, b, y));
                    }
                    if is_snapshot_time(prefix, y) {
                        let (a, b) = choose|a: int, b: int| #[trigger] snapshot_taken_at(prefix, a, b, y);
                        assert(next[a] == prefix[a]);
                        assert(snapshot_taken_at(next, a, b, y));
                    }
                }
            },
            Some(tl) => {
                let mut j: usize = 0;
                while j < tl.snapshots.len()
                    invariant
                        i < trades@.len(),
                        trades@[i as int].timeline == Some(*tl),
                        prefix == trades@.take(i as int),
                        next == trades@.take(i as int + 1),
                        j <= tl.snapshots@.len(),
                        strictly_increasing(times@),
                        forall|y: i64|
                            #[trigger] times@.contains(y) <==> (is_snapshot_time(prefix, y) || exists|b: int|
                                0 <= b < j && tl.snapshots@[b].ts == y),
                    decreases tl.snapshots@.len() - j,
                {
                    let ghost before = times@;
                    insert_sorted(&mut times, tl.snapshots[j].ts);
                    assert forall|y: i64|
                        #[trigger] times@.contains(y) <==> (is_snapshot_time(prefix, y) || exists|b: int|
                            0 <= b < j + 1 && tl.snapshots@[b].ts == y) by {
                        if exists|b: int| 0 <= b < j + 1 && tl.snapshots@[b].ts == y {
                            let b = choose|b: int| 0 <= b < j + 1 && tl.snapshots@[b].ts == y;
                            if b < j {
                                assert(exists|b2: int| 0 <= b2 < j && tl.snapshots@[b2].ts == y);
                            }
                        }
                        if exists|b: int| 0 <= b < j && tl.snapshots@[b].ts == y {
                            let b = choose|b: int| 0 <= b < j && tl.snapshots@[b].ts == y;
                            assert(0 <= b < j + 1 && tl.snapshots@[b].ts == y);
                        }
                        if y == tl.snapshots@[j as int].ts {
                            assert(0 <= j < j + 1 && tl.snapshots@[j as int].ts == y);
                        }
                    }
                    j = j + 1;
                }
                assert forall|y: i64|
                    is_snapshot_time(next, y) <==> (is_snapshot_time(prefix, y) || exists|b: int|
                        0 <= b < tl.snapshots@.len() && tl.snapshots@[b].ts == y) by {
                    if is_snapshot_time(next, y) {
                        let (a, b) = choose|a: int, b: int| #[trigger] snapshot_taken_at(next, a, b, y);
                        if a < i {
                            assert(prefix[a] == next[a]);
                            assert(snapshot_taken_at(prefix, a, b, y));
                        } else {
                            assert(next[a] == trades@[i as int]);
                            assert(tl.snapshots@[b].ts == y);
                        }
                    }
                    if is_snapshot_time(prefix, y) {
                        let (a, b) = choose|a: int, b: int| #[trigger] snapshot_taken_at(prefix, a, b, y);
                        assert(next[a] == prefix[a]);
                        assert(snapshot_taken_at(next, a, b, y));
                    }
                    if exists|b: int| 0 <= b < tl.snapshots@.len() && tl.snapshots@[b].ts == y {
                        let b = choose|b: int| 0 <= b < tl.snapshots@.len() && tl.snapshots@[b].ts == y;
                        assert(next[i as int] == trades@[i as int]);
                        assert(snapshot_taken_at(next, i as int, b, y));
                    }
                }
            },
        }
        i = i + 1;
    }
    assert(trades@.take(trades@.len() as int) =~= trades@);
    times
}


proof fn lemma_leading_bounded(snaps: Seq<BprSnapshot>, ts: i64)
    ensures
        leading_at_or_before(snaps, ts) <= snaps.len(),
    decreases snaps.len(),
{
    if snaps.len() > 0 {
        lemma_leading_bounded(snaps.drop_first(), ts);
    }
}

/// Once the portfolio sum over a prefix of trades overflows, so does the sum over all.
proof fn lemma_portfolio_none_stays(trades: Seq<TradeBpr>, ts: i64, n: int)
    requires
        0 <= n <= trades.len(),
        portfolio_at(trades.take(n), ts) is None,
    ensures
        portfolio_at(trades, ts) is None,
    decreases trades.len() - n,
{
    if n < trades.len() {
        assert(trades.take(n + 1).drop_last() =~= trades.take(n));
        lemma_portfolio_none_stays(trades, ts, n + 1);
    } else {
        assert(trades.take(n) =~= trades);
    }
}

/// The portfolio snapshot at `ts`: the four amounts summed over the trades that are open
/// at `ts` and have a snapshot at or before it; `None` when a sum overflows.
pub fn portfolio_snapshot_at(trades: &Vec<TradeBpr>, ts: i64) -> (r: Option<BprSnapshot>)
    requires
        trades_wf(trades@),
    ensures
        r == portfolio_at(trades@, ts),
        r matches Some(s) ==> s.wf() && s.ts == ts,
        r is Some <==> {
            &&& field_total(open_snapshots(trades@, ts), BprField::OptionInitial) is Some
            &&& field_total(open_snapshots(trades@, ts), BprField::OptionMaint) is Some
            &&& field_total(open_snapshots(trades@, ts), BprField::HedgeInitial) is Some
            &&& field_total(open_snapshots(trades@, ts), BprField::HedgeMaint) is Some
        },
        r matches Some(p) ==> {
            &&& field_total(open_snapshots(trades@, ts), BprField::OptionInitial) == Some(p.option_initial)
            &&& field_total(open_snapshots(trades@, ts), BprField::OptionMaint) == Some(p.option_maint)
            &&& field_total(open_snapshots(trades@, ts), BprField::HedgeInitial) == Some(p.hedge_initial)
            &&& field_total(open_snapshots(trades@, ts), BprField::HedgeMaint) == Some(p.hedge_maint)
        },
{
    let zero = Money::zero();
    let mut acc = BprSnapshot {
        ts,
        option_initial: zero,
        option_maint: zero,
        hedge_initial: zero,
        hedge_maint: zero,
    };
    let mut i: usize = 0;
    while i < trades.len()
        invariant
            i <= trades@.len(),
            trades_wf(trades@),
            acc.wf(),
            acc.ts == ts,
            portfolio_at(trades@.take(i as int), ts) == Some(acc),
        decreases trades@.len() - i,
    {
        assert(trades@.take(i as int + 1).drop_last() =~= trades@.take(i as int));
        assert(trades@.take(i as int + 1).last() == trades@[i as int]);
        let trade = &trades[i];
        let contributed: Option<BprSnapshot> = match &trade.timeline {
            None => None,
            Some(tl) => {
                if ts < trade.entry_time || ts > trade.exit_time {
                    None
                } else {
                    latest_snapshot_at_or_before(tl, ts)
                }
            },
        };
        assert(contributed == contribution(trades@[i as int], ts));
        match contributed {
            None => {},
            Some(snap) => {
                let ghost tl_snaps = trades@[i as int].timeline->0.snapshots@;
                proof {
                    lemma_leading_bounded(tl_snaps, ts);
                    let n = leading_at_or_before(tl_snaps, ts);
                    assert(snapshot_wf_at(trades@, i as int, n - 1));
                }
                let a = checked_add(acc.option_initial, snap.option_initial);
                let b = checked_add(acc.option_maint, snap.option_maint);
                let c = checked_add(acc.hedge_initial, snap.hedge_initial);
                let d = checked_add(acc.hedge_maint, snap.hedge_maint);
                match (a, b, c, d) {
                    (Some(a), Some(b), Some(c), Some(d)) => {
                        acc = BprSnapshot { ts, option_initial: a, option_maint: b, hedge_initial: c, hedge_maint: d };
                    },
                    _ => {
                        proof {
                            lemma_portfolio_none_stays(trades@, ts, i as int + 1);
                            lemma_portfolio_sums_each_field(trades@, ts);
                        }
                        return None;
                    },
                }
            },
        }
        i = i + 1;
    }
    assert(trades@.take(trades@.len() as int) =~= trades@);
    proof {
        lemma_portfolio_sums_each_field(trades@, ts);
    }
    Some(acc)
}

/// The portfolio buying-power timeline: one snapshot at each time some trade has a
/// snapshot, in increasing order, each summing the trades open then; `Ok(None)` when no
/// trade has a snapshot, and an error when a sum overflows.
pub fn build_portfolio_bpr_timeline(trades: &Vec<TradeBpr>) -> (r: Result<Option<BprTimeline>, AmountOverflow>)
    requires
        trades_wf(trades@),
    ensures
        r == Ok::<Option<BprTimeline>, AmountOverflow>(None) <==> !exists|y: i64| is_snapshot_time(trades@, y),
        r is Err <==> exists|y: i64| is_snapshot_time(trades@, y) && portfolio_at(trades@, y) is None,
        r matches Ok(Some(tl)) ==> {
            &&& forall|k: int| 0 <= k < tl.snapshots@.len() ==> Some(#[trigger] tl.snapshots@[k]) == portfolio_at(
                trades@,
                tl.snapshots@[k].ts,
            )
            &&& forall|k: int| 0 <= k < tl.snapshots@.len() ==> {
                let snap = #[trigger] tl.snapshots@[k];
                let open = open_snapshots(trades@, snap.ts);
                &&& field_total(open, BprField::OptionInitial) == Some(snap.option_initial)
                &&& field_total(open, BprField::OptionMaint) == Some(snap.option_maint)
                &&& field_total(open, BprField::HedgeInitial) == Some(snap.hedge_initial)
                &&& field_total(open, BprField::HedgeMaint) == Some(snap.hedge_maint)
            }
            &&& forall|k1: int, k2: int|
                0 <= k1 < k2 < tl.snapshots@.len() ==> tl.snapshots@[k1].ts < tl.snapshots@[k2].ts
            &&& forall|y: i64|
                is_snapshot_time(trades@, y) <==> exists|k: int|
                    0 <= k < tl.snapshots@.len() && (#[trigger] tl.snapshots@[k]).ts == y
        },
{
    let times = snapshot_times(trades);
    if times.len() == 0 {
        assert forall|y: i64| !is_snapshot_time(trades@, y) by {
            assert(!times@.contains(y));
        }
        return Ok(None);
    }
    assert(times@.contains(times@[0]));
    let mut snaps: Vec<BprSnapshot> = Vec::new();
    let mut k: usize = 0;
    while k < times.len()
        invariant
            k <= times@.len(),
            trades_wf(trades@),
            strictly_increasing(times@),
            forall|y: i64| #[trigger] times@.contains(y) <==> is_snapshot_time(trades@, y),
            snaps@.len() == k,
            forall|j: int| 0 <= j < k ==> (#[trigger] snaps@[j]).ts == times@[j],
            forall|j: int| 0 <= j < k ==> Some(#[trigger] snaps@[j]) == portfolio_at(trades@, times@[j]),
        decreases times@.len() - k,
    {
        match portfolio_snapshot_at(trades, times[k]) {
            Some(s) => {
                snaps.push(s);
            },
            None => {
                assert(times@.contains(times@[k as int]));
                assert(is_snapshot_time(trades@, times@[k as int]));
                return Err(AmountOverflow);
            },
        }
        k = k + 1;
    }
    let tl = BprTimeline { snapshots: snaps };
    assert forall|y: i64|
        is_snapshot_time(trades@, y) <==> exists|k: int|
            0 <= k < tl.snapshots@.len() && (#[trigger] tl.snapshots@[k]).ts == y by {
        if is_snapshot_time(trades@, y) {
            assert(times@.contains(y));
            let k = choose|k: int| 0 <= k < times@.len() && times@[k] == y;
            assert(tl.snapshots@[k].ts == y);
        }
        if exists|k: int| 0 <= k < tl.snapshots@.len() && (#[trigger] tl.snapshots@[k]).ts == y {
            let k = choose|k: int| 0 <= k < tl.snapshots@.len() && (#[trigger] tl.snapshots@[k]).ts == y;
            assert(times@[k] == y);
            assert(times@.contains(y));
        }
    }
    assert forall|y: i64| is_snapshot_time(trades@, y) implies portfolio_at(trades@, y) is Some by {
        assert(times@.contains(y));
        let k = choose|k: int| 0 <= k < times@.len() && times@[k] == y;
        assert(Some(tl.snapshots@[k]) == portfolio_at(trades@, times@[k]));
    }
    assert forall|k: int| 0 <= k < tl.snapshots@.len() implies {
        let snap = #[trigger] tl.snapshots@[k];
        let open = open_snapshots(trades@, snap.ts);
        &&& field_total(open, BprField::OptionInitial) == Some(snap.option_initial)
        &&& field_total(open, BprField::OptionMaint) == Some(snap.option_maint)
        &&& field_total(open, BprField::HedgeInitial) == Some(snap.hedge_initial)
        &&& field_total(open, BprField::HedgeMaint) == Some(snap.hedge_maint)
    } by {
        lemma_portfolio_sums_each_field(trades@, tl.snapshots@[k].ts);
    }
    assert(is_snapshot_time(trades@, times@[0]));
    Ok(Some(tl))
}

/// Every snapshot among the leading ones was taken at or before `ts`.
proof fn lemma_leading_prefix_at_or_before(snaps: Seq<BprSnapshot>, ts: i64, j: int)
    requires
        0 <= j < leading_at_or_before(snaps, ts),
    ensures
        snaps[j].ts <= ts,
    decreases j,
{
    lemma_leading_bounded(snaps, ts);
    if j > 0 {
        lemma_leading_prefix_at_or_before(snaps.drop_first(), ts, j - 1);
        assert(snaps.drop_first()[j - 1] == snaps[j]);
    }
}

/// Hedges count additively: the shares held from two lists of hedges together are the
/// shares from each list, added.
pub proof fn lemma_shares_add_up(a: Seq<HedgeAction>, b: Seq<HedgeAction>, ts: i64)
    ensures
        shares_at(a + b, ts) == shares_at(a, ts) + shares_at(b, ts),
    decreases b.len(),
{
    if b.len() > 0 {
        assert((a + b).drop_last() =~= a + b.drop_last());
        assert((a + b).last() == b.last());
        lemma_shares_add_up(a, b.drop_last(), ts);
    } else {
        assert(a + b =~= a);
    }
}

/// The shares held do not depend on the order the hedges are listed in.
pub proof fn lemma_shares_order_free(a: Seq<HedgeAction>, b: Seq<HedgeAction>, ts: i64)
    ensures
        shares_at(a + b, ts) == shares_at(b + a, ts),
{
    lemma_shares_add_up(a, b, ts);
    lemma_shares_add_up(b, a, ts);
}

/// A single hedge counts at and after its own time, and not before it.
pub proof fn lemma_single_hedge(h: HedgeAction, ts: i64)
    ensures
        shares_at(seq![h], ts) == (if h.timestamp <= ts { h.shares as int } else { 0 }),
{
    assert(seq![h].drop_last() =~= Seq::<HedgeAction>::empty());
    assert(shares_at(Seq::<HedgeAction>::empty(), ts) == 0);
    assert(seq![h].last() == h);
}

/// A trade that is not open at `ts` (entered after it or closed before it), or that has no
/// timeline, adds nothing to the portfolio at `ts`.
pub proof fn lemma_closed_trade_adds_nothing(trades: Seq<TradeBpr>, t: TradeBpr, ts: i64)
    requires
        ts < t.entry_time || ts > t.exit_time || t.timeline is None,
    ensures
        portfolio_at(trades.push(t), ts) == portfolio_at(trades, ts),
        open_snapshots(trades.push(t), ts) == open_snapshots(trades, ts),
{
    assert(trades.push(t).drop_last() =~= trades);
}

/// An open trade adds its latest snapshot taken at or before `ts`, and a snapshot taken
/// after `ts` is never read.
pub proof fn lemma_open_trade_adds_latest(trades: Seq<TradeBpr>, t: TradeBpr, ts: i64)
    requires
        t.entry_time <= ts <= t.exit_time,
        t.timeline is Some,
    ensures
        open_snapshots(trades.push(t), ts) == (match latest_at_or_before(t.timeline->0.snapshots@, ts) {
            None => open_snapshots(trades, ts),
            Some(snap) => open_snapshots(trades, ts).push(snap),
        }),
        latest_at_or_before(t.timeline->0.snapshots@, ts) matches Some(snap) ==> snap.ts <= ts,
{
    assert(trades.push(t).drop_last() =~= trades);
    let snaps = t.timeline->0.snapshots@;
    lemma_leading_bounded(snaps, ts);
    let n = leading_at_or_before(snaps, ts);
    if n > 0 {
        lemma_leading_prefix_at_or_before(snaps, ts, n - 1);
    }
}

} // verus!
