//! Which trading days of a lookback window are sampled when implied volatilities are
//! averaged over it: at most about ten, evenly spaced from the first.

use vstd::prelude::*;

verus! {

/// Most days sampled from a window, before spacing rounds.
pub const MAX_SAMPLED_DAYS: usize = 10;

/// Spacing between sampled days of a window of `n` trading days: every day when there
/// are at most ten, else every `n / 10`-th day.
pub open spec fn sample_step(n: nat) -> nat {
    if n > MAX_SAMPLED_DAYS {
        n / (MAX_SAMPLED_DAYS as nat)
    } else {
        1
    }
}

/// Whether day `i` of a window of `n` trading days is sampled.
pub open spec fn is_sampled(i: nat, n: nat) -> bool {
    i < n && i % sample_step(n) == 0
}

/// Positions, in the window, of the sampled trading days: those whose position is a
/// multiple of the spacing, in increasing order; `None` for a window without trading
/// days.
pub fn sample_lookback_days(n: usize) -> (r: Option<Vec<usize>>)
    ensures
        r is None <==> n == 0,
        r matches Some(v) ==> {
            &&& forall|a: int, b: int| 0 <= a < b < v@.len() ==> v@[a] < v@[b]
            &&& forall|i: usize| #[trigger] v@.contains(i) <==> is_sampled(i as nat, n as nat)
        },
{
    if n == 0 {
        return None;
    }
    let sample_size: usize = if n < MAX_SAMPLED_DAYS { n } else { MAX_SAMPLED_DAYS };
    let step: usize = if n > sample_size { n / sample_size } else { 1 };
    assert(step as nat == sample_step(n as nat));
    assert(step >= 1) by (nonlinear_arith)
        requires
            n > 0,
            sample_size > 0,
            step == (if n > sample_size { n / sample_size } else { 1 }),
    ;
    let mut out: Vec<usize> = Vec::new();
    let mut idx: usize = 0;
    while idx < n
        invariant
            idx <= n,
            step >= 1,
            step as nat == sample_step(n as nat),
            forall|a: int, b: int| 0 <= a < b < out@.len() ==> out@[a] < out@[b],
            forall|a: int| 0 <= a < out@.len() ==> out@[a] < idx,
            forall|i: usize| #[trigger] out@.contains(i) <==> (i < idx && is_sampled(i as nat, n as nat)),
        decreases n - idx,
    {
        let ghost old_out = out@;
        if idx % step == 0 {
            out.push(idx);
            assert forall|i: usize| #[trigger] out@.contains(i) <==> (i < idx + 1 && is_sampled(
                i as nat,
                n as nat,
            )) by {
                if out@.contains(i) && i != idx {
                    let k = choose|k: int| 0 <= k < out@.len() && out@[k] == i;
                    assert(k < old_out.len());
                    assert(old_out.contains(i));
                }
                if i < idx + 1 && is_sampled(i as nat, n as nat) && i != idx {
                    assert(old_out.contains(i));
                    let k = choose|k: int| 0 <= k < old_out.len() && old_out[k] == i;
                    assert(out@[k] == i);
                }
                if i == idx {
                    assert(out@[out@.len() - 1] == idx);
                }
            }
        }
        idx = idx + 1;
    }
    Some(out)
}

} // verus!
