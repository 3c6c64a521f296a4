//! Attribution of a trade's P&L to its Greeks, in exact decimal amounts.
//!
//! The Greek components come in already converted to decimals; the library adds them up
//! and assigns what they leave of the total to the unexplained part.

use vstd::prelude::*;
use crate::money::{Money, checked_add, checked_sub, spec_add, spec_sub};

verus! {

/// A trade's P&L broken down by Greek.
#[derive(Debug, Clone, Copy, PartialEq, Eq, Structural)]
pub struct PnLAttribution {
    pub total: Money,
    pub delta: Money,
    pub gamma: Money,
    pub theta: Money,
    pub vega: Money,
    /// What the Greeks leave of the total.
    pub unexplained: Money,
}

/// The P&L the Greeks explain: `delta + gamma + theta + vega`, added from the left.
pub open spec fn spec_explained(delta: Money, gamma: Money, theta: Money, vega: Money) -> Option<Money> {
    match spec_add(delta, gamma) {
        Some(dg) => match spec_add(dg, theta) {
            Some(dgt) => spec_add(dgt, vega),
            None => None,
        },
        None => None,
    }
}

/// The attribution of `total` to the given components, or `None` when a sum or the
/// difference overflows.
pub open spec fn spec_attribution(total: Money, delta: Money, gamma: Money, theta: Money, vega: Money) -> Option<
    PnLAttribution,
> {
    match spec_explained(delta, gamma, theta, vega) {
        Some(explained) => match spec_sub(total, explained) {
            Some(unexplained) => Some(PnLAttribution { total, delta, gamma, theta, vega, unexplained }),
            None => None,
        },
        None => None,
    }
}

/// Attributes `total` to the delta, gamma, theta and vega P&L: the unexplained part is the
/// total minus their sum. `None` when the sum or the difference overflows.
pub fn attribute_pnl(total: Money, delta: Money, gamma: Money, theta: Money, vega: Money) -> (r: Option<
    PnLAttribution,
>)
    requires
        total.wf(),
        delta.wf(),
        gamma.wf(),
        theta.wf(),
        vega.wf(),
    ensures
        r == spec_attribution(total, delta, gamma, theta, vega),
{
    let dg = match checked_add(delta, gamma) {
        Some(v) => v,
        None => return None,
    };
    let dgt = match checked_add(dg, theta) {
        Some(v) => v,
        None => return None,
    };
    let explained = match checked_add(dgt, vega) {
        Some(v) => v,
        None => return None,
    };
    match checked_sub(total, explained) {
        Some(unexplained) => Some(PnLAttribution { total, delta, gamma, theta, vega, unexplained }),
        None => None,
    }
}

/// Attributes a two-leg spread's `total`: its vega P&L is the short leg's plus the long
/// leg's, each already signed for the side held. `None` when a sum or the difference
/// overflows.
pub fn attribute_spread_pnl(
    total: Money,
    delta: Money,
    gamma: Money,
    theta: Money,
    short_vega: Money,
    long_vega: Money,
) -> (r: Option<PnLAttribution>)
    requires
        total.wf(),
        delta.wf(),
        gamma.wf(),
        theta.wf(),
        short_vega.wf(),
        long_vega.wf(),
    ensures
        r == (match spec_add(short_vega, long_vega) {
            Some(vega) => spec_attribution(total, delta, gamma, theta, vega),
            None => None,
        }),
        r matches Some(a) ==> spec_add(short_vega, long_vega) == Some(a.vega),
{
    match checked_add(short_vega, long_vega) {
        Some(vega) => attribute_pnl(total, delta, gamma, theta, vega),
        None => None,
    }
}

/// An attribution keeps the total and the four components it was given, and its
/// unexplained part is the total minus the components' sum (delta, then gamma, then theta,
/// then vega added), so it is never the other way round nor missing a component.
pub proof fn lemma_attribution_reads_components(total: Money, delta: Money, gamma: Money, theta: Money, vega: Money)
    ensures
        spec_attribution(total, delta, gamma, theta, vega) matches Some(a) ==> {
            &&& a.total == total && a.delta == delta && a.gamma == gamma && a.theta == theta && a.vega == vega
            &&& spec_add(delta, gamma) matches Some(dg)
            &&& spec_add(dg, theta) matches Some(dgt)
            &&& spec_add(dgt, vega) matches Some(explained)
            &&& spec_sub(total, explained) == Some(a.unexplained)
        },
        spec_attribution(total, delta, gamma, theta, vega) is None <==> match spec_add(delta, gamma) {
            None => true,
            Some(dg) => match spec_add(dg, theta) {
                None => true,
                Some(dgt) => match spec_add(dgt, vega) {
                    None => true,
                    Some(explained) => spec_sub(total, explained) is None,
                },
            },
        },
{
}

} // verus!
