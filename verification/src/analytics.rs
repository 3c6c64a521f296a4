//! Small types of the options analytics: ATM strike methods, pricing and selection
//! providers, straddle expiration choice, and analytics errors.

use vstd::prelude::*;
use vstd::string::*;
use crate::dates::{CalendarDay, closest_expiration_to_target, nearest_straddle_expiration, near_target, target_distance, straddle_key, days_between};

verus! {

/// How the ATM strike is picked from a chain.
#[derive(Debug, Clone, Copy, PartialEq, Eq, Structural)]
pub enum AtmMethod {
    /// The strike closest to spot.
    Closest,
    /// The highest strike at or below spot.
    BelowSpot,
    /// The lowest strike at or above spot.
    AboveSpot,
}

impl Default for AtmMethod {
    /// The default method: closest to spot.
    fn default() -> (r: Self)
        ensures
            r == AtmMethod::Closest,
    {
        AtmMethod::Closest
    }
}

/// Sticky strike pricing: IV indexed by absolute strike.
#[derive(Debug, Clone, Copy, Default)]
pub struct StickyStrikePricing;

impl StickyStrikePricing {
    /// The provider's name.
    pub fn name(&self) -> (r: &'static str)
        ensures
            r@ == "sticky_strike"@,
    {
        "sticky_strike"
    }
}

/// Sticky moneyness pricing: IV indexed by strike over spot.
#[derive(Debug, Clone, Copy, Default)]
pub struct StickyMoneynessPricing;

impl StickyMoneynessPricing {
    /// The provider's name.
    pub fn name(&self) -> (r: &'static str)
        ensures
            r@ == "sticky_moneyness"@,
    {
        "sticky_moneyness"
    }
}

/// Computes ATM straddle prices from option chains.
pub struct StraddlePriceComputer;

impl StraddlePriceComputer {
    /// Position of the expiration a straddle is priced at: among those with at least
    /// `min_dte` days to expiry, the first one closest to `target_dte`, or the nearest one
    /// when there is no target.
    pub fn select_expiration(
        expirations: &[CalendarDay],
        pricing_date: CalendarDay,
        target_dte: Option<i64>,
        min_dte: i64,
    ) -> (r: Option<usize>)
        ensures
            r is None <==> forall|i: int|
                0 <= i < expirations@.len() ==> days_between(pricing_date, #[trigger] expirations@[i]) < min_dte,
            r matches Some(k) ==> {
                &&& k < expirations@.len()
                &&& days_between(pricing_date, expirations@[k as int]) >= min_dte
                &&& forall|i: int|
                    0 <= i < expirations@.len() && days_between(pricing_date, #[trigger] expirations@[i]) >= min_dte
                        ==> straddle_key(expirations@[k as int], pricing_date, target_dte)
                        <= straddle_key(expirations@[i], pricing_date, target_dte)
                        && (i < k ==> straddle_key(expirations@[k as int], pricing_date, target_dte)
                        < straddle_key(expirations@[i], pricing_date, target_dte))
            },
    {
        nearest_straddle_expiration(expirations, pricing_date, target_dte, min_dte)
    }

    /// Position of the expiration a straddle for a target DTE is priced at: the first one,
    /// still open, whose days to expiry are closest to the target within the tolerance.
    pub fn select_expiration_for_dte(
        expirations: &[CalendarDay],
        pricing_date: CalendarDay,
        target_dte: i64,
        dte_tolerance: i64,
    ) -> (r: Option<usize>)
        ensures
            r is None <==> forall|i: int|
                0 <= i < expirations@.len() ==> !near_target(
                    #[trigger] expirations@[i],
                    pricing_date,
                    target_dte as int,
                    dte_tolerance as int,
                ),
            r matches Some(k) ==> {
                &&& k < expirations@.len()
                &&& near_target(expirations@[k as int], pricing_date, target_dte as int, dte_tolerance as int)
                &&& forall|i: int|
                    0 <= i < expirations@.len() && near_target(
                        #[trigger] expirations@[i],
                        pricing_date,
                        target_dte as int,
                        dte_tolerance as int,
                    ) ==> target_distance(expirations@[k as int], pricing_date, target_dte as int)
                        <= target_distance(expirations@[i], pricing_date, target_dte as int)
            },
    {
        closest_expiration_to_target(expirations, pricing_date, target_dte, dte_tolerance)
    }
}

/// The decimal digits of a natural number.
pub open spec fn decimal_text(n: nat) -> Seq<char>
    decreases n,
{
    if n < 10 {
        seq![((n + 48) as u32) as char]
    } else {
        decimal_text(n / 10).push((((n % 10) + 48) as u32) as char)
    }
}

/// Calls `ToString::to_string` on a `usize`.
/// Claimed of it: it writes the number's decimal digits, without sign or padding.
#[verifier::external_body]
pub fn count_text(n: usize) -> (r: String)
    ensures
        r@ == decimal_text(n as nat),
{
    n.to_string()
}

/// Errors of Black-Scholes computations.
#[derive(Debug, Clone)]
pub enum BSError {
    InvalidInput(String),
    ConvergenceFailure,
}

impl BSError {
    /// The error's message.
    pub fn message(&self) -> (r: String)
        ensures
            r@ == (match self {
                BSError::InvalidInput(s) => "Invalid input: "@ + s@,
                BSError::ConvergenceFailure => "IV solver failed to converge"@,
            }),
    {
        match self {
            BSError::InvalidInput(s) => {
                let mut m = "Invalid input: ".to_owned();
                m.append(s.as_str());
                m
            },
            BSError::ConvergenceFailure => "IV solver failed to converge".to_owned(),
        }
    }
}

/// Errors of SVI fitting.
#[derive(Debug, Clone)]
pub enum SVIError {
    InsufficientData(usize),
    ConstraintViolation(String),
    OptimizationFailed(String),
    InvalidParams(String),
}

impl SVIError {
    /// The error's message.
    pub fn message(&self) -> (r: String)
        ensures
            r@ == (match self {
                SVIError::InsufficientData(n) => "Insufficient data points: need at least 5, got "@
                    + decimal_text(*n as nat),
                SVIError::ConstraintViolation(s) => "Constraint violation: "@ + s@,
                SVIError::OptimizationFailed(s) => "Optimization failed: "@ + s@,
                SVIError::InvalidParams(s) => "Invalid parameters: "@ + s@,
            }),
    {
        match self {
            SVIError::InsufficientData(n) => {
                let mut m = "Insufficient data points: need at least 5, got ".to_owned();
                let digits = count_text(*n);
                m.append(digits.as_str());
                m
            },
            SVIError::ConstraintViolation(s) => {
                let mut m = "Constraint violation: ".to_owned();
                m.append(s.as_str());
                m
            },
            SVIError::OptimizationFailed(s) => {
                let mut m = "Optimization failed: ".to_owned();
                m.append(s.as_str());
                m
            },
            SVIError::InvalidParams(s) => {
                let mut m = "Invalid parameters: ".to_owned();
                m.append(s.as_str());
                m
            },
        }
    }
}

/// Prices any composite trade by delegating each leg to an inner pricer.
pub struct CompositePricer<P> {
    inner: P,
}

impl<P> CompositePricer<P> {
    /// The pricer kept inside.
    pub closed spec fn spec_inner(&self) -> P {
        self.inner
    }

    /// A pricer wrapping `inner`.
    pub fn new(inner: P) -> (r: Self)
        ensures
            r.spec_inner() == inner,
    {
        CompositePricer { inner }
    }

    /// The wrapped pricer, for advanced use.
    pub fn inner(&self) -> (r: &P)
        ensures
            *r == self.spec_inner(),
    {
        &self.inner
    }
}

/// Campaign options that are on unless a configuration turns them off.
pub fn default_true() -> (r: bool)
    ensures
        r,
{
    true
}

} // verus!
