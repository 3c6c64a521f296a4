//! Exact decimal amounts, computed by rust_decimal.
//!
//! A [`Money`] is the pair `(mantissa, scale)` that rust_decimal stores: its value is
//! `mantissa / 10^scale`. Arithmetic goes through rust_decimal's checked operations.

use vstd::prelude::*;
use vstd::arithmetic::power::pow;

verus! {

/// Largest mantissa magnitude that rust_decimal can hold (2^96 - 1).
pub const MAX_MANTISSA: i128 = 79228162514264337593543950335;

/// Largest scale that rust_decimal accepts.
pub const MAX_SCALE: u32 = 28;

/// A decimal amount: `mantissa / 10^scale`.
#[derive(Debug, Clone, Copy, PartialEq, Eq, Structural)]
pub struct Money {
    pub mantissa: i128,
    pub scale: u32,
}

/// The four-part form of a rust_decimal result: `(mantissa, scale)`.
pub open spec fn money_of(parts: (i128, u32)) -> Money {
    Money { mantissa: parts.0, scale: parts.1 }
}

/// What `Decimal::checked_add` returns, as `(mantissa, scale)` pairs.
pub uninterp spec fn decimal_checked_add(a_mantissa: i128, a_scale: u32, b_mantissa: i128, b_scale: u32) -> Option<(i128, u32)>;

/// What `Decimal::checked_sub` returns, as `(mantissa, scale)` pairs.
pub uninterp spec fn decimal_checked_sub(a_mantissa: i128, a_scale: u32, b_mantissa: i128, b_scale: u32) -> Option<(i128, u32)>;

/// What `Decimal::checked_mul` returns, as `(mantissa, scale)` pairs.
pub uninterp spec fn decimal_checked_mul(a_mantissa: i128, a_scale: u32, b_mantissa: i128, b_scale: u32) -> Option<(i128, u32)>;

/// What `Decimal::checked_div` returns, as `(mantissa, scale)` pairs.
pub uninterp spec fn decimal_checked_div(a_mantissa: i128, a_scale: u32, b_mantissa: i128, b_scale: u32) -> Option<(i128, u32)>;

impl Money {
    /// Whether rust_decimal can hold this pair.
    pub open spec fn wf(self) -> bool {
        self.scale <= MAX_SCALE && -MAX_MANTISSA <= self.mantissa <= MAX_MANTISSA
    }

    /// The value times `10^28`, an integer for every well-formed amount.
    pub open spec fn scaled(self) -> int {
        self.mantissa * pow(10, (MAX_SCALE - self.scale) as nat)
    }

    /// Zero.
    pub open spec fn spec_zero() -> Money {
        Money { mantissa: 0, scale: 0 }
    }

    /// Zero, as `Decimal::ZERO` holds it.
    pub fn zero() -> (r: Money)
        ensures
            r == Money::spec_zero(),
            r.wf(),
    {
        Money { mantissa: 0, scale: 0 }
    }

    /// An amount from its mantissa and scale, when rust_decimal can hold them.
    pub fn from_parts(mantissa: i128, scale: u32) -> (r: Option<Money>)
        ensures
            r is Some <==> (Money { mantissa, scale }).wf(),
            r matches Some(m) ==> m == (Money { mantissa, scale }),
    {
        if scale <= MAX_SCALE && -MAX_MANTISSA <= mantissa && mantissa <= MAX_MANTISSA {
            Some(Money { mantissa, scale })
        } else {
            None
        }
    }

    /// A whole number of units, as `Decimal::from` makes it.
    pub fn from_count(n: usize) -> (r: Money)
        ensures
            r == (Money { mantissa: n as i128, scale: 0 }),
            r.wf(),
    {
        assert(n <= u64::MAX);
        Money { mantissa: n as i128, scale: 0 }
    }

    /// A whole number of units from a signed integer, as `Decimal::from` makes it.
    pub fn from_int(n: i64) -> (r: Money)
        ensures
            r == (Money { mantissa: n as i128, scale: 0 }),
            r.wf(),
    {
        Money { mantissa: n as i128, scale: 0 }
    }

    /// Whether the amount is zero.
    pub fn is_zero(&self) -> (r: bool)
        ensures
            r == (self.mantissa == 0),
    {
        self.mantissa == 0
    }

    /// The negated amount.
    pub fn neg(&self) -> (r: Money)
        requires
            self.wf(),
        ensures
            r.mantissa == -self.mantissa,
            r.scale == self.scale,
            r.wf(),
    {
        Money { mantissa: -self.mantissa, scale: self.scale }
    }

    /// The absolute amount.
    pub fn abs(&self) -> (r: Money)
        requires
            self.wf(),
        ensures
            r.mantissa == (if self.mantissa < 0 { -self.mantissa } else { self.mantissa as int }),
            r.scale == self.scale,
            r.wf(),
    {
        if self.mantissa < 0 {
            Money { mantissa: -self.mantissa, scale: self.scale }
        } else {
            *self
        }
    }
}

/// The magnitude of an amount.
pub open spec fn abs_money(m: Money) -> Money {
    if m.mantissa < 0 {
        Money { mantissa: (-m.mantissa) as i128, scale: m.scale }
    } else {
        m
    }
}

/// The checked sum, as a `Money`.
pub open spec fn spec_add(a: Money, b: Money) -> Option<Money> {
    match decimal_checked_add(a.mantissa, a.scale, b.mantissa, b.scale) {
        Some(p) => Some(money_of(p)),
        None => None,
    }
}

/// The checked difference, as a `Money`.
pub open spec fn spec_sub(a: Money, b: Money) -> Option<Money> {
    match decimal_checked_sub(a.mantissa, a.scale, b.mantissa, b.scale) {
        Some(p) => Some(money_of(p)),
        None => None,
    }
}

/// The checked product, as a `Money`.
pub open spec fn spec_mul(a: Money, b: Money) -> Option<Money> {
    match decimal_checked_mul(a.mantissa, a.scale, b.mantissa, b.scale) {
        Some(p) => Some(money_of(p)),
        None => None,
    }
}

/// The checked quotient, as a `Money`.
pub open spec fn spec_div(a: Money, b: Money) -> Option<Money> {
    match decimal_checked_div(a.mantissa, a.scale, b.mantissa, b.scale) {
        Some(p) => Some(money_of(p)),
        None => None,
    }
}

/// Calls `rust_decimal::Decimal::checked_add` on the two amounts.
/// Claimed of it: the result is the one `decimal_checked_add` names, and it is an amount
/// rust_decimal can hold.
#[verifier::external_body]
pub fn checked_add(a: Money, b: Money) -> (r: Option<Money>)
    requires
        a.wf(),
        b.wf(),
    ensures
        r == (match decimal_checked_add(a.mantissa, a.scale, b.mantissa, b.scale) {
            Some(p) => Some(money_of(p)),
            None => None,
        }),
        r matches Some(m) ==> m.wf(),
{
    let x = rust_decimal::Decimal::from_i128_with_scale(a.mantissa, a.scale);
    let y = rust_decimal::Decimal::from_i128_with_scale(b.mantissa, b.scale);
    match x.checked_add(y) {
        Some(z) => Some(Money { mantissa: z.mantissa(), scale: z.scale() }),
        None => None,
    }
}

/// Calls `rust_decimal::Decimal::checked_sub` on the two amounts.
/// Claimed of it: the result is the one `decimal_checked_sub` names, it is an amount
/// rust_decimal can hold, and an amount minus itself is zero.
#[verifier::external_body]
pub fn checked_sub(a: Money, b: Money) -> (r: Option<Money>)
    requires
        a.wf(),
        b.wf(),
    ensures
        r == (match decimal_checked_sub(a.mantissa, a.scale, b.mantissa, b.scale) {
            Some(p) => Some(money_of(p)),
            None => None,
        }),
        r matches Some(m) ==> m.wf(),
        a == b ==> (r is Some && r.unwrap().mantissa == 0),
{
    let x = rust_decimal::Decimal::from_i128_with_scale(a.mantissa, a.scale);
    let y = rust_decimal::Decimal::from_i128_with_scale(b.mantissa, b.scale);
    match x.checked_sub(y) {
        Some(z) => Some(Money { mantissa: z.mantissa(), scale: z.scale() }),
        None => None,
    }
}

/// Calls `rust_decimal::Decimal::checked_mul` on the two amounts.
/// Claimed of it: the result is the one `decimal_checked_mul` names, it is an amount
/// rust_decimal can hold, and a product with a zero factor is `Decimal::ZERO`.
#[verifier::external_body]
pub fn checked_mul(a: Money, b: Money) -> (r: Option<Money>)
    requires
        a.wf(),
        b.wf(),
    ensures
        r == (match decimal_checked_mul(a.mantissa, a.scale, b.mantissa, b.scale) {
            Some(p) => Some(money_of(p)),
            None => None,
        }),
        r matches Some(m) ==> m.wf(),
        a.mantissa == 0 || b.mantissa == 0 ==> r == Some(Money::spec_zero()),
{
    let x = rust_decimal::Decimal::from_i128_with_scale(a.mantissa, a.scale);
    let y = rust_decimal::Decimal::from_i128_with_scale(b.mantissa, b.scale);
    match x.checked_mul(y) {
        Some(z) => Some(Money { mantissa: z.mantissa(), scale: z.scale() }),
        None => None,
    }
}

/// Calls `rust_decimal::Decimal::checked_div` on the two amounts.
/// Claimed of it: the result is the one `decimal_checked_div` names, it is an amount
/// rust_decimal can hold, there is none for a zero divisor, and zero divided by any other
/// amount is `Decimal::ZERO`.
#[verifier::external_body]
pub fn checked_div(a: Money, b: Money) -> (r: Option<Money>)
    requires
        a.wf(),
        b.wf(),
    ensures
        r == (match decimal_checked_div(a.mantissa, a.scale, b.mantissa, b.scale) {
            Some(p) => Some(money_of(p)),
            None => None,
        }),
        r matches Some(m) ==> m.wf(),
        b.mantissa == 0 ==> r is None,
        b.mantissa != 0 && a.mantissa == 0 ==> r == Some(Money::spec_zero()),
{
    let x = rust_decimal::Decimal::from_i128_with_scale(a.mantissa, a.scale);
    let y = rust_decimal::Decimal::from_i128_with_scale(b.mantissa, b.scale);
    match x.checked_div(y) {
        Some(z) => Some(Money { mantissa: z.mantissa(), scale: z.scale() }),
        None => None,
    }
}

/// Calls `<` on the two amounts as rust_decimal values.
/// Claimed of it: it compares the values `mantissa / 10^scale`.
#[verifier::external_body]
pub fn less_than(a: Money, b: Money) -> (r: bool)
    requires
        a.wf(),
        b.wf(),
    ensures
        r == (a.scaled() < b.scaled()),
{
    let x = rust_decimal::Decimal::from_i128_with_scale(a.mantissa, a.scale);
    let y = rust_decimal::Decimal::from_i128_with_scale(b.mantissa, b.scale);
    x < y
}

/// The checked sum of a sequence of amounts, added from the first on, starting at zero.
pub open spec fn sum_of(s: Seq<Money>) -> Option<Money>
    decreases s.len(),
{
    if s.len() == 0 {
        Some(Money::spec_zero())
    } else {
        match sum_of(s.drop_last()) {
            Some(acc) => spec_add(acc, s.last()),
            None => None,
        }
    }
}

/// Whether every amount of a sequence is one rust_decimal can hold.
pub open spec fn all_wf(s: Seq<Money>) -> bool {
    forall|i: int| 0 <= i < s.len() ==> (#[trigger] s[i]).wf()
}

/// Adds up amounts the way `Iterator::sum` does for rust_decimal, reporting an overflow
/// as `None`.
pub fn sum_amounts(values: &Vec<Money>) -> (r: Option<Money>)
    requires
        all_wf(values@),
    ensures
        r == sum_of(values@),
        r matches Some(m) ==> m.wf(),
{
    let mut acc = Money::zero();
    let mut i: usize = 0;
    while i < values.len()
        invariant
            i <= values@.len(),
            all_wf(values@),
            acc.wf(),
            sum_of(values@.take(i as int)) == Some(acc),
        decreases values@.len() - i,
    {
        assert(values@.take(i as int + 1).drop_last() =~= values@.take(i as int));
        match checked_add(acc, values[i]) {
            Some(next) => {
                acc = next;
            },
            None => {
                proof {
                    lemma_sum_of_none_stays(values@, i as int + 1);
                }
                return None;
            },
        }
        i = i + 1;
    }
    assert(values@.take(values@.len() as int) =~= values@);
    Some(acc)
}

/// Once a prefix overflows, every longer prefix does.
pub proof fn lemma_sum_of_none_stays(s: Seq<Money>, n: int)
    requires
        0 <= n <= s.len(),
        sum_of(s.take(n)) is None,
    ensures
        sum_of(s) is None,
    decreases s.len() - n,
{
    if n < s.len() {
        assert(s.take(n + 1).drop_last() =~= s.take(n));
        lemma_sum_of_none_stays(s, n + 1);
    } else {
        assert(s.take(n) =~= s);
    }
}

} // verus!
