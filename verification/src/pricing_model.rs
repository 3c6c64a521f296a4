//! Choice of the volatility-interpolation model used when pricing.

use vstd::prelude::*;
use crate::text::{text_eq, normalize_key, dashes_to_underscores, unicode_lowercase, ascii_lowercase};
use vstd::utf8::is_ascii_chars;

verus! {

/// How implied volatility is looked up for strikes and expirations without a quote.
#[derive(Debug, Clone, Copy, PartialEq, Eq, Structural)]
pub enum PricingModel {
    /// IV indexed by absolute strike.
    StickyStrike,
    /// IV indexed by strike over spot.
    StickyMoneyness,
    /// IV indexed by Black-Scholes delta.
    StickyDelta,
}

/// The model that a normalised key names; anything unknown is sticky strike.
pub open spec fn pricing_model_for_key(k: Seq<char>) -> PricingModel {
    if k == "sticky_moneyness"@ || k == "moneyness"@ {
        PricingModel::StickyMoneyness
    } else if k == "sticky_delta"@ || k == "delta"@ {
        PricingModel::StickyDelta
    } else {
        PricingModel::StickyStrike
    }
}

impl Default for PricingModel {
    /// The default model: sticky strike.
    fn default() -> (r: Self)
        ensures
            r == PricingModel::StickyStrike,
    {
        PricingModel::StickyStrike
    }
}

impl PricingModel {
    /// The model's configuration name.
    pub open spec fn spec_name(self) -> Seq<char> {
        match self {
            PricingModel::StickyStrike => "sticky_strike"@,
            PricingModel::StickyMoneyness => "sticky_moneyness"@,
            PricingModel::StickyDelta => "sticky_delta"@,
        }
    }


    /// Reads a model from a key that is already lower case with `_` separators.
    pub fn from_normalized(key: &str) -> (r: Self)
        ensures
            r == pricing_model_for_key(key@),
    {
        if text_eq(key, "sticky_moneyness") || text_eq(key, "moneyness") {
            PricingModel::StickyMoneyness
        } else if text_eq(key, "sticky_delta") || text_eq(key, "delta") {
            PricingModel::StickyDelta
        } else {
            PricingModel::StickyStrike
        }
    }

    /// Reads a model from free text: case is ignored and `-` counts as `_`.
    pub fn from_string(s: &str) -> (r: Self)
        ensures
            r == pricing_model_for_key(dashes_to_underscores(unicode_lowercase(s@))),
            is_ascii_chars(s@) ==> r == pricing_model_for_key(dashes_to_underscores(ascii_lowercase(s@))),
    {
        let key = normalize_key(s);
        Self::from_normalized(key.as_str())
    }

    /// The model's configuration name, as shown to users.
    pub fn name(&self) -> (r: &'static str)
        ensures
            r@ == self.spec_name(),
    {
        match self {
            PricingModel::StickyStrike => "sticky_strike",
            PricingModel::StickyMoneyness => "sticky_moneyness",
            PricingModel::StickyDelta => "sticky_delta",
        }
    }
}

/// Reading a model's own name gives the model back, whatever case or dashes the reader applies.
pub proof fn lemma_pricing_model_name_roundtrip(m: PricingModel)
    ensures
        is_ascii_chars(m.spec_name()),
        pricing_model_for_key(dashes_to_underscores(ascii_lowercase(m.spec_name()))) == m,
{
    reveal_strlit("sticky_strike");
    reveal_strlit("sticky_moneyness");
    reveal_strlit("sticky_delta");
    reveal_strlit("moneyness");
    reveal_strlit("delta");
    let s = m.spec_name();
    assert(dashes_to_underscores(ascii_lowercase(s)) =~= s);
}

} // verus!
