//! Interpolation mode of a single-expiry volatility slice.

use vstd::prelude::*;
use crate::text::{text_eq, to_lowercase, unicode_lowercase, ascii_lowercase};
use vstd::utf8::is_ascii_chars;

verus! {

/// How a volatility slice interpolates between quoted deltas.
#[derive(Debug, Clone, Copy, PartialEq, Eq, Structural)]
pub enum InterpolationMode {
    /// Linear interpolation in delta space.
    Linear,
    /// Parametric SVI fit.
    SVI,
}

/// The mode that a lower-case key names; anything but `svi` is linear.
pub open spec fn interpolation_mode_for_key(k: Seq<char>) -> InterpolationMode {
    if k == "svi"@ {
        InterpolationMode::SVI
    } else {
        InterpolationMode::Linear
    }
}

impl Default for InterpolationMode {
    /// The default mode: linear.
    fn default() -> (r: Self)
        ensures
            r == InterpolationMode::Linear,
    {
        InterpolationMode::Linear
    }
}

impl InterpolationMode {

    /// Reads a mode from a lower-case key.
    pub fn from_lowercase_key(key: &str) -> (r: Self)
        ensures
            r == interpolation_mode_for_key(key@),
    {
        if text_eq(key, "svi") {
            InterpolationMode::SVI
        } else {
            InterpolationMode::Linear
        }
    }

    /// Reads a mode from free text, ignoring case.
    pub fn from_string(s: &str) -> (r: Self)
        ensures
            r == interpolation_mode_for_key(unicode_lowercase(s@)),
            is_ascii_chars(s@) ==> r == interpolation_mode_for_key(ascii_lowercase(s@)),
    {
        let key = to_lowercase(s);
        Self::from_lowercase_key(key.as_str())
    }

    /// The mode's configuration name.
    pub open spec fn spec_name(self) -> Seq<char> {
        match self {
            InterpolationMode::Linear => "linear"@,
            InterpolationMode::SVI => "svi"@,
        }
    }

    /// The mode's configuration name.
    pub fn name(&self) -> (r: &'static str)
        ensures
            r@ == self.spec_name(),
    {
        match self {
            InterpolationMode::Linear => "linear",
            InterpolationMode::SVI => "svi",
        }
    }
}

/// Reading a mode's own name gives the mode back.
pub proof fn lemma_interpolation_name_roundtrip(m: InterpolationMode)
    ensures
        is_ascii_chars(m.spec_name()),
        interpolation_mode_for_key(ascii_lowercase(m.spec_name())) == m,
{
    reveal_strlit("linear");
    reveal_strlit("svi");
    assert(ascii_lowercase(m.spec_name()) =~= m.spec_name());
}

} // verus!
