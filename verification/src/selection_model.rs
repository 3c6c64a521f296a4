//! Choice of how implied volatilities of two expirations are compared when selecting trades.

use vstd::prelude::*;
use crate::text::{text_eq, to_lowercase, unicode_lowercase, ascii_lowercase};
use vstd::utf8::is_ascii_chars;

verus! {

/// How the short- and long-expiration IVs are compared.
#[derive(Debug, Clone, Copy, PartialEq, Eq, Structural)]
pub enum SelectionModel {
    /// Compare IVs at the strike that the target delta maps to in the short expiration.
    StrikeSpace,
    /// Compare IVs at the same delta in both expirations.
    DeltaSpace,
}

/// The model that a lower-case key names, if any.
pub open spec fn selection_model_for_key(k: Seq<char>) -> Option<SelectionModel> {
    if k == "strike-space"@ || k == "strike"@ {
        Some(SelectionModel::StrikeSpace)
    } else if k == "delta-space"@ || k == "delta"@ {
        Some(SelectionModel::DeltaSpace)
    } else {
        None
    }
}

/// Compares IVs at one strike for both expirations.
#[derive(Debug, Clone, Copy)]
pub struct StrikeSpaceSelection;

/// Compares IVs at one delta for both expirations.
#[derive(Debug, Clone, Copy)]
pub struct DeltaSpaceSelection;

impl Default for SelectionModel {
    /// The default model: strike space.
    fn default() -> (r: Self)
        ensures
            r == SelectionModel::StrikeSpace,
    {
        SelectionModel::StrikeSpace
    }
}

impl SelectionModel {
    /// Reads a model from a lower-case key.
    pub fn from_lowercase_key(key: &str) -> (r: Option<Self>)
        ensures
            r == selection_model_for_key(key@),
    {
        if text_eq(key, "strike-space") || text_eq(key, "strike") {
            Some(SelectionModel::StrikeSpace)
        } else if text_eq(key, "delta-space") || text_eq(key, "delta") {
            Some(SelectionModel::DeltaSpace)
        } else {
            None
        }
    }

    /// Reads a model from command-line text, ignoring case; `None` for an unknown name.
    pub fn from_str(s: &str) -> (r: Option<Self>)
        ensures
            r == selection_model_for_key(unicode_lowercase(s@)),
            is_ascii_chars(s@) ==> r == selection_model_for_key(ascii_lowercase(s@)),
    {
        let key = to_lowercase(s);
        Self::from_lowercase_key(key.as_str())
    }
}

} // verus!
