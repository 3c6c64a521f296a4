//! A reduced backtest configuration with three spread types.

use vstd::prelude::*;
use crate::text::{text_eq, normalize_key, dashes_to_underscores, unicode_lowercase, ascii_lowercase};
use vstd::utf8::is_ascii_chars;

verus! {

/// Trade structure: what to trade.
#[derive(Debug, Clone, Copy, PartialEq, Eq, Structural)]
pub enum SpreadType {
    Calendar,
    IronButterfly,
    Straddle,
}

/// The spread type that a normalised key names; anything unknown is a calendar.
pub open spec fn spread_type_for_key(k: Seq<char>) -> SpreadType {
    if k == "iron_butterfly"@ || k == "ironbutterfly"@ || k == "butterfly"@ {
        SpreadType::IronButterfly
    } else if k == "straddle"@ || k == "long_straddle"@ {
        SpreadType::Straddle
    } else {
        SpreadType::Calendar
    }
}

impl Default for SpreadType {
    /// The default spread type: a calendar.
    fn default() -> (r: Self)
        ensures
            r == SpreadType::Calendar,
    {
        SpreadType::Calendar
    }
}

impl SpreadType {
    /// The name a configuration file gives the spread type.
    pub open spec fn spec_config_name(self) -> Seq<char> {
        match self {
            SpreadType::Calendar => "calendar"@,
            SpreadType::IronButterfly => "iron_butterfly"@,
            SpreadType::Straddle => "straddle"@,
        }
    }

    /// Reads a spread type from a key that is already lower case with `_` separators.
    pub fn from_normalized(key: &str) -> (r: Self)
        ensures
            r == spread_type_for_key(key@),
    {
        if text_eq(key, "iron_butterfly") || text_eq(key, "ironbutterfly") || text_eq(key, "butterfly") {
            SpreadType::IronButterfly
        } else if text_eq(key, "straddle") || text_eq(key, "long_straddle") {
            SpreadType::Straddle
        } else {
            SpreadType::Calendar
        }
    }

    /// Reads a spread type from free text: case is ignored and `-` counts as `_`.
    pub fn from_string(s: &str) -> (r: Self)
        ensures
            r == spread_type_for_key(dashes_to_underscores(unicode_lowercase(s@))),
            is_ascii_chars(s@) ==> r == spread_type_for_key(dashes_to_underscores(ascii_lowercase(s@))),
    {
        let key = normalize_key(s);
        Self::from_normalized(key.as_str())
    }

    /// The name a configuration file gives the spread type.
    pub fn config_name(&self) -> (r: &'static str)
        ensures
            r@ == self.spec_config_name(),
    {
        match self {
            SpreadType::Calendar => "calendar",
            SpreadType::IronButterfly => "iron_butterfly",
            SpreadType::Straddle => "straddle",
        }
    }
}

/// Strike selection method.
#[derive(Debug, Clone, Copy, PartialEq, Eq, Structural)]
pub enum SelectionType {
    ATM,
    /// Fixed target delta.
    Delta,
    /// Scan a delta range for the best opportunity.
    DeltaScan,
}

/// The selection type that a normalised key names; anything unknown is ATM.
pub open spec fn selection_type_for_key(k: Seq<char>) -> SelectionType {
    if k == "delta"@ {
        SelectionType::Delta
    } else if k == "delta_scan"@ || k == "deltascan"@ {
        SelectionType::DeltaScan
    } else {
        SelectionType::ATM
    }
}

impl Default for SelectionType {
    /// The default selection type: ATM.
    fn default() -> (r: Self)
        ensures
            r == SelectionType::ATM,
    {
        SelectionType::ATM
    }
}

impl SelectionType {
    /// The name a configuration file gives the selection type.
    pub open spec fn spec_config_name(self) -> Seq<char> {
        match self {
            SelectionType::ATM => "atm"@,
            SelectionType::Delta => "delta"@,
            SelectionType::DeltaScan => "delta_scan"@,
        }
    }

    /// Reads a selection type from a key that is already lower case with `_` separators.
    pub fn from_normalized(key: &str) -> (r: Self)
        ensures
            r == selection_type_for_key(key@),
    {
        if text_eq(key, "delta") {
            SelectionType::Delta
        } else if text_eq(key, "delta_scan") || text_eq(key, "deltascan") {
            SelectionType::DeltaScan
        } else {
            SelectionType::ATM
        }
    }

    /// Reads a selection type from free text: case is ignored and `-` counts as `_`.
    pub fn from_string(s: &str) -> (r: Self)
        ensures
            r == selection_type_for_key(dashes_to_underscores(unicode_lowercase(s@))),
            is_ascii_chars(s@) ==> r == selection_type_for_key(dashes_to_underscores(ascii_lowercase(s@))),
    {
        let key = normalize_key(s);
        Self::from_normalized(key.as_str())
    }

    /// The name a configuration file gives the selection type.
    pub fn config_name(&self) -> (r: &'static str)
        ensures
            r@ == self.spec_config_name(),
    {
        match self {
            SelectionType::ATM => "atm",
            SelectionType::Delta => "delta",
            SelectionType::DeltaScan => "delta_scan",
        }
    }
}

/// Default number of trading days before earnings to enter a straddle.
pub fn default_straddle_entry_days() -> (r: usize)
    ensures
        r == 5,
{
    5
}

/// Default number of trading days before earnings to exit a straddle.
pub fn default_straddle_exit_days() -> (r: usize)
    ensures
        r == 1,
{
    1
}

/// Default number of steps of a delta scan.
pub fn default_delta_scan_steps() -> (r: usize)
    ensures
        r == 5,
{
    5
}

/// Default minimum number of days from entry to expiration of a straddle.
pub fn default_min_straddle_dte() -> (r: i32)
    ensures
        r == 7,
{
    7
}

/// Reading a spread type's configuration name gives the spread type back.
pub proof fn lemma_spread_type_name_roundtrip(t: SpreadType)
    ensures
        is_ascii_chars(t.spec_config_name()),
        spread_type_for_key(dashes_to_underscores(ascii_lowercase(t.spec_config_name()))) == t,
{
    reveal_strlit("calendar");
    reveal_strlit("iron_butterfly");
    reveal_strlit("ironbutterfly");
    reveal_strlit("butterfly");
    reveal_strlit("straddle");
    reveal_strlit("long_straddle");
    let k = dashes_to_underscores(ascii_lowercase(t.spec_config_name()));
    match t {
        SpreadType::Calendar => {
            assert(k =~= "calendar"@);
            assert(k[0] != "straddle"@[0]);
        },
        SpreadType::IronButterfly => {
            assert(k =~= "iron_butterfly"@);
        },
        SpreadType::Straddle => {
            assert(k =~= "straddle"@);
        },
    }
}

/// Reading a selection type's configuration name gives the selection type back.
pub proof fn lemma_selection_type_name_roundtrip(t: SelectionType)
    ensures
        is_ascii_chars(t.spec_config_name()),
        selection_type_for_key(dashes_to_underscores(ascii_lowercase(t.spec_config_name()))) == t,
{
    reveal_strlit("atm");
    reveal_strlit("delta");
    reveal_strlit("delta_scan");
    reveal_strlit("deltascan");
    let k = dashes_to_underscores(ascii_lowercase(t.spec_config_name()));
    match t {
        SelectionType::ATM => {
            assert(k =~= "atm"@);
        },
        SelectionType::Delta => {
            assert(k =~= "delta"@);
        },
        SelectionType::DeltaScan => {
            assert(k =~= "delta_scan"@);
        },
    }
}

} // verus!
