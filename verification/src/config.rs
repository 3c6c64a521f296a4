//! Backtest configuration: what to trade, how to select it, and when to hold it.

use vstd::prelude::*;
use crate::text::{text_eq, normalize_key, dashes_to_underscores, unicode_lowercase, ascii_lowercase};
use crate::clock::{time_from_hms, is_valid_hms, naive_time_of};
use vstd::utf8::is_ascii_chars;

verus! {

/// Trade structure: what to trade.
#[derive(Debug, Clone, Copy, PartialEq, Eq, Structural)]
pub enum SpreadType {
    Calendar,
    /// Short iron butterfly: sell the ATM straddle, buy OTM wings (credit).
    IronButterfly,
    /// Long iron butterfly: buy the ATM straddle, sell OTM wings (debit).
    LongIronButterfly,
    Straddle,
    /// Sell the ATM call and the ATM put.
    ShortStraddle,
    /// Short near-term straddle and long far-term straddle.
    CalendarStraddle,
    /// Enter the day after earnings and hold for about a week.
    PostEarningsStraddle,
}

/// The spread type that a normalised key names; anything unknown is a calendar.
pub open spec fn spread_type_for_key(k: Seq<char>) -> SpreadType {
    if k == "iron_butterfly"@ || k == "ironbutterfly"@ || k == "butterfly"@ || k == "short_iron_butterfly"@ {
        SpreadType::IronButterfly
    } else if k == "long_iron_butterfly"@ || k == "longironbutterfly"@ || k == "reverse_butterfly"@ {
        SpreadType::LongIronButterfly
    } else if k == "straddle"@ || k == "long_straddle"@ {
        SpreadType::Straddle
    } else if k == "short_straddle"@ || k == "shortstraddle"@ {
        SpreadType::ShortStraddle
    } else if k == "calendar_straddle"@ || k == "calendarstraddle"@ {
        SpreadType::CalendarStraddle
    } else if k == "post_earnings_straddle"@ || k == "postearningstraddle"@ || k == "post_straddle"@ {
        SpreadType::PostEarningsStraddle
    } else {
        SpreadType::Calendar
    }
}

impl Default for SpreadType {
    /// The default spread type: a calendar.
    fn default() -> (r: Self)
        ensures
            r == SpreadType::Calendar,
    {
        SpreadType::Calendar
    }
}

impl SpreadType {
    /// The name a configuration file gives the spread type.
    pub open spec fn spec_config_name(self) -> Seq<char> {
        match self {
            SpreadType::Calendar => "calendar"@,
            SpreadType::IronButterfly => "iron-butterfly"@,
            SpreadType::LongIronButterfly => "long-iron-butterfly"@,
            SpreadType::Straddle => "straddle"@,
            SpreadType::ShortStraddle => "short-straddle"@,
            SpreadType::CalendarStraddle => "calendar-straddle"@,
            SpreadType::PostEarningsStraddle => "post-earnings-straddle"@,
        }
    }


    /// Reads a spread type from a key that is already lower case with `_` separators.
    pub fn from_normalized(key: &str) -> (r: Self)
        ensures
            r == spread_type_for_key(key@),
    {
        if text_eq(key, "iron_butterfly") || text_eq(key, "ironbutterfly") || text_eq(key, "butterfly")
            || text_eq(key, "short_iron_butterfly") {
            SpreadType::IronButterfly
        } else if text_eq(key, "long_iron_butterfly") || text_eq(key, "longironbutterfly")
            || text_eq(key, "reverse_butterfly") {
            SpreadType::LongIronButterfly
        } else if text_eq(key, "straddle") || text_eq(key, "long_straddle") {
            SpreadType::Straddle
        } else if text_eq(key, "short_straddle") || text_eq(key, "shortstraddle") {
            SpreadType::ShortStraddle
        } else if text_eq(key, "calendar_straddle") || text_eq(key, "calendarstraddle") {
            SpreadType::CalendarStraddle
        } else if text_eq(key, "post_earnings_straddle") || text_eq(key, "postearningstraddle")
            || text_eq(key, "post_straddle") {
            SpreadType::PostEarningsStraddle
        } else {
            SpreadType::Calendar
        }
    }

    /// Reads a spread type from free text: case is ignored and `-` counts as `_`.
    pub fn from_string(s: &str) -> (r: Self)
        ensures
            r == spread_type_for_key(dashes_to_underscores(unicode_lowercase(s@))),
            is_ascii_chars(s@) ==> r == spread_type_for_key(dashes_to_underscores(ascii_lowercase(s@))),
    {
        let key = normalize_key(s);
        Self::from_normalized(key.as_str())
    }

    /// The name a configuration file gives the spread type.
    pub fn config_name(&self) -> (r: &'static str)
        ensures
            r@ == self.spec_config_name(),
    {
        match self {
            SpreadType::Calendar => "calendar",
            SpreadType::IronButterfly => "iron-butterfly",
            SpreadType::LongIronButterfly => "long-iron-butterfly",
            SpreadType::Straddle => "straddle",
            SpreadType::ShortStraddle => "short-straddle",
            SpreadType::CalendarStraddle => "calendar-straddle",
            SpreadType::PostEarningsStraddle => "post-earnings-straddle",
        }
    }
}

/// Strike selection method: how to select strikes and expirations.
#[derive(Debug, Clone, Copy, PartialEq, Eq, Structural)]
pub enum SelectionType {
    ATM,
    /// Fixed target delta.
    Delta,
    /// Scan a delta range for the best opportunity.
    DeltaScan,
}

/// The selection type that a normalised key names; anything unknown is ATM.
pub open spec fn selection_type_for_key(k: Seq<char>) -> SelectionType {
    if k == "delta"@ {
        SelectionType::Delta
    } else if k == "delta_scan"@ || k == "deltascan"@ {
        SelectionType::DeltaScan
    } else {
        SelectionType::ATM
    }
}

impl Default for SelectionType {
    /// The default selection type: ATM.
    fn default() -> (r: Self)
        ensures
            r == SelectionType::ATM,
    {
        SelectionType::ATM
    }
}

impl SelectionType {
    /// The name a configuration file gives the selection type.
    pub open spec fn spec_config_name(self) -> Seq<char> {
        match self {
            SelectionType::ATM => "atm"@,
            SelectionType::Delta => "delta"@,
            SelectionType::DeltaScan => "delta-scan"@,
        }
    }


    /// Reads a selection type from a key that is already lower case with `_` separators.
    pub fn from_normalized(key: &str) -> (r: Self)
        ensures
            r == selection_type_for_key(key@),
    {
        if text_eq(key, "delta") {
            SelectionType::Delta
        } else if text_eq(key, "delta_scan") || text_eq(key, "deltascan") {
            SelectionType::DeltaScan
        } else {
            SelectionType::ATM
        }
    }

    /// Reads a selection type from free text: case is ignored and `-` counts as `_`.
    pub fn from_string(s: &str) -> (r: Self)
        ensures
            r == selection_type_for_key(dashes_to_underscores(unicode_lowercase(s@))),
            is_ascii_chars(s@) ==> r == selection_type_for_key(dashes_to_underscores(ascii_lowercase(s@))),
    {
        let key = normalize_key(s);
        Self::from_normalized(key.as_str())
    }

    /// The name a configuration file gives the selection type.
    pub fn config_name(&self) -> (r: &'static str)
        ensures
            r@ == self.spec_config_name(),
    {
        match self {
            SelectionType::ATM => "atm",
            SelectionType::Delta => "delta",
            SelectionType::DeltaScan => "delta-scan",
        }
    }
}

/// Entry and exit clock times of a trade.
#[derive(Debug, Clone, Copy, PartialEq, Eq, Structural)]
pub struct TimingConfig {
    pub entry_hour: u32,
    pub entry_minute: u32,
    pub exit_hour: u32,
    pub exit_minute: u32,
}

/// When, relative to an earnings event, a trade is opened and closed.
#[derive(Debug, Clone, Copy)]
pub enum TradingPeriodSpec {
    /// Enter and exit before the event.
    PreEarnings {
        entry_days_before: u16,
        exit_days_before: u16,
        entry_time: chrono::NaiveTime,
        exit_time: chrono::NaiveTime,
    },
    /// Enter after the event and hold.
    PostEarnings {
        entry_offset: i16,
        holding_days: u16,
        entry_time: chrono::NaiveTime,
        exit_time: chrono::NaiveTime,
    },
    /// Enter before the event and exit after it.
    CrossEarnings {
        entry_days_before: u16,
        exit_days_after: u16,
        entry_time: chrono::NaiveTime,
        exit_time: chrono::NaiveTime,
    },
}

/// Why a timing specification could not be built.
#[derive(Debug, Clone)]
pub enum TimingSpecError {
    /// The entry or exit clock time is not a time of day.
    InvalidTime { field: &'static str, hour: u32, minute: u32 },
    /// The named timing strategy is not one of the known ones.
    UnknownStrategy(String),
}

/// Default number of trading days before earnings to enter a straddle.
pub fn default_straddle_entry_days() -> (r: usize)
    ensures
        r == 5,
{
    5
}

/// Default number of trading days before earnings to exit a straddle.
pub fn default_straddle_exit_days() -> (r: usize)
    ensures
        r == 1,
{
    1
}

/// Default number of steps of a delta scan.
pub fn default_delta_scan_steps() -> (r: usize)
    ensures
        r == 5,
{
    5
}

/// Default minimum number of days from entry to expiration of a straddle.
pub fn default_min_straddle_dte() -> (r: i32)
    ensures
        r == 7,
{
    7
}

/// Default holding period, in trading days, of a post-earnings straddle.
pub fn default_post_earnings_holding_days() -> (r: usize)
    ensures
        r == 5,
{
    5
}

/// The part of a backtest configuration that decides the trading period.
#[derive(Debug, Clone)]
pub struct BacktestTimingConfig {
    pub timing: TimingConfig,
    /// Named timing strategy; when set it overrides the spread-specific parameters.
    pub timing_strategy: Option<String>,
    pub entry_days_before: Option<u16>,
    pub exit_days_before: Option<u16>,
    pub entry_offset: Option<i16>,
    pub holding_days: Option<u16>,
    pub exit_days_after: Option<u16>,
    pub spread: SpreadType,
    pub straddle_entry_days: usize,
    pub straddle_exit_days: usize,
    pub post_earnings_holding_days: usize,
}

/// The value inside an option, or a default.
pub open spec fn or_default<T>(o: Option<T>, d: T) -> T {
    match o {
        Some(v) => v,
        None => d,
    }
}

impl BacktestTimingConfig {
    /// The trading period this configuration asks for, given valid entry and exit times.
    pub open spec fn spec_period(self, entry_time: chrono::NaiveTime, exit_time: chrono::NaiveTime)
        -> Result<TradingPeriodSpec, TimingSpecError>
    {
        match self.timing_strategy {
            Some(name) => {
                if name@ == "PreEarnings"@ {
                    Ok(TradingPeriodSpec::PreEarnings {
                        entry_days_before: or_default(self.entry_days_before, 5),
                        exit_days_before: or_default(self.exit_days_before, 1),
                        entry_time,
                        exit_time,
                    })
                } else if name@ == "PostEarnings"@ {
                    Ok(TradingPeriodSpec::PostEarnings {
                        entry_offset: or_default(self.entry_offset, 0),
                        holding_days: or_default(self.holding_days, 5),
                        entry_time,
                        exit_time,
                    })
                } else if name@ == "CrossEarnings"@ {
                    Ok(TradingPeriodSpec::CrossEarnings {
                        entry_days_before: or_default(self.entry_days_before, 1),
                        exit_days_after: or_default(self.exit_days_after, 1),
                        entry_time,
                        exit_time,
                    })
                } else {
                    Err(TimingSpecError::UnknownStrategy(name))
                }
            },
            None => Ok(
                match self.spread {
                    SpreadType::Straddle | SpreadType::ShortStraddle => TradingPeriodSpec::PreEarnings {
                        entry_days_before: self.straddle_entry_days as u16,
                        exit_days_before: self.straddle_exit_days as u16,
                        entry_time,
                        exit_time,
                    },
                    SpreadType::PostEarningsStraddle => TradingPeriodSpec::PostEarnings {
                        entry_offset: 0,
                        holding_days: self.post_earnings_holding_days as u16,
                        entry_time,
                        exit_time,
                    },
                    _ => TradingPeriodSpec::CrossEarnings {
                        entry_days_before: 1,
                        exit_days_after: 1,
                        entry_time,
                        exit_time,
                    },
                },
            ),
        }
    }

    /// The trading period this configuration asks for.
    ///
    /// The entry time is checked first, then the exit time; a named strategy overrides
    /// the spread-specific parameters, and an unknown name is refused.
    pub fn timing_spec(&self) -> (r: Result<TradingPeriodSpec, TimingSpecError>)
        ensures
            !is_valid_hms(self.timing.entry_hour, self.timing.entry_minute, 0) ==> r == Err::<
                TradingPeriodSpec,
                TimingSpecError,
            >(
                TimingSpecError::InvalidTime {
                    field: "entry_time",
                    hour: self.timing.entry_hour,
                    minute: self.timing.entry_minute,
                },
            ),
            is_valid_hms(self.timing.entry_hour, self.timing.entry_minute, 0) && !is_valid_hms(
                self.timing.exit_hour,
                self.timing.exit_minute,
                0,
            ) ==> r == Err::<TradingPeriodSpec, TimingSpecError>(
                TimingSpecError::InvalidTime {
                    field: "exit_time",
                    hour: self.timing.exit_hour,
                    minute: self.timing.exit_minute,
                },
            ),
            is_valid_hms(self.timing.entry_hour, self.timing.entry_minute, 0) && is_valid_hms(
                self.timing.exit_hour,
                self.timing.exit_minute,
                0,
            ) ==> r == self.spec_period(
                naive_time_of(self.timing.entry_hour, self.timing.entry_minute, 0),
                naive_time_of(self.timing.exit_hour, self.timing.exit_minute, 0),
            ),
            ({
                let entry_time = naive_time_of(self.timing.entry_hour, self.timing.entry_minute, 0);
                let exit_time = naive_time_of(self.timing.exit_hour, self.timing.exit_minute, 0);
                is_valid_hms(self.timing.entry_hour, self.timing.entry_minute, 0)
                    && is_valid_hms(self.timing.exit_hour, self.timing.exit_minute, 0)
                    && self.timing_strategy is None ==> {
                    &&& (self.spread == SpreadType::Straddle || self.spread == SpreadType::ShortStraddle)
                        ==> r == Ok::<TradingPeriodSpec, TimingSpecError>(
                        TradingPeriodSpec::PreEarnings {
                            entry_days_before: self.straddle_entry_days as u16,
                            exit_days_before: self.straddle_exit_days as u16,
                            entry_time,
                            exit_time,
                        },
                    )
                    &&& self.spread == SpreadType::PostEarningsStraddle ==> r == Ok::<
                        TradingPeriodSpec,
                        TimingSpecError,
                    >(
                        TradingPeriodSpec::PostEarnings {
                            entry_offset: 0,
                            holding_days: self.post_earnings_holding_days as u16,
                            entry_time,
                            exit_time,
                        },
                    )
                    &&& (self.spread != SpreadType::Straddle && self.spread != SpreadType::ShortStraddle
                        && self.spread != SpreadType::PostEarningsStraddle) ==> r == Ok::<
                        TradingPeriodSpec,
                        TimingSpecError,
                    >(
                        TradingPeriodSpec::CrossEarnings {
                            entry_days_before: 1,
                            exit_days_after: 1,
                            entry_time,
                            exit_time,
                        },
                    )
                }
            }),
    {
        let entry_time = match time_from_hms(self.timing.entry_hour, self.timing.entry_minute, 0) {
            Some(t) => t,
            None => {
                return Err(
                    TimingSpecError::InvalidTime {
                        field: "entry_time",
                        hour: self.timing.entry_hour,
                        minute: self.timing.entry_minute,
                    },
                );
            },
        };
        let exit_time = match time_from_hms(self.timing.exit_hour, self.timing.exit_minute, 0) {
            Some(t) => t,
            None => {
                return Err(
                    TimingSpecError::InvalidTime {
                        field: "exit_time",
                        hour: self.timing.exit_hour,
                        minute: self.timing.exit_minute,
                    },
                );
            },
        };
        match &self.timing_strategy {
            Some(name) => {
                if text_eq(name.as_str(), "PreEarnings") {
                    Ok(TradingPeriodSpec::PreEarnings {
                        entry_days_before: match self.entry_days_before { Some(v) => v, None => 5 },
                        exit_days_before: match self.exit_days_before { Some(v) => v, None => 1 },
                        entry_time,
                        exit_time,
                    })
                } else if text_eq(name.as_str(), "PostEarnings") {
                    Ok(TradingPeriodSpec::PostEarnings {
                        entry_offset: match self.entry_offset { Some(v) => v, None => 0 },
                        holding_days: match self.holding_days { Some(v) => v, None => 5 },
                        entry_time,
                        exit_time,
                    })
                } else if text_eq(name.as_str(), "CrossEarnings") {
                    Ok(TradingPeriodSpec::CrossEarnings {
                        entry_days_before: match self.entry_days_before { Some(v) => v, None => 1 },
                        exit_days_after: match self.exit_days_after { Some(v) => v, None => 1 },
                        entry_time,
                        exit_time,
                    })
                } else {
                    Err(TimingSpecError::UnknownStrategy(name.clone()))
                }
            },
            None => Ok(
                match self.spread {
                    SpreadType::Straddle | SpreadType::ShortStraddle => TradingPeriodSpec::PreEarnings {
                        entry_days_before: self.straddle_entry_days as u16,
                        exit_days_before: self.straddle_exit_days as u16,
                        entry_time,
                        exit_time,
                    },
                    SpreadType::PostEarningsStraddle => TradingPeriodSpec::PostEarnings {
                        entry_offset: 0,
                        holding_days: self.post_earnings_holding_days as u16,
                        entry_time,
                        exit_time,
                    },
                    _ => TradingPeriodSpec::CrossEarnings {
                        entry_days_before: 1,
                        exit_days_after: 1,
                        entry_time,
                        exit_time,
                    },
                },
            ),
        }
    }
}

/// Reading a spread type's configuration name gives the spread type back.
pub proof fn lemma_spread_type_name_roundtrip(t: SpreadType)
    ensures
        is_ascii_chars(t.spec_config_name()),
        spread_type_for_key(dashes_to_underscores(ascii_lowercase(t.spec_config_name()))) == t,
{
    reveal_strlit("calendar");
    reveal_strlit("iron-butterfly");
    reveal_strlit("long-iron-butterfly");
    reveal_strlit("straddle");
    reveal_strlit("short-straddle");
    reveal_strlit("calendar-straddle");
    reveal_strlit("post-earnings-straddle");
    reveal_strlit("iron_butterfly");
    reveal_strlit("ironbutterfly");
    reveal_strlit("butterfly");
    reveal_strlit("short_iron_butterfly");
    reveal_strlit("long_iron_butterfly");
    reveal_strlit("longironbutterfly");
    reveal_strlit("reverse_butterfly");
    reveal_strlit("long_straddle");
    reveal_strlit("short_straddle");
    reveal_strlit("shortstraddle");
    reveal_strlit("calendar_straddle");
    reveal_strlit("calendarstraddle");
    reveal_strlit("post_earnings_straddle");
    reveal_strlit("postearningstraddle");
    reveal_strlit("post_straddle");
    let s = t.spec_config_name();
    let k = dashes_to_underscores(ascii_lowercase(s));
    match t {
        SpreadType::Calendar => {
            assert(k =~= "calendar"@);
            assert(k[0] != "straddle"@[0]);
        }
        SpreadType::IronButterfly => {
            assert(k =~= "iron_butterfly"@);
        }
        SpreadType::LongIronButterfly => {
            assert(k =~= "long_iron_butterfly"@);
        }
        SpreadType::Straddle => {
            assert(k =~= "straddle"@);
        }
        SpreadType::ShortStraddle => {
            assert(k =~= "short_straddle"@);
            assert(k[0] != "iron_butterfly"@[0]);
        }
        SpreadType::CalendarStraddle => {
            assert(k =~= "calendar_straddle"@);
            assert(k[0] != "longironbutterfly"@[0]);
            assert(k[0] != "reverse_butterfly"@[0]);
        }
        SpreadType::PostEarningsStraddle => {
            assert(k =~= "post_earnings_straddle"@);
        }
    }
}

/// Reading a selection type's configuration name gives the selection type back.
pub proof fn lemma_selection_type_name_roundtrip(t: SelectionType)
    ensures
        is_ascii_chars(t.spec_config_name()),
        selection_type_for_key(dashes_to_underscores(ascii_lowercase(t.spec_config_name()))) == t,
{
    reveal_strlit("atm");
    reveal_strlit("delta");
    reveal_strlit("delta-scan");
    reveal_strlit("delta_scan");
    reveal_strlit("deltascan");
    let s = t.spec_config_name();
    let k = dashes_to_underscores(ascii_lowercase(s));
    match t {
        SelectionType::ATM => { assert(k =~= "atm"@); }
        SelectionType::Delta => { assert(k =~= "delta"@); }
        SelectionType::DeltaScan => { assert(k =~= "delta_scan"@); }
    }
}

/// Without a named strategy, a straddle, long or short, is entered and closed before the
/// earnings: its period is pre-earnings, with the configured straddle entry and exit days
/// and the given clock times.
pub proof fn lemma_straddles_close_before_earnings(
    cfg: BacktestTimingConfig,
    entry_time: chrono::NaiveTime,
    exit_time: chrono::NaiveTime,
)
    requires
        cfg.timing_strategy is None,
        cfg.spread == SpreadType::Straddle || cfg.spread == SpreadType::ShortStraddle,
    ensures
        cfg.spec_period(entry_time, exit_time) matches Ok(TradingPeriodSpec::PreEarnings {
            entry_days_before: e,
            exit_days_before: x,
            entry_time: t0,
            exit_time: t1,
        }) && e == cfg.straddle_entry_days as u16 && x == cfg.straddle_exit_days as u16 && t0
            == entry_time && t1 == exit_time,
{
}

/// Without a named strategy, a long and a short straddle are held over the same period.
pub proof fn lemma_long_and_short_straddles_share_period(
    cfg: BacktestTimingConfig,
    entry_time: chrono::NaiveTime,
    exit_time: chrono::NaiveTime,
)
    requires
        cfg.timing_strategy is None,
    ensures
        (BacktestTimingConfig { spread: SpreadType::Straddle, ..cfg }).spec_period(entry_time, exit_time)
            == (BacktestTimingConfig { spread: SpreadType::ShortStraddle, ..cfg }).spec_period(
            entry_time,
            exit_time,
        ),
{
}

/// Without a named strategy, a post-earnings straddle is entered on the earnings day and
/// held for the configured number of days.
pub proof fn lemma_post_earnings_straddle_enters_after(
    cfg: BacktestTimingConfig,
    entry_time: chrono::NaiveTime,
    exit_time: chrono::NaiveTime,
)
    requires
        cfg.timing_strategy is None,
        cfg.spread == SpreadType::PostEarningsStraddle,
    ensures
        cfg.spec_period(entry_time, exit_time) matches Ok(TradingPeriodSpec::PostEarnings {
            entry_offset: o,
            holding_days: h,
            entry_time: t0,
            exit_time: t1,
        }) && o == 0 && h == cfg.post_earnings_holding_days as u16 && t0 == entry_time && t1 == exit_time,
{
}

/// Without a named strategy, every other spread is entered the day before the earnings and
/// closed the day after.
pub proof fn lemma_other_spreads_cross_earnings(
    cfg: BacktestTimingConfig,
    entry_time: chrono::NaiveTime,
    exit_time: chrono::NaiveTime,
)
    requires
        cfg.timing_strategy is None,
        cfg.spread != SpreadType::Straddle,
        cfg.spread != SpreadType::ShortStraddle,
        cfg.spread != SpreadType::PostEarningsStraddle,
    ensures
        cfg.spec_period(entry_time, exit_time) matches Ok(TradingPeriodSpec::CrossEarnings {
            entry_days_before: e,
            exit_days_after: x,
            entry_time: t0,
            exit_time: t1,
        }) && e == 1 && x == 1 && t0 == entry_time && t1 == exit_time,
{
}

/// A named strategy decides the period whatever the spread, so the spread never changes it.
pub proof fn lemma_named_strategy_ignores_spread(
    cfg: BacktestTimingConfig,
    spread: SpreadType,
    entry_time: chrono::NaiveTime,
    exit_time: chrono::NaiveTime,
)
    requires
        cfg.timing_strategy is Some,
    ensures
        (BacktestTimingConfig { spread, ..cfg }).spec_period(entry_time, exit_time) == cfg.spec_period(
            entry_time,
            exit_time,
        ),
{
}

/// Every period a configuration gives is held at the given entry and exit clock times.
pub proof fn lemma_period_keeps_clock_times(
    cfg: BacktestTimingConfig,
    entry_time: chrono::NaiveTime,
    exit_time: chrono::NaiveTime,
)
    ensures
        cfg.spec_period(entry_time, exit_time) matches Ok(p) ==> match p {
            TradingPeriodSpec::PreEarnings { entry_time: t0, exit_time: t1, .. } => t0 == entry_time
                && t1 == exit_time,
            TradingPeriodSpec::PostEarnings { entry_time: t0, exit_time: t1, .. } => t0 == entry_time
                && t1 == exit_time,
            TradingPeriodSpec::CrossEarnings { entry_time: t0, exit_time: t1, .. } => t0 == entry_time
                && t1 == exit_time,
        },
{
}

/// A named strategy fixes the kind of period and fills unset day counts with its
/// defaults: pre-earnings enters 5 days before and exits 1 day before, post-earnings enters
/// on the day and holds 5 days, cross-earnings enters 1 day before and exits 1 day after;
/// any other name is refused and reported.
pub proof fn lemma_named_strategies(
    cfg: BacktestTimingConfig,
    entry_time: chrono::NaiveTime,
    exit_time: chrono::NaiveTime,
)
    requires
        cfg.timing_strategy is Some,
    ensures
        ({
            let name = cfg.timing_strategy->0;
            let r = cfg.spec_period(entry_time, exit_time);
            &&& name@ == "PreEarnings"@ ==> r == Ok::<TradingPeriodSpec, TimingSpecError>(
                TradingPeriodSpec::PreEarnings {
                    entry_days_before: match cfg.entry_days_before { Some(v) => v, None => 5 },
                    exit_days_before: match cfg.exit_days_before { Some(v) => v, None => 1 },
                    entry_time,
                    exit_time,
                },
            )
            &&& name@ == "PostEarnings"@ ==> r == Ok::<TradingPeriodSpec, TimingSpecError>(
                TradingPeriodSpec::PostEarnings {
                    entry_offset: match cfg.entry_offset { Some(v) => v, None => 0 },
                    holding_days: match cfg.holding_days { Some(v) => v, None => 5 },
                    entry_time,
                    exit_time,
                },
            )
            &&& name@ == "CrossEarnings"@ ==> r == Ok::<TradingPeriodSpec, TimingSpecError>(
                TradingPeriodSpec::CrossEarnings {
                    entry_days_before: match cfg.entry_days_before { Some(v) => v, None => 1 },
                    exit_days_after: match cfg.exit_days_after { Some(v) => v, None => 1 },
                    entry_time,
                    exit_time,
                },
            )
            &&& (name@ != "PreEarnings"@ && name@ != "PostEarnings"@ && name@ != "CrossEarnings"@)
                ==> r == Err::<TradingPeriodSpec, TimingSpecError>(TimingSpecError::UnknownStrategy(name))
        }),
{
    reveal_strlit("PreEarnings");
    reveal_strlit("PostEarnings");
    reveal_strlit("CrossEarnings");
    assert("PreEarnings"@[1] != "PostEarnings"@[1]);
    assert("PreEarnings"@[0] != "CrossEarnings"@[0]);
    assert("PostEarnings"@[0] != "CrossEarnings"@[0]);
}

/// The trading period a campaign uses unless configured otherwise: enter 14 days before
/// earnings at 9:35 and exit the day before at 15:55.
pub fn default_campaign_period() -> (r: TradingPeriodSpec)
    ensures
        r == (TradingPeriodSpec::PreEarnings {
            entry_days_before: 14,
            exit_days_before: 1,
            entry_time: naive_time_of(9, 35, 0),
            exit_time: naive_time_of(15, 55, 0),
        }),
{
    TradingPeriodSpec::PreEarnings {
        entry_days_before: 14,
        exit_days_before: 1,
        entry_time: time_from_hms(9, 35, 0).unwrap(),
        exit_time: time_from_hms(15, 55, 0).unwrap(),
    }
}

/// Whether an earnings event passes the minimum market capitalisation filter: with no
/// minimum every event passes; with a minimum, only an event of known capitalisation at
/// least that large.
pub fn passes_market_cap_filter(min_market_cap: Option<u64>, market_cap: Option<u64>) -> (r: bool)
    ensures
        r == match (min_market_cap, market_cap) {
            (Some(min), Some(cap)) => cap >= min,
            (Some(_), None) => false,
            (None, _) => true,
        },
{
    match (min_market_cap, market_cap) {
        (Some(min), Some(cap)) => cap >= min,
        (Some(_), None) => false,
        (None, _) => true,
    }
}

} // verus!
