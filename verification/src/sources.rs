//! Where market data and earnings calendars come from.

use vstd::prelude::*;
use vstd::string::*;
use crate::text::{text_eq, to_lowercase, unicode_lowercase, ascii_lowercase};
use vstd::utf8::is_ascii_chars;

verus! {

/// A filesystem path.
#[verifier::external_type_specification]
#[verifier::external_body]
pub struct ExPathBuf(std::path::PathBuf);

/// `Clone::clone` of `std::path::PathBuf`, which the derived `Clone` of the source
/// configurations calls; nothing is claimed of the copy.
pub assume_specification[ <std::path::PathBuf as Clone>::clone ](p: &std::path::PathBuf) -> std::path::PathBuf;

/// Earnings calendar data provider.
#[derive(Debug, Clone, Copy, PartialEq, Eq, Structural)]
pub enum EarningsProvider {
    /// NASDAQ official API.
    Nasdaq,
    /// TradingView scanner.
    TradingView,
    /// Yahoo Finance.
    Yahoo,
}

/// The provider that a lower-case key names, if any.
pub open spec fn earnings_provider_for_key(k: Seq<char>) -> Option<EarningsProvider> {
    if k == "nasdaq"@ {
        Some(EarningsProvider::Nasdaq)
    } else if k == "tradingview"@ || k == "tv"@ {
        Some(EarningsProvider::TradingView)
    } else if k == "yahoo"@ || k == "yf"@ {
        Some(EarningsProvider::Yahoo)
    } else {
        None
    }
}

/// The message that refuses an unknown provider name.
pub open spec fn invalid_provider_message(s: Seq<char>) -> Seq<char> {
    "Invalid earnings provider '"@ + s + "'. Valid values: nasdaq, tradingview, yahoo"@
}

impl Default for EarningsProvider {
    /// The default provider: TradingView.
    fn default() -> (r: Self)
        ensures
            r == EarningsProvider::TradingView,
    {
        EarningsProvider::TradingView
    }
}

impl EarningsProvider {
    /// The provider's display name.
    pub open spec fn spec_display_name(self) -> Seq<char> {
        match self {
            EarningsProvider::Nasdaq => "Nasdaq"@,
            EarningsProvider::TradingView => "TradingView"@,
            EarningsProvider::Yahoo => "Yahoo"@,
        }
    }


    /// Reads a provider from a lower-case key.
    pub fn from_lowercase_key(key: &str) -> (r: Option<Self>)
        ensures
            r == earnings_provider_for_key(key@),
    {
        if text_eq(key, "nasdaq") {
            Some(EarningsProvider::Nasdaq)
        } else if text_eq(key, "tradingview") || text_eq(key, "tv") {
            Some(EarningsProvider::TradingView)
        } else if text_eq(key, "yahoo") || text_eq(key, "yf") {
            Some(EarningsProvider::Yahoo)
        } else {
            None
        }
    }

    /// Reads a provider name, ignoring case; an unknown name is refused with a message
    /// that quotes it and lists the valid names.
    pub fn from_str(s: &str) -> (r: Result<Self, String>)
        ensures
            match earnings_provider_for_key(unicode_lowercase(s@)) {
                Some(p) => r == Ok::<Self, String>(p),
                None => r is Err && r->Err_0@ == invalid_provider_message(s@),
            },
            is_ascii_chars(s@) ==> (r is Ok <==> earnings_provider_for_key(ascii_lowercase(s@)) is Some),
            is_ascii_chars(s@) && r is Ok ==> earnings_provider_for_key(ascii_lowercase(s@)) == Some(
                r->Ok_0,
            ),
    {
        let key = to_lowercase(s);
        match Self::from_lowercase_key(key.as_str()) {
            Some(p) => Ok(p),
            None => {
                let mut msg = "Invalid earnings provider '".to_owned();
                msg.append(s);
                msg.append("'. Valid values: nasdaq, tradingview, yahoo");
                Err(msg)
            },
        }
    }

    /// The provider's display name.
    pub fn display_name(&self) -> (r: &'static str)
        ensures
            r@ == self.spec_display_name(),
    {
        match self {
            EarningsProvider::Nasdaq => "Nasdaq",
            EarningsProvider::TradingView => "TradingView",
            EarningsProvider::Yahoo => "Yahoo",
        }
    }
}

/// Where earnings data is read: a custom file, or a provider's directory.
#[derive(Debug, Clone)]
pub enum EarningsSourceConfig {
    /// A custom file (Parquet or JSON, told apart by extension).
    File { path: std::path::PathBuf },
    /// A provider directory, read the way the named provider writes it.
    Provider { dir: std::path::PathBuf, source: EarningsProvider },
}

impl EarningsSourceConfig {
    /// A file-based source.
    pub fn file(path: std::path::PathBuf) -> (r: Self)
        ensures
            r == (EarningsSourceConfig::File { path }),
    {
        EarningsSourceConfig::File { path }
    }

    /// A provider-based source reading the given directory.
    pub fn provider(source: EarningsProvider, dir: std::path::PathBuf) -> (r: Self)
        ensures
            r == (EarningsSourceConfig::Provider { dir, source }),
    {
        EarningsSourceConfig::Provider { dir, source }
    }

    /// Whether the source is a file.
    pub fn is_file(&self) -> (r: bool)
        ensures
            r == (self is File),
    {
        match self {
            EarningsSourceConfig::File { .. } => true,
            EarningsSourceConfig::Provider { .. } => false,
        }
    }

    /// The provider directory, for a provider-based source.
    pub fn dir(&self) -> (r: Option<&std::path::PathBuf>)
        ensures
            match self {
                EarningsSourceConfig::Provider { dir, .. } => r == Some(dir),
                EarningsSourceConfig::File { .. } => r is None,
            },
    {
        match self {
            EarningsSourceConfig::Provider { dir, .. } => Some(dir),
            EarningsSourceConfig::File { .. } => None,
        }
    }

    /// The file path, for a file-based source.
    pub fn file_path(&self) -> (r: Option<&std::path::PathBuf>)
        ensures
            match self {
                EarningsSourceConfig::File { path } => r == Some(path),
                EarningsSourceConfig::Provider { .. } => r is None,
            },
    {
        match self {
            EarningsSourceConfig::File { path } => Some(path),
            EarningsSourceConfig::Provider { .. } => None,
        }
    }

    /// The provider, for a provider-based source.
    pub fn provider_source(&self) -> (r: Option<EarningsProvider>)
        ensures
            match self {
                EarningsSourceConfig::Provider { source, .. } => r == Some(*source),
                EarningsSourceConfig::File { .. } => r is None,
            },
    {
        match self {
            EarningsSourceConfig::Provider { source, .. } => Some(*source),
            EarningsSourceConfig::File { .. } => None,
        }
    }
}

/// Market data provider for options and equities.
#[derive(Debug, Clone)]
pub enum DataSourceConfig {
    Finq { data_dir: std::path::PathBuf },
    Ib { data_dir: std::path::PathBuf },
}

impl DataSourceConfig {
    /// The provider's data directory.
    pub fn data_dir(&self) -> (r: &std::path::PathBuf)
        ensures
            match self {
                DataSourceConfig::Finq { data_dir } => r == data_dir,
                DataSourceConfig::Ib { data_dir } => r == data_dir,
            },
    {
        match self {
            DataSourceConfig::Finq { data_dir } => data_dir,
            DataSourceConfig::Ib { data_dir } => data_dir,
        }
    }
}

/// How a backtest is run.
#[derive(Debug, Clone, Copy, PartialEq, Eq, Structural)]
pub struct ExecutionConfig {
    pub parallel: bool,
}

impl Default for ExecutionConfig {
    /// The default: run in parallel.
    fn default() -> (r: Self)
        ensures
            r.parallel,
    {
        ExecutionConfig { parallel: true }
    }
}

/// Reading a provider's display name gives the provider back.
pub proof fn lemma_provider_display_roundtrip(p: EarningsProvider)
    ensures
        is_ascii_chars(p.spec_display_name()),
        earnings_provider_for_key(ascii_lowercase(p.spec_display_name())) == Some(p),
{
    reveal_strlit("Nasdaq");
    reveal_strlit("TradingView");
    reveal_strlit("Yahoo");
    reveal_strlit("nasdaq");
    reveal_strlit("tradingview");
    reveal_strlit("tv");
    reveal_strlit("yahoo");
    reveal_strlit("yf");
    let k = ascii_lowercase(p.spec_display_name());
    match p {
        EarningsProvider::Nasdaq => {
            assert(k =~= "nasdaq"@);
        },
        EarningsProvider::TradingView => {
            assert(k =~= "tradingview"@);
        },
        EarningsProvider::Yahoo => {
            assert(k =~= "yahoo"@);
        },
    }
}

} // verus!
