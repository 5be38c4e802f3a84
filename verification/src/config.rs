//! Freqtrade-compatible configuration: defaults, the validation rules a
//! configuration must pass before the engine starts, and the redaction of
//! credentials in diagnostic output. Reading and parsing the JSON5 file
//! happens outside the library.
use vstd::prelude::*;
use crate::ieee::{f64_le, le};

verus! {

/// The timeframe used when the configuration names none.
pub fn default_timeframe() -> (res: String)
    ensures
        res@ == "15m"@,
{
    String::from_str("15m")
}

/// The database used when the configuration names none.
pub fn default_database() -> (res: String)
    ensures
        res@ == "sqlite://user_data/trades.sqlite"@,
{
    String::from_str("sqlite://user_data/trades.sqlite")
}

/// The processing throttle, in seconds, used when none is configured.
pub fn default_throttle() -> (res: u64)
    ensures
        res == 1,
{
    1
}

/// Exchange account settings.
#[derive(Clone)]
pub struct ExchangeConfig {
    pub name: String,
    pub key: String,
    pub secret: String,
    pub pair_whitelist: Vec<String>,
}

/// Engine internals.
#[derive(Debug, Clone, Copy)]
pub struct InternalsConfig {
    pub process_throttle_secs: u64,
}

impl Default for InternalsConfig {
    fn default() -> (res: Self)
        ensures
            res.process_throttle_secs == 1,
    {
        InternalsConfig { process_throttle_secs: default_throttle() }
    }
}

/// A trading configuration. The stake amount is held as the IEEE-754 bit
/// pattern of its `f64` value.
#[derive(Clone)]
pub struct Config {
    pub timeframe: String,
    pub dry_run: bool,
    pub trading_mode: String,
    pub margin_mode: String,
    pub stake_currency: String,
    pub stake_amount_bits: u64,
    pub max_open_trades: i64,
    pub exchange: ExchangeConfig,
    pub internals: InternalsConfig,
    pub database_url: String,
}

/// Why a configuration is refused.
#[derive(Debug, Clone, Copy, PartialEq, Eq, Structural)]
pub enum ConfigError {
    NonPositiveStake,
    InvalidMaxOpenTrades,
    MissingExchangeName,
    MissingCredentials,
}

impl ConfigError {
    /// The human-readable description of the error.
    pub fn message(&self) -> (res: &'static str)
        ensures
            res@ == (match self {
                ConfigError::NonPositiveStake => "stake_amount must be positive"@,
                ConfigError::InvalidMaxOpenTrades => "max_open_trades must be -1 (unlimited) or positive"@,
                ConfigError::MissingExchangeName => "exchange.name is required"@,
                ConfigError::MissingCredentials => "live mode requires exchange.key and exchange.secret"@,
            }),
    {
        match self {
            ConfigError::NonPositiveStake => "stake_amount must be positive",
            ConfigError::InvalidMaxOpenTrades => "max_open_trades must be -1 (unlimited) or positive",
            ConfigError::MissingExchangeName => "exchange.name is required",
            ConfigError::MissingCredentials => "live mode requires exchange.key and exchange.secret",
        }
    }
}

/// Unicode `White_Space` characters, the ones `char::is_whitespace` and
/// `str::trim` recognise.
pub open spec fn is_unicode_whitespace(c: char) -> bool {
    ('\u{9}' <= c <= '\u{d}') || c == ' ' || c == '\u{85}' || c == '\u{a0}' || c == '\u{1680}' || (
    '\u{2000}' <= c <= '\u{200a}') || c == '\u{2028}' || c == '\u{2029}' || c == '\u{202f}' || c
        == '\u{205f}' || c == '\u{3000}'
}

/// Text that is empty once trimmed: every character is white space.
pub open spec fn is_blank_text(s: Seq<char>) -> bool {
    forall|i: int| 0 <= i < s.len() ==> is_unicode_whitespace(#[trigger] s[i])
}

/// Whether a character is Unicode white space.
pub fn is_whitespace(c: char) -> (res: bool)
    ensures
        res == is_unicode_whitespace(c),
{
    ('\u{9}' <= c && c <= '\u{d}') || c == ' ' || c == '\u{85}' || c == '\u{a0}' || c == '\u{1680}'
        || ('\u{2000}' <= c && c <= '\u{200a}') || c == '\u{2028}' || c == '\u{2029}' || c
        == '\u{202f}' || c == '\u{205f}' || c == '\u{3000}'
}

/// Whether text is empty once trimmed.
pub fn is_blank(s: &str) -> (res: bool)
    ensures
        res == is_blank_text(s@),
{
    let n: usize = s.unicode_len();
    let mut i: usize = 0;
    while i < n
        invariant
            n == s@.len(),
            i <= n,
            forall|j: int| 0 <= j < i ==> is_unicode_whitespace(#[trigger] s@[j]),
        decreases n - i,
    {
        if !is_whitespace(s.get_char(i)) {
            return false;
        }
        i = i + 1;
    }
    true
}

/// The outcome of validating a configuration: the first rule it breaks,
/// in the order stake, open-trade limit, exchange name, live credentials.
pub open spec fn validation(c: Config) -> Result<(), ConfigError> {
    if f64_le(c.stake_amount_bits, 0) {
        Err(ConfigError::NonPositiveStake)
    } else if c.max_open_trades == 0 || c.max_open_trades < -1 {
        Err(ConfigError::InvalidMaxOpenTrades)
    } else if is_blank_text(c.exchange.name@) {
        Err(ConfigError::MissingExchangeName)
    } else if !c.dry_run && (c.exchange.key@.len() == 0 || c.exchange.secret@.len() == 0) {
        Err(ConfigError::MissingCredentials)
    } else {
        Ok(())
    }
}

impl Config {
    /// Checks the rules a configuration must meet: a positive stake, an
    /// open-trade limit of -1 (unlimited) or at least 1, a non-blank exchange
    /// name, and, outside dry-run, both API credentials.
    pub fn validate(&self) -> (res: Result<(), ConfigError>)
        ensures
            res == validation(*self),
    {
        if le(self.stake_amount_bits, 0) {
            return Err(ConfigError::NonPositiveStake);
        }
        if self.max_open_trades == 0 || self.max_open_trades < -1 {
            return Err(ConfigError::InvalidMaxOpenTrades);
        }
        if is_blank(self.exchange.name.as_str()) {
            return Err(ConfigError::MissingExchangeName);
        }
        if !self.dry_run && (self.exchange.key.as_str().is_empty()
            || self.exchange.secret.as_str().is_empty()) {
            return Err(ConfigError::MissingCredentials);
        }
        Ok(())
    }

    /// The pause between processing rounds, in whole seconds; never below one.
    pub fn throttle(&self) -> (res: u64)
        ensures
            res == (if self.internals.process_throttle_secs >= 1 {
                self.internals.process_throttle_secs
            } else {
                1
            }),
            res >= 1,
    {
        if self.internals.process_throttle_secs >= 1 {
            self.internals.process_throttle_secs
        } else {
            1
        }
    }
}

/// How a credential appears in diagnostic output: empty stays empty,
/// anything else shows as `***`.
pub open spec fn redacted_text(value: Seq<char>) -> Seq<char> {
    if value.len() == 0 {
        ""@
    } else {
        "***"@
    }
}

/// The diagnostic form of a credential.
pub fn redact(value: &str) -> (res: &'static str)
    ensures
        res@ == redacted_text(value@),
{
    if value.is_empty() {
        ""
    } else {
        "***"
    }
}

impl ExchangeConfig {
    /// The key as it appears in diagnostic output.
    pub fn redacted_key(&self) -> (res: &'static str)
        ensures
            res@ == redacted_text(self.key@),
    {
        redact(self.key.as_str())
    }

    /// The secret as it appears in diagnostic output.
    pub fn redacted_secret(&self) -> (res: &'static str)
        ensures
            res@ == redacted_text(self.secret@),
    {
        redact(self.secret.as_str())
    }
}

/// Redaction reveals nothing of a credential but whether it is set: any
/// two credentials that are both set (or both empty) look the same.
pub proof fn redaction_reveals_only_presence(a: Seq<char>, b: Seq<char>)
    requires
        (a.len() == 0) == (b.len() == 0),
    ensures
        redacted_text(a) == redacted_text(b),
{
}

} // verus!
