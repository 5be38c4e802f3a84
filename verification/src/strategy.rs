//! The sample EMA-crossover strategy's decisions. The moving averages are
//! computed outside the library (they are floating point); the library
//! decides when the strategy is evaluated and which crossing, if any, is a
//! signal.
use vstd::prelude::*;
use crate::domain::{opposite, Side};
use crate::ieee::{f64_le, f64_lt, f64_lt_asymmetric, le, lt};

verus! {

/// Public demonstration strategy: enters on a crossing of the 12- and
/// 26-period exponential moving averages of closes.
#[derive(Debug, Default, Clone, Copy)]
pub struct SampleEmaStrategy;

/// Period of the fast moving average.
pub const FAST_PERIOD: usize = 12;

/// Period of the slow moving average.
pub const SLOW_PERIOD: usize = 26;

/// The candles a strategy needs before it evaluates when it sets none.
pub const DEFAULT_STARTUP_CANDLES: usize = 200;

/// The entry signal on a crossing: long when the fast average rises above
/// the slow one having been at or below it, short when it falls below
/// having been at or above it. Values are `f64` bit patterns; a NaN
/// anywhere compares false, so it never signals.
pub open spec fn crossing(previous_fast: u64, previous_slow: u64, fast: u64, slow: u64) -> Option<Side> {
    if f64_le(previous_fast, previous_slow) && f64_lt(slow, fast) {
        Some(Side::Long)
    } else if f64_le(previous_slow, previous_fast) && f64_lt(fast, slow) {
        Some(Side::Short)
    } else {
        None
    }
}

impl SampleEmaStrategy {
    /// The strategy's name.
    pub fn name(&self) -> (res: &'static str)
        ensures
            res@ == "SampleEmaStrategy"@,
    {
        "SampleEmaStrategy"
    }

    /// The candle timeframe the strategy trades.
    pub fn timeframe(&self) -> (res: &'static str)
        ensures
            res@ == "15m"@,
    {
        "15m"
    }

    /// The candles needed before the strategy evaluates.
    pub fn startup_candles(&self) -> (res: usize)
        ensures
            res == 32,
    {
        32
    }

    /// The tag of the orders the strategy emits.
    pub fn order_tag(&self) -> (res: &'static str)
        ensures
            res@ == "sample_ema_cross"@,
    {
        "sample_ema_cross"
    }

    /// Whether the strategy looks for an entry: only while flat and once
    /// enough candles have arrived.
    pub fn should_evaluate(&self, has_position: bool, candle_count: usize) -> (res: bool)
        ensures
            res == (!has_position && candle_count >= 32),
    {
        !has_position && candle_count >= self.startup_candles()
    }

    /// The entry signal of the averages over all candles (`fast`, `slow`)
    /// and over all but the last (`previous_fast`, `previous_slow`).
    pub fn entry_signal(&self, previous_fast: u64, previous_slow: u64, fast: u64, slow: u64) -> (res:
        Option<Side>)
        ensures
            res == crossing(previous_fast, previous_slow, fast, slow),
            f64_le(previous_fast, previous_slow) && f64_lt(slow, fast) ==> res == Some(Side::Long),
            f64_le(previous_slow, previous_fast) && f64_lt(fast, slow) ==> res == Some(Side::Short),
            !(f64_le(previous_fast, previous_slow) && f64_lt(slow, fast)) && !(f64_le(
                previous_slow,
                previous_fast,
            ) && f64_lt(fast, slow)) ==> res is None,
    {
        if le(previous_fast, previous_slow) && lt(slow, fast) {
            Some(Side::Long)
        } else if le(previous_slow, previous_fast) && lt(fast, slow) {
            Some(Side::Short)
        } else {
            None
        }
    }
}

/// A strict crossing always signals, whatever the values: the fast average
/// rising above the slow one from at or below it is a long entry, falling
/// below it from at or above it a short entry, and nothing else is a signal.
pub proof fn strict_crossing_always_signals(
    previous_fast: u64,
    previous_slow: u64,
    fast: u64,
    slow: u64,
)
    ensures
        f64_le(previous_fast, previous_slow) && f64_lt(slow, fast) ==> crossing(
            previous_fast,
            previous_slow,
            fast,
            slow,
        ) == Some(Side::Long),
        f64_le(previous_slow, previous_fast) && f64_lt(fast, slow) ==> crossing(
            previous_fast,
            previous_slow,
            fast,
            slow,
        ) == Some(Side::Short),
        crossing(previous_fast, previous_slow, fast, slow) == Some(Side::Long) ==> f64_le(
            previous_fast,
            previous_slow,
        ) && f64_lt(slow, fast),
        crossing(previous_fast, previous_slow, fast, slow) == Some(Side::Short) ==> f64_le(
            previous_slow,
            previous_fast,
        ) && f64_lt(fast, slow),
{
    f64_lt_asymmetric(fast, slow);
}

/// Crossings are symmetric: exchanging the roles of the two averages turns
/// every long signal into a short one and back.
pub proof fn crossing_is_symmetric(previous_fast: u64, previous_slow: u64, fast: u64, slow: u64)
    ensures
        crossing(previous_slow, previous_fast, slow, fast) == (match crossing(
            previous_fast,
            previous_slow,
            fast,
            slow,
        ) {
            Some(side) => Some(opposite(side)),
            None => None,
        }),
{
    f64_lt_asymmetric(fast, slow);
}

/// No signal without a strict crossing: when the averages now compare equal
/// (or either is NaN), the strategy stays flat.
pub proof fn no_signal_without_strict_crossing(
    previous_fast: u64,
    previous_slow: u64,
    fast: u64,
    slow: u64,
)
    requires
        !f64_lt(fast, slow),
        !f64_lt(slow, fast),
    ensures
        crossing(previous_fast, previous_slow, fast, slow) is None,
{
}

} // verus!
