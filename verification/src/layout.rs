//! The checks each indicator makes of its parameters, and the shape of what it
//! computes: how many values come out, and which inputs each of them reads.
use vstd::prelude::*;
use crate::error::IndicatorError;

verus! {

/// How many windows of `period` consecutive values fit in a series of `len`.
pub open spec fn window_count(len: int, period: int) -> int {
    len - period + 1
}

/// The simple moving average: refused when the period is longer than the
/// series, else one mean per window of `period` consecutive prices.
pub open spec fn sma_outcome(len: usize, period: usize) -> Result<usize, IndicatorError> {
    if period > len {
        Err(IndicatorError::PeriodTooLong { period, len })
    } else {
        Ok(window_count(len as int, period as int) as usize)
    }
}

/// Checks the period of a simple moving average over `len` prices and gives the
/// number of averages: one for each window of `period` consecutive prices.
pub fn sma_output_len(len: usize, period: usize) -> (r: Result<usize, IndicatorError>)
    requires
        len < usize::MAX,
    ensures
        r == sma_outcome(len, period),
{
    if period > len {
        Err(IndicatorError::PeriodTooLong { period, len })
    } else {
        Ok(len - period + 1)
    }
}

/// The rate of change: one value for each price that has a price `period`
/// steps after it.
pub open spec fn roc_outcome(len: usize, period: usize) -> int {
    len - period
}

/// The number of rate-of-change values over `len` prices: one for each price
/// that has a price `period` steps after it.
pub fn roc_output_len(len: usize, period: usize) -> (r: usize)
    requires
        period <= len,
    ensures
        r == roc_outcome(len, period),
{
    len - period
}

/// The average true range over `high`, `low` and `close` series of the given
/// lengths: the period is checked first, against the length of `high`, then the
/// three lengths against each other.
pub open spec fn atr_outcome(high: usize, low: usize, close: usize, period: usize) -> Result<
    usize,
    IndicatorError,
> {
    if period == 0 {
        Err(IndicatorError::PeriodZero)
    } else if period > high {
        Err(IndicatorError::PeriodTooLong { period, len: high })
    } else if high != low || high != close {
        Err(IndicatorError::LengthsDiffer { high, low, close })
    } else {
        Ok(window_count(high as int, period as int) as usize)
    }
}

/// Checks the inputs of an average true range and gives the number of values:
/// one mean true range per window of `period` consecutive bars.
pub fn atr_output_len(high: usize, low: usize, close: usize, period: usize) -> (r: Result<
    usize,
    IndicatorError,
>)
    ensures
        r == atr_outcome(high, low, close, period),
{
    if period == 0 {
        Err(IndicatorError::PeriodZero)
    } else if period > high {
        Err(IndicatorError::PeriodTooLong { period, len: high })
    } else if high != low || high != close {
        Err(IndicatorError::LengthsDiffer { high, low, close })
    } else {
        Ok(high - period + 1)
    }
}

/// Chaikin money flow over `high`, `low`, `close` and `volume` series of the
/// given lengths: the lengths are checked first, then the period.
pub open spec fn cmf_outcome(high: usize, low: usize, close: usize, volume: usize, period: usize) -> Result<
    usize,
    IndicatorError,
> {
    if high != low || high != close || high != volume {
        Err(IndicatorError::SeriesLengthsDiffer)
    } else if period > high {
        Err(IndicatorError::PeriodExceedsData)
    } else {
        Ok(window_count(high as int, period as int) as usize)
    }
}

/// Checks the inputs of Chaikin money flow and gives the number of values: one
/// ratio of money flow volume to volume per window of `period` consecutive bars.
pub fn cmf_output_len(high: usize, low: usize, close: usize, volume: usize, period: usize) -> (r:
    Result<usize, IndicatorError>)
    requires
        high < usize::MAX,
    ensures
        r == cmf_outcome(high, low, close, volume, period),
{
    if high != low || high != close || high != volume {
        Err(IndicatorError::SeriesLengthsDiffer)
    } else if period > high {
        Err(IndicatorError::PeriodExceedsData)
    } else {
        Ok(high - period + 1)
    }
}

/// Which computation the relative strength index makes, and how many values
/// it gives.
#[derive(Debug, Clone, Copy, PartialEq, Eq, Structural)]
pub enum RsiPlan {
    /// All prices are equal: `count` values, each 50.
    Flat { count: usize },
    /// Period 1: `count` values, each 100, 0 or 50 as one price change is a
    /// rise, a fall or neither.
    Direction { count: usize },
    /// The period spans the whole series: one value, from the mean gain and
    /// mean loss over all price changes.
    Whole,
    /// Wilder's smoothing: `count` values, the first from the first `period`
    /// changes, each later one folding in the next change.
    Smoothed { count: usize },
}

impl RsiPlan {
    /// The number of values the plan gives.
    pub open spec fn spec_count(self) -> int {
        match self {
            RsiPlan::Flat { count } => count as int,
            RsiPlan::Direction { count } => count as int,
            RsiPlan::Whole => 1,
            RsiPlan::Smoothed { count } => count as int,
        }
    }

    /// The number of values the plan gives.
    pub fn count(&self) -> (n: usize)
        ensures
            n == self.spec_count(),
    {
        match *self {
            RsiPlan::Flat { count } => count,
            RsiPlan::Direction { count } => count,
            RsiPlan::Whole => 1,
            RsiPlan::Smoothed { count } => count,
        }
    }
}

/// The relative strength index over `len` prices, `all_equal` telling whether
/// every price equals the first.
pub open spec fn rsi_outcome(len: usize, period: usize, all_equal: bool) -> Result<
    RsiPlan,
    IndicatorError,
> {
    if period == 0 {
        Err(IndicatorError::PeriodZero)
    } else if period > len {
        Err(IndicatorError::PeriodTooLong { period, len })
    } else if all_equal {
        Ok(RsiPlan::Flat { count: if period == len { 1 } else { (len - period) as usize } })
    } else if period == 1 {
        Ok(RsiPlan::Direction { count: (len - 1) as usize })
    } else if period == len {
        Ok(RsiPlan::Whole)
    } else {
        Ok(RsiPlan::Smoothed { count: (len - period) as usize })
    }
}

/// Checks the period of a relative strength index over `len` prices and picks
/// the computation; `all_equal` tells whether every price equals the first.
pub fn rsi_plan(len: usize, period: usize, all_equal: bool) -> (r: Result<RsiPlan, IndicatorError>)
    ensures
        r == rsi_outcome(len, period, all_equal),
{
    if period == 0 {
        Err(IndicatorError::PeriodZero)
    } else if period > len {
        Err(IndicatorError::PeriodTooLong { period, len })
    } else if all_equal {
        if period == len {
            Ok(RsiPlan::Flat { count: 1 })
        } else {
            Ok(RsiPlan::Flat { count: len - period })
        }
    } else if period == 1 {
        Ok(RsiPlan::Direction { count: len - 1 })
    } else if period == len {
        Ok(RsiPlan::Whole)
    } else {
        Ok(RsiPlan::Smoothed { count: len - period })
    }
}

/// The lengths and the alignment of the series that MACD builds.
#[derive(Debug, Clone, Copy, PartialEq, Eq, Structural)]
pub struct MacdLayout {
    /// Values of the fast EMA, one per window of `period_fast` prices.
    pub fast_len: usize,
    /// Values of the slow EMA, one per window of `period_slow` prices.
    pub slow_len: usize,
    /// MACD value `i` subtracts slow EMA value `i` from fast EMA value `i + offset`.
    pub offset: usize,
    /// Values of the MACD line.
    pub macd_len: usize,
    /// Values of the signal line, an EMA of the MACD line over `period_signal`.
    pub signal_len: usize,
}

/// The periods MACD is computed with: neither EMA period longer than the
/// series, the fast one no longer than the slow one, and the signal period no
/// longer than the MACD line.
pub open spec fn macd_fits(len: usize, fast: usize, slow: usize, signal: usize) -> bool {
    &&& fast <= slow
    &&& slow <= len
    &&& signal <= window_count(len as int, slow as int)
}

/// The layout MACD builds over `len` prices.
pub open spec fn macd_spec_layout(len: usize, fast: usize, slow: usize, signal: usize) -> MacdLayout {
    let slow_len = window_count(len as int, slow as int);
    MacdLayout {
        fast_len: window_count(len as int, fast as int) as usize,
        slow_len: slow_len as usize,
        offset: (slow - fast) as usize,
        macd_len: slow_len as usize,
        signal_len: window_count(slow_len, signal as int) as usize,
    }
}

/// Whether MACD can be computed with these periods over `len` prices.
pub fn macd_periods_fit(len: usize, fast: usize, slow: usize, signal: usize) -> (b: bool)
    requires
        len < usize::MAX - 1,
    ensures
        b == macd_fits(len, fast, slow, signal),
{
    fast <= slow && slow <= len && signal <= len - slow + 1
}

/// The layout of the fast EMA, slow EMA, MACD line and signal line over `len` prices.
pub fn macd_layout(len: usize, fast: usize, slow: usize, signal: usize) -> (l: MacdLayout)
    requires
        len < usize::MAX - 1,
        macd_fits(len, fast, slow, signal),
    ensures
        l == macd_spec_layout(len, fast, slow, signal),
{
    let slow_len = len - slow + 1;
    MacdLayout {
        fast_len: len - fast + 1,
        slow_len,
        offset: slow - fast,
        macd_len: slow_len,
        signal_len: slow_len - signal + 1,
    }
}

} // verus!
