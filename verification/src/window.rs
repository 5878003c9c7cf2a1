//! What the indicators' layouts promise across functions: which prices each
//! output reads, and how the series that MACD combines line up.
use vstd::prelude::*;
use crate::error::IndicatorError;
use crate::layout::{
    RsiPlan, atr_outcome, roc_outcome, cmf_outcome, macd_fits, macd_spec_layout, rsi_outcome, sma_outcome,
};

verus! {

/// The indices `start`, ..., `start + width - 1` of a window of `width` values.
pub open spec fn window(start: int, width: int) -> Set<int> {
    Set::new(|i: int| start <= i < start + width)
}

/// The index of the last value in window `k` of `width` values: the price at
/// which a moving average (or EMA) value `k` is taken.
pub open spec fn window_end(k: int, width: int) -> int {
    k + width - 1
}

/// Moving a window one step on drops its first index and takes in the one after
/// its last: the update that keeps a rolling sum the sum over its window.
pub proof fn lemma_window_slides(start: int, width: int)
    requires
        width >= 1,
    ensures
        window(start + 1, width) == window(start, width).remove(start).insert(start + width),
{
    assert(window(start + 1, width) =~= window(start, width).remove(start).insert(start + width));
}

/// A simple moving average reads exactly the windows that fit: output `i`
/// averages prices `i .. i + period`, which lie within the series, every
/// window of `period` prices that fits is averaged by one output, and the last
/// output ends at the last price.
pub proof fn lemma_sma_reads_every_window(len: usize, period: usize)
    requires
        len < usize::MAX,
    ensures
        sma_outcome(len, period) matches Ok(c) ==> {
            &&& forall|i: int| 0 <= i < c ==> #[trigger] window(i, period as int).subset_of(
                window(0, len as int),
            )
            &&& forall|s: int| 0 <= s && #[trigger] window_end(s, period as int) < len ==> s < c
            &&& window_end(c - 1, period as int) == len - 1
        },
{
    if let Ok(c) = sma_outcome(len, period) {
        assert forall|i: int| 0 <= i < c implies #[trigger] window(i, period as int).subset_of(
            window(0, len as int),
        ) by {}
    }
}

/// ATR and CMF keep the same windows as SMA: over equal-length series, CMF
/// gives as many values as SMA wherever either accepts the period, and ATR
/// (with a nonzero period) answers exactly as SMA does.
pub proof fn lemma_windowed_indicators_agree(len: usize, period: usize)
    ensures
        cmf_outcome(len, len, len, len, period) is Ok <==> sma_outcome(len, period) is Ok,
        cmf_outcome(len, len, len, len, period) matches Ok(c) ==> sma_outcome(len, period) == Ok::<
            usize,
            crate::error::IndicatorError,
        >(c),
        period >= 1 ==> atr_outcome(len, len, len, period) == sma_outcome(len, period),
{
}

/// RSI accepts exactly the periods from 1 to the length of the series, refusing
/// a longer one as SMA does; it gives `len - period` values, except one value
/// when the period spans the series (unless, with period 1, the single price is
/// not equal to itself, as a NaN is not).
pub proof fn lemma_rsi_count(len: usize, period: usize, all_equal: bool)
    ensures
        rsi_outcome(len, period, all_equal) is Ok <==> 1 <= period <= len,
        period >= 1 ==> (rsi_outcome(len, period, all_equal) is Err <==> sma_outcome(
            len,
            period,
        ) is Err),
        period > len ==> (rsi_outcome(len, period, all_equal) matches Err(e) && sma_outcome(
            len,
            period,
        ) == Err::<usize, crate::error::IndicatorError>(e)),
        rsi_outcome(len, period, all_equal) matches Ok(plan) ==> plan.spec_count() == if period
            == len && (all_equal || period > 1) {
            1
        } else {
            len - period
        },
{
}

/// The price changes (change `k` being price `k + 1` less price `k`) that
/// value `i` of Wilder's smoothing folds in: the first `period` changes for the
/// first value, then one more change for each later value.
pub open spec fn rsi_changes_read(i: int, period: int) -> Set<int> {
    if i == 0 {
        window(0, period)
    } else {
        window(i + period - 1, 1)
    }
}

/// Wilder's smoothing reads every price change of the series exactly once:
/// the changes its values fold in lie within the series, no change is folded
/// in twice, and none is left out.
pub proof fn lemma_rsi_reads_each_change_once(len: usize, period: usize, all_equal: bool)
    ensures
        rsi_outcome(len, period, all_equal) matches Ok(RsiPlan::Smoothed { count }) ==> {
            &&& forall|i: int| 0 <= i < count ==> #[trigger] rsi_changes_read(i, period as int).subset_of(
                window(0, len - 1),
            )
            &&& forall|i: int, j: int, k: int|
                0 <= i < j < count && #[trigger] rsi_changes_read(i, period as int).contains(k)
                    ==> !#[trigger] rsi_changes_read(j, period as int).contains(k)
            &&& forall|k: int|
                #[trigger] window(0, len - 1).contains(k) ==> exists|i: int|
                    0 <= i < count && #[trigger] rsi_changes_read(i, period as int).contains(k)
        },
{
    if let Ok(RsiPlan::Smoothed { count }) = rsi_outcome(len, period, all_equal) {
        let p = period as int;
        assert forall|i: int| 0 <= i < count implies #[trigger] rsi_changes_read(i, p).subset_of(
            window(0, len - 1),
        ) by {}
        assert forall|k: int| #[trigger] window(0, len - 1).contains(k) implies exists|i: int|
            0 <= i < count && #[trigger] rsi_changes_read(i, p).contains(k) by {
            if k < p {
                assert(rsi_changes_read(0, p).contains(k));
            } else {
                assert(rsi_changes_read(k - p + 1, p).contains(k));
            }
        }
    }
}

/// Every RSI computation reads prices within the series: the first price
/// (which all prices are compared with) exists; with period 1, value `i` reads
/// prices `i` and `i + 1`; over the whole series, the mean is taken over at
/// least one change, and each change `k` reads prices `k` and `k + 1`; and
/// Wilder's smoothing starts from `period` changes that all lie in the series.
pub proof fn lemma_rsi_reads_in_bounds(len: usize, period: usize, all_equal: bool)
    ensures
        rsi_outcome(len, period, all_equal) is Ok ==> len >= 1,
        rsi_outcome(len, period, all_equal) matches Ok(RsiPlan::Direction { count }) ==> forall|
            i: int,
        |
            0 <= i < count ==> #[trigger] window(i, 2).subset_of(window(0, len as int)),
        rsi_outcome(len, period, all_equal) matches Ok(RsiPlan::Whole) ==> {
            &&& len >= 2
            &&& forall|k: int|
                0 <= k < len - 1 ==> #[trigger] window(k, 2).subset_of(window(0, len as int))
        },
        rsi_outcome(len, period, all_equal) matches Ok(RsiPlan::Smoothed { count }) ==> {
            &&& count >= 1
            &&& window(0, period as int + 1).subset_of(window(0, len as int))
            &&& forall|i: int|
                1 <= i < count ==> #[trigger] window(i + period - 1, 2).subset_of(
                    window(0, len as int),
                )
        },
{
    match rsi_outcome(len, period, all_equal) {
        Ok(RsiPlan::Direction { count }) => {
            assert forall|i: int| 0 <= i < count implies #[trigger] window(i, 2).subset_of(
                window(0, len as int),
            ) by {}
        },
        Ok(RsiPlan::Whole) => {
            assert forall|k: int| 0 <= k < len - 1 implies #[trigger] window(k, 2).subset_of(
                window(0, len as int),
            ) by {}
        },
        Ok(RsiPlan::Smoothed { count }) => {
            assert(window(0, period as int + 1).subset_of(window(0, len as int)));
            assert forall|i: int| 1 <= i < count implies #[trigger] window(
                i + period - 1,
                2,
            ).subset_of(window(0, len as int)) by {}
        },
        _ => {},
    }
}

/// The rate of change reads prices within the series: value `i` divides by
/// price `i` and compares it with price `i + period`.
pub proof fn lemma_roc_reads_in_bounds(len: usize, period: usize)
    requires
        period <= len,
    ensures
        forall|i: int|
            0 <= i < roc_outcome(len, period) ==> #[trigger] window(i, 1).insert(i + period).subset_of(
                window(0, len as int),
            ),
{
    assert forall|i: int| 0 <= i < roc_outcome(len, period) implies #[trigger] window(i, 1).insert(
        i + period,
    ).subset_of(window(0, len as int)) by {}
}

/// ATR's true ranges read within the three series: the first bar's high and
/// low exist, and bar `i` after it reads its own high and low and the close of
/// bar `i - 1`.
pub proof fn lemma_atr_reads_in_bounds(high: usize, low: usize, close: usize, period: usize)
    ensures
        atr_outcome(high, low, close, period) is Ok ==> {
            &&& high >= 1
            &&& forall|i: int| 1 <= i < high ==> #[trigger] window(i - 1, 2).subset_of(
                window(0, low as int),
            ) && window(i - 1, 2).subset_of(window(0, close as int))
        },
{
    if atr_outcome(high, low, close, period) is Ok {
        assert forall|i: int| 1 <= i < high implies #[trigger] window(i - 1, 2).subset_of(
            window(0, low as int),
        ) && window(i - 1, 2).subset_of(window(0, close as int)) by {}
    }
}

/// MACD subtracts values taken at the same price: MACD value `i` pairs fast
/// EMA value `i + offset` with slow EMA value `i`, both ending at price
/// `i + period_slow - 1`; the last MACD value ends at the last price; and the
/// signal line's last value ends at the last MACD value.
pub proof fn lemma_macd_aligned(len: usize, fast: usize, slow: usize, signal: usize)
    requires
        len < usize::MAX - 1,
        macd_fits(len, fast, slow, signal),
    ensures
        ({
            let l = macd_spec_layout(len, fast, slow, signal);
            &&& forall|i: int|
                0 <= i < l.macd_len ==> {
                    &&& i + l.offset < l.fast_len
                    &&& i < l.slow_len
                    &&& #[trigger] window_end(i + l.offset, fast as int) == window_end(
                        i,
                        slow as int,
                    )
                }
            &&& window_end(l.macd_len - 1, slow as int) == len - 1
            &&& forall|j: int| 0 <= j < l.signal_len ==> #[trigger] window_end(j, signal as int) < l.macd_len
            &&& window_end(l.signal_len - 1, signal as int) == l.macd_len - 1
            &&& l.fast_len + fast == len + 1
            &&& l.slow_len + slow == len + 1
            &&& l.macd_len == l.slow_len
            &&& l.offset + fast == slow
            &&& l.signal_len + signal == l.macd_len + 1
        }),
{
}

/// How RSI answers each period: period 0 and a period longer than the series
/// are refused; equal prices give a flat plan, and only they do; otherwise
/// period 1 reads directions, a period spanning the series takes one value
/// over all changes, and any period in between is Wilder's smoothing with one
/// value per price after the first `period`.
pub proof fn lemma_rsi_choice(len: usize, period: usize, all_equal: bool)
    ensures
        period == 0 ==> rsi_outcome(len, period, all_equal) == Err::<RsiPlan, IndicatorError>(
            IndicatorError::PeriodZero,
        ),
        1 <= period && period > len ==> rsi_outcome(len, period, all_equal) == Err::<
            RsiPlan,
            IndicatorError,
        >(IndicatorError::PeriodTooLong { period, len }),
        1 <= period && period < len && all_equal ==> rsi_outcome(len, period, all_equal) == Ok::<
            RsiPlan,
            IndicatorError,
        >(RsiPlan::Flat { count: (len - period) as usize }),
        1 <= period && period == len && all_equal ==> rsi_outcome(len, period, all_equal) == Ok::<
            RsiPlan,
            IndicatorError,
        >(RsiPlan::Flat { count: 1 }),
        period == 1 && 1 <= len && !all_equal ==> rsi_outcome(len, period, all_equal) == Ok::<
            RsiPlan,
            IndicatorError,
        >(RsiPlan::Direction { count: (len - 1) as usize }),
        2 <= period && period == len && !all_equal ==> rsi_outcome(len, period, all_equal) == Ok::<
            RsiPlan,
            IndicatorError,
        >(RsiPlan::Whole),
        2 <= period && period < len && !all_equal ==> rsi_outcome(len, period, all_equal) == Ok::<
            RsiPlan,
            IndicatorError,
        >(RsiPlan::Smoothed { count: (len - period) as usize }),
        rsi_outcome(len, period, all_equal) matches Ok(RsiPlan::Flat { .. }) ==> all_equal,
{
}

/// ROC gives one value for each price that has a price `period` steps after
/// it, and for no other: value `i` exists exactly when `i + period < len`.
pub proof fn lemma_roc_counts_every_pair(len: usize, period: usize)
    requires
        period <= len,
    ensures
        roc_outcome(len, period) + period == len,
        forall|i: int| 0 <= i ==> (i < roc_outcome(len, period) <==> #[trigger] window_end(i, period as int + 1) < len),
{
}

/// How ATR answers: a zero period, then a period longer than the high series,
/// then high, low and close series of different lengths are refused, each with
/// its own error; it accepts only three series of one length with a period
/// from 1 to that length, and then gives one value per window of `period` bars.
pub proof fn lemma_atr_checks(high: usize, low: usize, close: usize, period: usize)
    ensures
        period == 0 ==> atr_outcome(high, low, close, period) == Err::<usize, IndicatorError>(
            IndicatorError::PeriodZero,
        ),
        1 <= period && period > high ==> atr_outcome(high, low, close, period) == Err::<
            usize,
            IndicatorError,
        >(IndicatorError::PeriodTooLong { period, len: high }),
        1 <= period <= high && (high != low || high != close) ==> atr_outcome(
            high,
            low,
            close,
            period,
        ) == Err::<usize, IndicatorError>(IndicatorError::LengthsDiffer { high, low, close }),
        atr_outcome(high, low, close, period) is Ok <==> (1 <= period <= high && high == low
            && high == close),
        atr_outcome(high, low, close, period) matches Ok(c) ==> c + period == high + 1,
{
}

/// How CMF answers: high, low, close and volume series of different lengths
/// are refused first, then a period longer than the series; it accepts only
/// four series of one length with a period no longer than it, and then gives
/// one value per window of `period` bars.
pub proof fn lemma_cmf_checks(high: usize, low: usize, close: usize, volume: usize, period: usize)
    requires
        high < usize::MAX,
    ensures
        (high != low || high != close || high != volume) ==> cmf_outcome(
            high,
            low,
            close,
            volume,
            period,
        ) == Err::<usize, IndicatorError>(IndicatorError::SeriesLengthsDiffer),
        high == low && high == close && high == volume && period > high ==> cmf_outcome(
            high,
            low,
            close,
            volume,
            period,
        ) == Err::<usize, IndicatorError>(IndicatorError::PeriodExceedsData),
        cmf_outcome(high, low, close, volume, period) is Ok <==> (period <= high && high == low
            && high == close && high == volume),
        cmf_outcome(high, low, close, volume, period) matches Ok(c) ==> c + period == high + 1,
{
}

/// How SMA answers: a period longer than the series is refused with both
/// numbers; any other gives one value per window of `period` prices.
pub proof fn lemma_sma_checks(len: usize, period: usize)
    requires
        len < usize::MAX,
    ensures
        period > len ==> sma_outcome(len, period) == Err::<usize, IndicatorError>(
            IndicatorError::PeriodTooLong { period, len },
        ),
        sma_outcome(len, period) is Ok <==> period <= len,
        sma_outcome(len, period) matches Ok(c) ==> c + period == len + 1,
{
}

/// MACD can be computed exactly when the fast period is no longer than the
/// slow one, the slow one no longer than the series, and the signal period no
/// longer than the number of MACD values.
pub proof fn lemma_macd_fits(len: usize, fast: usize, slow: usize, signal: usize)
    ensures
        macd_fits(len, fast, slow, signal) <==> (fast <= slow && slow <= len && signal + slow
            <= len + 1),
{
}

} // verus!
