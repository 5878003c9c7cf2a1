use zenithta::error::IndicatorError;
use zenithta::layout::{
    atr_output_len, cmf_output_len, macd_layout, macd_periods_fit, roc_output_len, rsi_plan,
    sma_output_len, MacdLayout, RsiPlan,
};

#[test]
fn sma_counts_one_value_per_window() {
    assert_eq!(sma_output_len(5, 3), Ok(3));
    assert_eq!(sma_output_len(5, 5), Ok(1));
    assert_eq!(sma_output_len(5, 1), Ok(5));
}

#[test]
fn sma_period_zero_gives_one_more_than_len() {
    assert_eq!(sma_output_len(4, 0), Ok(5));
    assert_eq!(sma_output_len(0, 0), Ok(1));
}

#[test]
fn sma_refuses_period_longer_than_series() {
    assert_eq!(
        sma_output_len(3, 4),
        Err(IndicatorError::PeriodTooLong { period: 4, len: 3 })
    );
}

#[test]
fn roc_counts_prices_with_a_predecessor() {
    assert_eq!(roc_output_len(10, 3), 7);
    assert_eq!(roc_output_len(3, 3), 0);
    assert_eq!(roc_output_len(4, 0), 4);
}

#[test]
fn atr_checks_period_before_lengths() {
    assert_eq!(atr_output_len(5, 4, 3, 0), Err(IndicatorError::PeriodZero));
    assert_eq!(
        atr_output_len(3, 5, 5, 4),
        Err(IndicatorError::PeriodTooLong { period: 4, len: 3 })
    );
    assert_eq!(
        atr_output_len(5, 4, 5, 2),
        Err(IndicatorError::LengthsDiffer { high: 5, low: 4, close: 5 })
    );
    assert_eq!(
        atr_output_len(5, 5, 6, 2),
        Err(IndicatorError::LengthsDiffer { high: 5, low: 5, close: 6 })
    );
    assert_eq!(atr_output_len(14, 14, 14, 14), Ok(1));
    assert_eq!(atr_output_len(20, 20, 20, 14), Ok(7));
}

#[test]
fn cmf_checks_lengths_before_period() {
    assert_eq!(cmf_output_len(3, 3, 3, 2, 9), Err(IndicatorError::SeriesLengthsDiffer));
    assert_eq!(cmf_output_len(3, 4, 3, 3, 1), Err(IndicatorError::SeriesLengthsDiffer));
    assert_eq!(cmf_output_len(3, 3, 3, 3, 4), Err(IndicatorError::PeriodExceedsData));
    assert_eq!(cmf_output_len(10, 10, 10, 10, 3), Ok(8));
    assert_eq!(cmf_output_len(10, 10, 10, 10, 0), Ok(11));
}

#[test]
fn rsi_refusals() {
    assert_eq!(rsi_plan(5, 0, false), Err(IndicatorError::PeriodZero));
    assert_eq!(rsi_plan(0, 0, true), Err(IndicatorError::PeriodZero));
    assert_eq!(
        rsi_plan(5, 6, false),
        Err(IndicatorError::PeriodTooLong { period: 6, len: 5 })
    );
}

#[test]
fn rsi_constant_prices_are_flat() {
    assert_eq!(rsi_plan(5, 5, true), Ok(RsiPlan::Flat { count: 1 }));
    assert_eq!(rsi_plan(5, 2, true), Ok(RsiPlan::Flat { count: 3 }));
    assert_eq!(rsi_plan(5, 1, true), Ok(RsiPlan::Flat { count: 4 }));
}

#[test]
fn rsi_period_one_reads_directions() {
    assert_eq!(rsi_plan(5, 1, false), Ok(RsiPlan::Direction { count: 4 }));
    assert_eq!(rsi_plan(1, 1, false), Ok(RsiPlan::Direction { count: 0 }));
}

#[test]
fn rsi_whole_and_smoothed() {
    assert_eq!(rsi_plan(5, 5, false), Ok(RsiPlan::Whole));
    assert_eq!(rsi_plan(20, 14, false), Ok(RsiPlan::Smoothed { count: 6 }));
}

#[test]
fn rsi_plan_counts() {
    assert_eq!(RsiPlan::Whole.count(), 1);
    assert_eq!(RsiPlan::Flat { count: 3 }.count(), 3);
    assert_eq!(RsiPlan::Direction { count: 4 }.count(), 4);
    assert_eq!(RsiPlan::Smoothed { count: 6 }.count(), 6);
    // Outside the period spanning the series, RSI gives len - period values.
    for (len, period, all_equal) in [(20usize, 14usize, false), (20, 14, true), (9, 1, false), (9, 3, true)] {
        assert_eq!(rsi_plan(len, period, all_equal).unwrap().count(), len - period);
    }
}

#[test]
fn macd_layout_of_standard_periods() {
    assert!(macd_periods_fit(100, 12, 26, 9));
    assert_eq!(
        macd_layout(100, 12, 26, 9),
        MacdLayout { fast_len: 89, slow_len: 75, offset: 14, macd_len: 75, signal_len: 67 }
    );
}

#[test]
fn macd_fast_and_slow_values_end_at_the_same_price() {
    let (len, fast, slow, signal) = (40usize, 5usize, 11usize, 4usize);
    let l = macd_layout(len, fast, slow, signal);
    for i in 0..l.macd_len {
        assert_eq!(i + l.offset + fast - 1, i + slow - 1);
        assert!(i + l.offset < l.fast_len);
    }
    assert_eq!(l.macd_len - 1 + slow - 1, len - 1);
    assert_eq!(l.signal_len - 1 + signal - 1, l.macd_len - 1);
}

#[test]
fn macd_periods_that_do_not_fit() {
    assert!(!macd_periods_fit(30, 26, 12, 9));
    assert!(!macd_periods_fit(20, 12, 26, 9));
    assert!(!macd_periods_fit(30, 12, 26, 6));
    assert!(macd_periods_fit(30, 12, 26, 5));
    assert!(macd_periods_fit(30, 0, 0, 31));
}

#[test]
fn sma_windows_slide_by_one() {
    // Output i averages prices i .. i + period; the last one ends at the last price.
    let (len, period) = (7usize, 3usize);
    let count = sma_output_len(len, period).unwrap();
    assert_eq!(count - 1 + period - 1, len - 1);
    assert_eq!(sma_output_len(len, period), atr_output_len(len, len, len, period));
    assert_eq!(sma_output_len(len, period), cmf_output_len(len, len, len, len, period));
}

#[test]
fn rsi_smoothing_reads_each_change_once() {
    let (len, period) = (6usize, 3usize);
    let count = match rsi_plan(len, period, false) {
        Ok(RsiPlan::Smoothed { count }) => count,
        other => panic!("unexpected plan {:?}", other),
    };
    let mut reads = vec![0usize; len - 1];
    for k in 0..period {
        reads[k] += 1;
    }
    for i in 1..count {
        reads[i + period - 1] += 1;
    }
    assert_eq!(reads, vec![1; len - 1]);
}

#[test]
fn roc_reads_stay_in_the_series() {
    let (len, period) = (9usize, 4usize);
    let count = roc_output_len(len, period);
    for i in 0..count {
        assert!(i + period < len);
    }
    assert_eq!(count - 1 + period, len - 1);
}

#[test]
fn rsi_direction_and_whole_reads_stay_in_the_series() {
    let len = 6usize;
    if let Ok(RsiPlan::Direction { count }) = rsi_plan(len, 1, false) {
        assert_eq!(count - 1 + 1, len - 1);
    } else {
        panic!("expected the period-1 plan");
    }
    assert_eq!(rsi_plan(2, 2, false), Ok(RsiPlan::Whole));
    assert_eq!(rsi_plan(1, 1, false), Ok(RsiPlan::Direction { count: 0 }));
}

#[test]
fn atr_reads_previous_close_within_the_series() {
    let len = 5usize;
    assert!(atr_output_len(len, len, len, 2).is_ok());
    assert!(atr_output_len(0, 0, 0, 1).is_err());
}
