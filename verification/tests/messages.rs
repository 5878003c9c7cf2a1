use zenithta::error::{IndicatorError, InputError};
use zenithta::shape::vector_len;

#[test]
fn period_too_long_message_names_both_numbers() {
    let e = IndicatorError::PeriodTooLong { period: 5, len: 3 };
    assert_eq!(e.message(), "Period (5) cannot be greater than data length (3)");
    let e = IndicatorError::PeriodTooLong { period: 120, len: 0 };
    assert_eq!(e.message(), "Period (120) cannot be greater than data length (0)");
}

#[test]
fn fixed_indicator_messages() {
    assert_eq!(IndicatorError::PeriodZero.message(), "Period must be greater than 0");
    assert_eq!(
        IndicatorError::SeriesLengthsDiffer.message(),
        "All input arrays must have the same length"
    );
    assert_eq!(
        IndicatorError::PeriodExceedsData.message(),
        "Period cannot be greater than data length"
    );
}

#[test]
fn lengths_differ_message() {
    let e = IndicatorError::LengthsDiffer { high: 10, low: 9, close: 10 };
    assert_eq!(
        e.message(),
        "Input arrays must have the same length. Got high: 10, low: 9, close: 10"
    );
}

#[test]
fn input_messages() {
    assert_eq!(InputError::NotContiguous.message(), "Array must be contiguous");
    assert_eq!(
        InputError::UnsupportedType.message(),
        "Input array must be float32 or float64"
    );
    assert_eq!(
        InputError::UnsupportedTypes.message(),
        "Input arrays must be float32 or float64"
    );
    assert_eq!(
        InputError::NotRowOrColumn { shape: vec![2, 3] }.message(),
        "2D array must be a column/row vector of shape (N, 1) or (1, N). Got shape [2, 3]"
    );
    assert_eq!(
        InputError::UnsupportedRank { shape: vec![2, 2, 2] }.message(),
        "Input array must be 1D or a 2D column/row vector. Got shape [2, 2, 2]"
    );
    assert_eq!(
        InputError::UnsupportedRank { shape: vec![] }.message(),
        "Input array must be 1D or a 2D column/row vector. Got shape []"
    );
}

#[test]
fn vector_shapes() {
    assert_eq!(vector_len(&[7]), Ok(7));
    assert_eq!(vector_len(&[0]), Ok(0));
    assert_eq!(vector_len(&[7, 1]), Ok(7));
    assert_eq!(vector_len(&[1, 7]), Ok(7));
    assert_eq!(vector_len(&[1, 1]), Ok(1));
    assert_eq!(vector_len(&[1, 0]), Ok(0));
}

#[test]
fn non_vector_shapes() {
    assert_eq!(vector_len(&[2, 3]), Err(InputError::NotRowOrColumn { shape: vec![2, 3] }));
    assert_eq!(vector_len(&[0, 0]), Err(InputError::NotRowOrColumn { shape: vec![0, 0] }));
    assert_eq!(vector_len(&[]), Err(InputError::UnsupportedRank { shape: vec![] }));
    assert_eq!(
        vector_len(&[1, 1, 5]),
        Err(InputError::UnsupportedRank { shape: vec![1, 1, 5] })
    );
}

#[test]
fn refused_shape_is_answered_with_its_own_shape() {
    let e = vector_len(&[3, 4]).unwrap_err();
    assert_eq!(
        e.message(),
        "2D array must be a column/row vector of shape (N, 1) or (1, N). Got shape [3, 4]"
    );
}

#[test]
fn numbers_are_written_in_full_decimal() {
    let e = IndicatorError::PeriodTooLong { period: 1234567890, len: 1000007 };
    assert_eq!(
        e.message(),
        "Period (1234567890) cannot be greater than data length (1000007)"
    );
    let e = IndicatorError::LengthsDiffer { high: usize::MAX, low: 100, close: 99 };
    assert_eq!(
        e.message(),
        format!("Input arrays must have the same length. Got high: {}, low: 100, close: 99", usize::MAX)
    );
}
