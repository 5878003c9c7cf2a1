//! The ways an input is refused, and the message each refusal is answered with.
use vstd::prelude::*;
use crate::text::{decimal, shape_debug_text, shape_text, usize_text};

verus! {

/// Why an input array cannot be read as a series of prices.
#[derive(Debug, PartialEq, Eq)]
pub enum InputError {
    /// The array's elements do not lie contiguously in memory.
    NotContiguous,
    /// A two-dimensional array that is neither one row nor one column.
    NotRowOrColumn { shape: Vec<usize> },
    /// An array with neither one nor two dimensions.
    UnsupportedRank { shape: Vec<usize> },
    /// The one input array holds neither `float32` nor `float64` values.
    UnsupportedType,
    /// The first of several input arrays holds neither `float32` nor `float64` values.
    UnsupportedTypes,
}

/// Why the parameters of an indicator do not fit its inputs.
#[derive(Debug, Clone, Copy, PartialEq, Eq, Structural)]
pub enum IndicatorError {
    /// The period is zero.
    PeriodZero,
    /// The period is longer than the series.
    PeriodTooLong { period: usize, len: usize },
    /// The high, low and close series differ in length.
    LengthsDiffer { high: usize, low: usize, close: usize },
    /// The high, low, close and volume series differ in length.
    SeriesLengthsDiffer,
    /// The period is longer than the series (reported without the numbers).
    PeriodExceedsData,
}

impl InputError {
    /// The message this refusal is answered with.
    pub open spec fn spec_message(&self) -> Seq<char> {
        match self {
            InputError::NotContiguous => "Array must be contiguous"@,
            InputError::NotRowOrColumn { shape } =>
                "2D array must be a column/row vector of shape (N, 1) or (1, N). Got shape "@
                    + shape_debug_text(shape@),
            InputError::UnsupportedRank { shape } =>
                "Input array must be 1D or a 2D column/row vector. Got shape "@
                    + shape_debug_text(shape@),
            InputError::UnsupportedType => "Input array must be float32 or float64"@,
            InputError::UnsupportedTypes => "Input arrays must be float32 or float64"@,
        }
    }

    /// The message this refusal is answered with.
    pub fn message(&self) -> (m: String)
        ensures
            m@ == self.spec_message(),
    {
        match self {
            InputError::NotContiguous => String::from_str("Array must be contiguous"),
            InputError::NotRowOrColumn { shape } => {
                let mut m = String::from_str(
                    "2D array must be a column/row vector of shape (N, 1) or (1, N). Got shape ",
                );
                m.append(shape_text(shape.as_slice()).as_str());
                m
            },
            InputError::UnsupportedRank { shape } => {
                let mut m = String::from_str(
                    "Input array must be 1D or a 2D column/row vector. Got shape ",
                );
                m.append(shape_text(shape.as_slice()).as_str());
                m
            },
            InputError::UnsupportedType => String::from_str("Input array must be float32 or float64"),
            InputError::UnsupportedTypes => String::from_str("Input arrays must be float32 or float64"),
        }
    }
}

impl IndicatorError {
    /// The message this refusal is answered with.
    pub open spec fn spec_message(&self) -> Seq<char> {
        match *self {
            IndicatorError::PeriodZero => "Period must be greater than 0"@,
            IndicatorError::PeriodTooLong { period, len } =>
                "Period ("@ + decimal(period as nat) + ") cannot be greater than data length ("@
                    + decimal(len as nat) + ")"@,
            IndicatorError::LengthsDiffer { high, low, close } =>
                "Input arrays must have the same length. Got high: "@ + decimal(high as nat)
                    + ", low: "@ + decimal(low as nat) + ", close: "@ + decimal(close as nat),
            IndicatorError::SeriesLengthsDiffer => "All input arrays must have the same length"@,
            IndicatorError::PeriodExceedsData => "Period cannot be greater than data length"@,
        }
    }

    /// The message this refusal is answered with.
    pub fn message(&self) -> (m: String)
        ensures
            m@ == self.spec_message(),
    {
        match *self {
            IndicatorError::PeriodZero => String::from_str("Period must be greater than 0"),
            IndicatorError::PeriodTooLong { period, len } => {
                let mut m = String::from_str("Period (");
                m.append(usize_text(period).as_str());
                m.append(") cannot be greater than data length (");
                m.append(usize_text(len).as_str());
                m.append(")");
                m
            },
            IndicatorError::LengthsDiffer { high, low, close } => {
                let mut m = String::from_str("Input arrays must have the same length. Got high: ");
                m.append(usize_text(high).as_str());
                m.append(", low: ");
                m.append(usize_text(low).as_str());
                m.append(", close: ");
                m.append(usize_text(close).as_str());
                m
            },
            IndicatorError::SeriesLengthsDiffer => String::from_str(
                "All input arrays must have the same length",
            ),
            IndicatorError::PeriodExceedsData => String::from_str(
                "Period cannot be greater than data length",
            ),
        }
    }
}

/// The text each refused parameter is answered with: the fixed sentences, the
/// period and the series length (period first) written in decimal, and the
/// three lengths in the order high, low, close.
pub proof fn lemma_indicator_messages(period: usize, len: usize, high: usize, low: usize, close: usize)
    ensures
        IndicatorError::PeriodZero.spec_message() == "Period must be greater than 0"@,
        (IndicatorError::PeriodTooLong { period, len }).spec_message() == "Period ("@ + decimal(
            period as nat,
        ) + ") cannot be greater than data length ("@ + decimal(len as nat) + ")"@,
        (IndicatorError::LengthsDiffer { high, low, close }).spec_message()
            == "Input arrays must have the same length. Got high: "@ + decimal(high as nat)
            + ", low: "@ + decimal(low as nat) + ", close: "@ + decimal(close as nat),
        IndicatorError::SeriesLengthsDiffer.spec_message()
            == "All input arrays must have the same length"@,
        IndicatorError::PeriodExceedsData.spec_message()
            == "Period cannot be greater than data length"@,
{
}

/// The text each refused array is answered with; a refused shape is written
/// out after the sentence as `{:?}` writes it.
pub proof fn lemma_input_messages(shape: Vec<usize>)
    ensures
        InputError::NotContiguous.spec_message() == "Array must be contiguous"@,
        (InputError::NotRowOrColumn { shape }).spec_message()
            == "2D array must be a column/row vector of shape (N, 1) or (1, N). Got shape "@
            + shape_debug_text(shape@),
        (InputError::UnsupportedRank { shape }).spec_message()
            == "Input array must be 1D or a 2D column/row vector. Got shape "@ + shape_debug_text(
            shape@,
        ),
        InputError::UnsupportedType.spec_message() == "Input array must be float32 or float64"@,
        InputError::UnsupportedTypes.spec_message() == "Input arrays must be float32 or float64"@,
{
}

} // verus!
