//! Which array shapes can be read as one series of prices.
use vstd::prelude::*;
use crate::error::InputError;

verus! {

/// A shape is a vector shape when it has one dimension, or two of which one is 1
/// (an `(N, 1)` column or a `(1, N)` row).
pub open spec fn is_vector_shape(shape: Seq<usize>) -> bool {
    ||| shape.len() == 1
    ||| shape.len() == 2 && (shape[0] == 1 || shape[1] == 1)
}

/// The number of elements of an array of a vector shape.
pub open spec fn vector_shape_len(shape: Seq<usize>) -> int
    recommends
        is_vector_shape(shape),
{
    if shape.len() == 1 {
        shape[0] as int
    } else {
        shape[0] * shape[1]
    }
}

/// Reads an array shape as the shape of one series of prices and gives the
/// series' length; an array of any other shape is refused.
pub fn vector_len(shape: &[usize]) -> (r: Result<usize, InputError>)
    ensures
        is_vector_shape(shape@) <==> r is Ok,
        r matches Ok(n) ==> n == vector_shape_len(shape@),
        shape@.len() == 2 && !is_vector_shape(shape@) ==> (r matches Err(
            InputError::NotRowOrColumn { shape: s },
        ) && s@ == shape@),
        shape@.len() != 1 && shape@.len() != 2 ==> (r matches Err(
            InputError::UnsupportedRank { shape: s },
        ) && s@ == shape@),
{
    if shape.len() == 1 {
        Ok(shape[0])
    } else if shape.len() == 2 {
        if shape[0] == 1 {
            Ok(shape[1])
        } else if shape[1] == 1 {
            Ok(shape[0])
        } else {
            Err(InputError::NotRowOrColumn { shape: vstd::slice::slice_to_vec(shape) })
        }
    } else {
        Err(InputError::UnsupportedRank { shape: vstd::slice::slice_to_vec(shape) })
    }
}

/// A one-dimensional shape `[n]` is a series of `n` prices, and so are a column
/// `[n, 1]` and a row `[1, n]`; no other two-dimensional shape, and no shape of
/// another rank, is a series.
pub proof fn lemma_vector_shapes(shape: Seq<usize>)
    ensures
        shape.len() == 1 ==> is_vector_shape(shape) && vector_shape_len(shape) == shape[0],
        shape.len() == 2 && shape[1] == 1 ==> is_vector_shape(shape) && vector_shape_len(shape)
            == shape[0],
        shape.len() == 2 && shape[0] == 1 ==> is_vector_shape(shape) && vector_shape_len(shape)
            == shape[1],
        shape.len() == 2 && shape[0] != 1 && shape[1] != 1 ==> !is_vector_shape(shape),
        shape.len() != 1 && shape.len() != 2 ==> !is_vector_shape(shape),
{
}

} // verus!
