//! Shape errors and the shape rule of a matrix product.
use vstd::prelude::*;

verus! {

/// A dimension mismatch.
#[derive(Clone, Copy, Debug, PartialEq, Eq, Hash, Structural)]
pub enum ShapeError {
    /// The shapes cannot be combined or converted.
    IncompatibleShape,
    /// The shape holds fewer axes than the operation reads.
    IncompatibleLayout,
    /// The number of elements does not fit in memory.
    Overflow,
}

/// A prediction that could not be made.
#[derive(Clone, Copy, Debug, PartialEq, Eq, Hash, Structural)]
pub enum PredictError {
    /// The input does not fit the parameters it was handed to.
    Shape(ShapeError),
}

impl ShapeError {
    /// A short lowercase description of the error.
    pub open spec fn spec_description(self) -> Seq<char> {
        match self {
            ShapeError::IncompatibleShape => "incompatible shapes"@,
            ShapeError::IncompatibleLayout => "incompatible memory layout"@,
            ShapeError::Overflow => "arithmetic overflow"@,
        }
    }

    pub fn describe(&self) -> (r: &'static str)
        ensures
            r@ == self.spec_description(),
    {
        match self {
            ShapeError::IncompatibleShape => "incompatible shapes",
            ShapeError::IncompatibleLayout => "incompatible memory layout",
            ShapeError::Overflow => "arithmetic overflow",
        }
    }
}

/// The shape of the product of a `(rows, inner)` matrix and an
/// `(inner, columns)` matrix.
pub open spec fn spec_dot_shape(lhs: (usize, usize), rhs: (usize, usize)) -> Option<(usize, usize)> {
    if lhs.1 == rhs.0 {
        Some((lhs.0, rhs.1))
    } else {
        None
    }
}

/// The shape of `lhs · rhs`, or an error where the inner dimensions differ.
pub fn dot_shape(lhs: (usize, usize), rhs: (usize, usize)) -> (r: Result<(usize, usize), ShapeError>)
    ensures
        r is Ok <==> lhs.1 == rhs.0,
        r is Ok ==> Some(r->Ok_0) == spec_dot_shape(lhs, rhs),
        r is Err ==> r->Err_0 == ShapeError::IncompatibleShape,
{
    if lhs.1 == rhs.0 {
        Ok((lhs.0, rhs.1))
    } else {
        Err(ShapeError::IncompatibleShape)
    }
}

/// `lhs` where both shapes are the same, else an error.
pub fn same_shape(lhs: (usize, usize), rhs: (usize, usize)) -> (r: Result<(usize, usize), ShapeError>)
    ensures
        r is Ok <==> lhs == rhs,
        r is Ok ==> r->Ok_0 == lhs,
        r is Err ==> r->Err_0 == ShapeError::IncompatibleShape,
{
    if lhs.0 == rhs.0 && lhs.1 == rhs.1 {
        Ok(lhs)
    } else {
        Err(ShapeError::IncompatibleShape)
    }
}

/// The shape of `softmax((q · kᵗ + mask) * scale) · v`, where `q`, `k` and
/// `v` are data of shape `(sequence, model)` scaled elementwise by weights
/// of the same shape: `(sequence, model)`, where the data has the weights'
/// shape and the mask is `(sequence, sequence)`.
pub open spec fn spec_attention_shape(
    data: (usize, usize),
    weights: (usize, usize),
    mask: (usize, usize),
) -> Option<(usize, usize)> {
    if data == weights && mask == (data.0, data.0) {
        Some(data)
    } else {
        None
    }
}

/// The output shape of an attention head, or an error where the data, the
/// weights and the mask do not fit together.
pub fn attention_shape(data: (usize, usize), weights: (usize, usize), mask: (usize, usize)) -> (r: Result<
    (usize, usize),
    ShapeError,
>)
    ensures
        r is Ok <==> spec_attention_shape(data, weights, mask) is Some,
        r is Ok ==> Some(r->Ok_0) == spec_attention_shape(data, weights, mask),
        r is Err ==> r->Err_0 == ShapeError::IncompatibleShape,
{
    let d = same_shape(data, weights)?;
    let scores = dot_shape(d, (d.1, d.0))?;
    same_shape(mask, scores)?;
    dot_shape(scores, d)
}

/// The number of elements of a `(rows, columns)` matrix, where it fits in a
/// `usize`.
pub fn element_count(shape: (usize, usize)) -> (r: Result<usize, ShapeError>)
    ensures
        r is Ok <==> shape.0 * shape.1 <= usize::MAX,
        r is Ok ==> r->Ok_0 == shape.0 * shape.1,
        r is Err ==> r->Err_0 == ShapeError::Overflow,
{
    match shape.0.checked_mul(shape.1) {
        Some(n) => Ok(n),
        None => Err(ShapeError::Overflow),
    }
}

} // verus!
