//! Small capability traits shared by the numeric types.
use vstd::prelude::*;
use crate::features;
use crate::layers::LayerShape;
use crate::layout;

verus! {

/// A number with a zero and a one.
pub trait BinaryNum: Sized {
    fn zero() -> Self;

    fn one() -> Self;
}

impl BinaryNum for i64 {
    fn zero() -> (r: i64)
        ensures
            r == 0,
    {
        0
    }

    fn one() -> (r: i64)
        ensures
            r == 1,
    {
        1
    }
}

/// A value that reads as a pair.
pub trait Pair<A, B> {
    fn pair(&self) -> (A, B);
}

impl Pair<usize, usize> for features::Features {
    /// The weight shape `(outputs, inputs)`.
    fn pair(&self) -> (r: (usize, usize))
        ensures
            r == (self.outputs, self.inputs),
    {
        (self.outputs, self.inputs)
    }
}

impl Pair<usize, usize> for layout::Features {
    /// The weight shape `(features, dmodel)`.
    fn pair(&self) -> (r: (usize, usize))
        ensures
            r == (self.features, self.dmodel),
    {
        (self.features, self.dmodel)
    }
}

impl Pair<usize, usize> for LayerShape {
    /// The shape as `(inputs, outputs)`.
    fn pair(&self) -> (r: (usize, usize))
        ensures
            r == (self.inputs, self.outputs),
    {
        (self.inputs, self.outputs)
    }
}

/// The product of a sequence of integers; one for the empty sequence.
pub open spec fn seq_product(s: Seq<i32>) -> int
    decreases s.len(),
{
    if s.len() == 0 {
        1
    } else {
        seq_product(s.drop_last()) * s.last()
    }
}

/// Every running product of `s`, from the left, fits in an `i32`.
pub open spec fn product_fits(s: Seq<i32>) -> bool {
    forall|k: int|
        0 <= k <= s.len() ==> i32::MIN <= #[trigger] seq_product(s.subrange(0, k)) <= i32::MAX
}

/// A collection whose items can be multiplied together.
pub trait Product {
    type Item;

    /// The product can be computed without overflow.
    spec fn spec_product_fits(&self) -> bool;

    fn product(&self) -> Self::Item
        requires
            self.spec_product_fits(),
    ;
}

impl Product for Vec<i32> {
    type Item = i32;

    open spec fn spec_product_fits(&self) -> bool {
        product_fits(self@)
    }

    fn product(&self) -> (r: i32)
        ensures
            r == seq_product(self@),
    {
        let mut res: i32 = 1;
        let mut i: usize = 0;
        assert(self@.subrange(0, 0) =~= Seq::<i32>::empty());
        while i < self.len()
            invariant
                i <= self@.len(),
                product_fits(self@),
                res == seq_product(self@.subrange(0, i as int)),
            decreases self@.len() - i,
        {
            assert(self@.subrange(0, i + 1).drop_last() =~= self@.subrange(0, i as int));
            assert(i32::MIN <= seq_product(self@.subrange(0, i + 1)) <= i32::MAX);
            res = res * self[i];
            i = i + 1;
        }
        assert(self@.subrange(0, self@.len() as int) =~= self@);
        res
    }
}

/// An affine map `x * mul + add`.
pub trait Affine<T>: Sized {
    type Error;

    fn affine(&self, mul: T, add: T) -> Result<Self, Self::Error>;
}

/// A matrix that may have an inverse.
pub trait Inverse<T>: Sized {
    fn inverse(&self) -> Option<Self>;
}

/// An array that can make arrays of its own shape.
pub trait ArrayLike: Sized {
    fn ones_like(&self) -> Self;

    fn zeros_like(&self) -> Self;
}

/// The coordinates of a vector.
#[derive(Clone, Debug, PartialEq, Eq, PartialOrd, Ord)]
pub struct VectorSpace<T>(pub Vec<T>);

} // verus!
