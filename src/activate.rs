//! Activation functions applied after a layer's affine transform.
use vstd::prelude::*;

verus! {

/// An activation that can name its method.
pub trait ActivationMethod {
    fn method_name(&self) -> &str;
}

/// An activation: a map from one value to another.
pub trait Activate<T> {
    fn activate(&self, x: T) -> T;
}

/// The identity activation.
#[derive(Clone, Copy, Debug, Default, PartialEq, Eq, Hash, PartialOrd, Ord, Structural)]
pub struct LinearActivation;

impl<T> Activate<T> for LinearActivation {
    fn activate(&self, x: T) -> (r: T)
        ensures
            r == x,
    {
        x
    }
}

impl ActivationMethod for LinearActivation {
    fn method_name(&self) -> (r: &str)
        ensures
            r@ == "linear"@,
    {
        "linear"
    }
}

/// The identity: a copy of `x`.
pub fn linear_activation<T: Clone>(x: &T) -> (r: T)
    ensures
        cloned(*x, r),
{
    x.clone()
}

/// The step function: one where `x` is positive, else zero.
pub open spec fn spec_heavyside(x: i64) -> i64 {
    if x > 0 {
        1
    } else {
        0
    }
}

/// The step function: one where `x` is positive, else zero.
pub fn heavyside(x: &i64) -> (r: i64)
    ensures
        r == spec_heavyside(*x),
{
    if *x > 0 {
        1
    } else {
        0
    }
}

} // verus!
