//! Activation traits of single neurons.
use vstd::prelude::*;

verus! {

/// An activation applied to one value.
pub trait Activate<T> {
    fn activate(&self, x: T) -> T;
}

/// A value that can be activated by an activator.
pub trait Activable<T> {
    fn activate<R: Activator<T>>(&self, rho: R) -> T;
}

/// A method of activation.
pub trait ActivateMethod<T> {
    fn activate(&self, x: T) -> T;
}

/// An activation given by its function `rho`.
pub trait Activator<T> {
    fn activate(&self, x: T) -> T {
        Self::rho(x)
    }

    fn rho(x: T) -> T;
}

/// The identity activator.
#[derive(Clone, Copy, Debug, Default, PartialEq, Eq, Hash, Structural)]
pub struct Linear;

impl<T> Activator<T> for Linear {
    fn rho(x: T) -> (r: T)
        ensures
            r == x,
    {
        x
    }
}

} // verus!
