//! A network of two linear layers.
use vstd::prelude::*;
use crate::layers::LayerShape;
use crate::linear::Linear;

verus! {

/// An input layer whose outputs feed an output layer.
#[derive(Clone, Debug)]
pub struct ShallowNetwork<T, I, O> {
    pub input: Linear<T, I>,
    pub output: Linear<T, O>,
}

impl<T, I, O> ShallowNetwork<T, I, O> {
    pub fn new(input: Linear<T, I>, output: Linear<T, O>) -> (r: Self)
        ensures
            r.input == input,
            r.output == output,
    {
        ShallowNetwork { input, output }
    }

    pub fn input(&self) -> (r: &Linear<T, I>)
        ensures
            *r == self.input,
    {
        &self.input
    }

    pub fn output(&self) -> (r: &Linear<T, O>)
        ensures
            *r == self.output,
    {
        &self.output
    }

    /// Whether the outputs of the input layer are the inputs of the output
    /// layer.
    pub fn validate_dims(&self) -> (r: bool)
        ensures
            r == self.input.spec_features().spec_feeds(self.output.spec_features()),
    {
        let a: LayerShape = self.input.features();
        let b: LayerShape = self.output.features();
        a.outputs() == b.inputs()
    }
}

} // verus!
