//! The shape of a layer, and the traits of anything that has one.
use vstd::prelude::*;
use crate::features::{ix2_into_pattern, ix2_pattern, make_ix2};

verus! {

/// Anything with a number of inputs and outputs.
pub trait Features {
    fn inputs(&self) -> usize;

    fn outputs(&self) -> usize;

    fn in_by_out(&self) -> (usize, usize) {
        (self.inputs(), self.outputs())
    }

    fn out_by_in(&self) -> (usize, usize) {
        (self.outputs(), self.inputs())
    }
}

/// Features that can be built from a number of inputs and outputs.
pub trait FeaturesExt: Features + Sized {
    fn new(inputs: usize, outputs: usize) -> Self;

    fn single(inputs: usize) -> Self {
        Self::new(inputs, 1)
    }
}

/// Values that can be built from a layer shape.
pub trait FromFeatures<Sh: Features>: Sized {
    fn from_features(features: LayerShape) -> Self;
}

/// Values that can be turned into a layer shape.
pub trait IntoFeatures {
    fn into_features(self) -> LayerShape;
}

impl<S: Into<LayerShape>> IntoFeatures for S {
    fn into_features(self) -> LayerShape {
        self.into()
    }
}

/// The number of inputs and outputs of a layer.
#[derive(Clone, Copy, Debug, Default, PartialEq, Eq, Hash, PartialOrd, Ord, Structural)]
pub struct LayerShape {
    pub inputs: usize,
    pub outputs: usize,
}

impl LayerShape {
    pub fn new(inputs: usize, outputs: usize) -> (r: Self)
        ensures
            r.inputs == inputs,
            r.outputs == outputs,
    {
        LayerShape { inputs, outputs }
    }

    /// A single neuron: `inputs` inputs and one output.
    pub fn neuron(inputs: usize) -> (r: Self)
        ensures
            r.inputs == inputs,
            r.outputs == 1,
    {
        Self::new(inputs, 1)
    }

    pub fn inputs(&self) -> (r: usize)
        ensures
            r == self.inputs,
    {
        self.inputs
    }

    pub fn outputs(&self) -> (r: usize)
        ensures
            r == self.outputs,
    {
        self.outputs
    }

    pub fn in_by_out(&self) -> (r: (usize, usize))
        ensures
            r == (self.inputs, self.outputs),
    {
        (self.inputs, self.outputs)
    }

    pub fn out_by_in(&self) -> (r: (usize, usize))
        ensures
            r == (self.outputs, self.inputs),
    {
        (self.outputs, self.inputs)
    }

    /// Reads a shape from a weight dimension `(outputs, inputs)`.
    pub fn from_dimension(dim: ndarray::Ix2) -> (r: Self)
        ensures
            (r.outputs, r.inputs) == ix2_pattern(dim),
    {
        let (outputs, inputs) = ix2_into_pattern(dim);
        Self::new(inputs, outputs)
    }

    /// The weight dimension `(outputs, inputs)`: one row per output.
    pub fn into_dimension(self) -> (r: ndarray::Ix2)
        ensures
            ix2_pattern(r) == (self.outputs, self.inputs),
    {
        make_ix2(self.outputs, self.inputs)
    }

    /// Whether a layer of this shape can feed a layer of shape `next`.
    pub open spec fn spec_feeds(self, next: LayerShape) -> bool {
        self.outputs == next.inputs
    }
}

impl Features for LayerShape {
    fn inputs(&self) -> (r: usize)
        ensures
            r == self.inputs,
    {
        self.inputs
    }

    fn outputs(&self) -> (r: usize)
        ensures
            r == self.outputs,
    {
        self.outputs
    }
}

impl FeaturesExt for LayerShape {
    fn new(inputs: usize, outputs: usize) -> (r: Self)
        ensures
            r.inputs == inputs,
            r.outputs == outputs,
    {
        LayerShape { inputs, outputs }
    }
}

impl From<(usize, usize)> for LayerShape {
    fn from(p: (usize, usize)) -> (r: LayerShape) {
        LayerShape { inputs: p.0, outputs: p.1 }
    }
}

impl vstd::std_specs::convert::FromSpecImpl<(usize, usize)> for LayerShape {
    open spec fn obeys_from_spec() -> bool {
        true
    }

    open spec fn from_spec(p: (usize, usize)) -> LayerShape {
        LayerShape { inputs: p.0, outputs: p.1 }
    }
}

impl From<LayerShape> for (usize, usize) {
    fn from(s: LayerShape) -> (r: (usize, usize)) {
        (s.inputs, s.outputs)
    }
}

impl vstd::std_specs::convert::FromSpecImpl<LayerShape> for (usize, usize) {
    open spec fn obeys_from_spec() -> bool {
        true
    }

    open spec fn from_spec(s: LayerShape) -> (usize, usize) {
        (s.inputs, s.outputs)
    }
}

impl From<[usize; 2]> for LayerShape {
    fn from(a: [usize; 2]) -> (r: LayerShape) {
        LayerShape { inputs: a[1], outputs: a[0] }
    }
}

impl vstd::std_specs::convert::FromSpecImpl<[usize; 2]> for LayerShape {
    open spec fn obeys_from_spec() -> bool {
        true
    }

    open spec fn from_spec(a: [usize; 2]) -> LayerShape {
        LayerShape { inputs: a@[1], outputs: a@[0] }
    }
}

impl From<LayerShape> for [usize; 2] {
    fn from(s: LayerShape) -> (r: [usize; 2]) {
        [s.outputs, s.inputs]
    }
}

impl vstd::std_specs::convert::FromSpecImpl<LayerShape> for [usize; 2] {
    open spec fn obeys_from_spec() -> bool {
        true
    }

    open spec fn from_spec(s: LayerShape) -> [usize; 2] {
        [s.outputs, s.inputs]
    }
}

impl From<usize> for LayerShape {
    fn from(inputs: usize) -> (r: LayerShape) {
        LayerShape { inputs, outputs: 1 }
    }
}

impl vstd::std_specs::convert::FromSpecImpl<usize> for LayerShape {
    open spec fn obeys_from_spec() -> bool {
        true
    }

    open spec fn from_spec(inputs: usize) -> LayerShape {
        LayerShape { inputs, outputs: 1 }
    }
}

} // verus!
