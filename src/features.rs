//! Layer features: the number of inputs and outputs of a linear layer.
//!
//! A weight matrix for these features has `outputs` rows and `inputs`
//! columns, so the dimension of a `Features` value is `(outputs, inputs)`.
use vstd::prelude::*;
use crate::shape::ShapeError;

verus! {

#[verifier::external_type_specification]
#[verifier::external_body]
#[verifier::reject_recursive_types(I)]
pub struct ExDim<I: ?Sized>(ndarray::Dim<I>);

/// The `(rows, columns)` pattern held by a two-dimensional index.
pub uninterp spec fn ix2_pattern(d: ndarray::Ix2) -> (usize, usize);

/// Relies on `ndarray::Ix2`: it builds the index `[i0, i1]`.
#[verifier::external_body]
pub(crate) fn make_ix2(i0: usize, i1: usize) -> (r: ndarray::Ix2)
    ensures
        ix2_pattern(r) == (i0, i1),
{
    ndarray::Ix2(i0, i1)
}

/// Relies on `ndarray::Dimension::into_pattern` for `Ix2`: it returns the two
/// components in order.
#[verifier::external_body]
pub(crate) fn ix2_into_pattern(d: ndarray::Ix2) -> (r: (usize, usize))
    ensures
        r == ix2_pattern(d),
{
    ndarray::Dimension::into_pattern(d)
}

/// The inputs and outputs of a linear layer.
#[derive(Clone, Copy, Debug, Default, PartialEq, Eq, Hash, PartialOrd, Ord, Structural)]
pub struct Features {
    pub inputs: usize,
    pub outputs: usize,
}

impl Features {
    pub fn new(inputs: usize, outputs: usize) -> (r: Self)
        ensures
            r.inputs == inputs,
            r.outputs == outputs,
    {
        Features { inputs, outputs }
    }

    /// Reads features from a weight dimension `(outputs, inputs)`.
    pub fn from_dimension(dim: ndarray::Ix2) -> (r: Self)
        ensures
            (r.outputs, r.inputs) == ix2_pattern(dim),
    {
        let (outputs, inputs) = ix2_into_pattern(dim);
        Self::new(inputs, outputs)
    }

    /// The weight dimension `(outputs, inputs)` of these features.
    pub fn into_dimension(self) -> (r: ndarray::Ix2)
        ensures
            ix2_pattern(r) == (self.outputs, self.inputs),
    {
        make_ix2(self.outputs, self.inputs)
    }
    /// A single neuron: `inputs` inputs and one output.
    pub fn neuron(inputs: usize) -> (r: Self)
        ensures
            r.inputs == inputs,
            r.outputs == 1,
    {
        Self::new(inputs, 1)
    }

    pub fn inputs(&self) -> (r: usize)
        ensures
            r == self.inputs,
    {
        self.inputs
    }

    pub fn outputs(&self) -> (r: usize)
        ensures
            r == self.outputs,
    {
        self.outputs
    }

    /// Reads features from the axes of a shape: one axis is a single
    /// neuron over that many inputs, two or more are `(outputs, inputs, ..)`.
    pub fn from_shape_slice(shape: &[usize]) -> (r: Result<Self, ShapeError>)
        ensures
            shape@.len() == 0 <==> r is Err,
            r is Err ==> r->Err_0 == ShapeError::IncompatibleShape,
            shape@.len() == 1 ==> r == Ok::<Self, ShapeError>(Features { inputs: shape@[0], outputs: 1 }),
            shape@.len() >= 2 ==> r == Ok::<Self, ShapeError>(Features { inputs: shape@[1], outputs: shape@[0] }),
    {
        if shape.len() == 1 {
            Ok(Self::new(shape[0], 1))
        } else if shape.len() >= 2 {
            Ok(Self::new(shape[1], shape[0]))
        } else {
            Err(ShapeError::IncompatibleShape)
        }
    }

    /// The weight shape `(outputs, inputs)` as a pair.
    pub open spec fn spec_pattern(self) -> (usize, usize) {
        (self.outputs, self.inputs)
    }

    /// The features of a weight shape `(outputs, inputs)`.
    pub open spec fn spec_from_pattern(p: (usize, usize)) -> Features {
        Features { inputs: p.1, outputs: p.0 }
    }
}

impl From<Features> for (usize, usize) {
    fn from(f: Features) -> (r: (usize, usize)) {
        (f.outputs, f.inputs)
    }
}

impl vstd::std_specs::convert::FromSpecImpl<Features> for (usize, usize) {
    open spec fn obeys_from_spec() -> bool {
        true
    }

    open spec fn from_spec(f: Features) -> (usize, usize) {
        f.spec_pattern()
    }
}

impl From<(usize, usize)> for Features {
    fn from(p: (usize, usize)) -> (r: Features) {
        Features { inputs: p.1, outputs: p.0 }
    }
}

impl vstd::std_specs::convert::FromSpecImpl<(usize, usize)> for Features {
    open spec fn obeys_from_spec() -> bool {
        true
    }

    open spec fn from_spec(p: (usize, usize)) -> Features {
        Features::spec_from_pattern(p)
    }
}

impl From<Features> for [usize; 2] {
    fn from(f: Features) -> (r: [usize; 2]) {
        [f.outputs, f.inputs]
    }
}

impl vstd::std_specs::convert::FromSpecImpl<Features> for [usize; 2] {
    open spec fn obeys_from_spec() -> bool {
        true
    }

    open spec fn from_spec(f: Features) -> [usize; 2] {
        [f.outputs, f.inputs]
    }
}

impl From<[usize; 2]> for Features {
    fn from(a: [usize; 2]) -> (r: Features) {
        Features { inputs: a[1], outputs: a[0] }
    }
}

impl vstd::std_specs::convert::FromSpecImpl<[usize; 2]> for Features {
    open spec fn obeys_from_spec() -> bool {
        true
    }

    open spec fn from_spec(a: [usize; 2]) -> Features {
        Features { inputs: a@[1], outputs: a@[0] }
    }
}

impl From<usize> for Features {
    fn from(inputs: usize) -> (r: Features) {
        Features { inputs, outputs: 1 }
    }
}

impl vstd::std_specs::convert::FromSpecImpl<usize> for Features {
    open spec fn obeys_from_spec() -> bool {
        true
    }

    open spec fn from_spec(inputs: usize) -> Features {
        Features { inputs, outputs: 1 }
    }
}

/// Converting features to a weight dimension, a pair or an array and back
/// gives the same features.
pub proof fn lemma_features_round_trip(f: Features, d: ndarray::Ix2)
    requires
        ix2_pattern(d) == f.spec_pattern(),
    ensures
        Features::spec_from_pattern(ix2_pattern(d)) == f,
        <Features as vstd::std_specs::convert::FromSpec<(usize, usize)>>::from_spec(
            <(usize, usize) as vstd::std_specs::convert::FromSpec<Features>>::from_spec(f),
        ) == f,
        <Features as vstd::std_specs::convert::FromSpec<[usize; 2]>>::from_spec(
            <[usize; 2] as vstd::std_specs::convert::FromSpec<Features>>::from_spec(f),
        ) == f,
{
}

} // verus!
