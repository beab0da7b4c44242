//! Model layout: the model dimension and the number of features it is
//! projected onto. The matching weight dimension is `(features, dmodel)`.
use vstd::prelude::*;
use crate::features::{ix2_into_pattern, ix2_pattern, make_ix2};
use crate::shape::ShapeError;

verus! {

/// The features read from the axes of a shape, if it has any.
pub open spec fn spec_layout_of(dim: Seq<usize>) -> Option<Features> {
    if dim.len() == 1 {
        Some(Features { dmodel: dim[0], features: 1 })
    } else if dim.len() >= 2 {
        Some(Features { dmodel: dim[1], features: dim[0] })
    } else {
        None
    }
}

/// Reads features from the axes of a shape: one axis gives a single
/// feature over a model dimension of that length, two or more give
/// `(features, dmodel, ..)`.
pub fn features(dim: &[usize]) -> (r: Result<Features, ShapeError>)
    ensures
        r is Ok <==> spec_layout_of(dim@) is Some,
        r is Ok ==> Some(r->Ok_0) == spec_layout_of(dim@),
        r is Err ==> r->Err_0 == ShapeError::IncompatibleShape,
{
    if dim.len() == 1 {
        Ok(Features::new(1, dim[0]))
    } else if dim.len() >= 2 {
        Ok(Features::new(dim[0], dim[1]))
    } else {
        Err(ShapeError::IncompatibleShape)
    }
}

/// The model dimension (inputs) and the number of features (outputs).
#[derive(Clone, Copy, Debug, Default, PartialEq, Eq, Hash, PartialOrd, Ord, Structural)]
pub struct Features {
    pub dmodel: usize,
    pub features: usize,
}

impl Features {
    pub fn new(features: usize, dmodel: usize) -> (r: Self)
        ensures
            r.features == features,
            r.dmodel == dmodel,
    {
        Features { dmodel, features }
    }

    /// Reads features from the axes of a shape, which has at least one:
    /// one axis gives a single feature over a model dimension of that
    /// length, two or more give `(features, dmodel, ..)`.
    pub fn from_dim(dim: &[usize]) -> (r: Self)
        requires
            dim@.len() >= 1,
        ensures
            Some(r) == spec_layout_of(dim@),
    {
        match features(dim) {
            Ok(f) => f,
            Err(_) => Features::new(0, 0),
        }
    }

    /// Reads features from a weight dimension `(features, dmodel)`.
    pub fn from_dimension(dim: ndarray::Ix2) -> (r: Self)
        ensures
            (r.features, r.dmodel) == ix2_pattern(dim),
    {
        let (features, dmodel) = ix2_into_pattern(dim);
        Self::new(features, dmodel)
    }

    /// The weight dimension `(features, dmodel)`.
    pub fn into_dimension(self) -> (r: ndarray::Ix2)
        ensures
            ix2_pattern(r) == (self.features, self.dmodel),
    {
        make_ix2(self.features, self.dmodel)
    }

    /// The weight dimension `(features, dmodel)`.
    pub fn into_pattern(self) -> (r: (usize, usize))
        ensures
            r == (self.features, self.dmodel),
    {
        (self.features, self.dmodel)
    }

    /// A single neuron over `inputs` model dimensions.
    pub fn neuron(inputs: usize) -> (r: Self)
        ensures
            r.features == 1,
            r.dmodel == inputs,
    {
        Self::new(1, inputs)
    }

    pub fn dmodel(&self) -> (r: usize)
        ensures
            r == self.dmodel,
    {
        self.dmodel
    }

    pub fn features(&self) -> (r: usize)
        ensures
            r == self.features,
    {
        self.features
    }
}

impl From<(usize, usize)> for Features {
    fn from(p: (usize, usize)) -> (r: Features) {
        Features::new(p.0, p.1)
    }
}

impl vstd::std_specs::convert::FromSpecImpl<(usize, usize)> for Features {
    open spec fn obeys_from_spec() -> bool {
        true
    }

    open spec fn from_spec(p: (usize, usize)) -> Features {
        Features { features: p.0, dmodel: p.1 }
    }
}

impl From<Features> for (usize, usize) {
    fn from(f: Features) -> (r: (usize, usize)) {
        (f.features, f.dmodel)
    }
}

impl vstd::std_specs::convert::FromSpecImpl<Features> for (usize, usize) {
    open spec fn obeys_from_spec() -> bool {
        true
    }

    open spec fn from_spec(f: Features) -> (usize, usize) {
        (f.features, f.dmodel)
    }
}

impl From<usize> for Features {
    fn from(inputs: usize) -> (r: Features) {
        Features::new(1, inputs)
    }
}

impl vstd::std_specs::convert::FromSpecImpl<usize> for Features {
    open spec fn obeys_from_spec() -> bool {
        true
    }

    open spec fn from_spec(inputs: usize) -> Features {
        Features { features: 1, dmodel: inputs }
    }
}

impl From<[usize; 2]> for Features {
    fn from(a: [usize; 2]) -> (r: Features) {
        Features::new(a[0], a[1])
    }
}

impl vstd::std_specs::convert::FromSpecImpl<[usize; 2]> for Features {
    open spec fn obeys_from_spec() -> bool {
        true
    }

    open spec fn from_spec(a: [usize; 2]) -> Features {
        Features { features: a@[0], dmodel: a@[1] }
    }
}

impl From<Features> for [usize; 2] {
    fn from(f: Features) -> (r: [usize; 2]) {
        [f.features, f.dmodel]
    }
}

impl vstd::std_specs::convert::FromSpecImpl<Features> for [usize; 2] {
    open spec fn obeys_from_spec() -> bool {
        true
    }

    open spec fn from_spec(f: Features) -> [usize; 2] {
        [f.features, f.dmodel]
    }
}

/// Converting layout features to a weight dimension, a pair or an array and
/// back gives the same features.
pub proof fn lemma_layout_round_trip(f: Features, d: ndarray::Ix2)
    requires
        ix2_pattern(d) == (f.features, f.dmodel),
    ensures
        (Features { features: ix2_pattern(d).0, dmodel: ix2_pattern(d).1 }) == f,
        <Features as vstd::std_specs::convert::FromSpec<(usize, usize)>>::from_spec(
            <(usize, usize) as vstd::std_specs::convert::FromSpec<Features>>::from_spec(f),
        ) == f,
        <Features as vstd::std_specs::convert::FromSpec<[usize; 2]>>::from_spec(
            <[usize; 2] as vstd::std_specs::convert::FromSpec<Features>>::from_spec(f),
        ) == f,
{
}

} // verus!
