//! Parameters of a linear layer: a weight matrix of shape
//! `(outputs, inputs)`, stored row by row, and a bias of length `outputs`
//! that is present exactly when the parameters are biased.
use vstd::prelude::*;
use vstd::std_specs::cmp::PartialEqSpec;
use crate::features::Features;
use crate::shape::{PredictError, ShapeError};

verus! {

/// Whether parameters carry a bias.
#[derive(Clone, Copy, Debug, PartialEq, Eq, Hash, Structural)]
pub enum ParamMode {
    Biased,
    Unbiased,
}

impl ParamMode {
    pub fn from_biased(biased: bool) -> (r: Self)
        ensures
            (r == ParamMode::Biased) == biased,
    {
        if biased {
            ParamMode::Biased
        } else {
            ParamMode::Unbiased
        }
    }

    pub fn is_biased(&self) -> (r: bool)
        ensures
            r == (*self == ParamMode::Biased),
    {
        match self {
            ParamMode::Biased => true,
            ParamMode::Unbiased => false,
        }
    }
}

/// The number of weights of `features`: `outputs * inputs`.
pub open spec fn weight_count(features: Features) -> int {
    features.outputs * features.inputs
}

/// The position of weight `(o, i)` in the row-by-row storage.
pub open spec fn weight_index(features: Features, o: int, i: int) -> int {
    o * features.inputs + i
}

proof fn lemma_row_range(features: Features, o: int)
    requires
        0 <= o < features.outputs,
    ensures
        0 <= o * features.inputs,
        o * features.inputs + features.inputs <= weight_count(features),
{
    let n = features.inputs as int;
    let m = features.outputs as int;
    assert(0 <= o * n) by (nonlinear_arith)
        requires 0 <= o, 0 <= n;
    assert(o * n + n <= m * n) by (nonlinear_arith)
        requires 0 <= o < m, 0 <= n;
}

/// A `len`-long sequence that holds `value` everywhere.
pub open spec fn filled_seq<T>(len: int, value: T) -> Seq<T> {
    Seq::new(len as nat, |_k: int| value)
}

/// A vector of `len` copies of `value`.
fn filled_vec<T: Copy>(len: usize, value: T) -> (r: Vec<T>)
    ensures
        r@ == filled_seq(len as int, value),
{
    let mut v: Vec<T> = Vec::new();
    let mut k: usize = 0;
    while k < len
        invariant
            k <= len,
            v@ == filled_seq(k as int, value),
        decreases len - k,
    {
        v.push(value);
        k = k + 1;
        assert(v@ =~= filled_seq(k as int, value));
    }
    v
}

/// Weights and an optional bias for a layer with the given features.
#[derive(Clone, Debug)]
pub struct Params<T> {
    features: Features,
    mode: ParamMode,
    weights: Vec<T>,
    bias: Option<Vec<T>>,
}

impl<T> Params<T> {
    /// The weights have `outputs * inputs` entries, and the bias, present
    /// exactly when the mode is biased, has `outputs`.
    pub closed spec fn wf(self) -> bool {
        &&& weight_count(self.features) <= usize::MAX
        &&& self.weights@.len() == weight_count(self.features)
        &&& (self.mode == ParamMode::Biased) == (self.bias is Some)
        &&& self.bias is Some ==> self.bias->0@.len() == self.features.outputs
    }

    pub closed spec fn spec_features(self) -> Features {
        self.features
    }

    pub closed spec fn spec_mode(self) -> ParamMode {
        self.mode
    }

    /// The weights, row by row: weight `(o, i)` stands at `o * inputs + i`.
    pub closed spec fn spec_weights(self) -> Seq<T> {
        self.weights@
    }

    pub closed spec fn spec_bias(self) -> Option<Seq<T>> {
        match self.bias {
            Some(b) => Some(b@),
            None => None,
        }
    }

    /// The weights of output `o`.
    pub open spec fn spec_row(self, o: int) -> Seq<T> {
        let n = self.spec_features().inputs as int;
        self.spec_weights().subrange(o * n, o * n + n)
    }

    /// These parameters are `before` with the weights of output `idx`
    /// replaced by `row`, the other rows kept, and bias entry `idx` set to
    /// the given value where both a bias and a value are present.
    pub open spec fn spec_node_replaced(self, before: Self, idx: int, row: Seq<T>, bias: Option<T>) -> bool {
        let n = before.spec_features().inputs as int;
        let start = idx * n;
        &&& self.spec_weights() == before.spec_weights().subrange(0, start) + row
            + before.spec_weights().subrange(start + n, before.spec_weights().len() as int)
        &&& self.spec_bias() == (match (before.spec_bias(), bias) {
            (Some(b), Some(v)) => Some(b.update(idx, v)),
            (ob, _) => ob,
        })
    }

    /// Every weight and bias entry is `value`, the bias being present
    /// exactly when `biased`.
    pub open spec fn spec_filled_with(self, biased: bool, features: Features, value: T) -> bool {
        &&& self.spec_features() == features
        &&& (self.spec_mode() == ParamMode::Biased) == biased
        &&& self.spec_weights() == filled_seq(weight_count(features), value)
        &&& self.spec_bias() == (if biased {
            Some(filled_seq(features.outputs as int, value))
        } else {
            None
        })
    }
}

impl<T: Copy> Params<T> {
    /// Parameters whose every weight and bias entry is `value`.
    pub fn filled(biased: bool, features: Features, value: T) -> (r: Self)
        requires
            features.outputs * features.inputs <= usize::MAX,
        ensures
            r.wf(),
            r.spec_filled_with(biased, features, value),
    {
        let n = features.outputs * features.inputs;
        let weights = filled_vec(n, value);
        let bias = if biased {
            Some(filled_vec(features.outputs, value))
        } else {
            None
        };
        Params { features, mode: ParamMode::from_biased(biased), weights, bias }
    }

    /// Parameters filled with the default value of `T` (zero for numbers).
    pub fn zeros(biased: bool, features: Features) -> (r: Self)
        where
            T: Default,
        requires
            features.outputs * features.inputs <= usize::MAX,
        ensures
            r.wf(),
            exists|zero: T| call_ensures(T::default, (), zero) && r.spec_filled_with(biased, features, zero),
    {
        let zero = T::default();
        let r = Self::filled(biased, features, zero);
        assert(r.spec_filled_with(biased, features, zero));
        r
    }

    /// Weight `(o, i)`: the weight from input `i` to output `o`.
    pub fn weight(&self, o: usize, i: usize) -> (r: T)
        requires
            self.wf(),
            o < self.spec_features().outputs,
            i < self.spec_features().inputs,
        ensures
            r == self.spec_weights()[weight_index(self.spec_features(), o as int, i as int)],
    {
        proof {
            lemma_row_range(self.features, o as int);
        }
        self.weights[o * self.features.inputs + i]
    }

    /// Replaces weight `(o, i)` by `value`.
    pub fn set_weight(&mut self, o: usize, i: usize, value: T)
        requires
            old(self).wf(),
            o < old(self).spec_features().outputs,
            i < old(self).spec_features().inputs,
        ensures
            final(self).wf(),
            final(self).spec_features() == old(self).spec_features(),
            final(self).spec_mode() == old(self).spec_mode(),
            final(self).spec_bias() == old(self).spec_bias(),
            final(self).spec_weights() == old(self).spec_weights().update(
                weight_index(old(self).spec_features(), o as int, i as int),
                value,
            ),
    {
        proof {
            lemma_row_range(self.features, o as int);
        }
        let k = o * self.features.inputs + i;
        self.weights.set(k, value);
    }

    /// The weights of output `idx` and its bias entry, if any.
    pub fn node(&self, idx: usize) -> (r: (Vec<T>, Option<T>))
        requires
            self.wf(),
            idx < self.spec_features().outputs,
        ensures
            r.0@ == self.spec_row(idx as int),
            r.1 == (match self.spec_bias() {
                Some(b) => Some(b[idx as int]),
                None => None,
            }),
    {
        let n = self.features.inputs;
        proof {
            lemma_row_range(self.features, idx as int);
        }
        let start = idx * n;
        let mut row: Vec<T> = Vec::new();
        let mut k: usize = 0;
        while k < n
            invariant
                self.wf(),
                n == self.features.inputs,
                start == idx * n,
                start + n <= self.weights@.len(),
                k <= n,
                row@ == self.weights@.subrange(start as int, start + k),
            decreases n - k,
        {
            row.push(self.weights[start + k]);
            k = k + 1;
            assert(row@ =~= self.weights@.subrange(start as int, start + k));
        }
        let b = match &self.bias {
            Some(b) => Some(b[idx]),
            None => None,
        };
        (row, b)
    }
}

impl<T> Params<T> {
    /// Parameters from a weight matrix stored row by row and an optional
    /// bias; the parameters are biased exactly when a bias is given.
    pub fn from_parts(features: Features, weights: Vec<T>, bias: Option<Vec<T>>) -> (r: Result<
        Self,
        ShapeError,
    >)
        ensures
            r is Ok <==> (weights@.len() == weight_count(features) && match bias {
                Some(b) => b@.len() == features.outputs,
                None => true,
            }),
            r is Ok ==> {
                let p = r->Ok_0;
                &&& p.wf()
                &&& p.spec_features() == features
                &&& p.spec_weights() == weights@
                &&& p.spec_bias() == (match bias {
                    Some(b) => Some(b@),
                    None => None::<Seq<T>>,
                })
                &&& (p.spec_mode() == ParamMode::Biased) == (bias is Some)
            },
            r is Err ==> r->Err_0 == ShapeError::IncompatibleShape,
    {
        let len = weights.len();
        let count = match features.outputs.checked_mul(features.inputs) {
            Some(n) => n,
            None => {
                return Err(ShapeError::IncompatibleShape);
            },
        };
        if len != count {
            return Err(ShapeError::IncompatibleShape);
        }
        let mode = match &bias {
            Some(b) => {
                if b.len() != features.outputs {
                    return Err(ShapeError::IncompatibleShape);
                }
                ParamMode::Biased
            },
            None => ParamMode::Unbiased,
        };
        Ok(Params { features, mode, weights, bias })
    }

    pub fn features(&self) -> (r: Features)
        ensures
            r == self.spec_features(),
    {
        self.features
    }

    pub fn mode(&self) -> (r: ParamMode)
        ensures
            r == self.spec_mode(),
    {
        self.mode
    }

    pub fn is_biased(&self) -> (r: bool)
        requires
            self.wf(),
        ensures
            r == (self.spec_mode() == ParamMode::Biased),
            r == (self.spec_bias() is Some),
    {
        self.mode.is_biased()
    }

    /// The shape `(outputs, inputs)` of the weight matrix.
    pub fn dim(&self) -> (r: (usize, usize))
        ensures
            r == (self.spec_features().outputs, self.spec_features().inputs),
    {
        (self.features.outputs, self.features.inputs)
    }

    /// The weights, row by row.
    pub fn weights(&self) -> (r: &Vec<T>)
        requires
            self.wf(),
        ensures
            r@ == self.spec_weights(),
            r@.len() == weight_count(self.spec_features()),
    {
        &self.weights
    }

    pub fn bias(&self) -> (r: Option<&Vec<T>>)
        requires
            self.wf(),
        ensures
            r is Some <==> self.spec_bias() is Some,
            r is Some ==> r->0@ == self.spec_bias()->0,
            r is Some ==> r->0@.len() == self.spec_features().outputs,
    {
        match &self.bias {
            Some(b) => Some(b),
            None => None,
        }
    }

    /// The features, the weights row by row, and the bias.
    pub fn into_parts(self) -> (r: (Features, Vec<T>, Option<Vec<T>>))
        ensures
            r.0 == self.spec_features(),
            r.1@ == self.spec_weights(),
            r.2 is Some <==> self.spec_bias() is Some,
            r.2 is Some ==> r.2->0@ == self.spec_bias()->0,
    {
        (self.features, self.weights, self.bias)
    }

    /// Sets bias entry `idx` to `value`. Fails, changing nothing, where the
    /// parameters carry no bias.
    pub fn update_bias_at(&mut self, idx: usize, value: T) -> (r: Result<(), ShapeError>)
        requires
            old(self).wf(),
            idx < old(self).spec_features().outputs,
        ensures
            final(self).wf(),
            final(self).spec_features() == old(self).spec_features(),
            final(self).spec_mode() == old(self).spec_mode(),
            final(self).spec_weights() == old(self).spec_weights(),
            r is Ok <==> old(self).spec_mode() == ParamMode::Biased,
            r is Ok ==> final(self).spec_bias() == Some(old(self).spec_bias()->0.update(idx as int, value)),
            r is Err ==> *final(self) == *old(self) && r->Err_0 == ShapeError::IncompatibleLayout,
    {
        match &mut self.bias {
            Some(b) => {
                b.set(idx, value);
                Ok(())
            },
            None => Err(ShapeError::IncompatibleLayout),
        }
    }

    /// The shape of `input · weightsᵗ (+ bias)` for an input of shape
    /// `(batch, width)`: `(batch, outputs)`, or an error where the width
    /// is not the number of inputs.
    pub fn predict_shape(&self, input: (usize, usize)) -> (r: Result<(usize, usize), PredictError>)
        ensures
            r is Ok <==> input.1 == self.spec_features().inputs,
            r is Ok ==> r->Ok_0 == (input.0, self.spec_features().outputs),
            r is Err ==> r->Err_0 == PredictError::Shape(ShapeError::IncompatibleShape),
    {
        if input.1 == self.features.inputs {
            Ok((input.0, self.features.outputs))
        } else {
            Err(PredictError::Shape(ShapeError::IncompatibleShape))
        }
    }
}

impl<T: Copy> Params<T> {
    /// Gives the parameters new features. The storage is always allocated
    /// anew, filled with `value`, and the mode is kept. Fails, leaving the
    /// parameters as they were, where `outputs * inputs` does not fit in
    /// memory.
    pub fn reshape(&mut self, features: Features, value: T) -> (r: Result<(), ShapeError>)
        requires
            old(self).wf(),
        ensures
            final(self).wf(),
            r is Ok <==> weight_count(features) <= usize::MAX,
            r is Ok ==> final(self).spec_filled_with(
                old(self).spec_mode() == ParamMode::Biased,
                features,
                value,
            ),
            r is Err ==> *final(self) == *old(self) && r->Err_0 == ShapeError::Overflow,
    {
        match features.outputs.checked_mul(features.inputs) {
            Some(_) => {
                let biased = self.mode.is_biased();
                *self = Self::filled(biased, features, value);
                Ok(())
            },
            None => Err(ShapeError::Overflow),
        }
    }

    /// Replaces the weights of output `idx` by `row` and, where the
    /// parameters are biased and `bias` is given, its bias entry. Fails,
    /// changing nothing, where `row` does not hold one weight per input.
    pub fn set_node(&mut self, idx: usize, row: &[T], bias: Option<T>) -> (r: Result<(), ShapeError>)
        requires
            old(self).wf(),
            idx < old(self).spec_features().outputs,
        ensures
            final(self).wf(),
            final(self).spec_features() == old(self).spec_features(),
            final(self).spec_mode() == old(self).spec_mode(),
            r is Ok <==> row@.len() == old(self).spec_features().inputs,
            r is Err ==> *final(self) == *old(self) && r->Err_0 == ShapeError::IncompatibleShape,
            r is Ok ==> final(self).spec_row(idx as int) == row@,
            r is Ok ==> final(self).spec_node_replaced(*old(self), idx as int, row@, bias),
    {
        let n = self.features.inputs;
        if row.len() != n {
            return Err(ShapeError::IncompatibleShape);
        }
        proof {
            lemma_row_range(self.features, idx as int);
        }
        let start = idx * n;
        let ghost before = self.weights@;
        let mut k: usize = 0;
        while k < n
            invariant
                self.wf(),
                self.features == old(self).features,
                self.mode == old(self).mode,
                self.bias == old(self).bias,
                n == self.features.inputs,
                row@.len() == n,
                start == idx * n,
                start + n <= self.weights@.len(),
                before == old(self).weights@,
                self.weights@.len() == before.len(),
                k <= n,
                self.weights@ == before.subrange(0, start as int) + row@.subrange(0, k as int)
                    + before.subrange(start + k, before.len() as int),
            decreases n - k,
        {
            let ghost prev = self.weights@;
            self.weights.set(start + k, row[k]);
            assert(self.weights@ == prev.update(start + k, row@[k as int]));
            k = k + 1;
            assert(self.weights@ =~= before.subrange(0, start as int) + row@.subrange(0, k as int)
                + before.subrange(start + k, before.len() as int));
        }
        assert(row@.subrange(0, n as int) =~= row@);
        assert(self.weights@.subrange(start as int, start + n) =~= row@);
        match bias {
            Some(v) => {
                match &mut self.bias {
                    Some(b) => {
                        b.set(idx, v);
                    },
                    None => {},
                }
            },
            None => {},
        }
        Ok(())
    }
}

/// Two sets of parameters are equal exactly when their features, their
/// weights and their bias options are equal, a missing bias never equalling
/// a present one.
impl<T: PartialEq> PartialEq for Params<T> {
    fn eq(&self, other: &Params<T>) -> (r: bool) {
        self.features == other.features && self.weights == other.weights && self.bias == other.bias
    }
}

impl<T: PartialEq> vstd::std_specs::cmp::PartialEqSpecImpl for Params<T> {
    open spec fn obeys_eq_spec() -> bool {
        <T as PartialEqSpec>::obeys_eq_spec()
    }

    open spec fn eq_spec(&self, other: &Params<T>) -> bool {
        &&& self.spec_features() == other.spec_features()
        &&& self.spec_weights().len() == other.spec_weights().len()
        &&& forall|k: int|
            0 <= k < self.spec_weights().len() ==> #[trigger] self.spec_weights()[k].eq_spec(
                &other.spec_weights()[k],
            )
        &&& match (self.spec_bias(), other.spec_bias()) {
            (None, None) => true,
            (Some(a), Some(b)) => a.len() == b.len() && forall|k: int|
                0 <= k < a.len() ==> #[trigger] a[k].eq_spec(&b[k]),
            _ => false,
        }
    }
}

} // verus!
