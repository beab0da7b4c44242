//! A linear layer: parameters, an activation applied to their affine
//! transform, and a name.
use vstd::prelude::*;
use crate::features::Features;
use crate::layers::{self, LayerShape};
use crate::params::{ParamMode, Params};
use crate::shape::ShapeError;

verus! {

broadcast use vstd::string::group_string_axioms;

/// A linear layer with activation `A` over elements of type `T`.
#[derive(Clone, Debug)]
pub struct Linear<T, A> {
    activator: A,
    name: String,
    params: Params<T>,
}

impl<T, A> Linear<T, A> {
    pub closed spec fn spec_params(self) -> Params<T> {
        self.params
    }

    pub closed spec fn spec_name(self) -> Seq<char> {
        self.name@
    }

    pub closed spec fn spec_activator(self) -> A {
        self.activator
    }

    /// The shape of the layer, read from its parameters.
    pub open spec fn spec_features(self) -> LayerShape {
        LayerShape {
            inputs: self.spec_params().spec_features().inputs,
            outputs: self.spec_params().spec_features().outputs,
        }
    }

    pub open spec fn wf(self) -> bool {
        self.spec_params().wf()
    }

    /// Whether the layer and `other` can stand next to each other: where
    /// `next`, `other` feeds this layer, else this layer feeds `other`.
    pub open spec fn spec_validate_layer(self, other: Self, next: bool) -> bool {
        if next {
            other.spec_features().spec_feeds(self.spec_features())
        } else {
            self.spec_features().spec_feeds(other.spec_features())
        }
    }

    pub fn activator(&self) -> (r: &A)
        ensures
            *r == self.spec_activator(),
    {
        &self.activator
    }

    pub fn features(&self) -> (r: LayerShape)
        ensures
            r == self.spec_features(),
    {
        let f = self.params.features();
        LayerShape::new(f.inputs, f.outputs)
    }

    pub fn name(&self) -> (r: &str)
        ensures
            r@ == self.spec_name(),
    {
        self.name.as_str()
    }

    pub fn params(&self) -> (r: &Params<T>)
        ensures
            *r == self.spec_params(),
    {
        &self.params
    }

    pub fn params_mut(&mut self) -> (r: &mut Params<T>)
        ensures
            *r == old(self).spec_params(),
            final(self).spec_params() == *final(r),
            final(self).spec_name() == old(self).spec_name(),
            final(self).spec_activator() == old(self).spec_activator(),
    {
        &mut self.params
    }

    pub fn is_biased(&self) -> (r: bool)
        requires
            self.wf(),
        ensures
            r == (self.spec_params().spec_mode() == ParamMode::Biased),
    {
        self.params.is_biased()
    }

    /// Sets bias entry `idx` of the layer to `value`. Fails, changing
    /// nothing, where the layer carries no bias.
    pub fn update_bias_at(&mut self, idx: usize, value: T) -> (r: Result<(), ShapeError>)
        requires
            old(self).wf(),
            idx < old(self).spec_features().outputs,
        ensures
            final(self).wf(),
            final(self).spec_name() == old(self).spec_name(),
            final(self).spec_features() == old(self).spec_features(),
            final(self).spec_params().spec_weights() == old(self).spec_params().spec_weights(),
            r is Ok <==> old(self).spec_params().spec_mode() == ParamMode::Biased,
            r is Ok ==> final(self).spec_params().spec_bias() == Some(
                old(self).spec_params().spec_bias()->0.update(idx as int, value),
            ),
            r is Err ==> *final(self) == *old(self),
    {
        self.params.update_bias_at(idx, value)
    }

    pub fn set_name(&mut self, name: &str)
        ensures
            final(self).spec_name() == name@,
            final(self).spec_params() == old(self).spec_params(),
            final(self).spec_activator() == old(self).spec_activator(),
    {
        self.name = name.to_string();
    }

    pub fn with_name(self, name: &str) -> (r: Self)
        ensures
            r.spec_name() == name@,
            r.spec_params() == self.spec_params(),
            r.spec_activator() == self.spec_activator(),
    {
        let mut r = self;
        r.set_name(name);
        r
    }

    /// Whether the layer and `other` can stand next to each other: where
    /// `next`, the outputs of `other` must be the inputs of this layer,
    /// else the outputs of this layer must be the inputs of `other`.
    pub fn validate_layer(&self, other: &Self, next: bool) -> (r: bool)
        ensures
            r == self.spec_validate_layer(*other, next),
    {
        if next {
            return self.features().inputs() == other.features().outputs();
        }
        self.features().outputs() == other.features().inputs()
    }
}

impl<T: Copy + Default, A> Linear<T, A> {
    /// A layer with zero parameters of the given shape.
    pub fn new(activator: A, biased: bool, features: LayerShape, name: &str) -> (r: Self)
        requires
            features.outputs * features.inputs <= usize::MAX,
        ensures
            r.wf(),
            r.spec_features() == features,
            r.spec_activator() == activator,
            r.spec_name() == name@,
            (r.spec_params().spec_mode() == ParamMode::Biased) == biased,
            exists|zero: T|
                call_ensures(T::default, (), zero) && r.spec_params().spec_filled_with(
                    biased,
                    Features { inputs: features.inputs, outputs: features.outputs },
                    zero,
                ),
    {
        let zero = T::default();
        let params = Params::filled(biased, Features::new(features.inputs, features.outputs), zero);
        assert(params.spec_filled_with(
            biased,
            Features { inputs: features.inputs, outputs: features.outputs },
            zero,
        ));
        Linear { activator, name: name.to_string(), params }
    }

    /// An unnamed, unbiased layer with zero parameters and the default
    /// activation.
    pub fn from_features(inputs: usize, outputs: usize) -> (r: Self)
        where
            A: Default,
        requires
            outputs * inputs <= usize::MAX,
        ensures
            r.wf(),
            r.spec_features() == (LayerShape { inputs, outputs }),
            r.spec_name() == Seq::<char>::empty(),
            r.spec_params().spec_mode() == ParamMode::Unbiased,
            call_ensures(A::default, (), r.spec_activator()),
            exists|zero: T|
                call_ensures(T::default, (), zero) && r.spec_params().spec_filled_with(
                    false,
                    Features { inputs, outputs },
                    zero,
                ),
    {
        let params = Params::zeros(false, Features::new(inputs, outputs));
        Linear { activator: A::default(), name: String::new(), params }
    }

    /// Replaces the weights of output `idx` by `row` and, where the layer is
    /// biased and `bias` is given, its bias entry. Fails, changing nothing,
    /// where `row` does not hold one weight per input.
    pub fn set_node(&mut self, idx: usize, row: &[T], bias: Option<T>) -> (r: Result<(), ShapeError>)
        requires
            old(self).wf(),
            idx < old(self).spec_features().outputs,
        ensures
            final(self).wf(),
            final(self).spec_features() == old(self).spec_features(),
            final(self).spec_name() == old(self).spec_name(),
            r is Ok <==> row@.len() == old(self).spec_features().inputs,
            r is Err ==> *final(self) == *old(self),
            final(self).spec_activator() == old(self).spec_activator(),
            r is Ok ==> final(self).spec_params().spec_row(idx as int) == row@,
            r is Ok ==> final(self).spec_params().spec_node_replaced(
                old(self).spec_params(),
                idx as int,
                row@,
                bias,
            ),
    {
        self.params.set_node(idx, row, bias)
    }

    /// Gives the layer a new shape; its parameters are allocated anew and
    /// set to zero, and keep their mode. Fails, changing nothing, where
    /// `outputs * inputs` does not fit in memory.
    pub fn reshape(&mut self, inputs: usize, outputs: usize) -> (r: Result<(), ShapeError>)
        requires
            old(self).wf(),
        ensures
            final(self).wf(),
            r is Ok <==> outputs * inputs <= usize::MAX,
            r is Ok ==> final(self).spec_features() == (LayerShape { inputs, outputs }),
            r is Ok ==> exists|zero: T|
                call_ensures(T::default, (), zero) && final(self).spec_params().spec_filled_with(
                    old(self).spec_params().spec_mode() == ParamMode::Biased,
                    Features { inputs, outputs },
                    zero,
                ),
            r is Err ==> *final(self) == *old(self),
            final(self).spec_params().spec_mode() == old(self).spec_params().spec_mode(),
            final(self).spec_name() == old(self).spec_name(),
            final(self).spec_activator() == old(self).spec_activator(),
    {
        let f = Features::new(inputs, outputs);
        let zero = T::default();
        let r = self.params.reshape(f, zero);
        proof {
            if r is Ok {
                assert(self.params.spec_filled_with(
                    old(self).params.spec_mode() == ParamMode::Biased,
                    f,
                    zero,
                ));
            }
        }
        r
    }
}

impl<T, A> layers::Features for Linear<T, A> {
    fn inputs(&self) -> (r: usize)
        ensures
            r == self.spec_features().inputs,
    {
        self.params.features().inputs
    }

    fn outputs(&self) -> (r: usize)
        ensures
            r == self.spec_features().outputs,
    {
        self.params.features().outputs
    }
}

/// Checking two layers has no effect and depends on their shapes alone:
/// layers with the same features give the same answer, however often the
/// check is made. Checking `b` after `a` is checking `a` before `b`.
pub proof fn lemma_validate_layer_depends_on_features<T, A>(
    a: Linear<T, A>,
    a2: Linear<T, A>,
    b: Linear<T, A>,
    b2: Linear<T, A>,
    next: bool,
)
    requires
        a.spec_features() == a2.spec_features(),
        b.spec_features() == b2.spec_features(),
    ensures
        a.spec_validate_layer(b, next) == a2.spec_validate_layer(b2, next),
        a.spec_validate_layer(b, false) == b.spec_validate_layer(a, true),
{
}

} // verus!
