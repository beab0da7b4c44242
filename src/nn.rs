//! Traits of whole networks, encoders and attention mechanisms.
use vstd::prelude::*;

verus! {

/// A network made of a sequence of layers of type `L`.
pub trait NeuralNet<L> {
    fn layers(&self) -> &[L];

    /// The number of layers.
    fn depth(&self) -> usize {
        self.layers().len()
    }
}

/// An encoding of data of type `T`.
pub trait Encode<T> {
    type Output;

    fn encode(&self, data: &T) -> Self::Output;
}

/// An attention mechanism.
pub trait Attention {
    type Output;

    fn attention(&self) -> Self::Output;
}

/// The three projections of an attention head.
#[derive(Clone, Copy, Debug, PartialEq, Eq, Hash, PartialOrd, Ord, Structural)]
pub enum QKV {
    Key,
    Query,
    Value,
}

impl QKV {
    /// The three projections, in order.
    pub fn all() -> (r: [QKV; 3])
        ensures
            r@ == seq![QKV::Key, QKV::Query, QKV::Value],
    {
        [QKV::Key, QKV::Query, QKV::Value]
    }
}

} // verus!
