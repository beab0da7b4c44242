//! Static hyperparameters of a structured state-space sequence model.
use vstd::prelude::*;

verus! {

/// Whether the model decodes step by step, its state dimension, and the
/// longest sequence it handles.
#[derive(Clone, Copy, Debug, PartialEq, Eq, Hash, PartialOrd, Ord, Structural)]
pub struct S4Config {
    pub decode: bool,
    pub features: usize,
    pub samples: usize,
}

impl S4Config {
    pub fn new(decode: bool, features: usize, samples: usize) -> (r: Self)
        ensures
            r == (S4Config { decode, features, samples }),
    {
        S4Config { decode, features, samples }
    }

    pub fn decode(&self) -> (r: bool)
        ensures
            r == self.decode,
    {
        self.decode
    }

    pub fn features(&self) -> (r: usize)
        ensures
            r == self.features,
    {
        self.features
    }

    pub fn samples(&self) -> (r: usize)
        ensures
            r == self.samples,
    {
        self.samples
    }

    pub fn set_decode(&mut self, decode: bool)
        ensures
            *final(self) == (S4Config { decode, ..*old(self) }),
    {
        self.decode = decode;
    }

    pub fn set_features(&mut self, features: usize)
        ensures
            *final(self) == (S4Config { features, ..*old(self) }),
    {
        self.features = features;
    }

    pub fn set_samples(&mut self, samples: usize)
        ensures
            *final(self) == (S4Config { samples, ..*old(self) }),
    {
        self.samples = samples;
    }

    pub fn with_decode(self, decode: bool) -> (r: Self)
        ensures
            r == (S4Config { decode, ..self }),
    {
        S4Config { decode, ..self }
    }

    pub fn with_features(self, features: usize) -> (r: Self)
        ensures
            r == (S4Config { features, ..self }),
    {
        S4Config { features, ..self }
    }

    pub fn with_samples(self, samples: usize) -> (r: Self)
        ensures
            r == (S4Config { samples, ..self }),
    {
        S4Config { samples, ..self }
    }
}

} // verus!
