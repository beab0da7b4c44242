//! Shape, configuration and parameter-layout logic for a small neural-network
//! toolkit: layer features, parameter containers with shape invariants,
//! layer composition checks, and the error types shared by the numeric layers.
pub mod activate;
pub mod clock;
pub mod config;
pub mod error;
pub mod errors;
pub mod features;
pub mod layers;
pub mod layout;
pub mod linear;
pub mod network;
pub mod neurons;
pub mod nn;
pub mod params;
pub mod shape;
pub mod specs;
