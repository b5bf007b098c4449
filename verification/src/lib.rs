//! Host-side core of a zero-knowledge proof pipeline for validated
//! multiplication: a guest computation multiplies two private factors and
//! commits the product as its public output; the host builds the guest's
//! input sequence, serializes the resulting receipt into a transportable
//! artifact, and decodes the committed output.

pub mod artifact;
pub mod env_builder;
pub mod guest;
pub mod hexstr;
pub mod journal;
pub mod pipeline;
