//! Input generators, decoders and independent oracles used to drive the
//! registry with boundary-heavy inputs.
pub mod batch;
pub mod bounds;
pub mod outcome;
pub mod seed;
