//! Decoder for raw binary IQ-sample streams produced by software-defined
//! radio capture tools.
//!
//! A capture file is a flat sequence of fixed-width sample records with no
//! header or framing: each record holds one in-phase (I) scalar followed by
//! one quadrature (Q) scalar, both stored in the encoding named by
//! [`SampleType`]. Multi-byte scalars are interpreted in little-endian byte
//! order; a capture made on a big-endian machine must be byte-swapped before
//! it is decoded here.
//!
//! The verified core works on plain bytes and exact scalar values. Reading
//! from a file and the final widening of scalars to `f32`/`f64` complex pairs
//! live outside the core, in the surrounding application crate.

pub mod decoder;
pub mod sample;

pub use decoder::ChunkDecoder;
pub use decoder::DecodeError;
pub use sample::IqSample;
pub use sample::SampleType;
pub use sample::Scalar;
