//! Low-delay perceptual audio encoder: the verified core.
//!
//! The per-frame pipeline turns interleaved PCM into a compressed bitstream.
//! This crate holds the parts of that pipeline whose behaviour is stated and
//! proved: configuration and frame geometry, the bit-level stream writer, the
//! frame header and coefficient codes, the integer half of the adaptive
//! quantizer's rate control, and the encoder's bookkeeping. The numeric
//! signal-processing stages (transform, masking model, whitening filter)
//! work on floating-point samples and live outside the verified core; they
//! hand this crate plain integers and take plain integers back.

use vstd::prelude::*;

pub mod bitstream;
pub mod config;
pub mod encoder;
pub mod error;
pub mod quantizer;
pub mod timer;

pub use config::AacLdConfig;
pub use encoder::EncoderCore;
pub use encoder::PerformanceStats;
pub use error::AacLdError;

verus! {

/// A short human-readable description of the library.
pub fn version_info() -> (r: String)
    ensures
        r@ == "AAC-LD Encoder v1.0.0"@,
{
    "AAC-LD Encoder v1.0.0".to_owned()
}

} // verus!
