//! Error taxonomy of the encoder.

use vstd::prelude::*;

verus! {

/// Everything that can go wrong while configuring or running the encoder.
///
/// `InvalidConfig` is raised at construction, `BufferSizeMismatch` by the
/// encode entry points on wrong-length input, `BitstreamError` by the bit
/// packer (too many bits at once, or a sample rate with no header index),
/// and `EncodingFailed` by boundary layers around the core (lock poisoning
/// and the like), never by the pipeline itself.
#[derive(Debug)]
pub enum AacLdError {
    InvalidConfig(String),
    BufferSizeMismatch { expected: usize, actual: usize },
    EncodingFailed(String),
    BitstreamError(String),
}

impl AacLdError {
    /// A human-readable description of the error.
    pub fn message(&self) -> (r: String)
        ensures
            r@ == match self {
                AacLdError::InvalidConfig(m) => m@,
                AacLdError::BufferSizeMismatch { .. } => "Buffer size mismatch"@,
                AacLdError::EncodingFailed(m) => m@,
                AacLdError::BitstreamError(m) => m@,
            },
    {
        match self {
            AacLdError::InvalidConfig(m) => m.clone(),
            AacLdError::BufferSizeMismatch { .. } => "Buffer size mismatch".to_owned(),
            AacLdError::EncodingFailed(m) => m.clone(),
            AacLdError::BitstreamError(m) => m.clone(),
        }
    }
}

} // verus!
