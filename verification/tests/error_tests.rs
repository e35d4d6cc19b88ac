use aac_ld_encoder::error::AacLdError;

#[test]
fn messages_describe_each_variant() {
    let e = AacLdError::InvalidConfig("Invalid bitrate".to_string());
    assert_eq!(e.message(), "Invalid bitrate");

    let e = AacLdError::BufferSizeMismatch { expected: 960, actual: 100 };
    assert_eq!(e.message(), "Buffer size mismatch");

    let e = AacLdError::EncodingFailed("Failed to acquire encoder lock".to_string());
    assert_eq!(e.message(), "Failed to acquire encoder lock");

    let e = AacLdError::BitstreamError("Cannot write more than 32 bits at once".to_string());
    assert_eq!(e.message(), "Cannot write more than 32 bits at once");
}

#[test]
fn mismatch_carries_both_lengths() {
    match (AacLdError::BufferSizeMismatch { expected: 960, actual: 123 }) {
        AacLdError::BufferSizeMismatch { expected, actual } => {
            assert_eq!(expected, 960);
            assert_eq!(actual, 123);
        },
        _ => unreachable!(),
    }
}
