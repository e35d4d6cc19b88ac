use aac_ld_encoder::bitstream::BitstreamWriter;
use aac_ld_encoder::config::AacLdConfig;
use aac_ld_encoder::encoder::EncoderCore;
use aac_ld_encoder::error::AacLdError;

fn make_core(sample_rate: u32, channels: u8, bitrate: u32) -> EncoderCore {
    EncoderCore::new(AacLdConfig::new(sample_rate, channels, bitrate).unwrap()).unwrap()
}

#[test]
fn a_validated_config_builds_a_core() {
    let encoder = make_core(48000, 2, 128000);
    assert_eq!(encoder.get_config().frame_size, 480);
    assert_eq!(encoder.get_config().channels, 2);
    assert_eq!(encoder.get_stats().frames_encoded, 0);
    assert_eq!(encoder.get_stats().total_bits, 0);
}

#[test]
fn an_inconsistent_config_is_rejected() {
    let mut config = AacLdConfig::new(44100, 2, 128000).unwrap();
    config.channels = 0;
    assert!(matches!(EncoderCore::new(config), Err(AacLdError::InvalidConfig(_))));

    let mut config = AacLdConfig::new(44100, 2, 128000).unwrap();
    config.frame_size = 999;
    assert!(matches!(EncoderCore::new(config), Err(AacLdError::InvalidConfig(_))));
}

#[test]
fn a_wrong_frame_length_reports_expected_and_actual() {
    let encoder = make_core(44100, 2, 128000);
    assert!(encoder.validate_frame_len(960).is_ok());
    match encoder.validate_frame_len(100) {
        Err(AacLdError::BufferSizeMismatch { expected, actual }) => {
            assert_eq!(expected, 960);
            assert_eq!(actual, 100);
        },
        other => panic!("unexpected result: {:?}", other),
    }
    match encoder.validate_frame_len(961) {
        Err(AacLdError::BufferSizeMismatch { expected, actual }) => {
            assert_eq!(expected, 960);
            assert_eq!(actual, 961);
        },
        other => panic!("unexpected result: {:?}", other),
    }
}

#[test]
fn a_buffer_must_hold_whole_frames() {
    let encoder = make_core(44100, 2, 128000);
    assert!(encoder.validate_buffer_len(0).is_ok());
    assert!(encoder.validate_buffer_len(960).is_ok());
    assert!(encoder.validate_buffer_len(3840).is_ok());
    match encoder.validate_buffer_len(1000) {
        Err(AacLdError::BufferSizeMismatch { expected, actual }) => {
            assert_eq!(expected, 960);
            assert_eq!(actual, 1000);
        },
        other => panic!("unexpected result: {:?}", other),
    }
}

#[test]
fn delay_is_half_a_frame_plus_sixty_four() {
    for &(rate, frame_size) in
        [(8000u32, 240usize), (22050, 480), (44100, 480), (48000, 480), (96000, 512)].iter()
    {
        let encoder = make_core(rate, 1, 64000);
        assert_eq!(encoder.calculate_delay_samples(), frame_size / 2 + 64);
    }
}

#[test]
fn recommended_buffer_is_four_frames() {
    let encoder = make_core(44100, 2, 128000);
    assert_eq!(encoder.get_recommended_buffer_size(), 480 * 2 * 4);
}

#[test]
fn memory_estimate_follows_the_frame_size() {
    let encoder = make_core(44100, 1, 64000);
    let expected = (480 * 4 + 240 * 8 + 240 * 2 + 240 * 4) / 1024;
    assert_eq!(encoder.estimate_memory_usage_kb(), expected);
}

#[test]
fn the_header_has_the_documented_bit_layout() {
    let encoder = make_core(44100, 2, 128000);
    let mut bitstream = BitstreamWriter::new();
    encoder.write_frame_header(&mut bitstream).unwrap();
    let bytes = bitstream.finish().unwrap();
    // sync 0xFFF, id 0, layer 00, protection 1, profile 23, rate index 4,
    // private 0, channels 2, original 0, home 0, then zero padding
    assert_eq!(bytes, vec![0xFF, 0xF1, 0xBA, 0x10]);
}

#[test]
fn an_unmappable_sample_rate_fails_at_header_time() {
    // 44000 Hz validates as a configuration but has no header index
    let encoder = make_core(44000, 1, 64000);
    let mut bitstream = BitstreamWriter::new();
    match encoder.write_frame_header(&mut bitstream) {
        Err(AacLdError::BitstreamError(m)) => assert_eq!(m, "Unsupported sample rate"),
        other => panic!("unexpected result: {:?}", other),
    }
    let quantized = vec![vec![0i16; 240]];
    assert!(matches!(
        encoder.assemble_frame(&quantized),
        Err(AacLdError::BitstreamError(_))
    ));
}

#[test]
fn coefficients_use_the_three_code_classes() {
    let encoder = make_core(44100, 1, 64000);
    let mut bitstream = BitstreamWriter::new();
    encoder
        .write_audio_data(&mut bitstream, &[0, 5, -5, 16, -20])
        .unwrap();
    let bytes = bitstream.finish().unwrap();
    // 00 | 01 0101 0 | 01 0101 1 | 10 x0010 0 | 10 x0014 1, zero-padded
    assert_eq!(bytes, vec![0x15, 0x2B, 0x80, 0x04, 0x10, 0x00, 0xA4]);
}

#[test]
fn an_assembled_frame_is_header_then_payloads() {
    let encoder = make_core(44100, 1, 64000);
    let quantized = vec![vec![0i16, 5, -5]];
    let bytes = encoder.assemble_frame(&quantized).unwrap();
    assert_eq!(bytes, vec![0xFF, 0xF1, 0xBA, 0x08, 0x2A, 0x56]);
}

#[test]
fn an_assembled_frame_is_never_empty_for_a_mappable_rate() {
    let encoder = make_core(48000, 2, 128000);
    let quantized = vec![vec![0i16; 240], vec![0i16; 240]];
    let bytes = encoder.assemble_frame(&quantized).unwrap();
    // 31 header bits plus 2 bits per zero coefficient across 2 channels
    assert_eq!(bytes.len(), (31 + 2 * 240 * 2 + 7) / 8);
}

#[test]
fn recording_a_frame_moves_every_counter() {
    let mut encoder = make_core(44100, 2, 128000);
    encoder.record_frame(100, 250);
    encoder.record_frame(50, 150);
    let stats = encoder.get_stats();
    assert_eq!(stats.frames_encoded, 2);
    assert_eq!(stats.total_bits, 150 * 8);
    assert_eq!(stats.encoding_time_us, 400);
}

#[test]
fn reset_clears_the_statistics() {
    let mut encoder = make_core(44100, 2, 128000);
    encoder.record_frame(100, 250);
    encoder.reset_stats();
    let stats = encoder.get_stats();
    assert_eq!(stats.frames_encoded, 0);
    assert_eq!(stats.total_bits, 0);
    assert_eq!(stats.encoding_time_us, 0);
}
