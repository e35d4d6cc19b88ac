use aac_ld_encoder::bitstream::BitstreamWriter;
use aac_ld_encoder::error::AacLdError;

#[test]
fn test_bitstream_writer() -> Result<(), AacLdError> {
    let mut writer = BitstreamWriter::new();

    writer.write_bits(0xABC, 12)?;
    writer.write_bits(0x1F, 5)?;
    writer.write_bits(0x0, 3)?;

    let result = writer.finish()?;
    assert!(!result.is_empty());

    Ok(())
}

#[test]
fn exact_bytes_msb_first() {
    let mut writer = BitstreamWriter::new();
    writer.write_bits(0xABC, 12).unwrap();
    writer.write_bits(0x1F, 5).unwrap();
    writer.write_bits(0x0, 3).unwrap();
    let result = writer.finish().unwrap();
    assert_eq!(result, vec![0xAB, 0xCF, 0x80]);
}

#[test]
fn high_bits_above_width_are_ignored() {
    let mut writer = BitstreamWriter::new();
    writer.write_bits(0xFFFF, 4).unwrap();
    let result = writer.finish().unwrap();
    assert_eq!(result, vec![0xF0]);
}

#[test]
fn more_than_32_bits_is_an_error_and_leaves_the_writer_untouched() {
    let mut writer = BitstreamWriter::new();
    writer.write_bits(0xAB, 8).unwrap();
    let err = writer.write_bits(0, 33);
    assert!(matches!(err, Err(AacLdError::BitstreamError(_))));
    let result = writer.finish().unwrap();
    assert_eq!(result, vec![0xAB]);
}

#[test]
fn a_full_32_bit_write_is_accepted() {
    let mut writer = BitstreamWriter::new();
    writer.write_bits(0xDEAD_BEEF, 32).unwrap();
    let result = writer.finish().unwrap();
    assert_eq!(result, vec![0xDE, 0xAD, 0xBE, 0xEF]);
}

#[test]
fn flush_pads_the_partial_byte_with_zeros() {
    let mut writer = BitstreamWriter::new();
    writer.write_bits(0b101, 3).unwrap();
    writer.flush().unwrap();
    writer.write_bits(0x7, 3).unwrap();
    let result = writer.finish().unwrap();
    assert_eq!(result, vec![0b1010_0000, 0b1110_0000]);
}

#[test]
fn finishing_an_empty_writer_yields_no_bytes() {
    let writer = BitstreamWriter::new();
    let result = writer.finish().unwrap();
    assert!(result.is_empty());
}

#[test]
fn zero_width_write_adds_nothing() {
    let mut writer = BitstreamWriter::new();
    writer.write_bits(0x123, 0).unwrap();
    let result = writer.finish().unwrap();
    assert!(result.is_empty());
}
