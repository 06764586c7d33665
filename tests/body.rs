use saturn_cmp::{compression_result, units_to_compress, CompressionError, ErrorKind, Size};

#[test]
fn word_data_of_odd_length_is_misaligned() {
    let e = units_to_compress(&[0x01, 0x02, 0x03], Size::Word).unwrap_err();
    assert_eq!(e.kind, ErrorKind::MisalignedInput(2));
    assert_eq!(e.description(), "Provided buffer is not an even multiple of 16 bits");
}

#[test]
fn longword_data_not_a_multiple_of_four_is_misaligned() {
    for len in [1usize, 2, 3, 5, 6, 7, 10] {
        let data = vec![0u8; len];
        let e = units_to_compress(&data, Size::Longword).unwrap_err();
        assert_eq!(e.kind, ErrorKind::MisalignedInput(4));
        assert_eq!(e.description(), "Provided buffer is not an even multiple of 32 bits");
    }
}

#[test]
fn byte_data_is_never_misaligned() {
    for len in 0usize..9 {
        let data = vec![0xAAu8; len];
        assert_eq!(units_to_compress(&data, Size::Byte), Ok(len as i32));
    }
}

#[test]
fn run_with_trailing_byte_is_five_units() {
    assert_eq!(units_to_compress(&[0xAA, 0xAA, 0xAA, 0xAA, 0xBB], Size::Byte), Ok(5));
}

#[test]
fn empty_data_is_zero_units() {
    assert_eq!(units_to_compress(&[], Size::Byte), Ok(0));
    assert_eq!(units_to_compress(&[], Size::Word), Ok(0));
    assert_eq!(units_to_compress(&[], Size::Longword), Ok(0));
}

#[test]
fn aligned_data_counts_units() {
    let data = vec![7u8; 12];
    assert_eq!(units_to_compress(&data, Size::Word), Ok(6));
    assert_eq!(units_to_compress(&data, Size::Longword), Ok(3));
}

#[test]
fn same_input_gives_same_unit_count() {
    let data = vec![1u8, 2, 3, 4, 5, 6, 7, 8];
    assert_eq!(units_to_compress(&data, Size::Word), units_to_compress(&data, Size::Word));
    assert_eq!(compression_result(0, data.clone()), compression_result(0, data.clone()));
}

#[test]
fn coder_success_passes_output_through() {
    let out = vec![0x83, 0xAA, 0x00, 0xBB];
    assert_eq!(compression_result(0, out.clone()), Ok(out));
    assert_eq!(compression_result(0, Vec::new()), Ok(Vec::new()));
}

#[test]
fn coder_failure_is_encoding_failed() {
    for status in [1, -1, i32::MAX, i32::MIN] {
        let e = compression_result(status, vec![1, 2, 3]).unwrap_err();
        assert_eq!(e.kind, ErrorKind::EncodingFailed);
        assert_eq!(e.description(), "Unable to compress data!");
    }
}

#[test]
fn error_constructor_keeps_kind() {
    let e = CompressionError::new(ErrorKind::MisalignedInput(8));
    assert_eq!(e.kind, ErrorKind::MisalignedInput(8));
    assert_eq!(
        e.description(),
        "Provided buffer is not an even multiple of the unit width"
    );
}

#[test]
fn unit_widths_and_codes() {
    assert_eq!(Size::Byte.unit_bytes(), 1);
    assert_eq!(Size::Word.unit_bytes(), 2);
    assert_eq!(Size::Longword.unit_bytes(), 4);
    assert_eq!(Size::Byte.code(), 0x00);
    assert_eq!(Size::Word.code(), 0x04);
    assert_eq!(Size::Longword.code(), 0x0C);
}
