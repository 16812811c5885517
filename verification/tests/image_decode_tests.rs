use toonana::image::{decode_base64_png, fetched_image, report_decoding, Base64Fault};

#[test]
fn plain_base64_decodes() {
    assert_eq!(decode_base64_png("aGVsbG8="), Ok(b"hello".to_vec()));
    assert_eq!(decode_base64_png(""), Ok(Vec::new()));
}

#[test]
fn data_uri_header_is_dropped() {
    assert_eq!(decode_base64_png("data:image/png;base64,Zm9v"), Ok(b"foo".to_vec()));
    // Only the first comma separates; a second one is part of the payload.
    let err = decode_base64_png("a,Zm9v,Zm9v").unwrap_err();
    assert_eq!(err, "base64 decode: Invalid symbol 44, offset 4.");
    assert_eq!(decode_base64_png("anything at all,"), Ok(Vec::new()));
}

#[test]
fn invalid_symbol_is_reported_with_its_place() {
    assert_eq!(
        decode_base64_png("!!!!").unwrap_err(),
        "base64 decode: Invalid symbol 33, offset 0."
    );
    assert_eq!(
        decode_base64_png("Zm9v Zm9v").unwrap_err(),
        "base64 decode: Invalid symbol 32, offset 4."
    );
}

#[test]
fn missing_padding_is_reported() {
    assert_eq!(decode_base64_png("aGVsbG8").unwrap_err(), "base64 decode: Invalid padding");
}

#[test]
fn invalid_length_is_reported() {
    assert_eq!(decode_base64_png("A").unwrap_err(), "base64 decode: Invalid input length: 1");
    assert_eq!(
        decode_base64_png("aGVsbG8hA").unwrap_err(),
        "base64 decode: Invalid input length: 9"
    );
}

#[test]
fn invalid_last_symbol_is_reported() {
    assert_eq!(
        decode_base64_png("aGVsbG9=").unwrap_err(),
        "base64 decode: Invalid last symbol 57, offset 6."
    );
}

#[test]
fn fault_messages_are_spelled_out() {
    assert_eq!(
        Base64Fault::InvalidByte { offset: 1204, byte: 255 }.message(),
        "Invalid symbol 255, offset 1204."
    );
    assert_eq!(
        Base64Fault::InvalidLastSymbol { offset: 0, byte: 7 }.message(),
        "Invalid last symbol 7, offset 0."
    );
    assert_eq!(
        Base64Fault::InvalidLength { length: 18446744073709551615 }.message(),
        "Invalid input length: 18446744073709551615"
    );
    assert_eq!(Base64Fault::InvalidPadding.message(), "Invalid padding");
}

#[test]
fn report_decoding_passes_bytes_and_words_faults() {
    assert_eq!(report_decoding(Ok(vec![1, 2, 3])), Ok(vec![1, 2, 3]));
    assert_eq!(
        report_decoding(Err(Base64Fault::InvalidLength { length: 10 })),
        Err("base64 decode: Invalid input length: 10".to_string())
    );
}

#[test]
fn encoding_is_standard_with_padding() {
    assert_eq!(fetched_image(b"hello").as_deref(), Some("aGVsbG8="));
    assert_eq!(fetched_image(b"").as_deref(), Some(""));
    assert_eq!(fetched_image(&[0xFB, 0xFF]).as_deref(), Some("+/8="));
    assert_eq!(fetched_image(&[0x89, 0x50, 0x4E, 0x47]), Some("iVBORw==".to_string()));
    let text = fetched_image(&[0, 1, 2, 253, 254, 255]).unwrap();
    assert_eq!(decode_base64_png(&text), Ok(vec![0, 1, 2, 253, 254, 255]));
}
