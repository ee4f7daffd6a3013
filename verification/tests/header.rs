use vtx_format::{decode, encode_v1, VtxFormatError, VTX_MAGIC_V1, VTX_VERSION_V1};

#[test]
fn lib_test_encode_v1_structure() {
    let payload = b"wasm-magic";
    let encoded = encode_v1(payload);

    assert_eq!(&encoded[0..4], &VTX_MAGIC_V1);
    assert_eq!(&encoded[4..], payload);
}

#[test]
fn lib_test_decode_valid_v1() {
    let payload = b"component-data";
    let mut data = Vec::new();
    data.extend_from_slice(&VTX_MAGIC_V1);
    data.extend_from_slice(payload);

    let result = decode(&data);
    assert!(result.is_ok());
    let (version, body) = result.unwrap();

    assert_eq!(version, VTX_VERSION_V1);
    assert_eq!(body, payload);
}

#[test]
fn lib_test_decode_too_short() {
    let data = b"VTX";
    let result = decode(data);
    assert!(matches!(result, Err(VtxFormatError::TooShort)));
}

#[test]
fn lib_test_decode_invalid_prefix() {
    let data = b"VTY\x01payload";
    let result = decode(data);
    assert!(matches!(result, Err(VtxFormatError::InvalidPrefix)));
}

#[test]
fn lib_test_decode_unsupported_version() {
    // Version 2 is a layout of its own: the four bytes after the version byte
    // are its length field. Here they are "payl", far more than the three
    // bytes that follow.
    let data = b"VTX\x02payload";
    let result = decode(data);

    assert!(!matches!(result, Err(VtxFormatError::UnsupportedVersion(_))));
    assert!(matches!(result, Err(VtxFormatError::InvalidMetadataLength)));
}
