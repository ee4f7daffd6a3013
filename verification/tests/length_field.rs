use vtx_format::{decode, decode_with_metadata, encode_v2, VtxFormatError, VTX_MAGIC_V2};

fn v2_with_field(field: [u8; 4], rest: &[u8]) -> Vec<u8> {
    let mut data = Vec::new();
    data.extend_from_slice(&VTX_MAGIC_V2);
    data.extend_from_slice(&field);
    data.extend_from_slice(rest);
    data
}

#[test]
fn field_is_little_endian() {
    let encoded = encode_v2(b"", &[0xAAu8; 1]);
    assert_eq!(&encoded[4..8], &[1, 0, 0, 0]);
    let encoded = encode_v2(b"", &[0xAAu8; 255]);
    assert_eq!(&encoded[4..8], &[0xFF, 0, 0, 0]);
    let encoded = encode_v2(b"", &[0xAAu8; 256]);
    assert_eq!(&encoded[4..8], &[0, 1, 0, 0]);
    let encoded = encode_v2(b"", &[0xAAu8; 0x0203]);
    assert_eq!(&encoded[4..8], &[0x03, 0x02, 0, 0]);
    let encoded = encode_v2(b"x", &vec![0xAAu8; 0x01_1170]);
    assert_eq!(&encoded[4..8], &[0x70, 0x11, 0x01, 0]);
    assert_eq!(&encoded[4..8], &0x01_1170u32.to_le_bytes());
    assert_eq!(encoded.len(), 8 + 0x01_1170 + 1);
}

#[test]
fn field_agrees_with_std() {
    for len in [0usize, 1, 2, 127, 128, 255, 256, 257, 1000, 65_535, 65_536, 65_537] {
        let meta = vec![0x33u8; len];
        let encoded = encode_v2(b"tail", &meta);
        assert_eq!(&encoded[4..8], &(len as u32).to_le_bytes());
    }
}

#[test]
fn field_is_read_little_endian() {
    let mut rest = vec![0x11u8; 0x0102];
    rest.extend_from_slice(b"end");
    let data = v2_with_field([0x02, 0x01, 0, 0], &rest);
    let parts = decode_with_metadata(&data).unwrap();
    assert_eq!(parts.metadata.unwrap().len(), 0x0102);
    assert_eq!(parts.component, b"end");

    // Read the other way round the field would say 0x0201_0000.
    let data = v2_with_field([0, 0, 0x01, 0x02], &rest);
    assert!(matches!(
        decode_with_metadata(&data),
        Err(VtxFormatError::InvalidMetadataLength)
    ));
}

#[test]
fn every_byte_of_the_field_counts() {
    let rest = vec![0x22u8; 0x01_0000];
    let data = v2_with_field([0, 0, 1, 0], &rest);
    let parts = decode_with_metadata(&data).unwrap();
    assert_eq!(parts.metadata.unwrap().len(), 0x01_0000);
    assert!(parts.component.is_empty());

    let data = v2_with_field([0, 0, 0, 1], &rest);
    assert!(matches!(
        decode_with_metadata(&data),
        Err(VtxFormatError::InvalidMetadataLength)
    ));
}

#[test]
fn metadata_may_reach_the_end() {
    let data = v2_with_field([5, 0, 0, 0], b"12345");
    let parts = decode_with_metadata(&data).unwrap();
    assert_eq!(parts.metadata.unwrap(), b"12345");
    assert!(parts.component.is_empty());
}

#[test]
fn one_byte_missing_is_refused() {
    let data = v2_with_field([6, 0, 0, 0], b"12345");
    assert!(matches!(
        decode_with_metadata(&data),
        Err(VtxFormatError::InvalidMetadataLength)
    ));
    assert!(matches!(decode(&data), Err(VtxFormatError::InvalidMetadataLength)));
}

#[test]
fn hundred_declared_five_present() {
    let data = v2_with_field(100u32.to_le_bytes(), b"short");
    assert!(matches!(
        decode_with_metadata(&data),
        Err(VtxFormatError::InvalidMetadataLength)
    ));
    assert!(matches!(decode(&data), Err(VtxFormatError::InvalidMetadataLength)));
}

#[test]
fn largest_fields_do_not_wrap() {
    for field in [
        [0xFFu8, 0xFF, 0xFF, 0xFF],
        [0xFE, 0xFF, 0xFF, 0xFF],
        [0xF8, 0xFF, 0xFF, 0xFF],
        [0xF7, 0xFF, 0xFF, 0xFF],
        [0x00, 0x00, 0x00, 0x80],
    ] {
        for rest_len in [0usize, 1, 7, 8, 9, 100] {
            let data = v2_with_field(field, &vec![0u8; rest_len]);
            assert!(matches!(
                decode_with_metadata(&data),
                Err(VtxFormatError::InvalidMetadataLength)
            ));
            assert!(matches!(decode(&data), Err(VtxFormatError::InvalidMetadataLength)));
        }
    }
}
