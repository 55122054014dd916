use supervisely_format::{decode_payload, encode_payload, Bitmap, CodecError, FormatError};

#[test]
fn known_payloads_unpack() {
    assert_eq!(decode_payload("eJwDAAAAAAE=").unwrap(), Vec::<u8>::new());
    assert_eq!(decode_payload("eJxjYGRkAAAACQAD").unwrap(), vec![0u8, 1, 1, 0]);
    assert_eq!(decode_payload("eJzLSM3JyVfITSzOBgAVXQPh").unwrap(), b"hello mask".to_vec());
}

#[test]
fn packed_bytes_unpack_to_themselves() {
    let mut long = Vec::new();
    for i in 0..5000u32 {
        long.push((i % 251) as u8);
    }
    for bytes in [vec![], vec![0u8], vec![255u8; 300], b"hello mask".to_vec(), long] {
        let payload = encode_payload(&bytes).unwrap();
        assert_eq!(decode_payload(&payload).unwrap(), bytes);
    }
}

#[test]
fn packing_is_not_the_identity() {
    let payload = encode_payload(b"hello mask").unwrap();
    assert_ne!(payload.as_bytes(), b"hello mask");
    assert!(payload.bytes().all(|b| b.is_ascii_alphanumeric() || b == b'+' || b == b'/' || b == b'='));
}

#[test]
fn bad_base64_is_told_from_bad_compression() {
    assert!(matches!(
        decode_payload("not base64!"),
        Err(FormatError::DecodeDataError(CodecError::BadBase64))
    ));
    assert!(matches!(
        decode_payload("bm90IHpsaWIgYXQgYWxs"),
        Err(FormatError::DecodeDataError(CodecError::BadCompression))
    ));
    assert!(matches!(
        decode_payload(""),
        Err(FormatError::DecodeDataError(CodecError::BadCompression))
    ));
}

#[test]
fn bitmap_data_round_trip() {
    let bitmap = Bitmap::encode_data([5, 6], &[1, 0, 0, 1]).unwrap();
    assert_eq!(bitmap.origin, [5, 6]);
    assert_eq!(bitmap.decode_data().unwrap(), vec![1u8, 0, 0, 1]);
    let known = Bitmap { data_encoded: "eJxjYGRkAAAACQAD".to_string(), origin: [0, 0] };
    assert_eq!(known.decode_data().unwrap(), vec![0u8, 1, 1, 0]);
    let corrupt = Bitmap { data_encoded: "%%%".to_string(), origin: [0, 0] };
    assert!(matches!(
        corrupt.decode_data(),
        Err(FormatError::DecodeDataError(CodecError::BadBase64))
    ));
}
