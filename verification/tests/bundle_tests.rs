use mikumikuloader::bundle::{
    bundle_round_trip, decode_assetbundle, encode_assetbundle, CodecError,
};

fn sample_data(len: usize) -> Vec<u8> {
    (0..len).map(|i| (i % 251) as u8).collect()
}

#[test]
fn encode_prepends_magic_and_scrambles_the_head() {
    let data = sample_data(200);
    let encoded = encode_assetbundle(&data);
    assert_eq!(encoded.len(), 204);
    assert_eq!(&encoded[..4], &[0x10, 0x00, 0x00, 0x00]);
    // Within each 8-byte block of the first 128 bytes, the first five
    // bytes are inverted and the remaining three are kept.
    for i in 0..128 {
        if i % 8 < 5 {
            assert_eq!(encoded[4 + i], !data[i]);
        } else {
            assert_eq!(encoded[4 + i], data[i]);
        }
    }
    // Bytes beyond the scrambled head are copied through.
    for i in 128..200 {
        assert_eq!(encoded[4 + i], data[i]);
    }
}

#[test]
fn decode_inverts_encode() {
    let data = sample_data(300);
    let encoded = encode_assetbundle(&data);
    assert_eq!(decode_assetbundle(&encoded).unwrap(), data);
}

#[test]
fn round_trip_helper_restores_the_container() {
    let data = sample_data(128);
    assert_eq!(bundle_round_trip(&data), data);
}

#[test]
fn decode_passes_plaintext_through_unchanged() {
    // No magic prefix: the buffer is already plaintext and is returned
    // unchanged, first four bytes included.
    let mut data = sample_data(200);
    data[0] = 0x11;
    assert_eq!(decode_assetbundle(&data).unwrap(), data);
}

#[test]
fn decode_passes_short_plaintext_through_unchanged() {
    let data = vec![1u8, 2];
    assert_eq!(decode_assetbundle(&data).unwrap(), data);
}

#[test]
fn decode_rejects_truncated_magic_containers() {
    let mut data = vec![0u8; 100];
    data[0] = 0x10;
    assert_eq!(
        decode_assetbundle(&data),
        Err(CodecError::TruncatedBundle)
    );
}
