use mikumikuloader::cipher::{
    cipher_round_trip, decrypt_aes_cbc, encrypt_aes_cbc, get_apimanager_keys, region_keys,
    CryptoError,
};

fn sample_key() -> Vec<u8> {
    (0u8..16).collect()
}

fn sample_iv() -> Vec<u8> {
    (100u8..116).collect()
}

#[test]
fn round_trip_restores_the_plaintext() {
    let key = sample_key();
    let iv = sample_iv();
    let data: Vec<u8> = (0u8..=255).cycle().take(1000).collect();
    let encrypted = encrypt_aes_cbc(&data, &key, &iv);
    assert_ne!(encrypted, data);
    let decrypted = decrypt_aes_cbc(&encrypted, &key, &iv).unwrap();
    assert_eq!(decrypted, data);
}

#[test]
fn round_trip_helper_restores_the_plaintext() {
    let key = sample_key();
    let iv = sample_iv();
    let data = vec![1u8, 2, 3];
    assert_eq!(cipher_round_trip(&data, &key, &iv), data);
}

#[test]
fn round_trip_of_empty_buffer() {
    let key = sample_key();
    let iv = sample_iv();
    let data: Vec<u8> = Vec::new();
    let encrypted = encrypt_aes_cbc(&data, &key, &iv);
    assert_eq!(encrypted.len(), 16);
    assert_eq!(decrypt_aes_cbc(&encrypted, &key, &iv).unwrap(), data);
}

#[test]
fn ciphertext_is_padded_to_block_multiples() {
    let key = sample_key();
    let iv = sample_iv();
    assert_eq!(encrypt_aes_cbc(&[0u8; 16], &key, &iv).len(), 32);
    assert_eq!(encrypt_aes_cbc(&[0u8; 15], &key, &iv).len(), 16);
    assert_eq!(encrypt_aes_cbc(&[0u8; 17], &key, &iv).len(), 32);
}

#[test]
fn decrypt_rejects_partial_blocks() {
    let key = sample_key();
    let iv = sample_iv();
    assert_eq!(
        decrypt_aes_cbc(&[0u8; 15], &key, &iv),
        Err(CryptoError::LengthError)
    );
}

#[test]
fn decrypt_rejects_malformed_padding() {
    let key = sample_key();
    let iv = sample_iv();
    // The first ciphertext block alone decrypts to the plaintext block,
    // whose final zero byte is never valid PKCS#7 padding.
    let encrypted = encrypt_aes_cbc(&[0u8; 16], &key, &iv);
    assert_eq!(
        decrypt_aes_cbc(&encrypted[..16], &key, &iv),
        Err(CryptoError::PaddingError)
    );
}

#[test]
fn decrypt_with_wrong_key_does_not_restore_the_plaintext() {
    let key = sample_key();
    let iv = sample_iv();
    let other_key: Vec<u8> = (50u8..66).collect();
    let data = vec![9u8; 64];
    let encrypted = encrypt_aes_cbc(&data, &key, &iv);
    assert_ne!(decrypt_aes_cbc(&encrypted, &other_key, &iv), Ok(data));
}

#[test]
fn region_keys_for_the_global_region() {
    let (key, iv) = get_apimanager_keys("en").unwrap();
    assert_eq!(
        key,
        vec![
            0xdf, 0x38, 0x42, 0x14, 0xb2, 0x9a, 0x3a, 0xdf, 0xbf, 0x1b, 0xd9, 0xee, 0x5b, 0x16,
            0xf8, 0x84
        ]
    );
    assert_eq!(
        iv,
        vec![
            0x7e, 0x85, 0x6c, 0x90, 0x79, 0x87, 0xf8, 0xae, 0xc6, 0xaf, 0xc0, 0xc5, 0x47, 0x38,
            0xfc, 0x7e
        ]
    );
}

#[test]
fn region_keys_for_the_jp_family() {
    for region in ["jp", "tw", "kr", "cn"] {
        let (key, iv) = get_apimanager_keys(region).unwrap();
        assert_eq!(key, b"g2fcC0ZczN9MTJ61".to_vec());
        assert_eq!(iv, b"msx3IV0i9XE5uYZ1".to_vec());
    }
}

#[test]
fn unknown_region_has_no_keys() {
    assert!(get_apimanager_keys("xx").is_none());
    assert!(get_apimanager_keys("").is_none());
    assert!(get_apimanager_keys("EN").is_none());
}

#[test]
fn an_unsupported_region_is_reported() {
    assert_eq!(region_keys("xx"), Err(CryptoError::UnsupportedRegion));
    assert!(region_keys("en").is_ok());
}
