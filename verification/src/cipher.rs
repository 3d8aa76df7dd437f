//! AES-128-CBC cipher adapter with the two fixed, region-keyed key/iv pairs
//! used for the encrypted asset-bundle-info manifest.
//!
//! The block cipher itself is performed by the `aes` and `cbc` crates; the
//! library states their behaviour through an uninterpreted name for the
//! ciphertext and proves everything around the calls.

use cbc::cipher::{BlockDecryptMut, BlockEncryptMut, KeyIvInit};
use vstd::prelude::*;

use crate::strutil::str_eq;

verus! {

broadcast use vstd::string::group_string_axioms;

/// Errors of the cipher adapter.
#[derive(Debug, Clone, Copy, PartialEq, Eq, Structural)]
pub enum CryptoError {
    /// The ciphertext length is not a multiple of the AES block size.
    LengthError,
    /// The final block does not carry well-formed PKCS#7 padding.
    PaddingError,
    /// The region code selects no key material.
    UnsupportedRegion,
}

/// The AES-128-CBC/PKCS#7 ciphertext of `data` under `key` and `iv`.
///
/// The value of this function is fixed by the AES algorithm; it is left
/// uninterpreted here and only the trusted cipher calls below speak of it.
pub uninterp spec fn aes_cbc_cipher(data: Seq<u8>, key: Seq<u8>, iv: Seq<u8>) -> Seq<u8>;

/// Relies on `cbc::Encryptor::<aes::Aes128>` with
/// `encrypt_padded_b2b_mut::<Pkcs7>`: the ciphertext of `data`, padded to the
/// next block boundary.  The output buffer is one block longer than the
/// message, which the `cipher` crate documents as always sufficient for
/// PKCS#7, so the call cannot fail; `new_from_slices` cannot fail because the
/// key and iv are required to be exactly one block long.
#[verifier::external_body]
pub fn encrypt_aes_cbc(data: &[u8], key: &[u8], iv: &[u8]) -> (r: Vec<u8>)
    requires
        key@.len() == 16,
        iv@.len() == 16,
    ensures
        r@ == aes_cbc_cipher(data@, key@, iv@),
        r@.len() == data@.len() + 16 - (data@.len() % 16),
{
    let mut buf = vec![0u8; data.len() + 16];
    let enc = cbc::Encryptor::<aes::Aes128>::new_from_slices(key, iv).unwrap();
    let out = enc
        .encrypt_padded_b2b_mut::<cbc::cipher::block_padding::Pkcs7>(data, &mut buf)
        .unwrap();
    out.to_vec()
}

/// Relies on `cbc::Decryptor::<aes::Aes128>` with
/// `decrypt_padded_b2b_mut::<Pkcs7>`: decryption inverts encryption, so a
/// buffer that is the ciphertext of some message decrypts to exactly that
/// message, and a successful decryption returns the unique message whose
/// ciphertext the input is.  The call reports `UnpadError` when the padding
/// of the final block is malformed.
#[verifier::external_body]
fn decrypt_aes_cbc_blocks(data: &[u8], key: &[u8], iv: &[u8]) -> (r: Result<Vec<u8>, CryptoError>)
    requires
        key@.len() == 16,
        iv@.len() == 16,
        data@.len() % 16 == 0,
    ensures
        forall|d: Seq<u8>| data@ == aes_cbc_cipher(d, key@, iv@) ==> r is Ok && r->Ok_0@ == d,
        r is Ok ==> data@ == aes_cbc_cipher(r->Ok_0@, key@, iv@),
        r is Err ==> r->Err_0 == CryptoError::PaddingError,
{
    let mut buf = vec![0u8; data.len()];
    let dec = cbc::Decryptor::<aes::Aes128>::new_from_slices(key, iv).unwrap();
    match dec.decrypt_padded_b2b_mut::<cbc::cipher::block_padding::Pkcs7>(data, &mut buf) {
        Ok(out) => Ok(out.to_vec()),
        Err(_) => Err(CryptoError::PaddingError),
    }
}

/// Decrypts an AES-128-CBC/PKCS#7 ciphertext.
///
/// Inputs whose length is not a multiple of the block size are rejected with
/// `LengthError`; inputs with malformed padding with `PaddingError`.  Any
/// buffer produced by [`encrypt_aes_cbc`] under the same key and iv decrypts
/// successfully to the original message.
pub fn decrypt_aes_cbc(data: &[u8], key: &[u8], iv: &[u8]) -> (r: Result<Vec<u8>, CryptoError>)
    requires
        key@.len() == 16,
        iv@.len() == 16,
    ensures
        data@.len() % 16 != 0 ==> r == Result::<Vec<u8>, CryptoError>::Err(
            CryptoError::LengthError,
        ),
        forall|d: Seq<u8>|
            data@ == aes_cbc_cipher(d, key@, iv@) && data@.len() % 16 == 0 ==> r is Ok
                && r->Ok_0@ == d,
        r is Ok ==> data@ == aes_cbc_cipher(r->Ok_0@, key@, iv@),
        data@.len() % 16 == 0 && r is Err ==> r->Err_0 == CryptoError::PaddingError,
{
    if data.len() % 16 != 0 {
        return Err(CryptoError::LengthError);
    }
    decrypt_aes_cbc_blocks(data, key, iv)
}

/// Returns the manifest key material of a region, or `UnsupportedRegion`
/// for a region without any: the caller must abort the enclosing operation
/// rather than fall back to a default key.
pub fn region_keys(lang: &str) -> (r: Result<(Vec<u8>, Vec<u8>), CryptoError>)
    ensures
        lang@ == "en"@ ==> r is Ok && (r->Ok_0).0@ == en_apimanager_key() && (r->Ok_0).1@
            == en_apimanager_iv(),
        is_jp_family_region(lang@) ==> r is Ok && (r->Ok_0).0@ == jp_apimanager_key() && (
        r->Ok_0).1@ == jp_apimanager_iv(),
        lang@ != "en"@ && !is_jp_family_region(lang@) ==> r == Result::<
            (Vec<u8>, Vec<u8>),
            CryptoError,
        >::Err(CryptoError::UnsupportedRegion),
        r is Ok ==> (r->Ok_0).0@.len() == 16 && (r->Ok_0).1@.len() == 16,
{
    match get_apimanager_keys(lang) {
        Some(kv) => Ok(kv),
        None => Err(CryptoError::UnsupportedRegion),
    }
}

/// Law: decrypting an encryption under the same 16-byte key and iv returns
/// the original buffer, whatever its contents and length.
pub fn cipher_round_trip(data: &[u8], key: &[u8], iv: &[u8]) -> (r: Vec<u8>)
    requires
        key@.len() == 16,
        iv@.len() == 16,
    ensures
        r@ == data@,
{
    let encrypted = encrypt_aes_cbc(data, key, iv);
    proof {
        assert(encrypted@.len() % 16 == 0) by {
            let n = data@.len() as int;
            assert((n + 16 - n % 16) % 16 == 0) by (nonlinear_arith);
        };
    }
    match decrypt_aes_cbc(encrypted.as_slice(), key, iv) {
        Ok(plain) => plain,
        Err(_) => {
            proof {
                assert(false);
            }
            Vec::new()
        },
    }
}

/// The manifest key for the global region.
pub open spec fn en_apimanager_key() -> Seq<u8> {
    seq![
        0xdfu8,
        0x38u8,
        0x42u8,
        0x14u8,
        0xb2u8,
        0x9au8,
        0x3au8,
        0xdfu8,
        0xbfu8,
        0x1bu8,
        0xd9u8,
        0xeeu8,
        0x5bu8,
        0x16u8,
        0xf8u8,
        0x84u8,
    ]
}

/// The manifest iv for the global region.
pub open spec fn en_apimanager_iv() -> Seq<u8> {
    seq![
        0x7eu8,
        0x85u8,
        0x6cu8,
        0x90u8,
        0x79u8,
        0x87u8,
        0xf8u8,
        0xaeu8,
        0xc6u8,
        0xafu8,
        0xc0u8,
        0xc5u8,
        0x47u8,
        0x38u8,
        0xfcu8,
        0x7eu8,
    ]
}

/// The manifest key shared by the jp, tw, kr and cn regions
/// (the ASCII bytes of `g2fcC0ZczN9MTJ61`).
pub open spec fn jp_apimanager_key() -> Seq<u8> {
    seq![
        0x67u8,
        0x32u8,
        0x66u8,
        0x63u8,
        0x43u8,
        0x30u8,
        0x5au8,
        0x63u8,
        0x7au8,
        0x4eu8,
        0x39u8,
        0x4du8,
        0x54u8,
        0x4au8,
        0x36u8,
        0x31u8,
    ]
}

/// The manifest iv shared by the jp, tw, kr and cn regions
/// (the ASCII bytes of `msx3IV0i9XE5uYZ1`).
pub open spec fn jp_apimanager_iv() -> Seq<u8> {
    seq![
        0x6du8,
        0x73u8,
        0x78u8,
        0x33u8,
        0x49u8,
        0x56u8,
        0x30u8,
        0x69u8,
        0x39u8,
        0x58u8,
        0x45u8,
        0x35u8,
        0x75u8,
        0x59u8,
        0x5au8,
        0x31u8,
    ]
}

/// Whether `lang` is one of the regions that share the jp key material.
pub open spec fn is_jp_family_region(lang: Seq<char>) -> bool {
    lang == "jp"@ || lang == "tw"@ || lang == "kr"@ || lang == "cn"@
}

/// Returns the key/iv pair used for the asset-bundle-info manifest of the
/// given region, or `None` for a region without known key material.
pub fn get_apimanager_keys(lang: &str) -> (r: Option<(Vec<u8>, Vec<u8>)>)
    ensures
        lang@ == "en"@ ==> r is Some && (r->0).0@ == en_apimanager_key() && (r->0).1@
            == en_apimanager_iv(),
        is_jp_family_region(lang@) ==> r is Some && (r->0).0@ == jp_apimanager_key() && (r->0).1@
            == jp_apimanager_iv(),
        lang@ != "en"@ && !is_jp_family_region(lang@) ==> r is None,
        r is Some ==> (r->0).0@.len() == 16 && (r->0).1@.len() == 16,
{
    proof {
        reveal_strlit("en");
        reveal_strlit("jp");
        reveal_strlit("tw");
        reveal_strlit("kr");
        reveal_strlit("cn");
        assert("en"@[0] == 'e');
        assert("jp"@[0] == 'j');
        assert("tw"@[0] == 't');
        assert("kr"@[0] == 'k');
        assert("cn"@[0] == 'c');
    }
    if str_eq(lang, "en") {
        let mut key: Vec<u8> = Vec::new();
        key.push(0xdf);
        key.push(0x38);
        key.push(0x42);
        key.push(0x14);
        key.push(0xb2);
        key.push(0x9a);
        key.push(0x3a);
        key.push(0xdf);
        key.push(0xbf);
        key.push(0x1b);
        key.push(0xd9);
        key.push(0xee);
        key.push(0x5b);
        key.push(0x16);
        key.push(0xf8);
        key.push(0x84);
        let mut iv: Vec<u8> = Vec::new();
        iv.push(0x7e);
        iv.push(0x85);
        iv.push(0x6c);
        iv.push(0x90);
        iv.push(0x79);
        iv.push(0x87);
        iv.push(0xf8);
        iv.push(0xae);
        iv.push(0xc6);
        iv.push(0xaf);
        iv.push(0xc0);
        iv.push(0xc5);
        iv.push(0x47);
        iv.push(0x38);
        iv.push(0xfc);
        iv.push(0x7e);
        proof {
            assert(key@ =~= en_apimanager_key());
            assert(iv@ =~= en_apimanager_iv());
        }
        Some((key, iv))
    } else if str_eq(lang, "jp") || str_eq(lang, "tw") || str_eq(lang, "kr") || str_eq(
        lang,
        "cn",
    ) {
        let mut key: Vec<u8> = Vec::new();
        key.push(0x67);
        key.push(0x32);
        key.push(0x66);
        key.push(0x63);
        key.push(0x43);
        key.push(0x30);
        key.push(0x5a);
        key.push(0x63);
        key.push(0x7a);
        key.push(0x4e);
        key.push(0x39);
        key.push(0x4d);
        key.push(0x54);
        key.push(0x4a);
        key.push(0x36);
        key.push(0x31);
        let mut iv: Vec<u8> = Vec::new();
        iv.push(0x6d);
        iv.push(0x73);
        iv.push(0x78);
        iv.push(0x33);
        iv.push(0x49);
        iv.push(0x56);
        iv.push(0x30);
        iv.push(0x69);
        iv.push(0x39);
        iv.push(0x58);
        iv.push(0x45);
        iv.push(0x35);
        iv.push(0x75);
        iv.push(0x59);
        iv.push(0x5a);
        iv.push(0x31);
        proof {
            assert(key@ =~= jp_apimanager_key());
            assert(iv@ =~= jp_apimanager_iv());
        }
        Some((key, iv))
    } else {
        None
    }
}

} // verus!
