//! Obfuscation codec for raw asset-bundle containers.
//!
//! The scheme partitions the first 128 bytes into sixteen 8-byte blocks and
//! inverts the first 5 bytes of each block; everything else is copied
//! through.  A 4-byte magic prefix is prepended on encode and checked and
//! stripped on decode.  Decoding a buffer that does not start with the magic
//! returns it unchanged: such data is treated as already plaintext.

use vstd::prelude::*;

verus! {

/// Errors of the obfuscation codec.
#[derive(Debug, Clone, Copy, PartialEq, Eq, Structural)]
pub enum CodecError {
    /// The buffer starts with the magic prefix but is too short to hold the
    /// 128 scrambled bytes.
    TruncatedBundle,
}

/// The 4-byte magic prefix of an obfuscated container.
pub open spec fn bundle_magic() -> Seq<u8> {
    seq![0x10u8, 0x00u8, 0x00u8, 0x00u8]
}

/// The scrambling transform: within the first 128 bytes, the first 5 bytes
/// of every 8-byte block are bitwise-inverted; all other bytes are kept.
pub open spec fn scrambled(s: Seq<u8>) -> Seq<u8> {
    Seq::new(s.len(), |i: int| if i < 128 && i % 8 < 5 { !s[i] } else { s[i] })
}

/// Scrambling is an involution: applying it twice returns the input.
pub proof fn lemma_scrambled_involution(s: Seq<u8>)
    ensures
        scrambled(scrambled(s)) == s,
{
    assert forall|i: int| 0 <= i < s.len() implies scrambled(scrambled(s))[i] == s[i] by {
        if i < 128 && i % 8 < 5 {
            let b = s[i];
            assert(!(!b) == b) by (bit_vector);
        }
    }
    assert(scrambled(scrambled(s)) =~= s);
}

/// Encodes a plaintext container: the magic prefix followed by the
/// scrambled data.
pub fn encode_assetbundle(data: &[u8]) -> (r: Vec<u8>)
    ensures
        r@ == bundle_magic() + scrambled(data@),
{
    let mut out: Vec<u8> = Vec::new();
    out.push(0x10);
    out.push(0x00);
    out.push(0x00);
    out.push(0x00);
    proof {
        assert(out@ =~= bundle_magic() + scrambled(data@).take(0));
    }
    let mut i: usize = 0;
    while i < data.len()
        invariant
            i <= data@.len(),
            out@ == bundle_magic() + scrambled(data@).take(i as int),
        decreases data@.len() - i,
    {
        let b = data[i];
        let e = if i < 128 && i % 8 < 5 {
            !b
        } else {
            b
        };
        out.push(e);
        proof {
            assert(out@ =~= bundle_magic() + scrambled(data@).take(i as int + 1));
        }
        i += 1;
    }
    proof {
        assert(scrambled(data@).take(data@.len() as int) =~= scrambled(data@));
    }
    out
}

/// Whether a buffer starts with the magic prefix.
pub open spec fn has_bundle_magic(s: Seq<u8>) -> bool {
    s.len() >= 4 && s.subrange(0, 4) == bundle_magic()
}

/// Decodes an obfuscated container.
///
/// A buffer that does not start with the magic prefix is returned unchanged,
/// first bytes included.  A magic-prefixed buffer shorter than the magic
/// plus the 128 scrambled bytes is rejected.
pub fn decode_assetbundle(data: &[u8]) -> (r: Result<Vec<u8>, CodecError>)
    ensures
        !has_bundle_magic(data@) ==> r is Ok && r->Ok_0@ == data@,
        has_bundle_magic(data@) && data@.len() >= 132 ==> r is Ok && r->Ok_0@ == scrambled(
            data@.skip(4),
        ),
        has_bundle_magic(data@) && data@.len() < 132 ==> r == Result::<
            Vec<u8>,
            CodecError,
        >::Err(CodecError::TruncatedBundle),
{
    let has_magic = data.len() >= 4 && data[0] == 0x10 && data[1] == 0x00 && data[2] == 0x00
        && data[3] == 0x00;
    proof {
        if data@.len() >= 4 {
            if data@[0] == 0x10 && data@[1] == 0x00 && data@[2] == 0x00 && data@[3] == 0x00 {
                assert(data@.subrange(0, 4) =~= bundle_magic());
            } else {
                assert(data@.subrange(0, 4)[0] == data@[0]);
                assert(data@.subrange(0, 4)[1] == data@[1]);
                assert(data@.subrange(0, 4)[2] == data@[2]);
                assert(data@.subrange(0, 4)[3] == data@[3]);
            }
        }
        assert(has_magic == has_bundle_magic(data@));
    }
    if !has_magic {
        let mut out: Vec<u8> = Vec::new();
        let mut i: usize = 0;
        while i < data.len()
            invariant
                i <= data@.len(),
                out@ == data@.take(i as int),
            decreases data@.len() - i,
        {
            out.push(data[i]);
            proof {
                assert(out@ =~= data@.take(i as int + 1));
            }
            i += 1;
        }
        proof {
            assert(data@.take(data@.len() as int) =~= data@);
        }
        return Ok(out);
    }
    if data.len() < 132 {
        return Err(CodecError::TruncatedBundle);
    }
    let body_len = data.len() - 4;
    let mut out: Vec<u8> = Vec::new();
    let mut i: usize = 0;
    while i < body_len
        invariant
            i <= body_len,
            body_len == data@.len() - 4,
            132 <= data@.len() <= usize::MAX,
            out@ == scrambled(data@.skip(4)).take(i as int),
        decreases body_len - i,
    {
        let b = data[4 + i];
        let e = if i < 128 && i % 8 < 5 {
            !b
        } else {
            b
        };
        out.push(e);
        proof {
            assert(data@.skip(4)[i as int] == data@[4 + i as int]);
            assert(out@ =~= scrambled(data@.skip(4)).take(i as int + 1));
        }
        i += 1;
    }
    proof {
        assert(scrambled(data@.skip(4)).take(body_len as int) =~= scrambled(data@.skip(4)));
    }
    Ok(out)
}

/// Law: decoding an encoded container of at least 128 bytes returns the
/// original bytes.
pub fn bundle_round_trip(data: &[u8]) -> (r: Vec<u8>)
    requires
        data@.len() >= 128,
    ensures
        r@ == data@,
{
    let encoded = encode_assetbundle(data);
    proof {
        assert(encoded@.subrange(0, 4) =~= bundle_magic());
        assert(encoded@.skip(4) =~= scrambled(data@));
        lemma_scrambled_involution(data@);
    }
    match decode_assetbundle(encoded.as_slice()) {
        Ok(plain) => plain,
        Err(_) => {
            proof {
                assert(false);
            }
            Vec::new()
        },
    }
}

} // verus!
