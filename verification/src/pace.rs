//! PACE password derivation: the symmetric key is derived from the MRZ by
//! SHA-1, and session keys by the counter-mode key derivation function.

use vstd::prelude::*;
use crate::hash::{sha1_of, sha1_hash};
use crate::modmath::spec_encode_uint;

verus! {

/// Key derivation counter for PACE.
pub const KDF_PACE: u32 = 3;

/// Key derivation counter for encryption session keys.
pub const KDF_ENC: u32 = 1;

/// Key derivation counter for MAC session keys.
pub const KDF_MAC: u32 = 2;

/// The UTF-8 bytes of a string.
pub uninterp spec fn utf8_of(s: Seq<char>) -> Seq<u8>;

/// Relies on str::as_bytes: the string's UTF-8 bytes, a function of the
/// characters alone.
#[verifier::external_body]
fn str_bytes(s: &str) -> (r: Vec<u8>)
    ensures
        r@ == utf8_of(s@),
{
    s.as_bytes().to_vec()
}

/// The PACE password: the SHA-1 digest of the MRZ information.
pub fn k_from_mrz(mrz: &str) -> (r: Vec<u8>)
    ensures
        r@ == sha1_of(utf8_of(mrz@)),
        r@.len() == 20,
{
    let bytes = str_bytes(mrz);
    sha1_hash(bytes.as_slice())
}

/// A four-byte big-endian counter.
pub fn u32_be_bytes(c: u32) -> (r: Vec<u8>)
    ensures
        r@ == spec_encode_uint(c as nat, 4),
{
    let mut out: Vec<u8> = Vec::new();
    out.push((c / 16777216) as u8);
    out.push(((c / 65536) % 256) as u8);
    out.push(((c / 256) % 256) as u8);
    out.push((c % 256) as u8);
    proof {
        let cn = c as nat;
        vstd::arithmetic::div_mod::lemma_div_denominator(cn as int, 256, 256);
        vstd::arithmetic::div_mod::lemma_div_denominator(cn as int, 65536, 256);
        vstd::arithmetic::div_mod::lemma_div_denominator(cn as int, 16777216, 256);
        assert(cn < 4294967296);
        vstd::arithmetic::div_mod::lemma_basic_div(cn as int, 4294967296);
        assert(cn / 16777216 < 256) by {
            vstd::arithmetic::div_mod::lemma_multiply_divide_lt(cn as int, 16777216, 256);
        }
        vstd::arithmetic::div_mod::lemma_small_mod(cn / 16777216, 256);
        assert(spec_encode_uint(cn, 4) == spec_encode_uint(cn / 256, 3).push((cn % 256) as u8));
        assert(spec_encode_uint(cn / 256, 3) == spec_encode_uint(cn / 65536, 2).push(
            ((cn / 256) % 256) as u8));
        assert(spec_encode_uint(cn / 65536, 2) == spec_encode_uint(cn / 16777216, 1).push(
            ((cn / 65536) % 256) as u8));
        assert(spec_encode_uint(cn / 16777216, 1) == spec_encode_uint(cn / 4294967296, 0).push(
            ((cn / 16777216) % 256) as u8));
        assert(spec_encode_uint(cn / 4294967296, 0) == Seq::<u8>::empty());
        assert(out@ =~= spec_encode_uint(cn, 4));
    }
    out
}

/// The 128-bit key derivation function: the first 16 bytes of
/// `SHA-1(K ‖ counter)`.
pub fn kdf_128(k: &[u8], counter: u32) -> (r: Vec<u8>)
    ensures
        r@ == sha1_of(k@ + spec_encode_uint(counter as nat, 4)).take(16),
        r@.len() == 16,
{
    let mut data: Vec<u8> = Vec::new();
    data.extend_from_slice(k);
    let mut ctr = u32_be_bytes(counter);
    data.append(&mut ctr);
    proof {
        assert(data@ =~= k@ + spec_encode_uint(counter as nat, 4));
    }
    let digest = sha1_hash(data.as_slice());
    let mut out: Vec<u8> = Vec::new();
    let mut i: usize = 0;
    while i < 16
        invariant
            i <= 16,
            digest@.len() == 20,
            out@ =~= digest@.take(i as int),
        decreases 16 - i,
    {
        let b = digest[i];
        out.push(b);
        proof {
            assert(out@ =~= digest@.take(i + 1));
        }
        i = i + 1;
    }
    out
}

} // verus!
