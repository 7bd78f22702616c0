//! RSASSA-PSS signature verification (RFC 8017 §9.1.2) and MGF1.
//!
//! Verification only: this core never creates RSA signatures.

use vstd::prelude::*;
use vstd::arithmetic::power2::pow2;
use vstd::slice::slice_subrange;
use crate::uint::{Wide, uval, be_val, u_bit_len, u_from_be_slice, u_lt};
use crate::ring::ModRing;
use crate::element::ModRingElement;
use crate::hash::{DigestAlgorithmIdentifier, digest_of, spec_hash_len};
use crate::sigalg::{MaskGenAlgorithm, RsaPssParameters, SignatureAlgorithmIdentifier};
use crate::modmath::{pow_mod, bit_len_spec, lemma_bit_len_spec_unique, spec_encode_uint};
use crate::codec::encode_uint_fixed;
use crate::error::Error;

verus! {

/// Pointwise exclusive-or of two byte strings of the first one's length.
pub open spec fn xor_bytes(a: Seq<u8>, b: Seq<u8>) -> Seq<u8> {
    Seq::new(a.len(), |i| a[i] ^ b[i])
}

/// The first byte masked, the rest unchanged.
pub open spec fn mask_first(s: Seq<u8>, m: u8) -> Seq<u8> {
    Seq::new(s.len(), |i| if i == 0 {
        s[0] & m
    } else {
        s[i]
    })
}

/// The first `n` MGF1 blocks: each is the digest of the seed followed by
/// a four-byte big-endian counter.
pub open spec fn mgf1_blocks(alg: DigestAlgorithmIdentifier, seed: Seq<u8>, n: nat) -> Seq<u8>
    decreases n,
{
    if n == 0 {
        Seq::empty()
    } else {
        mgf1_blocks(alg, seed, (n - 1) as nat) + digest_of(alg, seed + spec_encode_uint(
            (n - 1) as nat, 4))
    }
}

/// MGF1: the block stream truncated to the requested length.
pub open spec fn spec_mgf1(alg: DigestAlgorithmIdentifier, seed: Seq<u8>, out_len: nat) -> Seq<
    u8,
> {
    mgf1_blocks(alg, seed, ((out_len + spec_hash_len(alg) - 1) as nat) / spec_hash_len(
        alg)).take(out_len as int)
}

/// The RSASSA-PSS acceptance condition over reduced values: the encoded
/// message recovered from `sig^e mod n` dissects as RFC 8017 §9.1.2 asks,
/// and the recomputed hash matches.
pub open spec fn pss_accepts(
    n: nat,
    e: nat,
    sv: nat,
    msg: Seq<u8>,
    halg: DigestAlgorithmIdentifier,
    galg: DigestAlgorithmIdentifier,
    slen: nat,
) -> bool {
    let em = pow_mod(sv, e, n);
    let k = bit_len_spec(n);
    let em_len = (k + 6) / 8;
    let hlen = spec_hash_len(halg);
    &&& em < pow2(8 * em_len)
    &&& em_len >= hlen + slen + 2
    &&& {
        let em_b = spec_encode_uint(em, em_len);
        let db_len = (em_len - hlen - 1) as nat;
        &&& em_b.last() == 0xbc
        &&& {
            let masked = em_b.take(db_len as int);
            let h = em_b.subrange(db_len as int, (em_len - 1) as int);
            let mask = spec_mgf1(galg, h, db_len);
            let shift = (8 * em_len - (k - 1)) as nat;
            let db = mask_first(xor_bytes(masked, mask), 0xffu8 >> shift);
            &&& (forall|i: int| 0 <= i < db_len - slen - 1 ==> db[i] == 0)
            &&& db[db_len - slen - 1] == 0x01
            &&& {
                let salt = db.skip((db_len - slen) as int);
                let mh = digest_of(halg, msg);
                let hp = digest_of(halg, seq![0u8, 0u8, 0u8, 0u8, 0u8, 0u8, 0u8, 0u8] + mh
                    + salt);
                h == hp
            }
        }
    }
}

/// Byte-string equality.
pub fn bytes_eq(a: &[u8], b: &[u8]) -> (r: bool)
    ensures
        r == (a@ == b@),
{
    if a.len() != b.len() {
        proof {
            assert(a@.len() != b@.len());
        }
        return false;
    }
    let n = a.len();
    let mut i: usize = 0;
    while i < n
        invariant
            i <= n,
            n == a@.len() == b@.len(),
            forall|j: int| 0 <= j < i ==> a@[j] == b@[j],
        decreases n - i,
    {
        if *vstd::slice::slice_index_get(a, i) != *vstd::slice::slice_index_get(b, i) {
            proof {
                assert(a@[i as int] != b@[i as int]);
            }
            return false;
        }
        i = i + 1;
    }
    proof {
        assert(a@ =~= b@);
    }
    true
}

/// MGF1 (PKCS #1): hash the seed with an incrementing counter until the
/// requested number of mask bytes is available.
pub fn mgf1(digest_algo: &DigestAlgorithmIdentifier, seed: &[u8], out_len: usize) -> (r: Vec<u8>)
    requires
        out_len <= 65536,
    ensures
        r@ == spec_mgf1(*digest_algo, seed@, out_len as nat),
        r@.len() == out_len,
{
    let ghost halg = *digest_algo;
    let hlen = digest_algo.hash_len();
    let mut mask: Vec<u8> = Vec::new();
    let mut counter: u32 = 0;
    while mask.len() < out_len
        invariant
            out_len <= 65536,
            halg == *digest_algo,
            20 <= hlen == spec_hash_len(halg),
            mask@ == mgf1_blocks(halg, seed@, counter as nat),
            mask@.len() == counter * hlen,
            mask@.len() < out_len + hlen,
            counter == 0 || (counter - 1) * hlen < out_len,
        decreases out_len + hlen - mask.len(),
    {
        let mut data: Vec<u8> = Vec::new();
        data.extend_from_slice(seed);
        let c = counter;
        data.push((c / 16777216) as u8);
        data.push(((c / 65536) % 256) as u8);
        data.push(((c / 256) % 256) as u8);
        data.push((c % 256) as u8);
        proof {
            let cn = c as nat;
            vstd::arithmetic::div_mod::lemma_div_denominator(cn as int, 256, 256);
            vstd::arithmetic::div_mod::lemma_div_denominator(cn as int, 65536, 256);
            vstd::arithmetic::div_mod::lemma_div_denominator(cn as int, 16777216, 256);
            assert(cn / 256 / 256 == cn / 65536);
            assert(cn / 65536 / 256 == cn / 16777216);
            assert(cn / 16777216 / 256 == cn / 4294967296);
            assert(cn < 4294967296);
            vstd::arithmetic::div_mod::lemma_basic_div(cn as int, 4294967296);
            assert(cn / 16777216 < 256) by {
                vstd::arithmetic::div_mod::lemma_multiply_divide_lt(cn as int, 16777216, 256);
            }
            vstd::arithmetic::div_mod::lemma_small_mod(cn / 16777216, 256);
            assert(spec_encode_uint(cn, 4) == spec_encode_uint(cn / 256, 3).push(
                (cn % 256) as u8));
            assert(spec_encode_uint(cn / 256, 3) == spec_encode_uint(cn / 65536, 2).push(
                ((cn / 256) % 256) as u8));
            assert(spec_encode_uint(cn / 65536, 2) == spec_encode_uint(cn / 16777216, 1).push(
                ((cn / 65536) % 256) as u8));
            assert(spec_encode_uint(cn / 16777216, 1) == spec_encode_uint(cn / 4294967296,
                0).push(((cn / 16777216) % 256) as u8));
            assert(spec_encode_uint(cn / 4294967296, 0) == Seq::<u8>::empty());
            assert(data@ =~= seed@ + spec_encode_uint(c as nat, 4));
        }
        let block = digest_algo.hash_bytes(data.as_slice());
        let mut block = block;
        mask.append(&mut block);
        proof {
            assert(mask@ =~= mgf1_blocks(halg, seed@, (counter + 1) as nat));
            assert((counter + 1) * hlen == counter * hlen + hlen) by (nonlinear_arith);
        }
        counter = counter + 1;
    }
    // the loop ran exactly the block count MGF1 names
    proof {
        let l = out_len as nat;
        let h = hlen as nat;
        let c = counter as nat;
        if l == 0 {
            assert(c == 0);
            assert(spec_mgf1(halg, seed@, l) =~= mask@.take(0));
        } else {
            assert(c >= 1);
            assert((c - 1) * h < l <= c * h);
            assert(((l + h - 1) as nat) / h == c) by {
                vstd::arithmetic::div_mod::lemma_fundamental_div_mod_converse(
                    (l + h - 1) as int, h as int, c as int, (l + h - 1 - c * h) as int);
            }
        }
    }
    let mut out: Vec<u8> = Vec::new();
    let mut i: usize = 0;
    while i < out_len
        invariant
            i <= out_len,
            out_len <= mask@.len(),
            out@ =~= mask@.take(i as int),
        decreases out_len - i,
    {
        let byte = mask[i];
        out.push(byte);
        proof {
            assert(out@ =~= mask@.take(i + 1));
        }
        i = i + 1;
    }
    proof {
        assert(out@ =~= spec_mgf1(halg, seed@, out_len as nat));
    }
    out
}

/// An RSA public key: the ring modulo `n` and the public exponent.
#[derive(Clone, Copy)]
pub struct RSAPublicKey {
    pub ring: ModRing,
    pub public_exponent: Wide,
}

impl RSAPublicKey {
    /// The modulus value.
    pub open spec fn nv(self) -> nat {
        self.ring.p()
    }

    /// The exponent value.
    pub open spec fn ev(self) -> nat {
        uval(self.public_exponent)
    }

    /// The ring is sound.
    pub open spec fn wf(self) -> bool {
        self.ring.wf()
    }

    /// Builds a key from an odd modulus and an exponent.
    pub fn from_parts(modulus: Wide, public_exponent: Wide) -> (r: Result<RSAPublicKey, Error>)
        ensures
            r is Ok <==> (uval(modulus) % 2 == 1 && uval(modulus) > 1),
            r is Ok ==> {
                let k = r.unwrap();
                &&& k.wf()
                &&& k.nv() == uval(modulus)
                &&& k.ev() == uval(public_exponent)
            },
            r is Err ==> r == Err::<RSAPublicKey, Error>(Error::ParameterInvalid),
    {
        proof {
            vstd::arithmetic::power2::lemma2_to64();
            vstd::arithmetic::div_mod::lemma_div_basics_1(uval(modulus) as int);
        }
        let one = crate::uint::u_from_u64(1);
        if !crate::uint::u_bit(&modulus, 0) || !u_lt(&one, &modulus) {
            return Err(Error::ParameterInvalid);
        }
        let ring = ModRing::from_modulus(modulus);
        Ok(RSAPublicKey { ring, public_exponent })
    }

    /// Verifies a signature under a signature algorithm identifier;
    /// only RSASSA-PSS is recognized.
    pub fn verify(&self, message: &[u8], signature: &ModRingElement, algorithm:
        &SignatureAlgorithmIdentifier) -> (res: Result<(), Error>)
        requires
            self.wf(),
            signature.wf(),
            signature.p() == self.nv(),
        ensures
            algorithm is Unknown ==> res == Err::<(), Error>(Error::AlgorithmUnsupported),
            algorithm is RsaPss ==> {
                let params = algorithm->RsaPss_0;
                &&& (params.trailer_field != 1 ==> res == Err::<(), Error>(
                    Error::AlgorithmUnsupported))
                &&& (params.trailer_field == 1 && !(params.mask_gen_algorithm is Mgf1) ==> res
                    == Err::<(), Error>(Error::AlgorithmUnsupported))
                &&& (params.trailer_field == 1 && params.mask_gen_algorithm is Mgf1 ==> {
                    &&& (res is Ok <==> pss_accepts(self.nv(), self.ev(), signature.v(),
                        message@, params.hash_algorithm, params.mask_gen_algorithm->Mgf1_0,
                        params.salt_length as nat))
                    &&& (res is Err ==> res == Err::<(), Error>(Error::SignatureInvalid))
                })
            },
    {
        match algorithm {
            SignatureAlgorithmIdentifier::RsaPss(params) => self.verify_pss(message, signature,
                params),
            SignatureAlgorithmIdentifier::Unknown(_) => Err(Error::AlgorithmUnsupported),
        }
    }

    /// Verifies an RSASSA-PSS signature per RFC 8017 §9.1.2, hashing the
    /// message inside. Accepts exactly when `pss_accepts` holds.
    pub fn verify_pss(&self, message: &[u8], signature: &ModRingElement, params:
        &RsaPssParameters) -> (res: Result<(), Error>)
        requires
            self.wf(),
            signature.wf(),
            signature.p() == self.nv(),
        ensures
            params.trailer_field != 1 ==> res == Err::<(), Error>(Error::AlgorithmUnsupported),
            params.trailer_field == 1 && !(params.mask_gen_algorithm is Mgf1) ==> res == Err::<
                (),
                Error,
            >(Error::AlgorithmUnsupported),
            params.trailer_field == 1 && params.mask_gen_algorithm is Mgf1 ==> {
                &&& (res is Ok <==> pss_accepts(self.nv(), self.ev(), signature.v(), message@,
                    params.hash_algorithm, params.mask_gen_algorithm->Mgf1_0,
                    params.salt_length as nat))
                &&& (res is Err ==> res == Err::<(), Error>(Error::SignatureInvalid))
            },
    {
        let ghost n = self.nv();
        if params.trailer_field != 1 {
            return Err(Error::AlgorithmUnsupported);
        }
        let galg = match &params.mask_gen_algorithm {
            MaskGenAlgorithm::Mgf1(g) => *g,
            MaskGenAlgorithm::Unknown(_) => {
                return Err(Error::AlgorithmUnsupported);
            },
        };
        let slen = params.salt_length;
        // EM = signature^e mod n, as emLen = ceil((k−1)/8) bytes
        let em = signature.pow_ct(&self.public_exponent);
        let em_u = em.to_uint();
        let modulus = self.ring.modulus();
        let n_bits = u_bit_len(&modulus);
        proof {
            assert(n > 1);
            lemma_bit_len_spec_unique(n, n_bits as nat);
        }
        let em_len = (n_bits + 6) / 8;
        proof {
            assert(n >= 3);
            if n_bits < 2 {
                vstd::arithmetic::power2::lemma2_to64();
                assert(false);
            }
            vstd::arithmetic::div_mod::lemma_div_by_self(8);
            vstd::arithmetic::div_mod::lemma_div_is_ordered(8, (n_bits + 6) as int, 8);
            assert(em_len >= 1);
            vstd::arithmetic::div_mod::lemma_div_is_ordered((n_bits + 6) as int, 2054, 8);
            assert(em_len <= 2054int / 8);
            vstd::arithmetic::div_mod::lemma_fundamental_div_mod((n_bits + 6) as int, 8);
            vstd::arithmetic::div_mod::lemma_mod_bound((n_bits + 6) as int, 8);
            assert(8 * em_len <= n_bits + 6);
        }
        let em_bl = u_bit_len(&em_u);
        if em_bl > 8 * em_len {
            proof {
                if pow_mod(signature.v(), self.ev(), n) < pow2(8 * em_len as nat) {
                    if em_bl > 0 {
                        vstd::arithmetic::power2::lemma_pow2_strictly_increases(
                            8 * em_len as nat, (em_bl - 1) as nat);
                    }
                }
            }
            return Err(Error::SignatureInvalid);
        }
        proof {
            if (em_bl as nat) < 8 * em_len as nat {
                vstd::arithmetic::power2::lemma_pow2_strictly_increases(em_bl as nat,
                    8 * em_len as nat);
            }
        }
        if em_len > 256 {
            proof {
                assert(false);
            }
            return Err(Error::SignatureInvalid);
        }
        let em_b = encode_uint_fixed(&em_u, em_len);
        let h_len = params.hash_algorithm.hash_len();
        if em_len < h_len + 2 || em_len - (h_len + 2) < slen {
            return Err(Error::SignatureInvalid);
        }
        // trailer byte
        let last = em_b[em_len - 1];
        if last != 0xbc {
            return Err(Error::SignatureInvalid);
        }
        // split maskedDB ‖ H
        let db_len = em_len - h_len - 1;
        let masked = slice_subrange(em_b.as_slice(), 0, db_len);
        let h = slice_subrange(em_b.as_slice(), db_len, em_len - 1);
        proof {
            assert(masked@ =~= em_b@.take(db_len as int));
        }
        // unmask DB and clear the spare top bits
        let mask = mgf1(&galg, h, db_len);
        let em_bits = n_bits - 1;
        let shift = 8 * em_len - em_bits;
        proof {
            assert(shift <= 7) by {
                vstd::arithmetic::div_mod::lemma_fundamental_div_mod((n_bits + 6) as int, 8);
                vstd::arithmetic::div_mod::lemma_mod_bound((n_bits + 6) as int, 8);
            }
        }
        let maskbyte = 0xffu8 >> shift;
        let mut db: Vec<u8> = Vec::new();
        let first = masked[0] ^ mask[0];
        db.push(first & maskbyte);
        let mut i: usize = 1;
        while i < db_len
            invariant
                1 <= i <= db_len,
                db_len == masked@.len(),
                db_len <= mask@.len(),
                db@.len() == i,
                db@[0] == (masked@[0] ^ mask@[0]) & maskbyte,
                forall|j: int| 1 <= j < i ==> db@[j] == masked@[j] ^ mask@[j],
            decreases db_len - i,
        {
            let byte = masked[i] ^ mask[i];
            db.push(byte);
            i = i + 1;
        }
        proof {
            assert(db@ =~= mask_first(xor_bytes(masked@, mask@), maskbyte));
        }
        // the padding must be zeros, then 0x01
        let pad_len = db_len - slen - 1;
        let mut j: usize = 0;
        let mut pad_ok = true;
        while j < pad_len
            invariant
                j <= pad_len,
                pad_len < db@.len(),
                pad_ok ==> (forall|t: int| 0 <= t < j ==> db@[t] == 0),
                !pad_ok ==> (exists|t: int| 0 <= t < j && db@[t] != 0),
            decreases pad_len - j,
        {
            if db[j] != 0 {
                proof {
                    assert(db@[j as int] != 0);
                }
                pad_ok = false;
            }
            j = j + 1;
        }
        if !pad_ok {
            return Err(Error::SignatureInvalid);
        }
        if db[pad_len] != 0x01 {
            return Err(Error::SignatureInvalid);
        }
        // recovered salt, and the final hash comparison
        let salt = slice_subrange(db.as_slice(), db_len - slen, db_len);
        proof {
            assert(salt@ =~= db@.skip((db_len - slen) as int));
        }
        let mh = params.hash_algorithm.hash_bytes(message);
        let mut pre: Vec<u8> = Vec::new();
        pre.push(0);
        pre.push(0);
        pre.push(0);
        pre.push(0);
        pre.push(0);
        pre.push(0);
        pre.push(0);
        pre.push(0);
        let mut mh2 = mh;
        pre.append(&mut mh2);
        let mut salt2: Vec<u8> = Vec::new();
        salt2.extend_from_slice(salt);
        let mut salt2 = salt2;
        pre.append(&mut salt2);
        proof {
            assert(pre@ =~= seq![0u8, 0u8, 0u8, 0u8, 0u8, 0u8, 0u8, 0u8] + digest_of(
                params.hash_algorithm, message@) + salt@);
        }
        let hp = params.hash_algorithm.hash_bytes(pre.as_slice());
        if bytes_eq(hp.as_slice(), h) {
            Ok(())
        } else {
            Err(Error::SignatureInvalid)
        }
    }
}

impl RSAPublicKey {
    /// Verifies an RSASSA-PSS signature given as bytes, applying RFC 8017
    /// §9.1.2 step 1 first: the signature must be exactly ⌈k/8⌉ bytes and,
    /// as an integer, below the modulus.
    pub fn verify_pss_bytes(&self, message: &[u8], signature: &[u8], params:
        &RsaPssParameters) -> (res: Result<(), Error>)
        requires
            self.wf(),
        ensures
            signature@.len() != (bit_len_spec(self.nv()) + 7) / 8 ==> res == Err::<(), Error>(
                Error::SignatureInvalid),
            signature@.len() == (bit_len_spec(self.nv()) + 7) / 8 && be_val(signature@)
                >= self.nv() ==> res == Err::<(), Error>(Error::SignatureInvalid),
            signature@.len() == (bit_len_spec(self.nv()) + 7) / 8 && be_val(signature@)
                < self.nv() ==> {
                &&& (params.trailer_field != 1 ==> res == Err::<(), Error>(
                    Error::AlgorithmUnsupported))
                &&& (params.trailer_field == 1 && !(params.mask_gen_algorithm is Mgf1) ==> res
                    == Err::<(), Error>(Error::AlgorithmUnsupported))
                &&& (params.trailer_field == 1 && params.mask_gen_algorithm is Mgf1 ==> {
                    &&& (res is Ok <==> pss_accepts(self.nv(), self.ev(), be_val(signature@),
                        message@, params.hash_algorithm, params.mask_gen_algorithm->Mgf1_0,
                        params.salt_length as nat))
                    &&& (res is Err ==> res == Err::<(), Error>(Error::SignatureInvalid)
                        || res == Err::<(), Error>(Error::AlgorithmUnsupported))
                })
            },
    {
        let modulus = self.ring.modulus();
        let n_bits = u_bit_len(&modulus);
        proof {
            assert(self.nv() >= 3);
            if n_bits < 2 {
                vstd::arithmetic::power2::lemma2_to64();
                assert(false);
            }
            lemma_bit_len_spec_unique(self.nv(), n_bits as nat);
        }
        let k_len = (n_bits + 7) / 8;
        if signature.len() != k_len {
            return Err(Error::SignatureInvalid);
        }
        proof {
            vstd::arithmetic::div_mod::lemma_div_is_ordered((n_bits + 7) as int, 2055, 8);
            assert(k_len <= 2055int / 8);
        }
        let s_u = u_from_be_slice(signature);
        if !u_lt(&s_u, &modulus) {
            return Err(Error::SignatureInvalid);
        }
        let s_elem = self.ring.from(s_u);
        self.verify_pss(message, &s_elem, params)
    }
}

} // verus!
