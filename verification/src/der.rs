//! DER parsing for the leaf structures the signature formats need:
//! digest algorithm identifiers, RSASSA-PSS parameters with their
//! defaults restored, signature algorithm identifiers, and
//! SubjectPublicKeyInfo for RSA and EC keys.

use vstd::prelude::*;
use vstd::slice::{slice_subrange, slice_index_get};
use crate::uint::{Wide, uval, be_val, u_from_be_slice};
use crate::hash::{DigestAlgorithmIdentifier, DigestAlgorithmParameters};
use crate::sigalg::{MaskGenAlgorithm, RsaPssParameters, SignatureAlgorithmIdentifier};
use crate::icao::{Icao9303Codec, spec_decode_ber_size};
use crate::error::Error;

verus! {

/// The DER body of the SHA-1 object identifier.
pub open spec fn oid_sha1() -> Seq<u8> {
    seq![0x2bu8, 0x0e, 0x03, 0x02, 0x1a]
}

/// The DER body of the SHA-256 object identifier.
pub open spec fn oid_sha256() -> Seq<u8> {
    seq![0x60u8, 0x86, 0x48, 0x01, 0x65, 0x03, 0x04, 0x02, 0x01]
}

/// The DER body of the SHA-384 object identifier.
pub open spec fn oid_sha384() -> Seq<u8> {
    seq![0x60u8, 0x86, 0x48, 0x01, 0x65, 0x03, 0x04, 0x02, 0x02]
}

/// The DER body of the SHA-512 object identifier.
pub open spec fn oid_sha512() -> Seq<u8> {
    seq![0x60u8, 0x86, 0x48, 0x01, 0x65, 0x03, 0x04, 0x02, 0x03]
}

/// The DER body of the MGF1 object identifier.
pub open spec fn oid_mgf1() -> Seq<u8> {
    seq![0x2au8, 0x86, 0x48, 0x86, 0xf7, 0x0d, 0x01, 0x01, 0x08]
}

/// The DER body of the RSASSA-PSS object identifier.
pub open spec fn oid_rsassa_pss() -> Seq<u8> {
    seq![0x2au8, 0x86, 0x48, 0x86, 0xf7, 0x0d, 0x01, 0x01, 0x0a]
}

/// The DER body of the rsaEncryption object identifier.
pub open spec fn oid_rsa_encryption() -> Seq<u8> {
    seq![0x2au8, 0x86, 0x48, 0x86, 0xf7, 0x0d, 0x01, 0x01, 0x01]
}

/// The DER body of the id-ecPublicKey object identifier.
pub open spec fn oid_ec_public_key() -> Seq<u8> {
    seq![0x2au8, 0x86, 0x48, 0xce, 0x3d, 0x02, 0x01]
}

/// The digest algorithm a digest OID names, with absent parameters.
pub open spec fn alg_of_oid(oid: Seq<u8>) -> Option<DigestAlgorithmIdentifier> {
    if oid == oid_sha1() {
        Some(DigestAlgorithmIdentifier::Sha1(DigestAlgorithmParameters::Absent))
    } else if oid == oid_sha256() {
        Some(DigestAlgorithmIdentifier::Sha256(DigestAlgorithmParameters::Absent))
    } else if oid == oid_sha384() {
        Some(DigestAlgorithmIdentifier::Sha384(DigestAlgorithmParameters::Absent))
    } else if oid == oid_sha512() {
        Some(DigestAlgorithmIdentifier::Sha512(DigestAlgorithmParameters::Absent))
    } else {
        None
    }
}

/// The same algorithm with the parameter presence replaced.
pub open spec fn with_params(alg: DigestAlgorithmIdentifier, p: DigestAlgorithmParameters) ->
    DigestAlgorithmIdentifier {
    match alg {
        DigestAlgorithmIdentifier::Sha1(_) => DigestAlgorithmIdentifier::Sha1(p),
        DigestAlgorithmIdentifier::Sha256(_) => DigestAlgorithmIdentifier::Sha256(p),
        DigestAlgorithmIdentifier::Sha384(_) => DigestAlgorithmIdentifier::Sha384(p),
        DigestAlgorithmIdentifier::Sha512(_) => DigestAlgorithmIdentifier::Sha512(p),
    }
}

/// Reading one DER field at `off`: its tag and the bounds of its content.
pub open spec fn spec_der_tlv(s: Seq<u8>, off: int) -> Option<(u8, int, int)> {
    if 0 <= off < s.len() {
        match spec_decode_ber_size(s.skip(off + 1)) {
            None => None,
            Some((v, used)) => {
                if off + 1 + used + v <= s.len() {
                    Some((s[off], off + 1 + used, off + 1 + used + v as int))
                } else {
                    None
                }
            },
        }
    } else {
        None
    }
}


/// The digest-identifier grammar: `SEQUENCE { oid [, NULL] }` with a known
/// digest OID, the fields inside the sequence's bounds.
pub open spec fn spec_digest_alg_ok(s: Seq<u8>) -> bool {
    let outer = spec_der_tlv(s, 0);
    &&& outer is Some
    &&& outer.unwrap().0 == 0x30
    &&& {
        let inner = spec_der_tlv(s, outer.unwrap().1);
        &&& inner is Some
        &&& inner.unwrap().0 == 0x06
        &&& inner.unwrap().2 <= outer.unwrap().2
        &&& alg_of_oid(s.subrange(inner.unwrap().1, inner.unwrap().2)) is Some
        &&& (inner.unwrap().2 == outer.unwrap().2 || {
            let nul = spec_der_tlv(s, inner.unwrap().2);
            &&& nul is Some
            &&& nul.unwrap().0 == 0x05
            &&& nul.unwrap().1 == nul.unwrap().2
            &&& nul.unwrap().2 == outer.unwrap().2
        })
    }
}

/// The identifier such an encoding carries.
pub open spec fn spec_digest_alg(s: Seq<u8>) -> DigestAlgorithmIdentifier {
    let outer = spec_der_tlv(s, 0);
    let inner = spec_der_tlv(s, outer.unwrap().1);
    with_params(alg_of_oid(s.subrange(inner.unwrap().1, inner.unwrap().2)).unwrap(), if
        inner.unwrap().2 == outer.unwrap().2 {
        DigestAlgorithmParameters::Absent
    } else {
        DigestAlgorithmParameters::Null
    })
}

/// Reads one DER field: the tag, its content, and the offset just past it.
fn read_tlv(data: &[u8], off: usize) -> (r: Result<(u8, Vec<u8>, usize), Error>)
    requires
        off <= data@.len(),
    ensures
        r is Ok <==> spec_der_tlv(data@, off as int) is Some,
        match r {
            Ok((tag, content, end)) => {
                let (t, cs, ce) = spec_der_tlv(data@, off as int).unwrap();
                &&& tag == t
                &&& content@ == data@.subrange(cs, ce)
                &&& end as int == ce
                &&& off < end <= data@.len()
            },
            Err(_) => true,
        },
{
    let n = data.len();
    if off >= n {
        return Err(Error::EncodingMalformed);
    }
    let tag = *slice_index_get(data, off);
    let rest = slice_subrange(data, off + 1, n);
    let mut codec = Icao9303Codec {
        non_minimal_length: crate::icao::Leniency::Allow,
        leading_zeros: crate::icao::Leniency::Allow,
        read_order: crate::icao::Leniency::Allow,
        unknown_tag: crate::icao::Leniency::Allow,
        missing_cofactor: crate::icao::Leniency::Allow,
        diagnostics: 0,
    };
    let (lsz, used) = match codec.decode_ber_size(rest) {
        Ok(x) => x,
        Err(e) => {
            proof {
                // with every policy permissive, the only failures are a
                // failed parse or a length that cannot fit an address;
                // the latter cannot satisfy the in-buffer bound either
                assert(data@.skip(off as int + 1) =~= rest@);
                if spec_der_tlv(data@, off as int) is Some {
                    assert(spec_decode_ber_size(rest@) is Some);
                    let (v, _u) = spec_decode_ber_size(rest@).unwrap();
                    assert(v <= data@.len());
                    assert(data@.len() <= usize::MAX as nat);
                }
            }
            return Err(e);
        },
    };
    let len = lsz.0;
    if n - off < 1 + used || n - off - 1 - used < len {
        proof {
            assert(data@.skip(off as int + 1) =~= rest@);
        }
        return Err(Error::EncodingMalformed);
    }
    let cs = off + 1 + used;
    let content = slice_subrange(data, cs, cs + len);
    let mut out: Vec<u8> = Vec::new();
    out.extend_from_slice(content);
    proof {
        assert(data@.skip(off as int + 1) =~= rest@);
        assert(out@ =~= data@.subrange(cs as int, cs as int + len as int));
    }
    Ok((tag, out, cs + len))
}

/// Compares a byte buffer against a fixed OID body.
fn oid_matches(content: &Vec<u8>, w: &[u8]) -> (r: bool)
    ensures
        r == (content@ == w@),
{
    crate::rsa::bytes_eq(content.as_slice(), w)
}

/// Decodes a digest algorithm identifier: `SEQUENCE { oid [, NULL] }`,
/// recognizing the SHA family and recording whether the parameters were
/// absent or an explicit NULL.
pub fn digest_algorithm_from_der(data: &[u8]) -> (r: Result<DigestAlgorithmIdentifier, Error>)
    ensures
        r is Ok <==> spec_digest_alg_ok(data@),
        r is Ok ==> r.unwrap() == spec_digest_alg(data@),
{
    let (tag, seq_content, outer_end) = read_tlv(data, 0)?;
    if tag != 0x30 {
        return Err(Error::EncodingMalformed);
    }
    // the content of the sequence starts where the OID field begins
    let ghost outer = spec_der_tlv(data@, 0).unwrap();
    let inner_off = outer_end - seq_content.len();
    proof {
        assert(inner_off as int == outer.1);
    }
    let (otag, oid, oid_end) = read_tlv(data, inner_off)?;
    if otag != 0x06 {
        return Err(Error::EncodingMalformed);
    }
    if oid_end > outer_end {
        return Err(Error::EncodingMalformed);
    }
    let base = if oid_matches(&oid, &[0x2bu8, 0x0e, 0x03, 0x02, 0x1a]) {
        DigestAlgorithmIdentifier::Sha1(DigestAlgorithmParameters::Absent)
    } else if oid_matches(&oid, &[0x60u8, 0x86, 0x48, 0x01, 0x65, 0x03, 0x04, 0x02, 0x01]) {
        DigestAlgorithmIdentifier::Sha256(DigestAlgorithmParameters::Absent)
    } else if oid_matches(&oid, &[0x60u8, 0x86, 0x48, 0x01, 0x65, 0x03, 0x04, 0x02, 0x02]) {
        DigestAlgorithmIdentifier::Sha384(DigestAlgorithmParameters::Absent)
    } else if oid_matches(&oid, &[0x60u8, 0x86, 0x48, 0x01, 0x65, 0x03, 0x04, 0x02, 0x03]) {
        DigestAlgorithmIdentifier::Sha512(DigestAlgorithmParameters::Absent)
    } else {
        return Err(Error::AlgorithmUnsupported);
    };
    proof {
        assert(oid@ == data@.subrange(spec_der_tlv(data@, outer.1).unwrap().1, spec_der_tlv(
            data@, outer.1).unwrap().2));
    }
    if oid_end == outer_end {
        Ok(base)
    } else {
        // an explicit NULL must close the sequence exactly
        let (ntag, ncontent, nend) = read_tlv(data, oid_end)?;
        if ntag != 0x05 || ncontent.len() != 0 || nend != outer_end {
            return Err(Error::EncodingMalformed);
        }
        Ok(match base {
            DigestAlgorithmIdentifier::Sha1(_) => DigestAlgorithmIdentifier::Sha1(
                DigestAlgorithmParameters::Null),
            DigestAlgorithmIdentifier::Sha256(_) => DigestAlgorithmIdentifier::Sha256(
                DigestAlgorithmParameters::Null),
            DigestAlgorithmIdentifier::Sha384(_) => DigestAlgorithmIdentifier::Sha384(
                DigestAlgorithmParameters::Null),
            DigestAlgorithmIdentifier::Sha512(_) => DigestAlgorithmIdentifier::Sha512(
                DigestAlgorithmParameters::Null),
        })
    }
}


/// A context-tagged optional field is present at `off`.
pub open spec fn pss_field_present(s: Seq<u8>, off: int, tag: u8) -> bool {
    off < s.len() && spec_der_tlv(s, off) is Some && spec_der_tlv(s, off).unwrap().0 == tag
}

/// The field's content at `off`.
pub open spec fn pss_field_content(s: Seq<u8>, off: int) -> Seq<u8> {
    let t = spec_der_tlv(s, off).unwrap();
    s.subrange(t.1, t.2)
}

/// The offset after an optional field: past it when present, unchanged
/// when absent.
pub open spec fn pss_field_next(s: Seq<u8>, off: int, tag: u8) -> int {
    if pss_field_present(s, off, tag) {
        spec_der_tlv(s, off).unwrap().2
    } else {
        off
    }
}

/// The offsets after each of the four optional RFC 4055 fields.
pub open spec fn pss_off1(s: Seq<u8>) -> int {
    pss_field_next(s, 0, 0xa0)
}

/// See `pss_off1`.
pub open spec fn pss_off2(s: Seq<u8>) -> int {
    pss_field_next(s, pss_off1(s), 0xa1)
}

/// See `pss_off1`.
pub open spec fn pss_off3(s: Seq<u8>) -> int {
    pss_field_next(s, pss_off2(s), 0xa2)
}

/// See `pss_off1`.
pub open spec fn pss_off4(s: Seq<u8>) -> int {
    pss_field_next(s, pss_off3(s), 0xa3)
}

/// The RSASSA-PSS parameter grammar: up to four tagged optional fields in
/// order, each well-formed, consuming the whole buffer.
pub open spec fn spec_pss_params_ok(s: Seq<u8>) -> bool {
    &&& (0 < s.len() ==> spec_der_tlv(s, 0) is Some)
    &&& (pss_field_present(s, 0, 0xa0) ==> spec_digest_alg_ok(pss_field_content(s, 0)))
    &&& (pss_off1(s) < s.len() ==> spec_der_tlv(s, pss_off1(s)) is Some)
    &&& (pss_field_present(s, pss_off1(s), 0xa1) ==> spec_mask_gen_ok(pss_field_content(s,
        pss_off1(s))))
    &&& (pss_off2(s) < s.len() ==> spec_der_tlv(s, pss_off2(s)) is Some)
    &&& (pss_field_present(s, pss_off2(s), 0xa2) ==> spec_small_int_ok(pss_field_content(s,
        pss_off2(s))))
    &&& (pss_off3(s) < s.len() ==> spec_der_tlv(s, pss_off3(s)) is Some)
    &&& (pss_field_present(s, pss_off3(s), 0xa3) ==> spec_small_int_ok(pss_field_content(s,
        pss_off3(s))))
    &&& pss_off4(s) == s.len()
}

/// The hash field: parsed when present, SHA-1 by default.
pub open spec fn spec_pss_hash(s: Seq<u8>) -> DigestAlgorithmIdentifier {
    if pss_field_present(s, 0, 0xa0) {
        spec_digest_alg(pss_field_content(s, 0))
    } else {
        DigestAlgorithmIdentifier::Sha1(DigestAlgorithmParameters::Absent)
    }
}

/// The mask field matches: parsed when present, MGF1 over SHA-1 by default.
pub open spec fn spec_pss_mask_matches(s: Seq<u8>, m: MaskGenAlgorithm) -> bool {
    if pss_field_present(s, pss_off1(s), 0xa1) {
        mask_gen_matches(pss_field_content(s, pss_off1(s)), m)
    } else {
        m == MaskGenAlgorithm::Mgf1(DigestAlgorithmIdentifier::Sha1(
            DigestAlgorithmParameters::Absent,
        ))
    }
}

/// The salt length: parsed when present, 20 by default.
pub open spec fn spec_pss_salt(s: Seq<u8>) -> nat {
    if pss_field_present(s, pss_off2(s), 0xa2) {
        spec_small_int_val(pss_field_content(s, pss_off2(s)))
    } else {
        20
    }
}

/// The trailer field: parsed when present, 1 by default.
pub open spec fn spec_pss_trailer(s: Seq<u8>) -> nat {
    if pss_field_present(s, pss_off3(s), 0xa3) {
        spec_small_int_val(pss_field_content(s, pss_off3(s)))
    } else {
        1
    }
}

/// Decodes RSASSA-PSS parameters (RFC 4055): the four optional
/// context-tagged fields, with the omitted ones restored to their
/// defaults.
pub fn rsa_pss_parameters_from_der(data: &[u8]) -> (r: Result<RsaPssParameters, Error>)
    ensures
        r is Ok <==> spec_pss_params_ok(data@),
        r is Ok ==> {
            let p = r.unwrap();
            &&& p.hash_algorithm == spec_pss_hash(data@)
            &&& spec_pss_mask_matches(data@, p.mask_gen_algorithm)
            &&& p.salt_length as nat == spec_pss_salt(data@)
            &&& p.trailer_field as nat == spec_pss_trailer(data@)
        },
{
    let n = data.len();
    let mut hash_algorithm = crate::sigalg::default_hash_algorithm();
    let mut mask_gen_algorithm = crate::sigalg::default_mask_gen_algorithm();
    let mut salt_length = crate::sigalg::default_salt_length();
    let mut trailer_field = crate::sigalg::default_trailer_field();
    let mut off: usize = 0;
    if off < n {
        let (tag, content, end) = read_tlv(data, off)?;
        if tag == 0xa0 {
            hash_algorithm = digest_algorithm_from_der(content.as_slice())?;
            off = end;
        }
    }
    proof {
        assert(off as int == pss_off1(data@));
    }
    if off < n {
        let (tag, content, end) = read_tlv(data, off)?;
        if tag == 0xa1 {
            mask_gen_algorithm = mask_gen_from_der(content.as_slice())?;
            off = end;
        }
    }
    proof {
        assert(off as int == pss_off2(data@));
    }
    if off < n {
        let (tag, content, end) = read_tlv(data, off)?;
        if tag == 0xa2 {
            salt_length = small_int_from_der(content.as_slice())?;
            off = end;
        }
    }
    proof {
        assert(off as int == pss_off3(data@));
    }
    if off < n {
        let (tag, content, end) = read_tlv(data, off)?;
        if tag == 0xa3 {
            trailer_field = small_int_from_der(content.as_slice())?;
            off = end;
        }
    }
    proof {
        assert(off as int == pss_off4(data@));
    }
    if off != n {
        return Err(Error::EncodingMalformed);
    }
    Ok(RsaPssParameters { hash_algorithm, mask_gen_algorithm, salt_length, trailer_field })
}

/// The mask-generation grammar: `SEQUENCE { oid, … }`; when the OID is
/// MGF1, a digest identifier follows inside the sequence.
pub open spec fn spec_mask_gen_ok(s: Seq<u8>) -> bool {
    let outer = spec_der_tlv(s, 0);
    &&& outer is Some
    &&& outer.unwrap().0 == 0x30
    &&& {
        let c = s.subrange(outer.unwrap().1, outer.unwrap().2);
        let oid = spec_der_tlv(c, 0);
        &&& oid is Some
        &&& oid.unwrap().0 == 0x06
        &&& (c.subrange(oid.unwrap().1, oid.unwrap().2) == oid_mgf1()
            ==> spec_digest_alg_ok(c.skip(oid.unwrap().2)))
    }
}

/// `m` is what such an encoding decodes to: MGF1 with the inner digest
/// exactly when the OID says MGF1, otherwise the raw bytes kept whole.
pub open spec fn mask_gen_matches(s: Seq<u8>, m: MaskGenAlgorithm) -> bool {
    let outer = spec_der_tlv(s, 0);
    let c = s.subrange(outer.unwrap().1, outer.unwrap().2);
    let oid = spec_der_tlv(c, 0);
    &&& (m is Mgf1 <==> c.subrange(oid.unwrap().1, oid.unwrap().2) == oid_mgf1())
    &&& (m is Mgf1 ==> m->Mgf1_0 == spec_digest_alg(c.skip(oid.unwrap().2)))
    &&& (m is Unknown ==> m->Unknown_0@ == s)
}

/// Decodes a mask generation algorithm: `SEQUENCE { oid-mgf1, digest }`,
/// anything else kept as its raw bytes.
pub fn mask_gen_from_der(data: &[u8]) -> (r: Result<MaskGenAlgorithm, Error>)
    ensures
        r is Ok <==> spec_mask_gen_ok(data@),
        r is Ok ==> mask_gen_matches(data@, r.unwrap()),
{
    let (tag, content, _end) = read_tlv(data, 0)?;
    if tag != 0x30 {
        return Err(Error::EncodingMalformed);
    }
    let (otag, oid, oid_end) = read_tlv(content.as_slice(), 0)?;
    if otag != 0x06 {
        return Err(Error::EncodingMalformed);
    }
    if oid_matches(&oid, &[0x2au8, 0x86, 0x48, 0x86, 0xf7, 0x0d, 0x01, 0x01, 0x08]) {
        let rest = slice_subrange(content.as_slice(), oid_end, content.len());
        proof {
            assert(rest@ =~= content@.skip(oid_end as int));
        }
        let inner = digest_algorithm_from_der(rest)?;
        Ok(MaskGenAlgorithm::Mgf1(inner))
    } else {
        let mut raw: Vec<u8> = Vec::new();
        raw.extend_from_slice(data);
        proof {
            assert(raw@ =~= data@);
        }
        Ok(MaskGenAlgorithm::Unknown(raw))
    }
}


/// The small-integer grammar: an INTEGER field of one to four bytes.
pub open spec fn spec_small_int_ok(s: Seq<u8>) -> bool {
    let t = spec_der_tlv(s, 0);
    &&& t is Some
    &&& t.unwrap().0 == 0x02
    &&& 1 <= t.unwrap().2 - t.unwrap().1 <= 4
}

/// The value such a field carries.
pub open spec fn spec_small_int_val(s: Seq<u8>) -> nat {
    let t = spec_der_tlv(s, 0);
    be_val(s.subrange(t.unwrap().1, t.unwrap().2))
}

/// Decodes a small non-negative DER INTEGER into a `usize`.
fn small_int_from_der(data: &[u8]) -> (r: Result<usize, Error>)
    ensures
        r is Ok <==> spec_small_int_ok(data@),
        r is Ok ==> r.unwrap() as nat == spec_small_int_val(data@),
{
    let (tag, content, _end) = read_tlv(data, 0)?;
    if tag != 0x02 {
        return Err(Error::EncodingMalformed);
    }
    let m = content.len();
    if m == 0 || m > 4 {
        return Err(Error::EncodingMalformed);
    }
    let mut v: u64 = 0;
    let mut i: usize = 0;
    while i < m
        invariant
            i <= m,
            m <= 4,
            m == content@.len(),
            v < 0x1_0000_0000u64,
            v as nat == be_val(content@.take(i as int)),
        decreases m - i,
    {
        proof {
            assert(v * 256 + 255 < 0x100_0000_0000u64) by (nonlinear_arith)
                requires
                    v < 0x1_0000_0000u64,
            ;
            assert(content@.take(i + 1).drop_last() =~= content@.take(i as int));
            crate::modmath::lemma_be_val_bound(content@.take(i + 1));
            vstd::arithmetic::power2::lemma2_to64();
            if 8 * (i + 1) < 32 {
                vstd::arithmetic::power2::lemma_pow2_strictly_increases(8 * (i + 1) as nat,
                    32);
            }
        }
        v = v * 256 + (content[i] as u64);
        if v >= 0x1_0000_0000 {
            proof {
                assert(false);
            }
            return Err(Error::EncodingMalformed);
        }
        i = i + 1;
    }
    proof {
        assert(content@.take(m as int) =~= content@);
        vstd::arithmetic::power2::lemma2_to64_rest();
    }
    let out = v as usize;
    if out as u64 != v {
        proof {
            assert(false);
        }
        return Err(Error::EncodingMalformed);
    }
    Ok(out)
}


/// The signature-algorithm grammar: `SEQUENCE { oid, params }`, the
/// RSASSA-PSS parameters well-formed whenever the OID names RSASSA-PSS.
pub open spec fn spec_sig_alg_ok(s: Seq<u8>) -> bool {
    let outer = spec_der_tlv(s, 0);
    &&& outer is Some
    &&& outer.unwrap().0 == 0x30
    &&& {
        let c = s.subrange(outer.unwrap().1, outer.unwrap().2);
        let oid = spec_der_tlv(c, 0);
        &&& oid is Some
        &&& oid.unwrap().0 == 0x06
        &&& (c.subrange(oid.unwrap().1, oid.unwrap().2) == oid_rsassa_pss() ==> {
            let params = spec_der_tlv(c, oid.unwrap().2);
            &&& params is Some
            &&& params.unwrap().0 == 0x30
            &&& spec_pss_params_ok(c.subrange(params.unwrap().1, params.unwrap().2))
        })
    }
}

/// The PSS parameter bytes inside a signature-algorithm encoding.
pub open spec fn spec_sig_alg_pss_bytes(s: Seq<u8>) -> Seq<u8> {
    let outer = spec_der_tlv(s, 0);
    let c = s.subrange(outer.unwrap().1, outer.unwrap().2);
    let oid = spec_der_tlv(c, 0);
    let params = spec_der_tlv(c, oid.unwrap().2);
    c.subrange(params.unwrap().1, params.unwrap().2)
}

/// Decodes a signature algorithm identifier: `SEQUENCE { oid, params }`.
/// RSASSA-PSS is recognized; anything else is kept as its raw bytes.
pub fn signature_algorithm_from_der(data: &[u8]) -> (r: Result<SignatureAlgorithmIdentifier,
    Error>)
    ensures
        r is Ok <==> spec_sig_alg_ok(data@),
        r is Ok ==> {
            let outer = spec_der_tlv(data@, 0);
            let c = data@.subrange(outer.unwrap().1, outer.unwrap().2);
            let inner = spec_der_tlv(c, 0);
            &&& (r.unwrap() is RsaPss <==> c.subrange(inner.unwrap().1, inner.unwrap().2)
                == oid_rsassa_pss())
            &&& (r.unwrap() is RsaPss ==> {
                let pb = spec_sig_alg_pss_bytes(data@);
                let p = r.unwrap()->RsaPss_0;
                &&& p.hash_algorithm == spec_pss_hash(pb)
                &&& spec_pss_mask_matches(pb, p.mask_gen_algorithm)
                &&& p.salt_length as nat == spec_pss_salt(pb)
                &&& p.trailer_field as nat == spec_pss_trailer(pb)
            })
            &&& (r.unwrap() is Unknown ==> r.unwrap()->Unknown_0@ == data@)
        },
{
    let (tag, content, _end) = read_tlv(data, 0)?;
    if tag != 0x30 {
        return Err(Error::EncodingMalformed);
    }
    let (otag, oid, oid_end) = read_tlv(content.as_slice(), 0)?;
    if otag != 0x06 {
        return Err(Error::EncodingMalformed);
    }
    if oid_matches(&oid, &[0x2au8, 0x86, 0x48, 0x86, 0xf7, 0x0d, 0x01, 0x01, 0x0a]) {
        // the parameters are themselves a SEQUENCE
        let (ptag, pcontent, _pend) = read_tlv(content.as_slice(), oid_end)?;
        if ptag != 0x30 {
            return Err(Error::EncodingMalformed);
        }
        let params = rsa_pss_parameters_from_der(pcontent.as_slice())?;
        Ok(SignatureAlgorithmIdentifier::RsaPss(params))
    } else {
        let mut raw: Vec<u8> = Vec::new();
        raw.extend_from_slice(data);
        proof {
            assert(raw@ =~= data@);
        }
        Ok(SignatureAlgorithmIdentifier::Unknown(raw))
    }
}

/// An RSA public key's numbers.
pub struct RsaPublicKeyInfo {
    pub modulus: Wide,
    pub public_exponent: Wide,
}

/// An EC public key: the raw SEC1 point octets.
pub struct EcPublicKeyInfo {
    pub point: Vec<u8>,
}

/// A SubjectPublicKeyInfo, dispatched on the algorithm OID.
pub enum SubjectPublicKeyInfo {
    Rsa(RsaPublicKeyInfo),
    Ec(EcPublicKeyInfo),
    Unknown(Vec<u8>),
}

/// Decodes a DER INTEGER's content into a 2048-bit value, stripping one
/// leading sign byte.
fn uint_from_der_integer(content: &Vec<u8>) -> (r: Result<Wide, Error>)
    ensures
        r is Ok <==> content@.len() - (if content@.len() > 0 && content@[0] == 0 {
            1int
        } else {
            0int
        }) <= 256,
        r is Ok ==> uval(r.unwrap()) == be_val(content@),
{
    let m = content.len();
    let start: usize = if m > 0 && content[0] == 0 {
        1
    } else {
        0
    };
    if m - start > 256 {
        return Err(Error::EncodingMalformed);
    }
    let body = slice_subrange(content.as_slice(), start, m);
    let w = u_from_be_slice(body);
    proof {
        assert(body@ =~= content@.skip(start as int));
        crate::modmath::lemma_be_val_zeros(content@, start as int);
    }
    Ok(w)
}


/// The key bits of a SubjectPublicKeyInfo: the BIT STRING's content with
/// its unused-bits octet removed.
pub open spec fn spec_spki_key_bits(s: Seq<u8>) -> Seq<u8> {
    let outer = spec_der_tlv(s, 0);
    let c = s.subrange(outer.unwrap().1, outer.unwrap().2);
    let alg = spec_der_tlv(c, 0);
    let bits = spec_der_tlv(c, alg.unwrap().2);
    c.subrange(bits.unwrap().1, bits.unwrap().2).skip(1)
}

/// The algorithm OID of a SubjectPublicKeyInfo.
pub open spec fn spec_spki_oid(s: Seq<u8>) -> Seq<u8> {
    let outer = spec_der_tlv(s, 0);
    let c = s.subrange(outer.unwrap().1, outer.unwrap().2);
    let alg = spec_der_tlv(c, 0);
    let a = c.subrange(alg.unwrap().1, alg.unwrap().2);
    let oid = spec_der_tlv(a, 0);
    a.subrange(oid.unwrap().1, oid.unwrap().2)
}

/// An RSA key's grammar inside the bit string: `SEQUENCE { INTEGER n,
/// INTEGER e }`, each integer fitting 2048 bits once its sign octet is
/// stripped.
pub open spec fn spec_rsa_key_ok(k: Seq<u8>) -> bool {
    let seq_t = spec_der_tlv(k, 0);
    &&& seq_t is Some
    &&& seq_t.unwrap().0 == 0x30
    &&& {
        let ks = k.subrange(seq_t.unwrap().1, seq_t.unwrap().2);
        let n_t = spec_der_tlv(ks, 0);
        &&& n_t is Some
        &&& n_t.unwrap().0 == 0x02
        &&& {
            let e_t = spec_der_tlv(ks, n_t.unwrap().2);
            &&& e_t is Some
            &&& e_t.unwrap().0 == 0x02
            &&& der_int_fits(ks.subrange(n_t.unwrap().1, n_t.unwrap().2))
            &&& der_int_fits(ks.subrange(e_t.unwrap().1, e_t.unwrap().2))
        }
    }
}

/// A DER INTEGER's magnitude fits 2048 bits after the sign octet.
pub open spec fn der_int_fits(c: Seq<u8>) -> bool {
    c.len() - (if c.len() > 0 && c[0] == 0 {
        1int
    } else {
        0int
    }) <= 256
}

/// The RSA modulus and exponent contents inside the bit string.
pub open spec fn spec_rsa_key_parts(k: Seq<u8>) -> (Seq<u8>, Seq<u8>) {
    let seq_t = spec_der_tlv(k, 0);
    let ks = k.subrange(seq_t.unwrap().1, seq_t.unwrap().2);
    let n_t = spec_der_tlv(ks, 0);
    let e_t = spec_der_tlv(ks, n_t.unwrap().2);
    (ks.subrange(n_t.unwrap().1, n_t.unwrap().2), ks.subrange(e_t.unwrap().1, e_t.unwrap().2))
}

/// The SubjectPublicKeyInfo grammar: the two nested sequences, the OID,
/// a non-empty BIT STRING, and, for the RSA algorithm, a well-formed key.
pub open spec fn spec_spki_ok(s: Seq<u8>) -> bool {
    let outer = spec_der_tlv(s, 0);
    &&& outer is Some
    &&& outer.unwrap().0 == 0x30
    &&& {
        let c = s.subrange(outer.unwrap().1, outer.unwrap().2);
        let alg = spec_der_tlv(c, 0);
        &&& alg is Some
        &&& alg.unwrap().0 == 0x30
        &&& {
            let a = c.subrange(alg.unwrap().1, alg.unwrap().2);
            let oid = spec_der_tlv(a, 0);
            &&& oid is Some
            &&& oid.unwrap().0 == 0x06
            &&& {
                let bits = spec_der_tlv(c, alg.unwrap().2);
                &&& bits is Some
                &&& bits.unwrap().0 == 0x03
                &&& bits.unwrap().2 - bits.unwrap().1 >= 1
                &&& (spec_spki_oid(s) == oid_rsa_encryption() ==> spec_rsa_key_ok(
                    spec_spki_key_bits(s)))
            }
        }
    }
}

/// Decodes a SubjectPublicKeyInfo: `SEQUENCE { SEQUENCE { oid, params },
/// BIT STRING key }`, with the RSA and EC algorithms recognized.
#[verifier::rlimit(100)]
pub fn spki_from_der(data: &[u8]) -> (r: Result<SubjectPublicKeyInfo, Error>)
    ensures
        r is Ok <==> spec_spki_ok(data@),
        r is Ok ==> {
            &&& (r.unwrap() is Rsa <==> spec_spki_oid(data@) == oid_rsa_encryption())
            &&& (r.unwrap() is Ec <==> spec_spki_oid(data@) == oid_ec_public_key())
            &&& (r.unwrap() is Rsa ==> {
                let (nb, eb) = spec_rsa_key_parts(spec_spki_key_bits(data@));
                &&& uval(r.unwrap()->Rsa_0.modulus) == be_val(nb)
                &&& uval(r.unwrap()->Rsa_0.public_exponent) == be_val(eb)
            })
            &&& (r.unwrap() is Ec ==> r.unwrap()->Ec_0.point@ == spec_spki_key_bits(data@))
            &&& (r.unwrap() is Unknown ==> r.unwrap()->Unknown_0@ == data@)
        },
{
    let (tag, content, _end) = read_tlv(data, 0)?;
    if tag != 0x30 {
        return Err(Error::EncodingMalformed);
    }
    let (atag, alg, alg_end) = read_tlv(content.as_slice(), 0)?;
    if atag != 0x30 {
        return Err(Error::EncodingMalformed);
    }
    let (otag, oid, _oid_end) = read_tlv(alg.as_slice(), 0)?;
    if otag != 0x06 {
        return Err(Error::EncodingMalformed);
    }
    let (btag, bits, _bend) = read_tlv(content.as_slice(), alg_end)?;
    if btag != 0x03 {
        return Err(Error::EncodingMalformed);
    }
    if bits.len() == 0 {
        return Err(Error::EncodingMalformed);
    }
    // the first octet of a BIT STRING counts unused bits; keys use zero
    let key = slice_subrange(bits.as_slice(), 1, bits.len());
    proof {
        assert(key@ =~= spec_spki_key_bits(data@));
    }
    if oid_matches(&oid, &[0x2au8, 0x86, 0x48, 0x86, 0xf7, 0x0d, 0x01, 0x01, 0x01]) {
        // rsaEncryption: the key is SEQUENCE { INTEGER n, INTEGER e }
        let (ktag, kseq, _kend) = read_tlv(key, 0)?;
        if ktag != 0x30 {
            return Err(Error::EncodingMalformed);
        }
        let (ntag, nint, n_end) = read_tlv(kseq.as_slice(), 0)?;
        if ntag != 0x02 {
            return Err(Error::EncodingMalformed);
        }
        let (etag, eint, _e_end) = read_tlv(kseq.as_slice(), n_end)?;
        if etag != 0x02 {
            return Err(Error::EncodingMalformed);
        }
        let modulus = uint_from_der_integer(&nint)?;
        let public_exponent = uint_from_der_integer(&eint)?;
        Ok(SubjectPublicKeyInfo::Rsa(RsaPublicKeyInfo { modulus, public_exponent }))
    } else if oid_matches(&oid, &[0x2au8, 0x86, 0x48, 0xce, 0x3d, 0x02, 0x01]) {
        let mut point: Vec<u8> = Vec::new();
        point.extend_from_slice(key);
        Ok(SubjectPublicKeyInfo::Ec(EcPublicKeyInfo { point }))
    } else {
        let mut raw: Vec<u8> = Vec::new();
        raw.extend_from_slice(data);
        Ok(SubjectPublicKeyInfo::Unknown(raw))
    }
}

impl crate::rsa::RSAPublicKey {
    /// Builds an RSA public key from a decoded SubjectPublicKeyInfo.
    pub fn from_spki(info: &SubjectPublicKeyInfo) -> (r: Result<crate::rsa::RSAPublicKey,
        Error>)
        ensures
            r is Ok <==> (info is Rsa && uval(info->Rsa_0.modulus) % 2 == 1 && uval(
                info->Rsa_0.modulus) > 1),
            r is Ok ==> {
                let k = r.unwrap();
                &&& k.wf()
                &&& k.nv() == uval(info->Rsa_0.modulus)
                &&& k.ev() == uval(info->Rsa_0.public_exponent)
            },
    {
        match info {
            SubjectPublicKeyInfo::Rsa(k) => crate::rsa::RSAPublicKey::from_parts(k.modulus,
                k.public_exponent),
            _ => Err(Error::AlgorithmUnsupported),
        }
    }
}

} // verus!
