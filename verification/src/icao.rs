//! The ICAO 9303-11 §9.4 encodings: BER lengths, minimal big-endian
//! integers, and the BER-tagged RSA and Diffie-Hellman public keys, with
//! a configurable policy for correctable deviations.

use vstd::prelude::*;
use vstd::arithmetic::power2::pow2;
use vstd::slice::{slice_subrange, slice_index_get};
use crate::uint::{Wide, uval, be_val, u_from_be_slice, u_from_u64};
use crate::modmath::{spec_encode_uint, byte_len_spec, lemma_spec_encode_uint_len,
    lemma_spec_encode_uint_val, lemma_byte_len_spec_bound, lemma_byte_len_spec_val};
use crate::codec::encode_uint_fixed;
use crate::error::Error;

verus! {

/// How to handle correctable errors when decoding.
#[derive(Clone, Copy, Debug, PartialEq, Eq, Structural)]
pub enum Leniency {
    /// Correct silently.
    Allow,
    /// Correct, but note a diagnostic.
    Warn,
    /// Reject.
    Strict,
}

/// Applies a leniency policy: the operation goes on unless the policy is
/// strict.
pub fn lenient(leniency: Leniency, error: Error) -> (r: Result<(), Error>)
    ensures
        r is Ok <==> leniency != Leniency::Strict,
        r is Err ==> r == Err::<(), Error>(error),
{
    match leniency {
        Leniency::Strict => Err(error),
        Leniency::Warn => Ok(()),
        Leniency::Allow => Ok(()),
    }
}

/// The ICAO 9303-11 §9.4 codec and its per-category policies.
#[derive(Clone, Copy, Debug)]
pub struct Icao9303Codec {
    /// Non-canonical length encodings.
    pub non_minimal_length: Leniency,
    /// Leading zeros in integers.
    pub leading_zeros: Leniency,
    /// Tags read out of their specified order.
    pub read_order: Leniency,
    /// Unknown tags.
    pub unknown_tag: Leniency,
    /// A missing cofactor in curve parameters, taken as one.
    pub missing_cofactor: Leniency,
    /// How many deviations the decoders corrected under a Warn policy:
    /// the diagnostic that a warning-mode correction leaves behind.
    pub diagnostics: usize,
}

/// The two codecs have the same policies.
pub open spec fn policies_eq(a: Icao9303Codec, b: Icao9303Codec) -> bool {
    &&& a.non_minimal_length == b.non_minimal_length
    &&& a.leading_zeros == b.leading_zeros
    &&& a.read_order == b.read_order
    &&& a.unknown_tag == b.unknown_tag
    &&& a.missing_cofactor == b.missing_cofactor
}

impl Icao9303Codec {
    /// The default behaviour: warn on correctable deviations, reject
    /// unknown tags.
    pub fn new() -> (r: Icao9303Codec)
        ensures
            r.non_minimal_length == Leniency::Warn,
            r.leading_zeros == Leniency::Warn,
            r.read_order == Leniency::Warn,
            r.unknown_tag == Leniency::Strict,
            r.missing_cofactor == Leniency::Warn,
            r.diagnostics == 0,
    {
        Icao9303Codec {
            non_minimal_length: Leniency::Warn,
            leading_zeros: Leniency::Warn,
            read_order: Leniency::Warn,
            unknown_tag: Leniency::Strict,
            missing_cofactor: Leniency::Warn,
            diagnostics: 0,
        }
    }

    /// A fully strict codec.
    pub fn strict() -> (r: Icao9303Codec)
        ensures
            r.non_minimal_length == Leniency::Strict,
            r.leading_zeros == Leniency::Strict,
            r.read_order == Leniency::Strict,
            r.unknown_tag == Leniency::Strict,
            r.missing_cofactor == Leniency::Strict,
            r.diagnostics == 0,
    {
        Icao9303Codec {
            non_minimal_length: Leniency::Strict,
            leading_zeros: Leniency::Strict,
            read_order: Leniency::Strict,
            unknown_tag: Leniency::Strict,
            missing_cofactor: Leniency::Strict,
            diagnostics: 0,
        }
    }
}

impl Default for Icao9303Codec {
    /// The warn-by-default policy set of `Icao9303Codec::new`.
    fn default() -> (r: Icao9303Codec)
        ensures
            r.non_minimal_length == Leniency::Warn,
            r.leading_zeros == Leniency::Warn,
            r.read_order == Leniency::Warn,
            r.unknown_tag == Leniency::Strict,
            r.missing_cofactor == Leniency::Warn,
            r.diagnostics == 0,
    {
        Icao9303Codec::new()
    }
}

/// What a Warn-policy correction does to the diagnostics count.
pub open spec fn bumped(old: nat, leniency: Leniency) -> nat {
    if leniency == Leniency::Warn && old < usize::MAX as nat {
        old + 1
    } else {
        old
    }
}

impl Icao9303Codec {
    /// Applies a leniency policy to a correctable deviation, recording a
    /// diagnostic when the policy is Warn.
    fn note(&mut self, leniency: Leniency, error: Error) -> (r: Result<(), Error>)
        ensures
            r is Ok <==> leniency != Leniency::Strict,
            r is Err ==> r == Err::<(), Error>(error),
            policies_eq(*final(self), *old(self)),
            r is Ok ==> final(self).diagnostics as nat == bumped(old(self).diagnostics as nat,
                leniency),
            r is Err ==> final(self).diagnostics == old(self).diagnostics,
    {
        match leniency {
            Leniency::Strict => Err(error),
            Leniency::Warn => {
                if self.diagnostics < usize::MAX {
                    self.diagnostics = self.diagnostics + 1;
                }
                Ok(())
            },
            Leniency::Allow => Ok(()),
        }
    }
}

/// A BER length value.
#[derive(Clone, Copy, Debug, PartialEq, Eq, Structural)]
pub struct BerSize(pub usize);

/// The canonical BER encoding of a length: one byte below 128, else
/// `0x80 | n` followed by the minimal `n`-byte big-endian value.
pub open spec fn spec_encode_ber_size(v: nat) -> Seq<u8> {
    if v < 128 {
        seq![v as u8]
    } else {
        seq![(128 + byte_len_spec(v)) as u8] + spec_encode_uint(v, byte_len_spec(v))
    }
}

/// Reading a BER length from the front of a byte string: the value and
/// the bytes consumed, ignoring minimality.
pub open spec fn spec_decode_ber_size(s: Seq<u8>) -> Option<(nat, int)> {
    if s.len() < 1 {
        None
    } else if s[0] < 128 {
        Some((s[0] as nat, 1))
    } else {
        let m = (s[0] - 128) as int;
        if m == 0 || m > 8 || s.len() < 1 + m {
            None
        } else {
            Some((be_val(s.subrange(1, 1 + m)), 1 + m))
        }
    }
}

/// The read length bytes were minimal: no leading zero, and no long form
/// where the short form would do.
pub open spec fn spec_ber_size_minimal(s: Seq<u8>) -> bool {
    s.len() >= 1 && (s[0] < 128 || {
        let m = (s[0] - 128) as int;
        s.len() >= 2 && s[1] != 0 && !(m == 1 && s[1] < 0x80)
    })
}

/// The number of bytes a `usize` occupies without leading zeros.
pub fn usize_byte_len(v: usize) -> (r: usize)
    ensures
        r == byte_len_spec(v as nat),
        r <= 8,
        (v as nat) < pow2(8 * r as nat),
{
    proof {
        vstd::arithmetic::power2::lemma2_to64_rest();
        assert((v as nat) < pow2(64));
        lemma_byte_len_spec_bound(v as nat, 8);
        lemma_byte_len_spec_val(v as nat);
    }
    let mut cur = v;
    let mut n: usize = 0;
    while cur != 0
        invariant
            n <= 8,
            byte_len_spec(cur as nat) + n == byte_len_spec(v as nat),
            byte_len_spec(v as nat) <= 8,
        decreases cur,
    {
        cur = cur / 256;
        n = n + 1;
    }
    n
}

impl Icao9303Codec {
    /// Encodes a BER length canonically.
    pub fn encode_ber_size(&self, value: BerSize) -> (r: Vec<u8>)
        ensures
            r@ == spec_encode_ber_size(value.0 as nat),
    {
        let v = value.0;
        if v < 128 {
            let mut out: Vec<u8> = Vec::new();
            out.push(v as u8);
            proof {
                assert(out@ =~= spec_encode_ber_size(v as nat));
            }
            out
        } else {
            let blen = usize_byte_len(v);
            let w = u_from_u64(v as u64);
            let body = encode_uint_fixed(&w, blen);
            let mut out: Vec<u8> = Vec::new();
            out.push((128 + blen) as u8);
            let mut body = body;
            out.append(&mut body);
            proof {
                assert(out@ =~= spec_encode_ber_size(v as nat));
            }
            out
        }
    }

    /// Decodes a BER length from the front of the buffer, returning the
    /// value and the bytes consumed. Non-minimal encodings follow the
    /// `non_minimal_length` policy.
    pub fn decode_ber_size(&mut self, data: &[u8]) -> (r: Result<(BerSize, usize), Error>)
        ensures
            policies_eq(*final(self), *old(self)),
            match r {
                Ok((v, used)) => {
                    &&& spec_decode_ber_size(data@) == Some((v.0 as nat, used as int))
                    &&& (old(self).non_minimal_length == Leniency::Strict
                        ==> spec_ber_size_minimal(data@))
                    &&& final(self).diagnostics as nat == (if spec_ber_size_minimal(data@) {
                        old(self).diagnostics as nat
                    } else {
                        bumped(old(self).diagnostics as nat, old(self).non_minimal_length)
                    })
                },
                Err(_) => (spec_decode_ber_size(data@) is None || (
                old(self).non_minimal_length == Leniency::Strict && !spec_ber_size_minimal(
                    data@)) || spec_decode_ber_size(data@).unwrap().0 > usize::MAX as nat)
                    && old(self).diagnostics <= final(self).diagnostics,
            },
    {
        if data.len() < 1 {
            return Err(Error::EncodingMalformed);
        }
        let first = *slice_index_get(data, 0);
        if first < 128 {
            return Ok((BerSize(first as usize), 1));
        }
        let m = (first - 128) as usize;
        if m == 0 || m > 8 || data.len() < 1 + m {
            return Err(Error::EncodingMalformed);
        }
        let body = slice_subrange(data, 1, 1 + m);
        let second = *slice_index_get(data, 1);
        if second == 0 || (m == 1 && second < 0x80) {
            match self.note(self.non_minimal_length, Error::EncodingNonCanonical) {
                Ok(_) => (),
                Err(e) => {
                    return Err(e);
                },
            }
        }
        let w = u_from_be_slice(body);
        proof {
            assert(body@ =~= data@.subrange(1, 1 + m as int));
            crate::modmath::lemma_be_val_bound(body@);
            vstd::arithmetic::power2::lemma2_to64_rest();
            if 8 * body@.len() < 64 {
                vstd::arithmetic::power2::lemma_pow2_strictly_increases(8 * body@.len(), 64);
            }
            assert(uval(w) < pow2(64));
            vstd::arithmetic::div_mod::lemma_small_mod(uval(w), pow2(64));
        }
        let lo = crate::uint::u_low_u64(&w);
        let lo_us = lo as usize;
        if lo_us as u64 != lo {
            return Err(Error::EncodingMalformed);
        }
        Ok((BerSize(lo_us), 1 + m))
    }

    /// Encodes an integer minimally: big-endian with no leading zeros.
    pub fn encode_uint(&self, value: &Wide) -> (r: Vec<u8>)
        ensures
            r@ == spec_encode_uint(uval(*value), byte_len_spec(uval(*value))),
    {
        let blen = crate::codec::wide_byte_len(value);
        encode_uint_fixed(value, blen)
    }

    /// Decodes an integer occupying the whole buffer. Leading zeros
    /// follow the `leading_zeros` policy; the value must fit 2048 bits.
    pub fn decode_uint(&mut self, data: &[u8]) -> (r: Result<Wide, Error>)
        ensures
            policies_eq(*final(self), *old(self)),
            r is Ok ==> uval(r.unwrap()) == be_val(data@),
            old(self).leading_zeros != Leniency::Strict && data@.len() <= 256 ==> r is Ok,
            data@.len() <= 256 && (data@.len() == 0 || data@[0] != 0) ==> r is Ok,
            r is Ok && old(self).leading_zeros == Leniency::Strict ==> (data@.len() == 0
                || data@[0] != 0),
            r is Ok ==> final(self).diagnostics as nat == (if data@.len() > 0 && data@[0] == 0 {
                bumped(old(self).diagnostics as nat, old(self).leading_zeros)
            } else {
                old(self).diagnostics as nat
            }),
            r is Err ==> old(self).diagnostics <= final(self).diagnostics,
    {
        let n = data.len();
        let mut trim: usize = 0;
        while trim < n && *slice_index_get(data, trim) == 0
            invariant
                trim <= n,
                n == data@.len(),
                forall|j: int| 0 <= j < trim ==> data@[j] == 0,
            decreases n - trim,
        {
            trim = trim + 1;
        }
        if trim > 0 {
            match self.note(self.leading_zeros, Error::EncodingNonCanonical) {
                Ok(_) => (),
                Err(e) => {
                    return Err(e);
                },
            }
        }
        if n - trim > 256 {
            return Err(Error::EncodingMalformed);
        }
        let body = slice_subrange(data, trim, n);
        let w = u_from_be_slice(body);
        proof {
            assert(body@ =~= data@.skip(trim as int));
            crate::modmath::lemma_be_val_zeros(data@, trim as int);
        }
        Ok(w)
    }
}

/// One field of a BER-tagged record: tag, canonical length, content.
pub open spec fn spec_encode_tlv(tag: u8, content: Seq<u8>) -> Seq<u8> {
    seq![tag] + spec_encode_ber_size(content.len()) + content
}

/// Reading the whole buffer as a sequence of tag-length-value fields.
pub open spec fn spec_decode_tlvs(s: Seq<u8>) -> Option<Seq<(u8, Seq<u8>)>>
    decreases s.len(),
{
    if s.len() == 0 {
        Some(Seq::empty())
    } else {
        match spec_decode_ber_size(s.skip(1)) {
            None => None,
            Some((v, used)) => {
                if s.len() >= 1 + used + v {
                    match spec_decode_tlvs(s.skip(1 + used + v as int)) {
                        None => None,
                        Some(rest) => Some(seq![(s[0], s.subrange(1 + used, 1 + used
                            + v as int))] + rest),
                    }
                } else {
                    None
                }
            },
        }
    }
}


/// The buffer is a canonical record: exactly the expected fields, in
/// their specified order.
pub open spec fn spec_canonical_record(s: Seq<u8>, t0: u8, t1: u8, t2: u8, t3: u8, t4: u8,
    known: int) -> bool {
    &&& spec_decode_tlvs(s) is Some
    &&& {
        let l = spec_decode_tlvs(s).unwrap();
        &&& l.len() == known
        &&& (known >= 1 ==> l[0].0 == t0)
        &&& (known >= 2 ==> l[1].0 == t1)
        &&& (known >= 3 ==> l[2].0 == t2)
        &&& (known >= 4 ==> l[3].0 == t3)
        &&& (known >= 5 ==> l[4].0 == t4)
    }
}

/// An ICAO 9303-11 §9.4.2 RSA public key.
pub struct PublicKeyRSA {
    pub oid: Vec<u8>,
    pub modulus: Wide,
    pub public_exponent: Wide,
}

/// An ICAO 9303-11 §9.4.3 Diffie-Hellman public key.
pub struct PublicKeyDH {
    pub oid: Vec<u8>,
    pub modulus: Wide,
    pub order: Wide,
    pub generator: Wide,
    pub public_key: Wide,
}

impl Icao9303Codec {
    /// Encodes an RSA public key as the tagged fields 06, 81, 82.
    pub fn encode_public_key_rsa(&self, value: &PublicKeyRSA) -> (r: Vec<u8>)
        ensures
            r@ == spec_encode_tlv(0x06, value.oid@) + spec_encode_tlv(0x81, spec_encode_uint(
                uval(value.modulus), byte_len_spec(uval(value.modulus)))) + spec_encode_tlv(
                0x82, spec_encode_uint(uval(value.public_exponent), byte_len_spec(uval(
                value.public_exponent)))),
    {
        let mut out: Vec<u8> = Vec::new();
        self.put_tlv(&mut out, 0x06, &value.oid);
        let m = self.encode_uint(&value.modulus);
        self.put_tlv(&mut out, 0x81, &m);
        let e = self.encode_uint(&value.public_exponent);
        self.put_tlv(&mut out, 0x82, &e);
        out
    }

    /// Encodes a Diffie-Hellman public key as the tagged fields 06, 81,
    /// 82, 83, 84.
    pub fn encode_public_key_dh(&self, value: &PublicKeyDH) -> (r: Vec<u8>)
        ensures
            r@ == spec_encode_tlv(0x06, value.oid@) + spec_encode_tlv(0x81, spec_encode_uint(
                uval(value.modulus), byte_len_spec(uval(value.modulus)))) + spec_encode_tlv(
                0x82, spec_encode_uint(uval(value.order), byte_len_spec(uval(value.order))))
                + spec_encode_tlv(0x83, spec_encode_uint(uval(value.generator), byte_len_spec(
                uval(value.generator)))) + spec_encode_tlv(0x84, spec_encode_uint(uval(
                value.public_key), byte_len_spec(uval(value.public_key)))),
    {
        let mut out: Vec<u8> = Vec::new();
        self.put_tlv(&mut out, 0x06, &value.oid);
        let m = self.encode_uint(&value.modulus);
        self.put_tlv(&mut out, 0x81, &m);
        let q = self.encode_uint(&value.order);
        self.put_tlv(&mut out, 0x82, &q);
        let g = self.encode_uint(&value.generator);
        self.put_tlv(&mut out, 0x83, &g);
        let y = self.encode_uint(&value.public_key);
        self.put_tlv(&mut out, 0x84, &y);
        out
    }

    /// Appends one tagged field.
    fn put_tlv(&self, out: &mut Vec<u8>, tag: u8, content: &Vec<u8>) -> (r: ())
        ensures
            final(out)@ == old(out)@ + spec_encode_tlv(tag, content@),
    {
        out.push(tag);
        let mut l = self.encode_ber_size(BerSize(content.len()));
        out.append(&mut l);
        let mut c: Vec<u8> = Vec::new();
        c.extend_from_slice(content.as_slice());
        out.append(&mut c);
        proof {
            assert(final(out)@ =~= old(out)@ + spec_encode_tlv(tag, content@));
        }
    }

    /// Decodes an RSA public key: fields may come in any order under the
    /// `read_order` policy, duplicates are rejected, unknown tags follow
    /// the `unknown_tag` policy.
    pub fn decode_public_key_rsa(&mut self, data: &[u8]) -> (r: Result<PublicKeyRSA, Error>)
        ensures
            policies_eq(*final(self), *old(self)),
            old(self).diagnostics <= final(self).diagnostics,
            // a canonical record with fields of the supported width is
            // accepted, each field bound to its entry
            (spec_canonical_record(data@, 0x06, 0x81, 0x82, 0x83, 0x84, 3) && old(
                self).non_minimal_length != Leniency::Strict && old(self).leading_zeros
                != Leniency::Strict && spec_decode_tlvs(data@).unwrap()[1].1.len() <= 256
                && spec_decode_tlvs(data@).unwrap()[2].1.len() <= 256) ==> {
                let l = spec_decode_tlvs(data@).unwrap();
                &&& r is Ok
                &&& r.unwrap().oid@ == l[0].1
                &&& uval(r.unwrap().modulus) == be_val(l[1].1)
                &&& uval(r.unwrap().public_exponent) == be_val(l[2].1)
            },
            r is Ok ==> {
                let l = spec_decode_tlvs(data@);
                let pk = r.unwrap();
                &&& l is Some
                &&& l.unwrap().contains((0x06u8, pk.oid@))
                &&& (exists|c: Seq<u8>| #[trigger] l.unwrap().contains((0x81u8, c)) && uval(pk.modulus)
                    == be_val(c))
                &&& (exists|c: Seq<u8>| #[trigger] l.unwrap().contains((0x82u8, c)) && uval(pk.public_exponent)
                    == be_val(c))
            },
    {
        let fields = self.read_tlvs(data, 0x06, 0x81, 0x82, 0x83, 0x84, 3)?;
        let (oid, f1, f2, _, _) = fields;
        let oid = match oid {
            Some(v) => v,
            None => {
                return Err(Error::EncodingMalformed);
            },
        };
        let modulus = match f1 {
            Some(v) => self.decode_uint(v.as_slice())?,
            None => {
                return Err(Error::EncodingMalformed);
            },
        };
        let public_exponent = match f2 {
            Some(v) => self.decode_uint(v.as_slice())?,
            None => {
                return Err(Error::EncodingMalformed);
            },
        };
        Ok(PublicKeyRSA { oid, modulus, public_exponent })
    }

    /// Decodes a Diffie-Hellman public key, with the same policies.
    pub fn decode_public_key_dh(&mut self, data: &[u8]) -> (r: Result<PublicKeyDH, Error>)
        ensures
            policies_eq(*final(self), *old(self)),
            old(self).diagnostics <= final(self).diagnostics,
            // a canonical record with fields of the supported width is
            // accepted, each field bound to its entry
            (spec_canonical_record(data@, 0x06, 0x81, 0x82, 0x83, 0x84, 5) && old(
                self).non_minimal_length != Leniency::Strict && old(self).leading_zeros
                != Leniency::Strict && spec_decode_tlvs(data@).unwrap()[1].1.len() <= 256
                && spec_decode_tlvs(data@).unwrap()[2].1.len() <= 256 && spec_decode_tlvs(
                data@).unwrap()[3].1.len() <= 256 && spec_decode_tlvs(data@).unwrap()[4].1.len()
                <= 256) ==> {
                let l = spec_decode_tlvs(data@).unwrap();
                &&& r is Ok
                &&& r.unwrap().oid@ == l[0].1
                &&& uval(r.unwrap().modulus) == be_val(l[1].1)
                &&& uval(r.unwrap().order) == be_val(l[2].1)
                &&& uval(r.unwrap().generator) == be_val(l[3].1)
                &&& uval(r.unwrap().public_key) == be_val(l[4].1)
            },
            r is Ok ==> {
                let l = spec_decode_tlvs(data@);
                let pk = r.unwrap();
                &&& l is Some
                &&& l.unwrap().contains((0x06u8, pk.oid@))
                &&& (exists|c: Seq<u8>| #[trigger] l.unwrap().contains((0x81u8, c)) && uval(pk.modulus)
                    == be_val(c))
                &&& (exists|c: Seq<u8>| #[trigger] l.unwrap().contains((0x82u8, c)) && uval(pk.order)
                    == be_val(c))
                &&& (exists|c: Seq<u8>| #[trigger] l.unwrap().contains((0x83u8, c)) && uval(pk.generator)
                    == be_val(c))
                &&& (exists|c: Seq<u8>| #[trigger] l.unwrap().contains((0x84u8, c)) && uval(pk.public_key)
                    == be_val(c))
            },
    {
        let fields = self.read_tlvs(data, 0x06, 0x81, 0x82, 0x83, 0x84, 5)?;
        let (oid, f1, f2, f3, f4) = fields;
        let oid = match oid {
            Some(v) => v,
            None => {
                return Err(Error::EncodingMalformed);
            },
        };
        let modulus = match f1 {
            Some(v) => self.decode_uint(v.as_slice())?,
            None => {
                return Err(Error::EncodingMalformed);
            },
        };
        let order = match f2 {
            Some(v) => self.decode_uint(v.as_slice())?,
            None => {
                return Err(Error::EncodingMalformed);
            },
        };
        let generator = match f3 {
            Some(v) => self.decode_uint(v.as_slice())?,
            None => {
                return Err(Error::EncodingMalformed);
            },
        };
        let public_key = match f4 {
            Some(v) => self.decode_uint(v.as_slice())?,
            None => {
                return Err(Error::EncodingMalformed);
            },
        };
        Ok(PublicKeyDH { oid, modulus, order, generator, public_key })
    }

    /// Walks the buffer's tagged fields, binding up to five known tags,
    /// each at most once. The expected tag order is the argument order;
    /// out-of-order fields follow the `read_order` policy and unknown
    /// tags the `unknown_tag` policy.
    fn read_tlvs(&mut self, data: &[u8], t0: u8, t1: u8, t2: u8, t3: u8, t4: u8, known: usize)
        -> (r: Result<
        (Option<Vec<u8>>, Option<Vec<u8>>, Option<Vec<u8>>, Option<Vec<u8>>, Option<Vec<u8>>),
        Error,
    >)
        requires
            t0 != t1 && t0 != t2 && t0 != t3 && t0 != t4 && t1 != t2 && t1 != t3 && t1 != t4
                && t2 != t3 && t2 != t4 && t3 != t4,
            3 <= known <= 5,
        ensures
            policies_eq(*final(self), *old(self)),
            old(self).diagnostics <= final(self).diagnostics,
            r is Ok ==> {
                let l = spec_decode_tlvs(data@);
                let (f0, f1, f2, f3, f4) = r.unwrap();
                &&& l is Some
                &&& (f0 is Some ==> l.unwrap().contains((t0, f0.unwrap()@)))
                &&& (f1 is Some ==> l.unwrap().contains((t1, f1.unwrap()@)))
                &&& (f2 is Some ==> l.unwrap().contains((t2, f2.unwrap()@)))
                &&& (f3 is Some ==> l.unwrap().contains((t3, f3.unwrap()@)))
                &&& (f4 is Some ==> l.unwrap().contains((t4, f4.unwrap()@)))
            },
            // a canonical record is accepted outright, each field bound to
            // its entry
            spec_canonical_record(data@, t0, t1, t2, t3, t4, known as int) && old(
                self).non_minimal_length != Leniency::Strict ==> {
                let l = spec_decode_tlvs(data@).unwrap();
                &&& r is Ok
                &&& {
                    let (f0, f1, f2, f3, f4) = r.unwrap();
                    &&& f0 is Some && f0.unwrap()@ == l[0].1
                    &&& f1 is Some && f1.unwrap()@ == l[1].1
                    &&& f2 is Some && f2.unwrap()@ == l[2].1
                    &&& (known >= 4 ==> f3 is Some && f3.unwrap()@ == l[3].1)
                    &&& (known >= 5 ==> f4 is Some && f4.unwrap()@ == l[4].1)
                }
            },
    {
        let n = data.len();
        let mut off: usize = 0;
        let mut f0: Option<Vec<u8>> = None;
        let mut f1: Option<Vec<u8>> = None;
        let mut f2: Option<Vec<u8>> = None;
        let mut f3: Option<Vec<u8>> = None;
        let mut f4: Option<Vec<u8>> = None;
        let mut count: usize = 0;
        let ghost whole = data@;
        let ghost mut prefix: Seq<(u8, Seq<u8>)> = Seq::empty();
        let ghost good = spec_canonical_record(whole, t0, t1, t2, t3, t4, known as int)
            && old(self).non_minimal_length != Leniency::Strict;
        let ghost gl = if spec_decode_tlvs(whole) is Some {
            spec_decode_tlvs(whole).unwrap()
        } else {
            Seq::empty()
        };
        proof {
            assert(whole.skip(0int) =~= whole);
            if spec_decode_tlvs(whole) is Some {
                let l = spec_decode_tlvs(whole).unwrap();
                assert(prefix + l =~= l);
            }
            if good {
                assert(prefix =~= gl.take(0));
            }
        }
        while off < n
            invariant
                off <= n,
                n == data@.len(),
                whole == data@,
                policies_eq(*self, *old(self)),
                old(self).diagnostics <= self.diagnostics,
                spec_decode_tlvs(whole.skip(off as int)) is Some ==> (spec_decode_tlvs(whole)
                    is Some && spec_decode_tlvs(whole).unwrap() == prefix + spec_decode_tlvs(
                    whole.skip(off as int)).unwrap()),
                f0 is Some ==> prefix.contains((t0, f0.unwrap()@)),
                f1 is Some ==> prefix.contains((t1, f1.unwrap()@)),
                f2 is Some ==> prefix.contains((t2, f2.unwrap()@)),
                f3 is Some ==> prefix.contains((t3, f3.unwrap()@)),
                f4 is Some ==> prefix.contains((t4, f4.unwrap()@)),
                3 <= known <= 5,
                t0 != t1 && t0 != t2 && t0 != t3 && t0 != t4 && t1 != t2 && t1 != t3 && t1
                    != t4 && t2 != t3 && t2 != t4 && t3 != t4,
                good == (spec_canonical_record(whole, t0, t1, t2, t3, t4, known as int) && old(
                    self).non_minimal_length != Leniency::Strict),
                good ==> gl == spec_decode_tlvs(whole).unwrap(),
                good ==> spec_decode_tlvs(whole.skip(off as int)) is Some,
                good ==> prefix =~= gl.take(prefix.len() as int),
                good ==> prefix.len() <= known,
                good ==> count == prefix.len(),
                good ==> (f0 is Some <==> prefix.len() >= 1),
                good ==> (f1 is Some <==> prefix.len() >= 2),
                good ==> (f2 is Some <==> prefix.len() >= 3),
                good ==> (f3 is Some <==> prefix.len() >= 4),
                good ==> (f4 is Some <==> prefix.len() >= 5),
                good && f0 is Some ==> f0.unwrap()@ == gl[0].1,
                good && f1 is Some ==> f1.unwrap()@ == gl[1].1,
                good && f2 is Some ==> f2.unwrap()@ == gl[2].1,
                good && f3 is Some ==> f3.unwrap()@ == gl[3].1,
                good && f4 is Some ==> f4.unwrap()@ == gl[4].1,
            decreases n - off,
        {
            let tag = *slice_index_get(data, off);
            let rest = slice_subrange(data, off + 1, n);
            proof {
                if good {
                    // a parsed record cannot fail the length read: the
                    // parse supplies the value, bounded by the buffer
                    let tail = whole.skip(off as int);
                    assert(tail.skip(1) =~= rest@);
                    assert(spec_decode_ber_size(rest@) is Some);
                    let (v, u) = spec_decode_ber_size(rest@).unwrap();
                    assert(tail.len() >= 1 + u + v);
                    assert(v <= n <= usize::MAX as nat);
                }
            }
            let (lsz, used) = match self.decode_ber_size(rest) {
                Ok(x) => x,
                Err(e) => {
                    proof {
                        if good {
                            assert(false);
                        }
                    }
                    return Err(e);
                },
            };
            let len = lsz.0;
            if n - off < 1 + used || n - off - 1 - used < len {
                proof {
                    if good {
                        assert(false);
                    }
                }
                return Err(Error::EncodingMalformed);
            }
            let content_start = off + 1 + used;
            let content = slice_subrange(data, content_start, content_start + len);
            let mut content_v: Vec<u8> = Vec::new();
            content_v.extend_from_slice(content);
            let ghost tail = whole.skip(off as int);
            proof {
                assert(tail.skip(1) =~= rest@);
                assert(tail[0] == tag);
                assert(spec_decode_ber_size(tail.skip(1)) == Some((len as nat, used as int)));
                assert(tail.subrange(1 + used as int, 1 + used + len as int) =~= content_v@);
                assert(tail.skip(1 + used + len as int) =~= whole.skip(content_start
                    + len as int));
                // one field peeled: the suffix parse composes
                let p0 = prefix;
                if spec_decode_tlvs(whole.skip(content_start + len as int)) is Some {
                    let rest_l = spec_decode_tlvs(whole.skip(content_start + len as int))
                        .unwrap();
                    assert(spec_decode_tlvs(tail) == Some(seq![(tag, content_v@)] + rest_l));
                    assert(p0 + (seq![(tag, content_v@)] + rest_l) =~= (p0.push((tag,
                        content_v@))) + rest_l);
                }
                prefix = p0.push((tag, content_v@));
                assert(forall|i: int| 0 <= i < p0.len() ==> #[trigger] prefix[i] == p0[i]);
                assert(prefix[p0.len() as int] == (tag, content_v@));
                assert(prefix.contains((tag, content_v@)));
                assert forall|x: (u8, Seq<u8>)| p0.contains(x) implies prefix.contains(x) by {
                    let i = choose|i: int| 0 <= i < p0.len() && p0[i] == x;
                    assert(prefix[i] == x);
                }
                if good {
                    // under a canonical record the head entry is the next
                    // listed field, in order
                    let rest_l = spec_decode_tlvs(whole.skip(content_start + len as int))
                        .unwrap();
                    assert(spec_decode_tlvs(tail) == Some(seq![(tag, content_v@)] + rest_l));
                    assert(gl =~= p0 + (seq![(tag, content_v@)] + rest_l));
                    assert(gl[p0.len() as int] == (tag, content_v@));
                    assert(p0.len() < known);
                    assert(prefix =~= gl.take(p0.len() as int + 1));
                    assert(whole.skip(content_start + len as int) =~= tail.skip(1 + used
                        + len as int));
                }
            }
            let expected = count;
            if tag == t0 {
                if expected != 0 {
                    self.check_order()?;
                }
                if f0.is_some() {
                    proof {
                        if good {
                            assert(false);
                        }
                    }
                    return Err(Error::EncodingMalformed);
                }
                f0 = Some(content_v);
            } else if tag == t1 {
                if expected != 1 {
                    self.check_order()?;
                }
                if f1.is_some() {
                    return Err(Error::EncodingMalformed);
                }
                f1 = Some(content_v);
            } else if tag == t2 {
                if expected != 2 {
                    self.check_order()?;
                }
                if f2.is_some() {
                    return Err(Error::EncodingMalformed);
                }
                f2 = Some(content_v);
            } else if tag == t3 && known > 3 {
                if expected != 3 {
                    self.check_order()?;
                }
                if f3.is_some() {
                    proof {
                        if good {
                            assert(false);
                        }
                    }
                    return Err(Error::EncodingMalformed);
                }
                f3 = Some(content_v);
            } else if tag == t4 && known > 4 {
                if expected != 4 {
                    self.check_order()?;
                }
                if f4.is_some() {
                    proof {
                        if good {
                            assert(false);
                        }
                    }
                    return Err(Error::EncodingMalformed);
                }
                f4 = Some(content_v);
            } else {
                proof {
                    if good {
                        assert(false);
                    }
                }
                let ut = self.unknown_tag;
                match self.note(ut, Error::AlgorithmUnsupported) {
                    Ok(_) => (),
                    Err(e) => {
                        return Err(e);
                    },
                }
            }
            off = content_start + len;
            // the position counter only matters against the five known
            // tags, so it can stop there instead of growing unboundedly
            count = if expected < 5 { expected + 1 } else { expected };
        }
        proof {
            assert(whole.skip(n as int) =~= Seq::<u8>::empty());
            assert(spec_decode_tlvs(whole.skip(n as int)) == Some(Seq::<(u8, Seq<u8>)>::empty()));
            assert(spec_decode_tlvs(whole) is Some);
            assert(spec_decode_tlvs(whole).unwrap() =~= prefix);
        }
        Ok((f0, f1, f2, f3, f4))
    }

    /// Applies the read-order policy.
    fn check_order(&mut self) -> (r: Result<(), Error>)
        ensures
            r is Ok <==> old(self).read_order != Leniency::Strict,
            policies_eq(*final(self), *old(self)),
            old(self).diagnostics <= final(self).diagnostics,
    {
        let l = self.read_order;
        self.note(l, Error::EncodingNonCanonical)
    }
}

/// The round-trip law for BER lengths: decoding a canonical encoding
/// yields the value back, consumes the whole encoding, and the encoding
/// is minimal, so it also survives a strict decoder.
pub proof fn lemma_ber_size_round_trip(v: nat)
    requires
        v < pow2(64),
    ensures
        spec_decode_ber_size(spec_encode_ber_size(v)) == Some((v, spec_encode_ber_size(
            v).len() as int)),
        spec_ber_size_minimal(spec_encode_ber_size(v)),
{
    let s = spec_encode_ber_size(v);
    if v < 128 {
        assert(s[0] == v as u8);
        assert(s[0] < 128);
    } else {
        let b = byte_len_spec(v);
        crate::modmath::lemma_byte_len_spec_bound(v, 8);
        crate::modmath::lemma_byte_len_spec_val(v);
        assert(b >= 1);
        lemma_spec_encode_uint_len(v, b);
        lemma_spec_encode_uint_val(v, b);
        assert(s[0] == (128 + b) as u8);
        assert(s[0] >= 128);
        let m = (s[0] - 128) as int;
        assert(m == b);
        assert(s.len() == 1 + b);
        assert(s.skip(1) =~= crate::modmath::spec_encode_uint(v, b));
        assert(s.subrange(1, 1 + m) =~= crate::modmath::spec_encode_uint(v, b));
        assert(spec_decode_ber_size(s) == Some((v, 1 + m)));
        // minimality: the first content byte is the value's top chunk,
        // which the byte length makes non-zero
        crate::modmath::lemma_spec_encode_first_byte(v, b);
        crate::modmath::lemma_byte_len_spec_lower(v);
        vstd::arithmetic::power2::lemma_pow2_pos(8 * (b - 1) as nat);
        assert(v / pow2(8 * (b - 1) as nat) >= 1) by {
            vstd::arithmetic::div_mod::lemma_div_is_ordered(pow2(8 * (b - 1) as nat) as int,
                v as int, pow2(8 * (b - 1) as nat) as int);
            vstd::arithmetic::div_mod::lemma_div_by_self(pow2(8 * (b - 1) as nat) as int);
        }
        assert(s[1] != 0);
        if m == 1 {
            // one content byte holding at least 128: the long form was due
            vstd::arithmetic::power2::lemma2_to64();
            assert(s[1] == (v / pow2(0)) as u8);
            vstd::arithmetic::div_mod::lemma_div_basics_1(v as int);
            assert(v < 256) by {
                crate::modmath::lemma_byte_len_spec_val(v);
            }
            assert(s[1] >= 0x80);
        }
    }
}

/// The round-trip law for minimal integers: the canonical encoding
/// carries its value and has no leading zero.
pub proof fn lemma_icao_uint_round_trip(v: nat)
    requires
        v < pow2(2048),
    ensures
        be_val(spec_encode_uint(v, byte_len_spec(v))) == v,
        v > 0 ==> spec_encode_uint(v, byte_len_spec(v))[0] != 0,
{
    let b = byte_len_spec(v);
    crate::modmath::lemma_byte_len_spec_val(v);
    lemma_spec_encode_uint_val(v, b);
    if v > 0 {
        assert(b >= 1);
        crate::modmath::lemma_spec_encode_first_byte(v, b);
        crate::modmath::lemma_byte_len_spec_lower(v);
        vstd::arithmetic::power2::lemma_pow2_pos(8 * (b - 1) as nat);
        assert(v / pow2(8 * (b - 1) as nat) >= 1) by {
            vstd::arithmetic::div_mod::lemma_div_is_ordered(pow2(8 * (b - 1) as nat) as int,
                v as int, pow2(8 * (b - 1) as nat) as int);
            vstd::arithmetic::div_mod::lemma_div_by_self(pow2(8 * (b - 1) as nat) as int);
        }
    }
}

} // verus!
