//! The BSI TR-03111 §3 wire encodings: fixed-length big-endian integers,
//! field elements padded to the modulus length, and elliptic-curve points
//! in uncompressed or compressed form.

use vstd::prelude::*;
use vstd::arithmetic::power2::pow2;
use vstd::slice::slice_subrange;
use crate::uint::{Wide, uval, be_val, u_to_be_bytes, u_from_be_slice, u_from_u64, u_mul_mod,
    u_bit};
use crate::ring::ModRing;
use crate::element::ModRingElement;
use crate::curve::{EllipticCurve, EllipticCurvePoint, Coordinates, on_curve, spec_mul};
use crate::modmath::{spec_encode_uint, byte_len_spec, lemma_spec_encode_uint_len,
    lemma_spec_encode_uint_val, lemma_be_val_injective, lemma_be_val_take_tail,
    lemma_byte_len_spec_bound, lemma_byte_len_spec_val};
use crate::error::Error;

verus! {

/// The TR-03111 encoding of a point: `00` for infinity, `04 ‖ x ‖ y`
/// uncompressed, or `02/03 ‖ x` compressed with the tag giving the parity
/// of `y`.
pub open spec fn spec_encode_point(pt: Option<(nat, nat)>, size: nat, compressed: bool) -> Seq<
    u8,
> {
    match pt {
        None => seq![0u8],
        Some((x, y)) => {
            if compressed {
                seq![if y % 2 == 0 {
                    2u8
                } else {
                    3u8
                }] + spec_encode_uint(x, size)
            } else {
                seq![4u8] + spec_encode_uint(x, size) + spec_encode_uint(y, size)
            }
        },
    }
}

/// The byte length of a value in big-endian form without leading zeros.
pub fn wide_byte_len(u: &Wide) -> (r: usize)
    ensures
        r == byte_len_spec(uval(*u)),
        r <= 256,
        uval(*u) < pow2(8 * r as nat),
{
    let ghost v = uval(*u);
    let bl = crate::uint::u_bit_len(u);
    proof {
        if bl < 2048 {
            vstd::arithmetic::power2::lemma_pow2_strictly_increases(bl as nat, 2048);
        }
        lemma_byte_len_spec_val(v);
        lemma_byte_len_spec_bound(v, 256);
        assert(8 * 256nat == 2048);
    }
    let zero = u_from_u64(0);
    let mut cur = crate::uint::u_dup(u);
    let mut n: usize = 0;
    proof {
        vstd::arithmetic::power2::lemma2_to64();
    }
    while !crate::uint::u_eq(&cur, &zero)
        invariant
            uval(zero) == 0,
            n <= 256,
            byte_len_spec(uval(cur)) + n == byte_len_spec(v),
            byte_len_spec(v) <= 256,
        decreases uval(cur),
    {
        let next = crate::uint::u_shr(&cur, 8);
        proof {
            vstd::arithmetic::power2::lemma2_to64();
            assert(uval(next) == uval(cur) / 256);
            vstd::arithmetic::div_mod::lemma_div_is_strictly_smaller(uval(cur) as int, 256);
        }
        cur = next;
        n = n + 1;
    }
    n
}

/// The byte length of a ring's modulus, which TR-03111 integers pad to.
pub fn ring_byte_len(ring: &ModRing) -> (r: usize)
    requires
        ring.wf(),
    ensures
        r == byte_len_spec(ring.p()),
        1 <= r <= 256,
        ring.p() < pow2(8 * r as nat),
{
    let modulus = ring.modulus();
    let r = wide_byte_len(&modulus);
    proof {
        assert(byte_len_spec(ring.p()) >= 1);
    }
    r
}

/// Encodes a value as exactly `size` big-endian bytes, zero-padded.
pub fn encode_uint_fixed(value: &Wide, size: usize) -> (r: Vec<u8>)
    requires
        size <= 256,
        uval(*value) < pow2(8 * size as nat),
    ensures
        r@.len() == size,
        be_val(r@) == uval(*value),
        r@ == spec_encode_uint(uval(*value), size as nat),
{
    let full = u_to_be_bytes(value);
    let start: usize = 256 - size;
    let tail = slice_subrange(full.as_slice(), start, 256);
    let mut out: Vec<u8> = Vec::new();
    out.extend_from_slice(tail);
    proof {
        assert(out@ =~= full@.skip(start as int));
        lemma_be_val_take_tail(full@, start as int);
        lemma_spec_encode_uint_len(uval(*value), size as nat);
        lemma_spec_encode_uint_val(uval(*value), size as nat);
        lemma_be_val_injective(out@, spec_encode_uint(uval(*value), size as nat));
    }
    out
}

/// Decodes exactly `size` big-endian bytes into a value.
pub fn decode_uint_fixed(data: &[u8], size: usize) -> (r: Result<Wide, Error>)
    ensures
        r is Ok <==> (data@.len() == size && size <= 256),
        r is Ok ==> uval(r.unwrap()) == be_val(data@),
        r is Err ==> r == Err::<Wide, Error>(Error::EncodingMalformed),
{
    if size > 256 || data.len() != size {
        return Err(Error::EncodingMalformed);
    }
    Ok(u_from_be_slice(data))
}

impl ModRingElement {
    /// TR-03111 3.1.3: a field element as the modulus-length big-endian
    /// string of its value.
    pub fn encode_field_element(&self) -> (r: Vec<u8>)
        requires
            self.wf(),
        ensures
            r@ == spec_encode_uint(self.v(), byte_len_spec(self.p())),
            r@.len() == byte_len_spec(self.p()),
            be_val(r@) == self.v(),
    {
        let size = ring_byte_len(&self.ring);
        let value = self.to_uint();
        encode_uint_fixed(&value, size)
    }
}

impl ModRing {
    /// TR-03111 3.1.3, decoding: reads a modulus-length big-endian string
    /// and reduces it into the ring.
    pub fn decode_field_element(&self, data: &[u8]) -> (r: Result<ModRingElement, Error>)
        requires
            self.wf(),
        ensures
            r is Ok <==> data@.len() == byte_len_spec(self.p()),
            r is Ok ==> {
                let e = r.unwrap();
                &&& e.wf()
                &&& e.p() == self.p()
                &&& e.v() == be_val(data@) % self.p()
            },
            r is Err ==> r == Err::<ModRingElement, Error>(Error::EncodingMalformed),
    {
        let size = ring_byte_len(self);
        match decode_uint_fixed(data, size) {
            Err(e) => Err(e),
            Ok(raw) => {
                let one = u_from_u64(1);
                let modulus = self.modulus();
                let reduced = u_mul_mod(&raw, &one, &modulus);
                proof {
                    assert(uval(raw) * 1 == uval(raw));
                    vstd::arithmetic::div_mod::lemma_mod_bound(uval(raw) as int,
                        self.p() as int);
                }
                Ok(self.from(reduced))
            },
        }
    }
}

/// The round-trip law for fixed-length integers: a value below the
/// field's capacity decodes from its own encoding unchanged, and in a
/// ring the reduction is the identity on reduced values.
pub proof fn lemma_uint_codec_round_trip(v: nat, size: nat, p: nat)
    requires
        v < pow2(8 * size),
        p > 1,
        v < p,
    ensures
        be_val(spec_encode_uint(v, size)) == v,
        be_val(spec_encode_uint(v, size)) % p == v,
        spec_encode_uint(v, size).len() == size,
{
    lemma_spec_encode_uint_len(v, size);
    lemma_spec_encode_uint_val(v, size);
    vstd::arithmetic::div_mod::lemma_small_mod(v, p);
}

/// The encoding is the only `size`-byte string carrying its value: any
/// byte string that decodes to `v` re-encodes to itself.
pub proof fn lemma_uint_codec_strict_round_trip(b: Seq<u8>, size: nat)
    requires
        b.len() == size,
        size <= 256,
    ensures
        spec_encode_uint(be_val(b), size) =~= b,
{
    crate::modmath::lemma_be_val_bound(b);
    lemma_spec_encode_uint_len(be_val(b), size);
    lemma_spec_encode_uint_val(be_val(b), size);
    lemma_be_val_injective(spec_encode_uint(be_val(b), size), b);
}

impl EllipticCurvePoint {
    /// TR-03111 3.2: encodes the point, compressed or uncompressed.
    pub fn encode_point(&self, compressed: bool) -> (r: Vec<u8>)
        requires
            self.wf(),
        ensures
            r@ == spec_encode_point(self.pt(), byte_len_spec(self.curve.pv()), compressed),
    {
        let mut out: Vec<u8> = Vec::new();
        match &self.coordinates {
            Coordinates::Infinity => {
                out.push(0u8);
                proof {
                    assert(out@ =~= spec_encode_point(self.pt(), byte_len_spec(
                        self.curve.pv()), compressed));
                }
            },
            Coordinates::Affine(x, y) => {
                let xb = x.encode_field_element();
                if compressed {
                    let yu = y.to_uint();
                    let odd = u_bit(&yu, 0);
                    proof {
                        vstd::arithmetic::power2::lemma2_to64();
                        vstd::arithmetic::div_mod::lemma_div_basics_1(y.v() as int);
                    }
                    out.push(if odd { 3u8 } else { 2u8 });
                    let mut xb = xb;
                    out.append(&mut xb);
                    proof {
                        assert(out@ =~= spec_encode_point(self.pt(), byte_len_spec(
                            self.curve.pv()), compressed));
                    }
                } else {
                    let yb = y.encode_field_element();
                    out.push(4u8);
                    let mut xb = xb;
                    let mut yb = yb;
                    out.append(&mut xb);
                    out.append(&mut yb);
                    proof {
                        assert(out@ =~= spec_encode_point(self.pt(), byte_len_spec(
                            self.curve.pv()), compressed));
                    }
                }
            },
        }
        out
    }
}

impl EllipticCurve {
    /// TR-03111 3.2, decoding: `00` is infinity; `04` carries both
    /// coordinates, validated on the curve; `02`/`03` carry an
    /// x-coordinate, and the root whose parity the tag names is chosen.
    pub fn decode_point(&self, data: &[u8]) -> (r: Result<EllipticCurvePoint, Error>)
        requires
            self.wf(),
        ensures
            r is Ok ==> {
                let pt = r.unwrap();
                &&& pt.wf()
                &&& pt.curve == *self
                &&& (pt.pt() is Some ==> on_curve(self.pv(), self.av(), self.bv(),
                    pt.pt().unwrap().0, pt.pt().unwrap().1))
            },
            // decoding the canonical infinity encoding yields infinity
            data@ =~= seq![0u8] ==> r is Ok && r.unwrap().pt() is None,
            // the empty buffer and unknown leading bytes are rejected
            data@.len() == 0 ==> r is Err,
            data@.len() > 0 && data@[0] == 0 ==> (r is Ok <==> data@.len() == 1),
            data@.len() > 0 && !(data@[0] == 0 || data@[0] == 2 || data@[0] == 3 || data@[0]
                == 4) ==> r is Err,
            // an uncompressed encoding is accepted exactly when it has the
            // right length and carries a valid point
            data@.len() > 0 && data@[0] == 4 ==> {
                let s = byte_len_spec(self.pv()) as int;
                let xv = be_val(data@.subrange(1, 1 + s)) % self.pv();
                let yv = be_val(data@.subrange(1 + s, 1 + 2 * s)) % self.pv();
                r is Ok <==> (data@.len() == 1 + 2 * s && on_curve(self.pv(), self.av(),
                    self.bv(), xv, yv) && (self.hv() != 1 ==> spec_mul(self.pv(), self.av(),
                    self.nv(), Some((xv, yv))) is None))
            },
            // an accepted uncompressed encoding pins both coordinates
            r is Ok && data@.len() > 0 && data@[0] == 4 ==> {
                let s = byte_len_spec(self.pv()) as int;
                r.unwrap().pt() == Some((be_val(data@.subrange(1, 1 + s)) % self.pv(), be_val(
                    data@.subrange(1 + s, 1 + 2 * s)) % self.pv()))
            },
            // an accepted compressed encoding pins the x-coordinate, and the
            // returned y matches the tag's parity unless it is zero
            r is Ok && data@.len() > 0 && (data@[0] == 2 || data@[0] == 3) ==> {
                let s = byte_len_spec(self.pv()) as int;
                &&& r.unwrap().pt() is Some
                &&& r.unwrap().pt().unwrap().0 == be_val(data@.subrange(1, 1 + s)) % self.pv()
                &&& (r.unwrap().pt().unwrap().1 == 0 || r.unwrap().pt().unwrap().1 % 2 == (
                if data@[0] == 3 {
                    1nat
                } else {
                    0nat
                }))
            },
    {
        let n = data.len();
        if n == 0 {
            return Err(Error::EncodingMalformed);
        }
        let tag = *vstd::slice::slice_index_get(data, 0);
        let size = ring_byte_len(&self.base_field);
        if tag == 0 {
            if n == 1 {
                Ok(self.infinity())
            } else {
                Err(Error::EncodingMalformed)
            }
        } else if tag == 4 {
            if n != 1 + 2 * size {
                return Err(Error::EncodingMalformed);
            }
            let xb = slice_subrange(data, 1, 1 + size);
            let yb = slice_subrange(data, 1 + size, n);
            let x = match self.base_field.decode_field_element(xb) {
                Ok(x) => x,
                Err(e) => {
                    return Err(e);
                },
            };
            let y = match self.base_field.decode_field_element(yb) {
                Ok(y) => y,
                Err(e) => {
                    return Err(e);
                },
            };
            self.from_affine(&x, &y)
        } else if tag == 2 || tag == 3 {
            if n != 1 + size {
                return Err(Error::EncodingMalformed);
            }
            let xb = slice_subrange(data, 1, n);
            let x = match self.base_field.decode_field_element(xb) {
                Ok(x) => x,
                Err(e) => {
                    return Err(e);
                },
            };
            let pt = match self.from_x(&x) {
                Ok(pt) => pt,
                Err(e) => {
                    return Err(e);
                },
            };
            let y = match pt.y() {
                Some(y) => y,
                None => {
                    return Err(Error::PointInvalid);
                },
            };
            let yu = y.to_uint();
            let odd = u_bit(&yu, 0);
            proof {
                vstd::arithmetic::power2::lemma2_to64();
                vstd::arithmetic::div_mod::lemma_div_basics_1(y.v() as int);
            }
            let want_odd = tag == 3;
            if odd == want_odd {
                Ok(pt)
            } else {
                let negated = pt.neg();
                proof {
                    crate::modmath::lemma_neg_square(self.pv(), y.v());
                    if y.v() != 0 {
                        crate::modmath::lemma_neg_parity(self.pv(), y.v());
                    } else {
                        vstd::arithmetic::div_mod::lemma_mod_self_0(self.pv() as int);
                    }
                }
                Ok(negated)
            }
        } else {
            Err(Error::EncodingMalformed)
        }
    }
}

/// The round-trip law for uncompressed points: the encoding opens with
/// the uncompressed tag, and the two coordinate fields decode back to
/// exactly the coordinates they were built from.
pub proof fn lemma_point_codec_round_trip(p: nat, x: nat, y: nat)
    requires
        p > 1,
        x < p,
        y < p,
    ensures
        ({
            let s = byte_len_spec(p) as int;
            let enc = spec_encode_point(Some((x, y)), byte_len_spec(p), false);
            &&& enc.len() == 1 + 2 * s
            &&& enc[0] == 4
            &&& be_val(enc.subrange(1, 1 + s)) % p == x
            &&& be_val(enc.subrange(1 + s, 1 + 2 * s)) % p == y
        }),
{
    let sn = byte_len_spec(p);
    let s = sn as int;
    lemma_byte_len_spec_val(p);
    lemma_spec_encode_uint_len(x, sn);
    lemma_spec_encode_uint_len(y, sn);
    lemma_spec_encode_uint_val(x, sn);
    lemma_spec_encode_uint_val(y, sn);
    let enc = spec_encode_point(Some((x, y)), sn, false);
    assert(enc.subrange(1, 1 + s) =~= spec_encode_uint(x, sn));
    assert(enc.subrange(1 + s, 1 + 2 * s) =~= spec_encode_uint(y, sn));
    vstd::arithmetic::div_mod::lemma_small_mod(x, p);
    vstd::arithmetic::div_mod::lemma_small_mod(y, p);
}

/// The same law for compressed points: the tag carries the parity of `y`
/// and the single coordinate field decodes back to `x`.
pub proof fn lemma_point_codec_compressed_x(p: nat, x: nat, y: nat)
    requires
        p > 1,
        x < p,
        y < p,
    ensures
        ({
            let s = byte_len_spec(p) as int;
            let enc = spec_encode_point(Some((x, y)), byte_len_spec(p), true);
            &&& enc.len() == 1 + s
            &&& enc[0] == (if y % 2 == 0 {
                2u8
            } else {
                3u8
            })
            &&& be_val(enc.subrange(1, 1 + s)) % p == x
        }),
{
    let sn = byte_len_spec(p);
    let s = sn as int;
    lemma_byte_len_spec_val(p);
    lemma_spec_encode_uint_len(x, sn);
    lemma_spec_encode_uint_val(x, sn);
    let enc = spec_encode_point(Some((x, y)), sn, true);
    assert(enc.subrange(1, 1 + s) =~= spec_encode_uint(x, sn));
    vstd::arithmetic::div_mod::lemma_small_mod(x, p);
}

/// The TR-03111 codec's configuration: an optional fixed byte length for
/// integers, and whether points are written compressed.
#[derive(Clone, Copy, Debug)]
pub struct BsiTr031111Codec {
    /// Byte length for plain integers; rings use their modulus length.
    pub uint_bytes: Option<usize>,
    /// Whether to write elliptic-curve points in compressed form.
    pub compressed_points: bool,
}

impl Default for BsiTr031111Codec {
    /// The configuration of `BsiTr031111Codec::new`.
    fn default() -> (r: BsiTr031111Codec)
        ensures
            r.uint_bytes is None,
            r.compressed_points,
    {
        BsiTr031111Codec::new()
    }
}

impl BsiTr031111Codec {
    /// The default configuration: full-width integers, compressed points.
    pub fn new() -> (r: BsiTr031111Codec)
        ensures
            r.uint_bytes is None,
            r.compressed_points,
    {
        BsiTr031111Codec { uint_bytes: None, compressed_points: true }
    }

    /// The byte length this codec writes plain integers at.
    pub open spec fn spec_size(self) -> nat {
        match self.uint_bytes {
            Some(n) => n as nat,
            None => 256,
        }
    }

    /// TR-03111 3.1.2: a fixed-length big-endian integer.
    pub fn encode_uint(&self, value: &Wide) -> (r: Result<Vec<u8>, Error>)
        ensures
            r is Ok <==> (self.spec_size() <= 256 && uval(*value) < pow2(8 * self.spec_size())),
            r is Ok ==> r.unwrap()@ == spec_encode_uint(uval(*value), self.spec_size()),
            r is Err ==> r == Err::<Vec<u8>, Error>(Error::EncodingMalformed),
    {
        let size = match self.uint_bytes {
            Some(n) => n,
            None => 256,
        };
        if size > 256 {
            return Err(Error::EncodingMalformed);
        }
        let bl = wide_byte_len(value);
        if bl > size {
            proof {
                if uval(*value) < pow2(8 * size as nat) {
                    lemma_byte_len_spec_bound(uval(*value), size as nat);
                }
            }
            return Err(Error::EncodingMalformed);
        }
        proof {
            if 8 * bl < 8 * size {
                vstd::arithmetic::power2::lemma_pow2_strictly_increases(8 * bl as nat,
                    8 * size as nat);
            }
        }
        Ok(encode_uint_fixed(value, size))
    }

    /// TR-03111 3.1.2, decoding: the whole buffer as one integer.
    pub fn decode_uint(&self, data: &[u8]) -> (r: Result<Wide, Error>)
        ensures
            r is Ok <==> (data@.len() == self.spec_size() && self.spec_size() <= 256),
            r is Ok ==> uval(r.unwrap()) == be_val(data@),
            r is Err ==> r == Err::<Wide, Error>(Error::EncodingMalformed),
    {
        let size = match self.uint_bytes {
            Some(n) => n,
            None => 256,
        };
        decode_uint_fixed(data, size)
    }

    /// TR-03111 3.1.3: the modulus-length encoding of a field element.
    pub fn encode_element(&self, value: &ModRingElement) -> (r: Vec<u8>)
        requires
            value.wf(),
        ensures
            r@ == spec_encode_uint(value.v(), byte_len_spec(value.p())),
    {
        value.encode_field_element()
    }

    /// TR-03111 3.1.3, decoding into a given ring.
    pub fn decode_element(&self, ring: &ModRing, data: &[u8]) -> (r: Result<
        ModRingElement,
        Error,
    >)
        requires
            ring.wf(),
        ensures
            r is Ok <==> data@.len() == byte_len_spec(ring.p()),
            r is Ok ==> r.unwrap().wf() && r.unwrap().p() == ring.p() && r.unwrap().v()
                == be_val(data@) % ring.p(),
    {
        ring.decode_field_element(data)
    }

    /// TR-03111 3.2: a point, in this codec's configured form.
    pub fn encode_point(&self, value: &EllipticCurvePoint) -> (r: Vec<u8>)
        requires
            value.wf(),
        ensures
            r@ == spec_encode_point(value.pt(), byte_len_spec(value.curve.pv()),
                self.compressed_points),
    {
        value.encode_point(self.compressed_points)
    }

    /// TR-03111 3.2, decoding onto a given curve.
    pub fn decode_point(&self, curve: &EllipticCurve, data: &[u8]) -> (r: Result<
        EllipticCurvePoint,
        Error,
    >)
        requires
            curve.wf(),
        ensures
            r is Ok ==> r.unwrap().wf() && r.unwrap().curve == *curve,
    {
        curve.decode_point(data)
    }
}

} // verus!
