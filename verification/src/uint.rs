//! Fixed-width unsigned integers, 2048 bits wide, backed by `ruint`.
//!
//! Every big integer in this crate is held at the single declared width of
//! 2048 bits; rings for smaller moduli simply leave the upper bits zero.
//! The functions of `ruint` that the arithmetic rests on are declared here,
//! each with the contract its source and documentation give.

use subtle::{ConditionallySelectable, ConstantTimeEq};
use vstd::prelude::*;
use vstd::arithmetic::power2::pow2;

verus! {

/// The one backing integer type: a 2048-bit `ruint` unsigned integer.
pub type Wide = ruint::Uint<2048, 32>;

#[verifier::external_type_specification]
#[verifier::external_body]
pub struct ExUint<const BITS: usize, const LIMBS: usize>(ruint::Uint<BITS, LIMBS>);

/// Abstract numeric value of a 2048-bit unsigned integer.
pub uninterp spec fn uval(u: Wide) -> nat;

/// Big-endian value of a byte string.
pub open spec fn be_val(s: Seq<u8>) -> nat
    decreases s.len(),
{
    if s.len() == 0 {
        0
    } else {
        be_val(s.drop_last()) * 256 + (s.last() as nat)
    }
}

/// `inv` is minus the inverse of `p` modulo 2^64, as Montgomery reduction needs.
pub open spec fn minv_ok(p: nat, inv: u64) -> bool {
    ((p % pow2(64)) * (inv as nat) + 1) % pow2(64) == 0
}

/// Relies on ruint's `Uint::from::<u64>`: embeds the value unchanged.
#[verifier::external_body]
pub fn u_from_u64(v: u64) -> (r: Wide)
    ensures
        uval(r) == v as nat,
{
    ruint::Uint::from(v)
}

/// Relies on ruint's `Uint::from_be_slice`: big-endian bytes to integer.
/// A slice of at most 256 bytes always fits in 2048 bits.
#[verifier::external_body]
pub fn u_from_be_slice(bytes: &[u8]) -> (r: Wide)
    requires
        bytes@.len() <= 256,
    ensures
        uval(r) == be_val(bytes@),
{
    ruint::Uint::from_be_slice(bytes)
}

/// Relies on ruint's `Uint::to_be_bytes_vec`: 256 big-endian bytes.
#[verifier::external_body]
pub fn u_to_be_bytes(u: &Wide) -> (r: Vec<u8>)
    ensures
        r@.len() == 256,
        be_val(r@) == uval(*u),
{
    u.to_be_bytes_vec()
}

/// Relies on ruint's `Uint::overflowing_add`: sum wrapped at 2^2048, with carry.
#[verifier::external_body]
pub fn u_overflowing_add(a: &Wide, b: &Wide) -> (r: (Wide, bool))
    ensures
        uval(r.0) < pow2(2048),
        uval(r.0) + (if r.1 { pow2(2048) } else { 0nat }) == uval(*a) + uval(*b),
{
    a.overflowing_add(*b)
}

/// Relies on ruint's `Uint::overflowing_sub`: difference wrapped at 2^2048, with borrow.
#[verifier::external_body]
pub fn u_overflowing_sub(a: &Wide, b: &Wide) -> (r: (Wide, bool))
    ensures
        uval(r.0) < pow2(2048),
        r.1 == (uval(*a) < uval(*b)),
        uval(r.0) + uval(*b) == uval(*a) + (if r.1 { pow2(2048) } else { 0nat }),
{
    a.overflowing_sub(*b)
}

/// Relies on ruint's `Uint::wrapping_add`: sum modulo 2^2048.
#[verifier::external_body]
pub fn u_wrapping_add(a: &Wide, b: &Wide) -> (r: Wide)
    ensures
        uval(r) == (uval(*a) + uval(*b)) % pow2(2048),
{
    a.wrapping_add(*b)
}

/// Relies on ruint's `Uint::mul_mod`: the product reduced by the modulus.
#[verifier::external_body]
pub fn u_mul_mod(a: &Wide, b: &Wide, p: &Wide) -> (r: Wide)
    requires
        uval(*p) > 0,
    ensures
        uval(r) == (uval(*a) * uval(*b)) % uval(*p),
{
    a.mul_mod(*b, *p)
}

/// Relies on ruint's `Uint::mul_redc`: Montgomery product `a·b / 2^2048 mod p`,
/// for odd `p` with `inv = -p⁻¹ mod 2^64` and both factors below `p`.
#[verifier::external_body]
pub fn u_mul_redc(a: &Wide, b: &Wide, p: &Wide, inv: u64) -> (r: Wide)
    requires
        uval(*p) > 1,
        uval(*p) % 2 == 1,
        uval(*a) < uval(*p),
        uval(*b) < uval(*p),
        minv_ok(uval(*p), inv),
    ensures
        uval(r) < uval(*p),
        (uval(r) * pow2(2048)) % uval(*p) == (uval(*a) * uval(*b)) % uval(*p),
{
    a.mul_redc(*b, *p, inv)
}

/// Relies on ruint's `Uint::square_redc`: Montgomery squaring, see `u_mul_redc`.
#[verifier::external_body]
pub fn u_square_redc(a: &Wide, p: &Wide, inv: u64) -> (r: Wide)
    requires
        uval(*p) > 1,
        uval(*p) % 2 == 1,
        uval(*a) < uval(*p),
        minv_ok(uval(*p), inv),
    ensures
        uval(r) < uval(*p),
        (uval(r) * pow2(2048)) % uval(*p) == (uval(*a) * uval(*a)) % uval(*p),
{
    a.square_redc(*p, inv)
}

/// Relies on ruint's `Uint::inv_mod`: the inverse modulo `p`, or `None`
/// when no inverse exists.
#[verifier::external_body]
pub fn u_inv_mod(a: &Wide, p: &Wide) -> (r: Option<Wide>)
    requires
        uval(*p) > 1,
    ensures
        match r {
            Some(i) => uval(i) < uval(*p) && (uval(i) * uval(*a)) % uval(*p) == 1,
            None => forall|j: nat| #[trigger] ((j * uval(*a)) % uval(*p)) != 1,
        },
{
    a.inv_mod(*p)
}

/// Relies on ruint's `Uint::inv_ring` on a 64-bit value: the inverse of an odd
/// number modulo 2^64, negated to give `-p⁻¹ mod 2^64`.
#[verifier::external_body]
pub fn u_inv64(p: &Wide) -> (r: u64)
    requires
        uval(*p) % 2 == 1,
    ensures
        minv_ok(uval(*p), r),
{
    ruint::aliases::U64::wrapping_from(*p)
        .inv_ring()
        .expect("odd modulus")
        .wrapping_neg()
        .to()
}

/// Relies on ruint's left shift: `2^k` for `k` below the width.
#[verifier::external_body]
pub fn u_pow2(k: usize) -> (r: Wide)
    requires
        k < 2048,
    ensures
        uval(r) == pow2(k as nat),
{
    ruint::Uint::from(1u64) << k
}

/// Relies on ruint's right shift: floor division by `2^k`.
#[verifier::external_body]
pub fn u_shr(a: &Wide, k: usize) -> (r: Wide)
    ensures
        uval(r) == uval(*a) / pow2(k as nat),
{
    *a >> k
}

/// Relies on ruint's `Uint::bit`: bit `i` of the binary expansion.
#[verifier::external_body]
pub fn u_bit(a: &Wide, i: usize) -> (r: bool)
    requires
        i < 2048,
    ensures
        r == ((uval(*a) / pow2(i as nat)) % 2 == 1),
{
    a.bit(i)
}

/// Relies on ruint's `Uint::bit_len`: index of the highest set bit plus one.
#[verifier::external_body]
pub fn u_bit_len(a: &Wide) -> (r: usize)
    ensures
        r <= 2048,
        uval(*a) < pow2(r as nat),
        uval(*a) == 0 <==> r == 0,
        r > 0 ==> pow2((r - 1) as nat) <= uval(*a),
{
    a.bit_len()
}

/// Relies on subtle's `ConstantTimeEq` for ruint integers: equality of
/// the numeric values, without a data-dependent branch.
#[verifier::external_body]
pub fn u_eq(a: &Wide, b: &Wide) -> (r: bool)
    ensures
        r == (uval(*a) == uval(*b)),
{
    a.ct_eq(b).into()
}

/// Relies on ruint's `PartialOrd`: numeric comparison.
#[verifier::external_body]
pub fn u_lt(a: &Wide, b: &Wide) -> (r: bool)
    ensures
        r == (uval(*a) < uval(*b)),
{
    a < b
}

/// Relies on subtle's `ConditionallySelectable` for ruint integers:
/// picks the second value when the flag is set, without a data-dependent branch.
#[verifier::external_body]
pub fn u_cond_select(a: &Wide, b: &Wide, flag: bool) -> (r: Wide)
    ensures
        uval(r) == if flag {
            uval(*b)
        } else {
            uval(*a)
        },
{
    ruint::Uint::conditional_select(a, b, subtle::Choice::from(flag as u8))
}

/// Relies on ruint's `Clone`: the copy has the same value.
#[verifier::external_body]
pub fn u_dup(a: &Wide) -> (r: Wide)
    ensures
        uval(r) == uval(*a),
{
    *a
}

/// Relies on ruint's `as_limbs`: the least-significant 64-bit limb.
#[verifier::external_body]
pub fn u_low_u64(a: &Wide) -> (r: u64)
    ensures
        r as nat == uval(*a) % pow2(64),
{
    a.as_limbs()[0]
}

/// Modular addition of reduced values, by overflow-and-conditional-subtract.
pub fn u_add_mod(a: &Wide, b: &Wide, p: &Wide) -> (r: Wide)
    requires
        uval(*p) > 0,
        uval(*p) < pow2(2048),
        uval(*a) < uval(*p),
        uval(*b) < uval(*p),
    ensures
        uval(r) == (uval(*a) + uval(*b)) % uval(*p),
{
    let ghost pp = uval(*p);
    let ghost aa = uval(*a);
    let ghost bb = uval(*b);
    let (sum, carry) = u_overflowing_add(a, b);
    let (reduced, borrow) = u_overflowing_sub(&sum, p);
    proof {
        if carry {
            assert(uval(sum) + pow2(2048) == aa + bb);
            assert(uval(sum) < pp);
        }
    }
    if carry || !borrow {
        proof {
            vstd::arithmetic::div_mod::lemma_mod_sub_multiples_vanish((aa + bb) as int, pp as int);
            vstd::arithmetic::div_mod::lemma_small_mod((aa + bb - pp) as nat, pp);
        }
        reduced
    } else {
        proof {
            vstd::arithmetic::div_mod::lemma_small_mod((aa + bb) as nat, pp);
        }
        sum
    }
}

/// Modular subtraction of reduced values, by borrow-and-conditional-add.
pub fn u_sub_mod(a: &Wide, b: &Wide, p: &Wide) -> (r: Wide)
    requires
        uval(*p) > 0,
        uval(*p) < pow2(2048),
        uval(*a) < uval(*p),
        uval(*b) < uval(*p),
    ensures
        uval(r) == (uval(*p) + uval(*a) - uval(*b)) % (uval(*p) as int),
{
    let ghost pp = uval(*p);
    let ghost aa = uval(*a);
    let ghost bb = uval(*b);
    let (res, borrow) = u_overflowing_sub(a, b);
    if borrow {
        let fixed = u_wrapping_add(&res, p);
        proof {
            assert(uval(res) == aa + pow2(2048) - bb);
            vstd::arithmetic::div_mod::lemma_mod_add_multiples_vanish(
                (aa + pp - bb) as int, pow2(2048) as int);
            vstd::arithmetic::div_mod::lemma_small_mod((aa + pp - bb) as nat, pow2(2048));
            vstd::arithmetic::div_mod::lemma_small_mod((aa + pp - bb) as nat, pp);
        }
        fixed
    } else {
        proof {
            vstd::arithmetic::div_mod::lemma_mod_add_multiples_vanish((aa - bb) as int, pp as int);
            vstd::arithmetic::div_mod::lemma_small_mod((aa - bb) as nat, pp);
        }
        res
    }
}

} // verus!
