//! Lemmas about modular arithmetic: inverses, cancellation, and the facts
//! that relate a Montgomery representation to the value it stands for.

use vstd::prelude::*;
use vstd::arithmetic::power2::pow2;
use vstd::arithmetic::div_mod::{
    lemma_mod_bound, lemma_mul_mod_noop_general, lemma_mul_mod_noop_left, lemma_mul_mod_noop_right,
    lemma_small_mod, lemma_mod_add_multiples_vanish, lemma_add_mod_noop, lemma_sub_mod_noop,
};
use vstd::arithmetic::mul::{lemma_mul_is_distributive_add_other_way,
    lemma_mul_is_distributive_sub_other_way};
use vstd::arithmetic::power::{pow, lemma_pow_adds, lemma_pow0, lemma_pow1, lemma_pow_positive,
    lemma0_pow};
use vstd::arithmetic::power2::{lemma_pow2_pos, lemma_pow2_unfold};
use vstd::arithmetic::mul::{lemma_mul_is_associative, lemma_mul_is_commutative};
use crate::uint::be_val;

verus! {

/// `a` has a multiplicative inverse modulo `p`.
pub open spec fn mod_inv_exists(a: nat, p: nat) -> bool {
    exists|i: nat| i < p && #[trigger] ((i * a) % p) == 1
}

/// Modulo an odd number, 2 is invertible: `(p+1)/2` is its inverse.
pub proof fn lemma_two_invertible(p: nat)
    requires
        p > 1,
        p % 2 == 1,
    ensures
        mod_inv_exists(2, p),
{
    let w = (p + 1) / 2;
    assert(w * 2 == p + 1) by (nonlinear_arith)
        requires
            p % 2 == 1,
            w == (p + 1) / 2,
    ;
    lemma_mod_add_multiples_vanish(1, p as int);
    lemma_small_mod(1, p);
    assert((w * 2) % p == 1);
    assert(w < p) by (nonlinear_arith)
        requires
            p > 1,
            w * 2 == p + 1,
    ;
}

/// Inverses compose: if `a` and `b` are invertible mod `p`, so is `a·b`.
pub proof fn lemma_inv_compose(a: nat, b: nat, p: nat)
    requires
        p > 1,
        mod_inv_exists(a, p),
        mod_inv_exists(b, p),
    ensures
        mod_inv_exists(a * b, p),
{
    let i = choose|i: nat| i < p && #[trigger] ((i * a) % p) == 1;
    let j = choose|j: nat| j < p && #[trigger] ((j * b) % p) == 1;
    let k = (i * j) % p;
    lemma_mod_bound((i * j) as int, p as int);
    assert((k * (a * b)) % p == ((i * j) * (a * b)) % p) by {
        lemma_mul_mod_noop_left((i * j) as int, (a * b) as int, p as int);
    }
    assert((i * j) * (a * b) == (i * a) * (j * b)) by (nonlinear_arith);
    assert(((i * a) * (j * b)) % p == (((i * a) % p) * ((j * b) % p)) % p) by {
        lemma_mul_mod_noop_general((i * a) as int, (j * b) as int, p as int);
    }
    lemma_small_mod(1, p);
    assert((k * (a * b)) % p == 1);
}

/// Every power of two is invertible modulo an odd number.
pub proof fn lemma_pow2_invertible(p: nat, k: nat)
    requires
        p > 1,
        p % 2 == 1,
    ensures
        mod_inv_exists(pow2(k), p),
    decreases k,
{
    if k == 0 {
        vstd::arithmetic::power2::lemma2_to64();
        lemma_small_mod(1, p);
        assert((1 * pow2(0)) % p == 1);
        assert(1 < p && ((1 * pow2(0)) % p) == 1);
    } else {
        lemma_pow2_invertible(p, (k - 1) as nat);
        lemma_two_invertible(p);
        lemma_pow2_unfold(k);
        assert(pow2(k) == pow2((k - 1) as nat) * 2);
        lemma_inv_compose(pow2((k - 1) as nat), 2, p);
    }
}

/// Multiplication by an invertible factor can be cancelled.
pub proof fn lemma_mod_mul_cancel(x: nat, y: nat, r: nat, p: nat)
    requires
        p > 1,
        x < p,
        y < p,
        (x * r) % p == (y * r) % p,
        mod_inv_exists(r, p),
    ensures
        x == y,
{
    let i = choose|i: nat| i < p && #[trigger] ((i * r) % p) == 1;
    assert forall|z: nat| z < p implies #[trigger] ((z * (r * i)) % p) == z by {
        assert((z * (r * i)) % p == (z * ((r * i) % p)) % p) by {
            lemma_mul_mod_noop_right(z as int, (r * i) as int, p as int);
        }
        assert(r * i == i * r) by (nonlinear_arith);
        assert((z * 1) % p == z) by {
            lemma_small_mod(z, p);
        }
    }
    assert forall|z: nat| z < p implies #[trigger] ((z * (r * i)) % p) == (((z * r) % p) * i) % p by {
        assert(z * (r * i) == (z * r) * i) by (nonlinear_arith);
        lemma_mul_mod_noop_left((z * r) as int, i as int, p as int);
    }
    assert((x * (r * i)) % p == x);
    assert((y * (r * i)) % p == y);
    assert((((x * r) % p) * i) % p == (((y * r) % p) * i) % p);
}

/// Two reduced values with the same Montgomery form are equal.
pub proof fn lemma_mont_unique(p: nat, v1: nat, v2: nat)
    requires
        p > 1,
        p % 2 == 1,
        v1 < p,
        v2 < p,
        (v1 * pow2(2048)) % p == (v2 * pow2(2048)) % p,
    ensures
        v1 == v2,
{
    lemma_pow2_invertible(p, 2048);
    lemma_mod_mul_cancel(v1, v2, pow2(2048), p);
}

/// The Montgomery form of a product: if `ma`, `mb` carry `va`, `vb` and `r`
/// is the Montgomery reduction of `ma·mb`, then `r` carries `(va·vb) % p`.
pub proof fn lemma_mont_mul(p: nat, va: nat, vb: nat, ma: nat, mb: nat, r: nat)
    requires
        p > 1,
        p % 2 == 1,
        va < p,
        vb < p,
        ma == (va * pow2(2048)) % p,
        mb == (vb * pow2(2048)) % p,
        r < p,
        (r * pow2(2048)) % p == (ma * mb) % p,
    ensures
        r == (((va * vb) % p) * pow2(2048)) % p,
{
    let rr = pow2(2048);
    let t = (((va * vb) % p) * rr) % p;
    lemma_mod_bound(((va * vb) % p) as int * rr as int, p as int);
    // (t · R) % p == (va·vb·R·R) % p
    assert((t * rr) % p == ((((va * vb) % p) * rr) * rr) % p) by {
        lemma_mul_mod_noop_left((((va * vb) % p) * rr) as int, rr as int, p as int);
    }
    assert(((((va * vb) % p) * rr) * rr) % p == (((va * vb) % p) * (rr * rr)) % p) by {
        lemma_mul_is_associative(((va * vb) % p) as int, rr as int, rr as int);
    }
    assert((((va * vb) % p) * (rr * rr)) % p == ((va * vb) * (rr * rr)) % p) by {
        lemma_mul_mod_noop_left((va * vb) as int, (rr * rr) as int, p as int);
        lemma_mul_is_commutative(((va * vb) % p) as int, (rr * rr) as int);
        lemma_mul_is_commutative((va * vb) as int, (rr * rr) as int);
        lemma_mul_mod_noop_right((rr * rr) as int, (va * vb) as int, p as int);
    }
    // (ma · mb) % p == (va·vb·R·R) % p
    assert((ma * mb) % p == ((va * rr) * (vb * rr)) % p) by {
        lemma_mul_mod_noop_general((va * rr) as int, (vb * rr) as int, p as int);
    }
    assert((va * rr) * (vb * rr) == (va * vb) * (rr * rr)) by (nonlinear_arith);
    // so (r·R) % p == (t·R) % p and both are reduced
    lemma_mont_unique(p, r, t);
}

/// A byte string of length `n` holds a value below `2^(8n)`.
pub proof fn lemma_be_val_bound(s: Seq<u8>)
    ensures
        be_val(s) < pow2(8 * s.len()),
    decreases s.len(),
{
    if s.len() == 0 {
        vstd::arithmetic::power2::lemma2_to64();
    } else {
        lemma_be_val_bound(s.drop_last());
        lemma_pow2_pos(8 * (s.len() - 1) as nat);
        assert(pow2(8 * s.len()) == pow2(8 * (s.len() - 1) as nat) * 256) by {
            vstd::arithmetic::power2::lemma_pow2_adds(8 * (s.len() - 1) as nat, 8);
            vstd::arithmetic::power2::lemma2_to64();
        }
        assert(be_val(s) == be_val(s.drop_last()) * 256 + s.last());
        assert(be_val(s.drop_last()) * 256 + 256 <= pow2(8 * (s.len() - 1) as nat) * 256)
            by (nonlinear_arith)
            requires
                be_val(s.drop_last()) < pow2(8 * (s.len() - 1) as nat),
        ;
    }
}

/// `b^e mod p` as a mathematical value.
pub open spec fn pow_mod(b: nat, e: nat, p: nat) -> nat {
    (pow(b as int, e) % (p as int)) as nat
}

/// Powers of a natural number are not negative.
pub proof fn lemma_pow_nonneg(b: nat, e: nat)
    ensures
        pow(b as int, e) >= 0,
{
    if b == 0 {
        if e == 0 {
            lemma_pow0(b as int);
        } else {
            lemma0_pow(e);
        }
    } else {
        lemma_pow_positive(b as int, e);
    }
}

/// Multiplying two reduced powers gives the reduced power of the summed
/// exponents.
pub proof fn lemma_pow_mod_mul(b: nat, e1: nat, e2: nat, p: nat)
    requires
        p > 1,
    ensures
        (pow_mod(b, e1, p) * pow_mod(b, e2, p)) % p == pow_mod(b, e1 + e2, p),
{
    lemma_pow_nonneg(b, e1);
    lemma_pow_nonneg(b, e2);
    lemma_pow_nonneg(b, e1 + e2);
    lemma_pow_adds(b as int, e1, e2);
    lemma_mul_mod_noop_general(pow(b as int, e1), pow(b as int, e2), p as int);
}

/// The zeroth power reduces to one.
pub proof fn lemma_pow_mod_zero(b: nat, p: nat)
    requires
        p > 1,
    ensures
        pow_mod(b, 0, p) == 1,
{
    lemma_pow0(b as int);
    lemma_small_mod(1, p);
}

/// The first power reduces to the base's residue.
pub proof fn lemma_pow_mod_one(b: nat, p: nat)
    requires
        p > 1,
    ensures
        pow_mod(b, 1, p) == b % p,
{
    lemma_pow1(b as int);
}

/// Montgomery conversion: reducing `u · (R² mod p)` yields the form that
/// carries `u` itself.
pub proof fn lemma_mont_from(p: nat, u: nat, m: nat)
    requires
        p > 1,
        p % 2 == 1,
        u < p,
        m < p,
        (m * pow2(2048)) % p == (u * ((pow2(2048) * pow2(2048)) % p)) % p,
    ensures
        m == (u * pow2(2048)) % p,
{
    let rr = pow2(2048);
    let t = (u * rr) % p;
    lemma_mod_bound((u * rr) as int, p as int);
    assert((u * ((rr * rr) % p)) % p == (u * (rr * rr)) % p) by {
        lemma_mul_mod_noop_right(u as int, (rr * rr) as int, p as int);
    }
    assert((t * rr) % p == ((u * rr) * rr) % p) by {
        lemma_mul_mod_noop_left((u * rr) as int, rr as int, p as int);
    }
    assert((u * rr) * rr == u * (rr * rr)) by {
        lemma_mul_is_associative(u as int, rr as int, rr as int);
    }
    lemma_mont_unique(p, m, t);
}

/// Montgomery forms add: the sum of two forms carries the reduced sum of
/// the values.
pub proof fn lemma_mont_add(p: nat, va: nat, vb: nat, m: nat)
    requires
        p > 1,
        p % 2 == 1,
        va < p,
        vb < p,
        m == (((va * pow2(2048)) % p) + ((vb * pow2(2048)) % p)) % p,
    ensures
        m == (((va + vb) % p) * pow2(2048)) % p,
{
    let rr = pow2(2048);
    lemma_add_mod_noop((va * rr) as int, (vb * rr) as int, p as int);
    assert(va * rr + vb * rr == (va + vb) * rr) by {
        lemma_mul_is_distributive_add_other_way(rr as int, va as int, vb as int);
    }
    lemma_mul_mod_noop_left((va + vb) as int, rr as int, p as int);
}

/// Montgomery forms subtract likewise.
pub proof fn lemma_mont_sub(p: nat, va: nat, vb: nat, m: nat)
    requires
        p > 1,
        p % 2 == 1,
        va < p,
        vb < p,
        m == (p + ((va * pow2(2048)) % p) - ((vb * pow2(2048)) % p)) % (p as int),
    ensures
        m == (((p + va - vb) % (p as int)) * pow2(2048)) % (p as int),
{
    let rr = pow2(2048) as int;
    let pi = p as int;
    let a = (va * rr) % pi;
    let b = (vb * rr) % pi;
    lemma_mod_add_multiples_vanish(a - b, pi);
    assert((pi + a - b) % pi == (a - b) % pi);
    lemma_sub_mod_noop((va as int) * rr, (vb as int) * rr, pi);
    assert((a - b) % pi == (va * rr - vb * rr) % pi);
    assert(va * rr - vb * rr == (va - vb) * rr) by {
        lemma_mul_is_distributive_sub_other_way(rr, va as int, vb as int);
    }
    lemma_mod_add_multiples_vanish((va as int) - (vb as int), pi);
    assert((pi + va - vb) % pi == (va - vb) % pi);
    // replace the left factor by its residue
    lemma_mul_mod_noop_left((va as int) - (vb as int), rr, pi);
    lemma_mul_mod_noop_left(pi + va - vb, rr, pi);
}

/// Every reduced value is some element's Montgomery form: a witness for
/// `v` with `v·R ≡ m (mod p)` exists whenever `p` is odd.
pub proof fn lemma_mont_value_exists(p: nat, m: nat)
    requires
        p > 1,
        p % 2 == 1,
        m < p,
    ensures
        exists|v: nat| v < p && #[trigger] ((v * pow2(2048)) % p) == m,
{
    let rr = pow2(2048);
    lemma_pow2_invertible(p, 2048);
    assert(mod_inv_exists(rr, p));
    let i = choose|i: nat| i < p && #[trigger] ((i * rr) % p) == 1;
    let v = (m * i) % p;
    lemma_mod_bound((m * i) as int, p as int);
    assert((v * rr) % p == ((m * i) * rr) % p) by {
        lemma_mul_mod_noop_left((m * i) as int, rr as int, p as int);
    }
    assert((m * i) * rr == m * (i * rr)) by {
        lemma_mul_is_associative(m as int, i as int, rr as int);
    }
    assert((m * (i * rr)) % p == (m * ((i * rr) % p)) % p) by {
        lemma_mul_mod_noop_right(m as int, (i * rr) as int, p as int);
    }
    lemma_small_mod(m, p);
    assert(i < p && ((i * rr) % p) == 1);
    assert((v * rr) % p == ((m * i) * rr) % p);
    assert((v * rr) % p == (m * (i * rr)) % p);
    assert((v * rr) % p == (m * ((i * rr) % p)) % p);
    assert((v * rr) % p == (m * 1) % p);
    assert(m * 1 == m);
    assert((v * rr) % p == m);
}

/// Splitting an exponent at bit `i`: the residue modulo `2^(i+1)` adds
/// `2^i` to the residue modulo `2^i` exactly when bit `i` is set.
pub proof fn lemma_exp_bit_split(e: nat, i: nat)
    ensures
        e % pow2(i + 1) == if (e / pow2(i)) % 2 == 1 {
            e % pow2(i) + pow2(i)
        } else {
            e % pow2(i)
        },
{
    lemma_pow2_pos(i);
    vstd::arithmetic::div_mod::lemma_mod_breakdown(e as int, pow2(i) as int, 2);
    vstd::arithmetic::power2::lemma_pow2_adds(i, 1);
    vstd::arithmetic::power2::lemma2_to64();
    lemma_mod_bound((e / pow2(i)) as int, 2);
    assert(pow2(i + 1) == pow2(i) * 2);
}

/// The canonical inverse of `d` modulo `p`, where one exists.
pub open spec fn inv_f(p: nat, d: nat) -> nat {
    choose|i: nat| i < p && #[trigger] ((i * d) % p) == 1
}

/// Any reduced solution of `c·d ≡ 1` is the canonical inverse.
pub proof fn lemma_inv_f_unique(p: nat, d: nat, c: nat)
    requires
        p > 1,
        c < p,
        (c * d) % p == 1,
    ensures
        mod_inv_exists(d, p),
        inv_f(p, d) == c,
{
    assert(mod_inv_exists(d, p));
    let i = inv_f(p, d);
    assert(i < p && (i * d) % p == 1);
    lemma_mod_mul_cancel(c, i, d, p);
}

/// A quotient by an invertible factor, stated multiplicatively: from
/// `e·d ≡ n` follows `e = n·d⁻¹ mod p`.
pub proof fn lemma_div_is_mul_inv(p: nat, n: nat, d: nat, e: nat)
    requires
        p > 1,
        n < p,
        e < p,
        (e * d) % p == n,
        mod_inv_exists(d, p),
    ensures
        e == (n * inv_f(p, d)) % p,
{
    let i = choose|i: nat| i < p && #[trigger] ((i * d) % p) == 1;
    lemma_inv_f_unique(p, d, i);
    assert(inv_f(p, d) == i);
    // e ≡ e·(d·i) ≡ (e·d)·i ≡ n·i
    assert((e * (d * i)) % p == (e * ((d * i) % p)) % p) by {
        lemma_mul_mod_noop_right(e as int, (d * i) as int, p as int);
    }
    assert(d * i == i * d) by (nonlinear_arith);
    assert(e * 1 == e);
    lemma_small_mod(e, p);
    assert((e * (d * i)) % p == e);
    assert(e * (d * i) == (e * d) * i) by (nonlinear_arith);
    assert(((e * d) * i) % p == (((e * d) % p) * i) % p) by {
        lemma_mul_mod_noop_left((e * d) as int, i as int, p as int);
    }
    assert((n * i) % p == e);
}

/// The residue of an odd number modulo 8, from its low bits.
pub proof fn lemma_mod8_bits(p: nat)
    requires
        p % 2 == 1,
    ensures
        p % 8 == 1 + 2 * ((p / 2) % 2) + 4 * ((p / 4) % 2),
{
    vstd::arithmetic::div_mod::lemma_mod_breakdown(p as int, 4, 2);
    vstd::arithmetic::div_mod::lemma_mod_breakdown(p as int, 2, 2);
}

/// The canonical big-endian encoding of `v` in exactly `size` bytes.
pub open spec fn spec_encode_uint(v: nat, size: nat) -> Seq<u8>
    decreases size,
{
    if size == 0 {
        Seq::empty()
    } else {
        spec_encode_uint(v / 256, (size - 1) as nat).push((v % 256) as u8)
    }
}

/// The canonical encoding has the requested length.
pub proof fn lemma_spec_encode_uint_len(v: nat, size: nat)
    ensures
        spec_encode_uint(v, size).len() == size,
    decreases size,
{
    if size > 0 {
        lemma_spec_encode_uint_len(v / 256, (size - 1) as nat);
    }
}

/// The canonical encoding carries the value it was built from.
pub proof fn lemma_spec_encode_uint_val(v: nat, size: nat)
    requires
        v < pow2(8 * size),
    ensures
        be_val(spec_encode_uint(v, size)) == v,
    decreases size,
{
    lemma_spec_encode_uint_len(v, size);
    if size == 0 {
        vstd::arithmetic::power2::lemma2_to64();
    } else {
        let s = spec_encode_uint(v, size);
        assert(s.drop_last() =~= spec_encode_uint(v / 256, (size - 1) as nat));
        assert(v / 256 < pow2(8 * (size - 1) as nat)) by {
            vstd::arithmetic::power2::lemma_pow2_adds(8 * (size - 1) as nat, 8);
            vstd::arithmetic::power2::lemma2_to64();
            vstd::arithmetic::power2::lemma_pow2_pos(8 * (size - 1) as nat);
            vstd::arithmetic::div_mod::lemma_multiply_divide_lt(v as int, 256,
                pow2(8 * (size - 1) as nat) as int);
        }
        lemma_spec_encode_uint_val(v / 256, (size - 1) as nat);
        vstd::arithmetic::div_mod::lemma_fundamental_div_mod(v as int, 256);
    }
}

/// Two byte strings of the same length with the same value are equal.
pub proof fn lemma_be_val_injective(s1: Seq<u8>, s2: Seq<u8>)
    requires
        s1.len() == s2.len(),
        be_val(s1) == be_val(s2),
    ensures
        s1 =~= s2,
    decreases s1.len(),
{
    if s1.len() > 0 {
        let a = be_val(s1.drop_last());
        let b = be_val(s2.drop_last());
        assert(a * 256 + s1.last() == b * 256 + s2.last());
        assert(s1.last() == (a * 256 + s1.last()) % 256 && s2.last() == (b * 256 + s2.last())
            % 256) by {
            vstd::arithmetic::div_mod::lemma_mod_multiples_vanish(a as int, s1.last() as int,
                256);
            vstd::arithmetic::div_mod::lemma_mod_multiples_vanish(b as int, s2.last() as int,
                256);
            lemma_small_mod(s1.last() as nat, 256);
            lemma_small_mod(s2.last() as nat, 256);
        }
        assert(s1.last() == s2.last());
        assert(a == b);
        lemma_be_val_injective(s1.drop_last(), s2.drop_last());
        assert(s1 =~= s1.drop_last().push(s1.last()));
        assert(s2 =~= s2.drop_last().push(s2.last()));
    } else {
        assert(s1 =~= s2);
    }
}

/// Splitting a byte string: the value is the head's value shifted past the
/// tail, plus the tail's value.
pub proof fn lemma_be_val_split(s: Seq<u8>, n: int)
    requires
        0 <= n <= s.len(),
    ensures
        be_val(s) == be_val(s.take(n)) * pow2(8 * (s.len() - n) as nat) + be_val(s.skip(n)),
    decreases s.len() - n,
{
    if n == s.len() {
        assert(s.take(n) =~= s);
        assert(s.skip(n) =~= Seq::empty());
        vstd::arithmetic::power2::lemma2_to64();
        assert(be_val(s.skip(n)) == 0);
        assert(pow2(8 * (s.len() - n) as nat) == 1);
        assert(be_val(s.take(n)) * 1 == be_val(s.take(n)));
        assert(be_val(s) == be_val(s.take(n)) * pow2(8 * (s.len() - n) as nat) + be_val(
            s.skip(n)));
    } else {
        let dl = s.drop_last();
        lemma_be_val_split(dl, n);
        assert(dl.take(n) =~= s.take(n));
        let tail = s.skip(n);
        assert(tail.len() == s.len() - n >= 1);
        assert(tail.drop_last() =~= dl.skip(n));
        assert(tail.last() == s.last());
        assert(be_val(s) == be_val(dl) * 256 + s.last());
        assert(be_val(tail) == be_val(dl.skip(n)) * 256 + s.last());
        let shift = pow2(8 * (dl.len() - n) as nat);
        assert(pow2(8 * (s.len() - n) as nat) == shift * 256) by {
            vstd::arithmetic::power2::lemma_pow2_adds(8 * (dl.len() - n) as nat, 8);
            vstd::arithmetic::power2::lemma2_to64();
        }
        assert((be_val(s.take(n)) * shift + be_val(dl.skip(n))) * 256 == be_val(s.take(n)) * (
        shift * 256) + be_val(dl.skip(n)) * 256) by (nonlinear_arith);
        assert(be_val(dl) == be_val(s.take(n)) * shift + be_val(dl.skip(n)));
        assert(be_val(s) == (be_val(s.take(n)) * shift + be_val(dl.skip(n))) * 256 + s.last());
        assert(be_val(s) == be_val(s.take(n)) * (shift * 256) + (be_val(dl.skip(n)) * 256
            + s.last()));
        assert(be_val(s) == be_val(s.take(n)) * pow2(8 * (s.len() - n) as nat) + be_val(tail));
    }
}

/// A value below the capacity of the tail has a zero head: reading back
/// only the tail loses nothing.
pub proof fn lemma_be_val_take_tail(s: Seq<u8>, n: int)
    requires
        0 <= n <= s.len(),
        be_val(s) < pow2(8 * (s.len() - n) as nat),
    ensures
        be_val(s.skip(n)) == be_val(s),
    decreases s.len(),
{
    lemma_be_val_split(s, n);
    if be_val(s.take(n)) > 0 {
        assert(be_val(s.take(n)) * pow2(8 * (s.len() - n) as nat) >= pow2(8 * (s.len()
            - n) as nat)) by (nonlinear_arith)
            requires
                be_val(s.take(n)) >= 1,
                pow2(8 * (s.len() - n) as nat) > 0,
        ;
    }
    vstd::arithmetic::power2::lemma_pow2_pos(8 * (s.len() - n) as nat);
}

/// The number of bytes a value occupies in big-endian form without
/// leading zeros.
pub open spec fn byte_len_spec(p: nat) -> nat
    decreases p,
{
    if p == 0 {
        0
    } else {
        1 + byte_len_spec(p / 256)
    }
}

/// A value below `2^(8k)` occupies at most `k` bytes.
pub proof fn lemma_byte_len_spec_bound(p: nat, k: nat)
    requires
        p < pow2(8 * k),
    ensures
        byte_len_spec(p) <= k,
    decreases k,
{
    if p == 0 {
    } else if k == 0 {
        vstd::arithmetic::power2::lemma2_to64();
    } else {
        assert(p / 256 < pow2(8 * (k - 1) as nat)) by {
            vstd::arithmetic::power2::lemma_pow2_adds(8 * (k - 1) as nat, 8);
            vstd::arithmetic::power2::lemma2_to64();
            vstd::arithmetic::power2::lemma_pow2_pos(8 * (k - 1) as nat);
            vstd::arithmetic::div_mod::lemma_multiply_divide_lt(p as int, 256,
                pow2(8 * (k - 1) as nat) as int);
        }
        lemma_byte_len_spec_bound(p / 256, (k - 1) as nat);
    }
}

/// A value fits in the bytes its length names.
pub proof fn lemma_byte_len_spec_val(p: nat)
    ensures
        p < pow2(8 * byte_len_spec(p)),
    decreases p,
{
    if p == 0 {
        vstd::arithmetic::power2::lemma2_to64();
    } else {
        lemma_byte_len_spec_val(p / 256);
        let b = byte_len_spec(p / 256);
        assert(pow2(8 * (b + 1)) == pow2(8 * b) * 256) by {
            vstd::arithmetic::power2::lemma_pow2_adds(8 * b, 8);
            vstd::arithmetic::power2::lemma2_to64();
        }
        vstd::arithmetic::div_mod::lemma_fundamental_div_mod(p as int, 256);
        vstd::arithmetic::div_mod::lemma_mod_bound(p as int, 256);
        assert(p == 256 * (p / 256) + p % 256);
        assert(256 * (p / 256) + 256 <= 256 * pow2(8 * b)) by (nonlinear_arith)
            requires
                p / 256 < pow2(8 * b),
        ;
    }
}

/// Negation squares to the same value: `(p − y)² ≡ y² (mod p)`.
pub proof fn lemma_neg_square(p: nat, y: nat)
    requires
        p > 1,
        y < p,
    ensures
        ((((p + 0 - y) % (p as int)) as nat) * (((p + 0 - y) % (p as int)) as nat)) % p == (y
            * y) % p,
{
    let pi = p as int;
    let z = (pi - y) % pi;
    lemma_mod_bound(pi - y, pi);
    assert((z * z) % pi == ((pi - y) * (pi - y)) % pi) by {
        lemma_mul_mod_noop_general(pi - y, pi - y, pi);
    }
    assert((pi - y) * (pi - y) == pi * (pi - 2 * y) + (y as int) * (y as int))
        by (nonlinear_arith);
    assert((pi * (pi - 2 * y) + (y as int) * (y as int)) % pi == ((y as int) * (y as int))
        % pi) by {
        vstd::arithmetic::div_mod::lemma_mod_multiples_vanish(pi - 2 * y,
            (y as int) * (y as int), pi);
        vstd::arithmetic::mul::lemma_mul_is_commutative(pi, pi - 2 * y);
    }
}

/// The bit length of a value: zero for zero, else one more than its
/// half's.
pub open spec fn bit_len_spec(v: nat) -> nat
    decreases v,
{
    if v == 0 {
        0
    } else {
        1 + bit_len_spec(v / 2)
    }
}

/// A positive value lies between the powers of two its bit length names.
pub proof fn lemma_bit_len_spec_bounds(v: nat)
    requires
        v > 0,
    ensures
        pow2((bit_len_spec(v) - 1) as nat) <= v < pow2(bit_len_spec(v)),
    decreases v,
{
    vstd::arithmetic::power2::lemma2_to64();
    if v == 1 {
        assert(bit_len_spec(0) == 0);
        assert(bit_len_spec(1) == 1);
    } else {
        lemma_bit_len_spec_bounds(v / 2);
        let b = bit_len_spec(v / 2);
        assert(b > 0);
        assert(bit_len_spec(v) == b + 1);
        lemma_pow2_unfold(b + 1);
        lemma_pow2_unfold(b);
        vstd::arithmetic::div_mod::lemma_fundamental_div_mod(v as int, 2);
        vstd::arithmetic::div_mod::lemma_mod_bound(v as int, 2);
        assert(v == 2 * (v / 2) + v % 2);
        assert(pow2(b) == 2 * pow2((b - 1) as nat));
        assert(pow2(b) <= 2 * (v / 2));
        assert(v / 2 <= pow2(b) - 1);
        assert(v <= 2 * pow2(b) - 1);
        assert(pow2(b + 1) == 2 * pow2(b));
    }
}

/// The power-of-two bracket determines the bit length.
pub proof fn lemma_bit_len_spec_unique(v: nat, r: nat)
    requires
        v > 0,
        r > 0,
        pow2((r - 1) as nat) <= v < pow2(r),
    ensures
        bit_len_spec(v) == r,
{
    lemma_bit_len_spec_bounds(v);
    let b = bit_len_spec(v);
    assert(b > 0);
    if b < r {
        if b < r - 1 {
            vstd::arithmetic::power2::lemma_pow2_strictly_increases(b, (r - 1) as nat);
        }
        assert(pow2(b) <= pow2((r - 1) as nat));
        assert(false);
    }
    if r < b {
        if r < b - 1 {
            vstd::arithmetic::power2::lemma_pow2_strictly_increases(r, (b - 1) as nat);
        }
        assert(pow2(r) <= pow2((b - 1) as nat));
        assert(false);
    }
}

/// A string of zero bytes has value zero.
pub proof fn lemma_be_val_all_zero(s: Seq<u8>)
    requires
        forall|j: int| 0 <= j < s.len() ==> s[j] == 0,
    ensures
        be_val(s) == 0,
    decreases s.len(),
{
    if s.len() > 0 {
        lemma_be_val_all_zero(s.drop_last());
    }
}

/// Leading zero bytes do not change the value.
pub proof fn lemma_be_val_zeros(s: Seq<u8>, t: int)
    requires
        0 <= t <= s.len(),
        forall|j: int| 0 <= j < t ==> s[j] == 0,
    ensures
        be_val(s.skip(t)) == be_val(s),
{
    lemma_be_val_split(s, t);
    lemma_be_val_all_zero(s.take(t));
    assert(be_val(s.take(t)) * pow2(8 * (s.len() - t) as nat) == 0);
}

/// The leading byte of a fixed-length encoding is the value's top chunk.
pub proof fn lemma_spec_encode_first_byte(v: nat, b: nat)
    requires
        b >= 1,
        v < pow2(8 * b),
    ensures
        spec_encode_uint(v, b)[0] == (v / pow2(8 * (b - 1) as nat)) as u8,
        v / pow2(8 * (b - 1) as nat) < 256,
    decreases b,
{
    lemma_spec_encode_uint_len(v, b);
    vstd::arithmetic::power2::lemma2_to64();
    assert(v / pow2(8 * (b - 1) as nat) < 256) by {
        vstd::arithmetic::power2::lemma_pow2_adds(8 * (b - 1) as nat, 8);
        vstd::arithmetic::power2::lemma_pow2_pos(8 * (b - 1) as nat);
        vstd::arithmetic::div_mod::lemma_multiply_divide_lt(v as int,
            pow2(8 * (b - 1) as nat) as int, 256);
    }
    if b == 1 {
        assert(spec_encode_uint(v, 1) == spec_encode_uint(v / 256, 0).push((v % 256) as u8));
        assert(spec_encode_uint(v / 256, 0) == Seq::<u8>::empty());
        assert(spec_encode_uint(v, 1)[0] == (v % 256) as u8);
        vstd::arithmetic::div_mod::lemma_small_mod(v, 256);
        vstd::arithmetic::div_mod::lemma_div_basics(v as int);
        assert(pow2(8 * (b - 1) as nat) == 1);
        assert(v / pow2(8 * (b - 1) as nat) == v);
        assert(spec_encode_uint(v, b)[0] == (v / pow2(8 * (b - 1) as nat)) as u8);
    } else {
        assert(v / 256 < pow2(8 * (b - 1) as nat)) by {
            vstd::arithmetic::power2::lemma_pow2_adds(8 * (b - 1) as nat, 8);
            vstd::arithmetic::power2::lemma_pow2_pos(8 * (b - 1) as nat);
            vstd::arithmetic::div_mod::lemma_multiply_divide_lt(v as int, 256,
                pow2(8 * (b - 1) as nat) as int);
        }
        lemma_spec_encode_first_byte(v / 256, (b - 1) as nat);
        assert(spec_encode_uint(v, b)[0] == spec_encode_uint(v / 256, (b - 1) as nat)[0]) by {
            lemma_spec_encode_uint_len(v / 256, (b - 1) as nat);
        }
        assert((v / 256) / pow2(8 * (b - 2) as nat) == v / pow2(8 * (b - 1) as nat)) by {
            vstd::arithmetic::power2::lemma_pow2_pos(8 * (b - 2) as nat);
            vstd::arithmetic::div_mod::lemma_div_denominator(v as int, 256,
                pow2(8 * (b - 2) as nat) as int);
            vstd::arithmetic::power2::lemma_pow2_adds(8, 8 * (b - 2) as nat);
        }
        assert(spec_encode_uint(v, b)[0] == (v / pow2(8 * (b - 1) as nat)) as u8);
    }
}

/// A value reaches the lower bound its byte length names.
pub proof fn lemma_byte_len_spec_lower(v: nat)
    requires
        v > 0,
    ensures
        v >= pow2(8 * (byte_len_spec(v) - 1) as nat),
    decreases v,
{
    vstd::arithmetic::power2::lemma2_to64();
    let b = byte_len_spec(v);
    if v < 256 {
        assert(byte_len_spec(v / 256) == 0);
        assert(b == 1);
    } else {
        assert(v / 256 > 0);
        lemma_byte_len_spec_lower(v / 256);
        let b1 = byte_len_spec(v / 256);
        assert(b == b1 + 1);
        assert(v / 256 >= pow2(8 * (b1 - 1) as nat));
        vstd::arithmetic::div_mod::lemma_fundamental_div_mod(v as int, 256);
        assert(v >= 256 * (v / 256));
        assert(256 * pow2(8 * (b1 - 1) as nat) == pow2(8 * (b - 1) as nat)) by {
            vstd::arithmetic::power2::lemma_pow2_adds(8, 8 * (b1 - 1) as nat);
        }
        assert(256 * (v / 256) >= 256 * pow2(8 * (b1 - 1) as nat)) by (nonlinear_arith)
            requires
                v / 256 >= pow2(8 * (b1 - 1) as nat),
        ;
    }
}

/// Stacked exponentiation commutes: `(g^a)^b ≡ (g^b)^a (mod p)`. This is
/// what makes Diffie-Hellman key agreement meet in the middle.
pub proof fn lemma_pow_mod_commutes(g: nat, a: nat, b: nat, p: nat)
    requires
        p > 1,
    ensures
        pow_mod(pow_mod(g, a, p), b, p) == pow_mod(pow_mod(g, b, p), a, p),
{
    lemma_pow_nonneg(g, a);
    lemma_pow_nonneg(g, b);
    vstd::arithmetic::power::lemma_pow_mod_noop(pow(g as int, a), b, p as int);
    vstd::arithmetic::power::lemma_pow_mod_noop(pow(g as int, b), a, p as int);
    vstd::arithmetic::power::lemma_pow_multiplies(g as int, a, b);
    vstd::arithmetic::power::lemma_pow_multiplies(g as int, b, a);
    assert(a * b == b * a);
    assert(pow_mod(pow_mod(g, a, p), b, p) == pow(pow(g as int, a), b) % (p as int)) by {
        vstd::arithmetic::div_mod::lemma_mod_bound(pow(g as int, a), p as int);
    }
    assert(pow_mod(pow_mod(g, b, p), a, p) == pow(pow(g as int, b), a) % (p as int)) by {
        vstd::arithmetic::div_mod::lemma_mod_bound(pow(g as int, b), p as int);
    }
}

/// Negating a nonzero value modulo an odd number flips its parity.
pub proof fn lemma_neg_parity(p: nat, y: nat)
    requires
        p > 1,
        p % 2 == 1,
        0 < y < p,
    ensures
        ((((p + 0 - y) as int) % (p as int)) as nat) % 2 != y % 2,
{
    assert((p + 0 - y) % (p as int) == p - y) by {
        lemma_small_mod((p - y) as nat, p);
    }
    vstd::arithmetic::div_mod::lemma_fundamental_div_mod(p as int, 2);
    vstd::arithmetic::div_mod::lemma_fundamental_div_mod(y as int, 2);
    vstd::arithmetic::div_mod::lemma_mod_bound(y as int, 2);
    vstd::arithmetic::div_mod::lemma_fundamental_div_mod((p - y) as int, 2);
    vstd::arithmetic::div_mod::lemma_mod_bound((p - y) as int, 2);
}

} // verus!
