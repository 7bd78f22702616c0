//! Elements of a [`ModRing`], held in Montgomery form.
//!
//! An element couples its Montgomery representation with the ring it lives
//! in and a ghost record of the value it stands for; well-formedness ties
//! the representation to that value, so every operation's contract speaks
//! directly about reduced mathematical values.

use vstd::prelude::*;
use vstd::arithmetic::power2::{pow2, lemma_pow2_adds};
use vstd::arithmetic::div_mod::{
    lemma_mod_bound, lemma_mul_mod_noop_left, lemma_mul_mod_noop_right, lemma_mul_mod_noop_general,
    lemma_small_mod, lemma_mod_self_0,
};
use vstd::arithmetic::mul::lemma_mul_is_associative;
use crate::uint::{Wide, uval, u_from_u64, u_add_mod, u_sub_mod, u_inv_mod, u_eq, u_cond_select,
    u_dup, u_bit, u_bit_len, u_shr, u_wrapping_add};
use crate::error::Error;
use crate::ring::{ModRing, radix};
use crate::modmath::{
    mod_inv_exists, lemma_pow2_invertible, lemma_mont_unique, lemma_mont_mul, lemma_mont_from,
    lemma_mont_add, lemma_mont_sub, pow_mod, lemma_pow_mod_mul, lemma_pow_mod_zero,
    lemma_pow_mod_one,
};

verus! {

/// An element of a modular ring, stored as `value = v·R mod p`.
#[derive(Clone, Copy)]
pub struct ModRingElement {
    pub ring: ModRing,
    pub value: Wide,
    pub abs: Ghost<nat>,
}

impl ModRingElement {
    /// The reduced value this element stands for.
    pub open spec fn v(self) -> nat {
        self.abs@
    }

    /// The ring's modulus.
    pub open spec fn p(self) -> nat {
        self.ring.p()
    }

    /// The representation is the Montgomery form of a reduced value in a
    /// well-formed ring.
    pub open spec fn wf(self) -> bool {
        &&& self.ring.wf()
        &&& self.abs@ < self.ring.p()
        &&& uval(self.value) == (self.abs@ * radix()) % self.ring.p()
    }

    /// Both elements live in the same ring.
    pub open spec fn same_ring(self, other: ModRingElement) -> bool {
        self.ring.p() == other.ring.p()
    }

    /// The ring this element belongs to.
    pub fn ring(&self) -> (r: &ModRing)
        ensures
            r.p() == self.p(),
            *r == self.ring,
    {
        &self.ring
    }

    /// The raw Montgomery representation.
    pub fn as_montgomery(&self) -> (r: Wide)
        ensures
            uval(r) == uval(self.value),
    {
        u_dup(&self.value)
    }

    /// Converts back to the plain value by reducing `value·1`.
    pub fn to_uint(&self) -> (r: Wide)
        requires
            self.wf(),
        ensures
            uval(r) == self.v(),
    {
        let ghost p = self.p();
        let one = u_from_u64(1);
        let r = self.ring.mont_mul(&self.value, &one);
        proof {
            lemma_small_mod(uval(self.value), p);
            lemma_mont_unique(p, uval(r), self.v());
        }
        r
    }

    /// Addition.
    pub fn add(&self, other: &ModRingElement) -> (r: ModRingElement)
        requires
            self.wf(),
            other.wf(),
            self.same_ring(*other),
        ensures
            r.wf(),
            r.p() == self.p(),
            r.v() == (self.v() + other.v()) % self.p(),
    {
        let ghost p = self.p();
        let value = u_add_mod(&self.value, &other.value, self.ring.modulus_ref());
        proof {
            lemma_mod_bound(((self.v() + other.v()) % p) as int, p as int);
            lemma_mont_add(p, self.v(), other.v(), uval(value));
        }
        ModRingElement { ring: self.ring, value, abs: Ghost((self.v() + other.v()) % p) }
    }

    /// Subtraction.
    pub fn sub(&self, other: &ModRingElement) -> (r: ModRingElement)
        requires
            self.wf(),
            other.wf(),
            self.same_ring(*other),
        ensures
            r.wf(),
            r.p() == self.p(),
            r.v() == (self.p() + self.v() - other.v()) % (self.p() as int),
    {
        let ghost p = self.p();
        let value = u_sub_mod(&self.value, &other.value, self.ring.modulus_ref());
        proof {
            lemma_mod_bound((p + self.v() - other.v()) as int, p as int);
            lemma_mont_sub(p, self.v(), other.v(), uval(value));
        }
        ModRingElement {
            ring: self.ring,
            value,
            abs: Ghost((((p + self.v() - other.v()) as int) % (p as int)) as nat),
        }
    }

    /// Negation: zero minus this element.
    pub fn neg(&self) -> (r: ModRingElement)
        requires
            self.wf(),
        ensures
            r.wf(),
            r.p() == self.p(),
            r.v() == (self.p() - self.v()) % (self.p() as int),
    {
        let zero = self.ring.zero();
        let r = zero.sub(self);
        proof {
            assert(self.p() + 0 - self.v() == self.p() - self.v());
        }
        r
    }

    /// Multiplication.
    pub fn mul(&self, other: &ModRingElement) -> (r: ModRingElement)
        requires
            self.wf(),
            other.wf(),
            self.same_ring(*other),
        ensures
            r.wf(),
            r.p() == self.p(),
            r.v() == (self.v() * other.v()) % self.p(),
    {
        let ghost p = self.p();
        let value = self.ring.mont_mul(&self.value, &other.value);
        proof {
            lemma_mod_bound((self.v() * other.v()) as int, p as int);
            lemma_mont_mul(p, self.v(), other.v(), uval(self.value), uval(other.value),
                uval(value));
        }
        ModRingElement { ring: self.ring, value, abs: Ghost((self.v() * other.v()) % p) }
    }

    /// Squaring.
    pub fn square(&self) -> (r: ModRingElement)
        requires
            self.wf(),
        ensures
            r.wf(),
            r.p() == self.p(),
            r.v() == (self.v() * self.v()) % self.p(),
    {
        let ghost p = self.p();
        let value = self.ring.mont_square(&self.value);
        proof {
            lemma_mod_bound((self.v() * self.v()) as int, p as int);
            lemma_mont_mul(p, self.v(), self.v(), uval(self.value), uval(self.value), uval(value));
        }
        ModRingElement { ring: self.ring, value, abs: Ghost((self.v() * self.v()) % p) }
    }

    /// Inversion: `Some` exactly when the value has an inverse modulo `p`.
    pub fn inv(&self) -> (r: Option<ModRingElement>)
        requires
            self.wf(),
        ensures
            match r {
                Some(e) => {
                    &&& e.wf()
                    &&& e.p() == self.p()
                    &&& (e.v() * self.v()) % self.p() == 1
                },
                None => !mod_inv_exists(self.v(), self.p()),
            },
    {
        let ghost p = self.p();
        let ghost rr = radix();
        let ghost v = self.v();
        let ghost m = uval(self.value);
        match u_inv_mod(&self.value, self.ring.modulus_ref()) {
            None => {
                proof {
                    // An inverse of the value would give one of its Montgomery
                    // form, which the call ruled out.
                    lemma_pow2_invertible(p, 2048);
                    assert(mod_inv_exists(rr, p));
                    let i = choose|i: nat| i < p && #[trigger] ((i * rr) % p) == 1;
                    assert forall|j: nat| !(j < p && #[trigger] ((j * v) % p) == 1) by {
                        if j < p && (j * v) % p == 1 {
                            let k = (j * i) % p;
                            assert((k * m) % p == ((j * i) * m) % p) by {
                                lemma_mul_mod_noop_left((j * i) as int, m as int, p as int);
                            }
                            assert(((j * i) * m) % p == ((j * i) * (v * rr)) % p) by {
                                lemma_mul_mod_noop_right((j * i) as int, (v * rr) as int, p as int);
                            }
                            assert((j * i) * (v * rr) == (j * v) * (i * rr)) by (nonlinear_arith);
                            assert(((j * v) * (i * rr)) % p == (((j * v) % p) * ((i * rr) % p)) % p)
                                by {
                                lemma_mul_mod_noop_general((j * v) as int, (i * rr) as int,
                                    p as int);
                            }
                            lemma_small_mod(1, p);
                            assert((k * m) % p == 1);
                        }
                    }
                }
                None
            },
            Some(c) => {
                let value = self.ring.mont_mul(&c, &self.ring.montgomery_r3());
                proof {
                    let cc = uval(c);
                    let mv = uval(value);
                    // (mv·R) % p == (c·R³) % p, so mv carries (c·R²) % p
                    assert((mv * rr) % p == (cc * ((rr * rr) * rr)) % p) by {
                        lemma_mul_mod_noop_right(cc as int, ((rr * rr) * rr) as int, p as int);
                    }
                    let t2 = (cc * (rr * rr)) % p;
                    lemma_mod_bound((cc * (rr * rr)) as int, p as int);
                    assert((t2 * rr) % p == ((cc * (rr * rr)) * rr) % p) by {
                        lemma_mul_mod_noop_left((cc * (rr * rr)) as int, rr as int, p as int);
                    }
                    assert((cc * (rr * rr)) * rr == cc * ((rr * rr) * rr)) by {
                        lemma_mul_is_associative(cc as int, (rr * rr) as int, rr as int);
                    }
                    lemma_mont_unique(p, mv, t2);
                    // the element's value is t = (c·R) % p, whose form is mv
                    let t = (cc * rr) % p;
                    lemma_mod_bound((cc * rr) as int, p as int);
                    assert((t * rr) % p == ((cc * rr) * rr) % p) by {
                        lemma_mul_mod_noop_left((cc * rr) as int, rr as int, p as int);
                    }
                    assert((cc * rr) * rr == cc * (rr * rr)) by {
                        lemma_mul_is_associative(cc as int, rr as int, rr as int);
                    }
                    // t inverts v: t·v ≡ c·(v·R) ≡ c·m ≡ 1
                    assert((t * v) % p == ((cc * rr) * v) % p) by {
                        lemma_mul_mod_noop_left((cc * rr) as int, v as int, p as int);
                    }
                    assert((cc * rr) * v == cc * (v * rr)) by (nonlinear_arith);
                    assert((cc * (v * rr)) % p == (cc * ((v * rr) % p)) % p) by {
                        lemma_mul_mod_noop_right(cc as int, (v * rr) as int, p as int);
                    }
                    assert((cc * m) % p == 1);
                    assert((t * v) % p == 1);
                }
                let ghost t = (uval(c) * rr) % p;
                Some(ModRingElement { ring: self.ring, value, abs: Ghost(t) })
            },
        }
    }

    /// Division: `self · other⁻¹`, `Some` exactly when `other` is invertible.
    #[verifier::spinoff_prover]
    pub fn div(&self, other: &ModRingElement) -> (r: Option<ModRingElement>)
        requires
            self.wf(),
            other.wf(),
            self.same_ring(*other),
        ensures
            match r {
                Some(e) => {
                    &&& e.wf()
                    &&& e.p() == self.p()
                    &&& mod_inv_exists(other.v(), self.p())
                    &&& (e.v() * other.v()) % self.p() == self.v()
                },
                None => !mod_inv_exists(other.v(), self.p()),
            },
    {
        let ghost p = self.p();
        match other.inv() {
            None => {
                proof {
                    assert(!mod_inv_exists(other.v(), self.p())) by {
                        if mod_inv_exists(other.v(), self.p()) {
                            let i = choose|i: nat| i < self.p()
                                && #[trigger] ((i * other.v()) % self.p()) == 1;
                            assert((i * other.v()) % other.p() == 1);
                            assert(mod_inv_exists(other.v(), other.p()));
                            assert(false);
                        }
                    }
                }
                None
            },
            Some(i) => {
                let e = self.mul(&i);
                proof {
                    // (self·i)·other ≡ self·(i·other) ≡ self
                    let a = self.v();
                    let b = other.v();
                    let iv = i.v();
                    assert((((a * iv) % p) * b) % p == ((a * iv) * b) % p) by {
                        lemma_mul_mod_noop_left((a * iv) as int, b as int, p as int);
                    }
                    assert((a * iv) * b == a * (iv * b)) by (nonlinear_arith);
                    assert((a * (iv * b)) % p == (a * ((iv * b) % p)) % p) by {
                        lemma_mul_mod_noop_right(a as int, (iv * b) as int, p as int);
                    }
                    assert((iv * b) % p == 1);
                    assert(a * 1 == a);
                    assert((a * ((iv * b) % p)) % p == (a * 1) % p);
                    lemma_small_mod(a, p);
                    assert((e.v() * other.v()) % self.p() == self.v());
                    assert((iv * other.v()) % self.p() == 1);
                    assert(mod_inv_exists(other.v(), self.p()));
                }
                Some(e)
            },
        }
    }

    /// Small exponentiation by squaring; run time may depend on the exponent.
    pub fn pow(&self, exponent: usize) -> (r: ModRingElement)
        requires
            self.wf(),
        ensures
            r.wf(),
            r.p() == self.p(),
            r.v() == pow_mod(self.v(), exponent as nat, self.p()),
        decreases exponent,
    {
        let ghost p = self.p();
        let ghost v = self.v();
        if exponent == 0 {
            let r = self.ring.one();
            proof {
                lemma_pow_mod_zero(v, p);
            }
            r
        } else if exponent == 1 {
            proof {
                lemma_pow_mod_one(v, p);
                lemma_small_mod(v, p);
            }
            *self
        } else if exponent % 2 == 0 {
            let half = self.pow(exponent / 2);
            let r = half.square();
            proof {
                lemma_pow_mod_mul(v, (exponent / 2) as nat, (exponent / 2) as nat, p);
            }
            r
        } else {
            let half = self.pow(exponent / 2);
            let sq = half.square();
            let r = self.mul(&sq);
            proof {
                lemma_pow_mod_mul(v, (exponent / 2) as nat, (exponent / 2) as nat, p);
                lemma_pow_mod_mul(v, 1, (exponent - 1) as nat, p);
                lemma_pow_mod_one(v, p);
                lemma_small_mod(v, p);
                lemma_mul_mod_noop_left(v as int, pow_mod(v, (exponent - 1) as nat, p) as int,
                    p as int);
            }
            r
        }
    }

    /// Constant-time exponentiation: a square-and-conditional-multiply pass
    /// over the exponent's bits, leaking only the exponent's bit length.
    pub fn pow_ct(&self, exponent: &Wide) -> (r: ModRingElement)
        requires
            self.wf(),
        ensures
            r.wf(),
            r.p() == self.p(),
            r.v() == pow_mod(self.v(), uval(*exponent), self.p()),
    {
        let ghost p = self.p();
        let ghost v = self.v();
        let ghost e = uval(*exponent);
        let bl = u_bit_len(exponent);
        let mut result = self.ring.one();
        let mut power = *self;
        let mut i: usize = 0;
        proof {
            vstd::arithmetic::power2::lemma2_to64();
            lemma_pow_mod_zero(v, p);
            lemma_pow_mod_one(v, p);
            lemma_small_mod(v, p);
            assert(e % pow2(0) == 0);
        }
        while i < bl
            invariant
                i <= bl,
                bl <= 2048,
                e == uval(*exponent),
                e < pow2(bl as nat),
                self.wf(),
                p == self.p(),
                v == self.v(),
                result.wf(),
                result.p() == p,
                result.v() == pow_mod(v, e % pow2(i as nat), p),
                power.wf(),
                power.p() == p,
                power.v() == pow_mod(v, pow2(i as nat), p),
            decreases bl - i,
        {
            let product = result.mul(&power);
            let bit = u_bit(exponent, i);
            let value = u_cond_select(&result.value, &product.value, bit);
            proof {
                lemma_pow_mod_mul(v, e % pow2(i as nat), pow2(i as nat), p);
                crate::modmath::lemma_exp_bit_split(e, i as nat);
                lemma_pow2_adds(i as nat, 1);
                vstd::arithmetic::power2::lemma2_to64();
                assert(pow2(i as nat + 1) == pow2(i as nat) * 2);
                if bit {
                    assert((e / pow2(i as nat)) % 2 == 1);
                    assert(e % pow2(i as nat + 1) == e % pow2(i as nat) + pow2(i as nat));
                } else {
                    assert((e / pow2(i as nat)) % 2 != 1);
                    assert(e % pow2(i as nat + 1) == e % pow2(i as nat));
                }
            }
            result = ModRingElement {
                ring: result.ring,
                value,
                abs: Ghost(if bit { product.v() } else { result.v() }),
            };
            let new_power = power.square();
            proof {
                lemma_pow_mod_mul(v, pow2(i as nat), pow2(i as nat), p);
            }
            power = new_power;
            i = i + 1;
        }
        proof {
            lemma_small_mod(e, pow2(bl as nat));
        }
        result
    }

    /// Equality of the values, for elements of the same ring.
    pub fn eq_elem(&self, other: &ModRingElement) -> (r: bool)
        requires
            self.wf(),
            other.wf(),
            self.same_ring(*other),
        ensures
            r == (self.v() == other.v()),
    {
        let ghost p = self.p();
        let r = u_eq(&self.value, &other.value);
        proof {
            if uval(self.value) == uval(other.value) {
                lemma_mont_unique(p, self.v(), other.v());
            }
        }
        r
    }

    /// Whether this element is zero.
    pub fn is_zero(&self) -> (r: bool)
        requires
            self.wf(),
        ensures
            r == (self.v() == 0),
    {
        let z = self.ring.zero();
        self.eq_elem(&z)
    }

    /// Whether this element is one.
    pub fn is_one(&self) -> (r: bool)
        requires
            self.wf(),
        ensures
            r == (self.v() == 1),
    {
        let o = self.ring.one();
        self.eq_elem(&o)
    }

    /// Selects the second element when the flag is set, comparing nothing.
    pub fn conditional_select(a: &ModRingElement, b: &ModRingElement, flag: bool) -> (r:
        ModRingElement)
        requires
            a.wf(),
            b.wf(),
            a.same_ring(*b),
        ensures
            r.wf(),
            r.p() == a.p(),
            r.v() == if flag {
                b.v()
            } else {
                a.v()
            },
    {
        let value = u_cond_select(&a.value, &b.value, flag);
        ModRingElement {
            ring: a.ring,
            value,
            abs: Ghost(if flag { b.v() } else { a.v() }),
        }
    }
}

impl ModRing {
    /// Interprets a raw Montgomery representation as an element of this ring.
    pub fn from_montgomery(&self, raw: Wide) -> (r: ModRingElement)
        requires
            self.wf(),
            uval(raw) < self.p(),
        ensures
            r.wf(),
            r.p() == self.p(),
            uval(r.value) == uval(raw),
            (r.v() * radix()) % self.p() == uval(raw),
    {
        let ghost p = self.p();
        proof {
            crate::modmath::lemma_mont_value_exists(p, uval(raw));
        }
        let ghost vv = choose|v: nat| v < p && #[trigger] ((v * pow2(2048)) % p) == uval(raw);
        proof {
            assert(radix() == pow2(2048));
        }
        ModRingElement { ring: *self, value: raw, abs: Ghost(vv) }
    }

    /// Converts a reduced plain value into the ring.
    pub fn from(&self, value: Wide) -> (r: ModRingElement)
        requires
            self.wf(),
            uval(value) < self.p(),
        ensures
            r.wf(),
            r.p() == self.p(),
            r.v() == uval(value),
    {
        let ghost p = self.p();
        let m = self.mont_mul(&value, &self.montgomery_r2());
        proof {
            lemma_mont_from(p, uval(value), uval(m));
        }
        ModRingElement { ring: *self, value: m, abs: Ghost(uval(value)) }
    }

    /// Converts a small constant into the ring.
    pub fn from_u64(&self, value: u64) -> (r: ModRingElement)
        requires
            self.wf(),
            value < self.p(),
        ensures
            r.wf(),
            r.p() == self.p(),
            r.v() == value,
    {
        self.from(u_from_u64(value))
    }

    /// The additive identity.
    pub fn zero(&self) -> (r: ModRingElement)
        requires
            self.wf(),
        ensures
            r.wf(),
            r.p() == self.p(),
            r.v() == 0,
    {
        let ghost p = self.p();
        let value = u_from_u64(0);
        proof {
            lemma_mod_self_0(p as int);
            assert((0nat * radix()) % p == 0) by {
                lemma_small_mod(0, p);
            }
        }
        ModRingElement { ring: *self, value, abs: Ghost(0) }
    }

    /// The multiplicative identity: its Montgomery form is `R mod p`.
    pub fn one(&self) -> (r: ModRingElement)
        requires
            self.wf(),
        ensures
            r.wf(),
            r.p() == self.p(),
            r.v() == 1,
    {
        let value = self.montgomery_r();
        proof {
            lemma_mul_mod_noop_left(1int, radix() as int, self.p() as int);
        }
        ModRingElement { ring: *self, value, abs: Ghost(1) }
    }
}

impl ModRingElement {
    /// Modular square root for moduli that are 3, 5 or 7 modulo 8, by the
    /// closed-form exponents; the result is accepted only after squaring
    /// it back, so `Ok` always carries a genuine root.
    pub fn sqrt(&self) -> (r: Result<ModRingElement, Error>)
        requires
            self.wf(),
        ensures
            match r {
                Ok(e) => {
                    &&& e.wf()
                    &&& e.p() == self.p()
                    &&& (e.v() * e.v()) % self.p() == self.v()
                },
                Err(e) => e == Error::ArithmeticFailure || e == Error::AlgorithmUnsupported,
            },
            r == Err::<ModRingElement, Error>(Error::AlgorithmUnsupported) <==> self.p() % 8 == 1,
    {
        let ghost p = self.p();
        let modulus = self.ring.modulus_ref();
        let bit1 = u_bit(modulus, 1);
        let bit2 = u_bit(modulus, 2);
        proof {
            vstd::arithmetic::power2::lemma2_to64();
            crate::modmath::lemma_mod8_bits(p);
            vstd::arithmetic::div_mod::lemma_div_basics_1(p as int);
        }
        if !bit1 && !bit2 {
            // p ≡ 1 (mod 8): not covered by the closed forms.
            Err(Error::AlgorithmUnsupported)
        } else if bit1 {
            // p ≡ 3 or 7 (mod 8): candidate = self^((p+1)/4)
            let exponent = self.sqrt_exponent(2);
            let candidate = self.pow_ct(&exponent);
            let sq = candidate.square();
            if sq.eq_elem(self) {
                Ok(candidate)
            } else {
                Err(Error::ArithmeticFailure)
            }
        } else {
            // p ≡ 5 (mod 8): candidate = self^((p+3)/8), with a correction
            // by 2^((p-1)/4) when the first candidate misses.
            let exponent = self.sqrt_exponent(3);
            let candidate = self.pow_ct(&exponent);
            let sq = candidate.square();
            if sq.eq_elem(self) {
                Ok(candidate)
            } else {
                let two = self.ring.from_u64(2);
                let e2 = u_shr(self.ring.modulus_ref(), 2);
                let factor = two.pow_ct(&e2);
                let candidate2 = candidate.mul(&factor);
                let sq2 = candidate2.square();
                if sq2.eq_elem(self) {
                    Ok(candidate2)
                } else {
                    Err(Error::ArithmeticFailure)
                }
            }
        }
    }

    /// `(p >> k) + 1`, the closed-form square-root exponent.
    fn sqrt_exponent(&self, k: usize) -> (r: Wide)
        requires
            self.wf(),
            1 <= k < 2048,
        ensures
            uval(r) == self.p() / pow2(k as nat) + 1,
    {
        let ghost p = self.p();
        let shifted = u_shr(self.ring.modulus_ref(), k);
        let one = u_from_u64(1);
        let r = u_wrapping_add(&shifted, &one);
        proof {
            vstd::arithmetic::power2::lemma_pow2_pos(k as nat);
            assert(pow2(k as nat) > 1) by {
                vstd::arithmetic::power2::lemma2_to64();
                if k > 1 {
                    vstd::arithmetic::power2::lemma_pow2_strictly_increases(1, k as nat);
                }
            }
            vstd::arithmetic::div_mod::lemma_div_is_strictly_smaller(p as int,
                pow2(k as nat) as int);
            lemma_small_mod((p / pow2(k as nat) + 1) as nat, pow2(2048));
        }
        r
    }
}

/// Subtracting an element from itself gives zero: the spec-level statement
/// behind `sub`'s contract when both arguments carry the same value.
pub proof fn lemma_sub_self_is_zero(p: nat, a: nat)
    requires
        p > 1,
        a < p,
    ensures
        (p + a - a) % (p as int) == 0,
{
    lemma_mod_self_0(p as int);
}

/// Adding zero changes nothing.
pub proof fn lemma_add_zero(p: nat, a: nat)
    requires
        p > 1,
        a < p,
    ensures
        (a + 0) % p == a,
{
    lemma_small_mod(a, p);
}

/// Multiplying by one changes nothing.
pub proof fn lemma_mul_one(p: nat, a: nat)
    requires
        p > 1,
        a < p,
    ensures
        (a * 1) % p == a,
{
    lemma_small_mod(a, p);
}

} // verus!
