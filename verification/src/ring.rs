//! Ring of integers modulo an odd number, with the constants that
//! Montgomery multiplication precomputes.

use vstd::prelude::*;
use vstd::arithmetic::power2::{pow2, lemma_pow2_adds};
use vstd::arithmetic::power2::lemma_pow2_strictly_increases;
use vstd::arithmetic::div_mod::{
    lemma_mod_bound, lemma_mul_mod_noop_left, lemma_mul_mod_noop_general, lemma_small_mod,
};
use vstd::arithmetic::mul::lemma_mul_is_associative;
use crate::uint::{Wide, uval, minv_ok, u_from_u64, u_mul_redc, u_square_redc, u_mul_mod, u_inv64,
    u_pow2, u_bit_len, u_dup};
use crate::modmath::lemma_mont_unique;

verus! {

/// The Montgomery radix: every ring in this crate reduces by 2^2048.
pub open spec fn radix() -> nat {
    pow2(2048)
}

/// Ring of integers modulo an odd number above one, together with the
/// precomputed Montgomery constants `R mod p`, `R² mod p`, `R³ mod p`
/// and `-p⁻¹ mod 2^64`.
#[derive(Clone, Copy)]
pub struct ModRing {
    pub modulus: Wide,
    pub montgomery_r: Wide,
    pub montgomery_r2: Wide,
    pub montgomery_r3: Wide,
    pub mod_inv: u64,
}

impl ModRing {
    /// The modulus as a mathematical value.
    pub open spec fn p(self) -> nat {
        uval(self.modulus)
    }

    /// The ring's constants are consistent: odd modulus above one, and each
    /// precomputed field holds the power of the radix it claims.
    pub open spec fn wf(self) -> bool {
        &&& self.p() > 1
        &&& self.p() % 2 == 1
        &&& self.p() < radix()
        &&& uval(self.montgomery_r) == radix() % self.p()
        &&& uval(self.montgomery_r2) == (radix() * radix()) % self.p()
        &&& uval(self.montgomery_r3) == ((radix() * radix()) * radix()) % self.p()
        &&& minv_ok(self.p(), self.mod_inv)
    }

    /// Assembles a ring from a modulus, `R² mod p` and `-p⁻¹ mod 2^64`,
    /// deriving `R mod p` and `R³ mod p` by Montgomery reduction.
    pub fn from_parameters(modulus: Wide, montgomery_r2: Wide, mod_inv: u64) -> (r: ModRing)
        requires
            uval(modulus) > 1,
            uval(modulus) % 2 == 1,
            uval(modulus) < radix(),
            uval(montgomery_r2) == (radix() * radix()) % uval(modulus),
            minv_ok(uval(modulus), mod_inv),
        ensures
            r.wf(),
            r.p() == uval(modulus),
    {
        let ghost p = uval(modulus);
        let ghost rr = radix();
        proof {
            lemma_mod_bound((rr * rr) as int, p as int);
        }
        let one = u_from_u64(1);
        let montgomery_r = u_mul_redc(&montgomery_r2, &one, &modulus, mod_inv);
        proof {
            // (r1·R) % p == R² % p, and R % p is the unique reduced solution.
            let r1 = uval(montgomery_r);
            let r2v = (rr * rr) % p;
            lemma_small_mod(r2v, p);
            assert((r1 * rr) % p == r2v % p);
            lemma_mod_bound(rr as int, p as int);
            assert(((rr % p) * rr) % p == (rr * rr) % p) by {
                lemma_mul_mod_noop_left(rr as int, rr as int, p as int);
            }
            lemma_mont_unique(p, r1, rr % p);
        }
        let montgomery_r3 = u_square_redc(&montgomery_r2, &modulus, mod_inv);
        proof {
            // (r3·R) % p == (R² % p)² % p == R⁴ % p, carried by R³ % p.
            let r3 = uval(montgomery_r3);
            let r2v = (rr * rr) % p;
            let t = ((rr * rr) * rr) % p;
            lemma_mod_bound(((rr * rr) * rr) as int, p as int);
            assert((r2v * r2v) % p == ((rr * rr) * (rr * rr)) % p) by {
                lemma_mul_mod_noop_general((rr * rr) as int, (rr * rr) as int, p as int);
            }
            assert((t * rr) % p == (((rr * rr) * rr) * rr) % p) by {
                lemma_mul_mod_noop_left(((rr * rr) * rr) as int, rr as int, p as int);
            }
            assert(((rr * rr) * rr) * rr == (rr * rr) * (rr * rr)) by {
                lemma_mul_is_associative((rr * rr) as int, rr as int, rr as int);
            }
            lemma_mont_unique(p, r3, t);
        }
        ModRing { modulus, montgomery_r, montgomery_r2, montgomery_r3, mod_inv }
    }

    /// Derives every Montgomery constant from the modulus alone: `R² mod p`
    /// comes from squaring `2^1024` twice under `mul_mod`.
    pub fn from_modulus(modulus: Wide) -> (r: ModRing)
        requires
            uval(modulus) > 1,
            uval(modulus) % 2 == 1,
        ensures
            r.wf(),
            r.p() == uval(modulus),
    {
        let ghost p = uval(modulus);
        let bl = u_bit_len(&modulus);
        proof {
            if bl < 2048 {
                lemma_pow2_strictly_increases(bl as nat, 2048);
            }
            assert(p < radix());
        }
        let mod_inv = u_inv64(&modulus);
        let seed = u_pow2(1024);
        let t = u_mul_mod(&seed, &seed, &modulus);
        proof {
            lemma_pow2_adds(1024, 1024);
            assert(uval(t) == radix() % p);
        }
        let r2 = u_mul_mod(&t, &t, &modulus);
        proof {
            assert(((radix() % p) * (radix() % p)) % p == (radix() * radix()) % p) by {
                lemma_mul_mod_noop_general(radix() as int, radix() as int, p as int);
            }
        }
        ModRing::from_parameters(modulus, r2, mod_inv)
    }

    /// The modulus.
    pub fn modulus(&self) -> (r: Wide)
        ensures
            uval(r) == self.p(),
    {
        u_dup(&self.modulus)
    }

    /// `R mod p`, the Montgomery form of one.
    pub fn montgomery_r(&self) -> (r: Wide)
        ensures
            uval(r) == uval(self.montgomery_r),
    {
        u_dup(&self.montgomery_r)
    }

    /// `R² mod p`, the Montgomery form of `R`.
    pub fn montgomery_r2(&self) -> (r: Wide)
        ensures
            uval(r) == uval(self.montgomery_r2),
    {
        u_dup(&self.montgomery_r2)
    }

    /// `R³ mod p`, the Montgomery form of `R²`.
    pub fn montgomery_r3(&self) -> (r: Wide)
        ensures
            uval(r) == uval(self.montgomery_r3),
    {
        u_dup(&self.montgomery_r3)
    }

    /// `-p⁻¹ mod 2^64`.
    pub fn mod_inv(&self) -> (r: u64)
        ensures
            r == self.mod_inv,
    {
        self.mod_inv
    }

    /// Montgomery multiplication in this ring.
    pub(crate) fn mont_mul(&self, a: &Wide, b: &Wide) -> (r: Wide)
        requires
            self.wf(),
            uval(*a) < self.p(),
            uval(*b) < self.p(),
        ensures
            uval(r) < self.p(),
            (uval(r) * radix()) % self.p() == (uval(*a) * uval(*b)) % self.p(),
    {
        u_mul_redc(a, b, &self.modulus, self.mod_inv)
    }

    /// Montgomery squaring in this ring.
    pub(crate) fn mont_square(&self, a: &Wide) -> (r: Wide)
        requires
            self.wf(),
            uval(*a) < self.p(),
        ensures
            uval(r) < self.p(),
            (uval(r) * radix()) % self.p() == (uval(*a) * uval(*a)) % self.p(),
    {
        u_square_redc(a, &self.modulus, self.mod_inv)
    }

    /// The modulus, borrowed for the arithmetic wrappers.
    pub(crate) fn modulus_ref(&self) -> (r: &Wide)
        ensures
            uval(*r) == self.p(),
    {
        &self.modulus
    }
}

} // verus!
