//! The random-number interface the cryptographic operations consume, and
//! its system-backed implementation.

use rand::RngCore;
use vstd::prelude::*;
use crate::uint::{u_from_be_slice, u_lt, uval};
use crate::ring::ModRing;
use crate::element::ModRingElement;

verus! {

/// A cryptographically secure source of random bytes, supplied by the
/// caller of every randomized operation.
pub trait CryptoCoreRng {
    /// Draws exactly `n` fresh random bytes.
    fn random_bytes(&mut self, n: usize) -> (r: Vec<u8>)
        ensures
            r@.len() == n,
    ;
}

#[verifier::external_type_specification]
#[verifier::external_body]
pub struct ExThreadRng(rand::rngs::ThreadRng);

/// The operating system's RNG, through `rand`'s thread-local generator.
pub struct SystemRng {
    pub inner: rand::rngs::ThreadRng,
}

/// Relies on rand's `thread_rng`: a handle to the thread-local CSPRNG.
#[verifier::external_body]
fn thread_rng_handle() -> rand::rngs::ThreadRng {
    rand::thread_rng()
}

/// Relies on rand's `RngCore::fill_bytes`: fills the buffer completely.
#[verifier::external_body]
fn rng_fill(rng: &mut rand::rngs::ThreadRng, n: usize) -> (r: Vec<u8>)
    ensures
        r@.len() == n,
{
    let mut buf = vec![0u8; n];
    rng.fill_bytes(&mut buf);
    buf
}

impl SystemRng {
    /// A fresh handle to the system generator.
    pub fn new() -> SystemRng {
        SystemRng { inner: thread_rng_handle() }
    }
}

impl CryptoCoreRng for SystemRng {
    fn random_bytes(&mut self, n: usize) -> (r: Vec<u8>)
    {
        rng_fill(&mut self.inner, n)
    }
}

impl ModRing {
    /// A uniformly random element, by rejection sampling: draw as many
    /// bytes as the modulus occupies, mask the spare top bits, and retry
    /// until the value lies below the modulus.
    pub fn random<R: CryptoCoreRng>(&self, rng: &mut R) -> (r: ModRingElement)
        requires
            self.wf(),
        ensures
            r.wf(),
            r.p() == self.p(),
    {
        let modulus = self.modulus();
        let bits = crate::uint::u_bit_len(&modulus);
        let nbytes: usize = (bits + 7) / 8;
        let shift: usize = 8 * nbytes - bits;
        let mask: u8 = if shift >= 8 {
            0
        } else {
            0xffu8 >> shift
        };
        let mut tries: usize = 0;
        while tries < 65536
            invariant
                self.wf(),
                uval(modulus) == self.p(),
                nbytes <= 256,
                nbytes >= 1,
            decreases 65536 - tries,
        {
            tries = tries + 1;
            let raw = rng.random_bytes(nbytes);
            let mut masked: Vec<u8> = Vec::new();
            masked.push(raw[0] & mask);
            let mut i: usize = 1;
            while i < nbytes
                invariant
                    1 <= i <= nbytes,
                    nbytes == raw@.len(),
                    masked@.len() == i,
                decreases nbytes - i,
            {
                masked.push(raw[i]);
                i = i + 1;
            }
            let value = u_from_be_slice(masked.as_slice());
            if u_lt(&value, &modulus) {
                return self.from_montgomery(value);
            }
        }
        // An astronomically unlikely run of rejections: reduce a draw
        // instead, trading perfect uniformity for termination.
        let raw = rng.random_bytes(nbytes);
        let value = u_from_be_slice(raw.as_slice());
        let one = crate::uint::u_from_u64(1);
        let reduced = crate::uint::u_mul_mod(&value, &one, &modulus);
        proof {
            vstd::arithmetic::div_mod::lemma_mod_bound((crate::uint::uval(value) * 1) as int,
                self.p() as int);
        }
        self.from_montgomery(reduced)
    }
}

} // verus!
