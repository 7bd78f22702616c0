//! An adapter that presents a multiplicative group through additive
//! notation: addition becomes multiplication, negation inversion, and
//! scalar multiplication exponentiation.

use vstd::prelude::*;
use crate::element::ModRingElement;
use crate::modmath::{mod_inv_exists, pow_mod};
use vstd::arithmetic::power::pow;

verus! {

/// A multiplicative group element written additively.
#[derive(Clone, Copy, Debug, PartialEq, Eq, Structural)]
pub struct MulGroup<T>(pub T);

impl<T> MulGroup<T> {
    /// Wraps a multiplicative element; it should be invertible.
    pub fn new(value: T) -> (r: MulGroup<T>)
        ensures
            r.0 == value,
    {
        MulGroup(value)
    }

    /// Returns the inner value.
    pub fn into_inner(self) -> (r: T)
        ensures
            r == self.0,
    {
        self.0
    }
}

impl<T> From<T> for MulGroup<T> {
    fn from(value: T) -> (r: MulGroup<T>) {
        MulGroup(value)
    }
}

impl<T> vstd::std_specs::convert::FromSpecImpl<T> for MulGroup<T> {
    open spec fn obeys_from_spec() -> bool {
        true
    }

    open spec fn from_spec(value: T) -> MulGroup<T> {
        MulGroup(value)
    }
}

impl MulGroup<u64> {
    /// Additive notation for multiplication.
    pub fn add(self, other: MulGroup<u64>) -> (r: MulGroup<u64>)
        requires
            self.0 * other.0 <= u64::MAX,
        ensures
            r.0 == self.0 * other.0,
    {
        proof {
            vstd::arithmetic::mul::lemma_mul_nonnegative(self.0 as int, other.0 as int);
        }
        MulGroup(self.0 * other.0)
    }

    /// Additive-notation scalar multiplication: exponentiation.
    pub fn mul_scalar(self, exponent: u32) -> (r: MulGroup<u64>)
        requires
            pow(self.0 as int, exponent as nat) <= u64::MAX,
        ensures
            r.0 == pow(self.0 as int, exponent as nat),
        decreases exponent,
    {
        if exponent == 0 {
            proof {
                vstd::arithmetic::power::lemma_pow0(self.0 as int);
            }
            MulGroup(1)
        } else {
            proof {
                crate::modmath::lemma_pow_nonneg(self.0 as nat, (exponent - 1) as nat);
                vstd::arithmetic::power::lemma_pow_adds(self.0 as int, 1,
                    (exponent - 1) as nat);
                vstd::arithmetic::power::lemma_pow1(self.0 as int);
                vstd::arithmetic::power::lemma_pow0(self.0 as int);
                if self.0 > 0 {
                    vstd::arithmetic::power::lemma_pow_increases(self.0 as nat,
                        (exponent - 1) as nat, exponent as nat);
                } else {
                    if exponent > 1 {
                        vstd::arithmetic::power::lemma0_pow((exponent - 1) as nat);
                    }
                    vstd::arithmetic::power::lemma0_pow(exponent as nat);
                }
                assert(pow(self.0 as int, exponent as nat) == self.0 * pow(self.0 as int,
                    (exponent - 1) as nat));
            }
            let rest = self.mul_scalar(exponent - 1);
            proof {
                assert(self.0 * rest.0 == pow(self.0 as int, exponent as nat));
            }
            MulGroup(self.0 * rest.0)
        }
    }
}

impl MulGroup<ModRingElement> {
    /// The wrapped element is a well-formed ring element.
    pub open spec fn wf(self) -> bool {
        self.0.wf()
    }

    /// The additive identity: the multiplicative one.
    pub fn zero(ring: &crate::ring::ModRing) -> (r: MulGroup<ModRingElement>)
        requires
            ring.wf(),
        ensures
            r.wf(),
            r.0.p() == ring.p(),
            r.0.v() == 1,
    {
        MulGroup(ring.one())
    }

    /// Whether this is the additive identity.
    pub fn is_zero(&self) -> (r: bool)
        requires
            self.wf(),
        ensures
            r == (self.0.v() == 1),
    {
        self.0.is_one()
    }

    /// Additive notation for the field multiplication.
    pub fn add(&self, other: &MulGroup<ModRingElement>) -> (r: MulGroup<ModRingElement>)
        requires
            self.wf(),
            other.wf(),
            self.0.same_ring(other.0),
        ensures
            r.wf(),
            r.0.p() == self.0.p(),
            r.0.v() == (self.0.v() * other.0.v()) % self.0.p(),
    {
        MulGroup(self.0.mul(&other.0))
    }

    /// Additive negation: the multiplicative inverse.
    pub fn neg(&self) -> (r: Option<MulGroup<ModRingElement>>)
        requires
            self.wf(),
        ensures
            match r {
                Some(e) => {
                    &&& e.wf()
                    &&& e.0.p() == self.0.p()
                    &&& (e.0.v() * self.0.v()) % self.0.p() == 1
                },
                None => !mod_inv_exists(self.0.v(), self.0.p()),
            },
    {
        match self.0.inv() {
            None => None,
            Some(e) => Some(MulGroup(e)),
        }
    }

    /// Additive-notation scalar multiplication: constant-time
    /// exponentiation by the scalar's value.
    pub fn mul_scalar(&self, exponent: &ModRingElement) -> (r: MulGroup<ModRingElement>)
        requires
            self.wf(),
            exponent.wf(),
        ensures
            r.wf(),
            r.0.p() == self.0.p(),
            r.0.v() == pow_mod(self.0.v(), exponent.v(), self.0.p()),
    {
        let e = exponent.to_uint();
        MulGroup(self.0.pow_ct(&e))
    }
}

} // verus!
