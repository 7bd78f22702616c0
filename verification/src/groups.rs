//! The generic group interface: discrete-logarithm groups presented
//! additively, so that key agreement and signature code can run over a
//! mod-p group and an elliptic curve alike.

use vstd::prelude::*;
use crate::element::ModRingElement;
use crate::mulgroup::MulGroup;
use crate::curve::{EllipticCurve, EllipticCurvePoint};
use crate::modp::ModPGroup;
use crate::rng::CryptoCoreRng;

verus! {

/// An element of an algebraic group, written additively.
pub trait GroupElement: Sized {
    /// The element is well-formed.
    spec fn gwf(&self) -> bool;

    /// The elements belong to the same group.
    spec fn same_group(&self, other: &Self) -> bool;

    /// Group addition.
    fn add_elem(&self, other: &Self) -> (r: Self)
        requires
            self.gwf(),
            other.gwf(),
            self.same_group(other),
        ensures
            r.gwf(),
            self.same_group(&r),
    ;

    /// Group negation; groups whose negation needs an inverse may fail.
    fn neg_elem(&self) -> (r: Option<Self>)
        requires
            self.gwf(),
        ensures
            r is Some ==> r.unwrap().gwf() && self.same_group(&r.unwrap()),
    ;
}

/// An element of an algebraic ring: a group with multiplication and a
/// partial inverse.
pub trait RingElement: GroupElement {
    /// Ring multiplication.
    fn mul_elem(&self, other: &Self) -> (r: Self)
        requires
            self.gwf(),
            other.gwf(),
            self.same_group(other),
        ensures
            r.gwf(),
            self.same_group(&r),
    ;

    /// Multiplicative inverse, where one exists.
    fn inv_elem(&self) -> (r: Option<Self>)
        requires
            self.gwf(),
        ensures
            r is Some ==> r.unwrap().gwf() && self.same_group(&r.unwrap()),
    ;
}

impl GroupElement for ModRingElement {
    open spec fn gwf(&self) -> bool {
        self.wf()
    }

    open spec fn same_group(&self, other: &Self) -> bool {
        self.same_ring(*other)
    }

    fn add_elem(&self, other: &Self) -> (r: Self) {
        self.add(other)
    }

    fn neg_elem(&self) -> (r: Option<Self>) {
        Some(self.neg())
    }
}

impl RingElement for ModRingElement {
    fn mul_elem(&self, other: &Self) -> (r: Self) {
        self.mul(other)
    }

    fn inv_elem(&self) -> (r: Option<Self>) {
        self.inv()
    }
}

impl GroupElement for EllipticCurvePoint {
    open spec fn gwf(&self) -> bool {
        self.wf()
    }

    open spec fn same_group(&self, other: &Self) -> bool {
        self.curve.same_curve(other.curve)
    }

    fn add_elem(&self, other: &Self) -> (r: Self) {
        self.add(other)
    }

    fn neg_elem(&self) -> (r: Option<Self>) {
        Some(self.neg())
    }
}

impl GroupElement for MulGroup<ModRingElement> {
    open spec fn gwf(&self) -> bool {
        self.wf()
    }

    open spec fn same_group(&self, other: &Self) -> bool {
        self.0.same_ring(other.0)
    }

    fn add_elem(&self, other: &Self) -> (r: Self) {
        self.add(other)
    }

    fn neg_elem(&self) -> (r: Option<Self>) {
        self.neg()
    }
}

/// A group with a generator and a scalar ring: what key agreement and
/// signature schemes are written over.
pub trait CryptoGroup: Sized {
    type BaseElement;

    type ScalarElement;

    /// The group description is well-formed.
    spec fn cwf(&self) -> bool;

    /// A base element belongs to this group.
    spec fn base_wf(&self, e: &Self::BaseElement) -> bool;

    /// A scalar belongs to this group's scalar ring.
    spec fn scalar_wf(&self, e: &Self::ScalarElement) -> bool;

    /// The group's generator.
    fn generator_elem(&self) -> (r: Self::BaseElement)
        requires
            self.cwf(),
        ensures
            self.base_wf(&r),
    ;

    /// Scalar multiplication.
    fn scalar_mul(&self, scalar: &Self::ScalarElement, point: &Self::BaseElement) -> (r:
        Self::BaseElement)
        requires
            self.cwf(),
            self.scalar_wf(scalar),
            self.base_wf(point),
        ensures
            self.base_wf(&r),
    ;

    /// A cryptographically random scalar, for key generation.
    fn random_scalar<R: CryptoCoreRng>(&self, rng: &mut R) -> (r: Self::ScalarElement)
        requires
            self.cwf(),
        ensures
            self.scalar_wf(&r),
    ;
}

impl CryptoGroup for EllipticCurve {
    type BaseElement = EllipticCurvePoint;

    type ScalarElement = ModRingElement;

    open spec fn cwf(&self) -> bool {
        self.wf()
    }

    open spec fn base_wf(&self, e: &EllipticCurvePoint) -> bool {
        e.wf() && e.curve.same_curve(*self)
    }

    open spec fn scalar_wf(&self, e: &ModRingElement) -> bool {
        e.wf() && e.p() == self.nv()
    }

    fn generator_elem(&self) -> (r: EllipticCurvePoint) {
        self.generator()
    }

    fn scalar_mul(&self, scalar: &ModRingElement, point: &EllipticCurvePoint) -> (r:
        EllipticCurvePoint) {
        proof {
            assert(point.curve.nv() == self.nv());
        }
        point.mul(scalar)
    }

    fn random_scalar<R: CryptoCoreRng>(&self, rng: &mut R) -> (r: ModRingElement) {
        self.scalar_field.random(rng)
    }
}

impl CryptoGroup for ModPGroup {
    type BaseElement = MulGroup<ModRingElement>;

    type ScalarElement = ModRingElement;

    open spec fn cwf(&self) -> bool {
        self.wf()
    }

    open spec fn base_wf(&self, e: &MulGroup<ModRingElement>) -> bool {
        e.wf() && e.0.p() == self.pv()
    }

    open spec fn scalar_wf(&self, e: &ModRingElement) -> bool {
        e.wf() && e.p() == self.nv()
    }

    fn generator_elem(&self) -> (r: MulGroup<ModRingElement>) {
        MulGroup::new(self.generator())
    }

    fn scalar_mul(&self, scalar: &ModRingElement, point: &MulGroup<ModRingElement>) -> (r:
        MulGroup<ModRingElement>) {
        point.mul_scalar(scalar)
    }

    fn random_scalar<R: CryptoCoreRng>(&self, rng: &mut R) -> (r: ModRingElement) {
        self.scalar_field.random(rng)
    }
}

/// An encoded public key.
pub struct PublicKey(pub Vec<u8>);

/// An encoded private key; kept opaque by convention.
pub struct PrivateKey(pub Vec<u8>);

impl PublicKey {
    /// The key's bytes.
    pub fn as_ref(&self) -> (r: &Vec<u8>)
        ensures
            r@ == self.0@,
    {
        &self.0
    }
}

/// Byte-level Diffie-Hellman key agreement, as the protocol layer
/// consumes it.
pub trait DiffieHellman {
    /// The group description is sound.
    spec fn dh_wf(&self) -> bool;

    /// Draws a private key.
    fn generate_private_key<R: CryptoCoreRng>(&self, rng: &mut R) -> Vec<u8>
        requires
            self.dh_wf(),
    ;

    /// Derives the public key of a private key.
    fn private_to_public(&self, private: &[u8]) -> Result<Vec<u8>, crate::error::Error>
        requires
            self.dh_wf(),
    ;

    /// Computes the shared secret of a private and a peer public key.
    fn shared_secret(&self, private: &[u8], public: &[u8]) -> Result<
        Vec<u8>,
        crate::error::Error,
    >
        requires
            self.dh_wf(),
    ;
}

impl DiffieHellman for ModPGroup {
    open spec fn dh_wf(&self) -> bool {
        self.wf()
    }

    fn generate_private_key<R: CryptoCoreRng>(&self, rng: &mut R) -> Vec<u8> {
        self.generate_private_key(rng)
    }

    fn private_to_public(&self, private: &[u8]) -> Result<Vec<u8>, crate::error::Error> {
        self.private_to_public(private)
    }

    fn shared_secret(&self, private: &[u8], public: &[u8]) -> Result<
        Vec<u8>,
        crate::error::Error,
    > {
        self.shared_secret(private, public)
    }
}

} // verus!
