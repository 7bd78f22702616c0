//! ECDSA signature verification.

use vstd::prelude::*;
use crate::uint::{u_from_u64, u_mul_mod, u_eq};
use crate::element::ModRingElement;
use crate::curve::{EllipticCurve, EllipticCurvePoint, spec_add, spec_mul, f_mul};
use crate::modmath::{mod_inv_exists, inv_f, lemma_inv_f_unique};
use crate::error::Error;

verus! {

/// An elliptic-curve public key: a curve and a point on it.
#[derive(Clone, Copy)]
pub struct ECPublicKey {
    pub group: EllipticCurve,
    pub point: EllipticCurvePoint,
}

/// An ECDSA signature: the pair `(r, s)` of scalar-field elements.
#[derive(Clone, Copy)]
pub struct ECSignature {
    pub r: ModRingElement,
    pub s: ModRingElement,
}

/// The ECDSA acceptance condition: with `w = s⁻¹ mod n`, `u₁ = e·w` and
/// `u₂ = r·w`, the point `X = [u₁]G + [u₂]Q` is finite and its
/// x-coordinate reduces to `r` modulo the group order.
pub open spec fn ecdsa_accepts(
    p: nat,
    a: nat,
    n: nat,
    g: (nat, nat),
    q: Option<(nat, nat)>,
    e: nat,
    rv: nat,
    sv: nat,
) -> bool {
    &&& mod_inv_exists(sv, n)
    &&& {
        let w = inv_f(n, sv);
        let u1 = f_mul(n, e, w);
        let u2 = f_mul(n, rv, w);
        let x = spec_add(p, a, spec_mul(p, a, u1, Some(g)), spec_mul(p, a, u2, q));
        &&& x is Some
        &&& x.unwrap().0 % n == rv
    }
}

impl ECPublicKey {
    /// The key is a well-formed point bound to its own curve.
    pub open spec fn wf(self) -> bool {
        &&& self.group.wf()
        &&& self.point.wf()
        &&& self.point.curve.same_curve(self.group)
        &&& self.point.curve.pv() == self.group.pv()
    }

    /// Binds a public key.
    pub fn new(group: &EllipticCurve, point: &EllipticCurvePoint) -> (r: ECPublicKey)
        requires
            group.wf(),
            point.wf(),
            point.curve.same_curve(*group),
        ensures
            r.wf(),
            r.group == *group,
            r.point == *point,
    {
        ECPublicKey { group: *group, point: *point }
    }

    /// Verifies an ECDSA signature over a prehashed message, accepting
    /// exactly when `ecdsa_accepts` holds of the reduced values.
    pub fn verify(&self, message_hash: &ModRingElement, signature: &ECSignature) -> (res: Result<
        (),
        Error,
    >)
        requires
            self.wf(),
            message_hash.wf(),
            message_hash.p() == self.group.nv(),
            signature.r.wf(),
            signature.r.p() == self.group.nv(),
            signature.s.wf(),
            signature.s.p() == self.group.nv(),
        ensures
            res is Ok <==> ecdsa_accepts(self.group.pv(), self.group.av(), self.group.nv(),
                self.group.gv(), self.point.pt(), message_hash.v(), signature.r.v(),
                signature.s.v()),
            res is Err ==> res == Err::<(), Error>(Error::SignatureInvalid),
    {
        let ghost n = self.group.nv();
        let w = match signature.s.inv() {
            None => {
                return Err(Error::SignatureInvalid);
            },
            Some(w) => w,
        };
        proof {
            lemma_inv_f_unique(n, signature.s.v(), w.v());
        }
        let u1 = message_hash.mul(&w);
        let u2 = signature.r.mul(&w);
        let g = self.group.generator();
        let p1 = g.mul(&u1);
        let p2 = self.point.mul(&u2);
        let x = p1.add(&p2);
        if x.is_infinity() {
            return Err(Error::SignatureInvalid);
        }
        let xe = match x.x() {
            None => {
                return Err(Error::SignatureInvalid);
            },
            Some(xe) => xe,
        };
        // reduce the x-coordinate modulo the group order and compare
        let xu = xe.to_uint();
        let one = u_from_u64(1);
        let order = self.group.scalar_field().modulus();
        let xr = u_mul_mod(&xu, &one, &order);
        let ru = signature.r.to_uint();
        proof {
            assert(xe.v() * 1 == xe.v());
        }
        if u_eq(&xr, &ru) {
            Ok(())
        } else {
            Err(Error::SignatureInvalid)
        }
    }
}

} // verus!
