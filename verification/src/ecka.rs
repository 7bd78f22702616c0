//! Elliptic-curve key agreement (ECKA, BSI TR-03111 §4.3.1) and the
//! derived ECDH shared secret.

use vstd::prelude::*;
use crate::uint::{uval, u_mul_mod};
use crate::element::ModRingElement;
use crate::curve::{EllipticCurvePoint, spec_mul, f_mul};
use crate::modmath::{spec_encode_uint, byte_len_spec};
use crate::error::Error;

verus! {

/// ECKA: computes `P = [h·sk]·Q` and the shared secret `Z`, the TR-03111
/// field-element encoding of `x(P)`. Fails exactly when the product is
/// the point at infinity.
pub fn ecka(private_key: &ModRingElement, public_point: &EllipticCurvePoint) -> (r: Result<
    (EllipticCurvePoint, Vec<u8>),
    Error,
>)
    requires
        public_point.wf(),
        public_point.curve.wf(),
        private_key.wf(),
        private_key.p() == public_point.curve.nv(),
    ensures
        ({
            let c = public_point.curve;
            let k = f_mul(c.nv(), c.hv(), private_key.v());
            let s = spec_mul(c.pv(), c.av(), k, public_point.pt());
            match r {
                Ok((p, z)) => {
                    &&& p.wf()
                    &&& p.curve == c
                    &&& p.pt() == s
                    &&& s is Some
                    &&& z@ == spec_encode_uint(s.unwrap().0, byte_len_spec(c.pv()))
                },
                Err(e) => e == Error::ArithmeticFailure && s is None,
            }
        }),
{
    let curve = public_point.curve();
    let order = curve.scalar_field().modulus();
    let h = curve.cofactor();
    let sk = private_key.to_uint();
    let k = u_mul_mod(&h, &sk, &order);
    proof {
        vstd::arithmetic::div_mod::lemma_mod_bound((uval(h) * uval(sk)) as int,
            public_point.curve.nv() as int);
    }
    let s = public_point.mul_uint(&k);
    if s.is_infinity() {
        return Err(Error::ArithmeticFailure);
    }
    let x = match s.x() {
        Some(x) => x,
        None => {
            return Err(Error::ArithmeticFailure);
        },
    };
    let z = x.encode_field_element();
    Ok((s, z))
}

/// ECDH: the shared-secret byte string of ECKA.
pub fn ecdh_shared_secret(private_key: &ModRingElement, public_point: &EllipticCurvePoint) -> (r:
    Result<Vec<u8>, Error>)
    requires
        public_point.wf(),
        public_point.curve.wf(),
        private_key.wf(),
        private_key.p() == public_point.curve.nv(),
    ensures
        ({
            let c = public_point.curve;
            let k = f_mul(c.nv(), c.hv(), private_key.v());
            let s = spec_mul(c.pv(), c.av(), k, public_point.pt());
            match r {
                Ok(z) => s is Some && z@ == spec_encode_uint(s.unwrap().0, byte_len_spec(
                    c.pv())),
                Err(e) => e == Error::ArithmeticFailure && s is None,
            }
        }),
{
    match ecka(private_key, public_point) {
        Ok((_, z)) => Ok(z),
        Err(e) => Err(e),
    }
}

} // verus!
