//! Named curves, point arithmetic, key agreement and ECDSA.

use mrtd_crypto::curve::{EllipticCurve, EllipticCurvePoint};
use mrtd_crypto::ecdsa::{ECPublicKey, ECSignature};
use mrtd_crypto::ecka::{ecdh_shared_secret, ecka};
use mrtd_crypto::element::ModRingElement;
use mrtd_crypto::error::Error;
use mrtd_crypto::named::{brainpool_p160r1, brainpool_p192r1, brainpool_p224r1, brainpool_p320r1,
    brainpool_p384r1, brainpool_p512r1, secp192r1, secp224r1, secp256r1, secp384r1, secp521r1};
use mrtd_crypto::rng::SystemRng;
use mrtd_crypto::uint::{u_eq, u_from_be_slice, u_from_u64};

fn dh_exchange(curve: &EllipticCurve) {
    let mut rng = SystemRng::new();
    let alice_private = curve.scalar_field().random(&mut rng);
    let bob_private = curve.scalar_field().random(&mut rng);

    let alice_public = curve.generator().mul(&alice_private);
    let bob_public = curve.generator().mul(&bob_private);

    let alice_shared = bob_public.mul(&alice_private);
    let bob_shared = alice_public.mul(&bob_private);

    assert!(alice_shared.eq_point(&bob_shared));
}

fn schnorr_exchange(curve: &EllipticCurve) {
    let mut rng = SystemRng::new();
    let private = curve.scalar_field().random(&mut rng);
    let public = curve.generator().mul(&private);

    let nonce = curve.scalar_field().random(&mut rng);
    let commitment = curve.generator().mul(&nonce);
    let e = curve.scalar_field().random(&mut rng);
    let s = nonce.sub(&e.mul(&private));

    let recovered = curve.generator().mul(&s).add(&public.mul(&e));
    assert!(recovered.eq_point(&commitment));

    let e_inv = e.inv().unwrap();
    let recovered2 = commitment.sub(&curve.generator().mul(&s)).mul(&e_inv);
    assert!(recovered2.eq_point(&public));
}

#[test]
fn test_secp192r1() {
    let group = secp192r1().unwrap();
    dh_exchange(&group);
    schnorr_exchange(&group);
}

#[test]
fn test_secp224r1() {
    let group = secp224r1().unwrap();
    dh_exchange(&group);
    schnorr_exchange(&group);
}

#[test]
fn test_secp256r1() {
    let group = secp256r1().unwrap();
    dh_exchange(&group);
    schnorr_exchange(&group);
}

#[test]
fn test_secp384r1() {
    let group = secp384r1().unwrap();
    dh_exchange(&group);
    schnorr_exchange(&group);
}

#[test]
fn test_secp521r1() {
    let group = secp521r1().unwrap();
    dh_exchange(&group);
    schnorr_exchange(&group);
}

#[test]
fn test_scalar_mul_laws() {
    let curve = secp192r1().unwrap();
    let g = curve.generator();
    let k1 = curve.scalar_field().from_u64(12345);
    let k2 = curve.scalar_field().from_u64(67890);
    // [k]G + [−k]G = ∞
    let p1 = g.mul(&k1);
    let p2 = g.mul(&k1.neg());
    assert!(p1.add(&p2).is_infinity());
    // [k1+k2]G = [k1]G + [k2]G
    let lhs = g.mul(&k1.add(&k2));
    let rhs = g.mul(&k1).add(&g.mul(&k2));
    assert!(lhs.eq_point(&rhs));
    // [order]G = ∞
    let order = curve.scalar_field().modulus();
    assert!(g.mul_uint(&order).is_infinity());
}

#[test]
fn test_curve_rejection() {
    // raising b by one leaves the generator off the curve
    let curve = secp256r1().unwrap();
    let b_plus = curve.b().to_uint();
    let one = u_from_u64(1);
    let b_plus = mrtd_crypto::uint::u_add_mod(&b_plus, &one, &curve.base_field().modulus());
    let r = EllipticCurve::new(
        curve.base_field().modulus(),
        curve.a().to_uint(),
        b_plus,
        curve.generator().x().unwrap().to_uint(),
        curve.generator().y().unwrap().to_uint(),
        curve.scalar_field().modulus(),
        curve.cofactor(),
    );
    assert!(matches!(r, Err(Error::ParameterInvalid)));
}

#[test]
fn test_from_affine_rejects_off_curve() {
    let curve = secp192r1().unwrap();
    let x = curve.base_field().from_u64(12345);
    let y = curve.base_field().from_u64(67890);
    let r = curve.from_affine(&x, &y);
    assert!(matches!(r, Err(Error::PointInvalid)));
}

#[test]
fn test_ecdh_agreement() {
    let curve = secp256r1().unwrap();
    let mut rng = SystemRng::new();
    let a = curve.scalar_field().random(&mut rng);
    let b = curve.scalar_field().random(&mut rng);
    let qa = curve.generator().mul(&a);
    let qb = curve.generator().mul(&b);
    let za = ecdh_shared_secret(&a, &qb).unwrap();
    let zb = ecdh_shared_secret(&b, &qa).unwrap();
    assert_eq!(za, zb);
    assert_eq!(za.len(), 32);
}

#[test]
fn test_ecka_rejects_infinity() {
    let curve = secp192r1().unwrap();
    let zero = curve.scalar_field().zero();
    let q = curve.generator();
    assert!(matches!(ecka(&zero, &q), Err(Error::ArithmeticFailure)));
}

fn sign(
    curve: &EllipticCurve,
    private: &ModRingElement,
    e: &ModRingElement,
    rng: &mut SystemRng,
) -> ECSignature {
    // a straightforward reference signer, for exercising verification
    loop {
        let k = curve.scalar_field().random(rng);
        let point = curve.generator().mul(&k);
        let x = match point.x() {
            Some(x) => x,
            None => continue,
        };
        // r = x mod n
        let xr = mrtd_crypto::uint::u_mul_mod(
            &x.to_uint(),
            &u_from_u64(1),
            &curve.scalar_field().modulus(),
        );
        let r = curve.scalar_field().from(xr);
        if r.is_zero() {
            continue;
        }
        let k_inv = match k.inv() {
            Some(i) => i,
            None => continue,
        };
        let s = k_inv.mul(&e.add(&r.mul(private)));
        if s.is_zero() {
            continue;
        }
        return ECSignature { r, s };
    }
}

#[test]
fn test_ecdsa_accept_and_reject() {
    let curve = secp256r1().unwrap();
    let mut rng = SystemRng::new();
    let private = curve.scalar_field().random(&mut rng);
    let public = curve.generator().mul(&private);
    let key = ECPublicKey::new(&curve, &public);

    let e = curve.scalar_field().from_u64(0xDEADBEEF);
    let sig = sign(&curve, &private, &e, &mut rng);
    assert!(key.verify(&e, &sig).is_ok());

    // a flipped message hash is rejected
    let e_bad = e.add(&curve.scalar_field().from_u64(1));
    assert_eq!(key.verify(&e_bad, &sig).unwrap_err(), Error::SignatureInvalid);

    // a flipped signature half is rejected
    let sig_bad = ECSignature {
        r: sig.r.add(&curve.scalar_field().from_u64(1)),
        s: sig.s,
    };
    assert_eq!(key.verify(&e, &sig_bad).unwrap_err(), Error::SignatureInvalid);
    let sig_bad2 = ECSignature {
        r: sig.r,
        s: sig.s.add(&curve.scalar_field().from_u64(1)),
    };
    assert_eq!(key.verify(&e, &sig_bad2).unwrap_err(), Error::SignatureInvalid);
}

#[test]
fn test_from_x_recovers_generator() {
    let curve = secp256r1().unwrap();
    let gx = curve.generator().x().unwrap();
    let p = curve.from_x(&gx).unwrap();
    let y = p.y().unwrap();
    let gy = curve.generator().y().unwrap();
    // from_x returns the generator's y or its negation
    assert!(y.eq_elem(&gy) || y.neg().eq_elem(&gy));
}

#[test]
fn test_conditional_select_points() {
    let curve = secp192r1().unwrap();
    let g = curve.generator();
    let inf = curve.infinity();
    let sel0 = EllipticCurvePoint::conditional_select(&g, &inf, false);
    let sel1 = EllipticCurvePoint::conditional_select(&g, &inf, true);
    assert!(sel0.eq_point(&g));
    assert!(sel1.is_infinity());
}

#[test]
fn test_curve_1_order() {
    // validating the first named curve exercises every construction check:
    // reduced parameters, non-singularity, the generator on the curve, and
    // the generator's order
    let curve = secp192r1().unwrap();
    let p = curve.base_field().modulus();
    assert!(mrtd_crypto::uint::u_lt(&curve.a().to_uint(), &p));
    assert!(mrtd_crypto::uint::u_lt(&curve.b().to_uint(), &p));
    assert!(mrtd_crypto::uint::u_lt(&curve.generator().x().unwrap().to_uint(), &p));
    assert!(mrtd_crypto::uint::u_lt(&curve.generator().y().unwrap().to_uint(), &p));
    // 4a³ + 27b² ≠ 0
    let four = curve.base_field().from_u64(4);
    let c27 = curve.base_field().from_u64(27);
    let a = curve.a();
    let b = curve.b();
    let disc = four.mul(&a.pow(3)).add(&c27.mul(&b.square()));
    assert!(!disc.is_zero());
}

#[test]
fn test_brainpool_p160r1() {
    let group = brainpool_p160r1().unwrap();
    dh_exchange(&group);
    schnorr_exchange(&group);
}

#[test]
fn test_brainpool_brainpool_p512r1() {
    let group = brainpool_p512r1().unwrap();
    dh_exchange(&group);
    schnorr_exchange(&group);
}

#[test]
fn test_brainpool_small_sizes() {
    assert!(brainpool_p192r1().is_ok());
    assert!(brainpool_p224r1().is_ok());
    assert!(brainpool_p320r1().is_ok());
    assert!(brainpool_p384r1().is_ok());
}
