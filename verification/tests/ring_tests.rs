//! Ring arithmetic, mod-p groups and the multiplicative-group adapter.

use mrtd_crypto::element::ModRingElement;
use mrtd_crypto::groups::{CryptoGroup, DiffieHellman};
use mrtd_crypto::modp::ModPGroup;
use mrtd_crypto::mulgroup::MulGroup;
use mrtd_crypto::named::{modp_160, modp_224, modp_256};
use mrtd_crypto::ring::ModRing;
use mrtd_crypto::uint::{u_eq, u_from_be_slice, u_from_u64, Wide};

fn w_hex(s: &str) -> Wide {
    let clean: String = s.chars().filter(|c| c.is_ascii_hexdigit()).collect();
    u_from_be_slice(&hex::decode(clean).unwrap())
}

fn small_ring(p: u64) -> ModRing {
    ModRing::from_modulus(u_from_u64(p))
}

#[test]
fn test_mulgroup() {
    let a = MulGroup::new(3u64);
    let b = MulGroup::new(4u64);
    assert_eq!(a.add(b), 12.into());
    assert_eq!(a.mul_scalar(2), 9.into());
}

#[test]
fn test_group_1_order() {
    let group = modp_160().unwrap();
    let order = group.scalar_field().modulus();
    let power = group.generator().pow_ct(&order);
    assert!(power.is_one());
}

#[test]
fn test_group_2_order() {
    let group = modp_224().unwrap();
    let order = group.scalar_field().modulus();
    let power = group.generator().pow_ct(&order);
    assert!(power.is_one());
}

#[test]
fn test_group_3_order() {
    let group = modp_256().unwrap();
    let order = group.scalar_field().modulus();
    let power = group.generator().pow_ct(&order);
    assert!(power.is_one());
}

#[test]
fn test_group_1_example() {
    // RFC 5114 appendix test vector for the 1024-bit MODP group
    let xa = w_hex("b9a3b3ae8fefc1a2930496507086f8455d48943e");
    let ya = w_hex(
        "2A853B3D92197501B9015B2DEB3ED84F5E021DCC3E52F109D3273D2B7521281CBABE0E76FF5727FA8ACCE26956BA9A1FCA26F20228D8693FEB10841D84A7360054ECE5A7F5B7A61AD3DFB3C60D2E43106D8727DA37DF9CCE95B478755D06BCEA8F9D45965F75A5F3D1DF3701165FC9E50C4279CEB07F989540AE96D5D88ED776",
    );
    let xb = w_hex("9392c9f9eb6a7a6a9022f7d83e7223c6835bbdda");
    let yb = w_hex(
        "717A6CB053371FF4A3B932941C1E5663F861A1D6AD34AE66576DFB98F6C6CBF9DDD5A56C7833F6BCFDFF095582AD868E440E8D09FD769E3CECCDC3D3B1E4CFA057776CAAF9739B6A9FEE8E7411F8D6DAC09D6A4EDB46CC2B5D5203090EAE6126311E53FD2C14B574E6A3109A3DA1BE41BDCEAA186F5CE06716A2B6A07B3C33FE",
    );
    let z = w_hex(
        "5C804F454D30D9C4DF85271F93528C91DF6B48AB5F80B3B59CAAC1B28F8ACBA9CD3E39F3CB614525D9521D2E644C53B807B810F340062F257D7D6FBFE8D5E8F072E9B6E9AFDA9413EAFB2E8B0699B1FB5A0CACEDDEAEAD7E9CFBB36AE2B420835BD83A19FB0B5E96BF8FA4D09E345525167ECD9155416F46F408ED31B63C6E6D",
    );

    let group = modp_160().unwrap();
    let gxa = group.scalar_field().from(xa);
    let gya = group.base_field().from(ya);
    let gxb = group.scalar_field().from(xb);
    let gyb = group.base_field().from(yb);
    let gz = group.base_field().from(z);

    let order = group.scalar_field().modulus();
    assert!(group.generator().pow_ct(&order).is_one());
    assert!(u_eq(&gxa.to_uint(), &xa));
    assert!(u_eq(&gya.to_uint(), &ya));
    assert!(u_eq(&gxb.to_uint(), &xb));
    assert!(u_eq(&gyb.to_uint(), &yb));
    assert!(u_eq(&gz.to_uint(), &z));
    assert!(group
        .generator()
        .pow_ct(&gxa.to_uint())
        .eq_elem(&gya));
    assert!(group
        .generator()
        .pow_ct(&gxb.to_uint())
        .eq_elem(&gyb));
    assert!(gya.pow_ct(&gxb.to_uint()).eq_elem(&gz));
    assert!(gyb.pow_ct(&gxa.to_uint()).eq_elem(&gz));
}

#[test]
fn test_from_to_uint_round_trip() {
    let ring = small_ring(1009);
    for x in [0u64, 1, 2, 500, 1008] {
        let e = ring.from_u64(x);
        assert!(u_eq(&e.to_uint(), &u_from_u64(x)));
    }
}

#[test]
fn test_ring_identities() {
    let ring = small_ring(1009);
    let a = ring.from_u64(123);
    let zero = ring.zero();
    let one = ring.one();
    assert!(a.sub(&a).eq_elem(&zero));
    assert!(a.add(&zero).eq_elem(&a));
    assert!(a.mul(&one).eq_elem(&a));
    let inv = a.inv().unwrap();
    assert!(inv.mul(&a).eq_elem(&one));
}

#[test]
fn test_ring_arithmetic_values() {
    let ring = small_ring(97);
    let a = ring.from_u64(50);
    let b = ring.from_u64(60);
    // 50 + 60 = 110 = 13 mod 97; 50 * 60 = 3000 = 90 mod 97
    assert!(u_eq(&a.add(&b).to_uint(), &u_from_u64(13)));
    assert!(u_eq(&a.mul(&b).to_uint(), &u_from_u64(90)));
    assert!(u_eq(&a.sub(&b).to_uint(), &u_from_u64(87)));
    assert!(u_eq(&a.neg().to_uint(), &u_from_u64(47)));
    assert!(u_eq(&a.pow(3).to_uint(), &u_from_u64((50u64 * 50 * 50) % 97)));
}

#[test]
fn test_inverse_of_zero_fails() {
    let ring = small_ring(97);
    let zero = ring.zero();
    assert!(zero.inv().is_none());
}

#[test]
fn test_non_coprime_inverse_fails() {
    // 3 has no inverse modulo 9
    let ring = small_ring(9);
    let e = ring.from_u64(3);
    assert!(e.inv().is_none());
}

#[test]
fn test_sqrt_small_field() {
    // 1009 ≡ 1 (mod 8): unsupported; 103 ≡ 7 (mod 8); 13 ≡ 5 (mod 8)
    let ring = small_ring(103);
    let a = ring.from_u64(4);
    let root = a.sqrt().unwrap();
    assert!(root.square().eq_elem(&a));
    let ring5 = small_ring(13);
    let b = ring5.from_u64(9);
    let root5 = b.sqrt().unwrap();
    assert!(root5.square().eq_elem(&b));
    // a non-residue is rejected
    let nr = ring5.from_u64(5);
    assert!(matches!(nr.sqrt(), Err(mrtd_crypto::error::Error::ArithmeticFailure)));
    // the uncovered residue class is reported as unsupported
    let ring1 = small_ring(17);
    let c = ring1.from_u64(4);
    assert!(matches!(c.sqrt(), Err(mrtd_crypto::error::Error::AlgorithmUnsupported)));
}

#[test]
fn test_modp_new_rejects_bad_generator_order() {
    // 2 has order 10 modulo 11, so it cannot have order 5
    let r = ModPGroup::new(u_from_u64(11), u_from_u64(2), u_from_u64(5));
    assert!(r.is_err());
}

#[test]
fn test_random_scalar_in_range() {
    let mut rng = mrtd_crypto::rng::SystemRng::new();
    let group = modp_160().unwrap();
    let a: ModRingElement = group.random_scalar(&mut rng);
    let b: ModRingElement = group.random_scalar(&mut rng);
    // two random 160-bit draws virtually never collide
    assert!(!a.eq_elem(&b));
}

#[test]
fn test_mulgroup_mod_ring() {
    let ring = small_ring(97);
    let g = MulGroup::new(ring.from_u64(5));
    let h = MulGroup::new(ring.from_u64(7));
    let sum = g.add(&h);
    assert!(u_eq(&sum.0.to_uint(), &u_from_u64(35)));
    let e = ring.from_u64(3);
    let p = g.mul_scalar(&e);
    assert!(u_eq(&p.0.to_uint(), &u_from_u64(125 % 97)));
    let zero = MulGroup::zero(&ring);
    assert!(zero.is_zero());
}

#[test]
fn test_diffie_hellman_bytes() {
    let mut rng = mrtd_crypto::rng::SystemRng::new();
    let group = modp_160().unwrap();
    let a_priv = group.generate_private_key(&mut rng);
    let b_priv = group.generate_private_key(&mut rng);
    assert_eq!(a_priv.len(), 20);
    let a_pub = group.private_to_public(&a_priv).unwrap();
    let b_pub = group.private_to_public(&b_priv).unwrap();
    assert_eq!(a_pub.len(), 128);
    let z1 = group.shared_secret(&a_priv, &b_pub).unwrap();
    let z2 = group.shared_secret(&b_priv, &a_pub).unwrap();
    assert_eq!(z1, z2);
    // a truncated private key is rejected
    assert!(group.private_to_public(&a_priv[1..]).is_err());
}

#[test]
fn test_crypto_group_interface() {
    let mut rng = mrtd_crypto::rng::SystemRng::new();
    let group = modp_160().unwrap();
    let a = group.random_scalar(&mut rng);
    let b = group.random_scalar(&mut rng);
    let g = group.generator_elem();
    let shared1 = group.scalar_mul(&b, &group.scalar_mul(&a, &g));
    let shared2 = group.scalar_mul(&a, &group.scalar_mul(&b, &g));
    assert!(shared1.0.eq_elem(&shared2.0));
}

fn modp_dh_exchange(group: &ModPGroup) {
    let mut rng = mrtd_crypto::rng::SystemRng::new();
    let alice_private = group.random_scalar(&mut rng);
    let bob_private = group.random_scalar(&mut rng);

    let alice_public = MulGroup::new(group.generator()).mul_scalar(&alice_private);
    let bob_public = MulGroup::new(group.generator()).mul_scalar(&bob_private);

    let alice_shared = bob_public.mul_scalar(&alice_private);
    let bob_shared = alice_public.mul_scalar(&bob_private);

    assert!(alice_shared.0.eq_elem(&bob_shared.0));
}

fn modp_schnorr_exchange(group: &ModPGroup) {
    let mut rng = mrtd_crypto::rng::SystemRng::new();
    let g = MulGroup::new(group.generator());
    let private = group.random_scalar(&mut rng);
    let public = g.mul_scalar(&private);

    let nonce = group.random_scalar(&mut rng);
    let commitment = g.mul_scalar(&nonce);
    let e = group.random_scalar(&mut rng);
    let s = nonce.sub(&e.mul(&private));

    let recovered = g.mul_scalar(&s).add(&public.mul_scalar(&e));
    assert!(recovered.0.eq_elem(&commitment.0));

    let e_inv = e.inv().unwrap();
    let recovered2 = commitment.add(&g.mul_scalar(&s).neg().unwrap()).mul_scalar(&e_inv);
    assert!(recovered2.0.eq_elem(&public.0));
}

#[test]
fn test_modp_160() {
    let group = modp_160().unwrap();
    modp_dh_exchange(&group);
    modp_schnorr_exchange(&group);
}

#[test]
fn test_modp_224() {
    let group = modp_224().unwrap();
    modp_dh_exchange(&group);
    modp_schnorr_exchange(&group);
}

#[test]
fn test_modp_256() {
    let group = modp_256().unwrap();
    modp_dh_exchange(&group);
    modp_schnorr_exchange(&group);
}
