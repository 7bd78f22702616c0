//! RSASSA-PSS verification, MGF1, digests, the DER leaf parsers and the
//! PACE key derivation.

use mrtd_crypto::der::{signature_algorithm_from_der, spki_from_der, SubjectPublicKeyInfo};
use mrtd_crypto::error::Error;
use mrtd_crypto::hash::{DigestAlgorithmIdentifier, DigestAlgorithmParameters};
use mrtd_crypto::pace::{k_from_mrz, kdf_128};
use mrtd_crypto::rsa::{mgf1, RSAPublicKey};
use mrtd_crypto::sigalg::{MaskGenAlgorithm, RsaPssParameters, SignatureAlgorithmIdentifier};
use mrtd_crypto::uint::{u_eq, u_from_be_slice, u_from_u64, u_lt};

fn bytes_hex(s: &str) -> Vec<u8> {
    let clean: String = s.chars().filter(|c| c.is_ascii_hexdigit()).collect();
    hex::decode(clean).unwrap()
}

const SPKI_HEX: &str = "30820122300d06092a864886f70d01010105000382010f003082010a0282010100a2b451a07d0aa5f96e455671513550514a8a5b462ebef717094fa1fee82224e637f9746d3f7cafd31878d80325b6ef5a1700f65903b469429e89d6eac8845097b5ab393189db92512ed8a7711a1253facd20f79c15e8247f3d3e42e46e48c98e254a2fe9765313a03eff8f17e1a029397a1fa26a8dce26f490ed81299615d9814c22da610428e09c7d9658594266f5c021d0fceca08d945a12be82de4d1ece6b4c03145b5d3495d4ed5411eb878daf05fd7afc3e09ada0f1126422f590975a1969816f48698bcbba1b4d9cae79d460d8f9f85e7975005d9bc22c4e5ac0f7c1a45d12569a62807d3b9a02e5a530e773066f453d1f5b4c2e9cf7820283f742b9d50203010001";

const SIG_HEX: &str = "68caf07e71ee654ffabf07d342fc4059deb4f7e5970746c423b1e8f668d5332275cc35eb61270aebd27855b1e80d59def47fe8882867fd33c2308c91976baa0b1df952caa78db4828ab81e79949bf145cbdfd1c4987ed036f81e8442081016f20fa4b587574884ca6f6045959ce3501ae7c02b1902ec1d241ef28dee356c0d30d28a950f1fbc683ee7d9aad26b048c13426fe3975d5638afeb5b9c1a99d162d3a5810e8b074d7a2eae2be52b577151f76e1f734b0a956ef4f22be64dc20a81ad1316e4f79dff5fc41fc08a20bc612283a88415d41595bfea66d59de7ac12e230f72244ad9905aef0ead3fa41ed70bf4218863d5f041292f2d14ce0a7271c6d36";

fn example_key_and_params() -> (RSAPublicKey, RsaPssParameters) {
    let info = spki_from_der(&bytes_hex(SPKI_HEX)).unwrap();
    assert!(matches!(info, SubjectPublicKeyInfo::Rsa(_)));
    let key = RSAPublicKey::from_spki(&info).unwrap();
    let digest = DigestAlgorithmIdentifier::Sha256(DigestAlgorithmParameters::Absent);
    let params = RsaPssParameters {
        hash_algorithm: digest,
        mask_gen_algorithm: MaskGenAlgorithm::Mgf1(digest),
        salt_length: 32,
        trailer_field: 1,
    };
    (key, params)
}

// RSA-PSS example with MGF1/SHA-256 and a 32-byte salt
#[test]
fn test_rsa_ssa_pss() {
    let (key, params) = example_key_and_params();
    assert!(u_eq(&key.public_exponent, &u_from_u64(65537)));
    let signature = u_from_be_slice(&bytes_hex(SIG_HEX));
    assert!(u_lt(&signature, &key.ring.modulus()));
    let sig_elem = key.ring.from(signature);
    let message = bytes_hex("313233343030");
    assert!(key.verify_pss(&message, &sig_elem, &params).is_ok());
}

#[test]
fn test_rsa_pss_rejects_flipped_signature() {
    let (key, params) = example_key_and_params();
    let message = bytes_hex("313233343030");
    let mut sig = bytes_hex(SIG_HEX);
    for i in [0usize, 100, 255] {
        sig[i] ^= 0x01;
        let sig_elem = key.ring.from(u_from_be_slice(&sig));
        assert_eq!(
            key.verify_pss(&message, &sig_elem, &params).unwrap_err(),
            Error::SignatureInvalid
        );
        sig[i] ^= 0x01;
    }
}

#[test]
fn test_rsa_pss_rejects_wrong_parameters() {
    let (key, params) = example_key_and_params();
    let message = bytes_hex("313233343030");
    let sig_elem = key.ring.from(u_from_be_slice(&bytes_hex(SIG_HEX)));

    // wrong salt length
    let mut p2 = params.clone();
    p2.salt_length = 20;
    assert_eq!(
        key.verify_pss(&message, &sig_elem, &p2).unwrap_err(),
        Error::SignatureInvalid
    );

    // wrong hash algorithm
    let mut p3 = params.clone();
    p3.hash_algorithm = DigestAlgorithmIdentifier::Sha1(DigestAlgorithmParameters::Absent);
    assert!(key.verify_pss(&message, &sig_elem, &p3).is_err());

    // unsupported trailer field
    let mut p4 = params.clone();
    p4.trailer_field = 2;
    assert_eq!(
        key.verify_pss(&message, &sig_elem, &p4).unwrap_err(),
        Error::AlgorithmUnsupported
    );

    // wrong message
    assert_eq!(
        key.verify_pss(&bytes_hex("313233343031"), &sig_elem, &params)
            .unwrap_err(),
        Error::SignatureInvalid
    );
}

#[test]
fn test_rsa_pss_rejects_flipped_modulus() {
    let (key, params) = example_key_and_params();
    let message = bytes_hex("313233343030");
    let one = u_from_u64(2);
    let n2 = mrtd_crypto::uint::u_add_mod(
        &key.ring.modulus(),
        &one,
        &mrtd_crypto::uint::u_from_be_slice(&[0xffu8; 256]),
    );
    let key2 = RSAPublicKey::from_parts(n2, key.public_exponent).unwrap();
    let sig_elem = key2.ring.from(u_from_be_slice(&bytes_hex(SIG_HEX)));
    assert!(key2.verify_pss(&message, &sig_elem, &params).is_err());
}

#[test]
fn test_decode_signature_algorithm_rsa_ssa_pss() {
    let der_params_w_mgf_sha1 = bytes_hex("300d06092a864886f70d01010a3000");
    let der_params_w_mgf_sha256 = bytes_hex("303d06092a864886f70d01010a3030a00d300b0609608648016503040201a11a301806092a864886f70d010108300b0609608648016503040201a203020120");
    let der_params_w_mgf_sha384 = bytes_hex("303d06092a864886f70d01010a3030a00d300b0609608648016503040202a11a301806092a864886f70d010108300b0609608648016503040202a203020130");
    let der_params_w_mgf_sha512 = bytes_hex("303d06092a864886f70d01010a3030a00d300b0609608648016503040203a11a301806092a864886f70d010108300b0609608648016503040203a203020140");
    signature_algorithm_from_der(&der_params_w_mgf_sha1).unwrap();
    signature_algorithm_from_der(&der_params_w_mgf_sha256).unwrap();
    signature_algorithm_from_der(&der_params_w_mgf_sha384).unwrap();
    signature_algorithm_from_der(&der_params_w_mgf_sha512).unwrap();
}

#[test]
fn test_decode_pss_parameters_and_defaults() {
    // the empty parameter sequence restores every RFC 4055 default
    let alg = signature_algorithm_from_der(&bytes_hex("300d06092a864886f70d01010a3000")).unwrap();
    match alg {
        SignatureAlgorithmIdentifier::RsaPss(p) => {
            assert_eq!(
                p.hash_algorithm,
                DigestAlgorithmIdentifier::Sha1(DigestAlgorithmParameters::Absent)
            );
            assert!(matches!(p.mask_gen_algorithm, MaskGenAlgorithm::Mgf1(
                DigestAlgorithmIdentifier::Sha1(DigestAlgorithmParameters::Absent)
            )));
            assert_eq!(p.salt_length, 20);
            assert_eq!(p.trailer_field, 1);
        }
        _ => panic!("expected the PSS variant"),
    }
    // the SHA-256 variant carries explicit values
    let alg2 = signature_algorithm_from_der(&bytes_hex("303d06092a864886f70d01010a3030a00d300b0609608648016503040201a11a301806092a864886f70d010108300b0609608648016503040201a203020120")).unwrap();
    match alg2 {
        SignatureAlgorithmIdentifier::RsaPss(p) => {
            assert_eq!(
                p.hash_algorithm,
                DigestAlgorithmIdentifier::Sha256(DigestAlgorithmParameters::Absent)
            );
            assert_eq!(p.salt_length, 32);
            assert_eq!(p.trailer_field, 1);
        }
        _ => panic!("expected the PSS variant"),
    }
}

#[test]
fn test_digests_known_vectors() {
    let d = DigestAlgorithmIdentifier::Sha256(DigestAlgorithmParameters::Absent);
    assert_eq!(
        d.hash_bytes(b"abc"),
        bytes_hex("ba7816bf8f01cfea414140de5dae2223b00361a396177a9cb410ff61f20015ad")
    );
    let d1 = DigestAlgorithmIdentifier::Sha1(DigestAlgorithmParameters::Absent);
    assert_eq!(
        d1.hash_bytes(b"abc"),
        bytes_hex("a9993e364706816aba3e25717850c26c9cd0d89d")
    );
    assert_eq!(d.hash_len(), 32);
    assert_eq!(d1.hash_len(), 20);
}

#[test]
fn test_mgf1_properties() {
    let d = DigestAlgorithmIdentifier::Sha1(DigestAlgorithmParameters::Absent);
    let m1 = mgf1(&d, b"seed one", 40);
    let m2 = mgf1(&d, b"seed two", 40);
    assert_eq!(m1.len(), 40);
    assert_eq!(m2.len(), 40);
    assert_ne!(m1, m2);
    // deterministic, and a prefix of a longer stream
    let m3 = mgf1(&d, b"seed one", 25);
    assert_eq!(&m1[..25], &m3[..]);
}

// ICAO 9303-11 Appendix G key derivation example
#[test]
fn test_pace_example() {
    let mrz = "T22000129364081251010318";
    let k = k_from_mrz(mrz);
    assert_eq!(k, bytes_hex("7E2D2A41 C74EA0B3 8CD36F86 3939BFA8 E9032AAD"));
    let k_pi = kdf_128(&k, 3);
    assert_eq!(k_pi, bytes_hex("89DED1B2 6624EC1E 634C1989 302849DD"));
}

#[test]
fn test_rsa_pss_byte_level_entry() {
    let (key, params) = example_key_and_params();
    let message = bytes_hex("313233343030");
    let sig = bytes_hex(SIG_HEX);
    assert!(key.verify_pss_bytes(&message, &sig, &params).is_ok());
    // a signature of the wrong length is rejected outright
    assert_eq!(
        key.verify_pss_bytes(&message, &sig[1..], &params).unwrap_err(),
        Error::SignatureInvalid
    );
    let mut long = sig.clone();
    long.push(0x00);
    assert_eq!(
        key.verify_pss_bytes(&message, &long, &params).unwrap_err(),
        Error::SignatureInvalid
    );
    // an absurd salt length is rejected without any caller-side bound
    let mut p2 = params.clone();
    p2.salt_length = usize::MAX;
    assert_eq!(
        key.verify_pss_bytes(&message, &sig, &p2).unwrap_err(),
        Error::SignatureInvalid
    );
}
