//! Wire encodings: TR-03111 field elements and points, BER lengths,
//! ICAO minimal integers and the tagged public-key records.

use mrtd_crypto::error::Error;
use mrtd_crypto::codec::BsiTr031111Codec;
use mrtd_crypto::icao::{BerSize, Icao9303Codec, Leniency, PublicKeyRSA};
use mrtd_crypto::named::{brainpool_p256r1, secp256r1};
use mrtd_crypto::uint::{u_eq, u_from_be_slice, u_from_u64, Wide};

fn w_hex(s: &str) -> Wide {
    let clean: String = s.chars().filter(|c| c.is_ascii_hexdigit()).collect();
    u_from_be_slice(&hex::decode(clean).unwrap())
}

fn bytes_hex(s: &str) -> Vec<u8> {
    let clean: String = s.chars().filter(|c| c.is_ascii_hexdigit()).collect();
    hex::decode(clean).unwrap()
}

// Example from the BSI worked example for Extended Access Control §3.3
#[test]
fn test_codec() {
    let curve = brainpool_p256r1().unwrap();
    let sk_pcd = bytes_hex(
        "75 22 87 F5 B0 2D E3 C4 BC 3E 17 94 51 18 C5 1B 23 C9 72 78 E4 CD 74 80 48 AC 56 BA \
         5B DC 3D 46",
    );
    let pk_pcd = bytes_hex(
        "04 3D D2 9B BE 59 07 FD 21 A1 52 AD A4 89 5F AA E7 AC C5 5F 5E 50 EF BF DE 5A B0 C6 \
         EB 54 F1 98 D6 15 91 36 35 F0 FD F5 BE B3 83 E0 03 55 F8 2D 3C 41 ED 0D F2 E2 83 63 \
         43 3D FB 73 85 6A 15 DC 9F",
    );
    let sk = curve.scalar_field().decode_field_element(&sk_pcd).unwrap();
    let pk = curve.decode_point(&pk_pcd).unwrap();
    assert!(curve.generator().mul(&sk).eq_point(&pk));
    // and the uncompressed encoding reproduces the input verbatim
    assert_eq!(curve.generator().mul(&sk).encode_point(false), pk_pcd);
}

#[test]
fn test_field_element_round_trip() {
    let curve = secp256r1().unwrap();
    let e = curve.base_field().from_u64(0xABCDEF);
    let enc = e.encode_field_element();
    assert_eq!(enc.len(), 32);
    let dec = curve.base_field().decode_field_element(&enc).unwrap();
    assert!(dec.eq_elem(&e));
}

#[test]
fn test_point_codec_round_trip() {
    let curve = secp256r1().unwrap();
    let k = curve.scalar_field().from_u64(987654321);
    let p = curve.generator().mul(&k);

    let unc = p.encode_point(false);
    assert_eq!(unc.len(), 65);
    assert_eq!(unc[0], 0x04);
    let p2 = curve.decode_point(&unc).unwrap();
    assert!(p2.eq_point(&p));

    let cmp = p.encode_point(true);
    assert_eq!(cmp.len(), 33);
    assert!(cmp[0] == 0x02 || cmp[0] == 0x03);
    let p3 = curve.decode_point(&cmp).unwrap();
    assert!(p3.eq_point(&p));

    let inf = curve.infinity();
    let ienc = inf.encode_point(false);
    assert_eq!(ienc, vec![0u8]);
    assert!(curve.decode_point(&ienc).unwrap().is_infinity());
}

#[test]
fn test_point_decode_rejects_bad_prefix() {
    let curve = secp256r1().unwrap();
    let mut unc = curve.generator().encode_point(false);
    unc[0] = 0x07;
    assert!(curve.decode_point(&unc).is_err());
}

#[test]
fn test_ber_size_codec() {
    let mut codec = Icao9303Codec::new();
    let cases: [(usize, &str); 6] = [
        (0, "00"),
        (127, "7F"),
        (128, "81 80"),
        (255, "81 FF"),
        (256, "82 01 00"),
        (65535, "82 FF FF"),
    ];
    for (value, expect) in cases {
        let enc = codec.encode_ber_size(BerSize(value));
        assert_eq!(enc, bytes_hex(expect), "encoding {value}");
        let (dec, used) = codec.decode_ber_size(&enc).unwrap();
        assert_eq!(dec.0, value);
        assert_eq!(used, enc.len());
    }
    // canonical encodings leave no diagnostic behind
    assert_eq!(codec.diagnostics, 0);
}

#[test]
fn test_ber_size_non_minimal_policy() {
    // `81 00` carries the value 0 in a needlessly long form
    let mut strict = Icao9303Codec::strict();
    assert_eq!(
        strict.decode_ber_size(&bytes_hex("81 00")).unwrap_err(),
        Error::EncodingNonCanonical
    );
    assert_eq!(strict.diagnostics, 0);
    let mut warn = Icao9303Codec::new();
    let (v, used) = warn.decode_ber_size(&bytes_hex("81 00")).unwrap();
    assert_eq!(v.0, 0);
    assert_eq!(used, 2);
    // the warning-mode correction fires exactly one diagnostic
    assert_eq!(warn.diagnostics, 1);
}

#[test]
fn test_icao_uint_minimal() {
    let mut codec = Icao9303Codec::new();
    let v = u_from_u64(0x1234);
    let enc = codec.encode_uint(&v);
    assert_eq!(enc, vec![0x12, 0x34]);
    let dec = codec.decode_uint(&enc).unwrap();
    assert!(u_eq(&dec, &v));
    assert_eq!(codec.diagnostics, 0);
    // leading zeros are tolerated by default (with a diagnostic) and
    // rejected under strict
    let padded = vec![0x00, 0x12, 0x34];
    let dec2 = codec.decode_uint(&padded).unwrap();
    assert!(u_eq(&dec2, &v));
    assert_eq!(codec.diagnostics, 1);
    let mut strict = Icao9303Codec::strict();
    assert_eq!(strict.decode_uint(&padded).unwrap_err(), Error::EncodingNonCanonical);
}

#[test]
fn test_public_key_rsa_round_trip() {
    let mut codec = Icao9303Codec::new();
    let pk = PublicKeyRSA {
        oid: bytes_hex("2a 86 48 86 f7 0d 01 01 01"),
        modulus: w_hex("00 c0 ff ee 00 12 34 56 78 9a bc de f0 11 22 33"),
        public_exponent: u_from_u64(65537),
    };
    let enc = codec.encode_public_key_rsa(&pk);
    let dec = codec.decode_public_key_rsa(&enc).unwrap();
    assert_eq!(dec.oid, pk.oid);
    assert!(u_eq(&dec.modulus, &pk.modulus));
    assert!(u_eq(&dec.public_exponent, &pk.public_exponent));
}

#[test]
fn test_public_key_rsa_rejects_duplicates() {
    let mut codec = Icao9303Codec::new();
    let pk = PublicKeyRSA {
        oid: bytes_hex("2a 86 48 86 f7 0d 01 01 01"),
        modulus: u_from_u64(12345),
        public_exponent: u_from_u64(3),
    };
    let mut enc = codec.encode_public_key_rsa(&pk);
    let mut again = codec.encode_public_key_rsa(&pk);
    enc.append(&mut again);
    assert!(codec.decode_public_key_rsa(&enc).is_err());
}

#[test]
fn test_public_key_dh_round_trip() {
    let mut codec = Icao9303Codec::new();
    let pk = mrtd_crypto::icao::PublicKeyDH {
        oid: bytes_hex("2a 86 48 ce 3e 02 01"),
        modulus: w_hex("e9 5e 4a 5f 73 70 59 dc 60 df"),
        order: u_from_u64(0xfc09),
        generator: u_from_u64(2),
        public_key: w_hex("12 34 56 78 9a"),
    };
    let enc = codec.encode_public_key_dh(&pk);
    let dec = codec.decode_public_key_dh(&enc).unwrap();
    assert_eq!(dec.oid, pk.oid);
    assert!(u_eq(&dec.modulus, &pk.modulus));
    assert!(u_eq(&dec.order, &pk.order));
    assert!(u_eq(&dec.generator, &pk.generator));
    assert!(u_eq(&dec.public_key, &pk.public_key));
}

#[test]
fn test_leniency_helper() {
    assert!(mrtd_crypto::icao::lenient(Leniency::Allow, Error::EncodingNonCanonical).is_ok());
    assert!(mrtd_crypto::icao::lenient(Leniency::Warn, Error::EncodingNonCanonical).is_ok());
    assert_eq!(
        mrtd_crypto::icao::lenient(Leniency::Strict, Error::EncodingNonCanonical).unwrap_err(),
        Error::EncodingNonCanonical
    );
}

#[test]
fn test_fixed_uint_codec() {
    let v = w_hex("01 02 03");
    let enc = mrtd_crypto::codec::encode_uint_fixed(&v, 5);
    assert_eq!(enc, vec![0x00, 0x00, 0x01, 0x02, 0x03]);
    let dec = mrtd_crypto::codec::decode_uint_fixed(&enc, 5).unwrap();
    assert!(u_eq(&dec, &v));
    assert_eq!(
        mrtd_crypto::codec::decode_uint_fixed(&enc, 4).unwrap_err(),
        Error::EncodingMalformed
    );
}

#[test]
fn test_bsi_codec_type() {
    let codec = BsiTr031111Codec {
        uint_bytes: Some(4),
        compressed_points: false,
    };
    let v = u_from_u64(0x0102);
    let enc = codec.encode_uint(&v).unwrap();
    assert_eq!(enc, vec![0x00, 0x00, 0x01, 0x02]);
    let dec = codec.decode_uint(&enc).unwrap();
    assert!(u_eq(&dec, &v));
    // a value too wide for the configured length is rejected
    let wide = w_hex("01 02 03 04 05");
    assert!(codec.encode_uint(&wide).is_err());

    let curve = secp256r1().unwrap();
    let dflt = BsiTr031111Codec::new();
    let p = curve.generator();
    let enc_p = dflt.encode_point(&p);
    assert_eq!(enc_p.len(), 33);
    let back = dflt.decode_point(&curve, &enc_p).unwrap();
    assert!(back.eq_point(&p));
    let e = codec.encode_element(&curve.base_field().from_u64(7));
    let d = codec.decode_element(curve.base_field(), &e).unwrap();
    assert!(u_eq(&d.to_uint(), &u_from_u64(7)));
}
