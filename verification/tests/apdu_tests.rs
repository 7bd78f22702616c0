//! APDU framing, status words and the plain-text secure-messaging
//! protocol.

use mrtd_crypto::iso7816::{parse_apdu, Error, StatusWord};
use mrtd_crypto::secure::{PlainText, SecureMessaging};

#[test]
fn test_parse_apdu_short_forms() {
    // header only
    let a = parse_apdu(&[0x00, 0xA4, 0x04, 0x0C]).unwrap();
    assert_eq!(a.header, vec![0x00, 0xA4, 0x04, 0x0C]);
    assert!(a.lc.is_empty() && a.data.is_empty() && a.le.is_empty());
    assert_eq!(a.cla(), 0x00);
    assert_eq!(a.ins(), 0xA4);
    assert_eq!(a.p1(), 0x04);
    assert_eq!(a.p2(), 0x0C);
    assert!(!a.is_extended_length());

    // header and Le
    let b = parse_apdu(&[0x00, 0xB0, 0x00, 0x00, 0x10]).unwrap();
    assert_eq!(b.le, vec![0x10]);

    // header, Lc and data
    let c = parse_apdu(&[0x00, 0xD6, 0x00, 0x00, 0x02, 0xAA, 0xBB]).unwrap();
    assert_eq!(c.lc, vec![0x02]);
    assert_eq!(c.data, vec![0xAA, 0xBB]);
    assert!(c.le.is_empty());

    // header, Lc, data and Le
    let d = parse_apdu(&[0x00, 0xD6, 0x00, 0x00, 0x02, 0xAA, 0xBB, 0x20]).unwrap();
    assert_eq!(d.data, vec![0xAA, 0xBB]);
    assert_eq!(d.le, vec![0x20]);
}

#[test]
fn test_parse_apdu_extended_forms() {
    // extended Le only
    let a = parse_apdu(&[0x00, 0xB0, 0x00, 0x00, 0x00, 0x01, 0x00]).unwrap();
    assert_eq!(a.le, vec![0x00, 0x01, 0x00]);
    assert!(a.is_extended_length());

    // extended Lc with data, no Le
    let b = parse_apdu(&[0x00, 0xD6, 0x00, 0x00, 0x00, 0x00, 0x02, 0xAA, 0xBB]).unwrap();
    assert_eq!(b.lc, vec![0x00, 0x00, 0x02]);
    assert_eq!(b.data, vec![0xAA, 0xBB]);

    // extended Lc with data and Le
    let c = parse_apdu(&[0x00, 0xD6, 0x00, 0x00, 0x00, 0x00, 0x02, 0xAA, 0xBB, 0x01, 0x00])
        .unwrap();
    assert_eq!(c.data, vec![0xAA, 0xBB]);
    assert_eq!(c.le, vec![0x01, 0x00]);
}

#[test]
fn test_parse_apdu_errors() {
    assert_eq!(parse_apdu(&[0x00, 0xA4]).unwrap_err(), Error::ApduTooShort);
    assert_eq!(
        parse_apdu(&[0x00, 0xD6, 0x00, 0x00, 0x00, 0x99]).unwrap_err(),
        Error::LcZero
    );
    assert_eq!(
        parse_apdu(&[0x00, 0xD6, 0x00, 0x00, 0x00, 0x00, 0x00, 0xAA]).unwrap_err(),
        Error::ExtendedLcZero
    );
    assert_eq!(
        parse_apdu(&[0x00, 0xD6, 0x00, 0x00, 0x00, 0x00, 0x02, 0xAA]).unwrap_err(),
        Error::ExtendedApduTooLong
    );
    assert_eq!(
        parse_apdu(&[0x00, 0xD6, 0x00, 0x00, 0x05, 0xAA, 0xBB]).unwrap_err(),
        Error::ApduTooLong
    );
}

#[test]
fn test_status_word_classes() {
    let ok = StatusWord(0x9000);
    assert!(ok.is_success());
    assert!(ok.is_valid());
    assert!(!ok.is_error());
    assert_eq!(ok.sw1(), 0x90);
    assert_eq!(ok.sw2(), 0x00);
    assert_eq!(ok.class_as_str(), "Success");
    assert_eq!(ok.as_str(), "Success");

    let more = StatusWord(0x6110);
    assert!(more.is_success());
    assert_eq!(more.data_remaining(), Some(0x10));

    let warn = StatusWord(0x6283);
    assert!(warn.is_warning());
    assert_eq!(warn.as_str(), "Selected file invalidated");

    let denied = StatusWord(0x6982);
    assert!(denied.is_error());
    assert!(denied.is_checking_error());
    assert!(!denied.is_execution_error());
    assert_eq!(denied.as_str(), "Security status not satisfied");

    let exec = StatusWord(0x6581);
    assert!(exec.is_execution_error());
    assert_eq!(exec.as_str(), "Memory failure");

    let invalid = StatusWord(0x1234);
    assert!(!invalid.is_valid());
    assert_eq!(invalid.class_as_str(), "Invalid");
}

#[test]
fn test_plain_text_secure_messaging() {
    let mut sm = PlainText;
    let apdu = vec![0x00, 0xA4, 0x04, 0x0C];
    assert_eq!(sm.enc_apdu(&apdu).unwrap(), apdu);
    let resp = vec![0x01, 0x02];
    assert_eq!(sm.dec_response(StatusWord(0x9000), &resp).unwrap(), resp);
}

#[test]
fn test_general_authenticate_apdu() {
    let pk = vec![0xAAu8; 5];
    let apdu = mrtd_crypto::chipauth::general_authenticate_apdu(&pk).unwrap();
    assert_eq!(
        apdu,
        vec![0x00, 0x86, 0x00, 0x00, 0x09, 0x7C, 0x07, 0x80, 0x05, 0xAA, 0xAA, 0xAA, 0xAA, 0xAA]
    );
    // an oversized key cannot be framed in a short APDU
    assert!(mrtd_crypto::chipauth::general_authenticate_apdu(&[0u8; 300]).is_err());
}

#[test]
fn test_mset_at_apdu() {
    let oid = vec![0x04, 0x00, 0x7F, 0x00, 0x07];
    let apdu = mrtd_crypto::chipauth::mset_at_apdu(&oid, None).unwrap();
    assert_eq!(
        apdu,
        vec![0x00, 0x22, 0x41, 0xA4, 0x07, 0x80, 0x05, 0x04, 0x00, 0x7F, 0x00, 0x07]
    );
    let apdu2 = mrtd_crypto::chipauth::mset_at_apdu(&oid, Some(1)).unwrap();
    assert_eq!(
        apdu2,
        vec![0x00, 0x22, 0x41, 0xA4, 0x0A, 0x80, 0x05, 0x04, 0x00, 0x7F, 0x00, 0x07, 0x84, 0x01, 0x01]
    );
    assert!(mrtd_crypto::chipauth::mset_at_apdu(&oid, Some(300)).is_err());
}
