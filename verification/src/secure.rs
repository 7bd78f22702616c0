//! Secure messaging: the envelope protocols wrap APDUs and responses;
//! the plain-text protocol passes them through unchanged.

use vstd::prelude::*;
use crate::iso7816::StatusWord;
use crate::error::Error;

verus! {

/// A secure-messaging protocol, implemented by the session ciphers that
/// wrap the reader's traffic.
pub trait SecureMessaging {
    /// Protects a command APDU.
    fn enc_apdu(&mut self, apdu: &[u8]) -> Result<Vec<u8>, Error>;

    /// Unprotects a response.
    fn dec_response(&mut self, status: StatusWord, resp: &[u8]) -> Result<Vec<u8>, Error>;
}

/// The identity protocol: APDUs and responses pass as-is.
pub struct PlainText;

impl SecureMessaging for PlainText {
    fn enc_apdu(&mut self, apdu: &[u8]) -> Result<Vec<u8>, Error> {
        let mut out: Vec<u8> = Vec::new();
        out.extend_from_slice(apdu);
        Ok(out)
    }

    fn dec_response(&mut self, _status: StatusWord, resp: &[u8]) -> Result<Vec<u8>, Error> {
        let mut out: Vec<u8> = Vec::new();
        out.extend_from_slice(resp);
        Ok(out)
    }
}

} // verus!
