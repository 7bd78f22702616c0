//! Chip Authentication command framing (ICAO 9303-11 §6.2): the pure
//! APDU construction; sending the commands and reading responses is the
//! transport's business.

use vstd::prelude::*;
use crate::error::Error;

verus! {

/// Builds the MSE:Set AT command selecting a Chip Authentication
/// protocol: tag 0x80 carries the protocol OID, and tag 0x84 a one-byte
/// private-key reference when one is given.
pub fn mset_at_apdu(protocol_oid: &[u8], key_id: Option<u64>) -> (r: Result<Vec<u8>, Error>)
    ensures
        r is Ok <==> (protocol_oid@.len() <= 128 && (key_id is Some ==> key_id.unwrap() < 256)),
        r is Ok ==> r.unwrap()@ == seq![0x00u8, 0x22, 0x41, 0xa4, ((protocol_oid@.len() + 2 + (
            if key_id is Some {
                3nat
            } else {
                0nat
            })) as u8), 0x80, protocol_oid@.len() as u8] + protocol_oid@ + (if key_id is Some {
            seq![0x84u8, 0x01, key_id.unwrap() as u8]
        } else {
            Seq::<u8>::empty()
        }),
{
    let n = protocol_oid.len();
    if n > 128 {
        return Err(Error::EncodingMalformed);
    }
    if let Some(id) = key_id {
        if id >= 256 {
            return Err(Error::EncodingMalformed);
        }
    }
    let body_len = n + 2 + (if key_id.is_some() { 3 } else { 0 });
    let mut apdu: Vec<u8> = Vec::new();
    apdu.push(0x00);
    apdu.push(0x22);
    apdu.push(0x41);
    apdu.push(0xa4);
    apdu.push(body_len as u8);
    apdu.push(0x80);
    apdu.push(n as u8);
    let mut oid: Vec<u8> = Vec::new();
    oid.extend_from_slice(protocol_oid);
    apdu.append(&mut oid);
    match key_id {
        Some(id) => {
            apdu.push(0x84);
            apdu.push(0x01);
            apdu.push(id as u8);
            proof {
                assert(apdu@ =~= seq![0x00u8, 0x22, 0x41, 0xa4, (protocol_oid@.len()
                    + 5) as u8, 0x80, protocol_oid@.len() as u8] + protocol_oid@ + seq![
                    0x84u8, 0x01, id as u8]);
            }
        },
        None => {
            proof {
                assert(apdu@ =~= seq![0x00u8, 0x22, 0x41, 0xa4, (protocol_oid@.len()
                    + 2) as u8, 0x80, protocol_oid@.len() as u8] + protocol_oid@
                    + Seq::<u8>::empty());
            }
        },
    }
    Ok(apdu)
}

/// Builds the GENERAL AUTHENTICATE command carrying an ephemeral public
/// key in a dynamic authentication data object (tag 0x7C/0x80).
pub fn general_authenticate_apdu(public_key: &[u8]) -> (r: Result<Vec<u8>, Error>)
    ensures
        r is Ok <==> public_key@.len() <= 251,
        r is Ok ==> r.unwrap()@ == seq![0x00u8, 0x86, 0x00, 0x00, (public_key@.len()
            + 4) as u8, 0x7c, (public_key@.len() + 2) as u8, 0x80, public_key@.len() as u8]
            + public_key@,
{
    let n = public_key.len();
    if n > 251 {
        return Err(Error::EncodingMalformed);
    }
    let mut apdu: Vec<u8> = Vec::new();
    apdu.push(0x00);
    apdu.push(0x86);
    apdu.push(0x00);
    apdu.push(0x00);
    apdu.push((n + 4) as u8);
    apdu.push(0x7c);
    apdu.push((n + 2) as u8);
    apdu.push(0x80);
    apdu.push(n as u8);
    let mut pk: Vec<u8> = Vec::new();
    pk.extend_from_slice(public_key);
    apdu.append(&mut pk);
    proof {
        assert(apdu@ =~= seq![0x00u8, 0x86, 0x00, 0x00, (public_key@.len() + 4) as u8, 0x7c, (
        public_key@.len() + 2) as u8, 0x80, public_key@.len() as u8] + public_key@);
    }
    Ok(apdu)
}

} // verus!
