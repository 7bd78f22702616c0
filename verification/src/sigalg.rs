//! Signature algorithm identifiers: RSASSA-PSS parameters with their
//! RFC 4055 defaults, and the mask generation algorithm choice.

use vstd::prelude::*;
use crate::hash::{DigestAlgorithmIdentifier, DigestAlgorithmParameters};

verus! {

/// A mask generation algorithm: MGF1 over a digest, or an unrecognized
/// algorithm kept as its raw DER bytes.
#[derive(Clone, Debug)]
pub enum MaskGenAlgorithm {
    Mgf1(DigestAlgorithmIdentifier),
    Unknown(Vec<u8>),
}

/// RSASSA-PSS parameters (RFC 4055): hash, mask generation function, salt
/// length and trailer field, with defaults restored when omitted.
#[derive(Clone, Debug)]
pub struct RsaPssParameters {
    pub hash_algorithm: DigestAlgorithmIdentifier,
    pub mask_gen_algorithm: MaskGenAlgorithm,
    pub salt_length: usize,
    pub trailer_field: usize,
}

/// A signature algorithm: RSASSA-PSS, or an unrecognized algorithm kept
/// as its raw DER bytes.
#[derive(Clone, Debug)]
pub enum SignatureAlgorithmIdentifier {
    RsaPss(RsaPssParameters),
    Unknown(Vec<u8>),
}

/// The default hash algorithm: SHA-1 with absent parameters.
pub fn default_hash_algorithm() -> (r: DigestAlgorithmIdentifier)
    ensures
        r == DigestAlgorithmIdentifier::Sha1(DigestAlgorithmParameters::Absent),
{
    DigestAlgorithmIdentifier::Sha1(DigestAlgorithmParameters::Absent)
}

/// The default mask generation algorithm: MGF1 over SHA-1.
pub fn default_mask_gen_algorithm() -> (r: MaskGenAlgorithm)
    ensures
        r == MaskGenAlgorithm::Mgf1(DigestAlgorithmIdentifier::Sha1(
            DigestAlgorithmParameters::Absent,
        )),
{
    MaskGenAlgorithm::Mgf1(DigestAlgorithmIdentifier::Sha1(DigestAlgorithmParameters::Absent))
}

/// The default salt length, 20 bytes.
pub fn default_salt_length() -> (r: usize)
    ensures
        r == 20,
{
    20
}

/// The default trailer field, 1 (the `0xBC` trailer).
pub fn default_trailer_field() -> (r: usize)
    ensures
        r == 1,
{
    1
}

} // verus!
