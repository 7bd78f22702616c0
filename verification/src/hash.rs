//! Message digests: the algorithms the signature formats name, behind
//! named result functions.

use sha1::Digest;
use vstd::prelude::*;

verus! {

/// The SHA-1 digest of a byte string.
pub uninterp spec fn sha1_of(data: Seq<u8>) -> Seq<u8>;

/// The SHA-256 digest of a byte string.
pub uninterp spec fn sha256_of(data: Seq<u8>) -> Seq<u8>;

/// The SHA-384 digest of a byte string.
pub uninterp spec fn sha384_of(data: Seq<u8>) -> Seq<u8>;

/// The SHA-512 digest of a byte string.
pub uninterp spec fn sha512_of(data: Seq<u8>) -> Seq<u8>;

/// Relies on the sha1 crate's `Sha1`: a 20-byte digest of the input alone.
#[verifier::external_body]
pub fn sha1_hash(data: &[u8]) -> (r: Vec<u8>)
    ensures
        r@ == sha1_of(data@),
        r@.len() == 20,
{
    let mut h = sha1::Sha1::new();
    h.update(data);
    h.finalize().to_vec()
}

/// Relies on the sha2 crate's `Sha256`: a 32-byte digest of the input alone.
#[verifier::external_body]
pub fn sha256_hash(data: &[u8]) -> (r: Vec<u8>)
    ensures
        r@ == sha256_of(data@),
        r@.len() == 32,
{
    let mut h = sha2::Sha256::new();
    h.update(data);
    h.finalize().to_vec()
}

/// Relies on the sha2 crate's `Sha384`: a 48-byte digest of the input alone.
#[verifier::external_body]
pub fn sha384_hash(data: &[u8]) -> (r: Vec<u8>)
    ensures
        r@ == sha384_of(data@),
        r@.len() == 48,
{
    let mut h = sha2::Sha384::new();
    h.update(data);
    h.finalize().to_vec()
}

/// Relies on the sha2 crate's `Sha512`: a 64-byte digest of the input alone.
#[verifier::external_body]
pub fn sha512_hash(data: &[u8]) -> (r: Vec<u8>)
    ensures
        r@ == sha512_of(data@),
        r@.len() == 64,
{
    let mut h = sha2::Sha512::new();
    h.update(data);
    h.finalize().to_vec()
}

/// How a digest algorithm identifier carried its parameters field, kept so
/// re-encoding round-trips exactly.
#[derive(Clone, Copy, Debug, PartialEq, Eq, Structural)]
pub enum DigestAlgorithmParameters {
    /// Parameters absent.
    Absent,
    /// An explicit ASN.1 NULL.
    Null,
}

/// A digest algorithm identifier over the supported digest OIDs.
#[derive(Clone, Copy, Debug, PartialEq, Eq, Structural)]
pub enum DigestAlgorithmIdentifier {
    Sha1(DigestAlgorithmParameters),
    Sha256(DigestAlgorithmParameters),
    Sha384(DigestAlgorithmParameters),
    Sha512(DigestAlgorithmParameters),
}

/// The digest an identifier computes.
pub open spec fn digest_of(alg: DigestAlgorithmIdentifier, data: Seq<u8>) -> Seq<u8> {
    match alg {
        DigestAlgorithmIdentifier::Sha1(_) => sha1_of(data),
        DigestAlgorithmIdentifier::Sha256(_) => sha256_of(data),
        DigestAlgorithmIdentifier::Sha384(_) => sha384_of(data),
        DigestAlgorithmIdentifier::Sha512(_) => sha512_of(data),
    }
}

/// The identifier's digest output length.
pub open spec fn spec_hash_len(alg: DigestAlgorithmIdentifier) -> nat {
    match alg {
        DigestAlgorithmIdentifier::Sha1(_) => 20,
        DigestAlgorithmIdentifier::Sha256(_) => 32,
        DigestAlgorithmIdentifier::Sha384(_) => 48,
        DigestAlgorithmIdentifier::Sha512(_) => 64,
    }
}

impl DigestAlgorithmIdentifier {
    /// Computes the digest this identifier names.
    pub fn hash_bytes(&self, data: &[u8]) -> (r: Vec<u8>)
        ensures
            r@ == digest_of(*self, data@),
            r@.len() == spec_hash_len(*self),
    {
        match self {
            DigestAlgorithmIdentifier::Sha1(_) => sha1_hash(data),
            DigestAlgorithmIdentifier::Sha256(_) => sha256_hash(data),
            DigestAlgorithmIdentifier::Sha384(_) => sha384_hash(data),
            DigestAlgorithmIdentifier::Sha512(_) => sha512_hash(data),
        }
    }

    /// The digest output length in bytes.
    pub fn hash_len(&self) -> (r: usize)
        ensures
            r == spec_hash_len(*self),
    {
        match self {
            DigestAlgorithmIdentifier::Sha1(_) => 20,
            DigestAlgorithmIdentifier::Sha256(_) => 32,
            DigestAlgorithmIdentifier::Sha384(_) => 48,
            DigestAlgorithmIdentifier::Sha512(_) => 64,
        }
    }
}

} // verus!
