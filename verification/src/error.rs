//! Error kinds surfaced by the cryptographic core.

use vstd::prelude::*;

verus! {

/// Everything that a codec, constructor or verification can report.
#[derive(Clone, Copy, Debug, PartialEq, Eq, Structural)]
pub enum Error {
    /// Curve or group construction rejected its parameters.
    ParameterInvalid,
    /// A wire encoding is malformed: short input, unknown leading byte,
    /// oversize length.
    EncodingMalformed,
    /// A wire encoding is well-formed but not canonical, under strict policy.
    EncodingNonCanonical,
    /// An algorithm, OID or parameter choice this core does not support.
    AlgorithmUnsupported,
    /// An elliptic-curve point failed validation.
    PointInvalid,
    /// A signature check failed its final equality.
    SignatureInvalid,
    /// Inversion of zero, square root of a non-residue, or a degenerate
    /// key-agreement result.
    ArithmeticFailure,
}

impl Error {
    /// A short name for diagnostics.
    pub fn as_str(&self) -> (r: &'static str)
        ensures
            r@.len() > 0,
    {
        let s = match self {
            Error::ParameterInvalid => "parameter invalid",
            Error::EncodingMalformed => "encoding malformed",
            Error::EncodingNonCanonical => "encoding non-canonical",
            Error::AlgorithmUnsupported => "algorithm unsupported",
            Error::PointInvalid => "point invalid",
            Error::SignatureInvalid => "signature invalid",
            Error::ArithmeticFailure => "arithmetic failure",
        };
        proof {
            reveal_strlit("parameter invalid");
            reveal_strlit("encoding malformed");
            reveal_strlit("encoding non-canonical");
            reveal_strlit("algorithm unsupported");
            reveal_strlit("point invalid");
            reveal_strlit("signature invalid");
            reveal_strlit("arithmetic failure");
        }
        s
    }
}

} // verus!
