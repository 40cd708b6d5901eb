use vstd::prelude::*;

use schnorrkel::SignatureError;

verus! {

/// What can go wrong with the inputs of this library. A signature that does
/// not satisfy the group equation is not among them: verification answers
/// `false` for it.
#[derive(Debug, Clone, Copy, PartialEq, Eq, Structural)]
pub enum Error {
    /// A key or signature of the wrong length, or with bits that its
    /// encoding forbids, or a keypair whose halves do not belong together.
    MalformedEncoding,
    /// A chain code longer than 32 bytes.
    InvalidChainCode,
    /// A seed that is not exactly 32 bytes long.
    InvalidSeedLength,
    /// 32 bytes that are not the encoding of a group element.
    InvalidPoint,
    /// 32 bytes that are not the canonical encoding of a scalar.
    InvalidScalar,
}

/// The library's error for a decoding failure of the group primitive.
pub open spec fn error_of(e: SignatureError) -> Error {
    match e {
        SignatureError::PointDecompressionError => Error::InvalidPoint,
        SignatureError::ScalarFormatError => Error::InvalidScalar,
        _ => Error::MalformedEncoding,
    }
}

/// Maps a decoding failure of the group primitive to the library's error.
pub fn map_signature_error(e: &SignatureError) -> (r: Error)
    ensures
        r == error_of(*e),
{
    match e {
        SignatureError::PointDecompressionError => Error::InvalidPoint,
        SignatureError::ScalarFormatError => Error::InvalidScalar,
        _ => Error::MalformedEncoding,
    }
}

} // verus!
