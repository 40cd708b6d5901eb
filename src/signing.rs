//! Signing and verification under the scheme-wide signing context.
use vstd::prelude::*;

use crate::error::{map_signature_error, Error};
use crate::keys::public_outcome;
use crate::primitive::{
    canonical_scalar, clear_cofactor_bits, key_part, public_from_bytes, public_of_secret,
    ristretto_decodes, schnorr_accepts, secret_from_ed25519, sig_from_bytes, sig_to_bytes,
    sign_simple, signature_decodes, signature_scalar, verify_simple,
};
use schnorrkel::SignatureError;

verus! {

/// The signing context: the bytes of "substrate".
pub open spec fn signing_context_bytes() -> Seq<u8> {
    seq![115u8, 117u8, 98u8, 115u8, 116u8, 114u8, 97u8, 116u8, 101u8]
}

/// The signing context that binds every signature to this protocol domain.
pub fn signing_context() -> (r: Vec<u8>)
    ensures
        r@ == signing_context_bytes(),
{
    let r: Vec<u8> = vec![115u8, 117u8, 98u8, 115u8, 116u8, 114u8, 97u8, 116u8, 101u8];
    assert(r@ =~= signing_context_bytes());
    r
}

/// Why signing refuses its keys, if it does: the public key is decoded
/// first, then the secret key.
pub open spec fn sign_error(sk: Seq<u8>, pubkey: Seq<u8>) -> Option<Error> {
    match public_outcome(pubkey) {
        Err(e) => Some(e),
        Ok(_) => if sk.len() != 64 {
            Some(Error::MalformedEncoding)
        } else {
            None
        },
    }
}

/// What verification answers: malformed signature or public key encodings
/// are errors; a public key that is not a valid point, or a signature that
/// does not satisfy the group equation, gives `false`.
pub open spec fn verify_outcome(signature: Seq<u8>, message: Seq<u8>, public: Seq<u8>) -> Result<
    bool,
    Error,
> {
    if signature.len() != 64 || signature[63] & 128u8 == 0 {
        Err(Error::MalformedEncoding)
    } else if !canonical_scalar(signature_scalar(signature)) {
        Err(Error::InvalidScalar)
    } else if public.len() != 32 {
        Err(Error::MalformedEncoding)
    } else if !ristretto_decodes(public) {
        Ok(false)
    } else {
        Ok(schnorr_accepts(signing_context_bytes(), message, public, signature))
    }
}

/// Signs a message with a 64-byte secret key (Ed25519 layout) and its 32-byte
/// public key, giving a 64-byte signature. The nonce draws on fresh
/// randomness, so two signatures of one message differ; each of them
/// verifies wherever the public key belongs to the secret key.
pub fn sign(message: Vec<u8>, sk: Vec<u8>, pubkey: Vec<u8>) -> (r: Result<Vec<u8>, Error>)
    ensures
        r is Err <==> sign_error(sk@, pubkey@) is Some,
        r is Err ==> sign_error(sk@, pubkey@) == Some(r->Err_0),
        r is Ok ==> signature_decodes(r->Ok_0@),
        r is Ok && public_of_secret(key_part(clear_cofactor_bits(sk@))) == pubkey@ ==> verify_outcome(
            r->Ok_0@,
            message@,
            pubkey@,
        ) == Ok::<bool, Error>(true),
{
    let public = match public_from_bytes(pubkey.as_slice()) {
        Ok(p) => p,
        Err(e) => {
            return Err(map_signature_error(&e));
        },
    };
    let secret = match secret_from_ed25519(sk.as_slice()) {
        Ok(s) => s,
        Err(e) => {
            return Err(map_signature_error(&e));
        },
    };
    let ctx = signing_context();
    let signature = sign_simple(&secret, &ctx, message.as_slice(), &public);
    Ok(sig_to_bytes(&signature))
}

/// Verifies a signature of a message under a public key. Only malformed
/// encodings are errors; a signature that does not hold is `Ok(false)`.
pub fn verify(signature: &[u8], message: &[u8], public: &[u8]) -> (r: Result<bool, Error>)
    ensures
        r == verify_outcome(signature@, message@, public@),
{
    let sig = match sig_from_bytes(signature) {
        Ok(s) => s,
        Err(e) => {
            return Err(map_signature_error(&e));
        },
    };
    let key = match public_from_bytes(public) {
        Ok(k) => k,
        Err(SignatureError::PointDecompressionError) => {
            return Ok(false);
        },
        Err(e) => {
            return Err(map_signature_error(&e));
        },
    };
    let ctx = signing_context();
    match verify_simple(&key, &ctx, message, &sig) {
        Ok(()) => Ok(true),
        Err(_) => Ok(false),
    }
}

} // verus!
