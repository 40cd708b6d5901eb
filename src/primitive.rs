//! The group primitive: the types and functions of `schnorrkel` that this
//! library calls, each with the contract that it is trusted to meet.
//!
//! Each value of `schnorrkel` is held together with a ghost model: the bytes
//! of its canonical encoding. The contracts below speak of these models.
use vstd::prelude::*;

use schnorrkel::errors::MultiSignatureStage;
use schnorrkel::derive::{ChainCode, Derivation};
use schnorrkel::{ExpansionMode, SignatureError};

verus! {

#[verifier::external_type_specification]
pub struct ExMultiSignatureStage(MultiSignatureStage);

#[verifier::external_type_specification]
pub struct ExSignatureError(SignatureError);

// ---- Names for what the group primitive computes ----

/// The 96-byte encoding (secret half in Ed25519 layout, then the compressed
/// public point) of the keypair that a 32-byte seed expands to.
pub uninterp spec fn expanded_pair(seed: Seq<u8>) -> Seq<u8>;

/// Whether 32 bytes are the canonical encoding of a Ristretto point.
pub uninterp spec fn ristretto_decodes(b: Seq<u8>) -> bool;

/// The compressed public point of a secret scalar, given as the 32 bytes of
/// its Ed25519 layout (the scalar times the cofactor).
pub uninterp spec fn public_of_secret(key: Seq<u8>) -> Seq<u8>;

/// The 32-byte seed that a hard derivation from a secret scalar (32 bytes in
/// Ed25519 layout) and a 32-byte chain code yields.
pub uninterp spec fn hard_child(key: Seq<u8>, cc: Seq<u8>) -> Seq<u8>;

/// The secret scalar (32 bytes in Ed25519 layout) of the keypair that a soft
/// derivation yields from a parent's secret scalar, the parent's public point
/// and a 32-byte chain code.
pub uninterp spec fn soft_key(key: Seq<u8>, public: Seq<u8>, cc: Seq<u8>) -> Seq<u8>;

/// The compressed public point that a soft derivation from a compressed
/// public point and a 32-byte chain code yields.
pub uninterp spec fn soft_public(public: Seq<u8>, cc: Seq<u8>) -> Seq<u8>;

/// Whether 32 bytes (high bit cleared) pass the scalar check of signature
/// decoding.
pub uninterp spec fn canonical_scalar(b: Seq<u8>) -> bool;

/// Whether a 64-byte signature satisfies the group equation for a signing
/// context, a message and a compressed public point.
pub uninterp spec fn schnorr_accepts(ctx: Seq<u8>, msg: Seq<u8>, public: Seq<u8>, sig: Seq<u8>) -> bool;

// ---- Encodings ----

/// The secret scalar of a keypair or secret key encoding, in Ed25519 layout.
pub open spec fn key_part(secret: Seq<u8>) -> Seq<u8> {
    secret.subrange(0, 32)
}

/// The public half of a keypair encoding.
pub open spec fn public_half(pair: Seq<u8>) -> Seq<u8> {
    pair.subrange(64, 96)
}

/// An encoding in Ed25519 layout stores the secret scalar times the cofactor
/// eight, so its three lowest bits are always clear; decoding drops them.
pub open spec fn clear_cofactor_bits(b: Seq<u8>) -> Seq<u8> {
    b.update(0, b[0] & 248u8)
}

/// What the encoding of every keypair of the group primitive satisfies: the
/// layout, a valid public point, and a public point that belongs to the
/// secret half.
pub open spec fn pair_well_formed(pair: Seq<u8>) -> bool {
    &&& pair.len() == 96
    &&& pair[0] & 7u8 == 0
    &&& ristretto_decodes(public_half(pair))
    &&& public_of_secret(key_part(pair)) == public_half(pair)
}

/// The scalar half of a signature encoding, without its marker bit.
pub open spec fn signature_scalar(sig: Seq<u8>) -> Seq<u8> {
    sig.subrange(32, 64).update(31, sig[63] & 127u8)
}

/// Whether 64 bytes decode as a signature: the marker bit of this scheme is
/// set and the scalar is canonical.
pub open spec fn signature_decodes(sig: Seq<u8>) -> bool {
    &&& sig.len() == 64
    &&& sig[63] & 128u8 != 0
    &&& canonical_scalar(signature_scalar(sig))
}

// ---- Types ----

#[verifier::external_type_specification]
#[verifier::external_body]
pub struct ExMiniSecretKey(schnorrkel::MiniSecretKey);

/// A 32-byte seed of the group primitive.
pub struct MiniSecret {
    pub(crate) inner: schnorrkel::MiniSecretKey,
    /// The seed's bytes.
    pub model: Ghost<Seq<u8>>,
}

/// Relies on `schnorrkel::MiniSecretKey::from_bytes`: it accepts exactly the
/// slices of 32 bytes and keeps them as they are.
#[verifier::external_body]
pub(crate) fn mini_from_bytes(b: &[u8]) -> (r: Result<MiniSecret, SignatureError>)
    ensures
        r is Ok <==> b@.len() == 32,
        r is Ok ==> r->Ok_0.model@ == b@,
        r is Err ==> r->Err_0 is BytesLengthError,
{
    schnorrkel::MiniSecretKey::from_bytes(b).map(|k| MiniSecret { inner: k, model: Ghost(b@) })
}

#[verifier::external_type_specification]
#[verifier::external_body]
pub struct ExSecretKey(schnorrkel::SecretKey);

#[verifier::external_type_specification]
#[verifier::external_body]
pub struct ExPublicKey(schnorrkel::PublicKey);

#[verifier::external_type_specification]
#[verifier::external_body]
pub struct ExKeypair(schnorrkel::Keypair);

#[verifier::external_type_specification]
#[verifier::external_body]
pub struct ExSignature(schnorrkel::Signature);

/// A secret key of the group primitive.
pub struct Secret {
    pub(crate) inner: schnorrkel::SecretKey,
    /// Its 64-byte encoding in Ed25519 layout.
    pub model: Ghost<Seq<u8>>,
}

/// A public key of the group primitive.
pub struct Public {
    pub(crate) inner: schnorrkel::PublicKey,
    /// Its compressed point.
    pub model: Ghost<Seq<u8>>,
}

/// A keypair of the group primitive.
pub struct Pair {
    pub(crate) inner: schnorrkel::Keypair,
    /// Its 96-byte encoding: the secret in Ed25519 layout, then the public
    /// point.
    pub model: Ghost<Seq<u8>>,
}

/// A signature of the group primitive.
pub struct Sig {
    pub(crate) inner: schnorrkel::Signature,
    /// Its 64-byte encoding.
    pub model: Ghost<Seq<u8>>,
}

/// Relies on `schnorrkel::MiniSecretKey::expand_to_keypair` in Ed25519 mode:
/// the keypair depends on the seed alone, and its public key is computed from
/// its secret.
#[verifier::external_body]
pub(crate) fn expand_pair(m: &MiniSecret) -> (r: Pair)
    ensures
        r.model@ == expanded_pair(m.model@),
        pair_well_formed(r.model@),
{
    let k = m.inner.expand_to_keypair(ExpansionMode::Ed25519);
    Pair { inner: k, model: Ghost(expanded_pair(m.model@)) }
}

/// Relies on `schnorrkel::Keypair::from_half_ed25519_bytes`: it takes 96
/// bytes, divides the secret scalar by the cofactor (dropping its three
/// lowest bits) and decodes the public point, which it does not compare with
/// the secret.
#[verifier::external_body]
pub(crate) fn pair_from_half_ed25519(b: &[u8]) -> (r: Result<Pair, SignatureError>)
    ensures
        b@.len() != 96 ==> r matches Err(SignatureError::BytesLengthError { .. }),
        b@.len() == 96 ==> (r is Ok <==> ristretto_decodes(public_half(b@))),
        b@.len() == 96 && r is Err ==> r->Err_0 is PointDecompressionError,
        r is Ok ==> r->Ok_0.model@ == clear_cofactor_bits(b@),
{
    schnorrkel::Keypair::from_half_ed25519_bytes(b).map(
        |k| Pair { inner: k, model: Ghost(clear_cofactor_bits(b@)) },
    )
}

/// Relies on `schnorrkel::Keypair::to_half_ed25519_bytes`.
#[verifier::external_body]
pub(crate) fn pair_to_bytes(p: &Pair) -> (r: Vec<u8>)
    ensures
        r@ == p.model@,
{
    p.inner.to_half_ed25519_bytes().to_vec()
}

/// Relies on `schnorrkel::SecretKey::to_public`: the public point depends on
/// the secret scalar alone.
#[verifier::external_body]
pub(crate) fn public_of_secret_key(s: &Secret) -> (r: Public)
    ensures
        r.model@ == public_of_secret(key_part(s.model@)),
        r.model@.len() == 32,
        ristretto_decodes(r.model@),
{
    let k = s.inner.to_public();
    Public { inner: k, model: Ghost(public_of_secret(key_part(s.model@))) }
}

/// Relies on `schnorrkel::PublicKey::from_bytes`: it takes 32 bytes that
/// decompress to a Ristretto point and keeps them as its encoding.
#[verifier::external_body]
pub(crate) fn public_from_bytes(b: &[u8]) -> (r: Result<Public, SignatureError>)
    ensures
        b@.len() != 32 ==> r matches Err(SignatureError::BytesLengthError { .. }),
        b@.len() == 32 ==> (r is Ok <==> ristretto_decodes(b@)),
        b@.len() == 32 && r is Err ==> r->Err_0 is PointDecompressionError,
        r is Ok ==> r->Ok_0.model@ == b@,
{
    schnorrkel::PublicKey::from_bytes(b).map(|k| Public { inner: k, model: Ghost(b@) })
}

/// Relies on `schnorrkel::PublicKey::to_bytes`.
#[verifier::external_body]
pub(crate) fn public_to_bytes(p: &Public) -> (r: Vec<u8>)
    ensures
        r@ == p.model@,
{
    p.inner.to_bytes().to_vec()
}

/// Relies on `schnorrkel::SecretKey::hard_derive_mini_secret_key` with a
/// chain code and an empty extra input: the child seed depends on the
/// secret scalar and the chain code alone.
#[verifier::external_body]
pub(crate) fn hard_derive(p: &Pair, cc: &Vec<u8>) -> (r: MiniSecret)
    requires
        cc@.len() == 32,
    ensures
        r.model@ == hard_child(key_part(p.model@), cc@),
        r.model@.len() == 32,
{
    let mut code = [0u8; 32];
    code.copy_from_slice(cc);
    let (k, _) = p.inner.secret.hard_derive_mini_secret_key(Some(ChainCode(code)), &[]);
    MiniSecret { inner: k, model: Ghost(hard_child(key_part(p.model@), cc@)) }
}

/// Relies on `Derivation::derived_key_simple` of `schnorrkel::Keypair`, with
/// an empty extra input. The child secret scalar is the parent's plus an
/// offset hashed from the parent's public point and the chain code, and the
/// child public point is computed from the child secret; the public-only
/// derivation adds the same offset times the base point to the parent's
/// point. So where the parent's public point belongs to its secret, the
/// child's public point is the one the public-only derivation gives. The
/// child's nonce seed draws on fresh randomness: nothing is stated of it.
#[verifier::external_body]
pub(crate) fn soft_derive_pair(p: &Pair, cc: &Vec<u8>) -> (r: Pair)
    requires
        cc@.len() == 32,
    ensures
        key_part(r.model@) == soft_key(key_part(p.model@), public_half(p.model@), cc@),
        pair_well_formed(r.model@),
        public_of_secret(key_part(p.model@)) == public_half(p.model@) ==> public_half(r.model@)
            == soft_public(public_half(p.model@), cc@),
{
    let mut code = [0u8; 32];
    code.copy_from_slice(cc);
    let (k, _) = p.inner.derived_key_simple(ChainCode(code), &[]);
    Pair { inner: k, model: Ghost(arbitrary()) }
}

/// Relies on `Derivation::derived_key_simple` of `schnorrkel::PublicKey`, with
/// an empty extra input: the result is a compressed valid point.
#[verifier::external_body]
pub(crate) fn soft_derive_public(p: &Public, cc: &Vec<u8>) -> (r: Public)
    requires
        cc@.len() == 32,
    ensures
        r.model@ == soft_public(p.model@, cc@),
        r.model@.len() == 32,
        ristretto_decodes(r.model@),
{
    let mut code = [0u8; 32];
    code.copy_from_slice(cc);
    let (k, _) = p.inner.derived_key_simple(ChainCode(code), &[]);
    Public { inner: k, model: Ghost(soft_public(p.model@, cc@)) }
}

/// Relies on `schnorrkel::SecretKey::from_ed25519_bytes`: it takes any 64
/// bytes and divides the scalar by the cofactor, dropping its three lowest
/// bits.
#[verifier::external_body]
pub(crate) fn secret_from_ed25519(b: &[u8]) -> (r: Result<Secret, SignatureError>)
    ensures
        r is Ok <==> b@.len() == 64,
        r is Err ==> r->Err_0 is BytesLengthError,
        r is Ok ==> r->Ok_0.model@ == clear_cofactor_bits(b@),
{
    schnorrkel::SecretKey::from_ed25519_bytes(b).map(
        |k| Secret { inner: k, model: Ghost(clear_cofactor_bits(b@)) },
    )
}

/// Relies on `schnorrkel::SecretKey::sign_simple`. The nonce draws on fresh
/// randomness, so only what holds of every outcome is stated: the encoding
/// decodes, and a signature made with the public key of the secret satisfies
/// the group equation.
#[verifier::external_body]
pub(crate) fn sign_simple(s: &Secret, ctx: &Vec<u8>, msg: &[u8], p: &Public) -> (r: Sig)
    ensures
        signature_decodes(r.model@),
        public_of_secret(key_part(s.model@)) == p.model@ ==> schnorr_accepts(ctx@, msg@, p.model@, r.model@),
{
    let k = s.inner.sign_simple(ctx, msg, &p.inner);
    Sig { inner: k, model: Ghost(arbitrary()) }
}

/// Relies on `schnorrkel::Signature::from_bytes`: 64 bytes with the marker
/// bit set and a scalar that passes its check, kept as they are.
#[verifier::external_body]
pub(crate) fn sig_from_bytes(b: &[u8]) -> (r: Result<Sig, SignatureError>)
    ensures
        b@.len() != 64 ==> r matches Err(SignatureError::BytesLengthError { .. }),
        b@.len() == 64 && b@[63] & 128u8 == 0 ==> r matches Err(SignatureError::NotMarkedSchnorrkel),
        b@.len() == 64 && b@[63] & 128u8 != 0 ==> (r is Ok <==> canonical_scalar(signature_scalar(b@))),
        b@.len() == 64 && b@[63] & 128u8 != 0 && r is Err ==> r->Err_0 is ScalarFormatError,
        r is Ok ==> r->Ok_0.model@ == b@,
{
    schnorrkel::Signature::from_bytes(b).map(|k| Sig { inner: k, model: Ghost(b@) })
}

/// Relies on `schnorrkel::Signature::to_bytes`.
#[verifier::external_body]
pub(crate) fn sig_to_bytes(s: &Sig) -> (r: Vec<u8>)
    ensures
        r@ == s.model@,
{
    s.inner.to_bytes().to_vec()
}

/// Relies on `schnorrkel::PublicKey::verify_simple`: it fails only with
/// `EquationFalse`.
#[verifier::external_body]
pub(crate) fn verify_simple(p: &Public, ctx: &Vec<u8>, msg: &[u8], s: &Sig) -> (r: Result<(), SignatureError>)
    ensures
        r is Ok <==> schnorr_accepts(ctx@, msg@, p.model@, s.model@),
        r is Err ==> r->Err_0 is EquationFalse,
{
    p.inner.verify_simple(ctx, msg, &s.inner)
}

} // verus!
