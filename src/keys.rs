//! Key material and derivation: seed expansion, chain codes, keypair
//! decoding, and hard and soft derivation, all over byte encodings.
use vstd::prelude::*;

use crate::error::{map_signature_error, Error};
use crate::primitive::{
    clear_cofactor_bits, expand_pair, expanded_pair, hard_child, hard_derive, mini_from_bytes,
    pair_from_half_ed25519, pair_to_bytes, pair_well_formed, public_from_bytes,
    public_half, public_of_secret_key, public_of_secret, secret_from_ed25519, public_to_bytes, ristretto_decodes,
    key_part, soft_derive_pair, soft_derive_public, soft_key, soft_public, Pair,
};

verus! {

/// The length of a chain code.
pub const CHAIN_CODE_LENGTH: usize = 32;

/// A byte result seen through the views of its bytes.
pub open spec fn bytes_result(r: Result<Vec<u8>, Error>) -> Result<Seq<u8>, Error> {
    match r {
        Ok(v) => Ok(v@),
        Err(e) => Err(e),
    }
}

/// A chain code of at most 32 bytes, zero-padded on the right to 32.
pub open spec fn chain_code_outcome(data: Seq<u8>) -> Result<Seq<u8>, Error> {
    if data.len() <= 32 {
        Ok(data + Seq::new((32 - data.len()) as nat, |i: int| 0u8))
    } else {
        Err(Error::InvalidChainCode)
    }
}

/// What a keypair encoding decodes to: 96 bytes whose public half is a valid
/// point that belongs to the secret half. The secret's three lowest bits are
/// not part of the key and come back cleared.
pub open spec fn keypair_outcome(pair: Seq<u8>) -> Result<Seq<u8>, Error> {
    if pair.len() != 96 {
        Err(Error::MalformedEncoding)
    } else if !ristretto_decodes(public_half(pair)) {
        Err(Error::InvalidPoint)
    } else if public_of_secret(key_part(clear_cofactor_bits(pair))) != public_half(pair) {
        Err(Error::MalformedEncoding)
    } else {
        Ok(clear_cofactor_bits(pair))
    }
}

/// What a public key encoding decodes to: 32 bytes of a valid point.
pub open spec fn public_outcome(public: Seq<u8>) -> Result<Seq<u8>, Error> {
    if public.len() != 32 {
        Err(Error::MalformedEncoding)
    } else if !ristretto_decodes(public) {
        Err(Error::InvalidPoint)
    } else {
        Ok(public)
    }
}

/// The public key of a 64-byte secret key in Ed25519 layout.
pub open spec fn public_from_secret_outcome(secret: Seq<u8>) -> Result<Seq<u8>, Error> {
    if secret.len() != 64 {
        Err(Error::MalformedEncoding)
    } else {
        Ok(public_of_secret(key_part(clear_cofactor_bits(secret))))
    }
}

/// The keypair that a seed expands to.
pub open spec fn seed_outcome(seed: Seq<u8>) -> Result<Seq<u8>, Error> {
    if seed.len() != 32 {
        Err(Error::InvalidSeedLength)
    } else {
        Ok(expanded_pair(seed))
    }
}

/// The keypair that a hard derivation yields: the child seed comes from the
/// parent's secret scalar and the chain code, and is expanded.
pub open spec fn hard_outcome(pair: Seq<u8>, cc: Seq<u8>) -> Result<Seq<u8>, Error> {
    match keypair_outcome(pair) {
        Err(e) => Err(e),
        Ok(p) => match chain_code_outcome(cc) {
            Err(e) => Err(e),
            Ok(c) => Ok(expanded_pair(hard_child(key_part(p), c))),
        },
    }
}

/// The secret scalar of the keypair that a soft derivation yields.
pub open spec fn soft_outcome(pair: Seq<u8>, cc: Seq<u8>) -> Result<Seq<u8>, Error> {
    match keypair_outcome(pair) {
        Err(e) => Err(e),
        Ok(p) => match chain_code_outcome(cc) {
            Err(e) => Err(e),
            Ok(c) => Ok(soft_key(key_part(p), public_half(p), c)),
        },
    }
}

/// The public key that a public-only soft derivation yields.
pub open spec fn soft_public_outcome(public: Seq<u8>, cc: Seq<u8>) -> Result<Seq<u8>, Error> {
    match public_outcome(public) {
        Err(e) => Err(e),
        Ok(p) => match chain_code_outcome(cc) {
            Err(e) => Err(e),
            Ok(c) => Ok(soft_public(p, c)),
        },
    }
}

/// Builds a chain code: input of at most 32 bytes is zero-padded on the right
/// to 32 bytes; longer input is rejected.
pub fn create_cc(data: &[u8]) -> (r: Result<Vec<u8>, Error>)
    ensures
        bytes_result(r) == chain_code_outcome(data@),
{
    if data.len() > CHAIN_CODE_LENGTH {
        return Err(Error::InvalidChainCode);
    }
    let mut cc: Vec<u8> = Vec::new();
    let mut i: usize = 0;
    while i < data.len()
        invariant
            i <= data@.len() <= 32,
            cc@ == data@.subrange(0, i as int),
        decreases data@.len() - i,
    {
        cc.push(data[i]);
        i = i + 1;
    }
    while cc.len() < CHAIN_CODE_LENGTH
        invariant
            data@.len() <= cc@.len() <= 32,
            cc@.subrange(0, data@.len() as int) == data@,
            forall|j: int| data@.len() <= j < cc@.len() ==> cc@[j] == 0u8,
        decreases 32 - cc@.len(),
    {
        cc.push(0u8);
    }
    assert(cc@ =~= data@ + Seq::new((32 - data@.len()) as nat, |i: int| 0u8));
    Ok(cc)
}

/// Whether 32 bytes of `a` equal the 32 bytes of `b` from offset 64.
fn public_half_matches(a: &Vec<u8>, b: &[u8]) -> (r: bool)
    requires
        a@.len() == 32,
        b@.len() == 96,
    ensures
        r == (a@ == public_half(b@)),
{
    let mut i: usize = 0;
    while i < 32
        invariant
            i <= 32,
            a@.len() == 32,
            b@.len() == 96,
            forall|j: int| 0 <= j < i ==> a@[j] == b@[64 + j],
        decreases 32 - i,
    {
        if a[i] != b[64 + i] {
            assert(a@[i as int] != public_half(b@)[i as int]);
            return false;
        }
        i = i + 1;
    }
    assert(a@ =~= public_half(b@));
    true
}

/// Decodes a keypair and checks that its public key belongs to its secret.
pub(crate) fn decode_keypair(pair: &[u8]) -> (r: Result<Pair, Error>)
    ensures
        match r {
            Ok(p) => keypair_outcome(pair@) == Ok::<Seq<u8>, Error>(p.model@),
            Err(e) => keypair_outcome(pair@) == Err::<Seq<u8>, Error>(e),
        },
{
    let p = match pair_from_half_ed25519(pair) {
        Ok(p) => p,
        Err(e) => {
            return Err(map_signature_error(&e));
        },
    };
    assert(public_half(clear_cofactor_bits(pair@)) =~= public_half(pair@));
    let (secret_bytes, _) = pair.split_at(64);
    assert(key_part(clear_cofactor_bits(secret_bytes@)) =~= key_part(clear_cofactor_bits(pair@)));
    let own = public_from_secret(secret_bytes)?;
    if !public_half_matches(&own, pair) {
        return Err(Error::MalformedEncoding);
    }
    Ok(p)
}

/// The public key of a 64-byte secret key (Ed25519 layout): the secret
/// scalar times the base point, compressed.
pub fn public_from_secret(secret: &[u8]) -> (r: Result<Vec<u8>, Error>)
    ensures
        bytes_result(r) == public_from_secret_outcome(secret@),
        r is Ok ==> public_outcome(r->Ok_0@) == Ok::<Seq<u8>, Error>(r->Ok_0@),
{
    let s = match secret_from_ed25519(secret) {
        Ok(s) => s,
        Err(e) => {
            return Err(map_signature_error(&e));
        },
    };
    Ok(public_to_bytes(&public_of_secret_key(&s)))
}

/// A keypair encoding whose three lowest bits are clear decodes to itself.
proof fn lemma_well_formed_decodes(pair: Seq<u8>)
    requires
        pair_well_formed(pair),
    ensures
        keypair_outcome(pair) == Ok::<Seq<u8>, Error>(pair),
{
    let x = pair[0];
    assert(x & 7u8 == 0 ==> x & 248u8 == x) by (bit_vector);
    assert(clear_cofactor_bits(pair) =~= pair);
}

/// Expands a 32-byte seed into a keypair, encoded as 96 bytes: the secret in
/// Ed25519 layout, then the public point. The result decodes to itself.
pub fn keypair_from_seed(seed: &[u8]) -> (r: Result<Vec<u8>, Error>)
    ensures
        bytes_result(r) == seed_outcome(seed@),
        r is Ok ==> keypair_outcome(r->Ok_0@) == Ok::<Seq<u8>, Error>(r->Ok_0@),
{
    let mini = match mini_from_bytes(seed) {
        Ok(m) => m,
        Err(_) => {
            return Err(Error::InvalidSeedLength);
        },
    };
    let pair = expand_pair(&mini);
    proof {
        lemma_well_formed_decodes(pair.model@);
    }
    Ok(pair_to_bytes(&pair))
}

/// Hard derivation: a child seed from the parent's secret and the chain code,
/// expanded into a keypair. The result decodes to itself.
pub fn derive_keypair_hard(pair: &[u8], cc: &[u8]) -> (r: Result<Vec<u8>, Error>)
    ensures
        bytes_result(r) == hard_outcome(pair@, cc@),
        r is Ok ==> keypair_outcome(r->Ok_0@) == Ok::<Seq<u8>, Error>(r->Ok_0@),
{
    let parent = decode_keypair(pair)?;
    let code = create_cc(cc)?;
    let child = hard_derive(&parent, &code);
    let expanded = expand_pair(&child);
    proof {
        lemma_well_formed_decodes(expanded.model@);
    }
    Ok(pair_to_bytes(&expanded))
}

/// Soft derivation of a keypair. The child's secret scalar follows from the
/// parent and the chain code, its nonce seed is drawn afresh. The result
/// decodes to itself, and its public key is the one that the public-only soft
/// derivation gives for the parent's public key and the same chain code.
pub fn derive_keypair_soft(pair: &[u8], cc: &[u8]) -> (r: Result<Vec<u8>, Error>)
    ensures
        r is Err ==> bytes_result(r) == soft_outcome(pair@, cc@),
        r is Ok ==> soft_outcome(pair@, cc@) == Ok::<Seq<u8>, Error>(key_part(r->Ok_0@)),
        r is Ok ==> keypair_outcome(r->Ok_0@) == Ok::<Seq<u8>, Error>(r->Ok_0@),
        r is Ok ==> soft_public_outcome(public_half(pair@), cc@) == Ok::<Seq<u8>, Error>(
            public_half(r->Ok_0@),
        ),
        r is Ok ==> public_from_secret_outcome(r->Ok_0@.subrange(0, 64)) == soft_public_outcome(
            public_half(pair@),
            cc@,
        ),
{
    let parent = decode_keypair(pair)?;
    let code = create_cc(cc)?;
    let child = soft_derive_pair(&parent, &code);
    proof {
        lemma_well_formed_decodes(child.model@);
        assert(public_half(clear_cofactor_bits(pair@)) =~= public_half(pair@));
        let c = child.model@;
        assert(key_part(clear_cofactor_bits(c.subrange(0, 64))) =~= key_part(clear_cofactor_bits(c)));
    }
    Ok(pair_to_bytes(&child))
}

/// Soft derivation of a bare public key. The result is a valid public key.
pub fn derive_pubkey_soft(pubkey: &[u8], cc: &[u8]) -> (r: Result<Vec<u8>, Error>)
    ensures
        bytes_result(r) == soft_public_outcome(pubkey@, cc@),
        r is Ok ==> public_outcome(r->Ok_0@) == Ok::<Seq<u8>, Error>(r->Ok_0@),
{
    let parent = match public_from_bytes(pubkey) {
        Ok(p) => p,
        Err(e) => {
            return Err(map_signature_error(&e));
        },
    };
    let code = create_cc(cc)?;
    let child = soft_derive_public(&parent, &code);
    Ok(public_to_bytes(&child))
}

} // verus!

verus! {

/// Hard derivation reads the parent's secret scalar and the chain code only:
/// two valid keypairs whose secret scalars decode alike derive the same
/// child, whatever their nonce seeds, and the public key takes no part beyond
/// having to belong to the secret.
pub proof fn hard_child_ignores_public(a: Seq<u8>, b: Seq<u8>, cc: Seq<u8>)
    requires
        keypair_outcome(a) is Ok,
        keypair_outcome(b) is Ok,
        key_part(clear_cofactor_bits(a)) == key_part(clear_cofactor_bits(b)),
    ensures
        hard_outcome(a, cc) == hard_outcome(b, cc),
{
}

/// Expansion, hard derivation and public-only soft derivation are functions
/// of their inputs: any two results that meet the contracts on the same
/// inputs are equal.
pub proof fn derivations_are_deterministic(
    x: Seq<u8>,
    cc: Seq<u8>,
    r1: Result<Vec<u8>, Error>,
    r2: Result<Vec<u8>, Error>,
)
    ensures
        bytes_result(r1) == seed_outcome(x) && bytes_result(r2) == seed_outcome(x) ==> bytes_result(r1)
            == bytes_result(r2),
        bytes_result(r1) == hard_outcome(x, cc) && bytes_result(r2) == hard_outcome(x, cc)
            ==> bytes_result(r1) == bytes_result(r2),
        bytes_result(r1) == soft_public_outcome(x, cc) && bytes_result(r2) == soft_public_outcome(
            x,
            cc,
        ) ==> bytes_result(r1) == bytes_result(r2),
{
}

/// Two keypairs that soft derivation may give for the same parent and chain
/// code share their secret scalar and their public key; only the nonce seeds
/// may differ.
pub proof fn soft_derivation_is_deterministic(pair: Seq<u8>, cc: Seq<u8>, k1: Seq<u8>, k2: Seq<u8>)
    requires
        soft_outcome(pair, cc) == Ok::<Seq<u8>, Error>(key_part(k1)),
        soft_outcome(pair, cc) == Ok::<Seq<u8>, Error>(key_part(k2)),
        keypair_outcome(k1) == Ok::<Seq<u8>, Error>(k1),
        keypair_outcome(k2) == Ok::<Seq<u8>, Error>(k2),
    ensures
        key_part(k1) == key_part(k2),
        public_half(k1) == public_half(k2),
{
}

} // verus!
