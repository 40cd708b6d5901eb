use sr25519_hd::error::Error;
use sr25519_hd::keys::{
    create_cc, derive_keypair_hard, derive_keypair_soft, derive_pubkey_soft, keypair_from_seed,
    public_from_secret,
};
use sr25519_hd::signing::{sign, signing_context, verify};

fn zero_pair() -> Vec<u8> {
    keypair_from_seed(&[0u8; 32]).unwrap()
}

fn seeded_pair(b: u8) -> Vec<u8> {
    keypair_from_seed(&[b; 32]).unwrap()
}

/// The secret scalar and the public key of a keypair encoding, without the
/// nonce seed.
fn key_and_public(pair: &[u8]) -> Vec<u8> {
    let mut v = pair[..32].to_vec();
    v.extend_from_slice(&pair[64..]);
    v
}

fn soft(pair: &[u8], cc: &[u8]) -> Vec<u8> {
    key_and_public(&derive_keypair_soft(pair, cc).unwrap())
}

#[test]
fn seed_expands_to_fixed_keypair() {
    let a = zero_pair();
    let b = zero_pair();
    assert_eq!(a.len(), 96);
    assert_eq!(a, b);
    assert_eq!(a[0] & 7, 0);
    assert_ne!(a, seeded_pair(1));
}

#[test]
fn seed_of_wrong_length_is_rejected() {
    assert_eq!(keypair_from_seed(&[0u8; 31]), Err(Error::InvalidSeedLength));
    assert_eq!(keypair_from_seed(&[0u8; 33]), Err(Error::InvalidSeedLength));
    assert_eq!(keypair_from_seed(&[]), Err(Error::InvalidSeedLength));
}

#[test]
fn expanded_keypair_decodes_to_itself() {
    let pair = zero_pair();
    // A derivation accepts it, so it decoded; soft derivation of the public
    // half accepts that half as a valid point.
    assert!(derive_keypair_hard(&pair, &[]).is_ok());
    assert!(derive_pubkey_soft(&pair[64..], &[]).is_ok());
}

#[test]
fn signature_verifies() {
    let pair = zero_pair();
    let msg = b"test message".to_vec();
    let sig = sign(msg.clone(), pair[..64].to_vec(), pair[64..].to_vec()).unwrap();
    assert_eq!(sig.len(), 64);
    assert!(sig[63] & 128 != 0);
    assert_eq!(verify(&sig, &msg, &pair[64..]), Ok(true));
}

#[test]
fn signatures_are_randomised_and_both_verify() {
    let pair = seeded_pair(7);
    let msg = b"test message".to_vec();
    let s1 = sign(msg.clone(), pair[..64].to_vec(), pair[64..].to_vec()).unwrap();
    let s2 = sign(msg.clone(), pair[..64].to_vec(), pair[64..].to_vec()).unwrap();
    assert_ne!(s1, s2);
    assert_eq!(verify(&s1, &msg, &pair[64..]), Ok(true));
    assert_eq!(verify(&s2, &msg, &pair[64..]), Ok(true));
}

#[test]
fn corrupted_message_does_not_verify() {
    let pair = zero_pair();
    let msg = b"test message".to_vec();
    let sig = sign(msg.clone(), pair[..64].to_vec(), pair[64..].to_vec()).unwrap();
    let mut bad = msg.clone();
    bad[0] ^= 1;
    assert_eq!(verify(&sig, &bad, &pair[64..]), Ok(false));
    let mut last = msg.clone();
    last[11] ^= 0x80;
    assert_eq!(verify(&sig, &last, &pair[64..]), Ok(false));
}

#[test]
fn tampered_public_key_does_not_verify() {
    let pair = zero_pair();
    let msg = b"test message".to_vec();
    let sig = sign(msg.clone(), pair[..64].to_vec(), pair[64..].to_vec()).unwrap();
    for bit in [0usize, 9, 100, 200, 254] {
        let mut pk = pair[64..].to_vec();
        pk[bit / 8] ^= 1 << (bit % 8);
        assert_eq!(verify(&sig, &msg, &pk), Ok(false));
    }
    let other = seeded_pair(3);
    assert_eq!(verify(&sig, &msg, &other[64..]), Ok(false));
}

#[test]
fn tampered_signature_point_does_not_verify() {
    let pair = zero_pair();
    let msg = b"test message".to_vec();
    let sig = sign(msg.clone(), pair[..64].to_vec(), pair[64..].to_vec()).unwrap();
    for bit in [0usize, 1, 77, 130, 255] {
        let mut s = sig.clone();
        s[bit / 8] ^= 1 << (bit % 8);
        assert_eq!(verify(&s, &msg, &pair[64..]), Ok(false));
    }
    let mut s = sig.clone();
    s[32] ^= 1;
    assert_eq!(verify(&s, &msg, &pair[64..]), Ok(false));
}

#[test]
fn malformed_signature_is_an_error() {
    let pair = zero_pair();
    let msg = b"test message".to_vec();
    let sig = sign(msg.clone(), pair[..64].to_vec(), pair[64..].to_vec()).unwrap();
    assert_eq!(verify(&sig[..63], &msg, &pair[64..]), Err(Error::MalformedEncoding));
    let mut unmarked = sig.clone();
    unmarked[63] &= 0x7f;
    assert_eq!(verify(&unmarked, &msg, &pair[64..]), Err(Error::MalformedEncoding));
    let mut scalar = sig.clone();
    for b in scalar[32..].iter_mut() {
        *b = 0xff;
    }
    assert_eq!(verify(&scalar, &msg, &pair[64..]), Err(Error::InvalidScalar));
    assert_eq!(verify(&sig, &msg, &pair[64..95]), Err(Error::MalformedEncoding));
}

#[test]
fn invalid_public_point_verifies_false() {
    let pair = zero_pair();
    let msg = b"test message".to_vec();
    let sig = sign(msg.clone(), pair[..64].to_vec(), pair[64..].to_vec()).unwrap();
    assert_eq!(verify(&sig, &msg, &[0xffu8; 32]), Ok(false));
}

#[test]
fn sign_rejects_bad_keys() {
    let pair = zero_pair();
    let msg = b"m".to_vec();
    assert_eq!(
        sign(msg.clone(), pair[..64].to_vec(), pair[64..95].to_vec()),
        Err(Error::MalformedEncoding)
    );
    assert_eq!(
        sign(msg.clone(), pair[..64].to_vec(), vec![0xffu8; 32]),
        Err(Error::InvalidPoint)
    );
    assert_eq!(
        sign(msg.clone(), pair[..63].to_vec(), pair[64..].to_vec()),
        Err(Error::MalformedEncoding)
    );
}

#[test]
fn soft_derivation_agrees_with_public_derivation() {
    for seed in [0u8, 1, 42] {
        let pair = seeded_pair(seed);
        for cc in [&b""[..], &b"a"[..], &[9u8; 32][..]] {
            let child = derive_keypair_soft(&pair, cc).unwrap();
            let public = derive_pubkey_soft(&pair[64..], cc).unwrap();
            assert_eq!(&child[64..], &public[..]);
            assert_ne!(&child[64..], &pair[64..]);
        }
    }
}

#[test]
fn soft_derived_keypair_signs() {
    let pair = zero_pair();
    let child = derive_keypair_soft(&pair, b"child").unwrap();
    let msg = b"test message".to_vec();
    let sig = sign(msg.clone(), child[..64].to_vec(), child[64..].to_vec()).unwrap();
    assert_eq!(verify(&sig, &msg, &child[64..]), Ok(true));
    assert_eq!(verify(&sig, &msg, &pair[64..]), Ok(false));
}

#[test]
fn hard_derivation_is_deterministic_and_fresh() {
    let pair = zero_pair();
    let a = derive_keypair_hard(&pair, b"hard").unwrap();
    let b = derive_keypair_hard(&pair, b"hard").unwrap();
    assert_eq!(a, b);
    assert_eq!(a.len(), 96);
    assert_ne!(a, pair);
    assert_ne!(a, derive_keypair_hard(&pair, b"other").unwrap());
    assert_ne!(key_and_public(&a), soft(&pair, b"hard"));
    let public = derive_pubkey_soft(&pair[64..], b"hard").unwrap();
    assert_ne!(&a[64..], &public[..]);
}

#[test]
fn hard_derivation_depends_on_the_secret() {
    let a = derive_keypair_hard(&seeded_pair(1), b"x").unwrap();
    let b = derive_keypair_hard(&seeded_pair(2), b"x").unwrap();
    assert_ne!(a, b);
}

#[test]
fn hard_derived_keypair_signs() {
    let child = derive_keypair_hard(&zero_pair(), b"x").unwrap();
    let msg = b"hello".to_vec();
    let sig = sign(msg.clone(), child[..64].to_vec(), child[64..].to_vec()).unwrap();
    assert_eq!(verify(&sig, &msg, &child[64..]), Ok(true));
}

#[test]
fn derivation_is_deterministic() {
    let pair = seeded_pair(5);
    assert_eq!(soft(&pair, b"s"), soft(&pair, b"s"));
    assert_eq!(derive_pubkey_soft(&pair[64..], b"s"), derive_pubkey_soft(&pair[64..], b"s"));
}

#[test]
fn chain_code_of_33_bytes_is_rejected() {
    let pair = zero_pair();
    assert_eq!(create_cc(&[1u8; 33]), Err(Error::InvalidChainCode));
    assert_eq!(derive_keypair_hard(&pair, &[1u8; 33]), Err(Error::InvalidChainCode));
    assert_eq!(derive_keypair_soft(&pair, &[1u8; 33]), Err(Error::InvalidChainCode));
    assert_eq!(derive_pubkey_soft(&pair[64..], &[1u8; 33]), Err(Error::InvalidChainCode));
}

#[test]
fn empty_chain_code_is_zero_padded() {
    let pair = zero_pair();
    assert_eq!(create_cc(&[]), Ok(vec![0u8; 32]));
    assert_eq!(derive_keypair_hard(&pair, &[]), derive_keypair_hard(&pair, &[0u8; 32]));
    assert_eq!(soft(&pair, &[]), soft(&pair, &[0u8; 32]));
    assert_eq!(derive_pubkey_soft(&pair[64..], &[]), derive_pubkey_soft(&pair[64..], &[0u8; 32]));
}

#[test]
fn short_chain_code_is_padded_on_the_right() {
    let mut expected = vec![0u8; 32];
    expected[0] = 1;
    expected[1] = 2;
    assert_eq!(create_cc(&[1, 2]), Ok(expected.clone()));
    assert_eq!(create_cc(&[7u8; 32]), Ok(vec![7u8; 32]));
    let pair = zero_pair();
    assert_eq!(soft(&pair, &[1, 2]), soft(&pair, &expected));
}

#[test]
fn keypair_of_wrong_length_is_rejected() {
    let pair = zero_pair();
    assert_eq!(derive_keypair_hard(&pair[..95], &[]), Err(Error::MalformedEncoding));
    assert_eq!(derive_keypair_soft(&[], &[]), Err(Error::MalformedEncoding));
    assert_eq!(derive_pubkey_soft(&pair[64..95], &[]), Err(Error::MalformedEncoding));
}

#[test]
fn keypair_with_invalid_point_is_rejected() {
    let mut pair = zero_pair();
    for b in pair[64..].iter_mut() {
        *b = 0xff;
    }
    assert_eq!(derive_keypair_hard(&pair, &[]), Err(Error::InvalidPoint));
    assert_eq!(derive_keypair_soft(&pair, &[]), Err(Error::InvalidPoint));
    assert_eq!(derive_pubkey_soft(&[0xffu8; 32], &[]), Err(Error::InvalidPoint));
}

#[test]
fn keypair_with_foreign_public_key_is_rejected() {
    let mut pair = zero_pair();
    let other = seeded_pair(9);
    pair[64..].copy_from_slice(&other[64..]);
    assert_eq!(derive_keypair_hard(&pair, &[]), Err(Error::MalformedEncoding));
    assert_eq!(derive_keypair_soft(&pair, &[]), Err(Error::MalformedEncoding));
}

#[test]
fn cofactor_bits_of_secret_are_ignored() {
    let pair = zero_pair();
    let mut noisy = pair.clone();
    noisy[0] |= 5;
    assert_eq!(derive_keypair_hard(&noisy, b"c"), derive_keypair_hard(&pair, b"c"));
    assert_eq!(soft(&noisy, b"c"), soft(&pair, b"c"));
}

#[test]
fn signing_context_is_substrate() {
    assert_eq!(signing_context(), b"substrate".to_vec());
}

#[test]
fn soft_derived_nonce_seed_is_not_inherited() {
    let pair = zero_pair();
    let child = derive_keypair_soft(&pair, b"n").unwrap();
    assert_ne!(&child[32..64], &pair[32..64]);
    assert_eq!(child[0] & 7, 0);
}

const ZERO_SEED_PAIR: &str = "5046adc1dba838867b2bbbfdd0c3423e58b57970b5267a90f57960924a87f1560a6a85eaa642dac835424b5d7c8d637c00408c7a73da672b7f498521420b6dd3def12e42f3e487e9b14095aa8d5cc16a33491f1b50dadcf8811d1480f3fa8627";

#[test]
fn zero_seed_keypair_vector() {
    let pair = zero_pair();
    assert_eq!(hex::encode(&pair), ZERO_SEED_PAIR);
}

#[test]
fn zero_seed_derivation_vectors() {
    let pair = hex::decode(ZERO_SEED_PAIR).unwrap();
    assert_eq!(
        hex::encode(derive_keypair_hard(&pair, b"hard").unwrap()),
        "a000d4dc41029b3f35b8daacb3de2cdfe6daa311c373a6c9b24aea7410cebb7e28d357977d235f7ee9efadded6b0c1429e6bbafb8eeb7a9537d1328dda3decfeb4e67111a43b851392cf7c3df8f5da9de3e256ec04f33a1ad5d1bce09df3f971"
    );
    assert_eq!(
        hex::encode(derive_pubkey_soft(&pair[64..], b"soft").unwrap()),
        "6273db4e52a02217785b568767a46972de735bd0f1e6f539350133bbd485570d"
    );
    let child = derive_keypair_soft(&pair, b"soft").unwrap();
    assert_eq!(
        hex::encode(&child[64..]),
        "6273db4e52a02217785b568767a46972de735bd0f1e6f539350133bbd485570d"
    );
}

#[test]
fn zero_seed_signature_vector_verifies_and_rejects_corruption() {
    let pair = hex::decode(ZERO_SEED_PAIR).unwrap();
    let msg = b"test message".to_vec();
    let sig = sign(msg.clone(), pair[..64].to_vec(), pair[64..].to_vec()).unwrap();
    assert_eq!(verify(&sig, &msg, &pair[64..]), Ok(true));
    for i in 0..msg.len() {
        let mut bad = msg.clone();
        bad[i] ^= 0x01;
        assert_eq!(verify(&sig, &bad, &pair[64..]), Ok(false));
    }
}

#[test]
fn public_key_is_computed_from_secret() {
    let pair = hex::decode(ZERO_SEED_PAIR).unwrap();
    assert_eq!(public_from_secret(&pair[..64]), Ok(pair[64..].to_vec()));
    let other = seeded_pair(4);
    assert_eq!(public_from_secret(&other[..64]), Ok(other[64..].to_vec()));
    assert_eq!(public_from_secret(&pair[..63]), Err(Error::MalformedEncoding));
    assert_eq!(public_from_secret(&pair), Err(Error::MalformedEncoding));
}

#[test]
fn soft_child_secret_gives_public_derivation() {
    let pair = seeded_pair(11);
    for cc in [&b""[..], &b"//soft"[..], &[0xaau8; 32][..]] {
        let child = derive_keypair_soft(&pair, cc).unwrap();
        assert_eq!(
            public_from_secret(&child[..64]),
            derive_pubkey_soft(&pair[64..], cc)
        );
    }
}
