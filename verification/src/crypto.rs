//! The signature schemes behind the local backend: BLS over BLS12-381 with
//! public keys in the first group, and ECDSA over secp256k1.

use rand::Rng;
use vstd::prelude::*;

verus! {

/// Calls `rand::thread_rng` and draws 32 bytes from it. Nothing is claimed
/// of the bytes.
#[verifier::external_body]
pub(crate) fn random_bytes() -> (bytes: [u8; 32]) {
    rand::thread_rng().gen()
}

/// The domain separation tag of BLS signatures in the proof-of-possession
/// scheme.
pub const BLS_DST: &'static str = "BLS_SIG_BLS12381G2_XMD:SHA-256_SSWU_RO_POP_";

/// The BLS secret key that `blst` derives from the key material `ikm`, as
/// 32 big-endian bytes.
pub uninterp spec fn bls_secret_of(ikm: Seq<u8>) -> Seq<u8>;

/// The compressed BLS public key of the secret key with these bytes, where
/// they are a secret key.
pub uninterp spec fn bls_public_key_of(secret: Seq<u8>) -> Option<Seq<u8>>;

/// The compressed BLS signature of the secret key with these bytes over
/// `message` under the tag `dst`, where the bytes are a secret key.
pub uninterp spec fn bls_signature_of(secret: Seq<u8>, message: Seq<u8>, dst: Seq<u8>) -> Option<
    Seq<u8>,
>;

/// Whether `blst` accepts `signature` as that of `pubkey` over `message`
/// under the tag `dst`.
pub uninterp spec fn bls_verifies(
    pubkey: Seq<u8>,
    message: Seq<u8>,
    dst: Seq<u8>,
    signature: Seq<u8>,
) -> bool;

/// The compressed ECDSA public key of the secret key with these bytes,
/// where they are a secret key.
pub uninterp spec fn ecdsa_public_key_of(secret: Seq<u8>) -> Option<Seq<u8>>;

/// The ECDSA signature of the secret key with these bytes over the hash
/// `prehash`, as `r` and `s` in 64 bytes and the recovery byte, where the
/// bytes are a secret key and signing goes through.
pub uninterp spec fn ecdsa_signature_of(secret: Seq<u8>, prehash: Seq<u8>) -> Option<(Seq<u8>, u8)>;

/// Calls `blst::min_pk::SecretKey::key_gen` without key info and writes the
/// key out with `to_bytes`. Trusted: the key is a function of the key
/// material alone. With 32 bytes of key material the outside function
/// does not fail.
#[verifier::external_body]
pub(crate) fn bls_key_gen(ikm: &[u8; 32]) -> (secret: [u8; 32])
    ensures
        secret@ == bls_secret_of(ikm@),
{
    blst::min_pk::SecretKey::key_gen(ikm, &[]).unwrap().to_bytes()
}

/// Calls `blst::min_pk::SecretKey::from_bytes`, `sk_to_pk` and
/// `PublicKey::to_bytes`. Trusted: the result is a function of the bytes
/// alone; it is `None` where the bytes are no secret key.
#[verifier::external_body]
pub(crate) fn bls_public_key(secret: &[u8; 32]) -> (pubkey: Option<[u8; 48]>)
    ensures
        match pubkey {
            Some(key) => bls_public_key_of(secret@) == Some(key@),
            None => bls_public_key_of(secret@).is_none(),
        },
{
    match blst::min_pk::SecretKey::from_bytes(secret) {
        Ok(key) => Some(key.sk_to_pk().to_bytes()),
        Err(_) => None,
    }
}

/// Calls `blst::min_pk::SecretKey::from_bytes`, `sign` without
/// augmentation and `Signature::to_bytes`. Trusted: the result is a
/// function of the arguments alone; it is `None` exactly where the bytes
/// are no secret key, which is where they have no public key either.
#[verifier::external_body]
pub(crate) fn bls_sign(secret: &[u8; 32], message: &[u8], dst: &[u8]) -> (signature: Option<
    [u8; 96],
>)
    ensures
        match signature {
            Some(bytes) => bls_signature_of(secret@, message@, dst@) == Some(bytes@),
            None => bls_signature_of(secret@, message@, dst@).is_none(),
        },
        signature is Some <==> bls_public_key_of(secret@) is Some,
{
    match blst::min_pk::SecretKey::from_bytes(secret) {
        Ok(key) => Some(key.sign(message, dst, &[]).to_bytes()),
        Err(_) => None,
    }
}

/// Calls `blst::min_pk::PublicKey::from_bytes`, `Signature::from_bytes`
/// and `Signature::verify` with both group checks on and without
/// augmentation. Trusted: the answer is a function of the arguments alone.
/// Bytes that are no key or no signature do not verify.
#[verifier::external_body]
pub(crate) fn bls_verify(pubkey: &[u8; 48], message: &[u8], dst: &[u8], signature: &[u8; 96]) -> (valid:
    bool)
    ensures
        valid == bls_verifies(pubkey@, message@, dst@, signature@),
{
    match (
        blst::min_pk::PublicKey::from_bytes(pubkey),
        blst::min_pk::Signature::from_bytes(signature),
    ) {
        (Ok(key), Ok(sig)) => sig.verify(true, message, dst, &[], &key, true)
            == blst::BLST_ERROR::BLST_SUCCESS,
        _ => false,
    }
}

/// Calls `k256::ecdsa::SigningKey::from_slice` and writes its verifying key
/// out as a compressed point. Trusted: the result is a function of the
/// bytes alone; it is `None` where the bytes are no secret key.
#[verifier::external_body]
pub(crate) fn ecdsa_public_key(secret: &[u8; 32]) -> (pubkey: Option<[u8; 33]>)
    ensures
        match pubkey {
            Some(key) => ecdsa_public_key_of(secret@) == Some(key@),
            None => ecdsa_public_key_of(secret@).is_none(),
        },
{
    match k256::ecdsa::SigningKey::from_slice(secret) {
        Ok(key) => key.verifying_key().to_encoded_point(true).as_bytes().try_into().ok(),
        Err(_) => None,
    }
}

/// Calls `k256::ecdsa::SigningKey::from_slice` and
/// `sign_prehash_recoverable`. Trusted: the result is a function of the
/// arguments alone, as the outside function derives its nonce from them.
#[verifier::external_body]
pub(crate) fn ecdsa_sign(secret: &[u8; 32], prehash: &[u8; 32]) -> (signature: Option<
    ([u8; 64], u8),
>)
    ensures
        match signature {
            Some((bytes, recovery)) => ecdsa_signature_of(secret@, prehash@) == Some(
                (bytes@, recovery),
            ),
            None => ecdsa_signature_of(secret@, prehash@).is_none(),
        },
{
    match k256::ecdsa::SigningKey::from_slice(secret) {
        Ok(key) => match key.sign_prehash_recoverable(prehash) {
            Ok((rs, recovery)) => Some((rs.to_bytes().into(), recovery.to_byte())),
            Err(_) => None,
        },
        Err(_) => None,
    }
}

} // verus!
