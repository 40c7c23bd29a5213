//! The calls into sodiumoxide that the node's identity logic makes: key
//! generation, signing and hashing. Keys and digests cross this boundary
//! as plain byte arrays.

use vstd::prelude::*;

verus! {

/// The SHA-512 digest of a byte sequence, as computed by libsodium's
/// `crypto_hash_sha512` (64 bytes).
pub uninterp spec fn sha512_digest(data: Seq<u8>) -> Seq<u8>;

/// The signed message that Ed25519 (`crypto_sign_ed25519`, combined mode)
/// makes of `message` under `secret_key`: the signature followed by the
/// message. Ed25519 signing is deterministic.
pub uninterp spec fn ed25519_signed_message(message: Seq<u8>, secret_key: Seq<u8>) -> Seq<u8>;

/// The Ed25519 public key that libsodium's `crypto_sign_ed25519_seed_keypair`
/// derives from a 32-byte seed.
pub uninterp spec fn ed25519_public_key(seed: Seq<u8>) -> Seq<u8>;

/// The Curve25519 public key of a secret key: libsodium's
/// `crypto_scalarmult_curve25519_base` applied to it.
pub uninterp spec fn curve25519_public_key(secret_key: Seq<u8>) -> Seq<u8>;

/// Calls `sodiumoxide::crypto::hash::sha512::hash`; the contract claims that
/// the digest's bytes are `sha512_digest` of the input's bytes.
#[verifier::external_body]
pub(crate) fn sha512(data: &[u8]) -> (digest: [u8; 64])
    ensures
        digest@ == sha512_digest(data@),
{
    sodiumoxide::crypto::hash::sha512::hash(data).0
}

/// Calls `sodiumoxide::crypto::sign::sign` with the secret key rebuilt from
/// its bytes; the contract claims that the result is `ed25519_signed_message`
/// of the message's and key's bytes.
#[verifier::external_body]
pub(crate) fn sign_message(message: &[u8], secret_key: &[u8; 64]) -> (signed: Vec<u8>)
    ensures
        signed@ == ed25519_signed_message(message@, secret_key@),
{
    sodiumoxide::crypto::sign::sign(message, &sodiumoxide::crypto::sign::SecretKey(*secret_key))
}

/// Calls `sodiumoxide::crypto::sign::gen_keypair` and hands back the public
/// and secret key bytes. The seed is random; what holds of every pair is
/// that libsodium's `crypto_sign_ed25519_keypair` keeps the seed in bytes
/// 0..32 of the secret key, derives the public key from that seed alone
/// (named `ed25519_public_key`), and stores the public key in bytes 32..64
/// of the secret key.
#[verifier::external_body]
pub(crate) fn gen_sign_keypair() -> (keys: ([u8; 32], [u8; 64]))
    ensures
        keys.0@ == ed25519_public_key(keys.1@.subrange(0, 32)),
        keys.1@.subrange(32, 64) == keys.0@,
{
    let (public_key, secret_key) = sodiumoxide::crypto::sign::gen_keypair();
    (public_key.0, secret_key.0)
}

/// Calls `sodiumoxide::crypto::box_::gen_keypair` and hands back the public
/// and secret key bytes. The secret key is random; libsodium's
/// `crypto_box_curve25519xsalsa20poly1305_keypair` computes the public key
/// from it with `crypto_scalarmult_curve25519_base`, which the contract
/// names `curve25519_public_key`.
#[verifier::external_body]
pub(crate) fn gen_box_keypair() -> (keys: ([u8; 32], [u8; 32]))
    ensures
        keys.0@ == curve25519_public_key(keys.1@),
{
    let (public_key, secret_key) = sodiumoxide::crypto::box_::gen_keypair();
    (public_key.0, secret_key.0)
}

} // verus!
