//! The cryptographic primitives that headers are built on, as libsodium
//! provides them. Nothing is proved of the functions in this module: each
//! hands its arguments to the backend, and its contract gives the result a
//! name where the result is a function of the arguments.

use crate::keys::{PublicKey, SecretKey, Signature};
use rand::RngCore;
use vstd::prelude::*;

verus! {

/// The detached Ed25519 signature of `message` under `secret_key`.
pub uninterp spec fn detached_signature(message: Seq<u8>, secret_key: Seq<u8>) -> Seq<u8>;

/// Whether `signature` is accepted for `message` under `public_key`.
pub uninterp spec fn signature_verifies(
    signature: Seq<u8>,
    message: Seq<u8>,
    public_key: Seq<u8>,
) -> bool;

/// `public_key` belongs to `secret_key`: it accepts whatever the secret key
/// signs.
pub open spec fn is_key_pair(public_key: Seq<u8>, secret_key: Seq<u8>) -> bool {
    forall|message: Seq<u8>|
        signature_verifies(
            #[trigger] detached_signature(message, secret_key),
            message,
            public_key,
        )
}

/// The SHA-512 digest of `data`.
pub uninterp spec fn sha512_digest(data: Seq<u8>) -> Seq<u8>;

/// Calls `sodiumoxide::init`, which prepares libsodium for use by this
/// process, and reports whether it succeeded. libsodium performs the
/// initialisation once: after a success, later calls find it done. Nothing is
/// claimed of the answer.
#[verifier::external_body]
pub(crate) fn initialise_sodiumoxide() -> (initialised: bool) {
    sodiumoxide::init().is_ok()
}

/// Fills `N` bytes by `RngCore::fill_bytes` on `rand::thread_rng`, the
/// generator of the calling thread. Nothing is claimed of the bytes.
#[verifier::external_body]
pub(crate) fn random_bytes<const N: usize>() -> (bytes: [u8; N]) {
    let mut bytes = [0u8; N];
    rand::thread_rng().fill_bytes(&mut bytes);
    bytes
}

/// Calls `sodiumoxide::crypto::sign::sign_detached`. Ed25519 signing is
/// deterministic, so the signature is a function of the message and the key:
/// the contract names it and claims nothing else.
#[verifier::external_body]
pub(crate) fn sign_detached(message: &[u8], secret_key: &SecretKey) -> (signature: Signature)
    ensures
        signature@ == detached_signature(message@, secret_key@),
{
    let key = sodiumoxide::crypto::sign::SecretKey(secret_key.0);
    Signature(sodiumoxide::crypto::sign::sign_detached(message, &key).to_bytes())
}

/// Calls `sodiumoxide::crypto::sign::verify_detached`. The answer is a
/// function of the three arguments: the contract names it and claims nothing
/// else. Bytes that `Signature::from_bytes` does not take for a signature at
/// all are rejected.
#[verifier::external_body]
pub(crate) fn verify_detached(
    signature: &Signature,
    message: &[u8],
    public_key: &PublicKey,
) -> (valid: bool)
    ensures
        valid == signature_verifies(signature@, message@, public_key@),
{
    let key = sodiumoxide::crypto::sign::PublicKey(public_key.0);
    match sodiumoxide::crypto::sign::Signature::from_bytes(&signature.0) {
        Ok(parsed) => sodiumoxide::crypto::sign::verify_detached(&parsed, message, &key),
        Err(_) => false,
    }
}

/// Calls `sodiumoxide::crypto::hash::sha512::hash`. The contract names the
/// digest and claims nothing else.
#[verifier::external_body]
pub(crate) fn sha512(data: &[u8]) -> (digest: [u8; 64])
    ensures
        digest@ == sha512_digest(data@),
{
    sodiumoxide::crypto::hash::sha512::hash(data).0
}

} // verus!
