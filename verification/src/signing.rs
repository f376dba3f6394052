//! Ed25519 keys and signatures, and the operating system's random source.

use ed25519_dalek::Signer;
use ed25519_dalek::Verifier;
use rand::RngCore;
use vstd::prelude::*;

verus! {

/// Length of an Ed25519 secret key and of a public key, in bytes.
pub const KEY_LEN: usize = 32;

/// Length of an Ed25519 signature, in bytes.
pub const SIGNATURE_LEN: usize = 64;

/// The public key that belongs to a 32-byte Ed25519 secret key.
pub uninterp spec fn ed25519_public_key(secret: Seq<u8>) -> Seq<u8>;

/// Whether `bytes` are the encoding of an Ed25519 public key.
pub uninterp spec fn ed25519_is_public_key(bytes: Seq<u8>) -> bool;

/// The Ed25519 signature that the key pair (`secret`, `public`) puts on
/// `message`. Signing is deterministic.
pub uninterp spec fn ed25519_signature(secret: Seq<u8>, public: Seq<u8>, message: Seq<u8>) -> Seq<u8>;

/// Whether `signature` is accepted for `message` under the public key
/// `public`. Malformed keys and malformed signatures are not accepted.
pub uninterp spec fn ed25519_verifies(public: Seq<u8>, message: Seq<u8>, signature: Seq<u8>) -> bool;

/// Makes `ed25519_dalek::SignatureError` known as an opaque type: the error
/// of every fallible Ed25519 operation.
#[verifier::external_type_specification]
#[verifier::external_body]
pub struct ExSignatureError(ed25519_dalek::SignatureError);

/// Makes `rand::Error` known as an opaque type: what the random source
/// reports when it cannot deliver.
#[verifier::external_type_specification]
#[verifier::external_body]
pub struct ExRandError(rand::Error);

/// Calls `rand::rngs::OsRng::try_fill_bytes` on a fresh buffer. Trusted: on
/// success the buffer comes back with the length asked for. Nothing is said
/// of its contents, nor of when the operating system refuses.
#[verifier::external_body]
pub(crate) fn random_bytes(count: usize) -> (r: Result<Vec<u8>, rand::Error>)
    ensures
        r matches Ok(bytes) ==> bytes@.len() == count,
{
    let mut bytes = vec![0u8; count];
    rand::rngs::OsRng.try_fill_bytes(&mut bytes).map(|_| bytes)
}

/// Calls `ed25519_dalek::SecretKey::from_bytes` and converts the key with
/// `ed25519_dalek::PublicKey::from`. Trusted: this succeeds exactly on
/// 32-byte input, and the result is the 32-byte encoding of the public key
/// of that secret, which `PublicKey::from_bytes` reads back.
#[verifier::external_body]
pub(crate) fn public_key_of(secret: &[u8]) -> (r: Result<Vec<u8>, ed25519_dalek::SignatureError>)
    ensures
        r is Ok <==> secret@.len() == KEY_LEN,
        r matches Ok(public) ==> public@ == ed25519_public_key(secret@),
        r matches Ok(public) ==> public@.len() == KEY_LEN,
        r matches Ok(public) ==> ed25519_is_public_key(public@),
{
    let secret = ed25519_dalek::SecretKey::from_bytes(secret)?;
    Ok(ed25519_dalek::PublicKey::from(&secret).to_bytes().to_vec())
}

/// Calls `ed25519_dalek::Keypair::sign` on the pair read with
/// `SecretKey::from_bytes` and `PublicKey::from_bytes`. Trusted: the call
/// fails exactly when the secret is not 32 bytes long or the public key does
/// not decode; a public key that decodes is 32 bytes long; a signature is 64
/// bytes long; and a signature made with a secret and its own public key
/// verifies under that public key.
#[verifier::external_body]
pub(crate) fn sign_with(secret: &[u8], public: &[u8], message: &[u8]) -> (r: Result<Vec<u8>, ed25519_dalek::SignatureError>)
    ensures
        r is Ok <==> (secret@.len() == KEY_LEN && ed25519_is_public_key(public@)),
        r is Ok ==> public@.len() == KEY_LEN,
        r matches Ok(signature) ==> signature@ == ed25519_signature(secret@, public@, message@),
        r matches Ok(signature) ==> signature@.len() == SIGNATURE_LEN,
        r matches Ok(signature) ==> (public@ == ed25519_public_key(secret@)
            ==> ed25519_verifies(public@, message@, signature@)),
{
    let secret = ed25519_dalek::SecretKey::from_bytes(secret)?;
    let public = ed25519_dalek::PublicKey::from_bytes(public)?;
    Ok(ed25519_dalek::Keypair { secret, public }.sign(message).to_bytes().to_vec())
}

/// Calls `ed25519_dalek::PublicKey::verify` on the key read with
/// `PublicKey::from_bytes` and the signature read with
/// `Signature::from_bytes`. Trusted: the answer depends on the three byte
/// strings alone; it is `false` when the key does not decode, which every
/// key that is not 32 bytes long does not, and when the signature is not 64
/// bytes long.
#[verifier::external_body]
pub(crate) fn verify_with(public: &[u8], message: &[u8], signature: &[u8]) -> (accepted: bool)
    ensures
        accepted == ed25519_verifies(public@, message@, signature@),
        accepted ==> ed25519_is_public_key(public@),
        accepted ==> public@.len() == KEY_LEN,
        accepted ==> signature@.len() == SIGNATURE_LEN,
{
    match (
        ed25519_dalek::PublicKey::from_bytes(public),
        ed25519_dalek::Signature::from_bytes(signature),
    ) {
        (Ok(public), Ok(signature)) => public.verify(message, &signature).is_ok(),
        _ => false,
    }
}

} // verus!
