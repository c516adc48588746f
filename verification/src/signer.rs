//! Signing: SHA-256 digest of the message, then a deterministic 64-byte
//! compact ECDSA signature over the digest, and signature verification.

use vstd::prelude::*;
use crate::crypto;
use crate::errors::WalletError;

verus! {

/// The 32-byte SHA-256 digest of a message. This digest — never the raw
/// message — is what gets signed.
pub fn digest(message: &[u8]) -> (r: Vec<u8>)
    ensures
        r@ == crypto::sha256_of(message@),
        r@.len() == 32,
{
    crypto::sha256(message)
}

/// Signs a message with a secret scalar: digests it with SHA-256, then
/// produces the 64-byte compact ECDSA signature with the deterministic
/// RFC 6979 nonce, so the result is a function of secret and message alone.
/// The secret is re-validated first — defense in depth — and signing
/// succeeds exactly when it is a valid scalar; the produced signature
/// verifies under the public point derived from the secret.
pub fn sign(secret: &[u8], message: &[u8]) -> (r: Result<Vec<u8>, WalletError>)
    ensures
        r is Ok <==> crypto::valid_secret(secret@),
        r matches Ok(sig) ==> {
            &&& sig@ == crypto::sign_of(secret@, crypto::sha256_of(message@))
            &&& sig@.len() == 64
            &&& crypto::verifies(crypto::pubkey_of(secret@), crypto::sha256_of(message@), sig@)
        },
        r matches Err(e) ==> e == WalletError::InvalidSecret,
{
    match crypto::derive_public(secret) {
        Some(_) => {},
        None => {
            return Err(WalletError::InvalidSecret);
        },
    }
    let d = crypto::sha256(message);
    Ok(crypto::ecdsa_sign(secret, d.as_slice()))
}

/// Law: signing is deterministic. The signature bytes are a function of
/// secret and message alone, so any two results of signing the same message
/// with the same secret are byte-identical.
pub proof fn lemma_sign_deterministic(
    secret: Seq<u8>,
    message: Seq<u8>,
    sig1: Seq<u8>,
    sig2: Seq<u8>,
)
    requires
        sig1 == crypto::sign_of(secret, crypto::sha256_of(message)),
        sig2 == crypto::sign_of(secret, crypto::sha256_of(message)),
    ensures
        sig1 == sig2,
{
}

/// Checks a compact signature over a 32-byte digest under a public point,
/// each given as bytes; `false` whenever one of the three does not parse.
pub fn verify(public: &[u8], digest32: &[u8], sig: &[u8]) -> (r: bool)
    ensures
        r == crypto::verifies(public@, digest32@, sig@),
{
    crypto::ecdsa_verify(public, digest32, sig)
}

} // verus!
