//! The curve layer: the scalar model (a 32-byte big-endian value below the
//! curve order), names for what the secp256k1 and sha2 primitives return,
//! and the trusted calls into those crates.

use vstd::prelude::*;
use rand::RngCore;
use sha2::Digest;

verus! {

/// The big-endian value of a byte sequence.
pub open spec fn be_val(s: Seq<u8>) -> nat
    decreases s.len(),
{
    if s.len() == 0 {
        0
    } else {
        be_val(s.drop_last()) * 256 + (s.last() as nat)
    }
}

/// The order of the secp256k1 curve group.
pub open spec fn curve_order() -> nat {
    0xFFFFFFFFFFFFFFFFFFFFFFFFFFFFFFFEBAAEDCE6AF48A03BBFD25E8CD0364141nat
}

/// A valid secret scalar: 32 bytes whose big-endian value lies in
/// [1, curve order).
pub open spec fn valid_secret(s: Seq<u8>) -> bool {
    s.len() == 32 && 0 < be_val(s) && be_val(s) < curve_order()
}

/// The 65-byte uncompressed encoding of `secret * G`, for a valid secret.
pub uninterp spec fn pubkey_of(secret: Seq<u8>) -> Seq<u8>;

/// Whether a byte string encodes a point of the curve group.
pub uninterp spec fn pubkey_parses(public: Seq<u8>) -> bool;

/// The SHA-256 digest of a byte sequence.
pub uninterp spec fn sha256_of(data: Seq<u8>) -> Seq<u8>;

/// The 64-byte compact ECDSA signature over a 32-byte digest, with the
/// RFC 6979 deterministic nonce: a function of secret and digest alone.
pub uninterp spec fn sign_of(secret: Seq<u8>, digest: Seq<u8>) -> Seq<u8>;

/// Whether ECDSA verification accepts the signature over the digest under
/// the public key, each given in its byte encoding.
pub uninterp spec fn verifies(public: Seq<u8>, digest: Seq<u8>, sig: Seq<u8>) -> bool;

/// Relies on `rand::rngs::OsRng` (`RngCore::try_fill_bytes`): 32 bytes from
/// the operating system's secure random source, or `None` when that source
/// cannot be read. Nothing can be promised of the bytes themselves.
#[verifier::external_body]
pub(crate) fn os_random_32() -> (r: Option<Vec<u8>>)
    ensures
        r matches Some(b) ==> b@.len() == 32,
{
    let mut buf = [0u8; 32];
    match rand::rngs::OsRng.try_fill_bytes(&mut buf) {
        Ok(()) => Some(buf.to_vec()),
        Err(_) => None,
    }
}

/// Relies on `secp256k1::SecretKey::from_slice` (accepts exactly the 32-byte
/// scalars in [1, curve order)), `PublicKey::from_secret_key` and
/// `PublicKey::serialize_uncompressed` (65 bytes, tag byte 4, a parseable
/// point encoding).
#[verifier::external_body]
pub(crate) fn derive_public(secret: &[u8]) -> (r: Option<Vec<u8>>)
    ensures
        r is Some <==> valid_secret(secret@),
        r matches Some(p) ==> p@ == pubkey_of(secret@) && p@.len() == 65 && p@[0] == 4
            && pubkey_parses(p@),
{
    match secp256k1::SecretKey::from_slice(secret) {
        Ok(sk) => {
            let ctx = secp256k1::Secp256k1::new();
            let pk = secp256k1::PublicKey::from_secret_key(&ctx, &sk);
            Some(pk.serialize_uncompressed().to_vec())
        }
        Err(_) => None,
    }
}

/// Relies on `secp256k1::PublicKey::from_slice`: accepts exactly the byte
/// strings that encode a point of the curve group.
#[verifier::external_body]
pub(crate) fn public_parses(public: &[u8]) -> (r: bool)
    ensures
        r == pubkey_parses(public@),
{
    secp256k1::PublicKey::from_slice(public).is_ok()
}

/// Relies on `sha2::Sha256::digest`: a 32-byte digest determined by the
/// input bytes alone.
#[verifier::external_body]
pub(crate) fn sha256(data: &[u8]) -> (r: Vec<u8>)
    ensures
        r@ == sha256_of(data@),
        r@.len() == 32,
{
    sha2::Sha256::digest(data).to_vec()
}

/// Relies on `secp256k1::Secp256k1::sign_ecdsa` (RFC 6979 nonce, so the
/// signature is a function of secret and digest alone), together with
/// `SecretKey::from_slice`, `Message::from_digest_slice` and
/// `Signature::serialize_compact` (64 bytes). Its documentation shows that
/// `verify_ecdsa` accepts the produced signature under the derived public
/// key.
#[verifier::external_body]
pub(crate) fn ecdsa_sign(secret: &[u8], digest: &[u8]) -> (r: Vec<u8>)
    requires
        valid_secret(secret@),
        digest@.len() == 32,
    ensures
        r@ == sign_of(secret@, digest@),
        r@.len() == 64,
        verifies(pubkey_of(secret@), digest@, r@),
{
    let sk = secp256k1::SecretKey::from_slice(secret).unwrap();
    let msg = secp256k1::Message::from_digest_slice(digest).unwrap();
    let ctx = secp256k1::Secp256k1::new();
    ctx.sign_ecdsa(&msg, &sk).serialize_compact().to_vec()
}

/// Relies on `secp256k1::Secp256k1::verify_ecdsa`, with
/// `PublicKey::from_slice`, `Message::from_digest_slice` and
/// `ecdsa::Signature::from_compact` parsing the inputs: the outcome depends
/// on the three byte strings alone, and is `false` whenever one of them does
/// not parse.
#[verifier::external_body]
pub(crate) fn ecdsa_verify(public: &[u8], digest: &[u8], sig: &[u8]) -> (r: bool)
    ensures
        r == verifies(public@, digest@, sig@),
{
    let pk = match secp256k1::PublicKey::from_slice(public) {
        Ok(pk) => pk,
        Err(_) => return false,
    };
    let msg = match secp256k1::Message::from_digest_slice(digest) {
        Ok(m) => m,
        Err(_) => return false,
    };
    let s = match secp256k1::ecdsa::Signature::from_compact(sig) {
        Ok(s) => s,
        Err(_) => return false,
    };
    secp256k1::Secp256k1::new().verify_ecdsa(&msg, &s, &pk).is_ok()
}

} // verus!
