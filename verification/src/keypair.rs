//! Keypairs: a secret scalar together with the public point derived from it,
//! and generation from the operating system's secure random source.

use vstd::prelude::*;
use crate::crypto;
use crate::errors::WalletError;

verus! {

/// A curve keypair. `secret` holds the 32 scalar bytes (big-endian);
/// `public` holds the 65-byte uncompressed encoding of `secret * G`.
pub struct KeyPair {
    pub secret: Vec<u8>,
    pub public: Vec<u8>,
}

impl KeyPair {
    /// The invariant every keypair of this library satisfies: the secret is
    /// a valid scalar and the public bytes are exactly the uncompressed
    /// encoding of the point derived from it.
    pub open spec fn wf(self) -> bool {
        &&& crypto::valid_secret(self.secret@)
        &&& self.public@ == crypto::pubkey_of(self.secret@)
        &&& self.public@.len() == 65
        &&& self.public@[0] == 4
        &&& crypto::pubkey_parses(self.public@)
    }
}

/// Generates a fresh keypair from the secure random source, rejecting any
/// drawn scalar that is zero or not below the curve order. The rejection
/// loop is bounded; a draw passes it with overwhelming probability, and
/// only an unreadable or degenerate random source exhausts it.
pub fn generate() -> (r: Result<KeyPair, WalletError>)
    ensures
        r matches Ok(kp) ==> kp.wf(),
        r matches Err(e) ==> e == WalletError::EntropyUnavailable,
{
    let mut attempts: usize = 0;
    while attempts < 64
        invariant
            attempts <= 64,
        decreases 64 - attempts,
    {
        let secret = match crypto::os_random_32() {
            Some(b) => b,
            None => {
                return Err(WalletError::EntropyUnavailable);
            },
        };
        match crypto::derive_public(secret.as_slice()) {
            Some(public) => {
                return Ok(KeyPair { secret, public });
            },
            None => {},
        }
        attempts = attempts + 1;
    }
    Err(WalletError::EntropyUnavailable)
}

} // verus!
