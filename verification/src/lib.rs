//! A local wallet library: elliptic-curve keypairs, their hex-encoded record
//! form, a name-keyed record store, and deterministic ECDSA message signing.

pub mod crypto;
pub mod errors;
pub mod hexstr;
pub mod keypair;
pub mod record;
pub mod signer;
pub mod store;
