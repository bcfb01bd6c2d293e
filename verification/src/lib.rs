//! Relay-protocol message envelopes: stamp verification, hierarchical
//! deterministic key derivation, and authenticated payload encryption.
//!
//! A message binds an encrypted payload to a destination public key and to a
//! set of Bitcoin transaction outputs (its "stamp").  The stamp is checked by
//! deriving a tree of child public keys from the payload digest and the
//! destination key, and comparing the derived pay-to-pubkey-hash addresses
//! against the referenced outputs.  The payload itself is authenticated with
//! an HMAC over a Diffie-Hellman shared key and encrypted with AES-128-CBC.
//!
//! Elliptic-curve arithmetic, hashing, and the block cipher are supplied by
//! outside libraries; every value crossing that boundary is plain bytes, and
//! the contracts of those calls are stated over uninterpreted names for the
//! functions they compute.

pub mod auth_wrapper;
pub mod bitcoin;
pub mod cipher;
pub mod hashes;
pub mod keys;
pub mod keyserver;
pub mod relay;
pub mod token;
