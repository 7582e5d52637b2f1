//! Cryptographic core of a resource machine: keypairs, the tagged boundary
//! representation of a keypair, authenticated encryption of payloads, and the
//! finalization of a transaction's balance (delta) proof.

mod bytes;
pub mod keys;
pub mod bridge;
pub mod cipher;
pub mod delta;
pub mod resource;
pub mod sample;
