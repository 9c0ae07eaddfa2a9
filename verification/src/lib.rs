//! Integrity core of a single-process proof-of-work ledger: canonical block
//! hashing, nonce search, whole-chain validation and signed transactions.
//!
//! - [`transaction`]: transactions and their canonical JSON encoding.
//! - [`block`]: the block hash, the difficulty target and the nonce search.
//! - [`blockchain`]: the chain, appending to it and validating it.
//! - [`wallet`]: key pairs, signing and verification.
//! - [`text`], [`hexcode`]: decimal and hexadecimal text.
//! - [`digest`], [`ed25519`]: SHA-256 and Ed25519, as the `sha2` and
//!   `ed25519-dalek` crates compute them.

mod ambient;
pub mod block;
pub mod blockchain;
pub mod digest;
pub mod ed25519;
pub mod hexcode;
pub mod text;
pub mod transaction;
pub mod wallet;
