//! Signing facade for Ethereum-style payloads over secp256k1.
//!
//! The library validates the shape of what it is handed, maps it to the
//! signing crate's calls, and states in its contracts which result belongs to
//! which input. Elliptic-curve arithmetic, RLP and hashing are the signing
//! crates' work: they are reached through a few functions whose contracts are
//! taken on trust, each marked as such where it is declared.

pub mod error;
pub mod key;
pub mod sign;
pub mod signature;
pub mod text;
pub mod transaction;

pub use error::{Argument, SignError};
pub use key::{KeyInput, PrivateKey};
pub use sign::{
    begin_typed_data, finish_typed_data, sign_hash, sign_transaction, sign_typed_data, TypedData,
};
pub use signature::Signature;
pub use transaction::{SignedTransaction, TransactionFields};
