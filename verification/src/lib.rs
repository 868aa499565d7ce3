//! Confidential token transfers: balances are kept as ElGamal ciphertexts, and
//! every state transition is checked against the context of a zero-knowledge
//! proof before it is committed.

pub mod account;
pub mod algebra;
pub mod bytes;
pub mod context;
pub mod dispatch;
pub mod error;
pub mod instruction;
pub mod laws;
pub mod mint;
pub mod processor;
pub mod state;
pub mod transfer;
pub mod types;
