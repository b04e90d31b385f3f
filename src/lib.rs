//! Minting control for a non-fungible-token collection: who may mint, how many
//! tokens may exist, how many one holder may own, and the metadata of each token.
//!
//! The token ledger (ownership, balances) and the role check are collaborators of
//! the controller: their answers reach it as plain values, and the controller
//! decides from them.

pub mod types;
pub mod minting;
pub mod traits;
pub mod laws;
