//! Piggy-bank accounting for an NFT collection.
//!
//! Each token of the collection acts as a piggy bank: it accepts deposits of
//! one configured fungible asset, accumulates a balance, derives its display
//! metadata from that balance through an ordered threshold table, and pays the
//! full balance back to its owner when the token is burned. Minting is gated
//! behind a fixed price and an optional supply cap, with proceeds forwarded to
//! a sale recipient.
//!
//! This crate verifies the balance-accounting core: payment validation, the
//! monotonic token-id counter, the balance ledger, threshold-driven metadata
//! derivation, and payout on burn. The NFT ownership registry, the host's
//! storage and message execution, and (de)serialization are external
//! collaborators: handlers take what those collaborators reported as plain
//! arguments and return the instructions the host must execute.

pub mod contract;
pub mod decimal;
pub mod error;
pub mod laws;
pub mod msg;
pub mod payment;
pub mod state;
pub mod uri;
pub mod validation;
