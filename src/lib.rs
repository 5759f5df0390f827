//! Custodial fund-vault policy engine: authorization, limits, time-locked
//! multi-signature operations, an append-only audit log and derived addresses.

pub mod pubkey;
pub mod error;
pub mod bytes;
pub mod state;
pub mod security;
pub mod utils;
pub mod validation;
pub mod audit;
pub mod processor;
pub mod laws;
pub mod codec;
pub mod instruction;
