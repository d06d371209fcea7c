//! Listing and settlement engine of a marketplace for single-edition tokens.
//!
//! Sellers list a token at a price, buyers purchase it by attaching a payment, and the
//! proceeds are split between the royalty recipients, the platform treasury and the seller.
//! Every operation takes the exchange state by reference and the plain values the chain
//! supplied, and returns the instructions the chain has to carry out.

pub mod chain;
pub mod contract;
mod cosmwasm;
pub mod error;
pub mod fees;
pub mod msg;
pub mod state;

pub use crate::error::ContractError;
