//! Matching and custody core of a two-asset central limit order book.
//!
//! The library keeps an ordered collection of resting limit orders per side
//! of a market, enforces price-time priority, and couples every book
//! mutation to the matching custodial balance movement, so that every
//! resting order is fully collateralized and every match transfers exactly
//! the agreed quantities between counterparties.
//!
//! Authorization, deterministic account addressing, and the execution of
//! the custody rail are external collaborators: callers hand the operations
//! already-located records and the balances of the custody accounts the
//! operation touches, and the operations mutate them in place.

pub mod error;
pub mod pubkey;
pub mod global;
pub mod market;
pub mod open_orders;
pub mod utils;
pub mod admin;
pub mod lifecycle;
pub mod laws;
