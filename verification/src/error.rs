//! Error kinds reported by the order-book core.
//!
//! Every error is detected by a precondition check strictly before any
//! mutation begins: a failing operation applies zero mutations and reports
//! the specific kind.

use vstd::prelude::*;

verus! {

/// The distinct failure kinds of the order-book core.
#[derive(Clone, Copy, Debug, PartialEq, Eq, Structural)]
pub enum HybridDexError {
    /// Caller is not the configured admin.
    InvalidAdmin,
    /// A market name longer than the fixed storage width.
    InvalidInputNameLength,
    /// Caller is not the market's authority.
    InvalidCloseMarketAdmin,
    /// Close attempted while a side still has live orders.
    NonEmptyMarket,
    /// A supplied per-user order record does not belong to the caller.
    InvalidAccountOwner,
    /// The per-user or per-book order limit is reached.
    OpenOrdersFull,
    /// The escrow-source balance is below the required amount.
    InsufficientDepositBalance,
    /// The market vault balance is below the required amount.
    InsufficientWithdrawBalance,
    /// No order with the requested id rests on the target side.
    OrderNotFound,
    /// The order's maker does not match the supplied maker record.
    IncorrectMakerAddress,
    /// A partial decrease that would consume the whole order.
    PartialOrderAmountExceed,
}

} // verus!
