//! Per-user, per-market order state.

use vstd::prelude::*;

use crate::pubkey::Pubkey;

verus! {

/// Serialized size of a per-user order record, in bytes.
pub const USER_MARKET_ORDERS_DATA_SIZE: usize = 80;

/// One user's standing in one market: how many orders they have resting,
/// how much they currently have escrowed per asset, and their lifetime
/// fill volumes.
#[derive(Clone, Copy, Debug, PartialEq, Eq, Structural)]
pub struct UserMarketOrders {
    /// The user this record belongs to.
    pub address: Pubkey,
    /// The market this record belongs to.
    pub market: Pubkey,
    /// Number of this user's orders currently resting across both sides.
    pub opened_orders_count: u64,
    /// Base units the user has escrowed across their resting asks.
    pub base_deposit_total: u64,
    /// Quote units the user has escrowed across their resting bids.
    pub quote_deposit_total: u64,
    /// Lifetime base units filled, as maker or taker; only ever increases.
    pub base_total_volume: u64,
    /// Lifetime quote units filled, as maker or taker; only ever increases.
    pub quote_total_volume: u64,
    pub extra: u128,
}

impl Default for UserMarketOrders {
    /// A blank record, before `create_open_orders` binds it to a user and
    /// market.
    fn default() -> (r: UserMarketOrders)
        ensures
            r == (UserMarketOrders {
                address: Pubkey(0),
                market: Pubkey(0),
                opened_orders_count: 0,
                base_deposit_total: 0,
                quote_deposit_total: 0,
                base_total_volume: 0,
                quote_total_volume: 0,
                extra: 0,
            }),
    {
        UserMarketOrders {
            address: Pubkey(0),
            market: Pubkey(0),
            opened_orders_count: 0,
            base_deposit_total: 0,
            quote_deposit_total: 0,
            base_total_volume: 0,
            quote_total_volume: 0,
            extra: 0,
        }
    }
}

} // verus!
