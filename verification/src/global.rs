//! The process-wide configuration record.

use vstd::prelude::*;

use crate::pubkey::Pubkey;

verus! {

/// Serialized size of the global configuration record, in bytes.
pub const GLOBAL_POOL_DATA_SIZE: usize = 64;

/// The one process-wide configuration record: the admin identity, the
/// order limits every market enforces, and market bookkeeping counters.
#[derive(Clone, Copy, Debug, PartialEq, Eq, Structural)]
pub struct GlobalPool {
    /// The identity allowed to change this record.
    pub admin: Pubkey,
    /// Most orders a single user may have open per market.
    pub max_orders_per_user: u64,
    /// Most orders a single book side may hold; fixes the side's capacity
    /// at market creation.
    pub max_orders_per_book: u64,
    /// Number of currently existing markets.
    pub total_market_count: u64,
    /// Seed for the next market to create; only ever increases.
    pub market_seq_num: u64,
    pub extra: u128,
}

impl Default for GlobalPool {
    /// A blank configuration record, before `initialize` binds an admin.
    fn default() -> (r: GlobalPool)
        ensures
            r == (GlobalPool {
                admin: Pubkey(0),
                max_orders_per_user: 0,
                max_orders_per_book: 0,
                total_market_count: 0,
                market_seq_num: 0,
                extra: 0,
            }),
    {
        GlobalPool {
            admin: Pubkey(0),
            max_orders_per_user: 0,
            max_orders_per_book: 0,
            total_market_count: 0,
            market_seq_num: 0,
            extra: 0,
        }
    }
}

} // verus!
