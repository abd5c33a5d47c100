//! Configuration and market administration.
//!
//! Thin mutations of the global configuration and of market records:
//! initialization, admin transfer, limit changes, market creation and
//! closing, and creation of per-user order records. Authorization by
//! signature is the dispatch layer's job; these operations re-validate what
//! can be checked structurally (stored admin and authority identities) and
//! reject with the matching error kind, mutating nothing on failure.

use vstd::prelude::*;

use crate::error::HybridDexError;
use crate::global::GlobalPool;
use crate::market::{Book, Market, Side, MARKET_NAME_LEN};
use crate::open_orders::UserMarketOrders;
use crate::pubkey::Pubkey;
use crate::utils::{fill_from_str, zero_padded};

verus! {

/// Binds the global configuration to its first admin and records the two
/// order limits every market will enforce.
pub fn initialize(
    global: &mut GlobalPool,
    admin: Pubkey,
    max_orders_per_user: u64,
    max_orders_per_book: u64,
) -> (r: Result<(), HybridDexError>)
    ensures
        r == Ok::<(), HybridDexError>(()),
        *final(global) == (GlobalPool {
            admin,
            max_orders_per_user,
            max_orders_per_book,
            ..*old(global)
        }),
{
    global.admin = admin;
    global.max_orders_per_user = max_orders_per_user;
    global.max_orders_per_book = max_orders_per_book;
    Ok(())
}

/// Hands the admin role to `new_admin`. Only the current admin may do so:
/// any other signer is rejected with `InvalidAdmin` and nothing changes.
pub fn transfer_admin(
    global: &mut GlobalPool,
    signer: Pubkey,
    new_admin: Pubkey,
) -> (r: Result<(), HybridDexError>)
    ensures
        signer != old(global).admin ==> {
            &&& r == Err::<(), HybridDexError>(HybridDexError::InvalidAdmin)
            &&& *final(global) == *old(global)
        },
        signer == old(global).admin ==> {
            &&& r == Ok::<(), HybridDexError>(())
            &&& *final(global) == (GlobalPool { admin: new_admin, ..*old(global) })
        },
{
    if signer != global.admin {
        return Err(HybridDexError::InvalidAdmin);
    }
    global.admin = new_admin;
    Ok(())
}

/// Adjusts either or both order limits; an absent argument leaves its
/// limit as it was. Only the admin may do so: any other signer is rejected
/// with `InvalidAdmin` and nothing changes.
pub fn change_config(
    global: &mut GlobalPool,
    signer: Pubkey,
    max_orders_per_user: Option<u64>,
    max_orders_per_book: Option<u64>,
) -> (r: Result<(), HybridDexError>)
    ensures
        signer != old(global).admin ==> {
            &&& r == Err::<(), HybridDexError>(HybridDexError::InvalidAdmin)
            &&& *final(global) == *old(global)
        },
        signer == old(global).admin ==> {
            &&& r == Ok::<(), HybridDexError>(())
            &&& final(global).max_orders_per_user == match max_orders_per_user {
                Some(v) => v,
                None => old(global).max_orders_per_user,
            }
            &&& final(global).max_orders_per_book == match max_orders_per_book {
                Some(v) => v,
                None => old(global).max_orders_per_book,
            }
            &&& final(global).admin == old(global).admin
            &&& final(global).total_market_count == old(global).total_market_count
            &&& final(global).market_seq_num == old(global).market_seq_num
            &&& final(global).extra == old(global).extra
        },
{
    if signer != global.admin {
        return Err(HybridDexError::InvalidAdmin);
    }
    if let Some(value) = max_orders_per_user {
        global.max_orders_per_user = value;
    }
    if let Some(value) = max_orders_per_book {
        global.max_orders_per_book = value;
    }
    Ok(())
}

/// Sets up a market record and its two empty book sides, named after the
/// caller-located record addresses, and advances the global market
/// counters. A name wider than the fixed storage is rejected with
/// `InvalidInputNameLength` and nothing changes.
pub fn create_market(
    global: &mut GlobalPool,
    market: &mut Market,
    bids_book: &mut Book,
    asks_book: &mut Book,
    authority: Pubkey,
    base_mint: Pubkey,
    quote_mint: Pubkey,
    base_decimal: u8,
    quote_decimal: u8,
    market_key: Pubkey,
    bids_key: Pubkey,
    asks_key: Pubkey,
    created_at: i64,
    name: &Vec<u8>,
) -> (r: Result<(), HybridDexError>)
    requires
        name@.len() <= MARKET_NAME_LEN ==> {
            &&& old(global).market_seq_num < u64::MAX
            &&& old(global).total_market_count < u64::MAX
        },
    ensures
        name@.len() > MARKET_NAME_LEN ==> {
            &&& r == Err::<(), HybridDexError>(HybridDexError::InvalidInputNameLength)
            &&& *final(global) == *old(global)
            &&& *final(market) == *old(market)
            &&& *final(bids_book) == *old(bids_book)
            &&& *final(asks_book) == *old(asks_book)
        },
        name@.len() <= MARKET_NAME_LEN ==> {
            &&& r == Ok::<(), HybridDexError>(())
            &&& *final(global) == (GlobalPool {
                total_market_count: (old(global).total_market_count + 1) as u64,
                market_seq_num: (old(global).market_seq_num + 1) as u64,
                ..*old(global)
            })
            &&& final(market).seed == old(global).market_seq_num
            &&& final(market).name@ == zero_padded(name@, MARKET_NAME_LEN as int)
            &&& final(market).market_authority == authority
            &&& final(market).base_mint == base_mint
            &&& final(market).quote_mint == quote_mint
            &&& final(market).base_decimal == base_decimal
            &&& final(market).quote_decimal == quote_decimal
            &&& final(market).bids == bids_key
            &&& final(market).asks == asks_key
            &&& final(market).created_at == created_at
            &&& final(market).base_total_volume == 0
            &&& final(market).quote_total_volume == 0
            &&& final(market).order_seq_num == 0
            &&& final(market).extra == 0
            &&& final(bids_book).side == Side::Bid
            &&& final(bids_book).market == market_key
            &&& final(bids_book).orders_count == 0
            &&& final(bids_book).orders@.len() == 0
            &&& final(bids_book).wf()
            &&& final(asks_book).side == Side::Ask
            &&& final(asks_book).market == market_key
            &&& final(asks_book).orders_count == 0
            &&& final(asks_book).orders@.len() == 0
            &&& final(asks_book).wf()
        },
{
    let stored_name = match fill_from_str::<MARKET_NAME_LEN>(name) {
        Ok(v) => v,
        Err(e) => {
            return Err(e);
        },
    };
    *market = Market {
        seed: global.market_seq_num,
        name: stored_name,
        market_authority: authority,
        base_mint,
        quote_mint,
        base_decimal,
        quote_decimal,
        bids: bids_key,
        asks: asks_key,
        created_at,
        base_total_volume: 0,
        quote_total_volume: 0,
        order_seq_num: 0,
        extra: 0,
    };
    *bids_book = Book { side: Side::Bid, market: market_key, orders_count: 0, orders: Vec::new() };
    *asks_book = Book { side: Side::Ask, market: market_key, orders_count: 0, orders: Vec::new() };
    global.total_market_count = global.total_market_count + 1;
    global.market_seq_num = global.market_seq_num + 1;
    Ok(())
}

/// Retires a market. Only its recorded authority may close it, and only
/// once both sides are empty; otherwise the matching error is reported and
/// nothing changes. Releasing the records themselves is the host's job;
/// the core decrements the market count.
pub fn close_market(
    global: &mut GlobalPool,
    market: &Market,
    bids_book: &Book,
    asks_book: &Book,
    authority: Pubkey,
) -> (r: Result<(), HybridDexError>)
    requires
        market.market_authority == authority && bids_book.orders_count == 0
            && asks_book.orders_count == 0 ==> old(global).total_market_count >= 1,
    ensures
        market.market_authority != authority ==> {
            &&& r == Err::<(), HybridDexError>(HybridDexError::InvalidCloseMarketAdmin)
            &&& *final(global) == *old(global)
        },
        market.market_authority == authority && !(bids_book.orders_count == 0
            && asks_book.orders_count == 0) ==> {
            &&& r == Err::<(), HybridDexError>(HybridDexError::NonEmptyMarket)
            &&& *final(global) == *old(global)
        },
        market.market_authority == authority && bids_book.orders_count == 0
            && asks_book.orders_count == 0 ==> {
            &&& r == Ok::<(), HybridDexError>(())
            &&& *final(global) == (GlobalPool {
                total_market_count: (old(global).total_market_count - 1) as u64,
                ..*old(global)
            })
        },
{
    if market.market_authority != authority {
        return Err(HybridDexError::InvalidCloseMarketAdmin);
    }
    if !(bids_book.orders_count == 0 && asks_book.orders_count == 0) {
        return Err(HybridDexError::NonEmptyMarket);
    }
    global.total_market_count = global.total_market_count - 1;
    Ok(())
}

/// Binds a fresh per-user order record to its user and market.
pub fn create_open_orders(
    user_open_orders: &mut UserMarketOrders,
    user: Pubkey,
    market_key: Pubkey,
) -> (r: Result<(), HybridDexError>)
    ensures
        r == Ok::<(), HybridDexError>(()),
        *final(user_open_orders) == (UserMarketOrders {
            address: user,
            market: market_key,
            ..*old(user_open_orders)
        }),
{
    user_open_orders.address = user;
    user_open_orders.market = market_key;
    Ok(())
}

} // verus!
