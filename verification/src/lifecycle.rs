//! The order lifecycle engine: place, cancel, and take.
//!
//! Each operation is a single synchronous state transition over the
//! records it touches, with the custody movement expressed on the balances
//! of the accounts involved: the caller passes the current balances and
//! the operation moves the escrowed amounts between them. Every check
//! happens strictly before any mutation, so a failing call leaves every
//! record and balance exactly as it found it and reports the specific
//! error kind.

use vstd::prelude::*;

use crate::error::HybridDexError;
use crate::global::GlobalPool;
use crate::market::{
    book_insert, book_remove, find_order_index, has_order, Book, Market, OpenedOrder, Side,
};
use crate::open_orders::UserMarketOrders;
use crate::pubkey::Pubkey;

verus! {

/// Ten to the `n`th power.
pub open spec fn pow10(n: nat) -> int
    decreases n,
{
    if n == 0 {
        1
    } else {
        10 * pow10((n - 1) as nat)
    }
}

/// Powers of ten are positive.
pub proof fn lemma_pow10_pos(n: nat)
    ensures
        pow10(n) >= 1,
    decreases n,
{
    if n > 0 {
        lemma_pow10_pos((n - 1) as nat);
    }
}

/// Powers of ten grow with the exponent.
pub proof fn lemma_pow10_monotone(a: nat, b: nat)
    requires
        a <= b,
    ensures
        pow10(a) <= pow10(b),
    decreases b,
{
    if a < b {
        lemma_pow10_monotone(a, (b - 1) as nat);
        lemma_pow10_pos((b - 1) as nat);
    }
}

/// The largest power of ten the engine scales by still fits comfortably:
/// ten to the nineteenth is below two to the sixty-fourth.
pub proof fn lemma_pow10_19_value()
    ensures
        pow10(19) == 10_000_000_000_000_000_000,
{
    reveal_with_fuel(pow10, 21);
}

/// Ten to the `n`th power, computed in double-width arithmetic.
fn pow10_u128(n: u8) -> (r: u128)
    requires
        n <= 19,
    ensures
        r == pow10(n as nat),
{
    proof {
        lemma_pow10_19_value();
    }
    let mut r: u128 = 1;
    let mut i: u8 = 0;
    while i < n
        invariant
            0 <= i <= n <= 19,
            r == pow10(i as nat),
            pow10(19) == 10_000_000_000_000_000_000,
        decreases n - i,
    {
        proof {
            lemma_pow10_monotone(i as nat, 18);
            lemma_pow10_monotone(18, 19);
        }
        r = r * 10;
        i = i + 1;
    }
    r
}

/// Base units a taker owes for a resting bid (which escrowed quote):
/// price times quantity scaled down by the quote-decimal precision,
/// truncated.
pub open spec fn bid_base_amount(price: u64, quantity: u64, quote_decimal: u8) -> int {
    (price * quantity) / pow10(quote_decimal as nat)
}

/// Quote units a taker owes for a resting ask (which escrowed base): the
/// same price relationship solved for the quote leg, truncated.
pub open spec fn ask_quote_amount(price: u64, quantity: u64, quote_decimal: u8) -> int {
    (quantity as int * pow10(quote_decimal as nat)) / (price as int)
}

/// The amount of the opposite asset a taker owes for a resting order on
/// `maker_side`.
pub open spec fn counter_amount(maker_side: Side, price: u64, quantity: u64, quote_decimal: u8) -> int {
    match maker_side {
        Side::Bid => bid_base_amount(price, quantity, quote_decimal),
        Side::Ask => ask_quote_amount(price, quantity, quote_decimal),
    }
}

/// The deposit total of the asset a resting order on `side` escrows:
/// quote for a bid, base for an ask.
pub open spec fn escrow_deposit_total(side: Side, u: UserMarketOrders) -> u64 {
    match side {
        Side::Bid => u.quote_deposit_total,
        Side::Ask => u.base_deposit_total,
    }
}

/// `u` with the deposit total of the asset escrowed on `side` replaced by
/// `v`.
pub open spec fn with_escrow_deposit_total(side: Side, u: UserMarketOrders, v: u64) -> UserMarketOrders {
    match side {
        Side::Bid => UserMarketOrders { quote_deposit_total: v, ..u },
        Side::Ask => UserMarketOrders { base_deposit_total: v, ..u },
    }
}

/// The error a place operation reports, if any: the checks in order, each
/// rejecting exactly the inputs the design names.
pub open spec fn place_error(
    global: GlobalPool,
    book: Book,
    user: UserMarketOrders,
    user_balance: u64,
    maker: Pubkey,
    quantity: u64,
) -> Option<HybridDexError> {
    if user.address != maker {
        Some(HybridDexError::InvalidAccountOwner)
    } else if user.opened_orders_count >= global.max_orders_per_user {
        Some(HybridDexError::OpenOrdersFull)
    } else if book.orders_count >= global.max_orders_per_book {
        Some(HybridDexError::OpenOrdersFull)
    } else if user_balance < quantity {
        Some(HybridDexError::InsufficientDepositBalance)
    } else {
        None
    }
}

/// What a caller must bring to `place_order`: a well-formed book of the
/// requested side, and, on the inputs the operation accepts, room for the
/// arithmetic the machine forces (the order-id counter and the running
/// totals must not wrap).
pub open spec fn place_pre(
    global: GlobalPool,
    market: Market,
    book: Book,
    user: UserMarketOrders,
    user_balance: u64,
    vault_balance: u64,
    maker: Pubkey,
    side: Side,
    quantity: u64,
) -> bool {
    &&& book.wf()
    &&& book.side == side
    &&& (place_error(global, book, user, user_balance, maker, quantity) is None ==> {
        &&& market.order_seq_num < u64::MAX
        &&& escrow_deposit_total(side, user) + quantity <= u64::MAX
        &&& vault_balance + quantity <= u64::MAX
    })
}

/// The full effect of a place operation: on rejection, the matching error
/// and every record and balance unchanged; on success, the order resting
/// at its price-time position, every count and total adjusted by exactly
/// the escrowed quantity, and the escrow moved from the maker's account to
/// the vault.
pub open spec fn place_post(
    global: GlobalPool,
    market0: Market,
    market1: Market,
    book0: Book,
    book1: Book,
    user0: UserMarketOrders,
    user1: UserMarketOrders,
    user_balance0: u64,
    user_balance1: u64,
    vault_balance0: u64,
    vault_balance1: u64,
    maker: Pubkey,
    side: Side,
    price: u64,
    quantity: u64,
    created_at: i64,
    r: Result<(), HybridDexError>,
) -> bool {
    match place_error(global, book0, user0, user_balance0, maker, quantity) {
        Some(e) => {
            &&& r == Err::<(), HybridDexError>(e)
            &&& market1 == market0
            &&& book1 == book0
            &&& user1 == user0
            &&& user_balance1 == user_balance0
            &&& vault_balance1 == vault_balance0
        },
        None => {
            let new_order = OpenedOrder {
                order_id: market0.order_seq_num,
                owner: maker,
                price,
                quantity,
                created_at,
            };
            &&& r == Ok::<(), HybridDexError>(())
            &&& market1 == (Market {
                order_seq_num: (market0.order_seq_num + 1) as u64,
                ..market0
            })
            &&& book1.side == book0.side
            &&& book1.market == book0.market
            &&& book1.orders_count == book0.orders_count + 1
            &&& book1.orders@ == book_insert(side, book0.orders@, new_order)
            &&& book1.wf()
            &&& user1 == with_escrow_deposit_total(
                side,
                (UserMarketOrders {
                    opened_orders_count: (user0.opened_orders_count + 1) as u64,
                    ..user0
                }),
                (escrow_deposit_total(side, user0) + quantity) as u64,
            )
            &&& user_balance1 == user_balance0 - quantity
            &&& vault_balance1 == vault_balance0 + quantity
        },
    }
}

/// Rests a new limit order on `book` for `maker`.
///
/// Checks, strictly before any mutation: the per-user record belongs to
/// the maker, neither the maker's open-order limit nor the book's capacity
/// is reached, and the maker's escrow-source balance covers the quantity.
/// On success the order is assigned the market's next order id, inserted
/// at its price-time position, and the quantity moves from the maker's
/// account into the market vault.
pub fn place_order(
    global: &GlobalPool,
    market: &mut Market,
    book: &mut Book,
    user_open_orders: &mut UserMarketOrders,
    user_token_amount: &mut u64,
    vault_token_amount: &mut u64,
    maker: Pubkey,
    side: Side,
    price: u64,
    quantity: u64,
    created_at: i64,
) -> (r: Result<(), HybridDexError>)
    requires
        place_pre(
            *global,
            *old(market),
            *old(book),
            *old(user_open_orders),
            *old(user_token_amount),
            *old(vault_token_amount),
            maker,
            side,
            quantity,
        ),
    ensures
        place_post(
            *global,
            *old(market),
            *final(market),
            *old(book),
            *final(book),
            *old(user_open_orders),
            *final(user_open_orders),
            *old(user_token_amount),
            *final(user_token_amount),
            *old(vault_token_amount),
            *final(vault_token_amount),
            maker,
            side,
            price,
            quantity,
            created_at,
            r,
        ),
{
    if user_open_orders.address != maker {
        return Err(HybridDexError::InvalidAccountOwner);
    }
    if user_open_orders.opened_orders_count >= global.max_orders_per_user {
        return Err(HybridDexError::OpenOrdersFull);
    }
    if book.orders_count >= global.max_orders_per_book {
        return Err(HybridDexError::OpenOrdersFull);
    }
    if *user_token_amount < quantity {
        return Err(HybridDexError::InsufficientDepositBalance);
    }
    let new_order = OpenedOrder {
        order_id: market.order_seq_num,
        owner: maker,
        price,
        quantity,
        created_at,
    };
    book.insert_order(new_order);
    book.orders_count = book.orders_count + 1;
    user_open_orders.opened_orders_count = user_open_orders.opened_orders_count + 1;
    match side {
        Side::Bid => {
            user_open_orders.quote_deposit_total = user_open_orders.quote_deposit_total + quantity;
        },
        Side::Ask => {
            user_open_orders.base_deposit_total = user_open_orders.base_deposit_total + quantity;
        },
    }
    *user_token_amount = *user_token_amount - quantity;
    *vault_token_amount = *vault_token_amount + quantity;
    market.order_seq_num = market.order_seq_num + 1;
    Ok(())
}

/// The error a cancel operation reports, if any.
pub open spec fn cancel_error(
    book: Book,
    user: UserMarketOrders,
    vault_balance: u64,
    maker: Pubkey,
    order_id: u64,
) -> Option<HybridDexError> {
    if user.address != maker {
        Some(HybridDexError::InvalidAccountOwner)
    } else if !has_order(book.orders@, order_id) {
        Some(HybridDexError::OrderNotFound)
    } else if book.orders@[find_order_index(book.orders@, order_id)].owner != maker {
        Some(HybridDexError::IncorrectMakerAddress)
    } else if vault_balance < book.orders@[find_order_index(book.orders@, order_id)].quantity {
        Some(HybridDexError::InsufficientWithdrawBalance)
    } else {
        None
    }
}

/// What a caller must bring to `cancel_order`: a well-formed book of the
/// requested side and, on the inputs the operation accepts, a per-user
/// record consistent with the resting order (its counts and deposit cover
/// what the cancel returns) and room for the refunded balance.
pub open spec fn cancel_pre(
    book: Book,
    user: UserMarketOrders,
    user_balance: u64,
    vault_balance: u64,
    maker: Pubkey,
    side: Side,
    order_id: u64,
) -> bool {
    &&& book.wf()
    &&& book.side == side
    &&& (cancel_error(book, user, vault_balance, maker, order_id) is None ==> {
        let o = book.orders@[find_order_index(book.orders@, order_id)];
        &&& user.opened_orders_count >= 1
        &&& escrow_deposit_total(side, user) >= o.quantity
        &&& user_balance + o.quantity <= u64::MAX
    })
}

/// The full effect of a cancel operation: on rejection, the matching
/// error and every record and balance unchanged; on success, the order
/// detached, every count and total reduced by exactly its quantity, and
/// the escrow moved from the vault back to the maker's account.
pub open spec fn cancel_post(
    book0: Book,
    book1: Book,
    user0: UserMarketOrders,
    user1: UserMarketOrders,
    user_balance0: u64,
    user_balance1: u64,
    vault_balance0: u64,
    vault_balance1: u64,
    maker: Pubkey,
    side: Side,
    order_id: u64,
    r: Result<(), HybridDexError>,
) -> bool {
    match cancel_error(book0, user0, vault_balance0, maker, order_id) {
        Some(e) => {
            &&& r == Err::<(), HybridDexError>(e)
            &&& book1 == book0
            &&& user1 == user0
            &&& user_balance1 == user_balance0
            &&& vault_balance1 == vault_balance0
        },
        None => {
            let o = book0.orders@[find_order_index(book0.orders@, order_id)];
            &&& r == Ok::<(), HybridDexError>(())
            &&& book1.side == book0.side
            &&& book1.market == book0.market
            &&& book1.orders_count == book0.orders_count - 1
            &&& book1.orders@ == book_remove(book0.orders@, order_id)
            &&& book1.wf()
            &&& user1 == with_escrow_deposit_total(
                side,
                (UserMarketOrders {
                    opened_orders_count: (user0.opened_orders_count - 1) as u64,
                    ..user0
                }),
                (escrow_deposit_total(side, user0) - o.quantity) as u64,
            )
            &&& user_balance1 == user_balance0 + o.quantity
            &&& vault_balance1 == vault_balance0 - o.quantity
        },
    }
}

/// Withdraws a maker's resting order from `book`.
///
/// Checks, strictly before any mutation: the per-user record belongs to
/// the maker, the order exists and is the maker's own, and the vault still
/// holds the escrowed quantity (a defensive check against external
/// drain). On success the order is detached and its quantity moves from
/// the market vault back to the maker's account.
pub fn cancel_order(
    book: &mut Book,
    user_open_orders: &mut UserMarketOrders,
    user_token_amount: &mut u64,
    vault_token_amount: &mut u64,
    maker: Pubkey,
    side: Side,
    order_id: u64,
) -> (r: Result<(), HybridDexError>)
    requires
        cancel_pre(
            *old(book),
            *old(user_open_orders),
            *old(user_token_amount),
            *old(vault_token_amount),
            maker,
            side,
            order_id,
        ),
    ensures
        cancel_post(
            *old(book),
            *final(book),
            *old(user_open_orders),
            *final(user_open_orders),
            *old(user_token_amount),
            *final(user_token_amount),
            *old(vault_token_amount),
            *final(vault_token_amount),
            maker,
            side,
            order_id,
            r,
        ),
{
    if user_open_orders.address != maker {
        return Err(HybridDexError::InvalidAccountOwner);
    }
    let idx = match book.find_order(order_id) {
        None => {
            return Err(HybridDexError::OrderNotFound);
        },
        Some(i) => i,
    };
    let order = book.orders[idx];
    if order.owner != maker {
        return Err(HybridDexError::IncorrectMakerAddress);
    }
    if *vault_token_amount < order.quantity {
        return Err(HybridDexError::InsufficientWithdrawBalance);
    }
    let removed = match book.remove_order(order_id) {
        Ok(o) => o,
        Err(_) => {
            proof {
                assert(false);
            }
            return Err(HybridDexError::OrderNotFound);
        },
    };
    book.orders_count = book.orders_count - 1;
    user_open_orders.opened_orders_count = user_open_orders.opened_orders_count - 1;
    match side {
        Side::Bid => {
            user_open_orders.quote_deposit_total = user_open_orders.quote_deposit_total
                - removed.quantity;
        },
        Side::Ask => {
            user_open_orders.base_deposit_total = user_open_orders.base_deposit_total
                - removed.quantity;
        },
    }
    *vault_token_amount = *vault_token_amount - removed.quantity;
    *user_token_amount = *user_token_amount + removed.quantity;
    Ok(())
}

/// Base units a fill of `o` on `maker_side` adds to the lifetime base
/// volume counters: the counter leg of a bid, the resting quantity of an
/// ask.
pub open spec fn base_volume_delta(maker_side: Side, o: OpenedOrder, quote_decimal: u8) -> int {
    match maker_side {
        Side::Bid => counter_amount(maker_side, o.price, o.quantity, quote_decimal),
        Side::Ask => o.quantity as int,
    }
}

/// Quote units a fill of `o` on `maker_side` adds to the lifetime quote
/// volume counters: the resting quantity of a bid, the counter leg of an
/// ask.
pub open spec fn quote_volume_delta(maker_side: Side, o: OpenedOrder, quote_decimal: u8) -> int {
    match maker_side {
        Side::Bid => o.quantity as int,
        Side::Ask => counter_amount(maker_side, o.price, o.quantity, quote_decimal),
    }
}

/// The error a take operation reports, if any.
pub open spec fn take_error(
    market: Market,
    book: Book,
    maker_user: UserMarketOrders,
    taker_user: UserMarketOrders,
    vault_balance: u64,
    taker_pay_balance: u64,
    taker: Pubkey,
    order_id: u64,
) -> Option<HybridDexError> {
    if taker_user.address != taker {
        Some(HybridDexError::InvalidAccountOwner)
    } else if !has_order(book.orders@, order_id) {
        Some(HybridDexError::OrderNotFound)
    } else {
        let o = book.orders@[find_order_index(book.orders@, order_id)];
        if o.owner != maker_user.address {
            Some(HybridDexError::IncorrectMakerAddress)
        } else if vault_balance < o.quantity {
            Some(HybridDexError::InsufficientWithdrawBalance)
        } else if taker_pay_balance < counter_amount(
            book.side,
            o.price,
            o.quantity,
            market.quote_decimal,
        ) {
            Some(HybridDexError::InsufficientDepositBalance)
        } else {
            None
        }
    }
}

/// What a caller must bring to `take_order`: a well-formed book of the
/// maker's side, a decimal precision within the engine's scaling range,
/// a resting order priced above zero whenever the ask-side counter leg
/// divides by its price, and, on the inputs the operation accepts, a maker
/// record consistent with the resting order and room in every counter the
/// settlement bumps.
pub open spec fn take_pre(
    market: Market,
    book: Book,
    maker_user: UserMarketOrders,
    taker_user: UserMarketOrders,
    vault_balance: u64,
    taker_receive_balance: u64,
    taker_pay_balance: u64,
    maker_receive_balance: u64,
    taker: Pubkey,
    maker_side: Side,
    order_id: u64,
) -> bool {
    &&& book.wf()
    &&& book.side == maker_side
    &&& market.quote_decimal <= 19
    &&& (taker_user.address == taker && has_order(book.orders@, order_id) ==> {
        let o = book.orders@[find_order_index(book.orders@, order_id)];
        o.owner == maker_user.address && vault_balance >= o.quantity && maker_side == Side::Ask
            ==> o.price > 0
    })
    &&& (take_error(
        market,
        book,
        maker_user,
        taker_user,
        vault_balance,
        taker_pay_balance,
        taker,
        order_id,
    ) is None ==> {
        let o = book.orders@[find_order_index(book.orders@, order_id)];
        let base_delta = base_volume_delta(maker_side, o, market.quote_decimal);
        let quote_delta = quote_volume_delta(maker_side, o, market.quote_decimal);
        &&& maker_user.opened_orders_count >= 1
        &&& escrow_deposit_total(maker_side, maker_user) >= o.quantity
        &&& maker_user.base_total_volume + base_delta <= u64::MAX
        &&& maker_user.quote_total_volume + quote_delta <= u64::MAX
        &&& taker_user.base_total_volume + base_delta <= u64::MAX
        &&& taker_user.quote_total_volume + quote_delta <= u64::MAX
        &&& market.base_total_volume + base_delta <= u64::MAX
        &&& market.quote_total_volume + quote_delta <= u64::MAX
        &&& taker_receive_balance + o.quantity <= u64::MAX
        &&& maker_receive_balance + counter_amount(
            maker_side,
            o.price,
            o.quantity,
            market.quote_decimal,
        ) <= u64::MAX
    })
}

/// The full effect of a take operation: on rejection, the matching error
/// and every record and balance unchanged; on success, the resting order
/// removed and fully settled — its escrow paid out of the vault to the
/// taker, the counter leg paid directly from the taker to the maker, and
/// every count, deposit and lifetime volume adjusted by exactly the two
/// legs.
pub open spec fn take_post(
    market0: Market,
    market1: Market,
    book0: Book,
    book1: Book,
    maker_user0: UserMarketOrders,
    maker_user1: UserMarketOrders,
    taker_user0: UserMarketOrders,
    taker_user1: UserMarketOrders,
    vault_balance0: u64,
    vault_balance1: u64,
    taker_receive_balance0: u64,
    taker_receive_balance1: u64,
    taker_pay_balance0: u64,
    taker_pay_balance1: u64,
    maker_receive_balance0: u64,
    maker_receive_balance1: u64,
    taker: Pubkey,
    maker_side: Side,
    order_id: u64,
    r: Result<(), HybridDexError>,
) -> bool {
    match take_error(
        market0,
        book0,
        maker_user0,
        taker_user0,
        vault_balance0,
        taker_pay_balance0,
        taker,
        order_id,
    ) {
        Some(e) => {
            &&& r == Err::<(), HybridDexError>(e)
            &&& market1 == market0
            &&& book1 == book0
            &&& maker_user1 == maker_user0
            &&& taker_user1 == taker_user0
            &&& vault_balance1 == vault_balance0
            &&& taker_receive_balance1 == taker_receive_balance0
            &&& taker_pay_balance1 == taker_pay_balance0
            &&& maker_receive_balance1 == maker_receive_balance0
        },
        None => {
            let o = book0.orders@[find_order_index(book0.orders@, order_id)];
            let amount = counter_amount(maker_side, o.price, o.quantity, market0.quote_decimal);
            let base_delta = base_volume_delta(maker_side, o, market0.quote_decimal);
            let quote_delta = quote_volume_delta(maker_side, o, market0.quote_decimal);
            &&& r == Ok::<(), HybridDexError>(())
            &&& market1 == (Market {
                base_total_volume: (market0.base_total_volume + base_delta) as u64,
                quote_total_volume: (market0.quote_total_volume + quote_delta) as u64,
                ..market0
            })
            &&& book1.side == book0.side
            &&& book1.market == book0.market
            &&& book1.orders_count == book0.orders_count - 1
            &&& book1.orders@ == book_remove(book0.orders@, order_id)
            &&& book1.wf()
            &&& maker_user1 == with_escrow_deposit_total(
                maker_side,
                (UserMarketOrders {
                    opened_orders_count: (maker_user0.opened_orders_count - 1) as u64,
                    base_total_volume: (maker_user0.base_total_volume + base_delta) as u64,
                    quote_total_volume: (maker_user0.quote_total_volume + quote_delta) as u64,
                    ..maker_user0
                }),
                (escrow_deposit_total(maker_side, maker_user0) - o.quantity) as u64,
            )
            &&& taker_user1 == (UserMarketOrders {
                base_total_volume: (taker_user0.base_total_volume + base_delta) as u64,
                quote_total_volume: (taker_user0.quote_total_volume + quote_delta) as u64,
                ..taker_user0
            })
            &&& vault_balance1 == vault_balance0 - o.quantity
            &&& taker_receive_balance1 == taker_receive_balance0 + o.quantity
            &&& taker_pay_balance1 == taker_pay_balance0 - amount
            &&& maker_receive_balance1 == maker_receive_balance0 + amount
        },
    }
}

/// Fully fills a resting order on `book` with an opposite-side taker.
///
/// Checks, strictly before any mutation: the taker's record belongs to the
/// taker, the order exists and belongs to the maker record's owner, the
/// vault still holds the order's escrow, and the taker can pay the counter
/// leg — computed in double-width arithmetic and truncated. On success the
/// order's escrow moves from the vault to the taker, the counter leg moves
/// directly from the taker to the maker, and every lifetime volume counter
/// advances by the two legs.
pub fn take_order(
    market: &mut Market,
    book: &mut Book,
    maker_open_orders: &mut UserMarketOrders,
    taker_open_orders: &mut UserMarketOrders,
    vault_token_amount: &mut u64,
    taker_receive_amount: &mut u64,
    taker_pay_amount: &mut u64,
    maker_receive_amount: &mut u64,
    taker: Pubkey,
    maker_side: Side,
    order_id: u64,
) -> (r: Result<(), HybridDexError>)
    requires
        take_pre(
            *old(market),
            *old(book),
            *old(maker_open_orders),
            *old(taker_open_orders),
            *old(vault_token_amount),
            *old(taker_receive_amount),
            *old(taker_pay_amount),
            *old(maker_receive_amount),
            taker,
            maker_side,
            order_id,
        ),
    ensures
        take_post(
            *old(market),
            *final(market),
            *old(book),
            *final(book),
            *old(maker_open_orders),
            *final(maker_open_orders),
            *old(taker_open_orders),
            *final(taker_open_orders),
            *old(vault_token_amount),
            *final(vault_token_amount),
            *old(taker_receive_amount),
            *final(taker_receive_amount),
            *old(taker_pay_amount),
            *final(taker_pay_amount),
            *old(maker_receive_amount),
            *final(maker_receive_amount),
            taker,
            maker_side,
            order_id,
            r,
        ),
{
    if taker_open_orders.address != taker {
        return Err(HybridDexError::InvalidAccountOwner);
    }
    let idx = match book.find_order(order_id) {
        None => {
            return Err(HybridDexError::OrderNotFound);
        },
        Some(i) => i,
    };
    let order = book.orders[idx];
    if order.owner != maker_open_orders.address {
        return Err(HybridDexError::IncorrectMakerAddress);
    }
    if *vault_token_amount < order.quantity {
        return Err(HybridDexError::InsufficientWithdrawBalance);
    }
    let scale: u128 = pow10_u128(market.quote_decimal);
    proof {
        lemma_pow10_pos(market.quote_decimal as nat);
        lemma_pow10_monotone(market.quote_decimal as nat, 19);
        lemma_pow10_19_value();
    }
    let amount_wide: u128 = match maker_side {
        Side::Bid => {
            proof {
                assert(order.price as int * order.quantity as int <= u128::MAX)
                    by (nonlinear_arith)
                    requires
                        0 <= order.price <= u64::MAX,
                        0 <= order.quantity <= u64::MAX,
                ;
            }
            (order.price as u128) * (order.quantity as u128) / scale
        },
        Side::Ask => {
            proof {
                assert(order.quantity as int * scale as int <= u128::MAX)
                    by (nonlinear_arith)
                    requires
                        0 <= order.quantity <= u64::MAX,
                        0 <= scale <= 10_000_000_000_000_000_000,
                ;
            }
            (order.quantity as u128) * scale / (order.price as u128)
        },
    };
    if (*taker_pay_amount as u128) < amount_wide {
        return Err(HybridDexError::InsufficientDepositBalance);
    }
    let amount: u64 = amount_wide as u64;
    let removed = match book.remove_order(order_id) {
        Ok(o) => o,
        Err(_) => {
            proof {
                assert(false);
            }
            return Err(HybridDexError::OrderNotFound);
        },
    };
    book.orders_count = book.orders_count - 1;
    maker_open_orders.opened_orders_count = maker_open_orders.opened_orders_count - 1;
    match maker_side {
        Side::Bid => {
            maker_open_orders.quote_deposit_total = maker_open_orders.quote_deposit_total
                - removed.quantity;
            maker_open_orders.base_total_volume = maker_open_orders.base_total_volume + amount;
            maker_open_orders.quote_total_volume = maker_open_orders.quote_total_volume
                + removed.quantity;
            taker_open_orders.base_total_volume = taker_open_orders.base_total_volume + amount;
            taker_open_orders.quote_total_volume = taker_open_orders.quote_total_volume
                + removed.quantity;
            market.base_total_volume = market.base_total_volume + amount;
            market.quote_total_volume = market.quote_total_volume + removed.quantity;
        },
        Side::Ask => {
            maker_open_orders.base_deposit_total = maker_open_orders.base_deposit_total
                - removed.quantity;
            maker_open_orders.base_total_volume = maker_open_orders.base_total_volume
                + removed.quantity;
            maker_open_orders.quote_total_volume = maker_open_orders.quote_total_volume + amount;
            taker_open_orders.base_total_volume = taker_open_orders.base_total_volume
                + removed.quantity;
            taker_open_orders.quote_total_volume = taker_open_orders.quote_total_volume + amount;
            market.base_total_volume = market.base_total_volume + removed.quantity;
            market.quote_total_volume = market.quote_total_volume + amount;
        },
    }
    *vault_token_amount = *vault_token_amount - removed.quantity;
    *taker_receive_amount = *taker_receive_amount + removed.quantity;
    *taker_pay_amount = *taker_pay_amount - amount;
    *maker_receive_amount = *maker_receive_amount + amount;
    Ok(())
}

/// Rests a buy order: escrows `quantity` of the maker's quote balance.
pub fn place_buy_order(
    global: &GlobalPool,
    market: &mut Market,
    bids_book: &mut Book,
    user_open_orders: &mut UserMarketOrders,
    user_quote_amount: &mut u64,
    quote_vault_amount: &mut u64,
    maker: Pubkey,
    price: u64,
    quantity: u64,
    created_at: i64,
) -> (r: Result<(), HybridDexError>)
    requires
        place_pre(
            *global,
            *old(market),
            *old(bids_book),
            *old(user_open_orders),
            *old(user_quote_amount),
            *old(quote_vault_amount),
            maker,
            Side::Bid,
            quantity,
        ),
    ensures
        place_post(
            *global,
            *old(market),
            *final(market),
            *old(bids_book),
            *final(bids_book),
            *old(user_open_orders),
            *final(user_open_orders),
            *old(user_quote_amount),
            *final(user_quote_amount),
            *old(quote_vault_amount),
            *final(quote_vault_amount),
            maker,
            Side::Bid,
            price,
            quantity,
            created_at,
            r,
        ),
{
    place_order(
        global,
        market,
        bids_book,
        user_open_orders,
        user_quote_amount,
        quote_vault_amount,
        maker,
        Side::Bid,
        price,
        quantity,
        created_at,
    )
}

/// Rests a sell order: escrows `quantity` of the maker's base balance.
pub fn place_sell_order(
    global: &GlobalPool,
    market: &mut Market,
    asks_book: &mut Book,
    user_open_orders: &mut UserMarketOrders,
    user_base_amount: &mut u64,
    base_vault_amount: &mut u64,
    maker: Pubkey,
    price: u64,
    quantity: u64,
    created_at: i64,
) -> (r: Result<(), HybridDexError>)
    requires
        place_pre(
            *global,
            *old(market),
            *old(asks_book),
            *old(user_open_orders),
            *old(user_base_amount),
            *old(base_vault_amount),
            maker,
            Side::Ask,
            quantity,
        ),
    ensures
        place_post(
            *global,
            *old(market),
            *final(market),
            *old(asks_book),
            *final(asks_book),
            *old(user_open_orders),
            *final(user_open_orders),
            *old(user_base_amount),
            *final(user_base_amount),
            *old(base_vault_amount),
            *final(base_vault_amount),
            maker,
            Side::Ask,
            price,
            quantity,
            created_at,
            r,
        ),
{
    place_order(
        global,
        market,
        asks_book,
        user_open_orders,
        user_base_amount,
        base_vault_amount,
        maker,
        Side::Ask,
        price,
        quantity,
        created_at,
    )
}

/// Withdraws one of the maker's resting buy orders and refunds its quote
/// escrow.
pub fn cancel_buy_order(
    bids_book: &mut Book,
    user_open_orders: &mut UserMarketOrders,
    user_quote_amount: &mut u64,
    quote_vault_amount: &mut u64,
    maker: Pubkey,
    order_id: u64,
) -> (r: Result<(), HybridDexError>)
    requires
        cancel_pre(
            *old(bids_book),
            *old(user_open_orders),
            *old(user_quote_amount),
            *old(quote_vault_amount),
            maker,
            Side::Bid,
            order_id,
        ),
    ensures
        cancel_post(
            *old(bids_book),
            *final(bids_book),
            *old(user_open_orders),
            *final(user_open_orders),
            *old(user_quote_amount),
            *final(user_quote_amount),
            *old(quote_vault_amount),
            *final(quote_vault_amount),
            maker,
            Side::Bid,
            order_id,
            r,
        ),
{
    cancel_order(
        bids_book,
        user_open_orders,
        user_quote_amount,
        quote_vault_amount,
        maker,
        Side::Bid,
        order_id,
    )
}

/// Withdraws one of the maker's resting sell orders and refunds its base
/// escrow.
pub fn cancel_sell_order(
    asks_book: &mut Book,
    user_open_orders: &mut UserMarketOrders,
    user_base_amount: &mut u64,
    base_vault_amount: &mut u64,
    maker: Pubkey,
    order_id: u64,
) -> (r: Result<(), HybridDexError>)
    requires
        cancel_pre(
            *old(asks_book),
            *old(user_open_orders),
            *old(user_base_amount),
            *old(base_vault_amount),
            maker,
            Side::Ask,
            order_id,
        ),
    ensures
        cancel_post(
            *old(asks_book),
            *final(asks_book),
            *old(user_open_orders),
            *final(user_open_orders),
            *old(user_base_amount),
            *final(user_base_amount),
            *old(base_vault_amount),
            *final(base_vault_amount),
            maker,
            Side::Ask,
            order_id,
            r,
        ),
{
    cancel_order(
        asks_book,
        user_open_orders,
        user_base_amount,
        base_vault_amount,
        maker,
        Side::Ask,
        order_id,
    )
}

/// Fills a resting buy order: the taker receives its quote escrow from the
/// vault and pays the base counter leg directly to the maker.
pub fn take_buy_order(
    market: &mut Market,
    bids_book: &mut Book,
    maker_open_orders: &mut UserMarketOrders,
    taker_open_orders: &mut UserMarketOrders,
    quote_vault_amount: &mut u64,
    taker_quote_amount: &mut u64,
    taker_base_amount: &mut u64,
    maker_base_amount: &mut u64,
    taker: Pubkey,
    order_id: u64,
) -> (r: Result<(), HybridDexError>)
    requires
        take_pre(
            *old(market),
            *old(bids_book),
            *old(maker_open_orders),
            *old(taker_open_orders),
            *old(quote_vault_amount),
            *old(taker_quote_amount),
            *old(taker_base_amount),
            *old(maker_base_amount),
            taker,
            Side::Bid,
            order_id,
        ),
    ensures
        take_post(
            *old(market),
            *final(market),
            *old(bids_book),
            *final(bids_book),
            *old(maker_open_orders),
            *final(maker_open_orders),
            *old(taker_open_orders),
            *final(taker_open_orders),
            *old(quote_vault_amount),
            *final(quote_vault_amount),
            *old(taker_quote_amount),
            *final(taker_quote_amount),
            *old(taker_base_amount),
            *final(taker_base_amount),
            *old(maker_base_amount),
            *final(maker_base_amount),
            taker,
            Side::Bid,
            order_id,
            r,
        ),
{
    take_order(
        market,
        bids_book,
        maker_open_orders,
        taker_open_orders,
        quote_vault_amount,
        taker_quote_amount,
        taker_base_amount,
        maker_base_amount,
        taker,
        Side::Bid,
        order_id,
    )
}

/// Fills a resting sell order: the taker receives its base escrow from the
/// vault and pays the quote counter leg directly to the maker.
pub fn take_sell_order(
    market: &mut Market,
    asks_book: &mut Book,
    maker_open_orders: &mut UserMarketOrders,
    taker_open_orders: &mut UserMarketOrders,
    base_vault_amount: &mut u64,
    taker_base_amount: &mut u64,
    taker_quote_amount: &mut u64,
    maker_quote_amount: &mut u64,
    taker: Pubkey,
    order_id: u64,
) -> (r: Result<(), HybridDexError>)
    requires
        take_pre(
            *old(market),
            *old(asks_book),
            *old(maker_open_orders),
            *old(taker_open_orders),
            *old(base_vault_amount),
            *old(taker_base_amount),
            *old(taker_quote_amount),
            *old(maker_quote_amount),
            taker,
            Side::Ask,
            order_id,
        ),
    ensures
        take_post(
            *old(market),
            *final(market),
            *old(asks_book),
            *final(asks_book),
            *old(maker_open_orders),
            *final(maker_open_orders),
            *old(taker_open_orders),
            *final(taker_open_orders),
            *old(base_vault_amount),
            *final(base_vault_amount),
            *old(taker_base_amount),
            *final(taker_base_amount),
            *old(taker_quote_amount),
            *final(taker_quote_amount),
            *old(maker_quote_amount),
            *final(maker_quote_amount),
            taker,
            Side::Ask,
            order_id,
            r,
        ),
{
    take_order(
        market,
        asks_book,
        maker_open_orders,
        taker_open_orders,
        base_vault_amount,
        taker_base_amount,
        taker_quote_amount,
        maker_quote_amount,
        taker,
        Side::Ask,
        order_id,
    )
}

} // verus!
