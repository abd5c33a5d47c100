use hybrid_dex::error::HybridDexError;
use hybrid_dex::global::GlobalPool;
use hybrid_dex::lifecycle::{
    cancel_buy_order, cancel_order, cancel_sell_order, place_buy_order, place_order,
    place_sell_order, take_buy_order, take_order, take_sell_order,
};
use hybrid_dex::market::{Book, Market, Side};
use hybrid_dex::open_orders::UserMarketOrders;
use hybrid_dex::pubkey::Pubkey;

fn maker() -> Pubkey {
    Pubkey(7)
}

fn taker() -> Pubkey {
    Pubkey(8)
}

fn market_key() -> Pubkey {
    Pubkey(5)
}

fn test_global(max_per_user: u64, max_per_book: u64) -> GlobalPool {
    GlobalPool {
        admin: Pubkey(1),
        max_orders_per_user: max_per_user,
        max_orders_per_book: max_per_book,
        total_market_count: 1,
        market_seq_num: 1,
        extra: 0,
    }
}

fn test_market(quote_decimal: u8) -> Market {
    Market {
        seed: 0,
        name: vec![0u8; 16],
        market_authority: Pubkey(2),
        base_mint: Pubkey(3),
        quote_mint: Pubkey(4),
        base_decimal: 0,
        quote_decimal,
        bids: Pubkey(15),
        asks: Pubkey(16),
        created_at: 0,
        base_total_volume: 0,
        quote_total_volume: 0,
        order_seq_num: 0,
        extra: 0,
    }
}

fn test_book(side: Side) -> Book {
    Book {
        side,
        market: market_key(),
        orders_count: 0,
        orders: vec![],
    }
}

fn test_user(address: Pubkey) -> UserMarketOrders {
    UserMarketOrders {
        address,
        market: market_key(),
        opened_orders_count: 0,
        base_deposit_total: 0,
        quote_deposit_total: 0,
        base_total_volume: 0,
        quote_total_volume: 0,
        extra: 0,
    }
}

#[test]
fn capacity_two_best_bid_first_then_full() {
    // side capacity 2: two bids land best-price-first, a third is refused
    let global = test_global(10, 2);
    let mut market = test_market(4);
    let mut book = test_book(Side::Bid);
    let mut user = test_user(maker());
    let mut user_quote: u64 = 100;
    let mut quote_vault: u64 = 0;

    let r1 = place_buy_order(
        &global, &mut market, &mut book, &mut user, &mut user_quote, &mut quote_vault, maker(), 10,
        5, 0,
    );
    assert_eq!(r1, Ok(()));
    let r2 = place_buy_order(
        &global, &mut market, &mut book, &mut user, &mut user_quote, &mut quote_vault, maker(), 20,
        5, 0,
    );
    assert_eq!(r2, Ok(()));
    let prices: Vec<u64> = book.orders.iter().map(|o| o.price).collect();
    assert_eq!(prices, vec![20, 10]);

    let market_before = market.order_seq_num;
    let r3 = place_buy_order(
        &global, &mut market, &mut book, &mut user, &mut user_quote, &mut quote_vault, maker(), 30,
        5, 0,
    );
    assert_eq!(r3, Err(HybridDexError::OpenOrdersFull));
    assert_eq!(book.orders.len(), 2);
    assert_eq!(book.orders_count, 2);
    assert_eq!(market.order_seq_num, market_before);
    assert_eq!(user_quote, 90);
    assert_eq!(quote_vault, 10);
}

#[test]
fn per_user_limit_is_enforced() {
    let global = test_global(1, 10);
    let mut market = test_market(4);
    let mut book = test_book(Side::Bid);
    let mut user = test_user(maker());
    let mut user_quote: u64 = 100;
    let mut quote_vault: u64 = 0;

    let r1 = place_order(
        &global, &mut market, &mut book, &mut user, &mut user_quote, &mut quote_vault, maker(),
        Side::Bid, 10, 5, 0,
    );
    assert_eq!(r1, Ok(()));
    let r2 = place_order(
        &global, &mut market, &mut book, &mut user, &mut user_quote, &mut quote_vault, maker(),
        Side::Bid, 20, 5, 0,
    );
    assert_eq!(r2, Err(HybridDexError::OpenOrdersFull));
    assert_eq!(user.opened_orders_count, 1);
}

#[test]
fn place_rejects_poor_maker() {
    let global = test_global(10, 10);
    let mut market = test_market(4);
    let mut book = test_book(Side::Ask);
    let mut user = test_user(maker());
    let mut user_base: u64 = 2;
    let mut base_vault: u64 = 0;

    let r = place_sell_order(
        &global, &mut market, &mut book, &mut user, &mut user_base, &mut base_vault, maker(), 100,
        3, 0,
    );
    assert_eq!(r, Err(HybridDexError::InsufficientDepositBalance));
    assert_eq!(user_base, 2);
    assert_eq!(base_vault, 0);
    assert_eq!(book.orders.len(), 0);
    assert_eq!(user.opened_orders_count, 0);
}

#[test]
fn place_rejects_foreign_user_record() {
    let global = test_global(10, 10);
    let mut market = test_market(4);
    let mut book = test_book(Side::Bid);
    let mut user = test_user(Pubkey(99)); // belongs to someone else
    let mut user_quote: u64 = 100;
    let mut quote_vault: u64 = 0;

    let r = place_order(
        &global, &mut market, &mut book, &mut user, &mut user_quote, &mut quote_vault, maker(),
        Side::Bid, 10, 5, 0,
    );
    assert_eq!(r, Err(HybridDexError::InvalidAccountOwner));
    assert_eq!(book.orders.len(), 0);
}

#[test]
fn take_sell_order_settles_both_legs() {
    // ask price 100, quantity 3, quote decimals 4: the quote leg is
    // 3 * 10^4 / 100 == 300
    let global = test_global(10, 10);
    let mut market = test_market(4);
    let mut book = test_book(Side::Ask);
    let mut maker_user = test_user(maker());
    let mut taker_user = test_user(taker());
    let mut maker_base: u64 = 3;
    let mut base_vault: u64 = 0;

    let r = place_sell_order(
        &global, &mut market, &mut book, &mut maker_user, &mut maker_base, &mut base_vault,
        maker(), 100, 3, 0,
    );
    assert_eq!(r, Ok(()));
    assert_eq!(maker_base, 0);
    assert_eq!(base_vault, 3);
    assert_eq!(maker_user.base_deposit_total, 3);

    let mut taker_base: u64 = 0;
    let mut taker_quote: u64 = 400;
    let mut maker_quote: u64 = 0;
    let r2 = take_sell_order(
        &mut market, &mut book, &mut maker_user, &mut taker_user, &mut base_vault,
        &mut taker_base, &mut taker_quote, &mut maker_quote, taker(), 0,
    );
    assert_eq!(r2, Ok(()));
    assert_eq!(book.orders_count, 0);
    assert_eq!(book.orders.len(), 0);
    assert_eq!(base_vault, 0);
    assert_eq!(taker_base, 3);
    assert_eq!(taker_quote, 100);
    assert_eq!(maker_quote, 300);
    assert_eq!(maker_user.base_deposit_total, 0);
    assert_eq!(maker_user.opened_orders_count, 0);
    assert_eq!(maker_user.base_total_volume, 3);
    assert_eq!(maker_user.quote_total_volume, 300);
    assert_eq!(taker_user.base_total_volume, 3);
    assert_eq!(taker_user.quote_total_volume, 300);
    assert_eq!(market.base_total_volume, 3);
    assert_eq!(market.quote_total_volume, 300);
}

#[test]
fn take_buy_order_settles_both_legs() {
    // bid price 20000, quantity 50 quote units, quote decimals 4: the base
    // leg is 20000 * 50 / 10^4 == 100
    let global = test_global(10, 10);
    let mut market = test_market(4);
    let mut book = test_book(Side::Bid);
    let mut maker_user = test_user(maker());
    let mut taker_user = test_user(taker());
    let mut maker_quote: u64 = 50;
    let mut quote_vault: u64 = 0;

    let r = place_buy_order(
        &global, &mut market, &mut book, &mut maker_user, &mut maker_quote, &mut quote_vault,
        maker(), 20000, 50, 0,
    );
    assert_eq!(r, Ok(()));

    let mut taker_quote: u64 = 0;
    let mut taker_base: u64 = 150;
    let mut maker_base: u64 = 0;
    let r2 = take_buy_order(
        &mut market, &mut book, &mut maker_user, &mut taker_user, &mut quote_vault,
        &mut taker_quote, &mut taker_base, &mut maker_base, taker(), 0,
    );
    assert_eq!(r2, Ok(()));
    assert_eq!(quote_vault, 0);
    assert_eq!(taker_quote, 50);
    assert_eq!(taker_base, 50);
    assert_eq!(maker_base, 100);
    assert_eq!(maker_user.quote_deposit_total, 0);
    assert_eq!(market.base_total_volume, 100);
    assert_eq!(market.quote_total_volume, 50);
}

#[test]
fn take_rejects_poor_taker() {
    let global = test_global(10, 10);
    let mut market = test_market(4);
    let mut book = test_book(Side::Ask);
    let mut maker_user = test_user(maker());
    let mut taker_user = test_user(taker());
    let mut maker_base: u64 = 3;
    let mut base_vault: u64 = 0;
    place_sell_order(
        &global, &mut market, &mut book, &mut maker_user, &mut maker_base, &mut base_vault,
        maker(), 100, 3, 0,
    )
    .unwrap();

    let mut taker_base: u64 = 0;
    let mut taker_quote: u64 = 299; // one short of the 300 quote leg
    let mut maker_quote: u64 = 0;
    let r = take_sell_order(
        &mut market, &mut book, &mut maker_user, &mut taker_user, &mut base_vault,
        &mut taker_base, &mut taker_quote, &mut maker_quote, taker(), 0,
    );
    assert_eq!(r, Err(HybridDexError::InsufficientDepositBalance));
    assert_eq!(book.orders.len(), 1);
    assert_eq!(base_vault, 3);
    assert_eq!(taker_quote, 299);
    assert_eq!(maker_quote, 0);
    assert_eq!(market.base_total_volume, 0);
}

#[test]
fn take_rejects_drained_vault() {
    let global = test_global(10, 10);
    let mut market = test_market(4);
    let mut book = test_book(Side::Ask);
    let mut maker_user = test_user(maker());
    let mut taker_user = test_user(taker());
    let mut maker_base: u64 = 3;
    let mut base_vault: u64 = 0;
    place_sell_order(
        &global, &mut market, &mut book, &mut maker_user, &mut maker_base, &mut base_vault,
        maker(), 100, 3, 0,
    )
    .unwrap();
    base_vault = 2; // external drain

    let mut taker_base: u64 = 0;
    let mut taker_quote: u64 = 400;
    let mut maker_quote: u64 = 0;
    let r = take_sell_order(
        &mut market, &mut book, &mut maker_user, &mut taker_user, &mut base_vault,
        &mut taker_base, &mut taker_quote, &mut maker_quote, taker(), 0,
    );
    assert_eq!(r, Err(HybridDexError::InsufficientWithdrawBalance));
    assert_eq!(book.orders.len(), 1);
    assert_eq!(base_vault, 2);
}

#[test]
fn take_rejects_mismatched_maker_record() {
    let global = test_global(10, 10);
    let mut market = test_market(4);
    let mut book = test_book(Side::Ask);
    let mut maker_user = test_user(maker());
    let mut taker_user = test_user(taker());
    let mut maker_base: u64 = 3;
    let mut base_vault: u64 = 0;
    place_sell_order(
        &global, &mut market, &mut book, &mut maker_user, &mut maker_base, &mut base_vault,
        maker(), 100, 3, 0,
    )
    .unwrap();

    let mut stranger_user = test_user(Pubkey(99));
    let mut taker_base: u64 = 0;
    let mut taker_quote: u64 = 400;
    let mut stranger_quote: u64 = 0;
    let r = take_order(
        &mut market, &mut book, &mut stranger_user, &mut taker_user, &mut base_vault,
        &mut taker_base, &mut taker_quote, &mut stranger_quote, taker(), Side::Ask, 0,
    );
    assert_eq!(r, Err(HybridDexError::IncorrectMakerAddress));
    assert_eq!(book.orders.len(), 1);
}

#[test]
fn take_rejects_foreign_taker_record() {
    let global = test_global(10, 10);
    let mut market = test_market(4);
    let mut book = test_book(Side::Ask);
    let mut maker_user = test_user(maker());
    let mut wrong_taker_user = test_user(Pubkey(99));
    let mut maker_base: u64 = 3;
    let mut base_vault: u64 = 0;
    place_sell_order(
        &global, &mut market, &mut book, &mut maker_user, &mut maker_base, &mut base_vault,
        maker(), 100, 3, 0,
    )
    .unwrap();

    let mut taker_base: u64 = 0;
    let mut taker_quote: u64 = 400;
    let mut maker_quote: u64 = 0;
    let r = take_order(
        &mut market, &mut book, &mut maker_user, &mut wrong_taker_user, &mut base_vault,
        &mut taker_base, &mut taker_quote, &mut maker_quote, taker(), Side::Ask, 0,
    );
    assert_eq!(r, Err(HybridDexError::InvalidAccountOwner));
    assert_eq!(book.orders.len(), 1);
}

#[test]
fn take_unknown_order_is_not_found() {
    let global = test_global(10, 10);
    let mut market = test_market(4);
    let mut book = test_book(Side::Bid);
    let mut maker_user = test_user(maker());
    let mut taker_user = test_user(taker());
    let mut taker_quote: u64 = 0;
    let mut taker_base: u64 = 100;
    let mut maker_base: u64 = 0;
    let mut quote_vault: u64 = 0;
    let r = take_buy_order(
        &mut market, &mut book, &mut maker_user, &mut taker_user, &mut quote_vault,
        &mut taker_quote, &mut taker_base, &mut maker_base, taker(), 42,
    );
    assert_eq!(r, Err(HybridDexError::OrderNotFound));
}

#[test]
fn cancel_of_missing_order_mutates_nothing() {
    // cancel of a non-existent order id returns OrderNotFound untouched
    let global = test_global(10, 10);
    let mut market = test_market(4);
    let mut book = test_book(Side::Bid);
    let mut user = test_user(maker());
    let mut user_quote: u64 = 100;
    let mut quote_vault: u64 = 0;
    place_buy_order(
        &global, &mut market, &mut book, &mut user, &mut user_quote, &mut quote_vault, maker(), 10,
        5, 0,
    )
    .unwrap();

    let book_before = book.clone();
    let user_before = user;
    let r = cancel_buy_order(
        &mut book, &mut user, &mut user_quote, &mut quote_vault, maker(), 999,
    );
    assert_eq!(r, Err(HybridDexError::OrderNotFound));
    assert_eq!(book.orders, book_before.orders);
    assert_eq!(book.orders_count, book_before.orders_count);
    assert_eq!(user, user_before);
    assert_eq!(user_quote, 95);
    assert_eq!(quote_vault, 5);
}

#[test]
fn cancel_rejects_foreign_order() {
    let global = test_global(10, 10);
    let mut market = test_market(4);
    let mut book = test_book(Side::Bid);
    let mut user = test_user(maker());
    let mut user_quote: u64 = 100;
    let mut quote_vault: u64 = 0;
    place_buy_order(
        &global, &mut market, &mut book, &mut user, &mut user_quote, &mut quote_vault, maker(), 10,
        5, 0,
    )
    .unwrap();

    // another user tries to cancel the maker's order with their own record
    let mut thief = test_user(Pubkey(99));
    let mut thief_quote: u64 = 0;
    let r = cancel_buy_order(
        &mut book, &mut thief, &mut thief_quote, &mut quote_vault, Pubkey(99), 0,
    );
    assert_eq!(r, Err(HybridDexError::IncorrectMakerAddress));
    assert_eq!(book.orders.len(), 1);
    assert_eq!(quote_vault, 5);
    assert_eq!(thief_quote, 0);
}

#[test]
fn cancel_rejects_drained_vault() {
    let global = test_global(10, 10);
    let mut market = test_market(4);
    let mut book = test_book(Side::Ask);
    let mut user = test_user(maker());
    let mut user_base: u64 = 10;
    let mut base_vault: u64 = 0;
    place_sell_order(
        &global, &mut market, &mut book, &mut user, &mut user_base, &mut base_vault, maker(), 100,
        10, 0,
    )
    .unwrap();
    base_vault = 4; // external drain below the escrowed 10

    let r = cancel_sell_order(&mut book, &mut user, &mut user_base, &mut base_vault, maker(), 0);
    assert_eq!(r, Err(HybridDexError::InsufficientWithdrawBalance));
    assert_eq!(book.orders.len(), 1);
    assert_eq!(user_base, 0);
    assert_eq!(base_vault, 4);
}

#[test]
fn cancel_returns_escrow_to_maker() {
    let global = test_global(10, 10);
    let mut market = test_market(4);
    let mut book = test_book(Side::Ask);
    let mut user = test_user(maker());
    let mut user_base: u64 = 10;
    let mut base_vault: u64 = 0;
    place_sell_order(
        &global, &mut market, &mut book, &mut user, &mut user_base, &mut base_vault, maker(),
        100, 10, 0,
    )
    .unwrap();

    let r = cancel_order(
        &mut book, &mut user, &mut user_base, &mut base_vault, maker(), Side::Ask, 0,
    );
    assert_eq!(r, Ok(()));
    assert_eq!(book.orders_count, 0);
    assert_eq!(book.orders.len(), 0);
    assert_eq!(user.opened_orders_count, 0);
    assert_eq!(user.base_deposit_total, 0);
    assert_eq!(user_base, 10);
    assert_eq!(base_vault, 0);
}

#[test]
fn place_then_cancel_round_trips() {
    // a place followed by cancel of the same order id restores the deposit
    // total, the side's count, and both balances
    let global = test_global(10, 10);
    let mut market = test_market(4);
    let mut book = test_book(Side::Bid);
    let mut user = test_user(maker());
    let mut user_quote: u64 = 100;
    let mut quote_vault: u64 = 0;

    // a pre-existing order so the round trip starts from a non-empty state
    place_buy_order(
        &global, &mut market, &mut book, &mut user, &mut user_quote, &mut quote_vault, maker(), 30,
        7, 0,
    )
    .unwrap();
    let count_before = book.orders_count;
    let deposit_before = user.quote_deposit_total;
    let opened_before = user.opened_orders_count;
    let quote_before = user_quote;
    let vault_before = quote_vault;
    let orders_before = book.orders.clone();

    let order_id = market.order_seq_num;
    place_buy_order(
        &global, &mut market, &mut book, &mut user, &mut user_quote, &mut quote_vault, maker(), 10,
        5, 0,
    )
    .unwrap();
    let r = cancel_buy_order(
        &mut book, &mut user, &mut user_quote, &mut quote_vault, maker(), order_id,
    );
    assert_eq!(r, Ok(()));
    assert_eq!(book.orders_count, count_before);
    assert_eq!(book.orders, orders_before);
    assert_eq!(user.quote_deposit_total, deposit_before);
    assert_eq!(user.opened_orders_count, opened_before);
    assert_eq!(user_quote, quote_before);
    assert_eq!(quote_vault, vault_before);
}

#[test]
fn vault_matches_summed_deposits_through_a_session() {
    // conservation: after every successful operation the vault equals the
    // summed escrow of the side's makers
    let global = test_global(10, 10);
    let mut market = test_market(4);
    let mut book = test_book(Side::Ask);
    let mut alice = test_user(Pubkey(21));
    let mut bob = test_user(Pubkey(22));
    let mut taker_user = test_user(taker());
    let mut alice_base: u64 = 50;
    let mut bob_base: u64 = 50;
    let mut base_vault: u64 = 0;

    place_sell_order(
        &global, &mut market, &mut book, &mut alice, &mut alice_base, &mut base_vault,
        Pubkey(21), 100, 20, 0,
    )
    .unwrap();
    assert_eq!(
        base_vault,
        alice.base_deposit_total + bob.base_deposit_total
    );

    place_sell_order(
        &global, &mut market, &mut book, &mut bob, &mut bob_base, &mut base_vault, Pubkey(22),
        90, 30, 0,
    )
    .unwrap();
    assert_eq!(
        base_vault,
        alice.base_deposit_total + bob.base_deposit_total
    );

    // bob's better-priced ask rests first
    assert_eq!(book.orders[0].order_id, 1);

    let mut taker_base: u64 = 0;
    let mut taker_quote: u64 = 10_000;
    let mut bob_quote: u64 = 0;
    take_sell_order(
        &mut market, &mut book, &mut bob, &mut taker_user, &mut base_vault, &mut taker_base,
        &mut taker_quote, &mut bob_quote, taker(), 1,
    )
    .unwrap();
    assert_eq!(
        base_vault,
        alice.base_deposit_total + bob.base_deposit_total
    );

    cancel_sell_order(
        &mut book, &mut alice, &mut alice_base, &mut base_vault, Pubkey(21), 0,
    )
    .unwrap();
    assert_eq!(
        base_vault,
        alice.base_deposit_total + bob.base_deposit_total
    );
    assert_eq!(base_vault, 0);
    assert_eq!(book.orders_count, 0);
}
