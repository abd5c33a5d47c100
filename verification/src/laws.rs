//! System-wide laws of the lifecycle engine.
//!
//! The operation contracts in `lifecycle` pin down each transition on the
//! records it touches. The proofs here state what follows for the system
//! as a whole: the market vault stays equal to the sum of outstanding
//! escrow across all makers of the side it backs, and a placement followed
//! immediately by its cancellation returns every touched record and
//! balance to where it started.

use vstd::prelude::*;

use crate::global::GlobalPool;
use crate::market::{
    book_insert, book_remove, find_order_index, has_order, insert_position, Book, Market,
    OpenedOrder, Side,
};
use crate::lifecycle::{cancel_post, escrow_deposit_total, place_post, take_post};
use crate::open_orders::UserMarketOrders;
use crate::pubkey::Pubkey;

verus! {

/// Sum of a sequence of deposit totals.
pub open spec fn sum_deposits(s: Seq<u64>) -> int
    decreases s.len(),
{
    if s.len() == 0 {
        0
    } else {
        s[0] + sum_deposits(s.drop_first())
    }
}

/// Replacing one entry of a sum shifts the sum by exactly the change to
/// that entry.
pub proof fn lemma_sum_deposits_update(s: Seq<u64>, k: int, v: u64)
    requires
        0 <= k < s.len(),
    ensures
        sum_deposits(s.update(k, v)) == sum_deposits(s) - s[k] + v,
    decreases s.len(),
{
    let t = s.update(k, v);
    if k == 0 {
        assert(t.drop_first() =~= s.drop_first());
    } else {
        assert(t[0] == s[0]);
        assert(t.drop_first() =~= s.drop_first().update(k - 1, v));
        lemma_sum_deposits_update(s.drop_first(), k - 1, v);
    }
}

/// Conservation across a successful placement: if the vault for the
/// escrowed asset equals the summed deposit totals of every maker on that
/// side, it still does afterwards, with the maker's own entry updated.
pub proof fn lemma_place_preserves_conservation(
    global: GlobalPool,
    market0: Market,
    market1: Market,
    book0: Book,
    book1: Book,
    user0: UserMarketOrders,
    user1: UserMarketOrders,
    user_balance0: u64,
    user_balance1: u64,
    vault_balance0: u64,
    vault_balance1: u64,
    maker: Pubkey,
    side: Side,
    price: u64,
    quantity: u64,
    created_at: i64,
    deposits: Seq<u64>,
    k: int,
)
    requires
        place_post(
            global,
            market0,
            market1,
            book0,
            book1,
            user0,
            user1,
            user_balance0,
            user_balance1,
            vault_balance0,
            vault_balance1,
            maker,
            side,
            price,
            quantity,
            created_at,
            Ok(()),
        ),
        0 <= k < deposits.len(),
        deposits[k] == escrow_deposit_total(side, user0),
        escrow_deposit_total(side, user0) + quantity <= u64::MAX,
        vault_balance0 == sum_deposits(deposits),
    ensures
        vault_balance1 == sum_deposits(deposits.update(k, escrow_deposit_total(side, user1))),
{
    lemma_sum_deposits_update(deposits, k, escrow_deposit_total(side, user1));
}

/// Conservation across a successful cancellation: the refunded escrow
/// leaves the vault and the maker's deposit entry in step.
pub proof fn lemma_cancel_preserves_conservation(
    book0: Book,
    book1: Book,
    user0: UserMarketOrders,
    user1: UserMarketOrders,
    user_balance0: u64,
    user_balance1: u64,
    vault_balance0: u64,
    vault_balance1: u64,
    maker: Pubkey,
    side: Side,
    order_id: u64,
    deposits: Seq<u64>,
    k: int,
)
    requires
        cancel_post(
            book0,
            book1,
            user0,
            user1,
            user_balance0,
            user_balance1,
            vault_balance0,
            vault_balance1,
            maker,
            side,
            order_id,
            Ok(()),
        ),
        escrow_deposit_total(side, user0)
            >= book0.orders@[find_order_index(book0.orders@, order_id)].quantity,
        0 <= k < deposits.len(),
        deposits[k] == escrow_deposit_total(side, user0),
        vault_balance0 == sum_deposits(deposits),
    ensures
        vault_balance1 == sum_deposits(deposits.update(k, escrow_deposit_total(side, user1))),
{
    lemma_sum_deposits_update(deposits, k, escrow_deposit_total(side, user1));
}

/// Conservation across a successful take: the filled escrow leaves the
/// vault and the maker's deposit entry in step; the counter leg never
/// touches the vault.
pub proof fn lemma_take_preserves_conservation(
    market0: Market,
    market1: Market,
    book0: Book,
    book1: Book,
    maker_user0: UserMarketOrders,
    maker_user1: UserMarketOrders,
    taker_user0: UserMarketOrders,
    taker_user1: UserMarketOrders,
    vault_balance0: u64,
    vault_balance1: u64,
    taker_receive_balance0: u64,
    taker_receive_balance1: u64,
    taker_pay_balance0: u64,
    taker_pay_balance1: u64,
    maker_receive_balance0: u64,
    maker_receive_balance1: u64,
    taker: Pubkey,
    maker_side: Side,
    order_id: u64,
    deposits: Seq<u64>,
    k: int,
)
    requires
        take_post(
            market0,
            market1,
            book0,
            book1,
            maker_user0,
            maker_user1,
            taker_user0,
            taker_user1,
            vault_balance0,
            vault_balance1,
            taker_receive_balance0,
            taker_receive_balance1,
            taker_pay_balance0,
            taker_pay_balance1,
            maker_receive_balance0,
            maker_receive_balance1,
            taker,
            maker_side,
            order_id,
            Ok(()),
        ),
        escrow_deposit_total(maker_side, maker_user0)
            >= book0.orders@[find_order_index(book0.orders@, order_id)].quantity,
        0 <= k < deposits.len(),
        deposits[k] == escrow_deposit_total(maker_side, maker_user0),
        vault_balance0 == sum_deposits(deposits),
    ensures
        vault_balance1 == sum_deposits(
            deposits.update(k, escrow_deposit_total(maker_side, maker_user1)),
        ),
{
    lemma_sum_deposits_update(deposits, k, escrow_deposit_total(maker_side, maker_user1));
}

/// Inserting a fresh order and then detaching it by its id restores the
/// book sequence exactly.
pub proof fn lemma_insert_then_remove(side: Side, s: Seq<OpenedOrder>, o: OpenedOrder)
    requires
        !has_order(s, o.order_id),
    ensures
        has_order(book_insert(side, s, o), o.order_id),
        find_order_index(book_insert(side, s, o), o.order_id)
            == insert_position(side, s, o.price),
        book_insert(side, s, o)[insert_position(side, s, o.price)] == o,
        book_remove(book_insert(side, s, o), o.order_id) == s,
{
    crate::market::lemma_insert_position_properties(side, s, o.price);
    let pos = insert_position(side, s, o.price);
    let t = book_insert(side, s, o);
    s.insert_ensures(pos, o);
    assert(t[pos] == o);
    assert(has_order(t, o.order_id));
    assert forall|j: int| 0 <= j < pos implies t[j].order_id != o.order_id by {
        assert(t[j] == s[j]);
        assert(s[j].order_id != o.order_id);
    }
    crate::market::lemma_find_order_index_determined(t, o.order_id, pos);
    let back = t.remove(pos);
    assert forall|j: int| 0 <= j < back.len() implies back[j] == s[j] by {
        if j >= pos {
            assert(t[(j + 1) as int] == s[j]);
        }
    }
    assert(back =~= s);
}

/// A placement followed immediately by cancellation of the assigned order
/// id returns the book, the maker's record, and both balances to their
/// state before the placement.
pub proof fn lemma_place_cancel_round_trip(
    global: GlobalPool,
    market0: Market,
    market1: Market,
    book0: Book,
    book1: Book,
    book2: Book,
    user0: UserMarketOrders,
    user1: UserMarketOrders,
    user2: UserMarketOrders,
    user_balance0: u64,
    user_balance1: u64,
    user_balance2: u64,
    vault_balance0: u64,
    vault_balance1: u64,
    vault_balance2: u64,
    maker: Pubkey,
    side: Side,
    price: u64,
    quantity: u64,
    created_at: i64,
)
    requires
        place_post(
            global,
            market0,
            market1,
            book0,
            book1,
            user0,
            user1,
            user_balance0,
            user_balance1,
            vault_balance0,
            vault_balance1,
            maker,
            side,
            price,
            quantity,
            created_at,
            Ok(()),
        ),
        cancel_post(
            book1,
            book2,
            user1,
            user2,
            user_balance1,
            user_balance2,
            vault_balance1,
            vault_balance2,
            maker,
            side,
            market0.order_seq_num,
            Ok(()),
        ),
        !has_order(book0.orders@, market0.order_seq_num),
        escrow_deposit_total(side, user0) + quantity <= u64::MAX,
    ensures
        book2.side == book0.side,
        book2.market == book0.market,
        book2.orders_count == book0.orders_count,
        book2.orders@ == book0.orders@,
        user2 == user0,
        user_balance2 == user_balance0,
        vault_balance2 == vault_balance0,
{
    let new_order = OpenedOrder {
        order_id: market0.order_seq_num,
        owner: maker,
        price,
        quantity,
        created_at,
    };
    lemma_insert_then_remove(side, book0.orders@, new_order);
}

} // verus!
