//! Market records and the ordered book of resting orders.
//!
//! A `Book` is one side of a market's order book: a price-time-priority
//! ordered sequence of `OpenedOrder` entries together with a live count.
//! Its defining invariant is that the count equals the number of live
//! entries and that the sequence is sorted by the side's comparator
//! (descending price for bids, ascending for asks), entries of equal price
//! in arrival order.

use vstd::prelude::*;

use crate::error::HybridDexError;
use crate::pubkey::Pubkey;

verus! {

/// Which side of the book an order rests on. A bid escrows quote asset, an
/// ask escrows base asset.
#[derive(Clone, Copy, Debug, PartialEq, Eq, Structural)]
pub enum Side {
    Bid,
    Ask,
}

/// A resting limit order. Immutable once inserted, except for quantity
/// reduction on a partial fill.
#[derive(Clone, Copy, Debug, PartialEq, Eq, Structural)]
pub struct OpenedOrder {
    /// Assigned from the market's sequence counter; unique within the
    /// market for the order's lifetime.
    pub order_id: u64,
    /// The maker that placed the order.
    pub owner: Pubkey,
    /// Quote smallest units per base unit, at quote-decimal scale.
    pub price: u64,
    /// Units of the side's escrowed asset: quote for a bid, base for an ask.
    pub quantity: u64,
    /// Timestamp at placement.
    pub created_at: i64,
}

/// A market: identity, asset references, lifetime volume counters and the
/// next order id to assign.
#[derive(Clone, Debug)]
pub struct Market {
    pub seed: u64,
    /// Fixed-width name storage, padded with zero bytes.
    pub name: Vec<u8>,
    pub market_authority: Pubkey,
    pub base_mint: Pubkey,
    pub quote_mint: Pubkey,
    pub base_decimal: u8,
    pub quote_decimal: u8,
    /// Address of the bid-side book record.
    pub bids: Pubkey,
    /// Address of the ask-side book record.
    pub asks: Pubkey,
    pub created_at: i64,
    /// Lifetime fill counter for the base asset; only ever increases.
    pub base_total_volume: u64,
    /// Lifetime fill counter for the quote asset; only ever increases.
    pub quote_total_volume: u64,
    /// Next order id to assign; only ever increases.
    pub order_seq_num: u64,
    pub extra: u128,
}

/// One side of a market's order book.
#[derive(Clone, Debug)]
pub struct Book {
    pub side: Side,
    /// Address of the owning market record.
    pub market: Pubkey,
    /// Count of live entries; kept in lockstep with `orders` by the
    /// lifecycle engine.
    pub orders_count: u64,
    /// The resting orders, best price first.
    pub orders: Vec<OpenedOrder>,
}

/// Fixed width of a market's name storage, in bytes.
pub const MARKET_NAME_LEN: usize = 16;

/// Serialized size of one resting order entry, in bytes.
pub const ORDER_DATA_SIZE: usize = 40;

/// Serialized size of a book record's fixed header, in bytes.
pub const BOOK_DATA_SIZE: usize = 29;

/// A resting entry priced `resting_price` keeps its place ahead of an
/// incoming order priced `incoming_price`: on the bid side higher-or-equal
/// prices rank first, on the ask side lower-or-equal prices rank first.
/// Equal prices rank by arrival, so the resting entry wins ties.
pub open spec fn outranks(side: Side, resting_price: u64, incoming_price: u64) -> bool {
    match side {
        Side::Bid => resting_price >= incoming_price,
        Side::Ask => resting_price <= incoming_price,
    }
}

/// The sequence is sorted by the side's comparator: descending price for
/// bids, ascending price for asks.
pub open spec fn side_ordered(side: Side, s: Seq<OpenedOrder>) -> bool {
    forall|i: int, j: int|
        0 <= i < j < s.len() ==> outranks(side, s[i].price, s[j].price)
}

/// Index at which an incoming order priced `price` lands: just after the
/// last leading entry that outranks it, so equal-priced entries keep their
/// earlier arrival ahead of it.
pub open spec fn insert_position(side: Side, s: Seq<OpenedOrder>, price: u64) -> int
    decreases s.len(),
{
    if s.len() == 0 {
        0
    } else if outranks(side, s[0].price, price) {
        1 + insert_position(side, s.drop_first(), price)
    } else {
        0
    }
}

/// The book sequence after inserting `o` at its price-time position.
pub open spec fn book_insert(side: Side, s: Seq<OpenedOrder>, o: OpenedOrder) -> Seq<OpenedOrder> {
    s.insert(insert_position(side, s, o.price), o)
}

/// Some live entry carries this order id.
pub open spec fn has_order(s: Seq<OpenedOrder>, order_id: u64) -> bool {
    exists|i: int| 0 <= i < s.len() && s[i].order_id == order_id
}

/// Index of the first entry carrying `order_id`, or -1 if there is none.
pub open spec fn find_order_index(s: Seq<OpenedOrder>, order_id: u64) -> int
    decreases s.len(),
{
    if s.len() == 0 {
        -1
    } else if s[0].order_id == order_id {
        0
    } else if find_order_index(s.drop_first(), order_id) < 0 {
        -1
    } else {
        1 + find_order_index(s.drop_first(), order_id)
    }
}

/// The book sequence after detaching the first entry carrying `order_id`.
/// Meaningful only when `has_order` holds.
pub open spec fn book_remove(s: Seq<OpenedOrder>, order_id: u64) -> Seq<OpenedOrder> {
    s.remove(find_order_index(s, order_id))
}

/// `o` with its quantity reduced by `amount`.
pub open spec fn reduced(o: OpenedOrder, amount: u64) -> OpenedOrder {
    OpenedOrder {
        order_id: o.order_id,
        owner: o.owner,
        price: o.price,
        quantity: (o.quantity - amount) as u64,
        created_at: o.created_at,
    }
}

/// `insert_position` is in bounds, every entry before it outranks the
/// incoming price, and the entry at it (if any) does not.
pub proof fn lemma_insert_position_properties(side: Side, s: Seq<OpenedOrder>, price: u64)
    ensures
        0 <= insert_position(side, s, price) <= s.len(),
        forall|j: int|
            0 <= j < insert_position(side, s, price) ==> outranks(side, s[j].price, price),
        insert_position(side, s, price) < s.len()
            ==> !outranks(side, s[insert_position(side, s, price)].price, price),
    decreases s.len(),
{
    if s.len() > 0 && outranks(side, s[0].price, price) {
        lemma_insert_position_properties(side, s.drop_first(), price);
        let pos = insert_position(side, s, price);
        assert forall|j: int| 0 <= j < pos implies outranks(side, s[j].price, price) by {
            if j > 0 {
                assert(s.drop_first()[j - 1] == s[j]);
            }
        }
        if pos < s.len() {
            assert(s.drop_first()[pos - 1] == s[pos]);
        }
    }
}

/// The position the characterization above describes is unique, so a scan
/// that finds it has found `insert_position`.
pub proof fn lemma_insert_position_determined(side: Side, s: Seq<OpenedOrder>, price: u64, i: int)
    requires
        0 <= i <= s.len(),
        forall|j: int| 0 <= j < i ==> outranks(side, s[j].price, price),
        i < s.len() ==> !outranks(side, s[i].price, price),
    ensures
        insert_position(side, s, price) == i,
    decreases s.len(),
{
    if s.len() == 0 {
    } else if i == 0 {
    } else {
        assert(outranks(side, s[0].price, price));
        assert forall|j: int| 0 <= j < i - 1 implies
            outranks(side, s.drop_first()[j].price, price) by {
            assert(s.drop_first()[j] == s[j + 1]);
        }
        if i - 1 < s.drop_first().len() {
            assert(s.drop_first()[i - 1] == s[i]);
        }
        lemma_insert_position_determined(side, s.drop_first(), price, i - 1);
    }
}

/// Inserting at the price-time position keeps the side sorted, and every
/// resting entry of equal price stays ahead of the newcomer.
pub proof fn lemma_book_insert_ordered(side: Side, s: Seq<OpenedOrder>, o: OpenedOrder)
    requires
        side_ordered(side, s),
    ensures
        side_ordered(side, book_insert(side, s, o)),
        forall|j: int|
            0 <= j < s.len() && s[j].price == o.price
                ==> j < insert_position(side, s, o.price),
{
    lemma_insert_position_properties(side, s, o.price);
    let pos = insert_position(side, s, o.price);
    let t = book_insert(side, s, o);
    s.insert_ensures(pos, o);
    assert forall|k1: int, k2: int| 0 <= k1 < k2 < t.len() implies
        outranks(side, t[k1].price, t[k2].price) by {
        if k1 < pos {
            assert(t[k1] == s[k1]);
            assert(outranks(side, s[k1].price, o.price));
        } else if k1 == pos {
            assert(t[k1] == o);
        } else {
            assert(t[(k1 - 1) + 1] == s[k1 - 1]);
        }
        if k2 < pos {
            assert(t[k2] == s[k2]);
            assert(outranks(side, s[k2].price, o.price));
        } else if k2 == pos {
            assert(t[k2] == o);
        } else {
            assert(t[(k2 - 1) + 1] == s[k2 - 1]);
            if k1 == pos {
                assert(!outranks(side, s[pos].price, o.price));
                if k2 - 1 > pos {
                    assert(outranks(side, s[pos].price, s[k2 - 1].price));
                }
            }
        }
    }
    assert forall|j: int| 0 <= j < s.len() && s[j].price == o.price implies
        j < pos by {
        if j >= pos {
            assert(pos < s.len());
            assert(!outranks(side, s[pos].price, o.price));
            if j > pos {
                assert(outranks(side, s[pos].price, s[j].price));
            }
        }
    }
}

/// Detaching any entry from a sorted side leaves it sorted.
pub proof fn lemma_remove_ordered(side: Side, s: Seq<OpenedOrder>, idx: int)
    requires
        side_ordered(side, s),
        0 <= idx < s.len(),
    ensures
        side_ordered(side, s.remove(idx)),
{
    let t = s.remove(idx);
    assert forall|k1: int, k2: int| 0 <= k1 < k2 < t.len() implies
        outranks(side, t[k1].price, t[k2].price) by {
        assert(forall|k: int| 0 <= k < idx ==> t[k] == s[k]);
        assert(forall|k: int| idx <= k < t.len() ==> t[k] == s[k + 1]);
    }
}

/// Updating an entry without changing its price leaves the side sorted.
pub proof fn lemma_update_same_price_ordered(
    side: Side,
    s: Seq<OpenedOrder>,
    idx: int,
    o: OpenedOrder,
)
    requires
        side_ordered(side, s),
        0 <= idx < s.len(),
        o.price == s[idx].price,
    ensures
        side_ordered(side, s.update(idx, o)),
{
    let t = s.update(idx, o);
    assert forall|k1: int, k2: int| 0 <= k1 < k2 < t.len() implies
        outranks(side, t[k1].price, t[k2].price) by {
        assert(t[k1].price == s[k1].price);
        assert(t[k2].price == s[k2].price);
    }
}

/// `find_order_index` finds exactly the first entry with the id: it is a
/// valid index if and only if some entry carries the id, that entry carries
/// it, and no earlier entry does.
pub proof fn lemma_find_order_index_properties(s: Seq<OpenedOrder>, order_id: u64)
    ensures
        has_order(s, order_id) ==> {
            let idx = find_order_index(s, order_id);
            &&& 0 <= idx < s.len()
            &&& s[idx].order_id == order_id
            &&& forall|j: int| 0 <= j < idx ==> s[j].order_id != order_id
        },
        !has_order(s, order_id) ==> find_order_index(s, order_id) == -1,
    decreases s.len(),
{
    if s.len() == 0 {
    } else if s[0].order_id == order_id {
    } else {
        lemma_find_order_index_properties(s.drop_first(), order_id);
        if has_order(s, order_id) {
            let w = choose|i: int| 0 <= i < s.len() && s[i].order_id == order_id;
            assert(s.drop_first()[w - 1].order_id == order_id);
            assert(has_order(s.drop_first(), order_id));
            let idx = find_order_index(s, order_id);
            let rest_idx = find_order_index(s.drop_first(), order_id);
            assert(s[idx] == s.drop_first()[rest_idx]);
            assert forall|j: int| 0 <= j < idx implies s[j].order_id != order_id by {
                if j > 0 {
                    assert(s.drop_first()[j - 1] == s[j]);
                }
            }
        } else {
            if has_order(s.drop_first(), order_id) {
                let w = choose|i: int|
                    0 <= i < s.drop_first().len() && s.drop_first()[i].order_id == order_id;
                assert(s[w + 1].order_id == order_id);
            }
        }
    }
}

/// `s` without its leading zero bytes.
pub open spec fn strip_leading_zeros(s: Seq<u8>) -> Seq<u8>
    decreases s.len(),
{
    if s.len() > 0 && s[0] == 0 {
        strip_leading_zeros(s.drop_first())
    } else {
        s
    }
}

/// `s` without its trailing zero bytes.
pub open spec fn strip_trailing_zeros(s: Seq<u8>) -> Seq<u8>
    decreases s.len(),
{
    if s.len() > 0 && s[s.len() - 1] == 0 {
        strip_trailing_zeros(s.drop_last())
    } else {
        s
    }
}

/// The stored name bytes with the zero padding removed from both ends.
pub open spec fn trimmed_name(s: Seq<u8>) -> Seq<u8> {
    strip_trailing_zeros(strip_leading_zeros(s))
}

impl Market {
    /// The market's name: the stored fixed-width bytes with the zero
    /// padding stripped from both ends.
    pub fn name(&self) -> (r: Vec<u8>)
        ensures
            r@ == trimmed_name(self.name@),
    {
        let n: usize = self.name.len();
        proof {
            assert(self.name@.skip(0) =~= self.name@);
        }
        let mut lo: usize = 0;
        while lo < n && self.name[lo] == 0
            invariant
                0 <= lo <= n,
                n == self.name@.len(),
                strip_leading_zeros(self.name@) == strip_leading_zeros(
                    self.name@.skip(lo as int),
                ),
            decreases n - lo,
        {
            proof {
                assert(self.name@.skip(lo as int)[0] == self.name@[lo as int]);
                assert(self.name@.skip(lo as int).drop_first() =~= self.name@.skip(lo + 1));
            }
            lo = lo + 1;
        }
        proof {
            if lo < n {
                assert(self.name@.skip(lo as int)[0] == self.name@[lo as int]);
            }
            assert(strip_leading_zeros(self.name@.skip(lo as int)) == self.name@.skip(lo as int));
        }
        let mut hi: usize = n;
        while hi > lo && self.name[hi - 1] == 0
            invariant
                lo <= hi <= n,
                n == self.name@.len(),
                strip_trailing_zeros(self.name@.skip(lo as int)) == strip_trailing_zeros(
                    self.name@.subrange(lo as int, hi as int),
                ),
            decreases hi,
        {
            proof {
                let cur = self.name@.subrange(lo as int, hi as int);
                assert(cur[cur.len() - 1] == self.name@[hi - 1]);
                assert(cur.drop_last() =~= self.name@.subrange(lo as int, hi - 1));
            }
            hi = hi - 1;
        }
        proof {
            let cur = self.name@.subrange(lo as int, hi as int);
            if hi > lo {
                assert(cur[cur.len() - 1] == self.name@[hi - 1]);
            }
            assert(strip_trailing_zeros(cur) == cur);
        }
        let mut r: Vec<u8> = Vec::new();
        let mut i: usize = lo;
        while i < hi
            invariant
                lo <= i <= hi <= n,
                n == self.name@.len(),
                r@ == self.name@.subrange(lo as int, i as int),
            decreases hi - i,
        {
            r.push(self.name[i]);
            proof {
                assert(self.name@.subrange(lo as int, i as int).push(self.name@[i as int])
                    =~= self.name@.subrange(lo as int, i + 1));
            }
            i = i + 1;
        }
        r
    }
}

impl Default for Market {
    /// A blank market record: zeroed identities and counters and an
    /// all-zero fixed-width name.
    fn default() -> (r: Market)
        ensures
            r.seed == 0,
            r.name@ == Seq::new(MARKET_NAME_LEN as nat, |i: int| 0u8),
            r.market_authority == (Pubkey(0)),
            r.base_mint == (Pubkey(0)),
            r.quote_mint == (Pubkey(0)),
            r.base_decimal == 0,
            r.quote_decimal == 0,
            r.bids == (Pubkey(0)),
            r.asks == (Pubkey(0)),
            r.created_at == 0,
            r.base_total_volume == 0,
            r.quote_total_volume == 0,
            r.order_seq_num == 0,
            r.extra == 0,
    {
        let mut name: Vec<u8> = Vec::new();
        let mut i: usize = 0;
        while i < MARKET_NAME_LEN
            invariant
                0 <= i <= MARKET_NAME_LEN,
                name@.len() == i,
                forall|j: int| 0 <= j < i ==> name@[j] == 0u8,
            decreases MARKET_NAME_LEN - i,
        {
            name.push(0u8);
            i = i + 1;
        }
        proof {
            assert(name@ =~= Seq::new(MARKET_NAME_LEN as nat, |i: int| 0u8));
        }
        Market {
            seed: 0,
            name,
            market_authority: Pubkey(0),
            base_mint: Pubkey(0),
            quote_mint: Pubkey(0),
            base_decimal: 0,
            quote_decimal: 0,
            bids: Pubkey(0),
            asks: Pubkey(0),
            created_at: 0,
            base_total_volume: 0,
            quote_total_volume: 0,
            order_seq_num: 0,
            extra: 0,
        }
    }
}

/// An incoming order priced `incoming` pushes in front of a resting entry
/// priced `resting`: true exactly when the resting entry does not outrank it.
fn price_displaces(side: Side, resting: u64, incoming: u64) -> (b: bool)
    ensures
        b == !outranks(side, resting, incoming),
{
    match side {
        Side::Bid => resting < incoming,
        Side::Ask => resting > incoming,
    }
}

impl Book {
    /// The defining invariant of a side between operations: the stored
    /// count equals the number of live entries, and the entries are sorted
    /// by the side's comparator.
    pub open spec fn wf(&self) -> bool {
        &&& self.orders_count == self.orders@.len()
        &&& side_ordered(self.side, self.orders@)
    }

    /// Bytes of storage a book record sized for `count` resting orders
    /// occupies: a fixed header plus one slot per order.
    pub fn size(count: u64) -> (r: usize)
        requires
            BOOK_DATA_SIZE + ORDER_DATA_SIZE * count <= usize::MAX,
        ensures
            r == BOOK_DATA_SIZE + ORDER_DATA_SIZE * count,
    {
        BOOK_DATA_SIZE + ORDER_DATA_SIZE * (count as usize)
    }

    /// Inserts a new order at its price-time position: after every resting
    /// entry that outranks it (better price, or equal price and earlier
    /// arrival), before the first that does not. Leaves `orders_count` to
    /// the caller, which must keep it in lockstep.
    pub fn insert_order(&mut self, new_order: OpenedOrder)
        ensures
            final(self).side == old(self).side,
            final(self).market == old(self).market,
            final(self).orders_count == old(self).orders_count,
            final(self).orders@
                == book_insert(old(self).side, old(self).orders@, new_order),
            final(self).orders@.len() == old(self).orders@.len() + 1,
            side_ordered(old(self).side, old(self).orders@)
                ==> side_ordered(final(self).side, final(self).orders@),
            // price-time priority: equal-priced resting entries keep their
            // earlier arrival ahead of the newcomer
            side_ordered(old(self).side, old(self).orders@)
                ==> forall|j: int|
                    0 <= j < old(self).orders@.len()
                        && old(self).orders@[j].price == new_order.price
                        ==> j < insert_position(
                            old(self).side,
                            old(self).orders@,
                            new_order.price,
                        ),
    {
        let ghost s = self.orders@;
        let ghost side = self.side;
        let n: usize = self.orders.len();
        let mut i: usize = 0;
        while i < n && !price_displaces(self.side, self.orders[i].price, new_order.price)
            invariant
                0 <= i <= n,
                *self == *old(self),
                n == self.orders@.len(),
                s == self.orders@,
                side == self.side,
                forall|j: int| 0 <= j < i ==> outranks(side, s[j].price, new_order.price),
            decreases n - i,
        {
            i = i + 1;
        }
        proof {
            lemma_insert_position_determined(side, s, new_order.price, i as int);
            if side_ordered(side, s) {
                lemma_book_insert_ordered(side, s, new_order);
            }
        }
        self.orders.insert(i, new_order);
    }

    /// Detaches and returns the order with the given id, or reports
    /// `OrderNotFound` and leaves the book untouched. Leaves `orders_count`
    /// to the caller, which must keep it in lockstep.
    pub fn remove_order(&mut self, order_id: u64) -> (r: Result<OpenedOrder, HybridDexError>)
        ensures
            final(self).side == old(self).side,
            final(self).market == old(self).market,
            final(self).orders_count == old(self).orders_count,
            has_order(old(self).orders@, order_id) ==> {
                let idx = find_order_index(old(self).orders@, order_id);
                &&& r == Ok::<OpenedOrder, HybridDexError>(old(self).orders@[idx])
                &&& final(self).orders@ == book_remove(old(self).orders@, order_id)
                &&& final(self).orders@.len() == old(self).orders@.len() - 1
            },
            !has_order(old(self).orders@, order_id) ==> {
                &&& r == Err::<OpenedOrder, HybridDexError>(HybridDexError::OrderNotFound)
                &&& *final(self) == *old(self)
            },
            side_ordered(old(self).side, old(self).orders@)
                ==> side_ordered(final(self).side, final(self).orders@),
    {
        let ghost s = self.orders@;
        let ghost side = self.side;
        let n: usize = self.orders.len();
        let mut i: usize = 0;
        while i < n && self.orders[i].order_id != order_id
            invariant
                0 <= i <= n,
                *self == *old(self),
                n == self.orders@.len(),
                s == self.orders@,
                forall|j: int| 0 <= j < i ==> s[j].order_id != order_id,
            decreases n - i,
        {
            i = i + 1;
        }
        if i == n {
            assert(!has_order(s, order_id));
            return Err(HybridDexError::OrderNotFound);
        }
        proof {
            lemma_find_order_index_determined(s, order_id, i as int);
            if side_ordered(side, s) {
                lemma_remove_ordered(side, s, i as int);
            }
        }
        let order = self.orders.remove(i);
        Ok(order)
    }

    /// Reduces the quantity of the order with the given id by `amount` and
    /// returns a snapshot of the reduced order. Meant for partial fills
    /// only: a reduction that would consume the whole order is rejected
    /// with `PartialOrderAmountExceed`, and an unknown id with
    /// `OrderNotFound`; either way the book is left untouched. Does not
    /// change `orders_count`.
    pub fn decrease_order(&mut self, order_id: u64, amount: u64) -> (r: Result<
        OpenedOrder,
        HybridDexError,
    >)
        ensures
            final(self).side == old(self).side,
            final(self).market == old(self).market,
            final(self).orders_count == old(self).orders_count,
            has_order(old(self).orders@, order_id) ==> {
                let idx = find_order_index(old(self).orders@, order_id);
                let o = old(self).orders@[idx];
                if o.quantity <= amount {
                    &&& r == Err::<OpenedOrder, HybridDexError>(
                        HybridDexError::PartialOrderAmountExceed,
                    )
                    &&& *final(self) == *old(self)
                } else {
                    &&& r == Ok::<OpenedOrder, HybridDexError>(reduced(o, amount))
                    &&& final(self).orders@ == old(self).orders@.update(idx, reduced(o, amount))
                }
            },
            !has_order(old(self).orders@, order_id) ==> {
                &&& r == Err::<OpenedOrder, HybridDexError>(HybridDexError::OrderNotFound)
                &&& *final(self) == *old(self)
            },
            side_ordered(old(self).side, old(self).orders@)
                ==> side_ordered(final(self).side, final(self).orders@),
    {
        let ghost s = self.orders@;
        let ghost side = self.side;
        let n: usize = self.orders.len();
        let mut i: usize = 0;
        while i < n && self.orders[i].order_id != order_id
            invariant
                0 <= i <= n,
                *self == *old(self),
                n == self.orders@.len(),
                s == self.orders@,
                forall|j: int| 0 <= j < i ==> s[j].order_id != order_id,
            decreases n - i,
        {
            i = i + 1;
        }
        if i == n {
            assert(!has_order(s, order_id));
            return Err(HybridDexError::OrderNotFound);
        }
        proof {
            lemma_find_order_index_determined(s, order_id, i as int);
        }
        let o = self.orders[i];
        if o.quantity <= amount {
            return Err(HybridDexError::PartialOrderAmountExceed);
        }
        let updated = OpenedOrder {
            order_id: o.order_id,
            owner: o.owner,
            price: o.price,
            quantity: o.quantity - amount,
            created_at: o.created_at,
        };
        self.orders[i] = updated;
        proof {
            if side_ordered(side, s) {
                lemma_update_same_price_ordered(side, s, i as int, updated);
            }
        }
        Ok(updated)
    }

    /// Index of the live entry carrying `order_id`, if any, without
    /// touching the book. The lifecycle engine checks with this before it
    /// mutates anything.
    pub fn find_order(&self, order_id: u64) -> (r: Option<usize>)
        ensures
            match r {
                Some(i) => {
                    &&& has_order(self.orders@, order_id)
                    &&& i == find_order_index(self.orders@, order_id)
                    &&& i < self.orders@.len()
                    &&& self.orders@[i as int].order_id == order_id
                },
                None => !has_order(self.orders@, order_id),
            },
    {
        let n: usize = self.orders.len();
        let mut i: usize = 0;
        while i < n && self.orders[i].order_id != order_id
            invariant
                0 <= i <= n,
                n == self.orders@.len(),
                forall|j: int| 0 <= j < i ==> self.orders@[j].order_id != order_id,
            decreases n - i,
        {
            i = i + 1;
        }
        if i == n {
            None
        } else {
            proof {
                lemma_find_order_index_determined(self.orders@, order_id, i as int);
            }
            Some(i)
        }
    }
}

/// A scan that finds the first entry with the id has found
/// `find_order_index`.
pub proof fn lemma_find_order_index_determined(s: Seq<OpenedOrder>, order_id: u64, i: int)
    requires
        0 <= i < s.len(),
        s[i].order_id == order_id,
        forall|j: int| 0 <= j < i ==> s[j].order_id != order_id,
    ensures
        find_order_index(s, order_id) == i,
{
    assert(has_order(s, order_id));
    lemma_find_order_index_properties(s, order_id);
    let idx = find_order_index(s, order_id);
    if idx < i {
        assert(s[idx].order_id != order_id);
    }
    if idx > i {
        assert(s[i].order_id != order_id);
    }
}

} // verus!
