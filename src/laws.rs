use vstd::prelude::*;
use vstd::arithmetic::div_mod::{lemma_div_multiples_vanish, lemma_mod_multiples_basic};
use crate::book::{
    grid_price, index_of, spec_apply, Orderbook, OrderbookError, OrderbookUpdate,
    OrderbookUpdateType, ORDER_BOOK_LEVELS,
};
use crate::depth::{consumed, depth_available, depth_through, left_after, on_walk};
use crate::level::Level;

verus! {

/// Every slot of a well-formed book holds the price `start + i * step`.
pub proof fn lemma_grid_consistent(book: Orderbook, i: int)
    requires
        book.wf(),
        0 <= i < ORDER_BOOK_LEVELS,
    ensures
        book.spec_levels()[i].price == book.spec_start() + i * book.spec_step(),
{
}

/// Looking up the price of slot `k` gives back `k`.
pub proof fn lemma_price_index_round_trip(book: Orderbook, k: int)
    requires
        book.wf(),
        0 <= k < ORDER_BOOK_LEVELS,
    ensures
        index_of(book.spec_start(), book.spec_step(), book.spec_levels()[k].price as int) == Some(
            k,
        ),
{
    let step = book.spec_step();
    assert(book.spec_levels()[k].price - book.spec_start() == k * step);
    lemma_mod_multiples_basic(k, step);
    lemma_div_multiples_vanish(k, step);
    assert(k * step == step * k) by (nonlinear_arith);
    assert((k * step) % step == 0);
    assert((k * step) / step == k);
}

/// The spread's cost is its number of ticks times the tick size, and both
/// are positive.
pub proof fn lemma_spread_cost_is_ticks_times_step(book: Orderbook)
    requires
        book.wf(),
    ensures
        book.spec_ask() - book.spec_bid() > 0,
        (book.spec_ask() - book.spec_bid()) * book.spec_step() > 0,
        (book.spec_ask() - book.spec_bid()) * book.spec_step() == grid_price(
            book.spec_start(),
            book.spec_step(),
            book.spec_ask(),
        ) - grid_price(book.spec_start(), book.spec_step(), book.spec_bid()),
{
    let t = book.spec_ask() - book.spec_bid();
    let step = book.spec_step();
    assert(t * step > 0) by (nonlinear_arith)
        requires t > 0, step > 0;
    assert(t * step == book.spec_ask() * step - book.spec_bid() * step) by (nonlinear_arith)
        requires t == book.spec_ask() - book.spec_bid();
}

/// Limit orders and market orders never leave a slot below zero: a limit
/// order leaves the old quantity plus the change, clamped at zero, and a
/// market order leaves each slot somewhere between zero and what it held.
pub proof fn lemma_quantities_stay_nonnegative(
    ls: Seq<Level>,
    bid: int,
    ask: int,
    k: int,
    u: OrderbookUpdate,
)
    requires
        ls.len() == ORDER_BOOK_LEVELS,
        0 <= bid < ask < ORDER_BOOK_LEVELS,
        0 <= k < ORDER_BOOK_LEVELS,
        u.order_type == OrderbookUpdateType::LimitOrder || u.order_type
            == OrderbookUpdateType::MarketOrder,
        spec_apply(ls, bid, ask, Some(k), u) is Ok,
    ensures
        ({
            let after = spec_apply(ls, bid, ask, Some(k), u)->Ok_0.0;
            &&& after.len() == ORDER_BOOK_LEVELS
            &&& u.order_type == OrderbookUpdateType::LimitOrder ==> after[k].quantity == if ls[k].quantity
                + u.quantity < 0 {
                0
            } else {
                ls[k].quantity + u.quantity
            }
            &&& u.order_type == OrderbookUpdateType::MarketOrder ==> forall|i: int|
                0 <= i < ORDER_BOOK_LEVELS ==> 0 <= (#[trigger] after[i]).quantity
                    <= ls[i].quantity
        }),
{
    if u.order_type == OrderbookUpdateType::MarketOrder {
        let buy = u.quantity > 0;
        let m = if u.quantity < 0 {
            -u.quantity
        } else {
            u.quantity as int
        };
        let after = consumed(ls, bid, ask, buy, m);
        assert forall|i: int| 0 <= i < ORDER_BOOK_LEVELS implies after[i].quantity
            <= ls[i].quantity by {
            if on_walk(i, bid, ask, buy) {
                let through = depth_through(ls, i, bid, ask, buy);
                let left = left_after(ls[i].quantity as int, through, m);
                assert(0 <= left <= ls[i].quantity);
            }
        }
    }
}

/// Applying the same absolute level twice leaves what applying it once did.
pub proof fn lemma_set_level_idempotent(
    ls: Seq<Level>,
    bid: int,
    ask: int,
    k: Option<int>,
    u: OrderbookUpdate,
)
    requires
        ls.len() == ORDER_BOOK_LEVELS,
        k matches Some(k) && 0 <= k < ORDER_BOOK_LEVELS,
        u.order_type == OrderbookUpdateType::SetLevel,
    ensures
        match spec_apply(ls, bid, ask, k, u) {
            Ok((once, uf, unf)) => spec_apply(once, bid, ask, k, u) == Ok::<
                (Seq<Level>, bool, int),
                OrderbookError,
            >((once, uf, unf)),
            Err(e) => e == OrderbookError::InvalidQuantity,
        },
{
    if let Ok((once, uf, unf)) = spec_apply(ls, bid, ask, k, u) {
        let j = k->Some_0;
        let twice = spec_apply(once, bid, ask, k, u)->Ok_0.0;
        assert(twice =~= once);
    }
}

/// A fill-or-kill order that asks for more than rests on its side is
/// refused with `InsufficientDepth`; a refused update changes no slot.
pub proof fn lemma_fill_or_kill_atomic(
    ls: Seq<Level>,
    bid: int,
    ask: int,
    k: int,
    u: OrderbookUpdate,
)
    requires
        ls.len() == ORDER_BOOK_LEVELS,
        0 <= k < ORDER_BOOK_LEVELS,
        u.order_type == OrderbookUpdateType::FillOrKillOrder,
        depth_available(ls, bid, ask, u.quantity > 0) < if u.quantity < 0 {
            -u.quantity
        } else {
            u.quantity as int
        },
    ensures
        spec_apply(ls, bid, ask, Some(k), u) == Err::<(Seq<Level>, bool, int), OrderbookError>(
            OrderbookError::InsufficientDepth,
        ),
{
}

} // verus!
