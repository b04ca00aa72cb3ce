use vstd::prelude::*;
use crate::depth::{consume_walk, capped_available, consumed, depth_available};
use crate::level::Level;

verus! {

/// Number of slots in the ladder.
pub const ORDER_BOOK_LEVELS: usize = 32;

/// The slot around which a freshly built ladder centres the spread.
pub const MIDDLE_LEVEL: usize = 15;

/// Free slots wanted below the best bid and above the best ask.
pub const DEFAULT_MIN_DEPTH: u32 = 6;

/// Why an operation on the book was refused.
#[derive(Debug, Clone, Copy, PartialEq, Eq, Structural)]
pub enum OrderbookError {
    /// The ask is not above the bid, or the step is not positive.
    InvalidSpread,
    /// The spread is not a whole number of steps.
    NonAlignedSpread,
    /// The spread, or the ladder's prices, do not fit the fixed window.
    WindowOverflow,
    /// The price is not one of the ladder's prices.
    OutOfWindow,
    /// An absolute level quantity was negative.
    InvalidQuantity,
    /// A fill-or-kill order asked for more than rests on its side.
    InsufficientDepth,
    /// A level's quantity would exceed what a `u64` holds.
    QuantityOverflow,
}

/// How an update changes the book.
#[derive(Debug, Clone, Copy, PartialEq, Eq, Structural)]
pub enum OrderbookUpdateType {
    /// Overwrite the quantity at one price.
    SetLevel,
    /// Add to (or take from) the quantity at one price, clamped at zero.
    LimitOrder,
    /// Consume resting depth from the touch outward, all or nothing.
    FillOrKillOrder,
    /// Consume resting depth from the touch outward, as far as it goes.
    MarketOrder,
}

/// An update record: a price, a signed quantity and a kind. A positive quantity
/// on a consuming order buys (takes ask-side depth), a negative one sells.
#[derive(Debug, Clone, Copy, PartialEq, Eq, Structural)]
pub struct OrderbookUpdate {
    pub price: i64,
    pub quantity: i64,
    pub order_type: OrderbookUpdateType,
}

/// What an accepted update reports.
#[derive(Debug, Clone, Copy, PartialEq, Eq, Structural)]
pub struct UpdateOutcome {
    /// The book's update id after this update.
    pub update_id: u64,
    /// A limit order would have taken the level below zero and was clamped.
    pub underflow: bool,
    /// The part of a market order that found no depth.
    pub unfilled: u64,
}

/// Ladder geometry: the price of slot 0 and the bid and ask slots.
#[derive(Debug, Clone, Copy, PartialEq, Eq, Structural)]
pub struct Geometry {
    pub start_price: i64,
    pub bid_pointer: u32,
    pub ask_pointer: u32,
}

/// The price of slot `i` on a ladder that starts at `start` and moves by `step`.
pub open spec fn grid_price(start: int, step: int, i: int) -> int {
    start + i * step
}

/// The ask slot for a spread of `s` steps: above the middle by half of it.
pub open spec fn ask_slot(s: int) -> int {
    MIDDLE_LEVEL + s / 2
}

/// The bid slot for a spread of `s` steps: below the middle by the rest of it.
pub open spec fn bid_slot(s: int) -> int {
    MIDDLE_LEVEL - s / 2 - s % 2
}

/// The geometry built around `bid` and `ask` with tick `step`, or why there is none.
pub open spec fn spec_geometry(bid: int, ask: int, step: int) -> Result<(int, int, int), OrderbookError> {
    if step <= 0 || ask <= bid {
        Err(OrderbookError::InvalidSpread)
    } else if (ask - bid) % step != 0 {
        Err(OrderbookError::NonAlignedSpread)
    } else {
        let s = (ask - bid) / step;
        let bp = bid_slot(s);
        let ap = ask_slot(s);
        let start = bid - bp * step;
        if ap >= ORDER_BOOK_LEVELS || bp < 0 {
            Err(OrderbookError::WindowOverflow)
        } else if start < i64::MIN || grid_price(start, step, ORDER_BOOK_LEVELS - 1) > i64::MAX
            || (ORDER_BOOK_LEVELS - 1) * step > i64::MAX {
            Err(OrderbookError::WindowOverflow)
        } else {
            Ok((start, bp, ap))
        }
    }
}

/// The slot whose price is `price`, if the ladder has one.
pub open spec fn index_of(start: int, step: int, price: int) -> Option<int> {
    let d = price - start;
    if d >= 0 && d % step == 0 && d / step < ORDER_BOOK_LEVELS {
        Some(d / step)
    } else {
        None
    }
}

/// Computes the geometry of a ladder around `best_bid` and `best_ask`.
pub fn build_geometry(best_bid: i64, best_ask: i64, step: i64) -> (r: Result<Geometry, OrderbookError>)
    ensures
        match spec_geometry(best_bid as int, best_ask as int, step as int) {
            Ok((s, b, a)) => r == Ok::<Geometry, OrderbookError>(
                (Geometry { start_price: s as i64, bid_pointer: b as u32, ask_pointer: a as u32 }),
            ),
            Err(e) => r == Err::<Geometry, OrderbookError>(e),
        },
{
    if step <= 0 || best_ask <= best_bid {
        return Err(OrderbookError::InvalidSpread);
    }
    let width: i128 = best_ask as i128 - best_bid as i128;
    if width % (step as i128) != 0 {
        return Err(OrderbookError::NonAlignedSpread);
    }
    let s: i128 = width / (step as i128);
    let half: i128 = s / 2;
    let ap: i128 = MIDDLE_LEVEL as i128 + half;
    let bp: i128 = MIDDLE_LEVEL as i128 - half - s % 2;
    if ap >= ORDER_BOOK_LEVELS as i128 || bp < 0 {
        return Err(OrderbookError::WindowOverflow);
    }
    assert(0 <= bp * step <= 15 * step) by (nonlinear_arith)
        requires 0 <= bp <= 15, step > 0;
    let start: i128 = best_bid as i128 - bp * (step as i128);
    let span: i128 = (ORDER_BOOK_LEVELS as i128 - 1) * (step as i128);
    if start < i64::MIN as i128 || start + span > i64::MAX as i128 || span > i64::MAX as i128 {
        return Err(OrderbookError::WindowOverflow);
    }
    Ok(Geometry { start_price: start as i64, bid_pointer: bp as u32, ask_pointer: ap as u32 })
}

} // verus!

verus! {

/// The ladder `ls` with slot `k` holding `q`.
pub open spec fn with_quantity(ls: Seq<Level>, k: int, q: int) -> Seq<Level> {
    ls.update(k, Level { price: ls[k].price, quantity: q as u64 })
}

/// What applying `u` to the slots `ls` gives: the new slots, whether a limit
/// order was clamped at zero, and what a market order left unfilled; or why
/// the update is refused. `k` is the slot of the update's price, if any.
pub open spec fn spec_apply(
    ls: Seq<Level>,
    bid: int,
    ask: int,
    k: Option<int>,
    u: OrderbookUpdate,
) -> Result<(Seq<Level>, bool, int), OrderbookError> {
    let buy = u.quantity > 0;
    let m = if u.quantity < 0 {
        -u.quantity
    } else {
        u.quantity as int
    };
    let avail = depth_available(ls, bid, ask, buy);
    match k {
        None => Err(OrderbookError::OutOfWindow),
        Some(k) => match u.order_type {
            OrderbookUpdateType::SetLevel => if u.quantity < 0 {
                Err(OrderbookError::InvalidQuantity)
            } else {
                Ok((with_quantity(ls, k, u.quantity as int), false, 0))
            },
            OrderbookUpdateType::LimitOrder => {
                let t = ls[k].quantity + u.quantity;
                if t > u64::MAX {
                    Err(OrderbookError::QuantityOverflow)
                } else if t < 0 {
                    Ok((with_quantity(ls, k, 0), true, 0))
                } else {
                    Ok((with_quantity(ls, k, t), false, 0))
                }
            },
            OrderbookUpdateType::MarketOrder => Ok(
                (
                    consumed(ls, bid, ask, buy, m),
                    false,
                    if avail < m {
                        m - avail
                    } else {
                        0
                    },
                ),
            ),
            OrderbookUpdateType::FillOrKillOrder => if avail < m {
                Err(OrderbookError::InsufficientDepth)
            } else {
                Ok((consumed(ls, bid, ask, buy, m), false, 0))
            },
        },
    }
}

/// The ladder: `ORDER_BOOK_LEVELS` slots whose prices step up by `min_step`
/// from `start_price`, with the best bid and best ask at two of them.
pub struct Orderbook {
    start_price: i64,
    bid_pointer: u32,
    ask_pointer: u32,
    min_depth: u32,
    min_step: i64,
    levels: Vec<Level>,
    update_id: u64,
}

impl Orderbook {
    /// The price of slot 0.
    pub closed spec fn spec_start(&self) -> int {
        self.start_price as int
    }

    /// The tick size.
    pub closed spec fn spec_step(&self) -> int {
        self.min_step as int
    }

    /// The slot of the best bid.
    pub closed spec fn spec_bid(&self) -> int {
        self.bid_pointer as int
    }

    /// The slot of the best ask.
    pub closed spec fn spec_ask(&self) -> int {
        self.ask_pointer as int
    }

    /// Free slots wanted on each side before a recentre is due.
    pub closed spec fn spec_min_depth(&self) -> int {
        self.min_depth as int
    }

    /// How many updates the book has accepted.
    pub closed spec fn spec_update_id(&self) -> int {
        self.update_id as int
    }

    /// The slots, lowest price first.
    pub closed spec fn spec_levels(&self) -> Seq<Level> {
        self.levels@
    }

    /// The ladder is a strict arithmetic progression of `ORDER_BOOK_LEVELS`
    /// prices, and its geometry is the one built around its own bid and ask.
    pub open spec fn wf(&self) -> bool {
        let start = self.spec_start();
        let step = self.spec_step();
        &&& self.spec_levels().len() == ORDER_BOOK_LEVELS
        &&& step > 0
        &&& 0 <= self.spec_bid() < self.spec_ask() < ORDER_BOOK_LEVELS
        &&& spec_geometry(
            grid_price(start, step, self.spec_bid()),
            grid_price(start, step, self.spec_ask()),
            step,
        ) == Ok::<(int, int, int), OrderbookError>((start, self.spec_bid(), self.spec_ask()))
        &&& forall|i: int|
            0 <= i < ORDER_BOOK_LEVELS ==> #[trigger] self.spec_levels()[i].price == grid_price(
                start,
                step,
                i,
            )
    }

    /// Whether the margin below the bid or above the ask is under `min_depth`.
    pub open spec fn needs_recenter(&self) -> bool {
        self.spec_bid() < self.spec_min_depth() || (ORDER_BOOK_LEVELS - 1) - self.spec_ask()
            < self.spec_min_depth()
    }

    /// Builds the ladder around `best_bid_price` and `best_ask_price`, every
    /// slot empty.
    pub fn new(best_bid_price: i64, best_ask_price: i64, min_step: i64) -> (r: Result<
        Orderbook,
        OrderbookError,
    >)
        ensures
            match spec_geometry(best_bid_price as int, best_ask_price as int, min_step as int) {
                Ok((s, b, a)) => r matches Ok(book) && book.wf() && book.spec_start() == s
                    && book.spec_bid() == b && book.spec_ask() == a && book.spec_step()
                    == min_step && book.spec_min_depth() == DEFAULT_MIN_DEPTH
                    && book.spec_update_id() == 0 && (forall|i: int|
                    0 <= i < ORDER_BOOK_LEVELS ==> #[trigger] book.spec_levels()[i].quantity
                        == 0),
                Err(e) => r == Err::<Orderbook, OrderbookError>(e),
            },
    {
        let g = match build_geometry(best_bid_price, best_ask_price, min_step) {
            Ok(g) => g,
            Err(e) => return Err(e),
        };
        let ghost s = (best_ask_price - best_bid_price) / (min_step as int);
        proof {
            let step = min_step as int;
            let w = best_ask_price - best_bid_price;
            assert(w == s * step) by (nonlinear_arith)
                requires w % step == 0, s == w / step, step > 0;
            assert(g.ask_pointer - g.bid_pointer == s);
            assert((g.ask_pointer - g.bid_pointer) * step == g.ask_pointer * step - g.bid_pointer
                * step) by (nonlinear_arith);
        }
        let mut levels: Vec<Level> = Vec::new();
        let mut i: usize = 0;
        while i < ORDER_BOOK_LEVELS
            invariant
                i <= ORDER_BOOK_LEVELS,
                levels@.len() == i,
                min_step > 0,
                g.start_price + (ORDER_BOOK_LEVELS - 1) * min_step <= i64::MAX,
                forall|j: int|
                    0 <= j < i ==> (#[trigger] levels@[j]).price == grid_price(
                        g.start_price as int,
                        min_step as int,
                        j,
                    ) && levels@[j].quantity == 0,
            decreases ORDER_BOOK_LEVELS - i,
        {
            assert(0 <= i * min_step <= (ORDER_BOOK_LEVELS - 1) * min_step) by (nonlinear_arith)
                requires i < ORDER_BOOK_LEVELS, min_step > 0;
            let price: i128 = g.start_price as i128 + (i as i128) * (min_step as i128);
            levels.push(Level { price: price as i64, quantity: 0 });
            i = i + 1;
        }
        Ok(Orderbook {
            start_price: g.start_price,
            bid_pointer: g.bid_pointer,
            ask_pointer: g.ask_pointer,
            min_depth: DEFAULT_MIN_DEPTH,
            min_step,
            levels,
            update_id: 0,
        })
    }

    /// The slot that holds `price_point`, if the ladder has that price.
    pub fn price_index(&self, price_point: i64) -> (r: Option<usize>)
        requires
            self.wf(),
        ensures
            match index_of(self.spec_start(), self.spec_step(), price_point as int) {
                Some(k) => r == Some(k as usize),
                None => r is None,
            },
    {
        let d: i128 = price_point as i128 - self.start_price as i128;
        if d < 0 {
            return None;
        }
        let step: i128 = self.min_step as i128;
        if d % step != 0 {
            return None;
        }
        let k: i128 = d / step;
        if k < ORDER_BOOK_LEVELS as i128 {
            Some(k as usize)
        } else {
            None
        }
    }

    /// The distance between the best ask and the best bid, in ticks.
    pub fn spread_steps(&self) -> (r: u32)
        requires
            self.wf(),
        ensures
            r == self.spec_ask() - self.spec_bid(),
    {
        self.ask_pointer - self.bid_pointer
    }

    /// The distance between the best ask and the best bid, in price units.
    pub fn spread_cost(&self) -> (r: i64)
        requires
            self.wf(),
        ensures
            r == (self.spec_ask() - self.spec_bid()) * self.spec_step(),
    {
        let ticks = self.ask_pointer - self.bid_pointer;
        assert(0 < ticks * self.min_step <= (ORDER_BOOK_LEVELS - 1) * self.min_step)
            by (nonlinear_arith)
            requires 0 < ticks < ORDER_BOOK_LEVELS, self.min_step > 0;
        (ticks as i64) * self.min_step
    }

    /// The quantity resting at `price_point`.
    pub fn price_quantity(&self, price_point: i64) -> (r: Result<u64, OrderbookError>)
        requires
            self.wf(),
        ensures
            match index_of(self.spec_start(), self.spec_step(), price_point as int) {
                Some(k) => r == Ok::<u64, OrderbookError>(self.spec_levels()[k].quantity),
                None => r == Err::<u64, OrderbookError>(OrderbookError::OutOfWindow),
            },
    {
        match self.price_index(price_point) {
            Some(k) => Ok(self.levels[k].quantity),
            None => Err(OrderbookError::OutOfWindow),
        }
    }

    /// Applies one update. On success the update id goes up by one and is
    /// returned with what the update reports; on refusal nothing changes.
    pub fn update(&mut self, update: OrderbookUpdate) -> (r: Result<UpdateOutcome, OrderbookError>)
        requires
            old(self).wf(),
            old(self).spec_update_id() < u64::MAX,
        ensures
            final(self).wf(),
            final(self).spec_start() == old(self).spec_start(),
            final(self).spec_step() == old(self).spec_step(),
            final(self).spec_bid() == old(self).spec_bid(),
            final(self).spec_ask() == old(self).spec_ask(),
            final(self).spec_min_depth() == old(self).spec_min_depth(),
            match spec_apply(
                old(self).spec_levels(),
                old(self).spec_bid(),
                old(self).spec_ask(),
                index_of(old(self).spec_start(), old(self).spec_step(), update.price as int),
                update,
            ) {
                Ok((ls, uf, unf)) => r == Ok::<UpdateOutcome, OrderbookError>(
                    (UpdateOutcome {
                        update_id: (old(self).spec_update_id() + 1) as u64,
                        underflow: uf,
                        unfilled: unf as u64,
                    }),
                ) && final(self).spec_levels() == ls && final(self).spec_update_id()
                    == old(self).spec_update_id() + 1,
                Err(e) => r == Err::<UpdateOutcome, OrderbookError>(e) && final(self).spec_levels()
                    == old(self).spec_levels() && final(self).spec_update_id()
                    == old(self).spec_update_id(),
            },
    {
        let k = match self.price_index(update.price) {
            Some(k) => k,
            None => return Err(OrderbookError::OutOfWindow),
        };
        let bid = self.bid_pointer as usize;
        let ask = self.ask_pointer as usize;
        let buy = update.quantity > 0;
        let m: u64 = if update.quantity < 0 {
            (0 - (update.quantity as i128)) as u64
        } else {
            update.quantity as u64
        };
        let mut underflow = false;
        let mut unfilled: u64 = 0;
        let lv = self.levels[k];
        match update.order_type {
            OrderbookUpdateType::SetLevel => {
                if update.quantity < 0 {
                    return Err(OrderbookError::InvalidQuantity);
                }
                self.levels.set(k, Level { price: lv.price, quantity: update.quantity as u64 });
            },
            OrderbookUpdateType::LimitOrder => {
                let t: i128 = lv.quantity as i128 + update.quantity as i128;
                if t > u64::MAX as i128 {
                    return Err(OrderbookError::QuantityOverflow);
                }
                if t < 0 {
                    underflow = true;
                    self.levels.set(k, Level { price: lv.price, quantity: 0 });
                } else {
                    self.levels.set(k, Level { price: lv.price, quantity: t as u64 });
                }
            },
            OrderbookUpdateType::MarketOrder => {
                unfilled = consume_walk(&mut self.levels, bid, ask, buy, m);
            },
            OrderbookUpdateType::FillOrKillOrder => {
                if capped_available(&self.levels, bid, ask, buy, m) < m {
                    return Err(OrderbookError::InsufficientDepth);
                }
                consume_walk(&mut self.levels, bid, ask, buy, m);
            },
        }
        self.update_id = self.update_id + 1;
        Ok(UpdateOutcome { update_id: self.update_id, underflow, unfilled })
    }

    /// Adds `quantity` (negative to take away) at `price`, clamped at zero.
    pub fn limit_order(&mut self, price: i64, quantity: i64) -> (r: Result<UpdateOutcome, OrderbookError>)
        requires
            old(self).wf(),
            old(self).spec_update_id() < u64::MAX,
        ensures
            final(self).wf(),
            final(self).spec_start() == old(self).spec_start(),
            final(self).spec_step() == old(self).spec_step(),
            final(self).spec_bid() == old(self).spec_bid(),
            final(self).spec_ask() == old(self).spec_ask(),
            final(self).spec_min_depth() == old(self).spec_min_depth(),
            match spec_apply(
                old(self).spec_levels(),
                old(self).spec_bid(),
                old(self).spec_ask(),
                index_of(old(self).spec_start(), old(self).spec_step(), price as int),
                (OrderbookUpdate { price, quantity, order_type: OrderbookUpdateType::LimitOrder }),
            ) {
                Ok((ls, uf, unf)) => r == Ok::<UpdateOutcome, OrderbookError>(
                    (UpdateOutcome {
                        update_id: (old(self).spec_update_id() + 1) as u64,
                        underflow: uf,
                        unfilled: unf as u64,
                    }),
                ) && final(self).spec_levels() == ls && final(self).spec_update_id()
                    == old(self).spec_update_id() + 1,
                Err(e) => r == Err::<UpdateOutcome, OrderbookError>(e) && final(self).spec_levels()
                    == old(self).spec_levels() && final(self).spec_update_id()
                    == old(self).spec_update_id(),
            },
    {
        self.update(OrderbookUpdate { price, quantity, order_type: OrderbookUpdateType::LimitOrder })
    }

    /// Rebuilds the ladder around its current best bid and best ask when the
    /// margin on either side is under `min_depth`, carrying each quantity to
    /// the slot of its price in the new ladder; quantity whose price falls
    /// outside the new ladder is dropped. Returns whether it rebuilt.
    pub fn rebalance(&mut self) -> (r: bool)
        requires
            old(self).wf(),
        ensures
            final(self).wf(),
            r == old(self).needs_recenter(),
            final(self).spec_step() == old(self).spec_step(),
            final(self).spec_min_depth() == old(self).spec_min_depth(),
            final(self).spec_update_id() == old(self).spec_update_id(),
            !r ==> final(self).spec_levels() == old(self).spec_levels() && final(self).spec_start()
                == old(self).spec_start() && final(self).spec_bid() == old(self).spec_bid()
                && final(self).spec_ask() == old(self).spec_ask(),
            r ==> spec_geometry(
                old(self).spec_levels()[old(self).spec_bid()].price as int,
                old(self).spec_levels()[old(self).spec_ask()].price as int,
                old(self).spec_step(),
            ) == Ok::<(int, int, int), OrderbookError>(
                (final(self).spec_start(), final(self).spec_bid(), final(self).spec_ask()),
            ),
            r ==> forall|j: int|
                0 <= j < ORDER_BOOK_LEVELS ==> (#[trigger] final(self).spec_levels()[j]).quantity
                    == match index_of(
                    old(self).spec_start(),
                    old(self).spec_step(),
                    final(self).spec_levels()[j].price as int,
                ) {
                    Some(i) => old(self).spec_levels()[i].quantity,
                    None => 0,
                },
    {
        let bid = self.bid_pointer as usize;
        let ask = self.ask_pointer as usize;
        if !(self.bid_pointer < self.min_depth || (ORDER_BOOK_LEVELS as u32 - 1) - self.ask_pointer
            < self.min_depth) {
            return false;
        }
        let step = self.min_step;
        // The book's own bid and ask always rebuild: its geometry came from them.
        let g = match build_geometry(self.levels[bid].price, self.levels[ask].price, step) {
            Ok(g) => g,
            Err(_) => return false,
        };
        let mut levels: Vec<Level> = Vec::new();
        let mut j: usize = 0;
        while j < ORDER_BOOK_LEVELS
            invariant
                self.wf(),
                j <= ORDER_BOOK_LEVELS,
                levels@.len() == j,
                step == self.spec_step(),
                step > 0,
                g.start_price + (ORDER_BOOK_LEVELS - 1) * step <= i64::MAX,
                forall|i: int|
                    0 <= i < j ==> (#[trigger] levels@[i]).price == grid_price(
                        g.start_price as int,
                        step as int,
                        i,
                    ) && levels@[i].quantity == match index_of(
                        self.spec_start(),
                        step as int,
                        levels@[i].price as int,
                    ) {
                        Some(k) => self.spec_levels()[k].quantity,
                        None => 0,
                    },
            decreases ORDER_BOOK_LEVELS - j,
        {
            assert(0 <= j * step <= (ORDER_BOOK_LEVELS - 1) * step) by (nonlinear_arith)
                requires j < ORDER_BOOK_LEVELS, step > 0;
            let price = (g.start_price as i128 + (j as i128) * (step as i128)) as i64;
            let quantity = match self.price_index(price) {
                Some(k) => self.levels[k].quantity,
                None => 0,
            };
            levels.push(Level { price, quantity });
            j = j + 1;
        }
        self.start_price = g.start_price;
        self.bid_pointer = g.bid_pointer;
        self.ask_pointer = g.ask_pointer;
        self.levels = levels;
        true
    }

    /// The price of slot 0.
    pub fn start_price(&self) -> (r: i64)
        ensures
            r == self.spec_start(),
    {
        self.start_price
    }

    /// The tick size.
    pub fn min_step(&self) -> (r: i64)
        ensures
            r == self.spec_step(),
    {
        self.min_step
    }

    /// The slot of the best bid.
    pub fn bid_pointer(&self) -> (r: u32)
        ensures
            r == self.spec_bid(),
    {
        self.bid_pointer
    }

    /// The slot of the best ask.
    pub fn ask_pointer(&self) -> (r: u32)
        ensures
            r == self.spec_ask(),
    {
        self.ask_pointer
    }

    /// Free slots wanted on each side before a recentre is due.
    pub fn min_depth(&self) -> (r: u32)
        ensures
            r == self.spec_min_depth(),
    {
        self.min_depth
    }

    /// How many updates the book has accepted.
    pub fn update_id(&self) -> (r: u64)
        ensures
            r == self.spec_update_id(),
    {
        self.update_id
    }

    /// All slots, lowest price first.
    pub fn levels(&self) -> (r: &Vec<Level>)
        ensures
            r@ == self.spec_levels(),
    {
        &self.levels
    }
}

} // verus!
