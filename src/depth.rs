use vstd::prelude::*;
use crate::book::ORDER_BOOK_LEVELS;
use crate::level::Level;

verus! {

/// Total quantity resting in slots `lo .. hi` of a ladder.
pub open spec fn sum_q(ls: Seq<Level>, lo: int, hi: int) -> int
    decreases hi - lo,
{
    if lo >= hi {
        0
    } else {
        ls[lo].quantity + sum_q(ls, lo + 1, hi)
    }
}

/// Extending a range by one slot at its top adds that slot's quantity.
pub proof fn lemma_sum_q_extend(ls: Seq<Level>, lo: int, hi: int)
    requires
        lo <= hi,
    ensures
        sum_q(ls, lo, hi + 1) == sum_q(ls, lo, hi) + ls[hi].quantity,
    decreases hi - lo,
{
    if lo < hi {
        lemma_sum_q_extend(ls, lo + 1, hi);
    } else {
        assert(sum_q(ls, hi + 1, hi + 1) == 0);
    }
}

/// Whether slot `i` lies on the walk from the touch outward: from the ask
/// upward when buying, from the bid downward when selling.
pub open spec fn on_walk(i: int, bid: int, ask: int, buy: bool) -> bool {
    if buy {
        ask <= i < ORDER_BOOK_LEVELS
    } else {
        0 <= i <= bid
    }
}

/// Depth met on the walk from the touch up to and including slot `i`.
pub open spec fn depth_through(ls: Seq<Level>, i: int, bid: int, ask: int, buy: bool) -> int {
    if buy {
        sum_q(ls, ask, i + 1)
    } else {
        sum_q(ls, i, bid + 1)
    }
}

/// All depth on the walk.
pub open spec fn depth_available(ls: Seq<Level>, bid: int, ask: int, buy: bool) -> int {
    if buy {
        sum_q(ls, ask, ORDER_BOOK_LEVELS as int)
    } else {
        sum_q(ls, 0, bid + 1)
    }
}

/// What stays at a slot holding `q` once `m` has been taken from the walk,
/// when the depth met through that slot is `through`.
pub open spec fn left_after(q: int, through: int, m: int) -> int {
    if through <= m {
        0
    } else if through - m < q {
        through - m
    } else {
        q
    }
}

/// The ladder after `m` has been taken from the walk, nearest slots first.
pub open spec fn consumed(ls: Seq<Level>, bid: int, ask: int, buy: bool, m: int) -> Seq<Level> {
    Seq::new(
        ls.len(),
        |i: int|
            if on_walk(i, bid, ask, buy) {
                Level {
                    price: ls[i].price,
                    quantity: left_after(
                        ls[i].quantity as int,
                        depth_through(ls, i, bid, ask, buy),
                        m,
                    ) as u64,
                }
            } else {
                ls[i]
            },
    )
}

/// The smaller of `m` and the depth on the walk.
pub fn capped_available(levels: &Vec<Level>, bid: usize, ask: usize, buy: bool, m: u64) -> (r: u64)
    requires
        levels@.len() == ORDER_BOOK_LEVELS,
        bid < ask < ORDER_BOOK_LEVELS,
    ensures
        r == if depth_available(levels@, bid as int, ask as int, buy) < m {
            depth_available(levels@, bid as int, ask as int, buy)
        } else {
            m as int
        },
{
    let ghost ls = levels@;
    let mut got: u64 = 0;
    if buy {
        let mut i: usize = ask;
        while i < ORDER_BOOK_LEVELS
            invariant
                ask <= i <= ORDER_BOOK_LEVELS,
                levels@ == ls,
                ls.len() == ORDER_BOOK_LEVELS,
                got == if sum_q(ls, ask as int, i as int) < m {
                    sum_q(ls, ask as int, i as int)
                } else {
                    m as int
                },
            decreases ORDER_BOOK_LEVELS - i,
        {
            proof {
                lemma_sum_q_extend(ls, ask as int, i as int);
            }
            let q = levels[i].quantity;
            if q >= m - got {
                got = m;
            } else {
                got = got + q;
            }
            i = i + 1;
        }
    } else {
        let mut n: usize = bid + 1;
        while n > 0
            invariant
                n <= bid + 1,
                bid < ORDER_BOOK_LEVELS,
                levels@ == ls,
                ls.len() == ORDER_BOOK_LEVELS,
                got == if sum_q(ls, n as int, bid + 1) < m {
                    sum_q(ls, n as int, bid + 1)
                } else {
                    m as int
                },
            decreases n,
        {
            let i = n - 1;
            let q = levels[i].quantity;
            if q >= m - got {
                got = m;
            } else {
                got = got + q;
            }
            n = i;
        }
    }
    got
}

/// Takes up to `m` from the walk, nearest slots first, and returns what was
/// not found.
pub fn consume_walk(levels: &mut Vec<Level>, bid: usize, ask: usize, buy: bool, m: u64) -> (r: u64)
    requires
        old(levels)@.len() == ORDER_BOOK_LEVELS,
        bid < ask < ORDER_BOOK_LEVELS,
    ensures
        final(levels)@ == consumed(old(levels)@, bid as int, ask as int, buy, m as int),
        r == if depth_available(old(levels)@, bid as int, ask as int, buy) < m {
            m - depth_available(old(levels)@, bid as int, ask as int, buy)
        } else {
            0
        },
{
    let ghost ls = levels@;
    let ghost target = consumed(ls, bid as int, ask as int, buy, m as int);
    let mut rest: u64 = m;
    if buy {
        let mut i: usize = ask;
        while i < ORDER_BOOK_LEVELS
            invariant
                ask <= i <= ORDER_BOOK_LEVELS,
                bid < ask,
                ls.len() == ORDER_BOOK_LEVELS,
                levels@.len() == ORDER_BOOK_LEVELS,
                target == consumed(ls, bid as int, ask as int, buy, m as int),
                buy,
                rest == if sum_q(ls, ask as int, i as int) < m {
                    m - sum_q(ls, ask as int, i as int)
                } else {
                    0
                },
                forall|j: int|
                    0 <= j < ORDER_BOOK_LEVELS ==> #[trigger] levels@[j] == if ask <= j < i {
                        target[j]
                    } else {
                        ls[j]
                    },
            decreases ORDER_BOOK_LEVELS - i,
        {
            proof {
                lemma_sum_q_extend(ls, ask as int, i as int);
            }
            let lv = levels[i];
            let take = if lv.quantity < rest {
                lv.quantity
            } else {
                rest
            };
            levels.set(i, Level { price: lv.price, quantity: lv.quantity - take });
            rest = rest - take;
            i = i + 1;
        }
    } else {
        let mut n: usize = bid + 1;
        while n > 0
            invariant
                n <= bid + 1,
                bid < ask < ORDER_BOOK_LEVELS,
                ls.len() == ORDER_BOOK_LEVELS,
                levels@.len() == ORDER_BOOK_LEVELS,
                target == consumed(ls, bid as int, ask as int, buy, m as int),
                !buy,
                rest == if sum_q(ls, n as int, bid + 1) < m {
                    m - sum_q(ls, n as int, bid + 1)
                } else {
                    0
                },
                forall|j: int|
                    0 <= j < ORDER_BOOK_LEVELS ==> #[trigger] levels@[j] == if n <= j <= bid {
                        target[j]
                    } else {
                        ls[j]
                    },
            decreases n,
        {
            let i = n - 1;
            let lv = levels[i];
            let take = if lv.quantity < rest {
                lv.quantity
            } else {
                rest
            };
            levels.set(i, Level { price: lv.price, quantity: lv.quantity - take });
            rest = rest - take;
            n = i;
        }
    }
    assert(levels@ =~= target);
    rest
}

} // verus!
