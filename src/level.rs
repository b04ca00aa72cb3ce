use vstd::prelude::*;
use crate::units::{parse_units, text_units};

verus! {

/// One slot of the ladder: a price in price units (for example cents) and the
/// resting quantity there in quantity units (for example satoshis).
#[derive(Debug, Clone, Copy, PartialEq, Eq, Structural)]
pub struct Level {
    pub price: i64,
    pub quantity: u64,
}

impl Level {
    /// Reads a level from decimal text: the price in units of
    /// `10^-price_scale`, the quantity in units of `10^-quantity_scale`.
    /// Nothing when either is not a whole number of its units that fits an
    /// `i64`, or the quantity is negative.
    pub fn new(price: &str, quantity: &str, price_scale: u32, quantity_scale: u32) -> (r: Option<
        Level,
    >)
        ensures
            match (text_units(price@, price_scale as nat), text_units(quantity@, quantity_scale as nat)) {
                (Some(p), Some(q)) => if q >= 0 {
                    r == Some((Level { price: p as i64, quantity: q as u64 }))
                } else {
                    r is None
                },
                _ => r is None,
            },
    {
        let p = match parse_units(price, price_scale) {
            Some(p) => p,
            None => return None,
        };
        let q = match parse_units(quantity, quantity_scale) {
            Some(q) => q,
            None => return None,
        };
        if q < 0 {
            return None;
        }
        Some(Level { price: p, quantity: q as u64 })
    }

    pub fn price(&self) -> (r: i64)
        ensures
            r == self.price,
    {
        self.price
    }

    pub fn quantity(&self) -> (r: u64)
        ensures
            r == self.quantity,
    {
        self.quantity
    }
}

} // verus!
