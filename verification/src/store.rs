//! The shared cell: one optional unsigned integer, absent at start.

use vstd::prelude::*;

verus! {

/// The price store: holds at most one unsigned value. A fresh store is
/// absent; `set` makes it present, `clear` makes it absent again.
pub struct PriceStore {
    price: Option<u64>,
}

impl View for PriceStore {
    type V = Option<u64>;

    closed spec fn view(&self) -> Option<u64> {
        self.price
    }
}

impl PriceStore {
    /// A fresh store holds no value.
    pub fn new() -> (s: Self)
        ensures
            s@ == None::<u64>,
    {
        PriceStore { price: None }
    }

    /// Returns the current value; never fails.
    pub fn read(&self) -> (r: Option<u64>)
        ensures
            r == self@,
    {
        self.price
    }

    /// Replaces the value with `Some(v)`; never fails.
    pub fn set(&mut self, v: u64)
        ensures
            final(self)@ == Some(v),
    {
        self.price = Some(v);
    }

    /// Replaces the value with `None`; never fails.
    pub fn clear(&mut self)
        ensures
            final(self)@ == None::<u64>,
    {
        self.price = None;
    }
}

} // verus!
