//! What the bot needs of an order book.
use vstd::prelude::*;
use crate::types::Real;

verus! {

/// An order book that takes updates of its two sides.
///
/// The bot does not look into a book. A kind of book may say for itself, in
/// `bid_updated` and `ask_updated`, what an update makes of it, and the bot's
/// contracts hand that statement on. A book that does not say so promises nothing
/// of its updates.
pub trait MarketDepth: Sized {
    /// `post` is what an update of the bid side at price `px` to quantity `qty`,
    /// stamped `timestamp` by the exchange, may make of `pre`.
    open spec fn bid_updated(pre: Self, px: Real, qty: Real, timestamp: i64, post: Self) -> bool {
        true
    }

    /// `post` is what an update of the ask side at price `px` to quantity `qty`,
    /// stamped `timestamp` by the exchange, may make of `pre`.
    open spec fn ask_updated(pre: Self, px: Real, qty: Real, timestamp: i64, post: Self) -> bool {
        true
    }

    /// Sets the quantity on the bid side at price `px`.
    fn update_bid_depth(&mut self, px: Real, qty: Real, timestamp: i64)
        ensures
            Self::bid_updated(*old(self), px, qty, timestamp, *final(self)),
    ;

    /// Sets the quantity on the ask side at price `px`.
    fn update_ask_depth(&mut self, px: Real, qty: Real, timestamp: i64)
        ensures
            Self::ask_updated(*old(self), px, qty, timestamp, *final(self)),
    ;
}

} // verus!
