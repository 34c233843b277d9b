//! The two hooks that a strategy may register with the bot.
use vstd::prelude::*;
use crate::error::BotError;
use crate::types::{LiveError, Order};

verus! {

/// Deals with an error that a connector reports. An `Err` ends the current wait
/// with that error.
pub trait ErrorHandler {
    /// `verdict` is a possible answer of this handler to `error`.
    spec fn may_return(&self, error: LiveError, verdict: Result<(), BotError>) -> bool;

    /// Handles one error.
    fn on_error(&self, error: LiveError) -> (verdict: Result<(), BotError>)
        ensures
            self.may_return(error, verdict),
    ;
}

/// Sees each update of an order that is already in the mirror, before the update
/// is applied. An `Err` keeps the update from being applied and ends the current
/// wait with that error.
pub trait OrderRecvHook {
    /// `verdict` is a possible answer of this hook to the update `update` of the
    /// mirrored order `existing`.
    spec fn may_return(&self, existing: Order, update: Order, verdict: Result<(), BotError>) -> bool;

    /// Sees one update.
    fn on_order(&self, existing: &Order, update: &Order) -> (verdict: Result<(), BotError>)
        ensures
            self.may_return(*existing, *update, verdict),
    ;
}

/// An error handler made of a function that accepts every error.
pub struct FnErrorHandler<F: Fn(LiveError) -> Result<(), BotError>> {
    handler: F,
}

impl<F: Fn(LiveError) -> Result<(), BotError>> FnErrorHandler<F> {
    #[verifier::type_invariant]
    spec fn accepts_all(self) -> bool {
        forall|error: LiveError| call_requires(self.handler, (error,))
    }

    /// The function inside.
    pub closed spec fn inner(self) -> F {
        self.handler
    }

    /// Wraps a function that can be called with every error.
    pub fn new(handler: F) -> (r: Self)
        requires
            forall|error: LiveError| call_requires(handler, (error,)),
        ensures
            r.inner() == handler,
    {
        FnErrorHandler { handler }
    }
}

impl<F: Fn(LiveError) -> Result<(), BotError>> ErrorHandler for FnErrorHandler<F> {
    open spec fn may_return(&self, error: LiveError, verdict: Result<(), BotError>) -> bool {
        call_ensures(self.inner(), (error,), verdict)
    }

    fn on_error(&self, error: LiveError) -> (verdict: Result<(), BotError>) {
        proof {
            use_type_invariant(self);
        }
        (self.handler)(error)
    }
}

/// An order hook made of a function that accepts every pair of orders.
pub struct FnOrderRecvHook<F: Fn(&Order, &Order) -> Result<(), BotError>> {
    hook: F,
}

impl<F: Fn(&Order, &Order) -> Result<(), BotError>> FnOrderRecvHook<F> {
    #[verifier::type_invariant]
    spec fn accepts_all(self) -> bool {
        forall|existing: &Order, update: &Order| call_requires(self.hook, (existing, update))
    }

    /// The function inside.
    pub closed spec fn inner(self) -> F {
        self.hook
    }

    /// Wraps a function that can be called with every pair of orders.
    pub fn new(hook: F) -> (r: Self)
        requires
            forall|existing: &Order, update: &Order| call_requires(hook, (existing, update)),
        ensures
            r.inner() == hook,
    {
        FnOrderRecvHook { hook }
    }
}

impl<F: Fn(&Order, &Order) -> Result<(), BotError>> OrderRecvHook for FnOrderRecvHook<F> {
    open spec fn may_return(&self, existing: Order, update: Order, verdict: Result<(), BotError>) -> bool {
        call_ensures(self.inner(), (&existing, &update), verdict)
    }

    fn on_order(&self, existing: &Order, update: &Order) -> (verdict: Result<(), BotError>) {
        proof {
            use_type_invariant(self);
        }
        (self.hook)(existing, update)
    }
}

} // verus!
