//! The contract between the dispatcher and the code that handles an event.

use vstd::prelude::*;
use crate::errors::EventErrorType;
use crate::events::RequestEvent;

verus! {

/// What a handler returns: the payload of a success response, or a typed
/// error.
pub type HandlerResult = Result<serde_json::Value, EventErrorType>;

/// A handler of one kind of event: given a request, it produces a success
/// payload or a typed error.
pub trait EventHandler {
    /// `outcome` is a result that the handler may give for `event`.
    spec fn yields(&self, event: &RequestEvent, outcome: HandlerResult) -> bool;

    /// Handles a request.
    fn handle(&self, event: &RequestEvent) -> (outcome: HandlerResult)
        ensures
            self.yields(event, outcome),
    ;
}

/// A handler made of a function or closure that accepts every request.
pub struct FnForwardHandler<T: Fn(&RequestEvent) -> HandlerResult> {
    fn_handler: T,
}

impl<T: Fn(&RequestEvent) -> HandlerResult> FnForwardHandler<T> {
    #[verifier::type_invariant]
    spec fn accepts_every_request(&self) -> bool {
        forall|event: &RequestEvent| call_requires(self.fn_handler, (event,))
    }

    /// The function that this handler forwards to.
    pub closed spec fn inner(&self) -> T {
        self.fn_handler
    }

    /// Wraps a function as a handler. The function must accept every
    /// request.
    pub fn new(handler: T) -> (r: FnForwardHandler<T>)
        requires
            forall|event: &RequestEvent| call_requires(handler, (event,)),
        ensures
            r.inner() == handler,
    {
        FnForwardHandler { fn_handler: handler }
    }
}

impl<T: Fn(&RequestEvent) -> HandlerResult> EventHandler for FnForwardHandler<T> {
    open spec fn yields(&self, event: &RequestEvent, outcome: HandlerResult) -> bool {
        call_ensures(self.inner(), (event,), outcome)
    }

    fn handle(&self, event: &RequestEvent) -> (outcome: HandlerResult)
        ensures
            call_ensures(self.inner(), (event,), outcome),
    {
        proof {
            use_type_invariant(self);
        }
        (self.fn_handler)(event)
    }
}

/// A boxed handler handles as the handler in the box does. With
/// `Box<dyn EventHandler>` one table can hold handlers of different types.
impl<H: EventHandler + ?Sized> EventHandler for Box<H> {
    open spec fn yields(&self, event: &RequestEvent, outcome: HandlerResult) -> bool {
        (**self).yields(event, outcome)
    }

    fn handle(&self, event: &RequestEvent) -> (outcome: HandlerResult) {
        (**self).handle(event)
    }
}

} // verus!
