//! The pipeline from raw input to response: decode, resolve, invoke,
//! normalize. Every input gives exactly one response.

use vstd::prelude::*;
use crate::errors::{
    bad_protocol, error_for, event_not_found, is_bad_protocol, is_failure_of, is_lookup,
    is_not_found_of,
};
use crate::events::{
    decode, is_success_of, parse_event, response_for, Envelope, RequestEvent, ResponseEvent,
};
use crate::handlers::{EventHandler, HandlerResult};
use crate::json::{json_member, json_object, json_text};
use crate::store::EventStore;

verus! {

/// `response` is what a handler's outcome becomes for `request`: the success
/// response with the payload returned, or the response that reports the
/// error returned.
pub open spec fn is_outcome_of(response: Envelope, request: Envelope, outcome: HandlerResult) -> bool {
    match outcome {
        Ok(payload) => is_success_of(response, request, payload),
        Err(error) => is_failure_of(response, request, error.tag(), error.carried()@),
    }
}

/// `response` is what dispatching `event` over `store` gives: the
/// not-found response where no handler is registered for the event's name
/// and version, else what an outcome of the registered handler becomes.
pub open spec fn is_dispatch_of<S: EventStore>(
    store: S,
    event: &RequestEvent,
    response: Envelope,
) -> bool {
    match store.resolve(event.name@, event.version) {
        Some(handler) => exists|outcome: HandlerResult|
            handler.yields(event, outcome) && is_outcome_of(response, event@, outcome),
        None => is_not_found_of(response, event@),
    }
}

/// `response` is what processing `input` over `store` gives: the
/// bad-protocol response with the decoder's description where the input
/// cannot be decoded, else what dispatching the decoded request gives.
pub open spec fn is_process_of<S: EventStore>(store: S, input: Seq<char>, response: Envelope) -> bool {
    match decode(input) {
        Ok(envelope) => exists|event: &RequestEvent|
            event@ == envelope && is_dispatch_of(store, event, response),
        Err(message) => is_bad_protocol(response, message),
    }
}

/// Turns the outcome of a handler into the response to its request.
pub fn normalize(event: &RequestEvent, outcome: HandlerResult) -> (r: ResponseEvent)
    ensures
        is_outcome_of(r@, event@, outcome),
{
    match outcome {
        Ok(payload) => response_for(event, payload),
        Err(err) => error_for(event, &err),
    }
}

/// Routes a decoded request: calls the handler registered for its name and
/// version, once, and normalizes what it returns; without such a handler,
/// answers that the event was not found.
pub fn dispatch<S: EventStore>(store: &S, event: &RequestEvent) -> (r: ResponseEvent)
    ensures
        is_dispatch_of(*store, event, r@),
        r.id == event.id,
        r.flow_id == event.flow_id,
{
    match store.handler_for(event.name.as_str(), event.version) {
        Some(handler) => {
            let outcome = handler.handle(event);
            normalize(event, outcome)
        },
        None => event_not_found(event),
    }
}

/// The processor: a dispatch table and the pipeline over it.
pub struct EventProcessor<S: EventStore> {
    store: S,
}

impl<S: EventStore> EventProcessor<S> {
    /// The dispatch table of this processor.
    pub closed spec fn store(&self) -> S {
        self.store
    }

    /// Makes a processor over a dispatch table.
    pub fn new(store: S) -> (r: Self)
        ensures
            r.store() == store,
    {
        EventProcessor { store }
    }

    /// Processes one raw input into one response. No failure reaches the
    /// caller: an input that cannot be decoded, an event without a handler
    /// and a handler's error each come back as a response.
    pub fn process_event(&self, payload: &str) -> (r: ResponseEvent)
        ensures
            is_process_of(self.store(), payload@, r@),
            decode(payload@) is Ok ==> r.id == decode(payload@)->Ok_0.id && r.flow_id == decode(
                payload@,
            )->Ok_0.flow_id,
    {
        match parse_event(payload) {
            Ok(event) => dispatch(&self.store, &event),
            Err(err) => bad_protocol(err),
        }
    }
}

/// Correlation law: the response to a decoded request carries the request's
/// identifiers, whether a handler answered or none was found.
pub proof fn lemma_dispatch_echoes_identifiers<S: EventStore>(
    store: S,
    event: &RequestEvent,
    response: Envelope,
)
    requires
        is_dispatch_of(store, event, response),
    ensures
        response.id == event.id,
        response.flow_id == event.flow_id,
{
}

/// An input that cannot be decoded is answered by `badProtocol` with the
/// code `INVALID_COMMUNICATION_PROTOCOL`, whatever the table holds.
pub proof fn lemma_undecodable_is_bad_protocol<S: EventStore>(
    store: S,
    input: Seq<char>,
    response: Envelope,
)
    requires
        is_process_of(store, input, response),
        decode(input) is Err,
    ensures
        response.name == "badProtocol"@,
        json_member(response.payload, "code"@) is Some,
        json_text(json_member(response.payload, "code"@).unwrap()) == Some(
            "INVALID_COMMUNICATION_PROTOCOL"@,
        ),
{
    let members = json_object(response.payload).unwrap();
    assert(members.dom().contains("code"@));
}

/// A decoded request for which nothing is registered is answered by
/// `eventNotFound` with the code `NO_EVENT_HANDLER_FOUND`, the request's
/// identifiers, and parameters that name the event and version asked for.
pub proof fn lemma_unregistered_is_not_found<S: EventStore>(
    store: S,
    input: Seq<char>,
    request: Envelope,
    response: Envelope,
)
    requires
        is_process_of(store, input, response),
        decode(input) == Ok::<Envelope, Seq<char>>(request),
        store.resolve(request.name, request.version) is None,
    ensures
        response.name == "eventNotFound"@,
        response.id == request.id,
        response.flow_id == request.flow_id,
        json_member(response.payload, "code"@) is Some,
        json_text(json_member(response.payload, "code"@).unwrap()) == Some(
            "NO_EVENT_HANDLER_FOUND"@,
        ),
        json_member(response.payload, "parameters"@) is Some,
        is_lookup(
            json_member(response.payload, "parameters"@).unwrap(),
            request.name,
            request.version,
        ),
{
    let members = json_object(response.payload).unwrap();
    assert(members.dom().contains("code"@));
}

/// A decoded request for which a handler is registered is answered by what
/// an outcome of that handler becomes, under the request's identifiers.
pub proof fn lemma_registered_is_handled<S: EventStore>(
    store: S,
    input: Seq<char>,
    request: Envelope,
    handler: S::Handler,
    response: Envelope,
)
    requires
        is_process_of(store, input, response),
        decode(input) == Ok::<Envelope, Seq<char>>(request),
        store.resolve(request.name, request.version) == Some(handler),
    ensures
        exists|event: &RequestEvent, outcome: HandlerResult|
            event@ == request && handler.yields(event, outcome) && is_outcome_of(
                response,
                request,
                outcome,
            ),
        response.id == request.id,
        response.flow_id == request.flow_id,
{
    let event = choose|event: &RequestEvent|
        event@ == request && is_dispatch_of(store, event, response);
    let outcome = choose|outcome: HandlerResult|
        handler.yields(event, outcome) && is_outcome_of(response, event@, outcome);
    assert(event@ == request && handler.yields(event, outcome) && is_outcome_of(
        response,
        request,
        outcome,
    ));
}

} // verus!
