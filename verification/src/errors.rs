//! The error taxonomy: eight well-known kinds of failure and an open
//! catch-all, each carrying a code and parameters.

use vstd::prelude::*;
use vstd::string::StringExecFns;
use crate::events::{
    answers, carries_error, lemma_derived_name_ends_in_suffix, lemma_success_name_suffix,
    names_success, DecodeError, Envelope, RequestEvent, ResponseEvent,
};
use crate::ids::fresh_uuid;
use crate::json::{
    empty_object, is_empty_object, json_member, json_object, json_text, json_uint, text_value,
    uint_value, with_member,
};
use crate::text::{after_last, free_of, quoted, quoted_text, same_text};

verus! {

/// What an [`EventError`] holds, as mathematical values.
pub struct ErrorInfo {
    pub code: Seq<char>,
    pub parameters: serde_json::Value,
}

/// The kind of an error, as a mathematical value.
pub enum ErrorLabel {
    Generic,
    BadRequest,
    Unauthorized,
    NotFound,
    Forbidden,
    UserDenied,
    ResourceDenied,
    Expired,
    Unknown(Seq<char>),
}

/// The kind that a wire tag denotes: the eight well-known tags denote their
/// own kind, every other text the catch-all that carries it.
pub open spec fn label_of(tag: Seq<char>) -> ErrorLabel {
    if tag == "error"@ {
        ErrorLabel::Generic
    } else if tag == "badRequest"@ {
        ErrorLabel::BadRequest
    } else if tag == "unauthorized"@ {
        ErrorLabel::Unauthorized
    } else if tag == "notFound"@ {
        ErrorLabel::NotFound
    } else if tag == "forbidden"@ {
        ErrorLabel::Forbidden
    } else if tag == "userDenied"@ {
        ErrorLabel::UserDenied
    } else if tag == "resourceDenied"@ {
        ErrorLabel::ResourceDenied
    } else if tag == "expired"@ {
        ErrorLabel::Expired
    } else {
        ErrorLabel::Unknown(tag)
    }
}

/// The wire tag of a kind.
pub open spec fn tag_of(label: ErrorLabel) -> Seq<char> {
    match label {
        ErrorLabel::Generic => "error"@,
        ErrorLabel::BadRequest => "badRequest"@,
        ErrorLabel::Unauthorized => "unauthorized"@,
        ErrorLabel::NotFound => "notFound"@,
        ErrorLabel::Forbidden => "forbidden"@,
        ErrorLabel::UserDenied => "userDenied"@,
        ErrorLabel::ResourceDenied => "resourceDenied"@,
        ErrorLabel::Expired => "expired"@,
        ErrorLabel::Unknown(tag) => tag,
    }
}

/// Round-trip law of tags: the kind that any text denotes has that text as
/// its wire tag, whether the text is a well-known tag or not.
pub proof fn lemma_tag_round_trip(tag: Seq<char>)
    ensures
        tag_of(label_of(tag)) == tag,
{
}

/// A failure reported by a handler: a stable machine-readable code and
/// structured parameters for diagnosis.
#[derive(Debug)]
pub struct EventError {
    pub code: String,
    pub parameters: serde_json::Value,
}

impl View for EventError {
    type V = ErrorInfo;

    open spec fn view(&self) -> ErrorInfo {
        ErrorInfo { code: self.code@, parameters: self.parameters }
    }
}

impl Clone for EventError {
    fn clone(&self) -> (r: Self)
        ensures
            r == *self,
    {
        EventError { code: self.code.clone(), parameters: self.parameters.clone() }
    }
}

/// A typed error: one of eight well-known kinds, or `Unknown` with a tag of
/// the handler's own choosing.
#[derive(Debug)]
pub enum EventErrorType {
    Generic(EventError),
    BadRequest(EventError),
    Unauthorized(EventError),
    NotFound(EventError),
    Forbidden(EventError),
    UserDenied(EventError),
    ResourceDenied(EventError),
    Expired(EventError),
    Unknown(String, EventError),
}

impl EventErrorType {
    /// The kind of this error.
    pub open spec fn label(&self) -> ErrorLabel {
        match self {
            EventErrorType::Generic(_) => ErrorLabel::Generic,
            EventErrorType::BadRequest(_) => ErrorLabel::BadRequest,
            EventErrorType::Unauthorized(_) => ErrorLabel::Unauthorized,
            EventErrorType::NotFound(_) => ErrorLabel::NotFound,
            EventErrorType::Forbidden(_) => ErrorLabel::Forbidden,
            EventErrorType::UserDenied(_) => ErrorLabel::UserDenied,
            EventErrorType::ResourceDenied(_) => ErrorLabel::ResourceDenied,
            EventErrorType::Expired(_) => ErrorLabel::Expired,
            EventErrorType::Unknown(tag, _) => ErrorLabel::Unknown(tag@),
        }
    }

    /// The error that this value carries.
    pub open spec fn carried(&self) -> EventError {
        match self {
            EventErrorType::Generic(e) => *e,
            EventErrorType::BadRequest(e) => *e,
            EventErrorType::Unauthorized(e) => *e,
            EventErrorType::NotFound(e) => *e,
            EventErrorType::Forbidden(e) => *e,
            EventErrorType::UserDenied(e) => *e,
            EventErrorType::ResourceDenied(e) => *e,
            EventErrorType::Expired(e) => *e,
            EventErrorType::Unknown(_, e) => *e,
        }
    }

    /// The wire tag of this error.
    pub open spec fn tag(&self) -> Seq<char> {
        tag_of(self.label())
    }

    /// Makes the typed error that a wire tag denotes. Every text is a valid
    /// tag: one that is not well known gives `Unknown` carrying it.
    pub fn new(error_type: &str, error: EventError) -> (r: Self)
        ensures
            r.label() == label_of(error_type@),
            r.carried() == error,
            r.tag() == error_type@,
    {
        if same_text(error_type, "error") {
            EventErrorType::Generic(error)
        } else if same_text(error_type, "badRequest") {
            EventErrorType::BadRequest(error)
        } else if same_text(error_type, "unauthorized") {
            EventErrorType::Unauthorized(error)
        } else if same_text(error_type, "notFound") {
            EventErrorType::NotFound(error)
        } else if same_text(error_type, "forbidden") {
            EventErrorType::Forbidden(error)
        } else if same_text(error_type, "userDenied") {
            EventErrorType::UserDenied(error)
        } else if same_text(error_type, "resourceDenied") {
            EventErrorType::ResourceDenied(error)
        } else if same_text(error_type, "expired") {
            EventErrorType::Expired(error)
        } else {
            EventErrorType::Unknown(error_type.to_owned(), error)
        }
    }

    /// The wire tag of this error.
    pub fn error_type(&self) -> (r: &str)
        ensures
            r@ == self.tag(),
    {
        match self {
            EventErrorType::Generic(_) => "error",
            EventErrorType::BadRequest(_) => "badRequest",
            EventErrorType::Unauthorized(_) => "unauthorized",
            EventErrorType::NotFound(_) => "notFound",
            EventErrorType::Forbidden(_) => "forbidden",
            EventErrorType::UserDenied(_) => "userDenied",
            EventErrorType::ResourceDenied(_) => "resourceDenied",
            EventErrorType::Expired(_) => "expired",
            EventErrorType::Unknown(value, _) => value.as_str(),
        }
    }

    /// A line that describes this error for a reader: its tag and its code,
    /// each quoted.
    pub fn to_string(&self) -> (r: String)
        ensures
            r@ == "error type: "@ + quoted_text(self.tag()) + ", code: "@ + quoted_text(
                self.carried().code@,
            ),
    {
        let tag = quoted(self.error_type());
        let code = quoted(self.value().code.as_str());
        "error type: ".to_owned().concat(tag.as_str()).concat(", code: ").concat(code.as_str())
    }

    /// A copy of the error that this value carries.
    pub fn value(&self) -> (r: EventError)
        ensures
            r == self.carried(),
    {
        match self {
            EventErrorType::Generic(err) => err.clone(),
            EventErrorType::BadRequest(err) => err.clone(),
            EventErrorType::Unauthorized(err) => err.clone(),
            EventErrorType::NotFound(err) => err.clone(),
            EventErrorType::Forbidden(err) => err.clone(),
            EventErrorType::UserDenied(err) => err.clone(),
            EventErrorType::ResourceDenied(err) => err.clone(),
            EventErrorType::Expired(err) => err.clone(),
            EventErrorType::Unknown(_value, err) => err.clone(),
        }
    }
}

/// A payload is the body of an error: an object with exactly the members
/// `code`, a string of the given characters, and `parameters`, the given
/// value.
pub open spec fn is_error_body(
    payload: serde_json::Value,
    code: Seq<char>,
    parameters: serde_json::Value,
) -> bool {
    match json_object(payload) {
        Some(members) => {
            &&& members.dom() =~= set!["code"@, "parameters"@]
            &&& json_text(members["code"@]) == Some(code)
            &&& members["parameters"@] == parameters
        },
        None => false,
    }
}

/// The parameters of a failed lookup: an object with exactly the members
/// `event`, the name asked for, and `version`, the version asked for.
pub open spec fn is_lookup(parameters: serde_json::Value, event: Seq<char>, version: u16) -> bool {
    match json_object(parameters) {
        Some(members) => {
            &&& members.dom() =~= set!["event"@, "version"@]
            &&& json_text(members["event"@]) == Some(event)
            &&& json_uint(members["version"@]) == Some(version as u64)
        },
        None => false,
    }
}

/// The parameters of a protocol failure: an object with exactly the member
/// `message`, a string of the given characters.
pub open spec fn is_complaint(parameters: serde_json::Value, message: Seq<char>) -> bool {
    match json_object(parameters) {
        Some(members) => {
            &&& members.dom() =~= set!["message"@]
            &&& json_text(members["message"@]) == Some(message)
        },
        None => false,
    }
}

/// `response` reports to `request` the error of the given tag, code and
/// parameters.
pub open spec fn is_failure_of(
    response: Envelope,
    request: Envelope,
    tag: Seq<char>,
    error: ErrorInfo,
) -> bool {
    answers(response, request, tag) && is_error_body(
        response.payload,
        error.code,
        error.parameters,
    )
}

/// `response` tells `request` that no handler is registered for its name
/// and version.
pub open spec fn is_not_found_of(response: Envelope, request: Envelope) -> bool {
    &&& response.name == "eventNotFound"@
    &&& response.version == 1
    &&& response.id == request.id
    &&& response.flow_id == request.flow_id
    &&& is_empty_object(response.identity)
    &&& is_empty_object(response.auth)
    &&& is_empty_object(response.metadata)
    &&& match json_member(response.payload, "parameters"@) {
        Some(parameters) => {
            &&& is_error_body(response.payload, "NO_EVENT_HANDLER_FOUND"@, parameters)
            &&& is_lookup(parameters, request.name, request.version)
        },
        None => false,
    }
}

/// `response` reports an input that could not be decoded, with the given
/// description. Its identifiers are left open.
pub open spec fn is_bad_protocol(response: Envelope, message: Seq<char>) -> bool {
    &&& response.name == "badProtocol"@
    &&& response.version == 1
    &&& is_empty_object(response.identity)
    &&& is_empty_object(response.auth)
    &&& is_empty_object(response.metadata)
    &&& match json_member(response.payload, "parameters"@) {
        Some(parameters) => {
            &&& is_error_body(response.payload, "INVALID_COMMUNICATION_PROTOCOL"@, parameters)
            &&& is_complaint(parameters, message)
        },
        None => false,
    }
}

/// The keys that share an object differ.
proof fn lemma_body_keys_differ()
    ensures
        "code"@ != "parameters"@,
        "event"@ != "version"@,
{
    reveal_strlit("code");
    reveal_strlit("parameters");
    reveal_strlit("event");
    reveal_strlit("version");
    assert("code"@.len() != "parameters"@.len());
    assert("event"@.len() != "version"@.len());
}

/// Builds the body of an error: `{"code": code, "parameters": parameters}`.
fn error_body(code: &str, parameters: serde_json::Value) -> (r: serde_json::Value)
    ensures
        is_error_body(r, code@, parameters),
        json_member(r, "parameters"@) == Some(parameters),
{
    proof {
        lemma_body_keys_differ();
    }
    let with_code = with_member(empty_object(), "code", text_value(code));
    with_member(with_code, "parameters", parameters)
}

/// Builds the response to a request for which no handler is registered. It
/// is named `eventNotFound`, has version 1 and the request's identifiers,
/// and names the event and version that were asked for.
pub fn event_not_found(event: &RequestEvent) -> (r: ResponseEvent)
    ensures
        is_not_found_of(r@, event@),
{
    proof {
        lemma_body_keys_differ();
    }
    let named = with_member(empty_object(), "event", text_value(event.name.as_str()));
    let parameters = with_member(named, "version", uint_value(event.version));
    ResponseEvent {
        name: "eventNotFound".to_owned(),
        version: 1,
        id: event.id,
        flow_id: event.flow_id,
        payload: error_body("NO_EVENT_HANDLER_FOUND", parameters),
        identity: empty_object(),
        auth: empty_object(),
        metadata: empty_object(),
    }
}

/// Builds the response to an input that could not be decoded, under the
/// identifiers given. It is named `badProtocol`, has version 1 and carries
/// the description of the failure.
pub fn bad_protocol_with(id: uuid::Uuid, flow_id: uuid::Uuid, err: DecodeError) -> (r:
    ResponseEvent)
    ensures
        is_bad_protocol(r@, err.message@),
        r.id == id,
        r.flow_id == flow_id,
{
    let parameters = with_member(empty_object(), "message", text_value(err.message.as_str()));
    ResponseEvent {
        name: "badProtocol".to_owned(),
        version: 1,
        id,
        flow_id,
        payload: error_body("INVALID_COMMUNICATION_PROTOCOL", parameters),
        identity: empty_object(),
        auth: empty_object(),
        metadata: empty_object(),
    }
}

/// Builds the response to an input that could not be decoded, under two
/// freshly drawn identifiers.
pub fn bad_protocol(err: DecodeError) -> (r: ResponseEvent)
    ensures
        is_bad_protocol(r@, err.message@),
{
    let id = fresh_uuid();
    let flow_id = fresh_uuid();
    bad_protocol_with(id, flow_id, err)
}

/// Builds the response that reports a handler's error: the name is the
/// request's, a colon and the error's tag; version and identifiers are the
/// request's; the payload holds the error's code and parameters.
pub fn error_for(event: &RequestEvent, error: &EventErrorType) -> (r: ResponseEvent)
    ensures
        is_failure_of(r@, event@, error.tag(), error.carried()@),
{
    let evt_error = error.value();
    ResponseEvent {
        name: event.name.clone().concat(":").concat(error.error_type()),
        version: event.version,
        id: event.id,
        flow_id: event.flow_id,
        payload: error_body(evt_error.code.as_str(), evt_error.parameters),
        identity: empty_object(),
        auth: empty_object(),
        metadata: empty_object(),
    }
}

/// Round trip of an error through a response: from the response that
/// reports an error, the error's tag, code and parameters can be read back,
/// and the response is not taken for a success. This holds for every tag
/// that holds no colon and is not `response`.
pub proof fn lemma_failure_round_trip(
    response: Envelope,
    request: Envelope,
    tag: Seq<char>,
    error: ErrorInfo,
)
    requires
        is_failure_of(response, request, tag, error),
        free_of(tag, ':'),
        tag != "response"@,
    ensures
        !names_success(response.name),
        after_last(response.name, ':') == tag,
        carries_error(response.payload),
        json_text(json_member(response.payload, "code"@).unwrap()) == Some(error.code),
        json_member(response.payload, "parameters"@) == Some(error.parameters),
{
    lemma_derived_name_ends_in_suffix(request.name, tag);
    if names_success(response.name) {
        lemma_success_name_suffix(response.name);
    }
    let members = json_object(response.payload).unwrap();
    assert(members.dom().contains("code"@));
    assert(members.dom().contains("parameters"@));
}

} // verus!
