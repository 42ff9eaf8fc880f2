//! The envelope shared by requests and responses, decoding of requests and
//! the naming rule of responses.

use vstd::prelude::*;
use vstd::string::StringExecFns;
use crate::errors::{label_of, EventError, EventErrorType};
use crate::ids::{parse_uuid, uuid_of};
use crate::json::{
    empty_object, error_text, failure_text, is_empty_object, json_member, json_object, json_text,
    json_uint, parse_json, parse_outcome, value_is_object, value_member, value_text, value_uint,
};
use crate::text::{
    after_last, ends_with, free_of, has_suffix, last_segment, lemma_after_last_of_join,
};

verus! {

/// What an envelope holds, as mathematical values. Requests and responses
/// have the same shape and the same view.
pub struct Envelope {
    pub name: Seq<char>,
    pub version: u16,
    pub id: uuid::Uuid,
    pub flow_id: uuid::Uuid,
    pub payload: serde_json::Value,
    pub identity: serde_json::Value,
    pub auth: serde_json::Value,
    pub metadata: serde_json::Value,
}

/// A request: a named, versioned message with its identifiers, payload and
/// side-channel data.
#[derive(Debug)]
pub struct RequestEvent {
    pub name: String,
    pub version: u16,
    pub id: uuid::Uuid,
    pub flow_id: uuid::Uuid,
    pub payload: serde_json::Value,
    pub identity: serde_json::Value,
    pub auth: serde_json::Value,
    pub metadata: serde_json::Value,
}

/// A response, in the shape of a request. The part of its name after the
/// last `:` says whether it reports success or which kind of error.
#[derive(Debug)]
pub struct ResponseEvent {
    pub name: String,
    pub version: u16,
    pub id: uuid::Uuid,
    pub flow_id: uuid::Uuid,
    pub payload: serde_json::Value,
    pub identity: serde_json::Value,
    pub auth: serde_json::Value,
    pub metadata: serde_json::Value,
}

/// Why a text could not be decoded into a request.
#[derive(Debug)]
pub struct DecodeError {
    pub message: String,
}

impl View for RequestEvent {
    type V = Envelope;

    open spec fn view(&self) -> Envelope {
        Envelope {
            name: self.name@,
            version: self.version,
            id: self.id,
            flow_id: self.flow_id,
            payload: self.payload,
            identity: self.identity,
            auth: self.auth,
            metadata: self.metadata,
        }
    }
}

impl View for ResponseEvent {
    type V = Envelope;

    open spec fn view(&self) -> Envelope {
        Envelope {
            name: self.name@,
            version: self.version,
            id: self.id,
            flow_id: self.flow_id,
            payload: self.payload,
            identity: self.identity,
            auth: self.auth,
            metadata: self.metadata,
        }
    }
}

/// The name of a response to a request: the request's name, a colon and a
/// suffix.
pub open spec fn derived_name(request_name: Seq<char>, suffix: Seq<char>) -> Seq<char> {
    request_name + ":"@ + suffix
}

/// A name denotes success: it ends with `:response`.
pub open spec fn names_success(name: Seq<char>) -> bool {
    ends_with(name, ":response"@)
}

/// `response` answers `request` under the given suffix: the name is derived,
/// version and both identifiers are echoed, the side channels are empty
/// objects. The payload is left open.
pub open spec fn answers(response: Envelope, request: Envelope, suffix: Seq<char>) -> bool {
    &&& response.name == derived_name(request.name, suffix)
    &&& response.version == request.version
    &&& response.id == request.id
    &&& response.flow_id == request.flow_id
    &&& is_empty_object(response.identity)
    &&& is_empty_object(response.auth)
    &&& is_empty_object(response.metadata)
}

/// `response` is the success response to `request` with the given payload.
pub open spec fn is_success_of(
    response: Envelope,
    request: Envelope,
    payload: serde_json::Value,
) -> bool {
    answers(response, request, "response"@) && response.payload == payload
}

/// A payload from which an error can be read back: it has a member `code`
/// that is a string and a member `parameters`.
pub open spec fn carries_error(payload: serde_json::Value) -> bool {
    &&& json_member(payload, "code"@) is Some
    &&& json_text(json_member(payload, "code"@).unwrap()) is Some
    &&& json_member(payload, "parameters"@) is Some
}

/// The message of a request that lacks a field.
pub open spec fn missing_field(key: Seq<char>) -> Seq<char> {
    "missing field `"@ + key + "`"@
}

/// The message of a request in which a field has a value of the wrong type.
pub open spec fn invalid_field(key: Seq<char>) -> Seq<char> {
    "invalid value for field `"@ + key + "`"@
}

/// The member `key` of an object, whatever its type.
pub open spec fn any_field(object: serde_json::Value, key: Seq<char>) -> Result<
    serde_json::Value,
    Seq<char>,
> {
    match json_member(object, key) {
        Some(member) => Ok(member),
        None => Err(missing_field(key)),
    }
}

/// The member `key` of an object, which must be a string.
pub open spec fn text_field(object: serde_json::Value, key: Seq<char>) -> Result<
    Seq<char>,
    Seq<char>,
> {
    match json_member(object, key) {
        Some(member) => match json_text(member) {
            Some(s) => Ok(s),
            None => Err(invalid_field(key)),
        },
        None => Err(missing_field(key)),
    }
}

/// The member `key` of an object, which must be an integer from 0 to 65535.
pub open spec fn version_field(object: serde_json::Value, key: Seq<char>) -> Result<
    u16,
    Seq<char>,
> {
    match json_member(object, key) {
        Some(member) => match json_uint(member) {
            Some(n) => if n <= 0xffff {
                Ok(n as u16)
            } else {
                Err(invalid_field(key))
            },
            None => Err(invalid_field(key)),
        },
        None => Err(missing_field(key)),
    }
}

/// The member `key` of an object, which must be a string in a UUID format.
pub open spec fn id_field(object: serde_json::Value, key: Seq<char>) -> Result<
    uuid::Uuid,
    Seq<char>,
> {
    match text_field(object, key) {
        Ok(s) => match uuid_of(s) {
            Some(id) => Ok(id),
            None => Err(invalid_field(key)),
        },
        Err(message) => Err(message),
    }
}

/// The request that a JSON value denotes, or the message of the first
/// failure: the value must be an object with the eight fields of an
/// envelope under their wire names, checked in the order of the fields.
/// Members under other keys are ignored.
pub open spec fn decode_value(value: serde_json::Value) -> Result<Envelope, Seq<char>> {
    if json_object(value) is None {
        Err("expected a JSON object"@)
    } else {
        match text_field(value, "name"@) {
            Err(m) => Err(m),
            Ok(name) => match version_field(value, "version"@) {
                Err(m) => Err(m),
                Ok(version) => match id_field(value, "id"@) {
                    Err(m) => Err(m),
                    Ok(id) => match id_field(value, "flowId"@) {
                        Err(m) => Err(m),
                        Ok(flow_id) => match any_field(value, "payload"@) {
                            Err(m) => Err(m),
                            Ok(payload) => match any_field(value, "identity"@) {
                                Err(m) => Err(m),
                                Ok(identity) => match any_field(value, "auth"@) {
                                    Err(m) => Err(m),
                                    Ok(auth) => match any_field(value, "metadata"@) {
                                        Err(m) => Err(m),
                                        Ok(metadata) => Ok(
                                            Envelope {
                                                name,
                                                version,
                                                id,
                                                flow_id,
                                                payload,
                                                identity,
                                                auth,
                                                metadata,
                                            },
                                        ),
                                    },
                                },
                            },
                        },
                    },
                },
            },
        }
    }
}

/// The request that a text denotes, or the message of the failure: that of
/// the JSON parser where the text is not JSON, else that of
/// [`decode_value`].
pub open spec fn decode(text: Seq<char>) -> Result<Envelope, Seq<char>> {
    match parse_outcome(text) {
        Ok(value) => decode_value(value),
        Err(error) => Err(failure_text(error)),
    }
}

/// An exec result agrees with a decoding: the same request, or the same
/// message.
pub open spec fn decodes_to(r: Result<RequestEvent, DecodeError>, d: Result<Envelope, Seq<char>>) -> bool {
    match d {
        Ok(envelope) => r is Ok && r.unwrap()@ == envelope,
        Err(message) => r is Err && r.unwrap_err().message@ == message,
    }
}

/// The failure of a request that lacks the field `key`.
fn missing(key: &str) -> (r: DecodeError)
    ensures
        r.message@ == missing_field(key@),
{
    DecodeError { message: "missing field `".to_owned().concat(key).concat("`") }
}

/// The failure of a request whose field `key` has a value of the wrong type.
fn invalid(key: &str) -> (r: DecodeError)
    ensures
        r.message@ == invalid_field(key@),
{
    DecodeError { message: "invalid value for field `".to_owned().concat(key).concat("`") }
}

/// Reads a field of any type.
fn read_any(object: &serde_json::Value, key: &str) -> (r: Result<serde_json::Value, DecodeError>)
    ensures
        match any_field(*object, key@) {
            Ok(v) => r == Ok::<serde_json::Value, DecodeError>(v),
            Err(m) => r is Err && r.unwrap_err().message@ == m,
        },
{
    match value_member(object, key) {
        Some(member) => Ok(member.clone()),
        None => Err(missing(key)),
    }
}

/// Reads a field that must be a string.
fn read_text(object: &serde_json::Value, key: &str) -> (r: Result<String, DecodeError>)
    ensures
        match text_field(*object, key@) {
            Ok(s) => r is Ok && r.unwrap()@ == s,
            Err(m) => r is Err && r.unwrap_err().message@ == m,
        },
{
    match value_member(object, key) {
        Some(member) => match value_text(member) {
            Some(s) => Ok(s.to_owned()),
            None => Err(invalid(key)),
        },
        None => Err(missing(key)),
    }
}

/// Reads a field that must be an integer from 0 to 65535.
fn read_version(object: &serde_json::Value, key: &str) -> (r: Result<u16, DecodeError>)
    ensures
        match version_field(*object, key@) {
            Ok(n) => r == Ok::<u16, DecodeError>(n),
            Err(m) => r is Err && r.unwrap_err().message@ == m,
        },
{
    match value_member(object, key) {
        Some(member) => match value_uint(member) {
            Some(n) => if n <= 0xffff {
                Ok(n as u16)
            } else {
                Err(invalid(key))
            },
            None => Err(invalid(key)),
        },
        None => Err(missing(key)),
    }
}

/// Reads a field that must be a string in a UUID format.
fn read_id(object: &serde_json::Value, key: &str) -> (r: Result<uuid::Uuid, DecodeError>)
    ensures
        match id_field(*object, key@) {
            Ok(id) => r == Ok::<uuid::Uuid, DecodeError>(id),
            Err(m) => r is Err && r.unwrap_err().message@ == m,
        },
{
    match read_text(object, key) {
        Ok(s) => match parse_uuid(s.as_str()) {
            Some(id) => Ok(id),
            None => Err(invalid(key)),
        },
        Err(e) => Err(e),
    }
}

/// Reads a request out of a parsed JSON value. Succeeds exactly on an object
/// that has the eight fields of an envelope with values of the right types.
pub fn request_from_value(value: &serde_json::Value) -> (r: Result<RequestEvent, DecodeError>)
    ensures
        decodes_to(r, decode_value(*value)),
{
    if !value_is_object(value) {
        return Err(DecodeError { message: "expected a JSON object".to_owned() });
    }
    let name = match read_text(value, "name") {
        Ok(x) => x,
        Err(e) => { return Err(e); },
    };
    let version = match read_version(value, "version") {
        Ok(x) => x,
        Err(e) => { return Err(e); },
    };
    let id = match read_id(value, "id") {
        Ok(x) => x,
        Err(e) => { return Err(e); },
    };
    let flow_id = match read_id(value, "flowId") {
        Ok(x) => x,
        Err(e) => { return Err(e); },
    };
    let payload = match read_any(value, "payload") {
        Ok(x) => x,
        Err(e) => { return Err(e); },
    };
    let identity = match read_any(value, "identity") {
        Ok(x) => x,
        Err(e) => { return Err(e); },
    };
    let auth = match read_any(value, "auth") {
        Ok(x) => x,
        Err(e) => { return Err(e); },
    };
    let metadata = match read_any(value, "metadata") {
        Ok(x) => x,
        Err(e) => { return Err(e); },
    };
    Ok(RequestEvent { name, version, id, flow_id, payload, identity, auth, metadata })
}

/// Decodes a JSON text into a request. Fails, with a description, on a text
/// that is not JSON and on JSON that is not a complete envelope; never
/// panics.
pub fn parse_event(payload: &str) -> (r: Result<RequestEvent, DecodeError>)
    ensures
        decodes_to(r, decode(payload@)),
{
    match parse_json(payload) {
        Ok(value) => request_from_value(&value),
        Err(err) => Err(DecodeError { message: error_text(&err) }),
    }
}

/// Builds the success response to a request: the name is the request's
/// followed by `:response`, version and identifiers are the request's, the
/// payload is the one given and the side channels are empty.
pub fn response_for(event: &RequestEvent, payload: serde_json::Value) -> (r: ResponseEvent)
    ensures
        is_success_of(r@, event@, payload),
{
    ResponseEvent {
        name: event.name.clone().concat(":").concat("response"),
        version: event.version,
        id: event.id,
        flow_id: event.flow_id,
        payload,
        identity: empty_object(),
        auth: empty_object(),
        metadata: empty_object(),
    }
}

impl ResponseEvent {
    /// Whether this response reports success: its name ends with
    /// `:response`.
    pub fn is_success(&self) -> (r: bool)
        ensures
            r == names_success(self.name@),
    {
        has_suffix(self.name.as_str(), ":response")
    }

    /// Whether this response reports an error: it does not report success.
    pub fn is_error(&self) -> (r: bool)
        ensures
            r == !names_success(self.name@),
    {
        !self.is_success()
    }

    /// Reads the typed error back from an error response: its kind from the
    /// part of the name after the last `:`, code and parameters from the
    /// payload. Only for a response that reports an error and carries one.
    pub fn get_error(&self) -> (r: EventErrorType)
        requires
            !names_success(self.name@),
            carries_error(self.payload),
        ensures
            r.label() == label_of(after_last(self.name@, ':')),
            r.tag() == after_last(self.name@, ':'),
            Some(r.carried().code@) == json_text(json_member(self.payload, "code"@).unwrap()),
            Some(r.carried().parameters) == json_member(self.payload, "parameters"@),
    {
        let error_type = last_segment(self.name.as_str(), ':');
        let code = value_text(value_member(&self.payload, "code").unwrap()).unwrap();
        let parameters = value_member(&self.payload, "parameters").unwrap();
        EventErrorType::new(
            error_type,
            EventError { code: code.to_owned(), parameters: parameters.clone() },
        )
    }

    /// [`ResponseEvent::get_error`] for any response: `None` for one that
    /// reports success or whose payload carries no error.
    pub fn try_get_error(&self) -> (r: Option<EventErrorType>)
        ensures
            r is Some <==> !names_success(self.name@) && carries_error(self.payload),
            r is Some ==> {
                &&& r.unwrap().label() == label_of(after_last(self.name@, ':'))
                &&& r.unwrap().tag() == after_last(self.name@, ':')
                &&& Some(r.unwrap().carried().code@) == json_text(
                    json_member(self.payload, "code"@).unwrap(),
                )
                &&& Some(r.unwrap().carried().parameters) == json_member(
                    self.payload,
                    "parameters"@,
                )
            },
    {
        if self.is_success() {
            return None;
        }
        match value_member(&self.payload, "code") {
            Some(code) => {
                if value_text(code).is_none() {
                    return None;
                }
            },
            None => { return None; },
        }
        if value_member(&self.payload, "parameters").is_none() {
            return None;
        }
        Some(self.get_error())
    }
}

/// Naming law: whatever colons the request's name holds, the part of a
/// derived name after its last colon is the suffix it was derived with,
/// provided the suffix itself holds no colon.
pub proof fn lemma_derived_name_ends_in_suffix(request_name: Seq<char>, suffix: Seq<char>)
    requires
        free_of(suffix, ':'),
    ensures
        after_last(derived_name(request_name, suffix), ':') == suffix,
{
    reveal_strlit(":");
    assert(":"@ =~= seq![':']);
    lemma_after_last_of_join(request_name, ':', suffix);
}

/// A name that denotes success has `response` after its last colon.
pub proof fn lemma_success_name_suffix(name: Seq<char>)
    requires
        names_success(name),
    ensures
        after_last(name, ':') == "response"@,
{
    reveal_strlit(":response");
    reveal_strlit("response");
    let head = name.subrange(0, name.len() - 9);
    assert(free_of("response"@, ':'));
    assert(name =~= head + seq![':'] + "response"@) by {
        assert(name.subrange(name.len() - 9, name.len() as int) == ":response"@);
        assert forall|i: int| 0 <= i < name.len() implies name[i] == (head + seq![':']
            + "response"@)[i] by {
            if i >= name.len() - 9 {
                assert(name[i] == name.subrange(name.len() - 9, name.len() as int)[i - (name.len()
                    - 9)]);
            }
        }
    }
    lemma_after_last_of_join(head, ':', "response"@);
}

/// A success response is recognised as one: its name denotes success.
pub proof fn lemma_success_is_recognised(
    response: Envelope,
    request: Envelope,
    payload: serde_json::Value,
)
    requires
        is_success_of(response, request, payload),
    ensures
        names_success(response.name),
        response.id == request.id,
        response.flow_id == request.flow_id,
{
    reveal_strlit(":response");
    reveal_strlit(":");
    reveal_strlit("response");
    assert(response.name.subrange(response.name.len() - 9, response.name.len() as int)
        =~= ":response"@);
}

/// A value without one of the eight fields of an envelope denotes no
/// request.
pub proof fn lemma_missing_field_fails(value: serde_json::Value, key: Seq<char>)
    requires
        json_member(value, key) is None,
        key == "name"@ || key == "version"@ || key == "id"@ || key == "flowId"@ || key
            == "payload"@ || key == "identity"@ || key == "auth"@ || key == "metadata"@,
    ensures
        decode_value(value) is Err,
{
}

} // verus!
