use event_dispatch::errors::{bad_protocol, error_for, event_not_found, EventError, EventErrorType};
use event_dispatch::events::{parse_event, DecodeError, RequestEvent};
use serde_json::Value;
use uuid::Uuid;

fn empty() -> Value {
    Value::Object(serde_json::Map::new())
}

fn object(members: Vec<(&str, Value)>) -> Value {
    let mut map = serde_json::Map::new();
    for (key, value) in members {
        map.insert(key.to_string(), value);
    }
    Value::Object(map)
}

fn some_error() -> EventError {
    EventError { code: String::from("SOME_ERROR"), parameters: object(vec![("n", Value::from(7))]) }
}

fn request(name: &str, version: u16) -> RequestEvent {
    RequestEvent {
        name: name.to_string(),
        version,
        id: Uuid::parse_str("f467e03c-abab-4c2f-b4cf-4871fd349c6e").unwrap(),
        flow_id: Uuid::parse_str("cb745ef4-863b-41c4-99c7-325fe2b2b7f8").unwrap(),
        payload: object(vec![("in", Value::from("put"))]),
        identity: object(vec![("user", Value::from("u"))]),
        auth: object(vec![("token", Value::from("t"))]),
        metadata: object(vec![("k", Value::from("v"))]),
    }
}

#[test]
fn well_known_tags_give_their_variant() {
    assert!(matches!(EventErrorType::new("error", some_error()), EventErrorType::Generic(_)));
    assert!(matches!(EventErrorType::new("badRequest", some_error()), EventErrorType::BadRequest(_)));
    assert!(matches!(
        EventErrorType::new("unauthorized", some_error()),
        EventErrorType::Unauthorized(_)
    ));
    assert!(matches!(EventErrorType::new("notFound", some_error()), EventErrorType::NotFound(_)));
    assert!(matches!(EventErrorType::new("forbidden", some_error()), EventErrorType::Forbidden(_)));
    assert!(matches!(EventErrorType::new("userDenied", some_error()), EventErrorType::UserDenied(_)));
    assert!(matches!(
        EventErrorType::new("resourceDenied", some_error()),
        EventErrorType::ResourceDenied(_)
    ));
    assert!(matches!(EventErrorType::new("expired", some_error()), EventErrorType::Expired(_)));
}

#[test]
fn other_tags_give_unknown_with_the_tag() {
    match EventErrorType::new("xpto", some_error()) {
        EventErrorType::Unknown(tag, error) => {
            assert_eq!("xpto", tag);
            assert_eq!("SOME_ERROR", error.code);
        }
        other => panic!("unexpected variant {:?}", other),
    }
    assert!(matches!(EventErrorType::new("", some_error()), EventErrorType::Unknown(_, _)));
    assert!(matches!(EventErrorType::new("Error", some_error()), EventErrorType::Unknown(_, _)));
    assert!(matches!(EventErrorType::new("notfound", some_error()), EventErrorType::Unknown(_, _)));
}

#[test]
fn tags_round_trip() {
    let tags = vec![
        "error",
        "badRequest",
        "unauthorized",
        "notFound",
        "forbidden",
        "userDenied",
        "resourceDenied",
        "expired",
        "xpto",
        "",
        "with:colon",
        "response",
        "badProtocol",
        "eventNotFound",
        "émotion",
    ];
    for tag in tags {
        assert_eq!(tag, EventErrorType::new(tag, some_error()).error_type());
    }
}

#[test]
fn value_copies_the_carried_error() {
    let error = EventErrorType::new("forbidden", some_error());
    let carried = error.value();
    assert_eq!("SOME_ERROR", carried.code);
    assert_eq!(object(vec![("n", Value::from(7))]), carried.parameters);
    let unknown = EventErrorType::Unknown(String::from("mine"), some_error());
    assert_eq!("SOME_ERROR", unknown.value().code);
    assert_eq!("mine", unknown.error_type());
}

#[test]
fn errors_describe_themselves() {
    let error = EventErrorType::new("forbidden", some_error());
    assert_eq!("error type: \"forbidden\", code: \"SOME_ERROR\"", error.to_string());
    let odd = EventErrorType::new(
        "a\"b",
        EventError { code: String::from("x\\y"), parameters: Value::Null },
    );
    assert_eq!("error type: \"a\\\"b\", code: \"x\\\\y\"", odd.to_string());
}

#[test]
fn event_not_found_names_what_was_asked_for() {
    let event = request("order:create", 3);
    let response = event_not_found(&event);
    assert_eq!("eventNotFound", response.name);
    assert_eq!(1, response.version);
    assert_eq!(event.id, response.id);
    assert_eq!(event.flow_id, response.flow_id);
    let expected = object(vec![
        ("code", Value::from("NO_EVENT_HANDLER_FOUND")),
        (
            "parameters",
            object(vec![("event", Value::from("order:create")), ("version", Value::from(3))]),
        ),
    ]);
    assert_eq!(expected, response.payload);
    assert_eq!(empty(), response.identity);
    assert_eq!(empty(), response.auth);
    assert_eq!(empty(), response.metadata);
    assert!(response.is_error());
}

#[test]
fn bad_protocol_carries_the_description() {
    let response = bad_protocol(DecodeError { message: String::from("it broke") });
    assert_eq!("badProtocol", response.name);
    assert_eq!(1, response.version);
    let expected = object(vec![
        ("code", Value::from("INVALID_COMMUNICATION_PROTOCOL")),
        ("parameters", object(vec![("message", Value::from("it broke"))])),
    ]);
    assert_eq!(expected, response.payload);
    assert_eq!(empty(), response.identity);
    assert_eq!(empty(), response.auth);
    assert_eq!(empty(), response.metadata);
    assert!(response.is_error());
}

#[test]
fn bad_protocol_draws_fresh_identifiers() {
    let first = bad_protocol(DecodeError { message: String::from("a") });
    let second = bad_protocol(DecodeError { message: String::from("a") });
    assert_eq!(4, first.id.get_version_num());
    assert_eq!(4, first.flow_id.get_version_num());
    assert_ne!(first.id, first.flow_id);
    assert_ne!(first.id, second.id);
    assert_ne!(first.flow_id, second.flow_id);
}

#[test]
fn bad_protocol_with_uses_the_identifiers_given() {
    let id = Uuid::parse_str("f467e03c-abab-4c2f-b4cf-4871fd349c6e").unwrap();
    let flow_id = Uuid::parse_str("cb745ef4-863b-41c4-99c7-325fe2b2b7f8").unwrap();
    let response = event_dispatch::errors::bad_protocol_with(
        id,
        flow_id,
        DecodeError { message: String::from("m") },
    );
    assert_eq!(id, response.id);
    assert_eq!(flow_id, response.flow_id);
    assert_eq!("badProtocol", response.name);
}

#[test]
fn error_for_derives_the_name_from_the_tag() {
    let event = request("order:create", 1);
    let response = error_for(&event, &EventErrorType::new("forbidden", some_error()));
    assert_eq!("order:create:forbidden", response.name);
    assert_eq!(1, response.version);
    assert_eq!(event.id, response.id);
    assert_eq!(event.flow_id, response.flow_id);
    let expected = object(vec![
        ("code", Value::from("SOME_ERROR")),
        ("parameters", object(vec![("n", Value::from(7))])),
    ]);
    assert_eq!(expected, response.payload);
    assert_eq!(empty(), response.identity);
    assert_eq!(empty(), response.auth);
    assert_eq!(empty(), response.metadata);
}

#[test]
fn error_tag_is_read_after_the_last_colon() {
    let event = request("a:b:c", 9);
    let response = error_for(&event, &EventErrorType::new("notFound", some_error()));
    assert_eq!("a:b:c:notFound", response.name);
    assert_eq!(9, response.version);
    assert!(response.is_error());
    let error = response.get_error();
    assert_eq!("notFound", error.error_type());
    assert!(matches!(error, EventErrorType::NotFound(_)));
    assert_eq!("SOME_ERROR", error.value().code);
    assert_eq!(object(vec![("n", Value::from(7))]), error.value().parameters);
}

#[test]
fn errors_round_trip_through_a_response() {
    let event = parse_event(
        r#"{"name":"order:create","version":2,"id":"f467e03c-abab-4c2f-b4cf-4871fd349c6e",
            "flowId":"cb745ef4-863b-41c4-99c7-325fe2b2b7f8","payload":1,"identity":2,"auth":3,
            "metadata":4}"#,
    )
    .unwrap();
    for tag in vec!["error", "expired", "userDenied", "custom", ""] {
        let response = error_for(&event, &EventErrorType::new(tag, some_error()));
        assert!(response.is_error());
        assert!(!response.is_success());
        let back = response.try_get_error().unwrap();
        assert_eq!(tag, back.error_type());
        assert_eq!("SOME_ERROR", back.value().code);
    }
}
