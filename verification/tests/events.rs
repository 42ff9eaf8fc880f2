use event_dispatch::events::{parse_event, request_from_value, response_for, ResponseEvent};
use serde_json::Value;
use uuid::Uuid;

const GOOD: &str = r#"{
    "name": "event:test",
    "version": 1,
    "id": "f467e03c-abab-4c2f-b4cf-4871fd349c6e",
    "flowId": "cb745ef4-863b-41c4-99c7-325fe2b2b7f8",
    "payload": {"a": [1, 2.5, null]},
    "identity": {"user": "u"},
    "auth": "token",
    "metadata": null
}"#;

fn empty() -> Value {
    Value::Object(serde_json::Map::new())
}

fn json(text: &str) -> Value {
    serde_json::from_str(text).unwrap()
}

fn without(key: &str) -> Value {
    let mut value = json(GOOD);
    value.as_object_mut().unwrap().remove(key);
    value
}

fn with(key: &str, member: Value) -> Value {
    let mut value = json(GOOD);
    value.as_object_mut().unwrap().insert(key.to_string(), member);
    value
}

fn response_named(name: &str, payload: Value) -> ResponseEvent {
    ResponseEvent {
        name: name.to_string(),
        version: 1,
        id: Uuid::nil(),
        flow_id: Uuid::nil(),
        payload,
        identity: empty(),
        auth: empty(),
        metadata: empty(),
    }
}

#[test]
fn parse_event_reads_every_field() {
    let event = parse_event(GOOD).unwrap();
    assert_eq!("event:test", event.name);
    assert_eq!(1, event.version);
    assert_eq!(Uuid::parse_str("f467e03c-abab-4c2f-b4cf-4871fd349c6e").unwrap(), event.id);
    assert_eq!(Uuid::parse_str("cb745ef4-863b-41c4-99c7-325fe2b2b7f8").unwrap(), event.flow_id);
    assert_eq!(json(r#"{"a": [1, 2.5, null]}"#), event.payload);
    assert_eq!(json(r#"{"user": "u"}"#), event.identity);
    assert_eq!(Value::from("token"), event.auth);
    assert_eq!(Value::Null, event.metadata);
}

#[test]
fn parse_event_ignores_other_members() {
    let event = request_from_value(&with("extra", Value::from(true))).unwrap();
    assert_eq!("event:test", event.name);
}

#[test]
fn parse_event_reports_the_parser_failure() {
    let text = r#"{ "name": "event:test", }"#;
    let expected = serde_json::from_str::<Value>(text).unwrap_err().to_string();
    assert_eq!(expected, parse_event(text).unwrap_err().message);
    assert_eq!("trailing comma at line 1 column 25", parse_event(text).unwrap_err().message);
    assert_eq!(
        "EOF while parsing a value at line 1 column 0",
        parse_event("").unwrap_err().message
    );
    assert!(parse_event("not json").is_err());
}

#[test]
fn parse_event_wants_an_object() {
    assert_eq!("expected a JSON object", parse_event("[]").unwrap_err().message);
    assert_eq!("expected a JSON object", parse_event("\"text\"").unwrap_err().message);
    assert_eq!("expected a JSON object", parse_event("12").unwrap_err().message);
    assert_eq!("expected a JSON object", parse_event("null").unwrap_err().message);
}

#[test]
fn parse_event_wants_every_field() {
    for key in
        vec!["name", "version", "id", "flowId", "payload", "identity", "auth", "metadata"]
    {
        let error = request_from_value(&without(key)).unwrap_err();
        assert_eq!(format!("missing field `{}`", key), error.message);
    }
    assert_eq!("missing field `name`", parse_event("{}").unwrap_err().message);
    let snake = {
        let mut value = without("flowId");
        value.as_object_mut().unwrap().insert(
            "flow_id".to_string(),
            Value::from("cb745ef4-863b-41c4-99c7-325fe2b2b7f8"),
        );
        value
    };
    assert_eq!("missing field `flowId`", request_from_value(&snake).unwrap_err().message);
}

#[test]
fn parse_event_wants_a_string_name() {
    let error = request_from_value(&with("name", Value::from(5))).unwrap_err();
    assert_eq!("invalid value for field `name`", error.message);
    assert!(request_from_value(&with("name", Value::Null)).is_err());
    assert_eq!("", request_from_value(&with("name", Value::from(""))).unwrap().name);
}

#[test]
fn parse_event_wants_a_sixteen_bit_version() {
    assert_eq!(0, request_from_value(&with("version", Value::from(0))).unwrap().version);
    assert_eq!(65535, request_from_value(&with("version", Value::from(65535))).unwrap().version);
    for bad in vec![
        Value::from(65536),
        Value::from(-1),
        Value::from(1.5),
        Value::from(1.0),
        Value::from("1"),
        Value::Null,
        Value::from(u64::MAX),
    ] {
        let error = request_from_value(&with("version", bad)).unwrap_err();
        assert_eq!("invalid value for field `version`", error.message);
    }
}

#[test]
fn parse_event_wants_uuid_identifiers() {
    let error = request_from_value(&with("id", Value::from("not-a-uuid"))).unwrap_err();
    assert_eq!("invalid value for field `id`", error.message);
    let error = request_from_value(&with("flowId", Value::from(7))).unwrap_err();
    assert_eq!("invalid value for field `flowId`", error.message);
    let simple = request_from_value(&with("id", Value::from("f467e03cabab4c2fb4cf4871fd349c6e")))
        .unwrap();
    assert_eq!(Uuid::parse_str("f467e03c-abab-4c2f-b4cf-4871fd349c6e").unwrap(), simple.id);
}

#[test]
fn parse_event_reports_the_first_failure() {
    let mut value = without("version");
    value.as_object_mut().unwrap().insert("name".to_string(), Value::from(1));
    assert_eq!("invalid value for field `name`", request_from_value(&value).unwrap_err().message);
}

#[test]
fn response_for_echoes_the_request() {
    let event = parse_event(
        r#"{"name":"event:test","version":1,"id":"f467e03c-abab-4c2f-b4cf-4871fd349c6e",
            "flowId":"cb745ef4-863b-41c4-99c7-325fe2b2b7f8","payload":{},"identity":{"u":1},
            "auth":{"t":2},"metadata":{"m":3}}"#,
    )
    .unwrap();
    let response = response_for(&event, Value::from("ok"));
    assert_eq!("event:test:response", response.name);
    assert_eq!(1, response.version);
    assert_eq!(Uuid::parse_str("f467e03c-abab-4c2f-b4cf-4871fd349c6e").unwrap(), response.id);
    assert_eq!(Uuid::parse_str("cb745ef4-863b-41c4-99c7-325fe2b2b7f8").unwrap(), response.flow_id);
    assert_eq!(Value::from("ok"), response.payload);
    assert_eq!(empty(), response.identity);
    assert_eq!(empty(), response.auth);
    assert_eq!(empty(), response.metadata);
    assert!(response.is_success());
    assert!(!response.is_error());
}

#[test]
fn success_is_told_by_the_suffix() {
    assert!(response_named("a:response", Value::Null).is_success());
    assert!(response_named("a:b:c:response", Value::Null).is_success());
    assert!(response_named(":response", Value::Null).is_success());
    assert!(!response_named("response", Value::Null).is_success());
    assert!(response_named("response", Value::Null).is_error());
    assert!(response_named("a:response:error", Value::Null).is_error());
    assert!(response_named("a:Response", Value::Null).is_error());
    assert!(response_named("", Value::Null).is_error());
    assert!(response_named("badProtocol", Value::Null).is_error());
    assert!(response_named("eventNotFound", Value::Null).is_error());
}

#[test]
fn get_error_reads_name_and_payload() {
    let payload = json(r#"{"code": "C1", "parameters": {"k": [1]}, "more": 1}"#);
    let error = response_named("a:b:expired", payload).get_error();
    assert_eq!("expired", error.error_type());
    assert_eq!("C1", error.value().code);
    assert_eq!(json(r#"{"k": [1]}"#), error.value().parameters);
    let whole = response_named("custom", json(r#"{"code": "", "parameters": null}"#)).get_error();
    assert_eq!("custom", whole.error_type());
    assert_eq!("", whole.value().code);
    assert_eq!(Value::Null, whole.value().parameters);
}

#[test]
fn try_get_error_refuses_what_carries_no_error() {
    let good = json(r#"{"code": "C1", "parameters": {}}"#);
    assert!(response_named("a:response", good.clone()).try_get_error().is_none());
    assert!(response_named("a:error", json(r#"{"parameters": {}}"#)).try_get_error().is_none());
    assert!(response_named("a:error", json(r#"{"code": "C1"}"#)).try_get_error().is_none());
    assert!(response_named("a:error", json(r#"{"code": 1, "parameters": {}}"#))
        .try_get_error()
        .is_none());
    assert!(response_named("a:error", json(r#"["code", "parameters"]"#)).try_get_error().is_none());
    assert!(response_named("a:error", Value::from("code")).try_get_error().is_none());
    let error = response_named("a:error", good).try_get_error().unwrap();
    assert_eq!("error", error.error_type());
    assert_eq!("C1", error.value().code);
}
