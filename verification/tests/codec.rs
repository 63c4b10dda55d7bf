//! The JSON-RPC codec: shape discrimination, errors, and round trips.

use brust::json::JsonValue;
use brust::rpc::Id;
use brust::rpc::Message;
use brust::rpc::RpcDeserializationError;
use brust::rpc::RpcError;
use brust::rpc::decode_line;

fn obj(fields: Vec<(&str, JsonValue)>) -> JsonValue {
    JsonValue::Obj(fields.into_iter().map(|(k, v)| (k.to_string(), v)).collect())
}

fn s(text: &str) -> JsonValue {
    JsonValue::Str(text.to_string())
}

fn decode_ok(line: &str) -> Message {
    decode_line(line).expect("no message").expect("decode failed")
}

fn decode_err(line: &str) -> RpcDeserializationError {
    decode_line(line).expect("no message").expect_err("decode succeeded")
}

#[test]
fn decode_request_when_method_and_id_present() {
    let m = decode_ok(r#"{"jsonrpc":"2.0","id":7,"method":"ping","params":"x"}"#);
    assert_eq!(
        m,
        Message::Request {
            id: Id::Int(7),
            method: "ping".to_string(),
            params: Some(s("x")),
        }
    );
}

#[test]
fn decode_notification_when_method_alone() {
    let m = decode_ok(r#"{"jsonrpc":"2.0","method":"ping"}"#);
    assert_eq!(m, Message::Notification { method: "ping".to_string(), params: None });
}

#[test]
fn decode_response_with_result() {
    let m = decode_ok(r#"{"jsonrpc":"2.0","id":"a","result":5}"#);
    assert_eq!(
        m,
        Message::Response {
            id: Id::Str("a".to_string()),
            result: Some(JsonValue::Int(5)),
            error: None,
        }
    );
}

#[test]
fn decode_response_with_error() {
    let m = decode_ok(r#"{"jsonrpc":"2.0","id":1,"error":{"code":-32600,"message":"bad"}}"#);
    assert_eq!(
        m,
        Message::Response {
            id: Id::Int(1),
            result: None,
            error: Some(RpcError { code: -32600, message: "bad".to_string(), data: None }),
        }
    );
}

#[test]
fn decode_ignores_unknown_fields() {
    let m = decode_ok(r#"{"jsonrpc":"2.0","method":"ping","extra":[1,2]}"#);
    assert_eq!(m, Message::Notification { method: "ping".to_string(), params: None });
}

#[test]
fn decode_null_id_counts_as_absent() {
    let m = decode_ok(r#"{"jsonrpc":"2.0","id":null,"method":"ping"}"#);
    assert!(matches!(m, Message::Notification { .. }));
}

#[test]
fn wrong_shape_cases() {
    // Neither method nor id; id alone without result or error; both result
    // and error; a method that is not a string; no protocol tag; not even
    // an object.
    for line in [
        r#"{"jsonrpc":"2.0"}"#,
        r#"{"jsonrpc":"2.0","id":1}"#,
        r#"{"jsonrpc":"2.0","id":1,"result":1,"error":{"code":1,"message":"m"}}"#,
        r#"{"jsonrpc":"2.0","method":5}"#,
        r#"{"method":"ping"}"#,
        r#"{}"#,
        r#"42"#,
        r#"[1,2,3]"#,
    ] {
        assert_eq!(decode_err(line), RpcDeserializationError::WrongRpcType, "line: {}", line);
    }
}

#[test]
fn malformed_json_is_a_parse_error() {
    assert_eq!(decode_err("not-json"), RpcDeserializationError::JsonError);
    assert_eq!(decode_err("{"), RpcDeserializationError::JsonError);
}

#[test]
fn blank_lines_carry_no_message() {
    assert!(decode_line("").is_none());
    assert!(decode_line("   \t").is_none());
}

#[test]
fn encode_notification_exact_text() {
    let m = Message::notification(
        "chat",
        Some(obj(vec![("user", s("alice")), ("message", s("hello world"))])),
    );
    // Object keys are written in sorted order.
    assert_eq!(
        m.encode(),
        r#"{"jsonrpc":"2.0","method":"chat","params":{"message":"hello world","user":"alice"}}"#
    );
}

#[test]
fn encode_omits_absent_fields() {
    let m = Message::notification("ping", None);
    assert_eq!(m.encode(), r#"{"jsonrpc":"2.0","method":"ping"}"#);
}

#[test]
fn round_trip_notification() {
    let m = Message::notification("ev", Some(obj(vec![("k", JsonValue::Int(3))])));
    assert_eq!(decode_ok(&m.encode()), m);
}

#[test]
fn round_trip_request_with_string_id() {
    let m = Message::request(Id::Str("r1".to_string()), "do", Some(s("now")));
    assert_eq!(decode_ok(&m.encode()), m);
}

#[test]
fn round_trip_request_with_int_id() {
    let m = Message::request(Id::Int(-3), "do", None);
    assert_eq!(decode_ok(&m.encode()), m);
}

#[test]
fn round_trip_response_result() {
    let m = Message::response(
        Id::Int(1),
        Some(JsonValue::Arr(vec![JsonValue::Bool(true), JsonValue::Null])),
        None,
    );
    assert_eq!(decode_ok(&m.encode()), m);
}

#[test]
fn round_trip_response_error_with_data() {
    let m = Message::response(
        Id::Str("q".to_string()),
        None,
        Some(RpcError { code: 13, message: "oops".to_string(), data: Some(s("detail")) }),
    );
    assert_eq!(decode_ok(&m.encode()), m);
}

#[test]
fn method_accessor() {
    assert_eq!(Message::notification("a", None).method(), Some("a"));
    assert_eq!(Message::request(Id::Int(1), "b", None).method(), Some("b"));
    assert_eq!(Message::response(Id::Int(1), Some(JsonValue::Null), None).method(), None);
}

#[test]
fn an_id_beyond_i32_is_the_wrong_shape() {
    assert_eq!(
        decode_err(r#"{"jsonrpc":"2.0","id":99999999999,"method":"x"}"#),
        RpcDeserializationError::WrongRpcType
    );
}

#[test]
fn non_integer_numbers_do_not_parse() {
    // The model carries only integer numbers; a document holding any other
    // number is treated as unparseable.
    assert_eq!(
        decode_err(r#"{"jsonrpc":"2.0","method":"m","params":1.5}"#),
        RpcDeserializationError::JsonError
    );
}
