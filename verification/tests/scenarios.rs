//! End-to-end scenarios through the supervisor: chat, connect, timeouts,
//! plugin dispatch, and broadcast fan-out.

use brust::json::JsonValue;
use brust::matchers::MatchError;
use brust::payloads::ChatPayload;
use brust::payloads::LogSeverity;
use brust::rpc::Message;
use brust::supervisor::Supervisor;

fn obj(fields: Vec<(&str, JsonValue)>) -> JsonValue {
    JsonValue::Obj(fields.into_iter().map(|(k, v)| (k.to_string(), v)).collect())
}

fn s(text: &str) -> JsonValue {
    JsonValue::Str(text.to_string())
}

const TS: &str = "[2024.01.01-00.00.00:000]";

fn chat_message(user: &str, message: &str) -> Message {
    ChatPayload { user: user.to_string(), message: message.to_string() }.to_message()
}

#[test]
fn chat_round_trip() {
    let mut sup = Supervisor::new();
    sup.add_plugin("p1".to_string());
    sup.add_plugin("p2".to_string());
    let line = format!("{}[  5]LogChat: alice: hello world", TS);
    let bus = sup.handle_game_line(&line, 0);
    assert_eq!(bus, vec![Ok(chat_message("alice", "hello world"))]);
    for r in &bus {
        sup.publish_message(r.as_ref().expect("match failed"));
    }
    let expected =
        r#"{"jsonrpc":"2.0","method":"chat","params":{"message":"hello world","user":"alice"}}"#;
    assert_eq!(sup.take_outbox(0), vec![expected.to_string()]);
    assert_eq!(sup.take_outbox(1), vec![expected.to_string()]);
}

#[test]
fn chat_user_may_hold_spaces_but_not_colons() {
    let mut sup = Supervisor::new();
    let line = format!("{}[ 12]LogChat: bob jones: hi: there", TS);
    let bus = sup.handle_game_line(&line, 0);
    assert_eq!(bus, vec![Ok(chat_message("bob jones", "hi: there"))]);
}

#[test]
fn connect_four_line_sequence() {
    let mut sup = Supervisor::new();
    let lines = [
        "LogServerList: Auth payload valid. Result:",
        "LogServerList: UserName: Bob",
        "LogServerList: UserId: 12345678-1234-5678-1234-567812345678",
        "LogServerList: HandleId: X",
    ];
    let mut all: Vec<Result<Message, MatchError>> = Vec::new();
    for (k, body) in lines.iter().enumerate() {
        let line = format!("{}[ 42]{}", TS, body);
        all.extend(sup.handle_game_line(&line, k as u64));
    }
    let expected = Message::notification(
        "connect",
        Some(obj(vec![("name", s("Bob")), ("uuid", s("12345678-1234-5678-1234-567812345678"))])),
    );
    assert_eq!(all, vec![Ok(expected)]);
    assert!(sup.engine.instances.is_empty());
}

#[test]
fn connect_normalizes_the_uuid() {
    let mut sup = Supervisor::new();
    let lines = [
        "LogServerList: Auth payload valid. Result:",
        "LogServerList: UserName: Eve",
        "LogServerList: UserId: 12345678-1234-5678-1234-56781234ABCD",
        "LogServerList: HandleId: Y",
    ];
    let mut all: Vec<Result<Message, MatchError>> = Vec::new();
    for (k, body) in lines.iter().enumerate() {
        let line = format!("{}[ 1]{}", TS, body);
        all.extend(sup.handle_game_line(&line, k as u64));
    }
    // The UUID comes back in its canonical lowercase form.
    let expected = Message::notification(
        "connect",
        Some(obj(vec![("name", s("Eve")), ("uuid", s("12345678-1234-5678-1234-56781234abcd"))])),
    );
    assert_eq!(all, vec![Ok(expected)]);
}

#[test]
fn connect_needs_one_emitter_index() {
    let mut sup = Supervisor::new();
    let l1 = format!("{}[ 42]LogServerList: Auth payload valid. Result:", TS);
    let l2 = format!("{}[ 43]LogServerList: UserName: Bob", TS);
    assert!(sup.handle_game_line(&l1, 0).is_empty());
    // A record from another emitter does not advance the instance.
    assert!(sup.handle_game_line(&l2, 1).is_empty());
    assert_eq!(sup.engine.instances.len(), 1);
    assert_eq!(sup.engine.instances[0].captures.len(), 1);
}

#[test]
fn connect_interleaved_fails_to_timeout() {
    let mut sup = Supervisor::new();
    let lines = [
        "LogServerList: Auth payload valid. Result:",
        "LogServerList: UserName: Bob",
        "LogServerList: UserId: 12345678-1234-5678-1234-567812345678",
    ];
    for (k, body) in lines.iter().enumerate() {
        let line = format!("{}[ 42]{}", TS, body);
        assert!(sup.handle_game_line(&line, (k as u64) * 100).is_empty());
    }
    assert_eq!(sup.engine.instances.len(), 1);
    // Past the timeout, the fourth line neither advances nor completes the
    // expired instance; the record that finds it expired reaps it.
    let l4 = format!("{}[ 42]LogServerList: HandleId: X", TS);
    assert!(sup.handle_game_line(&l4, 1600).is_empty());
    assert!(sup.engine.instances.is_empty());
}

#[test]
fn connect_with_a_bad_uuid_fails_loudly() {
    let mut sup = Supervisor::new();
    let lines = [
        "LogServerList: Auth payload valid. Result:",
        "LogServerList: UserName: Bob",
        "LogServerList: UserId: not-a-uuid",
    ];
    for (k, body) in lines.iter().enumerate() {
        let line = format!("{}[ 42]{}", TS, body);
        assert!(sup.handle_game_line(&line, k as u64).is_empty());
    }
    // The completing line surfaces the match error instead of a notification.
    let l4 = format!("{}[ 42]LogServerList: HandleId: X", TS);
    assert_eq!(sup.handle_game_line(&l4, 3), vec![Err(MatchError::BadUuid)]);
    assert!(sup.engine.instances.is_empty());
}

#[test]
fn plugin_broadcast_reaches_the_game_stdin() {
    let mut sup = Supervisor::new();
    sup.add_plugin("p1".to_string());
    let r = sup.handle_plugin_line(0, r#"{"jsonrpc":"2.0","method":"broadcast","params":"hi"}"#);
    assert!(r.is_none());
    assert_eq!(sup.take_game_stdin(), vec!["Chat.Broadcast hi".to_string()]);
}

#[test]
fn plugin_writeln_is_verbatim() {
    let mut sup = Supervisor::new();
    sup.add_plugin("p1".to_string());
    let r = sup.handle_plugin_line(0, r#"{"jsonrpc":"2.0","method":"writeln","params":"Server.Save"}"#);
    assert!(r.is_none());
    assert_eq!(sup.take_game_stdin(), vec!["Server.Save".to_string()]);
}

#[test]
fn plugin_log_relay() {
    let mut sup = Supervisor::new();
    sup.add_plugin("p1".to_string());
    let r = sup.handle_plugin_line(
        0,
        r#"{"jsonrpc":"2.0","method":"log","params":{"severity":"Warn","content":"x"}}"#,
    );
    let p = r.expect("no log payload");
    assert_eq!(p.severity, LogSeverity::Warn);
    assert_eq!(p.content, "x");
    assert!(sup.take_game_stdin().is_empty());
}

#[test]
fn malformed_plugin_line_is_dropped() {
    let mut sup = Supervisor::new();
    sup.add_plugin("p1".to_string());
    assert!(sup.handle_plugin_line(0, "not-json").is_none());
    assert!(sup.handle_plugin_line(0, "").is_none());
    assert!(sup.handle_plugin_line(0, r#"{"jsonrpc":"2.0","id":1}"#).is_none());
    assert!(sup.handle_plugin_line(0, r#"{"jsonrpc":"2.0","method":"unknown"}"#).is_none());
    assert!(sup.take_game_stdin().is_empty());
    assert_eq!(sup.engine.matchers.len(), 2);
    assert_eq!(sup.take_outbox(0), Vec::<String>::new());
}

#[test]
fn broadcast_fans_out_to_live_plugins_once() {
    let mut sup = Supervisor::new();
    sup.add_plugin("p1".to_string());
    sup.add_plugin("p2".to_string());
    sup.add_plugin("p3".to_string());
    sup.plugin_exited(1);
    sup.publish_line(&"one".to_string());
    sup.publish_line(&"two".to_string());
    assert_eq!(sup.take_outbox(0), vec!["one".to_string(), "two".to_string()]);
    assert_eq!(sup.take_outbox(1), Vec::<String>::new());
    assert_eq!(sup.take_outbox(2), vec!["one".to_string(), "two".to_string()]);
    // Taking an outbox empties it.
    assert_eq!(sup.take_outbox(0), Vec::<String>::new());
}

#[test]
fn registered_matcher_advances_one_instance_per_record() {
    let mut sup = Supervisor::new();
    sup.add_plugin("p1".to_string());
    let reg = r#"{"jsonrpc":"2.0","method":"register_matcher","params":{"regexes":["^a$","^b$"],"timeout_ms":60000}}"#;
    assert!(sup.handle_plugin_line(0, reg).is_none());
    assert!(sup.handle_plugin_line(0, reg).is_none());
    assert_eq!(sup.engine.matchers.len(), 4);
    // Both matchers seed on the first record.
    let la = format!("{}[ 1]a", TS);
    assert!(sup.handle_game_line(&la, 0).is_empty());
    assert_eq!(sup.engine.instances.len(), 2);
    // One record advances at most one instance: the older one completes,
    // the younger one stays as it was.
    let lb = format!("{}[ 1]b", TS);
    let expected = || Message::notification(
        "match",
        Some(JsonValue::Arr(vec![obj(vec![]), obj(vec![])])),
    );
    assert_eq!(sup.handle_game_line(&lb, 1), vec![Ok(expected())]);
    assert_eq!(sup.engine.instances.len(), 1);
    assert_eq!(sup.engine.instances[0].captures.len(), 1);
    // The next record completes the second.
    assert_eq!(sup.handle_game_line(&lb, 2), vec![Ok(expected())]);
    assert!(sup.engine.instances.is_empty());
}

#[test]
fn captures_grow_by_one_per_advance() {
    let mut sup = Supervisor::new();
    sup.add_plugin("p1".to_string());
    let reg = r#"{"jsonrpc":"2.0","method":"register_matcher","params":{"regexes":["^a(?P<x>\\d)$","^b(?P<y>\\d)$","^c(?P<z>\\d)$"],"timeout_ms":60000}}"#;
    assert!(sup.handle_plugin_line(0, reg).is_none());
    assert!(sup.handle_game_line(&format!("{}[ 1]a1", TS), 0).is_empty());
    assert_eq!(sup.engine.instances[0].captures.len(), 1);
    assert!(sup.handle_game_line(&format!("{}[ 1]b2", TS), 1).is_empty());
    assert_eq!(sup.engine.instances[0].captures.len(), 2);
    let bus = sup.handle_game_line(&format!("{}[ 1]c3", TS), 2);
    let expected = Message::notification(
        "match",
        Some(JsonValue::Arr(vec![
            obj(vec![("x", s("1"))]),
            obj(vec![("y", s("2"))]),
            obj(vec![("z", s("3"))]),
        ])),
    );
    assert_eq!(bus, vec![Ok(expected)]);
    assert!(sup.engine.instances.is_empty());
}

#[test]
fn single_pattern_matcher_completes_at_once() {
    let mut sup = Supervisor::new();
    sup.add_plugin("p1".to_string());
    let reg = r#"{"jsonrpc":"2.0","method":"register_matcher","params":{"regexes":["ready (?P<who>.+)$"],"timeout_ms":1000}}"#;
    assert!(sup.handle_plugin_line(0, reg).is_none());
    let bus = sup.handle_game_line(&format!("{}[ 3]ready worker", TS), 0);
    let expected = Message::notification(
        "match",
        Some(JsonValue::Arr(vec![obj(vec![("who", s("worker"))])])),
    );
    assert_eq!(bus, vec![Ok(expected)]);
    assert!(sup.engine.instances.is_empty());
}

#[test]
fn register_matcher_rejects_bad_params() {
    let mut sup = Supervisor::new();
    sup.add_plugin("p1".to_string());
    for line in [
        r#"{"jsonrpc":"2.0","method":"register_matcher","params":{"regexes":[],"timeout_ms":1}}"#,
        r#"{"jsonrpc":"2.0","method":"register_matcher","params":{"regexes":["a"],"timeout_ms":-1}}"#,
        r#"{"jsonrpc":"2.0","method":"register_matcher","params":{"regexes":["a",5],"timeout_ms":1}}"#,
        r#"{"jsonrpc":"2.0","method":"register_matcher","params":{"timeout_ms":1}}"#,
        r#"{"jsonrpc":"2.0","method":"register_matcher"}"#,
    ] {
        assert!(sup.handle_plugin_line(0, line).is_none());
        assert_eq!(sup.engine.matchers.len(), 2, "line: {}", line);
    }
}

#[test]
fn plugin_side_builders_round_trip_through_dispatch() {
    let mut sup = Supervisor::new();
    sup.add_plugin("p1".to_string());
    // What a plugin writes on its stdout is exactly what the supervisor reads.
    let line = brust::plugins::broadcast_notification("hi").encode();
    assert!(sup.handle_plugin_line(0, &line).is_none());
    let line = brust::plugins::writeln_notification("Server.Save").encode();
    assert!(sup.handle_plugin_line(0, &line).is_none());
    assert_eq!(
        sup.take_game_stdin(),
        vec!["Chat.Broadcast hi".to_string(), "Server.Save".to_string()]
    );
}
