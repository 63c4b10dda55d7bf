//! Payload conversions, severities, capture bookkeeping, and manifests.

use brust::json::JsonValue;
use brust::matchers::RegexCaptures;
use brust::payloads::ChatPayload;
use brust::payloads::LogPayload;
use brust::payloads::LogSeverity;
use brust::plugins::parse_manifest;
use brust::rpc::Id;
use brust::rpc::Message;
use brust::rpc::RpcDeserializationError;

#[test]
fn log_payload_round_trip() {
    let p = LogPayload { severity: LogSeverity::Error, content: "boom".to_string() };
    let m = p.to_message();
    assert_eq!(m.method(), Some("log"));
    assert_eq!(LogPayload::try_from_message(&m).expect("no payload"), p);
}

#[test]
fn chat_payload_round_trip() {
    let p = ChatPayload { user: "alice".to_string(), message: "hi".to_string() };
    let m = p.to_message();
    assert_eq!(m.method(), Some("chat"));
    assert_eq!(ChatPayload::try_from_message(&m).expect("no payload"), p);
}

#[test]
fn severity_names_round_trip() {
    for sev in [
        LogSeverity::Debug,
        LogSeverity::Info,
        LogSeverity::Warn,
        LogSeverity::Error,
        LogSeverity::Trace,
    ] {
        assert_eq!(LogSeverity::from_name(&sev.name()), Some(sev));
    }
    assert_eq!(LogSeverity::from_name("warn"), None);
    assert_eq!(LogSeverity::from_name(""), None);
}

#[test]
fn log_payload_errors() {
    // A response is the wrong message shape.
    let resp = Message::response(Id::Int(1), Some(JsonValue::Null), None);
    assert_eq!(
        LogPayload::try_from_message(&resp),
        Err(RpcDeserializationError::WrongRpcType)
    );
    // A notification without params has no payload.
    let bare = Message::notification("log", None);
    assert_eq!(LogPayload::try_from_message(&bare), Err(RpcDeserializationError::NoValue));
    // An unknown severity name does not deserialize.
    let bad = Message::notification(
        "log",
        Some(JsonValue::Obj(vec![
            ("severity".to_string(), JsonValue::Str("Fatal".to_string())),
            ("content".to_string(), JsonValue::Str("x".to_string())),
        ])),
    );
    assert_eq!(LogPayload::try_from_message(&bad), Err(RpcDeserializationError::JsonError));
}

#[test]
fn captures_lookup_by_position_and_group() {
    let maps = vec![
        vec![("user".to_string(), "alice".to_string())],
        vec![
            ("id".to_string(), "1".to_string()),
            ("id".to_string(), "2".to_string()),
        ],
    ];
    let mut c = RegexCaptures::new(maps);
    assert_eq!(c.len(), 2);
    assert_eq!(c.at(0, "user"), Some("alice"));
    assert_eq!(c.at(0, "missing"), None);
    // The first binding of a repeated group name wins.
    assert_eq!(c.at(1, "id"), Some("1"));
    assert_eq!(c.at(2, "user"), None);
    c.push(vec![("k".to_string(), "v".to_string())]);
    assert_eq!(c.len(), 3);
    assert_eq!(c.at(2, "k"), Some("v"));
}

#[test]
fn manifest_with_all_fields() {
    let text = "[plugin]\nname = \"greeter\"\nauthor = \"ada\"\ndescription = \"says hi\"\ntarget = \"run.sh\"\n";
    let p = parse_manifest(text).expect("no manifest");
    assert_eq!(p.name(), "greeter");
    assert_eq!(p.author(), "ada");
    assert_eq!(p.description(), "says hi");
    assert_eq!(p.target(), "run.sh");
}

#[test]
fn manifest_target_defaults() {
    let text = "[plugin]\nname = \"greeter\"\nauthor = \"ada\"\ndescription = \"says hi\"\n";
    let p = parse_manifest(text).expect("no manifest");
    assert_eq!(p.target(), "plugin");
}

#[test]
fn manifest_missing_fields_is_rejected() {
    assert!(parse_manifest("[plugin]\nname = \"x\"\n").is_none());
    assert!(parse_manifest("name = \"x\"\n").is_none());
    assert!(parse_manifest("not toml [").is_none());
    assert!(parse_manifest("[plugin]\nname = 5\nauthor = \"a\"\ndescription = \"d\"\n").is_none());
}

#[test]
fn launcher_command_line() {
    let args = brust::launch::launcher_args("/srv/game/data");
    assert_eq!(
        args,
        vec![
            "--output=L".to_string(),
            "--".to_string(),
            "./data/brickadia-launcher/main-brickadia-launcher".to_string(),
            "--server".to_string(),
            "--".to_string(),
            "-NotInstalled".to_string(),
            "-log".to_string(),
            "-UserDir=/srv/game/data".to_string(),
        ]
    );
}

#[test]
fn credential_flags() {
    let both = brust::launch::credential_args(
        &Some("a@b.c".to_string()),
        &Some("pw1".to_string()),
    );
    assert_eq!(
        both,
        vec!["-User=a@b.c".to_string(), "-Password=pw1".to_string()]
    );
    let none = brust::launch::credential_args(&None, &None);
    assert_eq!(none, Vec::<String>::new());
    let one = brust::launch::credential_args(&Some("a@b.c".to_string()), &None);
    assert_eq!(one, vec!["-User=a@b.c".to_string()]);
}
