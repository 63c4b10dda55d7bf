//! Typed payloads carried inside RPC notifications: log relay and chat.
//!
//! Each payload converts to a notification and back. Conversion back accepts
//! any notification whose params have the right shape, and reports a missing
//! payload, a wrong message shape, or a malformed payload.

use vstd::prelude::*;

use crate::json::JsonData;
use crate::json::JsonValue;
use crate::json::json_view_fields;
use crate::json::lemma_json_view_fields;
use crate::json::obj_field;
use crate::json::spec_obj_field;
use crate::rpc::Message;
use crate::rpc::MessageData;
use crate::rpc::RpcDeserializationError;
use crate::strutil::str_eq;

verus! {

/// The severity a plugin declares for a relayed log line.
#[derive(Clone, Copy, Debug, PartialEq, Eq, Structural)]
pub enum LogSeverity {
    Debug,
    Info,
    Warn,
    Error,
    Trace,
}

/// The name a severity is written as inside a payload.
pub open spec fn spec_severity_name(s: LogSeverity) -> Seq<char> {
    match s {
        LogSeverity::Debug => "Debug"@,
        LogSeverity::Info => "Info"@,
        LogSeverity::Warn => "Warn"@,
        LogSeverity::Error => "Error"@,
        LogSeverity::Trace => "Trace"@,
    }
}

/// The severity a name denotes, if any.
pub open spec fn spec_severity_of_name(n: Seq<char>) -> Option<LogSeverity> {
    if n == "Debug"@ {
        Some(LogSeverity::Debug)
    } else if n == "Info"@ {
        Some(LogSeverity::Info)
    } else if n == "Warn"@ {
        Some(LogSeverity::Warn)
    } else if n == "Error"@ {
        Some(LogSeverity::Error)
    } else if n == "Trace"@ {
        Some(LogSeverity::Trace)
    } else {
        None
    }
}

impl LogSeverity {
    /// Writes the severity's name.
    pub fn name(self) -> (r: String)
        ensures
            r@ == spec_severity_name(self),
    {
        match self {
            LogSeverity::Debug => String::from_str("Debug"),
            LogSeverity::Info => String::from_str("Info"),
            LogSeverity::Warn => String::from_str("Warn"),
            LogSeverity::Error => String::from_str("Error"),
            LogSeverity::Trace => String::from_str("Trace"),
        }
    }

    /// Reads a severity from its name.
    pub fn from_name(n: &str) -> (r: Option<LogSeverity>)
        ensures
            r == spec_severity_of_name(n@),
    {
        if str_eq(n, "Debug") {
            Some(LogSeverity::Debug)
        } else if str_eq(n, "Info") {
            Some(LogSeverity::Info)
        } else if str_eq(n, "Warn") {
            Some(LogSeverity::Warn)
        } else if str_eq(n, "Error") {
            Some(LogSeverity::Error)
        } else if str_eq(n, "Trace") {
            Some(LogSeverity::Trace)
        } else {
            None
        }
    }

    /// Round trip: every severity is read back from its own name.
    pub proof fn lemma_name_round_trip(s: LogSeverity)
        ensures
            spec_severity_of_name(spec_severity_name(s)) == Some(s),
    {
        reveal_strlit("Debug");
        reveal_strlit("Info");
        reveal_strlit("Warn");
        reveal_strlit("Error");
        reveal_strlit("Trace");
        assert("Debug"@.len() == 5 && "Info"@.len() == 4 && "Warn"@.len() == 4 && "Error"@.len()
            == 5 && "Trace"@.len() == 5);
        assert("Debug"@[0] != "Error"@[0] && "Debug"@[0] != "Trace"@[0] && "Error"@[0]
            != "Trace"@[0] && "Info"@[0] != "Warn"@[0]);
    }
}

/// A log line a plugin asks the supervisor to emit.
#[derive(Debug, PartialEq, Eq)]
pub struct LogPayload {
    pub severity: LogSeverity,
    pub content: String,
}

/// The mathematical shape of a log payload.
pub ghost struct LogPayloadData {
    pub severity: LogSeverity,
    pub content: Seq<char>,
}

impl View for LogPayload {
    type V = LogPayloadData;

    open spec fn view(&self) -> LogPayloadData {
        LogPayloadData { severity: self.severity, content: self.content@ }
    }
}

/// The params object a log payload is carried in.
pub open spec fn spec_log_params(p: LogPayloadData) -> JsonData {
    JsonData::Obj(
        seq![
            ("severity"@, JsonData::Str(spec_severity_name(p.severity))),
            ("content"@, JsonData::Str(p.content)),
        ],
    )
}

/// The notification a log payload becomes: method `log`.
pub open spec fn spec_log_message(p: LogPayloadData) -> MessageData {
    MessageData::Notification { method: "log"@, params: Some(spec_log_params(p)) }
}

/// What a message yields when read as a log payload: only notifications
/// qualify, the params must be present, and they must hold a known severity
/// name and a string content.
pub open spec fn spec_log_payload_of(m: MessageData) -> Result<
    LogPayloadData,
    RpcDeserializationError,
> {
    match m {
        MessageData::Notification { method, params } => match params {
            None => Err(RpcDeserializationError::NoValue),
            Some(p) => {
                let sev = spec_obj_field(p.spec_fields(), "severity"@);
                let content = spec_obj_field(p.spec_fields(), "content"@);
                if p is Obj {
                    match (sev, content) {
                        (Some(JsonData::Str(sn)), Some(JsonData::Str(c))) => {
                            match spec_severity_of_name(sn) {
                                Some(s) => Ok(LogPayloadData { severity: s, content: c }),
                                None => Err(RpcDeserializationError::JsonError),
                            }
                        },
                        _ => Err(RpcDeserializationError::JsonError),
                    }
                } else {
                    Err(RpcDeserializationError::JsonError)
                }
            },
        },
        _ => Err(RpcDeserializationError::WrongRpcType),
    }
}

impl LogPayload {
    /// The notification carrying this payload.
    pub fn to_message(&self) -> (r: Message)
        ensures
            r@ == spec_log_message(self@),
    {
        let mut fields: Vec<(String, JsonValue)> = Vec::new();
        fields.push((String::from_str("severity"), JsonValue::Str(self.severity.name())));
        fields.push((String::from_str("content"), JsonValue::Str(self.content.clone())));
        proof {
            lemma_json_view_fields(fields@);
            assert(json_view_fields(fields@) =~= spec_log_params(self@).spec_fields());
        }
        Message::notification("log", Some(JsonValue::Obj(fields)))
    }

    /// Reads a log payload out of a message.
    pub fn try_from_message(m: &Message) -> (r: Result<LogPayload, RpcDeserializationError>)
        ensures
            match r {
                Ok(p) => spec_log_payload_of(m@) == Ok::<LogPayloadData, RpcDeserializationError>(
                    p@,
                ),
                Err(e) => spec_log_payload_of(m@) == Err::<LogPayloadData, RpcDeserializationError>(
                    e,
                ),
            },
    {
        let params = match m {
            Message::Notification { params, .. } => params,
            _ => {
                return Err(RpcDeserializationError::WrongRpcType);
            },
        };
        let p = match params {
            Some(p) => p,
            None => {
                return Err(RpcDeserializationError::NoValue);
            },
        };
        let fields = match p {
            JsonValue::Obj(fields) => fields,
            _ => {
                return Err(RpcDeserializationError::JsonError);
            },
        };
        proof {
            assert(*p == JsonValue::Obj(*fields));
        }
        let severity = match obj_field(fields, "severity") {
            Some(JsonValue::Str(sn)) => match LogSeverity::from_name(sn.as_str()) {
                Some(s) => s,
                None => {
                    return Err(RpcDeserializationError::JsonError);
                },
            },
            _ => {
                return Err(RpcDeserializationError::JsonError);
            },
        };
        let content = match obj_field(fields, "content") {
            Some(JsonValue::Str(c)) => c.clone(),
            _ => {
                return Err(RpcDeserializationError::JsonError);
            },
        };
        Ok(LogPayload { severity, content })
    }

    /// Round trip: a log payload is read back from its own notification.
    pub proof fn lemma_round_trip(p: LogPayloadData)
        ensures
            spec_log_payload_of(spec_log_message(p)) == Ok::<
                LogPayloadData,
                RpcDeserializationError,
            >(p),
    {
        reveal_with_fuel(crate::json::spec_obj_lookup, 4);
        reveal_strlit("severity");
        reveal_strlit("content");
        assert("severity"@.len() == 8 && "content"@.len() == 7);
        LogSeverity::lemma_name_round_trip(p.severity);
        let fields = spec_log_params(p).spec_fields();
        assert(fields[0] == ("severity"@, JsonData::Str(spec_severity_name(p.severity))));
        assert(fields.drop_first()[0] == ("content"@, JsonData::Str(p.content)));
    }
}

/// A chat line recognized in the game-server log.
#[derive(Debug, PartialEq, Eq)]
pub struct ChatPayload {
    pub user: String,
    pub message: String,
}

/// The mathematical shape of a chat payload.
pub ghost struct ChatPayloadData {
    pub user: Seq<char>,
    pub message: Seq<char>,
}

impl View for ChatPayload {
    type V = ChatPayloadData;

    open spec fn view(&self) -> ChatPayloadData {
        ChatPayloadData { user: self.user@, message: self.message@ }
    }
}

/// The params object a chat payload is carried in.
pub open spec fn spec_chat_params(p: ChatPayloadData) -> JsonData {
    JsonData::Obj(
        seq![("user"@, JsonData::Str(p.user)), ("message"@, JsonData::Str(p.message))],
    )
}

/// The notification a chat payload becomes: method `chat`.
pub open spec fn spec_chat_message(p: ChatPayloadData) -> MessageData {
    MessageData::Notification { method: "chat"@, params: Some(spec_chat_params(p)) }
}

/// What a message yields when read as a chat payload.
pub open spec fn spec_chat_payload_of(m: MessageData) -> Result<
    ChatPayloadData,
    RpcDeserializationError,
> {
    match m {
        MessageData::Notification { method, params } => match params {
            None => Err(RpcDeserializationError::NoValue),
            Some(p) => {
                let user = spec_obj_field(p.spec_fields(), "user"@);
                let message = spec_obj_field(p.spec_fields(), "message"@);
                if p is Obj {
                    match (user, message) {
                        (Some(JsonData::Str(u)), Some(JsonData::Str(msg))) => Ok(
                            ChatPayloadData { user: u, message: msg },
                        ),
                        _ => Err(RpcDeserializationError::JsonError),
                    }
                } else {
                    Err(RpcDeserializationError::JsonError)
                }
            },
        },
        _ => Err(RpcDeserializationError::WrongRpcType),
    }
}

impl ChatPayload {
    /// The notification carrying this payload.
    pub fn to_message(&self) -> (r: Message)
        ensures
            r@ == spec_chat_message(self@),
    {
        let mut fields: Vec<(String, JsonValue)> = Vec::new();
        fields.push((String::from_str("user"), JsonValue::Str(self.user.clone())));
        fields.push((String::from_str("message"), JsonValue::Str(self.message.clone())));
        proof {
            lemma_json_view_fields(fields@);
            assert(json_view_fields(fields@) =~= spec_chat_params(self@).spec_fields());
        }
        Message::notification("chat", Some(JsonValue::Obj(fields)))
    }

    /// Reads a chat payload out of a message.
    pub fn try_from_message(m: &Message) -> (r: Result<ChatPayload, RpcDeserializationError>)
        ensures
            match r {
                Ok(p) => spec_chat_payload_of(m@) == Ok::<ChatPayloadData, RpcDeserializationError>(
                    p@,
                ),
                Err(e) => spec_chat_payload_of(m@) == Err::<
                    ChatPayloadData,
                    RpcDeserializationError,
                >(e),
            },
    {
        let params = match m {
            Message::Notification { params, .. } => params,
            _ => {
                return Err(RpcDeserializationError::WrongRpcType);
            },
        };
        let p = match params {
            Some(p) => p,
            None => {
                return Err(RpcDeserializationError::NoValue);
            },
        };
        let fields = match p {
            JsonValue::Obj(fields) => fields,
            _ => {
                return Err(RpcDeserializationError::JsonError);
            },
        };
        proof {
            assert(*p == JsonValue::Obj(*fields));
        }
        let user = match obj_field(fields, "user") {
            Some(JsonValue::Str(u)) => u.clone(),
            _ => {
                return Err(RpcDeserializationError::JsonError);
            },
        };
        let message = match obj_field(fields, "message") {
            Some(JsonValue::Str(msg)) => msg.clone(),
            _ => {
                return Err(RpcDeserializationError::JsonError);
            },
        };
        Ok(ChatPayload { user, message })
    }

    /// Round trip: a chat payload is read back from its own notification.
    pub proof fn lemma_round_trip(p: ChatPayloadData)
        ensures
            spec_chat_payload_of(spec_chat_message(p)) == Ok::<
                ChatPayloadData,
                RpcDeserializationError,
            >(p),
    {
        reveal_with_fuel(crate::json::spec_obj_lookup, 4);
        reveal_strlit("user");
        reveal_strlit("message");
        assert("user"@.len() == 4 && "message"@.len() == 7);
        let fields = spec_chat_params(p).spec_fields();
        assert(fields[0] == ("user"@, JsonData::Str(p.user)));
        assert(fields.drop_first()[0] == ("message"@, JsonData::Str(p.message)));
    }
}

} // verus!
