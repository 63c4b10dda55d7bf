//! The JSON-RPC 2.0 message model and its codec.
//!
//! A message is one of three shapes: a notification (a method and no id), a
//! request (a method and an id) and a response (an id and exactly one of a
//! result or an error). Shape discrimination on decode goes by the presence
//! of the `method` and `id` keys; a key bound to `null` counts as absent, and
//! unknown keys are ignored. Encoding writes one JSON text per message and
//! omits absent fields.

use vstd::prelude::*;

use crate::json::JsonData;
use crate::json::JsonValue;
use crate::json::json_view_fields;
use crate::json::json_text_of;
use crate::json::json_parse;
use crate::json::clone_json;
use crate::json::lemma_json_view_fields;
use crate::json::obj_field;
use crate::json::parse_json;
use crate::json::json_to_text;
use crate::json::spec_obj_field;

verus! {

/// A message id: JSON-RPC allows strings and integers.
#[derive(Debug, PartialEq, Eq)]
pub enum Id {
    Str(String),
    Int(i32),
}

/// The mathematical shape of an id.
pub ghost enum IdData {
    Str(Seq<char>),
    Int(int),
}

impl View for Id {
    type V = IdData;

    open spec fn view(&self) -> IdData {
        match *self {
            Id::Str(s) => IdData::Str(s@),
            Id::Int(i) => IdData::Int(i as int),
        }
    }
}

/// The error member of a response: a code, a message, and optional data.
#[derive(Debug, PartialEq, Eq)]
pub struct RpcError {
    pub code: i32,
    pub message: String,
    pub data: Option<JsonValue>,
}

/// The mathematical shape of a response error.
pub ghost struct RpcErrorData {
    pub code: int,
    pub message: Seq<char>,
    pub data: Option<JsonData>,
}

/// The view of an optional JSON document.
pub open spec fn spec_opt_json(o: Option<JsonValue>) -> Option<JsonData> {
    match o {
        Some(v) => Some(v@),
        None => None,
    }
}

impl View for RpcError {
    type V = RpcErrorData;

    open spec fn view(&self) -> RpcErrorData {
        RpcErrorData { code: self.code as int, message: self.message@, data: spec_opt_json(self.data) }
    }
}

/// A JSON-RPC message.
#[derive(Debug, PartialEq, Eq)]
pub enum Message {
    Notification { method: String, params: Option<JsonValue> },
    Request { id: Id, method: String, params: Option<JsonValue> },
    Response { id: Id, result: Option<JsonValue>, error: Option<RpcError> },
}

/// The mathematical shape of a message.
pub ghost enum MessageData {
    Notification { method: Seq<char>, params: Option<JsonData> },
    Request { id: IdData, method: Seq<char>, params: Option<JsonData> },
    Response { id: IdData, result: Option<JsonData>, error: Option<RpcErrorData> },
}

impl View for Message {
    type V = MessageData;

    open spec fn view(&self) -> MessageData {
        match *self {
            Message::Notification { method, params } => MessageData::Notification {
                method: method@,
                params: spec_opt_json(params),
            },
            Message::Request { id, method, params } => MessageData::Request {
                id: id@,
                method: method@,
                params: spec_opt_json(params),
            },
            Message::Response { id, result, error } => MessageData::Response {
                id: id@,
                result: spec_opt_json(result),
                error: match error {
                    Some(e) => Some(e@),
                    None => None,
                },
            },
        }
    }
}

/// Why a document or line failed to decode: the document has none of the
/// three shapes, a payload was expected and missing, or the text was not
/// valid JSON.
#[derive(Clone, Copy, Debug, PartialEq, Eq, Structural)]
pub enum RpcDeserializationError {
    WrongRpcType,
    NoValue,
    JsonError,
}

// ---------------------------------------------------------------------------
// Decoding
// ---------------------------------------------------------------------------
/// An id decodes from a string or from an integer that fits in `i32`.
pub open spec fn spec_decode_id(v: JsonData) -> Option<IdData> {
    match v {
        JsonData::Str(s) => Some(IdData::Str(s)),
        JsonData::Int(i) => if i32::MIN <= i <= i32::MAX {
            Some(IdData::Int(i))
        } else {
            None
        },
        _ => None,
    }
}

/// A response error decodes from an object with an integer `code` and a
/// string `message`; `data` is free-form and optional.
pub open spec fn spec_decode_error(v: JsonData) -> Option<RpcErrorData> {
    if v is Obj {
        let fields = v.spec_fields();
        match (spec_obj_field(fields, "code"@), spec_obj_field(fields, "message"@)) {
            (Some(JsonData::Int(c)), Some(JsonData::Str(m))) => if i32::MIN <= c <= i32::MAX {
                Some(RpcErrorData { code: c, message: m, data: spec_obj_field(fields, "data"@) })
            } else {
                None
            },
            _ => None,
        }
    } else {
        None
    }
}

/// Every message carries the protocol tag: a `jsonrpc` key bound to a string.
pub open spec fn spec_has_version_tag(fields: Seq<(Seq<char>, JsonData)>) -> bool {
    spec_obj_field(fields, "jsonrpc"@) matches Some(JsonData::Str(_))
}

/// Shape discrimination over the fields of a decoded object: `method` and
/// `id` present make a request, `method` alone a notification, `id` alone a
/// response holding exactly one of `result` and `error`. Anything else is the
/// wrong shape.
pub open spec fn spec_decode_fields(fields: Seq<(Seq<char>, JsonData)>) -> Result<
    MessageData,
    RpcDeserializationError,
> {
    let method = spec_obj_field(fields, "method"@);
    let id = spec_obj_field(fields, "id"@);
    if method is Some && id is Some {
        match (method->Some_0, spec_decode_id(id->Some_0)) {
            (JsonData::Str(m), Some(i)) => Ok(
                MessageData::Request { id: i, method: m, params: spec_obj_field(fields, "params"@) },
            ),
            _ => Err(RpcDeserializationError::WrongRpcType),
        }
    } else if method is Some {
        match method->Some_0 {
            JsonData::Str(m) => Ok(
                MessageData::Notification { method: m, params: spec_obj_field(fields, "params"@) },
            ),
            _ => Err(RpcDeserializationError::WrongRpcType),
        }
    } else if id is Some {
        match spec_decode_id(id->Some_0) {
            Some(i) => {
                let result = spec_obj_field(fields, "result"@);
                let error = spec_obj_field(fields, "error"@);
                if result is Some && error is None {
                    Ok(MessageData::Response { id: i, result, error: None })
                } else if result is None && error is Some {
                    match spec_decode_error(error->Some_0) {
                        Some(e) => Ok(
                            MessageData::Response { id: i, result: None, error: Some(e) },
                        ),
                        None => Err(RpcDeserializationError::WrongRpcType),
                    }
                } else {
                    Err(RpcDeserializationError::WrongRpcType)
                }
            },
            None => Err(RpcDeserializationError::WrongRpcType),
        }
    } else {
        Err(RpcDeserializationError::WrongRpcType)
    }
}

/// What a JSON document decodes to: a message of one of the three shapes, or
/// the wrong shape. Only objects tagged `jsonrpc` decode.
pub open spec fn spec_decode(j: JsonData) -> Result<MessageData, RpcDeserializationError> {
    if j is Obj && spec_has_version_tag(j.spec_fields()) {
        spec_decode_fields(j.spec_fields())
    } else {
        Err(RpcDeserializationError::WrongRpcType)
    }
}

/// Discrimination is total: a JSON document either decodes to exactly one of
/// the three shapes or fails with the wrong-shape error; no other error can
/// come out of shape discrimination.
pub proof fn lemma_discrimination_total(j: JsonData)
    ensures
        spec_decode(j) matches Ok(_) || spec_decode(j) == Err::<
            MessageData,
            RpcDeserializationError,
        >(RpcDeserializationError::WrongRpcType),
{
}

impl Id {
    /// Decodes an id from a document.
    pub fn from_json(v: &JsonValue) -> (r: Option<Id>)
        ensures
            match r {
                Some(i) => spec_decode_id(v@) == Some(i@),
                None => spec_decode_id(v@) is None,
            },
    {
        match v {
            JsonValue::Str(s) => Some(Id::Str(s.clone())),
            JsonValue::Int(i) => {
                let x: i64 = *i;
                if i32::MIN as i64 <= x && x <= i32::MAX as i64 {
                    Some(Id::Int(x as i32))
                } else {
                    None
                }
            },
            _ => None,
        }
    }
}

impl RpcError {
    /// Decodes a response error from a document.
    pub fn from_json(v: &JsonValue) -> (r: Option<RpcError>)
        ensures
            match r {
                Some(e) => spec_decode_error(v@) == Some(e@),
                None => spec_decode_error(v@) is None,
            },
    {
        match v {
            JsonValue::Obj(fields) => {
                proof {
                    assert(*v == JsonValue::Obj(*fields));
                }
                let code: i32 = match obj_field(fields, "code") {
                    Some(JsonValue::Int(c)) => {
                        let x: i64 = *c;
                        if i32::MIN as i64 <= x && x <= i32::MAX as i64 {
                            x as i32
                        } else {
                            return None;
                        }
                    },
                    _ => {
                        return None;
                    },
                };
                let message: String = match obj_field(fields, "message") {
                    Some(JsonValue::Str(m)) => m.clone(),
                    _ => {
                        return None;
                    },
                };
                let data: Option<JsonValue> = match obj_field(fields, "data") {
                    Some(d) => Some(clone_json(d)),
                    None => None,
                };
                Some(RpcError { code, message, data })
            },
            _ => None,
        }
    }
}

impl Message {
    /// Decodes a message from a JSON document, by shape discrimination.
    pub fn from_json(j: &JsonValue) -> (r: Result<Message, RpcDeserializationError>)
        ensures
            match r {
                Ok(m) => spec_decode(j@) == Ok::<MessageData, RpcDeserializationError>(m@),
                Err(e) => spec_decode(j@) == Err::<MessageData, RpcDeserializationError>(e),
            },
    {
        let fields = match j {
            JsonValue::Obj(fields) => fields,
            _ => {
                return Err(RpcDeserializationError::WrongRpcType);
            },
        };
        proof {
            assert(*j == JsonValue::Obj(*fields));
        }
        match obj_field(fields, "jsonrpc") {
            Some(JsonValue::Str(_)) => (),
            _ => {
                return Err(RpcDeserializationError::WrongRpcType);
            },
        }
        let method: Option<String> = match obj_field(fields, "method") {
            Some(JsonValue::Str(m)) => Some(m.clone()),
            Some(_) => {
                return Err(RpcDeserializationError::WrongRpcType);
            },
            None => None,
        };
        let id_field = obj_field(fields, "id");
        match (method, id_field) {
            (Some(m), Some(idv)) => {
                match Id::from_json(idv) {
                    Some(id) => {
                        let params = match obj_field(fields, "params") {
                            Some(p) => Some(clone_json(p)),
                            None => None,
                        };
                        Ok(Message::Request { id, method: m, params })
                    },
                    None => Err(RpcDeserializationError::WrongRpcType),
                }
            },
            (Some(m), None) => {
                let params = match obj_field(fields, "params") {
                    Some(p) => Some(clone_json(p)),
                    None => None,
                };
                Ok(Message::Notification { method: m, params })
            },
            (None, Some(idv)) => {
                match Id::from_json(idv) {
                    Some(id) => {
                        let result = obj_field(fields, "result");
                        let error = obj_field(fields, "error");
                        match (result, error) {
                            (Some(rv), None) => Ok(
                                Message::Response {
                                    id,
                                    result: Some(clone_json(rv)),
                                    error: None,
                                },
                            ),
                            (None, Some(ev)) => {
                                match RpcError::from_json(ev) {
                                    Some(e) => Ok(
                                        Message::Response { id, result: None, error: Some(e) },
                                    ),
                                    None => Err(RpcDeserializationError::WrongRpcType),
                                }
                            },
                            _ => Err(RpcDeserializationError::WrongRpcType),
                        }
                    },
                    None => Err(RpcDeserializationError::WrongRpcType),
                }
            },
            (None, None) => Err(RpcDeserializationError::WrongRpcType),
        }
    }
}

} // verus!

verus! {

// ---------------------------------------------------------------------------
// Encoding
// ---------------------------------------------------------------------------
/// One field when the value is present, no field when it is absent.
pub open spec fn spec_opt_field(key: Seq<char>, v: Option<JsonData>) -> Seq<(Seq<char>, JsonData)> {
    match v {
        Some(x) => seq![(key, x)],
        None => Seq::empty(),
    }
}

pub open spec fn spec_encode_id(id: IdData) -> JsonData {
    match id {
        IdData::Str(s) => JsonData::Str(s),
        IdData::Int(i) => JsonData::Int(i),
    }
}

/// A response error encodes as an object with `code` and `message`, plus
/// `data` when present.
pub open spec fn spec_encode_error(e: RpcErrorData) -> JsonData {
    JsonData::Obj(
        seq![("code"@, JsonData::Int(e.code)), ("message"@, JsonData::Str(e.message))]
            + spec_opt_field("data"@, e.data),
    )
}

/// The document a message encodes to: always tagged `jsonrpc: "2.0"`, with
/// absent optional fields omitted.
pub open spec fn spec_encode(m: MessageData) -> JsonData {
    match m {
        MessageData::Notification { method, params } => JsonData::Obj(
            seq![("jsonrpc"@, JsonData::Str("2.0"@)), ("method"@, JsonData::Str(method))]
                + spec_opt_field("params"@, params),
        ),
        MessageData::Request { id, method, params } => JsonData::Obj(
            seq![
                ("jsonrpc"@, JsonData::Str("2.0"@)),
                ("id"@, spec_encode_id(id)),
                ("method"@, JsonData::Str(method)),
            ] + spec_opt_field("params"@, params),
        ),
        MessageData::Response { id, result, error } => JsonData::Obj(
            seq![("jsonrpc"@, JsonData::Str("2.0"@)), ("id"@, spec_encode_id(id))]
                + spec_opt_field("result"@, result)
                + match error {
                Some(e) => seq![("error"@, spec_encode_error(e))],
                None => Seq::<(Seq<char>, JsonData)>::empty(),
            },
        ),
    }
}

impl Id {
    /// The document this id encodes to.
    pub fn to_json(&self) -> (r: JsonValue)
        ensures
            r@ == spec_encode_id(self@),
    {
        match self {
            Id::Str(s) => JsonValue::Str(s.clone()),
            Id::Int(i) => JsonValue::Int(*i as i64),
        }
    }
}

impl RpcError {
    /// The document this error encodes to.
    pub fn to_json(&self) -> (r: JsonValue)
        ensures
            r@ == spec_encode_error(self@),
    {
        broadcast use lemma_json_view_fields;

        let mut fields: Vec<(String, JsonValue)> = Vec::new();
        fields.push((String::from_str("code"), JsonValue::Int(self.code as i64)));
        fields.push((String::from_str("message"), JsonValue::Str(self.message.clone())));
        match &self.data {
            Some(d) => {
                fields.push((String::from_str("data"), clone_json(d)));
            },
            None => (),
        }
        proof {
            assert(json_view_fields(fields@) =~= spec_encode_error(self@).spec_fields());
        }
        JsonValue::Obj(fields)
    }
}

impl Message {
    /// The document this message encodes to.
    pub fn to_json(&self) -> (r: JsonValue)
        ensures
            r@ == spec_encode(self@),
    {
        broadcast use lemma_json_view_fields;

        let mut fields: Vec<(String, JsonValue)> = Vec::new();
        fields.push((String::from_str("jsonrpc"), JsonValue::Str(String::from_str("2.0"))));
        match self {
            Message::Notification { method, params } => {
                fields.push((String::from_str("method"), JsonValue::Str(method.clone())));
                match params {
                    Some(p) => {
                        fields.push((String::from_str("params"), clone_json(p)));
                    },
                    None => (),
                }
            },
            Message::Request { id, method, params } => {
                fields.push((String::from_str("id"), id.to_json()));
                fields.push((String::from_str("method"), JsonValue::Str(method.clone())));
                match params {
                    Some(p) => {
                        fields.push((String::from_str("params"), clone_json(p)));
                    },
                    None => (),
                }
            },
            Message::Response { id, result, error } => {
                fields.push((String::from_str("id"), id.to_json()));
                match result {
                    Some(v) => {
                        fields.push((String::from_str("result"), clone_json(v)));
                    },
                    None => (),
                }
                match error {
                    Some(e) => {
                        fields.push((String::from_str("error"), e.to_json()));
                    },
                    None => (),
                }
            },
        }
        proof {
            assert(json_view_fields(fields@) =~= spec_encode(self@).spec_fields());
        }
        JsonValue::Obj(fields)
    }

    /// The JSON text this message encodes to: one line holding no newline,
    /// absent fields omitted, so that appending one newline frames it.
    pub fn encode(&self) -> (r: String)
        ensures
            r@ == json_text_of(spec_encode(self@)),
            forall|i: int| 0 <= i < r@.len() ==> r@[i] != '\n',
    {
        let doc = self.to_json();
        json_to_text(&doc)
    }
}

} // verus!

verus! {

// ---------------------------------------------------------------------------
// Constructors and accessors
// ---------------------------------------------------------------------------
impl Message {
    /// A notification: a method and no id.
    pub fn notification(method: &str, params: Option<JsonValue>) -> (r: Message)
        ensures
            r@ == (MessageData::Notification { method: method@, params: spec_opt_json(params) }),
    {
        Message::Notification { method: method.to_owned(), params }
    }

    /// A request: a method and an id.
    pub fn request(id: Id, method: &str, params: Option<JsonValue>) -> (r: Message)
        ensures
            r@ == (MessageData::Request {
                id: id@,
                method: method@,
                params: spec_opt_json(params),
            }),
    {
        Message::Request { id, method: method.to_owned(), params }
    }

    /// A response: an id and a result or an error.
    pub fn response(id: Id, result: Option<JsonValue>, error: Option<RpcError>) -> (r: Message)
        ensures
            r@ == (MessageData::Response {
                id: id@,
                result: spec_opt_json(result),
                error: match error {
                    Some(e) => Some(e@),
                    None => None,
                },
            }),
    {
        Message::Response { id, result, error }
    }

    /// The method of a notification or request; a response has none.
    pub fn method(&self) -> (r: Option<&str>)
        ensures
            match r {
                Some(s) => spec_method(self@) == Some(s@),
                None => spec_method(self@) is None,
            },
    {
        match self {
            Message::Notification { method, .. } => Some(method.as_str()),
            Message::Request { method, .. } => Some(method.as_str()),
            Message::Response { .. } => None,
        }
    }
}

/// The method of a notification or request; a response has none.
pub open spec fn spec_method(m: MessageData) -> Option<Seq<char>> {
    match m {
        MessageData::Notification { method, .. } => Some(method),
        MessageData::Request { method, .. } => Some(method),
        MessageData::Response { .. } => None,
    }
}

// ---------------------------------------------------------------------------
// Well-formed messages and the codec round trip
// ---------------------------------------------------------------------------
/// An id the codec can carry: integer ids fit in `i32`.
pub open spec fn spec_id_wf(id: IdData) -> bool {
    match id {
        IdData::Str(_) => true,
        IdData::Int(i) => i32::MIN <= i <= i32::MAX,
    }
}

/// An error the codec can carry: the code fits in `i32`, and `data`, when
/// present, is not the bare `null` (which encodes the same as absence).
pub open spec fn spec_error_wf(e: RpcErrorData) -> bool {
    &&& i32::MIN <= e.code <= i32::MAX
    &&& e.data != Some(JsonData::Null)
}

/// A message the codec carries faithfully: ids and codes in range, optional
/// payloads not the bare `null`, and a response holding exactly one of a
/// result and an error.
pub open spec fn spec_msg_wf(m: MessageData) -> bool {
    match m {
        MessageData::Notification { method, params } => params != Some(JsonData::Null),
        MessageData::Request { id, method, params } => spec_id_wf(id) && params != Some(
            JsonData::Null,
        ),
        MessageData::Response { id, result, error } => {
            &&& spec_id_wf(id)
            &&& (result is Some) != (error is Some)
            &&& result != Some(JsonData::Null)
            &&& match error {
                Some(e) => spec_error_wf(e),
                None => true,
            }
        },
    }
}

/// The names of the six protocol keys differ pairwise.
proof fn lemma_keys_distinct()
    ensures
        "jsonrpc"@ != "method"@,
        "jsonrpc"@ != "id"@,
        "jsonrpc"@ != "params"@,
        "jsonrpc"@ != "result"@,
        "jsonrpc"@ != "error"@,
        "method"@ != "id"@,
        "method"@ != "params"@,
        "method"@ != "result"@,
        "method"@ != "error"@,
        "id"@ != "params"@,
        "id"@ != "result"@,
        "id"@ != "error"@,
        "params"@ != "result"@,
        "params"@ != "error"@,
        "result"@ != "error"@,
        "code"@ != "message"@,
        "code"@ != "data"@,
        "message"@ != "data"@,
{
    reveal_strlit("jsonrpc");
    reveal_strlit("method");
    reveal_strlit("id");
    reveal_strlit("params");
    reveal_strlit("result");
    reveal_strlit("error");
    reveal_strlit("code");
    reveal_strlit("message");
    reveal_strlit("data");
    assert("jsonrpc"@.len() == 7);
    assert("method"@.len() == 6);
    assert("id"@.len() == 2);
    assert("params"@.len() == 6);
    assert("result"@.len() == 6);
    assert("error"@.len() == 5);
    assert("code"@.len() == 4);
    assert("message"@.len() == 7);
    assert("data"@.len() == 4);
    assert("jsonrpc"@[0] != "method"@[0]);
    assert("jsonrpc"@[0] != "message"@[0]);
    assert("method"@[0] != "params"@[0]);
    assert("method"@[0] != "result"@[0]);
    assert("params"@[0] != "result"@[0]);
    assert("code"@[0] != "data"@[0]);
}

/// Looks up each protocol key in the field list an encoded message carries.
proof fn lemma_encode_lookups(m: MessageData)
    requires
        spec_msg_wf(m),
    ensures
        spec_encode(m) is Obj,
        spec_has_version_tag(spec_encode(m).spec_fields()),
        spec_obj_field(spec_encode(m).spec_fields(), "method"@) == match spec_method(m) {
            Some(s) => Some(JsonData::Str(s)),
            None => None,
        },
        spec_obj_field(spec_encode(m).spec_fields(), "id"@) == match m {
            MessageData::Notification { .. } => None::<JsonData>,
            MessageData::Request { id, .. } => Some(spec_encode_id(id)),
            MessageData::Response { id, .. } => Some(spec_encode_id(id)),
        },
        spec_obj_field(spec_encode(m).spec_fields(), "params"@) == match m {
            MessageData::Notification { params, .. } => params,
            MessageData::Request { params, .. } => params,
            MessageData::Response { .. } => None::<JsonData>,
        },
        spec_obj_field(spec_encode(m).spec_fields(), "result"@) == match m {
            MessageData::Response { result, .. } => result,
            _ => None::<JsonData>,
        },
        spec_obj_field(spec_encode(m).spec_fields(), "error"@) == match m {
            MessageData::Response { error: Some(e), .. } => Some(spec_encode_error(e)),
            _ => None::<JsonData>,
        },
{
    lemma_keys_distinct();
    reveal_with_fuel(crate::json::spec_obj_lookup, 6);
    let fields = spec_encode(m).spec_fields();
    match m {
        MessageData::Notification { method, params } => {
            let base = seq![
                ("jsonrpc"@, JsonData::Str("2.0"@)),
                ("method"@, JsonData::Str(method)),
            ];
            assert(fields =~= base + spec_opt_field("params"@, params));
            assert(fields[0] == ("jsonrpc"@, JsonData::Str("2.0"@)));
            assert(fields.drop_first()[0] == ("method"@, JsonData::Str(method)));
            if params is Some {
                assert(fields.drop_first().drop_first() =~= seq![("params"@, params->Some_0)]);
            } else {
                assert(fields.drop_first().drop_first() =~= Seq::<(Seq<char>, JsonData)>::empty());
            }
        },
        MessageData::Request { id, method, params } => {
            let base = seq![
                ("jsonrpc"@, JsonData::Str("2.0"@)),
                ("id"@, spec_encode_id(id)),
                ("method"@, JsonData::Str(method)),
            ];
            assert(fields =~= base + spec_opt_field("params"@, params));
            assert(fields[0] == ("jsonrpc"@, JsonData::Str("2.0"@)));
            assert(fields.drop_first()[0] == ("id"@, spec_encode_id(id)));
            assert(fields.drop_first().drop_first()[0] == ("method"@, JsonData::Str(method)));
            if params is Some {
                assert(fields.drop_first().drop_first().drop_first() =~= seq![
                    ("params"@, params->Some_0),
                ]);
            } else {
                assert(fields.drop_first().drop_first().drop_first() =~= Seq::<
                    (Seq<char>, JsonData),
                >::empty());
            }
            assert(spec_encode_id(id) is Str || spec_encode_id(id) is Int);
        },
        MessageData::Response { id, result, error } => {
            let base = seq![("jsonrpc"@, JsonData::Str("2.0"@)), ("id"@, spec_encode_id(id))];
            let res_part = spec_opt_field("result"@, result);
            let err_part = match error {
                Some(e) => seq![("error"@, spec_encode_error(e))],
                None => Seq::<(Seq<char>, JsonData)>::empty(),
            };
            assert(fields =~= base + res_part + err_part);
            assert(fields[0] == ("jsonrpc"@, JsonData::Str("2.0"@)));
            assert(fields.drop_first()[0] == ("id"@, spec_encode_id(id)));
            assert(spec_encode_id(id) is Str || spec_encode_id(id) is Int);
            if result is Some {
                assert(fields.drop_first().drop_first() =~= seq![("result"@, result->Some_0)]);
            } else if error is Some {
                assert(fields.drop_first().drop_first() =~= seq![
                    ("error"@, spec_encode_error(error->Some_0)),
                ]);
            } else {
                assert(fields.drop_first().drop_first() =~= Seq::<(Seq<char>, JsonData)>::empty());
            }
        },
    }
}

/// The codec round trip: a well-formed message decodes from its own encoding,
/// field order and absent-versus-null distinctions aside.
pub proof fn lemma_codec_round_trip(m: MessageData)
    requires
        spec_msg_wf(m),
    ensures
        spec_decode(spec_encode(m)) == Ok::<MessageData, RpcDeserializationError>(m),
{
    lemma_keys_distinct();
    lemma_encode_lookups(m);
    reveal_with_fuel(crate::json::spec_obj_lookup, 6);
    match m {
        MessageData::Notification { method, params } => {
        },
        MessageData::Request { id, method, params } => {
            assert(spec_decode_id(spec_encode_id(id)) == Some(id));
        },
        MessageData::Response { id, result, error } => {
            assert(spec_decode_id(spec_encode_id(id)) == Some(id));
            match error {
                Some(e) => {
                    let efields = spec_encode_error(e).spec_fields();
                    assert(efields =~= seq![
                        ("code"@, JsonData::Int(e.code)),
                        ("message"@, JsonData::Str(e.message)),
                    ] + spec_opt_field("data"@, e.data));
                    assert(efields[0] == ("code"@, JsonData::Int(e.code)));
                    assert(efields.drop_first()[0] == ("message"@, JsonData::Str(e.message)));
                    if e.data is Some {
                        assert(efields.drop_first().drop_first() =~= seq![
                            ("data"@, e.data->Some_0),
                        ]);
                    } else {
                        assert(efields.drop_first().drop_first() =~= Seq::<
                            (Seq<char>, JsonData),
                        >::empty());
                    }
                    assert(spec_decode_error(spec_encode_error(e)) == Some(e));
                },
                None => {
                },
            }
        },
    }
}

/// Everything the decoder accepts is well-formed: in particular a decoded
/// response holds exactly one of a result and an error, ids and codes fit
/// their ranges, and no optional payload is the bare `null`. With the round
/// trip above, encoding and decoding lose nothing on this fragment.
pub proof fn lemma_decode_wf(j: JsonData)
    ensures
        spec_decode(j) matches Ok(m) ==> spec_msg_wf(m),
{
}

// ---------------------------------------------------------------------------
// Line decoding
// ---------------------------------------------------------------------------
/// A line of nothing but spaces and tabs carries no message.
pub open spec fn spec_is_blank(s: Seq<char>) -> bool {
    forall|i: int| 0 <= i < s.len() ==> s[i] == ' ' || s[i] == '\t' || s[i] == '\r'
}

/// Whether a line is blank.
pub fn is_blank(line: &str) -> (r: bool)
    ensures
        r == spec_is_blank(line@),
{
    let n = line.unicode_len();
    let mut i: usize = 0;
    while i < n
        invariant
            n == line@.len(),
            0 <= i <= n,
            forall|j: int| 0 <= j < i ==> line@[j] == ' ' || line@[j] == '\t' || line@[j] == '\r',
        decreases n - i,
    {
        let c = line.get_char(i);
        if !(c == ' ' || c == '\t' || c == '\r') {
            return false;
        }
        i = i + 1;
    }
    true
}

/// Decodes one line from a plugin or for a plugin: a blank line carries no
/// message, a line that is not JSON is a parse error, and a parsed document
/// goes through shape discrimination.
pub fn decode_line(line: &str) -> (r: Option<Result<Message, RpcDeserializationError>>)
    ensures
        (r is None) == spec_is_blank(line@),
        !spec_is_blank(line@) && json_parse(line@) is None ==> r == Some(
            Err::<Message, RpcDeserializationError>(RpcDeserializationError::JsonError),
        ),
        !spec_is_blank(line@) && json_parse(line@) is Some ==> match r {
            Some(Ok(m)) => spec_decode(json_parse(line@)->Some_0) == Ok::<
                MessageData,
                RpcDeserializationError,
            >(m@),
            Some(Err(e)) => spec_decode(json_parse(line@)->Some_0) == Err::<
                MessageData,
                RpcDeserializationError,
            >(e),
            None => false,
        },
{
    if is_blank(line) {
        return None;
    }
    match parse_json(line) {
        Some(doc) => Some(Message::from_json(&doc)),
        None => Some(Err(RpcDeserializationError::JsonError)),
    }
}

} // verus!
