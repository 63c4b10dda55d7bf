//! Plugin manifests and the dispatch of plugin-emitted messages.
//!
//! A plugin lives in its own directory with a `plugin.toml` manifest naming
//! it and its executable. At runtime a plugin talks to the supervisor in
//! JSON-RPC notifications; the dispatch table below maps each notification
//! to the supervisory action it asks for: relaying a log line, sending a
//! chat broadcast or a raw line to the game server's stdin, or registering
//! a matcher. Anything else is ignored, so that newer plugins stay
//! compatible with older supervisors.

use vstd::prelude::*;

use crate::json::JsonData;
use crate::json::JsonValue;
use crate::json::obj_field;
use crate::json::spec_obj_field;
use crate::payloads::LogPayload;
use crate::payloads::LogPayloadData;
use crate::payloads::spec_log_payload_of;
use crate::rpc::Message;
use crate::rpc::MessageData;
use crate::strutil::str_eq;

verus! {

/// A plugin's manifest: who it is, and which executable in its directory to
/// run.
#[derive(Debug)]
pub struct Plugin {
    name: String,
    author: String,
    description: String,
    target: String,
}

/// The mathematical shape of a manifest.
pub ghost struct PluginData {
    pub name: Seq<char>,
    pub author: Seq<char>,
    pub description: Seq<char>,
    pub target: Seq<char>,
}

impl View for Plugin {
    type V = PluginData;

    closed spec fn view(&self) -> PluginData {
        PluginData {
            name: self.name@,
            author: self.author@,
            description: self.description@,
            target: self.target@,
        }
    }
}

/// The manifest a field list denotes: a missing target defaults to
/// `plugin`.
pub open spec fn spec_plugin(
    name: Seq<char>,
    author: Seq<char>,
    description: Seq<char>,
    target: Option<Seq<char>>,
) -> PluginData {
    PluginData {
        name,
        author,
        description,
        target: match target {
            Some(t) => t,
            None => "plugin"@,
        },
    }
}

impl Plugin {
    /// A manifest from its fields; a missing target defaults to `plugin`.
    pub fn new(name: String, author: String, description: String, target: Option<String>) -> (r:
        Plugin)
        ensures
            r@ == spec_plugin(
                name@,
                author@,
                description@,
                match target {
                    Some(t) => Some(t@),
                    None => None,
                },
            ),
    {
        let target = match target {
            Some(t) => t,
            None => Plugin::default_target(),
        };
        Plugin { name, author, description, target }
    }

    /// The executable name a manifest gets when it names none.
    pub fn default_target() -> (r: String)
        ensures
            r@ == "plugin"@,
    {
        String::from_str("plugin")
    }

    /// The plugin's name.
    pub fn name(&self) -> (r: &str)
        ensures
            r@ == self@.name,
    {
        self.name.as_str()
    }

    /// The plugin's author.
    pub fn author(&self) -> (r: &str)
        ensures
            r@ == self@.author,
    {
        self.author.as_str()
    }

    /// The plugin's description.
    pub fn description(&self) -> (r: &str)
        ensures
            r@ == self@.description,
    {
        self.description.as_str()
    }

    /// The executable within the plugin's directory.
    pub fn target(&self) -> (r: &str)
        ensures
            r@ == self@.target,
    {
        self.target.as_str()
    }
}

/// A discovered plugin: its manifest and the directory it was found in.
#[derive(Debug)]
pub struct PluginConfig {
    plugin: Plugin,
    path: Option<String>,
}

impl PluginConfig {
    /// The manifest, in the model.
    pub closed spec fn plugin_view(&self) -> PluginData {
        self.plugin@
    }

    /// The directory, in the model.
    pub closed spec fn path_view(&self) -> Option<Seq<char>> {
        match self.path {
            Some(p) => Some(p@),
            None => None,
        }
    }

    /// A configuration from a manifest and the directory it came from.
    pub fn new(plugin: Plugin, path: Option<String>) -> (r: PluginConfig)
        ensures
            r.plugin_view() == plugin@,
            r.path_view() == match path {
                Some(p) => Some(p@),
                None => None::<Seq<char>>,
            },
    {
        PluginConfig { plugin, path }
    }

    /// The manifest.
    pub fn plugin(&self) -> (r: &Plugin)
        ensures
            r@ == self.plugin_view(),
    {
        &self.plugin
    }

    /// The directory the plugin was found in, if known.
    pub fn path(&self) -> (r: &Option<String>)
        ensures
            match r {
                Some(p) => self.path_view() == Some(p@),
                None => self.path_view() is None,
            },
    {
        &self.path
    }
}

// ---------------------------------------------------------------------------
// Manifest parsing, behind a trusted wrapper
// ---------------------------------------------------------------------------
/// The fields the TOML reader finds in a manifest text: the `[plugin]`
/// table's `name`, `author` and `description` (required strings) and
/// `target` (an optional string); nothing when the text is not TOML, a
/// required key is missing or not a string, or a present `target` is not a
/// string.
pub uninterp spec fn manifest_fields(s: Seq<char>) -> Option<
    (String, String, String, Option<String>),
>;

/// Relies on toml::from_str::<toml::Value>, Value::get and Value::as_str:
/// reads the `[plugin]` table of a manifest text. The outcome is a function
/// of the text alone.
#[verifier::external_body]
fn read_manifest_fields(s: &str) -> (r: Option<(String, String, String, Option<String>)>)
    ensures
        match r {
            Some(f) => manifest_fields(s@) == Some(f),
            None => manifest_fields(s@) is None,
        },
{
    let v: toml::Value = match toml::from_str(s) {
        Ok(v) => v,
        Err(_) => return None,
    };
    let t = v.get("plugin")?;
    let name = t.get("name")?.as_str()?.to_string();
    let author = t.get("author")?.as_str()?.to_string();
    let description = t.get("description")?.as_str()?.to_string();
    let target = match t.get("target") {
        None => None,
        Some(x) => Some(x.as_str()?.to_string()),
    };
    Some((name, author, description, target))
}

/// The manifest a text denotes: the fields the TOML reader finds, with a
/// missing `target` defaulted.
pub open spec fn spec_manifest(s: Seq<char>) -> Option<PluginData> {
    match manifest_fields(s) {
        None => None,
        Some(f) => Some(
            spec_plugin(
                f.0@,
                f.1@,
                f.2@,
                match f.3 {
                    Some(t) => Some(t@),
                    None => None,
                },
            ),
        ),
    }
}

/// Parses a manifest text; a manifest missing a required field, or not TOML
/// at all, yields nothing and is skipped by discovery.
pub fn parse_manifest(s: &str) -> (r: Option<Plugin>)
    ensures
        match r {
            Some(p) => spec_manifest(s@) == Some(p@),
            None => spec_manifest(s@) is None,
        },
{
    match read_manifest_fields(s) {
        Some((name, author, description, target)) => Some(
            Plugin::new(name, author, description, target),
        ),
        None => None,
    }
}

// ---------------------------------------------------------------------------
// Dispatch of plugin-emitted messages
// ---------------------------------------------------------------------------
/// What the supervisor does with one message a plugin sent: relay a log
/// line, send a line to the game server's stdin, register a matcher, or
/// nothing.
#[derive(Debug)]
pub enum PluginAction {
    Log(LogPayload),
    GameCommand(String),
    RegisterMatcher { regexes: Vec<String>, timeout_ms: u64 },
    Ignore,
}

/// The mathematical shape of a plugin action.
pub ghost enum PluginActionData {
    Log(LogPayloadData),
    GameCommand(Seq<char>),
    RegisterMatcher { regexes: Seq<Seq<char>>, timeout_ms: u64 },
    Ignore,
}

/// The views of a list of strings.
pub open spec fn strings_view(s: Seq<String>) -> Seq<Seq<char>> {
    s.map_values(|x: String| x@)
}

impl View for PluginAction {
    type V = PluginActionData;

    open spec fn view(&self) -> PluginActionData {
        match *self {
            PluginAction::Log(p) => PluginActionData::Log(p@),
            PluginAction::GameCommand(s) => PluginActionData::GameCommand(s@),
            PluginAction::RegisterMatcher { regexes, timeout_ms } => {
                PluginActionData::RegisterMatcher { regexes: strings_view(regexes@), timeout_ms }
            },
            PluginAction::Ignore => PluginActionData::Ignore,
        }
    }
}

/// What a `register_matcher` notification's params ask for: an object with
/// a non-empty `regexes` array of strings and a non-negative integer
/// `timeout_ms`. Any other shape is ignored.
pub open spec fn spec_register_action(params: Option<JsonData>) -> PluginActionData {
    match params {
        Some(p) => if p is Obj {
            match (
                spec_obj_field(p.spec_fields(), "regexes"@),
                spec_obj_field(p.spec_fields(), "timeout_ms"@),
            ) {
                (Some(JsonData::Arr(rs)), Some(JsonData::Int(t))) => {
                    if 1 <= rs.len() && (forall|i: int| 0 <= i < rs.len() ==> rs[i] is Str) && 0
                        <= t <= u64::MAX {
                        PluginActionData::RegisterMatcher {
                            regexes: rs.map_values(|v: JsonData| v->Str_0),
                            timeout_ms: t as u64,
                        }
                    } else {
                        PluginActionData::Ignore
                    }
                },
                _ => PluginActionData::Ignore,
            }
        } else {
            PluginActionData::Ignore
        },
        None => PluginActionData::Ignore,
    }
}

/// The dispatch table, plugin to supervisor: `log` relays a log payload,
/// `broadcast` sends `Chat.Broadcast <text>` to the game server, `writeln`
/// sends its text verbatim, `register_matcher` registers a matcher. Only
/// notifications act; unknown methods and malformed params are ignored.
pub open spec fn spec_dispatch(m: MessageData) -> PluginActionData {
    match m {
        MessageData::Notification { method, params } => {
            if method == "log"@ {
                match spec_log_payload_of(m) {
                    Ok(p) => PluginActionData::Log(p),
                    Err(_) => PluginActionData::Ignore,
                }
            } else if method == "broadcast"@ {
                match params {
                    Some(JsonData::Str(t)) => PluginActionData::GameCommand("Chat.Broadcast "@ + t),
                    _ => PluginActionData::Ignore,
                }
            } else if method == "writeln"@ {
                match params {
                    Some(JsonData::Str(t)) => PluginActionData::GameCommand(t),
                    _ => PluginActionData::Ignore,
                }
            } else if method == "register_matcher"@ {
                spec_register_action(params)
            } else {
                PluginActionData::Ignore
            }
        },
        _ => PluginActionData::Ignore,
    }
}

/// A dispatch that asks to register a matcher carries at least one pattern.
pub proof fn lemma_register_action_nonempty(m: MessageData)
    ensures
        spec_dispatch(m) matches PluginActionData::RegisterMatcher { regexes, .. } ==> 1
            <= regexes.len(),
{
}

/// Reads a `register_matcher` params object into an action.
#[verifier::loop_isolation(false)]
fn register_action(params: &Option<JsonValue>) -> (r: PluginAction)
    ensures
        r@ == spec_register_action(crate::rpc::spec_opt_json(*params)),
{
    let p = match params {
        Some(p) => p,
        None => {
            return PluginAction::Ignore;
        },
    };
    let fields = match p {
        JsonValue::Obj(fields) => fields,
        _ => {
            return PluginAction::Ignore;
        },
    };
    proof {
        assert(*p == JsonValue::Obj(*fields));
    }
    let rs = match obj_field(fields, "regexes") {
        Some(JsonValue::Arr(rs)) => rs,
        _ => {
            return PluginAction::Ignore;
        },
    };
    let timeout_ms: u64 = match obj_field(fields, "timeout_ms") {
        Some(JsonValue::Int(t)) => {
            if *t >= 0 {
                *t as u64
            } else {
                return PluginAction::Ignore;
            }
        },
        _ => {
            return PluginAction::Ignore;
        },
    };
    let ghost grs = match spec_obj_field(p@.spec_fields(), "regexes"@) {
        Some(JsonData::Arr(v)) => v,
        _ => Seq::empty(),
    };
    proof {
        crate::json::lemma_json_view_seq(rs@);
        assert(grs =~= crate::json::json_view_seq(rs@));
    }
    if rs.len() == 0 {
        return PluginAction::Ignore;
    }
    let mut regexes: Vec<String> = Vec::new();
    let mut i: usize = 0;
    while i < rs.len()
        invariant
            grs =~= crate::json::json_view_seq(rs@),
            grs.len() == rs@.len(),
            0 <= i <= rs@.len(),
            regexes@.len() == i,
            forall|j: int| 0 <= j < i ==> #[trigger] grs[j] is Str,
            forall|j: int| 0 <= j < i ==> #[trigger] regexes@[j]@ == grs[j]->Str_0,
        decreases rs@.len() - i,
    {
        proof {
            crate::json::lemma_json_view_seq(rs@);
        }
        let x = &rs[i];
        match x {
            JsonValue::Str(s) => {
                regexes.push(s.clone());
            },
            _ => {
                proof {
                    assert(rs@[i as int] == *x);
                    assert(grs[i as int] == crate::json::json_view(*x));
                    assert(!(grs[i as int] is Str));
                }
                return PluginAction::Ignore;
            },
        }
        i = i + 1;
    }
    proof {
        assert(strings_view(regexes@) =~= grs.map_values(|v: JsonData| v->Str_0));
    }
    PluginAction::RegisterMatcher { regexes, timeout_ms }
}

/// Maps one plugin-emitted message to the supervisory action it asks for.
pub fn dispatch_message(m: &Message) -> (r: PluginAction)
    ensures
        r@ == spec_dispatch(m@),
{
    let (method, params) = match m {
        Message::Notification { method, params } => (method, params),
        _ => {
            return PluginAction::Ignore;
        },
    };
    if str_eq(method.as_str(), "log") {
        match LogPayload::try_from_message(m) {
            Ok(p) => PluginAction::Log(p),
            Err(_) => PluginAction::Ignore,
        }
    } else if str_eq(method.as_str(), "broadcast") {
        match params {
            Some(JsonValue::Str(t)) => PluginAction::GameCommand(
                String::from_str("Chat.Broadcast ").concat(t.as_str()),
            ),
            _ => PluginAction::Ignore,
        }
    } else if str_eq(method.as_str(), "writeln") {
        match params {
            Some(JsonValue::Str(t)) => PluginAction::GameCommand(t.clone()),
            _ => PluginAction::Ignore,
        }
    } else if str_eq(method.as_str(), "register_matcher") {
        register_action(params)
    } else {
        PluginAction::Ignore
    }
}

} // verus!

verus! {

/// The notification a plugin writes to ask for a chat broadcast; the
/// supervisor answers it with `Chat.Broadcast <content>` on the game
/// server's stdin.
pub fn broadcast_notification(content: &str) -> (r: Message)
    ensures
        r@ == (MessageData::Notification {
            method: "broadcast"@,
            params: Some(JsonData::Str(content@)),
        }),
{
    Message::notification("broadcast", Some(JsonValue::Str(content.to_owned())))
}

/// The notification a plugin writes to put a line on the game server's
/// stdin verbatim.
pub fn writeln_notification(line: &str) -> (r: Message)
    ensures
        r@ == (MessageData::Notification {
            method: "writeln"@,
            params: Some(JsonData::Str(line@)),
        }),
{
    Message::notification("writeln", Some(JsonValue::Str(line.to_owned())))
}

/// Round trip across the plugin boundary: a broadcast request dispatches to
/// exactly the game command `Chat.Broadcast <content>`.
pub proof fn lemma_broadcast_round_trip(content: Seq<char>)
    ensures
        spec_dispatch(
            MessageData::Notification { method: "broadcast"@, params: Some(JsonData::Str(content)) },
        ) == PluginActionData::GameCommand("Chat.Broadcast "@ + content),
{
    reveal_strlit("log");
    reveal_strlit("broadcast");
    assert("log"@.len() == 3 && "broadcast"@.len() == 9);
}

/// Round trip across the plugin boundary: a writeln request dispatches to
/// exactly its own line as a game command.
pub proof fn lemma_writeln_round_trip(line: Seq<char>)
    ensures
        spec_dispatch(
            MessageData::Notification { method: "writeln"@, params: Some(JsonData::Str(line)) },
        ) == PluginActionData::GameCommand(line),
{
    reveal_strlit("log");
    reveal_strlit("broadcast");
    reveal_strlit("writeln");
    assert("log"@.len() == 3 && "broadcast"@.len() == 9 && "writeln"@.len() == 7);
}

/// Round trip across the plugin boundary: a log payload's own notification
/// dispatches to exactly a relay of that payload.
pub proof fn lemma_log_round_trip(p: LogPayloadData)
    ensures
        spec_dispatch(crate::payloads::spec_log_message(p)) == PluginActionData::Log(p),
{
    LogPayload::lemma_round_trip(p);
}

} // verus!
