//! Recognizers over the game-server log stream.
//!
//! A matcher is an ordered, non-empty list of regular-expression patterns
//! with an owner: the built-in chat and connect recognizers feed the event
//! bus, and plugin-registered matchers hand their captures back to plugins.
//! Matching itself is done by the `regex` crate behind a trusted wrapper;
//! everything around it — capture bookkeeping, instance advancement, and the
//! notifications a completion becomes — is verified.

use vstd::prelude::*;

use crate::json::JsonData;
use crate::json::JsonValue;
use crate::json::json_view_fields;
use crate::json::json_view_seq;
use crate::json::lemma_json_view_fields;
use crate::json::lemma_json_view_seq;
use crate::payloads::ChatPayload;
use crate::payloads::ChatPayloadData;
use crate::payloads::spec_chat_message;
use crate::rpc::Message;
use crate::rpc::MessageData;
use crate::strutil::str_eq;

verus! {

// ---------------------------------------------------------------------------
// Regular-expression matching, behind a trusted wrapper
// ---------------------------------------------------------------------------
/// What running a pattern over a text yields: the named capture groups of
/// the leftmost match, in group order, or nothing when the text does not
/// match (or the pattern does not compile).
pub uninterp spec fn regex_match(pattern: Seq<char>, text: Seq<char>) -> Option<
    Seq<(String, String)>,
>;

/// Relies on regex::Regex::new, Regex::captures and Captures::name: compiles
/// the pattern, runs it over the text, and collects the named groups that
/// participated in the leftmost match. The outcome is a function of the
/// pattern and the text alone; a pattern that does not compile matches
/// nothing.
#[verifier::external_body]
pub fn regex_captures(pattern: &str, text: &str) -> (r: Option<Vec<(String, String)>>)
    ensures
        match r {
            Some(v) => regex_match(pattern@, text@) == Some(v@),
            None => regex_match(pattern@, text@) is None,
        },
{
    let re = match regex::Regex::new(pattern) {
        Ok(re) => re,
        Err(_) => return None,
    };
    let caps = re.captures(text)?;
    let mut out: Vec<(String, String)> = Vec::new();
    for name in re.capture_names().flatten() {
        if let Some(m) = caps.name(name) {
            out.push((name.to_string(), m.as_str().to_string()));
        }
    }
    Some(out)
}

// ---------------------------------------------------------------------------
// Captures
// ---------------------------------------------------------------------------
/// The first value bound to a group name in one capture map.
pub open spec fn spec_group_lookup(m: Seq<(String, String)>, key: Seq<char>) -> Option<String>
    decreases m.len(),
{
    if m.len() == 0 {
        None
    } else if m[0].0@ == key {
        Some(m[0].1)
    } else {
        spec_group_lookup(m.drop_first(), key)
    }
}

/// The capture maps a matcher instance has accumulated, one per regex
/// position, each mapping group names to the text they captured.
#[derive(Debug)]
pub struct RegexCaptures {
    vec: Vec<Vec<(String, String)>>,
}

impl View for RegexCaptures {
    type V = Seq<Seq<(String, String)>>;

    closed spec fn view(&self) -> Seq<Seq<(String, String)>> {
        self.vec@.map_values(|m: Vec<(String, String)>| m@)
    }
}

/// The value of group `key` in the capture map at position `ind`.
pub open spec fn spec_captures_at(
    c: Seq<Seq<(String, String)>>,
    ind: int,
    key: Seq<char>,
) -> Option<String> {
    if 0 <= ind < c.len() {
        spec_group_lookup(c[ind], key)
    } else {
        None
    }
}

impl RegexCaptures {
    /// Captures from the given maps, in order.
    pub fn new(vec: Vec<Vec<(String, String)>>) -> (r: RegexCaptures)
        ensures
            r@.len() == vec@.len(),
            forall|i: int| 0 <= i < vec@.len() ==> r@[i] == #[trigger] vec@[i]@,
    {
        RegexCaptures { vec }
    }

    /// The value of group `key` in the map at position `ind`, if any.
    pub fn at(&self, ind: usize, key: &str) -> (r: Option<&str>)
        ensures
            match r {
                Some(s) => spec_captures_at(self@, ind as int, key@) matches Some(t) && t@ == s@,
                None => spec_captures_at(self@, ind as int, key@) is None,
            },
    {
        if ind >= self.vec.len() {
            return None;
        }
        let m = &self.vec[ind];
        let ghost gm = self@[ind as int];
        proof {
            assert(gm.skip(0) =~= gm);
        }
        let mut j: usize = 0;
        while j < m.len()
            invariant
                ind < self@.len(),
                gm == self@[ind as int],
                gm == m@,
                0 <= j <= m@.len(),
                spec_group_lookup(gm.skip(j as int), key@) == spec_group_lookup(gm, key@),
            decreases m@.len() - j,
        {
            proof {
                assert(gm.skip(j as int).drop_first() =~= gm.skip(j + 1));
                assert(gm.skip(j as int)[0] == gm[j as int]);
            }
            if str_eq(m[j].0.as_str(), key) {
                return Some(m[j].1.as_str());
            }
            j = j + 1;
        }
        proof {
            assert(gm.skip(0) =~= gm);
        }
        None
    }

    /// Appends one capture map.
    pub fn push(&mut self, map: Vec<(String, String)>)
        ensures
            final(self)@ == old(self)@ + seq![map@],
    {
        self.vec.push(map);
        proof {
            assert(final(self)@ =~= old(self)@ + seq![map@]);
        }
    }

    /// How many capture maps have accumulated.
    pub fn len(&self) -> (r: usize)
        ensures
            r == self@.len(),
    {
        self.vec.len()
    }
}

// ---------------------------------------------------------------------------
// Matchers
// ---------------------------------------------------------------------------
/// Who owns a matcher: a built-in recognizer feeding the event bus, or a
/// plugin (by slot) that registered it and receives the captures.
#[derive(Clone, Copy, Debug, PartialEq, Eq, Structural)]
pub enum MatcherKind {
    Chat,
    Connect,
    Plugin { plugin: usize },
}

/// A recognizer: once its first pattern matches a record, each further
/// pattern is expected in turn on records from the same emitter.
#[derive(Debug)]
pub struct Matcher {
    pub kind: MatcherKind,
    pub regexes: Vec<String>,
    pub timeout_ms: u64,
}

impl Matcher {
    /// A matcher holds at least one pattern.
    pub open spec fn wf(self) -> bool {
        1 <= self.regexes@.len()
    }
}

/// A completed match, ready for delivery: who owned the matcher, and the
/// captures of each of its patterns.
#[derive(Debug)]
pub struct Completion {
    pub kind: MatcherKind,
    pub captures: RegexCaptures,
}

/// The chat pattern: one line of the form `LogChat: <user>: <message>`.
pub open spec fn spec_chat_pattern() -> Seq<char> {
    "LogChat: (?P<user>[^:]+): (?P<message>.*)$"@
}

/// The connect patterns: four consecutive lines of an authentication
/// exchange, at one emitter index.
pub open spec fn spec_connect_pattern(i: int) -> Seq<char> {
    if i == 0 {
        "^LogServerList: Auth payload valid\\. Result:$"@
    } else if i == 1 {
        "^LogServerList: UserName: (?P<user>.+)$"@
    } else if i == 2 {
        "^LogServerList: UserId: (?P<id>.+)$"@
    } else {
        "^LogServerList: HandleId: (?P<handle>.+)$"@
    }
}

/// The default lifetime of a partially-completed built-in match.
pub open spec fn spec_builtin_timeout_ms() -> u64 {
    1000
}

/// The built-in chat recognizer.
pub fn chat_matcher() -> (r: Matcher)
    ensures
        r.kind == MatcherKind::Chat,
        r.regexes@.len() == 1,
        r.regexes@[0]@ == spec_chat_pattern(),
        r.timeout_ms == spec_builtin_timeout_ms(),
        r.wf(),
{
    let mut regexes: Vec<String> = Vec::new();
    regexes.push(String::from_str("LogChat: (?P<user>[^:]+): (?P<message>.*)$"));
    Matcher { kind: MatcherKind::Chat, regexes, timeout_ms: 1000 }
}

/// The built-in connect recognizer.
pub fn connect_matcher() -> (r: Matcher)
    ensures
        r.kind == MatcherKind::Connect,
        r.regexes@.len() == 4,
        forall|i: int| 0 <= i < 4 ==> #[trigger] r.regexes@[i]@ == spec_connect_pattern(i),
        r.timeout_ms == spec_builtin_timeout_ms(),
        r.wf(),
{
    let mut regexes: Vec<String> = Vec::new();
    regexes.push(String::from_str("^LogServerList: Auth payload valid\\. Result:$"));
    regexes.push(String::from_str("^LogServerList: UserName: (?P<user>.+)$"));
    regexes.push(String::from_str("^LogServerList: UserId: (?P<id>.+)$"));
    regexes.push(String::from_str("^LogServerList: HandleId: (?P<handle>.+)$"));
    Matcher { kind: MatcherKind::Connect, regexes, timeout_ms: 1000 }
}

// ---------------------------------------------------------------------------
// UUIDs, behind a trusted wrapper
// ---------------------------------------------------------------------------
/// The canonical lowercase hyphenated form of the UUID a text denotes, or
/// nothing when the text is no UUID.
pub uninterp spec fn uuid_normal(s: Seq<char>) -> Option<Seq<char>>;

/// Relies on uuid::Uuid::parse_str and the crate's hyphenated formatting.
/// The outcome is a function of the text alone.
#[verifier::external_body]
pub fn normalize_uuid(s: &str) -> (r: Option<String>)
    ensures
        match r {
            Some(u) => uuid_normal(s@) == Some(u@),
            None => uuid_normal(s@) is None,
        },
{
    match uuid::Uuid::parse_str(s) {
        Ok(u) => Some(u.hyphenated().to_string()),
        Err(_) => None,
    }
}

/// A player recognized by the connect matcher: the name and the normalized
/// UUID the log lines carried.
#[derive(Debug)]
pub struct Player {
    pub name: String,
    pub uuid: String,
}

// ---------------------------------------------------------------------------
// What a completion becomes
// ---------------------------------------------------------------------------
/// The params of a connect notification: the player's name and UUID.
pub open spec fn spec_connect_params(name: Seq<char>, uuid: Seq<char>) -> JsonData {
    JsonData::Obj(seq![("name"@, JsonData::Str(name)), ("uuid"@, JsonData::Str(uuid))])
}

impl Player {
    /// The params object a connect notification carries this player in.
    pub fn to_params(&self) -> (r: JsonValue)
        ensures
            r@ == spec_connect_params(self.name@, self.uuid@),
    {
        let mut fields: Vec<(String, JsonValue)> = Vec::new();
        fields.push((String::from_str("name"), JsonValue::Str(self.name.clone())));
        fields.push((String::from_str("uuid"), JsonValue::Str(self.uuid.clone())));
        proof {
            lemma_json_view_fields(fields@);
            assert(json_view_fields(fields@) =~= spec_connect_params(
                self.name@,
                self.uuid@,
            ).spec_fields());
        }
        JsonValue::Obj(fields)
    }
}

/// Why a completed match could not build its notification: a required
/// capture group did not take part in the match, or the connect UUID did
/// not parse. These indicate a matcher bug rather than a runtime condition;
/// the event is not emitted, and the error is handed to the caller so the
/// failure is loud rather than silent.
#[derive(Clone, Copy, Debug, PartialEq, Eq, Structural)]
pub enum MatchError {
    MissingGroup,
    BadUuid,
}

/// The chat notification a completed chat match emits: groups `user` and
/// `message` of its single capture map. A match missing either group is a
/// match error; no notification is emitted for it.
pub open spec fn spec_chat_completion(c: Seq<Seq<(String, String)>>) -> Result<
    MessageData,
    MatchError,
> {
    match (spec_captures_at(c, 0, "user"@), spec_captures_at(c, 0, "message"@)) {
        (Some(u), Some(m)) => Ok(spec_chat_message(ChatPayloadData { user: u@, message: m@ })),
        _ => Err(MatchError::MissingGroup),
    }
}

/// The connect notification a completed connect match emits: the name from
/// the second line and the UUID from the third, normalized. A match whose
/// UUID does not parse, or whose groups are missing, is a match error; no
/// notification is emitted for it.
pub open spec fn spec_connect_completion(c: Seq<Seq<(String, String)>>) -> Result<
    MessageData,
    MatchError,
> {
    match (spec_captures_at(c, 1, "user"@), spec_captures_at(c, 2, "id"@)) {
        (Some(n), Some(i)) => match uuid_normal(i@) {
            Some(u) => Ok(
                MessageData::Notification {
                    method: "connect"@,
                    params: Some(spec_connect_params(n@, u)),
                },
            ),
            None => Err(MatchError::BadUuid),
        },
        _ => Err(MatchError::MissingGroup),
    }
}

/// One capture map as a JSON object.
pub open spec fn spec_group_obj(m: Seq<(String, String)>) -> JsonData {
    JsonData::Obj(Seq::new(m.len(), |i: int| (m[i].0@, JsonData::Str(m[i].1@))))
}

/// All capture maps of a match as a JSON array, one object per pattern.
pub open spec fn spec_captures_params(c: Seq<Seq<(String, String)>>) -> JsonData {
    JsonData::Arr(Seq::new(c.len(), |i: int| spec_group_obj(c[i])))
}

/// The notification a completed plugin matcher emits: method `match`, the
/// captures as its params.
pub open spec fn spec_match_message(c: Seq<Seq<(String, String)>>) -> MessageData {
    MessageData::Notification { method: "match"@, params: Some(spec_captures_params(c)) }
}

/// What a completion puts on the event bus, by owner: its notification, or
/// the match error that kept one from being built.
pub open spec fn spec_completion_message(kind: MatcherKind, c: Seq<Seq<(String, String)>>) -> Result<
    MessageData,
    MatchError,
> {
    match kind {
        MatcherKind::Chat => spec_chat_completion(c),
        MatcherKind::Connect => spec_connect_completion(c),
        MatcherKind::Plugin { .. } => Ok(spec_match_message(c)),
    }
}

/// Builds the capture maps of a match as a JSON array of objects.
fn captures_to_json(c: &RegexCaptures) -> (r: JsonValue)
    ensures
        r@ == spec_captures_params(c@),
{
    let n = c.len();
    let mut arr: Vec<JsonValue> = Vec::new();
    let mut i: usize = 0;
    while i < n
        invariant
            n == c@.len(),
            0 <= i <= n,
            arr@.len() == i,
            forall|k: int| 0 <= k < i ==> #[trigger] arr@[k]@ == spec_group_obj(c@[k]),
        decreases n - i,
    {
        let m_len = c.group_count(i);
        let mut fields: Vec<(String, JsonValue)> = Vec::new();
        let mut j: usize = 0;
        while j < m_len
            invariant
                n == c@.len(),
                0 <= i < n,
                m_len == c@[i as int].len(),
                0 <= j <= m_len,
                fields@.len() == j,
                forall|k: int| 0 <= k < j ==> #[trigger] fields@[k].0@ == c@[i as int][k].0@,
                forall|k: int|
                    0 <= k < j ==> #[trigger] fields@[k].1@ == JsonData::Str(c@[i as int][k].1@),
            decreases m_len - j,
        {
            let (name, text) = c.group_pair(i, j);
            fields.push((name, JsonValue::Str(text)));
            j = j + 1;
        }
        proof {
            lemma_json_view_fields(fields@);
            let target = spec_group_obj(c@[i as int]).spec_fields();
            assert forall|k: int| 0 <= k < m_len implies json_view_fields(fields@)[k]
                == target[k] by {
                assert(fields@[k].0@ == c@[i as int][k].0@);
                assert(fields@[k].1@ == JsonData::Str(c@[i as int][k].1@));
            }
            assert(json_view_fields(fields@) =~= target);
        }
        arr.push(JsonValue::Obj(fields));
        i = i + 1;
    }
    proof {
        lemma_json_view_seq(arr@);
        let target = Seq::new(c@.len(), |k: int| spec_group_obj(c@[k]));
        assert forall|k: int| 0 <= k < c@.len() implies json_view_seq(arr@)[k] == target[k] by {
            assert(arr@[k]@ == spec_group_obj(c@[k]));
        }
        assert(json_view_seq(arr@) =~= target);
    }
    JsonValue::Arr(arr)
}

impl RegexCaptures {
    /// How many groups the capture map at `ind` holds.
    pub fn group_count(&self, ind: usize) -> (r: usize)
        requires
            ind < self@.len(),
        ensures
            r == self@[ind as int].len(),
    {
        self.vec[ind].len()
    }

    /// The group name and captured text at position `j` of the map at `ind`.
    pub fn group_pair(&self, ind: usize, j: usize) -> (r: (String, String))
        requires
            ind < self@.len(),
            j < self@[ind as int].len(),
        ensures
            r.0@ == self@[ind as int][j as int].0@,
            r.1@ == self@[ind as int][j as int].1@,
    {
        let p = &self.vec[ind][j];
        (p.0.clone(), p.1.clone())
    }
}

/// The notification a completion emits, or the match error it surfaces so
/// the caller can fail loudly instead of dropping the event in silence.
pub fn completion_message(c: &Completion) -> (r: Result<Message, MatchError>)
    ensures
        match r {
            Ok(m) => spec_completion_message(c.kind, c.captures@) == Ok::<MessageData, MatchError>(
                m@,
            ),
            Err(e) => spec_completion_message(c.kind, c.captures@) == Err::<
                MessageData,
                MatchError,
            >(e),
        },
{
    match c.kind {
        MatcherKind::Chat => {
            let user = match c.captures.at(0, "user") {
                Some(u) => u.to_owned(),
                None => {
                    return Err(MatchError::MissingGroup);
                },
            };
            let message = match c.captures.at(0, "message") {
                Some(m) => m.to_owned(),
                None => {
                    return Err(MatchError::MissingGroup);
                },
            };
            Ok(ChatPayload { user, message }.to_message())
        },
        MatcherKind::Connect => {
            let name = match c.captures.at(1, "user") {
                Some(n) => n.to_owned(),
                None => {
                    return Err(MatchError::MissingGroup);
                },
            };
            let id = match c.captures.at(2, "id") {
                Some(i) => i,
                None => {
                    return Err(MatchError::MissingGroup);
                },
            };
            let uuid = match normalize_uuid(id) {
                Some(u) => u,
                None => {
                    return Err(MatchError::BadUuid);
                },
            };
            let player = Player { name, uuid };
            Ok(Message::notification("connect", Some(player.to_params())))
        },
        MatcherKind::Plugin { .. } => {
            let params = captures_to_json(&c.captures);
            Ok(Message::notification("match", Some(params)))
        },
    }
}

} // verus!
