//! The supervisor: the coordinator state that ties the pieces together.
//!
//! It owns the match engine, one slot per plugin (with the queue of lines
//! bound for that plugin's stdin), and the queue of lines bound for the
//! game server's stdin. The surrounding process pumps real stdio into and
//! out of these queues; every decision — what a game-server line means,
//! what a plugin's message asks for, and who receives a notification — is
//! made here and verified.

use vstd::prelude::*;

use crate::engine::CompletionData;
use crate::engine::MatchEngine;
use crate::engine::spec_step;
use crate::json::json_parse;
use crate::json::json_text_of;
use crate::logline::parse_log_line;
use crate::logline::spec_parse_log_line;
use crate::matchers::MatchError;
use crate::matchers::Matcher;
use crate::matchers::MatcherKind;
use crate::matchers::completion_message;
use crate::matchers::spec_completion_message;
use crate::payloads::LogPayload;
use crate::plugins::PluginAction;
use crate::plugins::PluginActionData;
use crate::plugins::dispatch_message;
use crate::plugins::spec_dispatch;
use crate::plugins::strings_view;
use crate::rpc::Message;
use crate::rpc::MessageData;
use crate::rpc::decode_line;
use crate::rpc::spec_decode;
use crate::rpc::spec_encode;
use crate::rpc::spec_is_blank;

verus! {

/// One plugin's slot: its name, whether its process still runs, and the
/// lines queued for its stdin.
#[derive(Debug)]
pub struct PluginSlot {
    pub name: String,
    pub alive: bool,
    pub outbox: Vec<String>,
}

/// The views of a list of bus entries: a notification's view, or the match
/// error unchanged.
pub open spec fn results_view(s: Seq<Result<Message, MatchError>>) -> Seq<
    Result<MessageData, MatchError>,
> {
    s.map_values(
        |r: Result<Message, MatchError>|
            match r {
                Ok(m) => Ok(m@),
                Err(e) => Err(e),
            },
    )
}

/// The supervisor state: the engine, the plugin slots, and the queue of
/// lines bound for the game server's stdin.
pub struct Supervisor {
    pub engine: MatchEngine,
    pub plugins: Vec<PluginSlot>,
    pub game_stdin: Vec<String>,
}

/// What one line from a plugin asks the supervisor to do: a blank line,
/// text that is not JSON, a document of the wrong shape, and an unknown or
/// malformed request all ask for nothing.
pub open spec fn spec_line_action(line: Seq<char>) -> PluginActionData {
    if spec_is_blank(line) {
        PluginActionData::Ignore
    } else {
        match json_parse(line) {
            None => PluginActionData::Ignore,
            Some(j) => match spec_decode(j) {
                Ok(m) => spec_dispatch(m),
                Err(_) => PluginActionData::Ignore,
            },
        }
    }
}

/// What a batch of completions puts on the event bus, in order: one entry
/// per completion, either its notification or the match error that kept one
/// from being built (a missing group, a bad UUID).
pub open spec fn spec_bus_results(comps: Seq<CompletionData>) -> Seq<
    Result<MessageData, MatchError>,
> {
    Seq::new(comps.len(), |i: int| spec_completion_message(comps[i].kind, comps[i].captures))
}

impl Supervisor {
    /// The engine is sound.
    pub open spec fn wf(self) -> bool {
        self.engine.wf()
    }

    /// A supervisor with the built-in recognizers, no plugins, and empty
    /// queues.
    pub fn new() -> (r: Supervisor)
        ensures
            r.wf(),
            r.plugins@.len() == 0,
            r.game_stdin@.len() == 0,
            r.engine.matchers@.len() == 2,
            r.engine.insts().len() == 0,
    {
        Supervisor {
            engine: MatchEngine::with_builtins(),
            plugins: Vec::new(),
            game_stdin: Vec::new(),
        }
    }

    /// Adds a live plugin slot with an empty outbox; its position names the
    /// plugin from here on.
    pub fn add_plugin(&mut self, name: String) -> (idx: usize)
        requires
            old(self).wf(),
        ensures
            final(self).wf(),
            idx == old(self).plugins@.len(),
            final(self).plugins@.len() == old(self).plugins@.len() + 1,
            forall|i: int|
                0 <= i < old(self).plugins@.len() ==> final(self).plugins@[i] == old(
                    self,
                ).plugins@[i],
            final(self).plugins@[idx as int].name == name,
            final(self).plugins@[idx as int].alive == true,
            final(self).plugins@[idx as int].outbox@.len() == 0,
            final(self).engine == old(self).engine,
            final(self).game_stdin@ == old(self).game_stdin@,
    {
        let idx = self.plugins.len();
        self.plugins.push(PluginSlot { name, alive: true, outbox: Vec::new() });
        idx
    }

    /// Marks a plugin's slot dead: its child exited or was torn down. Its
    /// queue stays as it was; nothing more will be added to it.
    pub fn plugin_exited(&mut self, idx: usize)
        requires
            old(self).wf(),
            idx < old(self).plugins@.len(),
        ensures
            final(self).wf(),
            final(self).plugins@.len() == old(self).plugins@.len(),
            forall|i: int|
                0 <= i < old(self).plugins@.len() && i != idx ==> final(self).plugins@[i] == old(
                    self,
                ).plugins@[i],
            final(self).plugins@[idx as int].alive == false,
            final(self).plugins@[idx as int].name == old(self).plugins@[idx as int].name,
            final(self).plugins@[idx as int].outbox@ == old(self).plugins@[idx as int].outbox@,
            final(self).engine == old(self).engine,
            final(self).game_stdin@ == old(self).game_stdin@,
    {
        let mut slot = self.plugins.remove(idx);
        slot.alive = false;
        self.plugins.insert(idx, slot);
        proof {
            assert(final(self).plugins@ =~= old(self).plugins@.update(
                idx as int,
                final(self).plugins@[idx as int],
            ));
        }
    }

    /// Broadcast fan-out: the line is enqueued to every live plugin exactly
    /// once — appended once to each live plugin's outbox — while dead
    /// plugins' queues, the engine and the game queue stay untouched.
    pub fn publish_line(&mut self, line: &String)
        requires
            old(self).wf(),
        ensures
            final(self).wf(),
            final(self).plugins@.len() == old(self).plugins@.len(),
            forall|i: int|
                0 <= i < old(self).plugins@.len() ==> {
                    let pre = old(self).plugins@[i];
                    let post = #[trigger] final(self).plugins@[i];
                    &&& post.name == pre.name
                    &&& post.alive == pre.alive
                    &&& (pre.alive ==> post.outbox@ == pre.outbox@ + seq![*line])
                    &&& (!pre.alive ==> post.outbox@ == pre.outbox@)
                },
            final(self).engine == old(self).engine,
            final(self).game_stdin@ == old(self).game_stdin@,
    {
        let n = self.plugins.len();
        let mut i: usize = 0;
        while i < n
            invariant
                old(self).wf(),
                n == old(self).plugins@.len(),
                0 <= i <= n,
                self.plugins@.len() == n,
                self.engine == old(self).engine,
                self.game_stdin@ == old(self).game_stdin@,
                forall|k: int| i <= k < n ==> self.plugins@[k] == old(self).plugins@[k],
                forall|k: int|
                    0 <= k < i ==> {
                        let pre = old(self).plugins@[k];
                        let post = #[trigger] self.plugins@[k];
                        &&& post.name == pre.name
                        &&& post.alive == pre.alive
                        &&& (pre.alive ==> post.outbox@ == pre.outbox@ + seq![*line])
                        &&& (!pre.alive ==> post.outbox@ == pre.outbox@)
                    },
            decreases n - i,
        {
            let mut slot = self.plugins.remove(i);
            if slot.alive {
                slot.outbox.push(line.clone());
            }
            self.plugins.insert(i, slot);
            i = i + 1;
        }
    }

    /// Encodes a notification and broadcasts it: every live plugin's outbox
    /// grows by exactly the message's one-line JSON text.
    pub fn publish_message(&mut self, m: &Message)
        requires
            old(self).wf(),
        ensures
            final(self).wf(),
            final(self).plugins@.len() == old(self).plugins@.len(),
            forall|i: int|
                0 <= i < old(self).plugins@.len() ==> {
                    let pre = old(self).plugins@[i];
                    let post = #[trigger] final(self).plugins@[i];
                    &&& post.name == pre.name
                    &&& post.alive == pre.alive
                    &&& (pre.alive ==> post.outbox@.len() == pre.outbox@.len() + 1
                        && post.outbox@.take(pre.outbox@.len() as int) == pre.outbox@
                        && post.outbox@.last()@ == json_text_of(spec_encode(m@)))
                    &&& (!pre.alive ==> post.outbox@ == pre.outbox@)
                },
            final(self).engine == old(self).engine,
            final(self).game_stdin@ == old(self).game_stdin@,
    {
        let line = m.encode();
        self.publish_line(&line);
        proof {
            assert forall|i: int| 0 <= i < old(self).plugins@.len() && old(
                self,
            ).plugins@[i].alive implies final(self).plugins@[i].outbox@.take(
                old(self).plugins@[i].outbox@.len() as int,
            ) == old(self).plugins@[i].outbox@ by {
                assert(final(self).plugins@[i].outbox@.take(
                    old(self).plugins@[i].outbox@.len() as int,
                ) =~= old(self).plugins@[i].outbox@);
            }
        }
    }

    /// Hands over everything queued for one plugin's stdin, leaving its
    /// queue empty.
    pub fn take_outbox(&mut self, idx: usize) -> (r: Vec<String>)
        requires
            old(self).wf(),
            idx < old(self).plugins@.len(),
        ensures
            final(self).wf(),
            r@ == old(self).plugins@[idx as int].outbox@,
            final(self).plugins@.len() == old(self).plugins@.len(),
            forall|i: int|
                0 <= i < old(self).plugins@.len() && i != idx ==> final(self).plugins@[i] == old(
                    self,
                ).plugins@[i],
            final(self).plugins@[idx as int].name == old(self).plugins@[idx as int].name,
            final(self).plugins@[idx as int].alive == old(self).plugins@[idx as int].alive,
            final(self).plugins@[idx as int].outbox@.len() == 0,
            final(self).engine == old(self).engine,
            final(self).game_stdin@ == old(self).game_stdin@,
    {
        let mut slot = self.plugins.remove(idx);
        let mut out: Vec<String> = Vec::new();
        core::mem::swap(&mut slot.outbox, &mut out);
        self.plugins.insert(idx, slot);
        proof {
            assert(final(self).plugins@ =~= old(self).plugins@.update(
                idx as int,
                final(self).plugins@[idx as int],
            ));
        }
        out
    }

    /// Hands over everything queued for the game server's stdin, leaving
    /// the queue empty.
    pub fn take_game_stdin(&mut self) -> (r: Vec<String>)
        requires
            old(self).wf(),
        ensures
            final(self).wf(),
            r@ == old(self).game_stdin@,
            final(self).game_stdin@.len() == 0,
            final(self).plugins@ == old(self).plugins@,
            final(self).engine == old(self).engine,
    {
        let mut out: Vec<String> = Vec::new();
        core::mem::swap(&mut self.game_stdin, &mut out);
        out
    }

    /// Routes one line a plugin wrote to its stdout, for the plugin in slot
    /// `plugin`: a log request is handed back for the caller to emit; a
    /// game command joins the game queue; a matcher registration joins the
    /// engine's registry, owned by that slot; everything else — blank
    /// lines, text that is not JSON, wrong shapes, unknown methods — is
    /// dropped and changes nothing.
    pub fn handle_plugin_line(&mut self, plugin: usize, line: &str) -> (r: Option<LogPayload>)
        requires
            old(self).wf(),
        ensures
            final(self).wf(),
            final(self).plugins@ == old(self).plugins@,
            ({
                let act = spec_line_action(line@);
                match act {
                    PluginActionData::Log(p) => {
                        &&& (r matches Some(lp) && lp@ == p)
                        &&& final(self).engine == old(self).engine
                        &&& final(self).game_stdin@ == old(self).game_stdin@
                    },
                    PluginActionData::GameCommand(c) => {
                        &&& r is None
                        &&& final(self).engine == old(self).engine
                        &&& strings_view(final(self).game_stdin@) == strings_view(
                            old(self).game_stdin@,
                        ) + seq![c]
                    },
                    PluginActionData::RegisterMatcher { regexes, timeout_ms } => {
                        &&& r is None
                        &&& final(self).game_stdin@ == old(self).game_stdin@
                        &&& final(self).engine.instances@ == old(self).engine.instances@
                        &&& final(self).engine.matchers@.len() == old(
                            self,
                        ).engine.matchers@.len() + 1
                        &&& final(self).engine.matchers@.take(
                            old(self).engine.matchers@.len() as int,
                        ) == old(self).engine.matchers@
                        &&& ({
                            let m = final(self).engine.matchers@.last();
                            &&& m.kind == (MatcherKind::Plugin { plugin })
                            &&& strings_view(m.regexes@) == regexes
                            &&& m.timeout_ms == timeout_ms
                        })
                    },
                    PluginActionData::Ignore => {
                        &&& r is None
                        &&& final(self).engine == old(self).engine
                        &&& final(self).game_stdin@ == old(self).game_stdin@
                    },
                }
            }),
    {
        let msg = match decode_line(line) {
            Some(Ok(msg)) => msg,
            _ => {
                return None;
            },
        };
        match dispatch_message(&msg) {
            PluginAction::Log(p) => Some(p),
            PluginAction::GameCommand(c) => {
                self.game_stdin.push(c);
                proof {
                    assert(strings_view(final(self).game_stdin@) =~= strings_view(
                        old(self).game_stdin@,
                    ) + seq![spec_line_action(line@)->GameCommand_0]);
                }
                None
            },
            PluginAction::RegisterMatcher { regexes, timeout_ms } => {
                proof {
                    crate::plugins::lemma_register_action_nonempty(msg@);
                    assert(strings_view(regexes@).len() == regexes@.len());
                }
                let m = Matcher { kind: MatcherKind::Plugin { plugin }, regexes, timeout_ms };
                self.engine.register_matcher(m);
                proof {
                    assert(final(self).engine.matchers@.take(
                        old(self).engine.matchers@.len() as int,
                    ) =~= old(self).engine.matchers@);
                }
                None
            },
            PluginAction::Ignore => None,
        }
    }

    /// Runs one line of game-server output through the parser and the
    /// engine, returning what its completions put on the event bus, in
    /// order: each entry is a notification to broadcast, or the match error
    /// the caller surfaces loudly in its place. A line without the record
    /// shape changes nothing.
    pub fn handle_game_line(&mut self, line: &str, now_ms: u64) -> (bus: Vec<
        Result<Message, MatchError>,
    >)
        requires
            old(self).wf(),
        ensures
            final(self).wf(),
            final(self).plugins@ == old(self).plugins@,
            final(self).game_stdin@ == old(self).game_stdin@,
            final(self).engine.matchers@ == old(self).engine.matchers@,
            match spec_parse_log_line(line@) {
                None => {
                    &&& final(self).engine == old(self).engine
                    &&& bus@.len() == 0
                },
                Some(rec) => {
                    let step = spec_step(
                        old(self).engine.insts(),
                        old(self).engine.matchers@,
                        rec.index as i32,
                        rec.body,
                        now_ms,
                    );
                    &&& final(self).engine.insts() == step.0
                    &&& results_view(bus@) == spec_bus_results(step.1)
                },
            },
    {
        let rec = match parse_log_line(line) {
            Some(rec) => rec,
            None => {
                return Vec::new();
            },
        };
        let comps = self.engine.process_record(rec.index, rec.body.as_str(), now_ms);
        let ghost cv = crate::engine::comps_view(comps@);
        let mut bus: Vec<Result<Message, MatchError>> = Vec::new();
        let mut i: usize = 0;
        while i < comps.len()
            invariant
                cv == crate::engine::comps_view(comps@),
                cv.len() == comps@.len(),
                0 <= i <= comps@.len(),
                results_view(bus@).len() == i,
                forall|k: int|
                    0 <= k < i ==> #[trigger] results_view(bus@)[k] == spec_completion_message(
                        cv[k].kind,
                        cv[k].captures,
                    ),
            decreases comps@.len() - i,
        {
            let ghost pre = bus@;
            let r = completion_message(&comps[i]);
            bus.push(r);
            proof {
                assert(bus@ =~= pre + seq![r]);
                assert(results_view(bus@)[i as int] == spec_completion_message(
                    cv[i as int].kind,
                    cv[i as int].captures,
                ));
                assert(forall|k: int|
                    0 <= k < i ==> #[trigger] results_view(bus@)[k] == results_view(pre)[k]);
            }
            i = i + 1;
        }
        proof {
            assert(results_view(bus@) =~= spec_bus_results(cv));
        }
        bus
    }
}

} // verus!
