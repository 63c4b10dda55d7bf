//! The match engine: ordered matcher instances driven by the log stream.
//!
//! The engine holds a registry of matchers and a list of live instances, in
//! creation order. Each incoming record advances at most the first instance
//! whose timeout has not run out and whose emitter constraint and
//! next-expected pattern both fit; every registered matcher whose first
//! pattern fits seeds a new instance bound to the record's emitter; and
//! instances that have outlived their timeout are reaped. An expired
//! instance can neither advance nor complete: the record that finds it
//! expired reaps it. A completed instance leaves the active set at once and
//! yields a completion.

use vstd::prelude::*;

use crate::matchers::Completion;
use crate::matchers::Matcher;
use crate::matchers::RegexCaptures;
use crate::matchers::regex_captures;
use crate::matchers::regex_match;
use crate::matchers::chat_matcher;
use crate::matchers::connect_matcher;

verus! {

/// A partially-completed match: the matcher (by position in the registry),
/// the emitter constraint, the captures so far, and the liveness clock.
#[derive(Debug)]
pub struct MatcherInstance {
    pub index: Option<i32>,
    pub matcher_idx: usize,
    pub captures: RegexCaptures,
    pub last_progress: u64,
    pub timeout_ms: u64,
}

/// The mathematical shape of a matcher instance.
pub ghost struct InstanceData {
    pub index: Option<i32>,
    pub matcher_idx: int,
    pub captures: Seq<Seq<(String, String)>>,
    pub last_progress: u64,
    pub timeout_ms: u64,
}

impl View for MatcherInstance {
    type V = InstanceData;

    open spec fn view(&self) -> InstanceData {
        InstanceData {
            index: self.index,
            matcher_idx: self.matcher_idx as int,
            captures: self.captures@,
            last_progress: self.last_progress,
            timeout_ms: self.timeout_ms,
        }
    }
}

/// The mathematical shape of a completion.
pub ghost struct CompletionData {
    pub kind: crate::matchers::MatcherKind,
    pub captures: Seq<Seq<(String, String)>>,
}

impl View for Completion {
    type V = CompletionData;

    open spec fn view(&self) -> CompletionData {
        CompletionData { kind: self.kind, captures: self.captures@ }
    }
}

/// The views of a list of instances.
pub open spec fn insts_view(s: Seq<MatcherInstance>) -> Seq<InstanceData> {
    s.map_values(|i: MatcherInstance| i@)
}

/// The views of a list of completions.
pub open spec fn comps_view(s: Seq<Completion>) -> Seq<CompletionData> {
    s.map_values(|c: Completion| c@)
}

/// An instance is sound against a registry: it points into the registry and
/// still expects at least one more pattern.
pub open spec fn spec_inst_wf(inst: InstanceData, matchers: Seq<Matcher>) -> bool {
    &&& 0 <= inst.matcher_idx < matchers.len()
    &&& 1 <= inst.captures.len()
    &&& inst.captures.len() < matchers[inst.matcher_idx].regexes@.len()
}

/// The engine: the matcher registry and the live instances, oldest first.
pub struct MatchEngine {
    pub matchers: Vec<Matcher>,
    pub instances: Vec<MatcherInstance>,
}

impl MatchEngine {
    /// The views of the live instances.
    pub open spec fn insts(self) -> Seq<InstanceData> {
        insts_view(self.instances@)
    }

    /// Every matcher has a pattern and every instance is sound.
    pub open spec fn wf(self) -> bool {
        &&& forall|i: int| 0 <= i < self.matchers@.len() ==> (#[trigger] self.matchers@[i]).wf()
        &&& forall|i: int|
            0 <= i < self.insts().len() ==> spec_inst_wf(#[trigger] self.insts()[i], self.matchers@)
    }

    /// An engine with no matchers and no instances.
    pub fn new() -> (r: MatchEngine)
        ensures
            r.wf(),
            r.matchers@.len() == 0,
            r.insts().len() == 0,
    {
        MatchEngine { matchers: Vec::new(), instances: Vec::new() }
    }

    /// An engine holding the built-in chat and connect recognizers.
    pub fn with_builtins() -> (r: MatchEngine)
        ensures
            r.wf(),
            r.matchers@.len() == 2,
            r.matchers@[0].kind == crate::matchers::MatcherKind::Chat,
            r.matchers@[1].kind == crate::matchers::MatcherKind::Connect,
            r.insts().len() == 0,
    {
        let mut matchers: Vec<Matcher> = Vec::new();
        matchers.push(chat_matcher());
        matchers.push(connect_matcher());
        MatchEngine { matchers, instances: Vec::new() }
    }

    /// Adds a matcher to the registry; live instances are untouched.
    pub fn register_matcher(&mut self, m: Matcher)
        requires
            old(self).wf(),
            m.wf(),
        ensures
            final(self).wf(),
            final(self).matchers@ == old(self).matchers@ + seq![m],
            final(self).instances@ == old(self).instances@,
    {
        self.matchers.push(m);
        proof {
            assert(final(self).matchers@ =~= old(self).matchers@ + seq![m]);
            assert forall|i: int| 0 <= i < final(self).insts().len() implies spec_inst_wf(
                #[trigger] final(self).insts()[i],
                final(self).matchers@,
            ) by {
                assert(spec_inst_wf(old(self).insts()[i], old(self).matchers@));
            }
        }
    }
}

// ---------------------------------------------------------------------------
// One step of the engine, in the model
// ---------------------------------------------------------------------------
/// Whether a record from `index` may touch an instance: a concrete
/// constraint must match the emitter; no constraint accepts any emitter.
pub open spec fn spec_index_ok(constraint: Option<i32>, index: i32) -> bool {
    match constraint {
        Some(n) => n == index,
        None => true,
    }
}

/// The pattern an instance expects next.
pub open spec fn spec_next_pattern(inst: InstanceData, matchers: Seq<Matcher>) -> Seq<char> {
    matchers[inst.matcher_idx].regexes@[inst.captures.len() as int]@
}

/// Whether a record can advance an instance: the instance is within its
/// timeout, the emitter fits, and the next-expected pattern matches the
/// body. An instance whose timeout has run out never advances; the reap
/// phase of the same step removes it.
pub open spec fn spec_can_advance(
    inst: InstanceData,
    matchers: Seq<Matcher>,
    index: i32,
    body: Seq<char>,
    now: u64,
) -> bool {
    &&& !spec_expired(inst, now)
    &&& spec_index_ok(inst.index, index)
    &&& regex_match(spec_next_pattern(inst, matchers), body) is Some
}

/// The position of the first instance, from `i` on, that the record can
/// advance.
pub open spec fn spec_first_advancer_from(
    insts: Seq<InstanceData>,
    matchers: Seq<Matcher>,
    index: i32,
    body: Seq<char>,
    now: u64,
    i: int,
) -> Option<int>
    decreases insts.len() - i when 0 <= i <= insts.len()
{
    if i >= insts.len() {
        None
    } else if spec_can_advance(insts[i], matchers, index, body, now) {
        Some(i)
    } else {
        spec_first_advancer_from(insts, matchers, index, body, now, i + 1)
    }
}

/// The position of the first instance the record can advance, if any.
pub open spec fn spec_first_advancer(
    insts: Seq<InstanceData>,
    matchers: Seq<Matcher>,
    index: i32,
    body: Seq<char>,
    now: u64,
) -> Option<int> {
    spec_first_advancer_from(insts, matchers, index, body, now, 0)
}

/// What a found advancer means: it is in range, the record can advance it,
/// and no earlier instance (from `i` on) could be advanced.
pub proof fn lemma_first_advancer_props(
    insts: Seq<InstanceData>,
    matchers: Seq<Matcher>,
    index: i32,
    body: Seq<char>,
    now: u64,
    i: int,
)
    requires
        0 <= i <= insts.len(),
        spec_first_advancer_from(insts, matchers, index, body, now, i) is Some,
    ensures
        ({
            let k = spec_first_advancer_from(insts, matchers, index, body, now, i)->Some_0;
            &&& i <= k < insts.len()
            &&& spec_can_advance(insts[k], matchers, index, body, now)
            &&& forall|j: int|
                i <= j < k ==> !spec_can_advance(#[trigger] insts[j], matchers, index, body, now)
        }),
    decreases insts.len() - i,
{
    if !spec_can_advance(insts[i], matchers, index, body, now) {
        lemma_first_advancer_props(insts, matchers, index, body, now, i + 1);
    }
}

/// An instance after one advance: the new capture map appended, the clock
/// reset.
pub open spec fn spec_advanced(inst: InstanceData, m: Seq<(String, String)>, now: u64) -> InstanceData {
    InstanceData {
        index: inst.index,
        matcher_idx: inst.matcher_idx,
        captures: inst.captures + seq![m],
        last_progress: now,
        timeout_ms: inst.timeout_ms,
    }
}

/// The advance phase: the first eligible instance (if any) absorbs the
/// record's captures; if that fills its matcher's pattern list it leaves the
/// set as a completion, otherwise it stays in place.
pub open spec fn spec_advance_phase(
    insts: Seq<InstanceData>,
    matchers: Seq<Matcher>,
    index: i32,
    body: Seq<char>,
    now: u64,
) -> (Seq<InstanceData>, Seq<CompletionData>) {
    match spec_first_advancer(insts, matchers, index, body, now) {
        None => (insts, Seq::empty()),
        Some(i) => {
            let inst = insts[i];
            let m = regex_match(spec_next_pattern(inst, matchers), body)->Some_0;
            let adv = spec_advanced(inst, m, now);
            if adv.captures.len() == matchers[inst.matcher_idx].regexes@.len() {
                (
                    insts.remove(i),
                    seq![
                        CompletionData {
                            kind: matchers[inst.matcher_idx].kind,
                            captures: adv.captures,
                        },
                    ],
                )
            } else {
                (insts.update(i, adv), Seq::empty())
            }
        },
    }
}

/// The seed phase, from matcher `j` on: every matcher whose first pattern
/// matches the body starts a new instance bound to the record's emitter; a
/// single-pattern matcher completes at once instead.
pub open spec fn spec_seeds_from(
    matchers: Seq<Matcher>,
    index: i32,
    body: Seq<char>,
    now: u64,
    j: int,
) -> (Seq<InstanceData>, Seq<CompletionData>)
    decreases matchers.len() - j when 0 <= j <= matchers.len()
{
    if j >= matchers.len() {
        (Seq::empty(), Seq::empty())
    } else {
        let rest = spec_seeds_from(matchers, index, body, now, j + 1);
        match regex_match(matchers[j].regexes@[0]@, body) {
            None => rest,
            Some(m) => if matchers[j].regexes@.len() == 1 {
                (
                    rest.0,
                    seq![CompletionData { kind: matchers[j].kind, captures: seq![m] }] + rest.1,
                )
            } else {
                (
                    seq![
                        InstanceData {
                            index: Some(index),
                            matcher_idx: j,
                            captures: seq![m],
                            last_progress: now,
                            timeout_ms: matchers[j].timeout_ms,
                        },
                    ] + rest.0,
                    rest.1,
                )
            },
        }
    }
}

/// The seed phase over the whole registry.
pub open spec fn spec_seeds(matchers: Seq<Matcher>, index: i32, body: Seq<char>, now: u64) -> (
    Seq<InstanceData>,
    Seq<CompletionData>,
) {
    spec_seeds_from(matchers, index, body, now, 0)
}

/// An instance whose clock has run out.
pub open spec fn spec_expired(inst: InstanceData, now: u64) -> bool {
    now > inst.last_progress + inst.timeout_ms
}

/// The reap phase: expired instances leave, order kept.
pub open spec fn spec_reap(insts: Seq<InstanceData>, now: u64) -> Seq<InstanceData>
    decreases insts.len(),
{
    if insts.len() == 0 {
        Seq::empty()
    } else if spec_expired(insts[0], now) {
        spec_reap(insts.drop_first(), now)
    } else {
        seq![insts[0]] + spec_reap(insts.drop_first(), now)
    }
}

/// One full step of the engine on a record: advance, then seed, then reap.
pub open spec fn spec_step(
    insts: Seq<InstanceData>,
    matchers: Seq<Matcher>,
    index: i32,
    body: Seq<char>,
    now: u64,
) -> (Seq<InstanceData>, Seq<CompletionData>) {
    let a = spec_advance_phase(insts, matchers, index, body, now);
    let s = spec_seeds(matchers, index, body, now);
    (spec_reap(a.0 + s.0, now), a.1 + s.1)
}

} // verus!

verus! {

impl MatchEngine {
    /// Runs one record through the engine: at most one instance advances (the
    /// oldest eligible one), every matcher whose first pattern fits seeds,
    /// and expired instances are reaped. Returns the completions, the
    /// advance phase's first.
    #[verifier::loop_isolation(false)]
    pub fn process_record(&mut self, index: i32, body: &str, now_ms: u64) -> (out: Vec<
        Completion,
    >)
        requires
            old(self).wf(),
        ensures
            final(self).wf(),
            final(self).matchers@ == old(self).matchers@,
            final(self).insts() == spec_step(
                old(self).insts(),
                old(self).matchers@,
                index,
                body@,
                now_ms,
            ).0,
            comps_view(out@) == spec_step(
                old(self).insts(),
                old(self).matchers@,
                index,
                body@,
                now_ms,
            ).1,
    {
        let ghost insts0 = self.insts();
        let ghost matchers0 = self.matchers@;
        // Advance phase: find the first instance this record can advance.
        let mut adv: Option<usize> = None;
        let mut i: usize = 0;
        while adv.is_none() && i < self.instances.len()
            invariant
                *self == *old(self),
                0 <= i <= insts0.len(),
                match adv {
                    None => spec_first_advancer_from(
                        insts0,
                        matchers0,
                        index,
                        body@,
                        now_ms,
                        i as int,
                    ) == spec_first_advancer(insts0, matchers0, index, body@, now_ms),
                    Some(k) => k < insts0.len() && spec_first_advancer(
                        insts0,
                        matchers0,
                        index,
                        body@,
                        now_ms,
                    ) == Some(k as int),
                },
            decreases insts0.len() - i,
        {
            proof {
                assert(spec_inst_wf(insts0[i as int], matchers0));
            }
            let inst = &self.instances[i];
            let expired = if inst.timeout_ms <= u64::MAX - inst.last_progress {
                now_ms > inst.last_progress + inst.timeout_ms
            } else {
                false
            };
            let eligible = !expired && match inst.index {
                Some(n) => n == index,
                None => true,
            };
            if eligible {
                let pat = &self.matchers[inst.matcher_idx].regexes[inst.captures.len()];
                if regex_captures(pat.as_str(), body).is_some() {
                    adv = Some(i);
                }
            }
            i = i + 1;
        }
        let ghost a = spec_advance_phase(insts0, matchers0, index, body@, now_ms);
        let mut out: Vec<Completion> = Vec::new();
        match adv {
            None => {
                proof {
                    assert(i == insts0.len());
                    assert(a.0 == insts0);
                    assert(comps_view(out@) =~= a.1);
                }
            },
            Some(ai) => {
                proof {
                    assert(spec_inst_wf(insts0[ai as int], matchers0));
                    lemma_first_advancer_props(insts0, matchers0, index, body@, now_ms, 0);
                    assert(spec_can_advance(insts0[ai as int], matchers0, index, body@, now_ms));
                }
                let mut inst = self.instances.remove(ai);
                let pat = &self.matchers[inst.matcher_idx].regexes[inst.captures.len()];
                let m = match regex_captures(pat.as_str(), body) {
                    Some(m) => m,
                    None => {
                        proof {
                            assert(false);
                        }
                        Vec::new()
                    },
                };
                inst.captures.push(m);
                inst.last_progress = now_ms;
                proof {
                    assert(inst@ == spec_advanced(
                        insts0[ai as int],
                        regex_match(spec_next_pattern(insts0[ai as int], matchers0), body@)->Some_0,
                        now_ms,
                    ));
                }
                let rlen = self.matchers[inst.matcher_idx].regexes.len();
                if inst.captures.len() == rlen {
                    out.push(
                        Completion { kind: self.matchers[inst.matcher_idx].kind, captures: inst.captures },
                    );
                    proof {
                        assert(insts_view(self.instances@) =~= insts0.remove(ai as int));
                        assert(comps_view(out@) =~= a.1);
                    }
                } else {
                    self.instances.insert(ai, inst);
                    proof {
                        assert(insts_view(self.instances@) =~= insts0.update(ai as int, inst@));
                        assert(comps_view(out@) =~= a.1);
                    }
                }
            },
        }
        proof {
            assert(insts_view(self.instances@) == a.0);
            assert(comps_view(out@) == a.1);
            assert forall|k: int| 0 <= k < a.0.len() implies spec_inst_wf(
                #[trigger] a.0[k],
                matchers0,
            ) by {}
        }
        // Seed phase: every matcher whose first pattern fits starts an
        // instance; single-pattern matchers complete at once.
        let ghost sds = spec_seeds(matchers0, index, body@, now_ms);
        let mut j: usize = 0;
        while j < self.matchers.len()
            invariant
                0 <= j <= matchers0.len(),
                self.matchers@ == matchers0,
                insts_view(self.instances@) + spec_seeds_from(
                    matchers0,
                    index,
                    body@,
                    now_ms,
                    j as int,
                ).0 =~= a.0 + sds.0,
                comps_view(out@) + spec_seeds_from(matchers0, index, body@, now_ms, j as int).1
                    =~= a.1 + sds.1,
                forall|k: int|
                    0 <= k < insts_view(self.instances@).len() ==> spec_inst_wf(
                        #[trigger] insts_view(self.instances@)[k],
                        matchers0,
                    ),
            decreases matchers0.len() - j,
        {
            let ghost pre_insts = insts_view(self.instances@);
            let ghost pre_comps = comps_view(out@);
            let ghost seeds_j = spec_seeds_from(matchers0, index, body@, now_ms, j as int);
            let ghost seeds_j1 = spec_seeds_from(matchers0, index, body@, now_ms, j as int + 1);
            let first = &self.matchers[j].regexes[0];
            match regex_captures(first.as_str(), body) {
                Some(m) => {
                    if self.matchers[j].regexes.len() == 1 {
                        let ghost gm = m@;
                        let mut maps: Vec<Vec<(String, String)>> = Vec::new();
                        maps.push(m);
                        proof {
                            assert(maps@.len() == 1 && maps@[0]@ == gm);
                        }
                        let rc = RegexCaptures::new(maps);
                        proof {
                            assert(rc@ =~= seq![gm]);
                        }
                        let kind = self.matchers[j].kind;
                        out.push(Completion { kind, captures: rc });
                        proof {
                            assert(comps_view(out@) =~= pre_comps + seq![
                                CompletionData { kind: matchers0[j as int].kind, captures: seq![gm] },
                            ]);
                            assert(seeds_j.1 =~= seq![
                                CompletionData { kind: matchers0[j as int].kind, captures: seq![gm] },
                            ] + seeds_j1.1);
                            assert(insts_view(self.instances@) == pre_insts);
                            assert(seeds_j.0 == seeds_j1.0);
                        }
                    } else {
                        let ghost gm = m@;
                        let mut maps: Vec<Vec<(String, String)>> = Vec::new();
                        maps.push(m);
                        proof {
                            assert(maps@.len() == 1 && maps@[0]@ == gm);
                        }
                        let rc = RegexCaptures::new(maps);
                        proof {
                            assert(rc@ =~= seq![gm]);
                        }
                        let timeout_ms = self.matchers[j].timeout_ms;
                        self.instances.push(
                            MatcherInstance {
                                index: Some(index),
                                matcher_idx: j,
                                captures: rc,
                                last_progress: now_ms,
                                timeout_ms,
                            },
                        );
                        proof {
                            let seeded = InstanceData {
                                index: Some(index),
                                matcher_idx: j as int,
                                captures: seq![gm],
                                last_progress: now_ms,
                                timeout_ms: matchers0[j as int].timeout_ms,
                            };
                            assert(insts_view(self.instances@) =~= pre_insts + seq![seeded]);
                            assert(seeds_j.0 =~= seq![seeded] + seeds_j1.0);
                            assert(comps_view(out@) == pre_comps);
                            assert(seeds_j.1 == seeds_j1.1);
                            assert(spec_inst_wf(seeded, matchers0));
                            assert(insts_view(self.instances@) + seeds_j1.0 =~= a.0 + sds.0);
                        }
                    }
                },
                None => {
                    proof {
                        assert(seeds_j == seeds_j1);
                    }
                },
            }
            j = j + 1;
        }
        proof {
            let ghost done = spec_seeds_from(matchers0, index, body@, now_ms, matchers0.len() as int);
            assert(done.0 =~= Seq::<InstanceData>::empty());
            assert(done.1 =~= Seq::<CompletionData>::empty());
            assert(insts_view(self.instances@) =~= a.0 + sds.0);
            assert(comps_view(out@) =~= a.1 + sds.1);
        }
        // Reap phase: expired instances leave, order kept.
        let ghost pre = insts_view(self.instances@);
        let mut work: Vec<MatcherInstance> = Vec::new();
        core::mem::swap(&mut self.instances, &mut work);
        while work.len() > 0
            invariant
                self.matchers@ == matchers0,
                insts_view(self.instances@) + spec_reap(insts_view(work@), now_ms) =~= spec_reap(
                    pre,
                    now_ms,
                ),
                forall|k: int|
                    0 <= k < insts_view(work@).len() ==> spec_inst_wf(
                        #[trigger] insts_view(work@)[k],
                        matchers0,
                    ),
                forall|k: int|
                    0 <= k < insts_view(self.instances@).len() ==> spec_inst_wf(
                        #[trigger] insts_view(self.instances@)[k],
                        matchers0,
                    ),
            decreases work@.len(),
        {
            let ghost work0 = insts_view(work@);
            let ghost kept0 = insts_view(self.instances@);
            let inst = work.remove(0);
            proof {
                assert(insts_view(work@) =~= work0.drop_first());
                assert(inst@ == work0[0]);
            }
            let expired = if inst.timeout_ms <= u64::MAX - inst.last_progress {
                now_ms > inst.last_progress + inst.timeout_ms
            } else {
                false
            };
            proof {
                assert(expired == spec_expired(inst@, now_ms));
            }
            if !expired {
                self.instances.push(inst);
                proof {
                    assert(insts_view(self.instances@) =~= kept0 + seq![inst@]);
                    assert(kept0 + seq![inst@] + spec_reap(work0.drop_first(), now_ms) =~= kept0
                        + spec_reap(work0, now_ms));
                }
            }
        }
        proof {
            assert(insts_view(work@) =~= Seq::<InstanceData>::empty());
            assert(spec_reap(insts_view(work@), now_ms) =~= Seq::<InstanceData>::empty());
            assert(final(self).insts() =~= spec_reap(pre, now_ms));
            assert(final(self).insts() == spec_step(insts0, matchers0, index, body@, now_ms).0);
            assert(comps_view(out@) == spec_step(insts0, matchers0, index, body@, now_ms).1);
        }
        out
    }
}

} // verus!

verus! {

// ---------------------------------------------------------------------------
// Laws of the engine step
// ---------------------------------------------------------------------------
/// A successful advance: the same match, one more capture map appended, the
/// clock reset to the record's time.
pub open spec fn spec_extends_by_one(pre: InstanceData, post: InstanceData, now: u64) -> bool {
    &&& post.index == pre.index
    &&& post.matcher_idx == pre.matcher_idx
    &&& post.timeout_ms == pre.timeout_ms
    &&& post.last_progress == now
    &&& post.captures.len() == pre.captures.len() + 1
    &&& post.captures.take(pre.captures.len() as int) == pre.captures
}

/// Every instance that survives the reap is within its timeout.
proof fn lemma_reap_live(insts: Seq<InstanceData>, now: u64)
    ensures
        forall|k: int|
            0 <= k < spec_reap(insts, now).len() ==> !spec_expired(
                #[trigger] spec_reap(insts, now)[k],
                now,
            ),
    decreases insts.len(),
{
    if insts.len() > 0 {
        lemma_reap_live(insts.drop_first(), now);
        let rest = insts.drop_first();
        let r = spec_reap(insts, now);
        assert forall|k: int| 0 <= k < r.len() implies !spec_expired(r[k], now) by {
            if spec_expired(insts[0], now) {
                assert(r[k] == spec_reap(rest, now)[k]);
            } else if k > 0 {
                assert(r[k] == spec_reap(rest, now)[k - 1]);
            }
        }
    }
}

/// Every instance that survives the reap was there before it.
proof fn lemma_reap_subset(insts: Seq<InstanceData>, now: u64)
    ensures
        forall|k: int|
            0 <= k < spec_reap(insts, now).len() ==> insts.contains(
                #[trigger] spec_reap(insts, now)[k],
            ),
    decreases insts.len(),
{
    if insts.len() > 0 {
        lemma_reap_subset(insts.drop_first(), now);
        let rest = insts.drop_first();
        assert forall|k: int| 0 <= k < spec_reap(insts, now).len() implies insts.contains(
            #[trigger] spec_reap(insts, now)[k],
        ) by {
            let r = spec_reap(insts, now);
            if spec_expired(insts[0], now) {
                assert(r[k] == spec_reap(rest, now)[k]);
                assert(rest.contains(r[k]));
                let j = choose|j: int| 0 <= j < rest.len() && rest[j] == r[k];
                assert(insts[j + 1] == r[k]);
            } else {
                if k == 0 {
                    assert(insts[0] == r[0]);
                } else {
                    assert(r[k] == spec_reap(rest, now)[k - 1]);
                    assert(rest.contains(r[k]));
                    let j = choose|j: int| 0 <= j < rest.len() && rest[j] == r[k];
                    assert(insts[j + 1] == r[k]);
                }
            }
        }
    }
}

/// Every instance the seed phase creates starts with exactly one capture map
/// and a fresh clock.
proof fn lemma_seeds_shape(matchers: Seq<Matcher>, index: i32, body: Seq<char>, now: u64, j: int)
    requires
        0 <= j <= matchers.len(),
    ensures
        forall|k: int|
            0 <= k < spec_seeds_from(matchers, index, body, now, j).0.len() ==> {
                let inst = #[trigger] spec_seeds_from(matchers, index, body, now, j).0[k];
                inst.captures.len() == 1 && inst.last_progress == now
            },
    decreases matchers.len() - j,
{
    if j < matchers.len() {
        lemma_seeds_shape(matchers, index, body, now, j + 1);
    }
}

/// Timeout liveness: no matcher instance persists past its timeout once the
/// next record is processed — after a step at time `now`, every remaining
/// instance has made progress within the last `timeout_ms` milliseconds.
/// An instance already expired when the record arrives is only reaped: it is
/// never the one that advances, so it cannot complete and no handler runs
/// for it.
pub proof fn lemma_timeout_liveness(
    insts: Seq<InstanceData>,
    matchers: Seq<Matcher>,
    index: i32,
    body: Seq<char>,
    now: u64,
)
    ensures
        forall|k: int|
            0 <= k < spec_step(insts, matchers, index, body, now).0.len() ==> {
                let inst = #[trigger] spec_step(insts, matchers, index, body, now).0[k];
                now <= inst.last_progress + inst.timeout_ms
            },
        spec_first_advancer(insts, matchers, index, body, now) matches Some(i) ==> !spec_expired(
            insts[i],
            now,
        ),
{
    let a = spec_advance_phase(insts, matchers, index, body, now);
    let s = spec_seeds(matchers, index, body, now);
    lemma_reap_live(a.0 + s.0, now);
    if spec_first_advancer(insts, matchers, index, body, now) is Some {
        lemma_first_advancer_props(insts, matchers, index, body, now, 0);
    }
}

/// At most one active instance is advanced per incoming record: the advance
/// phase leaves the instance list unchanged, advances exactly one instance
/// in place, or removes exactly the one instance that completed.
pub proof fn lemma_single_advance_per_record(
    insts: Seq<InstanceData>,
    matchers: Seq<Matcher>,
    index: i32,
    body: Seq<char>,
    now: u64,
)
    ensures
        ({
            let mid = spec_advance_phase(insts, matchers, index, body, now).0;
            ||| mid == insts
            ||| exists|i: int|
                0 <= i < insts.len() && mid == #[trigger] insts.remove(i)
            ||| exists|i: int|
                #![trigger insts[i]]
                0 <= i < insts.len() && spec_extends_by_one(insts[i], mid[i], now) && mid
                    == insts.update(i, mid[i])
        }),
{
    let mid = spec_advance_phase(insts, matchers, index, body, now).0;
    let adv = spec_first_advancer(insts, matchers, index, body, now);
    if adv is Some {
        let i = adv->Some_0;
        lemma_first_advancer_props(insts, matchers, index, body, now, 0);
        let inst = insts[i];
        let m = regex_match(spec_next_pattern(inst, matchers), body)->Some_0;
        let a = spec_advanced(inst, m, now);
        if a.captures.len() == matchers[inst.matcher_idx].regexes@.len() {
            assert(mid == insts.remove(i));
        } else {
            assert(mid == insts.update(i, a));
            assert(a.captures.take(inst.captures.len() as int) =~= inst.captures);
            assert(spec_extends_by_one(insts[i], mid[i], now));
        }
    }
}

/// Progress is monotonic: every instance that stands after a step is an old
/// instance untouched, an old instance whose captures grew by exactly the
/// one map the record matched, or a fresh seed holding one capture map.
/// Captures are never dropped or rewritten.
pub proof fn lemma_progress_monotonic(
    insts: Seq<InstanceData>,
    matchers: Seq<Matcher>,
    index: i32,
    body: Seq<char>,
    now: u64,
)
    ensures
        forall|k: int|
            0 <= k < spec_step(insts, matchers, index, body, now).0.len() ==> {
                let inst = #[trigger] spec_step(insts, matchers, index, body, now).0[k];
                ||| exists|i: int| 0 <= i < insts.len() && inst == #[trigger] insts[i]
                ||| exists|i: int|
                    0 <= i < insts.len() && spec_extends_by_one(#[trigger] insts[i], inst, now)
                ||| (inst.captures.len() == 1 && inst.last_progress == now)
            },
{
    let a = spec_advance_phase(insts, matchers, index, body, now);
    let s = spec_seeds(matchers, index, body, now);
    let stepped = spec_step(insts, matchers, index, body, now).0;
    lemma_reap_subset(a.0 + s.0, now);
    lemma_seeds_shape(matchers, index, body, now, 0);
    let adv = spec_first_advancer(insts, matchers, index, body, now);
    assert forall|k: int| 0 <= k < stepped.len() implies {
        let inst = #[trigger] stepped[k];
        ||| exists|i: int| 0 <= i < insts.len() && inst == #[trigger] insts[i]
        ||| exists|i: int|
            0 <= i < insts.len() && spec_extends_by_one(#[trigger] insts[i], inst, now)
        ||| (inst.captures.len() == 1 && inst.last_progress == now)
    } by {
        let inst = stepped[k];
        assert((a.0 + s.0).contains(inst));
        let idx = choose|idx: int| 0 <= idx < (a.0 + s.0).len() && (a.0 + s.0)[idx] == inst;
        if idx < a.0.len() {
            // From the advance phase: untouched, or the one advanced in place.
            if adv is Some {
                let i = adv->Some_0;
                lemma_first_advancer_props(insts, matchers, index, body, now, 0);
                let pre = insts[i];
                let m = regex_match(spec_next_pattern(pre, matchers), body)->Some_0;
                let av = spec_advanced(pre, m, now);
                if av.captures.len() == matchers[pre.matcher_idx].regexes@.len() {
                    if idx < i {
                        assert(inst == insts[idx]);
                    } else {
                        assert(inst == insts[idx + 1]);
                    }
                } else {
                    if idx == i {
                        assert(av.captures.take(pre.captures.len() as int) =~= pre.captures);
                        assert(spec_extends_by_one(insts[i], inst, now));
                    } else {
                        assert(inst == insts[idx]);
                    }
                }
            } else {
                assert(inst == insts[idx]);
            }
        } else {
            // From the seed phase: one capture map, fresh clock.
            assert(inst == s.0[idx - a.0.len()]);
        }
    }
}

} // verus!
