//! The agent contract and the request/response types that cross it.
//!
//! An agent is a named handler with a cheap fitness score in
//! hundredths (0 stands for confidence 0.0, 100 for 1.0) and a
//! self-description.  Requests carry the user text and a snapshot of
//! the shared session context; responses carry the produced content and
//! the resource keys the coordinator folds back into that context.

use vstd::prelude::*;
use vstd::pervasive::VecAdditionalExecFns;
use crate::text::str_eq;

verus! {

/// Static self-description of one agent capability; immutable once
/// constructed.
pub struct Capability {
    pub name: String,
    pub description: String,
    pub input_types: Vec<String>,
    pub output_types: Vec<String>,
}

/// A map from string keys to string values, keyed uniquely, with a
/// `Map<Seq<char>, Seq<char>>` view.  It carries the session's shared
/// resources and a request's parameters; a structured value (such as a
/// JSON document restored from a persisted session) is carried
/// opaquely as its text.
pub struct ResourceMap {
    entries: Vec<(String, String)>,
}

/// The map a sequence of entries stands for (later entries win, though
/// under unique keys the order never matters).
pub open spec fn map_of_pairs(s: Seq<(String, String)>) -> Map<Seq<char>, Seq<char>>
    decreases s.len(),
{
    if s.len() == 0 {
        Map::empty()
    } else {
        map_of_pairs(s.drop_last()).insert(s.last().0@, s.last().1@)
    }
}

/// No two entries share a key.
pub open spec fn unique_keys(s: Seq<(String, String)>) -> bool {
    forall|i: int, j: int| 0 <= i < j < s.len() ==> s[i].0@ != s[j].0@
}

proof fn lemma_map_of_pairs_update(s: Seq<(String, String)>, i: int, p: (String, String))
    requires
        unique_keys(s),
        0 <= i < s.len(),
        s[i].0@ == p.0@,
    ensures
        map_of_pairs(s.update(i, p)) == map_of_pairs(s).insert(p.0@, p.1@),
    decreases s.len(),
{
    if i == s.len() - 1 {
        assert(s.update(i, p).drop_last() =~= s.drop_last());
        assert(s.update(i, p).last() == p);
        assert(map_of_pairs(s.update(i, p)) == map_of_pairs(s.drop_last()).insert(p.0@, p.1@));
        assert(map_of_pairs(s).insert(p.0@, p.1@) =~= map_of_pairs(s.drop_last()).insert(
            p.0@,
            p.1@,
        ));
    } else {
        let t = s.drop_last();
        assert(s.update(i, p).drop_last() =~= t.update(i, p));
        lemma_map_of_pairs_update(t, i, p);
        assert(s.update(i, p).last() == s.last());
        assert(s[i].0@ != s.last().0@);
        assert(map_of_pairs(s.update(i, p)) == map_of_pairs(t).insert(p.0@, p.1@).insert(
            s.last().0@,
            s.last().1@,
        ));
        assert(map_of_pairs(t).insert(p.0@, p.1@).insert(s.last().0@, s.last().1@)
            =~= map_of_pairs(t).insert(s.last().0@, s.last().1@).insert(p.0@, p.1@));
    }
}

proof fn lemma_map_of_pairs_contains(s: Seq<(String, String)>, k: Seq<char>)
    ensures
        map_of_pairs(s).contains_key(k) <==> exists|i: int| 0 <= i < s.len() && s[i].0@ == k,
    decreases s.len(),
{
    if s.len() > 0 {
        lemma_map_of_pairs_contains(s.drop_last(), k);
        if map_of_pairs(s).contains_key(k) {
            if s.last().0@ != k {
                let i = choose|i: int| 0 <= i < s.len() - 1 && s.drop_last()[i].0@ == k;
                assert(s[i].0@ == k);
            }
        }
        if exists|i: int| 0 <= i < s.len() && s[i].0@ == k {
            let i = choose|i: int| 0 <= i < s.len() && s[i].0@ == k;
            if i < s.len() - 1 {
                assert(s.drop_last()[i].0@ == k);
            }
        }
    }
}

proof fn lemma_map_of_pairs_at(s: Seq<(String, String)>, i: int)
    requires
        unique_keys(s),
        0 <= i < s.len(),
    ensures
        map_of_pairs(s).contains_key(s[i].0@),
        map_of_pairs(s)[s[i].0@] == s[i].1@,
    decreases s.len(),
{
    if i == s.len() - 1 {
    } else {
        assert(s.drop_last()[i] == s[i]);
        lemma_map_of_pairs_at(s.drop_last(), i);
        assert(s[i].0@ != s.last().0@);
    }
}

impl ResourceMap {
    /// The abstract map held.
    pub closed spec fn as_map(self) -> Map<Seq<char>, Seq<char>> {
        map_of_pairs(self.entries@)
    }

    /// Entries are keyed uniquely.
    pub closed spec fn wf(self) -> bool {
        unique_keys(self.entries@)
    }

    /// The empty map.
    pub fn new() -> (r: ResourceMap)
        ensures
            r.wf(),
            r.as_map() == Map::<Seq<char>, Seq<char>>::empty(),
    {
        ResourceMap { entries: Vec::new() }
    }

    /// Insert `value` under `key`; an existing entry with the same key
    /// is replaced (last write wins).
    pub fn insert(&mut self, key: String, value: String)
        requires
            old(self).wf(),
        ensures
            final(self).wf(),
            final(self).as_map() == old(self).as_map().insert(key@, value@),
    {
        let n = self.entries.len();
        let mut i: usize = 0;
        while i < n
            invariant
                n == self.entries.len(),
                i <= n,
                old(self).wf(),
                self.entries@ == old(self).entries@,
                forall|j: int| 0 <= j < i ==> self.entries@[j].0@ != key@,
            decreases n - i,
        {
            if str_eq(self.entries[i].0.as_str(), key.as_str()) {
                proof {
                    lemma_map_of_pairs_update(self.entries@, i as int, (key, value));
                }
                self.entries.set(i, (key, value));
                proof {
                    assert forall|a: int, b: int|
                        0 <= a < b < self.entries@.len() implies self.entries@[a].0@
                        != self.entries@[b].0@ by {
                        assert(old(self).entries@[a].0@ != old(self).entries@[b].0@);
                    }
                }
                return ;
            }
            i = i + 1;
        }
        proof {
            lemma_map_of_pairs_contains(self.entries@, key@);
        }
        self.entries.push((key, value));
        proof {
            assert(self.entries@.drop_last() =~= old(self).entries@);
            assert forall|a: int, b: int|
                0 <= a < b < self.entries@.len() implies self.entries@[a].0@
                != self.entries@[b].0@ by {
                if b < self.entries@.len() - 1 {
                    assert(old(self).entries@[a].0@ != old(self).entries@[b].0@);
                } else {
                    assert(old(self).entries@[a].0@ != key@);
                }
            }
        }
    }

    /// The value stored under `key`, if any.
    pub fn get(&self, key: &str) -> (r: Option<&String>)
        requires
            self.wf(),
        ensures
            match r {
                Option::Some(v) => self.as_map().contains_key(key@) && self.as_map()[key@] == v@,
                Option::None => !self.as_map().contains_key(key@),
            },
    {
        let n = self.entries.len();
        let mut i: usize = 0;
        while i < n
            invariant
                self.wf(),
                n == self.entries.len(),
                i <= n,
                forall|j: int| 0 <= j < i ==> self.entries@[j].0@ != key@,
            decreases n - i,
        {
            if str_eq(self.entries[i].0.as_str(), key) {
                proof {
                    lemma_map_of_pairs_at(self.entries@, i as int);
                }
                return Option::Some(&self.entries[i].1);
            }
            i = i + 1;
        }
        proof {
            lemma_map_of_pairs_contains(self.entries@, key@);
        }
        Option::None
    }

    /// An entry-by-entry copy holding the same map.
    pub fn duplicate(&self) -> (r: ResourceMap)
        ensures
            r.as_map() == self.as_map(),
            r.wf() == self.wf(),
    {
        let n = self.entries.len();
        let mut out: Vec<(String, String)> = Vec::new();
        let mut i: usize = 0;
        while i < n
            invariant
                n == self.entries.len(),
                i <= n,
                out@.len() == i,
                forall|j: int| 0 <= j < i ==> out@[j].0@ == self.entries@[j].0@ && out@[j].1@
                    == self.entries@[j].1@,
            decreases n - i,
        {
            let k = self.entries[i].0.clone();
            let v = self.entries[i].1.clone();
            out.push((k, v));
            i = i + 1;
        }
        proof {
            lemma_map_of_pairs_congruence(out@, self.entries@);
        }
        ResourceMap { entries: out }
    }
}

proof fn lemma_map_of_pairs_congruence(a: Seq<(String, String)>, b: Seq<(String, String)>)
    requires
        a.len() == b.len(),
        forall|j: int| 0 <= j < a.len() ==> a[j].0@ == b[j].0@ && a[j].1@ == b[j].1@,
    ensures
        map_of_pairs(a) == map_of_pairs(b),
        unique_keys(a) == unique_keys(b),
    decreases a.len(),
{
    if a.len() > 0 {
        lemma_map_of_pairs_congruence(a.drop_last(), b.drop_last());
    }
    assert(unique_keys(a) <==> unique_keys(b)) by {
        if unique_keys(a) {
            assert forall|i: int, j: int| 0 <= i < j < b.len() implies b[i].0@ != b[j].0@ by {
                assert(a[i].0@ != a[j].0@);
            }
        }
        if unique_keys(b) {
            assert forall|i: int, j: int| 0 <= i < j < a.len() implies a[i].0@ != a[j].0@ by {
                assert(b[i].0@ != b[j].0@);
            }
        }
    }
}

/// Shared session context.  Owned by the coordinator; agents receive a
/// snapshot and request writes back only through a response's resource
/// keys.
pub struct AgentContext {
    pub user_input: String,
    pub session_id: String,
    pub therapeutic_phase: String,
    pub session_count: u32,
    pub conversation_history: Vec<String>,
    pub shared_resources: ResourceMap,
    pub current_model: String,
}

/// Mathematical image of an `AgentContext`.
pub struct ContextView {
    pub user_input: Seq<char>,
    pub session_id: Seq<char>,
    pub therapeutic_phase: Seq<char>,
    pub session_count: u32,
    pub conversation_history: Seq<Seq<char>>,
    pub shared_resources: Map<Seq<char>, Seq<char>>,
    pub current_model: Seq<char>,
}

impl View for AgentContext {
    type V = ContextView;

    open spec fn view(&self) -> ContextView {
        ContextView {
            user_input: self.user_input@,
            session_id: self.session_id@,
            therapeutic_phase: self.therapeutic_phase@,
            session_count: self.session_count,
            conversation_history: self.conversation_history.deep_view(),
            shared_resources: self.shared_resources.as_map(),
            current_model: self.current_model@,
        }
    }
}

impl AgentContext {
    /// A fresh copy holding the same abstract context.
    pub fn snapshot(&self) -> (r: AgentContext)
        ensures
            r@ == self@,
            r.shared_resources.wf() == self.shared_resources.wf(),
    {
        let mut history: Vec<String> = Vec::new();
        let n = self.conversation_history.len();
        let mut i: usize = 0;
        while i < n
            invariant
                n == self.conversation_history.len(),
                i <= n,
                history@.len() == i,
                forall|j: int| 0 <= j < i ==> history@[j]@ == self.conversation_history@[j]@,
            decreases n - i,
        {
            history.push(self.conversation_history[i].clone());
            i = i + 1;
        }
        let r = AgentContext {
            user_input: self.user_input.clone(),
            session_id: self.session_id.clone(),
            therapeutic_phase: self.therapeutic_phase.clone(),
            session_count: self.session_count,
            conversation_history: history,
            shared_resources: self.shared_resources.duplicate(),
            current_model: self.current_model.clone(),
        };
        proof {
            assert(r.conversation_history.deep_view() =~= self.conversation_history.deep_view());
        }
        r
    }
}

/// One request to an agent: the user text, a context snapshot and
/// free-form parameters.
pub struct AgentRequest {
    pub input: String,
    pub context: AgentContext,
    pub parameters: ResourceMap,
}

/// Metadata about one agent response.  `confidence` is in hundredths:
/// 0 stands for confidence 0.0 and 100 for 1.0.
pub struct AgentMetadata {
    pub agent_name: String,
    pub confidence: u32,
    pub processing_time_ms: u64,
    pub sources: Vec<String>,
    pub content_type: String,
}

/// The result of one agent execution.  Keys in `resources_used` are
/// merged into the session's shared resources by the coordinator.
pub struct AgentResponse {
    pub content: String,
    pub metadata: AgentMetadata,
    pub resources_used: Vec<String>,
}

/// The agent contract: a stable name, a cheap fitness score and a
/// capability self-description.  Execution is driven by the caller
/// stage by stage (network work cannot stand here), so it is not part
/// of this contract.
pub trait Agent: Sized {
    /// The agent's registry name.
    spec fn spec_name(&self) -> Seq<char>;

    /// The score `can_handle` returns, as a function of the request.
    spec fn spec_score(&self, req: &AgentRequest) -> u32;

    /// The agent's stable name, used as the registry key.
    fn name(&self) -> (r: String)
        ensures
            r@ == self.spec_name(),
    ;

    /// How well the agent fits this request, in hundredths: 0 means
    /// "cannot handle", 100 a perfect match.  Must be cheap: it runs
    /// against every registered agent on every turn.
    fn can_handle(&self, req: &AgentRequest) -> (r: u32)
        ensures
            r == self.spec_score(req),
            r <= 100,
    ;

    /// The advertised capabilities, for introspection; side-effect
    /// free.  Each implementation pins its own list.
    fn capabilities(&self) -> Vec<Capability>;

    /// Optional resource release; a no-op by default.
    fn cleanup(&self) {
    }
}

} // verus!
