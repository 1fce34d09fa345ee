//! The agent coordinator: one end-to-end conversational turn.
//!
//! A turn is driven in two verified halves around the chosen agent's
//! execution (which may block on network work and is therefore run by
//! the caller): `begin_turn` folds the new input into the context,
//! builds the request and selects the best agent; `finish_turn` merges
//! the response's resources back into the shared context and shapes the
//! caller-facing response.

use vstd::prelude::*;
use crate::protocol::Agent;
use crate::protocol::AgentContext;
use crate::protocol::AgentRequest;
use crate::protocol::AgentResponse;
use crate::protocol::Capability;
use crate::protocol::ContextView;
use crate::protocol::ResourceMap;
use crate::registry::AgentRegistry;
use crate::registry::CONFIDENCE_THRESHOLD;

verus! {

/// The caller-facing result of one turn.
pub struct CoordinatorResponse {
    pub content: String,
    pub agent_used: String,
    pub confidence: u32,
    pub processing_time_ms: u64,
    pub sources: Vec<String>,
    pub has_additional_context: bool,
}

/// How a turn proceeds after `begin_turn`: either no agent cleared the
/// confidence threshold and the turn ends with a canned response, or
/// the agent at the given registry position is to execute the request.
pub enum TurnStart {
    NoAgent(CoordinatorResponse, Ghost<AgentRequest>),
    Dispatch(usize, AgentRequest),
}

/// `m` with `content` written under every key in `keys`, in order.
pub open spec fn merge_resources(
    m: Map<Seq<char>, Seq<char>>,
    keys: Seq<Seq<char>>,
    content: Seq<char>,
) -> Map<Seq<char>, Seq<char>>
    decreases keys.len(),
{
    if keys.len() == 0 {
        m
    } else {
        merge_resources(m.insert(keys[0], content), keys.drop_first(), content)
    }
}

/// `m` with every key/value pair of `pairs` written, in order.
pub open spec fn merge_pairs(
    m: Map<Seq<char>, Seq<char>>,
    pairs: Seq<(String, String)>,
) -> Map<Seq<char>, Seq<char>>
    decreases pairs.len(),
{
    if pairs.len() == 0 {
        m
    } else {
        merge_pairs(m.insert(pairs[0].0@, pairs[0].1@), pairs.drop_first())
    }
}

/// Orchestrates turns: owns one registry and one mutable context, both
/// living for the session's lifetime.
pub struct AgentCoordinator<A: Agent> {
    registry: AgentRegistry<A>,
    context: AgentContext,
}

impl<A: Agent> AgentCoordinator<A> {
    /// The registered agents, in registration order.
    pub closed spec fn spec_agents(self) -> Seq<A> {
        self.registry.spec_agents()
    }

    /// The abstract session context held.
    pub closed spec fn ctx(self) -> ContextView {
        self.context@
    }

    /// Registry names unique, resource map well-formed.
    pub closed spec fn wf(self) -> bool {
        self.registry.wf() && self.context.shared_resources.wf()
    }

    pub fn new(context: AgentContext) -> (r: AgentCoordinator<A>)
        requires
            context.shared_resources.wf(),
        ensures
            r.wf(),
            r.spec_agents().len() == 0,
            r.ctx() == context@,
    {
        AgentCoordinator { registry: AgentRegistry::new(), context }
    }

    /// Register an agent with the coordinator; a same-named agent is
    /// replaced in place.
    pub fn register_agent(&mut self, agent: A)
        requires
            old(self).wf(),
        ensures
            final(self).wf(),
            final(self).ctx() == old(self).ctx(),
            if exists|i: int|
                0 <= i < old(self).spec_agents().len() && old(self).spec_agents()[i].spec_name()
                    == agent.spec_name() {
                final(self).spec_agents() == old(self).spec_agents().update(
                    choose|i: int|
                        0 <= i < old(self).spec_agents().len()
                            && old(self).spec_agents()[i].spec_name() == agent.spec_name(),
                    agent,
                )
            } else {
                final(self).spec_agents() == old(self).spec_agents().push(agent)
            },
    {
        self.registry.register(agent);
    }

    /// The agent at a registration position, for executing a dispatch.
    pub fn agent_at(&self, i: usize) -> (r: &A)
        requires
            i < self.spec_agents().len(),
        ensures
            *r == self.spec_agents()[i as int],
    {
        self.registry.agent_at(i)
    }

    /// Start one turn: overwrite the context's `user_input`, build the
    /// request from a context snapshot, and select the best agent.
    /// When no agent's score clears the threshold the turn ends at once
    /// with the canned "no agent" response; that is a defined terminal
    /// state, not an error.
    pub fn begin_turn(&mut self, input: &str) -> (r: TurnStart)
        requires
            old(self).wf(),
        ensures
            final(self).wf(),
            final(self).spec_agents() == old(self).spec_agents(),
            final(self).ctx() == (ContextView { user_input: input@, ..old(self).ctx() }),
            match r {
                TurnStart::Dispatch(i, req) => i < final(self).spec_agents().len() && req.input@
                    == input@ && req.context@ == final(self).ctx()
                    && req.context.shared_resources.wf() && req.parameters.as_map()
                    == Map::<Seq<char>, Seq<char>>::empty() && final(self).spec_agents()[
                    i as int
                ].spec_score(&req) > CONFIDENCE_THRESHOLD && (forall|j: int|
                    0 <= j < final(self).spec_agents().len() ==> final(self).spec_agents()[
                        j
                    ].spec_score(&req) <= final(self).spec_agents()[i as int].spec_score(&req)) && (
                forall|j: int|
                    0 <= j < i ==> final(self).spec_agents()[j].spec_score(&req)
                        < final(self).spec_agents()[i as int].spec_score(&req)),
                TurnStart::NoAgent(resp, greq) => greq@.input@ == input@ && greq@.context@
                    == final(self).ctx() && (forall|j: int|
                    0 <= j < final(self).spec_agents().len() ==> final(self).spec_agents()[
                        j
                    ].spec_score(&greq@) <= CONFIDENCE_THRESHOLD) && resp.content@
                    == "No agent available to handle this request"@ && resp.agent_used@ == "none"@
                    && resp.confidence == 0 && resp.processing_time_ms == 0 && resp.sources@.len()
                    == 0 && resp.has_additional_context == false,
            },
    {
        self.context.user_input = input.to_owned();
        let request = AgentRequest {
            input: input.to_owned(),
            context: self.context.snapshot(),
            parameters: ResourceMap::new(),
        };
        match self.registry.find_best_agent(&request) {
            Option::Some(i) => TurnStart::Dispatch(i, request),
            Option::None => {
                TurnStart::NoAgent(
                    CoordinatorResponse {
                        content: String::from_str("No agent available to handle this request"),
                        agent_used: String::from_str("none"),
                        confidence: 0,
                        processing_time_ms: 0,
                        sources: Vec::new(),
                        has_additional_context: false,
                    },
                    Ghost(request),
                )
            },
        }
    }

    /// Finish one turn: write the response content into the shared
    /// resources under every key the agent used (last write wins), and
    /// shape the caller-facing response.  `elapsed_ms` is the wall
    /// clock the caller measured around the agent's execution.
    pub fn finish_turn(&mut self, response: AgentResponse, elapsed_ms: u64) -> (r:
        CoordinatorResponse)
        requires
            old(self).wf(),
        ensures
            final(self).wf(),
            final(self).spec_agents() == old(self).spec_agents(),
            final(self).ctx() == (ContextView {
                shared_resources: merge_resources(
                    old(self).ctx().shared_resources,
                    response.resources_used.deep_view(),
                    response.content@,
                ),
                ..old(self).ctx()
            }),
            r.content == response.content,
            r.agent_used == response.metadata.agent_name,
            r.confidence == response.metadata.confidence,
            r.processing_time_ms == elapsed_ms,
            r.sources == response.metadata.sources,
            r.has_additional_context == (response.resources_used@.len() > 0),
    {
        let n = response.resources_used.len();
        let has_additional = n > 0;
        let mut i: usize = 0;
        proof {
            assert(response.resources_used.deep_view().skip(0) =~= response.resources_used.deep_view());
        }
        while i < n
            invariant
                old(self).wf(),
                n == response.resources_used@.len(),
                i <= n,
                self.registry == old(self).registry,
                self.context.user_input == old(self).context.user_input,
                self.context.session_id == old(self).context.session_id,
                self.context.therapeutic_phase == old(self).context.therapeutic_phase,
                self.context.session_count == old(self).context.session_count,
                self.context.conversation_history == old(self).context.conversation_history,
                self.context.current_model == old(self).context.current_model,
                self.context.shared_resources.wf(),
                merge_resources(
                    self.context.shared_resources.as_map(),
                    response.resources_used.deep_view().skip(i as int),
                    response.content@,
                ) == merge_resources(
                    old(self).ctx().shared_resources,
                    response.resources_used.deep_view(),
                    response.content@,
                ),
            decreases n - i,
        {
            proof {
                let keys = response.resources_used.deep_view().skip(i as int);
                assert(keys[0] == response.resources_used.deep_view()[i as int]);
                assert(keys.drop_first() =~= response.resources_used.deep_view().skip(i + 1));
            }
            let key = response.resources_used[i].clone();
            let value = response.content.clone();
            self.context.shared_resources.insert(key, value);
            i = i + 1;
        }
        proof {
            assert(response.resources_used.deep_view().skip(n as int)
                =~= Seq::<Seq<char>>::empty());
        }
        CoordinatorResponse {
            content: response.content,
            agent_used: response.metadata.agent_name,
            confidence: response.metadata.confidence,
            processing_time_ms: elapsed_ms,
            sources: response.metadata.sources,
            has_additional_context: has_additional,
        }
    }

    /// Merge externally supplied key/value pairs into the shared
    /// context (for example when restoring a persisted session).
    pub fn update_context(&mut self, updates: Vec<(String, String)>)
        requires
            old(self).wf(),
        ensures
            final(self).wf(),
            final(self).spec_agents() == old(self).spec_agents(),
            final(self).ctx() == (ContextView {
                shared_resources: merge_pairs(old(self).ctx().shared_resources, updates@),
                ..old(self).ctx()
            }),
    {
        let n = updates.len();
        let mut i: usize = 0;
        proof {
            assert(updates@.skip(0) =~= updates@);
        }
        while i < n
            invariant
                old(self).wf(),
                n == updates@.len(),
                i <= n,
                self.registry == old(self).registry,
                self.context.user_input == old(self).context.user_input,
                self.context.session_id == old(self).context.session_id,
                self.context.therapeutic_phase == old(self).context.therapeutic_phase,
                self.context.session_count == old(self).context.session_count,
                self.context.conversation_history == old(self).context.conversation_history,
                self.context.current_model == old(self).context.current_model,
                self.context.shared_resources.wf(),
                merge_pairs(self.context.shared_resources.as_map(), updates@.skip(i as int))
                    == merge_pairs(old(self).ctx().shared_resources, updates@),
            decreases n - i,
        {
            proof {
                assert(updates@.skip(i as int)[0] == updates@[i as int]);
                assert(updates@.skip(i as int).drop_first() =~= updates@.skip(i + 1));
            }
            let key = updates[i].0.clone();
            let value = updates[i].1.clone();
            self.context.shared_resources.insert(key, value);
            i = i + 1;
        }
        proof {
            assert(updates@.skip(n as int) =~= Seq::<(String, String)>::empty());
        }
    }

    /// The capabilities of every registered agent, keyed by agent name
    /// in registration order.
    pub fn get_all_capabilities(&self) -> (r: Vec<(String, Vec<Capability>)>)
        ensures
            r@.len() == self.spec_agents().len(),
            forall|i: int|
                0 <= i < r@.len() ==> r@[i].0@ == self.spec_agents()[i].spec_name(),
    {
        let n = self.registry.len();
        let mut out: Vec<(String, Vec<Capability>)> = Vec::new();
        let mut i: usize = 0;
        while i < n
            invariant
                n == self.spec_agents().len(),
                i <= n,
                out@.len() == i,
                forall|j: int| 0 <= j < i ==> out@[j].0@ == self.spec_agents()[j].spec_name(),
            decreases n - i,
        {
            let agent = self.registry.agent_at(i);
            out.push((agent.name(), agent.capabilities()));
            i = i + 1;
        }
        out
    }
}

} // verus!
