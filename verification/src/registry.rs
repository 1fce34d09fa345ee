//! The agent registry: named agents, scored per request, best one
//! selected above a fixed confidence threshold.

use vstd::prelude::*;
use vstd::pervasive::VecAdditionalExecFns;
use crate::protocol::Agent;
use crate::protocol::AgentRequest;
use crate::text::str_eq;

verus! {

/// The fixed confidence threshold, in hundredths: an agent is selected
/// only when its score is strictly above it.  It prevents
/// low-confidence agents from hijacking ambiguous input.
pub const CONFIDENCE_THRESHOLD: u32 = 50;

/// A registry of agents with unique names; re-registering a name
/// replaces the earlier agent in place.
pub struct AgentRegistry<A: Agent> {
    agents: Vec<A>,
}

impl<A: Agent> AgentRegistry<A> {
    /// The registered agents, in registration order.
    pub closed spec fn spec_agents(self) -> Seq<A> {
        self.agents@
    }

    /// No two registered agents share a name.
    pub open spec fn wf(self) -> bool {
        forall|i: int, j: int|
            0 <= i < j < self.spec_agents().len() ==> self.spec_agents()[i].spec_name()
                != self.spec_agents()[j].spec_name()
    }

    /// An empty registry.
    pub fn new() -> (r: AgentRegistry<A>)
        ensures
            r.spec_agents().len() == 0,
            r.wf(),
    {
        AgentRegistry { agents: Vec::new() }
    }

    /// Register an agent.  A registered agent with the same name is
    /// replaced in place; otherwise the agent is appended.
    pub fn register(&mut self, agent: A)
        requires
            old(self).wf(),
        ensures
            final(self).wf(),
            if exists|i: int|
                0 <= i < old(self).spec_agents().len() && old(self).spec_agents()[i].spec_name()
                    == agent.spec_name() {
                final(self).spec_agents() == old(self).spec_agents().update(
                    choose|i: int|
                        0 <= i < old(self).spec_agents().len()
                            && old(self).spec_agents()[i].spec_name() == agent.spec_name(),
                    agent,
                )
            } else {
                final(self).spec_agents() == old(self).spec_agents().push(agent)
            },
    {
        let name = agent.name();
        let n = self.agents.len();
        let mut i: usize = 0;
        while i < n
            invariant
                n == self.agents.len(),
                i <= n,
                old(self).wf(),
                self.agents@ == old(self).agents@,
                name@ == agent.spec_name(),
                forall|j: int| 0 <= j < i ==> self.agents@[j].spec_name() != agent.spec_name(),
            decreases n - i,
        {
            let existing = self.agents[i].name();
            if str_eq(existing.as_str(), name.as_str()) {
                self.agents.set(i, agent);
                proof {
                    let k = choose|k: int|
                        0 <= k < old(self).spec_agents().len()
                            && old(self).spec_agents()[k].spec_name() == agent.spec_name();
                    assert(k == i);
                    assert forall|a: int, b: int|
                        0 <= a < b < self.agents@.len() implies self.agents@[a].spec_name()
                        != self.agents@[b].spec_name() by {
                        assert(old(self).agents@[a].spec_name() != old(
                            self,
                        ).agents@[b].spec_name());
                    }
                }
                return ;
            }
            i = i + 1;
        }
        self.agents.push(agent);
        proof {
            assert forall|a: int, b: int|
                0 <= a < b < self.agents@.len() implies self.agents@[a].spec_name()
                != self.agents@[b].spec_name() by {
                if b < self.agents@.len() - 1 {
                    assert(old(self).agents@[a].spec_name() != old(self).agents@[b].spec_name());
                } else {
                    assert(old(self).agents@[a].spec_name() != agent.spec_name());
                }
            }
        }
    }

    /// How many agents are registered.
    pub fn len(&self) -> (r: usize)
        ensures
            r == self.spec_agents().len(),
    {
        self.agents.len()
    }

    /// The agent at a registration position.
    pub fn agent_at(&self, i: usize) -> (r: &A)
        requires
            i < self.spec_agents().len(),
        ensures
            *r == self.spec_agents()[i as int],
    {
        &self.agents[i]
    }

    /// The registered agent with this name, if any.
    pub fn get_agent(&self, name: &str) -> (r: Option<&A>)
        ensures
            match r {
                Option::Some(a) => exists|i: int|
                    0 <= i < self.spec_agents().len() && self.spec_agents()[i] == *a
                        && a.spec_name() == name@,
                Option::None => forall|i: int|
                    0 <= i < self.spec_agents().len() ==> self.spec_agents()[i].spec_name()
                        != name@,
            },
    {
        let n = self.agents.len();
        let mut i: usize = 0;
        while i < n
            invariant
                n == self.agents.len(),
                i <= n,
                forall|j: int| 0 <= j < i ==> self.agents@[j].spec_name() != name@,
            decreases n - i,
        {
            let existing = self.agents[i].name();
            if str_eq(existing.as_str(), name) {
                proof {
                    assert(0 <= i < self.spec_agents().len() && self.spec_agents()[
                        i as int
                    ].spec_name() == name@);
                }
                return Option::Some(&self.agents[i]);
            }
            i = i + 1;
        }
        Option::None
    }

    /// Select the best agent for a request: every agent is scored, the
    /// maximum wins, the first-registered agent wins exact ties, and a
    /// winner is returned only when its score is strictly above the
    /// fixed threshold.  The returned position never names an agent
    /// scoring at or below the threshold, and no agent outscores it.
    pub fn find_best_agent(&self, req: &AgentRequest) -> (r: Option<usize>)
        ensures
            match r {
                Option::Some(i) => i < self.spec_agents().len() && self.spec_agents()[
                    i as int
                ].spec_score(req) > CONFIDENCE_THRESHOLD && (forall|j: int|
                    0 <= j < self.spec_agents().len() ==> self.spec_agents()[j].spec_score(req)
                        <= self.spec_agents()[i as int].spec_score(req)) && (forall|j: int|
                    0 <= j < i ==> self.spec_agents()[j].spec_score(req) < self.spec_agents()[
                        i as int
                    ].spec_score(req)),
                Option::None => forall|j: int|
                    0 <= j < self.spec_agents().len() ==> self.spec_agents()[j].spec_score(req)
                        <= CONFIDENCE_THRESHOLD,
            },
    {
        let n = self.agents.len();
        let mut best: Option<usize> = Option::None;
        let mut best_score: u32 = 0;
        let mut i: usize = 0;
        while i < n
            invariant
                n == self.agents.len(),
                i <= n,
                match best {
                    Option::Some(b) => b < i && best_score == self.agents@[
                        b as int
                    ].spec_score(req) && best_score > 0 && (forall|j: int|
                        0 <= j < i ==> self.agents@[j].spec_score(req) <= best_score) && (forall|
                        j: int,
                    |
                        0 <= j < b ==> self.agents@[j].spec_score(req) < best_score),
                    Option::None => best_score == 0 && forall|j: int|
                        0 <= j < i ==> self.agents@[j].spec_score(req) == 0,
                },
            decreases n - i,
        {
            let score = self.agents[i].can_handle(req);
            if score > best_score {
                best_score = score;
                best = Option::Some(i);
            }
            i = i + 1;
        }
        if best_score > CONFIDENCE_THRESHOLD {
            best
        } else {
            Option::None
        }
    }
}

} // verus!
