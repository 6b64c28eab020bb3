//! Multi-agent vocabulary: agent identifiers, per-agent observations,
//! actions, spaces and done flags, and the parameter-sharing and
//! communication settings of multi-agent training.  Observations, actions
//! and spaces are kept generic; the runtime fills them with tensors and
//! boxes.
use vstd::prelude::*;
use std::collections::HashMap;
use crate::text::{decimal_digits, spec_decimal};

verus! {

broadcast use vstd::std_specs::hash::group_hash_axioms;

/// Unique identifier for an agent in a multi-agent environment.
#[derive(Debug, Clone, Copy, PartialEq, Eq, Structural, Hash)]
pub struct AgentId(pub usize);

impl AgentId {
    /// Create a new agent ID.
    pub fn new(id: usize) -> (a: Self)
        ensures
            a.0 == id,
    {
        Self(id)
    }

    /// Get the underlying ID value.
    pub fn value(&self) -> (v: usize)
        ensures
            v == self.0,
    {
        self.0
    }

    /// The display text of the agent: `Agent_{id}`.
    pub fn label(&self) -> (s: String)
        ensures
            s@ == "Agent_"@ + spec_decimal(self.0 as nat),
    {
        let mut s = String::from_str("Agent_");
        let d = decimal_digits(self.0 as u128);
        s.append(d.as_str());
        s
    }
}

impl From<usize> for AgentId {
    fn from(id: usize) -> (a: Self)
        ensures
            a.0 == id,
    {
        AgentId(id)
    }
}

impl vstd::std_specs::convert::FromSpecImpl<usize> for AgentId {
    open spec fn obeys_from_spec() -> bool {
        true
    }

    open spec fn from_spec(v: usize) -> Self {
        AgentId(v)
    }
}

/// Some flag of the map is set.
pub open spec fn any_set(m: Map<usize, bool>) -> bool {
    exists|k: usize| m.contains_key(k) && m[k]
}

/// The flag of `k`, false when `k` has none.
pub open spec fn flag_of(m: Map<usize, bool>, k: usize) -> bool {
    m.contains_key(k) && m[k]
}

/// Whether some value of the map is `true`.
fn any_flag(m: &HashMap<usize, bool>) -> (b: bool)
    ensures
        b == any_set(m@),
{
    for k in it: m.keys()
        invariant
            it.seq().unref().to_set() == m@.dom(),
            forall|j: int| 0 <= j < it.index() ==> !flag_of(m@, *it.seq()[j]),
        ensures
            forall|k: usize| m@.contains_key(k) ==> !m@[k],
    {
        let f = match m.get(k) {
            Some(v) => *v,
            None => false,
        };
        if f {
            return true;
        }
    }
    false
}

/// Per-agent done flags in a multi-agent environment, keyed by agent id.
#[derive(Debug, Clone)]
pub struct MultiAgentDone {
    /// Termination flags for each agent.
    terminated: HashMap<usize, bool>,
    /// Truncation flags for each agent.
    truncated: HashMap<usize, bool>,
    /// Whether the entire environment episode is done.
    env_done: bool,
}

impl MultiAgentDone {
    /// Termination flags by agent id.
    pub closed spec fn spec_terminated(&self) -> Map<usize, bool> {
        self.terminated@
    }

    /// Truncation flags by agent id.
    pub closed spec fn spec_truncated(&self) -> Map<usize, bool> {
        self.truncated@
    }

    /// Whole-environment done flag.
    pub closed spec fn spec_env_done(&self) -> bool {
        self.env_done
    }

    /// The agent has terminated or been truncated.
    pub open spec fn spec_is_done(&self, id: usize) -> bool {
        flag_of(self.spec_terminated(), id) || flag_of(self.spec_truncated(), id)
    }

    /// Create a new multi-agent done status; the environment is done when
    /// any agent terminated or was truncated.
    pub fn new(terminated: HashMap<usize, bool>, truncated: HashMap<usize, bool>) -> (d: Self)
        ensures
            d.spec_terminated() == terminated@,
            d.spec_truncated() == truncated@,
            d.spec_env_done() == (any_set(terminated@) || any_set(truncated@)),
    {
        let env_done = any_flag(&terminated) || any_flag(&truncated);
        Self { terminated, truncated, env_done }
    }

    /// Create with environment done flag.
    pub fn with_env_done(self, done: bool) -> (d: Self)
        ensures
            d.spec_terminated() == self.spec_terminated(),
            d.spec_truncated() == self.spec_truncated(),
            d.spec_env_done() == done,
    {
        MultiAgentDone { env_done: done, ..self }
    }

    /// Check if a specific agent is done.
    pub fn is_done(&self, agent_id: &AgentId) -> (b: bool)
        ensures
            b == self.spec_is_done(agent_id.0),
    {
        self.is_terminated(agent_id) || self.is_truncated(agent_id)
    }

    /// Check if a specific agent terminated.
    pub fn is_terminated(&self, agent_id: &AgentId) -> (b: bool)
        ensures
            b == flag_of(self.spec_terminated(), agent_id.0),
    {
        match self.terminated.get(&agent_id.0) {
            Some(v) => *v,
            None => false,
        }
    }

    /// Check if a specific agent was truncated.
    pub fn is_truncated(&self, agent_id: &AgentId) -> (b: bool)
        ensures
            b == flag_of(self.spec_truncated(), agent_id.0),
    {
        match self.truncated.get(&agent_id.0) {
            Some(v) => *v,
            None => false,
        }
    }

    /// Check if the entire environment is done.
    pub fn env_done(&self) -> (b: bool)
        ensures
            b == self.spec_env_done(),
    {
        self.env_done
    }

    /// Every agent with a flag is done (terminated or truncated).
    pub open spec fn spec_all_done(&self) -> bool {
        forall|k: usize|
            (#[trigger] self.spec_terminated().contains_key(k) || self.spec_truncated().contains_key(k))
                ==> self.spec_is_done(k)
    }

    /// Whether every agent with a key in `m` is done.
    fn keys_all_done(&self, m: &HashMap<usize, bool>) -> (b: bool)
        ensures
            b == (forall|k: usize| #[trigger] m@.contains_key(k) ==> self.spec_is_done(k)),
    {
        for k in it: m.keys()
            invariant
                it.seq().unref().to_set() == m@.dom(),
                forall|j: int| 0 <= j < it.index() ==> self.spec_is_done(*it.seq()[j]),
            ensures
                forall|k: usize| m@.contains_key(k) ==> self.spec_is_done(k),
        {
            if !self.is_done(&AgentId(*k)) {
                assert(it.seq().unref().contains(*k));
                assert(it.seq().unref().to_set().contains(*k));
                assert(m@.contains_key(*k));
                return false;
            }
        }
        true
    }

    /// Check if all agents are done: every agent that has a termination or
    /// a truncation flag has terminated or been truncated.
    pub fn all_done(&self) -> (b: bool)
        ensures
            b == self.spec_all_done(),
    {
        let a = self.keys_all_done(&self.terminated);
        let b = self.keys_all_done(&self.truncated);
        a && b
    }

    /// Check if any agent is done.
    pub fn any_done(&self) -> (b: bool)
        ensures
            b == (any_set(self.spec_terminated()) || any_set(self.spec_truncated())),
    {
        any_flag(&self.terminated) || any_flag(&self.truncated)
    }

    /// Get the agents with a termination flag that are not done, each once,
    /// in the order in which the flags are stored.
    pub fn active_agents(&self) -> (v: Vec<AgentId>)
        ensures
            v@.no_duplicates(),
            forall|a: AgentId| v@.contains(a) <==>
                (self.spec_terminated().contains_key(a.0) && !self.spec_is_done(a.0)),
    {
        let mut out: Vec<AgentId> = Vec::new();
        for k in it: self.terminated.keys()
            invariant
                it.seq().unref().to_set() == self.terminated@.dom(),
                it.seq().unref().no_duplicates(),
                out@.no_duplicates(),
                forall|a: AgentId| out@.contains(a) <==> (exists|j: int| 0 <= j < it.index()
                    && #[trigger] it.seq().unref()[j] == a.0 && !self.spec_is_done(a.0)),
            ensures
                forall|a: AgentId| out@.contains(a) <==>
                    (self.spec_terminated().contains_key(a.0) && !self.spec_is_done(a.0)),
        {
            let id = AgentId(*k);
            let ghost last: int = it.index();
            assert(it.seq().unref()[last] == *k);
            let ghost before = out@;
            if !self.is_done(&id) {
                proof {
                    assert forall|a: AgentId| before.contains(a) implies a != id by {
                        let j = choose|j: int| 0 <= j < last && it.seq().unref()[j] == a.0
                            && !self.spec_is_done(a.0);
                    }
                }
                out.push(id);
                assert(out@ == before.push(id));
                assert forall|i: int, j: int| 0 <= i < out@.len() && 0 <= j < out@.len() && i != j
                    implies out@[i] != out@[j] by {
                    if i == before.len() {
                        assert(before.contains(out@[j]));
                    } else if j == before.len() {
                        assert(before.contains(out@[i]));
                    }
                }
            } else {
                assert(out@ == before);
            }
            proof {
                assert forall|a: AgentId| out@.contains(a) <==> (exists|j: int| 0 <= j < last + 1
                    && #[trigger] it.seq().unref()[j] == a.0 && !self.spec_is_done(a.0)) by {
                    if out@.contains(a) && a != id {
                        assert(before.contains(a));
                    }
                    if exists|j: int| 0 <= j < last + 1 && #[trigger] it.seq().unref()[j] == a.0
                        && !self.spec_is_done(a.0) {
                        let j = choose|j: int| 0 <= j < last + 1 && #[trigger] it.seq().unref()[j] == a.0
                            && !self.spec_is_done(a.0);
                        if j < last {
                            assert(before.contains(a));
                            let i = choose|i: int| 0 <= i < before.len() && before[i] == a;
                            assert(out@[i] == a);
                        } else {
                            assert(a == id);
                            assert(out@[before.len() as int] == id);
                        }
                    }
                }
            }
        }
        out
    }
}

/// Parameter sharing configuration for multi-agent training.
#[derive(Debug, Clone)]
pub struct ParameterSharingConfig {
    /// Whether to share policy parameters across agents.
    pub share_policy: bool,
    /// Whether to share value function parameters.
    pub share_value: bool,
    /// Agent groups that share parameters (if not full sharing).
    pub agent_groups: Option<Vec<Vec<AgentId>>>,
}

impl Default for ParameterSharingConfig {
    fn default() -> (c: Self)
        ensures
            c.share_policy && c.share_value && c.agent_groups is None,
    {
        Self { share_policy: true, share_value: true, agent_groups: None }
    }
}

impl ParameterSharingConfig {
    /// Create config for no parameter sharing.
    pub fn independent() -> (c: Self)
        ensures
            !c.share_policy && !c.share_value && c.agent_groups is None,
    {
        Self { share_policy: false, share_value: false, agent_groups: None }
    }

    /// Create config for full parameter sharing.
    pub fn full_sharing() -> (c: Self)
        ensures
            c.share_policy && c.share_value && c.agent_groups is None,
    {
        Self { share_policy: true, share_value: true, agent_groups: None }
    }

    /// Create config for group-based sharing.
    pub fn group_sharing(groups: Vec<Vec<AgentId>>) -> (c: Self)
        ensures
            c.share_policy && c.share_value && c.agent_groups == Some(groups),
    {
        Self { share_policy: true, share_value: true, agent_groups: Some(groups) }
    }
}

/// Communication configuration for multi-agent environments.
#[derive(Debug, Clone, Copy, PartialEq, Eq, Structural)]
pub struct CommunicationConfig {
    /// Whether communication is enabled.
    pub enabled: bool,
    /// Size of the message vector.
    pub message_size: usize,
    /// Whether messages are discrete or continuous.
    pub discrete_messages: bool,
    /// Number of discrete message tokens (if discrete).
    pub vocab_size: Option<usize>,
    /// Whether communication is learned or fixed.
    pub learned: bool,
}

impl Default for CommunicationConfig {
    fn default() -> (c: Self)
        ensures
            c == (CommunicationConfig {
                enabled: false,
                message_size: 0,
                discrete_messages: false,
                vocab_size: None,
                learned: true,
            }),
    {
        Self { enabled: false, message_size: 0, discrete_messages: false, vocab_size: None, learned: true }
    }
}

impl CommunicationConfig {
    /// Create config for continuous communication.
    pub fn continuous(message_size: usize) -> (c: Self)
        ensures
            c == (CommunicationConfig {
                enabled: true,
                message_size,
                discrete_messages: false,
                vocab_size: None,
                learned: true,
            }),
    {
        Self { enabled: true, message_size, discrete_messages: false, vocab_size: None, learned: true }
    }

    /// Create config for discrete communication.
    pub fn discrete(message_size: usize, vocab_size: usize) -> (c: Self)
        ensures
            c == (CommunicationConfig {
                enabled: true,
                message_size,
                discrete_messages: true,
                vocab_size: Some(vocab_size),
                learned: true,
            }),
    {
        Self {
            enabled: true,
            message_size,
            discrete_messages: true,
            vocab_size: Some(vocab_size),
            learned: true,
        }
    }
}

/// The values of the agents of `order` that have one, in that order.
pub open spec fn spec_in_order<T>(order: Seq<AgentId>, m: Map<usize, T>) -> Seq<T>
    decreases order.len(),
{
    if order.len() == 0 {
        Seq::empty()
    } else {
        let rest = spec_in_order(order.drop_last(), m);
        if m.contains_key(order.last().0) {
            rest.push(m[order.last().0])
        } else {
            rest
        }
    }
}

/// Picks, in the given order, the values of the agents that have one.
fn values_in_order<'a, T>(m: &'a HashMap<usize, T>, agent_order: &Vec<AgentId>) -> (v: Vec<&'a T>)
    ensures
        v@.unref() == spec_in_order(agent_order@, m@),
{
    let mut v: Vec<&'a T> = Vec::new();
    let mut i: usize = 0;
    while i < agent_order.len()
        invariant
            i <= agent_order.len(),
            v@.unref() == spec_in_order(agent_order@.subrange(0, i as int), m@),
        decreases agent_order.len() - i,
    {
        let ghost pre = agent_order@.subrange(0, i as int);
        let ghost post = agent_order@.subrange(0, i + 1);
        assert(post.drop_last() == pre);
        assert(post.last() == agent_order@[i as int]);
        match m.get(&agent_order[i].0) {
            Some(x) => {
                v.push(x);
                assert(v@.unref() =~= spec_in_order(post, m@));
            },
            None => {},
        }
        i = i + 1;
    }
    assert(agent_order@.subrange(0, agent_order.len() as int) == agent_order@);
    v
}

/// What each agent observes, keyed by agent id, and optionally the global
/// state for centralized training.
#[derive(Debug)]
pub struct MultiAgentObs<T> {
    observations: HashMap<usize, T>,
    global_state: Option<T>,
}

impl<T> MultiAgentObs<T> {
    /// Observations by agent id.
    pub closed spec fn spec_observations(&self) -> Map<usize, T> {
        self.observations@
    }

    /// The global state, if given.
    pub closed spec fn spec_global_state(&self) -> Option<T> {
        self.global_state
    }

    /// Observations of the agents, without a global state.
    pub fn new(observations: HashMap<usize, T>) -> (o: Self)
        ensures
            o.spec_observations() == observations@,
            o.spec_global_state() is None,
    {
        MultiAgentObs { observations, global_state: None }
    }

    /// Adds the global state.
    pub fn with_global_state(self, state: T) -> (o: Self)
        ensures
            o.spec_observations() == self.spec_observations(),
            o.spec_global_state() == Some(state),
    {
        MultiAgentObs { global_state: Some(state), ..self }
    }

    /// The observation of one agent.
    pub fn get(&self, agent_id: &AgentId) -> (r: Option<&T>)
        ensures
            match r {
                Some(x) => self.spec_observations().contains_key(agent_id.0) && *x == self.spec_observations()[agent_id.0],
                None => !self.spec_observations().contains_key(agent_id.0),
            },
    {
        self.observations.get(&agent_id.0)
    }

    /// Observations by agent id.
    pub fn observations(&self) -> (m: &HashMap<usize, T>)
        ensures
            m@ == self.spec_observations(),
    {
        &self.observations
    }

    /// The global state, if given.
    pub fn global_state(&self) -> (g: Option<&T>)
        ensures
            match g {
                Some(x) => self.spec_global_state() == Some(*x),
                None => self.spec_global_state() is None,
            },
    {
        match &self.global_state {
            Some(x) => Some(x),
            None => None,
        }
    }

    /// Number of agents with an observation.
    pub fn num_agents(&self) -> (n: usize)
        ensures
            n == self.spec_observations().len(),
    {
        self.observations.len()
    }

    /// The observations of the agents of `agent_order` that have one, in
    /// that order (what the runtime stacks).
    pub fn in_order(&self, agent_order: &Vec<AgentId>) -> (v: Vec<&T>)
        ensures
            v@.unref() == spec_in_order(agent_order@, self.spec_observations()),
    {
        values_in_order(&self.observations, agent_order)
    }
}

/// The action of each agent, keyed by agent id.
#[derive(Debug)]
pub struct JointAction<T> {
    actions: HashMap<usize, T>,
}

impl<T> JointAction<T> {
    /// Actions by agent id.
    pub closed spec fn spec_actions(&self) -> Map<usize, T> {
        self.actions@
    }

    /// A joint action from the actions of the agents.
    pub fn new(actions: HashMap<usize, T>) -> (j: Self)
        ensures
            j.spec_actions() == actions@,
    {
        JointAction { actions }
    }

    /// The action of one agent.
    pub fn get(&self, agent_id: &AgentId) -> (r: Option<&T>)
        ensures
            match r {
                Some(x) => self.spec_actions().contains_key(agent_id.0) && *x == self.spec_actions()[agent_id.0],
                None => !self.spec_actions().contains_key(agent_id.0),
            },
    {
        self.actions.get(&agent_id.0)
    }

    /// Actions by agent id.
    pub fn actions(&self) -> (m: &HashMap<usize, T>)
        ensures
            m@ == self.spec_actions(),
    {
        &self.actions
    }

    /// The actions of the agents of `agent_order` that have one, in that
    /// order (what the runtime stacks).
    pub fn in_order(&self, agent_order: &Vec<AgentId>) -> (v: Vec<&T>)
        ensures
            v@.unref() == spec_in_order(agent_order@, self.spec_actions()),
    {
        values_in_order(&self.actions, agent_order)
    }

    /// The joint action giving the `i`-th value to the `i`-th agent of
    /// `agent_order` (a later duplicate agent wins).
    pub fn from_ordered(values: Vec<T>, agent_order: &Vec<AgentId>) -> (j: Self)
        requires
            values.len() == agent_order.len(),
        ensures
            forall|a: AgentId| #[trigger] j.spec_actions().contains_key(a.0) <==> agent_order@.contains(a),
            forall|i: int| 0 <= i < agent_order.len() && (forall|k: int| i < k < agent_order.len() ==> agent_order@[k] != agent_order@[i])
                ==> j.spec_actions()[#[trigger] agent_order@[i].0] == values@[i],
    {
        let mut actions: HashMap<usize, T> = HashMap::new();
        let mut vals = values;
        let ghost all = vals@;
        let mut i: usize = 0;
        while i < agent_order.len()
            invariant
                i <= agent_order.len(),
                all.len() == agent_order.len(),
                vals@ == all.subrange(i as int, all.len() as int),
                forall|a: AgentId| #[trigger] actions@.contains_key(a.0) <==> agent_order@.subrange(0, i as int).contains(a),
                forall|p: int| 0 <= p < i && (forall|k: int| p < k < i ==> agent_order@[k] != agent_order@[p])
                    ==> actions@[#[trigger] agent_order@[p].0] == all[p],
            decreases agent_order.len() - i,
        {
            let x = vals.remove(0);
            let id = agent_order[i].0;
            actions.insert(id, x);
            proof {
                let pre = agent_order@.subrange(0, i as int);
                let post = agent_order@.subrange(0, i + 1);
                assert(post == pre.push(agent_order@[i as int]));
                assert forall|a: AgentId| #[trigger] actions@.contains_key(a.0) <==> post.contains(a) by {
                    if post.contains(a) {
                        let q = choose|q: int| 0 <= q < post.len() && post[q] == a;
                        if q < i {
                            assert(pre[q] == a);
                        }
                    }
                    if pre.contains(a) {
                        let q = choose|q: int| 0 <= q < pre.len() && pre[q] == a;
                        assert(post[q] == a);
                    }
                    if a.0 == id {
                        assert(post[i as int] == agent_order@[i as int]);
                    }
                }
            }
            i = i + 1;
        }
        assert(agent_order@.subrange(0, agent_order.len() as int) == agent_order@);
        JointAction { actions }
    }
}

/// Observation or action spaces of the agents: one shared by all, or one
/// per agent id.
#[derive(Debug, Clone)]
pub enum MultiAgentSpace<S> {
    /// Every agent has the same space.
    Homogeneous(S),
    /// Each agent has its own space.
    Heterogeneous(HashMap<usize, S>),
}

impl<S> MultiAgentSpace<S> {
    /// The space of one agent: the shared one, or the agent's own if it has
    /// one.
    pub fn get(&self, agent_id: &AgentId) -> (r: Option<&S>)
        ensures
            match self {
                MultiAgentSpace::Homogeneous(s) => r == Some(s),
                MultiAgentSpace::Heterogeneous(m) => match r {
                    Some(x) => m@.contains_key(agent_id.0) && *x == m@[agent_id.0],
                    None => !m@.contains_key(agent_id.0),
                },
            },
    {
        match self {
            MultiAgentSpace::Homogeneous(s) => Some(s),
            MultiAgentSpace::Heterogeneous(m) => m.get(&agent_id.0),
        }
    }

    /// Whether all agents share one space.
    pub fn is_homogeneous(&self) -> (b: bool)
        ensures
            b == (self is Homogeneous),
    {
        match self {
            MultiAgentSpace::Homogeneous(_) => true,
            MultiAgentSpace::Heterogeneous(_) => false,
        }
    }
}

} // verus!
