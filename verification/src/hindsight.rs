//! Hindsight goal relabelling: for each finished episode, which goal every
//! transition is stored with (its own desired goal, then goals chosen by the
//! relabelling strategy), and the store of past episodes that the random
//! strategy draws goals from.  The transitions themselves are opaque here.
use vstd::prelude::*;
use rand::rngs::StdRng;
use std::collections::VecDeque;
use crate::space::index_below;

verus! {

/// Goal relabelling strategy.
#[derive(Debug, Clone, Copy, PartialEq, Eq, Structural)]
pub enum HERStrategy {
    /// Use the final achieved goal of the episode.
    Final,
    /// Sample `k` goals from later steps of the episode.
    Future {
        /// Number of future goals to sample per transition.
        k: usize,
    },
    /// Sample goals uniformly from the whole episode.
    Episode,
    /// Sample goals uniformly from the stored past episodes.
    Random,
}

impl Default for HERStrategy {
    fn default() -> (s: Self)
        ensures
            s == (HERStrategy::Future { k: 4 }),
    {
        HERStrategy::Future { k: 4 }
    }
}

/// Where the goal of a stored transition comes from.
#[derive(Debug, Clone, Copy, PartialEq, Eq, Structural)]
pub enum GoalSource {
    /// The goal the episode was collected for.
    Desired,
    /// The goal achieved at this step of the same episode.
    Achieved(usize),
    /// The goal achieved at step `.1` of stored episode `.0`.
    Stored(usize, usize),
}

/// A step of the finished episode and the goal it is stored with.
#[derive(Debug, Clone, Copy, PartialEq, Eq, Structural)]
pub struct Relabel {
    /// Index of the transition in the episode.
    pub step: usize,
    /// Goal the transition is stored with.
    pub goal: GoalSource,
}

/// Number of future goals drawn for step `i` of an episode of `n` steps.
pub open spec fn future_count(n: int, k: int, i: int) -> int {
    if i + 1 < n {
        if k < n - i - 1 { k } else { n - i - 1 }
    } else {
        0
    }
}

/// Number of future goals drawn for the steps before `i`.
pub open spec fn future_offset(n: int, k: int, i: int) -> int
    decreases i,
{
    if i <= 0 {
        0
    } else {
        future_offset(n, k, i - 1) + future_count(n, k, i - 1)
    }
}

/// Entry `t` of the plan stores step `t` with its desired goal.
pub open spec fn own_goal_entry(plan: Seq<Relabel>, t: int) -> bool {
    plan[t] == Relabel { step: t as usize, goal: GoalSource::Desired }
}

/// The relabelled entry of step `t` uses the episode's last achieved goal.
pub open spec fn final_entry(plan: Seq<Relabel>, n: int, t: int) -> bool {
    plan[n + t] == Relabel { step: t as usize, goal: GoalSource::Achieved((n - 1) as usize) }
}

/// The relabelled entry of step `t` uses a goal achieved in the episode.
pub open spec fn episode_entry(plan: Seq<Relabel>, n: int, t: int) -> bool {
    &&& plan[n + t].step == t
    &&& plan[n + t].goal matches GoalSource::Achieved(g) && g < n
}

/// The relabelled entry of step `t` uses a goal of a stored episode.
pub open spec fn stored_entry(plan: Seq<Relabel>, n: int, stored: Seq<usize>, t: int) -> bool {
    &&& plan[n + t].step == t
    &&& plan[n + t].goal matches GoalSource::Stored(e, g) && e < stored.len() && g < stored[e as int]
}

/// The `j`-th future goal of step `i` was achieved after step `i`.
pub open spec fn future_entry(plan: Seq<Relabel>, n: int, k: int, i: int, j: int) -> bool {
    &&& plan[n + future_offset(n, k, i) + j].step == i
    &&& plan[n + future_offset(n, k, i) + j].goal matches GoalSource::Achieved(g) && i < g < n
}

/// `plan` relabels an episode of `n` steps under `strategy`, with stored
/// episodes of lengths `stored`: first every step with its desired goal, in
/// order; then the strategy's goals, step by step.
pub open spec fn is_relabel_plan(strategy: HERStrategy, n: int, stored: Seq<usize>, plan: Seq<Relabel>) -> bool {
    &&& forall|t: int| 0 <= t < n ==> #[trigger] own_goal_entry(plan, t)
    &&& match strategy {
        HERStrategy::Final => {
            &&& plan.len() == 2 * n
            &&& forall|t: int| 0 <= t < n ==> #[trigger] final_entry(plan, n, t)
        },
        HERStrategy::Future { k } => {
            &&& plan.len() == n + future_offset(n, k as int, n)
            &&& forall|i: int, j: int|
                0 <= i < n && 0 <= j < future_count(n, k as int, i) ==> #[trigger] future_entry(plan, n, k as int, i, j)
        },
        HERStrategy::Episode => {
            &&& plan.len() == 2 * n
            &&& forall|t: int| 0 <= t < n ==> #[trigger] episode_entry(plan, n, t)
        },
        HERStrategy::Random => {
            &&& plan.len() == 2 * n
            &&& stored.len() == 0 ==> forall|t: int| 0 <= t < n ==> #[trigger] episode_entry(plan, n, t)
            &&& stored.len() > 0 ==> forall|t: int| 0 <= t < n ==> #[trigger] stored_entry(plan, n, stored, t)
        },
    }
}

proof fn lemma_future_offset_mono(n: int, k: int, i: int, j: int)
    requires
        0 <= k,
        i <= j,
    ensures
        future_offset(n, k, i) <= future_offset(n, k, j),
    decreases j - i,
{
    if i < j {
        lemma_future_offset_mono(n, k, i, j - 1);
        assert(future_count(n, k, j - 1) >= 0);
    }
}

/// Appends one goal per step, `g(t)` for step `t`.
fn push_final(plan: &mut Vec<Relabel>, n: usize)
    requires
        old(plan).len() == n,
        n > 0,
    ensures
        final(plan).len() == 2 * n,
        forall|t: int| 0 <= t < n ==> final(plan)@[t] == old(plan)@[t],
        forall|t: int| 0 <= t < n ==> #[trigger] final_entry(final(plan)@, n as int, t),
{
    let ghost start = plan@;
    let last = n - 1;
    let mut t: usize = 0;
    while t < n
        invariant
            t <= n,
            last == n - 1,
            plan.len() == n + t,
            forall|u: int| 0 <= u < n ==> plan@[u] == start[u],
            forall|u: int| 0 <= u < t ==> #[trigger] final_entry(plan@, n as int, u),
        decreases n - t,
    {
        let ghost before = plan@;
        plan.push(Relabel { step: t, goal: GoalSource::Achieved(last) });
        proof {
            assert forall|u: int| 0 <= u < t + 1 implies #[trigger] final_entry(plan@, n as int, u) by {
                if u < t {
                    assert(final_entry(before, n as int, u));
                }
            }
        }
        t = t + 1;
    }
}

/// Appends, for each step, one goal drawn uniformly from the episode.
fn push_episode(plan: &mut Vec<Relabel>, n: usize, rng: &mut StdRng)
    requires
        old(plan).len() == n,
    ensures
        final(plan).len() == 2 * n,
        forall|t: int| 0 <= t < n ==> final(plan)@[t] == old(plan)@[t],
        forall|t: int| 0 <= t < n ==> #[trigger] episode_entry(final(plan)@, n as int, t),
{
    let ghost start = plan@;
    let mut t: usize = 0;
    while t < n
        invariant
            t <= n,
            plan.len() == n + t,
            forall|u: int| 0 <= u < n ==> plan@[u] == start[u],
            forall|u: int| 0 <= u < t ==> #[trigger] episode_entry(plan@, n as int, u),
        decreases n - t,
    {
        let g = index_below(rng, n);
        let ghost before = plan@;
        plan.push(Relabel { step: t, goal: GoalSource::Achieved(g) });
        proof {
            assert forall|u: int| 0 <= u < t + 1 implies #[trigger] episode_entry(plan@, n as int, u) by {
                if u < t {
                    assert(episode_entry(before, n as int, u));
                }
            }
        }
        t = t + 1;
    }
}

/// Appends, for each step, a goal drawn from a uniformly drawn stored episode.
fn push_stored(plan: &mut Vec<Relabel>, n: usize, lens: &Vec<usize>, rng: &mut StdRng)
    requires
        old(plan).len() == n,
        lens.len() > 0,
        forall|e: int| 0 <= e < lens.len() ==> lens[e] > 0,
    ensures
        final(plan).len() == 2 * n,
        forall|t: int| 0 <= t < n ==> final(plan)@[t] == old(plan)@[t],
        forall|t: int| 0 <= t < n ==> #[trigger] stored_entry(final(plan)@, n as int, lens@, t),
{
    let ghost start = plan@;
    let mut t: usize = 0;
    while t < n
        invariant
            t <= n,
            plan.len() == n + t,
            lens.len() > 0,
            forall|e: int| 0 <= e < lens.len() ==> lens[e] > 0,
            forall|u: int| 0 <= u < n ==> plan@[u] == start[u],
            forall|u: int| 0 <= u < t ==> #[trigger] stored_entry(plan@, n as int, lens@, u),
        decreases n - t,
    {
        let e = index_below(rng, lens.len());
        let g = index_below(rng, lens[e]);
        let ghost before = plan@;
        plan.push(Relabel { step: t, goal: GoalSource::Stored(e, g) });
        proof {
            assert forall|u: int| 0 <= u < t + 1 implies #[trigger] stored_entry(plan@, n as int, lens@, u) by {
                if u < t {
                    assert(stored_entry(before, n as int, lens@, u));
                }
            }
        }
        t = t + 1;
    }
}

/// Appends, for each step, `min(k, later steps)` goals drawn uniformly
/// from the later steps of the episode.
fn push_future(plan: &mut Vec<Relabel>, n: usize, k: usize, rng: &mut StdRng)
    requires
        old(plan).len() == n,
    ensures
        final(plan).len() == n + future_offset(n as int, k as int, n as int),
        forall|t: int| 0 <= t < n ==> final(plan)@[t] == old(plan)@[t],
        forall|i: int, j: int|
            0 <= i < n && 0 <= j < future_count(n as int, k as int, i)
                ==> #[trigger] future_entry(final(plan)@, n as int, k as int, i, j),
{
    let ghost start = plan@;
    let ghost ni = n as int;
    let ghost ki = k as int;
    let mut idx: usize = 0;
    while idx < n
        invariant
            idx <= n,
            ni == n,
            ki == k,
            plan.len() == n + future_offset(ni, ki, idx as int),
            forall|u: int| 0 <= u < n ==> plan@[u] == start[u],
            forall|i: int, j: int|
                0 <= i < idx && 0 <= j < future_count(ni, ki, i) ==> #[trigger] future_entry(plan@, ni, ki, i, j),
        decreases n - idx,
    {
        if idx + 1 < n {
            let later = n - idx - 1;
            let num = if k < later { k } else { later };
            let mut s: usize = 0;
            proof {
                lemma_future_offset_mono(ni, ki, 0, idx as int);
            }
            while s < num
                invariant
                    future_offset(ni, ki, idx as int) >= 0,
                    idx + 1 < n,
                    later == n - idx - 1,
                    num == future_count(ni, ki, idx as int),
                    s <= num,
                    ni == n,
                    ki == k,
                    plan.len() == n + future_offset(ni, ki, idx as int) + s,
                    forall|u: int| 0 <= u < n ==> plan@[u] == start[u],
                    forall|i: int, j: int|
                        0 <= i < idx && 0 <= j < future_count(ni, ki, i) ==> #[trigger] future_entry(plan@, ni, ki, i, j),
                    forall|j: int| 0 <= j < s ==> #[trigger] future_entry(plan@, ni, ki, idx as int, j),
                decreases num - s,
            {
                let r = index_below(rng, later);
                let ghost before = plan@;
                plan.push(Relabel { step: idx, goal: GoalSource::Achieved(idx + 1 + r) });
                proof {
                    assert(plan@ == before.push(Relabel { step: idx, goal: GoalSource::Achieved((idx + 1 + r) as usize) }));
                    assert forall|i: int, j: int|
                        0 <= i < idx && 0 <= j < future_count(ni, ki, i) implies #[trigger] future_entry(plan@, ni, ki, i, j) by {
                        assert(future_entry(before, ni, ki, i, j));
                        lemma_future_offset_mono(ni, ki, i + 1, idx as int);
                        lemma_future_offset_mono(ni, ki, 0, i);
                        assert(future_offset(ni, ki, i + 1) == future_offset(ni, ki, i) + future_count(ni, ki, i));
                        let x = ni + future_offset(ni, ki, i) + j;
                        assert(0 <= x < before.len());
                        assert(plan@[x] == before[x]);
                    }
                    assert forall|j: int| 0 <= j < s + 1 implies #[trigger] future_entry(plan@, ni, ki, idx as int, j) by {
                        let x = ni + future_offset(ni, ki, idx as int) + j;
                        lemma_future_offset_mono(ni, ki, 0, idx as int);
                        if j < s {
                            assert(future_entry(before, ni, ki, idx as int, j));
                            assert(plan@[x] == before[x]);
                        } else {
                            assert(x == before.len());
                            assert(plan@[x].step == idx);
                        }
                    }
                }
                s = s + 1;
            }
        }
        proof {
            assert forall|i: int, j: int|
                0 <= i < idx + 1 && 0 <= j < future_count(ni, ki, i) implies #[trigger] future_entry(plan@, ni, ki, i, j) by {
                if i == idx as int {
                    assert(idx + 1 < n);
                }
            }
        }
        idx = idx + 1;
    }
}

/// The goals each step of a finished episode of `n` steps is stored with:
/// first every step with its desired goal, then the goals chosen by
/// `strategy`; `stored_lens` are the lengths of the stored past episodes.
/// Goals are drawn from `rng`.
pub fn relabel_plan(strategy: HERStrategy, n: usize, stored_lens: &Vec<usize>, rng: &mut StdRng) -> (plan: Vec<Relabel>)
    requires
        forall|e: int| 0 <= e < stored_lens.len() ==> stored_lens[e] > 0,
    ensures
        is_relabel_plan(strategy, n as int, stored_lens@, plan@),
{
    let mut plan: Vec<Relabel> = Vec::new();
    let mut t: usize = 0;
    while t < n
        invariant
            t <= n,
            plan.len() == t,
            forall|u: int| 0 <= u < t ==> #[trigger] own_goal_entry(plan@, u),
        decreases n - t,
    {
        let ghost before = plan@;
        plan.push(Relabel { step: t, goal: GoalSource::Desired });
        proof {
            assert forall|u: int| 0 <= u < t + 1 implies #[trigger] own_goal_entry(plan@, u) by {
                if u < t {
                    assert(own_goal_entry(before, u));
                }
            }
        }
        t = t + 1;
    }
    let ghost own_goals = plan@;
    match strategy {
        HERStrategy::Final => {
            if n > 0 {
                push_final(&mut plan, n);
            }
        },
        HERStrategy::Future { k } => {
            push_future(&mut plan, n, k, rng);
        },
        HERStrategy::Episode => {
            push_episode(&mut plan, n, rng);
        },
        HERStrategy::Random => {
            if stored_lens.len() == 0 {
                push_episode(&mut plan, n, rng);
            } else {
                push_stored(&mut plan, n, stored_lens, rng);
            }
        },
    }
    assert forall|u: int| 0 <= u < n implies #[trigger] own_goal_entry(plan@, u) by {
        assert(own_goal_entry(own_goals, u));
    }
    plan
}

/// The entries after adding `episode` to a store keeping `max_episodes`:
/// the oldest entry leaves first when the store is at its size.
pub open spec fn spec_archive<A>(stored: Seq<A>, max_episodes: nat, episode: A) -> Seq<A> {
    if stored.len() >= max_episodes && stored.len() > 0 {
        stored.drop_first().push(episode)
    } else {
        stored.push(episode)
    }
}

/// Lengths of the stored episodes.
pub open spec fn spec_lens<T>(stored: Seq<Seq<T>>) -> Seq<usize> {
    stored.map_values(|e: Seq<T>| e.len() as usize)
}

/// The store keeps at most `max(max_episodes, 1)` episodes, whatever is
/// archived.
pub proof fn lemma_archive_bounded<A>(stored: Seq<A>, max_episodes: nat, episode: A)
    requires
        stored.len() <= if max_episodes == 0 { 1 } else { max_episodes },
    ensures
        spec_archive(stored, max_episodes, episode).len() <= if max_episodes == 0 { 1 } else { max_episodes },
        spec_archive(stored, max_episodes, episode).last() == episode,
{
}

/// Episode bookkeeping of the hindsight buffer: the episode being
/// collected, the last finished one, and the store of past episodes.
pub struct HerEpisodes<T> {
    strategy: HERStrategy,
    current: Vec<T>,
    finished: Vec<T>,
    stored: VecDeque<Vec<T>>,
    max_episodes: usize,
}

impl<T> HerEpisodes<T> {
    /// Relabelling strategy.
    pub closed spec fn spec_strategy(&self) -> HERStrategy {
        self.strategy
    }

    /// Transitions of the episode being collected.
    pub closed spec fn spec_current(&self) -> Seq<T> {
        self.current@
    }

    /// The last finished episode.
    pub closed spec fn spec_finished(&self) -> Seq<T> {
        if self.strategy == HERStrategy::Random && self.stored@.len() > 0 {
            self.stored@.last()@
        } else {
            self.finished@
        }
    }

    /// The stored past episodes, oldest first.
    pub closed spec fn spec_stored(&self) -> Seq<Seq<T>> {
        self.stored@.map_values(|e: Vec<T>| e@)
    }

    /// Number of episodes the store keeps.
    pub closed spec fn spec_max_episodes(&self) -> nat {
        self.max_episodes as nat
    }

    /// Well formed: stored episodes are never empty.
    pub closed spec fn wf(&self) -> bool {
        forall|e: int| 0 <= e < self.stored@.len() ==> #[trigger] self.stored@[e]@.len() > 0
    }

    /// Empty bookkeeping for a buffer of `capacity` transitions: the store
    /// keeps `capacity / 50` episodes (about fifty steps per episode).
    pub fn new(strategy: HERStrategy, capacity: usize) -> (h: Self)
        ensures
            h.wf(),
            h.spec_strategy() == strategy,
            h.spec_current() == Seq::<T>::empty(),
            h.spec_finished() == Seq::<T>::empty(),
            h.spec_stored() == Seq::<Seq<T>>::empty(),
            h.spec_max_episodes() == capacity / 50,
    {
        let h = HerEpisodes {
            strategy,
            current: Vec::new(),
            finished: Vec::new(),
            stored: VecDeque::new(),
            max_episodes: capacity / 50,
        };
        assert(h.spec_stored() =~= Seq::<Seq<T>>::empty());
        h
    }

    /// Relabelling strategy.
    pub fn strategy(&self) -> (s: HERStrategy)
        ensures
            s == self.spec_strategy(),
    {
        self.strategy
    }

    /// Number of episodes the store keeps.
    pub fn max_episodes(&self) -> (m: usize)
        ensures
            m == self.spec_max_episodes(),
    {
        self.max_episodes
    }

    /// Number of transitions in the episode being collected.
    pub fn current_len(&self) -> (n: usize)
        ensures
            n == self.spec_current().len(),
    {
        self.current.len()
    }

    /// Number of stored past episodes.
    pub fn stored_len(&self) -> (n: usize)
        ensures
            n == self.spec_stored().len(),
    {
        self.stored.len()
    }

    /// Stored episode `i`, oldest first.
    pub fn stored_episode(&self, i: usize) -> (e: &Vec<T>)
        requires
            i < self.spec_stored().len(),
        ensures
            e@ == self.spec_stored()[i as int],
    {
        &self.stored[i]
    }

    /// The last finished episode.
    pub fn finished(&self) -> (e: &Vec<T>)
        ensures
            e@ == self.spec_finished(),
    {
        if self.strategy == HERStrategy::Random && self.stored.len() > 0 {
            &self.stored[self.stored.len() - 1]
        } else {
            &self.finished
        }
    }

    /// Lengths of the stored episodes.
    fn stored_lens(&self) -> (v: Vec<usize>)
        requires
            self.wf(),
        ensures
            v@ == spec_lens(self.spec_stored()),
            forall|e: int| 0 <= e < v.len() ==> v[e] > 0,
    {
        let mut v: Vec<usize> = Vec::new();
        let mut i: usize = 0;
        while i < self.stored.len()
            invariant
                i <= self.stored@.len(),
                self.wf(),
                v.len() == i,
                forall|e: int| 0 <= e < i ==> v[e] == self.stored@[e]@.len(),
                forall|e: int| 0 <= e < i ==> v[e] > 0,
            decreases self.stored@.len() - i,
        {
            assert(self.stored@[i as int]@.len() > 0);
            v.push(self.stored[i].len());
            i = i + 1;
        }
        assert(v@ =~= spec_lens(self.spec_stored()));
        v
    }

    /// Ends the episode being collected.  With no transitions collected
    /// nothing happens and `None` comes back.  Otherwise the episode becomes
    /// the finished one, and the goals its steps are stored with come back;
    /// under the random strategy it is first drawn against the store (the
    /// oldest episode having left when the store was at its size) and then
    /// archived.
    pub fn end_episode(&mut self, rng: &mut StdRng) -> (r: Option<Vec<Relabel>>)
        requires
            old(self).wf(),
        ensures
            final(self).wf(),
            final(self).spec_strategy() == old(self).spec_strategy(),
            final(self).spec_max_episodes() == old(self).spec_max_episodes(),
            old(self).spec_current().len() == 0 <==> r is None,
            r is None ==> *final(self) == *old(self),
            r matches Some(plan) ==> {
                let n = old(self).spec_current().len() as int;
                let kept = if old(self).spec_strategy() == HERStrategy::Random
                    && old(self).spec_stored().len() >= old(self).spec_max_episodes()
                    && old(self).spec_stored().len() > 0 {
                    old(self).spec_stored().drop_first()
                } else {
                    old(self).spec_stored()
                };
                &&& final(self).spec_current() == Seq::<T>::empty()
                &&& final(self).spec_finished() == old(self).spec_current()
                &&& is_relabel_plan(old(self).spec_strategy(), n, spec_lens(kept), plan@)
                &&& final(self).spec_stored() == if old(self).spec_strategy() == HERStrategy::Random {
                    spec_archive(old(self).spec_stored(), old(self).spec_max_episodes(), old(self).spec_current())
                } else {
                    old(self).spec_stored()
                }
            },
    {
        if self.current.len() == 0 {
            return None;
        }
        let ghost old_stored = self.spec_stored();
        let ghost old_current = self.current@;
        let mut episode: Vec<T> = Vec::new();
        std::mem::swap(&mut episode, &mut self.current);
        let n = episode.len();
        if self.strategy == HERStrategy::Random {
            if self.stored.len() >= self.max_episodes {
                let _ = self.stored.pop_front();
            }
            proof {
                if old_stored.len() >= self.max_episodes && old_stored.len() > 0 {
                    assert(self.spec_stored() =~= old_stored.drop_first());
                } else {
                    assert(self.spec_stored() =~= old_stored);
                }
                assert(self.wf());
            }
            let lens = self.stored_lens();
            let plan = relabel_plan(self.strategy, n, &lens, rng);
            self.stored.push_back(episode);
            self.finished = Vec::new();
            proof {
                assert(self.spec_stored() =~= spec_archive(old_stored, self.max_episodes as nat, old_current));
                assert(self.wf());
            }
            Some(plan)
        } else {
            let lens = self.stored_lens();
            let plan = relabel_plan(self.strategy, n, &lens, rng);
            self.finished = episode;
            Some(plan)
        }
    }

    /// Adds a transition to the episode being collected; when `done`, the
    /// episode ends as in [`Self::end_episode`].
    pub fn add(&mut self, transition: T, done: bool, rng: &mut StdRng) -> (r: Option<Vec<Relabel>>)
        requires
            old(self).wf(),
        ensures
            final(self).wf(),
            final(self).spec_strategy() == old(self).spec_strategy(),
            final(self).spec_max_episodes() == old(self).spec_max_episodes(),
            !done ==> r is None && final(self).spec_current() == old(self).spec_current().push(transition)
                && final(self).spec_stored() == old(self).spec_stored()
                && final(self).spec_finished() == old(self).spec_finished(),
            done ==> r is Some && final(self).spec_current() == Seq::<T>::empty()
                && final(self).spec_finished() == old(self).spec_current().push(transition),
    {
        self.current.push(transition);
        if done {
            self.end_episode(rng)
        } else {
            None
        }
    }

    /// Forgets the episode being collected and every stored episode.
    pub fn clear(&mut self)
        ensures
            final(self).wf(),
            final(self).spec_strategy() == old(self).spec_strategy(),
            final(self).spec_max_episodes() == old(self).spec_max_episodes(),
            final(self).spec_current() == Seq::<T>::empty(),
            final(self).spec_stored() == Seq::<Seq<T>>::empty(),
    {
        self.current.clear();
        self.stored.clear();
        assert(self.spec_stored() =~= Seq::<Seq<T>>::empty());
    }
}

} // verus!
