//! Environment wrappers whose bookkeeping needs no tensors: the builder that
//! chains wrappers, the step counter that truncates long episodes, the
//! episode counter that reports lengths, and which template each vectorized
//! environment copies.
use vstd::prelude::*;

verus! {

/// Convenience type for chaining multiple wrappers around an environment.
pub struct WrappedEnv<E> {
    env: E,
}

impl<E> WrappedEnv<E> {
    /// The environment being built up.
    pub closed spec fn spec_env(&self) -> E {
        self.env
    }

    /// Start building a wrapped environment.
    pub fn new(env: E) -> (w: Self)
        ensures
            w.spec_env() == env,
    {
        Self { env }
    }

    /// Get the wrapped environment.
    pub fn build(self) -> (e: E)
        ensures
            e == self.spec_env(),
    {
        self.env
    }
}

/// Wrapper that truncates episodes after a maximum number of steps.
#[derive(Clone)]
pub struct TimeLimit<E> {
    /// Wrapped environment.
    env: E,
    /// Maximum steps per episode.
    max_steps: usize,
    /// Current step count.
    current_step: usize,
}

impl<E> TimeLimit<E> {
    /// The wrapped environment.
    pub closed spec fn spec_env(&self) -> E {
        self.env
    }

    /// Maximum steps per episode.
    pub closed spec fn spec_max_steps(&self) -> usize {
        self.max_steps
    }

    /// Steps taken in the current episode.
    pub closed spec fn spec_current_step(&self) -> usize {
        self.current_step
    }

    /// Create a new time limit wrapper.
    pub fn new(env: E, max_steps: usize) -> (t: Self)
        ensures
            t.spec_env() == env,
            t.spec_max_steps() == max_steps,
            t.spec_current_step() == 0,
    {
        Self { env, max_steps, current_step: 0 }
    }

    /// Get remaining steps in the current episode.
    pub fn remaining_steps(&self) -> (r: usize)
        ensures
            r == (if self.spec_current_step() <= self.spec_max_steps() {
                self.spec_max_steps() - self.spec_current_step()
            } else {
                0
            }),
    {
        self.max_steps.saturating_sub(self.current_step)
    }

    /// Steps taken in the current episode.
    pub fn current_step(&self) -> (s: usize)
        ensures
            s == self.spec_current_step(),
    {
        self.current_step
    }

    /// Maximum steps per episode.
    pub fn max_steps(&self) -> (s: usize)
        ensures
            s == self.spec_max_steps(),
    {
        self.max_steps
    }

    /// The wrapped environment.
    pub fn inner(&self) -> (e: &E)
        ensures
            *e == self.spec_env(),
    {
        &self.env
    }

    /// The wrapped environment, for stepping it.
    pub fn inner_mut(&mut self) -> (e: &mut E)
        ensures
            *e == old(self).spec_env(),
            final(self).spec_env() == *final(e),
            final(self).spec_max_steps() == old(self).spec_max_steps(),
            final(self).spec_current_step() == old(self).spec_current_step(),
    {
        &mut self.env
    }

    /// Starts a new episode: the step count returns to zero.
    pub fn on_reset(&mut self)
        ensures
            final(self).spec_current_step() == 0,
            final(self).spec_max_steps() == old(self).spec_max_steps(),
            final(self).spec_env() == old(self).spec_env(),
    {
        self.current_step = 0;
    }

    /// Counts one step of the wrapped environment and tells whether the step
    /// must be reported truncated: the limit is reached and the environment
    /// did not terminate on its own.
    pub fn on_step(&mut self, terminated: bool) -> (truncate: bool)
        requires
            old(self).spec_current_step() < usize::MAX,
        ensures
            final(self).spec_current_step() == old(self).spec_current_step() + 1,
            final(self).spec_max_steps() == old(self).spec_max_steps(),
            final(self).spec_env() == old(self).spec_env(),
            truncate == (final(self).spec_current_step() >= final(self).spec_max_steps() && !terminated),
    {
        self.current_step = self.current_step + 1;
        self.current_step >= self.max_steps && !terminated
    }
}

/// Which template each of `num_envs` vectorized environments is cloned
/// from: the templates in turn, environment `i` from template
/// `i % num_templates`.
pub fn template_assignment(num_envs: usize, num_templates: usize) -> (v: Vec<usize>)
    requires
        num_templates > 0,
    ensures
        v@.len() == num_envs,
        forall|i: int| 0 <= i < num_envs ==> #[trigger] v@[i] == i % (num_templates as int),
{
    let mut v: Vec<usize> = Vec::new();
    let mut i: usize = 0;
    while i < num_envs
        invariant
            i <= num_envs,
            num_templates > 0,
            v@.len() == i,
            forall|k: int| 0 <= k < i ==> #[trigger] v@[k] == k % (num_templates as int),
        decreases num_envs - i,
    {
        v.push(i % num_templates);
        i = i + 1;
    }
    v
}

/// Step count of the running episode, which reports the episode's length
/// at the step that ends it.
#[derive(Debug, Clone, Copy, PartialEq, Eq, Structural)]
pub struct EpisodeCounter {
    steps: usize,
}

impl EpisodeCounter {
    /// Steps taken since the last reset.
    pub closed spec fn spec_steps(&self) -> nat {
        self.steps as nat
    }

    /// A fresh episode with no step taken.
    pub fn new() -> (e: Self)
        ensures
            e.spec_steps() == 0,
    {
        EpisodeCounter { steps: 0 }
    }

    /// Steps taken since the last reset.
    pub fn step_count(&self) -> (n: usize)
        ensures
            n == self.spec_steps(),
    {
        self.steps
    }

    /// Starts a new episode.
    pub fn reset(&mut self)
        ensures
            final(self).spec_steps() == 0,
    {
        self.steps = 0;
    }

    /// Counts one step; when the step ends the episode, returns its length.
    pub fn record_step(&mut self, terminated: bool, truncated: bool) -> (len: Option<usize>)
        requires
            old(self).spec_steps() < usize::MAX,
        ensures
            final(self).spec_steps() == old(self).spec_steps() + 1,
            len == (if terminated || truncated {
                Some(final(self).spec_steps() as usize)
            } else {
                None::<usize>
            }),
    {
        self.steps = self.steps + 1;
        if terminated || truncated {
            Some(self.steps)
        } else {
            None
        }
    }
}

} // verus!
