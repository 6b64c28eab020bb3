//! The sliding window of the n-step replay buffer: transitions wait in the
//! window until `n` of them are there (the oldest then leaves with an
//! `n`-step return) or the episode ends (all of them leave, each with the
//! return of the steps left).  The rewards and returns stay outside the
//! library; the window decides which transitions leave and over how many
//! steps each return runs.
use vstd::prelude::*;
use std::collections::VecDeque;

verus! {

/// Why an n-step window cannot be made.
#[derive(Debug, Clone, Copy, PartialEq, Eq, Structural)]
pub enum NStepError {
    /// `n_step` is zero.
    ZeroSteps,
}

impl NStepError {
    /// The explanation text of the error.
    pub open spec fn spec_message(self) -> Seq<char> {
        "n_step must be at least 1"@
    }

    /// The explanation text of the error.
    pub fn message(&self) -> (s: String)
        ensures
            s@ == self.spec_message(),
    {
        String::from_str("n_step must be at least 1")
    }
}

/// What leaves the window after a transition arrives: the transitions, and
/// for each the number of steps its return runs over.  Transition `j` of
/// `left` followed by the window's remaining transitions, in order, are the
/// steps of its return, the first `horizons[j]` of them after it (itself
/// included).
pub struct Departures<T> {
    /// Transitions leaving the window, oldest first.
    pub left: Vec<T>,
    /// Steps the return of each leaving transition runs over.
    pub horizons: Vec<usize>,
}

/// How many of the `s_len` transitions in the window (the new one
/// included) leave: all when the episode ended, the oldest when the window
/// holds `n`, none otherwise.
pub open spec fn spec_leaving(s_len: nat, n: nat, done: bool) -> nat {
    if done { s_len } else if s_len == n { 1 } else { 0 }
}

/// Sliding window of pending transitions for `n`-step returns.
pub struct NStepWindow<T> {
    n_step: usize,
    pending: VecDeque<T>,
}

impl<T> NStepWindow<T> {
    /// Steps per return.
    pub closed spec fn spec_n(&self) -> nat {
        self.n_step as nat
    }

    /// Transitions waiting, oldest first.
    pub closed spec fn spec_pending(&self) -> Seq<T> {
        self.pending@
    }

    /// Well formed: a positive step count and fewer waiting transitions.
    pub closed spec fn wf(&self) -> bool {
        &&& self.n_step >= 1
        &&& self.pending@.len() < self.n_step
    }

    /// An empty window for `n_step`-step returns; refused for zero steps.
    pub fn new(n_step: usize) -> (r: Result<Self, NStepError>)
        ensures
            n_step == 0 <==> r is Err,
            r is Err ==> r == Err::<Self, NStepError>(NStepError::ZeroSteps),
            r matches Ok(w) ==> w.wf() && w.spec_n() == n_step && w.spec_pending() == Seq::<T>::empty(),
    {
        if n_step == 0 {
            Err(NStepError::ZeroSteps)
        } else {
            Ok(NStepWindow { n_step, pending: VecDeque::new() })
        }
    }

    /// Steps per return.
    pub fn n_step(&self) -> (n: usize)
        ensures
            n == self.spec_n(),
    {
        self.n_step
    }

    /// Number of waiting transitions.
    pub fn pending_len(&self) -> (n: usize)
        ensures
            n == self.spec_pending().len(),
    {
        self.pending.len()
    }

    /// Transitions waiting, oldest first.
    pub fn pending(&self) -> (p: &VecDeque<T>)
        ensures
            p@ == self.spec_pending(),
    {
        &self.pending
    }

    /// A transition arrives, `done` when its episode ended.  With `s` the
    /// waiting transitions followed by it: when the episode ended, all of `s`
    /// leaves; otherwise, when `s` holds `n` transitions, its oldest leaves;
    /// otherwise nothing leaves.  The return of the `j`-th leaving transition
    /// runs over the `|s| - j` steps from it to the end of `s`.
    pub fn push(&mut self, transition: T, done: bool) -> (d: Departures<T>)
        requires
            old(self).wf(),
        ensures
            final(self).wf(),
            final(self).spec_n() == old(self).spec_n(),
            ({
                let s = old(self).spec_pending().push(transition);
                let e = spec_leaving(s.len(), old(self).spec_n(), done);
                &&& d.left@ == s.take(e as int)
                &&& final(self).spec_pending() == s.skip(e as int)
                &&& d.horizons@.len() == e
                &&& forall|j: int| 0 <= j < e ==> d.horizons@[j] == s.len() - j
            }),
    {
        let ghost s = self.pending@.push(transition);
        self.pending.push_back(transition);
        let total = self.pending.len();
        let mut left: Vec<T> = Vec::new();
        let mut horizons: Vec<usize> = Vec::new();
        let ghost e: int = spec_leaving(s.len(), self.n_step as nat, done) as int;
        if done || total == self.n_step {
            let count = if done { total } else { 1 };
            let mut j: usize = 0;
            while j < count
                invariant
                    count == e,
                    total == s.len(),
                    j <= count <= total,
                    left@ == s.take(j as int),
                    self.pending@ == s.skip(j as int),
                    horizons@.len() == j,
                    forall|i: int| 0 <= i < j ==> horizons@[i] == total - i,
                    self.n_step == old(self).n_step,
                decreases count - j,
            {
                proof {
                    assert(self.pending@.len() > 0);
                }
                let front = self.pending.pop_front();
                match front {
                    Some(x) => {
                        proof {
                            assert(x == s[j as int]);
                            assert(s.take(j as int).push(x) =~= s.take(j as int + 1));
                            assert(self.pending@ =~= s.skip(j as int + 1));
                        }
                        left.push(x);
                    },
                    None => {},
                }
                horizons.push(total - j);
                j = j + 1;
            }
        } else {
            assert(s.take(0) =~= Seq::<T>::empty());
            assert(s.skip(0) =~= s);
        }
        Departures { left, horizons }
    }

    /// Drops the waiting transitions.
    pub fn clear(&mut self)
        requires
            old(self).wf(),
        ensures
            final(self).wf(),
            final(self).spec_n() == old(self).spec_n(),
            final(self).spec_pending() == Seq::<T>::empty(),
    {
        self.pending.clear();
    }
}

/// Every transition pushed leaves exactly once and in order: what leaves
/// followed by what stays is what waited followed by the new transition,
/// and fewer than `n` stay.
pub proof fn lemma_departures_in_order<T>(pending: Seq<T>, transition: T, n: nat, done: bool)
    requires
        pending.len() < n,
    ensures
        ({
            let s = pending.push(transition);
            let e = spec_leaving(s.len(), n, done);
            &&& s.take(e as int) + s.skip(e as int) == s
            &&& s.skip(e as int).len() < n
        }),
{
    let s = pending.push(transition);
    let e = spec_leaving(s.len(), n, done);
    assert(s.take(e as int) + s.skip(e as int) =~= s);
}

} // verus!
