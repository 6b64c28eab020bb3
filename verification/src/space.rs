//! Discrete action spaces.
use vstd::prelude::*;
use rand::Rng;
use rand::rngs::StdRng;

verus! {

#[verifier::external_type_specification]
#[verifier::external_body]
pub struct ExStdRng(StdRng);

/// Draws from `Rng::gen_range(0..n)` on `rng`; rand documents the value to lie
/// in `0..n` and panics on an empty range, which `requires` rules out.
#[verifier::external_body]
pub(crate) fn index_below(rng: &mut StdRng, n: usize) -> (r: usize)
    requires
        n > 0,
    ensures
        r < n,
{
    rng.gen_range(0..n)
}

/// Discrete space with `n` possible values `0..n`.
#[derive(Debug, Clone, Copy, PartialEq, Eq, Structural)]
pub struct DiscreteSpace {
    /// Number of discrete actions.
    pub n: usize,
}

impl DiscreteSpace {
    /// Create a new discrete space with n actions.
    pub fn new(n: usize) -> (s: Self)
        ensures
            s.n == n,
    {
        Self { n }
    }

    /// Shape of a single sample: one element.
    pub fn shape(&self) -> (v: Vec<usize>)
        ensures
            v@ == seq![1usize],
    {
        let mut v = Vec::new();
        v.push(1);
        v
    }

    /// Number of distinct values.
    pub fn flat_dim(&self) -> (d: usize)
        ensures
            d == self.n,
    {
        self.n
    }

    /// Whether an action index belongs to the space.
    pub fn contains_index(&self, value: usize) -> (b: bool)
        ensures
            b == (value < self.n),
    {
        value < self.n
    }

    /// Draws a uniformly random action index from the space.
    pub fn sample_index(&self, rng: &mut StdRng) -> (a: usize)
        requires
            self.n > 0,
        ensures
            a < self.n,
    {
        index_below(rng, self.n)
    }
}

} // verus!
