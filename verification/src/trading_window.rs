//! Row bookkeeping of the single-asset trading environment: a series of
//! `data_len` market rows is read through a look-back window, an episode
//! runs `episode_length` steps from a random start, and the close price is
//! read from the current row.  Prices, positions and balances stay outside
//! the library.
use vstd::prelude::*;
use rand::rngs::StdRng;
use crate::space::index_below;
use crate::text::{decimal_digits, spec_decimal};

verus! {

/// The series is shorter than one look-back window plus one episode.
#[derive(Debug, Clone, Copy, PartialEq, Eq, Structural)]
pub struct SeriesTooShort {
    /// Rows in the series.
    pub data_len: usize,
    /// Rows of history in each observation.
    pub lookback: usize,
    /// Steps per episode.
    pub episode_length: usize,
}

impl SeriesTooShort {
    /// The explanation text of the error.
    pub open spec fn spec_message(self) -> Seq<char> {
        "Data length "@ + spec_decimal(self.data_len as nat) + " too short for lookback "@
            + spec_decimal(self.lookback as nat) + " + episode_length "@ + spec_decimal(
            self.episode_length as nat,
        )
    }

    /// The explanation text of the error.
    pub fn message(&self) -> (s: String)
        ensures
            s@ == self.spec_message(),
    {
        let mut s = String::from_str("Data length ");
        let a = decimal_digits(self.data_len as u128);
        s.append(a.as_str());
        s.append(" too short for lookback ");
        let b = decimal_digits(self.lookback as u128);
        s.append(b.as_str());
        s.append(" + episode_length ");
        let c = decimal_digits(self.episode_length as u128);
        s.append(c.as_str());
        s
    }
}

/// Where the trading environment stands in its series.
#[derive(Debug, Clone, Copy, PartialEq, Eq, Structural)]
pub struct TradingWindow {
    data_len: usize,
    obs_dim: usize,
    lookback: usize,
    episode_length: usize,
    start: usize,
    step: usize,
}

impl TradingWindow {
    /// Rows in the series.
    pub closed spec fn spec_data_len(&self) -> nat {
        self.data_len as nat
    }

    /// Numbers in an observation.
    pub closed spec fn spec_obs_dim(&self) -> nat {
        self.obs_dim as nat
    }

    /// Rows of history in each observation.
    pub closed spec fn spec_lookback(&self) -> nat {
        self.lookback as nat
    }

    /// Steps per episode.
    pub closed spec fn spec_episode_length(&self) -> nat {
        self.episode_length as nat
    }

    /// First row of the current episode's series.
    pub closed spec fn spec_start(&self) -> nat {
        self.start as nat
    }

    /// Step counter; an episode runs it from `lookback` to
    /// `lookback + episode_length`.
    pub closed spec fn spec_step(&self) -> nat {
        self.step as nat
    }

    /// Well formed: the series holds a look-back window and an episode
    /// after the start row.
    pub closed spec fn wf(&self) -> bool {
        self.start + self.lookback + self.episode_length <= self.data_len
    }

    /// Latest start row an episode can have.
    pub open spec fn spec_max_start(&self) -> int {
        self.spec_data_len() - self.spec_lookback() - self.spec_episode_length()
    }

    /// Checks that `data_len` rows hold a look-back window and an episode;
    /// an observation holds `lookback` rows of `num_features` numbers plus
    /// the position and the portfolio ratio.
    pub fn new(data_len: usize, num_features: usize, lookback: usize, episode_length: usize) -> (r: Result<Self, SeriesTooShort>)
        requires
            lookback + episode_length <= usize::MAX,
            lookback * num_features + 2 <= usize::MAX,
        ensures
            r is Ok <==> lookback + episode_length <= data_len,
            r matches Err(e) ==> e == (SeriesTooShort { data_len, lookback, episode_length }),
            r matches Ok(w) ==> {
                &&& w.wf()
                &&& w.spec_data_len() == data_len
                &&& w.spec_obs_dim() == lookback * num_features + 2
                &&& w.spec_lookback() == lookback
                &&& w.spec_episode_length() == episode_length
                &&& w.spec_start() == 0
                &&& w.spec_step() == 0
            },
    {
        if data_len < lookback + episode_length {
            return Err(SeriesTooShort { data_len, lookback, episode_length });
        }
        Ok(TradingWindow { data_len, obs_dim: lookback * num_features + 2, lookback, episode_length, start: 0, step: 0 })
    }

    /// Numbers in an observation.
    pub fn obs_dim(&self) -> (d: usize)
        ensures
            d == self.spec_obs_dim(),
    {
        self.obs_dim
    }

    /// Step counter.
    pub fn current_step(&self) -> (s: usize)
        ensures
            s == self.spec_step(),
    {
        self.step
    }

    /// First row of the current episode's series.
    pub fn start(&self) -> (s: usize)
        ensures
            s == self.spec_start(),
    {
        self.start
    }

    /// Starts an episode at a random row from 0 to the latest possible
    /// start, with the step counter at `lookback`; returns the start row.
    pub fn reset(&mut self, rng: &mut StdRng) -> (start: usize)
        requires
            old(self).wf(),
        ensures
            final(self).wf(),
            start == final(self).spec_start(),
            0 <= start <= old(self).spec_max_start(),
            final(self).spec_step() == old(self).spec_lookback(),
            final(self).spec_data_len() == old(self).spec_data_len(),
            final(self).spec_obs_dim() == old(self).spec_obs_dim(),
            final(self).spec_lookback() == old(self).spec_lookback(),
            final(self).spec_episode_length() == old(self).spec_episode_length(),
    {
        let max_start = self.data_len - self.lookback - self.episode_length;
        self.start = if max_start < usize::MAX { index_below(rng, max_start + 1) } else { index_below(rng, max_start) };
        self.step = self.lookback;
        self.start
    }

    /// Row whose close price is current: the start row plus the step
    /// counter, the last row beyond the series.
    pub open spec fn spec_price_row(&self) -> int {
        let r: int = (self.spec_start() + self.spec_step()) as int;
        if r < self.spec_data_len() - 1 { r } else { self.spec_data_len() - 1 }
    }

    /// Row whose close price is current.
    pub fn price_row(&self) -> (row: usize)
        requires
            self.spec_data_len() > 0,
            self.spec_start() + self.spec_step() <= usize::MAX,
        ensures
            row == self.spec_price_row(),
            row < self.spec_data_len(),
    {
        let r = self.start + self.step;
        if r < self.data_len - 1 { r } else { self.data_len - 1 }
    }

    /// Rows `[first, end)` of history in the current observation: up to
    /// `lookback` rows before the current one, cut at the series' end.
    pub open spec fn spec_history(&self) -> (int, int) {
        let first: int = self.spec_start() + (if self.spec_step() >= self.spec_lookback() {
            self.spec_step() - self.spec_lookback()
        } else {
            0
        });
        let e: int = (self.spec_start() + self.spec_step()) as int;
        (first, if e < self.spec_data_len() { e } else { self.spec_data_len() as int })
    }

    /// Rows of history in the current observation.
    pub fn history_rows(&self) -> (rows: (usize, usize))
        requires
            self.spec_start() + self.spec_step() <= usize::MAX,
        ensures
            rows.0 == self.spec_history().0,
            rows.1 == self.spec_history().1,
    {
        let back = if self.step >= self.lookback { self.step - self.lookback } else { 0 };
        let e = self.start + self.step;
        (self.start + back, if e < self.data_len { e } else { self.data_len })
    }

    /// Moves to the next step; returns whether the episode's steps are used
    /// up.
    pub fn advance(&mut self) -> (done: bool)
        requires
            old(self).wf(),
            old(self).spec_step() < usize::MAX,
        ensures
            final(self).wf(),
            final(self).spec_step() == old(self).spec_step() + 1,
            final(self).spec_start() == old(self).spec_start(),
            final(self).spec_data_len() == old(self).spec_data_len(),
            final(self).spec_obs_dim() == old(self).spec_obs_dim(),
            final(self).spec_lookback() == old(self).spec_lookback(),
            final(self).spec_episode_length() == old(self).spec_episode_length(),
            done == (final(self).spec_step() >= old(self).spec_lookback() + old(self).spec_episode_length()),
    {
        self.step = self.step + 1;
        self.step >= self.lookback + self.episode_length
    }

    /// Steps taken in the current episode.
    pub fn episode_steps(&self) -> (n: usize)
        requires
            self.spec_step() >= self.spec_lookback(),
        ensures
            n == self.spec_step() - self.spec_lookback(),
    {
        self.step - self.lookback
    }
}

/// An episode of the window runs exactly `episode_length` steps: after a
/// reset, the first `episode_length - 1` moves leave it running and the
/// next one ends it.
pub proof fn lemma_episode_runs_its_length(w: TradingWindow, k: nat)
    requires
        w.spec_step() == w.spec_lookback(),
    ensures
        (w.spec_step() + k >= w.spec_lookback() + w.spec_episode_length()) <==> k >= w.spec_episode_length(),
{
}

} // verus!
