//! Shape checks and row bookkeeping of the dataset-driven environment: a
//! flat feature matrix of `n_rows` rows is read row by row, each step scoring
//! the current row and moving to the next one, within an episode window.
//! The numbers themselves stay outside the library.
use vstd::prelude::*;
use rand::rngs::StdRng;
use crate::space::index_below;
use crate::text::{decimal_digits, spec_decimal};

verus! {

/// How rewards are computed, by shape: a regression target matrix with
/// rows of `target_dim` numbers, or a returns matrix with one number per
/// asset.  The action has as many numbers as a row.
#[derive(Debug, Clone, Copy, PartialEq, Eq, Structural)]
pub enum RewardShape {
    /// `reward = -MSE(action, target_row)`.
    Regression {
        /// Numbers in the target matrix.
        len: usize,
        /// Width of each target row.
        target_dim: usize,
    },
    /// `reward = dot(action, returns_row)`.
    Weighted {
        /// Numbers in the returns matrix.
        len: usize,
        /// Number of assets.
        n_assets: usize,
    },
}

impl RewardShape {
    /// Width of a reward row, which is the action dimension.
    pub open spec fn spec_width(self) -> nat {
        match self {
            RewardShape::Regression { target_dim, .. } => target_dim as nat,
            RewardShape::Weighted { n_assets, .. } => n_assets as nat,
        }
    }

    /// Rows the reward matrix implies (a zero width counts as one).
    pub open spec fn spec_rows(self) -> nat {
        match self {
            RewardShape::Regression { len, target_dim } => (len / if target_dim == 0 { 1 } else { target_dim }) as nat,
            RewardShape::Weighted { len, n_assets } => (len / if n_assets == 0 { 1 } else { n_assets }) as nat,
        }
    }

    /// Action dimension implied by the reward source.
    pub fn action_dim(&self) -> (d: usize)
        ensures
            d == self.spec_width(),
    {
        match self {
            RewardShape::Regression { target_dim, .. } => *target_dim,
            RewardShape::Weighted { n_assets, .. } => *n_assets,
        }
    }

    /// Rows the reward matrix implies.
    pub fn rows(&self) -> (r: usize)
        ensures
            r == self.spec_rows(),
    {
        match self {
            RewardShape::Regression { len, target_dim } => *len / if *target_dim == 0 { 1 } else { *target_dim },
            RewardShape::Weighted { len, n_assets } => *len / if *n_assets == 0 { 1 } else { *n_assets },
        }
    }
}

/// Why a feature matrix and reward source do not fit together.
#[derive(Debug, Clone, Copy, PartialEq, Eq, Structural)]
pub enum ArrayShapeError {
    /// The observation dimension is zero.
    ZeroObsDim,
    /// The data length is not a multiple of the observation dimension.
    NotMultiple {
        /// Numbers in the feature matrix.
        data_len: usize,
        /// Observation dimension.
        obs_dim: usize,
    },
    /// Fewer than two rows.
    TooFewRows,
    /// The reward matrix has another number of rows.
    RowMismatch {
        /// Rows the reward matrix implies.
        reward_rows: usize,
        /// Rows of the feature matrix.
        data_rows: usize,
    },
}

impl ArrayShapeError {
    /// The explanation text of the error.
    pub open spec fn spec_message(self) -> Seq<char> {
        match self {
            ArrayShapeError::ZeroObsDim => "obs_dim must be > 0"@,
            ArrayShapeError::NotMultiple { data_len, obs_dim } => "data length "@ + spec_decimal(data_len as nat)
                + " is not a multiple of obs_dim "@ + spec_decimal(obs_dim as nat),
            ArrayShapeError::TooFewRows => "ArrayEnv needs at least 2 rows"@,
            ArrayShapeError::RowMismatch { reward_rows, data_rows } => "reward matrix implies "@ + spec_decimal(
                reward_rows as nat,
            ) + " rows but data has "@ + spec_decimal(data_rows as nat),
        }
    }

    /// The explanation text of the error.
    pub fn message(&self) -> (s: String)
        ensures
            s@ == self.spec_message(),
    {
        match self {
            ArrayShapeError::ZeroObsDim => String::from_str("obs_dim must be > 0"),
            ArrayShapeError::NotMultiple { data_len, obs_dim } => {
                let mut s = String::from_str("data length ");
                let a = decimal_digits(*data_len as u128);
                s.append(a.as_str());
                s.append(" is not a multiple of obs_dim ");
                let b = decimal_digits(*obs_dim as u128);
                s.append(b.as_str());
                s
            },
            ArrayShapeError::TooFewRows => String::from_str("ArrayEnv needs at least 2 rows"),
            ArrayShapeError::RowMismatch { reward_rows, data_rows } => {
                let mut s = String::from_str("reward matrix implies ");
                let a = decimal_digits(*reward_rows as u128);
                s.append(a.as_str());
                s.append(" rows but data has ");
                let b = decimal_digits(*data_rows as u128);
                s.append(b.as_str());
                s
            },
        }
    }
}

/// Row bookkeeping of the dataset-driven environment.
#[derive(Debug, Clone, Copy, PartialEq, Eq, Structural)]
pub struct ArrayWindow {
    obs_dim: usize,
    act_dim: usize,
    n_rows: usize,
    cursor: usize,
    start: usize,
    episode_len: usize,
    random_start: bool,
}

/// What a step reads: the row that is scored, whether the episode window
/// is used up, and the row observed next.
#[derive(Debug, Clone, Copy, PartialEq, Eq, Structural)]
pub struct StepRows {
    /// Row scored against the action.
    pub scored_row: usize,
    /// The episode window is used up.
    pub truncated: bool,
    /// Row returned as the next observation.
    pub obs_row: usize,
}

/// The action had fewer numbers than the reward rows have.
#[derive(Debug, Clone, Copy, PartialEq, Eq, Structural)]
pub struct ActionTooShort {
    /// Numbers in the action.
    pub got: usize,
    /// Numbers needed.
    pub expected: usize,
}

impl ActionTooShort {
    /// The explanation text of the error.
    pub open spec fn spec_message(self) -> Seq<char> {
        "action has "@ + spec_decimal(self.got as nat) + " elements, expected "@ + spec_decimal(self.expected as nat)
    }

    /// The explanation text of the error.
    pub fn message(&self) -> (s: String)
        ensures
            s@ == self.spec_message(),
    {
        let mut s = String::from_str("action has ");
        let a = decimal_digits(self.got as u128);
        s.append(a.as_str());
        s.append(" elements, expected ");
        let b = decimal_digits(self.expected as u128);
        s.append(b.as_str());
        s
    }
}

impl ArrayWindow {
    /// Observation dimension.
    pub closed spec fn spec_obs_dim(&self) -> nat {
        self.obs_dim as nat
    }

    /// Action dimension.
    pub closed spec fn spec_act_dim(&self) -> nat {
        self.act_dim as nat
    }

    /// Rows of the feature matrix.
    pub closed spec fn spec_rows(&self) -> nat {
        self.n_rows as nat
    }

    /// Row of the current observation.
    pub closed spec fn spec_cursor(&self) -> nat {
        self.cursor as nat
    }

    /// First row of the current episode.
    pub closed spec fn spec_start(&self) -> nat {
        self.start as nat
    }

    /// Rows per episode.
    pub closed spec fn spec_episode_len(&self) -> nat {
        self.episode_len as nat
    }

    /// Episodes start at a random row.
    pub closed spec fn spec_random_start(&self) -> bool {
        self.random_start
    }

    /// Well formed: at least two rows, an episode of one row up to all of
    /// them, starting at a row of the matrix.
    pub closed spec fn wf(&self) -> bool {
        &&& self.n_rows >= 2
        &&& 1 <= self.episode_len <= self.n_rows
        &&& self.start < self.n_rows
    }

    /// Exclusive end row of the current episode.
    pub open spec fn spec_episode_end(&self) -> nat {
        let e = self.spec_start() + self.spec_episode_len();
        if e < self.spec_rows() { e } else { self.spec_rows() }
    }

    /// Checks a flat feature matrix of `data_len` numbers with rows of
    /// `obs_dim` numbers against the reward source; the first failing check
    /// is reported.  On success the window covers all rows, from row 0.
    pub fn new(data_len: usize, obs_dim: usize, reward: RewardShape) -> (r: Result<Self, ArrayShapeError>)
        ensures
            obs_dim == 0 ==> r == Err::<Self, ArrayShapeError>(ArrayShapeError::ZeroObsDim),
            obs_dim > 0 && data_len % obs_dim != 0 ==> r == Err::<Self, ArrayShapeError>(
                ArrayShapeError::NotMultiple { data_len, obs_dim },
            ),
            obs_dim > 0 && data_len % obs_dim == 0 && data_len / obs_dim < 2 ==> r == Err::<Self, ArrayShapeError>(
                ArrayShapeError::TooFewRows,
            ),
            obs_dim > 0 && data_len % obs_dim == 0 && data_len / obs_dim >= 2 && reward.spec_rows() != data_len / obs_dim
                ==> r == Err::<Self, ArrayShapeError>(
                ArrayShapeError::RowMismatch { reward_rows: reward.spec_rows() as usize, data_rows: (data_len / obs_dim) as usize },
            ),
            r is Ok <==> (obs_dim > 0 && data_len % obs_dim == 0 && data_len / obs_dim >= 2 && reward.spec_rows()
                == data_len / obs_dim),
            r matches Ok(w) ==> {
                &&& w.wf()
                &&& w.spec_obs_dim() == obs_dim
                &&& w.spec_act_dim() == reward.spec_width()
                &&& w.spec_rows() == data_len / obs_dim
                &&& w.spec_cursor() == 0
                &&& w.spec_start() == 0
                &&& w.spec_episode_len() == w.spec_rows()
                &&& !w.spec_random_start()
            },
    {
        if obs_dim == 0 {
            return Err(ArrayShapeError::ZeroObsDim);
        }
        if data_len % obs_dim != 0 {
            return Err(ArrayShapeError::NotMultiple { data_len, obs_dim });
        }
        let n_rows = data_len / obs_dim;
        if n_rows < 2 {
            return Err(ArrayShapeError::TooFewRows);
        }
        let reward_rows = reward.rows();
        if reward_rows != n_rows {
            return Err(ArrayShapeError::RowMismatch { reward_rows, data_rows: n_rows });
        }
        Ok(ArrayWindow {
            obs_dim,
            act_dim: reward.action_dim(),
            n_rows,
            cursor: 0,
            start: 0,
            episode_len: n_rows,
            random_start: false,
        })
    }

    /// Caps each episode to `len` rows, at least one and at most all.
    pub fn with_episode_len(self, len: usize) -> (w: Self)
        requires
            self.wf(),
        ensures
            w.wf(),
            w.spec_episode_len() == (if len < 1 { 1 } else if len > self.spec_rows() { self.spec_rows() } else { len as nat }),
            w.spec_rows() == self.spec_rows(),
            w.spec_obs_dim() == self.spec_obs_dim(),
            w.spec_act_dim() == self.spec_act_dim(),
            w.spec_cursor() == self.spec_cursor(),
            w.spec_start() == self.spec_start(),
            w.spec_random_start() == self.spec_random_start(),
    {
        let episode_len = if len < 1 { 1 } else if len > self.n_rows { self.n_rows } else { len };
        ArrayWindow { episode_len, ..self }
    }

    /// Makes episodes start at a random row (or at row 0).
    pub fn with_random_start(self, yes: bool) -> (w: Self)
        requires
            self.wf(),
        ensures
            w.wf(),
            w.spec_random_start() == yes,
            w.spec_episode_len() == self.spec_episode_len(),
            w.spec_rows() == self.spec_rows(),
            w.spec_obs_dim() == self.spec_obs_dim(),
            w.spec_act_dim() == self.spec_act_dim(),
            w.spec_cursor() == self.spec_cursor(),
            w.spec_start() == self.spec_start(),
    {
        ArrayWindow { random_start: yes, ..self }
    }

    /// Observation dimension.
    pub fn obs_dim(&self) -> (d: usize)
        ensures
            d == self.spec_obs_dim(),
    {
        self.obs_dim
    }

    /// Action dimension.
    pub fn act_dim(&self) -> (d: usize)
        ensures
            d == self.spec_act_dim(),
    {
        self.act_dim
    }

    /// Rows of the feature matrix.
    pub fn rows(&self) -> (n: usize)
        ensures
            n == self.spec_rows(),
    {
        self.n_rows
    }

    /// Row of the current observation.
    pub fn cursor(&self) -> (c: usize)
        ensures
            c == self.spec_cursor(),
    {
        self.cursor
    }

    /// Exclusive end row of the current episode.
    pub fn episode_end(&self) -> (e: usize)
        requires
            self.wf(),
        ensures
            e == self.spec_episode_end(),
    {
        if self.episode_len < self.n_rows - self.start {
            self.start + self.episode_len
        } else {
            self.n_rows
        }
    }

    /// Starts an episode and returns the row observed first: row 0, or with
    /// random starts a row drawn uniformly from all rows.
    pub fn reset(&mut self, rng: &mut StdRng) -> (row: usize)
        requires
            old(self).wf(),
        ensures
            final(self).wf(),
            row == final(self).spec_cursor(),
            final(self).spec_cursor() == final(self).spec_start(),
            !old(self).spec_random_start() ==> final(self).spec_start() == 0,
            final(self).spec_start() < final(self).spec_rows(),
            final(self).spec_rows() == old(self).spec_rows(),
            final(self).spec_episode_len() == old(self).spec_episode_len(),
            final(self).spec_random_start() == old(self).spec_random_start(),
            final(self).spec_obs_dim() == old(self).spec_obs_dim(),
            final(self).spec_act_dim() == old(self).spec_act_dim(),
    {
        self.start = if self.random_start { index_below(rng, self.n_rows) } else { 0 };
        self.cursor = self.start;
        self.cursor
    }

    /// One step with an action of `action_len` numbers: an action shorter
    /// than the reward rows is refused; otherwise the current row is scored,
    /// the cursor moves on, the episode is truncated once the cursor reaches
    /// the window's end, and the next observation is the cursor's row (the
    /// last row past the end of the matrix).
    pub fn step(&mut self, action_len: usize) -> (r: Result<StepRows, ActionTooShort>)
        requires
            old(self).wf(),
            old(self).spec_cursor() < old(self).spec_rows(),
        ensures
            final(self).wf(),
            action_len < old(self).spec_act_dim() ==> r == Err::<StepRows, ActionTooShort>(
                ActionTooShort { got: action_len, expected: old(self).spec_act_dim() as usize },
            ) && *final(self) == *old(self),
            action_len >= old(self).spec_act_dim() ==> {
                &&& final(self).spec_cursor() == old(self).spec_cursor() + 1
                &&& r == Ok::<StepRows, ActionTooShort>(StepRows {
                    scored_row: old(self).spec_cursor() as usize,
                    truncated: old(self).spec_cursor() + 1 >= old(self).spec_episode_end(),
                    obs_row: if old(self).spec_cursor() + 1 < old(self).spec_rows() {
                        (old(self).spec_cursor() + 1) as usize
                    } else {
                        (old(self).spec_rows() - 1) as usize
                    },
                })
            },
            final(self).spec_rows() == old(self).spec_rows(),
            final(self).spec_start() == old(self).spec_start(),
            final(self).spec_episode_len() == old(self).spec_episode_len(),
            final(self).spec_random_start() == old(self).spec_random_start(),
            final(self).spec_obs_dim() == old(self).spec_obs_dim(),
            final(self).spec_act_dim() == old(self).spec_act_dim(),
    {
        if action_len < self.act_dim {
            return Err(ActionTooShort { got: action_len, expected: self.act_dim });
        }
        let row = self.cursor;
        self.cursor = self.cursor + 1;
        let end = self.episode_end();
        let truncated = self.cursor >= end;
        let obs_row = if self.cursor < self.n_rows { self.cursor } else { self.n_rows - 1 };
        Ok(StepRows { scored_row: row, truncated, obs_row })
    }
}

} // verus!
