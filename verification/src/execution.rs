//! Execution vocabulary (algorithms, urgency levels, execution states) and
//! the order-management bookkeeping of running and finished executions.
use vstd::prelude::*;
use crate::text::str_eq;

verus! {

/// Execution algorithm type.
#[derive(Debug, Clone, Copy, PartialEq, Eq, Structural)]
pub enum ExecutionAlgorithm {
    /// Direct market order.
    Market,
    /// Direct limit order.
    Limit,
    /// Time-Weighted Average Price.
    TWAP,
    /// Volume-Weighted Average Price.
    VWAP,
    /// Iceberg (hidden size) orders.
    Iceberg,
    /// Implementation shortfall (adaptive).
    IS,
    /// Aggressive execution (take liquidity).
    Aggressive,
    /// Passive execution (provide liquidity).
    Passive,
    /// Percentage of Volume.
    POV,
}

impl Default for ExecutionAlgorithm {
    fn default() -> (a: Self)
        ensures
            a == ExecutionAlgorithm::Market,
    {
        ExecutionAlgorithm::Market
    }
}

/// Urgency level for execution.
#[derive(Debug, Clone, Copy, PartialEq, Eq, Structural)]
pub enum Urgency {
    /// Low urgency - prioritize price over speed.
    Low,
    /// Medium urgency - balanced approach.
    Medium,
    /// High urgency - prioritize speed over price.
    High,
    /// Critical - execute immediately at any price.
    Critical,
}

impl Default for Urgency {
    fn default() -> (u: Self)
        ensures
            u == Urgency::Medium,
    {
        Urgency::Medium
    }
}

/// Status of an execution.
#[derive(Debug, Clone, Copy, PartialEq, Eq, Structural)]
pub enum ExecutionStatus {
    /// Execution is pending.
    Pending,
    /// Execution is in progress.
    InProgress,
    /// Execution is paused.
    Paused,
    /// Execution completed successfully.
    Completed,
    /// Execution was cancelled.
    Cancelled,
    /// Execution failed.
    Failed,
}

/// The bookkeeping of one execution: its id, status, child orders and times.
#[derive(Debug)]
pub struct ExecutionProgress {
    /// Request ID.
    pub request_id: String,
    /// Execution status.
    pub status: ExecutionStatus,
    /// Number of child orders placed.
    pub num_orders: u32,
    /// Client ids of the child orders that were recorded.
    pub child_orders: Vec<String>,
    /// Start time (ms).
    pub start_time: u64,
    /// End time (ms), once finished.
    pub end_time: Option<u64>,
}

impl ExecutionProgress {
    /// A pending execution started at `start_time` with no orders yet.
    pub fn new(request_id: &str, start_time: u64) -> (p: Self)
        ensures
            p.request_id@ == request_id@,
            p.status == ExecutionStatus::Pending,
            p.num_orders == 0,
            p.child_orders@.len() == 0,
            p.start_time == start_time,
            p.end_time is None,
    {
        ExecutionProgress {
            request_id: String::from_str(request_id),
            status: ExecutionStatus::Pending,
            num_orders: 0,
            child_orders: Vec::new(),
            start_time,
            end_time: None,
        }
    }
}

/// Counts of finished executions.
#[derive(Debug, Clone, Copy, PartialEq, Eq, Structural)]
pub struct ExecutionCounts {
    /// Executions finished.
    pub total_executions: u64,
    /// Executions finished as completed.
    pub completed_executions: u64,
    /// Executions finished otherwise.
    pub failed_executions: u64,
}

/// Some entry of `s` has the id `id`.
pub open spec fn holds_id(s: Seq<ExecutionProgress>, id: Seq<char>) -> bool {
    exists|i: int| 0 <= i < s.len() && (#[trigger] s[i]).request_id@ == id
}

/// No two entries of `s` share an id.
pub open spec fn distinct_ids(s: Seq<ExecutionProgress>) -> bool {
    forall|i: int, j: int| 0 <= i < j < s.len() ==> (#[trigger] s[i]).request_id@ != (#[trigger] s[j]).request_id@
}

/// Entry `i` of `s` is the one with id `id`.
pub open spec fn entry_of(s: Seq<ExecutionProgress>, id: Seq<char>, i: int) -> bool {
    0 <= i < s.len() && s[i].request_id@ == id
}

/// Running executions (one per request id) and finished ones, with the
/// counts of finished executions by outcome.
#[derive(Debug)]
pub struct OmsState {
    active: Vec<ExecutionProgress>,
    completed: Vec<ExecutionProgress>,
    counts: ExecutionCounts,
}

impl OmsState {
    /// Running executions, in the order they were first started.
    pub closed spec fn spec_active(&self) -> Seq<ExecutionProgress> {
        self.active@
    }

    /// Finished executions, in the order they finished.
    pub closed spec fn spec_completed(&self) -> Seq<ExecutionProgress> {
        self.completed@
    }

    /// Counts of finished executions.
    pub closed spec fn spec_counts(&self) -> ExecutionCounts {
        self.counts
    }

    /// Running executions have distinct ids; every finished execution was
    /// counted once, as completed or as failed.
    pub open spec fn wf(&self) -> bool {
        &&& distinct_ids(self.spec_active())
        &&& self.spec_counts().total_executions == self.spec_completed().len()
        &&& self.spec_counts().total_executions
            == self.spec_counts().completed_executions + self.spec_counts().failed_executions
    }

    /// No executions yet.
    pub fn new() -> (s: Self)
        ensures
            s.wf(),
            s.spec_active().len() == 0,
            s.spec_completed().len() == 0,
            s.spec_counts() == (ExecutionCounts { total_executions: 0, completed_executions: 0, failed_executions: 0 }),
    {
        OmsState {
            active: Vec::new(),
            completed: Vec::new(),
            counts: ExecutionCounts { total_executions: 0, completed_executions: 0, failed_executions: 0 },
        }
    }

    /// Counts of finished executions.
    pub fn counts(&self) -> (c: ExecutionCounts)
        ensures
            c == self.spec_counts(),
    {
        self.counts
    }

    /// Number of running executions.
    pub fn active_count(&self) -> (n: usize)
        ensures
            n == self.spec_active().len(),
    {
        self.active.len()
    }

    /// Position of the running execution `request_id`, if any.
    pub fn find_active(&self, request_id: &str) -> (r: Option<usize>)
        requires
            self.wf(),
        ensures
            r is None <==> !holds_id(self.spec_active(), request_id@),
            r matches Some(i) ==> entry_of(self.spec_active(), request_id@, i as int),
    {
        let mut i: usize = 0;
        while i < self.active.len()
            invariant
                i <= self.active.len(),
                forall|k: int| 0 <= k < i ==> (#[trigger] self.active@[k]).request_id@ != request_id@,
            decreases self.active.len() - i,
        {
            if str_eq(self.active[i].request_id.as_str(), request_id) {
                return Some(i);
            }
            i = i + 1;
        }
        None
    }

    /// Tracks `progress` as running, in place of a running execution with
    /// the same id (keeping its position), or after the others.
    pub fn insert_active(&mut self, progress: ExecutionProgress)
        requires
            old(self).wf(),
        ensures
            final(self).wf(),
            final(self).spec_completed() == old(self).spec_completed(),
            final(self).spec_counts() == old(self).spec_counts(),
            holds_id(old(self).spec_active(), progress.request_id@) ==> exists|i: int|
                entry_of(old(self).spec_active(), progress.request_id@, i)
                && final(self).spec_active() == old(self).spec_active().update(i, progress),
            !holds_id(old(self).spec_active(), progress.request_id@)
                ==> final(self).spec_active() == old(self).spec_active().push(progress),
    {
        let ghost p = progress;
        match self.find_active(progress.request_id.as_str()) {
            Some(i) => {
                self.active.set(i, progress);
                assert(entry_of(old(self).spec_active(), p.request_id@, i as int));
            },
            None => {
                self.active.push(progress);
            },
        }
    }

    /// Records a child order of the running execution `request_id`: one
    /// more order, and its client id when given.  Nothing changes when no
    /// such execution runs.
    pub fn record_child_order(&mut self, request_id: &str, child_id: Option<&str>)
        requires
            old(self).wf(),
            forall|i: int| 0 <= i < old(self).spec_active().len() ==> (#[trigger] old(self).spec_active()[i]).num_orders < u32::MAX,
        ensures
            final(self).wf(),
            final(self).spec_completed() == old(self).spec_completed(),
            final(self).spec_counts() == old(self).spec_counts(),
            final(self).spec_active().len() == old(self).spec_active().len(),
            !holds_id(old(self).spec_active(), request_id@) ==> final(self).spec_active() == old(self).spec_active(),
            forall|i: int| #![trigger final(self).spec_active()[i]] 0 <= i < old(self).spec_active().len() ==> {
                let (o, n) = (old(self).spec_active()[i], final(self).spec_active()[i]);
                if o.request_id@ == request_id@ {
                    &&& n.request_id == o.request_id
                    &&& n.status == o.status
                    &&& n.num_orders == o.num_orders + 1
                    &&& n.child_orders@.map_values(|x: String| x@) == (match child_id {
                        Some(c) => o.child_orders@.map_values(|x: String| x@).push(c@),
                        None => o.child_orders@.map_values(|x: String| x@),
                    })
                    &&& n.start_time == o.start_time
                    &&& n.end_time == o.end_time
                } else {
                    n == o
                }
            },
    {
        match self.find_active(request_id) {
            Some(i) => {
                let mut p = self.active.remove(i);
                let ghost before = p.child_orders@;
                p.num_orders = p.num_orders + 1;
                match child_id {
                    Some(c) => {
                        p.child_orders.push(String::from_str(c));
                        assert(p.child_orders@.map_values(|x: String| x@)
                            =~= before.map_values(|x: String| x@).push(c@));
                    },
                    None => {},
                }
                self.active.insert(i, p);
            },
            None => {},
        }
    }

    /// Finishes the running execution `request_id`: it leaves the running
    /// ones, completed when `reached_target` and failed otherwise, ends at
    /// `now_ms`, joins the finished ones (last) and is counted.  Returns
    /// whether it was running; nothing changes when it was not.
    pub fn finalize(&mut self, request_id: &str, reached_target: bool, now_ms: u64) -> (found: bool)
        requires
            old(self).wf(),
            old(self).spec_counts().total_executions < u64::MAX,
        ensures
            final(self).wf(),
            found == holds_id(old(self).spec_active(), request_id@),
            !found ==> *final(self) == *old(self),
            found ==> exists|i: int| {
                let o = #[trigger] old(self).spec_active()[i];
                let p = final(self).spec_completed().last();
                &&& entry_of(old(self).spec_active(), request_id@, i)
                &&& p.request_id == o.request_id
                &&& p.num_orders == o.num_orders
                &&& p.child_orders == o.child_orders
                &&& p.start_time == o.start_time
                &&& p.status == (if reached_target { ExecutionStatus::Completed } else { ExecutionStatus::Failed })
                &&& p.end_time == Some(now_ms)
                &&& final(self).spec_active() == old(self).spec_active().remove(i)
                &&& final(self).spec_completed() == old(self).spec_completed().push(p)
                &&& final(self).spec_counts() == (ExecutionCounts {
                    total_executions: (old(self).spec_counts().total_executions + 1) as u64,
                    completed_executions: (old(self).spec_counts().completed_executions
                        + (if reached_target { 1int } else { 0int })) as u64,
                    failed_executions: (old(self).spec_counts().failed_executions
                        + (if reached_target { 0int } else { 1int })) as u64,
                })
            },
    {
        match self.find_active(request_id) {
            Some(i) => {
                let mut p = self.active.remove(i);
                p.status = if reached_target { ExecutionStatus::Completed } else { ExecutionStatus::Failed };
                p.end_time = Some(now_ms);
                self.counts.total_executions = self.counts.total_executions + 1;
                if reached_target {
                    self.counts.completed_executions = self.counts.completed_executions + 1;
                } else {
                    self.counts.failed_executions = self.counts.failed_executions + 1;
                }
                self.completed.push(p);
                true
            },
            None => false,
        }
    }

    /// Files an execution that finished without running (a direct market
    /// order): it joins the finished ones and is counted, as completed when
    /// its status is `Completed` and as failed otherwise.
    pub fn record_finished(&mut self, progress: ExecutionProgress)
        requires
            old(self).wf(),
            old(self).spec_counts().total_executions < u64::MAX,
        ensures
            final(self).wf(),
            final(self).spec_active() == old(self).spec_active(),
            final(self).spec_completed() == old(self).spec_completed().push(progress),
            final(self).spec_counts() == (ExecutionCounts {
                total_executions: (old(self).spec_counts().total_executions + 1) as u64,
                completed_executions: (old(self).spec_counts().completed_executions
                    + (if progress.status == ExecutionStatus::Completed { 1int } else { 0int })) as u64,
                failed_executions: (old(self).spec_counts().failed_executions
                    + (if progress.status == ExecutionStatus::Completed { 0int } else { 1int })) as u64,
            }),
    {
        self.counts.total_executions = self.counts.total_executions + 1;
        if progress.status == ExecutionStatus::Completed {
            self.counts.completed_executions = self.counts.completed_executions + 1;
        } else {
            self.counts.failed_executions = self.counts.failed_executions + 1;
        }
        self.completed.push(progress);
    }

    /// Running executions.
    pub fn active_executions(&self) -> (v: &Vec<ExecutionProgress>)
        ensures
            v@ == self.spec_active(),
    {
        &self.active
    }

    /// Finished executions, in the order they finished.
    pub fn completed_executions(&self) -> (v: &Vec<ExecutionProgress>)
        ensures
            v@ == self.spec_completed(),
    {
        &self.completed
    }

    /// The execution `request_id`: the running one if any, else the first
    /// finished one with that id.
    pub fn get_execution(&self, request_id: &str) -> (r: Option<&ExecutionProgress>)
        requires
            self.wf(),
        ensures
            holds_id(self.spec_active(), request_id@) ==> exists|i: int|
                entry_of(self.spec_active(), request_id@, i) && r == Some(&self.spec_active()[i]),
            !holds_id(self.spec_active(), request_id@) && !holds_id(self.spec_completed(), request_id@)
                ==> r is None,
            !holds_id(self.spec_active(), request_id@) && holds_id(self.spec_completed(), request_id@)
                ==> exists|i: int| {
                    &&& entry_of(self.spec_completed(), request_id@, i)
                    &&& r == Some(&self.spec_completed()[i])
                    &&& forall|k: int| 0 <= k < i ==> (#[trigger] self.spec_completed()[k]).request_id@ != request_id@
                },
    {
        match self.find_active(request_id) {
            Some(i) => {
                return Some(&self.active[i]);
            },
            None => {},
        }
        let mut k: usize = 0;
        while k < self.completed.len()
            invariant
                k <= self.completed.len(),
                !holds_id(self.spec_active(), request_id@),
                forall|j: int| 0 <= j < k ==> (#[trigger] self.completed@[j]).request_id@ != request_id@,
            decreases self.completed.len() - k,
        {
            if str_eq(self.completed[k].request_id.as_str(), request_id) {
                assert(entry_of(self.spec_completed(), request_id@, k as int));
                return Some(&self.completed[k]);
            }
            k = k + 1;
        }
        None
    }

    /// Whether the running execution `request_id` has been cancelled.
    pub fn is_cancelled(&self, request_id: &str) -> (b: bool)
        requires
            self.wf(),
        ensures
            b == exists|i: int| entry_of(self.spec_active(), request_id@, i)
                && self.spec_active()[i].status == ExecutionStatus::Cancelled,
    {
        match self.find_active(request_id) {
            Some(i) => self.active[i].status == ExecutionStatus::Cancelled,
            None => false,
        }
    }
}

} // verus!
