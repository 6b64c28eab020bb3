//! Distributed-training bookkeeping: topology validation, when gradients are
//! ready to aggregate, and the roster of workers with their progress.
use vstd::prelude::*;
use std::time::Instant;
use crate::clock::{monotonic_now, nanos_elapsed};
use crate::device::Device;
use crate::text::{decimal_digits, spec_decimal};

verus! {

/// Backend protocol for distributed communication.
#[derive(Debug, Clone, Copy, PartialEq, Eq, Structural)]
pub enum DistributedBackend {
    /// TCP-based communication (simple, low-latency for small clusters).
    Tcp,
    /// gRPC-based communication (better for large clusters).
    Grpc,
}

impl Default for DistributedBackend {
    fn default() -> (b: Self)
        ensures
            b == DistributedBackend::Tcp,
    {
        DistributedBackend::Tcp
    }
}

/// Synchronization mode for distributed training.
#[derive(Debug, Clone, Copy, PartialEq, Eq, Structural)]
pub enum SyncMode {
    /// Synchronous SGD - wait for all workers before update.
    Synchronous,
    /// Asynchronous SGD - update as gradients arrive.
    Asynchronous,
    /// Bounded staleness - allow up to N stale updates.
    BoundedStaleness(usize),
}

impl Default for SyncMode {
    fn default() -> (m: Self)
        ensures
            m == SyncMode::Synchronous,
    {
        SyncMode::Synchronous
    }
}

/// All-reduce operation types.
#[derive(Debug, Clone, Copy, PartialEq, Eq, Structural)]
pub enum ReduceOp {
    /// Sum all values.
    Sum,
    /// Average all values.
    Mean,
    /// Take maximum value.
    Max,
    /// Take minimum value.
    Min,
}

/// Why a distributed topology is invalid.
#[derive(Debug, Clone, Copy, PartialEq, Eq, Structural)]
pub enum TopologyError {
    /// No workers.
    ZeroWorldSize,
    /// The rank does not name a worker.
    RankOutOfRange {
        /// The rank given.
        rank: usize,
        /// The number of workers.
        world_size: usize,
    },
    /// Port zero.
    ZeroPort,
}

impl TopologyError {
    /// The explanation text of the error.
    pub open spec fn spec_message(self) -> Seq<char> {
        match self {
            TopologyError::ZeroWorldSize => "world_size must be positive"@,
            TopologyError::RankOutOfRange { rank, world_size } => "rank "@ + spec_decimal(rank as nat)
                + " must be less than world_size "@ + spec_decimal(world_size as nat),
            TopologyError::ZeroPort => "master_port must be non-zero"@,
        }
    }

    /// The explanation text of the error.
    pub fn message(&self) -> (s: String)
        ensures
            s@ == self.spec_message(),
    {
        match self {
            TopologyError::ZeroWorldSize => String::from_str("world_size must be positive"),
            TopologyError::RankOutOfRange { rank, world_size } => {
                let mut s = String::from_str("rank ");
                let r = decimal_digits(*rank as u128);
                s.append(r.as_str());
                s.append(" must be less than world_size ");
                let w = decimal_digits(*world_size as u128);
                s.append(w.as_str());
                s
            },
            TopologyError::ZeroPort => String::from_str("master_port must be non-zero"),
        }
    }
}

/// Checks a topology: there is at least one worker, the rank names one of
/// them, and the master port is not zero; the first failing check is reported.
pub fn validate_topology(world_size: usize, rank: usize, master_port: u16) -> (r: Result<(), TopologyError>)
    ensures
        r == (if world_size == 0 {
            Err(TopologyError::ZeroWorldSize)
        } else if rank >= world_size {
            Err(TopologyError::RankOutOfRange { rank, world_size })
        } else if master_port == 0 {
            Err(TopologyError::ZeroPort)
        } else {
            Ok(())
        }),
{
    if world_size == 0 {
        return Err(TopologyError::ZeroWorldSize);
    }
    if rank >= world_size {
        return Err(TopologyError::RankOutOfRange { rank, world_size });
    }
    if master_port == 0 {
        return Err(TopologyError::ZeroPort);
    }
    Ok(())
}

/// Whether enough gradients have arrived to aggregate: all workers in
/// synchronous mode, any in asynchronous mode, and all but `max_stale` with
/// bounded staleness.
pub fn sync_ready(mode: SyncMode, num_accumulated: usize, world_size: usize) -> (b: bool)
    ensures
        b == (match mode {
            SyncMode::Synchronous => num_accumulated >= world_size,
            SyncMode::Asynchronous => num_accumulated > 0,
            SyncMode::BoundedStaleness(max_stale) => num_accumulated >= (if world_size >= max_stale {
                world_size - max_stale
            } else {
                0
            }),
        }),
{
    match mode {
        SyncMode::Synchronous => num_accumulated >= world_size,
        SyncMode::Asynchronous => num_accumulated > 0,
        SyncMode::BoundedStaleness(max_stale) => num_accumulated >= world_size.saturating_sub(max_stale),
    }
}

/// State of a single worker.
#[derive(Debug, Clone)]
pub struct WorkerState {
    /// Worker rank.
    pub rank: usize,
    /// Whether worker is active.
    pub active: bool,
    /// Last heartbeat timestamp.
    pub last_heartbeat: Instant,
    /// Number of completed rollouts.
    pub rollouts_completed: usize,
    /// Total timesteps collected.
    pub timesteps_collected: usize,
}

/// The roster of workers of a pool.
pub struct WorkerRoster {
    /// Worker states, indexed by rank.
    pub workers: Vec<WorkerState>,
}

/// Timesteps collected by the workers of `ws`.
pub open spec fn spec_total_timesteps(ws: Seq<WorkerState>) -> nat
    decreases ws.len(),
{
    if ws.len() == 0 {
        0
    } else {
        spec_total_timesteps(ws.drop_last()) + ws.last().timesteps_collected as nat
    }
}

/// Workers of `ws` that are active and whose heartbeat age (in `ages`) is
/// below the timeout.
pub open spec fn spec_live_count(ws: Seq<WorkerState>, ages: Seq<u128>, timeout: u128) -> nat
    decreases ws.len(),
{
    if ws.len() == 0 || ages.len() < ws.len() {
        0
    } else {
        spec_live_count(ws.drop_last(), ages.drop_last(), timeout)
            + (if ws.last().active && ages[ws.len() - 1] < timeout { 1nat } else { 0nat })
    }
}

impl WorkerRoster {
    /// The roster of a new pool: one worker per rank, with only the local
    /// rank active, all heartbeats at `now` and no progress.
    pub fn new(world_size: usize, local_rank: usize, now: Instant) -> (r: Self)
        ensures
            r.workers@.len() == world_size,
            forall|i: int| 0 <= i < world_size ==> {
                &&& (#[trigger] r.workers@[i]).rank == i
                &&& r.workers@[i].active == (i == local_rank)
                &&& r.workers@[i].last_heartbeat == now
                &&& r.workers@[i].rollouts_completed == 0
                &&& r.workers@[i].timesteps_collected == 0
            },
    {
        let mut workers: Vec<WorkerState> = Vec::new();
        let mut rank: usize = 0;
        while rank < world_size
            invariant
                rank <= world_size,
                workers@.len() == rank,
                forall|i: int| 0 <= i < rank ==> {
                    &&& (#[trigger] workers@[i]).rank == i
                    &&& workers@[i].active == (i == local_rank)
                    &&& workers@[i].last_heartbeat == now
                    &&& workers@[i].rollouts_completed == 0
                    &&& workers@[i].timesteps_collected == 0
                },
            decreases world_size - rank,
        {
            workers.push(WorkerState {
                rank,
                active: rank == local_rank,
                last_heartbeat: now,
                rollouts_completed: 0,
                timesteps_collected: 0,
            });
            rank = rank + 1;
        }
        WorkerRoster { workers }
    }

    /// Marks worker `rank` active with a heartbeat at `now`; unknown ranks
    /// are ignored.
    pub fn update_heartbeat(&mut self, rank: usize, now: Instant)
        ensures
            final(self).workers@.len() == old(self).workers@.len(),
            rank < old(self).workers@.len() ==> final(self).workers@ == old(self).workers@.update(
                rank as int,
                WorkerState { last_heartbeat: now, active: true, ..old(self).workers@[rank as int] },
            ),
            rank >= old(self).workers@.len() ==> final(self).workers@ == old(self).workers@,
    {
        if rank < self.workers.len() {
            let w = &self.workers[rank];
            let updated = WorkerState {
                rank: w.rank,
                active: true,
                last_heartbeat: now,
                rollouts_completed: w.rollouts_completed,
                timesteps_collected: w.timesteps_collected,
            };
            self.workers.set(rank, updated);
        }
    }

    /// Records a completed rollout of `timesteps` steps for worker `rank`;
    /// unknown ranks are ignored.
    pub fn record_rollout(&mut self, rank: usize, timesteps: usize)
        requires
            rank < old(self).workers@.len() ==> {
                &&& old(self).workers@[rank as int].rollouts_completed < usize::MAX
                &&& old(self).workers@[rank as int].timesteps_collected + timesteps <= usize::MAX
            },
        ensures
            final(self).workers@.len() == old(self).workers@.len(),
            rank < old(self).workers@.len() ==> final(self).workers@ == old(self).workers@.update(
                rank as int,
                WorkerState {
                    rollouts_completed: (old(self).workers@[rank as int].rollouts_completed + 1) as usize,
                    timesteps_collected: (old(self).workers@[rank as int].timesteps_collected + timesteps) as usize,
                    ..old(self).workers@[rank as int]
                },
            ),
            rank >= old(self).workers@.len() ==> final(self).workers@ == old(self).workers@,
    {
        if rank < self.workers.len() {
            let w = &self.workers[rank];
            let updated = WorkerState {
                rank: w.rank,
                active: w.active,
                last_heartbeat: w.last_heartbeat,
                rollouts_completed: w.rollouts_completed + 1,
                timesteps_collected: w.timesteps_collected + timesteps,
            };
            self.workers.set(rank, updated);
        }
    }

    /// Total timesteps collected across all workers.
    pub fn total_timesteps(&self) -> (t: usize)
        requires
            spec_total_timesteps(self.workers@) <= usize::MAX,
        ensures
            t == spec_total_timesteps(self.workers@),
    {
        let mut total: usize = 0;
        let mut i: usize = 0;
        while i < self.workers.len()
            invariant
                i <= self.workers.len(),
                spec_total_timesteps(self.workers@) <= usize::MAX,
                total == spec_total_timesteps(self.workers@.take(i as int)),
            decreases self.workers.len() - i,
        {
            assert(self.workers@.take(i + 1).drop_last() =~= self.workers@.take(i as int));
            proof {
                lemma_total_prefix(self.workers@, i + 1);
            }
            total = total + self.workers[i].timesteps_collected;
            i = i + 1;
        }
        assert(self.workers@.take(i as int) =~= self.workers@);
        total
    }

    /// Counts the active workers whose heartbeat age (in `ages_nanos`, one
    /// per worker) is below `timeout_nanos`.
    pub fn live_workers(&self, ages_nanos: &Vec<u128>, timeout_nanos: u128) -> (n: usize)
        requires
            ages_nanos@.len() == self.workers@.len(),
        ensures
            n == spec_live_count(self.workers@, ages_nanos@, timeout_nanos),
    {
        let mut n: usize = 0;
        let mut i: usize = 0;
        while i < self.workers.len()
            invariant
                i <= self.workers.len(),
                ages_nanos@.len() == self.workers@.len(),
                n == spec_live_count(self.workers@.take(i as int), ages_nanos@.take(i as int), timeout_nanos),
                n <= i,
            decreases self.workers.len() - i,
        {
            assert(self.workers@.take(i + 1).drop_last() =~= self.workers@.take(i as int));
            assert(ages_nanos@.take(i + 1).drop_last() =~= ages_nanos@.take(i as int));
            if self.workers[i].active && ages_nanos[i] < timeout_nanos {
                n = n + 1;
            }
            i = i + 1;
        }
        assert(self.workers@.take(i as int) =~= self.workers@);
        assert(ages_nanos@.take(i as int) =~= ages_nanos@);
        n
    }

    /// Number of active workers heard from in the last 60 seconds.
    pub fn active_workers(&self) -> (n: usize)
        ensures
            n <= self.workers@.len(),
            exists|ages: Seq<u128>| ages.len() == self.workers@.len()
                && n == spec_live_count(self.workers@, ages, 60_000_000_000),
    {
        let mut ages: Vec<u128> = Vec::new();
        let mut i: usize = 0;
        while i < self.workers.len()
            invariant
                i <= self.workers.len(),
                ages@.len() == i,
            decreases self.workers.len() - i,
        {
            ages.push(nanos_elapsed(&self.workers[i].last_heartbeat));
            i = i + 1;
        }
        let n = self.live_workers(&ages, 60_000_000_000);
        proof {
            lemma_live_count_bound(self.workers@, ages@, 60_000_000_000);
        }
        n
    }
}

/// The total of a prefix never exceeds the total.
proof fn lemma_total_prefix(ws: Seq<WorkerState>, i: int)
    requires
        0 <= i <= ws.len(),
    ensures
        spec_total_timesteps(ws.take(i)) <= spec_total_timesteps(ws),
    decreases ws.len() - i,
{
    if i < ws.len() {
        lemma_total_prefix(ws, i + 1);
        assert(ws.take(i + 1).drop_last() =~= ws.take(i));
    } else {
        assert(ws.take(i) =~= ws);
    }
}

/// At most every worker is live.
proof fn lemma_live_count_bound(ws: Seq<WorkerState>, ages: Seq<u128>, timeout: u128)
    ensures
        spec_live_count(ws, ages, timeout) <= ws.len(),
    decreases ws.len(),
{
    if ws.len() > 0 && ages.len() >= ws.len() {
        lemma_live_count_bound(ws.drop_last(), ages.drop_last(), timeout);
    }
}

/// A worker counts as live exactly when it is active and heard from within
/// the timeout: an active worker whose heartbeat age reaches the timeout is
/// left out, and would count if it had just been heard from; an inactive
/// worker never counts.
pub proof fn lemma_stale_worker_not_counted(ws: Seq<WorkerState>, ages: Seq<u128>, timeout: u128, k: int)
    requires
        ages.len() == ws.len(),
        0 <= k < ws.len(),
        timeout > 0,
        ages[k] >= timeout,
    ensures
        ws[k].active ==> spec_live_count(ws, ages.update(k, 0), timeout) == spec_live_count(ws, ages, timeout) + 1,
        !ws[k].active ==> spec_live_count(ws, ages.update(k, 0), timeout) == spec_live_count(ws, ages, timeout),
    decreases ws.len(),
{
    let n = ws.len() as int;
    let fresh = ages.update(k, 0);
    if k == n - 1 {
        assert(fresh.drop_last() =~= ages.drop_last());
    } else {
        assert(fresh.drop_last() =~= ages.drop_last().update(k, 0));
        lemma_stale_worker_not_counted(ws.drop_last(), ages.drop_last(), timeout, k);
    }
}

/// When every worker's heartbeat age has reached the timeout, none is live.
pub proof fn lemma_all_stale_none_live(ws: Seq<WorkerState>, ages: Seq<u128>, timeout: u128)
    requires
        ages.len() == ws.len(),
        forall|i: int| 0 <= i < ages.len() ==> #[trigger] ages[i] >= timeout,
    ensures
        spec_live_count(ws, ages, timeout) == 0,
    decreases ws.len(),
{
    if ws.len() > 0 {
        lemma_all_stale_none_live(ws.drop_last(), ages.drop_last(), timeout);
    }
}

/// Configuration of distributed training: the topology (number of workers
/// and this worker's rank), the master's address and port, the backend and
/// the synchronization mode.  The gradient compression threshold, a float,
/// is kept by the gradient aggregator that uses it.
#[derive(Debug, Clone)]
pub struct DistributedConfig {
    /// Total number of workers in the distributed setup.
    pub world_size: usize,
    /// Rank of this worker (0 to world_size - 1).
    pub rank: usize,
    /// Communication backend.
    pub backend: DistributedBackend,
    /// Address of the parameter server.
    pub master_addr: String,
    /// Port for communication.
    pub master_port: u16,
    /// Timeout for communication operations in milliseconds.
    pub timeout_ms: u64,
    /// Whether this worker is the master (rank 0).
    pub is_master: bool,
    /// Enable gradient compression for bandwidth reduction.
    pub gradient_compression: bool,
    /// Synchronization mode.
    pub sync_mode: SyncMode,
}

impl Default for DistributedConfig {
    fn default() -> (c: Self)
        ensures
            c.world_size == 1,
            c.rank == 0,
            c.backend == DistributedBackend::Tcp,
            c.master_addr@ == "127.0.0.1"@,
            c.master_port == 29500,
            c.timeout_ms == 30000,
            c.is_master,
            !c.gradient_compression,
            c.sync_mode == SyncMode::Synchronous,
    {
        DistributedConfig {
            world_size: 1,
            rank: 0,
            backend: DistributedBackend::Tcp,
            master_addr: String::from_str("127.0.0.1"),
            master_port: 29500,
            timeout_ms: 30000,
            is_master: true,
            gradient_compression: false,
            sync_mode: SyncMode::Synchronous,
        }
    }
}

impl DistributedConfig {
    /// `world_size` workers, this one of rank `rank` (the master when 0);
    /// everything else as by default.
    pub fn new(world_size: usize, rank: usize) -> (c: Self)
        ensures
            c.world_size == world_size,
            c.rank == rank,
            c.is_master == (rank == 0),
            c.backend == DistributedBackend::Tcp,
            c.master_addr@ == "127.0.0.1"@,
            c.master_port == 29500,
            c.timeout_ms == 30000,
            !c.gradient_compression,
            c.sync_mode == SyncMode::Synchronous,
    {
        let d = Self::default();
        DistributedConfig { world_size, rank, is_master: rank == 0, ..d }
    }

    /// Sets the backend.
    pub fn backend(self, backend: DistributedBackend) -> (c: Self)
        ensures
            c == (DistributedConfig { backend, ..self }),
    {
        DistributedConfig { backend, ..self }
    }

    /// Sets the master address.
    pub fn master_addr(self, addr: &str) -> (c: Self)
        ensures
            c.master_addr@ == addr@,
            c.world_size == self.world_size,
            c.rank == self.rank,
            c.backend == self.backend,
            c.master_port == self.master_port,
            c.timeout_ms == self.timeout_ms,
            c.is_master == self.is_master,
            c.gradient_compression == self.gradient_compression,
            c.sync_mode == self.sync_mode,
    {
        DistributedConfig { master_addr: String::from_str(addr), ..self }
    }

    /// Sets the master port.
    pub fn master_port(self, port: u16) -> (c: Self)
        ensures
            c == (DistributedConfig { master_port: port, ..self }),
    {
        DistributedConfig { master_port: port, ..self }
    }

    /// Sets the communication timeout.
    pub fn timeout_ms(self, timeout: u64) -> (c: Self)
        ensures
            c == (DistributedConfig { timeout_ms: timeout, ..self }),
    {
        DistributedConfig { timeout_ms: timeout, ..self }
    }

    /// Turns gradient compression on or off.
    pub fn gradient_compression(self, enabled: bool) -> (c: Self)
        ensures
            c == (DistributedConfig { gradient_compression: enabled, ..self }),
    {
        DistributedConfig { gradient_compression: enabled, ..self }
    }

    /// Sets the synchronization mode.
    pub fn sync_mode(self, mode: SyncMode) -> (c: Self)
        ensures
            c == (DistributedConfig { sync_mode: mode, ..self }),
    {
        DistributedConfig { sync_mode: mode, ..self }
    }

    /// Checks the topology (see [`validate_topology`]).
    pub fn validate(&self) -> (r: Result<(), TopologyError>)
        ensures
            r == (if self.world_size == 0 {
                Err(TopologyError::ZeroWorldSize)
            } else if self.rank >= self.world_size {
                Err(TopologyError::RankOutOfRange { rank: self.rank, world_size: self.world_size })
            } else if self.master_port == 0 {
                Err(TopologyError::ZeroPort)
            } else {
                Ok(())
            }),
    {
        validate_topology(self.world_size, self.rank, self.master_port)
    }

    /// The master endpoint, `address:port`.
    pub fn master_endpoint(&self) -> (s: String)
        ensures
            s@ == self.master_addr@ + ":"@ + spec_decimal(self.master_port as nat),
    {
        let mut s = String::from_str(self.master_addr.as_str());
        s.append(":");
        let p = decimal_digits(self.master_port as u128);
        s.append(p.as_str());
        s
    }

    /// A single-worker setup (no distribution).
    pub fn is_single_worker(&self) -> (b: bool)
        ensures
            b == (self.world_size == 1),
    {
        self.world_size == 1
    }
}

/// Worker pool for distributed environment rollouts: the configuration,
/// the roster of workers and the device.
pub struct WorkerPool {
    config: DistributedConfig,
    roster: WorkerRoster,
    device: Device,
}

impl WorkerPool {
    /// The configuration.
    pub closed spec fn spec_config(&self) -> DistributedConfig {
        self.config
    }

    /// The worker states, by rank.
    pub closed spec fn spec_workers(&self) -> Seq<WorkerState> {
        self.roster.workers@
    }

    /// The device.
    pub closed spec fn spec_device(&self) -> Device {
        self.device
    }

    /// A pool for a valid configuration: one worker per rank, only the
    /// local one active, heartbeats now, no progress.  An invalid topology
    /// is refused with its error.
    pub fn new(config: DistributedConfig, device: Device) -> (r: Result<Self, TopologyError>)
        ensures
            r is Err ==> r == Err::<Self, TopologyError>(config.validate_spec()),
            r is Ok <==> config.validate_spec_ok(),
            r matches Ok(p) ==> {
                &&& p.spec_config() == config
                &&& p.spec_device() == device
                &&& p.spec_workers().len() == config.world_size
                &&& forall|i: int| 0 <= i < config.world_size ==> {
                    &&& (#[trigger] p.spec_workers()[i]).rank == i
                    &&& p.spec_workers()[i].active == (i == config.rank)
                    &&& p.spec_workers()[i].rollouts_completed == 0
                    &&& p.spec_workers()[i].timesteps_collected == 0
                }
            },
    {
        match config.validate() {
            Err(e) => Err(e),
            Ok(()) => {
                let now = monotonic_now();
                let roster = WorkerRoster::new(config.world_size, config.rank, now);
                Ok(WorkerPool { config, roster, device })
            },
        }
    }

    /// Number of workers.
    pub fn num_workers(&self) -> (n: usize)
        ensures
            n == self.spec_config().world_size,
    {
        self.config.world_size
    }

    /// This worker's rank.
    pub fn rank(&self) -> (r: usize)
        ensures
            r == self.spec_config().rank,
    {
        self.config.rank
    }

    /// Whether this is the master worker.
    pub fn is_master(&self) -> (b: bool)
        ensures
            b == self.spec_config().is_master,
    {
        self.config.is_master
    }

    /// The device.
    pub fn device(&self) -> (d: &Device)
        ensures
            *d == self.spec_device(),
    {
        &self.device
    }

    /// The worker states, by rank.
    pub fn workers(&self) -> (w: &Vec<WorkerState>)
        ensures
            w@ == self.spec_workers(),
    {
        &self.roster.workers
    }

    /// Marks worker `rank` active with a heartbeat now; unknown ranks are
    /// ignored.
    pub fn update_heartbeat(&mut self, rank: usize)
        ensures
            final(self).spec_config() == old(self).spec_config(),
            final(self).spec_device() == old(self).spec_device(),
            final(self).spec_workers().len() == old(self).spec_workers().len(),
            rank < old(self).spec_workers().len() ==> {
                &&& final(self).spec_workers()[rank as int].active
                &&& final(self).spec_workers()[rank as int].rank == old(self).spec_workers()[rank as int].rank
                &&& final(self).spec_workers()[rank as int].rollouts_completed
                    == old(self).spec_workers()[rank as int].rollouts_completed
                &&& final(self).spec_workers()[rank as int].timesteps_collected
                    == old(self).spec_workers()[rank as int].timesteps_collected
                &&& forall|i: int| 0 <= i < old(self).spec_workers().len() && i != rank
                    ==> #[trigger] final(self).spec_workers()[i] == old(self).spec_workers()[i]
            },
            rank >= old(self).spec_workers().len() ==> final(self).spec_workers() == old(self).spec_workers(),
    {
        let now = monotonic_now();
        self.roster.update_heartbeat(rank, now);
    }

    /// Records a completed rollout of `timesteps` steps for worker `rank`;
    /// unknown ranks are ignored.
    pub fn record_rollout(&mut self, rank: usize, timesteps: usize)
        requires
            rank < old(self).spec_workers().len() ==> {
                &&& old(self).spec_workers()[rank as int].rollouts_completed < usize::MAX
                &&& old(self).spec_workers()[rank as int].timesteps_collected + timesteps <= usize::MAX
            },
        ensures
            final(self).spec_config() == old(self).spec_config(),
            final(self).spec_device() == old(self).spec_device(),
            final(self).spec_workers().len() == old(self).spec_workers().len(),
            rank < old(self).spec_workers().len() ==> final(self).spec_workers() == old(self).spec_workers().update(
                rank as int,
                WorkerState {
                    rollouts_completed: (old(self).spec_workers()[rank as int].rollouts_completed + 1) as usize,
                    timesteps_collected: (old(self).spec_workers()[rank as int].timesteps_collected + timesteps) as usize,
                    ..old(self).spec_workers()[rank as int]
                },
            ),
            rank >= old(self).spec_workers().len() ==> final(self).spec_workers() == old(self).spec_workers(),
    {
        self.roster.record_rollout(rank, timesteps);
    }

    /// Total timesteps collected across all workers.
    pub fn total_timesteps(&self) -> (t: usize)
        requires
            spec_total_timesteps(self.spec_workers()) <= usize::MAX,
        ensures
            t == spec_total_timesteps(self.spec_workers()),
    {
        self.roster.total_timesteps()
    }

    /// Number of active workers heard from in the last 60 seconds.
    pub fn active_workers(&self) -> (n: usize)
        ensures
            n <= self.spec_workers().len(),
            exists|ages: Seq<u128>| ages.len() == self.spec_workers().len()
                && n == spec_live_count(self.spec_workers(), ages, 60_000_000_000),
    {
        self.roster.active_workers()
    }

    /// Whether every worker is active and was heard from in the last 60
    /// seconds.
    pub fn all_healthy(&self) -> (b: bool)
        ensures
            exists|ages: Seq<u128>| ages.len() == self.spec_workers().len()
                && b == (spec_live_count(self.spec_workers(), ages, 60_000_000_000) == self.spec_config().world_size),
    {
        let n = self.roster.active_workers();
        proof {
            let ages = choose|ages: Seq<u128>| ages.len() == self.spec_workers().len()
                && n == spec_live_count(self.spec_workers(), ages, 60_000_000_000);
            assert(spec_live_count(self.spec_workers(), ages, 60_000_000_000) == n);
        }
        n == self.config.world_size
    }
}

impl DistributedConfig {
    /// What [`Self::validate`] returns, as an error (meaningful when it fails).
    pub open spec fn validate_spec(self) -> TopologyError {
        if self.world_size == 0 {
            TopologyError::ZeroWorldSize
        } else if self.rank >= self.world_size {
            TopologyError::RankOutOfRange { rank: self.rank, world_size: self.world_size }
        } else {
            TopologyError::ZeroPort
        }
    }

    /// [`Self::validate`] succeeds.
    pub open spec fn validate_spec_ok(self) -> bool {
        self.world_size > 0 && self.rank < self.world_size && self.master_port != 0
    }
}

/// Why gradients cannot be aggregated.
#[derive(Debug, Clone, Copy, PartialEq, Eq, Structural)]
pub enum AggregateError {
    /// No gradient arrived since the last aggregation.
    NoGradients,
}

impl AggregateError {
    /// The explanation text of the error.
    pub open spec fn spec_message(self) -> Seq<char> {
        "No gradients to aggregate"@
    }

    /// The explanation text of the error.
    pub fn message(&self) -> (s: String)
        ensures
            s@ == self.spec_message(),
    {
        String::from_str("No gradients to aggregate")
    }
}

/// The counting of the gradient aggregator: how many gradient sets arrived
/// since the last aggregation, and how many aggregations happened.  The
/// gradients themselves are summed outside the library.
#[derive(Debug, Clone, Copy, PartialEq, Eq, Structural)]
pub struct AggregationState {
    sync_mode: SyncMode,
    world_size: usize,
    num_accumulated: usize,
    global_step: usize,
}

impl AggregationState {
    /// Synchronization mode.
    pub closed spec fn spec_mode(&self) -> SyncMode {
        self.sync_mode
    }

    /// Number of workers.
    pub closed spec fn spec_world_size(&self) -> nat {
        self.world_size as nat
    }

    /// Gradient sets since the last aggregation.
    pub closed spec fn spec_accumulated(&self) -> nat {
        self.num_accumulated as nat
    }

    /// Aggregations so far.
    pub closed spec fn spec_step(&self) -> nat {
        self.global_step as nat
    }

    /// Counting for a valid configuration; an invalid topology is refused.
    pub fn new(config: &DistributedConfig) -> (r: Result<Self, TopologyError>)
        ensures
            r is Ok <==> config.validate_spec_ok(),
            r is Err ==> r == Err::<Self, TopologyError>(config.validate_spec()),
            r matches Ok(a) ==> {
                &&& a.spec_mode() == config.sync_mode
                &&& a.spec_world_size() == config.world_size
                &&& a.spec_accumulated() == 0
                &&& a.spec_step() == 0
            },
    {
        match config.validate() {
            Err(e) => Err(e),
            Ok(()) => Ok(AggregationState {
                sync_mode: config.sync_mode,
                world_size: config.world_size,
                num_accumulated: 0,
                global_step: 0,
            }),
        }
    }

    /// A gradient set arrived.
    pub fn record_contribution(&mut self)
        requires
            old(self).spec_accumulated() < usize::MAX,
        ensures
            final(self).spec_accumulated() == old(self).spec_accumulated() + 1,
            final(self).spec_step() == old(self).spec_step(),
            final(self).spec_mode() == old(self).spec_mode(),
            final(self).spec_world_size() == old(self).spec_world_size(),
    {
        self.num_accumulated = self.num_accumulated + 1;
    }

    /// Whether enough gradient sets arrived (see [`sync_ready`]).
    pub fn is_ready(&self) -> (b: bool)
        ensures
            b == (match self.spec_mode() {
                SyncMode::Synchronous => self.spec_accumulated() >= self.spec_world_size(),
                SyncMode::Asynchronous => self.spec_accumulated() > 0,
                SyncMode::BoundedStaleness(max_stale) => self.spec_accumulated() >= (if self.spec_world_size()
                    >= max_stale {
                    self.spec_world_size() - max_stale
                } else {
                    0
                }),
            }),
    {
        sync_ready(self.sync_mode, self.num_accumulated, self.world_size)
    }

    /// Ends an aggregation round: refused with no gradient set; otherwise
    /// the count restarts and the step advances.  Returns how many sets
    /// were averaged.
    pub fn finish_round(&mut self) -> (r: Result<usize, AggregateError>)
        requires
            old(self).spec_accumulated() > 0 ==> old(self).spec_step() < usize::MAX,
        ensures
            final(self).spec_mode() == old(self).spec_mode(),
            final(self).spec_world_size() == old(self).spec_world_size(),
            old(self).spec_accumulated() == 0 ==> r == Err::<usize, AggregateError>(AggregateError::NoGradients)
                && *final(self) == *old(self),
            old(self).spec_accumulated() > 0 ==> {
                &&& r == Ok::<usize, AggregateError>(old(self).spec_accumulated() as usize)
                &&& final(self).spec_accumulated() == 0
                &&& final(self).spec_step() == old(self).spec_step() + 1
            },
    {
        if self.num_accumulated == 0 {
            return Err(AggregateError::NoGradients);
        }
        let n = self.num_accumulated;
        self.num_accumulated = 0;
        self.global_step = self.global_step + 1;
        Ok(n)
    }

    /// Drops the gradient sets of the current round without a step.
    pub fn reset(&mut self)
        ensures
            final(self).spec_accumulated() == 0,
            final(self).spec_step() == old(self).spec_step(),
            final(self).spec_mode() == old(self).spec_mode(),
            final(self).spec_world_size() == old(self).spec_world_size(),
    {
        self.num_accumulated = 0;
    }

    /// Gradient sets since the last aggregation.
    pub fn num_accumulated(&self) -> (n: usize)
        ensures
            n == self.spec_accumulated(),
    {
        self.num_accumulated
    }

    /// Aggregations so far.
    pub fn global_step(&self) -> (n: usize)
        ensures
            n == self.spec_step(),
    {
        self.global_step
    }
}

/// Recording a rollout adds its timesteps to the roster's total.
pub proof fn lemma_rollout_adds_to_total(ws: Seq<WorkerState>, rank: int, w: WorkerState)
    requires
        0 <= rank < ws.len(),
    ensures
        spec_total_timesteps(ws.update(rank, w)) + ws[rank].timesteps_collected
            == spec_total_timesteps(ws) + w.timesteps_collected,
    decreases ws.len(),
{
    if rank == ws.len() - 1 {
        assert(ws.update(rank, w).drop_last() =~= ws.drop_last());
    } else {
        lemma_rollout_adds_to_total(ws.drop_last(), rank, w);
        assert(ws.update(rank, w).drop_last() =~= ws.drop_last().update(rank, w));
    }
}

} // verus!
