use octane::distributed::{
    sync_ready, validate_topology, AggregateError, AggregationState, DistributedBackend, DistributedConfig, SyncMode,
    TopologyError, WorkerPool, WorkerRoster,
};
use octane::device::Device;
use std::time::Instant;

#[test]
fn topology_validation() {
    assert_eq!(validate_topology(1, 0, 29500), Ok(()));
    assert_eq!(validate_topology(4, 2, 29500), Ok(()));
    assert_eq!(validate_topology(4, 5, 29500), Err(TopologyError::RankOutOfRange { rank: 5, world_size: 4 }));
    assert_eq!(validate_topology(0, 0, 29500), Err(TopologyError::ZeroWorldSize));
    assert_eq!(validate_topology(2, 1, 0), Err(TopologyError::ZeroPort));
    assert_eq!(
        TopologyError::RankOutOfRange { rank: 5, world_size: 4 }.message(),
        "rank 5 must be less than world_size 4"
    );
    assert_eq!(TopologyError::ZeroWorldSize.message(), "world_size must be positive");
    assert_eq!(DistributedBackend::default(), DistributedBackend::Tcp);
    assert_eq!(SyncMode::default(), SyncMode::Synchronous);
}

#[test]
fn readiness_by_mode() {
    assert!(!sync_ready(SyncMode::Synchronous, 1, 2));
    assert!(sync_ready(SyncMode::Synchronous, 2, 2));
    assert!(sync_ready(SyncMode::Asynchronous, 1, 4));
    assert!(!sync_ready(SyncMode::Asynchronous, 0, 4));
    assert!(sync_ready(SyncMode::BoundedStaleness(1), 3, 4));
    assert!(!sync_ready(SyncMode::BoundedStaleness(1), 2, 4));
    assert!(sync_ready(SyncMode::BoundedStaleness(9), 0, 4));
}

#[test]
fn roster_progress() {
    let now = Instant::now();
    let mut roster = WorkerRoster::new(4, 0, now);
    assert_eq!(roster.workers.len(), 4);
    assert!(roster.workers[0].active);
    assert!(!roster.workers[1].active);
    roster.record_rollout(0, 1000);
    assert_eq!(roster.total_timesteps(), 1000);
    roster.record_rollout(3, 24);
    roster.record_rollout(9, 5);
    assert_eq!(roster.total_timesteps(), 1024);
    assert_eq!(roster.workers[3].rollouts_completed, 1);
    assert_eq!(roster.active_workers(), 1);
    roster.update_heartbeat(2, Instant::now());
    assert_eq!(roster.active_workers(), 2);
    assert_eq!(roster.live_workers(&vec![0, 0, 61_000_000_000, 0], 60_000_000_000), 1);
}

#[test]
fn test_distributed_config_defaults() {
    let config = DistributedConfig::default();
    assert_eq!(config.world_size, 1);
    assert_eq!(config.rank, 0);
    assert!(config.is_master);
    assert!(config.validate().is_ok());
}

#[test]
fn test_distributed_config_new() {
    let config = DistributedConfig::new(4, 2);
    assert_eq!(config.world_size, 4);
    assert_eq!(config.rank, 2);
    assert!(!config.is_master);
    assert!(config.validate().is_ok());
}

#[test]
fn test_distributed_config_validation() {
    let invalid = DistributedConfig::new(4, 5);
    assert!(invalid.validate().is_err());

    let zero_world = DistributedConfig { world_size: 0, ..Default::default() };
    assert!(zero_world.validate().is_err());
}

#[test]
fn test_worker_pool() {
    let config = DistributedConfig::new(4, 0);
    let mut pool = WorkerPool::new(config, Device::Cpu).unwrap();

    assert_eq!(pool.num_workers(), 4);
    assert_eq!(pool.rank(), 0);
    assert!(pool.is_master());

    pool.record_rollout(0, 1000);
    assert_eq!(pool.total_timesteps(), 1000);
}

#[test]
fn config_builders_and_endpoint() {
    let c = DistributedConfig::new(2, 1)
        .master_addr("10.0.0.1")
        .master_port(8080)
        .timeout_ms(5)
        .gradient_compression(true)
        .backend(DistributedBackend::Grpc)
        .sync_mode(SyncMode::BoundedStaleness(1));
    assert_eq!(c.master_endpoint(), "10.0.0.1:8080");
    assert_eq!(DistributedConfig::default().master_endpoint(), "127.0.0.1:29500");
    assert!(!c.is_single_worker());
    assert!(DistributedConfig::default().is_single_worker());
    assert_eq!(c.timeout_ms, 5);
    assert!(c.gradient_compression);
    assert_eq!(DistributedConfig::new(2, 0).master_port(0).validate(), Err(TopologyError::ZeroPort));
}

#[test]
fn pool_heartbeats_and_health() {
    let mut pool = WorkerPool::new(DistributedConfig::new(2, 0), Device::Cpu).unwrap();
    assert!(pool.workers()[0].active && !pool.workers()[1].active);
    assert_eq!(pool.active_workers(), 1);
    assert!(!pool.all_healthy());
    pool.update_heartbeat(1);
    pool.update_heartbeat(7);
    assert_eq!(pool.active_workers(), 2);
    assert!(pool.all_healthy());
    assert_eq!(*pool.device(), Device::Cpu);
    assert!(WorkerPool::new(DistributedConfig::new(2, 3), Device::Cpu).is_err());
}

#[test]
fn aggregation_rounds() {
    // Two workers, synchronous: ready after both contributed.
    let mut a = AggregationState::new(&DistributedConfig::new(2, 0)).unwrap();
    a.record_contribution();
    assert!(!a.is_ready());
    a.record_contribution();
    assert!(a.is_ready());
    assert_eq!(a.finish_round(), Ok(2));
    assert_eq!(a.global_step(), 1);
    assert_eq!(a.num_accumulated(), 0);
    assert_eq!(a.finish_round(), Err(AggregateError::NoGradients));
    assert_eq!(AggregateError::NoGradients.message(), "No gradients to aggregate");
    // Four workers, asynchronous: one contribution is enough.
    let mut b = AggregationState::new(&DistributedConfig::new(4, 0).sync_mode(SyncMode::Asynchronous)).unwrap();
    b.record_contribution();
    assert!(b.is_ready());
    b.reset();
    assert_eq!(b.num_accumulated(), 0);
    assert_eq!(b.global_step(), 0);
}
