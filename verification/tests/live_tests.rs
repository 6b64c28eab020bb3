use octane::clock::{millis_from_reading, timestamp_text};
use octane::execution::{ExecutionAlgorithm, ExecutionProgress, ExecutionStatus, OmsState, Urgency};
use octane::live_types::{client_order_id, generate_client_order_id, Interval, OrderStatus, OrderType, Side, TimeInForce};
use octane::monitor::{any_unhealthy, calculate_overall_health, in_cooldown, max_latency, AlertSeverity, ComponentHealth, HealthStatus, SystemHealth};

#[test]
fn test_prelude_imports() {
    let _side = Side::Buy;
    let _status = OrderStatus::Pending;
    let _algo = ExecutionAlgorithm::TWAP;
}

#[test]
fn order_status_classes() {
    assert!(OrderStatus::Filled.is_terminal());
    assert!(!OrderStatus::Filled.is_active());
    assert!(OrderStatus::PartiallyFilled.is_active());
    assert!(!OrderStatus::Expired.is_active());
    assert!(OrderStatus::Expired.is_terminal());
}

#[test]
fn interval_lengths_and_labels() {
    assert_eq!(Interval::M1.to_millis(), 60_000);
    assert_eq!(Interval::H8.to_millis(), 28_800_000);
    assert_eq!(Interval::Mo1.to_millis(), 2_592_000_000);
    assert_eq!(Interval::Mo1.as_str(), "1M");
    assert_eq!(Interval::M15.as_str(), "15m");
    assert_eq!(Side::Sell.as_str(), "SELL");
    assert_eq!(OrderType::TrailingStop.as_str(), "TRAILING_STOP");
    assert_eq!(TimeInForce::default(), TimeInForce::GTC);
    assert_eq!(ExecutionAlgorithm::default(), ExecutionAlgorithm::Market);
    assert_eq!(Urgency::default(), Urgency::Medium);
    let _ = ExecutionStatus::Paused;
    let _ = AlertSeverity::Emergency;
}

#[test]
fn client_order_ids() {
    assert_eq!(client_order_id(1700000000123, 0xbeef), "octane_1700000000123_0000beef");
    assert_eq!(client_order_id(0, u32::MAX), "octane_0_ffffffff");
    let id = generate_client_order_id();
    assert!(id.starts_with("octane_"));
    assert_eq!(id.rsplit('_').next().unwrap().len(), 8);
}

#[test]
fn clock_text_and_millis() {
    assert_eq!(timestamp_text(12, 5), "12.000000005");
    assert_eq!(timestamp_text(0, 999_999_999), "0.999999999");
    assert_eq!(millis_from_reading(2, 345_678_901), 2345);
    assert_eq!(millis_from_reading(u64::MAX, 0), u64::MAX.wrapping_mul(1000));
    assert!(octane::clock::current_timestamp_ms() > 1_600_000_000_000);
    assert!(octane::clock::chrono_timestamp().contains('.'));
}

#[test]
fn overall_health_rules() {
    let c = |n: &str, s| ComponentHealth { name: n.to_string(), status: s, last_heartbeat: 0, latency_ms: None, error: None };
    assert_eq!(calculate_overall_health(&vec![]), HealthStatus::Unknown);
    assert_eq!(calculate_overall_health(&vec![c("a", HealthStatus::Healthy)]), HealthStatus::Healthy);
    assert_eq!(
        calculate_overall_health(&vec![c("a", HealthStatus::Degraded), c("b", HealthStatus::Healthy)]),
        HealthStatus::Degraded
    );
    assert_eq!(
        calculate_overall_health(&vec![c("a", HealthStatus::Degraded), c("b", HealthStatus::Unhealthy)]),
        HealthStatus::Unhealthy
    );
    assert_eq!(calculate_overall_health(&vec![c("a", HealthStatus::Unknown)]), HealthStatus::Healthy);
}

#[test]
fn health_table_upserts_by_name() {
    let mut h = SystemHealth::new();
    h.update_component(ComponentHealth::heartbeat("exchange", Some(50), 1000), 1000, 6000, 1000);
    assert_eq!(h.components.len(), 1);
    assert_eq!(h.status, HealthStatus::Healthy);
    assert_eq!(h.uptime_secs, 5);
    let bad = ComponentHealth {
        name: "exchange".to_string(),
        status: HealthStatus::Unhealthy,
        last_heartbeat: 2000,
        latency_ms: None,
        error: Some("down".to_string()),
    };
    h.update_component(bad, 2000, 2500, 1000);
    assert_eq!(h.components.len(), 1);
    assert_eq!(h.status, HealthStatus::Unhealthy);
    assert_eq!(h.timestamp, 2000);
    assert_eq!(h.uptime_secs, 1);
    h.update_component(ComponentHealth::heartbeat("feed", None, 3000), 3000, 3000, 1000);
    assert_eq!(h.components.len(), 2);
    assert_eq!(h.components[1].name, "feed");
    assert_eq!(h.status, HealthStatus::Unhealthy);
}

#[test]
fn latency_and_connection_checks() {
    let mut a = ComponentHealth::heartbeat("feed", Some(40), 1_000);
    let b = ComponentHealth::heartbeat("orders", None, 1_000);
    let c = ComponentHealth::heartbeat("risk", Some(120), 1_000);
    assert_eq!(max_latency(&vec![]), 0);
    assert_eq!(max_latency(&vec![a.clone(), b.clone(), c.clone()]), 120);
    assert_eq!(max_latency(&vec![b.clone()]), 0);
    assert!(!any_unhealthy(&vec![a.clone(), b.clone()]));
    a.status = HealthStatus::Unhealthy;
    assert!(any_unhealthy(&vec![b, a]));
}

#[test]
fn alert_cooldown_window() {
    assert!(!in_cooldown(10_000, None, 60));
    assert!(in_cooldown(10_000, Some(9_000), 60));
    assert!(!in_cooldown(70_000, Some(10_000), 60));
    assert!(in_cooldown(69_999, Some(10_000), 60));
    assert!(!in_cooldown(5_000, Some(5_000), 0));
}

#[test]
fn oms_tracks_running_and_finished_executions() {
    let mut oms = OmsState::new();
    let mut twap = ExecutionProgress::new("twap-1", 100);
    twap.status = ExecutionStatus::InProgress;
    oms.insert_active(twap);
    oms.insert_active(ExecutionProgress::new("vwap-1", 200));
    assert_eq!(oms.active_count(), 2);
    assert_eq!(oms.find_active("vwap-1"), Some(1));
    assert_eq!(oms.find_active("nope"), None);

    oms.record_child_order("twap-1", Some("child-a"));
    oms.record_child_order("twap-1", None);
    oms.record_child_order("nope", Some("x"));
    let t = oms.get_execution("twap-1").unwrap();
    assert_eq!(t.num_orders, 2);
    assert_eq!(t.child_orders, vec![String::from("child-a")]);
    assert!(!oms.is_cancelled("twap-1"));

    // Re-inserting an id replaces the running entry in place.
    oms.insert_active(ExecutionProgress::new("twap-1", 150));
    assert_eq!(oms.active_count(), 2);
    assert_eq!(oms.get_execution("twap-1").unwrap().num_orders, 0);

    assert!(oms.finalize("twap-1", true, 900));
    assert!(!oms.finalize("twap-1", true, 901));
    assert!(oms.finalize("vwap-1", false, 950));
    assert_eq!(oms.active_count(), 0);
    let done = oms.completed_executions();
    assert_eq!(done.len(), 2);
    assert_eq!(done[0].status, ExecutionStatus::Completed);
    assert_eq!(done[0].end_time, Some(900));
    assert_eq!(done[1].status, ExecutionStatus::Failed);
    assert_eq!(oms.get_execution("vwap-1").unwrap().start_time, 200);

    let mut market = ExecutionProgress::new("mkt-1", 5);
    market.status = ExecutionStatus::Completed;
    oms.record_finished(market);
    let c = oms.counts();
    assert_eq!((c.total_executions, c.completed_executions, c.failed_executions), (3, 2, 1));
    assert!(oms.get_execution("missing").is_none());
}

#[test]
fn cancelled_running_execution_is_reported() {
    let mut oms = OmsState::new();
    let mut p = ExecutionProgress::new("iceberg-1", 0);
    p.status = ExecutionStatus::Cancelled;
    oms.insert_active(p);
    assert!(oms.is_cancelled("iceberg-1"));
    assert!(!oms.is_cancelled("other"));
    assert_eq!(oms.active_executions().len(), 1);
}
