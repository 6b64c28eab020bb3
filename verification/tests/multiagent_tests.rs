use octane::multiagent::{AgentId, CommunicationConfig, JointAction, MultiAgentDone, MultiAgentObs, MultiAgentSpace, ParameterSharingConfig};
use std::collections::HashMap;

#[test]
fn test_agent_id() {
    let agent = AgentId::new(5);
    assert_eq!(agent.value(), 5);
    assert_eq!(agent.label(), "Agent_5");

    let agent2: AgentId = 10.into();
    assert_eq!(agent2.value(), 10);
}

#[test]
fn test_multi_agent_done() {
    let mut terminated = HashMap::new();
    terminated.insert(AgentId::new(0).value(), false);
    terminated.insert(AgentId::new(1).value(), true);

    let mut truncated = HashMap::new();
    truncated.insert(AgentId::new(0).value(), false);
    truncated.insert(AgentId::new(1).value(), false);

    let dones = MultiAgentDone::new(terminated, truncated);

    assert!(!dones.is_done(&AgentId::new(0)));
    assert!(dones.is_done(&AgentId::new(1)));
    assert!(dones.any_done());
    assert!(!dones.all_done());
    assert_eq!(dones.active_agents(), vec![AgentId::new(0)]);
}

#[test]
fn test_parameter_sharing_config() {
    let independent = ParameterSharingConfig::independent();
    assert!(!independent.share_policy);
    assert!(!independent.share_value);

    let full = ParameterSharingConfig::full_sharing();
    assert!(full.share_policy);
    assert!(full.share_value);
}

#[test]
fn test_communication_config() {
    let continuous = CommunicationConfig::continuous(32);
    assert!(continuous.enabled);
    assert_eq!(continuous.message_size, 32);
    assert!(!continuous.discrete_messages);

    let discrete = CommunicationConfig::discrete(16, 100);
    assert!(discrete.enabled);
    assert_eq!(discrete.message_size, 16);
    assert!(discrete.discrete_messages);
    assert_eq!(discrete.vocab_size, Some(100));
}

#[test]
fn done_flags_truncation_and_env_flag() {
    let mut terminated = HashMap::new();
    terminated.insert(0usize, false);
    terminated.insert(1usize, false);
    let mut truncated = HashMap::new();
    truncated.insert(0usize, true);
    truncated.insert(1usize, true);
    let dones = MultiAgentDone::new(terminated, truncated);
    assert!(dones.env_done());
    assert!(dones.all_done());
    assert!(dones.is_truncated(&AgentId::new(0)));
    assert!(!dones.is_terminated(&AgentId::new(0)));
    assert!(dones.active_agents().is_empty());

    let calm = MultiAgentDone::new(HashMap::from([(7usize, false)]), HashMap::new());
    assert!(!calm.env_done());
    assert!(!calm.any_done());
    // Agent 7 has neither terminated nor been truncated.
    assert!(!calm.all_done());
    assert_eq!(calm.active_agents(), vec![AgentId::new(7)]);
    let forced = calm.with_env_done(true);
    assert!(forced.env_done());
    // An agent without flags is not done.
    assert!(!forced.is_done(&AgentId::new(99)));
}

#[test]
fn group_sharing_keeps_groups() {
    let groups = vec![vec![AgentId::new(0), AgentId::new(1)], vec![AgentId::new(2)]];
    let cfg = ParameterSharingConfig::group_sharing(groups.clone());
    assert!(cfg.share_policy && cfg.share_value);
    assert_eq!(cfg.agent_groups, Some(groups));
    let d = ParameterSharingConfig::default();
    assert!(d.share_policy && d.share_value && d.agent_groups.is_none());
    let c = CommunicationConfig::default();
    assert!(!c.enabled && c.learned && c.vocab_size.is_none());
}

#[test]
fn observations_in_agent_order() {
    let mut m = HashMap::new();
    m.insert(0usize, 10u32);
    m.insert(2usize, 30u32);
    let obs = MultiAgentObs::new(m).with_global_state(99);
    assert_eq!(obs.num_agents(), 2);
    assert_eq!(obs.get(&AgentId::new(2)), Some(&30));
    assert_eq!(obs.get(&AgentId::new(1)), None);
    assert_eq!(obs.global_state(), Some(&99));
    let order = vec![AgentId::new(2), AgentId::new(1), AgentId::new(0)];
    assert_eq!(obs.in_order(&order), vec![&30, &10]);
    assert!(obs.in_order(&vec![AgentId::new(5)]).is_empty());
}

#[test]
fn joint_action_from_ordered_values() {
    let order = vec![AgentId::new(3), AgentId::new(1)];
    let joint = JointAction::from_ordered(vec!['a', 'b'], &order);
    assert_eq!(joint.get(&AgentId::new(3)), Some(&'a'));
    assert_eq!(joint.get(&AgentId::new(1)), Some(&'b'));
    assert_eq!(joint.actions().len(), 2);
    assert_eq!(joint.in_order(&vec![AgentId::new(1), AgentId::new(3)]), vec![&'b', &'a']);
    let dup = JointAction::from_ordered(vec![1, 2], &vec![AgentId::new(4), AgentId::new(4)]);
    assert_eq!(dup.get(&AgentId::new(4)), Some(&2));
}

#[test]
fn multi_agent_spaces() {
    let shared: MultiAgentSpace<&str> = MultiAgentSpace::Homogeneous("box");
    assert!(shared.is_homogeneous());
    assert_eq!(shared.get(&AgentId::new(7)), Some(&"box"));
    let mut per = HashMap::new();
    per.insert(1usize, "small");
    let own = MultiAgentSpace::Heterogeneous(per);
    assert!(!own.is_homogeneous());
    assert_eq!(own.get(&AgentId::new(1)), Some(&"small"));
    assert_eq!(own.get(&AgentId::new(2)), None);
}

#[test]
fn all_done_counts_either_flag() {
    let terminated = HashMap::from([(0usize, true), (1usize, false)]);
    let truncated = HashMap::from([(0usize, false), (1usize, true)]);
    assert!(MultiAgentDone::new(terminated, truncated).all_done());
    let terminated = HashMap::from([(0usize, true)]);
    let truncated = HashMap::from([(1usize, false)]);
    assert!(!MultiAgentDone::new(terminated, truncated).all_done());
    assert!(MultiAgentDone::new(HashMap::new(), HashMap::new()).all_done());
}
