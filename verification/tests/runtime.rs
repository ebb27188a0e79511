use caxton::ids::AgentId;
use caxton::runtime::{
    agent_health, AgentConfig, AgentState, CaxtonConfig, CaxtonError, CaxtonRuntime,
    ResourceLimits,
};

fn config(name: &str) -> AgentConfig {
    AgentConfig {
        name: name.to_string(),
        agent_type: "worker".to_string(),
        capabilities: vec!["math".to_string()],
        max_memory: Some(1024),
        timeout_ms: Some(500),
    }
}

#[test]
fn defaults_are_as_configured() {
    let c = CaxtonConfig::default();
    assert_eq!(c.max_agents, 100);
    assert_eq!(c.default_timeout_ms, 30_000);
    assert!(!c.fipa_compliance_strict);
    let l = ResourceLimits::default();
    assert_eq!(l.max_memory_per_agent, 64 * 1024 * 1024);
    assert_eq!(l.max_cpu_time_per_agent_ms, 30_000);
}

#[test]
fn agents_move_through_their_lifecycle() {
    let mut rt = CaxtonRuntime::new(CaxtonConfig::default()).unwrap();
    let id = AgentId::new(0x10);
    rt.spawn_agent_at(config("a"), id, 1_000).unwrap();
    assert_eq!(rt.get_agent_state(&id).unwrap(), AgentState::Ready);
    assert_eq!(rt.get_metrics(), (1, 1, 0, 0));
    rt.record_message_at(id, 2_000).unwrap();
    assert_eq!(rt.get_agent_resource_usage(&id).unwrap().message_count, 1);
    assert!(rt.resume_agent(&id).is_err());
    rt.suspend_agent(&id).unwrap();
    assert_eq!(rt.get_agent_state(&id).unwrap(), AgentState::Suspended);
    rt.resume_agent(&id).unwrap();
    assert_eq!(rt.list_agents().len(), 1);
    rt.terminate_agent(&id, 100).unwrap();
    assert_eq!(rt.get_agent_state(&id).unwrap(), AgentState::Terminated);
    assert!(rt.list_agents().is_empty());
    match rt.suspend_agent(&id) {
        Err(CaxtonError::Agent(m)) => assert_eq!(m, "Cannot suspend agent in state: Terminated"),
        other => panic!("unexpected result: {other:?}"),
    }
    assert!(rt.record_message_at(id, 3_000).is_err());
    assert_eq!(rt.get_metrics(), (1, 0, 1, 0));
    rt.force_terminate_agent(&id).unwrap();
    assert!(rt.get_agent_state(&id).is_err());
}

#[test]
fn health_depends_on_state_and_activity() {
    let healthy = agent_health(AgentState::Ready, 0, 299_999);
    assert!(healthy.healthy);
    assert!(healthy.details.is_none());
    let idle = agent_health(AgentState::Ready, 0, 300_000);
    assert!(!idle.healthy);
    assert_eq!(idle.details.unwrap(), "Agent inactive for 300 seconds in state Ready");
    assert!(agent_health(AgentState::Suspended, 0, 10_000_000).healthy);
    assert!(!agent_health(AgentState::Terminated, 0, 0).healthy);
    let skewed = agent_health(AgentState::Initializing, 5_000, 0);
    assert_eq!(skewed.details.unwrap(), "Agent inactive for -5 seconds in state Initializing");
}

#[test]
fn limits_are_recorded_as_properties() {
    let mut rt = CaxtonRuntime::new(CaxtonConfig::default()).unwrap();
    let id = AgentId::new(0x11);
    rt.spawn_agent_at(config("b"), id, 0).unwrap();
    rt.update_agent_limits(&id, Some(2048), Some(70)).unwrap();
    assert!(rt.health_check_agent_at(&id, 1_000).unwrap().healthy);
    assert!(rt.shutdown(1_000).is_ok());
    assert_eq!(rt.get_agent_state(&id).unwrap(), AgentState::Terminated);
}

#[test]
fn agents_are_processing_while_they_handle_a_message() {
    let mut rt = CaxtonRuntime::new(CaxtonConfig::default()).unwrap();
    let id = AgentId::new(0x12);
    rt.spawn_agent_at(config("c"), id, 0).unwrap();
    rt.begin_processing_at(id, 7_000);
    assert_eq!(rt.get_agent_state(&id).unwrap(), AgentState::Processing);
    assert_eq!(rt.get_agent_resource_usage(&id).unwrap().last_activity_millis, 7_000);
    rt.finish_processing(id);
    assert_eq!(rt.get_agent_state(&id).unwrap(), AgentState::Ready);
    rt.begin_processing_at(AgentId::new(0x99), 1);
    assert!(rt.get_agent_state(&AgentId::new(0x99)).is_err());
    let (metadata, usage) = rt.get_agent_metadata(&id).unwrap();
    assert_eq!(metadata.name, "c");
    assert_eq!(metadata.agent_type, "worker");
    assert_eq!(metadata.properties, vec![
        ("max_memory".to_string(), "1024".to_string()),
        ("timeout_ms".to_string(), "500".to_string()),
    ]);
    assert_eq!(usage.last_activity_millis, 7_000);
    assert!(rt.get_agent_metadata(&AgentId::new(0x99)).is_err());
}

#[test]
fn metrics_pass_estimates_memory_and_finds_idle_agents() {
    let mut rt = CaxtonRuntime::new(CaxtonConfig::default()).unwrap();
    rt.spawn_agent_at(config("idle"), AgentId::new(1), 0).unwrap();
    rt.spawn_agent_at(config("busy"), AgentId::new(2), 500_000).unwrap();
    let unhealthy = rt.collect_agent_metrics_at(601_000);
    assert_eq!(unhealthy, vec![AgentId::new(1)]);
    assert_eq!(rt.get_metrics().3, 2 * 1_048_576);
    assert_eq!(rt.get_agent_resource_usage(&AgentId::new(2)).unwrap().memory_bytes, 1_048_576);
    assert!(rt.collect_agent_metrics_at(600_999).is_empty());
}

#[test]
fn spawning_counts_routes_and_keeps_capabilities() {
    let mut rt = CaxtonRuntime::new(CaxtonConfig::default()).unwrap();
    let (spawned, active, _, _) = rt.get_metrics();
    let id = rt.spawn_agent(config("fresh")).unwrap();
    let (spawned2, active2, _, _) = rt.get_metrics();
    assert_eq!(spawned2, spawned + 1);
    assert_eq!(active2, active + 1);
    let routes = rt.list_agents();
    assert_eq!(routes.len(), 1);
    assert_eq!(routes[0].0, id);
    assert_eq!(routes[0].1, vec!["math".to_string()]);
    let health = rt.health_check_agent(&id).unwrap();
    assert!(health.healthy);
    assert!(health.details.is_none());
    assert_eq!(health.inactive_seconds, 0);
    assert!(rt.health_check_agent(&AgentId::new(12345)).is_err());
}
