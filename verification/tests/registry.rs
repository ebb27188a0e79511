use caxton::bounds::{AgentQueueSize, RouteHops};
use caxton::errors::RegistryError;
use caxton::ids::{AgentId, NodeId};
use caxton::message_router::domain_types::{AgentLocation, AgentState, LocalAgent};
use caxton::registry::AgentRegistryImpl;
use caxton::text::{AgentName, CapabilityName};
use caxton::time::MessageTimestamp;

fn capability(text: &str) -> CapabilityName {
    CapabilityName::try_new(text.to_string()).unwrap()
}

fn agent(id: u128, caps: &[&str]) -> LocalAgent {
    LocalAgent::new(
        AgentId::new(id),
        AgentName::try_new(format!("agent-{id}")).unwrap(),
        AgentState::Running,
        caps.iter().map(|c| capability(c)).collect(),
        MessageTimestamp::new(0),
        AgentQueueSize::default(),
    )
}

#[test]
fn registered_agent_is_found_locally_and_by_capability() {
    let mut registry = AgentRegistryImpl::new();
    let a = agent(1, &["math"]);
    registry
        .register_local_agent(a, vec![capability("math"), capability("search")])
        .unwrap();
    match registry.lookup(&AgentId::new(1)).unwrap() {
        AgentLocation::Local(found) => assert_eq!(found.id, AgentId::new(1)),
        other => panic!("unexpected location: {other:?}"),
    }
    let found = registry.find_agents_by_capability(&capability("search")).unwrap();
    assert_eq!(found, vec![AgentId::new(1)]);
    assert!(registry.find_agents_by_capability(&capability("none")).unwrap().is_empty());
    assert_eq!(registry.list_local_agents().unwrap().len(), 1);
    let again = registry.register_local_agent(agent(1, &[]), vec![]);
    assert!(matches!(again, Err(RegistryError::AgentAlreadyRegistered { .. })));
}

#[test]
fn deregistered_agent_leaves_lookup_and_its_capabilities() {
    let mut registry = AgentRegistryImpl::new();
    registry
        .register_local_agent(agent(1, &["math"]), vec![capability("math")])
        .unwrap();
    registry
        .register_local_agent(agent(2, &["math"]), vec![capability("math")])
        .unwrap();
    registry.deregister_local_agent(AgentId::new(1)).unwrap();
    assert!(matches!(
        registry.lookup(&AgentId::new(1)),
        Err(RegistryError::AgentNotFound { .. })
    ));
    assert_eq!(
        registry.find_agents_by_capability(&capability("math")).unwrap(),
        vec![AgentId::new(2)]
    );
    assert!(matches!(
        registry.deregister_local_agent(AgentId::new(1)),
        Err(RegistryError::AgentNotFound { .. })
    ));
}

#[test]
fn remote_routes_register_their_node() {
    let mut registry = AgentRegistryImpl::new();
    let node = NodeId::new(5);
    registry
        .update_remote_route_at(AgentId::new(9), node, RouteHops::default(), 1000)
        .unwrap();
    match registry.lookup(&AgentId::new(9)).unwrap() {
        AgentLocation::Remote(n) => assert_eq!(n, node),
        other => panic!("unexpected location: {other:?}"),
    }
    assert!(registry
        .update_agent_health(AgentId::new(9), true, MessageTimestamp::new(5))
        .is_err());
}

#[test]
fn deregistration_cleans_every_capability_given_at_registration() {
    let mut registry = AgentRegistryImpl::new();
    registry
        .register_local_agent(agent(1, &["math"]), vec![capability("math"), capability("search")])
        .unwrap();
    registry.deregister_local_agent(AgentId::new(1)).unwrap();
    assert!(registry.find_agents_by_capability(&capability("math")).unwrap().is_empty());
    assert!(registry.find_agents_by_capability(&capability("search")).unwrap().is_empty());
    assert!(registry.list_local_agents().unwrap().is_empty());
}
