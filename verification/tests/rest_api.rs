use caxton::ids::AgentId;
use caxton::rest_api::{
    AgentDeploymentRequest, AgentStore, ApiResponse, DeploymentResponse, HealthCheckResponse,
    ResourceLimits,
};

#[test]
fn health_check_response_can_be_created() {
    let response = HealthCheckResponse {
        status: "healthy".to_string(),
    };
    assert_eq!(response.status, "healthy");
}

fn limits() -> ResourceLimits {
    ResourceLimits {
        max_memory_bytes: 1024,
        max_cpu_millis: 100,
        max_execution_time_ms: 100,
    }
}

#[test]
fn resource_limits_are_checked_in_order() {
    assert!(limits().validate().is_ok());
    let zero = ResourceLimits { max_memory_bytes: 0, ..limits() };
    assert_eq!(zero.validate().unwrap_err(), "max_memory_bytes must be greater than 0");
    let big = ResourceLimits { max_memory_bytes: 1_073_741_825, ..limits() };
    assert_eq!(
        big.validate().unwrap_err(),
        "max_memory_bytes exceeds maximum limit of 1073741824 bytes"
    );
    let cpu = ResourceLimits { max_cpu_millis: 1_000_001, ..limits() };
    assert_eq!(cpu.validate().unwrap_err(), "max_cpu_millis exceeds maximum limit of 1000000 ms");
}

#[test]
fn deployment_requests_are_parsed() {
    let ok = AgentDeploymentRequest {
        name: "  worker  ".to_string(),
        wasm_module: "AGFzbQ==".to_string(),
        resource_limits: limits(),
    }
    .parse()
    .unwrap();
    assert_eq!(ok.name.as_str(), "worker");
    let blank = AgentDeploymentRequest {
        name: "worker".to_string(),
        wasm_module: "   ".to_string(),
        resource_limits: limits(),
    }
    .parse();
    assert_eq!(blank.unwrap_err(), "WASM module cannot be empty");
    let unnamed = AgentDeploymentRequest {
        name: "   ".to_string(),
        wasm_module: "x".to_string(),
        resource_limits: limits(),
    }
    .parse();
    assert!(unnamed.unwrap_err().starts_with("Invalid agent name"));
}

#[test]
fn store_answers_deploy_list_and_get() {
    let mut store = AgentStore::new();
    let id = AgentId::new(0xabc);
    let response = store.deploy_agent(
        AgentDeploymentRequest {
            name: "worker".to_string(),
            wasm_module: "AGFzbQ==".to_string(),
            resource_limits: limits(),
        },
        id,
    );
    assert_eq!(response.status(), 201);
    let listed = store.list_agents();
    assert_eq!(listed.len(), 1);
    assert_eq!(listed[0].name, "worker");
    let text = DeploymentResponse::new(id).id;
    assert_eq!(text, "00000000-0000-0000-0000-000000000abc");
    match store.get_agent_by_id(&text) {
        ApiResponse::Found(agent) => assert_eq!(agent.id, text),
        other => panic!("unexpected answer: {other:?}"),
    }
    assert_eq!(store.get_agent_by_id("not-a-uuid").status(), 400);
    assert_eq!(
        store
            .get_agent_by_id("00000000-0000-0000-0000-000000000def")
            .status(),
        404
    );
    let refused = store.deploy_agent(
        AgentDeploymentRequest {
            name: "x".to_string(),
            wasm_module: "".to_string(),
            resource_limits: limits(),
        },
        AgentId::new(1),
    );
    assert_eq!(refused.status(), 400);
    assert_eq!(store.list_agents().len(), 1);
    assert_eq!(HealthCheckResponse::healthy().status, "healthy");
}
