use caxton::ids::AgentId;
use caxton::sandbox::{ExecutionResult, Sandbox};
use caxton::resource_manager::ResourceLimits;
use caxton::wasm_runtime::{AgentState, ResourceUsage, WasmRuntime, WasmRuntimeConfig};

#[test]
fn test_wasm_runtime_config_default() {
    let config = WasmRuntimeConfig::default();
    assert_eq!(config.max_agents, 1000);
    assert!(!config.enable_debug);
}

#[test]
fn test_wasm_runtime_new() {
    let config = WasmRuntimeConfig::default();
    let runtime = WasmRuntime::new(config);
    assert!(runtime.is_ok());
    let runtime = runtime.unwrap();
    assert!(runtime.is_initialized());
    assert_eq!(runtime.active_agent_count(), 0);
}

#[test]
fn test_agent_state_transitions() {
    let state = AgentState::Unloaded;
    assert_eq!(state, AgentState::Unloaded);

    let state = AgentState::Loaded;
    assert_eq!(state, AgentState::Loaded);

    let state = AgentState::Running;
    assert_eq!(state, AgentState::Running);
}

#[test]
fn test_resource_usage_update_memory() {
    let mut usage = ResourceUsage::default();
    assert_eq!(usage.memory_bytes, 0);

    usage.update_memory(1024);
    assert_eq!(usage.memory_bytes, 1024);

    usage.update_memory(2048);
    assert_eq!(usage.memory_bytes, 2048);
}

#[test]
fn test_resource_usage_update_cpu() {
    let mut usage = ResourceUsage::default();
    assert_eq!(usage.cpu_fuel_consumed, 0);

    usage.update_cpu(100);
    assert_eq!(usage.cpu_fuel_consumed, 100);

    usage.update_cpu(50);
    assert_eq!(usage.cpu_fuel_consumed, 150);
}

#[test]
fn test_resource_usage_increment_message_count() {
    let mut usage = ResourceUsage::default();
    assert_eq!(usage.message_count, 0);

    usage.increment_message_count();
    assert_eq!(usage.message_count, 1);

    usage.increment_message_count();
    assert_eq!(usage.message_count, 2);
}

#[test]
fn test_execution_result() {
    let result = ExecutionResult {
        fuel_consumed: 100,
        completed_successfully: true,
        output: Some(vec![1, 2, 3]),
    };

    assert_eq!(result.fuel_consumed, 100);
    assert!(result.completed_successfully);
    assert_eq!(result.output, Some(vec![1, 2, 3]));
}

#[test]
fn test_wasm_runtime_max_agents() {
    let config = WasmRuntimeConfig {
        max_agents: 2,
        ..Default::default()
    };
    let runtime = WasmRuntime::new(config).unwrap();
    assert_eq!(runtime.max_agents(), 2);
}

#[test]
fn test_agent_state_equality() {
    assert_eq!(AgentState::Unloaded, AgentState::Unloaded);
    assert_ne!(AgentState::Unloaded, AgentState::Loaded);
    assert_ne!(AgentState::Running, AgentState::Stopped);
}

#[test]
fn agent_lifecycle_runs_through_its_states() {
    let mut runtime = WasmRuntime::new(WasmRuntimeConfig::default()).unwrap();
    let id = AgentId::new(0x1234);
    assert_eq!(runtime.deploy_agent("worker", id, Ok(Some(131_072))).unwrap(), id);
    assert_eq!(runtime.active_agent_count(), 1);
    assert_eq!(runtime.get_agent_memory_usage(id).unwrap(), 131_072);
    assert!(runtime.execute_agent(id, "run", &[]).is_err());
    runtime.start_agent(id).unwrap();
    assert!(runtime.start_agent(id).is_err());
    assert_eq!(runtime.execute_agent(id, "run", &[]).unwrap(), Vec::<u8>::new());
    assert_eq!(runtime.get_agent_cpu_usage(id).unwrap(), 100);
    runtime.execute_agent(id, "long_computation", &[]).unwrap();
    assert_eq!(runtime.get_agent_cpu_usage(id).unwrap(), 600);
    assert!(runtime.execute_agent(id, "infinite_loop", &[]).is_err());
    runtime.stop_agent(id).unwrap();
    assert!(runtime.execute_agent(id, "run", &[]).is_err());
    runtime.remove_agent(id).unwrap();
    assert_eq!(runtime.active_agent_count(), 0);
    let missing = runtime.remove_agent(id).unwrap_err();
    assert_eq!(missing, "Agent not found: 00000000-0000-0000-0000-000000001234");
}

#[test]
fn deployment_stops_at_the_agent_limit() {
    let config = WasmRuntimeConfig {
        max_agents: 1,
        ..Default::default()
    };
    let mut runtime = WasmRuntime::new(config).unwrap();
    runtime.deploy_agent("a", AgentId::new(1), Ok(None)).unwrap();
    assert_eq!(runtime.get_agent_memory_usage(AgentId::new(1)).unwrap(), 65_536);
    let refused = runtime.deploy_agent("b", AgentId::new(2), Ok(None)).unwrap_err();
    assert_eq!(refused, "Maximum number of agents (1) reached");
    let mut roomy = WasmRuntime::new(WasmRuntimeConfig::default()).unwrap();
    let bad = roomy
        .deploy_agent("c", AgentId::new(3), Err("invalid WASM module: failed to compile".to_string()))
        .unwrap_err();
    assert_eq!(bad, "invalid WASM module: failed to compile");
}

#[test]
fn fuel_tracked_execution_starts_a_loaded_agent() {
    let mut runtime = WasmRuntime::new(WasmRuntimeConfig::default()).unwrap();
    let id = AgentId::new(7);
    runtime.deploy_agent("a", id, Ok(None)).unwrap();
    let result = runtime
        .execute_agent_with_fuel_tracking(id, "long_computation", &[])
        .unwrap();
    assert_eq!(result.fuel_consumed, 500);
    assert!(result.completed_successfully);
    let functions = runtime.get_exposed_host_functions(id).unwrap();
    assert_eq!(functions, vec!["log".to_string(), "get_time".to_string(), "send_message".to_string()]);
}

#[test]
fn sandbox_limits_growth_and_needs_an_instance() {
    let limits = ResourceLimits::default();
    let mut sandbox = Sandbox::new(AgentId::new(9), limits);
    assert_eq!(sandbox.get_memory_usage(), 0);
    assert_eq!(sandbox.execute("run", &[]).unwrap_err(), "Sandbox not initialized");
    assert!(sandbox.initialize(false, None).is_err());
    sandbox.initialize(true, Some(4096)).unwrap();
    assert_eq!(sandbox.get_memory_usage(), 4096);
    assert!(sandbox.memory_growing(0, 10 * 1024 * 1024, None));
    assert!(!sandbox.memory_growing(0, 10 * 1024 * 1024 + 1, None));
    assert!(sandbox.table_growing(0, 10_000, None));
    assert!(!sandbox.table_growing(0, 10_001, None));
    assert!(sandbox.shutdown().is_ok());
}

#[test]
fn test_sandbox_creation() {
    let sandbox = Sandbox::new(AgentId::generate(), ResourceLimits::default());
    assert_eq!(sandbox.get_exposed_functions().len(), 3);
}

#[test]
fn test_sandbox_memory_usage() {
    let sandbox = Sandbox::new(AgentId::generate(), ResourceLimits::default());
    assert_eq!(sandbox.get_memory_usage(), 0);
}

#[test]
fn test_sandbox_exposed_functions() {
    let sandbox = Sandbox::new(AgentId::generate(), ResourceLimits::default());
    let functions = sandbox.get_exposed_functions();
    assert!(functions.contains(&"log".to_string()));
    assert!(functions.contains(&"get_time".to_string()));
    assert!(functions.contains(&"send_message".to_string()));
}

#[test]
fn test_sandbox_shutdown() {
    let mut sandbox = Sandbox::new(AgentId::generate(), ResourceLimits::default());
    let result = sandbox.shutdown();
    assert!(result.is_ok());
}
