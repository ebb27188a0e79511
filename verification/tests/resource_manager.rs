use caxton::base::{CpuFuel, MaxAgentMemory, MessageSize};
use caxton::ids::AgentId;
use caxton::resource_manager::{
    AgentMemoryRequest, BoundedMemoryPool, CpuFuelAmount, CpuFuelBudget, FuelError, MemoryError,
    ResourceLimits, ResourceManager, SimpleFuelTracker, TotalMemoryAllocated,
};

#[test]
fn test_resource_limits_default() {
    let limits = ResourceLimits::default();
    assert_eq!(limits.max_memory_bytes.into_inner(), 10 * 1024 * 1024);
    assert_eq!(limits.max_cpu_fuel.into_inner(), 1_000_000);
    assert_eq!(
        limits.max_execution_time.as_duration(),
        std::time::Duration::from_secs(5)
    );
    assert_eq!(limits.max_message_size.into_inner(), 100 * 1024);
}

#[test]
fn test_resource_manager_new() {
    let limits = ResourceLimits::default();
    let manager = ResourceManager::new(limits);
    assert_eq!(manager.get_total_memory_usage().into_inner(), 0);
    assert_eq!(manager.get_total_fuel_usage().into_inner(), 0);
}

#[test]
fn test_allocate_memory_success() {
    let limits = ResourceLimits::default();
    let mut manager = ResourceManager::new(limits);
    let agent_id = AgentId::generate();

    let request = AgentMemoryRequest::try_new(1024).unwrap();
    assert!(manager.allocate_memory(agent_id, request).is_ok());
    assert_eq!(
        manager
            .get_agent_memory_usage(agent_id)
            .unwrap()
            .into_inner(),
        1024
    );
    assert_eq!(manager.get_total_memory_usage().into_inner(), 1024);
}

#[test]
fn test_allocate_memory_exceeds_limit() {
    assert!(
        AgentMemoryRequest::try_new(MaxAgentMemory::try_new(10_485_760).unwrap().as_usize() + 1)
            .is_err()
    );
}

#[test]
fn test_deallocate_memory() {
    let limits = ResourceLimits::default();
    let mut manager = ResourceManager::new(limits);
    let agent_id = AgentId::generate();

    let request = AgentMemoryRequest::try_new(2048).unwrap();
    manager.allocate_memory(agent_id, request).unwrap();
    let deallocated = manager.deallocate_memory(agent_id).unwrap();

    assert_eq!(deallocated.into_inner(), 2048);
    assert!(manager.get_agent_memory_usage(agent_id).is_none());
    assert_eq!(manager.get_total_memory_usage().into_inner(), 0);
}

#[test]
fn test_consume_fuel_success() {
    let limits = ResourceLimits::default();
    let mut manager = ResourceManager::new(limits);
    let agent_id = AgentId::generate();

    let fuel_amount = CpuFuelAmount::new(100);
    assert!(manager.consume_fuel(agent_id, fuel_amount).is_ok());
    assert_eq!(manager.get_agent_fuel_usage(agent_id).into_inner(), 100);
    assert_eq!(manager.get_total_fuel_usage().into_inner(), 100);
}

#[test]
fn test_consume_fuel_exceeds_limit() {
    let limits = ResourceLimits {
        max_cpu_fuel: CpuFuel::try_new(100).unwrap(),
        ..Default::default()
    };
    let mut manager = ResourceManager::new(limits);
    let agent_id = AgentId::generate();

    let fuel_50 = CpuFuelAmount::new(50);
    let fuel_60 = CpuFuelAmount::new(60);
    assert!(manager.consume_fuel(agent_id, fuel_50).is_ok());
    assert!(manager.consume_fuel(agent_id, fuel_60).is_err());
    assert_eq!(manager.get_agent_fuel_usage(agent_id).into_inner(), 50);
}

#[test]
fn test_check_message_size() {
    let limits = ResourceLimits {
        max_message_size: MessageSize::try_new(1024).unwrap(),
        ..Default::default()
    };
    let manager = ResourceManager::new(limits);

    let size1 = MessageSize::try_new(512).unwrap();
    let size2 = MessageSize::try_new(1024).unwrap();
    assert!(manager.check_message_size(size1).is_ok());
    assert!(manager.check_message_size(size2).is_ok());
}

#[test]
fn test_cleanup_agent() {
    let limits = ResourceLimits::default();
    let mut manager = ResourceManager::new(limits);
    let agent_id = AgentId::generate();

    let request = AgentMemoryRequest::try_new(1024).unwrap();
    let fuel_amount = CpuFuelAmount::new(100);
    manager.allocate_memory(agent_id, request).unwrap();
    manager.consume_fuel(agent_id, fuel_amount).unwrap();

    assert_eq!(manager.get_total_memory_usage().into_inner(), 1024);
    assert_eq!(manager.get_total_fuel_usage().into_inner(), 100);

    manager.cleanup_agent(agent_id);

    assert!(manager.get_agent_memory_usage(agent_id).is_none());
    assert_eq!(manager.get_agent_fuel_usage(agent_id).into_inner(), 0);
    assert_eq!(manager.get_total_memory_usage().into_inner(), 0);
    assert_eq!(manager.get_total_fuel_usage().into_inner(), 0);
}

#[test]
fn test_record_message() {
    let limits = ResourceLimits::default();
    let mut manager = ResourceManager::new(limits);
    let agent_id = AgentId::generate();

    let request = AgentMemoryRequest::try_new(1).unwrap();
    manager.allocate_memory(agent_id, request).unwrap();

    manager.record_message(agent_id);
    manager.record_message(agent_id);

    assert!(manager.get_agent_usage(agent_id).is_some());
}

#[test]
fn test_memory_request_bounds_enforced_at_compile_time() {
    assert!(AgentMemoryRequest::try_new(1).is_ok());
    assert!(AgentMemoryRequest::try_new(MaxAgentMemory::default().as_usize()).is_ok());

    assert!(AgentMemoryRequest::try_new(0).is_err());
    assert!(
        AgentMemoryRequest::try_new(MaxAgentMemory::try_new(10_485_760).unwrap().as_usize() + 1)
            .is_err()
    );
}

#[test]
fn test_agent_already_allocated_error() {
    let limits = ResourceLimits::default();
    let mut manager = ResourceManager::new(limits);
    let agent_id = AgentId::generate();

    let request = AgentMemoryRequest::try_new(1024).unwrap();

    assert!(manager.allocate_memory(agent_id, request).is_ok());

    let result = manager.allocate_memory(agent_id, request);
    assert!(matches!(
        result,
        Err(MemoryError::AgentAlreadyAllocated { .. })
    ));
}

#[test]
fn test_fuel_tracker_state_transitions() {
    let limits = ResourceLimits {
        max_cpu_fuel: CpuFuel::try_new(100).unwrap(),
        ..Default::default()
    };
    let mut manager = ResourceManager::new(limits);
    let agent_id = AgentId::generate();

    let fuel_50 = CpuFuelAmount::new(50);
    let fuel_30 = CpuFuelAmount::new(30);
    let fuel_25 = CpuFuelAmount::new(25);
    let fuel_20 = CpuFuelAmount::new(20);
    let fuel_1 = CpuFuelAmount::new(1);

    assert!(manager.consume_fuel(agent_id, fuel_50).is_ok());
    assert!(manager.consume_fuel(agent_id, fuel_30).is_ok());
    assert!(manager.consume_fuel(agent_id, fuel_25).is_err());
    assert!(manager.consume_fuel(agent_id, fuel_20).is_ok());
    assert!(manager.consume_fuel(agent_id, fuel_1).is_err());
}

#[test]
fn allocate_then_deallocate_restores_the_pool() {
    let mut pool = BoundedMemoryPool::new();
    let a = AgentId::new(1);
    let b = AgentId::new(2);
    pool.allocate(a, AgentMemoryRequest::try_new(4096).unwrap()).unwrap();
    let before = pool.total_allocated().into_inner();
    pool.allocate(b, AgentMemoryRequest::try_new(1000).unwrap()).unwrap();
    assert_eq!(pool.total_allocated().into_inner(), before + 1000);
    assert_eq!(pool.deallocate(b).unwrap().into_inner(), 1000);
    assert_eq!(pool.total_allocated().into_inner(), before);
    assert!(pool.get_allocation(&b).is_none());
    assert_eq!(pool.get_allocation(&a).unwrap().into_inner(), 4096);
    assert!(matches!(pool.deallocate(b), Err(MemoryError::AgentNotFound { .. })));
}

#[test]
fn total_limit_is_enforced() {
    let mut pool = BoundedMemoryPool::new();
    let mut id: u128 = 1;
    let request = AgentMemoryRequest::try_new(10_485_760).unwrap();
    while pool.total_allocated().into_inner() + 10_485_760 <= 1_073_741_824 {
        pool.allocate(AgentId::new(id), request).unwrap();
        id += 1;
    }
    let result = pool.allocate(AgentId::new(id), request);
    assert!(matches!(result, Err(MemoryError::TotalLimitExceeded { .. })));
}

#[test]
fn fuel_tracker_reports_what_is_left() {
    let mut tracker = SimpleFuelTracker::new(CpuFuelBudget::new(100));
    assert!(tracker.consume(CpuFuelAmount::new(70)).is_ok());
    assert_eq!(tracker.remaining().into_inner(), 30);
    assert_eq!(
        tracker.consume(CpuFuelAmount::new(31)),
        Err(FuelError::InsufficientFuel { requested: 31, available: 30 })
    );
    assert_eq!(tracker.consumed().into_inner(), 70);
    assert_eq!(CpuFuelBudget::default().into_inner(), 0);
}

#[test]
fn memory_totals_add_and_saturate() {
    let total = TotalMemoryAllocated::try_new(500).unwrap();
    assert_eq!(total.subtract(800).into_inner(), 0);
    assert_eq!(total.subtract(200).into_inner(), 300);
    assert!(TotalMemoryAllocated::try_new(1_073_741_825).is_err());
    assert_eq!(TotalMemoryAllocated::zero().into_inner(), 0);
    let full = TotalMemoryAllocated::try_new(1_073_741_824).unwrap();
    assert!(full.add(AgentMemoryRequest::try_new(1).unwrap()).is_err());
}

#[test]
fn zero_and_oversized_requests_are_explained() {
    assert_eq!(
        AgentMemoryRequest::try_new(0).unwrap_err(),
        "Memory request must be greater than 0"
    );
    let limits = ResourceLimits {
        max_message_size: MessageSize::try_new(1024).unwrap(),
        ..Default::default()
    };
    let manager = ResourceManager::new(limits);
    assert_eq!(
        manager
            .check_message_size(MessageSize::try_new(2048).unwrap())
            .unwrap_err(),
        "Message size 2048 exceeds limit of 1024 bytes"
    );
}

#[test]
fn fuel_used_is_the_sum_of_accepted_amounts() {
    let mut tracker = SimpleFuelTracker::new(CpuFuelBudget::new(100));
    let mut accepted_total = 0u64;
    for amount in [30u64, 50, 40, 20, 5] {
        if tracker.consume(CpuFuelAmount::new(amount)).is_ok() {
            accepted_total += amount;
        }
        assert_eq!(tracker.consumed().into_inner(), accepted_total);
        assert_eq!(tracker.remaining().into_inner() + tracker.consumed().into_inner(), 100);
    }
    assert_eq!(accepted_total, 100);
}
