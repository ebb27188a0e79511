use caxton::ids::AgentId;
use caxton::performance::message_routing::{
    order_by_priority, validate_message, BatchProcessorStats, FipaMessage, MessageBatchProcessor,
    MessagePriority, OptimizedMessageRouter, Performative, RouterConfig, RoutingError,
};
use tokio::sync::mpsc;

fn message(sender: u128, receiver: u128, performative: Performative, priority: MessagePriority, tag: u8) -> FipaMessage {
    FipaMessage {
        performative,
        sender: AgentId::new(sender),
        receiver: AgentId::new(receiver),
        conversation_id: 7,
        reply_with: None,
        in_reply_to: None,
        content: vec![tag],
        ontology: None,
        language: None,
        timestamp: 0,
        priority,
    }
}

fn router() -> (OptimizedMessageRouter, mpsc::UnboundedReceiver<FipaMessage>) {
    let (tx, rx) = mpsc::unbounded_channel();
    (OptimizedMessageRouter::new(RouterConfig::default(), tx), rx)
}

#[test]
fn test_message_router_creation() {
    let (router, _rx) = router();
    let stats = router.get_performance_stats(BatchProcessorStats::default());
    assert_eq!(stats.active_agents, 0);
    assert_eq!(stats.messages_routed, 0);
}

#[test]
fn test_agent_registration() {
    let (mut router, _rx) = router();
    let agent_id = AgentId::generate();
    let (tx, _agent_rx) = mpsc::unbounded_channel();
    router.register_agent(agent_id, "localhost:8080".to_string(), vec!["capability1".to_string()], tx);
    let stats = router.get_performance_stats(BatchProcessorStats::default());
    assert_eq!(stats.active_agents, 1);
}

#[test]
fn test_capability_discovery() {
    let (mut router, _rx) = router();
    let agent_id = AgentId::generate();
    let (tx, _agent_rx) = mpsc::unbounded_channel();
    router.register_agent(agent_id, "localhost:8080".to_string(), vec!["test_capability".to_string()], tx);
    let agents = router.find_agents_by_capability("test_capability");
    assert_eq!(agents.len(), 1);
    assert_eq!(agents[0], agent_id);
    assert!(router.find_agents_by_capability("other").is_empty());
}

#[test]
fn validation_refuses_self_messages_empty_content_and_bare_queries() {
    let ok = message(1, 2, Performative::Inform, MessagePriority::Normal, 1);
    assert!(validate_message(&ok).is_ok());
    let own = message(3, 3, Performative::Inform, MessagePriority::Normal, 1);
    assert!(matches!(validate_message(&own), Err(RoutingError::SelfMessage)));
    let mut empty = message(1, 2, Performative::Inform, MessagePriority::Normal, 1);
    empty.content.clear();
    assert!(matches!(validate_message(&empty), Err(RoutingError::EmptyContent)));
    let query = message(1, 2, Performative::QueryRef, MessagePriority::Normal, 1);
    assert!(matches!(validate_message(&query), Err(RoutingError::MissingReplyWith)));
    let mut answered = message(1, 2, Performative::Query, MessagePriority::Normal, 1);
    answered.reply_with = Some("q1".to_string());
    assert!(validate_message(&answered).is_ok());
    assert_eq!(RoutingError::MissingReplyWith.message(), "Query message missing reply-with field");
    assert_eq!(RoutingError::SerializationError("bad".to_string()).message(), "Serialization error: bad");
}

#[test]
fn batches_are_ordered_by_priority_then_arrival() {
    let batch = vec![
        message(1, 2, Performative::Inform, MessagePriority::Low, 1),
        message(1, 2, Performative::Inform, MessagePriority::Critical, 2),
        message(1, 2, Performative::Inform, MessagePriority::Normal, 3),
        message(1, 2, Performative::Inform, MessagePriority::Critical, 4),
        message(1, 2, Performative::Inform, MessagePriority::High, 5),
    ];
    let tags: Vec<u8> = order_by_priority(batch).iter().map(|m| m.content[0]).collect();
    assert_eq!(tags, vec![2, 4, 5, 3, 1]);
    assert_eq!(MessagePriority::default(), MessagePriority::Normal);
    assert!(MessagePriority::Critical > MessagePriority::High);
}

#[test]
fn routing_sends_valid_messages_and_counts_them() {
    let (mut router, mut rx) = router();
    assert!(router.route_message(message(1, 2, Performative::Inform, MessagePriority::High, 9)).is_ok());
    assert!(matches!(
        router.route_message(message(1, 1, Performative::Inform, MessagePriority::High, 9)),
        Err(RoutingError::SelfMessage)
    ));
    assert_eq!(rx.try_recv().unwrap().content, vec![9]);
    let stats = router.get_performance_stats(BatchProcessorStats::default());
    assert_eq!(stats.messages_routed, 1);
    assert_eq!(stats.routing_errors, 0);
    drop(rx);
    assert!(matches!(
        router.route_message(message(1, 2, Performative::Inform, MessagePriority::High, 9)),
        Err(RoutingError::ChannelClosed)
    ));
}

#[test]
fn batch_routing_reports_each_message() {
    let (mut router, _rx) = router();
    let results = router
        .route_messages_batch(vec![
            message(1, 2, Performative::Inform, MessagePriority::Low, 1),
            message(4, 4, Performative::Inform, MessagePriority::Low, 2),
            message(1, 2, Performative::Query, MessagePriority::Low, 3),
        ])
        .unwrap();
    assert!(results[0].is_ok());
    assert!(matches!(results[1], Err(RoutingError::SelfMessage)));
    assert!(matches!(results[2], Err(RoutingError::MissingReplyWith)));
    assert_eq!(router.get_performance_stats(BatchProcessorStats::default()).messages_routed, 0);
}

#[test]
fn timed_out_agents_are_cleaned_up() {
    let (mut router, _rx) = router();
    let (tx1, _r1) = mpsc::unbounded_channel();
    let (tx2, _r2) = mpsc::unbounded_channel();
    router.register_agent_at(AgentId::new(1), "a".to_string(), vec![], tx1, 1_000);
    router.register_agent_at(AgentId::new(2), "b".to_string(), vec![], tx2, 200_000);
    assert_eq!(router.cleanup_timed_out_agents(250_000), 0);
    assert_eq!(router.cleanup_timed_out_agents(301_000), 1);
    assert_eq!(router.active_agents(), 1);
    router.unregister_agent(AgentId::new(2));
    assert_eq!(router.active_agents(), 0);
}

#[test]
fn full_batches_are_processed_in_priority_order() {
    let mut processor = MessageBatchProcessor::new(3);
    assert!(processor.receive(message(1, 2, Performative::Inform, MessagePriority::Low, 1)).is_none());
    assert!(processor.receive(message(1, 2, Performative::Inform, MessagePriority::High, 2)).is_none());
    let batch = processor.receive(message(1, 2, Performative::Inform, MessagePriority::Normal, 3)).unwrap();
    let tags: Vec<u8> = batch.iter().map(|m| m.content[0]).collect();
    assert_eq!(tags, vec![2, 3, 1]);
    assert!(processor.flush().is_none());
    assert!(processor.receive(message(1, 2, Performative::Inform, MessagePriority::Low, 4)).is_none());
    assert_eq!(processor.flush().unwrap().len(), 1);
    let stats = processor.get_stats();
    assert_eq!(stats.batches_processed, 2);
    assert_eq!(stats.total_messages_processed, 4);
}

#[test]
fn average_processing_time_divides_by_batches() {
    let stats = BatchProcessorStats { batches_processed: 4, total_messages_processed: 10, total_processing_time_nanos: 1_000 };
    assert_eq!(stats.average_processing_time(), 250);
    assert_eq!(BatchProcessorStats::default().average_processing_time(), 0);
}
