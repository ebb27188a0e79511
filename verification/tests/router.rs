use caxton::bounds::AgentQueueSize;
use caxton::config::RouterConfig;
use caxton::conversation::{
    calculate_average_duration, calculate_conversation_duration_ms, is_conversation_expired,
    is_conversation_expired_at,
    safe_u64_to_u32, ConversationManagerImpl,
};
use caxton::delivery::{
    delivery_health, local_delivery_result, DeliveryEngineImpl, FailureHandlerImpl, HealthStatus,
    SendOutcome,
};
use caxton::errors::{DeliveryError, RegistryError, RouterError};
use caxton::ids::{AgentId, ConversationId, MessageId, NodeId};
use caxton::message_router::domain_types::{
    AgentState, DeliveryOptions, FipaMessage, FipaMessageParams, LocalAgent, MessageContent,
    Performative, RouteInfo,
};
use caxton::bounds::RouteHops;
use caxton::router::{
    calculate_cutoff_timestamp, generate_not_understood_error_content, map_registry_error_for_agent_ops, map_registry_error_to_router_error,
    safe_message_count_from_u64,
    sum_messages_in_window, ConversationThreadingTracker, MessageRouterImpl, RouteStorage,
    ThroughputTracker,
};
use caxton::text::{AgentName, ValidationField, ValidationReason};
use caxton::time::MessageTimestamp;

fn message(
    from: u128,
    to: u128,
    conversation: Option<u128>,
    reply_with: Option<u128>,
    in_reply_to: Option<u128>,
) -> FipaMessage {
    FipaMessage::try_new_validated(FipaMessageParams {
        performative: Performative::Inform,
        sender: AgentId::new(from),
        receiver: AgentId::new(to),
        content: MessageContent::try_new(b"hello".to_vec()).unwrap(),
        conversation_id: conversation.map(ConversationId::new),
        reply_with: reply_with.map(MessageId::new),
        in_reply_to: in_reply_to.map(MessageId::new),
        message_id: MessageId::new(1000 + from),
        created_at: MessageTimestamp::new(0),
        trace_context: None,
        delivery_options: DeliveryOptions::default(),
    })
    .unwrap()
}

fn local(id: u128, state: AgentState) -> LocalAgent {
    LocalAgent::new(
        AgentId::new(id),
        AgentName::try_new("receiver".to_string()).unwrap(),
        state,
        vec![],
        MessageTimestamp::new(0),
        AgentQueueSize::default(),
    )
}

#[test]
fn router_admits_only_when_running() {
    let mut router = MessageRouterImpl::new(RouterConfig::testing()).unwrap();
    let m = message(1, 2, None, None, None);
    assert!(router.admit_message(&m).is_err());
    router.start_at(10).unwrap();
    assert!(router.start_at(11).is_err());
    assert_eq!(router.admit_message(&m).unwrap(), m.message_id);
    router.shutdown().unwrap();
    assert!(router.admit_message(&m).is_err());
    assert!(RouteStorage::new().is_ok());
}

#[test]
fn replies_need_a_recorded_target_in_the_same_conversation() {
    let mut router = MessageRouterImpl::new(RouterConfig::testing()).unwrap();
    router.start_at(0).unwrap();
    let first = message(1, 2, Some(7), Some(70), None);
    router.admit_message(&first).unwrap();
    let reply = message(2, 1, Some(7), None, Some(70));
    assert!(router.admit_message(&reply).is_ok());
    let other_conversation = message(2, 1, Some(8), None, Some(70));
    assert!(router.admit_message(&other_conversation).is_err());
    let no_conversation = message(2, 1, None, None, Some(70));
    assert!(router.admit_message(&no_conversation).is_err());
}

#[test]
fn threading_tracker_isolates_conversations() {
    let mut tracker = ConversationThreadingTracker::new();
    tracker.record_reply_with(&ConversationId::new(1), &MessageId::new(5));
    assert!(tracker
        .validate_reply_reference(&ConversationId::new(1), &MessageId::new(5))
        .is_ok());
    assert!(tracker
        .validate_reply_reference(&ConversationId::new(2), &MessageId::new(5))
        .is_err());
}

#[test]
fn routing_follows_the_registry() {
    let mut router = MessageRouterImpl::new(RouterConfig::testing()).unwrap();
    let unknown = router.process_routing_task(message(1, 2, None, None, None));
    assert!(matches!(unknown, Err(RouterError::AgentNotFound { .. })));
    router.register_agent(local(2, AgentState::Running), vec![]).unwrap();
    let delivered = router.process_next_task(message(1, 2, Some(3), None, None)).unwrap();
    assert_eq!(delivered, MessageId::new(1001));
    router.register_agent(local(4, AgentState::Stopped), vec![]).unwrap();
    match router.process_next_task(message(1, 4, None, None, None)) {
        Err(RouterError::NetworkError { cause }) => assert_eq!(cause, "Agent is not available"),
        other => panic!("unexpected result: {other:?}"),
    }
    let stats = router.get_stats_core();
    assert_eq!(stats.total_messages_processed.into_inner(), 0);
    assert_eq!(stats.total_errors.into_inner(), 0);
    assert_eq!(stats.agent_queue_depths.len(), 2);
    assert_eq!(stats.active_conversations, 1);
    assert!(router.deregister_agent(AgentId::new(2)).is_ok());
    assert!(router.deregister_agent(AgentId::new(2)).is_err());
}

#[test]
fn statistics_helpers() {
    assert_eq!(calculate_cutoff_timestamp(100, 60), 40);
    assert_eq!(calculate_cutoff_timestamp(10, 60), 0);
    assert_eq!(safe_message_count_from_u64(5_000_000).into_inner(), 1_000_000);
    assert_eq!(safe_message_count_from_u64(12).into_inner(), 12);
    assert_eq!(sum_messages_in_window(&vec![(10, 3), (50, 4), (60, 5)], 50), 9);
    let mut tracker = ThroughputTracker::new(60);
    tracker.record_message_at(100);
    tracker.record_message_at(100);
    tracker.record_message_at(130);
    assert_eq!(tracker.messages_in_window_at(130), 3);
    tracker.record_message_at(200);
    assert_eq!(tracker.messages_in_window_at(200), 1);
    let e = map_registry_error_to_router_error(&RegistryError::AgentNotFound { agent_id: AgentId::new(3) });
    assert!(matches!(e, RouterError::AgentNotFound { .. }));
}

#[test]
fn delivery_results_follow_the_queue() {
    let id = MessageId::new(9);
    assert!(local_delivery_result(id, true, None).is_ok());
    assert!(local_delivery_result(id, true, Some(SendOutcome::Sent)).is_ok());
    match local_delivery_result(id, true, Some(SendOutcome::Full)) {
        Err(DeliveryError::LocalDeliveryFailed { cause }) => assert_eq!(cause, "Agent queue is full"),
        other => panic!("unexpected result: {other:?}"),
    }
    assert!(local_delivery_result(id, false, None).is_err());
    assert!(matches!(delivery_health(0, 0), HealthStatus::Degraded { .. }));
    assert!(matches!(delivery_health(1, 0), HealthStatus::Healthy));
    let engine = DeliveryEngineImpl::new();
    assert!(matches!(engine.health_check().unwrap(), HealthStatus::Degraded { .. }));
    let sent = engine.deliver_remote(message(1, 2, None, None, None), NodeId::new(1));
    assert!(sent.is_ok());
    let batch = engine.deliver_batch(vec![message(1, 2, None, None, None), message(3, 2, None, None, None)]);
    assert_eq!(batch.len(), 2);
    assert_eq!(*batch[1].as_ref().unwrap(), MessageId::new(1003));
    let handler = FailureHandlerImpl::new();
    assert_eq!(handler.get_dead_letter_stats().unwrap().queue_size_bytes, 0);
}

#[test]
fn conversations_are_created_updated_and_expired() {
    let config = RouterConfig::testing();
    let mut manager = ConversationManagerImpl::new(&config);
    let cid = ConversationId::new(42);
    let c = manager
        .get_or_create_conversation_at(cid, vec![AgentId::new(1), AgentId::new(2)], 1000)
        .unwrap();
    assert_eq!(c.message_count.into_inner(), 0);
    let again = manager
        .get_or_create_conversation_at(cid, vec![AgentId::new(9)], 5000)
        .unwrap();
    assert_eq!(again.created_at.millis, 1000);
    manager.update_conversation_at(cid, &message(1, 2, Some(42), None, None), 2000).unwrap();
    assert_eq!(manager.get(cid).unwrap().message_count.into_inner(), 1);
    assert_eq!(manager.get_agent_conversations(AgentId::new(2)).len(), 1);
    assert!(manager.get_agent_conversations(AgentId::new(7)).is_empty());
    let stats = manager.get_conversation_stats();
    assert_eq!(stats.total_active, 1);
    assert_eq!(stats.average_duration_ms, 1000);
    assert_eq!(stats.total_message_count, 1);
    assert_eq!(stats.participants_distribution, vec![(2, 1)]);
    assert_eq!(manager.cleanup_expired_conversations_at(2000), 0);
    assert_eq!(manager.cleanup_expired_conversations_at(u64::MAX), 1);
    assert_eq!(manager.len(), 0);
    assert_eq!(calculate_conversation_duration_ms(10, 5), 0);
    assert_eq!(calculate_average_duration(10, 0), 0);
    assert_eq!(safe_u64_to_u32(u64::MAX), u32::MAX);
    assert!(is_conversation_expired_at(MessageTimestamp::new(0), 10, 11));
    assert!(!is_conversation_expired_at(MessageTimestamp::new(0), 10, 10));
}

#[test]
fn agent_operations_report_registry_errors() {
    let mut router = MessageRouterImpl::new(RouterConfig::testing()).unwrap();
    router.register_agent(local(0x2a, AgentState::Running), vec![]).unwrap();
    match router.register_agent(local(0x2a, AgentState::Running), vec![]) {
        Err(RouterError::ConfigurationError { message }) => {
            assert_eq!(message, "Agent already registered: 00000000-0000-0000-0000-00000000002a")
        }
        other => panic!("unexpected result: {other:?}"),
    }
    assert!(router.update_agent_state(AgentId::new(0x2a), AgentState::Stopped).is_ok());
    assert!(matches!(
        router.update_agent_state(AgentId::new(0x2b), AgentState::Stopped),
        Err(RouterError::AgentNotFound { .. })
    ));
    match map_registry_error_for_agent_ops(&RegistryError::HealthCheckFailed { agent_id: AgentId::new(1) }, "Agent lookup") {
        RouterError::ConfigurationError { message } => assert_eq!(message, "Agent lookup failed: HealthCheckFailed"),
        other => panic!("unexpected result: {other:?}"),
    }
}

fn message_with(performative: Performative, content: &[u8], conversation: u128, reply_with: u128) -> FipaMessage {
    FipaMessage::try_new_validated(FipaMessageParams {
        performative,
        sender: AgentId::new(1),
        receiver: AgentId::new(2),
        content: MessageContent::try_new(content.to_vec()).unwrap(),
        conversation_id: Some(ConversationId::new(conversation)),
        reply_with: Some(MessageId::new(reply_with)),
        in_reply_to: None,
        message_id: MessageId::new(77),
        created_at: MessageTimestamp::new(0),
        trace_context: None,
        delivery_options: DeliveryOptions::default(),
    })
    .unwrap()
}

#[test]
fn test_should_generate_not_understood_response_when_message_processing_fails() {
    let router = MessageRouterImpl::new(RouterConfig::testing()).unwrap();
    let problematic_message = message_with(
        Performative::Request,
        b"UNSUPPORTED_OPERATION: complex_unsupported_request",
        5,
        6,
    );
    match router.generate_not_understood_response(&problematic_message) {
        Ok(not_understood_message) => {
            assert_eq!(not_understood_message.performative, Performative::NotUnderstood);
            assert_eq!(*not_understood_message.sender(), AgentId::new(2));
            assert_eq!(*not_understood_message.receiver(), AgentId::new(1));
            assert!(!not_understood_message.content.is_empty());
            assert!(not_understood_message.in_reply_to.is_some());
        }
        other => panic!("Expected NOT_UNDERSTOOD response generation, got: {other:?}"),
    }
}

#[test]
fn test_should_preserve_conversation_context_in_not_understood_response() {
    let router = MessageRouterImpl::new(RouterConfig::testing()).unwrap();
    let original_message = message_with(
        Performative::QueryRef,
        b"Invalid query syntax - should trigger NOT_UNDERSTOOD",
        11,
        12,
    );
    match router.generate_not_understood_response(&original_message) {
        Ok(not_understood_response) => {
            assert_eq!(not_understood_response.conversation_id, Some(ConversationId::new(11)));
            assert_eq!(not_understood_response.in_reply_to, Some(MessageId::new(12)));
            assert!(not_understood_response.reply_with.is_some());
            assert_eq!(not_understood_response.performative, Performative::NotUnderstood);
            assert_eq!(*not_understood_response.sender(), AgentId::new(2));
            assert_eq!(*not_understood_response.receiver(), AgentId::new(1));
        }
        other => panic!("Expected NOT_UNDERSTOOD response with conversation context, got: {other:?}"),
    }
}

#[test]
fn not_understood_text_is_cut_after_a_hundred_bytes() {
    let short = MessageContent::try_new(b"bad input".to_vec()).unwrap();
    assert_eq!(
        generate_not_understood_error_content(&short),
        "Message content could not be understood or processed: bad input"
    );
    let long = MessageContent::try_new(vec![b'a'; 150]).unwrap();
    let expected = format!(
        "Message content could not be understood or processed: {}... (truncated from 150 bytes)",
        "a".repeat(100)
    );
    assert_eq!(generate_not_understood_error_content(&long), expected);
}

#[test]
fn not_understood_response_carries_the_error_text() {
    let router = MessageRouterImpl::new(RouterConfig::testing()).unwrap();
    let original = message_with(Performative::Inform, b"\xff\xfe broken", 3, 4);
    let response = router.generate_not_understood_response(&original).unwrap();
    let text = String::from_utf8(response.content.as_bytes().to_vec()).unwrap();
    assert_eq!(
        text,
        "Message content could not be understood or processed: \u{FFFD}\u{FFFD} broken"
    );
}

#[test]
fn not_understood_text_is_cut_at_the_last_character_boundary() {
    let router = MessageRouterImpl::new(RouterConfig::testing()).unwrap();
    let mut content = vec![b'a'; 99];
    content.extend_from_slice("é and more text".as_bytes());
    let original = message_with(Performative::Inform, &content, 3, 4);
    let response = router.generate_not_understood_response(&original).unwrap();
    let text = String::from_utf8(response.content.as_bytes().to_vec()).unwrap();
    let expected = format!(
        "Message content could not be understood or processed: {}... (truncated from {} bytes)",
        "a".repeat(99),
        content.len()
    );
    assert_eq!(text, expected);
}

#[test]
fn router_health_follows_its_state() {
    let mut router = MessageRouterImpl::new(RouterConfig::testing()).unwrap();
    match router.health_check() {
        Err(RouterError::ConfigurationError { message }) => assert_eq!(message, "Router is not running"),
        other => panic!("expected a refusal, got {other:?}"),
    }
    router.start_at(5).unwrap();
    match router.health_check().unwrap() {
        HealthStatus::Degraded { reason } => assert_eq!(reason, "No active agents or connections"),
        other => panic!("expected degraded health, got {other:?}"),
    }
    let (sender, _receiver) = tokio::sync::mpsc::channel(4);
    router.register_agent_queue(AgentId::new(9), sender);
    assert!(matches!(router.health_check().unwrap(), HealthStatus::Healthy));
    router.shutdown().unwrap();
    assert!(router.health_check().is_err());
    router.start_at(6).unwrap();
    match router.health_check().unwrap() {
        HealthStatus::Unhealthy { reason } => assert_eq!(reason, "Router is shutting down"),
        other => panic!("expected unhealthy, got {other:?}"),
    }
}

fn params(
    performative: Performative,
    sender: u128,
    receiver: u128,
    content: &[u8],
    conversation: Option<u128>,
    reply_with: Option<u128>,
    in_reply_to: Option<u128>,
) -> FipaMessageParams {
    FipaMessageParams {
        performative,
        sender: AgentId::new(sender),
        receiver: AgentId::new(receiver),
        content: MessageContent::try_new(content.to_vec()).unwrap(),
        conversation_id: conversation.map(ConversationId::new),
        reply_with: reply_with.map(MessageId::new),
        in_reply_to: in_reply_to.map(MessageId::new),
        message_id: MessageId::new(500 + sender),
        created_at: MessageTimestamp::new(0),
        trace_context: None,
        delivery_options: DeliveryOptions::default(),
    }
}

fn expect_validation_error(result: Result<MessageId, RouterError>, expected_field: &str, expected_reason: &str) {
    match result {
        Err(RouterError::ValidationError { field, reason }) => {
            assert_eq!(field.as_str(), expected_field);
            assert!(reason.as_str().contains(expected_reason));
        }
        other => panic!("Expected ValidationError, got: {other:?}"),
    }
}

#[test]
fn test_should_reject_message_when_sender_equals_receiver() {
    let result = FipaMessage::try_new_validated(params(Performative::Request, 3, 3, b"test content", None, None, None));
    expect_validation_error(result.map(|m| m.message_id), "sender/receiver", "sender cannot equal receiver");
}

#[test]
fn test_should_reject_message_when_in_reply_to_has_no_corresponding_reply_with() {
    let mut router = MessageRouterImpl::new(RouterConfig::testing()).unwrap();
    router.start_at(0).unwrap();
    let invalid_message = FipaMessage::try_new_validated(params(
        Performative::Inform,
        1,
        2,
        b"This message claims to reply to something that doesn't exist",
        Some(40),
        None,
        Some(41),
    ))
    .unwrap();
    expect_validation_error(router.admit_message(&invalid_message), "in_reply_to", "no corresponding reply_with found");
}

#[test]
fn test_should_accept_message_when_in_reply_to_has_corresponding_reply_with() {
    let mut router = MessageRouterImpl::new(RouterConfig::testing()).unwrap();
    router.start_at(0).unwrap();
    let original_message = FipaMessage::try_new_validated(params(
        Performative::Request,
        1,
        2,
        b"Original request expecting a reply",
        Some(40),
        Some(42),
        None,
    ))
    .unwrap();
    assert!(router.admit_message(&original_message).is_ok(), "Original message should be accepted");
    let reply_message = FipaMessage::try_new_validated(params(
        Performative::Inform,
        2,
        1,
        b"Reply to the original request",
        Some(40),
        None,
        Some(42),
    ))
    .unwrap();
    match router.admit_message(&reply_message) {
        Ok(_message_id) => {}
        Err(error) => panic!("Expected successful routing for valid threading, got: {error:?}"),
    }
}

#[test]
fn test_should_isolate_conversation_threading_across_different_conversations() {
    let mut router = MessageRouterImpl::new(RouterConfig::testing()).unwrap();
    router.start_at(0).unwrap();
    let request_conv1 = FipaMessage::try_new_validated(params(
        Performative::Request,
        1,
        2,
        b"Request in conversation 1",
        Some(51),
        Some(60),
        None,
    ))
    .unwrap();
    router.admit_message(&request_conv1).unwrap();
    let cross_conversation_reply = FipaMessage::try_new_validated(params(
        Performative::Inform,
        3,
        1,
        b"Cross-conversation reply attempt",
        Some(52),
        None,
        Some(60),
    ))
    .unwrap();
    let result = router.admit_message(&cross_conversation_reply);
    assert!(result.is_err(), "Should reject cross-conversation threading attempt");
    expect_validation_error(result, "in_reply_to", "no corresponding reply_with found");
}

#[test]
fn test_should_validate_json_content_format_when_content_language_is_json() {
    let result = FipaMessage::try_new_validated(params(
        Performative::Request,
        1,
        2,
        b"{incomplete_json: missing_quotes, no_closing_brace",
        Some(9),
        Some(10),
        None,
    ));
    expect_validation_error(result.map(|m| m.message_id), "content", "invalid JSON format");
}

#[test]
fn test_fipa_message_should_have_smart_constructor_that_centralizes_all_validation() {
    match FipaMessage::try_new_validated(params(
        Performative::Request,
        1,
        2,
        b"valid request content",
        Some(3),
        Some(4),
        Some(5),
    )) {
        Ok(message) => {
            assert_eq!(message.performative, Performative::Request);
            assert_eq!(*message.sender(), AgentId::new(1));
            assert_eq!(*message.receiver(), AgentId::new(2));
        }
        Err(e) => panic!("Expected valid message to be created, but got error: {e:?}"),
    }
    match FipaMessage::try_new_validated(params(Performative::Request, 6, 6, b"test content", None, None, None)) {
        Err(RouterError::ValidationError { field, reason }) => {
            assert_eq!(field.as_str(), "sender/receiver");
            assert_eq!(reason.as_str(), "sender cannot equal receiver");
        }
        other => panic!("Expected ValidationError for same sender/receiver, got: {other:?}"),
    }
    let result = FipaMessage::try_new_validated(params(Performative::Heartbeat, 1, 2, b"heartbeat content", None, None, None));
    expect_validation_error(result.map(|m| m.message_id), "performative", "not a standard FIPA performative");
    let result = FipaMessage::try_new_validated(params(Performative::Request, 1, 2, b"{ invalid json", None, None, None));
    expect_validation_error(result.map(|m| m.message_id), "content", "invalid JSON format");
    assert!(MessageContent::try_new(Vec::new()).is_err());
}

#[test]
fn test_validation_error_types_should_use_domain_types_instead_of_primitives() {
    let valid_field = ValidationField::try_new("content".to_string());
    assert!(valid_field.is_ok(), "Valid field should be created successfully");
    let valid_reason = ValidationReason::try_new("content cannot be empty".to_string());
    assert!(valid_reason.is_ok(), "Valid reason should be created successfully");
    let valid_error = RouterError::ValidationError { field: valid_field.unwrap(), reason: valid_reason.unwrap() };
    assert!(ValidationField::try_new(String::new()).is_err(), "Empty field name should be rejected");
    assert!(ValidationField::try_new("a".repeat(51)).is_err(), "Field name >50 chars should be rejected");
    assert!(ValidationReason::try_new(String::new()).is_err(), "Empty reason should be rejected");
    assert!(ValidationReason::try_new("a".repeat(201)).is_err(), "Reason >200 chars should be rejected");
    if let RouterError::ValidationError { field, reason } = valid_error {
        assert_eq!(field.as_str(), "content");
        assert_eq!(reason.as_str(), "content cannot be empty");
    } else {
        panic!("Expected ValidationError variant");
    }
}

#[test]
fn clock_checks_follow_their_limits() {
    let route = RouteInfo::new(NodeId::new(1), RouteHops::try_new(1).unwrap(), MessageTimestamp::new(0));
    assert!(!route.is_fresh(0));
    assert!(route.is_fresh(u64::MAX));
    assert!(!is_conversation_expired(MessageTimestamp::new(0), u64::MAX));
    assert!(is_conversation_expired(MessageTimestamp::new(0), 0));
    let mut manager = ConversationManagerImpl::new(&RouterConfig::testing());
    assert_eq!(manager.cleanup_expired_conversations(), 0);
}

#[test]
fn conversation_figures_in_router_statistics() {
    let router = MessageRouterImpl::new(RouterConfig::testing()).unwrap();
    let stats = router.get_stats_core();
    assert_eq!(stats.active_conversations, 0);
    assert_eq!(stats.total_conversations.into_inner(), 0);
}

#[test]
fn repeated_participants_count_once() {
    let config = RouterConfig::testing();
    let mut manager = ConversationManagerImpl::new(&config);
    let max = config.max_conversation_participants.into_inner() as usize;
    let mut many = vec![AgentId::new(1); max + 3];
    many.push(AgentId::new(2));
    let c = manager.get_or_create_conversation_at(ConversationId::new(5), many, 0).unwrap();
    assert_eq!(c.participants, vec![AgentId::new(1), AgentId::new(2)]);
}

#[test]
fn processing_a_task_routes_or_reports_the_receiver() {
    let mut router = MessageRouterImpl::new(RouterConfig::testing()).unwrap();
    router.start_at(0).unwrap();
    match router.process_next_task(message(1, 77, None, None, None)) {
        Err(RouterError::AgentNotFound { agent_id }) => assert_eq!(agent_id, AgentId::new(77)),
        other => panic!("unexpected: {other:?}"),
    }
    router.register_agent(local(2, AgentState::Running), vec![]).unwrap();
    let m = message(1, 2, None, None, None);
    assert_eq!(router.process_next_task(m.clone()).unwrap(), m.message_id);
    router.register_agent(local(3, AgentState::Draining), vec![]).unwrap();
    match router.process_next_task(message(1, 3, None, None, None)) {
        Err(RouterError::NetworkError { cause }) => assert_eq!(cause, "Agent is not available"),
        other => panic!("unexpected: {other:?}"),
    }
}
