use caxton::ids::{AgentId, ConversationId, MessageId};
use caxton::message_router::domain_types::{
    DeliveryOptions, FipaMessage, FipaMessageParams, MessageContent, MessageParticipants,
    Performative,
};
use caxton::time::MessageTimestamp;

#[test]
fn test_message_participants_should_reject_equal_sender_and_receiver() {
    let agent_id = AgentId::generate();

    let result = MessageParticipants::try_new(agent_id, agent_id);

    assert!(
        result.is_err(),
        "MessageParticipants should reject equal sender and receiver"
    );
}

#[test]
fn test_message_participants_should_accept_different_sender_and_receiver() {
    let sender = AgentId::generate();
    let receiver = AgentId::generate();

    let result = MessageParticipants::try_new(sender, receiver);

    assert!(
        result.is_ok(),
        "MessageParticipants should accept different sender and receiver"
    );

    let participants = result.unwrap();

    assert_eq!(
        participants.sender(),
        &sender,
        "Should be able to access sender field"
    );
    assert_eq!(
        participants.receiver(),
        &receiver,
        "Should be able to access receiver field"
    );
}

#[test]
fn test_message_content_should_reject_empty_content() {
    let empty_content = vec![];

    let result = MessageContent::try_new(empty_content);

    assert!(
        result.is_err(),
        "MessageContent should reject empty content"
    );

    if let Err(error) = result {
        let error_message = error.message();
        assert!(
            error_message.contains("predicate test") || error_message.contains("failed"),
            "Error message should indicate validation failure, got: {error_message}"
        );
    }
}

#[test]
fn test_fipa_message_should_work_without_adr_violating_fields() {
    let sender_id = AgentId::generate();
    let receiver_id = AgentId::generate();
    let content = MessageContent::try_new("Hello, world!".as_bytes().to_vec())
        .expect("Valid content should be accepted");
    let message_id = MessageId::generate();
    let created_at = MessageTimestamp::now();
    let delivery_options = DeliveryOptions::default();

    let params = FipaMessageParams {
        performative: Performative::Request,
        sender: sender_id,
        receiver: receiver_id,
        content,
        conversation_id: None,
        reply_with: None,
        in_reply_to: None,
        message_id,
        created_at,
        trace_context: None,
        delivery_options,
    };

    let result = FipaMessage::try_new_validated(params);

    assert!(
        result.is_ok(),
        "FipaMessage should work without language, ontology, and protocol fields per ADR-0012"
    );

    let message = result.unwrap();

    assert_eq!(message.performative, Performative::Request);
    assert_eq!(message.sender(), &sender_id);
    assert_eq!(message.receiver(), &receiver_id);
}

#[test]
fn test_fipa_message_should_use_message_participants_internally() {
    let sender_id = AgentId::generate();
    let receiver_id = AgentId::generate();
    let content = MessageContent::try_new("Test message".as_bytes().to_vec())
        .expect("Valid content should be accepted");
    let message_id = MessageId::generate();
    let created_at = MessageTimestamp::now();
    let delivery_options = DeliveryOptions::default();

    let params = FipaMessageParams {
        performative: Performative::Request,
        sender: sender_id,
        receiver: receiver_id,
        content,
        conversation_id: None,
        reply_with: None,
        in_reply_to: None,
        message_id,
        created_at,
        trace_context: None,
        delivery_options,
    };

    let result = FipaMessage::try_new_validated(params);
    assert!(result.is_ok(), "FipaMessage creation should succeed");

    let message = result.unwrap();

    let participants: &MessageParticipants = &message.participants;

    assert_eq!(
        participants.sender(),
        &sender_id,
        "Participants should contain correct sender"
    );
    assert_eq!(
        participants.receiver(),
        &receiver_id,
        "Participants should contain correct receiver"
    );
}

fn params_with(performative: Performative, content: &[u8]) -> FipaMessageParams {
    FipaMessageParams {
        performative,
        sender: AgentId::new(1),
        receiver: AgentId::new(2),
        content: MessageContent::try_new(content.to_vec()).unwrap(),
        conversation_id: Some(ConversationId::new(3)),
        reply_with: None,
        in_reply_to: None,
        message_id: MessageId::new(4),
        created_at: MessageTimestamp::new(0),
        trace_context: None,
        delivery_options: DeliveryOptions::default(),
    }
}

#[test]
fn extension_performatives_and_broken_json_are_refused() {
    assert!(FipaMessage::try_new_validated(params_with(Performative::Heartbeat, b"x")).is_err());
    assert!(FipaMessage::try_new_validated(params_with(Performative::Capability, b"x")).is_err());
    assert!(FipaMessage::try_new_validated(params_with(Performative::Inform, b"{\"a\": 1}")).is_ok());
    assert!(FipaMessage::try_new_validated(params_with(Performative::Inform, b"{\"a\": ")).is_err());
    assert!(FipaMessage::try_new_validated(params_with(Performative::Inform, b"plain text")).is_ok());
}

#[test]
fn content_length_is_bounded() {
    assert!(MessageContent::try_new(vec![b'a'; 10 * 1024 * 1024]).is_ok());
    assert!(MessageContent::try_new(vec![b'a'; 10 * 1024 * 1024 + 1]).is_err());
    let c = MessageContent::try_new(b"abc".to_vec()).unwrap();
    assert_eq!(c.len(), 3);
    assert!(!c.is_empty());
    assert_eq!(c.as_bytes(), b"abc");
}

#[test]
fn timestamps_become_system_times() {
    let t = MessageTimestamp::new(1500).as_system_time();
    assert_eq!(t, Some(std::time::UNIX_EPOCH + std::time::Duration::from_millis(1500)));
}
