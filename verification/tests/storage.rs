use caxton::base::MessageCount;
use caxton::message_router::domain_types::Performative;
use caxton::storage::{
    create_agents_table, create_test_agent_data, message_count_to_i64, parse_agent_name,
    parse_created_at, parse_message_count, parse_performative, performative_to_str,
    serialize_message_content, MockAgentStorage,
};
use caxton::time::MessageTimestamp;
use caxton::storage::{message_timestamp_to_timestamp, parse_message_content, parse_timestamp};
use caxton::errors::RouterError;

#[test]
fn test_create_test_agent_data() {
    let (_agent_id, agent_name) = create_test_agent_data();
    assert!(
        !agent_name.as_str().is_empty(),
        "Test agent name should not be empty"
    );
}

#[test]
fn test_mock_storage_default() {
    let _storage1 = MockAgentStorage::new();
}

#[test]
fn mock_storage_finds_nothing() {
    let storage = MockAgentStorage::default();
    let (agent_id, agent_name) = create_test_agent_data();
    assert!(storage.save_agent(agent_id, agent_name).is_ok());
    assert!(storage.find_agent_by_id(agent_id).unwrap().is_none());
    assert!(storage.list_all_agents().unwrap().is_empty());
    assert!(storage.remove_agent(agent_id).is_ok());
}

#[test]
fn performatives_round_trip_through_their_names() {
    let all = [
        Performative::Request,
        Performative::Inform,
        Performative::QueryIf,
        Performative::QueryRef,
        Performative::Propose,
        Performative::AcceptProposal,
        Performative::RejectProposal,
        Performative::Agree,
        Performative::Refuse,
        Performative::Failure,
        Performative::NotUnderstood,
        Performative::Heartbeat,
        Performative::Capability,
    ];
    for p in all {
        assert_eq!(parse_performative(performative_to_str(p)).unwrap(), p);
    }
    assert!(parse_performative("Shout").is_err());
    assert_eq!(performative_to_str(Performative::QueryRef), "QueryRef");
}

#[test]
fn columns_map_to_and_from_domain_values() {
    assert_eq!(message_count_to_i64(MessageCount::new(42)), 42);
    assert_eq!(parse_message_count(-5).into_inner(), 0);
    assert_eq!(parse_message_count(17).into_inner(), 17);
    assert_eq!(parse_created_at(-1).millis, 0);
    assert_eq!(parse_created_at(1_700_000_000).millis, 1_700_000_000_000);
    assert_eq!(message_timestamp_to_timestamp(MessageTimestamp::new(1_700_000_000_999)), 1_700_000_000);
    assert!(parse_agent_name("").is_err());
    assert_eq!(parse_agent_name("alpha").unwrap().as_str(), "alpha");
    assert!(create_agents_table().starts_with("CREATE TABLE IF NOT EXISTS agents"));
}

#[test]
fn content_is_length_prefixed() {
    assert_eq!(serialize_message_content(b"hello"), "5::hello");
    assert_eq!(serialize_message_content(b""), "0::");
    assert_eq!(serialize_message_content(&[0xff, 0x41]), "2::\u{fffd}A");
}

#[test]
fn stored_content_reads_back_after_the_first_separator() {
    let text = serialize_message_content("héllo::world".as_bytes());
    assert_eq!(text, "13::héllo::world");
    assert_eq!(parse_message_content(&text, "m1").unwrap(), "héllo::world".as_bytes().to_vec());
    assert_eq!(parse_message_content("7::", "m1").unwrap(), Vec::<u8>::new());
    match parse_message_content("no separator", "m1") {
        Err(RouterError::StorageError { cause }) => assert_eq!(
            cause,
            "Invalid length-prefixed content format for message 'm1': expected 'length::content', got 'no separator'"
        ),
        other => panic!("unexpected {other:?}"),
    }
}

#[test]
fn invalid_utf8_content_is_written_lossily() {
    assert_eq!(serialize_message_content(&[0x66, 0xff]), "2::f\u{fffd}");
}

#[test]
fn negative_stored_times_are_refused() {
    assert_eq!(parse_timestamp(5, "m1").unwrap().as_millis(), 5_000);
    match parse_timestamp(-5, "m1") {
        Err(RouterError::StorageError { cause }) => assert_eq!(
            cause,
            "Invalid timestamp -5 for message 'm1': out of range integral type conversion attempted"
        ),
        other => panic!("unexpected {other:?}"),
    }
}

#[test]
fn test_mock_storage_operations() {
    let storage = MockAgentStorage::new();
    let (agent_id, agent_name) = create_test_agent_data();
    let save_result = storage.save_agent(agent_id, agent_name);
    assert!(save_result.is_ok(), "Mock storage should save successfully");
    let find_result = storage.find_agent_by_id(agent_id);
    assert!(find_result.is_ok(), "Mock storage should find successfully");
    assert!(find_result.unwrap().is_none(), "Mock storage should return None for all queries");
    let list_result = storage.list_all_agents();
    assert!(list_result.is_ok(), "Mock storage should list successfully");
    assert!(list_result.unwrap().is_empty(), "Mock storage should return empty list");
    let remove_result = storage.remove_agent(agent_id);
    assert!(remove_result.is_ok(), "Mock storage should remove successfully");
}

use caxton::errors::ConversationError;
use caxton::ids::{AgentId, ConversationId, MessageId};
use caxton::storage::{conversation_from_columns, conversation_to_columns, message_from_columns};

const MID: &str = "11111111-1111-4111-8111-111111111111";
const SID: &str = "22222222-2222-4222-8222-222222222222";
const RID: &str = "33333333-3333-4333-8333-333333333333";
const CID: &str = "44444444-4444-4444-8444-444444444444";

#[test]
fn message_is_rebuilt_from_its_columns() {
    let m = message_from_columns(MID, SID, RID, Some(CID), "5::hello", "Inform", 7).unwrap();
    assert_eq!(m.message_id, MessageId::new(0x11111111_1111_4111_8111_111111111111));
    assert_eq!(*m.sender(), AgentId::new(0x22222222_2222_4222_8222_222222222222));
    assert_eq!(*m.receiver(), AgentId::new(0x33333333_3333_4333_8333_333333333333));
    assert_eq!(m.conversation_id, Some(ConversationId::new(0x44444444_4444_4444_8444_444444444444)));
    assert_eq!(m.content.as_bytes(), b"hello");
    assert_eq!(m.performative, Performative::Inform);
    assert_eq!(m.created_at.as_millis(), 7000);
    assert!(m.reply_with.is_none() && m.in_reply_to.is_none());
}

#[test]
fn bad_message_columns_are_refused_in_order() {
    match message_from_columns("nope", SID, RID, None, "5::hello", "Inform", 7) {
        Err(RouterError::StorageError { cause }) => assert!(cause.starts_with("Invalid message ID UUID 'nope': ")),
        other => panic!("unexpected: {other:?}"),
    }
    match message_from_columns(MID, SID, "bad", None, "5::hello", "Inform", 7) {
        Err(RouterError::StorageError { cause }) => assert!(cause.starts_with("Invalid receiver UUID 'bad': ")),
        other => panic!("unexpected: {other:?}"),
    }
    match message_from_columns(MID, SID, RID, Some("x"), "5::hello", "Inform", 7) {
        Err(RouterError::StorageError { cause }) => assert!(cause.starts_with("Invalid conversation UUID 'x': ")),
        other => panic!("unexpected: {other:?}"),
    }
    match message_from_columns(MID, SID, RID, None, "0::", "Inform", 7) {
        Err(RouterError::StorageError { cause }) => assert_eq!(
            cause,
            format!("Invalid message content for message '{MID}': MessageContent failed the predicate test.")
        ),
        other => panic!("unexpected: {other:?}"),
    }
    assert!(matches!(
        message_from_columns(MID, SID, RID, None, "5::hello", "Shout", 7),
        Err(RouterError::StorageError { .. })
    ));
    assert!(matches!(
        message_from_columns(MID, SID, RID, None, "5::hello", "Inform", -1),
        Err(RouterError::StorageError { .. })
    ));
    assert!(matches!(
        message_from_columns(MID, SID, SID, None, "5::hello", "Inform", 7),
        Err(RouterError::ValidationError { .. })
    ));
}

#[test]
fn conversation_is_rebuilt_from_its_columns() {
    let ids = vec![SID.to_string(), RID.to_string(), SID.to_string()];
    let c = conversation_from_columns(ConversationId::new(9), &ids, 10, 20, 3).unwrap();
    assert_eq!(c.id, ConversationId::new(9));
    assert_eq!(c.participants.len(), 2);
    assert_eq!(c.created_at.as_millis(), 10_000);
    assert_eq!(c.last_activity.as_millis(), 20_000);
    assert_eq!(c.message_count.into_inner(), 3);
    assert!(matches!(
        conversation_from_columns(ConversationId::new(9), &vec!["zz".to_string()], 10, 20, 3),
        Err(ConversationError::StorageError { .. })
    ));
    match conversation_from_columns(ConversationId::new(9), &ids, -5, 20, 3) {
        Err(ConversationError::StorageError { cause }) => {
            assert_eq!(cause, "out of range integral type conversion attempted")
        }
        other => panic!("unexpected: {other:?}"),
    }
}

#[test]
fn conversation_is_written_to_columns() {
    let ids = vec![SID.to_string(), RID.to_string()];
    let c = conversation_from_columns(ConversationId::new(9), &ids, 10, 20, 3).unwrap();
    let (id, participants, created, last, count) = conversation_to_columns(&c).unwrap();
    assert_eq!(id, "00000000-0000-0000-0000-000000000009");
    assert_eq!(participants, ids);
    assert_eq!((created, last, count), (10, 20, 3));
}
