use flare_orchestrator::classify::MessageTemporaryService;
use flare_orchestrator::field_map::FieldMap;
use flare_orchestrator::model::{ConversationType, Message};
use flare_orchestrator::operations::ErrorCode;
use flare_orchestrator::publication::{plan_publication, PublicationKind, Topic, MAX_MQ_PAYLOAD};
use flare_orchestrator::send::{
    batch_response, check_batch_size, failure_of, send_response_from_outcome, split_batch, FailedMessage,
    SendMessageOutcome,
};
use flare_orchestrator::user_sync::RedisUserSyncIndexRepository;

#[test]
fn send_response_preserves_ack_durability() {
    let response = send_response_from_outcome(SendMessageOutcome {
        message_id: "server-1".to_string(),
        conversation_seq: 42,
        durability: 2,
    });

    assert!(response.success);
    assert_eq!(response.server_msg_id, "server-1");
    assert_eq!(response.conversation_seq, 42);
    assert_eq!(response.durability, 2);
    assert_eq!(
        response.created_at_ms,
        response.sent_at.seconds * 1000 + (response.sent_at.nanos / 1_000_000) as i64
    );
}

#[test]
fn batches_over_one_hundred_are_refused() {
    assert!(check_batch_size(100).is_ok());
    assert_eq!(check_batch_size(101), Err("batch send supports at most 100 messages"));
}

#[test]
fn missing_batch_entries_become_failures() {
    let (present, failures) = split_batch(vec![Some(1), None, Some(3), None]);
    assert_eq!(present, vec![1, 3]);
    assert_eq!(
        failures,
        vec![
            FailedMessage { message_id: String::new(), code: 400, error_message: "message required".to_string() };
            2
        ]
    );
}

#[test]
fn batch_response_counts_successes_and_failures() {
    let missing = vec![failure_of(Some(400), "message required".to_string())];
    let results = vec![
        Ok(SendMessageOutcome { message_id: "a".to_string(), conversation_seq: 1, durability: 1 }),
        Err((None, "boom".to_string())),
        Err((Some(7), "bad".to_string())),
    ];
    let r = batch_response(results, missing);
    assert_eq!(r.success_count, 1);
    assert_eq!(r.fail_count, 3);
    assert_eq!(r.successes[0].server_msg_id, "a");
    assert_eq!(r.failures[0].code, 400);
    assert_eq!(r.failures[1].code, 1);
    assert_eq!(r.failures[1].error_message, "boom");
    assert_eq!(r.failures[2].code, 7);
}

#[test]
fn publications_pick_topic_flags_and_headers() {
    let p = plan_publication(PublicationKind::PushOnlyEvent, 10).expect("fits");
    assert_eq!(p.topic, Topic::PushEvents);
    assert!(p.push_only);
    assert!(!p.persistence_only);
    assert!(p.with_recipients);
    assert_eq!(p.headers.get("push-only").map(String::as_str), Some("true"));
    let p = plan_publication(PublicationKind::PersistenceOnlyMessage, MAX_MQ_PAYLOAD).expect("fits");
    assert_eq!(p.topic, Topic::MessageCreated);
    assert!(!p.with_recipients);
    assert_eq!(p.headers.get("persistence-only").map(String::as_str), Some("true"));
    let p = plan_publication(PublicationKind::MainMessage, 0).expect("fits");
    assert_eq!(p.topic, Topic::MessageMain);
    assert!(p.headers.entries.is_empty());
    let e = plan_publication(PublicationKind::MainEvent, MAX_MQ_PAYLOAD + 1).unwrap_err();
    assert_eq!(e.code, ErrorCode::InvalidParameter);
    assert_eq!(e.message, "event payload too large");
    assert_eq!(
        e.params,
        vec![
            ("size".to_string(), "10485761".to_string()),
            ("max_size".to_string(), "10485760".to_string())
        ]
    );
    assert_eq!(plan_publication(PublicationKind::PushEnvelope, usize::MAX).unwrap_err().message, "push envelope too large");
}

#[test]
fn change_targets_skip_blank_conversations_and_empty_user_lists() {
    let users = vec![" b ".to_string(), "a".to_string(), "".to_string()];
    assert_eq!(
        RedisUserSyncIndexRepository::change_targets(" conv ", &users),
        Some(("conv".to_string(), vec!["a".to_string(), "b".to_string()]))
    );
    assert_eq!(RedisUserSyncIndexRepository::change_targets("  ", &users), None);
    assert_eq!(RedisUserSyncIndexRepository::change_targets("conv", &[" ".to_string()]), None);
}

#[test]
fn temporary_messages_go_to_the_single_chat_peer() {
    let svc = MessageTemporaryService::new();
    let mut m = Message {
        server_id: "s".to_string(),
        client_msg_id: "c".to_string(),
        conversation_id: "conv".to_string(),
        sender_id: "u1".to_string(),
        channel_id: "u2".to_string(),
        conversation_type: ConversationType::Single,
        message_type: 0,
        conversation_seq: 0,
        created_at_ms: 0,
        extra: FieldMap::new(),
    };
    assert_eq!(svc.extract_recipient_user_ids(&m), vec!["u2".to_string()]);
    assert!(svc.handle_temporary_message(&m).is_ok());
    m.conversation_type = ConversationType::Group;
    assert!(svc.extract_recipient_user_ids(&m).is_empty());
}
