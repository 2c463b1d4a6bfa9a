use flare_orchestrator::classify::{OperationCategory, OperationClassifier, TemporaryMessageType};
use flare_orchestrator::conversation_ensure::{
    create_conversation_request, create_reply_outcome, CreateConversationReply,
    build_conversation_ensure_request_from_event, build_conversation_ensure_request_from_message,
    persisted_conversation_channel_id, ConversationEnsureRequest, ConversationEnsureService,
    ConversationEventPublisher, EnsureAction, SessionCreationMode,
};
use flare_orchestrator::field_map::FieldMap;
use flare_orchestrator::main_payload::{decode_main_payload, encode_main_payload, MainPayloadError, MAIN_KIND_EVENT};
use flare_orchestrator::model::{ConversationType, EventType, Message};
use flare_orchestrator::publish::{
    MessageCategory, MessageProcessingType, MessagePublishStrategyRegistry, PublishAction,
    PublishBothStrategy, PushOnlyStrategy, SystemMessageError, SystemMessageService,
};

fn message(conversation_type: ConversationType, channel: &str) -> Message {
    let mut extra = FieldMap::new();
    extra.insert("business_type".to_string(), "im".to_string());
    Message {
        server_id: "s".to_string(),
        client_msg_id: "c".to_string(),
        conversation_id: "conv".to_string(),
        sender_id: "u1".to_string(),
        channel_id: channel.to_string(),
        conversation_type,
        message_type: 1,
        conversation_seq: 0,
        created_at_ms: 0,
        extra,
    }
}

#[test]
fn main_payload_round_trips() {
    let framed = encode_main_payload(MAIN_KIND_EVENT, b"abc", b"de");
    assert_eq!(framed, vec![2, 0, 0, 0, 3, b'a', b'b', b'c', 0, 0, 0, 2, b'd', b'e']);
    let (kind, first, second) = decode_main_payload(&framed).expect("decodes");
    assert_eq!(kind, MAIN_KIND_EVENT);
    assert_eq!(first, b"abc");
    assert_eq!(second, b"de");
    assert_eq!(decode_main_payload(&[]), Err(MainPayloadError::TooShort));
    let truncated: Vec<u8> = framed[..framed.len() - 1].to_vec();
    assert_eq!(decode_main_payload(&truncated), Err(MainPayloadError::SecondLengthOverflow));
    assert_eq!(decode_main_payload(&[1, 0, 0, 0, 9, 0, 0, 0, 0]), Err(MainPayloadError::FirstLengthOverflow));
}

#[test]
fn classifier_categories() {
    assert!(!OperationClassifier::requires_message_creation(Some(EventType::MessageRecall)));
    assert_eq!(OperationClassifier::get_operation_category(Some(EventType::MessageEdit)), OperationCategory::Complex);
    assert_eq!(OperationClassifier::get_operation_category(Some(EventType::Pin)), OperationCategory::Simple);
    assert_eq!(OperationClassifier::get_operation_category(Some(EventType::Typing)), OperationCategory::Unknown);
    assert_eq!(OperationClassifier::get_operation_category(None), OperationCategory::Unknown);
    assert!(!OperationClassifier::requires_kafka(Some(EventType::Mark)));
    assert!(OperationClassifier::requires_kafka(Some(EventType::Unmark)));
    assert!(!OperationClassifier::requires_push_notification(Some(EventType::Unmark)));
    assert!(OperationClassifier::requires_push_notification(Some(EventType::ReadReceipt)));
    let mut meta = FieldMap::new();
    meta.insert("scope".to_string(), "self".to_string());
    assert!(OperationClassifier::is_recall_self_only(&meta));
    assert!(!OperationClassifier::is_recall_self_only(&FieldMap::new()));
    assert_eq!(TemporaryMessageType::from_message_type(-1), None);
    assert!(!TemporaryMessageType::Typing.needs_persistence());
}

#[test]
fn ensure_actions_follow_mode_and_configuration() {
    assert_eq!(ConversationEnsureService::new(true, SessionCreationMode::Sync, false).ensure_action(), EnsureAction::CallConversationService);
    assert_eq!(ConversationEnsureService::new(false, SessionCreationMode::Sync, true).ensure_action(), EnsureAction::Skip);
    assert_eq!(ConversationEnsureService::new(false, SessionCreationMode::Async, true).ensure_action(), EnsureAction::PublishEnsureEvent);
    assert_eq!(ConversationEnsureService::new(true, SessionCreationMode::Async, false).ensure_action(), EnsureAction::Skip);
}

struct FailingPublisher;

impl ConversationEventPublisher for FailingPublisher {
    fn published(&self, _request: ConversationEnsureRequest, result: Result<(), String>) -> bool {
        result == Err("broker down".to_string())
    }

    fn publish_conversation_ensure(&self, _request: &ConversationEnsureRequest) -> Result<(), String> {
        Err("broker down".to_string())
    }
}

/// Records every request it is asked to publish.
struct RecordingPublisher {
    sent: std::cell::RefCell<Vec<ConversationEnsureRequest>>,
}

impl ConversationEventPublisher for RecordingPublisher {
    fn published(&self, request: ConversationEnsureRequest, result: Result<(), String>) -> bool {
        result.is_ok() && self.sent.borrow().iter().any(|r| r.conversation_id == request.conversation_id)
    }

    fn publish_conversation_ensure(&self, request: &ConversationEnsureRequest) -> Result<(), String> {
        self.sent.borrow_mut().push(request.clone());
        Ok(())
    }
}

#[test]
fn async_ensure_publishes_the_request_once_unchanged() {
    let svc = ConversationEnsureService::new(false, SessionCreationMode::Async, true);
    let req = build_conversation_ensure_request_from_message(&message(ConversationType::Single, "u2"), "t");
    let publisher = RecordingPublisher { sent: std::cell::RefCell::new(Vec::new()) };
    assert!(svc.ensure_conversation_async(Some(&publisher), &req).is_ok());
    let sent = publisher.sent.borrow();
    assert_eq!(sent.len(), 1);
    assert_eq!(sent[0].conversation_id, req.conversation_id);
    assert_eq!(sent[0].conversation_type, req.conversation_type);
    assert_eq!(sent[0].business_type, req.business_type);
    assert_eq!(sent[0].participants, req.participants);
    assert_eq!(sent[0].stored_channel_id, req.stored_channel_id);
    assert_eq!(sent[0].tenant_id, req.tenant_id);
    assert!(svc.ensure_conversation_async::<RecordingPublisher>(None, &req).is_ok());
}

#[test]
fn ensure_failures_never_block_the_message() {
    let svc = ConversationEnsureService::new(false, SessionCreationMode::Async, true);
    let req = build_conversation_ensure_request_from_event("conv", "t", "op");
    assert!(svc.ensure_conversation_async(Some(&FailingPublisher), &req).is_ok());
    assert!(svc.ensure_outcome(None).is_ok());
    assert!(svc.ensure_outcome(Some(Err("x".to_string()))).is_ok());
    let ctx = svc.ensure_context("", "trace", None, "t9");
    assert_eq!(ctx.tenant_id, "t9");
    assert_eq!(ctx.trace_id, "trace");
    assert_eq!(ctx.request_id.len(), 36);
    let rid: Vec<char> = ctx.request_id.chars().collect();
    for (i, c) in rid.iter().enumerate() {
        if i == 8 || i == 13 || i == 18 || i == 23 {
            assert_eq!(*c, '-');
        } else {
            assert!(c.is_ascii_digit() || ('a'..='f').contains(c), "digit {i} of {:?}", rid);
        }
    }
    assert_eq!(rid[14], '4');
    assert!(['8', '9', 'a', 'b'].contains(&rid[19]));
    let ctx = svc.ensure_context("req", "", Some("t1"), "t9");
    assert_eq!(ctx.request_id, "req");
    assert_eq!(ctx.tenant_id, "t1");
}

#[test]
fn ensure_requests_from_messages_and_events() {
    let r = build_conversation_ensure_request_from_message(&message(ConversationType::Single, "u2"), "t");
    assert_eq!(r.participants, vec!["u1".to_string(), "u2".to_string()]);
    assert_eq!(r.stored_channel_id, "");
    assert_eq!(r.business_type, "im");
    let r = build_conversation_ensure_request_from_message(&message(ConversationType::Group, "room"), "t");
    assert_eq!(r.participants, vec!["u1".to_string()]);
    assert_eq!(r.stored_channel_id, "room");
    let r = build_conversation_ensure_request_from_event("conv", "t", "op");
    assert_eq!(r.conversation_type, ConversationType::Single);
    assert_eq!(r.participants, vec!["op".to_string()]);
    assert_eq!(persisted_conversation_channel_id(ConversationType::Channel, "ch"), "ch");
}

#[test]
fn publish_strategies() {
    assert_eq!(PublishBothStrategy.publish_action(), PublishAction::StoreAndPush);
    assert_eq!(PushOnlyStrategy.publish_action(), PublishAction::PushOnly);
    let reg = MessagePublishStrategyRegistry::new();
    assert_eq!(reg.get(MessageCategory::Operation, MessageProcessingType::Notification), PublishAction::StoreAndPush);
    assert_eq!(reg.get(MessageCategory::Notification, MessageProcessingType::Notification), PublishAction::PushOnly);
    assert_eq!(reg.get(MessageCategory::Temporary, MessageProcessingType::Notification), PublishAction::PushOnly);
    assert_eq!(reg.get(MessageCategory::Temporary, MessageProcessingType::Normal), PublishAction::StoreAndPush);
    assert_eq!(reg.get(MessageCategory::Other, MessageProcessingType::Other), PublishAction::StoreAndPush);
}

#[test]
fn system_message_preparation() {
    let mut m = message(ConversationType::Group, "room");
    m.conversation_id = String::new();
    let prepared = SystemMessageService::prepare(Some("t1"), "conv-9", m, "welcome", "sync", "tags").expect("prepared");
    assert_eq!(prepared.conversation_id, "conv-9");
    assert_eq!(prepared.extra.get("system_message_type").map(String::as_str), Some("welcome"));
    assert_eq!(prepared.extra.get("sender_type").map(String::as_str), Some("system"));
    assert_eq!(prepared.extra.get("sync").map(String::as_str), Some("false"));
    assert_eq!(prepared.extra.get("x-tenant-id").map(String::as_str), Some("t1"));
    let tags = prepared.extra.get("tags").expect("tags");
    assert!(
        tags == "{\"system_message_type\":\"welcome\",\"is_system_message\":\"true\"}"
            || tags == "{\"is_system_message\":\"true\",\"system_message_type\":\"welcome\"}",
        "unexpected tags {tags}"
    );
    let err = SystemMessageService::prepare(None, "", message(ConversationType::Group, ""), "x", "sync", "tags").unwrap_err();
    assert_eq!(err, SystemMessageError::MissingConversationId);
    assert_eq!(err.message(), "conversation_id is required");
    let err = SystemMessageService::prepare(None, "c", message(ConversationType::Group, ""), "", "sync", "tags").unwrap_err();
    assert_eq!(err, SystemMessageError::MissingSystemMessageType);
}

#[test]
fn create_conversation_request_keeps_the_id_and_plain_members() {
    let r = create_conversation_request(
        "conv-1",
        "single",
        "chat",
        vec!["u1".to_string(), "u2".to_string()],
        String::new(),
    );
    assert_eq!(r.conversation_type, "single");
    assert_eq!(r.business_type, "chat");
    assert_eq!(r.participants.len(), 2);
    assert_eq!(r.participants[0].user_id, "u1");
    assert_eq!(r.participants[1].user_id, "u2");
    assert!(r.participants.iter().all(|p| p.roles.is_empty() && !p.muted && !p.pinned));
    assert_eq!(r.attributes.get("conversation_id").map(String::as_str), Some("conv-1"));
    assert_eq!(r.attributes.entries.len(), 1);
    assert_eq!(r.visibility, 0);
    assert_eq!(r.channel_id, "");
}

#[test]
fn create_reply_outcome_accepts_existing_conversations() {
    assert!(create_reply_outcome(CreateConversationReply::Created).is_ok());
    assert!(create_reply_outcome(CreateConversationReply::Rejected {
        already_exists: true,
        status_text: "exists".to_string()
    })
    .is_ok());
    assert_eq!(
        create_reply_outcome(CreateConversationReply::Rejected {
            already_exists: false,
            status_text: "unavailable".to_string()
        }),
        Err("Failed to ensure conversation: unavailable".to_string())
    );
}

#[test]
fn system_tags_escape_the_type_text() {
    let prepared =
        SystemMessageService::prepare(None, "c", message(ConversationType::Group, ""), "a\"b\\c\nd\u{1}", "sync", "tags")
            .expect("prepared");
    let tags = prepared.extra.get("tags").expect("tags");
    let ty = "\"system_message_type\":\"a\\\"b\\\\c\\nd\\u0001\"";
    assert!(
        *tags == format!("{{{ty},\"is_system_message\":\"true\"}}")
            || *tags == format!("{{\"is_system_message\":\"true\",{ty}}}"),
        "unexpected tags {tags}"
    );
}
