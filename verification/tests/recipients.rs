use flare_orchestrator::model::{ConversationType, Event, EventPayload, EventType, EventTypeCode};
use flare_orchestrator::recipients::{
    event_recipients, normalize_single_chat_channel, resolve_recipients_from_event_payload,
    RecipientRepositoryImpl,
};

fn strings(v: &[&str]) -> Vec<String> {
    v.iter().map(|s| s.to_string()).collect()
}

#[test]
fn explicit_single_chat_recipient_prefers_non_self_channel_id() {
    assert_eq!(
        RecipientRepositoryImpl::explicit_single_chat_recipient(Some(" user-b "), "user-a"),
        Some("user-b".to_string())
    );
}

#[test]
fn explicit_single_chat_recipient_ignores_empty_or_self_channel_id() {
    assert_eq!(
        RecipientRepositoryImpl::explicit_single_chat_recipient(Some(""), "user-a"),
        None
    );
    assert_eq!(
        RecipientRepositoryImpl::explicit_single_chat_recipient(Some("user-a"), "user-a"),
        None
    );
    assert_eq!(
        RecipientRepositoryImpl::explicit_single_chat_recipient(None, "user-a"),
        None
    );
}

#[test]
fn explicit_single_chat_recipient_ignores_blank_channel_id() {
    assert_eq!(
        RecipientRepositoryImpl::explicit_single_chat_recipient(Some("   "), "user-a"),
        None
    );
    assert_eq!(
        RecipientRepositoryImpl::explicit_single_chat_recipient(Some(" user-a "), "user-a"),
        None
    );
}

#[test]
fn single_chat_members_are_trimmed_deduplicated_sorted_and_exclude_sender() {
    let repo = RecipientRepositoryImpl::new();
    let members = strings(&[" user-c ", "user-a", "", "user-c", "user-b", "user-a"]);
    assert_eq!(
        repo.message_recipients(ConversationType::Single, &members, "user-a"),
        strings(&["user-b", "user-c"])
    );
}

#[test]
fn group_members_keep_order_and_exclude_sender() {
    let repo = RecipientRepositoryImpl::new();
    let members = strings(&["u3", "sender", "u1", "u2"]);
    assert_eq!(
        repo.message_recipients(ConversationType::Group, &members, "sender"),
        strings(&["u3", "u1", "u2"])
    );
}

#[test]
fn read_receipt_recipients_exclude_the_reader() {
    let members = strings(&["reader", "u1", "u2"]);
    assert_eq!(
        event_recipients(Some(EventType::ReadReceipt), Some("reader"), &members),
        strings(&["u1", "u2"])
    );
    assert_eq!(
        event_recipients(Some(EventType::Reaction), Some("reader"), &members),
        members
    );
}

fn read_event() -> Event {
    Event {
        event_id: "e1".to_string(),
        conversation_id: "c1".to_string(),
        event_type: EventTypeCode::Known(EventType::ReadReceipt),
        seq: 0,
        event_seq: None,
        conversation_seq: 0,
        created_at_ms: 1,
        request_id: None,
        payload: Some(EventPayload::Read {
            user_id: "reader".to_string(),
            conversation_id: "c1".to_string(),
            message_ids: Vec::new(),
        }),
    }
}

#[test]
fn read_receipt_does_not_resolve_to_reader_from_payload() {
    let event = read_event();
    assert!(resolve_recipients_from_event_payload(&event).is_none());
}

#[test]
fn single_chat_channel_is_routed_to_the_resolved_peer() {
    let recipients = strings(&[" ", "sender-a", "peer-b"]);
    assert_eq!(
        normalize_single_chat_channel(ConversationType::Single, "stale-peer", "sender-a", &recipients),
        "peer-b"
    );
    assert_eq!(
        normalize_single_chat_channel(ConversationType::Single, " peer-b ", "sender-a", &recipients),
        " peer-b "
    );
    assert_eq!(
        normalize_single_chat_channel(ConversationType::Group, "room", "sender-a", &recipients),
        "room"
    );
    assert_eq!(
        normalize_single_chat_channel(ConversationType::Single, "keep", "sender-a", &strings(&["sender-a"])),
        "keep"
    );
}
