use flare_orchestrator::field_map::FieldMap;
use flare_orchestrator::model::{
    CallAudience, CallSessionKind, CallSignal, CallSignalEvent, ConversationType, Event, EventPayload,
    EventType, EventTypeCode, Message,
};
use flare_orchestrator::validation::{
    validate_call_signal_invite, CompositeEventValidationStrategy, CompositeMessageValidationStrategy,
    ConversationIdCheck, EventRequiredFieldsValidationStrategy, EventTypeValidationStrategy,
    MessageRequiredFieldsValidationStrategy, MessageSizeValidationStrategy, ValidationResult,
};

fn invite(audience: CallAudience, kind: CallSessionKind) -> CallSignalEvent {
    CallSignalEvent {
        call_id: String::new(),
        conversation_id: String::new(),
        from_user_id: String::new(),
        ext: FieldMap::new(),
        signal: Some(CallSignal::Invite { offered_media: Some(vec![1]) }),
        media_session_kind: kind,
        audience: Some(audience),
        transport: None,
    }
}

const SINGLE_CID: ConversationIdCheck = ConversationIdCheck { valid: true, single_chat: true };
const GROUP_CID: ConversationIdCheck = ConversationIdCheck { valid: true, single_chat: false };
const INVALID_CID: ConversationIdCheck = ConversationIdCheck { valid: false, single_chat: false };

#[test]
fn single_chat_invite_direct_ok() {
    let cs = invite(CallAudience::Direct { peer_user_id: "u2".into() }, CallSessionKind::Direct);
    let r = validate_call_signal_invite(SINGLE_CID, &cs);
    assert!(r.is_valid, "{:?}", r.errors);
}

#[test]
fn multi_party_invite_explicit_ok() {
    let cs = invite(
        CallAudience::Explicit { user_ids: vec!["x".into(), "y".into()] },
        CallSessionKind::Group,
    );
    let r = validate_call_signal_invite(GROUP_CID, &cs);
    assert!(r.is_valid, "{:?}", r.errors);
}

#[test]
fn multi_party_invite_broadcast_ok() {
    let cs = invite(CallAudience::Broadcast, CallSessionKind::Group);
    let r = validate_call_signal_invite(GROUP_CID, &cs);
    assert!(r.is_valid, "{:?}", r.errors);
}

#[test]
fn multi_party_invite_direct_rejected() {
    let cs = invite(CallAudience::Direct { peer_user_id: "x".into() }, CallSessionKind::Group);
    let r = validate_call_signal_invite(GROUP_CID, &cs);
    assert!(!r.is_valid);
}

#[test]
fn invalid_cid_rejected() {
    let cs = invite(CallAudience::Broadcast, CallSessionKind::Group);
    let r = validate_call_signal_invite(INVALID_CID, &cs);
    assert!(!r.is_valid);
}

#[test]
fn invite_errors_name_the_problem() {
    let cs = invite(CallAudience::Explicit { user_ids: vec![" ".into()] }, CallSessionKind::Group);
    let r = validate_call_signal_invite(GROUP_CID, &cs);
    assert_eq!(
        r.errors,
        vec!["call invite audience.explicit.user_ids must be non-empty (use audience.broadcast for ring-all)".to_string()]
    );
    let cs = invite(CallAudience::Broadcast, CallSessionKind::Unspecified);
    let r = validate_call_signal_invite(GROUP_CID, &cs);
    assert_eq!(
        r.errors,
        vec!["call_signal invite requires media_session.kind (DIRECT for single-chat, GROUP otherwise)".to_string()]
    );
    let cs = invite(CallAudience::Broadcast, CallSessionKind::Group);
    let r = validate_call_signal_invite(SINGLE_CID, &cs);
    assert_eq!(r.errors, vec!["single-chat call invite must set media_session.kind=DIRECT".to_string()]);
}

#[test]
fn merge_is_associative_with_valid_as_identity() {
    let a = || ValidationResult::invalid("a".to_string()).with_warning("w1".to_string());
    let b = || ValidationResult::valid().with_warning("w2".to_string());
    let c = || ValidationResult::invalid("c".to_string());
    let left = a().merge(b()).merge(c());
    let right = a().merge(b().merge(c()));
    assert_eq!(left.is_valid, right.is_valid);
    assert_eq!(left.errors, right.errors);
    assert_eq!(left.warnings, right.warnings);
    assert_eq!(left.errors, vec!["a".to_string(), "c".to_string()]);
    let id = ValidationResult::valid().merge(a());
    assert!(!id.is_valid);
    assert_eq!(id.errors, vec!["a".to_string()]);
    assert_eq!(id.warnings, vec!["w1".to_string()]);
}

fn message() -> Message {
    Message {
        server_id: "s1".to_string(),
        client_msg_id: "c1".to_string(),
        conversation_id: "conv".to_string(),
        sender_id: "u1".to_string(),
        channel_id: String::new(),
        conversation_type: ConversationType::Group,
        message_type: 1,
        conversation_seq: 0,
        created_at_ms: 0,
        extra: FieldMap::new(),
    }
}

#[test]
fn message_size_limit() {
    let s = MessageSizeValidationStrategy::new(10);
    assert!(s.validate(10).is_valid);
    assert!(!s.validate(11).is_valid);
    assert!(MessageRequiredFieldsValidationStrategy.validate(&message()).is_valid);
    let mut m = message();
    m.sender_id = String::new();
    assert!(!MessageRequiredFieldsValidationStrategy.validate(&m).is_valid);
    assert!(CompositeMessageValidationStrategy::default_composite().validate(&message(), 100).is_valid);
}

fn event(t: EventTypeCode) -> Event {
    Event {
        event_id: "e".to_string(),
        conversation_id: "conv".to_string(),
        event_type: t,
        seq: 0,
        event_seq: None,
        conversation_seq: 0,
        created_at_ms: 0,
        request_id: None,
        payload: Some(EventPayload::Other),
    }
}

#[test]
fn event_type_and_required_fields() {
    let all = EventTypeValidationStrategy::all_supported();
    assert!(all.validate(&event(EventTypeCode::Known(EventType::Reaction))).is_valid);
    assert!(!all.validate(&event(EventTypeCode::Unrecognized(999))).is_valid);
    let mut e = event(EventTypeCode::Known(EventType::Reaction));
    e.conversation_id = String::new();
    assert!(!EventRequiredFieldsValidationStrategy.validate(&e).is_valid);
    let composite = CompositeEventValidationStrategy::default_composite();
    assert!(composite.validate(&event(EventTypeCode::Known(EventType::Pin)), GROUP_CID).is_valid);
}
