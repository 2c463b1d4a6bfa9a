use flare_orchestrator::clock::{is_representable, Timestamp, MAX_TIMESTAMP_SECONDS, MIN_TIMESTAMP_SECONDS};
use flare_orchestrator::event_route::{
    operator_or_empty, route_execute_event, tenant_or_zero, DeleteKind, EventRoute, ExecutePayload,
    OperationCommand, ResponseCode,
};

fn route(payload: Option<ExecutePayload>) -> EventRoute {
    route_execute_event(payload, "op".to_string(), "t1".to_string(), "conv".to_string())
}

#[test]
fn operator_and_tenant_defaults() {
    assert_eq!(operator_or_empty(None), "");
    assert_eq!(operator_or_empty(Some("a".to_string())), "a");
    assert_eq!(tenant_or_zero(None), "0");
    assert_eq!(tenant_or_zero(Some("t".to_string())), "t");
}

#[test]
fn recall_drops_empty_reason() {
    match route(Some(ExecutePayload::Recall {
        server_msg_id: "m1".to_string(),
        reason: String::new(),
        time_limit_seconds: Some(120),
    })) {
        EventRoute::Execute(OperationCommand::Recall {
            message_id, reason, time_limit_seconds, operator_id, tenant_id, conversation_id,
        }) => {
            assert_eq!(message_id, "m1");
            assert!(reason.is_none());
            assert_eq!(time_limit_seconds, Some(120));
            assert_eq!(operator_id, "op");
            assert_eq!(tenant_id, "t1");
            assert_eq!(conversation_id, "conv");
        }
        other => panic!("unexpected route {other:?}"),
    }
}

#[test]
fn delete_requires_a_message_id() {
    match route(Some(ExecutePayload::Delete {
        server_msg_id: "  ".to_string(),
        delete_type: Some(2),
        scope: None,
        reason: None,
        notify_others: None,
        target_user_id: None,
    })) {
        EventRoute::Respond { code, message } => {
            assert_eq!(code, ResponseCode::InvalidArgument);
            assert_eq!(message, "Delete event requires non-empty server_msg_id");
        }
        other => panic!("unexpected route {other:?}"),
    }
}

#[test]
fn delete_type_two_is_hard_and_notifies_by_default() {
    match route(Some(ExecutePayload::Delete {
        server_msg_id: "m1".to_string(),
        delete_type: Some(2),
        scope: Some(1),
        reason: Some("spam".to_string()),
        notify_others: None,
        target_user_id: Some(String::new()),
    })) {
        EventRoute::Execute(OperationCommand::Delete {
            message_ids, delete_type, scope, notify_others, target_user_id, hard_delete, ..
        }) => {
            assert_eq!(message_ids, vec!["m1".to_string()]);
            assert_eq!(delete_type, DeleteKind::Hard);
            assert_eq!(scope, Some(1));
            assert!(notify_others);
            assert!(target_user_id.is_none());
            assert!(hard_delete);
        }
        other => panic!("unexpected route {other:?}"),
    }
    match route(Some(ExecutePayload::Delete {
        server_msg_id: "m1".to_string(),
        delete_type: Some(1),
        scope: None,
        reason: None,
        notify_others: Some(false),
        target_user_id: Some("u9".to_string()),
    })) {
        EventRoute::Execute(OperationCommand::Delete { delete_type, notify_others, target_user_id, hard_delete, .. }) => {
            assert_eq!(delete_type, DeleteKind::Soft);
            assert!(!notify_others);
            assert_eq!(target_user_id.as_deref(), Some("u9"));
            assert!(!hard_delete);
        }
        other => panic!("unexpected route {other:?}"),
    }
}

#[test]
fn reactions_add_on_action_one_only() {
    let add = route(Some(ExecutePayload::Reaction { server_msg_id: "m".to_string(), emoji: ":)".to_string(), action: 1 }));
    assert!(matches!(add, EventRoute::Execute(OperationCommand::AddReaction { .. })));
    let remove = route(Some(ExecutePayload::Reaction { server_msg_id: "m".to_string(), emoji: ":)".to_string(), action: 2 }));
    assert!(matches!(remove, EventRoute::Execute(OperationCommand::RemoveReaction { .. })));
}

#[test]
fn read_keeps_a_valid_time_and_its_own_conversation() {
    let at = Timestamp { seconds: 1_700_000_000, nanos: 5 };
    match route(Some(ExecutePayload::Read {
        conversation_id: "other".to_string(),
        message_ids: vec!["m1".to_string()],
        read_at: Some(at),
    })) {
        EventRoute::Execute(OperationCommand::BatchMarkRead { conversation_id, user_id, message_ids, read_at, tenant_id }) => {
            assert_eq!(conversation_id, "other");
            assert_eq!(user_id, "op");
            assert_eq!(message_ids, vec!["m1".to_string()]);
            assert_eq!(read_at, at);
            assert_eq!(tenant_id, "t1");
        }
        other => panic!("unexpected route {other:?}"),
    }
}

#[test]
fn read_with_invalid_time_is_stamped_now() {
    let bad = Timestamp { seconds: 1, nanos: -1 };
    match route(Some(ExecutePayload::Read { conversation_id: "c".to_string(), message_ids: vec![], read_at: Some(bad) })) {
        EventRoute::Execute(OperationCommand::BatchMarkRead { read_at, .. }) => {
            assert_ne!(read_at, bad);
            assert!(read_at.seconds > 1_600_000_000);
        }
        other => panic!("unexpected route {other:?}"),
    }
}

#[test]
fn pin_and_mark_drop_empty_texts() {
    match route(Some(ExecutePayload::Pin {
        server_msg_id: "m".to_string(),
        reason: Some(String::new()),
        expire_at: Some(Timestamp { seconds: 0, nanos: 2_000_000_000 }),
    })) {
        EventRoute::Execute(OperationCommand::Pin { reason, expire_at, .. }) => {
            assert!(reason.is_none());
            assert!(expire_at.is_none());
        }
        other => panic!("unexpected route {other:?}"),
    }
    match route(Some(ExecutePayload::Mark { server_msg_id: "m".to_string(), mark_type: 3, color: String::new() })) {
        EventRoute::Execute(OperationCommand::Mark { color, mark_type, user_id, .. }) => {
            assert!(color.is_none());
            assert_eq!(mark_type, 3);
            assert_eq!(user_id, "op");
        }
        other => panic!("unexpected route {other:?}"),
    }
}

#[test]
fn typing_is_acknowledged_and_unknown_payloads_are_unsupported() {
    match route(Some(ExecutePayload::Typing)) {
        EventRoute::Respond { code, message } => {
            assert_eq!(code, ResponseCode::Success);
            assert!(message.is_empty());
        }
        other => panic!("unexpected route {other:?}"),
    }
    for p in [None, Some(ExecutePayload::Other)] {
        match route(p) {
            EventRoute::Respond { code, message } => {
                assert_eq!(code, ResponseCode::UnsupportedOperation);
                assert_eq!(message, "Unsupported event type or missing payload");
            }
            other => panic!("unexpected route {other:?}"),
        }
    }
}

fn chrono_accepts(seconds: i64, nanos: i32) -> bool {
    chrono::DateTime::from_timestamp(seconds, nanos as u32).is_some()
}

#[test]
fn representable_timestamps_agree_with_chrono() {
    let cases: Vec<(i64, i32)> = vec![
        (0, 0),
        (1_700_000_000, 999_999_999),
        (59, 1_500_000_000),
        (58, 1_500_000_000),
        (-1, 1_000_000_000),
        (-61, 1_999_999_999),
        (-2, 1_000_000_000),
        (0, -1),
        (0, 2_000_000_000),
        (MAX_TIMESTAMP_SECONDS, 0),
        (MAX_TIMESTAMP_SECONDS + 1, 0),
        (MIN_TIMESTAMP_SECONDS, 0),
        (MIN_TIMESTAMP_SECONDS - 1, 0),
        (i64::MAX, 0),
        (i64::MIN, 0),
    ];
    for (seconds, nanos) in cases {
        assert_eq!(
            is_representable(Timestamp { seconds, nanos }),
            chrono_accepts(seconds, nanos),
            "at {seconds}s {nanos}ns"
        );
    }
    assert!(is_representable(Timestamp { seconds: MAX_TIMESTAMP_SECONDS, nanos: 0 }));
    assert!(!is_representable(Timestamp { seconds: MAX_TIMESTAMP_SECONDS + 1, nanos: 0 }));
    assert!(is_representable(Timestamp { seconds: MIN_TIMESTAMP_SECONDS, nanos: 0 }));
    assert!(!is_representable(Timestamp { seconds: MIN_TIMESTAMP_SECONDS - 1, nanos: 0 }));
}
