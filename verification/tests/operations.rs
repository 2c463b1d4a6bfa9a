use flare_orchestrator::field_map::FieldMap;
use flare_orchestrator::repository::{NoopMessageRepository, NoopWalRepository};
use flare_orchestrator::text::parse_i32;
use flare_orchestrator::event_route::DeleteKind;
use flare_orchestrator::model::EventType;
use flare_orchestrator::operations::{
    authorize_delete, authorize_recall, delete_targets, delete_type_label, plan_edit,
    require_known_message, stream_seq, clock_seq, DeleteMessageCommand, DeleteScope, EditMessageCommand, ErrorCode,
    EventBuilder, MarkMessageCommand, MessageOperationErrorBuilder, MessageOperationErrorCode,
    OperationBase, OperationError, OperationEventPayload, ReactionCommand, ReadMessageCommand,
    RecallMessageCommand, StoredMessage, UnmarkMessageCommand,
};

fn base(message_id: &str, conversation_id: &str, operator: &str) -> OperationBase {
    OperationBase {
        message_id: message_id.to_string(),
        conversation_id: conversation_id.to_string(),
        operator_id: operator.to_string(),
        tenant_id: "t".to_string(),
    }
}

fn stored(sender: &str, version: i32) -> StoredMessage {
    StoredMessage {
        server_id: "srv-1".to_string(),
        conversation_id: "conv-stored".to_string(),
        sender_id: sender.to_string(),
        edit_version: version,
    }
}

fn params(e: &OperationError) -> Vec<(String, String)> {
    e.params.clone()
}

#[test]
fn error_codes_map_to_general_codes() {
    assert_eq!(MessageOperationErrorCode::MessageNotFound.to_error_code(), ErrorCode::MessageNotFound);
    assert_eq!(MessageOperationErrorCode::PermissionDenied.to_error_code(), ErrorCode::PermissionDenied);
    assert_eq!(MessageOperationErrorCode::RecallTimeout.to_error_code(), ErrorCode::OperationFailed);
    assert_eq!(MessageOperationErrorCode::InvalidStateTransition.to_error_code(), ErrorCode::InvalidParameter);
    assert_eq!(MessageOperationErrorCode::InvalidOperationParameter.to_error_code(), ErrorCode::InvalidParameter);
}

#[test]
fn error_builder_messages() {
    let e = MessageOperationErrorBuilder::invalid_state_transition("SENT", "RECALLED");
    assert_eq!(e.code, ErrorCode::InvalidParameter);
    assert_eq!(e.message, "Invalid state transition from SENT to RECALLED");
    assert_eq!(
        params(&e),
        vec![("from_state".to_string(), "SENT".to_string()), ("to_state".to_string(), "RECALLED".to_string())]
    );
    let e = MessageOperationErrorBuilder::recall_timeout("m1");
    assert_eq!(e.code, ErrorCode::OperationFailed);
    assert_eq!(e.message, "Message recall timeout");
    let e = MessageOperationErrorBuilder::message_not_found("m1");
    assert_eq!(params(&e), vec![("message_id".to_string(), "m1".to_string())]);
}

#[test]
fn recall_needs_sender_or_admin() {
    let b = base("m1", "c1", "u1");
    assert!(authorize_recall(Some(&stored("u1", 0)), &b, false, false).is_ok());
    let e = authorize_recall(Some(&stored("u2", 0)), &b, false, true).unwrap_err();
    assert_eq!(e.code, ErrorCode::PermissionDenied);
    assert_eq!(
        params(&e),
        vec![("operation".to_string(), "recall".to_string()), ("user_id".to_string(), "u1".to_string())]
    );
    assert!(authorize_recall(Some(&stored("u2", 0)), &b, true, false).is_ok());
    assert!(authorize_recall(None, &b, false, true).is_ok());
    assert_eq!(authorize_recall(None, &b, false, false).unwrap_err().code, ErrorCode::MessageNotFound);
    assert_eq!(authorize_recall(None, &base("m1", "", "u1"), false, true).unwrap_err().code, ErrorCode::MessageNotFound);
}

#[test]
fn edit_plans_the_next_version_on_the_stored_message() {
    let b = base("m-client", "", "u1");
    let p = plan_edit(Some(&stored("u1", 2)), &b, false, false, true).expect("edit allowed");
    assert_eq!(p.conversation_id, "conv-stored");
    assert_eq!(p.message_id, "srv-1");
    assert_eq!(p.edit_version, 3);
    let p = plan_edit(None, &base("m1", "c1", "u1"), false, true, true).expect("edit allowed");
    assert_eq!(p.message_id, "m1");
    assert_eq!(p.edit_version, 1);
    let e = plan_edit(None, &b, false, false, true).unwrap_err();
    assert_eq!(e.code, ErrorCode::InternalError);
    let e = plan_edit(Some(&stored("u2", 0)), &b, false, false, true).unwrap_err();
    assert_eq!(e.code, ErrorCode::PermissionDenied);
    let e = plan_edit(Some(&stored("u1", 0)), &b, false, false, false).unwrap_err();
    assert_eq!(e.code, ErrorCode::InvalidParameter);
    assert_eq!(e.message, "Only text or structured message content is editable");
}

fn delete_cmd(ids: Vec<String>) -> DeleteMessageCommand {
    DeleteMessageCommand {
        base: base("m1", "c1", "u1"),
        message_ids: ids,
        delete_type: DeleteKind::Soft,
        delete_scope: DeleteScope::ConversationGlobal,
        reason: None,
        notify_others: true,
        target_user_id: None,
        allow_admin_override: false,
    }
}

#[test]
fn deletion_rules() {
    let b = base("m1", "", "u1");
    assert_eq!(authorize_delete(DeleteKind::Hard, false, &b).unwrap_err().code, ErrorCode::PermissionDenied);
    assert!(authorize_delete(DeleteKind::Hard, true, &b).is_ok());
    assert!(authorize_delete(DeleteKind::Soft, false, &b).is_ok());
    assert_eq!(require_known_message(false, &b).unwrap_err().code, ErrorCode::MessageNotFound);
    assert!(require_known_message(true, &b).is_ok());
    assert!(require_known_message(false, &base("m1", "c1", "u1")).is_ok());
    assert_eq!(delete_targets(&delete_cmd(vec![])), vec!["m1".to_string()]);
    assert_eq!(delete_targets(&delete_cmd(vec!["a".to_string(), "b".to_string()])), vec!["a".to_string(), "b".to_string()]);
    assert_eq!(delete_type_label(DeleteKind::Hard), "HARD");
    assert_eq!(delete_type_label(DeleteKind::Soft), "SOFT");
}

#[test]
fn event_builder_ids_and_payloads() {
    let recall = RecallMessageCommand {
        base: base("m1", "c1", "u1"),
        reason: None,
        time_limit_seconds: Some(30),
        allow_admin_override: true,
    };
    let e = EventBuilder::recall(&recall, 7);
    assert_eq!(e.event_id, "c1:7");
    assert_eq!(e.seq, 7);
    assert_eq!(e.event_type, EventType::MessageRecall);
    match e.payload {
        OperationEventPayload::Recall { server_msg_id, reason, time_limit_seconds, allow_admin_recall } => {
            assert_eq!(server_msg_id, "m1");
            assert_eq!(reason, "");
            assert_eq!(time_limit_seconds, Some(30));
            assert_eq!(allow_admin_recall, Some(true));
        }
        other => panic!("unexpected payload {other:?}"),
    }
    let edit = EditMessageCommand {
        base: base("m1", "c1", "u1"),
        new_content: vec![1, 2, 3],
        reason: Some("typo".to_string()),
        allow_admin_override: false,
    };
    match EventBuilder::edit(&edit, 8).payload {
        OperationEventPayload::Edit { new_content, edit_version, reason, show_edited_mark, .. } => {
            assert_eq!(new_content, vec![1, 2, 3]);
            assert_eq!(edit_version, 0);
            assert_eq!(reason, "typo");
            assert!(show_edited_mark);
        }
        other => panic!("unexpected payload {other:?}"),
    }
    let mut del = delete_cmd(vec![]);
    del.delete_type = DeleteKind::Hard;
    del.delete_scope = DeleteScope::UserPrivate;
    let e = EventBuilder::delete_one("m9", &del, 18446744073709551615);
    assert_eq!(e.event_id, "c1:18446744073709551615");
    match e.payload {
        OperationEventPayload::Delete { server_msg_id, delete_type, scope, notify_others, .. } => {
            assert_eq!(server_msg_id, "m9");
            assert_eq!(delete_type, Some(2));
            assert_eq!(scope, Some(1));
            assert_eq!(notify_others, Some(true));
        }
        other => panic!("unexpected payload {other:?}"),
    }
    let react = ReactionCommand { base: base("m1", "c1", "u1"), emoji: "+1".to_string() };
    assert!(matches!(EventBuilder::reaction_add(&react, 1).payload, OperationEventPayload::Reaction { action: 1, .. }));
    assert!(matches!(EventBuilder::reaction_remove(&react, 1).payload, OperationEventPayload::Reaction { action: 2, .. }));
    let unmark = UnmarkMessageCommand { base: base("m1", "c1", "u1"), user_id: "u5".to_string(), mark_type: None };
    match EventBuilder::unmark(&unmark, 2).payload {
        OperationEventPayload::Unmark { user_id, mark_type, .. } => {
            assert_eq!(user_id, "u5");
            assert_eq!(mark_type, 0);
        }
        other => panic!("unexpected payload {other:?}"),
    }
    let mark = MarkMessageCommand { base: base("m1", "c1", "u1"), mark_type: 4 };
    assert!(matches!(EventBuilder::mark(&mark, 3).payload, OperationEventPayload::Mark { mark_type: 4, .. }));
    let read = ReadMessageCommand {
        base: base("", "c1", "u1"),
        message_ids: vec!["m1".to_string()],
        read_at: None,
        burn_after_read: false,
    };
    match EventBuilder::read(&read, 4).payload {
        OperationEventPayload::Read { user_id, read_at, burn_after_read, .. } => {
            assert_eq!(user_id, "u1");
            assert!(read_at.seconds > 1_600_000_000);
            assert_eq!(burn_after_read, Some(false));
        }
        other => panic!("unexpected payload {other:?}"),
    }
}

#[test]
fn stream_seq_falls_back_to_degraded_then_clock() {
    assert_eq!(stream_seq(Some(5), Some(9)), 5);
    assert_eq!(stream_seq(None, Some(9)), 9);
    assert!(stream_seq(None, None) > 1_600_000_000);
}

#[test]
fn stored_message_reads_edit_version_from_extras() {
    let mut extra = FieldMap::new();
    let m = StoredMessage::from_record("s1".to_string(), "c1".to_string(), "u1".to_string(), &extra);
    assert_eq!(m.edit_version, 0);
    assert_eq!(m.server_id, "s1");
    assert_eq!(m.conversation_id, "c1");
    assert_eq!(m.sender_id, "u1");
    extra.insert("current_edit_version".to_string(), "3".to_string());
    let m = StoredMessage::from_record("s1".to_string(), "c1".to_string(), "u1".to_string(), &extra);
    assert_eq!(m.edit_version, 3);
    extra.insert("current_edit_version".to_string(), "x".to_string());
    let m = StoredMessage::from_record("s1".to_string(), "c1".to_string(), "u1".to_string(), &extra);
    assert_eq!(m.edit_version, 0);
    extra.insert("current_edit_version".to_string(), "2147483648".to_string());
    let m = StoredMessage::from_record("s1".to_string(), "c1".to_string(), "u1".to_string(), &extra);
    assert_eq!(m.edit_version, 0);
}

#[test]
fn parse_i32_accepts_what_from_str_accepts() {
    assert_eq!(parse_i32("-2147483648"), Some(i32::MIN));
    assert_eq!(parse_i32("+17"), Some(17));
    assert_eq!(parse_i32("2147483648"), None);
    assert_eq!(parse_i32(""), None);
    assert_eq!(parse_i32("-"), None);
}

#[test]
fn noop_stores_find_nothing_and_accept_writes() {
    let repo = NoopMessageRepository;
    assert!(repo.find_by_id("m").is_none());
    let page = repo.page_server_ids_in_conversation("c", 20, Some("x"));
    assert!(page.server_ids.is_empty());
    assert!(page.next_cursor.is_empty());
    assert!(!page.has_more);
    let wal = NoopWalRepository;
    assert!(wal.append("m", "t").is_ok());
    assert!(wal.find_by_message_id("m").is_none());
    assert!(wal.list_pending(10).is_empty());
    assert!(wal.remove("m").is_ok());
}

#[test]
fn clock_seq_is_whole_seconds_or_zero() {
    assert_eq!(clock_seq(1_700_000_000), 1_700_000_000);
    assert_eq!(clock_seq(0), 0);
    assert_eq!(clock_seq(-5), 0);
}
