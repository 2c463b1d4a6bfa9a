use flare_orchestrator::fanout::{
    EventFanoutService, FanoutAction, FanoutStage, MessageFanoutService, StepResult,
};
use flare_orchestrator::field_map::FieldMap;
use flare_orchestrator::model::{ConversationType, Message};
use flare_orchestrator::user_sync::UserSyncCompensationKind;

fn message(conversation_type: ConversationType, channel: &str) -> Message {
    Message {
        server_id: "message-a".to_string(),
        client_msg_id: "client-a".to_string(),
        conversation_id: "conversation-a".to_string(),
        sender_id: "sender-a".to_string(),
        channel_id: channel.to_string(),
        conversation_type,
        message_type: 1,
        conversation_seq: 42,
        created_at_ms: 1_700_000_000_000,
        extra: FieldMap::new(),
    }
}

fn run_all(
    svc: &MessageFanoutService,
    msg: Message,
    recipients: Vec<String>,
    large: bool,
    fail_sync: bool,
) -> (Vec<FanoutAction>, String) {
    let (mut run, first) = svc.begin(msg, recipients, large);
    let channel = run.message.channel_id.clone();
    let mut actions = vec![first];
    loop {
        let last = actions.last().unwrap().clone();
        let result = match last {
            FanoutAction::RecordConversationChange { .. } | FanoutAction::RecordConversationVersionBump
                if fail_sync =>
            {
                StepResult::Failed
            }
            _ => StepResult::Succeeded,
        };
        if matches!(last, FanoutAction::Complete | FanoutAction::Abort) {
            break;
        }
        actions.push(svc.advance(&mut run, result));
    }
    (actions, channel)
}

#[test]
fn persistent_message_fanout_writes_storage_before_push() {
    let svc = MessageFanoutService::new().with_user_sync_index();
    let (actions, channel) = run_all(
        &svc,
        message(ConversationType::Single, "stale-peer"),
        vec!["peer-b".to_string()],
        false,
        false,
    );
    assert_eq!(channel, "peer-b");
    assert_eq!(
        actions,
        vec![
            FanoutAction::Store,
            FanoutAction::RecordConversationChange { user_ids: vec!["peer-b".to_string()] },
            FanoutAction::PushInline { recipients: vec!["peer-b".to_string()] },
            FanoutAction::Complete,
        ]
    );
}

#[test]
fn large_conversation_fanout_uses_inline_event() {
    let svc = MessageFanoutService::new().with_user_sync_index();
    let (actions, channel) = run_all(
        &svc,
        message(ConversationType::Group, "room"),
        vec!["u1".to_string(), "u2".to_string()],
        true,
        false,
    );
    assert_eq!(channel, "room");
    assert_eq!(
        actions,
        vec![
            FanoutAction::Store,
            FanoutAction::RecordConversationVersionBump,
            FanoutAction::PushInline { recipients: vec!["u1".to_string(), "u2".to_string()] },
            FanoutAction::Complete,
        ]
    );
}

#[test]
fn inline_push_kill_switch_uses_notify_pull_ping_for_small_conversation() {
    let svc = MessageFanoutService::new().with_user_sync_index().with_inline_message_push_enabled(false);
    let (actions, _) = run_all(
        &svc,
        message(ConversationType::Single, "peer-b"),
        vec!["peer-b".to_string()],
        false,
        false,
    );
    assert_eq!(
        actions,
        vec![
            FanoutAction::Store,
            FanoutAction::RecordConversationChange { user_ids: vec!["peer-b".to_string()] },
            FanoutAction::PushPing { recipients: vec!["peer-b".to_string()], large_conversation: false },
            FanoutAction::Complete,
        ]
    );
}

#[test]
fn user_sync_failure_does_not_block_large_conversation_fanout() {
    let svc = MessageFanoutService::new().with_user_sync_index().with_user_sync_compensation();
    let (actions, _) = run_all(
        &svc,
        message(ConversationType::Group, "room"),
        vec!["u1".to_string(), "u2".to_string()],
        true,
        true,
    );
    assert_eq!(
        actions,
        vec![
            FanoutAction::Store,
            FanoutAction::RecordConversationVersionBump,
            FanoutAction::EnqueueCompensation {
                kind: UserSyncCompensationKind::ConversationVersionBump,
                user_ids: Vec::new(),
            },
            FanoutAction::PushInline { recipients: vec!["u1".to_string(), "u2".to_string()] },
            FanoutAction::Complete,
        ]
    );
}

#[test]
fn large_conversation_ping_names_no_recipients() {
    let svc = MessageFanoutService::new().with_inline_message_push_enabled(false);
    let (actions, _) = run_all(&svc, message(ConversationType::Group, "room"), vec!["u1".to_string()], true, false);
    assert_eq!(
        actions,
        vec![
            FanoutAction::Store,
            FanoutAction::PushPing { recipients: Vec::new(), large_conversation: true },
            FanoutAction::Complete,
        ]
    );
}

#[test]
fn failed_store_aborts_before_any_push() {
    let svc = MessageFanoutService::new().with_user_sync_index();
    let (mut run, first) = svc.begin(message(ConversationType::Group, "room"), vec!["u1".to_string()], false);
    assert_eq!(first, FanoutAction::Store);
    assert_eq!(svc.advance(&mut run, StepResult::Failed), FanoutAction::Abort);
    assert_eq!(run.stage, FanoutStage::Done);
    assert_eq!(svc.advance(&mut run, StepResult::Succeeded), FanoutAction::Complete);
}

#[test]
fn small_conversation_sync_failure_is_compensated_with_recipients() {
    let svc = MessageFanoutService::new().with_user_sync_index().with_user_sync_compensation();
    let (actions, _) = run_all(&svc, message(ConversationType::Group, "room"), vec!["u1".to_string()], false, true);
    assert_eq!(
        actions[2],
        FanoutAction::EnqueueCompensation {
            kind: UserSyncCompensationKind::EagerUserChanges,
            user_ids: vec!["u1".to_string()],
        }
    );
    assert_eq!(actions[3], FanoutAction::PushInline { recipients: vec!["u1".to_string()] });
}

#[test]
fn event_fanout_stores_syncs_and_pushes() {
    let svc = EventFanoutService::new().with_user_sync_index().with_user_sync_compensation();
    let (mut run, first) = svc.begin(vec!["u1".to_string()]);
    assert_eq!(first, FanoutAction::Store);
    assert_eq!(
        svc.advance(&mut run, StepResult::Succeeded),
        FanoutAction::RecordConversationChange { user_ids: vec!["u1".to_string()] }
    );
    assert_eq!(
        svc.advance(&mut run, StepResult::Failed),
        FanoutAction::EnqueueCompensation {
            kind: UserSyncCompensationKind::EagerUserChanges,
            user_ids: vec!["u1".to_string()],
        }
    );
    assert_eq!(
        svc.advance(&mut run, StepResult::Failed),
        FanoutAction::PushInline { recipients: vec!["u1".to_string()] }
    );
    assert_eq!(svc.advance(&mut run, StepResult::Failed), FanoutAction::Abort);
}
