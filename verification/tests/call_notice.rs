use flare_orchestrator::call_notice::{
    build_call_signal_notice_message, format_duration, infer_mode_from_ext, is_machine_reason,
    normalize_reason_code, normalize_visibility_scope,
};
use flare_orchestrator::field_map::FieldMap;
use flare_orchestrator::hook::MessageTypeCode;
use flare_orchestrator::model::{
    CallHangup, CallSessionKind, CallSignal, CallSignalEvent, Event, EventPayload, EventType,
    EventTypeCode, ConversationType, MessageSource, MessageStatus,
};

fn make_call(signal: CallSignal) -> CallSignalEvent {
    CallSignalEvent {
        call_id: "call-1".to_string(),
        conversation_id: "c1".to_string(),
        from_user_id: "u2".to_string(),
        ext: FieldMap::new(),
        signal: Some(signal),
        media_session_kind: CallSessionKind::Unspecified,
        audience: None,
        transport: None,
    }
}

fn make_event(signal: CallSignal) -> Event {
    Event {
        event_id: "evt-1".to_string(),
        conversation_id: "c1".to_string(),
        event_type: EventTypeCode::Known(EventType::CallSignal),
        seq: 9,
        event_seq: None,
        conversation_seq: 0,
        created_at_ms: 0,
        request_id: None,
        payload: Some(EventPayload::CallSignal(make_call(signal))),
    }
}

fn hangup() -> CallHangup {
    CallHangup {
        reason: String::new(),
        reason_code: None,
        visibility_scope: None,
        timeout_seconds: None,
        duration_seconds: None,
        close_room_if_vacant: None,
    }
}

#[test]
fn invite_should_not_build_notice_message() {
    let ev = make_event(CallSignal::Invite { offered_media: None });
    assert!(build_call_signal_notice_message(&ev).is_none());
}

#[test]
fn reject_should_build_notice_message() {
    let ev = make_event(CallSignal::Reject { reason: "reject".to_string(), code: 0 });
    let msg = build_call_signal_notice_message(&ev).expect("reject should build");
    assert_eq!(msg.message_type, MessageTypeCode::Notification);
    assert_eq!(msg.extra.get("notification_type").map(String::as_str), Some("call_signal"));
}

#[test]
fn hangup_with_duration_should_include_duration_text() {
    let ev = make_event(CallSignal::Hangup(CallHangup {
        reason: "normal".to_string(),
        duration_seconds: Some(125),
        reason_code: Some(1),
        ..hangup()
    }));
    let msg = build_call_signal_notice_message(&ev).expect("hangup should build");
    let n = msg.notification;
    assert_eq!(n.notification_type, "call_signal");
    assert_eq!(n.data.get("durationText").map(String::as_str), Some("02:05"));
}

#[test]
fn hangup_reason_and_visibility_rules_should_match_product_expectation() {
    let cases = vec![
        (
            "failed_reason_code_should_show_abnormal_break",
            CallHangup { reason_code: Some(6), reason: String::new(), ..hangup() },
            "通话异常中断",
        ),
        (
            "self_only_no_answer_should_show_timeout_hint",
            CallHangup {
                reason_code: Some(4),
                visibility_scope: Some(2),
                timeout_seconds: Some(45),
                ..hangup()
            },
            "对方无应答（45s，仅自己可见）",
        ),
        (
            "human_reason_should_be_exposed",
            CallHangup { reason_code: None, reason: "网络切换导致断开".to_string(), ..hangup() },
            "通话结束：网络切换导致断开",
        ),
        (
            "machine_reason_should_be_hidden",
            CallHangup { reason_code: None, reason: "user_hangup".to_string(), ..hangup() },
            "通话已结束",
        ),
    ];

    for (name, h, expected_body) in cases {
        let ev = make_event(CallSignal::Hangup(h));
        let msg = build_call_signal_notice_message(&ev).expect(name);
        let n = msg.notification;
        assert_eq!(n.body, expected_body, "{name}");
        assert_eq!(n.data.get("variant").map(String::as_str), Some("hangup"), "{name}");
    }
}

#[test]
fn hangup_with_call_mode_ext_should_keep_video_mode() {
    let mut ev = make_event(CallSignal::Hangup(CallHangup {
        reason_code: Some(1),
        duration_seconds: Some(10),
        ..hangup()
    }));
    if let Some(EventPayload::CallSignal(call)) = ev.payload.as_mut() {
        call.ext.insert("call_mode".to_string(), "video".to_string());
    }
    let msg = build_call_signal_notice_message(&ev).expect("hangup should build");
    assert_eq!(msg.notification.data.get("mode").map(String::as_str), Some("video"));
}

#[test]
fn notice_ids_and_headers() {
    let ev = make_event(CallSignal::Busy);
    let msg = build_call_signal_notice_message(&ev).expect("busy should build");
    assert_eq!(msg.server_id, "call-signal-notice:evt-1");
    assert_eq!(msg.client_msg_id, "call-signal-notice:evt-1");
    assert_eq!(msg.seq, 9);
    assert_eq!(msg.sender_id, "u2");
    assert_eq!(msg.notification.body, "忙线中");
    assert_eq!(msg.notification.title, "通话");
    assert_eq!(msg.notification.data.get("mode").map(String::as_str), Some("audio"));
    assert_eq!(msg.extra.get("event_id").map(String::as_str), Some("evt-1"));

    let mut anonymous = make_event(CallSignal::Busy);
    anonymous.event_id = " ".to_string();
    anonymous.event_seq = Some(12);
    let msg = build_call_signal_notice_message(&anonymous).expect("busy should build");
    assert_eq!(msg.server_id, "call-signal-notice:c1-12-call-1");
    assert!(msg.extra.get("event_id").is_none());
}

#[test]
fn duration_and_labels() {
    assert_eq!(format_duration(125), "02:05");
    assert_eq!(format_duration(3725), "62:05");
    assert_eq!(format_duration(-3), "00:00");
    assert_eq!(format_duration(0), "00:00");
    assert_eq!(normalize_reason_code(Some(6)), "failed");
    assert_eq!(normalize_reason_code(None), "");
    assert_eq!(normalize_visibility_scope(Some(2)), "self_only");
    assert!(is_machine_reason("user_hangup"));
    assert!(!is_machine_reason("User hangup"));
    assert!(!is_machine_reason(""));
    let mut ext = FieldMap::new();
    ext.insert("callMode".to_string(), " VIDEO ".to_string());
    assert_eq!(infer_mode_from_ext(&ext), Some("video"));
}

#[test]
fn notice_is_a_sent_system_notification_at_the_event_time() {
    let mut ev = make_event(CallSignal::Busy);
    ev.created_at_ms = 1_700_000_000_123;
    let msg = build_call_signal_notice_message(&ev).expect("busy should build");
    assert_eq!(msg.source, MessageSource::System);
    assert_eq!(msg.status, MessageStatus::Sent);
    assert_eq!(msg.message_type, MessageTypeCode::Notification);
    assert_eq!(msg.created_at_ms, 1_700_000_000_123);
    assert_eq!(msg.conversation_type, ConversationType::Unspecified);
    assert!(msg.channel_id.is_empty());
    assert_eq!(msg.extra.get("message_type").map(String::as_str), Some("notification"));
}
