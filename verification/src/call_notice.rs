//! Notices for the end states of calls.
//!
//! A terminal `EVENT_CALL_SIGNAL` (reject, busy, hangup) becomes a
//! notification message that is stored and synced like any other message;
//! negotiation steps (invite, accept, ringing, ICE, ...) produce none.
use vstd::prelude::*;
use vstd::string::*;
use crate::text::{
    trimmed, blank, trim, is_blank, chars_of, trim_ascii_lower, ascii_lower_seq, chars_eq, decimal,
    u64_to_string, u64_decimal_chars, string_from_chars, str_eq, is_literal,
};
use crate::field_map::FieldMap;
use crate::model::{
    CallSignal, CallSignalEvent, CallHangup, ConversationType, Event, EventPayload, MessageSource, MessageStatus,
    CALL_MEDIA_TYPE_VIDEO,
};
use crate::hook::MessageTypeCode;

verus! {

// ---------------------------------------------------------------------------
// Labels
// ---------------------------------------------------------------------------

/// The label of a hangup reason code (empty for unknown codes).
pub open spec fn reason_code_label(raw: Option<i32>) -> Seq<char> {
    let c = match raw {
        Some(v) => v,
        None => 0,
    };
    if c == 1 {
        "user_hangup"@
    } else if c == 2 {
        "rejected"@
    } else if c == 3 {
        "cancelled"@
    } else if c == 4 {
        "no_answer_timeout"@
    } else if c == 5 {
        "busy"@
    } else if c == 6 {
        "failed"@
    } else {
        Seq::empty()
    }
}

/// The label of a notice visibility scope (empty for unknown scopes).
pub open spec fn visibility_label(raw: Option<i32>) -> Seq<char> {
    let c = match raw {
        Some(v) => v,
        None => 0,
    };
    if c == 1 {
        "all_participants"@
    } else if c == 2 {
        "self_only"@
    } else {
        Seq::empty()
    }
}

pub fn normalize_reason_code(raw: Option<i32>) -> (r: String)
    ensures
        r@ == reason_code_label(raw),
{
    let c = match raw {
        Some(v) => v,
        None => 0,
    };
    if c == 1 {
        String::from_str("user_hangup")
    } else if c == 2 {
        String::from_str("rejected")
    } else if c == 3 {
        String::from_str("cancelled")
    } else if c == 4 {
        String::from_str("no_answer_timeout")
    } else if c == 5 {
        String::from_str("busy")
    } else if c == 6 {
        String::from_str("failed")
    } else {
        String::new()
    }
}

pub fn normalize_visibility_scope(raw: Option<i32>) -> (r: String)
    ensures
        r@ == visibility_label(raw),
{
    let c = match raw {
        Some(v) => v,
        None => 0,
    };
    if c == 1 {
        String::from_str("all_participants")
    } else if c == 2 {
        String::from_str("self_only")
    } else {
        String::new()
    }
}

/// A machine-style reason: non-empty, only lower-case ASCII letters,
/// digits and `_`.
pub open spec fn machine_reason(s: Seq<char>) -> bool {
    s.len() > 0 && forall|i: int|
        0 <= i < s.len() ==> ('a' <= #[trigger] s[i] <= 'z' || '0' <= s[i] <= '9' || s[i] == '_')
}

pub fn is_machine_reason(reason: &str) -> (r: bool)
    ensures
        r == machine_reason(reason@),
{
    let v = chars_of(reason);
    if v.len() == 0 {
        return false;
    }
    let mut i: usize = 0;
    while i < v.len()
        invariant
            i <= v@.len(),
            v@ == reason@,
            forall|j: int| 0 <= j < i ==> ('a' <= #[trigger] v@[j] <= 'z' || '0' <= v@[j] <= '9' || v@[j] == '_'),
        decreases v@.len() - i,
    {
        let c = v[i];
        if !(('a' <= c && c <= 'z') || ('0' <= c && c <= '9') || c == '_') {
            return false;
        }
        i = i + 1;
    }
    true
}

// ---------------------------------------------------------------------------
// Call mode
// ---------------------------------------------------------------------------

/// The call mode an `ext` map names under `call_mode` (or, when that key is
/// absent, `callMode`), trimmed and lower-cased: `"video"` or `"audio"`.
pub open spec fn mode_from_ext(ext: FieldMap) -> Option<Seq<char>> {
    let raw = match ext.get_spec("call_mode"@) {
        Some(v) => Some(v),
        None => ext.get_spec("callMode"@),
    };
    match raw {
        Some(v) => if ascii_lower_seq(trimmed(v)) == "video"@ {
            Some("video"@)
        } else if ascii_lower_seq(trimmed(v)) == "audio"@ {
            Some("audio"@)
        } else {
            None
        },
        None => None,
    }
}

pub fn infer_mode_from_ext(ext: &FieldMap) -> (r: Option<&'static str>)
    ensures
        match r {
            Some(m) => mode_from_ext(*ext) == Some(m@),
            None => mode_from_ext(*ext) is None,
        },
{
    let raw = match ext.get("call_mode") {
        Some(v) => Some(v),
        None => ext.get("callMode"),
    };
    match raw {
        Some(v) => {
            let lowered = trim_ascii_lower(v.as_str());
            if is_literal(&lowered, "video") {
                Some("video")
            } else if is_literal(&lowered, "audio") {
                Some("audio")
            } else {
                None
            }
        },
        None => None,
    }
}

/// Whether a media type list offers video.
pub open spec fn offers_video(media: Option<Vec<i32>>) -> bool {
    match media {
        Some(types) => types@.contains(CALL_MEDIA_TYPE_VIDEO),
        None => false,
    }
}

fn list_has_video(types: &Vec<i32>) -> (r: bool)
    ensures
        r == types@.contains(CALL_MEDIA_TYPE_VIDEO),
{
    let mut i: usize = 0;
    while i < types.len()
        invariant
            i <= types@.len(),
            forall|j: int| 0 <= j < i ==> types@[j] != CALL_MEDIA_TYPE_VIDEO,
        decreases types@.len() - i,
    {
        if types[i] == CALL_MEDIA_TYPE_VIDEO {
            assert(types@[i as int] == CALL_MEDIA_TYPE_VIDEO);
            return true;
        }
        i = i + 1;
    }
    false
}

pub fn has_video(media: &Option<Vec<i32>>) -> (r: bool)
    ensures
        r == offers_video(*media),
{
    match media {
        Some(types) => list_has_video(types),
        None => false,
    }
}

/// The call's mode: what `ext` names, else video when the invite or accept
/// carries video, else audio.
pub open spec fn call_mode(cs: CallSignalEvent, signal: CallSignal) -> Seq<char> {
    match mode_from_ext(cs.ext) {
        Some(m) => m,
        None => match signal {
            CallSignal::Invite { offered_media } => if offers_video(offered_media) {
                "video"@
            } else {
                "audio"@
            },
            CallSignal::Accept { accepted_media } => if offers_video(accepted_media) {
                "video"@
            } else {
                "audio"@
            },
            _ => "audio"@,
        },
    }
}

pub fn infer_mode(call: &CallSignalEvent, signal: &CallSignal) -> (r: &'static str)
    ensures
        r@ == call_mode(*call, *signal),
{
    if let Some(m) = infer_mode_from_ext(&call.ext) {
        return m;
    }
    match signal {
        CallSignal::Invite { offered_media } => if has_video(offered_media) {
            "video"
        } else {
            "audio"
        },
        CallSignal::Accept { accepted_media } => if has_video(accepted_media) {
            "video"
        } else {
            "audio"
        },
        _ => "audio",
    }
}

// ---------------------------------------------------------------------------
// Durations
// ---------------------------------------------------------------------------

/// A number padded with zeros to at least two digits (`{:02}`).
pub open spec fn two_digits(n: nat) -> Seq<char> {
    if n < 10 {
        seq!['0'] + decimal(n)
    } else {
        decimal(n)
    }
}

/// `mm:ss` of a duration in seconds (negative durations read as 0).
pub open spec fn duration_text(seconds: i32) -> Seq<char> {
    let safe: nat = if seconds > 0 {
        seconds as nat
    } else {
        0
    };
    two_digits(safe / 60) + ":"@ + two_digits(safe % 60)
}

fn push_two_digits(out: &mut String, n: u64)
    ensures
        final(out)@ == old(out)@ + two_digits(n as nat),
{
    let digits = u64_decimal_chars(n);
    if n < 10 {
        out.append("0");
    }
    let s = string_from_chars(&digits);
    out.append(s.as_str());
    proof {
        reveal_strlit("0");
        if n < 10 {
            assert(final(out)@ =~= old(out)@ + two_digits(n as nat));
        }
    }
}

pub fn format_duration(seconds: i32) -> (r: String)
    ensures
        r@ == duration_text(seconds),
{
    let safe: u64 = if seconds > 0 {
        seconds as u64
    } else {
        0
    };
    let mut r = String::new();
    push_two_digits(&mut r, safe / 60);
    r.append(":");
    push_two_digits(&mut r, safe % 60);
    proof {
        assert(r@ =~= duration_text(seconds));
    }
    r
}

// ---------------------------------------------------------------------------
// Notices
// ---------------------------------------------------------------------------

/// Content of a notification message.
#[derive(Debug, Clone)]
pub struct NotificationContent {
    pub title: String,
    pub body: String,
    pub notification_type: String,
    pub data: FieldMap,
    pub persistent: bool,
    pub show_in_list: bool,
    pub show_badge: bool,
    pub play_sound: bool,
    pub notify_all: bool,
}

/// A system notification message about a call.
#[derive(Debug, Clone)]
pub struct CallNoticeMessage {
    pub server_id: String,
    pub client_msg_id: String,
    pub conversation_id: String,
    pub sender_id: String,
    pub source: MessageSource,
    pub seq: u64,
    /// The event's creation time, in milliseconds.
    pub created_at_ms: i64,
    pub conversation_type: ConversationType,
    pub message_type: MessageTypeCode,
    pub channel_id: String,
    pub status: MessageStatus,
    pub notification: NotificationContent,
    pub extra: FieldMap,
}

/// The lengths of the notice's map keys (which tell them apart).
proof fn lemma_notice_keys()
    ensures
        "variant"@.len() == 7,
        "mode"@.len() == 4,
        "callId"@.len() == 6,
        "reasonCode"@.len() == 10,
        "visibilityScope"@.len() == 15,
        "timeoutSeconds"@.len() == 14,
        "durationSeconds"@.len() == 15,
        "durationText"@.len() == 12,
        "visibilityScope"@ != "durationSeconds"@,
        "message_type"@.len() == 12,
        "notification_type"@.len() == 17,
        "event_id"@.len() == 8,
{
    reveal_strlit("variant");
    reveal_strlit("mode");
    reveal_strlit("callId");
    reveal_strlit("reasonCode");
    reveal_strlit("visibilityScope");
    reveal_strlit("timeoutSeconds");
    reveal_strlit("durationSeconds");
    reveal_strlit("durationText");
    reveal_strlit("message_type");
    reveal_strlit("notification_type");
    reveal_strlit("event_id");
    assert("visibilityScope"@[0] != "durationSeconds"@[0]);
}

/// The body of a hangup notice.
pub open spec fn hangup_body(h: CallHangup) -> Seq<char> {
    let reason_code = reason_code_label(h.reason_code);
    let visibility = visibility_label(h.visibility_scope);
    let timeout = match h.timeout_seconds {
        Some(t) => t,
        None => 0,
    };
    if reason_code == "no_answer_timeout"@ && visibility == "self_only"@ {
        let secs: nat = if timeout > 0 {
            timeout as nat
        } else {
            60
        };
        "对方无应答（"@ + decimal(secs) + "s，仅自己可见）"@
    } else if reason_code == "cancelled"@ {
        "通话已取消"@
    } else if reason_code == "rejected"@ {
        "通话已拒绝"@
    } else if reason_code == "busy"@ {
        "对端忙线"@
    } else if reason_code == "failed"@ {
        "通话异常中断"@
    } else if trimmed(h.reason@).len() == 0 || machine_reason(trimmed(h.reason@)) {
        "通话已结束"@
    } else {
        "通话结束："@ + trimmed(h.reason@)
    }
}

/// The body of a hangup notice names the reason code: a cancelled call
/// (code 3) reads 通话已取消, a rejected one (code 2) 通话已拒绝, a busy peer
/// (code 5) 对端忙线 and a failure (code 6) 通话异常中断, whatever the
/// reason text, scope and times.
pub proof fn lemma_hangup_body_names_the_reason(h: CallHangup)
    ensures
        h.reason_code == Some(3i32) ==> notice_body(CallSignal::Hangup(h)) == "通话已取消"@,
        h.reason_code == Some(2i32) ==> notice_body(CallSignal::Hangup(h)) == "通话已拒绝"@,
        h.reason_code == Some(5i32) ==> notice_body(CallSignal::Hangup(h)) == "对端忙线"@,
        h.reason_code == Some(6i32) ==> notice_body(CallSignal::Hangup(h)) == "通话异常中断"@,
        (h.reason_code is None || h.reason_code == Some(1i32)) && trimmed(h.reason@).len() == 0 ==> notice_body(
            CallSignal::Hangup(h),
        ) == "通话已结束"@,
{
    reveal_strlit("no_answer_timeout");
    reveal_strlit("cancelled");
    reveal_strlit("rejected");
    reveal_strlit("busy");
    reveal_strlit("failed");
    reveal_strlit("user_hangup");
    assert("user_hangup"@.len() == 11);
    assert("no_answer_timeout"@.len() == 17 && "cancelled"@.len() == 9 && "rejected"@.len() == 8);
    assert("busy"@.len() == 4 && "failed"@.len() == 6);
}

/// The seq of a notice: the event's `event_seq` when positive, else its `seq`.
pub open spec fn notice_seq(e: Event) -> u64 {
    match e.event_seq {
        Some(s) => if s > 0 {
            s
        } else {
            e.seq
        },
        None => e.seq,
    }
}

/// The id of a notice: `call-signal-notice:` and the event id, or, when the
/// event id is blank, `{conversation}-{seq}-{call}`.
pub open spec fn notice_id(e: Event, cs: CallSignalEvent) -> Seq<char> {
    let key = if blank(e.event_id@) {
        e.conversation_id@ + "-"@ + decimal(notice_seq(e) as nat) + "-"@ + cs.call_id@
    } else {
        e.event_id@
    };
    "call-signal-notice:"@ + key
}

/// The notification data of a notice, by key.
pub open spec fn notice_data(variant: Seq<char>, mode: Seq<char>, cs: CallSignalEvent, h: Option<CallHangup>, k: Seq<char>) -> Option<Seq<char>> {
    if k == "variant"@ {
        Some(variant)
    } else if k == "mode"@ {
        Some(mode)
    } else if k == "callId"@ {
        Some(cs.call_id@)
    } else {
        match h {
            Some(h) => {
                let timeout = match h.timeout_seconds {
                    Some(t) => t,
                    None => 0,
                };
                let duration = match h.duration_seconds {
                    Some(t) => t,
                    None => 0,
                };
                if k == "reasonCode"@ && reason_code_label(h.reason_code).len() > 0 {
                    Some(reason_code_label(h.reason_code))
                } else if k == "visibilityScope"@ && visibility_label(h.visibility_scope).len() > 0 {
                    Some(visibility_label(h.visibility_scope))
                } else if k == "timeoutSeconds"@ && timeout > 0 {
                    Some(decimal(timeout as nat))
                } else if k == "durationSeconds"@ && duration > 0 {
                    Some(decimal(duration as nat))
                } else if k == "durationText"@ && duration > 0 {
                    Some(duration_text(duration))
                } else {
                    None
                }
            },
            None => None,
        }
    }
}

/// The signals a notice is built for, with their variant names.
pub open spec fn notice_variant(signal: CallSignal) -> Option<Seq<char>> {
    match signal {
        CallSignal::Reject { .. } => Some("reject"@),
        CallSignal::Busy => Some("busy"@),
        CallSignal::Hangup(_) => Some("hangup"@),
        _ => None,
    }
}

/// The body of a notice.
pub open spec fn notice_body(signal: CallSignal) -> Seq<char> {
    match signal {
        CallSignal::Reject { .. } => "已拒绝"@,
        CallSignal::Busy => "忙线中"@,
        CallSignal::Hangup(h) => hangup_body(h),
        _ => Seq::empty(),
    }
}

fn insert_str(map: &mut FieldMap, key: &str, value: String)
    ensures
        forall|k: Seq<char>|
            #![trigger final(map).get_spec(k)]
            final(map).get_spec(k) == (if k == key@ {
                Some(value@)
            } else {
                old(map).get_spec(k)
            }),
{
    map.insert(String::from_str(key), value);
}

fn i32_to_string(n: i32) -> (r: String)
    requires
        n > 0,
    ensures
        r@ == decimal(n as nat),
{
    u64_to_string(n as u64)
}

fn hangup_body_text(h: &CallHangup) -> (r: String)
    ensures
        r@ == hangup_body(*h),
{
    let reason_code = normalize_reason_code(h.reason_code);
    let visibility = normalize_visibility_scope(h.visibility_scope);
    let timeout = match h.timeout_seconds {
        Some(t) => t,
        None => 0,
    };
    if str_eq(reason_code.as_str(), "no_answer_timeout") && str_eq(visibility.as_str(), "self_only") {
        let secs: u64 = if timeout > 0 {
            timeout as u64
        } else {
            60
        };
        let mut body = String::from_str("对方无应答（");
        let n = u64_to_string(secs);
        body.append(n.as_str());
        body.append("s，仅自己可见）");
        body
    } else if str_eq(reason_code.as_str(), "cancelled") {
        String::from_str("通话已取消")
    } else if str_eq(reason_code.as_str(), "rejected") {
        String::from_str("通话已拒绝")
    } else if str_eq(reason_code.as_str(), "busy") {
        String::from_str("对端忙线")
    } else if str_eq(reason_code.as_str(), "failed") {
        String::from_str("通话异常中断")
    } else {
        let reason = trim(h.reason.as_str());
        if reason.unicode_len() == 0 || is_machine_reason(reason.as_str()) {
            String::from_str("通话已结束")
        } else {
            let mut body = String::from_str("通话结束：");
            body.append(reason.as_str());
            body
        }
    }
}

/// The notice for a terminal call signal: `None` unless the event carries a
/// reject, busy or hangup signal.
pub fn build_call_signal_notice_message(event: &Event) -> (r: Option<CallNoticeMessage>)
    ensures
        match event.payload {
            Some(EventPayload::CallSignal(cs)) => match cs.signal {
                Some(signal) => match notice_variant(signal) {
                    Some(variant) => r matches Some(m) && {
                        &&& m.server_id@ == notice_id(*event, cs)
                        &&& m.client_msg_id@ == notice_id(*event, cs)
                        &&& m.conversation_id@ == event.conversation_id@
                        &&& m.sender_id@ == cs.from_user_id@
                        &&& m.source == MessageSource::System
                        &&& m.seq == notice_seq(*event)
                        &&& m.created_at_ms == event.created_at_ms
                        &&& m.conversation_type == ConversationType::Unspecified
                        &&& m.message_type == MessageTypeCode::Notification
                        &&& m.channel_id@.len() == 0
                        &&& m.status == MessageStatus::Sent
                        &&& m.notification.title@ == "通话"@
                        &&& m.notification.body@ == notice_body(signal)
                        &&& m.notification.notification_type@ == "call_signal"@
                        &&& m.notification.persistent && m.notification.show_in_list
                        &&& !m.notification.show_badge && !m.notification.play_sound && !m.notification.notify_all
                        &&& forall|k: Seq<char>| #[trigger] m.notification.data.get_spec(k) == notice_data(
                            variant,
                            call_mode(cs, signal),
                            cs,
                            match signal {
                                CallSignal::Hangup(h) => Some(h),
                                _ => None,
                            },
                            k,
                        )
                        &&& forall|k: Seq<char>| #[trigger] m.extra.get_spec(k) == (if k == "message_type"@ {
                            Some("notification"@)
                        } else if k == "notification_type"@ {
                            Some("call_signal"@)
                        } else if k == "event_id"@ && !blank(event.event_id@) {
                            Some(event.event_id@)
                        } else {
                            None
                        })
                    },
                    None => r is None,
                },
                None => r is None,
            },
            _ => r is None,
        },
{
    let call = match &event.payload {
        Some(EventPayload::CallSignal(call)) => call,
        _ => {
            return None;
        },
    };
    let signal = match &call.signal {
        Some(s) => s,
        None => {
            return None;
        },
    };
    let mode = infer_mode(call, signal);
    proof {
        lemma_notice_keys();
    }
    let mut data = FieldMap::new();
    let (variant, body): (&str, String) = match signal {
        CallSignal::Reject { .. } => ("reject", String::from_str("已拒绝")),
        CallSignal::Busy => ("busy", String::from_str("忙线中")),
        CallSignal::Hangup(h) => {
            let reason_code = normalize_reason_code(h.reason_code);
            let visibility = normalize_visibility_scope(h.visibility_scope);
            let timeout = match h.timeout_seconds {
                Some(t) => t,
                None => 0,
            };
            let duration = match h.duration_seconds {
                Some(t) => t,
                None => 0,
            };
            if reason_code.unicode_len() > 0 {
                insert_str(&mut data, "reasonCode", reason_code);
            }
            if visibility.unicode_len() > 0 {
                insert_str(&mut data, "visibilityScope", visibility);
            }
            if timeout > 0 {
                insert_str(&mut data, "timeoutSeconds", i32_to_string(timeout));
            }
            if duration > 0 {
                insert_str(&mut data, "durationSeconds", i32_to_string(duration));
                insert_str(&mut data, "durationText", format_duration(duration));
            }
            ("hangup", hangup_body_text(h))
        },
        _ => {
            return None;
        },
    };
    insert_str(&mut data, "variant", String::from_str(variant));
    insert_str(&mut data, "mode", String::from_str(mode));
    insert_str(&mut data, "callId", call.call_id.clone());
    let seq = match event.event_seq {
        Some(s) => if s > 0 {
            s
        } else {
            event.seq
        },
        None => event.seq,
    };
    let mut msg_id = String::from_str("call-signal-notice:");
    if is_blank(event.event_id.as_str()) {
        msg_id.append(event.conversation_id.as_str());
        msg_id.append("-");
        let n = u64_to_string(seq);
        msg_id.append(n.as_str());
        msg_id.append("-");
        msg_id.append(call.call_id.as_str());
    } else {
        msg_id.append(event.event_id.as_str());
    }
    let mut extra = FieldMap::new();
    insert_str(&mut extra, "message_type", String::from_str("notification"));
    insert_str(&mut extra, "notification_type", String::from_str("call_signal"));
    if !is_blank(event.event_id.as_str()) {
        insert_str(&mut extra, "event_id", event.event_id.clone());
    }
    proof {
        lemma_notice_keys();
        assert(msg_id@ =~= notice_id(*event, *call));
    }
    let notification = NotificationContent {
        title: String::from_str("通话"),
        body,
        notification_type: String::from_str("call_signal"),
        data,
        persistent: true,
        show_in_list: true,
        show_badge: false,
        play_sound: false,
        notify_all: false,
    };
    Some(
        CallNoticeMessage {
            server_id: msg_id.clone(),
            client_msg_id: msg_id,
            conversation_id: event.conversation_id.clone(),
            sender_id: call.from_user_id.clone(),
            source: MessageSource::System,
            seq,
            created_at_ms: event.created_at_ms,
            conversation_type: ConversationType::Unspecified,
            message_type: MessageTypeCode::Notification,
            channel_id: String::new(),
            status: MessageStatus::Sent,
            notification,
            extra,
        },
    )
}

} // verus!
