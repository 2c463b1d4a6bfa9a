//! The protocol enumerations the orchestration logic branches on.
//!
//! Wire messages carry these as integers; a code that names no variant is
//! represented by `None` where the logic distinguishes it.
use vstd::prelude::*;
use crate::field_map::FieldMap;

verus! {

/// Kind of an event on the event stream.
#[derive(Debug, Clone, Copy, PartialEq, Eq, Structural)]
pub enum EventType {
    Unspecified,
    Message,
    MessageRecall,
    MessageEdit,
    MessageDelete,
    ReadReceipt,
    Typing,
    ConversationUpdate,
    ConversationDelete,
    Presence,
    CallSignal,
    Reaction,
    Pin,
    Unpin,
    Mark,
    Unmark,
    Custom,
}

/// The type code of an event: a known event type, or a code naming none.
#[derive(Debug, Clone, Copy, PartialEq, Eq, Structural)]
pub enum EventTypeCode {
    Known(EventType),
    Unrecognized(i32),
}

impl EventTypeCode {
    /// The event type, when the code names one.
    pub open spec fn known(self) -> Option<EventType> {
        match self {
            EventTypeCode::Known(t) => Some(t),
            EventTypeCode::Unrecognized(_) => None,
        }
    }
}

/// Kind of a conversation.
#[derive(Debug, Clone, Copy, PartialEq, Eq, Structural)]
pub enum ConversationType {
    Unspecified,
    Single,
    Group,
    Channel,
}

impl ConversationType {
    /// Label used in hook contexts and message metadata.
    pub open spec fn label_spec(self) -> Seq<char> {
        match self {
            ConversationType::Single => "single"@,
            ConversationType::Group => "group"@,
            ConversationType::Channel => "channel"@,
            ConversationType::Unspecified => "unknown"@,
        }
    }

    /// `"single"`, `"group"`, `"channel"`, or `"unknown"`.
    pub fn label(&self) -> (r: String)
        ensures
            r@ == self.label_spec(),
    {
        match self {
            ConversationType::Single => String::from_str("single"),
            ConversationType::Group => String::from_str("group"),
            ConversationType::Channel => String::from_str("channel"),
            ConversationType::Unspecified => String::from_str("unknown"),
        }
    }
}

/// `CallMediaType::Video`, as carried in media type lists.
pub const CALL_MEDIA_TYPE_VIDEO: i32 = 2;

/// Kind of a call's media session.
#[derive(Debug, Clone, Copy, PartialEq, Eq, Structural)]
pub enum CallSessionKind {
    /// Unset (also used when the media session is absent).
    Unspecified,
    /// A one-to-one call.
    Direct,
    /// A multi-party call.
    Group,
    /// A code that names no session kind.
    Unrecognized,
}

/// Who a call invite rings.
#[derive(Debug, Clone)]
pub enum CallAudience {
    /// The one peer of a single chat.
    Direct { peer_user_id: String },
    /// The listed users.
    Explicit { user_ids: Vec<String> },
    /// Every member of the conversation.
    Broadcast,
}

/// Media routing context of a call.
#[derive(Debug, Clone)]
pub struct CallTransport {
    pub room_id: String,
    pub peer_id: String,
    pub media_session_id: Option<String>,
    pub signaling_ws_base: Option<String>,
    pub instance_id: Option<String>,
}

/// The end of a call.
#[derive(Debug, Clone)]
pub struct CallHangup {
    pub reason: String,
    pub reason_code: Option<i32>,
    pub visibility_scope: Option<i32>,
    pub timeout_seconds: Option<i32>,
    pub duration_seconds: Option<i32>,
    pub close_room_if_vacant: Option<bool>,
}

/// One step of call signalling.
#[derive(Debug, Clone)]
pub enum CallSignal {
    /// A call offer; `offered_media` lists media type codes (`None` when the
    /// offer names no media).
    Invite { offered_media: Option<Vec<i32>> },
    /// The callee accepts with the listed media.
    Accept { accepted_media: Option<Vec<i32>> },
    Reject { reason: String, code: i32 },
    Busy,
    Hangup(CallHangup),
    Renegotiate,
    IceCandidate { candidate_json: Option<String> },
    /// Any other signal (ringing and the like).
    Other,
}

/// The call-signal payload of an event.
#[derive(Debug, Clone)]
pub struct CallSignalEvent {
    pub call_id: String,
    pub conversation_id: String,
    pub from_user_id: String,
    pub ext: FieldMap,
    pub signal: Option<CallSignal>,
    /// `media_session.kind`; `Unspecified` when there is no media session.
    pub media_session_kind: CallSessionKind,
    pub audience: Option<CallAudience>,
    pub transport: Option<CallTransport>,
}

/// The payload of an event.
#[derive(Debug, Clone)]
pub enum EventPayload {
    CallSignal(CallSignalEvent),
    /// A read receipt by `user_id`.
    Read { user_id: String, conversation_id: String, message_ids: Vec<String> },
    /// Any other payload.
    Other,
}

/// An event on the event stream.
#[derive(Debug, Clone)]
pub struct Event {
    pub event_id: String,
    pub conversation_id: String,
    pub event_type: EventTypeCode,
    pub seq: u64,
    pub event_seq: Option<u64>,
    pub conversation_seq: u64,
    pub created_at_ms: i64,
    pub request_id: Option<String>,
    pub payload: Option<EventPayload>,
}

/// Where a message comes from, as far as the logic tells sources apart;
/// `Other` stands for every other source.
#[derive(Debug, Clone, Copy, PartialEq, Eq, Structural)]
pub enum MessageSource {
    System,
    Other,
}

/// The delivery status of a message, as far as the logic tells statuses
/// apart; `Other` stands for every other status.
#[derive(Debug, Clone, Copy, PartialEq, Eq, Structural)]
pub enum MessageStatus {
    Sent,
    Other,
}

/// The fields of a message the orchestration logic reads.
#[derive(Debug, Clone)]
pub struct Message {
    pub server_id: String,
    pub client_msg_id: String,
    pub conversation_id: String,
    pub sender_id: String,
    pub channel_id: String,
    pub conversation_type: ConversationType,
    pub message_type: i32,
    pub conversation_seq: u64,
    pub created_at_ms: i64,
    pub extra: FieldMap,
}

} // verus!
