//! Classification of operation events: which need orchestration, which can
//! be delegated to storage, which go to the operation topic and which are
//! pushed; plus the temporary-message kinds.
use vstd::prelude::*;
use crate::model::{EventType, ConversationType, Message};
use crate::field_map::FieldMap;

verus! {

/// Operation category of an event type.
#[derive(Debug, Clone, Copy, PartialEq, Eq, Structural)]
pub enum OperationCategory {
    Simple,
    Complex,
    Unknown,
}

/// Recall and edit need permission and state checks before dispatch.
pub open spec fn requires_orchestration_spec(t: Option<EventType>) -> bool {
    t == Some(EventType::MessageRecall) || t == Some(EventType::MessageEdit)
}

/// Operations storage can apply directly.
pub open spec fn can_delegate_directly_spec(t: Option<EventType>) -> bool {
    match t {
        Some(EventType::ReadReceipt) | Some(EventType::Reaction) | Some(EventType::Pin) | Some(
            EventType::Unpin,
        ) | Some(EventType::Mark) | Some(EventType::MessageDelete) | Some(EventType::Unmark) => true,
        _ => false,
    }
}

/// Classifies operation events by their type (`None` for a code that names
/// no event type).
pub struct OperationClassifier;

impl OperationClassifier {
    pub fn requires_orchestration(operation_type: Option<EventType>) -> (r: bool)
        ensures
            r == requires_orchestration_spec(operation_type),
    {
        match operation_type {
            Some(EventType::MessageRecall) | Some(EventType::MessageEdit) => true,
            _ => false,
        }
    }

    pub fn can_delegate_directly(operation_type: Option<EventType>) -> (r: bool)
        ensures
            r == can_delegate_directly_spec(operation_type),
    {
        match operation_type {
            Some(EventType::ReadReceipt) | Some(EventType::Reaction) | Some(EventType::Pin) | Some(
                EventType::Unpin,
            ) | Some(EventType::Mark) | Some(EventType::MessageDelete) | Some(EventType::Unmark) => true,
            _ => false,
        }
    }

    /// No operation creates a new message.
    pub fn requires_message_creation(operation_type: Option<EventType>) -> (r: bool)
        ensures
            !r,
    {
        false
    }

    /// `Complex` for orchestrated operations, `Simple` for delegated ones,
    /// `Unknown` otherwise.
    pub fn get_operation_category(operation_type: Option<EventType>) -> (r: OperationCategory)
        ensures
            r == (if requires_orchestration_spec(operation_type) {
                OperationCategory::Complex
            } else if can_delegate_directly_spec(operation_type) {
                OperationCategory::Simple
            } else {
                OperationCategory::Unknown
            }),
    {
        if Self::requires_orchestration(operation_type) {
            OperationCategory::Complex
        } else if Self::can_delegate_directly(operation_type) {
            OperationCategory::Simple
        } else {
            OperationCategory::Unknown
        }
    }

    /// Whether the operation is published to the operation topic: every
    /// operation but `Mark` and unknown codes.
    pub fn requires_kafka(operation_type: Option<EventType>) -> (r: bool)
        ensures
            r == match operation_type {
                Some(EventType::MessageRecall) | Some(EventType::MessageEdit) | Some(
                    EventType::MessageDelete,
                ) | Some(EventType::ReadReceipt) | Some(EventType::Reaction) | Some(EventType::Pin)
                | Some(EventType::Unpin) | Some(EventType::Unmark) => true,
                _ => false,
            },
    {
        match operation_type {
            Some(EventType::MessageRecall) | Some(EventType::MessageEdit) => true,
            Some(EventType::MessageDelete) | Some(EventType::ReadReceipt) | Some(
                EventType::Reaction,
            ) | Some(EventType::Pin) | Some(EventType::Unpin) => true,
            Some(EventType::Mark) => false,
            Some(EventType::Unmark) => true,
            _ => false,
        }
    }

    /// Whether the operation is pushed to online clients: everything but
    /// marks, unmarks and unknown codes.
    pub fn requires_push_notification(operation_type: Option<EventType>) -> (r: bool)
        ensures
            r == match operation_type {
                Some(EventType::MessageRecall) | Some(EventType::MessageEdit) | Some(
                    EventType::MessageDelete,
                ) | Some(EventType::ReadReceipt) | Some(EventType::Reaction) | Some(EventType::Pin)
                | Some(EventType::Unpin) => true,
                _ => false,
            },
    {
        match operation_type {
            Some(EventType::MessageRecall) | Some(EventType::MessageEdit) | Some(
                EventType::MessageDelete,
            ) | Some(EventType::ReadReceipt) | Some(EventType::Reaction) | Some(EventType::Pin)
            | Some(EventType::Unpin) => true,
            Some(EventType::Mark) | Some(EventType::Unmark) => false,
            _ => false,
        }
    }

    /// A recall whose metadata has `scope = "self"` only hides the message for
    /// its sender.
    pub fn is_recall_self_only(metadata: &FieldMap) -> (r: bool)
        ensures
            r == (metadata.get_spec("scope"@) == Some("self"@)),
    {
        match metadata.get("scope") {
            Some(v) => crate::text::str_eq(v.as_str(), "self"),
            None => false,
        }
    }
}

/// Push-only messages that are never stored.
#[derive(Debug, Clone, Copy, PartialEq, Eq, Structural)]
pub enum TemporaryMessageType {
    /// Someone is typing.
    Typing,
    /// A system event.
    SystemEvent,
    /// An application-defined temporary message.
    Custom,
}

impl TemporaryMessageType {
    /// No message type is currently treated as temporary.
    pub fn from_message_type(message_type: i32) -> (r: Option<Self>)
        ensures
            r is None,
    {
        None
    }

    /// Temporary messages are not persisted.
    pub fn needs_persistence(&self) -> (r: bool)
        ensures
            !r,
    {
        false
    }

    /// Temporary messages get no sequence number.
    pub fn needs_seq(&self) -> (r: bool)
        ensures
            !r,
    {
        false
    }

    /// Temporary messages are only delivered to online users.
    pub fn require_online(&self) -> (r: bool)
        ensures
            r,
    {
        true
    }
}

/// Handles push-only (temporary) messages.
pub struct MessageTemporaryService;

impl MessageTemporaryService {
    pub fn new() -> Self {
        MessageTemporaryService
    }

    /// The recipients of a temporary message: the peer of a single chat
    /// (its channel, when set); nobody otherwise.
    pub fn extract_recipient_user_ids(&self, message: &Message) -> (r: Vec<String>)
        ensures
            r@ == (if message.conversation_type == ConversationType::Single && message.channel_id@.len() > 0 {
                seq![message.channel_id]
            } else {
                Seq::<String>::empty()
            }),
    {
        let mut user_ids: Vec<String> = Vec::new();
        if message.conversation_type == ConversationType::Single && message.channel_id.unicode_len() > 0 {
            user_ids.push(message.channel_id.clone());
        }
        proof {
            if !(message.conversation_type == ConversationType::Single && message.channel_id@.len() > 0) {
                assert(user_ids@ =~= Seq::<String>::empty());
            }
        }
        user_ids
    }

    /// Temporary messages are not delivered yet: handling one succeeds
    /// without effect.
    pub fn handle_temporary_message(&self, message: &Message) -> (r: Result<(), String>)
        ensures
            r is Ok,
    {
        let _recipients = self.extract_recipient_user_ids(message);
        Ok(())
    }
}

} // verus!
