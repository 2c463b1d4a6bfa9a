//! Making sure a conversation exists before its messages flow: synchronously
//! through the conversation service, or asynchronously by publishing a
//! `conversation.ensure` event.  A failure never blocks the message; the
//! storage writer creates missing conversations as a fallback.
use vstd::prelude::*;
use crate::model::{ConversationType, Message};
use crate::field_map::{FieldMap, lookup};
use crate::hook::extra_or_empty;
use crate::text::concat;
use crate::call_enrichment::{new_request_id, is_uuid_v4_text};

verus! {

/// How conversations are ensured.
#[derive(Debug, Clone, Copy, PartialEq, Eq, Structural)]
pub enum SessionCreationMode {
    /// Call the conversation service and wait (strongly consistent).
    Sync,
    /// Publish a `conversation.ensure` event (eventually consistent).
    Async,
}

/// A request to make sure a conversation exists.
#[derive(Debug, Clone)]
pub struct ConversationEnsureRequest {
    pub conversation_id: String,
    pub conversation_type: ConversationType,
    pub business_type: String,
    pub participants: Vec<String>,
    /// The channel id the conversation record keeps: empty for single chats.
    pub stored_channel_id: String,
    pub tenant_id: String,
}

/// Publishes `conversation.ensure` events; implemented by the messaging
/// layer.
pub trait ConversationEventPublisher {
    /// Whether `result` is an outcome of publishing the event for `request`:
    /// each implementation says what its publication does.
    spec fn published(&self, request: ConversationEnsureRequest, result: Result<(), String>) -> bool;

    /// Publishes the event for a request; an error is reported as text.
    fn publish_conversation_ensure(&self, request: &ConversationEnsureRequest) -> (r: Result<(), String>)
        ensures
            self.published(*request, r),
    ;
}

/// What ensuring a conversation does.
#[derive(Debug, Clone, Copy, PartialEq, Eq, Structural)]
pub enum EnsureAction {
    /// Call the conversation service (with a two-second timeout).
    CallConversationService,
    /// Publish the `conversation.ensure` event.
    PublishEnsureEvent,
    /// Nothing is configured for the mode: skip.
    Skip,
}

/// Ensures conversations, in the configured mode, with the repository and
/// publisher that are present.
#[derive(Debug, Clone, Copy, PartialEq, Eq, Structural)]
pub struct ConversationEnsureService {
    pub has_conversation_repository: bool,
    pub session_creation_mode: SessionCreationMode,
    pub has_event_publisher: bool,
}

/// The action of a service.
pub open spec fn ensure_action_spec(s: ConversationEnsureService) -> EnsureAction {
    match s.session_creation_mode {
        SessionCreationMode::Sync => if s.has_conversation_repository {
            EnsureAction::CallConversationService
        } else {
            EnsureAction::Skip
        },
        SessionCreationMode::Async => if s.has_event_publisher {
            EnsureAction::PublishEnsureEvent
        } else {
            EnsureAction::Skip
        },
    }
}

/// The context identifiers of a synchronous ensure call.
#[derive(Debug, Clone)]
pub struct EnsureContext {
    pub request_id: String,
    pub trace_id: String,
    pub tenant_id: String,
}

impl ConversationEnsureService {
    pub fn new(
        has_conversation_repository: bool,
        session_creation_mode: SessionCreationMode,
        has_event_publisher: bool,
    ) -> (r: Self)
        ensures
            r == (ConversationEnsureService { has_conversation_repository, session_creation_mode, has_event_publisher }),
    {
        ConversationEnsureService { has_conversation_repository, session_creation_mode, has_event_publisher }
    }

    /// What ensuring a conversation does: the synchronous mode calls the
    /// conversation service, the asynchronous one publishes an event; each
    /// is skipped when what it needs is not configured.
    pub fn ensure_action(&self) -> (r: EnsureAction)
        ensures
            r == ensure_action_spec(*self),
    {
        match self.session_creation_mode {
            SessionCreationMode::Sync => if self.has_conversation_repository {
                EnsureAction::CallConversationService
            } else {
                EnsureAction::Skip
            },
            SessionCreationMode::Async => if self.has_event_publisher {
                EnsureAction::PublishEnsureEvent
            } else {
                EnsureAction::Skip
            },
        }
    }

    /// The outcome of ensuring a conversation, whatever the call or the
    /// publication returned (`None` for a timeout): always success, so that
    /// the message is never held back.
    pub fn ensure_outcome(&self, result: Option<Result<(), String>>) -> (r: Result<(), String>)
        ensures
            r is Ok,
    {
        Ok(())
    }

    /// Ensures a conversation through a publisher (the asynchronous mode):
    /// publishes the request, unchanged, when a publisher is configured; a
    /// failure is swallowed.
    pub fn ensure_conversation_async<P: ConversationEventPublisher>(
        &self,
        publisher: Option<&P>,
        request: &ConversationEnsureRequest,
    ) -> (r: Result<(), String>)
        ensures
            r is Ok,
            publisher matches Some(p) ==> exists|res: Result<(), String>| p.published(*request, res),
    {
        match publisher {
            Some(p) => {
                let published = p.publish_conversation_ensure(request);
                self.ensure_outcome(Some(published))
            },
            None => Ok(()),
        }
    }

    /// The context of a synchronous ensure call: the context's tenant, or
    /// the request's; when the context has no request id, a fresh one
    /// (keeping the trace id).
    pub fn ensure_context(
        &self,
        ctx_request_id: &str,
        ctx_trace_id: &str,
        ctx_tenant_id: Option<&str>,
        request_tenant_id: &str,
    ) -> (r: EnsureContext)
        ensures
            r.tenant_id@ == (match ctx_tenant_id {
                Some(t) => t@,
                None => request_tenant_id@,
            }),
            r.trace_id@ == ctx_trace_id@,
            ctx_request_id@.len() > 0 ==> r.request_id@ == ctx_request_id@,
            ctx_request_id@.len() == 0 ==> is_uuid_v4_text(r.request_id@),
    {
        let tenant_id = match ctx_tenant_id {
            Some(t) => String::from_str(t),
            None => String::from_str(request_tenant_id),
        };
        let request_id = if ctx_request_id.is_empty() {
            new_request_id()
        } else {
            String::from_str(ctx_request_id)
        };
        EnsureContext { request_id, trace_id: String::from_str(ctx_trace_id), tenant_id }
    }
}

/// The channel id a conversation record keeps: empty for single chats, the
/// message's channel otherwise.
pub fn persisted_conversation_channel_id(conversation_type: ConversationType, message_channel_id: &str) -> (r: String)
    ensures
        r@ == (if conversation_type == ConversationType::Single {
            Seq::empty()
        } else {
            message_channel_id@
        }),
{
    match conversation_type {
        ConversationType::Single => String::new(),
        _ => String::from_str(message_channel_id),
    }
}

/// The ensure request of a message: the sender, plus the peer of a single
/// chat (its channel, when set), as participants.
pub fn build_conversation_ensure_request_from_message(message: &Message, tenant_id: &str) -> (r: ConversationEnsureRequest)
    ensures
        r.conversation_id == message.conversation_id,
        r.conversation_type == message.conversation_type,
        r.business_type@ == extra_or_empty(message.extra, "business_type"@),
        r.participants@ == (if message.conversation_type == ConversationType::Single && message.channel_id@.len() > 0 {
            seq![message.sender_id, message.channel_id]
        } else {
            seq![message.sender_id]
        }),
        r.stored_channel_id@ == (if message.conversation_type == ConversationType::Single {
            Seq::empty()
        } else {
            message.channel_id@
        }),
        r.tenant_id@ == tenant_id@,
{
    let mut participants: Vec<String> = Vec::new();
    participants.push(message.sender_id.clone());
    if message.conversation_type == ConversationType::Single && message.channel_id.unicode_len() > 0 {
        participants.push(message.channel_id.clone());
    }
    let business_type = match message.extra.get("business_type") {
        Some(v) => v.clone(),
        None => String::new(),
    };
    ConversationEnsureRequest {
        conversation_id: message.conversation_id.clone(),
        conversation_type: message.conversation_type,
        business_type,
        participants,
        stored_channel_id: persisted_conversation_channel_id(message.conversation_type, message.channel_id.as_str()),
        tenant_id: String::from_str(tenant_id),
    }
}

/// The ensure request of an event: a single chat with the operator as its
/// participant.
pub fn build_conversation_ensure_request_from_event(
    conversation_id: &str,
    tenant_id: &str,
    operator_id: &str,
) -> (r: ConversationEnsureRequest)
    ensures
        r.conversation_id@ == conversation_id@,
        r.conversation_type == ConversationType::Single,
        r.business_type@.len() == 0,
        r.participants@.len() == 1 && r.participants@[0]@ == operator_id@,
        r.stored_channel_id@.len() == 0,
        r.tenant_id@ == tenant_id@,
{
    let mut participants: Vec<String> = Vec::new();
    participants.push(String::from_str(operator_id));
    ConversationEnsureRequest {
        conversation_id: String::from_str(conversation_id),
        conversation_type: ConversationType::Single,
        business_type: String::new(),
        participants,
        stored_channel_id: String::new(),
        tenant_id: String::from_str(tenant_id),
    }
}

/// A member of a conversation to create.
#[derive(Debug, Clone)]
pub struct ConversationParticipant {
    pub user_id: String,
    pub roles: Vec<String>,
    pub muted: bool,
    pub pinned: bool,
    pub attributes: FieldMap,
}

/// The request that creates a conversation in the conversation service.
#[derive(Debug, Clone)]
pub struct CreateConversationRequest {
    pub conversation_type: String,
    pub business_type: String,
    pub participants: Vec<ConversationParticipant>,
    pub attributes: FieldMap,
    /// Always private (0).
    pub visibility: i32,
    pub channel_id: String,
}

/// A plain member: no roles, not muted, not pinned, no attributes.
pub open spec fn is_plain_member(p: ConversationParticipant, user_id: String) -> bool {
    &&& p.user_id == user_id
    &&& p.roles@.len() == 0
    &&& !p.muted
    &&& !p.pinned
    &&& p.attributes.entries@.len() == 0
}

/// The create request for an ensure call: each participant as a plain
/// member, the conversation id passed as the `conversation_id` attribute so
/// that the service keeps it, private visibility, and the stored channel.
pub fn create_conversation_request(
    conversation_id: &str,
    conversation_type: &str,
    business_type: &str,
    participants: Vec<String>,
    stored_channel_id: String,
) -> (r: CreateConversationRequest)
    ensures
        r.conversation_type@ == conversation_type@,
        r.business_type@ == business_type@,
        r.participants@.len() == participants@.len(),
        forall|i: int| 0 <= i < participants@.len() ==> is_plain_member(#[trigger] r.participants@[i], participants@[i]),
        r.attributes.get_spec("conversation_id"@) == Some(conversation_id@),
        forall|k: Seq<char>| k != "conversation_id"@ ==> #[trigger] r.attributes.get_spec(k) is None,
        r.visibility == 0,
        r.channel_id == stored_channel_id,
{
    let mut members: Vec<ConversationParticipant> = Vec::new();
    let mut i: usize = 0;
    while i < participants.len()
        invariant
            i <= participants@.len(),
            members@.len() == i,
            forall|j: int| 0 <= j < i ==> is_plain_member(#[trigger] members@[j], participants@[j]),
        decreases participants@.len() - i,
    {
        members.push(
            ConversationParticipant {
                user_id: participants[i].clone(),
                roles: Vec::new(),
                muted: false,
                pinned: false,
                attributes: FieldMap { entries: Vec::new() },
            },
        );
        i = i + 1;
    }
    let mut entries: Vec<(String, String)> = Vec::new();
    entries.push((String::from_str("conversation_id"), String::from_str(conversation_id)));
    let attributes = FieldMap { entries };
    proof {
        assert(attributes.entries@.drop_first() =~= Seq::<(String, String)>::empty());
        assert(attributes.entries@[0].0@ == "conversation_id"@);
        assert(lookup(attributes.entries@.drop_first(), "conversation_id"@) is None);
        assert forall|k: Seq<char>| k != "conversation_id"@ implies #[trigger] attributes.get_spec(k) is None by {
            assert(lookup(attributes.entries@.drop_first(), k) is None);
        }
    }
    CreateConversationRequest {
        conversation_type: String::from_str(conversation_type),
        business_type: String::from_str(business_type),
        participants: members,
        attributes,
        visibility: 0,
        channel_id: stored_channel_id,
    }
}

/// What the conversation service answered a create request.
#[derive(Debug, Clone)]
pub enum CreateConversationReply {
    /// Created, or returned the existing conversation.
    Created,
    /// Refused; `already_exists` when the status code says the conversation
    /// is already there, `status_text` the status as displayed.
    Rejected { already_exists: bool, status_text: String },
}

/// The outcome of an ensure call: a created conversation, or one the service
/// reports as already existing, is ensured; any other refusal is reported as
/// `Failed to ensure conversation: ` and the status.
pub fn create_reply_outcome(reply: CreateConversationReply) -> (r: Result<(), String>)
    ensures
        match reply {
            CreateConversationReply::Created => r is Ok,
            CreateConversationReply::Rejected { already_exists, status_text } => if already_exists {
                r is Ok
            } else {
                r matches Err(m) && m@ == "Failed to ensure conversation: "@ + status_text@
            },
        },
{
    match reply {
        CreateConversationReply::Created => Ok(()),
        CreateConversationReply::Rejected { already_exists, status_text } => {
            if already_exists {
                Ok(())
            } else {
                Err(concat("Failed to ensure conversation: ", status_text.as_str()))
            }
        },
    }
}

} // verus!
