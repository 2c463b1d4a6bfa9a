//! Where the orchestrator publishes messages and events on the message
//! queue: topic, envelope flags, headers, and the size limit.
use vstd::prelude::*;
use crate::field_map::{FieldMap, map_of};
use crate::operations::{ErrorCode, OperationError, is_error};
use crate::text::{u64_to_string, decimal};

verus! {

/// Largest encoded envelope the queue accepts (10 MiB).
pub const MAX_MQ_PAYLOAD: usize = 10485760;

/// What is published.
#[derive(Debug, Clone, Copy, PartialEq, Eq, Structural)]
pub enum PublicationKind {
    /// A message to the main stream (stored and pushed downstream).
    MainMessage,
    /// An event to the main stream.
    MainEvent,
    /// A message to the push stream only.
    PushOnlyMessage,
    /// An event to the push stream only.
    PushOnlyEvent,
    /// A message to the storage stream only.
    PersistenceOnlyMessage,
    /// An event to the storage stream only.
    PersistenceOnlyEvent,
    /// A push envelope.
    PushEnvelope,
}

/// The topics of the queue.
#[derive(Debug, Clone, Copy, PartialEq, Eq, Structural)]
pub enum Topic {
    MessageMain,
    MessageCreated,
    MessageEvents,
    PushMessages,
    PushEvents,
    PushEnvelope,
}

/// How a publication is sent: topic, envelope flags, whether the envelope
/// names the recipients, and extra headers.
#[derive(Debug, Clone)]
pub struct Publication {
    pub topic: Topic,
    pub push_only: bool,
    pub persistence_only: bool,
    pub with_recipients: bool,
    pub headers: FieldMap,
}

pub open spec fn topic_of(kind: PublicationKind) -> Topic {
    match kind {
        PublicationKind::MainMessage | PublicationKind::MainEvent => Topic::MessageMain,
        PublicationKind::PushOnlyMessage => Topic::PushMessages,
        PublicationKind::PushOnlyEvent => Topic::PushEvents,
        PublicationKind::PersistenceOnlyMessage => Topic::MessageCreated,
        PublicationKind::PersistenceOnlyEvent => Topic::MessageEvents,
        PublicationKind::PushEnvelope => Topic::PushEnvelope,
    }
}

pub open spec fn is_push_only(kind: PublicationKind) -> bool {
    kind == PublicationKind::PushOnlyMessage || kind == PublicationKind::PushOnlyEvent
}

pub open spec fn is_persistence_only(kind: PublicationKind) -> bool {
    kind == PublicationKind::PersistenceOnlyMessage || kind == PublicationKind::PersistenceOnlyEvent
}

/// The headers of a publication: `push-only: true` or
/// `persistence-only: true` for the one-sided kinds, none otherwise.
pub open spec fn headers_of(kind: PublicationKind) -> Map<Seq<char>, Seq<char>> {
    if is_push_only(kind) {
        Map::empty().insert("push-only"@, "true"@)
    } else if is_persistence_only(kind) {
        Map::empty().insert("persistence-only"@, "true"@)
    } else {
        Map::empty()
    }
}

/// The error text for an oversized publication.
pub open spec fn too_large_text(kind: PublicationKind) -> Seq<char> {
    match kind {
        PublicationKind::MainMessage | PublicationKind::PushOnlyMessage | PublicationKind::PersistenceOnlyMessage => "message payload too large"@,
        PublicationKind::PushEnvelope => "push envelope too large"@,
        _ => "event payload too large"@,
    }
}

/// How to publish an envelope of `payload_len` encoded bytes: refused as
/// an invalid parameter (with the size and the limit) above 10 MiB.
pub fn plan_publication(kind: PublicationKind, payload_len: usize) -> (r: Result<Publication, OperationError>)
    ensures
        payload_len > MAX_MQ_PAYLOAD ==> (r matches Err(e) && is_error(
            e,
            ErrorCode::InvalidParameter,
            too_large_text(kind),
            seq![("size"@, decimal(payload_len as nat)), ("max_size"@, decimal(MAX_MQ_PAYLOAD as nat))],
        )),
        payload_len <= MAX_MQ_PAYLOAD ==> (r matches Ok(p) && p.topic == topic_of(kind) && p.push_only == is_push_only(kind)
            && p.persistence_only == is_persistence_only(kind) && p.with_recipients == !is_persistence_only(kind)
            && map_of(p.headers) == headers_of(kind)),
{
    if payload_len > MAX_MQ_PAYLOAD {
        let text = match kind {
            PublicationKind::MainMessage | PublicationKind::PushOnlyMessage | PublicationKind::PersistenceOnlyMessage => "message payload too large",
            PublicationKind::PushEnvelope => "push envelope too large",
            _ => "event payload too large",
        };
        let mut params: Vec<(String, String)> = Vec::new();
        params.push((String::from_str("size"), u64_to_string(payload_len as u64)));
        params.push((String::from_str("max_size"), u64_to_string(MAX_MQ_PAYLOAD as u64)));
        let e = OperationError { code: ErrorCode::InvalidParameter, message: String::from_str(text), params };
        assert(crate::operations::param_views(e.params@) =~= seq![
            ("size"@, decimal(payload_len as nat)),
            ("max_size"@, decimal(MAX_MQ_PAYLOAD as nat)),
        ]);
        return Err(e);
    }
    let topic = match kind {
        PublicationKind::MainMessage | PublicationKind::MainEvent => Topic::MessageMain,
        PublicationKind::PushOnlyMessage => Topic::PushMessages,
        PublicationKind::PushOnlyEvent => Topic::PushEvents,
        PublicationKind::PersistenceOnlyMessage => Topic::MessageCreated,
        PublicationKind::PersistenceOnlyEvent => Topic::MessageEvents,
        PublicationKind::PushEnvelope => Topic::PushEnvelope,
    };
    let push_only = kind == PublicationKind::PushOnlyMessage || kind == PublicationKind::PushOnlyEvent;
    let persistence_only = kind == PublicationKind::PersistenceOnlyMessage || kind == PublicationKind::PersistenceOnlyEvent;
    let mut headers = FieldMap::new();
    if push_only {
        headers.insert(String::from_str("push-only"), String::from_str("true"));
    } else if persistence_only {
        headers.insert(String::from_str("persistence-only"), String::from_str("true"));
    }
    assert(map_of(headers) =~= headers_of(kind));
    Ok(Publication { topic, push_only, persistence_only, with_recipients: !persistence_only, headers })
}

} // verus!
