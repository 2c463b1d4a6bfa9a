//! Message operations (recall, edit, delete, read, reactions, pins, marks):
//! who may run them, the errors they fail with, and the stream events they
//! publish.
use vstd::prelude::*;
use crate::text::{concat, u64_to_string, decimal, str_eq, parse_i32, parse_i32_spec};
use crate::field_map::FieldMap;
use crate::clock::{Timestamp, now};
use crate::model::EventType;
use crate::event_route::DeleteKind;
use crate::user_sync::clone_strings;

verus! {

// ---------------------------------------------------------------------------
// Errors
// ---------------------------------------------------------------------------

/// General error codes of the messaging platform that operations fail with.
#[derive(Debug, Clone, Copy, PartialEq, Eq, Structural)]
pub enum ErrorCode {
    MessageNotFound,
    PermissionDenied,
    OperationFailed,
    InvalidParameter,
    InternalError,
}

/// Error codes specific to message operations.
#[derive(Debug, Clone, Copy, PartialEq, Eq, Structural)]
pub enum MessageOperationErrorCode {
    MessageNotFound,
    PermissionDenied,
    RecallTimeout,
    InvalidStateTransition,
    InvalidOperationParameter,
}

impl MessageOperationErrorCode {
    pub open spec fn error_code_spec(self) -> ErrorCode {
        match self {
            MessageOperationErrorCode::MessageNotFound => ErrorCode::MessageNotFound,
            MessageOperationErrorCode::PermissionDenied => ErrorCode::PermissionDenied,
            MessageOperationErrorCode::RecallTimeout => ErrorCode::OperationFailed,
            MessageOperationErrorCode::InvalidStateTransition => ErrorCode::InvalidParameter,
            MessageOperationErrorCode::InvalidOperationParameter => ErrorCode::InvalidParameter,
        }
    }

    /// The general error code an operation error is reported with.
    pub fn to_error_code(&self) -> (r: ErrorCode)
        ensures
            r == self.error_code_spec(),
    {
        match self {
            MessageOperationErrorCode::MessageNotFound => ErrorCode::MessageNotFound,
            MessageOperationErrorCode::PermissionDenied => ErrorCode::PermissionDenied,
            MessageOperationErrorCode::RecallTimeout => ErrorCode::OperationFailed,
            MessageOperationErrorCode::InvalidStateTransition => ErrorCode::InvalidParameter,
            MessageOperationErrorCode::InvalidOperationParameter => ErrorCode::InvalidParameter,
        }
    }
}

/// An operation error: code, message, and named parameters in order.
#[derive(Debug, Clone)]
pub struct OperationError {
    pub code: ErrorCode,
    pub message: String,
    pub params: Vec<(String, String)>,
}

/// The views of an error's parameters.
pub open spec fn param_views(p: Seq<(String, String)>) -> Seq<(Seq<char>, Seq<char>)> {
    p.map_values(|e: (String, String)| (e.0@, e.1@))
}

/// Whether `e` is the error `code` with `message` and `params`.
pub open spec fn is_error(e: OperationError, code: ErrorCode, message: Seq<char>, params: Seq<(Seq<char>, Seq<char>)>) -> bool {
    e.code == code && e.message@ == message && param_views(e.params@) == params
}

fn error1(code: ErrorCode, message: &str, k: &str, v: &str) -> (e: OperationError)
    ensures
        is_error(e, code, message@, seq![(k@, v@)]),
{
    let mut params: Vec<(String, String)> = Vec::new();
    params.push((String::from_str(k), String::from_str(v)));
    let e = OperationError { code, message: String::from_str(message), params };
    assert(param_views(e.params@) =~= seq![(k@, v@)]);
    e
}

fn error2(code: ErrorCode, message: String, k1: &str, v1: &str, k2: &str, v2: &str) -> (e: OperationError)
    ensures
        is_error(e, code, message@, seq![(k1@, v1@), (k2@, v2@)]),
{
    let mut params: Vec<(String, String)> = Vec::new();
    params.push((String::from_str(k1), String::from_str(v1)));
    params.push((String::from_str(k2), String::from_str(v2)));
    let e = OperationError { code, message, params };
    assert(param_views(e.params@) =~= seq![(k1@, v1@), (k2@, v2@)]);
    e
}

/// Builds the errors of message operations.
pub struct MessageOperationErrorBuilder;

impl MessageOperationErrorBuilder {
    /// "Message not found", with the message id.
    pub fn message_not_found(message_id: &str) -> (e: OperationError)
        ensures
            is_error(e, ErrorCode::MessageNotFound, "Message not found"@, seq![("message_id"@, message_id@)]),
    {
        error1(ErrorCode::MessageNotFound, "Message not found", "message_id", message_id)
    }

    /// "Permission denied", with the operation and the user.
    pub fn permission_denied(operation: &str, user_id: &str) -> (e: OperationError)
        ensures
            is_error(
                e,
                ErrorCode::PermissionDenied,
                "Permission denied"@,
                seq![("operation"@, operation@), ("user_id"@, user_id@)],
            ),
    {
        error2(
            ErrorCode::PermissionDenied,
            String::from_str("Permission denied"),
            "operation",
            operation,
            "user_id",
            user_id,
        )
    }

    /// "Message recall timeout", with the message id.
    pub fn recall_timeout(message_id: &str) -> (e: OperationError)
        ensures
            is_error(e, ErrorCode::OperationFailed, "Message recall timeout"@, seq![("message_id"@, message_id@)]),
    {
        error1(ErrorCode::OperationFailed, "Message recall timeout", "message_id", message_id)
    }

    /// "Invalid state transition from {from} to {to}", with both states.
    pub fn invalid_state_transition(from: &str, to: &str) -> (e: OperationError)
        ensures
            is_error(
                e,
                ErrorCode::InvalidParameter,
                "Invalid state transition from "@ + from@ + " to "@ + to@,
                seq![("from_state"@, from@), ("to_state"@, to@)],
            ),
    {
        let mut message = String::from_str("Invalid state transition from ");
        message.append(from);
        message.append(" to ");
        message.append(to);
        error2(ErrorCode::InvalidParameter, message, "from_state", from, "to_state", to)
    }
}

// ---------------------------------------------------------------------------
// Commands
// ---------------------------------------------------------------------------

/// What every operation command names.
#[derive(Debug, Clone)]
pub struct OperationBase {
    pub message_id: String,
    pub conversation_id: String,
    pub operator_id: String,
    pub tenant_id: String,
}

/// Who a deletion hides the message from.
#[derive(Debug, Clone, Copy, PartialEq, Eq, Structural)]
pub enum DeleteScope {
    UserPrivate,
    ConversationGlobal,
}

#[derive(Debug, Clone)]
pub struct RecallMessageCommand {
    pub base: OperationBase,
    pub reason: Option<String>,
    pub time_limit_seconds: Option<i32>,
    pub allow_admin_override: bool,
}

#[derive(Debug, Clone)]
pub struct EditMessageCommand {
    pub base: OperationBase,
    pub new_content: Vec<u8>,
    pub reason: Option<String>,
    pub allow_admin_override: bool,
}

#[derive(Debug, Clone)]
pub struct DeleteMessageCommand {
    pub base: OperationBase,
    pub message_ids: Vec<String>,
    pub delete_type: DeleteKind,
    pub delete_scope: DeleteScope,
    pub reason: Option<String>,
    pub notify_others: bool,
    pub target_user_id: Option<String>,
    pub allow_admin_override: bool,
}

#[derive(Debug, Clone)]
pub struct ReadMessageCommand {
    pub base: OperationBase,
    pub message_ids: Vec<String>,
    pub read_at: Option<Timestamp>,
    pub burn_after_read: bool,
}

#[derive(Debug, Clone)]
pub struct ReactionCommand {
    pub base: OperationBase,
    pub emoji: String,
}

#[derive(Debug, Clone)]
pub struct PinMessageCommand {
    pub base: OperationBase,
    pub reason: Option<String>,
    pub expire_at: Option<Timestamp>,
}

#[derive(Debug, Clone)]
pub struct MarkMessageCommand {
    pub base: OperationBase,
    pub mark_type: i32,
}

#[derive(Debug, Clone)]
pub struct UnmarkMessageCommand {
    pub base: OperationBase,
    pub user_id: String,
    pub mark_type: Option<i32>,
}

/// The stored message an operation acts on, as far as the decisions read it.
#[derive(Debug, Clone)]
pub struct StoredMessage {
    pub server_id: String,
    pub conversation_id: String,
    pub sender_id: String,
    pub edit_version: i32,
}

/// The edit version a WAL record's extras carry: the `current_edit_version`
/// entry read as an `i32`, or 0 when it is absent or not a number.
pub open spec fn recorded_edit_version(extra: FieldMap) -> i32 {
    match extra.get_spec("current_edit_version"@) {
        Some(t) => match parse_i32_spec(t) {
            Some(v) => v,
            None => 0,
        },
        None => 0,
    }
}

impl StoredMessage {
    /// The stored message an operation reads from a WAL record: the record's
    /// ids and sender, and the edit version its extras carry.
    pub fn from_record(server_id: String, conversation_id: String, sender_id: String, extra: &FieldMap) -> (m: Self)
        ensures
            m.server_id == server_id,
            m.conversation_id == conversation_id,
            m.sender_id == sender_id,
            m.edit_version == recorded_edit_version(*extra),
    {
        proof {
            reveal_strlit("current_edit_version");
        }
        let edit_version: i32 = match extra.get("current_edit_version") {
            Some(t) => match parse_i32(t.as_str()) {
                Some(v) => v,
                None => 0,
            },
            None => 0,
        };
        StoredMessage { server_id, conversation_id, sender_id, edit_version }
    }
}

// ---------------------------------------------------------------------------
// Decisions
// ---------------------------------------------------------------------------

/// Recall: the stored message's sender (or, when the message is neither in
/// the WAL nor in storage but the command names a conversation and a WAL is
/// configured, the operator) must be the operator, unless an admin
/// overrides.  Without such a fallback the message is not found.
pub fn authorize_recall(
    found: Option<&StoredMessage>,
    base: &OperationBase,
    allow_admin_override: bool,
    wal_configured: bool,
) -> (r: Result<(), OperationError>)
    ensures
        match found {
            Some(m) => if m.sender_id@ != base.operator_id@ && !allow_admin_override {
                r matches Err(e) && is_error(
                    e,
                    ErrorCode::PermissionDenied,
                    "Permission denied"@,
                    seq![("operation"@, "recall"@), ("user_id"@, base.operator_id@)],
                )
            } else {
                r is Ok
            },
            None => if base.conversation_id@.len() == 0 || !wal_configured {
                r matches Err(e) && is_error(
                    e,
                    ErrorCode::MessageNotFound,
                    "Message not found"@,
                    seq![("message_id"@, base.message_id@)],
                )
            } else {
                r is Ok
            },
        },
{
    match found {
        Some(m) => {
            if !str_eq(m.sender_id.as_str(), base.operator_id.as_str()) && !allow_admin_override {
                return Err(MessageOperationErrorBuilder::permission_denied("recall", base.operator_id.as_str()));
            }
            Ok(())
        },
        None => {
            if base.conversation_id.unicode_len() == 0 || !wal_configured {
                return Err(MessageOperationErrorBuilder::message_not_found(base.message_id.as_str()));
            }
            Ok(())
        },
    }
}

/// Where an edit lands: the conversation (the command's, or the stored
/// message's when the command names none), the stored message's server id,
/// and the new edit version.
#[derive(Debug, Clone)]
pub struct EditPlan {
    pub conversation_id: String,
    pub message_id: String,
    pub edit_version: i32,
}

/// The text of the error for an edit of an unknown message without a WAL.
pub open spec fn edit_without_wal_text() -> Seq<char> {
    "Message not found and WAL not configured. Cannot validate edit permissions. Please configure WAL (MESSAGE_ORCHESTRATOR_WAL_HASH_KEY) or wait for message to be persisted."@
}

/// Edit.  An unknown message is an error without a WAL; with one, the edit
/// proceeds as the operator's own (version 1).  Otherwise the sender must be
/// the operator unless an admin overrides, and only text or structured
/// content (`content_editable`) may replace it.
pub fn plan_edit(
    found: Option<&StoredMessage>,
    base: &OperationBase,
    allow_admin_override: bool,
    wal_configured: bool,
    content_editable: bool,
) -> (r: Result<EditPlan, OperationError>)
    requires
        found matches Some(m) ==> m.edit_version < i32::MAX,
    ensures
        found is None && !wal_configured ==> (r matches Err(e) && is_error(
            e,
            ErrorCode::InternalError,
            edit_without_wal_text(),
            Seq::empty(),
        )),
        (found matches Some(m) && m.sender_id@ != base.operator_id@ && !allow_admin_override) ==> (r matches Err(e)
            && is_error(
            e,
            ErrorCode::PermissionDenied,
            "Permission denied"@,
            seq![("operation"@, "edit"@), ("user_id"@, base.operator_id@)],
        )),
        (found is Some || wal_configured) && !(found matches Some(m) && m.sender_id@ != base.operator_id@
            && !allow_admin_override) && !content_editable ==> (r matches Err(e) && is_error(
            e,
            ErrorCode::InvalidParameter,
            "Only text or structured message content is editable"@,
            Seq::empty(),
        )),
        r is Ok <==> ((found is Some || wal_configured) && !(found matches Some(m) && m.sender_id@ != base.operator_id@
            && !allow_admin_override) && content_editable),
        r matches Ok(p) ==> match found {
            Some(m) => p.conversation_id@ == (if base.conversation_id@.len() == 0 {
                m.conversation_id@
            } else {
                base.conversation_id@
            }) && p.message_id@ == m.server_id@ && p.edit_version == m.edit_version + 1,
            None => p.conversation_id@ == base.conversation_id@ && p.message_id@ == base.message_id@ && p.edit_version
                == 1,
        },
{
    let (server_id, conversation_id, edit_version) = match found {
        Some(m) => {
            if !str_eq(m.sender_id.as_str(), base.operator_id.as_str()) && !allow_admin_override {
                return Err(MessageOperationErrorBuilder::permission_denied("edit", base.operator_id.as_str()));
            }
            (m.server_id.clone(), m.conversation_id.clone(), m.edit_version)
        },
        None => {
            if !wal_configured {
                let e = OperationError {
                    code: ErrorCode::InternalError,
                    message: String::from_str(
                        "Message not found and WAL not configured. Cannot validate edit permissions. Please configure WAL (MESSAGE_ORCHESTRATOR_WAL_HASH_KEY) or wait for message to be persisted.",
                    ),
                    params: Vec::new(),
                };
                assert(param_views(e.params@) =~= Seq::empty());
                return Err(e);
            }
            (base.message_id.clone(), base.conversation_id.clone(), 0)
        },
    };
    if !content_editable {
        let e = OperationError {
            code: ErrorCode::InvalidParameter,
            message: String::from_str("Only text or structured message content is editable"),
            params: Vec::new(),
        };
        assert(param_views(e.params@) =~= Seq::empty());
        return Err(e);
    }
    let conversation = if base.conversation_id.unicode_len() == 0 {
        conversation_id
    } else {
        base.conversation_id.clone()
    };
    Ok(EditPlan { conversation_id: conversation, message_id: server_id, edit_version: edit_version + 1 })
}

/// Deletion, first check: a hard delete needs an admin override.
pub fn authorize_delete(delete_type: DeleteKind, allow_admin_override: bool, base: &OperationBase) -> (r: Result<(), OperationError>)
    ensures
        delete_type == DeleteKind::Hard && !allow_admin_override ==> (r matches Err(e) && is_error(
            e,
            ErrorCode::PermissionDenied,
            "Permission denied"@,
            seq![("operation"@, "delete_hard"@), ("user_id"@, base.operator_id@)],
        )),
        !(delete_type == DeleteKind::Hard && !allow_admin_override) ==> r is Ok,
{
    if delete_type == DeleteKind::Hard && !allow_admin_override {
        return Err(MessageOperationErrorBuilder::permission_denied("delete_hard", base.operator_id.as_str()));
    }
    Ok(())
}

/// Deletion and unmarking act on a message that is known, or at least
/// addressed by its conversation.
pub fn require_known_message(found: bool, base: &OperationBase) -> (r: Result<(), OperationError>)
    ensures
        !found && base.conversation_id@.len() == 0 ==> (r matches Err(e) && is_error(
            e,
            ErrorCode::MessageNotFound,
            "Message not found"@,
            seq![("message_id"@, base.message_id@)],
        )),
        found || base.conversation_id@.len() > 0 ==> r is Ok,
{
    if !found && base.conversation_id.unicode_len() == 0 {
        return Err(MessageOperationErrorBuilder::message_not_found(base.message_id.as_str()));
    }
    Ok(())
}

/// The messages a deletion removes, one event each: the listed ones, or
/// the command's own message when none are listed.
pub fn delete_targets(cmd: &DeleteMessageCommand) -> (r: Vec<String>)
    ensures
        r@ == (if cmd.message_ids@.len() == 0 {
            seq![cmd.base.message_id]
        } else {
            cmd.message_ids@
        }),
{
    if cmd.message_ids.len() == 0 {
        let mut v: Vec<String> = Vec::new();
        v.push(cmd.base.message_id.clone());
        v
    } else {
        clone_strings(&cmd.message_ids)
    }
}

/// The deletion label of the domain event.
pub fn delete_type_label(delete_type: DeleteKind) -> (r: &'static str)
    ensures
        r@ == (if delete_type == DeleteKind::Hard {
            "HARD"@
        } else {
            "SOFT"@
        }),
{
    match delete_type {
        DeleteKind::Hard => "HARD",
        DeleteKind::Soft => "SOFT",
    }
}

/// The seq taken from the clock when no allocator answers: the Unix time
/// in whole seconds, or 0 before the epoch.
pub open spec fn clock_seq_spec(seconds: i64) -> u64 {
    if seconds >= 0 {
        seconds as u64
    } else {
        0
    }
}

/// The seq taken from the clock (see `clock_seq_spec`).
pub fn clock_seq(seconds: i64) -> (r: u64)
    ensures
        r == clock_seq_spec(seconds),
{
    if seconds >= 0 {
        seconds as u64
    } else {
        0
    }
}

/// The stream seq of an operation: the allocated one; when allocation
/// fails, the degraded allocator's; when that fails too, the current Unix
/// time in seconds (0 before the epoch).
pub fn stream_seq(allocated: Option<u64>, degraded: Option<u64>) -> (r: u64)
    ensures
        allocated matches Some(s) ==> r == s,
        allocated is None && degraded is Some ==> r == degraded.unwrap(),
        allocated is None && degraded is None ==> exists|seconds: i64| r == #[trigger] clock_seq_spec(seconds),
{
    match allocated {
        Some(s) => s,
        None => match degraded {
            Some(s) => s,
            None => {
                let seconds = crate::clock::now_instant().timestamp.seconds;
                clock_seq(seconds)
            },
        },
    }
}

// ---------------------------------------------------------------------------
// Stream events
// ---------------------------------------------------------------------------

/// The payload of an operation event on the event stream.
#[derive(Debug, Clone)]
pub enum OperationEventPayload {
    Recall { server_msg_id: String, reason: String, time_limit_seconds: Option<i32>, allow_admin_recall: Option<bool> },
    Edit { server_msg_id: String, new_content: Vec<u8>, edit_version: i32, reason: String, show_edited_mark: bool },
    Delete {
        server_msg_id: String,
        delete_type: Option<i32>,
        reason: Option<String>,
        notify_others: Option<bool>,
        scope: Option<i32>,
        target_user_id: Option<String>,
    },
    Read {
        conversation_id: String,
        read_seq: u64,
        user_id: String,
        message_ids: Vec<String>,
        read_at: Timestamp,
        burn_after_read: Option<bool>,
    },
    Reaction { server_msg_id: String, user_id: String, emoji: String, action: i32 },
    Pin { server_msg_id: String, pinned_by: String, reason: Option<String>, expire_at: Option<Timestamp> },
    Unpin { server_msg_id: String },
    Mark { server_msg_id: String, user_id: String, mark_type: i32, color: String },
    Unmark { server_msg_id: String, user_id: String, mark_type: i32 },
}

/// An operation event, as written to the operation stream.
#[derive(Debug, Clone)]
pub struct OperationEvent {
    pub conversation_id: String,
    pub seq: u64,
    pub event_type: EventType,
    pub created_at: Timestamp,
    pub event_id: String,
    pub payload: OperationEventPayload,
}

/// `{conversation_id}:{seq}`.
pub open spec fn event_id_spec(conversation_id: Seq<char>, seq: u64) -> Seq<char> {
    conversation_id + ":"@ + decimal(seq as nat)
}

/// Whether `e` is an event of `ty` at `seq` in the command's conversation.
pub open spec fn event_header(e: OperationEvent, base: OperationBase, seq: u64, ty: EventType) -> bool {
    e.conversation_id == base.conversation_id && e.seq == seq && e.event_type == ty && e.event_id@ == event_id_spec(
        base.conversation_id@,
        seq,
    )
}

/// The text of an optional reason, empty when absent.
pub open spec fn reason_text(r: Option<String>) -> Seq<char> {
    match r {
        Some(s) => s@,
        None => Seq::empty(),
    }
}

fn event_id(conversation_id: &str, seq: u64) -> (r: String)
    ensures
        r@ == event_id_spec(conversation_id@, seq),
{
    let mut r = concat(conversation_id, ":");
    let n = u64_to_string(seq);
    r.append(n.as_str());
    r
}

fn text_or_empty(r: &Option<String>) -> (t: String)
    ensures
        t@ == reason_text(*r),
{
    match r {
        Some(s) => s.clone(),
        None => String::new(),
    }
}

fn clone_opt(r: &Option<String>) -> (t: Option<String>)
    ensures
        t == *r,
{
    match r {
        Some(s) => Some(s.clone()),
        None => None,
    }
}

/// A byte-for-byte copy.
pub fn copy_bytes(v: &Vec<u8>) -> (r: Vec<u8>)
    ensures
        r@ == v@,
{
    let mut r: Vec<u8> = Vec::new();
    let mut i: usize = 0;
    while i < v.len()
        invariant
            i <= v@.len(),
            r@ == v@.subrange(0, i as int),
        decreases v@.len() - i,
    {
        r.push(v[i]);
        assert(v@.subrange(0, i + 1) =~= v@.subrange(0, i as int).push(v@[i as int]));
        i = i + 1;
    }
    assert(v@.subrange(0, i as int) =~= v@);
    r
}

fn header(base: &OperationBase, seq: u64, event_type: EventType, payload: OperationEventPayload) -> (e: OperationEvent)
    ensures
        event_header(e, *base, seq, event_type),
        e.payload == payload,
{
    OperationEvent {
        conversation_id: base.conversation_id.clone(),
        seq,
        event_type,
        created_at: now(),
        event_id: event_id(base.conversation_id.as_str(), seq),
        payload,
    }
}

/// Builds the stream events of operation commands, stamped with the current
/// time and identified by `{conversation_id}:{seq}`.
pub struct EventBuilder;

impl EventBuilder {
    pub fn recall(cmd: &RecallMessageCommand, seq: u64) -> (e: OperationEvent)
        ensures
            event_header(e, cmd.base, seq, EventType::MessageRecall),
            e.payload matches OperationEventPayload::Recall { server_msg_id, reason, time_limit_seconds, allow_admin_recall }
                && server_msg_id == cmd.base.message_id && reason@ == reason_text(cmd.reason) && time_limit_seconds
                == cmd.time_limit_seconds && allow_admin_recall == Some(cmd.allow_admin_override),
    {
        let payload = OperationEventPayload::Recall {
            server_msg_id: cmd.base.message_id.clone(),
            reason: text_or_empty(&cmd.reason),
            time_limit_seconds: cmd.time_limit_seconds,
            allow_admin_recall: Some(cmd.allow_admin_override),
        };
        header(&cmd.base, seq, EventType::MessageRecall, payload)
    }

    /// The edit version is left at 0: storage assigns it.
    pub fn edit(cmd: &EditMessageCommand, seq: u64) -> (e: OperationEvent)
        ensures
            event_header(e, cmd.base, seq, EventType::MessageEdit),
            e.payload matches OperationEventPayload::Edit { server_msg_id, new_content, edit_version, reason, show_edited_mark }
                && server_msg_id == cmd.base.message_id && new_content@ == cmd.new_content@ && edit_version == 0
                && reason@ == reason_text(cmd.reason) && show_edited_mark,
    {
        let payload = OperationEventPayload::Edit {
            server_msg_id: cmd.base.message_id.clone(),
            new_content: copy_bytes(&cmd.new_content),
            edit_version: 0,
            reason: text_or_empty(&cmd.reason),
            show_edited_mark: true,
        };
        header(&cmd.base, seq, EventType::MessageEdit, payload)
    }

    /// The deletion of one message (a batch deletion publishes one per
    /// message, each with its own seq): hard is 2, soft 1; private scope
    /// is 1, conversation-wide 2.
    pub fn delete_one(server_msg_id: &str, cmd: &DeleteMessageCommand, seq: u64) -> (e: OperationEvent)
        ensures
            event_header(e, cmd.base, seq, EventType::MessageDelete),
            e.payload matches OperationEventPayload::Delete { server_msg_id: id, delete_type, reason, notify_others, scope, target_user_id }
                && id@ == server_msg_id@ && delete_type == Some(if cmd.delete_type == DeleteKind::Hard {
                2i32
            } else {
                1i32
            }) && reason == cmd.reason && notify_others == Some(cmd.notify_others) && scope == Some(
                if cmd.delete_scope == DeleteScope::UserPrivate {
                    1i32
                } else {
                    2i32
                },
            ) && target_user_id == cmd.target_user_id,
    {
        let delete_type: i32 = match cmd.delete_type {
            DeleteKind::Hard => 2,
            DeleteKind::Soft => 1,
        };
        let delete_scope: i32 = match cmd.delete_scope {
            DeleteScope::UserPrivate => 1,
            DeleteScope::ConversationGlobal => 2,
        };
        let payload = OperationEventPayload::Delete {
            server_msg_id: String::from_str(server_msg_id),
            delete_type: Some(delete_type),
            reason: clone_opt(&cmd.reason),
            notify_others: Some(cmd.notify_others),
            scope: Some(delete_scope),
            target_user_id: clone_opt(&cmd.target_user_id),
        };
        header(&cmd.base, seq, EventType::MessageDelete, payload)
    }

    /// A read receipt by the operator, read at the command's time or now.
    pub fn read(cmd: &ReadMessageCommand, seq: u64) -> (e: OperationEvent)
        ensures
            event_header(e, cmd.base, seq, EventType::ReadReceipt),
            e.payload matches OperationEventPayload::Read {
                conversation_id,
                read_seq,
                user_id,
                message_ids,
                read_at,
                burn_after_read,
            } && conversation_id == cmd.base.conversation_id && read_seq == 0 && user_id == cmd.base.operator_id
                && message_ids@ == cmd.message_ids@ && (cmd.read_at matches Some(t) ==> read_at == t)
                && burn_after_read == Some(cmd.burn_after_read),
    {
        let read_at = match cmd.read_at {
            Some(t) => t,
            None => now(),
        };
        let payload = OperationEventPayload::Read {
            conversation_id: cmd.base.conversation_id.clone(),
            read_seq: 0,
            user_id: cmd.base.operator_id.clone(),
            message_ids: clone_strings(&cmd.message_ids),
            read_at,
            burn_after_read: Some(cmd.burn_after_read),
        };
        header(&cmd.base, seq, EventType::ReadReceipt, payload)
    }

    fn reaction(cmd: &ReactionCommand, seq: u64, action: i32) -> (e: OperationEvent)
        ensures
            event_header(e, cmd.base, seq, EventType::Reaction),
            e.payload matches OperationEventPayload::Reaction { server_msg_id, user_id, emoji, action: a }
                && server_msg_id == cmd.base.message_id && user_id == cmd.base.operator_id && emoji == cmd.emoji && a
                == action,
    {
        let payload = OperationEventPayload::Reaction {
            server_msg_id: cmd.base.message_id.clone(),
            user_id: cmd.base.operator_id.clone(),
            emoji: cmd.emoji.clone(),
            action,
        };
        header(&cmd.base, seq, EventType::Reaction, payload)
    }

    /// A reaction added (action 1).
    pub fn reaction_add(cmd: &ReactionCommand, seq: u64) -> (e: OperationEvent)
        ensures
            event_header(e, cmd.base, seq, EventType::Reaction),
            e.payload matches OperationEventPayload::Reaction { server_msg_id, user_id, emoji, action }
                && server_msg_id == cmd.base.message_id && user_id == cmd.base.operator_id && emoji == cmd.emoji
                && action == 1,
    {
        Self::reaction(cmd, seq, 1)
    }

    /// A reaction removed (action 2).
    pub fn reaction_remove(cmd: &ReactionCommand, seq: u64) -> (e: OperationEvent)
        ensures
            event_header(e, cmd.base, seq, EventType::Reaction),
            e.payload matches OperationEventPayload::Reaction { server_msg_id, user_id, emoji, action }
                && server_msg_id == cmd.base.message_id && user_id == cmd.base.operator_id && emoji == cmd.emoji
                && action == 2,
    {
        Self::reaction(cmd, seq, 2)
    }

    pub fn pin(cmd: &PinMessageCommand, seq: u64) -> (e: OperationEvent)
        ensures
            event_header(e, cmd.base, seq, EventType::Pin),
            e.payload matches OperationEventPayload::Pin { server_msg_id, pinned_by, reason, expire_at }
                && server_msg_id == cmd.base.message_id && pinned_by == cmd.base.operator_id && reason == cmd.reason
                && expire_at == cmd.expire_at,
    {
        let payload = OperationEventPayload::Pin {
            server_msg_id: cmd.base.message_id.clone(),
            pinned_by: cmd.base.operator_id.clone(),
            reason: clone_opt(&cmd.reason),
            expire_at: cmd.expire_at,
        };
        header(&cmd.base, seq, EventType::Pin, payload)
    }

    pub fn unpin(cmd: &OperationBase, seq: u64) -> (e: OperationEvent)
        ensures
            event_header(e, *cmd, seq, EventType::Unpin),
            e.payload matches OperationEventPayload::Unpin { server_msg_id } && server_msg_id == cmd.message_id,
    {
        let payload = OperationEventPayload::Unpin { server_msg_id: cmd.message_id.clone() };
        header(cmd, seq, EventType::Unpin, payload)
    }

    /// A mark by the operator, without colour.
    pub fn mark(cmd: &MarkMessageCommand, seq: u64) -> (e: OperationEvent)
        ensures
            event_header(e, cmd.base, seq, EventType::Mark),
            e.payload matches OperationEventPayload::Mark { server_msg_id, user_id, mark_type, color }
                && server_msg_id == cmd.base.message_id && user_id == cmd.base.operator_id && mark_type == cmd.mark_type
                && color@.len() == 0,
    {
        let payload = OperationEventPayload::Mark {
            server_msg_id: cmd.base.message_id.clone(),
            user_id: cmd.base.operator_id.clone(),
            mark_type: cmd.mark_type,
            color: String::new(),
        };
        header(&cmd.base, seq, EventType::Mark, payload)
    }

    /// An unmark by the command's user; an unset mark type is 0.
    pub fn unmark(cmd: &UnmarkMessageCommand, seq: u64) -> (e: OperationEvent)
        ensures
            event_header(e, cmd.base, seq, EventType::Unmark),
            e.payload matches OperationEventPayload::Unmark { server_msg_id, user_id, mark_type }
                && server_msg_id == cmd.base.message_id && user_id == cmd.user_id && mark_type == (match cmd.mark_type {
                Some(m) => m,
                None => 0,
            }),
    {
        let payload = OperationEventPayload::Unmark {
            server_msg_id: cmd.base.message_id.clone(),
            user_id: cmd.user_id.clone(),
            mark_type: match cmd.mark_type {
                Some(m) => m,
                None => 0,
            },
        };
        header(&cmd.base, seq, EventType::Unmark, payload)
    }
}

} // verus!
