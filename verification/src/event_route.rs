//! Routing of an `ExecuteEvent` request: the event payload decides which
//! message operation runs, with which arguments, or which response is
//! returned at once.
use vstd::prelude::*;
use crate::clock::{Timestamp, now, is_representable, timestamp_representable};

verus! {

/// The payload of an event handed to `ExecuteEvent`.
#[derive(Debug, Clone)]
pub enum ExecutePayload {
    Recall { server_msg_id: String, reason: String, time_limit_seconds: Option<i32> },
    Edit { server_msg_id: String, new_content: Vec<u8>, reason: String, show_edited_mark: bool, edit_version: i32 },
    Delete {
        server_msg_id: String,
        /// `2` is a hard delete; anything else a soft one.
        delete_type: Option<i32>,
        scope: Option<i32>,
        reason: Option<String>,
        notify_others: Option<bool>,
        target_user_id: Option<String>,
    },
    Read { conversation_id: String, message_ids: Vec<String>, read_at: Option<Timestamp> },
    /// `action == 1` adds the reaction; anything else removes it.
    Reaction { server_msg_id: String, emoji: String, action: i32 },
    Pin { server_msg_id: String, reason: Option<String>, expire_at: Option<Timestamp> },
    Unpin { server_msg_id: String },
    Mark { server_msg_id: String, mark_type: i32, color: String },
    Unmark { server_msg_id: String, mark_type: i32 },
    Typing,
    /// Any other payload.
    Other,
}

/// Soft or hard deletion.
#[derive(Debug, Clone, Copy, PartialEq, Eq, Structural)]
pub enum DeleteKind {
    Soft,
    Hard,
}

/// A message operation to run.
#[derive(Debug, Clone)]
pub enum OperationCommand {
    Recall {
        message_id: String,
        reason: Option<String>,
        time_limit_seconds: Option<i32>,
        operator_id: String,
        tenant_id: String,
        conversation_id: String,
    },
    Edit {
        message_id: String,
        new_content: Vec<u8>,
        reason: Option<String>,
        show_edited_mark: bool,
        edit_version: i32,
        operator_id: String,
        tenant_id: String,
        conversation_id: String,
    },
    Delete {
        conversation_id: String,
        message_ids: Vec<String>,
        delete_type: DeleteKind,
        /// The requested scope code; absent or unknown codes take the
        /// delete type's default scope.
        scope: Option<i32>,
        reason: Option<String>,
        notify_others: bool,
        target_user_id: Option<String>,
        hard_delete: bool,
        operator_id: String,
        tenant_id: String,
    },
    BatchMarkRead {
        conversation_id: String,
        user_id: String,
        message_ids: Vec<String>,
        read_at: Timestamp,
        tenant_id: String,
    },
    AddReaction { message_id: String, emoji: String, user_id: String, tenant_id: String, conversation_id: String },
    RemoveReaction { message_id: String, emoji: String, user_id: String, tenant_id: String, conversation_id: String },
    Pin {
        message_id: String,
        reason: Option<String>,
        expire_at: Option<Timestamp>,
        operator_id: String,
        tenant_id: String,
        conversation_id: String,
    },
    Unpin { message_id: String, operator_id: String, tenant_id: String, conversation_id: String },
    Mark {
        message_id: String,
        mark_type: i32,
        color: Option<String>,
        user_id: String,
        tenant_id: String,
        conversation_id: String,
    },
    Unmark { message_id: String, mark_type: i32, user_id: String, tenant_id: String, conversation_id: String },
}

/// Status code of an immediate response.
#[derive(Debug, Clone, Copy, PartialEq, Eq, Structural)]
pub enum ResponseCode {
    Success,
    InvalidArgument,
    UnsupportedOperation,
}

/// What `ExecuteEvent` does with an event.
#[derive(Debug, Clone)]
pub enum EventRoute {
    /// Run the operation and answer with its outcome.
    Execute(OperationCommand),
    /// Answer at once.
    Respond { code: ResponseCode, message: String },
}

/// `None` for an empty string, the string otherwise.
pub open spec fn non_empty_opt(s: String) -> Option<String> {
    if s@.len() == 0 {
        None
    } else {
        Some(s)
    }
}

/// `None` for an absent or empty string.
pub open spec fn filter_non_empty(s: Option<String>) -> Option<String> {
    match s {
        Some(t) => non_empty_opt(t),
        None => None,
    }
}

/// A timestamp, when it names a point in time.
pub open spec fn representable(t: Option<Timestamp>) -> Option<Timestamp> {
    match t {
        Some(ts) => if timestamp_representable(ts.seconds, ts.nanos) {
            Some(ts)
        } else {
            None
        },
        None => None,
    }
}

/// Whether `r` is the immediate response `code` with text `text`.
pub open spec fn responds(r: EventRoute, code: ResponseCode, text: Seq<char>) -> bool {
    r matches EventRoute::Respond { code: c, message } && c == code && message@ == text
}

/// The route of every payload but a read receipt (whose time may come from
/// the clock).
pub open spec fn routes_to(
    r: EventRoute,
    payload: Option<ExecutePayload>,
    operator_id: String,
    tenant_id: String,
    conversation_id: String,
) -> bool {
    match payload {
        Some(ExecutePayload::Recall { server_msg_id, reason, time_limit_seconds }) => r == EventRoute::Execute(
            OperationCommand::Recall {
                message_id: server_msg_id,
                reason: non_empty_opt(reason),
                time_limit_seconds,
                operator_id,
                tenant_id,
                conversation_id,
            },
        ),
        Some(ExecutePayload::Edit { server_msg_id, new_content, reason, show_edited_mark, edit_version }) => r
            == EventRoute::Execute(
            OperationCommand::Edit {
                message_id: server_msg_id,
                new_content,
                reason: non_empty_opt(reason),
                show_edited_mark,
                edit_version,
                operator_id,
                tenant_id,
                conversation_id,
            },
        ),
        Some(ExecutePayload::Delete { server_msg_id, delete_type, scope, reason, notify_others, target_user_id }) => {
            let kind = if delete_type == Some(2i32) {
                DeleteKind::Hard
            } else {
                DeleteKind::Soft
            };
            if crate::text::blank(server_msg_id@) {
                responds(r, ResponseCode::InvalidArgument, "Delete event requires non-empty server_msg_id"@)
            } else {
                r matches EventRoute::Execute(
                    OperationCommand::Delete {
                        conversation_id: c,
                        message_ids,
                        delete_type: k,
                        scope: s,
                        reason: rs,
                        notify_others: n,
                        target_user_id: t,
                        hard_delete,
                        operator_id: o,
                        tenant_id: tn,
                    },
                ) && c == conversation_id && message_ids@ == seq![server_msg_id] && k == kind && s == scope && rs
                    == reason && n == (match notify_others {
                    Some(b) => b,
                    None => true,
                }) && t == filter_non_empty(target_user_id) && hard_delete == (kind == DeleteKind::Hard) && o
                    == operator_id && tn == tenant_id
            }
        },
        Some(ExecutePayload::Read { .. }) => true,
        Some(ExecutePayload::Reaction { server_msg_id, emoji, action }) => if action == 1 {
            r == EventRoute::Execute(
                OperationCommand::AddReaction {
                    message_id: server_msg_id,
                    emoji,
                    user_id: operator_id,
                    tenant_id,
                    conversation_id,
                },
            )
        } else {
            r == EventRoute::Execute(
                OperationCommand::RemoveReaction {
                    message_id: server_msg_id,
                    emoji,
                    user_id: operator_id,
                    tenant_id,
                    conversation_id,
                },
            )
        },
        Some(ExecutePayload::Pin { server_msg_id, reason, expire_at }) => r == EventRoute::Execute(
            OperationCommand::Pin {
                message_id: server_msg_id,
                reason: filter_non_empty(reason),
                expire_at: representable(expire_at),
                operator_id,
                tenant_id,
                conversation_id,
            },
        ),
        Some(ExecutePayload::Unpin { server_msg_id }) => r == EventRoute::Execute(
            OperationCommand::Unpin { message_id: server_msg_id, operator_id, tenant_id, conversation_id },
        ),
        Some(ExecutePayload::Mark { server_msg_id, mark_type, color }) => r == EventRoute::Execute(
            OperationCommand::Mark {
                message_id: server_msg_id,
                mark_type,
                color: non_empty_opt(color),
                user_id: operator_id,
                tenant_id,
                conversation_id,
            },
        ),
        Some(ExecutePayload::Unmark { server_msg_id, mark_type }) => r == EventRoute::Execute(
            OperationCommand::Unmark { message_id: server_msg_id, mark_type, user_id: operator_id, tenant_id, conversation_id },
        ),
        Some(ExecutePayload::Typing) => responds(r, ResponseCode::Success, Seq::empty()),
        Some(ExecutePayload::Other) | None => responds(
            r,
            ResponseCode::UnsupportedOperation,
            "Unsupported event type or missing payload"@,
        ),
    }
}

/// An edit request runs the edit it names: the same message, new content,
/// edited-mark choice and version, the reason when one is given, for the
/// request's operator, tenant and conversation.
pub proof fn lemma_edit_route_carries_every_field(
    r: EventRoute,
    server_msg_id: String,
    new_content: Vec<u8>,
    reason: String,
    show_edited_mark: bool,
    edit_version: i32,
    operator_id: String,
    tenant_id: String,
    conversation_id: String,
)
    requires
        routes_to(
            r,
            Some(ExecutePayload::Edit { server_msg_id, new_content, reason, show_edited_mark, edit_version }),
            operator_id,
            tenant_id,
            conversation_id,
        ),
    ensures
        r matches EventRoute::Execute(
            OperationCommand::Edit {
                message_id: m,
                new_content: c,
                reason: rs,
                show_edited_mark: s,
                edit_version: v,
                operator_id: o,
                tenant_id: t,
                conversation_id: cv,
            },
        ) && m == server_msg_id && c@ == new_content@ && s == show_edited_mark && v == edit_version && o == operator_id
            && t == tenant_id && cv == conversation_id && (reason@.len() > 0 ==> rs == Some(reason)) && (reason@.len()
            == 0 ==> rs is None),
{
}

/// A recall request runs the recall of its message with its time limit; a
/// reaction request adds the emoji exactly when its action is 1 and removes
/// it otherwise; mark and unmark requests act on their message with their
/// mark type; each as the request's operator.
pub proof fn lemma_recall_and_reaction_routes(
    r: EventRoute,
    payload: ExecutePayload,
    operator_id: String,
    tenant_id: String,
    conversation_id: String,
)
    requires
        routes_to(r, Some(payload), operator_id, tenant_id, conversation_id),
    ensures
        payload matches ExecutePayload::Recall { server_msg_id, time_limit_seconds, .. } ==> (r matches EventRoute::Execute(
            OperationCommand::Recall { message_id, time_limit_seconds: l, operator_id: o, .. },
        ) && message_id == server_msg_id && l == time_limit_seconds && o == operator_id),
        payload matches ExecutePayload::Reaction { server_msg_id, emoji, action } ==> (if action == 1 {
            r matches EventRoute::Execute(OperationCommand::AddReaction { message_id, emoji: e, user_id, .. })
                && message_id == server_msg_id && e == emoji && user_id == operator_id
        } else {
            r matches EventRoute::Execute(OperationCommand::RemoveReaction { message_id, emoji: e, user_id, .. })
                && message_id == server_msg_id && e == emoji && user_id == operator_id
        }),
        payload matches ExecutePayload::Mark { server_msg_id, mark_type, .. } ==> (r matches EventRoute::Execute(
            OperationCommand::Mark { message_id, mark_type: k, user_id, .. },
        ) && message_id == server_msg_id && k == mark_type && user_id == operator_id),
        payload matches ExecutePayload::Unmark { server_msg_id, mark_type } ==> (r matches EventRoute::Execute(
            OperationCommand::Unmark { message_id, mark_type: k, user_id, .. },
        ) && message_id == server_msg_id && k == mark_type && user_id == operator_id),
{
}

/// The operator of a request: the actor's id, or empty without an actor.
pub fn operator_or_empty(actor_id: Option<String>) -> (r: String)
    ensures
        r@ == (match actor_id {
            Some(a) => a@,
            None => Seq::empty(),
        }),
{
    match actor_id {
        Some(a) => a,
        None => String::new(),
    }
}

/// The tenant of a request: the context's tenant, or `"0"` without one.
pub fn tenant_or_zero(tenant_id: Option<String>) -> (r: String)
    ensures
        r@ == (match tenant_id {
            Some(t) => t@,
            None => "0"@,
        }),
{
    match tenant_id {
        Some(t) => t,
        None => String::from_str("0"),
    }
}

fn opt_non_empty(s: String) -> (r: Option<String>)
    ensures
        r == non_empty_opt(s),
{
    if s.as_str().is_empty() {
        None
    } else {
        Some(s)
    }
}

fn opt_filter_non_empty(s: Option<String>) -> (r: Option<String>)
    ensures
        r == filter_non_empty(s),
{
    match s {
        Some(t) => opt_non_empty(t),
        None => None,
    }
}

fn opt_representable(t: Option<Timestamp>) -> (r: Option<Timestamp>)
    ensures
        r == representable(t),
{
    match t {
        Some(ts) => if is_representable(ts) {
            Some(ts)
        } else {
            None
        },
        None => None,
    }
}

/// Decides what `ExecuteEvent` does with an event payload, for the given
/// operator, tenant and conversation.  A read receipt carries its own
/// conversation and is timed by its `read_at` when that names a point in
/// time, by the clock otherwise.
pub fn route_execute_event(
    payload: Option<ExecutePayload>,
    operator_id: String,
    tenant_id: String,
    conversation_id: String,
) -> (r: EventRoute)
    ensures
        routes_to(r, payload, operator_id, tenant_id, conversation_id),
        payload matches Some(ExecutePayload::Read { conversation_id: rc, message_ids: ids, read_at: at }) ==> (r matches EventRoute::Execute(
            OperationCommand::BatchMarkRead { conversation_id: c, user_id, message_ids, read_at, tenant_id: tn },
        ) && c == rc && user_id == operator_id && message_ids@ == ids@ && tn == tenant_id && (representable(at) matches Some(t)
            ==> read_at == t) && timestamp_representable(read_at.seconds, read_at.nanos)),
{
    match payload {
        Some(ExecutePayload::Recall { server_msg_id, reason, time_limit_seconds }) => EventRoute::Execute(
            OperationCommand::Recall {
                message_id: server_msg_id,
                reason: opt_non_empty(reason),
                time_limit_seconds,
                operator_id,
                tenant_id,
                conversation_id,
            },
        ),
        Some(ExecutePayload::Edit { server_msg_id, new_content, reason, show_edited_mark, edit_version }) => EventRoute::Execute(
            OperationCommand::Edit {
                message_id: server_msg_id,
                new_content,
                reason: opt_non_empty(reason),
                show_edited_mark,
                edit_version,
                operator_id,
                tenant_id,
                conversation_id,
            },
        ),
        Some(ExecutePayload::Delete { server_msg_id, delete_type, scope, reason, notify_others, target_user_id }) => {
            let kind = match delete_type {
                Some(2) => DeleteKind::Hard,
                _ => DeleteKind::Soft,
            };
            if crate::text::is_blank(server_msg_id.as_str()) {
                EventRoute::Respond {
                    code: ResponseCode::InvalidArgument,
                    message: String::from_str("Delete event requires non-empty server_msg_id"),
                }
            } else {
                let notify = match notify_others {
                    Some(b) => b,
                    None => true,
                };
                let hard = match kind {
                    DeleteKind::Hard => true,
                    DeleteKind::Soft => false,
                };
                let mut ids: Vec<String> = Vec::new();
                ids.push(server_msg_id);
                EventRoute::Execute(
                    OperationCommand::Delete {
                        conversation_id,
                        message_ids: ids,
                        delete_type: kind,
                        scope,
                        reason,
                        notify_others: notify,
                        target_user_id: opt_filter_non_empty(target_user_id),
                        hard_delete: hard,
                        operator_id,
                        tenant_id,
                    },
                )
            }
        },
        Some(ExecutePayload::Read { conversation_id: read_conversation, message_ids, read_at }) => {
            let at = match opt_representable(read_at) {
                Some(t) => t,
                None => now(),
            };
            EventRoute::Execute(
                OperationCommand::BatchMarkRead {
                    conversation_id: read_conversation,
                    user_id: operator_id,
                    message_ids,
                    read_at: at,
                    tenant_id,
                },
            )
        },
        Some(ExecutePayload::Reaction { server_msg_id, emoji, action }) => {
            if action == 1 {
                EventRoute::Execute(
                    OperationCommand::AddReaction {
                        message_id: server_msg_id,
                        emoji,
                        user_id: operator_id,
                        tenant_id,
                        conversation_id,
                    },
                )
            } else {
                EventRoute::Execute(
                    OperationCommand::RemoveReaction {
                        message_id: server_msg_id,
                        emoji,
                        user_id: operator_id,
                        tenant_id,
                        conversation_id,
                    },
                )
            }
        },
        Some(ExecutePayload::Pin { server_msg_id, reason, expire_at }) => EventRoute::Execute(
            OperationCommand::Pin {
                message_id: server_msg_id,
                reason: opt_filter_non_empty(reason),
                expire_at: opt_representable(expire_at),
                operator_id,
                tenant_id,
                conversation_id,
            },
        ),
        Some(ExecutePayload::Unpin { server_msg_id }) => EventRoute::Execute(
            OperationCommand::Unpin { message_id: server_msg_id, operator_id, tenant_id, conversation_id },
        ),
        Some(ExecutePayload::Mark { server_msg_id, mark_type, color }) => EventRoute::Execute(
            OperationCommand::Mark {
                message_id: server_msg_id,
                mark_type,
                color: opt_non_empty(color),
                user_id: operator_id,
                tenant_id,
                conversation_id,
            },
        ),
        Some(ExecutePayload::Unmark { server_msg_id, mark_type }) => EventRoute::Execute(
            OperationCommand::Unmark { message_id: server_msg_id, mark_type, user_id: operator_id, tenant_id, conversation_id },
        ),
        Some(ExecutePayload::Typing) => EventRoute::Respond { code: ResponseCode::Success, message: String::new() },
        _ => EventRoute::Respond {
            code: ResponseCode::UnsupportedOperation,
            message: String::from_str("Unsupported event type or missing payload"),
        },
    }
}

} // verus!
