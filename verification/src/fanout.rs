//! Fanout of a persistent message from the main stream to the storage and
//! push streams.
//!
//! The fanout is a small state machine: the caller performs each action it
//! is handed (publishing, index updates) and reports whether it succeeded;
//! `advance` then names the next action.  The message is stored first, the
//! user-sync index is updated next (a failure there is deferred to a
//! compensation task and never blocks delivery), and the push is published
//! last.
use vstd::prelude::*;
use crate::model::{ConversationType, Message};
use crate::recipients::{routed_channel_id, normalize_single_chat_channel};
use crate::user_sync::{clone_strings, UserSyncCompensationKind};

verus! {

/// The fanout's configuration: which user-sync repositories are present,
/// and whether messages are pushed inline (otherwise a notify+pull ping is
/// sent).
#[derive(Debug, Clone, Copy, PartialEq, Eq, Structural)]
pub struct MessageFanoutService {
    pub user_sync_index: bool,
    pub user_sync_compensation: bool,
    pub inline_message_push_enabled: bool,
}

/// Where a fanout run stands: the action last handed out.
#[derive(Debug, Clone, Copy, PartialEq, Eq, Structural)]
pub enum FanoutStage {
    Storing,
    Syncing,
    Compensating,
    Pushing,
    Done,
}

/// Whether the action last handed out succeeded.
#[derive(Debug, Clone, Copy, PartialEq, Eq, Structural)]
pub enum StepResult {
    Succeeded,
    Failed,
}

/// The kind of an action, without its recipients.
#[derive(Debug, Clone, Copy, PartialEq, Eq, Structural)]
pub enum FanoutActionKind {
    Store,
    RecordConversationChange,
    RecordConversationVersionBump,
    EnqueueCompensation,
    PushPing,
    PushInline,
    Complete,
    Abort,
}

/// What the caller does next with `run.message`.
#[derive(Debug, Clone, PartialEq, Eq)]
pub enum FanoutAction {
    /// Publish the message to the storage stream only.
    Store,
    /// Record a change of the conversation for each listed user.
    RecordConversationChange { user_ids: Vec<String> },
    /// Bump the conversation-level sync version (large conversations).
    RecordConversationVersionBump,
    /// Enqueue a compensation task replaying the failed index update.
    EnqueueCompensation { kind: UserSyncCompensationKind, user_ids: Vec<String> },
    /// Publish a notify+pull ping to the listed recipients.
    PushPing { recipients: Vec<String>, large_conversation: bool },
    /// Publish the message inline to the listed recipients.
    PushInline { recipients: Vec<String> },
    /// The fanout succeeded.
    Complete,
    /// The fanout failed with the error of the last action.
    Abort,
}

impl FanoutAction {
    pub open spec fn kind(self) -> FanoutActionKind {
        match self {
            FanoutAction::Store => FanoutActionKind::Store,
            FanoutAction::RecordConversationChange { .. } => FanoutActionKind::RecordConversationChange,
            FanoutAction::RecordConversationVersionBump => FanoutActionKind::RecordConversationVersionBump,
            FanoutAction::EnqueueCompensation { .. } => FanoutActionKind::EnqueueCompensation,
            FanoutAction::PushPing { .. } => FanoutActionKind::PushPing,
            FanoutAction::PushInline { .. } => FanoutActionKind::PushInline,
            FanoutAction::Complete => FanoutActionKind::Complete,
            FanoutAction::Abort => FanoutActionKind::Abort,
        }
    }

    /// The users an action names (empty for those that name none).
    pub open spec fn users(self) -> Seq<String> {
        match self {
            FanoutAction::RecordConversationChange { user_ids } => user_ids@,
            FanoutAction::EnqueueCompensation { user_ids, .. } => user_ids@,
            FanoutAction::PushPing { recipients, .. } => recipients@,
            FanoutAction::PushInline { recipients } => recipients@,
            _ => Seq::empty(),
        }
    }
}

/// One fanout of one message.
#[derive(Debug, Clone)]
pub struct FanoutRun {
    /// The message as stored and pushed (single-chat routing normalised).
    pub message: Message,
    pub recipients: Vec<String>,
    pub large_conversation: bool,
    pub stage: FanoutStage,
}

/// The push that ends every fanout that got past storage.
pub open spec fn push_kind(svc: MessageFanoutService) -> FanoutActionKind {
    if svc.inline_message_push_enabled {
        FanoutActionKind::PushInline
    } else {
        FanoutActionKind::PushPing
    }
}

/// The index update for a conversation of the given size.
pub open spec fn sync_kind(large: bool) -> FanoutActionKind {
    if large {
        FanoutActionKind::RecordConversationVersionBump
    } else {
        FanoutActionKind::RecordConversationChange
    }
}

/// The next stage and action kind after the action of `stage` ended with `result`.
pub open spec fn step(svc: MessageFanoutService, large: bool, stage: FanoutStage, result: StepResult) -> (FanoutStage, FanoutActionKind) {
    match stage {
        FanoutStage::Storing => if result == StepResult::Failed {
            (FanoutStage::Done, FanoutActionKind::Abort)
        } else if svc.user_sync_index {
            (FanoutStage::Syncing, sync_kind(large))
        } else {
            (FanoutStage::Pushing, push_kind(svc))
        },
        FanoutStage::Syncing => if result == StepResult::Failed && svc.user_sync_compensation {
            (FanoutStage::Compensating, FanoutActionKind::EnqueueCompensation)
        } else {
            (FanoutStage::Pushing, push_kind(svc))
        },
        FanoutStage::Compensating => (FanoutStage::Pushing, push_kind(svc)),
        FanoutStage::Pushing => if result == StepResult::Failed {
            (FanoutStage::Done, FanoutActionKind::Abort)
        } else {
            (FanoutStage::Done, FanoutActionKind::Complete)
        },
        FanoutStage::Done => (FanoutStage::Done, FanoutActionKind::Complete),
    }
}

/// The users an action of `kind` names: none for a large conversation's
/// compensation task and ping, the resolved recipients otherwise.
pub open spec fn action_users(kind: FanoutActionKind, large: bool, recipients: Seq<String>) -> Seq<String> {
    match kind {
        FanoutActionKind::RecordConversationChange => recipients,
        FanoutActionKind::PushInline => recipients,
        FanoutActionKind::EnqueueCompensation | FanoutActionKind::PushPing => if large {
            Seq::empty()
        } else {
            recipients
        },
        _ => Seq::empty(),
    }
}

impl MessageFanoutService {
    /// No user-sync repositories; inline push enabled.
    pub fn new() -> (r: Self)
        ensures
            !r.user_sync_index,
            !r.user_sync_compensation,
            r.inline_message_push_enabled,
    {
        MessageFanoutService { user_sync_index: false, user_sync_compensation: false, inline_message_push_enabled: true }
    }

    /// The same fanout with a user-sync index.
    pub fn with_user_sync_index(self) -> (r: Self)
        ensures
            r == (MessageFanoutService { user_sync_index: true, ..self }),
    {
        MessageFanoutService { user_sync_index: true, ..self }
    }

    /// The same fanout with a compensation queue.
    pub fn with_user_sync_compensation(self) -> (r: Self)
        ensures
            r == (MessageFanoutService { user_sync_compensation: true, ..self }),
    {
        MessageFanoutService { user_sync_compensation: true, ..self }
    }

    /// The same fanout with inline push switched on or off.
    pub fn with_inline_message_push_enabled(self, enabled: bool) -> (r: Self)
        ensures
            r == (MessageFanoutService { inline_message_push_enabled: enabled, ..self }),
    {
        MessageFanoutService { inline_message_push_enabled: enabled, ..self }
    }

    /// Starts a fanout.  Outside large conversations a single-chat message
    /// is routed to its resolved peer first.  The first action is always
    /// storing the message.
    pub fn begin(&self, message: Message, recipients: Vec<String>, large_conversation: bool) -> (r: (FanoutRun, FanoutAction))
        ensures
            r.0.message == (Message {
                channel_id: r.0.message.channel_id,
                ..message
            }),
            r.0.message.channel_id@ == (if large_conversation {
                message.channel_id@
            } else {
                routed_channel_id(message.conversation_type, message.channel_id@, message.sender_id@, recipients@)
            }),
            r.0.recipients@ == recipients@,
            r.0.large_conversation == large_conversation,
            r.0.stage == FanoutStage::Storing,
            r.1 == FanoutAction::Store,
    {
        let mut message = message;
        if !large_conversation {
            let routed = normalize_single_chat_channel(
                message.conversation_type,
                message.channel_id.as_str(),
                message.sender_id.as_str(),
                recipients.as_slice(),
            );
            message.channel_id = routed;
        }
        (FanoutRun { message, recipients, large_conversation, stage: FanoutStage::Storing }, FanoutAction::Store)
    }

    fn users_for(kind: FanoutActionKind, large: bool, recipients: &Vec<String>) -> (r: Vec<String>)
        ensures
            r@ == action_users(kind, large, recipients@),
    {
        match kind {
            FanoutActionKind::RecordConversationChange | FanoutActionKind::PushInline => clone_strings(recipients),
            FanoutActionKind::EnqueueCompensation | FanoutActionKind::PushPing => if large {
                Vec::new()
            } else {
                clone_strings(recipients)
            },
            _ => Vec::new(),
        }
    }

    /// Records how the last action ended and names the next one.
    pub fn advance(&self, run: &mut FanoutRun, result: StepResult) -> (r: FanoutAction)
        ensures
            (final(run).stage, r.kind()) == step(*self, old(run).large_conversation, old(run).stage, result),
            r.users() == action_users(r.kind(), old(run).large_conversation, old(run).recipients@),
            r matches FanoutAction::EnqueueCompensation { kind, .. } ==> kind == (if old(run).large_conversation {
                UserSyncCompensationKind::ConversationVersionBump
            } else {
                UserSyncCompensationKind::EagerUserChanges
            }),
            r matches FanoutAction::PushPing { large_conversation, .. } ==> large_conversation
                == old(run).large_conversation,
            final(run).message == old(run).message,
            final(run).recipients@ == old(run).recipients@,
            final(run).large_conversation == old(run).large_conversation,
    {
        let large = run.large_conversation;
        let push = if self.inline_message_push_enabled {
            FanoutActionKind::PushInline
        } else {
            FanoutActionKind::PushPing
        };
        let (stage, kind) = match run.stage {
            FanoutStage::Storing => {
                if result == StepResult::Failed {
                    (FanoutStage::Done, FanoutActionKind::Abort)
                } else if self.user_sync_index {
                    (FanoutStage::Syncing, if large {
                        FanoutActionKind::RecordConversationVersionBump
                    } else {
                        FanoutActionKind::RecordConversationChange
                    })
                } else {
                    (FanoutStage::Pushing, push)
                }
            },
            FanoutStage::Syncing => {
                if result == StepResult::Failed && self.user_sync_compensation {
                    (FanoutStage::Compensating, FanoutActionKind::EnqueueCompensation)
                } else {
                    (FanoutStage::Pushing, push)
                }
            },
            FanoutStage::Compensating => (FanoutStage::Pushing, push),
            FanoutStage::Pushing => {
                if result == StepResult::Failed {
                    (FanoutStage::Done, FanoutActionKind::Abort)
                } else {
                    (FanoutStage::Done, FanoutActionKind::Complete)
                }
            },
            FanoutStage::Done => (FanoutStage::Done, FanoutActionKind::Complete),
        };
        run.stage = stage;
        let users = Self::users_for(kind, large, &run.recipients);
        match kind {
            FanoutActionKind::Store => FanoutAction::Store,
            FanoutActionKind::RecordConversationChange => FanoutAction::RecordConversationChange { user_ids: users },
            FanoutActionKind::RecordConversationVersionBump => FanoutAction::RecordConversationVersionBump,
            FanoutActionKind::EnqueueCompensation => FanoutAction::EnqueueCompensation {
                kind: if large {
                    UserSyncCompensationKind::ConversationVersionBump
                } else {
                    UserSyncCompensationKind::EagerUserChanges
                },
                user_ids: users,
            },
            FanoutActionKind::PushPing => FanoutAction::PushPing { recipients: users, large_conversation: large },
            FanoutActionKind::PushInline => FanoutAction::PushInline { recipients: users },
            FanoutActionKind::Complete => FanoutAction::Complete,
            FanoutActionKind::Abort => FanoutAction::Abort,
        }
    }
}

/// The fanout of a persistent event: the same sequence as a message's in a
/// small conversation (store, per-user index update, compensation on
/// failure, push), without routing normalisation.
#[derive(Debug, Clone, Copy, PartialEq, Eq, Structural)]
pub struct EventFanoutService {
    pub user_sync_index: bool,
    pub user_sync_compensation: bool,
}

/// The message fanout an event fanout follows.
pub open spec fn as_message_fanout(e: EventFanoutService) -> MessageFanoutService {
    MessageFanoutService {
        user_sync_index: e.user_sync_index,
        user_sync_compensation: e.user_sync_compensation,
        inline_message_push_enabled: true,
    }
}

/// One fanout of one event.
#[derive(Debug, Clone)]
pub struct EventFanoutRun {
    pub recipients: Vec<String>,
    pub stage: FanoutStage,
}

impl EventFanoutService {
    /// No user-sync repositories.
    pub fn new() -> (r: Self)
        ensures
            !r.user_sync_index,
            !r.user_sync_compensation,
    {
        EventFanoutService { user_sync_index: false, user_sync_compensation: false }
    }

    pub fn with_user_sync_index(self) -> (r: Self)
        ensures
            r == (EventFanoutService { user_sync_index: true, ..self }),
    {
        EventFanoutService { user_sync_index: true, ..self }
    }

    pub fn with_user_sync_compensation(self) -> (r: Self)
        ensures
            r == (EventFanoutService { user_sync_compensation: true, ..self }),
    {
        EventFanoutService { user_sync_compensation: true, ..self }
    }

    /// Starts an event fanout: the event is stored first.
    pub fn begin(&self, recipients: Vec<String>) -> (r: (EventFanoutRun, FanoutAction))
        ensures
            r.0.recipients@ == recipients@,
            r.0.stage == FanoutStage::Storing,
            r.1 == FanoutAction::Store,
    {
        (EventFanoutRun { recipients, stage: FanoutStage::Storing }, FanoutAction::Store)
    }

    /// Records how the last action ended and names the next one; the push
    /// publishes the event inline to the recipients.
    pub fn advance(&self, run: &mut EventFanoutRun, result: StepResult) -> (r: FanoutAction)
        ensures
            (final(run).stage, r.kind()) == step(as_message_fanout(*self), false, old(run).stage, result),
            r.users() == action_users(r.kind(), false, old(run).recipients@),
            r matches FanoutAction::EnqueueCompensation { kind, .. } ==> kind
                == UserSyncCompensationKind::EagerUserChanges,
            final(run).recipients@ == old(run).recipients@,
    {
        let svc = MessageFanoutService {
            user_sync_index: self.user_sync_index,
            user_sync_compensation: self.user_sync_compensation,
            inline_message_push_enabled: true,
        };
        let (stage, kind) = match run.stage {
            FanoutStage::Storing => {
                if result == StepResult::Failed {
                    (FanoutStage::Done, FanoutActionKind::Abort)
                } else if svc.user_sync_index {
                    (FanoutStage::Syncing, FanoutActionKind::RecordConversationChange)
                } else {
                    (FanoutStage::Pushing, FanoutActionKind::PushInline)
                }
            },
            FanoutStage::Syncing => {
                if result == StepResult::Failed && svc.user_sync_compensation {
                    (FanoutStage::Compensating, FanoutActionKind::EnqueueCompensation)
                } else {
                    (FanoutStage::Pushing, FanoutActionKind::PushInline)
                }
            },
            FanoutStage::Compensating => (FanoutStage::Pushing, FanoutActionKind::PushInline),
            FanoutStage::Pushing => {
                if result == StepResult::Failed {
                    (FanoutStage::Done, FanoutActionKind::Abort)
                } else {
                    (FanoutStage::Done, FanoutActionKind::Complete)
                }
            },
            FanoutStage::Done => (FanoutStage::Done, FanoutActionKind::Complete),
        };
        run.stage = stage;
        let users = MessageFanoutService::users_for(kind, false, &run.recipients);
        match kind {
            FanoutActionKind::RecordConversationChange => FanoutAction::RecordConversationChange { user_ids: users },
            FanoutActionKind::EnqueueCompensation => FanoutAction::EnqueueCompensation {
                kind: UserSyncCompensationKind::EagerUserChanges,
                user_ids: users,
            },
            FanoutActionKind::PushInline => FanoutAction::PushInline { recipients: users },
            FanoutActionKind::Abort => FanoutAction::Abort,
            _ => FanoutAction::Complete,
        }
    }
}

/// Whether an action kind publishes to the push stream.
pub open spec fn is_push(kind: FanoutActionKind) -> bool {
    kind == FanoutActionKind::PushPing || kind == FanoutActionKind::PushInline
}

/// Storage comes before push: a push is only ever handed out once the
/// message was stored, and a failed store aborts the fanout.
pub proof fn lemma_store_before_push(svc: MessageFanoutService, large: bool, result: StepResult)
    ensures
        result == StepResult::Failed ==> step(svc, large, FanoutStage::Storing, result)
            == (FanoutStage::Done, FanoutActionKind::Abort),
        result == StepResult::Succeeded && !svc.user_sync_index ==> is_push(
            step(svc, large, FanoutStage::Storing, result).1,
        ),
        result == StepResult::Succeeded && svc.user_sync_index ==> step(svc, large, FanoutStage::Storing, result).1
            == sync_kind(large),
{
}

/// A failed user-sync index update never blocks delivery: after it, the
/// push follows directly or right after the compensation task, whatever
/// the enqueue's result.
pub proof fn lemma_sync_failure_still_pushes(
    svc: MessageFanoutService,
    large: bool,
    sync_result: StepResult,
    enqueue_result: StepResult,
)
    ensures
        ({
            let (s1, k1) = step(svc, large, FanoutStage::Syncing, sync_result);
            is_push(k1) || (k1 == FanoutActionKind::EnqueueCompensation && is_push(
                step(svc, large, s1, enqueue_result).1,
            ))
        }),
{
}

/// The push is the last action: after it only completion or abort follows,
/// and a completed fanout stays complete.
pub proof fn lemma_push_is_last(svc: MessageFanoutService, large: bool, result: StepResult)
    ensures
        step(svc, large, FanoutStage::Pushing, result).0 == FanoutStage::Done,
        step(svc, large, FanoutStage::Pushing, result).1 == FanoutActionKind::Complete
            || step(svc, large, FanoutStage::Pushing, result).1 == FanoutActionKind::Abort,
        step(svc, large, FanoutStage::Done, result) == (FanoutStage::Done, FanoutActionKind::Complete),
        !is_push(step(svc, large, FanoutStage::Pushing, result).1),
{
}

/// The push mode follows the kill switch: inline when enabled, a
/// notify+pull ping when disabled.
pub proof fn lemma_push_mode(svc: MessageFanoutService, large: bool, stage: FanoutStage, result: StepResult)
    ensures
        is_push(step(svc, large, stage, result).1) ==> step(svc, large, stage, result).1 == push_kind(svc),
{
}

/// A large conversation's compensation task and ping name no recipients,
/// and its index update is the conversation-level version bump.
pub proof fn lemma_large_conversation_names_no_recipients(recipients: Seq<String>)
    ensures
        action_users(FanoutActionKind::EnqueueCompensation, true, recipients) == Seq::<String>::empty(),
        action_users(FanoutActionKind::PushPing, true, recipients) == Seq::<String>::empty(),
        sync_kind(true) == FanoutActionKind::RecordConversationVersionBump,
{
}

/// Every fanout ends: whatever the actions report, at most four results
/// after the store the run is done (store, index update, compensation,
/// push), and a done run stays done.
pub proof fn lemma_fanout_ends(
    svc: MessageFanoutService,
    large: bool,
    r1: StepResult,
    r2: StepResult,
    r3: StepResult,
    r4: StepResult,
)
    ensures
        ({
            let s1 = step(svc, large, FanoutStage::Storing, r1).0;
            let s2 = step(svc, large, s1, r2).0;
            let s3 = step(svc, large, s2, r3).0;
            step(svc, large, s3, r4).0 == FanoutStage::Done
        }),
        forall|r: StepResult| #[trigger] step(svc, large, FanoutStage::Done, r).0 == FanoutStage::Done,
{
}

/// A compensation task follows a failed user-sync index update (when a
/// compensation queue is configured) and nothing else; after a successful
/// index update the push comes next.
pub proof fn lemma_compensation_only_after_failed_sync(
    svc: MessageFanoutService,
    large: bool,
    stage: FanoutStage,
    result: StepResult,
)
    ensures
        step(svc, large, stage, result).1 == FanoutActionKind::EnqueueCompensation <==> (stage == FanoutStage::Syncing
            && result == StepResult::Failed && svc.user_sync_compensation),
        step(svc, large, FanoutStage::Syncing, StepResult::Succeeded).0 == FanoutStage::Pushing,
        is_push(step(svc, large, FanoutStage::Syncing, StepResult::Succeeded).1),
{
}

} // verus!
