//! Validation strategies for messages and events, and their composition.
//!
//! A validation yields a `ValidationResult`: whether the input is valid and
//! the error and warning texts.  Composite strategies run their strategies
//! in order, merge the results and stop at the first invalid one.
use vstd::prelude::*;
use vstd::string::*;
use crate::text::{blank, is_blank, u64_to_string, decimal, signed_decimal, i64_to_string};
use crate::model::{
    EventType, EventTypeCode, ConversationType, CallSessionKind, CallAudience, CallSignal,
    CallSignalEvent, Event, EventPayload, Message,
};
use crate::field_map::FieldMap;
use crate::recipients::string_views;

verus! {

// ---------------------------------------------------------------------------
// Results
// ---------------------------------------------------------------------------

/// Whether an input is valid, and why not.
#[derive(Debug)]
pub struct ValidationResult {
    pub is_valid: bool,
    pub errors: Vec<String>,
    pub warnings: Vec<String>,
}

/// The abstract content of a result: validity, error texts, warning texts.
pub type Verdict = (bool, Seq<Seq<char>>, Seq<Seq<char>>);

impl ValidationResult {
    pub open spec fn verdict(&self) -> Verdict {
        (self.is_valid, string_views(self.errors@), string_views(self.warnings@))
    }

    /// A valid result with no messages.
    pub fn valid() -> (r: Self)
        ensures
            r.verdict() == pass(),
    {
        let r = ValidationResult { is_valid: true, errors: Vec::new(), warnings: Vec::new() };
        assert(r.verdict() =~= pass());
        r
    }

    /// An invalid result with one error.
    pub fn invalid(error: String) -> (r: Self)
        ensures
            r.verdict() == fail(error@),
    {
        let mut errors: Vec<String> = Vec::new();
        let ghost e = error@;
        errors.push(error);
        let r = ValidationResult { is_valid: false, errors, warnings: Vec::new() };
        assert(string_views(r.errors@) =~= seq![e]);
        assert(string_views(r.warnings@) =~= Seq::<Seq<char>>::empty());
        r
    }

    /// The same result with one more warning.
    pub fn with_warning(self, warning: String) -> (r: Self)
        ensures
            r.verdict() == (self.verdict().0, self.verdict().1, self.verdict().2.push(warning@)),
    {
        let mut s = self;
        let ghost w = s.warnings@;
        let ghost wv = warning@;
        s.warnings.push(warning);
        assert(string_views(s.warnings@) =~= string_views(w).push(wv));
        s
    }

    /// Both results at once: valid when both are, with the errors and warnings
    /// of `self` followed by those of `other`.
    pub fn merge(self, other: ValidationResult) -> (r: Self)
        ensures
            r.verdict() == merged(self.verdict(), other.verdict()),
    {
        let mut s = self;
        let mut o = other;
        let ghost se = s.errors@;
        let ghost sw = s.warnings@;
        let ghost oe = o.errors@;
        let ghost ow = o.warnings@;
        s.is_valid = s.is_valid && o.is_valid;
        s.errors.append(&mut o.errors);
        s.warnings.append(&mut o.warnings);
        assert(string_views(s.errors@) =~= string_views(se) + string_views(oe));
        assert(string_views(s.warnings@) =~= string_views(sw) + string_views(ow));
        s
    }
}

pub open spec fn pass() -> Verdict {
    (true, Seq::empty(), Seq::empty())
}

pub open spec fn fail(error: Seq<char>) -> Verdict {
    (false, seq![error], Seq::empty())
}

pub open spec fn merged(a: Verdict, b: Verdict) -> Verdict {
    (a.0 && b.0, a.1 + b.1, a.2 + b.2)
}

/// Merging is associative and `pass()` is its unit, so a composite's result
/// does not depend on how its strategies are grouped.
pub proof fn lemma_merge_monoid(a: Verdict, b: Verdict, c: Verdict)
    ensures
        merged(merged(a, b), c) == merged(a, merged(b, c)),
        merged(pass(), a) == a,
        merged(a, pass()) == a,
{
    assert(merged(merged(a, b), c) =~= merged(a, merged(b, c)));
    assert(merged(pass(), a) =~= a);
    assert(merged(a, pass()) =~= a);
}

// ---------------------------------------------------------------------------
// Messages
// ---------------------------------------------------------------------------

/// Default size limit: 10 MiB.
pub const DEFAULT_MAX_MESSAGE_SIZE: usize = 10485760;

/// Rejects messages whose encoded form is larger than a limit.
#[derive(Debug, Clone, Copy)]
pub struct MessageSizeValidationStrategy {
    pub max_message_size: usize,
}

pub open spec fn size_check(max: usize, encoded_len: usize) -> Verdict {
    if encoded_len > max {
        fail(
            "Message size "@ + decimal(encoded_len as nat) + " bytes exceeds maximum allowed size "@
                + decimal(max as nat) + " bytes"@,
        )
    } else {
        pass()
    }
}

impl MessageSizeValidationStrategy {
    pub fn new(max_message_size: usize) -> (r: Self)
        ensures
            r.max_message_size == max_message_size,
    {
        MessageSizeValidationStrategy { max_message_size }
    }

    /// Validates a message by the length of its encoded form.
    pub fn validate(&self, encoded_len: usize) -> (r: ValidationResult)
        ensures
            r.verdict() == size_check(self.max_message_size, encoded_len),
    {
        if encoded_len > self.max_message_size {
            let mut text = String::from_str("Message size ");
            let n = u64_to_string(encoded_len as u64);
            text.append(n.as_str());
            text.append(" bytes exceeds maximum allowed size ");
            let m = u64_to_string(self.max_message_size as u64);
            text.append(m.as_str());
            text.append(" bytes");
            ValidationResult::invalid(text)
        } else {
            ValidationResult::valid()
        }
    }
}

impl Default for MessageSizeValidationStrategy {
    fn default() -> (r: Self)
        ensures
            r.max_message_size == DEFAULT_MAX_MESSAGE_SIZE,
    {
        MessageSizeValidationStrategy::new(DEFAULT_MAX_MESSAGE_SIZE)
    }
}

/// Requires a conversation, a sender and, in single chats, a receiver.
#[derive(Debug, Clone, Copy)]
pub struct MessageRequiredFieldsValidationStrategy;

pub open spec fn required_message_fields_check(m: Message) -> Verdict {
    let r0 = pass();
    let r1 = if m.conversation_id@.len() == 0 {
        merged(r0, fail("conversation_id is required"@))
    } else {
        r0
    };
    let r2 = if m.sender_id@.len() == 0 {
        merged(r1, fail("sender_id is required"@))
    } else {
        r1
    };
    if m.conversation_type == ConversationType::Single && m.channel_id@.len() == 0 {
        merged(r2, fail("channel_id (receiver_id) is required for single chat"@))
    } else {
        r2
    }
}

impl MessageRequiredFieldsValidationStrategy {
    pub fn validate(&self, message: &Message) -> (r: ValidationResult)
        ensures
            r.verdict() == required_message_fields_check(*message),
    {
        let mut result = ValidationResult::valid();
        if message.conversation_id.unicode_len() == 0 {
            result = result.merge(ValidationResult::invalid(String::from_str("conversation_id is required")));
        }
        if message.sender_id.unicode_len() == 0 {
            result = result.merge(ValidationResult::invalid(String::from_str("sender_id is required")));
        }
        if message.conversation_type == ConversationType::Single && message.channel_id.unicode_len() == 0 {
            result = result.merge(
                ValidationResult::invalid(String::from_str("channel_id (receiver_id) is required for single chat")),
            );
        }
        result
    }
}

/// A message validation strategy.
#[derive(Debug, Clone, Copy)]
pub enum MessageValidator {
    Size(MessageSizeValidationStrategy),
    RequiredFields(MessageRequiredFieldsValidationStrategy),
}

pub open spec fn message_check(v: MessageValidator, m: Message, encoded_len: usize) -> Verdict {
    match v {
        MessageValidator::Size(s) => size_check(s.max_message_size, encoded_len),
        MessageValidator::RequiredFields(_) => required_message_fields_check(m),
    }
}

/// Merges the checks of `vs` in order, stopping after the first that leaves
/// the merged result invalid.
pub open spec fn message_fold(vs: Seq<MessageValidator>, m: Message, encoded_len: usize, acc: Verdict) -> Verdict
    decreases vs.len(),
{
    if vs.len() == 0 || !acc.0 {
        acc
    } else {
        message_fold(vs.drop_first(), m, encoded_len, merged(acc, message_check(vs[0], m, encoded_len)))
    }
}

/// Runs message strategies in order and stops at the first failure.
pub struct CompositeMessageValidationStrategy {
    pub strategies: Vec<MessageValidator>,
}

impl CompositeMessageValidationStrategy {
    pub fn new(strategies: Vec<MessageValidator>) -> (r: Self)
        ensures
            r.strategies@ == strategies@,
    {
        CompositeMessageValidationStrategy { strategies }
    }

    /// The size check (10 MiB) followed by the required-fields check.
    pub fn default_composite() -> (r: Self)
        ensures
            r.strategies@.len() == 2,
            r.strategies@[0] matches MessageValidator::Size(s) && s.max_message_size == DEFAULT_MAX_MESSAGE_SIZE,
            r.strategies@[1] is RequiredFields,
    {
        let mut v: Vec<MessageValidator> = Vec::new();
        v.push(MessageValidator::Size(MessageSizeValidationStrategy::new(DEFAULT_MAX_MESSAGE_SIZE)));
        v.push(MessageValidator::RequiredFields(MessageRequiredFieldsValidationStrategy));
        CompositeMessageValidationStrategy { strategies: v }
    }

    /// Validates a message whose encoded form is `encoded_len` bytes long.
    pub fn validate(&self, message: &Message, encoded_len: usize) -> (r: ValidationResult)
        ensures
            r.verdict() == message_fold(self.strategies@, *message, encoded_len, pass()),
    {
        let mut result = ValidationResult::valid();
        let mut i: usize = 0;
        assert(self.strategies@.subrange(0, self.strategies@.len() as int) =~= self.strategies@);
        while i < self.strategies.len()
            invariant
                i <= self.strategies@.len(),
                result.verdict().0,
                message_fold(self.strategies@, *message, encoded_len, pass()) == message_fold(
                    self.strategies@.subrange(i as int, self.strategies@.len() as int),
                    *message,
                    encoded_len,
                    result.verdict(),
                ),
            decreases self.strategies@.len() - i,
        {
            let ghost rest = self.strategies@.subrange(i as int, self.strategies@.len() as int);
            assert(rest[0] == self.strategies@[i as int]);
            assert(rest.drop_first() =~= self.strategies@.subrange(i + 1, self.strategies@.len() as int));
            let r = match self.strategies[i] {
                MessageValidator::Size(s) => s.validate(encoded_len),
                MessageValidator::RequiredFields(s) => s.validate(message),
            };
            result = result.merge(r);
            if !result.is_valid {
                assert(message_fold(rest.drop_first(), *message, encoded_len, result.verdict()) == result.verdict());
                return result;
            }
            i = i + 1;
        }
        result
    }
}

// ---------------------------------------------------------------------------
// Events
// ---------------------------------------------------------------------------

impl EventType {
    /// The name the event type is printed with.
    pub open spec fn name_spec(self) -> Seq<char> {
        match self {
            EventType::Unspecified => "Unspecified"@,
            EventType::Message => "EventMessage"@,
            EventType::MessageRecall => "EventMessageRecall"@,
            EventType::MessageEdit => "EventMessageEdit"@,
            EventType::MessageDelete => "EventMessageDelete"@,
            EventType::ReadReceipt => "EventReadReceipt"@,
            EventType::Typing => "EventTyping"@,
            EventType::ConversationUpdate => "EventConversationUpdate"@,
            EventType::ConversationDelete => "EventConversationDelete"@,
            EventType::Presence => "EventPresence"@,
            EventType::CallSignal => "EventCallSignal"@,
            EventType::Reaction => "EventReaction"@,
            EventType::Pin => "EventPin"@,
            EventType::Unpin => "EventUnpin"@,
            EventType::Mark => "EventMark"@,
            EventType::Unmark => "EventUnmark"@,
            EventType::Custom => "EventCustom"@,
        }
    }

    pub fn name(&self) -> (r: &'static str)
        ensures
            r@ == self.name_spec(),
    {
        match self {
            EventType::Unspecified => "Unspecified",
            EventType::Message => "EventMessage",
            EventType::MessageRecall => "EventMessageRecall",
            EventType::MessageEdit => "EventMessageEdit",
            EventType::MessageDelete => "EventMessageDelete",
            EventType::ReadReceipt => "EventReadReceipt",
            EventType::Typing => "EventTyping",
            EventType::ConversationUpdate => "EventConversationUpdate",
            EventType::ConversationDelete => "EventConversationDelete",
            EventType::Presence => "EventPresence",
            EventType::CallSignal => "EventCallSignal",
            EventType::Reaction => "EventReaction",
            EventType::Pin => "EventPin",
            EventType::Unpin => "EventUnpin",
            EventType::Mark => "EventMark",
            EventType::Unmark => "EventUnmark",
            EventType::Custom => "EventCustom",
        }
    }
}

/// Accepts events whose type is in an allow-list.
#[derive(Debug, Clone)]
pub struct EventTypeValidationStrategy {
    pub allowed_types: Vec<EventType>,
}

pub open spec fn event_type_check(allowed: Seq<EventType>, code: EventTypeCode) -> Verdict {
    match code {
        EventTypeCode::Known(t) => if allowed.contains(t) {
            pass()
        } else {
            fail("Event type "@ + t.name_spec() + " is not allowed"@)
        },
        EventTypeCode::Unrecognized(raw) => fail("Invalid event type: "@ + signed_decimal(raw as int)),
    }
}

/// Every event type the orchestrator handles (all but `Unspecified`).
pub open spec fn all_supported_types() -> Seq<EventType> {
    seq![
        EventType::Message,
        EventType::MessageRecall,
        EventType::MessageEdit,
        EventType::MessageDelete,
        EventType::ReadReceipt,
        EventType::Typing,
        EventType::ConversationUpdate,
        EventType::ConversationDelete,
        EventType::Presence,
        EventType::CallSignal,
        EventType::Reaction,
        EventType::Pin,
        EventType::Unpin,
        EventType::Mark,
        EventType::Unmark,
        EventType::Custom,
    ]
}

/// The default allow-list holds every event type but `Unspecified`, so the
/// event-type check of the default validator passes exactly the events of a
/// known, specified type.
pub proof fn lemma_all_supported_allows_every_specified_type(t: EventType)
    ensures
        all_supported_types().contains(t) <==> t != EventType::Unspecified,
        t != EventType::Unspecified ==> event_type_check(all_supported_types(), EventTypeCode::Known(t)) == pass(),
{
    let s = all_supported_types();
    match t {
        EventType::Unspecified => {
            assert forall|i: int| 0 <= i < s.len() implies s[i] != EventType::Unspecified by {}
        },
        EventType::Message => assert(s[0] == t),
        EventType::MessageRecall => assert(s[1] == t),
        EventType::MessageEdit => assert(s[2] == t),
        EventType::MessageDelete => assert(s[3] == t),
        EventType::ReadReceipt => assert(s[4] == t),
        EventType::Typing => assert(s[5] == t),
        EventType::ConversationUpdate => assert(s[6] == t),
        EventType::ConversationDelete => assert(s[7] == t),
        EventType::Presence => assert(s[8] == t),
        EventType::CallSignal => assert(s[9] == t),
        EventType::Reaction => assert(s[10] == t),
        EventType::Pin => assert(s[11] == t),
        EventType::Unpin => assert(s[12] == t),
        EventType::Mark => assert(s[13] == t),
        EventType::Unmark => assert(s[14] == t),
        EventType::Custom => assert(s[15] == t),
    }
}

impl EventTypeValidationStrategy {
    pub fn new(allowed_types: Vec<EventType>) -> (r: Self)
        ensures
            r.allowed_types@ == allowed_types@,
    {
        EventTypeValidationStrategy { allowed_types }
    }

    /// Allows every event type but `Unspecified`.
    pub fn all_supported() -> (r: Self)
        ensures
            r.allowed_types@ == all_supported_types(),
    {
        let mut v: Vec<EventType> = Vec::new();
        v.push(EventType::Message);
        v.push(EventType::MessageRecall);
        v.push(EventType::MessageEdit);
        v.push(EventType::MessageDelete);
        v.push(EventType::ReadReceipt);
        v.push(EventType::Typing);
        v.push(EventType::ConversationUpdate);
        v.push(EventType::ConversationDelete);
        v.push(EventType::Presence);
        v.push(EventType::CallSignal);
        v.push(EventType::Reaction);
        v.push(EventType::Pin);
        v.push(EventType::Unpin);
        v.push(EventType::Mark);
        v.push(EventType::Unmark);
        v.push(EventType::Custom);
        assert(v@ =~= all_supported_types());
        EventTypeValidationStrategy { allowed_types: v }
    }

    fn allows(&self, t: EventType) -> (r: bool)
        ensures
            r == self.allowed_types@.contains(t),
    {
        let mut i: usize = 0;
        while i < self.allowed_types.len()
            invariant
                i <= self.allowed_types@.len(),
                forall|j: int| 0 <= j < i ==> self.allowed_types@[j] != t,
            decreases self.allowed_types@.len() - i,
        {
            if self.allowed_types[i] == t {
                return true;
            }
            i = i + 1;
        }
        false
    }

    pub fn validate(&self, event: &Event) -> (r: ValidationResult)
        ensures
            r.verdict() == event_type_check(self.allowed_types@, event.event_type),
    {
        match event.event_type {
            EventTypeCode::Known(t) => {
                if self.allows(t) {
                    ValidationResult::valid()
                } else {
                    let mut text = String::from_str("Event type ");
                    text.append(t.name());
                    text.append(" is not allowed");
                    ValidationResult::invalid(text)
                }
            },
            EventTypeCode::Unrecognized(raw) => {
                let mut text = String::from_str("Invalid event type: ");
                let n = i64_to_string(raw as i64);
                text.append(n.as_str());
                ValidationResult::invalid(text)
            },
        }
    }
}

/// Requires a conversation and an event id.
#[derive(Debug, Clone, Copy)]
pub struct EventRequiredFieldsValidationStrategy;

pub open spec fn required_event_fields_check(e: Event) -> Verdict {
    let r0 = pass();
    let r1 = if e.conversation_id@.len() == 0 {
        merged(r0, fail("conversation_id is required for event"@))
    } else {
        r0
    };
    if e.event_id@.len() == 0 {
        merged(r1, fail("event_id is required for event"@))
    } else {
        r1
    }
}

impl EventRequiredFieldsValidationStrategy {
    pub fn validate(&self, event: &Event) -> (r: ValidationResult)
        ensures
            r.verdict() == required_event_fields_check(*event),
    {
        let mut result = ValidationResult::valid();
        if event.conversation_id.unicode_len() == 0 {
            result = result.merge(ValidationResult::invalid(String::from_str("conversation_id is required for event")));
        }
        if event.event_id.unicode_len() == 0 {
            result = result.merge(ValidationResult::invalid(String::from_str("event_id is required for event")));
        }
        result
    }
}

/// What is known of a conversation id's format: whether it is a valid
/// canonical id, and whether it names a single chat.  Both are decided by the
/// conversation-id codec on the trimmed id.
#[derive(Debug, Clone, Copy)]
pub struct ConversationIdCheck {
    pub valid: bool,
    pub single_chat: bool,
}

/// Why a call invite is malformed (`None` when it is well-formed).
pub open spec fn invite_problem(cid: ConversationIdCheck, cs: CallSignalEvent) -> Option<Seq<char>> {
    if !cid.valid {
        Some("call_signal invite requires valid canonical conversation_id (CID v1)"@)
    } else if cs.media_session_kind == CallSessionKind::Unspecified {
        Some("call_signal invite requires media_session.kind (DIRECT for single-chat, GROUP otherwise)"@)
    } else if cid.single_chat {
        if cs.media_session_kind != CallSessionKind::Direct {
            Some("single-chat call invite must set media_session.kind=DIRECT"@)
        } else {
            match cs.audience {
                Some(CallAudience::Direct { peer_user_id }) => if !blank(peer_user_id@) {
                    None
                } else {
                    Some("single-chat call invite must set audience.direct.peer_user_id"@)
                },
                _ => Some("single-chat call invite must set audience.direct.peer_user_id"@),
            }
        }
    } else if cs.media_session_kind != CallSessionKind::Group {
        Some("non-single call invite must set media_session.kind=GROUP"@)
    } else {
        match cs.audience {
            Some(CallAudience::Explicit { user_ids }) => if exists|i: int|
                0 <= i < user_ids@.len() && !blank(#[trigger] user_ids@[i]@) {
                None
            } else {
                Some(
                    "call invite audience.explicit.user_ids must be non-empty (use audience.broadcast for ring-all)"@,
                )
            },
            Some(CallAudience::Broadcast) => None,
            _ => Some("non-single call invite must use audience.explicit or audience.broadcast"@),
        }
    }
}

fn any_non_blank(ids: &Vec<String>) -> (r: bool)
    ensures
        r == exists|i: int| 0 <= i < ids@.len() && !blank(#[trigger] ids@[i]@),
{
    let mut i: usize = 0;
    while i < ids.len()
        invariant
            i <= ids@.len(),
            forall|j: int| 0 <= j < i ==> blank(#[trigger] ids@[j]@),
        decreases ids@.len() - i,
    {
        if !is_blank(ids[i].as_str()) {
            return true;
        }
        i = i + 1;
    }
    false
}

/// Checks that a call invite names its media session kind and audience as
/// its conversation requires: single chats ring one direct peer, other
/// conversations ring an explicit, non-empty list or everyone.
pub fn validate_call_signal_invite(cid: ConversationIdCheck, cs: &CallSignalEvent) -> (r: ValidationResult)
    ensures
        r.verdict() == match invite_problem(cid, *cs) {
            Some(msg) => fail(msg),
            None => pass(),
        },
{
    if !cid.valid {
        return ValidationResult::invalid(
            String::from_str("call_signal invite requires valid canonical conversation_id (CID v1)"),
        );
    }
    if cs.media_session_kind == CallSessionKind::Unspecified {
        return ValidationResult::invalid(
            String::from_str(
                "call_signal invite requires media_session.kind (DIRECT for single-chat, GROUP otherwise)",
            ),
        );
    }
    if cid.single_chat {
        if cs.media_session_kind != CallSessionKind::Direct {
            return ValidationResult::invalid(
                String::from_str("single-chat call invite must set media_session.kind=DIRECT"),
            );
        }
        match &cs.audience {
            Some(CallAudience::Direct { peer_user_id }) => {
                if is_blank(peer_user_id.as_str()) {
                    return ValidationResult::invalid(
                        String::from_str("single-chat call invite must set audience.direct.peer_user_id"),
                    );
                }
            },
            _ => {
                return ValidationResult::invalid(
                    String::from_str("single-chat call invite must set audience.direct.peer_user_id"),
                );
            },
        }
    } else {
        if cs.media_session_kind != CallSessionKind::Group {
            return ValidationResult::invalid(
                String::from_str("non-single call invite must set media_session.kind=GROUP"),
            );
        }
        match &cs.audience {
            Some(CallAudience::Explicit { user_ids }) => {
                if !any_non_blank(user_ids) {
                    return ValidationResult::invalid(
                        String::from_str(
                            "call invite audience.explicit.user_ids must be non-empty (use audience.broadcast for ring-all)",
                        ),
                    );
                }
            },
            Some(CallAudience::Broadcast) => {},
            _ => {
                return ValidationResult::invalid(
                    String::from_str("non-single call invite must use audience.explicit or audience.broadcast"),
                );
            },
        }
    }
    ValidationResult::valid()
}

/// Ext keys of an older signalling format that are refused.
pub open spec fn legacy_ext_keys() -> Seq<Seq<char>> {
    seq!["flareSdpType"@, "flareSdp"@, "flareCameraEnabled"@, "flareMicrophoneEnabled"@]
}

/// The first legacy key (in `legacy_ext_keys` order) that `ext` holds.
pub open spec fn first_legacy_key(ext: FieldMap) -> Option<Seq<char>> {
    if ext.get_spec("flareSdpType"@) is Some {
        Some("flareSdpType"@)
    } else if ext.get_spec("flareSdp"@) is Some {
        Some("flareSdp"@)
    } else if ext.get_spec("flareCameraEnabled"@) is Some {
        Some("flareCameraEnabled"@)
    } else if ext.get_spec("flareMicrophoneEnabled"@) is Some {
        Some("flareMicrophoneEnabled"@)
    } else {
        None
    }
}

/// Why a call-signal event is not acceptable for RTC handling (`None` when
/// it is, or when the event is not a call signal).
pub open spec fn call_signal_problem(cid: ConversationIdCheck, e: Event) -> Option<Seq<char>> {
    if e.event_type != EventTypeCode::Known(EventType::CallSignal) {
        None
    } else {
        match e.payload {
            None => Some("EVENT_CALL_SIGNAL requires payload"@),
            Some(EventPayload::CallSignal(cs)) => if blank(cs.from_user_id@) {
                Some("call_signal.from_user_id is required for RTC / capability correlation"@)
            } else if cs.signal matches Some(CallSignal::Invite { .. }) && invite_problem(cid, cs) is Some {
                invite_problem(cid, cs)
            } else if (cs.signal matches Some(CallSignal::Accept { .. }) || cs.signal matches Some(
                CallSignal::Reject { .. },
            ) || cs.signal matches Some(CallSignal::Hangup(_))) && blank(cs.call_id@) {
                Some("call_signal.call_id is required for accept/reject/hangup"@)
            } else if cs.signal matches Some(CallSignal::IceCandidate { candidate_json }) && match candidate_json {
                Some(j) => blank(j@),
                None => true,
            } {
                Some("call_signal.ice_candidate.candidate_json is required"@)
            } else {
                match first_legacy_key(cs.ext) {
                    Some(k) => Some("call_signal.ext contains unsupported legacy key: "@ + k),
                    None => None,
                }
            },
            Some(_) => Some("EVENT_CALL_SIGNAL payload must be CallSignal"@),
        }
    }
}

/// Basic RTC checks of `EVENT_CALL_SIGNAL` before capabilities are invoked:
/// a call-signal payload with a sender, well-formed invites, a call id for
/// accept/reject/hangup, a candidate for ICE, and no legacy ext keys.
#[derive(Debug, Clone, Copy)]
pub struct EventCallSignalRtcValidationStrategy;

impl EventCallSignalRtcValidationStrategy {
    pub fn validate(&self, event: &Event, cid: ConversationIdCheck) -> (r: ValidationResult)
        ensures
            r.verdict() == match call_signal_problem(cid, *event) {
                Some(msg) => fail(msg),
                None => pass(),
            },
    {
        match event.event_type {
            EventTypeCode::Known(EventType::CallSignal) => {},
            _ => {
                return ValidationResult::valid();
            },
        }
        let cs = match &event.payload {
            None => {
                return ValidationResult::invalid(String::from_str("EVENT_CALL_SIGNAL requires payload"));
            },
            Some(EventPayload::CallSignal(cs)) => cs,
            Some(_) => {
                return ValidationResult::invalid(
                    String::from_str("EVENT_CALL_SIGNAL payload must be CallSignal"),
                );
            },
        };
        if is_blank(cs.from_user_id.as_str()) {
            return ValidationResult::invalid(
                String::from_str("call_signal.from_user_id is required for RTC / capability correlation"),
            );
        }
        match &cs.signal {
            Some(CallSignal::Invite { .. }) => {
                let r = validate_call_signal_invite(cid, cs);
                if !r.is_valid {
                    return r;
                }
            },
            _ => {},
        }
        match &cs.signal {
            Some(CallSignal::Accept { .. }) | Some(CallSignal::Reject { .. }) | Some(CallSignal::Hangup(_)) => {
                if is_blank(cs.call_id.as_str()) {
                    return ValidationResult::invalid(
                        String::from_str("call_signal.call_id is required for accept/reject/hangup"),
                    );
                }
            },
            Some(CallSignal::IceCandidate { candidate_json }) => {
                let missing = match candidate_json {
                    Some(j) => is_blank(j.as_str()),
                    None => true,
                };
                if missing {
                    return ValidationResult::invalid(
                        String::from_str("call_signal.ice_candidate.candidate_json is required"),
                    );
                }
            },
            _ => {},
        }
        let keys = ["flareSdpType", "flareSdp", "flareCameraEnabled", "flareMicrophoneEnabled"];
        if cs.ext.contains_key(keys[0]) {
            return legacy_key_rejection(keys[0]);
        }
        if cs.ext.contains_key(keys[1]) {
            return legacy_key_rejection(keys[1]);
        }
        if cs.ext.contains_key(keys[2]) {
            return legacy_key_rejection(keys[2]);
        }
        if cs.ext.contains_key(keys[3]) {
            return legacy_key_rejection(keys[3]);
        }
        ValidationResult::valid()
    }
}

fn legacy_key_rejection(key: &str) -> (r: ValidationResult)
    ensures
        r.verdict() == fail("call_signal.ext contains unsupported legacy key: "@ + key@),
{
    let mut text = String::from_str("call_signal.ext contains unsupported legacy key: ");
    text.append(key);
    ValidationResult::invalid(text)
}

/// An event validation strategy.
#[derive(Debug, Clone)]
pub enum EventValidator {
    EventType(EventTypeValidationStrategy),
    RequiredFields(EventRequiredFieldsValidationStrategy),
    CallSignalRtc(EventCallSignalRtcValidationStrategy),
}

pub open spec fn event_check(v: EventValidator, e: Event, cid: ConversationIdCheck) -> Verdict {
    match v {
        EventValidator::EventType(s) => event_type_check(s.allowed_types@, e.event_type),
        EventValidator::RequiredFields(_) => required_event_fields_check(e),
        EventValidator::CallSignalRtc(_) => match call_signal_problem(cid, e) {
            Some(msg) => fail(msg),
            None => pass(),
        },
    }
}

/// Merges the checks of `vs` in order, stopping after the first that leaves
/// the merged result invalid.
pub open spec fn event_fold(vs: Seq<EventValidator>, e: Event, cid: ConversationIdCheck, acc: Verdict) -> Verdict
    decreases vs.len(),
{
    if vs.len() == 0 || !acc.0 {
        acc
    } else {
        event_fold(vs.drop_first(), e, cid, merged(acc, event_check(vs[0], e, cid)))
    }
}

/// Runs event strategies in order and stops at the first failure.
pub struct CompositeEventValidationStrategy {
    pub strategies: Vec<EventValidator>,
}

impl CompositeEventValidationStrategy {
    pub fn new(strategies: Vec<EventValidator>) -> (r: Self)
        ensures
            r.strategies@ == strategies@,
    {
        CompositeEventValidationStrategy { strategies }
    }

    /// The type check (all supported types), the required-fields check, then
    /// the call-signal RTC check.
    pub fn default_composite() -> (r: Self)
        ensures
            r.strategies@.len() == 3,
            r.strategies@[0] matches EventValidator::EventType(s) && s.allowed_types@ == all_supported_types(),
            r.strategies@[1] is RequiredFields,
            r.strategies@[2] is CallSignalRtc,
    {
        let mut v: Vec<EventValidator> = Vec::new();
        v.push(EventValidator::EventType(EventTypeValidationStrategy::all_supported()));
        v.push(EventValidator::RequiredFields(EventRequiredFieldsValidationStrategy));
        v.push(EventValidator::CallSignalRtc(EventCallSignalRtcValidationStrategy));
        CompositeEventValidationStrategy { strategies: v }
    }

    /// Validates an event; `cid` describes its conversation id.
    pub fn validate(&self, event: &Event, cid: ConversationIdCheck) -> (r: ValidationResult)
        ensures
            r.verdict() == event_fold(self.strategies@, *event, cid, pass()),
    {
        let mut result = ValidationResult::valid();
        let mut i: usize = 0;
        assert(self.strategies@.subrange(0, self.strategies@.len() as int) =~= self.strategies@);
        while i < self.strategies.len()
            invariant
                i <= self.strategies@.len(),
                result.verdict().0,
                event_fold(self.strategies@, *event, cid, pass()) == event_fold(
                    self.strategies@.subrange(i as int, self.strategies@.len() as int),
                    *event,
                    cid,
                    result.verdict(),
                ),
            decreases self.strategies@.len() - i,
        {
            let ghost rest = self.strategies@.subrange(i as int, self.strategies@.len() as int);
            assert(rest[0] == self.strategies@[i as int]);
            assert(rest.drop_first() =~= self.strategies@.subrange(i + 1, self.strategies@.len() as int));
            let r = match &self.strategies[i] {
                EventValidator::EventType(s) => s.validate(event),
                EventValidator::RequiredFields(s) => s.validate(event),
                EventValidator::CallSignalRtc(s) => s.validate(event, cid),
            };
            result = result.merge(r);
            if !result.is_valid {
                assert(event_fold(rest.drop_first(), *event, cid, result.verdict()) == result.verdict());
                return result;
            }
            i = i + 1;
        }
        result
    }
}

} // verus!
