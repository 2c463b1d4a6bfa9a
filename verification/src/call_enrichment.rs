//! Enrichment of call signals through the RTC capability service.
//!
//! Before a call signal is stored and pushed, the capability service is
//! asked to act on it (start, accept, reject or end a call; renegotiate
//! media; relay ICE candidates) and its replies are written back into the
//! signal.  The library plans the capability requests and applies the
//! replies; the caller performs the requests.
use vstd::prelude::*;
use crate::text::{
    trimmed, blank, trim, is_blank, ascii_lower_seq, trim_ascii_lower, is_literal, concat, u64_to_string,
    decimal, unsigned_text_value, parse_u32, str_eq,
};
use crate::field_map::FieldMap;
use crate::model::{CallTransport, CallSignalEvent, CallSignal, Event, EventPayload, EventType, EventTypeCode};
use crate::call_notice::{offers_video, has_video};

verus! {

// ---------------------------------------------------------------------------
// Capabilities
// ---------------------------------------------------------------------------

/// A capability of the RTC service.
#[derive(Debug, Clone, Copy, PartialEq, Eq, Structural)]
pub enum CapabilityKind {
    CallAudioStart,
    CallVideoStart,
    Accept,
    JoinToken,
    Reject,
    End,
    PublisherMute,
    SubscriptionSet,
    SimulcastLayerSet,
    NetworkQualityGet,
    SdpOffer,
    SdpAnswer,
    IceCandidate,
}

impl CapabilityKind {
    pub open spec fn id_spec(self) -> Seq<char> {
        match self {
            CapabilityKind::CallAudioStart => "rtc.call.audio"@,
            CapabilityKind::CallVideoStart => "rtc.call.video"@,
            CapabilityKind::Accept => "rtc.call.accept"@,
            CapabilityKind::JoinToken => "rtc.call.join_token"@,
            CapabilityKind::Reject => "rtc.call.reject"@,
            CapabilityKind::End => "rtc.call.end"@,
            CapabilityKind::PublisherMute => "rtc.media.publisher.mute"@,
            CapabilityKind::SubscriptionSet => "rtc.media.subscription.set"@,
            CapabilityKind::SimulcastLayerSet => "rtc.media.simulcast.layer.set"@,
            CapabilityKind::NetworkQualityGet => "rtc.media.network.quality.get"@,
            CapabilityKind::SdpOffer => "rtc.media.sdp.offer"@,
            CapabilityKind::SdpAnswer => "rtc.media.sdp.answer"@,
            CapabilityKind::IceCandidate => "rtc.media.ice.candidate"@,
        }
    }

    /// The capability's identifier, as dispatched.
    pub fn capability_id(&self) -> (r: &'static str)
        ensures
            r@ == self.id_spec(),
    {
        match self {
            CapabilityKind::CallAudioStart => "rtc.call.audio",
            CapabilityKind::CallVideoStart => "rtc.call.video",
            CapabilityKind::Accept => "rtc.call.accept",
            CapabilityKind::JoinToken => "rtc.call.join_token",
            CapabilityKind::Reject => "rtc.call.reject",
            CapabilityKind::End => "rtc.call.end",
            CapabilityKind::PublisherMute => "rtc.media.publisher.mute",
            CapabilityKind::SubscriptionSet => "rtc.media.subscription.set",
            CapabilityKind::SimulcastLayerSet => "rtc.media.simulcast.layer.set",
            CapabilityKind::NetworkQualityGet => "rtc.media.network.quality.get",
            CapabilityKind::SdpOffer => "rtc.media.sdp.offer",
            CapabilityKind::SdpAnswer => "rtc.media.sdp.answer",
            CapabilityKind::IceCandidate => "rtc.media.ice.candidate",
        }
    }
}

/// The JSON body of a capability request.
#[derive(Debug, Clone)]
pub enum CapabilityPayload {
    /// `{"call_id"?, "ext"?}`: the call id when non-empty, the signal's
    /// `ext` map when non-empty.
    Invite { call_id: Option<String>, ext: Option<FieldMap> },
    /// `{"call_id", "reason"?, "close_room_if_vacant"?}`.
    Call { call_id: String, reason: Option<String>, close_room_if_vacant: Option<bool> },
    PublisherMute { room_id: String, publisher_peer_id: String, mute_audio: bool, mute_video: bool },
    Subscription {
        room_id: String,
        subscriber_peer_id: String,
        track_id: String,
        enable: bool,
        media: Option<String>,
        preferred_layer: Option<String>,
        priority: u32,
    },
    Simulcast { room_id: String, subscriber_peer_id: String, track_id: String, layer: String },
    NetworkQuality { room_id: String, peer_id: String },
    SdpOffer { room_id: String, peer_id: String, sdp_offer: String },
    SdpAnswer { room_id: String, peer_id: String, sdp_answer: String },
    IceCandidate { room_id: String, peer_id: String, candidate_json: String },
}

/// One capability dispatch, on behalf of `user_id` in `conversation_id`.
#[derive(Debug, Clone)]
pub struct CapabilityRequest {
    pub kind: CapabilityKind,
    pub user_id: String,
    pub conversation_id: String,
    pub request_id: String,
    pub payload: CapabilityPayload,
}

/// Why an enrichment fails.
#[derive(Debug, Clone, Copy, PartialEq, Eq, Structural)]
pub enum EnrichError {
    /// Accepting, rejecting or ending a call needs a call id.
    MissingCallId,
    /// The capability service answered a call start with `null`.
    EmptyCreateResult,
    /// The capability service answered an accept with `null`.
    EmptyAcceptResult,
    /// The capability service answered a join-token request with `null`.
    EmptyJoinTokenResult,
}

impl EnrichError {
    pub open spec fn message_spec(self) -> Seq<char> {
        match self {
            EnrichError::MissingCallId => "call_id required for rtc accept/hangup"@,
            EnrichError::EmptyCreateResult => "capability create result empty"@,
            EnrichError::EmptyAcceptResult => "capability accept result empty"@,
            EnrichError::EmptyJoinTokenResult => "capability join_token result empty"@,
        }
    }

    /// The error's text.
    pub fn message(&self) -> (r: &'static str)
        ensures
            r@ == self.message_spec(),
    {
        match self {
            EnrichError::MissingCallId => "call_id required for rtc accept/hangup",
            EnrichError::EmptyCreateResult => "capability create result empty",
            EnrichError::EmptyAcceptResult => "capability accept result empty",
            EnrichError::EmptyJoinTokenResult => "capability join_token result empty",
        }
    }

    /// Whether the error is the caller's (an invalid parameter) rather than
    /// an internal one.
    pub fn is_invalid_parameter(&self) -> (r: bool)
        ensures
            r == (*self == EnrichError::MissingCallId),
    {
        match self {
            EnrichError::MissingCallId => true,
            _ => false,
        }
    }
}

// ---------------------------------------------------------------------------
// `ext` values
// ---------------------------------------------------------------------------

/// The flag a text names: `1`, `true`, `yes`, `on` and `0`, `false`, `no`,
/// `off`, trimmed and in any ASCII case.
pub open spec fn flag_value(raw: Seq<char>) -> Option<bool> {
    let l = ascii_lower_seq(trimmed(raw));
    if l == "1"@ || l == "true"@ || l == "yes"@ || l == "on"@ {
        Some(true)
    } else if l == "0"@ || l == "false"@ || l == "no"@ || l == "off"@ {
        Some(false)
    } else {
        None
    }
}

/// The flag stored under `key`.
pub open spec fn ext_flag(ext: FieldMap, key: Seq<char>) -> Option<bool> {
    match ext.get_spec(key) {
        Some(v) => flag_value(v),
        None => None,
    }
}

/// The flag stored under `key`, if it names one.
pub fn ext_bool(ext: &FieldMap, key: &str) -> (r: Option<bool>)
    ensures
        r == ext_flag(*ext, key@),
{
    match ext.get(key) {
        Some(raw) => {
            let l = trim_ascii_lower(raw.as_str());
            if is_literal(&l, "1") || is_literal(&l, "true") || is_literal(&l, "yes") || is_literal(&l, "on") {
                Some(true)
            } else if is_literal(&l, "0") || is_literal(&l, "false") || is_literal(&l, "no") || is_literal(&l, "off") {
                Some(false)
            } else {
                None
            }
        },
        None => None,
    }
}

/// The publisher mute request an `ext` map asks for, as
/// `(mute_audio, mute_video)`: present when the camera or the microphone
/// flag is set; an unset flag leaves its track unmuted.
pub open spec fn media_toggle(ext: FieldMap) -> Option<(bool, bool)> {
    let camera = ext_flag(ext, "flare_camera_enabled"@);
    let microphone = ext_flag(ext, "flare_microphone_enabled"@);
    if camera is None && microphone is None {
        None
    } else {
        Some(
            (
                match microphone {
                    Some(v) => !v,
                    None => false,
                },
                match camera {
                    Some(v) => !v,
                    None => false,
                },
            ),
        )
    }
}

/// The publisher mute request of an `ext` map.
pub fn parse_media_toggle_from_ext(ext: &FieldMap) -> (r: Option<(bool, bool)>)
    ensures
        r == media_toggle(*ext),
{
    let camera_enabled = ext_bool(ext, "flare_camera_enabled");
    let microphone_enabled = ext_bool(ext, "flare_microphone_enabled");
    if camera_enabled.is_none() && microphone_enabled.is_none() {
        return None;
    }
    let mute_audio = match microphone_enabled {
        Some(v) => !v,
        None => false,
    };
    let mute_video = match camera_enabled {
        Some(v) => !v,
        None => false,
    };
    Some((mute_audio, mute_video))
}

/// The trimmed value under `key`, unless absent or blank.
pub open spec fn ext_text(ext: FieldMap, key: Seq<char>) -> Option<Seq<char>> {
    match ext.get_spec(key) {
        Some(v) => if trimmed(v).len() > 0 {
            Some(trimmed(v))
        } else {
            None
        },
        None => None,
    }
}

/// The trimmed value under `key`, unless absent or blank.
pub fn non_empty_ext_str(ext: &FieldMap, key: &str) -> (r: Option<String>)
    ensures
        match r {
            Some(s) => ext_text(*ext, key@) == Some(s@),
            None => ext_text(*ext, key@) is None,
        },
{
    match ext.get(key) {
        Some(v) => {
            let t = trim(v.as_str());
            if t.unicode_len() > 0 {
                Some(t)
            } else {
                None
            }
        },
        None => None,
    }
}

/// The `u32` under `key` (trimmed, as `str::parse` reads it).
pub open spec fn ext_number(ext: FieldMap, key: Seq<char>) -> Option<u32> {
    match ext.get_spec(key) {
        Some(v) => match unsigned_text_value(trimmed(v)) {
            Some(n) => if n <= u32::MAX {
                Some(n as u32)
            } else {
                None
            },
            None => None,
        },
        None => None,
    }
}

/// The `u32` under `key`, if it parses.
pub fn ext_u32(ext: &FieldMap, key: &str) -> (r: Option<u32>)
    ensures
        r == ext_number(*ext, key@),
{
    match ext.get(key) {
        Some(v) => {
            let t = trim(v.as_str());
            parse_u32(t.as_str())
        },
        None => None,
    }
}

// ---------------------------------------------------------------------------
// Replies
// ---------------------------------------------------------------------------

/// The result of a capability dispatch, as the service returns it.
#[derive(Debug, Clone)]
pub struct CapabilityDispatchResult {
    pub success: bool,
    pub error_message: String,
    pub result_json: String,
}

/// Why a capability dispatch did not yield a result.
#[derive(Debug, Clone)]
pub enum DispatchFailure {
    /// The response carried no result.
    EmptyResult,
    /// The service refused; the details are its error message.
    Rejected { details: String },
}

impl DispatchFailure {
    pub open spec fn message_spec(self) -> Seq<char> {
        match self {
            DispatchFailure::EmptyResult => "capability Dispatch: empty result"@,
            DispatchFailure::Rejected { .. } => "capability Dispatch rejected"@,
        }
    }

    /// The failure's text.
    pub fn message(&self) -> (r: &'static str)
        ensures
            r@ == self.message_spec(),
    {
        match self {
            DispatchFailure::EmptyResult => "capability Dispatch: empty result",
            DispatchFailure::Rejected { .. } => "capability Dispatch rejected",
        }
    }
}

/// The JSON text a dispatch response yields: a missing result and a refusal
/// fail; a blank `result_json` stands for `null` (`None`); any other text is
/// handed on as it is, to be parsed.
pub fn dispatch_result_json(result: Option<CapabilityDispatchResult>) -> (r: Result<Option<String>, DispatchFailure>)
    ensures
        match result {
            None => r matches Err(DispatchFailure::EmptyResult),
            Some(res) => if !res.success {
                r matches Err(DispatchFailure::Rejected { details }) && details == res.error_message
            } else if blank(res.result_json@) {
                r matches Ok(None)
            } else {
                r matches Ok(Some(t)) && t == res.result_json
            },
        },
{
    match result {
        None => Err(DispatchFailure::EmptyResult),
        Some(res) => {
            if !res.success {
                Err(DispatchFailure::Rejected { details: res.error_message })
            } else if is_blank(res.result_json.as_str()) {
                Ok(None)
            } else {
                Ok(Some(res.result_json))
            }
        },
    }
}

/// A top-level value of a capability reply, as the logic reads it.
#[derive(Debug, Clone)]
pub enum JsonField {
    Text(String),
    /// A number: its `as_u64` value, and its `as_f64` value written by `f64::to_string`.
    Number { as_u64: Option<u64>, as_f64_text: String },
    Flag(bool),
    /// Any other value (`null`, arrays, objects).
    Other,
}

/// A capability reply: whether it is `null`, and the members of the JSON
/// object it holds (none when it holds no object).
#[derive(Debug, Clone)]
pub struct CapabilityReply {
    pub is_null: bool,
    pub fields: Vec<(String, JsonField)>,
}

/// The member named `key`.
pub open spec fn reply_lookup(fields: Seq<(String, JsonField)>, key: Seq<char>) -> Option<JsonField>
    decreases fields.len(),
{
    if fields.len() == 0 {
        None
    } else if fields[0].0@ == key {
        Some(fields[0].1)
    } else {
        reply_lookup(fields.drop_first(), key)
    }
}

/// `a`, or `b` when `a` is absent (`Option::or_else`).
pub open spec fn either(a: Option<JsonField>, b: Option<JsonField>) -> Option<JsonField> {
    match a {
        Some(x) => Some(x),
        None => b,
    }
}

/// `Value::as_str`.
pub open spec fn text_of(f: Option<JsonField>) -> Option<Seq<char>> {
    match f {
        Some(JsonField::Text(s)) => Some(s@),
        _ => None,
    }
}

/// `Value::as_u64`.
pub open spec fn u64_of(f: Option<JsonField>) -> Option<u64> {
    match f {
        Some(JsonField::Number { as_u64, .. }) => as_u64,
        _ => None,
    }
}

/// `Value::as_bool`.
pub open spec fn flag_of(f: Option<JsonField>) -> Option<bool> {
    match f {
        Some(JsonField::Flag(b)) => Some(b),
        _ => None,
    }
}

/// `Value::as_f64`, written out.
pub open spec fn f64_text_of(f: Option<JsonField>) -> Option<Seq<char>> {
    match f {
        Some(JsonField::Number { as_f64_text, .. }) => Some(as_f64_text@),
        _ => None,
    }
}

/// A non-empty text, trimmed when `trim` is set.
pub open spec fn present_text(t: Option<Seq<char>>, trim: bool) -> Option<Seq<char>> {
    match t {
        Some(s) => {
            let v = if trim {
                trimmed(s)
            } else {
                s
            };
            if v.len() > 0 {
                Some(v)
            } else {
                None
            }
        },
        None => None,
    }
}

impl CapabilityReply {
    pub open spec fn get_spec(&self, key: Seq<char>) -> Option<JsonField> {
        reply_lookup(self.fields@, key)
    }

    /// The member named `key`.
    pub fn get(&self, key: &str) -> (r: Option<&JsonField>)
        ensures
            match r {
                Some(f) => self.get_spec(key@) == Some(*f),
                None => self.get_spec(key@) is None,
            },
    {
        let mut i: usize = 0;
        assert(self.fields@.subrange(0, self.fields@.len() as int) =~= self.fields@);
        while i < self.fields.len()
            invariant
                i <= self.fields@.len(),
                self.get_spec(key@) == reply_lookup(self.fields@.subrange(i as int, self.fields@.len() as int), key@),
            decreases self.fields@.len() - i,
        {
            let ghost rest = self.fields@.subrange(i as int, self.fields@.len() as int);
            assert(rest[0] == self.fields@[i as int]);
            if str_eq(self.fields[i].0.as_str(), key) {
                return Some(&self.fields[i].1);
            }
            assert(rest.drop_first() =~= self.fields@.subrange(i + 1, self.fields@.len() as int));
            i = i + 1;
        }
        None
    }
}

fn field_text(f: Option<&JsonField>) -> (r: Option<&String>)
    ensures
        match r {
            Some(s) => text_of(opt_field(f)) == Some(s@),
            None => text_of(opt_field(f)) is None,
        },
{
    match f {
        Some(JsonField::Text(s)) => Some(s),
        _ => None,
    }
}

/// The field behind an optional reference.
pub open spec fn opt_field(f: Option<&JsonField>) -> Option<JsonField> {
    match f {
        Some(x) => Some(*x),
        None => None,
    }
}

fn field_u64(f: Option<&JsonField>) -> (r: Option<u64>)
    ensures
        r == u64_of(opt_field(f)),
{
    match f {
        Some(JsonField::Number { as_u64, .. }) => *as_u64,
        _ => None,
    }
}

fn first_of<'a>(a: Option<&'a JsonField>, b: Option<&'a JsonField>) -> (r: Option<&'a JsonField>)
    ensures
        opt_field(r) == either(opt_field(a), opt_field(b)),
{
    match a {
        Some(x) => Some(x),
        None => b,
    }
}

// ---------------------------------------------------------------------------
// Transport
// ---------------------------------------------------------------------------

/// The views of a call transport: room, peer, media session, signalling
/// base, instance.
pub type TransportView = (Seq<char>, Seq<char>, Option<Seq<char>>, Option<Seq<char>>, Option<Seq<char>>);

pub open spec fn opt_view(o: Option<String>) -> Option<Seq<char>> {
    match o {
        Some(s) => Some(s@),
        None => None,
    }
}

pub open spec fn transport_view(t: CallTransport) -> TransportView {
    (t.room_id@, t.peer_id@, opt_view(t.media_session_id), opt_view(t.signaling_ws_base), opt_view(t.instance_id))
}

/// The transport, or an empty one.
pub open spec fn transport_or_default(t: Option<CallTransport>) -> TransportView {
    match t {
        Some(x) => transport_view(x),
        None => (Seq::empty(), Seq::empty(), None, None, None),
    }
}

/// The transport after a capability reply: each routing member the reply
/// names (non-empty) replaces the current one.
pub open spec fn merged_transport(t: Option<CallTransport>, v: CapabilityReply) -> TransportView {
    let (room, peer, media, ws, instance) = transport_or_default(t);
    (
        match present_text(text_of(v.get_spec("room_id"@)), false) {
            Some(s) => s,
            None => room,
        },
        match present_text(text_of(v.get_spec("peer_id"@)), false) {
            Some(s) => s,
            None => peer,
        },
        match present_text(text_of(v.get_spec("media_session_id"@)), false) {
            Some(s) => Some(s),
            None => media,
        },
        match present_text(text_of(v.get_spec("signaling_ws_base"@)), false) {
            Some(s) => Some(s),
            None => ws,
        },
        match present_text(text_of(either(v.get_spec("sfu_instance_id"@), v.get_spec("instance_id"@))), true) {
            Some(s) => Some(s),
            None => instance,
        },
    )
}

/// Everything of a call signal but its call id, `ext` map and transport.
pub open spec fn same_signal(a: CallSignalEvent, b: CallSignalEvent) -> bool {
    &&& a.conversation_id == b.conversation_id
    &&& a.from_user_id == b.from_user_id
    &&& a.signal == b.signal
    &&& a.media_session_kind == b.media_session_kind
    &&& a.audience == b.audience
}

fn empty_transport() -> (r: CallTransport)
    ensures
        transport_view(r) == transport_or_default(None),
{
    CallTransport {
        room_id: String::new(),
        peer_id: String::new(),
        media_session_id: None,
        signaling_ws_base: None,
        instance_id: None,
    }
}

fn take_transport(cs: &mut CallSignalEvent) -> (r: CallTransport)
    ensures
        transport_view(r) == transport_or_default(old(cs).transport),
        final(cs).transport is None,
        same_signal(*final(cs), *old(cs)),
        final(cs).call_id == old(cs).call_id,
        final(cs).ext == old(cs).ext,
{
    let mut t: Option<CallTransport> = None;
    std::mem::swap(&mut t, &mut cs.transport);
    match t {
        Some(x) => x,
        None => empty_transport(),
    }
}

/// Writes the routing members of a capability reply into the signal's
/// transport (creating it when absent).
pub fn merge_transport_from_capability_json(cs: &mut CallSignalEvent, v: &CapabilityReply)
    ensures
        final(cs).transport matches Some(t) && transport_view(t) == merged_transport(old(cs).transport, *v),
        same_signal(*final(cs), *old(cs)),
        final(cs).call_id == old(cs).call_id,
        final(cs).ext == old(cs).ext,
{
    let mut t = take_transport(cs);
    if let Some(rid) = field_text(v.get("room_id")) {
        if rid.unicode_len() > 0 {
            t.room_id = rid.clone();
        }
    }
    if let Some(pid) = field_text(v.get("peer_id")) {
        if pid.unicode_len() > 0 {
            t.peer_id = pid.clone();
        }
    }
    if let Some(ms) = field_text(v.get("media_session_id")) {
        if ms.unicode_len() > 0 {
            t.media_session_id = Some(ms.clone());
        }
    }
    if let Some(ws) = field_text(v.get("signaling_ws_base")) {
        if ws.unicode_len() > 0 {
            t.signaling_ws_base = Some(ws.clone());
        }
    }
    if let Some(inst) = field_text(first_of(v.get("sfu_instance_id"), v.get("instance_id"))) {
        let trimmed_id = trim(inst.as_str());
        if trimmed_id.unicode_len() > 0 {
            t.instance_id = Some(trimmed_id);
        }
    }
    cs.transport = Some(t);
}

// ---------------------------------------------------------------------------
// Applying replies
// ---------------------------------------------------------------------------

/// The call id a reply names, as written back after a call start (any
/// text) or an accept (non-empty text only).
pub open spec fn replied_call_id(old_id: Seq<char>, v: CapabilityReply, non_empty_only: bool) -> Seq<char> {
    match text_of(v.get_spec("call_id"@)) {
        Some(id) => if non_empty_only && id.len() == 0 {
            old_id
        } else {
            id
        },
        None => old_id,
    }
}

/// The signal after a non-null call-start or accept reply: the call id
/// written back and the transport merged; nothing else changes.
pub open spec fn absorbed_call(
    old: CallSignalEvent,
    new: CallSignalEvent,
    v: CapabilityReply,
    non_empty_only: bool,
) -> bool {
    &&& new.call_id@ == replied_call_id(old.call_id@, v, non_empty_only)
    &&& new.transport matches Some(t) && transport_view(t) == merged_transport(old.transport, v)
    &&& new.ext == old.ext
    &&& same_signal(new, old)
}

/// The routing ids a capability reply assigns are adopted: whatever the
/// signal's transport was (or without one), the merged transport's room and
/// peer are those the reply names as non-empty text, and stay as they were
/// where the reply names none.
pub proof fn lemma_reply_routing_ids_are_adopted(t: Option<CallTransport>, v: CapabilityReply)
    ensures
        forall|p: String|
            v.get_spec("peer_id"@) == Some(JsonField::Text(p)) && p@.len() > 0 ==> merged_transport(t, v).1 == p@,
        forall|p: String|
            v.get_spec("room_id"@) == Some(JsonField::Text(p)) && p@.len() > 0 ==> merged_transport(t, v).0 == p@,
        v.get_spec("peer_id"@) is None ==> merged_transport(t, v).1 == (match t {
            Some(x) => x.peer_id@,
            None => Seq::empty(),
        }),
        v.get_spec("room_id"@) is None ==> merged_transport(t, v).0 == (match t {
            Some(x) => x.room_id@,
            None => Seq::empty(),
        }),
{
}

/// After a non-null call-start or accept reply whose `peer_id` is
/// non-empty text, the signal's transport carries that peer id, and it keeps
/// its call's other signal fields and its `ext` map.
pub proof fn lemma_absorbed_reply_assigns_peer(
    old: CallSignalEvent,
    new: CallSignalEvent,
    v: CapabilityReply,
    non_empty_only: bool,
    p: String,
)
    requires
        absorbed_call(old, new, v, non_empty_only),
        v.get_spec("peer_id"@) == Some(JsonField::Text(p)),
        p@.len() > 0,
    ensures
        new.transport matches Some(t) && t.peer_id@ == p@,
        new.ext == old.ext,
        new.signal == old.signal,
{
    lemma_reply_routing_ids_are_adopted(old.transport, v);
}

/// The join token a reply names, trimmed, unless blank.
pub open spec fn join_token_of(v: CapabilityReply) -> Option<Seq<char>> {
    present_text(text_of(either(v.get_spec("sfu_join_token"@), v.get_spec("token"@))), true)
}

/// The join token's lifetime a reply names.
pub open spec fn join_ttl_of(v: CapabilityReply) -> Option<u64> {
    u64_of(either(v.get_spec("sfu_join_token_ttl_seconds"@), v.get_spec("ttl_seconds"@)))
}

/// The `ext` value under `k` after a join-token reply.
pub open spec fn joined_ext(ext: FieldMap, v: CapabilityReply, k: Seq<char>) -> Option<Seq<char>> {
    if k == "sfu_join_token_ttl_seconds"@ && join_ttl_of(v) is Some {
        Some(decimal(join_ttl_of(v).unwrap() as nat))
    } else if k == "sfu_join_token"@ && join_token_of(v) is Some {
        join_token_of(v)
    } else {
        ext.get_spec(k)
    }
}

/// The `ext` value under `k` after a network-quality reply.
pub open spec fn quality_ext(ext: FieldMap, q: CapabilityReply, k: Seq<char>) -> Option<Seq<char>> {
    if k == "flare_network_quality_packet_loss_ratio"@ && f64_text_of(q.get_spec("packet_loss_ratio"@)) is Some {
        f64_text_of(q.get_spec("packet_loss_ratio"@))
    } else if k == "flare_network_quality_rtt_ms"@ && u64_of(q.get_spec("rtt_ms"@)) is Some {
        Some(decimal(u64_of(q.get_spec("rtt_ms"@)).unwrap() as nat))
    } else if k == "flare_network_quality_downstream_score"@ && u64_of(q.get_spec("downstream_score"@)) is Some {
        Some(decimal(u64_of(q.get_spec("downstream_score"@)).unwrap() as nat))
    } else if k == "flare_network_quality_upstream_score"@ && u64_of(q.get_spec("upstream_score"@)) is Some {
        Some(decimal(u64_of(q.get_spec("upstream_score"@)).unwrap() as nat))
    } else if k == "flare_network_quality_has_data"@ && flag_of(q.get_spec("has_data"@)) is Some {
        Some(
            if flag_of(q.get_spec("has_data"@)).unwrap() {
                "true"@
            } else {
                "false"@
            },
        )
    } else {
        ext.get_spec(k)
    }
}

/// The `ext` value under `k` after an SDP-offer reply: an answer the reply
/// carries replaces the offer.
pub open spec fn answered_ext(ext: FieldMap, v: CapabilityReply, k: Seq<char>) -> Option<Seq<char>> {
    match text_of(v.get_spec("sdp_answer"@)) {
        Some(a) => if k == "flare_sdp"@ {
            Some(a)
        } else if k == "flare_sdp_type"@ {
            Some("answer"@)
        } else {
            ext.get_spec(k)
        },
        None => ext.get_spec(k),
    }
}

/// Applies a call-start reply.
pub fn apply_create_result_to_call_signal(cs: &mut CallSignalEvent, v: &CapabilityReply) -> (r: Result<(), EnrichError>)
    ensures
        v.is_null ==> r == Err::<(), EnrichError>(EnrichError::EmptyCreateResult) && *final(cs) == *old(cs),
        !v.is_null ==> r is Ok && absorbed_call(*old(cs), *final(cs), *v, false),
{
    if v.is_null {
        return Err(EnrichError::EmptyCreateResult);
    }
    if let Some(cid) = field_text(v.get("call_id")) {
        cs.call_id = cid.clone();
    }
    merge_transport_from_capability_json(cs, v);
    Ok(())
}

/// Applies an accept reply.
pub fn apply_accept_result_to_call_signal(cs: &mut CallSignalEvent, v: &CapabilityReply) -> (r: Result<(), EnrichError>)
    ensures
        v.is_null ==> r == Err::<(), EnrichError>(EnrichError::EmptyAcceptResult) && *final(cs) == *old(cs),
        !v.is_null ==> r is Ok && absorbed_call(*old(cs), *final(cs), *v, true),
{
    if v.is_null {
        return Err(EnrichError::EmptyAcceptResult);
    }
    if let Some(cid) = field_text(v.get("call_id")) {
        if cid.unicode_len() > 0 {
            cs.call_id = cid.clone();
        }
    }
    merge_transport_from_capability_json(cs, v);
    Ok(())
}

/// Applies a join-token reply: the transport is merged and the token and
/// its lifetime are written to `ext`.
pub fn apply_join_token_result_to_call_signal(cs: &mut CallSignalEvent, v: &CapabilityReply) -> (r: Result<(), EnrichError>)
    ensures
        v.is_null ==> r == Err::<(), EnrichError>(EnrichError::EmptyJoinTokenResult) && *final(cs) == *old(cs),
        !v.is_null ==> r is Ok && final(cs).call_id == old(cs).call_id && same_signal(*final(cs), *old(cs))
            && (final(cs).transport matches Some(t) && transport_view(t) == merged_transport(old(cs).transport, *v))
            && forall|k: Seq<char>| #[trigger] final(cs).ext.get_spec(k) == joined_ext(old(cs).ext, *v, k),
{
    if v.is_null {
        return Err(EnrichError::EmptyJoinTokenResult);
    }
    merge_transport_from_capability_json(cs, v);
    if let Some(token) = field_text(first_of(v.get("sfu_join_token"), v.get("token"))) {
        let t = trim(token.as_str());
        if t.unicode_len() > 0 {
            cs.ext.insert(String::from_str("sfu_join_token"), t);
        }
    }
    if let Some(ttl) = field_u64(first_of(v.get("sfu_join_token_ttl_seconds"), v.get("ttl_seconds"))) {
        cs.ext.insert(String::from_str("sfu_join_token_ttl_seconds"), u64_to_string(ttl));
    }
    Ok(())
}

/// Writes the network quality a reply reports into `ext`.
pub fn write_network_quality_to_ext(ext: &mut FieldMap, quality: &CapabilityReply)
    ensures
        forall|k: Seq<char>| #[trigger] final(ext).get_spec(k) == quality_ext(*old(ext), *quality, k),
{
    if let Some(JsonField::Flag(has_data)) = quality.get("has_data") {
        let text = if *has_data {
            String::from_str("true")
        } else {
            String::from_str("false")
        };
        ext.insert(String::from_str("flare_network_quality_has_data"), text);
    }
    if let Some(n) = field_u64(quality.get("upstream_score")) {
        ext.insert(String::from_str("flare_network_quality_upstream_score"), u64_to_string(n));
    }
    if let Some(n) = field_u64(quality.get("downstream_score")) {
        ext.insert(String::from_str("flare_network_quality_downstream_score"), u64_to_string(n));
    }
    if let Some(n) = field_u64(quality.get("rtt_ms")) {
        ext.insert(String::from_str("flare_network_quality_rtt_ms"), u64_to_string(n));
    }
    if let Some(JsonField::Number { as_f64_text, .. }) = quality.get("packet_loss_ratio") {
        ext.insert(String::from_str("flare_network_quality_packet_loss_ratio"), as_f64_text.clone());
    }
}

/// Writes the SDP answer an offer reply carries into `ext`.
pub fn apply_sdp_answer(ext: &mut FieldMap, v: &CapabilityReply)
    ensures
        forall|k: Seq<char>| #[trigger] final(ext).get_spec(k) == answered_ext(*old(ext), *v, k),
{
    if let Some(answer) = field_text(v.get("sdp_answer")) {
        ext.insert(String::from_str("flare_sdp_type"), String::from_str("answer"));
        ext.insert(String::from_str("flare_sdp"), answer.clone());
    }
}

/// The trimmed call id of a signal, unless blank.
pub open spec fn call_id_of(call_id: Seq<char>) -> Option<Seq<char>> {
    if trimmed(call_id).len() > 0 {
        Some(trimmed(call_id))
    } else {
        None
    }
}

/// Whether `p` is `{"call_id": id}` with the given extras.
pub open spec fn is_call_payload(p: CapabilityPayload, id: Seq<char>, reason: Option<Seq<char>>, close: Option<bool>) -> bool {
    p matches CapabilityPayload::Call { call_id, reason: r, close_room_if_vacant: c } && call_id@ == id && opt_view(r)
        == reason && c == close
}

/// `{"call_id": trimmed call id}`; an error when the call id is blank.
pub fn call_id_payload(call_id: &str) -> (r: Result<CapabilityPayload, EnrichError>)
    ensures
        match call_id_of(call_id@) {
            Some(id) => r matches Ok(p) && is_call_payload(p, id, None, None),
            None => r == Err::<CapabilityPayload, EnrichError>(EnrichError::MissingCallId),
        },
{
    let id = trim(call_id);
    if id.unicode_len() == 0 {
        return Err(EnrichError::MissingCallId);
    }
    Ok(CapabilityPayload::Call { call_id: id, reason: None, close_room_if_vacant: None })
}

/// The reject payload: the call id, and the reason when non-empty.
pub fn reject_payload(call_id: &str, reason: &String) -> (r: Result<CapabilityPayload, EnrichError>)
    ensures
        match call_id_of(call_id@) {
            Some(id) => r matches Ok(p) && is_call_payload(
                p,
                id,
                if reason@.len() == 0 {
                    None
                } else {
                    Some(reason@)
                },
                None,
            ),
            None => r == Err::<CapabilityPayload, EnrichError>(EnrichError::MissingCallId),
        },
{
    let id = trim(call_id);
    if id.unicode_len() == 0 {
        return Err(EnrichError::MissingCallId);
    }
    let reason_field = if reason.unicode_len() == 0 {
        None
    } else {
        Some(reason.clone())
    };
    Ok(CapabilityPayload::Call { call_id: id, reason: reason_field, close_room_if_vacant: None })
}

/// The hangup payload: the call id, and whether to close a vacant room.
pub fn hangup_payload(call_id: &str, close_room_if_vacant: Option<bool>) -> (r: Result<CapabilityPayload, EnrichError>)
    ensures
        match call_id_of(call_id@) {
            Some(id) => r matches Ok(p) && is_call_payload(p, id, None, close_room_if_vacant),
            None => r == Err::<CapabilityPayload, EnrichError>(EnrichError::MissingCallId),
        },
{
    let id = trim(call_id);
    if id.unicode_len() == 0 {
        return Err(EnrichError::MissingCallId);
    }
    Ok(CapabilityPayload::Call { call_id: id, reason: None, close_room_if_vacant })
}

// ---------------------------------------------------------------------------
// Planning
// ---------------------------------------------------------------------------

/// The start capability of an invite: video when video is offered.
pub open spec fn invite_kind(offered_media: Option<Vec<i32>>) -> CapabilityKind {
    if offers_video(offered_media) {
        CapabilityKind::CallVideoStart
    } else {
        CapabilityKind::CallAudioStart
    }
}

/// The start capability of an invite.
pub fn invite_capability_id(offered_media: &Option<Vec<i32>>) -> (r: CapabilityKind)
    ensures
        r == invite_kind(*offered_media),
{
    if has_video(offered_media) {
        CapabilityKind::CallVideoStart
    } else {
        CapabilityKind::CallAudioStart
    }
}

/// The suffix of a follow-up request's id.
pub open spec fn rid_suffix(kind: CapabilityKind) -> Seq<char> {
    match kind {
        CapabilityKind::JoinToken => "-join-token"@,
        CapabilityKind::PublisherMute => "-media-mute"@,
        CapabilityKind::SubscriptionSet => "-media-subscription"@,
        CapabilityKind::SimulcastLayerSet => "-media-simulcast"@,
        CapabilityKind::NetworkQualityGet => "-media-network-quality"@,
        CapabilityKind::SdpOffer => "-media-offer"@,
        CapabilityKind::SdpAnswer => "-media-answer"@,
        CapabilityKind::IceCandidate => "-media-ice"@,
        _ => Seq::empty(),
    }
}

/// The media routing of a signal, when it has one: a transport with a room
/// and a peer, a sender and a call id (all non-blank); room and peer trimmed.
pub open spec fn media_context(cs: CallSignalEvent) -> Option<(Seq<char>, Seq<char>)> {
    match cs.transport {
        Some(t) => if !blank(t.room_id@) && !blank(t.peer_id@) && !blank(cs.from_user_id@) && !blank(cs.call_id@) {
            Some((trimmed(t.room_id@), trimmed(t.peer_id@)))
        } else {
            None
        },
        None => None,
    }
}

/// The subscription request an `ext` map asks for: the subscriber (default
/// `peer`), track, enable flag (default on), media, preferred layer and
/// priority (default 0).
pub open spec fn subscription_of(ext: FieldMap, peer: Seq<char>) -> Option<
    (Seq<char>, Seq<char>, bool, Option<Seq<char>>, Option<Seq<char>>, u32),
> {
    match ext_text(ext, "flare_subscription_track_id"@) {
        Some(track) => Some(
            (
                match ext_text(ext, "flare_subscription_subscriber_peer_id"@) {
                    Some(p) => p,
                    None => peer,
                },
                track,
                match ext_flag(ext, "flare_subscription_enable"@) {
                    Some(b) => b,
                    None => true,
                },
                ext_text(ext, "flare_subscription_media"@),
                ext_text(ext, "flare_subscription_preferred_layer"@),
                match ext_number(ext, "flare_subscription_priority"@) {
                    Some(n) => n,
                    None => 0,
                },
            ),
        ),
        None => None,
    }
}

/// The simulcast layer request an `ext` map asks for: subscriber (default
/// `peer`), track and layer.
pub open spec fn simulcast_of(ext: FieldMap, peer: Seq<char>) -> Option<(Seq<char>, Seq<char>, Seq<char>)> {
    match (ext_text(ext, "flare_simulcast_track_id"@), ext_text(ext, "flare_simulcast_layer"@)) {
        (Some(track), Some(layer)) => Some(
            (
                match ext_text(ext, "flare_simulcast_subscriber_peer_id"@) {
                    Some(p) => p,
                    None => peer,
                },
                track,
                layer,
            ),
        ),
        _ => None,
    }
}

/// The SDP of a renegotiation (trimmed, empty when absent).
pub open spec fn sdp_of(ext: FieldMap) -> Seq<char> {
    match ext.get_spec("flare_sdp"@) {
        Some(v) => trimmed(v),
        None => Seq::empty(),
    }
}

/// The SDP type of a renegotiation (trimmed, lower-cased, empty when absent).
pub open spec fn sdp_type_of(ext: FieldMap) -> Seq<char> {
    match ext.get_spec("flare_sdp_type"@) {
        Some(v) => ascii_lower_seq(trimmed(v)),
        None => Seq::empty(),
    }
}

/// The SDP step of a renegotiation: an offer or an answer to relay.
pub open spec fn sdp_step(ext: FieldMap) -> Option<CapabilityKind> {
    if sdp_of(ext).len() == 0 {
        None
    } else if sdp_type_of(ext) == "offer"@ {
        Some(CapabilityKind::SdpOffer)
    } else if sdp_type_of(ext) == "answer"@ {
        Some(CapabilityKind::SdpAnswer)
    } else {
        None
    }
}

pub open spec fn when(b: bool, k: CapabilityKind) -> Seq<CapabilityKind> {
    if b {
        seq![k]
    } else {
        Seq::empty()
    }
}

/// The capabilities a renegotiation dispatches, in order: publisher mute,
/// subscription, simulcast layer, network quality, then the SDP step.
pub open spec fn renegotiate_kinds(ext: FieldMap, peer: Seq<char>) -> Seq<CapabilityKind> {
    when(media_toggle(ext) is Some, CapabilityKind::PublisherMute) + when(
        subscription_of(ext, peer) is Some,
        CapabilityKind::SubscriptionSet,
    ) + when(simulcast_of(ext, peer) is Some, CapabilityKind::SimulcastLayerSet) + when(
        ext_text(ext, "flare_network_quality_peer_id"@) is Some,
        CapabilityKind::NetworkQualityGet,
    ) + match sdp_step(ext) {
        Some(k) => seq![k],
        None => Seq::empty(),
    }
}

/// Whether `p` is the body of a `kind` request in room `room` for `peer`,
/// as the signal's `ext` map asks.
pub open spec fn media_payload_ok(kind: CapabilityKind, p: CapabilityPayload, ext: FieldMap, room: Seq<char>, peer: Seq<char>) -> bool {
    match kind {
        CapabilityKind::PublisherMute => p matches CapabilityPayload::PublisherMute {
            room_id,
            publisher_peer_id,
            mute_audio,
            mute_video,
        } && room_id@ == room && publisher_peer_id@ == peer && media_toggle(ext) == Some((mute_audio, mute_video)),
        CapabilityKind::SubscriptionSet => p matches CapabilityPayload::Subscription {
            room_id,
            subscriber_peer_id,
            track_id,
            enable,
            media,
            preferred_layer,
            priority,
        } && room_id@ == room && subscription_of(ext, peer) == Some(
            (subscriber_peer_id@, track_id@, enable, opt_view(media), opt_view(preferred_layer), priority),
        ),
        CapabilityKind::SimulcastLayerSet => p matches CapabilityPayload::Simulcast {
            room_id,
            subscriber_peer_id,
            track_id,
            layer,
        } && room_id@ == room && simulcast_of(ext, peer) == Some((subscriber_peer_id@, track_id@, layer@)),
        CapabilityKind::NetworkQualityGet => p matches CapabilityPayload::NetworkQuality { room_id, peer_id }
            && room_id@ == room && ext_text(ext, "flare_network_quality_peer_id"@) == Some(peer_id@),
        CapabilityKind::SdpOffer => p matches CapabilityPayload::SdpOffer { room_id, peer_id, sdp_offer }
            && room_id@ == room && peer_id@ == peer && sdp_offer@ == sdp_of(ext),
        CapabilityKind::SdpAnswer => p matches CapabilityPayload::SdpAnswer { room_id, peer_id, sdp_answer }
            && room_id@ == room && peer_id@ == peer && sdp_answer@ == sdp_of(ext),
        _ => false,
    }
}

/// Whether `r` is a `kind` request by `user` in `conversation` with id `rid`.
pub open spec fn addressed(r: CapabilityRequest, kind: CapabilityKind, user: Seq<char>, conversation: Seq<char>, rid: Seq<char>) -> bool {
    r.kind == kind && r.user_id@ == user && r.conversation_id@ == conversation && r.request_id@ == rid
}

/// Whether `reqs` are the renegotiation requests `kinds` of a signal.
pub open spec fn media_requests_ok(
    reqs: Seq<CapabilityRequest>,
    kinds: Seq<CapabilityKind>,
    cs: CallSignalEvent,
    conversation: Seq<char>,
    rid: Seq<char>,
    room: Seq<char>,
    peer: Seq<char>,
) -> bool {
    &&& reqs.len() == kinds.len()
    &&& forall|i: int|
        0 <= i < reqs.len() ==> addressed(#[trigger] reqs[i], kinds[i], cs.from_user_id@, conversation, rid + rid_suffix(kinds[i]))
            && media_payload_ok(kinds[i], reqs[i].payload, cs.ext, room, peer)
}

proof fn lemma_requests_push(
    reqs: Seq<CapabilityRequest>,
    kinds: Seq<CapabilityKind>,
    cs: CallSignalEvent,
    conversation: Seq<char>,
    rid: Seq<char>,
    room: Seq<char>,
    peer: Seq<char>,
    r: CapabilityRequest,
    k: CapabilityKind,
)
    requires
        media_requests_ok(reqs, kinds, cs, conversation, rid, room, peer),
        addressed(r, k, cs.from_user_id@, conversation, rid + rid_suffix(k)),
        media_payload_ok(k, r.payload, cs.ext, room, peer),
    ensures
        media_requests_ok(reqs.push(r), kinds.push(k), cs, conversation, rid, room, peer),
{
    assert forall|i: int| 0 <= i < reqs.push(r).len() implies addressed(
        #[trigger] reqs.push(r)[i],
        kinds.push(k)[i],
        cs.from_user_id@,
        conversation,
        rid + rid_suffix(kinds.push(k)[i]),
    ) && media_payload_ok(kinds.push(k)[i], reqs.push(r)[i].payload, cs.ext, room, peer) by {
        if i < reqs.len() {
            assert(reqs.push(r)[i] == reqs[i]);
            assert(kinds.push(k)[i] == kinds[i]);
        }
    }
}

/// A routing update written into the transport once a renegotiation or an
/// ICE relay went through.
#[derive(Debug, Clone)]
pub struct TransportUpdate {
    pub room_id: String,
    pub peer_id: String,
    /// Kept only when the transport has no media session yet.
    pub media_session_id: Option<String>,
}

/// The trimmed media session of a transport, unless absent or blank.
pub open spec fn media_session_of(t: Option<CallTransport>) -> Option<Seq<char>> {
    match t {
        Some(x) => match x.media_session_id {
            Some(m) => if trimmed(m@).len() > 0 {
                Some(trimmed(m@))
            } else {
                None
            },
            None => None,
        },
        None => None,
    }
}

fn build_request(kind: CapabilityKind, user: &String, conversation: &str, rid: &str, payload: CapabilityPayload) -> (r: CapabilityRequest)
    ensures
        addressed(r, kind, user@, conversation@, rid@ + rid_suffix(kind)),
        r.payload == payload,
{
    let suffix: &str = match kind {
        CapabilityKind::JoinToken => "-join-token",
        CapabilityKind::PublisherMute => "-media-mute",
        CapabilityKind::SubscriptionSet => "-media-subscription",
        CapabilityKind::SimulcastLayerSet => "-media-simulcast",
        CapabilityKind::NetworkQualityGet => "-media-network-quality",
        CapabilityKind::SdpOffer => "-media-offer",
        CapabilityKind::SdpAnswer => "-media-answer",
        CapabilityKind::IceCandidate => "-media-ice",
        _ => "",
    };
    proof {
        reveal_strlit("");
    }
    CapabilityRequest {
        kind,
        user_id: user.clone(),
        conversation_id: String::from_str(conversation),
        request_id: concat(rid, suffix),
        payload,
    }
}

fn media_session(t: &Option<CallTransport>) -> (r: Option<String>)
    ensures
        opt_view(r) == media_session_of(*t),
{
    match t {
        Some(x) => match &x.media_session_id {
            Some(m) => {
                let tm = trim(m.as_str());
                if tm.unicode_len() > 0 {
                    Some(tm)
                } else {
                    None
                }
            },
            None => None,
        },
        None => None,
    }
}

/// The room and peer of a signal's media routing.
pub fn media_routing(cs: &CallSignalEvent) -> (r: Option<(String, String)>)
    ensures
        match r {
            Some((room, peer)) => media_context(*cs) == Some((room@, peer@)),
            None => media_context(*cs) is None,
        },
{
    match &cs.transport {
        Some(t) => {
            if !is_blank(t.room_id.as_str()) && !is_blank(t.peer_id.as_str()) && !is_blank(cs.from_user_id.as_str())
                && !is_blank(cs.call_id.as_str()) {
                Some((trim(t.room_id.as_str()), trim(t.peer_id.as_str())))
            } else {
                None
            }
        },
        None => None,
    }
}

/// The requests of a renegotiation and the transport update that follows
/// them.  Without media routing the signal passes through untouched; the
/// transport is only updated when an SDP offer or answer is relayed.
pub fn renegotiate_plan(cs: &CallSignalEvent, conversation: &str, rid: &str) -> (r: (
    Vec<CapabilityRequest>,
    Option<TransportUpdate>,
))
    ensures
        match media_context(*cs) {
            None => r.0@.len() == 0 && r.1 is None,
            Some((room, peer)) => media_requests_ok(r.0@, renegotiate_kinds(cs.ext, peer), *cs, conversation@, rid@, room, peer)
                && match sdp_step(cs.ext) {
                Some(_) => r.1 matches Some(u) && u.room_id@ == room && u.peer_id@ == peer && opt_view(u.media_session_id)
                    == media_session_of(cs.transport),
                None => r.1 is None,
            },
        },
{
    let (room, peer) = match media_routing(cs) {
        Some(x) => x,
        None => return (Vec::new(), None),
    };
    let ghost room_v = room@;
    let ghost peer_v = peer@;
    let ext = &cs.ext;
    let mut reqs: Vec<CapabilityRequest> = Vec::new();
    let ghost mut kinds: Seq<CapabilityKind> = Seq::empty();
    if let Some((mute_audio, mute_video)) = parse_media_toggle_from_ext(ext) {
        let req = build_request(
            CapabilityKind::PublisherMute,
            &cs.from_user_id,
            conversation,
            rid,
            CapabilityPayload::PublisherMute { room_id: room.clone(), publisher_peer_id: peer.clone(), mute_audio, mute_video },
        );
        proof {
            lemma_requests_push(reqs@, kinds, *cs, conversation@, rid@, room_v, peer_v, req, CapabilityKind::PublisherMute);
        }
        reqs.push(req);
        proof {
            kinds = kinds.push(CapabilityKind::PublisherMute);
        }
    }
    assert(kinds =~= when(media_toggle(cs.ext) is Some, CapabilityKind::PublisherMute));
    if let Some(track_id) = non_empty_ext_str(ext, "flare_subscription_track_id") {
        let enable = match ext_bool(ext, "flare_subscription_enable") {
            Some(b) => b,
            None => true,
        };
        let subscriber_peer_id = match non_empty_ext_str(ext, "flare_subscription_subscriber_peer_id") {
            Some(p) => p,
            None => peer.clone(),
        };
        let media = non_empty_ext_str(ext, "flare_subscription_media");
        let preferred_layer = non_empty_ext_str(ext, "flare_subscription_preferred_layer");
        let priority = match ext_u32(ext, "flare_subscription_priority") {
            Some(n) => n,
            None => 0,
        };
        let req = build_request(
            CapabilityKind::SubscriptionSet,
            &cs.from_user_id,
            conversation,
            rid,
            CapabilityPayload::Subscription {
                room_id: room.clone(),
                subscriber_peer_id,
                track_id,
                enable,
                media,
                preferred_layer,
                priority,
            },
        );
        proof {
            lemma_requests_push(reqs@, kinds, *cs, conversation@, rid@, room_v, peer_v, req, CapabilityKind::SubscriptionSet);
        }
        reqs.push(req);
        proof {
            kinds = kinds.push(CapabilityKind::SubscriptionSet);
        }
    }
    assert(kinds =~= when(media_toggle(cs.ext) is Some, CapabilityKind::PublisherMute) + when(
        subscription_of(cs.ext, peer_v) is Some,
        CapabilityKind::SubscriptionSet,
    ));
    if let Some(track_id) = non_empty_ext_str(ext, "flare_simulcast_track_id") {
        if let Some(layer) = non_empty_ext_str(ext, "flare_simulcast_layer") {
            let subscriber_peer_id = match non_empty_ext_str(ext, "flare_simulcast_subscriber_peer_id") {
                Some(p) => p,
                None => peer.clone(),
            };
            let req = build_request(
                CapabilityKind::SimulcastLayerSet,
                &cs.from_user_id,
                conversation,
                rid,
                CapabilityPayload::Simulcast { room_id: room.clone(), subscriber_peer_id, track_id, layer },
            );
            proof {
                lemma_requests_push(reqs@, kinds, *cs, conversation@, rid@, room_v, peer_v, req, CapabilityKind::SimulcastLayerSet);
            }
            reqs.push(req);
            proof {
                kinds = kinds.push(CapabilityKind::SimulcastLayerSet);
            }
        }
    }
    assert(kinds =~= when(media_toggle(cs.ext) is Some, CapabilityKind::PublisherMute) + when(
        subscription_of(cs.ext, peer_v) is Some,
        CapabilityKind::SubscriptionSet,
    ) + when(simulcast_of(cs.ext, peer_v) is Some, CapabilityKind::SimulcastLayerSet));
    if let Some(query_peer_id) = non_empty_ext_str(ext, "flare_network_quality_peer_id") {
        let req = build_request(
            CapabilityKind::NetworkQualityGet,
            &cs.from_user_id,
            conversation,
            rid,
            CapabilityPayload::NetworkQuality { room_id: room.clone(), peer_id: query_peer_id },
        );
        proof {
            lemma_requests_push(reqs@, kinds, *cs, conversation@, rid@, room_v, peer_v, req, CapabilityKind::NetworkQualityGet);
        }
        reqs.push(req);
        proof {
            kinds = kinds.push(CapabilityKind::NetworkQualityGet);
        }
    }
    let ghost before_sdp = kinds;
    assert(before_sdp =~= when(media_toggle(cs.ext) is Some, CapabilityKind::PublisherMute) + when(
        subscription_of(cs.ext, peer_v) is Some,
        CapabilityKind::SubscriptionSet,
    ) + when(simulcast_of(cs.ext, peer_v) is Some, CapabilityKind::SimulcastLayerSet) + when(
        ext_text(cs.ext, "flare_network_quality_peer_id"@) is Some,
        CapabilityKind::NetworkQualityGet,
    ));
    let sdp = match ext.get("flare_sdp") {
        Some(v) => trim(v.as_str()),
        None => String::new(),
    };
    let sdp_type = match ext.get("flare_sdp_type") {
        Some(v) => trim_ascii_lower(v.as_str()),
        None => Vec::new(),
    };
    assert(sdp@ == sdp_of(cs.ext));
    assert(sdp_type@ == sdp_type_of(cs.ext));
    if sdp.unicode_len() == 0 {
        assert(before_sdp + Seq::<CapabilityKind>::empty() =~= before_sdp);
        return (reqs, None);
    }
    let kind = if is_literal(&sdp_type, "offer") {
        CapabilityKind::SdpOffer
    } else if is_literal(&sdp_type, "answer") {
        CapabilityKind::SdpAnswer
    } else {
        assert(before_sdp + Seq::<CapabilityKind>::empty() =~= before_sdp);
        return (reqs, None);
    };
    let payload = match kind {
        CapabilityKind::SdpOffer => CapabilityPayload::SdpOffer { room_id: room.clone(), peer_id: peer.clone(), sdp_offer: sdp },
        _ => CapabilityPayload::SdpAnswer { room_id: room.clone(), peer_id: peer.clone(), sdp_answer: sdp },
    };
    let req = build_request(kind, &cs.from_user_id, conversation, rid, payload);
    proof {
        lemma_requests_push(reqs@, kinds, *cs, conversation@, rid@, room_v, peer_v, req, kind);
    }
    reqs.push(req);
    proof {
        kinds = kinds.push(kind);
        assert(kinds =~= before_sdp + seq![kind]);
    }
    let media_session_id = media_session(&cs.transport);
    (reqs, Some(TransportUpdate { room_id: room, peer_id: peer, media_session_id }))
}

/// The trimmed ICE candidate, unless absent or blank.
pub open spec fn candidate_of(candidate_json: Option<String>) -> Option<Seq<char>> {
    match candidate_json {
        Some(c) => if trimmed(c@).len() > 0 {
            Some(trimmed(c@))
        } else {
            None
        },
        None => None,
    }
}

/// The request relaying an ICE candidate to the media backend, and the
/// transport update that follows it.  Without media routing (peer-to-peer
/// calls) the candidate passes through between the clients untouched.
pub fn ice_plan(cs: &CallSignalEvent, candidate_json: &Option<String>, conversation: &str, rid: &str) -> (r: (
    Vec<CapabilityRequest>,
    Option<TransportUpdate>,
))
    ensures
        match (media_context(*cs), candidate_of(*candidate_json)) {
            (Some((room, peer)), Some(c)) => r.0@.len() == 1 && addressed(
                r.0@[0],
                CapabilityKind::IceCandidate,
                cs.from_user_id@,
                conversation@,
                rid@ + "-media-ice"@,
            ) && (r.0@[0].payload matches CapabilityPayload::IceCandidate { room_id, peer_id, candidate_json: cj }
                && room_id@ == room && peer_id@ == peer && cj@ == c) && (r.1 matches Some(u) && u.room_id@ == room
                && u.peer_id@ == peer && u.media_session_id is None),
            _ => r.0@.len() == 0 && r.1 is None,
        },
{
    let (room, peer) = match media_routing(cs) {
        Some(x) => x,
        None => return (Vec::new(), None),
    };
    let candidate = match candidate_json {
        Some(c) => trim(c.as_str()),
        None => return (Vec::new(), None),
    };
    if candidate.unicode_len() == 0 {
        return (Vec::new(), None);
    }
    let req = build_request(
        CapabilityKind::IceCandidate,
        &cs.from_user_id,
        conversation,
        rid,
        CapabilityPayload::IceCandidate { room_id: room.clone(), peer_id: peer.clone(), candidate_json: candidate },
    );
    let mut reqs: Vec<CapabilityRequest> = Vec::new();
    reqs.push(req);
    (reqs, Some(TransportUpdate { room_id: room, peer_id: peer, media_session_id: None }))
}

/// The transport after an update: room and peer replaced; the media
/// session kept, or taken from the update when there was none.
pub open spec fn updated_transport(t: Option<CallTransport>, u: TransportUpdate) -> TransportView {
    let (room, peer, media, ws, instance) = transport_or_default(t);
    (u.room_id@, u.peer_id@, if media is None {
        opt_view(u.media_session_id)
    } else {
        media
    }, ws, instance)
}

/// Writes a routing update into the signal's transport.
pub fn apply_transport_update(cs: &mut CallSignalEvent, update: TransportUpdate)
    ensures
        final(cs).transport matches Some(t) && transport_view(t) == updated_transport(old(cs).transport, update),
        same_signal(*final(cs), *old(cs)),
        final(cs).call_id == old(cs).call_id,
        final(cs).ext == old(cs).ext,
{
    let ghost u = update;
    let mut t = take_transport(cs);
    t.room_id = update.room_id;
    t.peer_id = update.peer_id;
    if t.media_session_id.is_none() {
        t.media_session_id = update.media_session_id;
    }
    cs.transport = Some(t);
}

// ---------------------------------------------------------------------------
// The enrichment
// ---------------------------------------------------------------------------

/// The capability requests an event's enrichment starts with, the request
/// id they derive from, and the routing update to write once they all went
/// through.
#[derive(Debug, Clone)]
pub struct EnrichmentPlan {
    pub request_id: String,
    pub requests: Vec<CapabilityRequest>,
    pub transport: Option<TransportUpdate>,
}

/// The call signal of an event the capability service acts on: a
/// call-signal event with a call-signal payload, a sender and a
/// conversation (both non-blank).
pub open spec fn enrichable(event: Event) -> Option<CallSignalEvent> {
    if event.event_type == EventTypeCode::Known(EventType::CallSignal) {
        match event.payload {
            Some(EventPayload::CallSignal(cs)) => if !blank(cs.from_user_id@) && !blank(event.conversation_id@) {
                Some(cs)
            } else {
                None
            },
            _ => None,
        }
    } else {
        None
    }
}

/// The request id: the event's own when non-empty, else the context's when
/// non-empty, else a fresh one.
pub open spec fn request_id_ok(event_rid: Option<String>, ctx_rid: Seq<char>, rid: Seq<char>) -> bool {
    match event_rid {
        Some(r) if r@.len() > 0 => rid == r@,
        _ => if ctx_rid.len() > 0 {
            rid == ctx_rid
        } else {
            is_uuid_v4_text(rid)
        },
    }
}

/// A lowercase hexadecimal digit.
pub open spec fn is_lower_hex(c: char) -> bool {
    ('0' <= c && c <= '9') || ('a' <= c && c <= 'f')
}

/// The text of a random (version 4) UUID in its hyphenated lowercase form:
/// 36 characters, hyphens at 8, 13, 18 and 23, hexadecimal digits elsewhere,
/// the version digit `4` at 14 and a variant digit `8`, `9`, `a` or `b` at 19.
pub open spec fn is_uuid_v4_text(s: Seq<char>) -> bool {
    &&& s.len() == 36
    &&& forall|i: int|
        0 <= i < 36 ==> if i == 8 || i == 13 || i == 18 || i == 23 {
            #[trigger] s[i] == '-'
        } else {
            is_lower_hex(s[i])
        }
    &&& s[14] == '4'
    &&& (s[19] == '8' || s[19] == '9' || s[19] == 'a' || s[19] == 'b')
}

/// Whether `p` is the body of an invite of `cs`: the call id when
/// non-empty, the `ext` map when non-empty.
pub open spec fn invite_payload_ok(p: CapabilityPayload, cs: CallSignalEvent) -> bool {
    p matches CapabilityPayload::Invite { call_id, ext } && opt_view(call_id) == (if cs.call_id@.len() > 0 {
        Some(cs.call_id@)
    } else {
        None
    }) && match ext {
        Some(m) => cs.ext.entries@.len() > 0 && m.entries@ == cs.ext.entries@,
        None => cs.ext.entries@.len() == 0,
    }
}

/// Whether `reqs` is the single request `kind` of `cs` with body `p`.
pub open spec fn single_call_request(reqs: Seq<CapabilityRequest>, kind: CapabilityKind, cs: CallSignalEvent, conversation: Seq<char>, rid: Seq<char>) -> bool {
    reqs.len() == 1 && addressed(reqs[0], kind, cs.from_user_id@, conversation, rid)
}

/// Whether a signal needs a call id that it lacks.
pub open spec fn lacks_call_id(cs: CallSignalEvent) -> bool {
    (cs.signal matches Some(CallSignal::Accept { .. }) || cs.signal matches Some(CallSignal::Reject { .. })
        || cs.signal matches Some(CallSignal::Hangup(_))) && call_id_of(cs.call_id@) is None
}

/// Whether `p` is the plan of a signal `cs` of an event in `conversation`.
pub open spec fn plan_ok(p: EnrichmentPlan, cs: CallSignalEvent, conversation: Seq<char>) -> bool {
    let rid = p.request_id@;
    let reqs = p.requests@;
    match cs.signal {
        Some(CallSignal::Invite { offered_media }) => single_call_request(reqs, invite_kind(offered_media), cs, conversation, rid)
            && invite_payload_ok(reqs[0].payload, cs) && p.transport is None,
        Some(CallSignal::Accept { .. }) => single_call_request(reqs, CapabilityKind::Accept, cs, conversation, rid)
            && is_call_payload(reqs[0].payload, call_id_of(cs.call_id@).unwrap(), None, None) && p.transport is None,
        Some(CallSignal::Reject { reason, .. }) => single_call_request(reqs, CapabilityKind::Reject, cs, conversation, rid)
            && is_call_payload(
            reqs[0].payload,
            call_id_of(cs.call_id@).unwrap(),
            if reason@.len() == 0 {
                None
            } else {
                Some(reason@)
            },
            None,
        ) && p.transport is None,
        Some(CallSignal::Hangup(h)) => single_call_request(reqs, CapabilityKind::End, cs, conversation, rid)
            && is_call_payload(reqs[0].payload, call_id_of(cs.call_id@).unwrap(), None, h.close_room_if_vacant)
            && p.transport is None,
        Some(CallSignal::Renegotiate) => match media_context(cs) {
            None => reqs.len() == 0 && p.transport is None,
            Some((room, peer)) => media_requests_ok(reqs, renegotiate_kinds(cs.ext, peer), cs, conversation, rid, room, peer)
                && match sdp_step(cs.ext) {
                Some(_) => p.transport matches Some(u) && u.room_id@ == room && u.peer_id@ == peer && opt_view(
                    u.media_session_id,
                ) == media_session_of(cs.transport),
                None => p.transport is None,
            },
        },
        Some(CallSignal::IceCandidate { candidate_json }) => match (media_context(cs), candidate_of(candidate_json)) {
            (Some((room, peer)), Some(c)) => reqs.len() == 1 && addressed(
                reqs[0],
                CapabilityKind::IceCandidate,
                cs.from_user_id@,
                conversation,
                rid + "-media-ice"@,
            ) && (reqs[0].payload matches CapabilityPayload::IceCandidate { room_id, peer_id, candidate_json: cj }
                && room_id@ == room && peer_id@ == peer && cj@ == c) && (p.transport matches Some(u) && u.room_id@ == room
                && u.peer_id@ == peer && u.media_session_id is None),
            _ => reqs.len() == 0 && p.transport is None,
        },
        _ => reqs.len() == 0 && p.transport is None,
    }
}

/// `uuid::Uuid::new_v4().to_string()`: a fresh random request id.  Its
/// digits are random; `Display` writes the hyphenated lowercase form, and
/// `new_v4` fixes the version and variant digits.
#[verifier::external_body]
pub(crate) fn new_request_id() -> (r: String)
    ensures
        is_uuid_v4_text(r@),
{
    uuid::Uuid::new_v4().to_string()
}

fn single(r: CapabilityRequest) -> (v: Vec<CapabilityRequest>)
    ensures
        v@ == seq![r],
{
    let mut v: Vec<CapabilityRequest> = Vec::new();
    v.push(r);
    v
}

fn empty_plan() -> (p: EnrichmentPlan)
    ensures
        p.requests@.len() == 0,
        p.transport is None,
{
    EnrichmentPlan { request_id: String::new(), requests: Vec::new(), transport: None }
}

fn signal_plan(cs: &CallSignalEvent, conversation: &str, rid: String) -> (r: Result<EnrichmentPlan, EnrichError>)
    ensures
        lacks_call_id(*cs) ==> r == Err::<EnrichmentPlan, EnrichError>(EnrichError::MissingCallId),
        !lacks_call_id(*cs) ==> (r matches Ok(p) && p.request_id == rid && plan_ok(p, *cs, conversation@)),
{
    match &cs.signal {
        Some(CallSignal::Invite { offered_media }) => {
            let kind = invite_capability_id(offered_media);
            let call_id = if cs.call_id.unicode_len() > 0 {
                Some(cs.call_id.clone())
            } else {
                None
            };
            let ext = if cs.ext.is_empty() {
                None
            } else {
                Some(cs.ext.duplicate())
            };
            let req = build_request(kind, &cs.from_user_id, conversation, rid.as_str(), CapabilityPayload::Invite { call_id, ext });
            proof {
                reveal_strlit("");
            }
            Ok(EnrichmentPlan { request_id: rid, requests: single(req), transport: None })
        },
        Some(CallSignal::Accept { .. }) => {
            let payload = call_id_payload(cs.call_id.as_str())?;
            let req = build_request(CapabilityKind::Accept, &cs.from_user_id, conversation, rid.as_str(), payload);
            proof {
                reveal_strlit("");
            }
            Ok(EnrichmentPlan { request_id: rid, requests: single(req), transport: None })
        },
        Some(CallSignal::Reject { reason, .. }) => {
            let payload = reject_payload(cs.call_id.as_str(), reason)?;
            let req = build_request(CapabilityKind::Reject, &cs.from_user_id, conversation, rid.as_str(), payload);
            proof {
                reveal_strlit("");
            }
            Ok(EnrichmentPlan { request_id: rid, requests: single(req), transport: None })
        },
        Some(CallSignal::Hangup(h)) => {
            let payload = hangup_payload(cs.call_id.as_str(), h.close_room_if_vacant)?;
            let req = build_request(CapabilityKind::End, &cs.from_user_id, conversation, rid.as_str(), payload);
            proof {
                reveal_strlit("");
            }
            Ok(EnrichmentPlan { request_id: rid, requests: single(req), transport: None })
        },
        Some(CallSignal::Renegotiate) => {
            let (requests, transport) = renegotiate_plan(cs, conversation, rid.as_str());
            Ok(EnrichmentPlan { request_id: rid, requests, transport })
        },
        Some(CallSignal::IceCandidate { candidate_json }) => {
            let (requests, transport) = ice_plan(cs, candidate_json, conversation, rid.as_str());
            Ok(EnrichmentPlan { request_id: rid, requests, transport })
        },
        _ => Ok(EnrichmentPlan { request_id: rid, requests: Vec::new(), transport: None }),
    }
}

/// Plans the enrichment of an event: nothing for events the capability
/// service does not act on, otherwise the requests its call signal needs
/// (see `plan_ok`).  Accepting, rejecting or ending a call without a call
/// id is an error.
pub fn plan_call_signal_enrichment(event: &Event, ctx_request_id: &str) -> (r: Result<EnrichmentPlan, EnrichError>)
    ensures
        match enrichable(*event) {
            None => r matches Ok(p) && p.requests@.len() == 0 && p.transport is None,
            Some(cs) => if lacks_call_id(cs) {
                r == Err::<EnrichmentPlan, EnrichError>(EnrichError::MissingCallId)
            } else {
                r matches Ok(p) && plan_ok(p, cs, event.conversation_id@) && request_id_ok(
                    event.request_id,
                    ctx_request_id@,
                    p.request_id@,
                )
            },
        },
{
    match event.event_type {
        EventTypeCode::Known(EventType::CallSignal) => {},
        _ => return Ok(empty_plan()),
    }
    let cs = match &event.payload {
        Some(EventPayload::CallSignal(cs)) => cs,
        _ => return Ok(empty_plan()),
    };
    if is_blank(cs.from_user_id.as_str()) {
        return Ok(empty_plan());
    }
    let rid = match &event.request_id {
        Some(r) => {
            if r.unicode_len() > 0 {
                r.clone()
            } else if !ctx_request_id.is_empty() {
                String::from_str(ctx_request_id)
            } else {
                new_request_id()
            }
        },
        None => {
            if !ctx_request_id.is_empty() {
                String::from_str(ctx_request_id)
            } else {
                new_request_id()
            }
        },
    };
    if is_blank(event.conversation_id.as_str()) {
        return Ok(empty_plan());
    }
    signal_plan(cs, event.conversation_id.as_str(), rid)
}

/// Applies the reply to one request of an enrichment.  An accept is
/// followed by a join-token request for the (possibly new) call id.
pub fn apply_capability_reply(
    cs: &mut CallSignalEvent,
    request: &CapabilityRequest,
    reply: &CapabilityReply,
    request_id: &str,
) -> (r: Result<Option<CapabilityRequest>, EnrichError>)
    ensures
        match request.kind {
            CapabilityKind::CallAudioStart | CapabilityKind::CallVideoStart => if reply.is_null {
                r == Err::<Option<CapabilityRequest>, EnrichError>(EnrichError::EmptyCreateResult) && *final(cs) == *old(cs)
            } else {
                r matches Ok(None) && absorbed_call(*old(cs), *final(cs), *reply, false)
            },
            CapabilityKind::Accept => if reply.is_null {
                r == Err::<Option<CapabilityRequest>, EnrichError>(EnrichError::EmptyAcceptResult) && *final(cs) == *old(cs)
            } else {
                absorbed_call(*old(cs), *final(cs), *reply, true) && match call_id_of(final(cs).call_id@) {
                    Some(id) => r matches Ok(Some(q)) && addressed(
                        q,
                        CapabilityKind::JoinToken,
                        request.user_id@,
                        request.conversation_id@,
                        request_id@ + "-join-token"@,
                    ) && is_call_payload(q.payload, id, None, None),
                    None => r == Err::<Option<CapabilityRequest>, EnrichError>(EnrichError::MissingCallId),
                }
            },
            CapabilityKind::JoinToken => if reply.is_null {
                r == Err::<Option<CapabilityRequest>, EnrichError>(EnrichError::EmptyJoinTokenResult) && *final(cs) == *old(cs)
            } else {
                r matches Ok(None) && final(cs).call_id == old(cs).call_id && same_signal(*final(cs), *old(cs))
                    && (final(cs).transport matches Some(t) && transport_view(t) == merged_transport(old(cs).transport, *reply))
                    && forall|k: Seq<char>| #[trigger] final(cs).ext.get_spec(k) == joined_ext(old(cs).ext, *reply, k)
            },
            CapabilityKind::NetworkQualityGet => r matches Ok(None) && final(cs).call_id == old(cs).call_id
                && final(cs).transport == old(cs).transport && same_signal(*final(cs), *old(cs)) && forall|k: Seq<char>|
                #[trigger] final(cs).ext.get_spec(k) == quality_ext(old(cs).ext, *reply, k),
            CapabilityKind::SdpOffer => r matches Ok(None) && final(cs).call_id == old(cs).call_id && final(cs).transport
                == old(cs).transport && same_signal(*final(cs), *old(cs)) && forall|k: Seq<char>|
                #[trigger] final(cs).ext.get_spec(k) == answered_ext(old(cs).ext, *reply, k),
            _ => r matches Ok(None) && *final(cs) == *old(cs),
        },
{
    match request.kind {
        CapabilityKind::CallAudioStart | CapabilityKind::CallVideoStart => {
            apply_create_result_to_call_signal(cs, reply)?;
            Ok(None)
        },
        CapabilityKind::Accept => {
            apply_accept_result_to_call_signal(cs, reply)?;
            let payload = call_id_payload(cs.call_id.as_str())?;
            let q = build_request(
                CapabilityKind::JoinToken,
                &request.user_id,
                request.conversation_id.as_str(),
                request_id,
                payload,
            );
            Ok(Some(q))
        },
        CapabilityKind::JoinToken => {
            apply_join_token_result_to_call_signal(cs, reply)?;
            Ok(None)
        },
        CapabilityKind::NetworkQualityGet => {
            write_network_quality_to_ext(&mut cs.ext, reply);
            Ok(None)
        },
        CapabilityKind::SdpOffer => {
            apply_sdp_answer(&mut cs.ext, reply);
            Ok(None)
        },
        _ => Ok(None),
    }
}

/// What a failed dispatch does to the enrichment: a failed join-token
/// request only marks the signal as degraded (the accept must not be lost);
/// any other failure ends the enrichment.
pub fn absorb_capability_failure(cs: &mut CallSignalEvent, kind: CapabilityKind) -> (tolerated: bool)
    ensures
        tolerated == (kind == CapabilityKind::JoinToken),
        !tolerated ==> *final(cs) == *old(cs),
        tolerated ==> final(cs).call_id == old(cs).call_id && final(cs).transport == old(cs).transport && same_signal(
            *final(cs),
            *old(cs),
        ) && forall|k: Seq<char>|
            #[trigger] final(cs).ext.get_spec(k) == (if k == "flare_rtc_enrich_error"@ {
                Some("join_token_unavailable"@)
            } else if k == "flare_rtc_enrich"@ {
                Some("degraded"@)
            } else {
                old(cs).ext.get_spec(k)
            }),
{
    match kind {
        CapabilityKind::JoinToken => {
            cs.ext.insert(String::from_str("flare_rtc_enrich"), String::from_str("degraded"));
            cs.ext.insert(String::from_str("flare_rtc_enrich_error"), String::from_str("join_token_unavailable"));
            true
        },
        _ => false,
    }
}

/// Enriches call signals through the capability service.  The dispatches
/// themselves are performed by the caller.
#[derive(Debug, Clone, Copy)]
pub struct CallSignalEnrichmentService;

impl CallSignalEnrichmentService {
    pub fn new() -> Self {
        CallSignalEnrichmentService
    }

    /// Starts the enrichment of an event (see `plan_call_signal_enrichment`).
    pub fn enrich_call_signal_event(&self, event: &Event, ctx_request_id: &str) -> (r: Result<EnrichmentPlan, EnrichError>)
        ensures
            match enrichable(*event) {
                None => r matches Ok(p) && p.requests@.len() == 0 && p.transport is None,
                Some(cs) => if lacks_call_id(cs) {
                    r == Err::<EnrichmentPlan, EnrichError>(EnrichError::MissingCallId)
                } else {
                    r matches Ok(p) && plan_ok(p, cs, event.conversation_id@) && request_id_ok(
                        event.request_id,
                        ctx_request_id@,
                        p.request_id@,
                    )
                },
            },
    {
        plan_call_signal_enrichment(event, ctx_request_id)
    }
}

} // verus!
