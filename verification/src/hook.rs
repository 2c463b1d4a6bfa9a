//! What the message hooks see of a message: type labels, the draft's
//! metadata, the hook context's attributes and tags, and the stored
//! record's metadata.
use vstd::prelude::*;
use crate::text::{trimmed, blank, trim, is_blank, str_eq, concat};
use crate::field_map::{FieldMap, map_of, or_insert};
use crate::model::{ConversationType, Message};

verus! {

// ---------------------------------------------------------------------------
// Type labels
// ---------------------------------------------------------------------------

/// The message type codes the labels distinguish; `Other` stands for the
/// unspecified type and codes that name no type.
#[derive(Debug, Clone, Copy, PartialEq, Eq, Structural)]
pub enum MessageTypeCode {
    Text,
    Image,
    Video,
    Audio,
    File,
    Location,
    Card,
    Custom,
    Notification,
    MergeForward,
    LinkCard,
    MiniProgram,
    Thread,
    Poll,
    Task,
    Schedule,
    Announcement,
    Other,
}

/// The kind of a decoded message content; `Other` stands for contents of
/// any other kind and for a content without a body.
#[derive(Debug, Clone, Copy, PartialEq, Eq, Structural)]
pub enum ContentKind {
    Text,
    Image,
    Video,
    Audio,
    File,
    Location,
    Card,
    Notification,
    Custom,
    Forward,
    LinkCard,
    Thread,
    Vote,
    Task,
    Schedule,
    Announcement,
    Other,
}

/// The type label an explicit `message_type` label maps to.
pub open spec fn explicit_label(l: Seq<char>) -> Seq<char> {
    if l == "text"@ || l == "text/plain"@ {
        "text"@
    } else if l == "binary"@ {
        "binary"@
    } else if l == "json"@ {
        "json"@
    } else if l == "image"@ {
        "image"@
    } else if l == "video"@ {
        "video"@
    } else if l == "audio"@ {
        "audio"@
    } else if l == "file"@ {
        "file"@
    } else if l == "sticker"@ {
        "sticker"@
    } else if l == "location"@ {
        "location"@
    } else if l == "card"@ {
        "card"@
    } else if l == "command"@ {
        "command"@
    } else if l == "event"@ {
        "event"@
    } else if l == "system"@ {
        "system"@
    } else {
        "custom"@
    }
}

/// The type label of a decoded content (`unknown` without one).
pub open spec fn content_label(content: Option<ContentKind>) -> Seq<char> {
    match content {
        Some(ContentKind::Text) => "text"@,
        Some(ContentKind::Image) => "image"@,
        Some(ContentKind::Video) => "video"@,
        Some(ContentKind::Audio) => "audio"@,
        Some(ContentKind::File) => "file"@,
        Some(ContentKind::Location) => "location"@,
        Some(ContentKind::Card) => "card"@,
        Some(ContentKind::Notification) => "notification"@,
        Some(ContentKind::Custom) => "custom"@,
        Some(ContentKind::Forward) => "forward"@,
        Some(ContentKind::LinkCard) => "link_card"@,
        Some(ContentKind::Thread) => "thread"@,
        _ => "unknown"@,
    }
}

/// The type label of a message type code, falling back on the content.
pub open spec fn code_label(t: MessageTypeCode, content: Option<ContentKind>) -> Seq<char> {
    match t {
        MessageTypeCode::Text => "text"@,
        MessageTypeCode::Image => "image"@,
        MessageTypeCode::Video => "video"@,
        MessageTypeCode::Audio => "audio"@,
        MessageTypeCode::File => "file"@,
        MessageTypeCode::Location => "location"@,
        MessageTypeCode::Card => "card"@,
        MessageTypeCode::Custom => "custom"@,
        MessageTypeCode::Notification => "notification"@,
        MessageTypeCode::MergeForward => "forward"@,
        MessageTypeCode::LinkCard => "link_card"@,
        MessageTypeCode::MiniProgram => "mini_program"@,
        MessageTypeCode::Thread => "thread"@,
        MessageTypeCode::Poll => "vote"@,
        MessageTypeCode::Task => "task"@,
        MessageTypeCode::Schedule => "schedule"@,
        MessageTypeCode::Announcement => "announcement"@,
        MessageTypeCode::Other => content_label(content),
    }
}

/// A message's type label: its explicit `message_type` label when it has
/// one, else its type code, else its content.
pub open spec fn detected_type(label: Option<Seq<char>>, t: MessageTypeCode, content: Option<ContentKind>) -> Seq<char> {
    match label {
        Some(l) => explicit_label(l),
        None => code_label(t, content),
    }
}

fn content_label_of(content: Option<ContentKind>) -> (r: &'static str)
    ensures
        r@ == content_label(content),
{
    match content {
        Some(ContentKind::Text) => "text",
        Some(ContentKind::Image) => "image",
        Some(ContentKind::Video) => "video",
        Some(ContentKind::Audio) => "audio",
        Some(ContentKind::File) => "file",
        Some(ContentKind::Location) => "location",
        Some(ContentKind::Card) => "card",
        Some(ContentKind::Notification) => "notification",
        Some(ContentKind::Custom) => "custom",
        Some(ContentKind::Forward) => "forward",
        Some(ContentKind::LinkCard) => "link_card",
        Some(ContentKind::Thread) => "thread",
        _ => "unknown",
    }
}

/// A message's type label, from its explicit `message_type` label, its
/// type code and (when the code names no type) its decoded content.
pub fn detect_message_type(label: Option<&str>, message_type: MessageTypeCode, content: Option<ContentKind>) -> (r: &'static str)
    ensures
        r@ == detected_type(
            match label {
                Some(l) => Some(l@),
                None => None,
            },
            message_type,
            content,
        ),
{
    if let Some(l) = label {
        return if str_eq(l, "text") || str_eq(l, "text/plain") {
            "text"
        } else if str_eq(l, "binary") {
            "binary"
        } else if str_eq(l, "json") {
            "json"
        } else if str_eq(l, "image") {
            "image"
        } else if str_eq(l, "video") {
            "video"
        } else if str_eq(l, "audio") {
            "audio"
        } else if str_eq(l, "file") {
            "file"
        } else if str_eq(l, "sticker") {
            "sticker"
        } else if str_eq(l, "location") {
            "location"
        } else if str_eq(l, "card") {
            "card"
        } else if str_eq(l, "command") {
            "command"
        } else if str_eq(l, "event") {
            "event"
        } else if str_eq(l, "system") {
            "system"
        } else {
            "custom"
        };
    }
    match message_type {
        MessageTypeCode::Text => "text",
        MessageTypeCode::Image => "image",
        MessageTypeCode::Video => "video",
        MessageTypeCode::Audio => "audio",
        MessageTypeCode::File => "file",
        MessageTypeCode::Location => "location",
        MessageTypeCode::Card => "card",
        MessageTypeCode::Custom => "custom",
        MessageTypeCode::Notification => "notification",
        MessageTypeCode::MergeForward => "forward",
        MessageTypeCode::LinkCard => "link_card",
        MessageTypeCode::MiniProgram => "mini_program",
        MessageTypeCode::Thread => "thread",
        MessageTypeCode::Poll => "vote",
        MessageTypeCode::Task => "task",
        MessageTypeCode::Schedule => "schedule",
        MessageTypeCode::Announcement => "announcement",
        MessageTypeCode::Other => content_label_of(content),
    }
}

/// The draft's `content_type` label of a decoded content (`unspecified`
/// without one).
pub open spec fn draft_content_label(content: Option<ContentKind>) -> Seq<char> {
    if content_label(content) == "unknown"@ {
        "unspecified"@
    } else {
        content_label(content)
    }
}

/// The draft's `content_type` label.
pub fn draft_content_type(content: Option<ContentKind>) -> (r: &'static str)
    ensures
        r@ == draft_content_label(content),
{
    let l = content_label_of(content);
    if str_eq(l, "unknown") {
        "unspecified"
    } else {
        l
    }
}

/// The stored record's content type of a decoded content.
pub open spec fn mime_label(content: Option<ContentKind>) -> Seq<char> {
    match content {
        Some(ContentKind::Text) => "text/plain"@,
        Some(ContentKind::Image) => "image/*"@,
        Some(ContentKind::Video) => "video/*"@,
        Some(ContentKind::Audio) => "audio/*"@,
        Some(ContentKind::File) => "application/octet-stream"@,
        Some(ContentKind::Location) => "location"@,
        Some(ContentKind::Card) => "card"@,
        Some(ContentKind::Notification) => "notification"@,
        Some(ContentKind::Custom) => "application/custom"@,
        Some(ContentKind::Forward) => "forward"@,
        Some(ContentKind::Thread) => "thread"@,
        Some(ContentKind::LinkCard) => "link_card"@,
        _ => "application/unknown"@,
    }
}

/// The stored record's content type.
pub fn record_content_type(content: Option<ContentKind>) -> (r: &'static str)
    ensures
        r@ == mime_label(content),
{
    match content {
        Some(ContentKind::Text) => "text/plain",
        Some(ContentKind::Image) => "image/*",
        Some(ContentKind::Video) => "video/*",
        Some(ContentKind::Audio) => "audio/*",
        Some(ContentKind::File) => "application/octet-stream",
        Some(ContentKind::Location) => "location",
        Some(ContentKind::Card) => "card",
        Some(ContentKind::Notification) => "notification",
        Some(ContentKind::Custom) => "application/custom",
        Some(ContentKind::Forward) => "forward",
        Some(ContentKind::Thread) => "thread",
        Some(ContentKind::LinkCard) => "link_card",
        _ => "application/unknown",
    }
}

/// The type label a (lower-cased, trimmed) content type names.
pub open spec fn content_type_kind(l: Seq<char>) -> Seq<char> {
    if l == "text/plain"@ || l == "text"@ || l == "plain_text"@ {
        "text"@
    } else if l == "markdown"@ || l == "text/markdown"@ || l == "rich_text"@ || l == "rich-text"@ {
        "rich_text"@
    } else if l == "image"@ || l == "image/png"@ || l == "image/jpeg"@ || l == "image/jpg"@ {
        "image"@
    } else if l == "video"@ || l == "video/mp4"@ || l == "video/mpeg"@ {
        "video"@
    } else if l == "audio"@ || l == "audio/aac"@ || l == "audio/mpeg"@ || l == "voice"@ {
        "audio"@
    } else if l == "file"@ || l == "application/octet-stream"@ || l == "application/pdf"@ || l == "application/zip"@ {
        "file"@
    } else if l == "sticker"@ || l == "emoji"@ || l == "gif"@ {
        "sticker"@
    } else if l == "location"@ || l == "geo"@ || l == "geolocation"@ {
        "location"@
    } else if l == "card"@ || l == "share_card"@ || l == "invite_card"@ {
        "card"@
    } else if l == "command"@ || l == "cmd"@ {
        "command"@
    } else if l == "event"@ {
        "event"@
    } else if l == "system"@ || l == "system_message"@ {
        "system"@
    } else {
        "custom"@
    }
}

/// The type label of a content type that is already trimmed and lower-cased.
pub fn content_type_label(lowered: &str) -> (r: &'static str)
    ensures
        r@ == content_type_kind(lowered@),
{
    let l = lowered;
    if str_eq(l, "text/plain") || str_eq(l, "text") || str_eq(l, "plain_text") {
        "text"
    } else if str_eq(l, "markdown") || str_eq(l, "text/markdown") || str_eq(l, "rich_text") || str_eq(l, "rich-text") {
        "rich_text"
    } else if str_eq(l, "image") || str_eq(l, "image/png") || str_eq(l, "image/jpeg") || str_eq(l, "image/jpg") {
        "image"
    } else if str_eq(l, "video") || str_eq(l, "video/mp4") || str_eq(l, "video/mpeg") {
        "video"
    } else if str_eq(l, "audio") || str_eq(l, "audio/aac") || str_eq(l, "audio/mpeg") || str_eq(l, "voice") {
        "audio"
    } else if str_eq(l, "file") || str_eq(l, "application/octet-stream") || str_eq(l, "application/pdf") || str_eq(
        l,
        "application/zip",
    ) {
        "file"
    } else if str_eq(l, "sticker") || str_eq(l, "emoji") || str_eq(l, "gif") {
        "sticker"
    } else if str_eq(l, "location") || str_eq(l, "geo") || str_eq(l, "geolocation") {
        "location"
    } else if str_eq(l, "card") || str_eq(l, "share_card") || str_eq(l, "invite_card") {
        "card"
    } else if str_eq(l, "command") || str_eq(l, "cmd") {
        "command"
    } else if str_eq(l, "event") {
        "event"
    } else if str_eq(l, "system") || str_eq(l, "system_message") {
        "system"
    } else {
        "custom"
    }
}

/// What `str::to_lowercase` returns for a text: its Unicode lower-case
/// form, a function of the text alone.
pub uninterp spec fn unicode_lowercase(s: Seq<char>) -> Seq<char>;

/// `str::to_lowercase`.
#[verifier::external_body]
fn to_lowercase(s: &str) -> (r: String)
    ensures
        r@ == unicode_lowercase(s@),
{
    s.to_lowercase()
}

/// The type label a content type names: trimmed and lower-cased (Unicode),
/// then matched against the known content types.
pub fn infer_from_content_type(raw: &str) -> (r: &'static str)
    ensures
        r@ == content_type_kind(unicode_lowercase(trimmed(raw@))),
{
    let t = trim(raw);
    let lowered = to_lowercase(t.as_str());
    content_type_label(lowered.as_str())
}

/// The message type code a draft's `message_type` label names.
pub open spec fn label_code(label: Seq<char>) -> MessageTypeCode {
    if label == "text"@ {
        MessageTypeCode::Text
    } else if label == "image"@ {
        MessageTypeCode::Image
    } else if label == "video"@ {
        MessageTypeCode::Video
    } else if label == "audio"@ {
        MessageTypeCode::Audio
    } else if label == "file"@ {
        MessageTypeCode::File
    } else if label == "location"@ {
        MessageTypeCode::Location
    } else if label == "card"@ {
        MessageTypeCode::Card
    } else if label == "notification"@ {
        MessageTypeCode::Notification
    } else if label == "custom"@ {
        MessageTypeCode::Custom
    } else {
        MessageTypeCode::Other
    }
}

/// The message type code a hook's `message_type` label names (unspecified
/// for any other label).
pub fn message_type_from_label(label: &str) -> (r: MessageTypeCode)
    ensures
        r == label_code(label@),
{
    if str_eq(label, "text") {
        MessageTypeCode::Text
    } else if str_eq(label, "image") {
        MessageTypeCode::Image
    } else if str_eq(label, "video") {
        MessageTypeCode::Video
    } else if str_eq(label, "audio") {
        MessageTypeCode::Audio
    } else if str_eq(label, "file") {
        MessageTypeCode::File
    } else if str_eq(label, "location") {
        MessageTypeCode::Location
    } else if str_eq(label, "card") {
        MessageTypeCode::Card
    } else if str_eq(label, "notification") {
        MessageTypeCode::Notification
    } else if str_eq(label, "custom") {
        MessageTypeCode::Custom
    } else {
        MessageTypeCode::Other
    }
}

/// Whether content of this kind may be edited: text and structured content
/// (cards, link cards, custom, notifications, votes, tasks, schedules,
/// announcements, threads); nothing that does not decode.
pub open spec fn editable(content: Option<ContentKind>) -> bool {
    match content {
        Some(ContentKind::Text) | Some(ContentKind::Card) | Some(ContentKind::LinkCard) | Some(ContentKind::Custom)
        | Some(ContentKind::Notification) | Some(ContentKind::Vote) | Some(ContentKind::Task)
        | Some(ContentKind::Schedule) | Some(ContentKind::Announcement) | Some(ContentKind::Thread) => true,
        _ => false,
    }
}

/// Whether an edit may put content of this kind in place.
pub fn is_editable_structured_content(content: Option<ContentKind>) -> (r: bool)
    ensures
        r == editable(content),
{
    match content {
        Some(ContentKind::Text) | Some(ContentKind::Card) | Some(ContentKind::LinkCard) | Some(ContentKind::Custom)
        | Some(ContentKind::Notification) | Some(ContentKind::Vote) | Some(ContentKind::Task)
        | Some(ContentKind::Schedule) | Some(ContentKind::Announcement) | Some(ContentKind::Thread) => true,
        _ => false,
    }
}

// ---------------------------------------------------------------------------
// Small helpers
// ---------------------------------------------------------------------------

/// A value, unless blank.
pub fn non_empty(value: String) -> (r: Option<String>)
    ensures
        r == (if blank(value@) {
            None
        } else {
            Some(value)
        }),
{
    if is_blank(value.as_str()) {
        None
    } else {
        Some(value)
    }
}

/// The tenant of a hook: the given tenant unless absent or blank, else the
/// default tenant, else `"0"`.
pub fn tenant_id_from_opt(tenant: Option<&str>, default: Option<&String>) -> (r: String)
    ensures
        r@ == (match tenant {
            Some(t) if !blank(t@) => t@,
            _ => match default {
                Some(d) => d@,
                None => "0"@,
            },
        }),
{
    if let Some(t) = tenant {
        if !is_blank(t) {
            return String::from_str(t);
        }
    }
    match default {
        Some(d) => d.clone(),
        None => String::from_str("0"),
    }
}

/// The client message id a message's `extra` carries, unless empty.
pub open spec fn client_message_id_of(extra: FieldMap) -> Option<Seq<char>> {
    match extra.get_spec("client_message_id"@) {
        Some(v) => if v.len() > 0 {
            Some(v)
        } else {
            None
        },
        None => None,
    }
}

/// The client message id a message's `extra` carries, unless empty.
pub fn extract_client_message_id(extra: &FieldMap) -> (r: Option<String>)
    ensures
        match r {
            Some(s) => client_message_id_of(*extra) == Some(s@),
            None => client_message_id_of(*extra) is None,
        },
{
    match extra.get("client_message_id") {
        Some(v) => if v.unicode_len() > 0 {
            Some(v.clone())
        } else {
            None
        },
        None => None,
    }
}

// ---------------------------------------------------------------------------
// Maps derived from `extra`
// ---------------------------------------------------------------------------

/// Whether an `extra` key is passed on: not one of the two skipped keys,
/// and not a transport header (`x-` prefix).
pub open spec fn passes(k: Seq<char>, skip1: Seq<char>, skip2: Seq<char>) -> bool {
    k != skip1 && k != skip2 && !(k.len() >= 2 && k[0] == 'x' && k[1] == '-')
}

fn is_header_key(k: &str) -> (r: bool)
    ensures
        r == (k@.len() >= 2 && k@[0] == 'x' && k@[1] == '-'),
{
    let v = crate::text::chars_of(k);
    v.len() >= 2 && v[0] == 'x' && v[1] == '-'
}

/// Writes the passed-on entries of `source` into `target`, replacing
/// existing values.
pub fn overlay_filtered(target: &mut FieldMap, source: &FieldMap, skip1: &str, skip2: &str)
    ensures
        forall|k: Seq<char>|
            #![trigger final(target).get_spec(k)]
            final(target).get_spec(k) == (if passes(k, skip1@, skip2@) && source.get_spec(k) is Some {
                source.get_spec(k)
            } else {
                old(target).get_spec(k)
            }),
{
    let ghost start = *target;
    let n = source.entries.len();
    let mut i: usize = n;
    assert(source.entries@.subrange(n as int, n as int) =~= Seq::<(String, String)>::empty());
    while i > 0
        invariant
            i <= n == source.entries@.len(),
            forall|k: Seq<char>|
                #![trigger target.get_spec(k)]
                target.get_spec(k) == (if passes(k, skip1@, skip2@) && crate::field_map::lookup(
                    source.entries@.subrange(i as int, n as int),
                    k,
                ) is Some {
                    crate::field_map::lookup(source.entries@.subrange(i as int, n as int), k)
                } else {
                    start.get_spec(k)
                }),
        decreases i,
    {
        i = i - 1;
        let ghost s = source.entries@.subrange(i as int, n as int);
        assert(s.drop_first() =~= source.entries@.subrange(i + 1, n as int));
        assert(s[0] == source.entries@[i as int]);
        let key = &source.entries[i].0;
        if !str_eq(key.as_str(), skip1) && !str_eq(key.as_str(), skip2) && !is_header_key(key.as_str()) {
            target.insert(key.clone(), source.entries[i].1.clone());
        }
    }
    assert(source.entries@.subrange(0, n as int) =~= source.entries@);
}

/// The `extra` value under `key`, or empty.
pub open spec fn extra_or_empty(extra: FieldMap, key: Seq<char>) -> Seq<char> {
    match extra.get_spec(key) {
        Some(v) => v,
        None => Seq::empty(),
    }
}

fn get_or_empty(extra: &FieldMap, key: &str) -> (r: String)
    ensures
        r@ == extra_or_empty(*extra, key@),
{
    match extra.get(key) {
        Some(v) => v.clone(),
        None => String::new(),
    }
}

/// The single-chat peer named by a message's channel (empty otherwise).
pub open spec fn receiver_of(m: Message) -> Seq<char> {
    if m.conversation_type == ConversationType::Single && m.channel_id@.len() > 0 {
        m.channel_id@
    } else {
        Seq::empty()
    }
}

/// The `message_type` label stored in a message's `extra`.
pub open spec fn extra_label(extra: FieldMap) -> Option<Seq<char>> {
    extra.get_spec("message_type"@)
}

/// A draft's metadata: the message's `extra` without the sync and tags
/// entries, completed (where absent) with business type, conversation type,
/// message type, content type, sender, receiver and conversation.
pub open spec fn draft_metadata_spec(
    m: Message,
    sync_key: Seq<char>,
    tags_key: Seq<char>,
    t: MessageTypeCode,
    content: Option<ContentKind>,
) -> Map<Seq<char>, Seq<char>> {
    let m0 = map_of(m.extra).remove(sync_key).remove(tags_key);
    let m1 = or_insert(m0, "business_type"@, extra_or_empty(m.extra, "business_type"@));
    let m2 = or_insert(m1, "conversation_type"@, m.conversation_type.label_spec());
    let m3 = or_insert(m2, "message_type"@, detected_type(extra_label(m.extra), t, content));
    let m4 = or_insert(m3, "content_type"@, draft_content_label(content));
    let m5 = or_insert(m4, "sender_id"@, m.sender_id@);
    let m6 = or_insert(m5, "receiver_id"@, receiver_of(m));
    if m.conversation_id@.len() > 0 {
        or_insert(m6, "conversation_id"@, m.conversation_id@)
    } else {
        m6
    }
}

fn label_of(extra: &FieldMap) -> (r: Option<&str>)
    ensures
        match r {
            Some(l) => extra_label(*extra) == Some(l@),
            None => extra_label(*extra) is None,
        },
{
    match extra.get("message_type") {
        Some(v) => Some(v.as_str()),
        None => None,
    }
}

/// The map `serde_json::from_str::<HashMap<String, String>>` reads from
/// `text`: `None` when the text is not a JSON object whose values are all
/// strings.
pub uninterp spec fn parsed_string_map(text: Seq<char>) -> Option<Map<Seq<char>, Seq<char>>>;

/// `serde_json::from_str::<HashMap<String, String>>(text).ok()`, with the
/// map's entries carried over one for one.
#[verifier::external_body]
fn parse_string_map(text: &str) -> (r: Option<FieldMap>)
    ensures
        match r {
            Some(m) => parsed_string_map(text@) == Some(map_of(m)),
            None => parsed_string_map(text@) is None,
        },
{
    match serde_json::from_str::<std::collections::HashMap<String, String>>(text) {
        Ok(m) => Some(FieldMap { entries: m.into_iter().collect() }),
        Err(_) => None,
    }
}

/// The headers of a draft: the tags entry of the message's `extra` read as
/// a JSON object of strings, or none when it is absent or not such an
/// object.
pub open spec fn draft_headers_spec(extra: FieldMap, tags_key: Seq<char>) -> Map<Seq<char>, Seq<char>> {
    match extra.get_spec(tags_key) {
        Some(t) => match parsed_string_map(t) {
            Some(m) => m,
            None => Map::empty(),
        },
        None => Map::empty(),
    }
}

/// A draft's headers (see `draft_headers_spec`).
pub fn draft_headers(extra: &FieldMap, tags_key: &str) -> (r: FieldMap)
    ensures
        map_of(r) == draft_headers_spec(*extra, tags_key@),
{
    let empty = FieldMap::new();
    assert(map_of(empty) =~= Map::<Seq<char>, Seq<char>>::empty());
    match extra.get(tags_key) {
        Some(t) => match parse_string_map(t.as_str()) {
            Some(m) => m,
            None => empty,
        },
        None => empty,
    }
}

/// A draft's metadata (see `draft_metadata_spec`).
pub fn draft_metadata(
    request: &Message,
    sync_key: &str,
    tags_key: &str,
    message_type: MessageTypeCode,
    content: Option<ContentKind>,
) -> (r: FieldMap)
    ensures
        map_of(r) == draft_metadata_spec(*request, sync_key@, tags_key@, message_type, content),
{
    let mut m = request.extra.duplicate();
    let ghost g0 = map_of(m);
    assert(g0 =~= map_of(request.extra));
    m.remove(sync_key);
    let ghost g1 = map_of(m);
    assert(g1 =~= g0.remove(sync_key@));
    m.remove(tags_key);
    let ghost g2 = map_of(m);
    assert(g2 =~= g1.remove(tags_key@));
    m.entry_or_insert(String::from_str("business_type"), get_or_empty(&request.extra, "business_type"));
    let ghost g3 = map_of(m);
    assert(g3 =~= or_insert(g2, "business_type"@, extra_or_empty(request.extra, "business_type"@)));
    m.entry_or_insert(String::from_str("conversation_type"), request.conversation_type.label());
    let ghost g4 = map_of(m);
    assert(g4 =~= or_insert(g3, "conversation_type"@, request.conversation_type.label_spec()));
    let label = detect_message_type(label_of(&request.extra), message_type, content);
    m.entry_or_insert(String::from_str("message_type"), String::from_str(label));
    let ghost g5 = map_of(m);
    assert(g5 =~= or_insert(g4, "message_type"@, detected_type(extra_label(request.extra), message_type, content)));
    m.entry_or_insert(String::from_str("content_type"), String::from_str(draft_content_type(content)));
    let ghost g6 = map_of(m);
    assert(g6 =~= or_insert(g5, "content_type"@, draft_content_label(content)));
    m.entry_or_insert(String::from_str("sender_id"), request.sender_id.clone());
    let ghost g7 = map_of(m);
    assert(g7 =~= or_insert(g6, "sender_id"@, request.sender_id@));
    let receiver = if request.conversation_type == ConversationType::Single && request.channel_id.unicode_len() > 0 {
        request.channel_id.clone()
    } else {
        String::new()
    };
    m.entry_or_insert(String::from_str("receiver_id"), receiver);
    let ghost g8 = map_of(m);
    assert(g8 =~= or_insert(g7, "receiver_id"@, receiver_of(*request)));
    if request.conversation_id.unicode_len() > 0 {
        m.entry_or_insert(String::from_str("conversation_id"), request.conversation_id.clone());
        assert(map_of(m) =~= or_insert(g8, "conversation_id"@, request.conversation_id@));
    }
    m
}

/// The attributes of a draft's request context: the passed-on entries of
/// the message's `extra` (no sync or tags entry, no transport header).
pub fn request_attributes(extra: &FieldMap, sync_key: &str, tags_key: &str) -> (r: FieldMap)
    ensures
        forall|k: Seq<char>|
            #![trigger r.get_spec(k)]
            r.get_spec(k) == (if passes(k, sync_key@, tags_key@) {
                extra.get_spec(k)
            } else {
                None
            }),
{
    let mut r = FieldMap::new();
    overlay_filtered(&mut r, extra, sync_key, tags_key);
    r
}

/// The request context of a draft: the `x-request-id` header (empty when
/// absent), the `x-trace-id` header when non-empty, and the passed-on
/// `extra` entries when there are any.
#[derive(Debug, Clone)]
pub struct DraftRequestContext {
    pub request_id: String,
    pub trace_id: Option<String>,
    pub attributes: Option<FieldMap>,
}

/// The tenant context of a draft whose message names a tenant.
#[derive(Debug, Clone)]
pub struct DraftTenantContext {
    pub tenant_id: String,
    pub business_type: String,
    pub environment: String,
    /// The message's whole `extra`.
    pub custom_attributes: FieldMap,
}

/// The extras a draft carries besides its metadata.
#[derive(Debug, Clone)]
pub struct DraftExtras {
    pub conversation_id: String,
    pub sync: bool,
    pub request_context: DraftRequestContext,
    pub tenant_context: Option<DraftTenantContext>,
}

/// The draft a pre-send hook sees of a message.
#[derive(Debug, Clone)]
pub struct MessageDraft {
    pub message_id: Option<String>,
    pub conversation_id: Option<String>,
    pub headers: FieldMap,
    pub metadata: FieldMap,
    pub extras: DraftExtras,
}

/// Whether `extra` has an entry that is passed on to hooks.
pub open spec fn has_passed_entry(extra: FieldMap, sync_key: Seq<char>, tags_key: Seq<char>) -> bool {
    exists|k: Seq<char>| passes(k, sync_key, tags_key) && #[trigger] extra.get_spec(k) is Some
}

/// The extras of a draft of `m` (see `DraftExtras`).
pub open spec fn draft_extras_ok(x: DraftExtras, m: Message, sync_key: Seq<char>, tags_key: Seq<char>) -> bool {
    &&& x.conversation_id == m.conversation_id
    &&& x.sync == is_sync(m.extra, sync_key)
    &&& x.request_context.request_id@ == extra_or_empty(m.extra, "x-request-id"@)
    &&& (match x.request_context.trace_id {
        Some(t) => Some(t@),
        None => None,
    }) == (match m.extra.get_spec("x-trace-id"@) {
        Some(t) => if t.len() > 0 {
            Some(t)
        } else {
            None
        },
        None => None,
    })
    &&& match x.request_context.attributes {
        Some(a) => has_passed_entry(m.extra, sync_key, tags_key) && forall|k: Seq<char>|
            #[trigger] a.get_spec(k) == (if passes(k, sync_key, tags_key) {
                m.extra.get_spec(k)
            } else {
                None
            }),
        None => !has_passed_entry(m.extra, sync_key, tags_key),
    }
    &&& match m.extra.get_spec("x-tenant-id"@) {
        Some(t) => x.tenant_context matches Some(c) && c.tenant_id@ == t && c.business_type@ == extra_or_empty(
            m.extra,
            "business_type"@,
        ) && c.environment@ == extra_or_empty(m.extra, "environment"@) && c.custom_attributes.entries@
            == m.extra.entries@,
        None => x.tenant_context is None,
    }
}

// ---------------------------------------------------------------------------
// Stored records
// ---------------------------------------------------------------------------

/// The extras of a message's draft (see `draft_extras_ok`).
pub fn draft_extras(request: &Message, sync_key: &str, tags_key: &str) -> (r: DraftExtras)
    ensures
        draft_extras_ok(r, *request, sync_key@, tags_key@),
{
    let sync = match request.extra.get(sync_key) {
        Some(v) => str_eq(v.as_str(), "true"),
        None => false,
    };
    proof {
        reveal_strlit("true");
    }
    let request_id = get_or_empty(&request.extra, "x-request-id");
    let trace_id = match request.extra.get("x-trace-id") {
        Some(t) => if t.unicode_len() > 0 {
            Some(t.clone())
        } else {
            None
        },
        None => None,
    };
    let attrs = request_attributes(&request.extra, sync_key, tags_key);
    let attributes = if attrs.is_empty() {
        proof {
            assert forall|k: Seq<char>| !(passes(k, sync_key@, tags_key@) && #[trigger] request.extra.get_spec(k) is Some) by {
                assert(attrs.get_spec(k) is None);
            }
        }
        None
    } else {
        proof {
            let k0 = attrs.entries@[0].0@;
            assert(attrs.get_spec(k0) is Some);
            assert(passes(k0, sync_key@, tags_key@) && request.extra.get_spec(k0) is Some);
        }
        Some(attrs)
    };
    let tenant_context = match request.extra.get("x-tenant-id") {
        Some(t) => Some(
            DraftTenantContext {
                tenant_id: t.clone(),
                business_type: get_or_empty(&request.extra, "business_type"),
                environment: get_or_empty(&request.extra, "environment"),
                custom_attributes: request.extra.duplicate(),
            },
        ),
        None => None,
    };
    DraftExtras {
        conversation_id: request.conversation_id.clone(),
        sync,
        request_context: DraftRequestContext { request_id, trace_id, attributes },
        tenant_context,
    }
}

/// Builds the draft a pre-send hook sees of a message: its server id and
/// conversation id unless blank, the headers its tags entry holds, its
/// metadata and its extras.
pub fn build_draft_from_request(
    request: &Message,
    sync_key: &str,
    tags_key: &str,
    message_type: MessageTypeCode,
    content: Option<ContentKind>,
) -> (r: MessageDraft)
    ensures
        r.message_id == non_blank(request.server_id),
        r.conversation_id == non_blank(request.conversation_id),
        map_of(r.headers) == draft_headers_spec(request.extra, tags_key@),
        map_of(r.metadata) == draft_metadata_spec(*request, sync_key@, tags_key@, message_type, content),
        draft_extras_ok(r.extras, *request, sync_key@, tags_key@),
{
    MessageDraft {
        message_id: non_empty(request.server_id.clone()),
        conversation_id: non_empty(request.conversation_id.clone()),
        headers: draft_headers(&request.extra, tags_key),
        metadata: draft_metadata(request, sync_key, tags_key, message_type, content),
        extras: draft_extras(request, sync_key, tags_key),
    }
}

/// Whether `k` names a tag (`tag::{name}`).
pub open spec fn is_tag_key(k: Seq<char>) -> bool {
    k.len() >= 5 && k.subrange(0, 5) == "tag::"@
}

/// The metadata of a stored record before its tags: the message's `extra`
/// with business type, conversation type and content type set, and the
/// client message id where absent.
pub open spec fn record_base_metadata(m: Message, content: Option<ContentKind>) -> Map<Seq<char>, Seq<char>> {
    let m1 = map_of(m.extra).insert("business_type"@, extra_or_empty(m.extra, "business_type"@)).insert(
        "conversation_type"@,
        m.conversation_type.label_spec(),
    ).insert("content_type"@, mime_label(content));
    match client_message_id_of(m.extra) {
        Some(c) => or_insert(m1, "client_message_id"@, c),
        None => m1,
    }
}

/// A record of a stored message, as handed to the storage hooks.
#[derive(Debug, Clone)]
pub struct MessageRecord {
    pub message_id: String,
    pub client_message_id: Option<String>,
    pub conversation_id: String,
    pub sender_id: String,
    pub conversation_type: Option<String>,
    pub message_type: Option<String>,
    pub persisted_at: crate::clock::Timestamp,
    pub metadata: FieldMap,
}

/// The metadata of a stored record: the base metadata, with every tag
/// `name` of the message stored under `tag::{name}`.
pub fn record_metadata(request: &Message, content: Option<ContentKind>, tags: &FieldMap) -> (r: FieldMap)
    ensures
        forall|k: Seq<char>|
            #![trigger r.get_spec(k)]
            r.get_spec(k) == (if is_tag_key(k) && tags.get_spec(k.subrange(5, k.len() as int)) is Some {
                tags.get_spec(k.subrange(5, k.len() as int))
            } else if record_base_metadata(*request, content).dom().contains(k) {
                Some(record_base_metadata(*request, content)[k])
            } else {
                None
            }),
{
    let mut m = request.extra.duplicate();
    let ghost g0 = map_of(m);
    assert(g0 =~= map_of(request.extra));
    m.insert(String::from_str("business_type"), get_or_empty(&request.extra, "business_type"));
    m.insert(String::from_str("conversation_type"), request.conversation_type.label());
    m.insert(String::from_str("content_type"), String::from_str(record_content_type(content)));
    let ghost g1 = map_of(m);
    assert(g1 =~= g0.insert("business_type"@, extra_or_empty(request.extra, "business_type"@)).insert(
        "conversation_type"@,
        request.conversation_type.label_spec(),
    ).insert("content_type"@, mime_label(content)));
    if let Some(client) = extract_client_message_id(&request.extra) {
        m.entry_or_insert(String::from_str("client_message_id"), client);
    }
    let ghost base = map_of(m);
    assert(base =~= record_base_metadata(*request, content));
    proof {
        reveal_strlit("tag::");
    }
    let ghost start = m;
    let n = tags.entries.len();
    let mut i: usize = n;
    assert(tags.entries@.subrange(n as int, n as int) =~= Seq::<(String, String)>::empty());
    while i > 0
        invariant
            i <= n == tags.entries@.len(),
            "tag::"@.len() == 5,
            forall|k: Seq<char>|
                #![trigger m.get_spec(k)]
                m.get_spec(k) == (if is_tag_key(k) && crate::field_map::lookup(
                    tags.entries@.subrange(i as int, n as int),
                    k.subrange(5, k.len() as int),
                ) is Some {
                    crate::field_map::lookup(tags.entries@.subrange(i as int, n as int), k.subrange(5, k.len() as int))
                } else {
                    start.get_spec(k)
                }),
        decreases i,
    {
        i = i - 1;
        let ghost s = tags.entries@.subrange(i as int, n as int);
        assert(s.drop_first() =~= tags.entries@.subrange(i + 1, n as int));
        assert(s[0] == tags.entries@[i as int]);
        let key = concat("tag::", tags.entries[i].0.as_str());
        let ghost name = tags.entries@[i as int].0@;
        proof {
            assert forall|k: Seq<char>| k == key@ <==> (is_tag_key(k) && k.subrange(5, k.len() as int) == name) by {
                if k == key@ {
                    assert(k.subrange(0, 5) =~= "tag::"@);
                    assert(k.subrange(5, k.len() as int) =~= name);
                }
                if is_tag_key(k) && k.subrange(5, k.len() as int) == name {
                    assert(k =~= "tag::"@ + name);
                }
            }
        }
        m.insert(key, tags.entries[i].1.clone());
    }
    assert(tags.entries@.subrange(0, n as int) =~= tags.entries@);
    assert forall|k: Seq<char>| #[trigger] start.get_spec(k) == (if base.dom().contains(k) {
        Some(base[k])
    } else {
        None
    }) by {}
    m
}

/// The record of a stored message; its message type is its content type,
/// and it is stamped with the current time.
pub fn build_message_record(request: &Message, content: Option<ContentKind>, tags: &FieldMap) -> (r: MessageRecord)
    ensures
        r.message_id == request.server_id,
        r.client_message_id == Some(request.client_msg_id),
        r.conversation_id == request.conversation_id,
        r.sender_id == request.sender_id,
        r.conversation_type matches Some(t) && t@ == request.conversation_type.label_spec(),
        r.message_type matches Some(t) && t@ == mime_label(content),
        forall|k: Seq<char>|
            #![trigger r.metadata.get_spec(k)]
            r.metadata.get_spec(k) == (if is_tag_key(k) && tags.get_spec(k.subrange(5, k.len() as int)) is Some {
                tags.get_spec(k.subrange(5, k.len() as int))
            } else if record_base_metadata(*request, content).dom().contains(k) {
                Some(record_base_metadata(*request, content)[k])
            } else {
                None
            }),
{
    let metadata = record_metadata(request, content, tags);
    let message_type = match metadata.get("content_type") {
        Some(v) => Some(v.clone()),
        None => None,
    };
    proof {
        reveal_strlit("tag::");
        reveal_strlit("content_type");
        assert("content_type"@.subrange(0, 5)[0] == 'c');
        assert("tag::"@[0] == 't');
        assert(!is_tag_key("content_type"@));
        assert(record_base_metadata(*request, content).dom().contains("content_type"@));
    }
    MessageRecord {
        message_id: request.server_id.clone(),
        client_message_id: Some(request.client_msg_id.clone()),
        conversation_id: request.conversation_id.clone(),
        sender_id: request.sender_id.clone(),
        conversation_type: Some(request.conversation_type.label()),
        message_type,
        persisted_at: crate::clock::now(),
        metadata,
    }
}

// ---------------------------------------------------------------------------
// Hook contexts
// ---------------------------------------------------------------------------

/// What a hook context carries about a message.
#[derive(Debug, Clone)]
pub struct HookData {
    pub conversation_id: Option<String>,
    pub sender_id: Option<String>,
    pub conversation_type: Option<String>,
    pub message_type: Option<String>,
    pub tags: FieldMap,
    pub attributes: FieldMap,
    pub request_metadata: FieldMap,
}

/// A string unless blank.
pub open spec fn non_blank(s: String) -> Option<String> {
    if blank(s@) {
        None
    } else {
        Some(s)
    }
}

/// Whether a message's `extra` marks it as a sync message.
pub open spec fn is_sync(extra: FieldMap, sync_key: Seq<char>) -> bool {
    extra.get_spec(sync_key) == Some("true"@)
}

/// The attributes of a message's hook context: the tenant header, and, for
/// a message with content, its business type, conversation type, receiver
/// (single chats with a channel), conversation, client message id, type
/// label and sync flag.
pub open spec fn hook_attributes_spec(
    m: Message,
    has_content: bool,
    sync_key: Seq<char>,
    t: MessageTypeCode,
    content: Option<ContentKind>,
) -> Map<Seq<char>, Seq<char>> {
    let a0 = match m.extra.get_spec("x-tenant-id"@) {
        Some(tenant) => Map::<Seq<char>, Seq<char>>::empty().insert("tenant_id"@, tenant),
        None => Map::<Seq<char>, Seq<char>>::empty(),
    };
    if !has_content {
        a0
    } else {
        let a1 = or_insert(a0, "business_type"@, extra_or_empty(m.extra, "business_type"@));
        let a2 = or_insert(a1, "conversation_type"@, m.conversation_type.label_spec());
        let a3 = if receiver_of(m).len() > 0 {
            or_insert(a2, "receiver_id"@, m.channel_id@)
        } else {
            a2
        };
        let a4 = if m.conversation_id@.len() > 0 {
            or_insert(a3, "conversation_id"@, m.conversation_id@)
        } else {
            a3
        };
        let a5 = match client_message_id_of(m.extra) {
            Some(c) => or_insert(a4, "client_message_id"@, c),
            None => a4,
        };
        let a6 = or_insert(a5, "message_type_label"@, detected_type(extra_label(m.extra), t, content));
        or_insert(a6, "sync"@, if is_sync(m.extra, sync_key) {
            "true"@
        } else {
            "false"@
        })
    }
}

fn hook_attributes(
    m: &Message,
    has_content: bool,
    sync_key: &str,
    t: MessageTypeCode,
    content: Option<ContentKind>,
) -> (r: FieldMap)
    ensures
        map_of(r) == hook_attributes_spec(*m, has_content, sync_key@, t, content),
{
    let mut a = FieldMap::new();
    assert(map_of(a) =~= Map::<Seq<char>, Seq<char>>::empty());
    if let Some(tenant) = m.extra.get("x-tenant-id") {
        a.entry_or_insert(String::from_str("tenant_id"), tenant.clone());
    }
    let ghost a0 = map_of(a);
    assert(a0 =~= match m.extra.get_spec("x-tenant-id"@) {
        Some(tenant) => Map::<Seq<char>, Seq<char>>::empty().insert("tenant_id"@, tenant),
        None => Map::<Seq<char>, Seq<char>>::empty(),
    });
    if !has_content {
        return a;
    }
    a.entry_or_insert(String::from_str("business_type"), get_or_empty(&m.extra, "business_type"));
    let ghost a1 = map_of(a);
    assert(a1 =~= or_insert(a0, "business_type"@, extra_or_empty(m.extra, "business_type"@)));
    a.entry_or_insert(String::from_str("conversation_type"), m.conversation_type.label());
    let ghost a2 = map_of(a);
    assert(a2 =~= or_insert(a1, "conversation_type"@, m.conversation_type.label_spec()));
    if m.conversation_type == ConversationType::Single && m.channel_id.unicode_len() > 0 {
        a.entry_or_insert(String::from_str("receiver_id"), m.channel_id.clone());
        assert(map_of(a) =~= or_insert(a2, "receiver_id"@, m.channel_id@));
    }
    let ghost a3 = map_of(a);
    if m.conversation_id.unicode_len() > 0 {
        a.entry_or_insert(String::from_str("conversation_id"), m.conversation_id.clone());
        assert(map_of(a) =~= or_insert(a3, "conversation_id"@, m.conversation_id@));
    }
    let ghost a4 = map_of(a);
    if let Some(c) = extract_client_message_id(&m.extra) {
        let ghost cv = c@;
        a.entry_or_insert(String::from_str("client_message_id"), c);
        assert(map_of(a) =~= or_insert(a4, "client_message_id"@, cv));
    }
    let ghost a5 = map_of(a);
    let label = detect_message_type(label_of(&m.extra), t, content);
    a.entry_or_insert(String::from_str("message_type_label"), String::from_str(label));
    let ghost a6 = map_of(a);
    assert(a6 =~= or_insert(a5, "message_type_label"@, detected_type(extra_label(m.extra), t, content)));
    let sync = match m.extra.get(sync_key) {
        Some(v) => str_eq(v.as_str(), "true"),
        None => false,
    };
    a.entry_or_insert(String::from_str("sync"), String::from_str(if sync {
        "true"
    } else {
        "false"
    }));
    assert(map_of(a) =~= or_insert(a6, "sync"@, if is_sync(m.extra, sync_key@) {
        "true"@
    } else {
        "false"@
    }));
    a
}

/// The hook data of a message read back from the queue.  `tags` are the
/// tags its tags entry holds (parsed by the caller); the passed-on `extra`
/// entries are added to them.  Sender, conversation type and type label
/// are only filled in for a message with content.
pub fn build_hook_data(
    request: &Message,
    tags: FieldMap,
    has_content: bool,
    sync_key: &str,
    tags_key: &str,
    message_type: MessageTypeCode,
    content: Option<ContentKind>,
) -> (r: HookData)
    ensures
        r.conversation_id == non_blank(request.conversation_id),
        has_content ==> r.sender_id == non_blank(request.sender_id),
        !has_content ==> r.sender_id is None,
        has_content ==> (r.conversation_type matches Some(t) && t@ == request.conversation_type.label_spec()),
        !has_content ==> r.conversation_type is None,
        has_content ==> (r.message_type matches Some(t) && t@ == detected_type(extra_label(request.extra), message_type, content)),
        !has_content ==> r.message_type is None,
        forall|k: Seq<char>|
            #![trigger r.tags.get_spec(k)]
            r.tags.get_spec(k) == (if passes(k, tags_key@, tags_key@) && request.extra.get_spec(k) is Some {
                request.extra.get_spec(k)
            } else {
                tags.get_spec(k)
            }),
        map_of(r.attributes) == hook_attributes_spec(*request, has_content, sync_key@, message_type, content),
        map_of(r.request_metadata) == Map::<Seq<char>, Seq<char>>::empty(),
{
    let mut tags = tags;
    overlay_filtered(&mut tags, &request.extra, tags_key, tags_key);
    let attributes = hook_attributes(request, has_content, sync_key, message_type, content);
    let request_metadata = FieldMap::new();
    assert(map_of(request_metadata) =~= Map::<Seq<char>, Seq<char>>::empty());
    let conversation_id = non_empty(request.conversation_id.clone());
    if has_content {
        let label = detect_message_type(label_of(&request.extra), message_type, content);
        HookData {
            conversation_id,
            sender_id: non_empty(request.sender_id.clone()),
            conversation_type: Some(request.conversation_type.label()),
            message_type: Some(String::from_str(label)),
            tags,
            attributes,
            request_metadata,
        }
    } else {
        HookData {
            conversation_id,
            sender_id: None,
            conversation_type: None,
            message_type: None,
            tags,
            attributes,
            request_metadata,
        }
    }
}

/// The value a map holds under `k`, if any.
pub open spec fn map_get(m: Map<Seq<char>, Seq<char>>, k: Seq<char>) -> Option<Seq<char>> {
    if m.dom().contains(k) {
        Some(m[k])
    } else {
        None
    }
}

/// The tags of a message's hook context: the passed-on entries of its
/// `extra`, over the tags its tags entry holds as a JSON object.
pub open spec fn hook_tags_spec(extra: FieldMap, tags_key: Seq<char>, k: Seq<char>) -> Option<Seq<char>> {
    if passes(k, tags_key, tags_key) && extra.get_spec(k) is Some {
        extra.get_spec(k)
    } else {
        map_get(draft_headers_spec(extra, tags_key), k)
    }
}

/// The hook context of a message read back from the queue: the tenant it
/// must be given (when the context carries none), the session it names (the
/// conversation, for a message with content) and its hook data.
#[derive(Debug, Clone)]
pub struct HookContext {
    pub tenant_override: Option<String>,
    pub session_id: Option<String>,
    pub data: HookData,
}

/// Builds the hook context of a message: the tags entry of its `extra` is
/// parsed (see `draft_headers`) and the passed-on entries are laid over it;
/// the rest is `build_hook_data` and `hook_tenant`.
pub fn build_hook_context(
    request: &Message,
    ctx_tenant: Option<&str>,
    default_tenant: Option<&String>,
    has_content: bool,
    sync_key: &str,
    tags_key: &str,
    message_type: MessageTypeCode,
    content: Option<ContentKind>,
) -> (r: HookContext)
    ensures
        match ctx_tenant {
            Some(t) if t@.len() > 0 => r.tenant_override is None,
            _ => r.tenant_override matches Some(x) && x@ == (match default_tenant {
                Some(d) => d@,
                None => "0"@,
            }),
        },
        r.session_id == (if has_content {
            non_blank(request.conversation_id)
        } else {
            None
        }),
        r.data.conversation_id == non_blank(request.conversation_id),
        has_content ==> r.data.sender_id == non_blank(request.sender_id),
        !has_content ==> r.data.sender_id is None,
        has_content ==> (r.data.conversation_type matches Some(t) && t@ == request.conversation_type.label_spec()),
        !has_content ==> r.data.conversation_type is None,
        has_content ==> (r.data.message_type matches Some(t) && t@ == detected_type(
            extra_label(request.extra),
            message_type,
            content,
        )),
        !has_content ==> r.data.message_type is None,
        forall|k: Seq<char>| #[trigger] r.data.tags.get_spec(k) == hook_tags_spec(request.extra, tags_key@, k),
        map_of(r.data.attributes) == hook_attributes_spec(*request, has_content, sync_key@, message_type, content),
        map_of(r.data.request_metadata) == Map::<Seq<char>, Seq<char>>::empty(),
{
    let tags = draft_headers(&request.extra, tags_key);
    let ghost parsed = map_of(tags);
    let data = build_hook_data(request, tags, has_content, sync_key, tags_key, message_type, content);
    proof {
        assert forall|k: Seq<char>| #[trigger] data.tags.get_spec(k) == hook_tags_spec(request.extra, tags_key@, k) by {
            if !(passes(k, tags_key@, tags_key@) && request.extra.get_spec(k) is Some) {
                assert(parsed.dom().contains(k) == tags.get_spec(k) is Some);
            }
        }
    }
    let tenant_override = hook_tenant(ctx_tenant, default_tenant);
    let session_id = if has_content {
        non_empty(request.conversation_id.clone())
    } else {
        None
    };
    HookContext { tenant_override, session_id, data }
}

/// The tenant a hook context must be given: the default tenant (or `"0"`)
/// when the context has none or an empty one; `None` when it keeps its own.
pub fn hook_tenant(ctx_tenant: Option<&str>, default_tenant: Option<&String>) -> (r: Option<String>)
    ensures
        match ctx_tenant {
            Some(t) if t@.len() > 0 => r is None,
            _ => r matches Some(x) && x@ == (match default_tenant {
                Some(d) => d@,
                None => "0"@,
            }),
        },
{
    if let Some(t) = ctx_tenant {
        if !t.is_empty() {
            return None;
        }
    }
    match default_tenant {
        Some(d) => Some(d.clone()),
        None => Some(String::from_str("0")),
    }
}

/// An optional field of the hook data a hook returned, falling back on
/// the field of the data it was given.
pub open spec fn or_given(updated: Option<String>, given: Option<String>) -> Option<String> {
    match updated {
        Some(u) => Some(u),
        None => given,
    }
}

fn clone_opt(o: &Option<String>) -> (r: Option<String>)
    ensures
        r == *o,
{
    match o {
        Some(s) => Some(s.clone()),
        None => None,
    }
}

/// Merges the hook data a hook returned (`updated`) with the data it was
/// given: absent fields and empty maps are taken from the given data, and
/// its attributes are added where the returned ones lack them.
pub fn merge_hook_data(given: &HookData, updated: HookData) -> (r: HookData)
    ensures
        r.conversation_id == updated.conversation_id,
        r.sender_id == or_given(updated.sender_id, given.sender_id),
        r.conversation_type == or_given(updated.conversation_type, given.conversation_type),
        r.message_type == or_given(updated.message_type, given.message_type),
        r.tags.entries@ == (if updated.tags.entries@.len() == 0 {
            given.tags.entries@
        } else {
            updated.tags.entries@
        }),
        updated.attributes.entries@.len() == 0 ==> r.attributes.entries@ == given.attributes.entries@,
        updated.attributes.entries@.len() > 0 ==> forall|k: Seq<char>|
            #![trigger r.attributes.get_spec(k)]
            r.attributes.get_spec(k) == (if updated.attributes.get_spec(k) is Some {
                updated.attributes.get_spec(k)
            } else {
                given.attributes.get_spec(k)
            }),
        r.request_metadata.entries@ == (if updated.request_metadata.entries@.len() == 0 {
            given.request_metadata.entries@
        } else {
            updated.request_metadata.entries@
        }),
{
    let mut u = updated;
    if u.sender_id.is_none() {
        u.sender_id = clone_opt(&given.sender_id);
    }
    if u.conversation_type.is_none() {
        u.conversation_type = clone_opt(&given.conversation_type);
    }
    if u.message_type.is_none() {
        u.message_type = clone_opt(&given.message_type);
    }
    if u.tags.is_empty() {
        u.tags = given.tags.duplicate();
    }
    if u.attributes.is_empty() {
        u.attributes = given.attributes.duplicate();
    } else {
        fill_missing(&mut u.attributes, &given.attributes);
    }
    if u.request_metadata.is_empty() {
        u.request_metadata = given.request_metadata.duplicate();
    }
    u
}

/// Adds the entries of `source` whose keys `target` lacks.
fn fill_missing(target: &mut FieldMap, source: &FieldMap)
    ensures
        forall|k: Seq<char>|
            #![trigger final(target).get_spec(k)]
            final(target).get_spec(k) == (if old(target).get_spec(k) is Some {
                old(target).get_spec(k)
            } else {
                source.get_spec(k)
            }),
{
    let snapshot = target.duplicate();
    let ghost before = *target;
    let n = source.entries.len();
    let mut i: usize = n;
    assert(source.entries@.subrange(n as int, n as int) =~= Seq::<(String, String)>::empty());
    while i > 0
        invariant
            i <= n == source.entries@.len(),
            snapshot.entries@ == before.entries@,
            forall|k: Seq<char>|
                #![trigger target.get_spec(k)]
                target.get_spec(k) == (if before.get_spec(k) is Some {
                    before.get_spec(k)
                } else {
                    crate::field_map::lookup(source.entries@.subrange(i as int, n as int), k)
                }),
        decreases i,
    {
        i = i - 1;
        let ghost s = source.entries@.subrange(i as int, n as int);
        assert(s.drop_first() =~= source.entries@.subrange(i + 1, n as int));
        assert(s[0] == source.entries@[i as int]);
        if !snapshot.contains_key(source.entries[i].0.as_str()) {
            target.insert(source.entries[i].0.clone(), source.entries[i].1.clone());
        }
    }
    assert(source.entries@.subrange(0, n as int) =~= source.entries@);
}

/// The trace id of a merged context: the hook's, or the given's when the
/// hook's is empty.
pub fn merge_trace_id(updated: &str, given: &str) -> (r: String)
    ensures
        r@ == (if updated@.len() == 0 && given@.len() > 0 {
            given@
        } else {
            updated@
        }),
{
    if updated.is_empty() && !given.is_empty() {
        String::from_str(given)
    } else {
        String::from_str(updated)
    }
}

/// The tenant of a merged context: the hook's, or the given's (when
/// non-empty) when the hook's is absent or empty.
pub fn merge_tenant_id(updated: Option<&str>, given: Option<&str>) -> (r: Option<String>)
    ensures
        match r {
            Some(x) => x@ == (match updated {
                Some(u) if u@.len() > 0 => u@,
                _ => match given {
                    Some(o) if o@.len() > 0 => o@,
                    _ => updated.unwrap()@,
                },
            }),
            None => updated is None && !(given matches Some(o) && o@.len() > 0),
        },
{
    if let Some(u) = updated {
        if !u.is_empty() {
            return Some(String::from_str(u));
        }
    }
    if let Some(o) = given {
        if !o.is_empty() {
            return Some(String::from_str(o));
        }
    }
    match updated {
        Some(u) => Some(String::from_str(u)),
        None => None,
    }
}

} // verus!
