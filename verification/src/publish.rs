//! How a message is published (stored and pushed, or only pushed), and how
//! a system message is prepared.
use vstd::prelude::*;
use crate::model::Message;
use crate::field_map::FieldMap;

verus! {

/// What a publication does.
#[derive(Debug, Clone, Copy, PartialEq, Eq, Structural)]
pub enum PublishAction {
    /// Publish to the storage and the push streams.
    StoreAndPush,
    /// Publish to the push stream only.
    PushOnly,
}

/// Publishes to storage and push.
#[derive(Debug, Clone, Copy)]
pub struct PublishBothStrategy;

impl PublishBothStrategy {
    pub fn publish_action(&self) -> (r: PublishAction)
        ensures
            r == PublishAction::StoreAndPush,
    {
        PublishAction::StoreAndPush
    }
}

/// Publishes to push only.
#[derive(Debug, Clone, Copy)]
pub struct PushOnlyStrategy;

impl PushOnlyStrategy {
    pub fn publish_action(&self) -> (r: PublishAction)
        ensures
            r == PublishAction::PushOnly,
    {
        PublishAction::PushOnly
    }
}

/// The category of a message, as far as the registry tells them apart;
/// `Other` stands for every category it has no entry for.
#[derive(Debug, Clone, Copy, PartialEq, Eq, Structural)]
pub enum MessageCategory {
    Normal,
    Operation,
    Notification,
    Temporary,
    Other,
}

/// How a message is processed, as far as the registry tells them apart.
#[derive(Debug, Clone, Copy, PartialEq, Eq, Structural)]
pub enum MessageProcessingType {
    Normal,
    Notification,
    Other,
}

/// The strategy registered for a category and processing type: operations
/// always store and push; normal messages processed normally store and
/// push; notifications and temporary messages processed as notifications
/// are only pushed; anything unregistered stores and pushes.
pub open spec fn registered_action(category: MessageCategory, processing_type: MessageProcessingType) -> PublishAction {
    if category == MessageCategory::Notification && processing_type == MessageProcessingType::Notification {
        PublishAction::PushOnly
    } else if category == MessageCategory::Temporary && processing_type == MessageProcessingType::Notification {
        PublishAction::PushOnly
    } else {
        PublishAction::StoreAndPush
    }
}

/// One registry entry: a category, an optional processing type (none
/// matches every type), and the strategy's action.
pub type RegistryEntry = (MessageCategory, Option<MessageProcessingType>, PublishAction);

/// The first entry of `map` for the category and exactly the processing
/// type, else the first for the category and any type.
pub open spec fn lookup_entry(map: Seq<RegistryEntry>, c: MessageCategory, t: MessageProcessingType, exact: bool) -> Option<PublishAction>
    decreases map.len(),
{
    if map.len() == 0 {
        None
    } else if map[0].0 == c && (if exact {
        map[0].1 == Some(t)
    } else {
        map[0].1 is None
    }) {
        Some(map[0].2)
    } else {
        lookup_entry(map.drop_first(), c, t, exact)
    }
}

/// Picks the publication strategy of a message by category and processing type.
pub struct MessagePublishStrategyRegistry {
    pub map: Vec<RegistryEntry>,
}

impl MessagePublishStrategyRegistry {
    pub open spec fn get_spec(&self, c: MessageCategory, t: MessageProcessingType) -> PublishAction {
        match lookup_entry(self.map@, c, t, true) {
            Some(a) => a,
            None => match lookup_entry(self.map@, c, t, false) {
                Some(a) => a,
                None => PublishAction::StoreAndPush,
            },
        }
    }

    /// The registry of the orchestrator's strategies.
    pub fn new() -> (r: Self)
        ensures
            forall|c: MessageCategory, t: MessageProcessingType| r.get_spec(c, t) == registered_action(c, t),
    {
        let mut map: Vec<RegistryEntry> = Vec::new();
        map.push((MessageCategory::Operation, None, PublishAction::StoreAndPush));
        map.push((MessageCategory::Normal, Some(MessageProcessingType::Normal), PublishAction::StoreAndPush));
        map.push((MessageCategory::Notification, Some(MessageProcessingType::Notification), PublishAction::PushOnly));
        map.push((MessageCategory::Temporary, Some(MessageProcessingType::Notification), PublishAction::PushOnly));
        let r = MessagePublishStrategyRegistry { map };
        assert forall|c: MessageCategory, t: MessageProcessingType| r.get_spec(c, t) == registered_action(c, t) by {
            reveal_with_fuel(lookup_entry, 5);
        }
        r
    }

    fn find(&self, c: MessageCategory, t: MessageProcessingType, exact: bool) -> (r: Option<PublishAction>)
        ensures
            r == lookup_entry(self.map@, c, t, exact),
    {
        let mut i: usize = 0;
        assert(self.map@.subrange(0, self.map@.len() as int) =~= self.map@);
        while i < self.map.len()
            invariant
                i <= self.map@.len(),
                lookup_entry(self.map@, c, t, exact) == lookup_entry(
                    self.map@.subrange(i as int, self.map@.len() as int),
                    c,
                    t,
                    exact,
                ),
            decreases self.map@.len() - i,
        {
            let ghost rest = self.map@.subrange(i as int, self.map@.len() as int);
            assert(rest[0] == self.map@[i as int]);
            let (ec, et, ea) = self.map[i];
            let type_matches = if exact {
                match et {
                    Some(x) => x == t,
                    None => false,
                }
            } else {
                et.is_none()
            };
            if ec == c && type_matches {
                return Some(ea);
            }
            assert(rest.drop_first() =~= self.map@.subrange(i + 1, self.map@.len() as int));
            i = i + 1;
        }
        None
    }

    /// The strategy for a category and processing type: an exact entry,
    /// else the category's catch-all entry, else storing and pushing.
    pub fn get(&self, category: MessageCategory, processing_type: MessageProcessingType) -> (r: PublishAction)
        ensures
            r == self.get_spec(category, processing_type),
    {
        match self.find(category, processing_type, true) {
            Some(a) => a,
            None => match self.find(category, processing_type, false) {
                Some(a) => a,
                None => PublishAction::StoreAndPush,
            },
        }
    }
}

// ---------------------------------------------------------------------------
// System messages
// ---------------------------------------------------------------------------

/// Why a system message cannot be prepared.
#[derive(Debug, Clone, Copy, PartialEq, Eq, Structural)]
pub enum SystemMessageError {
    MissingConversationId,
    MissingSystemMessageType,
}

impl SystemMessageError {
    pub open spec fn message_spec(self) -> Seq<char> {
        match self {
            SystemMessageError::MissingConversationId => "conversation_id is required"@,
            SystemMessageError::MissingSystemMessageType => "system_message_type is required"@,
        }
    }

    pub fn message(&self) -> (r: &'static str)
        ensures
            r@ == self.message_spec(),
    {
        match self {
            SystemMessageError::MissingConversationId => "conversation_id is required",
            SystemMessageError::MissingSystemMessageType => "system_message_type is required",
        }
    }
}

/// A lowercase hexadecimal digit of value `d` (below 16).
pub open spec fn hex_digit(d: int) -> char {
    if d < 10 {
        (d + 48) as char
    } else {
        (d - 10 + 97) as char
    }
}

/// How `serde_json` writes one character inside a string literal: `"` and
/// `\` after a backslash; backspace, tab, line feed, form feed and carriage
/// return as `\b`, `\t`, `\n`, `\f`, `\r`; any other character below
/// U+0020 as `\u00` and two lowercase hexadecimal digits; every other
/// character as it is.
pub open spec fn json_escaped_char(c: char) -> Seq<char> {
    if c == '"' {
        seq!['\\', '"']
    } else if c == '\\' {
        seq!['\\', '\\']
    } else if c == '\u{8}' {
        seq!['\\', 'b']
    } else if c == '\t' {
        seq!['\\', 't']
    } else if c == '\n' {
        seq!['\\', 'n']
    } else if c == '\u{c}' {
        seq!['\\', 'f']
    } else if c == '\r' {
        seq!['\\', 'r']
    } else if (c as int) < 0x20 {
        seq!['\\', 'u', '0', '0', hex_digit((c as int) / 16), hex_digit((c as int) % 16)]
    } else {
        seq![c]
    }
}

/// The characters of `s`, each written as `json_escaped_char` writes it.
pub open spec fn json_escaped(s: Seq<char>) -> Seq<char>
    decreases s.len(),
{
    if s.len() == 0 {
        Seq::empty()
    } else {
        json_escaped(s.drop_last()) + json_escaped_char(s.last())
    }
}

/// The JSON string literal `serde_json` writes for the text `s`: the
/// escaped text between double quotes.
pub open spec fn json_string_text(s: Seq<char>) -> Seq<char> {
    seq!['"'] + json_escaped(s) + seq!['"']
}

/// The members of a JSON object, in the order given, separated by commas.
pub open spec fn json_members(entries: Seq<(Seq<char>, Seq<char>)>) -> Seq<char>
    decreases entries.len(),
{
    if entries.len() == 0 {
        Seq::empty()
    } else {
        let member = json_string_text(entries[0].0) + ":"@ + json_string_text(entries[0].1);
        if entries.len() == 1 {
            member
        } else {
            member + ","@ + json_members(entries.drop_first())
        }
    }
}

/// The compact JSON text of an object with these members, in this order.
pub open spec fn json_object_text(entries: Seq<(Seq<char>, Seq<char>)>) -> Seq<char> {
    "{"@ + json_members(entries) + "}"@
}

/// The entries as plain text pairs.
pub open spec fn entry_views(entries: Seq<(String, String)>) -> Seq<(Seq<char>, Seq<char>)> {
    entries.map_values(|e: (String, String)| (e.0@, e.1@))
}

/// No key occurs twice.
pub open spec fn distinct_keys(entries: Seq<(Seq<char>, Seq<char>)>) -> bool {
    forall|i: int, j: int| 0 <= i < j < entries.len() ==> #[trigger] entries[i].0 != #[trigger] entries[j].0
}

/// `order` lists the same entries as `entries`, in some order.
pub open spec fn same_entries(order: Seq<(Seq<char>, Seq<char>)>, entries: Seq<(Seq<char>, Seq<char>)>) -> bool {
    order.to_multiset() == entries.to_multiset()
}

/// `text` is the compact JSON object of exactly `entries`, in some order.
pub open spec fn json_object_of(text: Seq<char>, entries: Seq<(Seq<char>, Seq<char>)>) -> bool {
    exists|order: Seq<(Seq<char>, Seq<char>)>| same_entries(order, entries) && text == json_object_text(order)
}

/// `serde_json::to_string` of the `HashMap<String, String>` holding
/// `entries`.  Serialising a map with string keys into memory cannot fail.
/// When no key occurs twice, the text is the compact JSON object of exactly
/// these entries; their order is the map's, which follows the process's
/// hash seed, and is not stated.
#[verifier::external_body]
fn string_map_json(entries: Vec<(String, String)>) -> (r: Option<String>)
    ensures
        r is Some,
        distinct_keys(entry_views(entries@)) ==> json_object_of(r->0@, entry_views(entries@)),
{
    let map: std::collections::HashMap<String, String> = entries.into_iter().collect();
    serde_json::to_string(&map).ok()
}

/// The tags of a system message, as text pairs.
pub open spec fn system_tag_entries(system_message_type: Seq<char>) -> Seq<(Seq<char>, Seq<char>)> {
    seq![("system_message_type"@, system_message_type), ("is_system_message"@, "true"@)]
}

/// The tags of a system message: its type, and the system-message flag.
fn system_tags(system_message_type: &str) -> (r: Vec<(String, String)>)
    ensures
        entry_views(r@) == system_tag_entries(system_message_type@),
        distinct_keys(entry_views(r@)),
{
    let mut tags: Vec<(String, String)> = Vec::new();
    tags.push((String::from_str("system_message_type"), String::from_str(system_message_type)));
    tags.push((String::from_str("is_system_message"), String::from_str("true")));
    proof {
        reveal_strlit("system_message_type");
        reveal_strlit("is_system_message");
        assert(entry_views(tags@) =~= system_tag_entries(system_message_type@));
        assert("system_message_type"@.len() != "is_system_message"@.len());
    }
    tags
}

/// Prepares and normalises system messages.
pub struct SystemMessageService;

impl SystemMessageService {
    /// Marks a message as a system message of the given type: the type,
    /// the `system` sender type, sync off, the system tags (under the tags
    /// key), and the tenant header when the context has a tenant; an empty
    /// conversation id is filled in.
    pub fn prepare(
        tenant_id: Option<&str>,
        conversation_id: &str,
        message: Message,
        system_message_type: &str,
        sync_key: &str,
        tags_key: &str,
    ) -> (r: Result<Message, SystemMessageError>)
        ensures
            conversation_id@.len() == 0 ==> r == Err::<Message, SystemMessageError>(
                SystemMessageError::MissingConversationId,
            ),
            conversation_id@.len() > 0 && system_message_type@.len() == 0 ==> r == Err::<Message, SystemMessageError>(
                SystemMessageError::MissingSystemMessageType,
            ),
            conversation_id@.len() > 0 && system_message_type@.len() > 0 ==> (r matches Ok(m) && m == (Message {
                conversation_id: m.conversation_id,
                extra: m.extra,
                ..message
            }) && m.conversation_id@ == (if message.conversation_id@.len() == 0 {
                conversation_id@
            } else {
                message.conversation_id@
            }) && forall|k: Seq<char>|
                #![trigger m.extra.get_spec(k)]
                (k != tags_key@ ==> m.extra.get_spec(k) == (if k == "x-tenant-id"@ && tenant_id is Some {
                    Some(tenant_id.unwrap()@)
                } else if k == sync_key@ {
                    Some("false"@)
                } else if k == "sender_type"@ {
                    Some("system"@)
                } else if k == "system_message_type"@ {
                    Some(system_message_type@)
                } else {
                    message.extra.get_spec(k)
                })) && (if tags_key@ == "x-tenant-id"@ && tenant_id is Some {
                m.extra.get_spec(tags_key@) == Some(tenant_id.unwrap()@)
            } else {
                exists|order: Seq<(Seq<char>, Seq<char>)>|
                    same_entries(order, system_tag_entries(system_message_type@)) && m.extra.get_spec(tags_key@)
                        == Some(json_object_text(order))
            })),
    {
        if conversation_id.is_empty() {
            return Err(SystemMessageError::MissingConversationId);
        }
        if system_message_type.is_empty() {
            return Err(SystemMessageError::MissingSystemMessageType);
        }
        let mut message = message;
        message.extra.insert(String::from_str("system_message_type"), String::from_str(system_message_type));
        message.extra.insert(String::from_str("sender_type"), String::from_str("system"));
        message.extra.insert(String::from_str(sync_key), String::from_str("false"));
        let tags = system_tags(system_message_type);
        if let Some(tags_json) = string_map_json(tags) {
            message.extra.insert(String::from_str(tags_key), tags_json);
        }
        if let Some(t) = tenant_id {
            message.extra.insert(String::from_str("x-tenant-id"), String::from_str(t));
        }
        if message.conversation_id.unicode_len() == 0 {
            message.conversation_id = String::from_str(conversation_id);
        }
        Ok(message)
    }
}

} // verus!
