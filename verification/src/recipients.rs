//! Recipient resolution for messages and events.
//!
//! Single chats prefer the explicit peer in `channel_id`; otherwise the
//! conversation's members are used, without the sender.  Read receipts are
//! not pushed back to the reader.
use vstd::prelude::*;
use crate::text::{trimmed, trim, chars_of, trim_bounds, string_from_range, str_eq};
use crate::model::{ConversationType, EventType};
use crate::user_sync::{normalized_user_ids, normalized_ids, is_trimmed_id};
use crate::sorted::strictly_sorted;

verus! {

/// The explicit peer of a single chat: the trimmed `channel_id`, unless it
/// is missing, blank, or the sender itself.
pub open spec fn explicit_peer(channel_id: Option<Seq<char>>, sender_id: Seq<char>) -> Option<Seq<char>> {
    match channel_id {
        Some(c) => if trimmed(c).len() > 0 && trimmed(c) != sender_id {
            Some(trimmed(c))
        } else {
            None
        },
        None => None,
    }
}

pub open spec fn opt_view(s: Option<&str>) -> Option<Seq<char>> {
    match s {
        Some(t) => Some(t@),
        None => None,
    }
}

/// The views of a list of strings.
pub open spec fn string_views(s: Seq<String>) -> Seq<Seq<char>> {
    s.map_values(|x: String| x@)
}

/// Single-chat recipients taken from the member list: trimmed, non-empty,
/// not the sender, without duplicates, in increasing order.
pub fn single_chat_recipients_from_members(members: &[String], sender_id: &str) -> (r: Vec<String>)
    ensures
        strictly_sorted(string_views(r@)),
        forall|x: Seq<char>|
            #[trigger] string_views(r@).contains(x) <==> (is_trimmed_id(members@, members@.len() as int, x)
                && x != sender_id@),
{
    let all = normalized_user_ids(members);
    let ghost all_views = string_views(all@);
    assert(all_views == all@.map_values(|s: String| s@));
    let mut r: Vec<String> = Vec::new();
    let mut i: usize = 0;
    while i < all.len()
        invariant
            i <= all@.len(),
            all_views == string_views(all@),
            normalized_ids(members@, all_views),
            string_views(r@) == all_views.subrange(0, i as int).filter(|x: Seq<char>| x != sender_id@),
        decreases all@.len() - i,
    {
        let ghost prev = r@;
        if !str_eq(all[i].as_str(), sender_id) {
            r.push(all[i].clone());
        }
        proof {
            reveal(Seq::filter);
            let s1 = all_views.subrange(0, i + 1);
            assert(s1.drop_last() =~= all_views.subrange(0, i as int));
            assert(all_views[i as int] == all@[i as int]@);
            assert(s1.last() == all@[i as int]@);
            if all@[i as int]@ != sender_id@ {
                assert(string_views(r@) =~= string_views(prev).push(all@[i as int]@));
            } else {
                assert(r@ == prev);
            }
        }
        i = i + 1;
    }
    proof {
        let f = |x: Seq<char>| x != sender_id@;
        assert(all_views.subrange(0, all_views.len() as int) =~= all_views);
        lemma_filter_sorted(all_views, f);
        assert forall|x: Seq<char>| #[trigger] string_views(r@).contains(x) <==> (is_trimmed_id(members@, members@.len() as int, x) && x != sender_id@) by {
            lemma_filter_contains(all_views, f, x);
        }
    }
    r
}

proof fn lemma_filter_contains(s: Seq<Seq<char>>, f: spec_fn(Seq<char>) -> bool, x: Seq<char>)
    ensures
        s.filter(f).contains(x) <==> (s.contains(x) && f(x)),
    decreases s.len(),
{
    reveal(Seq::filter);
    if s.len() > 0 {
        lemma_filter_contains(s.drop_last(), f, x);
        if s.drop_last().contains(x) {
            let j = choose|j: int| 0 <= j < s.drop_last().len() && s.drop_last()[j] == x;
            assert(s[j] == x);
        }
        if s.contains(x) {
            let j = choose|j: int| 0 <= j < s.len() && s[j] == x;
            if j < s.len() - 1 {
                assert(s.drop_last()[j] == x);
            }
        }
        let p = s.drop_last().filter(f);
        if f(s.last()) {
            assert(s.filter(f) == p.push(s.last()));
            if p.push(s.last()).contains(x) {
                let j = choose|j: int| 0 <= j < p.push(s.last()).len() && p.push(s.last())[j] == x;
                if j < p.len() {
                    assert(p[j] == x);
                }
            }
            if p.contains(x) {
                let j = choose|j: int| 0 <= j < p.len() && p[j] == x;
                assert(p.push(s.last())[j] == x);
            }
            if x == s.last() {
                assert(p.push(s.last())[p.len() as int] == x);
            }
        }
    }
}

proof fn lemma_filter_sorted(s: Seq<Seq<char>>, f: spec_fn(Seq<char>) -> bool)
    requires
        strictly_sorted(s),
    ensures
        strictly_sorted(s.filter(f)),
        forall|i: int| 0 <= i < s.filter(f).len() ==> s.contains(#[trigger] s.filter(f)[i]),
    decreases s.len(),
{
    reveal(Seq::filter);
    if s.len() > 0 {
        let d = s.drop_last();
        assert(strictly_sorted(d)) by {
            assert forall|a: int, b: int| 0 <= a < b < d.len() implies crate::text::seq_lt(#[trigger] d[a], #[trigger] d[b]) by {
                assert(d[a] == s[a] && d[b] == s[b]);
            }
        }
        lemma_filter_sorted(d, f);
        let p = d.filter(f);
        assert forall|i: int| 0 <= i < p.len() implies s.contains(#[trigger] p[i]) by {
            let j = choose|j: int| 0 <= j < d.len() && d[j] == p[i];
            assert(s[j] == p[i]);
        }
        if f(s.last()) {
            let t = p.push(s.last());
            assert(s.filter(f) == t);
            assert forall|a: int, b: int| 0 <= a < b < t.len() implies crate::text::seq_lt(#[trigger] t[a], #[trigger] t[b]) by {
                if b == p.len() {
                    let j = choose|j: int| 0 <= j < d.len() && d[j] == p[a];
                    assert(s[j] == t[a]);
                    assert(t[b] == s[s.len() - 1]);
                } else {
                    assert(t[a] == p[a] && t[b] == p[b]);
                }
            }
            assert forall|i: int| 0 <= i < t.len() implies s.contains(#[trigger] t[i]) by {
                if i == p.len() {
                    assert(s[s.len() - 1] == t[i]);
                } else {
                    assert(t[i] == p[i]);
                }
            }
        }
    }
}

/// `s` without the entries equal to `x`, in order.
pub open spec fn without(s: Seq<String>, x: Seq<char>) -> Seq<Seq<char>> {
    string_views(s).filter(|y: Seq<char>| y != x)
}

/// Group and channel recipients: the members other than the sender, in
/// member order.
pub fn members_without_sender(members: &[String], sender_id: &str) -> (r: Vec<String>)
    ensures
        string_views(r@) == without(members@, sender_id@),
{
    let mut r: Vec<String> = Vec::new();
    let mut i: usize = 0;
    while i < members.len()
        invariant
            i <= members@.len(),
            string_views(r@) == without(members@.subrange(0, i as int), sender_id@),
        decreases members@.len() - i,
    {
        if !str_eq(members[i].as_str(), sender_id) {
            r.push(members[i].clone());
        }
        proof {
            let f = |y: Seq<char>| y != sender_id@;
            reveal(Seq::filter);
            assert(string_views(members@.subrange(0, i + 1)).drop_last() =~= string_views(members@.subrange(0, i as int)));
            assert(string_views(members@.subrange(0, i + 1)).last() == members@[i as int]@);
            assert(string_views(r@) =~= without(members@.subrange(0, i + 1), sender_id@));
        }
        i = i + 1;
    }
    assert(members@.subrange(0, i as int) =~= members@);
    r
}

/// The recipients of a message once the member list is known: single chats
/// use the normalised members other than the sender; other conversations
/// use every member other than the sender.
pub fn message_recipients_from_members(
    conversation_type: ConversationType,
    members: &[String],
    sender_id: &str,
) -> (r: Vec<String>)
    ensures
        conversation_type == ConversationType::Single ==> strictly_sorted(string_views(r@))
            && forall|x: Seq<char>|
            #[trigger] string_views(r@).contains(x) <==> (is_trimmed_id(members@, members@.len() as int, x)
                && x != sender_id@),
        conversation_type != ConversationType::Single ==> string_views(r@) == without(members@, sender_id@),
{
    match conversation_type {
        ConversationType::Single => single_chat_recipients_from_members(members, sender_id),
        _ => members_without_sender(members, sender_id),
    }
}

/// Event recipients: the conversation members, except that a read receipt
/// is not delivered to the reader.
pub fn event_recipients(event_type: Option<EventType>, reader_id: Option<&str>, members: &[String]) -> (r: Vec<String>)
    ensures
        match (event_type, reader_id) {
            (Some(EventType::ReadReceipt), Some(reader)) => string_views(r@) == without(members@, reader@),
            _ => r@ == members@,
        },
{
    match (event_type, reader_id) {
        (Some(EventType::ReadReceipt), Some(reader)) => members_without_sender(members, reader),
        _ => {
            let mut r: Vec<String> = Vec::new();
            let mut i: usize = 0;
            while i < members.len()
                invariant
                    i <= members@.len(),
                    r@ == members@.subrange(0, i as int),
                decreases members@.len() - i,
            {
                r.push(members[i].clone());
                assert(members@.subrange(0, i + 1) =~= members@.subrange(0, i as int).push(members@[i as int]));
                i = i + 1;
            }
            assert(members@.subrange(0, i as int) =~= members@);
            r
        },
    }
}

/// The first recipient that, trimmed, is non-empty and not the (trimmed) sender.
pub open spec fn first_peer(recipients: Seq<String>, sender: Seq<char>) -> Option<Seq<char>>
    decreases recipients.len(),
{
    if recipients.len() == 0 {
        None
    } else if trimmed(recipients[0]@).len() > 0 && trimmed(recipients[0]@) != sender {
        Some(trimmed(recipients[0]@))
    } else {
        first_peer(recipients.drop_first(), sender)
    }
}

/// The channel id a single-chat message is stored and pushed with: the
/// first resolved peer when it differs from the message's trimmed
/// `channel_id`; otherwise the message keeps its `channel_id`.
pub open spec fn routed_channel_id(
    conversation_type: ConversationType,
    channel_id: Seq<char>,
    sender_id: Seq<char>,
    recipients: Seq<String>,
) -> Seq<char> {
    if conversation_type != ConversationType::Single {
        channel_id
    } else {
        match first_peer(recipients, trimmed(sender_id)) {
            Some(peer) => if trimmed(channel_id) != peer {
                peer
            } else {
                channel_id
            },
            None => channel_id,
        }
    }
}

/// Normalises the `channel_id` of a single-chat message to its resolved peer.
pub fn normalize_single_chat_channel(
    conversation_type: ConversationType,
    channel_id: &str,
    sender_id: &str,
    recipients: &[String],
) -> (r: String)
    ensures
        r@ == routed_channel_id(conversation_type, channel_id@, sender_id@, recipients@),
{
    if conversation_type != ConversationType::Single {
        return String::from_str(channel_id);
    }
    let sender = trim(sender_id);
    let mut i: usize = 0;
    assert(recipients@.subrange(0, recipients@.len() as int) =~= recipients@);
    while i < recipients.len()
        invariant
            i <= recipients@.len(),
            sender@ == trimmed(sender_id@),
            conversation_type == ConversationType::Single,
            first_peer(recipients@, sender@) == first_peer(recipients@.subrange(i as int, recipients@.len() as int), sender@),
        decreases recipients@.len() - i,
    {
        let ghost rest = recipients@.subrange(i as int, recipients@.len() as int);
        assert(rest[0] == recipients@[i as int]);
        let t = trim(recipients[i].as_str());
        if t.unicode_len() > 0 && !str_eq(t.as_str(), sender.as_str()) {
            assert(first_peer(rest, sender@) == Some(t@));
            let current = trim(channel_id);
            if !str_eq(current.as_str(), t.as_str()) {
                assert(conversation_type == ConversationType::Single);
                assert(first_peer(recipients@, trimmed(sender_id@)) == Some(t@));
                assert(trimmed(channel_id@) != t@);
                return t;
            } else {
                return String::from_str(channel_id);
            }
        }
        assert(rest.drop_first() =~= recipients@.subrange(i + 1, recipients@.len() as int));
        i = i + 1;
    }
    String::from_str(channel_id)
}

/// Resolves who receives a message or an event.  The conversation members
/// it falls back on are fetched by the caller and handed in.
#[derive(Debug, Clone, Copy)]
pub struct RecipientRepositoryImpl;

impl RecipientRepositoryImpl {
    pub fn new() -> Self {
        RecipientRepositoryImpl
    }

    /// The single-chat recipient named by `channel_id`, if it names someone
    /// other than the sender.
    pub fn explicit_single_chat_recipient(channel_id: Option<&str>, sender_id: &str) -> (r: Option<String>)
        ensures
            match r {
                Some(s) => explicit_peer(opt_view(channel_id), sender_id@) == Some(s@),
                None => explicit_peer(opt_view(channel_id), sender_id@) is None,
            },
    {
        match channel_id {
            Some(c) => {
                let t = trim(c);
                if t.unicode_len() > 0 && !str_eq(t.as_str(), sender_id) {
                    Some(t)
                } else {
                    None
                }
            },
            None => None,
        }
    }

    /// The recipients of a message once the member list is known (see
    /// `message_recipients_from_members`).
    pub fn message_recipients(
        &self,
        conversation_type: ConversationType,
        members: &[String],
        sender_id: &str,
    ) -> (r: Vec<String>)
        ensures
            conversation_type == ConversationType::Single ==> strictly_sorted(string_views(r@))
                && forall|x: Seq<char>|
                #[trigger] string_views(r@).contains(x) <==> (is_trimmed_id(members@, members@.len() as int, x)
                    && x != sender_id@),
            conversation_type != ConversationType::Single ==> string_views(r@) == without(members@, sender_id@),
    {
        message_recipients_from_members(conversation_type, members, sender_id)
    }
}

/// Recipients an event's payload names by itself, sparing the member
/// lookup: none (a read receipt is delivered to the members, not to its
/// reader).
pub fn resolve_recipients_from_event_payload(event: &crate::model::Event) -> (r: Option<Vec<String>>)
    ensures
        r is None,
{
    None
}

} // verus!
