//! The message and WAL stores an operation reads, in the form they take
//! when no store is configured: nothing is found and every write succeeds.
use vstd::prelude::*;
use crate::operations::StoredMessage;

verus! {

/// One page of a conversation's server ids, newest first.
#[derive(Debug, Clone)]
pub struct ConversationServerIdsPage {
    pub server_ids: Vec<String>,
    pub next_cursor: String,
    pub has_more: bool,
}

impl ConversationServerIdsPage {
    /// The page past the end: no ids, no cursor, nothing more.
    pub fn empty() -> (p: Self)
        ensures
            p.server_ids@.len() == 0,
            p.next_cursor@.len() == 0,
            !p.has_more,
    {
        ConversationServerIdsPage { server_ids: Vec::new(), next_cursor: String::new(), has_more: false }
    }
}

/// The message store used without a storage reader: it knows no message.
#[derive(Debug, Default, Clone, Copy)]
pub struct NoopMessageRepository;

impl NoopMessageRepository {
    /// No message is ever found.
    pub fn find_by_id(&self, message_id: &str) -> (r: Option<StoredMessage>)
        ensures
            r is None,
    {
        None
    }

    /// Saving always succeeds and keeps nothing.
    pub fn save(&self, message: &StoredMessage) -> (r: Result<(), ()>)
        ensures
            r is Ok,
    {
        Ok(())
    }

    /// Every conversation has the empty page.
    pub fn page_server_ids_in_conversation(&self, conversation_id: &str, limit: i32, cursor: Option<&str>) -> (p:
        ConversationServerIdsPage)
        ensures
            p.server_ids@.len() == 0,
            p.next_cursor@.len() == 0,
            !p.has_more,
    {
        ConversationServerIdsPage::empty()
    }
}

/// The WAL used when none is configured: appends succeed, lookups miss.
#[derive(Debug, Default, Clone, Copy)]
pub struct NoopWalRepository;

impl NoopWalRepository {
    /// Appending always succeeds and keeps nothing.
    pub fn append(&self, message_id: &str, tenant_id: &str) -> (r: Result<(), ()>)
        ensures
            r is Ok,
    {
        Ok(())
    }

    /// No message is ever found.
    pub fn find_by_message_id(&self, message_id: &str) -> (r: Option<StoredMessage>)
        ensures
            r is None,
    {
        None
    }

    /// Nothing is ever pending.
    pub fn list_pending(&self, limit: usize) -> (r: Vec<String>)
        ensures
            r@.len() == 0,
    {
        Vec::new()
    }

    /// Removing always succeeds.
    pub fn remove(&self, message_id: &str) -> (r: Result<(), ()>)
        ensures
            r is Ok,
    {
        Ok(())
    }
}

} // verus!
