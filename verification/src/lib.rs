//! Decision and data logic of the message orchestrator: operation
//! classification, validation, recipient resolution, user-sync indexing,
//! call-signal notices and the main-queue payload framing.
use vstd::prelude::*;

pub mod text;
pub mod field_map;
pub mod sorted;
pub mod user_sync;
pub mod model;
pub mod classify;
pub mod recipients;
pub mod main_payload;
pub mod validation;
pub mod call_notice;
pub mod fanout;
pub mod clock;
pub mod event_route;
pub mod call_enrichment;
pub mod operations;
pub mod hook;
pub mod conversation_ensure;
pub mod publish;
pub mod publication;
pub mod send;
pub mod repository;

