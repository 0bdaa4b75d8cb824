//! Event-driven ingestion and resumable indexation pipeline for issue trackers.
//!
//! Everything that decides something lives here: lowering webhook payloads into
//! events, the per-event dispatcher, the checkpointed indexation and
//! regeneration jobs, the crawler's paging, the rate-limit governor and the
//! embedding retry policy. Transport, storage and timers are driven by the
//! caller, which feeds the results of each step back in.

pub mod config;
pub mod crawler;
pub mod dispatcher;
pub mod errors;
pub mod events;
pub mod guard;
pub mod jobs;
pub mod middlewares;
pub mod notify;
pub mod ratelimit;
pub mod retry;
pub mod signature;
pub mod store;
pub mod summarization;
pub mod text;
pub mod webhooks;
