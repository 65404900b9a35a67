//! Tracks what coding sessions and proxied requests use: the tokens, messages
//! and tools that session logs tell of, and the usage events of a proxy.
//!
//! Everything here computes on plain values. Where the storage or the file
//! system has to do something, a function gives back what to ask for, and
//! another one goes on with the answer.

pub mod app;
pub mod batch;
pub mod event_laws;
pub mod ingest;
pub mod json;
pub mod laws;
pub mod lines;
pub mod messages;
pub mod notes;
pub mod path;
pub mod progress;
pub mod proxy;
pub mod scan;
pub mod scan_laws;
pub mod search;
pub mod session;
pub mod snippet;
pub mod state;
pub mod storage;
pub mod text;
pub mod time;
pub mod tokens;
pub mod tui;
pub mod turns;
pub mod usage;
pub mod view_laws;
