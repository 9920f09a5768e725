//! A rule-based command interpretation engine for a terminal file assistant.
//!
//! The library classifies a free-form user utterance into an intent,
//! extracts filenames and search queries from the raw text, decides which
//! filesystem operation (if any) to request, renders the conversational
//! reply, and keeps the append-only conversation transcript.  Filesystem
//! access and terminal rendering are left to the host program, which feeds
//! plain values (key events, operation outcomes) back into the engine.

use vstd::prelude::*;

pub mod ai;
pub mod app;
pub mod conversation;
pub mod dispatch;
pub mod extract;
pub mod intent;
pub mod text;
pub mod ui;
