//! The chat widget of a terminal interface to a coding agent, and its channel to an editor.
//!
//! The widget decides what is done with the agent's events, the user's keys and messages, and the
//! editor's selection. It does nothing itself: it answers with effects, which are performed in
//! their order, and it takes what it needs to know from outside as arguments. `transition` says
//! what the widget does, and `chatwidget` does it. `event_laws` and `channel_laws` say what comes
//! out for what goes in, operation by operation, and `laws` holds what follows for whole runs.
pub mod app_event;
pub mod channel_laws;
pub mod chatwidget;
pub mod context;
pub mod effect;
pub mod event_laws;
pub mod install;
pub mod ipc;
pub mod json;
pub mod laws;
pub mod layout;
pub mod patch;
pub mod payload;
pub mod protocol;
pub mod selection;
pub mod text;
pub mod transition;
pub mod user_message;
