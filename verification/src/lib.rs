//! A change-notification dispatcher: producers report entity insertions,
//! replacements and deletions; one consumer observes them in submission
//! order through a callback capability, one event at a time. A dual-mode
//! logger carries the diagnostics: into an attached reader stream if one
//! was ever attached, to the console otherwise.

pub mod channel;
pub mod console;
pub mod dispatcher;
pub mod logger;
pub mod text;
