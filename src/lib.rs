//! A dead-man's-switch safety check-in: a per-user session record and the
//! state machine that decides which operations may move it, when, and by whom.

pub mod session;
pub mod machine;
pub mod program;
pub mod laws;
pub mod store;
