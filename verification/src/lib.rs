//! Goal tracking and exercise progression engine for a modal-editor tutorial.
//!
//! The library compiles declarative goal descriptions into typed goals,
//! decides whether a sampled editor state satisfies a goal, and drives an
//! exercise through its goals to completion.  All I/O (terminal panes,
//! editor processes, content files) lives outside the library; callers hand
//! in plain values and drive the polling loop themselves.

pub mod content;
pub mod continuous_content;
pub mod continuous_session;
pub mod game;
pub mod status;
pub mod strutil;
pub mod vim_rpc;
pub mod vim_state;
