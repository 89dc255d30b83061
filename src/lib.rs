//! Verified core of an interactive pseudo-terminal proxy: terminal mode
//! handling, the byte relay, the session lifecycle and the child command.

pub mod command;
pub mod ecs;
pub mod relay;
pub mod session;
pub mod terminal;
