//! A generic contract layer for querying remote game servers over pluggable
//! network protocols.
//!
//! The crate fixes the shapes and the lifecycle that concrete protocol
//! implementations must honor: a categorized error model, `Query` and
//! `Response` construction capabilities, a `Parser` that converts between
//! typed values and wire bytes, a stateful `Protocol` connection abstraction,
//! and a top-level `Game` binder whose `fetch` operation runs the
//! connect, send, receive, disconnect lifecycle. It performs no I/O itself.

pub mod cursor;
pub mod error;
pub mod game;
pub mod lifecycle;
pub mod parser;
pub mod protocol;
pub mod query;
pub mod response;
