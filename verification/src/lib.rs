//! A simulator of a Post machine: a compiler from line-numbered program text
//! to a validated instruction sequence, and an engine that interprets the
//! instructions against a sparse, unbounded binary tape.

pub mod command;
pub mod compiler;
pub mod engine;
pub mod error;
pub mod machine;
pub mod message;
pub mod render;
pub mod session;
pub mod tape;
pub mod text;
