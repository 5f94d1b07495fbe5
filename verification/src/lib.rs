//! Scope chains of source declarations and their rendering as a scope path.
//!
//! A scanner that walks a source file line by line reports each declaration it
//! meets as a [`TypeStruct`]: the declaration's kind, its name, the raw tokens
//! that follow the name, and the declaration that encloses it. The chain of
//! enclosing declarations is rendered as one line, outermost scope first, with
//! the scopes of macros left out.

pub mod event;
pub mod kind;
pub mod render;
pub mod scope;
pub mod text;

pub use event::EventType;
pub use kind::Type;
pub use scope::{Segment, TypeStruct};
