//! Clotho: a personal work-management workspace. Entities (programs,
//! tasks, notes, ...) live in a workspace directory; this library holds the
//! rules that decide what is stored where, how text is edited and shown,
//! and how requests are answered.
pub mod ids;
pub mod mcp;
pub mod path;
pub mod store;
pub mod sync;
pub mod text;
pub mod tui;
