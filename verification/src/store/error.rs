//! Errors of the workspace storage layer, with the messages they display.
use vstd::prelude::*;

use crate::text::push_str;

verus! {

/// A storage error. Errors that come from the file system, SQLite, JSON or
/// TOML carry the text of the underlying error.
#[derive(Debug)]
pub enum StoreError {
    WorkspaceNotFound(String),
    WorkspaceAlreadyExists(String),
    InvalidWorkspace(String),
    Io(String),
    Sqlite(String),
    Json(String),
    TomlSerialize(String),
    TomlDeserialize(String),
    EntityNotFound(String),
    ContentNotFound(String),
    SearchError(String),
    FederationError(String),
}

/// The message an error displays.
pub open spec fn error_message(e: StoreError) -> Seq<char> {
    match e {
        StoreError::WorkspaceNotFound(s) => "workspace not found at "@ + s@,
        StoreError::WorkspaceAlreadyExists(s) => "workspace already exists at "@ + s@,
        StoreError::InvalidWorkspace(s) => "invalid workspace structure: "@ + s@,
        StoreError::Io(s) => "I/O error: "@ + s@,
        StoreError::Sqlite(s) => "SQLite error: "@ + s@,
        StoreError::Json(s) => "JSON error: "@ + s@,
        StoreError::TomlSerialize(s) => "TOML serialization error: "@ + s@,
        StoreError::TomlDeserialize(s) => "TOML deserialization error: "@ + s@,
        StoreError::EntityNotFound(s) => "entity not found: "@ + s@,
        StoreError::ContentNotFound(s) => "content not found for "@ + s@,
        StoreError::SearchError(s) => "search error: "@ + s@,
        StoreError::FederationError(s) => "federation error: "@ + s@,
    }
}

/// `prefix` followed by `s`.
fn prefixed(prefix: &str, s: &String) -> (r: String)
    ensures
        r@ == prefix@ + s@,
{
    let mut r = prefix.to_owned();
    push_str(&mut r, s.as_str());
    r
}

impl StoreError {
    /// The message this error displays.
    pub fn message(&self) -> (r: String)
        ensures
            r@ == error_message(*self),
    {
        match self {
            StoreError::WorkspaceNotFound(s) => prefixed("workspace not found at ", s),
            StoreError::WorkspaceAlreadyExists(s) => prefixed("workspace already exists at ", s),
            StoreError::InvalidWorkspace(s) => prefixed("invalid workspace structure: ", s),
            StoreError::Io(s) => prefixed("I/O error: ", s),
            StoreError::Sqlite(s) => prefixed("SQLite error: ", s),
            StoreError::Json(s) => prefixed("JSON error: ", s),
            StoreError::TomlSerialize(s) => prefixed("TOML serialization error: ", s),
            StoreError::TomlDeserialize(s) => prefixed("TOML deserialization error: ", s),
            StoreError::EntityNotFound(s) => prefixed("entity not found: ", s),
            StoreError::ContentNotFound(s) => prefixed("content not found for ", s),
            StoreError::SearchError(s) => prefixed("search error: ", s),
            StoreError::FederationError(s) => prefixed("federation error: ", s),
        }
    }
}

} // verus!
