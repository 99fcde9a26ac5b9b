//! The MCP server's logic: request routing, the session workspace, and the
//! texts that tools answer with.
pub mod batch;
pub mod capture;
pub mod create;
pub mod formatting;
pub mod ontology_tools;
pub mod read_entity;
pub mod replies;
pub mod resolve;
pub mod server;
pub mod summary;
pub mod tool_lookup;
pub mod tool_names;
pub mod tools;
pub mod workspace_resolver;
