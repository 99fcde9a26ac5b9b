//! Workspace storage: entity rows, content layout, tags and events,
//! ontologies, processing records, surfaces, and their errors.
pub mod content;
pub mod coordinated;
pub mod entities;
pub mod error;
pub mod extractions;
pub mod federation;
pub mod jsonl;
pub mod ontology;
pub mod processing;
pub mod surfaces;
pub mod types;
pub mod workspace;
