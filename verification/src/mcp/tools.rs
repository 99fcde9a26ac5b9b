//! The arguments of each request the MCP server answers, one struct per
//! tool, as the request's JSON object carries them.
use vstd::prelude::*;

verus! {

/// Arguments of `clotho_archive_entity`: archive an entity by setting its status to inactive.
#[derive(Debug, Clone)]
pub struct ArchiveEntityTool {
    /// Entity ID (full UUID or prefix)
    pub entity_id: String,
}

/// A single relation spec within a batch.
#[derive(Debug, Clone)]
pub struct RelationSpec {
    /// Source entity ID (full UUID or prefix)
    pub source_id: String,
    /// Relation type (belongs_to, relates_to, delivers, spawned_from, extracted_from, has_decision, has_risk, blocked_by, mentions, has_cadence, has_deadline, has_schedule)
    pub relation_type: String,
    /// Target entity ID (full UUID or prefix)
    pub target_id: String,
}

/// Arguments of `clotho_batch_create_relations`: create several relations, all validated before any is created.
#[derive(Debug, Clone)]
pub struct BatchCreateRelationsTool {
    /// Array of relations to create
    pub relations: Vec<RelationSpec>,
}

/// Arguments of `clotho_capture_directory`: capture the matching files of a directory.
#[derive(Debug, Clone)]
pub struct CaptureDirectoryTool {
    /// Directory path to scan
    pub path: String,
    /// Glob pattern to match files (e.g., "*.md", "*.txt"). Default: "*.md"
    pub pattern: Option<String>,
    /// Entity type for all captured files: note, meeting, transcript, artifact (default: note)
    pub entity_type: Option<String>,
}

/// Arguments of `clotho_create_entity`: create an entity of any type.
#[derive(Debug, Clone)]
pub struct CreateEntityTool {
    /// Path to the directory containing .workspace/
    pub workspace_path: String,
    /// Entity type (program, responsibility, objective, workstream, task, meeting, transcript, note, reflection, artifact, decision, risk, blocker, question, insight, person)
    pub entity_type: String,
    /// Title of the entity
    pub title: String,
    /// Status (active, inactive). Defaults based on type.
    pub status: Option<String>,
    /// Task state (todo, doing, blocked, done). Only for Task.
    pub state: Option<String>,
    /// Email (only for Person)
    pub email: Option<String>,
    /// Parent entity ID. Creates a BELONGS_TO relation.
    pub parent_id: Option<String>,
    /// Inline markdown content
    pub content: Option<String>,
}

/// Arguments of `clotho_create_note`: create a note, optionally under a parent.
#[derive(Debug, Clone)]
pub struct CreateNoteTool {
    /// Title of the note
    pub title: String,
    /// Markdown content of the note
    pub content: String,
    /// Optional parent entity ID (full UUID or prefix) — auto-creates a belongs_to relation
    pub parent_id: Option<String>,
}

/// Arguments of `clotho_create_reflection`: create a reflection from a period template.
#[derive(Debug, Clone)]
pub struct CreateReflectionTool {
    /// Path to the directory containing .clotho/
    pub workspace_path: String,
    /// Period type: daily, weekly, monthly, quarterly, adhoc
    pub period: String,
    /// Optional title (defaults to period-based name)
    pub title: Option<String>,
    /// Optional program ID to scope the reflection to
    pub program_id: Option<String>,
}

/// Arguments of `clotho_create_relation`: create one typed relation.
#[derive(Debug, Clone)]
pub struct CreateRelationTool {
    /// Path to the directory containing .clotho/
    pub workspace_path: String,
    /// Source entity ID (UUID)
    pub source_id: String,
    /// Relation type (belongs_to, relates_to, delivers, spawned_from, extracted_from, has_decision, has_risk, blocked_by, mentions, has_cadence, has_deadline, has_schedule)
    pub relation_type: String,
    /// Target entity ID (UUID)
    pub target_id: String,
}

/// Arguments of `clotho_delete_entity`: delete an entity from every backend.
#[derive(Debug, Clone)]
pub struct DeleteEntityTool {
    /// Entity ID (UUID)
    pub entity_id: String,
}

/// Arguments of `clotho_delete_relation`: remove one typed relation.
#[derive(Debug, Clone)]
pub struct DeleteRelationTool {
    /// Source entity ID (full UUID or prefix)
    pub source_id: String,
    /// Relation type
    pub relation_type: String,
    /// Target entity ID (full UUID or prefix)
    pub target_id: String,
}

/// Arguments of `clotho_get_relations`: list the relations of an entity.
#[derive(Debug, Clone)]
pub struct GetRelationsTool {
    /// Entity ID (full UUID or prefix)
    pub entity_id: String,
}

/// Arguments of `clotho_ingest`: ingest a file as content.
#[derive(Debug, Clone)]
pub struct IngestTool {
    /// Path to the directory containing .workspace/
    pub workspace_path: String,
    /// Path to the file to ingest
    pub file_path: String,
    /// Entity type: note, meeting, transcript, artifact (default: note)
    pub entity_type: Option<String>,
    /// Title for the entity (defaults to filename)
    pub title: Option<String>,
}

/// Arguments of `clotho_init`: initialise a workspace.
#[derive(Debug, Clone)]
pub struct InitTool {
    /// Path to the directory where .clotho/ will be created
    pub path: String,
}

/// Arguments of `clotho_list_entities`: list entities with optional filters.
#[derive(Debug, Clone)]
pub struct ListEntitiesTool {
    /// Filter by entity type (e.g., Task, Program, Note)
    pub entity_type: Option<String>,
    /// Filter by status (active, inactive)
    pub status: Option<String>,
    /// Filter by task state (todo, doing, blocked, done)
    pub state: Option<String>,
}

/// Arguments of `clotho_list_surfaces`: list surfaces with optional filters.
#[derive(Debug, Clone)]
pub struct ListSurfacesTool {
    /// Filter by status: "active" or "closed". Defaults to "active" if not specified.
    pub status: Option<String>,
    /// Filter by surface type: briefing, meeting-notes, checklist, freeform
    pub surface_type: Option<String>,
    /// Search keyword — filters surfaces whose title or content contains this text
    pub search: Option<String>,
}

/// Arguments of `clotho_list_unprocessed`: list what awaits extraction.
#[derive(Debug, Clone)]
pub struct ListUnprocessedTool {
    /// Filter by entity type: transcript, note, or both (default: both)
    pub entity_type: Option<String>,
}

/// Arguments of `clotho_get_ontology`: show the ontology of an entity.
#[derive(Debug, Clone)]
pub struct GetOntologyTool {
    /// Path to the directory containing .clotho/
    pub workspace_path: String,
    /// Entity ID (Program or Responsibility UUID)
    pub entity_id: String,
}

/// Arguments of `clotho_update_ontology`: add or remove ontology entries.
#[derive(Debug, Clone)]
pub struct UpdateOntologyTool {
    /// Path to the directory containing .clotho/
    pub workspace_path: String,
    /// Entity ID (Program or Responsibility UUID)
    pub entity_id: String,
    /// Keywords to add (comma-separated)
    pub add_keywords: Option<String>,
    /// Keywords to remove (comma-separated)
    pub remove_keywords: Option<String>,
    /// Technical signal types to add (comma-separated)
    pub add_technical_signals: Option<String>,
    /// Social signal types to add (comma-separated)
    pub add_social_signals: Option<String>,
    /// People to add (comma-separated)
    pub add_people: Option<String>,
    /// People to remove (comma-separated)
    pub remove_people: Option<String>,
    /// Who is making this change: "user" or "agent"
    pub added_by: Option<String>,
}

/// Arguments of `clotho_search_ontology`: search all ontologies.
#[derive(Debug, Clone)]
pub struct SearchOntologyTool {
    /// Path to the directory containing .clotho/
    pub workspace_path: String,
    /// Search term
    pub query: String,
}

/// Arguments of `clotho_check_processed`: show the processing history of an entity.
#[derive(Debug, Clone)]
pub struct CheckProcessedTool {
    /// Entity ID to check
    pub entity_id: String,
    /// Process name to filter by (optional — returns all if omitted)
    pub process_name: Option<String>,
}

/// Arguments of `clotho_mark_processed`: record a processing run.
#[derive(Debug, Clone)]
pub struct MarkProcessedTool {
    /// Entity ID that was processed
    pub entity_id: String,
    /// Process name (e.g., "extraction", "summarization")
    pub process_name: String,
    /// Ontology IDs used (comma-separated, optional)
    pub ontology_ids: Option<String>,
    /// Who ran the process (e.g., "debrief-processor", "user")
    pub processed_by: Option<String>,
    /// Entity IDs created as output (comma-separated, optional)
    pub output_entity_ids: Option<String>,
    /// Freeform notes
    pub notes: Option<String>,
}

/// Arguments of `clotho_push_surface`: push a surface to the dashboard.
#[derive(Debug, Clone)]
pub struct PushSurfaceTool {
    /// Title of the surface (becomes the tab name in the TUI)
    pub title: String,
    /// Text content (markdown). User can edit this in the TUI.
    pub content: String,
    /// Optional surface type hint: briefing, meeting-notes, checklist, freeform
    pub surface_type: Option<String>,
    /// If true, replaces an existing active surface with the same title instead of creating a new one
    pub replace: bool,
}

/// Arguments of `clotho_query`: run a graph query.
#[derive(Debug, Clone)]
pub struct QueryTool {
    /// Cypher query to execute
    pub cypher: String,
}

/// Arguments of `clotho_read_entity`: read an entity.
#[derive(Debug, Clone)]
pub struct ReadEntityTool {
    /// Entity ID (full UUID or prefix)
    pub entity_id: String,
    /// Include outgoing and incoming relations in the response
    pub include_relations: Option<bool>,
}

/// Arguments of `clotho_read_surface`: read a surface by ID or title.
#[derive(Debug, Clone)]
pub struct ReadSurfaceTool {
    /// Surface ID (full UUID) or exact title to look up
    pub id_or_title: String,
}

/// Arguments of `clotho_search`: full-text search.
#[derive(Debug, Clone)]
pub struct SearchTool {
    /// Search query (FTS5 keywords)
    pub query: String,
    /// Maximum number of results (default 10)
    pub limit: Option<u32>,
}

/// Arguments of `clotho_set_workspace`: set the session workspace.
#[derive(Debug, Clone)]
pub struct SetWorkspaceTool {
    /// Path to the directory containing .clotho/
    pub path: String,
}

/// Arguments of `clotho_sync`: sync the workspace to git.
#[derive(Debug, Clone)]
pub struct SyncTool {
    /// Path to the directory containing .workspace/
    pub workspace_path: String,
    /// Prune history after sync (keep last N commits, default 20)
    pub prune: Option<bool>,
    /// Number of commits to keep when pruning
    pub keep: Option<u32>,
}

/// Arguments of `clotho_update_entity`: update an entity's fields.
#[derive(Debug, Clone)]
pub struct UpdateEntityTool {
    /// Entity ID (full UUID or prefix)
    pub entity_id: String,
    /// New title
    pub title: Option<String>,
    /// New status (active, inactive)
    pub status: Option<String>,
    /// New task state (todo, doing, blocked, done)
    pub state: Option<String>,
    /// New markdown content (replaces the entity's content file)
    pub content: Option<String>,
    /// Email address (for Person entities)
    pub email: Option<String>,
    /// URL (for Reference and Artifact entities)
    pub url: Option<String>,
}

/// Arguments of `clotho_workspace_summary` (none).
#[derive(Debug, Clone)]
pub struct WorkspaceSummaryTool {}

} // verus!
