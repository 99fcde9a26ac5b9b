//! The tools of the MCP server and the names they are called by.
use vstd::prelude::*;


verus! {

/// The tools of the server, by name.
#[derive(Debug, Clone, Copy, PartialEq, Eq, Structural)]
pub enum ToolKind {
    ArchiveEntity,
    BatchCreateRelations,
    Capture,
    CaptureDirectory,
    CheckProcessed,
    CreateEntity,
    CreateNote,
    CreateReflection,
    CreateRelation,
    DeleteEntity,
    DeleteRelation,
    GetOntology,
    GetRelations,
    Ingest,
    Init,
    ListEntities,
    ListSurfaces,
    ListUnprocessed,
    MarkProcessed,
    PushSurface,
    Query,
    ReadEntity,
    ReadSurface,
    Search,
    SearchOntology,
    SetWorkspace,
    Sync,
    UpdateEntity,
    UpdateOntology,
    WorkspaceSummary,
}

/// The name a tool is listed and called under: `clotho_` and the tool's
/// own word.
pub open spec fn tool_name(k: ToolKind) -> Seq<char> {
    "clotho_"@ + tool_word(k)
}

/// The word that names a tool after the `clotho_` prefix.
pub open spec fn tool_word(k: ToolKind) -> Seq<char> {
    match k {
        ToolKind::ArchiveEntity => "archive_entity"@,
        ToolKind::BatchCreateRelations => "batch_create_relations"@,
        ToolKind::Capture => "capture"@,
        ToolKind::CaptureDirectory => "capture_directory"@,
        ToolKind::CheckProcessed => "check_processed"@,
        ToolKind::CreateEntity => "create_entity"@,
        ToolKind::CreateNote => "create_note"@,
        ToolKind::CreateReflection => "create_reflection"@,
        ToolKind::CreateRelation => "create_relation"@,
        ToolKind::DeleteEntity => "delete_entity"@,
        ToolKind::DeleteRelation => "delete_relation"@,
        ToolKind::GetOntology => "get_ontology"@,
        ToolKind::GetRelations => "get_relations"@,
        ToolKind::Ingest => "ingest"@,
        ToolKind::Init => "init"@,
        ToolKind::ListEntities => "list_entities"@,
        ToolKind::ListSurfaces => "list_surfaces"@,
        ToolKind::ListUnprocessed => "list_unprocessed"@,
        ToolKind::MarkProcessed => "mark_processed"@,
        ToolKind::PushSurface => "push_surface"@,
        ToolKind::Query => "query"@,
        ToolKind::ReadEntity => "read_entity"@,
        ToolKind::ReadSurface => "read_surface"@,
        ToolKind::Search => "search"@,
        ToolKind::SearchOntology => "search_ontology"@,
        ToolKind::SetWorkspace => "set_workspace"@,
        ToolKind::Sync => "sync"@,
        ToolKind::UpdateEntity => "update_entity"@,
        ToolKind::UpdateOntology => "update_ontology"@,
        ToolKind::WorkspaceSummary => "workspace_summary"@,
    }
}

/// What a tool does, as the server describes it to its clients.
pub open spec fn tool_description(k: ToolKind) -> Seq<char> {
    match k {
        ToolKind::ArchiveEntity => "Archive an entity by setting its status to inactive. Archived entities are hidden from the TUI navigator by default but remain searchable and queryable. Use for completed work, resolved risks, answered questions, etc."@,
        ToolKind::BatchCreateRelations => "Create multiple typed relations (graph edges) in a single call. Accepts an array of {source_id, relation_type, target_id} specs. All inputs are validated before any relations are created. Accepts full UUIDs or prefixes."@,
        ToolKind::Capture => "Capture a single file into the Clotho workspace as an entity, copying its content into the workspace."@,
        ToolKind::CaptureDirectory => "Capture all matching files from a directory into the workspace. Supports glob patterns (e.g., '*.md'). Returns a summary of all captured entities."@,
        ToolKind::CheckProcessed => "Check if an entity has been processed by a specific process. Returns processing history including which ontologies were used and what entities were produced."@,
        ToolKind::CreateEntity => "Create any entity type in the Clotho workspace (program, responsibility, objective, workstream, task, person, etc.)."@,
        ToolKind::CreateNote => "Create a new note entity in the Clotho workspace. Optionally link to a parent entity via belongs_to relation."@,
        ToolKind::CreateReflection => "Create a new reflection entry in the Clotho workspace with a period-based template."@,
        ToolKind::CreateRelation => "Create a typed relation (graph edge) between two entities."@,
        ToolKind::DeleteEntity => "Delete an entity from all backends (entities.db, content, graph, search index)."@,
        ToolKind::DeleteRelation => "Remove a typed relation (graph edge) between two entities. Accepts full UUID or prefix."@,
        ToolKind::GetOntology => "Get the extraction ontology for a program or responsibility. Returns keywords, signal types (technical/social), and involved people that guide transcript extraction."@,
        ToolKind::GetRelations => "List all relations (outgoing and incoming graph edges) for an entity. Accepts full UUID or prefix."@,
        ToolKind::Ingest => "Ingest a file into the Clotho workspace as content (note, meeting, transcript, or artifact)."@,
        ToolKind::Init => "Initialize a new Clotho workspace with the .clotho/ directory structure."@,
        ToolKind::ListEntities => "List entities in the Clotho workspace with optional type, status, or state filters."@,
        ToolKind::ListSurfaces => "List surfaces, optionally filtered by status (active/closed) and type. Supports keyword search across title and content."@,
        ToolKind::ListUnprocessed => "List transcripts and notes that have not yet been extracted. Returns a chronologically ordered queue for the extraction pipeline."@,
        ToolKind::MarkProcessed => "Record that a process was run against an entity. Idempotent — duplicate records are silently ignored. Used by agents after extraction to prevent reprocessing."@,
        ToolKind::PushSurface => "Push a surface (text blob) to the Clotho TUI. Surfaces appear as tabs in the TUI and can be edited by the user. Use for daily briefings, meeting notes, status updates, etc. If replace=true and a surface with the same title exists, its content is updated instead of creating a new one."@,
        ToolKind::Query => "Run a raw Cypher query against the Clotho relation graph."@,
        ToolKind::ReadEntity => "Read an entity's metadata and content by ID (full UUID or prefix). Set include_relations to also fetch graph edges."@,
        ToolKind::ReadSurface => "Read a surface by ID or title. Returns the full content including any user edits made in the TUI. Use this to read back surfaces you previously pushed."@,
        ToolKind::Search => "Full-text keyword search across all entities in the Clotho workspace."@,
        ToolKind::SearchOntology => "Search across all ontologies to find which programs/responsibilities care about a topic."@,
        ToolKind::SetWorkspace => "Set the workspace path for the current session. All subsequent tools will use this path. The server auto-detects on startup, but use this to override or set manually."@,
        ToolKind::Sync => "Sync the Clotho workspace to git (stage, commit, push). Optionally prune history."@,
        ToolKind::UpdateEntity => "Update an entity's fields (title, status, state, content). Accepts full UUID or prefix. Content updates write to the entity's markdown file."@,
        ToolKind::UpdateOntology => "Update the extraction ontology for a program or responsibility. Add or remove keywords, signal types, and involved people. Entries are deduplicated automatically."@,
        ToolKind::WorkspaceSummary => "Get a high-level overview of the workspace: entity counts by type, active/blocked tasks, unprocessed transcripts, and recent activity. Use this instead of multiple list_entities calls."@,
    }
}

/// Every tool has a description: its text is never empty.
pub proof fn law_tools_described(k: ToolKind)
    ensures
        tool_description(k).len() > 0,
{
    match k {
        ToolKind::ArchiveEntity => {
            reveal_strlit("Archive an entity by setting its status to inactive. Archived entities are hidden from the TUI navigator by default but remain searchable and queryable. Use for completed work, resolved risks, answered questions, etc.");
        },
        ToolKind::BatchCreateRelations => {
            reveal_strlit("Create multiple typed relations (graph edges) in a single call. Accepts an array of {source_id, relation_type, target_id} specs. All inputs are validated before any relations are created. Accepts full UUIDs or prefixes.");
        },
        ToolKind::Capture => {
            reveal_strlit("Capture a single file into the Clotho workspace as an entity, copying its content into the workspace.");
        },
        ToolKind::CaptureDirectory => {
            reveal_strlit("Capture all matching files from a directory into the workspace. Supports glob patterns (e.g., '*.md'). Returns a summary of all captured entities.");
        },
        ToolKind::CheckProcessed => {
            reveal_strlit("Check if an entity has been processed by a specific process. Returns processing history including which ontologies were used and what entities were produced.");
        },
        ToolKind::CreateEntity => {
            reveal_strlit("Create any entity type in the Clotho workspace (program, responsibility, objective, workstream, task, person, etc.).");
        },
        ToolKind::CreateNote => {
            reveal_strlit("Create a new note entity in the Clotho workspace. Optionally link to a parent entity via belongs_to relation.");
        },
        ToolKind::CreateReflection => {
            reveal_strlit("Create a new reflection entry in the Clotho workspace with a period-based template.");
        },
        ToolKind::CreateRelation => {
            reveal_strlit("Create a typed relation (graph edge) between two entities.");
        },
        ToolKind::DeleteEntity => {
            reveal_strlit("Delete an entity from all backends (entities.db, content, graph, search index).");
        },
        ToolKind::DeleteRelation => {
            reveal_strlit("Remove a typed relation (graph edge) between two entities. Accepts full UUID or prefix.");
        },
        ToolKind::GetOntology => {
            reveal_strlit("Get the extraction ontology for a program or responsibility. Returns keywords, signal types (technical/social), and involved people that guide transcript extraction.");
        },
        ToolKind::GetRelations => {
            reveal_strlit("List all relations (outgoing and incoming graph edges) for an entity. Accepts full UUID or prefix.");
        },
        ToolKind::Ingest => {
            reveal_strlit("Ingest a file into the Clotho workspace as content (note, meeting, transcript, or artifact).");
        },
        ToolKind::Init => {
            reveal_strlit("Initialize a new Clotho workspace with the .clotho/ directory structure.");
        },
        ToolKind::ListEntities => {
            reveal_strlit("List entities in the Clotho workspace with optional type, status, or state filters.");
        },
        ToolKind::ListSurfaces => {
            reveal_strlit("List surfaces, optionally filtered by status (active/closed) and type. Supports keyword search across title and content.");
        },
        ToolKind::ListUnprocessed => {
            reveal_strlit("List transcripts and notes that have not yet been extracted. Returns a chronologically ordered queue for the extraction pipeline.");
        },
        ToolKind::MarkProcessed => {
            reveal_strlit("Record that a process was run against an entity. Idempotent — duplicate records are silently ignored. Used by agents after extraction to prevent reprocessing.");
        },
        ToolKind::PushSurface => {
            reveal_strlit("Push a surface (text blob) to the Clotho TUI. Surfaces appear as tabs in the TUI and can be edited by the user. Use for daily briefings, meeting notes, status updates, etc. If replace=true and a surface with the same title exists, its content is updated instead of creating a new one.");
        },
        ToolKind::Query => {
            reveal_strlit("Run a raw Cypher query against the Clotho relation graph.");
        },
        ToolKind::ReadEntity => {
            reveal_strlit("Read an entity's metadata and content by ID (full UUID or prefix). Set include_relations to also fetch graph edges.");
        },
        ToolKind::ReadSurface => {
            reveal_strlit("Read a surface by ID or title. Returns the full content including any user edits made in the TUI. Use this to read back surfaces you previously pushed.");
        },
        ToolKind::Search => {
            reveal_strlit("Full-text keyword search across all entities in the Clotho workspace.");
        },
        ToolKind::SearchOntology => {
            reveal_strlit("Search across all ontologies to find which programs/responsibilities care about a topic.");
        },
        ToolKind::SetWorkspace => {
            reveal_strlit("Set the workspace path for the current session. All subsequent tools will use this path. The server auto-detects on startup, but use this to override or set manually.");
        },
        ToolKind::Sync => {
            reveal_strlit("Sync the Clotho workspace to git (stage, commit, push). Optionally prune history.");
        },
        ToolKind::UpdateEntity => {
            reveal_strlit("Update an entity's fields (title, status, state, content). Accepts full UUID or prefix. Content updates write to the entity's markdown file.");
        },
        ToolKind::UpdateOntology => {
            reveal_strlit("Update the extraction ontology for a program or responsibility. Add or remove keywords, signal types, and involved people. Entries are deduplicated automatically.");
        },
        ToolKind::WorkspaceSummary => {
            reveal_strlit("Get a high-level overview of the workspace: entity counts by type, active/blocked tasks, unprocessed transcripts, and recent activity. Use this instead of multiple list_entities calls.");
        },
    }
}

/// Whether the server answers calls to a tool: every tool it lists is
/// answered; ingesting is defined but neither listed nor answered, so a
/// call to it is an unknown tool.
pub open spec fn is_routed(k: ToolKind) -> bool {
    !(k is Ingest)
}

impl ToolKind {
    /// The word that names this tool after the `clotho_` prefix.
    pub fn word(&self) -> (s: &'static str)
        ensures
            s@ == tool_word(*self),
    {
        match self {
            ToolKind::ArchiveEntity => "archive_entity",
            ToolKind::BatchCreateRelations => "batch_create_relations",
            ToolKind::Capture => "capture",
            ToolKind::CaptureDirectory => "capture_directory",
            ToolKind::CheckProcessed => "check_processed",
            ToolKind::CreateEntity => "create_entity",
            ToolKind::CreateNote => "create_note",
            ToolKind::CreateReflection => "create_reflection",
            ToolKind::CreateRelation => "create_relation",
            ToolKind::DeleteEntity => "delete_entity",
            ToolKind::DeleteRelation => "delete_relation",
            ToolKind::GetOntology => "get_ontology",
            ToolKind::GetRelations => "get_relations",
            ToolKind::Ingest => "ingest",
            ToolKind::Init => "init",
            ToolKind::ListEntities => "list_entities",
            ToolKind::ListSurfaces => "list_surfaces",
            ToolKind::ListUnprocessed => "list_unprocessed",
            ToolKind::MarkProcessed => "mark_processed",
            ToolKind::PushSurface => "push_surface",
            ToolKind::Query => "query",
            ToolKind::ReadEntity => "read_entity",
            ToolKind::ReadSurface => "read_surface",
            ToolKind::Search => "search",
            ToolKind::SearchOntology => "search_ontology",
            ToolKind::SetWorkspace => "set_workspace",
            ToolKind::Sync => "sync",
            ToolKind::UpdateEntity => "update_entity",
            ToolKind::UpdateOntology => "update_ontology",
            ToolKind::WorkspaceSummary => "workspace_summary",
        }
    }

    /// The name this tool is listed and called under.
    pub fn name(&self) -> (s: String)
        ensures
            s@ == tool_name(*self),
    {
        let mut s = "clotho_".to_owned();
        crate::text::push_str(&mut s, self.word());
        s
    }

    /// What this tool does, as the server describes it to its clients.
    pub fn description(&self) -> (s: String)
        ensures
            s@ == tool_description(*self),
    {
        let d = match self {
            ToolKind::ArchiveEntity => "Archive an entity by setting its status to inactive. Archived entities are hidden from the TUI navigator by default but remain searchable and queryable. Use for completed work, resolved risks, answered questions, etc.",
            ToolKind::BatchCreateRelations => "Create multiple typed relations (graph edges) in a single call. Accepts an array of {source_id, relation_type, target_id} specs. All inputs are validated before any relations are created. Accepts full UUIDs or prefixes.",
            ToolKind::Capture => "Capture a single file into the Clotho workspace as an entity, copying its content into the workspace.",
            ToolKind::CaptureDirectory => "Capture all matching files from a directory into the workspace. Supports glob patterns (e.g., '*.md'). Returns a summary of all captured entities.",
            ToolKind::CheckProcessed => "Check if an entity has been processed by a specific process. Returns processing history including which ontologies were used and what entities were produced.",
            ToolKind::CreateEntity => "Create any entity type in the Clotho workspace (program, responsibility, objective, workstream, task, person, etc.).",
            ToolKind::CreateNote => "Create a new note entity in the Clotho workspace. Optionally link to a parent entity via belongs_to relation.",
            ToolKind::CreateReflection => "Create a new reflection entry in the Clotho workspace with a period-based template.",
            ToolKind::CreateRelation => "Create a typed relation (graph edge) between two entities.",
            ToolKind::DeleteEntity => "Delete an entity from all backends (entities.db, content, graph, search index).",
            ToolKind::DeleteRelation => "Remove a typed relation (graph edge) between two entities. Accepts full UUID or prefix.",
            ToolKind::GetOntology => "Get the extraction ontology for a program or responsibility. Returns keywords, signal types (technical/social), and involved people that guide transcript extraction.",
            ToolKind::GetRelations => "List all relations (outgoing and incoming graph edges) for an entity. Accepts full UUID or prefix.",
            ToolKind::Ingest => "Ingest a file into the Clotho workspace as content (note, meeting, transcript, or artifact).",
            ToolKind::Init => "Initialize a new Clotho workspace with the .clotho/ directory structure.",
            ToolKind::ListEntities => "List entities in the Clotho workspace with optional type, status, or state filters.",
            ToolKind::ListSurfaces => "List surfaces, optionally filtered by status (active/closed) and type. Supports keyword search across title and content.",
            ToolKind::ListUnprocessed => "List transcripts and notes that have not yet been extracted. Returns a chronologically ordered queue for the extraction pipeline.",
            ToolKind::MarkProcessed => "Record that a process was run against an entity. Idempotent — duplicate records are silently ignored. Used by agents after extraction to prevent reprocessing.",
            ToolKind::PushSurface => "Push a surface (text blob) to the Clotho TUI. Surfaces appear as tabs in the TUI and can be edited by the user. Use for daily briefings, meeting notes, status updates, etc. If replace=true and a surface with the same title exists, its content is updated instead of creating a new one.",
            ToolKind::Query => "Run a raw Cypher query against the Clotho relation graph.",
            ToolKind::ReadEntity => "Read an entity's metadata and content by ID (full UUID or prefix). Set include_relations to also fetch graph edges.",
            ToolKind::ReadSurface => "Read a surface by ID or title. Returns the full content including any user edits made in the TUI. Use this to read back surfaces you previously pushed.",
            ToolKind::Search => "Full-text keyword search across all entities in the Clotho workspace.",
            ToolKind::SearchOntology => "Search across all ontologies to find which programs/responsibilities care about a topic.",
            ToolKind::SetWorkspace => "Set the workspace path for the current session. All subsequent tools will use this path. The server auto-detects on startup, but use this to override or set manually.",
            ToolKind::Sync => "Sync the Clotho workspace to git (stage, commit, push). Optionally prune history.",
            ToolKind::UpdateEntity => "Update an entity's fields (title, status, state, content). Accepts full UUID or prefix. Content updates write to the entity's markdown file.",
            ToolKind::UpdateOntology => "Update the extraction ontology for a program or responsibility. Add or remove keywords, signal types, and involved people. Entries are deduplicated automatically.",
            ToolKind::WorkspaceSummary => "Get a high-level overview of the workspace: entity counts by type, active/blocked tasks, unprocessed transcripts, and recent activity. Use this instead of multiple list_entities calls.",
        };
        d.to_owned()
    }

    /// Whether the server answers calls to this tool.
    pub fn is_routed(&self) -> (b: bool)
        ensures
            b == is_routed(*self),
    {
        !matches!(self, ToolKind::Ingest)
    }

}

} // verus!
