//! Finding a tool by the word in its name. The words are looked up in
//! three tables by their length; each entry checks the length first.
use vstd::prelude::*;

use crate::mcp::tool_names::{is_routed, tool_word, ToolKind};
use crate::text::{char_len, str_eq};

verus! {

/// The tool whose word, of at most 11 characters, is `s`.
pub open spec fn short_word_tool(s: Seq<char>) -> Option<ToolKind> {
    if s.len() == 7 && s == "capture"@ {
        Some(ToolKind::Capture)
    } else if s.len() == 11 && s == "create_note"@ {
        Some(ToolKind::CreateNote)
    } else if s.len() == 6 && s == "ingest"@ {
        Some(ToolKind::Ingest)
    } else if s.len() == 4 && s == "init"@ {
        Some(ToolKind::Init)
    } else if s.len() == 5 && s == "query"@ {
        Some(ToolKind::Query)
    } else if s.len() == 11 && s == "read_entity"@ {
        Some(ToolKind::ReadEntity)
    } else if s.len() == 6 && s == "search"@ {
        Some(ToolKind::Search)
    } else if s.len() == 4 && s == "sync"@ {
        Some(ToolKind::Sync)
    } else {
        None
    }
}

/// The tool whose word, of 12 to 14 characters, is `s`.
pub open spec fn middle_word_tool(s: Seq<char>) -> Option<ToolKind> {
    if s.len() == 14 && s == "archive_entity"@ {
        Some(ToolKind::ArchiveEntity)
    } else if s.len() == 13 && s == "create_entity"@ {
        Some(ToolKind::CreateEntity)
    } else if s.len() == 13 && s == "delete_entity"@ {
        Some(ToolKind::DeleteEntity)
    } else if s.len() == 12 && s == "get_ontology"@ {
        Some(ToolKind::GetOntology)
    } else if s.len() == 13 && s == "get_relations"@ {
        Some(ToolKind::GetRelations)
    } else if s.len() == 13 && s == "list_entities"@ {
        Some(ToolKind::ListEntities)
    } else if s.len() == 13 && s == "list_surfaces"@ {
        Some(ToolKind::ListSurfaces)
    } else if s.len() == 14 && s == "mark_processed"@ {
        Some(ToolKind::MarkProcessed)
    } else if s.len() == 12 && s == "push_surface"@ {
        Some(ToolKind::PushSurface)
    } else if s.len() == 12 && s == "read_surface"@ {
        Some(ToolKind::ReadSurface)
    } else if s.len() == 13 && s == "set_workspace"@ {
        Some(ToolKind::SetWorkspace)
    } else if s.len() == 13 && s == "update_entity"@ {
        Some(ToolKind::UpdateEntity)
    } else {
        None
    }
}

/// The tool whose word, of at least 15 characters, is `s`.
pub open spec fn long_word_tool(s: Seq<char>) -> Option<ToolKind> {
    if s.len() == 22 && s == "batch_create_relations"@ {
        Some(ToolKind::BatchCreateRelations)
    } else if s.len() == 17 && s == "capture_directory"@ {
        Some(ToolKind::CaptureDirectory)
    } else if s.len() == 15 && s == "check_processed"@ {
        Some(ToolKind::CheckProcessed)
    } else if s.len() == 17 && s == "create_reflection"@ {
        Some(ToolKind::CreateReflection)
    } else if s.len() == 15 && s == "create_relation"@ {
        Some(ToolKind::CreateRelation)
    } else if s.len() == 15 && s == "delete_relation"@ {
        Some(ToolKind::DeleteRelation)
    } else if s.len() == 16 && s == "list_unprocessed"@ {
        Some(ToolKind::ListUnprocessed)
    } else if s.len() == 15 && s == "search_ontology"@ {
        Some(ToolKind::SearchOntology)
    } else if s.len() == 15 && s == "update_ontology"@ {
        Some(ToolKind::UpdateOntology)
    } else if s.len() == 17 && s == "workspace_summary"@ {
        Some(ToolKind::WorkspaceSummary)
    } else {
        None
    }
}

/// The tool whose word is `s`, if any.
pub open spec fn tool_for_word(s: Seq<char>) -> Option<ToolKind> {
    if s.len() <= 11 {
        short_word_tool(s)
    } else if s.len() <= 14 {
        middle_word_tool(s)
    } else {
        long_word_tool(s)
    }
}

/// The tool that answers a call named `s`: the routed tool of that name.
pub open spec fn routed_tool(s: Seq<char>) -> Option<ToolKind> {
    if s.len() >= 7 && s.take(7) == "clotho_"@ {
        match tool_for_word(s.skip(7)) {
            Some(k) => if is_routed(k) { Some(k) } else { None },
            None => None,
        }
    } else {
        None
    }
}

fn short_word_lookup(s: &str) -> (r: Option<ToolKind>)
    ensures
        r == short_word_tool(s@),
{
    proof {
        reveal_strlit("capture");
        reveal_strlit("create_note");
        reveal_strlit("ingest");
        reveal_strlit("init");
        reveal_strlit("query");
        reveal_strlit("read_entity");
        reveal_strlit("search");
        reveal_strlit("sync");
    }
    if str_eq(s, "capture") {
        return Some(ToolKind::Capture);
    }
    if str_eq(s, "create_note") {
        return Some(ToolKind::CreateNote);
    }
    if str_eq(s, "ingest") {
        return Some(ToolKind::Ingest);
    }
    if str_eq(s, "init") {
        return Some(ToolKind::Init);
    }
    if str_eq(s, "query") {
        return Some(ToolKind::Query);
    }
    if str_eq(s, "read_entity") {
        return Some(ToolKind::ReadEntity);
    }
    if str_eq(s, "search") {
        return Some(ToolKind::Search);
    }
    if str_eq(s, "sync") {
        return Some(ToolKind::Sync);
    }
    None
}

fn middle_word_lookup(s: &str) -> (r: Option<ToolKind>)
    ensures
        r == middle_word_tool(s@),
{
    proof {
        reveal_strlit("archive_entity");
        reveal_strlit("create_entity");
        reveal_strlit("delete_entity");
        reveal_strlit("get_ontology");
        reveal_strlit("get_relations");
        reveal_strlit("list_entities");
        reveal_strlit("list_surfaces");
        reveal_strlit("mark_processed");
        reveal_strlit("push_surface");
        reveal_strlit("read_surface");
        reveal_strlit("set_workspace");
        reveal_strlit("update_entity");
    }
    if str_eq(s, "archive_entity") {
        return Some(ToolKind::ArchiveEntity);
    }
    if str_eq(s, "create_entity") {
        return Some(ToolKind::CreateEntity);
    }
    if str_eq(s, "delete_entity") {
        return Some(ToolKind::DeleteEntity);
    }
    if str_eq(s, "get_ontology") {
        return Some(ToolKind::GetOntology);
    }
    if str_eq(s, "get_relations") {
        return Some(ToolKind::GetRelations);
    }
    if str_eq(s, "list_entities") {
        return Some(ToolKind::ListEntities);
    }
    if str_eq(s, "list_surfaces") {
        return Some(ToolKind::ListSurfaces);
    }
    if str_eq(s, "mark_processed") {
        return Some(ToolKind::MarkProcessed);
    }
    if str_eq(s, "push_surface") {
        return Some(ToolKind::PushSurface);
    }
    if str_eq(s, "read_surface") {
        return Some(ToolKind::ReadSurface);
    }
    if str_eq(s, "set_workspace") {
        return Some(ToolKind::SetWorkspace);
    }
    if str_eq(s, "update_entity") {
        return Some(ToolKind::UpdateEntity);
    }
    None
}

fn long_word_lookup(s: &str) -> (r: Option<ToolKind>)
    ensures
        r == long_word_tool(s@),
{
    proof {
        reveal_strlit("batch_create_relations");
        reveal_strlit("capture_directory");
        reveal_strlit("check_processed");
        reveal_strlit("create_reflection");
        reveal_strlit("create_relation");
        reveal_strlit("delete_relation");
        reveal_strlit("list_unprocessed");
        reveal_strlit("search_ontology");
        reveal_strlit("update_ontology");
        reveal_strlit("workspace_summary");
    }
    if str_eq(s, "batch_create_relations") {
        return Some(ToolKind::BatchCreateRelations);
    }
    if str_eq(s, "capture_directory") {
        return Some(ToolKind::CaptureDirectory);
    }
    if str_eq(s, "check_processed") {
        return Some(ToolKind::CheckProcessed);
    }
    if str_eq(s, "create_reflection") {
        return Some(ToolKind::CreateReflection);
    }
    if str_eq(s, "create_relation") {
        return Some(ToolKind::CreateRelation);
    }
    if str_eq(s, "delete_relation") {
        return Some(ToolKind::DeleteRelation);
    }
    if str_eq(s, "list_unprocessed") {
        return Some(ToolKind::ListUnprocessed);
    }
    if str_eq(s, "search_ontology") {
        return Some(ToolKind::SearchOntology);
    }
    if str_eq(s, "update_ontology") {
        return Some(ToolKind::UpdateOntology);
    }
    if str_eq(s, "workspace_summary") {
        return Some(ToolKind::WorkspaceSummary);
    }
    None
}

impl ToolKind {
    /// The tool whose word is `s`, if any (see `tool_for_word`).
    pub fn for_word(s: &str) -> (r: Option<ToolKind>)
        ensures
            r == tool_for_word(s@),
    {
        let n = char_len(s);
        if n <= 11 {
            short_word_lookup(s)
        } else if n <= 14 {
            middle_word_lookup(s)
        } else {
            long_word_lookup(s)
        }
    }
}

proof fn lemma_short_words(k: ToolKind)
    requires
        k is Capture || k is CreateNote || k is Ingest || k is Init || k is Query || k is ReadEntity || k is Search || k is Sync,
    ensures
        short_word_tool(tool_word(k)) == Some(k),
{
    match k {
        ToolKind::Capture => {
            reveal_strlit("capture");
        },
        ToolKind::CreateNote => {
            reveal_strlit("create_note");
        },
        ToolKind::Ingest => {
            reveal_strlit("ingest");
        },
        ToolKind::Init => {
            reveal_strlit("init");
        },
        ToolKind::Query => {
            reveal_strlit("query");
        },
        ToolKind::ReadEntity => {
            reveal_strlit("read_entity");
            reveal_strlit("create_note");
            assert("create_note"@[0] != "read_entity"@[0]);
        },
        ToolKind::Search => {
            reveal_strlit("search");
            reveal_strlit("ingest");
            assert("ingest"@[0] != "search"@[0]);
        },
        ToolKind::Sync => {
            reveal_strlit("sync");
            reveal_strlit("init");
            assert("init"@[0] != "sync"@[0]);
        },
        _ => {},
    }
}

proof fn lemma_middle_words(k: ToolKind)
    requires
        k is ArchiveEntity || k is CreateEntity || k is DeleteEntity || k is GetOntology || k is GetRelations || k is ListEntities || k is ListSurfaces || k is MarkProcessed || k is PushSurface || k is ReadSurface || k is SetWorkspace || k is UpdateEntity,
    ensures
        middle_word_tool(tool_word(k)) == Some(k),
{
    match k {
        ToolKind::ArchiveEntity => {
            reveal_strlit("archive_entity");
        },
        ToolKind::CreateEntity => {
            reveal_strlit("create_entity");
        },
        ToolKind::DeleteEntity => {
            reveal_strlit("delete_entity");
            reveal_strlit("create_entity");
            assert("create_entity"@[0] != "delete_entity"@[0]);
        },
        ToolKind::GetOntology => {
            reveal_strlit("get_ontology");
        },
        ToolKind::GetRelations => {
            reveal_strlit("get_relations");
            reveal_strlit("create_entity");
            assert("create_entity"@[0] != "get_relations"@[0]);
            reveal_strlit("delete_entity");
            assert("delete_entity"@[0] != "get_relations"@[0]);
        },
        ToolKind::ListEntities => {
            reveal_strlit("list_entities");
            reveal_strlit("create_entity");
            assert("create_entity"@[0] != "list_entities"@[0]);
            reveal_strlit("delete_entity");
            assert("delete_entity"@[0] != "list_entities"@[0]);
            reveal_strlit("get_relations");
            assert("get_relations"@[0] != "list_entities"@[0]);
        },
        ToolKind::ListSurfaces => {
            reveal_strlit("list_surfaces");
            reveal_strlit("create_entity");
            assert("create_entity"@[0] != "list_surfaces"@[0]);
            reveal_strlit("delete_entity");
            assert("delete_entity"@[0] != "list_surfaces"@[0]);
            reveal_strlit("get_relations");
            assert("get_relations"@[0] != "list_surfaces"@[0]);
            reveal_strlit("list_entities");
            assert("list_entities"@[5] != "list_surfaces"@[5]);
        },
        ToolKind::MarkProcessed => {
            reveal_strlit("mark_processed");
            reveal_strlit("archive_entity");
            assert("archive_entity"@[0] != "mark_processed"@[0]);
        },
        ToolKind::PushSurface => {
            reveal_strlit("push_surface");
            reveal_strlit("get_ontology");
            assert("get_ontology"@[0] != "push_surface"@[0]);
        },
        ToolKind::ReadSurface => {
            reveal_strlit("read_surface");
            reveal_strlit("get_ontology");
            assert("get_ontology"@[0] != "read_surface"@[0]);
            reveal_strlit("push_surface");
            assert("push_surface"@[0] != "read_surface"@[0]);
        },
        ToolKind::SetWorkspace => {
            reveal_strlit("set_workspace");
            reveal_strlit("create_entity");
            assert("create_entity"@[0] != "set_workspace"@[0]);
            reveal_strlit("delete_entity");
            assert("delete_entity"@[0] != "set_workspace"@[0]);
            reveal_strlit("get_relations");
            assert("get_relations"@[0] != "set_workspace"@[0]);
            reveal_strlit("list_entities");
            assert("list_entities"@[0] != "set_workspace"@[0]);
            reveal_strlit("list_surfaces");
            assert("list_surfaces"@[0] != "set_workspace"@[0]);
        },
        ToolKind::UpdateEntity => {
            reveal_strlit("update_entity");
            reveal_strlit("create_entity");
            assert("create_entity"@[0] != "update_entity"@[0]);
            reveal_strlit("delete_entity");
            assert("delete_entity"@[0] != "update_entity"@[0]);
            reveal_strlit("get_relations");
            assert("get_relations"@[0] != "update_entity"@[0]);
            reveal_strlit("list_entities");
            assert("list_entities"@[0] != "update_entity"@[0]);
            reveal_strlit("list_surfaces");
            assert("list_surfaces"@[0] != "update_entity"@[0]);
            reveal_strlit("set_workspace");
            assert("set_workspace"@[0] != "update_entity"@[0]);
        },
        _ => {},
    }
}

proof fn lemma_long_words(k: ToolKind)
    requires
        k is BatchCreateRelations || k is CaptureDirectory || k is CheckProcessed || k is CreateReflection || k is CreateRelation || k is DeleteRelation || k is ListUnprocessed || k is SearchOntology || k is UpdateOntology || k is WorkspaceSummary,
    ensures
        long_word_tool(tool_word(k)) == Some(k),
{
    match k {
        ToolKind::BatchCreateRelations => {
            reveal_strlit("batch_create_relations");
        },
        ToolKind::CaptureDirectory => {
            reveal_strlit("capture_directory");
        },
        ToolKind::CheckProcessed => {
            reveal_strlit("check_processed");
        },
        ToolKind::CreateReflection => {
            reveal_strlit("create_reflection");
            reveal_strlit("capture_directory");
            assert("capture_directory"@[1] != "create_reflection"@[1]);
        },
        ToolKind::CreateRelation => {
            reveal_strlit("create_relation");
            reveal_strlit("check_processed");
            assert("check_processed"@[1] != "create_relation"@[1]);
        },
        ToolKind::DeleteRelation => {
            reveal_strlit("delete_relation");
            reveal_strlit("check_processed");
            assert("check_processed"@[0] != "delete_relation"@[0]);
            reveal_strlit("create_relation");
            assert("create_relation"@[0] != "delete_relation"@[0]);
        },
        ToolKind::ListUnprocessed => {
            reveal_strlit("list_unprocessed");
        },
        ToolKind::SearchOntology => {
            reveal_strlit("search_ontology");
            reveal_strlit("check_processed");
            assert("check_processed"@[0] != "search_ontology"@[0]);
            reveal_strlit("create_relation");
            assert("create_relation"@[0] != "search_ontology"@[0]);
            reveal_strlit("delete_relation");
            assert("delete_relation"@[0] != "search_ontology"@[0]);
        },
        ToolKind::UpdateOntology => {
            reveal_strlit("update_ontology");
            reveal_strlit("check_processed");
            assert("check_processed"@[0] != "update_ontology"@[0]);
            reveal_strlit("create_relation");
            assert("create_relation"@[0] != "update_ontology"@[0]);
            reveal_strlit("delete_relation");
            assert("delete_relation"@[0] != "update_ontology"@[0]);
            reveal_strlit("search_ontology");
            assert("search_ontology"@[0] != "update_ontology"@[0]);
        },
        ToolKind::WorkspaceSummary => {
            reveal_strlit("workspace_summary");
            reveal_strlit("capture_directory");
            assert("capture_directory"@[0] != "workspace_summary"@[0]);
            reveal_strlit("create_reflection");
            assert("create_reflection"@[0] != "workspace_summary"@[0]);
        },
        _ => {},
    }
}

/// A tool's word reads back as that tool: words of different lengths
/// differ, and words of equal length differ at the named character.
pub proof fn lemma_tool_word_round_trip(k: ToolKind)
    ensures
        tool_for_word(tool_word(k)) == Some(k),
{
    if k is Capture || k is CreateNote || k is Ingest || k is Init || k is Query || k is ReadEntity || k is Search || k is Sync {
        lemma_short_words(k);
    }
    if k is ArchiveEntity || k is CreateEntity || k is DeleteEntity || k is GetOntology || k is GetRelations || k is ListEntities || k is ListSurfaces || k is MarkProcessed || k is PushSurface || k is ReadSurface || k is SetWorkspace || k is UpdateEntity {
        lemma_middle_words(k);
    }
    if k is BatchCreateRelations || k is CaptureDirectory || k is CheckProcessed || k is CreateReflection || k is CreateRelation || k is DeleteRelation || k is ListUnprocessed || k is SearchOntology || k is UpdateOntology || k is WorkspaceSummary {
        lemma_long_words(k);
    }
}

} // verus!
