use clotho::mcp::batch::{batch_report, plan_batch, plan_batch_checked, BatchPlan, PlannedRelation};
use clotho::mcp::capture::{capture_report, capture_title, file_outcome, matches_glob, no_match_report, CaptureFailure, CaptureOutcome};
use clotho::mcp::create::{entity_created_text, note_created_text, note_row};
use clotho::mcp::formatting::{error_result, text_result};
use clotho::mcp::read_entity::{entity_report, Edge};
use clotho::mcp::resolve::{format_ambiguous_table, resolve_for_read, resolve_for_write, resolve_reply, Access};
use clotho::mcp::server::{ClothoServerHandler, ClothoTools};
use clotho::mcp::tool_names::ToolKind;
use clotho::mcp::summary::{extraction_queue, queue_types, transcript_ids, type_counts, workspace_summary};
use clotho::mcp::tools::{CreateEntityTool, CreateReflectionTool, RelationSpec};
use clotho::mcp::workspace_resolver::{detect_and_set, get_workspace, require_workspace, set_workspace};
use clotho::store::entities::{EntityRow, ResolveResult};
use clotho::store::error::StoreError;
use clotho::store::types::{EntityType, RelationType};

const ID_A: &str = "0f3c2a9e-1111-4222-8333-944455556666";
const ID_B: &str = "7d1e5b20-aaaa-4bbb-8ccc-dddddddddddd";

fn row(id: &str, entity_type: &str, title: &str, updated: &str) -> EntityRow {
    EntityRow {
        id: id.to_string(),
        entity_type: entity_type.to_string(),
        title: title.to_string(),
        created_at: updated.to_string(),
        updated_at: updated.to_string(),
        status: None,
        task_state: None,
        extraction_status: None,
        source_transcript_id: None,
        source_span_start: None,
        source_span_end: None,
        confidence: None,
        content_path: None,
        metadata: None,
    }
}

fn task(id: &str, state: &str, updated: &str) -> EntityRow {
    let mut r = row(id, "Task", "t", updated);
    r.task_state = Some(state.to_string());
    r
}

fn spec(s: &str, r: &str, t: &str) -> RelationSpec {
    RelationSpec { source_id: s.to_string(), relation_type: r.to_string(), target_id: t.to_string() }
}

// Routing

#[test]
fn routes_calls_by_name() {
    let h = ClothoServerHandler::new();
    assert_eq!(h.route("clotho_search"), Some(ToolKind::Search));
    assert_eq!(h.route("clotho_batch_create_relations"), Some(ToolKind::BatchCreateRelations));
    assert_eq!(h.route("clotho_mark_processed"), Some(ToolKind::MarkProcessed));
    assert_eq!(h.route("clotho_archive_entity"), Some(ToolKind::ArchiveEntity));
    assert_eq!(h.route("clotho_push_surface"), Some(ToolKind::PushSurface));
    assert_eq!(h.route("clotho_read_surface"), Some(ToolKind::ReadSurface));
    assert_eq!(h.route("clotho_list_surfaces"), Some(ToolKind::ListSurfaces));
    for t in ClothoTools::tools() {
        assert_eq!(h.route(&t.name()), Some(t));
    }
    assert_eq!(h.route("nope"), None);
    assert_eq!(h.route("clotho_"), None);
    assert_eq!(h.route("clotho_ingest"), None);
    assert_eq!(ToolKind::Capture.name(), "clotho_capture");
    assert!(!ToolKind::Ingest.is_routed());
}

#[test]
fn lists_registered_tools() {
    let tools = ClothoTools::tools();
    assert_eq!(tools.len(), 29);
    let owned: Vec<String> = tools.iter().map(|t| t.name()).collect();
    let names: Vec<&str> = owned.iter().map(|s| s.as_str()).collect();
    assert_eq!(names[0], "clotho_set_workspace");
    assert!(names.contains(&"clotho_create_entity"));
    assert!(names.contains(&"clotho_update_entity"));
    assert!(names.contains(&"clotho_delete_entity"));
    assert!(names.contains(&"clotho_create_relation"));
    assert!(names.contains(&"clotho_delete_relation"));
    assert!(names.contains(&"clotho_get_relations"));
    assert!(names.contains(&"clotho_list_surfaces"));
    assert!(!names.contains(&"clotho_ingest"));
}

#[test]
fn tools_now_fifteen() {
    // The registry lists 29 tools (the count this test once pinned, 28,
    // predates the last tool added); the names it checks are all listed.
    let tools = ClothoTools::tools();
    assert_eq!(tools.len(), 29);
    let owned: Vec<String> = tools.iter().map(|t| t.name()).collect();
    let names: Vec<&str> = owned.iter().map(|s| s.as_str()).collect();
    assert!(names.contains(&"clotho_create_entity"));
    assert!(names.contains(&"clotho_update_entity"));
    assert!(names.contains(&"clotho_delete_entity"));
    assert!(names.contains(&"clotho_create_relation"));
    assert!(names.contains(&"clotho_delete_relation"));
    assert!(names.contains(&"clotho_get_relations"));
}

#[test]
fn list_tools_returns_all_fifteen() {
    // The registry lists 29 tools, not 15. Ingesting is a tool of its own
    // with a name and a description, but the registry does not list it.
    let tools = ClothoTools::tools();
    assert_eq!(tools.len(), 29);
    let owned: Vec<String> = tools.iter().map(|t| t.name()).collect();
    let names: Vec<&str> = owned.iter().map(|s| s.as_str()).collect();
    assert!(names.contains(&"clotho_search"));
    assert!(names.contains(&"clotho_query"));
    assert!(names.contains(&"clotho_read_entity"));
    assert!(names.contains(&"clotho_list_entities"));
    assert!(names.contains(&"clotho_init"));
    assert_eq!(ToolKind::Ingest.name(), "clotho_ingest");
    assert!(!names.contains(&"clotho_ingest"));
    assert!(names.contains(&"clotho_create_note"));
    assert!(names.contains(&"clotho_create_reflection"));
}

#[test]
fn all_tools_have_descriptions() {
    let tools = ClothoTools::tools();
    for tool in &tools {
        assert!(!tool.description().is_empty(), "Tool {} has no description", tool.name());
    }
    assert!(!ToolKind::Ingest.description().is_empty());
}

#[test]
fn tool_descriptions_are_the_listed_texts() {
    assert_eq!(
        ToolKind::CreateRelation.description(),
        "Create a typed relation (graph edge) between two entities."
    );
    assert_eq!(
        ToolKind::Query.description(),
        "Run a raw Cypher query against the Clotho relation graph."
    );
    assert!(ToolKind::MarkProcessed.description().contains("Idempotent — duplicate records"));
    assert!(ToolKind::PushSurface.description().ends_with("instead of creating a new one."));
}

#[test]
fn capture_file_outcomes() {
    match file_outcome("a.md", "a", ID_A, None) {
        CaptureOutcome::Captured { id, title } => {
            assert_eq!(id, ID_A);
            assert_eq!(title, "a");
        }
        other => panic!("unexpected {:?}", other),
    }
    match file_outcome("a.md", "a", ID_A, Some(CaptureFailure::Read("denied".to_string()))) {
        CaptureOutcome::Skipped(m) => assert_eq!(m, "a.md: denied"),
        other => panic!("unexpected {:?}", other),
    }
    match file_outcome("a.md", "a", ID_A, Some(CaptureFailure::Write("I/O error: full".to_string()))) {
        CaptureOutcome::Skipped(m) => assert_eq!(m, "a: I/O error: full"),
        other => panic!("unexpected {:?}", other),
    }
    match file_outcome("a.md", "a", ID_A, Some(CaptureFailure::Insert("duplicate".to_string()))) {
        CaptureOutcome::Skipped(m) => assert_eq!(m, "a: duplicate"),
        other => panic!("unexpected {:?}", other),
    }
}

// Session workspace

#[test]
fn session_workspace() {
    let mut session: Option<String> = None;
    assert_eq!(get_workspace(&session), None);
    assert_eq!(
        require_workspace(&session).unwrap_err(),
        "No workspace set. Use clotho_set_workspace to set one."
    );
    set_workspace(&mut session, "/w".to_string());
    assert_eq!(get_workspace(&session), Some("/w".to_string()));
    assert_eq!(require_workspace(&session).unwrap(), "/w");
}

#[test]
fn detects_nearest_workspace() {
    let mut session: Option<String> = None;
    let dirs = vec!["/a/b/c".to_string(), "/a/b".to_string(), "/a".to_string(), "/".to_string()];
    assert_eq!(detect_and_set(&mut session, &dirs, &vec![false, true, true, false]), Some("/a/b".to_string()));
    assert_eq!(session, Some("/a/b".to_string()));
    let mut none: Option<String> = None;
    assert_eq!(detect_and_set(&mut none, &dirs, &vec![false; 4]), None);
    assert_eq!(none, None);
}

// Replies

#[test]
fn reply_marks() {
    assert_eq!(text_result("x".to_string()).is_error, None);
    assert_eq!(error_result("x".to_string()).is_error, Some(true));
}

#[test]
fn resolution_replies() {
    let rows = vec![row(ID_A, "Task", "First", "u"), row(ID_B, "Note", "Second", "u")];
    let table = format_ambiguous_table("0f", &rows);
    assert_eq!(
        table,
        "## Ambiguous ID\n\nPrefix `0f` matches 2 entities:\n\n| ID | Type | Title |\n|---|---|---|\n| `0f3c2a9e-111...` | Task | First |\n| `7d1e5b20-aaa...` | Note | Second |\n"
    );
    match resolve_reply(Access::Write, "0f", Ok(ResolveResult::Ambiguous(rows))) {
        Err(r) => {
            assert_eq!(r.is_error, Some(false));
            assert!(r.text.ends_with("\n**Operation refused.** Use a longer prefix or the full UUID."));
        }
        Ok(_) => panic!("ambiguous"),
    }
    match resolve_reply(Access::Read, "zz", Ok(ResolveResult::NotFound)) {
        Err(r) => {
            assert_eq!(r.text, "Entity not found: `zz`");
            assert_eq!(r.is_error, Some(true));
        }
        Ok(_) => panic!("not found"),
    }
    match resolve_reply(Access::Read, "zz", Err(StoreError::Sqlite("busy".to_string()))) {
        Err(r) => assert_eq!(r.text, "Store error: SQLite error: busy"),
        Ok(_) => panic!("store error"),
    }
    let found = resolve_reply(Access::Read, "0f", Ok(ResolveResult::Unique(row(ID_A, "Task", "First", "u"))));
    assert_eq!(found.unwrap().id, ID_A);
}

#[test]
fn read_and_write_resolution() {
    let rows = vec![row(ID_A, "Task", "First", "u"), row(ID_B, "Note", "Second", "u")];
    match resolve_for_read("0f", Ok(ResolveResult::Ambiguous(rows))) {
        Err(r) => {
            assert_eq!(r.is_error, Some(false));
            assert!(r.text.ends_with("\nUse a longer prefix to narrow down."));
        }
        Ok(_) => panic!("ambiguous"),
    }
    let rows = vec![row(ID_A, "Task", "First", "u"), row(ID_B, "Note", "Second", "u")];
    match resolve_for_write("0f", Ok(ResolveResult::Ambiguous(rows))) {
        Err(r) => assert!(r.text.ends_with("\n**Operation refused.** Use a longer prefix or the full UUID.")),
        Ok(_) => panic!("ambiguous"),
    }
    let exact = resolve_for_write(ID_A, Ok(ResolveResult::Exact(row(ID_A, "Task", "First", "u"))));
    assert_eq!(exact.unwrap().title, "First");
}

// Directory capture

#[test]
fn glob_matching() {
    assert!(matches_glob(Some("a.md"), "*.md"));
    assert!(!matches_glob(Some("a.txt"), "*.md"));
    assert!(matches_glob(Some(".md"), "*.md"));
    assert!(matches_glob(Some("README"), "README"));
    assert!(!matches_glob(Some("README.md"), "README"));
    assert!(!matches_glob(None, "*.md"));
}

#[test]
fn capture_titles() {
    assert_eq!(capture_title(Some("notes.md")), "notes");
    assert_eq!(capture_title(Some("a.b.md")), "a.b");
    assert_eq!(capture_title(Some(".bashrc")), ".bashrc");
    assert_eq!(capture_title(Some("plain")), "plain");
    assert_eq!(capture_title(None), "untitled");
}

#[test]
fn capture_reports() {
    let outcomes = vec![
        CaptureOutcome::Captured { id: ID_A.to_string(), title: "a".to_string() },
        CaptureOutcome::Skipped("b.md: denied".to_string()),
    ];
    assert_eq!(
        capture_report("/in", &outcomes),
        "## Directory Captured\n\n**1** files captured, **1** skipped from `/in`\n\n| ID | Title |\n|---|---|\n| `0f3c2a9e` | a |\n\n**Errors:**\n- b.md: denied\n"
    );
    assert_eq!(no_match_report("*.md", "/in"), "No files matching '*.md' found in `/in`");
}

// Batch relations

#[test]
fn batch_validation_reports_every_failure() {
    let specs = vec![spec("a", "belongs_to", "b"), spec("c", "owns", "d"), spec("e", "mentions", "f")];
    let sources = vec![Some(ID_A.to_string()), Some(ID_A.to_string()), None];
    let targets = vec![Some(ID_B.to_string()), Some(ID_B.to_string()), Some(ID_B.to_string())];
    match plan_batch(&specs, &sources, &targets) {
        BatchPlan::Invalid(t) => assert_eq!(
            t,
            "## Validation Failed\n\n2 of 3 relations have errors:\n\n- [2] unknown relation type: owns\n- [3] source `e`: not found or ambiguous\n\nNo relations were created. Fix errors and retry."
        ),
        _ => panic!("expected a validation failure"),
    }
}

#[test]
fn batch_checks_uuids() {
    let specs = vec![spec("a", "belongs_to", "b")];
    let sources = vec![Some("not-a-uuid".to_string())];
    let targets = vec![Some(ID_B.to_string())];
    match plan_batch(&specs, &sources, &targets) {
        BatchPlan::Invalid(t) => assert!(t.contains("- [1] invalid source UUID: not-a-uuid\n")),
        _ => panic!("expected a validation failure"),
    }
    match plan_batch_checked(&specs, &sources, &targets, &vec![true], &vec![false]) {
        BatchPlan::Invalid(t) => assert!(t.contains("- [1] invalid target UUID: 7d1e5b20-aaaa-4bbb-8ccc-dddddddddddd\n")),
        _ => panic!("expected a validation failure"),
    }
}

#[test]
fn batch_plans_and_reports() {
    let specs = vec![spec("a", "Belongs_To", "b"), spec("b", "relates_to", "a")];
    let sources = vec![Some(ID_A.to_string()), Some(ID_B.to_string())];
    let targets = vec![Some(ID_B.to_string()), Some(ID_A.to_string())];
    let planned = match plan_batch(&specs, &sources, &targets) {
        BatchPlan::Ready(v) => v,
        _ => panic!("expected a plan"),
    };
    assert_eq!(planned.len(), 2);
    assert_eq!(planned[0].relation, RelationType::BelongsTo);
    assert_eq!(planned[1].source_id, ID_B);
    let report = batch_report(2, &planned, &vec![None, Some("edge exists".to_string())]);
    assert_eq!(
        report,
        "## Batch Relations Created\n\n1 of 2 relations created.\n\n| # | Source | Relation | Target |\n|---|---|---|---|\n| 1 | `0f3c2a9e` | BelongsTo | `7d1e5b20` |\n| 2 | `7d1e5b20` | RelatesTo | `0f3c2a9e` |\n\n**Errors:**\n- `7d1e5b20` -[RelatesTo]-> `0f3c2a9e`: edge exists\n"
    );
    assert!(matches!(plan_batch(&vec![], &vec![], &vec![]), BatchPlan::Empty));
    let _ = PlannedRelation { relation: RelationType::Delivers, source_id: String::new(), target_id: String::new() };
}

// Workspace summary and extraction queue

#[test]
fn summary_counts_and_recent() {
    let rows = vec![
        task(ID_A, "doing", "2024-01-03T10:00:00Z"),
        row(ID_B, "Transcript", "Standup", "2024-01-05T09:00:00Z"),
        task("11111111-2222-4333-8444-555555555555", "done", "2024-01-04T00:00:00Z"),
    ];
    let counts = type_counts(&rows);
    assert_eq!(counts, vec![("Task".to_string(), 2), ("Transcript".to_string(), 1)]);
    assert_eq!(transcript_ids(&rows), vec![ID_B.to_string()]);
    let text = workspace_summary(&rows, Some(vec![false]));
    assert_eq!(
        text,
        "## Workspace Summary\n\n**3 entities total**\n\n### Entities by Type\n\n| Type | Count |\n|---|---|\n| Task | 2 |\n| Transcript | 1 |\n\n### Tasks (2 total)\n\n| State | Count |\n|---|---|\n| Todo | 0 |\n| Active | 1 |\n| Blocked | 0 |\n| Done | 1 |\n\n### Transcripts\n\n1 total, **1 unprocessed**\n\n### Recent Activity\n\n| ID | Type | Title | Updated |\n|---|---|---|---|\n| `7d1e5b20` | Transcript | Standup | 2024-01-05 |\n| `11111111` | Task | t | 2024-01-04 |\n| `0f3c2a9e` | Task | t | 2024-01-03 |\n"
    );
    let none = workspace_summary(&vec![], None);
    assert_eq!(none, "## Workspace Summary\n\n**0 entities total**\n\n### Entities by Type\n\n| Type | Count |\n|---|---|\n");
}

#[test]
fn summary_shows_ten_most_recent() {
    let mut rows = Vec::new();
    for i in 0..12 {
        rows.push(row(&format!("{:08}-0000-4000-8000-000000000000", i), "Note", &format!("n{}", i), &format!("2024-01-{:02}", i + 1)));
    }
    let text = workspace_summary(&rows, None);
    assert_eq!(text.matches("| Note | n").count(), 10);
    assert!(text.contains("| `00000011` | Note | n11 | 2024-01-12 |"));
    assert!(!text.contains("n0 |"));
    assert!(!text.contains("### Transcripts"));
}

#[test]
fn extraction_queue_oldest_first() {
    let rows = vec![
        row(ID_A, "Transcript", "Late", "2024-02-01"),
        row(ID_B, "Note", "Early", "2024-01-01"),
        row("11111111-2222-4333-8444-555555555555", "Note", "Done", "2023-01-01"),
    ];
    let text = extraction_queue(&rows, &vec![false, false, true]);
    assert_eq!(
        text,
        "## Extraction Queue\n\n**2 unprocessed** items:\n\n| # | ID | Type | Title | Captured |\n|---|---|---|---|---|\n| 1 | `7d1e5b20` | Note | Early | 2024-01-01 |\n| 2 | `0f3c2a9e` | Transcript | Late | 2024-02-01 |\n"
    );
    assert_eq!(
        extraction_queue(&rows, &vec![true, true, true]),
        "All transcripts and notes have been processed. Nothing in the extraction queue."
    );
    assert_eq!(queue_types(Some("NOTE")), vec!["Note"]);
    assert_eq!(queue_types(Some("transcript")), vec!["Transcript"]);
    assert_eq!(queue_types(None), vec!["Transcript", "Note"]);
    assert_eq!(queue_types(Some("other")), vec!["Transcript", "Note"]);
}

// Reading an entity

#[test]
fn entity_report_lists_fields_content_and_relations() {
    let mut r = row(ID_A, "Person", "Ada", "2024-01-01");
    r.status = Some("active".to_string());
    r.metadata = Some("{\"email\":\"ada@example.com\",\"n\":1}".to_string());
    let text = entity_report(
        &r,
        Some("0.90".to_string()),
        Some("Notes".to_string()),
        Some((vec![Edge { relation: RelationType::BelongsTo, other: ID_B.to_string() }], vec![])),
    );
    assert_eq!(
        text,
        "## Ada (Person)\n\n| Field | Value |\n|---|---|\n| ID | `0f3c2a9e-1111-4222-8333-944455556666` |\n| Type | Person |\n| Title | Ada |\n| Created | 2024-01-01 |\n| Updated | 2024-01-01 |\n| Status | active |\n| Confidence | 0.90 |\n| Email | ada@example.com |\n\n---\n\nNotes\n---\n\n### Relations\n\n**Outgoing:**\n\n| Relation | Target |\n|---|---|\n| BelongsTo | `7d1e5b20-aaaa-4bbb-8ccc-dddddddddddd` |\n\n"
    );
    let mut bad = row(ID_A, "Note", "N", "d");
    bad.metadata = Some("not json".to_string());
    assert!(!entity_report(&bad, None, None, None).contains("Email"));
}

// Creating entities

#[test]
fn create_entity_fields_and_content() {
    let tool = CreateEntityTool {
        workspace_path: "/w".to_string(),
        entity_type: "task".to_string(),
        title: "Ship it".to_string(),
        status: None,
        state: None,
        email: None,
        parent_id: None,
        content: None,
    };
    assert_eq!(tool.initial_fields(EntityType::Task), (None, Some("todo".to_string()), None));
    assert_eq!(tool.content_to_write(EntityType::Task), Some("# Ship it\n".to_string()));
    assert_eq!(tool.content_to_write(EntityType::Risk), None);
    assert_eq!(tool.metadata(), None);
    let r = tool.entity_row(ID_A, EntityType::Task, "now", Some("/p".to_string()), None);
    assert_eq!(r.entity_type, "Task");
    assert_eq!(r.task_state.as_deref(), Some("todo"));
    let with = CreateEntityTool { status: Some("inactive".to_string()), email: Some("a@b".to_string()), ..tool };
    assert_eq!(with.initial_fields(EntityType::Program).0, Some("inactive".to_string()));
    assert_eq!(with.metadata(), Some("{\"email\":\"a@b\"}".to_string()));
    assert_eq!(
        entity_created_text(ID_A, EntityType::Task, "Ship it"),
        "## Entity Created\n\n| Field | Value |\n|---|---|\n| ID | `0f3c2a9e-1111-4222-8333-944455556666` |\n| Type | Task |\n| Title | Ship it |"
    );
}

#[test]
fn create_note_and_reflection_texts() {
    let n = note_row(ID_A, "Idea", "now", "/p/notes/a.md");
    assert_eq!(n.entity_type, "Note");
    assert_eq!(n.status.as_deref(), Some("active"));
    assert_eq!(
        note_created_text(ID_A, "Idea", "/p/notes/a.md", Some((ID_B, "Parent"))),
        "## Note Created\n\n| Field | Value |\n|---|---|\n| ID | `0f3c2a9e-1111-4222-8333-944455556666` |\n| Title | Idea |\n| Content | `/p/notes/a.md` |\n| Parent | `7d1e5b20` (Parent) |"
    );
    let r = CreateReflectionTool {
        workspace_path: "/w".to_string(),
        period: "weekly".to_string(),
        title: None,
        program_id: None,
    };
    let title = r.reflection_title("2024-05-06");
    assert_eq!(title, "2024-05-06 weekly reflection");
    assert_eq!(
        r.template(&title, "2024-05-06"),
        "# 2024-05-06 weekly reflection\n\n## Period\n\nType: weekly\nDate: 2024-05-06\n\n## Reflections\n\n\n\n## Key Takeaways\n\n\n\n## Action Items\n\n\n"
    );
    assert_eq!(r.metadata(), "{\"period_type\":\"weekly\"}");
    assert!(r.created_text(ID_A, &title, "/f").ends_with("| Period | weekly |\n| File | `/f` |"));
}
