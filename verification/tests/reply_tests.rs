use clotho::mcp::read_entity::Edge;
use clotho::mcp::replies::{
    archived, archived_reply, deleted_reply, entity_filter, entity_listing, ingested_reply, query_table,
    relation_removed_reply, relations_listing, search_reply, surface_listing, surface_reply, surface_status_filter,
    sync_reply, EntityFilter, SearchHit,
};
use clotho::mcp::tools::{CheckProcessedTool, MarkProcessedTool, PushSurfaceTool, UpdateEntityTool};
use clotho::store::coordinated::{save_event, temporal_edges};
use clotho::store::entities::EntityRow;
use clotho::store::jsonl::EventType;
use clotho::store::processing::ProcessingRecord;
use clotho::store::surfaces::SurfaceRow;
use clotho::store::types::{EntityType, RelationType};

const ID_A: &str = "0f3c2a9e-1111-4222-8333-944455556666";
const ID_B: &str = "7d1e5b20-aaaa-4bbb-8ccc-dddddddddddd";

fn row(id: &str, title: &str) -> EntityRow {
    EntityRow {
        id: id.to_string(),
        entity_type: "Task".to_string(),
        title: title.to_string(),
        created_at: "c".to_string(),
        updated_at: "u".to_string(),
        status: Some("active".to_string()),
        task_state: None,
        extraction_status: None,
        source_transcript_id: None,
        source_span_start: None,
        source_span_end: None,
        confidence: None,
        content_path: Some("/p".to_string()),
        metadata: None,
    }
}

fn surface(id: &str, kind: Option<&str>) -> SurfaceRow {
    SurfaceRow {
        id: id.to_string(),
        title: "Daily".to_string(),
        content: "body".to_string(),
        surface_type: kind.map(|k| k.to_string()),
        status: "active".to_string(),
        created_at: "c".to_string(),
        updated_at: "u".to_string(),
    }
}

fn record(name: &str, by: Option<&str>) -> ProcessingRecord {
    ProcessingRecord {
        id: 1,
        entity_id: ID_A.to_string(),
        process_name: name.to_string(),
        ontology_ids: None,
        processed_at: "t".to_string(),
        processed_by: by.map(|b| b.to_string()),
        output_entity_ids: None,
        notes: None,
    }
}

#[test]
fn relation_listings() {
    assert_eq!(relations_listing(ID_A, &vec![], &vec![]), format!("No relations for entity `{}`", ID_A));
    let out = vec![Edge { relation: RelationType::Mentions, other: ID_B.to_string() }];
    let inc = vec![Edge { relation: RelationType::BlockedBy, other: ID_B.to_string() }];
    assert_eq!(
        relations_listing(ID_A, &out, &inc),
        format!(
            "## Relations for `0f3c2a9e`\n\n### Outgoing\n\n| Relation | Target |\n|---|---|\n| Mentions | `{b}` |\n\n### Incoming\n\n| Source | Relation |\n|---|---|\n| `{b}` | BlockedBy |\n\n1 outgoing, 1 incoming",
            b = ID_B
        )
    );
    assert_eq!(
        relation_removed_reply(ID_A, "belongs_to", ID_B),
        "## Relation Removed\n\nRemoved `0f3c2a9e` -[BELONGS_TO]-> `7d1e5b20`"
    );
}

#[test]
fn entity_listings() {
    assert_eq!(entity_listing(&vec![]), "No entities found.");
    let mut t = row(ID_A, "Write");
    t.task_state = Some("doing".to_string());
    let mut short = row("abc", "Short");
    short.status = None;
    assert_eq!(
        entity_listing(&vec![t, short]),
        "## Entities (2)\n\n| ID | Type | Title | Status |\n|---|---|---|---|\n| `0f3c2a9e...` | Task | Write | doing |\n| `abc...` | Task | Short | - |\n"
    );
    let f = entity_filter(&None, &Some("active".to_string()), &Some("todo".to_string()));
    assert_eq!(f, EntityFilter::ByStatus("active".to_string()));
    assert_eq!(entity_filter(&None, &None, &None), EntityFilter::All);
}

#[test]
fn search_replies() {
    let hits: Vec<SearchHit> = (0..12)
        .map(|i| SearchHit {
            entity_id: format!("id{}", i),
            entity_type: "Note".to_string(),
            title: format!("T{}", i),
            snippet: "...".to_string(),
        })
        .collect();
    let t = search_reply("rust", &hits, Some(2));
    assert_eq!(
        t,
        "## Search Results for \"rust\"\n\nFound 2 results\n\n1. **[Note]** T0\n   ...\n   ID: `id0`\n\n2. **[Note]** T1\n   ...\n   ID: `id1`\n\n"
    );
    assert!(search_reply("rust", &hits, None).contains("Found 10 results"));
    assert_eq!(search_reply("zzz", &vec![], None), "No results found for 'zzz'.");
}

#[test]
fn surface_replies() {
    assert_eq!(surface_listing(&vec![]), "No surfaces found.");
    assert_eq!(
        surface_listing(&vec![surface(ID_A, None)]),
        "## Surfaces (1)\n\n| ID | Title | Type | Status | Updated |\n|---|---|---|---|---|\n| `0f3c2a9e` | Daily | - | active | u |\n"
    );
    assert_eq!(surface_status_filter(&None), "active");
    assert_eq!(surface_reply("x", &None), "Surface not found: `x`");
    assert!(surface_reply("x", &Some(surface(ID_A, Some("briefing")))).ends_with("| Type | briefing |\n| Status | active |\n| Updated | u |\n\n---\n\nbody"));
    let push = PushSurfaceTool { title: "Daily".to_string(), content: "body".to_string(), surface_type: None, replace: true };
    assert_eq!(
        push.reply(&surface(ID_A, None)),
        "## Surface pushed/replaced\n\n| Field | Value |\n|---|---|\n| ID | `0f3c2a9e` |\n| Title | Daily |\n| Type | (none) |\n| Status | active |"
    );
}

#[test]
fn processing_replies() {
    let check = CheckProcessedTool { entity_id: ID_A.to_string(), process_name: Some("extraction".to_string()) };
    assert_eq!(check.reply(&vec![record("summarization", None)]), "Entity `0f3c2a9e` has not been processed.");
    assert_eq!(
        check.reply(&vec![record("extraction", Some("agent")), record("summarization", None)]),
        "## Processing History: `0f3c2a9e`\n\n| Process | Ontologies | By | At |\n|---|---|---|---|\n| extraction | - | agent | t |\n"
    );
    let mark = MarkProcessedTool {
        entity_id: ID_A.to_string(),
        process_name: "extraction".to_string(),
        ontology_ids: None,
        processed_by: None,
        output_entity_ids: None,
        notes: None,
    };
    assert_eq!(mark.reply(true), "## Recorded\n\nMarked `0f3c2a9e` as processed by 'extraction'");
    assert_eq!(mark.reply(false), "## Already Processed\n\n`0f3c2a9e` was already processed by 'extraction' (skipped)");
}

#[test]
fn entity_changes() {
    let upd = UpdateEntityTool {
        entity_id: "0f".to_string(),
        title: Some("New".to_string()),
        status: None,
        state: Some("done".to_string()),
        content: Some("x".to_string()),
        email: None,
        url: None,
    };
    let mut r = row(ID_A, "Old");
    upd.apply(&mut r, "now");
    assert_eq!(r.title, "New");
    assert_eq!(r.status.as_deref(), Some("active"));
    assert_eq!(r.task_state.as_deref(), Some("done"));
    assert_eq!(r.updated_at, "now");
    assert_eq!(upd.reply(ID_A), format!("## Entity Updated\n\nUpdated `{}` (content updated)", ID_A));
    let a = archived(&row(ID_A, "Done"), "later");
    assert_eq!(a.status.as_deref(), Some("inactive"));
    assert_eq!(a.content_path.as_deref(), Some("/p"));
    assert_eq!(
        archived_reply(&row(ID_A, "Done")),
        "## Entity Archived\n\n`0f3c2a9e` (Task) — **Done** is now inactive.\nIt will be hidden from the TUI navigator but remains searchable."
    );
    assert_eq!(deleted_reply("T", ID_A), format!("## Entity Deleted\n\nDeleted 'T' (`{}`)", ID_A));
    assert_eq!(
        ingested_reply(ID_A, EntityType::Meeting, "Standup", "/p/m.md"),
        format!("## Ingested\n\n| Field | Value |\n|---|---|\n| ID | `{}` |\n| Type | Meeting |\n| Title | Standup |\n| Content | `/p/m.md` |", ID_A)
    );
}

#[test]
fn sync_and_query_replies() {
    assert_eq!(sync_reply(true, 3, true, Some((2, 20))), "## Synced\n\n3 files committed\nPushed to remote.\nPruned 2 commits (keeping 20)");
    assert_eq!(sync_reply(false, 0, false, Some((0, 20))), "## No Changes\n\nNothing to sync.");
    assert_eq!(query_table(&vec!["a".to_string()], &vec![]), "No results.");
    assert_eq!(
        query_table(
            &vec!["n".to_string(), "t".to_string()],
            &vec![vec!["1".to_string(), "x".to_string()], vec!["2".to_string(), "y".to_string()]]
        ),
        "## Query Results\n\n| n | t |\n|---|---|\n| 1 | x |\n| 2 | y |\n\n2 rows"
    );
}

#[test]
fn coordinated_writes() {
    assert_eq!(save_event(true), EventType::Updated);
    assert_eq!(save_event(false), EventType::Created);
    assert_eq!(temporal_edges(true, false, true), vec![RelationType::HasCadence, RelationType::HasSchedule]);
    assert!(temporal_edges(false, false, false).is_empty());
}
