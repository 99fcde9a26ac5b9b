use clotho::mcp::capture::capture_order;
use clotho::mcp::create::captured_row;
use clotho::mcp::ontology_tools::OntologyEdit;
use clotho::mcp::replies::{empty_batch_reply, init_reply};
use clotho::mcp::tools::{CreateRelationTool, SearchOntologyTool, SetWorkspaceTool, UpdateEntityTool, UpdateOntologyTool};
use clotho::store::entities::{keep_prefixed, EntityRow};
use clotho::store::ontology::OntologyEntry;
use clotho::store::types::EntityType;

const ID_A: &str = "0f3c2a9e-1111-4222-8333-944455556666";
const ID_B: &str = "7d1e5b20-aaaa-4bbb-8ccc-dddddddddddd";

fn update(entity_id: &str) -> UpdateOntologyTool {
    UpdateOntologyTool {
        workspace_path: "/w".to_string(),
        entity_id: entity_id.to_string(),
        add_keywords: None,
        remove_keywords: None,
        add_technical_signals: None,
        add_social_signals: None,
        add_people: None,
        remove_people: None,
        added_by: None,
    }
}

fn view(e: &OntologyEdit) -> (bool, &str, Vec<String>) {
    (e.add, e.category, e.values.clone())
}

#[test]
fn ontology_update_edits_in_order() {
    let mut t = update(ID_A);
    t.remove_people = Some("Bob".to_string());
    t.add_keywords = Some("rust, verus ,proofs".to_string());
    t.add_people = Some(" Ada".to_string());
    let edits = t.edits();
    let got: Vec<(bool, &str, Vec<String>)> = edits.iter().map(view).collect();
    assert_eq!(
        got,
        vec![
            (true, "keyword", vec!["rust".to_string(), "verus".to_string(), "proofs".to_string()]),
            (true, "person", vec!["Ada".to_string()]),
            (false, "person", vec!["Bob".to_string()]),
        ]
    );
    assert!(update(ID_A).edits().is_empty());
}

#[test]
fn ontology_update_author_and_reply() {
    let mut t = update(ID_A);
    assert_eq!(t.author(), "user");
    t.added_by = Some("agent".to_string());
    assert_eq!(t.author(), "agent");
    assert_eq!(t.reply(), "## Ontology Updated\n\nUpdated ontology for entity `0f3c2a9e`");
}

#[test]
fn ontology_search_replies() {
    let tool = SearchOntologyTool { workspace_path: "/w".to_string(), query: "rust".to_string() };
    assert_eq!(tool.reply(&vec![]), "No ontology entries matching 'rust'.");
    let entries = vec![
        OntologyEntry {
            id: 1,
            entity_id: ID_A.to_string(),
            category: "keyword".to_string(),
            value: "rust".to_string(),
            added_at: "2024-01-01".to_string(),
            added_by: None,
        },
        OntologyEntry {
            id: 2,
            entity_id: ID_B.to_string(),
            category: "signal_technical".to_string(),
            value: "rustc".to_string(),
            added_at: "2024-01-02".to_string(),
            added_by: Some("agent".to_string()),
        },
    ];
    assert_eq!(
        tool.reply(&entries),
        "## Ontology Search: 'rust'\n\n| Entity | Category | Value |\n|---|---|---|\n| `0f3c2a9e...` | keyword | rust |\n| `7d1e5b20...` | signal_technical | rustc |\n\n2 matches"
    );
}

#[test]
fn workspace_init_and_set_replies() {
    assert_eq!(
        init_reply("/home/u/.workspace"),
        "## Workspace Initialized\n\nCreated Clotho workspace at `/home/u/.workspace`"
    );
    let tool = SetWorkspaceTool { path: "/home/u".to_string() };
    let mut session: Option<String> = Some("/old".to_string());
    assert_eq!(tool.apply(&mut session, false).unwrap_err(), "No .clotho/ directory found at /home/u");
    assert_eq!(session, Some("/old".to_string()));
    assert_eq!(tool.apply(&mut session, true).unwrap(), "## Workspace Set\n\nWorkspace path set to `/home/u`");
    assert_eq!(session, Some("/home/u".to_string()));
}

#[test]
fn relation_created_reply() {
    let tool = CreateRelationTool {
        workspace_path: "/w".to_string(),
        source_id: ID_A.to_string(),
        relation_type: "belongs_to".to_string(),
        target_id: ID_B.to_string(),
    };
    assert_eq!(tool.reply(), "## Relation Created\n\n`0f3c2a9e` -[BELONGS_TO]-> `7d1e5b20`");
    assert_eq!(empty_batch_reply(), "No relations provided.");
}

#[test]
fn row_of_a_captured_file() {
    let r = captured_row(ID_A, EntityType::Transcript, "standup", "2024-05-01T09:00:00Z", "/p/meetings/x.md");
    assert_eq!(r.id, ID_A);
    assert_eq!(r.entity_type, "Transcript");
    assert_eq!(r.title, "standup");
    assert_eq!(r.created_at, "2024-05-01T09:00:00Z");
    assert_eq!(r.updated_at, "2024-05-01T09:00:00Z");
    assert_eq!(r.status, Some("active".to_string()));
    assert_eq!(r.task_state, None);
    assert_eq!(r.content_path, Some("/p/meetings/x.md".to_string()));
    assert_eq!(r.metadata, None);
}

#[test]
fn update_sets_email_then_url() {
    let mut upd = UpdateEntityTool {
        entity_id: "0f".to_string(),
        title: None,
        status: None,
        state: None,
        content: None,
        email: None,
        url: None,
    };
    assert!(upd.metadata_fields().is_empty());
    upd.url = Some("https://x".to_string());
    upd.email = Some("a@b".to_string());
    assert_eq!(
        upd.metadata_fields(),
        vec![("email".to_string(), "a@b".to_string()), ("url".to_string(), "https://x".to_string())]
    );
}

fn entity(id: &str) -> EntityRow {
    EntityRow {
        id: id.to_string(),
        entity_type: "Task".to_string(),
        title: "t".to_string(),
        created_at: "c".to_string(),
        updated_at: "u".to_string(),
        status: None,
        task_state: None,
        extraction_status: None,
        source_transcript_id: None,
        source_span_start: None,
        source_span_end: None,
        confidence: None,
        content_path: None,
        metadata: None,
    }
}

#[test]
fn prefix_matches_are_exact() {
    // What a LIKE 'ab%' or 'a_%' query could return: case-folded and
    // wildcard matches are dropped.
    let rows = vec![entity("ab12"), entity("AB34"), entity("axb"), entity("a_c"), entity("ab")];
    let kept: Vec<String> = keep_prefixed(rows, "ab").into_iter().map(|r| r.id).collect();
    assert_eq!(kept, vec!["ab12".to_string(), "ab".to_string()]);
    let rows = vec![entity("axb"), entity("a_c")];
    let kept: Vec<String> = keep_prefixed(rows, "a_").into_iter().map(|r| r.id).collect();
    assert_eq!(kept, vec!["a_c".to_string()]);
}

#[test]
fn update_merges_email_and_url_into_metadata() {
    let mut upd = UpdateEntityTool {
        entity_id: "0f".to_string(),
        title: None,
        status: None,
        state: None,
        content: None,
        email: None,
        url: None,
    };
    let old = Some("{\"x\":1,\"email\":\"old@b\"}".to_string());
    assert_eq!(upd.updated_metadata(&old), old);
    assert_eq!(upd.updated_metadata(&None), None);
    upd.email = Some("new@b".to_string());
    assert_eq!(upd.updated_metadata(&old), Some("{\"email\":\"new@b\",\"x\":1}".to_string()));
    assert_eq!(upd.updated_metadata(&None), Some("{\"email\":\"new@b\"}".to_string()));
    upd.url = Some("https://x".to_string());
    assert_eq!(
        upd.updated_metadata(&Some("not json".to_string())),
        Some("{\"email\":\"new@b\",\"url\":\"https://x\"}".to_string())
    );
}

#[test]
fn capture_takes_matching_files_by_name() {
    let names = vec![
        Some("b.md".to_string()),
        Some("a.txt".to_string()),
        Some("c.md".to_string()),
        Some("a.md".to_string()),
        None,
        Some("d.md".to_string()),
    ];
    let files = vec![true, true, true, true, true, false];
    assert_eq!(capture_order(&names, &files, "*.md"), vec![3, 0, 2]);
    assert_eq!(capture_order(&names, &files, "a.txt"), vec![1]);
    assert!(capture_order(&names, &files, "*.rs").is_empty());
}
