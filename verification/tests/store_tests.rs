use clotho::store::content::{has_md_extension, ContentStore};
use clotho::store::entities::{EntityRow, ResolveResult};
use clotho::store::error::StoreError;
use clotho::store::extractions::{promote, promoted_entity, ExtractionRow};
use clotho::store::federation::Federation;
use clotho::store::jsonl::{write_lines, EventStore, EventType, TagEntry, TagStore};
use clotho::store::ontology::{parse_list, Ontology};
use clotho::store::processing::{get_unprocessed, has_extraction, ProcessingRecord};
use clotho::store::surfaces::{list_query, push_action, SurfacePush, SurfaceRow};
use clotho::store::types::{EntityType, RelationType};
use clotho::store::workspace::{Workspace, WorkspaceConfig, WorkspaceProbe};
use clotho::text::records_of;

fn all_present() -> WorkspaceProbe {
    WorkspaceProbe {
        root_exists: true,
        content_dir: true,
        data_dir: true,
        graph_dir: true,
        config_dir: true,
        config_file: true,
    }
}

fn make_entity_row(id: &str, entity_type: &str, title: &str) -> EntityRow {
    EntityRow {
        id: id.to_string(),
        entity_type: entity_type.to_string(),
        title: title.to_string(),
        created_at: "2024-01-01T00:00:00+00:00".to_string(),
        updated_at: "2024-01-01T00:00:00+00:00".to_string(),
        status: Some("active".to_string()),
        task_state: None,
        extraction_status: None,
        source_transcript_id: None,
        source_span_start: None,
        source_span_end: None,
        confidence: None,
        content_path: None,
        metadata: None,
    }
}

/// Applies a tag addition to an in-memory tag log.
fn add(entries: &mut Vec<TagEntry>, id: &str, tag: &str) {
    if let Some(e) = TagStore::add_tag(entries, id, tag) {
        entries.push(e);
    }
}

// Workspace

#[test]
fn workspace_init_fails_if_exists() {
    assert!(Workspace::init("/tmp/w", false).is_ok());
    let result = Workspace::init("/tmp/w", true);
    assert!(result.is_err());
    match result {
        Err(StoreError::WorkspaceAlreadyExists(p)) => assert_eq!(p, "/tmp/w/.workspace"),
        _ => panic!("expected WorkspaceAlreadyExists"),
    }
}

#[test]
fn workspace_open_succeeds() {
    let ws = Workspace::open("/home/u/work", &all_present()).unwrap();
    assert_eq!(ws.path, "/home/u/work/.workspace");
}

#[test]
fn initialised_workspace_opens_at_same_root() {
    let ws = Workspace::init("/home/u/fresh", false).unwrap();
    let dirs = ws.init_dirs();
    assert!(dirs.contains(&"/home/u/fresh/.workspace/data".to_string()));
    assert!(dirs.contains(&"/home/u/fresh/.workspace/graph".to_string()));
    assert!(dirs.contains(&"/home/u/fresh/.workspace/config".to_string()));
    assert!(dirs[0].starts_with("/home/u/fresh/.workspace/content/"));
    for d in ["meetings", "reflections", "artifacts", "notes", "people"] {
        assert!(dirs.contains(&format!("/home/u/fresh/{}", d)));
    }
    let opened = Workspace::open("/home/u/fresh", &all_present()).unwrap();
    assert_eq!(opened.path, ws.path);
    assert_eq!(ws.project_root(), "/home/u/fresh");
    assert_eq!(opened.project_root(), "/home/u/fresh");
}

#[test]
fn workspace_open_fails_if_missing() {
    let mut probe = all_present();
    probe.root_exists = false;
    let result = Workspace::open("/home/u/work", &probe);
    assert!(result.is_err());
    match result {
        Err(StoreError::WorkspaceNotFound(p)) => assert_eq!(p, "/home/u/work/.workspace"),
        _ => panic!("expected WorkspaceNotFound"),
    }
}

#[test]
fn workspace_read_config() {
    let config = WorkspaceConfig::default();
    assert_eq!(config.sync.debounce_seconds, 30);
    assert_eq!(config.version, "0.1.0");
    assert!(config.sync.auto_commit);
    assert_eq!(config.sync.shallow_history_limit, 20);
}

#[test]
fn workspace_open_names_first_missing_directory() {
    let mut probe = all_present();
    probe.data_dir = false;
    probe.config_file = false;
    match Workspace::open("/w", &probe) {
        Err(e) => {
            assert!(matches!(e, StoreError::InvalidWorkspace(_)));
            assert_eq!(e.message(), "invalid workspace structure: missing directory: data");
        }
        Ok(_) => panic!("expected an error"),
    }
    let mut probe = all_present();
    probe.config_file = false;
    match Workspace::open("/w", &probe) {
        Err(e) => assert_eq!(e.message(), "invalid workspace structure: missing config/config.toml"),
        Ok(_) => panic!("expected an error"),
    }
}

#[test]
fn workspace_paths() {
    let ws = Workspace::open("/w/", &all_present()).unwrap();
    assert_eq!(ws.path, "/w/.workspace");
    assert_eq!(ws.content_path(), "/w/.workspace/content");
    assert_eq!(ws.data_path(), "/w/.workspace/data");
    assert_eq!(ws.graph_path(), "/w/.workspace/graph");
    assert_eq!(ws.index_path(), "/w/.workspace/index");
    assert_eq!(ws.config_path(), "/w/.workspace/config");
    let dirs = ws.init_dirs();
    assert_eq!(dirs.len(), 14);
    assert_eq!(dirs[0], "/w/.workspace/content/meetings");
    assert_eq!(dirs[8], "/w/.workspace/config");
    // The visible content directories, at the project root.
    assert_eq!(&dirs[9..], &["/w/meetings", "/w/reflections", "/w/artifacts", "/w/notes", "/w/people"]);
    assert_eq!(ws.project_root(), "/w/");
}

// Content layout

#[test]
fn content_paths_by_type() {
    let store = ContentStore::new("/proj");
    assert_eq!(store.project_root(), "/proj");
    assert_eq!(store.content_path(EntityType::Note, "abc"), "/proj/notes/abc.md");
    assert_eq!(store.content_path(EntityType::Transcript, "t1"), "/proj/meetings/t1.md");
    assert_eq!(store.content_path(EntityType::Risk, "r"), "/proj/derived/r.md");
    assert_eq!(store.content_path(EntityType::Person, "p"), "/proj/people/p.md");
    assert_eq!(store.content_dir(EntityType::Reference), "/proj/references");
}

#[test]
fn content_list_selects_markdown() {
    assert!(has_md_extension("note.md"));
    assert!(!has_md_extension(".md"));
    assert!(!has_md_extension("note.txt"));
    assert!(!has_md_extension("md"));
    assert!(has_md_extension("a.b.md"));
}

// Tags

#[test]
fn tags_add_get_remove() {
    let mut entries: Vec<TagEntry> = Vec::new();
    let id = "0f3c2a9e-1111-4222-8333-944455556666";
    add(&mut entries, id, "urgent");
    add(&mut entries, id, "review");

    let tags = TagStore::get_tags(&entries, id);
    assert_eq!(tags.len(), 2);
    assert!(tags.contains(&"urgent".to_string()));

    entries = TagStore::remove_tag(&entries, id, "urgent");
    let tags = TagStore::get_tags(&entries, id);
    assert_eq!(tags.len(), 1);
    assert_eq!(tags[0], "review");
}

#[test]
fn tags_no_duplicates() {
    let mut entries: Vec<TagEntry> = Vec::new();
    let id = "0f3c2a9e-1111-4222-8333-944455556666";
    add(&mut entries, id, "urgent");
    add(&mut entries, id, "urgent");

    let tags = TagStore::get_tags(&entries, id);
    assert_eq!(tags.len(), 1);
}

#[test]
fn tags_get_entities_by_tag() {
    let mut entries: Vec<TagEntry> = Vec::new();
    add(&mut entries, "id-1", "important");
    add(&mut entries, "id-2", "important");
    add(&mut entries, "id-2", "other");

    let ids = TagStore::get_entities_by_tag(&entries, "important");
    assert_eq!(ids.len(), 2);
    assert_eq!(ids, vec!["id-1".to_string(), "id-2".to_string()]);
}

#[test]
fn tag_removal_keeps_other_entities() {
    let mut entries: Vec<TagEntry> = Vec::new();
    add(&mut entries, "a", "x");
    add(&mut entries, "b", "x");
    let kept = TagStore::remove_tag(&entries, "a", "x");
    assert_eq!(TagStore::get_tags(&kept, "b"), vec!["x".to_string()]);
    assert!(TagStore::get_tags(&kept, "a").is_empty());
}

#[test]
fn tag_and_event_files() {
    assert_eq!(TagStore::new("/w/data").path(), "/w/data/tags.jsonl");
    assert_eq!(EventStore::new("/w/data").path(), "/w/data/events.jsonl");
}

#[test]
fn events_log_and_read() {
    assert_eq!(EventType::Created.as_str(), "created");
    assert_eq!(EventType::Updated.as_str(), "updated");
    assert_eq!(EventType::TagAdded.as_str(), "tag_added");
    assert_eq!(EventType::TagRemoved.as_str(), "tag_removed");
    let text = write_lines(&vec!["{\"a\":1}".to_string(), "{\"b\":2}".to_string()]);
    assert_eq!(text, "{\"a\":1}\n{\"b\":2}\n");
    let recs = records_of(&text);
    assert_eq!(recs, vec!["{\"a\":1}".to_string(), "{\"b\":2}".to_string()]);
}

#[test]
fn jsonl_records_skip_blank_lines_and_trim() {
    let recs = records_of("  one \r\n\n\t\ntwo\n   ");
    assert_eq!(recs, vec!["one".to_string(), "two".to_string()]);
    assert!(records_of("").is_empty());
}

// Types

#[test]
fn entity_type_names_round_trip() {
    let all = [
        EntityType::Program, EntityType::Responsibility, EntityType::Objective,
        EntityType::Workstream, EntityType::Task, EntityType::Meeting, EntityType::Transcript,
        EntityType::Note, EntityType::Reflection, EntityType::Artifact, EntityType::Reference,
        EntityType::Decision, EntityType::Risk, EntityType::Blocker, EntityType::Question,
        EntityType::Insight, EntityType::Person,
    ];
    for t in all.iter() {
        assert_eq!(EntityType::from_name(t.name()).unwrap(), *t);
    }
    match EntityType::from_name("program") {
        Err(e) => assert_eq!(e.message(), "entity not found: unknown entity type: program"),
        Ok(_) => panic!("names are case sensitive"),
    }
}

#[test]
fn entity_type_words() {
    assert_eq!(EntityType::from_word("Program").unwrap(), EntityType::Program);
    assert_eq!(EntityType::from_word("TASK").unwrap(), EntityType::Task);
    assert_eq!(EntityType::from_word("reference").unwrap_err(), "Unknown type: reference");
    assert_eq!(EntityType::capture_type("Meeting").unwrap(), EntityType::Meeting);
    assert_eq!(
        EntityType::capture_type("task").unwrap_err(),
        "Unknown type 'task'. Valid: note, meeting, transcript, artifact"
    );
}

#[test]
fn entity_type_rules() {
    assert_eq!(EntityType::Program.defaults(), (Some("active".to_string()), None, None));
    assert_eq!(EntityType::Task.defaults(), (None, Some("todo".to_string()), None));
    assert_eq!(EntityType::Risk.defaults(), (None, None, Some("draft".to_string())));
    assert_eq!(EntityType::Note.defaults(), (None, None, None));
    assert!(EntityType::Note.is_content_bearing());
    assert!(!EntityType::Insight.is_content_bearing());
    assert_eq!(EntityType::Meeting.subdir(), "meetings");
    assert_eq!(EntityType::Transcript.subdir(), "meetings");
    assert_eq!(EntityType::Question.subdir(), "derived");
}

#[test]
fn relation_type_words() {
    assert_eq!(RelationType::from_word("belongs_to").unwrap(), RelationType::BelongsTo);
    assert_eq!(RelationType::from_word("Has_Risk").unwrap(), RelationType::HasRisk);
    assert_eq!(RelationType::from_word("owns").unwrap_err(), "Unknown relation type: owns");
    assert_eq!(RelationType::BlockedBy.name(), "BlockedBy");
}

// Errors

#[test]
fn store_error_messages() {
    assert_eq!(StoreError::WorkspaceNotFound("/x".to_string()).message(), "workspace not found at /x");
    assert_eq!(StoreError::Io("boom".to_string()).message(), "I/O error: boom");
    assert_eq!(StoreError::Sqlite("locked".to_string()).message(), "SQLite error: locked");
    assert_eq!(StoreError::ContentNotFound("n".to_string()).message(), "content not found for n");
    assert_eq!(StoreError::FederationError("f".to_string()).message(), "federation error: f");
}

// Entity resolution

#[test]
fn resolve_prefers_exact_then_unique() {
    let exact = ResolveResult::from_lookups(Some(make_entity_row("abc", "Task", "T")), vec![]);
    assert!(matches!(exact, ResolveResult::Exact(r) if r.id == "abc"));
    let unique = ResolveResult::from_lookups(None, vec![make_entity_row("abc1", "Task", "T")]);
    assert!(matches!(unique, ResolveResult::Unique(r) if r.id == "abc1"));
    let amb = ResolveResult::from_lookups(None, vec![make_entity_row("a1", "Task", "T"), make_entity_row("a2", "Task", "U")]);
    assert!(matches!(amb, ResolveResult::Ambiguous(v) if v.len() == 2));
    assert!(matches!(ResolveResult::from_lookups(None, vec![]), ResolveResult::NotFound));
}

// Extractions

fn draft(status: &str) -> ExtractionRow {
    ExtractionRow {
        id: "x1".to_string(),
        entity_type: "Decision".to_string(),
        title: "Use SQLite".to_string(),
        speech_act: Some("commit".to_string()),
        extraction_status: status.to_string(),
        source_transcript_id: Some("t1".to_string()),
        source_span_start: Some(3),
        source_span_end: Some(9),
        confidence: Some(0.9f64.to_bits()),
        created_at: "2024-02-02".to_string(),
        metadata: None,
    }
}

#[test]
fn extraction_promote() {
    let p = promote("x1", Some(draft("draft"))).unwrap();
    assert_eq!(p.extraction_status, "promoted");
    assert_eq!(p.title, "Use SQLite");
    let e = promoted_entity(&p, "2024-03-03");
    assert_eq!(e.extraction_status.as_deref(), Some("promoted"));
    assert_eq!(e.updated_at, "2024-03-03");
    assert_eq!(e.created_at, "2024-02-02");
    assert_eq!(e.source_span_start, Some(3));
    assert_eq!(e.confidence, Some(0.9f64.to_bits()));
    assert!(e.status.is_none());
}

#[test]
fn extraction_promote_refuses_non_drafts() {
    match promote("x1", Some(draft("promoted"))) {
        Err(e) => assert_eq!(e.message(), "entity not found: extraction x1 is not a draft (status: promoted)"),
        Ok(_) => panic!("only drafts are promoted"),
    }
    match promote("zz", None) {
        Err(e) => assert_eq!(e.message(), "entity not found: zz"),
        Ok(_) => panic!("missing extraction"),
    }
}

// Federation

#[test]
fn federation_open() {
    let f = Federation::open("/w/.workspace", true).unwrap();
    assert_eq!(f.entities_db(), "/w/.workspace/data/entities.db");
    assert_eq!(f.attach_relations(), "ATTACH DATABASE '/w/.workspace/graph/relations.db' AS graph");
    assert_eq!(f.attach_search(), "ATTACH DATABASE '/w/.workspace/index/search.db' AS idx");
    match Federation::open("/w/.workspace", false) {
        Err(e) => assert_eq!(e.message(), "federation error: entities.db not found at /w/.workspace/data/entities.db"),
        Ok(_) => panic!("expected an error"),
    }
}

// Ontology

#[test]
fn ontology_groups_rows_by_category() {
    let rows = vec![
        ("keyword".to_string(), "rust".to_string()),
        ("person".to_string(), "Ada".to_string()),
        ("keyword".to_string(), "verus".to_string()),
        ("unknown".to_string(), "x".to_string()),
        ("ignore".to_string(), "noise".to_string()),
    ];
    let o = Ontology::from_rows("e1", &rows);
    assert_eq!(o.entity_id, "e1");
    assert_eq!(o.keywords, vec!["rust".to_string(), "verus".to_string()]);
    assert_eq!(o.people, vec!["Ada".to_string()]);
    assert_eq!(o.ignore, vec!["noise".to_string()]);
    assert!(o.signal_technical.is_empty());
    assert_eq!(
        o.describe("PMO", "Program"),
        "## Ontology: PMO (Program)\n\n**Keywords:** rust, verus\n\n**Involved people:** Ada\n\n"
    );
    let empty = Ontology::from_rows("e2", &vec![]);
    assert_eq!(empty.describe("T", "Program"), "## Ontology: T (Program)\n\nNo ontology configured yet.");
}

#[test]
fn ontology_lists_are_trimmed() {
    assert_eq!(parse_list(" a, b ,c"), vec!["a".to_string(), "b".to_string(), "c".to_string()]);
}

// Processing

fn record(name: &str) -> ProcessingRecord {
    ProcessingRecord {
        id: 1,
        entity_id: "e".to_string(),
        process_name: name.to_string(),
        ontology_ids: None,
        processed_at: "now".to_string(),
        processed_by: None,
        output_entity_ids: None,
        notes: None,
    }
}

#[test]
fn processing_queries() {
    assert!(has_extraction(&vec![record("summarization"), record("extraction")]));
    assert!(!has_extraction(&vec![record("summarization")]));
    let ids = vec!["a".to_string(), "b".to_string(), "c".to_string()];
    assert_eq!(get_unprocessed(&ids, &vec![true, false, false]), vec!["b".to_string(), "c".to_string()]);
}

// Surfaces

#[test]
fn surface_push_and_list() {
    let row = SurfaceRow {
        id: "s1".to_string(),
        title: "Brief".to_string(),
        content: "x".to_string(),
        surface_type: None,
        status: "active".to_string(),
        created_at: "c".to_string(),
        updated_at: "u".to_string(),
    };
    assert!(matches!(push_action(true, &Some(row.clone())), SurfacePush::Update(id) if id == "s1"));
    assert!(matches!(push_action(false, &Some(row)), SurfacePush::Create));
    assert!(matches!(push_action(true, &None), SurfacePush::Create));
    let (sql, params) = list_query(Some("active"), Some("briefing"));
    assert_eq!(
        sql,
        "SELECT id, title, content, surface_type, status, created_at, updated_at FROM surfaces WHERE 1=1 AND status = ?1 AND surface_type = ?2 ORDER BY updated_at DESC"
    );
    assert_eq!(params, vec!["active".to_string(), "briefing".to_string()]);
    let (sql, params) = list_query(None, Some("briefing"));
    assert!(sql.contains("AND surface_type = ?1 ORDER"));
    assert_eq!(params.len(), 1);
}
