//! Creating entities, notes and reflections: the fields a new entity
//! starts with, what its content file holds, and the replies.
use vstd::prelude::*;

use crate::mcp::tools::{CreateEntityTool, CreateReflectionTool};
use crate::store::entities::EntityRow;
use crate::store::types::{default_fields, entity_type_name, is_derived, opt_view, EntityType};
use crate::text::{byte_prefix, cuttable, prefix_bytes, push_str};

verus! {

/// The text serde_json writes for a JSON object whose members are the
/// given (key, string value) pairs, as `serde_json::to_string` of a
/// `serde_json::Map` holding them.
pub uninterp spec fn json_object_text(pairs: Seq<(Seq<char>, Seq<char>)>) -> Seq<char>;

/// `serde_json::to_string` of a map of string members. The contract claims
/// only that the text is `json_object_text` of the pairs; how serde_json
/// orders and escapes them is not stated.
#[verifier::external_body]
fn json_object(pairs: &Vec<(String, String)>) -> (t: String)
    ensures
        t@ == json_object_text(pairs@.map_values(|p: (String, String)| (p.0@, p.1@))),
{
    let mut map = serde_json::Map::new();
    for (k, v) in pairs.iter() {
        map.insert(k.clone(), serde_json::Value::String(v.clone()));
    }
    serde_json::to_string(&map).unwrap_or_default()
}

/// The text serde_json writes for a JSON object after setting string
/// members in it: `existing` read with `serde_json::from_str` into a map
/// (an empty map when it is absent or is not a JSON object), each (key,
/// value) pair inserted in order as a string member, replacing a member of
/// the same key, and the map written with `serde_json::to_string`.
pub uninterp spec fn json_merged_text(existing: Option<Seq<char>>, pairs: Seq<(Seq<char>, Seq<char>)>) -> Seq<char>;

/// `serde_json::from_str` of the existing metadata into a map (empty when
/// absent or unreadable), `Map::insert` of each pair as a string member,
/// then `serde_json::to_string`. The contract claims that the text is
/// `json_merged_text` of the arguments, and that with no existing metadata
/// it is the text `json_object` writes for the pairs (both start from an
/// empty map, insert the same members and write it the same way). How
/// serde_json reads, orders and escapes members is not stated.
#[verifier::external_body]
pub(crate) fn merged_json(existing: Option<&str>, pairs: &Vec<(String, String)>) -> (t: String)
    ensures
        t@ == json_merged_text(
            match existing { Some(e) => Some(e@), None => None },
            pairs@.map_values(|p: (String, String)| (p.0@, p.1@)),
        ),
        existing is None ==> t@ == json_object_text(pairs@.map_values(|p: (String, String)| (p.0@, p.1@))),
{
    let mut map: serde_json::Map<String, serde_json::Value> = match existing {
        Some(e) => serde_json::from_str(e).unwrap_or_default(),
        None => serde_json::Map::new(),
    };
    for (k, v) in pairs.iter() {
        map.insert(k.clone(), serde_json::Value::String(v.clone()));
    }
    serde_json::to_string(&map).unwrap_or_default()
}

/// The metadata members of a new entity: its email, then its parent, each
/// when given.
pub open spec fn entity_metadata_pairs(email: Option<Seq<char>>, parent: Option<Seq<char>>) -> Seq<(Seq<char>, Seq<char>)> {
    (match email { Some(e) => seq![("email"@, e)], None => Seq::empty() })
        + (match parent { Some(p) => seq![("parent_id"@, p)], None => Seq::empty() })
}

/// The text of a new entity's content file, if it gets one: the given
/// content when not empty; else, for a content-bearing type, a heading
/// with the title; else none.
pub open spec fn initial_content(content: Option<Seq<char>>, title: Seq<char>, t: EntityType) -> Option<Seq<char>> {
    let c = match content { Some(c) => c, None => Seq::empty() };
    if c.len() > 0 {
        Some(c)
    } else if !is_derived(t) {
        Some("# "@ + title + "\n"@)
    } else {
        None
    }
}

impl CreateEntityTool {
    /// The status, task state and extraction status the new entity gets:
    /// the requested status and state, else the type's defaults.
    pub fn initial_fields(&self, t: EntityType) -> (f: (Option<String>, Option<String>, Option<String>))
        ensures
            opt_view(f.0) == (match self.status { Some(s) => Some(s@), None => default_fields(t).0 }),
            opt_view(f.1) == (match self.state { Some(s) => Some(s@), None => default_fields(t).1 }),
            opt_view(f.2) == default_fields(t).2,
    {
        let (ds, dt, de) = t.defaults();
        let status = match &self.status {
            Some(s) => Some(s.clone()),
            None => ds,
        };
        let state = match &self.state {
            Some(s) => Some(s.clone()),
            None => dt,
        };
        (status, state, de)
    }

    /// The metadata of the new entity: a JSON object with its email and
    /// parent when either is given, else none.
    pub fn metadata(&self) -> (m: Option<String>)
        ensures
            entity_metadata_pairs(opt_view(self.email), opt_view(self.parent_id)).len() == 0 ==> m is None,
            entity_metadata_pairs(opt_view(self.email), opt_view(self.parent_id)).len() > 0 ==> (m matches Some(j)
                && j@ == json_object_text(entity_metadata_pairs(opt_view(self.email), opt_view(self.parent_id)))),
    {
        let mut pairs: Vec<(String, String)> = Vec::new();
        match &self.email {
            Some(e) => pairs.push(("email".to_owned(), e.clone())),
            None => {},
        }
        match &self.parent_id {
            Some(p) => pairs.push(("parent_id".to_owned(), p.clone())),
            None => {},
        }
        assert(pairs@.map_values(|p: (String, String)| (p.0@, p.1@)) =~= entity_metadata_pairs(opt_view(self.email), opt_view(self.parent_id)));
        if pairs.len() == 0 {
            None
        } else {
            Some(json_object(&pairs))
        }
    }

    /// The text to write to the new entity's content file, if any (see
    /// `initial_content`).
    pub fn content_to_write(&self, t: EntityType) -> (c: Option<String>)
        ensures
            opt_view(c) == initial_content(opt_view(self.content), self.title@, t),
    {
        let given = match &self.content {
            Some(c) => c.clone(),
            None => String::new(),
        };
        if given.as_str().unicode_len() > 0 {
            Some(given)
        } else if t.is_content_bearing() {
            let mut h = "# ".to_owned();
            push_str(&mut h, self.title.as_str());
            push_str(&mut h, "\n");
            Some(h)
        } else {
            None
        }
    }

    /// The row of the new entity with ID `id` of type `t`, created at
    /// `now`, with its content file path and metadata.
    pub fn entity_row(&self, id: &str, t: EntityType, now: &str, content_path: Option<String>, metadata: Option<String>) -> (r: EntityRow)
        ensures
            r.id@ == id@,
            r.entity_type@ == entity_type_name(t),
            r.title@ == self.title@,
            r.created_at@ == now@,
            r.updated_at@ == now@,
            opt_view(r.status) == (match self.status { Some(s) => Some(s@), None => default_fields(t).0 }),
            opt_view(r.task_state) == (match self.state { Some(s) => Some(s@), None => default_fields(t).1 }),
            opt_view(r.extraction_status) == default_fields(t).2,
            r.source_transcript_id is None,
            r.source_span_start is None,
            r.source_span_end is None,
            r.confidence is None,
            r.content_path == content_path,
            r.metadata == metadata,
    {
        let (status, task_state, extraction_status) = self.initial_fields(t);
        EntityRow {
            id: id.to_owned(),
            entity_type: t.name().to_owned(),
            title: self.title.clone(),
            created_at: now.to_owned(),
            updated_at: now.to_owned(),
            status,
            task_state,
            extraction_status,
            source_transcript_id: None,
            source_span_start: None,
            source_span_end: None,
            confidence: None,
            content_path,
            metadata,
        }
    }
}

/// The reply when an entity was created.
pub fn entity_created_text(id: &str, t: EntityType, title: &str) -> (s: String)
    ensures
        s@ == "## Entity Created\n\n| Field | Value |\n|---|---|\n| ID | `"@ + id@ + "` |\n| Type | "@
            + entity_type_name(t) + " |\n| Title | "@ + title@ + " |"@,
{
    let mut s = "## Entity Created\n\n| Field | Value |\n|---|---|\n| ID | `".to_owned();
    push_str(&mut s, id);
    push_str(&mut s, "` |\n| Type | ");
    push_str(&mut s, t.name());
    push_str(&mut s, " |\n| Title | ");
    push_str(&mut s, title);
    push_str(&mut s, " |");
    s
}

/// The reply when a note was created, with its parent (full ID and title)
/// when it was linked to one.
pub fn note_created_text(id: &str, title: &str, content_path: &str, parent: Option<(&str, &str)>) -> (s: String)
    requires
        parent matches Some(p) ==> cuttable(p.0@, 8),
    ensures
        s@ == "## Note Created\n\n| Field | Value |\n|---|---|\n| ID | `"@ + id@ + "` |\n| Title | "@ + title@
            + " |\n| Content | `"@ + content_path@ + "` |"@
            + match parent {
                Some(p) => "\n| Parent | `"@ + byte_prefix(p.0@, 8) + "` ("@ + p.1@ + ") |"@,
                None => Seq::empty(),
            },
{
    let mut s = "## Note Created\n\n| Field | Value |\n|---|---|\n| ID | `".to_owned();
    push_str(&mut s, id);
    push_str(&mut s, "` |\n| Title | ");
    push_str(&mut s, title);
    push_str(&mut s, " |\n| Content | `");
    push_str(&mut s, content_path);
    push_str(&mut s, "` |");
    let ghost a = s@;
    match parent {
        Some((pid, ptitle)) => {
            push_str(&mut s, "\n| Parent | `");
            push_str(&mut s, prefix_bytes(pid, 8).as_str());
            push_str(&mut s, "` (");
            push_str(&mut s, ptitle);
            push_str(&mut s, ") |");
        },
        None => {},
    }
    s
}

/// The row of a new note created at `now`: active, with its content path.
pub fn note_row(id: &str, title: &str, now: &str, content_path: &str) -> (r: EntityRow)
    ensures
        r.id@ == id@,
        r.entity_type@ == "Note"@,
        r.title@ == title@,
        r.created_at@ == now@,
        r.updated_at@ == now@,
        r.status matches Some(s) && s@ == "active"@,
        r.task_state is None,
        r.extraction_status is None,
        r.source_transcript_id is None,
        r.source_span_start is None,
        r.source_span_end is None,
        r.confidence is None,
        r.content_path matches Some(p) && p@ == content_path@,
        r.metadata is None,
{
    EntityRow {
        id: id.to_owned(),
        entity_type: "Note".to_owned(),
        title: title.to_owned(),
        created_at: now.to_owned(),
        updated_at: now.to_owned(),
        status: Some("active".to_owned()),
        task_state: None,
        extraction_status: None,
        source_transcript_id: None,
        source_span_start: None,
        source_span_end: None,
        confidence: None,
        content_path: Some(content_path.to_owned()),
        metadata: None,
    }
}

/// The row of an entity made from a file (ingested, or captured from a
/// directory) at `now`: of type `t`, active, with its content path.
pub fn captured_row(id: &str, t: EntityType, title: &str, now: &str, content_path: &str) -> (r: EntityRow)
    ensures
        r.id@ == id@,
        r.entity_type@ == entity_type_name(t),
        r.title@ == title@,
        r.created_at@ == now@,
        r.updated_at@ == now@,
        r.status matches Some(s) && s@ == "active"@,
        r.task_state is None,
        r.extraction_status is None,
        r.source_transcript_id is None,
        r.source_span_start is None,
        r.source_span_end is None,
        r.confidence is None,
        r.content_path matches Some(p) && p@ == content_path@,
        r.metadata is None,
{
    EntityRow {
        id: id.to_owned(),
        entity_type: t.name().to_owned(),
        title: title.to_owned(),
        created_at: now.to_owned(),
        updated_at: now.to_owned(),
        status: Some("active".to_owned()),
        task_state: None,
        extraction_status: None,
        source_transcript_id: None,
        source_span_start: None,
        source_span_end: None,
        confidence: None,
        content_path: Some(content_path.to_owned()),
        metadata: None,
    }
}

/// The template of a new reflection's content file.
pub open spec fn reflection_template_text(title: Seq<char>, period: Seq<char>, date: Seq<char>) -> Seq<char> {
    "# "@ + title + "\n\n## Period\n\nType: "@ + period + "\nDate: "@ + date
        + "\n\n## Reflections\n\n\n\n## Key Takeaways\n\n\n\n## Action Items\n\n\n"@
}

impl CreateReflectionTool {
    /// The title of the new reflection: the requested one, else
    /// `<date> <period> reflection`.
    pub fn reflection_title(&self, date: &str) -> (t: String)
        ensures
            t@ == match self.title {
                Some(x) => x@,
                None => date@ + " "@ + self.period@ + " reflection"@,
            },
    {
        match &self.title {
            Some(x) => x.clone(),
            None => {
                let mut t = date.to_owned();
                push_str(&mut t, " ");
                push_str(&mut t, self.period.as_str());
                push_str(&mut t, " reflection");
                t
            },
        }
    }

    /// The content file of the new reflection, titled `title`, on `date`.
    pub fn template(&self, title: &str, date: &str) -> (t: String)
        ensures
            t@ == reflection_template_text(title@, self.period@, date@),
    {
        let mut t = "# ".to_owned();
        push_str(&mut t, title);
        push_str(&mut t, "\n\n## Period\n\nType: ");
        push_str(&mut t, self.period.as_str());
        push_str(&mut t, "\nDate: ");
        push_str(&mut t, date);
        push_str(&mut t, "\n\n## Reflections\n\n\n\n## Key Takeaways\n\n\n\n## Action Items\n\n\n");
        t
    }

    /// The metadata of the new reflection: its period type, then the
    /// program it is scoped to, when given.
    pub fn metadata(&self) -> (m: String)
        ensures
            m@ == json_object_text(seq![("period_type"@, self.period@)] + match self.program_id {
                Some(p) => seq![("program_id"@, p@)],
                None => Seq::empty(),
            }),
    {
        let mut pairs: Vec<(String, String)> = Vec::new();
        pairs.push(("period_type".to_owned(), self.period.clone()));
        match &self.program_id {
            Some(p) => pairs.push(("program_id".to_owned(), p.clone())),
            None => {},
        }
        assert(pairs@.map_values(|p: (String, String)| (p.0@, p.1@)) =~= seq![("period_type"@, self.period@)] + match self.program_id {
            Some(p) => seq![("program_id"@, p@)],
            None => Seq::empty(),
        });
        json_object(&pairs)
    }

    /// The reply when the reflection was created.
    pub fn created_text(&self, id: &str, title: &str, file: &str) -> (s: String)
        ensures
            s@ == "## Reflection Created\n\n| Field | Value |\n|---|---|\n| ID | `"@ + id@ + "` |\n| Title | "@ + title@
                + " |\n| Period | "@ + self.period@ + " |\n| File | `"@ + file@ + "` |"@,
    {
        let mut s = "## Reflection Created\n\n| Field | Value |\n|---|---|\n| ID | `".to_owned();
        push_str(&mut s, id);
        push_str(&mut s, "` |\n| Title | ");
        push_str(&mut s, title);
        push_str(&mut s, " |\n| Period | ");
        push_str(&mut s, self.period.as_str());
        push_str(&mut s, " |\n| File | `");
        push_str(&mut s, file);
        push_str(&mut s, "` |");
        s
    }
}

} // verus!
