//! The reply of `clotho_read_entity`: an entity's fields as a table, then
//! its content, then (on request) its relations.
use vstd::prelude::*;

use crate::store::entities::EntityRow;
use crate::store::types::{relation_name, RelationType};
use crate::text::push_str;

verus! {

/// The string value of `key` in the JSON object `doc`, as serde_json reads
/// it: `None` when `doc` is not a JSON object or `key` is absent or not a
/// string.
pub uninterp spec fn json_string_field(doc: Seq<char>, key: Seq<char>) -> Option<Seq<char>>;

/// The string value of a field of a JSON object text, read with
/// `serde_json::from_str` into a map and `Map::get`. The contract claims
/// only that the answer is `json_string_field` of the two texts.
#[verifier::external_body]
fn json_field(doc: &str, key: &str) -> (r: Option<String>)
    ensures
        match r {
            Some(v) => json_string_field(doc@, key@) == Some(v@),
            None => json_string_field(doc@, key@) is None,
        },
{
    match serde_json::from_str::<serde_json::Map<String, serde_json::Value>>(doc) {
        Ok(map) => match map.get(key) {
            Some(serde_json::Value::String(s)) => Some(s.clone()),
            _ => None,
        },
        Err(_) => None,
    }
}

/// A relation of the entity being read: its type and the entity at its
/// other end.
#[derive(Debug)]
pub struct Edge {
    pub relation: RelationType,
    pub other: String,
}

/// `| <label> | <v> |\n` when `v` is present.
pub open spec fn opt_row(label: Seq<char>, v: Option<Seq<char>>) -> Seq<char> {
    match v {
        Some(x) => "| "@ + label + " | "@ + x + " |\n"@,
        None => Seq::empty(),
    }
}

/// The field table of an entity; `confidence` is its score as displayed
/// (two decimals), when it has one.
pub open spec fn field_table(r: EntityRow, confidence: Option<Seq<char>>) -> Seq<char> {
    let meta = match r.metadata {
        Some(m) => (json_string_field(m@, "email"@), json_string_field(m@, "url"@)),
        None => (None, None),
    };
    "## "@ + r.title@ + " ("@ + r.entity_type@ + ")\n\n| Field | Value |\n|---|---|\n| ID | `"@ + r.id@
        + "` |\n| Type | "@ + r.entity_type@ + " |\n| Title | "@ + r.title@ + " |\n| Created | "@
        + r.created_at@ + " |\n| Updated | "@ + r.updated_at@ + " |\n"@
        + opt_row("Status"@, match r.status { Some(s) => Some(s@), None => None })
        + opt_row("State"@, match r.task_state { Some(s) => Some(s@), None => None })
        + opt_row("Extraction Status"@, match r.extraction_status { Some(s) => Some(s@), None => None })
        + opt_row("Confidence"@, confidence)
        + opt_row("Email"@, meta.0)
        + opt_row("URL"@, meta.1)
}

/// Lines `| <rel> | `<target>` |\n` of outgoing relations.
pub open spec fn outgoing_lines(es: Seq<Edge>) -> Seq<char>
    decreases es.len(),
{
    if es.len() == 0 {
        Seq::empty()
    } else {
        outgoing_lines(es.drop_last()) + "| "@ + relation_name(es.last().relation) + " | `"@ + es.last().other@ + "` |\n"@
    }
}

/// Lines `| `<source>` | <rel> |\n` of incoming relations.
pub open spec fn incoming_lines(es: Seq<Edge>) -> Seq<char>
    decreases es.len(),
{
    if es.len() == 0 {
        Seq::empty()
    } else {
        incoming_lines(es.drop_last()) + "| `"@ + es.last().other@ + "` | "@ + relation_name(es.last().relation) + " |\n"@
    }
}

/// The relations section: nothing without relations; else a heading, the
/// outgoing table (followed by a blank line) and the incoming table, each
/// when not empty.
pub open spec fn relations_text(out: Seq<Edge>, inc: Seq<Edge>) -> Seq<char> {
    (if out.len() > 0 || inc.len() > 0 { "\n---\n\n### Relations\n\n"@ } else { Seq::empty() })
        + (if out.len() > 0 {
            "**Outgoing:**\n\n| Relation | Target |\n|---|---|\n"@ + outgoing_lines(out) + "\n"@
        } else {
            Seq::empty()
        })
        + (if inc.len() > 0 {
            "**Incoming:**\n\n| Source | Relation |\n|---|---|\n"@ + incoming_lines(inc)
        } else {
            Seq::empty()
        })
}

/// The whole reply: the field table, the content after a rule when it
/// could be read, and the relations when they were fetched.
pub open spec fn entity_report_text(r: EntityRow, confidence: Option<Seq<char>>, content: Option<Seq<char>>, relations: Option<(Seq<Edge>, Seq<Edge>)>) -> Seq<char> {
    field_table(r, confidence)
        + (match content { Some(c) => "\n---\n\n"@ + c, None => Seq::empty() })
        + (match relations { Some((o, i)) => relations_text(o, i), None => Seq::empty() })
}

fn push_opt_row(t: &mut String, label: &str, v: &Option<String>)
    ensures
        final(t)@ == old(t)@ + opt_row(label@, match *v { Some(s) => Some(s@), None => None }),
{
    match v {
        Some(x) => {
            push_str(t, "| ");
            push_str(t, label);
            push_str(t, " | ");
            push_str(t, x.as_str());
            push_str(t, " |\n");
        },
        None => {},
    }
}

fn relations_section(out: &Vec<Edge>, inc: &Vec<Edge>) -> (t: String)
    ensures
        t@ == relations_text(out@, inc@),
{
    let mut t = String::new();
    if out.len() > 0 || inc.len() > 0 {
        push_str(&mut t, "\n---\n\n### Relations\n\n");
    }
    let ghost s1 = t@;
    if out.len() > 0 {
        push_str(&mut t, "**Outgoing:**\n\n| Relation | Target |\n|---|---|\n");
        let ghost h = t@;
        let n = out.len();
        for i in 0..n
            invariant
                n == out@.len(),
                t@ == h + outgoing_lines(out@.take(i as int)),
        {
            assert(out@.take(i + 1).drop_last() =~= out@.take(i as int));
            push_str(&mut t, "| ");
            push_str(&mut t, out[i].relation.name());
            push_str(&mut t, " | `");
            push_str(&mut t, out[i].other.as_str());
            push_str(&mut t, "` |\n");
        }
        assert(out@.take(n as int) =~= out@);
        push_str(&mut t, "\n");
    }
    let ghost s2 = t@;
    if inc.len() > 0 {
        push_str(&mut t, "**Incoming:**\n\n| Source | Relation |\n|---|---|\n");
        let ghost h = t@;
        let n = inc.len();
        for i in 0..n
            invariant
                n == inc@.len(),
                t@ == h + incoming_lines(inc@.take(i as int)),
        {
            assert(inc@.take(i + 1).drop_last() =~= inc@.take(i as int));
            push_str(&mut t, "| `");
            push_str(&mut t, inc[i].other.as_str());
            push_str(&mut t, "` | ");
            push_str(&mut t, inc[i].relation.name());
            push_str(&mut t, " |\n");
        }
        assert(inc@.take(n as int) =~= inc@);
    }
    t
}

fn field_header(r: &EntityRow) -> (t: String)
    ensures
        t@ == "## "@ + r.title@ + " ("@ + r.entity_type@ + ")\n\n| Field | Value |\n|---|---|\n| ID | `"@ + r.id@
            + "` |\n| Type | "@ + r.entity_type@ + " |\n| Title | "@ + r.title@ + " |\n| Created | "@
            + r.created_at@ + " |\n| Updated | "@ + r.updated_at@ + " |\n"@,
{
    let mut t = "## ".to_owned();
    push_str(&mut t, r.title.as_str());
    push_str(&mut t, " (");
    push_str(&mut t, r.entity_type.as_str());
    push_str(&mut t, ")\n\n| Field | Value |\n|---|---|\n| ID | `");
    push_str(&mut t, r.id.as_str());
    push_str(&mut t, "` |\n| Type | ");
    push_str(&mut t, r.entity_type.as_str());
    push_str(&mut t, " |\n| Title | ");
    push_str(&mut t, r.title.as_str());
    push_str(&mut t, " |\n| Created | ");
    push_str(&mut t, r.created_at.as_str());
    push_str(&mut t, " |\n| Updated | ");
    push_str(&mut t, r.updated_at.as_str());
    push_str(&mut t, " |\n");
    t
}

fn field_section(r: &EntityRow, confidence: &Option<String>) -> (t: String)
    ensures
        t@ == field_table(*r, match *confidence { Some(c) => Some(c@), None => None }),
{
    let mut t = field_header(r);
    push_opt_row(&mut t, "Status", &r.status);
    push_opt_row(&mut t, "State", &r.task_state);
    push_opt_row(&mut t, "Extraction Status", &r.extraction_status);
    push_opt_row(&mut t, "Confidence", confidence);
    let (email, url) = match &r.metadata {
        Some(m) => (json_field(m.as_str(), "email"), json_field(m.as_str(), "url")),
        None => (None, None),
    };
    push_opt_row(&mut t, "Email", &email);
    push_opt_row(&mut t, "URL", &url);
    t
}

/// The reply of `clotho_read_entity` for a resolved row (see
/// `entity_report_text`): `confidence` is its score as displayed,
/// `content` the text of its content file when that could be read, and
/// `relations` its outgoing and incoming relations when they were asked
/// for and could be fetched.
pub fn entity_report(r: &EntityRow, confidence: Option<String>, content: Option<String>, relations: Option<(Vec<Edge>, Vec<Edge>)>) -> (t: String)
    ensures
        t@ == entity_report_text(*r, match confidence { Some(c) => Some(c@), None => None },
            match content { Some(c) => Some(c@), None => None },
            match relations { Some((o, i)) => Some((o@, i@)), None => None }),
{
    let mut t = field_section(r, &confidence);
    let ghost a = t@;
    let ghost sec_c = match content { Some(ref c) => "\n---\n\n"@ + c@, None => Seq::<char>::empty() };
    match &content {
        Some(c) => {
            push_str(&mut t, "\n---\n\n");
            push_str(&mut t, c.as_str());
        },
        None => {},
    }
    assert(t@ =~= a + sec_c);
    let ghost b = t@;
    match &relations {
        Some((o, i)) => {
            let sec = relations_section(o, i);
            push_str(&mut t, sec.as_str());
        },
        None => {},
    }
    t
}

} // verus!
