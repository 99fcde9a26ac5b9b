//! The replies of the tools that list, read, change or remove entities,
//! relations, surfaces and processing records.
use vstd::prelude::*;

use crate::mcp::read_entity::{incoming_lines, outgoing_lines, Edge};
use crate::mcp::tools::{
    CheckProcessedTool, CreateRelationTool, MarkProcessedTool, PushSurfaceTool, SetWorkspaceTool, UpdateEntityTool,
};
use crate::mcp::create::{json_merged_text, merged_json};
use crate::mcp::workspace_resolver::set_workspace;
use crate::store::entities::EntityRow;
use crate::store::processing::ProcessingRecord;
use crate::store::surfaces::SurfaceRow;
use crate::store::types::{entity_type_name, opt_view, EntityType};
use crate::text::{byte_len, byte_prefix, cuttable, decimal, join_by, join_str, prefix_bytes, push_decimal, push_str, shorten, shortened, str_eq, strings_view, to_uppercase, uppercase};

verus! {

/// The view of an optional string, or `dflt` when absent.
pub open spec fn or_default(o: Option<String>, dflt: Seq<char>) -> Seq<char> {
    match o {
        Some(s) => s@,
        None => dflt,
    }
}

fn push_or(t: &mut String, o: &Option<String>, dflt: &str)
    ensures
        final(t)@ == old(t)@ + or_default(*o, dflt@),
{
    match o {
        Some(s) => push_str(t, s.as_str()),
        None => push_str(t, dflt),
    }
}

// ---------------------------------------------------------------------------
// Relations of an entity
// ---------------------------------------------------------------------------

/// The reply listing an entity's relations: a note when it has none;
/// else the outgoing and incoming tables (each when not empty) and the
/// counts.
pub open spec fn relations_listing_text(id: Seq<char>, out: Seq<Edge>, inc: Seq<Edge>) -> Seq<char> {
    if out.len() == 0 && inc.len() == 0 {
        "No relations for entity `"@ + id + "`"@
    } else {
        "## Relations for `"@ + byte_prefix(id, 8) + "`\n\n"@
            + (if out.len() > 0 { "### Outgoing\n\n| Relation | Target |\n|---|---|\n"@ + outgoing_lines(out) + "\n"@ } else { Seq::empty() })
            + (if inc.len() > 0 { "### Incoming\n\n| Source | Relation |\n|---|---|\n"@ + incoming_lines(inc) } else { Seq::empty() })
            + "\n"@ + decimal(out.len()) + " outgoing, "@ + decimal(inc.len()) + " incoming"@
    }
}

fn push_outgoing(t: &mut String, out: &Vec<Edge>)
    ensures
        final(t)@ == old(t)@ + outgoing_lines(out@),
{
    let ghost h = t@;
    let n = out.len();
    for i in 0..n
        invariant
            n == out@.len(),
            t@ == h + outgoing_lines(out@.take(i as int)),
    {
        assert(out@.take(i + 1).drop_last() =~= out@.take(i as int));
        push_str(t, "| ");
        push_str(t, out[i].relation.name());
        push_str(t, " | `");
        push_str(t, out[i].other.as_str());
        push_str(t, "` |\n");
    }
    assert(out@.take(n as int) =~= out@);
}

fn push_incoming(t: &mut String, inc: &Vec<Edge>)
    ensures
        final(t)@ == old(t)@ + incoming_lines(inc@),
{
    let ghost h = t@;
    let n = inc.len();
    for i in 0..n
        invariant
            n == inc@.len(),
            t@ == h + incoming_lines(inc@.take(i as int)),
    {
        assert(inc@.take(i + 1).drop_last() =~= inc@.take(i as int));
        push_str(t, "| `");
        push_str(t, inc[i].other.as_str());
        push_str(t, "` | ");
        push_str(t, inc[i].relation.name());
        push_str(t, " |\n");
    }
    assert(inc@.take(n as int) =~= inc@);
}

/// The reply listing an entity's relations (see `relations_listing_text`).
pub fn relations_listing(id: &str, out: &Vec<Edge>, inc: &Vec<Edge>) -> (t: String)
    requires
        out@.len() > 0 || inc@.len() > 0 ==> cuttable(id@, 8),
    ensures
        t@ == relations_listing_text(id@, out@, inc@),
{
    if out.len() == 0 && inc.len() == 0 {
        let mut t = "No relations for entity `".to_owned();
        push_str(&mut t, id);
        push_str(&mut t, "`");
        return t;
    }
    let mut t = "## Relations for `".to_owned();
    push_str(&mut t, prefix_bytes(id, 8).as_str());
    push_str(&mut t, "`\n\n");
    let ghost a = t@;
    if out.len() > 0 {
        push_str(&mut t, "### Outgoing\n\n| Relation | Target |\n|---|---|\n");
        push_outgoing(&mut t, out);
        push_str(&mut t, "\n");
    }
    let ghost b = t@;
    if inc.len() > 0 {
        push_str(&mut t, "### Incoming\n\n| Source | Relation |\n|---|---|\n");
        push_incoming(&mut t, inc);
    }
    let ghost c = t@;
    push_str(&mut t, "\n");
    push_decimal(&mut t, out.len());
    push_str(&mut t, " outgoing, ");
    push_decimal(&mut t, inc.len());
    push_str(&mut t, " incoming");
    t
}

// ---------------------------------------------------------------------------
// Entity listing
// ---------------------------------------------------------------------------

/// The status column of a listed entity: its task state, else its status,
/// else `-`.
pub open spec fn listed_status(r: EntityRow) -> Seq<char> {
    match r.task_state {
        Some(s) => s@,
        None => or_default(r.status, "-"@),
    }
}

/// The line of a listed entity.
pub open spec fn listed_line(r: EntityRow) -> Seq<char> {
    "| `"@ + shortened(r.id@, 8) + "...` | "@ + r.entity_type@ + " | "@ + r.title@ + " | "@ + listed_status(r) + " |\n"@
}

/// The lines of listed entities.
pub open spec fn listed_lines(rows: Seq<EntityRow>) -> Seq<char>
    decreases rows.len(),
{
    if rows.len() == 0 {
        Seq::empty()
    } else {
        listed_lines(rows.drop_last()) + listed_line(rows.last())
    }
}

/// The reply listing entities.
pub open spec fn entity_listing_text(rows: Seq<EntityRow>) -> Seq<char> {
    if rows.len() == 0 {
        "No entities found."@
    } else {
        "## Entities ("@ + decimal(rows.len()) + ")\n\n| ID | Type | Title | Status |\n|---|---|---|---|\n"@ + listed_lines(rows)
    }
}

/// Which listing a request asks for: by type, else by status, else by
/// task state, else everything (only the first filter given is used).
#[derive(Debug, PartialEq, Eq)]
pub enum EntityFilter {
    ByType(String),
    ByStatus(String),
    ByState(String),
    All,
}

/// The listing a request asks for (see `EntityFilter`).
pub fn entity_filter(entity_type: &Option<String>, status: &Option<String>, state: &Option<String>) -> (f: EntityFilter)
    ensures
        match *entity_type {
            Some(t) => f matches EntityFilter::ByType(x) && x@ == t@,
            None => match *status {
                Some(s) => f matches EntityFilter::ByStatus(x) && x@ == s@,
                None => match *state {
                    Some(s) => f matches EntityFilter::ByState(x) && x@ == s@,
                    None => f is All,
                },
            },
        },
{
    match entity_type {
        Some(t) => EntityFilter::ByType(t.clone()),
        None => match status {
            Some(s) => EntityFilter::ByStatus(s.clone()),
            None => match state {
                Some(s) => EntityFilter::ByState(s.clone()),
                None => EntityFilter::All,
            },
        },
    }
}

/// Whether every row's ID longer than 8 bytes can be cut to 8.
pub open spec fn ids_cut8(rows: Seq<EntityRow>) -> bool {
    forall|i: int| 0 <= i < rows.len() && byte_len(#[trigger] rows[i].id@) > 8 ==> cuttable(rows[i].id@, 8)
}

fn listed_line_text(r: &EntityRow) -> (l: String)
    requires
        byte_len(r.id@) > 8 ==> cuttable(r.id@, 8),
    ensures
        l@ == listed_line(*r),
{
    let mut l = "| `".to_owned();
    push_str(&mut l, shorten(r.id.as_str(), 8).as_str());
    push_str(&mut l, "...` | ");
    push_str(&mut l, r.entity_type.as_str());
    push_str(&mut l, " | ");
    push_str(&mut l, r.title.as_str());
    push_str(&mut l, " | ");
    match &r.task_state {
        Some(s) => push_str(&mut l, s.as_str()),
        None => push_or(&mut l, &r.status, "-"),
    }
    push_str(&mut l, " |\n");
    l
}

/// The reply listing entities (see `entity_listing_text`).
pub fn entity_listing(rows: &Vec<EntityRow>) -> (t: String)
    requires
        ids_cut8(rows@),
    ensures
        t@ == entity_listing_text(rows@),
{
    if rows.len() == 0 {
        return "No entities found.".to_owned();
    }
    let mut t = "## Entities (".to_owned();
    push_decimal(&mut t, rows.len());
    push_str(&mut t, ")\n\n| ID | Type | Title | Status |\n|---|---|---|---|\n");
    let ghost h = t@;
    let n = rows.len();
    for i in 0..n
        invariant
            n == rows@.len(),
            ids_cut8(rows@),
            t@ == h + listed_lines(rows@.take(i as int)),
    {
        assert(rows@.take(i + 1).drop_last() =~= rows@.take(i as int));
        assert(byte_len(rows@[i as int].id@) > 8 ==> cuttable(rows@[i as int].id@, 8));
        let line = listed_line_text(&rows[i]);
        push_str(&mut t, line.as_str());
    }
    assert(rows@.take(n as int) =~= rows@);
    t
}

// ---------------------------------------------------------------------------
// Full-text search
// ---------------------------------------------------------------------------

/// A search hit: the entity, its type and title, and the matching snippet.
#[derive(Debug, Clone)]
pub struct SearchHit {
    pub entity_id: String,
    pub entity_type: String,
    pub title: String,
    pub snippet: String,
}

/// The entry of the `i`-th hit.
pub open spec fn hit_entry(i: nat, h: SearchHit) -> Seq<char> {
    decimal(i + 1) + ". **["@ + h.entity_type@ + "]** "@ + h.title@ + "\n   "@ + h.snippet@ + "\n   ID: `"@ + h.entity_id@ + "`\n\n"@
}

/// The entries of the hits, numbered from 1.
pub open spec fn hit_entries(hs: Seq<SearchHit>) -> Seq<char>
    decreases hs.len(),
{
    if hs.len() == 0 {
        Seq::empty()
    } else {
        hit_entries(hs.drop_last()) + hit_entry((hs.len() - 1) as nat, hs.last())
    }
}

/// The reply to a search: the first `limit` hits (10 when not given).
pub open spec fn search_reply_text(query: Seq<char>, hits: Seq<SearchHit>, limit: Option<u32>) -> Seq<char> {
    let l = match limit { Some(n) => n as int, None => 10 };
    let shown = hits.take(if hits.len() < l { hits.len() as int } else { l });
    if shown.len() == 0 {
        "No results found for '"@ + query + "'."@
    } else {
        "## Search Results for \""@ + query + "\"\n\nFound "@ + decimal(shown.len()) + " results\n\n"@ + hit_entries(shown)
    }
}

fn hit_entry_text(i: usize, h: &SearchHit) -> (e: String)
    requires
        i < usize::MAX,
    ensures
        e@ == hit_entry(i as nat, *h),
{
    let mut e = String::new();
    push_decimal(&mut e, i + 1);
    push_str(&mut e, ". **[");
    push_str(&mut e, h.entity_type.as_str());
    push_str(&mut e, "]** ");
    push_str(&mut e, h.title.as_str());
    push_str(&mut e, "\n   ");
    push_str(&mut e, h.snippet.as_str());
    push_str(&mut e, "\n   ID: `");
    push_str(&mut e, h.entity_id.as_str());
    push_str(&mut e, "`\n\n");
    e
}

/// The reply to a search (see `search_reply_text`).
pub fn search_reply(query: &str, hits: &Vec<SearchHit>, limit: Option<u32>) -> (t: String)
    ensures
        t@ == search_reply_text(query@, hits@, limit),
{
    let l: usize = match limit {
        Some(n) => n as usize,
        None => 10,
    };
    let m = if hits.len() < l { hits.len() } else { l };
    if m == 0 {
        let mut t = "No results found for '".to_owned();
        push_str(&mut t, query);
        push_str(&mut t, "'.");
        return t;
    }
    let ghost shown = hits@.take(m as int);
    let mut t = "## Search Results for \"".to_owned();
    push_str(&mut t, query);
    push_str(&mut t, "\"\n\nFound ");
    push_decimal(&mut t, m);
    push_str(&mut t, " results\n\n");
    let ghost h = t@;
    for i in 0..m
        invariant
            m <= hits@.len(),
            shown == hits@.take(m as int),
            t@ == h + hit_entries(shown.take(i as int)),
    {
        assert(shown.take(i + 1).drop_last() =~= shown.take(i as int));
        assert(shown[i as int] == hits@[i as int]);
        let entry = hit_entry_text(i, &hits[i]);
        push_str(&mut t, entry.as_str());
    }
    assert(shown.take(m as int) =~= shown);
    t
}

// ---------------------------------------------------------------------------
// Surfaces
// ---------------------------------------------------------------------------

/// The line of a listed surface.
pub open spec fn surface_line(s: SurfaceRow) -> Seq<char> {
    "| `"@ + byte_prefix(s.id@, 8) + "` | "@ + s.title@ + " | "@ + or_default(s.surface_type, "-"@) + " | "@ + s.status@ + " | "@ + s.updated_at@ + " |\n"@
}

/// The lines of listed surfaces.
pub open spec fn surface_lines(ss: Seq<SurfaceRow>) -> Seq<char>
    decreases ss.len(),
{
    if ss.len() == 0 {
        Seq::empty()
    } else {
        surface_lines(ss.drop_last()) + surface_line(ss.last())
    }
}

/// The reply listing surfaces.
pub open spec fn surface_listing_text(ss: Seq<SurfaceRow>) -> Seq<char> {
    if ss.len() == 0 {
        "No surfaces found."@
    } else {
        "## Surfaces ("@ + decimal(ss.len()) + ")\n\n| ID | Title | Type | Status | Updated |\n|---|---|---|---|---|\n"@ + surface_lines(ss)
    }
}

/// Whether every surface's ID can be cut to 8 bytes.
pub open spec fn surface_ids_cuttable(ss: Seq<SurfaceRow>) -> bool {
    forall|i: int| 0 <= i < ss.len() ==> cuttable(#[trigger] ss[i].id@, 8)
}

fn surface_line_text(s: &SurfaceRow) -> (l: String)
    requires
        cuttable(s.id@, 8),
    ensures
        l@ == surface_line(*s),
{
    let mut l = "| `".to_owned();
    push_str(&mut l, prefix_bytes(s.id.as_str(), 8).as_str());
    push_str(&mut l, "` | ");
    push_str(&mut l, s.title.as_str());
    push_str(&mut l, " | ");
    push_or(&mut l, &s.surface_type, "-");
    push_str(&mut l, " | ");
    push_str(&mut l, s.status.as_str());
    push_str(&mut l, " | ");
    push_str(&mut l, s.updated_at.as_str());
    push_str(&mut l, " |\n");
    l
}

/// The reply listing surfaces (see `surface_listing_text`).
pub fn surface_listing(ss: &Vec<SurfaceRow>) -> (t: String)
    requires
        surface_ids_cuttable(ss@),
    ensures
        t@ == surface_listing_text(ss@),
{
    if ss.len() == 0 {
        return "No surfaces found.".to_owned();
    }
    let mut t = "## Surfaces (".to_owned();
    push_decimal(&mut t, ss.len());
    push_str(&mut t, ")\n\n| ID | Title | Type | Status | Updated |\n|---|---|---|---|---|\n");
    let ghost h = t@;
    let n = ss.len();
    for i in 0..n
        invariant
            n == ss@.len(),
            surface_ids_cuttable(ss@),
            t@ == h + surface_lines(ss@.take(i as int)),
    {
        assert(ss@.take(i + 1).drop_last() =~= ss@.take(i as int));
        assert(cuttable(ss@[i as int].id@, 8));
        let line = surface_line_text(&ss[i]);
        push_str(&mut t, line.as_str());
    }
    assert(ss@.take(n as int) =~= ss@);
    t
}

/// The status filter of a surface listing: the requested one, else
/// `active`.
pub fn surface_status_filter(status: &Option<String>) -> (s: String)
    ensures
        s@ == or_default(*status, "active"@),
{
    match status {
        Some(s) => s.clone(),
        None => "active".to_owned(),
    }
}

/// The reply when reading a surface, found by ID or else by title.
pub fn surface_reply(id_or_title: &str, found: &Option<SurfaceRow>) -> (t: String)
    ensures
        match *found {
            Some(s) => t@ == "## Surface: "@ + s.title@ + "\n\n| Field | Value |\n|---|---|\n| ID | `"@ + s.id@ + "` |\n| Type | "@
                + or_default(s.surface_type, "(none)"@) + " |\n| Status | "@ + s.status@ + " |\n| Updated | "@ + s.updated_at@
                + " |\n\n---\n\n"@ + s.content@,
            None => t@ == "Surface not found: `"@ + id_or_title@ + "`"@,
        },
{
    match found {
        Some(s) => {
            let mut t = "## Surface: ".to_owned();
            push_str(&mut t, s.title.as_str());
            push_str(&mut t, "\n\n| Field | Value |\n|---|---|\n| ID | `");
            push_str(&mut t, s.id.as_str());
            push_str(&mut t, "` |\n| Type | ");
            push_or(&mut t, &s.surface_type, "(none)");
            push_str(&mut t, " |\n| Status | ");
            push_str(&mut t, s.status.as_str());
            push_str(&mut t, " |\n| Updated | ");
            push_str(&mut t, s.updated_at.as_str());
            push_str(&mut t, " |\n\n---\n\n");
            push_str(&mut t, s.content.as_str());
            t
        },
        None => {
            let mut t = "Surface not found: `".to_owned();
            push_str(&mut t, id_or_title);
            push_str(&mut t, "`");
            t
        },
    }
}

impl PushSurfaceTool {
    /// The reply after pushing this surface, which the store saved as `s`.
    pub fn reply(&self, s: &SurfaceRow) -> (t: String)
        requires
            cuttable(s.id@, 8),
        ensures
            t@ == "## Surface "@ + (if self.replace { "pushed/replaced"@ } else { "pushed"@ })
                + "\n\n| Field | Value |\n|---|---|\n| ID | `"@ + byte_prefix(s.id@, 8) + "` |\n| Title | "@ + s.title@
                + " |\n| Type | "@ + or_default(s.surface_type, "(none)"@) + " |\n| Status | "@ + s.status@ + " |"@,
    {
        let mut t = "## Surface ".to_owned();
        if self.replace {
            push_str(&mut t, "pushed/replaced");
        } else {
            push_str(&mut t, "pushed");
        }
        push_str(&mut t, "\n\n| Field | Value |\n|---|---|\n| ID | `");
        push_str(&mut t, prefix_bytes(s.id.as_str(), 8).as_str());
        push_str(&mut t, "` |\n| Title | ");
        push_str(&mut t, s.title.as_str());
        push_str(&mut t, " |\n| Type | ");
        push_or(&mut t, &s.surface_type, "(none)");
        push_str(&mut t, " |\n| Status | ");
        push_str(&mut t, s.status.as_str());
        push_str(&mut t, " |");
        t
    }
}

// ---------------------------------------------------------------------------
// Processing records
// ---------------------------------------------------------------------------

/// The records of process `name`, or all when no name is given.
pub open spec fn records_named(hist: Seq<ProcessingRecord>, name: Option<String>) -> Seq<ProcessingRecord>
    decreases hist.len(),
{
    if hist.len() == 0 {
        Seq::empty()
    } else {
        let prev = records_named(hist.drop_last(), name);
        match name {
            Some(n) => if hist.last().process_name@ == n@ { prev.push(hist.last()) } else { prev },
            None => prev.push(hist.last()),
        }
    }
}

/// The line of a processing record.
pub open spec fn record_line(r: ProcessingRecord) -> Seq<char> {
    "| "@ + r.process_name@ + " | "@ + or_default(r.ontology_ids, "-"@) + " | "@ + or_default(r.processed_by, "-"@) + " | "@ + r.processed_at@ + " |\n"@
}

/// The lines of processing records.
pub open spec fn record_lines(rs: Seq<ProcessingRecord>) -> Seq<char>
    decreases rs.len(),
{
    if rs.len() == 0 {
        Seq::empty()
    } else {
        record_lines(rs.drop_last()) + record_line(rs.last())
    }
}

fn record_line_text(r: &ProcessingRecord) -> (l: String)
    ensures
        l@ == record_line(*r),
{
    let mut l = "| ".to_owned();
    push_str(&mut l, r.process_name.as_str());
    push_str(&mut l, " | ");
    push_or(&mut l, &r.ontology_ids, "-");
    push_str(&mut l, " | ");
    push_or(&mut l, &r.processed_by, "-");
    push_str(&mut l, " | ");
    push_str(&mut l, r.processed_at.as_str());
    push_str(&mut l, " |\n");
    l
}

impl CheckProcessedTool {
    /// The reply listing the entity's processing history, restricted to the
    /// requested process when one is named.
    pub fn reply(&self, history: &Vec<ProcessingRecord>) -> (t: String)
        requires
            cuttable(self.entity_id@, 8),
        ensures
            ({
                let rs = records_named(history@, self.process_name);
                if rs.len() == 0 {
                    t@ == "Entity `"@ + byte_prefix(self.entity_id@, 8) + "` has not been processed."@
                } else {
                    t@ == "## Processing History: `"@ + byte_prefix(self.entity_id@, 8)
                        + "`\n\n| Process | Ontologies | By | At |\n|---|---|---|---|\n"@ + record_lines(rs)
                }
            }),
    {
        let ghost rsv = records_named(history@, self.process_name);
        let mut lines = String::new();
        let mut count: usize = 0;
        let n = history.len();
        for i in 0..n
            invariant
                n == history@.len(),
                lines@ == record_lines(records_named(history@.take(i as int), self.process_name)),
                count == records_named(history@.take(i as int), self.process_name).len(),
                count <= i,
        {
            let ghost before = records_named(history@.take(i as int), self.process_name);
            assert(history@.take(i + 1).drop_last() =~= history@.take(i as int));
            assert(history@.take(i + 1).last() == history@[i as int]);
            let r = &history[i];
            let keep = match &self.process_name {
                Some(name) => str_eq(r.process_name.as_str(), name.as_str()),
                None => true,
            };
            if keep {
                assert(records_named(history@.take(i + 1), self.process_name) == before.push(history@[i as int]));
                assert(before.push(history@[i as int]).drop_last() =~= before);
                let line = record_line_text(r);
                push_str(&mut lines, line.as_str());
                count += 1;
            }
        }
        assert(history@.take(n as int) =~= history@);
        if count == 0 {
            let mut t = "Entity `".to_owned();
            push_str(&mut t, prefix_bytes(self.entity_id.as_str(), 8).as_str());
            push_str(&mut t, "` has not been processed.");
            return t;
        }
        let mut t = "## Processing History: `".to_owned();
        push_str(&mut t, prefix_bytes(self.entity_id.as_str(), 8).as_str());
        push_str(&mut t, "`\n\n| Process | Ontologies | By | At |\n|---|---|---|---|\n");
        push_str(&mut t, lines.as_str());
        t
    }
}

impl MarkProcessedTool {
    /// The reply after recording the run: whether it was new or had been
    /// recorded before.
    pub fn reply(&self, inserted: bool) -> (t: String)
        requires
            cuttable(self.entity_id@, 8),
        ensures
            inserted ==> t@ == "## Recorded\n\nMarked `"@ + byte_prefix(self.entity_id@, 8) + "` as processed by '"@ + self.process_name@ + "'"@,
            !inserted ==> t@ == "## Already Processed\n\n`"@ + byte_prefix(self.entity_id@, 8) + "` was already processed by '"@ + self.process_name@ + "' (skipped)"@,
    {
        let short = prefix_bytes(self.entity_id.as_str(), 8);
        if inserted {
            let mut t = "## Recorded\n\nMarked `".to_owned();
            push_str(&mut t, short.as_str());
            push_str(&mut t, "` as processed by '");
            push_str(&mut t, self.process_name.as_str());
            push_str(&mut t, "'");
            t
        } else {
            let mut t = "## Already Processed\n\n`".to_owned();
            push_str(&mut t, short.as_str());
            push_str(&mut t, "` was already processed by '");
            push_str(&mut t, self.process_name.as_str());
            push_str(&mut t, "' (skipped)");
            t
        }
    }
}

// ---------------------------------------------------------------------------
// Changing and removing entities
// ---------------------------------------------------------------------------

/// The string members an entity update sets in its metadata: `email`,
/// then `url`, each when given.
pub open spec fn update_metadata_pairs(email: Option<Seq<char>>, url: Option<Seq<char>>) -> Seq<(Seq<char>, Seq<char>)> {
    (match email { Some(e) => seq![("email"@, e)], None => Seq::empty() })
        + (match url { Some(u) => seq![("url"@, u)], None => Seq::empty() })
}

impl UpdateEntityTool {
    /// The row with the requested title, status and task state applied,
    /// stamped `now`; the other fields are unchanged.
    pub fn apply(&self, row: &mut EntityRow, now: &str)
        ensures
            final(row).title@ == or_default(self.title, old(row).title@),
            opt_view(final(row).status) == (match self.status { Some(s) => Some(s@), None => opt_view(old(row).status) }),
            opt_view(final(row).task_state) == (match self.state { Some(s) => Some(s@), None => opt_view(old(row).task_state) }),
            final(row).updated_at@ == now@,
            final(row).id == old(row).id,
            final(row).entity_type == old(row).entity_type,
            final(row).created_at == old(row).created_at,
            final(row).extraction_status == old(row).extraction_status,
            final(row).source_transcript_id == old(row).source_transcript_id,
            final(row).source_span_start == old(row).source_span_start,
            final(row).source_span_end == old(row).source_span_end,
            final(row).confidence == old(row).confidence,
            final(row).content_path == old(row).content_path,
            final(row).metadata == old(row).metadata,
    {
        match &self.title {
            Some(t) => row.title = t.clone(),
            None => {},
        }
        match &self.status {
            Some(s) => row.status = Some(s.clone()),
            None => {},
        }
        match &self.state {
            Some(s) => row.task_state = Some(s.clone()),
            None => {},
        }
        row.updated_at = now.to_owned();
    }

    /// The string members the update sets in the entity's metadata object,
    /// in order: `email`, then `url`, each when given. With none the
    /// metadata is left as it is; otherwise each is set (replacing a member
    /// of the same key) in the existing object, or in an empty one when the
    /// metadata is missing or not a JSON object.
    pub fn metadata_fields(&self) -> (v: Vec<(String, String)>)
        ensures
            v@.map_values(|p: (String, String)| (p.0@, p.1@)) == update_metadata_pairs(opt_view(self.email), opt_view(self.url)),
    {
        let mut v: Vec<(String, String)> = Vec::new();
        match &self.email {
            Some(e) => v.push(("email".to_owned(), e.clone())),
            None => {},
        }
        match &self.url {
            Some(u) => v.push(("url".to_owned(), u.clone())),
            None => {},
        }
        assert(v@.map_values(|p: (String, String)| (p.0@, p.1@)) =~= update_metadata_pairs(opt_view(self.email), opt_view(self.url)));
        v
    }

    /// The entity's metadata after the update, given its metadata before:
    /// unchanged when neither email nor URL is given; otherwise the JSON
    /// object of the existing metadata (an empty one when there is none or
    /// it is not a JSON object) with the fields of `metadata_fields` set.
    pub fn updated_metadata(&self, existing: &Option<String>) -> (m: Option<String>)
        ensures
            (self.email is None && self.url is None) ==> opt_view(m) == opt_view(*existing),
            !(self.email is None && self.url is None) ==> (m matches Some(t) && t@ == json_merged_text(
                opt_view(*existing),
                update_metadata_pairs(opt_view(self.email), opt_view(self.url)),
            )),
    {
        let fields = self.metadata_fields();
        assert(fields@.map_values(|p: (String, String)| (p.0@, p.1@)).len() == fields@.len());
        if fields.len() == 0 {
            return match existing {
                Some(e) => Some(e.clone()),
                None => None,
            };
        }
        let e: Option<&str> = match existing {
            Some(e) => Some(e.as_str()),
            None => None,
        };
        Some(merged_json(e, &fields))
    }

    /// The reply after the update of entity `id`.
    pub fn reply(&self, id: &str) -> (t: String)
        ensures
            t@ == "## Entity Updated\n\nUpdated `"@ + id@ + "`"@ + (if self.content is Some { " (content updated)"@ } else { Seq::empty() }),
    {
        let mut t = "## Entity Updated\n\nUpdated `".to_owned();
        push_str(&mut t, id);
        push_str(&mut t, "`");
        if self.content.is_some() {
            push_str(&mut t, " (content updated)");
        }
        t
    }
}

/// The row of an archived entity: inactive, stamped `now`.
pub fn archived(row: &EntityRow, now: &str) -> (r: EntityRow)
    ensures
        r.status matches Some(s) && s@ == "inactive"@,
        r.updated_at@ == now@,
        r.id@ == row.id@,
        r.entity_type@ == row.entity_type@,
        r.title@ == row.title@,
        r.created_at@ == row.created_at@,
        opt_view(r.task_state) == opt_view(row.task_state),
        opt_view(r.extraction_status) == opt_view(row.extraction_status),
        opt_view(r.source_transcript_id) == opt_view(row.source_transcript_id),
        r.source_span_start == row.source_span_start,
        r.source_span_end == row.source_span_end,
        r.confidence == row.confidence,
        opt_view(r.content_path) == opt_view(row.content_path),
        opt_view(r.metadata) == opt_view(row.metadata),
{
    EntityRow {
        id: row.id.clone(),
        entity_type: row.entity_type.clone(),
        title: row.title.clone(),
        created_at: row.created_at.clone(),
        updated_at: now.to_owned(),
        status: Some("inactive".to_owned()),
        task_state: clone_opt(&row.task_state),
        extraction_status: clone_opt(&row.extraction_status),
        source_transcript_id: clone_opt(&row.source_transcript_id),
        source_span_start: row.source_span_start,
        source_span_end: row.source_span_end,
        confidence: row.confidence,
        content_path: clone_opt(&row.content_path),
        metadata: clone_opt(&row.metadata),
    }
}

fn clone_opt(o: &Option<String>) -> (r: Option<String>)
    ensures
        opt_view(r) == opt_view(*o),
{
    match o {
        Some(s) => Some(s.clone()),
        None => None,
    }
}

/// The reply after archiving an entity.
pub fn archived_reply(row: &EntityRow) -> (t: String)
    requires
        cuttable(row.id@, 8),
    ensures
        t@ == "## Entity Archived\n\n`"@ + byte_prefix(row.id@, 8) + "` ("@ + row.entity_type@ + ") \u{2014} **"@ + row.title@
            + "** is now inactive.\nIt will be hidden from the TUI navigator but remains searchable."@,
{
    let mut t = "## Entity Archived\n\n`".to_owned();
    push_str(&mut t, prefix_bytes(row.id.as_str(), 8).as_str());
    push_str(&mut t, "` (");
    push_str(&mut t, row.entity_type.as_str());
    push_str(&mut t, ") \u{2014} **");
    push_str(&mut t, row.title.as_str());
    push_str(&mut t, "** is now inactive.\nIt will be hidden from the TUI navigator but remains searchable.");
    t
}

/// The reply after deleting an entity.
pub fn deleted_reply(title: &str, id: &str) -> (t: String)
    ensures
        t@ == "## Entity Deleted\n\nDeleted '"@ + title@ + "' (`"@ + id@ + "`)"@,
{
    let mut t = "## Entity Deleted\n\nDeleted '".to_owned();
    push_str(&mut t, title);
    push_str(&mut t, "' (`");
    push_str(&mut t, id);
    push_str(&mut t, "`)");
    t
}

/// The reply after ingesting a file as an entity.
pub fn ingested_reply(id: &str, t: EntityType, title: &str, content_path: &str) -> (s: String)
    ensures
        s@ == "## Ingested\n\n| Field | Value |\n|---|---|\n| ID | `"@ + id@ + "` |\n| Type | "@ + entity_type_name(t)
            + " |\n| Title | "@ + title@ + " |\n| Content | `"@ + content_path@ + "` |"@,
{
    let mut s = "## Ingested\n\n| Field | Value |\n|---|---|\n| ID | `".to_owned();
    push_str(&mut s, id);
    push_str(&mut s, "` |\n| Type | ");
    push_str(&mut s, t.name());
    push_str(&mut s, " |\n| Title | ");
    push_str(&mut s, title);
    push_str(&mut s, " |\n| Content | `");
    push_str(&mut s, content_path);
    push_str(&mut s, "` |");
    s
}

/// The reply after a sync: what was committed and pushed, and what was
/// pruned (only when pruning removed commits).
pub fn sync_reply(committed: bool, files_changed: usize, pushed: bool, pruned: Option<(usize, usize)>) -> (t: String)
    ensures
        t@ == (if committed { "## Synced\n\n"@ + decimal(files_changed as nat) + " files committed"@ } else { "## No Changes\n\nNothing to sync."@ })
            + (if pushed { "\nPushed to remote."@ } else { Seq::empty() })
            + match pruned {
                Some((n, keep)) => if n > 0 {
                    "\nPruned "@ + decimal(n as nat) + " commits (keeping "@ + decimal(keep as nat) + ")"@
                } else {
                    Seq::empty()
                },
                None => Seq::empty(),
            },
{
    let mut t = String::new();
    if committed {
        push_str(&mut t, "## Synced\n\n");
        push_decimal(&mut t, files_changed);
        push_str(&mut t, " files committed");
    } else {
        push_str(&mut t, "## No Changes\n\nNothing to sync.");
    }
    if pushed {
        push_str(&mut t, "\nPushed to remote.");
    }
    match pruned {
        Some((n, keep)) => {
            if n > 0 {
                push_str(&mut t, "\nPruned ");
                push_decimal(&mut t, n);
                push_str(&mut t, " commits (keeping ");
                push_decimal(&mut t, keep);
                push_str(&mut t, ")");
            }
        },
        None => {},
    }
    t
}


/// The reply after removing a relation: the two IDs cut to 8 bytes and the
/// relation word as requested, in uppercase.
pub fn relation_removed_reply(source_id: &str, relation_word: &str, target_id: &str) -> (t: String)
    requires
        cuttable(source_id@, 8),
        cuttable(target_id@, 8),
    ensures
        t@ == "## Relation Removed\n\nRemoved `"@ + byte_prefix(source_id@, 8) + "` -["@ + uppercase(relation_word@) + "]-> `"@
            + byte_prefix(target_id@, 8) + "`"@,
{
    let mut t = "## Relation Removed\n\nRemoved `".to_owned();
    push_str(&mut t, prefix_bytes(source_id, 8).as_str());
    push_str(&mut t, "` -[");
    push_str(&mut t, to_uppercase(relation_word).as_str());
    push_str(&mut t, "]-> `");
    push_str(&mut t, prefix_bytes(target_id, 8).as_str());
    push_str(&mut t, "`");
    t
}

/// The lines of a query result's rows: each row's values joined by ` | `.
pub open spec fn value_lines(rows: Seq<Seq<Seq<char>>>) -> Seq<char>
    decreases rows.len(),
{
    if rows.len() == 0 {
        Seq::empty()
    } else {
        value_lines(rows.drop_last()) + "| "@ + join_by(rows.last(), " | "@) + " |\n"@
    }
}

/// The reply to a graph query: a table of its columns and rows and the row
/// count, or a note that there is no result.
pub open spec fn query_table_text(columns: Seq<Seq<char>>, rows: Seq<Seq<Seq<char>>>) -> Seq<char> {
    if rows.len() == 0 {
        "No results."@
    } else {
        "## Query Results\n\n| "@ + join_by(columns, " | "@) + " |\n|"@ + join_by(Seq::new(columns.len(), |i: int| "---"@), "|"@)
            + "|\n"@ + value_lines(rows) + "\n"@ + decimal(rows.len()) + " rows"@
    }
}

/// The views of rows of strings.
pub open spec fn rows_view(rows: Seq<Vec<String>>) -> Seq<Seq<Seq<char>>> {
    rows.map_values(|r: Vec<String>| strings_view(r@))
}

/// The reply to a graph query (see `query_table_text`).
pub fn query_table(columns: &Vec<String>, rows: &Vec<Vec<String>>) -> (t: String)
    ensures
        t@ == query_table_text(strings_view(columns@), rows_view(rows@)),
{
    if rows.len() == 0 {
        return "No results.".to_owned();
    }
    let mut dashes: Vec<String> = Vec::new();
    for i in 0..columns.len()
        invariant
            strings_view(dashes@) =~= Seq::new(i as nat, |k: int| "---"@),
    {
        let ghost before = strings_view(dashes@);
        dashes.push("---".to_owned());
        assert(strings_view(dashes@) =~= before.push("---"@));
        assert(Seq::new((i + 1) as nat, |k: int| "---"@) =~= Seq::new(i as nat, |k: int| "---"@).push("---"@));
    }
    let mut t = "## Query Results\n\n| ".to_owned();
    push_str(&mut t, join_str(columns, " | ").as_str());
    push_str(&mut t, " |\n|");
    push_str(&mut t, join_str(&dashes, "|").as_str());
    push_str(&mut t, "|\n");
    let ghost h = t@;
    let ghost rv = rows_view(rows@);
    let n = rows.len();
    for i in 0..n
        invariant
            n == rows@.len(),
            rv == rows_view(rows@),
            t@ == h + value_lines(rv.take(i as int)),
    {
        assert(rv.take(i + 1).drop_last() =~= rv.take(i as int));
        assert(rv[i as int] == strings_view(rows@[i as int]@));
        push_str(&mut t, "| ");
        push_str(&mut t, join_str(&rows[i], " | ").as_str());
        push_str(&mut t, " |\n");
    }
    assert(rv.take(n as int) =~= rv);
    push_str(&mut t, "\n");
    push_decimal(&mut t, n);
    push_str(&mut t, " rows");
    t
}

/// The reply after initialising a workspace: the path of its root.
pub fn init_reply(root: &str) -> (t: String)
    ensures
        t@ == "## Workspace Initialized\n\nCreated Clotho workspace at `"@ + root@ + "`"@,
{
    let mut t = "## Workspace Initialized\n\nCreated Clotho workspace at `".to_owned();
    push_str(&mut t, root);
    push_str(&mut t, "`");
    t
}

impl SetWorkspaceTool {
    /// Make this path the session's workspace, given whether it holds a
    /// `.clotho` directory. Without one the request fails with a message
    /// naming the path and the session stays as it was; with one the
    /// session is set and the reply names the path.
    pub fn apply(&self, session: &mut Option<String>, has_workspace_dir: bool) -> (r: Result<String, String>)
        ensures
            !has_workspace_dir ==> (r matches Err(m) && m@ == "No .clotho/ directory found at "@ + self.path@
                && *final(session) == *old(session)),
            has_workspace_dir ==> (r matches Ok(t) && t@ == "## Workspace Set\n\nWorkspace path set to `"@ + self.path@ + "`"@
                && opt_view(*final(session)) == Some(self.path@)),
    {
        if !has_workspace_dir {
            let mut m = "No .clotho/ directory found at ".to_owned();
            push_str(&mut m, self.path.as_str());
            return Err(m);
        }
        set_workspace(session, self.path.clone());
        let mut t = "## Workspace Set\n\nWorkspace path set to `".to_owned();
        push_str(&mut t, self.path.as_str());
        push_str(&mut t, "`");
        Ok(t)
    }
}

impl CreateRelationTool {
    /// The reply after creating the relation: the two IDs cut to 8 bytes
    /// and the relation word as requested, in uppercase.
    pub fn reply(&self) -> (t: String)
        requires
            cuttable(self.source_id@, 8),
            cuttable(self.target_id@, 8),
        ensures
            t@ == "## Relation Created\n\n`"@ + byte_prefix(self.source_id@, 8) + "` -["@ + uppercase(self.relation_type@)
                + "]-> `"@ + byte_prefix(self.target_id@, 8) + "`"@,
    {
        let mut t = "## Relation Created\n\n`".to_owned();
        push_str(&mut t, prefix_bytes(self.source_id.as_str(), 8).as_str());
        push_str(&mut t, "` -[");
        push_str(&mut t, to_uppercase(self.relation_type.as_str()).as_str());
        push_str(&mut t, "]-> `");
        push_str(&mut t, prefix_bytes(self.target_id.as_str(), 8).as_str());
        push_str(&mut t, "`");
        t
    }
}

/// The reply to a batch of relations that holds none.
pub fn empty_batch_reply() -> (t: String)
    ensures
        t@ == "No relations provided."@,
{
    "No relations provided.".to_owned()
}

} // verus!
