//! Resolving a full or partial entity ID for a tool: the entity, or the
//! reply that explains why there is none. Ambiguity is surfaced, never
//! swallowed.
use vstd::prelude::*;

use crate::mcp::formatting::{error_result, ToolReply};
use crate::store::entities::{EntityRow, ResolveResult};
use crate::store::error::{error_message, StoreError};
use crate::text::{cuttable, byte_len, decimal, push_decimal, push_str, shorten, shortened};

verus! {

/// Whether every row's ID can be cut to its first `b` bytes when longer.
pub open spec fn ids_cuttable(rows: Seq<EntityRow>, b: int) -> bool {
    forall|i: int| 0 <= i < rows.len() && byte_len(#[trigger] rows[i].id@) > b ==> cuttable(rows[i].id@, b)
}

/// The table line of one candidate: its ID cut to 12 bytes, type, title.
pub open spec fn candidate_line(r: EntityRow) -> Seq<char> {
    "| `"@ + shortened(r.id@, 12) + "...` | "@ + r.entity_type@ + " | "@ + r.title@ + " |\n"@
}

/// The table lines of the candidates, in order.
pub open spec fn candidate_lines(rows: Seq<EntityRow>) -> Seq<char>
    decreases rows.len(),
{
    if rows.len() == 0 {
        Seq::empty()
    } else {
        candidate_lines(rows.drop_last()) + candidate_line(rows.last())
    }
}

/// The table that lists the entities an ambiguous prefix matches.
pub open spec fn ambiguous_table(input: Seq<char>, rows: Seq<EntityRow>) -> Seq<char> {
    "## Ambiguous ID\n\nPrefix `"@ + input + "` matches "@ + decimal(rows.len()) + " entities:\n\n| ID | Type | Title |\n|---|---|---|\n"@
        + candidate_lines(rows)
}

/// The table of the entities that an ambiguous prefix matches (see
/// `ambiguous_table`).
pub fn format_ambiguous_table(input: &str, rows: &Vec<EntityRow>) -> (t: String)
    requires
        ids_cuttable(rows@, 12),
    ensures
        t@ == ambiguous_table(input@, rows@),
{
    let mut t = "## Ambiguous ID\n\nPrefix `".to_owned();
    push_str(&mut t, input);
    push_str(&mut t, "` matches ");
    push_decimal(&mut t, rows.len());
    push_str(&mut t, " entities:\n\n| ID | Type | Title |\n|---|---|---|\n");
    let ghost head = t@;
    let n = rows.len();
    for i in 0..n
        invariant
            n == rows@.len(),
            t@ == head + candidate_lines(rows@.take(i as int)),
    {
        assert(rows@.take(i + 1).drop_last() =~= rows@.take(i as int));
        let row = &rows[i];
        push_str(&mut t, "| `");
        push_str(&mut t, shorten(row.id.as_str(), 12).as_str());
        push_str(&mut t, "...` | ");
        push_str(&mut t, row.entity_type.as_str());
        push_str(&mut t, " | ");
        push_str(&mut t, row.title.as_str());
        push_str(&mut t, " |\n");
    }
    assert(rows@.take(n as int) =~= rows@);
    t
}

/// Whether a resolution is for a read-only tool or a destructive one.
#[derive(Debug, Clone, Copy, PartialEq, Eq, Structural)]
pub enum Access {
    Read,
    Write,
}

/// The reply when a prefix is ambiguous: the table, then advice to use a
/// longer prefix; a destructive tool also says it refused. It is not
/// marked as an error.
pub open spec fn ambiguity_text(access: Access, input: Seq<char>, rows: Seq<EntityRow>) -> Seq<char> {
    ambiguous_table(input, rows) + match access {
        Access::Read => "\nUse a longer prefix to narrow down."@,
        Access::Write => "\n**Operation refused.** Use a longer prefix or the full UUID."@,
    }
}

/// What resolving `input` gives, from the store's lookup: an exact or
/// unique match gives its row; an ambiguous prefix gives the candidate table
/// (not marked as an error); no match gives an error naming the input; a
/// store failure gives an error with the store's message.
pub open spec fn resolution(access: Access, input: Seq<char>, lookup: Result<ResolveResult, StoreError>, r: Result<EntityRow, ToolReply>) -> bool {
    match lookup {
        Ok(ResolveResult::Exact(row)) => r == Ok::<EntityRow, ToolReply>(row),
        Ok(ResolveResult::Unique(row)) => r == Ok::<EntityRow, ToolReply>(row),
        Ok(ResolveResult::Ambiguous(rows)) => r matches Err(rep)
            && rep.text@ == ambiguity_text(access, input, rows@) && rep.is_error == Some(false),
        Ok(ResolveResult::NotFound) => r matches Err(rep)
            && rep.text@ == "Entity not found: `"@ + input + "`"@ && rep.is_error == Some(true),
        Err(e) => r matches Err(rep)
            && rep.text@ == "Store error: "@ + error_message(e) && rep.is_error == Some(true),
    }
}

/// The entity a resolution yields, or the reply for the caller: an exact
/// or unique match gives its row; an ambiguous prefix gives the candidate
/// table (not marked as an error); no match gives an error naming the
/// input; a store failure gives an error with the store's message.
pub fn resolve_reply(access: Access, input: &str, lookup: Result<ResolveResult, StoreError>) -> (r: Result<EntityRow, ToolReply>)
    requires
        lookup matches Ok(ResolveResult::Ambiguous(rows)) ==> ids_cuttable(rows@, 12),
    ensures
        resolution(access, input@, lookup, r),
{
    match lookup {
        Ok(ResolveResult::Exact(row)) => Ok(row),
        Ok(ResolveResult::Unique(row)) => Ok(row),
        Ok(ResolveResult::Ambiguous(rows)) => {
            let mut text = format_ambiguous_table(input, &rows);
            match access {
                Access::Read => push_str(&mut text, "\nUse a longer prefix to narrow down."),
                Access::Write => push_str(&mut text, "\n**Operation refused.** Use a longer prefix or the full UUID."),
            }
            Err(ToolReply { text, is_error: Some(false) })
        },
        Ok(ResolveResult::NotFound) => {
            let mut text = "Entity not found: `".to_owned();
            push_str(&mut text, input);
            push_str(&mut text, "`");
            Err(error_result(text))
        },
        Err(e) => {
            let mut text = "Store error: ".to_owned();
            push_str(&mut text, e.message().as_str());
            Err(error_result(text))
        },
    }
}

/// The entity that a read-only tool works on, from the store's lookup of
/// `input`: an ambiguous prefix answers with the candidates and advice to
/// narrow it (see `resolve_reply` with `Access::Read`).
pub fn resolve_for_read(input: &str, lookup: Result<ResolveResult, StoreError>) -> (r: Result<EntityRow, ToolReply>)
    requires
        lookup matches Ok(ResolveResult::Ambiguous(rows)) ==> ids_cuttable(rows@, 12),
    ensures
        resolution(Access::Read, input@, lookup, r),
{
    resolve_reply(Access::Read, input, lookup)
}

/// The entity that a destructive tool works on, from the store's lookup of
/// `input`: an ambiguous prefix refuses the operation (see `resolve_reply`
/// with `Access::Write`).
pub fn resolve_for_write(input: &str, lookup: Result<ResolveResult, StoreError>) -> (r: Result<EntityRow, ToolReply>)
    requires
        lookup matches Ok(ResolveResult::Ambiguous(rows)) ==> ids_cuttable(rows@, 12),
    ensures
        resolution(Access::Write, input@, lookup, r),
{
    resolve_reply(Access::Write, input, lookup)
}

} // verus!
