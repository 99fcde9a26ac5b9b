//! The MCP server's request routing: the tools it lists, and which tool
//! answers a call by name.
use vstd::prelude::*;

use crate::mcp::tool_lookup::{lemma_tool_word_round_trip, routed_tool};
use crate::mcp::tool_names::{is_routed, tool_name, tool_word, ToolKind};

verus! {

/// The MCP server handler.
#[derive(Debug)]
pub struct ClothoServerHandler;

impl ClothoServerHandler {
    /// A new handler.
    pub fn new() -> (h: Self) {
        ClothoServerHandler
    }
}

impl Default for ClothoServerHandler {
    fn default() -> (h: Self) {
        ClothoServerHandler::new()
    }
}

impl ClothoServerHandler {
    /// The tool that answers a call named `name` (see `routed_tool`);
    /// `None` is an unknown tool.
    pub fn route(&self, name: &str) -> (r: Option<ToolKind>)
        ensures
            r == routed_tool(name@),
    {
        let c = crate::text::to_chars(name);
        proof {
            reveal_strlit("clotho_");
        }
        if c.len() < 7 || !(c[0] == 'c' && c[1] == 'l' && c[2] == 'o' && c[3] == 't' && c[4] == 'h' && c[5] == 'o' && c[6] == '_') {
            proof {
                if name@.len() >= 7 && name@.take(7) == "clotho_"@ {
                    assert(name@.take(7)[0] == name@[0]);
                    assert(name@.take(7)[1] == name@[1]);
                    assert(name@.take(7)[2] == name@[2]);
                    assert(name@.take(7)[3] == name@[3]);
                    assert(name@.take(7)[4] == name@[4]);
                    assert(name@.take(7)[5] == name@[5]);
                    assert(name@.take(7)[6] == name@[6]);
                }
            }
            return None;
        }
        assert(name@.take(7) =~= "clotho_"@);
        let rest = crate::text::from_chars(&crate::text::splice_chars(&c, 0, 7, &Vec::new()));
        assert(rest@ =~= name@.skip(7));
        match ToolKind::for_word(rest.as_str()) {
            Some(k) => if k.is_routed() { Some(k) } else { None },
            None => None,
        }
    }
}

/// The tools the server lists, in order.
pub open spec fn listed_tools() -> Seq<ToolKind> {
    seq![
        ToolKind::SetWorkspace,
        ToolKind::Search,
        ToolKind::Query,
        ToolKind::ReadEntity,
        ToolKind::ListEntities,
        ToolKind::GetRelations,
        ToolKind::WorkspaceSummary,
        ToolKind::ListUnprocessed,
        ToolKind::Init,
        ToolKind::Capture,
        ToolKind::CaptureDirectory,
        ToolKind::CreateNote,
        ToolKind::CreateReflection,
        ToolKind::CreateEntity,
        ToolKind::UpdateEntity,
        ToolKind::DeleteEntity,
        ToolKind::ArchiveEntity,
        ToolKind::CreateRelation,
        ToolKind::BatchCreateRelations,
        ToolKind::DeleteRelation,
        ToolKind::Sync,
        ToolKind::GetOntology,
        ToolKind::UpdateOntology,
        ToolKind::SearchOntology,
        ToolKind::CheckProcessed,
        ToolKind::MarkProcessed,
        ToolKind::PushSurface,
        ToolKind::ReadSurface,
        ToolKind::ListSurfaces,
    ]
}

/// Registry of all Clotho MCP tools.
#[derive(Debug)]
pub struct ClothoTools;

impl ClothoTools {
    /// The tools the server lists, in order; each is listed under its name
    /// (`ToolKind::name`) with its description (`ToolKind::description`).
    pub fn tools() -> (v: Vec<ToolKind>)
        ensures
            v@ == listed_tools(),
    {
        let v = vec![
            ToolKind::SetWorkspace,
            ToolKind::Search,
            ToolKind::Query,
            ToolKind::ReadEntity,
            ToolKind::ListEntities,
            ToolKind::GetRelations,
            ToolKind::WorkspaceSummary,
            ToolKind::ListUnprocessed,
            ToolKind::Init,
            ToolKind::Capture,
            ToolKind::CaptureDirectory,
            ToolKind::CreateNote,
            ToolKind::CreateReflection,
            ToolKind::CreateEntity,
            ToolKind::UpdateEntity,
            ToolKind::DeleteEntity,
            ToolKind::ArchiveEntity,
            ToolKind::CreateRelation,
            ToolKind::BatchCreateRelations,
            ToolKind::DeleteRelation,
            ToolKind::Sync,
            ToolKind::GetOntology,
            ToolKind::UpdateOntology,
            ToolKind::SearchOntology,
            ToolKind::CheckProcessed,
            ToolKind::MarkProcessed,
            ToolKind::PushSurface,
            ToolKind::ReadSurface,
            ToolKind::ListSurfaces,
        ];
        assert(v@ =~= listed_tools());
        v
    }
}

/// Every tool the server lists can be called: a call under its name
/// reaches that tool.
pub proof fn law_listed_tools_are_routed(i: int)
    requires
        0 <= i < listed_tools().len(),
    ensures
        routed_tool(tool_name(listed_tools()[i])) == Some(listed_tools()[i]),
{
    let k = listed_tools()[i];
    assert(!(k is Ingest));
    law_routes_by_name(k);
}

/// Every routed tool is reached by a call under its own name, and a call
/// under the name of a tool that is not routed reaches no tool.
pub proof fn law_routes_by_name(k: ToolKind)
    ensures
        routed_tool(tool_name(k)) == (if is_routed(k) { Some(k) } else { None }),
{
    lemma_tool_word_round_trip(k);
    reveal_strlit("clotho_");
    assert(tool_name(k).take(7) =~= "clotho_"@);
    assert(tool_name(k).skip(7) =~= tool_word(k));
}

} // verus!
