//! The ontology tools: the changes an update makes to an entity's
//! ontology, and the replies of updates and searches.
use vstd::prelude::*;

use crate::mcp::replies::or_default;
use crate::mcp::tools::{SearchOntologyTool, UpdateOntologyTool};
use crate::store::ontology::{list_values, parse_list, OntologyEntry};
use crate::text::{byte_prefix, cuttable, decimal, prefix_bytes, push_decimal, push_str, strings_view};

verus! {

/// One change of an ontology update: add (or, when `add` is false,
/// remove) these values of the category.
#[derive(Debug)]
pub struct OntologyEdit {
    pub add: bool,
    pub category: &'static str,
    pub values: Vec<String>,
}

/// An edit as (add, category, values).
pub open spec fn edit_view(e: OntologyEdit) -> (bool, Seq<char>, Seq<Seq<char>>) {
    (e.add, e.category@, strings_view(e.values@))
}

/// The views of a sequence of edits.
pub open spec fn edits_view(s: Seq<OntologyEdit>) -> Seq<(bool, Seq<char>, Seq<Seq<char>>)> {
    s.map_values(|e: OntologyEdit| edit_view(e))
}

/// The edit a comma-separated list of the request makes, if it was given.
pub open spec fn opt_edit(add: bool, category: Seq<char>, list: Option<String>) -> Seq<(bool, Seq<char>, Seq<Seq<char>>)> {
    match list {
        Some(l) => seq![(add, category, list_values(l@))],
        None => Seq::empty(),
    }
}

/// The edits of an update, in the order they are applied: additions of
/// keywords, technical signals, social signals and people, then removals
/// of keywords and people; a list that is not given makes no edit.
pub open spec fn update_edits(t: UpdateOntologyTool) -> Seq<(bool, Seq<char>, Seq<Seq<char>>)> {
    opt_edit(true, "keyword"@, t.add_keywords)
        + opt_edit(true, "signal_technical"@, t.add_technical_signals)
        + opt_edit(true, "signal_social"@, t.add_social_signals)
        + opt_edit(true, "person"@, t.add_people)
        + opt_edit(false, "keyword"@, t.remove_keywords)
        + opt_edit(false, "person"@, t.remove_people)
}

/// The list was given in the request, and these are its values.
pub open spec fn given(list: Option<String>, values: Seq<Seq<char>>) -> bool {
    list matches Some(l) && values == list_values(l@)
}

/// Each list of an ontology update goes to its own category, and nowhere
/// else: added keywords to `keyword`, added technical signals to
/// `signal_technical`, added social signals to `signal_social`, added
/// people to `person`, removed keywords and people to removals of
/// `keyword` and `person`. Every edit comes from the list of its kind, and
/// every list that is given makes its edit.
pub proof fn law_edits_follow_request(t: UpdateOntologyTool)
    ensures
        forall|e: (bool, Seq<char>, Seq<Seq<char>>)| #[trigger] update_edits(t).contains(e) ==> {
            &&& (e.0 && e.1 == "keyword"@ ==> given(t.add_keywords, e.2))
            &&& (e.0 && e.1 == "signal_technical"@ ==> given(t.add_technical_signals, e.2))
            &&& (e.0 && e.1 == "signal_social"@ ==> given(t.add_social_signals, e.2))
            &&& (e.0 && e.1 == "person"@ ==> given(t.add_people, e.2))
            &&& (!e.0 && e.1 == "keyword"@ ==> given(t.remove_keywords, e.2))
            &&& (!e.0 && e.1 == "person"@ ==> given(t.remove_people, e.2))
            &&& (e.1 == "keyword"@ || e.1 == "person"@ || (e.0 && (e.1 == "signal_technical"@ || e.1
                == "signal_social"@)))
        },
        t.add_keywords matches Some(l) ==> update_edits(t).contains((true, "keyword"@, list_values(l@))),
        t.add_technical_signals matches Some(l) ==> update_edits(t).contains(
            (true, "signal_technical"@, list_values(l@)),
        ),
        t.add_social_signals matches Some(l) ==> update_edits(t).contains(
            (true, "signal_social"@, list_values(l@)),
        ),
        t.add_people matches Some(l) ==> update_edits(t).contains((true, "person"@, list_values(l@))),
        t.remove_keywords matches Some(l) ==> update_edits(t).contains((false, "keyword"@, list_values(l@))),
        t.remove_people matches Some(l) ==> update_edits(t).contains((false, "person"@, list_values(l@))),
{
    broadcast use vstd::seq_lib::group_seq_properties;

    reveal_strlit("keyword");
    reveal_strlit("signal_technical");
    reveal_strlit("signal_social");
    reveal_strlit("person");
    assert("keyword"@.len() == 7 && "signal_technical"@.len() == 16);
    assert("signal_social"@.len() == 13 && "person"@.len() == 6);
    let a = opt_edit(true, "keyword"@, t.add_keywords);
    let b = opt_edit(true, "signal_technical"@, t.add_technical_signals);
    let c = opt_edit(true, "signal_social"@, t.add_social_signals);
    let d = opt_edit(true, "person"@, t.add_people);
    let f = opt_edit(false, "keyword"@, t.remove_keywords);
    let g = opt_edit(false, "person"@, t.remove_people);
    assert(update_edits(t) == a + b + c + d + f + g);
    assert forall|e: (bool, Seq<char>, Seq<Seq<char>>)| #[trigger] update_edits(t).contains(e) implies {
        &&& (e.0 && e.1 == "keyword"@ ==> given(t.add_keywords, e.2))
        &&& (e.0 && e.1 == "signal_technical"@ ==> given(t.add_technical_signals, e.2))
        &&& (e.0 && e.1 == "signal_social"@ ==> given(t.add_social_signals, e.2))
        &&& (e.0 && e.1 == "person"@ ==> given(t.add_people, e.2))
        &&& (!e.0 && e.1 == "keyword"@ ==> given(t.remove_keywords, e.2))
        &&& (!e.0 && e.1 == "person"@ ==> given(t.remove_people, e.2))
        &&& (e.1 == "keyword"@ || e.1 == "person"@ || (e.0 && (e.1 == "signal_technical"@ || e.1
            == "signal_social"@)))
    } by {
        vstd::seq_lib::lemma_seq_concat_contains_all_elements(a + b + c + d + f, g, e);
        vstd::seq_lib::lemma_seq_concat_contains_all_elements(a + b + c + d, f, e);
        vstd::seq_lib::lemma_seq_concat_contains_all_elements(a + b + c, d, e);
        vstd::seq_lib::lemma_seq_concat_contains_all_elements(a + b, c, e);
        vstd::seq_lib::lemma_seq_concat_contains_all_elements(a, b, e);
        if a.contains(e) {
            assert(e == a[0]);
            assert(e.1 == "keyword"@);
            assert(given(t.add_keywords, e.2));
        } else if b.contains(e) {
            assert(e == b[0]);
            assert(e.1 == "signal_technical"@);
            assert(given(t.add_technical_signals, e.2));
        } else if c.contains(e) {
            assert(e == c[0]);
        } else if d.contains(e) {
            assert(e == d[0]);
        } else if f.contains(e) {
            assert(e == f[0]);
        } else {
            assert(g.contains(e));
            assert(e == g[0]);
        }
    }
    if t.add_keywords is Some {
        assert(a.contains(a[0]));
    }
    if t.add_technical_signals is Some {
        assert(b.contains(b[0]));
    }
    if t.add_social_signals is Some {
        assert(c.contains(c[0]));
    }
    if t.add_people is Some {
        assert(d.contains(d[0]));
    }
    if t.remove_keywords is Some {
        assert(f.contains(f[0]));
    }
    if t.remove_people is Some {
        assert(g.contains(g[0]));
    }
}

fn push_edit(v: &mut Vec<OntologyEdit>, add: bool, category: &'static str, list: &Option<String>)
    ensures
        edits_view(final(v)@) == edits_view(old(v)@) + opt_edit(add, category@, *list),
{
    let ghost before = edits_view(v@);
    match list {
        Some(l) => {
            let values = parse_list(l.as_str());
            v.push(OntologyEdit { add, category, values });
            assert(edits_view(v@) =~= before + seq![(add, category@, list_values(l@))]);
        },
        None => {
            assert(edits_view(v@) =~= before + Seq::<(bool, Seq<char>, Seq<Seq<char>>)>::empty());
        },
    }
}

impl UpdateOntologyTool {
    /// Who additions are recorded as made by: `added_by`, else `user`.
    pub fn author(&self) -> (a: &str)
        ensures
            a@ == or_default(self.added_by, "user"@),
    {
        match &self.added_by {
            Some(b) => b.as_str(),
            None => "user",
        }
    }

    /// The edits this update makes (see `update_edits`); each list is split
    /// at commas and each value trimmed.
    pub fn edits(&self) -> (v: Vec<OntologyEdit>)
        ensures
            edits_view(v@) == update_edits(*self),
    {
        let mut v: Vec<OntologyEdit> = Vec::new();
        assert(edits_view(v@) =~= Seq::<(bool, Seq<char>, Seq<Seq<char>>)>::empty());
        push_edit(&mut v, true, "keyword", &self.add_keywords);
        push_edit(&mut v, true, "signal_technical", &self.add_technical_signals);
        push_edit(&mut v, true, "signal_social", &self.add_social_signals);
        push_edit(&mut v, true, "person", &self.add_people);
        push_edit(&mut v, false, "keyword", &self.remove_keywords);
        push_edit(&mut v, false, "person", &self.remove_people);
        assert(edits_view(v@) =~= update_edits(*self));
        v
    }

    /// The reply after the update: the entity's ID cut to 8 bytes.
    pub fn reply(&self) -> (t: String)
        requires
            cuttable(self.entity_id@, 8),
        ensures
            t@ == "## Ontology Updated\n\nUpdated ontology for entity `"@ + byte_prefix(self.entity_id@, 8) + "`"@,
    {
        let mut t = "## Ontology Updated\n\nUpdated ontology for entity `".to_owned();
        push_str(&mut t, prefix_bytes(self.entity_id.as_str(), 8).as_str());
        push_str(&mut t, "`");
        t
    }
}

/// The table line of a matching entry: its entity's ID cut to 8 bytes,
/// its category and its value.
pub open spec fn entry_line(e: OntologyEntry) -> Seq<char> {
    "| `"@ + byte_prefix(e.entity_id@, 8) + "...` | "@ + e.category@ + " | "@ + e.value@ + " |\n"@
}

/// The table lines of the matching entries, in order.
pub open spec fn entry_lines(es: Seq<OntologyEntry>) -> Seq<char>
    decreases es.len(),
{
    if es.len() == 0 {
        Seq::empty()
    } else {
        entry_lines(es.drop_last()) + entry_line(es.last())
    }
}

/// The reply to an ontology search: a table of the matching entries and
/// their number, or a note that none matches.
pub open spec fn ontology_search_text(query: Seq<char>, es: Seq<OntologyEntry>) -> Seq<char> {
    if es.len() == 0 {
        "No ontology entries matching '"@ + query + "'."@
    } else {
        "## Ontology Search: '"@ + query + "'\n\n| Entity | Category | Value |\n|---|---|---|\n"@ + entry_lines(es)
            + "\n"@ + decimal(es.len()) + " matches"@
    }
}

fn entry_line_text(e: &OntologyEntry) -> (l: String)
    requires
        cuttable(e.entity_id@, 8),
    ensures
        l@ == entry_line(*e),
{
    let mut l = "| `".to_owned();
    push_str(&mut l, prefix_bytes(e.entity_id.as_str(), 8).as_str());
    push_str(&mut l, "...` | ");
    push_str(&mut l, e.category.as_str());
    push_str(&mut l, " | ");
    push_str(&mut l, e.value.as_str());
    push_str(&mut l, " |\n");
    l
}

impl SearchOntologyTool {
    /// The reply listing the entries that match this search (see
    /// `ontology_search_text`).
    pub fn reply(&self, results: &Vec<OntologyEntry>) -> (t: String)
        requires
            forall|i: int| 0 <= i < results@.len() ==> cuttable(#[trigger] results@[i].entity_id@, 8),
        ensures
            t@ == ontology_search_text(self.query@, results@),
    {
        let n = results.len();
        if n == 0 {
            let mut t = "No ontology entries matching '".to_owned();
            push_str(&mut t, self.query.as_str());
            push_str(&mut t, "'.");
            return t;
        }
        let mut lines = String::new();
        for i in 0..n
            invariant
                n == results@.len(),
                forall|k: int| 0 <= k < results@.len() ==> cuttable(#[trigger] results@[k].entity_id@, 8),
                lines@ == entry_lines(results@.take(i as int)),
        {
            assert(results@.take(i + 1).drop_last() =~= results@.take(i as int));
            let l = entry_line_text(&results[i]);
            push_str(&mut lines, l.as_str());
        }
        assert(results@.take(n as int) =~= results@);
        let mut t = "## Ontology Search: '".to_owned();
        push_str(&mut t, self.query.as_str());
        push_str(&mut t, "'\n\n| Entity | Category | Value |\n|---|---|---|\n");
        push_str(&mut t, lines.as_str());
        push_str(&mut t, "\n");
        push_decimal(&mut t, n);
        push_str(&mut t, " matches");
        t
    }
}

} // verus!
