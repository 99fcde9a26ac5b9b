//! Extraction ontologies: per program or responsibility, the keywords,
//! signal types and people that extraction looks for, grouped by category.
use vstd::prelude::*;

use crate::text::{join_by, join_str, push_str, split_chars, split_on, str_eq, strings_view, to_chars, trim, trim_chars, from_chars};

verus! {

/// A single ontology entry.
#[derive(Debug, Clone)]
pub struct OntologyEntry {
    pub id: i64,
    pub entity_id: String,
    pub category: String,
    pub value: String,
    pub added_at: String,
    pub added_by: Option<String>,
}

/// The full ontology for an entity, grouped by category.
#[derive(Debug, Clone)]
pub struct Ontology {
    pub entity_id: String,
    pub keywords: Vec<String>,
    pub signal_technical: Vec<String>,
    pub signal_social: Vec<String>,
    pub people: Vec<String>,
    pub ignore: Vec<String>,
}

/// The values of the (category, value) rows whose category is `cat`, in
/// row order.
pub open spec fn values_in(rows: Seq<(Seq<char>, Seq<char>)>, cat: Seq<char>) -> Seq<Seq<char>>
    decreases rows.len(),
{
    if rows.len() == 0 {
        Seq::empty()
    } else if rows.last().0 == cat {
        values_in(rows.drop_last(), cat).push(rows.last().1)
    } else {
        values_in(rows.drop_last(), cat)
    }
}

/// The (category, value) pairs of rows of strings.
pub open spec fn pairs_view(rows: Seq<(String, String)>) -> Seq<(Seq<char>, Seq<char>)> {
    rows.map_values(|r: (String, String)| (r.0@, r.1@))
}

/// The values a comma-separated list names, each trimmed.
pub open spec fn list_values(list: Seq<char>) -> Seq<Seq<char>> {
    split_on(list, ',').map_values(|v: Seq<char>| trim(v))
}

/// The text that describes an ontology: a heading with the entity's title
/// and type, then each non-empty group of keywords, technical signals,
/// social signals and people, or a note that none is configured.
pub open spec fn ontology_text(title: Seq<char>, entity_type: Seq<char>, kw: Seq<Seq<char>>, tech: Seq<Seq<char>>, social: Seq<Seq<char>>, people: Seq<Seq<char>>) -> Seq<char> {
    "## Ontology: "@ + title + " ("@ + entity_type + ")\n\n"@
        + group_text("**Keywords:** "@, kw)
        + group_text("**Technical signals:** "@, tech)
        + group_text("**Social signals:** "@, social)
        + group_text("**Involved people:** "@, people)
        + (if kw.len() == 0 && tech.len() == 0 && social.len() == 0 && people.len() == 0 {
            "No ontology configured yet."@
        } else {
            Seq::empty()
        })
}

/// The values of the rows in category `cat`.
fn collect_category(rows: &Vec<(String, String)>, cat: &str) -> (v: Vec<String>)
    ensures
        strings_view(v@) == values_in(pairs_view(rows@), cat@),
{
    let ghost pv = pairs_view(rows@);
    let mut v: Vec<String> = Vec::new();
    let n = rows.len();
    for i in 0..n
        invariant
            n == rows@.len(),
            pv == pairs_view(rows@),
            strings_view(v@) == values_in(pv.take(i as int), cat@),
    {
        assert(pv.take(i + 1).drop_last() =~= pv.take(i as int));
        if str_eq(rows[i].0.as_str(), cat) {
            v.push(rows[i].1.clone());
            assert(strings_view(v@) =~= values_in(pv.take(i as int), cat@).push(pv[i as int].1));
        }
    }
    assert(pv.take(n as int) =~= pv);
    v
}

/// The line of a group of values, when there is any: the label, the
/// values joined by `, `, and a blank line.
pub open spec fn group_text(label: Seq<char>, vs: Seq<Seq<char>>) -> Seq<char> {
    if vs.len() > 0 {
        label + join_by(vs, ", "@) + "\n\n"@
    } else {
        Seq::empty()
    }
}

fn push_group(t: &mut String, label: &str, vs: &Vec<String>)
    ensures
        final(t)@ == old(t)@ + group_text(label@, strings_view(vs@)),
{
    if vs.len() > 0 {
        push_str(t, label);
        push_str(t, join_str(vs, ", ").as_str());
        push_str(t, "\n\n");
    }
}

impl Ontology {
    /// The ontology of `entity_id` from its (category, value) rows: each
    /// group holds, in row order, the values of its category (`keyword`,
    /// `signal_technical`, `signal_social`, `person`, `ignore`); rows of
    /// other categories are dropped.
    pub fn from_rows(entity_id: &str, rows: &Vec<(String, String)>) -> (o: Ontology)
        ensures
            o.entity_id@ == entity_id@,
            strings_view(o.keywords@) == values_in(pairs_view(rows@), "keyword"@),
            strings_view(o.signal_technical@) == values_in(pairs_view(rows@), "signal_technical"@),
            strings_view(o.signal_social@) == values_in(pairs_view(rows@), "signal_social"@),
            strings_view(o.people@) == values_in(pairs_view(rows@), "person"@),
            strings_view(o.ignore@) == values_in(pairs_view(rows@), "ignore"@),
    {
        Ontology {
            entity_id: entity_id.to_owned(),
            keywords: collect_category(rows, "keyword"),
            signal_technical: collect_category(rows, "signal_technical"),
            signal_social: collect_category(rows, "signal_social"),
            people: collect_category(rows, "person"),
            ignore: collect_category(rows, "ignore"),
        }
    }

    /// The description of this ontology for an entity (see
    /// `ontology_text`).
    pub fn describe(&self, title: &str, entity_type: &str) -> (t: String)
        ensures
            t@ == ontology_text(title@, entity_type@, strings_view(self.keywords@),
                strings_view(self.signal_technical@), strings_view(self.signal_social@),
                strings_view(self.people@)),
    {
        let mut t = "## Ontology: ".to_owned();
        push_str(&mut t, title);
        push_str(&mut t, " (");
        push_str(&mut t, entity_type);
        push_str(&mut t, ")\n\n");
        push_group(&mut t, "**Keywords:** ", &self.keywords);
        push_group(&mut t, "**Technical signals:** ", &self.signal_technical);
        push_group(&mut t, "**Social signals:** ", &self.signal_social);
        push_group(&mut t, "**Involved people:** ", &self.people);
        if self.keywords.len() == 0 && self.signal_technical.len() == 0
            && self.signal_social.len() == 0 && self.people.len() == 0 {
            push_str(&mut t, "No ontology configured yet.");
        }
        t
    }
}

/// The values a comma-separated list names, each trimmed (as added to or
/// removed from an ontology).
pub fn parse_list(list: &str) -> (v: Vec<String>)
    ensures
        strings_view(v@) == list_values(list@),
{
    let parts = split_chars(&to_chars(list), ',');
    let ghost pv = strings_view(parts@);
    let mut v: Vec<String> = Vec::new();
    let n = parts.len();
    for i in 0..n
        invariant
            n == parts@.len(),
            pv == strings_view(parts@),
            pv == split_on(list@, ','),
            strings_view(v@) =~= pv.take(i as int).map_values(|x: Seq<char>| trim(x)),
    {
        let t = trim_chars(&to_chars(parts[i].as_str()));
        let ghost before = strings_view(v@);
        v.push(from_chars(&t));
        assert(pv[i as int] == parts@[i as int]@);
        assert(strings_view(v@) =~= before.push(trim(pv[i as int])));
        assert(pv.take(i + 1).map_values(|x: Seq<char>| trim(x)) =~= pv.take(i as int).map_values(
            |x: Seq<char>| trim(x),
        ).push(trim(pv[i as int])));
    }
    assert(pv.take(n as int) =~= pv);
    v
}

} // verus!
