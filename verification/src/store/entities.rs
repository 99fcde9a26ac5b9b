//! Entity rows as the entity database holds them, and the resolution of a
//! full or partial entity ID.
use vstd::prelude::*;

use crate::text::{from_chars, push_char, to_chars};

verus! {

/// A flat row representing an entity in the entity database.
///
/// `confidence` holds the IEEE-754 bit pattern of the extraction confidence
/// score (`f64::to_bits`), so that the row stays a value of plain integers
/// and strings.
#[derive(Debug)]
pub struct EntityRow {
    pub id: String,
    pub entity_type: String,
    pub title: String,
    pub created_at: String,
    pub updated_at: String,
    pub status: Option<String>,
    pub task_state: Option<String>,
    pub extraction_status: Option<String>,
    pub source_transcript_id: Option<String>,
    pub source_span_start: Option<i64>,
    pub source_span_end: Option<i64>,
    pub confidence: Option<u64>,
    pub content_path: Option<String>,
    pub metadata: Option<String>,
}

/// Result of resolving a potentially-partial entity ID.
#[derive(Debug)]
pub enum ResolveResult {
    /// Full UUID matched exactly.
    Exact(EntityRow),
    /// Prefix matched exactly one entity.
    Unique(EntityRow),
    /// Prefix matched multiple entities; the caller must handle it.
    Ambiguous(Vec<EntityRow>),
    /// Nothing matched.
    NotFound,
}

impl ResolveResult {
    /// Decide the resolution of an ID from the exact-match lookup and the
    /// rows whose ID starts with it: an exact match wins, then a single
    /// prefix match; several prefix matches are ambiguous.
    pub fn from_lookups(exact: Option<EntityRow>, prefix_matches: Vec<EntityRow>) -> (r: Self)
        ensures
            match exact {
                Some(row) => r == ResolveResult::Exact(row),
                None => if prefix_matches@.len() == 0 {
                    r == ResolveResult::NotFound
                } else if prefix_matches@.len() == 1 {
                    r == ResolveResult::Unique(prefix_matches@[0])
                } else {
                    r matches ResolveResult::Ambiguous(v) && v@ == prefix_matches@
                },
            },
    {
        match exact {
            Some(row) => ResolveResult::Exact(row),
            None => {
                let n = prefix_matches.len();
                if n == 0 {
                    ResolveResult::NotFound
                } else if n == 1 {
                    let mut m = prefix_matches;
                    let row = m.pop().unwrap();
                    ResolveResult::Unique(row)
                } else {
                    ResolveResult::Ambiguous(prefix_matches)
                }
            },
        }
    }
}

/// Whether `s` starts with `p`.
pub open spec fn starts_with(s: Seq<char>, p: Seq<char>) -> bool {
    p.len() <= s.len() && s.take(p.len() as int) == p
}

/// Whether `s` starts with `p`.
fn chars_start_with(s: &Vec<char>, p: &Vec<char>) -> (b: bool)
    ensures
        b == starts_with(s@, p@),
{
    if p.len() > s.len() {
        return false;
    }
    let mut i: usize = 0;
    while i < p.len()
        invariant
            p@.len() <= s@.len(),
            i <= p@.len(),
            forall|k: int| 0 <= k < i ==> s@[k] == p@[k],
        decreases p@.len() - i,
    {
        if s[i] != p[i] {
            assert(s@.take(p@.len() as int)[i as int] != p@[i as int]);
            return false;
        }
        i += 1;
    }
    assert(s@.take(p@.len() as int) =~= p@);
    true
}

proof fn lemma_filter_step(s: Seq<EntityRow>, x: EntityRow, f: spec_fn(EntityRow) -> bool)
    ensures
        s.push(x).filter(f) == if f(x) { s.filter(f).push(x) } else { s.filter(f) },
{
    reveal_with_fuel(Seq::<_>::filter, 1);
    assert(s.push(x).drop_last() =~= s);
}

/// The rows whose ID starts with `prefix`, in order. A `LIKE` query on
/// `like_prefix_pattern(prefix)` returns these and possibly more (it
/// folds ASCII case, and `%` or `_` in the prefix match any text), so its
/// rows are kept only when their ID truly starts with the prefix.
pub fn keep_prefixed(rows: Vec<EntityRow>, prefix: &str) -> (out: Vec<EntityRow>)
    ensures
        out@ == rows@.filter(|r: EntityRow| starts_with(r.id@, prefix@)),
{
    let ghost pred = |r: EntityRow| starts_with(r.id@, prefix@);
    let p = to_chars(prefix);
    let mut out: Vec<EntityRow> = Vec::new();
    let ghost all = rows@;
    reveal_with_fuel(Seq::<_>::filter, 1);
    assert(all.take(0) =~= Seq::<EntityRow>::empty());
    for r in it: rows.into_iter()
        invariant
            p@ == prefix@,
            pred == (|r: EntityRow| starts_with(r.id@, prefix@)),
            it.seq() == all,
            it.index() <= all.len(),
            out@ == all.take(it.index() as int).filter(pred),
    {
        let ghost idx = it.index();
        proof {
            assert(all.take(idx + 1) =~= all.take(idx as int).push(r));
            lemma_filter_step(all.take(idx as int), r, pred);
        }
        if chars_start_with(&to_chars(r.id.as_str()), &p) {
            out.push(r);
        }
    }
    assert(all.take(all.len() as int) =~= all);
    out
}

/// The SQL `LIKE` pattern for IDs that start with `prefix` (see
/// `keep_prefixed` for what else it matches).
pub fn like_prefix_pattern(prefix: &str) -> (p: String)
    ensures
        p@ == prefix@.push('%'),
{
    let mut p = from_chars(&to_chars(prefix));
    push_char(&mut p, '%');
    p
}

} // verus!
