//! The navigator: entities grouped by type, with expandable groups, a
//! cursor over the visible lines, and a search mode.
use vstd::prelude::*;

use crate::store::entities::EntityRow;
use crate::text::{
    chars_eq, contains, decimal, find_chars, from_chars, lowercase, push_char, push_decimal,
    push_str, seq_lt, splice_str, str_eq, str_lt, to_chars, to_lowercase,
    lemma_seq_lt_trichotomy, lemma_seq_lt_transitive,
};

verus! {

/// A group of entities in the navigator tree.
#[derive(Debug)]
pub struct EntityGroup {
    pub entity_type: String,
    pub entities: Vec<EntityRow>,
    pub expanded: bool,
}

/// Lines a group takes on screen: its header, and its entities when expanded.
pub open spec fn group_size(g: EntityGroup) -> int {
    1 + if g.expanded { g.entities@.len() as int } else { 0 }
}

/// Number of visible lines (group headers plus entities of expanded groups).
pub open spec fn visible_total(groups: Seq<EntityGroup>) -> int
    decreases groups.len(),
{
    if groups.len() == 0 {
        0
    } else {
        group_size(groups[0]) + visible_total(groups.drop_first())
    }
}

/// Number of lines with every group expanded; bounds `visible_total`.
pub open spec fn full_total(groups: Seq<EntityGroup>) -> int
    decreases groups.len(),
{
    if groups.len() == 0 {
        0
    } else {
        1 + groups[0].entities@.len() + full_total(groups.drop_first())
    }
}

/// The visible line at `cursor`: `(group, None)` for a group header,
/// `(group, Some(entity))` for an entity line, `None` past the last line.
pub open spec fn resolve(groups: Seq<EntityGroup>, cursor: int) -> Option<(int, Option<int>)>
    decreases groups.len(),
{
    if groups.len() == 0 {
        None
    } else if cursor == 0 {
        Some((0, None))
    } else if cursor < group_size(groups[0]) {
        Some((0, Some(cursor - 1)))
    } else {
        match resolve(groups.drop_first(), cursor - group_size(groups[0])) {
            Some((g, e)) => Some((g + 1, e)),
            None => None,
        }
    }
}

/// The mathematical value of a resolved cursor position.
pub open spec fn resolution_view(r: Option<(usize, Option<usize>)>) -> Option<(int, Option<int>)> {
    match r {
        Some((g, Some(e))) => Some((g as int, Some(e as int))),
        Some((g, None)) => Some((g as int, None)),
        None => None,
    }
}

/// A resolved position names an existing group (and an entity of it, shown
/// because the group is expanded); positions resolve exactly below the
/// number of visible lines.
pub proof fn lemma_resolve(groups: Seq<EntityGroup>, cursor: int)
    requires
        cursor >= 0,
    ensures
        resolve(groups, cursor) is Some <==> cursor < visible_total(groups),
        resolve(groups, cursor) matches Some((g, e)) ==> {
            &&& 0 <= g < groups.len()
            &&& e matches Some(x) ==> groups[g].expanded && 0 <= x < groups[g].entities@.len()
        },
        visible_total(groups) >= 0,
        visible_total(groups) <= full_total(groups),
    decreases groups.len(),
{
    if groups.len() > 0 {
        if cursor >= group_size(groups[0]) {
            lemma_resolve(groups.drop_first(), cursor - group_size(groups[0]));
            let r = resolve(groups.drop_first(), cursor - group_size(groups[0]));
            if r is Some {
                let (g, e) = r->0;
                assert(groups.drop_first()[g] == groups[g + 1]);
            }
        } else {
            lemma_resolve(groups.drop_first(), 0);
        }
    }
}

/// The groups with group `g` expanded if it was collapsed, and collapsed
/// if it was expanded.
pub open spec fn flip_group(groups: Seq<EntityGroup>, g: int) -> Seq<EntityGroup> {
    groups.update(g, EntityGroup { expanded: !groups[g].expanded, ..groups[g] })
}

/// Flipping a group leaves its header where it was.
proof fn lemma_header_stays(groups: Seq<EntityGroup>, cursor: int, g: int)
    requires
        cursor >= 0,
        resolve(groups, cursor) == Some::<(int, Option<int>)>((g, None)),
    ensures
        resolve(flip_group(groups, g), cursor) == Some::<(int, Option<int>)>((g, None)),
    decreases groups.len(),
{
    lemma_resolve(groups, cursor);
    let f = flip_group(groups, g);
    if cursor == 0 {
    } else {
        assert(cursor >= group_size(groups[0]));
        lemma_resolve(groups.drop_first(), cursor - group_size(groups[0]));
        let rest = resolve(groups.drop_first(), cursor - group_size(groups[0]));
        assert(rest == Some::<(int, Option<int>)>((g - 1, None)));
        assert(g >= 1);
        assert(f[0] == groups[0]);
        assert(f.drop_first() =~= flip_group(groups.drop_first(), g - 1));
        lemma_header_stays(groups.drop_first(), cursor - group_size(groups[0]), g - 1);
    }
}

/// Toggling a group header twice gives back the groups as they were: the
/// first toggle flips the group and leaves the cursor on its header, so the
/// second flips it back.
pub proof fn law_toggle_header_twice(groups: Seq<EntityGroup>, cursor: int)
    requires
        cursor >= 0,
        resolve(groups, cursor) matches Some((g, None)),
    ensures
        resolve(groups, cursor) matches Some((g, None)) ==> {
            &&& cursor < visible_total(flip_group(groups, g))
            &&& resolve(flip_group(groups, g), cursor) == Some::<(int, Option<int>)>((g, None))
            &&& flip_group(flip_group(groups, g), g) == groups
        },
{
    let (g, _) = resolve(groups, cursor)->0;
    lemma_resolve(groups, cursor);
    lemma_header_stays(groups, cursor, g);
    lemma_resolve(flip_group(groups, g), cursor);
    assert(flip_group(flip_group(groups, g), g) =~= groups);
}

/// The visible total of the groups from `i` on is the size of group `i` plus
/// that of the groups after it.
proof fn lemma_skip_step(groups: Seq<EntityGroup>, i: int)
    requires
        0 <= i < groups.len(),
    ensures
        groups.skip(i).drop_first() == groups.skip(i + 1),
        groups.skip(i)[0] == groups[i],
        visible_total(groups.skip(i)) == group_size(groups[i]) + visible_total(groups.skip(i + 1)),
        full_total(groups.skip(i)) == 1 + groups[i].entities@.len() + full_total(groups.skip(i + 1)),
{
    assert(groups.skip(i).drop_first() =~= groups.skip(i + 1));
}

/// The search matches an entity when the (lowercased) query is empty or
/// occurs in the lowercased title or group type.
pub open spec fn entity_matches(g: EntityGroup, ei: int, q: Seq<char>) -> bool {
    q.len() == 0 || contains(lowercase(g.entities@[ei].title@), q) || contains(
        lowercase(g.entity_type@),
        q,
    )
}

/// Matches of a group from entity `ei` on, as (group, entity) indices.
pub open spec fn group_matches(g: EntityGroup, gi: int, q: Seq<char>, ei: int) -> Seq<(usize, usize)>
    decreases g.entities@.len() - ei,
{
    if ei < 0 || ei >= g.entities@.len() {
        Seq::empty()
    } else {
        (if entity_matches(g, ei, q) {
            seq![(gi as usize, ei as usize)]
        } else {
            Seq::empty()
        }) + group_matches(g, gi, q, ei + 1)
    }
}

/// Matches of the groups from `gi` on, in group order then entity order.
pub open spec fn search_matches(groups: Seq<EntityGroup>, q: Seq<char>, gi: int) -> Seq<(usize, usize)>
    decreases groups.len() - gi,
{
    if gi < 0 || gi >= groups.len() {
        Seq::empty()
    } else {
        group_matches(groups[gi], gi, q, 0) + search_matches(groups, q, gi + 1)
    }
}

/// The matches of a group from entity `e0` on are the pairs of this group
/// whose entity, from `e0` on, matches.
proof fn lemma_group_matches(g: EntityGroup, gi: int, q: Seq<char>, e0: int)
    requires
        0 <= gi <= usize::MAX,
        g.entities@.len() <= usize::MAX,
        0 <= e0,
    ensures
        forall|x: (usize, usize)| #[trigger] group_matches(g, gi, q, e0).contains(x) <==> (x.0 as int == gi && e0
            <= x.1 < g.entities@.len() && entity_matches(g, x.1 as int, q)),
    decreases g.entities@.len() - e0,
{
    broadcast use vstd::seq_lib::group_seq_properties;

    if e0 < g.entities@.len() {
        lemma_group_matches(g, gi, q, e0 + 1);
        let head = if entity_matches(g, e0, q) { seq![(gi as usize, e0 as usize)] } else { Seq::<(usize, usize)>::empty() };
        let rest = group_matches(g, gi, q, e0 + 1);
        assert forall|x: (usize, usize)| #[trigger] group_matches(g, gi, q, e0).contains(x) <==> (x.0 as int == gi
            && e0 <= x.1 < g.entities@.len() && entity_matches(g, x.1 as int, q)) by {
            vstd::seq_lib::lemma_seq_concat_contains_all_elements(head, rest, x);
            if x.0 as int == gi && x.1 as int == e0 && entity_matches(g, e0, q) {
                assert(head[0] == x);
            }
            if head.contains(x) {
                let j = choose|j: int| 0 <= j < head.len() && head[j] == x;
                assert(head[j] == (gi as usize, e0 as usize));
            }
        }
    } else {
        assert forall|x: (usize, usize)| #[trigger] group_matches(g, gi, q, e0).contains(x) implies false by {
            assert(group_matches(g, gi, q, e0) =~= Seq::<(usize, usize)>::empty());
        }
    }
}

/// The matches of the groups from `g0` on are the pairs of those groups
/// whose entity matches.
proof fn lemma_search_matches(groups: Seq<EntityGroup>, q: Seq<char>, g0: int)
    requires
        groups.len() <= usize::MAX,
        forall|j: int| 0 <= j < groups.len() ==> (#[trigger] groups[j]).entities@.len() <= usize::MAX,
        0 <= g0,
    ensures
        forall|x: (usize, usize)| #[trigger] search_matches(groups, q, g0).contains(x) <==> (g0 <= x.0
            < groups.len() && x.1 < groups[x.0 as int].entities@.len() && entity_matches(
            groups[x.0 as int],
            x.1 as int,
            q,
        )),
    decreases groups.len() - g0,
{
    if g0 < groups.len() {
        lemma_search_matches(groups, q, g0 + 1);
        lemma_group_matches(groups[g0], g0, q, 0);
        let head = group_matches(groups[g0], g0, q, 0);
        let rest = search_matches(groups, q, g0 + 1);
        assert forall|x: (usize, usize)| #[trigger] search_matches(groups, q, g0).contains(x) <==> (g0 <= x.0
            < groups.len() && x.1 < groups[x.0 as int].entities@.len() && entity_matches(
            groups[x.0 as int],
            x.1 as int,
            q,
        )) by {
            vstd::seq_lib::lemma_seq_concat_contains_all_elements(head, rest, x);
            assert(head.contains(x) == (x.0 as int == g0 && 0 <= x.1 < groups[g0].entities@.len() && entity_matches(
                groups[g0],
                x.1 as int,
                q,
            )));
            assert(rest.contains(x) == (g0 + 1 <= x.0 < groups.len() && x.1 < groups[x.0 as int].entities@.len()
                && entity_matches(groups[x.0 as int], x.1 as int, q)));
        }
    } else {
        assert forall|x: (usize, usize)| #[trigger] search_matches(groups, q, g0).contains(x) implies false by {
            assert(search_matches(groups, q, g0) =~= Seq::<(usize, usize)>::empty());
        }
    }
}

/// The search finds exactly the entities whose lowercased title, or the
/// lowercased type of whose group, holds the (lowercased) query, and every
/// entity when the query is empty: a pair (group, entity) is among the
/// results just when that holds, and every result names an entity.
pub proof fn law_search_finds(groups: Seq<EntityGroup>, q: Seq<char>, gi: int, ei: int)
    requires
        groups.len() <= usize::MAX,
        forall|j: int| 0 <= j < groups.len() ==> (#[trigger] groups[j]).entities@.len() <= usize::MAX,
    ensures
        0 <= gi < groups.len() && 0 <= ei < groups[gi].entities@.len() ==> (search_matches(groups, q, 0).contains(
            (gi as usize, ei as usize),
        ) <==> (q.len() == 0 || contains(lowercase(groups[gi].entities@[ei].title@), q) || contains(
            lowercase(groups[gi].entity_type@),
            q,
        ))),
        forall|k: int| 0 <= k < search_matches(groups, q, 0).len() ==> {
            let x = #[trigger] search_matches(groups, q, 0)[k];
            x.0 < groups.len() && x.1 < groups[x.0 as int].entities@.len()
        },
{
    lemma_search_matches(groups, q, 0);
    if 0 <= gi < groups.len() && 0 <= ei < groups[gi].entities@.len() {
        let x = (gi as usize, ei as usize);
        assert(x.0 as int == gi && x.1 as int == ei);
    }
    assert forall|k: int| 0 <= k < search_matches(groups, q, 0).len() implies {
        let x = #[trigger] search_matches(groups, q, 0)[k];
        x.0 < groups.len() && x.1 < groups[x.0 as int].entities@.len()
    } by {
        assert(search_matches(groups, q, 0).contains(search_matches(groups, q, 0)[k]));
    }
}

/// Header line of a group: an arrow (down when expanded), the type and the
/// number of entities, as in `▾ Task (3)`.
pub open spec fn header_text(g: EntityGroup) -> Seq<char> {
    (if g.expanded { seq!['\u{25BE}'] } else { seq!['\u{25B8}'] }) + seq![' '] + g.entity_type@
        + seq![' ', '('] + decimal(g.entities@.len()) + seq![')']
}

/// Line of an entity in the tree: its title, indented by two spaces.
pub open spec fn entity_text(e: EntityRow) -> Seq<char> {
    seq![' ', ' '] + e.title@
}

/// Line of a search result: the type and the title.
pub open spec fn search_text(groups: Seq<EntityGroup>, p: (usize, usize)) -> Seq<char> {
    seq![' ', ' '] + groups[p.0 as int].entity_type@ + seq![' ', '|', ' ']
        + groups[p.0 as int].entities@[p.1 as int].title@
}

/// The lines of a group: its header, then its entities when expanded; the
/// flag marks the header.
pub open spec fn group_lines(g: EntityGroup) -> Seq<(Seq<char>, bool)> {
    seq![(header_text(g), true)] + if g.expanded {
        Seq::new(g.entities@.len(), |i: int| (entity_text(g.entities@[i]), false))
    } else {
        Seq::empty()
    }
}

/// All visible lines of the tree, in order.
pub open spec fn flat_lines(groups: Seq<EntityGroup>) -> Seq<(Seq<char>, bool)>
    decreases groups.len(),
{
    if groups.len() == 0 {
        Seq::empty()
    } else {
        group_lines(groups[0]) + flat_lines(groups.drop_first())
    }
}

/// The lines at positions `s .. s + h` that exist, each with its header flag
/// and whether the cursor is on it.
pub open spec fn window(items: Seq<(Seq<char>, bool)>, s: int, h: int, cursor: int) -> Seq<(Seq<char>, bool, bool)> {
    let k = if s >= items.len() { 0 } else if h < items.len() - s { h } else { items.len() - s };
    Seq::new(k as nat, |i: int| (items[s + i].0, items[s + i].1, s + i == cursor))
}

/// The views of rendered lines.
pub open spec fn lines_view(v: Seq<(String, bool, bool)>) -> Seq<(Seq<char>, bool, bool)> {
    v.map_values(|l: (String, bool, bool)| (l.0@, l.1, l.2))
}

/// The views of (text, flag) pairs.
pub open spec fn pairs_view(v: Seq<(String, bool)>) -> Seq<(Seq<char>, bool)> {
    v.map_values(|l: (String, bool)| (l.0@, l.1))
}

/// The scroll offset that keeps the cursor visible in `h` lines.
pub open spec fn scroll_for(scroll: int, cursor: int, h: int) -> int {
    let s1 = if cursor < scroll { cursor } else { scroll };
    if cursor >= s1 + h { cursor - h + 1 } else { s1 }
}

proof fn lemma_flat_len(groups: Seq<EntityGroup>)
    ensures
        flat_lines(groups).len() == visible_total(groups),
    decreases groups.len(),
{
    if groups.len() > 0 {
        lemma_flat_len(groups.drop_first());
    }
}

/// The word `inactive`.
pub open spec fn word_inactive() -> Seq<char> {
    seq!['i', 'n', 'a', 'c', 't', 'i', 'v', 'e']
}

/// The word `done`.
pub open spec fn word_done() -> Seq<char> {
    seq!['d', 'o', 'n', 'e']
}

/// The word `discarded`.
pub open spec fn word_discarded() -> Seq<char> {
    seq!['d', 'i', 's', 'c', 'a', 'r', 'd', 'e', 'd']
}

/// An optional field whose lowercased value is `w`.
pub open spec fn field_is(f: Option<String>, w: Seq<char>) -> bool {
    f matches Some(v) && lowercase(v@) == w
}

/// Whether the navigator shows a row: always when archived entities are
/// shown, otherwise unless it is inactive, a done task, or a discarded
/// extraction.
pub open spec fn shown(r: EntityRow, show_archived: bool) -> bool {
    show_archived || !(field_is(r.status, word_inactive()) || field_is(r.task_state, word_done())
        || field_is(r.extraction_status, word_discarded()))
}

/// The rows the navigator shows, in order.
pub open spec fn shown_rows(all: Seq<EntityRow>, show_archived: bool) -> Seq<EntityRow> {
    all.filter(|r: EntityRow| shown(r, show_archived))
}

/// The expansion state of the last group of type `t`, if any.
pub open spec fn last_flag(groups: Seq<EntityGroup>, t: Seq<char>) -> Option<bool>
    decreases groups.len(),
{
    if groups.len() == 0 {
        None
    } else if groups.last().entity_type@ == t {
        Some(groups.last().expanded)
    } else {
        last_flag(groups.drop_last(), t)
    }
}

/// The expansion a refreshed group of type `t` takes: that of the former
/// group of that type, else the pending state, else expanded.
pub open spec fn expansion_for(old_groups: Seq<EntityGroup>, pending: Seq<(String, bool)>, t: Seq<char>) -> bool {
    match last_flag(old_groups, t) {
        Some(b) => b,
        None => match pending_lookup(pending, t) {
            Some(b) => b,
            None => true,
        },
    }
}

/// Groups partition `rows` by entity type: types strictly increasing, each
/// group holding (in order) exactly the rows of its type, at least one, and
/// every row's type having a group.
pub open spec fn groups_partition(groups: Seq<EntityGroup>, rows: Seq<EntityRow>) -> bool {
    &&& forall|a: int, b: int|
        0 <= a < b < groups.len() ==> seq_lt(groups[a].entity_type@, groups[b].entity_type@)
    &&& forall|a: int|
        0 <= a < groups.len() ==> #[trigger] groups[a].entities@ == rows.filter(
            |r: EntityRow| r.entity_type@ == groups[a].entity_type@,
        )
    &&& forall|a: int| 0 <= a < groups.len() ==> #[trigger] groups[a].entities@.len() > 0
    &&& forall|k: int|
        #![trigger rows[k]]
        0 <= k < rows.len() ==> exists|a: int|
            #![trigger groups[a]]
            0 <= a < groups.len() && groups[a].entity_type@ == rows[k].entity_type@
}

/// Filtering a sequence with one more element.
proof fn lemma_filter_push(s: Seq<EntityRow>, x: EntityRow, f: spec_fn(EntityRow) -> bool)
    ensures
        s.push(x).filter(f) == if f(x) { s.filter(f).push(x) } else { s.filter(f) },
{
    reveal_with_fuel(Seq::<_>::filter, 1);
    assert(s.push(x).drop_last() =~= s);
}

/// Filtering keeps nothing when nothing satisfies the predicate.
proof fn lemma_filter_none(s: Seq<EntityRow>, f: spec_fn(EntityRow) -> bool)
    requires
        forall|k: int| 0 <= k < s.len() ==> !f(#[trigger] s[k]),
    ensures
        s.filter(f) == Seq::<EntityRow>::empty(),
    decreases s.len(),
{
    reveal_with_fuel(Seq::<_>::filter, 1);
    if s.len() > 0 {
        lemma_filter_none(s.drop_last(), f);
        assert(!f(s[s.len() - 1]));
    }
}

/// The full total after inserting a group.
proof fn lemma_full_total_insert(gs: Seq<EntityGroup>, j: int, g: EntityGroup)
    requires
        0 <= j <= gs.len(),
    ensures
        full_total(gs.insert(j, g)) == full_total(gs) + 1 + g.entities@.len(),
    decreases gs.len(),
{
    if j == 0 {
        assert(gs.insert(0, g).drop_first() =~= gs);
    } else {
        assert(gs.insert(j, g).drop_first() =~= gs.drop_first().insert(j - 1, g));
        lemma_full_total_insert(gs.drop_first(), j - 1, g);
    }
}

/// The full total after replacing a group.
proof fn lemma_full_total_update(gs: Seq<EntityGroup>, j: int, g: EntityGroup)
    requires
        0 <= j < gs.len(),
    ensures
        full_total(gs.update(j, g)) == full_total(gs) - gs[j].entities@.len() + g.entities@.len(),
    decreases gs.len(),
{
    if j == 0 {
        assert(gs.update(0, g).drop_first() =~= gs.drop_first());
    } else {
        assert(gs.update(j, g).drop_first() =~= gs.drop_first().update(j - 1, g));
        lemma_full_total_update(gs.drop_first(), j - 1, g);
    }
}

/// Navigator state: the entity list grouped by type.
pub struct Navigator {
    pub groups: Vec<EntityGroup>,
    /// Index of the cursor among the visible lines.
    pub cursor: usize,
    /// Total visible lines (group headers + expanded entity entries).
    pub visible_count: usize,
    /// Scroll offset for the visible window.
    pub scroll_offset: usize,
    /// Pending expansion state from saved state (applied on next refresh).
    pub pending_expanded: Vec<(String, bool)>,
    /// Show archived/inactive entities.
    pub show_archived: bool,
    /// Search mode active.
    pub searching: bool,
    /// Current search query.
    pub search_query: String,
    /// Cached search results: (group index, entity index) of each match.
    pub search_results: Vec<(usize, usize)>,
}

/// The first pending expansion state stored for a type.
pub open spec fn pending_lookup(v: Seq<(String, bool)>, t: Seq<char>) -> Option<bool>
    decreases v.len(),
{
    if v.len() == 0 {
        None
    } else if v[0].0@ == t {
        Some(v[0].1)
    } else {
        pending_lookup(v.drop_first(), t)
    }
}

impl Navigator {
    /// The pending expansion state for a group type.
    pub open spec fn pending(&self, t: Seq<char>) -> Option<bool> {
        pending_lookup(self.pending_expanded@, t)
    }

    /// The cached search results.
    pub open spec fn results(&self) -> Seq<(usize, usize)> {
        self.search_results@
    }

    /// An empty navigator.
    pub fn new() -> (n: Self)
        ensures
            n.groups@.len() == 0,
            n.cursor == 0,
            n.visible_count == 0,
            n.scroll_offset == 0,
            forall|t: Seq<char>| n.pending(t) is None,
            !n.show_archived,
            !n.searching,
            n.search_query@.len() == 0,
            n.results().len() == 0,
    {
        Navigator {
            groups: Vec::new(),
            cursor: 0,
            visible_count: 0,
            scroll_offset: 0,
            pending_expanded: Vec::new(),
            show_archived: false,
            searching: false,
            search_query: String::new(),
            search_results: Vec::new(),
        }
    }

    /// Pre-set the expansion state of a group: the first group of that type
    /// takes it at once; with no such group it is kept for the next refresh.
    pub fn set_expanded(&mut self, entity_type: &str, expanded: bool)
        ensures
            ({
                let gs = old(self).groups@;
                if exists|i: int| 0 <= i < gs.len() && gs[i].entity_type@ == entity_type@ {
                    let i = choose|i: int|
                        0 <= i < gs.len() && gs[i].entity_type@ == entity_type@ && forall|j: int|
                            0 <= j < i ==> gs[j].entity_type@ != entity_type@;
                    &&& final(self).groups@.len() == gs.len()
                    &&& forall|j: int|
                        0 <= j < gs.len() && j != i ==> final(self).groups@[j] == gs[j]
                    &&& final(self).groups@[i].entity_type == gs[i].entity_type
                    &&& final(self).groups@[i].entities == gs[i].entities
                    &&& final(self).groups@[i].expanded == expanded
                    &&& forall|t: Seq<char>| final(self).pending(t) == old(self).pending(t)
                } else {
                    &&& final(self).groups == old(self).groups
                    &&& final(self).pending(entity_type@) == Some(expanded)
                    &&& forall|t: Seq<char>|
                        t != entity_type@ ==> final(self).pending(t) == old(self).pending(t)
                }
            }),
            final(self).cursor == old(self).cursor,
            final(self).visible_count == old(self).visible_count,
            final(self).scroll_offset == old(self).scroll_offset,
            final(self).show_archived == old(self).show_archived,
            final(self).searching == old(self).searching,
            final(self).search_query == old(self).search_query,
            final(self).search_results == old(self).search_results,
    {
        let n = self.groups.len();
        for i in 0..n
            invariant
                n == self.groups@.len(),
                *self == *old(self),
                forall|j: int| 0 <= j < i ==> self.groups@[j].entity_type@ != entity_type@,
        {
            if str_eq(self.groups[i].entity_type.as_str(), entity_type) {
                self.groups[i].expanded = expanded;
                proof {
                    let gs = old(self).groups@;
                    let w = choose|w: int|
                        0 <= w < gs.len() && gs[w].entity_type@ == entity_type@ && forall|j: int|
                            0 <= j < w ==> gs[j].entity_type@ != entity_type@;
                    assert(0 <= i < gs.len() && gs[i as int].entity_type@ == entity_type@);
                    assert(w == i) by {
                        if w < i {
                        } else if w > i {
                        }
                    }
                }
                return;
            }
        }
        self.store_pending(entity_type, expanded);
    }

    /// Record a pending expansion state, replacing the one stored for the
    /// same type.
    fn store_pending(&mut self, entity_type: &str, expanded: bool)
        ensures
            final(self).pending(entity_type@) == Some(expanded),
            forall|t: Seq<char>| t != entity_type@ ==> final(self).pending(t) == old(self).pending(t),
            final(self).groups == old(self).groups,
            final(self).cursor == old(self).cursor,
            final(self).visible_count == old(self).visible_count,
            final(self).scroll_offset == old(self).scroll_offset,
            final(self).show_archived == old(self).show_archived,
            final(self).searching == old(self).searching,
            final(self).search_query == old(self).search_query,
            final(self).search_results == old(self).search_results,
    {
        let n = self.pending_expanded.len();
        let mut i: usize = 0;
        while i < n
            invariant
                n == self.pending_expanded@.len(),
                i <= n,
                *self == *old(self),
                forall|j: int| 0 <= j < i ==> self.pending_expanded@[j].0@ != entity_type@,
            decreases n - i,
        {
            if str_eq(self.pending_expanded[i].0.as_str(), entity_type) {
                let key = from_chars(&to_chars(entity_type));
                let ghost old_v = self.pending_expanded@;
                self.pending_expanded.set(i, (key, expanded));
                proof {
                    lemma_pending_update(old_v, i as int, key, expanded);
                }
                return;
            }
            i += 1;
        }
        let key = from_chars(&to_chars(entity_type));
        let ghost old_v = self.pending_expanded@;
        self.pending_expanded.push((key, expanded));
        proof {
            lemma_pending_push(old_v, key, expanded);
        }
    }

    /// Move the cursor up.
    pub fn cursor_up(&mut self)
        ensures
            final(self).cursor == if old(self).cursor > 0 { old(self).cursor - 1 } else { 0 },
            final(self).groups == old(self).groups,
            final(self).visible_count == old(self).visible_count,
            final(self).scroll_offset == old(self).scroll_offset,
            final(self).searching == old(self).searching,
            final(self).search_query == old(self).search_query,
            final(self).show_archived == old(self).show_archived,
            final(self).search_results == old(self).search_results,
            final(self).pending_expanded == old(self).pending_expanded,
    {
        if self.cursor > 0 {
            self.cursor -= 1;
        }
    }

    /// Move the cursor down, up to the last search result in search mode and
    /// to the last visible line otherwise.
    pub fn cursor_down(&mut self)
        ensures
            ({
                let max = if old(self).searching {
                    old(self).results().len() as int
                } else {
                    old(self).visible_count as int
                };
                final(self).cursor == if max > 0 && old(self).cursor < max - 1 {
                    old(self).cursor + 1
                } else {
                    old(self).cursor as int
                }
            }),
            final(self).groups == old(self).groups,
            final(self).visible_count == old(self).visible_count,
            final(self).scroll_offset == old(self).scroll_offset,
            final(self).searching == old(self).searching,
            final(self).search_query == old(self).search_query,
            final(self).show_archived == old(self).show_archived,
            final(self).search_results == old(self).search_results,
            final(self).pending_expanded == old(self).pending_expanded,
    {
        let max = if self.searching {
            self.search_results.len()
        } else {
            self.visible_count
        };
        if max > 0 && self.cursor < max - 1 {
            self.cursor += 1;
        }
    }

    /// Recount the visible lines.
    fn recompute_visible_count(&mut self)
        requires
            full_total(old(self).groups@) <= usize::MAX,
        ensures
            final(self).visible_count == visible_total(old(self).groups@),
            final(self).groups == old(self).groups,
            final(self).cursor == old(self).cursor,
            final(self).scroll_offset == old(self).scroll_offset,
            final(self).searching == old(self).searching,
            final(self).search_query == old(self).search_query,
            final(self).show_archived == old(self).show_archived,
            final(self).search_results == old(self).search_results,
            final(self).pending_expanded == old(self).pending_expanded,
    {
        let mut count: usize = 0;
        let n = self.groups.len();
        proof {
            assert(self.groups@.skip(0) =~= self.groups@);
        }
        for i in 0..n
            invariant
                n == self.groups@.len(),
                full_total(self.groups@) <= usize::MAX,
                count + visible_total(self.groups@.skip(i as int)) == visible_total(self.groups@),
                count + full_total(self.groups@.skip(i as int)) <= full_total(self.groups@),
        {
            proof {
                lemma_skip_step(self.groups@, i as int);
                lemma_resolve(self.groups@.skip(i + 1), 0);
            }
            count += 1;
            if self.groups[i].expanded {
                count += self.groups[i].entities.len();
            }
        }
        self.visible_count = count;
    }

    /// Resolve the cursor to `(group, None)` for a group header or
    /// `(group, Some(entity))` for an entity line.
    pub fn resolve_cursor(&self) -> (r: Option<(usize, Option<usize>)>)
        ensures
            resolution_view(r) == resolve(self.groups@, self.cursor as int),
    {
        let mut pos: usize = 0;
        let n = self.groups.len();
        proof {
            assert(self.groups@.skip(0) =~= self.groups@);
        }
        for gi in 0..n
            invariant
                n == self.groups@.len(),
                pos <= self.cursor,
                resolve(self.groups@, self.cursor as int) == match resolve(
                    self.groups@.skip(gi as int),
                    self.cursor - pos,
                ) {
                    Some((g, e)) => Some((g + gi, e)),
                    None => None,
                },
        {
            proof {
                lemma_skip_step(self.groups@, gi as int);
            }
            if pos == self.cursor {
                return Some((gi, None));
            }
            let start = pos;
            pos += 1;
            if self.groups[gi].expanded {
                let m = self.groups[gi].entities.len();
                for ei in 0..m
                    invariant
                        gi < n,
                        n == self.groups@.len(),
                        m == self.groups@[gi as int].entities@.len(),
                        self.groups@[gi as int].expanded,
                        self.groups@.skip(gi as int)[0] == self.groups@[gi as int],
                        resolve(self.groups@, self.cursor as int) == match resolve(
                            self.groups@.skip(gi as int),
                            self.cursor - start,
                        ) {
                            Some((g, e)) => Some((g + gi, e)),
                            None => None,
                        },
                        pos == start + 1 + ei,
                        start < self.cursor,
                        pos <= self.cursor,
                {
                    if pos == self.cursor {
                        return Some((gi, Some(ei)));
                    }
                    pos += 1;
                }
            }
        }
        None
    }

    /// The entity at the cursor, if the cursor is on an entity line.
    pub fn selected_entity(&self) -> (r: Option<&EntityRow>)
        ensures
            match resolve(self.groups@, self.cursor as int) {
                Some((g, Some(e))) => r == Some(&self.groups@[g].entities@[e]),
                _ => r is None,
            },
    {
        proof {
            lemma_resolve(self.groups@, self.cursor as int);
        }
        match self.resolve_cursor() {
            Some((gi, Some(ei))) => Some(&self.groups[gi].entities[ei]),
            _ => None,
        }
    }

    /// Toggle expand/collapse when the cursor is on a group header, then
    /// recount the visible lines and keep the cursor on one of them.
    pub fn toggle_expand(&mut self)
        requires
            full_total(old(self).groups@) <= usize::MAX,
        ensures
            match resolve(old(self).groups@, old(self).cursor as int) {
                Some((g, None)) => {
                    let flipped = flip_group(old(self).groups@, g);
                    &&& final(self).groups@ == flipped
                    &&& final(self).visible_count == visible_total(flipped)
                    &&& final(self).cursor == if old(self).cursor >= visible_total(flipped) {
                        if visible_total(flipped) > 0 { visible_total(flipped) - 1 } else { 0 }
                    } else {
                        old(self).cursor as int
                    }
                },
                _ => {
                    &&& final(self).groups == old(self).groups
                    &&& final(self).visible_count == old(self).visible_count
                    &&& final(self).cursor == old(self).cursor
                },
            },
            final(self).scroll_offset == old(self).scroll_offset,
            final(self).searching == old(self).searching,
            final(self).search_query == old(self).search_query,
            final(self).show_archived == old(self).show_archived,
            final(self).search_results == old(self).search_results,
            final(self).pending_expanded == old(self).pending_expanded,
    {
        proof {
            lemma_resolve(self.groups@, self.cursor as int);
        }
        if let Some((gi, None)) = self.resolve_cursor() {
            let ghost gs = self.groups@;
            let flag = self.groups[gi].expanded;
            self.groups[gi].expanded = !flag;
            proof {
                assert(self.groups@ =~= flip_group(gs, gi as int));
                lemma_full_total_flags(gs, self.groups@);
            }
            self.recompute_visible_count();
            if self.cursor >= self.visible_count {
                self.cursor = self.visible_count.saturating_sub(1);
            }
        }
    }

    /// Update the scroll offset to keep the cursor visible in a viewport of
    /// `height` lines (in search mode only when there are results).
    pub fn adjust_scroll(&mut self, height: usize)
        requires
            height > 0 || old(self).cursor < usize::MAX,
        ensures
            ({
                let c = old(self).cursor as int;
                let s1 = if c < old(self).scroll_offset { c } else { old(self).scroll_offset as int };
                let moves = c >= s1 + height && (!old(self).searching || old(self).results().len() > 0);
                final(self).scroll_offset == if moves { c - height + 1 } else { s1 }
            }),
            final(self).groups == old(self).groups,
            final(self).cursor == old(self).cursor,
            final(self).visible_count == old(self).visible_count,
            final(self).searching == old(self).searching,
            final(self).search_query == old(self).search_query,
            final(self).show_archived == old(self).show_archived,
            final(self).search_results == old(self).search_results,
            final(self).pending_expanded == old(self).pending_expanded,
    {
        if self.searching {
            let count = self.search_results.len();
            if self.cursor < self.scroll_offset {
                self.scroll_offset = self.cursor;
            }
            if count > 0 && self.cursor >= self.scroll_offset && self.cursor - self.scroll_offset
                >= height {
                self.scroll_offset = self.cursor - height + 1;
            }
        } else {
            if self.cursor < self.scroll_offset {
                self.scroll_offset = self.cursor;
            }
            if self.cursor >= self.scroll_offset && self.cursor - self.scroll_offset >= height {
                self.scroll_offset = self.cursor - height + 1;
            }
        }
    }
    /// Recompute the search results for the current query.
    fn update_search_results(&mut self)
        ensures
            final(self).search_results@ == search_matches(
                old(self).groups@,
                lowercase(old(self).search_query@),
                0,
            ),
            final(self).groups == old(self).groups,
            final(self).cursor == old(self).cursor,
            final(self).visible_count == old(self).visible_count,
            final(self).scroll_offset == old(self).scroll_offset,
            final(self).searching == old(self).searching,
            final(self).search_query == old(self).search_query,
            final(self).show_archived == old(self).show_archived,
            final(self).pending_expanded == old(self).pending_expanded,
    {
        self.search_results.clear();
        let query = to_lowercase(self.search_query.as_str());
        let qv = to_chars(query.as_str());
        let ghost q = lowercase(self.search_query@);
        let ghost gs = self.groups@;
        let ghost total = search_matches(gs, q, 0);
        let n = self.groups.len();
        assert(self.search_results@ + total =~= total);
        for gi in 0..n
            invariant
                n == self.groups@.len(),
                gs == self.groups@,
                qv@ == q,
                total == search_matches(gs, q, 0),
                self.search_results@ + search_matches(gs, q, gi as int) == total,
                self.groups == old(self).groups,
                self.cursor == old(self).cursor,
                self.visible_count == old(self).visible_count,
                self.scroll_offset == old(self).scroll_offset,
                self.searching == old(self).searching,
                self.search_query == old(self).search_query,
                self.show_archived == old(self).show_archived,
                self.pending_expanded == old(self).pending_expanded,
        {
            let type_lower = to_chars(to_lowercase(self.groups[gi].entity_type.as_str()).as_str());
            let type_match = find_chars(&type_lower, &qv).is_some();
            let m = self.groups[gi].entities.len();
            let ghost g = gs[gi as int];
            let ghost rest = search_matches(gs, q, gi + 1);
            assert(self.search_results@ + (group_matches(g, gi as int, q, 0) + rest) == total);
            for ei in 0..m
                invariant
                    n == self.groups@.len(),
                    gi < n,
                    gs == self.groups@,
                    g == gs[gi as int],
                    m == g.entities@.len(),
                    qv@ == q,
                    type_match == contains(lowercase(g.entity_type@), q),
                    rest == search_matches(gs, q, gi + 1),
                    self.search_results@ + (group_matches(g, gi as int, q, ei as int) + rest) == total,
                    self.groups == old(self).groups,
                    self.cursor == old(self).cursor,
                    self.visible_count == old(self).visible_count,
                    self.scroll_offset == old(self).scroll_offset,
                    self.searching == old(self).searching,
                    self.search_query == old(self).search_query,
                    self.show_archived == old(self).show_archived,
                    self.pending_expanded == old(self).pending_expanded,
            {
                let ghost before = self.search_results@;
                let title_lower = to_chars(
                    to_lowercase(self.groups[gi].entities[ei].title.as_str()).as_str(),
                );
                if qv.len() == 0 || find_chars(&title_lower, &qv).is_some() || type_match {
                    self.search_results.push((gi, ei));
                    assert(before + (group_matches(g, gi as int, q, ei as int) + rest) =~= self.search_results@ + (group_matches(g, gi as int, q, ei + 1) + rest));
                } else {
                    assert(before + (group_matches(g, gi as int, q, ei as int) + rest) =~= self.search_results@ + (group_matches(g, gi as int, q, ei + 1) + rest));
                }
            }
            assert(group_matches(g, gi as int, q, m as int) =~= Seq::<(usize, usize)>::empty());
            assert(self.search_results@ + (Seq::<(usize, usize)>::empty() + rest) =~= self.search_results@ + rest);
        }
        assert(search_matches(gs, q, n as int) =~= Seq::<(usize, usize)>::empty());
        assert(self.search_results@ + Seq::<(usize, usize)>::empty() =~= self.search_results@);
    }

    /// Enter search mode with an empty query.
    pub fn start_search(&mut self)
        ensures
            final(self).searching,
            final(self).search_query@.len() == 0,
            final(self).cursor == 0,
            final(self).scroll_offset == 0,
            final(self).search_results@ == search_matches(old(self).groups@, lowercase(Seq::empty()), 0),
            final(self).groups == old(self).groups,
            final(self).visible_count == old(self).visible_count,
            final(self).show_archived == old(self).show_archived,
            final(self).pending_expanded == old(self).pending_expanded,
    {
        self.searching = true;
        self.search_query = String::new();
        self.cursor = 0;
        self.scroll_offset = 0;
        self.update_search_results();
        assert(self.search_query@ =~= Seq::<char>::empty());
    }

    /// Leave search mode: clear the query and results, put the cursor at the
    /// top and recount the visible lines.
    pub fn stop_search(&mut self)
        requires
            full_total(old(self).groups@) <= usize::MAX,
        ensures
            !final(self).searching,
            final(self).search_query@.len() == 0,
            final(self).search_results@.len() == 0,
            final(self).cursor == 0,
            final(self).scroll_offset == 0,
            final(self).visible_count == visible_total(old(self).groups@),
            final(self).groups == old(self).groups,
            final(self).show_archived == old(self).show_archived,
            final(self).pending_expanded == old(self).pending_expanded,
    {
        self.searching = false;
        self.search_query = String::new();
        self.search_results.clear();
        self.cursor = 0;
        self.scroll_offset = 0;
        self.recompute_visible_count();
    }

    /// Append a character to the query and refresh the results.
    pub fn search_push(&mut self, c: char)
        ensures
            final(self).search_query@ == old(self).search_query@.push(c),
            final(self).search_results@ == search_matches(
                old(self).groups@,
                lowercase(old(self).search_query@.push(c)),
                0,
            ),
            final(self).cursor == 0,
            final(self).scroll_offset == 0,
            final(self).searching == old(self).searching,
            final(self).groups == old(self).groups,
            final(self).visible_count == old(self).visible_count,
            final(self).show_archived == old(self).show_archived,
            final(self).pending_expanded == old(self).pending_expanded,
    {
        push_char(&mut self.search_query, c);
        self.cursor = 0;
        self.scroll_offset = 0;
        self.update_search_results();
    }

    /// Remove the last character of the query (if any) and refresh the
    /// results.
    pub fn search_pop(&mut self)
        ensures
            final(self).search_query@ == if old(self).search_query@.len() > 0 {
                old(self).search_query@.drop_last()
            } else {
                old(self).search_query@
            },
            final(self).search_results@ == search_matches(
                old(self).groups@,
                lowercase(final(self).search_query@),
                0,
            ),
            final(self).cursor == 0,
            final(self).scroll_offset == 0,
            final(self).searching == old(self).searching,
            final(self).groups == old(self).groups,
            final(self).visible_count == old(self).visible_count,
            final(self).show_archived == old(self).show_archived,
            final(self).pending_expanded == old(self).pending_expanded,
    {
        let len = crate::text::char_len(self.search_query.as_str());
        if len > 0 {
            let none: Vec<char> = Vec::new();
            let shorter = splice_str(self.search_query.as_str(), len - 1, len, &none);
            assert(shorter@ =~= self.search_query@.drop_last());
            self.search_query = shorter;
        }
        self.cursor = 0;
        self.scroll_offset = 0;
        self.update_search_results();
    }

    /// The entity at the cursor in search mode.
    pub fn selected_search_entity(&self) -> (r: Option<&EntityRow>)
        requires
            self.cursor < self.search_results@.len() ==> {
                let p = self.search_results@[self.cursor as int];
                &&& p.0 < self.groups@.len()
                &&& p.1 < self.groups@[p.0 as int].entities@.len()
            },
        ensures
            if self.cursor < self.search_results@.len() {
                let p = self.search_results@[self.cursor as int];
                r == Some(&self.groups@[p.0 as int].entities@[p.1 as int])
            } else {
                r is None
            },
    {
        if self.cursor < self.search_results.len() {
            let (gi, ei) = self.search_results[self.cursor];
            Some(&self.groups[gi].entities[ei])
        } else {
            None
        }
    }

    /// Lines of the search results in the window of `height` lines from the
    /// scroll offset, each as (text, false, is the cursor on it).
    pub fn search_lines(&self, height: usize) -> (lines: Vec<(String, bool, bool)>)
        requires
            forall|k: int|
                self.scroll_offset <= k < self.search_results@.len() && k < self.scroll_offset + height
                    ==> {
                    let p = #[trigger] self.search_results@[k];
                    &&& p.0 < self.groups@.len()
                    &&& p.1 < self.groups@[p.0 as int].entities@.len()
                },
        ensures
            lines_view(lines@) == window(
                self.search_results@.map_values(|p: (usize, usize)| (search_text(self.groups@, p), false)),
                self.scroll_offset as int,
                height as int,
                self.cursor as int,
            ),
    {
        let ghost items = self.search_results@.map_values(|p: (usize, usize)| (search_text(self.groups@, p), false));
        let s = self.scroll_offset;
        let n = self.search_results.len();
        let k: usize = if s >= n { 0 } else if height < n - s { height } else { n - s };
        let mut lines: Vec<(String, bool, bool)> = Vec::new();
        for i in 0..k
            invariant
                k <= height,
                s + k <= n || k == 0,
                n == self.search_results@.len(),
                items == self.search_results@.map_values(|p: (usize, usize)| (search_text(self.groups@, p), false)),
                lines_view(lines@) == window(items, s as int, height as int, self.cursor as int).take(i as int),
                window(items, s as int, height as int, self.cursor as int).len() == k,
                forall|k: int|
                    self.scroll_offset <= k < self.search_results@.len() && k < self.scroll_offset + height
                        ==> {
                        let p = #[trigger] self.search_results@[k];
                        &&& p.0 < self.groups@.len()
                        &&& p.1 < self.groups@[p.0 as int].entities@.len()
                    },
                s == self.scroll_offset,
        {
            let (gi, ei) = self.search_results[s + i];
            let mut text = String::new();
            push_char(&mut text, ' ');
            push_char(&mut text, ' ');
            push_str(&mut text, self.groups[gi].entity_type.as_str());
            push_char(&mut text, ' ');
            push_char(&mut text, '|');
            push_char(&mut text, ' ');
            push_str(&mut text, self.groups[gi].entities[ei].title.as_str());
            let ghost before = lines@;
            lines.push((text, false, s + i == self.cursor));
            proof {
                let p = self.search_results@[s + i];
                assert(text@ =~= search_text(self.groups@, p));
                assert(lines_view(lines@) =~= lines_view(before).push((text@, false, s + i == self.cursor)));
                assert(window(items, s as int, height as int, self.cursor as int).take(i + 1) =~= window(items, s as int, height as int, self.cursor as int).take(i as int).push((text@, false, s + i == self.cursor)));
            }
        }
        assert(window(items, s as int, height as int, self.cursor as int).take(k as int) =~= window(items, s as int, height as int, self.cursor as int));
        lines
    }

    /// All visible lines of the tree, with their header flags.
    fn flat_entries(&self) -> (out: Vec<(String, bool)>)
        ensures
            pairs_view(out@) == flat_lines(self.groups@),
    {
        let mut out: Vec<(String, bool)> = Vec::new();
        let ghost gs = self.groups@;
        let n = self.groups.len();
        assert(gs.skip(0) =~= gs);
        assert(pairs_view(out@) + flat_lines(gs) =~= flat_lines(gs));
        for gi in 0..n
            invariant
                n == gs.len(),
                gs == self.groups@,
                pairs_view(out@) + flat_lines(gs.skip(gi as int)) == flat_lines(gs),
        {
            let ghost g = gs[gi as int];
            assert(gs.skip(gi as int).drop_first() =~= gs.skip(gi + 1));
            assert(gs.skip(gi as int)[0] == g);
            let ghost base = pairs_view(out@);
            let mut header = String::new();
            push_char(&mut header, if self.groups[gi].expanded { '\u{25BE}' } else { '\u{25B8}' });
            push_char(&mut header, ' ');
            push_str(&mut header, self.groups[gi].entity_type.as_str());
            push_char(&mut header, ' ');
            push_char(&mut header, '(');
            push_decimal(&mut header, self.groups[gi].entities.len());
            push_char(&mut header, ')');
            assert(header@ =~= header_text(g));
            out.push((header, true));
            assert(pairs_view(out@) =~= base.push((header_text(g), true)));
            if self.groups[gi].expanded {
                let m = self.groups[gi].entities.len();
                for ei in 0..m
                    invariant
                        n == gs.len(),
                        gi < n,
                        gs == self.groups@,
                        g == gs[gi as int],
                        g.expanded,
                        m == g.entities@.len(),
                        pairs_view(out@) == base + seq![(header_text(g), true)] + Seq::new(
                            ei as nat,
                            |i: int| (entity_text(g.entities@[i]), false),
                        ),
                {
                    let ghost prev = pairs_view(out@);
                    let mut line = String::new();
                    push_char(&mut line, ' ');
                    push_char(&mut line, ' ');
                    push_str(&mut line, self.groups[gi].entities[ei].title.as_str());
                    assert(line@ =~= entity_text(g.entities@[ei as int]));
                    out.push((line, false));
                    assert(pairs_view(out@) =~= prev.push((line@, false)));
                    assert(Seq::new((ei + 1) as nat, |i: int| (entity_text(g.entities@[i]), false))
                        =~= Seq::new(ei as nat, |i: int| (entity_text(g.entities@[i]), false)).push((line@, false)));
                    assert(pairs_view(out@) =~= base + seq![(header_text(g), true)] + Seq::new(
                        (ei + 1) as nat,
                        |i: int| (entity_text(g.entities@[i]), false),
                    ));
                }
                assert(pairs_view(out@) =~= base + group_lines(g));
            } else {
                assert(pairs_view(out@) =~= base + group_lines(g));
            }
            assert(base + flat_lines(gs.skip(gi as int)) =~= (base + group_lines(g)) + flat_lines(gs.skip(gi + 1)));
        }
        assert(gs.skip(n as int) =~= Seq::<EntityGroup>::empty());
        assert(pairs_view(out@) + Seq::<(Seq<char>, bool)>::empty() =~= pairs_view(out@));
        out
    }

    /// The visible lines of the tree in a window of `height` lines that
    /// keeps the cursor visible, each as (text, is a header, is the cursor
    /// on it); the scroll offset itself is left unchanged.
    pub fn visible_lines(&self, height: usize) -> (lines: Vec<(String, bool, bool)>)
        requires
            height > 0 || self.cursor < usize::MAX,
        ensures
            lines_view(lines@) == window(
                flat_lines(self.groups@),
                scroll_for(self.scroll_offset as int, self.cursor as int, height as int),
                height as int,
                self.cursor as int,
            ),
    {
        let mut s = self.scroll_offset;
        if self.cursor < s {
            s = self.cursor;
        }
        if self.cursor >= s && self.cursor - s >= height {
            s = self.cursor - height + 1;
        }
        let flat = self.flat_entries();
        let ghost items = flat_lines(self.groups@);
        let n = flat.len();
        let k: usize = if s >= n { 0 } else if height < n - s { height } else { n - s };
        let mut lines: Vec<(String, bool, bool)> = Vec::new();
        for i in 0..k
            invariant
                s + k <= n || k == 0,
                n == flat@.len(),
                items == pairs_view(flat@),
                lines_view(lines@) == window(items, s as int, height as int, self.cursor as int).take(i as int),
                window(items, s as int, height as int, self.cursor as int).len() == k,
        {
            let text = flat[s + i].0.clone();
            let is_header = flat[s + i].1;
            let ghost before = lines@;
            lines.push((text, is_header, s + i == self.cursor));
            assert(lines_view(lines@) =~= lines_view(before).push((text@, is_header, s + i == self.cursor)));
            assert(window(items, s as int, height as int, self.cursor as int).take(i + 1) =~= window(items, s as int, height as int, self.cursor as int).take(i as int).push((text@, is_header, s + i == self.cursor)));
        }
        assert(window(items, s as int, height as int, self.cursor as int).take(k as int) =~= window(items, s as int, height as int, self.cursor as int));
        lines
    }
    /// Reload the navigator from the entity rows of the store: keep the
    /// rows it shows, group them by entity type in type order, carry over the
    /// expansion of former groups (else the pending state, else expanded),
    /// clear the pending states, recount the visible lines and keep the
    /// cursor on one of them.
    pub fn refresh(&mut self, all: Vec<EntityRow>)
        requires
            all@.len() <= usize::MAX / 2,
        ensures
            groups_partition(final(self).groups@, shown_rows(all@, old(self).show_archived)),
            forall|a: int|
                0 <= a < final(self).groups@.len() ==> #[trigger] final(self).groups@[a].expanded
                    == expansion_for(
                    old(self).groups@,
                    old(self).pending_expanded@,
                    final(self).groups@[a].entity_type@,
                ),
            final(self).visible_count == visible_total(final(self).groups@),
            final(self).cursor == if final(self).visible_count > 0 && old(self).cursor
                >= final(self).visible_count {
                final(self).visible_count - 1
            } else {
                old(self).cursor as int
            },
            final(self).pending_expanded@.len() == 0,
            final(self).scroll_offset == old(self).scroll_offset,
            final(self).show_archived == old(self).show_archived,
            final(self).searching == old(self).searching,
            final(self).search_query == old(self).search_query,
            final(self).search_results == old(self).search_results,
    {
        let show_archived = self.show_archived;
        let ghost pred = |r: EntityRow| shown(r, show_archived);
        let mut groups: Vec<EntityGroup> = Vec::new();
        let ghost mut seen: Seq<EntityRow> = Seq::empty();
        let inactive = vec!['i', 'n', 'a', 'c', 't', 'i', 'v', 'e'];
        let done = vec!['d', 'o', 'n', 'e'];
        let discarded = vec!['d', 'i', 's', 'c', 'a', 'r', 'd', 'e', 'd'];
        assert(inactive@ =~= word_inactive());
        assert(done@ =~= word_done());
        assert(discarded@ =~= word_discarded());
        reveal_with_fuel(Seq::<_>::filter, 1);
        for r in it: all.into_iter()
            invariant
                inactive@ == word_inactive(),
                done@ == word_done(),
                discarded@ == word_discarded(),
                pred == (|r: EntityRow| shown(r, show_archived)),
                seen == it.seq().take(it.index() as int).filter(pred),
                it.seq() == all@,
                groups_partition(groups@, seen),
                full_total(groups@) <= 2 * seen.len(),
                seen.len() <= it.index(),
                it.index() <= all@.len(),
        {
            let ghost idx = it.index();
            proof {
                assert(it.seq().take(idx + 1) =~= it.seq().take(idx as int).push(r));
                lemma_filter_push(it.seq().take(idx as int), r, pred);
            }
            let keep = show_archived || !(
                Self::field_matches(&r.status, &inactive)
                || Self::field_matches(&r.task_state, &done)
                || Self::field_matches(&r.extraction_status, &discarded));
            if keep {
                Self::add_to_groups(&mut groups, r, Ghost(seen));
                proof {
                    seen = seen.push(r);
                }
            }
        }
        proof {
            assert(all@.take(all@.len() as int) =~= all@);
            assert(seen == shown_rows(all@, show_archived));
        }
        let n = groups.len();
        let ghost old_groups = self.groups@;
        let ghost pending = self.pending_expanded@;
        let ghost grouped = groups@;
        for i in 0..n
            invariant
                n == groups@.len() == grouped.len(),
                old_groups == self.groups@,
                pending == self.pending_expanded@,
                forall|a: int|
                    #![trigger groups@[a]]
                    0 <= a < n ==> groups@[a].entity_type@ == grouped[a].entity_type@
                        && groups@[a].entities@ == grouped[a].entities@,
                forall|a: int| 0 <= a < i ==> #[trigger] groups@[a].expanded == expansion_for(
                    old_groups,
                    pending,
                    groups@[a].entity_type@,
                ),
        {
            let flag = self.expansion_of(groups[i].entity_type.as_str());
            let ghost before = groups@;
            groups[i].expanded = flag;
            assert(groups@ =~= before.update(i as int, EntityGroup { expanded: flag, ..before[i as int] }));
        }
        proof {
            assert forall|a: int| 0 <= a < n implies #[trigger] groups@[a].entities@ == seen.filter(
                |x: EntityRow| x.entity_type@ == groups@[a].entity_type@,
            ) by {
                assert(grouped[a].entities@ == seen.filter(
                    |x: EntityRow| x.entity_type@ == grouped[a].entity_type@,
                ));
            }
            assert forall|k: int| #![trigger seen[k]] 0 <= k < seen.len() implies exists|a: int|
                #![trigger groups@[a]]
                0 <= a < groups@.len() && groups@[a].entity_type@ == seen[k].entity_type@ by {
                let a = choose|a: int| #![trigger grouped[a]] 0 <= a < grouped.len() && grouped[a].entity_type@ == seen[k].entity_type@;
                assert(groups@[a].entity_type@ == seen[k].entity_type@);
            }
            assert forall|a: int, b: int| 0 <= a < b < groups@.len() implies seq_lt(groups@[a].entity_type@, groups@[b].entity_type@) by {
                assert(seq_lt(grouped[a].entity_type@, grouped[b].entity_type@));
            }
            assert forall|a: int| 0 <= a < groups@.len() implies #[trigger] groups@[a].entities@.len() > 0 by {
                assert(grouped[a].entities@.len() > 0);
            }
            assert(groups_partition(groups@, seen));
            lemma_full_total_flags(grouped, groups@);
        }
        self.groups = groups;
        self.pending_expanded = Vec::new();
        self.recompute_visible_count();
        if self.visible_count > 0 && self.cursor >= self.visible_count {
            self.cursor = self.visible_count - 1;
        }
    }

    /// Whether an optional field lowercases to `word`.
    fn field_matches(f: &Option<String>, word: &Vec<char>) -> (r: bool)
        ensures
            r == (f matches Some(v) && lowercase(v@) == word@),
    {
        match f {
            Some(v) => chars_eq(&to_chars(to_lowercase(v.as_str()).as_str()), word),
            None => false,
        }
    }

    /// The expansion a refreshed group of type `t` takes.
    fn expansion_of(&self, t: &str) -> (b: bool)
        ensures
            b == expansion_for(self.groups@, self.pending_expanded@, t@),
    {
        let mut found: Option<bool> = None;
        let n = self.groups.len();
        for a in 0..n
            invariant
                n == self.groups@.len(),
                found == last_flag(self.groups@.take(a as int), t@),
        {
            assert(self.groups@.take(a + 1).drop_last() =~= self.groups@.take(a as int));
            if str_eq(self.groups[a].entity_type.as_str(), t) {
                found = Some(self.groups[a].expanded);
            }
        }
        assert(self.groups@.take(n as int) =~= self.groups@);
        match found {
            Some(b) => b,
            None => {
                let m = self.pending_expanded.len();
                let mut k: usize = 0;
                assert(self.pending_expanded@.skip(0) =~= self.pending_expanded@);
                while k < m
                    invariant
                        m == self.pending_expanded@.len(),
                        k <= m,
                        last_flag(self.groups@, t@) is None,
                        pending_lookup(self.pending_expanded@, t@) == pending_lookup(
                            self.pending_expanded@.skip(k as int),
                            t@,
                        ),
                    decreases m - k,
                {
                    let ghost rest = self.pending_expanded@.skip(k as int);
                    assert(rest.drop_first() =~= self.pending_expanded@.skip(k + 1));
                    assert(rest[0] == self.pending_expanded@[k as int]);
                    if str_eq(self.pending_expanded[k].0.as_str(), t) {
                        assert(pending_lookup(rest, t@) == Some(self.pending_expanded@[k as int].1));
                        return self.pending_expanded[k].1;
                    }
                    k += 1;
                }
                true
            },
        }
    }

    /// Put a shown row into the group of its type, creating the group at its
    /// place in type order when there is none.
    ///
    /// The groups are kept directly in the sorted `Vec` that the navigator
    /// shows, rather than first in a map keyed by type: keeping them sorted
    /// by insertion states their order in the loop invariant itself, where a
    /// map's specification gives its keys as a set, with no order to
    /// iterate them in. The type order is that of the names as strings
    /// (`seq_lt`, character by character, as `String` orders them).
    fn add_to_groups(groups: &mut Vec<EntityGroup>, r: EntityRow, Ghost(seen): Ghost<Seq<EntityRow>>)
        requires
            groups_partition(old(groups)@, seen),
            full_total(old(groups)@) <= 2 * seen.len(),
        ensures
            groups_partition(final(groups)@, seen.push(r)),
            full_total(final(groups)@) <= 2 * seen.len() + 2,
    {
        let t = from_chars(&to_chars(r.entity_type.as_str()));
        let n = groups.len();
        let mut j: usize = 0;
        while j < n && str_lt(groups[j].entity_type.as_str(), t.as_str())
            invariant
                n == groups@.len(),
                j <= n,
                t@ == r.entity_type@,
                forall|a: int| 0 <= a < j ==> seq_lt(#[trigger] groups@[a].entity_type@, t@),
            decreases n - j,
        {
            j += 1;
        }
        let ghost gs = groups@;
        let ghost f = |x: EntityRow| x.entity_type@ == t@;
        proof {
            lemma_filter_push(seen, r, f);
        }
        if j < n && str_eq(groups[j].entity_type.as_str(), t.as_str()) {
            groups[j].entities.push(r);
            proof {
                let ng = groups@;
                assert(ng =~= gs.update(j as int, EntityGroup { entities: ng[j as int].entities, ..gs[j as int] }));
                lemma_full_total_update(gs, j as int, ng[j as int]);
                assert forall|a: int| 0 <= a < ng.len() implies #[trigger] ng[a].entities@ == seen.push(r).filter(
                    |x: EntityRow| x.entity_type@ == ng[a].entity_type@,
                ) by {
                    let fa = |x: EntityRow| x.entity_type@ == ng[a].entity_type@;
                    lemma_filter_push(seen, r, fa);
                    if a != j {
                        if a < j {
                            assert(seq_lt(ng[a].entity_type@, ng[j as int].entity_type@));
                        } else {
                            assert(seq_lt(ng[j as int].entity_type@, ng[a].entity_type@));
                        }
                        lemma_seq_lt_trichotomy(ng[a].entity_type@, ng[j as int].entity_type@);
                    }
                }
                assert forall|k: int| #![trigger seen.push(r)[k]] 0 <= k < seen.push(r).len() implies exists|a: int|
                    #![trigger ng[a]] 0 <= a < ng.len() && ng[a].entity_type@ == seen.push(r)[k].entity_type@ by {
                    if k < seen.len() {
                        let a = choose|a: int| #![trigger gs[a]] 0 <= a < gs.len() && gs[a].entity_type@ == seen[k].entity_type@;
                        assert(ng[a].entity_type@ == seen.push(r)[k].entity_type@);
                    } else {
                        assert(ng[j as int].entity_type@ == seen.push(r)[k].entity_type@);
                    }
                }
            }
        } else {
            let mut members: Vec<EntityRow> = Vec::new();
            members.push(r);
            let g = EntityGroup { entity_type: t, entities: members, expanded: true };
            let ghost gv = g;
            groups.insert(j, g);
            proof {
                let ng = groups@;
                assert(ng =~= gs.insert(j as int, gv));
                lemma_full_total_insert(gs, j as int, gv);
                if j < n {
                    lemma_seq_lt_trichotomy(gs[j as int].entity_type@, t@);
                }
                assert forall|a: int| 0 <= a < gs.len() implies #[trigger] gs[a].entity_type@ != t@ by {
                    if a < j {
                        lemma_seq_lt_trichotomy(gs[a].entity_type@, t@);
                    } else {
                        if a > j {
                            lemma_seq_lt_transitive(t@, gs[j as int].entity_type@, gs[a].entity_type@);
                        }
                        lemma_seq_lt_trichotomy(t@, gs[a].entity_type@);
                    }
                }
                assert forall|k: int| 0 <= k < seen.len() implies !f(#[trigger] seen[k]) by {
                    let a = choose|a: int| #![trigger gs[a]] 0 <= a < gs.len() && gs[a].entity_type@ == seen[k].entity_type@;
                }
                lemma_filter_none(seen, f);
                assert(seen.push(r).filter(f) =~= seq![r]);
                assert forall|a: int, b: int| 0 <= a < b < ng.len() implies seq_lt(ng[a].entity_type@, ng[b].entity_type@) by {
                    if b < j {
                    } else if b == j {
                    } else if a < j {
                        if b == j + 1 {
                            lemma_seq_lt_transitive(ng[a].entity_type@, t@, ng[b].entity_type@);
                        } else {
                            lemma_seq_lt_transitive(t@, gs[j as int].entity_type@, ng[b].entity_type@);
                            lemma_seq_lt_transitive(ng[a].entity_type@, t@, ng[b].entity_type@);
                        }
                    } else if a == j {
                        if b > j + 1 {
                            lemma_seq_lt_transitive(t@, gs[j as int].entity_type@, ng[b].entity_type@);
                        }
                    } else {
                    }
                }
                assert forall|a: int| 0 <= a < ng.len() implies #[trigger] ng[a].entities@ == seen.push(r).filter(
                    |x: EntityRow| x.entity_type@ == ng[a].entity_type@,
                ) by {
                    let fa = |x: EntityRow| x.entity_type@ == ng[a].entity_type@;
                    lemma_filter_push(seen, r, fa);
                    if a != j {
                        assert(ng[a].entity_type@ != t@);
                    } else {
                        assert(fa == f);
                    }
                }
                assert forall|k: int| #![trigger seen.push(r)[k]] 0 <= k < seen.push(r).len() implies exists|a: int|
                    #![trigger ng[a]] 0 <= a < ng.len() && ng[a].entity_type@ == seen.push(r)[k].entity_type@ by {
                    if k < seen.len() {
                        let a = choose|a: int| #![trigger gs[a]] 0 <= a < gs.len() && gs[a].entity_type@ == seen[k].entity_type@;
                        if a < j {
                            assert(ng[a].entity_type@ == seen.push(r)[k].entity_type@);
                        } else {
                            assert(ng[a + 1].entity_type@ == seen.push(r)[k].entity_type@);
                        }
                    } else {
                        assert(ng[j as int].entity_type@ == seen.push(r)[k].entity_type@);
                    }
                }
            }
        }
    }
}

/// Overwriting the value of the entry at `i`, whose key is looked up there
/// first, changes the lookup of that key only.
proof fn lemma_pending_update(v: Seq<(String, bool)>, i: int, key: String, b: bool)
    requires
        0 <= i < v.len(),
        v[i].0@ == key@,
        forall|j: int| 0 <= j < i ==> v[j].0@ != key@,
    ensures
        pending_lookup(v.update(i, (key, b)), key@) == Some(b),
        forall|t: Seq<char>|
            t != key@ ==> pending_lookup(v.update(i, (key, b)), t) == pending_lookup(v, t),
    decreases v.len(),
{
    let w = v.update(i, (key, b));
    if i > 0 {
        assert(w.drop_first() =~= v.drop_first().update(i - 1, (key, b)));
        lemma_pending_update(v.drop_first(), i - 1, key, b);
        assert forall|t: Seq<char>| t != key@ implies pending_lookup(w, t) == pending_lookup(v, t) by {
            assert(w[0] == v[0]);
            assert(w.drop_first() == v.drop_first().update(i - 1, (key, b)));
            if v[0].0@ != t {
                assert(pending_lookup(w, t) == pending_lookup(w.drop_first(), t));
                assert(pending_lookup(v, t) == pending_lookup(v.drop_first(), t));
            }
        }
    } else {
        assert(w.drop_first() =~= v.drop_first());
        assert forall|t: Seq<char>| t != key@ implies pending_lookup(w, t) == pending_lookup(v, t) by {
            assert(w[0].0@ == key@);
        }
    }
}

/// Appending an entry for a key not yet stored.
proof fn lemma_pending_push(v: Seq<(String, bool)>, key: String, b: bool)
    requires
        forall|j: int| 0 <= j < v.len() ==> v[j].0@ != key@,
    ensures
        pending_lookup(v.push((key, b)), key@) == Some(b),
        forall|t: Seq<char>| t != key@ ==> pending_lookup(v.push((key, b)), t) == pending_lookup(v, t),
    decreases v.len(),
{
    let w = v.push((key, b));
    if v.len() > 0 {
        assert(w.drop_first() =~= v.drop_first().push((key, b)));
        lemma_pending_push(v.drop_first(), key, b);
        assert forall|t: Seq<char>| t != key@ implies pending_lookup(w, t) == pending_lookup(v, t) by {
            assert(w[0] == v[0]);
            if v[0].0@ != t {
                assert(pending_lookup(w, t) == pending_lookup(w.drop_first(), t));
                assert(pending_lookup(v, t) == pending_lookup(v.drop_first(), t));
            }
        }
    } else {
        assert(w.drop_first() =~= Seq::<(String, bool)>::empty());
        assert forall|t: Seq<char>| t != key@ implies pending_lookup(w, t) == pending_lookup(v, t) by {
            assert(w[0].0@ == key@);
            assert(pending_lookup(w, t) == pending_lookup(w.drop_first(), t));
        }
    }
}

/// Changing expansion flags does not change the full total.
proof fn lemma_full_total_flags(a: Seq<EntityGroup>, b: Seq<EntityGroup>)
    requires
        a.len() == b.len(),
        forall|i: int| 0 <= i < a.len() ==> a[i].entities@.len() == b[i].entities@.len(),
    ensures
        full_total(a) == full_total(b),
    decreases a.len(),
{
    if a.len() > 0 {
        lemma_full_total_flags(a.drop_first(), b.drop_first());
    }
}

} // verus!
