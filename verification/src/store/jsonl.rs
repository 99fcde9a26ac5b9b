//! Append-only JSONL logs of the workspace: tags (`data/tags.jsonl`) and
//! activity events (`data/events.jsonl`). Each record is one JSON object on
//! a line of its own; the rules here decide which records a query returns
//! and which records a change writes.
use vstd::prelude::*;

use crate::path::{join_path, path_join};
use crate::text::{push_char, push_str, str_eq, strings_view};

verus! {

/// A tag association: an entity has a tag.
#[derive(Debug, Clone)]
pub struct TagEntry {
    pub entity_id: String,
    pub tag: String,
}

/// A tag entry as a pair of (entity ID, tag).
pub open spec fn entry_view(e: TagEntry) -> (Seq<char>, Seq<char>) {
    (e.entity_id@, e.tag@)
}

/// The pairs of a sequence of entries.
pub open spec fn entries_view(s: Seq<TagEntry>) -> Seq<(Seq<char>, Seq<char>)> {
    s.map_values(|e: TagEntry| entry_view(e))
}

/// The tags of entity `id`, in log order.
pub open spec fn tags_of(s: Seq<(Seq<char>, Seq<char>)>, id: Seq<char>) -> Seq<Seq<char>>
    decreases s.len(),
{
    if s.len() == 0 {
        Seq::empty()
    } else if s.last().0 == id {
        tags_of(s.drop_last(), id).push(s.last().1)
    } else {
        tags_of(s.drop_last(), id)
    }
}

/// The entities that carry `tag`, in log order.
pub open spec fn entities_tagged(s: Seq<(Seq<char>, Seq<char>)>, tag: Seq<char>) -> Seq<Seq<char>>
    decreases s.len(),
{
    if s.len() == 0 {
        Seq::empty()
    } else if s.last().1 == tag {
        entities_tagged(s.drop_last(), tag).push(s.last().0)
    } else {
        entities_tagged(s.drop_last(), tag)
    }
}

/// The log without the association of `tag` with `id`.
pub open spec fn without_tag(s: Seq<(Seq<char>, Seq<char>)>, id: Seq<char>, tag: Seq<char>) -> Seq<(Seq<char>, Seq<char>)>
    decreases s.len(),
{
    if s.len() == 0 {
        Seq::empty()
    } else if s.last().0 == id && s.last().1 == tag {
        without_tag(s.drop_last(), id, tag)
    } else {
        without_tag(s.drop_last(), id, tag).push(s.last())
    }
}

/// The log after tagging `id` with `tag`: unchanged when the entity
/// already has the tag, else with the pair appended.
pub open spec fn with_tag(s: Seq<(Seq<char>, Seq<char>)>, id: Seq<char>, tag: Seq<char>) -> Seq<(Seq<char>, Seq<char>)> {
    if tags_of(s, id).contains(tag) {
        s
    } else {
        s.push((id, tag))
    }
}

/// Append-only JSONL storage for tags (`data/tags.jsonl`).
#[derive(Debug)]
pub struct TagStore {
    path: String,
}

/// Event types of the activity log.
#[derive(Debug, Clone, Copy, PartialEq, Eq, Structural)]
pub enum EventType {
    Created,
    Updated,
    Deleted,
    Promoted,
    Discarded,
    Transitioned,
    TagAdded,
    TagRemoved,
}

/// The name an event type is stored under (snake case).
pub open spec fn event_type_name(t: EventType) -> Seq<char> {
    match t {
        EventType::Created => "created"@,
        EventType::Updated => "updated"@,
        EventType::Deleted => "deleted"@,
        EventType::Promoted => "promoted"@,
        EventType::Discarded => "discarded"@,
        EventType::Transitioned => "transitioned"@,
        EventType::TagAdded => "tag_added"@,
        EventType::TagRemoved => "tag_removed"@,
    }
}

impl EventType {
    /// The name this event type is stored under.
    pub fn as_str(&self) -> (s: &'static str)
        ensures
            s@ == event_type_name(*self),
    {
        match self {
            EventType::Created => "created",
            EventType::Updated => "updated",
            EventType::Deleted => "deleted",
            EventType::Promoted => "promoted",
            EventType::Discarded => "discarded",
            EventType::Transitioned => "transitioned",
            EventType::TagAdded => "tag_added",
            EventType::TagRemoved => "tag_removed",
        }
    }
}

/// Append-only JSONL storage for events (`data/events.jsonl`).
#[derive(Debug)]
pub struct EventStore {
    path: String,
}

impl TagStore {
    /// The file this store keeps its log in.
    pub closed spec fn file(&self) -> Seq<char> {
        self.path@
    }

    /// The tag store of a data directory: `<data>/tags.jsonl`.
    pub fn new(data_path: &str) -> (s: Self)
        ensures
            s.file() == path_join(data_path@, "tags.jsonl"@),
    {
        TagStore { path: join_path(data_path, "tags.jsonl") }
    }

    /// The file this store keeps its log in.
    pub fn path(&self) -> (p: &str)
        ensures
            p@ == self.file(),
    {
        self.path.as_str()
    }

    /// The entry to append to tag `entity_id` with `tag`, or `None` when
    /// the entity already has that tag (tags are not duplicated).
    pub fn add_tag(entries: &Vec<TagEntry>, entity_id: &str, tag: &str) -> (r: Option<TagEntry>)
        ensures
            tags_of(entries_view(entries@), entity_id@).contains(tag@) ==> r is None,
            !tags_of(entries_view(entries@), entity_id@).contains(tag@) ==> (r matches Some(e)
                && e.entity_id@ == entity_id@ && e.tag@ == tag@),
    {
        let existing = TagStore::get_tags(entries, entity_id);
        let n = existing.len();
        for i in 0..n
            invariant
                n == existing@.len(),
                strings_view(existing@) == tags_of(entries_view(entries@), entity_id@),
                forall|k: int| 0 <= k < i ==> #[trigger] existing@[k]@ != tag@,
        {
            if str_eq(existing[i].as_str(), tag) {
                assert(strings_view(existing@)[i as int] == tag@);
                return None;
            }
        }
        proof {
            let tv = tags_of(entries_view(entries@), entity_id@);
            if tv.contains(tag@) {
                let k = choose|k: int| 0 <= k < tv.len() && tv[k] == tag@;
                assert(strings_view(existing@)[k] == existing@[k]@);
            }
        }
        Some(TagEntry { entity_id: entity_id.to_owned(), tag: tag.to_owned() })
    }

    /// The log with the association of `tag` with `entity_id` removed.
    pub fn remove_tag(entries: &Vec<TagEntry>, entity_id: &str, tag: &str) -> (r: Vec<TagEntry>)
        ensures
            entries_view(r@) == without_tag(entries_view(entries@), entity_id@, tag@),
    {
        let ghost ev = entries_view(entries@);
        let mut r: Vec<TagEntry> = Vec::new();
        let n = entries.len();
        for i in 0..n
            invariant
                n == entries@.len(),
                ev == entries_view(entries@),
                entries_view(r@) == without_tag(ev.take(i as int), entity_id@, tag@),
        {
            assert(ev.take(i + 1).drop_last() =~= ev.take(i as int));
            let e = &entries[i];
            if !(str_eq(e.entity_id.as_str(), entity_id) && str_eq(e.tag.as_str(), tag)) {
                r.push(TagEntry { entity_id: e.entity_id.clone(), tag: e.tag.clone() });
                assert(entries_view(r@) =~= without_tag(ev.take(i as int), entity_id@, tag@).push(ev[i as int]));
            }
        }
        assert(ev.take(n as int) =~= ev);
        r
    }

    /// The tags of an entity, in log order.
    pub fn get_tags(entries: &Vec<TagEntry>, entity_id: &str) -> (tags: Vec<String>)
        ensures
            strings_view(tags@) == tags_of(entries_view(entries@), entity_id@),
    {
        let ghost ev = entries_view(entries@);
        let mut tags: Vec<String> = Vec::new();
        let n = entries.len();
        for i in 0..n
            invariant
                n == entries@.len(),
                ev == entries_view(entries@),
                strings_view(tags@) == tags_of(ev.take(i as int), entity_id@),
        {
            assert(ev.take(i + 1).drop_last() =~= ev.take(i as int));
            if str_eq(entries[i].entity_id.as_str(), entity_id) {
                tags.push(entries[i].tag.clone());
                assert(strings_view(tags@) =~= tags_of(ev.take(i as int), entity_id@).push(ev[i as int].1));
            }
        }
        assert(ev.take(n as int) =~= ev);
        tags
    }

    /// The entities that carry a tag, in log order.
    pub fn get_entities_by_tag(entries: &Vec<TagEntry>, tag: &str) -> (ids: Vec<String>)
        ensures
            strings_view(ids@) == entities_tagged(entries_view(entries@), tag@),
    {
        let ghost ev = entries_view(entries@);
        let mut ids: Vec<String> = Vec::new();
        let n = entries.len();
        for i in 0..n
            invariant
                n == entries@.len(),
                ev == entries_view(entries@),
                strings_view(ids@) == entities_tagged(ev.take(i as int), tag@),
        {
            assert(ev.take(i + 1).drop_last() =~= ev.take(i as int));
            if str_eq(entries[i].tag.as_str(), tag) {
                ids.push(entries[i].entity_id.clone());
                assert(strings_view(ids@) =~= entities_tagged(ev.take(i as int), tag@).push(ev[i as int].0));
            }
        }
        assert(ev.take(n as int) =~= ev);
        ids
    }
}

impl EventStore {
    /// The file this store keeps its log in.
    pub closed spec fn file(&self) -> Seq<char> {
        self.path@
    }

    /// The event store of a data directory: `<data>/events.jsonl`.
    pub fn new(data_path: &str) -> (s: Self)
        ensures
            s.file() == path_join(data_path@, "events.jsonl"@),
    {
        EventStore { path: join_path(data_path, "events.jsonl") }
    }

    /// The file this store keeps its log in.
    pub fn path(&self) -> (p: &str)
        ensures
            p@ == self.file(),
    {
        self.path.as_str()
    }
}

/// The text of a JSONL file holding `lines`: each line followed by a
/// newline.
pub open spec fn jsonl_text(lines: Seq<Seq<char>>) -> Seq<char>
    decreases lines.len(),
{
    if lines.len() == 0 {
        Seq::empty()
    } else {
        jsonl_text(lines.drop_last()) + lines.last() + seq!['\n']
    }
}

/// The text of a JSONL file holding `lines` (see `jsonl_text`).
pub fn write_lines(lines: &Vec<String>) -> (t: String)
    ensures
        t@ == jsonl_text(strings_view(lines@)),
{
    let ghost lv = strings_view(lines@);
    let mut t = String::new();
    let n = lines.len();
    for i in 0..n
        invariant
            n == lines@.len(),
            lv == strings_view(lines@),
            t@ == jsonl_text(lv.take(i as int)),
    {
        assert(lv.take(i + 1).drop_last() =~= lv.take(i as int));
        push_str(&mut t, lines[i].as_str());
        push_char(&mut t, '\n');
    }
    assert(lv.take(n as int) =~= lv);
    t
}


/// Tagging an entity makes the tag one of its tags.
pub proof fn law_tag_added_is_listed(s: Seq<(Seq<char>, Seq<char>)>, id: Seq<char>, tag: Seq<char>)
    ensures
        tags_of(with_tag(s, id, tag), id).contains(tag),
{
    if !tags_of(s, id).contains(tag) {
        let s2 = s.push((id, tag));
        assert(s2.drop_last() =~= s);
        let t2 = tags_of(s2, id);
        assert(t2[t2.len() - 1] == tag);
    }
}

/// Tagging an entity twice with the same tag changes the log once.
pub proof fn law_tag_add_idempotent(s: Seq<(Seq<char>, Seq<char>)>, id: Seq<char>, tag: Seq<char>)
    ensures
        with_tag(with_tag(s, id, tag), id, tag) == with_tag(s, id, tag),
{
    law_tag_added_is_listed(s, id, tag);
}

/// Tagging keeps an entity's tags free of duplicates.
pub proof fn law_tags_stay_distinct(s: Seq<(Seq<char>, Seq<char>)>, id: Seq<char>, tag: Seq<char>)
    requires
        tags_of(s, id).no_duplicates(),
    ensures
        tags_of(with_tag(s, id, tag), id).no_duplicates(),
{
    if !tags_of(s, id).contains(tag) {
        let s2 = s.push((id, tag));
        assert(s2.drop_last() =~= s);
        assert(tags_of(s2, id) == tags_of(s, id).push(tag));
    }
}

/// After a tag is removed from an entity, the entity no longer has it.
pub proof fn law_removed_tag_not_listed(s: Seq<(Seq<char>, Seq<char>)>, id: Seq<char>, tag: Seq<char>)
    ensures
        !tags_of(without_tag(s, id, tag), id).contains(tag),
    decreases s.len(),
{
    if s.len() > 0 {
        law_removed_tag_not_listed(s.drop_last(), id, tag);
        let prev = without_tag(s.drop_last(), id, tag);
        if !(s.last().0 == id && s.last().1 == tag) {
            let w = prev.push(s.last());
            assert(w.drop_last() =~= prev);
            let t = tags_of(w, id);
            if s.last().0 == id {
                assert(t == tags_of(prev, id).push(s.last().1));
                assert forall|k: int| 0 <= k < t.len() implies t[k] != tag by {
                    if k < t.len() - 1 {
                        assert(t[k] == tags_of(prev, id)[k]);
                    }
                }
            } else {
                assert(t == tags_of(prev, id));
            }
        }
    }
}

/// Removing a tag from one entity leaves every other entity's tags as
/// they were.
pub proof fn law_remove_keeps_other_entities(s: Seq<(Seq<char>, Seq<char>)>, id: Seq<char>, tag: Seq<char>, other: Seq<char>)
    requires
        other != id,
    ensures
        tags_of(without_tag(s, id, tag), other) == tags_of(s, other),
    decreases s.len(),
{
    if s.len() > 0 {
        law_remove_keeps_other_entities(s.drop_last(), id, tag, other);
        let prev = without_tag(s.drop_last(), id, tag);
        if !(s.last().0 == id && s.last().1 == tag) {
            assert(prev.push(s.last()).drop_last() =~= prev);
        }
    }
}

/// Appending to a list adds exactly the appended item to what it holds.
proof fn lemma_push_contains(e: Seq<Seq<char>>, x: Seq<char>, id: Seq<char>)
    ensures
        e.push(x).contains(id) <==> (e.contains(id) || x == id),
{
    let p = e.push(x);
    if e.contains(id) {
        let j = choose|j: int| 0 <= j < e.len() && e[j] == id;
        assert(p[j] == id);
    }
    if x == id {
        assert(p[e.len() as int] == id);
    }
    if p.contains(id) {
        let j = choose|j: int| 0 <= j < p.len() && p[j] == id;
        if j < e.len() {
            assert(e[j] == id);
        }
    }
}

/// An entity is listed under a tag exactly when some entry of the log
/// pairs that entity with that very tag (the same text, not merely one
/// that holds it).
pub proof fn law_entities_tagged_exactly(s: Seq<(Seq<char>, Seq<char>)>, tag: Seq<char>, id: Seq<char>)
    ensures
        entities_tagged(s, tag).contains(id) <==> exists|i: int| 0 <= i < s.len() && #[trigger] s[i] == (id, tag),
    decreases s.len(),
{
    if s.len() > 0 {
        let p = s.drop_last();
        law_entities_tagged_exactly(p, tag, id);
        let e = entities_tagged(p, tag);
        lemma_push_contains(e, s.last().0, id);
        if exists|i: int| 0 <= i < p.len() && #[trigger] p[i] == (id, tag) {
            let i = choose|i: int| 0 <= i < p.len() && #[trigger] p[i] == (id, tag);
            assert(s[i] == p[i]);
        }
        if exists|i: int| 0 <= i < s.len() && #[trigger] s[i] == (id, tag) {
            let i = choose|i: int| 0 <= i < s.len() && #[trigger] s[i] == (id, tag);
            if i < p.len() {
                assert(p[i] == s[i]);
            } else {
                assert(s.last() == (id, tag));
            }
        }
        if s.last() == (id, tag) {
            assert(s[s.len() - 1] == (id, tag));
        }
    }
}

} // verus!
