//! The workspace summary: entity counts by type, the task breakdown,
//! transcripts awaiting extraction, and the most recently updated entities.
use vstd::prelude::*;

use crate::store::entities::EntityRow;
use crate::text::{byte_len, byte_prefix, contains, cuttable, decimal, prefix_bytes, push_decimal, push_str, seq_lt, shorten, shortened, str_eq, str_lt, strings_view};

verus! {

/// `s` with `x` inserted after every element that `x` is not above under
/// `lt` (the step of a stable sort into descending order).
pub open spec fn insert_desc<A>(s: Seq<A>, x: A, lt: spec_fn(A, A) -> bool) -> Seq<A>
    decreases s.len(),
{
    if s.len() == 0 {
        seq![x]
    } else if lt(s[0], x) {
        seq![x] + s
    } else {
        seq![s[0]] + insert_desc(s.drop_first(), x, lt)
    }
}

/// `s` sorted into descending order under `lt`, stably: elements that are
/// not ordered keep their order.
pub open spec fn sort_desc<A>(s: Seq<A>, lt: spec_fn(A, A) -> bool) -> Seq<A>
    decreases s.len(),
{
    if s.len() == 0 {
        Seq::empty()
    } else {
        insert_desc(sort_desc(s.drop_last(), lt), s.last(), lt)
    }
}

/// Inserting at the first element below `x` is `insert_desc`.
pub proof fn lemma_insert_desc_at<A>(s: Seq<A>, x: A, lt: spec_fn(A, A) -> bool, j: int)
    requires
        0 <= j <= s.len(),
        forall|k: int| 0 <= k < j ==> !lt(#[trigger] s[k], x),
        j < s.len() ==> lt(s[j], x),
    ensures
        insert_desc(s, x, lt) == s.take(j) + seq![x] + s.skip(j),
    decreases s.len(),
{
    if s.len() == 0 {
        assert(s.take(j) + seq![x] + s.skip(j) =~= seq![x]);
    } else if j == 0 {
        assert(s.take(0) + seq![x] + s.skip(0) =~= seq![x] + s);
    } else {
        let t = s.drop_first();
        assert forall|k: int| 0 <= k < j - 1 implies !lt(#[trigger] t[k], x) by {
            assert(t[k] == s[k + 1]);
        }
        if j - 1 < t.len() {
            assert(t[j - 1] == s[j]);
        }
        lemma_insert_desc_at(t, x, lt, j - 1);
        assert(seq![s[0]] + (t.take(j - 1) + seq![x] + t.skip(j - 1)) =~= s.take(j) + seq![x] + s.skip(j));
    }
}

/// No element of `s` stands above an earlier one under `lt`: `s` is in
/// descending order.
pub open spec fn sorted_desc<A>(s: Seq<A>, lt: spec_fn(A, A) -> bool) -> bool {
    forall|i: int, j: int| 0 <= i < j < s.len() ==> !lt(#[trigger] s[i], #[trigger] s[j])
}

/// `lt` is a strict order: never both ways, and transitive.
pub open spec fn strict_order<A>(lt: spec_fn(A, A) -> bool) -> bool {
    &&& forall|a: A, b: A| #[trigger] lt(a, b) ==> !lt(b, a)
    &&& forall|a: A, b: A, c: A| #[trigger] lt(a, b) && #[trigger] lt(b, c) ==> lt(a, c)
}

/// `insert_desc` puts `x` in at the first element that is below it.
pub proof fn lemma_insert_desc_index<A>(s: Seq<A>, x: A, lt: spec_fn(A, A) -> bool) -> (j: int)
    ensures
        0 <= j <= s.len(),
        insert_desc(s, x, lt) == s.insert(j, x),
        forall|k: int| 0 <= k < j ==> !lt(#[trigger] s[k], x),
        j < s.len() ==> lt(s[j], x),
    decreases s.len(),
{
    if s.len() == 0 {
        assert(s.insert(0, x) =~= seq![x]);
        0
    } else if lt(s[0], x) {
        assert(s.insert(0, x) =~= seq![x] + s);
        0
    } else {
        let t = s.drop_first();
        let j = lemma_insert_desc_index(t, x, lt);
        assert(seq![s[0]] + t.insert(j, x) =~= s.insert(j + 1, x));
        assert forall|k: int| 0 <= k < j + 1 implies !lt(#[trigger] s[k], x) by {
            if k > 0 {
                assert(s[k] == t[k - 1]);
            }
        }
        if j < t.len() {
            assert(s[j + 1] == t[j]);
        }
        j + 1
    }
}

/// Sorting into descending order under a strict order gives a sequence in
/// descending order that holds the same elements, each as often.
pub proof fn law_sort_desc<A>(s: Seq<A>, lt: spec_fn(A, A) -> bool)
    requires
        strict_order(lt),
    ensures
        sorted_desc(sort_desc(s, lt), lt),
        sort_desc(s, lt).to_multiset() == s.to_multiset(),
    decreases s.len(),
{
    broadcast use vstd::seq_lib::group_to_multiset_ensures;

    if s.len() == 0 {
        assert(s =~= Seq::<A>::empty());
    } else {
        let p = s.drop_last();
        let x = s.last();
        law_sort_desc(p, lt);
        let r = sort_desc(p, lt);
        let j = lemma_insert_desc_index(r, x, lt);
        let r2 = r.insert(j, x);
        assert(s =~= p.push(x));
        assert forall|a: int, b: int| 0 <= a < b < r2.len() implies !lt(#[trigger] r2[a], #[trigger] r2[b]) by {
            if a < j && b < j {
                assert(r2[a] == r[a] && r2[b] == r[b]);
            } else if a < j && b == j {
                assert(r2[a] == r[a]);
            } else if a < j {
                assert(r2[a] == r[a] && r2[b] == r[b - 1]);
            } else if a == j {
                assert(r2[b] == r[b - 1]);
                if lt(x, r[b - 1]) {
                    assert(lt(r[j], x));
                    if b - 1 > j {
                        assert(!lt(r[j], r[b - 1]));
                    }
                }
            } else {
                assert(r2[a] == r[a - 1] && r2[b] == r[b - 1]);
            }
        }
    }
}

/// How often each type occurs, types in order of first occurrence.
pub open spec fn tally(types: Seq<Seq<char>>) -> Seq<(Seq<char>, nat)>
    decreases types.len(),
{
    if types.len() == 0 {
        Seq::empty()
    } else {
        bump(tally(types.drop_last()), types.last())
    }
}

/// The index of `t` in a tally, or -1.
pub open spec fn tally_index(ts: Seq<(Seq<char>, nat)>, t: Seq<char>) -> int
    decreases ts.len(),
{
    if ts.len() == 0 {
        -1
    } else if tally_index(ts.drop_last(), t) >= 0 {
        tally_index(ts.drop_last(), t)
    } else if ts.last().0 == t {
        ts.len() - 1
    } else {
        -1
    }
}

/// A tally with one more occurrence of `t`.
pub open spec fn bump(ts: Seq<(Seq<char>, nat)>, t: Seq<char>) -> Seq<(Seq<char>, nat)> {
    let k = tally_index(ts, t);
    if k >= 0 {
        ts.update(k, (t, ts[k].1 + 1))
    } else {
        ts.push((t, 1))
    }
}

proof fn lemma_tally_index(ts: Seq<(Seq<char>, nat)>, t: Seq<char>)
    ensures
        -1 <= tally_index(ts, t) < ts.len(),
        tally_index(ts, t) >= 0 ==> ts[tally_index(ts, t)].0 == t,
        tally_index(ts, t) >= 0 ==> forall|k: int| 0 <= k < tally_index(ts, t) ==> (#[trigger] ts[k]).0 != t,
        tally_index(ts, t) < 0 ==> forall|k: int| 0 <= k < ts.len() ==> (#[trigger] ts[k]).0 != t,
    decreases ts.len(),
{
    if ts.len() > 0 {
        let dl = ts.drop_last();
        lemma_tally_index(dl, t);
        assert forall|k: int| 0 <= k < ts.len() - 1 implies #[trigger] ts[k] == dl[k] by {}
    }
}

/// Rows of the entity types, in order.
pub open spec fn row_types(rows: Seq<EntityRow>) -> Seq<Seq<char>> {
    rows.map_values(|r: EntityRow| r.entity_type@)
}

/// The count order of tally entries.
pub open spec fn fewer(a: (Seq<char>, nat), b: (Seq<char>, nat)) -> bool {
    a.1 < b.1
}

/// The order of rows by update time.
pub open spec fn older(rows: Seq<EntityRow>) -> spec_fn(int, int) -> bool {
    |i: int, j: int| seq_lt(rows[i].updated_at@, rows[j].updated_at@)
}

/// The count order of tally entries, as a closure.
pub open spec fn by_count() -> spec_fn((Seq<char>, nat), (Seq<char>, nat)) -> bool {
    |a: (Seq<char>, nat), b: (Seq<char>, nat)| fewer(a, b)
}

/// The tally of entity types, most frequent first (ties in order of first
/// occurrence).
pub open spec fn type_table(rows: Seq<EntityRow>) -> Seq<(Seq<char>, nat)> {
    sort_desc(tally(row_types(rows)), by_count())
}

/// The tally of entity types (see `type_table`); the tied types of equal
/// count come in order of first occurrence.
pub fn type_counts(rows: &Vec<EntityRow>) -> (v: Vec<(String, usize)>)
    ensures
        v@.map_values(|p: (String, usize)| (p.0@, p.1 as nat)) == type_table(rows@),
{
    let ghost tv = row_types(rows@);
    let mut t: Vec<(String, usize)> = Vec::new();
    let n = rows.len();
    for i in 0..n
        invariant
            n == rows@.len(),
            tv == row_types(rows@),
            t@.map_values(|p: (String, usize)| (p.0@, p.1 as nat)) == tally(tv.take(i as int)),
            forall|k: int| 0 <= k < t@.len() ==> #[trigger] t@[k].1 <= i,
    {
        let ghost before = tally(tv.take(i as int));
        assert(tv.take(i + 1).drop_last() =~= tv.take(i as int));
        assert(tv.take(i + 1).last() == rows@[i as int].entity_type@);
        proof {
            lemma_tally_index(before, rows@[i as int].entity_type@);
        }
        let m = t.len();
        let mut k: usize = 0;
        while k < m && !str_eq(t[k].0.as_str(), rows[i].entity_type.as_str())
            invariant
                i < rows@.len(),
                m == t@.len(),
                k <= m,
                t@.map_values(|p: (String, usize)| (p.0@, p.1 as nat)) == before,
                forall|q: int| 0 <= q < k ==> (#[trigger] before[q]).0 != rows@[i as int].entity_type@,
            decreases m - k,
        {
            k += 1;
        }
        if k < m {
            assert(before[k as int].0 == rows@[i as int].entity_type@);
            assert(tally_index(before, rows@[i as int].entity_type@) == k);
            let c = t[k].1;
            let name = t[k].0.clone();
            t.set(k, (name, c + 1));
            assert(t@.map_values(|p: (String, usize)| (p.0@, p.1 as nat)) =~= before.update(k as int, (rows@[i as int].entity_type@, before[k as int].1 + 1)));
        } else {
            assert(tally_index(before, rows@[i as int].entity_type@) < 0);
            t.push((rows[i].entity_type.clone(), 1));
            assert(t@.map_values(|p: (String, usize)| (p.0@, p.1 as nat)) =~= before.push((rows@[i as int].entity_type@, 1)));
        }
    }
    assert(tv.take(n as int) =~= tv);
    let ghost tl = t@.map_values(|p: (String, usize)| (p.0@, p.1 as nat));
    let ghost lt = by_count();
    let mut sorted: Vec<(String, usize)> = Vec::new();
    let m = t.len();
    for i in 0..m
        invariant
            m == t@.len(),
            tl == t@.map_values(|p: (String, usize)| (p.0@, p.1 as nat)),
            lt == by_count(),
            sorted@.map_values(|p: (String, usize)| (p.0@, p.1 as nat)) == sort_desc(tl.take(i as int), lt),
    {
        let ghost sv = sorted@.map_values(|p: (String, usize)| (p.0@, p.1 as nat));
        assert(tl.take(i + 1).drop_last() =~= tl.take(i as int));
        let c = t[i].1;
        let ln = sorted.len();
        let mut j: usize = 0;
        while j < ln && !(sorted[j].1 < c)
            invariant
                ln == sorted@.len(),
                j <= ln,
                sv == sorted@.map_values(|p: (String, usize)| (p.0@, p.1 as nat)),
                tl[i as int].1 == c as nat,
                lt == by_count(),
                forall|q: int| 0 <= q < j ==> !lt(#[trigger] sv[q], tl[i as int]),
            decreases ln - j,
        {
            assert(sv[j as int].1 == sorted@[j as int].1 as nat);
            j += 1;
        }
        if j < ln {
            assert(sv[j as int].1 == sorted@[j as int].1 as nat);
        }
        proof {
            lemma_insert_desc_at(sv, tl[i as int], lt, j as int);
        }
        sorted.insert(j, (t[i].0.clone(), c));
        assert(sorted@.map_values(|p: (String, usize)| (p.0@, p.1 as nat)) =~= sv.take(j as int) + seq![tl[i as int]] + sv.skip(j as int));
    }
    assert(tl.take(m as int) =~= tl);
    sorted
}


/// The integers `0..n`.
pub open spec fn upto(n: nat) -> Seq<int> {
    Seq::new(n, |i: int| i)
}

/// The row indices, most recently updated first (ties keep row order).
pub open spec fn recency_order(rows: Seq<EntityRow>) -> Seq<int> {
    sort_desc(upto(rows.len()), older(rows))
}

/// The row indices, most recently updated first (see `recency_order`).
pub fn recent_order(rows: &Vec<EntityRow>) -> (v: Vec<usize>)
    ensures
        v@.map_values(|i: usize| i as int) == recency_order(rows@),
        v@.len() == rows@.len(),
        forall|k: int| 0 <= k < v@.len() ==> #[trigger] v@[k] < rows@.len(),
{
    let ghost lt = older(rows@);
    let mut v: Vec<usize> = Vec::new();
    let n = rows.len();
    for i in 0..n
        invariant
            n == rows@.len(),
            lt == older(rows@),
            v@.map_values(|x: usize| x as int) == sort_desc(upto(i as nat), lt),
            v@.len() == i,
            forall|k: int| 0 <= k < v@.len() ==> #[trigger] v@[k] < i,
    {
        let ghost vv = v@.map_values(|x: usize| x as int);
        assert(upto((i + 1) as nat).drop_last() =~= upto(i as nat));
        let ln = v.len();
        let mut j: usize = 0;
        while j < ln && !str_lt(rows[v[j]].updated_at.as_str(), rows[i].updated_at.as_str())
            invariant
                n == rows@.len(),
                i < n,
                ln == v@.len(),
                j <= ln,
                vv == v@.map_values(|x: usize| x as int),
                forall|k: int| 0 <= k < v@.len() ==> #[trigger] v@[k] < i,
                lt == older(rows@),
                forall|q: int| 0 <= q < j ==> !lt(#[trigger] vv[q], i as int),
            decreases ln - j,
        {
            assert(vv[j as int] == v@[j as int] as int);
            j += 1;
        }
        if j < ln {
            assert(vv[j as int] == v@[j as int] as int);
        }
        proof {
            lemma_insert_desc_at(vv, i as int, lt, j as int);
        }
        v.insert(j, i);
        assert(v@.map_values(|x: usize| x as int) =~= vv.take(j as int) + seq![i as int] + vv.skip(j as int));
    }
    v
}

/// Whether a row is a task in state `state`.
pub open spec fn is_task_in(r: EntityRow, state: Seq<char>) -> bool {
    &&& r.entity_type@ == "Task"@
    &&& r.task_state matches Some(st) && st@ == state
}

/// How many rows are tasks in state `state`.
pub open spec fn tasks_in(rows: Seq<EntityRow>, state: Seq<char>) -> nat
    decreases rows.len(),
{
    if rows.len() == 0 {
        0
    } else {
        tasks_in(rows.drop_last(), state) + if is_task_in(rows.last(), state) { 1nat } else { 0nat }
    }
}

/// The IDs of the transcript rows, in order.
pub open spec fn transcripts(rows: Seq<EntityRow>) -> Seq<Seq<char>>
    decreases rows.len(),
{
    if rows.len() == 0 {
        Seq::empty()
    } else if rows.last().entity_type@ == "Transcript"@ {
        transcripts(rows.drop_last()).push(rows.last().id@)
    } else {
        transcripts(rows.drop_last())
    }
}

/// The IDs of the transcript rows, in order (those whose processing
/// history the summary needs).
pub fn transcript_ids(rows: &Vec<EntityRow>) -> (v: Vec<String>)
    ensures
        strings_view(v@) == transcripts(rows@),
{
    let mut v: Vec<String> = Vec::new();
    let n = rows.len();
    for i in 0..n
        invariant
            n == rows@.len(),
            strings_view(v@) == transcripts(rows@.take(i as int)),
    {
        assert(rows@.take(i + 1).drop_last() =~= rows@.take(i as int));
        if str_eq(rows[i].entity_type.as_str(), "Transcript") {
            v.push(rows[i].id.clone());
            assert(strings_view(v@) =~= transcripts(rows@.take(i as int)).push(rows@[i as int].id@));
        }
    }
    assert(rows@.take(n as int) =~= rows@);
    v
}

/// How many flags are unset.
pub open spec fn unset(flags: Seq<bool>) -> nat
    decreases flags.len(),
{
    if flags.len() == 0 {
        0
    } else {
        unset(flags.drop_last()) + if flags.last() { 0nat } else { 1nat }
    }
}

/// The lines of the type table.
pub open spec fn type_lines(t: Seq<(Seq<char>, nat)>) -> Seq<char>
    decreases t.len(),
{
    if t.len() == 0 {
        Seq::empty()
    } else {
        type_lines(t.drop_last()) + "| "@ + t.last().0 + " | "@ + decimal(t.last().1) + " |\n"@
    }
}

/// The activity line of a row.
pub open spec fn recent_line(r: EntityRow) -> Seq<char> {
    "| `"@ + byte_prefix(r.id@, 8) + "` | "@ + r.entity_type@ + " | "@ + r.title@ + " | "@ + shortened(r.updated_at@, 10) + " |\n"@
}

/// The activity lines of the rows at the given indices.
pub open spec fn recent_lines(rows: Seq<EntityRow>, idx: Seq<int>) -> Seq<char>
    decreases idx.len(),
{
    if idx.len() == 0 {
        Seq::empty()
    } else {
        recent_lines(rows, idx.drop_last()) + recent_line(rows[idx.last()])
    }
}

/// The workspace summary of `rows`, where `extracted` tells, for each
/// transcript in order, whether its history holds an extraction (`None`
/// when the processing log could not be opened: no transcript is then
/// counted as unprocessed).
pub open spec fn summary_text(rows: Seq<EntityRow>, extracted: Option<Seq<bool>>) -> Seq<char> {
    let todo = tasks_in(rows, "todo"@);
    let doing = tasks_in(rows, "doing"@);
    let blocked = tasks_in(rows, "blocked"@);
    let done = tasks_in(rows, "done"@);
    let total = todo + doing + blocked + done;
    let tr = transcripts(rows);
    let unprocessed = match extracted { Some(f) => unset(f), None => 0 };
    let order = recency_order(rows);
    "## Workspace Summary\n\n**"@ + decimal(rows.len()) + " entities total**\n\n"@
        + "### Entities by Type\n\n| Type | Count |\n|---|---|\n"@ + type_lines(type_table(rows))
        + (if total > 0 {
            "\n### Tasks ("@ + decimal(total) + " total)\n\n| State | Count |\n|---|---|\n| Todo | "@
                + decimal(todo) + " |\n| Active | "@ + decimal(doing) + " |\n| Blocked | "@
                + decimal(blocked) + " |\n| Done | "@ + decimal(done) + " |\n"@
        } else {
            Seq::empty()
        })
        + (if tr.len() > 0 {
            "\n### Transcripts\n\n"@ + decimal(tr.len()) + " total, **"@ + decimal(unprocessed) + " unprocessed**\n"@
        } else {
            Seq::empty()
        })
        + (if rows.len() > 0 {
            "\n### Recent Activity\n\n| ID | Type | Title | Updated |\n|---|---|---|---|\n"@
                + recent_lines(rows, order.take(if rows.len() < 10 { rows.len() as int } else { 10 }))
        } else {
            Seq::empty()
        })
}


/// The rows that are tasks in state `state`.
pub open spec fn task_rows(rows: Seq<EntityRow>, state: Seq<char>) -> Seq<EntityRow> {
    rows.filter(|r: EntityRow| r.entity_type@ == "Task"@ && (r.task_state matches Some(st) && st@ == state))
}

/// `tasks_in` counts the rows that are tasks in the state.
pub proof fn lemma_tasks_in_counts(rows: Seq<EntityRow>, state: Seq<char>)
    ensures
        tasks_in(rows, state) == task_rows(rows, state).len(),
    decreases rows.len(),
{
    reveal(Seq::filter);
    if rows.len() > 0 {
        lemma_tasks_in_counts(rows.drop_last(), state);
    }
}

/// The task table of the summary counts each state from the rows: the
/// `Todo` row the tasks whose state is `todo`, `Active` those in `doing`,
/// `Blocked` those in `blocked` and `Done` those in `done`. It is there
/// whenever some task is in one of these states.
pub proof fn law_summary_task_counts(rows: Seq<EntityRow>, extracted: Option<Seq<bool>>)
    ensures
        task_rows(rows, "todo"@).len() + task_rows(rows, "doing"@).len() + task_rows(rows, "blocked"@).len()
            + task_rows(rows, "done"@).len() > 0 ==> contains(
            summary_text(rows, extracted),
            "| Todo | "@ + decimal(task_rows(rows, "todo"@).len()) + " |\n| Active | "@ + decimal(
                task_rows(rows, "doing"@).len(),
            ) + " |\n| Blocked | "@ + decimal(task_rows(rows, "blocked"@).len()) + " |\n| Done | "@ + decimal(
                task_rows(rows, "done"@).len(),
            ) + " |\n"@,
        ),
{
    lemma_tasks_in_counts(rows, "todo"@);
    lemma_tasks_in_counts(rows, "doing"@);
    lemma_tasks_in_counts(rows, "blocked"@);
    lemma_tasks_in_counts(rows, "done"@);
    let todo = tasks_in(rows, "todo"@);
    let doing = tasks_in(rows, "doing"@);
    let blocked = tasks_in(rows, "blocked"@);
    let done = tasks_in(rows, "done"@);
    let total = todo + doing + blocked + done;
    if total > 0 {
        let tr = transcripts(rows);
        let unprocessed = match extracted { Some(f) => unset(f), None => 0 };
        let order = recency_order(rows);
        let table = "| Todo | "@ + decimal(todo) + " |\n| Active | "@ + decimal(doing) + " |\n| Blocked | "@
            + decimal(blocked) + " |\n| Done | "@ + decimal(done) + " |\n"@;
        let x = "## Workspace Summary\n\n**"@ + decimal(rows.len()) + " entities total**\n\n"@
            + "### Entities by Type\n\n| Type | Count |\n|---|---|\n"@ + type_lines(type_table(rows));
        let ts = "\n### Tasks ("@ + decimal(total) + " total)\n\n| State | Count |\n|---|---|\n| Todo | "@
            + decimal(todo) + " |\n| Active | "@ + decimal(doing) + " |\n| Blocked | "@
            + decimal(blocked) + " |\n| Done | "@ + decimal(done) + " |\n"@;
        let p = "\n### Tasks ("@ + decimal(total) + " total)\n\n| State | Count |\n|---|---|\n"@;
        let trp = if tr.len() > 0 {
            "\n### Transcripts\n\n"@ + decimal(tr.len()) + " total, **"@ + decimal(unprocessed) + " unprocessed**\n"@
        } else {
            Seq::empty()
        };
        let rcp = if rows.len() > 0 {
            "\n### Recent Activity\n\n| ID | Type | Title | Updated |\n|---|---|---|---|\n"@
                + recent_lines(rows, order.take(if rows.len() < 10 { rows.len() as int } else { 10 }))
        } else {
            Seq::empty()
        };
        reveal_strlit(" total)\n\n| State | Count |\n|---|---|\n| Todo | ");
        reveal_strlit(" total)\n\n| State | Count |\n|---|---|\n");
        reveal_strlit("| Todo | ");
        assert(" total)\n\n| State | Count |\n|---|---|\n| Todo | "@ =~= " total)\n\n| State | Count |\n|---|---|\n"@
            + "| Todo | "@);
        assert(ts =~= p + table);
        let whole = x + ts + trp + rcp;
        assert(summary_text(rows, extracted) == whole);
        let i: int = (x.len() + p.len()) as int;
        assert(whole.subrange(i, i + table.len() as int) =~= table);
        crate::text::lemma_occurs_found(whole, table, 0, i);
    }
}

/// Whether the rows shown as recent activity can be cut as the summary
/// cuts them: IDs to 8 bytes, update times longer than 10 bytes to 10.
#[verifier::opaque]
pub open spec fn recent_cuttable(rows: Seq<EntityRow>) -> bool {
    let order = recency_order(rows);
    forall|k: int| 0 <= k < order.len() && k < 10 ==> {
        let r = #[trigger] rows[order[k]];
        &&& cuttable(r.id@, 8)
        &&& byte_len(r.updated_at@) > 10 ==> cuttable(r.updated_at@, 10)
    }
}

proof fn lemma_tasks_total(rows: Seq<EntityRow>)
    ensures
        tasks_in(rows, "todo"@) + tasks_in(rows, "doing"@) + tasks_in(rows, "blocked"@) + tasks_in(rows, "done"@) <= rows.len(),
    decreases rows.len(),
{
    if rows.len() > 0 {
        lemma_tasks_total(rows.drop_last());
        reveal_strlit("todo");
        reveal_strlit("doing");
        reveal_strlit("blocked");
        reveal_strlit("done");
        assert("todo"@[0] != "doing"@[0]);
        assert("todo"@[0] != "done"@[0]);
        assert("doing"@[2] != "done"@[2]);
        assert("blocked"@.len() != "todo"@.len());
        assert("blocked"@.len() != "doing"@.len());
        assert("blocked"@.len() != "done"@.len());
    }
}

fn count_tasks(rows: &Vec<EntityRow>, state: &str) -> (c: usize)
    ensures
        c == tasks_in(rows@, state@),
        c <= rows@.len(),
{
    let mut c: usize = 0;
    let n = rows.len();
    for i in 0..n
        invariant
            n == rows@.len(),
            c == tasks_in(rows@.take(i as int), state@),
            c <= i,
    {
        assert(rows@.take(i + 1).drop_last() =~= rows@.take(i as int));
        let hit = match &rows[i].task_state {
            Some(st) => str_eq(rows[i].entity_type.as_str(), "Task") && str_eq(st.as_str(), state),
            None => false,
        };
        if hit {
            c += 1;
        }
    }
    assert(rows@.take(n as int) =~= rows@);
    c
}

fn count_unset(flags: &Vec<bool>) -> (c: usize)
    ensures
        c == unset(flags@),
{
    let mut c: usize = 0;
    let n = flags.len();
    for i in 0..n
        invariant
            n == flags@.len(),
            c == unset(flags@.take(i as int)),
            c <= i,
    {
        assert(flags@.take(i + 1).drop_last() =~= flags@.take(i as int));
        if !flags[i] {
            c += 1;
        }
    }
    assert(flags@.take(n as int) =~= flags@);
    c
}

proof fn lemma_transcripts_len(rows: Seq<EntityRow>)
    ensures
        transcripts(rows).len() <= rows.len(),
    decreases rows.len(),
{
    if rows.len() > 0 {
        lemma_transcripts_len(rows.drop_last());
    }
}

proof fn lemma_recent_cut(rows: Seq<EntityRow>, k: int)
    requires
        recent_cuttable(rows),
        0 <= k < recency_order(rows).len(),
        k < 10,
    ensures
        cuttable(rows[recency_order(rows)[k]].id@, 8),
        byte_len(rows[recency_order(rows)[k]].updated_at@) > 10 ==> cuttable(rows[recency_order(rows)[k]].updated_at@, 10),
{
    reveal(recent_cuttable);
}

/// Appends the lines of the type table of `rows`.
fn push_type_lines(t: &mut String, rows: &Vec<EntityRow>)
    ensures
        final(t)@ == old(t)@ + type_lines(type_table(rows@)),
{
    let tc = type_counts(rows);
    let ghost tv = tc@.map_values(|p: (String, usize)| (p.0@, p.1 as nat));
    let ghost head = t@;
    let m = tc.len();
    for i in 0..m
        invariant
            m == tc@.len(),
            tv == tc@.map_values(|p: (String, usize)| (p.0@, p.1 as nat)),
            t@ == head + type_lines(tv.take(i as int)),
    {
        assert(tv.take(i + 1).drop_last() =~= tv.take(i as int));
        assert(tv[i as int] == (tc@[i as int].0@, tc@[i as int].1 as nat));
        push_str(t, "| ");
        push_str(t, tc[i].0.as_str());
        push_str(t, " | ");
        push_decimal(t, tc[i].1);
        push_str(t, " |\n");
    }
    assert(tv.take(m as int) =~= tv);
}

/// The activity line of a row.
fn recent_row_line(r: &EntityRow) -> (l: String)
    requires
        cuttable(r.id@, 8),
        byte_len(r.updated_at@) > 10 ==> cuttable(r.updated_at@, 10),
    ensures
        l@ == recent_line(*r),
{
    let mut l = "| `".to_owned();
    push_str(&mut l, prefix_bytes(r.id.as_str(), 8).as_str());
    push_str(&mut l, "` | ");
    push_str(&mut l, r.entity_type.as_str());
    push_str(&mut l, " | ");
    push_str(&mut l, r.title.as_str());
    push_str(&mut l, " | ");
    push_str(&mut l, shorten(r.updated_at.as_str(), 10).as_str());
    push_str(&mut l, " |\n");
    l
}

/// The activity lines of the (up to ten) most recently updated rows.
fn recent_section_lines(rows: &Vec<EntityRow>) -> (t: String)
    requires
        recent_cuttable(rows@),
    ensures
        t@ == recent_lines(rows@, recency_order(rows@).take(
            if rows@.len() < 10 { rows@.len() as int } else { 10 },
        )),
{
    let n = rows.len();
    let order = recent_order(rows);
    let ghost ov = order@.map_values(|i: usize| i as int);
    let shown: usize = if n < 10 { n } else { 10 };
    let mut t = String::new();
    for k in 0..shown
        invariant
            shown <= n == rows@.len() == order@.len(),
            shown <= 10,
            ov == order@.map_values(|i: usize| i as int),
            ov == recency_order(rows@),
            forall|q: int| 0 <= q < order@.len() ==> #[trigger] order@[q] < rows@.len(),
            recent_cuttable(rows@),
            t@ == recent_lines(rows@, ov.take(k as int)),
    {
        assert(ov.take(k + 1).drop_last() =~= ov.take(k as int));
        assert(ov[k as int] == order@[k as int] as int);
        proof {
            lemma_recent_cut(rows@, k as int);
        }
        let line = recent_row_line(&rows[order[k]]);
        push_str(&mut t, line.as_str());
    }
    t
}

/// The task section, when there is any task in a known state.
fn tasks_section(todo: usize, doing: usize, blocked: usize, done: usize) -> (t: String)
    requires
        todo + doing + blocked + done <= usize::MAX,
    ensures
        t@ == "\n### Tasks ("@ + decimal((todo + doing + blocked + done) as nat) + " total)\n\n| State | Count |\n|---|---|\n| Todo | "@
            + decimal(todo as nat) + " |\n| Active | "@ + decimal(doing as nat) + " |\n| Blocked | "@
            + decimal(blocked as nat) + " |\n| Done | "@ + decimal(done as nat) + " |\n"@,
{
    let mut t = "\n### Tasks (".to_owned();
    push_decimal(&mut t, todo + doing + blocked + done);
    push_str(&mut t, " total)\n\n| State | Count |\n|---|---|\n| Todo | ");
    push_decimal(&mut t, todo);
    push_str(&mut t, " |\n| Active | ");
    push_decimal(&mut t, doing);
    push_str(&mut t, " |\n| Blocked | ");
    push_decimal(&mut t, blocked);
    push_str(&mut t, " |\n| Done | ");
    push_decimal(&mut t, done);
    push_str(&mut t, " |\n");
    t
}

/// The transcript section.
fn transcripts_section(total: usize, unprocessed: usize) -> (t: String)
    ensures
        t@ == "\n### Transcripts\n\n"@ + decimal(total as nat) + " total, **"@ + decimal(unprocessed as nat) + " unprocessed**\n"@,
{
    let mut t = "\n### Transcripts\n\n".to_owned();
    push_decimal(&mut t, total);
    push_str(&mut t, " total, **");
    push_decimal(&mut t, unprocessed);
    push_str(&mut t, " unprocessed**\n");
    t
}

/// The workspace summary (see `summary_text`).
pub fn workspace_summary(rows: &Vec<EntityRow>, extracted: Option<Vec<bool>>) -> (t: String)
    requires
        extracted matches Some(f) ==> f@.len() == transcripts(rows@).len(),
        recent_cuttable(rows@),
    ensures
        t@ == summary_text(rows@, match extracted { Some(f) => Some(f@), None => None }),
{
    let n = rows.len();
    let todo = count_tasks(rows, "todo");
    let doing = count_tasks(rows, "doing");
    let blocked = count_tasks(rows, "blocked");
    let done = count_tasks(rows, "done");
    let tr = transcript_ids(rows);
    let unprocessed = match &extracted {
        Some(f) => count_unset(f),
        None => 0,
    };
    proof {
        lemma_transcripts_len(rows@);
        lemma_tasks_total(rows@);
    }
    let ghost ex = match extracted { Some(f) => Some(f@), None => None };
    let ghost total = todo + doing + blocked + done;
    let ghost order = recency_order(rows@);
    let ghost sec_t = if total > 0 {
        "\n### Tasks ("@ + decimal(total as nat) + " total)\n\n| State | Count |\n|---|---|\n| Todo | "@
            + decimal(todo as nat) + " |\n| Active | "@ + decimal(doing as nat) + " |\n| Blocked | "@
            + decimal(blocked as nat) + " |\n| Done | "@ + decimal(done as nat) + " |\n"@
    } else {
        Seq::<char>::empty()
    };
    let ghost sec_r = if tr@.len() > 0 {
        "\n### Transcripts\n\n"@ + decimal(tr@.len()) + " total, **"@ + decimal(unprocessed as nat) + " unprocessed**\n"@
    } else {
        Seq::<char>::empty()
    };
    let ghost sec_c = if rows@.len() > 0 {
        "\n### Recent Activity\n\n| ID | Type | Title | Updated |\n|---|---|---|---|\n"@
            + recent_lines(rows@, order.take(if rows@.len() < 10 { rows@.len() as int } else { 10 }))
    } else {
        Seq::<char>::empty()
    };
    assert(unprocessed as nat == match ex { Some(f) => unset(f), None => 0 });
    let mut t = "## Workspace Summary\n\n**".to_owned();
    push_decimal(&mut t, n);
    push_str(&mut t, " entities total**\n\n");
    push_str(&mut t, "### Entities by Type\n\n| Type | Count |\n|---|---|\n");
    push_type_lines(&mut t, rows);
    let ghost a = t@;
    if todo + doing + blocked + done > 0 {
        push_str(&mut t, tasks_section(todo, doing, blocked, done).as_str());
    }
    assert(t@ =~= a + sec_t);
    let ghost b = t@;
    if tr.len() > 0 {
        push_str(&mut t, transcripts_section(tr.len(), unprocessed).as_str());
    }
    assert(t@ =~= b + sec_r);
    let ghost c = t@;
    if n > 0 {
        let recent = recent_section_lines(rows);
        push_str(&mut t, "\n### Recent Activity\n\n| ID | Type | Title | Updated |\n|---|---|---|---|\n");
        push_str(&mut t, recent.as_str());
    }
    assert(t@ =~= c + sec_c);
    assert(t@ =~= a + sec_t + sec_r + sec_c);
    t
}


/// The entity types whose unprocessed items a queue request lists, by its
/// type filter (lowercased): transcripts, notes, or both.
pub open spec fn queue_kinds(filter: Option<Seq<char>>) -> Seq<Seq<char>> {
    match filter {
        Some(f) => if f == "transcript"@ {
            seq!["Transcript"@]
        } else if f == "note"@ {
            seq!["Note"@]
        } else {
            seq!["Transcript"@, "Note"@]
        },
        None => seq!["Transcript"@, "Note"@],
    }
}

/// The entity types to list for an extraction queue request (see
/// `queue_kinds`; the filter is compared in lowercase).
pub fn queue_types(filter: Option<&str>) -> (v: Vec<&'static str>)
    ensures
        v@.map_values(|s: &str| s@) == queue_kinds(match filter { Some(f) => Some(crate::text::lowercase(f@)), None => None }),
{
    let v: Vec<&'static str> = match filter {
        Some(f) => {
            let low = crate::text::to_lowercase(f);
            if str_eq(low.as_str(), "transcript") {
                vec!["Transcript"]
            } else if str_eq(low.as_str(), "note") {
                vec!["Note"]
            } else {
                vec!["Transcript", "Note"]
            }
        },
        None => vec!["Transcript", "Note"],
    };
    assert(v@.map_values(|s: &str| s@) =~= queue_kinds(match filter { Some(f) => Some(crate::text::lowercase(f@)), None => None }));
    v
}

/// The order of rows by creation time, reversed (so that sorting
/// "descending" by it sorts oldest first).
pub open spec fn newer(rows: Seq<EntityRow>) -> spec_fn(int, int) -> bool {
    |i: int, j: int| seq_lt(rows[j].created_at@, rows[i].created_at@)
}

/// The indices of the candidates whose flag says they hold no extraction.
pub open spec fn pending_indices(flags: Seq<bool>) -> Seq<int>
    decreases flags.len(),
{
    if flags.len() == 0 {
        Seq::empty()
    } else if flags.last() {
        pending_indices(flags.drop_last())
    } else {
        pending_indices(flags.drop_last()).push(flags.len() - 1)
    }
}

/// The line of the `i`-th queued item.
pub open spec fn queue_line(i: nat, r: EntityRow) -> Seq<char> {
    "| "@ + decimal(i + 1) + " | `"@ + byte_prefix(r.id@, 8) + "` | "@ + r.entity_type@ + " | "@ + r.title@ + " | "@
        + shortened(r.created_at@, 10) + " |\n"@
}

/// The lines of the queued items, numbered from 1.
pub open spec fn queue_lines(rows: Seq<EntityRow>, idx: Seq<int>) -> Seq<char>
    decreases idx.len(),
{
    if idx.len() == 0 {
        Seq::empty()
    } else {
        queue_lines(rows, idx.drop_last()) + queue_line((idx.len() - 1) as nat, rows[idx.last()])
    }
}

/// The extraction queue of the candidates, given for each whether its
/// history holds an extraction: those without one, oldest first (ties in
/// candidate order).
pub open spec fn queue_order(rows: Seq<EntityRow>, flags: Seq<bool>) -> Seq<int> {
    sort_desc(pending_indices(flags), newer(rows))
}

/// The reply listing the extraction queue.
pub open spec fn queue_text(rows: Seq<EntityRow>, flags: Seq<bool>) -> Seq<char> {
    let q = queue_order(rows, flags);
    if q.len() == 0 {
        "All transcripts and notes have been processed. Nothing in the extraction queue."@
    } else {
        "## Extraction Queue\n\n**"@ + decimal(q.len()) + " unprocessed** items:\n\n| # | ID | Type | Title | Captured |\n|---|---|---|---|---|\n"@
            + queue_lines(rows, q)
    }
}

/// Whether every queued row (one whose flag says it holds no extraction)
/// can be cut as the queue cuts it.
pub open spec fn queue_cuttable(rows: Seq<EntityRow>, flags: Seq<bool>) -> bool {
    forall|i: int| 0 <= i < rows.len() && !flags[i] ==> {
        &&& cuttable((#[trigger] rows[i]).id@, 8)
        &&& byte_len(rows[i].created_at@) > 10 ==> cuttable(rows[i].created_at@, 10)
    }
}

fn queue_row_line(i: usize, r: &EntityRow) -> (l: String)
    requires
        i < usize::MAX,
        cuttable(r.id@, 8),
        byte_len(r.created_at@) > 10 ==> cuttable(r.created_at@, 10),
    ensures
        l@ == queue_line(i as nat, *r),
{
    let mut l = "| ".to_owned();
    push_decimal(&mut l, i + 1);
    push_str(&mut l, " | `");
    push_str(&mut l, prefix_bytes(r.id.as_str(), 8).as_str());
    push_str(&mut l, "` | ");
    push_str(&mut l, r.entity_type.as_str());
    push_str(&mut l, " | ");
    push_str(&mut l, r.title.as_str());
    push_str(&mut l, " | ");
    push_str(&mut l, shorten(r.created_at.as_str(), 10).as_str());
    push_str(&mut l, " |\n");
    l
}

/// The extraction queue order (see `queue_order`).
fn queue_indices(rows: &Vec<EntityRow>, extracted: &Vec<bool>) -> (v: Vec<usize>)
    requires
        extracted@.len() == rows@.len(),
    ensures
        v@.map_values(|i: usize| i as int) == queue_order(rows@, extracted@),
        forall|k: int| 0 <= k < v@.len() ==> #[trigger] v@[k] < rows@.len(),
        forall|k: int| 0 <= k < v@.len() ==> !extracted@[#[trigger] v@[k] as int],
{
    let ghost lt = newer(rows@);
    let mut v: Vec<usize> = Vec::new();
    let n = rows.len();
    for i in 0..n
        invariant
            n == rows@.len() == extracted@.len(),
            lt == newer(rows@),
            v@.map_values(|x: usize| x as int) == sort_desc(pending_indices(extracted@.take(i as int)), lt),
            forall|k: int| 0 <= k < v@.len() ==> #[trigger] v@[k] < i,
            forall|k: int| 0 <= k < v@.len() ==> !extracted@[#[trigger] v@[k] as int],
    {
        let ghost vv = v@.map_values(|x: usize| x as int);
        assert(extracted@.take(i + 1).drop_last() =~= extracted@.take(i as int));
        if !extracted[i] {
            let ghost pend = pending_indices(extracted@.take(i as int));
            assert(pending_indices(extracted@.take(i + 1)) == pend.push(i as int));
            assert(pend.push(i as int).drop_last() =~= pend);
            let ln = v.len();
            let mut j: usize = 0;
            while j < ln && !str_lt(rows[i].created_at.as_str(), rows[v[j]].created_at.as_str())
                invariant
                    n == rows@.len(),
                    i < n,
                    ln == v@.len(),
                    j <= ln,
                    vv == v@.map_values(|x: usize| x as int),
                    forall|k: int| 0 <= k < v@.len() ==> #[trigger] v@[k] < i,
                    lt == newer(rows@),
                    forall|q: int| 0 <= q < j ==> !lt(#[trigger] vv[q], i as int),
                decreases ln - j,
            {
                assert(vv[j as int] == v@[j as int] as int);
                j += 1;
            }
            if j < ln {
                assert(vv[j as int] == v@[j as int] as int);
            }
            proof {
                lemma_insert_desc_at(vv, i as int, lt, j as int);
            }
            let ghost before = v@;
            v.insert(j, i);
            assert(v@.map_values(|x: usize| x as int) =~= vv.take(j as int) + seq![i as int] + vv.skip(j as int));
            assert forall|k: int| 0 <= k < v@.len() implies !extracted@[#[trigger] v@[k] as int] by {
                if k < j {
                    assert(v@[k] == before[k]);
                } else if k > j {
                    assert(v@[k] == before[k - 1]);
                }
            }
        } else {
            assert(pending_indices(extracted@.take(i + 1)) == pending_indices(extracted@.take(i as int)));
        }
    }
    assert(extracted@.take(n as int) =~= extracted@);
    v
}

/// The reply listing the extraction queue of the candidates (transcripts,
/// then notes, as listed for the request's types), given for each whether
/// its history holds an extraction (see `queue_text`).
pub fn extraction_queue(rows: &Vec<EntityRow>, extracted: &Vec<bool>) -> (t: String)
    requires
        extracted@.len() == rows@.len(),
        queue_cuttable(rows@, extracted@),
    ensures
        t@ == queue_text(rows@, extracted@),
{
    let q = queue_indices(rows, extracted);
    if q.len() == 0 {
        return "All transcripts and notes have been processed. Nothing in the extraction queue.".to_owned();
    }
    let ghost qv = q@.map_values(|i: usize| i as int);
    let mut lines = String::new();
    let m = q.len();
    for k in 0..m
        invariant
            m == q@.len(),
            qv == q@.map_values(|i: usize| i as int),
            forall|x: int| 0 <= x < q@.len() ==> #[trigger] q@[x] < rows@.len(),
            forall|x: int| 0 <= x < q@.len() ==> !extracted@[#[trigger] q@[x] as int],
            extracted@.len() == rows@.len(),
            queue_cuttable(rows@, extracted@),
            lines@ == queue_lines(rows@, qv.take(k as int)),
    {
        assert(qv.take(k + 1).drop_last() =~= qv.take(k as int));
        assert(qv[k as int] == q@[k as int] as int);
        let r = &rows[q[k]];
        assert(!extracted@[q@[k as int] as int]);
        assert(cuttable(rows@[q@[k as int] as int].id@, 8));
        let line = queue_row_line(k, r);
        push_str(&mut lines, line.as_str());
    }
    assert(qv.take(m as int) =~= qv);
    let mut t = "## Extraction Queue\n\n**".to_owned();
    push_decimal(&mut t, m);
    push_str(&mut t, " unprocessed** items:\n\n| # | ID | Type | Title | Captured |\n|---|---|---|---|---|\n");
    push_str(&mut t, lines.as_str());
    t
}

} // verus!
