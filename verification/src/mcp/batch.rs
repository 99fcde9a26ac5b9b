//! Creating relations in a batch: every spec is validated before any
//! relation is created, and the reply reports what was created and what
//! failed.
use vstd::prelude::*;

use crate::ids::{parses_as_uuid, uuid_text};
use crate::mcp::tools::RelationSpec;
use crate::store::types::{opt_view, relation_for_word, relation_name, RelationType};
use crate::text::{byte_prefix, cuttable, decimal, lowercase, prefix_bytes, push_decimal, push_str};

verus! {

/// A validated relation, ready to be created: its type and the full IDs
/// of its source and target.
#[derive(Debug)]
pub struct PlannedRelation {
    pub relation: RelationType,
    pub source_id: String,
    pub target_id: String,
}

/// What validation decided for a batch.
#[derive(Debug)]
pub enum BatchPlan {
    /// The batch held no spec.
    Empty,
    /// At least one spec failed; this is the reply, and nothing is created.
    Invalid(String),
    /// Every spec is valid; these relations are to be created, in order.
    Ready(Vec<PlannedRelation>),
}

/// The label of the spec at index `i`: its 1-based number in brackets.
pub open spec fn label(i: nat) -> Seq<char> {
    "["@ + decimal(i + 1) + "] "@
}

/// The check of spec `i`, given the full IDs its source and target
/// resolved to (`None`: not found or ambiguous) and whether each of those
/// parses as a UUID: the first failure in the order source, target,
/// relation type, source UUID, target UUID, or the planned relation.
pub open spec fn check_spec(i: nat, spec: RelationSpec, source: Option<Seq<char>>, target: Option<Seq<char>>, source_ok: bool, target_ok: bool) -> Result<(RelationType, Seq<char>, Seq<char>), Seq<char>> {
    match source {
        None => Err(label(i) + "source `"@ + spec.source_id@ + "`: not found or ambiguous"@),
        Some(s) => match target {
            None => Err(label(i) + "target `"@ + spec.target_id@ + "`: not found or ambiguous"@),
            Some(t) => match relation_for_word(lowercase(spec.relation_type@)) {
                None => Err(label(i) + "unknown relation type: "@ + spec.relation_type@),
                Some(r) => if !source_ok {
                    Err(label(i) + "invalid source UUID: "@ + s)
                } else if !target_ok {
                    Err(label(i) + "invalid target UUID: "@ + t)
                } else {
                    Ok((r, s, t))
                },
            },
        },
    }
}

/// The checks of the first `n` specs.
pub open spec fn checks(specs: Seq<RelationSpec>, sources: Seq<Option<String>>, targets: Seq<Option<String>>, source_ok: Seq<bool>, target_ok: Seq<bool>, n: nat) -> Seq<Result<(RelationType, Seq<char>, Seq<char>), Seq<char>>>
    decreases n,
{
    if n == 0 {
        Seq::empty()
    } else {
        let i = (n - 1) as nat;
        checks(specs, sources, targets, source_ok, target_ok, i).push(
            check_spec(i, specs[i as int], opt_view(sources[i as int]), opt_view(targets[i as int]), source_ok[i as int], target_ok[i as int]))
    }
}

/// The failures among checks, in order.
pub open spec fn failures(c: Seq<Result<(RelationType, Seq<char>, Seq<char>), Seq<char>>>) -> Seq<Seq<char>>
    decreases c.len(),
{
    if c.len() == 0 {
        Seq::empty()
    } else {
        match c.last() {
            Err(e) => failures(c.drop_last()).push(e),
            Ok(_) => failures(c.drop_last()),
        }
    }
}

/// The planned relations among checks, in order.
pub open spec fn planned(c: Seq<Result<(RelationType, Seq<char>, Seq<char>), Seq<char>>>) -> Seq<(RelationType, Seq<char>, Seq<char>)>
    decreases c.len(),
{
    if c.len() == 0 {
        Seq::empty()
    } else {
        match c.last() {
            Ok(p) => planned(c.drop_last()).push(p),
            Err(_) => planned(c.drop_last()),
        }
    }
}

/// Lines `- <e>\n` for each error.
pub open spec fn bullet_lines(errs: Seq<Seq<char>>) -> Seq<char>
    decreases errs.len(),
{
    if errs.len() == 0 {
        Seq::empty()
    } else {
        bullet_lines(errs.drop_last()) + "- "@ + errs.last() + "\n"@
    }
}

/// The reply when validation fails.
pub open spec fn invalid_text(errs: Seq<Seq<char>>, total: nat) -> Seq<char> {
    "## Validation Failed\n\n"@ + decimal(errs.len()) + " of "@ + decimal(total) + " relations have errors:\n\n"@
        + bullet_lines(errs) + "\nNo relations were created. Fix errors and retry."@
}

/// The view of a planned relation.
pub open spec fn planned_view(p: PlannedRelation) -> (RelationType, Seq<char>, Seq<char>) {
    (p.relation, p.source_id@, p.target_id@)
}

/// Appends `- <e>\n`.
fn push_bullet(t: &mut String, e: &str)
    ensures
        final(t)@ == old(t)@ + "- "@ + e@ + "\n"@,
{
    push_str(t, "- ");
    push_str(t, e);
    push_str(t, "\n");
}

/// Appends the label of spec `i`.
fn push_label(t: &mut String, i: usize)
    requires
        i < usize::MAX,
    ensures
        final(t)@ == old(t)@ + label(i as nat),
{
    push_str(t, "[");
    push_decimal(t, i + 1);
    push_str(t, "] ");
}

fn check_one(i: usize, spec: &RelationSpec, source: &Option<String>, target: &Option<String>, source_ok: bool, target_ok: bool) -> (r: Result<PlannedRelation, String>)
    requires
        i < usize::MAX,
    ensures
        match r {
            Ok(p) => check_spec(i as nat, *spec, opt_view(*source), opt_view(*target), source_ok, target_ok) == Ok::<(RelationType, Seq<char>, Seq<char>), Seq<char>>(planned_view(p)),
            Err(e) => check_spec(i as nat, *spec, opt_view(*source), opt_view(*target), source_ok, target_ok) == Err::<(RelationType, Seq<char>, Seq<char>), Seq<char>>(e@),
        },
{
    let mut e = String::new();
    push_label(&mut e, i);
    let s = match source {
        None => {
            push_str(&mut e, "source `");
            push_str(&mut e, spec.source_id.as_str());
            push_str(&mut e, "`: not found or ambiguous");
            return Err(e);
        },
        Some(s) => s,
    };
    let t = match target {
        None => {
            push_str(&mut e, "target `");
            push_str(&mut e, spec.target_id.as_str());
            push_str(&mut e, "`: not found or ambiguous");
            return Err(e);
        },
        Some(t) => t,
    };
    let rel = match RelationType::from_word(spec.relation_type.as_str()) {
        Err(_) => {
            push_str(&mut e, "unknown relation type: ");
            push_str(&mut e, spec.relation_type.as_str());
            return Err(e);
        },
        Ok(r) => r,
    };
    if !source_ok {
        push_str(&mut e, "invalid source UUID: ");
        push_str(&mut e, s.as_str());
        return Err(e);
    }
    if !target_ok {
        push_str(&mut e, "invalid target UUID: ");
        push_str(&mut e, t.as_str());
        return Err(e);
    }
    Ok(PlannedRelation { relation: rel, source_id: s.clone(), target_id: t.clone() })
}

proof fn lemma_checks_prefix(specs: Seq<RelationSpec>, sources: Seq<Option<String>>, targets: Seq<Option<String>>, source_ok: Seq<bool>, target_ok: Seq<bool>, k: nat, n: nat)
    requires
        k <= n,
    ensures
        checks(specs, sources, targets, source_ok, target_ok, n).len() == n,
        checks(specs, sources, targets, source_ok, target_ok, k) == checks(specs, sources, targets, source_ok, target_ok, n).take(k as int),
    decreases n,
{
    let cn = checks(specs, sources, targets, source_ok, target_ok, n);
    if n > 0 {
        lemma_checks_prefix(specs, sources, targets, source_ok, target_ok, if k == n { (n - 1) as nat } else { k }, (n - 1) as nat);
        if k == n {
            assert(cn.take(k as int) =~= cn);
        } else {
            let cp = checks(specs, sources, targets, source_ok, target_ok, (n - 1) as nat);
            assert(cn.take(k as int) =~= cp.take(k as int));
        }
    }
}

/// Validate a batch of relation specs, given the full ID each source and
/// target resolved to (`None`: not found or ambiguous) and whether each
/// resolved ID parses as a UUID. An empty batch is `Empty`; a batch with
/// any failing spec is `Invalid` with the report of every failure; else
/// it is `Ready` with the relations to create, in order.
pub fn plan_batch_checked(specs: &Vec<RelationSpec>, sources: &Vec<Option<String>>, targets: &Vec<Option<String>>, source_ok: &Vec<bool>, target_ok: &Vec<bool>) -> (p: BatchPlan)
    requires
        sources@.len() == specs@.len(),
        targets@.len() == specs@.len(),
        source_ok@.len() == specs@.len(),
        target_ok@.len() == specs@.len(),
    ensures
        ({
            let c = checks(specs@, sources@, targets@, source_ok@, target_ok@, specs@.len());
            if specs@.len() == 0 {
                p is Empty
            } else if failures(c).len() > 0 {
                p matches BatchPlan::Invalid(t) && t@ == invalid_text(failures(c), specs@.len())
            } else {
                p matches BatchPlan::Ready(v) && v@.map_values(|x: PlannedRelation| planned_view(x)) == planned(c)
            }
        }),
{
    let n = specs.len();
    if n == 0 {
        return BatchPlan::Empty;
    }
    let ghost c = checks(specs@, sources@, targets@, source_ok@, target_ok@, n as nat);
    proof {
        lemma_checks_prefix(specs@, sources@, targets@, source_ok@, target_ok@, 0, n as nat);
    }
    let mut ready: Vec<PlannedRelation> = Vec::new();
    let mut errors = String::new();
    let mut nerr: usize = 0;
    for i in 0..n
        invariant
            n == specs@.len() == sources@.len() == targets@.len() == source_ok@.len() == target_ok@.len(),
            c == checks(specs@, sources@, targets@, source_ok@, target_ok@, n as nat),
            c.len() == n,
            nerr == failures(c.take(i as int)).len(),
            nerr <= i,
            errors@ == bullet_lines(failures(c.take(i as int))),
            ready@.map_values(|x: PlannedRelation| planned_view(x)) == planned(c.take(i as int)),
    {
        proof {
            lemma_checks_prefix(specs@, sources@, targets@, source_ok@, target_ok@, (i + 1) as nat, n as nat);
            lemma_checks_prefix(specs@, sources@, targets@, source_ok@, target_ok@, i as nat, n as nat);
        }
        assert(c.take(i + 1).drop_last() =~= c.take(i as int));
        assert(c.take(i + 1).last() == c[i as int]);
        match check_one(i, &specs[i], &sources[i], &targets[i], source_ok[i], target_ok[i]) {
            Ok(pr) => {
                let ghost before = ready@.map_values(|x: PlannedRelation| planned_view(x));
                ready.push(pr);
                assert(ready@.map_values(|x: PlannedRelation| planned_view(x)) =~= before.push(planned_view(ready@.last())));
            },
            Err(e) => {
                let ghost fs = failures(c.take(i as int));
                assert(failures(c.take(i + 1)) == fs.push(e@));
                assert(fs.push(e@).drop_last() =~= fs);
                push_bullet(&mut errors, e.as_str());
                assert(errors@ =~= bullet_lines(fs.push(e@)));
                nerr += 1;
            },
        }
    }
    assert(c.take(n as int) =~= c);
    if nerr > 0 {
        let mut t = "## Validation Failed\n\n".to_owned();
        push_decimal(&mut t, nerr);
        push_str(&mut t, " of ");
        push_decimal(&mut t, n);
        push_str(&mut t, " relations have errors:\n\n");
        push_str(&mut t, errors.as_str());
        push_str(&mut t, "\nNo relations were created. Fix errors and retry.");
        BatchPlan::Invalid(t)
    } else {
        BatchPlan::Ready(ready)
    }
}


/// For each resolved ID, whether it parses as a UUID (`false` for an
/// unresolved one).
pub open spec fn uuid_flags(ids: Seq<Option<String>>) -> Seq<bool> {
    ids.map_values(|o: Option<String>| match o {
        Some(s) => uuid_text(s@),
        None => false,
    })
}

fn uuid_checks(ids: &Vec<Option<String>>) -> (v: Vec<bool>)
    ensures
        v@ == uuid_flags(ids@),
{
    let mut v: Vec<bool> = Vec::new();
    let n = ids.len();
    for i in 0..n
        invariant
            n == ids@.len(),
            v@ =~= uuid_flags(ids@.take(i as int)),
    {
        let b = match &ids[i] {
            Some(s) => parses_as_uuid(s.as_str()),
            None => false,
        };
        v.push(b);
        assert(uuid_flags(ids@.take(i + 1)) =~= uuid_flags(ids@.take(i as int)).push(b));
    }
    assert(ids@.take(n as int) =~= ids@);
    v
}

/// Validate a batch of relation specs, given the full ID each source and
/// target resolved to (`None`: not found or ambiguous); each resolved ID
/// is checked to parse as a UUID (see `plan_batch_checked`).
pub fn plan_batch(specs: &Vec<RelationSpec>, sources: &Vec<Option<String>>, targets: &Vec<Option<String>>) -> (p: BatchPlan)
    requires
        sources@.len() == specs@.len(),
        targets@.len() == specs@.len(),
    ensures
        ({
            let c = checks(specs@, sources@, targets@, uuid_flags(sources@), uuid_flags(targets@), specs@.len());
            if specs@.len() == 0 {
                p is Empty
            } else if failures(c).len() > 0 {
                p matches BatchPlan::Invalid(t) && t@ == invalid_text(failures(c), specs@.len())
            } else {
                p matches BatchPlan::Ready(v) && v@.map_values(|x: PlannedRelation| planned_view(x)) == planned(c)
            }
        }),
{
    let so = uuid_checks(sources);
    let to = uuid_checks(targets);
    plan_batch_checked(specs, sources, targets, &so, &to)
}

/// The table row of the `i`-th planned relation.
pub open spec fn relation_row(i: nat, p: (RelationType, Seq<char>, Seq<char>)) -> Seq<char> {
    "| "@ + decimal(i + 1) + " | `"@ + byte_prefix(p.1, 8) + "` | "@ + relation_name(p.0) + " | `"@ + byte_prefix(p.2, 8) + "` |\n"@
}

/// The table rows of the planned relations, numbered from 1.
pub open spec fn relation_rows(ps: Seq<(RelationType, Seq<char>, Seq<char>)>) -> Seq<char>
    decreases ps.len(),
{
    if ps.len() == 0 {
        Seq::empty()
    } else {
        relation_rows(ps.drop_last()) + relation_row((ps.len() - 1) as nat, ps.last())
    }
}

/// The error of a relation whose creation failed with `msg`.
pub open spec fn edge_error(p: (RelationType, Seq<char>, Seq<char>), msg: Seq<char>) -> Seq<char> {
    "`"@ + byte_prefix(p.1, 8) + "` -["@ + relation_name(p.0) + "]-> `"@ + byte_prefix(p.2, 8) + "`: "@ + msg
}

/// The errors of the relations whose creation failed, in order.
pub open spec fn edge_errors(ps: Seq<(RelationType, Seq<char>, Seq<char>)>, fails: Seq<Option<Seq<char>>>) -> Seq<Seq<char>>
    decreases ps.len(),
{
    if ps.len() == 0 || fails.len() == 0 {
        Seq::empty()
    } else {
        match fails.last() {
            Some(m) => edge_errors(ps.drop_last(), fails.drop_last()).push(edge_error(ps.last(), m)),
            None => edge_errors(ps.drop_last(), fails.drop_last()),
        }
    }
}

/// The report of a batch whose `total` specs were planned as `ps`, where
/// `fails` gives for each planned relation the error its creation failed
/// with, if any.
pub open spec fn batch_report_text(total: nat, ps: Seq<(RelationType, Seq<char>, Seq<char>)>, fails: Seq<Option<Seq<char>>>) -> Seq<char> {
    let errs = edge_errors(ps, fails);
    "## Batch Relations Created\n\n"@ + decimal((ps.len() - errs.len()) as nat) + " of "@ + decimal(total)
        + " relations created.\n\n| # | Source | Relation | Target |\n|---|---|---|---|\n"@
        + relation_rows(ps)
        + (if errs.len() > 0 { "\n**Errors:**\n"@ + bullet_lines(errs) } else { Seq::empty() })
}

/// The views of optional failure messages.
pub open spec fn fails_view(f: Seq<Option<String>>) -> Seq<Option<Seq<char>>> {
    f.map_values(|o: Option<String>| opt_view(o))
}

proof fn lemma_edge_errors_len(ps: Seq<(RelationType, Seq<char>, Seq<char>)>, fails: Seq<Option<Seq<char>>>)
    ensures
        edge_errors(ps, fails).len() <= ps.len(),
    decreases ps.len(),
{
    if ps.len() > 0 && fails.len() > 0 {
        lemma_edge_errors_len(ps.drop_last(), fails.drop_last());
    }
}

fn relation_row_text(i: usize, p: &PlannedRelation) -> (l: String)
    requires
        i < usize::MAX,
        cuttable(p.source_id@, 8),
        cuttable(p.target_id@, 8),
    ensures
        l@ == relation_row(i as nat, planned_view(*p)),
{
    let mut l = "| ".to_owned();
    push_decimal(&mut l, i + 1);
    push_str(&mut l, " | `");
    push_str(&mut l, prefix_bytes(p.source_id.as_str(), 8).as_str());
    push_str(&mut l, "` | ");
    push_str(&mut l, p.relation.name());
    push_str(&mut l, " | `");
    push_str(&mut l, prefix_bytes(p.target_id.as_str(), 8).as_str());
    push_str(&mut l, "` |\n");
    l
}

fn edge_error_text(p: &PlannedRelation, m: &str) -> (e: String)
    requires
        cuttable(p.source_id@, 8),
        cuttable(p.target_id@, 8),
    ensures
        e@ == edge_error(planned_view(*p), m@),
{
    let mut e = "`".to_owned();
    push_str(&mut e, prefix_bytes(p.source_id.as_str(), 8).as_str());
    push_str(&mut e, "` -[");
    push_str(&mut e, p.relation.name());
    push_str(&mut e, "]-> `");
    push_str(&mut e, prefix_bytes(p.target_id.as_str(), 8).as_str());
    push_str(&mut e, "`: ");
    push_str(&mut e, m);
    e
}

/// Whether every planned relation's IDs can be cut to 8 bytes.
pub open spec fn plan_ids_cuttable(ps: Seq<PlannedRelation>) -> bool {
    forall|i: int| 0 <= i < ps.len() ==> cuttable(#[trigger] ps[i].source_id@, 8) && cuttable(ps[i].target_id@, 8)
}

/// The report of a created batch (see `batch_report_text`).
pub fn batch_report(total: usize, ps: &Vec<PlannedRelation>, fails: &Vec<Option<String>>) -> (t: String)
    requires
        fails@.len() == ps@.len(),
        plan_ids_cuttable(ps@),
    ensures
        t@ == batch_report_text(total as nat, ps@.map_values(|x: PlannedRelation| planned_view(x)), fails_view(fails@)),
{
    let ghost pv = ps@.map_values(|x: PlannedRelation| planned_view(x));
    let ghost fv = fails_view(fails@);
    let mut rows = String::new();
    let mut errors = String::new();
    let mut nerr: usize = 0;
    let n = ps.len();
    for i in 0..n
        invariant
            n == ps@.len() == fails@.len(),
            plan_ids_cuttable(ps@),
            pv == ps@.map_values(|x: PlannedRelation| planned_view(x)),
            fv == fails_view(fails@),
            rows@ == relation_rows(pv.take(i as int)),
            errors@ == bullet_lines(edge_errors(pv.take(i as int), fv.take(i as int))),
            nerr == edge_errors(pv.take(i as int), fv.take(i as int)).len(),
            nerr <= i,
    {
        assert(pv.take(i + 1).drop_last() =~= pv.take(i as int));
        assert(fv.take(i + 1).drop_last() =~= fv.take(i as int));
        assert(pv.take(i + 1).last() == planned_view(ps@[i as int]));
        assert(fv.take(i + 1).last() == opt_view(fails@[i as int]));
        assert(cuttable(ps@[i as int].source_id@, 8) && cuttable(ps@[i as int].target_id@, 8));
        let line = relation_row_text(i, &ps[i]);
        push_str(&mut rows, line.as_str());
        match &fails[i] {
            Some(m) => {
                let ghost es = edge_errors(pv.take(i as int), fv.take(i as int));
                let e = edge_error_text(&ps[i], m.as_str());
                assert(edge_errors(pv.take(i + 1), fv.take(i + 1)) == es.push(e@));
                assert(es.push(e@).drop_last() =~= es);
                push_bullet(&mut errors, e.as_str());
                assert(errors@ =~= bullet_lines(es.push(e@)));
                nerr += 1;
            },
            None => {},
        }
    }
    assert(pv.take(n as int) =~= pv);
    assert(fv.take(n as int) =~= fv);
    let mut t = "## Batch Relations Created\n\n".to_owned();
    push_decimal(&mut t, n - nerr);
    push_str(&mut t, " of ");
    push_decimal(&mut t, total);
    push_str(&mut t, " relations created.\n\n| # | Source | Relation | Target |\n|---|---|---|---|\n");
    push_str(&mut t, rows.as_str());
    if nerr > 0 {
        push_str(&mut t, "\n**Errors:**\n");
        push_str(&mut t, errors.as_str());
    }
    t
}

/// A batch that validation accepts plans every one of its specs: each
/// spec either fails or is planned, so with no failure all are planned.
pub proof fn law_valid_batch_plans_every_spec(c: Seq<Result<(RelationType, Seq<char>, Seq<char>), Seq<char>>>)
    ensures
        planned(c).len() + failures(c).len() == c.len(),
        failures(c).len() == 0 ==> planned(c).len() == c.len(),
    decreases c.len(),
{
    if c.len() > 0 {
        law_valid_batch_plans_every_spec(c.drop_last());
    }
}

} // verus!
