//! Git-based sync of a workspace: the decisions around committing, pushing
//! and pruning history. Git itself is driven by the caller.
use vstd::prelude::*;

use crate::text::{contains, lemma_contains_suffix, push_char, push_str, str_contains, to_chars};

verus! {

/// Result of a sync operation.
#[derive(Debug, Clone, Copy)]
pub struct SyncResult {
    /// Whether a commit was created.
    pub committed: bool,
    /// Whether changes were pushed to remote.
    pub pushed: bool,
    /// Number of files changed in the commit.
    pub files_changed: usize,
}

/// Errors from sync operations; those from git and the file system carry
/// the underlying error's text.
#[derive(Debug)]
pub enum SyncError {
    GitError(String),
    NoRepository(String),
    SyncFailed(String),
    PruneFailed(String),
    Io(String),
}

/// The message a sync error displays.
pub open spec fn sync_error_message(e: SyncError) -> Seq<char> {
    match e {
        SyncError::GitError(s) => "git error: "@ + s@,
        SyncError::NoRepository(s) => "no git repository found at "@ + s@,
        SyncError::SyncFailed(s) => "sync failed: "@ + s@,
        SyncError::PruneFailed(s) => "prune failed: "@ + s@,
        SyncError::Io(s) => "I/O error: "@ + s@,
    }
}

impl SyncError {
    /// The message this error displays.
    pub fn message(&self) -> (m: String)
        ensures
            m@ == sync_error_message(*self),
    {
        let (prefix, s) = match self {
            SyncError::GitError(s) => ("git error: ", s),
            SyncError::NoRepository(s) => ("no git repository found at ", s),
            SyncError::SyncFailed(s) => ("sync failed: ", s),
            SyncError::PruneFailed(s) => ("prune failed: ", s),
            SyncError::Io(s) => ("I/O error: ", s),
        };
        let mut m = prefix.to_owned();
        push_str(&mut m, s.as_str());
        m
    }
}

/// The ignore rules a workspace repository needs: the derived index and
/// the transient inbox stay out of history.
pub open spec fn gitignore_rules() -> Seq<char> {
    "# Clotho derived indexes (rebuilt on clone)\n.clotho/index/\n# Clotho inbox (transient staging area)\n.clotho/inbox/\n"@
}

/// What `.gitignore` must be rewritten to, given its current text (`None`
/// when the file does not exist), or `None` when it already ignores both
/// the index and the inbox.
pub open spec fn gitignore_update(existing: Option<Seq<char>>) -> Option<Seq<char>> {
    match existing {
        None => Some(gitignore_rules()),
        Some(e) => if contains(e, ".clotho/index/"@) && contains(e, ".clotho/inbox/"@) {
            None
        } else if e.len() > 0 && e.last() == '\n' {
            Some(e + gitignore_rules())
        } else {
            Some(e + seq!['\n'] + gitignore_rules())
        },
    }
}

/// The text to write to `.gitignore`, if any (see `gitignore_update`).
pub fn gitignore_text(existing: Option<&str>) -> (r: Option<String>)
    ensures
        r matches Some(t) ==> gitignore_update(match existing { Some(e) => Some(e@), None => None }) == Some(t@),
        r is None ==> gitignore_update(match existing { Some(e) => Some(e@), None => None }) is None,
{
    let rules = "# Clotho derived indexes (rebuilt on clone)\n.clotho/index/\n# Clotho inbox (transient staging area)\n.clotho/inbox/\n";
    match existing {
        None => Some(rules.to_owned()),
        Some(e) => {
            if str_contains(e, ".clotho/index/") && str_contains(e, ".clotho/inbox/") {
                return None;
            }
            let c = to_chars(e);
            let mut t = e.to_owned();
            if !(c.len() > 0 && c[c.len() - 1] == '\n') {
                push_char(&mut t, '\n');
            }
            push_str(&mut t, rules);
            Some(t)
        },
    }
}

/// The refspec that pushes the current branch to the branch of the same
/// name: `<ref>:<ref>`, where a HEAD with no name counts as
/// `refs/heads/main`.
pub open spec fn push_refspec(head_name: Option<Seq<char>>) -> Seq<char> {
    let r = match head_name {
        Some(n) => n,
        None => "refs/heads/main"@,
    };
    r + seq![':'] + r
}

/// The refspec for a push (see `push_refspec`).
pub fn refspec(head_name: Option<&str>) -> (s: String)
    ensures
        s@ == push_refspec(match head_name { Some(n) => Some(n@), None => None }),
{
    let r = match head_name {
        Some(n) => n,
        None => "refs/heads/main",
    };
    let mut s = r.to_owned();
    push_char(&mut s, ':');
    push_str(&mut s, r);
    s
}

/// How history of `total` commits (newest first) is pruned to the newest
/// `keep`: `None` when there is nothing to prune; otherwise the index of
/// the oldest kept commit, whose tree becomes a new parentless root, the
/// indices of the newer kept commits in the order they are replayed onto
/// it (oldest first), and the number of commits dropped.
pub struct PrunePlan {
    pub root: usize,
    pub replay: Vec<usize>,
    pub pruned: usize,
}

/// The shape of a prune of `total` commits to the newest `keep`, as
/// (root, replayed indices, number dropped); `None` when nothing is pruned
/// (see `PrunePlan`).
pub open spec fn prune_shape(total: int, keep: int) -> Option<(int, Seq<int>, int)> {
    if total <= keep {
        None
    } else {
        Some((keep - 1, Seq::new((keep - 1) as nat, |i: int| keep - 2 - i), total - keep))
    }
}

/// A plan as (root, replayed indices, number dropped).
pub open spec fn plan_view(p: Option<PrunePlan>) -> Option<(int, Seq<int>, int)> {
    match p {
        Some(plan) => Some((plan.root as int, plan.replay@.map_values(|x: usize| x as int), plan.pruned as int)),
        None => None,
    }
}

/// Plan the pruning of `total` commits down to `keep` (see `PrunePlan`).
pub fn prune_plan(total: usize, keep: usize) -> (p: Option<PrunePlan>)
    requires
        keep >= 1 || total <= keep,
    ensures
        plan_view(p) == prune_shape(total as int, keep as int),
        total <= keep ==> p is None,
        total > keep ==> (p matches Some(plan)
            && plan.root == keep - 1
            && plan.pruned == total - keep
            && plan.replay@.len() == keep - 1
            && forall|i: int| 0 <= i < plan.replay@.len() ==> #[trigger] plan.replay@[i] == keep - 2 - i),
{
    if total <= keep {
        return None;
    }
    let mut replay: Vec<usize> = Vec::new();
    let mut j: usize = keep - 1;
    while j > 0
        invariant
            keep >= 1,
            j <= keep - 1,
            replay@.len() == keep - 1 - j,
            forall|i: int| 0 <= i < replay@.len() ==> #[trigger] replay@[i] == keep - 2 - i,
        decreases j,
    {
        j -= 1;
        replay.push(j);
    }
    let plan = PrunePlan { root: keep - 1, replay, pruned: total - keep };
    assert(plan.replay@.map_values(|x: usize| x as int) =~= Seq::new((keep - 1) as nat, |i: int| keep - 2 - i));
    Some(plan)
}

/// Pruning settles: a prune of `total` commits to the newest `keep` leaves
/// exactly `keep` of them (the new root and the replayed ones) and drops
/// the others, and pruning what is left to `keep` again changes nothing.
pub proof fn law_prune_settles(total: int, keep: int)
    requires
        keep >= 1,
    ensures
        prune_shape(total, keep) matches Some((root, replay, pruned)) ==> {
            &&& 1 + replay.len() == keep
            &&& pruned + keep == total
            &&& prune_shape((1 + replay.len()) as int, keep) is None
        },
{
}

/// The outcome of a sync whose staged tree is unchanged from HEAD.
pub fn unchanged() -> (r: SyncResult)
    ensures
        !r.committed && !r.pushed && r.files_changed == 0,
{
    SyncResult { committed: false, pushed: false, files_changed: 0 }
}

/// The outcome of a sync that committed `files_changed` files and, if a
/// remote is configured, pushed with the given success.
pub fn committed(files_changed: usize, has_remote: bool, push_ok: bool) -> (r: SyncResult)
    ensures
        r.committed,
        r.pushed == (has_remote && push_ok),
        r.files_changed == files_changed,
{
    SyncResult { committed: true, pushed: has_remote && push_ok, files_changed }
}


/// Once `.gitignore` is brought up to date, it stays as it is: a rewrite
/// keeps the former text as its beginning and ignores both the index and
/// the inbox, and a second initialisation rewrites nothing.
pub proof fn law_gitignore_settles(existing: Option<Seq<char>>)
    ensures
        gitignore_update(existing) matches Some(t) ==> {
            &&& gitignore_update(Some(t)) is None
            &&& contains(t, ".clotho/index/"@)
            &&& contains(t, ".clotho/inbox/"@)
            &&& (existing matches Some(e) ==> e.len() <= t.len() && t.take(e.len() as int) == e)
        },
{
    let rules = gitignore_rules();
    reveal_strlit("# Clotho derived indexes (rebuilt on clone)\n.clotho/index/\n# Clotho inbox (transient staging area)\n.clotho/inbox/\n");
    reveal_strlit(".clotho/index/");
    reveal_strlit(".clotho/inbox/");
    assert(rules.subrange(44, 58) =~= ".clotho/index/"@);
    assert(rules.subrange(99, 113) =~= ".clotho/inbox/"@);
    match gitignore_update(existing) {
        Some(t) => {
            let front = t.subrange(0, t.len() - rules.len());
            assert(t =~= front + rules);
            lemma_contains_suffix(front, rules, ".clotho/index/"@, 44);
            lemma_contains_suffix(front, rules, ".clotho/inbox/"@, 99);
        },
        None => {},
    }
}

} // verus!
