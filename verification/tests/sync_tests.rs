use clotho::sync::{committed, gitignore_text, prune_plan, refspec, unchanged, SyncError};

const RULES: &str = "# Clotho derived indexes (rebuilt on clone)\n.clotho/index/\n# Clotho inbox (transient staging area)\n.clotho/inbox/\n";

#[test]
fn init_creates_gitignore() {
    let gitignore = gitignore_text(None).unwrap();
    assert!(gitignore.contains(".clotho/index/"));
    assert!(gitignore.contains(".clotho/inbox/"));
    assert_eq!(gitignore, RULES);
}

#[test]
fn init_is_idempotent() {
    let first = gitignore_text(None).unwrap();
    assert_eq!(gitignore_text(Some(&first)), None);
}

#[test]
fn gitignore_is_extended_once() {
    let t = gitignore_text(Some("target/")).unwrap();
    assert_eq!(t, format!("target/\n{}", RULES));
    assert_eq!(gitignore_text(Some(&t)), None);
    let t2 = gitignore_text(Some("target/\n.clotho/index/\n")).unwrap();
    assert_eq!(t2, format!("target/\n.clotho/index/\n{}", RULES));
    assert_eq!(gitignore_text(Some("")).unwrap(), format!("\n{}", RULES));
}

#[test]
fn sync_no_changes() {
    let r = unchanged();
    assert!(!r.committed);
    assert_eq!(r.files_changed, 0);
    let c = committed(3, true, false);
    assert!(c.committed && !c.pushed);
    assert_eq!(c.files_changed, 3);
    assert!(committed(1, true, true).pushed);
    assert!(!committed(1, false, true).pushed);
}

#[test]
fn prune_reduces_commit_count() {
    let plan = prune_plan(5, 2).unwrap();
    assert_eq!(plan.pruned, 3);
    assert_eq!(plan.root, 1);
    assert_eq!(plan.replay, vec![0]);
    let plan = prune_plan(10, 4).unwrap();
    assert_eq!(plan.replay, vec![2, 1, 0]);
    assert_eq!(plan.pruned, 6);
}

#[test]
fn prune_noop_when_under_limit() {
    assert!(prune_plan(1, 20).is_none());
    assert!(prune_plan(20, 20).is_none());
}

#[test]
fn push_refspecs() {
    assert_eq!(refspec(Some("refs/heads/dev")), "refs/heads/dev:refs/heads/dev");
    assert_eq!(refspec(None), "refs/heads/main:refs/heads/main");
}

#[test]
fn sync_error_messages() {
    assert_eq!(SyncError::NoRepository("/w".to_string()).message(), "no git repository found at /w");
    assert_eq!(SyncError::PruneFailed("no HEAD".to_string()).message(), "prune failed: no HEAD");
}

#[test]
fn prune_settles_after_one_pass() {
    let plan = prune_plan(10, 3).unwrap();
    assert_eq!(plan.root, 2);
    assert_eq!(plan.replay, vec![1, 0]);
    assert_eq!(plan.pruned, 7);
    let left = 1 + plan.replay.len();
    assert_eq!(left, 3);
    assert!(prune_plan(left, 3).is_none());
}
