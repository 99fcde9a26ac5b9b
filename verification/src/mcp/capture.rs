//! Capturing a directory: which files a pattern selects, the title each
//! captured file gets, and the report of what was captured.
use vstd::prelude::*;

use crate::mcp::summary::{lemma_insert_desc_at, sort_desc};
use crate::text::{byte_len, cuttable, decimal, prefix_bytes, byte_prefix, push_decimal, push_str, seq_lt, str_lt, to_chars, from_chars, chars_eq};

verus! {

/// Whether `s` ends with `suf`.
pub open spec fn ends_with(s: Seq<char>, suf: Seq<char>) -> bool {
    s.len() >= suf.len() && s.skip(s.len() - suf.len()) == suf
}

/// Whether a file name matches a capture pattern: `*.<ext>` matches names
/// ending in `.<ext>`; any other pattern matches only the same name.
pub open spec fn glob_matches(name: Seq<char>, pattern: Seq<char>) -> bool {
    if pattern.len() >= 2 && pattern[0] == '*' && pattern[1] == '.' {
        ends_with(name, pattern.skip(1))
    } else {
        name == pattern
    }
}

/// Whether a file, by its name (`None` when the path has none that is
/// valid UTF-8), matches a capture pattern (see `glob_matches`).
pub fn matches_glob(file_name: Option<&str>, pattern: &str) -> (b: bool)
    ensures
        b == (file_name matches Some(n) && glob_matches(n@, pattern@)),
{
    let name = match file_name {
        Some(f) => f,
        None => return false,
    };
    let p = to_chars(pattern);
    let n = to_chars(name);
    if p.len() >= 2 && p[0] == '*' && p[1] == '.' {
        let k = p.len() - 1;
        if n.len() < k {
            return false;
        }
        let nl = n.len();
        let off = nl - k;
        let mut j: usize = 0;
        assert(p@.skip(1).len() == k);
        while j < k
            invariant
                file_name == Some(name),
                p@ == pattern@,
                n@ == name@,
                p@.len() >= 2,
                p@[0] == '*' && p@[1] == '.',
                k == p@.len() - 1,
                nl == n@.len(),
                nl >= k,
                off == nl - k,
                j <= k,
                forall|m: int| 0 <= m < j ==> #[trigger] n@.skip(off as int)[m] == p@.skip(1)[m],
            decreases k - j,
        {
            assert(n@.skip(off as int)[j as int] == n@[off + j]);
            assert(p@.skip(1)[j as int] == p@[j + 1]);
            if n[off + j] != p[j + 1] {
                assert(n@.skip(off as int)[j as int] != p@.skip(1)[j as int]);
                assert(n@.skip(off as int) != p@.skip(1));
                return false;
            }
            j += 1;
        }
        assert(n@.skip(off as int) =~= p@.skip(1));
        true
    } else {
        chars_eq(&n, &p)
    }
}

/// The index of the last '.' in `s`, or -1.
pub open spec fn last_dot(s: Seq<char>) -> int
    decreases s.len(),
{
    if s.len() == 0 {
        -1
    } else if s.last() == '.' {
        s.len() - 1
    } else {
        last_dot(s.drop_last())
    }
}

/// The stem of a file name: the part before its last '.', unless that dot
/// is the first character or there is none (std `Path::file_stem`).
pub open spec fn stem(name: Seq<char>) -> Seq<char> {
    if last_dot(name) > 0 {
        name.take(last_dot(name))
    } else {
        name
    }
}

proof fn lemma_last_dot(s: Seq<char>)
    ensures
        -1 <= last_dot(s) < s.len(),
        last_dot(s) >= 0 ==> s[last_dot(s)] == '.',
        forall|k: int| last_dot(s) < k < s.len() ==> s[k] != '.',
    decreases s.len(),
{
    if s.len() > 0 && s.last() != '.' {
        lemma_last_dot(s.drop_last());
        assert forall|k: int| last_dot(s) < k < s.len() implies s[k] != '.' by {
            if k < s.len() - 1 {
                assert(s[k] == s.drop_last()[k]);
            }
        }
    }
}

/// The title of a captured file: the stem of its name, or `untitled` when
/// the path has no name.
pub fn capture_title(file_name: Option<&str>) -> (t: String)
    ensures
        file_name matches Some(n) ==> t@ == stem(n@),
        file_name is None ==> t@ == "untitled"@,
{
    let name = match file_name {
        Some(n) => n,
        None => return "untitled".to_owned(),
    };
    let c = to_chars(name);
    let mut i: usize = c.len();
    while i > 0 && c[i - 1] != '.'
        invariant
            c@ == name@,
            i <= c@.len(),
            forall|k: int| i <= k < c@.len() ==> c@[k] != '.',
        decreases i,
    {
        i -= 1;
    }
    proof {
        lemma_last_dot(name@);
        if i > 0 {
            assert(last_dot(name@) == i - 1) by {
                if last_dot(name@) > i - 1 {
                    assert(c@[last_dot(name@)] == '.');
                }
            }
        } else {
            assert(last_dot(name@) == -1) by {
                if last_dot(name@) >= 0 {
                    assert(c@[last_dot(name@)] == '.');
                }
            }
        }
    }
    if i > 1 {
        let mut t = String::new();
        let mut k: usize = 0;
        while k < i - 1
            invariant
                c@ == name@,
                1 < i <= c@.len(),
                k <= i - 1,
                t@ == name@.take(k as int),
            decreases i - 1 - k,
        {
            crate::text::push_char(&mut t, c[k]);
            assert(name@.take(k + 1) =~= name@.take(k as int).push(c@[k as int]));
            k += 1;
        }
        t
    } else {
        from_chars(&c)
    }
}

/// The name of a directory entry (`None`: not valid UTF-8) as text.
pub open spec fn entry_name(n: Option<String>) -> Seq<char> {
    match n {
        Some(s) => s@,
        None => Seq::empty(),
    }
}

/// Whether entry `i` is captured: a regular file whose name matches.
pub open spec fn picked(names: Seq<Option<String>>, files: Seq<bool>, pattern: Seq<char>, i: int) -> bool {
    &&& files[i]
    &&& names[i] matches Some(n) && glob_matches(n@, pattern)
}

/// The indices of the captured entries, in directory order.
pub open spec fn picked_indices(names: Seq<Option<String>>, files: Seq<bool>, pattern: Seq<char>, n: int) -> Seq<int>
    decreases n,
{
    if n <= 0 {
        Seq::empty()
    } else if picked(names, files, pattern, n - 1) {
        picked_indices(names, files, pattern, n - 1).push(n - 1)
    } else {
        picked_indices(names, files, pattern, n - 1)
    }
}

/// The order of entries by name, reversed (so that sorting "descending"
/// by it sorts by name, ascending).
pub open spec fn later_name(names: Seq<Option<String>>) -> spec_fn(int, int) -> bool {
    |i: int, j: int| seq_lt(entry_name(names[j]), entry_name(names[i]))
}

/// The entries a directory capture handles, once each, in the order it
/// handles them: the regular files whose name matches the pattern, sorted
/// by name (the files of one directory sort by name as their paths do).
pub open spec fn capture_order_of(names: Seq<Option<String>>, files: Seq<bool>, pattern: Seq<char>) -> Seq<int> {
    sort_desc(picked_indices(names, files, pattern, names.len() as int), later_name(names))
}

/// The entries to capture, given each entry's name (`None`: not valid
/// UTF-8) and whether it is a regular file (see `capture_order_of`).
pub fn capture_order(names: &Vec<Option<String>>, files: &Vec<bool>, pattern: &str) -> (v: Vec<usize>)
    requires
        files@.len() == names@.len(),
    ensures
        v@.map_values(|i: usize| i as int) == capture_order_of(names@, files@, pattern@),
        forall|k: int| 0 <= k < v@.len() ==> #[trigger] v@[k] < names@.len(),
{
    let ghost lt = later_name(names@);
    let mut v: Vec<usize> = Vec::new();
    let n = names.len();
    for i in 0..n
        invariant
            n == names@.len() == files@.len(),
            lt == later_name(names@),
            v@.map_values(|x: usize| x as int) == sort_desc(picked_indices(names@, files@, pattern@, i as int), lt),
            forall|k: int| 0 <= k < v@.len() ==> #[trigger] v@[k] < i,
    {
        let ghost vv = v@.map_values(|x: usize| x as int);
        let name: Option<&str> = match &names[i] {
            Some(s) => Some(s.as_str()),
            None => None,
        };
        if files[i] && matches_glob(name, pattern) {
            let ghost pend = picked_indices(names@, files@, pattern@, i as int);
            assert(picked_indices(names@, files@, pattern@, i + 1) == pend.push(i as int));
            assert(pend.push(i as int).drop_last() =~= pend);
            let ni: &str = entry_str(&names[i]);
            let ln = v.len();
            let mut j: usize = 0;
            while j < ln && !str_lt(ni, entry_str(&names[v[j]]))
                invariant
                    n == names@.len(),
                    i < n,
                    ln == v@.len(),
                    j <= ln,
                    ni@ == entry_name(names@[i as int]),
                    vv == v@.map_values(|x: usize| x as int),
                    forall|k: int| 0 <= k < v@.len() ==> #[trigger] v@[k] < i,
                    lt == later_name(names@),
                    forall|q: int| 0 <= q < j ==> !lt(#[trigger] vv[q], i as int),
                decreases ln - j,
            {
                assert(vv[j as int] == v@[j as int] as int);
                j += 1;
            }
            if j < ln {
                assert(vv[j as int] == v@[j as int] as int);
            }
            proof {
                lemma_insert_desc_at(vv, i as int, lt, j as int);
            }
            v.insert(j, i);
            assert(v@.map_values(|x: usize| x as int) =~= vv.take(j as int) + seq![i as int] + vv.skip(j as int));
        } else {
            assert(picked_indices(names@, files@, pattern@, i + 1) == picked_indices(names@, files@, pattern@, i as int));
        }
    }
    v
}

/// The name of an entry as a string (empty when it has none).
fn entry_str(n: &Option<String>) -> (s: &str)
    ensures
        s@ == entry_name(*n),
{
    match n {
        Some(x) => x.as_str(),
        None => {
            proof {
                reveal_strlit("");
            }
            ""
        },
    }
}

/// What became of one file of a directory capture: captured as an entity
/// with this ID and title, or skipped with this error.
#[derive(Debug)]
pub enum CaptureOutcome {
    Captured { id: String, title: String },
    Skipped(String),
}

/// The step at which capturing one file failed, with the error's text:
/// reading the file, writing its content into the workspace, or storing its
/// entity.
#[derive(Debug)]
pub enum CaptureFailure {
    Read(String),
    Write(String),
    Insert(String),
}

/// The outcome of capturing one file, from what its steps gave: captured
/// under `id` and `title` when no step failed; else skipped, with the error
/// after the file's name when it could not be read, and after its title
/// when a later step failed.
pub fn file_outcome(name: &str, title: &str, id: &str, failure: Option<CaptureFailure>) -> (o: CaptureOutcome)
    ensures
        match failure {
            None => o matches CaptureOutcome::Captured { id: i, title: t } && i@ == id@ && t@ == title@,
            Some(CaptureFailure::Read(e)) => o matches CaptureOutcome::Skipped(m) && m@ == name@ + ": "@ + e@,
            Some(CaptureFailure::Write(e)) => o matches CaptureOutcome::Skipped(m) && m@ == title@ + ": "@ + e@,
            Some(CaptureFailure::Insert(e)) => o matches CaptureOutcome::Skipped(m) && m@ == title@ + ": "@ + e@,
        },
{
    match failure {
        None => CaptureOutcome::Captured { id: id.to_owned(), title: title.to_owned() },
        Some(f) => {
            let (head, e) = match f {
                CaptureFailure::Read(e) => (name, e),
                CaptureFailure::Write(e) => (title, e),
                CaptureFailure::Insert(e) => (title, e),
            };
            let mut m = head.to_owned();
            push_str(&mut m, ": ");
            push_str(&mut m, e.as_str());
            CaptureOutcome::Skipped(m)
        },
    }
}

/// How many files were captured.
pub open spec fn captured_count(o: Seq<CaptureOutcome>) -> nat
    decreases o.len(),
{
    if o.len() == 0 {
        0
    } else {
        captured_count(o.drop_last()) + if o.last() is Captured { 1nat } else { 0nat }
    }
}

/// The table rows of the captured files: the ID's first 8 bytes and the
/// title.
pub open spec fn captured_rows(o: Seq<CaptureOutcome>) -> Seq<char>
    decreases o.len(),
{
    if o.len() == 0 {
        Seq::empty()
    } else {
        captured_rows(o.drop_last()) + match o.last() {
            CaptureOutcome::Captured { id, title } => "| `"@ + byte_prefix(id@, 8) + "` | "@ + title@ + " |\n"@,
            CaptureOutcome::Skipped(_) => Seq::empty(),
        }
    }
}

/// The error lines of the skipped files.
pub open spec fn skipped_lines(o: Seq<CaptureOutcome>) -> Seq<char>
    decreases o.len(),
{
    if o.len() == 0 {
        Seq::empty()
    } else {
        skipped_lines(o.drop_last()) + match o.last() {
            CaptureOutcome::Captured { .. } => Seq::empty(),
            CaptureOutcome::Skipped(e) => "- "@ + e@ + "\n"@,
        }
    }
}

/// The report of a directory capture: counts, a table of what was
/// captured (when anything was), and the errors (when any).
pub open spec fn capture_report_text(path: Seq<char>, o: Seq<CaptureOutcome>) -> Seq<char> {
    "## Directory Captured\n\n**"@ + decimal(captured_count(o)) + "** files captured, **"@
        + decimal((o.len() - captured_count(o)) as nat) + "** skipped from `"@ + path + "`\n\n"@
        + (if captured_count(o) > 0 { "| ID | Title |\n|---|---|\n"@ + captured_rows(o) } else { Seq::empty() })
        + (if captured_count(o) < o.len() { "\n**Errors:**\n"@ + skipped_lines(o) } else { Seq::empty() })
}

/// Whether every captured ID has at least 8 bytes, cut at a character
/// boundary.
pub open spec fn capture_ids_cuttable(o: Seq<CaptureOutcome>) -> bool {
    forall|i: int| 0 <= i < o.len() ==> (#[trigger] o[i] matches CaptureOutcome::Captured { id, .. } ==> cuttable(id@, 8))
}

proof fn lemma_captured_count_bound(o: Seq<CaptureOutcome>)
    ensures
        captured_count(o) <= o.len(),
    decreases o.len(),
{
    if o.len() > 0 {
        lemma_captured_count_bound(o.drop_last());
    }
}

/// The report of a directory capture (see `capture_report_text`).
pub fn capture_report(path: &str, outcomes: &Vec<CaptureOutcome>) -> (t: String)
    requires
        capture_ids_cuttable(outcomes@),
    ensures
        t@ == capture_report_text(path@, outcomes@),
{
    let n = outcomes.len();
    let mut captured: usize = 0;
    let mut rows = String::new();
    let mut errors = String::new();
    for i in 0..n
        invariant
            n == outcomes@.len(),
            capture_ids_cuttable(outcomes@),
            captured == captured_count(outcomes@.take(i as int)),
            captured <= i,
            rows@ == captured_rows(outcomes@.take(i as int)),
            errors@ == skipped_lines(outcomes@.take(i as int)),
    {
        assert(outcomes@.take(i + 1).drop_last() =~= outcomes@.take(i as int));
        match &outcomes[i] {
            CaptureOutcome::Captured { id, title } => {
                push_str(&mut rows, "| `");
                push_str(&mut rows, prefix_bytes(id.as_str(), 8).as_str());
                push_str(&mut rows, "` | ");
                push_str(&mut rows, title.as_str());
                push_str(&mut rows, " |\n");
                captured += 1;
            },
            CaptureOutcome::Skipped(e) => {
                push_str(&mut errors, "- ");
                push_str(&mut errors, e.as_str());
                push_str(&mut errors, "\n");
            },
        }
    }
    assert(outcomes@.take(n as int) =~= outcomes@);
    let mut t = "## Directory Captured\n\n**".to_owned();
    push_decimal(&mut t, captured);
    push_str(&mut t, "** files captured, **");
    push_decimal(&mut t, n - captured);
    push_str(&mut t, "** skipped from `");
    push_str(&mut t, path);
    push_str(&mut t, "`\n\n");
    if captured > 0 {
        push_str(&mut t, "| ID | Title |\n|---|---|\n");
        push_str(&mut t, rows.as_str());
    }
    if captured < n {
        push_str(&mut t, "\n**Errors:**\n");
        push_str(&mut t, errors.as_str());
    }
    t
}

/// The reply when no file matches the pattern.
pub fn no_match_report(pattern: &str, path: &str) -> (t: String)
    ensures
        t@ == "No files matching '"@ + pattern@ + "' found in `"@ + path@ + "`"@,
{
    let mut t = "No files matching '".to_owned();
    push_str(&mut t, pattern);
    push_str(&mut t, "' found in `");
    push_str(&mut t, path);
    push_str(&mut t, "`");
    t
}

} // verus!
