//! Filesystem paths as '/'-separated strings, joined the way std's
//! `Path::join` joins them on Unix.
use vstd::prelude::*;

use crate::text::{from_chars, push_char, push_str, to_chars};

verus! {

/// `base` joined with `comp`: an absolute `comp` replaces `base`; otherwise
/// one separator goes between them, unless `base` is empty or already ends
/// with one.
pub open spec fn path_join(base: Seq<char>, comp: Seq<char>) -> Seq<char> {
    if comp.len() > 0 && comp[0] == '/' {
        comp
    } else if base.len() == 0 || base.last() == '/' {
        base + comp
    } else {
        base + seq!['/'] + comp
    }
}

/// `base` joined with `comp` (see `path_join`).
pub fn join_path(base: &str, comp: &str) -> (p: String)
    ensures
        p@ == path_join(base@, comp@),
{
    let c = to_chars(comp);
    if c.len() > 0 && c[0] == '/' {
        return from_chars(&c);
    }
    let b = to_chars(base);
    let mut p = from_chars(&b);
    if b.len() > 0 && b[b.len() - 1] != '/' {
        push_char(&mut p, '/');
    }
    push_str(&mut p, comp);
    p
}

} // verus!
