//! The session's workspace: set explicitly by a tool call or detected at
//! startup, and required by every tool that reads or writes a workspace.
use vstd::prelude::*;

use crate::store::types::opt_view;
use crate::text::strings_view;

verus! {

/// Set the session's workspace path.
pub fn set_workspace(session: &mut Option<String>, path: String)
    ensures
        *final(session) == Some(path),
{
    *session = Some(path);
}

/// The session's workspace path, if one is set.
pub fn get_workspace(session: &Option<String>) -> (r: Option<String>)
    ensures
        opt_view(r) == opt_view(*session),
{
    match session {
        Some(p) => Some(p.clone()),
        None => None,
    }
}

/// What a tool that needs a workspace gets from the session: the path set,
/// or the message that asks for one.
pub open spec fn required_workspace(session: Option<String>) -> Result<Seq<char>, Seq<char>> {
    match session {
        Some(p) => Ok(p@),
        None => Err("No workspace set. Use clotho_set_workspace to set one."@),
    }
}

/// The session's workspace path, or the message that asks for one (see
/// `required_workspace`).
pub fn require_workspace(session: &Option<String>) -> (r: Result<String, String>)
    ensures
        match r {
            Ok(q) => required_workspace(*session) == Ok::<Seq<char>, Seq<char>>(q@),
            Err(m) => required_workspace(*session) == Err::<Seq<char>, Seq<char>>(m@),
        },
{
    match session {
        Some(p) => Ok(p.clone()),
        None => Err("No workspace set. Use clotho_set_workspace to set one.".to_owned()),
    }
}

/// The first of `dirs` whose flag is set, if any.
pub open spec fn first_flagged(dirs: Seq<Seq<char>>, flags: Seq<bool>) -> Option<Seq<char>>
    decreases dirs.len(),
{
    if dirs.len() == 0 || flags.len() == 0 {
        None
    } else if flags[0] {
        Some(dirs[0])
    } else {
        first_flagged(dirs.drop_first(), flags.drop_first())
    }
}

/// Detect the workspace from the current directory and its ancestors,
/// nearest first, given for each whether it holds a `.clotho` directory:
/// the nearest that does is set as the session's workspace and returned;
/// when none does, the session is left as it was.
pub fn detect_and_set(session: &mut Option<String>, ancestors: &Vec<String>, has_workspace: &Vec<bool>) -> (r: Option<String>)
    requires
        ancestors@.len() == has_workspace@.len(),
    ensures
        opt_view(r) == first_flagged(strings_view(ancestors@), has_workspace@),
        r is Some ==> opt_view(*final(session)) == opt_view(r),
        r is None ==> *final(session) == *old(session),
{
    let ghost av = strings_view(ancestors@);
    let n = ancestors.len();
    assert(av.skip(0) =~= av);
    assert(has_workspace@.skip(0) =~= has_workspace@);
    for i in 0..n
        invariant
            n == ancestors@.len() == has_workspace@.len(),
            av == strings_view(ancestors@),
            *session == *old(session),
            first_flagged(av, has_workspace@) == first_flagged(av.skip(i as int), has_workspace@.skip(i as int)),
    {
        assert(av.skip(i as int).drop_first() =~= av.skip(i + 1));
        assert(has_workspace@.skip(i as int).drop_first() =~= has_workspace@.skip(i + 1));
        if has_workspace[i] {
            let p = ancestors[i].clone();
            set_workspace(session, p.clone());
            return Some(p);
        }
    }
    None
}

/// A workspace once set is the one that tools get: `set_workspace` with
/// `path` leaves the session at `Some(path)`, whatever it held before, and
/// from there `get_workspace` gives `path` and `require_workspace` succeeds
/// with it.
pub proof fn law_set_then_require(path: String)
    ensures
        opt_view(Some(path)) == Some(path@),
        required_workspace(Some(path)) == Ok::<Seq<char>, Seq<char>>(path@),
{
}

} // verus!
