//! Where entity content files live: one markdown file per entity, in a
//! visible directory at the project root chosen by the entity's type.
use vstd::prelude::*;

use crate::path::{join_path, path_join};
use crate::store::types::{subdir_name, EntityType};
use crate::text::{push_str, to_chars};

verus! {

/// Manages markdown content files at the project root.
///
/// Content directories are visible and browsable (not hidden in the
/// workspace directory). Each entity type maps to a directory at the project
/// root: programs/, responsibilities/, objectives/, workstreams/, tasks/,
/// meetings/, reflections/, artifacts/, references/, notes/, people/,
/// derived/.
#[derive(Debug)]
pub struct ContentStore {
    /// Project root path.
    project_root: String,
}

/// The content file of entity `id` of type `t` under `root`.
pub open spec fn content_file(root: Seq<char>, t: EntityType, id: Seq<char>) -> Seq<char> {
    path_join(path_join(root, subdir_name(t)), id + ".md"@)
}

impl ContentStore {
    /// The project root this store writes under.
    pub closed spec fn root(&self) -> Seq<char> {
        self.project_root@
    }

    /// A content store rooted at the project directory.
    pub fn new(project_root: &str) -> (s: Self)
        ensures
            s.root() == project_root@,
    {
        ContentStore { project_root: project_root.to_owned() }
    }

    /// The project root this store writes under.
    pub fn project_root(&self) -> (r: &str)
        ensures
            r@ == self.root(),
    {
        self.project_root.as_str()
    }

    /// The path of an entity's content file (no I/O):
    /// `<root>/<type directory>/<id>.md`.
    pub fn content_path(&self, entity_type: EntityType, id: &str) -> (p: String)
        ensures
            p@ == content_file(self.root(), entity_type, id@),
    {
        let dir = join_path(self.project_root.as_str(), entity_type.subdir());
        let mut file = id.to_owned();
        push_str(&mut file, ".md");
        join_path(dir.as_str(), file.as_str())
    }

    /// The directory that holds content files of a type.
    pub fn content_dir(&self, entity_type: EntityType) -> (p: String)
        ensures
            p@ == path_join(self.root(), subdir_name(entity_type)),
    {
        join_path(self.project_root.as_str(), entity_type.subdir())
    }
}

/// Whether a file name has the extension `md`: it ends in `.md` with at
/// least one character before the dot (`.md` alone has no extension).
pub fn has_md_extension(file_name: &str) -> (b: bool)
    ensures
        b == md_file_name(file_name@),
{
    proof {
        reveal_strlit(".md");
    }
    let c = to_chars(file_name);
    let n = c.len();
    if n <= 3 {
        return false;
    }
    let r = c[n - 3] == '.' && c[n - 2] == 'm' && c[n - 1] == 'd';
    let ghost sub = c@.subrange(n - 3, n as int);
    assert(".md"@ =~= seq!['.', 'm', 'd']);
    assert(sub[0] == c@[n - 3] && sub[1] == c@[n - 2] && sub[2] == c@[n - 1]);
    if r {
        assert(sub =~= seq!['.', 'm', 'd']);
    }
    r
}

/// Whether a file name has the extension `md` (see `has_md_extension`).
pub open spec fn md_file_name(name: Seq<char>) -> bool {
    name.len() > 3 && name.subrange(name.len() - 3, name.len() as int) == ".md"@
}

/// A content file is found where its type's files are listed: the file of
/// entity `id` lies directly in the content directory of its type, under
/// the name `<id>.md`, which has the extension `md`. (Here `id` is a
/// non-empty name that does not start with `/`, as an entity ID is.)
pub proof fn law_content_file_is_listed(root: Seq<char>, t: EntityType, id: Seq<char>)
    requires
        id.len() > 0,
        id[0] != '/',
    ensures
        content_file(root, t, id) == path_join(path_join(root, subdir_name(t)), id + ".md"@),
        md_file_name(id + ".md"@),
        (id + ".md"@)[0] != '/',
{
    reveal_strlit(".md");
    let f = id + ".md"@;
    assert(f.subrange(f.len() - 3, f.len() as int) =~= ".md"@);
    assert(f[0] == id[0]);
}

} // verus!
