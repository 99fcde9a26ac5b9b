//! The workspace directory: its layout, its configuration defaults, and the
//! checks that decide whether a directory is a usable workspace.
use vstd::prelude::*;

use crate::path::{join_path, path_join};
use crate::store::error::StoreError;
use crate::store::types::{subdir_name, EntityType};
use crate::text::push_str;

verus! {

/// Sync settings of a workspace.
#[derive(Debug, Clone)]
pub struct SyncConfig {
    pub auto_commit: bool,
    pub debounce_seconds: u64,
    pub shallow_history_limit: u32,
}

/// The configuration of a workspace (`config/config.toml`).
#[derive(Debug, Clone)]
pub struct WorkspaceConfig {
    pub version: String,
    pub sync: SyncConfig,
}

impl Default for WorkspaceConfig {
    /// Version 0.1.0, auto-commit on, a 30 s debounce, 20 commits of history.
    fn default() -> (c: Self)
        ensures
            c.version@ == "0.1.0"@,
            c.sync.auto_commit,
            c.sync.debounce_seconds == 30,
            c.sync.shallow_history_limit == 20,
    {
        WorkspaceConfig {
            version: "0.1.0".to_owned(),
            sync: SyncConfig { auto_commit: true, debounce_seconds: 30, shallow_history_limit: 20 },
        }
    }
}

/// What the file system shows of a would-be workspace: whether its root
/// exists, which of the required directories are directories, and whether
/// `config/config.toml` is a file.
#[derive(Debug, Clone, Copy)]
pub struct WorkspaceProbe {
    pub root_exists: bool,
    pub content_dir: bool,
    pub data_dir: bool,
    pub graph_dir: bool,
    pub config_dir: bool,
    pub config_file: bool,
}

/// A Clotho workspace rooted at a `.workspace/` directory.
#[derive(Debug)]
pub struct Workspace {
    /// Path to the `.workspace/` root.
    pub path: String,
    /// The directory that holds the root (where visible content lives).
    pub base: String,
}

/// The workspace root for a base directory.
pub open spec fn workspace_root(base: Seq<char>) -> Seq<char> {
    path_join(base, ".workspace"@)
}

/// What opening the workspace under `base` gives, for what the file system
/// shows: the root must exist, then each of content, data, graph and config
/// must be a directory (the first missing one is named), then
/// `config/config.toml` must be a file.
pub open spec fn open_outcome(base: Seq<char>, p: WorkspaceProbe) -> Result<Seq<char>, (nat, Seq<char>)> {
    if !p.root_exists {
        Err((0, workspace_root(base)))
    } else if !p.content_dir {
        Err((1, "missing directory: content"@))
    } else if !p.data_dir {
        Err((1, "missing directory: data"@))
    } else if !p.graph_dir {
        Err((1, "missing directory: graph"@))
    } else if !p.config_dir {
        Err((1, "missing directory: config"@))
    } else if !p.config_file {
        Err((1, "missing config/config.toml"@))
    } else {
        Ok(workspace_root(base))
    }
}

/// The directories, relative to the workspace root, that initialisation
/// creates.
pub open spec fn init_dirs() -> Seq<Seq<char>> {
    seq![
        "content/meetings"@,
        "content/reflections"@,
        "content/artifacts"@,
        "content/notes"@,
        "content/people"@,
        "data"@,
        "graph"@,
        "index"@,
        "config"@,
    ]
}

/// The visible content directories, relative to the project root, that
/// initialisation creates: where content files of meetings (and
/// transcripts), reflections, artifacts, notes and people are written.
pub open spec fn visible_dirs() -> Seq<Seq<char>> {
    seq![
        "meetings"@,
        "reflections"@,
        "artifacts"@,
        "notes"@,
        "people"@,
    ]
}

/// Initialisation creates the visible directory that content files of
/// meetings, transcripts, reflections, artifacts, notes and people are
/// written to, at the project root.
pub proof fn law_init_creates_content_dirs(t: EntityType)
    requires
        t is Meeting || t is Transcript || t is Reflection || t is Artifact || t is Note || t is Person,
    ensures
        visible_dirs().contains(subdir_name(t)),
{
    match t {
        EntityType::Meeting | EntityType::Transcript => assert(visible_dirs()[0] == subdir_name(t)),
        EntityType::Reflection => assert(visible_dirs()[1] == subdir_name(t)),
        EntityType::Artifact => assert(visible_dirs()[2] == subdir_name(t)),
        EntityType::Note => assert(visible_dirs()[3] == subdir_name(t)),
        _ => assert(visible_dirs()[4] == subdir_name(t)),
    }
}

/// A workspace that initialisation created opens again at the same root:
/// initialisation creates `data`, `graph` and `config`, and a directory
/// under `content` (so `content` exists too); when the file system shows
/// those directories and the configuration file that initialisation
/// writes, opening succeeds with the root that initialisation returned.
pub proof fn law_init_then_open(base: Seq<char>, probe: WorkspaceProbe)
    requires
        probe.root_exists,
        probe.content_dir,
        probe.data_dir,
        probe.graph_dir,
        probe.config_dir,
        probe.config_file,
    ensures
        init_dirs().contains("data"@),
        init_dirs().contains("graph"@),
        init_dirs().contains("config"@),
        init_dirs()[0].take(8) == "content/"@,
        open_outcome(base, probe) == Ok::<Seq<char>, (nat, Seq<char>)>(workspace_root(base)),
{
    reveal_strlit("content/meetings");
    reveal_strlit("content/");
    assert(init_dirs()[5] == "data"@);
    assert(init_dirs()[6] == "graph"@);
    assert(init_dirs()[8] == "config"@);
    assert(init_dirs()[0].take(8) =~= "content/"@);
}

impl Workspace {
    /// The workspace root for a base directory: `<base>/.workspace`.
    pub fn root_for(base_path: &str) -> (p: String)
        ensures
            p@ == workspace_root(base_path@),
    {
        join_path(base_path, ".workspace")
    }

    /// Open the workspace under `base_path`, given what the file system
    /// shows of it. A missing root is `WorkspaceNotFound` with its path; a
    /// missing directory or config file is `InvalidWorkspace` naming it.
    pub fn open(base_path: &str, probe: &WorkspaceProbe) -> (r: Result<Workspace, StoreError>)
        ensures
            match open_outcome(base_path@, *probe) {
                Ok(p) => r matches Ok(w) && w.path@ == p && w.base@ == base_path@,
                Err((k, m)) => if k == 0 {
                    r matches Err(StoreError::WorkspaceNotFound(s)) && s@ == m
                } else {
                    r matches Err(StoreError::InvalidWorkspace(s)) && s@ == m
                },
            },
    {
        let root = Workspace::root_for(base_path);
        if !probe.root_exists {
            return Err(StoreError::WorkspaceNotFound(root));
        }
        if !probe.content_dir {
            return Err(StoreError::InvalidWorkspace("missing directory: content".to_owned()));
        }
        if !probe.data_dir {
            return Err(StoreError::InvalidWorkspace("missing directory: data".to_owned()));
        }
        if !probe.graph_dir {
            return Err(StoreError::InvalidWorkspace("missing directory: graph".to_owned()));
        }
        if !probe.config_dir {
            return Err(StoreError::InvalidWorkspace("missing directory: config".to_owned()));
        }
        if !probe.config_file {
            return Err(StoreError::InvalidWorkspace("missing config/config.toml".to_owned()));
        }
        Ok(Workspace { path: root, base: base_path.to_owned() })
    }

    /// Initialise a workspace under `base_path`, given whether its root
    /// already exists: an existing root is `WorkspaceAlreadyExists`.
    pub fn init(base_path: &str, root_exists: bool) -> (r: Result<Workspace, StoreError>)
        ensures
            root_exists ==> (r matches Err(StoreError::WorkspaceAlreadyExists(s)) && s@ == workspace_root(base_path@)),
            !root_exists ==> (r matches Ok(w) && w.path@ == workspace_root(base_path@) && w.base@ == base_path@),
    {
        let root = Workspace::root_for(base_path);
        if root_exists {
            Err(StoreError::WorkspaceAlreadyExists(root))
        } else {
            Ok(Workspace { path: root, base: base_path.to_owned() })
        }
    }

    /// The project root: the directory that holds the workspace root, as
    /// given when the workspace was opened or initialised.
    pub fn project_root(&self) -> (r: &str)
        ensures
            r@ == self.base@,
    {
        self.base.as_str()
    }

    /// The directories that initialisation creates: those of `init_dirs`
    /// under the workspace root, then those of `visible_dirs` under the
    /// project root.
    pub fn init_dirs(&self) -> (v: Vec<String>)
        ensures
            v@.len() == init_dirs().len() + visible_dirs().len(),
            forall|i: int| 0 <= i < init_dirs().len() ==> #[trigger] v@[i]@ == path_join(self.path@, init_dirs()[i]),
            forall|j: int| 0 <= j < visible_dirs().len() ==>
                #[trigger] v@[init_dirs().len() + j]@ == path_join(self.base@, visible_dirs()[j]),
    {
        let names: Vec<&str> = vec![
            "content/meetings",
            "content/reflections",
            "content/artifacts",
            "content/notes",
            "content/people",
            "data",
            "graph",
            "index",
            "config",
        ];
        let mut v: Vec<String> = Vec::new();
        for i in 0..names.len()
            invariant
                names@.len() == init_dirs().len(),
                forall|k: int| 0 <= k < names@.len() ==> #[trigger] names@[k]@ == init_dirs()[k],
                v@.len() == i,
                forall|k: int| 0 <= k < i ==> #[trigger] v@[k]@ == path_join(self.path@, init_dirs()[k]),
        {
            v.push(join_path(self.path.as_str(), names[i]));
        }
        let visible: Vec<&str> = vec!["meetings", "reflections", "artifacts", "notes", "people"];
        let n: usize = names.len();
        for j in 0..visible.len()
            invariant
                n == init_dirs().len(),
                visible@.len() == visible_dirs().len(),
                forall|k: int| 0 <= k < visible@.len() ==> #[trigger] visible@[k]@ == visible_dirs()[k],
                v@.len() == n + j,
                forall|k: int| 0 <= k < n ==> #[trigger] v@[k]@ == path_join(self.path@, init_dirs()[k]),
                forall|k: int| 0 <= k < j ==> #[trigger] v@[n + k]@ == path_join(self.base@, visible_dirs()[k]),
        {
            v.push(join_path(self.base.as_str(), visible[j]));
            assert(v@[n + j as int]@ == path_join(self.base@, visible_dirs()[j as int]));
        }
        v
    }

    /// Path to the content directory.
    pub fn content_path(&self) -> (p: String)
        ensures
            p@ == path_join(self.path@, "content"@),
    {
        join_path(self.path.as_str(), "content")
    }

    /// Path to the data directory.
    pub fn data_path(&self) -> (p: String)
        ensures
            p@ == path_join(self.path@, "data"@),
    {
        join_path(self.path.as_str(), "data")
    }

    /// Path to the graph directory.
    pub fn graph_path(&self) -> (p: String)
        ensures
            p@ == path_join(self.path@, "graph"@),
    {
        join_path(self.path.as_str(), "graph")
    }

    /// Path to the index directory.
    pub fn index_path(&self) -> (p: String)
        ensures
            p@ == path_join(self.path@, "index"@),
    {
        join_path(self.path.as_str(), "index")
    }

    /// Path to the config directory.
    pub fn config_path(&self) -> (p: String)
        ensures
            p@ == path_join(self.path@, "config"@),
    {
        join_path(self.path.as_str(), "config")
    }
}

} // verus!
