//! Federation: one SQLite connection over the entity, relation and search
//! databases of a workspace, the latter two attached under fixed names.
use vstd::prelude::*;

use crate::path::{join_path, path_join};
use crate::store::error::StoreError;
use crate::text::push_str;

verus! {

/// The database files a federated connection spans.
#[derive(Debug)]
pub struct Federation {
    entities_db: String,
    relations_db: String,
    search_db: String,
}

/// The statement that attaches the database at `path` under `alias`.
pub open spec fn attach_sql(path: Seq<char>, alias: Seq<char>) -> Seq<char> {
    "ATTACH DATABASE '"@ + path + "' AS "@ + alias
}

fn attach_statement(path: &str, alias: &str) -> (s: String)
    ensures
        s@ == attach_sql(path@, alias@),
{
    let mut s = "ATTACH DATABASE '".to_owned();
    push_str(&mut s, path);
    push_str(&mut s, "' AS ");
    push_str(&mut s, alias);
    s
}

impl Federation {
    /// The entity database (the connection's main database).
    pub closed spec fn entities_file(&self) -> Seq<char> {
        self.entities_db@
    }

    /// The relation database, attached as `graph`.
    pub closed spec fn relations_file(&self) -> Seq<char> {
        self.relations_db@
    }

    /// The search database, attached as `idx`.
    pub closed spec fn search_file(&self) -> Seq<char> {
        self.search_db@
    }

    /// A federation over the workspace at `workspace_path`, given whether
    /// its entity database exists (the others may not exist yet). Without
    /// it, the result is a `FederationError` that names its path.
    pub fn open(workspace_path: &str, entities_db_exists: bool) -> (r: Result<Federation, StoreError>)
        ensures
            entities_db_exists ==> (r matches Ok(f)
                && f.entities_file() == path_join(workspace_path@, "data/entities.db"@)
                && f.relations_file() == path_join(workspace_path@, "graph/relations.db"@)
                && f.search_file() == path_join(workspace_path@, "index/search.db"@)),
            !entities_db_exists ==> (r matches Err(StoreError::FederationError(m))
                && m@ == "entities.db not found at "@ + path_join(workspace_path@, "data/entities.db"@)),
    {
        let entities_db = join_path(workspace_path, "data/entities.db");
        let relations_db = join_path(workspace_path, "graph/relations.db");
        let search_db = join_path(workspace_path, "index/search.db");
        if !entities_db_exists {
            let mut m = "entities.db not found at ".to_owned();
            push_str(&mut m, entities_db.as_str());
            return Err(StoreError::FederationError(m));
        }
        Ok(Federation { entities_db, relations_db, search_db })
    }

    /// The entity database path.
    pub fn entities_db(&self) -> (p: &str)
        ensures
            p@ == self.entities_file(),
    {
        self.entities_db.as_str()
    }

    /// The relation database path.
    pub fn relations_db(&self) -> (p: &str)
        ensures
            p@ == self.relations_file(),
    {
        self.relations_db.as_str()
    }

    /// The search database path.
    pub fn search_db(&self) -> (p: &str)
        ensures
            p@ == self.search_file(),
    {
        self.search_db.as_str()
    }

    /// The statement that attaches the relation database as `graph`.
    pub fn attach_relations(&self) -> (s: String)
        ensures
            s@ == attach_sql(self.relations_file(), "graph"@),
    {
        attach_statement(self.relations_db.as_str(), "graph")
    }

    /// The statement that attaches the search database as `idx`.
    pub fn attach_search(&self) -> (s: String)
        ensures
            s@ == attach_sql(self.search_file(), "idx"@),
    {
        attach_statement(self.search_db.as_str(), "idx")
    }
}

} // verus!
