//! Surfaces: titled pieces of text that an assistant pushes to the
//! dashboard, where the user can read and edit them.
use vstd::prelude::*;

use crate::text::{decimal, push_decimal, push_str};

verus! {

/// A surface row in SQLite.
#[derive(Debug, Clone)]
pub struct SurfaceRow {
    pub id: String,
    pub title: String,
    pub content: String,
    pub surface_type: Option<String>,
    pub status: String,
    pub created_at: String,
    pub updated_at: String,
}

/// What a push of a surface does.
#[derive(Debug)]
pub enum SurfacePush {
    /// Replace the content of the existing surface with this ID.
    Update(String),
    /// Create a new surface.
    Create,
}

/// The decision of a push: with `replace` set and an active surface of the
/// same title found, that surface is updated; otherwise a new one is made.
pub fn push_action(replace: bool, existing: &Option<SurfaceRow>) -> (a: SurfacePush)
    ensures
        match existing {
            Some(row) => if replace {
                a matches SurfacePush::Update(id) && id@ == row.id@
            } else {
                a is Create
            },
            None => a is Create,
        },
{
    match existing {
        Some(row) => {
            if replace {
                SurfacePush::Update(row.id.clone())
            } else {
                SurfacePush::Create
            }
        },
        None => SurfacePush::Create,
    }
}

/// The query that lists surfaces, filtered by status and/or type, newest
/// first; each filter is a numbered parameter, in the order given.
pub open spec fn list_sql(has_status: bool, has_type: bool) -> Seq<char> {
    "SELECT id, title, content, surface_type, status, created_at, updated_at FROM surfaces WHERE 1=1"@
        + (if has_status { " AND status = ?1"@ } else { Seq::empty() })
        + (if has_type {
            " AND surface_type = ?"@ + decimal(if has_status { 2 } else { 1 })
        } else {
            Seq::empty()
        })
        + " ORDER BY updated_at DESC"@
}

/// The listing query for the given filters, and its parameters in order.
pub fn list_query(status: Option<&str>, surface_type: Option<&str>) -> (q: (String, Vec<String>))
    ensures
        q.0@ == list_sql(status is Some, surface_type is Some),
        q.1@.len() == (if status is Some { 1int } else { 0 }) + (if surface_type is Some { 1int } else { 0 }),
        status matches Some(s) ==> q.1@[0]@ == s@,
        surface_type matches Some(t) ==> q.1@[q.1@.len() - 1]@ == t@,
{
    let mut sql = "SELECT id, title, content, surface_type, status, created_at, updated_at FROM surfaces WHERE 1=1".to_owned();
    let mut params: Vec<String> = Vec::new();
    if let Some(s) = status {
        params.push(s.to_owned());
        push_str(&mut sql, " AND status = ?");
        push_decimal(&mut sql, params.len());
        assert(decimal(1) =~= seq!['1']);
        proof {
            reveal_strlit(" AND status = ?");
            reveal_strlit(" AND status = ?1");
        }
        assert(" AND status = ?"@ + decimal(1) =~= " AND status = ?1"@);
    }
    if let Some(t) = surface_type {
        params.push(t.to_owned());
        push_str(&mut sql, " AND surface_type = ?");
        push_decimal(&mut sql, params.len());
    }
    push_str(&mut sql, " ORDER BY updated_at DESC");
    (sql, params)
}

} // verus!
