//! Display state that survives restarts: open tabs, the active tab, and
//! which navigator groups are expanded.
use vstd::prelude::*;

use crate::path::{join_path, path_join};

verus! {

/// What kind of item a saved tab shows.
#[derive(Debug, Clone, Copy, PartialEq, Eq, Structural)]
pub enum TabKind {
    Entity,
    Surface,
}

/// A saved tab: its kind and the ID of the entity or surface it shows.
#[derive(Debug, Clone)]
pub struct TabState {
    pub kind: TabKind,
    pub id: String,
}

/// Persisted display state.
#[derive(Debug, Clone)]
pub struct TuiState {
    /// Open tabs, in order.
    pub tabs: Vec<TabState>,
    /// Index of the active tab.
    pub active_tab: usize,
    /// Which navigator groups are expanded, by entity type name.
    pub navigator_expanded: Vec<(String, bool)>,
}

impl Default for TuiState {
    /// No tabs, the first tab active, nothing recorded of the navigator.
    fn default() -> (s: Self)
        ensures
            s.tabs@.len() == 0,
            s.active_tab == 0,
            s.navigator_expanded@.len() == 0,
    {
        TuiState { tabs: Vec::new(), active_tab: 0, navigator_expanded: Vec::new() }
    }
}

impl TuiState {
    /// The state file of a workspace: `<workspace>/tui-state.json`.
    pub fn state_path(workspace: &str) -> (p: String)
        ensures
            p@ == path_join(workspace@, "tui-state.json"@),
    {
        join_path(workspace, "tui-state.json")
    }
}

/// The active tab after restoring `tab_count` of the saved tabs: the
/// saved index, kept within the tabs; the first when there are none.
pub open spec fn restored_index(saved: usize, tab_count: nat) -> usize {
    if tab_count == 0 {
        0
    } else if saved < tab_count - 1 {
        saved
    } else {
        (tab_count - 1) as usize
    }
}

/// The active tab after restoring `tab_count` of the saved tabs (see
/// `restored_index`).
pub fn restore_active_tab(saved: usize, tab_count: usize) -> (a: usize)
    ensures
        a == restored_index(saved, tab_count as nat),
        tab_count == 0 ==> a == 0,
        tab_count > 0 ==> a == if saved < tab_count - 1 { saved } else { (tab_count - 1) as usize },
{
    if tab_count == 0 {
        0
    } else if saved < tab_count - 1 {
        saved
    } else {
        tab_count - 1
    }
}

} // verus!
