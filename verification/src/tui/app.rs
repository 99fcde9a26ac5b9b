//! The dashboard's key and mouse handling: which panel has focus, the
//! content panel's mode, the active tab, and what each key asks of the
//! navigator and the open tab.
use vstd::prelude::*;

use crate::store::entities::EntityRow;
use crate::store::types::{relation_name, RelationType};
use crate::text::{join_by, push_str, strings_view};

verus! {

/// Which panel currently has focus.
#[derive(Debug, Clone, Copy, PartialEq, Eq, Structural)]
pub enum FocusedPanel {
    Navigator,
    Content,
}

/// Content panel mode.
#[derive(Debug, Clone, Copy, PartialEq, Eq, Structural)]
pub enum ContentMode {
    Command,
    Edit,
}

/// What kind of item a tab represents.
#[derive(Debug, Clone, Copy, PartialEq, Eq, Structural)]
pub enum TabKindLocal {
    Entity,
    Surface,
}

/// A key, as the terminal reports it.
#[derive(Debug, Clone, Copy, PartialEq, Eq, Structural)]
pub enum Key {
    Char(char),
    Esc,
    Tab,
    Enter,
    Left,
    Right,
    Up,
    Down,
    PageUp,
    PageDown,
    Home,
    End,
    Backspace,
    Other,
}

/// A key press: the key, whether Control was held, and whether any other
/// modifier was.
#[derive(Debug, Clone, Copy, PartialEq, Eq, Structural)]
pub struct KeyInput {
    pub key: Key,
    pub control: bool,
    pub other_modifiers: bool,
}

/// The status line's message.
#[derive(Debug, Clone, Copy, PartialEq, Eq, Structural)]
pub enum StatusMessage {
    ShowingAll,
    ActiveOnly,
    Editing,
    Saved,
    EditingSaved,
}

/// Where the cursor of the open tab's text moves.
#[derive(Debug, Clone, Copy, PartialEq, Eq, Structural)]
pub enum TextMove {
    Up,
    Down,
    Top,
    Bottom,
}

/// What a key or mouse event asks the caller to do beyond the panel
/// state: work on the navigator or on the open tab. Navigator moves and
/// search edits are followed by a refresh of the preview.
#[derive(Debug, Clone, Copy, PartialEq, Eq, Structural)]
pub enum UiAction {
    Nothing,
    /// Move the navigator cursor up this many times, then preview.
    NavUp(usize),
    /// Move the navigator cursor down this many times, then preview.
    NavDown(usize),
    NavStartSearch,
    /// Leave search, then preview.
    NavStopSearch,
    /// Open the highlighted search result (leaving search), if any.
    NavOpenSearchResult,
    /// Add a character to the search query, then preview.
    NavSearchPush(char),
    /// Drop the last character of the search query, then preview.
    NavSearchPop,
    /// Flip whether archived entities are shown.
    NavToggleArchived,
    /// On a group header, expand or collapse it; on a surface or an
    /// entity, open it in a tab.
    NavActivate,
    /// On a group header, expand or collapse it.
    NavCollapse,
    /// Move the open tab's cursor this many times.
    MoveText(TextMove, usize),
    /// Hand the key to the open tab's text editor.
    EditText,
    ToggleCheckbox,
    SaveTab,
    /// Close the tab at this index.
    CloseTab(usize),
}

/// The panel state of the dashboard.
#[derive(Debug, Clone, Copy, PartialEq, Eq, Structural)]
pub struct UiState {
    pub focused: FocusedPanel,
    pub content_mode: ContentMode,
    pub show_help: bool,
    pub should_quit: bool,
    /// Width of the navigator, in percent of the screen.
    pub nav_width_pct: u16,
    pub active_tab: usize,
    pub tab_count: usize,
    pub status: Option<StatusMessage>,
}

impl StatusMessage {
    /// The text shown for this message.
    pub fn text(&self) -> (s: &'static str)
        ensures
            s@ == status_text(*self),
    {
        match self {
            StatusMessage::ShowingAll => "Showing all",
            StatusMessage::ActiveOnly => "Active only",
            StatusMessage::Editing => "-- EDIT --",
            StatusMessage::Saved => "Saved",
            StatusMessage::EditingSaved => "-- EDIT -- Saved",
        }
    }
}

/// The text shown for a status message.
pub open spec fn status_text(m: StatusMessage) -> Seq<char> {
    match m {
        StatusMessage::ShowingAll => "Showing all"@,
        StatusMessage::ActiveOnly => "Active only"@,
        StatusMessage::Editing => "-- EDIT --"@,
        StatusMessage::Saved => "Saved"@,
        StatusMessage::EditingSaved => "-- EDIT -- Saved"@,
    }
}

/// The other panel.
pub open spec fn other_panel(f: FocusedPanel) -> FocusedPanel {
    match f {
        FocusedPanel::Navigator => FocusedPanel::Content,
        FocusedPanel::Content => FocusedPanel::Navigator,
    }
}

/// A key with a character code and Control exactly.
pub open spec fn is_ctrl(k: KeyInput, c: char) -> bool {
    k.key == Key::Char(c) && k.control && !k.other_modifiers
}

/// A key in the navigator while searching.
pub open spec fn search_step(s: UiState, k: Key) -> (UiState, UiAction) {
    match k {
        Key::Esc => (s, UiAction::NavStopSearch),
        Key::Enter => (s, UiAction::NavOpenSearchResult),
        Key::Up => (s, UiAction::NavUp(1)),
        Key::Down => (s, UiAction::NavDown(1)),
        Key::Backspace => (s, UiAction::NavSearchPop),
        Key::Char(c) => (s, UiAction::NavSearchPush(c)),
        _ => (s, UiAction::Nothing),
    }
}

/// A key in the navigator when not searching; `show_archived` is whether
/// archived entities are shown before the key.
pub open spec fn navigator_step(s: UiState, k: Key, show_archived: bool) -> (UiState, UiAction) {
    match k {
        Key::Char('?') => (UiState { show_help: true, ..s }, UiAction::Nothing),
        Key::Char('/') => (s, UiAction::NavStartSearch),
        Key::Char('a') => (UiState {
            status: Some(if show_archived { StatusMessage::ActiveOnly } else { StatusMessage::ShowingAll }),
            ..s
        }, UiAction::NavToggleArchived),
        Key::Char('<') | Key::Char(',') => (UiState {
            nav_width_pct: if s.nav_width_pct > 10 { (s.nav_width_pct - 5) as u16 } else { s.nav_width_pct },
            ..s
        }, UiAction::Nothing),
        Key::Char('>') | Key::Char('.') => (UiState {
            nav_width_pct: if s.nav_width_pct < 50 { (s.nav_width_pct + 5) as u16 } else { s.nav_width_pct },
            ..s
        }, UiAction::Nothing),
        Key::Up | Key::Char('k') => (s, UiAction::NavUp(1)),
        Key::Down | Key::Char('j') => (s, UiAction::NavDown(1)),
        Key::Enter | Key::Right => (s, UiAction::NavActivate),
        Key::Left => (s, UiAction::NavCollapse),
        _ => (s, UiAction::Nothing),
    }
}

/// A key in the content panel in command mode.
pub open spec fn command_step(s: UiState, k: Key) -> (UiState, UiAction) {
    match k {
        Key::Char('?') => (UiState { show_help: true, ..s }, UiAction::Nothing),
        Key::Enter | Key::Char('i') => (UiState {
            content_mode: ContentMode::Edit,
            status: Some(StatusMessage::Editing),
            ..s
        }, UiAction::Nothing),
        Key::Char('h') | Key::Left => (UiState {
            active_tab: if s.active_tab > 0 { (s.active_tab - 1) as usize } else { s.active_tab },
            ..s
        }, UiAction::Nothing),
        Key::Char('l') | Key::Right => (UiState {
            active_tab: if s.tab_count > 0 && s.active_tab < s.tab_count - 1 { (s.active_tab + 1) as usize } else { s.active_tab },
            ..s
        }, UiAction::Nothing),
        Key::Char('w') => if s.tab_count > 0 {
            let left = (s.tab_count - 1) as usize;
            (UiState {
                tab_count: left,
                active_tab: if s.active_tab > 0 && s.active_tab >= left { (left - 1) as usize } else { s.active_tab },
                ..s
            }, UiAction::CloseTab(s.active_tab))
        } else {
            (s, UiAction::Nothing)
        },
        Key::Char('j') | Key::Down => (s, UiAction::MoveText(TextMove::Down, 1)),
        Key::Char('k') | Key::Up => (s, UiAction::MoveText(TextMove::Up, 1)),
        Key::PageUp => (s, UiAction::MoveText(TextMove::Up, 20)),
        Key::PageDown => (s, UiAction::MoveText(TextMove::Down, 20)),
        Key::Home | Key::Char('g') => (s, UiAction::MoveText(TextMove::Top, 1)),
        Key::End | Key::Char('G') => (s, UiAction::MoveText(TextMove::Bottom, 1)),
        Key::Char('x') => (s, UiAction::ToggleCheckbox),
        Key::Char('s') => (UiState { status: Some(StatusMessage::Saved), ..s }, UiAction::SaveTab),
        _ => (s, UiAction::Nothing),
    }
}

/// A key in the content panel in edit mode: Control-s saves; every other
/// key goes to the text.
pub open spec fn edit_step(s: UiState, k: KeyInput) -> (UiState, UiAction) {
    if k.key == Key::Char('s') && k.control {
        (UiState { status: Some(StatusMessage::EditingSaved), ..s }, UiAction::SaveTab)
    } else {
        (s, UiAction::EditText)
    }
}

/// What a key press does: any key closes the help overlay; Control-q or
/// Control-c quits; Esc leaves edit mode; Tab switches panels (except
/// while editing, where it is text); other keys go to the focused panel.
pub open spec fn key_step(s: UiState, k: KeyInput, searching: bool, show_archived: bool) -> (UiState, UiAction) {
    let editing = s.focused == FocusedPanel::Content && s.content_mode == ContentMode::Edit;
    if s.show_help {
        (UiState { show_help: false, ..s }, UiAction::Nothing)
    } else if is_ctrl(k, 'q') || is_ctrl(k, 'c') {
        (UiState { should_quit: true, ..s }, UiAction::Nothing)
    } else if k.key == Key::Esc && editing {
        (UiState { content_mode: ContentMode::Command, status: None, ..s }, UiAction::Nothing)
    } else if k.key == Key::Tab && !editing {
        let f = other_panel(s.focused);
        (UiState {
            focused: f,
            content_mode: if f == FocusedPanel::Content { ContentMode::Command } else { s.content_mode },
            ..s
        }, UiAction::Nothing)
    } else {
        match s.focused {
            FocusedPanel::Navigator => if searching {
                search_step(s, k.key)
            } else {
                navigator_step(s, k.key, show_archived)
            },
            FocusedPanel::Content => match s.content_mode {
                ContentMode::Command => command_step(s, k.key),
                ContentMode::Edit => edit_step(s, k),
            },
        }
    }
}

/// Mouse wheel: three steps up or down in the focused panel.
pub open spec fn scroll_step(s: UiState, up: bool) -> UiAction {
    match s.focused {
        FocusedPanel::Content => UiAction::MoveText(if up { TextMove::Up } else { TextMove::Down }, 3),
        FocusedPanel::Navigator => if up { UiAction::NavUp(3) } else { UiAction::NavDown(3) },
    }
}

impl UiState {
    /// The state at start: the navigator focused, command mode, no help,
    /// a navigator 20% wide, and the restored tabs.
    pub fn new(active_tab: usize, tab_count: usize) -> (s: Self)
        ensures
            s == (UiState {
                focused: FocusedPanel::Navigator,
                content_mode: ContentMode::Command,
                show_help: false,
                should_quit: false,
                nav_width_pct: 20,
                active_tab,
                tab_count,
                status: None,
            }),
    {
        UiState {
            focused: FocusedPanel::Navigator,
            content_mode: ContentMode::Command,
            show_help: false,
            should_quit: false,
            nav_width_pct: 20,
            active_tab,
            tab_count,
            status: None,
        }
    }

    /// Switch focus to the other panel.
    pub fn cycle_focus(&mut self)
        ensures
            *final(self) == (UiState { focused: other_panel(old(self).focused), ..*old(self) }),
    {
        self.focused = match self.focused {
            FocusedPanel::Navigator => FocusedPanel::Content,
            FocusedPanel::Content => FocusedPanel::Navigator,
        };
    }

    fn search_key(&mut self, k: Key) -> (a: UiAction)
        ensures
            (*final(self), a) == search_step(*old(self), k),
    {
        match k {
            Key::Esc => UiAction::NavStopSearch,
            Key::Enter => UiAction::NavOpenSearchResult,
            Key::Up => UiAction::NavUp(1),
            Key::Down => UiAction::NavDown(1),
            Key::Backspace => UiAction::NavSearchPop,
            Key::Char(c) => UiAction::NavSearchPush(c),
            _ => UiAction::Nothing,
        }
    }

    fn navigator_key(&mut self, k: Key, show_archived: bool) -> (a: UiAction)
        ensures
            (*final(self), a) == navigator_step(*old(self), k, show_archived),
    {
        match k {
            Key::Char('?') => {
                self.show_help = true;
                UiAction::Nothing
            },
            Key::Char('/') => UiAction::NavStartSearch,
            Key::Char('a') => {
                self.status = Some(if show_archived { StatusMessage::ActiveOnly } else { StatusMessage::ShowingAll });
                UiAction::NavToggleArchived
            },
            Key::Char('<') | Key::Char(',') => {
                if self.nav_width_pct > 10 {
                    self.nav_width_pct = self.nav_width_pct - 5;
                }
                UiAction::Nothing
            },
            Key::Char('>') | Key::Char('.') => {
                if self.nav_width_pct < 50 {
                    self.nav_width_pct = self.nav_width_pct + 5;
                }
                UiAction::Nothing
            },
            Key::Up | Key::Char('k') => UiAction::NavUp(1),
            Key::Down | Key::Char('j') => UiAction::NavDown(1),
            Key::Enter | Key::Right => UiAction::NavActivate,
            Key::Left => UiAction::NavCollapse,
            _ => UiAction::Nothing,
        }
    }

    fn command_key(&mut self, k: Key) -> (a: UiAction)
        requires
            tab_ok(*old(self)),
        ensures
            (*final(self), a) == command_step(*old(self), k),
    {
        match k {
            Key::Char('?') => {
                self.show_help = true;
                UiAction::Nothing
            },
            Key::Enter | Key::Char('i') => {
                self.content_mode = ContentMode::Edit;
                self.status = Some(StatusMessage::Editing);
                UiAction::Nothing
            },
            Key::Char('h') | Key::Left => {
                if self.active_tab > 0 {
                    self.active_tab = self.active_tab - 1;
                }
                UiAction::Nothing
            },
            Key::Char('l') | Key::Right => {
                if self.tab_count > 0 && self.active_tab < self.tab_count - 1 {
                    self.active_tab = self.active_tab + 1;
                }
                UiAction::Nothing
            },
            Key::Char('w') => {
                if self.tab_count > 0 {
                    let closed = self.active_tab;
                    self.tab_count = self.tab_count - 1;
                    if self.active_tab > 0 && self.active_tab >= self.tab_count {
                        self.active_tab = self.tab_count - 1;
                    }
                    UiAction::CloseTab(closed)
                } else {
                    UiAction::Nothing
                }
            },
            Key::Char('j') | Key::Down => UiAction::MoveText(TextMove::Down, 1),
            Key::Char('k') | Key::Up => UiAction::MoveText(TextMove::Up, 1),
            Key::PageUp => UiAction::MoveText(TextMove::Up, 20),
            Key::PageDown => UiAction::MoveText(TextMove::Down, 20),
            Key::Home | Key::Char('g') => UiAction::MoveText(TextMove::Top, 1),
            Key::End | Key::Char('G') => UiAction::MoveText(TextMove::Bottom, 1),
            Key::Char('x') => UiAction::ToggleCheckbox,
            Key::Char('s') => {
                self.status = Some(StatusMessage::Saved);
                UiAction::SaveTab
            },
            _ => UiAction::Nothing,
        }
    }

    /// Handle a key press (see `key_step`), given whether the navigator is
    /// searching and whether it shows archived entities.
    pub fn handle_key(&mut self, k: KeyInput, searching: bool, show_archived: bool) -> (a: UiAction)
        requires
            tab_ok(*old(self)),
        ensures
            (*final(self), a) == key_step(*old(self), k, searching, show_archived),
    {
        let editing = self.focused == FocusedPanel::Content && self.content_mode == ContentMode::Edit;
        if self.show_help {
            self.show_help = false;
            return UiAction::Nothing;
        }
        if (k.key == Key::Char('q') || k.key == Key::Char('c')) && k.control && !k.other_modifiers {
            self.should_quit = true;
            return UiAction::Nothing;
        }
        if k.key == Key::Esc && editing {
            self.content_mode = ContentMode::Command;
            self.status = None;
            return UiAction::Nothing;
        }
        if k.key == Key::Tab && !editing {
            self.cycle_focus();
            if self.focused == FocusedPanel::Content {
                self.content_mode = ContentMode::Command;
            }
            return UiAction::Nothing;
        }
        match self.focused {
            FocusedPanel::Navigator => {
                if searching {
                    self.search_key(k.key)
                } else {
                    self.navigator_key(k.key, show_archived)
                }
            },
            FocusedPanel::Content => match self.content_mode {
                ContentMode::Command => self.command_key(k.key),
                ContentMode::Edit => {
                    if k.key == Key::Char('s') && k.control {
                        self.status = Some(StatusMessage::EditingSaved);
                        UiAction::SaveTab
                    } else {
                        UiAction::EditText
                    }
                },
            },
        }
    }

    /// Handle a turn of the mouse wheel (see `scroll_step`).
    pub fn handle_scroll(&self, up: bool) -> (a: UiAction)
        ensures
            a == scroll_step(*self, up),
    {
        match self.focused {
            FocusedPanel::Content => UiAction::MoveText(if up { TextMove::Up } else { TextMove::Down }, 3),
            FocusedPanel::Navigator => if up { UiAction::NavUp(3) } else { UiAction::NavDown(3) },
        }
    }
}

/// Whether the active tab designates an open tab (or there are none).
pub open spec fn tab_ok(s: UiState) -> bool {
    s.tab_count == 0 || s.active_tab < s.tab_count
}

/// Every key keeps the active tab among the open tabs, and the navigator
/// width a multiple of 5% between 10% and 50% (it starts at 20% and moves
/// in steps of 5%).
pub proof fn law_keys_keep_tabs_and_width(s: UiState, k: KeyInput, searching: bool, show_archived: bool)
    requires
        tab_ok(s),
        10 <= s.nav_width_pct <= 50,
        s.nav_width_pct % 5 == 0,
    ensures
        tab_ok(key_step(s, k, searching, show_archived).0),
        10 <= key_step(s, k, searching, show_archived).0.nav_width_pct <= 50,
        key_step(s, k, searching, show_archived).0.nav_width_pct % 5 == 0,
{
}

/// Closing a tab removes exactly one tab and leaves a valid active tab.
pub proof fn law_close_tab(s: UiState)
    requires
        tab_ok(s),
        s.tab_count > 0,
        s.focused == FocusedPanel::Content,
        s.content_mode == ContentMode::Command,
        !s.show_help,
    ensures
        ({
            let (t, a) = key_step(s, KeyInput { key: Key::Char('w'), control: false, other_modifiers: false }, false, false);
            &&& a == UiAction::CloseTab(s.active_tab)
            &&& t.tab_count == s.tab_count - 1
            &&& tab_ok(t)
        }),
{
}

/// The lines of the details shown for an entity without a content file.
pub open spec fn details_lines(e: EntityRow) -> Seq<Seq<char>> {
    seq!["# "@ + e.title@, Seq::empty(), "Type: "@ + e.entity_type@, "ID:   "@ + e.id@]
        + (match e.status { Some(s) => seq!["Status: "@ + s@], None => Seq::empty() })
        + (match e.task_state { Some(s) => seq!["State: "@ + s@], None => Seq::empty() })
        + seq!["Created: "@ + e.created_at@, "Updated: "@ + e.updated_at@]
        + (match e.metadata { Some(m) => seq![Seq::empty(), "Metadata:"@, m@], None => Seq::empty() })
}

fn prefixed_line(prefix: &str, s: &String) -> (l: String)
    ensures
        l@ == prefix@ + s@,
{
    let mut l = prefix.to_owned();
    push_str(&mut l, s.as_str());
    l
}

/// The details shown for an entity without a content file: its title as
/// a heading, then type, ID, status and state (when set), creation and
/// update times, and its metadata (when set), one per line.
pub fn format_entity_details(e: &EntityRow) -> (t: String)
    ensures
        t@ == join_by(details_lines(*e), "\n"@),
{
    let mut lines: Vec<String> = Vec::new();
    lines.push(prefixed_line("# ", &e.title));
    lines.push(String::new());
    lines.push(prefixed_line("Type: ", &e.entity_type));
    lines.push(prefixed_line("ID:   ", &e.id));
    match &e.status {
        Some(s) => lines.push(prefixed_line("Status: ", s)),
        None => {},
    }
    match &e.task_state {
        Some(s) => lines.push(prefixed_line("State: ", s)),
        None => {},
    }
    lines.push(prefixed_line("Created: ", &e.created_at));
    lines.push(prefixed_line("Updated: ", &e.updated_at));
    match &e.metadata {
        Some(m) => {
            lines.push(String::new());
            lines.push("Metadata:".to_owned());
            lines.push(m.clone());
        },
        None => {},
    }
    assert(strings_view(lines@) =~= details_lines(*e));
    crate::text::join_str(&lines, "\n")
}


/// The index of the first tab showing item `id`, if any.
pub open spec fn tab_index(ids: Seq<Seq<char>>, id: Seq<char>) -> Option<nat>
    decreases ids.len(),
{
    if ids.len() == 0 {
        None
    } else {
        match tab_index(ids.drop_last(), id) {
            Some(k) => Some(k),
            None => if ids.last() == id { Some((ids.len() - 1) as nat) } else { None },
        }
    }
}

proof fn lemma_tab_index_prefix(s: Seq<Seq<char>>, id: Seq<char>, j: int)
    requires
        0 <= j <= s.len(),
        tab_index(s.take(j), id) is Some,
    ensures
        tab_index(s, id) == tab_index(s.take(j), id),
    decreases s.len() - j,
{
    if j < s.len() {
        assert(s.take(j + 1).drop_last() =~= s.take(j));
        lemma_tab_index_prefix(s, id, j + 1);
    } else {
        assert(s.take(j) =~= s);
    }
}

/// The tab already showing item `id`, if any: opening an item that has a
/// tab activates that tab instead of opening another.
pub fn find_tab(tab_ids: &Vec<String>, id: &str) -> (r: Option<usize>)
    ensures
        match r {
            Some(k) => tab_index(strings_view(tab_ids@), id@) == Some(k as nat),
            None => tab_index(strings_view(tab_ids@), id@) is None,
        },
{
    let ghost v = strings_view(tab_ids@);
    let n = tab_ids.len();
    for i in 0..n
        invariant
            n == tab_ids@.len(),
            v == strings_view(tab_ids@),
            tab_index(v.take(i as int), id@) is None,
    {
        assert(v.take(i + 1).drop_last() =~= v.take(i as int));
        if crate::text::str_eq(tab_ids[i].as_str(), id) {
            proof {
                lemma_tab_index_prefix(v, id@, i + 1);
            }
            return Some(i);
        }
    }
    assert(v.take(n as int) =~= v);
    None
}

/// The saved kind of a tab.
pub open spec fn saved_kind(k: TabKindLocal) -> crate::tui::state::TabKind {
    match k {
        TabKindLocal::Entity => crate::tui::state::TabKind::Entity,
        TabKindLocal::Surface => crate::tui::state::TabKind::Surface,
    }
}

/// The saved form of the open tabs, given each tab's kind and ID.
pub fn saved_tabs(tabs: &Vec<(TabKindLocal, String)>) -> (v: Vec<crate::tui::state::TabState>)
    ensures
        v@.len() == tabs@.len(),
        forall|i: int| 0 <= i < v@.len() ==> (#[trigger] v@[i]).kind == saved_kind(tabs@[i].0) && v@[i].id@ == tabs@[i].1@,
{
    let mut v: Vec<crate::tui::state::TabState> = Vec::new();
    let n = tabs.len();
    for i in 0..n
        invariant
            n == tabs@.len(),
            v@.len() == i,
            forall|q: int| 0 <= q < i ==> (#[trigger] v@[q]).kind == saved_kind(tabs@[q].0) && v@[q].id@ == tabs@[q].1@,
    {
        let kind = match tabs[i].0 {
            TabKindLocal::Entity => crate::tui::state::TabKind::Entity,
            TabKindLocal::Surface => crate::tui::state::TabKind::Surface,
        };
        v.push(crate::tui::state::TabState { kind, id: tabs[i].1.clone() });
    }
    v
}

/// The text an entity's tab opens with: the text of its content file when
/// it has one (`read` is what reading that file gave, `None` when it could
/// not be read, which shows `(no content)`), else the entity's details.
pub fn entity_tab_text(e: &EntityRow, read: Option<String>) -> (t: String)
    ensures
        e.content_path is Some ==> t@ == (match read { Some(r) => r@, None => "(no content)"@ }),
        e.content_path is None ==> t@ == join_by(details_lines(*e), "\n"@),
{
    match &e.content_path {
        Some(_) => match read {
            Some(r) => r,
            None => "(no content)".to_owned(),
        },
        None => format_entity_details(e),
    }
}

/// A tab reopened at start: its kind, title, item ID and text.
#[derive(Debug)]
pub struct RestoredTab {
    pub kind: TabKindLocal,
    pub title: String,
    pub id: String,
    pub text: String,
}

/// The kind of an open tab for a saved kind.
pub open spec fn open_kind(k: crate::tui::state::TabKind) -> TabKindLocal {
    match k {
        crate::tui::state::TabKind::Entity => TabKindLocal::Entity,
        crate::tui::state::TabKind::Surface => TabKindLocal::Surface,
    }
}

/// A reopened tab as (kind, title, ID, text).
pub open spec fn restored_view(t: RestoredTab) -> (TabKindLocal, Seq<char>, Seq<char>, Seq<char>) {
    (t.kind, t.title@, t.id@, t.text@)
}

/// The tabs reopened from the saved ones, given for each what the stores
/// found for its item (title and text), `None` when the item is gone: the
/// saved tabs whose item was found, in order.
pub open spec fn reopened(saved: Seq<crate::tui::state::TabState>, found: Seq<Option<(String, String)>>) -> Seq<(TabKindLocal, Seq<char>, Seq<char>, Seq<char>)>
    decreases saved.len(),
{
    if saved.len() == 0 || found.len() == 0 {
        Seq::empty()
    } else {
        let rest = reopened(saved.drop_last(), found.drop_last());
        match found.last() {
            Some((title, text)) => rest.push((open_kind(saved.last().kind), title@, saved.last().id@, text@)),
            None => rest,
        }
    }
}

/// The tabs to reopen at start and the active one (see `reopened`); the
/// saved active index is kept within the reopened tabs.
pub fn restore_tabs(saved: &Vec<crate::tui::state::TabState>, found: &Vec<Option<(String, String)>>, saved_active: usize) -> (r: (Vec<RestoredTab>, usize))
    requires
        found@.len() == saved@.len(),
    ensures
        r.0@.map_values(|t: RestoredTab| restored_view(t)) == reopened(saved@, found@),
        r.1 == crate::tui::state::restored_index(saved_active, r.0@.len()),
{
    let mut out: Vec<RestoredTab> = Vec::new();
    let n = saved.len();
    for i in 0..n
        invariant
            n == saved@.len() == found@.len(),
            out@.map_values(|t: RestoredTab| restored_view(t)) == reopened(saved@.take(i as int), found@.take(i as int)),
    {
        let ghost before = out@.map_values(|t: RestoredTab| restored_view(t));
        assert(saved@.take(i + 1).drop_last() =~= saved@.take(i as int));
        assert(found@.take(i + 1).drop_last() =~= found@.take(i as int));
        match &found[i] {
            Some((title, text)) => {
                let kind = match saved[i].kind {
                    crate::tui::state::TabKind::Entity => TabKindLocal::Entity,
                    crate::tui::state::TabKind::Surface => TabKindLocal::Surface,
                };
                out.push(RestoredTab { kind, title: title.clone(), id: saved[i].id.clone(), text: text.clone() });
                assert(out@.map_values(|t: RestoredTab| restored_view(t)) =~= before.push(
                    (open_kind(saved@[i as int].kind), title@, saved@[i as int].id@, text@),
                ));
            },
            None => {},
        }
    }
    assert(saved@.take(n as int) =~= saved@);
    assert(found@.take(n as int) =~= found@);
    let active = crate::tui::state::restore_active_tab(saved_active, out.len());
    (out, active)
}

/// What a refresh does for an active surface: open a tab for a surface not
/// seen before (unless one shows it already); for a known one with a tab,
/// reload the tab when it has no unsaved edits and the content changed,
/// else only retitle it.
#[derive(Debug, Clone, Copy, PartialEq, Eq, Structural)]
pub enum SurfaceRefresh {
    OpenTab,
    Reload,
    Retitle,
    Nothing,
}

/// The refresh of an active surface (see `SurfaceRefresh`): `known` is
/// whether it was seen before; `tab` tells, for its tab if it has one,
/// whether the tab has unsaved edits and whether its text differs from
/// the surface's content.
pub fn surface_refresh(known: bool, tab: Option<(bool, bool)>) -> (r: SurfaceRefresh)
    ensures
        !known ==> r == (if tab is None { SurfaceRefresh::OpenTab } else { SurfaceRefresh::Nothing }),
        known ==> r == match tab {
            Some((dirty, differs)) => if !dirty && differs { SurfaceRefresh::Reload } else { SurfaceRefresh::Retitle },
            None => SurfaceRefresh::Nothing,
        },
{
    if !known {
        if tab.is_none() { SurfaceRefresh::OpenTab } else { SurfaceRefresh::Nothing }
    } else {
        match tab {
            Some((dirty, differs)) => if !dirty && differs { SurfaceRefresh::Reload } else { SurfaceRefresh::Retitle },
            None => SurfaceRefresh::Nothing,
        }
    }
}

/// The relation types in the order of their names.
pub open spec fn relations_by_name() -> Seq<RelationType> {
    seq![
        RelationType::BelongsTo,
        RelationType::BlockedBy,
        RelationType::Delivers,
        RelationType::ExtractedFrom,
        RelationType::HasCadence,
        RelationType::HasDeadline,
        RelationType::HasDecision,
        RelationType::HasRisk,
        RelationType::HasSchedule,
        RelationType::Mentions,
        RelationType::RelatesTo,
        RelationType::SpawnedFrom,
    ]
}

/// The labels of the edges of relation type `r`, in order.
pub open spec fn labels_of(edges: Seq<(RelationType, String)>, r: RelationType) -> Seq<Seq<char>>
    decreases edges.len(),
{
    if edges.len() == 0 {
        Seq::empty()
    } else if edges.last().0 == r {
        labels_of(edges.drop_last(), r).push(edges.last().1@)
    } else {
        labels_of(edges.drop_last(), r)
    }
}

/// One line per relation type that has edges, in name order:
/// `<name><tag>: <labels joined by ", ">`.
pub open spec fn group_lines(edges: Seq<(RelationType, String)>, tag: Seq<char>, types: Seq<RelationType>) -> Seq<Seq<char>>
    decreases types.len(),
{
    if types.len() == 0 {
        Seq::empty()
    } else {
        let prev = group_lines(edges, tag, types.drop_last());
        let ls = labels_of(edges, types.last());
        if ls.len() > 0 {
            prev.push(relation_name(types.last()) + tag + ": "@ + join_by(ls, ", "@))
        } else {
            prev
        }
    }
}

/// The relations header of an entity: nothing without edges; else its
/// title and type, a blank line, its outgoing relations grouped by type,
/// then its incoming ones, each group on a line.
pub open spec fn relations_header_text(title: Seq<char>, entity_type: Seq<char>, outgoing: Seq<(RelationType, String)>, incoming: Seq<(RelationType, String)>) -> Seq<char> {
    if outgoing.len() == 0 && incoming.len() == 0 {
        Seq::empty()
    } else {
        join_by(seq!["## "@ + title + " ("@ + entity_type + ")"@, Seq::empty()]
            + group_lines(outgoing, Seq::empty(), relations_by_name())
            + group_lines(incoming, " (from)"@, relations_by_name()), "\n"@)
    }
}

fn labels_for(edges: &Vec<(RelationType, String)>, r: RelationType) -> (v: Vec<String>)
    ensures
        strings_view(v@) == labels_of(edges@, r),
{
    let mut v: Vec<String> = Vec::new();
    let n = edges.len();
    for i in 0..n
        invariant
            n == edges@.len(),
            strings_view(v@) == labels_of(edges@.take(i as int), r),
    {
        assert(edges@.take(i + 1).drop_last() =~= edges@.take(i as int));
        if edges[i].0 == r {
            v.push(edges[i].1.clone());
            assert(strings_view(v@) =~= labels_of(edges@.take(i as int), r).push(edges@[i as int].1@));
        }
    }
    assert(edges@.take(n as int) =~= edges@);
    v
}

fn push_group_lines(lines: &mut Vec<String>, edges: &Vec<(RelationType, String)>, tag: &str)
    ensures
        strings_view(final(lines)@) == strings_view(old(lines)@) + group_lines(edges@, tag@, relations_by_name()),
{
    let order: Vec<RelationType> = vec![
        RelationType::BelongsTo,
        RelationType::BlockedBy,
        RelationType::Delivers,
        RelationType::ExtractedFrom,
        RelationType::HasCadence,
        RelationType::HasDeadline,
        RelationType::HasDecision,
        RelationType::HasRisk,
        RelationType::HasSchedule,
        RelationType::Mentions,
        RelationType::RelatesTo,
        RelationType::SpawnedFrom,
    ];
    assert(order@ =~= relations_by_name());
    let ghost start = strings_view(lines@);
    for i in 0..order.len()
        invariant
            order@ == relations_by_name(),
            strings_view(lines@) == start + group_lines(edges@, tag@, order@.take(i as int)),
    {
        assert(order@.take(i + 1).drop_last() =~= order@.take(i as int));
        let ls = labels_for(edges, order[i]);
        if ls.len() > 0 {
            let mut l = order[i].name().to_owned();
            push_str(&mut l, tag);
            push_str(&mut l, ": ");
            push_str(&mut l, crate::text::join_str(&ls, ", ").as_str());
            let ghost before = strings_view(lines@);
            lines.push(l);
            assert(strings_view(lines@) =~= before.push(l@));
        }
    }
    assert(order@.take(12) =~= order@);
}

/// The relations header of an entity (see `relations_header_text`); each
/// edge comes with the label of the entity at its other end.
pub fn relations_header(title: &str, entity_type: &str, outgoing: &Vec<(RelationType, String)>, incoming: &Vec<(RelationType, String)>) -> (t: String)
    ensures
        t@ == relations_header_text(title@, entity_type@, outgoing@, incoming@),
{
    if outgoing.len() == 0 && incoming.len() == 0 {
        return String::new();
    }
    let mut lines: Vec<String> = Vec::new();
    let mut head = "## ".to_owned();
    push_str(&mut head, title);
    push_str(&mut head, " (");
    push_str(&mut head, entity_type);
    push_str(&mut head, ")");
    lines.push(head);
    lines.push(String::new());
    assert(strings_view(lines@) =~= seq!["## "@ + title@ + " ("@ + entity_type@ + ")"@, Seq::<char>::empty()]);
    push_group_lines(&mut lines, outgoing, "");
    push_group_lines(&mut lines, incoming, " (from)");
    assert(""@ =~= Seq::<char>::empty()) by {
        reveal_strlit("");
    }
    crate::text::join_str(&lines, "\n")
}

/// The label of the entity at the other end of an edge: its title and
/// type when it was found, else the first 8 bytes of its ID.
pub fn edge_label(found: Option<&EntityRow>, id: &str) -> (l: String)
    requires
        found is None ==> crate::text::cuttable(id@, 8),
    ensures
        match found {
            Some(r) => l@ == r.title@ + " ("@ + r.entity_type@ + ")"@,
            None => l@ == crate::text::byte_prefix(id@, 8),
        },
{
    match found {
        Some(r) => {
            let mut l = r.title.clone();
            push_str(&mut l, " (");
            push_str(&mut l, r.entity_type.as_str());
            push_str(&mut l, ")");
            l
        },
        None => crate::text::prefix_bytes(id, 8),
    }
}

} // verus!
