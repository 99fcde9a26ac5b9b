use clotho::store::entities::EntityRow;
use clotho::store::types::RelationType;
use clotho::tui::app::{
    entity_tab_text, restore_tabs, edge_label, find_tab, format_entity_details, relations_header, saved_tabs, surface_refresh, ContentMode,
    FocusedPanel, Key, KeyInput, StatusMessage, SurfaceRefresh, TabKindLocal, TextMove, UiAction, UiState,
};
use clotho::tui::editor::{toggle_checkbox_line, Editor};
use clotho::tui::navigator::Navigator;
use clotho::tui::state::{restore_active_tab, TabKind, TabState, TuiState};

fn row(id: &str, entity_type: &str, title: &str) -> EntityRow {
    EntityRow {
        id: id.to_string(),
        entity_type: entity_type.to_string(),
        title: title.to_string(),
        created_at: "c".to_string(),
        updated_at: "u".to_string(),
        status: None,
        task_state: None,
        extraction_status: None,
        source_transcript_id: None,
        source_span_start: None,
        source_span_end: None,
        confidence: None,
        content_path: None,
        metadata: None,
    }
}

fn key(k: Key) -> KeyInput {
    KeyInput { key: k, control: false, other_modifiers: false }
}

// Editor

#[test]
fn editor_new_splits_and_normalizes() {
    let e = Editor::new("a\\nb\r\nc");
    assert_eq!(e.lines, vec!["a".to_string(), "b".to_string(), "c".to_string()]);
    assert_eq!(e.content(), "a\nb\nc");
    let empty = Editor::new("");
    assert_eq!(empty.lines, vec![String::new()]);
    assert!(!e.dirty);
}

#[test]
fn editor_typing_and_backspace() {
    let mut e = Editor::new("héllo");
    e.move_end();
    // The column is a byte offset: "é" takes two bytes.
    assert_eq!(e.cursor_col, 6);
    e.insert_char('!');
    assert_eq!(e.cursor_col, 7);
    assert_eq!(e.content(), "héllo!");
    e.backspace();
    assert_eq!(e.content(), "héllo");
    assert_eq!(e.cursor_col, 6);
    e.cursor_col = 3;
    e.insert_newline();
    assert_eq!(e.lines, vec!["hé".to_string(), "llo".to_string()]);
    assert_eq!((e.cursor_row, e.cursor_col), (1, 0));
    e.backspace();
    assert_eq!(e.content(), "héllo");
    assert_eq!((e.cursor_row, e.cursor_col), (0, 3));
    e.delete();
    assert_eq!(e.content(), "hélo");
    assert!(e.dirty);
}

#[test]
fn editor_cursor_steps_over_multibyte_characters() {
    let mut e = Editor::new("héllo
☐ a");
    e.cursor_col = 3;
    e.move_left();
    assert_eq!(e.cursor_col, 1);
    e.move_left();
    assert_eq!(e.cursor_col, 0);
    e.move_right();
    assert_eq!(e.cursor_col, 1);
    e.move_right();
    assert_eq!(e.cursor_col, 3);
    // A column inside a character is pulled back to its start.
    e.cursor_col = 2;
    e.insert_char('x');
    assert_eq!(e.content(), "hxéllo\n☐ a");
    assert_eq!(e.cursor_col, 2);
    e.cursor_col = 4;
    e.delete();
    assert_eq!(e.lines[0], "hxélo");
    assert_eq!(e.lines[0].len(), 6);
    e.cursor_col = 4;
    e.backspace();
    assert_eq!(e.lines[0], "hxlo");
    assert_eq!(e.cursor_col, 2);
    // Moving down keeps the byte offset where it is a boundary of the new
    // line, and pulls it back to the start of a character otherwise.
    e.cursor_col = 2;
    e.move_down();
    assert_eq!((e.cursor_row, e.cursor_col), (1, 0));
    e.move_end();
    assert_eq!(e.cursor_col, 5);
    e.toggle_checkbox();
    assert_eq!(e.lines[1], "☑ a");
    assert_eq!(e.cursor_col, 5);
    e.move_up();
    assert_eq!((e.cursor_row, e.cursor_col), (0, 4));
    e.move_to_end();
    assert_eq!((e.cursor_row, e.cursor_col), (1, 5));
}

#[test]
fn editor_content_round_trips_plain_text() {
    for text in ["plain\ntext", "one line", "", "héllo\n\n☐ a"] {
        assert_eq!(Editor::new(text).content(), text);
    }
}

#[test]
fn editor_moves() {
    let mut e = Editor::new("abc\nde\nfghij");
    e.move_down();
    e.move_down();
    e.move_end();
    assert_eq!((e.cursor_row, e.cursor_col), (2, 5));
    e.move_up();
    assert_eq!((e.cursor_row, e.cursor_col), (1, 2));
    e.move_right();
    assert_eq!((e.cursor_row, e.cursor_col), (2, 0));
    e.move_left();
    assert_eq!((e.cursor_row, e.cursor_col), (1, 2));
    e.move_home();
    assert_eq!(e.cursor_col, 0);
    e.move_to_end();
    assert_eq!((e.cursor_row, e.cursor_col), (2, 5));
    e.move_to_start();
    assert_eq!((e.cursor_row, e.cursor_col), (0, 0));
    e.page_down(10);
    assert_eq!(e.cursor_row, 2);
    e.page_up(1);
    assert_eq!(e.cursor_row, 1);
}

#[test]
fn editor_scroll_follows_cursor() {
    let mut e = Editor::new("1\n2\n3\n4\n5\n6");
    e.move_to_end();
    e.adjust_scroll(3);
    assert_eq!(e.scroll_offset, 3);
    e.move_to_start();
    e.adjust_scroll(3);
    assert_eq!(e.scroll_offset, 0);
}

#[test]
fn editor_toggles_checkboxes() {
    assert_eq!(toggle_checkbox_line("- [ ] a"), Some("- [x] a".to_string()));
    assert_eq!(toggle_checkbox_line("- [X] a"), Some("- [ ] a".to_string()));
    assert_eq!(toggle_checkbox_line("☐ a"), Some("☑ a".to_string()));
    assert_eq!(toggle_checkbox_line("plain"), None);
    let mut e = Editor::new("- [ ] task");
    e.toggle_checkbox();
    assert_eq!(e.content(), "- [x] task");
    assert!(e.dirty);
}

#[test]
fn checkbox_toggled_twice_comes_back() {
    for line in ["- [ ] buy milk", "- [x] done", "☐ call Ada", "☑ sent"] {
        let once = toggle_checkbox_line(line).unwrap();
        assert_ne!(once, line);
        assert_eq!(toggle_checkbox_line(&once), Some(line.to_string()));
    }
    // Other brackets on the line do not matter.
    for line in ["[a] - [ ] x [b]", "[[x]] y", "see [1] ☐ z"] {
        let once = toggle_checkbox_line(line).unwrap();
        assert_eq!(toggle_checkbox_line(&once), Some(line.to_string()));
    }
    let mut e = Editor::new("one\n[note] [ ] two");
    e.move_down();
    e.move_end();
    let (row, col) = (e.cursor_row, e.cursor_col);
    e.toggle_checkbox();
    assert_eq!(e.content(), "one\n[note] [x] two");
    e.toggle_checkbox();
    assert_eq!(e.content(), "one\n[note] [ ] two");
    assert_eq!((e.cursor_row, e.cursor_col), (row, col));
    // An uppercase box is cleared, and comes back lowercase.
    let once = toggle_checkbox_line("[X] big").unwrap();
    assert_eq!(toggle_checkbox_line(&once), Some("[x] big".to_string()));
}

// Navigator

#[test]
fn navigator_groups_and_hides_archived() {
    let mut nav = Navigator::new();
    nav.set_expanded("Task", false);
    let mut done = row("3", "Task", "Old");
    done.task_state = Some("Done".to_string());
    nav.refresh(vec![row("1", "Task", "Write"), row("2", "Note", "Idea"), done]);
    assert_eq!(nav.groups.len(), 2);
    assert_eq!(nav.groups[0].entity_type, "Note");
    assert_eq!(nav.groups[1].entity_type, "Task");
    assert_eq!(nav.groups[1].entities.len(), 1);
    assert!(!nav.groups[1].expanded);
    let lines = nav.visible_lines(10);
    assert_eq!(lines[0], ("▾ Note (1)".to_string(), true, true));
    assert_eq!(lines[1], ("  Idea".to_string(), false, false));
    assert_eq!(lines[2], ("▸ Task (1)".to_string(), true, false));
    nav.cursor_down();
    assert_eq!(nav.selected_entity().map(|r| r.id.clone()), Some("2".to_string()));
    nav.cursor_up();
    assert_eq!(nav.resolve_cursor(), Some((0, None)));
    nav.toggle_expand();
    assert!(!nav.groups[0].expanded);
}

#[test]
fn navigator_toggle_twice_restores() {
    let mut nav = Navigator::new();
    nav.refresh(vec![row("1", "Task", "Write"), row("2", "Note", "Idea"), row("3", "Note", "Plan")]);
    // Cursor on the header of the second group ("Task"), after the two notes.
    nav.cursor_down();
    nav.cursor_down();
    nav.cursor_down();
    assert_eq!(nav.resolve_cursor(), Some((1, None)));
    nav.toggle_expand();
    assert!(!nav.groups[1].expanded);
    assert_eq!(nav.cursor, 3);
    assert_eq!(nav.resolve_cursor(), Some((1, None)));
    nav.toggle_expand();
    assert!(nav.groups[1].expanded);
    assert!(nav.groups[0].expanded);
    assert_eq!(nav.cursor, 3);
    assert_eq!(nav.visible_count, 5);
}

#[test]
fn navigator_search() {
    let mut nav = Navigator::new();
    nav.refresh(vec![row("1", "Task", "Write report"), row("2", "Note", "Reading list")]);
    nav.start_search();
    nav.search_push('r');
    nav.search_push('e');
    nav.search_push('p');
    assert_eq!(nav.search_results.len(), 1);
    assert_eq!(nav.selected_search_entity().map(|r| r.id.clone()), Some("1".to_string()));
    let lines = nav.search_lines(5);
    assert_eq!(lines[0].0, "  Task | Write report");
    nav.search_pop();
    nav.search_pop();
    assert_eq!(nav.search_results.len(), 2);
    nav.stop_search();
    assert!(!nav.searching);
}

// Panels and keys

#[test]
fn keys_switch_panels_and_modes() {
    let mut s = UiState::new(0, 2);
    assert_eq!(s.handle_key(key(Key::Tab), false, false), UiAction::Nothing);
    assert_eq!(s.focused, FocusedPanel::Content);
    assert_eq!(s.handle_key(key(Key::Char('i')), false, false), UiAction::Nothing);
    assert_eq!(s.content_mode, ContentMode::Edit);
    assert_eq!(s.status, Some(StatusMessage::Editing));
    assert_eq!(s.handle_key(key(Key::Tab), false, false), UiAction::EditText);
    let save = KeyInput { key: Key::Char('s'), control: true, other_modifiers: false };
    assert_eq!(s.handle_key(save, false, false), UiAction::SaveTab);
    assert_eq!(StatusMessage::EditingSaved.text(), "-- EDIT -- Saved");
    assert_eq!(s.handle_key(key(Key::Esc), false, false), UiAction::Nothing);
    assert_eq!(s.content_mode, ContentMode::Command);
    assert_eq!(s.status, None);
    let quit = KeyInput { key: Key::Char('q'), control: true, other_modifiers: false };
    s.handle_key(quit, false, false);
    assert!(s.should_quit);
}

#[test]
fn keys_in_the_navigator() {
    let mut s = UiState::new(0, 0);
    assert_eq!(s.handle_key(key(Key::Char('j')), false, false), UiAction::NavDown(1));
    assert_eq!(s.handle_key(key(Key::Enter), false, false), UiAction::NavActivate);
    assert_eq!(s.handle_key(key(Key::Char('a')), false, false), UiAction::NavToggleArchived);
    assert_eq!(s.status, Some(StatusMessage::ShowingAll));
    assert_eq!(s.handle_key(key(Key::Char('a')), false, true), UiAction::NavToggleArchived);
    assert_eq!(s.status, Some(StatusMessage::ActiveOnly));
    for _ in 0..10 {
        s.handle_key(key(Key::Char('<')), false, false);
    }
    assert_eq!(s.nav_width_pct, 10);
    for _ in 0..10 {
        s.handle_key(key(Key::Char('>')), false, false);
    }
    assert_eq!(s.nav_width_pct, 50);
    assert_eq!(s.handle_key(key(Key::Char('x')), true, false), UiAction::NavSearchPush('x'));
    assert_eq!(s.handle_key(key(Key::Esc), true, false), UiAction::NavStopSearch);
    s.handle_key(key(Key::Char('?')), false, false);
    assert!(s.show_help);
    assert_eq!(s.handle_key(key(Key::Char('j')), false, false), UiAction::Nothing);
    assert!(!s.show_help);
    assert_eq!(s.handle_scroll(true), UiAction::NavUp(3));
}

#[test]
fn keys_in_the_content_panel() {
    let mut s = UiState::new(2, 3);
    s.cycle_focus();
    assert_eq!(s.handle_key(key(Key::Char('h')), false, false), UiAction::Nothing);
    assert_eq!(s.active_tab, 1);
    assert_eq!(s.handle_key(key(Key::Char('l')), false, false), UiAction::Nothing);
    s.handle_key(key(Key::Char('l')), false, false);
    assert_eq!(s.active_tab, 2);
    assert_eq!(s.handle_key(key(Key::Char('w')), false, false), UiAction::CloseTab(2));
    assert_eq!((s.tab_count, s.active_tab), (2, 1));
    assert_eq!(s.handle_key(key(Key::PageDown), false, false), UiAction::MoveText(TextMove::Down, 20));
    assert_eq!(s.handle_key(key(Key::Char('G')), false, false), UiAction::MoveText(TextMove::Bottom, 1));
    assert_eq!(s.handle_key(key(Key::Char('s')), false, false), UiAction::SaveTab);
    assert_eq!(s.status, Some(StatusMessage::Saved));
    assert_eq!(s.handle_scroll(false), UiAction::MoveText(TextMove::Down, 3));
}

// Saved state and tabs

#[test]
fn state_file_and_restore() {
    assert_eq!(TuiState::state_path("/w/.clotho"), "/w/.clotho/tui-state.json");
    let d = TuiState::default();
    assert!(d.tabs.is_empty());
    assert_eq!(d.active_tab, 0);
    assert_eq!(restore_active_tab(5, 3), 2);
    assert_eq!(restore_active_tab(1, 3), 1);
    assert_eq!(restore_active_tab(4, 0), 0);
    let saved = saved_tabs(&vec![(TabKindLocal::Surface, "s1".to_string()), (TabKindLocal::Entity, "e1".to_string())]);
    assert_eq!(saved[0].kind, TabKind::Surface);
    assert_eq!(saved[1].id, "e1");
}

#[test]
fn tabs_are_not_duplicated() {
    let ids = vec!["a".to_string(), "b".to_string(), "b".to_string()];
    assert_eq!(find_tab(&ids, "b"), Some(1));
    assert_eq!(find_tab(&ids, "c"), None);
    assert_eq!(surface_refresh(false, None), SurfaceRefresh::OpenTab);
    assert_eq!(surface_refresh(true, Some((false, true))), SurfaceRefresh::Reload);
    assert_eq!(surface_refresh(true, Some((true, true))), SurfaceRefresh::Retitle);
    assert_eq!(surface_refresh(true, None), SurfaceRefresh::Nothing);
}

// Entity details

#[test]
fn entity_details() {
    let mut r = row("id-1", "Task", "Write");
    r.task_state = Some("todo".to_string());
    r.metadata = Some("{}".to_string());
    assert_eq!(
        format_entity_details(&r),
        "# Write\n\nType: Task\nID:   id-1\nState: todo\nCreated: c\nUpdated: u\n\nMetadata:\n{}"
    );
}

#[test]
fn relation_headers() {
    let out = vec![
        (RelationType::RelatesTo, "B (Note)".to_string()),
        (RelationType::BelongsTo, "P (Program)".to_string()),
        (RelationType::RelatesTo, "C (Task)".to_string()),
    ];
    let inc = vec![(RelationType::BlockedBy, "X (Task)".to_string())];
    assert_eq!(
        relations_header("A", "Task", &out, &inc),
        "## A (Task)\n\nBelongsTo: P (Program)\nRelatesTo: B (Note), C (Task)\nBlockedBy (from): X (Task)"
    );
    assert_eq!(relations_header("A", "Task", &vec![], &vec![]), "");
    assert_eq!(edge_label(None, "0f3c2a9e-1111"), "0f3c2a9e");
    assert_eq!(edge_label(Some(&row("1", "Note", "N")), "1"), "N (Note)");
}

#[test]
fn tabs_restored_at_start() {
    let saved = vec![
        TabState { kind: TabKind::Entity, id: "e1".to_string() },
        TabState { kind: TabKind::Surface, id: "gone".to_string() },
        TabState { kind: TabKind::Surface, id: "s1".to_string() },
    ];
    let found = vec![
        Some(("Plan".to_string(), "# Plan".to_string())),
        None,
        Some(("Brief".to_string(), "text".to_string())),
    ];
    let (tabs, active) = restore_tabs(&saved, &found, 5);
    assert_eq!(tabs.len(), 2);
    assert_eq!(tabs[0].kind, TabKindLocal::Entity);
    assert_eq!((tabs[0].title.as_str(), tabs[0].id.as_str(), tabs[0].text.as_str()), ("Plan", "e1", "# Plan"));
    assert_eq!(tabs[1].kind, TabKindLocal::Surface);
    assert_eq!((tabs[1].title.as_str(), tabs[1].id.as_str()), ("Brief", "s1"));
    assert_eq!(active, 1);
    let (none, active) = restore_tabs(&saved, &vec![None, None, None], 2);
    assert!(none.is_empty());
    assert_eq!(active, 0);

    let mut e = row("1", "Task", "Write");
    assert!(entity_tab_text(&e, None).starts_with("# Write\n"));
    e.content_path = Some("tasks/1.md".to_string());
    assert_eq!(entity_tab_text(&e, Some("body".to_string())), "body");
    assert_eq!(entity_tab_text(&e, None), "(no content)");
}
