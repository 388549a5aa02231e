use quickswitch::app_state::AppState;
use quickswitch::highlight::{find_first_match, highlight_search_term, try_highlight_search_term};
use quickswitch::modes::{exit_path, KeyCode, KeyInput, KeyOutcome, ModeAction, ModeManager, NormalModeHandler, SearchBoxStyle};
use quickswitch::preview::{PreviewContent, PreviewState, StyledText, TextStyle};
use quickswitch::render::{FileListRenderer, HistoryHelpRenderer, HistoryListRenderer, PreviewRenderer, PreviewView};
use quickswitch::utils::{AppMode, DisplayItem, FileItem, HistoryEntry, Timestamp};

fn key(code: KeyCode) -> KeyInput {
    KeyInput { code, modifiers: 0 }
}

fn state_with_files() -> AppState {
    let mut state = AppState::new("/w".to_string());
    state.load_file_items(vec![FileItem::from_path("/w/docs", true), FileItem::from_path("/w/Notes.md", false)]);
    state
}

fn spans(v: &[StyledText]) -> Vec<(String, TextStyle)> {
    v.iter().map(|s| (s.text.clone(), s.style)).collect()
}

fn sp(t: &str, s: TextStyle) -> (String, TextStyle) {
    (t.to_string(), s)
}

#[test]
fn v_switches_to_history_and_slash_starts_search() {
    let mut h = NormalModeHandler::new();
    let mut state = state_with_files();
    assert_eq!(h.handle_key_event(&mut state, &key(KeyCode::Char('v'))), KeyOutcome::Action(ModeAction::Switch(AppMode::History)));
    assert_eq!(h.handle_key_event(&mut state, &key(KeyCode::Char('/'))), KeyOutcome::Action(ModeAction::Stay));
    assert!(state.is_searching);
    assert_eq!(h.handle_key_event(&mut state, &key(KeyCode::Char('v'))), KeyOutcome::Delegate);
    assert_eq!(h.handle_key_event(&mut state, &key(KeyCode::Esc)), KeyOutcome::Action(ModeAction::Stay));
    assert!(!state.is_searching);
}

#[test]
fn esc_clears_selection_then_exits() {
    let mut h = NormalModeHandler::new();
    let mut state = state_with_files();
    state.file_list_state.select(Some(1));
    state.preview.title = "old".to_string();
    assert_eq!(h.handle_key_event(&mut state, &key(KeyCode::Esc)), KeyOutcome::Action(ModeAction::Stay));
    assert_eq!(state.file_list_state.selected, None);
    assert_eq!(state.preview.title, "Preview");
    assert_eq!(h.handle_key_event(&mut state, &key(KeyCode::Esc)), KeyOutcome::Action(ModeAction::Exit(None)));
}

#[test]
fn enter_exits_with_selection_or_current_dir() {
    let mut h = NormalModeHandler::new();
    let mut state = state_with_files();
    assert_eq!(h.handle_key_event(&mut state, &key(KeyCode::Enter)), KeyOutcome::ExitAt("/w".to_string()));
    state.file_list_state.select(Some(0));
    assert_eq!(
        h.handle_key_event(&mut state, &key(KeyCode::Enter)),
        KeyOutcome::Action(ModeAction::Exit(Some(FileItem::from_path("/w/docs", true))))
    );
    let ctrl_enter = KeyInput { code: KeyCode::Enter, modifiers: 2 };
    assert_eq!(h.handle_key_event(&mut state, &ctrl_enter), KeyOutcome::Delegate);
    let shift_ctrl_enter = KeyInput { code: KeyCode::Enter, modifiers: 3 };
    assert!(matches!(h.handle_key_event(&mut state, &shift_ctrl_enter), KeyOutcome::Action(ModeAction::Exit(Some(_)))));
    state.files = vec![DisplayItem::History(HistoryEntry::new("/srv".to_string(), Timestamp { secs: 0, nanos: 0 }))];
    state.filtered_files = vec![0];
    state.file_list_state.select(Some(0));
    assert_eq!(h.handle_key_event(&mut state, &key(KeyCode::Enter)), KeyOutcome::ExitAt("/srv".to_string()));
    assert_eq!(h.handle_key_event(&mut state, &key(KeyCode::Other)), KeyOutcome::Delegate);
}

#[test]
fn search_box_titles() {
    let h = NormalModeHandler::new();
    let mut state = state_with_files();
    let (t, c, s) = h.get_search_box_config(&state);
    assert_eq!(t, "NORMAL - hjkl navigate, bf half page, / search, v history, Enter exit");
    assert_eq!(c, "");
    assert_eq!(s, SearchBoxStyle::Normal);
    state.is_searching = true;
    assert_eq!(h.get_search_box_config(&state).0, "SEARCH - Type to search, ESC to exit search");
    state.search_input = "no".to_string();
    state.apply_search_filter();
    let (t, c, s) = h.get_search_box_config(&state);
    assert_eq!(t, "SEARCH - 'no' - 1 matches (ESC to exit)");
    assert_eq!(c, "no");
    assert_eq!(s, SearchBoxStyle::Active);
    state.is_searching = false;
    let (t, _, s) = h.get_search_box_config(&state);
    assert_eq!(t, "FILTERED - 'no' - 1 matches (/ to search again)");
    assert_eq!(s, SearchBoxStyle::Results);
}

#[test]
fn help_is_shown_without_selection() {
    let h = NormalModeHandler::new();
    let mut state = state_with_files();
    assert!(h.should_show_help(&state));
    state.file_list_state.select(Some(0));
    assert!(!h.should_show_help(&state));
    state.is_searching = true;
    assert!(h.should_show_help(&state));
    state.search_input = "doc".to_string();
    state.apply_search_filter();
    assert!(!h.should_show_help(&state));
    state.search_input = "zzz".to_string();
    state.apply_search_filter();
    assert!(h.should_show_help(&state));
}

#[test]
fn mode_manager_switches_and_clears_search() {
    let mut m = ModeManager::new(&AppMode::Normal);
    assert!(m.is_mode(&AppMode::Normal));
    let mut state = state_with_files();
    state.search_input = "x".to_string();
    state.is_searching = true;
    m.switch_mode(&mut state, &AppMode::History);
    assert_eq!(*m.get_current_mode(), AppMode::History);
    assert!(!m.is_mode(&AppMode::Normal));
    assert_eq!(state.search_input, "");
    assert!(!state.is_searching);
}

#[test]
fn exit_path_picks_directory() {
    let state = state_with_files();
    assert_eq!(exit_path(&state, Some(&FileItem::from_path("/w/docs", true))), Some("/w/docs".to_string()));
    assert_eq!(exit_path(&state, Some(&FileItem::from_path("/w/Notes.md", false))), Some("/w".to_string()));
    assert_eq!(exit_path(&state, None), None);
}

#[test]
fn highlighting_marks_every_match() {
    let v = highlight_search_term("banana", "AN", TextStyle::FileUnselected);
    assert_eq!(
        spans(&v),
        vec![
            sp("b", TextStyle::FileUnselected),
            sp("an", TextStyle::SearchMatch),
            sp("an", TextStyle::SearchMatch),
            sp("a", TextStyle::FileUnselected),
        ]
    );
    let v = highlight_search_term("abc", "", TextStyle::Dir);
    assert_eq!(spans(&v), vec![sp("abc", TextStyle::Dir)]);
    let v = highlight_search_term("abc", "x", TextStyle::Dir);
    assert_eq!(spans(&v), vec![sp("abc", TextStyle::Dir)]);
    let v = highlight_search_term("Ab", "ab", TextStyle::Dir);
    assert_eq!(spans(&v), vec![sp("Ab", TextStyle::SearchMatch)]);
}

#[test]
fn highlighting_refuses_a_cut_inside_a_character() {
    // KELVIN SIGN lowercases to a one-byte 'k', which moves the match.
    assert!(try_highlight_search_term("\u{212A}ab", "ab", TextStyle::Dir).is_none());
    assert!(try_highlight_search_term("kab", "ab", TextStyle::Dir).is_some());
    assert_eq!(find_first_match("\u{212A}ab", "ab"), Err(()));
    assert_eq!(find_first_match("Projects", "JEC"), Ok(Some((3, 6))));
    assert_eq!(find_first_match("Projects", "zz"), Ok(None));
}

#[test]
fn file_list_rows_and_title() {
    let mut state = state_with_files();
    state.file_list_state.select(Some(1));
    let view = FileListRenderer::new().render(&state);
    assert_eq!(view.title, "Files - /w (2/2)");
    assert_eq!(view.selected, Some(1));
    assert_eq!(spans(&view.items[0]), vec![sp("📁", TextStyle::DirUnselected), sp(" ", TextStyle::Default), sp("docs", TextStyle::DirUnselected)]);
    assert_eq!(spans(&view.items[1]), vec![sp("📄", TextStyle::Selected), sp(" ", TextStyle::Default), sp("Notes.md", TextStyle::Selected)]);
    state.search_input = "ote".to_string();
    state.apply_search_filter();
    let view = FileListRenderer::new().try_render(&state).unwrap();
    assert_eq!(view.title, "Files - /w (1/2)");
    assert_eq!(
        spans(&view.items[0]),
        vec![
            sp("📄", TextStyle::FileUnselected),
            sp(" ", TextStyle::Default),
            sp("N", TextStyle::FileUnselected),
            sp("ote", TextStyle::SearchMatch),
            sp("s.md", TextStyle::FileUnselected),
        ]
    );
}

#[test]
fn history_list_rows_and_title() {
    let mut state = AppState::new("/w".to_string());
    let r = HistoryListRenderer::new();
    let view = r.render(&state);
    assert_eq!(view.title, "History - 0 entries");
    assert_eq!(spans(&view.items[0]), vec![sp("No history available", TextStyle::Default)]);
    let mut e = HistoryEntry::new("/home/me/Projects".to_string(), Timestamp { secs: 0, nanos: 0 });
    e.frequency = 7;
    state.files = vec![DisplayItem::History(e), DisplayItem::File(FileItem::from_path("/x", false))];
    state.filtered_files = vec![];
    assert_eq!(spans(&r.render(&state).items[0]), vec![sp("No matching history entries", TextStyle::Default)]);
    state.filtered_files = vec![0, 1];
    state.search_input = "jec".to_string();
    state.is_searching = true;
    let view = r.try_render(&state).unwrap();
    assert_eq!(view.title, "History - 2 matches (2/2)");
    assert_eq!(
        spans(&view.items[0]),
        vec![
            sp("📁", TextStyle::DirUnselected),
            sp(" ", TextStyle::Default),
            sp("Pro", TextStyle::DirUnselected),
            sp("jec", TextStyle::SearchMatch),
            sp("ts", TextStyle::DirUnselected),
            sp(" (7×)", TextStyle::HistoryFreqUnselected),
            sp(" ", TextStyle::Default),
            sp("(/home/me/Projects)", TextStyle::HistoryPathUnselected),
        ]
    );
    assert_eq!(spans(&view.items[1]), vec![sp("Invalid history entry", TextStyle::Default)]);
    state.file_list_state.select(Some(0));
    state.search_input = String::new();
    let view = r.render(&state);
    assert_eq!(view.title, "History - 2 entries");
    assert_eq!(spans(&view.items[0])[2], sp("Projects", TextStyle::Default));
}

#[test]
fn history_help() {
    let view = HistoryHelpRenderer::new().render();
    assert_eq!(view.title, "Help - History Mode");
    assert_eq!(view.items.len(), 13);
    assert_eq!(spans(&view.items[0]), vec![sp("History Mode Navigation:", TextStyle::Default)]);
    assert_eq!(spans(&view.items[12]), vec![sp("      moved to top of history", TextStyle::Default)]);
}

#[test]
fn preview_shows_the_visible_lines() {
    let mut p = PreviewState::new();
    let f = FileItem::from_path("/a", false);
    p.set_current_file_item(Some(f.clone()));
    let lines: Vec<Vec<StyledText>> = (0..10).map(|i| vec![StyledText::raw(format!("{i}"))]).collect();
    p.update_preview("T".to_string(), PreviewContent::text(lines), Some(f));
    p.set_scroll_offset(6);
    match PreviewRenderer::new().render(&p, 7) {
        PreviewView::Text(v) => {
            assert_eq!(v.title, "T");
            let shown: Vec<String> = v.items.iter().map(|l| l[0].text.clone()).collect();
            assert_eq!(shown, vec!["6", "7", "8", "9"]);
        },
        PreviewView::Image => panic!("expected text"),
    }
    p.set_scroll_offset(2);
    match PreviewRenderer::new().render(&p, 1) {
        PreviewView::Text(v) => assert!(v.items.is_empty()),
        PreviewView::Image => panic!("expected text"),
    }
    p.set_scroll_offset(10);
    match PreviewRenderer::new().render(&p, 50) {
        PreviewView::Text(v) => assert!(v.items.is_empty()),
        PreviewView::Image => panic!("expected text"),
    }
}
