use quickswitch::app_state::{AppState, DirPositions};
use quickswitch::config::{windows_data_dir, WindowsDataDir};
use quickswitch::data_provider::{load_history_data, FileListDataProvider};
use quickswitch::dispatch::{handle_shared_key, SharedOutcome};
use quickswitch::modes::{HistoryModeHandler, KeyCode, KeyInput, KeyOutcome, ModeAction, SearchBoxStyle};
use quickswitch::path::{path_key_of, same_path};
use quickswitch::utils::{record_visit, AppMode, DisplayItem, FileItem, HistoryEntry, Timestamp};

fn key(code: KeyCode) -> KeyInput {
    KeyInput { code, modifiers: 0 }
}

fn t(secs: i64) -> Timestamp {
    Timestamp { secs, nanos: 0 }
}

fn listing() -> Vec<FileItem> {
    ["alpha", "beta", "gamma", "delta", "epsilon"]
        .iter()
        .map(|n| FileItem::from_path(&format!("/w/{n}"), true))
        .collect()
}

#[test]
fn path_keys_follow_components() {
    assert_eq!(path_key_of("/a//b/./"), "/a/b");
    assert_eq!(path_key_of("/a/b"), "/a/b");
    assert_eq!(path_key_of("//"), "/");
    assert_eq!(path_key_of("./x/"), "./x");
    assert_eq!(path_key_of("."), ".");
    assert_eq!(path_key_of("a/./b"), "a/b");
    assert_eq!(path_key_of(""), "");
    assert_eq!(path_key_of("a/../b"), "a/../b");
    assert!(same_path("/a/b/", "/a/b"));
    assert!(!same_path("./a", "a"));
    assert!(!same_path("/a", "a"));
}

#[test]
fn file_items_compare_paths_by_components() {
    assert!(FileItem::from_path("/w/x/", true) == FileItem::from_path("/w/x", true));
    assert!(FileItem::from_path("/w/x", true) != FileItem::from_path("/w/y", true));
}

#[test]
fn positions_are_found_under_an_equal_path() {
    let mut p = DirPositions::new();
    p.insert("/a/b".to_string(), 3);
    assert_eq!(p.get("/a/b/"), Some(3));
    assert_eq!(p.get("/a//b"), Some(3));
    assert_eq!(p.get("/a"), None);
    p.insert("/a/./b/".to_string(), 5);
    assert_eq!(p.get("/a/b"), Some(5));
}

#[test]
fn visits_count_up_or_add_a_record() {
    let mut entries = vec![HistoryEntry::new("/srv".to_string(), t(10))];
    assert_eq!(record_visit(&mut entries, "/srv/".to_string(), t(20), 100), Some(0));
    assert_eq!(entries.len(), 1);
    assert_eq!(entries[0].frequency, 2);
    assert_eq!(entries[0].last_accessed, t(20));
    assert_eq!(entries[0].first_accessed, t(10));
    assert_eq!(record_visit(&mut entries, "/home".to_string(), t(30), 100), None);
    assert_eq!(entries.len(), 2);
    assert_eq!(entries[0].path, "/home");
    assert_eq!(entries[0].frequency, 1);
    assert_eq!(entries[1].path, "/srv");
    entries[1].frequency = u32::MAX;
    assert_eq!(record_visit(&mut entries, "/srv".to_string(), t(40), 100), Some(1));
    assert_eq!(entries[0].path, "/srv");
    assert_eq!(entries[0].frequency, u32::MAX);
    assert_eq!(entries[0].last_accessed, t(40));
    assert_eq!(entries[1].path, "/home");
}

#[test]
fn visits_keep_at_most_the_limit() {
    let mut entries = vec![
        HistoryEntry::new("/a".to_string(), t(1)),
        HistoryEntry::new("/b".to_string(), t(2)),
        HistoryEntry::new("/c".to_string(), t(3)),
    ];
    assert_eq!(record_visit(&mut entries, "/d".to_string(), t(4), 3), None);
    let paths: Vec<&str> = entries.iter().map(|e| e.path.as_str()).collect();
    assert_eq!(paths, vec!["/d", "/a", "/b"]);
    assert_eq!(record_visit(&mut entries, "/b".to_string(), t(5), 3), Some(2));
    let paths: Vec<&str> = entries.iter().map(|e| e.path.as_str()).collect();
    assert_eq!(paths, vec!["/b", "/d", "/a"]);
}

#[test]
fn history_search_box_and_loading() {
    let h = HistoryModeHandler::new();
    let mut state = AppState::new("/w".to_string());
    load_history_data(&mut state, vec![HistoryEntry::new("/srv/www".to_string(), t(0)), HistoryEntry::new("/opt".to_string(), t(0))]);
    assert_eq!(state.files.len(), 2);
    assert_eq!(state.filtered_files, vec![0, 1]);
    let (title, text, style) = h.get_search_box_config(&state);
    assert_eq!((title.as_str(), text.as_str(), style), ("HISTORY", "", SearchBoxStyle::Normal));
    state.is_searching = true;
    state.search_input = "www".to_string();
    assert_eq!(h.get_search_box_config(&state).0, "HISTORY SEARCH");
    load_history_data(&mut state, vec![HistoryEntry::new("/srv/www".to_string(), t(0)), HistoryEntry::new("/opt".to_string(), t(0))]);
    assert_eq!(state.filtered_files, vec![0]);
}

#[test]
fn history_mode_keys() {
    let mut h = HistoryModeHandler::new();
    let mut state = AppState::new("/w".to_string());
    state.files = vec![DisplayItem::History(HistoryEntry::new("/srv/www".to_string(), t(0)))];
    state.apply_search_filter();
    assert_eq!(h.handle_key_event(&mut state, &key(KeyCode::Enter)), KeyOutcome::Action(ModeAction::Stay));
    state.file_list_state.select(Some(0));
    assert_eq!(h.handle_key_event(&mut state, &key(KeyCode::Enter)), KeyOutcome::ExitAt("/srv/www".to_string()));
    assert_eq!(h.handle_key_event(&mut state, &key(KeyCode::Char('/'))), KeyOutcome::Action(ModeAction::Stay));
    assert!(state.is_searching);
    assert_eq!(h.handle_key_event(&mut state, &key(KeyCode::Esc)), KeyOutcome::Action(ModeAction::Stay));
    assert!(!state.is_searching);
    assert_eq!(
        h.handle_key_event(&mut state, &key(KeyCode::Esc)),
        KeyOutcome::Action(ModeAction::Switch(AppMode::Normal))
    );
    assert_eq!(h.handle_key_event(&mut state, &key(KeyCode::Down)), KeyOutcome::Delegate);
}

#[test]
fn windows_data_directory_choice() {
    assert!(matches!(windows_data_dir(Some("D:\\q"), Some("C:\\A"), "T"), WindowsDataDir::Given(d) if d == "D:\\q"));
    assert!(matches!(windows_data_dir(Some("  "), Some("C:\\A"), "T"), WindowsDataDir::Under(b) if b == "C:\\A"));
    assert!(matches!(windows_data_dir(None, None, "T"), WindowsDataDir::Under(b) if b == "T"));
}

#[test]
fn shared_keys_move_the_selection() {
    let mut state = AppState::new("/w".to_string());
    state.load_file_items(listing());
    assert_eq!(handle_shared_key(&mut state, &key(KeyCode::Char('j')), 10), SharedOutcome::SelectionChanged);
    assert_eq!(state.file_list_state.selected, Some(0));
    handle_shared_key(&mut state, &key(KeyCode::Down), 10);
    assert_eq!(state.file_list_state.selected, Some(1));
    handle_shared_key(&mut state, &key(KeyCode::Char('f')), 10);
    assert_eq!(state.file_list_state.selected, Some(4));
    handle_shared_key(&mut state, &key(KeyCode::Char('j')), 10);
    assert_eq!(state.file_list_state.selected, Some(4));
    handle_shared_key(&mut state, &key(KeyCode::Char('b')), 4);
    assert_eq!(state.file_list_state.selected, Some(2));
    handle_shared_key(&mut state, &key(KeyCode::Up), 4);
    assert_eq!(state.file_list_state.selected, Some(1));
    handle_shared_key(&mut state, &key(KeyCode::Char('b')), 0);
    assert_eq!(state.file_list_state.selected, Some(0));
    assert_eq!(handle_shared_key(&mut state, &key(KeyCode::Char('l')), 4), SharedOutcome::IntoDirectory);
    assert_eq!(handle_shared_key(&mut state, &key(KeyCode::Left), 4), SharedOutcome::ToParent);
    assert_eq!(handle_shared_key(&mut state, &key(KeyCode::Other), 4), SharedOutcome::Unchanged);
}

#[test]
fn shared_keys_type_into_the_search() {
    let mut state = AppState::new("/w".to_string());
    state.load_file_items(listing());
    state.is_searching = true;
    assert_eq!(handle_shared_key(&mut state, &key(KeyCode::Char('l')), 4), SharedOutcome::SearchChanged);
    assert_eq!(handle_shared_key(&mut state, &key(KeyCode::Char('T')), 4), SharedOutcome::SearchChanged);
    assert_eq!(state.search_input, "lT");
    assert_eq!(state.filtered_files, vec![3]);
    let ctrl = KeyInput { code: KeyCode::Char('x'), modifiers: 2 };
    assert_eq!(handle_shared_key(&mut state, &ctrl, 4), SharedOutcome::Unchanged);
    assert_eq!(handle_shared_key(&mut state, &key(KeyCode::Backspace), 4), SharedOutcome::SearchChanged);
    assert_eq!(state.search_input, "l");
    assert_eq!(state.filtered_files, vec![0, 3, 4]);
    handle_shared_key(&mut state, &key(KeyCode::Backspace), 4);
    assert_eq!(handle_shared_key(&mut state, &key(KeyCode::Backspace), 4), SharedOutcome::Unchanged);
    assert_eq!(state.filtered_files.len(), 5);
}

#[test]
fn into_and_back_restores_the_row_under_a_trailing_slash() {
    let provider = FileListDataProvider;
    let mut state = AppState::new("/w/".to_string());
    state.load_file_items(listing());
    state.file_list_state.select(Some(2));
    let into = provider.navigate_into_directory(&mut state, false);
    assert_eq!(into.as_deref(), Some("/w/gamma"));
    provider.on_directory_changed(&mut state, vec![]);
    let up = provider.navigate_to_parent(&mut state);
    assert_eq!(up.as_deref(), Some("/w"));
    provider.on_directory_changed(&mut state, listing());
    assert_eq!(state.file_list_state.selected, Some(2));
}

#[test]
fn drive_root_leads_to_the_drives_view() {
    let provider = FileListDataProvider;
    let mut state = AppState::new("C:\\".to_string());
    state.load_file_items(listing());
    state.file_list_state.select(Some(1));
    state.is_searching = true;
    assert_eq!(provider.leave_drive_root(&mut state).as_deref(), Some("DRIVES:"));
    assert_eq!(state.current_dir, "DRIVES:");
    assert!(!state.is_searching);
    assert_eq!(state.dir_positions.get("C:\\"), Some(1));
    let mut other = AppState::new("/w".to_string());
    assert_eq!(provider.leave_drive_root(&mut other), None);
    assert_eq!(other.current_dir, "/w");
}
