use quickswitch::app_state::AppState;
use quickswitch::data_provider::FileListDataProvider;
use quickswitch::utils::{DisplayItem, FileItem, HistoryEntry, Timestamp};

fn file(name: &str, dir: bool) -> FileItem {
    FileItem::from_path(&format!("/work/{name}"), dir)
}

fn listing() -> Vec<FileItem> {
    vec![file("src", true), file(".git", true), file("README.md", false), file("Cargo.toml", false), file(".env", false)]
}

fn names(state: &AppState) -> Vec<String> {
    state.filtered_files.iter().map(|&i| state.files[i].get_display_name()).collect()
}

#[test]
fn new_state_is_empty() {
    let state = AppState::new("/work".to_string());
    assert_eq!(state.search_input, "");
    assert!(!state.is_searching);
    assert!(!state.show_hidden_files);
    assert_eq!(state.current_dir, "/work");
    assert!(state.files.is_empty());
    assert_eq!(state.file_list_state.selected, None);
    assert_eq!(state.preview.title, "Preview");
}

#[test]
fn hidden_files_are_filtered_out() {
    let mut state = AppState::new("/work".to_string());
    state.load_file_items(listing());
    assert_eq!(names(&state), vec!["src", "README.md", "Cargo.toml"]);
    assert_eq!(state.filtered_files, vec![0, 2, 3]);
}

#[test]
fn toggle_hidden_files_shows_and_hides() {
    let mut state = AppState::new("/work".to_string());
    state.load_file_items(listing());
    state.file_list_state.select(Some(1));
    state.toggle_hidden_files();
    assert!(state.show_hidden_files);
    assert_eq!(state.filtered_files, vec![0, 1, 2, 3, 4]);
    assert_eq!(state.file_list_state.selected, None);
    state.toggle_hidden_files();
    assert!(!state.show_hidden_files);
    assert_eq!(state.filtered_files, vec![0, 2, 3]);
}

#[test]
fn search_is_case_insensitive_substring() {
    let mut state = AppState::new("/work".to_string());
    state.load_file_items(listing());
    state.search_input = "ME".to_string();
    state.apply_search_filter();
    assert_eq!(names(&state), vec!["README.md"]);
    state.search_input = "o".to_string();
    state.apply_search_filter();
    assert_eq!(names(&state), vec!["Cargo.toml"]);
    state.search_input = "git".to_string();
    state.apply_search_filter();
    assert!(state.filtered_files.is_empty());
    state.show_hidden_files = true;
    state.apply_search_filter();
    assert_eq!(names(&state), vec![".git"]);
}

#[test]
fn reset_filter_ignores_search() {
    let mut state = AppState::new("/work".to_string());
    state.load_file_items(listing());
    state.search_input = "zzz".to_string();
    state.apply_search_filter();
    assert!(state.filtered_files.is_empty());
    state.reset_filter();
    assert_eq!(state.filtered_files, vec![0, 2, 3]);
}

#[test]
fn history_items_are_always_shown() {
    let mut state = AppState::new("/work".to_string());
    state.files = vec![DisplayItem::History(HistoryEntry::new("/home/u/.config".to_string(), Timestamp { secs: 0, nanos: 0 }))];
    state.apply_search_filter();
    assert_eq!(state.filtered_files, vec![0]);
    assert_eq!(state.files[0].get_display_name(), ".config");
}

#[test]
fn selected_item_follows_the_filtered_row() {
    let mut state = AppState::new("/work".to_string());
    state.load_file_items(listing());
    assert!(state.get_selected_item().is_none());
    state.file_list_state.select(Some(1));
    match state.get_selected_item() {
        Some(DisplayItem::File(f)) => assert_eq!(f.name, "README.md"),
        _ => panic!("expected a file"),
    }
    state.file_list_state.select(Some(3));
    assert!(state.get_selected_item().is_none());
}

#[test]
fn positions_round_trip() {
    let provider = FileListDataProvider;
    let mut state = AppState::new("/work".to_string());
    provider.load_data(&mut state, listing());
    state.file_list_state.select(Some(2));
    provider.save_position(&mut state);
    state.file_list_state.select(None);
    provider.restore_position(&mut state);
    assert_eq!(state.file_list_state.selected, Some(2));
}

#[test]
fn restore_clamps_to_last_row() {
    let provider = FileListDataProvider;
    let mut state = AppState::new("/work".to_string());
    provider.load_data(&mut state, listing());
    state.file_list_state.select(Some(2));
    provider.save_position(&mut state);
    provider.load_data(&mut state, vec![file("only", false)]);
    provider.restore_position(&mut state);
    assert_eq!(state.file_list_state.selected, Some(0));
    provider.load_data(&mut state, vec![]);
    provider.restore_position(&mut state);
    assert_eq!(state.file_list_state.selected, None);
    state.current_dir = "/elsewhere".to_string();
    provider.load_data(&mut state, listing());
    provider.restore_position(&mut state);
    assert_eq!(state.file_list_state.selected, None);
}

#[test]
fn navigate_into_directory_and_back() {
    let provider = FileListDataProvider;
    let mut state = AppState::new("/work".to_string());
    provider.load_data(&mut state, listing());
    state.search_input = "s".to_string();
    state.is_searching = true;
    state.apply_search_filter();
    state.file_list_state.select(Some(0));
    let target = provider.navigate_into_directory(&mut state, false);
    assert_eq!(target, Some("/work/src".to_string()));
    assert_eq!(state.current_dir, "/work/src");
    assert_eq!(state.search_input, "");
    assert!(!state.is_searching);
    provider.on_directory_changed(&mut state, vec![file("main.rs", false)]);
    assert_eq!(state.file_list_state.selected, None);
    assert_eq!(state.preview.title, "Preview");
    let back = provider.navigate_to_parent(&mut state);
    assert_eq!(back, Some("/work".to_string()));
    provider.on_directory_changed(&mut state, listing());
    assert_eq!(state.file_list_state.selected, Some(0));
}

#[test]
fn navigate_into_a_file_does_nothing() {
    let provider = FileListDataProvider;
    let mut state = AppState::new("/work".to_string());
    provider.load_data(&mut state, listing());
    state.file_list_state.select(Some(1));
    assert_eq!(provider.navigate_into_directory(&mut state, true), None);
    assert_eq!(state.current_dir, "/work");
}

#[test]
fn navigate_to_parent_at_root_and_drives() {
    let provider = FileListDataProvider;
    let mut state = AppState::new("/".to_string());
    assert_eq!(provider.navigate_to_parent(&mut state), None);
    assert_eq!(state.current_dir, "/");
    state.current_dir = "DRIVES:".to_string();
    assert_eq!(provider.navigate_to_parent(&mut state), None);
    assert_eq!(state.current_dir, "DRIVES:");
}

#[test]
fn preview_path_is_the_selected_file() {
    let provider = FileListDataProvider;
    let mut state = AppState::new("/work".to_string());
    provider.load_data(&mut state, listing());
    assert_eq!(provider.get_preview_path(&state), None);
    state.file_list_state.select(Some(2));
    assert_eq!(provider.get_preview_path(&state), Some("/work/Cargo.toml".to_string()));
}

#[test]
fn windows_drive_roots() {
    let provider = FileListDataProvider;
    assert!(provider.is_windows_drive_root("C:\\"));
    assert!(provider.is_windows_drive_root("d:\\"));
    assert!(!provider.is_windows_drive_root("1:\\"));
    assert!(!provider.is_windows_drive_root("C:/"));
    assert!(!provider.is_windows_drive_root("C:\\x"));
    assert!(!provider.is_windows_drive_root("é:\\"));
}

#[test]
fn history_entry_counts_visits() {
    let first = Timestamp { secs: 1_700_000_000, nanos: 5 };
    let later = Timestamp { secs: 1_700_000_100, nanos: 0 };
    let mut entry = HistoryEntry::new("/srv".to_string(), first);
    assert_eq!(entry.frequency, 1);
    assert_eq!(entry.first_accessed, first);
    assert_eq!(entry.last_accessed, first);
    entry.increment_frequency(later);
    assert_eq!(entry.frequency, 2);
    assert_eq!(entry.first_accessed, first);
    assert_eq!(entry.last_accessed, later);
}

#[test]
fn display_item_accessors() {
    let f = DisplayItem::File(file("notes.txt", false));
    assert_eq!(f.get_display_name(), "notes.txt");
    assert_eq!(f.get_path(), "/work/notes.txt");
    assert!(!f.is_directory(true));
    let h = DisplayItem::History(HistoryEntry::new("/var/log/".to_string(), Timestamp { secs: 0, nanos: 0 }));
    assert_eq!(h.get_display_name(), "log");
    assert!(h.is_directory(true));
    assert!(!h.is_directory(false));
}
