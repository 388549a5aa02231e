//! The file list of Normal mode: moving into and out of directories,
//! remembering the selected position per directory, and what to preview.
//!
//! Listing a directory is the application's part: a move returns the
//! directory to list, and `on_directory_changed` takes the listing.
use vstd::prelude::*;
use crate::app_state::{AppState, visible_indices};
use crate::path::{parent, path_key, spec_parent};
use crate::preview_manager::PreviewManager;
use crate::text::{chars_of, str_eq};
use crate::utils::{DisplayItem, FileItem, HistoryEntry};

verus! {

/// The selection that a remembered position gives in a list of `len` rows:
/// the position itself, or the last row where the list got shorter.
pub open spec fn restored_selection(saved: Option<usize>, len: int) -> Option<usize> {
    match saved {
        Some(p) => if p < len {
            Some(p)
        } else if len > 0 {
            Some((len - 1) as usize)
        } else {
            None
        },
        None => None,
    }
}

/// The name of the view that lists the drives.
pub open spec fn drives_view() -> Seq<char> {
    "DRIVES:"@
}

/// Data provider for the file list (Normal mode).
pub struct FileListDataProvider;

impl FileListDataProvider {
    /// The path to preview: the selected item's, when it is a file.
    pub fn get_preview_path(&self, state: &AppState) -> (r: Option<String>)
        ensures
            match state.selected_item() {
                Some(DisplayItem::File(f)) => r matches Some(p) && p@ == f.path@,
                _ => r is None,
            },
    {
        match state.get_selected_item() {
            Some(DisplayItem::File(file)) => Some(file.path),
            _ => None,
        }
    }

    /// Remembers the selected row for the current directory.
    pub fn save_position(&self, state: &mut AppState)
        ensures
            final(state).dir_positions@ == match old(state).file_list_state.selected {
                Some(s) => old(state).dir_positions@.insert(path_key(old(state).current_dir@), s),
                None => old(state).dir_positions@,
            },
            final(state).files == old(state).files,
            final(state).filtered_files == old(state).filtered_files,
            final(state).file_list_state == old(state).file_list_state,
            final(state).current_dir == old(state).current_dir,
            final(state).search_input == old(state).search_input,
            final(state).is_searching == old(state).is_searching,
            final(state).show_hidden_files == old(state).show_hidden_files,
            final(state).preview == old(state).preview,
            final(state).double_click_state == old(state).double_click_state,
    {
        if let Some(selected) = state.file_list_state.selected() {
            state.dir_positions.insert(state.current_dir.clone(), selected);
        }
    }

    /// Selects the row remembered for the current directory, the last row
    /// where the list got shorter, or nothing.
    pub fn restore_position(&self, state: &mut AppState)
        ensures
            final(state).file_list_state.selected == restored_selection(
                if old(state).dir_positions@.contains_key(path_key(old(state).current_dir@)) {
                    Some(old(state).dir_positions@[path_key(old(state).current_dir@)])
                } else {
                    None
                },
                old(state).filtered_files.len() as int,
            ),
            old(state).dir_positions@.contains_key(path_key(old(state).current_dir@)) ==> {
                let p = old(state).dir_positions@[path_key(old(state).current_dir@)];
                let len = old(state).filtered_files.len();
                &&& p < len ==> final(state).file_list_state.selected == Some(p)
                &&& p >= len && len > 0 ==> final(state).file_list_state.selected == Some((len - 1) as usize)
                &&& p >= len && len == 0 ==> final(state).file_list_state.selected is None
            },
            !old(state).dir_positions@.contains_key(path_key(old(state).current_dir@))
                ==> final(state).file_list_state.selected is None,
            final(state).files == old(state).files,
            final(state).filtered_files == old(state).filtered_files,
            final(state).current_dir == old(state).current_dir,
            final(state).search_input == old(state).search_input,
            final(state).is_searching == old(state).is_searching,
            final(state).show_hidden_files == old(state).show_hidden_files,
            final(state).dir_positions@ == old(state).dir_positions@,
            final(state).double_click_state == old(state).double_click_state,
            final(state).preview == old(state).preview,
    {
        match state.dir_positions.get(state.current_dir.as_str()) {
            Some(saved_position) => {
                if saved_position < state.filtered_files.len() {
                    state.file_list_state.select(Some(saved_position));
                } else if state.filtered_files.len() > 0 {
                    state.file_list_state.select(Some(state.filtered_files.len() - 1));
                } else {
                    state.file_list_state.select(None);
                }
            },
            None => state.file_list_state.select(None),
        }
    }

    /// Fills the list with a directory's entries and applies the search.
    pub fn load_data(&self, state: &mut AppState, files: Vec<FileItem>)
        ensures
            final(state).files@ == files@.map_values(|f: FileItem| DisplayItem::File(f)),
            final(state).filtered_files@ == final(state).expected_filter(),
            final(state).file_list_state.selected is None,
            final(state).search_input == old(state).search_input,
            final(state).is_searching == old(state).is_searching,
            final(state).show_hidden_files == old(state).show_hidden_files,
            final(state).current_dir == old(state).current_dir,
            final(state).dir_positions@ == old(state).dir_positions@,
            final(state).double_click_state == old(state).double_click_state,
            final(state).preview == old(state).preview,
    {
        state.load_file_items(files);
        state.apply_search_filter();
    }

    /// Leaves search and clears the search text, as a change of directory
    /// does.
    fn leave_search(state: &mut AppState)
        ensures
            final(state).search_input@ == Seq::<char>::empty(),
            !final(state).is_searching,
            final(state).files == old(state).files,
            final(state).filtered_files == old(state).filtered_files,
            final(state).file_list_state == old(state).file_list_state,
            final(state).current_dir == old(state).current_dir,
            final(state).show_hidden_files == old(state).show_hidden_files,
            final(state).dir_positions@ == old(state).dir_positions@,
            final(state).double_click_state == old(state).double_click_state,
            final(state).preview == old(state).preview,
    {
        state.search_input = String::new();
        state.is_searching = false;
    }

    /// Completes a change of directory once it has been listed: the search
    /// is cleared, the list shows `files`, the remembered row of the new
    /// directory is selected again, and the preview is cleared.
    pub fn on_directory_changed(&self, state: &mut AppState, files: Vec<FileItem>)
        ensures
            final(state).search_input@ == Seq::<char>::empty(),
            !final(state).is_searching,
            final(state).files@ == files@.map_values(|f: FileItem| DisplayItem::File(f)),
            final(state).filtered_files@ == visible_indices(
                final(state).files@,
                final(state).show_hidden_files,
                Seq::empty(),
                final(state).files.len() as int,
            ),
            final(state).file_list_state.selected == restored_selection(
                if old(state).dir_positions@.contains_key(path_key(old(state).current_dir@)) {
                    Some(old(state).dir_positions@[path_key(old(state).current_dir@)])
                } else {
                    None
                },
                final(state).filtered_files.len() as int,
            ),
            old(state).dir_positions@.contains_key(path_key(old(state).current_dir@)) ==> {
                let p = old(state).dir_positions@[path_key(old(state).current_dir@)];
                let len = final(state).filtered_files.len();
                &&& p < len ==> final(state).file_list_state.selected == Some(p)
                &&& p >= len && len > 0 ==> final(state).file_list_state.selected == Some((len - 1) as usize)
                &&& p >= len && len == 0 ==> final(state).file_list_state.selected is None
            },
            !old(state).dir_positions@.contains_key(path_key(old(state).current_dir@))
                ==> final(state).file_list_state.selected is None,
            final(state).preview.is_cleared(),
            final(state).preview.current_file_item == old(state).preview.current_file_item,
            final(state).current_dir == old(state).current_dir,
            final(state).show_hidden_files == old(state).show_hidden_files,
            final(state).dir_positions@ == old(state).dir_positions@,
            final(state).double_click_state == old(state).double_click_state,
    {
        Self::leave_search(state);
        self.load_data(state, files);
        self.restore_position(state);
        PreviewManager::clear_preview(state);
    }

    /// Moves into the selected item when it is a directory: its row is
    /// remembered for the directory left, the search is cleared, and the
    /// directory to list is returned. Otherwise nothing changes. For a
    /// history record, `history_path_is_dir` is what the filesystem says of
    /// its path.
    pub fn navigate_into_directory(&self, state: &mut AppState, history_path_is_dir: bool) -> (r: Option<String>)
        ensures
            match old(state).selected_item() {
                Some(item) => if (match item {
                    DisplayItem::File(f) => f.is_dir,
                    DisplayItem::History(_) => history_path_is_dir,
                }) {
                    &&& r matches Some(d) && d@ == item.path_of()
                    &&& final(state).current_dir@ == item.path_of()
                    &&& final(state).dir_positions@ == old(state).dir_positions@.insert(
                        path_key(old(state).current_dir@),
                        old(state).file_list_state.selected->0,
                    )
                    &&& final(state).search_input@ == Seq::<char>::empty()
                    &&& !final(state).is_searching
                    &&& final(state).files == old(state).files
                    &&& final(state).filtered_files == old(state).filtered_files
                    &&& final(state).file_list_state == old(state).file_list_state
                    &&& final(state).show_hidden_files == old(state).show_hidden_files
                    &&& final(state).double_click_state == old(state).double_click_state
                    &&& final(state).preview == old(state).preview
                } else {
                    r is None && *final(state) == *old(state)
                },
                None => r is None && *final(state) == *old(state),
            },
    {
        if let Some(file) = state.get_selected_item() {
            if file.is_directory(history_path_is_dir) {
                self.save_position(state);
                state.current_dir = file.get_path().clone();
                Self::leave_search(state);
                return Some(state.current_dir.clone());
            }
        }
        None
    }

    /// Moves to the parent of the current directory, if it has one: the
    /// selected row is remembered for the directory left, the search is
    /// cleared, and the parent to list is returned. In the drives view, or
    /// at the root, nothing changes.
    pub fn navigate_to_parent(&self, state: &mut AppState) -> (r: Option<String>)
        ensures
            if old(state).current_dir@ == drives_view() {
                r is None && *final(state) == *old(state)
            } else {
                match spec_parent(old(state).current_dir@) {
                    Some(p) => {
                        &&& r matches Some(d) && d@ == p
                        &&& final(state).current_dir@ == p
                        &&& final(state).dir_positions@ == match old(state).file_list_state.selected {
                            Some(s) => old(state).dir_positions@.insert(path_key(old(state).current_dir@), s),
                            None => old(state).dir_positions@,
                        }
                        &&& final(state).search_input@ == Seq::<char>::empty()
                        &&& !final(state).is_searching
                        &&& final(state).files == old(state).files
                        &&& final(state).filtered_files == old(state).filtered_files
                        &&& final(state).file_list_state == old(state).file_list_state
                        &&& final(state).show_hidden_files == old(state).show_hidden_files
                        &&& final(state).double_click_state == old(state).double_click_state
                        &&& final(state).preview == old(state).preview
                    },
                    None => r is None && *final(state) == *old(state),
                }
            },
    {
        if str_eq(state.current_dir.as_str(), "DRIVES:") {
            return None;
        }
        match parent(state.current_dir.as_str()) {
            Some(parent_path) => {
                self.save_position(state);
                state.current_dir = parent_path.clone();
                Self::leave_search(state);
                Some(parent_path)
            },
            None => None,
        }
    }

    /// Going up from a Windows drive root such as `C:\` leads to the drives
    /// view: the selected row is remembered for the drive, the search is
    /// cleared, and the drives view is returned for listing. From any other
    /// directory nothing changes. (Windows only; elsewhere a drive root is
    /// not a path that occurs.)
    pub fn leave_drive_root(&self, state: &mut AppState) -> (r: Option<String>)
        ensures
            if self.spec_is_drive_root(old(state).current_dir@) {
                &&& r matches Some(d) && d@ == drives_view()
                &&& final(state).current_dir@ == drives_view()
                &&& final(state).dir_positions@ == match old(state).file_list_state.selected {
                    Some(s) => old(state).dir_positions@.insert(path_key(old(state).current_dir@), s),
                    None => old(state).dir_positions@,
                }
                &&& final(state).search_input@ == Seq::<char>::empty()
                &&& !final(state).is_searching
                &&& final(state).files == old(state).files
                &&& final(state).filtered_files == old(state).filtered_files
                &&& final(state).file_list_state == old(state).file_list_state
                &&& final(state).show_hidden_files == old(state).show_hidden_files
                &&& final(state).double_click_state == old(state).double_click_state
                &&& final(state).preview == old(state).preview
            } else {
                r is None && *final(state) == *old(state)
            },
    {
        if !self.is_windows_drive_root(state.current_dir.as_str()) {
            return None;
        }
        self.save_position(state);
        let drives = "DRIVES:".to_owned();
        proof {
            reveal_strlit("DRIVES:");
        }
        state.current_dir = drives.clone();
        Self::leave_search(state);
        Some(drives)
    }

    /// A Windows drive root such as `C:\`: a letter, `:` and `\`.
    pub open spec fn spec_is_drive_root(&self, path: Seq<char>) -> bool {
        path.len() == 3 && path[1] == ':' && path[2] == '\\' && is_ascii_alphabetic(path[0])
    }

    /// Whether a path is a Windows drive root such as `C:\`.
    pub fn is_windows_drive_root(&self, path: &str) -> (r: bool)
        ensures
            r == (path@.len() == 3 && path@[1] == ':' && path@[2] == '\\' && is_ascii_alphabetic(
                path@[0],
            )),
    {
        let v = chars_of(path);
        v.len() == 3 && v[1] == ':' && v[2] == '\\' && (('a' <= v[0] && v[0] <= 'z') || ('A' <= v[0]
            && v[0] <= 'Z'))
    }
}

/// An ASCII letter.
pub open spec fn is_ascii_alphabetic(c: char) -> bool {
    ('a' <= c && c <= 'z') || ('A' <= c && c <= 'Z')
}

/// Remembering a row and coming back selects it again, as long as the list
/// is still long enough.
pub proof fn law_position_round_trip(
    positions: Map<Seq<char>, usize>,
    dir: Seq<char>,
    selected: usize,
    len: int,
)
    requires
        selected < len,
    ensures
        restored_selection(Some(positions.insert(path_key(dir), selected)[path_key(dir)]), len) == Some(selected),
{
}

/// Restoring a remembered row `p` into a list of `len` rows selects `p`
/// itself where the list still has it, the last row where the list got
/// shorter, and nothing in an empty list; without a remembered row nothing
/// is selected.
pub proof fn law_restore_clamps_to_last_row(p: usize, len: int)
    requires
        0 <= len <= usize::MAX,
    ensures
        p < len ==> restored_selection(Some(p), len) == Some(p),
        p >= len && len > 0 ==> restored_selection(Some(p), len) == Some((len - 1) as usize),
        len == 0 ==> restored_selection(Some(p), len) is None,
        restored_selection(None, len) is None,
{
}

/// A remembered row never points past the end of the list it is restored
/// into.
pub proof fn law_restored_in_range(saved: Option<usize>, len: int)
    requires
        len <= usize::MAX,
    ensures
        restored_selection(saved, len) matches Some(s) ==> s < len,
{
}

} // verus!

verus! {

/// Moving into a subdirectory entry and back up returns to the directory
/// left, with its row selected again: going in remembers the row for the
/// directory, coming back remembers one for the subdirectory (another key),
/// and the parent of the subdirectory's path is the directory, whose
/// remembered row is restored when its list is as long as before.
pub proof fn law_into_and_back(
    dir: Seq<char>,
    name: Seq<char>,
    positions: Map<Seq<char>, usize>,
    row_in_dir: usize,
    row_in_child: usize,
    len: int,
)
    requires
        crate::path::is_plain_name(name),
        crate::path::is_clean_dir(dir),
        row_in_dir < len,
    ensures
        spec_parent(crate::path::spec_join(dir, name)) == Some(dir),
        restored_selection(
            Some(
                positions.insert(path_key(dir), row_in_dir).insert(
                    path_key(crate::path::spec_join(dir, name)),
                    row_in_child,
                )[path_key(dir)],
            ),
            len,
        ) == Some(row_in_dir),
{
    crate::path::law_parent_of_join(dir, name);
    crate::path::lemma_key_of_join(dir, name);
}

} // verus!

verus! {

/// Fills the list with history records and applies the search.
pub fn load_history_data(state: &mut AppState, entries: Vec<HistoryEntry>)
    ensures
        final(state).files@ == entries@.map_values(|e: HistoryEntry| DisplayItem::History(e)),
        final(state).filtered_files@ == final(state).expected_filter(),
        final(state).file_list_state.selected is None,
        final(state).search_input == old(state).search_input,
        final(state).is_searching == old(state).is_searching,
        final(state).show_hidden_files == old(state).show_hidden_files,
        final(state).current_dir == old(state).current_dir,
        final(state).dir_positions@ == old(state).dir_positions@,
        final(state).double_click_state == old(state).double_click_state,
        final(state).preview == old(state).preview,
{
    let mut items: Vec<DisplayItem> = Vec::new();
    let mut i: usize = 0;
    while i < entries.len()
        invariant
            i <= entries.len(),
            items@ == entries@.take(i as int).map_values(|e: HistoryEntry| DisplayItem::History(e)),
        decreases entries.len() - i,
    {
        items.push(DisplayItem::History(entries[i].clone()));
        assert(entries@.take(i + 1) =~= entries@.take(i as int).push(entries@[i as int]));
        assert(items@ =~= entries@.take(i + 1).map_values(|e: HistoryEntry| DisplayItem::History(e)));
        i += 1;
    }
    assert(entries@.take(entries.len() as int) =~= entries@);
    state.files = items;
    state.apply_search_filter();
}

} // verus!
