//! The key handling that the modes share: typing into the search, moving
//! the selection by a row or by half a page, and asking to move into the
//! selected directory or up to the parent.
use vstd::prelude::*;
use crate::app_state::AppState;
use crate::modes::{CONTROL, KeyCode, KeyInput};
use crate::text::{chars_of, push_char, string_of_range};

verus! {

/// What a shared key did, for the caller to follow up on.
#[derive(Copy, Clone, Debug, PartialEq, Eq, Structural)]
pub enum SharedOutcome {
    /// Nothing changed.
    Unchanged,
    /// The selection moved: the preview follows it.
    SelectionChanged,
    /// The search text changed and the list was filtered again.
    SearchChanged,
    /// Move into the selected directory (the caller asks the filesystem and
    /// lists it).
    IntoDirectory,
    /// Move up to the parent directory.
    ToParent,
}

/// The selection after moving `step` rows down in a list of `len` rows: the
/// first row where nothing was selected, never past the last row, nothing in
/// an empty list.
pub open spec fn moved_down(sel: Option<usize>, len: int, step: int) -> Option<usize> {
    if len <= 0 {
        None
    } else {
        match sel {
            None => Some(0),
            Some(i) => Some(
                if i + step < len {
                    (i + step) as usize
                } else {
                    (len - 1) as usize
                },
            ),
        }
    }
}

/// The selection after moving `step` rows up in a list of `len` rows: the
/// first row where nothing was selected, never above the first row (nor
/// below the last), nothing in an empty list.
pub open spec fn moved_up(sel: Option<usize>, len: int, step: int) -> Option<usize> {
    if len <= 0 {
        None
    } else {
        match sel {
            None => Some(0),
            Some(i) => {
                let top = if i < len {
                    i as int
                } else {
                    len - 1
                };
                Some(
                    if top >= step {
                        (top - step) as usize
                    } else {
                        0
                    },
                )
            },
        }
    }
}

/// Half a panel of `height` rows, and at least one row.
pub open spec fn half_page(height: int) -> int {
    if height / 2 >= 1 {
        height / 2
    } else {
        1
    }
}

/// Whether a key moves the selection down by a row.
pub open spec fn is_row_down(state: AppState, key: KeyInput) -> bool {
    key.code == KeyCode::Down || (!state.is_searching && key.code == KeyCode::Char('j'))
}

/// Whether a key moves the selection up by a row.
pub open spec fn is_row_up(state: AppState, key: KeyInput) -> bool {
    key.code == KeyCode::Up || (!state.is_searching && key.code == KeyCode::Char('k'))
}

/// Whether a key types into the search: a character, while searching,
/// without Control alone.
pub open spec fn is_typing(state: AppState, key: KeyInput) -> bool {
    state.is_searching && key.code is Char && key.modifiers != CONTROL
}

/// The state with `sel` selected and all else kept.
pub open spec fn with_selection(state: AppState, sel: Option<usize>) -> AppState {
    AppState { file_list_state: crate::app_state::ListSelection { selected: sel }, ..state }
}

fn move_down(sel: Option<usize>, len: usize, step: usize) -> (r: Option<usize>)
    ensures
        r == moved_down(sel, len as int, step as int),
{
    if len == 0 {
        None
    } else {
        match sel {
            None => Some(0),
            Some(i) => if i < len && step < len - i {
                Some(i + step)
            } else {
                Some(len - 1)
            },
        }
    }
}

fn move_up(sel: Option<usize>, len: usize, step: usize) -> (r: Option<usize>)
    ensures
        r == moved_up(sel, len as int, step as int),
{
    if len == 0 {
        None
    } else {
        match sel {
            None => Some(0),
            Some(i) => {
                let top = if i < len {
                    i
                } else {
                    len - 1
                };
                if top >= step {
                    Some(top - step)
                } else {
                    Some(0)
                }
            },
        }
    }
}

/// The key handling shared by the modes, for a list panel of `page_height`
/// rows. While searching, a character (without Control alone) is added to
/// the search and Backspace removes the last one; the list is filtered again
/// each time. Down/`j` and Up/`k` move the selection by a row, `f` and `b`
/// by half a page (the letters only outside search). Right/`l` asks to move
/// into the selected directory and Left/`h` up to the parent (the letters
/// only outside search). Any other key changes nothing.
pub fn handle_shared_key(state: &mut AppState, key: &KeyInput, page_height: usize) -> (r: SharedOutcome)
    ensures
        if is_typing(*old(state), *key) {
            &&& r == SharedOutcome::SearchChanged
            &&& final(state).search_input@ == old(state).search_input@.push(key.code->Char_0)
            &&& final(state).filtered_files@ == final(state).expected_filter()
            &&& final(state).file_list_state.selected is None
            &&& final(state).files == old(state).files
            &&& final(state).is_searching == old(state).is_searching
            &&& final(state).show_hidden_files == old(state).show_hidden_files
            &&& final(state).current_dir == old(state).current_dir
            &&& final(state).dir_positions@ == old(state).dir_positions@
            &&& final(state).double_click_state == old(state).double_click_state
            &&& final(state).preview == old(state).preview
        } else if old(state).is_searching && key.code == KeyCode::Backspace {
            if old(state).search_input@.len() > 0 {
                &&& r == SharedOutcome::SearchChanged
                &&& final(state).search_input@ == old(state).search_input@.drop_last()
                &&& final(state).filtered_files@ == final(state).expected_filter()
                &&& final(state).file_list_state.selected is None
                &&& final(state).files == old(state).files
                &&& final(state).is_searching == old(state).is_searching
                &&& final(state).show_hidden_files == old(state).show_hidden_files
                &&& final(state).current_dir == old(state).current_dir
                &&& final(state).dir_positions@ == old(state).dir_positions@
                &&& final(state).double_click_state == old(state).double_click_state
                &&& final(state).preview == old(state).preview
            } else {
                r == SharedOutcome::Unchanged && *final(state) == *old(state)
            }
        } else if is_row_down(*old(state), *key) {
            r == SharedOutcome::SelectionChanged && *final(state) == with_selection(
                *old(state),
                moved_down(old(state).file_list_state.selected, old(state).filtered_files.len() as int, 1),
            )
        } else if is_row_up(*old(state), *key) {
            r == SharedOutcome::SelectionChanged && *final(state) == with_selection(
                *old(state),
                moved_up(old(state).file_list_state.selected, old(state).filtered_files.len() as int, 1),
            )
        } else if !old(state).is_searching && key.code == KeyCode::Char('f') {
            r == SharedOutcome::SelectionChanged && *final(state) == with_selection(
                *old(state),
                moved_down(
                    old(state).file_list_state.selected,
                    old(state).filtered_files.len() as int,
                    half_page(page_height as int),
                ),
            )
        } else if !old(state).is_searching && key.code == KeyCode::Char('b') {
            r == SharedOutcome::SelectionChanged && *final(state) == with_selection(
                *old(state),
                moved_up(
                    old(state).file_list_state.selected,
                    old(state).filtered_files.len() as int,
                    half_page(page_height as int),
                ),
            )
        } else if key.code == KeyCode::Right || (!old(state).is_searching && key.code == KeyCode::Char('l')) {
            r == SharedOutcome::IntoDirectory && *final(state) == *old(state)
        } else if key.code == KeyCode::Left || (!old(state).is_searching && key.code == KeyCode::Char('h')) {
            r == SharedOutcome::ToParent && *final(state) == *old(state)
        } else {
            r == SharedOutcome::Unchanged && *final(state) == *old(state)
        },
{
    if state.is_searching && key.modifiers != CONTROL {
        if let KeyCode::Char(c) = key.code {
            push_char(&mut state.search_input, c);
            state.apply_search_filter();
            return SharedOutcome::SearchChanged;
        }
    }
    if state.is_searching && key.code == KeyCode::Backspace {
        let v = chars_of(state.search_input.as_str());
        if v.len() == 0 {
            return SharedOutcome::Unchanged;
        }
        let shorter = string_of_range(&v, 0, v.len() - 1);
        assert(shorter@ =~= old(state).search_input@.drop_last());
        state.search_input = shorter;
        state.apply_search_filter();
        return SharedOutcome::SearchChanged;
    }
    let len = state.filtered_files.len();
    let half = if page_height / 2 >= 1 {
        page_height / 2
    } else {
        1
    };
    let searching = state.is_searching;
    if key.code == KeyCode::Down || (!searching && key.code == KeyCode::Char('j')) {
        let sel = move_down(state.file_list_state.selected(), len, 1);
        state.file_list_state.select(sel);
        return SharedOutcome::SelectionChanged;
    }
    if key.code == KeyCode::Up || (!searching && key.code == KeyCode::Char('k')) {
        let sel = move_up(state.file_list_state.selected(), len, 1);
        state.file_list_state.select(sel);
        return SharedOutcome::SelectionChanged;
    }
    if !searching && key.code == KeyCode::Char('f') {
        let sel = move_down(state.file_list_state.selected(), len, half);
        state.file_list_state.select(sel);
        return SharedOutcome::SelectionChanged;
    }
    if !searching && key.code == KeyCode::Char('b') {
        let sel = move_up(state.file_list_state.selected(), len, half);
        state.file_list_state.select(sel);
        return SharedOutcome::SelectionChanged;
    }
    if key.code == KeyCode::Right || (!searching && key.code == KeyCode::Char('l')) {
        return SharedOutcome::IntoDirectory;
    }
    if key.code == KeyCode::Left || (!searching && key.code == KeyCode::Char('h')) {
        return SharedOutcome::ToParent;
    }
    SharedOutcome::Unchanged
}

/// Moving the selection up by `step` rows (at least one) from a selected
/// row below the first always moves it: to `step` rows higher, or to the
/// first row where fewer rows are above it. Moving down likewise goes
/// `step` rows lower, or stops at the last row.
pub proof fn law_moves_stop_at_the_ends(top: usize, len: int, step: int)
    requires
        step >= 1,
        top < len <= usize::MAX,
    ensures
        top > 0 ==> (moved_up(Some(top), len, step) matches Some(x) && x < top),
        top >= step ==> moved_up(Some(top), len, step) == Some((top - step) as usize),
        top < step ==> moved_up(Some(top), len, step) == Some(0usize),
        top + step < len ==> moved_down(Some(top), len, step) == Some((top + step) as usize),
        top + step >= len ==> moved_down(Some(top), len, step) == Some((len - 1) as usize),
        top + 1 < len ==> (moved_down(Some(top), len, step) matches Some(x) && x > top),
{
}

} // verus!
