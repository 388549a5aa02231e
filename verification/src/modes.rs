//! Modes and what keys do in them: the mode manager, Normal mode's key
//! handling and search box, and where leaving the application goes.
use vstd::prelude::*;
use crate::app_state::AppState;
use crate::preview_manager::PreviewManager;
use crate::text::{decimal, format_decimal, push_str};
use crate::utils::{AppMode, DisplayItem, FileItem};

verus! {

/// Represents a mode switch request
#[derive(Debug, Clone, PartialEq)]
pub enum ModeAction {
    Stay,
    Switch(AppMode),
    Exit(Option<FileItem>),
}

/// A key, as the key handling reads it.
#[derive(Copy, Clone, Debug, PartialEq, Eq, Structural)]
pub enum KeyCode {
    Char(char),
    Esc,
    Enter,
    Backspace,
    Up,
    Down,
    Left,
    Right,
    /// Any other key.
    Other,
}

/// The modifier bit of the Control key, as the terminal reports modifiers
/// (Shift 1, Control 2, Alt 4, Super 8, Hyper 16, Meta 32).
pub const CONTROL: u8 = 2;

/// A key press: the key and the bits of the modifiers held.
#[derive(Copy, Clone, Debug, PartialEq, Eq, Structural)]
pub struct KeyInput {
    pub code: KeyCode,
    pub modifiers: u8,
}

/// What a mode's key handling decided.
#[derive(Debug, Clone, PartialEq)]
pub enum KeyOutcome {
    /// The mode's answer.
    Action(ModeAction),
    /// Leave with the file at this path, once the filesystem has said whether
    /// it is a directory.
    ExitAt(String),
    /// A key this mode leaves to the shared input handling.
    Delegate,
}

/// Mode manager that coordinates between different modes
pub struct ModeManager {
    pub current_mode: AppMode,
}

impl ModeManager {
    pub fn new(initial_mode: &AppMode) -> (r: ModeManager)
        ensures
            r.current_mode == *initial_mode,
    {
        ModeManager { current_mode: *initial_mode }
    }

    /// Switches to `new_mode`: the search is cleared and left. Loading the
    /// new mode's data is the caller's part.
    pub fn switch_mode(&mut self, state: &mut AppState, new_mode: &AppMode)
        ensures
            final(self).current_mode == *new_mode,
            final(state).search_input@ == Seq::<char>::empty(),
            !final(state).is_searching,
            final(state).files == old(state).files,
            final(state).filtered_files == old(state).filtered_files,
            final(state).file_list_state == old(state).file_list_state,
            final(state).current_dir == old(state).current_dir,
            final(state).show_hidden_files == old(state).show_hidden_files,
            final(state).dir_positions@ == old(state).dir_positions@,
            final(state).double_click_state == old(state).double_click_state,
            final(state).preview == old(state).preview,
    {
        state.search_input = String::new();
        state.is_searching = false;
        self.current_mode = *new_mode;
    }

    pub fn get_current_mode(&self) -> (r: &AppMode)
        ensures
            *r == self.current_mode,
    {
        &self.current_mode
    }

    pub fn is_mode(&self, mode: &AppMode) -> (r: bool)
        ensures
            r == (self.current_mode == *mode),
    {
        self.current_mode == *mode
    }
}

/// The look of the search box.
#[derive(Copy, Clone, Debug, PartialEq, Eq, Structural)]
pub enum SearchBoxStyle {
    Normal,
    Active,
    Results,
}

/// The title of Normal mode's search box and its look.
pub open spec fn normal_search_box(searching: bool, search: Seq<char>, matches: nat) -> (Seq<char>, SearchBoxStyle) {
    if searching {
        if search.len() == 0 {
            ("SEARCH - Type to search, ESC to exit search"@, SearchBoxStyle::Active)
        } else {
            (
                "SEARCH - '"@ + search + "' - "@ + decimal(matches) + " matches (ESC to exit)"@,
                SearchBoxStyle::Active,
            )
        }
    } else if search.len() != 0 {
        (
            "FILTERED - '"@ + search + "' - "@ + decimal(matches) + " matches (/ to search again)"@,
            SearchBoxStyle::Results,
        )
    } else {
        ("NORMAL - hjkl navigate, bf half page, / search, v history, Enter exit"@, SearchBoxStyle::Normal)
    }
}

/// Handler for Normal mode (default navigation mode)
pub struct NormalModeHandler;

impl Default for NormalModeHandler {
    fn default() -> (r: Self)
        ensures
            r == NormalModeHandler,
    {
        Self::new()
    }
}

impl NormalModeHandler {
    pub fn new() -> (r: NormalModeHandler)
        ensures
            r == NormalModeHandler,
    {
        NormalModeHandler
    }

    /// What a key press does in Normal mode. Outside search, `v` switches to
    /// History mode and `/` starts searching. Esc leaves search, else clears
    /// the selection and the preview, else (nothing selected) exits without a
    /// choice. Enter, unless with Control alone, exits with the selected file,
    /// or with the path of a selected history record or of the current
    /// directory. Other keys go to the shared input handling.
    pub fn handle_key_event(&mut self, state: &mut AppState, key: &KeyInput) -> (r: KeyOutcome)
        ensures
            if !old(state).is_searching && key.code == KeyCode::Char('v') {
                r == KeyOutcome::Action(ModeAction::Switch(AppMode::History)) && *final(state) == *old(state)
            } else if !old(state).is_searching && key.code == KeyCode::Char('/') {
                r == KeyOutcome::Action(ModeAction::Stay) && *final(state) == (AppState {
                    is_searching: true,
                    ..*old(state)
                })
            } else if key.code == KeyCode::Esc {
                if old(state).is_searching {
                    r == KeyOutcome::Action(ModeAction::Stay) && *final(state) == (AppState {
                        is_searching: false,
                        ..*old(state)
                    })
                } else if old(state).selected_item() is None {
                    r == KeyOutcome::Action(ModeAction::Exit(None)) && *final(state) == *old(state)
                } else {
                    &&& r == KeyOutcome::Action(ModeAction::Stay)
                    &&& final(state).file_list_state.selected is None
                    &&& final(state).preview.is_cleared()
                    &&& final(state).preview.current_file_item == old(state).preview.current_file_item
                    &&& final(state).files == old(state).files
                    &&& final(state).filtered_files == old(state).filtered_files
                    &&& final(state).current_dir == old(state).current_dir
                    &&& final(state).search_input == old(state).search_input
                    &&& final(state).is_searching == old(state).is_searching
                    &&& final(state).show_hidden_files == old(state).show_hidden_files
                    &&& final(state).dir_positions@ == old(state).dir_positions@
                    &&& final(state).double_click_state == old(state).double_click_state
                }
            } else if key.code == KeyCode::Enter && key.modifiers != CONTROL {
                *final(state) == *old(state) && match old(state).selected_item() {
                    Some(DisplayItem::File(f)) => r == KeyOutcome::Action(ModeAction::Exit(Some(f))),
                    Some(DisplayItem::History(h)) => r matches KeyOutcome::ExitAt(p) && p@ == h.path@,
                    None => r matches KeyOutcome::ExitAt(p) && p@ == old(state).current_dir@,
                }
            } else {
                r == KeyOutcome::Delegate && *final(state) == *old(state)
            },
    {
        if !state.is_searching {
            if key.code == KeyCode::Char('v') {
                return KeyOutcome::Action(ModeAction::Switch(AppMode::History));
            }
            if key.code == KeyCode::Char('/') {
                state.is_searching = true;
                return KeyOutcome::Action(ModeAction::Stay);
            }
        }
        match key.code {
            KeyCode::Esc => {
                if state.is_searching {
                    state.is_searching = false;
                    return KeyOutcome::Action(ModeAction::Stay);
                } else if state.get_selected_item().is_none() {
                    return KeyOutcome::Action(ModeAction::Exit(None));
                } else {
                    state.file_list_state.select(None);
                    PreviewManager::clear_preview(state);
                    return KeyOutcome::Action(ModeAction::Stay);
                }
            },
            KeyCode::Enter => {
                if key.modifiers != CONTROL {
                    return match state.get_selected_item() {
                        Some(DisplayItem::File(file)) => KeyOutcome::Action(ModeAction::Exit(Some(file))),
                        Some(DisplayItem::History(entry)) => KeyOutcome::ExitAt(entry.path),
                        None => KeyOutcome::ExitAt(state.current_dir.clone()),
                    };
                }
            },
            _ => {},
        }
        KeyOutcome::Delegate
    }

    /// The search box: its title, its text (the search) and its look.
    pub fn get_search_box_config(&self, state: &AppState) -> (r: (String, String, SearchBoxStyle))
        ensures
            (r.0@, r.2) == normal_search_box(state.is_searching, state.search_input@, state.filtered_files.len() as nat),
            r.1@ == state.search_input@,
    {
        let count = state.filtered_files.len() as u64;
        let (info, style) = if state.is_searching {
            if state.search_input.as_str().is_empty() {
                ("SEARCH - Type to search, ESC to exit search".to_owned(), SearchBoxStyle::Active)
            } else {
                let mut t = "SEARCH - '".to_owned();
                push_str(&mut t, state.search_input.as_str());
                push_str(&mut t, "' - ");
                push_str(&mut t, format_decimal(count).as_str());
                push_str(&mut t, " matches (ESC to exit)");
                (t, SearchBoxStyle::Active)
            }
        } else if !state.search_input.as_str().is_empty() {
            let mut t = "FILTERED - '".to_owned();
            push_str(&mut t, state.search_input.as_str());
            push_str(&mut t, "' - ");
            push_str(&mut t, format_decimal(count).as_str());
            push_str(&mut t, " matches (/ to search again)");
            (t, SearchBoxStyle::Results)
        } else {
            (
                "NORMAL - hjkl navigate, bf half page, / search, v history, Enter exit".to_owned(),
                SearchBoxStyle::Normal,
            )
        };
        (info, state.search_input.clone(), style)
    }

    /// Whether the right panel shows help instead of the preview: while
    /// searching, when there is no search text or no match; otherwise when
    /// nothing is selected or the list is empty.
    pub fn should_show_help(&self, state: &AppState) -> (r: bool)
        ensures
            r == if state.is_searching {
                state.search_input@.len() == 0 || state.filtered_files.len() == 0
            } else {
                state.file_list_state.selected is None || state.filtered_files.len() == 0
            },
    {
        if state.is_searching {
            state.search_input.as_str().is_empty() || state.filtered_files.len() == 0
        } else {
            state.file_list_state.selected().is_none() || state.filtered_files.len() == 0
        }
    }
}

/// The directory to hand back on leaving with a file: the file itself when
/// it is a directory, else the current directory. Leaving without a file
/// hands back nothing.
pub fn exit_path(state: &AppState, file: Option<&FileItem>) -> (r: Option<String>)
    ensures
        match file {
            Some(f) => r matches Some(p) && p@ == (if f.is_dir {
                f.path@
            } else {
                state.current_dir@
            }),
            None => r is None,
        },
{
    match file {
        Some(f) => if f.is_dir {
            Some(f.path.clone())
        } else {
            Some(state.current_dir.clone())
        },
        None => None,
    }
}

/// Handler for History mode: the list of visited directories.
pub struct HistoryModeHandler;

impl HistoryModeHandler {
    pub fn new() -> (r: HistoryModeHandler)
        ensures
            r == HistoryModeHandler,
    {
        HistoryModeHandler
    }

    /// The search box: `HISTORY SEARCH` while searching, else `HISTORY`;
    /// the search; the normal look.
    pub fn get_search_box_config(&self, state: &AppState) -> (r: (String, String, SearchBoxStyle))
        ensures
            r.0@ == (if state.is_searching {
                "HISTORY SEARCH"@
            } else {
                "HISTORY"@
            }),
            r.1@ == state.search_input@,
            r.2 == SearchBoxStyle::Normal,
    {
        let title = if state.is_searching {
            "HISTORY SEARCH"
        } else {
            "HISTORY"
        };
        (title.to_owned(), state.search_input.clone(), SearchBoxStyle::Normal)
    }

    /// What a key press does in History mode. Esc leaves search, else goes
    /// back to Normal mode; `/` outside search starts searching; Enter leaves
    /// with the path of the selected record, and does nothing where none is
    /// selected. Other keys go to the shared input handling.
    pub fn handle_key_event(&mut self, state: &mut AppState, key: &KeyInput) -> (r: KeyOutcome)
        ensures
            if key.code == KeyCode::Esc {
                if old(state).is_searching {
                    r == KeyOutcome::Action(ModeAction::Stay) && *final(state) == (AppState {
                        is_searching: false,
                        ..*old(state)
                    })
                } else {
                    r == KeyOutcome::Action(ModeAction::Switch(AppMode::Normal)) && *final(state) == *old(state)
                }
            } else if !old(state).is_searching && key.code == KeyCode::Char('/') {
                r == KeyOutcome::Action(ModeAction::Stay) && *final(state) == (AppState {
                    is_searching: true,
                    ..*old(state)
                })
            } else if key.code == KeyCode::Enter {
                *final(state) == *old(state) && match old(state).selected_item() {
                    Some(item) => r matches KeyOutcome::ExitAt(p) && p@ == item.path_of(),
                    None => r == KeyOutcome::Action(ModeAction::Stay),
                }
            } else {
                r == KeyOutcome::Delegate && *final(state) == *old(state)
            },
    {
        if key.code == KeyCode::Esc {
            if state.is_searching {
                state.is_searching = false;
                return KeyOutcome::Action(ModeAction::Stay);
            }
            return KeyOutcome::Action(ModeAction::Switch(AppMode::Normal));
        }
        if !state.is_searching && key.code == KeyCode::Char('/') {
            state.is_searching = true;
            return KeyOutcome::Action(ModeAction::Stay);
        }
        if key.code == KeyCode::Enter {
            return match state.get_selected_item() {
                Some(item) => KeyOutcome::ExitAt(item.get_path().clone()),
                None => KeyOutcome::Action(ModeAction::Stay),
            };
        }
        KeyOutcome::Delegate
    }
}

} // verus!
