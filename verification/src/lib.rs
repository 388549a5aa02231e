//! Core logic of quickswitch, a terminal directory switcher: the file list
//! and its search filter, the selection and remembered positions, the preview
//! panel state, the text shown in previews and lists, and the mode and key
//! decisions. Terminal drawing, the filesystem and the event loop live in the
//! application crate around this library.
use vstd::prelude::*;

pub mod app_state;
pub mod config;
pub mod data_provider;
pub mod dispatch;
pub mod highlight;
pub mod modes;
pub mod path;
pub mod preview;
pub mod preview_generator;
pub mod preview_manager;
pub mod render;
pub mod text;
pub mod utils;

pub use app_state::AppState;
pub use config::get_data_dir;
pub use utils::{AppMode, ShellType, qs_init};

verus! {

} // verus!
