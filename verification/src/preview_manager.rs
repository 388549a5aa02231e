//! What the application does to the preview panel: show a loading
//! placeholder for the selected file, clear it, and scroll it.
use vstd::prelude::*;
use crate::app_state::{AppState, same_but_preview};
use crate::preview::{line_view, lines_view, ContentView, PreviewContent, StyledText, TextStyle};
use crate::text::push_str;
use crate::utils::{DisplayItem, FileItem, name_of_path};

verus! {

/// The title of a file's preview: a page icon, a space, the file's name.
pub open spec fn preview_title(name: Seq<char>) -> Seq<char> {
    "📄 "@ + name
}

/// The lines shown while a preview is generated.
pub open spec fn loading_lines() -> Seq<Seq<(Seq<char>, TextStyle)>> {
    seq![
        seq![("Loading preview..."@, TextStyle::PreviewPlaceholder)],
        seq![(Seq::<char>::empty(), TextStyle::Default)],
        seq![("Please wait while content is being processed."@, TextStyle::PreviewInfo)],
    ]
}

/// The title of a file's preview.
pub fn preview_title_for(name: &str) -> (r: String)
    ensures
        r@ == preview_title(name@),
{
    let mut t = "📄 ".to_owned();
    push_str(&mut t, name);
    t
}

/// Handles the preview panel for the application.
pub struct PreviewManager;

impl PreviewManager {
    /// Starts a preview of the selected item, if one is selected: the panel
    /// shows a loading placeholder for it, and the item is returned for its
    /// preview to be generated. A history record is previewed as the file at
    /// its path; `history_path_is_dir` is what the filesystem says of it.
    pub fn preview_for_selected_item(state: &mut AppState, history_path_is_dir: bool) -> (r: Option<FileItem>)
        ensures
            match old(state).selected_item() {
                None => r is None && *final(state) == *old(state),
                Some(item) => r matches Some(f) && {
                    &&& f.path@ == item.path_of()
                    &&& match item {
                        DisplayItem::File(g) => f == g,
                        DisplayItem::History(_) => f.name@ == name_of_path(item.path_of()) && f.is_dir
                            == history_path_is_dir,
                    }
                    &&& final(state).preview.current_file_item == Some(f)
                    &&& final(state).preview.title@ == preview_title(f.name@)
                    &&& final(state).preview.content@ == ContentView::Text(loading_lines())
                    &&& final(state).preview.scroll_offset == 0
                    &&& same_but_preview(*old(state), *final(state))
                },
            },
    {
        match state.get_selected_item() {
            Some(item) => {
                let file_item = match item {
                    DisplayItem::File(file) => file,
                    DisplayItem::History(entry) => FileItem::from_path(entry.path.as_str(), history_path_is_dir),
                };
                Self::update_preview_for_item(state, &file_item);
                Some(file_item)
            },
            None => None,
        }
    }

    /// Points the preview at `file_item` and shows a loading placeholder
    /// until its preview arrives.
    pub fn update_preview_for_item(state: &mut AppState, file_item: &FileItem)
        ensures
            final(state).preview.current_file_item == Some(*file_item),
            final(state).preview.title@ == preview_title(file_item.name@),
            final(state).preview.content@ == ContentView::Text(loading_lines()),
            final(state).preview.scroll_offset == 0,
            same_but_preview(*old(state), *final(state)),
    {
        let placeholder_title = preview_title_for(file_item.name.as_str());
        let l0 = vec![StyledText::new("Loading preview...".to_owned(), TextStyle::PreviewPlaceholder)];
        let l1 = vec![StyledText::raw(String::new())];
        let l2 = vec![StyledText::new("Please wait while content is being processed.".to_owned(), TextStyle::PreviewInfo)];
        assert(line_view(l0) =~= loading_lines()[0]);
        assert(line_view(l1) =~= loading_lines()[1]);
        assert(line_view(l2) =~= loading_lines()[2]);
        let lines = vec![l0, l1, l2];
        assert(lines_view(lines) =~= loading_lines());
        let placeholder_content = PreviewContent::text(lines);
        state.preview.set_current_file_item(Some(file_item.clone()));
        state.preview.update_preview(placeholder_title, placeholder_content, Some(file_item.clone()));
    }

    pub fn clear_preview(state: &mut AppState)
        ensures
            final(state).preview.is_cleared(),
            final(state).preview.current_file_item == old(state).preview.current_file_item,
            same_but_preview(*old(state), *final(state)),
    {
        state.preview.clear_preview();
    }

    pub fn scroll_preview_up(state: &mut AppState) -> (r: bool)
        ensures
            final(state).preview.scroll_offset == crate::preview::scrolled_up(
                old(state).preview.scroll_offset as int,
            ),
            r == (final(state).preview.scroll_offset != old(state).preview.scroll_offset),
            final(state).preview.content == old(state).preview.content,
            final(state).preview.title == old(state).preview.title,
            final(state).preview.current_file_item == old(state).preview.current_file_item,
            same_but_preview(*old(state), *final(state)),
    {
        state.preview.scroll_up()
    }

    pub fn scroll_preview_down(state: &mut AppState) -> (r: bool)
        ensures
            final(state).preview.scroll_offset == crate::preview::scrolled_down(
                old(state).preview.scroll_offset as int,
                old(state).preview.content.spec_len() as int,
            ),
            r == (final(state).preview.scroll_offset != old(state).preview.scroll_offset),
            final(state).preview.content == old(state).preview.content,
            final(state).preview.title == old(state).preview.title,
            final(state).preview.current_file_item == old(state).preview.current_file_item,
            same_but_preview(*old(state), *final(state)),
    {
        state.preview.scroll_down()
    }

    pub fn scroll_preview_page_up(state: &mut AppState, visible_height: usize) -> (r: bool)
        ensures
            final(state).preview.scroll_offset == crate::preview::paged_up(
                old(state).preview.scroll_offset as int,
                visible_height as int,
            ),
            r == (final(state).preview.scroll_offset != old(state).preview.scroll_offset),
            final(state).preview.content == old(state).preview.content,
            final(state).preview.title == old(state).preview.title,
            final(state).preview.current_file_item == old(state).preview.current_file_item,
            same_but_preview(*old(state), *final(state)),
    {
        state.preview.scroll_page_up(visible_height)
    }

    pub fn scroll_preview_page_down(state: &mut AppState, visible_height: usize) -> (r: bool)
        ensures
            final(state).preview.scroll_offset == crate::preview::paged_down(
                old(state).preview.scroll_offset as int,
                old(state).preview.content.spec_len() as int,
                visible_height as int,
            ),
            r == (final(state).preview.scroll_offset != old(state).preview.scroll_offset),
            final(state).preview.content == old(state).preview.content,
            final(state).preview.title == old(state).preview.title,
            final(state).preview.current_file_item == old(state).preview.current_file_item,
            same_but_preview(*old(state), *final(state)),
    {
        state.preview.scroll_page_down(visible_height)
    }

    pub fn reset_preview_scroll(state: &mut AppState)
        ensures
            final(state).preview.scroll_offset == 0,
            final(state).preview.content == old(state).preview.content,
            final(state).preview.title == old(state).preview.title,
            final(state).preview.current_file_item == old(state).preview.current_file_item,
            same_but_preview(*old(state), *final(state)),
    {
        state.preview.reset_scroll();
    }
}

} // verus!
