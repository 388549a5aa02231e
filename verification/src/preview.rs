//! The preview panel: styled text lines, the content shown, and its state
//! (title, scroll position, which file it belongs to).
use vstd::prelude::*;
use std::sync::{Arc, Mutex};
use ratatui_image::protocol::StatefulProtocol;
use crate::utils::FileItem;
use crate::path::path_key;

verus! {

#[verifier::external_type_specification]
#[verifier::external_body]
pub struct ExStatefulProtocol(StatefulProtocol);

#[verifier::external_type_specification]
#[verifier::external_body]
#[verifier::reject_recursive_types(T)]
pub struct ExMutex<T: ?Sized>(Mutex<T>);

/// Shares an image protocol through `Arc::clone`: the clone points at the
/// same protocol.
#[verifier::external_body]
fn share_image(a: &Arc<Mutex<StatefulProtocol>>) -> (r: Arc<Mutex<StatefulProtocol>>)
    ensures
        r == *a,
{
    Arc::clone(a)
}

/// The look of a piece of text, named after the theme entry that draws it.
#[derive(Copy, Clone, Debug, PartialEq, Eq, Structural)]
pub enum TextStyle {
    /// The terminal's own style.
    Default,
    /// Gray text.
    Gray,
    PreviewPlaceholder,
    PreviewInfo,
    PreviewError,
    PreviewLineNumber,
    /// The directory style.
    Dir,
    /// The directory style on the unselected background.
    DirUnselected,
    /// The file style on the unselected background.
    FileUnselected,
    /// The colors of a selected list entry.
    Selected,
    SearchMatch,
    HistoryFreqUnselected,
    HistoryPathUnselected,
}

/// A piece of text with its style.
#[derive(Debug)]
pub struct StyledText {
    pub text: String,
    pub style: TextStyle,
}

impl Clone for StyledText {
    fn clone(&self) -> (r: Self)
        ensures
            r == *self,
    {
        StyledText { text: self.text.clone(), style: self.style }
    }
}

impl StyledText {
    pub fn new(text: String, style: TextStyle) -> (r: StyledText)
        ensures
            r.text == text,
            r.style == style,
    {
        StyledText { text, style }
    }

    pub fn raw(text: String) -> (r: StyledText)
        ensures
            r.text == text,
            r.style == TextStyle::Default,
    {
        StyledText { text, style: TextStyle::Default }
    }
}

/// A line of styled text, as characters and styles.
pub open spec fn line_view(line: Vec<StyledText>) -> Seq<(Seq<char>, TextStyle)> {
    line@.map_values(|t: StyledText| (t.text@, t.style))
}

/// Lines of styled text, as characters and styles.
pub open spec fn lines_view(lines: Vec<Vec<StyledText>>) -> Seq<Seq<(Seq<char>, TextStyle)>> {
    lines@.map_values(|l: Vec<StyledText>| line_view(l))
}

pub fn clone_line(line: &Vec<StyledText>) -> (r: Vec<StyledText>)
    ensures
        r@ == line@,
{
    let mut r: Vec<StyledText> = Vec::new();
    let mut i: usize = 0;
    while i < line.len()
        invariant
            i <= line.len(),
            r@ == line@.take(i as int),
        decreases line.len() - i,
    {
        r.push(line[i].clone());
        assert(r@ =~= line@.take(i + 1));
        i += 1;
    }
    assert(line@.take(line.len() as int) =~= line@);
    r
}

pub fn clone_lines(lines: &Vec<Vec<StyledText>>) -> (r: Vec<Vec<StyledText>>)
    ensures
        lines_view(r) == lines_view(*lines),
{
    let mut r: Vec<Vec<StyledText>> = Vec::new();
    let mut i: usize = 0;
    while i < lines.len()
        invariant
            i <= lines.len(),
            r.len() == i,
            forall|j: int| 0 <= j < i ==> line_view(#[trigger] r@[j]) == line_view(lines@[j]),
        decreases lines.len() - i,
    {
        let l = clone_line(&lines[i]);
        r.push(l);
        i += 1;
    }
    assert(lines_view(r) =~= lines_view(*lines));
    r
}

/// What the preview panel shows: lines of text, or an image.
pub enum PreviewContent {
    Text(Vec<Vec<StyledText>>),
    Image(Arc<Mutex<StatefulProtocol>>),
}

/// Preview content as styled characters, or the image it shows.
pub enum ContentView {
    Text(Seq<Seq<(Seq<char>, TextStyle)>>),
    Image(Arc<Mutex<StatefulProtocol>>),
}

impl View for PreviewContent {
    type V = ContentView;

    open spec fn view(&self) -> ContentView {
        match self {
            PreviewContent::Text(lines) => ContentView::Text(lines_view(*lines)),
            PreviewContent::Image(p) => ContentView::Image(*p),
        }
    }
}

impl Clone for PreviewContent {
    fn clone(&self) -> (r: Self)
        ensures
            r@ == self@,
    {
        match self {
            PreviewContent::Text(lines) => PreviewContent::Text(clone_lines(lines)),
            PreviewContent::Image(p) => PreviewContent::Image(share_image(p)),
        }
    }
}

impl PreviewContent {
    pub fn text(lines: Vec<Vec<StyledText>>) -> (r: PreviewContent)
        ensures
            r == PreviewContent::Text(lines),
    {
        PreviewContent::Text(lines)
    }

    /// How many lines the content spans; an image counts as one.
    pub open spec fn spec_len(&self) -> nat {
        match self {
            PreviewContent::Text(lines) => lines.len() as nat,
            PreviewContent::Image(_) => 1,
        }
    }

    pub fn len(&self) -> (r: usize)
        ensures
            r == self.spec_len(),
    {
        match self {
            PreviewContent::Text(lines) => lines.len(),
            PreviewContent::Image(_) => 1,
        }
    }
}

/// The single line shown when nothing is previewed.
pub fn no_file_selected_lines() -> (r: Vec<Vec<StyledText>>)
    ensures
        lines_view(r) == seq![seq![("No file selected"@, TextStyle::Gray)]],
{
    let line = vec![StyledText::new("No file selected".to_owned(), TextStyle::Gray)];
    let r = vec![line];
    assert(line_view(r@[0]) =~= seq![("No file selected"@, TextStyle::Gray)]);
    assert(lines_view(r) =~= seq![seq![("No file selected"@, TextStyle::Gray)]]);
    r
}

/// The preview panel's state.
pub struct PreviewState {
    pub content: PreviewContent,
    pub title: String,
    pub scroll_offset: usize,
    /// The file that the preview is, or is about to be, of.
    pub current_file_item: Option<FileItem>,
}

/// The offset after one step up: one less, unless already at the top.
pub open spec fn scrolled_up(offset: int) -> int {
    if offset > 0 {
        offset - 1
    } else {
        offset
    }
}

/// The offset after one step down: one more, while a line remains below.
pub open spec fn scrolled_down(offset: int, len: int) -> int {
    if offset + 1 < len {
        offset + 1
    } else {
        offset
    }
}

/// Half a screen of `visible_height` lines, at least one.
pub open spec fn half_screen(visible_height: int) -> int {
    if visible_height / 2 >= 1 {
        visible_height / 2
    } else {
        1
    }
}

/// The offset after moving up half a screen, stopping at the top.
pub open spec fn paged_up(offset: int, visible_height: int) -> int {
    if offset >= half_screen(visible_height) {
        offset - half_screen(visible_height)
    } else {
        0
    }
}

/// The offset after moving down half a screen, stopping where the last
/// screenful of `len` lines starts.
pub open spec fn paged_down(offset: int, len: int, visible_height: int) -> int {
    let max_offset = if len >= visible_height {
        len - visible_height
    } else {
        0
    };
    if offset + half_screen(visible_height) <= max_offset {
        offset + half_screen(visible_height)
    } else {
        max_offset
    }
}

impl Default for PreviewState {
    fn default() -> (r: Self)
        ensures
            r.is_cleared(),
            r.current_file_item is None,
    {
        PreviewState::new()
    }
}

impl Clone for PreviewState {
    fn clone(&self) -> (r: Self)
        ensures
            r.content@ == self.content@,
            r.title == self.title,
            r.scroll_offset == self.scroll_offset,
            r.current_file_item == self.current_file_item,
    {
        PreviewState {
            content: self.content.clone(),
            title: self.title.clone(),
            scroll_offset: self.scroll_offset,
            current_file_item: self.get_current_file_item(),
        }
    }
}

impl PreviewState {
    /// The empty preview: titled "Preview", saying that no file is selected.
    pub open spec fn is_cleared(&self) -> bool {
        &&& self.title@ == "Preview"@
        &&& self.content@ == ContentView::Text(seq![seq![("No file selected"@, TextStyle::Gray)]])
        &&& self.scroll_offset == 0
    }

    pub fn new() -> (r: PreviewState)
        ensures
            r.is_cleared(),
            r.current_file_item is None,
    {
        PreviewState {
            content: PreviewContent::text(no_file_selected_lines()),
            title: "Preview".to_owned(),
            scroll_offset: 0,
            current_file_item: None,
        }
    }

    pub fn set_current_file_item(&mut self, path: Option<FileItem>)
        ensures
            final(self).current_file_item == path,
            final(self).content == old(self).content,
            final(self).title == old(self).title,
            final(self).scroll_offset == old(self).scroll_offset,
    {
        self.current_file_item = path;
    }

    pub fn get_current_file_item(&self) -> (r: Option<FileItem>)
        ensures
            r == self.current_file_item,
    {
        match &self.current_file_item {
            Some(f) => Some(f.clone()),
            None => None,
        }
    }

    /// Installs a finished preview, unless it is for another file than the
    /// current one (a preview that arrived too late).
    pub fn update_preview(&mut self, title: String, content: PreviewContent, file_item: Option<FileItem>)
        ensures
            final(self).current_file_item == old(self).current_file_item,
            if same_item(file_item, old(self).current_file_item) {
                &&& final(self).title == title
                &&& final(self).content == content
                &&& final(self).scroll_offset == 0
            } else {
                &&& final(self).title == old(self).title
                &&& final(self).content == old(self).content
                &&& final(self).scroll_offset == old(self).scroll_offset
            },
            (match (file_item, old(self).current_file_item) {
                (Some(f), Some(c)) => path_key(f.path@) != path_key(c.path@) || f.name@ != c.name@
                    || f.is_dir != c.is_dir,
                (None, None) => false,
                _ => true,
            }) ==> {
                &&& final(self).title == old(self).title
                &&& final(self).content == old(self).content
                &&& final(self).scroll_offset == old(self).scroll_offset
            },
    {
        if file_item != self.get_current_file_item() {
            return;
        }
        self.title = title;
        self.content = content;
        self.scroll_offset = 0;
    }

    /// Back to the empty preview; the current file stays.
    pub fn clear_preview(&mut self)
        ensures
            final(self).is_cleared(),
            final(self).current_file_item == old(self).current_file_item,
    {
        self.title = "Preview".to_owned();
        self.content = PreviewContent::text(no_file_selected_lines());
        self.scroll_offset = 0;
    }

    pub fn get_title(&self) -> (r: String)
        ensures
            r == self.title,
    {
        self.title.clone()
    }

    pub fn get_content(&self) -> (r: PreviewContent)
        ensures
            r@ == self.content@,
    {
        self.content.clone()
    }

    pub fn get_scroll_offset(&self) -> (r: usize)
        ensures
            r == self.scroll_offset,
    {
        self.scroll_offset
    }

    pub fn set_scroll_offset(&mut self, offset: usize)
        ensures
            final(self).scroll_offset == offset,
            final(self).content == old(self).content,
            final(self).title == old(self).title,
            final(self).current_file_item == old(self).current_file_item,
    {
        self.scroll_offset = offset;
    }

    /// One line up; whether the offset moved.
    pub fn scroll_up(&mut self) -> (r: bool)
        ensures
            final(self).scroll_offset == scrolled_up(old(self).scroll_offset as int),
            r == (final(self).scroll_offset != old(self).scroll_offset),
            final(self).content == old(self).content,
            final(self).title == old(self).title,
            final(self).current_file_item == old(self).current_file_item,
    {
        if self.scroll_offset > 0 {
            self.scroll_offset -= 1;
            true
        } else {
            false
        }
    }

    /// One line down, while a line remains below; whether the offset moved.
    pub fn scroll_down(&mut self) -> (r: bool)
        ensures
            final(self).scroll_offset == scrolled_down(
                old(self).scroll_offset as int,
                old(self).content.spec_len() as int,
            ),
            r == (final(self).scroll_offset != old(self).scroll_offset),
            final(self).content == old(self).content,
            final(self).title == old(self).title,
            final(self).current_file_item == old(self).current_file_item,
    {
        let len = self.content.len();
        if len > 0 && self.scroll_offset < len - 1 {
            self.scroll_offset += 1;
            true
        } else {
            false
        }
    }

    /// Half a screen up, stopping at the top; whether the offset moved.
    pub fn scroll_page_up(&mut self, visible_height: usize) -> (r: bool)
        ensures
            final(self).scroll_offset == paged_up(old(self).scroll_offset as int, visible_height as int),
            r == (final(self).scroll_offset != old(self).scroll_offset),
            final(self).content == old(self).content,
            final(self).title == old(self).title,
            final(self).current_file_item == old(self).current_file_item,
    {
        let half_screen = if visible_height / 2 >= 1 {
            visible_height / 2
        } else {
            1
        };
        let new_offset = self.scroll_offset.saturating_sub(half_screen);
        if new_offset != self.scroll_offset {
            self.scroll_offset = new_offset;
            true
        } else {
            false
        }
    }

    /// Half a screen down, stopping where the last screenful starts; whether
    /// the offset moved.
    pub fn scroll_page_down(&mut self, visible_height: usize) -> (r: bool)
        ensures
            final(self).scroll_offset == paged_down(
                old(self).scroll_offset as int,
                old(self).content.spec_len() as int,
                visible_height as int,
            ),
            r == (final(self).scroll_offset != old(self).scroll_offset),
            final(self).content == old(self).content,
            final(self).title == old(self).title,
            final(self).current_file_item == old(self).current_file_item,
    {
        let half_screen = if visible_height / 2 >= 1 {
            visible_height / 2
        } else {
            1
        };
        let max_offset = self.content.len().saturating_sub(visible_height);
        let new_offset = if self.scroll_offset <= max_offset && half_screen <= max_offset
            - self.scroll_offset {
            self.scroll_offset + half_screen
        } else {
            max_offset
        };
        if new_offset != self.scroll_offset {
            self.scroll_offset = new_offset;
            true
        } else {
            false
        }
    }

    pub fn reset_scroll(&mut self)
        ensures
            final(self).scroll_offset == 0,
            final(self).content == old(self).content,
            final(self).title == old(self).title,
            final(self).current_file_item == old(self).current_file_item,
    {
        self.scroll_offset = 0;
    }
}

/// Two optional files are the same file, as `==` compares them.
pub open spec fn same_item(a: Option<FileItem>, b: Option<FileItem>) -> bool {
    match (a, b) {
        (None, None) => true,
        (Some(x), Some(y)) => x.same_as(&y),
        _ => false,
    }
}

} // verus!

verus! {

/// Scrolling up one line undoes scrolling down one line.
pub proof fn law_scroll_down_then_up(offset: int, len: int)
    requires
        0 <= offset,
        offset + 1 < len,
    ensures
        scrolled_up(scrolled_down(offset, len)) == offset,
{
}

/// Scrolling down one line never moves past the last line: an offset on a
/// line stays on a line.
pub proof fn law_scroll_down_stays_in_content(offset: int, len: int)
    requires
        0 <= offset < len,
    ensures
        0 <= scrolled_down(offset, len) < len,
{
}

/// Where the last screenful of `len` lines starts for a panel of
/// `visible_height` lines.
pub open spec fn last_screen_start(len: int, visible_height: int) -> int {
    if len >= visible_height {
        len - visible_height
    } else {
        0
    }
}

/// Paging down from within the content never goes past where the last
/// screenful starts and never moves up; from beyond it, it goes back there.
/// Paging up never goes above the top and never moves down.
pub proof fn law_paging_bounds(offset: int, len: int, visible_height: int)
    requires
        0 <= offset,
        0 <= len,
        0 <= visible_height,
    ensures
        offset <= last_screen_start(len, visible_height) ==> offset <= paged_down(offset, len, visible_height)
            <= last_screen_start(len, visible_height),
        offset > last_screen_start(len, visible_height) ==> paged_down(offset, len, visible_height)
            == last_screen_start(len, visible_height),
        0 <= paged_up(offset, visible_height) <= offset,
{
}

/// Files at different paths (as `Path` compares them) are never the same
/// file, whatever their names: a preview generated for one is never
/// installed for the other.
pub proof fn law_other_path_is_another_file(x: FileItem, y: FileItem)
    requires
        path_key(x.path@) != path_key(y.path@),
    ensures
        !same_item(Some(x), Some(y)),
        !same_item(Some(y), Some(x)),
{
}

/// A preview result is installed exactly when it is for the file the
/// preview currently belongs to: after pointing the preview at `x`, a result
/// for `x` is taken and one for any other file is dropped.
pub proof fn law_only_current_preview_installed(x: FileItem, y: FileItem)
    ensures
        same_item(Some(x), Some(x)),
        !x.same_as(&y) ==> !same_item(Some(y), Some(x)),
{
}

} // verus!
