//! What the panels show: the file list, the history list, the history help
//! and the visible part of a text preview, as styled text for the terminal
//! to draw.
use vstd::prelude::*;
use vstd::utf8::{encode_utf8, is_ascii_chars};
use crate::app_state::AppState;
use crate::highlight::{
    byte_slice, find_first_match, first_match, highlight_plan, highlight_search_term, pieces_view,
    spans_bytes, try_highlight_search_term,
};
use crate::preview::{PreviewContent, PreviewState, StyledText, TextStyle};
use crate::text::{decimal, format_decimal, push_str};
use crate::utils::{DisplayItem, FileItem, HistoryEntry, name_of_path};
use vstd::string::StringSliceAdditionalSpecFns;

verus! {

broadcast use {
    vstd::utf8::encode_utf8_valid_utf8,
    vstd::utf8::is_char_boundary_start_end_of_seq,
};

/// The icon of a directory.
pub const DIR_ICON: &'static str = "📁";

/// The icon of a file.
pub const FILE_ICON: &'static str = "📄";

/// A list as a panel draws it: a title, the rows, and the selected row.
pub struct ListView {
    pub title: String,
    pub items: Vec<Vec<StyledText>>,
    pub selected: Option<usize>,
}

/// A row as bytes and styles.
pub type RowView = Seq<(Seq<u8>, TextStyle)>;

/// Rows as bytes and styles.
pub open spec fn rows_bytes(items: Seq<Vec<StyledText>>) -> Seq<RowView> {
    items.map_values(|l: Vec<StyledText>| spans_bytes(l@))
}

/// A row holding one unstyled text.
pub open spec fn plain_row(text: Seq<char>) -> RowView {
    seq![(encode_utf8(text), TextStyle::Default)]
}

/// An icon and the space after it.
pub open spec fn icon_prefix(icon: Seq<char>, style: TextStyle) -> RowView {
    seq![(encode_utf8(icon), style), (encode_utf8(" "@), TextStyle::Default)]
}

/// A name, with the search highlighted in it when there is one; `None`
/// where the highlighting cannot cut the name.
pub open spec fn name_spans(name: Seq<char>, search: Seq<char>, style: TextStyle) -> Option<RowView> {
    if search.len() == 0 {
        Some(seq![(encode_utf8(name), style)])
    } else {
        match highlight_plan(name, search) {
            Some(p) => Some(pieces_view(encode_utf8(name), p, style)),
            None => None,
        }
    }
}

/// The row of the file list for a name and icon.
pub open spec fn named_row(icon: Seq<char>, name: Seq<char>, search: Seq<char>, style: TextStyle) -> Option<RowView> {
    match name_spans(name, search, style) {
        Some(ns) => Some(icon_prefix(icon, style) + ns),
        None => None,
    }
}

/// The row of the file list for an item.
pub open spec fn display_row(item: DisplayItem, search: Seq<char>, selected: bool) -> Option<RowView> {
    match item {
        DisplayItem::File(f) => named_row(
            if f.is_dir { DIR_ICON@ } else { FILE_ICON@ },
            f.name@,
            search,
            if selected {
                TextStyle::Selected
            } else if f.is_dir {
                TextStyle::DirUnselected
            } else {
                TextStyle::FileUnselected
            },
        ),
        DisplayItem::History(h) => named_row(
            DIR_ICON@,
            name_of_path(h.path@),
            search,
            if selected {
                TextStyle::Selected
            } else {
                TextStyle::DirUnselected
            },
        ),
    }
}

/// The rows of a list for the first `k` filtered entries, each made by
/// `row` (file list when `history` is false, history list otherwise);
/// entries pointing past the items are skipped.
pub open spec fn list_rows(
    files: Seq<DisplayItem>,
    filtered: Seq<usize>,
    search: Seq<char>,
    selected: Option<usize>,
    history: bool,
    k: int,
) -> Option<Seq<RowView>>
    decreases k,
{
    if k <= 0 {
        Some(Seq::empty())
    } else {
        match list_rows(files, filtered, search, selected, history, k - 1) {
            None => None,
            Some(p) => {
                let i = filtered[k - 1];
                if i < files.len() {
                    let is_selected = selected == Some((k - 1) as usize);
                    let row = if history {
                        history_row(files[i as int], search, is_selected)
                    } else {
                        display_row(files[i as int], search, is_selected)
                    };
                    match row {
                        Some(r) => Some(p.push(r)),
                        None => None,
                    }
                } else {
                    Some(p)
                }
            },
        }
    }
}

/// The title of the file list.
pub open spec fn file_list_title(dir: Seq<char>, shown: nat, total: nat) -> Seq<char> {
    "Files - "@ + dir + " ("@ + decimal(shown) + "/"@ + decimal(total) + ")"@
}

/// The rows of the file list, or `None` where a name cannot be cut for the
/// highlighting.
pub open spec fn file_list_rows(state: AppState) -> Option<Seq<RowView>> {
    list_rows(
        state.files@,
        state.filtered_files@,
        state.search_input@,
        state.file_list_state.selected,
        false,
        state.filtered_files.len() as int,
    )
}

/// The dir, frequency and path styles of a history row.
pub open spec fn history_styles(selected: bool) -> (TextStyle, TextStyle, TextStyle) {
    if selected {
        (TextStyle::Default, TextStyle::Default, TextStyle::Default)
    } else {
        (TextStyle::DirUnselected, TextStyle::HistoryFreqUnselected, TextStyle::HistoryPathUnselected)
    }
}

/// A directory name in a history row, with the first occurrence of the
/// search marked; `None` where the name cannot be cut there.
pub open spec fn history_name_spans(name: Seq<char>, search: Seq<char>, style: TextStyle) -> Option<RowView> {
    let t = encode_utf8(name);
    if search.len() == 0 {
        Some(seq![(t, style)])
    } else {
        match first_match(name, search) {
            None => None,
            Some(None) => Some(seq![(t, style)]),
            Some(Some((a, b))) => Some(
                seq![
                    (t.subrange(0, a), style),
                    (t.subrange(a, b), TextStyle::SearchMatch),
                    (t.subrange(b, t.len() as int), style),
                ],
            ),
        }
    }
}

/// The frequency shown after a history entry's name.
pub open spec fn frequency_text(frequency: u32) -> Seq<char> {
    " ("@ + decimal(frequency as nat) + "×)"@
}

/// The full path shown at the end of a history row.
pub open spec fn path_text(path: Seq<char>) -> Seq<char> {
    "("@ + path + ")"@
}

/// The row of the history list for an item.
pub open spec fn history_row(item: DisplayItem, search: Seq<char>, selected: bool) -> Option<RowView> {
    match item {
        DisplayItem::History(h) => {
            let (ds, fs, ps) = history_styles(selected);
            match history_name_spans(name_of_path(h.path@), search, ds) {
                Some(ns) => Some(
                    seq![(encode_utf8(DIR_ICON@), ds), (encode_utf8(" "@), TextStyle::Default)] + ns
                        + seq![
                        (encode_utf8(frequency_text(h.frequency)), fs),
                        (encode_utf8(" "@), TextStyle::Default),
                        (encode_utf8(path_text(h.path@)), ps),
                    ],
                ),
                None => None,
            }
        },
        DisplayItem::File(_) => Some(plain_row("Invalid history entry"@)),
    }
}

/// The rows of the history list, or `None` where a name cannot be cut for
/// the highlighting.
pub open spec fn history_list_rows(state: AppState) -> Option<Seq<RowView>> {
    if state.filtered_files.len() == 0 {
        if state.files.len() == 0 {
            Some(seq![plain_row("No history available"@)])
        } else {
            Some(seq![plain_row("No matching history entries"@)])
        }
    } else {
        list_rows(
            state.files@,
            state.filtered_files@,
            state.search_input@,
            state.file_list_state.selected,
            true,
            state.filtered_files.len() as int,
        )
    }
}

/// The title of the history list.
pub open spec fn history_list_title(searching: bool, search: Seq<char>, shown: nat, total: nat) -> Seq<char> {
    if searching && search.len() != 0 {
        "History - "@ + decimal(shown) + " matches ("@ + decimal(shown) + "/"@ + decimal(total) + ")"@
    } else {
        "History - "@ + decimal(total) + " entries"@
    }
}

fn text_span(text: &str, style: TextStyle) -> (r: StyledText)
    ensures
        encode_utf8(r.text@) == encode_utf8(text@),
        r.style == style,
{
    StyledText::new(text.to_owned(), style)
}

/// The name a list shows for an item: a file's name, or the last component
/// of a history record's path.
pub open spec fn item_name(item: DisplayItem) -> Seq<char> {
    match item {
        DisplayItem::File(f) => f.name@,
        DisplayItem::History(h) => name_of_path(h.path@),
    }
}

/// The search and every shown name are ASCII text, which the highlighting
/// can always cut.
pub open spec fn shown_names_ascii(state: AppState) -> bool {
    &&& is_ascii_chars(state.search_input@)
    &&& forall|k: int|
        0 <= k < state.filtered_files.len() && state.filtered_files@[k] < state.files.len()
            ==> is_ascii_chars(item_name(#[trigger] state.files@[state.filtered_files@[k] as int]))
}

fn name_spans_exec(name: &str, search: &str, style: TextStyle, check: bool) -> (r: Option<Vec<StyledText>>)
    requires
        !check ==> name_spans(name@, search@, style) is Some,
    ensures
        match name_spans(name@, search@, style) {
            Some(v) => r matches Some(x) && spans_bytes(x@) == v,
            None => r is None,
        },
        is_ascii_chars(name@) && is_ascii_chars(search@) ==> r is Some,
{
    if search.is_empty() {
        let v = vec![text_span(name, style)];
        assert(spans_bytes(v@) =~= seq![(encode_utf8(name@), style)]);
        Some(v)
    } else if check {
        try_highlight_search_term(name, search, style)
    } else {
        Some(highlight_search_term(name, search, style))
    }
}

fn named_row_exec(icon: &str, name: &str, search: &str, style: TextStyle, check: bool) -> (r: Option<Vec<StyledText>>)
    requires
        !check ==> named_row(icon@, name@, search@, style) is Some,
    ensures
        match named_row(icon@, name@, search@, style) {
            Some(v) => r matches Some(x) && spans_bytes(x@) == v,
            None => r is None,
        },
        is_ascii_chars(name@) && is_ascii_chars(search@) ==> r is Some,
{
    match name_spans_exec(name, search, style, check) {
        None => None,
        Some(ns) => {
            let mut spans = vec![text_span(icon, style), text_span(" ", TextStyle::Default)];
            let ghost first = spans@;
            assert(spans_bytes(first) =~= icon_prefix(icon@, style));
            let mut i: usize = 0;
            while i < ns.len()
                invariant
                    i <= ns.len(),
                    spans@.len() == 2 + i,
                    spans_bytes(spans@) == icon_prefix(icon@, style) + spans_bytes(ns@).take(i as int),
                decreases ns.len() - i,
            {
                let ghost before = spans@;
                spans.push(ns[i].clone());
                assert(spans_bytes(spans@) =~= icon_prefix(icon@, style) + spans_bytes(ns@).take(i + 1)) by {
                    assert(spans_bytes(spans@) =~= spans_bytes(before).push(spans_bytes(ns@)[i as int]));
                    assert(spans_bytes(ns@).take(i + 1) =~= spans_bytes(ns@).take(i as int).push(
                        spans_bytes(ns@)[i as int],
                    ));
                }
                i += 1;
            }
            assert(spans_bytes(ns@).take(ns.len() as int) =~= spans_bytes(ns@));
            Some(spans)
        },
    }
}

/// Create a list item for a file with optional search highlighting
fn create_file_list_item(file: &FileItem, search_input: &str, is_selected: bool, check: bool) -> (r: Option<Vec<StyledText>>)
    requires
        !check ==> display_row(DisplayItem::File(*file), search_input@, is_selected) is Some,
    ensures
        match display_row(DisplayItem::File(*file), search_input@, is_selected) {
            Some(v) => r matches Some(x) && spans_bytes(x@) == v,
            None => r is None,
        },
        is_ascii_chars(file.name@) && is_ascii_chars(search_input@) ==> r is Some,
{
    let icon = if file.is_dir {
        DIR_ICON
    } else {
        FILE_ICON
    };
    let style = if is_selected {
        TextStyle::Selected
    } else if file.is_dir {
        TextStyle::DirUnselected
    } else {
        TextStyle::FileUnselected
    };
    named_row_exec(icon, file.name.as_str(), search_input, style, check)
}

/// Create a list item for a DisplayItem with optional search highlighting
fn create_display_item_list_item(item: &DisplayItem, search_input: &str, is_selected: bool, check: bool) -> (r: Option<Vec<StyledText>>)
    requires
        !check ==> display_row(*item, search_input@, is_selected) is Some,
    ensures
        match display_row(*item, search_input@, is_selected) {
            Some(v) => r matches Some(x) && spans_bytes(x@) == v,
            None => r is None,
        },
        is_ascii_chars(item_name(*item)) && is_ascii_chars(search_input@) ==> r is Some,
{
    match item {
        DisplayItem::File(file) => create_file_list_item(file, search_input, is_selected, check),
        DisplayItem::History(entry) => {
            let style = if is_selected {
                TextStyle::Selected
            } else {
                TextStyle::DirUnselected
            };
            let name = match crate::path::file_name(entry.path.as_str()) {
                Some(n) => n,
                None => String::new(),
            };
            named_row_exec(DIR_ICON, name.as_str(), search_input, style, check)
        },
    }
}

/// Create a list item for a history entry with directory name and full path
fn create_history_list_item(item: &DisplayItem, search_input: &str, is_selected: bool) -> (r: Option<Vec<StyledText>>)
    ensures
        match history_row(*item, search_input@, is_selected) {
            Some(v) => r matches Some(x) && spans_bytes(x@) == v,
            None => r is None,
        },
        is_ascii_chars(item_name(*item)) && is_ascii_chars(search_input@) ==> r is Some,
{
    match item {
        DisplayItem::History(entry) => {
            let (dir_style, freq_style, path_style) = if is_selected {
                (TextStyle::Default, TextStyle::Default, TextStyle::Default)
            } else {
                (TextStyle::DirUnselected, TextStyle::HistoryFreqUnselected, TextStyle::HistoryPathUnselected)
            };
            let dir_name = match crate::path::file_name(entry.path.as_str()) {
                Some(n) => n,
                None => String::new(),
            };
            let ghost t = encode_utf8(dir_name@);
            let mut spans = vec![text_span(DIR_ICON, dir_style), text_span(" ", TextStyle::Default)];
            let ghost expected = history_name_spans(dir_name@, search_input@, dir_style);
            if !search_input.is_empty() {
                match find_first_match(dir_name.as_str(), search_input) {
                    Err(()) => return None,
                    Ok(Some((a, b))) => {
                        let len = dir_name.as_str().as_bytes().len();
                        spans.push(StyledText::new(byte_slice(dir_name.as_str(), 0, a), dir_style));
                        spans.push(StyledText::new(byte_slice(dir_name.as_str(), a, b), TextStyle::SearchMatch));
                        spans.push(StyledText::new(byte_slice(dir_name.as_str(), b, len), dir_style));
                    },
                    Ok(None) => {
                        spans.push(text_span(dir_name.as_str(), dir_style));
                    },
                }
            } else {
                spans.push(text_span(dir_name.as_str(), dir_style));
            }
            let mut freq = " (".to_owned();
            push_str(&mut freq, format_decimal(entry.frequency as u64).as_str());
            push_str(&mut freq, "×)");
            spans.push(StyledText::new(freq, freq_style));
            spans.push(text_span(" ", TextStyle::Default));
            let mut full = "(".to_owned();
            push_str(&mut full, entry.path.as_str());
            push_str(&mut full, ")");
            spans.push(StyledText::new(full, path_style));
            assert(spans_bytes(spans@) =~= history_row(*item, search_input@, is_selected)->0);
            Some(spans)
        },
        DisplayItem::File(_) => {
            let v = vec![text_span("Invalid history entry", TextStyle::Default)];
            assert(spans_bytes(v@) =~= plain_row("Invalid history entry"@));
            Some(v)
        },
    }
}

} // verus!

verus! {

proof fn lemma_list_rows_prefix(
    files: Seq<DisplayItem>,
    filtered: Seq<usize>,
    search: Seq<char>,
    selected: Option<usize>,
    history: bool,
    j: int,
    k: int,
)
    requires
        0 <= j <= k,
        list_rows(files, filtered, search, selected, history, k) is Some,
    ensures
        list_rows(files, filtered, search, selected, history, j) is Some,
    decreases k - j,
{
    if j < k {
        lemma_list_rows_prefix(files, filtered, search, selected, history, j, k - 1);
    }
}

proof fn lemma_list_rows_none(
    files: Seq<DisplayItem>,
    filtered: Seq<usize>,
    search: Seq<char>,
    selected: Option<usize>,
    history: bool,
    j: int,
    k: int,
)
    requires
        0 <= j <= k,
        list_rows(files, filtered, search, selected, history, j) is None,
    ensures
        list_rows(files, filtered, search, selected, history, k) is None,
{
    if list_rows(files, filtered, search, selected, history, k) is Some {
        lemma_list_rows_prefix(files, filtered, search, selected, history, j, k);
    }
}

/// The rows of a list for the filtered entries of `state`.
fn list_rows_exec(state: &AppState, history: bool, check: bool) -> (r: Option<Vec<Vec<StyledText>>>)
    requires
        !check ==> list_rows(
            state.files@,
            state.filtered_files@,
            state.search_input@,
            state.file_list_state.selected,
            history,
            state.filtered_files.len() as int,
        ) is Some,
    ensures
        match list_rows(
            state.files@,
            state.filtered_files@,
            state.search_input@,
            state.file_list_state.selected,
            history,
            state.filtered_files.len() as int,
        ) {
            Some(v) => r matches Some(x) && rows_bytes(x@) == v,
            None => r is None,
        },
        shown_names_ascii(*state) ==> r is Some,
{
    let ghost files = state.files@;
    let ghost filtered = state.filtered_files@;
    let ghost search = state.search_input@;
    let ghost sel = state.file_list_state.selected;
    let n = state.filtered_files.len();
    let selected_index = state.file_list_state.selected();
    let mut rows: Vec<Vec<StyledText>> = Vec::new();
    let mut idx: usize = 0;
    while idx < n
        invariant
            n == filtered.len(),
            files == state.files@,
            filtered == state.filtered_files@,
            search == state.search_input@,
            sel == state.file_list_state.selected,
            selected_index == sel,
            idx <= n,
            !check ==> list_rows(files, filtered, search, sel, history, n as int) is Some,
            list_rows(files, filtered, search, sel, history, idx as int) == Some(rows_bytes(rows@)),
            shown_names_ascii(*state) ==> is_ascii_chars(search),
        decreases n - idx,
    {
        let i = state.filtered_files[idx];
        proof {
            if !check {
                lemma_list_rows_prefix(files, filtered, search, sel, history, idx + 1, n as int);
            }
        }
        if i < state.files.len() {
            assert(shown_names_ascii(*state) ==> is_ascii_chars(item_name(state.files@[filtered[idx as int] as int])));
            let is_selected = selected_index == Some(idx);
            let row = if history {
                create_history_list_item(&state.files[i], state.search_input.as_str(), is_selected)
            } else {
                create_display_item_list_item(&state.files[i], state.search_input.as_str(), is_selected, check)
            };
            match row {
                None => {
                    proof {
                        lemma_list_rows_none(files, filtered, search, sel, history, idx + 1, n as int);
                    }
                    return None;
                },
                Some(row) => {
                    let ghost before = rows@;
                    rows.push(row);
                    assert(rows_bytes(rows@) =~= rows_bytes(before).push(spans_bytes(row@)));
                },
            }
        }
        idx += 1;
    }
    Some(rows)
}

/// Renderer for file list in Normal mode
pub struct FileListRenderer;

impl FileListRenderer {
    pub fn new() -> (r: FileListRenderer)
        ensures
            r == FileListRenderer,
    {
        FileListRenderer
    }

    /// The file list: titled with the directory and how many of its entries
    /// are shown; a row per shown entry (icon, then name with the search
    /// highlighted); the selection. `requires` asks that the highlighting
    /// can cut every shown name, which holds of ASCII names and search (as
    /// `try_render` states).
    pub fn render(&self, state: &AppState) -> (r: ListView)
        requires
            file_list_rows(*state) is Some,
        ensures
            r.title@ == file_list_title(state.current_dir@, state.filtered_files.len() as nat, state.files.len() as nat),
            rows_bytes(r.items@) == file_list_rows(*state)->0,
            r.selected == state.file_list_state.selected,
    {
        let items = match list_rows_exec(state, false, false) {
            Some(v) => v,
            None => Vec::new(),
        };
        let mut title = "Files - ".to_owned();
        push_str(&mut title, state.current_dir.as_str());
        push_str(&mut title, " (");
        push_str(&mut title, format_decimal(state.filtered_files.len() as u64).as_str());
        push_str(&mut title, "/");
        push_str(&mut title, format_decimal(state.files.len() as u64).as_str());
        push_str(&mut title, ")");
        ListView { title, items, selected: state.file_list_state.selected() }
    }

    /// The file list, or `None` where the highlighting cannot cut a shown
    /// name; never `None` for ASCII names and search.
    pub fn try_render(&self, state: &AppState) -> (r: Option<ListView>)
        ensures
            match file_list_rows(*state) {
                Some(rows) => r matches Some(v) && rows_bytes(v.items@) == rows && v.title@ == file_list_title(
                    state.current_dir@,
                    state.filtered_files.len() as nat,
                    state.files.len() as nat,
                ) && v.selected == state.file_list_state.selected,
                None => r is None,
            },
            shown_names_ascii(*state) ==> r is Some,
    {
        if list_rows_exec(state, false, true).is_some() {
            Some(self.render(state))
        } else {
            None
        }
    }
}

/// Renderer for history list in History mode
pub struct HistoryListRenderer;

impl HistoryListRenderer {
    pub fn new() -> (r: HistoryListRenderer)
        ensures
            r == HistoryListRenderer,
    {
        HistoryListRenderer
    }

    fn rows(state: &AppState, check: bool) -> (r: Option<Vec<Vec<StyledText>>>)
        requires
            !check ==> history_list_rows(*state) is Some,
        ensures
            match history_list_rows(*state) {
                Some(v) => r matches Some(x) && rows_bytes(x@) == v,
                None => r is None,
            },
            shown_names_ascii(*state) ==> r is Some,
    {
        if state.filtered_files.len() == 0 {
            let text = if state.files.len() == 0 {
                "No history available"
            } else {
                "No matching history entries"
            };
            let rows = vec![vec![text_span(text, TextStyle::Default)]];
            assert(rows_bytes(rows@) =~= seq![plain_row(text@)]) by {
                assert(spans_bytes(rows@[0]@) =~= plain_row(text@));
            }
            Some(rows)
        } else {
            list_rows_exec(state, true, check)
        }
    }

    /// The history list: titled with how many entries there are (and match,
    /// while searching); a row per shown entry (icon, name with the first
    /// occurrence of the search marked, frequency, full path), or a line
    /// saying that there is nothing to show; the selection. `requires` asks
    /// that the marking can cut every shown name, which holds of ASCII names
    /// and search (as `try_render` states).
    pub fn render(&self, state: &AppState) -> (r: ListView)
        requires
            history_list_rows(*state) is Some,
        ensures
            r.title@ == history_list_title(
                state.is_searching,
                state.search_input@,
                state.filtered_files.len() as nat,
                state.files.len() as nat,
            ),
            rows_bytes(r.items@) == history_list_rows(*state)->0,
            r.selected == state.file_list_state.selected,
    {
        let items = match Self::rows(state, false) {
            Some(v) => v,
            None => Vec::new(),
        };
        let shown = format_decimal(state.filtered_files.len() as u64);
        let total = format_decimal(state.files.len() as u64);
        let mut title = "History - ".to_owned();
        if state.is_searching && !state.search_input.as_str().is_empty() {
            push_str(&mut title, shown.as_str());
            push_str(&mut title, " matches (");
            push_str(&mut title, shown.as_str());
            push_str(&mut title, "/");
            push_str(&mut title, total.as_str());
            push_str(&mut title, ")");
        } else {
            push_str(&mut title, total.as_str());
            push_str(&mut title, " entries");
        }
        ListView { title, items, selected: state.file_list_state.selected() }
    }

    /// The history list, or `None` where the marking cannot cut a shown
    /// name; never `None` for ASCII names and search.
    pub fn try_render(&self, state: &AppState) -> (r: Option<ListView>)
        ensures
            match history_list_rows(*state) {
                Some(rows) => r matches Some(v) && rows_bytes(v.items@) == rows && v.title@
                    == history_list_title(
                    state.is_searching,
                    state.search_input@,
                    state.filtered_files.len() as nat,
                    state.files.len() as nat,
                ) && v.selected == state.file_list_state.selected,
                None => r is None,
            },
            shown_names_ascii(*state) ==> r is Some,
    {
        if Self::rows(state, true).is_some() {
            Some(self.render(state))
        } else {
            None
        }
    }
}

/// The lines of History mode's help.
pub open spec fn history_help_lines() -> Seq<Seq<char>> {
    seq![
        "History Mode Navigation:"@,
        ""@,
        "jk or ↑↓  - Navigate history"@,
        "l→        - Enter directory"@,
        "b          - Move up half page"@,
        "f          - Move down half page"@,
        "/          - Search history"@,
        "ESC        - Exit search (when searching)"@,
        "Enter      - Select directory & exit app"@,
        "ESC        - Return to normal mode"@,
        ""@,
        "Note: Selected directory will be"@,
        "      moved to top of history"@,
    ]
}

/// Renderer for History mode help
pub struct HistoryHelpRenderer;

impl HistoryHelpRenderer {
    pub fn new() -> (r: HistoryHelpRenderer)
        ensures
            r == HistoryHelpRenderer,
    {
        HistoryHelpRenderer
    }

    /// The help of History mode: its title and its lines, unstyled.
    pub fn render(&self) -> (r: ListView)
        ensures
            r.title@ == "Help - History Mode"@,
            rows_bytes(r.items@) == history_help_lines().map_values(|l: Seq<char>| plain_row(l)),
            r.selected is None,
    {
        let texts: [&str; 13] = [
            "History Mode Navigation:",
            "",
            "jk or ↑↓  - Navigate history",
            "l→        - Enter directory",
            "b          - Move up half page",
            "f          - Move down half page",
            "/          - Search history",
            "ESC        - Exit search (when searching)",
            "Enter      - Select directory & exit app",
            "ESC        - Return to normal mode",
            "",
            "Note: Selected directory will be",
            "      moved to top of history",
        ];
        assert(texts@.map_values(|t: &str| t@) =~= history_help_lines());
        let mut items: Vec<Vec<StyledText>> = Vec::new();
        let mut i: usize = 0;
        while i < 13
            invariant
                i <= 13,
                texts@.map_values(|t: &str| t@) == history_help_lines(),
                items.len() == i,
                forall|j: int| 0 <= j < i ==> spans_bytes((#[trigger] items@[j])@) == plain_row(history_help_lines()[j]),
            decreases 13 - i,
        {
            assert(texts@.map_values(|t: &str| t@)[i as int] == texts@[i as int]@);
            let row = vec![text_span(texts[i], TextStyle::Default)];
            assert(spans_bytes(row@) =~= plain_row(history_help_lines()[i as int]));
            items.push(row);
            i += 1;
        }
        assert(rows_bytes(items@) =~= history_help_lines().map_values(|l: Seq<char>| plain_row(l)));
        ListView { title: "Help - History Mode".to_owned(), items, selected: None }
    }
}

/// The first line of a text preview shown and the one after the last, for
/// `total` lines, an offset and a panel of `area_height` rows (two of them
/// the border).
pub open spec fn visible_range(total: int, offset: int, area_height: int) -> (int, int) {
    let visible_height = if area_height >= 2 {
        area_height - 2
    } else {
        0
    };
    if offset < total {
        (offset, if offset + visible_height <= total {
            offset + visible_height
        } else {
            total
        })
    } else {
        (0, 0)
    }
}

/// What the preview panel shows: a list of text lines, or an image to draw.
pub enum PreviewView {
    Text(ListView),
    Image,
}

/// Renderer for preview panel showing file/directory content
pub struct PreviewRenderer;

impl PreviewRenderer {
    pub fn new() -> (r: PreviewRenderer)
        ensures
            r == PreviewRenderer,
    {
        PreviewRenderer
    }

    /// The part of a text preview that fits the panel: the lines from the
    /// scroll offset on, as many as the panel holds inside its border,
    /// titled with the preview's title.
    pub fn render_text_preview(
        &self,
        preview_state: &PreviewState,
        lines: &Vec<Vec<StyledText>>,
        area_height: u16,
    ) -> (r: ListView)
        ensures
            r.title@ == preview_state.title@,
            r.selected is None,
            ({
                let (a, b) = visible_range(lines.len() as int, preview_state.scroll_offset as int, area_height as int);
                rows_bytes(r.items@) == rows_bytes(lines@.subrange(a, b))
            }),
    {
        let total_lines = lines.len();
        let visible_height: usize = if area_height >= 2 {
            (area_height - 2) as usize
        } else {
            0
        };
        let start_line = preview_state.scroll_offset;
        let mut items: Vec<Vec<StyledText>> = Vec::new();
        if start_line < total_lines {
            let end_line = if visible_height <= total_lines - start_line {
                start_line + visible_height
            } else {
                total_lines
            };
            let mut i = start_line;
            while i < end_line
                invariant
                    start_line <= i <= end_line <= lines.len(),
                    items.len() == i - start_line,
                    forall|j: int| 0 <= j < items.len() ==> spans_bytes((#[trigger] items@[j])@) == spans_bytes(
                        lines@[start_line + j]@,
                    ),
                decreases end_line - i,
            {
                let line = crate::preview::clone_line(&lines[i]);
                items.push(line);
                i += 1;
            }
            assert(rows_bytes(items@) =~= rows_bytes(lines@.subrange(start_line as int, end_line as int)));
        } else {
            assert(rows_bytes(items@) =~= rows_bytes(lines@.subrange(0, 0)));
        }
        ListView { title: preview_state.title.clone(), items, selected: None }
    }

    /// The preview panel: the visible text lines, or the image, which the
    /// terminal draws itself.
    pub fn render(&self, preview_state: &PreviewState, area_height: u16) -> (r: PreviewView)
        ensures
            match preview_state.content {
                PreviewContent::Text(lines) => r matches PreviewView::Text(v) && v.title@ == preview_state.title@
                    && ({
                    let (a, b) = visible_range(lines.len() as int, preview_state.scroll_offset as int, area_height as int);
                    rows_bytes(v.items@) == rows_bytes(lines@.subrange(a, b))
                }),
                PreviewContent::Image(_) => r is Image,
            },
    {
        match &preview_state.content {
            PreviewContent::Text(lines) => PreviewView::Text(self.render_text_preview(preview_state, lines, area_height)),
            PreviewContent::Image(_) => PreviewView::Image,
        }
    }
}

} // verus!
