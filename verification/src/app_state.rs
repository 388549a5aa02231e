//! The application state: the items of the list, the search filter over
//! them, the selection, the positions remembered per directory, and the
//! preview panel.
use vstd::prelude::*;
use std::time::Instant;
use crate::preview::PreviewState;
use crate::text::{contains, lowercase, str_contains, str_eq, to_lowercase};
use crate::utils::{DisplayItem, FileItem};
use crate::path::{path_key, path_key_of};

verus! {

#[verifier::external_type_specification]
#[verifier::external_body]
pub struct ExInstant(Instant);

/// What is remembered of the last mouse click, to tell a double click.
#[derive(Clone, Debug)]
pub struct DoubleClickState {
    pub last_click_time: Option<Instant>,
    pub last_click_position: Option<(u16, u16)>,
    pub last_clicked_index: Option<usize>,
}

/// Which row of the list is selected, if any.
#[derive(Copy, Clone, Debug, PartialEq, Eq, Structural)]
pub struct ListSelection {
    pub selected: Option<usize>,
}

impl ListSelection {
    pub fn new() -> (r: ListSelection)
        ensures
            r.selected is None,
    {
        ListSelection { selected: None }
    }

    pub fn selected(&self) -> (r: Option<usize>)
        ensures
            r == self.selected,
    {
        self.selected
    }

    pub fn select(&mut self, index: Option<usize>)
        ensures
            final(self).selected == index,
    {
        self.selected = index;
    }
}

/// The map that a list of (directory, position) records stands for: a later
/// record of a directory overrides an earlier one.
pub open spec fn positions_map(entries: Seq<(String, usize)>) -> Map<Seq<char>, usize>
    decreases entries.len(),
{
    if entries.len() == 0 {
        Map::empty()
    } else {
        positions_map(entries.drop_last()).insert(entries.last().0@, entries.last().1)
    }
}

proof fn lemma_positions_absent(entries: Seq<(String, usize)>, k: Seq<char>)
    requires
        forall|j: int| 0 <= j < entries.len() ==> entries[j].0@ != k,
    ensures
        !positions_map(entries).contains_key(k),
    decreases entries.len(),
{
    if entries.len() > 0 {
        lemma_positions_absent(entries.drop_last(), k);
    }
}

proof fn lemma_positions_last(entries: Seq<(String, usize)>, k: Seq<char>, i: int)
    requires
        0 <= i < entries.len(),
        entries[i].0@ == k,
        forall|j: int| i < j < entries.len() ==> entries[j].0@ != k,
    ensures
        positions_map(entries).contains_key(k),
        positions_map(entries)[k] == entries[i].1,
    decreases entries.len(),
{
    if i < entries.len() - 1 {
        lemma_positions_last(entries.drop_last(), k, i);
    }
}

proof fn lemma_positions_update(entries: Seq<(String, usize)>, i: int, e: (String, usize))
    requires
        0 <= i < entries.len(),
        entries[i].0@ == e.0@,
        forall|j: int| i < j < entries.len() ==> entries[j].0@ != e.0@,
    ensures
        positions_map(entries.update(i, e)) == positions_map(entries).insert(e.0@, e.1),
    decreases entries.len(),
{
    let u = entries.update(i, e);
    if i == entries.len() - 1 {
        assert(u.drop_last() =~= entries.drop_last());
    } else {
        lemma_positions_update(entries.drop_last(), i, e);
        assert(u.drop_last() =~= entries.drop_last().update(i, e));
        assert(positions_map(u) =~= positions_map(entries).insert(e.0@, e.1));
    }
}

/// The list position last selected in each directory visited. Directories
/// are told apart as `Path` tells them apart, by their components: the view
/// maps the `path_key` of each directory to its position.
pub struct DirPositions {
    entries: Vec<(String, usize)>,
}

impl View for DirPositions {
    type V = Map<Seq<char>, usize>;

    closed spec fn view(&self) -> Map<Seq<char>, usize> {
        positions_map(self.entries@)
    }
}

impl DirPositions {
    pub fn new() -> (r: DirPositions)
        ensures
            r@ == Map::<Seq<char>, usize>::empty(),
    {
        DirPositions { entries: Vec::new() }
    }

    /// The position remembered for `dir`, if any.
    pub fn get(&self, dir: &str) -> (r: Option<usize>)
        ensures
            r == (if self@.contains_key(path_key(dir@)) {
                Some(self@[path_key(dir@)])
            } else {
                None
            }),
    {
        let key = path_key_of(dir);
        let mut j = self.entries.len();
        while j > 0
            invariant
                j <= self.entries.len(),
                key@ == path_key(dir@),
                forall|k: int| j <= k < self.entries.len() ==> self.entries@[k].0@ != key@,
            decreases j,
        {
            if str_eq(self.entries[j - 1].0.as_str(), key.as_str()) {
                proof {
                    lemma_positions_last(self.entries@, key@, j - 1);
                }
                return Some(self.entries[j - 1].1);
            }
            j -= 1;
        }
        proof {
            lemma_positions_absent(self.entries@, key@);
        }
        None
    }

    /// Remembers `position` for `dir`, replacing what was remembered for it.
    pub fn insert(&mut self, dir: String, position: usize)
        ensures
            final(self)@ == old(self)@.insert(path_key(dir@), position),
    {
        let key = path_key_of(dir.as_str());
        let mut j = self.entries.len();
        while j > 0
            invariant
                j <= self.entries.len(),
                key@ == path_key(dir@),
                self.entries@ == old(self).entries@,
                forall|k: int| j <= k < self.entries.len() ==> self.entries@[k].0@ != key@,
            decreases j,
        {
            if str_eq(self.entries[j - 1].0.as_str(), key.as_str()) {
                proof {
                    lemma_positions_update(self.entries@, j - 1, (key, position));
                }
                self.entries.set(j - 1, (key, position));
                return;
            }
            j -= 1;
        }
        let ghost before = self.entries@;
        self.entries.push((key, position));
        assert(self.entries@.drop_last() =~= before);
    }
}

/// Whether the list shows an item while hidden files are shown or not: a
/// file whose name starts with `.` is hidden.
pub open spec fn item_shown(item: DisplayItem, show_hidden: bool) -> bool {
    match item {
        DisplayItem::File(f) => !(f.name@.len() > 0 && f.name@[0] == '.') || show_hidden,
        DisplayItem::History(_) => true,
    }
}

/// Whether an item's name matches a search, ignoring case.
pub open spec fn item_matches(item: DisplayItem, search: Seq<char>) -> bool {
    search.len() == 0 || contains(lowercase(item.display_name()), lowercase(search))
}

/// The indices, in order, of the first `n` items that are shown and match.
pub open spec fn visible_indices(
    files: Seq<DisplayItem>,
    show_hidden: bool,
    search: Seq<char>,
    n: int,
) -> Seq<usize>
    decreases n,
{
    if n <= 0 {
        Seq::empty()
    } else {
        let p = visible_indices(files, show_hidden, search, n - 1);
        if item_shown(files[n - 1], show_hidden) && item_matches(files[n - 1], search) {
            p.push((n - 1) as usize)
        } else {
            p
        }
    }
}

/// The item a selection points at: the selected row of the filtered list.
pub open spec fn selected_item_of(
    files: Seq<DisplayItem>,
    filtered: Seq<usize>,
    selected: Option<usize>,
) -> Option<DisplayItem> {
    match selected {
        Some(s) => if s < filtered.len() && filtered[s as int] < files.len() {
            Some(files[filtered[s as int] as int])
        } else {
            None
        },
        None => None,
    }
}

/// Two states that differ at most in their preview panel.
pub open spec fn same_but_preview(a: AppState, b: AppState) -> bool {
    &&& a.search_input == b.search_input
    &&& a.is_searching == b.is_searching
    &&& a.show_hidden_files == b.show_hidden_files
    &&& a.current_dir == b.current_dir
    &&& a.files == b.files
    &&& a.filtered_files == b.filtered_files
    &&& a.file_list_state == b.file_list_state
    &&& a.dir_positions@ == b.dir_positions@
    &&& a.double_click_state == b.double_click_state
}

/// The whole state of the interface that the logic reads and changes.
pub struct AppState {
    pub search_input: String,
    pub is_searching: bool,
    pub show_hidden_files: bool,
    pub current_dir: String,
    pub files: Vec<DisplayItem>,
    /// Indices into `files` of the entries the list shows.
    pub filtered_files: Vec<usize>,
    pub file_list_state: ListSelection,
    pub dir_positions: DirPositions,
    pub double_click_state: DoubleClickState,
    pub preview: PreviewState,
}

impl AppState {
    /// The filtered list that the current files, hidden-file setting and
    /// search call for.
    pub open spec fn expected_filter(&self) -> Seq<usize> {
        visible_indices(self.files@, self.show_hidden_files, self.search_input@, self.files.len() as int)
    }

    /// The selected item, if the selection points at one.
    pub open spec fn selected_item(&self) -> Option<DisplayItem> {
        selected_item_of(self.files@, self.filtered_files@, self.file_list_state.selected)
    }

    /// A fresh state in `current_dir`: nothing listed, searched or selected.
    pub fn new(current_dir: String) -> (r: AppState)
        ensures
            r.search_input@ == Seq::<char>::empty(),
            !r.is_searching,
            !r.show_hidden_files,
            r.current_dir == current_dir,
            r.files@.len() == 0,
            r.filtered_files@.len() == 0,
            r.file_list_state.selected is None,
            r.dir_positions@ == Map::<Seq<char>, usize>::empty(),
            r.preview.is_cleared(),
            r.preview.current_file_item is None,
            r.double_click_state.last_click_time is None,
            r.double_click_state.last_click_position is None,
            r.double_click_state.last_clicked_index is None,
    {
        AppState {
            search_input: String::new(),
            is_searching: false,
            show_hidden_files: false,
            current_dir,
            files: Vec::new(),
            filtered_files: Vec::new(),
            file_list_state: ListSelection::new(),
            dir_positions: DirPositions::new(),
            double_click_state: DoubleClickState {
                last_click_time: None,
                last_click_position: None,
                last_clicked_index: None,
            },
            preview: PreviewState::new(),
        }
    }

    /// Whether an item is shown under the hidden-file setting.
    pub fn should_show_item(&self, item: &DisplayItem) -> (r: bool)
        ensures
            r == item_shown(*item, self.show_hidden_files),
    {
        match item {
            DisplayItem::File(f) => {
                let name = crate::text::chars_of(f.name.as_str());
                if name.len() > 0 && name[0] == '.' {
                    self.show_hidden_files
                } else {
                    true
                }
            },
            DisplayItem::History(_) => true,
        }
    }

    /// The indices of the items shown under the hidden-file setting and
    /// matching `search` (no search when `None`).
    fn compute_filter(&self, search: bool) -> (r: Vec<usize>)
        ensures
            r@ == visible_indices(
                self.files@,
                self.show_hidden_files,
                if search {
                    self.search_input@
                } else {
                    Seq::empty()
                },
                self.files.len() as int,
            ),
    {
        let ghost term = if search {
            self.search_input@
        } else {
            Seq::<char>::empty()
        };
        let searching = search && !self.search_input.as_str().is_empty();
        let search_lower = if searching {
            to_lowercase(self.search_input.as_str())
        } else {
            String::new()
        };
        let mut r: Vec<usize> = Vec::new();
        let mut i: usize = 0;
        while i < self.files.len()
            invariant
                i <= self.files.len(),
                term == (if search { self.search_input@ } else { Seq::<char>::empty() }),
                searching == (term.len() > 0),
                searching ==> search_lower@ == lowercase(term),
                r@ == visible_indices(self.files@, self.show_hidden_files, term, i as int),
            decreases self.files.len() - i,
        {
            let item = &self.files[i];
            let shown = self.should_show_item(item);
            let matches = if !searching {
                true
            } else {
                let name = item.get_display_name();
                let name_lower = to_lowercase(name.as_str());
                str_contains(name_lower.as_str(), search_lower.as_str())
            };
            if shown && matches {
                r.push(i);
            }
            i += 1;
        }
        r
    }

    /// Replaces the list with `file_items` and shows all of them that are not
    /// hidden, with nothing selected.
    pub fn load_file_items(&mut self, file_items: Vec<FileItem>)
        ensures
            final(self).files@ == file_items@.map_values(|f: FileItem| DisplayItem::File(f)),
            final(self).filtered_files@ == visible_indices(
                final(self).files@,
                final(self).show_hidden_files,
                Seq::empty(),
                final(self).files.len() as int,
            ),
            final(self).file_list_state.selected is None,
            final(self).search_input == old(self).search_input,
            final(self).is_searching == old(self).is_searching,
            final(self).show_hidden_files == old(self).show_hidden_files,
            final(self).current_dir == old(self).current_dir,
            final(self).dir_positions@ == old(self).dir_positions@,
            final(self).double_click_state == old(self).double_click_state,
            final(self).preview == old(self).preview,
    {
        let mut files: Vec<DisplayItem> = Vec::new();
        let mut i: usize = 0;
        while i < file_items.len()
            invariant
                i <= file_items.len(),
                files@ == file_items@.take(i as int).map_values(|f: FileItem| DisplayItem::File(f)),
            decreases file_items.len() - i,
        {
            files.push(DisplayItem::File(file_items[i].clone()));
            assert(file_items@.take(i + 1) =~= file_items@.take(i as int).push(file_items@[i as int]));
            assert(files@ =~= file_items@.take(i + 1).map_values(|f: FileItem| DisplayItem::File(f)));
            i += 1;
        }
        assert(file_items@.take(file_items.len() as int) =~= file_items@);
        self.files = files;
        self.reset_filter();
    }

    /// Shows every item that is not hidden, ignoring the search, with
    /// nothing selected.
    pub fn reset_filter(&mut self)
        ensures
            final(self).filtered_files@ == visible_indices(
                final(self).files@,
                final(self).show_hidden_files,
                Seq::empty(),
                final(self).files.len() as int,
            ),
            final(self).file_list_state.selected is None,
            final(self).files == old(self).files,
            final(self).search_input == old(self).search_input,
            final(self).is_searching == old(self).is_searching,
            final(self).show_hidden_files == old(self).show_hidden_files,
            final(self).current_dir == old(self).current_dir,
            final(self).dir_positions@ == old(self).dir_positions@,
            final(self).double_click_state == old(self).double_click_state,
            final(self).preview == old(self).preview,
    {
        self.filtered_files = self.compute_filter(false);
        self.file_list_state.select(None);
    }

    /// Shows the items that are not hidden and whose names contain the
    /// search, ignoring case, with nothing selected.
    pub fn apply_search_filter(&mut self)
        ensures
            final(self).filtered_files@ == final(self).expected_filter(),
            final(self).file_list_state.selected is None,
            final(self).files == old(self).files,
            final(self).search_input == old(self).search_input,
            final(self).is_searching == old(self).is_searching,
            final(self).show_hidden_files == old(self).show_hidden_files,
            final(self).current_dir == old(self).current_dir,
            final(self).dir_positions@ == old(self).dir_positions@,
            final(self).double_click_state == old(self).double_click_state,
            final(self).preview == old(self).preview,
    {
        self.filtered_files = self.compute_filter(true);
        self.file_list_state.select(None);
    }

    /// The selected item, if the selection points at one.
    pub fn get_selected_item(&self) -> (r: Option<DisplayItem>)
        ensures
            r == self.selected_item(),
    {
        match self.file_list_state.selected() {
            Some(selected) => {
                if selected < self.filtered_files.len() {
                    let file_index = self.filtered_files[selected];
                    if file_index < self.files.len() {
                        return Some(self.files[file_index].clone());
                    }
                }
                None
            },
            None => None,
        }
    }

    /// Flips whether hidden files are shown and filters again.
    pub fn toggle_hidden_files(&mut self)
        ensures
            final(self).show_hidden_files == !old(self).show_hidden_files,
            final(self).filtered_files@ == final(self).expected_filter(),
            final(self).file_list_state.selected is None,
            final(self).files == old(self).files,
            final(self).search_input == old(self).search_input,
            final(self).is_searching == old(self).is_searching,
            final(self).current_dir == old(self).current_dir,
            final(self).dir_positions@ == old(self).dir_positions@,
            final(self).double_click_state == old(self).double_click_state,
            final(self).preview == old(self).preview,
    {
        self.show_hidden_files = !self.show_hidden_files;
        self.apply_search_filter();
    }
}

} // verus!

verus! {

/// The filter keeps exactly the items that are shown and match the search,
/// each once, in the order of the list: the filtered indices are in range,
/// strictly increasing, and an index is among them if and only if its item
/// is shown and matches.
pub proof fn law_filter_exact(files: Seq<DisplayItem>, show_hidden: bool, search: Seq<char>, n: int)
    requires
        0 <= n <= files.len() <= usize::MAX,
    ensures
        forall|k: int|
            0 <= k < visible_indices(files, show_hidden, search, n).len() ==> #[trigger] visible_indices(
                files,
                show_hidden,
                search,
                n,
            )[k] < n,
        forall|a: int, b: int|
            0 <= a < b < visible_indices(files, show_hidden, search, n).len() ==> visible_indices(
                files,
                show_hidden,
                search,
                n,
            )[a] < visible_indices(files, show_hidden, search, n)[b],
        forall|i: int|
            0 <= i < n ==> (visible_indices(files, show_hidden, search, n).contains(i as usize) <==> (
            item_shown(files[i], show_hidden) && item_matches(files[i], search))),
    decreases n,
{
    if n > 0 {
        law_filter_exact(files, show_hidden, search, n - 1);
        let p = visible_indices(files, show_hidden, search, n - 1);
        let v = visible_indices(files, show_hidden, search, n);
        let keep = item_shown(files[n - 1], show_hidden) && item_matches(files[n - 1], search);
        if keep {
            assert(v == p.push((n - 1) as usize));
        } else {
            assert(v == p);
        }
        assert forall|i: int| 0 <= i < n implies (v.contains(i as usize) <==> (item_shown(
            files[i],
            show_hidden,
        ) && item_matches(files[i], search))) by {
            if v.contains(i as usize) {
                let k = choose|k: int| 0 <= k < v.len() && v[k] == i as usize;
                if k < p.len() {
                    assert(v[k] == p[k]);
                    assert(p.contains(i as usize));
                } else {
                    assert(i == n - 1);
                }
            }
            if i < n - 1 && p.contains(i as usize) {
                let k = choose|k: int| 0 <= k < p.len() && p[k] == i as usize;
                assert(v[k] == p[k]);
            }
            if i == n - 1 && keep {
                assert(v[v.len() - 1] == i as usize);
            }
            if i == n - 1 && p.contains(i as usize) {
                let k = choose|k: int| 0 <= k < p.len() && p[k] == i as usize;
                assert(p[k] < n - 1);
            }
        }
    }
}

/// With hidden files not shown, no file whose name starts with `.` is in the
/// list; with them shown, hiding plays no part.
pub proof fn law_hidden_files(files: Seq<DisplayItem>, search: Seq<char>, i: int)
    requires
        0 <= i < files.len() <= usize::MAX,
    ensures
        files[i] matches DisplayItem::File(f) && f.name@.len() > 0 && f.name@[0] == '.'
            ==> !visible_indices(files, false, search, files.len() as int).contains(i as usize),
        visible_indices(files, true, search, files.len() as int).contains(i as usize)
            <==> item_matches(files[i], search),
{
    law_filter_exact(files, false, search, files.len() as int);
    law_filter_exact(files, true, search, files.len() as int);
}

/// A search only narrows the list: what a search keeps is kept without it.
pub proof fn law_search_narrows(files: Seq<DisplayItem>, show_hidden: bool, search: Seq<char>, i: usize)
    requires
        files.len() <= usize::MAX,
        visible_indices(files, show_hidden, search, files.len() as int).contains(i),
    ensures
        visible_indices(files, show_hidden, Seq::empty(), files.len() as int).contains(i),
{
    law_filter_exact(files, show_hidden, search, files.len() as int);
    law_filter_exact(files, show_hidden, Seq::empty(), files.len() as int);
    let v = visible_indices(files, show_hidden, search, files.len() as int);
    let k = choose|k: int| 0 <= k < v.len() && v[k] == i;
    assert(v[k] < files.len());
    let j = i as int;
    assert(v.contains(j as usize));
    assert(item_shown(files[j], show_hidden));
    assert(item_matches(files[j], Seq::empty()));
}

} // verus!

verus! {

/// Toggling hidden files twice gives back the list as it was: the setting
/// returns, and since the filter is determined by the items, the setting
/// and the search, so does the list.
pub proof fn law_toggle_twice(s0: AppState, s1: AppState, s2: AppState)
    requires
        s0.filtered_files@ == s0.expected_filter(),
        s1.show_hidden_files == !s0.show_hidden_files,
        s1.files == s0.files,
        s1.search_input == s0.search_input,
        s1.filtered_files@ == s1.expected_filter(),
        s2.show_hidden_files == !s1.show_hidden_files,
        s2.files == s1.files,
        s2.search_input == s1.search_input,
        s2.filtered_files@ == s2.expected_filter(),
    ensures
        s2.show_hidden_files == s0.show_hidden_files,
        s2.filtered_files@ == s0.filtered_files@,
{
}

} // verus!

verus! {

/// The name the list shows for an item, lowercased, holds the lowercased
/// search as a run of consecutive characters.
pub open spec fn name_holds_search(name: Seq<char>, search: Seq<char>) -> bool {
    exists|k: int|
        0 <= k && k + lowercase(search).len() <= lowercase(name).len() && #[trigger] lowercase(name).subrange(
            k,
            k + lowercase(search).len(),
        ) =~= lowercase(search)
}

/// After the search filter is applied, an entry is listed exactly when it is
/// shown (a history record always; a file unless hidden files are off and
/// its name starts with `.`) and the search is empty or occurs, ignoring
/// case, somewhere in its whole name (a file's name with its extension, or
/// the last component of a record's path).
pub proof fn law_filter_by_whole_name(s: AppState, i: int)
    requires
        s.filtered_files@ == s.expected_filter(),
        0 <= i < s.files.len(),
    ensures
        s.filtered_files@.contains(i as usize) <==> (match s.files@[i] {
            DisplayItem::File(f) => s.show_hidden_files || !(f.name@.len() > 0 && f.name@[0] == '.'),
            DisplayItem::History(_) => true,
        } && (s.search_input@.len() == 0 || name_holds_search(
            match s.files@[i] {
                DisplayItem::File(f) => f.name@,
                DisplayItem::History(h) => crate::utils::name_of_path(h.path@),
            },
            s.search_input@,
        ))),
{
    law_filter_exact(s.files@, s.show_hidden_files, s.search_input@, s.files.len() as int);
    let name = s.files@[i].display_name();
    if s.search_input@.len() != 0 {
        if contains(lowercase(name), lowercase(s.search_input@)) {
            let k = choose|k: int| crate::text::occurs_at(lowercase(name), lowercase(s.search_input@), k);
            assert(lowercase(name).subrange(k, k + lowercase(s.search_input@).len()) =~= lowercase(s.search_input@));
        }
        if name_holds_search(name, s.search_input@) {
            let k = choose|k: int|
                0 <= k && k + lowercase(s.search_input@).len() <= lowercase(name).len() && #[trigger] lowercase(
                    name,
                ).subrange(k, k + lowercase(s.search_input@).len()) =~= lowercase(s.search_input@);
            assert(crate::text::occurs_at(lowercase(name), lowercase(s.search_input@), k));
        }
    }
}

/// With hidden files off, whether a file is hidden depends on its name
/// alone: one whose name does not start with `.` is listed for an empty
/// search wherever it lies (also inside a hidden directory), and one whose
/// name starts with `.` is never listed.
pub proof fn law_hiding_by_name_only(s: AppState, i: int)
    requires
        s.filtered_files@ == s.expected_filter(),
        !s.show_hidden_files,
        0 <= i < s.files.len(),
    ensures
        s.files@[i] matches DisplayItem::File(f) && !(f.name@.len() > 0 && f.name@[0] == '.')
            && s.search_input@.len() == 0 ==> s.filtered_files@.contains(i as usize),
        s.files@[i] matches DisplayItem::File(f) && f.name@.len() > 0 && f.name@[0] == '.'
            ==> !s.filtered_files@.contains(i as usize),
{
    law_filter_exact(s.files@, s.show_hidden_files, s.search_input@, s.files.len() as int);
}

} // verus!
