//! The library's item types: shells, modes, files, history records and what
//! the list shows, and the shell integration scripts.
use vstd::prelude::*;
use crate::path::{extension, file_name, path_key, same_path, spec_extension, spec_file_name};
use crate::text::{lowercase, str_eq, to_lowercase};

verus! {

/// A shell that quickswitch can print an integration script for.
#[derive(Copy, Clone, Debug, PartialEq, Eq, Structural)]
pub enum ShellType {
    /// Bash shell
    Bash,
    /// Zsh shell
    Zsh,
    /// Fish shell
    Fish,
    /// PowerShell
    Powershell,
    /// Command Prompt (Windows)
    Cmd,
}

/// The mode the interface runs in.
#[derive(Copy, Clone, Debug, PartialEq, Eq, Structural)]
pub enum AppMode {
    /// Default navigation mode (command mode)
    Normal,
    /// History selection mode
    History,
}

/// How history entries are ordered.
#[derive(Copy, Clone, Debug, PartialEq, Eq, Structural)]
pub enum HistorySortMode {
    /// Sort by frequency only
    Frequency,
    /// Sort by last accessed time
    Recent,
    /// Sort by frequency with time decay
    FrequencyRecent,
    /// Sort alphabetically
    Alphabetical,
}

/// A point in time: whole seconds since the Unix epoch and the nanoseconds
/// past that second.
#[derive(Copy, Clone, Debug, PartialEq, Eq, Structural)]
pub struct Timestamp {
    pub secs: i64,
    pub nanos: u32,
}

/// A file or directory as the file list shows it.
#[derive(Debug)]
pub struct FileItem {
    /// The last component of `path`, or empty where the path has none.
    pub name: String,
    pub path: String,
    pub is_dir: bool,
}

impl FileItem {
    /// The same name, the same path as `Path` compares paths (by
    /// components), and the same kind.
    pub open spec fn same_as(&self, other: &FileItem) -> bool {
        &&& self.name@ == other.name@
        &&& path_key(self.path@) == path_key(other.path@)
        &&& self.is_dir == other.is_dir
    }
}

impl Clone for FileItem {
    fn clone(&self) -> (r: Self)
        ensures
            r == *self,
    {
        FileItem { name: self.name.clone(), path: self.path.clone(), is_dir: self.is_dir }
    }
}

impl PartialEq for FileItem {
    fn eq(&self, other: &Self) -> (r: bool) {
        self.name == other.name && same_path(self.path.as_str(), other.path.as_str()) && self.is_dir == other.is_dir
    }
}

impl vstd::std_specs::cmp::PartialEqSpecImpl for FileItem {
    open spec fn obeys_eq_spec() -> bool {
        true
    }

    open spec fn eq_spec(&self, other: &FileItem) -> bool {
        self.same_as(other)
    }
}


} // verus!

verus! {

/// The name a `FileItem` built from `path` carries: its last component, or
/// empty where it has none.
pub open spec fn name_of_path(path: Seq<char>) -> Seq<char> {
    match spec_file_name(path) {
        Some(n) => n,
        None => Seq::empty(),
    }
}

/// The extensions that mark an image file.
pub open spec fn is_image_extension(e: Seq<char>) -> bool {
    ||| e == "jpg"@
    ||| e == "jpeg"@
    ||| e == "png"@
    ||| e == "gif"@
    ||| e == "bmp"@
    ||| e == "webp"@
    ||| e == "tiff"@
    ||| e == "tif"@
    ||| e == "svg"@
    ||| e == "ico"@
    ||| e == "avif"@
}

/// The lowercased extension of a path, where it has one.
pub open spec fn lower_extension(path: Seq<char>) -> Option<Seq<char>> {
    match spec_extension(path) {
        Some(e) => Some(lowercase(e)),
        None => None,
    }
}

impl FileItem {
    /// The item for `path`; `is_dir` is what the filesystem says of it.
    pub fn from_path(path: &str, is_dir: bool) -> (r: FileItem)
        ensures
            r.name@ == name_of_path(path@),
            r.path@ == path@,
            r.is_dir == is_dir,
    {
        let name = match file_name(path) {
            Some(n) => n,
            None => String::new(),
        };
        FileItem { name, path: path.to_owned(), is_dir }
    }

    /// Whether the item is an image, judged by its extension.
    pub fn is_image(&self) -> (r: bool)
        ensures
            r == (!self.is_dir && (lower_extension(self.path@) matches Some(e) && is_image_extension(e))),
    {
        if self.is_dir {
            return false;
        }
        match extension(self.path.as_str()) {
            None => false,
            Some(e) => {
                let l = to_lowercase(e.as_str());
                let l = l.as_str();
                str_eq(l, "jpg") || str_eq(l, "jpeg") || str_eq(l, "png") || str_eq(l, "gif")
                    || str_eq(l, "bmp") || str_eq(l, "webp") || str_eq(l, "tiff") || str_eq(l, "tif")
                    || str_eq(l, "svg") || str_eq(l, "ico") || str_eq(l, "avif")
            },
        }
    }

    /// Whether the item is a PDF document, judged by its extension.
    pub fn is_pdf(&self) -> (r: bool)
        ensures
            r == (!self.is_dir && (lower_extension(self.path@) matches Some(e) && e == "pdf"@)),
    {
        if self.is_dir {
            return false;
        }
        match extension(self.path.as_str()) {
            None => false,
            Some(e) => {
                let l = to_lowercase(e.as_str());
                str_eq(l.as_str(), "pdf")
            },
        }
    }
}

} // verus!

verus! {

/// A directory that was switched to, with how often and when.
#[derive(Debug)]
pub struct HistoryEntry {
    pub path: String,
    pub frequency: u32,
    pub last_accessed: Timestamp,
    pub first_accessed: Timestamp,
}

impl Clone for HistoryEntry {
    fn clone(&self) -> (r: Self)
        ensures
            r == *self,
    {
        HistoryEntry {
            path: self.path.clone(),
            frequency: self.frequency,
            last_accessed: self.last_accessed,
            first_accessed: self.first_accessed,
        }
    }
}

impl HistoryEntry {
    /// A first visit to `path` at time `now`.
    pub fn new(path: String, now: Timestamp) -> (r: HistoryEntry)
        ensures
            r.path == path,
            r.frequency == 1,
            r.last_accessed == now,
            r.first_accessed == now,
    {
        HistoryEntry { path, frequency: 1, last_accessed: now, first_accessed: now }
    }

    /// Records one more visit, at time `now`.
    pub fn increment_frequency(&mut self, now: Timestamp)
        requires
            old(self).frequency < u32::MAX,
        ensures
            final(self).frequency == old(self).frequency + 1,
            final(self).path == old(self).path,
            final(self).first_accessed == old(self).first_accessed,
            final(self).last_accessed == now,
    {
        self.frequency = self.frequency + 1;
        self.last_accessed = now;
    }
}

/// A record after one more visit at `now`: its count goes up by one (and
/// stays at its ceiling once there), and the visit time is `now`.
pub open spec fn visited(e: HistoryEntry, now: Timestamp) -> HistoryEntry {
    HistoryEntry {
        frequency: if e.frequency < u32::MAX {
            (e.frequency + 1) as u32
        } else {
            e.frequency
        },
        last_accessed: now,
        ..e
    }
}

/// `s`, or its first `max` records where it is longer.
pub open spec fn capped(s: Seq<HistoryEntry>, max: int) -> Seq<HistoryEntry> {
    if s.len() <= max {
        s
    } else {
        s.take(max)
    }
}

/// Records a visit to `path` at `now`, keeping at most `max_entries`
/// records. The first record of the same path (compared as `Path` compares
/// paths) is counted again and moved to the top; otherwise a new record
/// goes on top. Records beyond `max_entries` are dropped from the bottom.
/// Returns where the record counted again was, if there was one.
pub fn record_visit(entries: &mut Vec<HistoryEntry>, path: String, now: Timestamp, max_entries: usize) -> (r: Option<usize>)
    ensures
        match r {
            Some(i) => {
                &&& i < old(entries).len()
                &&& path_key(old(entries)@[i as int].path@) == path_key(path@)
                &&& forall|j: int| 0 <= j < i ==> path_key(#[trigger] old(entries)@[j].path@) != path_key(path@)
                &&& final(entries)@ == capped(
                    seq![visited(old(entries)@[i as int], now)] + old(entries)@.remove(i as int),
                    max_entries as int,
                )
            },
            None => {
                &&& forall|j: int| 0 <= j < old(entries).len() ==> path_key(#[trigger] old(entries)@[j].path@) != path_key(path@)
                &&& final(entries)@ == capped(
                    seq![HistoryEntry { path, frequency: 1, last_accessed: now, first_accessed: now }] + old(entries)@,
                    max_entries as int,
                )
            },
        },
{
    let mut i: usize = 0;
    let mut found: Option<usize> = None;
    while found.is_none() && i < entries.len()
        invariant
            i <= entries.len(),
            entries@ == old(entries)@,
            forall|j: int| 0 <= j < i ==> path_key(#[trigger] entries@[j].path@) != path_key(path@),
            found matches Some(k) ==> k == i && i < entries.len() && path_key(entries@[k as int].path@)
                == path_key(path@),
        decreases entries.len() - i + (if found is None {
            1int
        } else {
            0int
        }),
    {
        if same_path(entries[i].path.as_str(), path.as_str()) {
            found = Some(i);
        } else {
            i += 1;
        }
    }
    match found {
        Some(i) => {
            let mut e = entries.remove(i);
            if e.frequency < u32::MAX {
                e.increment_frequency(now);
            } else {
                e.last_accessed = now;
            }
            entries.insert(0, e);
        },
        None => {
            entries.insert(0, HistoryEntry::new(path, now));
        },
    }
    let ghost before = entries@;
    entries.truncate(max_entries);
    proof {
        if before.len() <= max_entries {
            assert(before.subrange(0, before.len() as int) =~= before);
        }
    }
    found
}

/// An entry of the left-hand list: a file of the current directory or a
/// history record.
#[derive(Debug)]
pub enum DisplayItem {
    File(FileItem),
    History(HistoryEntry),
}

impl Clone for DisplayItem {
    fn clone(&self) -> (r: Self)
        ensures
            r == *self,
    {
        match self {
            DisplayItem::File(f) => DisplayItem::File(f.clone()),
            DisplayItem::History(h) => DisplayItem::History(h.clone()),
        }
    }
}

impl DisplayItem {
    /// The name the list shows for an item.
    pub open spec fn display_name(&self) -> Seq<char> {
        match self {
            DisplayItem::File(f) => f.name@,
            DisplayItem::History(h) => name_of_path(h.path@),
        }
    }

    /// The path an item stands for.
    pub open spec fn path_of(&self) -> Seq<char> {
        match self {
            DisplayItem::File(f) => f.path@,
            DisplayItem::History(h) => h.path@,
        }
    }

    pub fn get_display_name(&self) -> (r: String)
        ensures
            r@ == self.display_name(),
    {
        match self {
            DisplayItem::File(file) => file.name.clone(),
            DisplayItem::History(entry) => match file_name(entry.path.as_str()) {
                Some(n) => n,
                None => String::new(),
            },
        }
    }

    pub fn get_path(&self) -> (r: &String)
        ensures
            r@ == self.path_of(),
    {
        match self {
            DisplayItem::File(file) => &file.path,
            DisplayItem::History(entry) => &entry.path,
        }
    }

    /// Whether the item is a directory. A file knows; for a history record
    /// the filesystem is asked about its path, and `history_path_is_dir` is
    /// what it said.
    pub fn is_directory(&self, history_path_is_dir: bool) -> (r: bool)
        ensures
            r == match self {
                DisplayItem::File(f) => f.is_dir,
                DisplayItem::History(_) => history_path_is_dir,
            },
    {
        match self {
            DisplayItem::File(file) => file.is_dir,
            DisplayItem::History(_) => history_path_is_dir,
        }
    }
}

/// The integration script for Bash and Zsh.
pub const BASH_ZSH_INIT: &'static str = r#"
qs() {
    local dir
    dir=$(quickswitch 2>&1 >/dev/tty | tail -n 1)
    if [ -d "$dir" ]; then
        cd "$dir"
    fi
}

qshs() {
    local dir
    dir=$(quickswitch --mode history 2>&1 >/dev/tty | tail -n 1)
    if [ -d "$dir" ]; then
        cd "$dir"
    fi
}
    "#;

/// The integration script for Fish.
pub const FISH_INIT: &'static str = r#"
function qs
    set -l result (quickswitch 2>&1 >/dev/tty)

    if [ -n "$result" ]
        cd -- $result

        # Remove last token from commandline.
        commandline -t ""
        commandline -it -- $prefix
    end

    commandline -f repaint
end

function qshs
    set -l result (quickswitch --mode history 2>&1 >/dev/tty)

    if [ -n "$result" ]
        cd -- $result

        # Remove last token from commandline.
        commandline -t ""
        commandline -it -- $prefix
    end

    commandline -f repaint
end
    "#;

/// The integration script for PowerShell.
pub const POWERSHELL_INIT: &'static str = r#"
function qs {
    $errorFile = [System.IO.Path]::GetTempFileName()
    Start-Process -FilePath "quickswitch.exe" -NoNewWindow -Wait -RedirectStandardError $errorFile
    $errorOutput = Get-Content -Path $errorFile -Encoding UTF8
    Remove-Item $errorFile
    if ($errorOutput -and (Test-Path $errorOutput)) {
        cd $errorOutput
    }
}

function qshs {
    $errorFile = [System.IO.Path]::GetTempFileName()
    Start-Process -FilePath "quickswitch.exe" -NoNewWindow -Wait -RedirectStandardError $errorFile -ArgumentList "--mode history"
    $errorOutput = Get-Content -Path $errorFile -Encoding UTF8
    Remove-Item $errorFile
    if ($errorOutput -and (Test-Path $errorOutput)) {
        cd $errorOutput
    }
}
    "#;

/// The script printed for a shell other than Command Prompt, which has none.
pub open spec fn init_script(shell: ShellType) -> Seq<char> {
    match shell {
        ShellType::Bash | ShellType::Zsh => BASH_ZSH_INIT@,
        ShellType::Fish => FISH_INIT@,
        ShellType::Powershell => POWERSHELL_INIT@,
        ShellType::Cmd => Seq::empty(),
    }
}

pub fn qs_init_bash_zsh() -> (r: String)
    ensures
        r@ == BASH_ZSH_INIT@,
{
    BASH_ZSH_INIT.to_owned()
}

pub fn qs_init_fish() -> (r: String)
    ensures
        r@ == FISH_INIT@,
{
    FISH_INIT.to_owned()
}

pub fn qs_init_powershell() -> (r: String)
    ensures
        r@ == POWERSHELL_INIT@,
{
    POWERSHELL_INIT.to_owned()
}

/// The integration script to print for `shell`. Command Prompt has no
/// integration; asking for it is not supported.
pub fn qs_init(shell: ShellType) -> (r: String)
    requires
        shell != ShellType::Cmd,
    ensures
        r@ == init_script(shell),
{
    match shell {
        ShellType::Bash => qs_init_bash_zsh(),
        ShellType::Zsh => qs_init_bash_zsh(),
        ShellType::Fish => qs_init_fish(),
        _ => qs_init_powershell(),
    }
}

} // verus!
