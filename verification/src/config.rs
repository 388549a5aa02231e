//! Configuration: where quickswitch keeps its data, and how history is kept.
use vstd::prelude::*;
use crate::path::{join, spec_join};
use crate::text::chars_of;
use crate::utils::HistorySortMode;

verus! {

/// A whitespace character, as `char::is_whitespace` classifies it: the
/// Unicode `White_Space` property.
pub open spec fn is_whitespace(c: char) -> bool {
    let u = c as u32;
    ||| 0x09 <= u <= 0x0d
    ||| u == 0x20
    ||| u == 0x85
    ||| u == 0xa0
    ||| u == 0x1680
    ||| 0x2000 <= u <= 0x200a
    ||| u == 0x2028
    ||| u == 0x2029
    ||| u == 0x202f
    ||| u == 0x205f
    ||| u == 0x3000
}

/// A string that `str::trim` leaves empty: whitespace only.
pub open spec fn is_blank(s: Seq<char>) -> bool {
    forall|i: int| 0 <= i < s.len() ==> is_whitespace(#[trigger] s[i])
}

fn whitespace(c: char) -> (r: bool)
    ensures
        r == is_whitespace(c),
{
    let u = c as u32;
    (0x09 <= u && u <= 0x0d) || u == 0x20 || u == 0x85 || u == 0xa0 || u == 0x1680 || (0x2000 <= u
        && u <= 0x200a) || u == 0x2028 || u == 0x2029 || u == 0x202f || u == 0x205f || u == 0x3000
}

/// Whether a string is whitespace only.
pub fn is_blank_str(s: &str) -> (r: bool)
    ensures
        r == is_blank(s@),
{
    let v = chars_of(s);
    let mut i: usize = 0;
    while i < v.len()
        invariant
            v@ == s@,
            i <= v.len(),
            forall|j: int| 0 <= j < i ==> is_whitespace(#[trigger] v@[j]),
        decreases v.len() - i,
    {
        if !whitespace(v[i]) {
            return false;
        }
        i += 1;
    }
    true
}

/// The default data directory on Unix-like systems: `~/.local/share/quickswitch`,
/// else under `$XDG_DATA_HOME`, else under the temporary directory.
pub open spec fn default_data_dir(home: Option<Seq<char>>, xdg_data_home: Option<Seq<char>>, temp_dir: Seq<char>) -> Seq<char> {
    match home {
        Some(h) => spec_join(spec_join(spec_join(h, ".local"@), "share"@), "quickswitch"@),
        None => match xdg_data_home {
            Some(x) => spec_join(x, "quickswitch"@),
            None => spec_join(temp_dir, "quickswitch"@),
        },
    }
}

/// The data directory: `_QUICKSWITCH_DATA_DIR` where it is set and not
/// blank, else the default.
pub open spec fn data_dir(
    env_dir: Option<Seq<char>>,
    home: Option<Seq<char>>,
    xdg_data_home: Option<Seq<char>>,
    temp_dir: Seq<char>,
) -> Seq<char> {
    match env_dir {
        Some(d) => if !is_blank(d) {
            d
        } else {
            default_data_dir(home, xdg_data_home, temp_dir)
        },
        None => default_data_dir(home, xdg_data_home, temp_dir),
    }
}

/// The default data directory on Unix-like systems, from the values of
/// `HOME` and `XDG_DATA_HOME` (where set) and the temporary directory.
pub fn get_default_data_dir(home: Option<&str>, xdg_data_home: Option<&str>, temp_dir: &str) -> (r: String)
    ensures
        r@ == default_data_dir(
            match home {
                Some(s) => Some(s@),
                None => None,
            },
            match xdg_data_home {
                Some(s) => Some(s@),
                None => None,
            },
            temp_dir@,
        ),
{
    proof {
        reveal_strlit(".local");
        reveal_strlit("share");
        reveal_strlit("quickswitch");
    }
    match home {
        Some(h) => {
            let a = join(h, ".local");
            let b = join(a.as_str(), "share");
            join(b.as_str(), "quickswitch")
        },
        None => match xdg_data_home {
            Some(x) => join(x, "quickswitch"),
            None => join(temp_dir, "quickswitch"),
        },
    }
}

/// The data directory, from the value of `_QUICKSWITCH_DATA_DIR` (where set)
/// and what the default is made of.
pub fn get_data_dir(env_dir: Option<&str>, home: Option<&str>, xdg_data_home: Option<&str>, temp_dir: &str) -> (r: String)
    ensures
        r@ == data_dir(
            match env_dir {
                Some(s) => Some(s@),
                None => None,
            },
            match home {
                Some(s) => Some(s@),
                None => None,
            },
            match xdg_data_home {
                Some(s) => Some(s@),
                None => None,
            },
            temp_dir@,
        ),
{
    if let Some(d) = env_dir {
        if !is_blank_str(d) {
            return d.to_owned();
        }
    }
    get_default_data_dir(home, xdg_data_home, temp_dir)
}

/// Where the data directory lies on Windows: the directory given by
/// `_QUICKSWITCH_DATA_DIR`, or a `quickswitch` directory under a base, to be
/// joined by Windows path rules.
#[derive(Debug)]
pub enum WindowsDataDir {
    Given(String),
    Under(String),
}

/// The Windows data directory, from the value of `_QUICKSWITCH_DATA_DIR`
/// (where set), `%APPDATA%` (where set) and the temporary directory: the
/// given directory where it is not blank, else `quickswitch` under
/// `%APPDATA%`, else under the temporary directory.
pub fn windows_data_dir(env_dir: Option<&str>, appdata: Option<&str>, temp_dir: &str) -> (r: WindowsDataDir)
    ensures
        match env_dir {
            Some(d) if !is_blank(d@) => r matches WindowsDataDir::Given(g) && g@ == d@,
            _ => r matches WindowsDataDir::Under(b) && b@ == match appdata {
                Some(a) => a@,
                None => temp_dir@,
            },
        },
{
    if let Some(d) = env_dir {
        if !is_blank_str(d) {
            return WindowsDataDir::Given(d.to_owned());
        }
    }
    match appdata {
        Some(a) => WindowsDataDir::Under(a.to_owned()),
        None => WindowsDataDir::Under(temp_dir.to_owned()),
    }
}

/// Configuration for history functionality
#[derive(Debug)]
pub struct HistoryConfig {
    /// Maximum number of history entries to keep
    pub max_entries: usize,
    /// Sort mode for history entries
    pub sort_mode: HistorySortMode,
    /// Number of days for time decay calculation
    pub time_decay_days: u32,
    /// Minimum frequency threshold for keeping entries
    pub min_frequency_threshold: u32,
}

impl Default for HistoryConfig {
    fn default() -> (r: Self)
        ensures
            r.max_entries == 100,
            r.sort_mode == HistorySortMode::FrequencyRecent,
            r.time_decay_days == 30,
            r.min_frequency_threshold == 1,
    {
        HistoryConfig {
            max_entries: 100,
            sort_mode: HistorySortMode::FrequencyRecent,
            time_decay_days: 30,
            min_frequency_threshold: 1,
        }
    }
}

/// Get the history configuration
pub fn get_history_config() -> (r: HistoryConfig)
    ensures
        r.max_entries == 100,
        r.sort_mode == HistorySortMode::FrequencyRecent,
        r.time_decay_days == 30,
        r.min_frequency_threshold == 1,
{
    HistoryConfig::default()
}

} // verus!
