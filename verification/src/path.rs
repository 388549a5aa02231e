//! Unix path arithmetic on strings: the last component of a path, its
//! extension, its parent, and joining a relative name onto a directory.
//!
//! Paths are read as a root (`/`) or a leading `.`, then components split by
//! `/`; empty components and `.` after the start do not count.
use vstd::prelude::*;
use crate::text::{chars_of, string_of_range};

verus! {

pub open spec fn has_root(s: Seq<char>) -> bool {
    s.len() > 0 && s[0] == '/'
}

/// The path starts with a `.` component (`.` alone or `./...`).
pub open spec fn starts_with_cur_dir(s: Seq<char>) -> bool {
    &&& !has_root(s)
    &&& s.len() > 0
    &&& s[0] == '.'
    &&& (s.len() == 1 || s[1] == '/')
}

/// Where the components after the root or the leading `.` begin.
pub open spec fn body_start(s: Seq<char>) -> int {
    if has_root(s) || starts_with_cur_dir(s) {
        1
    } else {
        0
    }
}

/// The last `/` in `s[lo..hi]`, or `lo - 1` where there is none.
pub open spec fn last_sep(s: Seq<char>, lo: int, hi: int) -> int
    decreases hi - lo,
{
    if hi <= lo {
        lo - 1
    } else if s[hi - 1] == '/' {
        hi - 1
    } else {
        last_sep(s, lo, hi - 1)
    }
}

/// Where the last component of `s[..hi]` starts, for a body starting at `lo`.
pub open spec fn component_start(s: Seq<char>, lo: int, hi: int) -> int {
    let k = last_sep(s, lo, hi);
    if k >= lo {
        k + 1
    } else {
        lo
    }
}

/// A component that does not count: empty, or `.`.
pub open spec fn is_skipped(c: Seq<char>) -> bool {
    c.len() == 0 || c =~= seq!['.']
}

/// The end of `s[..hi]` once trailing separators and `.` components are
/// dropped, never going below `lo`.
pub open spec fn trim_back(s: Seq<char>, lo: int, hi: int) -> int
    decreases hi - lo,
{
    if hi <= lo {
        hi
    } else {
        let k = last_sep(s, lo, hi);
        let a = component_start(s, lo, hi);
        if !is_skipped(s.subrange(a, hi)) {
            hi
        } else if k >= lo {
            proof {
                lemma_last_sep_below(s, lo, hi);
            }
            trim_back(s, lo, k)
        } else {
            trim_back(s, lo, lo)
        }
    }
}

/// The last component of a path, unless it is `..` or the path has none.
pub open spec fn spec_file_name(s: Seq<char>) -> Option<Seq<char>> {
    let lo = body_start(s);
    let h = trim_back(s, lo, s.len() as int);
    if h > lo {
        let c = s.subrange(component_start(s, lo, h), h);
        if c =~= seq!['.', '.'] {
            None
        } else {
            Some(c)
        }
    } else {
        None
    }
}

/// The path without its last component; `None` for the root and the empty path.
pub open spec fn spec_parent(s: Seq<char>) -> Option<Seq<char>> {
    let lo = body_start(s);
    let h = trim_back(s, lo, s.len() as int);
    if h > lo {
        let k = last_sep(s, lo, h);
        let rest = if k >= lo {
            k
        } else {
            lo
        };
        Some(s.take(trim_back(s, lo, rest)))
    } else if starts_with_cur_dir(s) {
        Some(Seq::empty())
    } else {
        None
    }
}

pub proof fn lemma_last_sep_below(s: Seq<char>, lo: int, hi: int)
    ensures
        hi > lo ==> last_sep(s, lo, hi) < hi,
    decreases hi - lo,
{
    reveal_with_fuel(last_sep, 2);
    if hi > lo && s[hi - 1] != '/' {
        lemma_last_sep_below(s, lo, hi - 1);
    }
}

proof fn lemma_last_sep_bounds(s: Seq<char>, lo: int, hi: int)
    requires
        0 <= lo,
        hi <= s.len(),
    ensures
        lo - 1 <= last_sep(s, lo, hi) < hi || (hi <= lo && last_sep(s, lo, hi) == lo - 1),
        last_sep(s, lo, hi) >= lo ==> s[last_sep(s, lo, hi)] == '/',
        forall|j: int| last_sep(s, lo, hi) < j < hi && lo <= j ==> s[j] != '/',
    decreases hi - lo,
{
    if hi > lo && s[hi - 1] != '/' {
        lemma_last_sep_bounds(s, lo, hi - 1);
    }
}

proof fn lemma_trim_back_bounds(s: Seq<char>, lo: int, hi: int)
    requires
        0 <= lo <= hi <= s.len(),
    ensures
        lo <= trim_back(s, lo, hi) <= hi,
    decreases hi - lo,
{
    if hi > lo {
        lemma_last_sep_bounds(s, lo, hi);
        let k = last_sep(s, lo, hi);
        if k >= lo {
            lemma_trim_back_bounds(s, lo, k);
        } else {
            lemma_trim_back_bounds(s, lo, lo);
        }
    }
}

fn body_start_of(v: &Vec<char>) -> (r: usize)
    ensures
        r == body_start(v@),
{
    if v.len() > 0 && v[0] == '/' {
        1
    } else if v.len() > 0 && v[0] == '.' && (v.len() == 1 || v[1] == '/') {
        1
    } else {
        0
    }
}

fn last_sep_exec(v: &Vec<char>, lo: usize, hi: usize) -> (r: Option<usize>)
    requires
        lo <= hi <= v.len(),
    ensures
        match r {
            Some(k) => k == last_sep(v@, lo as int, hi as int) && lo <= k < hi,
            None => last_sep(v@, lo as int, hi as int) == lo - 1,
        },
{
    let mut j = hi;
    while j > lo
        invariant
            lo <= j <= hi <= v.len(),
            last_sep(v@, lo as int, hi as int) == last_sep(v@, lo as int, j as int),
        decreases j,
    {
        if v[j - 1] == '/' {
            return Some(j - 1);
        }
        j -= 1;
    }
    None
}

fn is_skipped_range(v: &Vec<char>, a: usize, b: usize) -> (r: bool)
    requires
        a <= b <= v.len(),
    ensures
        r == is_skipped(v@.subrange(a as int, b as int)),
{
    if a == b {
        true
    } else if b - a == 1 && v[a] == '.' {
        assert(v@.subrange(a as int, b as int) =~= seq!['.']);
        true
    } else {
        assert(b - a != 1 ==> v@.subrange(a as int, b as int).len() != 1);
        assert(b - a == 1 ==> v@.subrange(a as int, b as int)[0] != '.');
        false
    }
}

fn trim_back_exec(v: &Vec<char>, lo: usize, hi: usize) -> (r: usize)
    requires
        lo <= hi <= v.len(),
    ensures
        r == trim_back(v@, lo as int, hi as int),
        lo <= r <= hi,
{
    let mut h = hi;
    proof {
        lemma_trim_back_bounds(v@, lo as int, hi as int);
    }
    while h > lo
        invariant
            lo <= h <= hi <= v.len(),
            trim_back(v@, lo as int, hi as int) == trim_back(v@, lo as int, h as int),
        decreases h,
    {
        let k = last_sep_exec(v, lo, h);
        let a = match k {
            Some(k) => k + 1,
            None => lo,
        };
        if !is_skipped_range(v, a, h) {
            return h;
        }
        h = match k {
            Some(k) => k,
            None => lo,
        };
    }
    h
}

fn range_is_dot_dot(v: &Vec<char>, a: usize, b: usize) -> (r: bool)
    requires
        a <= b <= v.len(),
    ensures
        r == (v@.subrange(a as int, b as int) =~= seq!['.', '.']),
{
    if b - a == 2 && v[a] == '.' && v[a + 1] == '.' {
        assert(v@.subrange(a as int, b as int) =~= seq!['.', '.']);
        true
    } else {
        assert(b - a == 2 ==> v@.subrange(a as int, b as int)[0] == v@[a as int]);
        assert(b - a == 2 ==> v@.subrange(a as int, b as int)[1] == v@[a + 1]);
        false
    }
}

/// The last component of `path`, as `Path::file_name` reads it on Unix.
pub fn file_name(path: &str) -> (r: Option<String>)
    ensures
        match r {
            Some(n) => spec_file_name(path@) == Some(n@),
            None => spec_file_name(path@) is None,
        },
{
    let v = chars_of(path);
    let lo = body_start_of(&v);
    let h = trim_back_exec(&v, lo, v.len());
    if h > lo {
        let k = last_sep_exec(&v, lo, h);
        assert(component_start(v@, lo as int, h as int) == match k { Some(k) => k + 1, None => lo as int });
        let a = match k {
            Some(k) => k + 1,
            None => lo,
        };
        if range_is_dot_dot(&v, a, h) {
            None
        } else {
            Some(string_of_range(&v, a, h))
        }
    } else {
        None
    }
}

/// The path without its last component, as `Path::parent` reads it on Unix.
pub fn parent(path: &str) -> (r: Option<String>)
    ensures
        match r {
            Some(p) => spec_parent(path@) == Some(p@),
            None => spec_parent(path@) is None,
        },
{
    let v = chars_of(path);
    let lo = body_start_of(&v);
    let h = trim_back_exec(&v, lo, v.len());
    if h > lo {
        let k = last_sep_exec(&v, lo, h);
        let rest = match k {
            Some(k) => k,
            None => lo,
        };
        proof {
            lemma_last_sep_bounds(v@, lo as int, h as int);
        }
        let e = trim_back_exec(&v, lo, rest);
        Some(string_of_range(&v, 0, e))
    } else if v.len() > 0 && v[0] == '.' && (v.len() == 1 || v[1] == '/') {
        Some(String::new())
    } else {
        None
    }
}

} // verus!

verus! {

/// The last `.` in `f`, if any.
pub open spec fn last_dot(f: Seq<char>) -> Option<int>
    decreases f.len(),
{
    if f.len() == 0 {
        None
    } else if f.last() == '.' {
        Some(f.len() - 1)
    } else {
        last_dot(f.drop_last())
    }
}

/// What follows the last `.` of a file name, where that `.` is not its first
/// character.
pub open spec fn name_extension(f: Seq<char>) -> Option<Seq<char>> {
    match last_dot(f) {
        Some(d) => if d > 0 {
            Some(f.skip(d + 1))
        } else {
            None
        },
        None => None,
    }
}

/// The extension of a path, as `Path::extension` reads it on Unix.
pub open spec fn spec_extension(s: Seq<char>) -> Option<Seq<char>> {
    match spec_file_name(s) {
        Some(f) => name_extension(f),
        None => None,
    }
}


/// The extension of `path`, as `Path::extension` reads it on Unix.
pub fn extension(path: &str) -> (r: Option<String>)
    ensures
        match r {
            Some(e) => spec_extension(path@) == Some(e@),
            None => spec_extension(path@) is None,
        },
{
    match file_name(path) {
        None => None,
        Some(f) => {
            let v = chars_of(f.as_str());
            let mut j = v.len();
            assert(v@.take(j as int) =~= v@);
            while j > 0
                invariant
                    j <= v.len(),
                    v@ == f@,
                    spec_file_name(path@) == Some(f@),
                    last_dot(v@) == last_dot(v@.take(j as int)),
                decreases j,
            {
                assert(v@.take(j as int).drop_last() =~= v@.take(j - 1));
                if v[j - 1] == '.' {
                    if j - 1 > 0 {
                        assert(v@.skip(j as int) =~= v@.subrange(j as int, v.len() as int));
                        return Some(string_of_range(&v, j, v.len()));
                    } else {
                        return None;
                    }
                }
                j -= 1;
            }
            None
        },
    }
}

/// `base` joined with a relative `name`, as `Path::join` does on Unix: a `/`
/// goes between them unless `base` is empty or already ends with one.
pub open spec fn spec_join(base: Seq<char>, name: Seq<char>) -> Seq<char> {
    if base.len() == 0 || base.last() == '/' {
        base + name
    } else {
        base + seq!['/'] + name
    }
}

/// `base` joined with a relative `name` (one that does not start with `/`).
pub fn join(base: &str, name: &str) -> (r: String)
    requires
        !has_root(name@),
    ensures
        r@ == spec_join(base@, name@),
{
    let v = chars_of(base);
    let mut r = base.to_owned();
    if v.len() > 0 && v[v.len() - 1] != '/' {
        crate::text::push_char(&mut r, '/');
    }
    crate::text::push_str(&mut r, name);
    r
}

} // verus!

verus! {

/// A plain file name: not empty, without `/`, and neither `.` nor `..`.
pub open spec fn is_plain_name(n: Seq<char>) -> bool {
    &&& n.len() > 0
    &&& forall|i: int| 0 <= i < n.len() ==> n[i] != '/'
    &&& !(n =~= seq!['.'])
    &&& !(n =~= seq!['.', '.'])
}

proof fn lemma_last_sep_skip(s: Seq<char>, lo: int, m: int, hi: int)
    requires
        lo <= m <= hi <= s.len(),
        0 <= lo,
        forall|j: int| m <= j < hi ==> s[j] != '/',
    ensures
        last_sep(s, lo, hi) == last_sep(s, lo, m),
    decreases hi - m,
{
    if hi > m {
        lemma_last_sep_skip(s, lo, m, hi - 1);
    }
}

/// Joining a plain name onto a directory and taking the last component
/// gives the name back.
pub proof fn law_file_name_of_join(dir: Seq<char>, name: Seq<char>)
    requires
        is_plain_name(name),
    ensures
        spec_file_name(spec_join(dir, name)) == Some(name),
{
    let s = spec_join(dir, name);
    let prefix = if dir.len() == 0 || dir.last() == '/' {
        dir
    } else {
        dir + seq!['/']
    };
    assert(s =~= prefix + name);
    let m = prefix.len() as int;
    let lo = body_start(s);
    assert(forall|j: int| m <= j < s.len() ==> s[j] == name[j - m]);
    if m == 0 {
        assert(s =~= name);
        assert(!starts_with_cur_dir(s));
        assert(lo == 0);
    }
    assert(lo <= m);
    lemma_last_sep_skip(s, lo, m, s.len() as int);
    if m >= 1 {
        assert(s[m - 1] == '/');
        if m - 1 >= lo {
            assert(last_sep(s, lo, m) == m - 1);
        } else {
            assert(m == lo);
        }
    }
    reveal_with_fuel(last_sep, 2);
    assert(component_start(s, lo, s.len() as int) == m);
    assert(s.subrange(m, s.len() as int) =~= name);
    assert(!is_skipped(s.subrange(m, s.len() as int)));
    assert(trim_back(s, lo, s.len() as int) == s.len());
}

} // verus!

verus! {

proof fn lemma_last_sep_prefix(s: Seq<char>, t: Seq<char>, lo: int, hi: int)
    requires
        0 <= lo,
        hi <= s.len(),
        hi <= t.len(),
        forall|j: int| 0 <= j < hi ==> s[j] == t[j],
    ensures
        last_sep(s, lo, hi) == last_sep(t, lo, hi),
    decreases hi - lo,
{
    if hi > lo {
        lemma_last_sep_prefix(s, t, lo, hi - 1);
    }
}

proof fn lemma_trim_back_prefix(s: Seq<char>, t: Seq<char>, lo: int, hi: int)
    requires
        0 <= lo <= hi,
        hi <= s.len(),
        hi <= t.len(),
        forall|j: int| 0 <= j < hi ==> s[j] == t[j],
    ensures
        trim_back(s, lo, hi) == trim_back(t, lo, hi),
    decreases hi - lo,
{
    if hi > lo {
        lemma_last_sep_prefix(s, t, lo, hi);
        lemma_last_sep_bounds(s, lo, hi);
        let k = last_sep(s, lo, hi);
        let a = component_start(s, lo, hi);
        assert(s.subrange(a, hi) =~= t.subrange(a, hi));
        if k >= lo {
            lemma_trim_back_prefix(s, t, lo, k);
        } else {
            lemma_trim_back_prefix(s, t, lo, lo);
        }
    }
}

/// A directory path that ends in a real component (or is the root or
/// empty): no trailing `/` or `.` to drop.
pub open spec fn is_clean_dir(d: Seq<char>) -> bool {
    trim_back(d, body_start(d), d.len() as int) == d.len()
}

/// The parent of a plain name joined onto a clean directory is that
/// directory: moving into an entry of a directory and back up returns to it.
pub proof fn law_parent_of_join(dir: Seq<char>, name: Seq<char>)
    requires
        is_plain_name(name),
        is_clean_dir(dir),
    ensures
        spec_parent(spec_join(dir, name)) == Some(dir),
{
    let s = spec_join(dir, name);
    let prefix = if dir.len() == 0 || dir.last() == '/' {
        dir
    } else {
        dir + seq!['/']
    };
    assert(s =~= prefix + name);
    let m = prefix.len() as int;
    let lo = body_start(s);
    assert(forall|j: int| m <= j < s.len() ==> s[j] == name[j - m]);
    if m == 0 {
        assert(s =~= name);
        assert(!starts_with_cur_dir(s));
        assert(lo == 0);
    }
    assert(lo <= m);
    lemma_last_sep_skip(s, lo, m, s.len() as int);
    if m >= 1 {
        assert(s[m - 1] == '/');
        if m - 1 >= lo {
            assert(last_sep(s, lo, m) == m - 1);
        } else {
            assert(m == lo);
        }
    }
    reveal_with_fuel(last_sep, 2);
    assert(component_start(s, lo, s.len() as int) == m);
    assert(s.subrange(m, s.len() as int) =~= name);
    assert(!is_skipped(s.subrange(m, s.len() as int)));
    assert(trim_back(s, lo, s.len() as int) == s.len());
    lemma_trim_back_bounds(dir, body_start(dir), dir.len() as int);
    if dir.len() == 0 {
        reveal_with_fuel(trim_back, 2);
        assert(s.take(0) =~= dir);
    } else if dir.last() == '/' {
        // The only clean directory ending in `/` is the root.
        let dl = body_start(dir);
        if dir.len() > dl {
            assert(last_sep(dir, dl, dir.len() as int) == dir.len() - 1);
            assert(component_start(dir, dl, dir.len() as int) == dir.len());
            assert(is_skipped(dir.subrange(dir.len() as int, dir.len() as int)));
            lemma_trim_back_bounds(dir, dl, dir.len() - 1);
            assert(trim_back(dir, dl, dir.len() as int) == trim_back(dir, dl, dir.len() - 1));
            assert(false);
        }
        assert(dir.len() == 1 && dir[0] == '/');
        assert(lo == 1);
        assert(m == 1);
        assert(s.take(1) =~= dir);
    } else {
        assert(has_root(s) == has_root(dir));
        assert(starts_with_cur_dir(s) == starts_with_cur_dir(dir));
        assert(lo == body_start(dir));
        assert(m - 1 == dir.len());
        lemma_trim_back_prefix(s, dir, lo, dir.len() as int);
        assert(s.take(dir.len() as int) =~= dir);
    }
}

} // verus!

verus! {

/// The components of `s[lo..hi]` that count, in order: the pieces between
/// `/` separators, leaving out empty pieces and `.`.
pub open spec fn components(s: Seq<char>, lo: int, hi: int) -> Seq<Seq<char>>
    decreases hi - lo,
{
    if hi <= lo {
        Seq::empty()
    } else {
        let k = last_sep(s, lo, hi);
        let c = s.subrange(component_start(s, lo, hi), hi);
        let rest = if k >= lo {
            proof {
                lemma_last_sep_below(s, lo, hi);
            }
            components(s, lo, k)
        } else {
            Seq::empty()
        };
        if is_skipped(c) {
            rest
        } else {
            rest.push(c)
        }
    }
}

/// `j` with the component `c` written after it: nothing for a component that
/// does not count, else `c`, after a `/` unless `j` is empty or ends in one.
pub open spec fn add_component(j: Seq<char>, c: Seq<char>) -> Seq<char> {
    if is_skipped(c) {
        j
    } else if j.len() == 0 {
        c
    } else if j.last() == '/' {
        j + c
    } else {
        j + seq!['/'] + c
    }
}

/// `lead` followed by the components `comps`.
pub open spec fn joined(lead: Seq<char>, comps: Seq<Seq<char>>) -> Seq<char>
    decreases comps.len(),
{
    if comps.len() == 0 {
        lead
    } else {
        add_component(joined(lead, comps.drop_last()), comps.last())
    }
}

/// How a path begins before its components: `/` for a root, `.` for a
/// leading current-directory component, else nothing.
pub open spec fn path_lead(s: Seq<char>) -> Seq<char> {
    if has_root(s) {
        seq!['/']
    } else if starts_with_cur_dir(s) {
        seq!['.']
    } else {
        Seq::empty()
    }
}

/// A path written back from its components. Paths compare equal, as `Path`
/// compares them, by root, leading `.` and components; this key is the same
/// for such paths: `/a//b/./` and `/a/b` both give `/a/b`.
pub open spec fn path_key(s: Seq<char>) -> Seq<char> {
    joined(path_lead(s), components(s, body_start(s), s.len() as int))
}

/// One step of reading components from the left: with no `/` in `s[p..i]`
/// and `p` at the start of the body or just after a `/`, the components up to
/// `i` are those up to `p - 1` with the piece `s[p..i]` added.
proof fn lemma_components_step(s: Seq<char>, lead: Seq<char>, lo: int, p: int, i: int)
    requires
        0 <= lo <= p <= i <= s.len(),
        p == lo || s[p - 1] == '/',
        forall|j: int| p <= j < i ==> s[j] != '/',
    ensures
        joined(lead, components(s, lo, i)) == add_component(joined(lead, components(s, lo, p - 1)), s.subrange(p, i)),
{
    if i == lo {
        assert(s.subrange(p, i) =~= Seq::<char>::empty());
    } else {
        lemma_last_sep_skip(s, lo, p, i);
        if p > lo {
            assert(last_sep(s, lo, p) == p - 1);
        }
        let c = s.subrange(p, i);
        let rest = components(s, lo, p - 1);
        assert(component_start(s, lo, i) == p);
        if !is_skipped(c) {
            assert(rest.push(c).drop_last() =~= rest);
        }
    }
}

/// Whether `v[p..i]` counts as a component, appending it to `r` if so.
fn add_component_exec(r: &mut String, empty: bool, ends_sep: bool, v: &Vec<char>, p: usize, i: usize) -> (added: bool)
    requires
        p <= i <= v.len(),
        empty == (old(r)@.len() == 0),
        ends_sep == (old(r)@.len() > 0 && old(r)@.last() == '/'),
    ensures
        final(r)@ == add_component(old(r)@, v@.subrange(p as int, i as int)),
        added == !is_skipped(v@.subrange(p as int, i as int)),
{
    if is_skipped_range(v, p, i) {
        return false;
    }
    if !empty && !ends_sep {
        crate::text::push_char(r, '/');
    }
    let piece = string_of_range(v, p, i);
    crate::text::push_str(r, piece.as_str());
    true
}

/// The key of `path` under which paths that `Path` holds equal coincide.
pub fn path_key_of(path: &str) -> (r: String)
    ensures
        r@ == path_key(path@),
{
    let v = chars_of(path);
    let lo = body_start_of(&v);
    let ghost lead = path_lead(v@);
    let mut r = String::new();
    if lo == 1 {
        crate::text::push_char(&mut r, v[0]);
    }
    assert(r@ =~= lead);
    assert(components(v@, lo as int, lo - 1) =~= Seq::<Seq<char>>::empty());
    let mut empty = lo == 0;
    let mut ends_sep = lo == 1 && v[0] == '/';
    let mut p: usize = lo;
    let mut i: usize = lo;
    while i < v.len()
        invariant
            lo <= p <= i <= v.len(),
            lo <= 1,
            lo == body_start(v@),
            lead == path_lead(v@),
            p == lo || v@[p - 1] == '/',
            forall|j: int| p <= j < i ==> v@[j] != '/',
            r@ == joined(lead, components(v@, lo as int, p - 1)),
            empty == (r@.len() == 0),
            ends_sep == (r@.len() > 0 && r@.last() == '/'),
        decreases v.len() - i,
    {
        if v[i] == '/' {
            proof {
                lemma_components_step(v@, lead, lo as int, p as int, i as int);
            }
            let ghost before = r@;
            let added = add_component_exec(&mut r, empty, ends_sep, &v, p, i);
            if added {
                let ghost c = v@.subrange(p as int, i as int);
                assert(r@.last() == c.last());
                empty = false;
                ends_sep = false;
            }
            p = i + 1;
            assert(components(v@, lo as int, p - 1) == components(v@, lo as int, i as int));
        }
        i += 1;
    }
    proof {
        lemma_components_step(v@, lead, lo as int, p as int, i as int);
    }
    add_component_exec(&mut r, empty, ends_sep, &v, p, i);
    r
}

/// Whether two paths are the same path, as `Path` compares them.
pub fn same_path(a: &str, b: &str) -> (r: bool)
    ensures
        r == (path_key(a@) == path_key(b@)),
{
    let ka = path_key_of(a);
    let kb = path_key_of(b);
    crate::text::str_eq(ka.as_str(), kb.as_str())
}


proof fn lemma_last_sep_agree(s: Seq<char>, t: Seq<char>, lo: int, hi: int)
    requires
        0 <= lo,
        hi <= s.len(),
        hi <= t.len(),
        forall|j: int| 0 <= j < hi ==> s[j] == t[j],
    ensures
        last_sep(s, lo, hi) == last_sep(t, lo, hi),
    decreases hi - lo,
{
    if hi > lo {
        lemma_last_sep_agree(s, t, lo, hi - 1);
    }
}

/// The components of `s[lo..hi]` depend on `s[..hi]` alone.
proof fn lemma_components_agree(s: Seq<char>, t: Seq<char>, lo: int, hi: int)
    requires
        0 <= lo,
        hi <= s.len(),
        hi <= t.len(),
        forall|j: int| 0 <= j < hi ==> s[j] == t[j],
    ensures
        components(s, lo, hi) == components(t, lo, hi),
    decreases hi - lo,
{
    if hi > lo {
        lemma_last_sep_agree(s, t, lo, hi);
        let k = last_sep(s, lo, hi);
        let a = component_start(s, lo, hi);
        lemma_last_sep_bounds(s, lo, hi);
        assert(s.subrange(a, hi) =~= t.subrange(a, hi));
        if k >= lo {
            lemma_components_agree(s, t, lo, k);
        }
    }
}

/// The key of a plain name joined onto a directory is the directory's key
/// with the name added as a component.
pub proof fn lemma_key_of_join(dir: Seq<char>, name: Seq<char>)
    requires
        is_plain_name(name),
    ensures
        path_key(spec_join(dir, name)) == add_component(path_key(dir), name),
        path_key(spec_join(dir, name)).len() > path_key(dir).len(),
{
    let s = spec_join(dir, name);
    let m: int = if dir.len() == 0 || dir.last() == '/' {
        dir.len() as int
    } else {
        dir.len() as int + 1
    };
    assert(s.subrange(m, s.len() as int) =~= name);
    assert(forall|j: int| 0 <= j < dir.len() ==> s[j] == dir[j]);
    if dir.len() > 0 {
        assert(s[0] == dir[0]);
        if dir.len() > 1 {
            assert(s[1] == dir[1]);
        } else {
            assert(s.len() > 1);
            if dir.last() != '/' {
                assert(s[1] == '/');
            }
        }
        assert(has_root(s) == has_root(dir));
        assert(starts_with_cur_dir(s) == starts_with_cur_dir(dir));
    } else {
        assert(s =~= name);
        assert(!(name =~= seq!['.']));
        if name.len() == 1 {
            assert(name[0] != '.' ) by {
                if name[0] == '.' {
                    assert(name =~= seq!['.']);
                }
            }
        }
        assert(!has_root(s));
        assert(!starts_with_cur_dir(s));
    }
    let lo = body_start(s);
    let lead = path_lead(s);
    assert(lead == path_lead(dir));
    assert(lo == body_start(dir));
    assert(m >= lo);
    lemma_components_step(s, lead, lo, m, s.len() as int);
    if dir.len() == 0 {
        assert(components(s, lo, m - 1) =~= Seq::<Seq<char>>::empty());
        assert(components(dir, lo, dir.len() as int) =~= Seq::<Seq<char>>::empty());
    } else if dir.last() == '/' {
        lemma_components_agree(s, dir, lo, m - 1);
        if dir.len() > lo {
            assert(last_sep(dir, lo, dir.len() as int) == dir.len() - 1);
            assert(dir.subrange(dir.len() as int, dir.len() as int) =~= Seq::<char>::empty());
        } else {
            assert(components(s, lo, m - 1) =~= Seq::<Seq<char>>::empty());
        }
    } else {
        lemma_components_agree(s, dir, lo, m - 1);
    }
    assert(path_key(dir) == joined(lead, components(dir, lo, dir.len() as int)));
    assert(!is_skipped(name));
}
} // verus!
