//! Character and string helpers used across the library.
use vstd::prelude::*;
use vstd::string::StringExecFns;

verus! {

/// Appends one character to a string.
#[verifier::external_body]
pub(crate) fn push_char(s: &mut String, c: char)
    ensures
        final(s)@ == old(s)@.push(c),
{
    s.push(c);
}

/// Appends a string slice to a string.
pub(crate) fn push_str(s: &mut String, t: &str)
    ensures
        final(s)@ == old(s)@ + t@,
{
    s.append(t);
}

/// The characters of a string, in order.
pub fn chars_of(s: &str) -> (v: Vec<char>)
    ensures
        v@ == s@,
{
    let mut v: Vec<char> = Vec::new();
    for c in it: s.chars()
        invariant
            v@ == it.seq().take(it.index() as int),
    {
        v.push(c);
    }
    v
}

} // verus!

verus! {

/// The string made of `v[lo..hi]`.
pub fn string_of_range(v: &Vec<char>, lo: usize, hi: usize) -> (s: String)
    requires
        lo <= hi <= v.len(),
    ensures
        s@ == v@.subrange(lo as int, hi as int),
{
    let mut s = String::new();
    let mut i = lo;
    while i < hi
        invariant
            lo <= i <= hi <= v.len(),
            s@ == v@.subrange(lo as int, i as int),
        decreases hi - i,
    {
        push_char(&mut s, v[i]);
        assert(v@.subrange(lo as int, i + 1) == v@.subrange(lo as int, i as int).push(v@[i as int]));
        i += 1;
    }
    s
}

} // verus!

verus! {

/// What `str::to_lowercase` returns for a string: each character replaced by
/// its Unicode lowercase mapping.
pub uninterp spec fn lowercase(s: Seq<char>) -> Seq<char>;

/// `r` is `s` with its ASCII capitals `A`..`Z` (code points 65 to 90) made
/// small (32 higher) and every other character kept: ASCII text again.
pub open spec fn ascii_lowered(r: Seq<char>, s: Seq<char>) -> bool {
    &&& r.len() == s.len()
    &&& vstd::utf8::is_ascii_chars(r)
    &&& forall|i: int|
        0 <= i < s.len() ==> if 65 <= #[trigger] s[i] as u32 <= 90 {
            r[i] as u32 == s[i] as u32 + 32
        } else {
            r[i] == s[i]
        }
}

/// Lowercases a string through `str::to_lowercase`. The result is named, not
/// written out: the Unicode lowercase mapping is the standard library's. Of
/// ASCII text the mapping is the ASCII one (the documented `Lowercase`
/// mapping takes `A`..`Z` to `a`..`z` and keeps every other ASCII
/// character), and that is stated.
#[verifier::external_body]
pub(crate) fn to_lowercase(s: &str) -> (r: String)
    ensures
        r@ == lowercase(s@),
        vstd::utf8::is_ascii_chars(s@) ==> ascii_lowered(r@, s@),
{
    s.to_lowercase()
}

/// Two strings hold the same characters.
pub fn str_eq(a: &str, b: &str) -> (r: bool)
    ensures
        r == (a@ == b@),
{
    let va = chars_of(a);
    let vb = chars_of(b);
    if va.len() != vb.len() {
        return false;
    }
    let mut i: usize = 0;
    while i < va.len()
        invariant
            va.len() == vb.len(),
            va@ == a@,
            vb@ == b@,
            i <= va.len(),
            forall|j: int| 0 <= j < i ==> va@[j] == vb@[j],
        decreases va.len() - i,
    {
        if va[i] != vb[i] {
            return false;
        }
        i += 1;
    }
    assert(va@ =~= vb@);
    true
}

/// `needle` occurs in `hay` starting at position `i`.
pub open spec fn occurs_at(hay: Seq<char>, needle: Seq<char>, i: int) -> bool {
    0 <= i && i + needle.len() <= hay.len() && hay.subrange(i, i + needle.len()) =~= needle
}

/// `needle` occurs somewhere in `hay`, as `str::contains` tests it.
pub open spec fn contains(hay: Seq<char>, needle: Seq<char>) -> bool {
    exists|i: int| occurs_at(hay, needle, i)
}

fn occurs_at_exec(hay: &Vec<char>, needle: &Vec<char>, i: usize) -> (r: bool)
    requires
        i + needle.len() <= hay.len(),
    ensures
        r == occurs_at(hay@, needle@, i as int),
{
    let mut j: usize = 0;
    while j < needle.len()
        invariant
            i + needle.len() <= hay.len(),
            j <= needle.len(),
            forall|k: int| 0 <= k < j ==> hay@[i + k] == needle@[k],
        decreases needle.len() - j,
    {
        if hay[i + j] != needle[j] {
            assert(hay@.subrange(i as int, i + needle.len())[j as int] != needle@[j as int]);
            return false;
        }
        j += 1;
    }
    assert(hay@.subrange(i as int, i + needle.len()) =~= needle@);
    true
}

/// Whether `needle` occurs in `hay`.
pub fn str_contains(hay: &str, needle: &str) -> (r: bool)
    ensures
        r == contains(hay@, needle@),
{
    let h = chars_of(hay);
    let n = chars_of(needle);
    if n.len() > h.len() {
        assert forall|i: int| !occurs_at(hay@, needle@, i) by {}
        return false;
    }
    let mut i: usize = 0;
    while i <= h.len() - n.len()
        invariant
            h@ == hay@,
            n@ == needle@,
            n.len() <= h.len(),
            i <= h.len() - n.len() + 1,
            forall|k: int| 0 <= k < i ==> !occurs_at(hay@, needle@, k),
        decreases h.len() - i,
    {
        if occurs_at_exec(&h, &n, i) {
            return true;
        }
        i += 1;
    }
    assert forall|k: int| !occurs_at(hay@, needle@, k) by {
        if 0 <= k < i {
        }
    }
    false
}

} // verus!

verus! {

/// The character of a decimal digit.
pub open spec fn digit_char(d: nat) -> char {
    if d == 0 { '0' }
    else if d == 1 { '1' }
    else if d == 2 { '2' }
    else if d == 3 { '3' }
    else if d == 4 { '4' }
    else if d == 5 { '5' }
    else if d == 6 { '6' }
    else if d == 7 { '7' }
    else if d == 8 { '8' }
    else { '9' }
}

/// The decimal digits of `n`, without leading zeros, as `{}` prints it.
pub open spec fn decimal(n: nat) -> Seq<char>
    decreases n,
{
    if n < 10 {
        seq![digit_char(n)]
    } else {
        decimal(n / 10).push(digit_char(n % 10))
    }
}

/// `s` right-aligned in a field of `width` characters, as `{:width}` prints
/// a number.
pub open spec fn pad_left(s: Seq<char>, width: nat) -> Seq<char> {
    if s.len() >= width {
        s
    } else {
        Seq::new((width - s.len()) as nat, |i: int| ' ') + s
    }
}

fn digit(d: u64) -> (c: char)
    requires
        d < 10,
    ensures
        c == digit_char(d as nat),
{
    if d == 0 { '0' }
    else if d == 1 { '1' }
    else if d == 2 { '2' }
    else if d == 3 { '3' }
    else if d == 4 { '4' }
    else if d == 5 { '5' }
    else if d == 6 { '6' }
    else if d == 7 { '7' }
    else if d == 8 { '8' }
    else { '9' }
}

/// Appends the decimal digits of `n`.
pub fn push_decimal(s: &mut String, n: u64)
    ensures
        final(s)@ == old(s)@ + decimal(n as nat),
    decreases n,
{
    if n >= 10 {
        push_decimal(s, n / 10);
    }
    push_char(s, digit(n % 10));
    proof {
        if n >= 10 {
            assert(old(s)@ + decimal(n as nat) =~= old(s)@ + decimal((n / 10) as nat) + seq![digit_char((n % 10) as nat)]);
        } else {
            assert(old(s)@ + decimal(n as nat) =~= old(s)@.push(digit_char(n as nat)));
        }
    }
}

/// The decimal digits of `n`.
pub fn format_decimal(n: u64) -> (r: String)
    ensures
        r@ == decimal(n as nat),
{
    let mut s = String::new();
    push_decimal(&mut s, n);
    assert(s@ =~= decimal(n as nat));
    s
}


/// The decimal digits of `n`, right-aligned in a field of `width`.
pub fn format_padded(n: u64, width: usize) -> (r: String)
    ensures
        r@ == pad_left(decimal(n as nat), width as nat),
{
    let digits = format_decimal(n);
    let len = chars_of(digits.as_str()).len();
    let mut s = String::new();
    let mut i: usize = len;
    while i < width
        invariant
            len == decimal(n as nat).len(),
            len <= i <= width || (len > width && i == len),
            s@ == Seq::new((i - len) as nat, |j: int| ' '),
        decreases width - i,
    {
        push_char(&mut s, ' ');
        assert(s@ =~= Seq::new((i + 1 - len) as nat, |j: int| ' '));
        i += 1;
    }
    push_str(&mut s, digits.as_str());
    assert(s@ =~= pad_left(decimal(n as nat), width as nat));
    s
}

/// `n` copies of `c`.
pub fn repeat_char(c: char, n: usize) -> (r: String)
    ensures
        r@ == Seq::new(n as nat, |i: int| c),
{
    let mut s = String::new();
    let mut i: usize = 0;
    while i < n
        invariant
            i <= n,
            s@ == Seq::new(i as nat, |j: int| c),
        decreases n - i,
    {
        push_char(&mut s, c);
        assert(s@ =~= Seq::new((i + 1) as nat, |j: int| c));
        i += 1;
    }
    s
}

/// The string `a` followed by `b`.
pub fn concat(a: &str, b: &str) -> (r: String)
    ensures
        r@ == a@ + b@,
{
    let mut s = a.to_owned();
    push_str(&mut s, b);
    s
}

} // verus!

verus! {

/// Splits a string at each `\n` into the pieces between them (the last piece
/// runs to the end, possibly empty).
pub open spec fn newline_pieces(s: Seq<char>) -> Seq<Seq<char>>
    decreases s.len(),
{
    if s.len() == 0 {
        seq![Seq::empty()]
    } else {
        let p = newline_pieces(s.drop_last());
        if s.last() == '\n' {
            p.push(Seq::empty())
        } else {
            p.update(p.len() - 1, p.last().push(s.last()))
        }
    }
}

proof fn lemma_pieces_nonempty(s: Seq<char>)
    ensures
        newline_pieces(s).len() >= 1,
    decreases s.len(),
{
    if s.len() > 0 {
        lemma_pieces_nonempty(s.drop_last());
    }
}

/// A line without the `\r` that ends it, if any.
pub open spec fn strip_cr(l: Seq<char>) -> Seq<char> {
    if l.len() > 0 && l.last() == '\r' {
        l.drop_last()
    } else {
        l
    }
}

/// The lines of a string, as `str::lines` yields them: split at `\n`, each
/// line ended by `\n` losing a `\r` before it, and no empty line after a
/// final `\n`.
pub open spec fn text_lines(s: Seq<char>) -> Seq<Seq<char>> {
    let p = newline_pieces(s);
    let ended = p.take(p.len() - 1).map_values(|l: Seq<char>| strip_cr(l));
    if p.last().len() == 0 {
        ended
    } else {
        ended.push(p.last())
    }
}

fn strip_cr_string(l: String) -> (r: String)
    ensures
        r@ == strip_cr(l@),
{
    let v = chars_of(l.as_str());
    if v.len() > 0 && v[v.len() - 1] == '\r' {
        string_of_range(&v, 0, v.len() - 1)
    } else {
        l
    }
}

/// The lines of a string, as `str::lines` yields them.
pub fn split_lines(s: &str) -> (r: Vec<String>)
    ensures
        r@.map_values(|l: String| l@) == text_lines(s@),
{
    let mut done: Vec<String> = Vec::new();
    let mut cur = String::new();
    for c in it: s.chars()
        invariant
            it.seq() == s@,
            newline_pieces(s@.take(it.index() as int)) == done@.map_values(|l: String| l@).push(cur@),
    {
        proof {
            lemma_pieces_nonempty(s@.take(it.index() as int));
            assert(s@.take(it.index() + 1).drop_last() =~= s@.take(it.index() as int));
        }
        if c == '\n' {
            let mut finished = String::new();
            std::mem::swap(&mut finished, &mut cur);
            done.push(finished);
            assert(newline_pieces(s@.take(it.index() + 1)) =~= done@.map_values(|l: String| l@).push(cur@));
        } else {
            push_char(&mut cur, c);
            assert(newline_pieces(s@.take(it.index() + 1)) =~= done@.map_values(|l: String| l@).push(cur@));
        }
    }
    assert(s@.take(s@.len() as int) =~= s@);
    let ghost pieces = newline_pieces(s@);
    proof {
        lemma_pieces_nonempty(s@);
    }
    assert(pieces.take(pieces.len() - 1) =~= done@.map_values(|l: String| l@));
    let mut r: Vec<String> = Vec::new();
    let mut i: usize = 0;
    let n = done.len();
    while i < n
        invariant
            n == done.len(),
            i <= n,
            pieces.len() >= 1,
            pieces.take(pieces.len() - 1) == done@.map_values(|l: String| l@),
            r.len() == i,
            forall|j: int| 0 <= j < i ==> (#[trigger] r@[j])@ == strip_cr(pieces[j]),
        decreases n - i,
    {
        proof {
            assert(done@.map_values(|l: String| l@).len() == n);
            assert(pieces.take(pieces.len() - 1).len() == pieces.len() - 1);
            assert(done@.map_values(|l: String| l@)[i as int] == done@[i as int]@);
            assert(pieces.take(pieces.len() - 1)[i as int] == pieces[i as int]);
        }
        let l = strip_cr_string(done[i].clone());
        r.push(l);
        i += 1;
    }
    assert(r@.map_values(|l: String| l@) =~= pieces.take(n as int).map_values(|l: Seq<char>| strip_cr(l)));
    assert(pieces.take(n as int) =~= pieces.take(pieces.len() - 1));
    if !cur.as_str().is_empty() {
        r.push(cur);
        assert(r@.map_values(|l: String| l@) =~= text_lines(s@));
    } else {
        assert(r@.map_values(|l: String| l@) =~= text_lines(s@));
    }
    r
}

} // verus!
