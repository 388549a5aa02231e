//! Marking the occurrences of a search in a name, case-insensitively, as the
//! lists show them.
//!
//! The search runs over the bytes of the lowercased strings, and the byte
//! positions it finds are used to cut the given string. Where
//! lowercasing changes the byte length of the text, such a position can
//! fall inside a character or past the end: the cut cannot be made, and the
//! functions here say so.
use vstd::prelude::*;
use vstd::utf8::{encode_utf8, is_ascii_chars, is_char_boundary, valid_utf8};
use crate::preview::{StyledText, TextStyle};
use crate::text::{ascii_lowered, lowercase, to_lowercase};
use vstd::string::StringSliceAdditionalSpecFns;

verus! {

broadcast use {
    vstd::utf8::encode_utf8_valid_utf8,
    vstd::utf8::is_char_boundary_start_end_of_seq,
    vstd::utf8::valid_utf8_split,
};

/// The first position at or after `from` where `needle` occurs in `hay`, as
/// `str::find` searches bytes.
pub open spec fn find_from(hay: Seq<u8>, needle: Seq<u8>, from: int) -> Option<int>
    decreases hay.len() - from,
{
    if from < 0 || from + needle.len() > hay.len() {
        None
    } else if hay.subrange(from, from + needle.len()) =~= needle {
        Some(from)
    } else {
        find_from(hay, needle, from + 1)
    }
}

pub proof fn lemma_find_from_bounds(hay: Seq<u8>, needle: Seq<u8>, from: int)
    ensures
        find_from(hay, needle, from) matches Some(a) ==> from <= a && a + needle.len() <= hay.len()
            && hay.subrange(a, a + needle.len()) =~= needle,
    decreases hay.len() - from,
{
    if from >= 0 && from + needle.len() <= hay.len() && !(hay.subrange(from, from + needle.len())
        =~= needle) {
        lemma_find_from_bounds(hay, needle, from + 1);
    }
}

/// The pieces of `t` that a highlighting cuts, as byte ranges marked as
/// match or not, starting at `last_end`; `None` where a cut cannot be made.
/// `l` and `s` are the bytes of the lowercased text and search, `n` the
/// byte length of the search.
pub open spec fn highlight_pieces(t: Seq<u8>, l: Seq<u8>, s: Seq<u8>, n: int, last_end: int) -> Option<
    Seq<(int, int, bool)>,
>
    decreases t.len() - last_end,
{
    if n <= 0 || last_end < 0 || last_end > t.len() {
        None
    } else if !(last_end <= l.len() && is_char_boundary(l, last_end)) {
        None
    } else {
        match find_from(l, s, last_end) {
            None => if last_end < t.len() {
                Some(seq![(last_end, t.len() as int, false)])
            } else {
                Some(Seq::empty())
            },
            Some(a) => {
                let b = a + n;
                if !(b <= t.len() && is_char_boundary(t, a) && is_char_boundary(t, b)) {
                    None
                } else {
                    proof {
                        lemma_find_from_bounds(l, s, last_end);
                    }
                    let head = if a > last_end {
                        seq![(last_end, a, false)]
                    } else {
                        Seq::empty()
                    };
                    match highlight_pieces(t, l, s, n, b) {
                        Some(rest) => Some(head + seq![(a, b, true)] + rest),
                        None => None,
                    }
                }
            },
        }
    }
}

/// How `text` is cut for `search`: the whole text unmarked when the search
/// is empty, else the pieces between and at the matches.
pub open spec fn highlight_plan(text: Seq<char>, search: Seq<char>) -> Option<Seq<(int, int, bool)>> {
    let t = encode_utf8(text);
    let n = encode_utf8(search).len() as int;
    if n == 0 {
        Some(seq![(0, t.len() as int, false)])
    } else {
        highlight_pieces(t, encode_utf8(lowercase(text)), encode_utf8(lowercase(search)), n, 0)
    }
}

/// Pieces of a text as bytes and styles: the matches in the match style, the
/// rest in `base`.
pub open spec fn pieces_view(t: Seq<u8>, pieces: Seq<(int, int, bool)>, base: TextStyle) -> Seq<
    (Seq<u8>, TextStyle),
> {
    pieces.map_values(
        |p: (int, int, bool)|
            (t.subrange(p.0, p.1), if p.2 {
                TextStyle::SearchMatch
            } else {
                base
            }),
    )
}

/// Styled texts as bytes and styles.
pub open spec fn spans_bytes(v: Seq<StyledText>) -> Seq<(Seq<u8>, TextStyle)> {
    v.map_values(|x: StyledText| (encode_utf8(x.text@), x.style))
}

proof fn lemma_boundary_prefix(bytes: Seq<u8>, a: int, b: int)
    requires
        valid_utf8(bytes),
        0 <= a <= b <= bytes.len(),
        is_char_boundary(bytes, a),
        is_char_boundary(bytes, b),
    ensures
        valid_utf8(bytes.subrange(0, b)),
        is_char_boundary(bytes.subrange(0, b), a),
{
    let p = bytes.subrange(0, b);
    vstd::utf8::valid_utf8_split(bytes, b);
    if a == b {
        vstd::utf8::is_char_boundary_start_end_of_seq(p);
        assert(p.len() == b);
    } else if a > 0 {
        vstd::utf8::is_char_boundary_iff_not_is_continuation_byte(bytes, a);
        vstd::utf8::is_char_boundary_iff_not_is_continuation_byte(p, a);
        assert(p[a] == bytes[a]);
    }
}

/// The part of `s` between two byte positions that fall on character
/// boundaries.
pub fn byte_slice(s: &str, a: usize, b: usize) -> (r: String)
    requires
        a <= b <= s.spec_bytes().len(),
        is_char_boundary(s.spec_bytes(), a as int),
        is_char_boundary(s.spec_bytes(), b as int),
    ensures
        encode_utf8(r@) == s.spec_bytes().subrange(a as int, b as int),
{
    proof {
        lemma_boundary_prefix(s.spec_bytes(), a as int, b as int);
    }
    let (left, _) = s.split_at(b);
    let (_, mid) = left.split_at(a);
    assert(mid.spec_bytes() =~= s.spec_bytes().subrange(a as int, b as int));
    mid.to_owned()
}

fn occurs_at_bytes(hay: &[u8], needle: &[u8], i: usize) -> (r: bool)
    requires
        i + needle@.len() <= hay@.len(),
    ensures
        r == (hay@.subrange(i as int, i + needle@.len()) =~= needle@),
{
    let mut j: usize = 0;
    while j < needle.len()
        invariant
            i + needle@.len() <= hay.len(),
            j <= needle@.len(),
            forall|k: int| 0 <= k < j ==> hay@[i + k] == needle@[k],
        decreases needle@.len() - j,
    {
        if hay[i + j] != needle[j] {
            assert(hay@.subrange(i as int, i + needle@.len())[j as int] != needle@[j as int]);
            return false;
        }
        j += 1;
    }
    true
}

/// The first occurrence of `needle` in `hay` at or after `from`.
fn find_bytes(hay: &[u8], needle: &[u8], from: usize) -> (r: Option<usize>)
    requires
        from <= hay@.len(),
    ensures
        match r {
            Some(a) => find_from(hay@, needle@, from as int) == Some(a as int),
            None => find_from(hay@, needle@, from as int) is None,
        },
{
    if needle.len() > hay.len() {
        return None;
    }
    let mut i = from;
    while i <= hay.len() - needle.len()
        invariant
            from <= i,
            needle@.len() <= hay@.len(),
            find_from(hay@, needle@, from as int) == find_from(hay@, needle@, i as int),
        decreases hay@.len() - i,
    {
        if occurs_at_bytes(hay, needle, i) {
            return Some(i);
        }
        i += 1;
    }
    None
}

/// Highlights `search` in `text`, or `None` where a cut cannot be made.
fn highlight_core(text: &str, search: &str, base: TextStyle) -> (r: Option<Vec<StyledText>>)
    ensures
        match highlight_plan(text@, search@) {
            Some(p) => r matches Some(v) && spans_bytes(v@) == pieces_view(encode_utf8(text@), p, base),
            None => r is None,
        },
        is_ascii_chars(text@) && is_ascii_chars(search@) ==> r is Some,
{
    let t = text.as_bytes();
    let n = search.as_bytes().len();
    if n == 0 {
        let v = vec![StyledText::new(text.to_owned(), base)];
        assert(t@.subrange(0, t@.len() as int) =~= t@);
        assert(spans_bytes(v@) =~= pieces_view(encode_utf8(text@), seq![(0, t@.len() as int, false)], base));
        return Some(v);
    }
    let search_lower = to_lowercase(search);
    let text_lower = to_lowercase(text);
    proof {
        if is_ascii_chars(text@) && is_ascii_chars(search@) {
            lemma_ascii_cuts(text@, search@);
        }
    }
    let l = text_lower.as_str().as_bytes();
    let s = search_lower.as_str().as_bytes();
    let ghost tb = encode_utf8(text@);
    let ghost lb = encode_utf8(lowercase(text@));
    let ghost sb = encode_utf8(lowercase(search@));
    let mut spans: Vec<StyledText> = Vec::new();
    let ghost mut done: Seq<(int, int, bool)> = Seq::empty();
    let mut last_end: usize = 0;
    assert(spans_bytes(spans@) =~= pieces_view(tb, done, base));
    assert(highlight_plan(text@, search@) == match highlight_pieces(tb, lb, sb, n as int, 0) {
        Some(rest) => Some(done + rest),
        None => None,
    }) by {
        match highlight_pieces(tb, lb, sb, n as int, 0) {
            Some(rest) => assert(done + rest =~= rest),
            None => {},
        }
    }
    loop
        invariant
            t@ == tb,
            l@ == lb,
            s@ == sb,
            n > 0,
            n == encode_utf8(search@).len(),
            tb == encode_utf8(text@),
            lb == encode_utf8(lowercase(text@)),
            text_lower@ == lowercase(text@),
            last_end <= tb.len(),
            is_char_boundary(tb, last_end as int),
            forall|k: int| 0 <= k < done.len() ==> 0 <= (#[trigger] done[k]).0 <= done[k].1 <= last_end,
            spans_bytes(spans@) == pieces_view(tb, done, base),
            spans@.len() == done.len(),
            highlight_plan(text@, search@) == match highlight_pieces(tb, lb, sb, n as int, last_end as int) {
                Some(rest) => Some(done + rest),
                None => None,
            },
            is_ascii_chars(text@) && is_ascii_chars(search@) ==> highlight_plan(text@, search@) is Some,
        decreases tb.len() - last_end,
    {
        if last_end > l.len() || !text_lower.as_str().is_char_boundary(last_end) {
            assert(highlight_pieces(tb, lb, sb, n as int, last_end as int) is None);
            return None;
        }
        match find_bytes(l, s, last_end) {
            None => {
                if last_end < t.len() {
                    let piece = byte_slice(text, last_end, t.len());
                    let ghost before = spans@;
                    spans.push(StyledText::new(piece, base));
                    proof {
                        let nd = done.push((last_end as int, tb.len() as int, false));
                        assert(done + seq![(last_end as int, tb.len() as int, false)] =~= nd);
                        assert(spans_bytes(spans@) =~= pieces_view(tb, nd, base)) by {
                            assert(spans_bytes(before) == pieces_view(tb, done, base));
                            assert forall|k: int| 0 <= k < spans@.len() implies spans_bytes(spans@)[k]
                                == pieces_view(tb, nd, base)[k] by {
                                if k < before.len() {
                                    assert(spans@[k] == before[k]);
                                    assert(spans_bytes(before)[k] == pieces_view(tb, done, base)[k]);
                                    assert(pieces_view(tb, done, base)[k] == pieces_view(tb, nd, base)[k]);
                                }
                            }
                        }
                    }
                } else {
                    assert(done + Seq::<(int, int, bool)>::empty() =~= done);
                }
                return Some(spans);
            },
            Some(a) => {
                proof {
                    lemma_find_from_bounds(lb, sb, last_end as int);
                }
                if a > t.len() || n > t.len() - a || !text.is_char_boundary(a) || !text.is_char_boundary(
                    a + n,
                ) {
                    assert(highlight_pieces(tb, lb, sb, n as int, last_end as int) is None);
                    return None;
                }
                let b = a + n;
                let ghost nd = if a > last_end {
                    done + seq![(last_end as int, a as int, false), (a as int, b as int, true)]
                } else {
                    done + seq![(a as int, b as int, true)]
                };
                let ghost before = spans@;
                if a > last_end {
                    let piece = byte_slice(text, last_end, a);
                    spans.push(StyledText::new(piece, base));
                }
                let piece = byte_slice(text, a, b);
                spans.push(StyledText::new(piece, TextStyle::SearchMatch));
                proof {
                    assert(spans@.len() == nd.len());
                    assert(spans_bytes(spans@) =~= pieces_view(tb, nd, base)) by {
                        assert forall|k: int| 0 <= k < spans@.len() implies spans_bytes(spans@)[k]
                            == pieces_view(tb, nd, base)[k] by {
                            if k < done.len() {
                                assert(spans@[k] == before[k]);
                                assert(spans_bytes(before)[k] == pieces_view(tb, done, base)[k]);
                                assert(pieces_view(tb, done, base)[k] == pieces_view(tb, nd, base)[k]);
                            }
                        }
                    }
                    match highlight_pieces(tb, lb, sb, n as int, b as int) {
                        Some(rest) => {
                            if a > last_end {
                                assert(done + (seq![(last_end as int, a as int, false)] + seq![(a as int, b as int, true)] + rest) =~= nd + rest);
                            } else {
                                assert(done + (Seq::<(int, int, bool)>::empty() + seq![(a as int, b as int, true)] + rest) =~= nd + rest);
                            }
                        },
                        None => {},
                    }
                    done = nd;
                }
                last_end = b;
            },
        }
    }
}

} // verus!

verus! {

/// `search` highlighted in `text`: the pieces of `text`, the occurrences of
/// the search (ignoring case) in the match style and the rest in `base`. The
/// cuts fall on the byte positions found in the lowercased strings;
/// `requires` asks that each falls on a character of `text`, which is so
/// for ASCII text and search (`try_highlight_search_term` states it).
pub fn highlight_search_term(text: &str, search: &str, base: TextStyle) -> (r: Vec<StyledText>)
    requires
        highlight_plan(text@, search@) is Some,
    ensures
        spans_bytes(r@) == pieces_view(encode_utf8(text@), highlight_plan(text@, search@)->0, base),
{
    match highlight_core(text, search, base) {
        Some(v) => v,
        None => Vec::new(),
    }
}

/// `search` highlighted in `text`, or `None` where a found position cannot
/// be cut in `text`; of ASCII text and search it is always `Some`.
pub fn try_highlight_search_term(text: &str, search: &str, base: TextStyle) -> (r: Option<Vec<StyledText>>)
    ensures
        match highlight_plan(text@, search@) {
            Some(p) => r matches Some(v) && spans_bytes(v@) == pieces_view(encode_utf8(text@), p, base),
            None => r is None,
        },
        is_ascii_chars(text@) && is_ascii_chars(search@) ==> r is Some,
{
    if highlight_core(text, search, base).is_some() {
        Some(highlight_search_term(text, search, base))
    } else {
        None
    }
}

/// Where the first occurrence of `search` (ignoring case) cuts `name`: no
/// occurrence (`Some(None)`), the byte range of the occurrence, or `None`
/// where the position found cannot be cut in `name`.
pub open spec fn first_match(name: Seq<char>, search: Seq<char>) -> Option<Option<(int, int)>> {
    let t = encode_utf8(name);
    let n = encode_utf8(search).len() as int;
    match find_from(encode_utf8(lowercase(name)), encode_utf8(lowercase(search)), 0) {
        None => Some(None),
        Some(a) => if a <= t.len() && is_char_boundary(t, a) && a + n <= t.len() && is_char_boundary(
            t,
            a + n,
        ) {
            Some(Some((a, a + n)))
        } else {
            None
        },
    }
}

/// The first occurrence of `search` in `name`, ignoring case, as a byte
/// range of `name`; `Err` where the position found cannot be cut in `name`,
/// which never happens to ASCII name and search.
pub fn find_first_match(name: &str, search: &str) -> (r: Result<Option<(usize, usize)>, ()>)
    ensures
        match first_match(name@, search@) {
            None => r is Err,
            Some(None) => r == Ok::<Option<(usize, usize)>, ()>(None),
            Some(Some((a, b))) => r matches Ok(Some((x, y))) && x == a && y == b,
        },
        is_ascii_chars(name@) && is_ascii_chars(search@) ==> r is Ok,
{
    let t = name.as_bytes();
    let n = search.as_bytes().len();
    let search_lower = to_lowercase(search);
    let name_lower = to_lowercase(name);
    proof {
        if is_ascii_chars(name@) && is_ascii_chars(search@) {
            lemma_ascii_cuts(name@, search@);
        }
    }
    let l = name_lower.as_str().as_bytes();
    let s = search_lower.as_str().as_bytes();
    match find_bytes(l, s, 0) {
        None => Ok(None),
        Some(a) => {
            if a > t.len() || !name.is_char_boundary(a) || n > t.len() - a || !name.is_char_boundary(
                a + n,
            ) {
                Err(())
            } else {
                Ok(Some((a, a + n)))
            }
        },
    }
}

} // verus!

verus! {

/// The bytes of `t` that the pieces cover, one after another.
pub open spec fn joined_pieces(t: Seq<u8>, pieces: Seq<(int, int, bool)>) -> Seq<u8>
    decreases pieces.len(),
{
    if pieces.len() == 0 {
        Seq::empty()
    } else {
        t.subrange(pieces[0].0, pieces[0].1) + joined_pieces(t, pieces.drop_first())
    }
}

proof fn lemma_joined_single(t: Seq<u8>, x: (int, int, bool))
    requires
        0 <= x.0 <= x.1 <= t.len(),
    ensures
        joined_pieces(t, seq![x]) == t.subrange(x.0, x.1),
{
    reveal_with_fuel(joined_pieces, 2);
    assert(seq![x].drop_first() =~= Seq::<(int, int, bool)>::empty());
    assert(joined_pieces(t, seq![x]) =~= t.subrange(x.0, x.1) + Seq::empty());
}

proof fn lemma_joined_append(t: Seq<u8>, x: Seq<(int, int, bool)>, y: Seq<(int, int, bool)>)
    ensures
        joined_pieces(t, x + y) == joined_pieces(t, x) + joined_pieces(t, y),
    decreases x.len(),
{
    if x.len() == 0 {
        assert(x + y =~= y);
        assert(joined_pieces(t, x) + joined_pieces(t, y) =~= joined_pieces(t, y));
    } else {
        lemma_joined_append(t, x.drop_first(), y);
        assert((x + y).drop_first() =~= x.drop_first() + y);
        assert(joined_pieces(t, x + y) =~= joined_pieces(t, x) + joined_pieces(t, y));
    }
}

proof fn lemma_pieces_cover(t: Seq<u8>, l: Seq<u8>, s: Seq<u8>, n: int, last_end: int)
    requires
        0 <= last_end <= t.len(),
    ensures
        highlight_pieces(t, l, s, n, last_end) matches Some(p) ==> joined_pieces(t, p) == t.subrange(
            last_end,
            t.len() as int,
        ),
    decreases t.len() - last_end,
{
    if let Some(p) = highlight_pieces(t, l, s, n, last_end) {
        match find_from(l, s, last_end) {
            None => {
                if last_end < t.len() {
                    lemma_joined_single(t, (last_end, t.len() as int, false));
                } else {
                    assert(t.subrange(last_end, t.len() as int) =~= Seq::<u8>::empty());
                }
            },
            Some(a) => {
                lemma_find_from_bounds(l, s, last_end);
                let b = a + n;
                let rest = highlight_pieces(t, l, s, n, b)->0;
                lemma_pieces_cover(t, l, s, n, b);
                let head = if a > last_end {
                    seq![(last_end, a, false)]
                } else {
                    Seq::empty()
                };
                assert(p == head + seq![(a, b, true)] + rest);
                lemma_joined_append(t, head + seq![(a, b, true)], rest);
                lemma_joined_append(t, head, seq![(a, b, true)]);
                lemma_joined_single(t, (a, b, true));
                if a > last_end {
                    lemma_joined_single(t, (last_end, a, false));
                    assert(t.subrange(last_end, t.len() as int) =~= t.subrange(last_end, a) + t.subrange(a, b)
                        + t.subrange(b, t.len() as int));
                } else {
                    assert(joined_pieces(t, head) =~= Seq::<u8>::empty());
                    assert(t.subrange(last_end, t.len() as int) =~= t.subrange(a, b) + t.subrange(
                        b,
                        t.len() as int,
                    ));
                }
            },
        }
    }
}

/// Highlighting loses nothing of the text: where the cuts can be made, the
/// pieces, one after another, are the text itself.
pub proof fn law_highlight_keeps_text(text: Seq<char>, search: Seq<char>)
    ensures
        highlight_plan(text, search) matches Some(p) ==> joined_pieces(encode_utf8(text), p) == encode_utf8(
            text,
        ),
{
    let t = encode_utf8(text);
    if encode_utf8(search).len() == 0 {
        lemma_joined_single(t, (0, t.len() as int, false));
        assert(t.subrange(0, t.len() as int) =~= t);
    } else {
        lemma_pieces_cover(t, encode_utf8(lowercase(text)), encode_utf8(lowercase(search)), encode_utf8(search).len() as int, 0);
        assert(t.subrange(0, t.len() as int) =~= t);
    }
}

} // verus!

verus! {

/// In the encoding of ASCII text every position is a character boundary,
/// and there is a byte per character.
proof fn lemma_ascii_boundaries(chars: Seq<char>)
    requires
        is_ascii_chars(chars),
    ensures
        encode_utf8(chars).len() == chars.len(),
        forall|i: int| 0 <= i <= chars.len() ==> is_char_boundary(encode_utf8(chars), i),
{
    let b = encode_utf8(chars);
    vstd::utf8::is_ascii_chars_encode_utf8(chars);
    vstd::utf8::is_ascii_chars_nat_bound(chars);
    vstd::utf8::is_char_boundary_start_end_of_seq(b);
    assert forall|i: int| 0 <= i <= chars.len() implies is_char_boundary(b, i) by {
        if i < chars.len() {
            assert((chars[i] as nat) < 128);
            assert(chars[i] as u8 == b[i]);
            assert(b[i] < 128) by {
                let c = chars[i];
                assert((c as u32) < 128);
                assert((c as u32) as u8 == c as u8);
            }
            vstd::utf8::is_char_boundary_iff_not_is_continuation_byte(b, i);
        }
    }
}

/// Where every position of the text and of its lowercased bytes is a
/// boundary, and they are as long as each other, every cut can be made.
proof fn lemma_pieces_some(t: Seq<u8>, l: Seq<u8>, s: Seq<u8>, n: int, last_end: int)
    requires
        0 <= last_end <= t.len(),
        n > 0,
        n == s.len(),
        l.len() == t.len(),
        forall|i: int| 0 <= i <= t.len() ==> is_char_boundary(t, i),
        forall|i: int| 0 <= i <= l.len() ==> is_char_boundary(l, i),
    ensures
        highlight_pieces(t, l, s, n, last_end) is Some,
    decreases t.len() - last_end,
{
    lemma_find_from_bounds(l, s, last_end);
    match find_from(l, s, last_end) {
        None => {},
        Some(a) => {
            lemma_pieces_some(t, l, s, n, a + n);
        },
    }
}

/// Of ASCII text and search, whose lowercase forms are the ASCII ones, the
/// highlighting and the first match can always be cut.
pub proof fn lemma_ascii_cuts(text: Seq<char>, search: Seq<char>)
    requires
        is_ascii_chars(text),
        is_ascii_chars(search),
        ascii_lowered(lowercase(text), text),
        ascii_lowered(lowercase(search), search),
    ensures
        highlight_plan(text, search) is Some,
        first_match(text, search) is Some,
{
    lemma_ascii_boundaries(text);
    lemma_ascii_boundaries(search);
    lemma_ascii_boundaries(lowercase(text));
    lemma_ascii_boundaries(lowercase(search));
    let t = encode_utf8(text);
    let n = encode_utf8(search).len() as int;
    if n > 0 {
        lemma_pieces_some(t, encode_utf8(lowercase(text)), encode_utf8(lowercase(search)), n, 0);
    }
    lemma_find_from_bounds(encode_utf8(lowercase(text)), encode_utf8(lowercase(search)), 0);
}

} // verus!
