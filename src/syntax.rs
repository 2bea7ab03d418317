//! The small grammars of this library over top-level tokens: paths, comma
//! separated arguments, and the attributes and visibility before an item.

use vstd::prelude::*;
use crate::tokens::{gap, render, render_range, is_punct, is_word, tok_is_punct, tok_is_word, tok_text, Delim, Tok};

verus! {

/// `p[i]` and `p[i + 1]` form the path separator `::`.
pub open spec fn is_sep(p: Seq<Tok>, i: int) -> bool {
    &&& 0 <= i
    &&& i + 1 < p.len()
    &&& (p[i] matches Tok::Punct(_, true))
    &&& is_punct(p[i], ":"@)
    &&& is_punct(p[i + 1], ":"@)
}

/// The segments of `p[lo..]` read as `ident (:: ident)*`, if it is one.
pub open spec fn segments_from(p: Seq<Tok>, lo: int) -> Option<Seq<Seq<char>>>
    decreases p.len() - lo,
{
    if lo < 0 || lo >= p.len() || !(p[lo] is Ident) {
        None
    } else if lo + 1 == p.len() {
        Some(seq![tok_text(p[lo])])
    } else if lo + 3 < p.len() && is_sep(p, lo + 1) {
        match segments_from(p, lo + 3) {
            Some(rest) => Some(seq![tok_text(p[lo])] + rest),
            None => None,
        }
    } else {
        None
    }
}

proof fn lemma_segments_last(p: Seq<Tok>, lo: int)
    requires
        segments_from(p, lo) is Some,
    ensures
        p.len() > 0,
        p.last() is Ident,
        tok_text(p.last()) == segments_from(p, lo)->0.last(),
    decreases p.len() - lo,
{
    if lo + 1 != p.len() {
        lemma_segments_last(p, lo + 3);
    }
}

/// A path ends in an identifier, which is its last segment.
pub proof fn lemma_path_last(p: Seq<Tok>)
    requires
        path_of(p) is Some,
    ensures
        p.len() > 0,
        p.last() is Ident,
        tok_text(p.last()) == path_of(p)->0.last(),
{
    if is_sep(p, 0) {
        lemma_segments_last(p, 2);
    } else {
        lemma_segments_last(p, 0);
    }
}

/// The segments of a path, `None` where `p` is not a path. A path may start
/// with `::`; its segments are plain identifiers.
pub open spec fn path_of(p: Seq<Tok>) -> Option<Seq<Seq<char>>> {
    if is_sep(p, 0) {
        segments_from(p, 2)
    } else {
        segments_from(p, 0)
    }
}

/// The views of a vector of texts.
pub open spec fn texts(v: Seq<String>) -> Seq<Seq<char>> {
    v.map_values(|s: String| s@)
}

/// Whether `p[i]`, `p[i + 1]` form `::`, where `p` is `ts[base..hi]`.
pub fn sep_at(ts: &Vec<Tok>, base: usize, hi: usize, i: usize) -> (r: bool)
    requires
        base <= hi <= ts@.len(),
    ensures
        r == is_sep(ts@.subrange(base as int, hi as int), i as int),
{
    if i >= hi - base || hi - base - i < 2 {
        return false;
    }
    let joined = match &ts[base + i] {
        Tok::Punct(_, j) => *j,
        _ => false,
    };
    joined && tok_is_punct(&ts[base + i], ":") && tok_is_punct(&ts[base + i + 1], ":")
}

/// The segments of `p[lo..]` read as `ident (:: ident)*`, where `p` is
/// `ts[base..hi]`.
pub fn segments_at(ts: &Vec<Tok>, base: usize, hi: usize, lo: usize) -> (r: Option<Vec<String>>)
    requires
        base <= hi <= ts@.len(),
    ensures
        match r {
            Some(v) => segments_from(ts@.subrange(base as int, hi as int), lo as int) == Some(
                texts(v@),
            ),
            None => segments_from(ts@.subrange(base as int, hi as int), lo as int) is None,
        },
    decreases hi - base - lo,
{
    let ghost p = ts@.subrange(base as int, hi as int);
    if lo >= hi - base {
        return None;
    }
    assert(p[lo as int] == ts@[base + lo]);
    let first = match &ts[base + lo] {
        Tok::Ident(s) => s.clone(),
        _ => return None,
    };
    if lo + 1 == hi - base {
        let v = vec![first];
        assert(texts(v@) =~= seq![tok_text(p[lo as int])]);
        return Some(v);
    }
    if hi - base - lo > 3 && sep_at(ts, base, hi, lo + 1) {
        match segments_at(ts, base, hi, lo + 3) {
            Some(rest) => {
                let mut v = vec![first];
                let mut rest = rest;
                let ghost rv = texts(rest@);
                v.append(&mut rest);
                assert(texts(v@) =~= seq![tok_text(p[lo as int])] + rv);
                Some(v)
            },
            None => None,
        }
    } else {
        None
    }
}

/// The segments of the path `ts[lo..hi]`.
pub fn parse_path(ts: &Vec<Tok>, lo: usize, hi: usize) -> (r: Option<Vec<String>>)
    requires
        lo <= hi <= ts@.len(),
    ensures
        match r {
            Some(v) => path_of(ts@.subrange(lo as int, hi as int)) == Some(texts(v@)),
            None => path_of(ts@.subrange(lo as int, hi as int)) is None,
        },
{
    if sep_at(ts, lo, hi, 0) {
        segments_at(ts, lo, hi, 2)
    } else {
        segments_at(ts, lo, hi, 0)
    }
}

/// The segments of the path `ts`.
pub fn parse_whole_path(ts: &Vec<Tok>) -> (r: Option<Vec<String>>)
    ensures
        match r {
            Some(v) => path_of(ts@) == Some(texts(v@)),
            None => path_of(ts@) is None,
        },
{
    assert(ts@.subrange(0, ts@.len() as int) =~= ts@);
    parse_path(ts, 0, ts.len())
}

/// The index of the first comma in `ts[lo..]`, or the length of `ts`.
pub open spec fn first_comma(ts: Seq<Tok>, lo: int) -> int
    decreases ts.len() - lo,
{
    if lo < 0 || lo >= ts.len() {
        ts.len() as int
    } else if is_punct(ts[lo], ","@) {
        lo
    } else {
        first_comma(ts, lo + 1)
    }
}

/// The index of the first comma in `ts[lo..]`, or the length of `ts`.
pub fn find_comma(ts: &Vec<Tok>, lo: usize) -> (r: usize)
    requires
        lo <= ts@.len(),
    ensures
        r as int == first_comma(ts@, lo as int),
        lo <= r <= ts@.len(),
{
    let mut i = lo;
    while i < ts.len()
        invariant
            lo <= i <= ts@.len(),
            first_comma(ts@, lo as int) == first_comma(ts@, i as int),
        decreases ts@.len() - i,
    {
        if tok_is_punct(&ts[i], ",") {
            return i;
        }
        i = i + 1;
    }
    i
}

/// The index after the outer attributes `#[...]` that start at `i`.
pub open spec fn skip_attrs(ts: Seq<Tok>, i: int) -> int
    decreases ts.len() - i,
{
    if 0 <= i && i + 1 < ts.len() && is_punct(ts[i], "#"@) && (ts[i + 1] matches Tok::Group(
        Delim::Bracket,
        _,
    )) {
        skip_attrs(ts, i + 2)
    } else {
        i
    }
}

/// The index after the visibility that starts at `i`, if any.
pub open spec fn skip_vis(ts: Seq<Tok>, i: int) -> int {
    if 0 <= i < ts.len() && is_word(ts[i], "pub"@) {
        if i + 1 < ts.len() && (ts[i + 1] matches Tok::Group(Delim::Paren, _)) {
            i + 2
        } else {
            i + 1
        }
    } else {
        i
    }
}

/// The index after the outer attributes that start at `i`.
pub fn attrs_end(ts: &Vec<Tok>, i: usize) -> (r: usize)
    requires
        i <= ts@.len(),
    ensures
        r as int == skip_attrs(ts@, i as int),
        i <= r <= ts@.len(),
    decreases ts@.len() - i,
{
    if ts.len() - i >= 2 && tok_is_punct(&ts[i], "#") {
        if let Tok::Group(Delim::Bracket, _) = &ts[i + 1] {
            return attrs_end(ts, i + 2);
        }
    }
    i
}

/// The index after the visibility that starts at `i`, if any.
pub fn vis_end(ts: &Vec<Tok>, i: usize) -> (r: usize)
    requires
        i <= ts@.len(),
    ensures
        r as int == skip_vis(ts@, i as int),
        i <= r <= ts@.len(),
{
    if i < ts.len() && tok_is_word(&ts[i], "pub") {
        if ts.len() - i >= 2 {
            if let Tok::Group(Delim::Paren, _) = &ts[i + 1] {
                return i + 2;
            }
        }
        i + 1
    } else {
        i
    }
}

/// The text of the path `p` with its last segment replaced by `last`.
pub open spec fn replace_last(p: Seq<Tok>, last: Seq<char>) -> Seq<char> {
    if p.len() <= 1 {
        last
    } else {
        render(p.drop_last()) + gap(p[p.len() - 2]) + last
    }
}

/// The text of the path `ts[lo..hi]` with its last segment replaced by
/// `last`.
pub fn replace_last_segment(ts: &Vec<Tok>, lo: usize, hi: usize, last: &str) -> (r: String)
    requires
        lo <= hi <= ts@.len(),
    ensures
        r@ == replace_last(ts@.subrange(lo as int, hi as int), last@),
{
    let ghost p = ts@.subrange(lo as int, hi as int);
    if hi - lo <= 1 {
        return String::from_str(last);
    }
    let head = render_range(ts, lo, hi - 1);
    assert(ts@.subrange(lo as int, hi - 1) =~= p.drop_last());
    assert(p[p.len() - 2] == ts@[hi - 2]);
    let joined = match &ts[hi - 2] {
        Tok::Punct(_, j) => *j,
        _ => false,
    };
    if joined {
        head.concat(last)
    } else {
        head.concat(" ").concat(last)
    }
}

} // verus!
