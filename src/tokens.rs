//! Token streams as the library sees them: the top-level tokens of a text,
//! each carrying its own text, and the rendering of a run of tokens.

use vstd::prelude::*;
use vstd::string::*;
use proc_macro2::{Delimiter, Spacing, TokenTree};

verus! {

/// The delimiter of a group.
#[derive(Clone, Copy, PartialEq, Eq, Structural, Debug)]
pub enum Delim {
    Paren,
    Brace,
    Bracket,
    Invisible,
}

/// One token; a group holds the tokens it encloses.
#[derive(Debug)]
pub enum Tok {
    Ident(String),
    /// The punctuation character, and whether it is joined to the next one.
    Punct(String, bool),
    Literal(String),
    Group(Delim, Vec<Tok>),
}

/// The tokens that `proc_macro2`'s own (fallback) lexer reads out of a text
/// (a group's tokens are those it reads out of the group's printed
/// contents), `None` where the text does not lex.
pub uninterp spec fn lexed(s: Seq<char>) -> Option<Seq<Tok>>;

/// Relies on `proc_macro2::TokenStream`'s `FromStr` and on the `Display` of
/// its tokens, with `proc_macro2::fallback::force` selecting proc-macro2's
/// own lexer in every process (inside a proc macro too) and
/// `proc_macro2::fallback::unforce` handing the choice back to
/// proc-macro2's detection afterwards. In
/// version 1.0.107 that lexer reports a `LexError` on text it cannot lex.
#[verifier::external_body]
pub(crate) fn lex(s: &str) -> (r: Option<Vec<Tok>>)
    ensures
        match r {
            Some(v) => lexed(s@) == Some(v@),
            None => lexed(s@) is None,
        },
{
    proc_macro2::fallback::force();
    let parsed: Option<proc_macro2::TokenStream> = s.parse().ok();
    proc_macro2::fallback::unforce();
    let mut v = Vec::new();
    for tt in parsed? { v.push(match tt {
            TokenTree::Ident(i) => Tok::Ident(i.to_string()),
            TokenTree::Punct(p) => Tok::Punct(p.to_string(), p.spacing() == Spacing::Joint),
            TokenTree::Literal(l) => Tok::Literal(l.to_string()),
            TokenTree::Group(g) => Tok::Group(match g.delimiter() {
                Delimiter::Parenthesis => Delim::Paren, Delimiter::Brace => Delim::Brace,
                Delimiter::Bracket => Delim::Bracket, Delimiter::None => Delim::Invisible,
            }, lex(&g.stream().to_string())?),
    }); }
    Some(v)
}

/// The text of a group around the text of what it encloses.
pub open spec fn group_text(d: Delim, inner: Seq<char>) -> Seq<char> {
    match d {
        Delim::Paren => "("@ + inner + ")"@,
        Delim::Bracket => "["@ + inner + "]"@,
        Delim::Brace => if inner.len() == 0 {
            "{}"@
        } else {
            "{ "@ + inner + " }"@
        },
        Delim::Invisible => inner,
    }
}

/// The text of one token.
pub open spec fn tok_text(t: Tok) -> Seq<char>
    decreases t,
{
    match t {
        Tok::Ident(s) => s@,
        Tok::Punct(s, _) => s@,
        Tok::Literal(s) => s@,
        Tok::Group(d, v) => group_text(d, render(v@)),
    }
}

/// What stands between a token and the next: nothing after a joined
/// punctuation character, one space otherwise.
pub open spec fn gap(prev: Tok) -> Seq<char> {
    if prev matches Tok::Punct(_, true) {
        Seq::empty()
    } else {
        " "@
    }
}

/// The text of a run of tokens.
pub open spec fn render(ts: Seq<Tok>) -> Seq<char>
    decreases ts,
{
    if ts.len() == 0 {
        Seq::empty()
    } else if ts.len() == 1 {
        tok_text(ts[0])
    } else {
        render(ts.subrange(0, ts.len() - 1)) + gap(ts[ts.len() - 2]) + tok_text(ts[ts.len() - 1])
    }
}

/// Whether `t` is the identifier `word`.
pub open spec fn is_word(t: Tok, word: Seq<char>) -> bool {
    t matches Tok::Ident(s) && s@ == word
}

/// Whether `t` is the punctuation character `p`.
pub open spec fn is_punct(t: Tok, p: Seq<char>) -> bool {
    t matches Tok::Punct(s, _) && s@ == p
}

/// Whether two texts are equal.
pub fn str_eq(a: &str, b: &str) -> (r: bool)
    ensures
        r == (a@ == b@),
{
    let n = a.unicode_len();
    if n != b.unicode_len() {
        return false;
    }
    let mut i: usize = 0;
    while i < n
        invariant
            n == a@.len(),
            n == b@.len(),
            i <= n,
            forall|j: int| 0 <= j < i ==> a@[j] == b@[j],
        decreases n - i,
    {
        if a.get_char(i) != b.get_char(i) {
            return false;
        }
        i = i + 1;
    }
    assert(a@ =~= b@);
    true
}

/// Whether `t` is the identifier `word`.
pub fn tok_is_word(t: &Tok, word: &str) -> (r: bool)
    ensures
        r == is_word(*t, word@),
{
    match t {
        Tok::Ident(s) => str_eq(s.as_str(), word),
        _ => false,
    }
}

/// Whether `t` is the punctuation character `p`.
pub fn tok_is_punct(t: &Tok, p: &str) -> (r: bool)
    ensures
        r == is_punct(*t, p@),
{
    match t {
        Tok::Punct(s, _) => str_eq(s.as_str(), p),
        _ => false,
    }
}

/// The text of one token.
pub fn token_text(t: &Tok) -> (r: String)
    ensures
        r@ == tok_text(*t),
    decreases t,
{
    match t {
        Tok::Ident(s) => s.clone(),
        Tok::Punct(s, _) => s.clone(),
        Tok::Literal(s) => s.clone(),
        Tok::Group(d, v) => {
            let inner = render_range(v, 0, v.len());
            assert(v@.subrange(0, v@.len() as int) =~= v@);
            match d {
                Delim::Paren => String::from_str("(").concat(inner.as_str()).concat(")"),
                Delim::Bracket => String::from_str("[").concat(inner.as_str()).concat("]"),
                Delim::Brace => if inner.unicode_len() == 0 {
                    String::from_str("{}")
                } else {
                    String::from_str("{ ").concat(inner.as_str()).concat(" }")
                },
                Delim::Invisible => inner,
            }
        },
    }
}

/// The text of the tokens `ts[lo..hi]`.
pub fn render_range(ts: &Vec<Tok>, lo: usize, hi: usize) -> (r: String)
    requires
        lo <= hi <= ts@.len(),
    ensures
        r@ == render(ts@.subrange(lo as int, hi as int)),
    decreases ts,
{
    let mut out = String::new();
    let mut i: usize = lo;
    while i < hi
        invariant
            lo <= i <= hi <= ts@.len(),
            out@ == render(ts@.subrange(lo as int, i as int)),
        decreases hi - i,
    {
        let ghost before = ts@.subrange(lo as int, i as int);
        let ghost after = ts@.subrange(lo as int, i + 1);
        assert(after.subrange(0, after.len() - 1) =~= before);
        assert(after[after.len() - 1] == ts@[i as int]);
        proof {
            broadcast use vstd::std_specs::vec::axiom_vec_index_decreases;
            assert(decreases_to!(ts => ts[i as int]));
        }
        let text = token_text(&ts[i]);
        if i > lo {
            assert(after[after.len() - 2] == ts@[i - 1]);
            let joined = match &ts[i - 1] {
                Tok::Punct(_, j) => *j,
                _ => false,
            };
            if !joined {
                out.append(" ");
            }
        }
        out.append(text.as_str());
        i = i + 1;
    }
    out
}

/// The text of a run of tokens.
pub fn render_all(ts: &Vec<Tok>) -> (r: String)
    ensures
        r@ == render(ts@),
{
    let r = render_range(ts, 0, ts.len());
    assert(ts@.subrange(0, ts@.len() as int) =~= ts@);
    r
}

/// The text of the tokens of `s`, as this library renders them; `None`
/// where `s` does not lex.
pub fn render_text(s: &str) -> (r: Option<String>)
    ensures
        match r {
            Some(t) => lexed(s@) matches Some(ts) && t@ == render(ts),
            None => lexed(s@) is None,
        },
{
    match lex(s) {
        Some(ts) => Some(render_all(&ts)),
        None => None,
    }
}

/// Whether a token holds no C string literal (`c"..."`, `cr"..."`), which
/// `syn` 1 cannot read, anywhere inside it.
pub open spec fn tok_no_c_strings(t: Tok) -> bool
    decreases t,
{
    match t {
        Tok::Literal(s) => !(s@.len() > 0 && s@[0] == 'c'),
        Tok::Group(_, v) => no_c_strings(v@),
        _ => true,
    }
}

/// Whether a run of tokens holds no C string literal anywhere inside it.
pub open spec fn no_c_strings(ts: Seq<Tok>) -> bool
    decreases ts,
{
    if ts.len() == 0 {
        true
    } else {
        no_c_strings(ts.subrange(0, ts.len() - 1)) && tok_no_c_strings(ts[ts.len() - 1])
    }
}

/// Whether a token holds no C string literal anywhere inside it.
pub fn tok_free_of_c_strings(t: &Tok) -> (r: bool)
    ensures
        r == tok_no_c_strings(*t),
    decreases t,
{
    match t {
        Tok::Literal(s) => !(s.as_str().unicode_len() > 0 && s.as_str().get_char(0) == 'c'),
        Tok::Group(_, v) => free_of_c_strings(v),
        _ => true,
    }
}

/// Whether a run of tokens holds no C string literal anywhere inside it.
pub fn free_of_c_strings(ts: &Vec<Tok>) -> (r: bool)
    ensures
        r == no_c_strings(ts@),
    decreases ts,
{
    let mut i: usize = 0;
    while i < ts.len()
        invariant
            i <= ts@.len(),
            no_c_strings(ts@.subrange(0, i as int)),
        decreases ts@.len() - i,
    {
        assert(ts@.subrange(0, i + 1).subrange(0, i as int) =~= ts@.subrange(0, i as int));
        proof {
            broadcast use vstd::std_specs::vec::axiom_vec_index_decreases;
            assert(decreases_to!(ts => ts[i as int]));
        }
        if !tok_free_of_c_strings(&ts[i]) {
            proof {
                if no_c_strings(ts@) {
                    lemma_no_c_strings_prefix(ts@, i as int + 1);
                }
            }
            return false;
        }
        i = i + 1;
    }
    assert(ts@.subrange(0, ts@.len() as int) =~= ts@);
    true
}

/// A run free of C string literals has every prefix free of them.
proof fn lemma_no_c_strings_prefix(ts: Seq<Tok>, k: int)
    requires
        0 < k <= ts.len(),
        no_c_strings(ts),
    ensures
        no_c_strings(ts.subrange(0, k)),
    decreases ts.len() - k,
{
    if k < ts.len() {
        lemma_no_c_strings_prefix(ts, k + 1);
        assert(ts.subrange(0, k + 1).subrange(0, k) =~= ts.subrange(0, k));
    } else {
        assert(ts.subrange(0, k) =~= ts);
    }
}

} // verus!
