//! The payload that an attribute adapter sends along with the foreign item:
//! the attached item's text and the foreign path's text, joined at a `|`.

use vstd::prelude::*;
use vstd::string::*;
use crate::forward::{is_str_lit, str_lit_shape, tok_is_str_lit};
use crate::item::{item_name_checked, item_name};
use crate::tokens::{is_punct, lex, lexed, render, render_range, tok_is_punct, tok_text, Tok};

verus! {

/// The attached item's text and the foreign path's text, joined at a `|`.
pub open spec fn joined(item: Seq<char>, path: Seq<char>) -> Seq<char> {
    item + "|"@ + path
}

/// Whether a text holds no `|`.
pub open spec fn bar_free(s: Seq<char>) -> bool {
    forall|i: int| 0 <= i < s.len() ==> s[i] != '|'
}

/// The index of the first `|` in `s[i..]`, or the length of `s`.
pub open spec fn first_bar(s: Seq<char>, i: int) -> int
    decreases s.len() - i,
{
    if i < 0 || i >= s.len() {
        s.len() as int
    } else if s[i] == '|' {
        i
    } else {
        first_bar(s, i + 1)
    }
}

/// The two texts of a payload, split at its first `|`; `None` where it holds
/// none.
pub open spec fn split_of(e: Seq<char>) -> Option<(Seq<char>, Seq<char>)> {
    let k = first_bar(e, 0);
    if k < e.len() {
        Some((e.subrange(0, k), e.subrange(k + 1, e.len() as int)))
    } else {
        None
    }
}

proof fn lemma_first_bar_skips(e: Seq<char>, item: Seq<char>, i: int)
    requires
        0 <= i <= item.len(),
        bar_free(item),
        item.len() < e.len(),
        e[item.len() as int] == '|',
        e.subrange(0, item.len() as int) == item,
    ensures
        first_bar(e, i) == item.len(),
    decreases item.len() - i,
{
    if i < item.len() {
        assert(e[i] == item[i]);
        lemma_first_bar_skips(e, item, i + 1);
    }
}

/// Joining an attached item's text and a path's text and splitting the
/// result again gives both back, where the item's text holds no `|`.
pub proof fn lemma_payload_round_trip(item: Seq<char>, path: Seq<char>)
    requires
        bar_free(item),
    ensures
        split_of(joined(item, path)) == Some((item, path)),
{
    reveal_strlit("|");
    let e = joined(item, path);
    assert(e.subrange(0, item.len() as int) =~= item);
    assert(e[item.len() as int] == '|');
    lemma_first_bar_skips(e, item, 0);
    assert(e.subrange(item.len() as int + 1, e.len() as int) =~= path);
}

/// The payload for the attached item `item` and the foreign path `path`.
pub fn join_extra(item: &str, path: &str) -> (r: String)
    ensures
        r@ == joined(item@, path@),
{
    String::from_str(item).concat("|").concat(path)
}

/// Splits a payload at its first `|`.
pub fn split_extra(e: &str) -> (r: Option<(String, String)>)
    ensures
        match r {
            Some((a, b)) => split_of(e@) == Some((a@, b@)),
            None => split_of(e@) is None,
        },
{
    let n = e.unicode_len();
    let mut i: usize = 0;
    while i < n
        invariant
            n == e@.len(),
            i <= n,
            first_bar(e@, 0) == first_bar(e@, i as int),
        decreases n - i,
    {
        if e.get_char(i) == '|' {
            let a = String::from_str(e.substring_char(0, i));
            let b = String::from_str(e.substring_char(i + 1, n));
            return Some((a, b));
        }
        i = i + 1;
    }
    None
}

/// The value of a string literal as `syn` reads it, `None` where the text is
/// no string literal.
pub uninterp spec fn str_lit_value(s: Seq<char>) -> Option<Seq<char>>;

/// Relies on `syn::parse_str::<syn::LitStr>` and `syn::LitStr::value`, with
/// `proc_macro2::fallback::force`/`unforce` around them so that syn reads
/// the text with proc-macro2's own lexer in every process: the value of a
/// string literal depends on its text alone. The text must start
/// as a string literal does: on a C string literal `syn` 1.0.109 panics.
#[verifier::external_body]
fn lit_str_value(s: &str) -> (r: Option<String>)
    requires
        str_lit_shape(s@),
    ensures
        match r {
            Some(v) => str_lit_value(s@) == Some(v@),
            None => str_lit_value(s@) is None,
        },
{
    proc_macro2::fallback::force();
    let lit = syn::parse_str::<syn::LitStr>(s);
    proc_macro2::fallback::unforce();
    match lit {
        Ok(l) => Some(l.value()),
        Err(_) => None,
    }
}

/// What the inner macro of an attribute adapter receives: the foreign item
/// and the payload literal.
pub struct AttrItemWithExtra {
    pub imported_item: String,
    pub extra: String,
}

/// `item, "extra"` read from tokens: the item's text and the literal's text.
pub open spec fn item_with_extra_of(ts: Seq<Tok>) -> Option<(Seq<char>, Seq<char>)> {
    let n = ts.len() as int;
    let item = render(ts.subrange(0, n - 2));
    if n >= 3 && is_punct(ts[n - 2], ","@) && is_str_lit(ts[n - 1]) && item_name_checked(item) is Some {
        Some((item, tok_text(ts[n - 1])))
    } else {
        None
    }
}

impl AttrItemWithExtra {
    /// Reads `item, "extra"`.
    pub fn parse(s: &str) -> (r: Option<AttrItemWithExtra>)
        ensures
            match r {
                Some(a) => lexed(s@) matches Some(ts) && item_with_extra_of(ts) == Some(
                    (a.imported_item@, a.extra@),
                ),
                None => lexed(s@) matches Some(ts) ==> item_with_extra_of(ts) is None,
            },
    {
        let ts = match lex(s) {
            Some(ts) => ts,
            None => return None,
        };
        let n = ts.len();
        if n < 3 || !tok_is_punct(&ts[n - 2], ",") || !tok_is_str_lit(&ts[n - 1]) {
            return None;
        }
        let extra = match &ts[n - 1] {
            Tok::Literal(l) => l.clone(),
            _ => return None,
        };
        let item = render_range(&ts, 0, n - 2);
        match item_name(item.as_str()) {
            Some(_) => Some(AttrItemWithExtra { imported_item: item, extra }),
            None => None,
        }
    }
}

/// The foreign item, the attached item and the foreign path that the inner
/// macro of an attribute adapter receives as `item, "payload"`.
pub open spec fn forwarded_parts_of(s: Seq<char>) -> Option<(Seq<char>, Seq<char>, Seq<char>)> {
    match lexed(s) {
        Some(ts) => parts_of_tokens(ts),
        None => None,
    }
}

/// The foreign item, the attached item and the foreign path in the tokens
/// `item, "payload"`.
pub open spec fn parts_of_tokens(ts: Seq<Tok>) -> Option<(Seq<char>, Seq<char>, Seq<char>)> {
    match item_with_extra_of(ts) {
        Some((item, lit)) => match str_lit_value(lit) {
            Some(v) => match split_of(v) {
                Some((attached, path)) => Some((item, attached, path)),
                None => None,
            },
            None => None,
        },
        None => None,
    }
}

/// Splits what the inner macro of an attribute adapter receives into the
/// foreign item, the attached item and the foreign path.
pub fn split_forwarded(s: &str) -> (r: Option<(String, String, String)>)
    ensures
        match r {
            Some((item, attached, path)) => forwarded_parts_of(s@) == Some(
                (item@, attached@, path@),
            ),
            None => forwarded_parts_of(s@) is None,
        },
{
    let parsed = match AttrItemWithExtra::parse(s) {
        Some(p) => p,
        None => return None,
    };
    let value = match lit_str_value(parsed.extra.as_str()) {
        Some(v) => v,
        None => return None,
    };
    match split_extra(value.as_str()) {
        Some((attached, path)) => Some((parsed.imported_item, attached, path)),
        None => None,
    }
}

/// The payload of an adapter with custom parsing: the attached item's text,
/// the foreign path's text and the custom argument's text, joined at `|`.
pub open spec fn joined_custom(item: Seq<char>, path: Seq<char>, custom: Seq<char>) -> Seq<char> {
    joined(item, joined(path, custom))
}

/// The three texts of a custom payload: split at the first `|`, then the
/// rest at its first `|`.
pub open spec fn split_custom_of(e: Seq<char>) -> Option<(Seq<char>, Seq<char>, Seq<char>)> {
    match split_of(e) {
        Some((item, rest)) => match split_of(rest) {
            Some((path, custom)) => Some((item, path, custom)),
            None => None,
        },
        None => None,
    }
}

/// Joining an attached item's text, a path's text and a custom argument's
/// text and splitting the result again gives all three back, where neither
/// the item's text nor the path's text holds a `|`.
pub proof fn lemma_custom_payload_round_trip(item: Seq<char>, path: Seq<char>, custom: Seq<char>)
    requires
        bar_free(item),
        bar_free(path),
    ensures
        split_custom_of(joined_custom(item, path, custom)) == Some((item, path, custom)),
{
    lemma_payload_round_trip(item, joined(path, custom));
    lemma_payload_round_trip(path, custom);
}

/// The payload for an adapter with custom parsing.
pub fn join_custom_extra(item: &str, path: &str, custom: &str) -> (r: String)
    ensures
        r@ == joined_custom(item@, path@, custom@),
{
    let rest = join_extra(path, custom);
    let r = String::from_str(item).concat("|").concat(rest.as_str());
    assert(r@ =~= joined_custom(item@, path@, custom@));
    r
}

/// Splits a custom payload into its three texts.
pub fn split_custom_extra(e: &str) -> (r: Option<(String, String, String)>)
    ensures
        match r {
            Some((a, b, c)) => split_custom_of(e@) == Some((a@, b@, c@)),
            None => split_custom_of(e@) is None,
        },
{
    match split_extra(e) {
        Some((item, rest)) => match split_extra(rest.as_str()) {
            Some((path, custom)) => Some((item, path, custom)),
            None => None,
        },
        None => None,
    }
}

/// The foreign item, the attached item, the foreign path and the custom
/// argument that the inner macro of an adapter with custom parsing receives
/// as `item, "payload"`.
pub open spec fn forwarded_custom_parts_of(s: Seq<char>) -> Option<(Seq<char>, Seq<char>, Seq<char>, Seq<char>)> {
    match lexed(s) {
        Some(ts) => match item_with_extra_of(ts) {
            Some((item, lit)) => match str_lit_value(lit) {
                Some(v) => match split_custom_of(v) {
                    Some((attached, path, custom)) => Some((item, attached, path, custom)),
                    None => None,
                },
                None => None,
            },
            None => None,
        },
        None => None,
    }
}

/// Splits what the inner macro of an adapter with custom parsing receives
/// into the foreign item, the attached item, the foreign path and the custom
/// argument.
pub fn split_forwarded_custom(s: &str) -> (r: Option<(String, String, String, String)>)
    ensures
        match r {
            Some((item, attached, path, custom)) => forwarded_custom_parts_of(s@) == Some(
                (item@, attached@, path@, custom@),
            ),
            None => forwarded_custom_parts_of(s@) is None,
        },
{
    let parsed = match AttrItemWithExtra::parse(s) {
        Some(p) => p,
        None => return None,
    };
    let value = match lit_str_value(parsed.extra.as_str()) {
        Some(v) => v,
        None => return None,
    };
    match split_custom_extra(value.as_str()) {
        Some((attached, path, custom)) => Some((parsed.imported_item, attached, path, custom)),
        None => None,
    }
}

} // verus!
