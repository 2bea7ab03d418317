//! The forwarder and the import resolver: the invocation that routes an
//! exported item's tokens into a target macro, and what that macro makes of
//! them.

use vstd::prelude::*;
use vstd::string::*;
use crate::error::MacroError;
use crate::export::text_result;
use crate::item::{item_name_checked, item_name};
use crate::names::{export_key, export_tokens_macro_ident, private_path, private_path_of};
use crate::syntax::{find_comma, first_comma, parse_path, path_of, texts};
use crate::tokens::{is_punct, lex, lexed, render, render_range, tok_is_punct, tok_text, Tok};

verus! {

/// Whether a text starts as a string literal does: `"` or `r"` or `r#`.
pub open spec fn str_lit_shape(s: Seq<char>) -> bool {
    s.len() >= 2 && (s[0] == '"' || (s[0] == 'r' && (s[1] == '"' || s[1] == '#')))
}

/// Whether a token is a string literal.
pub open spec fn is_str_lit(t: Tok) -> bool {
    t matches Tok::Literal(s) && str_lit_shape(s@)
}

/// Whether a token is a string literal.
pub fn tok_is_str_lit(t: &Tok) -> (r: bool)
    ensures
        r == is_str_lit(*t),
{
    match t {
        Tok::Literal(s) => {
            let n = s.as_str().unicode_len();
            if n < 2 {
                return false;
            }
            let c0 = s.as_str().get_char(0);
            let c1 = s.as_str().get_char(1);
            c0 == '"' || (c0 == 'r' && (c1 == '"' || c1 == '#'))
        },
        _ => false,
    }
}

/// The source path a retrieval macro is reached by: its export key, under
/// the first segment of `source` where `source` has more than one.
pub open spec fn source_macro_path(source: Seq<Seq<char>>) -> Seq<char> {
    if source.len() > 1 {
        source[0] + "::"@ + export_key(source.last())
    } else {
        export_key(source.last())
    }
}

/// Arguments of forwarding: the source path's segments, the target path's
/// text, and the text of the string literal passed on, if any.
pub struct ForwardTokensArgs {
    pub source: Vec<String>,
    pub target: String,
    pub extra: Option<String>,
}

/// The arguments `source, target` or `source, target, "extra"` read from
/// tokens (a trailing comma is allowed).
pub open spec fn forward_args_of(ts: Seq<Tok>) -> Option<(Seq<Seq<char>>, Seq<char>, Option<Seq<char>>)> {
    let c1 = first_comma(ts, 0);
    let c2 = first_comma(ts, c1 + 1);
    let target = ts.subrange(c1 + 1, c2);
    if c1 >= ts.len() || path_of(ts.subrange(0, c1)) is None || path_of(target) is None {
        None
    } else if c2 >= ts.len() || c2 + 1 == ts.len() {
        Some((path_of(ts.subrange(0, c1))->0, render(target), None))
    } else if c2 + 2 == ts.len() && is_str_lit(ts[c2 + 1]) {
        Some((path_of(ts.subrange(0, c1))->0, render(target), Some(tok_text(ts[c2 + 1]))))
    } else {
        None
    }
}

impl ForwardTokensArgs {
    /// Reads `source, target` or `source, target, "extra"`.
    pub fn parse(s: &str) -> (r: Option<ForwardTokensArgs>)
        ensures
            match r {
                Some(a) => lexed(s@) matches Some(ts) && forward_args_of(ts) == Some(
                    (
                        texts(a.source@),
                        a.target@,
                        match a.extra {
                            Some(e) => Some(e@),
                            None => None,
                        },
                    ),
                ),
                None => lexed(s@) matches Some(ts) ==> forward_args_of(ts) is None,
            },
    {
        let ts = match lex(s) {
            Some(ts) => ts,
            None => return None,
        };
        let c1 = find_comma(&ts, 0);
        if c1 >= ts.len() {
            return None;
        }
        let c2 = find_comma(&ts, c1 + 1);
        let source = match parse_path(&ts, 0, c1) {
            Some(p) => p,
            None => return None,
        };
        match parse_path(&ts, c1 + 1, c2) {
            Some(_) => {},
            None => return None,
        }
        let target = render_range(&ts, c1 + 1, c2);
        if c2 >= ts.len() || c2 + 1 == ts.len() {
            Some(ForwardTokensArgs { source, target, extra: None })
        } else if ts.len() - c2 == 2 && tok_is_str_lit(&ts[c2 + 1]) {
            let extra = match &ts[c2 + 1] {
                Tok::Literal(l) => l.clone(),
                _ => return None,
            };
            Some(ForwardTokensArgs { source, target, extra: Some(extra) })
        } else {
            None
        }
    }
}

/// What forwarding expands to: a call of the source's retrieval macro with
/// the target (and the forwarding macro and the extra literal, where one is
/// given).
pub open spec fn forward_output(
    source: Seq<Seq<char>>,
    target: Seq<char>,
    extra: Option<Seq<char>>,
    root: Seq<char>,
) -> Seq<char> {
    match extra {
        Some(e) => source_macro_path(source) + "! { "@ + target + ", "@ + private_path_of(
            root,
            "forward_tokens_inner"@,
        ) + ", "@ + e + " }"@,
        None => source_macro_path(source) + "! { "@ + target + ", __forward_tokens_inner }"@,
    }
}

/// What forwarding expands to for the arguments `s`.
pub open spec fn forward_result(s: Seq<char>, root: Seq<char>) -> Result<Seq<char>, MacroError> {
    match lexed(s) {
        Some(ts) => match forward_args_of(ts) {
            Some((source, target, extra)) => Ok(forward_output(source, target, extra, root)),
            None => Err(MacroError::BadForwardArgs),
        },
        None => Err(MacroError::BadForwardArgs),
    }
}

/// The path of the retrieval macro for the source path `source`.
pub fn source_macro(source: &Vec<String>) -> (r: String)
    requires
        source@.len() > 0,
    ensures
        r@ == source_macro_path(texts(source@)),
{
    let last = source.len() - 1;
    let key = export_tokens_macro_ident(source[last].as_str());
    if source.len() > 1 {
        String::from_str(source[0].as_str()).concat("::").concat(key.as_str())
    } else {
        key
    }
}

/// Forwards the tokens of the item exported at `source` to the macro at
/// `target`, for the arguments `source, target` or `source, target, "extra"`.
pub fn forward_tokens_internal(s: &str, root: &str) -> (r: Result<String, MacroError>)
    ensures
        text_result(r) == forward_result(s@, root@),
{
    let args = match ForwardTokensArgs::parse(s) {
        Some(a) => a,
        None => return Err(MacroError::BadForwardArgs),
    };
    proof {
        assert(texts(args.source@).len() > 0);
    }
    let src = source_macro(&args.source);
    match &args.extra {
        Some(e) => {
            let fwd = private_path(root, "forward_tokens_inner");
            Ok(
                src.concat("! { ").concat(args.target.as_str()).concat(", ").concat(
                    fwd.as_str(),
                ).concat(", ").concat(e.as_str()).concat(" }"),
            )
        },
        None => Ok(
            src.concat("! { ").concat(args.target.as_str()).concat(", __forward_tokens_inner }"),
        ),
    }
}

/// Forwarded tokens: the target macro's path, the item's text, and the text
/// of the string literal passed on, if any.
pub struct ForwardedTokens {
    pub target_path: String,
    pub item: String,
    pub extra: Option<String>,
}

/// Where the item ends in `target, item` or `target, item, "extra"`, and
/// the extra literal's text.
pub open spec fn forwarded_tail(ts: Seq<Tok>, c1: int) -> (int, Option<Seq<char>>) {
    let n = ts.len() as int;
    if n >= c1 + 3 && is_str_lit(ts[n - 1]) && is_punct(ts[n - 2], ","@) {
        (n - 2, Some(tok_text(ts[n - 1])))
    } else if n >= c1 + 2 && is_punct(ts[n - 1], ","@) {
        (n - 1, None)
    } else {
        (n, None)
    }
}

/// `target, item` or `target, item, "extra"` read from tokens.
pub open spec fn forwarded_of(ts: Seq<Tok>) -> Option<(Seq<char>, Seq<char>, Option<Seq<char>>)> {
    let c1 = first_comma(ts, 0);
    let (end, extra) = forwarded_tail(ts, c1);
    let item = render(ts.subrange(c1 + 1, end));
    if c1 >= ts.len() || path_of(ts.subrange(0, c1)) is None || item_name_checked(item) is None {
        None
    } else {
        Some((render(ts.subrange(0, c1)), item, extra))
    }
}

/// The view of an optional text.
pub open spec fn opt_text(o: Option<String>) -> Option<Seq<char>> {
    match o {
        Some(e) => Some(e@),
        None => None,
    }
}

impl ForwardedTokens {
    /// Reads `target, item` or `target, item, "extra"`.
    pub fn parse(s: &str) -> (r: Option<ForwardedTokens>)
        ensures
            match r {
                Some(f) => lexed(s@) matches Some(ts) && forwarded_of(ts) == Some(
                    (f.target_path@, f.item@, opt_text(f.extra)),
                ),
                None => lexed(s@) matches Some(ts) ==> forwarded_of(ts) is None,
            },
    {
        let ts = match lex(s) {
            Some(ts) => ts,
            None => return None,
        };
        let c1 = find_comma(&ts, 0);
        if c1 >= ts.len() {
            return None;
        }
        let n = ts.len();
        let mut end = n;
        let mut extra: Option<String> = None;
        if n - c1 >= 3 && tok_is_str_lit(&ts[n - 1]) && tok_is_punct(&ts[n - 2], ",") {
            end = n - 2;
            extra = match &ts[n - 1] {
                Tok::Literal(l) => Some(l.clone()),
                _ => None,
            };
        } else if n - c1 >= 2 && tok_is_punct(&ts[n - 1], ",") {
            end = n - 1;
        }
        proof {
            assert(forwarded_tail(ts@, c1 as int) == (end as int, opt_text(extra)));
        }
        match parse_path(&ts, 0, c1) {
            Some(_) => {},
            None => return None,
        }
        let item = render_range(&ts, c1 + 1, end);
        match item_name(item.as_str()) {
            Some(_) => {},
            None => return None,
        }
        let target_path = render_range(&ts, 0, c1);
        Some(ForwardedTokens { target_path, item, extra })
    }
}

/// What the forwarding macro expands to: a call of the target macro with the
/// item (and the extra literal).
pub open spec fn forward_inner_output(target: Seq<char>, item: Seq<char>, extra: Option<Seq<char>>) -> Seq<
    char,
> {
    match extra {
        Some(e) => target + "! { "@ + item + ", "@ + e + " }"@,
        None => target + "! { "@ + item + " }"@,
    }
}

/// What the forwarding macro expands to for the tokens `s`.
pub open spec fn forward_inner_result(s: Seq<char>) -> Result<Seq<char>, MacroError> {
    match lexed(s) {
        Some(ts) => match forwarded_of(ts) {
            Some((target, item, extra)) => Ok(forward_inner_output(target, item, extra)),
            None => Err(MacroError::BadForwardedTokens),
        },
        None => Err(MacroError::BadForwardedTokens),
    }
}

/// Hands a forwarded item (and the extra literal) to the target macro.
pub fn forward_tokens_inner_internal(s: &str) -> (r: Result<String, MacroError>)
    ensures
        text_result(r) == forward_inner_result(s@),
{
    let f = match ForwardedTokens::parse(s) {
        Some(f) => f,
        None => return Err(MacroError::BadForwardedTokens),
    };
    let head = f.target_path.concat("! { ").concat(f.item.as_str());
    match &f.extra {
        Some(e) => Ok(head.concat(", ").concat(e.as_str()).concat(" }")),
        None => Ok(head.concat(" }")),
    }
}

} // verus!
