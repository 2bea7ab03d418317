//! The import resolver: `let name = path` becomes a call of the retrieval
//! macro at `path`, which hands the item back to be bound to `name` as a
//! token stream.

use vstd::prelude::*;
use vstd::string::*;
use crate::error::MacroError;
use crate::export::text_result;
use crate::forward::source_macro;
use crate::forward::source_macro_path;
use crate::item::{item_name_checked, item_name};
use crate::names::{private_path, private_path_of};
use crate::syntax::{parse_path, path_of, texts};
use crate::tokens::{is_punct, is_word, lex, lexed, render, render_range, tok_is_punct, tok_is_word, tok_text, Tok};

verus! {

/// Arguments of an import: the name to bind and the path's segments.
pub struct ImportTokensArgs {
    pub tokens_var_ident: String,
    pub source_path: Vec<String>,
}

/// `let name = path` read from tokens.
pub open spec fn import_args_of(ts: Seq<Tok>) -> Option<(Seq<char>, Seq<Seq<char>>)> {
    if ts.len() >= 4 && is_word(ts[0], "let"@) && ts[1] is Ident && is_punct(ts[2], "="@) && path_of(
        ts.subrange(3, ts.len() as int),
    ) is Some {
        Some((tok_text(ts[1]), path_of(ts.subrange(3, ts.len() as int))->0))
    } else {
        None
    }
}

impl ImportTokensArgs {
    /// Reads `let name = path`.
    pub fn parse(s: &str) -> (r: Option<ImportTokensArgs>)
        ensures
            match r {
                Some(a) => lexed(s@) matches Some(ts) && import_args_of(ts) == Some(
                    (a.tokens_var_ident@, texts(a.source_path@)),
                ),
                None => lexed(s@) matches Some(ts) ==> import_args_of(ts) is None,
            },
    {
        let ts = match lex(s) {
            Some(ts) => ts,
            None => return None,
        };
        if ts.len() < 4 || !tok_is_word(&ts[0], "let") || !tok_is_punct(&ts[2], "=") {
            return None;
        }
        let name = match &ts[1] {
            Tok::Ident(n) => n.clone(),
            _ => return None,
        };
        match parse_path(&ts, 3, ts.len()) {
            Some(p) => Some(ImportTokensArgs { tokens_var_ident: name, source_path: p }),
            None => None,
        }
    }
}

/// What an import expands to: a call of the retrieval macro with the name
/// and the import's inner macro.
pub open spec fn import_output(name: Seq<char>, source: Seq<Seq<char>>, root: Seq<char>) -> Seq<char> {
    source_macro_path(source) + "! { "@ + name + ", "@ + private_path_of(root, "import_tokens_inner"@)
        + " }"@
}

/// What an import expands to for the arguments `s`.
pub open spec fn import_result(s: Seq<char>, root: Seq<char>) -> Result<Seq<char>, MacroError> {
    match lexed(s) {
        Some(ts) => match import_args_of(ts) {
            Some((name, source)) => Ok(import_output(name, source, root)),
            None => Err(MacroError::BadImportArgs),
        },
        None => Err(MacroError::BadImportArgs),
    }
}

/// Expands `let name = path` into a call of the retrieval macro at `path`.
pub fn import_tokens_internal(s: &str, root: &str) -> (r: Result<String, MacroError>)
    ensures
        text_result(r) == import_result(s@, root@),
{
    let args = match ImportTokensArgs::parse(s) {
        Some(a) => a,
        None => return Err(MacroError::BadImportArgs),
    };
    proof {
        assert(texts(args.source_path@).len() > 0);
    }
    let src = source_macro(&args.source_path);
    let inner = private_path(root, "import_tokens_inner");
    Ok(
        src.concat("! { ").concat(args.tokens_var_ident.as_str()).concat(", ").concat(
            inner.as_str(),
        ).concat(" }"),
    )
}

/// A character as it stands inside a string literal.
pub open spec fn escaped_char(c: char) -> Seq<char> {
    if c == '\\' {
        "\\\\"@
    } else if c == '"' {
        "\\\""@
    } else {
        seq![c]
    }
}

/// A text as it stands inside a string literal.
pub open spec fn escaped(s: Seq<char>) -> Seq<char>
    decreases s.len(),
{
    if s.len() == 0 {
        Seq::empty()
    } else {
        escaped(s.drop_last()) + escaped_char(s.last())
    }
}

/// The string literal whose value is `s`.
pub open spec fn quoted(s: Seq<char>) -> Seq<char> {
    "\""@ + escaped(s) + "\""@
}

/// The string literal whose value is `s`: quotes and backslashes escaped.
pub fn quote_str(s: &str) -> (r: String)
    ensures
        r@ == quoted(s@),
{
    let n = s.unicode_len();
    let mut out = String::new();
    let mut i: usize = 0;
    while i < n
        invariant
            n == s@.len(),
            i <= n,
            out@ == escaped(s@.subrange(0, i as int)),
        decreases n - i,
    {
        let c = s.get_char(i);
        assert(s@.subrange(0, i + 1).drop_last() =~= s@.subrange(0, i as int));
        if c == '\\' {
            out.append("\\\\");
        } else if c == '"' {
            out.append("\\\"");
        } else {
            let piece = s.substring_char(i, i + 1);
            assert(piece@ =~= seq![c]);
            out.append(piece);
        }
        i = i + 1;
    }
    assert(s@.subrange(0, n as int) =~= s@);
    String::from_str("\"").concat(out.as_str()).concat("\"")
}

/// The value of the body of a string literal whose only escapes are `\\`
/// and `\"`: a backslash stands for the character after it.
pub open spec fn unescaped(s: Seq<char>) -> Seq<char>
    decreases s.len(),
{
    if s.len() == 0 {
        Seq::empty()
    } else if s[0] == '\\' && s.len() >= 2 {
        seq![s[1]] + unescaped(s.subrange(2, s.len() as int))
    } else {
        seq![s[0]] + unescaped(s.subrange(1, s.len() as int))
    }
}

proof fn lemma_unescape_char(c: char, y: Seq<char>)
    ensures
        unescaped(escaped_char(c) + y) == seq![c] + unescaped(y),
{
    reveal_strlit("\\\\");
    reveal_strlit("\\\"");
    let x = escaped_char(c) + y;
    if c == '\\' || c == '"' {
        assert(x.subrange(2, x.len() as int) =~= y);
    } else {
        assert(x.subrange(1, x.len() as int) =~= y);
    }
}

proof fn lemma_escaped_front(c: char, t: Seq<char>)
    ensures
        escaped(seq![c] + t) == escaped_char(c) + escaped(t),
    decreases t.len(),
{
    let x = seq![c] + t;
    if t.len() == 0 {
        assert(x.drop_last() =~= Seq::<char>::empty());
        assert(escaped(x) == escaped(x.drop_last()) + escaped_char(x.last()));
        assert(escaped(x) =~= escaped_char(c) + escaped(t));
    } else {
        assert(x.drop_last() =~= seq![c] + t.drop_last());
        lemma_escaped_front(c, t.drop_last());
        assert(escaped(x) =~= escaped_char(c) + escaped(t));
    }
}

/// Escaping a text for a string literal and reading the literal's body back
/// gives the text again.
pub proof fn lemma_escape_round_trip(s: Seq<char>)
    ensures
        unescaped(escaped(s)) == s,
    decreases s.len(),
{
    if s.len() > 0 {
        let rest = s.subrange(1, s.len() as int);
        assert(s =~= seq![s[0]] + rest);
        lemma_escaped_front(s[0], rest);
        lemma_unescape_char(s[0], escaped(rest));
        lemma_escape_round_trip(rest);
    }
}

/// Imported tokens: the name to bind and the item's text.
pub struct ImportedTokens {
    pub tokens_var_ident: String,
    pub item: String,
}

/// `name, item` read from tokens.
pub open spec fn imported_of(ts: Seq<Tok>) -> Option<(Seq<char>, Seq<char>)> {
    let item = render(ts.subrange(2, ts.len() as int));
    if ts.len() >= 3 && ts[0] is Ident && is_punct(ts[1], ","@) && item_name_checked(item) is Some {
        Some((tok_text(ts[0]), item))
    } else {
        None
    }
}

impl ImportedTokens {
    /// Reads `name, item`.
    pub fn parse(s: &str) -> (r: Option<ImportedTokens>)
        ensures
            match r {
                Some(a) => lexed(s@) matches Some(ts) && imported_of(ts) == Some(
                    (a.tokens_var_ident@, a.item@),
                ),
                None => lexed(s@) matches Some(ts) ==> imported_of(ts) is None,
            },
    {
        let ts = match lex(s) {
            Some(ts) => ts,
            None => return None,
        };
        if ts.len() < 3 || !tok_is_punct(&ts[1], ",") {
            return None;
        }
        let name = match &ts[0] {
            Tok::Ident(n) => n.clone(),
            _ => return None,
        };
        let item = render_range(&ts, 2, ts.len());
        match item_name(item.as_str()) {
            Some(_) => Some(ImportedTokens { tokens_var_ident: name, item }),
            None => None,
        }
    }
}

/// What the import's inner macro expands to: `name` bound to the token
/// stream parsed from the item's text.
pub open spec fn import_inner_output(name: Seq<char>, item: Seq<char>, root: Seq<char>) -> Seq<char> {
    "let "@ + name + " = "@ + quoted(item) + ".parse::<"@ + private_path_of(root, "TokenStream2"@)
        + ">().expect(\"failed to parse quoted tokens\");"@
}

/// What the import's inner macro expands to for the tokens `s`.
pub open spec fn import_inner_result(s: Seq<char>, root: Seq<char>) -> Result<Seq<char>, MacroError> {
    match lexed(s) {
        Some(ts) => match imported_of(ts) {
            Some((name, item)) => Ok(import_inner_output(name, item, root)),
            None => Err(MacroError::BadForwardedTokens),
        },
        None => Err(MacroError::BadForwardedTokens),
    }
}

/// Binds the name to the imported item's tokens.
pub fn import_tokens_inner_internal(s: &str, root: &str) -> (r: Result<String, MacroError>)
    ensures
        text_result(r) == import_inner_result(s@, root@),
{
    let parsed = match ImportedTokens::parse(s) {
        Some(p) => p,
        None => return Err(MacroError::BadForwardedTokens),
    };
    let lit = quote_str(parsed.item.as_str());
    let ts2 = private_path(root, "TokenStream2");
    Ok(
        String::from_str("let ").concat(parsed.tokens_var_ident.as_str()).concat(" = ").concat(
            lit.as_str(),
        ).concat(".parse::<").concat(ts2.as_str()).concat(
            ">().expect(\"failed to parse quoted tokens\");",
        ),
    )
}

} // verus!
