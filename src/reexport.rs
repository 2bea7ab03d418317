//! Re-exporting an adapted proc macro: the `use` statement, and a hidden
//! `use` of the inner macro beside it.

use vstd::prelude::*;
use vstd::string::*;
use crate::descriptor::ProcMacroType;
use crate::error::MacroError;
use crate::export::text_result;
use crate::names::{attr_inner_ident, attr_inner_name, proc_inner_ident, proc_inner_name};
use crate::syntax::{attrs_end, lemma_path_last, parse_path, path_of, replace_last, replace_last_segment, skip_attrs, skip_vis, vis_end};
use crate::tokens::{gap, is_punct, is_word, lex, lexed, render, render_range, tok_is_punct, tok_is_word, tok_text, Tok};

verus! {

/// A `use` statement: its attributes and visibility, its visibility, and
/// the tokens of its path.
pub struct BasicUseStmt {
    pub attrs_vis: String,
    pub vis: String,
    /// The statement's tokens; the path is `tokens[path_lo..path_hi]`.
    pub tokens: Vec<Tok>,
    pub path_lo: usize,
    pub path_hi: usize,
}

impl BasicUseStmt {
    /// The tokens of the path.
    pub open spec fn path(&self) -> Seq<Tok> {
        self.tokens@.subrange(self.path_lo as int, self.path_hi as int)
    }
}

/// `#[..]* vis use path;` read from tokens: the attributes and visibility,
/// the visibility, and the path's tokens.
pub open spec fn use_stmt_of(ts: Seq<Tok>) -> Option<(Seq<char>, Seq<char>, Seq<Tok>)> {
    let a = skip_attrs(ts, 0);
    let v = skip_vis(ts, a);
    let n = ts.len() as int;
    let path = ts.subrange(v + 1, n - 1);
    if v + 2 < n && is_word(ts[v], "use"@) && is_punct(ts[n - 1], ";"@) && path_of(path) is Some {
        Some((render(ts.subrange(0, v)), render(ts.subrange(a, v)), path))
    } else {
        None
    }
}

impl BasicUseStmt {
    /// Reads `#[..]* vis use path;`.
    pub fn parse(s: &str) -> (r: Option<BasicUseStmt>)
        ensures
            match r {
                Some(u) => {
                    &&& u.path_lo <= u.path_hi <= u.tokens@.len()
                    &&& lexed(s@) matches Some(ts) && use_stmt_of(ts) == Some(
                        (u.attrs_vis@, u.vis@, u.path()),
                    )
                },
                None => lexed(s@) matches Some(ts) ==> use_stmt_of(ts) is None,
            },
    {
        let ts = match lex(s) {
            Some(ts) => ts,
            None => return None,
        };
        let a = attrs_end(&ts, 0);
        let v = vis_end(&ts, a);
        let n = ts.len();
        if v >= n || n - v < 3 || !tok_is_word(&ts[v], "use") || !tok_is_punct(&ts[n - 1], ";") {
            return None;
        }
        match parse_path(&ts, v + 1, n - 1) {
            Some(_) => {},
            None => return None,
        }
        let attrs_vis = render_range(&ts, 0, v);
        let vis = render_range(&ts, a, v);
        Some(BasicUseStmt { attrs_vis, vis, tokens: ts, path_lo: v + 1, path_hi: n - 1 })
    }
}

/// The hidden inner macro's name for a proc macro called `name` of kind
/// `mode`.
pub open spec fn inner_name_for(name: Seq<char>, mode: ProcMacroType) -> Seq<char> {
    match mode {
        ProcMacroType::Attribute => attr_inner_name(name),
        _ => proc_inner_name(name),
    }
}

/// What re-exporting an adapted proc macro expands to: the `use` statement
/// and a hidden `use` of its inner macro.
pub open spec fn use_output(attrs_vis: Seq<char>, vis: Seq<char>, path: Seq<Tok>, mode: ProcMacroType) -> Seq<
    char,
> {
    let inner = inner_name_for(tok_text(path.last()), mode);
    attrs_vis + " use "@ + render(path) + "; #[doc(hidden)] "@ + vis + " use "@ + replace_last(
        path,
        inner,
    ) + ";"@
}

/// What re-exporting the proc macro `tokens` of kind `mode` expands to.
pub open spec fn use_result(attr: Seq<char>, tokens: Seq<char>, mode: ProcMacroType) -> Result<
    Seq<char>,
    MacroError,
> {
    if !(lexed(attr) matches Some(a) && a.len() == 0) {
        Err(MacroError::UnexpectedArgs)
    } else {
        match lexed(tokens) {
            Some(ts) => match use_stmt_of(ts) {
                Some((attrs_vis, vis, path)) => if mode == ProcMacroType::Derive {
                    Err(MacroError::DeriveNotAdapted)
                } else {
                    Ok(use_output(attrs_vis, vis, path, mode))
                },
                None => Err(MacroError::BadUse),
            },
            None => Err(MacroError::BadUse),
        }
    }
}

/// Re-exports an adapted proc macro together with its hidden inner macro.
pub fn use_internal(attr: &str, tokens: &str, mode: ProcMacroType) -> (r: Result<
    String,
    MacroError,
>)
    ensures
        text_result(r) == use_result(attr@, tokens@, mode),
{
    match lex(attr) {
        Some(a) => if a.len() != 0 {
            return Err(MacroError::UnexpectedArgs);
        },
        None => return Err(MacroError::UnexpectedArgs),
    }
    let stmt = match BasicUseStmt::parse(tokens) {
        Some(u) => u,
        None => return Err(MacroError::BadUse),
    };
    proof {
        lemma_path_last(stmt.path());
    }
    let hi = stmt.path_hi;
    let lo = stmt.path_lo;
    assert(stmt.path()[stmt.path().len() - 1] == stmt.tokens@[hi - 1]);
    let last = match &stmt.tokens[hi - 1] {
        Tok::Ident(s) => s.clone(),
        _ => return Err(MacroError::BadUse),
    };
    let inner = match mode {
        ProcMacroType::Attribute => attr_inner_ident(last.as_str()),
        ProcMacroType::Normal => proc_inner_ident(last.as_str()),
        ProcMacroType::Derive => return Err(MacroError::DeriveNotAdapted),
    };
    let path_text = render_range(&stmt.tokens, lo, hi);
    let hidden = replace_last_segment(&stmt.tokens, lo, hi, inner.as_str());
    Ok(
        stmt.attrs_vis.concat(" use ").concat(path_text.as_str()).concat("; #[doc(hidden)] ").concat(
            stmt.vis.as_str(),
        ).concat(" use ").concat(hidden.as_str()).concat(";"),
    )
}

} // verus!
