//! The proc-macro descriptor: a proc macro function definition read from
//! its tokens, with its kind, its parameters' names and the custom parsing
//! marker an adapter may have been given.

use vstd::prelude::*;
use vstd::string::*;
use crate::error::MacroError;
use crate::syntax::{attrs_end, find_comma, first_comma, parse_path, path_of, skip_attrs, skip_vis, texts, vis_end};
use crate::tokens::{free_of_c_strings, no_c_strings, is_punct, is_word, lex, lexed, render, render_range, str_eq, tok_is_punct, tok_is_word, tok_text, Delim, Tok};

verus! {


/// The kinds of proc macro.
#[derive(Clone, Copy, PartialEq, Eq, Structural, Debug)]
pub enum ProcMacroType {
    /// `#[proc_macro]`
    Normal,
    /// `#[proc_macro_attribute]`
    Attribute,
    /// `#[proc_macro_derive]`
    Derive,
}

/// The attribute that marks a proc macro of kind `t`.
pub open spec fn attr_text(t: ProcMacroType) -> Seq<char> {
    match t {
        ProcMacroType::Normal => "#[proc_macro]"@,
        ProcMacroType::Attribute => "#[proc_macro_attribute]"@,
        ProcMacroType::Derive => "#[proc_macro_derive]"@,
    }
}

impl ProcMacroType {
    /// The attribute that marks a proc macro of this kind.
    pub fn to_str(&self) -> (r: &'static str)
        ensures
            r@ == attr_text(*self),
    {
        match self {
            ProcMacroType::Normal => "#[proc_macro]",
            ProcMacroType::Attribute => "#[proc_macro_attribute]",
            ProcMacroType::Derive => "#[proc_macro_derive]",
        }
    }

    /// The attribute that marks a proc macro of this kind, as an owned text.
    pub fn to_attr(&self) -> (r: String)
        ensures
            r@ == attr_text(*self),
    {
        String::from_str(self.to_str())
    }
}

/// The kind of proc macro that an attribute's inner tokens name.
pub open spec fn kind_of_attr(t: Seq<Tok>) -> Option<ProcMacroType> {
    if t.len() >= 1 && (t.len() == 1 || !is_punct(t[1], ":"@)) {
        if is_word(t[0], "proc_macro"@) {
            Some(ProcMacroType::Normal)
        } else if is_word(t[0], "proc_macro_attribute"@) {
            Some(ProcMacroType::Attribute)
        } else if is_word(t[0], "proc_macro_derive"@) {
            Some(ProcMacroType::Derive)
        } else {
            None
        }
    } else {
        None
    }
}

/// The kind named by the attribute whose bracket group starts at `i`.
pub open spec fn kind_at(ts: Seq<Tok>, i: int) -> Option<ProcMacroType> {
    match ts[i] {
        Tok::Group(_, inner) => kind_of_attr(inner@),
        _ => None,
    }
}

/// The kind named by the first proc macro attribute among the attributes
/// `ts[i..end]` (pairs of `#` and a bracket group).
pub open spec fn first_kind(ts: Seq<Tok>, i: int, end: int) -> Option<ProcMacroType>
    decreases end - i,
{
    if i < 0 || i + 1 >= end || end > ts.len() {
        None
    } else {
        match kind_at(ts, i + 1) {
            Some(k) => Some(k),
            None => first_kind(ts, i + 2, end),
        }
    }
}

/// The kind of proc macro that the attribute with inner tokens `t` names.
pub fn attr_kind(t: &Vec<Tok>) -> (r: Option<ProcMacroType>)
    ensures
        r == kind_of_attr(t@),
{
    if t.len() >= 1 && (t.len() == 1 || !tok_is_punct(&t[1], ":")) {
        if tok_is_word(&t[0], "proc_macro") {
            Some(ProcMacroType::Normal)
        } else if tok_is_word(&t[0], "proc_macro_attribute") {
            Some(ProcMacroType::Attribute)
        } else if tok_is_word(&t[0], "proc_macro_derive") {
            Some(ProcMacroType::Derive)
        } else {
            None
        }
    } else {
        None
    }
}

/// The kind named by the first proc macro attribute in `ts[i..end]`.
pub fn find_kind(ts: &Vec<Tok>, i: usize, end: usize) -> (r: Option<ProcMacroType>)
    requires
        end <= ts@.len(),
    ensures
        r == first_kind(ts@, i as int, end as int),
    decreases end - i,
{
    if i >= end || end - i < 2 {
        return None;
    }
    let k = match &ts[i + 1] {
        Tok::Group(_, inner) => attr_kind(inner),
        _ => None,
    };
    match k {
        Some(k) => Some(k),
        None => find_kind(ts, i + 2, end),
    }
}

/// The index of the last comma in `ts`, or -1.
pub open spec fn last_comma(ts: Seq<Tok>, hi: int) -> int
    decreases hi,
{
    if hi <= 0 || hi > ts.len() {
        -1
    } else if is_punct(ts[hi - 1], ","@) {
        hi - 1
    } else {
        last_comma(ts, hi - 1)
    }
}

/// The index after an optional `word` at `i`.
pub open spec fn skip_word(p: Seq<Tok>, i: int, word: Seq<char>) -> int {
    if 0 <= i < p.len() && is_word(p[i], word) {
        i + 1
    } else {
        i
    }
}

/// The name of the parameter that starts at `i`: an identifier, after an
/// optional `ref` and an optional `mut`, followed by `:`.
pub open spec fn param_name_at(p: Seq<Tok>, i: int) -> Option<Seq<char>> {
    let k = skip_word(p, skip_word(p, i, "ref"@), "mut"@);
    if 0 <= k && k + 1 < p.len() && p[k] is Ident && is_punct(p[k + 1], ":"@) {
        Some(tok_text(p[k]))
    } else {
        None
    }
}

/// Where the parameters end: before a trailing comma, if there is one.
pub open spec fn params_end(p: Seq<Tok>) -> int {
    if p.len() > 0 && is_punct(p[p.len() - 1], ","@) {
        p.len() - 1
    } else {
        p.len() as int
    }
}

/// Where the last parameter starts.
pub open spec fn last_param_start(p: Seq<Tok>) -> int {
    last_comma(p, params_end(p)) + 1
}

/// Whether a path names the custom parsing marker: its last segment is
/// `custom_parsing` or `with_custom_parsing`.
pub open spec fn is_marker_path(segs: Seq<Seq<char>>) -> bool {
    segs.len() > 0 && (segs.last() == "custom_parsing"@ || segs.last() == "with_custom_parsing"@)
}

/// The type path that a custom parsing marker `marker(Type)` names, given
/// the attribute's inner tokens.
pub open spec fn marker_arg(t: Seq<Tok>) -> Option<Seq<char>> {
    if t.len() >= 2 && (t.last() matches Tok::Group(Delim::Paren, _)) && (path_of(t.drop_last()) matches Some(
        segs,
    ) && is_marker_path(segs)) {
        Some(inner_of(t.last()))
    } else {
        None
    }
}

/// The type path of the custom parsing marker whose inner tokens are `t`.
pub fn marker_of(t: &Vec<Tok>) -> (r: Option<String>)
    ensures
        match r {
            Some(c) => marker_arg(t@) == Some(c@),
            None => marker_arg(t@) is None,
        },
{
    let n = t.len();
    if n < 2 {
        return None;
    }
    let arg = match &t[n - 1] {
        Tok::Group(Delim::Paren, a) => crate::tokens::render_all(a),
        _ => return None,
    };
    assert(t@.subrange(0, n - 1) =~= t@.drop_last());
    let segs = match parse_path(t, 0, n - 1) {
        Some(segs) => segs,
        None => return None,
    };
    proof {
        assert(texts(segs@).len() > 0);
        assert(texts(segs@).last() == segs@.last()@);
    }
    let last = segs.len() - 1;
    if str_eq(segs[last].as_str(), "custom_parsing") || str_eq(segs[last].as_str(), "with_custom_parsing") {
        Some(arg)
    } else {
        None
    }
}

/// The custom parsing marker among the attribute at `i`, if it is one.
pub open spec fn marker_at(ts: Seq<Tok>, i: int) -> Option<Seq<char>> {
    match ts[i + 1] {
        Tok::Group(_, inner) => marker_arg(inner@),
        _ => None,
    }
}

/// The text of the attributes `ts[i..end]` other than custom parsing
/// markers, each followed by a space.
pub open spec fn kept_attrs(ts: Seq<Tok>, i: int, end: int) -> Seq<char>
    decreases end - i,
{
    if i < 0 || i + 1 >= end || end > ts.len() {
        Seq::empty()
    } else if marker_at(ts, i) is Some {
        kept_attrs(ts, i + 2, end)
    } else {
        render(ts.subrange(i, i + 2)) + " "@ + kept_attrs(ts, i + 2, end)
    }
}

/// The type path of the first custom parsing marker among the attributes
/// `ts[i..end]`.
pub open spec fn custom_of(ts: Seq<Tok>, i: int, end: int) -> Option<Seq<char>>
    decreases end - i,
{
    if i < 0 || i + 1 >= end || end > ts.len() {
        None
    } else {
        match marker_at(ts, i) {
            Some(c) => Some(c),
            None => custom_of(ts, i + 2, end),
        }
    }
}

/// The attributes `ts[i..end]` other than custom parsing markers, and the
/// type path of the first marker.
pub fn split_attrs(ts: &Vec<Tok>, i: usize, end: usize) -> (r: (String, Option<String>))
    requires
        end <= ts@.len(),
    ensures
        r.0@ == kept_attrs(ts@, i as int, end as int),
        match r.1 {
            Some(c) => custom_of(ts@, i as int, end as int) == Some(c@),
            None => custom_of(ts@, i as int, end as int) is None,
        },
    decreases end - i,
{
    if i >= end || end - i < 2 {
        return (String::new(), None);
    }
    let m = match &ts[i + 1] {
        Tok::Group(_, inner) => marker_of(inner),
        _ => None,
    };
    let (rest, custom) = split_attrs(ts, i + 2, end);
    match m {
        Some(c) => (rest, Some(c)),
        None => (render_range(ts, i, i + 2).concat(" ").concat(rest.as_str()), custom),
    }
}

/// A proc macro function definition, read from its tokens
/// `#[..]* pub quals fn name <generics> (params) ret { body }`.
pub struct ProcMacro {
    /// The text of the attributes other than custom parsing markers, each
    /// followed by a space.
    pub attrs: String,
    /// The type path named by a custom parsing marker, if any.
    pub custom_parsing: Option<String>,
    /// The function's name.
    pub name: String,
    /// The index of the function's name among the top-level tokens.
    pub name_at: usize,
    /// The text of the generic parameters, `<...>`, if any.
    pub generics: String,
    /// The text inside the parameter list.
    pub params: String,
    /// The text of the first parameter.
    pub first_param: String,
    /// The text between the parameter list and the body.
    pub ret: String,
    /// The text of the body's statements.
    pub stmts: String,
    /// The kind of proc macro.
    pub macro_type: ProcMacroType,
    /// The name of the `tokens` parameter (the last one).
    pub tokens_ident: String,
    /// The name of the `attr` parameter (the first one) of an attribute
    /// macro.
    pub attr_ident: Option<String>,
}

/// The parts of a proc macro function definition, in the order of the
/// fields of `ProcMacro`.
pub struct ProcMacroView {
    pub attrs: Seq<char>,
    pub custom_parsing: Option<Seq<char>>,
    pub name: Seq<char>,
    pub name_at: usize,
    pub generics: Seq<char>,
    pub params: Seq<char>,
    pub first_param: Seq<char>,
    pub ret: Seq<char>,
    pub stmts: Seq<char>,
    pub macro_type: ProcMacroType,
    pub tokens_ident: Seq<char>,
    pub attr_ident: Option<Seq<char>>,
}

impl ProcMacro {
    pub open spec fn view(&self) -> ProcMacroView {
        ProcMacroView {
            attrs: self.attrs@,
            custom_parsing: match self.custom_parsing {
                Some(c) => Some(c@),
                None => None,
            },
            name: self.name@,
            name_at: self.name_at,
            generics: self.generics@,
            params: self.params@,
            first_param: self.first_param@,
            ret: self.ret@,
            stmts: self.stmts@,
            macro_type: self.macro_type,
            tokens_ident: self.tokens_ident@,
            attr_ident: match self.attr_ident {
                Some(a) => Some(a@),
                None => None,
            },
        }
    }
}

/// The index after the qualifiers `const`, `async`, `unsafe` and
/// `extern "abi"` that start at `i`.
pub open spec fn skip_quals(ts: Seq<Tok>, i: int) -> int
    decreases ts.len() - i,
{
    if i < 0 || i >= ts.len() {
        i
    } else if is_word(ts[i], "const"@) || is_word(ts[i], "async"@) || is_word(ts[i], "unsafe"@) {
        skip_quals(ts, i + 1)
    } else if is_word(ts[i], "extern"@) {
        if i + 1 < ts.len() && ts[i + 1] is Literal {
            skip_quals(ts, i + 2)
        } else {
            skip_quals(ts, i + 1)
        }
    } else {
        i
    }
}

/// Where the `fn` keyword stands: after the attributes, the visibility and
/// the qualifiers.
pub open spec fn fn_at(ts: Seq<Tok>) -> int {
    skip_quals(ts, skip_vis(ts, skip_attrs(ts, 0)))
}

/// Whether `ts[i]` is a `>` that closes a generic angle (not the end of
/// `->`).
pub open spec fn closes_angle(ts: Seq<Tok>, i: int) -> bool {
    is_punct(ts[i], ">"@) && !(i > 0 && (ts[i - 1] matches Tok::Punct(s, true) && s@ == "-"@))
}

/// The index of the first parenthesised group at or after `i` that stands
/// outside generic angles, `depth` of them being open at `i`; the length of
/// `ts` where there is none.
pub open spec fn param_group(ts: Seq<Tok>, i: int, depth: nat) -> int
    decreases ts.len() - i,
{
    if i < 0 || i >= ts.len() {
        ts.len() as int
    } else if depth == 0 && (ts[i] matches Tok::Group(Delim::Paren, _)) {
        i
    } else if is_punct(ts[i], "<"@) {
        param_group(ts, i + 1, depth + 1)
    } else if closes_angle(ts, i) {
        param_group(ts, i + 1, if depth > 0 {
            (depth - 1) as nat
        } else {
            0
        })
    } else {
        param_group(ts, i + 1, depth)
    }
}

/// What `param_group` finds, if anything, is a parenthesised group.
proof fn lemma_param_group_is_paren(ts: Seq<Tok>, i: int, depth: nat)
    requires
        param_group(ts, i, depth) < ts.len(),
    ensures
        ts[param_group(ts, i, depth)] matches Tok::Group(Delim::Paren, _),
    decreases ts.len() - i,
{
    if 0 <= i < ts.len() && !(depth == 0 && (ts[i] matches Tok::Group(Delim::Paren, _))) {
        if is_punct(ts[i], "<"@) {
            lemma_param_group_is_paren(ts, i + 1, depth + 1);
        } else if closes_angle(ts, i) {
            lemma_param_group_is_paren(ts, i + 1, if depth > 0 {
                (depth - 1) as nat
            } else {
                0
            });
        } else {
            lemma_param_group_is_paren(ts, i + 1, depth);
        }
    }
}

/// Where the parameter list stands: after the name and the generic
/// parameters, if any.
pub open spec fn params_at(ts: Seq<Tok>) -> int {
    param_group(ts, fn_at(ts) + 2, 0)
}

/// Whether `ts` has the shape
/// `#[..]* vis quals fn name <generics> (params) ret { body }`.
pub open spec fn fn_shape(ts: Seq<Tok>) -> bool {
    let f = fn_at(ts);
    &&& f + 2 < ts.len()
    &&& is_word(ts[f], "fn"@)
    &&& ts[f + 1] is Ident
    &&& params_at(ts) < ts.len() - 1
    &&& ts.last() matches Tok::Group(Delim::Brace, _)
}

/// The index of the parameter list at or after `start`.
pub fn find_param_group(ts: &Vec<Tok>, start: usize) -> (r: usize)
    requires
        start <= ts@.len(),
    ensures
        r as int == param_group(ts@, start as int, 0),
        start <= r <= ts@.len(),
{
    let mut i = start;
    let mut depth: usize = 0;
    while i < ts.len()
        invariant
            start <= i <= ts@.len(),
            depth <= i,
            param_group(ts@, start as int, 0) == param_group(ts@, i as int, depth as nat),
        decreases ts@.len() - i,
    {
        if depth == 0 {
            if let Tok::Group(Delim::Paren, _) = &ts[i] {
                return i;
            }
        }
        if tok_is_punct(&ts[i], "<") {
            depth = depth + 1;
        } else if tok_is_punct(&ts[i], ">") {
            let arrow = i > 0 && (match &ts[i - 1] {
                Tok::Punct(p, true) => str_eq(p.as_str(), "-"),
                _ => false,
            });
            if !arrow && depth > 0 {
                depth = depth - 1;
            }
        }
        i = i + 1;
    }
    i
}

/// Whether the visibility at `a` is plain `pub`.
pub open spec fn plain_pub(ts: Seq<Tok>, a: int) -> bool {
    skip_vis(ts, a) == a + 1
}

/// The text a group encloses.
pub open spec fn inner_of(t: Tok) -> Seq<char> {
    match t {
        Tok::Group(_, v) => render(v@),
        _ => Seq::empty(),
    }
}

/// The tokens a group encloses.
pub open spec fn inner_toks(t: Tok) -> Seq<Tok> {
    match t {
        Tok::Group(_, v) => v@,
        _ => Seq::empty(),
    }
}

/// Whether `syn` reads a text as a function item (`syn::ItemFn`).
pub uninterp spec fn fn_item_parses(s: Seq<char>) -> bool;

/// Relies on `syn::parse_str::<syn::ItemFn>`: whether a text is one
/// function item. `proc_macro2::fallback::force`/`unforce` around the call
/// make syn read the text with proc-macro2's own lexer in every process, so
/// the answer depends on the text alone. `syn` 1.0.109 panics on a C string
/// literal, so the text must hold none.
#[verifier::external_body]
fn is_fn_item(s: &str) -> (r: bool)
    requires
        lexed(s@) matches Some(ts) && no_c_strings(ts),
    ensures
        r == fn_item_parses(s@),
{
    proc_macro2::fallback::force();
    let ok = syn::parse_str::<syn::ItemFn>(s).is_ok();
    proc_macro2::fallback::unforce();
    ok
}

/// The proc macro function that `s` defines, or why it is none. The
/// positions in the errors are indices of top-level tokens of `s`.
pub open spec fn proc_macro_of(s: Seq<char>) -> Result<ProcMacroView, MacroError> {
    match lexed(s) {
        None => Err(MacroError::NotAFunction),
        Some(ts) => {
            let a = skip_attrs(ts, 0);
            let f = fn_at(ts);
            if !no_c_strings(ts) {
                Err(MacroError::CStringLiteral)
            } else if !fn_item_parses(s) {
                Err(MacroError::NotAFunction)
            } else if !plain_pub(ts, a) {
                Err(MacroError::NotPublic(a as usize))
            } else if !fn_shape(ts) {
                Err(MacroError::NotAFunction)
            } else {
                match first_kind(ts, 0, a) {
                    None => Err(MacroError::NotProcMacro((f + 1) as usize)),
                    Some(k) => {
                        let g = params_at(ts);
                        let p = inner_toks(ts[g]);
                        let c = first_comma(p, 0);
                        let tokens_ident = param_name_at(p, last_param_start(p));
                        let attr_ident = param_name_at(p, 0);
                        if tokens_ident is None || (k == ProcMacroType::Attribute
                            && attr_ident is None) {
                            Err(MacroError::BadParams)
                        } else {
                            Ok(
                                ProcMacroView {
                                    attrs: kept_attrs(ts, 0, a),
                                    custom_parsing: custom_of(ts, 0, a),
                                    name: tok_text(ts[f + 1]),
                                    name_at: (f + 1) as usize,
                                    generics: render(ts.subrange(f + 2, g)),
                                    params: inner_of(ts[g]),
                                    first_param: render(p.subrange(0, c)),
                                    ret: render(ts.subrange(g + 1, ts.len() - 1)),
                                    stmts: inner_of(ts.last()),
                                    macro_type: k,
                                    tokens_ident: tokens_ident->0,
                                    attr_ident: if k == ProcMacroType::Attribute {
                                        attr_ident
                                    } else {
                                        None
                                    },
                                },
                            )
                        }
                    },
                }
            }
        },
    }
}

/// The index after the qualifiers that start at `i`.
pub fn quals_end(ts: &Vec<Tok>, i: usize) -> (r: usize)
    requires
        i <= ts@.len(),
    ensures
        r as int == skip_quals(ts@, i as int),
        i <= r <= ts@.len(),
    decreases ts@.len() - i,
{
    if i >= ts.len() {
        i
    } else if tok_is_word(&ts[i], "const") || tok_is_word(&ts[i], "async") || tok_is_word(
        &ts[i],
        "unsafe",
    ) {
        quals_end(ts, i + 1)
    } else if tok_is_word(&ts[i], "extern") {
        if ts.len() - i >= 2 && (match &ts[i + 1] {
            Tok::Literal(_) => true,
            _ => false,
        }) {
            quals_end(ts, i + 2)
        } else {
            quals_end(ts, i + 1)
        }
    } else {
        i
    }
}

/// The index after the last comma in `ts[..hi]`, or 0 where there is none.
pub fn after_last_comma(ts: &Vec<Tok>, hi: usize) -> (r: usize)
    requires
        hi <= ts@.len(),
    ensures
        r as int == last_comma(ts@, hi as int) + 1,
        r <= hi,
    decreases hi,
{
    if hi == 0 {
        0
    } else if tok_is_punct(&ts[hi - 1], ",") {
        hi
    } else {
        after_last_comma(ts, hi - 1)
    }
}

/// The index after an optional `word` at `i`.
fn word_end(p: &Vec<Tok>, i: usize, word: &str) -> (r: usize)
    ensures
        r as int == skip_word(p@, i as int, word@),
{
    if i < p.len() && tok_is_word(&p[i], word) {
        i + 1
    } else {
        i
    }
}

/// The name of the parameter that starts at `i`.
pub fn param_name(p: &Vec<Tok>, i: usize) -> (r: Option<String>)
    requires
        i <= p@.len(),
    ensures
        match r {
            Some(n) => param_name_at(p@, i as int) == Some(n@),
            None => param_name_at(p@, i as int) is None,
        },
{
    let j = word_end(p, i, "ref");
    let k = word_end(p, j, "mut");
    if k >= p.len() || p.len() - k < 2 || !tok_is_punct(&p[k + 1], ":") {
        return None;
    }
    match &p[k] {
        Tok::Ident(n) => Some(n.clone()),
        _ => None,
    }
}

/// The view of a result that carries a proc macro.
pub open spec fn proc_result(r: Result<ProcMacro, MacroError>) -> Result<ProcMacroView, MacroError> {
    match r {
        Ok(p) => Ok(p@),
        Err(e) => Err(e),
    }
}

impl ProcMacro {
    /// Reads a proc macro function definition.
    pub fn from(s: &str) -> (r: Result<ProcMacro, MacroError>)
        ensures
            proc_result(r) == proc_macro_of(s@),
    {
        let ts = match lex(s) {
            Some(ts) => ts,
            None => return Err(MacroError::NotAFunction),
        };
        if !free_of_c_strings(&ts) {
            return Err(MacroError::CStringLiteral);
        }
        if !is_fn_item(s) {
            return Err(MacroError::NotAFunction);
        }
        let a = attrs_end(&ts, 0);
        let v = vis_end(&ts, a);
        if v - a != 1 {
            return Err(MacroError::NotPublic(a));
        }
        let f = quals_end(&ts, v);
        if ts.len() < 3 || f >= ts.len() - 2 || !tok_is_word(&ts[f], "fn") {
            return Err(MacroError::NotAFunction);
        }
        let name = match &ts[f + 1] {
            Tok::Ident(n) => n.clone(),
            _ => return Err(MacroError::NotAFunction),
        };
        let g = find_param_group(&ts, f + 2);
        let last = ts.len() - 1;
        if g >= last {
            return Err(MacroError::NotAFunction);
        }
        proof {
            lemma_param_group_is_paren(ts@, f + 2, 0);
        }
        let p = match &ts[g] {
            Tok::Group(Delim::Paren, inner) => inner,
            _ => return Err(MacroError::NotAFunction),
        };
        let stmts = match &ts[last] {
            Tok::Group(Delim::Brace, inner) => crate::tokens::render_all(inner),
            _ => return Err(MacroError::NotAFunction),
        };
        let k = match find_kind(&ts, 0, a) {
            Some(k) => k,
            None => return Err(MacroError::NotProcMacro(f + 1)),
        };
        let c = find_comma(p, 0);
        let end = if p.len() > 0 && tok_is_punct(&p[p.len() - 1], ",") {
            p.len() - 1
        } else {
            p.len()
        };
        let lc = after_last_comma(p, end);
        let tokens_ident = match param_name(p, lc) {
            Some(t) => t,
            None => return Err(MacroError::BadParams),
        };
        let first = param_name(p, 0);
        let attr_ident = match k {
            ProcMacroType::Attribute => match first {
                Some(f) => Some(f),
                None => return Err(MacroError::BadParams),
            },
            _ => None,
        };
        let (attrs, custom_parsing) = split_attrs(&ts, 0, a);
        let pm = ProcMacro {
            attrs,
            custom_parsing,
            name,
            name_at: f + 1,
            generics: render_range(&ts, f + 2, g),
            params: crate::tokens::render_all(p),
            first_param: render_range(p, 0, c),
            ret: render_range(&ts, g + 1, last),
            stmts,
            macro_type: k,
            tokens_ident,
            attr_ident,
        };
        Ok(pm)
    }
}

/// Reads a proc macro function definition of the kind `macro_type`.
pub open spec fn proc_macro_variant_of(s: Seq<char>, macro_type: ProcMacroType) -> Result<
    ProcMacroView,
    MacroError,
> {
    match proc_macro_of(s) {
        Ok(p) => if p.macro_type == macro_type {
            Ok(p)
        } else {
            Err(MacroError::MissingAttribute(macro_type, Some(p.macro_type), p.name_at))
        },
        Err(MacroError::NotProcMacro(at)) => Err(MacroError::MissingAttribute(macro_type, None, at)),
        Err(e) => Err(e),
    }
}

/// Reads a proc macro function definition, which must carry the attribute
/// of the kind `macro_type`.
pub fn parse_proc_macro_variant(s: &str, macro_type: ProcMacroType) -> (r: Result<
    ProcMacro,
    MacroError,
>)
    ensures
        proc_result(r) == proc_macro_variant_of(s@, macro_type),
{
    let pm = match ProcMacro::from(s) {
        Ok(pm) => pm,
        Err(MacroError::NotProcMacro(at)) => return Err(
            MacroError::MissingAttribute(macro_type, None, at),
        ),
        Err(e) => return Err(e),
    };
    if pm.macro_type != macro_type {
        return Err(MacroError::MissingAttribute(macro_type, Some(pm.macro_type), pm.name_at));
    }
    Ok(pm)
}

} // verus!
