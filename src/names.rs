//! Canonical names: the export key of an item and the derived identifiers
//! that exporter and importer compute independently.

use vstd::prelude::*;
use vstd::string::*;
use crate::error::MacroError;
use crate::export::text_result;
use crate::syntax::{parse_whole_path, path_of, replace_last, replace_last_segment, texts};
use crate::tokens::{lex, lexed};

verus! {

/// What `convert_case` makes of a name in snake case.
pub uninterp spec fn snake_of(s: Seq<char>) -> Seq<char>;

/// What `str::to_uppercase` makes of a text.
pub uninterp spec fn upper_of(s: Seq<char>) -> Seq<char>;

/// The text with every space left out.
pub open spec fn without_spaces(s: Seq<char>) -> Seq<char>
    decreases s.len(),
{
    if s.len() == 0 {
        Seq::empty()
    } else if s.last() == ' ' {
        without_spaces(s.drop_last())
    } else {
        without_spaces(s.drop_last()).push(s.last())
    }
}

/// The prefix of every generated retrieval macro.
pub const EXPORT_PREFIX: &'static str = "__export_tokens_tt_";

/// The prefix of every generated constant holding an item's text.
pub const CONST_PREFIX: &'static str = "__EXPORT_TOKENS__";

/// The export key of a name: the reserved prefix, then the name in snake case.
pub open spec fn export_key(name: Seq<char>) -> Seq<char> {
    EXPORT_PREFIX@ + snake_of(name)
}

/// The name of the constant that holds the text of the item called `name`.
pub open spec fn const_name(name: Seq<char>) -> Seq<char> {
    CONST_PREFIX@ + upper_of(without_spaces(name))
}

/// Relies on `convert_case::Casing::to_case` with `Case::Snake`; the result
/// depends on the text alone.
#[verifier::external_body]
fn snake_case(s: &str) -> (r: String)
    ensures
        r@ == snake_of(s@),
{
    convert_case::Casing::to_case(&s, convert_case::Case::Snake)
}

/// Relies on `str::to_uppercase`; the result depends on the text alone.
#[verifier::external_body]
fn uppercase(s: &str) -> (r: String)
    ensures
        r@ == upper_of(s@),
{
    s.to_uppercase()
}

/// `name` with its spaces removed.
pub fn strip_spaces(name: &str) -> (r: String)
    ensures
        r@ == without_spaces(name@),
{
    let n = name.unicode_len();
    let mut out = String::new();
    let mut i: usize = 0;
    while i < n
        invariant
            n == name@.len(),
            i <= n,
            out@ == without_spaces(name@.subrange(0, i as int)),
        decreases n - i,
    {
        let c = name.get_char(i);
        assert(name@.subrange(0, i + 1).drop_last() =~= name@.subrange(0, i as int));
        if c != ' ' {
            out.append(name.substring_char(i, i + 1));
        }
        i = i + 1;
    }
    assert(name@.subrange(0, n as int) =~= name@);
    out
}

/// The name of the constant under which the text of the item `name` is kept:
/// the reserved prefix, then `name` without spaces, in upper case.
pub fn get_const_name(name: String) -> (r: String)
    ensures
        r@ == const_name(name@),
{
    let stripped = strip_spaces(name.as_str());
    let upper = uppercase(stripped.as_str());
    String::from_str(CONST_PREFIX).concat(upper.as_str())
}

/// The path `path` with its last segment replaced by the name of its
/// constant; a leading `::` and the other segments are kept.
pub open spec fn const_path_of(path: Seq<char>) -> Result<Seq<char>, MacroError> {
    match lexed(path) {
        Some(ts) => if ts.len() == 0 {
            Err(MacroError::EmptyPath)
        } else {
            match path_of(ts) {
                Some(segs) => Ok(replace_last(ts, const_name(segs.last()))),
                None => Err(MacroError::NotAPath),
            }
        },
        None => Err(MacroError::NotAPath),
    }
}

/// Replaces the last segment of a path by the name of its constant.
pub fn get_const_path(path: &str) -> (r: Result<String, MacroError>)
    ensures
        text_result(r) == const_path_of(path@),
{
    let ts = match lex(path) {
        Some(ts) => ts,
        None => return Err(MacroError::NotAPath),
    };
    if ts.len() == 0 {
        return Err(MacroError::EmptyPath);
    }
    let segs = match parse_whole_path(&ts) {
        Some(segs) => segs,
        None => return Err(MacroError::NotAPath),
    };
    proof {
        assert(texts(segs@).len() > 0);
        assert(texts(segs@).last() == segs@.last()@);
    }
    let last = segs.len() - 1;
    let name = get_const_name(segs[last].clone());
    proof {
        assert(ts@.subrange(0, ts@.len() as int) =~= ts@);
    }
    Ok(replace_last_segment(&ts, 0, ts.len(), name.as_str()))
}

/// Snake case of an identifier.
pub fn flatten_ident(ident: &str) -> (r: String)
    ensures
        r@ == snake_of(ident@),
{
    snake_case(ident)
}

/// The name of the retrieval macro generated for the item called `ident`.
pub fn export_tokens_macro_ident(ident: &str) -> (r: String)
    ensures
        r@ == export_key(ident@),
{
    let flat = flatten_ident(ident);
    String::from_str(EXPORT_PREFIX).concat(flat.as_str())
}

/// The root path under which the generated code reaches this framework,
/// unless the build names another.
pub const DEFAULT_ROOT: &'static str = "::macro_magic";

/// The root that generated code uses: the one the build configured, else
/// the default.
pub fn macro_magic_root(configured: Option<&str>) -> (r: String)
    ensures
        r@ == match configured {
            Some(c) => c@,
            None => DEFAULT_ROOT@,
        },
{
    match configured {
        Some(c) => String::from_str(c),
        None => String::from_str(DEFAULT_ROOT),
    }
}

/// `sub` under the hidden part of the framework at `root`.
pub open spec fn private_path_of(root: Seq<char>, sub: Seq<char>) -> Seq<char> {
    root + "::__private::"@ + sub
}

/// `sub` under the framework at `root`.
pub open spec fn framework_path_of(root: Seq<char>, sub: Seq<char>) -> Seq<char> {
    root + "::"@ + sub
}

/// `sub` under the hidden part of the framework at `root`.
pub fn private_path(root: &str, sub: &str) -> (r: String)
    ensures
        r@ == private_path_of(root@, sub@),
{
    String::from_str(root).concat("::__private::").concat(sub)
}

/// `sub` under the framework at `root`.
pub fn macro_magic_path(root: &str, sub: &str) -> (r: String)
    ensures
        r@ == framework_path_of(root@, sub@),
{
    String::from_str(root).concat("::").concat(sub)
}

/// The name of the hidden inner macro of an attribute adapter called `name`.
pub open spec fn attr_inner_name(name: Seq<char>) -> Seq<char> {
    "__import_tokens_attr_"@ + name + "_inner"@
}

/// The name of the hidden inner macro of a function-like adapter called `name`.
pub open spec fn proc_inner_name(name: Seq<char>) -> Seq<char> {
    "__import_tokens_proc_"@ + name + "_inner"@
}

/// The name of the hidden inner macro of an attribute adapter called `name`.
pub fn attr_inner_ident(name: &str) -> (r: String)
    ensures
        r@ == attr_inner_name(name@),
{
    String::from_str("__import_tokens_attr_").concat(name).concat("_inner")
}

/// The name of the hidden inner macro of a function-like adapter called `name`.
pub fn proc_inner_ident(name: &str) -> (r: String)
    ensures
        r@ == proc_inner_name(name@),
{
    String::from_str("__import_tokens_proc_").concat(name).concat("_inner")
}

} // verus!
