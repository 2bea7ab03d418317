//! The proc-macro adapters: a proc macro function is split into an outer
//! macro that forwards the foreign item named by its argument, and a hidden
//! inner macro that receives the item and runs the function's body.

use vstd::prelude::*;
use vstd::string::*;
use crate::descriptor::{parse_proc_macro_variant, proc_macro_variant_of, ProcMacroType, ProcMacroView};
use crate::error::MacroError;
use crate::export::text_result;
use crate::names::{attr_inner_ident, attr_inner_name, proc_inner_ident, proc_inner_name};
use crate::syntax::{parse_whole_path, path_of};
use crate::syntax::{attrs_end, skip_attrs};
use crate::tokens::{lex, lexed, render, render_all, render_range};

verus! {

/// The root that the generated outer macro forwards through: the adapter's
/// argument where it is a path, else `root`.
pub open spec fn override_root(attr: Seq<char>, root: Seq<char>) -> Seq<char> {
    match lexed(attr) {
        Some(ts) => if path_of(ts) is Some {
            render(ts)
        } else {
            root
        },
        None => root,
    }
}

/// The root that the generated outer macro forwards through.
pub fn override_path(attr: &str, root: &str) -> (r: String)
    ensures
        r@ == override_root(attr@, root@),
{
    match lex(attr) {
        Some(ts) => match parse_whole_path(&ts) {
            Some(_) => crate::tokens::render_all(&ts),
            None => String::from_str(root),
        },
        None => String::from_str(root),
    }
}

pub const OUTER_OPEN: &'static str = " { use ";

pub const OUTER_GLOB: &'static str = "::__private::*; use ";

pub const OUTER_ATTR_ITEM: &'static str = "::__private::quote::ToTokens; let attached_item = syn::parse_macro_input!(";

pub const OUTER_ATTR_STR: &'static str = " as syn::Item); let attached_item_str = attached_item.to_token_stream().to_string(); ";

pub const OUTER_PATH_PARSE: &'static str = "let path = syn::parse_macro_input!(";

pub const OUTER_PATH_JOIN: &'static str = " as syn::Path); let extra = ";

pub const OUTER_PATH_EXTRA: &'static str = "::mm_core::join_extra(&attached_item_str, &path.to_token_stream().to_string()); ";

pub const OUTER_CUSTOM_PARSE: &'static str = "let __custom_parsed = syn::parse_macro_input!(";

pub const OUTER_CUSTOM_PATH: &'static str = "); let path = ";

pub const OUTER_CUSTOM_JOIN: &'static str = "::__private::ForeignPath::foreign_path(&__custom_parsed).clone(); let extra = ";

pub const OUTER_CUSTOM_EXTRA: &'static str = "::mm_core::join_custom_extra(&attached_item_str, &path.to_token_stream().to_string(), &__custom_parsed.to_token_stream().to_string()); ";

pub const OUTER_ATTR_QUOTE: &'static str = "quote::quote! { ";

pub const OUTER_ATTR_FWD: &'static str = "::forward_tokens! { #path, ";

pub const OUTER_ATTR_END: &'static str = ", #extra } }.into() } #[doc(hidden)] #[proc_macro] pub fn ";

pub const INNER_ATTR_SPLIT: &'static str = " { let (__imported_item, __attached_item, __source_path) = match ";

pub const INNER_ATTR_ARG: &'static str = "::mm_core::split_forwarded(&";

pub const INNER_CUSTOM_SPLIT: &'static str = " { let (__imported_item, __attached_item, __source_path, __custom_tokens) = match ";

pub const INNER_CUSTOM_ARG: &'static str = "::mm_core::split_forwarded_custom(&";

pub const INNER_ATTR_BIND: &'static str = ".to_string()) { Some(parts) => parts, None => return \"::core::compile_error! { \\\"malformed forwarded tokens\\\" }\".parse().unwrap(), }; let ";

pub const INNER_ATTR_ITEM: &'static str = ": proc_macro::TokenStream = __imported_item.parse().unwrap(); let ";

pub const INNER_ATTR_REST: &'static str = ": proc_macro::TokenStream = __attached_item.parse().unwrap(); let __source_path: proc_macro::TokenStream = __source_path.parse().unwrap(); ";

pub const INNER_CUSTOM_BIND: &'static str = "let __custom_tokens: proc_macro::TokenStream = __custom_tokens.parse().unwrap(); ";

/// The head `attrs pub fn name generics(params) ret` of a generated
/// function.
pub open spec fn fn_head(p: ProcMacroView) -> Seq<char> {
    p.attrs + "pub fn "@ + p.name + p.generics + "("@ + p.params + ") "@ + p.ret
}

/// How the outer macro reads the foreign path out of its argument `at` and
/// joins the payload: as a plain path, or through the custom type `c`.
pub open spec fn outer_path_code(at: Seq<char>, root: Seq<char>, custom: Option<Seq<char>>) -> Seq<char> {
    match custom {
        None => OUTER_PATH_PARSE@ + at + OUTER_PATH_JOIN@ + root + OUTER_PATH_EXTRA@,
        Some(c) => OUTER_CUSTOM_PARSE@ + at + " as "@ + c + OUTER_CUSTOM_PATH@ + root
            + OUTER_CUSTOM_JOIN@ + root + OUTER_CUSTOM_EXTRA@,
    }
}

/// How the outer macro reads the foreign path and joins the payload.
fn outer_path(at: &str, root: &str, custom: &Option<String>) -> (r: String)
    ensures
        r@ == outer_path_code(
            at@,
            root@,
            match custom {
                Some(c) => Some(c@),
                None => None,
            },
        ),
{
    match custom {
        None => String::from_str(OUTER_PATH_PARSE).concat(at).concat(OUTER_PATH_JOIN).concat(
            root,
        ).concat(OUTER_PATH_EXTRA),
        Some(c) => String::from_str(OUTER_CUSTOM_PARSE).concat(at).concat(" as ").concat(
            c.as_str(),
        ).concat(OUTER_CUSTOM_PATH).concat(root).concat(OUTER_CUSTOM_JOIN).concat(root).concat(
            OUTER_CUSTOM_EXTRA,
        ),
    }
}

/// How the inner macro starts splitting what it receives in its argument
/// `at`.
pub open spec fn inner_split_code(at: Seq<char>, root: Seq<char>, custom: bool) -> Seq<char> {
    if custom {
        INNER_CUSTOM_SPLIT@ + root + INNER_CUSTOM_ARG@ + at
    } else {
        INNER_ATTR_SPLIT@ + root + INNER_ATTR_ARG@ + at
    }
}

/// How the inner macro starts splitting what it receives.
fn inner_split(at: &str, root: &str, custom: bool) -> (r: String)
    ensures
        r@ == inner_split_code(at@, root@, custom),
{
    if custom {
        String::from_str(INNER_CUSTOM_SPLIT).concat(root).concat(INNER_CUSTOM_ARG).concat(at)
    } else {
        String::from_str(INNER_ATTR_SPLIT).concat(root).concat(INNER_ATTR_ARG).concat(at)
    }
}

/// The two macros that the attribute adapter makes of `p`. The outer one
/// parses the attached item and the foreign path (through the custom type,
/// where `p` names one), joins their texts into the payload and forwards the
/// foreign item with it, through `ovr`, to the inner one; the inner one
/// splits what it receives back into the foreign item, the attached item and
/// the foreign path (and the custom argument), binds them to the parameters'
/// names and to `__source_path` (and `__custom_tokens`), and runs the
/// function's own body.
pub open spec fn attr_adapter_output(p: ProcMacroView, root: Seq<char>, ovr: Seq<char>) -> Seq<char> {
    let inner = attr_inner_name(p.name);
    let at = p.attr_ident->0;
    fn_head(p) + OUTER_OPEN@ + root + OUTER_GLOB@ + root + OUTER_ATTR_ITEM@ + p.tokens_ident + OUTER_ATTR_STR@ + outer_path_code(
        at,
        root,
        p.custom_parsing,
    ) + OUTER_ATTR_QUOTE@ + ovr + OUTER_ATTR_FWD@ + inner + OUTER_ATTR_END@ + inner + p.generics
        + "("@ + p.first_param + ") "@ + p.ret + inner_split_code(at, root, p.custom_parsing is Some)
        + INNER_ATTR_BIND@ + at + INNER_ATTR_ITEM@ + p.tokens_ident + INNER_ATTR_REST@ + (
    if p.custom_parsing is Some {
        INNER_CUSTOM_BIND@
    } else {
        Seq::empty()
    }) + p.stmts + " }"@
}

/// What the attribute adapter with argument `attr` makes of the function
/// `tokens`.
pub open spec fn attr_adapter_result(attr: Seq<char>, tokens: Seq<char>, root: Seq<char>) -> Result<
    Seq<char>,
    MacroError,
> {
    match proc_macro_variant_of(tokens, ProcMacroType::Attribute) {
        Ok(p) => Ok(attr_adapter_output(p, root, override_root(attr, root))),
        Err(e) => Err(e),
    }
}

/// Rewrites an attribute proc macro function into an outer macro that
/// forwards the foreign item named by its argument and an inner macro that
/// runs the function's body on it. `attr` is empty or the path through which
/// the outer macro reaches the forwarding macro.
pub fn import_tokens_attr_internal(attr: &str, tokens: &str, root: &str) -> (r: Result<
    String,
    MacroError,
>)
    ensures
        text_result(r) == attr_adapter_result(attr@, tokens@, root@),
{
    let ovr = override_path(attr, root);
    let p = parse_proc_macro_variant(tokens, ProcMacroType::Attribute)?;
    let at = match &p.attr_ident {
        Some(a) => a,
        None => return Err(MacroError::BadParams),
    };
    let inner = attr_inner_ident(p.name.as_str());
    let custom = p.custom_parsing.is_some();
    let path_code = outer_path(at.as_str(), root, &p.custom_parsing);
    let split_code = inner_split(at.as_str(), root, custom);
    let mut out = p.attrs.concat("pub fn ").concat(p.name.as_str()).concat(p.generics.as_str()).concat(
        "(",
    ).concat(p.params.as_str()).concat(") ").concat(p.ret.as_str());
    out = out.concat(OUTER_OPEN).concat(root).concat(OUTER_GLOB).concat(root).concat(
        OUTER_ATTR_ITEM,
    ).concat(p.tokens_ident.as_str()).concat(OUTER_ATTR_STR).concat(path_code.as_str());
    out = out.concat(OUTER_ATTR_QUOTE).concat(ovr.as_str()).concat(OUTER_ATTR_FWD).concat(
        inner.as_str(),
    ).concat(OUTER_ATTR_END).concat(inner.as_str()).concat(p.generics.as_str());
    out = out.concat("(").concat(p.first_param.as_str()).concat(") ").concat(
        p.ret.as_str(),
    ).concat(split_code.as_str());
    out = out.concat(INNER_ATTR_BIND).concat(at.as_str()).concat(INNER_ATTR_ITEM).concat(
        p.tokens_ident.as_str(),
    ).concat(INNER_ATTR_REST);
    if custom {
        out = out.concat(INNER_CUSTOM_BIND);
    }
    out = out.concat(p.stmts.as_str()).concat(" }");
    proof {
        assert(!custom ==> (out@ =~= attr_adapter_output(p@, root@, ovr@)));
        assert(custom ==> (out@ =~= attr_adapter_output(p@, root@, ovr@)));
    }
    Ok(out)
}

pub const OUTER_PROC_PATH: &'static str = "::__private::quote::ToTokens; let source_path = match syn::parse::<syn::Path>(";

pub const OUTER_PROC_QUOTE: &'static str = ") { Ok(path) => path, Err(e) => return e.to_compile_error().into(), }; quote::quote! { ";

pub const OUTER_PROC_FWD: &'static str = "::forward_tokens! { #source_path, ";

pub const OUTER_PROC_END: &'static str = " } }.into() } #[doc(hidden)] #[proc_macro] pub fn ";

/// The two macros that the function-like adapter makes of `p`: the outer
/// one parses its input as the foreign path and forwards the foreign item,
/// through `ovr`, to the inner one, which runs the function's own body on it.
pub open spec fn proc_adapter_output(p: ProcMacroView, root: Seq<char>, ovr: Seq<char>) -> Seq<char> {
    let inner = proc_inner_name(p.name);
    fn_head(p) + OUTER_OPEN@ + root + OUTER_GLOB@ + root + OUTER_PROC_PATH@ + p.tokens_ident + OUTER_PROC_QUOTE@ + ovr + OUTER_PROC_FWD@ + inner
        + OUTER_PROC_END@ + inner + p.generics + "("@ + p.params + ") "@ + p.ret + " { "@ + p.stmts + " }"@
}

/// What the function-like adapter with argument `attr` makes of the
/// function `tokens`.
pub open spec fn proc_adapter_result(attr: Seq<char>, tokens: Seq<char>, root: Seq<char>) -> Result<
    Seq<char>,
    MacroError,
> {
    match proc_macro_variant_of(tokens, ProcMacroType::Normal) {
        Ok(p) => Ok(proc_adapter_output(p, root, override_root(attr, root))),
        Err(e) => Err(e),
    }
}

/// Rewrites a function-like proc macro function into an outer macro that
/// forwards the foreign item named by its input and an inner macro that runs
/// the function's body on it.
pub fn import_tokens_proc_internal(attr: &str, tokens: &str, root: &str) -> (r: Result<
    String,
    MacroError,
>)
    ensures
        text_result(r) == proc_adapter_result(attr@, tokens@, root@),
{
    let ovr = override_path(attr, root);
    let p = parse_proc_macro_variant(tokens, ProcMacroType::Normal)?;
    let inner = proc_inner_ident(p.name.as_str());
    let mut out = p.attrs.concat("pub fn ").concat(p.name.as_str()).concat(p.generics.as_str()).concat(
        "(",
    ).concat(p.params.as_str()).concat(") ").concat(p.ret.as_str());
    out = out.concat(OUTER_OPEN).concat(root).concat(OUTER_GLOB).concat(root).concat(
        OUTER_PROC_PATH,
    ).concat(p.tokens_ident.as_str()).concat(OUTER_PROC_QUOTE).concat(ovr.as_str());
    out = out.concat(OUTER_PROC_FWD).concat(inner.as_str()).concat(OUTER_PROC_END).concat(
        inner.as_str(),
    ).concat(p.generics.as_str()).concat("(").concat(p.params.as_str()).concat(") ").concat(p.ret.as_str());
    out = out.concat(" { ").concat(p.stmts.as_str()).concat(" }");
    Ok(out)
}

/// What the custom parsing attribute with argument `attr` makes of the
/// attribute proc macro function `tokens`: the function, with the marker
/// `#[custom_parsing(Type)]` placed after its other attributes, so that an
/// attribute adapter among them (applied before or after) picks it up.
pub open spec fn custom_parsing_result(attr: Seq<char>, tokens: Seq<char>) -> Result<
    Seq<char>,
    MacroError,
> {
    match lexed(attr) {
        Some(ts) => if path_of(ts) is Some {
            match proc_macro_variant_of(tokens, ProcMacroType::Attribute) {
                Ok(_) => match lexed(tokens) {
                    Some(ft) => {
                        let a = skip_attrs(ft, 0);
                        Ok(
                            render(ft.subrange(0, a)) + " #[custom_parsing("@ + render(ts) + ")] "@
                                + render(ft.subrange(a, ft.len() as int)),
                        )
                    },
                    None => Err(MacroError::NotAFunction),
                },
                Err(e) => Err(e),
            }
        } else {
            Err(MacroError::NotAPath)
        },
        None => Err(MacroError::NotAPath),
    }
}

/// Marks an attribute proc macro function with the path of the type that
/// parses its argument, for the attribute adapter (applied before or after)
/// to pick up. Whether an adapter is there at all is not checked.
pub fn with_custom_parsing_internal(attr: &str, tokens: &str) -> (r: Result<String, MacroError>)
    ensures
        text_result(r) == custom_parsing_result(attr@, tokens@),
{
    let ts = match lex(attr) {
        Some(ts) => ts,
        None => return Err(MacroError::NotAPath),
    };
    match parse_whole_path(&ts) {
        Some(_) => {},
        None => return Err(MacroError::NotAPath),
    }
    parse_proc_macro_variant(tokens, ProcMacroType::Attribute)?;
    let ft = match lex(tokens) {
        Some(ft) => ft,
        None => return Err(MacroError::NotAFunction),
    };
    let a = attrs_end(&ft, 0);
    let path = render_all(&ts);
    Ok(
        render_range(&ft, 0, a).concat(" #[custom_parsing(").concat(path.as_str()).concat(
            ")] ",
        ).concat(render_range(&ft, a, ft.len()).as_str()),
    )
}

} // verus!
