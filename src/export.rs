//! The registrar: an item's export name, and the retrieval macro that hands
//! the item's text to whichever macro asks for it.

use vstd::prelude::*;
use vstd::string::*;
use crate::error::{ItemKind, MacroError};
use crate::item::{item_kind, item_name_checked, nameless_kind, item_name};
use crate::names::{export_key, export_tokens_macro_ident, framework_path_of, macro_magic_path, private_path, private_path_of};
use crate::tokens::{lex, lexed, tok_text, Tok};

verus! {

/// The name that a run of tokens gives where it is exactly one identifier.
pub open spec fn single_ident(a: Seq<Tok>) -> Option<Seq<char>> {
    if a.len() == 1 && a[0] is Ident {
        Some(tok_text(a[0]))
    } else {
        None
    }
}

/// Whether `syn` reads a text as one identifier (a keyword is none).
pub uninterp spec fn ident_parses(s: Seq<char>) -> bool;

/// Relies on `syn::parse_str::<syn::Ident>`: whether a text is one
/// identifier, not a keyword. `proc_macro2::fallback::force`/`unforce`
/// around the call make syn read the text with proc-macro2's own lexer in
/// every process, so the answer depends on the text alone.
#[verifier::external_body]
fn is_ident(s: &str) -> (r: bool)
    ensures
        r == ident_parses(s@),
{
    proc_macro2::fallback::force();
    let ok = syn::parse_str::<syn::Ident>(s).is_ok();
    proc_macro2::fallback::unforce();
    ok
}

/// The name an item is exported under: the argument where one is given (it
/// must be one identifier that is no keyword, as `attr_is_ident` tells),
/// else the item's own name; an item of `kind` without a name of its own
/// needs the argument.
pub open spec fn export_name(
    inherent: Option<Seq<char>>,
    attr: Seq<Tok>,
    attr_is_ident: bool,
    kind: ItemKind,
) -> Result<Seq<char>, MacroError> {
    if attr.len() == 0 {
        match inherent {
            Some(n) => Ok(n),
            None => Err(MacroError::Unnamed(kind)),
        }
    } else {
        match single_ident(attr) {
            Some(n) => if attr_is_ident {
                Ok(n)
            } else {
                Err(MacroError::NotAnIdent)
            },
            None => Err(MacroError::NotAnIdent),
        }
    }
}

pub const MACRO_HEAD: &'static str = "#[macro_export] macro_rules! ";

pub const ARM_EXTRA: &'static str = " { ($tokens_var:path, $callback:path, $extra:expr) => { $callback! { $tokens_var, ";

pub const ARM_EXTRA_END: &'static str = ", $extra } }; ($tokens_var:ident, __forward_tokens_inner) => { ";

pub const FWD_OPEN: &'static str = "! { $tokens_var, ";

pub const ARM_IDENT_END: &'static str = " } }; ($tokens_var:path, __forward_tokens_inner) => { ";

pub const ARM_PATH_END: &'static str = " } }; ($tokens_var:path, $callback:path) => { $callback! { $tokens_var, ";

pub const MACRO_END: &'static str = " } }; }";

pub const EMIT_ITEM: &'static str = " #[allow(unused)] ";

/// The retrieval macro `key` for the item text `item`, followed by the item
/// itself where `emit` holds. Called with a target and a callback (and an
/// extra expression), it calls the callback with the target, the item and the
/// extra expression; called with a name and `__forward_tokens_inner`, it
/// calls the forwarding macro `fwd` with both.
pub open spec fn export_output(key: Seq<char>, item: Seq<char>, fwd: Seq<char>, emit: bool) -> Seq<
    char,
> {
    MACRO_HEAD@ + key + ARM_EXTRA@ + item + ARM_EXTRA_END@ + fwd + FWD_OPEN@ + item
        + ARM_IDENT_END@ + fwd + FWD_OPEN@ + item + ARM_PATH_END@ + item + MACRO_END@ + (if emit {
        EMIT_ITEM@ + item
    } else {
        Seq::empty()
    })
}

/// The kind of a nameless item given by its text.
pub open spec fn kind_of_text(item: Seq<char>) -> ItemKind {
    match lexed(item) {
        Some(ts) => nameless_kind(ts),
        None => ItemKind::Verbatim,
    }
}

/// The name under which the item `item` is exported with the argument `attr`.
pub open spec fn export_name_of(attr: Seq<char>, item: Seq<char>) -> Result<Seq<char>, MacroError> {
    match item_name_checked(item) {
        None => Err(MacroError::NotAnItem),
        Some(inherent) => match lexed(attr) {
            None => Err(MacroError::NotAnIdent),
            Some(a) => export_name(inherent, a, ident_parses(attr), kind_of_text(item)),
        },
    }
}

/// What exporting the item `item` with the argument `attr` expands to.
pub open spec fn export_result(attr: Seq<char>, item: Seq<char>, emit: bool, root: Seq<char>) -> Result<
    Seq<char>,
    MacroError,
> {
    match export_name_of(attr, item) {
        Err(e) => Err(e),
        Ok(n) => Ok(
            export_output(
                export_key(n),
                item,
                private_path_of(root, "forward_tokens_inner"@),
                emit,
            ),
        ),
    }
}

/// The view of a result that carries a text.
pub open spec fn text_result(r: Result<String, MacroError>) -> Result<Seq<char>, MacroError> {
    match r {
        Ok(s) => Ok(s@),
        Err(e) => Err(e),
    }
}

/// The name under which `item` is exported with the argument `attr`.
pub fn export_item_name(attr: &str, item: &str) -> (r: Result<String, MacroError>)
    ensures
        text_result(r) == export_name_of(attr@, item@),
{
    let inherent = match item_name(item) {
        None => return Err(MacroError::NotAnItem),
        Some(n) => n,
    };
    let a = match lex(attr) {
        None => return Err(MacroError::NotAnIdent),
        Some(a) => a,
    };
    if a.len() == 0 {
        match inherent {
            Some(n) => Ok(n),
            None => {
                let kind = match lex(item) {
                    Some(ts) => item_kind(&ts),
                    None => ItemKind::Verbatim,
                };
                Err(MacroError::Unnamed(kind))
            },
        }
    } else if a.len() == 1 {
        match &a[0] {
            Tok::Ident(s) => if is_ident(attr) {
                Ok(s.clone())
            } else {
                Err(MacroError::NotAnIdent)
            },
            _ => Err(MacroError::NotAnIdent),
        }
    } else {
        Err(MacroError::NotAnIdent)
    }
}

/// Exports the item `tokens`: the retrieval macro named after the item's
/// export key, then the item itself unless `emit` is false. `attr` is empty
/// or the one identifier to export under; `root` is where the generated code
/// reaches the framework.
pub fn export_tokens_internal(attr: &str, tokens: &str, emit: bool, root: &str) -> (r: Result<
    String,
    MacroError,
>)
    ensures
        text_result(r) == export_result(attr@, tokens@, emit, root@),
{
    let name = match export_item_name(attr, tokens) {
        Ok(n) => n,
        Err(e) => return Err(e),
    };
    let key = export_tokens_macro_ident(name.as_str());
    let fwd = private_path(root, "forward_tokens_inner");
    let mut out = String::from_str(MACRO_HEAD).concat(key.as_str()).concat(ARM_EXTRA).concat(tokens);
    out = out.concat(ARM_EXTRA_END).concat(fwd.as_str()).concat(FWD_OPEN).concat(tokens);
    out = out.concat(ARM_IDENT_END).concat(fwd.as_str()).concat(FWD_OPEN).concat(tokens);
    out = out.concat(ARM_PATH_END).concat(tokens).concat(MACRO_END);
    if emit {
        out = out.concat(EMIT_ITEM).concat(tokens);
    }
    proof {
        assert(emit ==> out@ =~= export_output(key@, tokens@, fwd@, emit));
        assert(!emit ==> out@ =~= export_output(key@, tokens@, fwd@, emit));
    }
    Ok(out)
}

/// What exporting expands to, with a `compile_error!` in place of a refusal.
pub fn export_tokens_expansion(attr: &str, tokens: &str, emit: bool, root: &str) -> (r: String)
    ensures
        match export_result(attr@, tokens@, emit, root@) {
            Ok(out) => r@ == out,
            Err(e) => r@ == "::core::compile_error! { "@ + crate::import::quoted(
                crate::error::message_of(e),
            ) + " }"@,
        },
{
    match export_tokens_internal(attr, tokens, emit, root) {
        Ok(out) => out,
        Err(e) => e.to_compile_error(),
    }
}

pub const ALIAS_HEAD: &'static str = "#[proc_macro_attribute] pub fn ";

pub const ALIAS_SIG: &'static str = "(attr: proc_macro::TokenStream, tokens: proc_macro::TokenStream) -> proc_macro::TokenStream { ";

pub const ALIAS_ARGS: &'static str = "(&attr.to_string(), &tokens.to_string(), ";

pub const ALIAS_ROOT: &'static str = ", ::core::stringify!(";

pub const ALIAS_END: &'static str = ")).parse().unwrap() }";

/// An attribute macro `alias` that exports as the export attribute does
/// (without emitting the item where `emit` is false).
pub open spec fn alias_output(alias: Seq<char>, emit: bool, root: Seq<char>) -> Seq<char> {
    ALIAS_HEAD@ + alias + ALIAS_SIG@ + framework_path_of(root, "mm_core::export_tokens_expansion"@)
        + ALIAS_ARGS@ + (if emit {
        "true"@
    } else {
        "false"@
    }) + ALIAS_ROOT@ + root + ALIAS_END@
}

/// What the alias constructor expands to for the argument `tokens`.
pub open spec fn alias_result(tokens: Seq<char>, emit: bool, root: Seq<char>) -> Result<
    Seq<char>,
    MacroError,
> {
    match lexed(tokens) {
        Some(ts) => match single_ident(ts) {
            Some(alias) => if ident_parses(tokens) {
                Ok(alias_output(alias, emit, root))
            } else {
                Err(MacroError::NotAnIdent)
            },
            None => Err(MacroError::NotAnIdent),
        },
        None => Err(MacroError::NotAnIdent),
    }
}

/// Generates an attribute macro named by the identifier `tokens` that does
/// what the export attribute does.
pub fn export_tokens_alias_internal(tokens: &str, emit: bool, root: &str) -> (r: Result<
    String,
    MacroError,
>)
    ensures
        text_result(r) == alias_result(tokens@, emit, root@),
{
    let ts = match lex(tokens) {
        Some(ts) => ts,
        None => return Err(MacroError::NotAnIdent),
    };
    if ts.len() != 1 {
        return Err(MacroError::NotAnIdent);
    }
    let alias = match &ts[0] {
        Tok::Ident(s) => s,
        _ => return Err(MacroError::NotAnIdent),
    };
    if !is_ident(tokens) {
        return Err(MacroError::NotAnIdent);
    }
    let path = macro_magic_path(root, "mm_core::export_tokens_expansion");
    let flag = if emit {
        "true"
    } else {
        "false"
    };
    let out = String::from_str(ALIAS_HEAD).concat(alias.as_str()).concat(ALIAS_SIG).concat(
        path.as_str(),
    ).concat(ALIAS_ARGS).concat(flag).concat(ALIAS_ROOT).concat(root).concat(ALIAS_END);
    Ok(out)
}

} // verus!
