//! The diagnostics of this library.

use vstd::prelude::*;
use vstd::string::*;
use crate::descriptor::{attr_text, ProcMacroType};
use crate::import::{quote_str, quoted};

verus! {

/// The kinds of item that have no name of their own.
#[derive(Clone, Copy, PartialEq, Eq, Structural, Debug)]
pub enum ItemKind {
    Impl,
    ForeignMod,
    Use,
    Macro,
    Verbatim,
}

/// Why a macro input was refused.
#[derive(Clone, Copy, PartialEq, Eq, Structural, Debug)]
pub enum MacroError {
    /// The tokens do not form an item.
    NotAnItem,
    /// An item without a name of its own was exported without a name.
    Unnamed(ItemKind),
    /// Where one identifier was expected, something else stood.
    NotAnIdent,
    /// Arguments of forwarding that are not `source, target` or
    /// `source, target, "extra"`.
    BadForwardArgs,
    /// Arguments of an import that are not `let name = path`.
    BadImportArgs,
    /// Forwarded tokens that are not `name, item` or
    /// `target, item` or `target, item, "extra"`.
    BadForwardedTokens,
    /// Not a function definition.
    NotAFunction,
    /// A text holding a C string literal, which cannot be read.
    CStringLiteral,
    /// A proc macro function that is not `pub`; at the index of the token
    /// where its visibility stands or would stand.
    NotPublic(usize),
    /// A function without a proc macro attribute; at the index of its name.
    NotProcMacro(usize),
    /// A function without the proc macro attribute of the kind an adapter
    /// needs: the kind needed, the kind found (if any), and the index of the
    /// function's name.
    MissingAttribute(ProcMacroType, Option<ProcMacroType>, usize),
    /// A derive macro, which has no adapter.
    DeriveNotAdapted,
    /// A proc macro function whose parameters are not plain names.
    BadParams,
    /// Not a `use path;` statement.
    BadUse,
    /// Arguments where none are taken.
    UnexpectedArgs,
    /// Where a path was expected, something else stood.
    NotAPath,
    /// An empty path.
    EmptyPath,
}

/// The text of a diagnostic.
pub open spec fn kind_name(k: ItemKind) -> Seq<char> {
    match k {
        ItemKind::Impl => "impl"@,
        ItemKind::ForeignMod => "foreign module"@,
        ItemKind::Use => "use declaration"@,
        ItemKind::Macro => "macro without a name"@,
        ItemKind::Verbatim => "verbatim item"@,
    }
}

impl ItemKind {
    /// How the kind is called in a diagnostic.
    pub fn name(&self) -> (r: &'static str)
        ensures
            r@ == kind_name(*self),
    {
        match self {
            ItemKind::Impl => "impl",
            ItemKind::ForeignMod => "foreign module",
            ItemKind::Use => "use declaration",
            ItemKind::Macro => "macro without a name",
            ItemKind::Verbatim => "verbatim item",
        }
    }
}

/// The index of the top-level input token that an error points at.
pub open spec fn position_of(e: MacroError) -> Option<usize> {
    match e {
        MacroError::NotPublic(at) => Some(at),
        MacroError::NotProcMacro(at) => Some(at),
        MacroError::MissingAttribute(_, _, at) => Some(at),
        _ => None,
    }
}

/// The text of a diagnostic.
pub open spec fn message_of(e: MacroError) -> Seq<char> {
    match e {
        MacroError::NotAnItem => "expected an item"@,
        MacroError::Unnamed(k) => "cannot export an item of kind `"@ + kind_name(k)
            + "` without a name: give one as the argument"@,
        MacroError::NotAnIdent => "expected an identifier"@,
        MacroError::BadForwardArgs => "expected `source_path, target_path` or `source_path, target_path, extra_string`"@,
        MacroError::BadImportArgs => "expected `let name = path`"@,
        MacroError::BadForwardedTokens => "malformed forwarded tokens"@,
        MacroError::NotAFunction => "expected a function definition"@,
        MacroError::CStringLiteral => "C string literals are not supported"@,
        MacroError::NotPublic(_) => "Visibility must be public"@,
        MacroError::NotProcMacro(_) => "can only be attached to a proc macro function definition"@,
        MacroError::MissingAttribute(t, None, _) => "expected a function definition with `"@
            + attr_text(t) + "`"@,
        MacroError::MissingAttribute(t, Some(f), _) => "expected a function definition with `"@
            + attr_text(t) + "` but found `"@ + attr_text(f) + "` instead"@,
        MacroError::DeriveNotAdapted => "derive macros have no adapter"@,
        MacroError::BadParams => "the parameters of a proc macro function must be plain names"@,
        MacroError::BadUse => "expected `use path;`"@,
        MacroError::UnexpectedArgs => "this attribute takes no arguments"@,
        MacroError::NotAPath => "expected a path"@,
        MacroError::EmptyPath => "Empty paths cannot be expanded!"@,
    }
}

impl MacroError {
    /// The text of the diagnostic.
    pub fn message(&self) -> (r: String)
        ensures
            r@ == message_of(*self),
    {
        match self {
            MacroError::NotAnItem => String::from_str("expected an item"),
            MacroError::Unnamed(k) => String::from_str("cannot export an item of kind `").concat(
                k.name(),
            ).concat("` without a name: give one as the argument"),
            MacroError::NotAnIdent => String::from_str("expected an identifier"),
            MacroError::BadForwardArgs => String::from_str(
                "expected `source_path, target_path` or `source_path, target_path, extra_string`",
            ),
            MacroError::BadImportArgs => String::from_str("expected `let name = path`"),
            MacroError::BadForwardedTokens => String::from_str("malformed forwarded tokens"),
            MacroError::NotAFunction => String::from_str("expected a function definition"),
            MacroError::CStringLiteral => String::from_str("C string literals are not supported"),
            MacroError::NotPublic(_) => String::from_str("Visibility must be public"),
            MacroError::NotProcMacro(_) => String::from_str(
                "can only be attached to a proc macro function definition",
            ),
            MacroError::MissingAttribute(t, None, _) => String::from_str(
                "expected a function definition with `",
            ).concat(t.to_str()).concat("`"),
            MacroError::MissingAttribute(t, Some(f), _) => String::from_str(
                "expected a function definition with `",
            ).concat(t.to_str()).concat("` but found `").concat(f.to_str()).concat("` instead"),
            MacroError::DeriveNotAdapted => String::from_str("derive macros have no adapter"),
            MacroError::BadParams => String::from_str(
                "the parameters of a proc macro function must be plain names",
            ),
            MacroError::BadUse => String::from_str("expected `use path;`"),
            MacroError::UnexpectedArgs => String::from_str("this attribute takes no arguments"),
            MacroError::NotAPath => String::from_str("expected a path"),
            MacroError::EmptyPath => String::from_str("Empty paths cannot be expanded!"),
        }
    }

    /// The index of the top-level input token the error points at, if any.
    pub fn position(&self) -> (r: Option<usize>)
        ensures
            r == position_of(*self),
    {
        match self {
            MacroError::NotPublic(at) => Some(*at),
            MacroError::NotProcMacro(at) => Some(*at),
            MacroError::MissingAttribute(_, _, at) => Some(*at),
            _ => None,
        }
    }

    /// A `compile_error!` invocation that reports this error.
    pub fn to_compile_error(&self) -> (r: String)
        ensures
            r@ == "::core::compile_error! { "@ + quoted(message_of(*self)) + " }"@,
    {
        let msg = self.message();
        String::from_str("::core::compile_error! { ").concat(quote_str(msg.as_str()).as_str()).concat(
            " }",
        )
    }
}

} // verus!
