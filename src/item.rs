//! Items: whether a text is one, the name it carries, and the kind of an
//! item that carries none.

use vstd::prelude::*;
use crate::error::ItemKind;
use crate::syntax::{skip_attrs, skip_vis, attrs_end, vis_end};
use crate::tokens::{free_of_c_strings, is_punct, is_word, lex, lexed, no_c_strings, tok_is_punct, tok_is_word, Tok};
use proc_macro2::fallback::{force, unforce};
use syn::Item::{
    Const as ConstItem, Enum as EnumItem, ExternCrate as CrateItem, Fn as FnItem,
    Macro as MacroItem, Macro2 as Macro2Item, Mod as ModItem, Static as StaticItem,
    Struct as StructItem, Trait as TraitItem, TraitAlias as AliasItem, Type as TypeItem,
    Union as UnionItem,
};
use syn::ItemMacro;

verus! {

/// What `syn` reads out of a text as an item: `None` where the text is no
/// item, `Some(None)` for an item without a name of its own, and otherwise
/// the item's name.
pub uninterp spec fn item_name_of(s: Seq<char>) -> Option<Option<Seq<char>>>;

/// Relies on `syn::parse_str::<syn::Item>`: whether the text is one item,
/// and the identifier that names it. `proc_macro2::fallback::force` makes
/// syn read the text with proc-macro2's own lexer in every process, and
/// `proc_macro2::fallback::unforce` hands the choice back to proc-macro2's
/// detection afterwards, so both depend on the text alone. `syn` 1.0.109
/// panics on a C string literal (`Lit::new`), so the text must hold none.
#[verifier::external_body]
fn parse_item(s: &str) -> (r: Option<Option<String>>)
    requires
        lexed(s@) matches Some(ts) && no_c_strings(ts),
    ensures
        match r {
            None => item_name_of(s@) is None,
            Some(None) => item_name_of(s@) == Some(None::<Seq<char>>),
            Some(Some(n)) => item_name_of(s@) == Some(Some(n@)),
        },
{
    force(); let item = syn::parse_str::<syn::Item>(s).ok(); unforce();
    let id = match item? {
        ConstItem(i) => i.ident, EnumItem(i) => i.ident, CrateItem(i) => i.ident,
        FnItem(i) => i.sig.ident, Macro2Item(i) => i.ident, ModItem(i) => i.ident,
        StaticItem(i) => i.ident, StructItem(i) => i.ident, TraitItem(i) => i.ident,
        AliasItem(i) => i.ident, TypeItem(i) => i.ident, UnionItem(i) => i.ident,
        MacroItem(ItemMacro { ident: Some(i), .. }) => i,
        _ => return Some(None),
    };
    Some(Some(id.to_string()))
}

/// What this library reads out of a text as an item: `None` where the text
/// does not lex, holds a C string literal (which `syn` cannot read), or is
/// no item; otherwise whether the item has a name, and which.
pub open spec fn item_name_checked(s: Seq<char>) -> Option<Option<Seq<char>>> {
    match lexed(s) {
        Some(ts) => if no_c_strings(ts) {
            item_name_of(s)
        } else {
            None
        },
        None => None,
    }
}

/// Reads a text as an item: `None` where it is none (or holds a C string
/// literal), else the item's name, if it has one.
pub fn item_name(s: &str) -> (r: Option<Option<String>>)
    ensures
        match r {
            None => item_name_checked(s@) is None,
            Some(None) => item_name_checked(s@) == Some(None::<Seq<char>>),
            Some(Some(n)) => item_name_checked(s@) == Some(Some(n@)),
        },
{
    match lex(s) {
        Some(ts) => if free_of_c_strings(&ts) {
            parse_item(s)
        } else {
            None
        },
        None => None,
    }
}

/// Whether a top-level `!` stands at `i` or after it.
pub open spec fn has_bang_from(ts: Seq<Tok>, i: int) -> bool {
    exists|j: int| i <= j < ts.len() && is_punct(#[trigger] ts[j], "!"@)
}

/// Whether `ts[i]` is the identifier `w`.
pub open spec fn word_is(ts: Seq<Tok>, i: int, w: Seq<char>) -> bool {
    0 <= i < ts.len() && is_word(ts[i], w)
}

/// The kind of an item without a name, read from the first word after its
/// attributes and visibility.
pub open spec fn nameless_kind(ts: Seq<Tok>) -> ItemKind {
    let h = skip_vis(ts, skip_attrs(ts, 0));
    if word_is(ts, h, "use"@) {
        ItemKind::Use
    } else if word_is(ts, h, "extern"@) || (word_is(ts, h, "unsafe"@) && word_is(ts, h + 1, "extern"@)) {
        ItemKind::ForeignMod
    } else if word_is(ts, h, "impl"@) || word_is(ts, h, "unsafe"@) || word_is(ts, h, "default"@) {
        ItemKind::Impl
    } else if has_bang_from(ts, h) {
        ItemKind::Macro
    } else {
        ItemKind::Verbatim
    }
}

/// Whether `ts[i]` is the identifier `w`.
fn word_at(ts: &Vec<Tok>, i: usize, w: &str) -> (r: bool)
    ensures
        r == word_is(ts@, i as int, w@),
{
    i < ts.len() && tok_is_word(&ts[i], w)
}

/// The kind of an item without a name.
pub fn item_kind(ts: &Vec<Tok>) -> (r: ItemKind)
    ensures
        r == nameless_kind(ts@),
{
    let h = vis_end(ts, attrs_end(ts, 0));
    if word_at(ts, h, "use") {
        ItemKind::Use
    } else if word_at(ts, h, "extern") || (word_at(ts, h, "unsafe") && h < ts.len() && word_at(ts, h + 1, "extern")) {
        ItemKind::ForeignMod
    } else if word_at(ts, h, "impl") || word_at(ts, h, "unsafe") || word_at(ts, h, "default") {
        ItemKind::Impl
    } else {
        let mut j = h;
        while j < ts.len()
            invariant
                h <= j <= ts@.len(),
                nameless_kind(ts@) == if has_bang_from(ts@, h as int) {
                    ItemKind::Macro
                } else {
                    ItemKind::Verbatim
                },
                forall|k: int| h <= k < j ==> !is_punct(#[trigger] ts@[k], "!"@),
            decreases ts@.len() - j,
        {
            if tok_is_punct(&ts[j], "!") {
                assert(is_punct(ts@[j as int], "!"@));
                assert(has_bang_from(ts@, h as int));
                return ItemKind::Macro;
            }
            j = j + 1;
        }
        ItemKind::Verbatim
    }
}

} // verus!
