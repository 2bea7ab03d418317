//! What holds across the registrar, the importer and the registry: what is
//! exported is what is imported, a key is taken once, and an item without a
//! name of its own needs one to be exported.

use vstd::prelude::*;
use crate::error::MacroError;
use crate::export::{export_name_of, ident_parses, kind_of_text, single_ident};
use crate::import::{escaped, import_inner_output, imported_of, lemma_escape_round_trip, quoted, unescaped};
use crate::names::private_path_of;
use crate::item::item_name_checked;
use crate::forward::is_str_lit;
use crate::names::{export_key, snake_of};
use crate::payload::{bar_free, joined, lemma_payload_round_trip, parts_of_tokens, str_lit_value};
use crate::registry::{lookup_of, register_of, RegistryError};
use crate::syntax::path_of;
use crate::tokens::{is_punct, lexed, render, tok_text, Tok};

verus! {

/// Registering an item and then importing it by a path whose last segment
/// has the same snake case as the item's export name retrieves exactly the
/// item's text.
pub proof fn lemma_export_then_import(
    m: Map<Seq<char>, Seq<char>>,
    attr: Seq<char>,
    item: Seq<char>,
    path: Seq<char>,
)
    requires
        register_of(m, attr, item) is Ok,
        export_name_of(attr, item) matches Ok(n) && lexed(path) matches Some(ts) && path_of(
            ts,
        ) matches Some(segs) && snake_of(segs.last()) == snake_of(n),
    ensures
        lookup_of(register_of(m, attr, item)->Ok_0.1, path) == Some(item),
{
    let n = export_name_of(attr, item)->Ok_0;
    let segs = path_of(lexed(path)->0)->0;
    assert(export_key(segs.last()) == export_key(n));
}

/// The tokens `name, item` that a retrieval macro hands to the import's
/// inner macro bind `name` to exactly the text of `item`.
pub proof fn lemma_import_keeps_item(name: Tok, comma: Tok, item: Seq<Tok>)
    requires
        name is Ident,
        is_punct(comma, ","@),
        item.len() > 0,
        item_name_checked(render(item)) is Some,
    ensures
        imported_of(seq![name, comma] + item) == Some((tok_text(name), render(item))),
{
    let ts = seq![name, comma] + item;
    assert(ts[0] == name && ts[1] == comma);
    assert(ts.subrange(2, ts.len() as int) =~= item);
}

/// Two items whose export names have the same snake case cannot both be
/// registered: once the first is, the second is refused as a duplicate.
pub proof fn lemma_same_key_collides(
    m: Map<Seq<char>, Seq<char>>,
    attr1: Seq<char>,
    item1: Seq<char>,
    attr2: Seq<char>,
    item2: Seq<char>,
)
    requires
        register_of(m, attr1, item1) is Ok,
        export_name_of(attr1, item1) matches Ok(n1) && export_name_of(attr2, item2) matches Ok(n2)
            && snake_of(n1) == snake_of(n2),
    ensures
        register_of(register_of(m, attr1, item1)->Ok_0.1, attr2, item2) == Err::<
            (Seq<char>, Map<Seq<char>, Seq<char>>),
            RegistryError,
        >(RegistryError::Duplicate),
{
    let n1 = export_name_of(attr1, item1)->Ok_0;
    let n2 = export_name_of(attr2, item2)->Ok_0;
    assert(export_key(n1) == export_key(n2));
}

/// An item without a name of its own (an `impl`, a foreign module, a `use`
/// declaration, a macro without a name) is refused without an argument, and
/// exported under the argument where that is one identifier (no keyword).
pub proof fn lemma_override_required(attr: Seq<char>, item: Seq<char>)
    requires
        item_name_checked(item) == Some(None::<Seq<char>>),
    ensures
        lexed(attr) == Some(Seq::<Tok>::empty()) ==> export_name_of(attr, item) == Err::<
            Seq<char>,
            MacroError,
        >(MacroError::Unnamed(kind_of_text(item))),
        lexed(attr) matches Some(a) ==> (single_ident(a) matches Some(n) ==> (ident_parses(attr)
            ==> export_name_of(attr, item) == Ok::<Seq<char>, MacroError>(n))),
{
}

/// The inner macro of an attribute adapter recovers, unchanged, both the
/// foreign item it is handed and the attached item and foreign path that
/// the outer macro joined into the payload literal it is handed beside it,
/// where the attached item's text holds no `|`.
pub proof fn lemma_adapter_threading(
    item: Seq<Tok>,
    comma: Tok,
    lit: Tok,
    attached: Seq<char>,
    path: Seq<char>,
)
    requires
        item.len() > 0,
        item_name_checked(render(item)) is Some,
        is_punct(comma, ","@),
        is_str_lit(lit),
        str_lit_value(tok_text(lit)) == Some(joined(attached, path)),
        bar_free(attached),
    ensures
        parts_of_tokens(item + seq![comma, lit]) == Some((render(item), attached, path)),
{
    let ts = item + seq![comma, lit];
    assert(ts.subrange(0, ts.len() - 2) =~= item);
    assert(ts[ts.len() - 2] == comma && ts[ts.len() - 1] == lit);
    lemma_payload_round_trip(attached, path);
}

/// The import's inner macro binds `name` to the item's text, quoted as a
/// string literal whose body, read back with the two escapes it uses, is
/// exactly that text.
pub proof fn lemma_bound_literal_holds_item(name: Seq<char>, item: Seq<char>, root: Seq<char>)
    ensures
        import_inner_output(name, item, root) == "let "@ + name + " = "@ + quoted(item)
            + ".parse::<"@ + private_path_of(root, "TokenStream2"@)
            + ">().expect(\"failed to parse quoted tokens\");"@,
        quoted(item) == "\""@ + escaped(item) + "\""@,
        unescaped(escaped(item)) == item,
{
    lemma_escape_round_trip(item);
}

} // verus!
