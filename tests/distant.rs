use macro_magic_core::adapter::{import_tokens_attr_internal, import_tokens_proc_internal};
use macro_magic_core::export::export_tokens_internal;
use macro_magic_core::forward::{forward_tokens_inner_internal, forward_tokens_internal};
use macro_magic_core::names::{attr_inner_ident, proc_inner_ident, DEFAULT_ROOT};
use macro_magic_core::payload::{join_extra, split_forwarded};
use macro_magic_core::tokens::render_text;

/// The text of a token stream, as this library renders it.
fn text(s: &str) -> String {
    render_text(s).unwrap()
}

const FOREIGN: &str = "struct ForeignItem {}";

const ATTR_MACRO: &str = "#[proc_macro_attribute]
pub fn distant_re_export_attr(attr: TokenStream, tokens: TokenStream) -> TokenStream {
    let imported_item = parse_macro_input!(attr as Item);
    let attached_item = parse_macro_input!(tokens as Item);
    quote! { #attached_item }.into()
}";

const PROC_MACRO: &str = "#[proc_macro]
pub fn distant_re_export_proc(tokens: TokenStream) -> TokenStream {
    let imported_item = parse_macro_input!(tokens as Item);
    let imported_item_str = imported_item.to_token_stream().to_string();
    quote!(#imported_item_str).into()
}";

#[test]
fn test_distant_re_export_attr() {
    let ovr = "middle_crate::export_mod::sub_mod::macro_magic";
    // the exporting crate freezes the foreign item
    let exported = export_tokens_internal("", FOREIGN, true, DEFAULT_ROOT).unwrap();
    assert!(exported.contains("macro_rules! __export_tokens_tt_foreign_item"));
    assert!(exported.contains("$callback! { $tokens_var, struct ForeignItem {}, $extra }"));
    // the adapter splits the attribute macro in two
    let adapted = import_tokens_attr_internal(ovr, ATTR_MACRO, DEFAULT_ROOT).unwrap();
    let inner = attr_inner_ident("distant_re_export_attr");
    assert!(adapted.contains("pub fn __import_tokens_attr_distant_re_export_attr_inner"));
    assert!(adapted.contains("middle_crate :: export_mod :: sub_mod :: macro_magic::forward_tokens!"));
    // the outer macro, on `#[distant_re_export_attr(middle_crate::ForeignItem)] struct AttachedItem {}`
    let attached = text("struct AttachedItem {}");
    let path = text("middle_crate::ForeignItem");
    let extra = join_extra(&attached, &path);
    let lit = proc_macro2::Literal::string(&extra).to_string();
    let fwd = forward_tokens_internal(&format!("{}, {}, {}", path, inner, lit), DEFAULT_ROOT).unwrap();
    assert_eq!(
        fwd,
        format!(
            "middle_crate::__export_tokens_tt_foreign_item! {{ {}, ::macro_magic::__private::forward_tokens_inner, {} }}",
            inner, lit
        )
    );
    // the retrieval macro's first arm calls the forwarding macro with the frozen item
    let delivered =
        forward_tokens_inner_internal(&format!("{}, {}, {}", inner, FOREIGN, lit)).unwrap();
    assert_eq!(delivered, format!("{}! {{ {}, {} }}", inner, FOREIGN, lit));
    // the inner macro receives the foreign item and the payload
    let received = format!("{}, {}", FOREIGN, lit);
    let (imported, attached_back, source_path) = split_forwarded(&received).unwrap();
    assert_eq!(attached_back, "struct AttachedItem {}");
    assert_eq!(imported, "struct ForeignItem {}");
    assert_eq!(source_path, "middle_crate :: ForeignItem");
}

#[test]
fn test_distant_re_export_proc() {
    let ovr = "middle_crate::export_mod::sub_mod::macro_magic";
    let adapted = import_tokens_proc_internal(ovr, PROC_MACRO, DEFAULT_ROOT).unwrap();
    let inner = proc_inner_ident("distant_re_export_proc");
    assert!(adapted.contains("pub fn __import_tokens_proc_distant_re_export_proc_inner"));
    // the outer macro, on `distant_re_export_proc!(middle_crate::ForeignItem)`
    let fwd = forward_tokens_internal(&format!("middle_crate::ForeignItem, {}", inner), DEFAULT_ROOT)
        .unwrap();
    assert_eq!(
        fwd,
        format!("middle_crate::__export_tokens_tt_foreign_item! {{ {}, __forward_tokens_inner }}", inner)
    );
    // the retrieval macro's second arm calls the forwarding macro with the frozen item
    let delivered = forward_tokens_inner_internal(&format!("{}, {}", inner, FOREIGN)).unwrap();
    let prefix = format!("{}! {{ ", inner);
    let tokens_str = delivered.strip_prefix(&prefix).unwrap().strip_suffix(" }").unwrap();
    assert_eq!(tokens_str, "struct ForeignItem {}");
}

#[test]
fn test_forward_tokens() {
    // `forward_tokens!(LionStruct, receiver)` with `receiver` stringifying the item it gets
    let fwd = forward_tokens_internal("LionStruct, receiver", DEFAULT_ROOT).unwrap();
    assert_eq!(fwd, "__export_tokens_tt_lion_struct! { receiver, __forward_tokens_inner }");
    let delivered = forward_tokens_inner_internal(&format!("receiver, {}", text("struct LionStruct {}"))).unwrap();
    let result = delivered.strip_prefix("receiver! { ").unwrap().strip_suffix(" }").unwrap();
    assert_eq!(result, "struct LionStruct {}");
}

#[test]
fn test_import_tokens_proc_expr_position() {
    let exported = export_tokens_internal("", &text("struct TigerStruct {}"), true, DEFAULT_ROOT).unwrap();
    assert!(exported.contains("macro_rules! __export_tokens_tt_tiger_struct"));
    let inner = proc_inner_ident("example_tokens_proc");
    let fwd = forward_tokens_internal(&format!("TigerStruct, {}", inner), DEFAULT_ROOT).unwrap();
    assert!(fwd.starts_with("__export_tokens_tt_tiger_struct! {"));
    let delivered = forward_tokens_inner_internal(&format!("{}, struct TigerStruct {{}}", inner)).unwrap();
    let something = delivered.strip_prefix(&format!("{}! {{ ", inner)).unwrap().strip_suffix(" }").unwrap();
    assert_eq!(something.to_string(), "struct TigerStruct {}");
}
