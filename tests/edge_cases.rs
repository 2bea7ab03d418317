use macro_magic_core::adapter::{import_tokens_attr_internal, import_tokens_proc_internal};
use macro_magic_core::descriptor::{parse_proc_macro_variant, ProcMacro, ProcMacroType};
use macro_magic_core::error::MacroError;
use macro_magic_core::export::{export_item_name, export_tokens_alias_internal};
use macro_magic_core::forward::forward_tokens_inner_internal;
use macro_magic_core::import::import_tokens_inner_internal;
use macro_magic_core::names::DEFAULT_ROOT;
use macro_magic_core::payload::split_forwarded;

#[test]
fn c_string_literals_are_refused_not_read() {
    assert_eq!(export_item_name("", "const G: &core::ffi::CStr = c\"hi\";"), Err(MacroError::NotAnItem));
    assert_eq!(export_item_name("", "fn f() { c\"hi\"; }"), Err(MacroError::NotAnItem));
    assert!(import_tokens_inner_internal("t, fn f() { c\"hi\"; }", DEFAULT_ROOT).is_err());
    assert!(forward_tokens_inner_internal("t, fn f() { c\"hi\"; }").is_err());
    assert!(split_forwarded("fn f() { c\"hi\"; }, \"a|b\"").is_none());
    assert!(split_forwarded("struct A;, c\"a|b\"").is_none());
    assert_eq!(
        ProcMacro::from("#[proc_macro] pub fn m(t: TokenStream) -> TokenStream { c\"x\"; t }").err(),
        Some(MacroError::CStringLiteral)
    );
}

#[test]
fn ordinary_parameters_and_qualifiers() {
    let p = ProcMacro::from("#[proc_macro] pub fn m(mut tokens: TokenStream) -> TokenStream { tokens }").unwrap();
    assert_eq!(p.tokens_ident, "tokens");
    let p = ProcMacro::from(
        "#[proc_macro_attribute] pub fn a(attr: TokenStream, tokens: TokenStream,) -> TokenStream { tokens }",
    )
    .unwrap();
    assert_eq!(p.tokens_ident, "tokens");
    assert_eq!(p.attr_ident, Some("attr".to_string()));
    let p = ProcMacro::from("#[proc_macro] pub const unsafe fn m(t: TokenStream) -> TokenStream { t }").unwrap();
    assert_eq!(p.name, "m");
    assert_eq!(p.name_at, 6);
    assert_eq!(
        ProcMacro::from("#[proc_macro] pub fn m(t: TokenStream) -> 3 { t }").err(),
        Some(MacroError::NotAFunction)
    );
    let p = ProcMacro::from(
        "#[proc_macro] pub fn m<T: Into<Vec<u8>>, F: Fn(u8) -> u8>(tokens: TokenStream) -> TokenStream { tokens }",
    )
    .unwrap();
    assert_eq!(p.name, "m");
    assert_eq!(p.generics, "< T : Into < Vec < u8 >>, F : Fn (u8) -> u8 >");
    assert_eq!(p.params, "tokens : TokenStream");
    assert_eq!(p.tokens_ident, "tokens");
    assert_eq!(p.ret, "-> TokenStream");
    assert_eq!(
        ProcMacro::from("#[proc_macro] fn m<T>(tokens: TokenStream) -> TokenStream { tokens }").err(),
        Some(MacroError::NotPublic(2))
    );
}

#[test]
fn wrong_kind_names_both_and_points_at_the_name() {
    let e = parse_proc_macro_variant(
        "#[proc_macro] pub fn m(t: TokenStream) -> TokenStream { t }",
        ProcMacroType::Attribute,
    )
    .err()
    .unwrap();
    assert_eq!(e, MacroError::MissingAttribute(ProcMacroType::Attribute, Some(ProcMacroType::Normal), 4));
    assert_eq!(e.position(), Some(4));
    assert_eq!(
        e.message(),
        "expected a function definition with `#[proc_macro_attribute]` but found `#[proc_macro]` instead"
    );
    let e = import_tokens_attr_internal(
        "",
        "#[proc_macro_attribute] fn a(attr: TokenStream, tokens: TokenStream) -> TokenStream { tokens }",
        DEFAULT_ROOT,
    )
    .unwrap_err();
    assert_eq!(e, MacroError::NotPublic(2));
    assert_eq!(e.message(), "Visibility must be public");
}

#[test]
fn keywords_are_no_names() {
    assert_eq!(export_item_name("fn", "impl X {}"), Err(MacroError::NotAnIdent));
    assert_eq!(export_item_name("r#fn", "impl X {}"), Ok("r#fn".to_string()));
    assert_eq!(export_tokens_alias_internal("struct", true, DEFAULT_ROOT), Err(MacroError::NotAnIdent));
}

#[test]
fn compile_error_quotes_its_message() {
    let out = MacroError::MissingAttribute(ProcMacroType::Normal, None, 0).to_compile_error();
    assert_eq!(out, "::core::compile_error! { \"expected a function definition with `#[proc_macro]`\" }");
    assert!(out.parse::<proc_macro2::TokenStream>().is_ok());
}

#[test]
fn bound_literal_reads_back_as_the_item() {
    let item = "fn f() { g(\"a\\\\b\", '\"'); }";
    let out = import_tokens_inner_internal(&format!("t, {}", item), DEFAULT_ROOT).unwrap();
    let lit = out.strip_prefix("let t = ").unwrap().split(".parse::<").next().unwrap();
    let value = syn::parse_str::<syn::LitStr>(lit).unwrap().value();
    assert_eq!(
        value.parse::<proc_macro2::TokenStream>().unwrap().to_string(),
        item.parse::<proc_macro2::TokenStream>().unwrap().to_string()
    );
}

#[test]
fn generic_adapters_keep_their_generics() {
    let out = import_tokens_proc_internal(
        "",
        "#[proc_macro] pub fn m<T>(tokens: TokenStream) -> TokenStream { tokens }",
        DEFAULT_ROOT,
    )
    .unwrap();
    assert!(out.contains("pub fn m< T >(tokens : TokenStream) -> TokenStream {"));
    assert!(out.contains("pub fn __import_tokens_proc_m_inner< T >(tokens : TokenStream)"));
    let file: syn::File = syn::parse_str(&out).unwrap();
    assert_eq!(file.items.len(), 2);
}
