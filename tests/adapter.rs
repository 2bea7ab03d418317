use macro_magic_core::adapter::{import_tokens_attr_internal, import_tokens_proc_internal};
use macro_magic_core::descriptor::{parse_proc_macro_variant, ProcMacro, ProcMacroType};
use macro_magic_core::reexport::use_internal;
use macro_magic_core::error::MacroError;
use macro_magic_core::export::{export_tokens_alias_internal, export_tokens_internal};
use macro_magic_core::forward::{forward_tokens_inner_internal, forward_tokens_internal, ForwardTokensArgs};
use macro_magic_core::names::DEFAULT_ROOT;

const ATTR_FN: &str = "#[proc_macro_attribute] pub fn my_attr(attr: TokenStream, tokens: TokenStream) -> TokenStream { tokens }";

#[test]
fn proc_macro_descriptor() {
    let p = ProcMacro::from(ATTR_FN).unwrap();
    assert_eq!(p.macro_type, ProcMacroType::Attribute);
    assert_eq!(p.name, "my_attr");
    assert_eq!(p.tokens_ident, "tokens");
    assert_eq!(p.attr_ident, Some("attr".to_string()));
    assert_eq!(p.first_param, "attr : TokenStream");
    assert_eq!(p.ret, "-> TokenStream");
    assert_eq!(p.stmts, "tokens");
    let n = ProcMacro::from("#[proc_macro] pub fn m(input: TokenStream) -> TokenStream { input }").unwrap();
    assert_eq!(n.macro_type, ProcMacroType::Normal);
    assert_eq!(n.attr_ident, None);
    let d = ProcMacro::from("#[proc_macro_derive(Foo)] pub fn d(input: TokenStream) -> TokenStream { input }")
        .unwrap();
    assert_eq!(d.macro_type, ProcMacroType::Derive);
}

#[test]
fn proc_macro_errors() {
    assert_eq!(
        ProcMacro::from("#[proc_macro] fn m(input: TokenStream) -> TokenStream { input }").err(),
        Some(MacroError::NotPublic(2))
    );
    assert_eq!(
        ProcMacro::from("#[proc_macro] pub(crate) fn m(input: TokenStream) -> TokenStream { input }").err(),
        Some(MacroError::NotPublic(2))
    );
    assert_eq!(
        ProcMacro::from("pub fn m(input: TokenStream) -> TokenStream { input }").err(),
        Some(MacroError::NotProcMacro(2))
    );
    assert_eq!(ProcMacro::from("struct X;").err(), Some(MacroError::NotAFunction));
    assert_eq!(
        ProcMacro::from("#[proc_macro] pub fn m((a, b): TokenStream) -> TokenStream { a }").err(),
        Some(MacroError::BadParams)
    );
    assert_eq!(
        parse_proc_macro_variant(ATTR_FN, ProcMacroType::Normal).err(),
        Some(MacroError::MissingAttribute(ProcMacroType::Normal, Some(ProcMacroType::Attribute), 4))
    );
    assert_eq!(
        import_tokens_proc_internal("", ATTR_FN, DEFAULT_ROOT),
        Err(MacroError::MissingAttribute(ProcMacroType::Normal, Some(ProcMacroType::Attribute), 4))
    );
    assert_eq!(
        import_tokens_attr_internal("", "pub fn m(attr: TokenStream, tokens: TokenStream) -> TokenStream { tokens }", DEFAULT_ROOT)
            .unwrap_err()
            .message(),
        "expected a function definition with `#[proc_macro_attribute]`"
    );
    assert_eq!(ProcMacroType::Derive.to_str(), "#[proc_macro_derive]");
    assert_eq!(ProcMacroType::Normal.to_attr(), "#[proc_macro]");
}

#[test]
fn attr_adapter_output_parses() {
    let out = import_tokens_attr_internal("", ATTR_FN, DEFAULT_ROOT).unwrap();
    let file: syn::File = syn::parse_str(&out).unwrap();
    assert_eq!(file.items.len(), 2);
    assert!(out.starts_with("# [proc_macro_attribute] pub fn my_attr(attr : TokenStream , tokens : TokenStream) -> TokenStream { use ::macro_magic::__private::*;"));
    assert!(out.contains("::macro_magic::forward_tokens! { #path, __import_tokens_attr_my_attr_inner, #extra }"));
    assert!(out.contains("#[doc(hidden)] #[proc_macro] pub fn __import_tokens_attr_my_attr_inner(attr : TokenStream) -> TokenStream {"));
    assert!(out.ends_with("let __source_path: proc_macro::TokenStream = __source_path.parse().unwrap(); tokens }"));
}

#[test]
fn proc_adapter_output_parses() {
    let f = "#[proc_macro] pub fn my_proc(tokens: TokenStream) -> TokenStream { tokens }";
    let out = import_tokens_proc_internal("my::root", f, DEFAULT_ROOT).unwrap();
    let file: syn::File = syn::parse_str(&out).unwrap();
    assert_eq!(file.items.len(), 2);
    assert!(out.contains("my :: root::forward_tokens! { #source_path, __import_tokens_proc_my_proc_inner }"));
    assert!(out.ends_with("pub fn __import_tokens_proc_my_proc_inner(tokens : TokenStream) -> TokenStream { tokens }"));
}

#[test]
fn use_reexports_the_inner_macro() {
    let out = use_internal("", "#[doc = \"d\"] pub use some::long::path;", ProcMacroType::Attribute).unwrap();
    assert_eq!(
        out,
        "# [doc = \"d\"] pub use some :: long :: path; #[doc(hidden)] pub use some :: long :: __import_tokens_attr_path_inner;"
    );
    let out = use_internal("", "use path;", ProcMacroType::Normal).unwrap();
    assert_eq!(out, " use path; #[doc(hidden)]  use __import_tokens_proc_path_inner;");
    assert_eq!(use_internal("x", "use path;", ProcMacroType::Normal), Err(MacroError::UnexpectedArgs));
    assert_eq!(use_internal("", "use path;", ProcMacroType::Derive), Err(MacroError::DeriveNotAdapted));
    assert_eq!(use_internal("", "use path", ProcMacroType::Normal), Err(MacroError::BadUse));
}

#[test]
fn forward_arguments() {
    let a = ForwardTokensArgs::parse("::a::B, c::d, \"x\"").unwrap();
    assert_eq!(a.source, vec!["a".to_string(), "B".to_string()]);
    assert_eq!(a.target, "c :: d");
    assert_eq!(a.extra, Some("\"x\"".to_string()));
    let b = ForwardTokensArgs::parse("LionStruct, receiver,").unwrap();
    assert_eq!(b.extra, None);
    assert!(ForwardTokensArgs::parse("LionStruct").is_none());
    assert!(ForwardTokensArgs::parse("a, b, 3").is_none());
    assert!(ForwardTokensArgs::parse("a b, c").is_none());
    assert_eq!(
        forward_tokens_internal("LionStruct, receiver", DEFAULT_ROOT),
        Ok("__export_tokens_tt_lion_struct! { receiver, __forward_tokens_inner }".to_string())
    );
    assert_eq!(forward_tokens_internal("1, 2", DEFAULT_ROOT), Err(MacroError::BadForwardArgs));
    assert_eq!(
        forward_tokens_inner_internal("receiver, struct LionStruct {}"),
        Ok("receiver! { struct LionStruct {} }".to_string())
    );
    assert_eq!(forward_tokens_inner_internal("receiver, 2 + 2"), Err(MacroError::BadForwardedTokens));
}

#[test]
fn export_no_emit_and_alias() {
    let emit = export_tokens_internal("", "struct S {}", true, DEFAULT_ROOT).unwrap();
    let quiet = export_tokens_internal("", "struct S {}", false, DEFAULT_ROOT).unwrap();
    assert!(emit.ends_with("} }; } #[allow(unused)] struct S {}"));
    assert!(quiet.ends_with("} }; }"));
    assert!(emit.parse::<proc_macro2::TokenStream>().is_ok());
    let alias = export_tokens_alias_internal("my_export", false, DEFAULT_ROOT).unwrap();
    assert!(alias.starts_with("#[proc_macro_attribute] pub fn my_export(attr: proc_macro::TokenStream"));
    assert!(alias.contains("::macro_magic::mm_core::export_tokens_expansion(&attr.to_string(), &tokens.to_string(), false, ::core::stringify!(::macro_magic))"));
    let f: syn::ItemFn = syn::parse_str(&alias).unwrap();
    assert_eq!(f.sig.ident.to_string(), "my_export");
    assert_eq!(export_tokens_alias_internal("a::b", true, DEFAULT_ROOT), Err(MacroError::NotAnIdent));
}
