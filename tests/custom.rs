use macro_magic_core::adapter::{import_tokens_attr_internal, with_custom_parsing_internal};
use macro_magic_core::descriptor::{ProcMacro, ProcMacroType};
use macro_magic_core::error::MacroError;
use macro_magic_core::names::DEFAULT_ROOT;
use macro_magic_core::payload::{join_custom_extra, split_custom_extra, split_forwarded_custom};

const ATTR_FN: &str = "#[proc_macro_attribute] pub fn my_attribute(attr: TokenStream, tokens: TokenStream) -> TokenStream { tokens }";

fn check_custom_adapter(out: &str) {
    let file: syn::File = syn::parse_str(out).unwrap();
    assert_eq!(file.items.len(), 2);
    assert!(!out.contains("custom_parsing ("));
    assert!(out.contains("let __custom_parsed = syn::parse_macro_input!(attr as MyCustomParsing);"));
    assert!(out.contains("::macro_magic::__private::ForeignPath::foreign_path(&__custom_parsed)"));
    assert!(out.contains("::macro_magic::mm_core::join_custom_extra("));
    assert!(out.contains("::macro_magic::mm_core::split_forwarded_custom(&attr.to_string())"));
    assert!(out.contains("let __custom_tokens: proc_macro::TokenStream = __custom_tokens.parse().unwrap(); tokens }"));
}

#[test]
fn custom_parsing_before_the_adapter() {
    // `#[with_custom_parsing(..)]` above the adapter runs first and marks the function
    let marked = with_custom_parsing_internal("MyCustomParsing", ATTR_FN).unwrap();
    assert!(marked.starts_with("# [proc_macro_attribute] #[custom_parsing(MyCustomParsing)] pub fn my_attribute"));
    let p = ProcMacro::from(&marked).unwrap();
    assert_eq!(p.custom_parsing, Some("MyCustomParsing".to_string()));
    assert_eq!(p.attrs, "# [proc_macro_attribute] ");
    check_custom_adapter(&import_tokens_attr_internal("", &marked, DEFAULT_ROOT).unwrap());
}

#[test]
fn custom_parsing_after_the_adapter() {
    // the adapter above `#[with_custom_parsing(..)]` runs first and reads it
    let f = format!("#[with_custom_parsing(MyCustomParsing)] {}", ATTR_FN);
    check_custom_adapter(&import_tokens_attr_internal("", &f, DEFAULT_ROOT).unwrap());
}

#[test]
fn custom_parsing_errors() {
    assert_eq!(with_custom_parsing_internal("1 + 1", ATTR_FN), Err(MacroError::NotAPath));
    assert_eq!(
        with_custom_parsing_internal("X", "#[proc_macro] pub fn m(tokens: TokenStream) -> TokenStream { tokens }"),
        Err(MacroError::MissingAttribute(ProcMacroType::Attribute, Some(ProcMacroType::Normal), 4))
    );
}

#[test]
fn custom_payload_round_trip() {
    let e = join_custom_extra("struct A {}", "a :: b", "a :: b , c | d");
    assert_eq!(e, "struct A {}|a :: b|a :: b , c | d");
    assert_eq!(
        split_custom_extra(&e),
        Some(("struct A {}".to_string(), "a :: b".to_string(), "a :: b , c | d".to_string()))
    );
    let lit = proc_macro2::Literal::string(&e).to_string();
    let parts = split_forwarded_custom(&format!("struct F {{}}, {}", lit)).unwrap();
    assert_eq!(parts.0, "struct F {}");
    assert_eq!(parts.3, "a :: b , c | d");
    assert!(split_custom_extra("only|one").is_none());
}
