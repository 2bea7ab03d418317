use macro_magic_core::error::{ItemKind, MacroError};
use macro_magic_core::export::{export_item_name, export_tokens_expansion, export_tokens_internal};
use macro_magic_core::import::{import_tokens_inner_internal, quote_str};
use macro_magic_core::names::DEFAULT_ROOT;
use macro_magic_core::payload::{join_extra, split_extra, split_forwarded};
use macro_magic_core::registry::{ExportRegistry, RegistryError};
use macro_magic_core::tokens::render_text;

fn text(s: &str) -> String {
    render_text(s).unwrap()
}

#[test]
fn export_then_import_gives_the_item_back() {
    let item = text("fn add2(left: usize, right: usize) -> usize { left + right }");
    let mut reg = ExportRegistry::new();
    let key = reg.register("", &item).unwrap();
    assert_eq!(key, "__export_tokens_tt_add_2");
    let found = reg.lookup("add2").unwrap();
    assert_eq!(found, item);
    let f: syn::ItemFn = syn::parse_str(&found).unwrap();
    assert_eq!(f.sig.ident.to_string(), "add2");
    assert_eq!(f.sig.inputs.len(), 2);
    let names: Vec<String> = f
        .sig
        .inputs
        .iter()
        .map(|a| match a {
            syn::FnArg::Typed(t) => quote::ToTokens::to_token_stream(&t.pat).to_string(),
            _ => String::new(),
        })
        .collect();
    assert_eq!(names, vec!["left".to_string(), "right".to_string()]);
    assert_eq!(quote::ToTokens::to_token_stream(&f.block).to_string(), "{ left + right }");
    assert_eq!(reg.lookup("some_crate::add2").unwrap(), item);
    assert!(reg.lookup("other").is_none());
}

#[test]
fn generic_struct_round_trip() {
    let item = text("struct MyGenericStruct<T: Into<String>> { something: T }");
    let mut reg = ExportRegistry::new();
    reg.register("", &item).unwrap();
    let found = reg.lookup("my_crate::MyGenericStruct").unwrap();
    let s: syn::ItemStruct = syn::parse_str(&found).unwrap();
    assert_eq!(s.generics.params.len(), 1);
    let bound = match s.generics.params.first().unwrap() {
        syn::GenericParam::Type(t) => quote::ToTokens::to_token_stream(&t.bounds).to_string(),
        _ => String::new(),
    };
    assert_eq!(bound, "Into < String >");
    let fields: Vec<String> = s
        .fields
        .iter()
        .map(|f| quote::ToTokens::to_token_stream(f).to_string())
        .collect();
    assert_eq!(fields, vec!["something : T".to_string()]);
}

#[test]
fn impl_without_override_is_refused() {
    let item = text("impl MyTrait for Something { fn x() {} }");
    let r = export_tokens_internal("", &item, true, DEFAULT_ROOT);
    assert_eq!(r, Err(MacroError::Unnamed(ItemKind::Impl)));
    assert!(r.unwrap_err().message().contains("impl"));
    let ok = export_tokens_internal("impl_my_trait", &item, true, DEFAULT_ROOT).unwrap();
    assert!(ok.starts_with("#[macro_export] macro_rules! __export_tokens_tt_impl_my_trait {"));
}

#[test]
fn nameless_kinds_need_an_override() {
    let cases = [
        ("extern \"C\" { fn f(); }", ItemKind::ForeignMod),
        ("use a::b;", ItemKind::Use),
        ("pub use a::b;", ItemKind::Use),
        ("unsafe impl Send for X {}", ItemKind::Impl),
        ("#[doc = \"x\"] impl X {}", ItemKind::Impl),
        ("foo! { bar }", ItemKind::Macro),
    ];
    for (src, kind) in cases {
        let item = text(src);
        assert_eq!(export_item_name("", &item), Err(MacroError::Unnamed(kind)), "{}", src);
        assert_eq!(export_item_name("given_name", &item), Ok("given_name".to_string()));
    }
}

#[test]
fn same_name_twice_collides() {
    let a = text("fn add_stuff(a: usize) -> usize { a }");
    let b = text("fn add_stuff(b: usize) -> usize { b }");
    let mut reg = ExportRegistry::new();
    reg.register("", &a).unwrap();
    assert_eq!(reg.register("", &b), Err(RegistryError::Duplicate));
    assert_eq!(reg.lookup("add_stuff").unwrap(), a);
    // names with the same snake case collide too
    let c = text("struct AddStuff {}");
    assert_eq!(reg.register("", &c), Err(RegistryError::Duplicate));
    // both exports define the same retrieval macro
    let oa = export_tokens_internal("", &a, true, DEFAULT_ROOT).unwrap();
    let ob = export_tokens_internal("", &b, true, DEFAULT_ROOT).unwrap();
    let head = "#[macro_export] macro_rules! __export_tokens_tt_add_stuff {";
    assert!(oa.starts_with(head) && ob.starts_with(head));
}

#[test]
fn refused_items_leave_the_registry_unchanged() {
    let mut reg = ExportRegistry::new();
    assert_eq!(
        reg.register("", &text("impl X {}")),
        Err(RegistryError::Refused(MacroError::Unnamed(ItemKind::Impl)))
    );
    assert_eq!(reg.register("", "2 + 2"), Err(RegistryError::Refused(MacroError::NotAnItem)));
    assert!(reg.get("__export_tokens_tt_x").is_none());
}

#[test]
fn payload_round_trip() {
    let item = "struct AttachedItem { a : u8 , }";
    let path = "a :: b | c";
    let e = join_extra(item, path);
    assert_eq!(e, "struct AttachedItem { a : u8 , }|a :: b | c");
    assert_eq!(split_extra(&e), Some((item.to_string(), path.to_string())));
    assert_eq!(split_extra("no bar"), None);
}

#[test]
fn forwarded_payload_is_unescaped() {
    let extra = join_extra("struct A { s : &'static str = \"x\\y\" }", "p");
    let lit = proc_macro2::Literal::string(&extra).to_string();
    let (item, attached, path) = split_forwarded(&format!("struct B {{}}, {}", lit)).unwrap();
    assert_eq!(item, "struct B {}");
    assert_eq!(attached, "struct A { s : &'static str = \"x\\y\" }");
    assert_eq!(path, "p");
    assert!(split_forwarded("struct B {}, \"no bar\"").is_none());
    assert!(split_forwarded("2 + 2, \"a|b\"").is_none());
}

#[test]
fn imported_text_is_quoted() {
    assert_eq!(quote_str("a\"b\\c"), "\"a\\\"b\\\\c\"");
    let out = import_tokens_inner_internal("t, fn f() { g(\"x\"); }", "::mm").unwrap();
    assert_eq!(
        out,
        "let t = \"fn f () { g (\\\"x\\\") ; }\".parse::<::mm::__private::TokenStream2>().expect(\"failed to parse quoted tokens\");"
    );
}

#[test]
fn refusal_becomes_compile_error() {
    let out = export_tokens_expansion("", "impl X {}", false, DEFAULT_ROOT);
    assert_eq!(
        out,
        "::core::compile_error! { \"cannot export an item of kind `impl` without a name: give one as the argument\" }"
    );
    assert!(out.parse::<proc_macro2::TokenStream>().is_ok());
}
