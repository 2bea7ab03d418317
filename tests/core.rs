use macro_magic_core::descriptor::ProcMacroType;
use macro_magic_core::reexport::use_internal;
use macro_magic_core::export::export_tokens_internal;
use macro_magic_core::import::{import_tokens_inner_internal, import_tokens_internal};
use macro_magic_core::names::DEFAULT_ROOT;

/// The text of a token stream, as a macro receives it.
fn ts(s: &str) -> String {
    s.parse::<proc_macro2::TokenStream>().unwrap().to_string()
}

#[test]
fn export_tokens_internal_missing_ident() {
    assert!(export_tokens_internal("", &ts("impl MyTrait for Something"), true, DEFAULT_ROOT).is_err());
}

#[test]
fn export_tokens_internal_normal_no_ident() {
    assert!(export_tokens_internal("", &ts("struct MyStruct {}"), true, DEFAULT_ROOT)
        .unwrap()
        .contains("my_struct"));
}

#[test]
fn export_tokens_internal_normal_ident() {
    assert!(export_tokens_internal(&ts("some_name"), &ts("struct Something {}"), true, DEFAULT_ROOT)
        .unwrap()
        .contains("some_name"));
}

#[test]
fn export_tokens_internal_generics_no_ident() {
    assert!(export_tokens_internal("", &ts("struct MyStruct<T> {}"), true, DEFAULT_ROOT)
        .unwrap()
        .contains("__export_tokens_tt_my_struct"));
}

#[test]
fn export_tokens_internal_bad_ident() {
    assert!(export_tokens_internal(&ts("Something<T>"), &ts("struct MyStruct {}"), true, DEFAULT_ROOT).is_err());
    assert!(export_tokens_internal(&ts("some::path"), &ts("struct MyStruct {}"), true, DEFAULT_ROOT).is_err());
}

#[test]
fn import_tokens_internal_simple_path() {
    assert!(import_tokens_internal(&ts("let tokens = my_crate::SomethingCool"), DEFAULT_ROOT)
        .unwrap()
        .contains("__export_tokens_tt_something_cool"));
}

#[test]
fn import_tokens_internal_flatten_long_paths() {
    assert!(import_tokens_internal(
        &ts("let tokens = my_crate::some_mod::complex::SomethingElse"),
        DEFAULT_ROOT
    )
    .unwrap()
    .contains("__export_tokens_tt_something_else"));
}

#[test]
fn import_tokens_internal_invalid_token_ident() {
    assert!(import_tokens_internal(&ts("let 3 * 2 = my_crate::something"), DEFAULT_ROOT).is_err());
}

#[test]
fn import_tokens_internal_invalid_path() {
    assert!(import_tokens_internal(&ts("let my_tokens = 2 - 2"), DEFAULT_ROOT).is_err());
}

#[test]
fn import_tokens_inner_internal_basic() {
    assert!(import_tokens_inner_internal(
        &ts("my_ident, fn my_function() -> u32 { 33 }"),
        DEFAULT_ROOT
    )
    .unwrap()
    .contains("my_ident"));
}

#[test]
fn import_tokens_inner_internal_impl() {
    assert!(import_tokens_inner_internal(
        &ts("another_ident, impl Something for MyThing { fn something() -> CoolStuff { CoolStuff {} } }"),
        DEFAULT_ROOT
    )
    .unwrap()
    .contains("something ()"));
}

#[test]
fn import_tokens_inner_internal_missing_comma() {
    assert!(import_tokens_inner_internal(
        &ts("{ another_ident impl Something for MyThing { fn something() -> CoolStuff { CoolStuff {} } } }"),
        DEFAULT_ROOT
    )
    .is_err());
}

#[test]
fn import_tokens_inner_internal_non_item() {
    assert!(import_tokens_inner_internal(&ts("{ another_ident, 2 + 2 }"), DEFAULT_ROOT).is_err());
}

#[test]
fn test_parse_use_stmt() {
    assert!(use_internal("", &ts("use some::path;"), ProcMacroType::Attribute).is_ok());
    assert!(use_internal("", &ts("use some::path"), ProcMacroType::Normal).is_err());
    assert!(use_internal("", &ts("use some::"), ProcMacroType::Attribute).is_err());
    assert!(use_internal("", &ts("pub use some::long::path;"), ProcMacroType::Attribute).is_ok());
}
