use macro_magic_core::error::MacroError;
use macro_magic_core::names::{
    export_tokens_macro_ident, flatten_ident, get_const_name, get_const_path, macro_magic_path,
    private_path, strip_spaces,
};

#[test]
fn flatten_ident_is_snake_case() {
    assert_eq!(flatten_ident("MyStruct"), "my_struct");
    assert_eq!(flatten_ident("already_snake"), "already_snake");
}

#[test]
fn export_key_has_reserved_prefix() {
    assert_eq!(export_tokens_macro_ident("SomethingCool"), "__export_tokens_tt_something_cool");
    assert_eq!(export_tokens_macro_ident("MyCoolName"), export_tokens_macro_ident("my_cool_name"));
}

#[test]
fn const_name_strips_spaces_and_upper_cases() {
    assert_eq!(get_const_name("add_stuff".to_string()), "__EXPORT_TOKENS__ADD_STUFF");
    assert_eq!(get_const_name("Foo < T >".to_string()), "__EXPORT_TOKENS__FOO<T>");
    assert_eq!(strip_spaces(" a b  c "), "abc");
    assert_eq!(strip_spaces(""), "");
}

#[test]
fn const_path_replaces_last_segment() {
    assert_eq!(
        get_const_path("my_crate::my_mod::add_stuff"),
        Ok("my_crate :: my_mod :: __EXPORT_TOKENS__ADD_STUFF".to_string())
    );
    assert_eq!(get_const_path("::a::b"), Ok(":: a :: __EXPORT_TOKENS__B".to_string()));
    assert_eq!(get_const_path("x"), Ok("__EXPORT_TOKENS__X".to_string()));
    assert_eq!(get_const_path(""), Err(MacroError::EmptyPath));
    assert_eq!(MacroError::EmptyPath.message(), "Empty paths cannot be expanded!");
    assert_eq!(get_const_path("1 + 1"), Err(MacroError::NotAPath));
}

#[test]
fn framework_paths() {
    assert_eq!(private_path("::macro_magic", "forward_tokens_inner"), "::macro_magic::__private::forward_tokens_inner");
    assert_eq!(macro_magic_path("::mm", "mm_core::x"), "::mm::mm_core::x");
}

#[test]
fn root_defaults_to_macro_magic() {
    assert_eq!(macro_magic_core::names::macro_magic_root(None), "::macro_magic");
    assert_eq!(macro_magic_core::names::macro_magic_root(Some("::my_magic")), "::my_magic");
}
