use declpatch::DeclKind;
use declpatch::Declaration;
use declpatch::PatchError;
use declpatch::SourceFile;
use declpatch::apply_patch;
use declpatch::canonical_source;
use declpatch::changes_detected;
use declpatch::locate;
use declpatch::match_item;
use declpatch::modify_items;
use declpatch::parse_kind;
use declpatch::render;

#[test]
fn test_replace_function() {
    let original_code = "fn my_function(a: i32) -> i32 { a + 1 }";
    let new_code = "fn my_function(a: i32) -> i32 { a * 2 }";
    let actual_code = apply_patch(original_code, "fn", "my_function", Some(new_code)).expect(
        "Failed to parse the file",
    );
    let expected_code = canonical_source(new_code).expect("Failed to parse the new function code");
    assert_eq!(actual_code, expected_code);
}

#[test]
fn test_remove_struct() {
    let original_code = "struct MyStruct { x: i32, y: i32 }";
    let actual_code = apply_patch(original_code, "struct", "MyStruct", None).expect(
        "Failed to parse the file",
    );
    assert!(actual_code.is_empty());
}

#[test]
fn test_add_new_function() {
    let original_code = "fn my_function(a: i32) -> i32 { a + 1 }";
    let new_code = "fn new_function(b: i32) -> i32 { b * b }";
    let actual_code = apply_patch(original_code, "fn", "new_function", Some(new_code)).expect(
        "Failed to parse the file",
    );
    let expected_code = canonical_source(&format!("{} {}", original_code, new_code)).expect(
        "Failed to parse the new function code",
    );
    assert_eq!(actual_code, expected_code);
}

#[test]
fn replace_function_body_end_to_end() {
    let original = "fn my_function(a: i32) -> i32 { a + 1 }";
    let new_code = "fn my_function(a: i32) -> i32 { a * 2 }";
    let out = apply_patch(original, "fn", "my_function", Some(new_code)).unwrap();
    assert_eq!(out, "fn my_function (a : i32) -> i32 { a * 2 }");
    let original_canonical = canonical_source(original).unwrap();
    assert!(changes_detected(&original_canonical, &out));
}

#[test]
fn remove_struct_end_to_end() {
    let original = "struct MyStruct { x: i32, y: i32 }";
    let out = apply_patch(original, "struct", "MyStruct", None).unwrap();
    assert_eq!(out, "");
    let original_canonical = canonical_source(original).unwrap();
    assert_eq!(original_canonical, "struct MyStruct { x : i32 , y : i32 }");
    assert!(changes_detected(&original_canonical, &out));
}

#[test]
fn replace_with_identical_code_detects_no_changes() {
    let original = "fn my_function(a: i32) -> i32 { a + 1 }";
    let out = apply_patch(original, "fn", "my_function", Some(original)).unwrap();
    let original_canonical = canonical_source(original).unwrap();
    assert_eq!(out, original_canonical);
    assert!(!changes_detected(&original_canonical, &out));
}

#[test]
fn insert_appends_after_existing_declarations() {
    let original = "struct Point { x: i32 }";
    let new_code = "fn origin() -> i32 { 0 }";
    let out = apply_patch(original, "fn", "origin", Some(new_code)).unwrap();
    assert_eq!(out, "struct Point { x : i32 } fn origin () -> i32 { 0 }");
}

#[test]
fn insert_struct_into_empty_source() {
    let out = apply_patch("", "struct", "S", Some("struct S{x:i32}")).unwrap();
    assert_eq!(out, "struct S { x : i32 }");
}

#[test]
fn remove_absent_name_is_a_no_op() {
    let original = "fn my_function(a: i32) -> i32 { a + 1 }";
    let out = apply_patch(original, "fn", "no_such_function", None).unwrap();
    let original_canonical = canonical_source(original).unwrap();
    assert_eq!(out, original_canonical);
    assert!(!changes_detected(&original_canonical, &out));
}

#[test]
fn replace_mutates_only_the_first_duplicate() {
    let original = "fn f() -> i32 { 1 } fn f() -> i32 { 2 }";
    let new_code = "fn f() -> i32 { 3 }";
    let out = apply_patch(original, "fn", "f", Some(new_code)).unwrap();
    assert_eq!(out, "fn f () -> i32 { 3 } fn f () -> i32 { 2 }");
}

#[test]
fn remove_deletes_only_the_first_duplicate() {
    let original = "fn f() -> i32 { 1 } fn f() -> i32 { 2 }";
    let out = apply_patch(original, "fn", "f", None).unwrap();
    assert_eq!(out, "fn f () -> i32 { 2 }");
}

#[test]
fn kind_must_match_beside_the_name() {
    let original = "fn item() -> i32 { 1 } struct item;";
    let out = apply_patch(original, "struct", "item", None).unwrap();
    assert_eq!(out, "fn item () -> i32 { 1 }");
}

#[test]
fn other_declarations_are_preserved_and_never_matched() {
    let original = "use core::fmt; fn f() -> i32 { 1 }";
    let out = apply_patch(original, "fn", "fmt", None).unwrap();
    assert_eq!(out, "use core :: fmt ; fn f () -> i32 { 1 }");
}

#[test]
fn file_inner_attributes_are_preserved() {
    let original = "#![allow(dead_code)] fn f() -> i32 { 1 }";
    let out = apply_patch(original, "fn", "f", Some("fn f() -> i32 { 2 }")).unwrap();
    assert_eq!(out, "# ! [allow (dead_code)] fn f () -> i32 { 2 }");
    let untouched = apply_patch(original, "fn", "g", None).unwrap();
    assert_eq!(untouched, canonical_source(original).unwrap());
    assert_eq!(untouched, "# ! [allow (dead_code)] fn f () -> i32 { 1 }");
}

#[test]
fn unsupported_kind_is_an_error() {
    let original = "fn f() -> i32 { 1 }";
    let r = apply_patch(original, "enum", "f", None);
    assert_eq!(r, Err(PatchError::UnsupportedKind));
}

#[test]
fn unparsable_file_is_an_error() {
    let r = apply_patch("fn oops(", "fn", "oops", None);
    assert_eq!(r, Err(PatchError::ParseFile));
}

#[test]
fn unparsable_new_code_is_an_error() {
    let original = "fn f() -> i32 { 1 }";
    let r = apply_patch(original, "fn", "f", Some("fn broken("));
    assert_eq!(r, Err(PatchError::ParseNewCode));
}

#[test]
fn new_code_of_the_wrong_kind_is_an_error() {
    let original = "fn f() -> i32 { 1 }";
    let r = apply_patch(original, "fn", "f", Some("struct S { x: i32 }"));
    assert_eq!(r, Err(PatchError::ParseNewCode));
    let r = apply_patch(original, "struct", "f", Some("fn g() -> i32 { 2 }"));
    assert_eq!(r, Err(PatchError::ParseNewCode));
}

#[test]
fn canonicalization_renders_token_by_token() {
    let out = canonical_source("fn  f(a:i32)->i32{a+1}").unwrap();
    assert_eq!(out, "fn f (a : i32) -> i32 { a + 1 }");
    assert!(canonical_source("not rust ^^^").is_none());
    assert_eq!(canonical_source("").unwrap(), "");
}

#[test]
fn parse_kind_accepts_only_fn_and_struct() {
    assert_eq!(parse_kind("fn"), Some(DeclKind::Function));
    assert_eq!(parse_kind("struct"), Some(DeclKind::Struct));
    assert_eq!(parse_kind("enum"), None);
    assert_eq!(parse_kind(""), None);
}

fn fn_decl(name: &str, text: &str) -> Declaration {
    Declaration::Function { name: name.to_string(), text: text.to_string() }
}

fn struct_decl(name: &str, text: &str) -> Declaration {
    Declaration::Struct { name: name.to_string(), text: text.to_string() }
}

#[test]
fn locate_finds_the_first_match_only() {
    let items = vec![
        fn_decl("a", "fn a () { }"),
        fn_decl("b", "fn b () { }"),
        fn_decl("b", "fn b () { 1 ; }"),
    ];
    assert_eq!(locate(&items, DeclKind::Function, "b"), Some(1));
    assert_eq!(locate(&items, DeclKind::Function, "c"), None);
    assert_eq!(locate(&items, DeclKind::Struct, "b"), None);
}

#[test]
fn match_item_compares_kind_and_exact_name() {
    let f = fn_decl("alpha", "fn alpha () { }");
    assert!(match_item(&f, DeclKind::Function, "alpha"));
    assert!(!match_item(&f, DeclKind::Function, "Alpha"));
    assert!(!match_item(&f, DeclKind::Struct, "alpha"));
    let o = Declaration::Other { text: "use x ;".to_string() };
    assert!(!match_item(&o, DeclKind::Function, "x"));
    assert!(!match_item(&o, DeclKind::Struct, "x"));
}

#[test]
fn modify_items_replaces_in_place() {
    let mut items = vec![fn_decl("a", "fn a () { }"), struct_decl("s", "struct s ;")];
    modify_items(&mut items, DeclKind::Struct, "s", Some(struct_decl("t", "struct t ;")));
    assert_eq!(items.len(), 2);
    assert!(match_item(&items[0], DeclKind::Function, "a"));
    assert!(match_item(&items[1], DeclKind::Struct, "t"));
}

#[test]
fn modify_items_removes_the_match() {
    let mut items = vec![fn_decl("a", "fn a () { }"), fn_decl("b", "fn b () { }")];
    modify_items(&mut items, DeclKind::Function, "b", None);
    assert_eq!(items.len(), 1);
    assert!(match_item(&items[0], DeclKind::Function, "a"));
}

#[test]
fn modify_items_appends_when_absent() {
    let mut items = vec![fn_decl("a", "fn a () { }")];
    modify_items(&mut items, DeclKind::Function, "b", Some(fn_decl("b", "fn b () { }")));
    assert_eq!(items.len(), 2);
    assert!(match_item(&items[0], DeclKind::Function, "a"));
    assert!(match_item(&items[1], DeclKind::Function, "b"));
}

#[test]
fn render_joins_declaration_texts_in_order() {
    let source = SourceFile {
        decls: vec![fn_decl("a", "fn a () { }"), struct_decl("s", "struct s ;")],
    };
    assert_eq!(render(&source), "fn a () { } struct s ;");
    let empty = SourceFile { decls: vec![] };
    assert_eq!(render(&empty), "");
}

#[test]
fn changes_detected_compares_exact_text() {
    assert!(!changes_detected("fn a () { }", "fn a () { }"));
    assert!(changes_detected("fn a () { }", "fn a () { 1 ; }"));
    assert!(changes_detected("", "x"));
    assert!(!changes_detected("", ""));
}
