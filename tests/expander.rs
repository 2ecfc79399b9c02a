use ra_proc_macro::expander::{
    custom_derive_request, derive_expanders, list_macros_request, ProcMacroProcessExpander,
};
use ra_proc_macro::msg::{
    expansion_result, list_macros_result, ExpansionTask, ListMacrosResult, ListMacrosTask,
    ProcMacroKind, Request, Response,
};
use ra_proc_macro::tt::{Delimiter, Subtree, Token};

fn tree() -> Subtree {
    Subtree { delimiter: Some(Delimiter::Parenthesis), tokens: vec![Token::Punct('#')] }
}

#[test]
fn only_custom_derives_are_registered() {
    let macros = vec![
        ("Foo".to_string(), ProcMacroKind::CustomDerive),
        ("bar_attr".to_string(), ProcMacroKind::Attr),
    ];
    let r = derive_expanders(7, "/lib/libfoo.so", &macros);
    assert_eq!(r.len(), 1);
    assert_eq!(r[0].name, "Foo");
    assert_eq!(r[0].dylib_path, "/lib/libfoo.so");
    assert_eq!(r[0].process, 7);
    assert!(r.iter().all(|e| e.name != "bar_attr"));
}

#[test]
fn registry_keeps_the_listed_order() {
    let macros = vec![
        ("A".to_string(), ProcMacroKind::CustomDerive),
        ("f".to_string(), ProcMacroKind::FuncLike),
        ("B".to_string(), ProcMacroKind::CustomDerive),
    ];
    let r = derive_expanders(1, "lib", &macros);
    let names: Vec<&str> = r.iter().map(|e| e.name.as_str()).collect();
    assert_eq!(names, vec!["A", "B"]);
}

#[test]
fn empty_listing_registers_nothing() {
    assert!(derive_expanders(1, "lib", &vec![]).is_empty());
}

#[test]
fn adapters_compare_by_name_path_and_supervisor() {
    let a = ProcMacroProcessExpander::new(1, "/lib/a.so", "Foo");
    let b = ProcMacroProcessExpander::new(1, "/lib/a.so", "Foo");
    assert!(a == b);
    assert!(a != ProcMacroProcessExpander::new(2, "/lib/a.so", "Foo"));
    assert!(a != ProcMacroProcessExpander::new(1, "/lib/b.so", "Foo"));
    assert!(a != ProcMacroProcessExpander::new(1, "/lib/a.so", "Bar"));
}

#[test]
fn expansion_request_carries_tree_name_and_library() {
    let expected = Request::ExpansionMacro(ExpansionTask {
        macro_body: tree(),
        macro_name: "Foo".to_string(),
        attributes: None,
        lib: "/lib/a.so".to_string(),
    });
    assert_eq!(custom_derive_request("/lib/a.so", tree(), "Foo"), expected);
    let a = ProcMacroProcessExpander::new(3, "/lib/a.so", "Foo");
    assert_eq!(a.expansion_request(tree()), expected);
}

#[test]
fn listing_request_names_the_library() {
    assert_eq!(
        list_macros_request("/lib/a.so"),
        Request::ListMacro(ListMacrosTask { lib: "/lib/a.so".to_string() })
    );
}

#[test]
fn narrowing_refuses_other_shapes() {
    let listing = Response::ListMacro(ListMacrosResult { macros: vec![] });
    assert_eq!(expansion_result(listing.clone()), Err("Fail to convert from response".to_string()));
    assert_eq!(
        list_macros_result(listing),
        Ok(ListMacrosResult { macros: vec![] })
    );
}
