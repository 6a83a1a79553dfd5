use std::sync::Arc;

use cargo_mutants::error_value::ErrorValue;
use cargo_mutants::parse::lower_path;
use cargo_mutants::syntax::{
    ArgumentsShape, AttributeShape, BlockShape, Function, GenericArgument, Impl, Module,
    NestedMeta, Node, PathSegment, PathShape, ReturnShape, TypeShape,
};
use cargo_mutants::visit::{
    attr_is_cfg_test, attr_is_mutants_skip, attr_is_test, attrs_excluded, block_is_empty,
    name_is_integer, ok_default, ops_for_return_type, path_is_ident, return_type_to_string,
    text_is,
};
use cargo_mutants::{
    discover_in_outline, DiscoveryVisitor, LineColumn, Mutant, MutationOp, SourceFile, Span,
};

fn segment(ident: &str) -> PathSegment {
    PathSegment { ident: ident.to_string(), arguments: ArgumentsShape::Absent }
}

fn path(idents: &[&str]) -> PathShape {
    PathShape { leading_colon: false, segments: idents.iter().map(|i| segment(i)).collect() }
}

fn attr(idents: &[&str]) -> AttributeShape {
    AttributeShape { path: path(idents), nested: None }
}

fn cfg(items: Vec<NestedMeta>) -> AttributeShape {
    AttributeShape { path: path(&["cfg"]), nested: Some(items) }
}

fn path_type(tokens: &str, p: PathShape) -> ReturnShape {
    ReturnShape::Type(TypeShape { tokens: tokens.to_string(), path: Some(p) })
}

fn span() -> Span {
    Span { start: LineColumn { line: 1, column: 1 }, end: LineColumn { line: 2, column: 2 } }
}

fn function(name: &str, output: ReturnShape, items: Vec<Node>) -> Function {
    Function {
        attrs: vec![],
        name: name.to_string(),
        output,
        block: BlockShape { statements: 1, span: span() },
        items,
    }
}

fn file() -> Arc<SourceFile> {
    Arc::new(SourceFile::new("src/lib.rs", "the text is not read here"))
}

fn summary(mutants: &[Mutant]) -> Vec<(String, MutationOp)> {
    mutants.iter().map(|m| (m.function_name().to_string(), m.op.clone())).collect()
}

#[test]
fn path_is_result() {
    let path: syn::Path = syn::parse_str("Result<(), ()>").unwrap();
    assert!(cargo_mutants::visit::path_is_result(&lower_path(&path)));
}

#[test]
fn path_is_result_looks_at_the_last_segment_only() {
    for text in ["Result", "std::result::Result<T, E>", "::anyhow::Result", "<T as Try>::Result"] {
        let path: syn::Path = match syn::parse_str::<syn::Type>(text).unwrap() {
            syn::Type::Path(p) => p.path,
            _ => unreachable!(),
        };
        assert!(cargo_mutants::visit::path_is_result(&lower_path(&path)), "{}", text);
    }
    for text in ["Option<Result<T, E>>", "Result::Inner", "MyResult", "result"] {
        let path: syn::Path = syn::parse_str(text).unwrap();
        assert!(!cargo_mutants::visit::path_is_result(&lower_path(&path)), "{}", text);
    }
    assert!(!cargo_mutants::visit::path_is_result(&path(&[])));
}

#[test]
fn lower_path_reads_colon_segments_and_arguments() {
    let parsed: syn::Path = syn::parse_str("::a::B<u32, 'x, Vec<u8>, ::u8, N = u8>::c").unwrap();
    assert_eq!(
        lower_path(&parsed),
        PathShape {
            leading_colon: true,
            segments: vec![
                segment("a"),
                PathSegment {
                    ident: "B".to_string(),
                    arguments: ArgumentsShape::AngleBracketed(vec![
                        GenericArgument::Ident("u32".to_string()),
                        GenericArgument::Other,
                        GenericArgument::Other,
                        GenericArgument::Other,
                        GenericArgument::Other,
                    ]),
                },
                segment("c"),
            ],
        }
    );
    let parsed: syn::Path = match syn::parse_str::<syn::Type>("Fn(u8) -> bool").unwrap() {
        syn::Type::Path(p) => p.path,
        _ => unreachable!(),
    };
    assert_eq!(
        lower_path(&parsed),
        PathShape {
            leading_colon: false,
            segments: vec![PathSegment {
                ident: "Fn".to_string(),
                arguments: ArgumentsShape::Parenthesized,
            }],
        }
    );
    let parsed: syn::Path = syn::parse_str("r#type").unwrap();
    assert_eq!(lower_path(&parsed), path(&["r#type"]));
}

#[test]
fn text_is_compares_whole_strings() {
    assert!(text_is(&"new".to_string(), "new"));
    assert!(!text_is(&"new".to_string(), "news"));
    assert!(!text_is(&"".to_string(), "new"));
    assert!(text_is(&"".to_string(), ""));
}

#[test]
fn path_is_ident_wants_one_bare_segment() {
    assert!(path_is_ident(&path(&["bool"]), "bool"));
    assert!(!path_is_ident(&path(&["bool"]), "String"));
    assert!(!path_is_ident(&path(&["std", "bool"]), "bool"));
    assert!(!path_is_ident(&path(&[]), "bool"));
    assert!(!path_is_ident(
        &PathShape { leading_colon: true, segments: vec![segment("bool")] },
        "bool"
    ));
    for arguments in [ArgumentsShape::AngleBracketed(vec![]), ArgumentsShape::Parenthesized] {
        let p = PathShape {
            leading_colon: false,
            segments: vec![PathSegment { ident: "bool".to_string(), arguments }],
        };
        assert!(!path_is_ident(&p, "bool"));
    }
}

#[test]
fn test_attribute() {
    assert!(attr_is_test(&attr(&["test"])));
    assert!(!attr_is_test(&attr(&["tokio", "test"])));
    assert!(!attr_is_test(&attr(&["tests"])));
    assert!(!attr_is_test(&cfg(vec![NestedMeta::Path(path(&["test"]))])));
}

#[test]
fn cfg_test_attribute() {
    assert!(attr_is_cfg_test(&cfg(vec![NestedMeta::Path(path(&["test"]))])));
    assert!(attr_is_cfg_test(&cfg(vec![
        NestedMeta::Other,
        NestedMeta::Path(path(&["unix"])),
        NestedMeta::Path(path(&["test"])),
    ])));
    assert!(!attr_is_cfg_test(&cfg(vec![])));
    assert!(!attr_is_cfg_test(&cfg(vec![NestedMeta::Other, NestedMeta::Path(path(&["unix"]))])));
    assert!(!attr_is_cfg_test(&cfg(vec![NestedMeta::Path(path(&["a", "test"]))])));
    assert!(!attr_is_cfg_test(&attr(&["cfg"])));
    assert!(!attr_is_cfg_test(&AttributeShape {
        path: path(&["cfg_attr"]),
        nested: Some(vec![NestedMeta::Path(path(&["test"]))]),
    }));
}

#[test]
fn mutants_skip_attribute() {
    assert!(attr_is_mutants_skip(&attr(&["mutants", "skip"])));
    assert!(attr_is_mutants_skip(&AttributeShape {
        path: PathShape {
            leading_colon: true,
            segments: vec![segment("mutants"), segment("skip")],
        },
        nested: None,
    }));
    assert!(!attr_is_mutants_skip(&attr(&["skip"])));
    assert!(!attr_is_mutants_skip(&attr(&["mutants"])));
    assert!(!attr_is_mutants_skip(&attr(&["skip", "mutants"])));
    assert!(!attr_is_mutants_skip(&attr(&["mutants", "skip", "x"])));
}

#[test]
fn attrs_excluded_if_any_is() {
    assert!(!attrs_excluded(&[]));
    assert!(!attrs_excluded(&[attr(&["inline"]), attr(&["doc"])]));
    assert!(attrs_excluded(&[attr(&["inline"]), attr(&["test"])]));
    assert!(attrs_excluded(&[attr(&["mutants", "skip"]), attr(&["inline"])]));
    assert!(attrs_excluded(&[cfg(vec![NestedMeta::Path(path(&["test"]))])]));
}

#[test]
fn block_is_empty_counts_statements() {
    assert!(block_is_empty(&BlockShape { statements: 0, span: span() }));
    assert!(!block_is_empty(&BlockShape { statements: 1, span: span() }));
    assert!(!block_is_empty(&BlockShape { statements: usize::MAX, span: span() }));
}

#[test]
fn integer_names() {
    for name in ["u8", "u16", "u32", "u64", "u128", "usize", "i8", "i16", "i32", "i64", "i128", "isize"] {
        assert!(name_is_integer(&name.to_string()), "{}", name);
    }
    for name in ["f32", "bool", "u", "u7", "U8", "", "char"] {
        assert!(!name_is_integer(&name.to_string()), "{}", name);
    }
}

#[test]
fn ok_default_of_result_paths() {
    let result = |args: Vec<GenericArgument>| PathShape {
        leading_colon: false,
        segments: vec![
            segment("std"),
            PathSegment {
                ident: "Result".to_string(),
                arguments: ArgumentsShape::AngleBracketed(args),
            },
        ],
    };
    assert_eq!(ok_default(&result(vec![GenericArgument::Ident("u32".to_string())])), "0");
    assert_eq!(
        ok_default(&result(vec![
            GenericArgument::Ident("f32".to_string()),
            GenericArgument::Ident("u8".to_string()),
        ])),
        "0.0"
    );
    assert_eq!(
        ok_default(&result(vec![GenericArgument::Ident("String".to_string())])),
        "Default::default()"
    );
    assert_eq!(
        ok_default(&result(vec![
            GenericArgument::Other,
            GenericArgument::Ident("u8".to_string()),
        ])),
        "Default::default()"
    );
    assert_eq!(ok_default(&result(vec![])), "Default::default()");
    assert_eq!(ok_default(&path(&["Result"])), "Default::default()");
    assert_eq!(ok_default(&path(&[])), "Default::default()");
}

#[test]
fn ops_by_return_type() {
    let e = ErrorValue::parse("E").unwrap();
    assert_eq!(ops_for_return_type(&ReturnShape::Default, None), vec![MutationOp::Unit]);
    assert_eq!(ops_for_return_type(&ReturnShape::Default, Some(&e)), vec![MutationOp::Unit]);
    assert_eq!(
        ops_for_return_type(&path_type("bool", path(&["bool"])), None),
        vec![MutationOp::True, MutationOp::False]
    );
    assert_eq!(
        ops_for_return_type(&path_type("String", path(&["String"])), None),
        vec![MutationOp::EmptyString, MutationOp::Xyzzy]
    );
    assert_eq!(
        ops_for_return_type(&path_type("io :: Result", path(&["io", "Result"])), None),
        vec![MutationOp::OkDefault("Default::default()".to_string())]
    );
    assert_eq!(
        ops_for_return_type(&path_type("io :: Result", path(&["io", "Result"])), Some(&e)),
        vec![
            MutationOp::OkDefault("Default::default()".to_string()),
            MutationOp::ConfiguredError("E".to_string()),
        ]
    );
    assert_eq!(
        ops_for_return_type(&path_type("Foo", path(&["Foo"])), Some(&e)),
        vec![MutationOp::Default]
    );
    assert_eq!(
        ops_for_return_type(
            &ReturnShape::Type(TypeShape { tokens: "& str".to_string(), path: None }),
            None
        ),
        vec![MutationOp::Default]
    );
}

#[test]
fn return_type_as_shown() {
    assert_eq!(return_type_to_string(&ReturnShape::Default), "");
    assert_eq!(return_type_to_string(&path_type("bool", path(&["bool"]))), "-> bool");
    assert_eq!(
        return_type_to_string(&ReturnShape::Type(TypeShape {
            tokens: "& 'static str".to_string(),
            path: None,
        })),
        "-> &'static str"
    );
}

#[test]
fn collect_fn_mutants_uses_the_namespace() {
    let mut visitor = DiscoveryVisitor::new(file(), None);
    visitor.namespace_stack.push("a".to_string());
    visitor.namespace_stack.push("b".to_string());
    visitor.collect_fn_mutants(&path_type("bool", path(&["bool"])), &span());
    assert_eq!(
        summary(&visitor.mutants),
        vec![("a::b".to_string(), MutationOp::True), ("a::b".to_string(), MutationOp::False)]
    );
    assert_eq!(visitor.mutants[0].return_type(), "-> bool");
    assert_eq!(visitor.mutants[0].span(), span());
    assert_eq!(visitor.namespace_stack, vec!["a".to_string(), "b".to_string()]);
}

#[test]
fn in_namespace_pushes_and_pops() {
    let mut visitor = DiscoveryVisitor::new(file(), None);
    visitor.namespace_stack.push("outer".to_string());
    let seen = visitor.in_namespace("inner", |v| {
        v.collect_fn_mutants(&ReturnShape::Default, &span());
        v.namespace_stack.clone()
    });
    assert_eq!(seen, vec!["outer".to_string(), "inner".to_string()]);
    assert_eq!(visitor.namespace_stack, vec!["outer".to_string()]);
    assert_eq!(summary(&visitor.mutants), vec![("outer::inner".to_string(), MutationOp::Unit)]);
}

#[test]
fn walk_of_a_tree_written_by_hand() {
    let bar = function("bar", path_type("bool", path(&["bool"])), vec![]);
    let baz = function(
        "baz",
        ReturnShape::Default,
        vec![Node::Fn(function("nested", path_type("Foo", path(&["Foo"])), vec![]))],
    );
    let plain = Impl {
        attrs: vec![],
        trait_path: None,
        self_ty: "Foo < T >".to_string(),
        items: vec![Node::Method(bar)],
    };
    let with_trait = Impl {
        attrs: vec![],
        trait_path: Some(path(&["fmt", "Trait"])),
        self_ty: "Foo < T >".to_string(),
        items: vec![Node::Method(baz)],
    };
    let m = Module {
        attrs: vec![],
        name: "m".to_string(),
        items: vec![Node::Impl(plain), Node::Impl(with_trait)],
    };
    let outline = vec![Node::Mod(m), Node::Fn(function("top", ReturnShape::Default, vec![]))];
    let mutants = discover_in_outline(file(), None, &outline);
    assert_eq!(
        summary(&mutants),
        vec![
            ("m::Foo < T >::bar".to_string(), MutationOp::True),
            ("m::Foo < T >::bar".to_string(), MutationOp::False),
            ("m::<impl Trait for Foo<T>>::baz".to_string(), MutationOp::Unit),
            ("m::<impl Trait for Foo<T>>::baz::nested".to_string(), MutationOp::Default),
            ("top".to_string(), MutationOp::Unit),
        ]
    );
}

#[test]
fn walk_passes_over_what_is_skipped() {
    let excluded = Function {
        attrs: vec![attr(&["test"])],
        ..function("a", ReturnShape::Default, vec![Node::Fn(function("inner", ReturnShape::Default, vec![]))])
    };
    let empty = Function {
        block: BlockShape { statements: 0, span: span() },
        ..function("b", ReturnShape::Default, vec![Node::Fn(function("inner", ReturnShape::Default, vec![]))])
    };
    let default_impl = Impl {
        attrs: vec![],
        trait_path: Some(path(&["Default"])),
        self_ty: "Foo".to_string(),
        items: vec![Node::Method(function("default", ReturnShape::Default, vec![]))],
    };
    let excluded_mod = Module {
        attrs: vec![cfg(vec![NestedMeta::Path(path(&["test"]))])],
        name: "tests".to_string(),
        items: vec![Node::Fn(function("t", ReturnShape::Default, vec![]))],
    };
    let outline = vec![
        Node::Fn(excluded),
        Node::Fn(empty),
        Node::Method(function("new", ReturnShape::Default, vec![])),
        Node::Impl(default_impl),
        Node::Mod(excluded_mod),
        Node::Fn(function("new", ReturnShape::Default, vec![])),
        Node::Method(function("kept", ReturnShape::Default, vec![])),
    ];
    let mutants = discover_in_outline(file(), None, &outline);
    assert_eq!(
        summary(&mutants),
        vec![("new".to_string(), MutationOp::Unit), ("kept".to_string(), MutationOp::Unit)]
    );
}

#[test]
fn impl_of_a_trait_without_segments_is_named_by_its_type() {
    let i = Impl {
        attrs: vec![],
        trait_path: Some(path(&[])),
        self_ty: "Foo < T >".to_string(),
        items: vec![Node::Method(function("get", ReturnShape::Default, vec![]))],
    };
    let mutants = discover_in_outline(file(), None, &vec![Node::Impl(i)]);
    assert_eq!(summary(&mutants), vec![("Foo < T >::get".to_string(), MutationOp::Unit)]);
}

#[test]
fn function_names_are_normalized() {
    let f = function("a < b", ReturnShape::Default, vec![]);
    let mutants = discover_in_outline(file(), None, &vec![Node::Fn(f)]);
    assert_eq!(summary(&mutants), vec![("a<b".to_string(), MutationOp::Unit)]);
}

#[test]
fn visitor_methods_by_kind() {
    let mut visitor = DiscoveryVisitor::new(file(), None);
    visitor.visit_item_fn(&function("f", ReturnShape::Default, vec![]));
    visitor.visit_impl_item_method(&function("g", ReturnShape::Default, vec![]));
    visitor.visit_impl_item_method(&function("new", ReturnShape::Default, vec![]));
    visitor.visit_item_mod(&Module {
        attrs: vec![],
        name: "m".to_string(),
        items: vec![Node::Fn(function("h", ReturnShape::Default, vec![]))],
    });
    visitor.visit_item_impl(&Impl {
        attrs: vec![],
        trait_path: None,
        self_ty: "T".to_string(),
        items: vec![Node::Method(function("i", ReturnShape::Default, vec![]))],
    });
    visitor.visit_nodes(&vec![]);
    assert_eq!(
        summary(&visitor.mutants),
        vec![
            ("f".to_string(), MutationOp::Unit),
            ("g".to_string(), MutationOp::Unit),
            ("m::h".to_string(), MutationOp::Unit),
            ("T::i".to_string(), MutationOp::Unit),
        ]
    );
    assert!(visitor.namespace_stack.is_empty());
}
