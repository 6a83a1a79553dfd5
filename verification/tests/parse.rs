use cargo_mutants::syntax::{
    ArgumentsShape, AttributeShape, BlockShape, Function, GenericArgument, Impl, Module,
    NestedMeta, Node, PathSegment, PathShape, ReturnShape, TypeShape,
};
use cargo_mutants::{parse_source, LineColumn, Span};

fn ident_path(ident: &str) -> PathShape {
    PathShape {
        leading_colon: false,
        segments: vec![PathSegment {
            ident: ident.to_string(),
            arguments: ArgumentsShape::Absent,
        }],
    }
}

fn at(line: usize, column: usize) -> LineColumn {
    LineColumn { line, column }
}

#[test]
fn outline_of_a_function() {
    let outline = parse_source("#[inline]\n#[cfg(test, \"x\")]\nfn f() -> Result<u8, E> { g(); h() }").unwrap();
    let result = PathShape {
        leading_colon: false,
        segments: vec![PathSegment {
            ident: "Result".to_string(),
            arguments: ArgumentsShape::AngleBracketed(vec![
                GenericArgument::Ident("u8".to_string()),
                GenericArgument::Ident("E".to_string()),
            ]),
        }],
    };
    assert_eq!(
        outline,
        vec![Node::Fn(Function {
            attrs: vec![
                AttributeShape { path: ident_path("inline"), nested: None },
                AttributeShape {
                    path: ident_path("cfg"),
                    nested: Some(vec![NestedMeta::Path(ident_path("test")), NestedMeta::Other]),
                },
            ],
            name: "f".to_string(),
            output: ReturnShape::Type(TypeShape {
                tokens: "Result < u8 , E >".to_string(),
                path: Some(result),
            }),
            block: BlockShape { statements: 2, span: Span { start: at(3, 25), end: at(3, 37) } },
            items: vec![],
        })]
    );
}

#[test]
fn outline_of_nested_scopes() {
    let code = "mod m {\n    impl fmt::Debug for Foo {\n        fn fmt(&self) {}\n    }\n    mod empty;\n}\nimpl Foo {}";
    let outline = parse_source(code).unwrap();
    let debug = PathShape {
        leading_colon: false,
        segments: vec![
            PathSegment { ident: "fmt".to_string(), arguments: ArgumentsShape::Absent },
            PathSegment { ident: "Debug".to_string(), arguments: ArgumentsShape::Absent },
        ],
    };
    assert_eq!(
        outline,
        vec![
            Node::Mod(Module {
                attrs: vec![],
                name: "m".to_string(),
                items: vec![
                    Node::Impl(Impl {
                        attrs: vec![],
                        trait_path: Some(debug),
                        self_ty: "Foo".to_string(),
                        items: vec![Node::Method(Function {
                            attrs: vec![],
                            name: "fmt".to_string(),
                            output: ReturnShape::Default,
                            block: BlockShape {
                                statements: 0,
                                span: Span { start: at(3, 23), end: at(3, 25) },
                            },
                            items: vec![],
                        })],
                    }),
                    Node::Mod(Module { attrs: vec![], name: "empty".to_string(), items: vec![] }),
                ],
            }),
            Node::Impl(Impl {
                attrs: vec![],
                trait_path: None,
                self_ty: "Foo".to_string(),
                items: vec![],
            }),
        ]
    );
}

#[test]
fn outline_types_that_are_no_paths() {
    let outline = parse_source("fn f() -> &'static str { \"\" }").unwrap();
    match &outline[0] {
        Node::Fn(f) => assert_eq!(
            f.output,
            ReturnShape::Type(TypeShape { tokens: "& 'static str".to_string(), path: None })
        ),
        _ => unreachable!(),
    }
}

#[test]
fn text_that_is_no_rust_gives_the_diagnostic() {
    let err = parse_source("fn f() -> { }").unwrap_err();
    assert!(!err.message().is_empty());
    assert_eq!(err.message, err.message());
    let err = parse_source("mod {").unwrap_err();
    assert!(!err.message().is_empty());
}

#[test]
fn reading_twice_gives_the_same_outline() {
    let code = "fn a() -> u8 {\n 1 }\nmod m { fn b() { c(); } }";
    assert_eq!(parse_source(code).unwrap(), parse_source(code).unwrap());
}
