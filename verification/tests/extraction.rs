use proc_macro2::TokenStream;
use rusto::syntax::{
    FieldDecl, GenericArg, ItemDecl, Members, PathExpr, Segment, SegmentArgs, SourceFile,
    StructDecl, TypeExpr,
};
use rusto::{
    extract, extract_parsed, extract_struct, get_struct_def, get_struct_defs,
    get_struct_defs_from_file, read_file, read_struct, resolve, SchemaError, ShapeError,
    StructDef, StructField, Type,
};

fn tokens(source: &str) -> TokenStream {
    source.parse().unwrap()
}

fn atom(name: &str) -> Type {
    Type::Atom(name.to_string())
}

fn name_expr(ident: &str) -> TypeExpr {
    TypeExpr::Path(PathExpr {
        qualified: false,
        global: false,
        segments: vec![Segment { ident: ident.to_string(), arguments: SegmentArgs::Absent }],
    })
}

fn generic_expr(ident: &str, arguments: Vec<GenericArg>) -> TypeExpr {
    TypeExpr::Path(PathExpr {
        qualified: false,
        global: false,
        segments: vec![Segment {
            ident: ident.to_string(),
            arguments: SegmentArgs::Angle(arguments),
        }],
    })
}

fn vec_expr(inner: TypeExpr) -> TypeExpr {
    generic_expr("Vec", vec![GenericArg::Type(inner)])
}

fn field_decl(name: &str, ty: TypeExpr) -> FieldDecl {
    FieldDecl { name: name.to_string(), ty }
}

fn struct_decl(name: &str, fields: Vec<FieldDecl>) -> StructDecl {
    StructDecl { name: name.to_string(), members: Members::Named(fields) }
}

fn unsupported(struct_name: &str, field_name: &str) -> SchemaError {
    SchemaError::UnsupportedTypeShape {
        struct_name: struct_name.to_string(),
        field_name: field_name.to_string(),
    }
}

fn missing(struct_name: &str, field_name: &str) -> SchemaError {
    SchemaError::MissingGenericArgument {
        struct_name: struct_name.to_string(),
        field_name: field_name.to_string(),
    }
}

#[test]
fn get_struct_defs_one() {
    let code = tokens(
        "struct Person {
            name: String,
            age: u8
        }",
    );

    let struct_defs = get_struct_defs(code).unwrap();
    let struct_def = struct_defs.first().unwrap();
    assert_eq!(
        *struct_def,
        StructDef {
            name: "Person".to_string(),
            fields: vec![
                StructField { name: "name".to_string(), ty: Type::Atom("String".to_string()) },
                StructField { name: "age".to_string(), ty: Type::Atom("u8".to_string()) }
            ]
        }
    )
}

#[test]
fn get_struct_defs_multiple() {
    let code = tokens(
        "struct Person {
            name: String,
            age: u8
        }

        struct Animal {
            alive: bool
        }",
    );

    let struct_defs = get_struct_defs(code).unwrap();

    assert_eq!(
        struct_defs,
        vec![
            StructDef {
                name: "Person".to_string(),
                fields: vec![
                    StructField { name: "name".to_string(), ty: Type::Atom("String".to_string()) },
                    StructField { name: "age".to_string(), ty: Type::Atom("u8".to_string()) }
                ]
            },
            StructDef {
                name: "Animal".to_string(),
                fields: vec![StructField {
                    name: "alive".to_string(),
                    ty: Type::Atom("bool".to_string()),
                }]
            }
        ]
    )
}

#[test]
fn get_struct_def_vec() {
    let code = tokens(
        "struct Student {
            marks: Vec<u32>
        }",
    );

    let struct_defs = get_struct_defs(code).unwrap();

    assert_eq!(
        struct_defs,
        vec![StructDef {
            name: "Student".to_string(),
            fields: vec![StructField {
                name: "marks".to_string(),
                ty: Type::Vec(Box::new(Type::Atom("u32".to_string())))
            }]
        }]
    )
}

#[test]
fn nested_containers_from_source() {
    let defs = get_struct_defs(tokens(
        "struct Grid { one: Vec<u8>, two: Vec<Vec<u8>>, three: Vec<Vec<Vec<u8>>> }",
    ))
    .unwrap();
    let one = Type::Vec(Box::new(atom("u8")));
    let two = Type::Vec(Box::new(Type::Vec(Box::new(atom("u8")))));
    let three = Type::Vec(Box::new(Type::Vec(Box::new(Type::Vec(Box::new(atom("u8")))))));
    assert_eq!(
        defs,
        vec![StructDef {
            name: "Grid".to_string(),
            fields: vec![
                StructField { name: "one".to_string(), ty: one },
                StructField { name: "two".to_string(), ty: two },
                StructField { name: "three".to_string(), ty: three },
            ]
        }]
    );
}

#[test]
fn other_items_are_passed_over() {
    let defs = get_struct_defs(tokens(
        "use std::fmt;
         fn first() -> u8 { 1 }
         struct A { x: u8 }
         enum E { One, Two }
         impl A { fn get(&self) -> u8 { self.x } }
         struct B { y: bool }
         const LIMIT: usize = 3;",
    ))
    .unwrap();
    assert_eq!(
        defs,
        vec![
            StructDef {
                name: "A".to_string(),
                fields: vec![StructField { name: "x".to_string(), ty: atom("u8") }]
            },
            StructDef {
                name: "B".to_string(),
                fields: vec![StructField { name: "y".to_string(), ty: atom("bool") }]
            },
        ]
    );
}

#[test]
fn structs_inside_other_items_are_not_top_level() {
    let defs = get_struct_defs(tokens(
        "mod inner { struct Hidden { x: u8 } }
         fn scope() { struct Local { y: u8 } }
         struct Top { z: u8 }",
    ))
    .unwrap();
    assert_eq!(
        defs,
        vec![StructDef {
            name: "Top".to_string(),
            fields: vec![StructField { name: "z".to_string(), ty: atom("u8") }]
        }]
    );
}

#[test]
fn structs_without_named_fields_are_empty() {
    let defs = get_struct_defs(tokens(
        "struct Empty {}
         struct Unit;
         struct Pair(u8, std::string::String);",
    ))
    .unwrap();
    assert_eq!(
        defs,
        vec![
            StructDef { name: "Empty".to_string(), fields: vec![] },
            StructDef { name: "Unit".to_string(), fields: vec![] },
            StructDef { name: "Pair".to_string(), fields: vec![] },
        ]
    );
}

#[test]
fn empty_source_has_no_structs() {
    assert_eq!(get_struct_defs(tokens("")).unwrap(), vec![]);
}

#[test]
fn qualified_path_is_unsupported() {
    let errors =
        get_struct_defs(tokens("struct Person { name: std::string::String, age: u8 }")).unwrap_err();
    assert_eq!(errors, vec![unsupported("Person", "name")]);
}

#[test]
fn unsupported_shapes_from_source() {
    let errors = get_struct_defs(tokens(
        "struct S {
            a: &'static str,
            b: (u8, u8),
            c: HashMap<String, u8>,
            d: Option<u8>,
            e: ::core::primitive::u8,
            f: <u8 as Trait>::Out,
            g: *const u8,
            h: Vec<'static>,
            i: Vec<u8, u8>,
            j: [u8; 4],
            k: Vec<&'static str>,
            l: Vec<Vec<std::string::String>>,
            ok: Vec<Vec<u8>>,
        }",
    ))
    .unwrap_err();
    let expected: Vec<SchemaError> =
        ["a", "b", "c", "d", "e", "f", "g", "h", "i", "j", "k", "l"]
            .iter()
            .map(|field| unsupported("S", field))
            .collect();
    assert_eq!(errors, expected);
}

#[test]
fn container_without_argument_is_missing_argument() {
    let errors = get_struct_defs(tokens(
        "struct S { a: Vec, b: Vec<>, c: Vec<Vec>, d: u8 }
         struct T { e: Vec<Vec<Vec<>>> }",
    ))
    .unwrap_err();
    assert_eq!(
        errors,
        vec![missing("S", "a"), missing("S", "b"), missing("S", "c"), missing("T", "e")]
    );
}

#[test]
fn errors_are_collected_across_structs() {
    let errors = get_struct_defs(tokens(
        "struct A { x: &u8, y: u8 }
         fn f() {}
         struct B { z: u8 }
         struct C { v: Vec, w: (u8,) }",
    ))
    .unwrap_err();
    assert_eq!(errors, vec![unsupported("A", "x"), missing("C", "v"), unsupported("C", "w")]);
}

#[test]
fn parse_failure_is_reported() {
    let errors = get_struct_defs(tokens("struct Person { name String }")).unwrap_err();
    assert_eq!(errors.len(), 1);
    match &errors[0] {
        SchemaError::Parse { reason } => assert_eq!(reason, "expected `:`"),
        other => panic!("not a parse error: {:?}", other),
    }
}

#[test]
fn parsed_file_gives_the_same_as_tokens() {
    let source = "struct Person { name: String, tags: Vec<String> } fn f() {}";
    let file: syn::File = syn::parse_str(source).unwrap();
    assert_eq!(get_struct_defs_from_file(&file), get_struct_defs(tokens(source)));
    assert_eq!(
        get_struct_defs_from_file(&file).unwrap(),
        vec![StructDef {
            name: "Person".to_string(),
            fields: vec![
                StructField { name: "name".to_string(), ty: atom("String") },
                StructField { name: "tags".to_string(), ty: Type::Vec(Box::new(atom("String"))) },
            ]
        }]
    );
}

#[test]
fn read_file_builds_the_model() {
    let file: syn::File = syn::parse_str(
        "fn f() {}
         struct S { a: u8, b: Vec<u8>, c: &u8, d: ::std::vec::Vec<'static, u8> }
         struct U;
         struct P(u8);
         struct Q { f: <u8 as T>::Out }",
    )
    .unwrap();
    let expected = SourceFile {
        items: vec![
            ItemDecl::Other,
            ItemDecl::Struct(struct_decl(
                "S",
                vec![
                    field_decl("a", name_expr("u8")),
                    field_decl("b", vec_expr(name_expr("u8"))),
                    field_decl("c", TypeExpr::Other),
                    field_decl(
                        "d",
                        TypeExpr::Path(PathExpr {
                            qualified: false,
                            global: true,
                            segments: vec![
                                Segment { ident: "std".to_string(), arguments: SegmentArgs::Absent },
                                Segment { ident: "vec".to_string(), arguments: SegmentArgs::Absent },
                                Segment {
                                    ident: "Vec".to_string(),
                                    arguments: SegmentArgs::Angle(vec![
                                        GenericArg::Other,
                                        GenericArg::Type(name_expr("u8")),
                                    ]),
                                },
                            ],
                        }),
                    ),
                ],
            )),
            ItemDecl::Struct(StructDecl { name: "U".to_string(), members: Members::Unit }),
            ItemDecl::Struct(StructDecl { name: "P".to_string(), members: Members::Unnamed }),
            ItemDecl::Struct(struct_decl(
                "Q",
                vec![field_decl(
                    "f",
                    TypeExpr::Path(PathExpr {
                        qualified: true,
                        global: false,
                        segments: vec![
                            Segment { ident: "T".to_string(), arguments: SegmentArgs::Absent },
                            Segment { ident: "Out".to_string(), arguments: SegmentArgs::Absent },
                        ],
                    }),
                )],
            )),
        ],
    };
    assert_eq!(read_file(&file), expected);
}

#[test]
fn resolve_atom_and_container() {
    assert_eq!(resolve(&name_expr("u8")), Ok(atom("u8")));
    assert_eq!(resolve(&vec_expr(name_expr("u8"))), Ok(Type::Vec(Box::new(atom("u8")))));
    assert_eq!(
        resolve(&vec_expr(vec_expr(name_expr("String")))),
        Ok(Type::Vec(Box::new(Type::Vec(Box::new(atom("String"))))))
    );
}

#[test]
fn resolve_nesting_depths() {
    let mut expr = name_expr("u16");
    let mut expected = atom("u16");
    for _ in 0..3 {
        expr = vec_expr(expr);
        expected = Type::Vec(Box::new(expected));
        assert_eq!(resolve(&vec_expr(name_expr("u16"))), Ok(Type::Vec(Box::new(atom("u16")))));
    }
    assert_eq!(resolve(&expr), Ok(expected));
}

#[test]
fn resolve_rejects_other_shapes() {
    assert_eq!(resolve(&TypeExpr::Other), Err(ShapeError::Unsupported));
    assert_eq!(resolve(&name_expr("")), Err(ShapeError::Unsupported));
    assert_eq!(resolve(&name_expr("Vec")), Err(ShapeError::MissingArgument));
    assert_eq!(resolve(&generic_expr("Vec", vec![])), Err(ShapeError::MissingArgument));
    assert_eq!(
        resolve(&generic_expr("Vec", vec![GenericArg::Other])),
        Err(ShapeError::Unsupported)
    );
    assert_eq!(
        resolve(&generic_expr(
            "Vec",
            vec![GenericArg::Type(name_expr("u8")), GenericArg::Type(name_expr("u8"))]
        )),
        Err(ShapeError::Unsupported)
    );
    assert_eq!(
        resolve(&generic_expr("Option", vec![GenericArg::Type(name_expr("u8"))])),
        Err(ShapeError::Unsupported)
    );
    assert_eq!(resolve(&generic_expr("Thing", vec![])), Err(ShapeError::Unsupported));
    assert_eq!(resolve(&vec_expr(TypeExpr::Other)), Err(ShapeError::Unsupported));
    assert_eq!(resolve(&vec_expr(name_expr("Vec"))), Err(ShapeError::MissingArgument));
    let two_segments = |qualified: bool, global: bool, count: usize| {
        TypeExpr::Path(PathExpr {
            qualified,
            global,
            segments: (0..count)
                .map(|_| Segment { ident: "a".to_string(), arguments: SegmentArgs::Absent })
                .collect(),
        })
    };
    assert_eq!(resolve(&two_segments(false, false, 1)), Ok(atom("a")));
    assert_eq!(resolve(&two_segments(false, false, 2)), Err(ShapeError::Unsupported));
    assert_eq!(resolve(&two_segments(false, false, 0)), Err(ShapeError::Unsupported));
    assert_eq!(resolve(&two_segments(true, false, 1)), Err(ShapeError::Unsupported));
    assert_eq!(resolve(&two_segments(false, true, 1)), Err(ShapeError::Unsupported));
    assert_eq!(
        resolve(&TypeExpr::Path(PathExpr {
            qualified: false,
            global: false,
            segments: vec![Segment { ident: "F".to_string(), arguments: SegmentArgs::Parenthesized }],
        })),
        Err(ShapeError::Unsupported)
    );
    assert_eq!(
        resolve(&TypeExpr::Path(PathExpr {
            qualified: false,
            global: false,
            segments: vec![Segment {
                ident: "Vec".to_string(),
                arguments: SegmentArgs::Parenthesized
            }],
        })),
        Err(ShapeError::Unsupported)
    );
}

#[test]
fn extract_struct_keeps_field_order() {
    let decl = struct_decl(
        "Person",
        vec![
            field_decl("name", name_expr("String")),
            field_decl("age", name_expr("u8")),
            field_decl("marks", vec_expr(name_expr("u32"))),
        ],
    );
    assert_eq!(
        extract_struct(&decl),
        Ok(StructDef {
            name: "Person".to_string(),
            fields: vec![
                StructField { name: "name".to_string(), ty: atom("String") },
                StructField { name: "age".to_string(), ty: atom("u8") },
                StructField { name: "marks".to_string(), ty: Type::Vec(Box::new(atom("u32"))) },
            ]
        })
    );
}

#[test]
fn extract_struct_reports_every_bad_field() {
    let decl = struct_decl(
        "S",
        vec![
            field_decl("a", name_expr("u8")),
            field_decl("b", TypeExpr::Other),
            field_decl("c", name_expr("Vec")),
            field_decl("d", name_expr("bool")),
        ],
    );
    assert_eq!(extract_struct(&decl), Err(vec![unsupported("S", "b"), missing("S", "c")]));
}

#[test]
fn extract_struct_without_fields() {
    assert_eq!(
        extract_struct(&struct_decl("E", vec![])),
        Ok(StructDef { name: "E".to_string(), fields: vec![] })
    );
    assert_eq!(
        extract_struct(&StructDecl { name: "U".to_string(), members: Members::Unit }),
        Ok(StructDef { name: "U".to_string(), fields: vec![] })
    );
    assert_eq!(
        extract_struct(&StructDecl { name: "P".to_string(), members: Members::Unnamed }),
        Ok(StructDef { name: "P".to_string(), fields: vec![] })
    );
}

#[test]
fn extract_keeps_document_order_and_skips_other_items() {
    let file = SourceFile {
        items: vec![
            ItemDecl::Other,
            ItemDecl::Struct(struct_decl("A", vec![field_decl("x", name_expr("u8"))])),
            ItemDecl::Other,
            ItemDecl::Other,
            ItemDecl::Struct(struct_decl("B", vec![])),
            ItemDecl::Struct(struct_decl("A", vec![field_decl("x", name_expr("u8"))])),
        ],
    };
    let only_structs = SourceFile {
        items: vec![
            ItemDecl::Struct(struct_decl("A", vec![field_decl("x", name_expr("u8"))])),
            ItemDecl::Struct(struct_decl("B", vec![])),
            ItemDecl::Struct(struct_decl("A", vec![field_decl("x", name_expr("u8"))])),
        ],
    };
    let a = || StructDef {
        name: "A".to_string(),
        fields: vec![StructField { name: "x".to_string(), ty: atom("u8") }],
    };
    let expected = vec![a(), StructDef { name: "B".to_string(), fields: vec![] }, a()];
    assert_eq!(extract(&file), Ok(expected));
    assert_eq!(extract(&file), extract(&only_structs));
    assert_eq!(extract(&SourceFile { items: vec![] }), Ok(vec![]));
    assert_eq!(extract(&SourceFile { items: vec![ItemDecl::Other] }), Ok(vec![]));
}

#[test]
fn extract_duplicate_field_names_are_kept() {
    let decl = struct_decl(
        "D",
        vec![field_decl("x", name_expr("u8")), field_decl("x", name_expr("bool"))],
    );
    assert_eq!(
        extract_struct(&decl),
        Ok(StructDef {
            name: "D".to_string(),
            fields: vec![
                StructField { name: "x".to_string(), ty: atom("u8") },
                StructField { name: "x".to_string(), ty: atom("bool") },
            ]
        })
    );
}

#[test]
fn extract_parsed_wraps_the_parse_error() {
    assert_eq!(
        extract_parsed(Err("expected `:`".to_string())),
        Err(vec![SchemaError::Parse { reason: "expected `:`".to_string() }])
    );
    assert_eq!(
        extract_parsed(Ok(SourceFile {
            items: vec![ItemDecl::Struct(struct_decl("A", vec![field_decl("x", TypeExpr::Other)]))]
        })),
        Err(vec![unsupported("A", "x")])
    );
    assert_eq!(extract_parsed(Ok(SourceFile { items: vec![] })), Ok(vec![]));
}

#[test]
fn struct_item_gives_its_definition() {
    let item: syn::ItemStruct = syn::parse_str("struct Point { x: i32, tags: Vec<String> }").unwrap();
    assert_eq!(
        read_struct(&item),
        struct_decl(
            "Point",
            vec![
                field_decl("x", name_expr("i32")),
                field_decl("tags", vec_expr(name_expr("String"))),
            ]
        )
    );
    assert_eq!(
        get_struct_def(&item),
        Ok(StructDef {
            name: "Point".to_string(),
            fields: vec![
                StructField { name: "x".to_string(), ty: atom("i32") },
                StructField { name: "tags".to_string(), ty: Type::Vec(Box::new(atom("String"))) },
            ]
        })
    );
    let bad: syn::ItemStruct = syn::parse_str("struct Bad { a: u8, b: [u8; 2], c: Vec }").unwrap();
    assert_eq!(get_struct_def(&bad), Err(vec![unsupported("Bad", "b"), missing("Bad", "c")]));
}

#[test]
fn raw_identifiers_keep_their_prefix() {
    let defs = get_struct_defs(tokens("struct r#Loop { r#type: r#u8 }")).unwrap();
    assert_eq!(
        defs,
        vec![StructDef {
            name: "r#Loop".to_string(),
            fields: vec![StructField { name: "r#type".to_string(), ty: atom("r#u8") }]
        }]
    );
}

#[test]
fn error_messages_name_struct_field_and_rule() {
    assert_eq!(
        unsupported("Person", "name").message(),
        "field `name` of struct `Person`: the type is neither a plain name nor `Vec` of one type"
    );
    assert_eq!(
        missing("Person", "tags").message(),
        "field `tags` of struct `Person`: `Vec` is written without the type it contains"
    );
    assert_eq!(
        SchemaError::Parse { reason: "expected `:`".to_string() }.message(),
        "cannot parse the source: expected `:`"
    );
}

#[test]
fn field_error_is_built_from_the_shape() {
    let s = "S".to_string();
    let f = "f".to_string();
    assert_eq!(SchemaError::for_field(&s, &f, ShapeError::Unsupported), unsupported("S", "f"));
    assert_eq!(SchemaError::for_field(&s, &f, ShapeError::MissingArgument), missing("S", "f"));
}
