use proc_macro2::TokenStream;
use rusto::{
    format_text, generate, generate_format, generate_from_struct_defs, generate_scope,
    generate_scope_from_struct_defs, generate_string_from_struct_def,
    generate_type_from_field_ty, SchemaError, StructDef, StructField, Type,
};

fn get_code() -> TokenStream {
    "struct Person {
        name: String,
        age: u8
    }"
    .parse()
    .unwrap()
}

fn person() -> StructDef {
    StructDef {
        name: "Person".to_string(),
        fields: vec![
            StructField { name: "name".to_string(), ty: Type::Atom("String".to_string()) },
            StructField { name: "age".to_string(), ty: Type::Atom("u8".to_string()) },
        ],
    }
}

#[test]
fn generate_test() {
    let code = generate_format(get_code()).unwrap();
    assert_eq!(code, "use rusto::def::*;

fn get_structs() {
    StructDef {
            name: \"Person\".to_string(),
            fields: vec![StructField {
                name: \"name\".to_string(),
                ty: Type::Atom(\"String\".to_string())
            }, StructField {
                name: \"age\".to_string(),
                ty: Type::Atom(\"u8\".to_string())
            }],
        }
}".to_string());
}

#[test]
fn type_text_of_atom_and_containers() {
    assert_eq!(
        generate_type_from_field_ty(Type::Atom("u8".to_string())),
        "Type::Atom(\"u8\".to_string())"
    );
    let one = Type::Vec(Box::new(Type::Atom("u8".to_string())));
    assert_eq!(generate_type_from_field_ty(one), "Type::Vec(Box::new(Type::Atom(\"u8\".to_string())))");
    let two = Type::Vec(Box::new(Type::Vec(Box::new(Type::Atom("u8".to_string())))));
    assert_eq!(
        generate_type_from_field_ty(two),
        "Type::Vec(Box::new(Type::Vec(Box::new(Type::Atom(\"u8\".to_string())))))"
    );
    let three = Type::Vec(Box::new(Type::Vec(Box::new(Type::Vec(Box::new(Type::Atom(
        "u8".to_string(),
    )))))));
    assert_eq!(
        generate_type_from_field_ty(three),
        "Type::Vec(Box::new(Type::Vec(Box::new(Type::Vec(Box::new(Type::Atom(\"u8\".to_string())))))))"
    );
}

#[test]
fn names_are_escaped() {
    assert_eq!(
        generate_type_from_field_ty(Type::Atom("a\"b\\c\nd\re".to_string())),
        "Type::Atom(\"a\\\"b\\\\c\\nd\\re\".to_string())"
    );
    assert_eq!(generate_type_from_field_ty(Type::Atom(String::new())), "Type::Atom(\"\".to_string())");
    let def = StructDef {
        name: "S\"".to_string(),
        fields: vec![StructField { name: "f\\".to_string(), ty: Type::Atom("t".to_string()) }],
    };
    assert_eq!(
        generate_string_from_struct_def(&def),
        "StructDef {\n        name: \"S\\\"\".to_string(),\n        fields: vec![StructField {\n            name: \"f\\\\\".to_string(),\n            ty: Type::Atom(\"t\".to_string())\n        }],\n    }"
    );
}

#[test]
fn struct_def_text_with_two_fields() {
    assert_eq!(
        generate_string_from_struct_def(&person()),
        "StructDef {
        name: \"Person\".to_string(),
        fields: vec![StructField {
            name: \"name\".to_string(),
            ty: Type::Atom(\"String\".to_string())
        }, StructField {
            name: \"age\".to_string(),
            ty: Type::Atom(\"u8\".to_string())
        }],
    }"
    );
}

#[test]
fn struct_def_text_without_fields() {
    let def = StructDef { name: "Empty".to_string(), fields: vec![] };
    assert_eq!(
        generate_string_from_struct_def(&def),
        "StructDef {\n        name: \"Empty\".to_string(),\n        fields: vec![\n],\n    }"
    );
}

#[test]
fn struct_def_text_with_one_nested_field() {
    let def = StructDef {
        name: "Grid".to_string(),
        fields: vec![StructField {
            name: "rows".to_string(),
            ty: Type::Vec(Box::new(Type::Vec(Box::new(Type::Atom("u8".to_string()))))),
        }],
    };
    assert_eq!(
        generate_string_from_struct_def(&def),
        "StructDef {\n        name: \"Grid\".to_string(),\n        fields: vec![StructField {\n            name: \"rows\".to_string(),\n            ty: Type::Vec(Box::new(Type::Vec(Box::new(Type::Atom(\"u8\".to_string())))))\n        }],\n    }"
    );
}

#[test]
fn routines_follow_the_order_of_the_schema() {
    let animal = StructDef {
        name: "Animal".to_string(),
        fields: vec![StructField { name: "alive".to_string(), ty: Type::Atom("bool".to_string()) }],
    };
    let text = generate_from_struct_defs(vec![person(), animal]);
    assert_eq!(
        text,
        "use rusto::def::*;

fn get_structs() {
    StructDef {
            name: \"Person\".to_string(),
            fields: vec![StructField {
                name: \"name\".to_string(),
                ty: Type::Atom(\"String\".to_string())
            }, StructField {
                name: \"age\".to_string(),
                ty: Type::Atom(\"u8\".to_string())
            }],
        }
}

fn get_structs_1() {
    StructDef {
            name: \"Animal\".to_string(),
            fields: vec![StructField {
                name: \"alive\".to_string(),
                ty: Type::Atom(\"bool\".to_string())
            }],
        }
}"
    );
}

#[test]
fn routine_names_count_in_decimal() {
    let defs: Vec<StructDef> =
        (0..12).map(|i| StructDef { name: format!("S{}", i), fields: vec![] }).collect();
    let text = generate_from_struct_defs(defs);
    let names: Vec<&str> = text
        .lines()
        .filter(|line| line.starts_with("fn "))
        .map(|line| &line[3..line.len() - 4])
        .collect();
    assert_eq!(
        names,
        vec![
            "get_structs",
            "get_structs_1",
            "get_structs_2",
            "get_structs_3",
            "get_structs_4",
            "get_structs_5",
            "get_structs_6",
            "get_structs_7",
            "get_structs_8",
            "get_structs_9",
            "get_structs_10",
            "get_structs_11",
        ]
    );
}

#[test]
fn empty_schema_has_only_the_import() {
    assert_eq!(generate_from_struct_defs(vec![]), "use rusto::def::*;\n");
    assert_eq!(generate("".parse().unwrap()).unwrap(), "use rusto::def::*;\n");
}

#[test]
fn scope_renders_like_generate() {
    let scope = generate_scope_from_struct_defs(vec![person()]);
    assert_eq!(scope.to_string(), generate(get_code()).unwrap());
    let scope = generate_scope(get_code()).unwrap();
    assert_eq!(scope.to_string(), generate_format(get_code()).unwrap());
}

#[test]
fn generate_two_structs_from_source() {
    let text = generate(
        "struct A { x: Vec<Vec<u8>> } fn skipped() {} struct B;".parse().unwrap(),
    )
    .unwrap();
    assert_eq!(
        text,
        "use rusto::def::*;

fn get_structs() {
    StructDef {
            name: \"A\".to_string(),
            fields: vec![StructField {
                name: \"x\".to_string(),
                ty: Type::Vec(Box::new(Type::Vec(Box::new(Type::Atom(\"u8\".to_string())))))
            }],
        }
}

fn get_structs_1() {
    StructDef {
            name: \"B\".to_string(),
            fields: vec![
    ],
        }
}"
    );
}

fn unsupported_x_of_a() -> Vec<SchemaError> {
    vec![SchemaError::UnsupportedTypeShape {
        struct_name: "A".to_string(),
        field_name: "x".to_string(),
    }]
}

#[test]
fn generation_reports_extraction_errors() {
    let source = "struct A { x: a::B }";
    assert_eq!(generate(source.parse().unwrap()), Err(unsupported_x_of_a()));
    assert_eq!(generate_format(source.parse().unwrap()), Err(unsupported_x_of_a()));
    assert_eq!(generate_scope(source.parse().unwrap()).unwrap_err(), unsupported_x_of_a());
}

#[test]
fn formatting_changes_nothing() {
    let text = generate(get_code()).unwrap();
    let once = format_text(generate(get_code()).unwrap());
    assert_eq!(once, text);
    assert_eq!(format_text(format_text(generate(get_code()).unwrap())), once);
    assert_eq!(format_text("  a\n\n b ".to_string()), "  a\n\n b ");
}

fn without_whitespace(text: &str) -> String {
    text.chars().filter(|c| !c.is_whitespace()).collect()
}

#[test]
fn rendered_literal_is_the_constructor_of_the_value() {
    // The expression below and the text below are the same, character for
    // character, but for white space.
    let rebuilt = StructDef {
        name: "Student".to_string(),
        fields: vec![StructField {
            name: "marks".to_string(),
            ty: Type::Vec(Box::new(Type::Atom("u32".to_string())))
        }, StructField {
            name: "id".to_string(),
            ty: Type::Atom("u64".to_string())
        }],
    };
    let constructor = "StructDef {
        name: \"Student\".to_string(),
        fields: vec![StructField {
            name: \"marks\".to_string(),
            ty: Type::Vec(Box::new(Type::Atom(\"u32\".to_string())))
        }, StructField {
            name: \"id\".to_string(),
            ty: Type::Atom(\"u64\".to_string())
        }],
    }";
    let extracted = rusto::get_struct_defs(
        "struct Student { marks: Vec<u32>, id: u64 }".parse().unwrap(),
    )
    .unwrap();
    let text = generate_string_from_struct_def(&extracted[0]);
    assert_eq!(text, constructor);
    assert_eq!(without_whitespace(&text), without_whitespace(constructor));
    assert_eq!(extracted, vec![rebuilt]);
}

#[test]
fn different_definitions_render_differently() {
    let a = StructDef {
        name: "A".to_string(),
        fields: vec![StructField { name: "x\",y".to_string(), ty: Type::Atom("t".to_string()) }],
    };
    let b = StructDef {
        name: "A".to_string(),
        fields: vec![StructField { name: "x".to_string(), ty: Type::Atom("y".to_string()) }],
    };
    let c = StructDef { name: "A\n".to_string(), fields: vec![] };
    let d = StructDef { name: "A\\n".to_string(), fields: vec![] };
    assert_ne!(generate_string_from_struct_def(&a), generate_string_from_struct_def(&b));
    assert_ne!(generate_string_from_struct_def(&c), generate_string_from_struct_def(&d));
    assert_eq!(
        generate_string_from_struct_def(&c),
        "StructDef {\n        name: \"A\\n\".to_string(),\n        fields: vec![\n],\n    }"
    );
}
