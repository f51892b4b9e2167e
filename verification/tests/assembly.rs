//! Tests of the resolver and of the whole pipeline.

use idl_schema::schema::assembly::{
    generate, Assembly, AssemblyField, AssemblyFieldType, AssemblyFieldTypeKind, AssemblyType,
    AssemblyTypeRef, ResolveError,
};
use idl_schema::schema::ast::{gen_ast, ParseError, ParserState};
use idl_schema::schema::module::{
    create_module, BuiltinType, SchemeField, SchemeFieldType, SchemeFieldTypeKind, SchemeModule,
    SchemeType, SchemeTypeRef,
};
use idl_schema::schema::tokenize::{tokenize, Token, TokenType};
use idl_schema::schema::{parse, SchemaError};

const MULTIPLE_TYPES_SCHEMA: &str = r#"
    type Post {
        id: integer,
        title: string,
        body: string,
        author: User
    }
    type User {
        id: integer,
        name: string,
        email: string
    }
"#;

#[test]
fn main_test_multiple_types_assembly() {
    let tokens = tokenize(MULTIPLE_TYPES_SCHEMA);
    let ast = gen_ast(&tokens).unwrap();
    let module = create_module(&ast);
    let assembly = generate(&module).unwrap();
    println!("{:?}", assembly);
}

#[test]
fn tests_test_multiple_types_assembly() {
    let tokens = tokenize(MULTIPLE_TYPES_SCHEMA);
    let ast = gen_ast(&tokens).unwrap();
    let module = create_module(&ast);
    let assembly = generate(&module).unwrap();
    println!("{:?}", assembly);
}

fn module_of(text: &str) -> SchemeModule {
    create_module(&gen_ast(&tokenize(text)).unwrap())
}

fn field(name: &str, kind: AssemblyFieldTypeKind, ty_ref: AssemblyTypeRef) -> AssemblyField {
    AssemblyField { name: name.to_string(), ty: AssemblyFieldType { kind, ty_ref } }
}

fn normal(name: &str, ty_ref: AssemblyTypeRef) -> AssemblyField {
    field(name, AssemblyFieldTypeKind::Normal, ty_ref)
}

fn target(assembly: &Assembly, ty: usize, field: usize) -> usize {
    match assembly.types[ty].fields[field].ty.ty_ref {
        AssemblyTypeRef::Custom(target) => target,
        AssemblyTypeRef::Builtin(_) => panic!("a builtin type"),
    }
}

#[test]
fn multiple_types_resolve_to_this_assembly() {
    let assembly = generate(&module_of(MULTIPLE_TYPES_SCHEMA)).unwrap();
    assert_eq!(
        assembly,
        Assembly {
            types: vec![
                AssemblyType {
                    name: "Post".to_string(),
                    fields: vec![
                        normal("id", AssemblyTypeRef::Builtin(BuiltinType::Integer)),
                        normal("title", AssemblyTypeRef::Builtin(BuiltinType::String)),
                        normal("body", AssemblyTypeRef::Builtin(BuiltinType::String)),
                        normal("author", AssemblyTypeRef::Custom(1)),
                    ],
                },
                AssemblyType {
                    name: "User".to_string(),
                    fields: vec![
                        normal("id", AssemblyTypeRef::Builtin(BuiltinType::Integer)),
                        normal("name", AssemblyTypeRef::Builtin(BuiltinType::String)),
                        normal("email", AssemblyTypeRef::Builtin(BuiltinType::String)),
                    ],
                },
            ],
        }
    );
}

#[test]
fn a_type_may_refer_to_itself() {
    let assembly = parse("type A { next: A }").unwrap();
    assert_eq!(assembly.types.len(), 1);
    assert_eq!(assembly.types[0].name, "A");
    assert_eq!(assembly.types[0].fields, vec![normal("next", AssemblyTypeRef::Custom(0))]);
    let node = target(&assembly, 0, 0);
    assert!(std::ptr::eq(&assembly.types[node], &assembly.types[0]));
}

#[test]
fn two_types_may_refer_to_each_other() {
    let assembly = parse("type Post { author: User } type User { posts: Post }").unwrap();
    assert_eq!(assembly.types[0].name, "Post");
    assert_eq!(assembly.types[1].name, "User");
    let user = target(&assembly, 0, 0);
    assert_eq!(assembly.types[user].name, "User");
    assert_eq!(assembly.types[user].fields[0].name, "posts");
    let post = target(&assembly, user, 0);
    assert_eq!(post, 0);
    assert!(std::ptr::eq(&assembly.types[post], &assembly.types[0]));
}

#[test]
fn a_reference_to_an_undefined_type_fails() {
    let module = module_of("type Post { author: User }");
    assert_eq!(
        generate(&module),
        Err(ResolveError::UnresolvedTypeReference("User".to_string()))
    );
    assert_eq!(
        parse("type Post { author: User }"),
        Err(SchemaError::Resolve(ResolveError::UnresolvedTypeReference("User".to_string())))
    );
}

#[test]
fn the_first_undefined_name_in_source_order_is_reported() {
    assert_eq!(
        parse("type A { x: integer, y: Y, z: Z } type B { w: W }"),
        Err(SchemaError::Resolve(ResolveError::UnresolvedTypeReference("Y".to_string())))
    );
    assert_eq!(
        parse("type A { x: B } type B { w: W, v: A } type C { u: U }"),
        Err(SchemaError::Resolve(ResolveError::UnresolvedTypeReference("W".to_string())))
    );
}

#[test]
fn names_are_matched_exactly() {
    assert_eq!(
        parse("type User { } type Post { author: user }"),
        Err(SchemaError::Resolve(ResolveError::UnresolvedTypeReference("user".to_string())))
    );
    assert_eq!(
        parse("type A { x: Integer }"),
        Err(SchemaError::Resolve(ResolveError::UnresolvedTypeReference("Integer".to_string())))
    );
}

#[test]
fn a_type_may_be_used_before_it_is_defined() {
    let assembly = parse("type A { b: B, c: C } type B { c: C } type C { }").unwrap();
    assert_eq!(target(&assembly, 0, 0), 1);
    assert_eq!(target(&assembly, 0, 1), 2);
    assert_eq!(target(&assembly, 1, 0), 2);
    assert!(assembly.types[2].fields.is_empty());
}

#[test]
fn modes_and_builtin_types_pass_through() {
    let assembly =
        parse("type T { a: integer, b: streaming float, c: sync string, d: boolean, e: sync T }")
            .unwrap();
    assert_eq!(
        assembly.types[0].fields,
        vec![
            normal("a", AssemblyTypeRef::Builtin(BuiltinType::Integer)),
            field("b", AssemblyFieldTypeKind::Streaming, AssemblyTypeRef::Builtin(BuiltinType::Float)),
            field("c", AssemblyFieldTypeKind::Sync, AssemblyTypeRef::Builtin(BuiltinType::String)),
            normal("d", AssemblyTypeRef::Builtin(BuiltinType::Boolean)),
            field("e", AssemblyFieldTypeKind::Sync, AssemblyTypeRef::Custom(0)),
        ]
    );
}

#[test]
fn a_name_refers_to_the_last_type_that_bears_it() {
    let assembly = parse("type A { x: integer } type B { a: A } type A { y: A }").unwrap();
    assert_eq!(assembly.types.len(), 3);
    assert_eq!(target(&assembly, 1, 0), 2);
    assert_eq!(target(&assembly, 2, 0), 2);
    assert_eq!(
        assembly.types[0],
        AssemblyType {
            name: "A".to_string(),
            fields: vec![normal("x", AssemblyTypeRef::Builtin(BuiltinType::Integer))],
        }
    );
    assert_eq!(assembly.types[2].fields[0].name, "y");
}

#[test]
fn every_reference_leads_to_a_type_of_that_name() {
    let text = "type A { b: B, a: A } type B { c: sync C, a: A } type C { b: streaming B }";
    let module = module_of(text);
    let assembly = generate(&module).unwrap();
    assert_eq!(assembly.types.len(), module.types.len());
    for (ty, from) in assembly.types.iter().zip(module.types.iter()) {
        assert_eq!(ty.name, from.name);
        assert_eq!(ty.fields.len(), from.fields.len());
        for (field, from) in ty.fields.iter().zip(from.fields.iter()) {
            assert_eq!(field.name, from.name);
            match (&field.ty.ty_ref, &from.ty.ty_ref) {
                (AssemblyTypeRef::Custom(target), SchemeTypeRef::Custom(name)) => {
                    assert!(*target < assembly.types.len());
                    assert_eq!(&assembly.types[*target].name, name);
                }
                (AssemblyTypeRef::Builtin(a), SchemeTypeRef::Builtin(b)) => assert_eq!(a, b),
                _ => panic!("a reference changed its kind"),
            }
        }
    }
}

#[test]
fn an_empty_module_has_an_empty_assembly() {
    assert_eq!(generate(&SchemeModule { types: vec![] }), Ok(Assembly { types: vec![] }));
    assert_eq!(parse(""), Ok(Assembly { types: vec![] }));
}

#[test]
fn a_module_built_by_hand_resolves() {
    let module = SchemeModule {
        types: vec![SchemeType {
            name: "integer".to_string(),
            fields: vec![
                SchemeField {
                    name: "a".to_string(),
                    ty: SchemeFieldType {
                        kind: SchemeFieldTypeKind::Streaming,
                        ty_ref: SchemeTypeRef::Custom("integer".to_string()),
                    },
                },
                SchemeField {
                    name: "b".to_string(),
                    ty: SchemeFieldType {
                        kind: SchemeFieldTypeKind::Normal,
                        ty_ref: SchemeTypeRef::Builtin(BuiltinType::Integer),
                    },
                },
            ],
        }],
    };
    assert_eq!(
        generate(&module),
        Ok(Assembly {
            types: vec![AssemblyType {
                name: "integer".to_string(),
                fields: vec![
                    field("a", AssemblyFieldTypeKind::Streaming, AssemblyTypeRef::Custom(0)),
                    normal("b", AssemblyTypeRef::Builtin(BuiltinType::Integer)),
                ],
            }],
        })
    );
}

#[test]
fn a_text_that_breaks_the_grammar_fails_to_parse() {
    assert_eq!(
        parse("type Post {"),
        Err(SchemaError::Parse(ParseError::UnexpectedEndOfInput(ParserState::InBlock)))
    );
    assert_eq!(
        parse("type Post { posts: Array<Post> ; }"),
        Err(SchemaError::Parse(ParseError::UnexpectedToken(
            Token { ty: TokenType::Punctuation, value: ";".to_string() },
            ParserState::ExpectFieldComma
        )))
    );
}

#[test]
fn a_parse_error_comes_before_a_resolve_error() {
    assert_eq!(
        parse("type A { x: Missing } type"),
        Err(SchemaError::Parse(ParseError::UnexpectedEndOfInput(ParserState::ExpectTypeName)))
    );
}

#[test]
fn the_pipeline_is_the_four_stages_in_turn() {
    for text in ["type Post { id: integer, title: string }", MULTIPLE_TYPES_SCHEMA, "type A { next: A }", ""] {
        assert_eq!(parse(text), Ok(generate(&module_of(text)).unwrap()));
    }
}
