//! Generator tests: schema analysis and the emitted artifacts, compared
//! token-for-token after lexing both sides.

use std::str::FromStr;

use valibuk::{
    valibuk_core, GenericParam, InputAttr, InputData, InputField, InputFields, SchemaError,
    SchemaInput, ValidatedFieldDeriv,
};

fn tokens(s: &str) -> String {
    proc_macro2::TokenStream::from_str(s)
        .expect("the text must lex as tokens")
        .to_string()
}

fn attr(path: &str, payload: &str) -> InputAttr {
    InputAttr {
        path: path.to_string(),
        payload: payload.to_string(),
    }
}

fn named_field(name: &str, ty: &str, attrs: Vec<InputAttr>) -> InputField {
    InputField {
        name: Some(name.to_string()),
        ty: ty.to_string(),
        attrs,
    }
}

fn plain_schema(ident: &str, fields: Vec<InputField>) -> SchemaInput {
    SchemaInput {
        vis: String::new(),
        ident: ident.to_string(),
        generics: Vec::new(),
        attrs: Vec::new(),
        data: InputData::Struct(InputFields::Named(fields)),
    }
}

fn string_error() -> String {
    "String".to_string()
}

fn first_field_deriv(field: InputField) -> ValidatedFieldDeriv {
    ValidatedFieldDeriv::new(&field, &string_error()).expect("field analysis")
}

#[test]
fn lib_test_minimal_no_validated_fields() {
    let schema = plain_schema("A", vec![named_field("a", "i32", vec![])]);
    let after = valibuk_core(&schema);
    let expected = r#"
        #[automatically_derived]
        struct UnvalidatedA {
            pub a: i32,
        }
        #[automatically_derived]
        impl ::std::convert::TryFrom<UnvalidatedA> for A {
            type Error = ::std::vec::Vec<::std::string::String>;
            fn try_from(unvalidated: UnvalidatedA) -> ::core::result::Result<Self, Self::Error> {
                Ok(A { a: unvalidated.a, })
            }
        }
    "#;
    assert_eq!(tokens(&after), tokens(expected));
}

#[test]
fn lib_test_minimal_no_validated_fields_custom_error() {
    let mut schema = plain_schema("A", vec![named_field("a", "i32", vec![])]);
    schema.attrs = vec![attr("validation_error", "E")];
    let after = valibuk_core(&schema);
    let expected = r#"
        #[automatically_derived]
        struct UnvalidatedA {
            pub a: i32,
        }
        #[automatically_derived]
        impl ::std::convert::TryFrom<UnvalidatedA> for A {
            type Error = ::std::vec::Vec<E>;
            fn try_from(unvalidated: UnvalidatedA) -> ::core::result::Result<Self, Self::Error> {
                Ok(A { a: unvalidated.a, })
            }
        }
    "#;
    assert_eq!(tokens(&after), tokens(expected));
}

#[test]
fn lib_test_lifetime() {
    let mut schema = plain_schema("A", vec![named_field("a", "&'a str", vec![])]);
    schema.generics = vec![GenericParam {
        name: "'a".to_string(),
        bounds: String::new(),
    }];
    let after = valibuk_core(&schema);
    let expected = r#"
        #[automatically_derived]
        struct UnvalidatedA<'a> {
            pub a: &'a str,
        }
        #[automatically_derived]
        impl<'a> ::std::convert::TryFrom<UnvalidatedA<'a>> for A<'a> {
            type Error = ::std::vec::Vec<::std::string::String>;
            fn try_from(unvalidated: UnvalidatedA<'a>) -> ::core::result::Result<Self, Self::Error> {
                Ok(A { a: unvalidated.a, })
            }
        }
    "#;
    assert_eq!(tokens(&after), tokens(expected));
}

#[test]
fn test_name() {
    let f = first_field_deriv(named_field("a", "i32", vec![]));
    assert_eq!(tokens(&f.get_name()), tokens("a"));
}

#[test]
fn test_unvalidated_constructor() {
    let f = first_field_deriv(named_field("a", "i32", vec![]));
    assert_eq!(
        tokens(&f.build_unvalidated_constructor()),
        tokens("a: unvalidated.a")
    );
}

#[test]
fn test_is_validated() {
    let f = first_field_deriv(named_field("a", "i32", vec![]));
    assert_eq!(f.is_validated(), false, "field a is not validated");
    let f = first_field_deriv(named_field("a", "i32", vec![attr("validator", "abc")]));
    assert_eq!(f.is_validated(), true, "field a is validated");
}

#[test]
fn test_build_match_validator_call() {
    {
        // fn validator case
        let f = first_field_deriv(named_field("a", "i32", vec![attr("validator", "abc")]));
        assert_eq!(
            tokens(&f.build_match_validator_call()),
            tokens("(abc)(unvalidated.a)")
        );
    }
    {
        // inline fn validator case
        let f = first_field_deriv(named_field(
            "a",
            "i32",
            vec![attr("validator", r#"|a| if a > 0 { Ok(a) } else { Err("err") }"#)],
        ));
        assert_eq!(
            tokens(&f.build_match_validator_call()),
            tokens(r#"(|a| if a > 0 { Ok(a) } else { Err("err") })(unvalidated.a)"#)
        );
    }
    {
        // unvalidated case
        let f = first_field_deriv(named_field("a", "i32", vec![]));
        assert_eq!(tokens(&f.build_match_validator_call()), tokens("unvalidated.a"));
    }
}

#[test]
fn test_build_match_validator_ok() {
    let f = first_field_deriv(named_field("a", "i32", vec![]));
    assert_eq!(tokens(&f.build_match_validator_ok()), tokens("a"));
    let f = first_field_deriv(named_field("a", "i32", vec![attr("validator", "abc")]));
    assert_eq!(
        tokens(&f.build_match_validator_ok()),
        tokens("::std::result::Result::Ok(a)")
    );
}

#[test]
fn test_build_validator_error_push() {
    let f = first_field_deriv(named_field("a", "i32", vec![]));
    assert_eq!(tokens(&f.build_validator_error_push()), tokens(""));
    let f = first_field_deriv(named_field("a", "i32", vec![attr("validator", "abc")]));
    assert_eq!(
        tokens(&f.build_validator_error_push()),
        tokens("if let ::std::result::Result::Err(e) = a { errors.push(e); }")
    );
}

#[test]
fn test_build_unvalidated_struct_repr() {
    let f = first_field_deriv(named_field("a", "i32", vec![]));
    assert_eq!(tokens(&f.build_unvalidated_struct_repr()), tokens("pub a: i32"));
}

#[test]
fn test_field_assertion_statement() {
    let f = first_field_deriv(named_field("a", "i32", vec![attr("validator", "is_positive")]));
    assert_eq!(
        tokens(&f.build_field_assertions()),
        tokens("let _: fn(i32) -> ::std::result::Result<i32, String> = is_positive;")
    );
    let f = first_field_deriv(named_field("a", "i32", vec![]));
    assert_eq!(tokens(&f.build_field_assertions()), tokens(""));
}

#[test]
fn test_validated_field_emission() {
    let schema = plain_schema(
        "A",
        vec![named_field("a", "i32", vec![attr("validator", "is_positive")])],
    );
    let after = valibuk_core(&schema);
    let expected = r#"
        #[automatically_derived]
        struct UnvalidatedA {
            pub a: i32,
        }
        #[automatically_derived]
        impl ::std::convert::TryFrom<UnvalidatedA> for A {
            type Error = ::std::vec::Vec<::std::string::String>;
            fn try_from(unvalidated: UnvalidatedA) -> ::core::result::Result<Self, Self::Error> {
                let _: fn(i32) -> ::std::result::Result<i32, ::std::string::String> = is_positive;
                match ((is_positive)(unvalidated.a),) {
                    (::std::result::Result::Ok(a),) => ::std::result::Result::Ok(A { a, }),
                    (a,) => {
                        let mut errors: ::std::vec::Vec<::std::string::String> =
                            ::std::vec::Vec::new();
                        if let ::std::result::Result::Err(e) = a { errors.push(e); }
                        ::std::result::Result::Err(errors)
                    }
                }
            }
        }
    "#;
    assert_eq!(tokens(&after), tokens(expected));
}

#[test]
fn test_mixed_fields_emission() {
    let schema = plain_schema(
        "A",
        vec![
            named_field("a", "i32", vec![attr("validator", "is_positive")]),
            named_field("b", "u8", vec![]),
        ],
    );
    let after = valibuk_core(&schema);
    let expected = r#"
        #[automatically_derived]
        struct UnvalidatedA {
            pub a: i32,
            pub b: u8,
        }
        #[automatically_derived]
        impl ::std::convert::TryFrom<UnvalidatedA> for A {
            type Error = ::std::vec::Vec<::std::string::String>;
            fn try_from(unvalidated: UnvalidatedA) -> ::core::result::Result<Self, Self::Error> {
                let _: fn(i32) -> ::std::result::Result<i32, ::std::string::String> = is_positive;
                match ((is_positive)(unvalidated.a), unvalidated.b,) {
                    (::std::result::Result::Ok(a), b,) => ::std::result::Result::Ok(A { a, b, }),
                    (a, b,) => {
                        let mut errors: ::std::vec::Vec<::std::string::String> =
                            ::std::vec::Vec::new();
                        if let ::std::result::Result::Err(e) = a { errors.push(e); }
                        ::std::result::Result::Err(errors)
                    }
                }
            }
        }
    "#;
    assert_eq!(tokens(&after), tokens(expected));
}

#[test]
fn test_generic_bounds_emission() {
    let mut schema = plain_schema(
        "A",
        vec![
            named_field("a", "i32", vec![]),
            named_field("b", "T", vec![]),
        ],
    );
    schema.generics = vec![GenericParam {
        name: "T".to_string(),
        bounds: "Clone".to_string(),
    }];
    let after = valibuk_core(&schema);
    let expected = r#"
        #[automatically_derived]
        struct UnvalidatedA<T> {
            pub a: i32,
            pub b: T,
        }
        #[automatically_derived]
        impl<T: Clone> ::std::convert::TryFrom<UnvalidatedA<T>> for A<T> {
            type Error = ::std::vec::Vec<::std::string::String>;
            fn try_from(unvalidated: UnvalidatedA<T>) -> ::core::result::Result<Self, Self::Error> {
                Ok(A { a: unvalidated.a, b: unvalidated.b, })
            }
        }
    "#;
    assert_eq!(tokens(&after), tokens(expected));
}

#[test]
fn test_last_validator_wins() {
    // Two validator annotations on the same field: only the last is honored.
    let f = first_field_deriv(named_field(
        "a",
        "i32",
        vec![attr("validator", "first_one"), attr("validator", "second_one")],
    ));
    assert_eq!(
        tokens(&f.build_match_validator_call()),
        tokens("(second_one)(unvalidated.a)")
    );
}

#[test]
fn test_last_error_override_wins() {
    // Two error-type overrides on the schema: only the last is honored.
    let mut schema = plain_schema("A", vec![named_field("a", "i32", vec![])]);
    schema.attrs = vec![attr("validation_error", "E1"), attr("validation_error", "E2")];
    let after = valibuk_core(&schema);
    assert!(tokens(&after).contains("Vec < E2 >"));
    assert!(!tokens(&after).contains("E1"));
}

#[test]
fn test_malformed_validator_degrades_to_unvalidated() {
    // A payload that is neither an identifier nor a closure literal is
    // silently treated as "no validator".
    let f = first_field_deriv(named_field("a", "i32", vec![attr("validator", "1 + 1")]));
    assert_eq!(f.is_validated(), false);
}

#[test]
fn test_boolean_style_payload_degrades_to_unvalidated() {
    // A closure followed by an error expression is not a single closure
    // literal, so the whole payload falls back to "no validator".
    let f = first_field_deriv(named_field(
        "a",
        "i32",
        vec![attr("validator", r#"|a| a > 0, "wrong".to_string()"#)],
    ));
    assert_eq!(f.is_validated(), false);
}

#[test]
fn test_enum_is_rejected() {
    let schema = SchemaInput {
        vis: String::new(),
        ident: "A".to_string(),
        generics: Vec::new(),
        attrs: Vec::new(),
        data: InputData::Enum,
    };
    let after = valibuk_core(&schema);
    let expected = r#"
        ::core::compile_error! { "Correct-by-construction Validator is not supported on Enums" }
    "#;
    assert_eq!(tokens(&after), tokens(expected));
}

#[test]
fn test_union_is_rejected() {
    let schema = SchemaInput {
        vis: String::new(),
        ident: "A".to_string(),
        generics: Vec::new(),
        attrs: Vec::new(),
        data: InputData::Union,
    };
    let after = valibuk_core(&schema);
    let expected = r#"
        ::core::compile_error! { "Correct-by-construction Validator is not supported on Unions" }
    "#;
    assert_eq!(tokens(&after), tokens(expected));
}

#[test]
fn test_tuple_struct_is_rejected() {
    let schema = SchemaInput {
        vis: String::new(),
        ident: "A".to_string(),
        generics: Vec::new(),
        attrs: Vec::new(),
        data: InputData::Struct(InputFields::Unnamed),
    };
    let after = valibuk_core(&schema);
    let expected = r#"
        ::core::compile_error! { "Correct-by-construction Validator is not supported on tuple Structs" }
    "#;
    assert_eq!(tokens(&after), tokens(expected));
}

#[test]
fn test_unit_struct_is_rejected() {
    let schema = SchemaInput {
        vis: String::new(),
        ident: "A".to_string(),
        generics: Vec::new(),
        attrs: Vec::new(),
        data: InputData::Struct(InputFields::Unit),
    };
    let after = valibuk_core(&schema);
    let expected = r#"
        ::core::compile_error! { "Correct-by-construction Validator is not supported on unit Structs" }
    "#;
    assert_eq!(tokens(&after), tokens(expected));
}

#[test]
fn test_empty_struct_is_rejected() {
    let schema = plain_schema("A", vec![]);
    let after = valibuk_core(&schema);
    let expected = r#"
        ::core::compile_error! { "Correct-by-construction Validator is not supported on unit Structs" }
    "#;
    assert_eq!(tokens(&after), tokens(expected));
}

#[test]
fn test_nameless_field_is_rejected() {
    let schema = plain_schema(
        "A",
        vec![
            named_field("a", "i32", vec![]),
            InputField {
                name: None,
                ty: "u8".to_string(),
                attrs: vec![],
            },
        ],
    );
    let after = valibuk_core(&schema);
    let expected = r#"
        ::core::compile_error! { "Nameless field in struct" }
    "#;
    assert_eq!(tokens(&after), tokens(expected));
}

#[test]
fn test_nameless_field_error_value() {
    let field = InputField {
        name: None,
        ty: "u8".to_string(),
        attrs: vec![],
    };
    let r = ValidatedFieldDeriv::new(&field, &string_error());
    assert_eq!(r.unwrap_err(), SchemaError::AnonymousField);
}

#[test]
fn test_error_messages() {
    assert_eq!(
        SchemaError::AnonymousField.message(),
        "Nameless field in struct"
    );
    assert_eq!(
        SchemaError::UnsupportedEnum.message(),
        "Correct-by-construction Validator is not supported on Enums"
    );
    assert_eq!(
        SchemaError::UnsupportedUnion.message(),
        "Correct-by-construction Validator is not supported on Unions"
    );
    assert_eq!(
        SchemaError::UnsupportedTupleStruct.message(),
        "Correct-by-construction Validator is not supported on tuple Structs"
    );
    assert_eq!(
        SchemaError::UnsupportedUnitStruct.message(),
        "Correct-by-construction Validator is not supported on unit Structs"
    );
}

#[test]
fn test_pub_visibility_is_kept() {
    let mut schema = plain_schema("A", vec![named_field("a", "i32", vec![])]);
    schema.vis = "pub".to_string();
    let after = valibuk_core(&schema);
    assert!(tokens(&after).contains("pub struct UnvalidatedA"));
}
