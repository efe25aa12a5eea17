use graal_bindgen::lexer::tokenize;
use graal_bindgen::parser::{
    parse_arguments, parse_class_stubs, parse_constructor_stubs, parse_method_stubs, word,
    Unexpected,
};
use graal_bindgen::stub::{
    AngleBracketGenerics, Class, GenericParameters, JavaConstructorStub, JavaFunctionStub,
    JavaQualifiedConstructorStub, JavaStub, JavaType, JavaTypedDeclaration, QualifiedName,
};
use graal_bindgen::token::{is_punct, Punct, Token};

fn tokens(text: &str) -> Vec<Token> {
    tokenize(text).unwrap().tokens
}

fn name(segments: &[&str]) -> QualifiedName {
    QualifiedName { segments: segments.iter().map(|s| s.to_string()).collect() }
}

fn plain(text: &str) -> JavaType {
    JavaType { name: name(&[text]), array: false }
}

fn array(text: &str) -> JavaType {
    JavaType { name: name(&[text]), array: true }
}

fn declaration(ty: JavaType, text: &str) -> JavaTypedDeclaration {
    JavaTypedDeclaration { ty, name: text.to_string() }
}

#[test]
fn token_tests_look_at_one_position() {
    let ts = tokens("a . b");
    assert!(is_punct(&ts, 1, Punct::Dot));
    assert!(!is_punct(&ts, 1, Punct::Comma));
    assert!(!is_punct(&ts, 0, Punct::Dot));
    assert!(!is_punct(&ts, 3, Punct::Dot));
    assert_eq!(word(&ts, 2), Some("b".to_string()));
    assert_eq!(word(&ts, 1), None);
    assert_eq!(word(&ts, 7), None);
}

#[test]
fn qualified_name_reads_all_segments() {
    let ts = tokens("java.util.ArrayList<E>");
    assert_eq!(QualifiedName::parse(&ts, 0), Ok((name(&["java", "util", "ArrayList"]), 5)));
    assert_eq!(QualifiedName::parse(&ts, 2), Ok((name(&["util", "ArrayList"]), 5)));
    assert_eq!(QualifiedName::parse(&ts, 4), Ok((name(&["ArrayList"]), 5)));
}

#[test]
fn qualified_name_wants_a_word_behind_each_dot() {
    assert_eq!(QualifiedName::parse(&tokens("java..util"), 0), Err(Unexpected { index: 2 }));
    assert_eq!(QualifiedName::parse(&tokens("java."), 0), Err(Unexpected { index: 2 }));
    assert_eq!(QualifiedName::parse(&tokens(".java"), 0), Err(Unexpected { index: 0 }));
    assert_eq!(QualifiedName::parse(&tokens(""), 0), Err(Unexpected { index: 0 }));
    assert_eq!(QualifiedName::parse(&tokens("a"), 5), Err(Unexpected { index: 5 }));
}

#[test]
fn type_may_be_an_array() {
    assert_eq!(JavaType::parse(&tokens("E[] x"), 0), Ok((array("E"), 3)));
    assert_eq!(JavaType::parse(&tokens("E x"), 0), Ok((plain("E"), 1)));
    assert_eq!(
        JavaType::parse(&tokens("java.lang.Object[]"), 0),
        Ok((JavaType { name: name(&["java", "lang", "Object"]), array: true }, 7))
    );
}

#[test]
fn array_brackets_must_be_empty_and_closed() {
    assert_eq!(JavaType::parse(&tokens("E[x]"), 0), Err(Unexpected { index: 2 }));
    assert_eq!(JavaType::parse(&tokens("E["), 0), Err(Unexpected { index: 2 }));
    assert_eq!(JavaType::parse(&tokens("[]"), 0), Err(Unexpected { index: 0 }));
}

#[test]
fn typed_declaration_is_type_then_name() {
    assert_eq!(
        JavaTypedDeclaration::parse(&tokens("int index"), 0),
        Ok((declaration(plain("int"), "index"), 2))
    );
    assert_eq!(
        JavaTypedDeclaration::parse(&tokens("E[] items,"), 0),
        Ok((declaration(array("E"), "items"), 4))
    );
    assert_eq!(JavaTypedDeclaration::parse(&tokens("int ,"), 0), Err(Unexpected { index: 1 }));
    assert_eq!(JavaTypedDeclaration::parse(&tokens("int"), 0), Err(Unexpected { index: 1 }));
}

#[test]
fn arguments_may_be_none() {
    assert_eq!(parse_arguments(&tokens("()"), 0), Ok((vec![], 2)));
}

#[test]
fn arguments_keep_their_order() {
    assert_eq!(
        parse_arguments(&tokens("(int fromIndex, int toIndex, E[] rest)"), 0),
        Ok((
            vec![
                declaration(plain("int"), "fromIndex"),
                declaration(plain("int"), "toIndex"),
                declaration(array("E"), "rest"),
            ],
            12
        ))
    );
}

#[test]
fn arguments_take_no_comma_at_the_end() {
    assert_eq!(parse_arguments(&tokens("(int a,)"), 0), Err(Unexpected { index: 4 }));
    assert_eq!(parse_arguments(&tokens("(,)"), 0), Err(Unexpected { index: 1 }));
}

#[test]
fn arguments_must_be_closed() {
    assert_eq!(parse_arguments(&tokens("(int a"), 0), Err(Unexpected { index: 3 }));
    assert_eq!(parse_arguments(&tokens("(int a int b)"), 0), Err(Unexpected { index: 3 }));
    assert_eq!(parse_arguments(&tokens("int a)"), 0), Err(Unexpected { index: 0 }));
    assert_eq!(parse_arguments(&tokens("("), 0), Err(Unexpected { index: 1 }));
}

#[test]
fn constructor_stub_is_name_and_arguments() {
    assert_eq!(
        JavaConstructorStub::parse(&tokens("new_with_length(int initialCapacity)"), 0),
        Ok((
            JavaConstructorStub {
                rust_constructor_name: "new_with_length".to_string(),
                args: vec![declaration(plain("int"), "initialCapacity")],
            },
            5
        ))
    );
    assert_eq!(JavaConstructorStub::parse(&tokens("new"), 0), Err(Unexpected { index: 1 }));
    assert_eq!(JavaConstructorStub::parse(&tokens("()"), 0), Err(Unexpected { index: 0 }));
}

#[test]
fn function_stub_may_rename() {
    assert_eq!(
        JavaFunctionStub::parse(&tokens("int remove_at remove(int index)"), 0),
        Ok((
            JavaFunctionStub {
                return_type: plain("int"),
                rust_name: "remove_at".to_string(),
                java_name: Some("remove".to_string()),
                args: vec![declaration(plain("int"), "index")],
            },
            7
        ))
    );
    assert_eq!(
        JavaFunctionStub::parse(&tokens("int size()"), 0),
        Ok((
            JavaFunctionStub {
                return_type: plain("int"),
                rust_name: "size".to_string(),
                java_name: None,
                args: vec![],
            },
            4
        ))
    );
}

#[test]
fn function_stub_wants_type_and_name() {
    assert_eq!(JavaFunctionStub::parse(&tokens("size()"), 0), Err(Unexpected { index: 1 }));
    assert_eq!(JavaFunctionStub::parse(&tokens("int a b c()"), 0), Err(Unexpected { index: 3 }));
    assert_eq!(JavaFunctionStub::parse(&tokens("int size"), 0), Err(Unexpected { index: 2 }));
    assert_eq!(JavaFunctionStub::parse(&tokens("E[] toArray;"), 0), Err(Unexpected { index: 4 }));
}

#[test]
fn stub_is_told_apart_by_the_second_token() {
    let constructor = JavaStub::parse(&tokens("new()"), 0);
    assert_eq!(
        constructor,
        Ok((
            JavaStub::JavaConstructorStub(JavaConstructorStub {
                rust_constructor_name: "new".to_string(),
                args: vec![],
            }),
            3
        ))
    );
    let method = JavaStub::parse(&tokens("void clear()"), 0);
    assert_eq!(
        method,
        Ok((
            JavaStub::JavaFunctionStub(JavaFunctionStub {
                return_type: plain("void"),
                rust_name: "clear".to_string(),
                java_name: None,
                args: vec![],
            }),
            4
        ))
    );
    assert_eq!(JavaStub::parse(&tokens(";"), 0), Err(Unexpected { index: 0 }));
    assert_eq!(JavaStub::parse(&tokens(""), 0), Err(Unexpected { index: 0 }));
}

#[test]
fn generics_of_a_constructor_are_types() {
    assert_eq!(
        AngleBracketGenerics::parse(&tokens("<K, V[]>"), 0),
        Ok((AngleBracketGenerics { args: vec![plain("K"), array("V")] }, 7))
    );
    assert_eq!(AngleBracketGenerics::parse(&tokens("<>"), 0), Err(Unexpected { index: 1 }));
    assert_eq!(AngleBracketGenerics::parse(&tokens("<K,>"), 0), Err(Unexpected { index: 3 }));
    assert_eq!(AngleBracketGenerics::parse(&tokens("<K"), 0), Err(Unexpected { index: 2 }));
    assert_eq!(AngleBracketGenerics::parse(&tokens("K>"), 0), Err(Unexpected { index: 0 }));
}

#[test]
fn generics_of_a_class_are_identifiers() {
    assert_eq!(
        GenericParameters::parse(&tokens("<K, V>"), 0),
        Ok((GenericParameters { names: vec!["K".to_string(), "V".to_string()] }, 5))
    );
    assert_eq!(GenericParameters::parse(&tokens("<K[]>"), 0), Err(Unexpected { index: 2 }));
    assert_eq!(GenericParameters::parse(&tokens("<a.b>"), 0), Err(Unexpected { index: 2 }));
    assert_eq!(GenericParameters::parse(&tokens("<>"), 0), Err(Unexpected { index: 1 }));
    assert_eq!(GenericParameters::parse(&tokens("<K"), 0), Err(Unexpected { index: 2 }));
}

#[test]
fn qualified_constructor_names_its_type() {
    assert_eq!(
        JavaQualifiedConstructorStub::parse(&tokens("java.lang.String new()"), 0),
        Ok((
            JavaQualifiedConstructorStub {
                fully_qualified_type_name: name(&["java", "lang", "String"]),
                rust_constructor_name: "new".to_string(),
                generics: None,
                args: vec![],
            },
            8
        ))
    );
    assert_eq!(
        JavaQualifiedConstructorStub::parse(&tokens("java.util.ArrayList<E> with(int n)"), 0),
        Ok((
            JavaQualifiedConstructorStub {
                fully_qualified_type_name: name(&["java", "util", "ArrayList"]),
                rust_constructor_name: "with".to_string(),
                generics: Some(AngleBracketGenerics { args: vec![plain("E")] }),
                args: vec![declaration(plain("int"), "n")],
            },
            13
        ))
    );
    assert_eq!(
        JavaQualifiedConstructorStub::parse(&tokens("java.lang.String()"), 0),
        Err(Unexpected { index: 5 })
    );
    assert_eq!(
        JavaQualifiedConstructorStub::parse(&tokens("a.B<> new()"), 0),
        Err(Unexpected { index: 4 })
    );
}

#[test]
fn class_body_needs_a_stub() {
    assert_eq!(Class::parse(&tokens("a.B { }")), Err(Unexpected { index: 4 }));
    assert_eq!(Class::parse(&tokens("a.B { ; }")), Err(Unexpected { index: 4 }));
}

#[test]
fn class_body_may_end_with_a_semicolon() {
    let with = Class::parse(&tokens("a.B { new(); int size(); }")).unwrap();
    let without = Class::parse(&tokens("a.B { new(); int size() }")).unwrap();
    assert_eq!(with, without);
    assert_eq!(with.stubs.len(), 2);
    assert_eq!(Class::parse(&tokens("a.B { new();; }")), Err(Unexpected { index: 8 }));
}

#[test]
fn class_is_name_generics_and_stubs() {
    let class = Class::parse(&tokens("java.util.ArrayList<E> { new(); E get(int index); }"));
    assert_eq!(
        class,
        Ok(Class {
            qualified_name: name(&["java", "util", "ArrayList"]),
            generics: Some(GenericParameters { names: vec!["E".to_string()] }),
            stubs: vec![
                JavaStub::JavaConstructorStub(JavaConstructorStub {
                    rust_constructor_name: "new".to_string(),
                    args: vec![],
                }),
                JavaStub::JavaFunctionStub(JavaFunctionStub {
                    return_type: plain("E"),
                    rust_name: "get".to_string(),
                    java_name: None,
                    args: vec![declaration(plain("int"), "index")],
                }),
            ],
        })
    );
}

#[test]
fn class_must_be_the_whole_input() {
    assert_eq!(Class::parse(&tokens("a.B { new() } x")), Err(Unexpected { index: 8 }));
    assert_eq!(Class::parse(&tokens("a.B { new() ")), Err(Unexpected { index: 7 }));
    assert_eq!(Class::parse(&tokens("a.B new()")), Err(Unexpected { index: 3 }));
    assert_eq!(Class::parse(&tokens("")), Err(Unexpected { index: 0 }));
    assert_eq!(Class::parse(&tokens("a.B<E { new() }")), Err(Unexpected { index: 5 }));
    assert_eq!(Class::parse(&tokens("a.B { new() int size() }")), Err(Unexpected { index: 7 }));
}

#[test]
fn class_stubs_end_at_the_brace() {
    let read = parse_class_stubs(&tokens("new(); int size() } rest"), 0).unwrap();
    assert_eq!(read.0.len(), 2);
    assert_eq!(read.1, 9);
    assert_eq!(parse_class_stubs(&tokens("new()"), 9), Err(Unexpected { index: 9 }));
}

#[test]
fn method_stubs_may_be_none_or_many() {
    assert_eq!(parse_method_stubs(&tokens("")), Ok(vec![]));
    assert_eq!(parse_method_stubs(&tokens("int size()")).unwrap().len(), 1);
    assert_eq!(parse_method_stubs(&tokens("int size();")).unwrap().len(), 1);
    assert_eq!(parse_method_stubs(&tokens("int size(); void clear()")).unwrap().len(), 2);
    assert_eq!(parse_method_stubs(&tokens("int size(); void clear();")).unwrap().len(), 2);
    assert_eq!(parse_method_stubs(&tokens("int size() void clear()")), Err(Unexpected { index: 4 }));
    assert_eq!(parse_method_stubs(&tokens(";")), Err(Unexpected { index: 0 }));
    assert_eq!(parse_method_stubs(&tokens("int size();;")), Err(Unexpected { index: 5 }));
    assert_eq!(parse_method_stubs(&tokens("new()")), Err(Unexpected { index: 1 }));
}

#[test]
fn constructor_stubs_may_be_none_or_many() {
    assert_eq!(parse_constructor_stubs(&tokens("")), Ok(vec![]));
    assert_eq!(parse_constructor_stubs(&tokens("a.B new(); a.C<E> new()")).unwrap().len(), 2);
    assert_eq!(parse_constructor_stubs(&tokens("a.B new();")).unwrap().len(), 1);
    assert_eq!(parse_constructor_stubs(&tokens("a.B new() a.C new()")), Err(Unexpected { index: 6 }));
    assert_eq!(parse_constructor_stubs(&tokens("new()")), Err(Unexpected { index: 1 }));
}
