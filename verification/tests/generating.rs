use graal_bindgen::aggregate::{quote_class, Aggregate, Bound};
use graal_bindgen::binding::{Binding, NativeCall};
use graal_bindgen::expand::{
    class, class_from_tokens, java_constructor, java_constructor_from_tokens, java_method,
    java_method_from_tokens, locate,
};
use graal_bindgen::generator::{
    get_return_and_conversion_prefix, get_return_token,
    parse_java_args, quote_constructor_stub, quote_function_stub,
    quote_qualified_constructor_stub, same_text, type_is_primitive,
};
use graal_bindgen::lexer::{tokenize, SyntaxError};
use graal_bindgen::parser::{parse_method_stubs, Unexpected};
use graal_bindgen::stub::{
    AngleBracketGenerics, Class, JavaConstructorStub, JavaFunctionStub,
    JavaQualifiedConstructorStub, JavaType, JavaTypedDeclaration, QualifiedName,
};
use graal_bindgen::text::{append_spaced, join_texts, led_texts};

fn name(segments: &[&str]) -> QualifiedName {
    QualifiedName { segments: segments.iter().map(|s| s.to_string()).collect() }
}

fn plain(text: &str) -> JavaType {
    JavaType { name: name(&[text]), array: false }
}

fn array(text: &str) -> JavaType {
    JavaType { name: name(&[text]), array: true }
}

fn declaration(ty: JavaType, text: &str) -> JavaTypedDeclaration {
    JavaTypedDeclaration { ty, name: text.to_string() }
}

fn method(text: &str) -> JavaFunctionStub {
    let tokens = tokenize(text).unwrap().tokens;
    parse_method_stubs(&tokens).unwrap().remove(0)
}

fn strings(texts: &[&str]) -> Vec<String> {
    texts.iter().map(|s| s.to_string()).collect()
}

#[test]
fn texts_are_joined_and_led() {
    assert_eq!(join_texts(&strings(&[]), ", "), "");
    assert_eq!(join_texts(&strings(&["a"]), ", "), "a");
    assert_eq!(join_texts(&strings(&["a", "b", "c"]), ", "), "a, b, c");
    assert_eq!(led_texts(&strings(&[]), ", "), "");
    assert_eq!(led_texts(&strings(&["a", "b"]), ", "), ", a, b");
    let mut out = "x".to_string();
    append_spaced(&mut out, "");
    assert_eq!(out, "x");
    append_spaced(&mut out, "y");
    assert_eq!(out, "x y");
    assert!(same_text(&"void".to_string(), "void"));
    assert!(!same_text(&"void".to_string(), "voids"));
}

#[test]
fn host_name_is_the_last_segment() {
    assert_eq!(name(&["java", "util", "ArrayList"]).host_name(), "ArrayList");
    assert_eq!(name(&["E"]).host_name(), "E");
    assert_eq!(name(&[]).host_name(), "");
    assert_eq!(name(&["java", "util", "ArrayList"]).dotted(), "java.util.ArrayList");
    assert_eq!(name(&["E"]).dotted(), "E");
}

#[test]
fn array_lowers_to_the_wrapper_over_element_and_representation() {
    assert_eq!(array("E").to_tokens(), "JavaArray<E, EPassable>");
    assert_eq!(array("int").to_tokens(), "JavaArray<int, intPassable>");
    assert_eq!(plain("E").to_tokens(), "E");
    assert_eq!(array("E").turbofish(), "JavaArray::<E, EPassable>");
    assert_eq!(plain("E").turbofish(), "E");
    let qualified = JavaType { name: name(&["java", "lang", "Object"]), array: true };
    assert_eq!(qualified.to_tokens(), "JavaArray<Object, ObjectPassable>");
}

#[test]
fn array_parameter_and_return_both_lower() {
    let binding = quote_function_stub(&method("E[] swap(E[] other)"));
    assert_eq!(binding.parameters, strings(&["other: JavaArray<E, EPassable>"]));
    assert_eq!(binding.return_token, "-> JavaArray<E, EPassable>");
    assert_eq!(binding.conversion, "return JavaArray::<E, EPassable>::from_polyglot_value");
}

#[test]
fn void_is_only_the_plain_name() {
    assert!(plain("void").is_void());
    assert!(!array("void").is_void());
    assert!(!plain("Void").is_void());
    assert!(!plain("int").is_void());
    assert!(!JavaType { name: name(&["a", "void"]), array: false }.is_void());
    assert!(!JavaType { name: name(&[]), array: false }.is_void());
    let qualified = JavaType { name: name(&["a", "void"]), array: false };
    assert_eq!(get_return_token(&qualified), "-> void");
    assert_eq!(get_return_and_conversion_prefix(&qualified), "return void::from_polyglot_value");
}

#[test]
fn primitives_are_the_twelve_aliases() {
    for alias in [
        "byte", "i8", "short", "i16", "int", "i32", "long", "i64", "double", "f64", "boolean",
        "bool",
    ] {
        assert!(type_is_primitive(&plain(alias)));
        assert!(!type_is_primitive(&array(alias)));
    }
    assert!(!type_is_primitive(&plain("Object")));
    assert!(!type_is_primitive(&plain("float")));
    assert!(!type_is_primitive(&plain("void")));
    assert!(!type_is_primitive(&plain("Int")));
    assert!(!type_is_primitive(&JavaType { name: name(&["x", "int"]), array: false }));
    assert!(!type_is_primitive(&JavaType { name: name(&["int", "x"]), array: false }));
    assert!(!type_is_primitive(&JavaType { name: name(&["java", "lang", "boolean"]), array: false }));
    assert!(!type_is_primitive(&JavaType { name: name(&[]), array: false }));
}

#[test]
fn annotation_is_name_then_type() {
    assert_eq!(declaration(plain("int"), "index").to_rust_type_annotation(), "index: int");
    assert_eq!(
        declaration(array("E"), "items").to_rust_type_annotation(),
        "items: JavaArray<E, EPassable>"
    );
}

#[test]
fn arguments_keep_length_and_order() {
    let args = vec![
        declaration(plain("int"), "fromIndex"),
        declaration(plain("int"), "toIndex"),
        declaration(array("E"), "rest"),
    ];
    let (annotations, names) = parse_java_args(&args);
    assert_eq!(
        annotations,
        strings(&["fromIndex: int", "toIndex: int", "rest: JavaArray<E, EPassable>"])
    );
    assert_eq!(names, strings(&["fromIndex", "toIndex", "rest"]));
    assert_eq!(parse_java_args(&vec![]), (vec![], vec![]));
}

#[test]
fn return_token_and_conversion() {
    assert_eq!(get_return_token(&plain("int")), "-> int");
    assert_eq!(get_return_token(&plain("void")), "");
    assert_eq!(get_return_token(&array("E")), "-> JavaArray<E, EPassable>");
    assert_eq!(get_return_and_conversion_prefix(&plain("E")), "return E::from_polyglot_value");
    assert_eq!(get_return_and_conversion_prefix(&plain("void")), "");
    assert_eq!(
        get_return_and_conversion_prefix(&array("E")),
        "return JavaArray::<E, EPassable>::from_polyglot_value"
    );
}

#[test]
fn method_binding_has_the_parameters_of_the_stub() {
    let stub = method("void removeRange(int fromIndex, int toIndex)");
    let binding = quote_function_stub(&stub);
    assert_eq!(
        binding,
        Binding {
            name: "removeRange".to_string(),
            parameters: strings(&["fromIndex: int", "toIndex: int"]),
            arguments: strings(&["fromIndex", "toIndex"]),
            call: NativeCall::Invoke { method: "removeRange".to_string() },
            return_token: String::new(),
            conversion: String::new(),
        }
    );
    assert_eq!(
        binding.render(),
        "pub fn removeRange(&self, fromIndex: int, toIndex: int) { (crate::invoke_method!(self.ptr, \"removeRange\", fromIndex, toIndex)); }"
    );
}

#[test]
fn void_method_returns_nothing_and_rebuilds_nothing() {
    let text = java_method("void clear()").unwrap();
    assert_eq!(text, "pub fn clear(&self) { (crate::invoke_method!(self.ptr, \"clear\")); }");
    assert!(!text.contains("->"));
    assert!(!text.contains("from_polyglot_value"));
    assert!(!text.contains("return"));
}

#[test]
fn remapped_method_calls_the_foreign_name() {
    let stub = method("int remove_at remove(int index)");
    let binding = quote_function_stub(&stub);
    assert_eq!(binding.name, "remove_at");
    assert_eq!(binding.call, NativeCall::Invoke { method: "remove".to_string() });
    let text = java_method("int remove_at remove(int index)").unwrap();
    assert_eq!(
        text,
        "pub fn remove_at(&self, index: int) -> int { return int::from_polyglot_value(crate::invoke_method!(self.ptr, \"remove\", index)); }"
    );
    assert!(text.contains("pub fn remove_at("));
    assert!(text.contains("\"remove\""));
    assert!(!text.contains("\"remove_at\""));
}

#[test]
fn method_without_foreign_name_calls_its_own_name() {
    let binding = quote_function_stub(&method("int size()"));
    assert_eq!(binding.name, "size");
    assert_eq!(binding.call, NativeCall::Invoke { method: "size".to_string() });
    assert_eq!(
        binding.render(),
        "pub fn size(&self) -> int { return int::from_polyglot_value(crate::invoke_method!(self.ptr, \"size\")); }"
    );
}

#[test]
fn constructor_resolves_the_dotted_name() {
    let stub = JavaConstructorStub {
        rust_constructor_name: "new_with_length".to_string(),
        args: vec![declaration(plain("int"), "initialCapacity")],
    };
    let binding = quote_constructor_stub(
        &name(&["java", "util", "ArrayList"]),
        &Some(strings(&["E", "EPassable"])),
        &stub,
    );
    assert_eq!(
        binding,
        Binding {
            name: "new_with_length".to_string(),
            parameters: strings(&["initialCapacity: int"]),
            arguments: strings(&["initialCapacity"]),
            call: NativeCall::NewInstance { foreign_type: "java.util.ArrayList".to_string() },
            return_token: "-> ArrayList<E, EPassable>".to_string(),
            conversion: "ArrayList::<E, EPassable>::from_polyglot_value".to_string(),
        }
    );
    assert_eq!(
        binding.render(),
        "pub fn new_with_length(initialCapacity: int) -> ArrayList<E, EPassable> { let polyglot_type = crate::java_type(\"java.util.ArrayList\"); ArrayList::<E, EPassable>::from_polyglot_value(crate::new_instance!(polyglot_type, initialCapacity)) }"
    );
}

#[test]
fn constructor_without_generics() {
    let stub = JavaConstructorStub { rust_constructor_name: "new".to_string(), args: vec![] };
    let binding = quote_constructor_stub(&name(&["java", "lang", "Object"]), &None, &stub);
    assert_eq!(
        binding.render(),
        "pub fn new() -> Object { let polyglot_type = crate::java_type(\"java.lang.Object\"); Object::from_polyglot_value(crate::new_instance!(polyglot_type)) }"
    );
}

#[test]
fn constructor_passes_parameters_in_declared_order() {
    let stub = JavaConstructorStub {
        rust_constructor_name: "of".to_string(),
        args: vec![
            declaration(plain("int"), "c"),
            declaration(plain("long"), "a"),
            declaration(plain("Object"), "b"),
        ],
    };
    let binding = quote_constructor_stub(&name(&["x", "T"]), &None, &stub);
    assert_eq!(binding.arguments, strings(&["c", "a", "b"]));
    assert_eq!(binding.parameters, strings(&["c: int", "a: long", "b: Object"]));
    assert!(binding.render().contains("crate::new_instance!(polyglot_type, c, a, b)"));
    assert!(binding.render().contains("pub fn of(c: int, a: long, b: Object)"));
}

#[test]
fn qualified_constructor_lowers_its_generics() {
    let stub = JavaQualifiedConstructorStub {
        fully_qualified_type_name: name(&["java", "util", "HashMap"]),
        rust_constructor_name: "with".to_string(),
        generics: Some(AngleBracketGenerics { args: vec![plain("K"), array("V")] }),
        args: vec![declaration(plain("int"), "n")],
    };
    let binding = quote_qualified_constructor_stub(&stub);
    assert_eq!(binding.call, NativeCall::NewInstance { foreign_type: "java.util.HashMap".to_string() });
    assert_eq!(binding.return_token, "-> HashMap<K, JavaArray<V, VPassable>>");
    assert_eq!(binding.conversion, "HashMap::<K, JavaArray<V, VPassable>>::from_polyglot_value");
    assert_eq!(
        java_constructor("java.lang.String new();").unwrap(),
        "pub fn new() -> String { let polyglot_type = crate::java_type(\"java.lang.String\"); String::from_polyglot_value(crate::new_instance!(polyglot_type)) }"
    );
}

#[test]
fn class_pairs_every_generic_with_a_representation() {
    let tokens = tokenize("a.Map<K, V> { new(); V get(K key) }").unwrap().tokens;
    let aggregate = quote_class(&Class::parse(&tokens).unwrap());
    assert_eq!(aggregate.name, "Map");
    assert_eq!(
        aggregate.bounds,
        Some(vec![
            Bound { parameter: "K".to_string(), representation: "KPassable".to_string() },
            Bound { parameter: "V".to_string(), representation: "VPassable".to_string() },
        ])
    );
    assert_eq!(aggregate.type_parameters(), strings(&["K", "V", "KPassable", "VPassable"]));
    assert_eq!(aggregate.bindings.len(), 2);
    assert_eq!(aggregate.bindings[0].return_token, "-> Map<K, V, KPassable, VPassable>");
    assert_eq!(
        aggregate.bindings[0].conversion,
        "Map::<K, V, KPassable, VPassable>::from_polyglot_value"
    );
    assert_eq!(aggregate.bindings[1], quote_function_stub(&method("V get(K key)")));
}

#[test]
fn class_without_generics_has_no_bounds() {
    let text = class("java.lang.Object { new() }").unwrap();
    assert_eq!(
        text,
        "pub struct Object { ptr: *mut Value }\n\
         impl Object { pub fn new() -> Object { let polyglot_type = crate::java_type(\"java.lang.Object\"); Object::from_polyglot_value(crate::new_instance!(polyglot_type)) } }\n\
         unsafe impl Receive for Object { fn from_polyglot_value(value: *mut Value) -> Self { Self { ptr: value } } }\n\
         unsafe impl Pass<*mut Value> for Object { fn pass(&self) -> *mut Value { self.ptr } }\n"
    );
}

#[test]
fn class_text_is_struct_bindings_and_capabilities() {
    let text = class("java.util.ArrayList<E> { new(); int size(); }").unwrap();
    assert_eq!(
        text,
        "pub struct ArrayList<E, EPassable> where EPassable: Passable, E: Pass<EPassable> + Receive, { ptr: *mut Value, __phantom_E: PhantomData<E>, __phantom_EPassable: PhantomData<EPassable> }\n\
         impl<E, EPassable> ArrayList<E, EPassable> where EPassable: Passable, E: Pass<EPassable> + Receive, { pub fn new() -> ArrayList<E, EPassable> { let polyglot_type = crate::java_type(\"java.util.ArrayList\"); ArrayList::<E, EPassable>::from_polyglot_value(crate::new_instance!(polyglot_type)) } pub fn size(&self) -> int { return int::from_polyglot_value(crate::invoke_method!(self.ptr, \"size\")); } }\n\
         unsafe impl<E, EPassable> Receive for ArrayList<E, EPassable> where EPassable: Passable, E: Pass<EPassable> + Receive, { fn from_polyglot_value(value: *mut Value) -> Self { Self { ptr: value, __phantom_E: PhantomData, __phantom_EPassable: PhantomData } } }\n\
         unsafe impl<E, EPassable> Pass<*mut Value> for ArrayList<E, EPassable> where EPassable: Passable, E: Pass<EPassable> + Receive, { fn pass(&self) -> *mut Value { self.ptr } }\n"
    );
}

#[test]
fn aggregate_renders_what_it_holds() {
    let aggregate = Aggregate { name: "Empty".to_string(), bounds: Some(vec![]), bindings: vec![] };
    assert_eq!(
        aggregate.render(),
        "pub struct Empty<> where { ptr: *mut Value }\n\
         impl<> Empty<> where { }\n\
         unsafe impl<> Receive for Empty<> where { fn from_polyglot_value(value: *mut Value) -> Self { Self { ptr: value } } }\n\
         unsafe impl<> Pass<*mut Value> for Empty<> where { fn pass(&self) -> *mut Value { self.ptr } }\n"
    );
}

#[test]
fn generated_text_is_host_syntax() {
    let list = "java.util.ArrayList<E> {
        new_with_length(int initialCapacity);
        new();
        void trimToSize();
        void ensureCapacity(int minCapacity);
        int size();
        boolean isEmpty();
        boolean contains(Object o);
        int indexOf(Object o);
        int lastIndexOf(Object o);
        Object clone();
        E[] toArray();
        E get(int index);
        E set(int index, E element);
        boolean add(E e);
        void add_at add(int index, E element);
        E remove_at remove(int index);
        boolean remove_item remove(Object o);
        void clear();
       void removeRange(int fromIndex, int toIndex);
    }";
    let text = class(list).unwrap();
    let file = syn::parse_file(&text).unwrap();
    assert_eq!(file.items.len(), 4);
    match &file.items[1] {
        syn::Item::Impl(block) => assert_eq!(block.items.len(), 19),
        _ => panic!("the second item is the block of bindings"),
    }
    let methods = java_method("E[] toArray(); void clear(); int remove_at remove(int index)").unwrap();
    assert_eq!(methods.lines().count(), 3);
    for line in methods.lines() {
        assert!(syn::parse_str::<syn::ImplItemFn>(line).is_ok());
    }
    let constructors = java_constructor("java.lang.String new(); a.M<K, V[]> of(K[] keys)").unwrap();
    assert_eq!(constructors.lines().count(), 2);
    for line in constructors.lines() {
        assert!(syn::parse_str::<syn::ImplItemFn>(line).is_ok());
    }
}

#[test]
fn generating_twice_gives_the_same_text() {
    let source = "java.util.ArrayList<E> { new(); boolean add(E e); E remove_at remove(int index) }";
    assert_eq!(class(source), class(source));
    assert_eq!(class("a.B {"), class("a.B {"));
    assert_eq!(java_method("int a(); int b()"), java_method("int a(); int b()"));
    assert_eq!(java_constructor("a.B new()"), java_constructor("a.B new()"));
    let tokens = tokenize(source).unwrap().tokens;
    assert_eq!(class_from_tokens(&tokens), class_from_tokens(&tokens));
    assert_eq!(class_from_tokens(&tokens), Ok(class(source).unwrap()));
}

#[test]
fn empty_expansions() {
    assert_eq!(java_method(""), Ok(String::new()));
    assert_eq!(java_constructor("  "), Ok(String::new()));
    assert_eq!(class(""), Err(SyntaxError::UnexpectedEnd));
}

#[test]
fn syntax_errors_point_at_the_offending_token() {
    assert_eq!(class("a.B { }"), Err(SyntaxError::UnexpectedToken { offset: 6 }));
    assert_eq!(class("a.B { new() "), Err(SyntaxError::UnexpectedEnd));
    assert_eq!(class("a.B { new() } extra"), Err(SyntaxError::UnexpectedToken { offset: 14 }));
    assert_eq!(class("a.B { int fn() }"), Err(SyntaxError::NotAnIdentifier { offset: 10 }));
    assert_eq!(class("a.B { int f(); # }"), Err(SyntaxError::UnexpectedCharacter { offset: 15 }));
    assert_eq!(java_method("int size() int"), Err(SyntaxError::UnexpectedToken { offset: 11 }));
    assert_eq!(java_method("int size("), Err(SyntaxError::UnexpectedEnd));
    assert_eq!(java_method("int (int a)"), Err(SyntaxError::UnexpectedToken { offset: 4 }));
    assert_eq!(java_constructor("new()"), Err(SyntaxError::UnexpectedToken { offset: 3 }));
    assert_eq!(java_constructor("a.B<> new()"), Err(SyntaxError::UnexpectedToken { offset: 4 }));
}

#[test]
fn token_errors_are_positions() {
    let lexed = tokenize("int size() int").unwrap();
    assert_eq!(java_method_from_tokens(&lexed.tokens), Err(Unexpected { index: 4 }));
    assert_eq!(locate(&lexed, Unexpected { index: 4 }), SyntaxError::UnexpectedToken { offset: 11 });
    assert_eq!(locate(&lexed, Unexpected { index: 5 }), SyntaxError::UnexpectedEnd);
    let lexed = tokenize("a.B new(").unwrap();
    assert_eq!(java_constructor_from_tokens(&lexed.tokens), Err(Unexpected { index: 5 }));
}
