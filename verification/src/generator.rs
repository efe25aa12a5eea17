//! From stubs to binding functions.
//!
//! A foreign type is known to the host by the last segment of its qualified
//! name. A declared array `E[]` becomes the array wrapper over the element
//! type and the representation in which the element crosses the boundary,
//! which goes by the element's name with `Passable` behind it.
use vstd::prelude::*;
use vstd::string::*;
use crate::binding::{Binding, BindingView, NativeCall, NativeCallView};
use crate::stub::{
    optional_generics, views, ConstructorStubView, DeclarationView, FunctionStubView,
    JavaConstructorStub, JavaFunctionStub, JavaQualifiedConstructorStub, JavaType, JavaTypeView,
    JavaTypedDeclaration, QualifiedName, QualifiedConstructorStubView,
};
use crate::text::{join, join_texts};

verus! {

/// The name that the host knows a foreign type by: the last segment.
pub open spec fn host_name(name: Seq<Seq<char>>) -> Seq<char> {
    if name.len() == 0 {
        Seq::empty()
    } else {
        name.last()
    }
}

/// The name of the representation that belongs to a type parameter.
pub open spec fn representation(parameter: Seq<char>) -> Seq<char> {
    parameter + "Passable"@
}

/// The host type that a declared type stands for.
pub open spec fn lowered(ty: JavaTypeView) -> Seq<char> {
    if ty.array {
        "JavaArray<"@ + host_name(ty.name) + ", "@ + representation(host_name(ty.name)) + ">"@
    } else {
        host_name(ty.name)
    }
}

/// The host type as it is written before `::` in an expression.
pub open spec fn turbofish(ty: JavaTypeView) -> Seq<char> {
    if ty.array {
        "JavaArray::<"@ + host_name(ty.name) + ", "@ + representation(host_name(ty.name)) + ">"@
    } else {
        host_name(ty.name)
    }
}

/// Whether a declared type is `void`: the one name `void`, with no segment
/// before it and no `[]` behind it.
pub open spec fn is_void(ty: JavaTypeView) -> bool {
    !ty.array && ty.name.len() == 1 && ty.name[0] == "void"@
}

/// Whether `name` is one of the primitive aliases.
pub open spec fn is_primitive_name(name: Seq<char>) -> bool {
    ||| name == "byte"@
    ||| name == "i8"@
    ||| name == "short"@
    ||| name == "i16"@
    ||| name == "int"@
    ||| name == "i32"@
    ||| name == "long"@
    ||| name == "i64"@
    ||| name == "double"@
    ||| name == "f64"@
    ||| name == "boolean"@
    ||| name == "bool"@
}

/// Whether a declared type is a primitive: one of the aliases, with no
/// segment before it and no `[]` behind it.
pub open spec fn is_primitive(ty: JavaTypeView) -> bool {
    !ty.array && ty.name.len() == 1 && is_primitive_name(ty.name[0])
}

/// `name: Type`
pub open spec fn annotation(declaration: DeclarationView) -> Seq<char> {
    declaration.name + ": "@ + lowered(declaration.ty)
}

/// The annotations of declarations, in their order.
pub open spec fn annotations(args: Seq<DeclarationView>) -> Seq<Seq<char>> {
    args.map_values(|declaration: DeclarationView| annotation(declaration))
}

/// The names of declarations, in their order.
pub open spec fn argument_names(args: Seq<DeclarationView>) -> Seq<Seq<char>> {
    args.map_values(|declaration: DeclarationView| declaration.name)
}

/// `-> Type`, or nothing for `void`.
pub open spec fn return_token(return_type: JavaTypeView) -> Seq<char> {
    if is_void(return_type) {
        Seq::empty()
    } else {
        "-> "@ + lowered(return_type)
    }
}

/// `return Type::from_polyglot_value`, or nothing for `void`.
pub open spec fn conversion_prefix(return_type: JavaTypeView) -> Seq<char> {
    if is_void(return_type) {
        Seq::empty()
    } else {
        "return "@ + turbofish(return_type) + "::from_polyglot_value"@
    }
}

/// The name of the foreign method: the second name of the stub where it has
/// one, the name of the binding elsewhere.
pub open spec fn foreign_name(stub: FunctionStubView) -> Seq<char> {
    match stub.java_name {
        Some(name) => name,
        None => stub.rust_name,
    }
}

/// The binding function of a method stub.
pub open spec fn method_binding(stub: FunctionStubView) -> BindingView {
    BindingView {
        name: stub.rust_name,
        parameters: annotations(stub.args),
        arguments: argument_names(stub.args),
        call: NativeCallView::Invoke { method: foreign_name(stub) },
        return_token: return_token(stub.return_type),
        conversion: conversion_prefix(stub.return_type),
    }
}

/// `<A, B>`, or nothing where there are no generics.
pub open spec fn generic_list(generics: Option<Seq<Seq<char>>>) -> Seq<char> {
    match generics {
        Some(generics) => "<"@ + join(generics, ", "@) + ">"@,
        None => Seq::empty(),
    }
}

/// `::<A, B>`, or nothing where there are no generics.
pub open spec fn turbofish_list(generics: Option<Seq<Seq<char>>>) -> Seq<char> {
    match generics {
        Some(generics) => "::<"@ + join(generics, ", "@) + ">"@,
        None => Seq::empty(),
    }
}

/// The binding function of a constructor stub of the foreign type
/// `qualified`, whose host type takes the generic arguments `generics`.
pub open spec fn constructor_binding(
    qualified: Seq<Seq<char>>,
    generics: Option<Seq<Seq<char>>>,
    stub: ConstructorStubView,
) -> BindingView {
    BindingView {
        name: stub.rust_constructor_name,
        parameters: annotations(stub.args),
        arguments: argument_names(stub.args),
        call: NativeCallView::NewInstance { foreign_type: join(qualified, "."@) },
        return_token: "-> "@ + host_name(qualified) + generic_list(generics),
        conversion: host_name(qualified) + turbofish_list(generics) + "::from_polyglot_value"@,
    }
}

/// The host types of generic arguments, in their order.
pub open spec fn lowered_generics(generics: Option<Seq<JavaTypeView>>) -> Option<Seq<Seq<char>>> {
    match generics {
        Some(generics) => Some(generics.map_values(|ty: JavaTypeView| lowered(ty))),
        None => None,
    }
}

/// The binding function of a constructor stub that names its type itself.
pub open spec fn qualified_constructor_binding(stub: QualifiedConstructorStubView) -> BindingView {
    constructor_binding(
        stub.fully_qualified_type_name,
        lowered_generics(stub.generics),
        ConstructorStubView { rust_constructor_name: stub.rust_constructor_name, args: stub.args },
    )
}

/// The strings of a vector that may be absent, each by its characters.
pub open spec fn optional_texts(texts: Option<Vec<String>>) -> Option<Seq<Seq<char>>> {
    match texts {
        Some(texts) => Some(views(texts@)),
        None => None,
    }
}

/// Tells whether `text` holds the characters of `literal`.
pub fn same_text(text: &String, literal: &str) -> (same: bool)
    ensures
        same == (text@ == literal@),
{
    let other = String::from_str(literal);
    *text == other
}

impl QualifiedName {
    /// The name that the host knows the type by.
    pub fn host_name(&self) -> (out: String)
        ensures
            out@ == host_name(self@),
    {
        let count = self.segments.len();
        if count == 0 {
            String::new()
        } else {
            self.segments[count - 1].clone()
        }
    }

    /// The segments with dots between them.
    pub fn dotted(&self) -> (out: String)
        ensures
            out@ == join(self@, "."@),
    {
        join_texts(&self.segments, ".")
    }
}

impl JavaType {
    /// The host type that this declared type stands for: the array wrapper
    /// over the element type and its representation for `E[]`, the type's
    /// own host name elsewhere.
    pub fn to_tokens(&self) -> (out: String)
        ensures
            out@ == lowered(self@),
            self.array ==> out@ == "JavaArray<"@ + host_name(self.name@) + ", "@ + representation(
                host_name(self.name@),
            ) + ">"@,
            !self.array ==> out@ == host_name(self.name@),
    {
        let element = self.name.host_name();
        if self.array {
            let mut out = String::new();
            out.append("JavaArray<");
            out.append(element.as_str());
            out.append(", ");
            out.append(element.as_str());
            out.append("Passable");
            out.append(">");
            assert(out@ =~= lowered(self@));
            out
        } else {
            element
        }
    }

    /// The host type as it is written before `::` in an expression.
    pub fn turbofish(&self) -> (out: String)
        ensures
            out@ == turbofish(self@),
    {
        let element = self.name.host_name();
        if self.array {
            let mut out = String::new();
            out.append("JavaArray::<");
            out.append(element.as_str());
            out.append(", ");
            out.append(element.as_str());
            out.append("Passable");
            out.append(">");
            assert(out@ =~= turbofish(self@));
            out
        } else {
            element
        }
    }

    /// Tells whether this is `void`.
    pub fn is_void(&self) -> (void: bool)
        ensures
            void == is_void(self@),
    {
        if self.array || self.name.segments.len() != 1 {
            false
        } else {
            same_text(&self.name.segments[0], "void")
        }
    }
}

/// Tells whether a declared type is one of the primitive aliases `byte`,
/// `i8`, `short`, `i16`, `int`, `i32`, `long`, `i64`, `double`, `f64`,
/// `boolean` and `bool`.
pub fn type_is_primitive(ty: &JavaType) -> (primitive: bool)
    ensures
        primitive == is_primitive(ty@),
{
    if ty.array || ty.name.segments.len() != 1 {
        return false;
    }
    let name = &ty.name.segments[0];
    same_text(name, "byte") || same_text(name, "i8") || same_text(name, "short") || same_text(
        name,
        "i16",
    ) || same_text(name, "int") || same_text(name, "i32") || same_text(name, "long")
        || same_text(name, "i64") || same_text(name, "double") || same_text(name, "f64")
        || same_text(name, "boolean") || same_text(name, "bool")
}

impl JavaTypedDeclaration {
    /// `name: Type`, with the host type that the declared type stands for.
    pub fn to_rust_type_annotation(&self) -> (out: String)
        ensures
            out@ == annotation(self@),
    {
        let ty = self.ty.to_tokens();
        let mut out = String::new();
        out.append(self.name.as_str());
        out.append(": ");
        out.append(ty.as_str());
        assert(out@ =~= annotation(self@));
        out
    }
}

/// The annotations and the names of declared parameters: as many of each as
/// there are declarations, and in their order.
pub fn parse_java_args(args: &Vec<JavaTypedDeclaration>) -> (out: (Vec<String>, Vec<String>))
    ensures
        views(out.0@) == annotations(views(args@)),
        views(out.1@) == argument_names(views(args@)),
        out.0.len() == args.len(),
        out.1.len() == args.len(),
        forall|i: int| 0 <= i < args.len() ==> (#[trigger] out.0[i])@ == annotation(args[i]@),
        forall|i: int| 0 <= i < args.len() ==> (#[trigger] out.1[i])@ == args[i].name@,
{
    let mut annotated: Vec<String> = Vec::new();
    let mut names: Vec<String> = Vec::new();
    let mut i: usize = 0;
    while i < args.len()
        invariant
            i <= args.len(),
            annotated.len() == i,
            names.len() == i,
            forall|k: int| 0 <= k < i ==> (#[trigger] annotated[k])@ == annotation(args[k]@),
            forall|k: int| 0 <= k < i ==> (#[trigger] names[k])@ == args[k].name@,
        decreases args.len() - i,
    {
        annotated.push(args[i].to_rust_type_annotation());
        names.push(args[i].name.clone());
        i = i + 1;
    }
    assert(views(annotated@) =~= annotations(views(args@)));
    assert(views(names@) =~= argument_names(views(args@)));
    (annotated, names)
}

/// `-> Type` for the declared return type, and nothing for `void`.
pub fn get_return_token(return_type: &JavaType) -> (out: String)
    ensures
        out@ == return_token(return_type@),
{
    let mut out = String::new();
    if !return_type.is_void() {
        let ty = return_type.to_tokens();
        out.append("-> ");
        out.append(ty.as_str());
        assert(out@ =~= return_token(return_type@));
    }
    out
}

/// What stands before the native call of a method: `return` and the
/// reconstruction through the declared return type, and nothing for `void`.
pub fn get_return_and_conversion_prefix(return_type: &JavaType) -> (out: String)
    ensures
        out@ == conversion_prefix(return_type@),
{
    let mut out = String::new();
    if !return_type.is_void() {
        let ty = return_type.turbofish();
        out.append("return ");
        out.append(ty.as_str());
        out.append("::from_polyglot_value");
        assert(out@ =~= conversion_prefix(return_type@));
    }
    out
}

/// The binding function of a method stub.
///
/// It goes by the stub's first name and invokes the foreign method by the
/// second, or by the first where there is no second. Its parameters are those
/// of the stub, as many and in the same order. For `void` it has neither a
/// return type nor a reconstruction.
pub fn quote_function_stub(stub: &JavaFunctionStub) -> (binding: Binding)
    ensures
        binding@ == method_binding(stub@),
        binding.name@ == stub.rust_name@,
        binding.call@ == (NativeCallView::Invoke { method: foreign_name(stub@) }),
        binding.parameters.len() == stub.args.len(),
        binding.arguments.len() == stub.args.len(),
        forall|i: int|
            0 <= i < stub.args.len() ==> (#[trigger] binding.parameters[i])@ == annotation(
                stub.args[i]@,
            ),
        forall|i: int|
            0 <= i < stub.args.len() ==> (#[trigger] binding.arguments[i])@ == stub.args[i].name@,
        is_void(stub.return_type@) ==> binding.return_token@.len() == 0
            && binding.conversion@.len() == 0,
        !is_void(stub.return_type@) ==> binding.return_token@ == "-> "@ + lowered(
            stub.return_type@,
        ) && binding.conversion@ == "return "@ + turbofish(stub.return_type@)
            + "::from_polyglot_value"@,
{
    let method = match &stub.java_name {
        Some(name) => name.clone(),
        None => stub.rust_name.clone(),
    };
    let (parameters, arguments) = parse_java_args(&stub.args);
    let conversion = get_return_and_conversion_prefix(&stub.return_type);
    let return_token = get_return_token(&stub.return_type);
    Binding {
        name: stub.rust_name.clone(),
        parameters,
        arguments,
        call: NativeCall::Invoke { method },
        return_token,
        conversion,
    }
}

/// The binding function of a constructor that goes by `name`, takes `args`
/// and makes an instance of the foreign type `fully_qualified_type_name`,
/// whose host type takes the generic arguments `generics`.
fn quote_constructor(
    fully_qualified_type_name: &QualifiedName,
    generics: &Option<Vec<String>>,
    name: &String,
    args: &Vec<JavaTypedDeclaration>,
) -> (binding: Binding)
    ensures
        binding@ == constructor_binding(
            fully_qualified_type_name@,
            optional_texts(*generics),
            ConstructorStubView { rust_constructor_name: name@, args: views(args@) },
        ),
        binding.name@ == name@,
        binding.call@ == (NativeCallView::NewInstance {
            foreign_type: join(fully_qualified_type_name@, "."@),
        }),
        binding.parameters.len() == args.len(),
        binding.arguments.len() == args.len(),
        forall|i: int|
            0 <= i < args.len() ==> (#[trigger] binding.parameters[i])@ == annotation(args[i]@),
        forall|i: int| 0 <= i < args.len() ==> (#[trigger] binding.arguments[i])@ == args[i].name@,
{
    let rust_type_name = fully_qualified_type_name.host_name();
    let foreign_type = fully_qualified_type_name.dotted();
    let (parameters, arguments) = parse_java_args(args);
    let mut return_token = String::new();
    return_token.append("-> ");
    return_token.append(rust_type_name.as_str());
    let mut conversion = rust_type_name;
    match generics {
        Some(generics) => {
            let list = join_texts(generics, ", ");
            return_token.append("<");
            return_token.append(list.as_str());
            return_token.append(">");
            conversion.append("::<");
            conversion.append(list.as_str());
            conversion.append(">");
        },
        None => {},
    }
    conversion.append("::from_polyglot_value");
    let binding = Binding {
        name: name.clone(),
        parameters,
        arguments,
        call: NativeCall::NewInstance { foreign_type },
        return_token,
        conversion,
    };
    proof {
        let expected = constructor_binding(
            fully_qualified_type_name@,
            optional_texts(*generics),
            ConstructorStubView { rust_constructor_name: name@, args: views(args@) },
        );
        assert(binding@.return_token =~= expected.return_token);
        assert(binding@.conversion =~= expected.conversion);
    }
    binding
}

/// The binding function of a constructor stub inside the declaration of the
/// foreign type `fully_qualified_type_name`, whose host type takes the
/// generic arguments `generics`.
///
/// It resolves the foreign type by its dotted name, hands the parameters on
/// in the order of the stub, and returns the host type.
pub fn quote_constructor_stub(
    fully_qualified_type_name: &QualifiedName,
    generics: &Option<Vec<String>>,
    stub: &JavaConstructorStub,
) -> (binding: Binding)
    ensures
        binding@ == constructor_binding(
            fully_qualified_type_name@,
            optional_texts(*generics),
            stub@,
        ),
        binding.name@ == stub.rust_constructor_name@,
        binding.call@ == (NativeCallView::NewInstance {
            foreign_type: join(fully_qualified_type_name@, "."@),
        }),
        binding.parameters.len() == stub.args.len(),
        binding.arguments.len() == stub.args.len(),
        forall|i: int|
            0 <= i < stub.args.len() ==> (#[trigger] binding.parameters[i])@ == annotation(
                stub.args[i]@,
            ),
        forall|i: int|
            0 <= i < stub.args.len() ==> (#[trigger] binding.arguments[i])@ == stub.args[i].name@,
{
    quote_constructor(
        fully_qualified_type_name,
        generics,
        &stub.rust_constructor_name,
        &stub.args,
    )
}

/// The binding function of a constructor stub that names its type itself.
///
/// It resolves the foreign type by the dotted name of the stub, hands the
/// parameters on in the order of the stub, and returns the host type with
/// the generic arguments of the stub, each as the host type that it stands
/// for.
pub fn quote_qualified_constructor_stub(stub: &JavaQualifiedConstructorStub) -> (binding: Binding)
    ensures
        binding@ == qualified_constructor_binding(stub@),
        binding.name@ == stub.rust_constructor_name@,
        binding.call@ == (NativeCallView::NewInstance {
            foreign_type: join(stub.fully_qualified_type_name@, "."@),
        }),
        binding.parameters.len() == stub.args.len(),
        binding.arguments.len() == stub.args.len(),
        forall|i: int|
            0 <= i < stub.args.len() ==> (#[trigger] binding.parameters[i])@ == annotation(
                stub.args[i]@,
            ),
        forall|i: int|
            0 <= i < stub.args.len() ==> (#[trigger] binding.arguments[i])@ == stub.args[i].name@,
{
    let generics = match &stub.generics {
        Some(generics) => {
            let mut lowered_types: Vec<String> = Vec::new();
            let mut i: usize = 0;
            while i < generics.args.len()
                invariant
                    i <= generics.args.len(),
                    lowered_types.len() == i,
                    forall|k: int|
                        0 <= k < i ==> (#[trigger] lowered_types[k])@ == lowered(
                            generics.args[k]@,
                        ),
                decreases generics.args.len() - i,
            {
                lowered_types.push(generics.args[i].to_tokens());
                i = i + 1;
            }
            assert(Some(views(lowered_types@)) =~= lowered_generics(
                optional_generics(stub.generics),
            ));
            Some(lowered_types)
        },
        None => None,
    };
    quote_constructor(
        &stub.fully_qualified_type_name,
        &generics,
        &stub.rust_constructor_name,
        &stub.args,
    )
}

} // verus!
