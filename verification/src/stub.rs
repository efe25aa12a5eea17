//! The stubs of the declarative language: what a text says of a foreign
//! class, of its constructors and of its methods.
use vstd::prelude::*;

verus! {

/// The items of a vector, each by its view.
pub open spec fn views<T: View>(items: Seq<T>) -> Seq<T::V> {
    items.map_values(|item: T| item@)
}

/// The views of a vector that grew by one item are the views it had and the
/// view of that item.
pub proof fn lemma_views_push<T: View>(items: Seq<T>, item: T)
    ensures
        views(items.push(item)) == views(items).push(item@),
{
    assert(views(items.push(item)) =~= views(items).push(item@));
}

/// No items have no views.
pub proof fn lemma_views_empty<T: View>()
    ensures
        views(Seq::<T>::empty()) == Seq::<T::V>::empty(),
{
    assert(views(Seq::<T>::empty()) =~= Seq::<T::V>::empty());
}

/// A name made of identifiers with dots between them, such as
/// `java.util.ArrayList`. It has at least one segment when it was parsed.
#[derive(Clone, Debug, PartialEq, Eq)]
pub struct QualifiedName {
    pub segments: Vec<String>,
}

impl View for QualifiedName {
    type V = Seq<Seq<char>>;

    open spec fn view(&self) -> Seq<Seq<char>> {
        views(self.segments@)
    }
}

/// A declared type: a name, and whether `[]` follows it.
#[derive(Clone, Debug, PartialEq, Eq)]
pub struct JavaType {
    pub name: QualifiedName,
    pub array: bool,
}

/// What a declared type is, with characters in place of strings.
pub struct JavaTypeView {
    pub name: Seq<Seq<char>>,
    pub array: bool,
}

impl View for JavaType {
    type V = JavaTypeView;

    open spec fn view(&self) -> JavaTypeView {
        JavaTypeView { name: self.name@, array: self.array }
    }
}

/// A type and the name that a parameter of that type goes by.
#[derive(Clone, Debug, PartialEq, Eq)]
pub struct JavaTypedDeclaration {
    pub ty: JavaType,
    pub name: String,
}

/// What a typed declaration is, with characters in place of strings.
pub struct DeclarationView {
    pub ty: JavaTypeView,
    pub name: Seq<char>,
}

impl View for JavaTypedDeclaration {
    type V = DeclarationView;

    open spec fn view(&self) -> DeclarationView {
        DeclarationView { ty: self.ty@, name: self.name@ }
    }
}

/// The view of a name that may be absent.
pub open spec fn optional_text(name: Option<String>) -> Option<Seq<char>> {
    match name {
        Some(name) => Some(name@),
        None => None,
    }
}

/// A method stub: the declared return type, the name of the binding, the
/// name of the foreign method where it differs, and the parameters.
#[derive(Clone, Debug, PartialEq, Eq)]
pub struct JavaFunctionStub {
    pub return_type: JavaType,
    pub rust_name: String,
    pub java_name: Option<String>,
    pub args: Vec<JavaTypedDeclaration>,
}

/// What a method stub is, with characters in place of strings.
pub struct FunctionStubView {
    pub return_type: JavaTypeView,
    pub rust_name: Seq<char>,
    pub java_name: Option<Seq<char>>,
    pub args: Seq<DeclarationView>,
}

impl View for JavaFunctionStub {
    type V = FunctionStubView;

    open spec fn view(&self) -> FunctionStubView {
        FunctionStubView {
            return_type: self.return_type@,
            rust_name: self.rust_name@,
            java_name: optional_text(self.java_name),
            args: views(self.args@),
        }
    }
}

/// The types between `<` and `>`.
#[derive(Clone, Debug, PartialEq, Eq)]
pub struct AngleBracketGenerics {
    pub args: Vec<JavaType>,
}

impl View for AngleBracketGenerics {
    type V = Seq<JavaTypeView>;

    open spec fn view(&self) -> Seq<JavaTypeView> {
        views(self.args@)
    }
}

/// The view of generic arguments that may be absent.
pub open spec fn optional_generics(generics: Option<AngleBracketGenerics>) -> Option<
    Seq<JavaTypeView>,
> {
    match generics {
        Some(generics) => Some(generics@),
        None => None,
    }
}

/// A constructor stub that names the foreign type itself.
#[derive(Clone, Debug, PartialEq, Eq)]
pub struct JavaQualifiedConstructorStub {
    pub fully_qualified_type_name: QualifiedName,
    pub rust_constructor_name: String,
    pub generics: Option<AngleBracketGenerics>,
    pub args: Vec<JavaTypedDeclaration>,
}

/// What a qualified constructor stub is, with characters in place of strings.
pub struct QualifiedConstructorStubView {
    pub fully_qualified_type_name: Seq<Seq<char>>,
    pub rust_constructor_name: Seq<char>,
    pub generics: Option<Seq<JavaTypeView>>,
    pub args: Seq<DeclarationView>,
}

impl View for JavaQualifiedConstructorStub {
    type V = QualifiedConstructorStubView;

    open spec fn view(&self) -> QualifiedConstructorStubView {
        QualifiedConstructorStubView {
            fully_qualified_type_name: self.fully_qualified_type_name@,
            rust_constructor_name: self.rust_constructor_name@,
            generics: optional_generics(self.generics),
            args: views(self.args@),
        }
    }
}

/// A constructor stub inside a class declaration.
#[derive(Clone, Debug, PartialEq, Eq)]
pub struct JavaConstructorStub {
    pub rust_constructor_name: String,
    pub args: Vec<JavaTypedDeclaration>,
}

/// What a constructor stub is, with characters in place of strings.
pub struct ConstructorStubView {
    pub rust_constructor_name: Seq<char>,
    pub args: Seq<DeclarationView>,
}

impl View for JavaConstructorStub {
    type V = ConstructorStubView;

    open spec fn view(&self) -> ConstructorStubView {
        ConstructorStubView {
            rust_constructor_name: self.rust_constructor_name@,
            args: views(self.args@),
        }
    }
}

/// One stub of a class body.
#[derive(Clone, Debug, PartialEq, Eq)]
pub enum JavaStub {
    JavaConstructorStub(JavaConstructorStub),
    JavaFunctionStub(JavaFunctionStub),
}

/// What a stub is, with characters in place of strings.
pub enum StubView {
    Constructor(ConstructorStubView),
    Function(FunctionStubView),
}

impl View for JavaStub {
    type V = StubView;

    open spec fn view(&self) -> StubView {
        match *self {
            JavaStub::JavaConstructorStub(stub) => StubView::Constructor(stub@),
            JavaStub::JavaFunctionStub(stub) => StubView::Function(stub@),
        }
    }
}

/// The generic parameters of a class declaration.
#[derive(Clone, Debug, PartialEq, Eq)]
pub struct GenericParameters {
    pub names: Vec<String>,
}

impl View for GenericParameters {
    type V = Seq<Seq<char>>;

    open spec fn view(&self) -> Seq<Seq<char>> {
        views(self.names@)
    }
}

/// The view of generic parameters that may be absent.
pub open spec fn optional_parameters(generics: Option<GenericParameters>) -> Option<
    Seq<Seq<char>>,
> {
    match generics {
        Some(generics) => Some(generics@),
        None => None,
    }
}

/// A class declaration: the qualified name of the foreign type, its generic
/// parameters, and the stubs of its body in order.
#[derive(Clone, Debug, PartialEq, Eq)]
pub struct Class {
    pub qualified_name: QualifiedName,
    pub generics: Option<GenericParameters>,
    pub stubs: Vec<JavaStub>,
}

/// What a class declaration is, with characters in place of strings.
pub struct ClassView {
    pub qualified_name: Seq<Seq<char>>,
    pub generics: Option<Seq<Seq<char>>>,
    pub stubs: Seq<StubView>,
}

impl View for Class {
    type V = ClassView;

    open spec fn view(&self) -> ClassView {
        ClassView {
            qualified_name: self.qualified_name@,
            generics: optional_parameters(self.generics),
            stubs: views(self.stubs@),
        }
    }
}

} // verus!
