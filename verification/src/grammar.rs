//! The grammar of the stub language, as functions on token sequences.
//!
//! ```text
//! type        ::= qualified-name ('[' ']')?
//! typed-decl  ::= type identifier
//! ctor-stub   ::= identifier '(' (typed-decl (',' typed-decl)*)? ')'
//! qctor-stub  ::= qualified-name ('<' type (',' type)* '>')? identifier
//!                 '(' (typed-decl (',' typed-decl)*)? ')'
//! method-stub ::= type identifier identifier? '(' (typed-decl (',' typed-decl)*)? ')'
//! class-decl  ::= qualified-name ('<' identifier (',' identifier)* '>')?
//!                 '{' stub (';' stub)* ';'? '}'
//! ```
//!
//! Each function reads one construct at a position and either accepts it,
//! with what it read and the position behind it, or rejects the input at the
//! first token that cannot stand where it does. A position equal to the
//! length of the input stands for its end.
use vstd::prelude::*;
use crate::token::{punct_at, word_at, Punct, Tok};
use crate::stub::{
    ClassView, ConstructorStubView, DeclarationView, FunctionStubView, JavaTypeView,
    QualifiedConstructorStubView, StubView,
};

verus! {

/// How reading a construct ends.
pub enum Parse<T> {
    Accept { value: T, next: int },
    Reject { at: int },
}

/// `('.' identifier)*`, behind the segments already read.
pub open spec fn qualified_rest(ts: Seq<Tok>, i: int, found: Seq<Seq<char>>) -> Parse<
    Seq<Seq<char>>,
>
    decreases ts.len() - i,
{
    if punct_at(ts, i, Punct::Dot) {
        if word_at(ts, i + 1) {
            qualified_rest(ts, i + 2, found.push(ts[i + 1]->Word_0))
        } else {
            Parse::Reject { at: i + 1 }
        }
    } else {
        Parse::Accept { value: found, next: i }
    }
}

/// `qualified-name ::= identifier ('.' identifier)*`
pub open spec fn qualified_name(ts: Seq<Tok>, i: int) -> Parse<Seq<Seq<char>>> {
    if word_at(ts, i) {
        qualified_rest(ts, i + 1, seq![ts[i]->Word_0])
    } else {
        Parse::Reject { at: i }
    }
}

/// `type ::= qualified-name ('[' ']')?`
pub open spec fn java_type(ts: Seq<Tok>, i: int) -> Parse<JavaTypeView> {
    match qualified_name(ts, i) {
        Parse::Reject { at } => Parse::Reject { at },
        Parse::Accept { value, next } => {
            if punct_at(ts, next, Punct::OpenBracket) {
                if punct_at(ts, next + 1, Punct::CloseBracket) {
                    Parse::Accept {
                        value: JavaTypeView { name: value, array: true },
                        next: next + 2,
                    }
                } else {
                    Parse::Reject { at: next + 1 }
                }
            } else {
                Parse::Accept { value: JavaTypeView { name: value, array: false }, next }
            }
        },
    }
}

/// `typed-decl ::= type identifier`
pub open spec fn typed_declaration(ts: Seq<Tok>, i: int) -> Parse<DeclarationView> {
    match java_type(ts, i) {
        Parse::Reject { at } => Parse::Reject { at },
        Parse::Accept { value, next } => {
            if word_at(ts, next) {
                Parse::Accept {
                    value: DeclarationView { ty: value, name: ts[next]->Word_0 },
                    next: next + 1,
                }
            } else {
                Parse::Reject { at: next }
            }
        },
    }
}

/// `typed-decl (',' typed-decl)* ')'`, behind the declarations already read.
pub open spec fn declarations(ts: Seq<Tok>, i: int, found: Seq<DeclarationView>) -> Parse<
    Seq<DeclarationView>,
>
    decreases ts.len() - i,
{
    match typed_declaration(ts, i) {
        Parse::Reject { at } => Parse::Reject { at },
        Parse::Accept { value, next } => {
            if punct_at(ts, next, Punct::CloseParen) {
                Parse::Accept { value: found.push(value), next: next + 1 }
            } else if punct_at(ts, next, Punct::Comma) {
                proof {
                    lemma_typed_declaration_advances(ts, i);
                }
                declarations(ts, next + 1, found.push(value))
            } else {
                Parse::Reject { at: next }
            }
        },
    }
}

/// `'(' (typed-decl (',' typed-decl)*)? ')'`
pub open spec fn arguments(ts: Seq<Tok>, i: int) -> Parse<Seq<DeclarationView>> {
    if !punct_at(ts, i, Punct::OpenParen) {
        Parse::Reject { at: i }
    } else if punct_at(ts, i + 1, Punct::CloseParen) {
        Parse::Accept { value: Seq::empty(), next: i + 2 }
    } else {
        declarations(ts, i + 1, Seq::empty())
    }
}

/// `ctor-stub ::= identifier '(' ... ')'`
pub open spec fn constructor_stub(ts: Seq<Tok>, i: int) -> Parse<ConstructorStubView> {
    if word_at(ts, i) {
        match arguments(ts, i + 1) {
            Parse::Reject { at } => Parse::Reject { at },
            Parse::Accept { value, next } => Parse::Accept {
                value: ConstructorStubView { rust_constructor_name: ts[i]->Word_0, args: value },
                next,
            },
        }
    } else {
        Parse::Reject { at: i }
    }
}

/// `method-stub ::= type identifier identifier? '(' ... ')'`
pub open spec fn function_stub(ts: Seq<Tok>, i: int) -> Parse<FunctionStubView> {
    match java_type(ts, i) {
        Parse::Reject { at } => Parse::Reject { at },
        Parse::Accept { value: return_type, next } => {
            if !word_at(ts, next) {
                Parse::Reject { at: next }
            } else {
                let renamed = word_at(ts, next + 1);
                let open = if renamed {
                    next + 2
                } else {
                    next + 1
                };
                match arguments(ts, open) {
                    Parse::Reject { at } => Parse::Reject { at },
                    Parse::Accept { value: args, next: end } => Parse::Accept {
                        value: FunctionStubView {
                            return_type,
                            rust_name: ts[next]->Word_0,
                            java_name: if renamed {
                                Some(ts[next + 1]->Word_0)
                            } else {
                                None
                            },
                            args,
                        },
                        next: end,
                    },
                }
            }
        },
    }
}

/// Whether a constructor stub is to be read at `i`: the token behind the
/// first identifier is an opening parenthesis.
pub open spec fn constructor_ahead(ts: Seq<Tok>, i: int) -> bool {
    punct_at(ts, i + 1, Punct::OpenParen)
}

/// `ctor-stub | method-stub`, told apart by the token behind the first.
pub open spec fn stub(ts: Seq<Tok>, i: int) -> Parse<StubView> {
    if constructor_ahead(ts, i) {
        match constructor_stub(ts, i) {
            Parse::Reject { at } => Parse::Reject { at },
            Parse::Accept { value, next } => Parse::Accept {
                value: StubView::Constructor(value),
                next,
            },
        }
    } else {
        match function_stub(ts, i) {
            Parse::Reject { at } => Parse::Reject { at },
            Parse::Accept { value, next } => Parse::Accept {
                value: StubView::Function(value),
                next,
            },
        }
    }
}

/// `type (',' type)* '>'`, behind the types already read.
pub open spec fn generic_types(ts: Seq<Tok>, i: int, found: Seq<JavaTypeView>) -> Parse<
    Seq<JavaTypeView>,
>
    decreases ts.len() - i,
{
    match java_type(ts, i) {
        Parse::Reject { at } => Parse::Reject { at },
        Parse::Accept { value, next } => {
            if punct_at(ts, next, Punct::Greater) {
                Parse::Accept { value: found.push(value), next: next + 1 }
            } else if punct_at(ts, next, Punct::Comma) {
                proof {
                    lemma_java_type_advances(ts, i);
                }
                generic_types(ts, next + 1, found.push(value))
            } else {
                Parse::Reject { at: next }
            }
        },
    }
}

/// `'<' type (',' type)* '>'`
pub open spec fn angle_bracket_generics(ts: Seq<Tok>, i: int) -> Parse<Seq<JavaTypeView>> {
    if punct_at(ts, i, Punct::Less) {
        generic_types(ts, i + 1, Seq::empty())
    } else {
        Parse::Reject { at: i }
    }
}

/// `qctor-stub ::= qualified-name ('<' type (',' type)* '>')? identifier '(' ... ')'`
pub open spec fn qualified_constructor_stub(ts: Seq<Tok>, i: int) -> Parse<
    QualifiedConstructorStubView,
> {
    match qualified_name(ts, i) {
        Parse::Reject { at } => Parse::Reject { at },
        Parse::Accept { value: name, next } => {
            let generics = if punct_at(ts, next, Punct::Less) {
                angle_bracket_generics(ts, next)
            } else {
                Parse::Accept { value: Seq::empty(), next }
            };
            match generics {
                Parse::Reject { at } => Parse::Reject { at },
                Parse::Accept { value: types, next: behind } => {
                    if !word_at(ts, behind) {
                        Parse::Reject { at: behind }
                    } else {
                        match arguments(ts, behind + 1) {
                            Parse::Reject { at } => Parse::Reject { at },
                            Parse::Accept { value: args, next: end } => Parse::Accept {
                                value: QualifiedConstructorStubView {
                                    fully_qualified_type_name: name,
                                    rust_constructor_name: ts[behind]->Word_0,
                                    generics: if punct_at(ts, next, Punct::Less) {
                                        Some(types)
                                    } else {
                                        None
                                    },
                                    args,
                                },
                                next: end,
                            },
                        }
                    }
                },
            }
        },
    }
}

/// `identifier (',' identifier)* '>'`, behind the names already read.
pub open spec fn generic_names(ts: Seq<Tok>, i: int, found: Seq<Seq<char>>) -> Parse<
    Seq<Seq<char>>,
>
    decreases ts.len() - i,
{
    if !word_at(ts, i) {
        Parse::Reject { at: i }
    } else if punct_at(ts, i + 1, Punct::Greater) {
        Parse::Accept { value: found.push(ts[i]->Word_0), next: i + 2 }
    } else if punct_at(ts, i + 1, Punct::Comma) {
        generic_names(ts, i + 2, found.push(ts[i]->Word_0))
    } else {
        Parse::Reject { at: i + 1 }
    }
}

/// `'<' identifier (',' identifier)* '>'`
pub open spec fn generic_parameters(ts: Seq<Tok>, i: int) -> Parse<Seq<Seq<char>>> {
    if punct_at(ts, i, Punct::Less) {
        generic_names(ts, i + 1, Seq::empty())
    } else {
        Parse::Reject { at: i }
    }
}

/// `stub (';' stub)* ';'? '}'`, behind the stubs already read.
pub open spec fn class_stubs(ts: Seq<Tok>, i: int, found: Seq<StubView>) -> Parse<Seq<StubView>>
    decreases ts.len() - i,
{
    match stub(ts, i) {
        Parse::Reject { at } => Parse::Reject { at },
        Parse::Accept { value, next } => {
            if punct_at(ts, next, Punct::CloseBrace) {
                Parse::Accept { value: found.push(value), next: next + 1 }
            } else if punct_at(ts, next, Punct::Semicolon) {
                if punct_at(ts, next + 1, Punct::CloseBrace) {
                    Parse::Accept { value: found.push(value), next: next + 2 }
                } else {
                    proof {
                        lemma_stub_advances(ts, i);
                    }
                    class_stubs(ts, next + 1, found.push(value))
                }
            } else {
                Parse::Reject { at: next }
            }
        },
    }
}

/// `class-decl`, from the first token to the closing brace.
pub open spec fn class_head(ts: Seq<Tok>, i: int) -> Parse<ClassView> {
    match qualified_name(ts, i) {
        Parse::Reject { at } => Parse::Reject { at },
        Parse::Accept { value: name, next } => {
            let generics = if punct_at(ts, next, Punct::Less) {
                generic_parameters(ts, next)
            } else {
                Parse::Accept { value: Seq::empty(), next }
            };
            match generics {
                Parse::Reject { at } => Parse::Reject { at },
                Parse::Accept { value: names, next: behind } => {
                    if !punct_at(ts, behind, Punct::OpenBrace) {
                        Parse::Reject { at: behind }
                    } else {
                        match class_stubs(ts, behind + 1, Seq::empty()) {
                            Parse::Reject { at } => Parse::Reject { at },
                            Parse::Accept { value: stubs, next: end } => Parse::Accept {
                                value: ClassView {
                                    qualified_name: name,
                                    generics: if punct_at(ts, next, Punct::Less) {
                                        Some(names)
                                    } else {
                                        None
                                    },
                                    stubs,
                                },
                                next: end,
                            },
                        }
                    }
                },
            }
        },
    }
}

/// A whole input that is one class declaration, or the position of the
/// offending token.
pub open spec fn class_declaration(ts: Seq<Tok>) -> Result<ClassView, int> {
    match class_head(ts, 0) {
        Parse::Reject { at } => Err(at),
        Parse::Accept { value, next } => {
            if next == ts.len() {
                Ok(value)
            } else {
                Err(next)
            }
        },
    }
}

/// A whole input of method stubs with `;` between them and, if one likes,
/// behind the last: `(method-stub (';' method-stub)* ';'?)?`.
pub open spec fn method_stubs(ts: Seq<Tok>, i: int, found: Seq<FunctionStubView>) -> Result<
    Seq<FunctionStubView>,
    int,
>
    decreases ts.len() - i,
{
    if i >= ts.len() {
        Ok(found)
    } else {
        match function_stub(ts, i) {
            Parse::Reject { at } => Err(at),
            Parse::Accept { value, next } => {
                if next >= ts.len() {
                    Ok(found.push(value))
                } else if punct_at(ts, next, Punct::Semicolon) {
                    proof {
                        lemma_function_stub_advances(ts, i);
                    }
                    method_stubs(ts, next + 1, found.push(value))
                } else {
                    Err(next)
                }
            },
        }
    }
}

/// A whole input of qualified constructor stubs with `;` between them and,
/// if one likes, behind the last.
pub open spec fn constructor_stubs(
    ts: Seq<Tok>,
    i: int,
    found: Seq<QualifiedConstructorStubView>,
) -> Result<Seq<QualifiedConstructorStubView>, int>
    decreases ts.len() - i,
{
    if i >= ts.len() {
        Ok(found)
    } else {
        match qualified_constructor_stub(ts, i) {
            Parse::Reject { at } => Err(at),
            Parse::Accept { value, next } => {
                if next >= ts.len() {
                    Ok(found.push(value))
                } else if punct_at(ts, next, Punct::Semicolon) {
                    proof {
                        lemma_qualified_constructor_stub_advances(ts, i);
                    }
                    constructor_stubs(ts, next + 1, found.push(value))
                } else {
                    Err(next)
                }
            },
        }
    }
}

/// Whether what was accepted lies behind `i` and inside the input.
pub open spec fn advances<T>(ts: Seq<Tok>, i: int, parse: Parse<T>) -> bool {
    parse matches Parse::Accept { next, .. } ==> i < next <= ts.len()
}

/// The segments behind the first end inside the input.
pub proof fn lemma_qualified_rest_advances(ts: Seq<Tok>, i: int, found: Seq<Seq<char>>)
    requires
        0 <= i <= ts.len(),
    ensures
        qualified_rest(ts, i, found) matches Parse::Accept { next, .. } ==> i <= next <= ts.len(),
    decreases ts.len() - i,
{
    if punct_at(ts, i, Punct::Dot) && word_at(ts, i + 1) {
        lemma_qualified_rest_advances(ts, i + 2, found.push(ts[i + 1]->Word_0));
    }
}

/// A qualified name that was read ends behind its start and inside the
/// input.
pub proof fn lemma_qualified_name_advances(ts: Seq<Tok>, i: int)
    requires
        0 <= i,
    ensures
        advances(ts, i, qualified_name(ts, i)),
{
    if word_at(ts, i) {
        lemma_qualified_rest_advances(ts, i + 1, seq![ts[i]->Word_0]);
    }
}

/// A type that was read ends behind its start and inside the input.
pub proof fn lemma_java_type_advances(ts: Seq<Tok>, i: int)
    requires
        0 <= i,
    ensures
        advances(ts, i, java_type(ts, i)),
{
    lemma_qualified_name_advances(ts, i);
}

/// A typed declaration that was read ends behind its start and inside the
/// input.
pub proof fn lemma_typed_declaration_advances(ts: Seq<Tok>, i: int)
    requires
        0 <= i,
    ensures
        advances(ts, i, typed_declaration(ts, i)),
{
    lemma_java_type_advances(ts, i);
}

/// Declarations that were read end behind their start and inside the input.
pub proof fn lemma_declarations_advance(ts: Seq<Tok>, i: int, found: Seq<DeclarationView>)
    requires
        0 <= i,
    ensures
        advances(ts, i, declarations(ts, i, found)),
    decreases ts.len() - i,
{
    lemma_typed_declaration_advances(ts, i);
    if let Parse::Accept { value, next } = typed_declaration(ts, i) {
        if !punct_at(ts, next, Punct::CloseParen) && punct_at(ts, next, Punct::Comma) {
            lemma_declarations_advance(ts, next + 1, found.push(value));
        }
    }
}

/// Parameters that were read end behind their start and inside the input.
pub proof fn lemma_arguments_advance(ts: Seq<Tok>, i: int)
    requires
        0 <= i,
    ensures
        advances(ts, i, arguments(ts, i)),
{
    lemma_declarations_advance(ts, i + 1, Seq::empty());
}

/// A constructor stub that was read ends behind its start and inside the
/// input.
pub proof fn lemma_constructor_stub_advances(ts: Seq<Tok>, i: int)
    requires
        0 <= i,
    ensures
        advances(ts, i, constructor_stub(ts, i)),
{
    lemma_arguments_advance(ts, i + 1);
}

/// A method stub that was read ends behind its start and inside the input.
pub proof fn lemma_function_stub_advances(ts: Seq<Tok>, i: int)
    requires
        0 <= i,
    ensures
        advances(ts, i, function_stub(ts, i)),
{
    lemma_java_type_advances(ts, i);
    if let Parse::Accept { next, .. } = java_type(ts, i) {
        lemma_arguments_advance(ts, next + 1);
        lemma_arguments_advance(ts, next + 2);
    }
}

/// A stub that was read ends behind its start and inside the input.
pub proof fn lemma_stub_advances(ts: Seq<Tok>, i: int)
    requires
        0 <= i,
    ensures
        advances(ts, i, stub(ts, i)),
{
    lemma_constructor_stub_advances(ts, i);
    lemma_function_stub_advances(ts, i);
}

/// Generic types that were read end behind their start and inside the
/// input.
pub proof fn lemma_generic_types_advance(ts: Seq<Tok>, i: int, found: Seq<JavaTypeView>)
    requires
        0 <= i,
    ensures
        advances(ts, i, generic_types(ts, i, found)),
    decreases ts.len() - i,
{
    lemma_java_type_advances(ts, i);
    if let Parse::Accept { value, next } = java_type(ts, i) {
        if !punct_at(ts, next, Punct::Greater) && punct_at(ts, next, Punct::Comma) {
            lemma_generic_types_advance(ts, next + 1, found.push(value));
        }
    }
}

/// A qualified constructor stub that was read ends behind its start and
/// inside the input.
pub proof fn lemma_qualified_constructor_stub_advances(ts: Seq<Tok>, i: int)
    requires
        0 <= i,
    ensures
        advances(ts, i, qualified_constructor_stub(ts, i)),
{
    lemma_qualified_name_advances(ts, i);
    if let Parse::Accept { next, .. } = qualified_name(ts, i) {
        if punct_at(ts, next, Punct::Less) {
            lemma_generic_types_advance(ts, next + 1, Seq::empty());
            if let Parse::Accept { next: behind, .. } = generic_types(ts, next + 1, Seq::empty()) {
                lemma_arguments_advance(ts, behind + 1);
            }
        } else {
            lemma_arguments_advance(ts, next + 1);
        }
    }
}

/// Generic names that were read end behind their start and inside the
/// input.
pub proof fn lemma_generic_names_advance(ts: Seq<Tok>, i: int, found: Seq<Seq<char>>)
    requires
        0 <= i,
    ensures
        advances(ts, i, generic_names(ts, i, found)),
    decreases ts.len() - i,
{
    if word_at(ts, i) && !punct_at(ts, i + 1, Punct::Greater) && punct_at(ts, i + 1, Punct::Comma) {
        lemma_generic_names_advance(ts, i + 2, found.push(ts[i]->Word_0));
    }
}

/// The stubs of a class body that were read end behind their start and
/// inside the input.
pub proof fn lemma_class_stubs_advance(ts: Seq<Tok>, i: int, found: Seq<StubView>)
    requires
        0 <= i,
    ensures
        advances(ts, i, class_stubs(ts, i, found)),
    decreases ts.len() - i,
{
    lemma_stub_advances(ts, i);
    if let Parse::Accept { value, next } = stub(ts, i) {
        if !punct_at(ts, next, Punct::CloseBrace) && punct_at(ts, next, Punct::Semicolon)
            && !punct_at(ts, next + 1, Punct::CloseBrace) {
            lemma_class_stubs_advance(ts, next + 1, found.push(value));
        }
    }
}

} // verus!
