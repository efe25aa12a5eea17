//! The parser of the stub language: each function reads what the grammar
//! function of the same construct describes.
use vstd::prelude::*;
use crate::token::{is_punct, lemma_toks_len, toks, word_at, Punct, Tok, Token};
use crate::stub::{
    lemma_views_empty, lemma_views_push, views, AngleBracketGenerics, Class, ClassView,
    GenericParameters, JavaConstructorStub, JavaFunctionStub, JavaQualifiedConstructorStub,
    JavaStub, JavaType, JavaTypedDeclaration, QualifiedName,
};
use crate::grammar::{
    angle_bracket_generics, arguments, class_declaration, class_stubs, constructor_stub,
    constructor_stubs, declarations, function_stub, generic_names, generic_parameters,
    generic_types, java_type, lemma_class_stubs_advance, lemma_function_stub_advances,
    lemma_generic_names_advance, lemma_generic_types_advance, lemma_java_type_advances,
    lemma_qualified_constructor_stub_advances, lemma_qualified_name_advances, lemma_stub_advances,
    lemma_typed_declaration_advances, method_stubs, qualified_constructor_stub, qualified_name,
    qualified_rest, stub, typed_declaration, Parse,
};

verus! {

/// The token at `index` cannot stand where it does. An index equal to the
/// number of tokens says that the input ended too early.
#[derive(Clone, Copy, Debug, PartialEq, Eq, Structural)]
pub struct Unexpected {
    pub index: usize,
}

/// What a parser returned, in the terms of the grammar.
pub open spec fn outcome<T: View>(result: Result<(T, usize), Unexpected>) -> Parse<T::V> {
    match result {
        Ok((value, next)) => Parse::Accept { value: value@, next: next as int },
        Err(unexpected) => Parse::Reject { at: unexpected.index as int },
    }
}

/// What a parser of a list returned, in the terms of the grammar.
pub open spec fn outcome_of_list<T: View>(result: Result<(Vec<T>, usize), Unexpected>) -> Parse<
    Seq<T::V>,
> {
    match result {
        Ok((value, next)) => Parse::Accept { value: views(value@), next: next as int },
        Err(unexpected) => Parse::Reject { at: unexpected.index as int },
    }
}

/// The word at `index`, if a word stands there.
pub fn word(tokens: &Vec<Token>, index: usize) -> (found: Option<String>)
    ensures
        match found {
            Some(word) => word_at(toks(tokens@), index as int) && toks(tokens@)[index as int]
                == Tok::Word(word@),
            None => !word_at(toks(tokens@), index as int),
        },
{
    proof {
        lemma_toks_len(tokens);
    }
    if index < tokens.len() {
        match &tokens[index] {
            Token::Word(word) => Some(word.clone()),
            Token::Punct(_) => None,
        }
    } else {
        None
    }
}

impl QualifiedName {
    /// Reads `identifier ('.' identifier)*` at `start`.
    pub fn parse(tokens: &Vec<Token>, start: usize) -> (result: Result<
        (QualifiedName, usize),
        Unexpected,
    >)
        ensures
            outcome(result) == qualified_name(toks(tokens@), start as int),
    {
        proof {
            lemma_toks_len(tokens);
        }
        let first = match word(tokens, start) {
            Some(first) => first,
            None => {
                return Err(Unexpected { index: start });
            },
        };
        let mut segments: Vec<String> = Vec::new();
        proof {
            lemma_views_empty::<String>();
            lemma_views_push(segments@, first);
        }
        segments.push(first);
        let mut i = start + 1;
        while is_punct(tokens, i, Punct::Dot)
            invariant
                i <= tokens.len(),
                qualified_name(toks(tokens@), start as int) == qualified_rest(
                    toks(tokens@),
                    i as int,
                    views(segments@),
                ),
            decreases tokens.len() - i,
        {
            match word(tokens, i + 1) {
                Some(segment) => {
                    proof {
                        lemma_views_push(segments@, segment);
                    }
                    segments.push(segment);
                    i = i + 2;
                },
                None => {
                    return Err(Unexpected { index: i + 1 });
                },
            }
        }
        Ok((QualifiedName { segments }, i))
    }
}

impl JavaType {
    /// Reads `qualified-name ('[' ']')?` at `start`.
    pub fn parse(tokens: &Vec<Token>, start: usize) -> (result: Result<
        (JavaType, usize),
        Unexpected,
    >)
        ensures
            outcome(result) == java_type(toks(tokens@), start as int),
    {
        proof {
            lemma_toks_len(tokens);
        }
        let (name, next) = match QualifiedName::parse(tokens, start) {
            Ok(read) => read,
            Err(unexpected) => {
                return Err(unexpected);
            },
        };
        proof {
            lemma_qualified_name_advances(toks(tokens@), start as int);
        }
        if is_punct(tokens, next, Punct::OpenBracket) {
            if is_punct(tokens, next + 1, Punct::CloseBracket) {
                Ok((JavaType { name, array: true }, next + 2))
            } else {
                Err(Unexpected { index: next + 1 })
            }
        } else {
            Ok((JavaType { name, array: false }, next))
        }
    }
}

impl JavaTypedDeclaration {
    /// Reads `type identifier` at `start`.
    pub fn parse(tokens: &Vec<Token>, start: usize) -> (result: Result<
        (JavaTypedDeclaration, usize),
        Unexpected,
    >)
        ensures
            outcome(result) == typed_declaration(toks(tokens@), start as int),
    {
        proof {
            lemma_toks_len(tokens);
        }
        let (ty, next) = match JavaType::parse(tokens, start) {
            Ok(read) => read,
            Err(unexpected) => {
                return Err(unexpected);
            },
        };
        proof {
            lemma_java_type_advances(toks(tokens@), start as int);
        }
        match word(tokens, next) {
            Some(name) => Ok((JavaTypedDeclaration { ty, name }, next + 1)),
            None => Err(Unexpected { index: next }),
        }
    }
}

/// Reads `'(' (typed-decl (',' typed-decl)*)? ')'` at `start`.
pub fn parse_arguments(tokens: &Vec<Token>, start: usize) -> (result: Result<
    (Vec<JavaTypedDeclaration>, usize),
    Unexpected,
>)
    ensures
        outcome_of_list(result) == arguments(toks(tokens@), start as int),
{
    proof {
        lemma_toks_len(tokens);
    }
    let mut found: Vec<JavaTypedDeclaration> = Vec::new();
    proof {
        lemma_views_empty::<JavaTypedDeclaration>();
    }
    if !is_punct(tokens, start, Punct::OpenParen) {
        return Err(Unexpected { index: start });
    }
    if is_punct(tokens, start + 1, Punct::CloseParen) {
        return Ok((found, start + 2));
    }
    let mut i = start + 1;
    loop
        invariant
            i <= tokens.len(),
            arguments(toks(tokens@), start as int) == declarations(
                toks(tokens@),
                i as int,
                views(found@),
            ),
        decreases tokens.len() - i,
    {
        match JavaTypedDeclaration::parse(tokens, i) {
            Err(unexpected) => {
                return Err(unexpected);
            },
            Ok((declaration, next)) => {
                proof {
                    lemma_typed_declaration_advances(toks(tokens@), i as int);
                    lemma_views_push(found@, declaration);
                }
                found.push(declaration);
                if is_punct(tokens, next, Punct::CloseParen) {
                    return Ok((found, next + 1));
                } else if is_punct(tokens, next, Punct::Comma) {
                    i = next + 1;
                } else {
                    return Err(Unexpected { index: next });
                }
            },
        }
    }
}

impl JavaConstructorStub {
    /// Reads `identifier '(' ... ')'` at `start`.
    pub fn parse(tokens: &Vec<Token>, start: usize) -> (result: Result<
        (JavaConstructorStub, usize),
        Unexpected,
    >)
        ensures
            outcome(result) == constructor_stub(toks(tokens@), start as int),
    {
        proof {
            lemma_toks_len(tokens);
        }
        let rust_constructor_name = match word(tokens, start) {
            Some(name) => name,
            None => {
                return Err(Unexpected { index: start });
            },
        };
        match parse_arguments(tokens, start + 1) {
            Ok((args, next)) => Ok((JavaConstructorStub { rust_constructor_name, args }, next)),
            Err(unexpected) => Err(unexpected),
        }
    }
}

impl JavaFunctionStub {
    /// Reads `type identifier identifier? '(' ... ')'` at `start`.
    pub fn parse(tokens: &Vec<Token>, start: usize) -> (result: Result<
        (JavaFunctionStub, usize),
        Unexpected,
    >)
        ensures
            outcome(result) == function_stub(toks(tokens@), start as int),
    {
        proof {
            lemma_toks_len(tokens);
        }
        let (return_type, next) = match JavaType::parse(tokens, start) {
            Ok(read) => read,
            Err(unexpected) => {
                return Err(unexpected);
            },
        };
        proof {
            lemma_java_type_advances(toks(tokens@), start as int);
        }
        let rust_name = match word(tokens, next) {
            Some(name) => name,
            None => {
                return Err(Unexpected { index: next });
            },
        };
        let java_name = word(tokens, next + 1);
        let open = if java_name.is_some() {
            next + 2
        } else {
            next + 1
        };
        match parse_arguments(tokens, open) {
            Ok((args, end)) => Ok(
                (JavaFunctionStub { return_type, rust_name, java_name, args }, end),
            ),
            Err(unexpected) => Err(unexpected),
        }
    }
}

impl JavaStub {
    /// Reads a constructor stub where an opening parenthesis follows the
    /// first token, and a method stub elsewhere.
    pub fn parse(tokens: &Vec<Token>, start: usize) -> (result: Result<
        (JavaStub, usize),
        Unexpected,
    >)
        ensures
            outcome(result) == stub(toks(tokens@), start as int),
    {
        proof {
            lemma_toks_len(tokens);
        }
        if start < tokens.len() && is_punct(tokens, start + 1, Punct::OpenParen) {
            match JavaConstructorStub::parse(tokens, start) {
                Ok((read, next)) => Ok((JavaStub::JavaConstructorStub(read), next)),
                Err(unexpected) => Err(unexpected),
            }
        } else {
            match JavaFunctionStub::parse(tokens, start) {
                Ok((read, next)) => Ok((JavaStub::JavaFunctionStub(read), next)),
                Err(unexpected) => Err(unexpected),
            }
        }
    }
}

impl AngleBracketGenerics {
    /// Reads `'<' type (',' type)* '>'` at `start`.
    pub fn parse(tokens: &Vec<Token>, start: usize) -> (result: Result<
        (AngleBracketGenerics, usize),
        Unexpected,
    >)
        ensures
            outcome(result) == angle_bracket_generics(toks(tokens@), start as int),
    {
        proof {
            lemma_toks_len(tokens);
        }
        if !is_punct(tokens, start, Punct::Less) {
            return Err(Unexpected { index: start });
        }
        let mut args: Vec<JavaType> = Vec::new();
        proof {
            lemma_views_empty::<JavaType>();
        }
        let mut i = start + 1;
        loop
            invariant
                i <= tokens.len(),
                angle_bracket_generics(toks(tokens@), start as int) == generic_types(
                    toks(tokens@),
                    i as int,
                    views(args@),
                ),
            decreases tokens.len() - i,
        {
            match JavaType::parse(tokens, i) {
                Err(unexpected) => {
                    return Err(unexpected);
                },
                Ok((ty, next)) => {
                    proof {
                        lemma_java_type_advances(toks(tokens@), i as int);
                        lemma_views_push(args@, ty);
                    }
                    args.push(ty);
                    if is_punct(tokens, next, Punct::Greater) {
                        return Ok((AngleBracketGenerics { args }, next + 1));
                    } else if is_punct(tokens, next, Punct::Comma) {
                        i = next + 1;
                    } else {
                        return Err(Unexpected { index: next });
                    }
                },
            }
        }
    }
}

impl JavaQualifiedConstructorStub {
    /// Reads `qualified-name ('<' type (',' type)* '>')? identifier '(' ... ')'`
    /// at `start`.
    pub fn parse(tokens: &Vec<Token>, start: usize) -> (result: Result<
        (JavaQualifiedConstructorStub, usize),
        Unexpected,
    >)
        ensures
            outcome(result) == qualified_constructor_stub(toks(tokens@), start as int),
    {
        proof {
            lemma_toks_len(tokens);
        }
        let (fully_qualified_type_name, next) = match QualifiedName::parse(tokens, start) {
            Ok(read) => read,
            Err(unexpected) => {
                return Err(unexpected);
            },
        };
        proof {
            lemma_qualified_name_advances(toks(tokens@), start as int);
        }
        let mut generics: Option<AngleBracketGenerics> = None;
        let mut behind = next;
        if is_punct(tokens, next, Punct::Less) {
            match AngleBracketGenerics::parse(tokens, next) {
                Ok((read, after)) => {
                    proof {
                        lemma_generic_types_advance(
                            toks(tokens@),
                            next as int + 1,
                            Seq::empty(),
                        );
                    }
                    generics = Some(read);
                    behind = after;
                },
                Err(unexpected) => {
                    return Err(unexpected);
                },
            }
        }
        let rust_constructor_name = match word(tokens, behind) {
            Some(name) => name,
            None => {
                return Err(Unexpected { index: behind });
            },
        };
        match parse_arguments(tokens, behind + 1) {
            Ok((args, end)) => Ok(
                (
                    JavaQualifiedConstructorStub {
                        fully_qualified_type_name,
                        rust_constructor_name,
                        generics,
                        args,
                    },
                    end,
                ),
            ),
            Err(unexpected) => Err(unexpected),
        }
    }
}

impl GenericParameters {
    /// Reads `'<' identifier (',' identifier)* '>'` at `start`.
    pub fn parse(tokens: &Vec<Token>, start: usize) -> (result: Result<
        (GenericParameters, usize),
        Unexpected,
    >)
        ensures
            outcome(result) == generic_parameters(toks(tokens@), start as int),
    {
        proof {
            lemma_toks_len(tokens);
        }
        if !is_punct(tokens, start, Punct::Less) {
            return Err(Unexpected { index: start });
        }
        let mut names: Vec<String> = Vec::new();
        proof {
            lemma_views_empty::<String>();
        }
        let mut i = start + 1;
        loop
            invariant
                i <= tokens.len(),
                generic_parameters(toks(tokens@), start as int) == generic_names(
                    toks(tokens@),
                    i as int,
                    views(names@),
                ),
            decreases tokens.len() - i,
        {
            match word(tokens, i) {
                None => {
                    return Err(Unexpected { index: i });
                },
                Some(name) => {
                    proof {
                        lemma_views_push(names@, name);
                    }
                    names.push(name);
                    if is_punct(tokens, i + 1, Punct::Greater) {
                        return Ok((GenericParameters { names }, i + 2));
                    } else if is_punct(tokens, i + 1, Punct::Comma) {
                        i = i + 2;
                    } else {
                        return Err(Unexpected { index: i + 1 });
                    }
                },
            }
        }
    }
}

/// Reads `stub (';' stub)* ';'? '}'` at `start`.
pub fn parse_class_stubs(tokens: &Vec<Token>, start: usize) -> (result: Result<
    (Vec<JavaStub>, usize),
    Unexpected,
>)
    ensures
        outcome_of_list(result) == class_stubs(toks(tokens@), start as int, Seq::empty()),
{
    proof {
        lemma_toks_len(tokens);
    }
    let mut stubs: Vec<JavaStub> = Vec::new();
    proof {
        lemma_views_empty::<JavaStub>();
    }
    let mut i = start;
    loop
        invariant
            i <= tokens.len() || i == start,
            class_stubs(toks(tokens@), start as int, Seq::empty()) == class_stubs(
                toks(tokens@),
                i as int,
                views(stubs@),
            ),
        decreases tokens.len() - i,
    {
        match JavaStub::parse(tokens, i) {
            Err(unexpected) => {
                return Err(unexpected);
            },
            Ok((read, next)) => {
                proof {
                    lemma_stub_advances(toks(tokens@), i as int);
                    lemma_views_push(stubs@, read);
                }
                stubs.push(read);
                if is_punct(tokens, next, Punct::CloseBrace) {
                    return Ok((stubs, next + 1));
                } else if is_punct(tokens, next, Punct::Semicolon) {
                    if is_punct(tokens, next + 1, Punct::CloseBrace) {
                        return Ok((stubs, next + 2));
                    }
                    i = next + 1;
                } else {
                    return Err(Unexpected { index: next });
                }
            },
        }
    }
}

impl Class {
    /// Reads a whole input as one class declaration.
    ///
    /// It succeeds exactly on the inputs that `class_declaration` accepts,
    /// with the class that it describes. Elsewhere the error holds the
    /// position of the first token that cannot stand where it does.
    pub fn parse(tokens: &Vec<Token>) -> (result: Result<Class, Unexpected>)
        ensures
            match result {
                Ok(class) => class_declaration(toks(tokens@)) == Ok::<ClassView, int>(class@),
                Err(unexpected) => class_declaration(toks(tokens@)) == Err::<ClassView, int>(
                    unexpected.index as int,
                ),
            },
    {
        proof {
            lemma_toks_len(tokens);
        }
        let (qualified_name, next) = match QualifiedName::parse(tokens, 0) {
            Ok(read) => read,
            Err(unexpected) => {
                return Err(unexpected);
            },
        };
        proof {
            lemma_qualified_name_advances(toks(tokens@), 0);
        }
        let mut generics: Option<GenericParameters> = None;
        let mut behind = next;
        if is_punct(tokens, next, Punct::Less) {
            match GenericParameters::parse(tokens, next) {
                Ok((read, after)) => {
                    proof {
                        lemma_generic_names_advance(toks(tokens@), next as int + 1, Seq::empty());
                    }
                    generics = Some(read);
                    behind = after;
                },
                Err(unexpected) => {
                    return Err(unexpected);
                },
            }
        }
        if !is_punct(tokens, behind, Punct::OpenBrace) {
            return Err(Unexpected { index: behind });
        }
        let (stubs, end) = match parse_class_stubs(tokens, behind + 1) {
            Ok(read) => read,
            Err(unexpected) => {
                return Err(unexpected);
            },
        };
        proof {
            lemma_class_stubs_advance(toks(tokens@), behind as int + 1, Seq::empty());
        }
        if end == tokens.len() {
            Ok(Class { qualified_name, generics, stubs })
        } else {
            Err(Unexpected { index: end })
        }
    }
}

/// What a parser of a whole input returned, in the terms of the grammar.
pub open spec fn whole<T: View>(result: Result<Vec<T>, Unexpected>) -> Result<Seq<T::V>, int> {
    match result {
        Ok(value) => Ok(views(value@)),
        Err(unexpected) => Err(unexpected.index as int),
    }
}

/// Reads a whole input as method stubs, with `;` between them and, if one
/// likes, behind the last.
pub fn parse_method_stubs(tokens: &Vec<Token>) -> (result: Result<
    Vec<JavaFunctionStub>,
    Unexpected,
>)
    ensures
        whole(result) == method_stubs(toks(tokens@), 0, Seq::empty()),
{
    proof {
        lemma_toks_len(tokens);
    }
    let mut stubs: Vec<JavaFunctionStub> = Vec::new();
    proof {
        lemma_views_empty::<JavaFunctionStub>();
    }
    let mut i: usize = 0;
    while i < tokens.len()
        invariant
            i <= tokens.len(),
            method_stubs(toks(tokens@), 0, Seq::empty()) == method_stubs(
                toks(tokens@),
                i as int,
                views(stubs@),
            ),
        decreases tokens.len() - i,
    {
        match JavaFunctionStub::parse(tokens, i) {
            Err(unexpected) => {
                return Err(unexpected);
            },
            Ok((read, next)) => {
                proof {
                    lemma_function_stub_advances(toks(tokens@), i as int);
                    lemma_views_push(stubs@, read);
                }
                stubs.push(read);
                if next >= tokens.len() {
                    return Ok(stubs);
                } else if is_punct(tokens, next, Punct::Semicolon) {
                    i = next + 1;
                } else {
                    return Err(Unexpected { index: next });
                }
            },
        }
    }
    Ok(stubs)
}

/// Reads a whole input as qualified constructor stubs, with `;` between
/// them and, if one likes, behind the last.
pub fn parse_constructor_stubs(tokens: &Vec<Token>) -> (result: Result<
    Vec<JavaQualifiedConstructorStub>,
    Unexpected,
>)
    ensures
        whole(result) == constructor_stubs(toks(tokens@), 0, Seq::empty()),
{
    proof {
        lemma_toks_len(tokens);
    }
    let mut stubs: Vec<JavaQualifiedConstructorStub> = Vec::new();
    proof {
        lemma_views_empty::<JavaQualifiedConstructorStub>();
    }
    let mut i: usize = 0;
    while i < tokens.len()
        invariant
            i <= tokens.len(),
            constructor_stubs(toks(tokens@), 0, Seq::empty()) == constructor_stubs(
                toks(tokens@),
                i as int,
                views(stubs@),
            ),
        decreases tokens.len() - i,
    {
        match JavaQualifiedConstructorStub::parse(tokens, i) {
            Err(unexpected) => {
                return Err(unexpected);
            },
            Ok((read, next)) => {
                proof {
                    lemma_qualified_constructor_stub_advances(toks(tokens@), i as int);
                    lemma_views_push(stubs@, read);
                }
                stubs.push(read);
                if next >= tokens.len() {
                    return Ok(stubs);
                } else if is_punct(tokens, next, Punct::Semicolon) {
                    i = next + 1;
                } else {
                    return Err(Unexpected { index: next });
                }
            },
        }
    }
    Ok(stubs)
}

} // verus!
