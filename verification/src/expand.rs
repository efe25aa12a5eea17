//! From stub text to the text of the bindings.
use vstd::prelude::*;
use vstd::string::*;
use crate::aggregate::{aggregate_of, quote_class, render_aggregate};
use crate::binding::render;
use crate::generator::{
    method_binding, qualified_constructor_binding, quote_function_stub,
    quote_qualified_constructor_stub,
};
use crate::grammar::{class_declaration, constructor_stubs, method_stubs};
use crate::lexer::{
    first_refused_word, holds_words, host_identifier, law_scan_reads_written, lexes,
    lexical_error, scan_text, tokenize, words_are_identifiers, written, Lexed, Scan, SyntaxError,
};
use crate::notation::{
    class_tokens, class_written, constructors_tokens, constructors_written, law_class_was_written,
    law_constructors_grammar, law_methods_grammar, law_reads_class, methods_tokens,
    methods_written,
};
use crate::parser::{parse_constructor_stubs, parse_method_stubs, Unexpected};
use crate::stub::{views, Class, ClassView, FunctionStubView, QualifiedConstructorStubView};
use crate::text::{join, join_texts};
use crate::token::{toks, Tok, Token};

verus! {

/// The text of the owning type of the class that `tokens` declare, or the
/// position of the offending token.
pub open spec fn class_expansion(tokens: Seq<Tok>) -> Result<Seq<char>, int> {
    match class_declaration(tokens) {
        Ok(class) => Ok(render_aggregate(aggregate_of(class))),
        Err(at) => Err(at),
    }
}

/// The bindings of method stubs, one on each line.
pub open spec fn methods_text(stubs: Seq<FunctionStubView>) -> Seq<char> {
    join(stubs.map_values(|stub: FunctionStubView| render(method_binding(stub))), "\n"@)
}

/// The text of the bindings of the method stubs that `tokens` hold, or the
/// position of the offending token.
pub open spec fn method_expansion(tokens: Seq<Tok>) -> Result<Seq<char>, int> {
    match method_stubs(tokens, 0, Seq::empty()) {
        Ok(stubs) => Ok(methods_text(stubs)),
        Err(at) => Err(at),
    }
}

/// The bindings of qualified constructor stubs, one on each line.
pub open spec fn constructors_text(stubs: Seq<QualifiedConstructorStubView>) -> Seq<char> {
    join(
        stubs.map_values(
            |stub: QualifiedConstructorStubView| render(qualified_constructor_binding(stub)),
        ),
        "\n"@,
    )
}

/// The text of the bindings of the qualified constructor stubs that `tokens`
/// hold, or the position of the offending token.
pub open spec fn constructor_expansion(tokens: Seq<Tok>) -> Result<Seq<char>, int> {
    match constructor_stubs(tokens, 0, Seq::empty()) {
        Ok(stubs) => Ok(constructors_text(stubs)),
        Err(at) => Err(at),
    }
}

/// What an expansion from tokens returned, in the terms of the grammar.
pub open spec fn expanded(result: Result<String, Unexpected>) -> Result<Seq<char>, int> {
    match result {
        Ok(text) => Ok(text@),
        Err(unexpected) => Err(unexpected.index as int),
    }
}

/// What an expansion from text returned, with the text by its characters.
pub open spec fn generated(result: Result<String, SyntaxError>) -> Result<Seq<char>, SyntaxError> {
    match result {
        Ok(text) => Ok(text@),
        Err(error) => Err(error),
    }
}

/// Whether `error` points at the token at position `at`: by the offset at
/// which that token begins, or as the end of the text where `at` lies behind
/// the last token.
pub open spec fn reports(scan: Scan, at: int, error: SyntaxError) -> bool {
    if 0 <= at < scan.offsets.len() {
        error matches SyntaxError::UnexpectedToken { offset } && offset == scan.offsets[at]
    } else {
        error == SyntaxError::UnexpectedEnd
    }
}

/// What expanding `text` comes to, where `expansion` says what its tokens
/// come to: the generated text exactly where the text lexes and its tokens
/// are accepted, and elsewhere the one error that says why not.
pub open spec fn outcome_of(
    text: Seq<char>,
    expansion: spec_fn(Seq<Tok>) -> Result<Seq<char>, int>,
    result: Result<Seq<char>, SyntaxError>,
) -> bool {
    match result {
        Ok(out) => lexes(text) && expansion(scan_text(text)->Ok_0.tokens) == Ok::<Seq<char>, int>(
            out,
        ),
        Err(error) => {
            ||| lexical_error(text, error)
            ||| {
                &&& lexes(text)
                &&& expansion(scan_text(text)->Ok_0.tokens) is Err
                &&& reports(
                    scan_text(text)->Ok_0,
                    expansion(scan_text(text)->Ok_0.tokens)->Err_0,
                    error,
                )
            }
        },
    }
}

/// What generating the bindings of a class from `text` comes to.
pub open spec fn class_outcome(text: Seq<char>, result: Result<Seq<char>, SyntaxError>) -> bool {
    outcome_of(text, |tokens: Seq<Tok>| class_expansion(tokens), result)
}

/// What generating the bindings of method stubs from `text` comes to.
pub open spec fn methods_outcome(text: Seq<char>, result: Result<Seq<char>, SyntaxError>) -> bool {
    outcome_of(text, |tokens: Seq<Tok>| method_expansion(tokens), result)
}

/// What generating the bindings of qualified constructor stubs from `text`
/// comes to.
pub open spec fn constructors_outcome(
    text: Seq<char>,
    result: Result<Seq<char>, SyntaxError>,
) -> bool {
    outcome_of(text, |tokens: Seq<Tok>| constructor_expansion(tokens), result)
}

/// A text whose tokens are a class written out has the bindings of that
/// class generated from it.
pub proof fn law_written_class_is_generated(text: Seq<char>, class: ClassView, closed: bool)
    requires
        lexes(text),
        class_written(class),
        scan_text(text)->Ok_0.tokens == class_tokens(class, closed),
    ensures
        class_outcome(text, Ok(render_aggregate(aggregate_of(class)))),
{
    law_reads_class(class, closed);
}

/// A class that is written out as text, with a blank behind every token,
/// has its bindings generated from that text, wherever its words are words
/// that the host takes for identifiers.
pub proof fn law_class_round_trip(class: ClassView, closed: bool)
    requires
        class_written(class),
        holds_words(class_tokens(class, closed)),
        words_are_identifiers(
            class_tokens(class, closed),
            class_tokens(class, closed).len() as int,
        ),
    ensures
        class_outcome(
            written(class_tokens(class, closed)),
            Ok(render_aggregate(aggregate_of(class))),
        ),
{
    law_scan_reads_written(class_tokens(class, closed));
    law_written_class_is_generated(written(class_tokens(class, closed)), class, closed);
}

/// Bindings are generated only from a text whose tokens are a class written
/// out, without a semicolon behind the last stub or with one, and they are
/// the bindings of that class.
pub proof fn law_generated_class_was_written(text: Seq<char>, generated: Seq<char>)
    requires
        class_outcome(text, Ok(generated)),
    ensures
        lexes(text),
        class_declaration(scan_text(text)->Ok_0.tokens) is Ok,
        class_written(class_declaration(scan_text(text)->Ok_0.tokens)->Ok_0),
        scan_text(text)->Ok_0.tokens == class_tokens(
            class_declaration(scan_text(text)->Ok_0.tokens)->Ok_0,
            false,
        ) || scan_text(text)->Ok_0.tokens == class_tokens(
            class_declaration(scan_text(text)->Ok_0.tokens)->Ok_0,
            true,
        ),
        generated == render_aggregate(
            aggregate_of(class_declaration(scan_text(text)->Ok_0.tokens)->Ok_0),
        ),
{
    law_class_was_written(scan_text(text)->Ok_0.tokens);
}

/// A text whose tokens are method stubs written out has the bindings of
/// those stubs generated from it, one on each line.
pub proof fn law_written_methods_are_generated(
    text: Seq<char>,
    stubs: Seq<FunctionStubView>,
    closed: bool,
)
    requires
        lexes(text),
        methods_written(stubs),
        scan_text(text)->Ok_0.tokens == methods_tokens(stubs, closed),
    ensures
        methods_outcome(text, Ok(methods_text(stubs))),
{
    law_methods_grammar(scan_text(text)->Ok_0.tokens, stubs);
}

/// A text whose tokens are qualified constructor stubs written out has the
/// bindings of those stubs generated from it, one on each line.
pub proof fn law_written_constructors_are_generated(
    text: Seq<char>,
    stubs: Seq<QualifiedConstructorStubView>,
    closed: bool,
)
    requires
        lexes(text),
        constructors_written(stubs),
        scan_text(text)->Ok_0.tokens == constructors_tokens(stubs, closed),
    ensures
        constructors_outcome(text, Ok(constructors_text(stubs))),
{
    law_constructors_grammar(scan_text(text)->Ok_0.tokens, stubs);
}

/// Generating the bindings of a class is a function of the text: whenever
/// it is done twice on the same text, the two outcomes are the same, be they
/// generated text or an error.
pub proof fn law_class_is_deterministic(
    text: Seq<char>,
    first: Result<Seq<char>, SyntaxError>,
    second: Result<Seq<char>, SyntaxError>,
)
    requires
        class_outcome(text, first),
        class_outcome(text, second),
    ensures
        first == second,
{
    law_expansion_is_deterministic(
        text,
        |tokens: Seq<Tok>| class_expansion(tokens),
        first,
        second,
    );
}

/// Generating the bindings of method stubs is a function of the text.
pub proof fn law_methods_are_deterministic(
    text: Seq<char>,
    first: Result<Seq<char>, SyntaxError>,
    second: Result<Seq<char>, SyntaxError>,
)
    requires
        methods_outcome(text, first),
        methods_outcome(text, second),
    ensures
        first == second,
{
    law_expansion_is_deterministic(
        text,
        |tokens: Seq<Tok>| method_expansion(tokens),
        first,
        second,
    );
}

/// Generating the bindings of qualified constructor stubs is a function
/// of the text.
pub proof fn law_constructors_are_deterministic(
    text: Seq<char>,
    first: Result<Seq<char>, SyntaxError>,
    second: Result<Seq<char>, SyntaxError>,
)
    requires
        constructors_outcome(text, first),
        constructors_outcome(text, second),
    ensures
        first == second,
{
    law_expansion_is_deterministic(
        text,
        |tokens: Seq<Tok>| constructor_expansion(tokens),
        first,
        second,
    );
}

/// The outcome of an expansion is a function of the text: two outcomes of
/// the same text are the same, be they generated text or an error.
pub proof fn law_expansion_is_deterministic(
    text: Seq<char>,
    expansion: spec_fn(Seq<Tok>) -> Result<Seq<char>, int>,
    first: Result<Seq<char>, SyntaxError>,
    second: Result<Seq<char>, SyntaxError>,
)
    requires
        outcome_of(text, expansion, first),
        outcome_of(text, expansion, second),
    ensures
        first == second,
{
    if let Ok(scan) = scan_text(text) {
        assert forall|a: int, b: int|
            first_refused_word(scan.tokens, a) && first_refused_word(scan.tokens, b) implies a
            == b by {
            if a < b {
                assert(host_identifier(scan.tokens[a]->Word_0));
            }
            if b < a {
                assert(host_identifier(scan.tokens[b]->Word_0));
            }
        }
        assert forall|a: int| first_refused_word(scan.tokens, a) implies !lexes(text) by {
            if lexes(text) {
                assert(host_identifier(scan.tokens[a]->Word_0));
            }
        }
    }
}

/// Turns the position of a token into the error that points at it.
pub fn locate(lexed: &Lexed, unexpected: Unexpected) -> (error: SyntaxError)
    ensures
        reports(lexed@, unexpected.index as int, error),
{
    if unexpected.index < lexed.offsets.len() {
        SyntaxError::UnexpectedToken { offset: lexed.offsets[unexpected.index] }
    } else {
        SyntaxError::UnexpectedEnd
    }
}

/// The text of the owning type of the class that `tokens` declare.
///
/// It succeeds exactly where the tokens are one class declaration; elsewhere
/// the error holds the position of the first token that cannot stand where
/// it does.
pub fn class_from_tokens(tokens: &Vec<Token>) -> (result: Result<String, Unexpected>)
    ensures
        expanded(result) == class_expansion(toks(tokens@)),
{
    match Class::parse(tokens) {
        Ok(class) => Ok(quote_class(&class).render()),
        Err(unexpected) => Err(unexpected),
    }
}

/// The text of the bindings of the method stubs that `tokens` hold, one on
/// each line.
pub fn java_method_from_tokens(tokens: &Vec<Token>) -> (result: Result<String, Unexpected>)
    ensures
        expanded(result) == method_expansion(toks(tokens@)),
{
    let stubs = match parse_method_stubs(tokens) {
        Ok(stubs) => stubs,
        Err(unexpected) => {
            return Err(unexpected);
        },
    };
    let mut functions: Vec<String> = Vec::new();
    let mut i: usize = 0;
    while i < stubs.len()
        invariant
            i <= stubs.len(),
            functions.len() == i,
            forall|k: int|
                0 <= k < i ==> (#[trigger] functions[k])@ == render(method_binding(stubs[k]@)),
        decreases stubs.len() - i,
    {
        functions.push(quote_function_stub(&stubs[i]).render());
        i = i + 1;
    }
    assert(views(functions@) =~= views(stubs@).map_values(
        |stub: FunctionStubView| render(method_binding(stub)),
    ));
    Ok(join_texts(&functions, "\n"))
}

/// The text of the bindings of the qualified constructor stubs that `tokens`
/// hold, one on each line.
pub fn java_constructor_from_tokens(tokens: &Vec<Token>) -> (result: Result<String, Unexpected>)
    ensures
        expanded(result) == constructor_expansion(toks(tokens@)),
{
    let stubs = match parse_constructor_stubs(tokens) {
        Ok(stubs) => stubs,
        Err(unexpected) => {
            return Err(unexpected);
        },
    };
    let mut functions: Vec<String> = Vec::new();
    let mut i: usize = 0;
    while i < stubs.len()
        invariant
            i <= stubs.len(),
            functions.len() == i,
            forall|k: int|
                0 <= k < i ==> (#[trigger] functions[k])@ == render(
                    qualified_constructor_binding(stubs[k]@),
                ),
        decreases stubs.len() - i,
    {
        functions.push(quote_qualified_constructor_stub(&stubs[i]).render());
        i = i + 1;
    }
    assert(views(functions@) =~= views(stubs@).map_values(
        |stub: QualifiedConstructorStubView| render(qualified_constructor_binding(stub)),
    ));
    Ok(join_texts(&functions, "\n"))
}

/// Generates the bindings of a class from the text of its declaration:
/// `qualified.Name<Generics> { stub; stub; ... }`.
///
/// The result is the text of the owning type with its bindings exactly where
/// the text is a class declaration. Elsewhere nothing is generated, and the
/// error points at the first character that belongs to no token, at the first
/// word that is no identifier of the host, or at the first token that cannot
/// stand where it does.
pub fn class(input: &str) -> (result: Result<String, SyntaxError>)
    ensures
        class_outcome(input@, generated(result)),
{
    let lexed = match tokenize(input) {
        Ok(lexed) => lexed,
        Err(error) => {
            return Err(error);
        },
    };
    match class_from_tokens(&lexed.tokens) {
        Ok(text) => Ok(text),
        Err(unexpected) => Err(locate(&lexed, unexpected)),
    }
}

/// Generates the bindings of the method stubs in `input`:
/// `type name foreign_name(type name, ...); ...`.
///
/// The result holds one binding function on each line exactly where the text
/// is a sequence of method stubs. Elsewhere nothing is generated, and the
/// error points at what is wrong as that of `class` does.
pub fn java_method(input: &str) -> (result: Result<String, SyntaxError>)
    ensures
        methods_outcome(input@, generated(result)),
{
    let lexed = match tokenize(input) {
        Ok(lexed) => lexed,
        Err(error) => {
            return Err(error);
        },
    };
    match java_method_from_tokens(&lexed.tokens) {
        Ok(text) => Ok(text),
        Err(unexpected) => Err(locate(&lexed, unexpected)),
    }
}

/// Generates the bindings of the qualified constructor stubs in `input`:
/// `qualified.Name<Generics> name(type name, ...); ...`.
///
/// The result holds one binding function on each line exactly where the text
/// is a sequence of such stubs. Elsewhere nothing is generated, and the error
/// points at what is wrong as that of `class` does.
pub fn java_constructor(input: &str) -> (result: Result<String, SyntaxError>)
    ensures
        constructors_outcome(input@, generated(result)),
{
    let lexed = match tokenize(input) {
        Ok(lexed) => lexed,
        Err(error) => {
            return Err(error);
        },
    };
    match java_constructor_from_tokens(&lexed.tokens) {
        Ok(text) => Ok(text),
        Err(unexpected) => Err(locate(&lexed, unexpected)),
    }
}

} // verus!
