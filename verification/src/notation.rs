//! How stubs are written, and that the grammar reads what is written and
//! nothing else.
//!
//! The functions of this module write a stub as tokens. The laws say that
//! the grammar reads every stub so written as the stub it was written from,
//! wherever it stands among other tokens, and that whatever the grammar
//! reads was so written.
use vstd::prelude::*;
use crate::grammar::{
    arguments, class_declaration, class_stubs, constructor_stub, constructor_stubs, declarations,
    function_stub, generic_names, generic_types, java_type, method_stubs,
    qualified_constructor_stub, qualified_name, qualified_rest, stub, typed_declaration, Parse,
};
use crate::stub::{
    ClassView, ConstructorStubView, DeclarationView, FunctionStubView, JavaTypeView,
    QualifiedConstructorStubView, StubView,
};
use crate::token::{punct_at, word_at, Punct, Tok};

verus! {

/// Whether `ts` holds the tokens of `written` from position `i` on.
pub open spec fn holds(ts: Seq<Tok>, i: int, written: Seq<Tok>) -> bool {
    &&& 0 <= i
    &&& i + written.len() <= ts.len()
    &&& ts.subrange(i, i + written.len()) == written
}

/// One punctuation token.
pub open spec fn mark(punct: Punct) -> Seq<Tok> {
    seq![Tok::Punct(punct)]
}

/// One word.
pub open spec fn name(word: Seq<char>) -> Seq<Tok> {
    seq![Tok::Word(word)]
}

/// `('.' identifier)*`
pub open spec fn segments_behind(rest: Seq<Seq<char>>) -> Seq<Tok>
    decreases rest.len(),
{
    if rest.len() == 0 {
        Seq::empty()
    } else {
        mark(Punct::Dot) + name(rest[0]) + segments_behind(rest.drop_first())
    }
}

/// A qualified name: its segments with dots between them.
pub open spec fn name_tokens(segments: Seq<Seq<char>>) -> Seq<Tok> {
    name(segments[0]) + segments_behind(segments.drop_first())
}

/// A type: its name, and `[]` behind it for an array.
pub open spec fn type_tokens(ty: JavaTypeView) -> Seq<Tok> {
    if ty.array {
        name_tokens(ty.name) + mark(Punct::OpenBracket) + mark(Punct::CloseBracket)
    } else {
        name_tokens(ty.name)
    }
}

/// A typed declaration: the type, then the name.
pub open spec fn declaration_tokens(declaration: DeclarationView) -> Seq<Tok> {
    type_tokens(declaration.ty) + name(declaration.name)
}

/// One or more declarations with commas between them, and the closing
/// parenthesis.
pub open spec fn declarations_tokens(args: Seq<DeclarationView>) -> Seq<Tok>
    decreases args.len(),
{
    if args.len() == 0 {
        Seq::empty()
    } else if args.len() == 1 {
        declaration_tokens(args[0]) + mark(Punct::CloseParen)
    } else {
        declaration_tokens(args[0]) + mark(Punct::Comma) + declarations_tokens(args.drop_first())
    }
}

/// The parameters of a stub between parentheses.
pub open spec fn arguments_tokens(args: Seq<DeclarationView>) -> Seq<Tok> {
    if args.len() == 0 {
        mark(Punct::OpenParen) + mark(Punct::CloseParen)
    } else {
        mark(Punct::OpenParen) + declarations_tokens(args)
    }
}

/// A constructor stub: the name of the binding and the parameters.
pub open spec fn constructor_tokens(stub: ConstructorStubView) -> Seq<Tok> {
    name(stub.rust_constructor_name) + arguments_tokens(stub.args)
}

/// A method stub: the return type, the name of the binding, the name of the
/// foreign method where there is one, and the parameters.
pub open spec fn function_tokens(stub: FunctionStubView) -> Seq<Tok> {
    match stub.java_name {
        Some(foreign) => type_tokens(stub.return_type) + name(stub.rust_name) + name(foreign)
            + arguments_tokens(stub.args),
        None => type_tokens(stub.return_type) + name(stub.rust_name) + arguments_tokens(stub.args),
    }
}

/// A stub of a class body.
pub open spec fn stub_tokens(stub: StubView) -> Seq<Tok> {
    match stub {
        StubView::Constructor(stub) => constructor_tokens(stub),
        StubView::Function(stub) => function_tokens(stub),
    }
}

/// One or more types with commas between them, and the closing `>`.
pub open spec fn types_tokens(types: Seq<JavaTypeView>) -> Seq<Tok>
    decreases types.len(),
{
    if types.len() == 0 {
        Seq::empty()
    } else if types.len() == 1 {
        type_tokens(types[0]) + mark(Punct::Greater)
    } else {
        type_tokens(types[0]) + mark(Punct::Comma) + types_tokens(types.drop_first())
    }
}

/// The generic arguments of a constructor stub, or nothing.
pub open spec fn generics_tokens(generics: Option<Seq<JavaTypeView>>) -> Seq<Tok> {
    match generics {
        Some(types) => mark(Punct::Less) + types_tokens(types),
        None => Seq::empty(),
    }
}

/// A constructor stub that names its type.
pub open spec fn qualified_constructor_tokens(stub: QualifiedConstructorStubView) -> Seq<Tok> {
    name_tokens(stub.fully_qualified_type_name) + generics_tokens(stub.generics) + name(
        stub.rust_constructor_name,
    ) + arguments_tokens(stub.args)
}

/// One or more identifiers with commas between them, and the closing `>`.
pub open spec fn names_tokens(names: Seq<Seq<char>>) -> Seq<Tok>
    decreases names.len(),
{
    if names.len() == 0 {
        Seq::empty()
    } else if names.len() == 1 {
        name(names[0]) + mark(Punct::Greater)
    } else {
        name(names[0]) + mark(Punct::Comma) + names_tokens(names.drop_first())
    }
}

/// The generic parameters of a class, or nothing.
pub open spec fn parameters_tokens(generics: Option<Seq<Seq<char>>>) -> Seq<Tok> {
    match generics {
        Some(names) => mark(Punct::Less) + names_tokens(names),
        None => Seq::empty(),
    }
}

/// One or more stubs with semicolons between them, a semicolon behind the
/// last where `closed` says so, and the closing brace.
pub open spec fn stubs_tokens(stubs: Seq<StubView>, closed: bool) -> Seq<Tok>
    decreases stubs.len(),
{
    if stubs.len() == 0 {
        Seq::empty()
    } else if stubs.len() == 1 {
        if closed {
            stub_tokens(stubs[0]) + mark(Punct::Semicolon) + mark(Punct::CloseBrace)
        } else {
            stub_tokens(stubs[0]) + mark(Punct::CloseBrace)
        }
    } else {
        stub_tokens(stubs[0]) + mark(Punct::Semicolon) + stubs_tokens(stubs.drop_first(), closed)
    }
}

/// A class declaration.
pub open spec fn class_tokens(class: ClassView, closed: bool) -> Seq<Tok> {
    name_tokens(class.qualified_name) + parameters_tokens(class.generics) + mark(Punct::OpenBrace)
        + stubs_tokens(class.stubs, closed)
}

/// Whether a type can be written: its name has a segment.
pub open spec fn type_written(ty: JavaTypeView) -> bool {
    ty.name.len() >= 1
}

/// Whether declarations can be written.
pub open spec fn declarations_written(args: Seq<DeclarationView>) -> bool {
    forall|k: int| 0 <= k < args.len() ==> type_written(#[trigger] args[k].ty)
}

/// Whether a method stub can be written.
pub open spec fn function_written(stub: FunctionStubView) -> bool {
    type_written(stub.return_type) && declarations_written(stub.args)
}

/// Whether a stub can be written.
pub open spec fn stub_written(stub: StubView) -> bool {
    match stub {
        StubView::Constructor(stub) => declarations_written(stub.args),
        StubView::Function(stub) => function_written(stub),
    }
}

/// Whether types can be written.
pub open spec fn types_written(types: Seq<JavaTypeView>) -> bool {
    forall|k: int| 0 <= k < types.len() ==> type_written(#[trigger] types[k])
}

/// Whether a qualified constructor stub can be written: its name has a
/// segment, and generics that are there hold at least one type.
pub open spec fn qualified_constructor_written(stub: QualifiedConstructorStubView) -> bool {
    &&& stub.fully_qualified_type_name.len() >= 1
    &&& stub.generics matches Some(types) ==> types.len() >= 1 && types_written(types)
    &&& declarations_written(stub.args)
}

/// Whether a class can be written: its name has a segment, generics that
/// are there hold at least one name, and the body holds at least one stub.
pub open spec fn class_written(class: ClassView) -> bool {
    &&& class.qualified_name.len() >= 1
    &&& class.generics matches Some(names) ==> names.len() >= 1
    &&& class.stubs.len() >= 1
    &&& forall|k: int| 0 <= k < class.stubs.len() ==> stub_written(#[trigger] class.stubs[k])
}

/// What holds of a whole holds of its two parts.
pub proof fn lemma_holds_parts(ts: Seq<Tok>, i: int, first: Seq<Tok>, second: Seq<Tok>)
    requires
        holds(ts, i, first + second),
    ensures
        holds(ts, i, first),
        holds(ts, i + first.len(), second),
{
    let whole = first + second;
    let end = i + whole.len();
    assert(ts.subrange(i, i + first.len()) =~= ts.subrange(i, end).subrange(0, first.len() as int));
    assert(whole.subrange(0, first.len() as int) =~= first);
    assert(ts.subrange(i + first.len(), end) =~= ts.subrange(i, end).subrange(
        first.len() as int,
        whole.len() as int,
    ));
    assert(whole.subrange(first.len() as int, whole.len() as int) =~= second);
}

/// A punctuation that is held stands at its position.
pub proof fn lemma_holds_mark(ts: Seq<Tok>, i: int, punct: Punct)
    requires
        holds(ts, i, mark(punct)),
    ensures
        punct_at(ts, i, punct),
{
    assert(ts.subrange(i, i + 1)[0] == ts[i]);
}

/// A word that is held stands at its position.
pub proof fn lemma_holds_name(ts: Seq<Tok>, i: int, word: Seq<char>)
    requires
        holds(ts, i, name(word)),
    ensures
        word_at(ts, i),
        ts[i] == Tok::Word(word),
{
    assert(ts.subrange(i, i + 1)[0] == ts[i]);
}

/// The segments behind the first are read as they were written.
pub proof fn lemma_reads_segments(
    ts: Seq<Tok>,
    i: int,
    found: Seq<Seq<char>>,
    rest: Seq<Seq<char>>,
)
    requires
        holds(ts, i, segments_behind(rest)),
        !punct_at(ts, i + segments_behind(rest).len(), Punct::Dot),
    ensures
        qualified_rest(ts, i, found) == (Parse::Accept {
            value: found + rest,
            next: i + segments_behind(rest).len(),
        }),
    decreases rest.len(),
{
    if rest.len() == 0 {
        assert(found + rest =~= found);
    } else {
        let tail = segments_behind(rest.drop_first());
        lemma_holds_parts(ts, i, mark(Punct::Dot) + name(rest[0]), tail);
        lemma_holds_parts(ts, i, mark(Punct::Dot), name(rest[0]));
        lemma_holds_mark(ts, i, Punct::Dot);
        lemma_holds_name(ts, i + 1, rest[0]);
        lemma_reads_segments(ts, i + 2, found.push(rest[0]), rest.drop_first());
        assert(found.push(rest[0]) + rest.drop_first() =~= found + rest);
    }
}

/// A qualified name is read as it was written, where no dot follows it.
pub proof fn law_reads_name(ts: Seq<Tok>, i: int, segments: Seq<Seq<char>>)
    requires
        segments.len() >= 1,
        holds(ts, i, name_tokens(segments)),
        !punct_at(ts, i + name_tokens(segments).len(), Punct::Dot),
    ensures
        qualified_name(ts, i) == (Parse::Accept {
            value: segments,
            next: i + name_tokens(segments).len(),
        }),
{
    lemma_holds_parts(ts, i, name(segments[0]), segments_behind(segments.drop_first()));
    lemma_holds_name(ts, i, segments[0]);
    lemma_reads_segments(ts, i + 1, seq![segments[0]], segments.drop_first());
    assert(seq![segments[0]] + segments.drop_first() =~= segments);
}

/// A type is read as it was written, where neither a dot nor an opening
/// bracket follows it.
pub proof fn law_reads_type(ts: Seq<Tok>, i: int, ty: JavaTypeView)
    requires
        type_written(ty),
        holds(ts, i, type_tokens(ty)),
        !punct_at(ts, i + type_tokens(ty).len(), Punct::Dot),
        !punct_at(ts, i + type_tokens(ty).len(), Punct::OpenBracket),
    ensures
        java_type(ts, i) == (Parse::Accept { value: ty, next: i + type_tokens(ty).len() }),
{
    let written = name_tokens(ty.name);
    if ty.array {
        lemma_holds_parts(ts, i, written + mark(Punct::OpenBracket), mark(Punct::CloseBracket));
        lemma_holds_parts(ts, i, written, mark(Punct::OpenBracket));
        lemma_holds_mark(ts, i + written.len(), Punct::OpenBracket);
        lemma_holds_mark(ts, i + written.len() + 1, Punct::CloseBracket);
        law_reads_name(ts, i, ty.name);
    } else {
        law_reads_name(ts, i, ty.name);
    }
}

/// A typed declaration is read as it was written.
pub proof fn law_reads_declaration(ts: Seq<Tok>, i: int, declaration: DeclarationView)
    requires
        type_written(declaration.ty),
        holds(ts, i, declaration_tokens(declaration)),
    ensures
        typed_declaration(ts, i) == (Parse::Accept {
            value: declaration,
            next: i + declaration_tokens(declaration).len(),
        }),
{
    let written = type_tokens(declaration.ty);
    lemma_holds_parts(ts, i, written, name(declaration.name));
    lemma_holds_name(ts, i + written.len(), declaration.name);
    law_reads_type(ts, i, declaration.ty);
}

/// Declarations are read as they were written, in their order.
pub proof fn lemma_reads_declarations(
    ts: Seq<Tok>,
    i: int,
    found: Seq<DeclarationView>,
    args: Seq<DeclarationView>,
)
    requires
        args.len() >= 1,
        declarations_written(args),
        holds(ts, i, declarations_tokens(args)),
    ensures
        declarations(ts, i, found) == (Parse::Accept {
            value: found + args,
            next: i + declarations_tokens(args).len(),
        }),
    decreases args.len(),
{
    let first = declaration_tokens(args[0]);
    if args.len() == 1 {
        lemma_holds_parts(ts, i, first, mark(Punct::CloseParen));
        lemma_holds_mark(ts, i + first.len(), Punct::CloseParen);
        law_reads_declaration(ts, i, args[0]);
        assert(found.push(args[0]) =~= found + args);
    } else {
        let rest = args.drop_first();
        lemma_holds_parts(ts, i, first + mark(Punct::Comma), declarations_tokens(rest));
        lemma_holds_parts(ts, i, first, mark(Punct::Comma));
        lemma_holds_mark(ts, i + first.len(), Punct::Comma);
        law_reads_declaration(ts, i, args[0]);
        assert(declarations_written(rest)) by {
            assert forall|k: int| 0 <= k < rest.len() implies type_written(
                #[trigger] rest[k].ty,
            ) by {
                assert(rest[k] == args[k + 1]);
            }
        }
        lemma_reads_declarations(ts, i + first.len() + 1, found.push(args[0]), rest);
        assert(found.push(args[0]) + rest =~= found + args);
    }
}

/// The parameters of a stub are read as they were written.
pub proof fn law_reads_arguments(ts: Seq<Tok>, i: int, args: Seq<DeclarationView>)
    requires
        declarations_written(args),
        holds(ts, i, arguments_tokens(args)),
    ensures
        arguments(ts, i) == (Parse::Accept { value: args, next: i + arguments_tokens(args).len() }),
{
    if args.len() == 0 {
        lemma_holds_parts(ts, i, mark(Punct::OpenParen), mark(Punct::CloseParen));
        lemma_holds_mark(ts, i, Punct::OpenParen);
        lemma_holds_mark(ts, i + 1, Punct::CloseParen);
        assert(args =~= Seq::empty());
    } else {
        lemma_holds_parts(ts, i, mark(Punct::OpenParen), declarations_tokens(args));
        lemma_holds_mark(ts, i, Punct::OpenParen);
        lemma_declaration_begins_with_word(ts, i + 1, args);
        lemma_reads_declarations(ts, i + 1, Seq::empty(), args);
        assert(Seq::<DeclarationView>::empty() + args =~= args);
    }
}

/// Written declarations begin with a word.
pub proof fn lemma_declaration_begins_with_word(ts: Seq<Tok>, i: int, args: Seq<DeclarationView>)
    requires
        args.len() >= 1,
        declarations_written(args),
        holds(ts, i, declarations_tokens(args)),
    ensures
        word_at(ts, i),
{
    let first = declaration_tokens(args[0]);
    if args.len() == 1 {
        lemma_holds_parts(ts, i, first, mark(Punct::CloseParen));
    } else {
        lemma_holds_parts(
            ts,
            i,
            first + mark(Punct::Comma),
            declarations_tokens(args.drop_first()),
        );
        lemma_holds_parts(ts, i, first, mark(Punct::Comma));
    }
    lemma_holds_parts(ts, i, type_tokens(args[0].ty), name(args[0].name));
    lemma_type_begins_with_word(ts, i, args[0].ty);
}

/// A written type begins with a word, and behind it stands a dot, an
/// opening bracket, or what follows the type.
pub proof fn lemma_type_begins_with_word(ts: Seq<Tok>, i: int, ty: JavaTypeView)
    requires
        type_written(ty),
        holds(ts, i, type_tokens(ty)),
    ensures
        word_at(ts, i),
        type_tokens(ty).len() >= 1,
        type_tokens(ty).len() > 1 ==> punct_at(ts, i + 1, Punct::Dot) || punct_at(
            ts,
            i + 1,
            Punct::OpenBracket,
        ),
{
    let written = name_tokens(ty.name);
    if ty.array {
        lemma_holds_parts(ts, i, written + mark(Punct::OpenBracket), mark(Punct::CloseBracket));
        lemma_holds_parts(ts, i, written, mark(Punct::OpenBracket));
        lemma_holds_mark(ts, i + written.len(), Punct::OpenBracket);
    }
    let behind = segments_behind(ty.name.drop_first());
    lemma_holds_parts(ts, i, name(ty.name[0]), behind);
    lemma_holds_name(ts, i, ty.name[0]);
    if ty.name.len() > 1 {
        let rest = ty.name.drop_first();
        lemma_holds_parts(
            ts,
            i + 1,
            mark(Punct::Dot) + name(rest[0]),
            segments_behind(rest.drop_first()),
        );
        lemma_holds_parts(ts, i + 1, mark(Punct::Dot), name(rest[0]));
        lemma_holds_mark(ts, i + 1, Punct::Dot);
    } else {
        assert(ty.name.drop_first().len() == 0);
        assert(behind.len() == 0);
    }
}

/// A constructor stub is read as it was written.
pub proof fn law_reads_constructor(ts: Seq<Tok>, i: int, written: ConstructorStubView)
    requires
        declarations_written(written.args),
        holds(ts, i, constructor_tokens(written)),
    ensures
        constructor_stub(ts, i) == (Parse::Accept {
            value: written,
            next: i + constructor_tokens(written).len(),
        }),
        punct_at(ts, i + 1, Punct::OpenParen),
{
    lemma_holds_parts(ts, i, name(written.rust_constructor_name), arguments_tokens(written.args));
    lemma_holds_name(ts, i, written.rust_constructor_name);
    law_reads_arguments(ts, i + 1, written.args);
    lemma_arguments_begin_with_parenthesis(ts, i + 1, written.args);
}

/// Written parameters begin with an opening parenthesis.
pub proof fn lemma_arguments_begin_with_parenthesis(
    ts: Seq<Tok>,
    i: int,
    args: Seq<DeclarationView>,
)
    requires
        holds(ts, i, arguments_tokens(args)),
    ensures
        punct_at(ts, i, Punct::OpenParen),
{
    if args.len() == 0 {
        lemma_holds_parts(ts, i, mark(Punct::OpenParen), mark(Punct::CloseParen));
    } else {
        lemma_holds_parts(ts, i, mark(Punct::OpenParen), declarations_tokens(args));
    }
    lemma_holds_mark(ts, i, Punct::OpenParen);
}

/// A method stub is read as it was written, and no opening parenthesis
/// stands behind its first token.
pub proof fn law_reads_function(ts: Seq<Tok>, i: int, written: FunctionStubView)
    requires
        function_written(written),
        holds(ts, i, function_tokens(written)),
    ensures
        function_stub(ts, i) == (Parse::Accept {
            value: written,
            next: i + function_tokens(written).len(),
        }),
        !punct_at(ts, i + 1, Punct::OpenParen),
{
    let ty = type_tokens(written.return_type);
    let binding = name(written.rust_name);
    let args = arguments_tokens(written.args);
    match written.java_name {
        Some(foreign) => {
            lemma_holds_parts(ts, i, ty + binding + name(foreign), args);
            lemma_holds_parts(ts, i, ty + binding, name(foreign));
            lemma_holds_parts(ts, i, ty, binding);
            lemma_holds_name(ts, i + ty.len(), written.rust_name);
            lemma_holds_name(ts, i + ty.len() + 1, foreign);
            law_reads_arguments(ts, i + ty.len() + 2, written.args);
        },
        None => {
            lemma_holds_parts(ts, i, ty + binding, args);
            lemma_holds_parts(ts, i, ty, binding);
            lemma_holds_name(ts, i + ty.len(), written.rust_name);
            lemma_arguments_begin_with_parenthesis(ts, i + ty.len() + 1, written.args);
            law_reads_arguments(ts, i + ty.len() + 1, written.args);
        },
    }
    lemma_type_begins_with_word(ts, i, written.return_type);
    law_reads_type(ts, i, written.return_type);
}

/// A stub of a class body is read as it was written.
pub proof fn law_reads_stub(ts: Seq<Tok>, i: int, written: StubView)
    requires
        stub_written(written),
        holds(ts, i, stub_tokens(written)),
    ensures
        stub(ts, i) == (Parse::Accept { value: written, next: i + stub_tokens(written).len() }),
{
    match written {
        StubView::Constructor(inner) => {
            law_reads_constructor(ts, i, inner);
        },
        StubView::Function(inner) => {
            law_reads_function(ts, i, inner);
        },
    }
}

/// The stubs of a class body are read as they were written, in their
/// order, with or without a semicolon behind the last.
pub proof fn lemma_reads_stubs(
    ts: Seq<Tok>,
    i: int,
    found: Seq<StubView>,
    stubs: Seq<StubView>,
    closed: bool,
)
    requires
        stubs.len() >= 1,
        forall|k: int| 0 <= k < stubs.len() ==> stub_written(#[trigger] stubs[k]),
        holds(ts, i, stubs_tokens(stubs, closed)),
    ensures
        class_stubs(ts, i, found) == (Parse::Accept {
            value: found + stubs,
            next: i + stubs_tokens(stubs, closed).len(),
        }),
    decreases stubs.len(),
{
    let first = stub_tokens(stubs[0]);
    if stubs.len() == 1 {
        if closed {
            lemma_holds_parts(ts, i, first + mark(Punct::Semicolon), mark(Punct::CloseBrace));
            lemma_holds_parts(ts, i, first, mark(Punct::Semicolon));
            lemma_holds_mark(ts, i + first.len(), Punct::Semicolon);
            lemma_holds_mark(ts, i + first.len() + 1, Punct::CloseBrace);
        } else {
            lemma_holds_parts(ts, i, first, mark(Punct::CloseBrace));
            lemma_holds_mark(ts, i + first.len(), Punct::CloseBrace);
        }
        law_reads_stub(ts, i, stubs[0]);
        assert(found.push(stubs[0]) =~= found + stubs);
    } else {
        let rest = stubs.drop_first();
        lemma_holds_parts(ts, i, first + mark(Punct::Semicolon), stubs_tokens(rest, closed));
        lemma_holds_parts(ts, i, first, mark(Punct::Semicolon));
        lemma_holds_mark(ts, i + first.len(), Punct::Semicolon);
        law_reads_stub(ts, i, stubs[0]);
        assert forall|k: int| 0 <= k < rest.len() implies stub_written(#[trigger] rest[k]) by {
            assert(rest[k] == stubs[k + 1]);
        }
        lemma_stubs_begin_with_word(ts, i + first.len() + 1, rest, closed);
        lemma_reads_stubs(ts, i + first.len() + 1, found.push(stubs[0]), rest, closed);
        assert(found.push(stubs[0]) + rest =~= found + stubs);
    }
}

/// Written stubs begin with a word.
pub proof fn lemma_stubs_begin_with_word(ts: Seq<Tok>, i: int, stubs: Seq<StubView>, closed: bool)
    requires
        stubs.len() >= 1,
        stub_written(stubs[0]),
        holds(ts, i, stubs_tokens(stubs, closed)),
    ensures
        word_at(ts, i),
{
    let first = stub_tokens(stubs[0]);
    if stubs.len() == 1 {
        if closed {
            lemma_holds_parts(ts, i, first + mark(Punct::Semicolon), mark(Punct::CloseBrace));
            lemma_holds_parts(ts, i, first, mark(Punct::Semicolon));
        } else {
            lemma_holds_parts(ts, i, first, mark(Punct::CloseBrace));
        }
    } else {
        lemma_holds_parts(
            ts,
            i,
            first + mark(Punct::Semicolon),
            stubs_tokens(stubs.drop_first(), closed),
        );
        lemma_holds_parts(ts, i, first, mark(Punct::Semicolon));
    }
    match stubs[0] {
        StubView::Constructor(inner) => {
            lemma_holds_parts(
                ts,
                i,
                name(inner.rust_constructor_name),
                arguments_tokens(inner.args),
            );
            lemma_holds_name(ts, i, inner.rust_constructor_name);
        },
        StubView::Function(inner) => {
            let ty = type_tokens(inner.return_type);
            match inner.java_name {
                Some(foreign) => {
                    lemma_holds_parts(
                        ts,
                        i,
                        ty + name(inner.rust_name) + name(foreign),
                        arguments_tokens(inner.args),
                    );
                    lemma_holds_parts(ts, i, ty + name(inner.rust_name), name(foreign));
                    lemma_holds_parts(ts, i, ty, name(inner.rust_name));
                },
                None => {
                    lemma_holds_parts(
                        ts,
                        i,
                        ty + name(inner.rust_name),
                        arguments_tokens(inner.args),
                    );
                    lemma_holds_parts(ts, i, ty, name(inner.rust_name));
                },
            }
            lemma_type_begins_with_word(ts, i, inner.return_type);
        },
    }
}

/// Generic types are read as they were written, in their order.
pub proof fn lemma_reads_types(
    ts: Seq<Tok>,
    i: int,
    found: Seq<JavaTypeView>,
    types: Seq<JavaTypeView>,
)
    requires
        types.len() >= 1,
        types_written(types),
        holds(ts, i, types_tokens(types)),
    ensures
        generic_types(ts, i, found) == (Parse::Accept {
            value: found + types,
            next: i + types_tokens(types).len(),
        }),
    decreases types.len(),
{
    let first = type_tokens(types[0]);
    if types.len() == 1 {
        lemma_holds_parts(ts, i, first, mark(Punct::Greater));
        lemma_holds_mark(ts, i + first.len(), Punct::Greater);
        law_reads_type(ts, i, types[0]);
        assert(found.push(types[0]) =~= found + types);
    } else {
        let rest = types.drop_first();
        lemma_holds_parts(ts, i, first + mark(Punct::Comma), types_tokens(rest));
        lemma_holds_parts(ts, i, first, mark(Punct::Comma));
        lemma_holds_mark(ts, i + first.len(), Punct::Comma);
        law_reads_type(ts, i, types[0]);
        assert(types_written(rest)) by {
            assert forall|k: int| 0 <= k < rest.len() implies type_written(#[trigger] rest[k]) by {
                assert(rest[k] == types[k + 1]);
            }
        }
        lemma_reads_types(ts, i + first.len() + 1, found.push(types[0]), rest);
        assert(found.push(types[0]) + rest =~= found + types);
    }
}

/// Generic names are read as they were written, in their order.
pub proof fn lemma_reads_names(
    ts: Seq<Tok>,
    i: int,
    found: Seq<Seq<char>>,
    names: Seq<Seq<char>>,
)
    requires
        names.len() >= 1,
        holds(ts, i, names_tokens(names)),
    ensures
        generic_names(ts, i, found) == (Parse::Accept {
            value: found + names,
            next: i + names_tokens(names).len(),
        }),
    decreases names.len(),
{
    if names.len() == 1 {
        lemma_holds_parts(ts, i, name(names[0]), mark(Punct::Greater));
        lemma_holds_name(ts, i, names[0]);
        lemma_holds_mark(ts, i + 1, Punct::Greater);
        assert(found.push(names[0]) =~= found + names);
    } else {
        let rest = names.drop_first();
        lemma_holds_parts(ts, i, name(names[0]) + mark(Punct::Comma), names_tokens(rest));
        lemma_holds_parts(ts, i, name(names[0]), mark(Punct::Comma));
        lemma_holds_name(ts, i, names[0]);
        lemma_holds_mark(ts, i + 1, Punct::Comma);
        lemma_reads_names(ts, i + 2, found.push(names[0]), rest);
        assert(found.push(names[0]) + rest =~= found + names);
    }
}

/// A constructor stub that names its type is read as it was written.
pub proof fn law_reads_qualified_constructor(
    ts: Seq<Tok>,
    i: int,
    written: QualifiedConstructorStubView,
)
    requires
        qualified_constructor_written(written),
        holds(ts, i, qualified_constructor_tokens(written)),
    ensures
        qualified_constructor_stub(ts, i) == (Parse::Accept {
            value: written,
            next: i + qualified_constructor_tokens(written).len(),
        }),
{
    let qualified = name_tokens(written.fully_qualified_type_name);
    let generics = generics_tokens(written.generics);
    let binding = name(written.rust_constructor_name);
    let args = arguments_tokens(written.args);
    lemma_holds_parts(ts, i, qualified + generics + binding, args);
    lemma_holds_parts(ts, i, qualified + generics, binding);
    lemma_holds_parts(ts, i, qualified, generics);
    let behind = i + qualified.len() + generics.len();
    lemma_holds_name(ts, behind, written.rust_constructor_name);
    law_reads_arguments(ts, behind + 1, written.args);
    match written.generics {
        Some(types) => {
            lemma_holds_parts(ts, i + qualified.len(), mark(Punct::Less), types_tokens(types));
            lemma_holds_mark(ts, i + qualified.len(), Punct::Less);
            lemma_reads_types(ts, i + qualified.len() + 1, Seq::empty(), types);
            assert(Seq::<JavaTypeView>::empty() + types =~= types);
        },
        None => {},
    }
    law_reads_name(ts, i, written.fully_qualified_type_name);
}

/// A class declaration that is the whole input is read as it was written,
/// with or without a semicolon behind its last stub.
pub proof fn law_reads_class(written: ClassView, closed: bool)
    requires
        class_written(written),
    ensures
        class_declaration(class_tokens(written, closed)) == Ok::<ClassView, int>(written),
{
    let ts = class_tokens(written, closed);
    let qualified = name_tokens(written.qualified_name);
    let generics = parameters_tokens(written.generics);
    let body = stubs_tokens(written.stubs, closed);
    assert(ts.subrange(0, ts.len() as int) =~= ts);
    lemma_holds_parts(ts, 0, qualified + generics + mark(Punct::OpenBrace), body);
    lemma_holds_parts(ts, 0, qualified + generics, mark(Punct::OpenBrace));
    lemma_holds_parts(ts, 0, qualified, generics);
    let behind: int = (qualified.len() + generics.len()) as int;
    lemma_holds_mark(ts, behind, Punct::OpenBrace);
    lemma_reads_stubs(ts, behind + 1, Seq::empty(), written.stubs, closed);
    assert(Seq::<StubView>::empty() + written.stubs =~= written.stubs);
    match written.generics {
        Some(names) => {
            lemma_holds_parts(ts, qualified.len() as int, mark(Punct::Less), names_tokens(names));
            lemma_holds_mark(ts, qualified.len() as int, Punct::Less);
            lemma_reads_names(ts, qualified.len() as int + 1, Seq::empty(), names);
            assert(Seq::<Seq<char>>::empty() + names =~= names);
        },
        None => {},
    }
    law_reads_name(ts, 0, written.qualified_name);
}

/// What holds of two parts that follow each other holds of their whole.
pub proof fn lemma_holds_whole(ts: Seq<Tok>, i: int, first: Seq<Tok>, second: Seq<Tok>)
    requires
        holds(ts, i, first),
        holds(ts, i + first.len(), second),
    ensures
        holds(ts, i, first + second),
{
    let middle = i + first.len();
    let end = middle + second.len();
    assert(ts.subrange(i, end) =~= ts.subrange(i, middle) + ts.subrange(middle, end));
}

/// A punctuation that stands at a position is held there.
pub proof fn lemma_mark_held(ts: Seq<Tok>, i: int, punct: Punct)
    requires
        punct_at(ts, i, punct),
    ensures
        holds(ts, i, mark(punct)),
{
    assert(ts.subrange(i, i + 1) =~= mark(punct));
}

/// A word that stands at a position is held there.
pub proof fn lemma_name_held(ts: Seq<Tok>, i: int)
    requires
        word_at(ts, i),
    ensures
        holds(ts, i, name(ts[i]->Word_0)),
{
    assert(ts.subrange(i, i + 1) =~= name(ts[i]->Word_0));
}

/// What was read behind `found` begins with `found`, and `count` more
/// items follow.
pub open spec fn extends<A>(value: Seq<A>, found: Seq<A>) -> bool {
    value.len() >= found.len() && value.take(found.len() as int) == found
}

/// What of `value` was read behind `found`.
pub open spec fn added<A>(value: Seq<A>, found: Seq<A>) -> Seq<A> {
    value.skip(found.len() as int)
}

/// One more item was read: what was added behind `found` is the item and
/// what was added behind it.
pub proof fn lemma_added_first<A>(value: Seq<A>, found: Seq<A>, item: A)
    requires
        extends(value, found.push(item)),
    ensures
        extends(value, found),
        added(value, found).len() >= 1,
        added(value, found)[0] == item,
        added(value, found).drop_first() == added(value, found.push(item)),
{
    let n = found.len() as int;
    assert(value.take(n) =~= value.take(n + 1).take(n));
    assert(found.push(item).take(n) =~= found);
    assert(value.take(n + 1)[n] == item);
    assert(added(value, found).drop_first() =~= added(value, found.push(item)));
}

/// Nothing more was read.
pub proof fn lemma_added_nothing<A>(found: Seq<A>)
    ensures
        extends(found, found),
        added(found, found).len() == 0,
{
    assert(found.take(found.len() as int) =~= found);
}

/// Exactly one more item was read.
pub proof fn lemma_added_one<A>(found: Seq<A>, item: A)
    ensures
        extends(found.push(item), found),
        added(found.push(item), found).len() == 1,
        added(found.push(item), found)[0] == item,
{
    assert(found.push(item).take(found.len() as int) =~= found);
}

/// The segments that were read behind the first were written.
pub proof fn lemma_segments_were_written(ts: Seq<Tok>, i: int, found: Seq<Seq<char>>)
    requires
        0 <= i <= ts.len(),
    ensures
        qualified_rest(ts, i, found) matches Parse::Accept { value, next } ==> {
            &&& extends(value, found)
            &&& holds(ts, i, segments_behind(added(value, found)))
            &&& next == i + segments_behind(added(value, found)).len()
        },
    decreases ts.len() - i,
{
    if punct_at(ts, i, Punct::Dot) {
        if word_at(ts, i + 1) {
            let word = ts[i + 1]->Word_0;
            lemma_segments_were_written(ts, i + 2, found.push(word));
            if let Parse::Accept { value, next } = qualified_rest(ts, i, found) {
                lemma_added_first(value, found, word);
                lemma_mark_held(ts, i, Punct::Dot);
                lemma_name_held(ts, i + 1);
                lemma_holds_whole(ts, i, mark(Punct::Dot), name(word));
                lemma_holds_whole(
                    ts,
                    i,
                    mark(Punct::Dot) + name(word),
                    segments_behind(added(value, found.push(word))),
                );
            }
        }
    } else {
        lemma_added_nothing(found);
        assert(ts.subrange(i, i) =~= Seq::<Tok>::empty());
    }
}

/// A qualified name that was read was written.
pub proof fn law_name_was_written(ts: Seq<Tok>, i: int)
    requires
        0 <= i,
    ensures
        qualified_name(ts, i) matches Parse::Accept { value, next } ==> {
            &&& value.len() >= 1
            &&& holds(ts, i, name_tokens(value))
            &&& next == i + name_tokens(value).len()
        },
{
    if word_at(ts, i) {
        let first = seq![ts[i]->Word_0];
        lemma_segments_were_written(ts, i + 1, first);
        if let Parse::Accept { value, next } = qualified_name(ts, i) {
            assert(value[0] == value.take(1)[0]);
            assert(added(value, first) =~= value.drop_first());
            lemma_name_held(ts, i);
            lemma_holds_whole(ts, i, name(value[0]), segments_behind(value.drop_first()));
        }
    }
}

/// A type that was read was written.
pub proof fn law_type_was_written(ts: Seq<Tok>, i: int)
    requires
        0 <= i,
    ensures
        java_type(ts, i) matches Parse::Accept { value, next } ==> {
            &&& type_written(value)
            &&& holds(ts, i, type_tokens(value))
            &&& next == i + type_tokens(value).len()
        },
{
    law_name_was_written(ts, i);
    if let Parse::Accept { value, next } = qualified_name(ts, i) {
        if punct_at(ts, next, Punct::OpenBracket) && punct_at(ts, next + 1, Punct::CloseBracket) {
            lemma_mark_held(ts, next, Punct::OpenBracket);
            lemma_mark_held(ts, next + 1, Punct::CloseBracket);
            lemma_holds_whole(ts, i, name_tokens(value), mark(Punct::OpenBracket));
            lemma_holds_whole(
                ts,
                i,
                name_tokens(value) + mark(Punct::OpenBracket),
                mark(Punct::CloseBracket),
            );
        }
    }
}

/// A typed declaration that was read was written.
pub proof fn law_declaration_was_written(ts: Seq<Tok>, i: int)
    requires
        0 <= i,
    ensures
        typed_declaration(ts, i) matches Parse::Accept { value, next } ==> {
            &&& type_written(value.ty)
            &&& holds(ts, i, declaration_tokens(value))
            &&& next == i + declaration_tokens(value).len()
        },
{
    law_type_was_written(ts, i);
    if let Parse::Accept { value, next } = java_type(ts, i) {
        if word_at(ts, next) {
            lemma_name_held(ts, next);
            lemma_holds_whole(ts, i, type_tokens(value), name(ts[next]->Word_0));
        }
    }
}

/// The declarations that were read were written.
pub proof fn lemma_declarations_were_written(ts: Seq<Tok>, i: int, found: Seq<DeclarationView>)
    requires
        0 <= i,
    ensures
        declarations(ts, i, found) matches Parse::Accept { value, next } ==> {
            &&& extends(value, found)
            &&& added(value, found).len() >= 1
            &&& declarations_written(added(value, found))
            &&& holds(ts, i, declarations_tokens(added(value, found)))
            &&& next == i + declarations_tokens(added(value, found)).len()
        },
    decreases ts.len() - i,
{
    law_declaration_was_written(ts, i);
    if let Parse::Accept { value: first, next: behind } = typed_declaration(ts, i) {
        crate::grammar::lemma_typed_declaration_advances(ts, i);
        if punct_at(ts, behind, Punct::CloseParen) {
            lemma_added_one(found, first);
            lemma_mark_held(ts, behind, Punct::CloseParen);
            lemma_holds_whole(ts, i, declaration_tokens(first), mark(Punct::CloseParen));
        } else if punct_at(ts, behind, Punct::Comma) {
            lemma_declarations_were_written(ts, behind + 1, found.push(first));
            if let Parse::Accept { value, next } = declarations(ts, i, found) {
                lemma_added_first(value, found, first);
                let rest = added(value, found.push(first));
                let all = added(value, found);
                lemma_mark_held(ts, behind, Punct::Comma);
                lemma_holds_whole(ts, i, declaration_tokens(first), mark(Punct::Comma));
                lemma_holds_whole(
                    ts,
                    i,
                    declaration_tokens(first) + mark(Punct::Comma),
                    declarations_tokens(rest),
                );
                assert forall|k: int| 0 <= k < all.len() implies type_written(
                    #[trigger] all[k].ty,
                ) by {
                    if k > 0 {
                        assert(all[k] == rest[k - 1]);
                    }
                }
            }
        }
    }
}

/// The parameters that were read were written.
pub proof fn law_arguments_were_written(ts: Seq<Tok>, i: int)
    requires
        0 <= i,
    ensures
        arguments(ts, i) matches Parse::Accept { value, next } ==> {
            &&& declarations_written(value)
            &&& holds(ts, i, arguments_tokens(value))
            &&& next == i + arguments_tokens(value).len()
        },
{
    if punct_at(ts, i, Punct::OpenParen) {
        lemma_mark_held(ts, i, Punct::OpenParen);
        if punct_at(ts, i + 1, Punct::CloseParen) {
            lemma_mark_held(ts, i + 1, Punct::CloseParen);
            lemma_holds_whole(ts, i, mark(Punct::OpenParen), mark(Punct::CloseParen));
        } else {
            lemma_declarations_were_written(ts, i + 1, Seq::empty());
            if let Parse::Accept { value, next } = arguments(ts, i) {
                assert(added(value, Seq::empty()) =~= value);
                lemma_holds_whole(ts, i, mark(Punct::OpenParen), declarations_tokens(value));
            }
        }
    }
}

/// A constructor stub that was read was written.
pub proof fn law_constructor_was_written(ts: Seq<Tok>, i: int)
    requires
        0 <= i,
    ensures
        constructor_stub(ts, i) matches Parse::Accept { value, next } ==> {
            &&& declarations_written(value.args)
            &&& holds(ts, i, constructor_tokens(value))
            &&& next == i + constructor_tokens(value).len()
        },
{
    if word_at(ts, i) {
        law_arguments_were_written(ts, i + 1);
        if let Parse::Accept { value, next } = constructor_stub(ts, i) {
            lemma_name_held(ts, i);
            lemma_holds_whole(
                ts,
                i,
                name(value.rust_constructor_name),
                arguments_tokens(value.args),
            );
        }
    }
}

/// A method stub that was read was written.
pub proof fn law_function_was_written(ts: Seq<Tok>, i: int)
    requires
        0 <= i,
    ensures
        function_stub(ts, i) matches Parse::Accept { value, next } ==> {
            &&& function_written(value)
            &&& holds(ts, i, function_tokens(value))
            &&& next == i + function_tokens(value).len()
        },
{
    law_type_was_written(ts, i);
    if let Parse::Accept { value: ty, next: behind } = java_type(ts, i) {
        crate::grammar::lemma_java_type_advances(ts, i);
        if word_at(ts, behind) {
            lemma_name_held(ts, behind);
            lemma_holds_whole(ts, i, type_tokens(ty), name(ts[behind]->Word_0));
            if word_at(ts, behind + 1) {
                law_arguments_were_written(ts, behind + 2);
                lemma_name_held(ts, behind + 1);
                lemma_holds_whole(
                    ts,
                    i,
                    type_tokens(ty) + name(ts[behind]->Word_0),
                    name(ts[behind + 1]->Word_0),
                );
                if let Parse::Accept { value, next } = function_stub(ts, i) {
                    lemma_holds_whole(
                        ts,
                        i,
                        type_tokens(ty) + name(ts[behind]->Word_0) + name(ts[behind + 1]->Word_0),
                        arguments_tokens(value.args),
                    );
                }
            } else {
                law_arguments_were_written(ts, behind + 1);
                if let Parse::Accept { value, next } = function_stub(ts, i) {
                    lemma_holds_whole(
                        ts,
                        i,
                        type_tokens(ty) + name(ts[behind]->Word_0),
                        arguments_tokens(value.args),
                    );
                }
            }
        }
    }
}

/// A stub that was read was written.
pub proof fn law_stub_was_written(ts: Seq<Tok>, i: int)
    requires
        0 <= i,
    ensures
        stub(ts, i) matches Parse::Accept { value, next } ==> {
            &&& stub_written(value)
            &&& holds(ts, i, stub_tokens(value))
            &&& next == i + stub_tokens(value).len()
        },
{
    law_constructor_was_written(ts, i);
    law_function_was_written(ts, i);
}

/// Whether the stubs that were read up to `next` were written from `i` on,
/// without a semicolon behind the last or with one.
pub open spec fn stubs_held(ts: Seq<Tok>, i: int, stubs: Seq<StubView>, next: int) -> bool {
    exists|closed: bool|
        holds(ts, i, #[trigger] stubs_tokens(stubs, closed)) && next == i + stubs_tokens(
            stubs,
            closed,
        ).len()
}

/// The stubs of a class body that were read were written.
pub proof fn lemma_stubs_were_written(ts: Seq<Tok>, i: int, found: Seq<StubView>)
    requires
        0 <= i,
    ensures
        class_stubs(ts, i, found) matches Parse::Accept { value, next } ==> {
            &&& extends(value, found)
            &&& added(value, found).len() >= 1
            &&& forall|k: int|
                0 <= k < added(value, found).len() ==> stub_written(
                    #[trigger] added(value, found)[k],
                )
            &&& stubs_held(ts, i, added(value, found), next)
        },
    decreases ts.len() - i,
{
    law_stub_was_written(ts, i);
    if let Parse::Accept { value: first, next: behind } = stub(ts, i) {
        crate::grammar::lemma_stub_advances(ts, i);
        let written = stub_tokens(first);
        if punct_at(ts, behind, Punct::CloseBrace) {
            lemma_added_one(found, first);
            lemma_mark_held(ts, behind, Punct::CloseBrace);
            lemma_holds_whole(ts, i, written, mark(Punct::CloseBrace));
            let all = added(found.push(first), found);
            assert(stubs_tokens(all, false) == written + mark(Punct::CloseBrace));
            assert(stubs_held(ts, i, all, behind + 1));
        } else if punct_at(ts, behind, Punct::Semicolon) {
            lemma_mark_held(ts, behind, Punct::Semicolon);
            lemma_holds_whole(ts, i, written, mark(Punct::Semicolon));
            if punct_at(ts, behind + 1, Punct::CloseBrace) {
                lemma_added_one(found, first);
                lemma_mark_held(ts, behind + 1, Punct::CloseBrace);
                lemma_holds_whole(
                    ts,
                    i,
                    written + mark(Punct::Semicolon),
                    mark(Punct::CloseBrace),
                );
                let all = added(found.push(first), found);
                assert(stubs_tokens(all, true) == written + mark(Punct::Semicolon) + mark(
                    Punct::CloseBrace,
                ));
                assert(stubs_held(ts, i, all, behind + 2));
            } else {
                lemma_stubs_were_written(ts, behind + 1, found.push(first));
                if let Parse::Accept { value, next } = class_stubs(ts, i, found) {
                    lemma_added_first(value, found, first);
                    let rest = added(value, found.push(first));
                    let all = added(value, found);
                    let closed = choose|closed: bool|
                        holds(ts, behind + 1, #[trigger] stubs_tokens(rest, closed)) && next
                            == behind + 1 + stubs_tokens(rest, closed).len();
                    lemma_holds_whole(
                        ts,
                        i,
                        written + mark(Punct::Semicolon),
                        stubs_tokens(rest, closed),
                    );
                    assert(stubs_tokens(all, closed) == written + mark(Punct::Semicolon)
                        + stubs_tokens(rest, closed));
                    assert(stubs_held(ts, i, all, next));
                    assert forall|k: int| 0 <= k < all.len() implies stub_written(
                        #[trigger] all[k],
                    ) by {
                        if k > 0 {
                            assert(all[k] == rest[k - 1]);
                        }
                    }
                }
            }
        }
    }
}

/// The generic types that were read were written.
pub proof fn lemma_types_were_written(ts: Seq<Tok>, i: int, found: Seq<JavaTypeView>)
    requires
        0 <= i,
    ensures
        generic_types(ts, i, found) matches Parse::Accept { value, next } ==> {
            &&& extends(value, found)
            &&& added(value, found).len() >= 1
            &&& types_written(added(value, found))
            &&& holds(ts, i, types_tokens(added(value, found)))
            &&& next == i + types_tokens(added(value, found)).len()
        },
    decreases ts.len() - i,
{
    law_type_was_written(ts, i);
    if let Parse::Accept { value: first, next: behind } = java_type(ts, i) {
        crate::grammar::lemma_java_type_advances(ts, i);
        if punct_at(ts, behind, Punct::Greater) {
            lemma_added_one(found, first);
            lemma_mark_held(ts, behind, Punct::Greater);
            lemma_holds_whole(ts, i, type_tokens(first), mark(Punct::Greater));
        } else if punct_at(ts, behind, Punct::Comma) {
            lemma_types_were_written(ts, behind + 1, found.push(first));
            if let Parse::Accept { value, next } = generic_types(ts, i, found) {
                lemma_added_first(value, found, first);
                let rest = added(value, found.push(first));
                let all = added(value, found);
                lemma_mark_held(ts, behind, Punct::Comma);
                lemma_holds_whole(ts, i, type_tokens(first), mark(Punct::Comma));
                lemma_holds_whole(
                    ts,
                    i,
                    type_tokens(first) + mark(Punct::Comma),
                    types_tokens(rest),
                );
                assert forall|k: int| 0 <= k < all.len() implies type_written(
                    #[trigger] all[k],
                ) by {
                    if k > 0 {
                        assert(all[k] == rest[k - 1]);
                    }
                }
            }
        }
    }
}

/// The generic names that were read were written.
pub proof fn lemma_names_were_written(ts: Seq<Tok>, i: int, found: Seq<Seq<char>>)
    requires
        0 <= i,
    ensures
        generic_names(ts, i, found) matches Parse::Accept { value, next } ==> {
            &&& extends(value, found)
            &&& added(value, found).len() >= 1
            &&& holds(ts, i, names_tokens(added(value, found)))
            &&& next == i + names_tokens(added(value, found)).len()
        },
    decreases ts.len() - i,
{
    if word_at(ts, i) {
        let first = ts[i]->Word_0;
        lemma_name_held(ts, i);
        if punct_at(ts, i + 1, Punct::Greater) {
            lemma_added_one(found, first);
            lemma_mark_held(ts, i + 1, Punct::Greater);
            lemma_holds_whole(ts, i, name(first), mark(Punct::Greater));
        } else if punct_at(ts, i + 1, Punct::Comma) {
            lemma_names_were_written(ts, i + 2, found.push(first));
            if let Parse::Accept { value, next } = generic_names(ts, i, found) {
                lemma_added_first(value, found, first);
                let rest = added(value, found.push(first));
                lemma_mark_held(ts, i + 1, Punct::Comma);
                lemma_holds_whole(ts, i, name(first), mark(Punct::Comma));
                lemma_holds_whole(ts, i, name(first) + mark(Punct::Comma), names_tokens(rest));
            }
        }
    }
}

/// A constructor stub that names its type and was read was written.
pub proof fn law_qualified_constructor_was_written(ts: Seq<Tok>, i: int)
    requires
        0 <= i,
    ensures
        qualified_constructor_stub(ts, i) matches Parse::Accept { value, next } ==> {
            &&& qualified_constructor_written(value)
            &&& holds(ts, i, qualified_constructor_tokens(value))
            &&& next == i + qualified_constructor_tokens(value).len()
        },
{
    law_name_was_written(ts, i);
    if let Parse::Accept { value: qualified, next: after } = qualified_name(ts, i) {
        crate::grammar::lemma_qualified_name_advances(ts, i);
        if let Parse::Accept { value, next } = qualified_constructor_stub(ts, i) {
            let generics = generics_tokens(value.generics);
            if punct_at(ts, after, Punct::Less) {
                lemma_types_were_written(ts, after + 1, Seq::empty());
                crate::grammar::lemma_generic_types_advance(ts, after + 1, Seq::empty());
                let types = value.generics->Some_0;
                assert(added(types, Seq::empty()) =~= types);
                lemma_mark_held(ts, after, Punct::Less);
                lemma_holds_whole(ts, after, mark(Punct::Less), types_tokens(types));
            } else {
                assert(ts.subrange(after, after) =~= Seq::<Tok>::empty());
            }
            assert(holds(ts, after, generics));
            let behind = after + generics.len();
            law_arguments_were_written(ts, behind + 1);
            lemma_name_held(ts, behind);
            lemma_holds_whole(ts, i, name_tokens(qualified), generics);
            lemma_holds_whole(
                ts,
                i,
                name_tokens(qualified) + generics,
                name(value.rust_constructor_name),
            );
            lemma_holds_whole(
                ts,
                i,
                name_tokens(qualified) + generics + name(value.rust_constructor_name),
                arguments_tokens(value.args),
            );
        }
    }
}

/// A class declaration that was read was written: as the whole input,
/// without a semicolon behind its last stub or with one.
pub proof fn law_class_was_written(ts: Seq<Tok>)
    ensures
        class_declaration(ts) matches Ok(class) ==> class_written(class) && (ts == class_tokens(
            class,
            false,
        ) || ts == class_tokens(class, true)),
{
    law_name_was_written(ts, 0);
    if let Parse::Accept { value: qualified, next: after } = qualified_name(ts, 0) {
        crate::grammar::lemma_qualified_name_advances(ts, 0);
        if let Ok(class) = class_declaration(ts) {
            let generics = parameters_tokens(class.generics);
            if punct_at(ts, after, Punct::Less) {
                lemma_names_were_written(ts, after + 1, Seq::empty());
                crate::grammar::lemma_generic_names_advance(ts, after + 1, Seq::empty());
                let names = class.generics->Some_0;
                assert(added(names, Seq::empty()) =~= names);
                lemma_mark_held(ts, after, Punct::Less);
                lemma_holds_whole(ts, after, mark(Punct::Less), names_tokens(names));
            } else {
                assert(ts.subrange(after, after) =~= Seq::<Tok>::empty());
            }
            assert(holds(ts, after, generics));
            let behind = after + generics.len();
            lemma_stubs_were_written(ts, behind + 1, Seq::empty());
            assert(added(class.stubs, Seq::empty()) =~= class.stubs);
            let closed = choose|closed: bool|
                holds(ts, behind + 1, #[trigger] stubs_tokens(class.stubs, closed)) && ts.len()
                    == behind + 1 + stubs_tokens(class.stubs, closed).len();
            lemma_mark_held(ts, behind, Punct::OpenBrace);
            lemma_holds_whole(ts, 0, name_tokens(qualified), generics);
            lemma_holds_whole(ts, 0, name_tokens(qualified) + generics, mark(Punct::OpenBrace));
            lemma_holds_whole(
                ts,
                0,
                name_tokens(qualified) + generics + mark(Punct::OpenBrace),
                stubs_tokens(class.stubs, closed),
            );
            assert(ts.subrange(0, ts.len() as int) =~= ts);
            assert(ts == class_tokens(class, closed));
        }
    }
}

/// The grammar of class declarations is the notation: an input is read as
/// a class exactly where it is that class written out, without a semicolon
/// behind the last stub or with one.
pub proof fn law_class_grammar(ts: Seq<Tok>, class: ClassView)
    ensures
        class_declaration(ts) == Ok::<ClassView, int>(class) <==> class_written(class) && (ts
            == class_tokens(class, false) || ts == class_tokens(class, true)),
{
    law_class_was_written(ts);
    if class_written(class) {
        law_reads_class(class, false);
        law_reads_class(class, true);
    }
}


/// Method stubs with semicolons between them, and a semicolon behind the
/// last where `closed` says so.
pub open spec fn methods_tokens(stubs: Seq<FunctionStubView>, closed: bool) -> Seq<Tok>
    decreases stubs.len(),
{
    if stubs.len() == 0 {
        Seq::empty()
    } else if stubs.len() == 1 {
        if closed {
            function_tokens(stubs[0]) + mark(Punct::Semicolon)
        } else {
            function_tokens(stubs[0])
        }
    } else {
        function_tokens(stubs[0]) + mark(Punct::Semicolon) + methods_tokens(
            stubs.drop_first(),
            closed,
        )
    }
}

/// Whether every stub of a sequence can be written.
pub open spec fn methods_written(stubs: Seq<FunctionStubView>) -> bool {
    forall|k: int| 0 <= k < stubs.len() ==> function_written(#[trigger] stubs[k])
}

/// A sequence of method stubs that ends the input is read as it was
/// written.
pub proof fn lemma_reads_methods(
    ts: Seq<Tok>,
    i: int,
    found: Seq<FunctionStubView>,
    stubs: Seq<FunctionStubView>,
    closed: bool,
)
    requires
        methods_written(stubs),
        holds(ts, i, methods_tokens(stubs, closed)),
        i + methods_tokens(stubs, closed).len() == ts.len(),
    ensures
        method_stubs(ts, i, found) == Ok::<Seq<FunctionStubView>, int>(found + stubs),
    decreases stubs.len(),
{
    if stubs.len() == 0 {
        assert(found + stubs =~= found);
    } else {
        let first = function_tokens(stubs[0]);
        if stubs.len() == 1 {
            if closed {
                lemma_holds_parts(ts, i, first, mark(Punct::Semicolon));
                lemma_holds_mark(ts, i + first.len(), Punct::Semicolon);
            }
            law_reads_function(ts, i, stubs[0]);
            assert(found.push(stubs[0]) =~= found + stubs);
        } else {
            let rest = stubs.drop_first();
            lemma_holds_parts(ts, i, first + mark(Punct::Semicolon), methods_tokens(rest, closed));
            lemma_holds_parts(ts, i, first, mark(Punct::Semicolon));
            lemma_holds_mark(ts, i + first.len(), Punct::Semicolon);
            law_reads_function(ts, i, stubs[0]);
            assert forall|k: int| 0 <= k < rest.len() implies function_written(
                #[trigger] rest[k],
            ) by {
                assert(rest[k] == stubs[k + 1]);
            }
            lemma_reads_methods(ts, i + first.len() + 1, found.push(stubs[0]), rest, closed);
            assert(found.push(stubs[0]) + rest =~= found + stubs);
        }
    }
}

/// Whether the stubs of a sequence were written from `i` to the end of
/// the input, without a semicolon behind the last or with one.
pub open spec fn methods_held(ts: Seq<Tok>, i: int, stubs: Seq<FunctionStubView>) -> bool {
    exists|closed: bool|
        holds(ts, i, #[trigger] methods_tokens(stubs, closed)) && ts.len() == i + methods_tokens(
            stubs,
            closed,
        ).len()
}

/// A sequence of method stubs that was read was written.
pub proof fn lemma_methods_were_written(ts: Seq<Tok>, i: int, found: Seq<FunctionStubView>)
    requires
        0 <= i <= ts.len(),
    ensures
        method_stubs(ts, i, found) matches Ok(value) ==> {
            &&& extends(value, found)
            &&& methods_written(added(value, found))
            &&& methods_held(ts, i, added(value, found))
        },
    decreases ts.len() - i,
{
    if i >= ts.len() {
        lemma_added_nothing(found);
        assert(ts.subrange(i, i) =~= Seq::<Tok>::empty());
        assert(methods_tokens(added(found, found), false).len() == 0);
        assert(methods_held(ts, i, added(found, found)));
    } else {
        law_function_was_written(ts, i);
        if let Parse::Accept { value: first, next: behind } = function_stub(ts, i) {
            crate::grammar::lemma_function_stub_advances(ts, i);
            let written = function_tokens(first);
            if behind >= ts.len() {
                lemma_added_one(found, first);
                let all = added(found.push(first), found);
                assert(methods_tokens(all, false) == written);
                assert(methods_held(ts, i, all));
            } else if punct_at(ts, behind, Punct::Semicolon) {
                lemma_methods_were_written(ts, behind + 1, found.push(first));
                if let Ok(value) = method_stubs(ts, i, found) {
                    lemma_added_first(value, found, first);
                    let rest = added(value, found.push(first));
                    let all = added(value, found);
                    let closed = choose|closed: bool|
                        holds(ts, behind + 1, #[trigger] methods_tokens(rest, closed)) && ts.len()
                            == behind + 1 + methods_tokens(rest, closed).len();
                    lemma_mark_held(ts, behind, Punct::Semicolon);
                    lemma_holds_whole(ts, i, written, mark(Punct::Semicolon));
                    if rest.len() == 0 {
                        assert(methods_tokens(all, true) == written + mark(Punct::Semicolon));
                        assert(methods_held(ts, i, all));
                    } else {
                        lemma_holds_whole(
                            ts,
                            i,
                            written + mark(Punct::Semicolon),
                            methods_tokens(rest, closed),
                        );
                        assert(methods_tokens(all, closed) == written + mark(Punct::Semicolon)
                            + methods_tokens(rest, closed));
                        assert(methods_held(ts, i, all));
                    }
                    assert forall|k: int| 0 <= k < all.len() implies function_written(
                        #[trigger] all[k],
                    ) by {
                        if k > 0 {
                            assert(all[k] == rest[k - 1]);
                        }
                    }
                }
            }
        }
    }
}

/// The grammar of a sequence of method stubs is the notation: an input
/// is read as the stubs exactly where it is those stubs written out, without
/// a semicolon behind the last or with one.
pub proof fn law_methods_grammar(ts: Seq<Tok>, stubs: Seq<FunctionStubView>)
    ensures
        method_stubs(ts, 0, Seq::empty()) == Ok::<Seq<FunctionStubView>, int>(stubs) <==> {
            &&& methods_written(stubs)
            &&& (ts == methods_tokens(stubs, false) || ts == methods_tokens(stubs, true))
        },
{
    lemma_methods_were_written(ts, 0, Seq::empty());
    if let Ok(value) = method_stubs(ts, 0, Seq::empty()) {
        assert(added(value, Seq::empty()) =~= value);
        assert(ts.subrange(0, ts.len() as int) =~= ts);
    }
    if methods_written(stubs) {
        assert(Seq::<FunctionStubView>::empty() + stubs =~= stubs);
        if ts == methods_tokens(stubs, false) {
            assert(ts.subrange(0, ts.len() as int) =~= ts);
            lemma_reads_methods(ts, 0, Seq::empty(), stubs, false);
        }
        if ts == methods_tokens(stubs, true) {
            assert(ts.subrange(0, ts.len() as int) =~= ts);
            lemma_reads_methods(ts, 0, Seq::empty(), stubs, true);
        }
    }
}

/// Constructor stubs with semicolons between them, and a semicolon behind the
/// last where `closed` says so.
pub open spec fn constructors_tokens(
    stubs: Seq<QualifiedConstructorStubView>,
    closed: bool,
) -> Seq<Tok>
    decreases stubs.len(),
{
    if stubs.len() == 0 {
        Seq::empty()
    } else if stubs.len() == 1 {
        if closed {
            qualified_constructor_tokens(stubs[0]) + mark(Punct::Semicolon)
        } else {
            qualified_constructor_tokens(stubs[0])
        }
    } else {
        qualified_constructor_tokens(stubs[0]) + mark(Punct::Semicolon) + constructors_tokens(
            stubs.drop_first(),
            closed,
        )
    }
}

/// Whether every stub of a sequence can be written.
pub open spec fn constructors_written(stubs: Seq<QualifiedConstructorStubView>) -> bool {
    forall|k: int| 0 <= k < stubs.len() ==> qualified_constructor_written(#[trigger] stubs[k])
}

/// A sequence of constructor stubs that ends the input is read as it was
/// written.
pub proof fn lemma_reads_constructors(
    ts: Seq<Tok>,
    i: int,
    found: Seq<QualifiedConstructorStubView>,
    stubs: Seq<QualifiedConstructorStubView>,
    closed: bool,
)
    requires
        constructors_written(stubs),
        holds(ts, i, constructors_tokens(stubs, closed)),
        i + constructors_tokens(stubs, closed).len() == ts.len(),
    ensures
        constructor_stubs(ts, i, found) == Ok::<Seq<QualifiedConstructorStubView>, int>(
            found + stubs,
        ),
    decreases stubs.len(),
{
    if stubs.len() == 0 {
        assert(found + stubs =~= found);
    } else {
        let first = qualified_constructor_tokens(stubs[0]);
        if stubs.len() == 1 {
            if closed {
                lemma_holds_parts(ts, i, first, mark(Punct::Semicolon));
                lemma_holds_mark(ts, i + first.len(), Punct::Semicolon);
            }
            law_reads_qualified_constructor(ts, i, stubs[0]);
            assert(found.push(stubs[0]) =~= found + stubs);
        } else {
            let rest = stubs.drop_first();
            lemma_holds_parts(
                ts,
                i,
                first + mark(Punct::Semicolon),
                constructors_tokens(rest, closed),
            );
            lemma_holds_parts(ts, i, first, mark(Punct::Semicolon));
            lemma_holds_mark(ts, i + first.len(), Punct::Semicolon);
            law_reads_qualified_constructor(ts, i, stubs[0]);
            assert forall|k: int| 0 <= k < rest.len() implies qualified_constructor_written(
                #[trigger] rest[k],
            ) by {
                assert(rest[k] == stubs[k + 1]);
            }
            lemma_reads_constructors(ts, i + first.len() + 1, found.push(stubs[0]), rest, closed);
            assert(found.push(stubs[0]) + rest =~= found + stubs);
        }
    }
}

/// Whether the stubs of a sequence were written from `i` to the end of
/// the input, without a semicolon behind the last or with one.
pub open spec fn constructors_held(
    ts: Seq<Tok>,
    i: int,
    stubs: Seq<QualifiedConstructorStubView>,
) -> bool {
    exists|closed: bool|
        holds(ts, i, #[trigger] constructors_tokens(stubs, closed)) && ts.len() == i
            + constructors_tokens(stubs, closed).len()
}

/// A sequence of constructor stubs that was read was written.
pub proof fn lemma_constructors_were_written(
    ts: Seq<Tok>,
    i: int,
    found: Seq<QualifiedConstructorStubView>,
)
    requires
        0 <= i <= ts.len(),
    ensures
        constructor_stubs(ts, i, found) matches Ok(value) ==> {
            &&& extends(value, found)
            &&& constructors_written(added(value, found))
            &&& constructors_held(ts, i, added(value, found))
        },
    decreases ts.len() - i,
{
    if i >= ts.len() {
        lemma_added_nothing(found);
        assert(ts.subrange(i, i) =~= Seq::<Tok>::empty());
        assert(constructors_tokens(added(found, found), false).len() == 0);
        assert(constructors_held(ts, i, added(found, found)));
    } else {
        law_qualified_constructor_was_written(ts, i);
        if let Parse::Accept { value: first, next: behind } = qualified_constructor_stub(ts, i) {
            crate::grammar::lemma_qualified_constructor_stub_advances(ts, i);
            let written = qualified_constructor_tokens(first);
            if behind >= ts.len() {
                lemma_added_one(found, first);
                let all = added(found.push(first), found);
                assert(constructors_tokens(all, false) == written);
                assert(constructors_held(ts, i, all));
            } else if punct_at(ts, behind, Punct::Semicolon) {
                lemma_constructors_were_written(ts, behind + 1, found.push(first));
                if let Ok(value) = constructor_stubs(ts, i, found) {
                    lemma_added_first(value, found, first);
                    let rest = added(value, found.push(first));
                    let all = added(value, found);
                    let closed = choose|closed: bool|
                        holds(ts, behind + 1, #[trigger] constructors_tokens(rest, closed))
                            && ts.len() == behind + 1 + constructors_tokens(rest, closed).len();
                    lemma_mark_held(ts, behind, Punct::Semicolon);
                    lemma_holds_whole(ts, i, written, mark(Punct::Semicolon));
                    if rest.len() == 0 {
                        assert(constructors_tokens(all, true) == written + mark(Punct::Semicolon));
                        assert(constructors_held(ts, i, all));
                    } else {
                        lemma_holds_whole(
                            ts,
                            i,
                            written + mark(Punct::Semicolon),
                            constructors_tokens(rest, closed),
                        );
                        assert(constructors_tokens(all, closed) == written + mark(Punct::Semicolon)
                            + constructors_tokens(rest, closed));
                        assert(constructors_held(ts, i, all));
                    }
                    assert forall|k: int| 0 <= k < all.len() implies qualified_constructor_written(
                        #[trigger] all[k],
                    ) by {
                        if k > 0 {
                            assert(all[k] == rest[k - 1]);
                        }
                    }
                }
            }
        }
    }
}

/// The grammar of a sequence of constructor stubs is the notation: an input
/// is read as the stubs exactly where it is those stubs written out, without
/// a semicolon behind the last or with one.
pub proof fn law_constructors_grammar(ts: Seq<Tok>, stubs: Seq<QualifiedConstructorStubView>)
    ensures
        constructor_stubs(ts, 0, Seq::empty()) == Ok::<Seq<QualifiedConstructorStubView>, int>(
            stubs,
        ) <==> {
            &&& constructors_written(stubs)
            &&& (ts == constructors_tokens(stubs, false) || ts == constructors_tokens(stubs, true))
        },
{
    lemma_constructors_were_written(ts, 0, Seq::empty());
    if let Ok(value) = constructor_stubs(ts, 0, Seq::empty()) {
        assert(added(value, Seq::empty()) =~= value);
        assert(ts.subrange(0, ts.len() as int) =~= ts);
    }
    if constructors_written(stubs) {
        assert(Seq::<QualifiedConstructorStubView>::empty() + stubs =~= stubs);
        if ts == constructors_tokens(stubs, false) {
            assert(ts.subrange(0, ts.len() as int) =~= ts);
            lemma_reads_constructors(ts, 0, Seq::empty(), stubs, false);
        }
        if ts == constructors_tokens(stubs, true) {
            assert(ts.subrange(0, ts.len() as int) =~= ts);
            lemma_reads_constructors(ts, 0, Seq::empty(), stubs, true);
        }
    }
}

} // verus!
