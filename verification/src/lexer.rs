//! From a stub text to its tokens.
use vstd::prelude::*;
use vstd::string::*;
use crate::token::{lemma_toks_push, toks, Punct, Tok, Token};

verus! {

/// Letters, digits and the underscore of ASCII make up words.
pub open spec fn is_word_char(c: char) -> bool {
    ('a' <= c && c <= 'z') || ('A' <= c && c <= 'Z') || ('0' <= c && c <= '9') || c == '_'
}

/// Blank, tab, line feed and carriage return separate tokens.
pub open spec fn is_space(c: char) -> bool {
    c == ' ' || c == '\t' || c == '\n' || c == '\r'
}

/// The punctuation that a character stands for, if any.
pub open spec fn punct_of(c: char) -> Option<Punct> {
    if c == '.' {
        Some(Punct::Dot)
    } else if c == ',' {
        Some(Punct::Comma)
    } else if c == ';' {
        Some(Punct::Semicolon)
    } else if c == '<' {
        Some(Punct::Less)
    } else if c == '>' {
        Some(Punct::Greater)
    } else if c == '(' {
        Some(Punct::OpenParen)
    } else if c == ')' {
        Some(Punct::CloseParen)
    } else if c == '[' {
        Some(Punct::OpenBracket)
    } else if c == ']' {
        Some(Punct::CloseBracket)
    } else if c == '{' {
        Some(Punct::OpenBrace)
    } else if c == '}' {
        Some(Punct::CloseBrace)
    } else {
        None
    }
}

/// Tells whether a character is part of words.
pub fn is_word_character(c: char) -> (b: bool)
    ensures
        b == is_word_char(c),
{
    ('a' <= c && c <= 'z') || ('A' <= c && c <= 'Z') || ('0' <= c && c <= '9') || c == '_'
}

/// Tells whether a character separates tokens.
pub fn is_space_character(c: char) -> (b: bool)
    ensures
        b == is_space(c),
{
    c == ' ' || c == '\t' || c == '\n' || c == '\r'
}

/// The punctuation that a character stands for, if any.
pub fn punct_of_character(c: char) -> (p: Option<Punct>)
    ensures
        p == punct_of(c),
{
    if c == '.' {
        Some(Punct::Dot)
    } else if c == ',' {
        Some(Punct::Comma)
    } else if c == ';' {
        Some(Punct::Semicolon)
    } else if c == '<' {
        Some(Punct::Less)
    } else if c == '>' {
        Some(Punct::Greater)
    } else if c == '(' {
        Some(Punct::OpenParen)
    } else if c == ')' {
        Some(Punct::CloseParen)
    } else if c == '[' {
        Some(Punct::OpenBracket)
    } else if c == ']' {
        Some(Punct::CloseBracket)
    } else if c == '{' {
        Some(Punct::OpenBrace)
    } else if c == '}' {
        Some(Punct::CloseBrace)
    } else {
        None
    }
}

/// Whether `word` is a word: one word character or more, and no other.
pub open spec fn is_plain_word(word: Seq<char>) -> bool {
    word.len() > 0 && forall|k: int| 0 <= k < word.len() ==> is_word_char(#[trigger] word[k])
}

/// Whether every word among the tokens is a word.
pub open spec fn holds_words(tokens: Seq<Tok>) -> bool {
    forall|k: int|
        0 <= k < tokens.len() && tokens[k] is Word ==> is_plain_word(#[trigger] tokens[k]->Word_0)
}

/// The end of the word that holds position `i`: the first position from `i`
/// on that holds no word character.
pub open spec fn word_end(text: Seq<char>, i: int) -> int
    decreases text.len() - i,
{
    if 0 <= i < text.len() && is_word_char(text[i]) {
        word_end(text, i + 1)
    } else {
        i
    }
}

/// Whether a word begins at `i`: a word character that follows none.
pub open spec fn word_starts(text: Seq<char>, i: int) -> bool {
    0 <= i < text.len() && is_word_char(text[i]) && !(i > 0 && is_word_char(text[i - 1]))
}

/// The tokens of a text and, for each, the offset of its first character.
pub struct Scan {
    pub tokens: Seq<Tok>,
    pub offsets: Seq<int>,
}

/// Scans `text` from `i` on, behind the tokens already found: every
/// punctuation character is a token; every maximal run of word characters is
/// one word; space is skipped. The first other character ends the scan with
/// its offset.
pub open spec fn scan_from(text: Seq<char>, i: int, found: Scan) -> Result<Scan, int>
    decreases text.len() - i,
{
    if i < 0 || i >= text.len() {
        Ok(found)
    } else if is_space(text[i]) {
        scan_from(text, i + 1, found)
    } else if punct_of(text[i]) is Some {
        scan_from(
            text,
            i + 1,
            Scan {
                tokens: found.tokens.push(Tok::Punct(punct_of(text[i])->0)),
                offsets: found.offsets.push(i),
            },
        )
    } else if word_starts(text, i) {
        scan_from(
            text,
            i + 1,
            Scan {
                tokens: found.tokens.push(Tok::Word(text.subrange(i, word_end(text, i)))),
                offsets: found.offsets.push(i),
            },
        )
    } else if is_word_char(text[i]) {
        scan_from(text, i + 1, found)
    } else {
        Err(i)
    }
}

/// The tokens of a whole text, or the offset of the first character that
/// belongs to none.
pub open spec fn scan_text(text: Seq<char>) -> Result<Scan, int> {
    scan_from(text, 0, Scan { tokens: Seq::empty(), offsets: Seq::empty() })
}

/// Inside a word the scan finds nothing new.
pub proof fn lemma_scan_skips_word(text: Seq<char>, i: int, j: int, found: Scan)
    requires
        0 < i <= j <= text.len(),
        is_word_char(text[i - 1]),
        forall|k: int| i <= k < j ==> is_word_char(text[k]),
    ensures
        scan_from(text, i, found) == scan_from(text, j, found),
    decreases j - i,
{
    if i < j {
        lemma_scan_skips_word(text, i + 1, j, found);
    }
}

/// A run of word characters from `i` to `j` that ends there has its end at `j`.
pub proof fn lemma_word_end(text: Seq<char>, i: int, j: int)
    requires
        0 <= i <= j <= text.len(),
        forall|k: int| i <= k < j ==> is_word_char(text[k]),
        j == text.len() || !is_word_char(text[j]),
    ensures
        word_end(text, i) == j,
    decreases j - i,
{
    if i < j {
        lemma_word_end(text, i + 1, j);
    }
}

/// The character that a punctuation is written with.
pub open spec fn punct_char(punct: Punct) -> char {
    match punct {
        Punct::Dot => '.',
        Punct::Comma => ',',
        Punct::Semicolon => ';',
        Punct::Less => '<',
        Punct::Greater => '>',
        Punct::OpenParen => '(',
        Punct::CloseParen => ')',
        Punct::OpenBracket => '[',
        Punct::CloseBracket => ']',
        Punct::OpenBrace => '{',
        Punct::CloseBrace => '}',
    }
}

/// The characters that a token is written with.
pub open spec fn token_text(token: Tok) -> Seq<char> {
    match token {
        Tok::Word(word) => word,
        Tok::Punct(punct) => seq![punct_char(punct)],
    }
}

/// Tokens written out, with a blank behind each.
pub open spec fn written(tokens: Seq<Tok>) -> Seq<char>
    decreases tokens.len(),
{
    if tokens.len() == 0 {
        Seq::empty()
    } else {
        token_text(tokens[0]) + seq![' '] + written(tokens.drop_first())
    }
}

/// The offsets at which tokens begin that are written out from `start` on.
pub open spec fn offsets_from(tokens: Seq<Tok>, start: int) -> Seq<int>
    decreases tokens.len(),
{
    if tokens.len() == 0 {
        Seq::empty()
    } else {
        seq![start] + offsets_from(tokens.drop_first(), start + token_text(tokens[0]).len() + 1)
    }
}

/// Tokens that are written out behind `before` are scanned as themselves,
/// where `before` does not end inside a word.
pub proof fn lemma_scan_reads(before: Seq<char>, tokens: Seq<Tok>, found: Scan)
    requires
        holds_words(tokens),
        before.len() == 0 || !is_word_char(before.last()),
    ensures
        scan_from(before + written(tokens), before.len() as int, found) == Ok::<Scan, int>(
            Scan {
                tokens: found.tokens + tokens,
                offsets: found.offsets + offsets_from(tokens, before.len() as int),
            },
        ),
    decreases tokens.len(),
{
    let text = before + written(tokens);
    let i = before.len() as int;
    if tokens.len() == 0 {
        assert(found.tokens + tokens =~= found.tokens);
        assert(found.offsets + offsets_from(tokens, i) =~= found.offsets);
    } else {
        let rest = tokens.drop_first();
        let spelled = token_text(tokens[0]);
        let next = before + spelled + seq![' '];
        assert(text =~= next + written(rest));
        assert(holds_words(rest)) by {
            assert forall|k: int| 0 <= k < rest.len() && rest[k] is Word implies is_plain_word(
                #[trigger] rest[k]->Word_0,
            ) by {
                assert(rest[k] == tokens[k + 1]);
            }
        }
        let grown = Scan {
            tokens: found.tokens.push(tokens[0]),
            offsets: found.offsets.push(i),
        };
        lemma_scan_reads(next, rest, grown);
        assert(grown.tokens + rest =~= found.tokens + tokens);
        assert(grown.offsets + offsets_from(rest, next.len() as int) =~= found.offsets
            + offsets_from(tokens, i));
        match tokens[0] {
            Tok::Punct(punct) => {
                assert(text[i] == punct_char(punct));
                assert(text[i + 1] == ' ');
                assert(punct_of(punct_char(punct)) == Some(punct));
                assert(scan_from(text, i, found) == scan_from(text, i + 1, grown));
                assert(scan_from(text, i + 1, grown) == scan_from(text, i + 2, grown));
            },
            Tok::Word(word) => {
                let end = i + word.len();
                assert(is_plain_word(word));
                assert forall|k: int| i <= k < end implies is_word_char(text[k]) by {
                    assert(text[k] == word[k - i]);
                }
                assert(text[end] == ' ');
                assert(text[i] == word[0]);
                if i > 0 {
                    assert(text[i - 1] == before.last());
                }
                lemma_word_end(text, i, end);
                assert(text.subrange(i, end) =~= word);
                assert(word_starts(text, i));
                assert(scan_from(text, i, found) == scan_from(text, i + 1, grown));
                lemma_scan_skips_word(text, i + 1, end, grown);
                assert(scan_from(text, end, grown) == scan_from(text, end + 1, grown));
            },
        }
    }
}

/// Tokens that are written out with a blank behind each are scanned as
/// themselves.
pub proof fn law_scan_reads_written(tokens: Seq<Tok>)
    requires
        holds_words(tokens),
    ensures
        scan_text(written(tokens)) == Ok::<Scan, int>(
            Scan { tokens, offsets: offsets_from(tokens, 0) },
        ),
{
    let empty = Scan { tokens: Seq::empty(), offsets: Seq::empty() };
    lemma_scan_reads(Seq::empty(), tokens, empty);
    assert(Seq::<char>::empty() + written(tokens) =~= written(tokens));
    assert(empty.tokens + tokens =~= tokens);
    assert(empty.offsets + offsets_from(tokens, 0) =~= offsets_from(tokens, 0));
}

/// What can be wrong with a stub text.
#[derive(Clone, Copy, Debug, PartialEq, Eq, Structural)]
pub enum SyntaxError {
    /// The character at this offset belongs to no token.
    UnexpectedCharacter { offset: usize },
    /// The word that begins at this offset is no identifier of the host.
    NotAnIdentifier { offset: usize },
    /// The token that begins at this offset cannot stand where it does.
    UnexpectedToken { offset: usize },
    /// The text ends where the grammar asks for more.
    UnexpectedEnd,
}

/// The tokens of a text, with the offset of each in characters.
#[derive(Clone, Debug, PartialEq, Eq)]
pub struct Lexed {
    pub tokens: Vec<Token>,
    pub offsets: Vec<usize>,
}

impl View for Lexed {
    type V = Scan;

    open spec fn view(&self) -> Scan {
        Scan { tokens: toks(self.tokens@), offsets: self.offsets@.map_values(|o: usize| o as int) }
    }
}

/// The characters of a text, in order.
pub fn characters(text: &str) -> (out: Vec<char>)
    ensures
        out@ == text@,
{
    let mut out: Vec<char> = Vec::new();
    let chars = text.chars();
    for c in it: chars
        invariant
            out@ == it.seq().take(it.index() as int),
    {
        out.push(c);
    }
    out
}

/// Splits a text into tokens without judging its words: the result is
/// `scan_text` of the text, and an error is the offset of the first character
/// that is neither space, punctuation nor part of a word.
pub fn scan(text: &str) -> (result: Result<Lexed, SyntaxError>)
    ensures
        match result {
            Ok(lexed) => {
                &&& scan_text(text@) == Ok::<Scan, int>(lexed@)
                &&& lexed.tokens.len() == lexed.offsets.len()
                &&& holds_words(lexed@.tokens)
            },
            Err(SyntaxError::UnexpectedCharacter { offset }) => {
                scan_text(text@) == Err::<Scan, int>(offset as int)
            },
            Err(_) => false,
        },
{
    let chars = characters(text);
    let mut tokens: Vec<Token> = Vec::new();
    let mut offsets: Vec<usize> = Vec::new();
    let mut i: usize = 0;
    proof {
        assert(toks(tokens@) =~= Seq::<Tok>::empty());
        assert(offsets@.map_values(|o: usize| o as int) =~= Seq::<int>::empty());
    }
    while i < chars.len()
        invariant
            chars@ == text@,
            i <= chars.len(),
            tokens.len() == offsets.len(),
            holds_words(toks(tokens@)),
            i > 0 ==> !is_word_char(chars@[i - 1]) || i == chars.len() || !is_word_char(
                chars@[i as int],
            ),
            scan_text(text@) == scan_from(
                text@,
                i as int,
                Scan {
                    tokens: toks(tokens@),
                    offsets: offsets@.map_values(|o: usize| o as int),
                },
            ),
        decreases chars.len() - i,
    {
        let c = chars[i];
        let ghost before = Scan {
            tokens: toks(tokens@),
            offsets: offsets@.map_values(|o: usize| o as int),
        };
        if is_space_character(c) {
            i = i + 1;
        } else if let Some(punct) = punct_of_character(c) {
            proof {
                lemma_toks_push(tokens@, Token::Punct(punct));
                assert(offsets@.push(i).map_values(|o: usize| o as int) =~= before.offsets.push(
                    i as int,
                ));
            }
            tokens.push(Token::Punct(punct));
            offsets.push(i);
            i = i + 1;
        } else if is_word_character(c) {
            let start = i;
            while i < chars.len() && is_word_character(chars[i])
                invariant
                    start <= i <= chars.len(),
                    forall|k: int| start <= k < i ==> is_word_char(chars@[k]),
                decreases chars.len() - i,
            {
                i = i + 1;
            }
            let word = String::from_str(text.substring_char(start, i));
            proof {
                assert(word_starts(text@, start as int));
                lemma_word_end(text@, start as int, i as int);
                lemma_toks_push(tokens@, Token::Word(word));
                assert(offsets@.push(start).map_values(|o: usize| o as int)
                    =~= before.offsets.push(start as int));
                let after = Scan {
                    tokens: before.tokens.push(Tok::Word(word@)),
                    offsets: before.offsets.push(start as int),
                };
                lemma_scan_skips_word(text@, start + 1, i as int, after);
            }
            tokens.push(Token::Word(word));
            offsets.push(start);
        } else {
            return Err(SyntaxError::UnexpectedCharacter { offset: i });
        }
    }
    Ok(Lexed { tokens, offsets })
}

/// Whether `word` is a word that the host language keeps for itself: the
/// lone underscore, or one of its keywords, those in use and those set aside.
pub open spec fn is_reserved_word(word: Seq<char>) -> bool {
    ||| word == "_"@
    ||| word == "abstract"@
    ||| word == "as"@
    ||| word == "async"@
    ||| word == "await"@
    ||| word == "become"@
    ||| word == "box"@
    ||| word == "break"@
    ||| word == "const"@
    ||| word == "continue"@
    ||| word == "crate"@
    ||| word == "do"@
    ||| word == "dyn"@
    ||| word == "else"@
    ||| word == "enum"@
    ||| word == "extern"@
    ||| word == "false"@
    ||| word == "final"@
    ||| word == "fn"@
    ||| word == "for"@
    ||| word == "if"@
    ||| word == "impl"@
    ||| word == "in"@
    ||| word == "let"@
    ||| word == "loop"@
    ||| word == "macro"@
    ||| word == "match"@
    ||| word == "mod"@
    ||| word == "move"@
    ||| word == "mut"@
    ||| word == "override"@
    ||| word == "priv"@
    ||| word == "pub"@
    ||| word == "ref"@
    ||| word == "return"@
    ||| word == "Self"@
    ||| word == "self"@
    ||| word == "static"@
    ||| word == "struct"@
    ||| word == "super"@
    ||| word == "trait"@
    ||| word == "true"@
    ||| word == "try"@
    ||| word == "type"@
    ||| word == "typeof"@
    ||| word == "unsafe"@
    ||| word == "unsized"@
    ||| word == "use"@
    ||| word == "virtual"@
    ||| word == "where"@
    ||| word == "while"@
    ||| word == "yield"@
}

/// Whether the host language takes a word for an identifier: it does not
/// begin with a digit, and the host does not keep it for itself.
pub open spec fn host_identifier(word: Seq<char>) -> bool {
    &&& word.len() > 0
    &&& !('0' <= word[0] && word[0] <= '9')
    &&& !is_reserved_word(word)
}

/// No word of more than eight characters is kept by the host: a word that
/// long is an identifier unless it begins with a digit.
pub proof fn law_long_words_are_identifiers(word: Seq<char>)
    requires
        word.len() > 8,
    ensures
        !is_reserved_word(word),
        host_identifier(word) <==> !('0' <= word[0] && word[0] <= '9'),
{
    reveal_strlit("_");
    reveal_strlit("abstract");
    reveal_strlit("as");
    reveal_strlit("async");
    reveal_strlit("await");
    reveal_strlit("become");
    reveal_strlit("box");
    reveal_strlit("break");
    reveal_strlit("const");
    reveal_strlit("continue");
    reveal_strlit("crate");
    reveal_strlit("do");
    reveal_strlit("dyn");
    reveal_strlit("else");
    reveal_strlit("enum");
    reveal_strlit("extern");
    reveal_strlit("false");
    reveal_strlit("final");
    reveal_strlit("fn");
    reveal_strlit("for");
    reveal_strlit("if");
    reveal_strlit("impl");
    reveal_strlit("in");
    reveal_strlit("let");
    reveal_strlit("loop");
    reveal_strlit("macro");
    reveal_strlit("match");
    reveal_strlit("mod");
    reveal_strlit("move");
    reveal_strlit("mut");
    reveal_strlit("override");
    reveal_strlit("priv");
    reveal_strlit("pub");
    reveal_strlit("ref");
    reveal_strlit("return");
    reveal_strlit("Self");
    reveal_strlit("self");
    reveal_strlit("static");
    reveal_strlit("struct");
    reveal_strlit("super");
    reveal_strlit("trait");
    reveal_strlit("true");
    reveal_strlit("try");
    reveal_strlit("type");
    reveal_strlit("typeof");
    reveal_strlit("unsafe");
    reveal_strlit("unsized");
    reveal_strlit("use");
    reveal_strlit("virtual");
    reveal_strlit("where");
    reveal_strlit("while");
    reveal_strlit("yield");
}

/// Calls `syn::parse_str::<syn::Ident>` on a word and tells whether it
/// succeeded. Of a word made of letters, digits and underscores, `syn` makes
/// one identifier unless the word begins with a digit, and it takes that
/// identifier unless it is the lone underscore or one of the keywords that
/// `syn` lists.
#[verifier::external_body]
fn accepts_identifier(word: &str) -> (ok: bool)
    requires
        is_plain_word(word@),
    ensures
        ok == host_identifier(word@),
{
    syn::parse_str::<syn::Ident>(word).is_ok()
}

/// Whether every word among the first `count` tokens is an identifier of the
/// host.
pub open spec fn words_are_identifiers(tokens: Seq<Tok>, count: int) -> bool {
    forall|k: int|
        0 <= k < count && k < tokens.len() && tokens[k] is Word ==> host_identifier(
            #[trigger] tokens[k]->Word_0,
        )
}

/// Whether the word at `index` is the first that the host refuses.
pub open spec fn first_refused_word(tokens: Seq<Tok>, index: int) -> bool {
    &&& 0 <= index < tokens.len()
    &&& tokens[index] is Word
    &&& !host_identifier(tokens[index]->Word_0)
    &&& words_are_identifiers(tokens, index)
}

/// Whether `text` is made of tokens whose words are all identifiers of the
/// host.
pub open spec fn lexes(text: Seq<char>) -> bool {
    scan_text(text) is Ok && words_are_identifiers(
        scan_text(text)->Ok_0.tokens,
        scan_text(text)->Ok_0.tokens.len() as int,
    )
}

/// Whether `error` says what keeps `text` from being made of such tokens:
/// the first character that belongs to no token, or else the first word that
/// the host refuses.
pub open spec fn lexical_error(text: Seq<char>, error: SyntaxError) -> bool {
    match error {
        SyntaxError::UnexpectedCharacter { offset } => scan_text(text) == Err::<Scan, int>(
            offset as int,
        ),
        SyntaxError::NotAnIdentifier { offset } => {
            &&& scan_text(text) is Ok
            &&& exists|index: int|
                first_refused_word(scan_text(text)->Ok_0.tokens, index) && scan_text(
                    text,
                )->Ok_0.offsets[index] == offset
        },
        _ => false,
    }
}

/// The tokens of a text whose words are all identifiers of the host.
///
/// The text is split as `scan_text` says. A character that belongs to no
/// token is reported first; otherwise the first word that the host refuses as
/// an identifier is reported by the offset at which it begins.
pub fn tokenize(text: &str) -> (result: Result<Lexed, SyntaxError>)
    ensures
        match result {
            Ok(lexed) => {
                &&& lexes(text@)
                &&& scan_text(text@) == Ok::<Scan, int>(lexed@)
                &&& lexed.tokens.len() == lexed.offsets.len()
            },
            Err(error) => lexical_error(text@, error),
        },
{
    let lexed = match scan(text) {
        Ok(lexed) => lexed,
        Err(error) => {
            return Err(error);
        },
    };
    let mut k: usize = 0;
    while k < lexed.tokens.len()
        invariant
            k <= lexed.tokens.len(),
            holds_words(lexed@.tokens),
            lexed.tokens.len() == lexed.offsets.len(),
            scan_text(text@) == Ok::<Scan, int>(lexed@),
            words_are_identifiers(lexed@.tokens, k as int),
        decreases lexed.tokens.len() - k,
    {
        match &lexed.tokens[k] {
            Token::Word(word) => {
                assert(lexed@.tokens[k as int] == Tok::Word(word@));
                if !accepts_identifier(word.as_str()) {
                    proof {
                        let scanned = scan_text(text@)->Ok_0;
                        assert(scanned == lexed@);
                        assert(scanned.tokens[k as int] == Tok::Word(word@));
                        assert(first_refused_word(scanned.tokens, k as int));
                        assert(scanned.offsets[k as int] == lexed.offsets[k as int]);
                    }
                    return Err(SyntaxError::NotAnIdentifier { offset: lexed.offsets[k] });
                }
            },
            Token::Punct(_) => {},
        }
        k = k + 1;
    }
    Ok(lexed)
}

} // verus!
