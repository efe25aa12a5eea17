//! The tokens of the stub language.
use vstd::prelude::*;

verus! {

/// The punctuation that the stub language knows.
#[derive(Clone, Copy, Debug, PartialEq, Eq, Structural)]
pub enum Punct {
    Dot,
    Comma,
    Semicolon,
    Less,
    Greater,
    OpenParen,
    CloseParen,
    OpenBracket,
    CloseBracket,
    OpenBrace,
    CloseBrace,
}

/// One token of a stub text.
#[derive(Clone, Debug, PartialEq, Eq)]
pub enum Token {
    Word(String),
    Punct(Punct),
}

/// What a token is, with the characters of a word in place of the string.
pub enum Tok {
    Word(Seq<char>),
    Punct(Punct),
}

impl View for Token {
    type V = Tok;

    open spec fn view(&self) -> Tok {
        match *self {
            Token::Word(word) => Tok::Word(word@),
            Token::Punct(punct) => Tok::Punct(punct),
        }
    }
}

/// The tokens of a vector, each by its view.
pub open spec fn toks(tokens: Seq<Token>) -> Seq<Tok> {
    tokens.map_values(|token: Token| token@)
}

/// Whether `tokens` holds the punctuation `punct` at `index`.
pub open spec fn punct_at(tokens: Seq<Tok>, index: int, punct: Punct) -> bool {
    0 <= index < tokens.len() && tokens[index] == Tok::Punct(punct)
}

/// Whether `tokens` holds a word at `index`.
pub open spec fn word_at(tokens: Seq<Tok>, index: int) -> bool {
    0 <= index < tokens.len() && tokens[index] is Word
}

/// There are as many views as tokens, and no more than a vector can hold.
pub proof fn lemma_toks_len(tokens: &Vec<Token>)
    ensures
        toks(tokens@).len() == tokens.len(),
        toks(tokens@).len() <= usize::MAX,
{
    assert(tokens.len() == tokens@.len());
}

/// The views of tokens that grew by one token are the views they had and
/// the view of that token.
pub proof fn lemma_toks_push(tokens: Seq<Token>, token: Token)
    ensures
        toks(tokens.push(token)) == toks(tokens).push(token@),
{
    assert(toks(tokens.push(token)) =~= toks(tokens).push(token@));
}

/// Tells whether the token at `index` is the punctuation `punct`.
pub fn is_punct(tokens: &Vec<Token>, index: usize, punct: Punct) -> (found: bool)
    ensures
        found == punct_at(toks(tokens@), index as int, punct),
{
    if index < tokens.len() {
        match &tokens[index] {
            Token::Punct(p) => *p == punct,
            Token::Word(_) => false,
        }
    } else {
        false
    }
}

} // verus!
