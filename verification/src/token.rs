use vstd::prelude::*;

use crate::keywords::Keyword;

verus! {

/// A word token: raw text plus the keyword tag the host tokenizer gave it
/// (`Keyword::NoKeyword` for an ordinary identifier).
#[derive(Debug, Clone, PartialEq, Eq)]
pub struct Word {
    pub value: String,
    pub keyword: Keyword,
}

/// A lexical unit of the host's token stream.  This module only inspects
/// and consumes tokens; it never rewrites them.
#[derive(Debug, Clone, PartialEq, Eq)]
pub enum Token {
    /// A word: identifier or keyword.
    Word(Word),
    /// A numeric literal: raw text and whether a long suffix was attached.
    Number(String, bool),
    /// A string literal enclosed in single quotes (quotes not included).
    SingleQuotedString(String),
    /// `(`
    LParen,
    /// `)`
    RParen,
    /// `,`
    Comma,
    /// `=`
    Eq,
    /// The end of the token stream.
    EndOfStream,
}

/// The mathematical model of a token: text becomes a sequence of characters.
pub enum SpecToken {
    Word { value: Seq<char>, keyword: Keyword },
    Number(Seq<char>, bool),
    SingleQuotedString(Seq<char>),
    LParen,
    RParen,
    Comma,
    Eq,
    EndOfStream,
}

impl View for Token {
    type V = SpecToken;

    open spec fn view(&self) -> SpecToken {
        match self {
            Token::Word(w) => SpecToken::Word { value: w.value@, keyword: w.keyword },
            Token::Number(n, l) => SpecToken::Number(n@, *l),
            Token::SingleQuotedString(s) => SpecToken::SingleQuotedString(s@),
            Token::LParen => SpecToken::LParen,
            Token::RParen => SpecToken::RParen,
            Token::Comma => SpecToken::Comma,
            Token::Eq => SpecToken::Eq,
            Token::EndOfStream => SpecToken::EndOfStream,
        }
    }
}

impl DeepView for Token {
    type V = SpecToken;

    open spec fn deep_view(&self) -> SpecToken {
        self.view()
    }
}

/// The token at the front of a stream; a stream that has run out is
/// padded with `EndOfStream`.
pub open spec fn spec_head(t: Seq<SpecToken>) -> SpecToken {
    if t.len() > 0 {
        t[0]
    } else {
        SpecToken::EndOfStream
    }
}

/// The stream after one token is consumed; consuming at the end is a no-op,
/// mirroring a cursor that yields `EndOfStream` without moving.
pub open spec fn spec_advance(t: Seq<SpecToken>) -> Seq<SpecToken> {
    if t.len() > 0 {
        t.drop_first()
    } else {
        t
    }
}

/// Consuming the front of a stream built by putting one token before a
/// rest yields that token and that rest.
pub proof fn lemma_cons_head_advance(x: SpecToken, rest: Seq<SpecToken>)
    ensures
        spec_head(seq![x] + rest) == x,
        spec_advance(seq![x] + rest) == rest,
{
    assert((seq![x] + rest)[0] == x);
    assert(spec_advance(seq![x] + rest) =~= rest);
}

/// True when the stream begins with a word tagged with keyword `kw`.
pub open spec fn spec_head_is_keyword(t: Seq<SpecToken>, kw: Keyword) -> bool {
    spec_head(t) matches SpecToken::Word { keyword, .. } && keyword == kw
}

} // verus!
