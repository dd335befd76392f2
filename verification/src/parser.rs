use vstd::prelude::*;

use crate::ast::{
    result_matches, Expectation, Expr, Ident, ParserError, SpecError, SpecExpr, SpecValue, Value,
};
use crate::keywords::Keyword;
use crate::token::{spec_advance, spec_head, spec_head_is_keyword, SpecToken, Token, Word};

verus! {

/// A copy of a token, field by field.
pub fn clone_token(t: &Token) -> (r: Token)
    ensures
        r@ == t@,
{
    match t {
        Token::Word(w) => Token::Word(Word { value: w.value.clone(), keyword: w.keyword }),
        Token::Number(n, l) => Token::Number(n.clone(), *l),
        Token::SingleQuotedString(s) => Token::SingleQuotedString(s.clone()),
        Token::LParen => Token::LParen,
        Token::RParen => Token::RParen,
        Token::Comma => Token::Comma,
        Token::Eq => Token::Eq,
        Token::EndOfStream => Token::EndOfStream,
    }
}

/// Whether a slice of keywords holds a given keyword.
pub fn slice_contains_keyword(s: &[Keyword], kw: Keyword) -> (b: bool)
    ensures
        b == s@.contains(kw),
{
    let mut i: usize = 0;
    while i < s.len()
        invariant
            i <= s@.len(),
            forall|j: int| 0 <= j < i ==> s@[j] != kw,
        decreases s@.len() - i,
    {
        if s[i] == kw {
            return true;
        }
        i = i + 1;
    }
    assert(!s@.contains(kw));
    false
}

/// The stream after an optional `=` sign is consumed.
pub open spec fn spec_skip_optional_eq(t: Seq<SpecToken>) -> Seq<SpecToken> {
    if spec_head(t) is Eq {
        spec_advance(t)
    } else {
        t
    }
}

/// What parsing one identifier does to a stream: the front word becomes the
/// identifier; any other front token is consumed and reported.
pub open spec fn spec_parse_identifier(t: Seq<SpecToken>) -> (Result<Seq<char>, SpecError>, Seq<
    SpecToken,
>) {
    let h = spec_head(t);
    match h {
        SpecToken::Word { value, .. } => (Ok(value), spec_advance(t)),
        _ => (Err(SpecError::Expected { what: Expectation::Identifier, found: h }), spec_advance(t)),
    }
}

/// What parsing an optional table alias does to a stream.  An alias is an
/// `AS`-prefixed word, or a bare word whose keyword tag is not reserved.
pub open spec fn spec_parse_optional_alias(t: Seq<SpecToken>, reserved: Seq<Keyword>) -> (Result<
    Option<Seq<char>>,
    SpecError,
>, Seq<SpecToken>) {
    if spec_head_is_keyword(t, Keyword::AS) {
        let t1 = spec_advance(t);
        match spec_parse_identifier(t1) {
            (Ok(value), t2) => (Ok(Some(value)), t2),
            (Err(e), t2) => (Err(e), t2),
        }
    } else {
        match spec_head(t) {
            SpecToken::Word { value, keyword } => if !reserved.contains(keyword) {
                (Ok(Some(value)), spec_advance(t))
            } else {
                (Ok(None), t)
            },
            _ => (Ok(None), t),
        }
    }
}

/// A stand-in for the host's expression grammar at the precision this module
/// relies on: a single operand token becomes an expression.
pub open spec fn spec_parse_expr(t: Seq<SpecToken>) -> (Result<SpecExpr, SpecError>, Seq<
    SpecToken,
>) {
    let h = spec_head(t);
    match h {
        SpecToken::Word { value, .. } => (Ok(SpecExpr::Identifier(value)), spec_advance(t)),
        SpecToken::Number(n, l) => (Ok(SpecExpr::Value(SpecValue::Number(n, l))), spec_advance(t)),
        SpecToken::SingleQuotedString(s) => (
            Ok(SpecExpr::Value(SpecValue::SingleQuotedString(s))),
            spec_advance(t),
        ),
        _ => (Err(SpecError::Expected { what: Expectation::Expression, found: h }), spec_advance(t)),
    }
}

/// The token cursor the host parser owns.  A hook borrows it for the
/// duration of one call; consumed tokens are handed out by value, and an
/// exhausted cursor yields `EndOfStream` without moving.
pub struct Parser {
    tokens: Vec<Token>,
}

impl Parser {
    /// The models of the tokens not yet consumed.
    pub closed spec fn remaining(&self) -> Seq<SpecToken> {
        self.tokens.deep_view()
    }

    pub fn new(tokens: Vec<Token>) -> (p: Parser)
        ensures
            p.remaining() == tokens.deep_view(),
    {
        Parser { tokens }
    }

    /// How many tokens are left to consume.
    pub fn tokens_left(&self) -> (n: usize)
        ensures
            n == self.remaining().len(),
    {
        self.tokens.len()
    }

    /// Consumes and returns the front token.
    pub fn next_token(&mut self) -> (t: Token)
        ensures
            t@ == spec_head(old(self).remaining()),
            final(self).remaining() == spec_advance(old(self).remaining()),
    {
        if self.tokens.len() > 0 {
            let t = self.tokens.remove(0);
            proof {
                assert(self.remaining() =~= spec_advance(old(self).remaining()));
            }
            t
        } else {
            Token::EndOfStream
        }
    }

    /// A copy of the front token; the cursor does not move.
    pub fn peek_token(&self) -> (t: Token)
        ensures
            t@ == spec_head(self.remaining()),
    {
        if self.tokens.len() > 0 {
            clone_token(&self.tokens[0])
        } else {
            Token::EndOfStream
        }
    }

    /// Whether the front token is a word tagged with keyword `kw`; the
    /// cursor does not move.
    pub fn peek_is_keyword(&self, kw: Keyword) -> (b: bool)
        ensures
            b == spec_head_is_keyword(self.remaining(), kw),
    {
        if self.tokens.len() > 0 {
            match &self.tokens[0] {
                Token::Word(w) => w.keyword == kw,
                _ => false,
            }
        } else {
            false
        }
    }

    /// The keyword tag of the front token, if that token is a word; the
    /// cursor does not move.
    pub fn peek_word_keyword(&self) -> (k: Option<Keyword>)
        ensures
            match k {
                Some(kw) => spec_head(self.remaining()) matches SpecToken::Word { keyword, .. }
                    && keyword == kw,
                None => !(spec_head(self.remaining()) is Word),
            },
    {
        if self.tokens.len() > 0 {
            match &self.tokens[0] {
                Token::Word(w) => Some(w.keyword),
                _ => None,
            }
        } else {
            None
        }
    }

    /// Whether the token after the front one is a word tagged with `kw`;
    /// the cursor does not move.
    fn peek_second_is_keyword(&self, kw: Keyword) -> (b: bool)
        ensures
            b == spec_head_is_keyword(spec_advance(self.remaining()), kw),
    {
        if self.tokens.len() > 1 {
            match &self.tokens[1] {
                Token::Word(w) => w.keyword == kw,
                _ => false,
            }
        } else {
            false
        }
    }

    /// Consumes the front token if it is a word tagged with keyword `kw`.
    pub fn parse_keyword(&mut self, kw: Keyword) -> (b: bool)
        ensures
            b == spec_head_is_keyword(old(self).remaining(), kw),
            final(self).remaining() == if b {
                spec_advance(old(self).remaining())
            } else {
                old(self).remaining()
            },
    {
        if self.peek_is_keyword(kw) {
            let _ = self.next_token();
            true
        } else {
            false
        }
    }

    /// Consumes two keywords, or nothing at all: an unmatched attempt
    /// leaves the cursor exactly where it was.
    pub fn parse_keyword_pair(&mut self, first: Keyword, second: Keyword) -> (b: bool)
        ensures
            b == (spec_head_is_keyword(old(self).remaining(), first) && spec_head_is_keyword(
                spec_advance(old(self).remaining()),
                second,
            )),
            final(self).remaining() == if b {
                spec_advance(spec_advance(old(self).remaining()))
            } else {
                old(self).remaining()
            },
    {
        if self.peek_is_keyword(first) && self.peek_second_is_keyword(second) {
            let _ = self.next_token();
            let _ = self.next_token();
            true
        } else {
            false
        }
    }

    /// Consumes the front token if it is an `=` sign.
    pub fn consume_eq_sign(&mut self) -> (b: bool)
        ensures
            b == (spec_head(old(self).remaining()) is Eq),
            final(self).remaining() == spec_skip_optional_eq(old(self).remaining()),
    {
        let advance = self.tokens.len() > 0 && matches!(&self.tokens[0], Token::Eq);
        if advance {
            let _ = self.next_token();
            true
        } else {
            false
        }
    }

    /// Consumes the front token if it is a comma.
    pub fn consume_comma(&mut self) -> (b: bool)
        ensures
            b == (spec_head(old(self).remaining()) is Comma),
            final(self).remaining() == if b {
                spec_advance(old(self).remaining())
            } else {
                old(self).remaining()
            },
    {
        let advance = self.tokens.len() > 0 && matches!(&self.tokens[0], Token::Comma);
        if advance {
            let _ = self.next_token();
            true
        } else {
            false
        }
    }

    /// Whether the front token is a closing parenthesis; the cursor does
    /// not move.
    pub fn peek_is_rparen(&self) -> (b: bool)
        ensures
            b == (spec_head(self.remaining()) is RParen),
    {
        self.tokens.len() > 0 && matches!(&self.tokens[0], Token::RParen)
    }

    /// Requires a closing parenthesis: consumes it, or reports the token
    /// found in its place without moving the cursor.
    pub fn expect_rparen(&mut self) -> (r: Result<(), ParserError>)
        ensures
            ({
                let h = spec_head(old(self).remaining());
                if h is RParen {
                    r is Ok && final(self).remaining() == spec_advance(old(self).remaining())
                } else {
                    &&& r matches Err(e) && e@ == SpecError::Expected {
                        what: Expectation::RParen,
                        found: h,
                    }
                    &&& final(self).remaining() == old(self).remaining()
                }
            }),
    {
        if self.peek_is_rparen() {
            let _ = self.next_token();
            Ok(())
        } else {
            Err(ParserError::Expected { what: Expectation::RParen, found: self.peek_token() })
        }
    }

    /// Parses one identifier: the front token must be a word.
    pub fn parse_identifier(&mut self) -> (r: Result<Ident, ParserError>)
        ensures
            result_matches(r, spec_parse_identifier(old(self).remaining()).0),
            final(self).remaining() == spec_parse_identifier(old(self).remaining()).1,
    {
        let t = self.next_token();
        match t {
            Token::Word(w) => Ok(Ident { value: w.value }),
            other => Err(ParserError::Expected { what: Expectation::Identifier, found: other }),
        }
    }

    /// Parses an optional alias: an `AS`-prefixed word, or a bare word
    /// whose keyword tag is not one of the `reserved` keywords.
    pub fn parse_optional_alias(&mut self, reserved: &[Keyword]) -> (r: Result<
        Option<Ident>,
        ParserError,
    >)
        ensures
            result_matches(r, spec_parse_optional_alias(old(self).remaining(), reserved@).0),
            final(self).remaining() == spec_parse_optional_alias(
                old(self).remaining(),
                reserved@,
            ).1,
    {
        if self.parse_keyword(Keyword::AS) {
            match self.parse_identifier() {
                Ok(id) => Ok(Some(id)),
                Err(e) => Err(e),
            }
        } else {
            let implicit = if self.tokens.len() > 0 {
                match &self.tokens[0] {
                    Token::Word(w) => !slice_contains_keyword(reserved, w.keyword),
                    _ => false,
                }
            } else {
                false
            };
            if implicit {
                match self.parse_identifier() {
                    Ok(id) => Ok(Some(id)),
                    Err(e) => Err(e),
                }
            } else {
                Ok(None)
            }
        }
    }

    /// Parses one expression operand, standing in for the host's full
    /// expression grammar.
    pub fn parse_expr(&mut self) -> (r: Result<Expr, ParserError>)
        ensures
            result_matches(r, spec_parse_expr(old(self).remaining()).0),
            final(self).remaining() == spec_parse_expr(old(self).remaining()).1,
    {
        let t = self.next_token();
        match t {
            Token::Word(w) => Ok(Expr::Identifier(Ident { value: w.value })),
            Token::Number(n, l) => Ok(Expr::Value(Value::Number(n, l))),
            Token::SingleQuotedString(s) => Ok(Expr::Value(Value::SingleQuotedString(s))),
            other => Err(ParserError::Expected { what: Expectation::Expression, found: other }),
        }
    }
}

} // verus!
