use vstd::prelude::*;

use crate::ast::{opt_result_matches, BinaryOperator, Expr, ParserError, SpecError, SpecExpr};
use crate::keywords::{is_mysql_alias_reserved, spec_is_mysql_alias_reserved, Keyword};
use crate::parser::{slice_contains_keyword, spec_parse_expr, Parser};
use crate::text::{
    is_alphabetic, spec_is_identifier_part, spec_is_identifier_start,
};
use crate::token::{spec_advance, spec_head_is_keyword, SpecToken};

verus! {

/// The MySQL dialect: one immutable, stateless description of the vendor's
/// grammar deviations.  A single instance may be shared read-only across
/// independently running parses; nothing here is ever mutated.
pub struct MySqlDialect {}

/// What the infix extension hook does to a stream: if the front keyword is
/// the vendor's integer-division word it is consumed, the right operand is
/// parsed by the host's expression grammar, and the result is a binary
/// operation; otherwise nothing is consumed and the hook has no opinion.
pub open spec fn spec_parse_infix(t: Seq<SpecToken>, left: SpecExpr) -> (Option<
    Result<SpecExpr, SpecError>,
>, Seq<SpecToken>) {
    if spec_head_is_keyword(t, Keyword::DIV) {
        let t1 = spec_advance(t);
        match spec_parse_expr(t1) {
            (Ok(right), t2) => (
                Some(
                    Ok(
                        SpecExpr::BinaryOp {
                            left: Box::new(left),
                            op: BinaryOperator::MyIntegerDivide,
                            right: Box::new(right),
                        },
                    ),
                ),
                t2,
            ),
            (Err(e), t2) => (Some(Err(e)), t2),
        }
    } else {
        (None, t)
    }
}

impl MySqlDialect {
    pub fn new() -> (d: MySqlDialect) {
        MySqlDialect {  }
    }

    /// Whether a character may start an unquoted identifier.
    pub fn is_identifier_start(&self, ch: char) -> (r: bool)
        ensures
            r == spec_is_identifier_start(ch),
    {
        let u = ch as u32;
        if u < 128 {
            (65 <= u && u <= 90) || (97 <= u && u <= 122) || u == 95 || u == 36 || u == 64
        } else if u <= 65535 {
            true
        } else {
            is_alphabetic(ch)
        }
    }

    /// Whether a character may continue an identifier.
    pub fn is_identifier_part(&self, ch: char) -> (r: bool)
        ensures
            r == spec_is_identifier_part(ch),
    {
        if self.is_identifier_start(ch) {
            true
        } else {
            let u = ch as u32;
            48 <= u && u <= 57
        }
    }

    /// Whether a character opens a delimited identifier.
    pub fn is_delimited_identifier_start(&self, ch: char) -> (r: bool)
        ensures
            r == (ch == '`'),
    {
        ch == '`'
    }

    /// The quoting character the pretty-printer must use when re-emitting
    /// an identifier.
    pub fn identifier_quote_style(&self, _identifier: &str) -> (r: Option<char>)
        ensures
            r == Some('`'),
    {
        Some('`')
    }

    /// String literals interpret backslash escape sequences.
    pub fn supports_string_literal_backslash_escape(&self) -> (r: bool)
        ensures
            r,
    {
        true
    }

    /// A backslash before a wildcard in a `LIKE` pattern is kept as it is.
    pub fn ignores_wildcard_escapes(&self) -> (r: bool)
        ensures
            r,
    {
        true
    }

    /// Identifiers may begin with digits after a numeric literal prefix.
    pub fn supports_numeric_prefix(&self) -> (r: bool)
        ensures
            r,
    {
        true
    }

    /// `INTERVAL` expressions require an explicit unit qualifier.
    pub fn require_interval_qualifier(&self) -> (r: bool)
        ensures
            r,
    {
        true
    }

    /// `LIMIT offset, limit` is accepted.
    pub fn supports_limit_comma(&self) -> (r: bool)
        ensures
            r,
    {
        true
    }

    /// `CREATE TABLE ... SELECT` is accepted.
    pub fn supports_create_table_select(&self) -> (r: bool)
        ensures
            r,
    {
        true
    }

    /// `INSERT ... SET` is accepted.
    pub fn supports_insert_set(&self) -> (r: bool)
        ensures
            r,
    {
        true
    }

    /// `'user'@'host'` grantees are accepted.
    pub fn supports_user_host_grantee(&self) -> (r: bool)
        ensures
            r,
    {
        true
    }

    /// Table hints are accepted.
    pub fn supports_table_hints(&self) -> (r: bool)
        ensures
            r,
    {
        true
    }

    /// A single-line comment marker must be followed by whitespace.
    pub fn requires_single_line_comment_whitespace(&self) -> (r: bool)
        ensures
            r,
    {
        true
    }

    /// `MATCH ... AGAINST` is accepted.
    pub fn supports_match_against(&self) -> (r: bool)
        ensures
            r,
    {
        true
    }

    /// `SET NAMES` is accepted.
    pub fn supports_set_names(&self) -> (r: bool)
        ensures
            r,
    {
        true
    }

    /// `SET` accepts a comma-separated list of assignments.
    pub fn supports_comma_separated_set_assignments(&self) -> (r: bool)
        ensures
            r,
    {
        true
    }

    /// Whether a keyword may serve as a table-factor alias.  The host hands
    /// over the keywords its generic grammar reserves; this dialect
    /// additionally reserves `USE`, `IGNORE` and `FORCE`.
    pub fn is_table_factor_alias(&self, explicit: bool, kw: Keyword, host_reserved: &[Keyword]) -> (r:
        bool)
        ensures
            r == (explicit || (!host_reserved@.contains(kw) && !spec_is_mysql_alias_reserved(kw))),
    {
        explicit || (!slice_contains_keyword(host_reserved, kw) && !is_mysql_alias_reserved(kw))
    }

    /// The infix extension hook: recognizes the vendor's `DIV` operator
    /// after an already-parsed left operand.  The binding-precedence
    /// argument is part of the hook's interface and intentionally unused:
    /// `DIV` always commits its right operand to the host's expression
    /// grammar.
    pub fn parse_infix(&self, parser: &mut Parser, expr: Expr, _precedence: u8) -> (r: Option<
        Result<Expr, ParserError>,
    >)
        ensures
            ({
                let (res, rem) = spec_parse_infix(old(parser).remaining(), expr@);
                opt_result_matches(r, res) && final(parser).remaining() == rem
            }),
    {
        if parser.parse_keyword(Keyword::DIV) {
            match parser.parse_expr() {
                Ok(right) => Some(
                    Ok(
                        Expr::BinaryOp {
                            left: Box::new(expr),
                            op: BinaryOperator::MyIntegerDivide,
                            right: Box::new(right),
                        },
                    ),
                ),
                Err(e) => Some(Err(e)),
            }
        } else {
            None
        }
    }
}

} // verus!
