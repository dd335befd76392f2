use vstd::prelude::*;

use crate::ast::{
    result_matches, Expectation, Expr, Ident, ParserError, SpecError, SpecExpr, SpecOption,
    SpecValue, SqlOption, StorageType, TablespaceOption, Value,
};
use crate::dialect::MySqlDialect;
use crate::keywords::{is_option_keyword, spec_is_option_keyword, Keyword};
use crate::parser::{spec_skip_optional_eq, Parser};
use crate::text::{eq_ignore_ascii_case, is_number_text, spec_eq_ignore_ascii_case, spec_is_number_text};
use crate::token::{lemma_cons_head_advance, spec_advance, spec_head, spec_head_is_keyword, SpecToken, Token};

verus! {

/// A `key [=] number` option: the host numeric parser must accept the
/// literal's text.
pub open spec fn spec_numeric_option(key: Seq<char>, n: Seq<char>, l: bool) -> Result<
    Option<SpecOption>,
    SpecError,
> {
    if spec_is_number_text(n) {
        Ok(Some(SpecOption::KeyValue { key, value: SpecExpr::Value(SpecValue::Number(n, l)) }))
    } else {
        Err(SpecError::InvalidNumber { text: n })
    }
}

/// A `key [=] 'string'` option.
pub open spec fn spec_quoted_option(key: Seq<char>, s: Seq<char>) -> Result<
    Option<SpecOption>,
    SpecError,
> {
    Ok(
        Some(
            SpecOption::KeyValue { key, value: SpecExpr::Value(SpecValue::SingleQuotedString(s)) },
        ),
    )
}

/// `PACK_KEYS`-style options: a word value must read `DEFAULT` in any case,
/// and is then stored as a string value, case preserved.
pub open spec fn spec_default_word_option(key: Seq<char>, kw: Keyword, value: Seq<char>) -> Result<
    Option<SpecOption>,
    SpecError,
> {
    if spec_eq_ignore_ascii_case(value, "DEFAULT"@) {
        Ok(
            Some(
                SpecOption::KeyValue {
                    key,
                    value: SpecExpr::Value(SpecValue::SingleQuotedString(value)),
                },
            ),
        )
    } else {
        Err(SpecError::OptionValueMismatch { keyword: kw })
    }
}

/// `COMPRESSION` accepts only `ZLIB`, `LZ4` or `NONE`, in any case.
pub open spec fn spec_compression_option(s: Seq<char>) -> Result<Option<SpecOption>, SpecError> {
    if spec_eq_ignore_ascii_case(s, "ZLIB"@) || spec_eq_ignore_ascii_case(s, "LZ4"@)
        || spec_eq_ignore_ascii_case(s, "NONE"@) {
        spec_quoted_option("COMPRESSION"@, s)
    } else {
        Err(SpecError::OptionValueMismatch { keyword: Keyword::COMPRESSION })
    }
}

/// `INSERT_METHOD` accepts `NO`, `FIRST` or `LAST`, in any case, stored as
/// a bare identifier, case preserved.
pub open spec fn spec_insert_method_option(value: Seq<char>) -> Result<
    Option<SpecOption>,
    SpecError,
> {
    if spec_eq_ignore_ascii_case(value, "NO"@) || spec_eq_ignore_ascii_case(value, "FIRST"@)
        || spec_eq_ignore_ascii_case(value, "LAST"@) {
        Ok(
            Some(
                SpecOption::KeyValue {
                    key: "INSERT_METHOD"@,
                    value: SpecExpr::Identifier(value),
                },
            ),
        )
    } else {
        Err(SpecError::OptionValueMismatch { keyword: Keyword::INSERT_METHOD })
    }
}

/// `{DATA | INDEX} DIRECTORY [=] 'path'`: after the `DIRECTORY` word, an
/// optional `=` and then a single-quoted path.
pub open spec fn spec_directory_option(key: Seq<char>, t: Seq<SpecToken>) -> (Result<
    Option<SpecOption>,
    SpecError,
>, Seq<SpecToken>) {
    let t1 = spec_skip_optional_eq(t);
    let h = spec_head(t1);
    let t2 = spec_advance(t1);
    match h {
        SpecToken::SingleQuotedString(s) => (spec_quoted_option(key, s), t2),
        _ => (
            (Err(SpecError::Expected { what: Expectation::SingleQuotedString, found: h })),
            t2,
        ),
    }
}

/// `TABLESPACE name [STORAGE [=] {DISK | MEMORY}]`.
pub open spec fn spec_tablespace_option(name: Seq<char>, t: Seq<SpecToken>) -> (Result<
    Option<SpecOption>,
    SpecError,
>, Seq<SpecToken>) {
    if spec_head_is_keyword(t, Keyword::STORAGE) {
        let t1 = spec_skip_optional_eq(spec_advance(t));
        let h = spec_head(t1);
        let t2 = spec_advance(t1);
        match h {
            SpecToken::Word { value, .. } => if spec_eq_ignore_ascii_case(value, "DISK"@) {
                (
                    Ok(
                        Some(
                            SpecOption::TableSpace { name, storage: Some(StorageType::Disk) },
                        ),
                    ),
                    t2,
                )
            } else if spec_eq_ignore_ascii_case(value, "MEMORY"@) {
                (
                    Ok(
                        Some(
                            SpecOption::TableSpace { name, storage: Some(StorageType::Memory) },
                        ),
                    ),
                    t2,
                )
            } else {
                ((Err(SpecError::Expected { what: Expectation::StorageKind, found: h })), t2)
            },
            _ => ((Err(SpecError::Expected { what: Expectation::Word, found: h })), t2),
        }
    } else {
        (Ok(Some(SpecOption::TableSpace { name, storage: None })), t)
    }
}

/// A non-empty comma-separated identifier list, with no tolerance for a
/// trailing comma.
pub open spec fn spec_union_idents(t: Seq<SpecToken>) -> (Result<Seq<Seq<char>>, SpecError>, Seq<
    SpecToken,
>)
    decreases t.len(),
{
    let h = spec_head(t);
    let t1 = spec_advance(t);
    match h {
        SpecToken::Word { value, .. } => if spec_head(t1) is Comma {
            match spec_union_idents(spec_advance(t1)) {
                (Ok(rest), t2) => (Ok(seq![value] + rest), t2),
                (Err(e), t2) => (Err(e), t2),
            }
        } else {
            (Ok(seq![value]), t1)
        },
        _ => ((Err(SpecError::Expected { what: Expectation::Identifier, found: h })), t1),
    }
}

/// `UNION [=] (tbl_name, ...)`: a possibly empty identifier list up to and
/// requiring a matching closing parenthesis.
pub open spec fn spec_union_option(t: Seq<SpecToken>) -> (Result<Option<SpecOption>, SpecError>, Seq<
    SpecToken,
>) {
    if spec_head(t) is RParen {
        (Ok(Some(SpecOption::Union(Seq::empty()))), spec_advance(t))
    } else {
        match spec_union_idents(t) {
            (Ok(ids), t1) => if spec_head(t1) is RParen {
                (Ok(Some(SpecOption::Union(ids))), spec_advance(t1))
            } else {
                (
                    (Err(
                        SpecError::Expected { what: Expectation::RParen, found: spec_head(t1) },
                    )),
                    t1,
                )
            },
            (Err(e), t1) => (Err(e), t1),
        }
    }
}

/// The option-grammar engine's dispatch table: given the recognized option
/// keyword and the shape of its value token, the validated node, the error,
/// and what remains of the stream.
pub open spec fn spec_option_value(kw: Keyword, v: SpecToken, t: Seq<SpecToken>) -> (Result<
    Option<SpecOption>,
    SpecError,
>, Seq<SpecToken>) {
    match (kw, v) {
        (Keyword::KEY_BLOCK_SIZE, SpecToken::Number(n, l)) => (
            spec_numeric_option("KEY_BLOCK_SIZE"@, n, l),
            t,
        ),
        (Keyword::ROW_FORMAT, SpecToken::Word { value, .. }) => (
            Ok(Some(SpecOption::KeyValue { key: "ROW_FORMAT"@, value: SpecExpr::Identifier(value) })),
            t,
        ),
        (Keyword::DATA, SpecToken::Word { keyword, .. }) => if keyword == Keyword::DIRECTORY {
            spec_directory_option("DATA DIRECTORY"@, t)
        } else {
            ((Err(SpecError::OptionValueMismatch { keyword: Keyword::DATA })), t)
        },
        (Keyword::INDEX, SpecToken::Word { keyword, .. }) => if keyword == Keyword::DIRECTORY {
            spec_directory_option("INDEX DIRECTORY"@, t)
        } else {
            ((Err(SpecError::OptionValueMismatch { keyword: Keyword::INDEX })), t)
        },
        (Keyword::PACK_KEYS, SpecToken::Number(n, l)) => (
            spec_numeric_option("PACK_KEYS"@, n, l),
            t,
        ),
        (Keyword::PACK_KEYS, SpecToken::Word { value, .. }) => (
            spec_default_word_option("PACK_KEYS"@, Keyword::PACK_KEYS, value),
            t,
        ),
        (Keyword::STATS_AUTO_RECALC, SpecToken::Number(n, l)) => (
            spec_numeric_option("STATS_AUTO_RECALC"@, n, l),
            t,
        ),
        (Keyword::STATS_AUTO_RECALC, SpecToken::Word { value, .. }) => (
            spec_default_word_option("STATS_AUTO_RECALC"@, Keyword::STATS_AUTO_RECALC, value),
            t,
        ),
        (Keyword::STATS_PERSISTENT, SpecToken::Number(n, l)) => (
            spec_numeric_option("STATS_PERSISTENT"@, n, l),
            t,
        ),
        (Keyword::STATS_PERSISTENT, SpecToken::Word { value, .. }) => (
            spec_default_word_option("STATS_PERSISTENT"@, Keyword::STATS_PERSISTENT, value),
            t,
        ),
        (Keyword::STATS_SAMPLE_PAGES, SpecToken::Number(n, l)) => (
            spec_numeric_option("STATS_SAMPLE_PAGES"@, n, l),
            t,
        ),
        (Keyword::DELAY_KEY_WRITE, SpecToken::Number(n, l)) => (
            spec_numeric_option("DELAY_KEY_WRITE"@, n, l),
            t,
        ),
        (Keyword::COMPRESSION, SpecToken::SingleQuotedString(s)) => (
            spec_compression_option(s),
            t,
        ),
        (Keyword::ENCRYPTION, SpecToken::SingleQuotedString(s)) => (
            spec_quoted_option("ENCRYPTION"@, s),
            t,
        ),
        (Keyword::MAX_ROWS, SpecToken::Number(n, l)) => (spec_numeric_option("MAX_ROWS"@, n, l), t),
        (Keyword::MIN_ROWS, SpecToken::Number(n, l)) => (spec_numeric_option("MIN_ROWS"@, n, l), t),
        (Keyword::AUTOEXTEND_SIZE, SpecToken::Number(n, l)) => (
            spec_numeric_option("AUTOEXTEND_SIZE"@, n, l),
            t,
        ),
        (Keyword::AVG_ROW_LENGTH, SpecToken::Number(n, l)) => (
            spec_numeric_option("AVG_ROW_LENGTH"@, n, l),
            t,
        ),
        (Keyword::CHECKSUM, SpecToken::Number(n, l)) => (spec_numeric_option("CHECKSUM"@, n, l), t),
        (Keyword::CONNECTION, SpecToken::SingleQuotedString(s)) => (
            spec_quoted_option("CONNECTION"@, s),
            t,
        ),
        (Keyword::ENGINE_ATTRIBUTE, SpecToken::SingleQuotedString(s)) => (
            spec_quoted_option("ENGINE_ATTRIBUTE"@, s),
            t,
        ),
        (Keyword::PASSWORD, SpecToken::SingleQuotedString(s)) => (
            spec_quoted_option("PASSWORD"@, s),
            t,
        ),
        (Keyword::SECONDARY_ENGINE_ATTRIBUTE, SpecToken::SingleQuotedString(s)) => (
            spec_quoted_option("SECONDARY_ENGINE_ATTRIBUTE"@, s),
            t,
        ),
        (Keyword::START, SpecToken::Word { keyword, .. }) => if keyword == Keyword::TRANSACTION {
            (Ok(Some(SpecOption::Ident("START TRANSACTION"@))), t)
        } else {
            ((Err(SpecError::OptionValueMismatch { keyword: Keyword::START })), t)
        },
        (Keyword::INSERT_METHOD, SpecToken::Word { value, .. }) => (
            spec_insert_method_option(value),
            t,
        ),
        (Keyword::TABLESPACE, SpecToken::Word { value, .. }) => spec_tablespace_option(value, t),
        (Keyword::TABLESPACE, SpecToken::SingleQuotedString(s)) => spec_tablespace_option(s, t),
        (Keyword::UNION, SpecToken::LParen) => spec_union_option(t),
        _ => ((Err(SpecError::OptionValueMismatch { keyword: kw })), t),
    }
}

/// What the option-grammar engine does to a stream: no opinion and nothing
/// consumed unless the stream starts with a recognized option keyword;
/// otherwise the keyword, an optional `=` and the value tokens are consumed
/// and the dispatch table decides.
pub open spec fn spec_parse_plain_option(t: Seq<SpecToken>) -> (Result<
    Option<SpecOption>,
    SpecError,
>, Seq<SpecToken>) {
    match spec_head(t) {
        SpecToken::Word { keyword, .. } => if spec_is_option_keyword(keyword) {
            let t1 = spec_skip_optional_eq(spec_advance(t));
            let v = spec_head(t1);
            let t2 = spec_advance(t1);
            spec_option_value(keyword, v, t2)
        } else {
            (Ok(None), t)
        },
        _ => (Ok(None), t),
    }
}

/// An option keyword outside the dispatch table consumes nothing: the
/// engine returns "no opinion" so the host can try its own option grammar
/// from exactly the same position.
pub proof fn lemma_unrecognized_option_no_opinion(t: Seq<SpecToken>)
    requires
        !(spec_head(t) matches SpecToken::Word { keyword, .. } && spec_is_option_keyword(keyword)),
    ensures
        spec_parse_plain_option(t) == ((Ok::<Option<SpecOption>, SpecError>(None)), t),
{
}

/// `PACK_KEYS`, `STATS_AUTO_RECALC` and `STATS_PERSISTENT` accept a numeric
/// value, or the word `DEFAULT` in any case — stored as a string value,
/// case preserved — and reject every other word with an error naming the
/// keyword.
pub proof fn lemma_stats_option_values(
    kw: Keyword,
    key: Seq<char>,
    kwtext: Seq<char>,
    tag: Keyword,
    w: Seq<char>,
    n: Seq<char>,
    l: bool,
    rest: Seq<SpecToken>,
)
    requires
        (kw == Keyword::PACK_KEYS && key == "PACK_KEYS"@) || (kw == Keyword::STATS_AUTO_RECALC
            && key == "STATS_AUTO_RECALC"@) || (kw == Keyword::STATS_PERSISTENT && key
            == "STATS_PERSISTENT"@),
    ensures
        ({
            let t = seq![
                SpecToken::Word { value: kwtext, keyword: kw },
                SpecToken::Eq,
                SpecToken::Word { value: w, keyword: tag },
            ] + rest;
            spec_parse_plain_option(t) == if spec_eq_ignore_ascii_case(w, "DEFAULT"@) {
                (
                    Ok(
                        Some(
                            SpecOption::KeyValue {
                                key,
                                value: SpecExpr::Value(SpecValue::SingleQuotedString(w)),
                            },
                        ),
                    ),
                    rest,
                )
            } else {
                ((Err(SpecError::OptionValueMismatch { keyword: kw })), rest)
            }
        }),
        ({
            let t = seq![
                SpecToken::Word { value: kwtext, keyword: kw },
                SpecToken::Eq,
                SpecToken::Number(n, l),
            ] + rest;
            spec_parse_plain_option(t) == if spec_is_number_text(n) {
                (
                    Ok(
                        Some(
                            SpecOption::KeyValue {
                                key,
                                value: SpecExpr::Value(SpecValue::Number(n, l)),
                            },
                        ),
                    ),
                    rest,
                )
            } else {
                ((Err(SpecError::InvalidNumber { text: n })), rest)
            }
        }),
{
    let kwtok = SpecToken::Word { value: kwtext, keyword: kw };
    let wtok = SpecToken::Word { value: w, keyword: tag };
    let ntok = SpecToken::Number(n, l);
    assert(seq![kwtok, SpecToken::Eq, wtok] + rest =~= seq![kwtok] + (seq![SpecToken::Eq] + (
    seq![wtok] + rest)));
    assert(seq![kwtok, SpecToken::Eq, ntok] + rest =~= seq![kwtok] + (seq![SpecToken::Eq] + (
    seq![ntok] + rest)));
    lemma_cons_head_advance(kwtok, seq![SpecToken::Eq] + (seq![wtok] + rest));
    lemma_cons_head_advance(kwtok, seq![SpecToken::Eq] + (seq![ntok] + rest));
    lemma_cons_head_advance(SpecToken::Eq, seq![wtok] + rest);
    lemma_cons_head_advance(SpecToken::Eq, seq![ntok] + rest);
    lemma_cons_head_advance(wtok, rest);
    lemma_cons_head_advance(ntok, rest);
}

/// `COMPRESSION` accepts only `ZLIB`, `LZ4` or `NONE`, in any case; every
/// other quoted value falls to the error naming the keyword.
pub proof fn lemma_compression_values(
    kwtext: Seq<char>,
    s: Seq<char>,
    rest: Seq<SpecToken>,
)
    ensures
        ({
            let t = seq![
                SpecToken::Word { value: kwtext, keyword: Keyword::COMPRESSION },
                SpecToken::Eq,
                SpecToken::SingleQuotedString(s),
            ] + rest;
            spec_parse_plain_option(t) == if spec_eq_ignore_ascii_case(s, "ZLIB"@)
                || spec_eq_ignore_ascii_case(s, "LZ4"@) || spec_eq_ignore_ascii_case(s, "NONE"@) {
                (
                    Ok(
                        Some(
                            SpecOption::KeyValue {
                                key: "COMPRESSION"@,
                                value: SpecExpr::Value(SpecValue::SingleQuotedString(s)),
                            },
                        ),
                    ),
                    rest,
                )
            } else {
                (
                    (Err(SpecError::OptionValueMismatch { keyword: Keyword::COMPRESSION })),
                    rest,
                )
            }
        }),
{
    let kwtok = SpecToken::Word { value: kwtext, keyword: Keyword::COMPRESSION };
    let stok = SpecToken::SingleQuotedString(s);
    assert(seq![kwtok, SpecToken::Eq, stok] + rest =~= seq![kwtok] + (seq![SpecToken::Eq] + (
    seq![stok] + rest)));
    lemma_cons_head_advance(kwtok, seq![SpecToken::Eq] + (seq![stok] + rest));
    lemma_cons_head_advance(SpecToken::Eq, seq![stok] + rest);
    lemma_cons_head_advance(stok, rest);
}

fn numeric_option(key: &str, n: String, l: bool) -> (r: Result<Option<SqlOption>, ParserError>)
    ensures
        result_matches(r, spec_numeric_option(key@, n@, l)),
{
    if is_number_text(n.as_str()) {
        Ok(
            Some(
                SqlOption::KeyValue {
                    key: Ident { value: key.to_owned() },
                    value: Expr::Value(Value::Number(n, l)),
                },
            ),
        )
    } else {
        Err(ParserError::InvalidNumber { text: n })
    }
}

fn quoted_option(key: &str, s: String) -> (r: Result<Option<SqlOption>, ParserError>)
    ensures
        result_matches(r, spec_quoted_option(key@, s@)),
{
    Ok(
        Some(
            SqlOption::KeyValue {
                key: Ident { value: key.to_owned() },
                value: Expr::Value(Value::SingleQuotedString(s)),
            },
        ),
    )
}

fn default_word_option(key: &str, kw: Keyword, value: String) -> (r: Result<
    Option<SqlOption>,
    ParserError,
>)
    ensures
        result_matches(r, spec_default_word_option(key@, kw, value@)),
{
    if eq_ignore_ascii_case(value.as_str(), "DEFAULT") {
        Ok(
            Some(
                SqlOption::KeyValue {
                    key: Ident { value: key.to_owned() },
                    value: Expr::Value(Value::SingleQuotedString(value)),
                },
            ),
        )
    } else {
        Err(ParserError::OptionValueMismatch { keyword: kw })
    }
}

fn compression_option(s: String) -> (r: Result<Option<SqlOption>, ParserError>)
    ensures
        result_matches(r, spec_compression_option(s@)),
{
    if eq_ignore_ascii_case(s.as_str(), "ZLIB") || eq_ignore_ascii_case(s.as_str(), "LZ4")
        || eq_ignore_ascii_case(s.as_str(), "NONE") {
        quoted_option("COMPRESSION", s)
    } else {
        Err(ParserError::OptionValueMismatch { keyword: Keyword::COMPRESSION })
    }
}

fn insert_method_option(value: String) -> (r: Result<Option<SqlOption>, ParserError>)
    ensures
        result_matches(r, spec_insert_method_option(value@)),
{
    if eq_ignore_ascii_case(value.as_str(), "NO") || eq_ignore_ascii_case(value.as_str(), "FIRST")
        || eq_ignore_ascii_case(value.as_str(), "LAST") {
        Ok(
            Some(
                SqlOption::KeyValue {
                    key: Ident { value: "INSERT_METHOD".to_owned() },
                    value: Expr::Identifier(Ident { value }),
                },
            ),
        )
    } else {
        Err(ParserError::OptionValueMismatch { keyword: Keyword::INSERT_METHOD })
    }
}

fn directory_option(parser: &mut Parser, key: &str) -> (r: Result<Option<SqlOption>, ParserError>)
    ensures
        ({
            let (res, rem) = spec_directory_option(key@, old(parser).remaining());
            result_matches(r, res) && final(parser).remaining() == rem
        }),
{
    let _ = parser.consume_eq_sign();
    let next = parser.next_token();
    match next {
        Token::SingleQuotedString(s) => quoted_option(key, s),
        other => Err(ParserError::Expected { what: Expectation::SingleQuotedString, found: other }),
    }
}

fn tablespace_option(parser: &mut Parser, name: String) -> (r: Result<
    Option<SqlOption>,
    ParserError,
>)
    ensures
        ({
            let (res, rem) = spec_tablespace_option(name@, old(parser).remaining());
            result_matches(r, res) && final(parser).remaining() == rem
        }),
{
    if parser.parse_keyword(Keyword::STORAGE) {
        let _ = parser.consume_eq_sign();
        let st = parser.next_token();
        match st {
            Token::Word(w) => {
                if eq_ignore_ascii_case(w.value.as_str(), "DISK") {
                    Ok(
                        Some(
                            SqlOption::TableSpace(
                                TablespaceOption { name, storage: Some(StorageType::Disk) },
                            ),
                        ),
                    )
                } else if eq_ignore_ascii_case(w.value.as_str(), "MEMORY") {
                    Ok(
                        Some(
                            SqlOption::TableSpace(
                                TablespaceOption { name, storage: Some(StorageType::Memory) },
                            ),
                        ),
                    )
                } else {
                    Err(
                        ParserError::Expected {
                            what: Expectation::StorageKind,
                            found: Token::Word(w),
                        },
                    )
                }
            },
            other => Err(ParserError::Expected { what: Expectation::Word, found: other }),
        }
    } else {
        Ok(Some(SqlOption::TableSpace(TablespaceOption { name, storage: None })))
    }
}

fn union_idents(parser: &mut Parser) -> (r: Result<Vec<Ident>, ParserError>)
    ensures
        ({
            let (res, rem) = spec_union_idents(old(parser).remaining());
            result_matches(r, res) && final(parser).remaining() == rem
        }),
{
    let ghost orig = parser.remaining();
    let mut ids: Vec<Ident> = Vec::new();
    proof {
        match spec_union_idents(orig) {
            (Ok(rest), _) => {
                assert(ids.deep_view() + rest =~= rest);
            },
            _ => {},
        }
    }
    loop
        invariant
            orig == old(parser).remaining(),
            ({
                let (res_o, rem_o) = spec_union_idents(orig);
                let (res_c, rem_c) = spec_union_idents(parser.remaining());
                &&& (res_c matches Ok(rest) ==> res_o == Ok::<Seq<Seq<char>>, SpecError>(
                    ids.deep_view() + rest,
                ))
                &&& (res_c matches Err(e) ==> res_o == Err::<Seq<Seq<char>>, SpecError>(e))
                &&& rem_o == rem_c
            }),
        decreases parser.remaining().len(),
    {
        let ghost cur = parser.remaining();
        let ghost old_ids = ids.deep_view();
        match parser.parse_identifier() {
            Err(e) => {
                proof {
                    assert(spec_union_idents(cur).0 == Err::<Seq<Seq<char>>, SpecError>(
                        SpecError::Expected {
                            what: Expectation::Identifier,
                            found: spec_head(cur),
                        },
                    ));
                    assert(spec_union_idents(cur).1 == spec_advance(cur));
                }
                return Err(e);
            },
            Ok(id) => {
                ids.push(id);
                proof {
                    assert(ids.deep_view() =~= old_ids.push(id@));
                }
                if !parser.consume_comma() {
                    proof {
                        assert(spec_union_idents(cur).0 == Ok::<Seq<Seq<char>>, SpecError>(
                            seq![id@],
                        ));
                        assert(spec_union_idents(cur).1 == parser.remaining());
                        assert(old_ids + seq![id@] =~= ids.deep_view());
                    }
                    return Ok(ids);
                }
                proof {
                    match spec_union_idents(parser.remaining()) {
                        (Ok(rest), _) => {
                            assert(old_ids + (seq![id@] + rest) =~= ids.deep_view() + rest);
                        },
                        _ => {},
                    }
                }
            },
        }
    }
}

fn union_option(parser: &mut Parser) -> (r: Result<Option<SqlOption>, ParserError>)
    ensures
        ({
            let (res, rem) = spec_union_option(old(parser).remaining());
            result_matches(r, res) && final(parser).remaining() == rem
        }),
{
    if parser.peek_is_rparen() {
        let _ = parser.next_token();
        let tables: Vec<Ident> = Vec::new();
        proof {
            assert(tables.deep_view() =~= Seq::<Seq<char>>::empty());
        }
        Ok(Some(SqlOption::Union(tables)))
    } else {
        match union_idents(parser) {
            Ok(ids) => match parser.expect_rparen() {
                Ok(_) => Ok(Some(SqlOption::Union(ids))),
                Err(e) => Err(e),
            },
            Err(e) => Err(e),
        }
    }
}

impl MySqlDialect {
    /// The dialect's table/view option parser.  Returns `Ok(None)` without
    /// consuming a token when the stream does not start with one of this
    /// dialect's option keywords; otherwise consumes the keyword, an
    /// optional `=` and the value tokens and returns the validated option
    /// node, or the error that rules the value out.
    pub fn parse_plain_option(&self, parser: &mut Parser) -> (r: Result<
        Option<SqlOption>,
        ParserError,
    >)
        ensures
            ({
                let (res, rem) = spec_parse_plain_option(old(parser).remaining());
                result_matches(r, res) && final(parser).remaining() == rem
            }),
    {
        let kw = match parser.peek_word_keyword() {
            Some(k) => {
                if is_option_keyword(k) {
                    k
                } else {
                    return Ok(None);
                }
            },
            None => {
                return Ok(None);
            },
        };
        let _ = parser.next_token();
        let _ = parser.consume_eq_sign();
        let value = parser.next_token();
        match (kw, value) {
            (Keyword::KEY_BLOCK_SIZE, Token::Number(n, l)) => numeric_option("KEY_BLOCK_SIZE", n, l),
            (Keyword::ROW_FORMAT, Token::Word(w)) => Ok(
                Some(
                    SqlOption::KeyValue {
                        key: Ident { value: "ROW_FORMAT".to_owned() },
                        value: Expr::Identifier(Ident { value: w.value }),
                    },
                ),
            ),
            (Keyword::DATA, Token::Word(w)) => {
                if w.keyword == Keyword::DIRECTORY {
                    directory_option(parser, "DATA DIRECTORY")
                } else {
                    Err(ParserError::OptionValueMismatch { keyword: Keyword::DATA })
                }
            },
            (Keyword::INDEX, Token::Word(w)) => {
                if w.keyword == Keyword::DIRECTORY {
                    directory_option(parser, "INDEX DIRECTORY")
                } else {
                    Err(ParserError::OptionValueMismatch { keyword: Keyword::INDEX })
                }
            },
            (Keyword::PACK_KEYS, Token::Number(n, l)) => numeric_option("PACK_KEYS", n, l),
            (Keyword::PACK_KEYS, Token::Word(w)) => default_word_option(
                "PACK_KEYS",
                Keyword::PACK_KEYS,
                w.value,
            ),
            (Keyword::STATS_AUTO_RECALC, Token::Number(n, l)) => numeric_option(
                "STATS_AUTO_RECALC",
                n,
                l,
            ),
            (Keyword::STATS_AUTO_RECALC, Token::Word(w)) => default_word_option(
                "STATS_AUTO_RECALC",
                Keyword::STATS_AUTO_RECALC,
                w.value,
            ),
            (Keyword::STATS_PERSISTENT, Token::Number(n, l)) => numeric_option(
                "STATS_PERSISTENT",
                n,
                l,
            ),
            (Keyword::STATS_PERSISTENT, Token::Word(w)) => default_word_option(
                "STATS_PERSISTENT",
                Keyword::STATS_PERSISTENT,
                w.value,
            ),
            (Keyword::STATS_SAMPLE_PAGES, Token::Number(n, l)) => numeric_option(
                "STATS_SAMPLE_PAGES",
                n,
                l,
            ),
            (Keyword::DELAY_KEY_WRITE, Token::Number(n, l)) => numeric_option(
                "DELAY_KEY_WRITE",
                n,
                l,
            ),
            (Keyword::COMPRESSION, Token::SingleQuotedString(s)) => compression_option(s),
            (Keyword::ENCRYPTION, Token::SingleQuotedString(s)) => quoted_option("ENCRYPTION", s),
            (Keyword::MAX_ROWS, Token::Number(n, l)) => numeric_option("MAX_ROWS", n, l),
            (Keyword::MIN_ROWS, Token::Number(n, l)) => numeric_option("MIN_ROWS", n, l),
            (Keyword::AUTOEXTEND_SIZE, Token::Number(n, l)) => numeric_option(
                "AUTOEXTEND_SIZE",
                n,
                l,
            ),
            (Keyword::AVG_ROW_LENGTH, Token::Number(n, l)) => numeric_option("AVG_ROW_LENGTH", n, l),
            (Keyword::CHECKSUM, Token::Number(n, l)) => numeric_option("CHECKSUM", n, l),
            (Keyword::CONNECTION, Token::SingleQuotedString(s)) => quoted_option("CONNECTION", s),
            (Keyword::ENGINE_ATTRIBUTE, Token::SingleQuotedString(s)) => quoted_option(
                "ENGINE_ATTRIBUTE",
                s,
            ),
            (Keyword::PASSWORD, Token::SingleQuotedString(s)) => quoted_option("PASSWORD", s),
            (Keyword::SECONDARY_ENGINE_ATTRIBUTE, Token::SingleQuotedString(s)) => quoted_option(
                "SECONDARY_ENGINE_ATTRIBUTE",
                s,
            ),
            (Keyword::START, Token::Word(w)) => {
                if w.keyword == Keyword::TRANSACTION {
                    Ok(Some(SqlOption::Ident(Ident { value: "START TRANSACTION".to_owned() })))
                } else {
                    Err(ParserError::OptionValueMismatch { keyword: Keyword::START })
                }
            },
            (Keyword::INSERT_METHOD, Token::Word(w)) => insert_method_option(w.value),
            (Keyword::TABLESPACE, Token::Word(w)) => tablespace_option(parser, w.value),
            (Keyword::TABLESPACE, Token::SingleQuotedString(s)) => tablespace_option(parser, s),
            (Keyword::UNION, Token::LParen) => union_option(parser),
            (k, _) => Err(ParserError::OptionValueMismatch { keyword: k }),
        }
    }
}

} // verus!
