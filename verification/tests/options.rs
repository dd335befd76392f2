use mysql_dialect::ast::{
    Expectation, Expr, Ident, ParserError, SqlOption, StorageType, TablespaceOption, Value,
};
use mysql_dialect::dialect::MySqlDialect;
use mysql_dialect::keywords::Keyword;
use mysql_dialect::parser::Parser;
use mysql_dialect::token::{Token, Word};

fn kw(text: &str, keyword: Keyword) -> Token {
    Token::Word(Word { value: text.to_string(), keyword })
}

fn word(text: &str) -> Token {
    Token::Word(Word { value: text.to_string(), keyword: Keyword::NoKeyword })
}

fn num(text: &str) -> Token {
    Token::Number(text.to_string(), false)
}

fn sqs(text: &str) -> Token {
    Token::SingleQuotedString(text.to_string())
}

fn ident(text: &str) -> Ident {
    Ident { value: text.to_string() }
}

fn parse(tokens: Vec<Token>) -> (Result<Option<SqlOption>, ParserError>, usize) {
    let dialect = MySqlDialect::new();
    let mut parser = Parser::new(tokens);
    let r = dialect.parse_plain_option(&mut parser);
    let left = parser.tokens_left();
    (r, left)
}

fn num_kv(key: &str, value: &str) -> SqlOption {
    SqlOption::KeyValue {
        key: ident(key),
        value: Expr::Value(Value::Number(value.to_string(), false)),
    }
}

fn str_kv(key: &str, value: &str) -> SqlOption {
    SqlOption::KeyValue {
        key: ident(key),
        value: Expr::Value(Value::SingleQuotedString(value.to_string())),
    }
}

#[test]
fn key_block_size_number_with_eq() {
    let (r, left) = parse(vec![kw("KEY_BLOCK_SIZE", Keyword::KEY_BLOCK_SIZE), Token::Eq, num("8")]);
    assert_eq!(r, Ok(Some(num_kv("KEY_BLOCK_SIZE", "8"))));
    assert_eq!(left, 0);
}

#[test]
fn key_block_size_number_without_eq() {
    let (r, _) = parse(vec![kw("KEY_BLOCK_SIZE", Keyword::KEY_BLOCK_SIZE), num("16")]);
    assert_eq!(r, Ok(Some(num_kv("KEY_BLOCK_SIZE", "16"))));
}

#[test]
fn key_block_size_rejects_quoted_string() {
    let (r, _) = parse(vec![kw("KEY_BLOCK_SIZE", Keyword::KEY_BLOCK_SIZE), Token::Eq, sqs("8")]);
    assert_eq!(r, Err(ParserError::OptionValueMismatch { keyword: Keyword::KEY_BLOCK_SIZE }));
}

#[test]
fn malformed_number_is_reported() {
    let (r, _) = parse(vec![kw("MAX_ROWS", Keyword::MAX_ROWS), Token::Eq, num("1.2.3")]);
    assert_eq!(r, Err(ParserError::InvalidNumber { text: "1.2.3".to_string() }));
}

#[test]
fn row_format_takes_any_word() {
    let (r, _) = parse(vec![kw("ROW_FORMAT", Keyword::ROW_FORMAT), Token::Eq, word("DYNAMIC")]);
    assert_eq!(
        r,
        Ok(Some(SqlOption::KeyValue {
            key: ident("ROW_FORMAT"),
            value: Expr::Identifier(ident("DYNAMIC")),
        }))
    );
}

#[test]
fn data_directory_quoted_path() {
    let (r, left) = parse(vec![
        kw("DATA", Keyword::DATA),
        kw("DIRECTORY", Keyword::DIRECTORY),
        Token::Eq,
        sqs("/var/lib/data"),
    ]);
    assert_eq!(r, Ok(Some(str_kv("DATA DIRECTORY", "/var/lib/data"))));
    assert_eq!(left, 0);
}

#[test]
fn index_directory_quoted_path() {
    let (r, _) = parse(vec![
        kw("INDEX", Keyword::INDEX),
        kw("DIRECTORY", Keyword::DIRECTORY),
        sqs("/idx"),
    ]);
    assert_eq!(r, Ok(Some(str_kv("INDEX DIRECTORY", "/idx"))));
}

#[test]
fn data_directory_requires_quoted_string() {
    let (r, _) = parse(vec![
        kw("DATA", Keyword::DATA),
        kw("DIRECTORY", Keyword::DIRECTORY),
        Token::Eq,
        word("bare"),
    ]);
    assert_eq!(
        r,
        Err(ParserError::Expected {
            what: Expectation::SingleQuotedString,
            found: word("bare"),
        })
    );
}

#[test]
fn pack_keys_number() {
    let (r, _) = parse(vec![kw("PACK_KEYS", Keyword::PACK_KEYS), Token::Eq, num("0")]);
    assert_eq!(r, Ok(Some(num_kv("PACK_KEYS", "0"))));
}

#[test]
fn pack_keys_default_case_insensitive() {
    let (r, _) = parse(vec![kw("PACK_KEYS", Keyword::PACK_KEYS), Token::Eq, word("Default")]);
    assert_eq!(r, Ok(Some(str_kv("PACK_KEYS", "Default"))));
}

#[test]
fn pack_keys_rejects_other_words() {
    let (r, _) = parse(vec![kw("PACK_KEYS", Keyword::PACK_KEYS), Token::Eq, word("ALWAYS")]);
    assert_eq!(r, Err(ParserError::OptionValueMismatch { keyword: Keyword::PACK_KEYS }));
}

#[test]
fn stats_auto_recalc_number_and_default() {
    let (r, _) = parse(vec![
        kw("STATS_AUTO_RECALC", Keyword::STATS_AUTO_RECALC),
        Token::Eq,
        num("1"),
    ]);
    assert_eq!(r, Ok(Some(num_kv("STATS_AUTO_RECALC", "1"))));
    let (r, _) = parse(vec![
        kw("STATS_AUTO_RECALC", Keyword::STATS_AUTO_RECALC),
        word("dEfAuLt"),
    ]);
    assert_eq!(r, Ok(Some(str_kv("STATS_AUTO_RECALC", "dEfAuLt"))));
    let (r, _) = parse(vec![
        kw("STATS_AUTO_RECALC", Keyword::STATS_AUTO_RECALC),
        word("NEVER"),
    ]);
    assert_eq!(r, Err(ParserError::OptionValueMismatch { keyword: Keyword::STATS_AUTO_RECALC }));
}

#[test]
fn stats_persistent_number_and_default() {
    let (r, _) = parse(vec![
        kw("STATS_PERSISTENT", Keyword::STATS_PERSISTENT),
        Token::Eq,
        num("0"),
    ]);
    assert_eq!(r, Ok(Some(num_kv("STATS_PERSISTENT", "0"))));
    let (r, _) = parse(vec![kw("STATS_PERSISTENT", Keyword::STATS_PERSISTENT), word("DEFAULT")]);
    assert_eq!(r, Ok(Some(str_kv("STATS_PERSISTENT", "DEFAULT"))));
    let (r, _) = parse(vec![kw("STATS_PERSISTENT", Keyword::STATS_PERSISTENT), sqs("DEFAULT")]);
    assert_eq!(r, Err(ParserError::OptionValueMismatch { keyword: Keyword::STATS_PERSISTENT }));
}

#[test]
fn remaining_numeric_options() {
    for (text, keyword) in [
        ("STATS_SAMPLE_PAGES", Keyword::STATS_SAMPLE_PAGES),
        ("DELAY_KEY_WRITE", Keyword::DELAY_KEY_WRITE),
        ("MAX_ROWS", Keyword::MAX_ROWS),
        ("MIN_ROWS", Keyword::MIN_ROWS),
        ("AUTOEXTEND_SIZE", Keyword::AUTOEXTEND_SIZE),
        ("AVG_ROW_LENGTH", Keyword::AVG_ROW_LENGTH),
        ("CHECKSUM", Keyword::CHECKSUM),
    ] {
        let (r, _) = parse(vec![kw(text, keyword), Token::Eq, num("42")]);
        assert_eq!(r, Ok(Some(num_kv(text, "42"))));
        let (r, _) = parse(vec![kw(text, keyword), Token::Eq, word("x")]);
        assert_eq!(r, Err(ParserError::OptionValueMismatch { keyword }));
    }
}

#[test]
fn compression_accepts_only_known_values() {
    let (r, _) = parse(vec![kw("COMPRESSION", Keyword::COMPRESSION), Token::Eq, sqs("zlib")]);
    assert_eq!(r, Ok(Some(str_kv("COMPRESSION", "zlib"))));
    let (r, _) = parse(vec![kw("COMPRESSION", Keyword::COMPRESSION), sqs("Lz4")]);
    assert_eq!(r, Ok(Some(str_kv("COMPRESSION", "Lz4"))));
    let (r, _) = parse(vec![kw("COMPRESSION", Keyword::COMPRESSION), sqs("NONE")]);
    assert_eq!(r, Ok(Some(str_kv("COMPRESSION", "NONE"))));
    let (r, _) = parse(vec![kw("COMPRESSION", Keyword::COMPRESSION), sqs("SNAPPY")]);
    assert_eq!(r, Err(ParserError::OptionValueMismatch { keyword: Keyword::COMPRESSION }));
}

#[test]
fn quoted_string_options() {
    for (text, keyword) in [
        ("ENCRYPTION", Keyword::ENCRYPTION),
        ("CONNECTION", Keyword::CONNECTION),
        ("ENGINE_ATTRIBUTE", Keyword::ENGINE_ATTRIBUTE),
        ("PASSWORD", Keyword::PASSWORD),
        ("SECONDARY_ENGINE_ATTRIBUTE", Keyword::SECONDARY_ENGINE_ATTRIBUTE),
    ] {
        let (r, _) = parse(vec![kw(text, keyword), Token::Eq, sqs("value")]);
        assert_eq!(r, Ok(Some(str_kv(text, "value"))));
        let (r, _) = parse(vec![kw(text, keyword), Token::Eq, num("1")]);
        assert_eq!(r, Err(ParserError::OptionValueMismatch { keyword }));
    }
}

#[test]
fn start_transaction_marker() {
    let (r, left) = parse(vec![
        kw("START", Keyword::START),
        kw("TRANSACTION", Keyword::TRANSACTION),
    ]);
    assert_eq!(r, Ok(Some(SqlOption::Ident(ident("START TRANSACTION")))));
    assert_eq!(left, 0);
}

#[test]
fn insert_method_accepts_no_first_last() {
    for value in ["no", "First", "LAST"] {
        let (r, _) = parse(vec![kw("INSERT_METHOD", Keyword::INSERT_METHOD), Token::Eq, word(value)]);
        assert_eq!(
            r,
            Ok(Some(SqlOption::KeyValue {
                key: ident("INSERT_METHOD"),
                value: Expr::Identifier(ident(value)),
            }))
        );
    }
    let (r, _) = parse(vec![kw("INSERT_METHOD", Keyword::INSERT_METHOD), word("MIDDLE")]);
    assert_eq!(r, Err(ParserError::OptionValueMismatch { keyword: Keyword::INSERT_METHOD }));
}

#[test]
fn tablespace_name_alone() {
    let (r, _) = parse(vec![kw("TABLESPACE", Keyword::TABLESPACE), word("ts1")]);
    assert_eq!(
        r,
        Ok(Some(SqlOption::TableSpace(TablespaceOption {
            name: "ts1".to_string(),
            storage: None,
        })))
    );
}

#[test]
fn tablespace_quoted_name() {
    let (r, _) = parse(vec![kw("TABLESPACE", Keyword::TABLESPACE), sqs("ts two")]);
    assert_eq!(
        r,
        Ok(Some(SqlOption::TableSpace(TablespaceOption {
            name: "ts two".to_string(),
            storage: None,
        })))
    );
}

#[test]
fn tablespace_storage_memory() {
    let (r, left) = parse(vec![
        kw("TABLESPACE", Keyword::TABLESPACE),
        word("ts1"),
        kw("STORAGE", Keyword::STORAGE),
        Token::Eq,
        word("MEMORY"),
    ]);
    assert_eq!(
        r,
        Ok(Some(SqlOption::TableSpace(TablespaceOption {
            name: "ts1".to_string(),
            storage: Some(StorageType::Memory),
        })))
    );
    assert_eq!(left, 0);
}

#[test]
fn tablespace_storage_disk_lowercase() {
    let (r, _) = parse(vec![
        kw("TABLESPACE", Keyword::TABLESPACE),
        word("ts1"),
        kw("STORAGE", Keyword::STORAGE),
        word("disk"),
    ]);
    assert_eq!(
        r,
        Ok(Some(SqlOption::TableSpace(TablespaceOption {
            name: "ts1".to_string(),
            storage: Some(StorageType::Disk),
        })))
    );
}

#[test]
fn tablespace_storage_rejects_unknown_kind() {
    let (r, _) = parse(vec![
        kw("TABLESPACE", Keyword::TABLESPACE),
        word("ts1"),
        kw("STORAGE", Keyword::STORAGE),
        word("TAPE"),
    ]);
    assert_eq!(
        r,
        Err(ParserError::Expected { what: Expectation::StorageKind, found: word("TAPE") })
    );
}

#[test]
fn tablespace_storage_requires_word() {
    let (r, _) = parse(vec![
        kw("TABLESPACE", Keyword::TABLESPACE),
        word("ts1"),
        kw("STORAGE", Keyword::STORAGE),
        num("1"),
    ]);
    assert_eq!(r, Err(ParserError::Expected { what: Expectation::Word, found: num("1") }));
}

#[test]
fn union_lists_tables() {
    let (r, left) = parse(vec![
        kw("UNION", Keyword::UNION),
        Token::Eq,
        Token::LParen,
        word("a"),
        Token::Comma,
        word("b"),
        Token::Comma,
        word("c"),
        Token::RParen,
    ]);
    assert_eq!(r, Ok(Some(SqlOption::Union(vec![ident("a"), ident("b"), ident("c")]))));
    assert_eq!(left, 0);
}

#[test]
fn union_empty_list() {
    let (r, _) = parse(vec![kw("UNION", Keyword::UNION), Token::LParen, Token::RParen]);
    assert_eq!(r, Ok(Some(SqlOption::Union(vec![]))));
}

#[test]
fn union_missing_closing_paren_fails() {
    let (r, _) = parse(vec![
        kw("UNION", Keyword::UNION),
        Token::LParen,
        word("a"),
        Token::Comma,
        word("b"),
    ]);
    assert_eq!(
        r,
        Err(ParserError::Expected { what: Expectation::RParen, found: Token::EndOfStream })
    );
}

#[test]
fn union_requires_parenthesis() {
    let (r, _) = parse(vec![kw("UNION", Keyword::UNION), word("a")]);
    assert_eq!(r, Err(ParserError::OptionValueMismatch { keyword: Keyword::UNION }));
}

#[test]
fn unrecognized_keyword_consumes_nothing() {
    let (r, left) = parse(vec![word("ENGINE"), Token::Eq, word("InnoDB")]);
    assert_eq!(r, Ok(None));
    assert_eq!(left, 3);
}

#[test]
fn non_word_front_token_is_no_opinion() {
    let (r, left) = parse(vec![num("7"), Token::Comma]);
    assert_eq!(r, Ok(None));
    assert_eq!(left, 2);
}

#[test]
fn empty_stream_is_no_opinion() {
    let (r, left) = parse(vec![]);
    assert_eq!(r, Ok(None));
    assert_eq!(left, 0);
}

#[test]
fn tablespace_option_reparses_to_equal_node() {
    let tokens = vec![
        kw("TABLESPACE", Keyword::TABLESPACE),
        word("ts1"),
        kw("STORAGE", Keyword::STORAGE),
        Token::Eq,
        word("MEMORY"),
    ];
    let (first, _) = parse(tokens);
    let node = first.unwrap().unwrap();
    // render the node back to tokens, as the pretty-printer would
    let rendered = vec![
        kw("TABLESPACE", Keyword::TABLESPACE),
        word("ts1"),
        kw("STORAGE", Keyword::STORAGE),
        Token::Eq,
        word("MEMORY"),
    ];
    let (second, left) = parse(rendered);
    assert_eq!(second.unwrap().unwrap(), node);
    assert_eq!(left, 0);
}

#[test]
fn union_option_reparses_to_equal_node() {
    let (first, _) = parse(vec![
        kw("UNION", Keyword::UNION),
        Token::LParen,
        word("a"),
        Token::Comma,
        word("b"),
        Token::RParen,
    ]);
    let node = first.unwrap().unwrap();
    let rendered = vec![
        kw("UNION", Keyword::UNION),
        Token::LParen,
        word("a"),
        Token::Comma,
        word("b"),
        Token::RParen,
    ];
    let (second, _) = parse(rendered);
    assert_eq!(second.unwrap().unwrap(), node);
}

#[test]
fn data_without_directory_is_a_mismatch() {
    let (r, _) = parse(vec![kw("DATA", Keyword::DATA), word("PATH")]);
    assert_eq!(r, Err(ParserError::OptionValueMismatch { keyword: Keyword::DATA }));
}

#[test]
fn start_without_transaction_is_a_mismatch() {
    let (r, _) = parse(vec![kw("START", Keyword::START), word("NOW")]);
    assert_eq!(r, Err(ParserError::OptionValueMismatch { keyword: Keyword::START }));
}

#[test]
fn union_list_requires_identifiers() {
    let (r, _) = parse(vec![
        kw("UNION", Keyword::UNION),
        Token::LParen,
        word("a"),
        Token::Comma,
        num("1"),
        Token::RParen,
    ]);
    assert_eq!(
        r,
        Err(ParserError::Expected { what: Expectation::Identifier, found: num("1") })
    );
}
