use mysql_dialect::ast::{
    Expectation, Ident, LockTable, LockTableType, ParserError, Statement,
};
use mysql_dialect::dialect::MySqlDialect;
use mysql_dialect::keywords::Keyword;
use mysql_dialect::parser::Parser;
use mysql_dialect::statements::{parse_lock_table, parse_lock_tables_type, parse_unlock_tables};
use mysql_dialect::token::{Token, Word};

fn kw(text: &str, keyword: Keyword) -> Token {
    Token::Word(Word { value: text.to_string(), keyword })
}

fn word(text: &str) -> Token {
    Token::Word(Word { value: text.to_string(), keyword: Keyword::NoKeyword })
}

fn ident(text: &str) -> Ident {
    Ident { value: text.to_string() }
}

fn parse_stmt(tokens: Vec<Token>) -> (Option<Result<Statement, ParserError>>, usize) {
    let dialect = MySqlDialect::new();
    let mut parser = Parser::new(tokens);
    let r = dialect.parse_statement(&mut parser);
    let left = parser.tokens_left();
    (r, left)
}

fn entry(table: &str, alias: Option<&str>, lock_type: LockTableType) -> LockTable {
    LockTable { table: ident(table), alias: alias.map(ident), lock_type }
}

#[test]
fn lock_tables_read_and_low_priority_write() {
    let (r, left) = parse_stmt(vec![
        kw("LOCK", Keyword::LOCK),
        kw("TABLES", Keyword::TABLES),
        word("t1"),
        kw("READ", Keyword::READ),
        Token::Comma,
        word("t2"),
        kw("LOW_PRIORITY", Keyword::LOW_PRIORITY),
        kw("WRITE", Keyword::WRITE),
    ]);
    assert_eq!(
        r,
        Some(Ok(Statement::LockTables {
            tables: vec![
                entry("t1", None, LockTableType::Read { local: false }),
                entry("t2", None, LockTableType::Write { low_priority: true }),
            ],
        }))
    );
    assert_eq!(left, 0);
}

#[test]
fn lock_tables_read_local() {
    let (r, _) = parse_stmt(vec![
        kw("LOCK", Keyword::LOCK),
        kw("TABLES", Keyword::TABLES),
        word("t"),
        kw("READ", Keyword::READ),
        kw("LOCAL", Keyword::LOCAL),
    ]);
    assert_eq!(
        r,
        Some(Ok(Statement::LockTables {
            tables: vec![entry("t", None, LockTableType::Read { local: true })],
        }))
    );
}

#[test]
fn lock_tables_write() {
    let (r, _) = parse_stmt(vec![
        kw("LOCK", Keyword::LOCK),
        kw("TABLES", Keyword::TABLES),
        word("t"),
        kw("WRITE", Keyword::WRITE),
    ]);
    assert_eq!(
        r,
        Some(Ok(Statement::LockTables {
            tables: vec![entry("t", None, LockTableType::Write { low_priority: false })],
        }))
    );
}

#[test]
fn lock_tables_with_as_alias() {
    let (r, _) = parse_stmt(vec![
        kw("LOCK", Keyword::LOCK),
        kw("TABLES", Keyword::TABLES),
        word("t1"),
        kw("AS", Keyword::AS),
        word("a1"),
        kw("READ", Keyword::READ),
    ]);
    assert_eq!(
        r,
        Some(Ok(Statement::LockTables {
            tables: vec![entry("t1", Some("a1"), LockTableType::Read { local: false })],
        }))
    );
}

#[test]
fn lock_tables_with_implicit_alias() {
    let (r, _) = parse_stmt(vec![
        kw("LOCK", Keyword::LOCK),
        kw("TABLES", Keyword::TABLES),
        word("t1"),
        word("a1"),
        kw("WRITE", Keyword::WRITE),
    ]);
    assert_eq!(
        r,
        Some(Ok(Statement::LockTables {
            tables: vec![entry("t1", Some("a1"), LockTableType::Write { low_priority: false })],
        }))
    );
}

#[test]
fn lock_type_keywords_are_not_aliases() {
    // WRITE directly after the table name must be read as the lock type,
    // never as an implicit alias
    let mut parser = Parser::new(vec![word("t1"), kw("WRITE", Keyword::WRITE)]);
    let r = parse_lock_table(&mut parser);
    assert_eq!(r, Ok(entry("t1", None, LockTableType::Write { low_priority: false })));
}

#[test]
fn missing_lock_type_is_an_error() {
    let (r, _) = parse_stmt(vec![
        kw("LOCK", Keyword::LOCK),
        kw("TABLES", Keyword::TABLES),
        word("t1"),
        Token::Comma,
    ]);
    assert_eq!(
        r,
        Some(Err(ParserError::Expected {
            what: Expectation::LockType,
            found: Token::Comma,
        }))
    );
}

#[test]
fn lock_tables_type_rejects_other_tokens() {
    let mut parser = Parser::new(vec![word("NONSENSE")]);
    let r = parse_lock_tables_type(&mut parser);
    assert_eq!(
        r,
        Err(ParserError::Expected { what: Expectation::LockType, found: word("NONSENSE") })
    );
    // nothing was consumed
    assert_eq!(parser.tokens_left(), 1);
}

#[test]
fn unlock_tables_ignores_trailing_tokens() {
    let (r, left) = parse_stmt(vec![
        kw("UNLOCK", Keyword::UNLOCK),
        kw("TABLES", Keyword::TABLES),
        word("anything"),
        Token::Comma,
    ]);
    assert_eq!(r, Some(Ok(Statement::UnlockTables)));
    assert_eq!(left, 2);
}

#[test]
fn unlock_tables_consumes_no_arguments() {
    let mut parser = Parser::new(vec![word("rest")]);
    let r = parse_unlock_tables(&mut parser);
    assert_eq!(r, Ok(Statement::UnlockTables));
    assert_eq!(parser.tokens_left(), 1);
}

#[test]
fn other_statements_are_not_handled() {
    let (r, left) = parse_stmt(vec![word("SELECT"), word("x")]);
    assert_eq!(r, None);
    assert_eq!(left, 2);
}

#[test]
fn lock_without_tables_consumes_nothing() {
    let (r, left) = parse_stmt(vec![kw("LOCK", Keyword::LOCK), word("t1")]);
    assert_eq!(r, None);
    assert_eq!(left, 2);
}

#[test]
fn lock_tables_statement_reparses_to_equal_node() {
    let tokens = || {
        vec![
            kw("LOCK", Keyword::LOCK),
            kw("TABLES", Keyword::TABLES),
            word("t1"),
            kw("AS", Keyword::AS),
            word("a1"),
            kw("READ", Keyword::READ),
            kw("LOCAL", Keyword::LOCAL),
            Token::Comma,
            word("t2"),
            kw("LOW_PRIORITY", Keyword::LOW_PRIORITY),
            kw("WRITE", Keyword::WRITE),
        ]
    };
    let (first, _) = parse_stmt(tokens());
    let node = first.unwrap().unwrap();
    let (second, left) = parse_stmt(tokens());
    assert_eq!(second.unwrap().unwrap(), node);
    assert_eq!(left, 0);
}
