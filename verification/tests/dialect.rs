use mysql_dialect::ast::{BinaryOperator, Expr, Ident, ParserError, Value};
use mysql_dialect::dialect::MySqlDialect;
use mysql_dialect::keywords::Keyword;
use mysql_dialect::parser::Parser;
use mysql_dialect::token::{Token, Word};

fn kw(text: &str, keyword: Keyword) -> Token {
    Token::Word(Word { value: text.to_string(), keyword })
}

fn word(text: &str) -> Token {
    Token::Word(Word { value: text.to_string(), keyword: Keyword::NoKeyword })
}

fn ident_expr(text: &str) -> Expr {
    Expr::Identifier(Ident { value: text.to_string() })
}

#[test]
fn digits_never_start_but_do_continue_identifiers() {
    let d = MySqlDialect::new();
    for c in ['0', '1', '5', '9'] {
        assert!(!d.is_identifier_start(c));
        assert!(d.is_identifier_part(c));
    }
}

#[test]
fn identifier_start_characters() {
    let d = MySqlDialect::new();
    for c in ['a', 'Z', '_', '$', '@'] {
        assert!(d.is_identifier_start(c));
        assert!(d.is_identifier_part(c));
    }
    // the vendor's extended range for multibyte identifiers
    assert!(d.is_identifier_start('\u{0080}'));
    assert!(d.is_identifier_start('\u{00e9}'));
    assert!(d.is_identifier_start('\u{ffff}'));
    // outside the range, only alphabetic characters qualify
    assert!(d.is_identifier_start('\u{10400}'));
    assert!(!d.is_identifier_start('\u{10100}'));
    for c in [' ', '-', '!', '.'] {
        assert!(!d.is_identifier_start(c));
        assert!(!d.is_identifier_part(c));
    }
}

#[test]
fn delimited_identifiers_use_backquotes() {
    let d = MySqlDialect::new();
    assert!(d.is_delimited_identifier_start('`'));
    assert!(!d.is_delimited_identifier_start('"'));
    assert_eq!(d.identifier_quote_style("anything"), Some('`'));
}

#[test]
fn capability_flags_are_fixed() {
    let d = MySqlDialect::new();
    assert!(d.supports_string_literal_backslash_escape());
    assert!(d.ignores_wildcard_escapes());
    assert!(d.supports_numeric_prefix());
    assert!(d.require_interval_qualifier());
    assert!(d.supports_limit_comma());
    assert!(d.supports_create_table_select());
    assert!(d.supports_insert_set());
    assert!(d.supports_user_host_grantee());
    assert!(d.supports_table_hints());
    assert!(d.requires_single_line_comment_whitespace());
    assert!(d.supports_match_against());
    assert!(d.supports_set_names());
    assert!(d.supports_comma_separated_set_assignments());
}

#[test]
fn table_factor_alias_rules() {
    let d = MySqlDialect::new();
    let host_reserved = [Keyword::UNION, Keyword::LOCK];
    // an explicit alias always stands
    assert!(d.is_table_factor_alias(true, Keyword::USE, &host_reserved));
    // this dialect additionally reserves USE, IGNORE and FORCE
    assert!(!d.is_table_factor_alias(false, Keyword::USE, &host_reserved));
    assert!(!d.is_table_factor_alias(false, Keyword::IGNORE, &host_reserved));
    assert!(!d.is_table_factor_alias(false, Keyword::FORCE, &host_reserved));
    // the host's own reserved words are respected
    assert!(!d.is_table_factor_alias(false, Keyword::UNION, &host_reserved));
    // anything else may serve as an alias
    assert!(d.is_table_factor_alias(false, Keyword::NoKeyword, &host_reserved));
}

#[test]
fn div_parses_as_integer_division() {
    let d = MySqlDialect::new();
    let mut parser = Parser::new(vec![kw("DIV", Keyword::DIV), word("b")]);
    let r = d.parse_infix(&mut parser, ident_expr("a"), 20);
    assert_eq!(
        r,
        Some(Ok(Expr::BinaryOp {
            left: Box::new(ident_expr("a")),
            op: BinaryOperator::MyIntegerDivide,
            right: Box::new(ident_expr("b")),
        }))
    );
    assert_eq!(parser.tokens_left(), 0);
}

#[test]
fn div_binds_numeric_right_operand() {
    let d = MySqlDialect::new();
    let mut parser = Parser::new(vec![kw("DIV", Keyword::DIV), Token::Number("2".to_string(), false)]);
    // the precedence argument is intentionally ignored
    let r = d.parse_infix(&mut parser, ident_expr("a"), 0);
    assert_eq!(
        r,
        Some(Ok(Expr::BinaryOp {
            left: Box::new(ident_expr("a")),
            op: BinaryOperator::MyIntegerDivide,
            right: Box::new(Expr::Value(Value::Number("2".to_string(), false))),
        }))
    );
}

#[test]
fn non_div_infix_is_not_handled() {
    let d = MySqlDialect::new();
    let mut parser = Parser::new(vec![word("MOD"), word("b")]);
    let r = d.parse_infix(&mut parser, ident_expr("a"), 20);
    assert_eq!(r, None);
    assert_eq!(parser.tokens_left(), 2);
}

#[test]
fn div_with_missing_operand_propagates_failure() {
    let d = MySqlDialect::new();
    let mut parser = Parser::new(vec![kw("DIV", Keyword::DIV), Token::RParen]);
    let r = d.parse_infix(&mut parser, ident_expr("a"), 20);
    assert!(matches!(r, Some(Err(ParserError::Expected { .. }))));
}
