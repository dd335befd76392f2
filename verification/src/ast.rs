use vstd::prelude::*;

use crate::keywords::Keyword;
use crate::token::{SpecToken, Token};

verus! {

/// An identifier stored in an AST node.
#[derive(Debug, Clone, PartialEq, Eq)]
pub struct Ident {
    pub value: String,
}

impl View for Ident {
    type V = Seq<char>;

    open spec fn view(&self) -> Seq<char> {
        self.value@
    }
}

impl DeepView for Ident {
    type V = Seq<char>;

    open spec fn deep_view(&self) -> Seq<char> {
        self.view()
    }
}

/// A literal value appearing in an option node.
#[derive(Debug, Clone, PartialEq, Eq)]
pub enum Value {
    /// A numeric literal: validated raw text and whether a long suffix was
    /// attached to the token.
    Number(String, bool),
    /// A single-quoted string literal (quotes not included).
    SingleQuotedString(String),
}

/// The model of a [`Value`].
pub enum SpecValue {
    Number(Seq<char>, bool),
    SingleQuotedString(Seq<char>),
}

impl View for Value {
    type V = SpecValue;

    open spec fn view(&self) -> SpecValue {
        match self {
            Value::Number(n, l) => SpecValue::Number(n@, *l),
            Value::SingleQuotedString(s) => SpecValue::SingleQuotedString(s@),
        }
    }
}

impl DeepView for Value {
    type V = SpecValue;

    open spec fn deep_view(&self) -> SpecValue {
        self.view()
    }
}

/// The binary operators this dialect adds to the host's expression grammar.
#[derive(Debug, Clone, Copy, PartialEq, Eq, Structural)]
pub enum BinaryOperator {
    /// The vendor's integer-division operator, spelled `DIV`.
    MyIntegerDivide,
}

/// An expression, restricted to the forms this module constructs or
/// receives from the host.
#[derive(Debug, PartialEq, Eq)]
pub enum Expr {
    Identifier(Ident),
    Value(Value),
    BinaryOp { left: Box<Expr>, op: BinaryOperator, right: Box<Expr> },
}

/// The model of an [`Expr`].
pub enum SpecExpr {
    Identifier(Seq<char>),
    Value(SpecValue),
    BinaryOp { left: Box<SpecExpr>, op: BinaryOperator, right: Box<SpecExpr> },
}

/// The model of an expression tree.
pub open spec fn spec_view_expr(e: Expr) -> SpecExpr
    decreases e,
{
    match e {
        Expr::Identifier(id) => SpecExpr::Identifier(id@),
        Expr::Value(v) => SpecExpr::Value(v@),
        Expr::BinaryOp { left, op, right } => SpecExpr::BinaryOp {
            left: Box::new(spec_view_expr(*left)),
            op,
            right: Box::new(spec_view_expr(*right)),
        },
    }
}

impl View for Expr {
    type V = SpecExpr;

    open spec fn view(&self) -> SpecExpr {
        spec_view_expr(*self)
    }
}

impl DeepView for Expr {
    type V = SpecExpr;

    open spec fn deep_view(&self) -> SpecExpr {
        self.view()
    }
}

/// Where a tablespace keeps its data.
#[derive(Debug, Clone, Copy, PartialEq, Eq, Structural)]
pub enum StorageType {
    Disk,
    Memory,
}

/// The `TABLESPACE name [STORAGE {DISK | MEMORY}]` table option.
#[derive(Debug, Clone, PartialEq, Eq)]
pub struct TablespaceOption {
    pub name: String,
    pub storage: Option<StorageType>,
}

/// One table/view option as produced by the option-grammar engine.
#[derive(Debug, PartialEq, Eq)]
pub enum SqlOption {
    /// `key [=] value`
    KeyValue { key: Ident, value: Expr },
    /// A bare marker option with no value.
    Ident(Ident),
    /// `TABLESPACE name [STORAGE {DISK | MEMORY}]`
    TableSpace(TablespaceOption),
    /// `UNION [=] (tbl_name, ...)`
    Union(Vec<Ident>),
}

/// The model of a [`SqlOption`].
pub enum SpecOption {
    KeyValue { key: Seq<char>, value: SpecExpr },
    Ident(Seq<char>),
    TableSpace { name: Seq<char>, storage: Option<StorageType> },
    Union(Seq<Seq<char>>),
}

impl View for SqlOption {
    type V = SpecOption;

    open spec fn view(&self) -> SpecOption {
        match self {
            SqlOption::KeyValue { key, value } => SpecOption::KeyValue {
                key: key@,
                value: value@,
            },
            SqlOption::Ident(id) => SpecOption::Ident(id@),
            SqlOption::TableSpace(ts) => SpecOption::TableSpace {
                name: ts.name@,
                storage: ts.storage,
            },
            SqlOption::Union(tables) => SpecOption::Union(tables.deep_view()),
        }
    }
}

impl DeepView for SqlOption {
    type V = SpecOption;

    open spec fn deep_view(&self) -> SpecOption {
        self.view()
    }
}

/// The READ/WRITE mode and priority qualifier requested for one table lock.
#[derive(Debug, Clone, Copy, PartialEq, Eq, Structural)]
pub enum LockTableType {
    Read { local: bool },
    Write { low_priority: bool },
}

impl View for LockTableType {
    type V = LockTableType;

    open spec fn view(&self) -> LockTableType {
        *self
    }
}

impl DeepView for LockTableType {
    type V = LockTableType;

    open spec fn deep_view(&self) -> LockTableType {
        *self
    }
}

/// One entry of a `LOCK TABLES` statement.
#[derive(Debug, Clone, PartialEq, Eq)]
pub struct LockTable {
    pub table: Ident,
    pub alias: Option<Ident>,
    pub lock_type: LockTableType,
}

/// The model of a [`LockTable`].
pub struct SpecLockTable {
    pub table: Seq<char>,
    pub alias: Option<Seq<char>>,
    pub lock_type: LockTableType,
}

impl View for LockTable {
    type V = SpecLockTable;

    open spec fn view(&self) -> SpecLockTable {
        SpecLockTable { table: self.table@, alias: self.alias.deep_view(), lock_type: self.lock_type }
    }
}

impl DeepView for LockTable {
    type V = SpecLockTable;

    open spec fn deep_view(&self) -> SpecLockTable {
        self.view()
    }
}

/// The statements this dialect parses in full.
#[derive(Debug, Clone, PartialEq, Eq)]
pub enum Statement {
    LockTables { tables: Vec<LockTable> },
    UnlockTables,
}

/// The model of a [`Statement`].
pub enum SpecStatement {
    LockTables { tables: Seq<SpecLockTable> },
    UnlockTables,
}

impl View for Statement {
    type V = SpecStatement;

    open spec fn view(&self) -> SpecStatement {
        match self {
            Statement::LockTables { tables } => SpecStatement::LockTables {
                tables: tables.deep_view(),
            },
            Statement::UnlockTables => SpecStatement::UnlockTables,
        }
    }
}

impl DeepView for Statement {
    type V = SpecStatement;

    open spec fn deep_view(&self) -> SpecStatement {
        self.view()
    }
}

/// The token shape a structured "expected X, found Y" error asked for.
#[derive(Debug, Clone, Copy, PartialEq, Eq, Structural)]
pub enum Expectation {
    /// A single-quoted string token.
    SingleQuotedString,
    /// A word token.
    Word,
    /// A word reading `DISK` or `MEMORY`.
    StorageKind,
    /// A lock type in `LOCK TABLES`.
    LockType,
    /// An identifier.
    Identifier,
    /// A closing parenthesis.
    RParen,
    /// An expression operand.
    Expression,
}

/// A parse failure.  Every hook of this module either fully succeeds,
/// declines without consuming input, or fails with one of these.
#[derive(Debug, Clone, PartialEq, Eq)]
pub enum ParserError {
    /// The grammar required a particular token shape and found another.
    Expected { what: Expectation, found: Token },
    /// A recognized option keyword was followed by a value of a shape the
    /// keyword does not accept.
    OptionValueMismatch { keyword: Keyword },
    /// The host numeric parser rejected a numeric literal's text.
    InvalidNumber { text: String },
}

/// The model of a [`ParserError`].
pub enum SpecError {
    Expected { what: Expectation, found: SpecToken },
    OptionValueMismatch { keyword: Keyword },
    InvalidNumber { text: Seq<char> },
}

impl View for ParserError {
    type V = SpecError;

    open spec fn view(&self) -> SpecError {
        match self {
            ParserError::Expected { what, found } => SpecError::Expected {
                what: *what,
                found: found@,
            },
            ParserError::OptionValueMismatch { keyword } => SpecError::OptionValueMismatch {
                keyword: *keyword,
            },
            ParserError::InvalidNumber { text } => SpecError::InvalidNumber { text: text@ },
        }
    }
}

impl DeepView for ParserError {
    type V = SpecError;

    open spec fn deep_view(&self) -> SpecError {
        self.view()
    }
}

/// Whether an executable result and its model agree, variant by variant.
pub open spec fn result_matches<T: DeepView, E: DeepView>(
    r: Result<T, E>,
    s: Result<T::V, E::V>,
) -> bool {
    match (r, s) {
        (Ok(a), Ok(b)) => a.deep_view() == b,
        (Err(a), Err(b)) => a.deep_view() == b,
        _ => false,
    }
}

/// Whether an optional executable result and its model agree.
pub open spec fn opt_result_matches<T: DeepView, E: DeepView>(
    r: Option<Result<T, E>>,
    s: Option<Result<T::V, E::V>>,
) -> bool {
    match (r, s) {
        (Option::None, Option::None) => true,
        (Option::Some(a), Option::Some(b)) => result_matches(a, b),
        _ => false,
    }
}

} // verus!
