use vstd::prelude::*;

use crate::ast::{
    opt_result_matches, result_matches, Expectation, LockTable, LockTableType, ParserError,
    SpecError, SpecLockTable, SpecStatement, Statement,
};
use crate::dialect::MySqlDialect;
use crate::keywords::Keyword;
use crate::parser::{spec_parse_identifier, spec_parse_optional_alias, Parser};
use crate::token::{spec_advance, spec_head, spec_head_is_keyword, SpecToken};

verus! {

/// The keywords that may not serve as an implicit alias in a lock entry:
/// they begin the lock type instead.
pub open spec fn spec_lock_alias_reserved() -> Seq<Keyword> {
    seq![Keyword::READ, Keyword::WRITE, Keyword::LOW_PRIORITY]
}

/// The lock-type sub-grammar: `READ [LOCAL]` or `[LOW_PRIORITY] WRITE`;
/// any other front token is an error and nothing is consumed.
pub open spec fn spec_parse_lock_type(t: Seq<SpecToken>) -> (Result<LockTableType, SpecError>, Seq<
    SpecToken,
>) {
    if spec_head_is_keyword(t, Keyword::READ) {
        let t1 = spec_advance(t);
        if spec_head_is_keyword(t1, Keyword::LOCAL) {
            (Ok(LockTableType::Read { local: true }), spec_advance(t1))
        } else {
            (Ok(LockTableType::Read { local: false }), t1)
        }
    } else if spec_head_is_keyword(t, Keyword::WRITE) {
        (Ok(LockTableType::Write { low_priority: false }), spec_advance(t))
    } else if spec_head_is_keyword(t, Keyword::LOW_PRIORITY) && spec_head_is_keyword(
        spec_advance(t),
        Keyword::WRITE,
    ) {
        (Ok(LockTableType::Write { low_priority: true }), spec_advance(spec_advance(t)))
    } else {
        ((Err(SpecError::Expected { what: Expectation::LockType, found: spec_head(t) })), t)
    }
}

/// One lock entry: `tbl_name [[AS] alias] lock_type`.  The implicit alias
/// may not be one of the lock-type keywords.
pub open spec fn spec_parse_lock_table(t: Seq<SpecToken>) -> (Result<SpecLockTable, SpecError>, Seq<
    SpecToken,
>) {
    match spec_parse_identifier(t) {
        (Err(e), t1) => (Err(e), t1),
        (Ok(table), t1) => match spec_parse_optional_alias(t1, spec_lock_alias_reserved()) {
            (Err(e), t2) => (Err(e), t2),
            (Ok(alias), t2) => match spec_parse_lock_type(t2) {
                (Err(e), t3) => (Err(e), t3),
                (Ok(lt), t3) => (Ok(SpecLockTable { table, alias, lock_type: lt }), t3),
            },
        },
    }
}

/// Parsing a lock entry never grows the stream, and consumes at least the
/// table identifier when it succeeds.
pub proof fn lemma_lock_table_consumes(t: Seq<SpecToken>)
    ensures
        spec_parse_lock_table(t).1.len() <= t.len(),
        spec_parse_lock_table(t).0 is Ok ==> spec_parse_lock_table(t).1.len() < t.len(),
{
}

/// One or more comma-separated lock entries, with no tolerance for a
/// trailing comma.
pub open spec fn spec_lock_entries(t: Seq<SpecToken>) -> (Result<Seq<SpecLockTable>, SpecError>, Seq<
    SpecToken,
>)
    decreases t.len(),
    via spec_lock_entries_decreases
{
    match spec_parse_lock_table(t) {
        (Err(e), t1) => (Err(e), t1),
        (Ok(lt), t1) => if spec_head(t1) is Comma {
            match spec_lock_entries(spec_advance(t1)) {
                (Ok(rest), t2) => (Ok(seq![lt] + rest), t2),
                (Err(e), t2) => (Err(e), t2),
            }
        } else {
            (Ok(seq![lt]), t1)
        },
    }
}

#[via_fn]
proof fn spec_lock_entries_decreases(t: Seq<SpecToken>) {
    lemma_lock_table_consumes(t);
}

/// The body of a `LOCK TABLES` statement, after its two keywords.
pub open spec fn spec_parse_lock_tables(t: Seq<SpecToken>) -> (Result<SpecStatement, SpecError>, Seq<
    SpecToken,
>) {
    match spec_lock_entries(t) {
        (Ok(entries), t1) => (Ok(SpecStatement::LockTables { tables: entries }), t1),
        (Err(e), t1) => (Err(e), t1),
    }
}

/// What the statement extension hook does to a stream: `LOCK TABLES` and
/// `UNLOCK TABLES` are consumed and parsed in full; any other keyword
/// sequence is left untouched for the host, with no opinion.
pub open spec fn spec_parse_statement(t: Seq<SpecToken>) -> (Option<
    Result<SpecStatement, SpecError>,
>, Seq<SpecToken>) {
    if spec_head_is_keyword(t, Keyword::LOCK) && spec_head_is_keyword(
        spec_advance(t),
        Keyword::TABLES,
    ) {
        let (r, t1) = spec_parse_lock_tables(spec_advance(spec_advance(t)));
        (Some(r), t1)
    } else if spec_head_is_keyword(t, Keyword::UNLOCK) && spec_head_is_keyword(
        spec_advance(t),
        Keyword::TABLES,
    ) {
        (Some(Ok(SpecStatement::UnlockTables)), spec_advance(spec_advance(t)))
    } else {
        (None, t)
    }
}

/// The lock-type sub-grammar of `LOCK TABLES`.
pub fn parse_lock_tables_type(parser: &mut Parser) -> (r: Result<LockTableType, ParserError>)
    ensures
        ({
            let (res, rem) = spec_parse_lock_type(old(parser).remaining());
            result_matches(r, res) && final(parser).remaining() == rem
        }),
{
    if parser.parse_keyword(Keyword::READ) {
        if parser.parse_keyword(Keyword::LOCAL) {
            Ok(LockTableType::Read { local: true })
        } else {
            Ok(LockTableType::Read { local: false })
        }
    } else if parser.parse_keyword(Keyword::WRITE) {
        Ok(LockTableType::Write { low_priority: false })
    } else if parser.parse_keyword_pair(Keyword::LOW_PRIORITY, Keyword::WRITE) {
        Ok(LockTableType::Write { low_priority: true })
    } else {
        Err(ParserError::Expected { what: Expectation::LockType, found: parser.peek_token() })
    }
}

/// One lock entry: `tbl_name [[AS] alias] lock_type`.
pub fn parse_lock_table(parser: &mut Parser) -> (r: Result<LockTable, ParserError>)
    ensures
        ({
            let (res, rem) = spec_parse_lock_table(old(parser).remaining());
            result_matches(r, res) && final(parser).remaining() == rem
        }),
{
    let table = match parser.parse_identifier() {
        Ok(id) => id,
        Err(e) => {
            return Err(e);
        },
    };
    let mut reserved: Vec<Keyword> = Vec::new();
    reserved.push(Keyword::READ);
    reserved.push(Keyword::WRITE);
    reserved.push(Keyword::LOW_PRIORITY);
    proof {
        assert(reserved@ =~= spec_lock_alias_reserved());
    }
    let alias = match parser.parse_optional_alias(reserved.as_slice()) {
        Ok(a) => a,
        Err(e) => {
            return Err(e);
        },
    };
    let lock_type = match parse_lock_tables_type(parser) {
        Ok(lt) => lt,
        Err(e) => {
            return Err(e);
        },
    };
    Ok(LockTable { table, alias, lock_type })
}

fn lock_entries(parser: &mut Parser) -> (r: Result<Vec<LockTable>, ParserError>)
    ensures
        ({
            let (res, rem) = spec_lock_entries(old(parser).remaining());
            result_matches(r, res) && final(parser).remaining() == rem
        }),
{
    let ghost orig = parser.remaining();
    let mut entries: Vec<LockTable> = Vec::new();
    proof {
        match spec_lock_entries(orig) {
            (Ok(rest), _) => {
                assert(entries.deep_view() + rest =~= rest);
            },
            _ => {},
        }
    }
    loop
        invariant
            orig == old(parser).remaining(),
            ({
                let (res_o, rem_o) = spec_lock_entries(orig);
                let (res_c, rem_c) = spec_lock_entries(parser.remaining());
                &&& (res_c matches Ok(rest) ==> res_o == Ok::<Seq<SpecLockTable>, SpecError>(
                    entries.deep_view() + rest,
                ))
                &&& (res_c matches Err(e) ==> res_o == Err::<Seq<SpecLockTable>, SpecError>(e))
                &&& rem_o == rem_c
            }),
        decreases parser.remaining().len(),
    {
        let ghost cur = parser.remaining();
        let ghost old_entries = entries.deep_view();
        proof {
            lemma_lock_table_consumes(cur);
        }
        match parse_lock_table(parser) {
            Err(e) => {
                return Err(e);
            },
            Ok(lt) => {
                entries.push(lt);
                proof {
                    assert(entries.deep_view() =~= old_entries.push(lt@));
                }
                if !parser.consume_comma() {
                    proof {
                        assert(spec_lock_entries(cur).0 == Ok::<Seq<SpecLockTable>, SpecError>(
                            seq![lt@],
                        ));
                        assert(old_entries + seq![lt@] =~= entries.deep_view());
                    }
                    return Ok(entries);
                }
                proof {
                    match spec_lock_entries(parser.remaining()) {
                        (Ok(rest), _) => {
                            assert(old_entries + (seq![lt@] + rest) =~= entries.deep_view() + rest);
                        },
                        _ => {},
                    }
                }
            },
        }
    }
}

/// The body of a `LOCK TABLES` statement: one or more comma-separated lock
/// entries.
pub fn parse_lock_tables(parser: &mut Parser) -> (r: Result<Statement, ParserError>)
    ensures
        ({
            let (res, rem) = spec_parse_lock_tables(old(parser).remaining());
            result_matches(r, res) && final(parser).remaining() == rem
        }),
{
    match lock_entries(parser) {
        Ok(tables) => Ok(Statement::LockTables { tables }),
        Err(e) => Err(e),
    }
}

/// `UNLOCK TABLES` takes no arguments: nothing further is consumed, and any
/// trailing tokens are left for the host.
pub fn parse_unlock_tables(parser: &mut Parser) -> (r: Result<Statement, ParserError>)
    ensures
        r matches Ok(s) && s@ == SpecStatement::UnlockTables,
        final(parser).remaining() == old(parser).remaining(),
{
    Ok(Statement::UnlockTables)
}

impl MySqlDialect {
    /// The statement extension hook: if the statement starts with
    /// `LOCK TABLES` or `UNLOCK TABLES`, consumes and parses it in full;
    /// otherwise consumes nothing and leaves the statement to the host.
    pub fn parse_statement(&self, parser: &mut Parser) -> (r: Option<
        Result<Statement, ParserError>,
    >)
        ensures
            ({
                let (res, rem) = spec_parse_statement(old(parser).remaining());
                opt_result_matches(r, res) && final(parser).remaining() == rem
            }),
    {
        if parser.parse_keyword_pair(Keyword::LOCK, Keyword::TABLES) {
            Some(parse_lock_tables(parser))
        } else if parser.parse_keyword_pair(Keyword::UNLOCK, Keyword::TABLES) {
            Some(parse_unlock_tables(parser))
        } else {
            None
        }
    }
}

} // verus!
