use vstd::prelude::*;

use crate::ast::{LockTableType, SpecError, SpecExpr, SpecLockTable, SpecOption, SpecStatement, SpecValue, StorageType};
use crate::keywords::{spec_is_option_keyword, Keyword};
use crate::options::{spec_option_value, spec_parse_plain_option, spec_union_idents};
use crate::statements::{spec_lock_entries, spec_parse_lock_table, spec_parse_statement};
use crate::text::{spec_eq_ignore_ascii_case, spec_is_number_text};
use crate::token::{
    lemma_cons_head_advance, spec_advance, spec_head, spec_head_is_keyword, SpecToken,
};

verus! {

/// The token a stored literal value re-tokenizes to.
pub open spec fn spec_value_token(v: SpecValue) -> SpecToken {
    match v {
        SpecValue::Number(n, l) => SpecToken::Number(n, l),
        SpecValue::SingleQuotedString(s) => SpecToken::SingleQuotedString(s),
    }
}

/// The token an option's value expression re-tokenizes to.  The option
/// engine never produces a binary operation as an option value, so that
/// case renders to nothing recognizable.
pub open spec fn spec_expr_token(e: SpecExpr) -> SpecToken {
    match e {
        SpecExpr::Identifier(v) => SpecToken::Word { value: v, keyword: Keyword::NoKeyword },
        SpecExpr::Value(v) => spec_value_token(v),
        SpecExpr::BinaryOp { .. } => SpecToken::EndOfStream,
    }
}

/// The option keyword a single-word option key re-tokenizes to.
pub open spec fn spec_keyword_of_key(key: Seq<char>) -> Keyword {
    if key == "KEY_BLOCK_SIZE"@ {
        Keyword::KEY_BLOCK_SIZE
    } else if key == "ROW_FORMAT"@ {
        Keyword::ROW_FORMAT
    } else if key == "PACK_KEYS"@ {
        Keyword::PACK_KEYS
    } else if key == "STATS_AUTO_RECALC"@ {
        Keyword::STATS_AUTO_RECALC
    } else if key == "STATS_PERSISTENT"@ {
        Keyword::STATS_PERSISTENT
    } else if key == "STATS_SAMPLE_PAGES"@ {
        Keyword::STATS_SAMPLE_PAGES
    } else if key == "DELAY_KEY_WRITE"@ {
        Keyword::DELAY_KEY_WRITE
    } else if key == "COMPRESSION"@ {
        Keyword::COMPRESSION
    } else if key == "ENCRYPTION"@ {
        Keyword::ENCRYPTION
    } else if key == "MAX_ROWS"@ {
        Keyword::MAX_ROWS
    } else if key == "MIN_ROWS"@ {
        Keyword::MIN_ROWS
    } else if key == "AUTOEXTEND_SIZE"@ {
        Keyword::AUTOEXTEND_SIZE
    } else if key == "AVG_ROW_LENGTH"@ {
        Keyword::AVG_ROW_LENGTH
    } else if key == "CHECKSUM"@ {
        Keyword::CHECKSUM
    } else if key == "CONNECTION"@ {
        Keyword::CONNECTION
    } else if key == "ENGINE_ATTRIBUTE"@ {
        Keyword::ENGINE_ATTRIBUTE
    } else if key == "PASSWORD"@ {
        Keyword::PASSWORD
    } else if key == "SECONDARY_ENGINE_ATTRIBUTE"@ {
        Keyword::SECONDARY_ENGINE_ATTRIBUTE
    } else if key == "INSERT_METHOD"@ {
        Keyword::INSERT_METHOD
    } else {
        Keyword::NoKeyword
    }
}

/// The keys whose options carry a numeric value.
pub open spec fn spec_is_numeric_key(key: Seq<char>) -> bool {
    ||| key == "KEY_BLOCK_SIZE"@
    ||| key == "PACK_KEYS"@
    ||| key == "STATS_AUTO_RECALC"@
    ||| key == "STATS_PERSISTENT"@
    ||| key == "STATS_SAMPLE_PAGES"@
    ||| key == "DELAY_KEY_WRITE"@
    ||| key == "MAX_ROWS"@
    ||| key == "MIN_ROWS"@
    ||| key == "AUTOEXTEND_SIZE"@
    ||| key == "AVG_ROW_LENGTH"@
    ||| key == "CHECKSUM"@
}

/// The single-word keys whose options carry an arbitrary quoted value.
pub open spec fn spec_is_quoted_key(key: Seq<char>) -> bool {
    ||| key == "ENCRYPTION"@
    ||| key == "CONNECTION"@
    ||| key == "ENGINE_ATTRIBUTE"@
    ||| key == "PASSWORD"@
    ||| key == "SECONDARY_ENGINE_ATTRIBUTE"@
}

/// A comma-separated rendering of an identifier list.
pub open spec fn spec_render_idents(ids: Seq<Seq<char>>) -> Seq<SpecToken>
    decreases ids.len(),
{
    if ids.len() == 0 {
        Seq::empty()
    } else if ids.len() == 1 {
        seq![SpecToken::Word { value: ids[0], keyword: Keyword::NoKeyword }]
    } else {
        seq![
            SpecToken::Word { value: ids[0], keyword: Keyword::NoKeyword },
            SpecToken::Comma,
        ] + spec_render_idents(ids.drop_first())
    }
}

/// The token sequence an option node renders to.
pub open spec fn spec_render_option(o: SpecOption) -> Seq<SpecToken> {
    match o {
        SpecOption::KeyValue { key, value } => if key == "DATA DIRECTORY"@ {
            seq![
                SpecToken::Word { value: "DATA"@, keyword: Keyword::DATA },
                SpecToken::Word { value: "DIRECTORY"@, keyword: Keyword::DIRECTORY },
                SpecToken::Eq,
                spec_expr_token(value),
            ]
        } else if key == "INDEX DIRECTORY"@ {
            seq![
                SpecToken::Word { value: "INDEX"@, keyword: Keyword::INDEX },
                SpecToken::Word { value: "DIRECTORY"@, keyword: Keyword::DIRECTORY },
                SpecToken::Eq,
                spec_expr_token(value),
            ]
        } else {
            seq![
                SpecToken::Word { value: key, keyword: spec_keyword_of_key(key) },
                SpecToken::Eq,
                spec_expr_token(value),
            ]
        },
        SpecOption::Ident(name) => if name == "START TRANSACTION"@ {
            seq![
                SpecToken::Word { value: "START"@, keyword: Keyword::START },
                SpecToken::Word { value: "TRANSACTION"@, keyword: Keyword::TRANSACTION },
            ]
        } else {
            Seq::empty()
        },
        SpecOption::TableSpace { name, storage } => seq![
            SpecToken::Word { value: "TABLESPACE"@, keyword: Keyword::TABLESPACE },
            SpecToken::Word { value: name, keyword: Keyword::NoKeyword },
        ] + (match storage {
            Option::None => Seq::empty(),
            Option::Some(StorageType::Disk) => seq![
                SpecToken::Word { value: "STORAGE"@, keyword: Keyword::STORAGE },
                SpecToken::Eq,
                SpecToken::Word { value: "DISK"@, keyword: Keyword::NoKeyword },
            ],
            Option::Some(StorageType::Memory) => seq![
                SpecToken::Word { value: "STORAGE"@, keyword: Keyword::STORAGE },
                SpecToken::Eq,
                SpecToken::Word { value: "MEMORY"@, keyword: Keyword::NoKeyword },
            ],
        }),
        SpecOption::Union(ids) => seq![
            SpecToken::Word { value: "UNION"@, keyword: Keyword::UNION },
            SpecToken::LParen,
        ] + spec_render_idents(ids) + seq![SpecToken::RParen],
    }
}

/// The option nodes the engine can produce whose stored value re-tokenizes
/// to a shape its own keyword accepts.  The one produced shape left out is
/// a `DEFAULT` word stored as a string value (`PACK_KEYS` and the two
/// `STATS` options): it re-emits as a quoted string, which those keywords
/// do not accept.
pub open spec fn spec_option_renderable(o: SpecOption) -> bool {
    match o {
        SpecOption::KeyValue { key, value } => if spec_is_numeric_key(key) {
            value matches SpecExpr::Value(SpecValue::Number(n, _)) && spec_is_number_text(n)
        } else if key == "ROW_FORMAT"@ {
            value is Identifier
        } else if key == "INSERT_METHOD"@ {
            value matches SpecExpr::Identifier(w) && (spec_eq_ignore_ascii_case(w, "NO"@)
                || spec_eq_ignore_ascii_case(w, "FIRST"@) || spec_eq_ignore_ascii_case(w, "LAST"@))
        } else if key == "COMPRESSION"@ {
            value matches SpecExpr::Value(SpecValue::SingleQuotedString(s)) && (
            spec_eq_ignore_ascii_case(s, "ZLIB"@) || spec_eq_ignore_ascii_case(s, "LZ4"@)
                || spec_eq_ignore_ascii_case(s, "NONE"@))
        } else if spec_is_quoted_key(key) || key == "DATA DIRECTORY"@ || key == "INDEX DIRECTORY"@ {
            value matches SpecExpr::Value(SpecValue::SingleQuotedString(_))
        } else {
            false
        },
        SpecOption::Ident(name) => name == "START TRANSACTION"@,
        SpecOption::TableSpace { .. } => true,
        SpecOption::Union(_) => true,
    }
}

/// Re-parsing a rendered identifier list, followed by anything that is not
/// a comma, yields the same list and leaves that remainder untouched.
proof fn lemma_union_idents_reparse(ids: Seq<Seq<char>>, rest: Seq<SpecToken>)
    requires
        ids.len() >= 1,
        !(spec_head(rest) is Comma),
    ensures
        spec_union_idents(spec_render_idents(ids) + rest) == ((
        Ok::<Seq<Seq<char>>, SpecError>(ids)), rest),
    decreases ids.len(),
{
    let w0 = SpecToken::Word { value: ids[0], keyword: Keyword::NoKeyword };
    if ids.len() == 1 {
        assert(spec_render_idents(ids) + rest =~= seq![w0] + rest);
        lemma_cons_head_advance(w0, rest);
        assert(seq![ids[0]] =~= ids);
    } else {
        let tail = spec_render_idents(ids.drop_first()) + rest;
        assert(spec_render_idents(ids) + rest =~= seq![w0] + (seq![SpecToken::Comma] + tail));
        lemma_cons_head_advance(w0, seq![SpecToken::Comma] + tail);
        lemma_cons_head_advance(SpecToken::Comma, tail);
        lemma_union_idents_reparse(ids.drop_first(), rest);
        assert(seq![ids[0]] + ids.drop_first() =~= ids);
    }
}

/// The token sequence a lock type renders to.
pub open spec fn spec_render_lock_type(lt: LockTableType) -> Seq<SpecToken> {
    match lt {
        LockTableType::Read { local } => if local {
            seq![
                SpecToken::Word { value: "READ"@, keyword: Keyword::READ },
                SpecToken::Word { value: "LOCAL"@, keyword: Keyword::LOCAL },
            ]
        } else {
            seq![SpecToken::Word { value: "READ"@, keyword: Keyword::READ }]
        },
        LockTableType::Write { low_priority } => if low_priority {
            seq![
                SpecToken::Word { value: "LOW_PRIORITY"@, keyword: Keyword::LOW_PRIORITY },
                SpecToken::Word { value: "WRITE"@, keyword: Keyword::WRITE },
            ]
        } else {
            seq![SpecToken::Word { value: "WRITE"@, keyword: Keyword::WRITE }]
        },
    }
}

/// The token sequence one lock entry renders to; an alias is always spelled
/// with `AS`.
pub open spec fn spec_render_lock_table(e: SpecLockTable) -> Seq<SpecToken> {
    seq![SpecToken::Word { value: e.table, keyword: Keyword::NoKeyword }] + (match e.alias {
        Option::Some(a) => seq![
            SpecToken::Word { value: "AS"@, keyword: Keyword::AS },
            SpecToken::Word { value: a, keyword: Keyword::NoKeyword },
        ],
        Option::None => Seq::empty(),
    }) + spec_render_lock_type(e.lock_type)
}

/// The comma-separated rendering of a list of lock entries.
pub open spec fn spec_render_lock_entries(es: Seq<SpecLockTable>) -> Seq<SpecToken>
    decreases es.len(),
{
    if es.len() == 0 {
        Seq::empty()
    } else if es.len() == 1 {
        spec_render_lock_table(es[0])
    } else {
        spec_render_lock_table(es[0]) + seq![SpecToken::Comma] + spec_render_lock_entries(
            es.drop_first(),
        )
    }
}

/// The token sequence a statement renders to.
pub open spec fn spec_render_statement(s: SpecStatement) -> Seq<SpecToken> {
    match s {
        SpecStatement::LockTables { tables } => seq![
            SpecToken::Word { value: "LOCK"@, keyword: Keyword::LOCK },
            SpecToken::Word { value: "TABLES"@, keyword: Keyword::TABLES },
        ] + spec_render_lock_entries(tables),
        SpecStatement::UnlockTables => seq![
            SpecToken::Word { value: "UNLOCK"@, keyword: Keyword::UNLOCK },
            SpecToken::Word { value: "TABLES"@, keyword: Keyword::TABLES },
        ],
    }
}

/// Re-parsing a rendered lock entry yields the entry and leaves the
/// remainder untouched, as long as the remainder does not begin with a
/// `LOCAL` word that a `READ` lock would absorb.
proof fn lemma_lock_table_reparse(e: SpecLockTable, rest: Seq<SpecToken>)
    requires
        !spec_head_is_keyword(rest, Keyword::LOCAL),
    ensures
        spec_parse_lock_table(spec_render_lock_table(e) + rest) == ((
        Ok::<SpecLockTable, SpecError>(e)), rest),
{
    let wt = SpecToken::Word { value: e.table, keyword: Keyword::NoKeyword };
    let lt = spec_render_lock_type(e.lock_type);
    match e.alias {
        Option::Some(a) => {
            let was = SpecToken::Word { value: "AS"@, keyword: Keyword::AS };
            let wa = SpecToken::Word { value: a, keyword: Keyword::NoKeyword };
            assert(spec_render_lock_table(e) + rest =~= seq![wt] + (seq![was] + (seq![wa] + (lt
                + rest))));
            lemma_cons_head_advance(wt, seq![was] + (seq![wa] + (lt + rest)));
            lemma_cons_head_advance(was, seq![wa] + (lt + rest));
            lemma_cons_head_advance(wa, lt + rest);
            lemma_lock_type_reparse(e.lock_type, rest);
        },
        Option::None => {
            assert(spec_render_lock_table(e) + rest =~= seq![wt] + (lt + rest));
            lemma_cons_head_advance(wt, lt + rest);
            lemma_lock_type_reparse(e.lock_type, rest);
        },
    }
}

/// Re-parsing a rendered lock type yields the lock type.
proof fn lemma_lock_type_reparse(lt: LockTableType, rest: Seq<SpecToken>)
    requires
        !spec_head_is_keyword(rest, Keyword::LOCAL),
    ensures
        crate::statements::spec_parse_lock_type(spec_render_lock_type(lt) + rest) == ((
        Ok::<LockTableType, SpecError>(lt)), rest),
{
    match lt {
        LockTableType::Read { local } => {
            let wr = SpecToken::Word { value: "READ"@, keyword: Keyword::READ };
            if local {
                let wl = SpecToken::Word { value: "LOCAL"@, keyword: Keyword::LOCAL };
                assert(spec_render_lock_type(lt) + rest =~= seq![wr] + (seq![wl] + rest));
                lemma_cons_head_advance(wr, seq![wl] + rest);
                lemma_cons_head_advance(wl, rest);
            } else {
                assert(spec_render_lock_type(lt) + rest =~= seq![wr] + rest);
                lemma_cons_head_advance(wr, rest);
            }
        },
        LockTableType::Write { low_priority } => {
            let ww = SpecToken::Word { value: "WRITE"@, keyword: Keyword::WRITE };
            if low_priority {
                let wp = SpecToken::Word { value: "LOW_PRIORITY"@, keyword: Keyword::LOW_PRIORITY };
                assert(spec_render_lock_type(lt) + rest =~= seq![wp] + (seq![ww] + rest));
                lemma_cons_head_advance(wp, seq![ww] + rest);
                lemma_cons_head_advance(ww, rest);
            } else {
                assert(spec_render_lock_type(lt) + rest =~= seq![ww] + rest);
                lemma_cons_head_advance(ww, rest);
            }
        },
    }
}

/// Re-parsing a rendered, non-empty list of lock entries yields the list.
#[verifier::rlimit(100)]
proof fn lemma_lock_entries_reparse(es: Seq<SpecLockTable>, rest: Seq<SpecToken>)
    requires
        es.len() >= 1,
        !(spec_head(rest) is Comma),
        !spec_head_is_keyword(rest, Keyword::LOCAL),
    ensures
        spec_lock_entries(spec_render_lock_entries(es) + rest) == ((
        Ok::<Seq<SpecLockTable>, SpecError>(es)), rest),
    decreases es.len(),
{
    let t = spec_render_lock_entries(es) + rest;
    if es.len() == 1 {
        assert(t =~= spec_render_lock_table(es[0]) + rest);
        lemma_lock_table_reparse(es[0], rest);
        assert(spec_parse_lock_table(t) == ((Ok::<SpecLockTable, SpecError>(es[0])), rest));
        assert(spec_lock_entries(t).0 == Ok::<Seq<SpecLockTable>, SpecError>(seq![es[0]]));
        assert(spec_lock_entries(t).1 == rest);
        assert(seq![es[0]] =~= es);
    } else {
        let tail = spec_render_lock_entries(es.drop_first()) + rest;
        assert(t =~= spec_render_lock_table(es[0]) + (seq![SpecToken::Comma] + tail));
        lemma_lock_table_reparse(es[0], seq![SpecToken::Comma] + tail);
        assert(spec_parse_lock_table(t) == ((Ok::<SpecLockTable, SpecError>(es[0])),
        seq![SpecToken::Comma] + tail));
        lemma_cons_head_advance(SpecToken::Comma, tail);
        lemma_lock_entries_reparse(es.drop_first(), rest);
        assert(spec_lock_entries(tail) == ((Ok::<Seq<SpecLockTable>, SpecError>(es.drop_first())),
        rest));
        assert(spec_lock_entries(t).0 == Ok::<Seq<SpecLockTable>, SpecError>(
            seq![es[0]] + es.drop_first(),
        ));
        assert(spec_lock_entries(t).1 == rest);
        assert(seq![es[0]] + es.drop_first() =~= es);
    }
}

/// Re-parsing the rendering of a statement this module produces yields a
/// structurally equal statement, with no tokens left over.
pub proof fn lemma_statement_render_reparse(s: SpecStatement)
    requires
        s matches SpecStatement::LockTables { tables } ==> tables.len() >= 1,
    ensures
        spec_parse_statement(spec_render_statement(s)) == ((
        Some(Ok::<SpecStatement, SpecError>(s))), Seq::<SpecToken>::empty()),
{
    let empty = Seq::<SpecToken>::empty();
    match s {
        SpecStatement::LockTables { tables } => {
            let wl = SpecToken::Word { value: "LOCK"@, keyword: Keyword::LOCK };
            let wt = SpecToken::Word { value: "TABLES"@, keyword: Keyword::TABLES };
            let body = spec_render_lock_entries(tables) + empty;
            assert(spec_render_statement(s) =~= seq![wl] + (seq![wt] + body));
            lemma_cons_head_advance(wl, seq![wt] + body);
            lemma_cons_head_advance(wt, body);
            lemma_lock_entries_reparse(tables, empty);
        },
        SpecStatement::UnlockTables => {
            let wl = SpecToken::Word { value: "UNLOCK"@, keyword: Keyword::UNLOCK };
            let wt = SpecToken::Word { value: "TABLES"@, keyword: Keyword::TABLES };
            assert(spec_render_statement(s) =~= seq![wl] + (seq![wt] + empty));
            lemma_cons_head_advance(wl, seq![wt] + empty);
            lemma_cons_head_advance(wt, empty);
        },
    }
}

/// Enough of each option key's text to tell any two keys apart: the
/// length, and a character where two keys share a length.
proof fn lemma_option_key_facts()
    ensures
        "KEY_BLOCK_SIZE"@.len() == 14 && "KEY_BLOCK_SIZE"@[0] == 'K',
        "ROW_FORMAT"@.len() == 10 && "ROW_FORMAT"@[0] == 'R',
        "PACK_KEYS"@.len() == 9,
        "STATS_AUTO_RECALC"@.len() == 17,
        "STATS_PERSISTENT"@.len() == 16 && "STATS_PERSISTENT"@[0] == 'S',
        "STATS_SAMPLE_PAGES"@.len() == 18,
        "DELAY_KEY_WRITE"@.len() == 15 && "DELAY_KEY_WRITE"@[0] == 'D',
        "COMPRESSION"@.len() == 11,
        "ENCRYPTION"@.len() == 10 && "ENCRYPTION"@[0] == 'E',
        "MAX_ROWS"@.len() == 8 && "MAX_ROWS"@[0] == 'M' && "MAX_ROWS"@[1] == 'A',
        "MIN_ROWS"@.len() == 8 && "MIN_ROWS"@[0] == 'M' && "MIN_ROWS"@[1] == 'I',
        "AUTOEXTEND_SIZE"@.len() == 15 && "AUTOEXTEND_SIZE"@[0] == 'A',
        "AVG_ROW_LENGTH"@.len() == 14 && "AVG_ROW_LENGTH"@[0] == 'A',
        "CHECKSUM"@.len() == 8 && "CHECKSUM"@[0] == 'C',
        "CONNECTION"@.len() == 10 && "CONNECTION"@[0] == 'C',
        "ENGINE_ATTRIBUTE"@.len() == 16 && "ENGINE_ATTRIBUTE"@[0] == 'E',
        "PASSWORD"@.len() == 8 && "PASSWORD"@[0] == 'P',
        "SECONDARY_ENGINE_ATTRIBUTE"@.len() == 26,
        "INSERT_METHOD"@.len() == 13,
        "DATA DIRECTORY"@.len() == 14 && "DATA DIRECTORY"@[0] == 'D',
        "INDEX DIRECTORY"@.len() == 15 && "INDEX DIRECTORY"@[0] == 'I',
{
    reveal_strlit("KEY_BLOCK_SIZE");
    reveal_strlit("ROW_FORMAT");
    reveal_strlit("PACK_KEYS");
    reveal_strlit("STATS_AUTO_RECALC");
    reveal_strlit("STATS_PERSISTENT");
    reveal_strlit("STATS_SAMPLE_PAGES");
    reveal_strlit("DELAY_KEY_WRITE");
    reveal_strlit("COMPRESSION");
    reveal_strlit("ENCRYPTION");
    reveal_strlit("MAX_ROWS");
    reveal_strlit("MIN_ROWS");
    reveal_strlit("AUTOEXTEND_SIZE");
    reveal_strlit("AVG_ROW_LENGTH");
    reveal_strlit("CHECKSUM");
    reveal_strlit("CONNECTION");
    reveal_strlit("ENGINE_ATTRIBUTE");
    reveal_strlit("PASSWORD");
    reveal_strlit("SECONDARY_ENGINE_ATTRIBUTE");
    reveal_strlit("INSERT_METHOD");
    reveal_strlit("DATA DIRECTORY");
    reveal_strlit("INDEX DIRECTORY");
}

/// Parsing the rendering of a single-word key/value option reaches the
/// dispatch table with that key's keyword and value token.
proof fn lemma_single_key_plumbing(key: Seq<char>, value: SpecExpr)
    requires
        key != "DATA DIRECTORY"@,
        key != "INDEX DIRECTORY"@,
        spec_is_option_keyword(spec_keyword_of_key(key)),
    ensures
        spec_parse_plain_option(spec_render_option(SpecOption::KeyValue { key, value }))
            == spec_option_value(
            spec_keyword_of_key(key),
            spec_expr_token(value),
            Seq::<SpecToken>::empty(),
        ),
{
    let empty = Seq::<SpecToken>::empty();
    let o = SpecOption::KeyValue { key, value };
    let wk = SpecToken::Word { value: key, keyword: spec_keyword_of_key(key) };
    let vt = spec_expr_token(value);
    assert(spec_render_option(o) =~= seq![wk] + (seq![SpecToken::Eq] + (seq![vt] + empty)));
    lemma_cons_head_advance(wk, seq![SpecToken::Eq] + (seq![vt] + empty));
    lemma_cons_head_advance(SpecToken::Eq, seq![vt] + empty);
    lemma_cons_head_advance(vt, empty);
}

#[verifier::rlimit(60)]
proof fn lemma_numeric_option_reparse(key: Seq<char>, n: Seq<char>, l: bool)
    requires
        spec_is_numeric_key(key),
        spec_is_number_text(n),
    ensures
        ({
            let o = SpecOption::KeyValue { key, value: SpecExpr::Value(SpecValue::Number(n, l)) };
            spec_parse_plain_option(spec_render_option(o)).0 == Ok::<Option<SpecOption>, SpecError>(
                Some(o),
            ) && spec_parse_plain_option(spec_render_option(o)).1 == Seq::<SpecToken>::empty()
        }),
{
    lemma_option_key_facts();
    lemma_single_key_plumbing(key, SpecExpr::Value(SpecValue::Number(n, l)));
}

#[verifier::rlimit(60)]
proof fn lemma_word_or_quoted_option_reparse(key: Seq<char>, value: SpecExpr)
    requires
        spec_option_renderable(SpecOption::KeyValue { key, value }),
        !spec_is_numeric_key(key),
        key != "DATA DIRECTORY"@,
        key != "INDEX DIRECTORY"@,
    ensures
        ({
            let o = SpecOption::KeyValue { key, value };
            spec_parse_plain_option(spec_render_option(o)).0 == Ok::<Option<SpecOption>, SpecError>(
                Some(o),
            ) && spec_parse_plain_option(spec_render_option(o)).1 == Seq::<SpecToken>::empty()
        }),
{
    lemma_option_key_facts();
    lemma_single_key_plumbing(key, value);
}

#[verifier::rlimit(60)]
proof fn lemma_directory_option_reparse(key: Seq<char>, s: Seq<char>)
    requires
        key == "DATA DIRECTORY"@ || key == "INDEX DIRECTORY"@,
    ensures
        ({
            let o = SpecOption::KeyValue {
                key,
                value: SpecExpr::Value(SpecValue::SingleQuotedString(s)),
            };
            spec_parse_plain_option(spec_render_option(o)).0 == Ok::<Option<SpecOption>, SpecError>(
                Some(o),
            ) && spec_parse_plain_option(spec_render_option(o)).1 == Seq::<SpecToken>::empty()
        }),
{
    lemma_option_key_facts();
    let empty = Seq::<SpecToken>::empty();
    let o = SpecOption::KeyValue { key, value: SpecExpr::Value(SpecValue::SingleQuotedString(s)) };
    let vt = spec_expr_token(SpecExpr::Value(SpecValue::SingleQuotedString(s)));
    let w0 = if key == "DATA DIRECTORY"@ {
        SpecToken::Word { value: "DATA"@, keyword: Keyword::DATA }
    } else {
        SpecToken::Word { value: "INDEX"@, keyword: Keyword::INDEX }
    };
    let wd = SpecToken::Word { value: "DIRECTORY"@, keyword: Keyword::DIRECTORY };
    assert(spec_render_option(o) =~= seq![w0] + (seq![wd] + (seq![SpecToken::Eq] + (seq![vt]
        + empty))));
    lemma_cons_head_advance(w0, seq![wd] + (seq![SpecToken::Eq] + (seq![vt] + empty)));
    lemma_cons_head_advance(wd, seq![SpecToken::Eq] + (seq![vt] + empty));
    lemma_cons_head_advance(SpecToken::Eq, seq![vt] + empty);
    lemma_cons_head_advance(vt, empty);
}

#[verifier::rlimit(100)]
proof fn lemma_keyvalue_option_reparse(key: Seq<char>, value: SpecExpr)
    requires
        spec_option_renderable(SpecOption::KeyValue { key, value }),
    ensures
        ({
            let o = SpecOption::KeyValue { key, value };
            spec_parse_plain_option(spec_render_option(o)).0 == Ok::<Option<SpecOption>, SpecError>(
                Some(o),
            ) && spec_parse_plain_option(spec_render_option(o)).1 == Seq::<SpecToken>::empty()
        }),
{
    let o = SpecOption::KeyValue { key, value };
    lemma_option_key_facts();
    if spec_is_numeric_key(key) {
        match value {
            SpecExpr::Value(SpecValue::Number(n, l)) => {
                lemma_numeric_option_reparse(key, n, l);
            },
            _ => {
                assert(false);
            },
        }
    } else if key == "DATA DIRECTORY"@ || key == "INDEX DIRECTORY"@ {
        match value {
            SpecExpr::Value(SpecValue::SingleQuotedString(s)) => {
                lemma_directory_option_reparse(key, s);
            },
            _ => {
                assert(false);
            },
        }
    } else {
        lemma_word_or_quoted_option_reparse(key, value);
    }
}

proof fn lemma_ident_option_reparse(name: Seq<char>)
    requires
        name == "START TRANSACTION"@,
    ensures
        ({
            let o = SpecOption::Ident(name);
            spec_parse_plain_option(spec_render_option(o)).0 == Ok::<Option<SpecOption>, SpecError>(
                Some(o),
            ) && spec_parse_plain_option(spec_render_option(o)).1 == Seq::<SpecToken>::empty()
        }),
{
    let empty = Seq::<SpecToken>::empty();
    let o = SpecOption::Ident(name);
    let ws = SpecToken::Word { value: "START"@, keyword: Keyword::START };
    let wt = SpecToken::Word { value: "TRANSACTION"@, keyword: Keyword::TRANSACTION };
    assert(spec_render_option(o) =~= seq![ws] + (seq![wt] + empty));
    lemma_cons_head_advance(ws, seq![wt] + empty);
    lemma_cons_head_advance(wt, empty);
}

#[verifier::rlimit(60)]
proof fn lemma_tablespace_option_reparse(name: Seq<char>, storage: Option<StorageType>)
    ensures
        ({
            let o = SpecOption::TableSpace { name, storage };
            spec_parse_plain_option(spec_render_option(o)).0 == Ok::<Option<SpecOption>, SpecError>(
                Some(o),
            ) && spec_parse_plain_option(spec_render_option(o)).1 == Seq::<SpecToken>::empty()
        }),
{
    let empty = Seq::<SpecToken>::empty();
    let o = SpecOption::TableSpace { name, storage };
    let wts = SpecToken::Word { value: "TABLESPACE"@, keyword: Keyword::TABLESPACE };
    let wn = SpecToken::Word { value: name, keyword: Keyword::NoKeyword };
    match storage {
        Option::None => {
            assert(spec_render_option(o) =~= seq![wts] + (seq![wn] + empty));
            lemma_cons_head_advance(wts, seq![wn] + empty);
            lemma_cons_head_advance(wn, empty);
        },
        Option::Some(st) => {
            let wst = SpecToken::Word { value: "STORAGE"@, keyword: Keyword::STORAGE };
            let wv = if st is Disk {
                SpecToken::Word { value: "DISK"@, keyword: Keyword::NoKeyword }
            } else {
                SpecToken::Word { value: "MEMORY"@, keyword: Keyword::NoKeyword }
            };
            assert(spec_render_option(o) =~= seq![wts] + (seq![wn] + (seq![wst] + (
            seq![SpecToken::Eq] + (seq![wv] + empty)))));
            lemma_cons_head_advance(wts, seq![wn] + (seq![wst] + (seq![SpecToken::Eq] + (seq![wv]
                + empty))));
            lemma_cons_head_advance(wn, seq![wst] + (seq![SpecToken::Eq] + (seq![wv] + empty)));
            lemma_cons_head_advance(wst, seq![SpecToken::Eq] + (seq![wv] + empty));
            lemma_cons_head_advance(SpecToken::Eq, seq![wv] + empty);
            lemma_cons_head_advance(wv, empty);
            if st is Disk {
                assert(spec_eq_ignore_ascii_case("DISK"@, "DISK"@));
            } else {
                assert(spec_eq_ignore_ascii_case("MEMORY"@, "MEMORY"@));
                reveal_strlit("DISK");
                reveal_strlit("MEMORY");
                assert(!spec_eq_ignore_ascii_case("MEMORY"@, "DISK"@));
            }
        },
    }
}

#[verifier::rlimit(60)]
proof fn lemma_union_option_reparse(ids: Seq<Seq<char>>)
    ensures
        ({
            let o = SpecOption::Union(ids);
            spec_parse_plain_option(spec_render_option(o)).0 == Ok::<Option<SpecOption>, SpecError>(
                Some(o),
            ) && spec_parse_plain_option(spec_render_option(o)).1 == Seq::<SpecToken>::empty()
        }),
{
    let empty = Seq::<SpecToken>::empty();
    let o = SpecOption::Union(ids);
    let wu = SpecToken::Word { value: "UNION"@, keyword: Keyword::UNION };
    if ids.len() == 0 {
        assert(ids =~= Seq::<Seq<char>>::empty());
        assert(spec_render_idents(ids) =~= empty);
        assert(spec_render_option(o) =~= seq![wu] + (seq![SpecToken::LParen] + (
        seq![SpecToken::RParen] + empty)));
        lemma_cons_head_advance(wu, seq![SpecToken::LParen] + (seq![SpecToken::RParen] + empty));
        lemma_cons_head_advance(SpecToken::LParen, seq![SpecToken::RParen] + empty);
        lemma_cons_head_advance(SpecToken::RParen, empty);
    } else {
        let body = spec_render_idents(ids) + seq![SpecToken::RParen];
        assert(spec_render_option(o) =~= seq![wu] + (seq![SpecToken::LParen] + body));
        lemma_cons_head_advance(wu, seq![SpecToken::LParen] + body);
        lemma_cons_head_advance(SpecToken::LParen, body);
        lemma_union_idents_reparse(ids, seq![SpecToken::RParen]);
        lemma_cons_head_advance(SpecToken::RParen, empty);
        assert(seq![SpecToken::RParen] =~= seq![SpecToken::RParen] + empty);
        assert(body[0] is Word);
    }
}

/// Re-parsing the rendering of a renderable option node yields a
/// structurally equal node, with no tokens left over.
pub proof fn lemma_option_render_reparse(o: SpecOption)
    requires
        spec_option_renderable(o),
    ensures
        spec_parse_plain_option(spec_render_option(o)).0 == Ok::<Option<SpecOption>, SpecError>(
            Some(o),
        ),
        spec_parse_plain_option(spec_render_option(o)).1 == Seq::<SpecToken>::empty(),
{
    match o {
        SpecOption::KeyValue { key, value } => lemma_keyvalue_option_reparse(key, value),
        SpecOption::Ident(name) => lemma_ident_option_reparse(name),
        SpecOption::TableSpace { name, storage } => lemma_tablespace_option_reparse(name, storage),
        SpecOption::Union(ids) => lemma_union_option_reparse(ids),
    }
}

} // verus!
