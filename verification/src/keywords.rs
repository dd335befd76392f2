use vstd::prelude::*;

verus! {

/// The reserved words this dialect module inspects.  The host parser owns
/// the full keyword table; a `Word` token carries the tag the host's
/// tokenizer assigned to it, and `NoKeyword` marks an ordinary identifier.
#[allow(non_camel_case_types)]
#[derive(Debug, Clone, Copy, PartialEq, Eq, Structural)]
pub enum Keyword {
    AS,
    AUTOEXTEND_SIZE,
    AVG_ROW_LENGTH,
    CHECKSUM,
    COMPRESSION,
    CONNECTION,
    DATA,
    DELAY_KEY_WRITE,
    DIRECTORY,
    DIV,
    ENCRYPTION,
    ENGINE_ATTRIBUTE,
    FORCE,
    IGNORE,
    INDEX,
    INSERT_METHOD,
    KEY_BLOCK_SIZE,
    LOCAL,
    LOCK,
    LOW_PRIORITY,
    MAX_ROWS,
    MIN_ROWS,
    PACK_KEYS,
    PASSWORD,
    READ,
    ROW_FORMAT,
    SECONDARY_ENGINE_ATTRIBUTE,
    START,
    STATS_AUTO_RECALC,
    STATS_PERSISTENT,
    STATS_SAMPLE_PAGES,
    STORAGE,
    TABLES,
    TABLESPACE,
    TRANSACTION,
    UNION,
    UNLOCK,
    USE,
    WRITE,
    NoKeyword,
}

/// The option keywords the option-grammar engine recognizes.  Any keyword
/// outside this set yields "no opinion" and consumes nothing.
pub open spec fn spec_is_option_keyword(kw: Keyword) -> bool {
    ||| kw == Keyword::INSERT_METHOD
    ||| kw == Keyword::KEY_BLOCK_SIZE
    ||| kw == Keyword::ROW_FORMAT
    ||| kw == Keyword::DATA
    ||| kw == Keyword::INDEX
    ||| kw == Keyword::PACK_KEYS
    ||| kw == Keyword::STATS_AUTO_RECALC
    ||| kw == Keyword::STATS_PERSISTENT
    ||| kw == Keyword::STATS_SAMPLE_PAGES
    ||| kw == Keyword::DELAY_KEY_WRITE
    ||| kw == Keyword::COMPRESSION
    ||| kw == Keyword::ENCRYPTION
    ||| kw == Keyword::MAX_ROWS
    ||| kw == Keyword::MIN_ROWS
    ||| kw == Keyword::AUTOEXTEND_SIZE
    ||| kw == Keyword::AVG_ROW_LENGTH
    ||| kw == Keyword::CHECKSUM
    ||| kw == Keyword::CONNECTION
    ||| kw == Keyword::ENGINE_ATTRIBUTE
    ||| kw == Keyword::PASSWORD
    ||| kw == Keyword::SECONDARY_ENGINE_ATTRIBUTE
    ||| kw == Keyword::START
    ||| kw == Keyword::TABLESPACE
    ||| kw == Keyword::UNION
}

pub fn is_option_keyword(kw: Keyword) -> (b: bool)
    ensures
        b == spec_is_option_keyword(kw),
{
    matches!(
        kw,
        Keyword::INSERT_METHOD
            | Keyword::KEY_BLOCK_SIZE
            | Keyword::ROW_FORMAT
            | Keyword::DATA
            | Keyword::INDEX
            | Keyword::PACK_KEYS
            | Keyword::STATS_AUTO_RECALC
            | Keyword::STATS_PERSISTENT
            | Keyword::STATS_SAMPLE_PAGES
            | Keyword::DELAY_KEY_WRITE
            | Keyword::COMPRESSION
            | Keyword::ENCRYPTION
            | Keyword::MAX_ROWS
            | Keyword::MIN_ROWS
            | Keyword::AUTOEXTEND_SIZE
            | Keyword::AVG_ROW_LENGTH
            | Keyword::CHECKSUM
            | Keyword::CONNECTION
            | Keyword::ENGINE_ATTRIBUTE
            | Keyword::PASSWORD
            | Keyword::SECONDARY_ENGINE_ATTRIBUTE
            | Keyword::START
            | Keyword::TABLESPACE
            | Keyword::UNION
    )
}

/// The keywords this dialect additionally reserves against use as an
/// implicit table-factor alias.
pub open spec fn spec_is_mysql_alias_reserved(kw: Keyword) -> bool {
    kw == Keyword::USE || kw == Keyword::IGNORE || kw == Keyword::FORCE
}

pub fn is_mysql_alias_reserved(kw: Keyword) -> (b: bool)
    ensures
        b == spec_is_mysql_alias_reserved(kw),
{
    matches!(kw, Keyword::USE | Keyword::IGNORE | Keyword::FORCE)
}

} // verus!
