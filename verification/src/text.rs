use vstd::prelude::*;

verus! {

/// The code of a character with an ASCII lower-case letter mapped to its
/// upper-case counterpart; every other character is left as it is.
pub open spec fn spec_ascii_upper(c: char) -> int {
    if 97 <= c as u32 <= 122 {
        c as u32 - 32
    } else {
        c as u32 as int
    }
}

/// ASCII-case-insensitive equality of two character sequences.
pub open spec fn spec_eq_ignore_ascii_case(a: Seq<char>, b: Seq<char>) -> bool {
    &&& a.len() == b.len()
    &&& forall|i: int|
        0 <= i < a.len() ==> spec_ascii_upper(#[trigger] a[i]) == spec_ascii_upper(b[i])
}

pub fn eq_ignore_ascii_case(a: &str, b: &str) -> (r: bool)
    ensures
        r == spec_eq_ignore_ascii_case(a@, b@),
{
    let alen = a.unicode_len();
    let blen = b.unicode_len();
    if alen != blen {
        return false;
    }
    let mut i: usize = 0;
    while i < alen
        invariant
            alen == a@.len(),
            blen == b@.len(),
            alen == blen,
            i <= alen,
            forall|j: int| 0 <= j < i ==> spec_ascii_upper(#[trigger] a@[j]) == spec_ascii_upper(b@[j]),
        decreases alen - i,
    {
        let ca = a.get_char(i) as u32;
        let cb = b.get_char(i) as u32;
        let ua = if 97 <= ca && ca <= 122 {
            ca - 32
        } else {
            ca
        };
        let ub = if 97 <= cb && cb <= 122 {
            cb - 32
        } else {
            cb
        };
        if ua != ub {
            assert(spec_ascii_upper(a@[i as int]) != spec_ascii_upper(b@[i as int]));
            return false;
        }
        i = i + 1;
    }
    true
}

/// An ASCII decimal digit.
pub open spec fn spec_is_ascii_digit(c: char) -> bool {
    48 <= c as u32 <= 57
}

/// The numeric-literal texts the host's numeric parser accepts: at least one
/// digit, only digits and at most one decimal point.
pub open spec fn spec_is_number_text(s: Seq<char>) -> bool {
    &&& forall|i: int| 0 <= i < s.len() ==> spec_is_ascii_digit(#[trigger] s[i]) || s[i] == '.'
    &&& forall|i: int, j: int|
        0 <= i < s.len() && 0 <= j < s.len() && #[trigger] s[i] == '.' && #[trigger] s[j] == '.'
            ==> i == j
    &&& exists|i: int| 0 <= i < s.len() && spec_is_ascii_digit(#[trigger] s[i])
}

pub fn is_number_text(s: &str) -> (r: bool)
    ensures
        r == spec_is_number_text(s@),
{
    let n = s.unicode_len();
    let mut i: usize = 0;
    let mut seen_dot: bool = false;
    let mut seen_digit: bool = false;
    while i < n
        invariant
            n == s@.len(),
            i <= n,
            forall|j: int| 0 <= j < i ==> spec_is_ascii_digit(#[trigger] s@[j]) || s@[j] == '.',
            seen_dot == exists|j: int| 0 <= j < i && #[trigger] s@[j] == '.',
            seen_digit == exists|j: int| 0 <= j < i && spec_is_ascii_digit(#[trigger] s@[j]),
            forall|j: int, k: int|
                0 <= j < i && 0 <= k < i && #[trigger] s@[j] == '.' && #[trigger] s@[k] == '.'
                    ==> j == k,
        decreases n - i,
    {
        let c = s.get_char(i);
        let u = c as u32;
        if 48 <= u && u <= 57 {
            seen_digit = true;
        } else if c == '.' {
            if seen_dot {
                let ghost j = choose|j: int| 0 <= j < i && s@[j] == '.';
                assert(s@[j] == '.' && s@[i as int] == '.' && j != i as int);
                return false;
            }
            seen_dot = true;
        } else {
            assert(!(spec_is_ascii_digit(s@[i as int]) || s@[i as int] == '.'));
            return false;
        }
        i = i + 1;
    }
    seen_digit
}

/// Names the `Alphabetic` Unicode property of a character, a fixed function
/// of the character alone.
pub uninterp spec fn char_is_alphabetic(c: char) -> bool;

/// Relies on `char::is_alphabetic` of std: whether the character has the
/// Unicode `Alphabetic` property.
#[verifier::external_body]
pub(crate) fn is_alphabetic(c: char) -> (r: bool)
    ensures
        r == char_is_alphabetic(c),
{
    c.is_alphabetic()
}

/// The characters that may start an unquoted identifier in this dialect:
/// letters, `_`, `$`, `@`, and the range the vendor reserves for multibyte
/// identifiers.  A digit never qualifies, which lets the tokenizer tell
/// leading-digit numeric literals apart from identifiers.
pub open spec fn spec_is_identifier_start(c: char) -> bool {
    let u = c as u32;
    if u < 128 {
        (65 <= u && u <= 90) || (97 <= u && u <= 122) || u == 95 || u == 36 || u == 64
    } else {
        char_is_alphabetic(c) || u <= 65535
    }
}

/// The characters that may continue an identifier: anything that may start
/// one, plus the ASCII digits.
pub open spec fn spec_is_identifier_part(c: char) -> bool {
    spec_is_identifier_start(c) || spec_is_ascii_digit(c)
}

/// An ASCII digit never starts an identifier but always continues one.
pub proof fn lemma_digit_identifier_classification(c: char)
    requires
        spec_is_ascii_digit(c),
    ensures
        !spec_is_identifier_start(c),
        spec_is_identifier_part(c),
{
}

} // verus!
