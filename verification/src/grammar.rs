//! The grammar of source addresses, `[domain:]user/name[marker token]`,
//! and executable recognizers for each of its parts.
//!
//! The grammar is stated over sequences of characters. Every recognizer is
//! proved to accept exactly the sequences that the grammar admits.
use vstd::prelude::*;
use vstd::string::*;

verus! {

/// One of `a`..`z`, `A`..`Z`.
pub open spec fn is_letter(c: char) -> bool {
    ('a' <= c && c <= 'z') || ('A' <= c && c <= 'Z')
}

/// One of `0`..`9`.
pub open spec fn is_digit(c: char) -> bool {
    '0' <= c && c <= '9'
}

/// An ASCII letter or digit.
pub open spec fn is_alnum(c: char) -> bool {
    is_letter(c) || is_digit(c)
}

/// What `regex_syntax::is_word_character` answers for a character: whether
/// Unicode counts it as a word character. The grammar consults it only for
/// characters beyond ASCII.
pub uninterp spec fn word_character(c: char) -> bool;

/// A word character: within ASCII a letter, a digit or `_`; beyond ASCII
/// whatever Unicode counts as a word character.
pub open spec fn is_word(c: char) -> bool {
    if c <= '\u{7f}' {
        is_alnum(c) || c == '_'
    } else {
        word_character(c)
    }
}

/// A character of a user or repository name: a word character, `_` or `-`.
pub open spec fn is_ident_char(c: char) -> bool {
    is_word(c) || c == '_' || c == '-'
}

/// A character that introduces a specifier: `$`, `@` or `#`.
pub open spec fn is_marker(c: char) -> bool {
    c == '$' || c == '@' || c == '#'
}

/// Every character of `s` in `lo..hi` is a letter.
pub open spec fn letters(s: Seq<char>, lo: int, hi: int) -> bool {
    forall|i: int| lo <= i < hi ==> is_letter(#[trigger] s[i])
}

/// Every character of `s` in `lo..hi` is a letter, a digit or `-`.
pub open spec fn host_chars(s: Seq<char>, lo: int, hi: int) -> bool {
    forall|i: int| lo <= i < hi ==> is_alnum(#[trigger] s[i]) || s[i] == '-'
}

/// Every character of `s` in `lo..hi` is a letter, a digit, `-` or `_`.
pub open spec fn label_chars(s: Seq<char>, lo: int, hi: int) -> bool {
    forall|i: int| lo <= i < hi ==> is_alnum(#[trigger] s[i]) || s[i] == '-' || s[i] == '_'
}

/// A user or repository name: one or more identifier characters.
pub open spec fn is_identifier(s: Seq<char>) -> bool {
    s.len() >= 1 && forall|i: int| 0 <= i < s.len() ==> is_ident_char(#[trigger] s[i])
}

/// The text of a specifier: one or more word characters.
pub open spec fn is_token(s: Seq<char>) -> bool {
    s.len() >= 1 && forall|i: int| 0 <= i < s.len() ==> is_word(#[trigger] s[i])
}

/// The first `end` characters of `s` form the leading label of a host name:
/// a single letter; two characters of which the first is a letter, or the
/// first a digit and the second a letter; or 3 to 63 characters that begin
/// and end with a letter or digit and hold letters, digits, `-` and `_`
/// between.
pub open spec fn is_label(s: Seq<char>, end: int) -> bool {
    ||| (end == 1 && is_letter(s[0]))
    ||| (end == 2 && is_letter(s[0]) && is_letter(s[1]))
    ||| (end == 2 && is_letter(s[0]) && is_digit(s[1]))
    ||| (end == 2 && is_digit(s[0]) && is_letter(s[1]))
    ||| (3 <= end <= 63 && is_alnum(s[0]) && label_chars(s, 1, end - 1) && is_alnum(s[end - 1]))
}

/// From `from` to its end `s` is a plain top-level name: 2 to 6 letters.
pub open spec fn is_plain_tld(s: Seq<char>, from: int) -> bool {
    2 <= s.len() - from <= 6 && letters(s, from, s.len() as int)
}

/// From `from` to its end `s` is a compound suffix whose `.` stands at
/// `dot`: 2 to 30 letters, digits or `-`, the `.`, then 2 or 3 letters.
pub open spec fn is_compound_tld(s: Seq<char>, from: int, dot: int) -> bool {
    &&& 2 <= dot - from <= 30
    &&& dot < s.len()
    &&& s[dot] == '.'
    &&& host_chars(s, from, dot)
    &&& 2 <= s.len() - (dot + 1) <= 3
    &&& letters(s, dot + 1, s.len() as int)
}

/// From `from` to its end `s` is the suffix of a host name.
pub open spec fn is_suffix(s: Seq<char>, from: int) -> bool {
    is_plain_tld(s, from) || exists|dot: int| is_compound_tld(s, from, dot)
}

/// `s` is a host name whose label ends at the `.` at index `dot`.
pub open spec fn is_domain_at(s: Seq<char>, dot: int) -> bool {
    &&& 0 <= dot < s.len()
    &&& s[dot] == '.'
    &&& is_label(s, dot)
    &&& is_suffix(s, dot + 1)
}

/// `s` is a host name: a label, a `.`, and a suffix.
pub open spec fn is_domain(s: Seq<char>) -> bool {
    exists|dot: int| is_domain_at(s, dot)
}

/// Calls `regex_syntax::is_word_character`, the table behind the class `\w`.
/// Trusted: the answer depends on the character alone. With the crate's
/// feature `unicode-perl` switched on the call cannot fail.
#[verifier::external_body]
fn word_character_of(c: char) -> (b: bool)
    ensures
        b == word_character(c),
{
    regex_syntax::is_word_character(c)
}

/// Whether `c` is a letter of ASCII.
pub(crate) fn letter(c: char) -> (b: bool)
    ensures
        b == is_letter(c),
{
    (c >= 'a' && c <= 'z') || (c >= 'A' && c <= 'Z')
}

/// Whether `c` is a digit of ASCII.
pub(crate) fn digit(c: char) -> (b: bool)
    ensures
        b == is_digit(c),
{
    c >= '0' && c <= '9'
}

/// Whether `c` is a letter or digit of ASCII.
pub(crate) fn alnum(c: char) -> (b: bool)
    ensures
        b == is_alnum(c),
{
    letter(c) || digit(c)
}

/// Whether `c` is a word character.
pub(crate) fn word(c: char) -> (b: bool)
    ensures
        b == is_word(c),
{
    if c <= '\u{7f}' {
        alnum(c) || c == '_'
    } else {
        word_character_of(c)
    }
}

/// Whether `c` can stand in the name of a user or repository.
pub(crate) fn ident_char(c: char) -> (b: bool)
    ensures
        b == is_ident_char(c),
{
    word(c) || c == '_' || c == '-'
}

/// Whether `c` introduces a specifier.
pub(crate) fn marker(c: char) -> (b: bool)
    ensures
        b == is_marker(c),
{
    c == '$' || c == '@' || c == '#'
}

/// The index of the first `c` in `s` at or after `from`, or the length of
/// `s` where there is none.
pub(crate) fn find_from(s: &str, from: usize, c: char) -> (at: usize)
    requires
        from <= s@.len(),
    ensures
        from <= at <= s@.len(),
        forall|i: int| from <= i < at ==> s@[i] != c,
        at < s@.len() ==> s@[at as int] == c,
{
    let n: usize = s.unicode_len();
    let mut at: usize = from;
    while at < n
        invariant
            n == s@.len(),
            from <= at <= n,
            forall|i: int| from <= i < at ==> s@[i] != c,
        decreases n - at,
    {
        if s.get_char(at) == c {
            return at;
        }
        at += 1;
    }
    at
}

/// The index of the first marker in `s` at or after `from`, or the length
/// of `s` where there is none.
pub(crate) fn find_marker_from(s: &str, from: usize) -> (at: usize)
    requires
        from <= s@.len(),
    ensures
        from <= at <= s@.len(),
        forall|i: int| from <= i < at ==> !is_marker(s@[i]),
        at < s@.len() ==> is_marker(s@[at as int]),
{
    let n: usize = s.unicode_len();
    let mut at: usize = from;
    while at < n
        invariant
            n == s@.len(),
            from <= at <= n,
            forall|i: int| from <= i < at ==> !is_marker(s@[i]),
        decreases n - at,
    {
        if marker(s.get_char(at)) {
            return at;
        }
        at += 1;
    }
    at
}

/// Whether `s` can name a user or a repository.
pub fn check_identifier(s: &str) -> (b: bool)
    ensures
        b == is_identifier(s@),
{
    let n: usize = s.unicode_len();
    if n == 0 {
        return false;
    }
    let mut i: usize = 0;
    while i < n
        invariant
            n == s@.len(),
            i <= n,
            forall|j: int| 0 <= j < i ==> is_ident_char(#[trigger] s@[j]),
        decreases n - i,
    {
        if !ident_char(s.get_char(i)) {
            return false;
        }
        i += 1;
    }
    true
}

/// Whether `s` can be the text of a specifier.
pub fn check_token(s: &str) -> (b: bool)
    ensures
        b == is_token(s@),
{
    let n: usize = s.unicode_len();
    if n == 0 {
        return false;
    }
    let mut i: usize = 0;
    while i < n
        invariant
            n == s@.len(),
            i <= n,
            forall|j: int| 0 <= j < i ==> is_word(#[trigger] s@[j]),
        decreases n - i,
    {
        if !word(s.get_char(i)) {
            return false;
        }
        i += 1;
    }
    true
}

/// Whether `s` holds letters only in `lo..hi`.
fn check_letters(s: &str, lo: usize, hi: usize) -> (b: bool)
    requires
        lo <= hi <= s@.len(),
    ensures
        b == letters(s@, lo as int, hi as int),
{
    let mut i: usize = lo;
    while i < hi
        invariant
            lo <= i <= hi <= s@.len(),
            forall|j: int| lo <= j < i ==> is_letter(#[trigger] s@[j]),
        decreases hi - i,
    {
        if !letter(s.get_char(i)) {
            return false;
        }
        i += 1;
    }
    true
}

/// Whether `s` holds letters, digits and `-` only in `lo..hi`.
fn check_host_chars(s: &str, lo: usize, hi: usize) -> (b: bool)
    requires
        lo <= hi <= s@.len(),
    ensures
        b == host_chars(s@, lo as int, hi as int),
{
    let mut i: usize = lo;
    while i < hi
        invariant
            lo <= i <= hi <= s@.len(),
            forall|j: int| lo <= j < i ==> is_alnum(#[trigger] s@[j]) || s@[j] == '-',
        decreases hi - i,
    {
        let c = s.get_char(i);
        if !(alnum(c) || c == '-') {
            return false;
        }
        i += 1;
    }
    true
}

/// Whether `s` holds letters, digits, `-` and `_` only in `lo..hi`.
fn check_label_chars(s: &str, lo: usize, hi: usize) -> (b: bool)
    requires
        lo <= hi <= s@.len(),
    ensures
        b == label_chars(s@, lo as int, hi as int),
{
    let mut i: usize = lo;
    while i < hi
        invariant
            lo <= i <= hi <= s@.len(),
            forall|j: int| lo <= j < i ==> is_alnum(#[trigger] s@[j]) || s@[j] == '-' || s@[j] == '_',
        decreases hi - i,
    {
        let c = s.get_char(i);
        if !(alnum(c) || c == '-' || c == '_') {
            return false;
        }
        i += 1;
    }
    true
}

/// Whether the first `end` characters of `s` form a label.
fn check_label(s: &str, end: usize) -> (b: bool)
    requires
        end <= s@.len(),
    ensures
        b == is_label(s@, end as int),
{
    if end == 1 {
        letter(s.get_char(0))
    } else if end == 2 {
        let first = s.get_char(0);
        let second = s.get_char(1);
        (letter(first) && alnum(second)) || (digit(first) && letter(second))
    } else if 3 <= end && end <= 63 {
        alnum(s.get_char(0)) && alnum(s.get_char(end - 1)) && check_label_chars(s, 1, end - 1)
    } else {
        false
    }
}

/// Whether `s` from `from` on is the suffix of a host name.
fn check_suffix(s: &str, from: usize) -> (b: bool)
    requires
        from <= s@.len(),
    ensures
        b == is_suffix(s@, from as int),
{
    let n: usize = s.unicode_len();
    let dot: usize = find_from(s, from, '.');
    if dot == n {
        2 <= n - from && n - from <= 6 && check_letters(s, from, n)
    } else {
        // The `.` of a compound suffix is the first, for none stands before it.
        assert forall|d: int| is_compound_tld(s@, from as int, d) implies d == dot by {}
        let b = 2 <= dot - from && dot - from <= 30 && 2 <= n - (dot + 1) && n - (dot + 1) <= 3
            && check_host_chars(s, from, dot) && check_letters(s, dot + 1, n);
        assert(b == is_compound_tld(s@, from as int, dot as int));
        b
    }
}

/// Whether `s` is a host name.
pub fn check_domain(s: &str) -> (b: bool)
    ensures
        b == is_domain(s@),
{
    let n: usize = s.unicode_len();
    let dot: usize = find_from(s, 0, '.');
    if dot == n {
        return false;
    }
    // The label ends at the first `.`, for it holds none.
    assert forall|d: int| is_domain_at(s@, d) implies d == dot by {
        if d > dot {
            lemma_label_has_no_dot(s@, d, dot as int);
        }
    }
    let b = check_label(s, dot) && check_suffix(s, dot + 1);
    assert(b == is_domain_at(s@, dot as int));
    b
}

/// No character of a label is a `.`.
pub proof fn lemma_label_has_no_dot(s: Seq<char>, end: int, i: int)
    requires
        is_label(s, end),
        0 <= i < end,
    ensures
        s[i] != '.',
{
}

/// Every character of a host name is a letter, a digit, `-`, `_` or `.`;
/// so none is a `:`.
pub proof fn lemma_domain_chars(s: Seq<char>, i: int)
    requires
        is_domain(s),
        0 <= i < s.len(),
    ensures
        is_alnum(s[i]) || s[i] == '-' || s[i] == '_' || s[i] == '.',
        s[i] != ':',
{
}

} // verus!
