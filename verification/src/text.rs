//! Text normalisation and the character classes that the validators use.

use vstd::prelude::*;
use vstd::string::*;

verus! {

/// The text that `str::trim` leaves of `s`: `s` without its leading and
/// trailing Unicode white space.
pub uninterp spec fn trimmed(s: Seq<char>) -> Seq<char>;

/// The text that `str::to_lowercase` makes of `s`, by Unicode's lower-case
/// mapping.
pub uninterp spec fn lowercased(s: Seq<char>) -> Seq<char>;

/// The text that `str::to_uppercase` makes of `s`, by Unicode's upper-case
/// mapping.
pub uninterp spec fn uppercased(s: Seq<char>) -> Seq<char>;

/// How type codes are stored: trimmed, then lower-cased.
pub open spec fn lower_code(s: Seq<char>) -> Seq<char> {
    lowercased(trimmed(s))
}

/// How currency codes and symbols are stored: trimmed, then upper-cased.
pub open spec fn upper_code(s: Seq<char>) -> Seq<char> {
    uppercased(trimmed(s))
}

/// An ASCII letter, of either case.
pub open spec fn is_ascii_letter(c: char) -> bool {
    ('a' <= c && c <= 'z') || ('A' <= c && c <= 'Z')
}

/// An ASCII letter or an ASCII digit.
pub open spec fn is_ascii_letter_or_digit(c: char) -> bool {
    is_ascii_letter(c) || ('0' <= c && c <= '9')
}

/// Every character of `s` is an ASCII letter.
pub open spec fn all_letters(s: Seq<char>) -> bool {
    forall|i: int| 0 <= i < s.len() ==> is_ascii_letter(#[trigger] s[i])
}

/// Every character of `s` is an ASCII letter or digit.
pub open spec fn all_letters_or_digits(s: Seq<char>) -> bool {
    forall|i: int| 0 <= i < s.len() ==> is_ascii_letter_or_digit(#[trigger] s[i])
}

/// A currency code of transactions and positions: exactly three ASCII
/// letters.
pub open spec fn is_currency_code(s: Seq<char>) -> bool {
    s.len() == 3 && all_letters(s)
}

/// `needle` stands somewhere in `hay`, character for character.
pub open spec fn occurs_in(needle: Seq<char>, hay: Seq<char>) -> bool {
    exists|i: int|
        0 <= i && i + needle.len() <= hay.len() && #[trigger] hay.subrange(
            i,
            i + needle.len(),
        ) == needle
}

/// Calls `str::contains` with a text as the pattern. Trusted: the result
/// says whether the pattern stands somewhere in the text.
#[verifier::external_body]
pub(crate) fn contains(hay: &str, needle: &str) -> (r: bool)
    ensures
        r == occurs_in(needle@, hay@),
{
    hay.contains(needle)
}

/// Calls `String::push`. Trusted: the character is added at the end.
#[verifier::external_body]
pub(crate) fn push_char(s: &mut String, c: char)
    ensures
        final(s)@ == old(s)@.push(c),
{
    s.push(c)
}

/// Calls `str::trim`. Trusted: the result is the text named `trimmed`.
#[verifier::external_body]
pub(crate) fn trim<'a>(s: &'a str) -> (r: &'a str)
    ensures
        r@ == trimmed(s@),
{
    s.trim()
}

/// Calls `str::to_lowercase`. Trusted: the result is the text named
/// `lowercased`.
#[verifier::external_body]
pub(crate) fn to_lowercase(s: &str) -> (r: String)
    ensures
        r@ == lowercased(s@),
{
    s.to_lowercase()
}

/// Calls `str::to_uppercase`. Trusted: the result is the text named
/// `uppercased`.
#[verifier::external_body]
pub(crate) fn to_uppercase(s: &str) -> (r: String)
    ensures
        r@ == uppercased(s@),
{
    s.to_uppercase()
}

/// Trims a type code and lower-cases it.
pub fn normalize_lower(s: &str) -> (r: String)
    ensures
        r@ == lower_code(s@),
{
    to_lowercase(trim(s))
}

/// Trims a currency code or symbol and upper-cases it.
pub fn normalize_upper(s: &str) -> (r: String)
    ensures
        r@ == upper_code(s@),
{
    to_uppercase(trim(s))
}

/// Tells whether `c` is an ASCII letter.
pub fn char_is_letter(c: char) -> (r: bool)
    ensures
        r == is_ascii_letter(c),
{
    ('a' <= c && c <= 'z') || ('A' <= c && c <= 'Z')
}

/// Tells whether `c` is an ASCII letter or digit.
pub fn char_is_letter_or_digit(c: char) -> (r: bool)
    ensures
        r == is_ascii_letter_or_digit(c),
{
    char_is_letter(c) || ('0' <= c && c <= '9')
}

/// Tells whether `s` is made of ASCII letters only.
pub fn only_letters(s: &str) -> (r: bool)
    ensures
        r == all_letters(s@),
{
    let n = s.unicode_len();
    let mut i: usize = 0;
    while i < n
        invariant
            n == s@.len(),
            i <= n,
            forall|j: int| 0 <= j < i ==> is_ascii_letter(#[trigger] s@[j]),
        decreases n - i,
    {
        if !char_is_letter(s.get_char(i)) {
            return false;
        }
        i = i + 1;
    }
    true
}

/// Tells whether `s` is made of ASCII letters and digits only.
pub fn only_letters_or_digits(s: &str) -> (r: bool)
    ensures
        r == all_letters_or_digits(s@),
{
    let n = s.unicode_len();
    let mut i: usize = 0;
    while i < n
        invariant
            n == s@.len(),
            i <= n,
            forall|j: int| 0 <= j < i ==> is_ascii_letter_or_digit(#[trigger] s@[j]),
        decreases n - i,
    {
        if !char_is_letter_or_digit(s.get_char(i)) {
            return false;
        }
        i = i + 1;
    }
    true
}

/// Tells whether `s` is exactly three ASCII letters.
pub fn three_letters(s: &str) -> (r: bool)
    ensures
        r == is_currency_code(s@),
{
    s.unicode_len() == 3 && only_letters(s)
}

/// Tells whether two texts hold the same characters.
pub fn same_text(a: &str, b: &str) -> (r: bool)
    ensures
        r == (a@ == b@),
{
    let n = a.unicode_len();
    if b.unicode_len() != n {
        return false;
    }
    let mut i: usize = 0;
    while i < n
        invariant
            n == a@.len(),
            n == b@.len(),
            i <= n,
            forall|j: int| 0 <= j < i ==> a@[j] == b@[j],
        decreases n - i,
    {
        if a.get_char(i) != b.get_char(i) {
            return false;
        }
        i = i + 1;
    }
    assert(a@ =~= b@);
    true
}

} // verus!
