//! Character classes and scans over text.

use vstd::prelude::*;

verus! {

/// `str::eq`: two texts are equal where they hold the same characters in
/// the same order.
pub assume_specification[ <str as PartialEq>::eq ](a: &str, b: &str) -> (same: bool)
    ensures
        same == (a@ == b@),
;

/// The characters that a subscriber name may not hold.
pub open spec fn is_forbidden(c: char) -> bool {
    c == '/' || c == '(' || c == ')' || c == '"' || c == '<' || c == '>' || c == '\\' || c == '{'
        || c == '}'
}

/// Some character of `s` is forbidden.
pub open spec fn has_forbidden(s: Seq<char>) -> bool {
    exists|i: int| 0 <= i < s.len() && is_forbidden(#[trigger] s[i])
}

/// The characters with the Unicode property `White_Space`.
pub open spec fn is_whitespace(c: char) -> bool {
    let n = c as u32;
    ||| 0x09 <= n <= 0x0D
    ||| n == 0x20
    ||| n == 0x85
    ||| n == 0xA0
    ||| n == 0x1680
    ||| 0x2000 <= n <= 0x200A
    ||| n == 0x2028
    ||| n == 0x2029
    ||| n == 0x202F
    ||| n == 0x205F
    ||| n == 0x3000
}

/// Nothing is left of `s` once whitespace is trimmed from both ends: every
/// character of it is whitespace. The empty text is blank.
pub open spec fn is_blank(s: Seq<char>) -> bool {
    forall|i: int| 0 <= i < s.len() ==> is_whitespace(#[trigger] s[i])
}

/// Whether `c` is one of the forbidden characters.
pub fn is_forbidden_character(c: char) -> (forbidden: bool)
    ensures
        forbidden == is_forbidden(c),
{
    c == '/' || c == '(' || c == ')' || c == '"' || c == '<' || c == '>' || c == '\\' || c == '{'
        || c == '}'
}

/// Whether `c` is a whitespace character.
pub fn is_whitespace_character(c: char) -> (white: bool)
    ensures
        white == is_whitespace(c),
{
    let n: u32 = c as u32;
    (0x09 <= n && n <= 0x0D) || n == 0x20 || n == 0x85 || n == 0xA0 || n == 0x1680 || (0x2000 <= n
        && n <= 0x200A) || n == 0x2028 || n == 0x2029 || n == 0x202F || n == 0x205F || n == 0x3000
}

/// Whether some character of `s` is forbidden.
pub fn contains_forbidden_character(s: &str) -> (found: bool)
    ensures
        found == has_forbidden(s@),
{
    let mut found = false;
    for c in it: s.chars()
        invariant
            it.seq() == s@,
            found == (exists|j: int| 0 <= j < it.index() && is_forbidden(#[trigger] s@[j])),
    {
        assert(c == s@[it.index() as int]);
        if is_forbidden_character(c) {
            found = true;
        }
    }
    found
}

/// Whether `s` is empty or whitespace throughout.
pub fn is_blank_text(s: &str) -> (blank: bool)
    ensures
        blank == is_blank(s@),
{
    let mut blank = true;
    for c in it: s.chars()
        invariant
            it.seq() == s@,
            blank == (forall|j: int| 0 <= j < it.index() ==> is_whitespace(#[trigger] s@[j])),
    {
        assert(c == s@[it.index() as int]);
        if !is_whitespace_character(c) {
            blank = false;
        }
    }
    blank
}

} // verus!
