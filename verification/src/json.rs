//! Writing text as JSON: string literals and flat objects of them.

use vstd::prelude::*;

verus! {

/// `String::push` appends one character to the end of the string.
pub assume_specification[ String::push ](s: &mut String, c: char)
    ensures
        final(s)@ == old(s)@.push(c),
;

/// The digit that stands for `n` in base sixteen, in lower case.
pub open spec fn hex_digit(n: int) -> char
    recommends
        0 <= n < 16,
{
    if n < 10 {
        ((48 + n) as u8) as char
    } else {
        ((87 + n) as u8) as char
    }
}

/// How one character stands inside a JSON string literal: the quote, the
/// backslash and the control characters are escaped, every other character
/// stands for itself.
pub open spec fn escaped_char(c: char) -> Seq<char> {
    if c == '"' {
        seq!['\\', '"']
    } else if c == '\\' {
        seq!['\\', '\\']
    } else if c == '\n' {
        seq!['\\', 'n']
    } else if c == '\r' {
        seq!['\\', 'r']
    } else if c == '\t' {
        seq!['\\', 't']
    } else if (c as u32) < 0x20 {
        seq!['\\', 'u', '0', '0', hex_digit((c as u32) as int / 16), hex_digit((c as u32) as int % 16)]
    } else {
        seq![c]
    }
}

/// The characters of `s`, each escaped, in order.
pub open spec fn escaped(s: Seq<char>) -> Seq<char>
    decreases s.len(),
{
    if s.len() == 0 {
        Seq::empty()
    } else {
        escaped(s.drop_last()) + escaped_char(s.last())
    }
}

/// `s` as a JSON string literal: escaped, between quotes.
pub open spec fn string_literal(s: Seq<char>) -> Seq<char> {
    seq!['"'] + escaped(s) + seq!['"']
}

fn hex_digit_of(n: u8) -> (digit: char)
    requires
        n < 16,
    ensures
        digit == hex_digit(n as int),
{
    if n < 10 {
        (48 + n) as char
    } else {
        (87 + n) as char
    }
}

/// Appends `c` to `out` as it stands inside a JSON string literal.
pub fn push_escaped_char(out: &mut String, c: char)
    ensures
        final(out)@ == old(out)@ + escaped_char(c),
{
    let n: u32 = c as u32;
    if c == '"' {
        out.push('\\');
        out.push('"');
    } else if c == '\\' {
        out.push('\\');
        out.push('\\');
    } else if c == '\n' {
        out.push('\\');
        out.push('n');
    } else if c == '\r' {
        out.push('\\');
        out.push('r');
    } else if c == '\t' {
        out.push('\\');
        out.push('t');
    } else if n < 0x20 {
        out.push('\\');
        out.push('u');
        out.push('0');
        out.push('0');
        out.push(hex_digit_of((n / 16) as u8));
        out.push(hex_digit_of((n % 16) as u8));
    } else {
        out.push(c);
    }
    assert(out@ =~= old(out)@ + escaped_char(c));
}

/// Appends `s` to `out` as a JSON string literal.
pub fn push_string_literal(out: &mut String, s: &str)
    ensures
        final(out)@ == old(out)@ + string_literal(s@),
{
    out.push('"');
    for c in it: s.chars()
        invariant
            it.seq() == s@,
            out@ == old(out)@ + seq!['"'] + escaped(s@.take(it.index() as int)),
    {
        let ghost n = it.index() as int;
        assert(c == s@[n]);
        assert(s@.take(n + 1).drop_last() =~= s@.take(n));
        assert(s@.take(n + 1).last() == c);
        push_escaped_char(out, c);
        assert(out@ =~= old(out)@ + seq!['"'] + escaped(s@.take(n + 1)));
    }
    assert(s@.take(s@.len() as int) =~= s@);
    out.push('"');
    assert(out@ =~= old(out)@ + string_literal(s@));
}

/// One member of an object: the key, a colon, the value, both as literals.
pub open spec fn member(key: Seq<char>, value: Seq<char>) -> Seq<char> {
    string_literal(key) + seq![':'] + string_literal(value)
}

/// The members in order, parted by commas.
pub open spec fn members(pairs: Seq<(Seq<char>, Seq<char>)>) -> Seq<char>
    decreases pairs.len(),
{
    if pairs.len() == 0 {
        Seq::empty()
    } else if pairs.len() == 1 {
        member(pairs[0].0, pairs[0].1)
    } else {
        members(pairs.drop_last()) + seq![','] + member(pairs.last().0, pairs.last().1)
    }
}

/// A JSON object whose values are all strings: the members between braces,
/// in the order given, with no white space.
pub open spec fn object(pairs: Seq<(Seq<char>, Seq<char>)>) -> Seq<char> {
    seq!['{'] + members(pairs) + seq!['}']
}

/// The keys and values of `pairs` as plain text.
pub open spec fn pair_views(pairs: Seq<(&str, &str)>) -> Seq<(Seq<char>, Seq<char>)> {
    Seq::new(pairs.len(), |i: int| (pairs[i].0@, pairs[i].1@))
}

/// Writes `pairs` as a JSON object.
pub fn write_object(pairs: &Vec<(&str, &str)>) -> (text: String)
    ensures
        text@ == object(pair_views(pairs@)),
{
    let ghost all = pair_views(pairs@);
    let mut out = String::new();
    out.push('{');
    let mut i: usize = 0;
    while i < pairs.len()
        invariant
            i <= pairs.len(),
            all == pair_views(pairs@),
            out@ == seq!['{'] + members(all.take(i as int)),
        decreases pairs.len() - i,
    {
        let ghost before = out@;
        if i > 0 {
            out.push(',');
        }
        let (key, value) = pairs[i];
        push_string_literal(&mut out, key);
        out.push(':');
        push_string_literal(&mut out, value);
        proof {
            let next = all.take(i + 1);
            assert(next.drop_last() =~= all.take(i as int));
            assert(next.last() == (key@, value@));
            assert(next[0] == all[0]);
            assert(out@ =~= seq!['{'] + members(next));
        }
        i += 1;
    }
    assert(all.take(i as int) =~= all);
    out.push('}');
    assert(out@ =~= object(all));
    out
}

/// The number that the hexadecimal digit `c` stands for, in either case.
pub open spec fn hex_value(c: char) -> Option<int> {
    let n = (c as u32) as int;
    if 48 <= n <= 57 {
        Some(n - 48)
    } else if 97 <= n <= 102 {
        Some(n - 87)
    } else if 65 <= n <= 70 {
        Some(n - 55)
    } else {
        None
    }
}

/// The character that stands behind a backslash and `mark`, for the escapes
/// of one letter.
pub open spec fn short_escape(mark: char) -> Option<char> {
    if mark == '"' || mark == '\\' || mark == '/' {
        Some(mark)
    } else if mark == 'b' {
        Some('\u{8}')
    } else if mark == 'f' {
        Some('\u{c}')
    } else if mark == 'n' {
        Some('\n')
    } else if mark == 'r' {
        Some('\r')
    } else if mark == 't' {
        Some('\t')
    } else {
        None
    }
}

/// The code point that the four hexadecimal digits at the front of `digits`
/// spell, where that is a character by itself: a half of a surrogate pair
/// is none.
pub open spec fn hex_escape(digits: Seq<char>) -> Option<char> {
    if digits.len() < 4 {
        None
    } else {
        match (
            hex_value(digits[0]),
            hex_value(digits[1]),
            hex_value(digits[2]),
            hex_value(digits[3]),
        ) {
            (Some(a), Some(b), Some(c), Some(d)) => {
                let code = ((a * 16 + b) * 16 + c) * 16 + d;
                if 0xD800 <= code <= 0xDFFF {
                    None
                } else {
                    Some(code as char)
                }
            },
            _ => None,
        }
    }
}

/// The first character that `t` spells as the inside of a JSON string
/// literal, and how much of `t` spells it. There is none where `t` is empty
/// or begins with a bare quote, a bare control character or a broken escape.
pub open spec fn first_unit(t: Seq<char>) -> Option<(char, int)> {
    if t.len() == 0 {
        None
    } else if t[0] != '\\' {
        if t[0] == '"' || (t[0] as u32) < 0x20 {
            None
        } else {
            Some((t[0], 1))
        }
    } else if t.len() < 2 {
        None
    } else if t[1] == 'u' {
        match hex_escape(t.skip(2)) {
            Some(c) => Some((c, 6)),
            None => None,
        }
    } else {
        match short_escape(t[1]) {
            Some(c) => Some((c, 2)),
            None => None,
        }
    }
}

/// The text that `t` spells as the inside of a JSON string literal, read
/// unit by unit; none where some part of `t` spells nothing.
pub open spec fn unescaped(t: Seq<char>) -> Option<Seq<char>>
    decreases t.len(),
{
    if t.len() == 0 {
        Some(Seq::empty())
    } else {
        match first_unit(t) {
            Some((c, n)) => match unescaped(t.skip(n)) {
                Some(rest) => Some(seq![c] + rest),
                None => None,
            },
            None => None,
        }
    }
}

/// The text that the JSON string literal `t` stands for; none where `t` is
/// no literal.
pub open spec fn literal_value(t: Seq<char>) -> Option<Seq<char>> {
    if t.len() >= 2 && t.first() == '"' && t.last() == '"' {
        unescaped(t.subrange(1, t.len() - 1))
    } else {
        None
    }
}

/// Escaping goes character by character from the front as well as from the
/// back.
pub proof fn lemma_escaped_from_front(s: Seq<char>)
    requires
        s.len() > 0,
    ensures
        escaped(s) == escaped_char(s[0]) + escaped(s.skip(1)),
    decreases s.len(),
{
    if s.len() == 1 {
        assert(s.drop_last() =~= Seq::<char>::empty());
        assert(s.skip(1) =~= Seq::<char>::empty());
        assert(escaped(s) =~= escaped_char(s[0]) + escaped(s.skip(1)));
    } else {
        lemma_escaped_from_front(s.drop_last());
        assert(s.drop_last().skip(1) =~= s.skip(1).drop_last());
        assert(s.skip(1).last() == s.last());
        assert(escaped(s) =~= escaped_char(s[0]) + escaped(s.skip(1)));
    }
}

/// A hexadecimal digit stands for the number it was written for.
pub proof fn lemma_hex_digit_value(n: int)
    requires
        0 <= n < 16,
    ensures
        hex_value(hex_digit(n)) == Some(n),
{
}

/// What one character is escaped to spells that character, whatever follows.
pub proof fn lemma_escaped_char_reads_back(c: char, rest: Seq<char>)
    ensures
        first_unit(escaped_char(c) + rest) == Some((c, escaped_char(c).len() as int)),
        (escaped_char(c) + rest).skip(escaped_char(c).len() as int) == rest,
{
    let e = escaped_char(c);
    let t = e + rest;
    assert(t.skip(e.len() as int) =~= rest);
    let n = (c as u32) as int;
    if c == '"' || c == '\\' || c == '\n' || c == '\r' || c == '\t' {
        assert(t[0] == '\\' && t[1] == e[1]);
    } else if n < 0x20 {
        let high = n / 16;
        let low = n % 16;
        lemma_hex_digit_value(high);
        lemma_hex_digit_value(low);
        assert(t[0] == '\\' && t[1] == 'u');
        let digits = t.skip(2);
        assert(digits[0] == '0' && digits[1] == '0' && digits[2] == hex_digit(high) && digits[3]
            == hex_digit(low));
        assert(hex_value('0') == Some(0int));
        assert(((0 * 16 + 0) * 16 + high) * 16 + low == n);
        assert((n as char) == c) by {
            vstd::utf8::char_u32_cast(c, c as u32);
        }
    } else {
        assert(t[0] == c);
    }
}

/// What is written reads back: the escaped form of any text spells that
/// text, and in particular holds no bare quote that would end the literal
/// early.
pub proof fn lemma_escaped_reads_back(s: Seq<char>)
    ensures
        unescaped(escaped(s)) == Some(s),
    decreases s.len(),
{
    if s.len() > 0 {
        let rest = escaped(s.skip(1));
        lemma_escaped_from_front(s);
        lemma_escaped_char_reads_back(s[0], rest);
        lemma_escaped_reads_back(s.skip(1));
        assert(escaped(s).len() > 0);
        assert(seq![s[0]] + s.skip(1) =~= s);
    }
}

/// The literal of any text stands for that text.
pub proof fn lemma_literal_reads_back(s: Seq<char>)
    ensures
        literal_value(string_literal(s)) == Some(s),
{
    let t = string_literal(s);
    lemma_escaped_reads_back(s);
    assert(t.subrange(1, t.len() - 1) =~= escaped(s));
}

} // verus!
