//! Reading text: white space, digits, and numbers written in a radix.
//!
//! The rules are those of the standard library: white space is what Unicode
//! calls so; a number is an optional `+` and at least one digit, and fits in
//! sixteen bits.

use vstd::prelude::*;

verus! {

/// White space: the code points with the Unicode property `White_Space`.
pub open spec fn spec_is_whitespace(c: char) -> bool {
    let code = c as u32;
    ||| 0x09 <= code <= 0x0D
    ||| code == 0x20
    ||| code == 0x85
    ||| code == 0xA0
    ||| code == 0x1680
    ||| 0x2000 <= code <= 0x200A
    ||| code == 0x2028
    ||| code == 0x2029
    ||| code == 0x202F
    ||| code == 0x205F
    ||| code == 0x3000
}

#[verifier::when_used_as_spec(spec_is_whitespace)]
pub fn is_whitespace(c: char) -> (white: bool)
    ensures
        white == spec_is_whitespace(c),
{
    let code: u32 = c as u32;
    (0x09 <= code && code <= 0x0D) || code == 0x20 || code == 0x85 || code == 0xA0 || code
        == 0x1680 || (0x2000 <= code && code <= 0x200A) || code == 0x2028 || code == 0x2029
        || code == 0x202F || code == 0x205F || code == 0x3000
}

/// The value of a digit in a radix up to sixteen: `0` to `9`, then the
/// letters from `a`, in either case.
pub open spec fn spec_digit_value(c: char, radix: u32) -> Option<u32> {
    let code = c as u32;
    let value = if 0x30 <= code <= 0x39 {
        code - 0x30
    } else if 0x61 <= code <= 0x66 {
        code - 0x61 + 10
    } else if 0x41 <= code <= 0x46 {
        code - 0x41 + 10
    } else {
        radix as int
    };
    if value < radix {
        Some(value as u32)
    } else {
        None
    }
}

#[verifier::when_used_as_spec(spec_digit_value)]
pub fn digit_value(c: char, radix: u32) -> (value: Option<u32>)
    ensures
        value == spec_digit_value(c, radix),
{
    let code: u32 = c as u32;
    let value: u32 = if 0x30 <= code && code <= 0x39 {
        code - 0x30
    } else if 0x61 <= code && code <= 0x66 {
        code - 0x61 + 10
    } else if 0x41 <= code && code <= 0x46 {
        code - 0x41 + 10
    } else {
        radix
    };
    if value < radix {
        Some(value)
    } else {
        None
    }
}

/// The number that a sequence of digits writes, the most significant digit
/// first; none where one of them is no digit of the radix.
pub open spec fn digits_value(digits: Seq<char>, radix: u32) -> Option<nat>
    decreases digits.len(),
{
    if digits.len() == 0 {
        Some(0)
    } else {
        match (digits_value(digits.drop_last(), radix), spec_digit_value(digits.last(), radix)) {
            (Some(high), Some(low)) => Some((high * radix + low) as nat),
            _ => None,
        }
    }
}

/// The sixteen-bit number that a sequence of digits writes: there is at least
/// one digit, all of them are digits of the radix, and the value is at most
/// 0xFFFF.
pub open spec fn word_of_digits(digits: Seq<char>, radix: u32) -> Option<u16> {
    if digits.len() == 0 {
        None
    } else {
        match digits_value(digits, radix) {
            Some(value) => if value <= 0xFFFF {
                Some(value as u16)
            } else {
                None
            },
            None => None,
        }
    }
}

/// The sixteen-bit number that a token writes: an optional `+`, then the
/// digits of a sixteen-bit number. Anything else writes no number.
pub open spec fn spec_parse_word(token: Seq<char>, radix: u32) -> Option<u16> {
    if token.len() > 0 && token[0] == '+' {
        word_of_digits(token.drop_first(), radix)
    } else {
        word_of_digits(token, radix)
    }
}

/// A longer sequence of digits writes no smaller a number, and writes none
/// where a prefix of it writes none.
proof fn lemma_digits_value_grows(digits: Seq<char>, radix: u32, length: int)
    requires
        0 <= length <= digits.len(),
    ensures
        digits_value(digits.take(length), radix) is None ==> digits_value(digits, radix) is None,
        digits_value(digits, radix) matches Some(value) ==> digits_value(
            digits.take(length),
            radix,
        )->Some_0 <= value,
    decreases digits.len(),
{
    if length < digits.len() {
        assert(digits.drop_last().take(length) =~= digits.take(length));
        lemma_digits_value_grows(digits.drop_last(), radix, length);
        if let (Some(high), Some(low)) = (
            digits_value(digits.drop_last(), radix),
            spec_digit_value(digits.last(), radix),
        ) {
            assert(high * radix + low >= high) by (nonlinear_arith)
                requires
                    radix >= 1,
                    high >= 0,
                    low >= 0,
            ;
        }
    } else {
        assert(digits.take(length) =~= digits);
    }
}

/// Reads a sixteen-bit number in a radix from 2 to 16.
pub fn parse_word(token: &[char], radix: u32) -> (word: Option<u16>)
    requires
        2 <= radix <= 16,
    ensures
        word == spec_parse_word(token@, radix),
{
    let start: usize = if token.len() > 0 && token[0] == '+' {
        1
    } else {
        0
    };
    if start == token.len() {
        return None;
    }
    let ghost digits = token@.subrange(start as int, token.len() as int);
    proof {
        if start == 1 {
            assert(digits =~= token@.drop_first());
        } else {
            assert(digits =~= token@);
        }
    }
    let mut value: u32 = 0;
    let mut i: usize = start;
    while i < token.len()
        invariant
            start <= i <= token.len(),
            2 <= radix <= 16,
            digits == token@.subrange(start as int, token.len() as int),
            spec_parse_word(token@, radix) == word_of_digits(digits, radix),
            digits_value(digits.take(i - start), radix) == Some(value as nat),
            value <= 0xFFFF,
        decreases token.len() - i,
    {
        let ghost longer = digits.take(i - start + 1);
        proof {
            assert(longer.drop_last() =~= digits.take(i - start));
            assert(longer.last() == token@[i as int]);
            lemma_digits_value_grows(digits, radix, i - start + 1);
            assert(value * radix <= 0xFFFF * 16) by (nonlinear_arith)
                requires
                    value <= 0xFFFF,
                    radix <= 16,
            ;
        }
        match digit_value(token[i], radix) {
            None => {
                assert(digits_value(longer, radix) is None);
                return None;
            },
            Some(digit) => {
                value = value * radix + digit;
                assert(digits_value(longer, radix) == Some(value as nat));
                if value > 0xFFFF {
                    return None;
                }
            },
        }
        i += 1;
    }
    proof {
        assert(digits.take(i - start) =~= digits);
    }
    Some(value as u16)
}

/// Where the white space that begins at `from` ends: the first position from
/// there on that holds no white space, or the end of the text.
pub open spec fn spec_skip_whitespace(text: Seq<char>, from: int) -> int
    decreases text.len() - from,
{
    if 0 <= from < text.len() && spec_is_whitespace(text[from]) {
        spec_skip_whitespace(text, from + 1)
    } else {
        from
    }
}

/// Where the token that begins at `from` ends: the first position from there
/// on that holds white space, or the end of the text.
pub open spec fn spec_token_end(text: Seq<char>, from: int) -> int
    decreases text.len() - from,
{
    if 0 <= from < text.len() && !spec_is_whitespace(text[from]) {
        spec_token_end(text, from + 1)
    } else {
        from
    }
}

/// A scan moves forward and stays within the text; what the skip of white
/// space passes over is white space, and it stops on none; what the scan of a
/// token passes over is none, and it stops on white space.
pub proof fn lemma_scan_bounds(text: Seq<char>, from: int)
    requires
        0 <= from <= text.len(),
    ensures
        from <= spec_skip_whitespace(text, from) <= text.len(),
        from <= spec_token_end(text, from) <= text.len(),
        forall|k: int|
            from <= k < spec_skip_whitespace(text, from) ==> spec_is_whitespace(#[trigger] text[k]),
        forall|k: int|
            from <= k < spec_token_end(text, from) ==> !spec_is_whitespace(#[trigger] text[k]),
        spec_skip_whitespace(text, from) < text.len() ==> !spec_is_whitespace(
            text[spec_skip_whitespace(text, from)],
        ),
        spec_token_end(text, from) < text.len() ==> spec_is_whitespace(
            text[spec_token_end(text, from)],
        ),
    decreases text.len() - from,
{
    if from < text.len() {
        lemma_scan_bounds(text, from + 1);
    }
}

/// Skips the white space that begins at `from`.
pub fn skip_whitespace(text: &[char], from: usize) -> (start: usize)
    requires
        from <= text@.len(),
    ensures
        start == spec_skip_whitespace(text@, from as int),
        from <= start <= text@.len(),
{
    let mut i: usize = from;
    while i < text.len() && is_whitespace(text[i])
        invariant
            from <= i <= text@.len(),
            spec_skip_whitespace(text@, i as int) == spec_skip_whitespace(text@, from as int),
        decreases text@.len() - i,
    {
        i += 1;
    }
    i
}

/// Finds the end of the token that begins at `from`.
pub fn token_end(text: &[char], from: usize) -> (end: usize)
    requires
        from <= text@.len(),
    ensures
        end == spec_token_end(text@, from as int),
        from <= end <= text@.len(),
{
    let mut i: usize = from;
    while i < text.len() && !is_whitespace(text[i])
        invariant
            from <= i <= text@.len(),
            spec_token_end(text@, i as int) == spec_token_end(text@, from as int),
        decreases text@.len() - i,
    {
        i += 1;
    }
    i
}

/// The characters of a string.
pub fn chars_of(text: &str) -> (chars: Vec<char>)
    ensures
        chars@ == text@,
{
    let mut chars: Vec<char> = Vec::new();
    for c in it: text.chars()
        invariant
            chars@ == it.seq().take(it.index()),
            it.seq() == text@,
    {
        chars.push(c);
    }
    chars
}

} // verus!
