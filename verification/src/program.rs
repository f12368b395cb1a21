//! Program images: the words of a program, from the bytes of a binary file
//! or from hexadecimal text.

use vstd::prelude::*;
use crate::text::{
    chars_of, lemma_scan_bounds, parse_word, skip_whitespace, spec_parse_word,
    spec_skip_whitespace, spec_token_end, token_end,
};
use crate::word::RAM_LENGTH;

verus! {

/// The word that two bytes make, the low byte first.
pub open spec fn spec_word_from_bytes(low: u8, high: u8) -> u16 {
    (low + 0x100 * high) as u16
}

/// The number of words in the image of `length` bytes: one for each pair of
/// bytes and one for a last byte without a partner, and no more than the
/// memory holds.
pub open spec fn image_length(length: nat) -> nat {
    if (length + 1) / 2 <= RAM_LENGTH {
        (length + 1) / 2
    } else {
        RAM_LENGTH as nat
    }
}

/// The byte at `index`, or zero beyond the end.
pub open spec fn byte_or_zero(bytes: Seq<u8>, index: int) -> u8 {
    if index < bytes.len() {
        bytes[index]
    } else {
        0u8
    }
}

/// The words of a binary image: little-endian byte pairs, a last byte without
/// a partner padded with zero, and what the memory cannot hold left out.
pub open spec fn spec_words_from_bytes(bytes: Seq<u8>) -> Seq<u16> {
    Seq::new(
        image_length(bytes.len()),
        |i: int| spec_word_from_bytes(bytes[2 * i], byte_or_zero(bytes, 2 * i + 1)),
    )
}

#[verifier::when_used_as_spec(spec_word_from_bytes)]
pub fn word_from_bytes(low: u8, high: u8) -> (word: u16)
    ensures
        word == spec_word_from_bytes(low, high),
{
    let l: u16 = low as u16;
    let h: u16 = high as u16;
    assert(l | (h << 8) == l + 0x100 * h) by (bit_vector)
        requires
            l < 0x100,
            h < 0x100,
    ;
    l | (h << 8)
}

/// Turns the bytes of a binary program file into the words of the program.
/// The result always fits the memory.
pub fn words_from_bytes(bytes: &[u8]) -> (words: Vec<u16>)
    ensures
        words@ == spec_words_from_bytes(bytes@),
        words@.len() <= RAM_LENGTH,
{
    let mut words: Vec<u16> = Vec::new();
    let mut i: usize = 0;
    while i < RAM_LENGTH && i < (bytes.len() - bytes.len() / 2)
        invariant
            i <= RAM_LENGTH,
            i <= image_length(bytes@.len()),
            bytes.len() - bytes.len() / 2 == (bytes@.len() + 1) / 2,
            words@.len() == i,
            forall|k: int|
                0 <= k < i ==> words@[k] == spec_word_from_bytes(
                    bytes@[2 * k],
                    byte_or_zero(bytes@, 2 * k + 1),
                ),
        decreases RAM_LENGTH - i,
    {
        let low: u8 = bytes[2 * i];
        let high: u8 = if 2 * i + 1 < bytes.len() {
            bytes[2 * i + 1]
        } else {
            0
        };
        words.push(word_from_bytes(low, high));
        i += 1;
    }
    assert(words@ =~= spec_words_from_bytes(bytes@));
    words
}

/// Why a text is not a program.
#[derive(Debug, Clone, Copy, PartialEq, Eq, Structural)]
pub enum ProgramError {
    /// The token that begins at this offset, counted in characters, is not a
    /// hexadecimal number of sixteen bits.
    InvalidWord { offset: usize },
    /// Every token is a word, but there are more of them than the memory
    /// holds.
    TooLong,
}

/// The words that the text writes from `from` on: its tokens, separated by
/// white space, each read as a hexadecimal number; or the offset of the first
/// token that is none.
pub open spec fn hex_words_from(text: Seq<char>, from: int) -> Result<Seq<u16>, ProgramError>
    decreases text.len() - from,
{
    let start = spec_skip_whitespace(text, from);
    if from < 0 || start >= text.len() {
        Ok(Seq::empty())
    } else {
        let end = spec_token_end(text, start + 1);
        proof {
            lemma_scan_bounds(text, from);
            lemma_scan_bounds(text, start + 1);
        }
        match spec_parse_word(text.subrange(start, end), 16) {
            None => Err(ProgramError::InvalidWord { offset: start as usize }),
            Some(word) => match hex_words_from(text, end) {
                Ok(rest) => Ok(seq![word] + rest),
                Err(error) => Err(error),
            },
        }
    }
}

/// The program that a hexadecimal text writes: all its words, if the memory
/// holds them.
pub open spec fn spec_parse_hex_program(text: Seq<char>) -> Result<Seq<u16>, ProgramError> {
    match hex_words_from(text, 0) {
        Ok(words) => if words.len() <= RAM_LENGTH {
            Ok(words)
        } else {
            Err(ProgramError::TooLong)
        },
        Err(error) => Err(error),
    }
}

/// What was read so far, followed by what the rest of the text writes.
pub open spec fn continued(words: Seq<u16>, rest: Result<Seq<u16>, ProgramError>) -> Result<
    Seq<u16>,
    ProgramError,
> {
    match rest {
        Ok(more) => Ok(words + more),
        Err(error) => Err(error),
    }
}

/// Reads a program from hexadecimal text: tokens separated by white space,
/// each a number of up to sixteen bits in hexadecimal digits, with an
/// optional `+` before them.
///
/// Succeeds if and only if every token is such a number and there are no
/// more than 4096 of them. The first token that is none is reported by its
/// offset; a text of too many words is reported as too long.
pub fn parse_hex_program(text: &str) -> (program: Result<Vec<u16>, ProgramError>)
    ensures
        match program {
            Ok(words) => spec_parse_hex_program(text@) == Ok::<Seq<u16>, ProgramError>(words@),
            Err(error) => spec_parse_hex_program(text@) == Err::<Seq<u16>, ProgramError>(error),
        },
{
    let chars: Vec<char> = chars_of(text);
    let mut words: Vec<u16> = Vec::new();
    let mut i: usize = 0;
    loop
        invariant
            i <= chars@.len(),
            chars@ == text@,
            continued(words@, hex_words_from(chars@, i as int)) == hex_words_from(chars@, 0),
        ensures
            hex_words_from(chars@, 0) == Ok::<Seq<u16>, ProgramError>(words@),
        decreases chars@.len() - i,
    {
        let start: usize = skip_whitespace(chars.as_slice(), i);
        if start >= chars.len() {
            assert(words@ + Seq::<u16>::empty() =~= words@);
            break;
        }
        proof {
            lemma_scan_bounds(chars@, i as int);
            lemma_scan_bounds(chars@, start + 1);
        }
        let end: usize = token_end(chars.as_slice(), start + 1);
        let token: &[char] = vstd::slice::slice_subrange(chars.as_slice(), start, end);
        match parse_word(token, 16) {
            None => {
                return Err(ProgramError::InvalidWord { offset: start });
            },
            Some(word) => {
                proof {
                    let rest = hex_words_from(chars@, end as int);
                    if let Ok(more) = rest {
                        assert(words@.push(word) + more =~= words@ + (seq![word] + more));
                    }
                }
                words.push(word);
                i = end;
            },
        }
    }
    if words.len() <= RAM_LENGTH {
        Ok(words)
    } else {
        Err(ProgramError::TooLong)
    }
}

} // verus!
