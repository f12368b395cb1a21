//! The command language of the debug layer.
//!
//! A command is one line. Around it white space is ignored. The line is one
//! of the letters `c`, `r`, `d`, `q`, `s`; or `b` and an address; or `x`, the
//! name of a register and a value. Numbers are decimal.
//!
//! A byte for the input device is also one line: a hexadecimal number of up
//! to eight bits, with white space around it ignored.

use vstd::prelude::*;
use crate::computer::debugger::{DebugCommand, Register};
use crate::text::{
    chars_of, is_whitespace, lemma_scan_bounds, parse_word, skip_whitespace, spec_is_whitespace,
    spec_parse_word, spec_skip_whitespace, spec_token_end, token_end,
};

verus! {

/// Why a line is no command.
#[derive(Debug, Clone, Copy, PartialEq, Eq, Structural)]
pub enum CommandError {
    /// The line is a patch with a value, but names no register.
    UnknownRegister,
    /// The line is no command at all.
    Unrecognized,
}

/// Where the white space that ends at `to` begins: the position after the
/// last character before `to` that is no white space, or the start of the
/// text.
pub open spec fn spec_trim_end(text: Seq<char>, to: int) -> int
    decreases to,
{
    if 0 < to <= text.len() && spec_is_whitespace(text[to - 1]) {
        spec_trim_end(text, to - 1)
    } else {
        to
    }
}

/// The text without the white space at its start and at its end.
pub open spec fn spec_trim(text: Seq<char>) -> Seq<char> {
    let start = spec_skip_whitespace(text, 0);
    let end = spec_trim_end(text, text.len() as int);
    if start < end {
        text.subrange(start, end)
    } else {
        Seq::empty()
    }
}

/// The register that a name names. Names are in capital letters.
pub open spec fn register_named(name: Seq<char>) -> Option<Register> {
    if name == seq!['P', 'C'] {
        Some(Register::Pc)
    } else if name == seq!['A'] {
        Some(Register::A)
    } else if name == seq!['Z'] {
        Some(Register::Z)
    } else if name == seq!['S', 'R'] {
        Some(Register::Sr)
    } else if name == seq!['M', 'A', 'R'] {
        Some(Register::Mar)
    } else if name == seq!['M', 'B', 'R'] {
        Some(Register::Mbr)
    } else if name == seq!['I', 'R'] {
        Some(Register::Ir)
    } else if name == seq!['D', 'S', 'L'] {
        Some(Register::Dsl)
    } else if name == seq!['D', 'I', 'L'] {
        Some(Register::Dil)
    } else {
        None
    }
}

/// The one-letter command that a letter stands for.
pub open spec fn letter_command(letter: char) -> Option<DebugCommand> {
    if letter == 'c' {
        Some(DebugCommand::Continue)
    } else if letter == 'r' {
        Some(DebugCommand::ShowRegisters)
    } else if letter == 'd' {
        Some(DebugCommand::ShowMemory)
    } else if letter == 'q' {
        Some(DebugCommand::Quit)
    } else if letter == 's' {
        Some(DebugCommand::Step)
    } else {
        None
    }
}

/// The breakpoint command that follows a `b`: the address, in decimal, with
/// white space around it ignored.
pub open spec fn breakpoint_argument(rest: Seq<char>) -> Option<u16> {
    spec_parse_word(spec_trim(rest), 10)
}

/// The patch command that follows an `x`: exactly two tokens, the second a
/// decimal value, the first the name of a register.
pub open spec fn patch_arguments(rest: Seq<char>) -> Result<DebugCommand, CommandError> {
    let name_start = spec_skip_whitespace(rest, 0);
    let name_end = spec_token_end(rest, name_start);
    let value_start = spec_skip_whitespace(rest, name_end);
    let value_end = spec_token_end(rest, value_start);
    let end = spec_skip_whitespace(rest, value_end);
    if name_start < rest.len() && value_start < rest.len() && end >= rest.len() {
        match spec_parse_word(rest.subrange(value_start, value_end), 10) {
            None => Err(CommandError::Unrecognized),
            Some(value) => match register_named(rest.subrange(name_start, name_end)) {
                None => Err(CommandError::UnknownRegister),
                Some(register) => Ok(DebugCommand::Patch(register, value)),
            },
        }
    } else {
        Err(CommandError::Unrecognized)
    }
}

/// The command that a line without white space around it writes.
pub open spec fn command_of(command: Seq<char>) -> Result<DebugCommand, CommandError> {
    if command.len() == 1 && letter_command(command[0]) is Some {
        Ok(letter_command(command[0])->Some_0)
    } else if command.len() >= 1 && command[0] == 'b' && breakpoint_argument(
        command.drop_first(),
    ) is Some {
        Ok(DebugCommand::Breakpoint(breakpoint_argument(command.drop_first())->Some_0))
    } else if command.len() >= 1 && command[0] == 'x' {
        patch_arguments(command.drop_first())
    } else {
        Err(CommandError::Unrecognized)
    }
}

/// The command that a line writes.
pub open spec fn spec_parse_command(line: Seq<char>) -> Result<DebugCommand, CommandError> {
    command_of(spec_trim(line))
}

/// Finds where the white space at the end of the text begins.
pub fn trim_end(text: &[char]) -> (end: usize)
    ensures
        end == spec_trim_end(text@, text@.len() as int),
        end <= text@.len(),
{
    let mut i: usize = text.len();
    while i > 0 && is_whitespace(text[i - 1])
        invariant
            i <= text@.len(),
            spec_trim_end(text@, i as int) == spec_trim_end(text@, text@.len() as int),
        decreases i,
    {
        i -= 1;
    }
    i
}

/// The text without the white space at its start and at its end.
pub fn trim(text: &[char]) -> (trimmed: &[char])
    ensures
        trimmed@ == spec_trim(text@),
{
    let start: usize = skip_whitespace(text, 0);
    let end: usize = trim_end(text);
    if start < end {
        vstd::slice::slice_subrange(text, start, end)
    } else {
        vstd::slice::slice_subrange(text, 0, 0)
    }
}

/// Whether two texts hold the same characters.
fn same_text(left: &[char], right: &[char]) -> (same: bool)
    ensures
        same == (left@ == right@),
{
    if left.len() != right.len() {
        return false;
    }
    let mut i: usize = 0;
    while i < left.len()
        invariant
            i <= left@.len(),
            left@.len() == right@.len(),
            forall|k: int| 0 <= k < i ==> left@[k] == right@[k],
        decreases left@.len() - i,
    {
        if left[i] != right[i] {
            return false;
        }
        i += 1;
    }
    assert(left@ =~= right@);
    true
}

/// Finds the register that a name names.
pub fn find_register(name: &[char]) -> (register: Option<Register>)
    ensures
        register == register_named(name@),
{
    let pc: [char; 2] = ['P', 'C'];
    let a: [char; 1] = ['A'];
    let z: [char; 1] = ['Z'];
    let sr: [char; 2] = ['S', 'R'];
    let mar: [char; 3] = ['M', 'A', 'R'];
    let mbr: [char; 3] = ['M', 'B', 'R'];
    let ir: [char; 2] = ['I', 'R'];
    let dsl: [char; 3] = ['D', 'S', 'L'];
    let dil: [char; 3] = ['D', 'I', 'L'];
    proof {
        assert(pc@ =~= seq!['P', 'C']);
        assert(a@ =~= seq!['A']);
        assert(z@ =~= seq!['Z']);
        assert(sr@ =~= seq!['S', 'R']);
        assert(mar@ =~= seq!['M', 'A', 'R']);
        assert(mbr@ =~= seq!['M', 'B', 'R']);
        assert(ir@ =~= seq!['I', 'R']);
        assert(dsl@ =~= seq!['D', 'S', 'L']);
        assert(dil@ =~= seq!['D', 'I', 'L']);
    }
    if same_text(name, pc.as_slice()) {
        Some(Register::Pc)
    } else if same_text(name, a.as_slice()) {
        Some(Register::A)
    } else if same_text(name, z.as_slice()) {
        Some(Register::Z)
    } else if same_text(name, sr.as_slice()) {
        Some(Register::Sr)
    } else if same_text(name, mar.as_slice()) {
        Some(Register::Mar)
    } else if same_text(name, mbr.as_slice()) {
        Some(Register::Mbr)
    } else if same_text(name, ir.as_slice()) {
        Some(Register::Ir)
    } else if same_text(name, dsl.as_slice()) {
        Some(Register::Dsl)
    } else if same_text(name, dil.as_slice()) {
        Some(Register::Dil)
    } else {
        None
    }
}

/// Reads the arguments of a patch command.
fn parse_patch(rest: &[char]) -> (command: Result<DebugCommand, CommandError>)
    ensures
        command == patch_arguments(rest@),
{
    let name_start: usize = skip_whitespace(rest, 0);
    let name_end: usize = token_end(rest, name_start);
    let value_start: usize = skip_whitespace(rest, name_end);
    let value_end: usize = token_end(rest, value_start);
    let end: usize = skip_whitespace(rest, value_end);
    if name_start < rest.len() && value_start < rest.len() && end >= rest.len() {
        let value_text: &[char] = vstd::slice::slice_subrange(rest, value_start, value_end);
        match parse_word(value_text, 10) {
            None => Err(CommandError::Unrecognized),
            Some(value) => {
                let name: &[char] = vstd::slice::slice_subrange(rest, name_start, name_end);
                match find_register(name) {
                    None => Err(CommandError::UnknownRegister),
                    Some(register) => Ok(DebugCommand::Patch(register, value)),
                }
            },
        }
    } else {
        Err(CommandError::Unrecognized)
    }
}

/// Reads a command of the debug layer from a line.
///
/// Succeeds if and only if the line, without the white space around it, is a
/// command. A patch whose value is a number but whose register is unknown is
/// reported as such; every other line is unrecognized.
pub fn parse_command(line: &str) -> (command: Result<DebugCommand, CommandError>)
    ensures
        command == spec_parse_command(line@),
{
    let chars: Vec<char> = chars_of(line);
    let command: &[char] = trim(chars.as_slice());
    if command.len() == 1 {
        let letter: char = command[0];
        if letter == 'c' {
            return Ok(DebugCommand::Continue);
        } else if letter == 'r' {
            return Ok(DebugCommand::ShowRegisters);
        } else if letter == 'd' {
            return Ok(DebugCommand::ShowMemory);
        } else if letter == 'q' {
            return Ok(DebugCommand::Quit);
        } else if letter == 's' {
            return Ok(DebugCommand::Step);
        }
    }
    if command.len() >= 1 && command[0] == 'b' {
        let rest: &[char] = vstd::slice::slice_subrange(command, 1, command.len());
        assert(rest@ =~= command@.drop_first());
        match parse_word(trim(rest), 10) {
            Some(address) => {
                return Ok(DebugCommand::Breakpoint(address));
            },
            None => {},
        }
    }
    if command.len() >= 1 && command[0] == 'x' {
        let rest: &[char] = vstd::slice::slice_subrange(command, 1, command.len());
        assert(rest@ =~= command@.drop_first());
        return parse_patch(rest);
    }
    Err(CommandError::Unrecognized)
}

/// The byte that a line writes for the input device.
pub open spec fn spec_parse_input_byte(line: Seq<char>) -> Option<u8> {
    match spec_parse_word(spec_trim(line), 16) {
        Some(word) => if word <= 0xFF {
            Some(word as u8)
        } else {
            None
        },
        None => None,
    }
}

/// Reads a byte for the input device from a line: a hexadecimal number up to
/// 0xFF, with white space around it ignored. Any other line holds no byte.
pub fn parse_input_byte(line: &str) -> (byte: Option<u8>)
    ensures
        byte == spec_parse_input_byte(line@),
{
    let chars: Vec<char> = chars_of(line);
    match parse_word(trim(chars.as_slice()), 16) {
        Some(word) => if word <= 0xFF {
            Some(word as u8)
        } else {
            None
        },
        None => None,
    }
}

} // verus!
