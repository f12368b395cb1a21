use blue_computer::command::{
    find_register, parse_command, parse_input_byte, trim, CommandError,
};
use blue_computer::program::{parse_hex_program, ProgramError};
use blue_computer::text::{
    chars_of, digit_value, is_whitespace, parse_word, skip_whitespace, token_end,
};
use blue_computer::{DebugCommand, Register};

fn chars(text: &str) -> Vec<char> {
    text.chars().collect()
}

#[test]
fn white_space_is_what_the_standard_library_calls_so() {
    for code in 0u32..0x3100 {
        if let Some(c) = char::from_u32(code) {
            assert_eq!(is_whitespace(c), c.is_whitespace(), "U+{:04X}", code);
        }
    }
    assert!(!is_whitespace('\u{FEFF}'));
    assert!(!is_whitespace('\u{10FFFF}'));
}

#[test]
fn digits_have_their_values() {
    assert_eq!(digit_value('0', 16), Some(0));
    assert_eq!(digit_value('9', 16), Some(9));
    assert_eq!(digit_value('a', 16), Some(10));
    assert_eq!(digit_value('F', 16), Some(15));
    assert_eq!(digit_value('g', 16), None);
    assert_eq!(digit_value('a', 10), None);
    assert_eq!(digit_value('9', 10), Some(9));
    assert_eq!(digit_value(' ', 16), None);
}

#[test]
fn words_parse_as_the_standard_library_parses_them() {
    for text in [
        "0", "1", "ffff", "FFFF", "10000", "+1f", "+", "", "-1", "0000000012", "12g", "g", "6010",
        "65535", "65536", "+0", "++1", "1 ", " 1", "aBcD", "1_0",
    ] {
        assert_eq!(parse_word(&chars(text), 16), u16::from_str_radix(text, 16).ok(), "{text:?}");
        assert_eq!(parse_word(&chars(text), 10), text.parse::<u16>().ok(), "{text:?}");
    }
}

#[test]
fn scans_find_the_ends_of_space_and_tokens() {
    let text = chars("  ab\tc ");
    assert_eq!(skip_whitespace(&text, 0), 2);
    assert_eq!(skip_whitespace(&text, 2), 2);
    assert_eq!(token_end(&text, 2), 4);
    assert_eq!(skip_whitespace(&text, 4), 5);
    assert_eq!(token_end(&text, 5), 6);
    assert_eq!(skip_whitespace(&text, 6), 7);
    assert_eq!(token_end(&text, 7), 7);
    assert_eq!(chars_of("a\u{00A0}b"), vec!['a', '\u{00A0}', 'b']);
}

#[test]
fn hex_program_is_read_token_by_token() {
    assert_eq!(parse_hex_program("6010 1011 0000"), Ok(vec![0x6010, 0x1011, 0x0000]));
    assert_eq!(parse_hex_program("  6010\n1011\t\r\n0\n"), Ok(vec![0x6010, 0x1011, 0]));
    assert_eq!(parse_hex_program("ffff\u{00A0}+A"), Ok(vec![0xFFFF, 0x000A]));
    assert_eq!(parse_hex_program(""), Ok(vec![]));
    assert_eq!(parse_hex_program(" \n "), Ok(vec![]));
}

#[test]
fn hex_program_reports_the_first_bad_token() {
    assert_eq!(parse_hex_program("6010 10x1 zz"), Err(ProgramError::InvalidWord { offset: 5 }));
    assert_eq!(parse_hex_program("10000"), Err(ProgramError::InvalidWord { offset: 0 }));
    assert_eq!(parse_hex_program("\u{00A0}1 -1"), Err(ProgramError::InvalidWord { offset: 3 }));
    assert_eq!(parse_hex_program("1 +"), Err(ProgramError::InvalidWord { offset: 2 }));
}

#[test]
fn hex_program_must_fit_the_memory() {
    let full = "f000 ".repeat(4096);
    assert_eq!(parse_hex_program(&full).map(|words| words.len()), Ok(4096));
    let longer = "f000 ".repeat(4097);
    assert_eq!(parse_hex_program(&longer), Err(ProgramError::TooLong));
    let bad = format!("{longer} x");
    assert_eq!(parse_hex_program(&bad), Err(ProgramError::InvalidWord { offset: 5 * 4097 + 1 }));
}

#[test]
fn trim_removes_the_space_around_a_text() {
    assert_eq!(trim(&chars("  b 12 \n")), &chars("b 12")[..]);
    assert_eq!(trim(&chars("c")), &chars("c")[..]);
    assert_eq!(trim(&chars(" \t ")), &chars("")[..]);
    assert_eq!(trim(&chars("")), &chars("")[..]);
}

#[test]
fn registers_are_found_by_name() {
    assert_eq!(find_register(&chars("PC")), Some(Register::Pc));
    assert_eq!(find_register(&chars("A")), Some(Register::A));
    assert_eq!(find_register(&chars("Z")), Some(Register::Z));
    assert_eq!(find_register(&chars("SR")), Some(Register::Sr));
    assert_eq!(find_register(&chars("MAR")), Some(Register::Mar));
    assert_eq!(find_register(&chars("MBR")), Some(Register::Mbr));
    assert_eq!(find_register(&chars("IR")), Some(Register::Ir));
    assert_eq!(find_register(&chars("DSL")), Some(Register::Dsl));
    assert_eq!(find_register(&chars("DIL")), Some(Register::Dil));
    assert_eq!(find_register(&chars("DOL")), None);
    assert_eq!(find_register(&chars("pc")), None);
    assert_eq!(find_register(&chars("")), None);
    assert_eq!(find_register(&chars("PCX")), None);
}

#[test]
fn letter_commands_are_recognized() {
    assert_eq!(parse_command("c"), Ok(DebugCommand::Continue));
    assert_eq!(parse_command("r\n"), Ok(DebugCommand::ShowRegisters));
    assert_eq!(parse_command("  d  "), Ok(DebugCommand::ShowMemory));
    assert_eq!(parse_command("q\r\n"), Ok(DebugCommand::Quit));
    assert_eq!(parse_command("s"), Ok(DebugCommand::Step));
}

#[test]
fn breakpoint_command_takes_a_decimal_address() {
    assert_eq!(parse_command("b 12"), Ok(DebugCommand::Breakpoint(12)));
    assert_eq!(parse_command("b12\n"), Ok(DebugCommand::Breakpoint(12)));
    assert_eq!(parse_command("b   +7  "), Ok(DebugCommand::Breakpoint(7)));
    assert_eq!(parse_command("b 65535"), Ok(DebugCommand::Breakpoint(65535)));
    assert_eq!(parse_command("b 65536"), Err(CommandError::Unrecognized));
    assert_eq!(parse_command("b ff"), Err(CommandError::Unrecognized));
    assert_eq!(parse_command("b"), Err(CommandError::Unrecognized));
    assert_eq!(parse_command("b 1 2"), Err(CommandError::Unrecognized));
}

#[test]
fn patch_command_takes_a_register_and_a_value() {
    assert_eq!(parse_command("x PC 12"), Ok(DebugCommand::Patch(Register::Pc, 12)));
    assert_eq!(parse_command("x  A\t65535 \n"), Ok(DebugCommand::Patch(Register::A, 65535)));
    assert_eq!(parse_command("xDIL 3"), Ok(DebugCommand::Patch(Register::Dil, 3)));
    assert_eq!(parse_command("x MBR +9"), Ok(DebugCommand::Patch(Register::Mbr, 9)));
}

#[test]
fn patch_command_reports_an_unknown_register() {
    assert_eq!(parse_command("x DOL 12"), Err(CommandError::UnknownRegister));
    assert_eq!(parse_command("x pc 12"), Err(CommandError::UnknownRegister));
}

#[test]
fn lines_that_are_no_command_are_unrecognized() {
    assert_eq!(parse_command(""), Err(CommandError::Unrecognized));
    assert_eq!(parse_command("   "), Err(CommandError::Unrecognized));
    assert_eq!(parse_command("cc"), Err(CommandError::Unrecognized));
    assert_eq!(parse_command("c r"), Err(CommandError::Unrecognized));
    assert_eq!(parse_command("help"), Err(CommandError::Unrecognized));
    assert_eq!(parse_command("x"), Err(CommandError::Unrecognized));
    assert_eq!(parse_command("x PC"), Err(CommandError::Unrecognized));
    assert_eq!(parse_command("x PC 1 2"), Err(CommandError::Unrecognized));
    assert_eq!(parse_command("x PC ff"), Err(CommandError::Unrecognized));
    assert_eq!(parse_command("x DOL ff"), Err(CommandError::Unrecognized));
    assert_eq!(parse_command("x PC 65536"), Err(CommandError::Unrecognized));
}

#[test]
fn input_byte_is_read_in_hexadecimal() {
    for line in ["aa\n", " 0 ", "FF", "100", "+7", "", "zz", "1 2", "00012", "-1"] {
        assert_eq!(parse_input_byte(line), u8::from_str_radix(line.trim(), 16).ok(), "{line:?}");
    }
    assert_eq!(parse_input_byte("aa\n"), Some(0xAA));
    assert_eq!(parse_input_byte("100"), None);
}
