use wrangler_core::confirm::{confirm, confirmation_prompt, read_answer};
use wrangler_core::error::InputError;

#[test]
fn yes_in_any_case_and_spacing_confirms() {
    assert_eq!(confirm(" YES \n"), Ok(true));
    assert_eq!(confirm("y"), Ok(true));
    assert_eq!(confirm("Y\n"), Ok(true));
    assert_eq!(confirm("yes"), Ok(true));
    assert_eq!(confirm("Yes\r\n"), Ok(true));
    assert_eq!(confirm("\t y e s"), Ok(true));
}

#[test]
fn no_in_any_case_declines() {
    assert_eq!(confirm("NO"), Ok(false));
    assert_eq!(confirm("n"), Ok(false));
    assert_eq!(confirm("No\n"), Ok(false));
    assert_eq!(confirm("  nope"), Ok(false));
}

#[test]
fn other_answers_are_errors() {
    assert_eq!(confirm("maybe"), Err(InputError));
    assert_eq!(confirm(""), Err(InputError));
    assert_eq!(confirm("\n"), Err(InputError));
    assert_eq!(confirm("   \t "), Err(InputError));
    assert_eq!(confirm("1"), Err(InputError));
    assert_eq!(confirm("ok yes"), Err(InputError));
}

#[test]
fn only_the_first_character_counts() {
    assert_eq!(confirm("yup"), Ok(true));
    assert_eq!(confirm("yn"), Ok(true));
    assert_eq!(confirm("ny"), Ok(false));
    assert_eq!(confirm("never mind, yes"), Ok(false));
}

#[test]
fn non_ascii_answers_are_errors() {
    assert_eq!(confirm("\u{e9}"), Err(InputError));
    assert_eq!(confirm("\u{e9}y"), Err(InputError));
    assert_eq!(confirm("\u{ff59}"), Err(InputError));
}

#[test]
fn unicode_whitespace_is_ignored() {
    assert_eq!(confirm("\u{a0}y"), Ok(true));
    assert_eq!(confirm("\u{3000}\u{2003}N"), Ok(false));
    assert_eq!(confirm("\u{2028}"), Err(InputError));
}

#[test]
fn read_answer_goes_by_the_character() {
    assert_eq!(read_answer(Some('y')), Ok(true));
    assert_eq!(read_answer(Some('Y')), Ok(true));
    assert_eq!(read_answer(Some('n')), Ok(false));
    assert_eq!(read_answer(Some('N')), Ok(false));
    assert_eq!(read_answer(Some('m')), Err(InputError));
    assert_eq!(read_answer(Some(' ')), Err(InputError));
    assert_eq!(read_answer(None), Err(InputError));
}

#[test]
fn prompt_names_both_answers() {
    assert_eq!(confirmation_prompt("Are you sure you want to delete key \"a\"?"),
        "Are you sure you want to delete key \"a\"? [y/n]");
    assert_eq!(confirmation_prompt(""), " [y/n]");
}

#[test]
fn input_error_says_what_is_accepted() {
    assert_eq!(InputError.message(), "Response must either be \"y\" for yes or \"n\" for no");
}

fn has_white_space(c: char) -> bool {
    matches!(
        c as u32,
        0x09..=0x0D | 0x20 | 0x85 | 0xA0 | 0x1680 | 0x2000..=0x200A | 0x2028 | 0x2029 | 0x202F | 0x205F | 0x3000
    )
}

#[test]
fn exactly_the_white_space_characters_are_ignored() {
    for code in 0u32..=0x10FFFF {
        if let Some(c) = char::from_u32(code) {
            let answer = format!("{}y", c);
            let expected = if has_white_space(c) { Ok(true) } else { read_answer(Some(c)) };
            assert_eq!(confirm(&answer), expected, "U+{:04X}", code);
        }
    }
}

#[test]
fn neighbours_of_white_space_are_not_ignored() {
    for c in ['\u{8}', '\u{e}', '\u{1f}', '\u{84}', '\u{86}', '\u{180e}', '\u{200b}', '\u{2060}', '\u{feff}'] {
        assert_eq!(confirm(&format!("{}y", c)), Err(InputError), "U+{:04X}", c as u32);
    }
}
