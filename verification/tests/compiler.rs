use post_machine::command::{is_closed, Command};
use post_machine::compiler::{compile, compile_one, Fault};
use post_machine::error::Error;

fn program(lines: &[&str]) -> Vec<String> {
    lines.iter().map(|l| l.to_string()).collect()
}

#[test]
fn single_end_compiles() {
    assert_eq!(compile(&program(&["!"])), Ok(vec![Command::End]));
}

#[test]
fn every_keyword_compiles_to_its_instruction() {
    let lines = program(&["v 2", "x 3", "< 4", "> 5", "? 6 1", "!"]);
    assert_eq!(
        compile(&lines),
        Ok(vec![
            Command::MarkGoto(1),
            Command::UnmarkGoto(2),
            Command::LeftGoto(3),
            Command::RightGoto(4),
            Command::CheckOrGoto(5, 0),
            Command::End,
        ])
    );
}

#[test]
fn letter_keywords_ignore_case() {
    assert_eq!(compile_one("V 1", 1), Ok(Command::MarkGoto(0)));
    assert_eq!(compile_one("v 1", 1), Ok(Command::MarkGoto(0)));
    assert_eq!(compile_one("X 1", 1), Ok(Command::UnmarkGoto(0)));
    assert_eq!(compile_one("x 1", 1), Ok(Command::UnmarkGoto(0)));
}

#[test]
fn compiled_program_has_one_instruction_per_line_and_targets_inside() {
    let lines = program(&["> 2", "? 1 3", "v 3", "!"]);
    let commands = compile(&lines).unwrap();
    assert_eq!(commands.len(), lines.len());
    assert!(is_closed(&commands));
}

#[test]
fn compiling_twice_gives_the_same_result() {
    let lines = program(&["> 2", "? 1 3", "v 9", "!"]);
    assert_eq!(compile(&lines), compile(&lines));
    let good = program(&["> 2", "? 1 2"]);
    assert_eq!(compile(&good), compile(&good.clone()));
}

#[test]
fn end_with_trailing_character_is_invalid_format() {
    assert_eq!(compile(&program(&["!x"])), Err(Error::InvalidFormat(1)));
    assert_eq!(compile(&program(&["!", "! "])), Err(Error::InvalidFormat(2)));
    assert_eq!(compile_one("!!", 1), Err(Fault::InvalidFormat));
    assert_eq!(compile_one("! 1", 1), Err(Fault::InvalidFormat));
}

#[test]
fn branch_with_one_argument_is_invalid_format() {
    assert_eq!(compile(&program(&["? 1"])), Err(Error::InvalidFormat(1)));
}

#[test]
fn branch_with_three_arguments_is_invalid_format() {
    assert_eq!(compile(&program(&["? 1 2 3", "!", "!"])), Err(Error::InvalidFormat(1)));
}

#[test]
fn branch_without_arguments_is_invalid_format() {
    assert_eq!(compile_one("?", 3), Err(Fault::InvalidFormat));
    assert_eq!(compile_one("? ", 3), Err(Fault::InvalidFormat));
    assert_eq!(compile_one("?   \t ", 3), Err(Fault::InvalidFormat));
}

#[test]
fn branch_with_a_word_that_is_no_number_is_invalid_format() {
    assert_eq!(compile_one("? 1 a", 3), Err(Fault::InvalidFormat));
    assert_eq!(compile_one("? a 1", 3), Err(Fault::InvalidFormat));
    assert_eq!(compile_one("? 9 a", 3), Err(Fault::InvalidFormat));
    assert_eq!(compile_one("? -1 1", 3), Err(Fault::InvalidFormat));
}

#[test]
fn branch_takes_any_whitespace_between_its_arguments() {
    assert_eq!(compile_one("?  1\t 2  ", 2), Ok(Command::CheckOrGoto(0, 1)));
    assert_eq!(compile_one("?\u{3000}2\u{a0}1", 2), Ok(Command::CheckOrGoto(1, 0)));
}

#[test]
fn reference_past_the_last_line_is_invalid_line() {
    assert_eq!(compile(&program(&["v 2"])), Err(Error::InvalidLine(1)));
    assert_eq!(compile(&program(&["!", "> 3"])), Err(Error::InvalidLine(2)));
    assert_eq!(compile(&program(&["!", "? 1 3"])), Err(Error::InvalidLine(2)));
    assert_eq!(compile(&program(&["!", "? 3 1"])), Err(Error::InvalidLine(2)));
    assert_eq!(compile(&program(&["x 2", "!"])), Ok(vec![Command::UnmarkGoto(1), Command::End]));
}

#[test]
fn reference_to_line_zero_is_invalid_line() {
    assert_eq!(compile_one("v 0", 3), Err(Fault::InvalidLine));
    assert_eq!(compile_one("? 0 1", 3), Err(Fault::InvalidLine));
    assert_eq!(compile_one("? 1 0", 3), Err(Fault::InvalidLine));
}

#[test]
fn argument_that_is_no_number_is_invalid_format() {
    assert_eq!(compile_one("v", 3), Err(Fault::InvalidFormat));
    assert_eq!(compile_one("v ", 3), Err(Fault::InvalidFormat));
    assert_eq!(compile_one("v a", 3), Err(Fault::InvalidFormat));
    assert_eq!(compile_one("v 1 2", 3), Err(Fault::InvalidFormat));
    assert_eq!(compile_one("v -1", 3), Err(Fault::InvalidFormat));
    assert_eq!(compile_one("< 1_0", 30), Err(Fault::InvalidFormat));
    assert_eq!(compile_one("> +", 3), Err(Fault::InvalidFormat));
    assert_eq!(compile_one("> ++1", 3), Err(Fault::InvalidFormat));
}

#[test]
fn number_too_large_for_the_machine_is_invalid_format() {
    assert_eq!(compile_one("v 99999999999999999999999999", 3), Err(Fault::InvalidFormat));
    assert_eq!(compile_one("v 18446744073709551616", 3), Err(Fault::InvalidFormat));
}

#[test]
fn number_may_have_a_plus_sign_leading_zeros_and_spaces_around() {
    assert_eq!(compile_one("v +3", 3), Ok(Command::MarkGoto(2)));
    assert_eq!(compile_one("v 003", 3), Ok(Command::MarkGoto(2)));
    assert_eq!(compile_one("<   2  ", 3), Ok(Command::LeftGoto(1)));
    assert_eq!(compile_one(">\t1", 3), Ok(Command::RightGoto(0)));
}

#[test]
fn keyword_followed_at_once_by_another_character_is_undefined() {
    assert_eq!(
        compile(&program(&["v3", "!", "!"])),
        Err(Error::UndefinedCommand(1, "v3".to_string()))
    );
    assert_eq!(compile_one("?1 2", 3), Err(Fault::UndefinedCommand));
    assert_eq!(compile_one("<<", 3), Err(Fault::UndefinedCommand));
    assert_eq!(compile_one("x-", 3), Err(Fault::UndefinedCommand));
}

#[test]
fn unknown_first_character_is_undefined_with_the_text_of_the_line() {
    assert_eq!(
        compile(&program(&["!", "go 1"])),
        Err(Error::UndefinedCommand(2, "go 1".to_string()))
    );
    assert_eq!(compile(&program(&[""])), Err(Error::UndefinedCommand(1, String::new())));
    assert_eq!(compile_one(" v 1", 3), Err(Fault::UndefinedCommand));
    assert_eq!(compile_one("1", 3), Err(Fault::UndefinedCommand));
}

#[test]
fn first_error_is_reported() {
    let lines = program(&["!", "v 9", "!x", "zz"]);
    assert_eq!(compile(&lines), Err(Error::InvalidLine(2)));
    let lines = program(&["!", "!x", "v 9"]);
    assert_eq!(compile(&lines), Err(Error::InvalidFormat(2)));
}

#[test]
fn empty_program_compiles_to_nothing() {
    assert_eq!(compile(&program(&[])), Ok(vec![]));
}

#[test]
fn closed_program_test_finds_a_target_outside() {
    assert!(is_closed(&vec![Command::LeftGoto(1), Command::End]));
    assert!(!is_closed(&vec![Command::LeftGoto(2), Command::End]));
    assert!(!is_closed(&vec![Command::CheckOrGoto(0, 1)]));
    assert!(is_closed(&vec![]));
}
