use post_machine::command::Command;
use post_machine::error::Error;
use post_machine::machine::PostMachine;
use post_machine::message::Message;
use post_machine::session::{read_delay, read_request, trimmed, Action, Request};

fn machine_with(lines: &[&str]) -> PostMachine {
    let mut m = PostMachine::new();
    for l in lines {
        m.insert_command(l);
    }
    m
}

#[test]
fn new_machine_is_empty() {
    let m = PostMachine::new();
    assert_eq!(m.tape.position(), 0);
    assert_eq!(m.tape.read(0), 0);
    assert_eq!(m.tape.read_saved(0), 0);
    assert!(m.buffer.cmds.is_empty());
    assert_eq!(m.buffer.cur, 0);
    assert_eq!(m.prev_error, None);
    assert_eq!(m.message, Some(Message::Help));
    assert_eq!(m.speedms, 300);
}

#[test]
fn insert_command_adds_a_last_line() {
    let mut m = PostMachine::new();
    m.insert_command("v 1");
    m.insert_command("!");
    assert_eq!(m.buffer.cmds, vec!["v 1".to_string(), "!".to_string()]);
}

#[test]
fn edit_command_replaces_a_line() {
    let mut m = machine_with(&["v 1", "!", "x 1"]);
    m.edit_command("> 3", 2);
    assert_eq!(m.buffer.cmds, vec!["v 1".to_string(), "> 3".to_string(), "x 1".to_string()]);
    m.edit_command("!", 3);
    m.edit_command("?", 1);
    assert_eq!(m.buffer.cmds, vec!["?".to_string(), "> 3".to_string(), "!".to_string()]);
}

#[test]
fn compile_code_compiles_the_buffer() {
    let m = machine_with(&["> 2", "!"]);
    assert_eq!(m.compile_code(), Ok(vec![Command::RightGoto(1), Command::End]));
    let m = machine_with(&["> 2", "!x"]);
    assert_eq!(m.compile_code(), Err(Error::InvalidFormat(2)));
    assert_eq!(m.buffer.cmds, vec!["> 2".to_string(), "!x".to_string()]);
}

#[test]
fn requests_are_read_from_lines() {
    assert_eq!(read_request("", 3), Request::Nothing);
    assert_eq!(read_request("  \n", 3), Request::Nothing);
    assert_eq!(read_request("/1", 3), Request::Edit(1));
    assert_eq!(read_request("/3\n", 3), Request::Edit(3));
    assert_eq!(read_request("/+2", 3), Request::Edit(2));
    assert_eq!(read_request("/0", 3), Request::NoSuchLine);
    assert_eq!(read_request("/4", 3), Request::NoSuchLine);
    assert_eq!(read_request("/1", 0), Request::NoSuchLine);
    assert_eq!(read_request("/r", 3), Request::ClearTape);
    assert_eq!(read_request(" /rr ", 3), Request::ClearAll);
    assert_eq!(read_request("/s", 3), Request::Start);
    assert_eq!(read_request("/sp", 3), Request::Speed);
    assert_eq!(read_request("/help", 3), Request::Help);
    assert_eq!(read_request("/q", 3), Request::Quit);
    assert_eq!(read_request("/d", 3), Request::DropLast);
    assert_eq!(read_request("/", 3), Request::Unknown);
    assert_eq!(read_request("/x", 3), Request::Unknown);
    assert_eq!(read_request("/R", 3), Request::Unknown);
    assert_eq!(read_request("/r r", 3), Request::Unknown);
    assert_eq!(read_request("/helps", 3), Request::Unknown);
    assert_eq!(read_request("/-1", 3), Request::Unknown);
    assert_eq!(read_request("/99999999999999999999999", 3), Request::Unknown);
    assert_eq!(read_request("5", 3), Request::Toggle(5));
    assert_eq!(read_request("-5\n", 3), Request::Toggle(-5));
    assert_eq!(read_request("+0", 3), Request::Toggle(0));
    assert_eq!(read_request("-9223372036854775808", 3), Request::Toggle(i64::MIN));
    assert_eq!(read_request("9223372036854775808", 3), Request::Insert);
    assert_eq!(read_request("v 1", 3), Request::Insert);
    assert_eq!(read_request("!", 3), Request::Insert);
    assert_eq!(read_request("1 2", 3), Request::Insert);
}

#[test]
fn trimmed_takes_the_whitespace_away() {
    assert_eq!(trimmed("  v 1 \n"), "v 1");
    assert_eq!(trimmed("\u{3000}мс\t"), "мс");
    assert_eq!(trimmed(" \n"), "");
    assert_eq!(trimmed("!"), "!");
}

#[test]
fn empty_input_takes_the_notice_away_and_keeps_the_error() {
    let mut m = PostMachine::new();
    m.prev_error = Some(Error::InvalidUserLine);
    assert_eq!(m.handle_input("\n"), Action::Prompt);
    assert_eq!(m.message, None);
    assert_eq!(m.prev_error, Some(Error::InvalidUserLine));
}

#[test]
fn a_line_is_added_to_the_program() {
    let mut m = PostMachine::new();
    m.prev_error = Some(Error::InvalidUserLine);
    assert_eq!(m.handle_input("  v 1 \n"), Action::Prompt);
    assert_eq!(m.handle_input("!x\n"), Action::Prompt);
    assert_eq!(m.buffer.cmds, vec!["v 1".to_string(), "!x".to_string()]);
    assert_eq!(m.message, None);
    assert_eq!(m.prev_error, None);
}

#[test]
fn an_integer_toggles_the_mark_on_both_tapes() {
    let mut m = PostMachine::new();
    assert_eq!(m.handle_input("3\n"), Action::Prompt);
    assert_eq!(m.handle_input("-2\n"), Action::Prompt);
    assert_eq!(m.tape.read(3), 1);
    assert_eq!(m.tape.read_saved(3), 1);
    assert_eq!(m.tape.read(-2), 1);
    assert_eq!(m.tape.read_saved(-2), 1);
    assert_eq!(m.handle_input("3\n"), Action::Prompt);
    assert_eq!(m.tape.read(3), 0);
    assert_eq!(m.tape.read_saved(3), 0);
    assert_eq!(m.tape.read(-2), 1);
    assert!(m.buffer.cmds.is_empty());
    assert_eq!(m.message, None);
}

#[test]
fn clear_tape_keeps_the_program() {
    let mut m = machine_with(&["!"]);
    m.handle_input("1");
    assert_eq!(m.handle_input("/r"), Action::Prompt);
    assert_eq!(m.tape.read(1), 0);
    assert_eq!(m.tape.read_saved(1), 0);
    assert_eq!(m.buffer.cmds, vec!["!".to_string()]);
    assert_eq!(m.message, Some(Message::TapeCleared));
    assert_eq!(m.prev_error, None);
}

#[test]
fn clear_all_drops_the_program_too() {
    let mut m = machine_with(&["!", "v 1"]);
    m.handle_input("1");
    assert_eq!(m.handle_input("/rr"), Action::Prompt);
    assert_eq!(m.tape.read(1), 0);
    assert_eq!(m.tape.read_saved(1), 0);
    assert!(m.buffer.cmds.is_empty());
    assert_eq!(m.message, Some(Message::AllCleared));
}

#[test]
fn start_with_an_empty_program_is_an_error() {
    let mut m = PostMachine::new();
    assert_eq!(m.handle_input("/s"), Action::Prompt);
    assert_eq!(m.prev_error, Some(Error::EmptyBufer));
    assert_eq!(m.message, None);
}

#[test]
fn start_with_a_bad_program_reports_the_compile_error() {
    let mut m = machine_with(&["!", "zz"]);
    assert_eq!(m.handle_input("/s"), Action::Prompt);
    assert_eq!(m.prev_error, Some(Error::UndefinedCommand(2, "zz".to_string())));
    assert_eq!(m.message, None);
}

#[test]
fn start_hands_out_the_compiled_program() {
    let mut m = machine_with(&["> 2", "!"]);
    m.prev_error = Some(Error::WrongSpeed);
    assert_eq!(m.handle_input("/s"), Action::Run(vec![Command::RightGoto(1), Command::End]));
    assert_eq!(m.prev_error, None);
    assert_eq!(m.message, None);
}

#[test]
fn finish_run_puts_the_set_up_back() {
    let mut m = machine_with(&["> 2", "v 3", "!"]);
    m.handle_input("7");
    let commands = match m.handle_input("/s") {
        Action::Run(commands) => commands,
        other => panic!("{:?}", other),
    };
    assert_eq!(m.execute(&commands, None, 2), None);
    assert_eq!(m.tape.read(1), 1);
    assert_eq!(m.tape.read(7), 1);
    m.step(&commands, false);
    m.finish_run();
    assert_eq!(m.tape.read(1), 0);
    assert_eq!(m.tape.read(7), 1);
    assert_eq!(m.tape.read_saved(7), 1);
    assert_eq!(m.tape.position(), 0);
    assert_eq!(m.buffer.cur, 0);
    assert_eq!(m.message, None);
    assert_eq!(m.prev_error, None);
}

#[test]
fn drop_last_deletes_the_last_line() {
    let mut m = machine_with(&["!", "v 1"]);
    assert_eq!(m.handle_input("/d"), Action::Prompt);
    assert_eq!(m.buffer.cmds, vec!["!".to_string()]);
    m.handle_input("/d");
    m.handle_input("/d");
    assert!(m.buffer.cmds.is_empty());
    assert_eq!(m.prev_error, None);
}

#[test]
fn unknown_command_is_an_error_and_keeps_the_notice() {
    let mut m = PostMachine::new();
    assert_eq!(m.handle_input("/what"), Action::Prompt);
    assert_eq!(m.prev_error, Some(Error::UndefinedUserCommand));
    assert_eq!(m.message, Some(Message::Help));
}

#[test]
fn edit_of_a_line_that_is_there_is_handed_out() {
    let mut m = machine_with(&["!", "v 1"]);
    m.prev_error = Some(Error::WrongSpeed);
    assert_eq!(m.handle_input("/2"), Action::Edit(2));
    assert_eq!(m.prev_error, None);
    assert_eq!(m.message, Some(Message::Help));
    assert_eq!(m.handle_input("/3"), Action::Prompt);
    assert_eq!(m.prev_error, Some(Error::InvalidUserLine));
    assert_eq!(m.handle_input("/0"), Action::Prompt);
    assert_eq!(m.prev_error, Some(Error::InvalidUserLine));
}

#[test]
fn speed_help_and_quit_are_handed_out() {
    let mut m = PostMachine::new();
    assert_eq!(m.handle_input("/sp"), Action::AskSpeed);
    assert_eq!(m.message, None);
    let mut m = PostMachine::new();
    assert_eq!(m.handle_input("/help"), Action::ShowHelp);
    assert_eq!(m.message, None);
    let mut m = PostMachine::new();
    assert_eq!(m.handle_input("/q"), Action::Quit);
    assert_eq!(m.message, Some(Message::Help));
}

#[test]
fn coding_edit_replaces_the_line() {
    let mut m = machine_with(&["!", "v 1"]);
    assert_eq!(m.coding_edit(2, " x 1 \n"), Ok(()));
    assert_eq!(m.buffer.cmds, vec!["!".to_string(), "x 1".to_string()]);
    assert_eq!(m.message, None);
    assert_eq!(m.prev_error, None);
}

#[test]
fn coding_edit_with_an_empty_answer_changes_no_line() {
    let mut m = machine_with(&["!", "v 1"]);
    assert_eq!(m.coding_edit(1, "\n"), Ok(()));
    assert_eq!(m.buffer.cmds, vec!["!".to_string(), "v 1".to_string()]);
    assert_eq!(m.message, None);
}

#[test]
fn coding_edit_refuses_a_command() {
    let mut m = machine_with(&["!", "v 1"]);
    assert_eq!(m.coding_edit(1, "/r\n"), Err(Error::CommandInEditMode));
    assert_eq!(m.buffer.cmds, vec!["!".to_string(), "v 1".to_string()]);
    assert_eq!(m.prev_error, Some(Error::CommandInEditMode));
    assert_eq!(m.message, Some(Message::Help));
}

#[test]
fn pacing_accepts_a_positive_number() {
    let mut m = PostMachine::new();
    assert_eq!(m.set_speed("250"), Ok(()));
    assert_eq!(m.speedms, 250);
    assert_eq!(m.set_speed(" 15\n"), Ok(()));
    assert_eq!(m.speedms, 15);
    assert_eq!(read_delay("250"), Some(250));
    assert_eq!(read_delay("18446744073709551615"), Some(u64::MAX));
}

#[test]
fn pacing_rejects_what_is_no_positive_number() {
    let mut m = PostMachine::new();
    assert_eq!(m.set_speed("250"), Ok(()));
    for bad in ["-5", "abc", "0", "", "  ", "1.5", "18446744073709551616", "2 5"] {
        assert_eq!(m.set_speed(bad), Err(Error::WrongSpeed), "{:?}", bad);
        assert_eq!(m.speedms, 250);
        assert_eq!(read_delay(bad), None);
    }
}

#[test]
fn new_sp_sets_the_delay_with_a_notice() {
    let mut m = PostMachine::new();
    m.handle_input("/sp");
    assert_eq!(m.new_sp("250\n"), Ok(()));
    assert_eq!(m.speedms, 250);
    assert_eq!(m.message, Some(Message::NewSpeed(250)));
    assert_eq!(m.prev_error, None);
}

#[test]
fn new_sp_with_an_empty_answer_changes_nothing() {
    let mut m = PostMachine::new();
    assert_eq!(m.new_sp("\n"), Ok(()));
    assert_eq!(m.speedms, 300);
    assert_eq!(m.message, Some(Message::Help));
    assert_eq!(m.prev_error, None);
}

#[test]
fn new_sp_rejects_what_is_no_delay() {
    let mut m = PostMachine::new();
    m.handle_input("/sp");
    for bad in ["-5\n", "abc\n", "0\n"] {
        assert_eq!(m.new_sp(bad), Err(Error::WrongSpeed));
        assert_eq!(m.speedms, 300);
        assert_eq!(m.prev_error, Some(Error::WrongSpeed));
        assert_eq!(m.message, None);
    }
}
