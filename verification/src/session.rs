//! The interactive session: what the machine does with a line of input.
//!
//! The machine reads nothing itself. Whoever drives it shows the screen,
//! reads a line, hands it to [`PostMachine::handle_input`] and does what
//! the [`Action`] that comes back asks for.
//!
//! | input            | meaning                                         |
//! |------------------|-------------------------------------------------|
//! | nothing          | take the notice away                            |
//! | `/n`             | edit the line with the number `n`               |
//! | `/r`             | clear the tape                                  |
//! | `/rr`            | clear the tape and the program                  |
//! | `/s`             | compile the program and run it                  |
//! | `/sp`            | set the pacing delay                            |
//! | `/help`          | show the help text                              |
//! | `/q`             | leave                                           |
//! | `/d`             | delete the last line of the program             |
//! | an integer       | toggle the mark at that position of the tape    |
//! | anything else    | a new last line of the program                  |

use vstd::prelude::*;
use vstd::string::StrSliceExecFns;
use crate::command::{closed, Command};
use crate::compiler::{compile_program, line_number};
use crate::error::{Error, ErrorView};
use crate::machine::PostMachine;
use crate::message::Message;
use crate::tape::{set_up, toggled};
use crate::text::{
    at_most, chars_of, parse_signed, parse_unsigned, signed_number, trim, trim_bounds,
    unsigned_number, within,
};

verus! {

/// What a line of input asks for.
#[derive(Clone, Copy, Debug, PartialEq, Eq, Structural)]
pub enum Request {
    /// Nothing: the line is empty.
    Nothing,
    /// To edit the line with this number, which the program has.
    Edit(usize),
    /// To edit a line that the program does not have.
    NoSuchLine,
    /// To clear the tape.
    ClearTape,
    /// To clear the tape and the program.
    ClearAll,
    /// To compile the program and run it.
    Start,
    /// To set the pacing delay.
    Speed,
    /// To show the help text.
    Help,
    /// To leave.
    Quit,
    /// To delete the last line of the program.
    DropLast,
    /// Something after `/` that is no command.
    Unknown,
    /// To toggle the mark at this position of the tape.
    Toggle(i64),
    /// To add the line to the program.
    Insert,
}

/// What the one who drives the machine is to do next.
#[derive(Clone, Debug, PartialEq, Eq)]
pub enum Action {
    /// Show the screen and read the next line of input.
    Prompt,
    /// Ask for the new text of the line with this number and hand it to
    /// [`PostMachine::coding_edit`].
    Edit(usize),
    /// Run this program, then call [`PostMachine::finish_run`].
    Run(Vec<Command>),
    /// Ask for the pacing delay and hand it to [`PostMachine::new_sp`].
    AskSpeed,
    /// Show the help text.
    ShowHelp,
    /// Leave.
    Quit,
}

/// The mathematical value of an [`Action`].
pub enum ActionView {
    Prompt,
    Edit(usize),
    Run(Seq<Command>),
    AskSpeed,
    ShowHelp,
    Quit,
}

impl View for Action {
    type V = ActionView;

    open spec fn view(&self) -> ActionView {
        match *self {
            Action::Prompt => ActionView::Prompt,
            Action::Edit(n) => ActionView::Edit(n),
            Action::Run(commands) => ActionView::Run(commands@),
            Action::AskSpeed => ActionView::AskSpeed,
            Action::ShowHelp => ActionView::ShowHelp,
            Action::Quit => ActionView::Quit,
        }
    }
}

/// The mathematical value of a machine.
pub struct Session {
    /// The entries of the tape that a run works on.
    pub cells: Map<int, u8>,
    /// The position of the cursor.
    pub cursor: int,
    /// The entries of the tape as the user set it up.
    pub saved: Map<int, u8>,
    /// The text of the program, line by line.
    pub lines: Seq<Seq<char>>,
    /// The instruction pointer.
    pub pointer: nat,
    /// The error of the last input.
    pub error: Option<ErrorView>,
    /// The notice to show.
    pub message: Option<Message>,
    /// The pacing delay in milliseconds.
    pub speed: nat,
}

/// The mathematical value of an optional error.
pub open spec fn error_view(error: Option<Error>) -> Option<ErrorView> {
    match error {
        Some(e) => Some(e@),
        None => None,
    }
}

impl View for PostMachine {
    type V = Session;

    open spec fn view(&self) -> Session {
        Session {
            cells: self.tape.cells(),
            cursor: self.tape.cursor(),
            saved: self.tape.saved(),
            lines: self.program(),
            pointer: self.buffer.cur as nat,
            error: error_view(self.prev_error),
            message: self.message,
            speed: self.speedms as nat,
        }
    }
}

/// What the text after `/` asks for in a program of `lines` lines: a number
/// is a line to edit, and the rest are the commands by their names.
pub open spec fn slash_request(name: Seq<char>, lines: nat) -> Request {
    match line_number(name) {
        Some(n) => if 1 <= n <= lines {
            Request::Edit(n as usize)
        } else {
            Request::NoSuchLine
        },
        None => if name == seq!['r'] {
            Request::ClearTape
        } else if name == seq!['r', 'r'] {
            Request::ClearAll
        } else if name == seq!['s'] {
            Request::Start
        } else if name == seq!['s', 'p'] {
            Request::Speed
        } else if name == seq!['h', 'e', 'l', 'p'] {
            Request::Help
        } else if name == seq!['q'] {
            Request::Quit
        } else if name == seq!['d'] {
            Request::DropLast
        } else {
            Request::Unknown
        },
    }
}

/// The position of the tape that `text` denotes: a signed decimal number
/// that fits in an `i64`.
pub open spec fn tape_position(text: Seq<char>) -> Option<int> {
    within(signed_number(text), i64::MIN as int, i64::MAX as int)
}

/// What the line `input` asks for in a program of `lines` lines. Whitespace
/// around the line does not count.
pub open spec fn request(input: Seq<char>, lines: nat) -> Request {
    let text = trim(input);
    if text.len() == 0 {
        Request::Nothing
    } else if text[0] == '/' {
        slash_request(text.drop_first(), lines)
    } else {
        match tape_position(text) {
            Some(p) => Request::Toggle(p as i64),
            None => Request::Insert,
        }
    }
}

/// The delay that `input` denotes: a positive decimal number of
/// milliseconds that fits in a `u64`, with whitespace around it or none.
pub open spec fn delay(input: Seq<char>) -> Option<nat> {
    match at_most(unsigned_number(trim(input)), u64::MAX as nat) {
        Some(n) if n > 0 => Some(n),
        _ => None,
    }
}

/// The machine after the line `input`, and what is to be done next.
pub open spec fn respond(s: Session, input: Seq<char>) -> (Session, ActionView) {
    match request(input, s.lines.len()) {
        Request::Nothing => (Session { message: None, ..s }, ActionView::Prompt),
        Request::Edit(n) => (Session { error: None, ..s }, ActionView::Edit(n)),
        Request::NoSuchLine => (
            Session { error: Some(ErrorView::InvalidUserLine), ..s },
            ActionView::Prompt,
        ),
        Request::ClearTape => (
            Session {
                cells: Map::empty(),
                saved: Map::empty(),
                message: Some(Message::TapeCleared),
                error: None,
                ..s
            },
            ActionView::Prompt,
        ),
        Request::ClearAll => (
            Session {
                cells: Map::empty(),
                saved: Map::empty(),
                lines: Seq::empty(),
                message: Some(Message::AllCleared),
                error: None,
                ..s
            },
            ActionView::Prompt,
        ),
        Request::Start => if s.lines.len() == 0 {
            (Session { error: Some(ErrorView::EmptyBufer), message: None, ..s }, ActionView::Prompt)
        } else {
            match compile_program(s.lines) {
                Ok(commands) => (
                    Session { error: None, message: None, ..s },
                    ActionView::Run(commands),
                ),
                Err(e) => (Session { error: Some(e), message: None, ..s }, ActionView::Prompt),
            }
        },
        Request::Speed => (Session { error: None, message: None, ..s }, ActionView::AskSpeed),
        Request::Help => (Session { error: None, message: None, ..s }, ActionView::ShowHelp),
        Request::Quit => (s, ActionView::Quit),
        Request::DropLast => (
            Session {
                lines: if s.lines.len() > 0 {
                    s.lines.drop_last()
                } else {
                    s.lines
                },
                error: None,
                message: None,
                ..s
            },
            ActionView::Prompt,
        ),
        Request::Unknown => (
            Session { error: Some(ErrorView::UndefinedUserCommand), ..s },
            ActionView::Prompt,
        ),
        Request::Toggle(p) => (
            Session {
                cells: toggled(s.cells, p as int),
                saved: set_up(s.cells, s.saved, p as int),
                error: None,
                message: None,
                ..s
            },
            ActionView::Prompt,
        ),
        Request::Insert => (
            Session { lines: s.lines.push(trim(input)), error: None, message: None, ..s },
            ActionView::Prompt,
        ),
    }
}

/// The machine after the answer `input` to the question for the new text
/// of the line with the number `n`, and the error of the answer. An empty
/// answer leaves the line as it is; a `/` command is refused.
pub open spec fn respond_to_edit(s: Session, n: usize, input: Seq<char>) -> (
    Session,
    Result<(), ErrorView>,
) {
    let text = trim(input);
    if text.len() > 0 && text[0] == '/' {
        (Session { error: Some(ErrorView::CommandInEditMode), ..s }, Err(ErrorView::CommandInEditMode))
    } else {
        (
            Session {
                lines: if text.len() > 0 {
                    s.lines.update(n - 1, text)
                } else {
                    s.lines
                },
                error: None,
                message: None,
                ..s
            },
            Ok(()),
        )
    }
}

/// The machine after the answer `input` to the question for the pacing
/// delay, and the error of the answer. An empty answer leaves the delay as
/// it is, and so does one that is no delay.
pub open spec fn respond_to_speed(s: Session, input: Seq<char>) -> (Session, Result<(), ErrorView>) {
    if trim(input).len() == 0 {
        (s, Ok(()))
    } else {
        match delay(input) {
            Some(n) => (Session { speed: n, message: Some(Message::NewSpeed(n as u64)), ..s }, Ok(())),
            None => (Session { error: Some(ErrorView::WrongSpeed), ..s }, Err(ErrorView::WrongSpeed)),
        }
    }
}

/// Between runs the tape holds what its user set up: a line of input
/// keeps it so.
pub proof fn law_input_keeps_the_set_up(s: Session, input: Seq<char>)
    requires
        s.cells == s.saved,
    ensures
        respond(s, input).0.cells == respond(s, input).0.saved,
{
}

/// A line of input moves neither the cursor nor the instruction pointer,
/// and sets no delay.
pub proof fn law_input_keeps_the_run(s: Session, input: Seq<char>)
    ensures
        respond(s, input).0.cursor == s.cursor,
        respond(s, input).0.pointer == s.pointer,
        respond(s, input).0.speed == s.speed,
{
}

/// The mathematical value of the result of an answer.
pub open spec fn answer_view(r: Result<(), Error>) -> Result<(), ErrorView> {
    match r {
        Ok(()) => Ok(()),
        Err(e) => Err(e@),
    }
}

/// Whether the window `lo..hi` of `s` is the text `word`.
fn window_is(s: &Vec<char>, lo: usize, hi: usize, word: &Vec<char>) -> (b: bool)
    requires
        lo <= hi <= s.len(),
    ensures
        b == (s@.subrange(lo as int, hi as int) == word@),
{
    if hi - lo != word.len() {
        return false;
    }
    let n: usize = word.len();
    let mut i: usize = 0;
    while i < n
        invariant
            lo <= hi <= s.len(),
            n == word.len(),
            hi - lo == n,
            i <= n,
            forall|j: int| 0 <= j < i ==> s@[lo + j] == word@[j],
        decreases n - i,
    {
        if s[lo + i] != word[i] {
            proof {
                assert(s@.subrange(lo as int, hi as int)[i as int] != word@[i as int]);
            }
            return false;
        }
        i += 1;
    }
    proof {
        assert(s@.subrange(lo as int, hi as int) =~= word@);
    }
    true
}

/// Reads the window `lo..hi` of `s`, which holds what follows a `/`.
fn read_slash(s: &Vec<char>, lo: usize, hi: usize, lines: usize) -> (r: Request)
    requires
        lo <= hi <= s.len(),
    ensures
        r == slash_request(s@.subrange(lo as int, hi as int), lines as nat),
{
    match parse_unsigned(s, lo, hi, usize::MAX as u64) {
        Some(n) => {
            if 1 <= n && n <= lines as u64 {
                Request::Edit(n as usize)
            } else {
                Request::NoSuchLine
            }
        },
        None => {
            let clear_tape = vec!['r'];
            let clear_all = vec!['r', 'r'];
            let start = vec!['s'];
            let speed = vec!['s', 'p'];
            let help = vec!['h', 'e', 'l', 'p'];
            let quit = vec!['q'];
            let drop_last = vec!['d'];
            proof {
                assert(clear_tape@ =~= seq!['r']);
                assert(clear_all@ =~= seq!['r', 'r']);
                assert(start@ =~= seq!['s']);
                assert(speed@ =~= seq!['s', 'p']);
                assert(help@ =~= seq!['h', 'e', 'l', 'p']);
                assert(quit@ =~= seq!['q']);
                assert(drop_last@ =~= seq!['d']);
            }
            if window_is(s, lo, hi, &clear_tape) {
                Request::ClearTape
            } else if window_is(s, lo, hi, &clear_all) {
                Request::ClearAll
            } else if window_is(s, lo, hi, &start) {
                Request::Start
            } else if window_is(s, lo, hi, &speed) {
                Request::Speed
            } else if window_is(s, lo, hi, &help) {
                Request::Help
            } else if window_is(s, lo, hi, &quit) {
                Request::Quit
            } else if window_is(s, lo, hi, &drop_last) {
                Request::DropLast
            } else {
                Request::Unknown
            }
        },
    }
}

/// Reads the window `lo..hi` of `s`, which holds a line of input without
/// the whitespace around it.
fn read_trimmed(s: &Vec<char>, lo: usize, hi: usize, lines: usize) -> (r: Request)
    requires
        lo <= hi <= s.len(),
        s@.subrange(lo as int, hi as int) == trim(s@),
    ensures
        r == request(s@, lines as nat),
{
    let ghost text = s@.subrange(lo as int, hi as int);
    if lo == hi {
        return Request::Nothing;
    }
    proof {
        assert(text[0] == s@[lo as int]);
    }
    if s[lo] == '/' {
        proof {
            assert(text.drop_first() =~= s@.subrange(lo + 1, hi as int));
        }
        read_slash(s, lo + 1, hi, lines)
    } else {
        match parse_signed(s, lo, hi) {
            Some(p) => Request::Toggle(p),
            None => Request::Insert,
        }
    }
}

/// Reads a line of input to a machine whose program has `lines` lines.
pub fn read_request(input: &str, lines: usize) -> (r: Request)
    ensures
        r == request(input@, lines as nat),
{
    let s = chars_of(input);
    let n: usize = s.len();
    proof {
        assert(s@.subrange(0, n as int) =~= s@);
    }
    let (a, b) = trim_bounds(&s, 0, n);
    read_trimmed(&s, a, b, lines)
}

/// Reads a pacing delay: a positive number of milliseconds.
pub fn read_delay(input: &str) -> (r: Option<u64>)
    ensures
        r matches Some(n) ==> delay(input@) == Some(n as nat),
        r is None ==> delay(input@) is None,
{
    let s = chars_of(input);
    let n: usize = s.len();
    proof {
        assert(s@.subrange(0, n as int) =~= s@);
    }
    let (a, b) = trim_bounds(&s, 0, n);
    match parse_unsigned(&s, a, b, u64::MAX) {
        Some(n) => if n > 0 {
            Some(n)
        } else {
            None
        },
        None => None,
    }
}

/// The line `input` without the whitespace around it.
pub fn trimmed(input: &str) -> (r: &str)
    ensures
        r@ == trim(input@),
{
    let s = chars_of(input);
    let n: usize = s.len();
    proof {
        assert(s@.subrange(0, n as int) =~= s@);
    }
    let (a, b) = trim_bounds(&s, 0, n);
    input.substring_char(a, b)
}

impl PostMachine {
    /// Takes a line of input: changes the machine as the line asks and
    /// tells what is to be done next.
    pub fn handle_input(&mut self, input: &str) -> (action: Action)
        ensures
            (final(self)@, action@) == respond(old(self)@, input@),
            action matches Action::Run(commands) ==> closed(commands@) && commands@.len()
                == old(self).buffer.cmds@.len() && commands@.len() > 0,
            action matches Action::Edit(n) ==> 1 <= n <= old(self).buffer.cmds@.len(),
    {
        let count: usize = self.buffer.cmds.len();
        match read_request(input, count) {
            Request::Nothing => {
                self.message = None;
                Action::Prompt
            },
            Request::Edit(n) => {
                self.prev_error = None;
                Action::Edit(n)
            },
            Request::NoSuchLine => {
                self.prev_error = Some(Error::InvalidUserLine);
                Action::Prompt
            },
            Request::ClearTape => {
                self.tape.wipe();
                self.message = Some(Message::TapeCleared);
                self.prev_error = None;
                Action::Prompt
            },
            Request::ClearAll => {
                self.tape.wipe();
                self.buffer.cmds.clear();
                self.message = Some(Message::AllCleared);
                self.prev_error = None;
                proof {
                    assert(self.program() =~= Seq::<Seq<char>>::empty());
                }
                Action::Prompt
            },
            Request::Start => {
                self.message = None;
                if count == 0 {
                    self.prev_error = Some(Error::EmptyBufer);
                    return Action::Prompt;
                }
                match self.compile_code() {
                    Ok(commands) => {
                        self.prev_error = None;
                        Action::Run(commands)
                    },
                    Err(e) => {
                        self.prev_error = Some(e);
                        Action::Prompt
                    },
                }
            },
            Request::Speed => {
                self.message = None;
                self.prev_error = None;
                Action::AskSpeed
            },
            Request::Help => {
                self.message = None;
                self.prev_error = None;
                Action::ShowHelp
            },
            Request::Quit => Action::Quit,
            Request::DropLast => {
                self.buffer.cmds.pop();
                self.prev_error = None;
                self.message = None;
                proof {
                    if count > 0 {
                        assert(self.program() =~= old(self).program().drop_last());
                    } else {
                        assert(self.program() =~= old(self).program());
                    }
                }
                Action::Prompt
            },
            Request::Unknown => {
                self.prev_error = Some(Error::UndefinedUserCommand);
                Action::Prompt
            },
            Request::Toggle(p) => {
                self.tape.toggle(p);
                self.prev_error = None;
                self.message = None;
                Action::Prompt
            },
            Request::Insert => {
                let text = trimmed(input);
                self.insert_command(text);
                self.prev_error = None;
                self.message = None;
                Action::Prompt
            },
        }
    }

    /// Takes the answer to the question for the new text of the line with
    /// the number `n`. An empty answer leaves the line as it is. A `/`
    /// command is an error, which is returned and kept as the error of the
    /// last input.
    pub fn coding_edit(&mut self, n: usize, input: &str) -> (r: Result<(), Error>)
        requires
            1 <= n <= old(self).buffer.cmds.len(),
        ensures
            (final(self)@, answer_view(r)) == respond_to_edit(old(self)@, n, input@),
    {
        let text = trimmed(input);
        let s = chars_of(text);
        if s.len() > 0 {
            if s[0] == '/' {
                self.prev_error = Some(Error::CommandInEditMode);
                return Err(Error::CommandInEditMode);
            }
            self.edit_command(text, n);
        }
        self.prev_error = None;
        self.message = None;
        Ok(())
    }

    /// Sets the pacing delay to the positive number of milliseconds that
    /// `input` denotes. Any other input is an error and leaves the delay as
    /// it is.
    pub fn set_speed(&mut self, input: &str) -> (r: Result<(), Error>)
        ensures
            r is Ok <==> delay(input@) is Some,
            r matches Err(e) ==> e == Error::WrongSpeed,
            final(self)@ == (Session {
                speed: match delay(input@) {
                    Some(n) => n,
                    None => old(self)@.speed,
                },
                ..old(self)@
            }),
    {
        match read_delay(input) {
            Some(n) => {
                self.speedms = n;
                Ok(())
            },
            None => Err(Error::WrongSpeed),
        }
    }

    /// Takes the answer to the question for the pacing delay. An empty
    /// answer leaves the delay as it is. A delay is set, with a notice. Any
    /// other answer is an error, which is returned and kept as the error of
    /// the last input.
    pub fn new_sp(&mut self, input: &str) -> (r: Result<(), Error>)
        ensures
            (final(self)@, answer_view(r)) == respond_to_speed(old(self)@, input@),
    {
        if trimmed(input).is_empty() {
            return Ok(());
        }
        match self.set_speed(input) {
            Ok(()) => {
                self.message = Some(Message::NewSpeed(self.speedms));
                Ok(())
            },
            Err(e) => {
                self.prev_error = Some(Error::WrongSpeed);
                Err(e)
            },
        }
    }

    /// Ends a run and goes back to the session: the tape is again as the
    /// user set it up, the cursor and the instruction pointer are at 0, and
    /// there is no notice and no error.
    pub fn finish_run(&mut self)
        ensures
            final(self)@ == (Session {
                cells: old(self)@.saved,
                cursor: 0,
                pointer: 0,
                error: None,
                message: None,
                ..old(self)@
            }),
    {
        self.reset();
        self.tape.restore();
        self.prev_error = None;
        self.message = None;
    }
}

} // verus!
