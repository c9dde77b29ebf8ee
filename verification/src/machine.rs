//! The machine: a tape, a program under edit, and the state of a session.

use vstd::prelude::*;
use crate::command::{closed, Command};
use crate::compiler::{compile, compile_program, compiled_view, texts};
use crate::engine::{initial, run, step, Outcome, State, Step, Violation};
use crate::error::Error;
use crate::message::{diagnostic, Message};
use crate::tape::Tape;

verus! {

/// The program under edit and the instruction pointer of the run.
pub struct Buffer {
    /// The lines of the program; the line with the number `n` is
    /// `cmds[n - 1]`.
    pub cmds: Vec<String>,
    /// The index of the instruction that the engine executes next.
    pub cur: usize,
}

/// A Post machine and the session of its user.
pub struct PostMachine {
    /// The tape.
    pub tape: Tape,
    /// The program under edit.
    pub buffer: Buffer,
    /// The error of the last input, if it had one.
    pub prev_error: Option<Error>,
    /// The notice to show, if there is one.
    pub message: Option<Message>,
    /// The pacing delay in milliseconds.
    pub speedms: u64,
}

/// Whether the cursor at `cursor` can make the move of `command`, if it is
/// one, and stay within what an `i64` holds.
pub open spec fn in_reach(cursor: int, command: Command) -> bool {
    match command {
        Command::LeftGoto(_) => cursor > i64::MIN,
        Command::RightGoto(_) => cursor < i64::MAX,
        _ => true,
    }
}

/// A count of steps of the machine, as a number.
pub open spec fn steps(n: Option<u64>) -> Option<nat> {
    match n {
        Some(n) => Some(n as nat),
        None => None,
    }
}

impl PostMachine {
    /// The state of the run: the working tape, its cursor and the
    /// instruction pointer.
    pub open spec fn state(&self) -> State {
        State {
            cells: self.tape.cells(),
            cursor: self.tape.cursor(),
            pointer: self.buffer.cur as nat,
        }
    }

    /// The text of the program under edit, line by line.
    pub open spec fn program(&self) -> Seq<Seq<char>> {
        texts(self.buffer.cmds@)
    }

    /// Whether everything but the state of the run is the same in `self`
    /// and `other`: the set-up of the tape, the program, the delay and the
    /// error.
    pub open spec fn same_session(&self, other: &PostMachine) -> bool {
        &&& self.tape.saved() == other.tape.saved()
        &&& self.buffer.cmds == other.buffer.cmds
        &&& self.prev_error == other.prev_error
        &&& self.speedms == other.speedms
    }

    /// Whether the engine can take its next step in `cmds`: the pointer is
    /// on an instruction, and the cursor has room for its move.
    pub open spec fn steppable(&self, cmds: Seq<Command>) -> bool {
        &&& self.buffer.cur < cmds.len()
        &&& in_reach(self.tape.cursor(), cmds[self.buffer.cur as int])
    }

    /// A machine with an empty tape, no program, a delay of 300 ms and the
    /// notice that tells how to get help.
    pub fn new() -> (m: PostMachine)
        ensures
            m.state() == initial(),
            m.tape.saved() == Map::<int, u8>::empty(),
            m.program() == Seq::<Seq<char>>::empty(),
            m.prev_error is None,
            m.message == Some(Message::Help),
            m.speedms == 300,
    {
        let m = PostMachine {
            tape: Tape::new(),
            buffer: Buffer { cmds: Vec::new(), cur: 0 },
            prev_error: None,
            message: Some(Message::Help),
            speedms: 300,
        };
        proof {
            assert(m.program() =~= Seq::<Seq<char>>::empty());
        }
        m
    }

    /// Adds `command` to the program as its last line.
    pub fn insert_command(&mut self, command: &str)
        ensures
            final(self).program() == old(self).program().push(command@),
            final(self).buffer.cur == old(self).buffer.cur,
            final(self).tape == old(self).tape,
            final(self).prev_error == old(self).prev_error,
            final(self).message == old(self).message,
            final(self).speedms == old(self).speedms,
    {
        self.buffer.cmds.push(command.to_owned());
        proof {
            assert(self.program() =~= old(self).program().push(command@));
        }
    }

    /// Replaces the line with the number `n` by `command`.
    pub fn edit_command(&mut self, command: &str, n: usize)
        requires
            1 <= n <= old(self).buffer.cmds.len(),
        ensures
            final(self).program() == old(self).program().update(n - 1, command@),
            final(self).buffer.cur == old(self).buffer.cur,
            final(self).tape == old(self).tape,
            final(self).prev_error == old(self).prev_error,
            final(self).message == old(self).message,
            final(self).speedms == old(self).speedms,
    {
        self.buffer.cmds.set(n - 1, command.to_owned());
        proof {
            assert(self.program() =~= old(self).program().update(n - 1, command@));
        }
    }

    /// Compiles the program under edit: one instruction for each line, or
    /// the error of the first line that does not compile. A program that
    /// compiles has every target within it.
    pub fn compile_code(&self) -> (r: Result<Vec<Command>, Error>)
        ensures
            compiled_view(r) == compile_program(self.program()),
            r matches Ok(commands) ==> commands@.len() == self.buffer.cmds@.len() && closed(
                commands@,
            ),
    {
        compile(&self.buffer.cmds)
    }

    /// Tests whether the engine can take its next step in `cmds`.
    pub fn can_step(&self, cmds: &Vec<Command>) -> (b: bool)
        ensures
            b == self.steppable(cmds@),
    {
        if self.buffer.cur >= cmds.len() {
            return false;
        }
        match cmds[self.buffer.cur] {
            Command::LeftGoto(_) => self.tape.can_move_left(),
            Command::RightGoto(_) => self.tape.can_move_right(),
            _ => true,
        }
    }

    /// Takes one step of the run of `cmds`. `cancel` tells whether the user
    /// has asked the run to stop; where they have, no instruction is
    /// executed.
    ///
    /// Where the run stops, the tape, the cursor and the pointer stay as
    /// they are, for the user to see, and the notice tells why it stopped.
    pub fn step(&mut self, cmds: &Vec<Command>, cancel: bool) -> (what: Step)
        requires
            old(self).steppable(cmds@),
        ensures
            (final(self).state(), what) == step(
                old(self).state(),
                cmds@[old(self).buffer.cur as int],
                cancel,
            ),
            closed(cmds@) ==> final(self).buffer.cur < cmds.len(),
            final(self).same_session(old(self)),
            final(self).message == match what {
                Step::Stop(outcome) => Some(diagnostic(outcome)),
                Step::Next { .. } => old(self).message,
            },
    {
        if cancel {
            self.message = Some(Message::Terminated);
            return Step::Stop(Outcome::Cancelled);
        }
        let at: i64 = self.tape.position();
        match cmds[self.buffer.cur] {
            Command::LeftGoto(t) => {
                self.tape.move_left();
                self.buffer.cur = t;
                Step::Next { visible: true }
            },
            Command::RightGoto(t) => {
                self.tape.move_right();
                self.buffer.cur = t;
                Step::Next { visible: true }
            },
            Command::MarkGoto(t) => {
                if self.tape.is_marked(at) {
                    self.message = Some(Message::DoubleMark);
                    Step::Stop(Outcome::Violation(Violation::DoubleMark))
                } else {
                    self.tape.write(at, 1);
                    self.buffer.cur = t;
                    Step::Next { visible: true }
                }
            },
            Command::UnmarkGoto(t) => {
                if self.tape.is_marked(at) {
                    self.tape.erase(at);
                    self.buffer.cur = t;
                    Step::Next { visible: true }
                } else {
                    self.message = Some(Message::EraseUnmarked);
                    Step::Stop(Outcome::Violation(Violation::EraseUnmarked))
                }
            },
            Command::CheckOrGoto(t1, t2) => {
                if self.tape.is_marked(at) {
                    self.buffer.cur = t1;
                } else {
                    self.buffer.cur = t2;
                }
                Step::Next { visible: false }
            },
            Command::End => {
                self.message = Some(Message::Stopped);
                Step::Stop(Outcome::Done)
            },
        }
    }

    /// Ends a run: clears the tape, puts the cursor and the instruction
    /// pointer at 0, and takes the notice away.
    pub fn reset(&mut self)
        ensures
            final(self).state() == initial(),
            final(self).message is None,
            final(self).same_session(old(self)),
    {
        self.message = None;
        self.buffer.cur = 0;
        self.tape.clear();
    }

    /// Runs `cmds` for at most `fuel` steps, from the state that the
    /// machine is in. The request to cancel is seen before the step with
    /// the number `cancel_after`, counted from 0, and from then on; with
    /// `None` nobody cancels.
    ///
    /// Returns how the run ended, or `None` where it is still going after
    /// `fuel` steps. A run that ended leaves the tape cleared, the cursor
    /// and the instruction pointer at 0 and no notice; a run that is still
    /// going leaves the machine where the run has got to.
    pub fn execute(&mut self, cmds: &Vec<Command>, cancel_after: Option<u64>, fuel: u64) -> (r:
        Option<Outcome>)
        requires
            closed(cmds@),
            old(self).buffer.cur < cmds.len(),
            i64::MIN <= old(self).tape.cursor() - fuel,
            old(self).tape.cursor() + fuel <= i64::MAX,
        ensures
            (final(self).state(), r) == run(
                old(self).state(),
                cmds@,
                steps(cancel_after),
                fuel as nat,
            ),
            final(self).same_session(old(self)),
            final(self).message == match r {
                Some(_) => None,
                None => old(self).message,
            },
    {
        let mut left: u64 = fuel;
        let mut cancel: Option<u64> = cancel_after;
        while left > 0
            invariant
                closed(cmds@),
                self.buffer.cur < cmds.len(),
                i64::MIN <= self.tape.cursor() - left,
                self.tape.cursor() + left <= i64::MAX,
                run(self.state(), cmds@, steps(cancel), left as nat) == run(
                    old(self).state(),
                    cmds@,
                    steps(cancel_after),
                    fuel as nat,
                ),
                self.same_session(old(self)),
                self.message == old(self).message,
            decreases left,
        {
            let now: bool = match cancel {
                Some(n) => n == 0,
                None => false,
            };
            match self.step(cmds, now) {
                Step::Stop(outcome) => {
                    self.reset();
                    return Some(outcome);
                },
                Step::Next { .. } => {
                    cancel =
                    match cancel {
                        Some(n) => if n > 0 {
                            Some(n - 1)
                        } else {
                            Some(n)
                        },
                        None => None,
                    };
                    left = left - 1;
                },
            }
        }
        None
    }
}

} // verus!
