//! The execution engine as a state machine: what one step does to the tape,
//! the cursor and the instruction pointer, and how a run ends.

use vstd::prelude::*;
use crate::command::{closed, Command};
use crate::tape::{marked, symbol_at};

verus! {

/// A fault in the logic of a running program.
#[derive(Clone, Copy, Debug, PartialEq, Eq, Structural)]
pub enum Violation {
    /// The program marks a cell that holds a mark.
    DoubleMark,
    /// The program erases the mark of a cell that holds none.
    EraseUnmarked,
}

/// How a run ended.
#[derive(Clone, Copy, Debug, PartialEq, Eq, Structural)]
pub enum Outcome {
    /// The program reached `End`.
    Done,
    /// The program broke a rule of the machine.
    Violation(Violation),
    /// The user asked for the run to stop.
    Cancelled,
}

/// What one step of the engine did.
#[derive(Clone, Copy, Debug, PartialEq, Eq, Structural)]
pub enum Step {
    /// An instruction was executed and the run goes on. `visible` tells
    /// whether the tape or the cursor changed, so that an observer is given
    /// time to see it; a branch is not visible.
    Next { visible: bool },
    /// The run is over. No instruction was executed in this step.
    Stop(Outcome),
}

/// The state of a run: the entries of the tape, the cursor and the
/// instruction pointer.
pub struct State {
    pub cells: Map<int, u8>,
    pub cursor: int,
    pub pointer: nat,
}

/// The state in which every run ends: an empty tape, the cursor and the
/// instruction pointer at 0.
pub open spec fn initial() -> State {
    State { cells: Map::empty(), cursor: 0, pointer: 0 }
}

/// One step of the engine on `command`, the instruction under the pointer.
/// A request to cancel is honoured before anything else. Where the run
/// stops, the state is left as it was.
pub open spec fn step(s: State, command: Command, cancel: bool) -> (State, Step) {
    if cancel {
        (s, Step::Stop(Outcome::Cancelled))
    } else {
        match command {
            Command::LeftGoto(t) => (
                State { cells: s.cells, cursor: s.cursor - 1, pointer: t as nat },
                Step::Next { visible: true },
            ),
            Command::RightGoto(t) => (
                State { cells: s.cells, cursor: s.cursor + 1, pointer: t as nat },
                Step::Next { visible: true },
            ),
            Command::MarkGoto(t) => if marked(s.cells, s.cursor) {
                (s, Step::Stop(Outcome::Violation(Violation::DoubleMark)))
            } else {
                (
                    State { cells: s.cells.insert(s.cursor, 1), cursor: s.cursor, pointer: t as nat },
                    Step::Next { visible: true },
                )
            },
            Command::UnmarkGoto(t) => if marked(s.cells, s.cursor) {
                (
                    State { cells: s.cells.remove(s.cursor), cursor: s.cursor, pointer: t as nat },
                    Step::Next { visible: true },
                )
            } else {
                (s, Step::Stop(Outcome::Violation(Violation::EraseUnmarked)))
            },
            Command::CheckOrGoto(t1, t2) => (
                State {
                    cells: s.cells,
                    cursor: s.cursor,
                    pointer: if marked(s.cells, s.cursor) {
                        t1 as nat
                    } else {
                        t2 as nat
                    },
                },
                Step::Next { visible: false },
            ),
            Command::End => (s, Step::Stop(Outcome::Done)),
        }
    }
}

/// Whether the cancellation that is seen after `cancel_after` further steps
/// is seen now.
pub open spec fn cancelled_now(cancel_after: Option<nat>) -> bool {
    cancel_after == Some(0nat)
}

/// The cancellation one step later.
pub open spec fn one_step_later(cancel_after: Option<nat>) -> Option<nat> {
    match cancel_after {
        Some(n) if n > 0 => Some((n - 1) as nat),
        other => other,
    }
}

/// A run of at most `fuel` steps from the state `s`. The request to cancel
/// is seen before the step with the number `cancel_after`, counted from 0,
/// and before every later one; `None` is a run that nobody cancels.
///
/// The result is the state after the run and how it ended. A run that ends
/// leaves the state of [`initial`]. A run that is still going after `fuel`
/// steps has no outcome, and its state is the one it has reached.
pub open spec fn run(s: State, program: Seq<Command>, cancel_after: Option<nat>, fuel: nat) -> (
    State,
    Option<Outcome>,
)
    decreases fuel,
{
    if fuel == 0 {
        (s, None)
    } else {
        let (next, what) = step(s, program[s.pointer as int], cancelled_now(cancel_after));
        match what {
            Step::Stop(outcome) => (initial(), Some(outcome)),
            Step::Next { .. } => run(
                next,
                program,
                one_step_later(cancel_after),
                (fuel - 1) as nat,
            ),
        }
    }
}

/// A request to cancel that is there before the first step ends the run
/// with no instruction executed: a run of at least one step is cancelled
/// whatever the program and the tape are, and it leaves the tape cleared.
pub proof fn law_cancel_before_first_step(s: State, program: Seq<Command>, fuel: nat)
    requires
        fuel > 0,
    ensures
        step(s, program[s.pointer as int], true) == (s, Step::Stop(Outcome::Cancelled)),
        run(s, program, Some(0nat), fuel) == (initial(), Some(Outcome::Cancelled)),
        run(s, program, Some(0nat), fuel).0.cells == Map::<int, u8>::empty(),
{
}

/// A mark on an unmarked cell marks that cell and no other, and the run
/// goes on at the target.
pub proof fn law_mark_writes(s: State, t: usize)
    requires
        !marked(s.cells, s.cursor),
    ensures
        step(s, Command::MarkGoto(t), false).1 == (Step::Next { visible: true }),
        step(s, Command::MarkGoto(t), false).0.pointer == t,
        step(s, Command::MarkGoto(t), false).0.cursor == s.cursor,
        marked(step(s, Command::MarkGoto(t), false).0.cells, s.cursor),
        forall|p: int|
            p != s.cursor ==> symbol_at(step(s, Command::MarkGoto(t), false).0.cells, p)
                == #[trigger] symbol_at(s.cells, p),
{
}

/// A mark stays until it is erased: every step but the erasure of the mark
/// at `p` leaves the cell at `p` marked.
pub proof fn law_mark_stays(s: State, command: Command, cancel: bool, p: int)
    requires
        marked(s.cells, p),
        cancel || !(command is UnmarkGoto && s.cursor == p),
    ensures
        marked(step(s, command, cancel).0.cells, p),
{
}

/// A mark on a marked cell is a violation: the run stops as a double mark,
/// and the tape, with the one mark in that cell, is left as it was.
pub proof fn law_double_mark(s: State, t: usize)
    requires
        marked(s.cells, s.cursor),
    ensures
        step(s, Command::MarkGoto(t), false) == (
            s,
            Step::Stop(Outcome::Violation(Violation::DoubleMark)),
        ),
{
}

/// Two marks in a row on an unmarked cell: the first one writes the mark,
/// the second one stops the run as a double mark and leaves the tape with
/// exactly the one new mark.
pub proof fn law_mark_twice(s: State, t: usize, u: usize)
    requires
        !marked(s.cells, s.cursor),
    ensures
        ({
            let (s1, first) = step(s, Command::MarkGoto(t), false);
            let (s2, second) = step(s1, Command::MarkGoto(u), false);
            &&& first == Step::Next { visible: true }
            &&& second == Step::Stop(Outcome::Violation(Violation::DoubleMark))
            &&& s2.cells == s.cells.insert(s.cursor, 1)
            &&& s2.cursor == s.cursor
        }),
{
}

/// The erasure of a mark that is not there is a violation: the run stops,
/// and the tape is left as it was.
pub proof fn law_erase_unmarked(s: State, t: usize)
    requires
        !marked(s.cells, s.cursor),
    ensures
        step(s, Command::UnmarkGoto(t), false) == (
            s,
            Step::Stop(Outcome::Violation(Violation::EraseUnmarked)),
        ),
{
}

/// A step keeps the pointer inside a program whose targets are all inside
/// it.
pub proof fn law_pointer_stays_inside(s: State, program: Seq<Command>, cancel: bool)
    requires
        closed(program),
        s.pointer < program.len(),
    ensures
        step(s, program[s.pointer as int], cancel).0.pointer < program.len(),
{
}

/// A run ends in one of three ways, and a run that ended has left the
/// machine as new: the tape cleared, the cursor and the pointer at 0.
pub proof fn law_run_ends_reset(
    s: State,
    program: Seq<Command>,
    cancel_after: Option<nat>,
    fuel: nat,
)
    ensures
        run(s, program, cancel_after, fuel).1 is Some ==> run(s, program, cancel_after, fuel).0
            == initial(),
    decreases fuel,
{
    if fuel > 0 {
        let (next, what) = step(s, program[s.pointer as int], cancelled_now(cancel_after));
        if what is Next {
            law_run_ends_reset(next, program, one_step_later(cancel_after), (fuel - 1) as nat);
        }
    }
}

} // verus!
