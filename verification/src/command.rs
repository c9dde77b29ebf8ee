//! The instructions of a compiled program.

use vstd::prelude::*;

verus! {

/// One instruction of a compiled program. Every target is a zero-based
/// index into the program that holds the instruction.
#[derive(Clone, Copy, Debug, PartialEq, Eq, Structural)]
pub enum Command {
    /// Move the cursor one cell to the left, then go to the target.
    LeftGoto(usize),
    /// Move the cursor one cell to the right, then go to the target.
    RightGoto(usize),
    /// Mark the cell under the cursor, then go to the target.
    MarkGoto(usize),
    /// Erase the mark under the cursor, then go to the target.
    UnmarkGoto(usize),
    /// Go to the first target where the cell under the cursor is marked,
    /// to the second where it is not.
    CheckOrGoto(usize, usize),
    /// Stop.
    End,
}

impl Command {
    /// Whether every target of the instruction is an index below `len`.
    pub open spec fn targets_below(self, len: nat) -> bool {
        match self {
            Command::LeftGoto(t) => t < len,
            Command::RightGoto(t) => t < len,
            Command::MarkGoto(t) => t < len,
            Command::UnmarkGoto(t) => t < len,
            Command::CheckOrGoto(t1, t2) => t1 < len && t2 < len,
            Command::End => true,
        }
    }
}

/// Whether every target in `program` is the index of one of its
/// instructions.
pub open spec fn closed(program: Seq<Command>) -> bool {
    forall|i: int| 0 <= i < program.len() ==> (#[trigger] program[i]).targets_below(program.len())
}

/// Tests whether every target in `program` is the index of one of its
/// instructions.
pub fn is_closed(program: &Vec<Command>) -> (b: bool)
    ensures
        b == closed(program@),
{
    let n: usize = program.len();
    let mut i: usize = 0;
    while i < n
        invariant
            n == program@.len(),
            i <= n,
            forall|j: int| 0 <= j < i ==> (#[trigger] program@[j]).targets_below(n as nat),
        decreases n - i,
    {
        let ok: bool = match program[i] {
            Command::LeftGoto(t) => t < n,
            Command::RightGoto(t) => t < n,
            Command::MarkGoto(t) => t < n,
            Command::UnmarkGoto(t) => t < n,
            Command::CheckOrGoto(t1, t2) => t1 < n && t2 < n,
            Command::End => true,
        };
        if !ok {
            return false;
        }
        i += 1;
    }
    true
}

} // verus!
