//! The compiler: from the text of a program to its instructions, or to the
//! first error in it.
//!
//! A program is a sequence of lines, numbered from 1. A line is a keyword
//! character, then its arguments:
//!
//! | line          | instruction                         |
//! |---------------|-------------------------------------|
//! | `v n`, `V n`  | `MarkGoto(n - 1)`                   |
//! | `x n`, `X n`  | `UnmarkGoto(n - 1)`                 |
//! | `< n`         | `LeftGoto(n - 1)`                   |
//! | `> n`         | `RightGoto(n - 1)`                  |
//! | `? n1 n2`     | `CheckOrGoto(n1 - 1, n2 - 1)`       |
//! | `!`           | `End`                               |
//!
//! A line number is an optional `+` and decimal digits, and it must name a
//! line of the program.

use vstd::prelude::*;
use crate::command::{closed, Command};
use crate::error::{Error, ErrorView};
use crate::text::{
    at_most, chars_of, is_space, is_whitespace, parse_unsigned, split_words, trim, trim_bounds,
    unsigned_number, words,
};

verus! {

/// Why a line does not compile.
#[derive(Clone, Copy, Debug, PartialEq, Eq, Structural)]
pub enum Fault {
    /// The keyword is known and its arguments are not what it takes.
    InvalidFormat,
    /// An argument names a line that the program does not have.
    InvalidLine,
    /// The line starts with no keyword, or something other than whitespace
    /// follows the keyword at once.
    UndefinedCommand,
}

/// The texts of the lines of a program.
pub open spec fn texts(lines: Seq<String>) -> Seq<Seq<char>> {
    Seq::new(lines.len(), |i: int| lines[i]@)
}

/// The instruction that the keyword `c` makes with the one target `t`, for
/// the four keywords that take one line number.
pub open spec fn goto_command(c: char, t: usize) -> Option<Command> {
    if c == 'v' || c == 'V' {
        Some(Command::MarkGoto(t))
    } else if c == 'x' || c == 'X' {
        Some(Command::UnmarkGoto(t))
    } else if c == '<' {
        Some(Command::LeftGoto(t))
    } else if c == '>' {
        Some(Command::RightGoto(t))
    } else {
        None
    }
}

/// Whether `c` is a keyword that takes arguments.
pub open spec fn takes_arguments(c: char) -> bool {
    c == '?' || goto_command(c, 0) is Some
}

/// The line number that `word` denotes, where it is written as a number
/// that the machine can hold.
pub open spec fn line_number(word: Seq<char>) -> Option<nat> {
    at_most(unsigned_number(word), usize::MAX as nat)
}

/// The target that the line number `number` names in a program of `len`
/// lines: the line's index.
pub open spec fn target(number: nat, len: nat) -> Result<usize, Fault> {
    if 1 <= number <= len {
        Ok((number - 1) as usize)
    } else {
        Err(Fault::InvalidLine)
    }
}

/// The target that is the whole argument text `rest` of a keyword.
pub open spec fn single_target(rest: Seq<char>, len: nat) -> Result<usize, Fault> {
    match line_number(trim(rest)) {
        Some(number) => target(number, len),
        None => Err(Fault::InvalidFormat),
    }
}

/// The branch instruction with the argument text `rest`: exactly two words,
/// each a line number of the program.
pub open spec fn branch(rest: Seq<char>, len: nat) -> Result<Command, Fault> {
    let w = words(rest);
    if w.len() != 2 {
        Err(Fault::InvalidFormat)
    } else {
        match (line_number(w[0]), line_number(w[1])) {
            (Some(n1), Some(n2)) => match (target(n1, len), target(n2, len)) {
                (Ok(t1), Ok(t2)) => Ok(Command::CheckOrGoto(t1, t2)),
                _ => Err(Fault::InvalidLine),
            },
            _ => Err(Fault::InvalidFormat),
        }
    }
}

/// What one line compiles to in a program of `len` lines.
pub open spec fn compile_line(line: Seq<char>, len: nat) -> Result<Command, Fault> {
    if line.len() == 0 {
        Err(Fault::UndefinedCommand)
    } else if line[0] == '!' {
        if line.len() == 1 {
            Ok(Command::End)
        } else {
            Err(Fault::InvalidFormat)
        }
    } else if !takes_arguments(line[0]) {
        Err(Fault::UndefinedCommand)
    } else if line.len() > 1 && !is_space(line[1]) {
        Err(Fault::UndefinedCommand)
    } else if line[0] == '?' {
        branch(line.drop_first(), len)
    } else {
        match single_target(line.drop_first(), len) {
            Ok(t) => Ok(goto_command(line[0], t)->0),
            Err(fault) => Err(fault),
        }
    }
}

/// The error that reports `fault` in the line with the number `number` and
/// the text `line`.
pub open spec fn error_at(fault: Fault, number: nat, line: Seq<char>) -> ErrorView {
    match fault {
        Fault::InvalidFormat => ErrorView::InvalidFormat(number),
        Fault::InvalidLine => ErrorView::InvalidLine(number),
        Fault::UndefinedCommand => ErrorView::UndefinedCommand(number, line),
    }
}

/// What the first `k` lines of a program compile to: their instructions, or
/// the error of the first among them that does not compile.
pub open spec fn compile_prefix(lines: Seq<Seq<char>>, k: nat) -> Result<Seq<Command>, ErrorView>
    decreases k,
{
    if k == 0 {
        Ok(Seq::empty())
    } else {
        match compile_prefix(lines, (k - 1) as nat) {
            Ok(commands) => match compile_line(lines[k - 1], lines.len()) {
                Ok(command) => Ok(commands.push(command)),
                Err(fault) => Err(error_at(fault, k, lines[k - 1])),
            },
            Err(error) => Err(error),
        }
    }
}

/// What a program compiles to: one instruction for each line, or the error
/// of its first line that does not compile.
pub open spec fn compile_program(lines: Seq<Seq<char>>) -> Result<Seq<Command>, ErrorView> {
    compile_prefix(lines, lines.len())
}

/// The mathematical value of what the compiler returns.
pub open spec fn compiled_view(r: Result<Vec<Command>, Error>) -> Result<Seq<Command>, ErrorView> {
    match r {
        Ok(commands) => Ok(commands@),
        Err(error) => Err(error@),
    }
}

/// Reads the window `lo..hi` of `s` as a line number of a program of `len`
/// lines.
fn read_target(s: &Vec<char>, lo: usize, hi: usize, len: usize) -> (r: Result<usize, Fault>)
    requires
        lo <= hi <= s.len(),
    ensures
        r == match line_number(s@.subrange(lo as int, hi as int)) {
            Some(number) => target(number, len as nat),
            None => Err(Fault::InvalidFormat),
        },
{
    match parse_unsigned(s, lo, hi, usize::MAX as u64) {
        Some(number) => {
            if 1 <= number && number <= len as u64 {
                Ok((number - 1) as usize)
            } else {
                Err(Fault::InvalidLine)
            }
        },
        None => Err(Fault::InvalidFormat),
    }
}

/// Compiles one line of a program of `len` lines.
pub fn compile_one(line: &str, len: usize) -> (r: Result<Command, Fault>)
    ensures
        r == compile_line(line@, len as nat),
{
    let s = chars_of(line);
    let n: usize = s.len();
    if n == 0 {
        return Err(Fault::UndefinedCommand);
    }
    let first: char = s[0];
    if first == '!' {
        if n == 1 {
            return Ok(Command::End);
        } else {
            return Err(Fault::InvalidFormat);
        }
    }
    let marks: bool = first == 'v' || first == 'V';
    let erases: bool = first == 'x' || first == 'X';
    if !(marks || erases || first == '<' || first == '>' || first == '?') {
        return Err(Fault::UndefinedCommand);
    }
    if n > 1 && !is_whitespace(s[1]) {
        return Err(Fault::UndefinedCommand);
    }
    let ghost rest = line@.drop_first();
    proof {
        assert(rest =~= s@.subrange(1, n as int));
    }
    if first == '?' {
        let parts = split_words(&s, 1, n);
        if parts.len() != 2 {
            return Err(Fault::InvalidFormat);
        }
        proof {
            assert(parts@[0]@.subrange(0, parts@[0]@.len() as int) =~= parts@[0]@);
            assert(parts@[1]@.subrange(0, parts@[1]@.len() as int) =~= parts@[1]@);
        }
        let r1 = read_target(&parts[0], 0, parts[0].len(), len);
        let r2 = read_target(&parts[1], 0, parts[1].len(), len);
        match (r1, r2) {
            (Ok(t1), Ok(t2)) => Ok(Command::CheckOrGoto(t1, t2)),
            (Err(Fault::InvalidFormat), _) => Err(Fault::InvalidFormat),
            (_, Err(Fault::InvalidFormat)) => Err(Fault::InvalidFormat),
            _ => Err(Fault::InvalidLine),
        }
    } else {
        let (a, b) = trim_bounds(&s, 1, n);
        match read_target(&s, a, b, len) {
            Ok(t) => {
                if marks {
                    Ok(Command::MarkGoto(t))
                } else if erases {
                    Ok(Command::UnmarkGoto(t))
                } else if first == '<' {
                    Ok(Command::LeftGoto(t))
                } else {
                    Ok(Command::RightGoto(t))
                }
            },
            Err(fault) => Err(fault),
        }
    }
}

/// Compiles a program: one instruction for each line, or the error of the
/// first line that does not compile. The lines are not changed.
pub fn compile(lines: &Vec<String>) -> (r: Result<Vec<Command>, Error>)
    ensures
        compiled_view(r) == compile_program(texts(lines@)),
        r matches Ok(commands) ==> commands@.len() == lines@.len() && closed(commands@),
{
    proof {
        law_compiles_line_by_line(texts(lines@));
    }
    let n: usize = lines.len();
    let ghost t = texts(lines@);
    let mut commands: Vec<Command> = Vec::new();
    let mut i: usize = 0;
    while i < n
        invariant
            n == lines@.len(),
            t == texts(lines@),
            i <= n,
            compile_prefix(t, i as nat) == Ok::<Seq<Command>, ErrorView>(commands@),
        decreases n - i,
    {
        let line = &lines[i];
        proof {
            assert(t[i as int] == line@);
        }
        match compile_one(line.as_str(), n) {
            Ok(command) => {
                commands.push(command);
            },
            Err(fault) => {
                let error = match fault {
                    Fault::InvalidFormat => Error::InvalidFormat(i + 1),
                    Fault::InvalidLine => Error::InvalidLine(i + 1),
                    Fault::UndefinedCommand => Error::UndefinedCommand(i + 1, line.clone()),
                };
                proof {
                    assert(compile_prefix(t, (i + 1) as nat) == Err::<Seq<Command>, ErrorView>(
                        error@,
                    ));
                    lemma_error_stays(t, (i + 1) as nat, n as nat);
                }
                return Err(error);
            },
        }
        i += 1;
    }
    Ok(commands)
}

/// Once a prefix of a program has an error, every longer prefix has the
/// same one.
pub proof fn lemma_error_stays(lines: Seq<Seq<char>>, k: nat, m: nat)
    requires
        k <= m,
        compile_prefix(lines, k) is Err,
    ensures
        compile_prefix(lines, m) == compile_prefix(lines, k),
    decreases m,
{
    if k < m {
        lemma_error_stays(lines, k, (m - 1) as nat);
    }
}

/// A line that compiles in a program of `len` lines gives an instruction
/// whose targets are lines of that program.
pub proof fn lemma_line_targets(line: Seq<char>, len: nat)
    requires
        compile_line(line, len) is Ok,
    ensures
        compile_line(line, len)->Ok_0.targets_below(len),
{
}

/// The first `k` lines compile if and only if each of them does, and then
/// to one instruction for each line, in order.
pub proof fn lemma_prefix_compiles(lines: Seq<Seq<char>>, k: nat)
    requires
        k <= lines.len(),
    ensures
        compile_prefix(lines, k) is Ok <==> forall|i: int|
            0 <= i < k ==> (#[trigger] compile_line(lines[i], lines.len())) is Ok,
        compile_prefix(lines, k) matches Ok(commands) ==> {
            &&& commands.len() == k
            &&& forall|i: int|
                0 <= i < k ==> #[trigger] compile_line(lines[i], lines.len()) == Ok::<
                    Command,
                    Fault,
                >(commands[i])
        },
    decreases k,
{
    if k > 0 {
        lemma_prefix_compiles(lines, (k - 1) as nat);
        if compile_prefix(lines, (k - 1) as nat) is Err {
            assert(!(forall|i: int|
                0 <= i < k ==> (#[trigger] compile_line(lines[i], lines.len())) is Ok));
        } else if compile_line(lines[k - 1], lines.len()) is Err {
            assert(!(forall|i: int|
                0 <= i < k ==> (#[trigger] compile_line(lines[i], lines.len())) is Ok));
        }
    }
}

/// Compilation is all or nothing. A program compiles if and only if every
/// line of it does; it then has one instruction for each line, the one
/// that the line compiles to, and every target in it is a line of the
/// program.
pub proof fn law_compiles_line_by_line(lines: Seq<Seq<char>>)
    ensures
        compile_program(lines) is Ok <==> forall|i: int|
            0 <= i < lines.len() ==> (#[trigger] compile_line(lines[i], lines.len())) is Ok,
        compile_program(lines) matches Ok(commands) ==> {
            &&& commands.len() == lines.len()
            &&& closed(commands)
            &&& forall|i: int|
                0 <= i < lines.len() ==> #[trigger] compile_line(lines[i], lines.len()) == Ok::<
                    Command,
                    Fault,
                >(commands[i])
        },
{
    lemma_prefix_compiles(lines, lines.len());
    if let Ok(commands) = compile_program(lines) {
        assert forall|i: int| 0 <= i < commands.len() implies (#[trigger] commands[i]).targets_below(
            commands.len(),
        ) by {
            assert(compile_line(lines[i], lines.len()) == Ok::<Command, Fault>(commands[i]));
            lemma_line_targets(lines[i], lines.len());
        }
    }
}

/// The compiler reports the first line that does not compile: where the
/// line with the index `i` has a fault and every line before it compiles,
/// the program's error is that fault, at the line number `i + 1`.
pub proof fn law_first_fault_reported(lines: Seq<Seq<char>>, i: int)
    requires
        0 <= i < lines.len(),
        compile_line(lines[i], lines.len()) is Err,
        forall|j: int| 0 <= j < i ==> (#[trigger] compile_line(lines[j], lines.len())) is Ok,
    ensures
        compile_program(lines) == Err::<Seq<Command>, ErrorView>(
            error_at(compile_line(lines[i], lines.len())->Err_0, (i + 1) as nat, lines[i]),
        ),
{
    lemma_prefix_compiles(lines, i as nat);
    assert(compile_prefix(lines, (i + 1) as nat) is Err);
    lemma_error_stays(lines, (i + 1) as nat, lines.len());
}

/// The compiler is a function of the text: whatever it returns for two
/// programs with the same text has the same value.
pub proof fn law_same_text_same_result(
    a: Seq<String>,
    b: Seq<String>,
    ra: Result<Vec<Command>, Error>,
    rb: Result<Vec<Command>, Error>,
)
    requires
        texts(a) == texts(b),
        compiled_view(ra) == compile_program(texts(a)),
        compiled_view(rb) == compile_program(texts(b)),
    ensures
        compiled_view(ra) == compiled_view(rb),
{
}

/// `!` takes nothing: a line that starts with `!` and goes on, with
/// whatever character, has the wrong format.
pub proof fn law_end_stands_alone(line: Seq<char>, len: nat)
    requires
        line.len() > 1,
        line[0] == '!',
    ensures
        compile_line(line, len) == Err::<Command, Fault>(Fault::InvalidFormat),
{
}

/// `?` takes exactly two arguments: with fewer or more words after it, the
/// line has the wrong format.
pub proof fn law_branch_takes_two(line: Seq<char>, len: nat)
    requires
        line.len() > 0,
        line[0] == '?',
        line.len() > 1 ==> is_space(line[1]),
        words(line.drop_first()).len() != 2,
    ensures
        compile_line(line, len) == Err::<Command, Fault>(Fault::InvalidFormat),
{
}

/// A jump out of the program is an invalid line: where the argument of one
/// of `v`, `x`, `<` and `>` is a number that is no line of the program,
/// such as the one after its last line.
pub proof fn law_target_outside(line: Seq<char>, len: nat, number: nat)
    requires
        line.len() > 0,
        goto_command(line[0], 0) is Some,
        line.len() > 1 ==> is_space(line[1]),
        line_number(trim(line.drop_first())) == Some(number),
        number == 0 || number > len,
    ensures
        compile_line(line, len) == Err::<Command, Fault>(Fault::InvalidLine),
{
}

/// A branch out of the program is an invalid line: where both arguments of
/// `?` are numbers and one of them is no line of the program.
pub proof fn law_branch_outside(line: Seq<char>, len: nat, n1: nat, n2: nat)
    requires
        line.len() > 0,
        line[0] == '?',
        line.len() > 1 ==> is_space(line[1]),
        words(line.drop_first()).len() == 2,
        line_number(words(line.drop_first())[0]) == Some(n1),
        line_number(words(line.drop_first())[1]) == Some(n2),
        n1 == 0 || n1 > len || n2 == 0 || n2 > len,
    ensures
        compile_line(line, len) == Err::<Command, Fault>(Fault::InvalidLine),
{
}

} // verus!
