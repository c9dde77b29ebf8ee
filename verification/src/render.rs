//! The screen: the tape around the cursor as a table, the notice, the
//! program with its line numbers, and the error of the last input.
//!
//! The machine draws nothing itself: it makes the text, and whoever drives
//! it prints the text.

use vstd::prelude::*;
use vstd::string::StringExecFns;
use crate::compiler::texts;
use crate::error::error_text;
use crate::machine::PostMachine;
use crate::message::message_text;
use crate::session::Session;
use crate::tape::symbol_at;
use crate::text::{decimal, push_decimal, push_signed_decimal, signed_decimal};

verus! {

/// The number of cells that are shown on each side of the cursor.
pub const REACH: i64 = 8;

/// `text` in red, for a terminal: the escape sequence that sets the
/// foreground to red, the text, and the sequence that resets the style.
pub open spec fn red(text: Seq<char>) -> Seq<char> {
    "\x1B[31m"@ + text + "\x1B[0m"@
}

/// The text of the table with the two rows `header` and `row`, drawn with
/// lines around every cell and with the header in green.
pub uninterp spec fn table_text(header: Seq<Seq<char>>, row: Seq<Seq<char>>) -> Seq<char>;

/// Calls `ansi_term::Colour::Red.paint(text).to_string()`. The crate writes
/// the prefix of the style, which for a plain red foreground is `ESC [ 31 m`,
/// then the text as it is, then the reset `ESC [ 0 m`.
#[verifier::external_body]
fn paint_red(text: &str) -> (r: String)
    ensures
        r@ == red(text@),
{
    ansi_term::Colour::Red.paint(text).to_string()
}

/// Builds a table of two rows with `tabled::builder::Builder`, gives it
/// `Style::modern()` and `Color::FG_GREEN` on `Rows::first()`, and returns
/// `Table::to_string()`. The text depends on the cells of the two rows and
/// on nothing else; what it is, is left to the crate.
#[verifier::external_body]
fn draw_table(header: &Vec<String>, row: &Vec<String>) -> (r: String)
    ensures
        r@ == table_text(texts(header@), texts(row@)),
{
    let mut builder = tabled::builder::Builder::default();
    builder.push_record(header.clone());
    builder.push_record(row.clone());
    let mut table = builder.build();
    table.with(tabled::settings::Style::modern());
    let first = tabled::settings::Modify::new(tabled::settings::object::Rows::first());
    table.with(first.with(tabled::settings::Color::FG_GREEN));
    table.to_string()
}

/// The header of the table of the tape: the positions from `REACH` cells
/// left of the cursor to `REACH` cells right of it.
pub open spec fn header(cursor: int) -> Seq<Seq<char>> {
    Seq::new((2 * REACH + 1) as nat, |i: int| signed_decimal(cursor - REACH + i))
}

/// The cell of the table for the position `p`: its symbol, between a red
/// `>` and a red `<` where the cursor is on it.
pub open spec fn cell(cells: Map<int, u8>, cursor: int, p: int) -> Seq<char> {
    if p == cursor {
        red(">"@) + decimal(symbol_at(cells, p) as nat) + red("<"@)
    } else {
        decimal(symbol_at(cells, p) as nat)
    }
}

/// The row of the table of the tape under its header.
pub open spec fn row(cells: Map<int, u8>, cursor: int) -> Seq<Seq<char>> {
    Seq::new((2 * REACH + 1) as nat, |i: int| cell(cells, cursor, cursor - REACH + i))
}

/// The line of the listing for the line of the program with the index `i`
/// and the text `line`: a `>` where the line is the one at `pointer`, the
/// line number, and the text.
pub open spec fn listing_line(i: nat, line: Seq<char>, pointer: nat) -> Seq<char> {
    (if i == pointer {
        "> "@
    } else {
        "  "@
    }) + decimal(i + 1) + " | "@ + line + "\n"@
}

/// The listing of the first `k` lines of a program.
pub open spec fn listing(lines: Seq<Seq<char>>, pointer: nat, k: nat) -> Seq<char>
    decreases k,
{
    if k == 0 {
        Seq::empty()
    } else {
        listing(lines, pointer, (k - 1) as nat) + listing_line(
            (k - 1) as nat,
            lines[k - 1],
            pointer,
        )
    }
}

/// `text` and a line break, or nothing where there is no text.
pub open spec fn line_or_nothing(text: Option<Seq<char>>) -> Seq<char> {
    match text {
        Some(t) => t + "\n"@,
        None => Seq::empty(),
    }
}

/// The words of the notice of a machine, if it has one.
pub open spec fn notice(s: Session) -> Option<Seq<char>> {
    match s.message {
        Some(m) => Some(message_text(m)),
        None => None,
    }
}

/// The words of the error of a machine, if it has one.
pub open spec fn complaint(s: Session) -> Option<Seq<char>> {
    match s.error {
        Some(e) => Some(error_text(e)),
        None => None,
    }
}

/// The screen of a machine, with the line at `pointer` pointed out in the
/// listing: the sequence that clears the terminal, an empty line, the
/// table of the tape, the notice, an empty line, the listing, an empty
/// line, and the error.
pub open spec fn screen_text(s: Session, pointer: nat) -> Seq<char> {
    "\x1B[2J\x1B[1;1H"@ + "\n"@ + table_text(header(s.cursor), row(s.cells, s.cursor)) + "\n"@
        + line_or_nothing(notice(s)) + "\n"@ + listing(s.lines, pointer, s.lines.len()) + "\n"@
        + line_or_nothing(complaint(s))
}

impl PostMachine {
    /// Whether the cells around the cursor all have positions that an
    /// `i64` holds.
    pub open spec fn showable(&self) -> bool {
        i64::MIN + REACH <= self.tape.cursor() <= i64::MAX - REACH
    }

    /// Tests whether the cells around the cursor all have positions that
    /// an `i64` holds.
    pub fn can_show(&self) -> (b: bool)
        ensures
            b == self.showable(),
    {
        let at: i64 = self.tape.position();
        i64::MIN + REACH <= at && at <= i64::MAX - REACH
    }

    /// The two rows of the table of the tape: the positions around the
    /// cursor, and the symbols at them.
    pub fn window(&self) -> (r: (Vec<String>, Vec<String>))
        requires
            self.showable(),
        ensures
            texts(r.0@) == header(self.tape.cursor()),
            texts(r.1@) == row(self.tape.cells(), self.tape.cursor()),
    {
        let at: i64 = self.tape.position();
        let mut positions: Vec<String> = Vec::new();
        let mut symbols: Vec<String> = Vec::new();
        let mut i: i64 = 0;
        while i <= 2 * REACH
            invariant
                0 <= i <= 2 * REACH + 1,
                at == self.tape.cursor(),
                self.showable(),
                positions@.len() == i,
                symbols@.len() == i,
                forall|j: int|
                    0 <= j < i ==> (#[trigger] positions@[j])@ == signed_decimal(at - REACH + j),
                forall|j: int|
                    0 <= j < i ==> (#[trigger] symbols@[j])@ == cell(
                        self.tape.cells(),
                        at as int,
                        at - REACH + j,
                    ),
            decreases 2 * REACH + 1 - i,
        {
            let p: i64 = at - REACH + i;
            let mut position = String::new();
            push_signed_decimal(&mut position, p);
            let mut symbol = String::new();
            if p == at {
                symbol.append(paint_red(">").as_str());
                push_decimal(&mut symbol, self.tape.read(p) as u64);
                symbol.append(paint_red("<").as_str());
            } else {
                push_decimal(&mut symbol, self.tape.read(p) as u64);
            }
            positions.push(position);
            symbols.push(symbol);
            i += 1;
        }
        proof {
            assert(texts(positions@) =~= header(self.tape.cursor()));
            assert(texts(symbols@) =~= row(self.tape.cells(), self.tape.cursor()));
        }
        (positions, symbols)
    }

    /// The listing of the program, with the line at `pointer` pointed out.
    pub fn listing(&self, pointer: usize) -> (r: String)
        ensures
            r@ == listing(self.program(), pointer as nat, self.program().len()),
    {
        let n: usize = self.buffer.cmds.len();
        let mut r = String::new();
        let mut i: usize = 0;
        while i < n
            invariant
                n == self.buffer.cmds@.len(),
                i <= n,
                r@ == listing(self.program(), pointer as nat, i as nat),
            decreases n - i,
        {
            let ghost before = r@;
            if i == pointer {
                r.append("> ");
            } else {
                r.append("  ");
            }
            push_decimal(&mut r, (i + 1) as u64);
            r.append(" | ");
            r.append(self.buffer.cmds[i].as_str());
            r.append("\n");
            proof {
                assert(self.program()[i as int] == self.buffer.cmds@[i as int]@);
                assert(r@ =~= before + listing_line(
                    i as nat,
                    self.program()[i as int],
                    pointer as nat,
                ));
            }
            i += 1;
        }
        r
    }

    /// The text of the screen, with the line at `pointer` pointed out in
    /// the listing.
    pub fn screen_at(&self, pointer: usize) -> (r: String)
        requires
            self.showable(),
        ensures
            r@ == screen_text(self@, pointer as nat),
    {
        let (positions, symbols) = self.window();
        let mut r = "\x1B[2J\x1B[1;1H".to_owned();
        r.append("\n");
        r.append(draw_table(&positions, &symbols).as_str());
        r.append("\n");
        match &self.message {
            Some(m) => {
                r.append(m.text().as_str());
                r.append("\n");
            },
            None => {},
        }
        r.append("\n");
        r.append(self.listing(pointer).as_str());
        r.append("\n");
        match &self.prev_error {
            Some(e) => {
                r.append(e.text().as_str());
                r.append("\n");
            },
            None => {},
        }
        proof {
            assert(r@ =~= screen_text(self@, pointer as nat));
        }
        r
    }

    /// The text of the screen, with the line under the instruction pointer
    /// pointed out in the listing.
    pub fn screen(&self) -> (r: String)
        requires
            self.showable(),
        ensures
            r@ == screen_text(self@, self@.pointer),
    {
        self.screen_at(self.buffer.cur)
    }
}

} // verus!
