//! Terminal output as a sequence of operations, a model of what a terminal does
//! with them, and their encoding as the escape sequences that are sent.

use vstd::prelude::*;

verus! {

/// One operation of terminal output.
#[derive(Debug, PartialEq, Eq)]
pub enum TermOp {
    /// Print a text at the cursor.
    Text(String),
    /// Move the cursor one row down, in the same column.
    LineFeed,
    /// Move the cursor to the first column of its row.
    CarriageReturn,
    /// Move the cursor up by a number of rows.
    CursorUp(u16),
    /// Move the cursor right by a number of columns.
    CursorRight(u16),
    /// Move the cursor left by a number of columns.
    CursorLeft(u16),
    /// Stop showing the cursor.
    HideCursor,
    /// Show the cursor again.
    ShowCursor,
    /// Erase everything from the cursor to the end of the screen.
    ClearAfterCursor,
    /// Print what follows in white.
    FgWhite,
    /// Print what follows in the default colour.
    FgReset,
}

/// What a [`TermOp`] stands for, over mathematical values.
pub enum Op {
    Text(Seq<char>),
    LineFeed,
    CarriageReturn,
    Up(nat),
    Right(nat),
    Left(nat),
    Hide,
    Show,
    ClearAfter,
    FgWhite,
    FgReset,
}

impl View for TermOp {
    type V = Op;

    open spec fn view(&self) -> Op {
        match *self {
            TermOp::Text(s) => Op::Text(s@),
            TermOp::LineFeed => Op::LineFeed,
            TermOp::CarriageReturn => Op::CarriageReturn,
            TermOp::CursorUp(n) => Op::Up(n as nat),
            TermOp::CursorRight(n) => Op::Right(n as nat),
            TermOp::CursorLeft(n) => Op::Left(n as nat),
            TermOp::HideCursor => Op::Hide,
            TermOp::ShowCursor => Op::Show,
            TermOp::ClearAfterCursor => Op::ClearAfter,
            TermOp::FgWhite => Op::FgWhite,
            TermOp::FgReset => Op::FgReset,
        }
    }
}

/// The operations that a list of [`TermOp`] stands for.
pub open spec fn ops_view(ops: Seq<TermOp>) -> Seq<Op> {
    ops.map_values(|op: TermOp| op@)
}

/// The distance that a cursor movement with parameter `n` covers: a parameter
/// of zero moves by one, as every other does by itself.
pub open spec fn distance(n: nat) -> int {
    if n == 0 {
        1
    } else {
        n as int
    }
}

/// A terminal screen, as far as the operations above change it.
///
/// The model is an unbounded grid of cells: it has no edges, so nothing wraps,
/// scrolls or stops at a border, and every character fills exactly one cell.
/// Rows grow downward.
pub struct Screen {
    /// The cursor's row.
    pub row: int,
    /// The cursor's column.
    pub col: int,
    /// Whether the cursor is shown.
    pub cursor_shown: bool,
    /// Whether text is printed in white, not in the default colour.
    pub white: bool,
    /// The characters on the screen, by (row, column); a cell that is not in
    /// the map is blank.
    pub cells: Map<(int, int), char>,
}

impl Screen {
    /// Whether the screen is one that a terminal can be in: the cursor and
    /// every character stand in a column that exists, the first or a later
    /// one.
    pub open spec fn wf(self) -> bool {
        &&& self.col >= 0
        &&& forall|cell: (int, int)| self.cells.dom().contains(cell) ==> cell.1 >= 0
    }

    /// Whether the cell `(row, col)` comes at or after the cursor in reading
    /// order, which is what [`Op::ClearAfter`] erases.
    pub open spec fn at_or_after_cursor(self, cell: (int, int)) -> bool {
        cell.0 > self.row || (cell.0 == self.row && cell.1 >= self.col)
    }

    /// Whether printing `text` at the cursor writes the cell.
    pub open spec fn printed(self, text: Seq<char>, cell: (int, int)) -> bool {
        cell.0 == self.row && self.col <= cell.1 < self.col + text.len()
    }

    /// The screen after one operation.
    pub open spec fn step(self, op: Op) -> Screen {
        match op {
            Op::Text(text) => Screen {
                col: self.col + text.len(),
                cells: Map::new(
                    |cell: (int, int)| self.cells.dom().contains(cell) || self.printed(text, cell),
                    |cell: (int, int)|
                        if self.printed(text, cell) {
                            text[cell.1 - self.col]
                        } else {
                            self.cells[cell]
                        },
                ),
                ..self
            },
            Op::LineFeed => Screen { row: self.row + 1, ..self },
            Op::CarriageReturn => Screen { col: 0, ..self },
            Op::Up(n) => Screen { row: self.row - distance(n), ..self },
            Op::Right(n) => Screen { col: self.col + distance(n), ..self },
            Op::Left(n) => Screen {
                col: if self.col - distance(n) < 0 {
                    0
                } else {
                    self.col - distance(n)
                },
                ..self
            },
            Op::Hide => Screen { cursor_shown: false, ..self },
            Op::Show => Screen { cursor_shown: true, ..self },
            Op::ClearAfter => Screen {
                cells: Map::new(
                    |cell: (int, int)|
                        self.cells.dom().contains(cell) && !self.at_or_after_cursor(cell),
                    |cell: (int, int)| self.cells[cell],
                ),
                ..self
            },
            Op::FgWhite => Screen { white: true, ..self },
            Op::FgReset => Screen { white: false, ..self },
        }
    }

    /// The screen after a sequence of operations, first to last.
    pub open spec fn run(self, ops: Seq<Op>) -> Screen
        decreases ops.len(),
    {
        if ops.len() == 0 {
            self
        } else {
            self.run(ops.drop_last()).step(ops.last())
        }
    }

    /// No operation leads out of the screens that a terminal can be in.
    pub proof fn lemma_step_wf(self, op: Op)
        requires
            self.wf(),
        ensures
            self.step(op).wf(),
    {
    }

    /// No sequence of operations leads out of the screens that a terminal can
    /// be in.
    pub proof fn lemma_run_wf(self, ops: Seq<Op>)
        requires
            self.wf(),
        ensures
            self.run(ops).wf(),
        decreases ops.len(),
    {
        if ops.len() > 0 {
            self.lemma_run_wf(ops.drop_last());
            self.run(ops.drop_last()).lemma_step_wf(ops.last());
        }
    }

    /// Running two sequences one after the other is running their
    /// concatenation.
    pub proof fn lemma_run_concat(self, first: Seq<Op>, second: Seq<Op>)
        ensures
            self.run(first + second) == self.run(first).run(second),
        decreases second.len(),
    {
        if second.len() == 0 {
            assert(first + second =~= first);
        } else {
            assert((first + second).drop_last() =~= first + second.drop_last());
            self.lemma_run_concat(first, second.drop_last());
        }
    }

    /// Running a sequence that ends in `op` is running what comes before it
    /// and then `op`.
    pub proof fn lemma_run_push(self, ops: Seq<Op>, op: Op)
        ensures
            self.run(ops.push(op)) == self.run(ops).step(op),
    {
        assert(ops.push(op).drop_last() =~= ops);
    }
}

/// Appends one operation to a list of output.
pub fn emit(out: &mut Vec<TermOp>, op: TermOp)
    ensures
        ops_view(final(out)@) == ops_view(old(out)@).push(op@),
{
    out.push(op);
    assert(ops_view(out@) =~= ops_view(old(out)@).push(op@));
}

/// The control sequence introducer: escape, then an opening square bracket.
pub open spec fn csi() -> Seq<char> {
    seq!['\u{1b}', '[']
}

/// The decimal digit for `d`, which is below ten.
pub open spec fn digit(d: nat) -> char {
    seq!['0', '1', '2', '3', '4', '5', '6', '7', '8', '9'][d as int]
}

/// A number in decimal, without leading zeros.
pub open spec fn decimal(n: nat) -> Seq<char>
    decreases n,
{
    if n < 10 {
        seq![digit(n)]
    } else {
        decimal(n / 10).push(digit(n % 10))
    }
}

/// The escape sequence of a cursor movement: the introducer, the count in
/// decimal, and the letter of the direction.
pub open spec fn move_code(n: nat, direction: char) -> Seq<char> {
    csi() + decimal(n) + seq![direction]
}

/// The characters that are sent to the terminal for one operation.
pub open spec fn code_of(op: Op) -> Seq<char> {
    match op {
        Op::Text(text) => text,
        Op::LineFeed => seq!['\n'],
        Op::CarriageReturn => seq!['\r'],
        Op::Up(n) => move_code(n, 'A'),
        Op::Right(n) => move_code(n, 'C'),
        Op::Left(n) => move_code(n, 'D'),
        Op::Hide => csi() + seq!['?', '2', '5', 'l'],
        Op::Show => csi() + seq!['?', '2', '5', 'h'],
        Op::ClearAfter => csi() + seq!['J'],
        Op::FgWhite => csi() + seq!['3', '8', ';', '5', ';', '7', 'm'],
        Op::FgReset => csi() + seq!['3', '9', 'm'],
    }
}

/// The characters that are sent for a sequence of operations: the codes of
/// each, in order.
pub open spec fn encoding(ops: Seq<Op>) -> Seq<char>
    decreases ops.len(),
{
    if ops.len() == 0 {
        Seq::empty()
    } else {
        encoding(ops.drop_last()) + code_of(ops.last())
    }
}

/// Formats `termion::cursor::Up`, which writes the introducer, the count in
/// decimal and the letter `A`.
#[verifier::external_body]
fn cursor_up_code(n: u16) -> (code: String)
    ensures
        code@ == move_code(n as nat, 'A'),
{
    termion::cursor::Up(n).to_string()
}

/// Formats `termion::cursor::Right`, which writes the introducer, the count in
/// decimal and the letter `C`.
#[verifier::external_body]
fn cursor_right_code(n: u16) -> (code: String)
    ensures
        code@ == move_code(n as nat, 'C'),
{
    termion::cursor::Right(n).to_string()
}

/// Formats `termion::cursor::Left`, which writes the introducer, the count in
/// decimal and the letter `D`.
#[verifier::external_body]
fn cursor_left_code(n: u16) -> (code: String)
    ensures
        code@ == move_code(n as nat, 'D'),
{
    termion::cursor::Left(n).to_string()
}

/// Formats `termion::cursor::Hide`, whose sequence is the introducer and `?25l`.
#[verifier::external_body]
fn cursor_hide_code() -> (code: String)
    ensures
        code@ == code_of(Op::Hide),
{
    termion::cursor::Hide.to_string()
}

/// Formats `termion::cursor::Show`, whose sequence is the introducer and `?25h`.
#[verifier::external_body]
fn cursor_show_code() -> (code: String)
    ensures
        code@ == code_of(Op::Show),
{
    termion::cursor::Show.to_string()
}

/// Formats `termion::clear::AfterCursor`, whose sequence is the introducer and
/// `J`.
#[verifier::external_body]
fn clear_after_cursor_code() -> (code: String)
    ensures
        code@ == code_of(Op::ClearAfter),
{
    termion::clear::AfterCursor.to_string()
}

/// Formats `termion::color::Fg` of `termion::color::White`, whose sequence is
/// the introducer and `38;5;7m`.
#[verifier::external_body]
fn fg_white_code() -> (code: String)
    ensures
        code@ == code_of(Op::FgWhite),
{
    termion::color::Fg(termion::color::White).to_string()
}

/// Formats `termion::color::Fg` of `termion::color::Reset`, whose sequence is
/// the introducer and `39m`.
#[verifier::external_body]
fn fg_reset_code() -> (code: String)
    ensures
        code@ == code_of(Op::FgReset),
{
    termion::color::Fg(termion::color::Reset).to_string()
}

/// Appends to `out` the characters that are sent for one operation.
pub fn encode_op(op: &TermOp, out: &mut String)
    ensures
        final(out)@ == old(out)@ + code_of(op@),
{
    match op {
        TermOp::Text(text) => {
            out.append(text.as_str());
        },
        TermOp::LineFeed => {
            out.push('\n');
        },
        TermOp::CarriageReturn => {
            out.push('\r');
        },
        TermOp::CursorUp(n) => {
            out.append(cursor_up_code(*n).as_str());
        },
        TermOp::CursorRight(n) => {
            out.append(cursor_right_code(*n).as_str());
        },
        TermOp::CursorLeft(n) => {
            out.append(cursor_left_code(*n).as_str());
        },
        TermOp::HideCursor => {
            out.append(cursor_hide_code().as_str());
        },
        TermOp::ShowCursor => {
            out.append(cursor_show_code().as_str());
        },
        TermOp::ClearAfterCursor => {
            out.append(clear_after_cursor_code().as_str());
        },
        TermOp::FgWhite => {
            out.append(fg_white_code().as_str());
        },
        TermOp::FgReset => {
            out.append(fg_reset_code().as_str());
        },
    }
}

/// The characters that are sent to the terminal for a list of operations.
pub fn encode(ops: &Vec<TermOp>) -> (sent: String)
    ensures
        sent@ == encoding(ops_view(ops@)),
{
    let mut sent = String::new();
    let mut i: usize = 0;
    while i < ops.len()
        invariant
            i <= ops.len(),
            sent@ == encoding(ops_view(ops@).take(i as int)),
        decreases ops.len() - i,
    {
        encode_op(&ops[i], &mut sent);
        proof {
            let all = ops_view(ops@);
            assert(all.take(i + 1).drop_last() =~= all.take(i as int));
            assert(all.take(i + 1).last() == ops@[i as int]@);
        }
        i += 1;
    }
    assert(ops_view(ops@).take(ops.len() as int) =~= ops_view(ops@));
    sent
}

} // verus!
