//! The render controller: the prompt, the echo of typed text, and the region
//! of results below the input row, drawn so that the cursor always returns to
//! the end of the typed text.

use crate::note::Note;
use crate::terminal::{emit, ops_view, Op, Screen, TermOp};
use vstd::prelude::*;
use vstd::string::*;

verus! {

/// The number of columns that the prompt takes.
pub const PROMPT_WIDTH: usize = 2;

/// The prompt: a greater-than sign and a space.
pub open spec fn prompt() -> Seq<char> {
    seq!['>', ' ']
}

/// The prompt takes as many columns as it has characters.
pub proof fn lemma_prompt_width()
    ensures
        prompt().len() == PROMPT_WIDTH,
{
}

/// The line shown in place of results when no note matches: an edit will make
/// a new note.
pub open spec fn new_note_label() -> Seq<char> {
    seq!['*', 'n', 'e', 'w', ' ', 'n', 'o', 't', 'e', '*']
}

/// From the input row to the start of the row below it, with the cursor
/// hidden and everything from there on erased.
pub open spec fn to_output_ops() -> Seq<Op> {
    seq![Op::Hide, Op::CarriageReturn, Op::LineFeed, Op::ClearAfter]
}

/// From the start of the row below the input row back to the given column of
/// the input row, with the cursor shown again.
pub open spec fn to_input_ops(column: nat) -> Seq<Op> {
    seq![Op::Right(column), Op::Up(1), Op::Show]
}

/// The row of one result. The first result has its title, and on the next row
/// its preview in white; every later result has a row of its own with its
/// title. The cursor ends at the start of the last row written.
pub open spec fn note_ops(note: Note, width: nat, first: bool) -> Seq<Op> {
    if first {
        seq![
            Op::Text(note@.name),
            Op::CarriageReturn,
            Op::LineFeed,
            Op::FgWhite,
            Op::Text(note@.preview(width)),
            Op::FgReset,
            Op::CarriageReturn,
        ]
    } else {
        seq![Op::LineFeed, Op::Text(note@.name), Op::CarriageReturn]
    }
}

/// The rows of all results, first to last.
pub open spec fn notes_ops(notes: Seq<Note>, width: nat) -> Seq<Op>
    decreases notes.len(),
{
    if notes.len() == 0 {
        Seq::empty()
    } else {
        notes_ops(notes.drop_last(), width) + note_ops(notes.last(), width, notes.len() == 1)
    }
}

/// The rows of all results, and the way back up to the row of the first.
pub open spec fn show_notes_ops(notes: Seq<Note>, width: nat) -> Seq<Op> {
    if notes.len() == 0 {
        Seq::empty()
    } else {
        notes_ops(notes, width).push(Op::Up(notes.len()))
    }
}

/// The line that stands for "no note matches", in white.
pub open spec fn new_note_ops() -> Seq<Op> {
    seq![Op::FgWhite, Op::Text(new_note_label()), Op::FgReset, Op::CarriageReturn]
}

/// The whole redraw of the region of results for a query of `query_len`
/// characters.
pub open spec fn redraw_ops(results: Seq<Note>, query_len: nat, width: nat) -> Seq<Op> {
    to_output_ops() + (if results.len() == 0 {
        new_note_ops()
    } else {
        show_notes_ops(results, width)
    }) + to_input_ops(PROMPT_WIDTH as nat + query_len)
}

/// Writes the prompt.
pub fn show_prompt(out: &mut Vec<TermOp>)
    ensures
        ops_view(final(out)@) == ops_view(old(out)@).push(Op::Text(prompt())),
{
    proof {
        reveal_strlit("> ");
    }
    let text = String::from_str("> ");
    assert(text@ =~= prompt());
    emit(out, TermOp::Text(text));
}

/// Echoes a typed character at the cursor.
pub fn echo_insert(c: char, out: &mut Vec<TermOp>)
    ensures
        ops_view(final(out)@) == ops_view(old(out)@) + seq![Op::Text(seq![c])],
{
    let mut text = String::new();
    text.push(c);
    assert(text@ =~= seq![c]);
    emit(out, TermOp::Text(text));
    assert(ops_view(old(out)@).push(Op::Text(seq![c])) =~= ops_view(old(out)@) + seq![
        Op::Text(seq![c]),
    ]);
}

/// Erases the character before the cursor: steps one cell back and clears
/// from there.
pub fn echo_delete(out: &mut Vec<TermOp>)
    ensures
        ops_view(final(out)@) == ops_view(old(out)@) + seq![Op::Left(1), Op::ClearAfter],
{
    emit(out, TermOp::CursorLeft(1));
    emit(out, TermOp::ClearAfterCursor);
    assert(ops_view(old(out)@).push(Op::Left(1)).push(Op::ClearAfter) =~= ops_view(old(out)@)
        + seq![Op::Left(1), Op::ClearAfter]);
}

/// Moves from the input row to the start of the row below, hides the cursor
/// and erases everything from there to the end of the screen.
pub fn cursor_to_output(out: &mut Vec<TermOp>)
    ensures
        ops_view(final(out)@) == ops_view(old(out)@) + to_output_ops(),
{
    emit(out, TermOp::HideCursor);
    emit(out, TermOp::CarriageReturn);
    emit(out, TermOp::LineFeed);
    emit(out, TermOp::ClearAfterCursor);
    assert(ops_view(out@) =~= ops_view(old(out)@) + to_output_ops());
}

/// Moves from the start of the row below the input row back to the text entry
/// point, `curpos` characters after the prompt, and shows the cursor.
pub fn cursor_to_input(out: &mut Vec<TermOp>, curpos: usize)
    requires
        PROMPT_WIDTH + curpos <= u16::MAX,
    ensures
        ops_view(final(out)@) == ops_view(old(out)@) + to_input_ops(
            PROMPT_WIDTH as nat + curpos as nat,
        ),
{
    let posx: u16 = (PROMPT_WIDTH + curpos) as u16;
    emit(out, TermOp::CursorRight(posx));
    emit(out, TermOp::CursorUp(1));
    emit(out, TermOp::ShowCursor);
    assert(ops_view(out@) =~= ops_view(old(out)@) + to_input_ops(
        PROMPT_WIDTH as nat + curpos as nat,
    ));
}

/// Writes the rows of one result.
fn show_note(note: &Note, width: usize, first: bool, out: &mut Vec<TermOp>)
    ensures
        ops_view(final(out)@) == ops_view(old(out)@) + note_ops(*note, width as nat, first),
{
    if !first {
        emit(out, TermOp::LineFeed);
    }
    emit(out, TermOp::Text(note.name().to_owned()));
    emit(out, TermOp::CarriageReturn);
    if first {
        emit(out, TermOp::LineFeed);
        emit(out, TermOp::FgWhite);
        emit(out, TermOp::Text(note.preview(width)));
        emit(out, TermOp::FgReset);
        emit(out, TermOp::CarriageReturn);
    }
    assert(ops_view(out@) =~= ops_view(old(out)@) + note_ops(*note, width as nat, first));
}

/// Shows the results: each note's title on a row of its own, and below the
/// first title a preview of that note's contents, wrapped at `width` columns
/// and cut after its first line. The cursor must stand at the start of the
/// first row to write; it is returned there.
pub fn show_notes(notes: &Vec<&Note>, width: usize, out: &mut Vec<TermOp>)
    requires
        notes.len() <= u16::MAX,
    ensures
        ops_view(final(out)@) == ops_view(old(out)@) + show_notes_ops(
            notes@.unref(),
            width as nat,
        ),
{
    let mut lines: u16 = 0;
    let mut count: usize = 0;
    while count < notes.len()
        invariant
            count <= notes.len() <= u16::MAX,
            lines == count,
            ops_view(out@) == ops_view(old(out)@) + notes_ops(
                notes@.unref().take(count as int),
                width as nat,
            ),
        decreases notes.len() - count,
    {
        show_note(notes[count], width, count == 0, out);
        lines = lines + 1;
        proof {
            let all = notes@.unref();
            assert(all.take(count + 1).drop_last() =~= all.take(count as int));
            assert(all.take(count + 1).last() == *notes@[count as int]);
            assert(ops_view(out@) =~= ops_view(old(out)@) + notes_ops(
                all.take(count + 1),
                width as nat,
            ));
        }
        count += 1;
    }
    assert(notes@.unref().take(count as int) =~= notes@.unref());
    if lines >= 1 {
        emit(out, TermOp::CursorUp(lines));
    }
    assert(ops_view(out@) =~= ops_view(old(out)@) + show_notes_ops(notes@.unref(), width as nat));
}

/// Shows, in place of results, that an edit will make a new note.
pub fn show_new_note(out: &mut Vec<TermOp>)
    ensures
        ops_view(final(out)@) == ops_view(old(out)@) + new_note_ops(),
{
    proof {
        reveal_strlit("*new note*");
    }
    let label = String::from_str("*new note*");
    assert(label@ =~= new_note_label());
    emit(out, TermOp::FgWhite);
    emit(out, TermOp::Text(label));
    emit(out, TermOp::FgReset);
    emit(out, TermOp::CarriageReturn);
    assert(ops_view(out@) =~= ops_view(old(out)@) + new_note_ops());
}

/// Redraws the region of results below the input row for the query as it now
/// stands, and puts the cursor back behind the typed text.
///
/// In this order: to the start of the row below the input row, with the
/// cursor hidden; everything from there on erased; the results, or the line
/// that stands for none; back up to the input row and right to the column
/// after the prompt and the `query_len` typed characters; the cursor shown.
pub fn redraw_results(results: &Vec<&Note>, query_len: usize, width: usize, out: &mut Vec<TermOp>)
    requires
        results.len() <= u16::MAX,
        PROMPT_WIDTH + query_len <= u16::MAX,
    ensures
        ops_view(final(out)@) == ops_view(old(out)@) + redraw_ops(
            results@.unref(),
            query_len as nat,
            width as nat,
        ),
{
    cursor_to_output(out);
    if results.len() > 0 {
        show_notes(results, width, out);
    } else {
        show_new_note(out);
    }
    cursor_to_input(out, query_len);
    assert(ops_view(out@) =~= ops_view(old(out)@) + redraw_ops(
        results@.unref(),
        query_len as nat,
        width as nat,
    ));
}

/// The rows of the region of results: the title of the first result, its
/// preview, and the titles of the other results; or, without results, the one
/// line that stands for none.
pub open spec fn result_rows(results: Seq<Note>, width: nat) -> Seq<Seq<char>> {
    if results.len() == 0 {
        seq![new_note_label()]
    } else {
        Seq::new(
            results.len() + 1,
            |j: int|
                if j == 0 {
                    results[0]@.name
                } else if j == 1 {
                    results[0]@.preview(width)
                } else {
                    results[j - 1]@.name
                },
        )
    }
}

/// Whether `cell` is a cell of the block of `rows` that starts in the first
/// column of row `top`.
pub open spec fn in_rows(rows: Seq<Seq<char>>, top: int, cell: (int, int)) -> bool {
    0 <= cell.0 - top < rows.len() && 0 <= cell.1 < rows[cell.0 - top].len()
}

/// The cells of a screen that shows, down to row `above`, what `cells` shows
/// there, and below that row the given rows and nothing else.
pub open spec fn with_rows_below(cells: Map<(int, int), char>, above: int, rows: Seq<Seq<char>>)
    -> Map<(int, int), char> {
    Map::new(
        |cell: (int, int)|
            if cell.0 <= above {
                cells.dom().contains(cell)
            } else {
                in_rows(rows, above + 1, cell)
            },
        |cell: (int, int)|
            if cell.0 <= above {
                cells[cell]
            } else {
                rows[cell.0 - above - 1][cell.1]
            },
    )
}

/// The screen after a redraw that started on `screen`: the cursor stands on
/// the row where it stood, behind the prompt and the typed text, and is
/// shown; the colour is the default; the rows down to the cursor's are
/// untouched, and below them stand the rows of the results, whatever stood
/// there before.
pub open spec fn redrawn(screen: Screen, results: Seq<Note>, query_len: nat, width: nat)
    -> Screen {
    Screen {
        row: screen.row,
        col: PROMPT_WIDTH as int + query_len,
        cursor_shown: true,
        white: false,
        cells: with_rows_below(screen.cells, screen.row, result_rows(results, width)),
    }
}

/// A text printed at the start of the row that follows a block of rows makes
/// the block one row longer.
proof fn lemma_print_row(
    screen: Screen,
    cells: Map<(int, int), char>,
    above: int,
    rows: Seq<Seq<char>>,
    text: Seq<char>,
)
    requires
        screen.cells == with_rows_below(cells, above, rows),
        screen.row == above + 1 + rows.len(),
        screen.col == 0,
    ensures
        screen.step(Op::Text(text)) == (Screen {
            col: text.len() as int,
            cells: with_rows_below(cells, above, rows.push(text)),
            ..screen
        }),
{
    let after = screen.step(Op::Text(text));
    let expected = with_rows_below(cells, above, rows.push(text));
    assert forall|cell: (int, int)| after.cells.dom().contains(cell) == expected.dom().contains(
        cell,
    ) by {
        if cell.0 > above && cell.0 - above - 1 < rows.len() {
            assert(rows.push(text)[cell.0 - above - 1] == rows[cell.0 - above - 1]);
        }
    }
    assert forall|cell: (int, int)| after.cells.dom().contains(cell) implies after.cells[cell]
        == expected[cell] by {
        if cell.0 > above && cell.0 - above - 1 < rows.len() {
            assert(rows.push(text)[cell.0 - above - 1] == rows[cell.0 - above - 1]);
        }
    }
    assert(after.cells =~= expected);
}

/// What the move to the output does: the cursor is hidden and stands at the
/// start of the next row, and nothing is shown from there on.
proof fn lemma_to_output(screen: Screen)
    requires
        screen.wf(),
    ensures
        screen.run(to_output_ops()) == (Screen {
            row: screen.row + 1,
            col: 0,
            cursor_shown: false,
            cells: with_rows_below(screen.cells, screen.row, Seq::empty()),
            ..screen
        }),
{
    let none = Seq::<Op>::empty();
    let o1 = none.push(Op::Hide);
    let o2 = o1.push(Op::CarriageReturn);
    let o3 = o2.push(Op::LineFeed);
    assert(to_output_ops() =~= o3.push(Op::ClearAfter));
    assert(screen.run(none) == screen);
    screen.lemma_run_push(none, Op::Hide);
    screen.lemma_run_push(o1, Op::CarriageReturn);
    screen.lemma_run_push(o2, Op::LineFeed);
    screen.lemma_run_push(o3, Op::ClearAfter);
    assert(screen.run(o3) == Screen { row: screen.row + 1, col: 0, cursor_shown: false, ..screen });
    assert(screen.run(to_output_ops()).cells =~= with_rows_below(
        screen.cells,
        screen.row,
        Seq::empty(),
    ));
}

/// What the rows of one result do on a screen that shows `rows` below row
/// `above` and whose cursor stands at the start of the last of them, or, for
/// the first result, of the row after `above`.
proof fn lemma_note_drawn(
    screen: Screen,
    cells: Map<(int, int), char>,
    above: int,
    rows: Seq<Seq<char>>,
    note: Note,
    width: nat,
    first: bool,
)
    requires
        screen.cells == with_rows_below(cells, above, rows),
        screen.col == 0,
        first ==> rows.len() == 0 && screen.row == above + 1,
        !first ==> rows.len() > 0 && screen.row == above + rows.len(),
    ensures
        screen.run(note_ops(note, width, first)) == (Screen {
            row: if first {
                above + 2
            } else {
                above + 1 + rows.len()
            },
            col: 0,
            white: if first {
                false
            } else {
                screen.white
            },
            cells: if first {
                with_rows_below(cells, above, seq![note@.name, note@.preview(width)])
            } else {
                with_rows_below(cells, above, rows.push(note@.name))
            },
            ..screen
        }),
{
    let none = Seq::<Op>::empty();
    assert(screen.run(none) == screen);
    if first {
        let o1 = none.push(Op::Text(note@.name));
        let o2 = o1.push(Op::CarriageReturn);
        let o3 = o2.push(Op::LineFeed);
        let o4 = o3.push(Op::FgWhite);
        let o5 = o4.push(Op::Text(note@.preview(width)));
        let o6 = o5.push(Op::FgReset);
        assert(note_ops(note, width, first) =~= o6.push(Op::CarriageReturn));
        screen.lemma_run_push(none, Op::Text(note@.name));
        screen.lemma_run_push(o1, Op::CarriageReturn);
        screen.lemma_run_push(o2, Op::LineFeed);
        screen.lemma_run_push(o3, Op::FgWhite);
        screen.lemma_run_push(o4, Op::Text(note@.preview(width)));
        screen.lemma_run_push(o5, Op::FgReset);
        screen.lemma_run_push(o6, Op::CarriageReturn);
        lemma_print_row(screen, cells, above, rows, note@.name);
        lemma_print_row(screen.run(o4), cells, above, rows.push(note@.name), note@.preview(width));
        assert(rows.push(note@.name).push(note@.preview(width)) =~= seq![
            note@.name,
            note@.preview(width),
        ]);
    } else {
        let o1 = none.push(Op::LineFeed);
        let o2 = o1.push(Op::Text(note@.name));
        assert(note_ops(note, width, first) =~= o2.push(Op::CarriageReturn));
        screen.lemma_run_push(none, Op::LineFeed);
        screen.lemma_run_push(o1, Op::Text(note@.name));
        screen.lemma_run_push(o2, Op::CarriageReturn);
        lemma_print_row(screen.run(o1), cells, above, rows, note@.name);
    }
}

/// What the rows of all results do on a screen whose cursor stands at the
/// start of the row after `above` and which shows nothing from there on.
proof fn lemma_notes_drawn(
    screen: Screen,
    cells: Map<(int, int), char>,
    above: int,
    notes: Seq<Note>,
    width: nat,
)
    requires
        notes.len() > 0,
        screen.cells == with_rows_below(cells, above, Seq::empty()),
        screen.row == above + 1,
        screen.col == 0,
    ensures
        screen.run(notes_ops(notes, width)) == (Screen {
            row: above + 1 + notes.len(),
            col: 0,
            white: false,
            cells: with_rows_below(cells, above, result_rows(notes, width)),
            ..screen
        }),
    decreases notes.len(),
{
    let last = notes.last();
    let before = notes.drop_last();
    screen.lemma_run_concat(notes_ops(before, width), note_ops(last, width, notes.len() == 1));
    if notes.len() == 1 {
        assert(notes_ops(before, width) =~= Seq::<Op>::empty());
        lemma_note_drawn(screen, cells, above, Seq::empty(), last, width, true);
        assert(result_rows(notes, width) =~= seq![last@.name, last@.preview(width)]);
    } else {
        lemma_notes_drawn(screen, cells, above, before, width);
        let drawn = screen.run(notes_ops(before, width));
        lemma_note_drawn(drawn, cells, above, result_rows(before, width), last, width, false);
        assert(result_rows(notes, width) =~= result_rows(before, width).push(last@.name));
    }
}

/// What a redraw does. Wherever the cursor stands and whatever the screen
/// shows, after the operations of a redraw the screen is [`redrawn`]: the
/// cursor is back on its row, in the column behind the prompt and the typed
/// text; the rows down to that row are as they were; and the rows below it
/// show the results and nothing else.
pub proof fn law_redraw(screen: Screen, results: Seq<Note>, query_len: nat, width: nat)
    requires
        screen.wf(),
    ensures
        screen.run(redraw_ops(results, query_len, width)) == redrawn(
            screen,
            results,
            query_len,
            width,
        ),
{
    let column = PROMPT_WIDTH as nat + query_len;
    let body = if results.len() == 0 {
        new_note_ops()
    } else {
        show_notes_ops(results, width)
    };
    let cleared = screen.run(to_output_ops());
    lemma_to_output(screen);
    screen.lemma_run_concat(to_output_ops() + body, to_input_ops(column));
    screen.lemma_run_concat(to_output_ops(), body);
    let none = Seq::<Op>::empty();
    assert(cleared.run(none) == cleared);
    if results.len() == 0 {
        let o1 = none.push(Op::FgWhite);
        let o2 = o1.push(Op::Text(new_note_label()));
        let o3 = o2.push(Op::FgReset);
        assert(new_note_ops() =~= o3.push(Op::CarriageReturn));
        cleared.lemma_run_push(none, Op::FgWhite);
        cleared.lemma_run_push(o1, Op::Text(new_note_label()));
        cleared.lemma_run_push(o2, Op::FgReset);
        cleared.lemma_run_push(o3, Op::CarriageReturn);
        lemma_print_row(cleared.run(o1), screen.cells, screen.row, Seq::empty(), new_note_label());
        assert(Seq::<Seq<char>>::empty().push(new_note_label()) =~= result_rows(results, width));
    } else {
        lemma_notes_drawn(cleared, screen.cells, screen.row, results, width);
        cleared.lemma_run_push(notes_ops(results, width), Op::Up(results.len()));
    }
    let drawn = cleared.run(body);
    assert(drawn == Screen {
        row: screen.row + 1,
        col: 0,
        cursor_shown: false,
        white: false,
        cells: with_rows_below(screen.cells, screen.row, result_rows(results, width)),
    });
    assert(drawn.run(none) == drawn);
    let i1 = none.push(Op::Right(column));
    let i2 = i1.push(Op::Up(1));
    assert(to_input_ops(column) =~= i2.push(Op::Show));
    drawn.lemma_run_push(none, Op::Right(column));
    drawn.lemma_run_push(i1, Op::Up(1));
    drawn.lemma_run_push(i2, Op::Show);
}

/// Redraw idempotence. A redraw after the same redraw changes nothing: the
/// screen after the second is the screen after the first, with the cursor in
/// the same row and column.
pub proof fn law_redraw_idempotent(screen: Screen, results: Seq<Note>, query_len: nat, width: nat)
    requires
        screen.wf(),
    ensures
        ({
            let once = screen.run(redraw_ops(results, query_len, width));
            once.run(redraw_ops(results, query_len, width)) == once
        }),
{
    law_redraw_replaces(screen, results, query_len, width, results, query_len, width);
}

/// Cursor restoration under shrink, and under any other change. After a
/// redraw, whatever was drawn before it, the cursor stands on the input row
/// behind the prompt and the typed text, and the rows below show the new
/// results alone: the screen is the one that the new redraw makes of a screen
/// that never held the earlier results, so nothing of them is left.
pub proof fn law_redraw_replaces(
    screen: Screen,
    earlier: Seq<Note>,
    earlier_len: nat,
    earlier_width: nat,
    results: Seq<Note>,
    query_len: nat,
    width: nat,
)
    requires
        screen.wf(),
    ensures
        ({
            let before = screen.run(redraw_ops(earlier, earlier_len, earlier_width));
            let after = before.run(redraw_ops(results, query_len, width));
            &&& after.row == screen.row
            &&& after.col == PROMPT_WIDTH + query_len
            &&& after == screen.run(redraw_ops(results, query_len, width))
            &&& forall|cell: (int, int)|
                cell.0 > screen.row ==> (after.cells.dom().contains(cell) <==> in_rows(
                    result_rows(results, width),
                    screen.row + 1,
                    cell,
                ))
        }),
{
    let before = screen.run(redraw_ops(earlier, earlier_len, earlier_width));
    screen.lemma_run_wf(redraw_ops(earlier, earlier_len, earlier_width));
    law_redraw(screen, earlier, earlier_len, earlier_width);
    law_redraw(before, results, query_len, width);
    law_redraw(screen, results, query_len, width);
    let after = before.run(redraw_ops(results, query_len, width));
    assert(after.cells =~= redrawn(screen, results, query_len, width).cells);
}

} // verus!
