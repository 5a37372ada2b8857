//! The session driver: the state of one interactive session, what each event
//! does to it, and what is handed to the editor at its end.

use crate::input::{handle_event, Action, Event, QueryBuffer};
use crate::note::{note_suffix, Note};
use crate::paths::{join, joined_path};
use crate::render::{
    law_redraw, lemma_prompt_width, prompt, redraw_ops, redraw_results, show_prompt, PROMPT_WIDTH,
};
use crate::search::{find, law_match_correctness, results_for};
use crate::terminal::{emit, ops_view, Op, Screen, TermOp};
use vstd::prelude::*;
use vstd::string::*;

verus! {

/// The path of the new note that a query names: the notes directory joined
/// with the whole query followed by the note extension.
pub open spec fn new_note_path(base: Seq<char>, name: Seq<char>) -> Seq<char> {
    joined_path(base, name + note_suffix())
}

/// What is shown before the editor takes over: on a new line, the editor's
/// command and the path it is given, and a new line after them.
pub open spec fn handoff_ops(editor: Seq<char>, path: Seq<char>) -> Seq<Op> {
    seq![
        Op::LineFeed,
        Op::CarriageReturn,
        Op::Text(editor + seq![' '] + path),
        Op::LineFeed,
        Op::CarriageReturn,
    ]
}

/// What is shown when the session ends without an edit: the cursor goes to
/// the start of the next line.
pub open spec fn leave_ops() -> Seq<Op> {
    seq![Op::LineFeed, Op::CarriageReturn]
}

/// Announces the editor command that is about to run on `path`.
pub fn edit_file(editor: &str, path: &str, out: &mut Vec<TermOp>)
    ensures
        ops_view(final(out)@) == ops_view(old(out)@) + handoff_ops(editor@, path@),
{
    let mut command = editor.to_owned();
    command.push(' ');
    command.append(path);
    assert(command@ =~= editor@ + seq![' '] + path@);
    emit(out, TermOp::LineFeed);
    emit(out, TermOp::CarriageReturn);
    emit(out, TermOp::Text(command));
    emit(out, TermOp::LineFeed);
    emit(out, TermOp::CarriageReturn);
    assert(ops_view(out@) =~= ops_view(old(out)@) + handoff_ops(editor@, path@));
}

/// Announces the edit of an existing note and returns the path to open.
pub fn edit_note(editor: &str, note: &Note, out: &mut Vec<TermOp>) -> (path: String)
    ensures
        path@ == note@.path,
        ops_view(final(out)@) == ops_view(old(out)@) + handoff_ops(editor@, note@.path),
{
    edit_file(editor, note.path(), out);
    note.path().to_owned()
}

/// Announces the edit of a new note called `name` in the directory `base`,
/// and returns the path to open: the directory joined with the whole name
/// and the note extension after it.
pub fn create_note(editor: &str, base: &str, name: &str, out: &mut Vec<TermOp>) -> (path: String)
    ensures
        path@ == new_note_path(base@, name@),
        ops_view(final(out)@) == ops_view(old(out)@) + handoff_ops(
            editor@,
            new_note_path(base@, name@),
        ),
{
    proof {
        reveal_strlit(".txt");
    }
    let mut file_name = name.to_owned();
    file_name.append(".txt");
    assert(file_name@ =~= name@ + note_suffix());
    let path = join(base, file_name.as_str());
    edit_file(editor, path.as_str(), out);
    path
}

/// What the driver of the session is to do after an event.
#[derive(Debug, PartialEq, Eq)]
pub enum Outcome {
    /// Wait for the next event.
    Continue,
    /// There are results to draw: find out how wide the terminal is, call
    /// [`Session::draw`] with that width, and wait for the next event.
    Draw,
    /// End the session.
    Quit,
    /// Give up the terminal and run the editor on this path.
    Launch(String),
}

/// What an [`Outcome`] stands for, over mathematical values.
pub enum OutcomeView {
    Continue,
    Draw,
    Quit,
    Launch(Seq<char>),
}

impl View for Outcome {
    type V = OutcomeView;

    open spec fn view(&self) -> OutcomeView {
        match *self {
            Outcome::Continue => OutcomeView::Continue,
            Outcome::Draw => OutcomeView::Draw,
            Outcome::Quit => OutcomeView::Quit,
            Outcome::Launch(path) => OutcomeView::Launch(path@),
        }
    }
}

/// One interactive session over a store of notes.
pub struct Session<'a> {
    notes: &'a Vec<Note>,
    root: String,
    editor: String,
    query: QueryBuffer,
    found: Vec<&'a Note>,
}

/// The state of a session, over mathematical values. The result set is no
/// part of it: at every moment it is the one that belongs to the query.
pub struct SessionView {
    /// The store of notes, in scan order.
    pub notes: Seq<Note>,
    /// The notes directory.
    pub root: Seq<char>,
    /// The editor's command.
    pub editor: Seq<char>,
    /// The query typed so far.
    pub query: Seq<char>,
}

impl SessionView {
    /// The current result set: what the query as it stands finds, and
    /// nothing while the query is empty.
    pub open spec fn results(self) -> Seq<Note> {
        results_for(self.notes, self.query)
    }

    /// The state after an event.
    pub open spec fn after(self, event: Event) -> SessionView {
        SessionView { query: event.text_after(self.query), ..self }
    }

    /// The path that an edit opens: that of the first result, or, without
    /// results, that of a new note named by the query.
    pub open spec fn edit_target(self) -> Seq<char> {
        if self.results().len() > 0 {
            self.results()[0]@.path
        } else {
            new_note_path(self.root, self.query)
        }
    }

    /// What the session itself puts on the terminal for an event, after the
    /// echo on the input row: the line for "no note matches" where a search
    /// finds nothing, the announcement of the editor where the event asks
    /// for an edit, a new line where it asks to exit, and else nothing.
    /// Where a search finds notes, they are drawn after the driver has
    /// measured the terminal (see [`SessionView::drawing`]).
    pub open spec fn response(self, event: Event) -> Seq<Op> {
        match event.action(self.query) {
            Action::Exit => leave_ops(),
            Action::Edit => handoff_ops(self.editor, self.edit_target()),
            Action::Nothing => Seq::empty(),
            Action::Search => if self.after(event).results().len() == 0 {
                redraw_ops(Seq::empty(), event.text_after(self.query).len(), 0)
            } else {
                Seq::empty()
            },
        }
    }

    /// What the driver is to do after an event.
    pub open spec fn outcome(self, event: Event) -> OutcomeView {
        match event.action(self.query) {
            Action::Exit => OutcomeView::Quit,
            Action::Edit => OutcomeView::Launch(self.edit_target()),
            Action::Nothing => OutcomeView::Continue,
            Action::Search => if self.after(event).results().len() == 0 {
                OutcomeView::Continue
            } else {
                OutcomeView::Draw
            },
        }
    }

    /// The redraw of the current results for a terminal of `width` columns.
    /// With an empty query there is no region of results, and nothing is
    /// drawn.
    pub open spec fn drawing(self, width: nat) -> Seq<Op> {
        if self.query.len() == 0 {
            Seq::empty()
        } else {
            redraw_ops(self.results(), self.query.len(), width)
        }
    }

    /// All that reaches the terminal for an event on a terminal of `width`
    /// columns, when the driver does what the outcome tells it: the echo,
    /// the session's response, and the drawing where one is asked for.
    pub open spec fn shown(self, event: Event, width: nat) -> Seq<Op> {
        event.echo(self.query) + self.response(event) + if self.outcome(event)
            == OutcomeView::Draw {
            self.after(event).drawing(width)
        } else {
            Seq::empty()
        }
    }
}

impl<'a> View for Session<'a> {
    type V = SessionView;

    closed spec fn view(&self) -> SessionView {
        SessionView {
            notes: self.notes@,
            root: self.root@,
            editor: self.editor@,
            query: self.query@,
        }
    }
}

impl<'a> Session<'a> {
    /// The result set that the session holds is the one that belongs to its
    /// query as it stands: never that of an earlier query, and empty while
    /// the query is empty.
    #[verifier::type_invariant]
    spec fn results_are_current(&self) -> bool {
        self.found@.unref() == results_for(self.notes@, self.query@)
    }

    /// Starts a session over `notes`, which were loaded from the directory
    /// `root`, with `editor` as the command that edits a note. The query is
    /// empty and the prompt is written.
    pub fn new(notes: &'a Vec<Note>, root: String, editor: String, out: &mut Vec<TermOp>) -> (session:
        Session<'a>)
        ensures
            session@ == (SessionView {
                notes: notes@,
                root: root@,
                editor: editor@,
                query: Seq::empty(),
            }),
            ops_view(final(out)@) == ops_view(old(out)@).push(Op::Text(prompt())),
    {
        show_prompt(out);
        let found: Vec<&'a Note> = Vec::new();
        assert(found@.unref() =~= Seq::<Note>::empty());
        Session { notes, root, editor, query: QueryBuffer::new(), found }
    }

    /// The query typed so far.
    pub fn query(&self) -> (text: &str)
        ensures
            text@ == self@.query,
    {
        self.query.text()
    }

    /// The number of characters of the query typed so far.
    pub fn query_len(&self) -> (length: usize)
        ensures
            length == self@.query.len(),
    {
        self.query.len()
    }

    /// The current results, in the order of the store.
    pub fn results(&self) -> (found: &Vec<&'a Note>)
        ensures
            found@.unref() == self@.results(),
    {
        proof {
            use_type_invariant(self);
        }
        &self.found
    }

    /// The number of current results.
    pub fn found_count(&self) -> (count: usize)
        ensures
            count == self@.results().len(),
    {
        proof {
            use_type_invariant(self);
        }
        self.found.len()
    }

    /// Handles one event. The query is updated and the change echoed, and
    /// the result set is made the one of the query as it then stands. Then,
    /// by the action that the event asks for: on a search that finds notes,
    /// the driver is asked to have them drawn; on a search that finds none,
    /// the line that says so is drawn; on an edit, the editor is announced
    /// for the first result, or without results for a new note named by the
    /// query; on an exit, the cursor is moved to a new line.
    pub fn step(&mut self, event: &Event, out: &mut Vec<TermOp>) -> (outcome: Outcome)
        requires
            PROMPT_WIDTH + old(self)@.query.len() < u16::MAX,
        ensures
            final(self)@ == old(self)@.after(*event),
            outcome@ == old(self)@.outcome(*event),
            ops_view(final(out)@) == ops_view(old(out)@) + event.echo(old(self)@.query) + old(
                self,
            )@.response(*event),
    {
        // The session is taken apart and put together again, so that it never
        // exists with results that are not those of its query.
        let nothing: Vec<&'a Note> = Vec::new();
        assert(nothing@.unref() =~= Seq::<Note>::empty());
        let mut taken = Session {
            notes: self.notes,
            root: String::new(),
            editor: String::new(),
            query: QueryBuffer::new(),
            found: nothing,
        };
        core::mem::swap(self, &mut taken);
        proof {
            use_type_invariant(&taken);
        }
        let Session { notes, root, editor, mut query, mut found } = taken;
        let ghost echoed = ops_view(out@) + event.echo(query@);
        let action = handle_event(event, out, &mut query);
        let outcome = match action {
            Action::Exit => {
                emit(out, TermOp::LineFeed);
                emit(out, TermOp::CarriageReturn);
                assert(ops_view(out@) =~= echoed + leave_ops());
                Outcome::Quit
            },
            Action::Edit => {
                let path = if found.len() > 0 {
                    edit_note(editor.as_str(), found[0], out)
                } else {
                    create_note(editor.as_str(), root.as_str(), query.text(), out)
                };
                Outcome::Launch(path)
            },
            Action::Nothing => {
                if query.is_empty() {
                    found = Vec::new();
                    assert(found@.unref() =~= Seq::<Note>::empty());
                }
                assert(ops_view(out@) =~= echoed + Seq::<Op>::empty());
                Outcome::Continue
            },
            Action::Search => {
                found = find(notes, query.text());
                if found.len() == 0 {
                    assert(found@.unref() =~= Seq::<Note>::empty());
                    redraw_results(&found, query.len(), 0, out);
                    Outcome::Continue
                } else {
                    assert(ops_view(out@) =~= echoed + Seq::<Op>::empty());
                    Outcome::Draw
                }
            },
        };
        *self = Session { notes, root, editor, query, found };
        outcome
    }

    /// Draws the current results below the input row, the preview of the
    /// first wrapped at `width` columns, and puts the cursor back behind the
    /// typed text. With an empty query nothing is drawn.
    pub fn draw(&self, width: usize, out: &mut Vec<TermOp>)
        requires
            PROMPT_WIDTH + self@.query.len() <= u16::MAX,
        ensures
            ops_view(final(out)@) == ops_view(old(out)@) + self@.drawing(width as nat),
    {
        proof {
            use_type_invariant(self);
            law_match_correctness(self.notes@, self.query@);
        }
        if self.query.is_empty() {
            assert(ops_view(out@) =~= ops_view(out@) + Seq::<Op>::empty());
        } else {
            redraw_results(&self.found, self.query.len(), width, out);
        }
    }
}

/// Whether a screen shows nothing below the row of its cursor.
pub open spec fn shows_no_results(screen: Screen) -> bool {
    forall|cell: (int, int)| cell.0 > screen.row ==> !screen.cells.dom().contains(cell)
}

/// Empty-query suppression on the screen. While the query is empty, nothing
/// is shown below the input row: that holds after an event if it held before
/// it. In particular the event that empties the query is answered with no
/// redraw, and its echo erases the region of results.
pub proof fn law_empty_query_shows_no_results(
    screen: Screen,
    session: SessionView,
    event: Event,
    width: nat,
)
    requires
        screen.wf(),
        session.query.len() == 0 ==> shows_no_results(screen),
    ensures
        event.text_after(session.query).len() == 0 ==> event.action(session.query)
            != Action::Search && shows_no_results(screen.run(session.shown(event, width))),
{
    if event.text_after(session.query).len() == 0 {
        let none = Seq::<Op>::empty();
        let echo = event.echo(session.query);
        let response = session.response(event);
        assert(session.shown(event, width) =~= echo + response);
        assert(screen.run(none) == screen);
        screen.lemma_run_concat(echo, response);
        let echoed = screen.run(echo);
        assert(echoed.run(none) == echoed);
        if session.query.len() > 0 {
            assert(echo =~= none.push(Op::Left(1)).push(Op::ClearAfter));
            screen.lemma_run_push(none, Op::Left(1));
            screen.lemma_run_push(none.push(Op::Left(1)), Op::ClearAfter);
        } else {
            assert(echo =~= none);
            match event.action(session.query) {
                Action::Exit => {
                    assert(response =~= none.push(Op::LineFeed).push(Op::CarriageReturn));
                    echoed.lemma_run_push(none, Op::LineFeed);
                    echoed.lemma_run_push(none.push(Op::LineFeed), Op::CarriageReturn);
                },
                Action::Edit => {
                    let text = Op::Text(session.editor + seq![' '] + session.edit_target());
                    let o1 = none.push(Op::LineFeed);
                    let o2 = o1.push(Op::CarriageReturn);
                    let o3 = o2.push(text);
                    let o4 = o3.push(Op::LineFeed);
                    assert(response =~= o4.push(Op::CarriageReturn));
                    echoed.lemma_run_push(none, Op::LineFeed);
                    echoed.lemma_run_push(o1, Op::CarriageReturn);
                    echoed.lemma_run_push(o2, text);
                    echoed.lemma_run_push(o3, Op::LineFeed);
                    echoed.lemma_run_push(o4, Op::CarriageReturn);
                },
                _ => {},
            }
        }
    }
}

/// The cursor follows the query. Written at the start of a row, the prompt
/// leaves the cursor behind it. From then on, after every event that does
/// not end the session, once the driver has done what the outcome tells it,
/// the cursor stands on the input row in the column behind the prompt and
/// the query as it then is, if it stood behind the prompt and the query
/// before the event.
pub proof fn law_cursor_follows_query(
    screen: Screen,
    session: SessionView,
    event: Event,
    width: nat,
)
    requires
        screen.wf(),
    ensures
        screen.col == 0 ==> screen.step(Op::Text(prompt())).col == PROMPT_WIDTH,
        screen.col == PROMPT_WIDTH + session.query.len() && (session.outcome(event)
            == OutcomeView::Continue || session.outcome(event) == OutcomeView::Draw) ==> ({
            let after = screen.run(session.shown(event, width));
            &&& after.row == screen.row
            &&& after.col == PROMPT_WIDTH + event.text_after(session.query).len()
        }),
{
    lemma_prompt_width();
    if screen.col == PROMPT_WIDTH + session.query.len() && (session.outcome(event)
        == OutcomeView::Continue || session.outcome(event) == OutcomeView::Draw) {
        let none = Seq::<Op>::empty();
        let echo = event.echo(session.query);
        let later = session.after(event);
        let length = later.query.len();
        assert(screen.run(none) == screen);
        screen.lemma_run_wf(echo);
        let echoed = screen.run(echo);
        if event.is_backspace() && session.query.len() > 0 {
            assert(echo =~= none.push(Op::Left(1)).push(Op::ClearAfter));
            screen.lemma_run_push(none, Op::Left(1));
            screen.lemma_run_push(none.push(Op::Left(1)), Op::ClearAfter);
        } else if let Some(c) = event.typed() {
            assert(echo =~= none.push(Op::Text(seq![c])));
            screen.lemma_run_push(none, Op::Text(seq![c]));
        } else {
            assert(echo =~= none);
        }
        if event.action(session.query) == Action::Search {
            let redraw = redraw_ops(later.results(), length, width);
            if later.results().len() == 0 {
                assert(redraw =~= redraw_ops(Seq::empty(), length, 0));
            }
            assert(session.shown(event, width) =~= echo + redraw);
            screen.lemma_run_concat(echo, redraw);
            law_redraw(echoed, later.results(), length, width);
        } else {
            assert(session.shown(event, width) =~= echo);
        }
    }
}

} // verus!
