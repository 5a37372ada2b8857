use velocity::input::{Event, Key};
use velocity::note::Note;
use velocity::session::{create_note, edit_file, edit_note, Outcome, Session};
use velocity::terminal::{encode, TermOp};

fn store() -> Vec<Note> {
    vec![
        Note::new("alpha.txt".to_string(), "hello world".to_string()),
        Note::new("beta.txt".to_string(), "goodbye".to_string()),
    ]
}

fn start(notes: &Vec<Note>) -> Session<'_> {
    let mut out = Vec::new();
    Session::new(notes, "/notes".to_string(), "vi".to_string(), &mut out)
}

/// Hands one key to the session and does what the outcome asks of the
/// driver: on `Draw`, the results are drawn for a terminal of 80 columns.
fn press(session: &mut Session<'_>, key: Key) -> (Outcome, Vec<TermOp>) {
    let mut out = Vec::new();
    let outcome = session.step(&Event::Key(key), &mut out);
    if outcome == Outcome::Draw {
        session.draw(80, &mut out);
    }
    (outcome, out)
}

fn type_text(session: &mut Session<'_>, text: &str) -> Vec<TermOp> {
    let mut last = Vec::new();
    for c in text.chars() {
        let (outcome, out) = press(session, Key::Char(c));
        assert!(outcome == Outcome::Continue || outcome == Outcome::Draw);
        last = out;
    }
    last
}

fn text(s: &str) -> TermOp {
    TermOp::Text(s.to_string())
}

fn names(session: &Session<'_>) -> Vec<String> {
    session.results().iter().map(|note| note.name().to_string()).collect()
}

#[test]
fn a_new_session_writes_the_prompt() {
    let notes = store();
    let mut out = Vec::new();
    let session = Session::new(&notes, "/notes".to_string(), "vi".to_string(), &mut out);
    assert_eq!(out, vec![text("> ")]);
    assert_eq!(session.query(), "");
    assert_eq!(session.found_count(), 0);
    assert!(session.results().is_empty());
}

#[test]
fn query_hell_finds_alpha_with_its_preview() {
    let notes = store();
    let mut session = start(&notes);
    let out = type_text(&mut session, "hell");
    assert_eq!(session.found_count(), 1);
    assert_eq!(session.query(), "hell");
    assert_eq!(names(&session), vec!["alpha"]);
    assert_eq!(session.results()[0].preview(80), "hello world");
    assert_eq!(
        out,
        vec![
            text("l"),
            TermOp::HideCursor,
            TermOp::CarriageReturn,
            TermOp::LineFeed,
            TermOp::ClearAfterCursor,
            text("alpha"),
            TermOp::CarriageReturn,
            TermOp::LineFeed,
            TermOp::FgWhite,
            text("hello world"),
            TermOp::FgReset,
            TermOp::CarriageReturn,
            TermOp::CursorUp(1),
            TermOp::CursorRight(6),
            TermOp::CursorUp(1),
            TermOp::ShowCursor,
        ]
    );
}

#[test]
fn query_xyz_finds_nothing_and_shows_the_placeholder() {
    let notes = store();
    let mut session = start(&notes);
    let out = type_text(&mut session, "xyz");
    assert_eq!(session.found_count(), 0);
    assert_eq!(
        out,
        vec![
            text("z"),
            TermOp::HideCursor,
            TermOp::CarriageReturn,
            TermOp::LineFeed,
            TermOp::ClearAfterCursor,
            TermOp::FgWhite,
            text("*new note*"),
            TermOp::FgReset,
            TermOp::CarriageReturn,
            TermOp::CursorRight(5),
            TermOp::CursorUp(1),
            TermOp::ShowCursor,
        ]
    );
}

#[test]
fn the_empty_query_shows_no_result_region() {
    let notes = store();
    let mut session = start(&notes);
    assert_eq!(press(&mut session, Key::Backspace), (Outcome::Continue, vec![]));
    assert_eq!(press(&mut session, Key::Left), (Outcome::Continue, vec![]));
    type_text(&mut session, "h");
    let (outcome, out) = press(&mut session, Key::Backspace);
    assert_eq!(outcome, Outcome::Continue);
    assert_eq!(out, vec![TermOp::CursorLeft(1), TermOp::ClearAfterCursor]);
    assert_eq!(session.query(), "");
}

#[test]
fn enter_with_xyz_opens_a_new_note() {
    let notes = store();
    let mut session = start(&notes);
    type_text(&mut session, "xyz");
    let (outcome, out) = press(&mut session, Key::Char('\n'));
    assert_eq!(outcome, Outcome::Launch("/notes/xyz.txt".to_string()));
    assert_eq!(encode(&out), "\n\rvi /notes/xyz.txt\n\r");
    assert_eq!(session.query(), "xyz");
}

#[test]
fn enter_with_hell_opens_alpha() {
    let notes = store();
    let mut session = start(&notes);
    type_text(&mut session, "hell");
    let (outcome, out) = press(&mut session, Key::Char('\n'));
    assert_eq!(outcome, Outcome::Launch("alpha.txt".to_string()));
    assert_eq!(encode(&out), "\n\rvi alpha.txt\n\r");
}

#[test]
fn enter_opens_the_first_of_several_results() {
    let notes = store();
    let mut session = start(&notes);
    type_text(&mut session, "o");
    assert_eq!(names(&session), vec!["alpha", "beta"]);
    let (outcome, _) = press(&mut session, Key::Char('\n'));
    assert_eq!(outcome, Outcome::Launch("alpha.txt".to_string()));
}

#[test]
fn enter_on_a_fresh_session_opens_a_new_note_in_the_directory() {
    let notes = store();
    let mut session = start(&notes);
    let (outcome, out) = press(&mut session, Key::Char('\n'));
    assert_eq!(outcome, Outcome::Launch("/notes/.txt".to_string()));
    assert_eq!(encode(&out), "\n\rvi /notes/.txt\n\r");
}

#[test]
fn enter_after_the_query_was_emptied_opens_no_earlier_result() {
    let notes = store();
    let mut session = start(&notes);
    type_text(&mut session, "b");
    assert_eq!(names(&session), vec!["beta"]);
    let (outcome, _) = press(&mut session, Key::Backspace);
    assert_eq!(outcome, Outcome::Continue);
    assert_eq!(session.query(), "");
    assert_eq!(session.found_count(), 0);
    assert!(session.results().is_empty());
    let (outcome, out) = press(&mut session, Key::Char('\n'));
    assert_eq!(outcome, Outcome::Launch("/notes/.txt".to_string()));
    assert_eq!(encode(&out), "\n\rvi /notes/.txt\n\r");
}

#[test]
fn the_target_of_an_edit_depends_on_the_query_alone() {
    let notes = store();
    let mut direct = start(&notes);
    type_text(&mut direct, "xyz");
    let mut detour = start(&notes);
    type_text(&mut detour, "bet");
    for _ in 0..3 {
        press(&mut detour, Key::Backspace);
    }
    type_text(&mut detour, "xyz");
    assert_eq!(
        press(&mut direct, Key::Char('\n')).0,
        press(&mut detour, Key::Char('\n')).0
    );
}

#[test]
fn a_search_that_finds_notes_asks_for_a_drawing() {
    let notes = store();
    let mut session = start(&notes);
    let mut out = Vec::new();
    let outcome = session.step(&Event::Key(Key::Char('h')), &mut out);
    assert_eq!(outcome, Outcome::Draw);
    assert_eq!(out, vec![text("h")]);
    assert_eq!(names(&session), vec!["alpha"]);
    let mut drawn = Vec::new();
    session.draw(80, &mut drawn);
    assert_eq!(drawn.len(), 4 + 8 + 3);
    assert_eq!(drawn[4], text("alpha"));
    assert_eq!(drawn[8], text("hello world"));
    assert_eq!(drawn[12], TermOp::CursorRight(3));
}

#[test]
fn a_search_that_finds_nothing_draws_by_itself() {
    let notes = store();
    let mut session = start(&notes);
    let mut out = Vec::new();
    let outcome = session.step(&Event::Key(Key::Char('q')), &mut out);
    assert_eq!(outcome, Outcome::Continue);
    assert_eq!(out.len(), 1 + 4 + 4 + 3);
    assert_eq!(out[6], text("*new note*"));
}

#[test]
fn nothing_is_drawn_for_the_empty_query() {
    let notes = store();
    let session = start(&notes);
    let mut out = Vec::new();
    session.draw(80, &mut out);
    assert!(out.is_empty());
}

#[test]
fn control_c_quits_on_a_new_line() {
    let notes = store();
    let mut session = start(&notes);
    type_text(&mut session, "he");
    let (outcome, out) = press(&mut session, Key::Ctrl('c'));
    assert_eq!(outcome, Outcome::Quit);
    assert_eq!(out, vec![TermOp::LineFeed, TermOp::CarriageReturn]);
    assert_eq!(encode(&out), "\n\r");
    let (outcome, _) = press(&mut session, Key::Ctrl('d'));
    assert_eq!(outcome, Outcome::Quit);
}

#[test]
fn backspace_searches_again_for_the_shorter_query() {
    let notes = store();
    let mut session = start(&notes);
    type_text(&mut session, "helx");
    assert_eq!(session.found_count(), 0);
    let (outcome, out) = press(&mut session, Key::Backspace);
    assert_eq!(outcome, Outcome::Draw);
    assert_eq!(names(&session), vec!["alpha"]);
    assert_eq!(out[0], TermOp::CursorLeft(1));
    assert_eq!(out[1], TermOp::ClearAfterCursor);
    assert_eq!(out[out.len() - 3], TermOp::CursorRight(5));
}

#[test]
fn results_follow_the_query_after_every_key() {
    let notes = store();
    let mut session = start(&notes);
    type_text(&mut session, "go");
    assert_eq!(names(&session), vec!["beta"]);
    type_text(&mut session, "o");
    assert_eq!(names(&session), vec!["beta"]);
    type_text(&mut session, "x");
    assert_eq!(session.found_count(), 0);
}

#[test]
fn ignored_keys_change_nothing() {
    let notes = store();
    let mut session = start(&notes);
    type_text(&mut session, "hell");
    for key in [Key::Up, Key::Down, Key::F(5), Key::Esc, Key::Alt('x')].iter() {
        assert_eq!(press(&mut session, *key), (Outcome::Continue, vec![]));
    }
    assert_eq!(session.query(), "hell");
    assert_eq!(names(&session), vec!["alpha"]);
}

#[test]
fn the_preview_is_wrapped_at_the_width_given() {
    let notes = vec![Note::new("memo.txt".to_string(), "one two three four".to_string())];
    let mut session = start(&notes);
    let mut out = Vec::new();
    assert_eq!(session.step(&Event::Key(Key::Char('o')), &mut out), Outcome::Draw);
    session.draw(8, &mut out);
    assert!(out.contains(&text("one two")));
}

#[test]
fn edit_file_announces_the_command() {
    let mut out = Vec::new();
    edit_file("nano", "/tmp/a b.txt", &mut out);
    assert_eq!(
        out,
        vec![
            TermOp::LineFeed,
            TermOp::CarriageReturn,
            text("nano /tmp/a b.txt"),
            TermOp::LineFeed,
            TermOp::CarriageReturn,
        ]
    );
}

#[test]
fn edit_note_gives_the_path_of_the_note() {
    let note = Note::new("dir/alpha.txt".to_string(), "hello".to_string());
    let mut out = Vec::new();
    assert_eq!(edit_note("vi", &note, &mut out), "dir/alpha.txt");
    assert_eq!(encode(&out), "\n\rvi dir/alpha.txt\n\r");
}

#[test]
fn create_note_joins_the_directory_the_name_and_the_extension() {
    let mut out = Vec::new();
    assert_eq!(create_note("vi", "/notes", "xyz", &mut out), "/notes/xyz.txt");
    assert_eq!(encode(&out), "\n\rvi /notes/xyz.txt\n\r");
    let mut out = Vec::new();
    assert_eq!(create_note("vi", ".", "shopping list", &mut out), "./shopping list.txt");
    assert_eq!(create_note("vi", "notes/", "list", &mut out), "notes/list.txt");
}

#[test]
fn create_note_keeps_the_whole_name_before_the_extension() {
    let mut out = Vec::new();
    assert_eq!(create_note("vi", "/notes", "v1.2", &mut out), "/notes/v1.2.txt");
    assert_eq!(create_note("vi", "/notes", "draft.md", &mut out), "/notes/draft.md.txt");
    assert_eq!(create_note("vi", "/notes", "notes.txt", &mut out), "/notes/notes.txt.txt");
    assert_eq!(create_note("vi", "/notes", "", &mut out), "/notes/.txt");
}
