use velocity::input::{handle_event, Action, Event, Key, QueryBuffer};
use velocity::terminal::TermOp;

fn typed(text: &str) -> QueryBuffer {
    let mut query = QueryBuffer::new();
    for c in text.chars() {
        query.push(c);
    }
    query
}

fn press(key: Key, query: &mut QueryBuffer) -> (Action, Vec<TermOp>) {
    let mut out = Vec::new();
    let action = handle_event(&Event::Key(key), &mut out, query);
    (action, out)
}

#[test]
fn a_new_buffer_is_empty() {
    let query = QueryBuffer::new();
    assert_eq!(query.text(), "");
    assert_eq!(query.len(), 0);
    assert!(query.is_empty());
}

#[test]
fn push_and_pop_keep_the_length() {
    let mut query = QueryBuffer::new();
    query.push('a');
    query.push('é');
    assert_eq!(query.text(), "aé");
    assert_eq!(query.len(), 2);
    assert!(!query.is_empty());
    assert_eq!(query.pop(), Some('é'));
    assert_eq!(query.len(), 1);
    assert_eq!(query.pop(), Some('a'));
    assert_eq!(query.pop(), None);
    assert_eq!(query.len(), 0);
    assert_eq!(query.text(), "");
}

#[test]
fn control_c_and_control_d_exit() {
    let mut query = typed("ab");
    assert_eq!(press(Key::Ctrl('c'), &mut query), (Action::Exit, vec![]));
    assert_eq!(press(Key::Ctrl('d'), &mut query), (Action::Exit, vec![]));
    assert_eq!(query.text(), "ab");
    assert_eq!(query.len(), 2);
}

#[test]
fn enter_edits_and_leaves_the_query() {
    let mut query = typed("ab");
    assert_eq!(press(Key::Char('\n'), &mut query), (Action::Edit, vec![]));
    assert_eq!(query.text(), "ab");
    let mut empty = QueryBuffer::new();
    assert_eq!(press(Key::Char('\n'), &mut empty), (Action::Edit, vec![]));
    assert_eq!(empty.text(), "");
}

#[test]
fn a_character_is_appended_echoed_and_searched() {
    let mut query = typed("ab");
    let (action, out) = press(Key::Char('c'), &mut query);
    assert_eq!(action, Action::Search);
    assert_eq!(out, vec![TermOp::Text("c".to_string())]);
    assert_eq!(query.text(), "abc");
    assert_eq!(query.len(), 3);
}

#[test]
fn the_first_character_asks_for_a_search() {
    let mut query = QueryBuffer::new();
    let (action, out) = press(Key::Char('x'), &mut query);
    assert_eq!(action, Action::Search);
    assert_eq!(out, vec![TermOp::Text("x".to_string())]);
    assert_eq!(query.text(), "x");
}

#[test]
fn a_space_and_a_tab_are_characters() {
    let mut query = typed("a");
    assert_eq!(press(Key::Char(' '), &mut query).0, Action::Search);
    assert_eq!(press(Key::Char('\t'), &mut query).0, Action::Search);
    assert_eq!(query.text(), "a \t");
    assert_eq!(query.len(), 3);
}

#[test]
fn backspace_removes_the_last_character_and_searches() {
    let mut query = typed("abc");
    let (action, out) = press(Key::Backspace, &mut query);
    assert_eq!(action, Action::Search);
    assert_eq!(out, vec![TermOp::CursorLeft(1), TermOp::ClearAfterCursor]);
    assert_eq!(query.text(), "ab");
    assert_eq!(query.len(), 2);
}

#[test]
fn backspace_to_the_empty_query_asks_for_nothing() {
    let mut query = typed("a");
    let (action, out) = press(Key::Backspace, &mut query);
    assert_eq!(action, Action::Nothing);
    assert_eq!(out, vec![TermOp::CursorLeft(1), TermOp::ClearAfterCursor]);
    assert_eq!(query.text(), "");
    assert_eq!(query.len(), 0);
}

#[test]
fn backspace_on_the_empty_query_is_a_no_op() {
    let mut query = QueryBuffer::new();
    let (action, out) = press(Key::Backspace, &mut query);
    assert_eq!(action, Action::Nothing);
    assert!(out.is_empty());
    assert_eq!(query.text(), "");
    assert_eq!(query.len(), 0);
}

#[test]
fn other_keys_are_ignored() {
    let keys = [
        Key::Left,
        Key::Right,
        Key::Up,
        Key::Down,
        Key::Home,
        Key::End,
        Key::PageUp,
        Key::PageDown,
        Key::BackTab,
        Key::Delete,
        Key::Insert,
        Key::F(1),
        Key::F(12),
        Key::Alt('a'),
        Key::Ctrl('a'),
        Key::Ctrl('z'),
        Key::Null,
        Key::Esc,
    ];
    for key in keys.iter() {
        let mut query = typed("ab");
        assert_eq!(press(*key, &mut query), (Action::Nothing, vec![]), "{:?}", key);
        assert_eq!(query.text(), "ab");
        assert_eq!(query.len(), 2);
    }
}

#[test]
fn events_that_are_no_keys_are_ignored() {
    for event in [Event::Mouse, Event::Unsupported].iter() {
        let mut query = typed("ab");
        let mut out = Vec::new();
        assert_eq!(handle_event(event, &mut out, &mut query), Action::Nothing);
        assert!(out.is_empty());
        assert_eq!(query.text(), "ab");
    }
}

#[test]
fn output_is_appended_to_what_is_there() {
    let mut query = QueryBuffer::new();
    let mut out = vec![TermOp::LineFeed];
    handle_event(&Event::Key(Key::Char('a')), &mut out, &mut query);
    handle_event(&Event::Key(Key::Backspace), &mut out, &mut query);
    assert_eq!(
        out,
        vec![
            TermOp::LineFeed,
            TermOp::Text("a".to_string()),
            TermOp::CursorLeft(1),
            TermOp::ClearAfterCursor,
        ]
    );
}

#[test]
fn no_search_is_asked_for_with_an_empty_query() {
    let keys = [Key::Backspace, Key::Char('a'), Key::Char('\n'), Key::Ctrl('c'), Key::Left];
    for start in ["", "a", "ab"].iter() {
        for key in keys.iter() {
            let mut query = typed(start);
            let (action, _) = press(*key, &mut query);
            if query.is_empty() {
                assert_ne!(action, Action::Search, "{:?} on {:?}", key, start);
            }
        }
    }
}
