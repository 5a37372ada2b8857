//! The input state machine: what one key does to the query and which action
//! it asks for.

use crate::render::{echo_delete, echo_insert};
use crate::terminal::{ops_view, Op, TermOp};
use vstd::prelude::*;

verus! {

/// A key of the keyboard.
#[derive(Clone, Copy, Debug, PartialEq, Eq, Structural)]
pub enum Key {
    Backspace,
    Left,
    Right,
    Up,
    Down,
    Home,
    End,
    PageUp,
    PageDown,
    BackTab,
    Delete,
    Insert,
    /// A function key, by its number.
    F(u8),
    /// A character key; the enter key is the line feed.
    Char(char),
    /// A character typed with alt held.
    Alt(char),
    /// A character typed with control held.
    Ctrl(char),
    Null,
    Esc,
}

/// An event that the terminal reports.
#[derive(Clone, Copy, Debug, PartialEq, Eq, Structural)]
pub enum Event {
    /// A key was pressed.
    Key(Key),
    /// The mouse did something.
    Mouse,
    /// Input that stands for no known event.
    Unsupported,
}

/// What the user wants done.
#[derive(Clone, Copy, Debug, PartialEq, Eq, Structural)]
pub enum Action {
    /// Leave the program.
    Exit,
    /// Nothing.
    Nothing,
    /// Open the editor.
    Edit,
    /// Search for the query as it now stands.
    Search,
}

impl Event {
    /// Whether the event asks to leave: control with `c` or with `d`.
    pub open spec fn is_interrupt(self) -> bool {
        self == Event::Key(Key::Ctrl('c')) || self == Event::Key(Key::Ctrl('d'))
    }

    /// Whether the event is the enter key.
    pub open spec fn is_enter(self) -> bool {
        self == Event::Key(Key::Char('\n'))
    }

    /// Whether the event is the backspace key.
    pub open spec fn is_backspace(self) -> bool {
        self == Event::Key(Key::Backspace)
    }

    /// The character that the event types into the query, if it types one:
    /// any character key but enter.
    pub open spec fn typed(self) -> Option<char> {
        match self {
            Event::Key(Key::Char(c)) => if c == '\n' {
                None
            } else {
                Some(c)
            },
            _ => None,
        }
    }

    /// The query after the event, where `text` is the query before it.
    pub open spec fn text_after(self, text: Seq<char>) -> Seq<char> {
        if self.is_backspace() && text.len() > 0 {
            text.drop_last()
        } else if let Some(c) = self.typed() {
            text.push(c)
        } else {
            text
        }
    }

    /// The action that the event asks for, where `text` is the query before
    /// it. A search is asked for only when the query has changed and is not
    /// empty.
    pub open spec fn action(self, text: Seq<char>) -> Action {
        if self.is_interrupt() {
            Action::Exit
        } else if self.is_enter() {
            Action::Edit
        } else if self.is_backspace() {
            if text.len() > 1 {
                Action::Search
            } else {
                Action::Nothing
            }
        } else if self.typed() is Some {
            Action::Search
        } else {
            Action::Nothing
        }
    }

    /// What the event echoes on the input row, where `text` is the query
    /// before it: a typed character is printed, and a backspace that deletes
    /// one steps back and erases from there.
    pub open spec fn echo(self, text: Seq<char>) -> Seq<Op> {
        if self.is_backspace() && text.len() > 0 {
            seq![Op::Left(1), Op::ClearAfter]
        } else if let Some(c) = self.typed() {
            seq![Op::Text(seq![c])]
        } else {
            Seq::empty()
        }
    }
}

/// The query as typed so far, with its length in characters.
pub struct QueryBuffer {
    text: String,
    length: usize,
}

impl View for QueryBuffer {
    type V = Seq<char>;

    closed spec fn view(&self) -> Seq<char> {
        self.text@
    }
}

impl QueryBuffer {
    /// The length that the buffer keeps is the number of characters of its
    /// text.
    #[verifier::type_invariant]
    spec fn length_is_kept(&self) -> bool {
        self.length == self.text@.len()
    }

    /// The empty query.
    pub fn new() -> (buffer: QueryBuffer)
        ensures
            buffer@ == Seq::<char>::empty(),
    {
        QueryBuffer { text: String::new(), length: 0 }
    }

    /// The query's text.
    pub fn text(&self) -> (text: &str)
        ensures
            text@ == self@,
    {
        self.text.as_str()
    }

    /// The number of characters of the query.
    pub fn len(&self) -> (length: usize)
        ensures
            length == self@.len(),
    {
        proof {
            use_type_invariant(self);
        }
        self.length
    }

    /// Whether nothing is typed.
    pub fn is_empty(&self) -> (empty: bool)
        ensures
            empty == (self@.len() == 0),
    {
        proof {
            use_type_invariant(self);
        }
        self.length == 0
    }

    /// Appends a typed character.
    pub fn push(&mut self, c: char)
        requires
            old(self)@.len() < usize::MAX,
        ensures
            final(self)@ == old(self)@.push(c),
    {
        // The buffer is taken apart and put together again, so that it never
        // exists with a length that is not its text's.
        let mut taken = QueryBuffer::new();
        core::mem::swap(self, &mut taken);
        proof {
            use_type_invariant(&taken);
        }
        let QueryBuffer { mut text, length } = taken;
        text.push(c);
        *self = QueryBuffer { text, length: length + 1 };
    }

    /// Removes the last character and returns it; `None`, and no change, on
    /// the empty query.
    pub fn pop(&mut self) -> (last: Option<char>)
        ensures
            old(self)@.len() == 0 ==> last is None && final(self)@ == old(self)@,
            old(self)@.len() > 0 ==> last == Some(old(self)@.last()) && final(self)@ == old(
                self,
            )@.drop_last(),
    {
        let mut taken = QueryBuffer::new();
        core::mem::swap(self, &mut taken);
        proof {
            use_type_invariant(&taken);
        }
        let QueryBuffer { mut text, length } = taken;
        let last = text.pop();
        let length: usize = if last.is_some() {
            length - 1
        } else {
            length
        };
        *self = QueryBuffer { text, length };
        last
    }
}

/// Handles one terminal event: updates the query, echoes the change on the
/// input row, and returns the action that the event asks for.
///
/// Control with `c` or `d` asks to exit and enter asks to edit; neither
/// touches the query. Backspace removes the last character; on the empty
/// query it does nothing at all. Any other character key appends its
/// character. Every other event is ignored.
pub fn handle_event(event: &Event, out: &mut Vec<TermOp>, query: &mut QueryBuffer) -> (action:
    Action)
    requires
        old(query)@.len() < usize::MAX,
    ensures
        final(query)@ == event.text_after(old(query)@),
        action == event.action(old(query)@),
        ops_view(final(out)@) == ops_view(old(out)@) + event.echo(old(query)@),
{
    proof {
        assert(ops_view(old(out)@) + Seq::<Op>::empty() =~= ops_view(old(out)@));
    }
    match *event {
        Event::Key(Key::Ctrl('c')) => Action::Exit,
        Event::Key(Key::Ctrl('d')) => Action::Exit,
        Event::Key(Key::Char('\n')) => Action::Edit,
        Event::Key(Key::Backspace) => {
            match query.pop() {
                Some(_) => {
                    echo_delete(out);
                    if query.len() > 0 {
                        Action::Search
                    } else {
                        Action::Nothing
                    }
                },
                None => Action::Nothing,
            }
        },
        Event::Key(Key::Char(c)) => {
            query.push(c);
            echo_insert(c, out);
            Action::Search
        },
        _ => Action::Nothing,
    }
}

/// Empty-query suppression. No event asks for a search and leaves the query
/// empty: whenever a search is asked for, there is something to search for.
pub proof fn law_no_search_for_empty_query(event: Event, text: Seq<char>)
    ensures
        event.text_after(text).len() == 0 ==> event.action(text) != Action::Search,
{
}

/// The backspace boundary. Backspace on the empty query leaves it empty,
/// echoes nothing, and asks for nothing.
pub proof fn law_backspace_on_empty_query(event: Event, text: Seq<char>)
    requires
        event.is_backspace(),
        text.len() == 0,
    ensures
        event.text_after(text) == text,
        event.echo(text) == Seq::<Op>::empty(),
        event.action(text) == Action::Nothing,
{
}

} // verus!
