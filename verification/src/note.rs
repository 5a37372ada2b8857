//! Notes: what is a note file, what a note is called, and whether it matches
//! a search term.

use crate::paths::{file_stem, file_stem_of, view_of};
use crate::text::{
    chars_of, contains_chars, ends_with, fill, filled, first_line, first_line_of, is_substring,
    lowercase_of, to_lowercase,
};
use vstd::prelude::*;
use vstd::string::*;

verus! {

/// The extension by which a note file is known, with its dot.
pub open spec fn note_suffix() -> Seq<char> {
    seq!['.', 't', 'x', 't']
}

/// The title of a note whose file has no stem to take one from.
pub open spec fn unnamed_title() -> Seq<char> {
    seq!['?', '?', '?']
}

/// The title of a note, given the stem of its file name: the stem, or the
/// placeholder `???` where there is none or it is not valid text.
pub open spec fn title_of(stem: Option<Seq<char>>) -> Seq<char> {
    match stem {
        Some(stem) => stem,
        None => unnamed_title(),
    }
}

/// What a directory scan tells of one entry.
pub struct Entry {
    /// Whether the entry is a regular file.
    pub is_file: bool,
    /// The entry's file name, where it is valid text.
    pub file_name: Option<String>,
    /// Where the entry lies.
    pub path: String,
}

impl Entry {
    /// Whether the entry is a note file: a regular file whose name is valid
    /// text and ends in `.txt`.
    pub open spec fn is_note_spec(&self) -> bool {
        &&& self.is_file
        &&& self.file_name matches Some(name)
        &&& note_suffix().is_suffix_of(name@)
    }
}

/// Whether a directory entry is a note file.
pub fn is_note(entry: &Entry) -> (yes: bool)
    ensures
        yes == entry.is_note_spec(),
{
    if !entry.is_file {
        return false;
    }
    match &entry.file_name {
        Some(name) => {
            proof {
                reveal_strlit(".txt");
            }
            let suffix = chars_of(".txt");
            assert(suffix@ =~= note_suffix());
            ends_with(&chars_of(name.as_str()), &suffix)
        },
        None => false,
    }
}

/// The title for a file stem: the stem itself, or `???` where there is none
/// or it could not be decoded as text.
pub fn title_from_stem(stem: Option<String>) -> (title: String)
    ensures
        title@ == title_of(view_of(stem)),
{
    match stem {
        Some(stem) => stem,
        None => {
            proof {
                reveal_strlit("???");
            }
            let title = String::from_str("???");
            assert(title@ =~= unnamed_title());
            title
        },
    }
}

/// The human-readable title of the note at `path`: its file name with the
/// extension stripped, or `???` where the path has no file name.
pub fn note_name(path: &str) -> (title: String)
    ensures
        title@ == title_of(file_stem_of(path@)),
{
    title_from_stem(file_stem(path))
}

/// One note: where its file lies, what it is called, and its full text as it
/// was when the note was loaded.
pub struct Note {
    path: String,
    contents: String,
    name: String,
}

/// A note's three texts.
pub struct NoteView {
    pub path: Seq<char>,
    pub contents: Seq<char>,
    pub name: Seq<char>,
}

impl View for Note {
    type V = NoteView;

    closed spec fn view(&self) -> NoteView {
        NoteView { path: self.path@, contents: self.contents@, name: self.name@ }
    }
}

impl NoteView {
    /// The note's preview at a width: the first line of its contents wrapped
    /// at that width.
    pub open spec fn preview(self, width: nat) -> Seq<char> {
        first_line_of(filled(self.contents, width))
    }

    /// Whether the note matches a search term: the lower-cased term is a
    /// contiguous substring of the lower-cased title or of the lower-cased
    /// contents.
    pub open spec fn matches(self, term: Seq<char>) -> bool {
        ||| is_substring(lowercase_of(term), lowercase_of(self.name))
        ||| is_substring(lowercase_of(term), lowercase_of(self.contents))
    }
}

impl Note {
    /// The note for the file at `path` whose text is `contents`. Its title is
    /// taken from the path.
    pub fn new(path: String, contents: String) -> (note: Note)
        ensures
            note@ == (NoteView {
                path: path@,
                contents: contents@,
                name: title_of(file_stem_of(path@)),
            }),
    {
        let name = note_name(path.as_str());
        Note { path, contents, name }
    }

    /// The note for a file whose path may not be valid text all through:
    /// `path` spells the path as well as text can, and `stem` is the stem of
    /// its file name, or `None` where the path has no stem or the stem is
    /// not valid text. The title is the stem, or `???` without one.
    pub fn with_stem(path: String, stem: Option<String>, contents: String) -> (note: Note)
        ensures
            note@ == (NoteView {
                path: path@,
                contents: contents@,
                name: title_of(view_of(stem)),
            }),
    {
        let name = title_from_stem(stem);
        Note { path, contents, name }
    }

    /// Where the note's file lies.
    pub fn path(&self) -> (path: &str)
        ensures
            path@ == self@.path,
    {
        self.path.as_str()
    }

    /// The note's title.
    pub fn name(&self) -> (name: &str)
        ensures
            name@ == self@.name,
    {
        self.name.as_str()
    }

    /// The note's full text.
    pub fn contents(&self) -> (contents: &str)
        ensures
            contents@ == self@.contents,
    {
        self.contents.as_str()
    }

    /// A one-line preview of the note: the first line of its contents wrapped
    /// at `width` columns. What does not fit on that line is not shown.
    pub fn preview(&self, width: usize) -> (line: String)
        ensures
            line@ == self@.preview(width as nat),
    {
        let wrapped = fill(self.contents.as_str(), width);
        first_line(wrapped.as_str())
    }

    /// Whether the note contains a term, in its title or its contents,
    /// whatever the case of the letters.
    pub fn matches(&self, term: &str) -> (yes: bool)
        ensures
            yes == self@.matches(term@),
    {
        let term_lower = chars_of(to_lowercase(term).as_str());
        if contains_chars(&chars_of(to_lowercase(self.name.as_str()).as_str()), &term_lower) {
            return true;
        }
        contains_chars(&chars_of(to_lowercase(self.contents.as_str()).as_str()), &term_lower)
    }
}

} // verus!
