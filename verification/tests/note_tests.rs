use velocity::note::{is_note, note_name, title_from_stem, Entry, Note};

fn entry(is_file: bool, file_name: Option<&str>) -> Entry {
    Entry {
        is_file,
        file_name: file_name.map(|name| name.to_string()),
        path: format!("/notes/{}", file_name.unwrap_or("")),
    }
}

#[test]
fn a_regular_txt_file_is_a_note() {
    assert!(is_note(&entry(true, Some("alpha.txt"))));
    assert!(is_note(&entry(true, Some(".txt"))));
}

#[test]
fn a_directory_is_no_note() {
    assert!(!is_note(&entry(false, Some("alpha.txt"))));
}

#[test]
fn another_extension_is_no_note() {
    assert!(!is_note(&entry(true, Some("alpha.md"))));
    assert!(!is_note(&entry(true, Some("alpha.txt~"))));
    assert!(!is_note(&entry(true, Some("alpha.TXT"))));
    assert!(!is_note(&entry(true, Some("txt"))));
    assert!(!is_note(&entry(true, Some(""))));
}

#[test]
fn a_name_that_is_no_text_is_no_note() {
    assert!(!is_note(&entry(true, None)));
}

#[test]
fn note_name_strips_the_extension() {
    assert_eq!(note_name("alpha.txt"), "alpha");
    assert_eq!(note_name("/home/me/notes/shopping list.txt"), "shopping list");
    assert_eq!(note_name("dir/archive.tar.gz"), "archive.tar");
    assert_eq!(note_name("plain"), "plain");
    assert_eq!(note_name(".hidden"), ".hidden");
}

#[test]
fn note_name_without_file_name_is_the_placeholder() {
    assert_eq!(note_name(""), "???");
    assert_eq!(note_name("/"), "???");
    assert_eq!(note_name("notes/.."), "???");
}

#[test]
fn title_from_stem_takes_the_stem_or_the_placeholder() {
    assert_eq!(title_from_stem(Some("alpha".to_string())), "alpha");
    assert_eq!(title_from_stem(Some(String::new())), "");
    assert_eq!(title_from_stem(None), "???");
}

#[test]
fn a_new_note_keeps_its_path_and_contents() {
    let note = Note::new("notes/alpha.txt".to_string(), "hello world".to_string());
    assert_eq!(note.path(), "notes/alpha.txt");
    assert_eq!(note.name(), "alpha");
    assert_eq!(note.contents(), "hello world");
}

#[test]
fn a_note_with_a_stem_is_called_by_it() {
    let note = Note::with_stem(
        "dir/alpha.txt".to_string(),
        Some("alpha".to_string()),
        "hello".to_string(),
    );
    assert_eq!(note.path(), "dir/alpha.txt");
    assert_eq!(note.name(), "alpha");
    assert_eq!(note.contents(), "hello");
}

#[test]
fn a_note_whose_stem_is_no_text_gets_the_placeholder() {
    let note = Note::with_stem("dir/\u{fffd}.txt".to_string(), None, "hello".to_string());
    assert_eq!(note.name(), "???");
    assert_eq!(note.path(), "dir/\u{fffd}.txt");
    assert!(note.matches("???"));
    assert!(note.matches("hell"));
}

#[test]
fn matches_looks_in_title_and_contents() {
    let note = Note::new("alpha.txt".to_string(), "hello world".to_string());
    assert!(note.matches("hell"));
    assert!(note.matches("o w"));
    assert!(note.matches("alp"));
    assert!(note.matches("alpha"));
    assert!(!note.matches("xyz"));
    assert!(!note.matches("alpha.txt"));
    assert!(!note.matches("helloworld"));
}

#[test]
fn matches_ignores_case() {
    let note = Note::new("Alpha.txt".to_string(), "HELLO World".to_string());
    assert!(note.matches("hello"));
    assert!(note.matches("world"));
    assert!(note.matches("alpha"));
    let lower = Note::new("alpha.txt".to_string(), "hello world".to_string());
    assert!(lower.matches("HELL"));
    assert!(lower.matches("ALPHA"));
    assert!(lower.matches("Hello World"));
}

#[test]
fn the_empty_term_matches_every_note() {
    assert!(Note::new("alpha.txt".to_string(), "hello world".to_string()).matches(""));
    assert!(Note::new("".to_string(), "".to_string()).matches(""));
}

#[test]
fn preview_is_the_whole_of_a_short_text() {
    let note = Note::new("alpha.txt".to_string(), "hello world".to_string());
    assert_eq!(note.preview(80), "hello world");
    assert_eq!(note.preview(11), "hello world");
}

#[test]
fn preview_is_the_first_wrapped_line() {
    let note = Note::new(
        "memo.txt".to_string(),
        "Memory safety without garbage collection.".to_string(),
    );
    assert_eq!(note.preview(15), "Memory safety");
    assert_eq!(note.preview(20), "Memory safety");
    assert_eq!(note.preview(22), "Memory safety without");
    assert_eq!(note.preview(80), "Memory safety without garbage collection.");
}

#[test]
fn preview_stops_at_the_first_line_of_the_text() {
    let note = Note::new("two.txt".to_string(), "first\nsecond line".to_string());
    assert_eq!(note.preview(80), "first");
    let windows = Note::new("two.txt".to_string(), "first\r\nsecond".to_string());
    assert_eq!(windows.preview(80), "first");
}

#[test]
fn preview_of_an_empty_note_is_empty() {
    let note = Note::new("empty.txt".to_string(), String::new());
    assert_eq!(note.preview(80), "");
}

#[test]
fn preview_breaks_a_word_that_is_too_long() {
    let note = Note::new("long.txt".to_string(), "abcdefghij".to_string());
    assert_eq!(note.preview(4), "abcd");
}
