//! File paths as texts, and the path computations of `std::path` that the
//! library calls.

use vstd::prelude::*;

verus! {

/// The stem of a path's final component, as `Path::file_stem` gives it: the
/// file name without its extension, or `None` where the path has no file name.
pub uninterp spec fn file_stem_of(path: Seq<char>) -> Option<Seq<char>>;

/// The path that `Path::join` makes of a base directory and a further path.
pub uninterp spec fn joined_path(base: Seq<char>, name: Seq<char>) -> Seq<char>;

/// The views of an optional text.
pub open spec fn view_of(text: Option<String>) -> Option<Seq<char>> {
    match text {
        Some(s) => Some(s@),
        None => None,
    }
}

/// Calls `Path::file_stem` on the path that the text spells. The stem of a
/// path that is valid text is valid text, so nothing is lost in handing it
/// back as a `String`. The result depends on the path alone and is named
/// [`file_stem_of`].
#[verifier::external_body]
pub(crate) fn file_stem(path: &str) -> (stem: Option<String>)
    ensures
        view_of(stem) == file_stem_of(path@),
{
    std::path::Path::new(path).file_stem().map(|stem| stem.to_string_lossy().into_owned())
}

/// Calls `Path::join`. The result depends on the two paths alone and is named
/// [`joined_path`].
#[verifier::external_body]
pub(crate) fn join(base: &str, name: &str) -> (joined: String)
    ensures
        joined@ == joined_path(base@, name@),
{
    std::path::Path::new(base).join(name).to_string_lossy().into_owned()
}

} // verus!
