//! Paths, held as text. What a path operation gives is what `std::path`
//! gives on the platform that the library is built for.

use vstd::prelude::*;

verus! {

/// The path `base` with `name` adjoined.
pub uninterp spec fn joined_path(base: Seq<char>, name: Seq<char>) -> Seq<char>;

/// The last component of `path`, where it has one.
pub uninterp spec fn file_name_of(path: Seq<char>) -> Option<Seq<char>>;

/// `path` without its last component, where it has one.
pub uninterp spec fn parent_of(path: Seq<char>) -> Option<Seq<char>>;

/// `path` with the extension of its last component replaced by `extension`.
pub uninterp spec fn path_with_extension(path: Seq<char>, extension: Seq<char>) -> Seq<char>;

/// Whether two paths are made of the same components.
pub uninterp spec fn same_path(a: Seq<char>, b: Seq<char>) -> bool;

/// Joins a name to a path.
///
/// Wraps `Path::join`: the result is a function of the two texts.
#[verifier::external_body]
pub(crate) fn join_path(base: &str, name: &str) -> (out: String)
    ensures
        out@ == joined_path(base@, name@),
{
    std::path::Path::new(base).join(name).to_string_lossy().into_owned()
}

/// The last component of a path.
///
/// Wraps `Path::file_name`: the result is a function of the text.
#[verifier::external_body]
pub(crate) fn file_name(path: &str) -> (out: Option<String>)
    ensures
        crate::parser::opt_text(out) == file_name_of(path@),
{
    match std::path::Path::new(path).file_name() {
        Some(name) => Some(name.to_string_lossy().into_owned()),
        None => None,
    }
}

/// A path without its last component.
///
/// Wraps `Path::parent`: the result is a function of the text.
#[verifier::external_body]
pub(crate) fn parent(path: &str) -> (out: Option<String>)
    ensures
        crate::parser::opt_text(out) == parent_of(path@),
{
    match std::path::Path::new(path).parent() {
        Some(dir) => Some(dir.to_string_lossy().into_owned()),
        None => None,
    }
}

/// Whether `c` parts the components of a path on some platform.
pub open spec fn is_separator(c: char) -> bool {
    c == '/' || c == '\\'
}

/// Whether `text` holds no separator of components.
pub open spec fn separator_free(text: Seq<char>) -> bool {
    forall|i: int| 0 <= i < text.len() ==> !is_separator(#[trigger] text[i])
}

/// A path with another extension.
///
/// Wraps `Path::with_extension`: the result is a function of the two texts.
/// An extension that holds a separator is left out, for which the call does
/// not return.
#[verifier::external_body]
pub(crate) fn with_extension(path: &str, extension: &str) -> (out: String)
    requires
        separator_free(extension@),
    ensures
        out@ == path_with_extension(path@, extension@),
{
    std::path::Path::new(path).with_extension(extension).to_string_lossy().into_owned()
}

/// The path that a file at `path` is written to before it takes its place:
/// `path` with the extension `json.tmp`.
pub(crate) fn temp_path_of(path: &str) -> (out: String)
    ensures
        out@ == path_with_extension(path@, "json.tmp"@),
{
    proof {
        reveal_strlit("json.tmp");
    }
    with_extension(path, "json.tmp")
}

/// Whether two paths are equal as paths.
///
/// Wraps the `==` of `Path`, which compares component by component: the
/// result is a function of the two texts, and equal texts are equal paths.
#[verifier::external_body]
pub(crate) fn paths_equal(a: &str, b: &str) -> (equal: bool)
    ensures
        equal == same_path(a@, b@),
        a@ == b@ ==> equal,
{
    std::path::Path::new(a) == std::path::Path::new(b)
}

/// The text that shows `path` in a message: the path between double quotes,
/// with the characters that need it escaped.
pub uninterp spec fn quoted_path(path: Seq<char>) -> Seq<char>;

/// The text that shows a path in a message.
///
/// Wraps the `Debug` form of `Path`: the result is a function of the text.
#[verifier::external_body]
pub(crate) fn quote_path(path: &str) -> (out: String)
    ensures
        out@ == quoted_path(path@),
{
    format!("{:?}", std::path::Path::new(path))
}

} // verus!
