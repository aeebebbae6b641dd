//! What the dispatch of sources and sinks by file extension rests on.

use vstd::prelude::*;
use vstd::string::*;

verus! {

/// The extension of a path, as `std::path::Path::extension` tells it: the
/// part of the file name after its last dot, and none where the path has no
/// file name, the file name has no dot, or its only dot is its first
/// character.
pub uninterp spec fn path_extension(path: Seq<char>) -> Option<Seq<char>>;

/// `std::path::Path::extension`, on the path that `path` spells.
#[verifier::external_body]
pub(crate) fn extension_of(path: &str) -> (r: Option<String>)
    ensures
        r is None <==> path_extension(path@) is None,
        r matches Some(extension) ==> path_extension(path@) == Some(extension@),
{
    match std::path::Path::new(path).extension() {
        Some(extension) => extension.to_str().map(|e| e.to_string()),
        None => None,
    }
}

/// What the error of a path of no registered extension carries: the
/// extension of the path, or the path itself where it has no extension.
pub open spec fn unregistered_text(path: Seq<char>) -> Seq<char> {
    match path_extension(path) {
        Some(extension) => extension,
        None => path,
    }
}

/// What the error of a path of no registered extension carries, given the
/// extension of the path.
pub(crate) fn unregistered(path: &str, extension: Option<String>) -> (text: String)
    ensures
        text@ == (match extension {
            Some(e) => e@,
            None => path@,
        }),
{
    match extension {
        Some(e) => e,
        None => String::from_str(path),
    }
}

/// Whether a string spells what a string slice spells.
pub(crate) fn spells(text: &String, word: &str) -> (b: bool)
    ensures
        b == (text@ == word@),
{
    let other: String = String::from_str(word);
    text.eq(&other)
}

} // verus!
