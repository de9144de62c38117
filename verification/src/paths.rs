//! What the editor reads out of a file's path: its last component and its
//! extension. Both are taken by `std::path::Path`, with the rules of the
//! platform that the crate is built for.

use std::path::Path;
use vstd::prelude::*;

verus! {

/// The last component of a path, as `Path::file_name` gives it: `None` where
/// the path has none, as for a path that ends in `..`.
pub uninterp spec fn path_file_name(path: Seq<char>) -> Option<Seq<char>>;

/// The extension of a path, as `Path::extension` gives it: what follows the
/// last dot of the last component, `None` where there is no such part.
pub uninterp spec fn path_extension(path: Seq<char>) -> Option<Seq<char>>;

/// The view of a text that may be absent.
pub open spec fn text_view(text: Option<&str>) -> Option<Seq<char>> {
    match text {
        Some(text) => Some(text@),
        None => None,
    }
}

/// Calls `Path::file_name` on the path and hands its answer out as text. The
/// answer depends on the path alone, and the contract gives it its name.
#[verifier::external_body]
pub(crate) fn file_name(path: &str) -> (name: Option<&str>)
    ensures
        text_view(name) == path_file_name(path@),
{
    match Path::new(path).file_name() {
        Some(name) => name.to_str(),
        None => None,
    }
}

/// Calls `Path::extension` on the path and hands its answer out as text. The
/// answer depends on the path alone, and the contract gives it its name.
#[verifier::external_body]
pub(crate) fn extension(path: &str) -> (extension: Option<&str>)
    ensures
        text_view(extension) == path_extension(path@),
{
    match Path::new(path).extension() {
        Some(extension) => extension.to_str(),
        None => None,
    }
}

} // verus!
