//! File-system paths as texts. What a path means is left to `std::path`.

use vstd::prelude::*;

verus! {

/// Whether `std::path` takes `path` to be relative.
pub uninterp spec fn path_is_relative(path: Seq<char>) -> bool;

/// The parent that `std::path` finds for `path`, if it finds one.
pub uninterp spec fn path_parent(path: Seq<char>) -> Option<Seq<char>>;

/// The final component that `std::path` finds in `path`, if it finds one.
pub uninterp spec fn path_file_name(path: Seq<char>) -> Option<Seq<char>>;

/// The path that `std::path` makes of `name` taken inside `directory`.
pub uninterp spec fn path_joined(directory: Seq<char>, name: Seq<char>) -> Seq<char>;

/// Whether `path` is relative.
///
/// Trusted: calls `std::path::Path::is_relative`, whose answer depends on the
/// text alone and is named by [`path_is_relative`].
#[verifier::external_body]
pub(crate) fn is_relative(path: &str) -> (relative: bool)
    ensures
        relative == path_is_relative(path@),
{
    std::path::Path::new(path).is_relative()
}

/// The parent of `path`: the path without its final component.
///
/// Trusted: calls `std::path::Path::parent`, whose answer depends on the text
/// alone and is named by [`path_parent`]. There is none for a root and for the
/// empty path.
#[verifier::external_body]
pub(crate) fn parent(path: &str) -> (found: Option<String>)
    ensures
        match found {
            Some(directory) => path_parent(path@) == Some(directory@),
            None => path_parent(path@) is None,
        },
{
    std::path::Path::new(path).parent().map(|p| p.to_string_lossy().into_owned())
}

/// The final component of `path`.
///
/// Trusted: calls `std::path::Path::file_name`, whose answer depends on the
/// text alone and is named by [`path_file_name`]. There is none for a path
/// that ends in `..`.
#[verifier::external_body]
pub(crate) fn file_name(path: &str) -> (found: Option<String>)
    ensures
        match found {
            Some(name) => path_file_name(path@) == Some(name@),
            None => path_file_name(path@) is None,
        },
{
    std::path::Path::new(path).file_name().map(|n| n.to_string_lossy().into_owned())
}

/// The path of `name` inside `directory`.
///
/// Trusted: calls `std::path::Path::join`, whose answer depends on the two
/// texts alone and is named by [`path_joined`].
#[verifier::external_body]
pub(crate) fn join(directory: &str, name: &str) -> (path: String)
    ensures
        path@ == path_joined(directory@, name@),
{
    std::path::Path::new(directory).join(name).to_string_lossy().into_owned()
}

} // verus!
