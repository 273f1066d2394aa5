//! File-system paths, held as text.

use vstd::prelude::*;

verus! {

/// The path that `std::path::Path::join` gives for `name` under `dir`, on the
/// platform the library is built for.
pub uninterp spec fn joined(dir: Seq<char>, name: Seq<char>) -> Seq<char>;

/// Adjoins `name` to `dir`.
///
/// Calls `std::path::Path::join`. Trusted: the result is the one that `joined`
/// names. Both arguments are UTF-8, so the joined path is too, and its text
/// comes back unchanged.
#[verifier::external_body]
pub(crate) fn join(dir: &str, name: &str) -> (path: String)
    ensures
        path@ == joined(dir@, name@),
{
    std::path::Path::new(dir).join(name).to_string_lossy().into_owned()
}

/// A path as `std::fmt::Debug` shows it: between double quotes, with what
/// could not be read otherwise escaped.
pub uninterp spec fn quoted(path: Seq<char>) -> Seq<char>;

/// Shows a path between quotes.
///
/// Formats a `std::path::Path` with its `Debug`. Trusted: the result is the
/// one that `quoted` names.
#[verifier::external_body]
pub(crate) fn quote(path: &str) -> (shown: String)
    ensures
        shown@ == quoted(path@),
{
    format!("{:?}", std::path::Path::new(path))
}

} // verus!
