//! Paths inside a repository or a workspace, read with `std::path`.

use vstd::prelude::*;
use std::path::Path;

verus! {

/// The parent that `Path::parent` gives of a path, if it has one.
pub uninterp spec fn path_parent(p: Seq<char>) -> Option<Seq<char>>;

/// The path that `Path::join` makes of two paths.
pub uninterp spec fn path_join(base: Seq<char>, rest: Seq<char>) -> Seq<char>;

/// Whether `Path::starts_with` holds: `base`'s components are the first
/// components of `p`.
pub uninterp spec fn path_starts_with(p: Seq<char>, base: Seq<char>) -> bool;

/// Relies on `Path::parent`: the path without its last component, or `None`
/// for a root or an empty path. A parent of a `str` path is a `str` too.
#[verifier::external_body]
pub(crate) fn parent_of(p: &str) -> (r: Option<String>)
    ensures
        match r {
            Some(q) => path_parent(p@) == Some(q@),
            None => path_parent(p@) is None,
        },
{
    match Path::new(p).parent() {
        Some(q) => Some(q.to_string_lossy().into_owned()),
        None => None,
    }
}

/// Relies on `Path::join`: `rest` appended to `base` with a separator, or
/// `rest` alone where it is absolute.
#[verifier::external_body]
pub(crate) fn join(base: &str, rest: &str) -> (r: String)
    ensures
        r@ == path_join(base@, rest@),
{
    Path::new(base).join(rest).to_string_lossy().into_owned()
}

/// Relies on `Path::starts_with`: whole components are compared, so
/// `a/bc` does not start with `a/b`.
#[verifier::external_body]
pub(crate) fn starts_with(p: &str, base: &str) -> (r: bool)
    ensures
        r == path_starts_with(p@, base@),
{
    Path::new(p).starts_with(base)
}

} // verus!
