//! File-system paths as text. Nothing here touches a file system: the two
//! operations only take paths apart and put them together, by the rules of the
//! platform that the crate is built for.

use vstd::prelude::*;
use std::path::Path;
use crate::text::opt_text;

verus! {

/// What `Path::join` gives for `base` and `rest`, as text: `rest` adjoined to
/// `base`, or `rest` alone where it is absolute.
pub uninterp spec fn joined_path(base: Seq<char>, rest: Seq<char>) -> Seq<char>;

/// What `Path::strip_prefix` gives for `path` and `base`, as text: the rest of
/// `path` below `base`, or `None` where `base` is no prefix of `path` by whole
/// components.
pub uninterp spec fn path_below(path: Seq<char>, base: Seq<char>) -> Option<Seq<char>>;

/// Calls `Path::join`. Not proved: that the result is the one named by
/// [`joined_path`], a function of the two texts alone. Both are valid UTF-8,
/// so the joined path is too, and writing it out as text loses nothing.
#[verifier::external_body]
pub(crate) fn join_path(base: &str, rest: &str) -> (out: String)
    ensures
        out@ == joined_path(base@, rest@),
{
    Path::new(base).join(rest).to_string_lossy().into_owned()
}

/// Calls `Path::strip_prefix`. Not proved: that the result is the one named by
/// [`path_below`], a function of the two texts alone. What is left of a UTF-8
/// path is UTF-8, so the text is always there when the prefix fits.
#[verifier::external_body]
pub(crate) fn strip_base(path: &str, base: &str) -> (out: Option<String>)
    ensures
        opt_text(out) == path_below(path@, base@),
{
    Path::new(path).strip_prefix(base).ok().map(|rest| rest.to_string_lossy().into_owned())
}

} // verus!
