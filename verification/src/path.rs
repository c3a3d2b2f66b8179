//! File-system paths as the configuration logic carries them.
//!
//! A path is carried through the logic as an opaque value: the logic never
//! looks inside one, except to show it in an error message.

use std::path::PathBuf;
use vstd::prelude::*;

verus! {

#[verifier::external_type_specification]
#[verifier::external_body]
pub struct ExPathBuf(PathBuf);

/// The text of `path` when it is valid Unicode, `None` otherwise: the result of
/// `std::path::Path::to_str` on it.
pub uninterp spec fn path_text(path: PathBuf) -> Option<Seq<char>>;

/// Calls `std::path::Path::to_str` on `path`.
/// Trusted: the text handed back is `path_text(*path)`, and `None` comes back
/// exactly when `path_text(*path)` is `None`.
#[verifier::external_body]
pub(crate) fn path_to_str(path: &PathBuf) -> (r: Option<&str>)
    ensures
        r is None <==> path_text(*path) is None,
        r matches Some(s) ==> path_text(*path) == Some(s@),
{
    path.to_str()
}

} // verus!
