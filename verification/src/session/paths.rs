//! Paths of files in the storage folder.

use vstd::prelude::*;

verus! {

/// The path that `std::path::Path::join` makes of a folder and a file name, as text, on the
/// platform that the crate is built for.
pub uninterp spec fn joined_path(folder: Seq<char>, name: Seq<char>) -> Seq<char>;

/// Adjoins `name` to `folder`: `std::path::Path::join`, with `Path::new` before it and
/// `Path::to_string_lossy` after it.
///
/// Believed, not proved: the path depends on the two texts alone, on the platform that the
/// crate is built for. Both are valid UTF-8, so turning the path back into text loses nothing.
#[verifier::external_body]
pub(crate) fn join_path(folder: &str, name: &str) -> (path: String)
    ensures
        path@ == joined_path(folder@, name@),
{
    std::path::Path::new(folder).join(name).to_string_lossy().into_owned()
}

} // verus!
