//! How a changed path is displayed: relative to the working directory where it
//! lies under it, as it came otherwise.

use vstd::prelude::*;
use vstd::string::StringExecFns;

verus! {

/// What `std::path::Path::strip_prefix` returns for `path` and `base`, both
/// given as text: the rest of the path where `base` is a prefix of it by whole
/// components, nothing where it is not. It goes by the text alone, read by
/// the path conventions of the platform that the library is built for.
pub uninterp spec fn path_remainder(path: Seq<char>, base: Seq<char>) -> Option<Seq<char>>;

/// Calls `std::path::Path::strip_prefix` on the two texts and hands the rest
/// back as text. The result is a function of the two texts alone, under the
/// path conventions of the platform the library is built for.
#[verifier::external_body]
fn strip_prefix(path: &str, base: &str) -> (rest: Option<String>)
    ensures
        match rest {
            Some(text) => path_remainder(path@, base@) == Some(text@),
            None => path_remainder(path@, base@) is None,
        },
{
    match std::path::Path::new(path).strip_prefix(base) {
        Ok(rest) => Some(rest.display().to_string()),
        Err(_) => None,
    }
}

/// The path lies under the directory.
pub open spec fn lies_under(path: Seq<char>, dir: Seq<char>) -> bool {
    path_remainder(path, dir) is Some
}

/// The path as it is displayed for the working directory `cwd`.
pub open spec fn relativized(cwd: Seq<char>, path: Seq<char>) -> Seq<char> {
    match path_remainder(path, cwd) {
        Some(rest) => rest,
        None => path,
    }
}

/// Displays a path: without the working directory in front where the path
/// lies under it, unchanged where it does not.
pub fn relativize(cwd: &str, path: &str) -> (shown: String)
    ensures
        shown@ == relativized(cwd@, path@),
        lies_under(path@, cwd@) ==> Some(shown@) == path_remainder(path@, cwd@),
        !lies_under(path@, cwd@) ==> shown@ == path@,
{
    match strip_prefix(path, cwd) {
        Some(rest) => rest,
        None => String::from_str(path),
    }
}

} // verus!
