//! Paths, as text.

use vstd::prelude::*;

verus! {

/// A path with one more component.
pub uninterp spec fn joined_path(base: Seq<char>, name: Seq<char>) -> Seq<char>;

/// The directory that holds a path, if it has one.
pub uninterp spec fn parent_directory(path: Seq<char>) -> Option<Seq<char>>;

/// A path with its extension replaced.
pub uninterp spec fn with_extension(path: Seq<char>, extension: Seq<char>) -> Seq<char>;

/// Calls [`std::path::Path::join`]. What it returns is taken to be decided by
/// the two paths alone, under the path rules of the platform this is built for.
/// Which separator stands between them is the platform's, and not claimed.
#[verifier::external_body]
pub(crate) fn join(base: &str, name: &str) -> (path: String)
    ensures
        path@ == joined_path(base@, name@),
{
    std::path::Path::new(base).join(name).display().to_string()
}

/// Calls [`std::path::Path::parent`]. What it returns is taken to be decided
/// by the path alone, under the path rules of the platform this is built for.
#[verifier::external_body]
pub(crate) fn parent(path: &str) -> (parent: Option<String>)
    ensures
        match parent {
            Some(parent) => parent_directory(path@) == Some(parent@),
            None => parent_directory(path@) is None,
        },
{
    std::path::Path::new(path).parent().map(|parent| parent.display().to_string())
}

/// Calls [`std::path::Path::with_extension`]. What it returns is taken to be
/// decided by the path and the extension alone, under the path rules of the
/// platform this is built for. That it differs from the path is not claimed: a
/// path without a file name comes back as it is.
#[verifier::external_body]
pub(crate) fn replace_extension(path: &str, extension: &str) -> (replaced: String)
    requires
        !extension@.contains('/'),
        !extension@.contains('\\'),
    ensures
        replaced@ == with_extension(path@, extension@),
{
    std::path::Path::new(path).with_extension(extension).display().to_string()
}

} // verus!
