//! Joining paths.

use vstd::prelude::*;
use vstd::string::*;

verus! {

/// A character that separates the components of a path on some platform.
pub open spec fn is_separator(c: char) -> bool {
    c == '/' || c == '\\'
}

/// A name of one component, relative on every platform, that names neither its own directory nor the
/// one above.
pub open spec fn is_component(name: Seq<char>) -> bool {
    &&& name.len() > 0
    &&& name[0] != '.'
    &&& forall|i: int|
        0 <= i < name.len() ==> !is_separator(#[trigger] name[i]) && name[i] != ':'
}

/// A path with the verbatim prefix `\\?\`.
pub open spec fn is_verbatim(path: Seq<char>) -> bool {
    path.len() >= 4 && path[0] == '\\' && path[1] == '\\' && path[2] == '?' && path[3] == '\\'
}

/// A component below a directory: after a separator, which is missing only where the directory is
/// empty or ends with a separator or a drive. A verbatim directory may be brought into normal form;
/// of it no more is said than that the component stands at the end.
pub open spec fn is_joined(path: Seq<char>, directory: Seq<char>, name: Seq<char>) -> bool {
    ||| path == directory + seq!['/'] + name
    ||| path == directory + seq!['\\'] + name
    ||| path == directory + name && (directory.len() == 0 || is_separator(directory.last())
        || directory.last() == ':')
    ||| is_verbatim(directory) && name.is_suffix_of(path)
}

/// A component below a component below a directory.
pub open spec fn is_nested(
    path: Seq<char>,
    directory: Seq<char>,
    first: Seq<char>,
    second: Seq<char>,
) -> bool {
    exists|middle: Seq<char>|
        #[trigger] is_joined(middle, directory, first) && is_joined(path, middle, second)
}

/// Calls `std::path::Path::join`, which adjoins a relative path with the separator of the platform
/// where one is needed. Which separator that is depends on the platform and is left open, and so is
/// the normal form that Windows gives to verbatim paths.
#[verifier::external_body]
pub(crate) fn join_path(directory: &str, name: &str) -> (result: String)
    requires
        is_component(name@),
    ensures
        is_joined(result@, directory@, name@),
{
    std::path::Path::new(directory).join(name).to_string_lossy().into_owned()
}

} // verus!
