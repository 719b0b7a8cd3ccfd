//! Unix file-system paths as an anchor and the names below it.

use std::path::PathBuf;
use vstd::prelude::*;
use vstd::utf8::encode_utf8;

verus! {

/// `std::path::PathBuf`: a path, taken by its components.
#[verifier::external_type_specification]
#[verifier::external_body]
pub struct ExPathBuf(PathBuf);

/// Where a path starts from: its root directory, if it has one, as bytes.
pub uninterp spec fn path_anchor(path: PathBuf) -> Seq<u8>;

/// The components of a path below its anchor, each as bytes.
pub uninterp spec fn path_names(path: PathBuf) -> Seq<Seq<u8>>;

/// The text as which `std::path::Path::display` shows a path.
pub uninterp spec fn path_text(path: PathBuf) -> Seq<char>;

/// A path, mathematically. Two paths are equal if and only if their components are.
pub struct PathView {
    pub anchor: Seq<u8>,
    pub names: Seq<Seq<u8>>,
}

/// The components of a path.
pub open spec fn path_view(path: PathBuf) -> PathView {
    PathView { anchor: path_anchor(path), names: path_names(path) }
}

impl PathView {
    /// The path of `name` in this directory.
    pub open spec fn child(self, name: Seq<char>) -> PathView {
        PathView { anchor: self.anchor, names: self.names.push(encode_utf8(name)) }
    }

    /// The directory `depth` names below the anchor on the way to this path.
    pub open spec fn ancestor(self, depth: int) -> PathView {
        PathView { anchor: self.anchor, names: self.names.take(depth) }
    }
}

/// A name of a single file: letters, digits, `.`, `-` and `_`, and neither `.` nor `..`.
pub open spec fn is_file_name(name: Seq<char>) -> bool {
    &&& name.len() > 0
    &&& forall|i: int| 0 <= i < name.len() ==> is_file_name_char(#[trigger] name[i])
    &&& exists|i: int| 0 <= i < name.len() && #[trigger] name[i] != '.'
}

/// A character of such a name.
pub open spec fn is_file_name_char(c: char) -> bool {
    ||| 'a' <= c <= 'z'
    ||| 'A' <= c <= 'Z'
    ||| '0' <= c <= '9'
    ||| c == '.'
    ||| c == '-'
    ||| c == '_'
}

/// `PathBuf::clone` gives the same path.
pub assume_specification[ <PathBuf as Clone>::clone ](path: &PathBuf) -> (copy: PathBuf)
    ensures
        copy == *path,
;

/// `PathBuf::pop` drops the last component. A path that ends in its anchor, or is empty,
/// has none: it stays as it is, and `false` is returned.
pub assume_specification[ PathBuf::pop ](path: &mut PathBuf) -> (popped: bool)
    ensures
        popped == (path_names(*old(path)).len() > 0),
        popped ==> path_names(*final(path)) == path_names(*old(path)).drop_last(),
        popped ==> path_anchor(*final(path)) == path_anchor(*old(path)),
        !popped ==> *final(path) == *old(path),
;

/// `std::path::Path::join` with the name of a single file: one more component. This is said of
/// Unix paths: on Windows, a name can complete a prefix, as behind `\\server`, and is then no
/// component of its own.
#[verifier::external_body]
pub(crate) fn join_name(directory: &PathBuf, name: &str) -> (path: PathBuf)
    requires
        is_file_name(name@),
    ensures
        path_view(path) == path_view(*directory).child(name@),
{
    directory.join(name)
}

/// `std::path::Path::display`, as a string.
#[verifier::external_body]
pub(crate) fn display_path(path: &PathBuf) -> (text: String)
    ensures
        text@ == path_text(*path),
{
    path.display().to_string()
}

} // verus!
