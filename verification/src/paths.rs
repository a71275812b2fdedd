//! The file system paths that wrec builds, through std's `Path`.

use vstd::prelude::*;
use crate::store::opt_chars;
use crate::text::has_suffix;

verus! {

/// The parent of path `p` as std's `Path::parent` gives it on the platform
/// the crate is built for, as text.
pub uninterp spec fn path_parent(p: Seq<char>) -> Option<Seq<char>>;

/// The last component of path `p` as std's `Path::file_name` gives it on
/// the platform the crate is built for, as text.
pub uninterp spec fn path_file_name(p: Seq<char>) -> Option<Seq<char>>;

/// Path `dir` with `name` appended, as std's `Path::join` gives it on the
/// platform the crate is built for, as text.
pub uninterp spec fn path_join(dir: Seq<char>, name: Seq<char>) -> Seq<char>;

/// `Path::parent` from std: the path without its last component, or `None`
/// for a root, a prefix or an empty path. The result is named by
/// `path_parent`; the separators that decide it are those of the platform
/// the crate is built for, and no clause says more of it.
#[verifier::external_body]
pub(crate) fn parent_of(p: &String) -> (r: Option<String>)
    ensures
        opt_chars(r) == path_parent(p@),
{
    std::path::Path::new(p).parent().map(|d| d.to_string_lossy().into_owned())
}

/// `Path::file_name` from std: the last component of a path, or `None`
/// when the path ends in `..` or has no components. The result is named by
/// `path_file_name`.
#[verifier::external_body]
pub(crate) fn file_name_of(p: &String) -> (r: Option<String>)
    ensures
        opt_chars(r) == path_file_name(p@),
{
    std::path::Path::new(p).file_name().map(|n| n.to_string_lossy().into_owned())
}

/// A plain file name: not empty, not `.` or `..`, and free of the
/// characters that separate path components or start a drive prefix.
pub open spec fn plain_name(name: Seq<char>) -> bool {
    &&& name.len() > 0
    &&& name != "."@
    &&& name != ".."@
    &&& !name.contains('/')
    &&& !name.contains('\\')
    &&& !name.contains(':')
}

/// A name of three or more characters is neither `.` nor `..`.
pub(crate) proof fn lemma_not_dots(name: Seq<char>)
    requires
        name.len() > 2,
    ensures
        name != "."@,
        name != ".."@,
{
    reveal_strlit(".");
    reveal_strlit("..");
}

/// `Path::join` from std: the directory with a path appended. The result
/// is named by `path_join`. For a plain name (one that is neither `.` nor
/// `..`, which a verbatim Windows directory would resolve away) std
/// documents that the name is appended as a new last component, after a
/// separator where one is needed: so the result ends with the name, and
/// `Path::parent`, which drops the last component, gives the same for
/// every plain name joined to the same directory. The separator itself
/// depends on the platform and is not stated, nor is what a name with
/// separators or a prefix gives.
#[verifier::external_body]
pub(crate) fn join_path(dir: &String, name: &String) -> (r: String)
    ensures
        r@ == path_join(dir@, name@),
        plain_name(name@) ==> has_suffix(r@, name@),
        plain_name(name@) ==> forall|other: Seq<char>|
            plain_name(other) ==> #[trigger] path_parent(path_join(dir@, other)) == path_parent(r@),
{
    std::path::Path::new(dir).join(name).to_string_lossy().into_owned()
}

} // verus!
