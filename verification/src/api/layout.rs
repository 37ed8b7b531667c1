//! Where a remote file is written: its path below the remote root, placed
//! below the local write directory. Paths are read as `std::path` reads
//! them: name by name, so that repeated separators, `.` names and a trailing
//! separator make no difference to what lies below what.
use vstd::prelude::*;

verus! {

/// What `std::path::Path::strip_prefix` leaves of `path` behind `base`, if
/// the names of `base` open the names of `path`.
pub uninterp spec fn stripped_prefix(path: Seq<char>, base: Seq<char>) -> Option<Seq<char>>;

/// The path that `std::path::Path::join` makes of `path` below `base`.
pub uninterp spec fn joined_path(base: Seq<char>, path: Seq<char>) -> Seq<char>;

/// The local path of the remote file `file` of the model stored under
/// `root`, below the directory `write_dir`: the write directory joined with
/// what the file's path holds behind the root. A file that does not lie
/// below the root has none.
pub open spec fn local_path_of(write_dir: Seq<char>, file: Seq<char>, root: Seq<char>) -> Option<
    Seq<char>,
> {
    match stripped_prefix(file, root) {
        Some(rest) => Some(joined_path(write_dir, rest)),
        None => None,
    }
}

/// Calls `std::path::Path::strip_prefix` on `path` with `base`, and hands
/// back the text of the path that it returns, or `None` where it returns an
/// error because `base` is no prefix of `path`. The result is a part of
/// `path`, so it is text as `path` is, and it depends on the two paths
/// alone.
#[verifier::external_body]
pub(crate) fn strip_prefix(path: &str, base: &str) -> (rest: Option<String>)
    ensures
        rest.deep_view() == stripped_prefix(path@, base@),
{
    match std::path::Path::new(path).strip_prefix(base) {
        Ok(rest) => Some(rest.to_string_lossy().into_owned()),
        Err(_) => None,
    }
}

/// Calls `std::path::Path::join` on `base` with `path`, and hands back the
/// text of the path that it returns. The result is made of the two texts
/// and a separator, and depends on the two paths alone.
#[verifier::external_body]
pub(crate) fn join(base: &str, path: &str) -> (joined: String)
    ensures
        joined@ == joined_path(base@, path@),
{
    std::path::Path::new(base).join(path).to_string_lossy().into_owned()
}

} // verus!
