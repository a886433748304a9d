//! Paths of the file system, held as texts. What joining two paths gives, and
//! which component of a path is its last, is std's business: both results are
//! named here and left to `std::path`.

use vstd::prelude::*;

verus! {

/// The path that `std::path::Path::join` makes of `base` and `part`, on the
/// platform the library is built for.
pub uninterp spec fn path_join(base: Seq<char>, part: Seq<char>) -> Seq<char>;

/// The last component of `path` as `std::path::Path::file_name` finds it, on
/// the platform the library is built for; `None` where the path has none.
pub uninterp spec fn path_file_name(path: Seq<char>) -> Option<Seq<char>>;

/// `std::path::Path::join`: `part` adjoined to `base`. Both are texts, so the
/// joined path is a text as well, and converting it back loses nothing. The
/// contract only names the result.
#[verifier::external_body]
pub(crate) fn join(base: &str, part: &str) -> (joined: String)
    ensures
        joined@ == path_join(base@, part@),
{
    std::path::Path::new(base).join(part).to_string_lossy().into_owned()
}

/// `std::path::Path::file_name`: the last component of `path`, if it has one.
/// A component of a path that is a text is a text, so converting it loses
/// nothing. The contract only names the result.
#[verifier::external_body]
pub(crate) fn file_name(path: &str) -> (name: Option<String>)
    ensures
        name.deep_view() == path_file_name(path@),
{
    match std::path::Path::new(path).file_name() {
        Some(name) => Some(name.to_string_lossy().into_owned()),
        None => None,
    }
}

} // verus!
