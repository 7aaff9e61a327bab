//! Paths of files, as text.

use vstd::prelude::*;

verus! {

/// The path that `std::path::Path::join` makes of `base` and `name` on
/// this platform.
pub uninterp spec fn path_join(base: Seq<char>, name: Seq<char>) -> Seq<char>;

/// The directory, below the home directory `home`, that holds everything
/// the application writes.
pub open spec fn data_dir(home: Seq<char>) -> Seq<char> {
    path_join(home, ".quick-memo"@)
}

/// `std::path::Path::join`: the path `name` below the directory `base`,
/// or `name` itself where it is absolute. Both are text, so the joined
/// path is text too. The contract only names the result: the same two
/// texts give the same path.
#[verifier::external_body]
pub(crate) fn join_path(base: &str, name: &str) -> (joined: String)
    ensures
        joined@ == path_join(base@, name@),
{
    std::path::Path::new(base).join(name).to_string_lossy().into_owned()
}

/// `dirs::home_dir`: the home directory of the user, where the platform
/// knows one. `None` also where its path is not text. Nothing is claimed
/// of the result: it depends on the environment.
#[verifier::external_body]
pub(crate) fn home_dir() -> Option<String> {
    let home = dirs::home_dir()?;
    Some(home.to_str()?.to_string())
}

/// The directory of the application below `home`.
pub(crate) fn data_dir_in(home: &str) -> (dir: String)
    ensures
        dir@ == data_dir(home@),
{
    join_path(home, ".quick-memo")
}

} // verus!
