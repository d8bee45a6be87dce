//! Where the configuration file lies: `config.json` in the directory
//! `file-test` of the user's data directory.

use std::path::PathBuf;
use vstd::prelude::*;

verus! {

/// `std::path::PathBuf`, carried through as it is.
#[verifier::external_type_specification]
#[verifier::external_body]
pub struct ExPathBuf(std::path::PathBuf);

/// The path that `PathBuf::push` makes of `base` when `part` is pushed onto
/// it.
pub uninterp spec fn path_with(base: PathBuf, part: Seq<char>) -> PathBuf;

/// `dirs::data_dir`: the user's data directory, `None` where the platform
/// names none. It is read from the environment, so nothing is stated of it.
#[verifier::external_body]
pub(crate) fn data_dir() -> (dir: Option<PathBuf>) {
    dirs::data_dir()
}

/// `PathBuf::push` with a string. The contract only names the new path.
#[verifier::external_body]
pub(crate) fn push_part(path: &mut PathBuf, part: &str)
    ensures
        *final(path) == path_with(*old(path), part@),
{
    path.push(part);
}

/// The configuration file under the data directory `dir`.
pub open spec fn config_path_under(dir: PathBuf) -> PathBuf {
    path_with(path_with(dir, "file-test"@), "config.json"@)
}

/// The configuration file, given the user's data directory: none where there
/// is no such directory.
pub fn config_path_in(data_dir: Option<PathBuf>) -> (path: Option<PathBuf>)
    ensures
        match data_dir {
            Some(dir) => path == Some(config_path_under(dir)),
            None => path is None,
        },
{
    match data_dir {
        Some(dir) => {
            let mut path = dir;
            push_part(&mut path, "file-test");
            push_part(&mut path, "config.json");
            Some(path)
        },
        None => None,
    }
}

/// The configuration file of the user who runs the process. Which directory
/// it lies under is for the platform to say; where it says none, there is no
/// configuration file.
pub fn config_path() -> (path: Option<PathBuf>)
    ensures
        path matches Some(found) ==> exists|dir: PathBuf| found == #[trigger] config_path_under(dir),
{
    config_path_in(data_dir())
}

} // verus!
