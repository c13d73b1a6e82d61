//! Where the application keeps its data, by platform. Looking the
//! directories of the user up is the caller's business; which of them is
//! used, and under which name, is decided here.

use vstd::prelude::*;

verus! {

#[verifier::external_type_specification]
#[verifier::external_body]
pub struct ExPathBuf(std::path::PathBuf);

/// The folders of a user that have a meaning of their own.
#[derive(Debug, Clone, Copy, PartialEq, Eq, Structural)]
pub enum SpecialFolder {
    Desktop,
    Documents,
    Downloads,
    Pictures,
    Videos,
    Music,
}

/// The name of the application's folder on Unix-like systems.
pub const UNIX_DATA_FOLDER: &'static str = "forbidden-library";

/// The name of the application's folder in a home directory.
pub const UNIX_HOME_FOLDER: &'static str = ".forbidden-library";

/// The name of the application's folder on Windows.
pub const WINDOWS_DATA_FOLDER: &'static str = "Forbidden Library";

/// The characters that a path holds, for a path that is valid Unicode.
pub uninterp spec fn path_text(path: std::path::PathBuf) -> Seq<char>;

/// Trusted: `PathBuf::from` on a string slice, which copies the text into
/// a path and changes nothing of it.
#[verifier::external_body]
fn path_from(text: &str) -> (path: std::path::PathBuf)
    ensures
        path_text(path) == text@,
{
    std::path::PathBuf::from(text)
}

/// Trusted: `Path::join`, the path of `name` inside `base`.
#[verifier::external_body]
fn path_join(base: &std::path::PathBuf, name: &str) -> (path: std::path::PathBuf) {
    base.join(name)
}

/// The path with this text, unchanged, for the current platform.
pub fn normalize_path(path: &str) -> (normal: std::path::PathBuf)
    ensures
        path_text(normal) == path@,
{
    path_from(path)
}

/// The application's data directory on Unix-like systems: its folder in the
/// user's data directory, or failing that its hidden folder in the home
/// directory. `None` when neither directory is known.
pub fn get_app_data_dir(
    data_dir: Option<std::path::PathBuf>,
    home_dir: Option<std::path::PathBuf>,
) -> (dir: Option<std::path::PathBuf>)
    ensures
        dir is Some <==> data_dir is Some || home_dir is Some,
{
    match data_dir {
        Some(base) => Some(path_join(&base, UNIX_DATA_FOLDER)),
        None => match home_dir {
            Some(home) => Some(path_join(&home, UNIX_HOME_FOLDER)),
            None => None,
        },
    }
}

/// The application's data directory on Windows: its folder in the user's
/// data directory, or failing that in the directory that the `APPDATA`
/// variable names. `None` when neither is known.
pub fn windows_app_data_dir(data_dir: Option<std::path::PathBuf>, appdata: Option<String>) -> (dir:
    Option<std::path::PathBuf>)
    ensures
        dir is Some <==> data_dir is Some || appdata is Some,
{
    match data_dir {
        Some(base) => Some(path_join(&base, WINDOWS_DATA_FOLDER)),
        None => match appdata {
            Some(text) => {
                let base = path_from(text.as_str());
                Some(path_join(&base, WINDOWS_DATA_FOLDER))
            },
            None => None,
        },
    }
}

} // verus!
