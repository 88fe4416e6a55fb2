//! Where the application keeps its data.
//!
//! The paths are put together from what the environment gives: the home
//! directory, the operating system, and whether the application runs in
//! development mode. Reading the environment is left to the caller.

use crate::common::errors::{ApplicationError, ApplicationErrorView};
use vstd::prelude::*;
use vstd::string::*;

verus! {

/// The operating system that the application runs on.
#[derive(Clone, Copy, Debug, PartialEq, Eq, Structural)]
pub enum TargetOs {
    Windows,
    MacOs,
    Linux,
}

impl TargetOs {
    /// The character that separates the parts of a path.
    pub open spec fn separator(self) -> char {
        match self {
            TargetOs::Windows => '\\',
            _ => '/',
        }
    }

    /// Whether a character separates the parts of a path. Windows takes the
    /// slash as well as the backslash.
    pub open spec fn separates(self, c: char) -> bool {
        c == '/' || (self == TargetOs::Windows && c == '\\')
    }

    /// The data directory of the application below the home directory.
    pub open spec fn data_directory(self) -> Seq<char> {
        match self {
            TargetOs::Windows => "AppData\\Roaming\\darq\\promptory"@,
            TargetOs::MacOs => "Library/Application Support/darq/promptory"@,
            TargetOs::Linux => ".config/darq/promptory"@,
        }
    }

    /// The database file below the data directory.
    pub open spec fn database_file(self) -> Seq<char> {
        match self {
            TargetOs::Windows => "db\\database.db"@,
            _ => "db/database.db"@,
        }
    }
}

/// `rest` below `base`: the two joined by the separator, which is left out
/// where `base` is empty or ends in a separator already.
pub open spec fn joined(base: Seq<char>, rest: Seq<char>, os: TargetOs) -> Seq<char> {
    if base.len() == 0 || os.separates(base.last()) {
        base + rest
    } else {
        base + seq![os.separator()] + rest
    }
}

/// The path of `rest` below `base`.
pub fn join(base: &str, rest: &str, os: TargetOs) -> (path: String)
    ensures
        path@ == joined(base@, rest@, os),
{
    let length = base.unicode_len();
    let bare = if length == 0 {
        true
    } else {
        let last = base.get_char(length - 1);
        last == '/' || (os == TargetOs::Windows && last == '\\')
    };
    let path = base.to_string();
    if bare {
        path.concat(rest)
    } else {
        let separator = match os {
            TargetOs::Windows => "\\",
            _ => "/",
        };
        proof {
            reveal_strlit("\\");
            reveal_strlit("/");
        }
        path.concat(separator).concat(rest)
    }
}

/// The detail of the error for a missing home directory.
pub open spec fn no_home() -> Seq<char> {
    "Cannot find home directory"@
}

/// The directory where the application keeps its data.
///
/// In development mode this is `../data`. Otherwise it lies below the home
/// directory, at the place that the operating system has for application
/// data, and a missing home directory is an `UnknownError`.
pub fn get_app_home_path(dev_mode: bool, home_dir: Option<&str>, os: TargetOs) -> (r: Result<
    String,
    ApplicationError,
>)
    ensures
        dev_mode ==> r is Ok && r->Ok_0@ == "../data"@,
        !dev_mode && home_dir is Some ==> r is Ok && r->Ok_0@ == joined(
            home_dir->Some_0@,
            os.data_directory(),
            os,
        ),
        !dev_mode && home_dir is None ==> r is Err && r->Err_0@
            == ApplicationErrorView::UnknownError(no_home()),
{
    if dev_mode {
        return Ok("../data".to_string());
    }
    match home_dir {
        Some(home) => {
            let below = match os {
                TargetOs::Windows => "AppData\\Roaming\\darq\\promptory",
                TargetOs::MacOs => "Library/Application Support/darq/promptory",
                TargetOs::Linux => ".config/darq/promptory",
            };
            Ok(join(home, below, os))
        },
        None => Err(ApplicationError::UnknownError("Cannot find home directory".to_string())),
    }
}

/// The directory where the tests keep their data: `../data/test`.
pub fn get_test_home_path() -> (r: Result<String, ApplicationError>)
    ensures
        r is Ok,
        r->Ok_0@ == "../data/test"@,
{
    Ok("../data/test".to_string())
}

/// The path of the database file below the application's data directory.
pub fn get_db_path_by_os(app_home: &str, os: TargetOs) -> (r: Result<String, ApplicationError>)
    ensures
        r is Ok,
        r->Ok_0@ == joined(app_home@, os.database_file(), os),
{
    let file = match os {
        TargetOs::Windows => "db\\database.db",
        _ => "db/database.db",
    };
    Ok(join(app_home, file, os))
}

} // verus!
