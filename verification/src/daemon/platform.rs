//! Where the worker binary lives on the host, and what it is called.
//!
//! The rules are stated for a given [`Platform`] and given [`HostDirs`];
//! the functions without parameters apply them to the machine at hand.

use crate::text::text_of;
use vstd::prelude::*;
use vstd::string::{StrSliceExecFns, StringExecFns};

verus! {

/// The family of operating system, as far as paths and names depend on it.
#[derive(Debug, Clone, Copy, PartialEq, Eq)]
pub enum Platform {
    /// Backslash separates path components and programs end in `.exe`.
    Windows,
    /// Slash separates path components.
    Unix,
}

/// The per-user directories that the environment names, where it names them.
#[derive(Debug, PartialEq, Eq)]
pub struct HostDirs {
    /// The directory for data local to the machine.
    pub local_app_data: Option<String>,
    /// The home directory.
    pub home: Option<String>,
}

/// [`HostDirs`] with its texts as sequences of characters.
pub struct HostDirsView {
    pub local_app_data: Option<Seq<char>>,
    pub home: Option<Seq<char>>,
}

impl View for HostDirs {
    type V = HostDirsView;

    open spec fn view(&self) -> HostDirsView {
        HostDirsView { local_app_data: text_of(self.local_app_data), home: text_of(self.home) }
    }
}

/// The character that the platform puts between path components.
pub open spec fn separator(platform: Platform) -> char {
    match platform {
        Platform::Windows => '\\',
        Platform::Unix => '/',
    }
}

/// Whether the platform reads `c` as the end of a path component.
pub open spec fn is_separator(platform: Platform, c: char) -> bool {
    c == '/' || (platform == Platform::Windows && c == '\\')
}

/// `name` below the directory `base`: the separator stands between the two
/// unless `base` is empty or ends in one already.
pub open spec fn join_spec(platform: Platform, base: Seq<char>, name: Seq<char>) -> Seq<char> {
    if base.len() == 0 || is_separator(platform, base.last()) {
        base + name
    } else {
        base.push(separator(platform)) + name
    }
}

/// The file name of the worker binary.
pub open spec fn binary_name_spec(platform: Platform) -> Seq<char> {
    match platform {
        Platform::Windows => "aria2c.exe"@,
        Platform::Unix => "aria2c"@,
    }
}

/// The directory that holds the worker binary: `BurnCloud` below the local
/// application data on Windows, `.burncloud` below the home directory
/// elsewhere, each with a fixed place to fall back on.
pub open spec fn binary_dir_spec(platform: Platform, dirs: HostDirsView) -> Seq<char> {
    match platform {
        Platform::Windows => join_spec(
            platform,
            match dirs.local_app_data {
                Some(base) => base,
                None => "C:\\Users\\Default\\AppData\\Local"@,
            },
            "BurnCloud"@,
        ),
        Platform::Unix => join_spec(
            platform,
            match dirs.home {
                Some(base) => base,
                None => "/tmp"@,
            },
            ".burncloud"@,
        ),
    }
}

/// The full path of the worker binary.
pub open spec fn binary_path_spec(platform: Platform, dirs: HostDirsView) -> Seq<char> {
    join_spec(platform, binary_dir_spec(platform, dirs), binary_name_spec(platform))
}

/// Asks `std::path::is_separator` whether this machine reads a backslash as
/// the end of a path component. Nothing is claimed of the answer: it
/// depends on the machine.
#[verifier::external_body]
fn backslash_separates() -> bool {
    std::path::is_separator('\\')
}

/// Asks `dirs::home_dir` for the home directory of the current user and
/// hands it on as text. Nothing is claimed of the answer: it depends on the
/// environment.
#[verifier::external_body]
fn home_dir() -> Option<String> {
    match dirs::home_dir() {
        Some(path) => Some(path.to_string_lossy().into_owned()),
        None => None,
    }
}

/// Asks `dirs::data_local_dir` for the directory of data local to the
/// machine and hands it on as text. Nothing is claimed of the answer: it
/// depends on the environment.
#[verifier::external_body]
fn data_local_dir() -> Option<String> {
    match dirs::data_local_dir() {
        Some(path) => Some(path.to_string_lossy().into_owned()),
        None => None,
    }
}

impl Platform {
    /// The platform whose path rules this machine follows.
    pub fn current() -> Platform {
        Platform::with_backslash(backslash_separates())
    }
}

impl HostDirs {
    /// The directories as the environment of this process names them.
    pub fn detect() -> HostDirs {
        HostDirs { local_app_data: data_local_dir(), home: home_dir() }
    }
}

impl Platform {
    /// The platform whose path rules a machine follows, told by whether it
    /// reads a backslash as the end of a path component.
    pub fn with_backslash(separates: bool) -> (platform: Platform)
        ensures
            platform == (if separates {
                Platform::Windows
            } else {
                Platform::Unix
            }),
    {
        if separates {
            Platform::Windows
        } else {
            Platform::Unix
        }
    }
}

/// Puts `name` below the directory `base`.
pub fn join(platform: Platform, base: &str, name: &str) -> (path: String)
    ensures
        path@ == join_spec(platform, base@, name@),
{
    let len = base.unicode_len();
    let needs_separator = if len == 0 {
        false
    } else {
        let last = base.get_char(len - 1);
        !(last == '/' || (last == '\\' && matches!(platform, Platform::Windows)))
    };
    let mut path = String::from_str(base);
    if needs_separator {
        proof {
            reveal_strlit("\\");
            reveal_strlit("/");
        }
        match platform {
            Platform::Windows => path.append("\\"),
            Platform::Unix => path.append("/"),
        }
        assert(path@ =~= base@.push(separator(platform)));
    }
    path.append(name);
    path
}

/// The file name of the worker binary on `platform`.
pub fn binary_name_for(platform: Platform) -> (name: &'static str)
    ensures
        name@ == binary_name_spec(platform),
{
    match platform {
        Platform::Windows => "aria2c.exe",
        Platform::Unix => "aria2c",
    }
}

/// The directory that holds the worker binary on `platform`.
pub fn binary_dir_for(platform: Platform, dirs: &HostDirs) -> (dir: String)
    ensures
        dir@ == binary_dir_spec(platform, dirs@),
{
    match platform {
        Platform::Windows => match &dirs.local_app_data {
            Some(base) => join(platform, base.as_str(), "BurnCloud"),
            None => join(platform, "C:\\Users\\Default\\AppData\\Local", "BurnCloud"),
        },
        Platform::Unix => match &dirs.home {
            Some(base) => join(platform, base.as_str(), ".burncloud"),
            None => join(platform, "/tmp", ".burncloud"),
        },
    }
}

/// The full path of the worker binary on `platform`.
pub fn binary_path_for(platform: Platform, dirs: &HostDirs) -> (path: String)
    ensures
        path@ == binary_path_spec(platform, dirs@),
{
    let dir = binary_dir_for(platform, dirs);
    join(platform, dir.as_str(), binary_name_for(platform))
}

/// The file name of the worker binary on this machine.
pub fn get_binary_name() -> (name: &'static str)
    ensures
        exists|platform: Platform| name@ == binary_name_spec(platform),
{
    binary_name_for(Platform::current())
}

/// The directory that holds the worker binary on this machine.
pub fn get_binary_dir() -> (dir: String)
    ensures
        exists|platform: Platform, dirs: HostDirsView| dir@ == binary_dir_spec(platform, dirs),
{
    let dirs = HostDirs::detect();
    binary_dir_for(Platform::current(), &dirs)
}

/// The full path of the worker binary on this machine.
pub fn get_binary_path() -> (path: String)
    ensures
        exists|platform: Platform, dirs: HostDirsView| path@ == binary_path_spec(platform, dirs),
{
    let dirs = HostDirs::detect();
    binary_path_for(Platform::current(), &dirs)
}

} // verus!
