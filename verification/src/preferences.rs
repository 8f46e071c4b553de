//! User preferences.

use std::path::PathBuf;
use vstd::prelude::*;
use vstd::string::*;

verus! {

broadcast use vstd::string::group_string_axioms;

/// User preferences, kept in `~/.lumen/config.yaml`.
#[derive(Debug, Clone)]
pub struct Preferences {
    /// Last used theme name.
    pub theme: String,
    /// Whether mouse mode was enabled.
    pub mouse_enabled: bool,
    /// Whether file sidebar was visible.
    pub file_sidebar_visible: bool,
}

impl Default for Preferences {
    fn default() -> (p: Preferences)
        ensures
            p.is_default(),
    {
        Preferences { theme: "docs".to_string(), mouse_enabled: false, file_sidebar_visible: true }
    }
}

/// The home directory of the user (`dirs::home_dir`), if the environment
/// tells one.
#[verifier::external_body]
fn home_dir() -> Option<PathBuf> {
    dirs::home_dir()
}

/// The path that `Path::join` makes of a path and the text of a further
/// path: the second below the first where the second is relative.
pub uninterp spec fn path_joined(base: PathBuf, part: Seq<char>) -> PathBuf;

/// `base` with `part` appended (`Path::join`). The result depends on the
/// two alone.
#[verifier::external_body]
fn join_path(base: &PathBuf, part: &str) -> (joined: PathBuf)
    ensures
        joined == path_joined(*base, part@),
{
    base.join(part)
}

impl Preferences {
    /// Whether these are the preferences of a first start: the `docs`
    /// theme, no mouse mode, the file sidebar visible.
    pub open spec fn is_default(&self) -> bool {
        &&& self.theme@ == "docs"@
        &&& !self.mouse_enabled
        &&& self.file_sidebar_visible
    }

    /// The preferences directory in a home directory: `.lumen` there.
    pub open spec fn dir_in(home: PathBuf) -> PathBuf {
        path_joined(home, ".lumen"@)
    }

    /// The config file in a preferences directory: `config.yaml` there.
    pub open spec fn file_in(dir: PathBuf) -> PathBuf {
        path_joined(dir, "config.yaml"@)
    }

    /// The preferences directory in the home directory `home`: `.lumen`
    /// there, if there is a home directory.
    pub fn config_dir_in(home: Option<PathBuf>) -> (dir: Option<PathBuf>)
        ensures
            dir == match home {
                Some(home) => Some(Preferences::dir_in(home)),
                None => None,
            },
    {
        match home {
            Some(home) => Some(join_path(&home, ".lumen")),
            None => None,
        }
    }

    /// The config file in the preferences directory `dir`: `config.yaml`
    /// there, if there is a preferences directory.
    pub fn config_file_in(dir: Option<PathBuf>) -> (file: Option<PathBuf>)
        ensures
            file == match dir {
                Some(dir) => Some(Preferences::file_in(dir)),
                None => None,
            },
    {
        match dir {
            Some(dir) => Some(join_path(&dir, "config.yaml")),
            None => None,
        }
    }

    /// Get the path to the preferences directory (`~/.lumen`): `.lumen` in
    /// the home directory, whichever that is; `None` without one.
    pub fn config_dir() -> (dir: Option<PathBuf>)
        ensures
            dir matches Some(d) ==> exists|home: PathBuf| d == Preferences::dir_in(home),
    {
        Preferences::config_dir_in(home_dir())
    }

    /// Get the path to the config file (`~/.lumen/config.yaml`):
    /// `config.yaml` in the preferences directory; `None` without a home
    /// directory.
    pub fn config_file_path() -> (file: Option<PathBuf>)
        ensures
            file matches Some(f) ==> exists|home: PathBuf|
                f == Preferences::file_in(Preferences::dir_in(home)),
    {
        Preferences::config_file_in(Preferences::config_dir())
    }

    /// The preferences to start with: those found on disk, or the defaults
    /// where none were found or they could not be read.
    pub fn loaded_or_default(found: Option<Preferences>) -> (p: Preferences)
        ensures
            match found {
                Some(f) => p == f,
                None => p.is_default(),
            },
    {
        match found {
            Some(f) => f,
            None => Preferences::default(),
        }
    }
}

} // verus!
