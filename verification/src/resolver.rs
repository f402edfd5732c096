//! Configuration resolution: which file names to look for, where the global
//! configuration directory lies, and which directory's candidate file governs
//! the invocation. The search logic works over a snapshot of the filesystem
//! facts it needs — which paths are files and which are directories — handed
//! in by the caller.

use vstd::prelude::*;

use crate::errors::{AppError, EXIT_CONFIG, EXIT_IOERR, EXIT_NOINPUT};
use crate::paths::FilePath;

verus! {

/// The candidate configuration file names for this invocation: a custom name
/// from the command line wins, then a name from the environment, and without
/// either the two default names are tried in order.
pub fn get_config_file_names(env_filename: Option<String>, custom_filename: Option<String>) -> (r:
    Vec<String>)
    ensures
        custom_filename is Some ==> r.deep_view() == seq![custom_filename.unwrap()@],
        custom_filename is None && env_filename is Some ==> r.deep_view() == seq![
            env_filename.unwrap()@,
        ],
        custom_filename is None && env_filename is None ==> r.deep_view() == seq![
            ".run-tool.yaml"@,
            ".run-tool.yml"@,
        ],
{
    let mut r: Vec<String> = Vec::new();
    match (env_filename, custom_filename) {
        (_, Some(custom)) => {
            let ghost c = custom@;
            r.push(custom);
            proof {
                assert(r.deep_view() =~~= seq![c]);
            }
        },
        (Some(from_env), None) => {
            let ghost e = from_env@;
            r.push(from_env);
            proof {
                assert(r.deep_view() =~~= seq![e]);
            }
        },
        (None, None) => {
            r.push(String::from_str(".run-tool.yaml"));
            r.push(String::from_str(".run-tool.yml"));
            proof {
                assert(r.deep_view() =~~= seq![".run-tool.yaml"@, ".run-tool.yml"@]);
            }
        },
    }
    r
}

/// The user's global configuration directory, from the platform's
/// environment: `USERPROFILE\.config\run-tool` under the Windows convention,
/// else `XDG_CONFIG_HOME/run-tool`, else `HOME/.config/run-tool`. Without a
/// resolvable home there is none.
pub fn get_app_config_path(
    windows: bool,
    userprofile: Option<String>,
    xdg_config_home: Option<String>,
    home: Option<String>,
) -> (r: Option<FilePath>)
    ensures
        windows && userprofile is Some ==> r is Some && r.unwrap()@ == seq![
            userprofile.unwrap()@,
            ".config"@,
            "run-tool"@,
        ],
        windows && userprofile is None ==> r is None,
        !windows && xdg_config_home is Some ==> r is Some && r.unwrap()@ == seq![
            xdg_config_home.unwrap()@,
            "run-tool"@,
        ],
        !windows && xdg_config_home is None && home is Some ==> r is Some && r.unwrap()@ == seq![
            home.unwrap()@,
            ".config"@,
            "run-tool"@,
        ],
        !windows && xdg_config_home is None && home is None ==> r is None,
{
    if windows {
        match userprofile {
            Some(base) => {
                let ghost b = base@;
                let mut parts: Vec<String> = Vec::new();
                parts.push(base);
                parts.push(String::from_str(".config"));
                parts.push(String::from_str("run-tool"));
                proof {
                    assert(parts.deep_view() =~~= seq![b, ".config"@, "run-tool"@]);
                }
                Some(FilePath::from_parts(parts))
            },
            None => None,
        }
    } else {
        match xdg_config_home {
            Some(base) => {
                let ghost b = base@;
                let mut parts: Vec<String> = Vec::new();
                parts.push(base);
                parts.push(String::from_str("run-tool"));
                proof {
                    assert(parts.deep_view() =~~= seq![b, "run-tool"@]);
                }
                Some(FilePath::from_parts(parts))
            },
            None => match home {
                Some(base) => {
                    let ghost b = base@;
                    let mut parts: Vec<String> = Vec::new();
                    parts.push(base);
                    parts.push(String::from_str(".config"));
                    parts.push(String::from_str("run-tool"));
                    proof {
                        assert(parts.deep_view() =~~= seq![b, ".config"@, "run-tool"@]);
                    }
                    Some(FilePath::from_parts(parts))
                },
                None => None,
            },
        }
    }
}

/// The filesystem facts the search consults: which paths are regular files
/// and which are directories.
pub struct FsSnapshot {
    pub files: Vec<FilePath>,
    pub dirs: Vec<FilePath>,
}

impl FsSnapshot {
    /// Whether the snapshot lists the path as a regular file.
    pub open spec fn is_file(&self, p: Seq<Seq<char>>) -> bool {
        exists|i: int| 0 <= i < self.files@.len() && self.files@[i]@ == p
    }

    /// Whether the snapshot lists the path as a directory.
    pub open spec fn is_dir(&self, p: Seq<Seq<char>>) -> bool {
        exists|i: int| 0 <= i < self.dirs@.len() && self.dirs@[i]@ == p
    }

    /// Tests whether the path is listed as a regular file.
    pub fn contains_file(&self, p: &FilePath) -> (r: bool)
        ensures
            r == self.is_file(p@),
    {
        let n = self.files.len();
        for i in 0..n
            invariant
                n == self.files@.len(),
                forall|j: int| 0 <= j < i ==> self.files@[j]@ != p@,
        {
            if self.files[i].same_path(p) {
                return true;
            }
        }
        false
    }

    /// Tests whether the path is listed as a directory.
    pub fn contains_dir(&self, p: &FilePath) -> (r: bool)
        ensures
            r == self.is_dir(p@),
    {
        let n = self.dirs.len();
        for i in 0..n
            invariant
                n == self.dirs@.len(),
                forall|j: int| 0 <= j < i ==> self.dirs@[j]@ != p@,
        {
            if self.dirs[i].same_path(p) {
                return true;
            }
        }
        false
    }
}

/// The file the search finds inside one directory: the first candidate name
/// whose join with the directory is a regular file. A base that is not a
/// directory is skipped without erroring.
pub open spec fn spec_find_at(
    fs: FsSnapshot,
    base: Seq<Seq<char>>,
    names: Seq<Seq<char>>,
) -> Option<Seq<Seq<char>>>
    decreases names.len(),
{
    if !fs.is_dir(base) {
        None
    } else if names.len() == 0 {
        None
    } else if fs.is_file(base.push(names[0])) {
        Some(base.push(names[0]))
    } else {
        spec_find_at(fs, base, names.drop_first())
    }
}

/// The file the upward search finds: the closest directory, from `base`
/// toward the root, that holds a candidate file.
pub open spec fn spec_find_upward(
    fs: FsSnapshot,
    base: Seq<Seq<char>>,
    names: Seq<Seq<char>>,
) -> Option<Seq<Seq<char>>>
    decreases base.len(),
{
    match spec_find_at(fs, base, names) {
        Some(p) => Some(p),
        None => {
            if base.len() == 0 {
                None
            } else {
                spec_find_upward(fs, base.drop_last(), names)
            }
        },
    }
}

/// Searches one directory for the first candidate file name that exists as a
/// regular file there.
pub fn find_config_with_fallbacks(fs: &FsSnapshot, base: &FilePath, names: &Vec<String>) -> (r:
    Option<FilePath>)
    ensures
        r is Some <==> spec_find_at(*fs, base@, names.deep_view()) is Some,
        r is Some ==> r.unwrap()@ == spec_find_at(*fs, base@, names.deep_view()).unwrap(),
{
    if !fs.contains_dir(base) {
        return None;
    }
    let n = names.len();
    proof {
        assert(names.deep_view().skip(0) =~~= names.deep_view());
    }
    for i in 0..n
        invariant
            n == names@.len(),
            fs.is_dir(base@),
            spec_find_at(*fs, base@, names.deep_view()) == spec_find_at(
                *fs,
                base@,
                names.deep_view().skip(i as int),
            ),
    {
        proof {
            assert(names.deep_view().skip(i as int)[0] == names.deep_view()[i as int]);
            assert(names.deep_view().skip(i as int).drop_first() =~~= names.deep_view().skip(
                i as int + 1,
            ));
        }
        let full_path = base.join(&names[i]);
        if fs.contains_file(&full_path) {
            return Some(full_path);
        }
    }
    None
}

/// Searches upward from `base`: the closest directory that holds a candidate
/// file wins; the search stops at the filesystem root.
pub fn find_config_with_fallbacks_recursive(
    fs: &FsSnapshot,
    base: &FilePath,
    names: &Vec<String>,
) -> (r: Option<FilePath>)
    ensures
        r is Some <==> spec_find_upward(*fs, base@, names.deep_view()) is Some,
        r is Some ==> r.unwrap()@ == spec_find_upward(*fs, base@, names.deep_view()).unwrap(),
{
    let mut here = base.clone_path();
    loop
        invariant
            spec_find_upward(*fs, base@, names.deep_view()) == spec_find_upward(
                *fs,
                here@,
                names.deep_view(),
            ),
        decreases here@.len(),
    {
        if let Some(found) = find_config_with_fallbacks(fs, &here, names) {
            return Some(found);
        }
        match here.parent() {
            Some(parent) => {
                here = parent;
            },
            None => {
                return None;
            },
        }
    }
}

/// How reading and parsing a found configuration file went.
#[derive(Debug, Clone, Copy, PartialEq, Eq, Structural)]
pub enum ConfigFileReading {
    /// The file's contents could not be read.
    Unreadable,
    /// The contents were read but do not parse as a configuration.
    Unparsable,
    /// The file parsed into a configuration.
    Parsed,
}

/// Classifies how loading the configuration ended, each failure with its own
/// exit code: no candidate file found anywhere, a found file that cannot be
/// read, and a found file that does not parse are three distinct fatal
/// conditions.
pub fn classify_config_load(found: bool, reading: ConfigFileReading, msg: String) -> (r: Result<
    (),
    AppError,
>)
    ensures
        r is Ok <==> (found && reading == ConfigFileReading::Parsed),
        !found ==> r is Err && r.unwrap_err().exitcode == EXIT_NOINPUT,
        found && reading == ConfigFileReading::Unreadable ==> r is Err && r.unwrap_err().exitcode
            == EXIT_IOERR,
        found && reading == ConfigFileReading::Unparsable ==> r is Err && r.unwrap_err().exitcode
            == EXIT_CONFIG,
        r is Err ==> r.unwrap_err().msg == msg,
{
    if !found {
        Err(AppError::not_found_error(msg))
    } else {
        match reading {
            ConfigFileReading::Unreadable => Err(AppError::unreadable_error(msg)),
            ConfigFileReading::Unparsable => Err(AppError::parse_error(msg)),
            ConfigFileReading::Parsed => Ok(()),
        }
    }
}

/// With upward search enabled, the nearest directory wins: when the starting
/// directory itself holds a candidate file, the search returns that file,
/// whatever any ancestor directory holds.
pub proof fn lemma_nearest_directory_wins(
    fs: FsSnapshot,
    base: Seq<Seq<char>>,
    names: Seq<Seq<char>>,
)
    requires
        spec_find_at(fs, base, names) is Some,
    ensures
        spec_find_upward(fs, base, names) == spec_find_at(fs, base, names),
{
}

/// A directory without a candidate file defers to its parent: the upward
/// search from it returns whatever the search from the parent returns.
pub proof fn lemma_search_defers_to_parent(
    fs: FsSnapshot,
    base: Seq<Seq<char>>,
    names: Seq<Seq<char>>,
)
    requires
        base.len() > 0,
        spec_find_at(fs, base, names) is None,
    ensures
        spec_find_upward(fs, base, names) == spec_find_upward(fs, base.drop_last(), names),
{
}

} // verus!
