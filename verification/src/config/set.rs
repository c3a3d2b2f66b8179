//! The set of configurations assembled from a configuration directory: the
//! default configuration and the user-defined ones.

use std::path::PathBuf;
use vstd::prelude::*;

use super::error::ConfigLoadError;
use super::merge::{merge_matches, merged_matches};
use super::Configs;
use crate::matcher::Match;

verus! {

/// The default configuration and the user-defined configurations.
#[derive(Debug, Clone)]
pub struct ConfigSet {
    pub default: Configs,
    pub specific: Vec<Configs>,
}

/// A user-defined configuration file: where it lies, and what loading it gave.
#[derive(Debug)]
pub struct UserConfigFile {
    pub path: PathBuf,
    pub config: Result<Configs, ConfigLoadError>,
}

/// What the folder of user-defined configurations holds.
#[derive(Debug)]
pub enum UserConfigDir {
    /// There is no such folder.
    Absent,
    /// The folder exists but could not be listed.
    Unreadable,
    /// The configuration files of the folder, in the order of its listing.
    Files(Vec<UserConfigFile>),
}

/// What was found at the path given as the configuration directory.
#[derive(Debug)]
pub enum ConfigDirScan {
    /// The path is not a directory.
    NotADirectory,
    /// The path is a directory: the outcome of loading its default
    /// configuration file, and its user-defined configurations.
    Directory { default: Result<Configs, ConfigLoadError>, user: UserConfigDir },
}

/// The name that a configuration has when its file does not name it.
pub open spec fn unnamed() -> Seq<char> {
    seq!['d', 'e', 'f', 'a', 'u', 'l', 't']
}

/// One of the files before position `i` loaded into a configuration named `name`.
pub open spec fn name_taken(files: Seq<UserConfigFile>, i: int, name: Seq<char>) -> bool {
    exists|j: int|
        0 <= j < i && (#[trigger] files[j]).config is Ok && files[j].config->Ok_0.name@ == name
}

/// The error that the file at position `i` raises when no file before it
/// raised one; `None` when the file is accepted.
pub open spec fn file_error(files: Seq<UserConfigFile>, i: int) -> Option<ConfigLoadError> {
    match files[i].config {
        Err(e) => Some(e),
        Ok(c) => if !c.keeps_reserved_defaults() {
            Some(ConfigLoadError::InvalidParameter(files[i].path))
        } else if c.name@ == unnamed() {
            Some(ConfigLoadError::MissingName(files[i].path))
        } else if name_taken(files, i, c.name@) {
            Some(ConfigLoadError::NameDuplicate(files[i].path))
        } else {
            None
        },
    }
}

/// The file at position `i` is the first one that raises an error.
pub open spec fn is_first_error(files: Seq<UserConfigFile>, i: int) -> bool {
    &&& 0 <= i < files.len()
    &&& file_error(files, i) is Some
    &&& forall|j: int| 0 <= j < i ==> (#[trigger] file_error(files, j)) is None
}

/// Every file is accepted.
pub open spec fn all_accepted(files: Seq<UserConfigFile>) -> bool {
    forall|i: int| 0 <= i < files.len() ==> (#[trigger] file_error(files, i)) is None
}

/// `r` is the configuration `c` as it stands in a configuration set whose
/// default configuration has the matches `parent`: unchanged, but for its
/// matches, which inherit those of the parent unless `c` excludes them.
pub open spec fn inherits(r: Configs, c: Configs, parent: Seq<Match>) -> bool {
    &&& r == Configs { matches: r.matches, ..c }
    &&& r.matches@ == if c.exclude_parent_matches {
        c.matches@
    } else {
        merged_matches(c.matches@, parent)
    }
}

/// `set` is made of the default configuration `default` and of the
/// configurations that the accepted `files` hold, in their order.
pub open spec fn assembled_from(set: ConfigSet, default: Configs, files: Seq<UserConfigFile>) -> bool {
    &&& set.default == default
    &&& set.specific@.len() == files.len()
    &&& forall|i: int|
        0 <= i < files.len() ==> inherits(
            #[trigger] set.specific@[i],
            files[i].config->Ok_0,
            default.matches@,
        )
}

/// What loading a configuration directory gives, for each thing that can be
/// found there.
pub open spec fn load_outcome(scan: ConfigDirScan, r: Result<ConfigSet, ConfigLoadError>) -> bool {
    match scan {
        ConfigDirScan::NotADirectory => r == Err::<ConfigSet, _>(ConfigLoadError::InvalidConfigDirectory),
        ConfigDirScan::Directory { default, user } => match default {
            Err(e) => r == Err::<ConfigSet, _>(e),
            Ok(d) => match user {
                UserConfigDir::Absent => r matches Ok(set) && assembled_from(set, d, Seq::empty()),
                UserConfigDir::Unreadable => r == Err::<ConfigSet, _>(ConfigLoadError::UnableToReadFile),
                UserConfigDir::Files(files) => {
                    &&& all_accepted(files@) ==> (r matches Ok(set) && assembled_from(set, d, files@))
                    &&& forall|i: int| #[trigger]
                        is_first_error(files@, i) ==> r == Err::<ConfigSet, _>(
                            file_error(files@, i)->0,
                        )
                },
            },
        },
    }
}

/// Whether one of `configs` is named `name`.
fn has_name(configs: &Vec<Configs>, name: &String) -> (r: bool)
    ensures
        r == exists|k: int| 0 <= k < configs@.len() && (#[trigger] configs@[k]).name@ == name@,
{
    let mut i: usize = 0;
    while i < configs.len()
        invariant
            i <= configs.len(),
            forall|k: int| 0 <= k < i ==> (#[trigger] configs@[k]).name@ != name@,
        decreases configs.len() - i,
    {
        if configs[i].name == *name {
            return true;
        }
        i += 1;
    }
    false
}

/// The user-defined configurations of `files`, each inheriting the matches of
/// `default`, or the error of the first file that raises one.
fn load_user_configs(default: &Configs, files: Vec<UserConfigFile>) -> (r: Result<
    Vec<Configs>,
    ConfigLoadError,
>)
    ensures
        all_accepted(files@) ==> (r matches Ok(v) && v@.len() == files@.len() && forall|i: int|
            0 <= i < files@.len() ==> inherits(
                #[trigger] v@[i],
                files@[i].config->Ok_0,
                default.matches@,
            )),
        forall|i: int| #[trigger]
            is_first_error(files@, i) ==> r == Err::<Vec<Configs>, _>(file_error(files@, i)->0),
{
    let ghost all = files@;
    let mut rest = files;
    let mut specific: Vec<Configs> = Vec::new();
    while rest.len() > 0
        invariant
            all == files@,
            specific@.len() + rest@.len() == all.len(),
            rest@ =~= all.subrange(specific@.len() as int, all.len() as int),
            forall|j: int| 0 <= j < specific@.len() ==> (#[trigger] file_error(all, j)) is None,
            forall|j: int|
                0 <= j < specific@.len() ==> inherits(
                    #[trigger] specific@[j],
                    all[j].config->Ok_0,
                    default.matches@,
                ),
        decreases rest@.len(),
    {
        let ghost i = specific@.len() as int;
        let file = rest.remove(0);
        assert(file == all[i]);
        let UserConfigFile { path, config } = file;
        if let Err(e) = config {
            assert(all[i].config == Err::<Configs, ConfigLoadError>(e));
            assert(is_first_error(all, i));
            return Err(e);
        }
        let mut config = config.unwrap();
        if !config.validate_user_defined_config() {
            assert(is_first_error(all, i));
            return Err(ConfigLoadError::InvalidParameter(path));
        }
        let unnamed_name = "default".to_owned();
        proof {
            reveal_strlit("default");
            assert(unnamed_name@ =~= unnamed());
        }
        if config.name == unnamed_name {
            assert(is_first_error(all, i));
            return Err(ConfigLoadError::MissingName(path));
        }
        let taken = has_name(&specific, &config.name);
        assert(taken == name_taken(all, i, config.name@)) by {
            if taken {
                let k = choose|k: int| 0 <= k < specific@.len() && (#[trigger] specific@[k]).name@ == config.name@;
                assert(file_error(all, k) is None);
                assert(all[k].config is Ok);
            }
            if name_taken(all, i, config.name@) {
                let k = choose|k: int| 0 <= k < i && (#[trigger] all[k]).config is Ok && all[k].config->Ok_0.name@ == config.name@;
                assert(inherits(specific@[k], all[k].config->Ok_0, default.matches@));
            }
        }
        if taken {
            assert(is_first_error(all, i));
            return Err(ConfigLoadError::NameDuplicate(path));
        }
        if !config.exclude_parent_matches {
            config.matches = merge_matches(config.matches, &default.matches);
        }
        assert(file_error(all, i) is None);
        specific.push(config);
    }
    Ok(specific)
}

impl ConfigSet {
    /// Assembles the configuration set of a configuration directory from what
    /// was found there.
    pub fn load(scan: ConfigDirScan) -> (r: Result<ConfigSet, ConfigLoadError>)
        ensures
            load_outcome(scan, r),
    {
        match scan {
            ConfigDirScan::NotADirectory => Err(ConfigLoadError::InvalidConfigDirectory),
            ConfigDirScan::Directory { default, user } => {
                let default = match default {
                    Ok(d) => d,
                    Err(e) => {
                        return Err(e);
                    },
                };
                match user {
                    UserConfigDir::Absent => Ok(ConfigSet { default, specific: Vec::new() }),
                    UserConfigDir::Unreadable => Err(ConfigLoadError::UnableToReadFile),
                    UserConfigDir::Files(files) => match load_user_configs(&default, files) {
                        Ok(specific) => Ok(ConfigSet { default, specific }),
                        Err(e) => Err(e),
                    },
                }
            },
        }
    }
}

} // verus!
