//! The ways loading a configuration can fail, and how each is described.

use std::path::PathBuf;
use vstd::prelude::*;
use vstd::string::StringExecFns;

use crate::path::{path_text, path_to_str};

verus! {

/// Why a configuration could not be loaded.
#[derive(Debug, PartialEq)]
pub enum ConfigLoadError {
    FileNotFound,
    UnableToReadFile,
    InvalidYAML(PathBuf, String),
    InvalidConfigDirectory,
    InvalidParameter(PathBuf),
    MissingName(PathBuf),
    NameDuplicate(PathBuf),
    UnableToCreateDefaultConfig,
}

/// The text shown for a path in a message: the path itself when it is valid
/// Unicode, the empty text otherwise.
pub open spec fn shown_path(path: PathBuf) -> Seq<char> {
    match path_text(path) {
        Some(t) => t,
        None => Seq::empty(),
    }
}

impl ConfigLoadError {
    /// The short description of the error, which names no path.
    pub open spec fn description_text(self) -> Seq<char> {
        match self {
            ConfigLoadError::FileNotFound => "File not found"@,
            ConfigLoadError::UnableToReadFile => "Unable to read config file"@,
            ConfigLoadError::InvalidYAML(_, _) => "Error parsing YAML file, invalid syntax"@,
            ConfigLoadError::InvalidConfigDirectory => "Invalid config directory"@,
            ConfigLoadError::InvalidParameter(_) =>
                "Invalid parameter, use of reserved parameters in user defined configs is not permitted"@,
            ConfigLoadError::MissingName(_) =>
                "The 'name' field is required in user defined configurations, but it's missing"@,
            ConfigLoadError::NameDuplicate(_) =>
                "Found duplicate 'name' in some configurations, please use different names"@,
            ConfigLoadError::UnableToCreateDefaultConfig => "Could not generate default config file"@,
        }
    }

    /// The full message of the error, which names the file concerned.
    pub open spec fn message_text(self) -> Seq<char> {
        match self {
            ConfigLoadError::FileNotFound => "File not found"@,
            ConfigLoadError::UnableToReadFile => "Unable to read config file"@,
            ConfigLoadError::InvalidYAML(path, e) =>
                "Error parsing YAML file '"@ + shown_path(path) + "', invalid syntax: "@ + e@,
            ConfigLoadError::InvalidConfigDirectory => "Invalid config directory"@,
            ConfigLoadError::InvalidParameter(path) =>
                "Invalid parameter in '"@ + shown_path(path)
                    + "', use of reserved parameters in used defined configs is not permitted"@,
            ConfigLoadError::MissingName(path) =>
                "The 'name' field is required in user defined configurations, but it's missing in '"@
                    + shown_path(path) + "'"@,
            ConfigLoadError::NameDuplicate(path) =>
                "Found duplicate 'name' in '"@ + shown_path(path) + "', please use different names"@,
            ConfigLoadError::UnableToCreateDefaultConfig => "Could not generate default config file"@,
        }
    }

    pub fn description(&self) -> (r: &'static str)
        ensures
            r@ == self.description_text(),
    {
        match self {
            ConfigLoadError::FileNotFound => "File not found",
            ConfigLoadError::UnableToReadFile => "Unable to read config file",
            ConfigLoadError::InvalidYAML(_, _) => "Error parsing YAML file, invalid syntax",
            ConfigLoadError::InvalidConfigDirectory => "Invalid config directory",
            ConfigLoadError::InvalidParameter(_) =>
                "Invalid parameter, use of reserved parameters in user defined configs is not permitted",
            ConfigLoadError::MissingName(_) =>
                "The 'name' field is required in user defined configurations, but it's missing",
            ConfigLoadError::NameDuplicate(_) =>
                "Found duplicate 'name' in some configurations, please use different names",
            ConfigLoadError::UnableToCreateDefaultConfig => "Could not generate default config file",
        }
    }

    /// The message shown to the user for this error.
    pub fn message(&self) -> (r: String)
        ensures
            r@ == self.message_text(),
    {
        match self {
            ConfigLoadError::FileNotFound => "File not found".to_owned(),
            ConfigLoadError::UnableToReadFile => "Unable to read config file".to_owned(),
            ConfigLoadError::InvalidYAML(path, e) => {
                let mut r = "Error parsing YAML file '".to_owned();
                r.append(shown(path));
                r.append("', invalid syntax: ");
                r.append(e.as_str());
                r
            },
            ConfigLoadError::InvalidConfigDirectory => "Invalid config directory".to_owned(),
            ConfigLoadError::InvalidParameter(path) => {
                let mut r = "Invalid parameter in '".to_owned();
                r.append(shown(path));
                r.append("', use of reserved parameters in used defined configs is not permitted");
                r
            },
            ConfigLoadError::MissingName(path) => {
                let mut r =
                    "The 'name' field is required in user defined configurations, but it's missing in '".to_owned();
                r.append(shown(path));
                r.append("'");
                r
            },
            ConfigLoadError::NameDuplicate(path) => {
                let mut r = "Found duplicate 'name' in '".to_owned();
                r.append(shown(path));
                r.append("', please use different names");
                r
            },
            ConfigLoadError::UnableToCreateDefaultConfig =>
                "Could not generate default config file".to_owned(),
        }
    }
}

/// The text shown for `path` in a message.
fn shown(path: &PathBuf) -> (r: &str)
    ensures
        r@ == shown_path(*path),
{
    match path_to_str(path) {
        Some(s) => s,
        None => {
            proof {
                reveal_strlit("");
            }
            ""
        },
    }
}

} // verus!
