//! Configuration files, their defaults and their validation, and the set of
//! configurations assembled from a configuration directory.

use vstd::prelude::*;

use crate::event::KeyModifier;
use crate::matcher::Match;

pub mod error;
pub mod file_name;
pub mod laws;
pub mod merge;
pub mod set;
pub mod validate;

pub use error::ConfigLoadError;
pub use file_name::is_config_file_name;
pub use set::{ConfigDirScan, ConfigSet, UserConfigDir, UserConfigFile};
pub use validate::validate_field;
use validate::note_field;

verus! {

/// Name of the default configuration file inside the configuration directory.
pub const DEFAULT_CONFIG_FILE_NAME: &'static str = "default.yml";

/// Name of the folder, inside the configuration directory, of the
/// user-defined configuration files.
pub const USER_CONFIGS_FOLDER_NAME: &'static str = "user";

/// Name of the folder, inside the configuration directory, of the packages.
pub const PACKAGES_FOLDER_NAME: &'static str = "packages";

/// Value of `log_level` when a file does not set it.
pub const DEFAULT_LOG_LEVEL: i32 = 0;

/// Value of `ipc_server_port` when a file does not set it.
pub const DEFAULT_IPC_SERVER_PORT: i32 = 34982;

/// Value of `config_caching_interval` when a file does not set it.
pub const DEFAULT_CONFIG_CACHING_INTERVAL: i32 = 800;

/// Value of `toggle_interval` when a file does not set it.
pub const DEFAULT_TOGGLE_INTERVAL: u32 = 230;

/// Value of `backspace_limit` when a file does not set it.
pub const DEFAULT_BACKSPACE_LIMIT: i32 = 3;

pub fn default_name() -> (r: String)
    ensures
        r@ == "default"@,
{
    "default".to_owned()
}

pub fn default_filter_title() -> (r: String)
    ensures
        r@ == Seq::<char>::empty(),
{
    String::new()
}

pub fn default_filter_class() -> (r: String)
    ensures
        r@ == Seq::<char>::empty(),
{
    String::new()
}

pub fn default_filter_exec() -> (r: String)
    ensures
        r@ == Seq::<char>::empty(),
{
    String::new()
}

pub fn default_disabled() -> (r: bool)
    ensures
        r == false,
{
    false
}

pub fn default_log_level() -> (r: i32)
    ensures
        r == DEFAULT_LOG_LEVEL,
{
    DEFAULT_LOG_LEVEL
}

pub fn default_ipc_server_port() -> (r: i32)
    ensures
        r == DEFAULT_IPC_SERVER_PORT,
{
    DEFAULT_IPC_SERVER_PORT
}

pub fn default_use_system_agent() -> (r: bool)
    ensures
        r == true,
{
    true
}

pub fn default_config_caching_interval() -> (r: i32)
    ensures
        r == DEFAULT_CONFIG_CACHING_INTERVAL,
{
    DEFAULT_CONFIG_CACHING_INTERVAL
}

pub fn default_toggle_interval() -> (r: u32)
    ensures
        r == DEFAULT_TOGGLE_INTERVAL,
{
    DEFAULT_TOGGLE_INTERVAL
}

pub fn default_backspace_limit() -> (r: i32)
    ensures
        r == DEFAULT_BACKSPACE_LIMIT,
{
    DEFAULT_BACKSPACE_LIMIT
}

pub fn default_exclude_parent_matches() -> (r: bool)
    ensures
        r == false,
{
    false
}

pub fn default_matches() -> (r: Vec<Match>)
    ensures
        r@ == Seq::<Match>::empty(),
{
    Vec::new()
}

/// The way the expander injects text.
#[derive(Debug, Clone, Copy, PartialEq, Eq, Structural)]
pub enum BackendType {
    Inject,
    Clipboard,
}

impl Default for BackendType {
    fn default() -> (b: BackendType)
        ensures
            b == BackendType::Inject,
    {
        BackendType::Inject
    }
}

/// One configuration file: the default one, or a user-defined one that applies
/// to the windows its filters select.
#[derive(Debug, Clone)]
pub struct Configs {
    pub name: String,
    pub filter_title: String,
    pub filter_class: String,
    pub filter_exec: String,
    pub disabled: bool,
    pub log_level: i32,
    pub ipc_server_port: i32,
    pub use_system_agent: bool,
    pub config_caching_interval: i32,
    pub toggle_key: KeyModifier,
    pub toggle_interval: u32,
    pub backspace_limit: i32,
    pub backend: BackendType,
    pub exclude_parent_matches: bool,
    pub matches: Vec<Match>,
}

/// `name` alone when `differs`, nothing otherwise.
pub open spec fn listed_if(differs: bool, name: Seq<char>) -> Seq<Seq<char>> {
    if differs {
        seq![name]
    } else {
        Seq::empty()
    }
}

impl Configs {
    /// None of the parameters reserved to the default configuration file
    /// differs from its default value.
    pub open spec fn keeps_reserved_defaults(self) -> bool {
        &&& self.config_caching_interval == DEFAULT_CONFIG_CACHING_INTERVAL
        &&& self.log_level == DEFAULT_LOG_LEVEL
        &&& self.toggle_key == KeyModifier::ALT
        &&& self.toggle_interval == DEFAULT_TOGGLE_INTERVAL
        &&& self.backspace_limit == DEFAULT_BACKSPACE_LIMIT
        &&& self.ipc_server_port == DEFAULT_IPC_SERVER_PORT
        &&& self.use_system_agent == true
    }

    /// The names of the parameters reserved to the default configuration file
    /// that differ from their default value, in the order in which they are
    /// checked.
    pub open spec fn reserved_fields_set(self) -> Seq<Seq<char>> {
        listed_if(self.config_caching_interval != DEFAULT_CONFIG_CACHING_INTERVAL, "config_caching_interval"@)
            + listed_if(self.log_level != DEFAULT_LOG_LEVEL, "log_level"@)
            + listed_if(self.toggle_key != KeyModifier::ALT, "toggle_key"@)
            + listed_if(self.toggle_interval != DEFAULT_TOGGLE_INTERVAL, "toggle_interval"@)
            + listed_if(self.backspace_limit != DEFAULT_BACKSPACE_LIMIT, "backspace_limit"@)
            + listed_if(self.ipc_server_port != DEFAULT_IPC_SERVER_PORT, "ipc_server_port"@)
            + listed_if(self.use_system_agent != true, "use_system_agent"@)
    }

    /// Checks that a user-defined configuration does not set any of the
    /// parameters reserved to the default configuration file.
    pub fn validate_user_defined_config(&self) -> (r: bool)
        ensures
            r == self.keeps_reserved_defaults(),
            r == (self.reserved_fields_set().len() == 0),
            r == (self.config_caching_interval == 800 && self.log_level == 0 && self.toggle_key
                == KeyModifier::ALT && self.toggle_interval == 230 && self.backspace_limit == 3
                && self.ipc_server_port == 34982 && self.use_system_agent),
    {
        let mut result = true;
        validate_field(&mut result, &self.config_caching_interval, &default_config_caching_interval());
        validate_field(&mut result, &self.log_level, &default_log_level());
        validate_field(&mut result, &self.toggle_key, &KeyModifier::default());
        validate_field(&mut result, &self.toggle_interval, &default_toggle_interval());
        validate_field(&mut result, &self.backspace_limit, &default_backspace_limit());
        validate_field(&mut result, &self.ipc_server_port, &default_ipc_server_port());
        validate_field(&mut result, &self.use_system_agent, &default_use_system_agent());
        result
    }

    /// The names of the reserved parameters that this configuration sets to
    /// another value than their default, in the order in which
    /// `validate_user_defined_config` checks them: what a user is told when
    /// the configuration is refused.
    pub fn reserved_fields_in_use(&self) -> (r: Vec<&'static str>)
        ensures
            r@.map_values(|s: &'static str| s@) == self.reserved_fields_set(),
    {
        let mut offending: Vec<&'static str> = Vec::new();
        note_field(&mut offending, "config_caching_interval", &self.config_caching_interval, &default_config_caching_interval());
        note_field(&mut offending, "log_level", &self.log_level, &default_log_level());
        note_field(&mut offending, "toggle_key", &self.toggle_key, &KeyModifier::default());
        note_field(&mut offending, "toggle_interval", &self.toggle_interval, &default_toggle_interval());
        note_field(&mut offending, "backspace_limit", &self.backspace_limit, &default_backspace_limit());
        note_field(&mut offending, "ipc_server_port", &self.ipc_server_port, &default_ipc_server_port());
        note_field(&mut offending, "use_system_agent", &self.use_system_agent, &default_use_system_agent());
        assert(offending@.map_values(|s: &'static str| s@) =~= self.reserved_fields_set());
        offending
    }
}

/// Gives access to the configuration that applies at a given moment.
pub trait ConfigManager<'a> {
    /// The configuration that applies to the window in focus.
    fn active_config(&'a self) -> &'a Configs;

    /// The default configuration.
    fn default_config(&'a self) -> &'a Configs;

    /// The matches that apply to the window in focus.
    fn matches(&'a self) -> &'a Vec<Match>;
}

} // verus!
