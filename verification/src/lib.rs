//! Configuration model of a text expander: the settings that a configuration
//! file may hold, the rules that user-defined configuration files obey, and the
//! way a set of configuration files is assembled from a configuration
//! directory.

pub mod config;
pub mod event;
pub mod matcher;
pub mod path;
