# espanso configuration

The configuration model of the espanso text expander, written in Verus.

- `src/config/` — the verified library: default values of every setting, the
  check that user-defined configurations leave the reserved settings alone,
  which files of the user folder are configuration files, how a user-defined
  configuration inherits the matches of the default one, and how a
  configuration set is assembled from what a configuration directory holds
  (`ConfigSet::load`, whose contract gives the outcome for every input).
  `laws.rs` proves properties of the whole: a user definition of a trigger
  wins over the default one, inherited matches come only from the two
  configurations and cover the triggers of both, inheriting twice changes
  nothing, and a loaded set never holds two user configurations of the same
  name, an unnamed one, or one that sets a reserved parameter.
- `src/event.rs`, `src/matcher.rs` — toggle keys and matches.
- `src/path.rs` — paths, carried as opaque values.
- `app/` — the file-system and YAML side: reading files, parsing them with
  `serde_yaml`, scanning the configuration directory, creating the default
  one under the home directory, and logging the reserved parameters that a
  refused user configuration sets (`Configs::reserved_fields_in_use`).
- `tests/` — tests of the library.
