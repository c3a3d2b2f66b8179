use std::path::PathBuf;

use espanso::config::{
    default_backspace_limit, default_config_caching_interval, default_disabled,
    default_exclude_parent_matches, default_filter_class, default_filter_exec,
    default_filter_title, default_ipc_server_port, default_log_level, default_matches,
    default_name, default_toggle_interval, default_use_system_agent, is_config_file_name,
    validate_field, BackendType, ConfigDirScan, ConfigLoadError, ConfigSet, Configs,
    UserConfigDir, UserConfigFile,
};
use espanso::event::KeyModifier;
use espanso::matcher::Match;

/// The configuration that a file setting nothing loads into.
fn empty_config() -> Configs {
    Configs {
        name: default_name(),
        filter_title: default_filter_title(),
        filter_class: default_filter_class(),
        filter_exec: default_filter_exec(),
        disabled: default_disabled(),
        log_level: default_log_level(),
        ipc_server_port: default_ipc_server_port(),
        use_system_agent: default_use_system_agent(),
        config_caching_interval: default_config_caching_interval(),
        toggle_key: KeyModifier::default(),
        toggle_interval: default_toggle_interval(),
        backspace_limit: default_backspace_limit(),
        backend: BackendType::default(),
        exclude_parent_matches: default_exclude_parent_matches(),
        matches: default_matches(),
    }
}

fn named(name: &str) -> Configs {
    let mut c = empty_config();
    c.name = name.to_string();
    c
}

fn m(trigger: &str, replace: &str) -> Match {
    Match { trigger: trigger.to_string(), replace: replace.to_string() }
}

fn user_file(path: &str, config: Configs) -> UserConfigFile {
    UserConfigFile { path: PathBuf::from(path), config: Ok(config) }
}

fn scan(default: Configs, files: Vec<UserConfigFile>) -> ConfigDirScan {
    ConfigDirScan::Directory { default: Ok(default), user: UserConfigDir::Files(files) }
}

/// The default configuration of the merge tests: two matches.
fn parent_with_two_matches() -> Configs {
    let mut d = empty_config();
    d.matches = vec![m(":lol", "LOL"), m(":yess", "Bob")];
    d
}

#[test]
fn test_validate_field_macro() {
    let mut result = true;

    validate_field(&mut result, &3, &3);
    assert_eq!(result, true);

    validate_field(&mut result, &10, &3);
    assert_eq!(result, false);

    validate_field(&mut result, &3, &3);
    assert_eq!(result, false);
}

#[test]
fn test_user_defined_config_does_not_have_reserved_fields() {
    let mut config = empty_config();
    config.backend = BackendType::Clipboard;
    assert_eq!(config.validate_user_defined_config(), true);
}

#[test]
fn test_user_defined_config_has_reserved_fields_config_caching_interval() {
    let mut config = empty_config();
    config.config_caching_interval = 100;
    assert_eq!(config.validate_user_defined_config(), false);
}

#[test]
fn test_user_defined_config_has_reserved_fields_toggle_key() {
    let mut config = empty_config();
    config.toggle_key = KeyModifier::CTRL;
    assert_eq!(config.validate_user_defined_config(), false);
}

#[test]
fn test_user_defined_config_has_reserved_fields_toggle_interval() {
    let mut config = empty_config();
    config.toggle_interval = 1000;
    assert_eq!(config.validate_user_defined_config(), false);
}

#[test]
fn test_user_defined_config_has_reserved_fields_backspace_limit() {
    let mut config = empty_config();
    config.backspace_limit = 10;
    assert_eq!(config.validate_user_defined_config(), false);
}

#[test]
fn reserved_fields_log_level_port_and_agent() {
    let mut config = empty_config();
    config.log_level = 2;
    assert_eq!(config.validate_user_defined_config(), false);
    let mut config = empty_config();
    config.ipc_server_port = 1;
    assert_eq!(config.validate_user_defined_config(), false);
    let mut config = empty_config();
    config.use_system_agent = false;
    assert_eq!(config.validate_user_defined_config(), false);
    let mut config = empty_config();
    config.disabled = true;
    config.filter_title = "Chrome".to_string();
    assert_eq!(config.validate_user_defined_config(), true);
}

#[test]
fn test_config_set_default_content_should_work_correctly() {
    let config_set = ConfigSet::load(ConfigDirScan::Directory {
        default: Ok(parent_with_two_matches()),
        user: UserConfigDir::Absent,
    });
    assert!(config_set.is_ok());
    let config_set = config_set.unwrap();
    assert_eq!(config_set.default.matches.len(), 2);
    assert_eq!(config_set.specific.len(), 0);
}

#[test]
fn test_config_set_load_fail_bad_directory() {
    let config_set = ConfigSet::load(ConfigDirScan::NotADirectory);
    assert_eq!(config_set.is_err(), true);
    assert_eq!(config_set.unwrap_err(), ConfigLoadError::InvalidConfigDirectory);
}

#[test]
fn test_config_set_missing_default_file() {
    let config_set = ConfigSet::load(ConfigDirScan::Directory {
        default: Err(ConfigLoadError::FileNotFound),
        user: UserConfigDir::Absent,
    });
    assert_eq!(config_set.is_err(), true);
    assert_eq!(config_set.unwrap_err(), ConfigLoadError::FileNotFound);
}

#[test]
fn test_config_set_invalid_yaml_syntax() {
    let default_path_copy = PathBuf::from("/tmp/espanso/default.yml");
    let config_set = ConfigSet::load(ConfigDirScan::Directory {
        default: Err(ConfigLoadError::InvalidYAML(
            default_path_copy.clone(),
            "mapping values are not allowed in this context".to_string(),
        )),
        user: UserConfigDir::Files(vec![user_file("/tmp/espanso/user/a.yml", named("a"))]),
    });
    match config_set {
        Ok(_) => assert!(false),
        Err(e) => {
            match e {
                ConfigLoadError::InvalidYAML(p, _) => assert_eq!(p, default_path_copy),
                _ => assert!(false),
            }
            assert!(true);
        },
    }
}

#[test]
fn unreadable_user_folder() {
    let config_set = ConfigSet::load(ConfigDirScan::Directory {
        default: Ok(empty_config()),
        user: UserConfigDir::Unreadable,
    });
    assert_eq!(config_set.unwrap_err(), ConfigLoadError::UnableToReadFile);
}

#[test]
fn test_config_set_specific_file_with_reserved_fields() {
    let user_defined_path_copy = PathBuf::from("/tmp/espanso/user/specific.yml");
    let mut config = empty_config();
    config.config_caching_interval = 10000;
    let config_set = ConfigSet::load(scan(
        empty_config(),
        vec![user_file("/tmp/espanso/user/specific.yml", config)],
    ));
    assert!(config_set.is_err());
    assert_eq!(config_set.unwrap_err(), ConfigLoadError::InvalidParameter(user_defined_path_copy))
}

#[test]
fn test_config_set_specific_file_missing_name() {
    let user_defined_path_copy = PathBuf::from("/tmp/espanso/user/specific.yml");
    let mut config = empty_config();
    config.backend = BackendType::Clipboard;
    let config_set = ConfigSet::load(scan(
        empty_config(),
        vec![user_file("/tmp/espanso/user/specific.yml", config)],
    ));
    assert!(config_set.is_err());
    assert_eq!(config_set.unwrap_err(), ConfigLoadError::MissingName(user_defined_path_copy))
}

#[test]
fn test_config_set_specific_file_duplicate_name() {
    let config_set = ConfigSet::load(scan(
        empty_config(),
        vec![
            user_file("/tmp/espanso/user/specific.yml", named("specific1")),
            user_file("/tmp/espanso/user/specific2.yml", named("specific1")),
        ],
    ));
    assert!(config_set.is_err());
    assert_eq!(
        config_set.unwrap_err(),
        ConfigLoadError::NameDuplicate(PathBuf::from("/tmp/espanso/user/specific2.yml"))
    );
}

#[test]
fn first_failing_file_decides_the_error() {
    let mut reserved = named("first");
    reserved.backspace_limit = 5;
    let config_set = ConfigSet::load(scan(
        empty_config(),
        vec![
            user_file("/u/ok.yml", named("ok")),
            user_file("/u/first.yml", reserved),
            UserConfigFile { path: PathBuf::from("/u/broken.yml"), config: Err(ConfigLoadError::UnableToReadFile) },
            user_file("/u/ok2.yml", named("ok")),
        ],
    ));
    assert_eq!(config_set.unwrap_err(), ConfigLoadError::InvalidParameter(PathBuf::from("/u/first.yml")));

    let config_set = ConfigSet::load(scan(
        empty_config(),
        vec![
            user_file("/u/ok.yml", named("ok")),
            UserConfigFile { path: PathBuf::from("/u/broken.yml"), config: Err(ConfigLoadError::FileNotFound) },
            user_file("/u/other.yml", named("default")),
        ],
    ));
    assert_eq!(config_set.unwrap_err(), ConfigLoadError::FileNotFound);
}

#[test]
fn test_user_defined_config_set_merge_with_parent_matches() {
    let mut child = named("specific1");
    child.matches = vec![m("hello", "newstring")];
    let config_set = ConfigSet::load(scan(
        parent_with_two_matches(),
        vec![user_file("/tmp/espanso/user/specific1.yml", child)],
    ))
    .unwrap();
    assert_eq!(config_set.default.matches.len(), 2);
    assert_eq!(config_set.specific[0].matches.len(), 3);

    assert!(config_set.specific[0].matches.iter().find(|x| x.trigger == "hello").is_some());
    assert!(config_set.specific[0].matches.iter().find(|x| x.trigger == ":lol").is_some());
    assert!(config_set.specific[0].matches.iter().find(|x| x.trigger == ":yess").is_some());
}

#[test]
fn test_user_defined_config_set_merge_with_parent_matches_child_priority() {
    let mut child = named("specific1");
    child.matches = vec![m(":lol", "newstring")];
    let config_set = ConfigSet::load(scan(
        parent_with_two_matches(),
        vec![user_file("/tmp/espanso/user/specific2.yml", child)],
    ))
    .unwrap();
    assert_eq!(config_set.default.matches.len(), 2);
    assert_eq!(config_set.specific[0].matches.len(), 2);

    assert!(config_set.specific[0]
        .matches
        .iter()
        .find(|x| x.trigger == ":lol" && x.replace == "newstring")
        .is_some());
    assert!(config_set.specific[0].matches.iter().find(|x| x.trigger == ":yess").is_some());
}

#[test]
fn test_user_defined_config_set_exclude_merge_with_parent_matches() {
    let mut child = named("specific1");
    child.exclude_parent_matches = true;
    child.matches = vec![m("hello", "newstring")];
    let config_set = ConfigSet::load(scan(
        parent_with_two_matches(),
        vec![user_file("/tmp/espanso/user/specific2.yml", child)],
    ))
    .unwrap();
    assert_eq!(config_set.default.matches.len(), 2);
    assert_eq!(config_set.specific[0].matches.len(), 1);

    assert!(config_set.specific[0]
        .matches
        .iter()
        .find(|x| x.trigger == "hello" && x.replace == "newstring")
        .is_some());
}

#[test]
fn merged_matches_keep_order_and_other_fields() {
    let mut child = named("editor");
    child.filter_class = "Code".to_string();
    child.matches = vec![m("b", "child b"), m("z", "child z")];
    let mut parent = empty_config();
    parent.matches = vec![m("a", "A"), m("b", "B"), m("c", "C")];
    let set = ConfigSet::load(scan(parent, vec![user_file("/u/editor.yml", child)])).unwrap();
    let got: Vec<(String, String)> = set.specific[0]
        .matches
        .iter()
        .map(|x| (x.trigger.clone(), x.replace.clone()))
        .collect();
    let want: Vec<(String, String)> = vec![
        ("b".to_string(), "child b".to_string()),
        ("z".to_string(), "child z".to_string()),
        ("a".to_string(), "A".to_string()),
        ("c".to_string(), "C".to_string()),
    ];
    assert_eq!(got, want);
    assert_eq!(set.specific[0].name, "editor");
    assert_eq!(set.specific[0].filter_class, "Code");
}

#[test]
fn several_user_configs_in_order() {
    let set = ConfigSet::load(scan(
        parent_with_two_matches(),
        vec![user_file("/u/a.yml", named("a")), user_file("/u/b.yml", named("b"))],
    ))
    .unwrap();
    assert_eq!(set.specific.len(), 2);
    assert_eq!(set.specific[0].name, "a");
    assert_eq!(set.specific[1].name, "b");
    assert_eq!(set.specific[1].matches.len(), 2);
}

#[test]
fn test_only_yaml_files_are_loaded_from_config() {
    assert!(!is_config_file_name("specific.zzz"));
    let config_set = ConfigSet::load(scan(parent_with_two_matches(), Vec::new())).unwrap();
    assert_eq!(config_set.specific.len(), 0);
}

#[test]
fn config_file_names() {
    assert!(is_config_file_name("specific.yml"));
    assert!(is_config_file_name("a.b.yml"));
    assert!(is_config_file_name("x.yml"));
    assert!(!is_config_file_name(".yml"));
    assert!(!is_config_file_name("yml"));
    assert!(!is_config_file_name("a.yaml"));
    assert!(!is_config_file_name("a.yml.bak"));
    assert!(!is_config_file_name("a.YML"));
    assert!(!is_config_file_name(".."));
    assert!(!is_config_file_name(""));
    assert!(is_config_file_name("é.yml"));
}

#[test]
fn default_values() {
    assert_eq!(default_name(), "default");
    assert_eq!(default_filter_title(), "");
    assert_eq!(default_filter_class(), "");
    assert_eq!(default_filter_exec(), "");
    assert_eq!(default_disabled(), false);
    assert_eq!(default_log_level(), 0);
    assert_eq!(default_ipc_server_port(), 34982);
    assert_eq!(default_use_system_agent(), true);
    assert_eq!(default_config_caching_interval(), 800);
    assert_eq!(default_toggle_interval(), 230);
    assert_eq!(default_backspace_limit(), 3);
    assert_eq!(default_exclude_parent_matches(), false);
    assert!(default_matches().is_empty());
    assert_eq!(KeyModifier::default(), KeyModifier::ALT);
    assert_eq!(BackendType::default(), BackendType::Inject);
}

#[test]
fn key_modifier_equality() {
    assert!(KeyModifier::CTRL == KeyModifier::CTRL);
    assert!(KeyModifier::CTRL != KeyModifier::SHIFT);
    assert!(KeyModifier::META != KeyModifier::BACKSPACE);
}

#[test]
fn error_descriptions_and_messages() {
    assert_eq!(ConfigLoadError::FileNotFound.description(), "File not found");
    assert_eq!(ConfigLoadError::FileNotFound.message(), "File not found");
    assert_eq!(
        ConfigLoadError::UnableToCreateDefaultConfig.message(),
        "Could not generate default config file"
    );
    let p = PathBuf::from("/home/u/.espanso/user/a.yml");
    assert_eq!(
        ConfigLoadError::InvalidYAML(p.clone(), "bad".to_string()).message(),
        "Error parsing YAML file '/home/u/.espanso/user/a.yml', invalid syntax: bad"
    );
    assert_eq!(
        ConfigLoadError::InvalidYAML(p.clone(), "bad".to_string()).description(),
        "Error parsing YAML file, invalid syntax"
    );
    assert_eq!(
        ConfigLoadError::InvalidParameter(p.clone()).message(),
        "Invalid parameter in '/home/u/.espanso/user/a.yml', use of reserved parameters in used defined configs is not permitted"
    );
    assert_eq!(
        ConfigLoadError::MissingName(p.clone()).message(),
        "The 'name' field is required in user defined configurations, but it's missing in '/home/u/.espanso/user/a.yml'"
    );
    assert_eq!(
        ConfigLoadError::NameDuplicate(p.clone()).message(),
        "Found duplicate 'name' in '/home/u/.espanso/user/a.yml', please use different names"
    );
    assert_eq!(
        ConfigLoadError::NameDuplicate(p).description(),
        "Found duplicate 'name' in some configurations, please use different names"
    );
}

#[test]
fn match_duplicate_is_equal() {
    let a = m(":x", "y");
    let b = a.duplicate();
    assert_eq!(b.trigger, ":x");
    assert_eq!(b.replace, "y");
}

#[test]
fn reserved_fields_in_use_are_named_in_checking_order() {
    assert!(empty_config().reserved_fields_in_use().is_empty());

    let mut config = empty_config();
    config.use_system_agent = false;
    config.toggle_key = KeyModifier::CTRL;
    config.config_caching_interval = 100;
    config.backend = BackendType::Clipboard;
    assert_eq!(
        config.reserved_fields_in_use(),
        vec!["config_caching_interval", "toggle_key", "use_system_agent"]
    );
    assert_eq!(config.validate_user_defined_config(), false);

    let mut config = empty_config();
    config.log_level = 1;
    config.toggle_interval = 5;
    config.backspace_limit = 4;
    config.ipc_server_port = 80;
    assert_eq!(
        config.reserved_fields_in_use(),
        vec!["log_level", "toggle_interval", "backspace_limit", "ipc_server_port"]
    );
}
