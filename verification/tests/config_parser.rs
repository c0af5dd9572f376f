use tuigreet::config::error::ConfigError;
use tuigreet::config::parser::{
    lines, load_config, load_system_config, load_user_config, merge_configs, toml_error,
};
use tuigreet::config::validate::{
    has_duplicates, has_error_item, time_format_is_valid, wrapper_target, FormatItem,
    WrapperProbe, WrapperTarget,
};
use tuigreet::config::{
    AlignGreeting, Config, SecretMode, WidgetPosition,
};

const NO_PROBE: WrapperProbe =
    WrapperProbe { session_wrapper_found: false, xsession_wrapper_found: false };

fn text_of(table: &toml::Table, key: &str) -> Option<String> {
    table.get(key).and_then(|v| v.as_str()).map(|s| s.to_string())
}

fn flag_of(table: &toml::Table, key: &str, default: bool) -> bool {
    table.get(key).and_then(|v| v.as_bool()).unwrap_or(default)
}

fn number_of(table: &toml::Table, key: &str) -> Option<i64> {
    table.get(key).and_then(|v| v.as_integer())
}

fn list_of(table: &toml::Table, key: &str) -> Option<Vec<String>> {
    table.get(key).and_then(|v| v.as_array()).map(|items| {
        items.iter().filter_map(|v| v.as_str()).map(|s| s.to_string()).collect()
    })
}

fn section<'a>(root: &'a toml::Table, name: &str) -> Option<&'a toml::Table> {
    root.get(name).and_then(|v| v.as_table())
}

/// Reads a configuration from TOML text: what is written overrides the
/// defaults, field by field.
fn config_from_toml(content: &str) -> Result<Config, String> {
    let root: toml::Table = toml::from_str(content).map_err(|e| e.to_string())?;
    let mut config = Config::default();
    if let Some(t) = section(&root, "general") {
        config.general.debug = flag_of(t, "debug", config.general.debug);
        if let Some(v) = text_of(t, "log_file") {
            config.general.log_file = v;
        }
    }
    if let Some(t) = section(&root, "session") {
        config.session.command = text_of(t, "command");
        if let Some(v) = list_of(t, "sessions_dirs") {
            config.session.sessions_dirs = v;
        }
        if let Some(v) = list_of(t, "xsessions_dirs") {
            config.session.xsessions_dirs = v;
        }
        config.session.session_wrapper = text_of(t, "session_wrapper");
        if t.contains_key("xsession_wrapper") {
            config.session.xsession_wrapper = text_of(t, "xsession_wrapper");
        }
        if let Some(v) = list_of(t, "environments") {
            config.session.environments = v;
        }
    }
    if let Some(t) = section(&root, "display") {
        config.display.show_time = flag_of(t, "show_time", false);
        config.display.time_format = text_of(t, "time_format");
        config.display.greeting = text_of(t, "greeting");
        config.display.issue = flag_of(t, "issue", false);
    }
    if let Some(t) = section(&root, "remember") {
        config.remember.username = flag_of(t, "username", false);
        config.remember.session = flag_of(t, "session", false);
        config.remember.user_session = flag_of(t, "user_session", false);
    }
    if let Some(t) = section(&root, "user_menu") {
        config.user_menu.enabled = flag_of(t, "enabled", false);
        if let Some(v) = number_of(t, "min_uid") {
            config.user_menu.min_uid = v as u32;
        }
        if let Some(v) = number_of(t, "max_uid") {
            config.user_menu.max_uid = v as u32;
        }
    }
    if let Some(t) = section(&root, "power") {
        config.power.shutdown = text_of(t, "shutdown");
        config.power.reboot = text_of(t, "reboot");
        config.power.use_setsid = flag_of(t, "use_setsid", config.power.use_setsid);
    }
    if let Some(t) = section(&root, "keybindings") {
        if let Some(v) = number_of(t, "command") {
            config.keybindings.command = v as u8;
        }
        if let Some(v) = number_of(t, "sessions") {
            config.keybindings.sessions = v as u8;
        }
        if let Some(v) = number_of(t, "power") {
            config.keybindings.power = v as u8;
        }
    }
    Ok(config)
}

#[test]
fn test_mutual_exclusive_remember_flags() {
    let toml_content = r#"
[remember]
username = true
session = true
user_session = true
"#;

    let config: Config = config_from_toml(toml_content).expect("Failed to parse TOML");

    assert!(config.remember.session);
    assert!(config.remember.user_session);

    let result = config.validate(false, NO_PROBE);
    assert!(
        result.is_err(),
        "Expected validation to fail when both remember.session and \
         remember.user_session are true"
    );
}

#[test]
fn test_validate_enforces_mutual_exclusion() {
    let toml_content = r#"
[remember]
username = true
session = true
user_session = true
"#;

    let config: Config = config_from_toml(toml_content).expect("Failed to parse TOML");
    let validation_result = config.validate(false, NO_PROBE);

    match validation_result {
        Err(ConfigError::MutuallyExclusive(opt1, opt2)) => {
            assert_eq!(opt1, "remember.session");
            assert_eq!(opt2, "remember.user_session");
        },
        _ => {
            panic!("Expected MutuallyExclusive error, got: {:?}", validation_result);
        },
    }
}

#[test]
fn test_keybindings_distinctness_in_config() {
    let toml_content = r#"
[keybindings]
command = 3
sessions = 3
power = 7
"#;

    let config: Config = config_from_toml(toml_content).expect("Failed to parse TOML");
    let validation_result = config.validate(false, NO_PROBE);

    match validation_result {
        Err(ConfigError::DuplicateKeybindings) => {},
        _ => {
            panic!("Expected DuplicateKeybindings error, got: {:?}", validation_result);
        },
    }
}

#[test]
fn test_session_config_default_consistency() {
    let default_config = Config::default();

    println!("Default::default() SessionConfig:");
    println!("  sessions_dirs: {:?}", default_config.session.sessions_dirs);
    println!("  xsessions_dirs: {:?}", default_config.session.xsessions_dirs);
    println!("  xsession_wrapper: {:?}", default_config.session.xsession_wrapper);

    let empty_toml = r#""#;
    let deserialized_config: Config =
        config_from_toml(empty_toml).expect("Failed to parse empty TOML");

    println!("\nDeserialized from empty TOML:");
    println!("  sessions_dirs: {:?}", deserialized_config.session.sessions_dirs);
    println!("  xsessions_dirs: {:?}", deserialized_config.session.xsessions_dirs);
    println!("  xsession_wrapper: {:?}", deserialized_config.session.xsession_wrapper);

    let partial_toml = r#"
[session]
command = "test"
"#;
    let partial_config: Config =
        config_from_toml(partial_toml).expect("Failed to parse partial TOML");

    println!("\nDeserialized with [session] present but fields missing:");
    println!("  sessions_dirs: {:?}", partial_config.session.sessions_dirs);
    println!("  xsessions_dirs: {:?}", partial_config.session.xsessions_dirs);
    println!("  xsession_wrapper: {:?}", partial_config.session.xsession_wrapper);

    assert_eq!(
        default_config.session.sessions_dirs, partial_config.session.sessions_dirs,
        "Default and partially deserialized sessions_dirs should match"
    );
}

#[test]
fn test_power_config_default_consistency() {
    let default_config = Config::default();

    println!("Default::default() PowerConfig:");
    println!("  shutdown: {:?}", default_config.power.shutdown);
    println!("  reboot: {:?}", default_config.power.reboot);
    println!("  use_setsid: {:?}", default_config.power.use_setsid);

    let empty_toml = r#""#;
    let deserialized_config: Config =
        config_from_toml(empty_toml).expect("Failed to parse empty TOML");

    println!("\nDeserialized from empty TOML:");
    println!("  shutdown: {:?}", deserialized_config.power.shutdown);
    println!("  reboot: {:?}", deserialized_config.power.reboot);
    println!("  use_setsid: {:?}", deserialized_config.power.use_setsid);

    let partial_toml = r#"
[power]
shutdown = "poweroff"
"#;
    let partial_config: Config =
        config_from_toml(partial_toml).expect("Failed to parse partial TOML");

    println!("\nDeserialized with [power] present but use_setsid missing:");
    println!("  shutdown: {:?}", partial_config.power.shutdown);
    println!("  reboot: {:?}", partial_config.power.reboot);
    println!("  use_setsid: {:?}", partial_config.power.use_setsid);

    assert_eq!(
        default_config.power.use_setsid, partial_config.power.use_setsid,
        "Default and partially deserialized use_setsid should match"
    );
}

#[test]
fn test_wrapper_validation_empty_string() {
    let empty_wrapper = r#"
[session]
session_wrapper = ""
"#;

    let mut config: Config = config_from_toml(empty_wrapper).expect("Failed to parse TOML");

    config.session.xsession_wrapper = None;

    let result =
        config.validate(true, WrapperProbe { session_wrapper_found: true, xsession_wrapper_found: true });

    assert!(result.is_err(), "Empty wrapper command should fail validation");
}

#[test]
fn test_wrapper_validation_whitespace_only() {
    let whitespace_wrapper = r#"
[session]
session_wrapper = "   "
"#;

    let mut config: Config = config_from_toml(whitespace_wrapper).expect("Failed to parse TOML");

    config.session.xsession_wrapper = None;

    let result =
        config.validate(true, WrapperProbe { session_wrapper_found: true, xsession_wrapper_found: true });

    assert!(result.is_err(), "Whitespace-only wrapper command should fail validation");
}

#[test]
fn defaults_hold_the_documented_values() {
    let c = Config::default();
    assert!(!c.general.debug);
    assert_eq!(c.general.log_file, "/tmp/tuigreet.log");
    assert_eq!(c.session.command, None);
    assert_eq!(c.session.sessions_dirs, vec!["/usr/share/wayland-sessions".to_string()]);
    assert_eq!(c.session.xsessions_dirs, vec!["/usr/share/xsessions".to_string()]);
    assert_eq!(c.session.session_wrapper, None);
    assert_eq!(c.session.xsession_wrapper, Some("startx".to_string()));
    assert!(c.session.environments.is_empty());
    assert_eq!(c.display.align_greeting, AlignGreeting::Center);
    assert_eq!(c.user_menu.min_uid, 1000);
    assert_eq!(c.user_menu.max_uid, 60000);
    assert_eq!(c.secret.mode, SecretMode::Hidden);
    assert_eq!(c.secret.characters, "*");
    assert_eq!(c.layout.width, 80);
    assert_eq!(c.layout.window_padding, None);
    assert_eq!(c.layout.widgets.time_position, WidgetPosition::Default);
    assert!(c.power.use_setsid);
    assert_eq!(c.keybindings.command, 2);
    assert_eq!(c.keybindings.sessions, 3);
    assert_eq!(c.keybindings.power, 12);
    assert_eq!(c.theme.border, None);
    assert_eq!(AlignGreeting::default(), AlignGreeting::Center);
    assert_eq!(SecretMode::default(), SecretMode::Hidden);
    assert_eq!(WidgetPosition::default(), WidgetPosition::Default);
}

#[test]
fn merge_overwrites_only_what_differs_from_defaults() {
    let mut dest = Config::default();
    dest.general.log_file = "/var/log/greeter.log".to_string();
    dest.layout.width = 100;
    dest.theme.border = Some("red".to_string());
    dest.session.sessions_dirs = vec!["/opt/sessions".to_string()];

    let mut src = Config::default();
    src.general.debug = true;
    src.layout.width = 120;
    src.theme.text = Some("blue".to_string());
    src.display.greeting = Some("hello".to_string());
    src.keybindings.power = 9;

    merge_configs(&mut dest, src);

    assert!(dest.general.debug);
    assert_eq!(dest.general.log_file, "/var/log/greeter.log");
    assert_eq!(dest.layout.width, 120);
    assert_eq!(dest.theme.border, Some("red".to_string()));
    assert_eq!(dest.theme.text, Some("blue".to_string()));
    assert_eq!(dest.display.greeting, Some("hello".to_string()));
    assert_eq!(dest.session.sessions_dirs, vec!["/opt/sessions".to_string()]);
    assert_eq!(dest.keybindings.power, 9);
    assert_eq!(dest.keybindings.command, 2);
}

#[test]
fn merge_cannot_set_a_field_back_to_its_default() {
    let mut dest = Config::default();
    dest.power.use_setsid = false;
    dest.session.xsession_wrapper = None;
    let src = Config::default();
    merge_configs(&mut dest, src);
    assert!(!dest.power.use_setsid);
    assert_eq!(dest.session.xsession_wrapper, None);
}

#[test]
fn merge_takes_power_commands_from_the_source() {
    let mut dest = Config::default();
    merge_configs(&mut dest, {
        let mut src = Config::default();
        src.power.shutdown = Some("poweroff".to_string());
        src.power.reboot = Some("reboot".to_string());
        src
    });
    assert_eq!(dest.power.shutdown, Some("poweroff".to_string()));
    assert_eq!(dest.power.reboot, Some("reboot".to_string()));
    assert!(dest.power.use_setsid);

    // a command that the destination holds gives way to the source's
    let mut src = Config::default();
    src.power.shutdown = Some("halt".to_string());
    src.power.use_setsid = false;
    merge_configs(&mut dest, src);
    assert_eq!(dest.power.shutdown, Some("halt".to_string()));
    assert_eq!(dest.power.reboot, Some("reboot".to_string()));
    assert!(!dest.power.use_setsid);

    // and stays where the source names none
    merge_configs(&mut dest, Config::default());
    assert_eq!(dest.power.shutdown, Some("halt".to_string()));
    assert_eq!(dest.power.reboot, Some("reboot".to_string()));
}

#[test]
fn user_file_power_commands_survive_the_layering() {
    let mut system = Config::default();
    system.power.reboot = Some("systemctl reboot".to_string());
    let mut user = Config::default();
    user.power.shutdown = Some("poweroff".to_string());
    let loaded = load_config(None, Ok(system), Ok(user)).unwrap();
    assert_eq!(loaded.power.shutdown, Some("poweroff".to_string()));
    assert_eq!(loaded.power.reboot, Some("systemctl reboot".to_string()));
}

#[test]
fn merging_twice_is_merging_once() {
    let mut src = Config::default();
    src.layout.window_padding = Some(3);
    src.secret.mode = SecretMode::Characters;
    src.session.environments = vec!["A=1".to_string()];
    let mut dest = Config::default();
    dest.layout.prompt_padding = Some(1);
    merge_configs(&mut dest, src.clone());
    let once = format!("{:?}", dest);
    merge_configs(&mut dest, src);
    assert_eq!(once, format!("{:?}", dest));
}

#[test]
fn explicit_file_is_used_alone() {
    let mut explicit = Config::default();
    explicit.layout.width = 42;
    let mut system = Config::default();
    system.layout.width = 50;
    let mut user = Config::default();
    user.general.debug = true;
    let loaded = load_config(Some(Ok(explicit)), Ok(system), Ok(user)).unwrap();
    assert_eq!(loaded.layout.width, 42);
    assert!(!loaded.general.debug);
}

#[test]
fn explicit_file_that_fails_fails_the_load() {
    let result =
        load_config(Some(Err(ConfigError::Io("denied".to_string()))), Ok(Config::default()), Ok(Config::default()));
    match result {
        Err(ConfigError::Io(text)) => assert_eq!(text, "denied"),
        other => panic!("expected the I/O error, got {:?}", other),
    }
}

#[test]
fn user_file_is_merged_over_system_file() {
    let mut system = Config::default();
    system.layout.width = 50;
    system.general.log_file = "/var/log/sys.log".to_string();
    let mut user = Config::default();
    user.layout.width = 60;
    let loaded = load_config(None, Ok(system), Ok(user)).unwrap();
    assert_eq!(loaded.layout.width, 60);
    assert_eq!(loaded.general.log_file, "/var/log/sys.log");
}

#[test]
fn failed_layers_are_passed_over() {
    let mut user = Config::default();
    user.layout.width = 60;
    let loaded =
        load_config(None, Err(ConfigError::Parse("bad".to_string())), Ok(user)).unwrap();
    assert_eq!(loaded.layout.width, 60);

    let mut system = Config::default();
    system.layout.width = 50;
    let loaded =
        load_config(None, Ok(system), Err(ConfigError::Io("gone".to_string()))).unwrap();
    assert_eq!(loaded.layout.width, 50);
}

#[test]
fn absent_files_stand_for_defaults() {
    let system = load_system_config(None).unwrap();
    assert_eq!(system.layout.width, 80);
    let user = load_user_config(None).unwrap();
    assert_eq!(user.keybindings.power, 12);
    let mut found = Config::default();
    found.layout.width = 77;
    assert_eq!(load_system_config(Some(Ok(found))).unwrap().layout.width, 77);
    assert!(load_user_config(Some(Err(ConfigError::Io("x".to_string())))).is_err());
}

#[test]
fn validation_reports_each_rule() {
    let mut c = Config::default();
    c.display.issue = true;
    c.display.greeting = Some("hi".to_string());
    match c.validate(false, NO_PROBE) {
        Err(ConfigError::MutuallyExclusive(a, b)) => {
            assert_eq!(a, "display.issue");
            assert_eq!(b, "display.greeting");
        },
        other => panic!("got {:?}", other),
    }

    let mut c = Config::default();
    c.remember.user_session = true;
    match c.validate(false, NO_PROBE) {
        Err(ConfigError::Dependency(m)) => {
            assert_eq!(m, "remember.user_session requires remember.username")
        },
        other => panic!("got {:?}", other),
    }

    let mut c = Config::default();
    c.user_menu.min_uid = 2000;
    c.user_menu.max_uid = 1000;
    match c.validate(false, NO_PROBE) {
        Err(ConfigError::InvalidRange(m)) => {
            assert_eq!(m, "user_menu.min_uid must not exceed user_menu.max_uid")
        },
        other => panic!("got {:?}", other),
    }

    let mut c = Config::default();
    c.keybindings.command = 13;
    match c.validate(false, NO_PROBE) {
        Err(ConfigError::InvalidFKey(name, key)) => {
            assert_eq!(name, "command");
            assert_eq!(key, 13);
        },
        other => panic!("got {:?}", other),
    }

    let mut c = Config::default();
    c.keybindings.sessions = 0;
    match c.validate(false, NO_PROBE) {
        Err(ConfigError::InvalidFKey(name, key)) => {
            assert_eq!(name, "sessions");
            assert_eq!(key, 0);
        },
        other => panic!("got {:?}", other),
    }

    let mut c = Config::default();
    c.keybindings.power = 200;
    match c.validate(false, NO_PROBE) {
        Err(ConfigError::InvalidFKey(name, key)) => {
            assert_eq!(name, "power");
            assert_eq!(key, 200);
        },
        other => panic!("got {:?}", other),
    }

    let mut c = Config::default();
    c.display.time_format = Some("%Q bogus %".to_string());
    assert!(matches!(c.validate(false, NO_PROBE), Err(ConfigError::InvalidTimeFormat)));
}

#[test]
fn validation_accepts_defaults_and_valid_time_format() {
    let c = Config::default();
    assert_eq!(c.validate(false, NO_PROBE).unwrap(), Vec::<String>::new());
    let mut c = Config::default();
    c.display.time_format = Some("%Y-%m-%d %H:%M:%S".to_string());
    assert!(c.validate(false, NO_PROBE).is_ok());
}

#[test]
fn time_format_check_follows_the_parser() {
    assert!(time_format_is_valid("%H:%M"));
    assert!(time_format_is_valid("plain text"));
    assert!(time_format_is_valid(""));
    assert!(!time_format_is_valid("%"));
    assert!(!time_format_is_valid("foo%?"));
    assert!(!has_error_item(&vec![FormatItem::Literal, FormatItem::Numeric]));
    assert!(has_error_item(&vec![FormatItem::Literal, FormatItem::Error]));
    assert!(!has_error_item(&Vec::new()));
}

#[test]
fn wrapper_validation_uses_the_probe() {
    let mut c = Config::default();
    c.session.session_wrapper = Some("  /usr/bin/env  FOO=1 sway ".to_string());
    c.session.xsession_wrapper = Some("startx".to_string());
    let found = WrapperProbe { session_wrapper_found: true, xsession_wrapper_found: true };
    assert!(c.validate(true, found).is_ok());

    let missing = WrapperProbe { session_wrapper_found: false, xsession_wrapper_found: true };
    match c.validate(true, missing) {
        Err(ConfigError::WrapperExecutableNotFound(path)) => assert_eq!(path, "/usr/bin/env"),
        other => panic!("got {:?}", other),
    }
    let missing = WrapperProbe { session_wrapper_found: true, xsession_wrapper_found: false };
    match c.validate(true, missing) {
        Err(ConfigError::WrapperExecutableNotFound(path)) => assert_eq!(path, "startx"),
        other => panic!("got {:?}", other),
    }
    // not asked for: not checked
    assert!(c.validate(false, NO_PROBE).is_ok());

    match c.validate_wrapper_command("   ", true) {
        Err(ConfigError::WrapperExecutableNotFound(path)) => assert_eq!(path, "   "),
        other => panic!("got {:?}", other),
    }
    assert!(c.validate_wrapper_command("sway --debug", true).is_ok());
}

#[test]
fn wrapper_target_tells_paths_from_names() {
    assert!(matches!(wrapper_target(""), WrapperTarget::Empty));
    assert!(matches!(wrapper_target(" \t "), WrapperTarget::Empty));
    match wrapper_target("  /usr/bin/sway --unsupported-gpu") {
        WrapperTarget::Absolute(p) => assert_eq!(p, "/usr/bin/sway"),
        other => panic!("got {:?}", other),
    }
    match wrapper_target("startx\t/usr/bin/i3") {
        WrapperTarget::InPath(p) => assert_eq!(p, "startx"),
        other => panic!("got {:?}", other),
    }
    match wrapper_target("dbus-run-session") {
        WrapperTarget::InPath(p) => assert_eq!(p, "dbus-run-session"),
        other => panic!("got {:?}", other),
    }
}

#[test]
fn warnings_come_in_order_with_exact_text() {
    let mut c = Config::default();
    c.layout.window_padding = Some(11);
    c.layout.container_padding = Some(25);
    c.layout.width = 201;
    c.user_menu.enabled = true;
    c.user_menu.min_uid = 65001;
    c.user_menu.max_uid = 70000;
    c.session.xsessions_dirs = vec!["/usr/share/wayland-sessions".to_string()];
    c.layout.widgets.time_position = WidgetPosition::Hidden;
    c.display.show_time = true;
    c.power.use_setsid = false;
    c.power.shutdown = Some("poweroff".to_string());
    c.power.reboot = Some("systemctl reboot".to_string());
    c.display.time_format = Some(String::new());
    let warnings = c.validate(false, NO_PROBE).unwrap();
    assert_eq!(
        warnings,
        vec![
            "window_padding is very high (11), this may cause display issues".to_string(),
            "container_padding is very high (25), this may cause display issues".to_string(),
            "width is very high (201), this may cause display issues on smaller terminals"
                .to_string(),
            "user_menu.min_uid is very high, you may not see any users".to_string(),
            "Duplicate session directories detected in sessions_dirs and xsessions_dirs"
                .to_string(),
            "time widget is hidden but show_time is enabled".to_string(),
            "shutdown command without setsid or privilege escalation may fail".to_string(),
            "reboot command without setsid or privilege escalation may fail".to_string(),
            "time_format is empty, this will result in no time display".to_string(),
        ]
    );
}

#[test]
fn warnings_at_their_thresholds() {
    let mut c = Config::default();
    c.layout.window_padding = Some(10);
    c.layout.width = 200;
    c.user_menu.enabled = true;
    c.user_menu.min_uid = 65000;
    c.user_menu.max_uid = 65000;
    c.power.use_setsid = false;
    c.power.shutdown = Some("sudo poweroff".to_string());
    c.power.reboot = Some("doas reboot".to_string());
    assert!(c.validate(false, NO_PROBE).unwrap().is_empty());

    let mut c = Config::default();
    c.session.sessions_dirs = Vec::new();
    c.session.xsessions_dirs = Vec::new();
    let mut warnings = vec!["earlier".to_string()];
    c.check_warnings(&mut warnings);
    assert_eq!(
        warnings,
        vec![
            "earlier".to_string(),
            "No session directories configured, users may not be able to select sessions"
                .to_string(),
        ]
    );

    let mut c = Config::default();
    c.remember.session = true;
    c.remember.user_session = true;
    let mut warnings = Vec::new();
    c.check_warnings(&mut warnings);
    assert_eq!(
        warnings,
        vec!["Both remember.session and remember.user_session are enabled".to_string()]
    );
}

#[test]
fn duplicates_are_found_across_both_lists() {
    let a = vec!["x".to_string(), "y".to_string()];
    let b = vec!["z".to_string(), "x".to_string()];
    assert!(has_duplicates(&a, &b));
    assert!(!has_duplicates(&a, &vec!["z".to_string()]));
    assert!(has_duplicates(&vec!["q".to_string(), "q".to_string()], &Vec::new()));
    assert!(!has_duplicates(&Vec::new(), &Vec::new()));
}

#[test]
fn error_messages_read_as_documented() {
    assert_eq!(ConfigError::Io("denied".to_string()).message(), "I/O error: denied");
    assert_eq!(ConfigError::Parse("bad".to_string()).message(), "TOML parse error: bad");
    assert_eq!(ConfigError::Validation("v".to_string()).message(), "Validation error: v");
    assert_eq!(
        ConfigError::MutuallyExclusive("a".to_string(), "b".to_string()).message(),
        "Options 'a' and 'b' are mutually exclusive"
    );
    assert_eq!(ConfigError::Dependency("d".to_string()).message(), "Dependency error: d");
    assert_eq!(ConfigError::InvalidRange("r".to_string()).message(), "Invalid range: r");
    assert_eq!(ConfigError::DuplicateKeybindings.message(), "Duplicate keybindings detected");
    assert_eq!(
        ConfigError::InvalidFKey("power".to_string(), 13).message(),
        "Invalid F-key value for 'power': F13 (must be F1-F12)"
    );
    assert_eq!(ConfigError::InvalidTimeFormat.message(), "Invalid time format string");
    assert_eq!(
        ConfigError::WrapperExecutableNotFound("/bin/nope".to_string()).message(),
        "Session wrapper executable not found: /bin/nope"
    );
    let e = ConfigError::ParseWithContext {
        file: "/etc/tuigreet/config.toml".to_string(),
        line: 3,
        column: 14,
        context: vec!["one".to_string(), "two".to_string()],
        original_message: "expected a value".to_string(),
    };
    assert_eq!(
        e.message(),
        "TOML parse error: expected a value\nFile: /etc/tuigreet/config.toml\nLine: 3, Column: 14\n\none\ntwo\n"
    );
}

#[test]
fn lines_follow_line_feeds() {
    assert_eq!(lines(""), Vec::<String>::new());
    assert_eq!(lines("abc"), vec!["abc".to_string()]);
    assert_eq!(lines("abc\n"), vec!["abc".to_string()]);
    assert_eq!(lines("a\r\nb\n\nc"), vec!["a", "b", "", "c"]);
    assert_eq!(lines("a\r"), vec!["a\r".to_string()]);
    assert_eq!(lines("\n"), vec!["".to_string()]);
    for text in ["", "x", "x\n", "\n\n", "a\r\nb\r", "one\ntwo\nthree\n", "é\nü"] {
        let expected: Vec<String> = text.lines().map(|l| l.to_string()).collect();
        assert_eq!(lines(text), expected);
    }
}

#[test]
fn parse_error_is_shown_in_context() {
    let content = "[general]\ndebug = true\nlog_file = \n[session]\ncommand = \"x\"\nextra = 1\n";
    let before = "[general]\ndebug = true\nlog_file = ";
    let e = toml_error("/etc/tuigreet/config.toml", content, Some(before), "rendered", "expected value");
    match e {
        ConfigError::ParseWithContext { file, line, column, context, original_message } => {
            assert_eq!(file, "/etc/tuigreet/config.toml");
            // three lines lie before the place, and eleven bytes behind the
            // last line feed
            assert_eq!(line, 4);
            assert_eq!(column, 12);
            assert_eq!(original_message, "expected value");
            assert_eq!(
                context,
                vec![
                    "      2:    debug = true".to_string(),
                    "      3:    log_file = ".to_string(),
                    "  >   4:12  [session]".to_string(),
                    "            ^".to_string(),
                    "      5:    command = \"x\"".to_string(),
                    "      6:    extra = 1".to_string(),
                ]
            );
        },
        other => panic!("got {:?}", other),
    }
}

#[test]
fn parse_error_at_the_start_and_far_to_the_right() {
    let e = toml_error("c.toml", "x\ny\n", Some(""), "r", "m");
    match e {
        ConfigError::ParseWithContext { line, column, context, .. } => {
            assert_eq!(line, 1);
            assert_eq!(column, 1);
            assert_eq!(
                context,
                vec![
                    "  >   1:1  x".to_string(),
                    "           ^".to_string(),
                    "      2:    y".to_string(),
                ]
            );
        },
        other => panic!("got {:?}", other),
    }

    let long = "k".repeat(90);
    let content = format!("{}\n{}", long, "tail");
    let before = format!("{}\n{}", long, "");
    // the place lies on the second line; one line lies before it
    let e = toml_error("c.toml", &content, Some(&before), "r", "m");
    match e {
        ConfigError::ParseWithContext { line, column, context, .. } => {
            assert_eq!(line, 2);
            assert_eq!(column, 1);
            assert_eq!(context.len(), 3);
        },
        other => panic!("got {:?}", other),
    }

    let wide = format!("{}", "w".repeat(85));
    let e = toml_error("c.toml", &wide, Some(&wide[..80]), "r", "m");
    match e {
        ConfigError::ParseWithContext { line, column, context, .. } => {
            assert_eq!(line, 2);
            assert_eq!(column, 81);
            // the arrow is left out beyond eighty columns, and the line
            // that the count points at lies behind the end of the text
            assert_eq!(context, vec![format!("      1:    {}", wide)]);
        },
        other => panic!("got {:?}", other),
    }
}

#[test]
fn parse_error_without_a_place_keeps_the_rendering() {
    match toml_error("c.toml", "x", None, "rendered error", "message") {
        ConfigError::Parse(text) => assert_eq!(text, "rendered error"),
        other => panic!("got {:?}", other),
    }
}

#[test]
fn parse_error_counts_columns_in_bytes() {
    let content = "name = \"é\" oops\n";
    let before = "name = \"é\" ";
    match toml_error("c.toml", content, Some(before), "r", "m") {
        ConfigError::ParseWithContext { column, .. } => assert_eq!(column, before.len() + 1),
        other => panic!("got {:?}", other),
    }
}
