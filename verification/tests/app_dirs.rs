use platform_dirs::AppDirs;
use platform_dirs::NativeDirs;
use platform_dirs::Platform;
use platform_dirs::UiMode;
use platform_dirs::XdgEnv;
use platform_dirs::resolve_app_dirs;

fn env_unset() -> XdgEnv {
    XdgEnv { cache_home: None, config_home: None, data_home: None, state_home: None }
}

fn env_with_config(value: &str) -> XdgEnv {
    XdgEnv {
        cache_home: None,
        config_home: Some(String::from(value)),
        data_home: None,
        state_home: None,
    }
}

fn apple_native(home: &str) -> NativeDirs {
    NativeDirs {
        cache: Some(format!("{}/Library/Caches", home)),
        data: Some(format!("{}/Library/Application Support", home)),
        data_local: None,
    }
}

fn windows_native(home: &str) -> NativeDirs {
    NativeDirs {
        cache: None,
        data: Some(format!("{}/AppData/Roaming", home)),
        data_local: Some(format!("{}/AppData/Local", home)),
    }
}

fn no_native() -> NativeDirs {
    NativeDirs { cache: None, data: None, data_local: None }
}

#[test]
fn test_config_dir() {
    // Apple in graphical mode: config comes from the application-support base.
    let home = String::from("/Users/u");
    let dirs = resolve_app_dirs(
        Platform::Apple,
        UiMode::Graphical,
        Some("foo"),
        Some(&home),
        &apple_native("/Users/u"),
        &env_unset(),
    )
    .unwrap();
    assert_eq!(dirs.config_dir, "/Users/u/Library/Application Support/foo");

    // Windows: config comes from the roaming base.
    let home = String::from("C:/Users/u");
    let dirs = resolve_app_dirs(
        Platform::Windows,
        UiMode::Graphical,
        Some("foo"),
        Some(&home),
        &windows_native("C:/Users/u"),
        &env_unset(),
    )
    .unwrap();
    assert_eq!(dirs.config_dir, "C:/Users/u/AppData/Roaming/foo");

    // XDG: an empty variable is treated as unset.
    let home = String::from("/home/cjbassi");
    let dirs = resolve_app_dirs(
        Platform::Xdg,
        UiMode::CommandLine,
        None,
        Some(&home),
        &no_native(),
        &env_with_config(""),
    )
    .unwrap();
    assert_eq!(dirs.config_dir, "/home/cjbassi/.config");

    // XDG: a set absolute variable wins, and the name lands at the end.
    let dirs = resolve_app_dirs(
        Platform::Xdg,
        UiMode::CommandLine,
        Some("bar"),
        Some(&home),
        &no_native(),
        &env_with_config("/home/cjbassi/foo"),
    )
    .unwrap();
    assert_eq!(dirs.config_dir, "/home/cjbassi/foo/bar");
}

#[test]
fn test_xdg_defaults_with_name() {
    let home = String::from("/home/u");
    let dirs = resolve_app_dirs(
        Platform::Xdg,
        UiMode::CommandLine,
        Some("myapp"),
        Some(&home),
        &no_native(),
        &env_unset(),
    )
    .unwrap();
    assert_eq!(dirs.cache_dir, "/home/u/.cache/myapp");
    assert_eq!(dirs.config_dir, "/home/u/.config/myapp");
    assert_eq!(dirs.data_dir, "/home/u/.local/share/myapp");
    assert_eq!(dirs.state_dir, "/home/u/.local/state/myapp");
}

#[test]
fn test_xdg_config_env_override() {
    let home = String::from("/home/u");
    let dirs = resolve_app_dirs(
        Platform::Xdg,
        UiMode::CommandLine,
        Some("bar"),
        Some(&home),
        &no_native(),
        &env_with_config("/etc/xdg"),
    )
    .unwrap();
    assert_eq!(dirs.config_dir, "/etc/xdg/bar");
}

#[test]
fn test_xdg_relative_env_ignored() {
    let home = String::from("/home/u");
    let dirs = resolve_app_dirs(
        Platform::Xdg,
        UiMode::CommandLine,
        None,
        Some(&home),
        &no_native(),
        &env_with_config("relative/path"),
    )
    .unwrap();
    assert_eq!(dirs.config_dir, "/home/u/.config");
}

#[test]
fn test_apple_graphical_aliasing() {
    let home = String::from("/Users/u");
    let dirs = resolve_app_dirs(
        Platform::Apple,
        UiMode::Graphical,
        Some("app"),
        Some(&home),
        &apple_native("/Users/u"),
        &env_unset(),
    )
    .unwrap();
    assert_eq!(dirs.data_dir, "/Users/u/Library/Application Support/app");
    assert_eq!(dirs.config_dir, dirs.data_dir);
    assert_eq!(dirs.state_dir, dirs.data_dir);
    assert_eq!(dirs.cache_dir, "/Users/u/Library/Caches/app");
}

#[test]
fn test_apple_command_line_uses_xdg() {
    let home = String::from("/Users/u");
    let dirs = resolve_app_dirs(
        Platform::Apple,
        UiMode::CommandLine,
        Some("app"),
        Some(&home),
        &apple_native("/Users/u"),
        &env_unset(),
    )
    .unwrap();
    assert_eq!(dirs.config_dir, "/Users/u/.config/app");
    assert_eq!(dirs.cache_dir, "/Users/u/.cache/app");
}

#[test]
fn test_windows_roaming_local_split() {
    let home = String::from("C:/Users/u");
    let dirs = resolve_app_dirs(
        Platform::Windows,
        UiMode::CommandLine,
        Some("app"),
        Some(&home),
        &windows_native("C:/Users/u"),
        &env_unset(),
    )
    .unwrap();
    assert_eq!(dirs.config_dir, "C:/Users/u/AppData/Roaming/app");
    assert_eq!(dirs.cache_dir, "C:/Users/u/AppData/Local/app");
    assert_eq!(dirs.data_dir, "C:/Users/u/AppData/Local/app");
    assert_eq!(dirs.state_dir, dirs.data_dir);
}

#[test]
fn test_windows_missing_base_fails() {
    let home = String::from("C:/Users/u");
    let native = NativeDirs {
        cache: None,
        data: Some(String::from("C:/Users/u/AppData/Roaming")),
        data_local: None,
    };
    let dirs = resolve_app_dirs(
        Platform::Windows,
        UiMode::CommandLine,
        None,
        Some(&home),
        &native,
        &env_unset(),
    );
    assert!(dirs.is_none());
}

#[test]
fn test_apple_missing_base_fails() {
    let home = String::from("/Users/u");
    let native = NativeDirs {
        cache: Some(String::from("/Users/u/Library/Caches")),
        data: None,
        data_local: None,
    };
    let dirs = resolve_app_dirs(
        Platform::Apple,
        UiMode::Graphical,
        None,
        Some(&home),
        &native,
        &env_unset(),
    );
    assert!(dirs.is_none());
}

#[test]
fn test_no_home_returns_nothing() {
    for platform in [Platform::Apple, Platform::Windows, Platform::Xdg] {
        for ui_mode in [UiMode::CommandLine, UiMode::Graphical] {
            let dirs = resolve_app_dirs(
                platform,
                ui_mode,
                Some("app"),
                None,
                &apple_native("/Users/u"),
                &env_with_config("/etc/xdg"),
            );
            assert!(dirs.is_none());
        }
    }
}

#[test]
fn test_name_suffix_every_branch() {
    let home = String::from("/home/u");
    let cases = [
        (Platform::Apple, UiMode::Graphical, apple_native("/home/u")),
        (Platform::Apple, UiMode::CommandLine, apple_native("/home/u")),
        (Platform::Windows, UiMode::Graphical, windows_native("/home/u")),
        (Platform::Xdg, UiMode::CommandLine, no_native()),
    ];
    for (platform, ui_mode, native) in cases {
        let dirs = resolve_app_dirs(
            platform,
            ui_mode,
            Some("app"),
            Some(&home),
            &native,
            &env_with_config("/etc/xdg"),
        )
        .unwrap();
        assert!(dirs.cache_dir.ends_with("/app"));
        assert!(dirs.config_dir.ends_with("/app"));
        assert!(dirs.data_dir.ends_with("/app"));
        assert!(dirs.state_dir.ends_with("/app"));
    }
}

#[test]
fn test_idempotent() {
    let home = String::from("/home/u");
    let env = env_with_config("/etc/xdg");
    let a = resolve_app_dirs(
        Platform::Xdg,
        UiMode::CommandLine,
        Some("app"),
        Some(&home),
        &no_native(),
        &env,
    )
    .unwrap();
    let b = resolve_app_dirs(
        Platform::Xdg,
        UiMode::CommandLine,
        Some("app"),
        Some(&home),
        &no_native(),
        &env,
    )
    .unwrap();
    assert_eq!(a.cache_dir, b.cache_dir);
    assert_eq!(a.config_dir, b.config_dir);
    assert_eq!(a.data_dir, b.data_dir);
    assert_eq!(a.state_dir, b.state_dir);
}

#[test]
fn test_name_with_separator_propagates() {
    // The resolver performs no validation of the name: a value that is no
    // single segment lands in the path unchanged.
    let home = String::from("/home/u");
    let dirs = resolve_app_dirs(
        Platform::Xdg,
        UiMode::CommandLine,
        Some("a/b"),
        Some(&home),
        &no_native(),
        &env_unset(),
    )
    .unwrap();
    assert_eq!(dirs.cache_dir, "/home/u/.cache/a/b");
}

#[test]
fn test_new_resolves_on_this_host() {
    // End to end against the real operating system: the host has a home
    // directory, so resolution succeeds, and a given name lands at the end of
    // every resolved path on every branch of the decision tree.
    for platform in [Platform::Apple, Platform::Windows, Platform::Xdg] {
        for ui_mode in [UiMode::CommandLine, UiMode::Graphical] {
            if let Some(dirs) = AppDirs::new(Some("someapp"), ui_mode, platform, &env_unset()) {
                assert!(dirs.cache_dir.ends_with("/someapp"));
                assert!(dirs.config_dir.ends_with("/someapp"));
                assert!(dirs.data_dir.ends_with("/someapp"));
                assert!(dirs.state_dir.ends_with("/someapp"));
            }
        }
    }
    // The XDG branch needs only the home directory, which this host supplies.
    let dirs = AppDirs::new(None, UiMode::CommandLine, Platform::Xdg, &env_unset());
    assert!(dirs.is_some());
}
