use rustyterm::config::Config;

#[test]
fn test_default_config() {
    let c = Config::default();
    assert_eq!(c.theme, "default");
    assert_eq!(c.font_family, "Monospace");
    assert_eq!(c.font_size, 12);
    assert_eq!(c.scrollback_lines, 10000);
    assert_eq!(c.window_width, 800);
    assert_eq!(c.window_height, 600);
}

#[test]
fn test_config_paths_from_base() {
    let dir = Config::config_dir_from(Some("/home/user/.config".to_string()));
    assert_eq!(dir, "/home/user/.config/rustyterm");

    let file = Config::config_file_from(Some("/home/user/.config".to_string()));
    assert_eq!(file, "/home/user/.config/rustyterm/config.toml");
}

#[test]
fn test_config_paths_without_base() {
    assert_eq!(Config::config_dir_from(None), "./rustyterm");
    assert_eq!(Config::config_file_from(None), "./rustyterm/config.toml");
}

#[test]
fn test_config_file_resolved_from_platform() {
    // Goes through the platform lookup; whatever base it reports, the
    // resolved path ends with the fixed directory and file name.
    let file = Config::config_file();
    assert!(file.ends_with("/rustyterm/config.toml"));
    let dir = Config::config_dir();
    assert!(dir.ends_with("/rustyterm"));
    assert!(file.starts_with(dir.as_str()));
}
