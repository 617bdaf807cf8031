use rustyterm::theme::{get_theme_by_name, get_themes};

#[test]
fn test_theme_table() {
    let themes = get_themes();
    assert_eq!(themes.len(), 4);
    assert_eq!(themes[0].name, "default");
    assert_eq!(themes[1].name, "light");
    assert_eq!(themes[2].name, "solarized_dark");
    assert_eq!(themes[3].name, "dracula");
    for t in &themes {
        assert_eq!(t.palette.len(), 16);
    }
}

#[test]
fn test_default_theme_colors() {
    let t = &get_themes()[0];
    assert_eq!(t.background, "#1e1e2e");
    assert_eq!(t.foreground, "#cdd6f4");
    assert_eq!(t.cursor, "#f5e0dc");
    assert_eq!(t.palette[0], "#45475a");
    assert_eq!(t.palette[7], "#bac2de");
    assert_eq!(t.palette[15], "#a6adc8");
}

#[test]
fn test_lookup_by_name() {
    let t = get_theme_by_name("dracula");
    assert_eq!(t.name, "dracula");
    assert_eq!(t.background, "#282a36");
    assert_eq!(t.palette[1], "#ff5555");

    let t = get_theme_by_name("light");
    assert_eq!(t.name, "light");
    assert_eq!(t.foreground, "#4c4f69");

    let t = get_theme_by_name("solarized_dark");
    assert_eq!(t.name, "solarized_dark");
    assert_eq!(t.cursor, "#93a1a1");

    let t = get_theme_by_name("default");
    assert_eq!(t.name, "default");
}

#[test]
fn test_lookup_unknown_name_falls_back_to_default() {
    let t = get_theme_by_name("no-such-theme");
    assert_eq!(t.name, "default");
    assert_eq!(t.background, "#1e1e2e");
    assert_eq!(t.foreground, "#cdd6f4");

    let t = get_theme_by_name("");
    assert_eq!(t.name, "default");
}
