//! The theme table: a fixed, process-wide registry of named palettes.

use vstd::prelude::*;

verus! {

/// A named palette: background, foreground and cursor colors plus the sixteen
/// ANSI slot colors (eight standard and their bright variants), each written
/// as a hex string.
pub struct Theme {
    pub name: String,
    pub background: String,
    pub foreground: String,
    pub cursor: String,
    pub palette: Vec<String>,
}

/// A well-formed theme carries one color per ANSI palette slot.
pub open spec fn theme_wf(t: Theme) -> bool {
    t.palette@.len() == 16
}

/// The registered colors of the "default" theme.
pub open spec fn default_theme_ok(t: Theme) -> bool {
    &&& t.name@ == "default"@
    &&& t.background@ == "#1e1e2e"@
    &&& t.foreground@ == "#cdd6f4"@
    &&& t.cursor@ == "#f5e0dc"@
    &&& t.palette@.len() == 16
    &&& t.palette@[0]@ == "#45475a"@
    &&& t.palette@[1]@ == "#f38ba8"@
    &&& t.palette@[2]@ == "#a6e3a1"@
    &&& t.palette@[3]@ == "#f9e2af"@
    &&& t.palette@[4]@ == "#89b4fa"@
    &&& t.palette@[5]@ == "#f5c2e7"@
    &&& t.palette@[6]@ == "#94e2d5"@
    &&& t.palette@[7]@ == "#bac2de"@
    &&& t.palette@[8]@ == "#585b70"@
    &&& t.palette@[9]@ == "#f38ba8"@
    &&& t.palette@[10]@ == "#a6e3a1"@
    &&& t.palette@[11]@ == "#f9e2af"@
    &&& t.palette@[12]@ == "#89b4fa"@
    &&& t.palette@[13]@ == "#f5c2e7"@
    &&& t.palette@[14]@ == "#94e2d5"@
    &&& t.palette@[15]@ == "#a6adc8"@
}

/// The registered colors of the "light" theme.
pub open spec fn light_theme_ok(t: Theme) -> bool {
    &&& t.name@ == "light"@
    &&& t.background@ == "#eff1f5"@
    &&& t.foreground@ == "#4c4f69"@
    &&& t.cursor@ == "#dc8a78"@
    &&& t.palette@.len() == 16
    &&& t.palette@[0]@ == "#5c5f77"@
    &&& t.palette@[1]@ == "#d20f39"@
    &&& t.palette@[2]@ == "#40a02b"@
    &&& t.palette@[3]@ == "#df8e1d"@
    &&& t.palette@[4]@ == "#1e66f5"@
    &&& t.palette@[5]@ == "#ea76cb"@
    &&& t.palette@[6]@ == "#179299"@
    &&& t.palette@[7]@ == "#acb0be"@
    &&& t.palette@[8]@ == "#6c6f85"@
    &&& t.palette@[9]@ == "#d20f39"@
    &&& t.palette@[10]@ == "#40a02b"@
    &&& t.palette@[11]@ == "#df8e1d"@
    &&& t.palette@[12]@ == "#1e66f5"@
    &&& t.palette@[13]@ == "#ea76cb"@
    &&& t.palette@[14]@ == "#179299"@
    &&& t.palette@[15]@ == "#bcc0cc"@
}

/// The registered colors of the "solarized_dark" theme.
pub open spec fn solarized_dark_theme_ok(t: Theme) -> bool {
    &&& t.name@ == "solarized_dark"@
    &&& t.background@ == "#002b36"@
    &&& t.foreground@ == "#839496"@
    &&& t.cursor@ == "#93a1a1"@
    &&& t.palette@.len() == 16
    &&& t.palette@[0]@ == "#073642"@
    &&& t.palette@[1]@ == "#dc322f"@
    &&& t.palette@[2]@ == "#859900"@
    &&& t.palette@[3]@ == "#b58900"@
    &&& t.palette@[4]@ == "#268bd2"@
    &&& t.palette@[5]@ == "#d33682"@
    &&& t.palette@[6]@ == "#2aa198"@
    &&& t.palette@[7]@ == "#eee8d5"@
    &&& t.palette@[8]@ == "#002b36"@
    &&& t.palette@[9]@ == "#cb4b16"@
    &&& t.palette@[10]@ == "#586e75"@
    &&& t.palette@[11]@ == "#657b83"@
    &&& t.palette@[12]@ == "#839496"@
    &&& t.palette@[13]@ == "#6c71c4"@
    &&& t.palette@[14]@ == "#93a1a1"@
    &&& t.palette@[15]@ == "#fdf6e3"@
}

/// The registered colors of the "dracula" theme.
pub open spec fn dracula_theme_ok(t: Theme) -> bool {
    &&& t.name@ == "dracula"@
    &&& t.background@ == "#282a36"@
    &&& t.foreground@ == "#f8f8f2"@
    &&& t.cursor@ == "#f8f8f2"@
    &&& t.palette@.len() == 16
    &&& t.palette@[0]@ == "#21222c"@
    &&& t.palette@[1]@ == "#ff5555"@
    &&& t.palette@[2]@ == "#50fa7b"@
    &&& t.palette@[3]@ == "#f1fa8c"@
    &&& t.palette@[4]@ == "#bd93f9"@
    &&& t.palette@[5]@ == "#ff79c6"@
    &&& t.palette@[6]@ == "#8be9fd"@
    &&& t.palette@[7]@ == "#f8f8f2"@
    &&& t.palette@[8]@ == "#6272a4"@
    &&& t.palette@[9]@ == "#ff6e6e"@
    &&& t.palette@[10]@ == "#69ff94"@
    &&& t.palette@[11]@ == "#ffffa5"@
    &&& t.palette@[12]@ == "#d6acff"@
    &&& t.palette@[13]@ == "#ff92df"@
    &&& t.palette@[14]@ == "#a4ffff"@
    &&& t.palette@[15]@ == "#ffffff"@
}

fn make_default_theme() -> (t: Theme)
    ensures
        default_theme_ok(t),
{
    let mut palette: Vec<String> = Vec::new();
    palette.push("#45475a".to_owned());
    palette.push("#f38ba8".to_owned());
    palette.push("#a6e3a1".to_owned());
    palette.push("#f9e2af".to_owned());
    palette.push("#89b4fa".to_owned());
    palette.push("#f5c2e7".to_owned());
    palette.push("#94e2d5".to_owned());
    palette.push("#bac2de".to_owned());
    palette.push("#585b70".to_owned());
    palette.push("#f38ba8".to_owned());
    palette.push("#a6e3a1".to_owned());
    palette.push("#f9e2af".to_owned());
    palette.push("#89b4fa".to_owned());
    palette.push("#f5c2e7".to_owned());
    palette.push("#94e2d5".to_owned());
    palette.push("#a6adc8".to_owned());
    Theme {
        name: "default".to_owned(),
        background: "#1e1e2e".to_owned(),
        foreground: "#cdd6f4".to_owned(),
        cursor: "#f5e0dc".to_owned(),
        palette,
    }
}

fn make_light_theme() -> (t: Theme)
    ensures
        light_theme_ok(t),
{
    let mut palette: Vec<String> = Vec::new();
    palette.push("#5c5f77".to_owned());
    palette.push("#d20f39".to_owned());
    palette.push("#40a02b".to_owned());
    palette.push("#df8e1d".to_owned());
    palette.push("#1e66f5".to_owned());
    palette.push("#ea76cb".to_owned());
    palette.push("#179299".to_owned());
    palette.push("#acb0be".to_owned());
    palette.push("#6c6f85".to_owned());
    palette.push("#d20f39".to_owned());
    palette.push("#40a02b".to_owned());
    palette.push("#df8e1d".to_owned());
    palette.push("#1e66f5".to_owned());
    palette.push("#ea76cb".to_owned());
    palette.push("#179299".to_owned());
    palette.push("#bcc0cc".to_owned());
    Theme {
        name: "light".to_owned(),
        background: "#eff1f5".to_owned(),
        foreground: "#4c4f69".to_owned(),
        cursor: "#dc8a78".to_owned(),
        palette,
    }
}

fn make_solarized_dark_theme() -> (t: Theme)
    ensures
        solarized_dark_theme_ok(t),
{
    let mut palette: Vec<String> = Vec::new();
    palette.push("#073642".to_owned());
    palette.push("#dc322f".to_owned());
    palette.push("#859900".to_owned());
    palette.push("#b58900".to_owned());
    palette.push("#268bd2".to_owned());
    palette.push("#d33682".to_owned());
    palette.push("#2aa198".to_owned());
    palette.push("#eee8d5".to_owned());
    palette.push("#002b36".to_owned());
    palette.push("#cb4b16".to_owned());
    palette.push("#586e75".to_owned());
    palette.push("#657b83".to_owned());
    palette.push("#839496".to_owned());
    palette.push("#6c71c4".to_owned());
    palette.push("#93a1a1".to_owned());
    palette.push("#fdf6e3".to_owned());
    Theme {
        name: "solarized_dark".to_owned(),
        background: "#002b36".to_owned(),
        foreground: "#839496".to_owned(),
        cursor: "#93a1a1".to_owned(),
        palette,
    }
}

fn make_dracula_theme() -> (t: Theme)
    ensures
        dracula_theme_ok(t),
{
    let mut palette: Vec<String> = Vec::new();
    palette.push("#21222c".to_owned());
    palette.push("#ff5555".to_owned());
    palette.push("#50fa7b".to_owned());
    palette.push("#f1fa8c".to_owned());
    palette.push("#bd93f9".to_owned());
    palette.push("#ff79c6".to_owned());
    palette.push("#8be9fd".to_owned());
    palette.push("#f8f8f2".to_owned());
    palette.push("#6272a4".to_owned());
    palette.push("#ff6e6e".to_owned());
    palette.push("#69ff94".to_owned());
    palette.push("#ffffa5".to_owned());
    palette.push("#d6acff".to_owned());
    palette.push("#ff92df".to_owned());
    palette.push("#a4ffff".to_owned());
    palette.push("#ffffff".to_owned());
    Theme {
        name: "dracula".to_owned(),
        background: "#282a36".to_owned(),
        foreground: "#f8f8f2".to_owned(),
        cursor: "#f8f8f2".to_owned(),
        palette,
    }
}

/// The fixed table of registered themes, in registry order; the first entry
/// is the default theme.
pub fn get_themes() -> (r: Vec<Theme>)
    ensures
        r@.len() == 4,
        default_theme_ok(r@[0]),
        light_theme_ok(r@[1]),
        solarized_dark_theme_ok(r@[2]),
        dracula_theme_ok(r@[3]),
{
    let mut themes: Vec<Theme> = Vec::new();
    themes.push(make_default_theme());
    themes.push(make_light_theme());
    themes.push(make_solarized_dark_theme());
    themes.push(make_dracula_theme());
    themes
}

/// The theme the registry hands out for a requested name: the registered
/// theme of that name, or the default theme for any unregistered name.
pub open spec fn theme_for_name(n: Seq<char>, t: Theme) -> bool {
    if n == "light"@ {
        light_theme_ok(t)
    } else if n == "solarized_dark"@ {
        solarized_dark_theme_ok(t)
    } else if n == "dracula"@ {
        dracula_theme_ok(t)
    } else {
        default_theme_ok(t)
    }
}

/// Looks a theme up by name, falling back to the default theme when the name
/// is not registered.
pub fn get_theme_by_name(name: &str) -> (t: Theme)
    ensures
        theme_for_name(name@, t),
{
    let mut themes = get_themes();
    let key = name.to_owned();
    if themes[1].name == key {
        themes.remove(1)
    } else if themes[2].name == key {
        themes.remove(2)
    } else if themes[3].name == key {
        themes.remove(3)
    } else {
        themes.remove(0)
    }
}

} // verus!
