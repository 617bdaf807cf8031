//! The settings record: theme name, font, scrollback and initial window size,
//! with its built-in defaults and the location of its persisted file.

use vstd::prelude::*;
use vstd::string::StringExecFns;

verus! {

/// The flat settings record. The theme name is a key into the theme table and
/// falls back to the default theme when unmatched; width and height are only
/// the initial window size.
pub struct Config {
    pub theme: String,
    pub font_family: String,
    pub font_size: u32,
    pub scrollback_lines: i64,
    pub window_width: i32,
    pub window_height: i32,
}

/// The built-in default settings, used when no stored configuration can be
/// read.
pub open spec fn is_default_config(c: Config) -> bool {
    &&& c.theme@ == "default"@
    &&& c.font_family@ == "Monospace"@
    &&& c.font_size == 12u32
    &&& c.scrollback_lines == 10000i64
    &&& c.window_width == 800i32
    &&& c.window_height == 600i32
}

impl Default for Config {
    fn default() -> (c: Self)
        ensures
            is_default_config(c),
    {
        Config {
            theme: "default".to_owned(),
            font_family: "Monospace".to_owned(),
            font_size: 12,
            scrollback_lines: 10000,
            window_width: 800,
            window_height: 600,
        }
    }
}

/// The view of an optional string.
pub open spec fn opt_string_view(base: Option<String>) -> Option<Seq<char>> {
    match base {
        Option::Some(b) => Option::Some(b@),
        Option::None => Option::None,
    }
}

/// The configuration directory under a given per-user base directory, or
/// under the current directory when the platform offers none.
pub open spec fn spec_config_dir(base: Option<Seq<char>>) -> Seq<char> {
    match base {
        Option::Some(b) => b + "/rustyterm"@,
        Option::None => "."@ + "/rustyterm"@,
    }
}

/// The configuration file path under a given per-user base directory.
pub open spec fn spec_config_file(base: Option<Seq<char>>) -> Seq<char> {
    spec_config_dir(base) + "/config.toml"@
}

/// Relies on dirs::config_dir: the per-user configuration base directory, or
/// `None` when the platform defines none (or the path is not valid text).
#[verifier::external_body]
fn user_config_base() -> (r: Option<String>) {
    dirs::config_dir().and_then(|p| p.to_str().map(|s| s.to_owned()))
}

impl Config {
    /// The configuration directory for a given per-user base directory.
    pub fn config_dir_from(base: Option<String>) -> (r: String)
        ensures
            r@ == spec_config_dir(opt_string_view(base)),
    {
        match base {
            Option::Some(b) => b.concat("/rustyterm"),
            Option::None => ".".to_owned().concat("/rustyterm"),
        }
    }

    /// The configuration file path for a given per-user base directory.
    pub fn config_file_from(base: Option<String>) -> (r: String)
        ensures
            r@ == spec_config_file(opt_string_view(base)),
    {
        Self::config_dir_from(base).concat("/config.toml")
    }

    /// This process's configuration directory, resolved from the per-user base
    /// directory the platform reports.
    pub fn config_dir() -> (r: String)
        ensures
            exists|b: Option<Seq<char>>| r@ == #[trigger] spec_config_dir(b),
    {
        let base = user_config_base();
        let ghost bv = opt_string_view(base);
        let r = Self::config_dir_from(base);
        proof {
            assert(r@ == spec_config_dir(bv));
        }
        r
    }

    /// This process's configuration file path, resolved from the per-user base
    /// directory the platform reports.
    pub fn config_file() -> (r: String)
        ensures
            exists|b: Option<Seq<char>>| r@ == #[trigger] spec_config_file(b),
    {
        let base = user_config_base();
        let ghost bv = opt_string_view(base);
        let r = Self::config_file_from(base);
        proof {
            assert(r@ == spec_config_file(bv));
        }
        r
    }
}

} // verus!
