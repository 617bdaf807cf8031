//! What a terminal session computes around its widget: the font description
//! string, the shell to spawn, and the tab-label text derived from the
//! terminal's window title.

use vstd::prelude::*;
use vstd::string::StrSliceExecFns;
use vstd::string::StringExecFns;

verus! {

/// The decimal digit character for a value below ten.
pub open spec fn digit_char(d: nat) -> char {
    if d == 0 {
        '0'
    } else if d == 1 {
        '1'
    } else if d == 2 {
        '2'
    } else if d == 3 {
        '3'
    } else if d == 4 {
        '4'
    } else if d == 5 {
        '5'
    } else if d == 6 {
        '6'
    } else if d == 7 {
        '7'
    } else if d == 8 {
        '8'
    } else {
        '9'
    }
}

/// The decimal digits of a number, most significant first, with no sign and
/// no leading zero (a lone zero for zero itself).
pub open spec fn spec_dec_digits(n: nat) -> Seq<char>
    decreases n,
{
    if n < 10 {
        seq![digit_char(n)]
    } else {
        spec_dec_digits(n / 10) + seq![digit_char(n % 10)]
    }
}

fn digit_str(d: u32) -> (r: &'static str)
    requires
        d < 10,
    ensures
        r@ == seq![digit_char(d as nat)],
{
    let r = match d {
        0 => "0",
        1 => "1",
        2 => "2",
        3 => "3",
        4 => "4",
        5 => "5",
        6 => "6",
        7 => "7",
        8 => "8",
        _ => "9",
    };
    proof {
        reveal_strlit("0");
        reveal_strlit("1");
        reveal_strlit("2");
        reveal_strlit("3");
        reveal_strlit("4");
        reveal_strlit("5");
        reveal_strlit("6");
        reveal_strlit("7");
        reveal_strlit("8");
        reveal_strlit("9");
        assert(r@ =~= seq![digit_char(d as nat)]);
    }
    r
}

/// Renders a number in decimal.
pub fn u32_to_string(n: u32) -> (r: String)
    ensures
        r@ == spec_dec_digits(n as nat),
    decreases n,
{
    if n < 10 {
        digit_str(n).to_owned()
    } else {
        let rest = u32_to_string(n / 10);
        rest.concat(digit_str(n % 10))
    }
}

/// The font description handed to the terminal widget: the family, a space,
/// and the size in decimal.
pub open spec fn spec_font_description(family: Seq<char>, size: u32) -> Seq<char> {
    family + " "@ + spec_dec_digits(size as nat)
}

/// Builds the font description string for a font family and size.
pub fn font_description(family: &str, size: u32) -> (r: String)
    ensures
        r@ == spec_font_description(family@, size),
{
    family.to_owned().concat(" ").concat(u32_to_string(size).as_str())
}

/// The shell to spawn: the environment's choice when one is set, a fixed
/// default path otherwise.
pub open spec fn spec_resolve_shell(env_shell: Option<Seq<char>>) -> Seq<char> {
    match env_shell {
        Option::Some(s) => s,
        Option::None => "/bin/bash"@,
    }
}

/// Picks the shell to spawn from the value the environment reported.
pub fn resolve_shell(env_shell: Option<String>) -> (r: String)
    ensures
        r@ == spec_resolve_shell(crate::config::opt_string_view(env_shell)),
{
    match env_shell {
        Option::Some(s) => s,
        Option::None => "/bin/bash".to_owned(),
    }
}

/// A title shortened for the tab strip: longer than twenty characters keeps
/// the first seventeen plus an ellipsis marker, anything else stays whole.
pub open spec fn spec_short_title(t: Seq<char>) -> Seq<char> {
    if t.len() > 20 {
        t.subrange(0, 17) + "..."@
    } else {
        t
    }
}

/// Shortens a terminal title for display in the tab label.
pub fn shorten_title(title: &str) -> (r: String)
    ensures
        r@ == spec_short_title(title@),
{
    let len = title.unicode_len();
    if len > 20 {
        let head = title.substring_char(0, 17);
        head.to_owned().concat("...")
    } else {
        title.to_owned()
    }
}

/// The view of an optional title.
pub open spec fn opt_title_view(o: Option<&str>) -> Option<Seq<char>> {
    match o {
        Option::Some(t) => Option::Some(t@),
        Option::None => Option::None,
    }
}

/// The tab-label text for a terminal's reported window title: the shortened
/// title, or a fixed placeholder when the terminal reports none.
pub open spec fn spec_tab_title(wt: Option<Seq<char>>) -> Seq<char> {
    match wt {
        Option::Some(t) => spec_short_title(t),
        Option::None => "Terminal"@,
    }
}

/// Computes the tab-label text from the terminal's reported window title.
pub fn tab_title(window_title: Option<&str>) -> (r: String)
    ensures
        r@ == spec_tab_title(opt_title_view(window_title)),
{
    match window_title {
        Option::Some(t) => shorten_title(t),
        Option::None => "Terminal".to_owned(),
    }
}

} // verus!
