//! The window controller's decisions: the tab collection with its "at least
//! one tab" invariant, the named menu commands, and the theme change. The
//! toolkit performs the actions these functions decide on.

use vstd::prelude::*;
use vstd::string::StringExecFns;
use crate::config::Config;
use crate::session::opt_title_view;
use crate::session::spec_tab_title;
use crate::session::tab_title;
use crate::theme::Theme;
use crate::theme::get_theme_by_name;
use crate::theme::theme_for_name;

verus! {

/// One open tab. The id stands for the tab's identity: the handle that close
/// and title callbacks hold weakly, resolved by lookup when they fire.
pub struct TabState {
    pub id: usize,
    pub title: String,
}

/// The in-memory state a window controller owns: the shared settings, the tab
/// collection in visual order, the active tab, and whether the window is
/// still open.
pub struct WindowState {
    pub config: Config,
    pub tabs: Vec<TabState>,
    pub active: usize,
    pub next_id: usize,
    pub open: bool,
}

/// The menu commands a window exposes, each with its typed payload.
pub enum Command {
    NewTab,
    CloseTab,
    SetTheme(String),
    Copy,
    Paste,
}

/// What the toolkit must do after a command was applied to the state.
pub enum UiAction {
    TabOpened(usize),
    TabClosed(usize),
    WindowClosed,
    ApplyTheme(Theme),
    CopyFrom(usize),
    PasteTo(usize),
}

/// The active tab index after the tab at `idx` left a collection of
/// `old_len` tabs.
pub open spec fn spec_active_after_close(active: int, idx: int, old_len: int) -> int {
    if active > idx {
        active - 1
    } else if active < old_len - 1 {
        active
    } else {
        old_len - 2
    }
}

impl WindowState {
    /// An open window holds at least one tab and a valid active index, and
    /// every tab id is unique and below the next id to hand out.
    pub open spec fn wf(self) -> bool {
        &&& self.open ==> self.tabs@.len() >= 1
        &&& self.open ==> (self.active as int) < self.tabs@.len()
        &&& forall|i: int|
            0 <= i < self.tabs@.len() ==> (#[trigger] self.tabs@[i].id) < self.next_id
        &&& forall|i: int, j: int|
            0 <= i < j < self.tabs@.len() ==> self.tabs@[i].id != self.tabs@[j].id
    }

    /// Opens a window: one default tab, active and focused.
    pub fn new_window(config: Config) -> (w: Self)
        ensures
            w.wf(),
            w.open,
            w.config == config,
            w.tabs@.len() == 1,
            w.tabs@[0].id == 0,
            w.tabs@[0].title@ == "Terminal"@,
            w.active == 0,
            w.next_id == 1,
    {
        let first = TabState { id: 0, title: tab_title(Option::None) };
        let mut tabs: Vec<TabState> = Vec::new();
        tabs.push(first);
        WindowState { config, tabs, active: 0, next_id: 1, open: true }
    }

    /// Opens a new tab: appended after the existing tabs, which keep their
    /// order, and made the active one.
    pub fn new_tab(&mut self)
        requires
            old(self).wf(),
            old(self).open,
            old(self).next_id < usize::MAX,
        ensures
            final(self).wf(),
            final(self).open,
            final(self).config == old(self).config,
            final(self).tabs@.len() == old(self).tabs@.len() + 1,
            forall|i: int|
                0 <= i < old(self).tabs@.len() ==> final(self).tabs@[i] == old(self).tabs@[i],
            final(self).tabs@.last().id == old(self).next_id,
            final(self).tabs@.last().title@ == "Terminal"@,
            final(self).active as int == old(self).tabs@.len(),
            final(self).next_id == old(self).next_id + 1,
    {
        let t = TabState { id: self.next_id, title: tab_title(Option::None) };
        self.tabs.push(t);
        self.active = self.tabs.len() - 1;
        self.next_id = self.next_id + 1;
    }

    /// Closes the tab at a position. The only remaining tab is never removed:
    /// the whole window closes instead and the collection stays as it is.
    /// Otherwise the tab leaves the collection and the rest keep their
    /// relative order.
    pub fn close_tab(&mut self, idx: usize) -> (window_closed: bool)
        requires
            old(self).wf(),
            old(self).open,
            (idx as int) < old(self).tabs@.len(),
        ensures
            final(self).wf(),
            final(self).config == old(self).config,
            final(self).next_id == old(self).next_id,
            window_closed <==> old(self).tabs@.len() == 1,
            old(self).tabs@.len() == 1 ==> {
                &&& !final(self).open
                &&& final(self).tabs@ == old(self).tabs@
                &&& final(self).active == old(self).active
            },
            old(self).tabs@.len() > 1 ==> {
                &&& final(self).open
                &&& final(self).tabs@ == old(self).tabs@.remove(idx as int)
                &&& final(self).active as int == spec_active_after_close(
                    old(self).active as int,
                    idx as int,
                    old(self).tabs@.len() as int,
                )
            },
    {
        if self.tabs.len() <= 1 {
            self.open = false;
            return true;
        }
        self.tabs.remove(idx);
        if self.active > idx {
            self.active = self.active - 1;
        } else if self.active >= self.tabs.len() {
            self.active = self.tabs.len() - 1;
        }
        proof {
            assert forall|a: int, b: int|
                0 <= a < b < final(self).tabs@.len() implies final(self).tabs@[a].id
                != final(self).tabs@[b].id by {
                let oa = if a < idx as int { a } else { a + 1 };
                let ob = if b < idx as int { b } else { b + 1 };
                assert(final(self).tabs@[a] == old(self).tabs@[oa]);
                assert(final(self).tabs@[b] == old(self).tabs@[ob]);
            }
        }
        false
    }

    /// Changes the theme: looks the requested name up (unregistered names
    /// resolve to the default theme), stores the requested name verbatim in
    /// the settings, and returns the theme the terminals must now show.
    pub fn set_theme(&mut self, name: &str) -> (t: Theme)
        requires
            old(self).wf(),
        ensures
            final(self).wf(),
            theme_for_name(name@, t),
            final(self).config.theme@ == name@,
            final(self).config.font_family == old(self).config.font_family,
            final(self).config.font_size == old(self).config.font_size,
            final(self).config.scrollback_lines == old(self).config.scrollback_lines,
            final(self).config.window_width == old(self).config.window_width,
            final(self).config.window_height == old(self).config.window_height,
            final(self).tabs@ == old(self).tabs@,
            final(self).active == old(self).active,
            final(self).next_id == old(self).next_id,
            final(self).open == old(self).open,
    {
        let t = get_theme_by_name(name);
        self.config.theme = name.to_owned();
        t
    }

    /// Applies one menu command and reports the action the toolkit must
    /// perform.
    pub fn apply_command(&mut self, cmd: Command) -> (a: UiAction)
        requires
            old(self).wf(),
            old(self).open,
            cmd is NewTab ==> old(self).next_id < usize::MAX,
        ensures
            final(self).wf(),
            match cmd {
                Command::NewTab => {
                    &&& a == UiAction::TabOpened(final(self).active)
                    &&& final(self).open
                    &&& final(self).tabs@.len() == old(self).tabs@.len() + 1
                    &&& forall|i: int|
                        0 <= i < old(self).tabs@.len() ==> final(self).tabs@[i] == old(
                            self,
                        ).tabs@[i]
                    &&& final(self).active as int == old(self).tabs@.len()
                    &&& final(self).config == old(self).config
                },
                Command::CloseTab => {
                    &&& old(self).tabs@.len() == 1 ==> {
                        &&& a == UiAction::WindowClosed
                        &&& !final(self).open
                        &&& final(self).tabs@ == old(self).tabs@
                    }
                    &&& old(self).tabs@.len() > 1 ==> {
                        &&& a == UiAction::TabClosed(old(self).active)
                        &&& final(self).open
                        &&& final(self).tabs@ == old(self).tabs@.remove(old(self).active as int)
                    }
                    &&& final(self).config == old(self).config
                },
                Command::SetTheme(name) => {
                    &&& a matches UiAction::ApplyTheme(t) && theme_for_name(name@, t)
                    &&& final(self).config.theme@ == name@
                    &&& final(self).tabs@ == old(self).tabs@
                    &&& final(self).active == old(self).active
                    &&& final(self).open
                },
                Command::Copy => {
                    &&& a == UiAction::CopyFrom(old(self).active)
                    &&& *final(self) == *old(self)
                },
                Command::Paste => {
                    &&& a == UiAction::PasteTo(old(self).active)
                    &&& *final(self) == *old(self)
                },
            },
    {
        match cmd {
            Command::NewTab => {
                self.new_tab();
                UiAction::TabOpened(self.active)
            },
            Command::CloseTab => {
                let at = self.active;
                let closed = self.close_tab(at);
                if closed {
                    UiAction::WindowClosed
                } else {
                    UiAction::TabClosed(at)
                }
            },
            Command::SetTheme(name) => {
                let t = self.set_theme(name.as_str());
                UiAction::ApplyTheme(t)
            },
            Command::Copy => UiAction::CopyFrom(self.active),
            Command::Paste => UiAction::PasteTo(self.active),
        }
    }

    /// Resolves a tab id to its current position, or `None` when no tab with
    /// that id remains (a stale weak handle: callers must treat it as a
    /// no-op).
    pub fn tab_index_of(&self, id: usize) -> (r: Option<usize>)
        ensures
            match r {
                Option::Some(i) => (i as int) < self.tabs@.len() && self.tabs@[i as int].id == id,
                Option::None => forall|j: int|
                    0 <= j < self.tabs@.len() ==> (#[trigger] self.tabs@[j].id) != id,
            },
    {
        let mut i: usize = 0;
        while i < self.tabs.len()
            invariant
                i <= self.tabs@.len(),
                forall|j: int| 0 <= j < i ==> (#[trigger] self.tabs@[j].id) != id,
            decreases self.tabs@.len() - i,
        {
            if self.tabs[i].id == id {
                return Option::Some(i);
            }
            i = i + 1;
        }
        Option::None
    }

    /// A terminal reported a new window title: update the label of the tab
    /// with that id, if it still exists, and say whether one did.
    pub fn update_title(&mut self, id: usize, window_title: Option<&str>) -> (found: bool)
        requires
            old(self).wf(),
        ensures
            final(self).wf(),
            final(self).config == old(self).config,
            final(self).active == old(self).active,
            final(self).next_id == old(self).next_id,
            final(self).open == old(self).open,
            final(self).tabs@.len() == old(self).tabs@.len(),
            found <==> exists|j: int|
                0 <= j < old(self).tabs@.len() && (#[trigger] old(self).tabs@[j].id) == id,
            forall|j: int|
                0 <= j < old(self).tabs@.len() && (#[trigger] old(self).tabs@[j].id) != id
                    ==> final(self).tabs@[j] == old(self).tabs@[j],
            forall|j: int|
                0 <= j < old(self).tabs@.len() && (#[trigger] old(self).tabs@[j].id) == id ==> {
                    &&& final(self).tabs@[j].id == id
                    &&& final(self).tabs@[j].title@ == spec_tab_title(opt_title_view(window_title))
                },
    {
        match self.tab_index_of(id) {
            Option::Some(i) => {
                let mut t = self.tabs.remove(i);
                t.title = tab_title(window_title);
                self.tabs.insert(i, t);
                proof {
                    assert forall|j: int|
                        0 <= j < old(self).tabs@.len() implies final(self).tabs@[j].id == old(
                        self,
                    ).tabs@[j].id && (j != i as int ==> final(self).tabs@[j] == old(
                        self,
                    ).tabs@[j]) by {
                        if j < i as int {
                        } else if j == i as int {
                        } else {
                        }
                    }
                    assert forall|j: int|
                        0 <= j < old(self).tabs@.len() && (#[trigger] old(self).tabs@[j].id) == id
                            implies j == i as int by {
                        if j != i as int {
                            assert(old(self).tabs@[j].id != old(self).tabs@[i as int].id);
                        }
                    }
                }
                true
            },
            Option::None => false,
        }
    }
}

/// The action name each command is registered under.
pub open spec fn spec_action_name(cmd: Command) -> Seq<char> {
    match cmd {
        Command::NewTab => "win.new-tab"@,
        Command::CloseTab => "win.close-tab"@,
        Command::SetTheme(_) => "win.set-theme"@,
        Command::Copy => "win.copy"@,
        Command::Paste => "win.paste"@,
    }
}

/// The action name a command is registered under.
pub fn action_name(cmd: &Command) -> (r: &'static str)
    ensures
        r@ == spec_action_name(*cmd),
{
    match cmd {
        Command::NewTab => "win.new-tab",
        Command::CloseTab => "win.close-tab",
        Command::SetTheme(_) => "win.set-theme",
        Command::Copy => "win.copy",
        Command::Paste => "win.paste",
    }
}

/// The detailed action string a theme menu entry activates: the set-theme
/// action name with the theme's name as its parameter.
pub fn set_theme_detailed_action(name: &str) -> (r: String)
    ensures
        r@ == "win.set-theme::"@ + name@,
{
    "win.set-theme::".to_owned().concat(name)
}

/// The fixed keyboard accelerator bound to a command, where one is.
pub open spec fn spec_accelerator(cmd: Command) -> Option<Seq<char>> {
    match cmd {
        Command::NewTab => Option::Some("<Ctrl><Shift>t"@),
        Command::CloseTab => Option::Some("<Ctrl><Shift>w"@),
        Command::SetTheme(_) => Option::None,
        Command::Copy => Option::Some("<Ctrl><Shift>c"@),
        Command::Paste => Option::Some("<Ctrl><Shift>v"@),
    }
}

/// The fixed keyboard accelerator bound to a command; the parameterized
/// theme command has none.
pub fn accelerator(cmd: &Command) -> (r: Option<&'static str>)
    ensures
        match r {
            Option::Some(s) => spec_accelerator(*cmd) == Option::Some(s@),
            Option::None => spec_accelerator(*cmd) is None,
        },
{
    match cmd {
        Command::NewTab => Option::Some("<Ctrl><Shift>t"),
        Command::CloseTab => Option::Some("<Ctrl><Shift>w"),
        Command::SetTheme(_) => Option::None,
        Command::Copy => Option::Some("<Ctrl><Shift>c"),
        Command::Paste => Option::Some("<Ctrl><Shift>v"),
    }
}

} // verus!
