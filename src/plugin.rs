//! The whole plugin output: status-bar lines, the `---` separator and the
//! dropdown menu.
use vstd::prelude::*;
use vstd::string::StringExecFns;

use crate::line::{Line, line_text};
use crate::menu::{SubMenu, menu_text, render_sub_menu};

verus! {

/// StatusBar holds one or more lines shown in the status bar; the host cycles
/// through them.
pub struct StatusBar {
    pub lines: Vec<Line>,
}

/// A plugin: its status-bar lines and an optional dropdown menu.
pub struct Plugin {
    pub status_bar: StatusBar,
    pub sub_menu: Option<SubMenu>,
}

/// Each status line's rendering followed by a newline, in order.
pub open spec fn status_text(lines: Seq<Line>) -> Seq<char>
    decreases lines.len(),
{
    if lines.len() == 0 {
        Seq::empty()
    } else {
        status_text(lines.drop_last()) + line_text(lines.last()@) + "\n"@
    }
}

/// The rendering of the dropdown part: the submenu if one is set, else nothing.
pub open spec fn dropdown_text(sub_menu: Option<SubMenu>) -> Seq<char> {
    match sub_menu {
        Some(m) => menu_text(m),
        None => Seq::empty(),
    }
}

/// The full output of a plugin.
pub open spec fn plugin_text(p: Plugin) -> Seq<char> {
    status_text(p.status_bar.lines@) + "---\n"@ + dropdown_text(p.sub_menu)
}

impl StatusBar {
    /// A status bar without lines.
    pub fn new() -> (r: Self)
        ensures
            r.lines@.len() == 0,
    {
        StatusBar { lines: Vec::new() }
    }
}

impl Default for StatusBar {
    fn default() -> (r: Self)
        ensures
            r.lines@.len() == 0,
    {
        StatusBar::new()
    }
}

impl Plugin {
    /// An empty plugin: no status lines and no submenu.
    pub fn new() -> (r: Self)
        ensures
            r.status_bar.lines@.len() == 0,
            r.sub_menu.is_none(),
    {
        Plugin { status_bar: StatusBar::new(), sub_menu: None }
    }

    /// Appends a status-bar line.
    pub fn set_status_line(&mut self, line: Line) -> (r: &mut Self)
        ensures
            r.status_bar.lines@ == old(self).status_bar.lines@.push(line),
            r.sub_menu == old(self).sub_menu,
            *final(self) == *final(r),
    {
        self.status_bar.lines.push(line);
        self
    }

    /// Sets the dropdown menu, replacing any earlier one.
    pub fn set_sub_menu(&mut self, sub_menu: SubMenu) -> (r: &mut Self)
        ensures
            r.status_bar == old(self).status_bar,
            r.sub_menu == Some(sub_menu),
            *final(self) == *final(r),
    {
        self.sub_menu = Some(sub_menu);
        self
    }

    /// The full output: each status line and a newline, the `---` separator
    /// line, then the rendered submenu if one is set.
    pub fn to_string(&self) -> (r: String)
        ensures
            r@ == plugin_text(*self),
    {
        let mut output = String::new();
        let lines = &self.status_bar.lines;
        let mut i: usize = 0;
        while i < lines.len()
            invariant
                i <= lines@.len(),
                output@ == status_text(lines@.take(i as int)),
            decreases lines@.len() - i,
        {
            let text = lines[i].to_string();
            output.append(text.as_str());
            output.append("\n");
            i += 1;
            assert(lines@.take(i as int).drop_last() =~= lines@.take(i - 1));
        }
        assert(lines@.take(i as int) =~= lines@);
        output.append("---\n");
        match &self.sub_menu {
            Some(m) => {
                let text = render_sub_menu(m);
                output.append(text.as_str());
            },
            None => {},
        }
        output
    }
}

impl Default for Plugin {
    fn default() -> (r: Self)
        ensures
            r.status_bar.lines@.len() == 0,
            r.sub_menu.is_none(),
    {
        Plugin::new()
    }
}

/// A plugin's output is its status lines, then exactly one `---` separator
/// line, then the dropdown; without a submenu nothing follows the separator,
/// and setting one adds its rendering after the same separator.
pub proof fn lemma_single_separator(p: Plugin)
    ensures
        plugin_text(p) == status_text(p.status_bar.lines@) + "---\n"@ + dropdown_text(p.sub_menu),
        p.sub_menu.is_none() ==> plugin_text(p) == status_text(p.status_bar.lines@) + "---\n"@,
        p.sub_menu.is_some() ==> plugin_text(p) == plugin_text(Plugin { sub_menu: None, ..p })
            + menu_text(p.sub_menu->Some_0),
{
    let base = status_text(p.status_bar.lines@) + "---\n"@;
    assert(base + Seq::<char>::empty() =~= base);
}

} // verus!
