//! Dropdown menus: ordered, nestable lists of lines and submenus, rendered
//! with `--` prefixes that show each line's depth.
use vstd::prelude::*;
use vstd::string::StringExecFns;

use crate::line::{Line, LineView, line_text, plain_line};

verus! {

/// SubMenu holds lines and nested submenus in insertion order. The level says
/// how deeply the submenu is nested, and is used while rendering to prepend
/// the matching number of `--` prefixes. It is set by the caller: nesting a
/// submenu does not change its level.
pub struct SubMenu {
    pub level: i64,
    pub lines: Vec<SubMenuItem>,
}

/// An entry of a submenu: a line or a nested submenu.
pub enum SubMenuItem {
    Line(Line),
    SubMenu(Box<SubMenu>),
}

/// `--` repeated `n` times (nothing when `n` is not positive).
pub open spec fn dashes(n: int) -> Seq<char>
    decreases n,
{
    if n <= 0 {
        Seq::empty()
    } else {
        dashes(n - 1) + "--"@
    }
}

/// The prefix of an ordinary line at `level`: the dashes and one space, or
/// nothing at the top level.
pub open spec fn line_prefix(level: i64) -> Seq<char> {
    if level > 0 {
        dashes(level as int) + " "@
    } else {
        Seq::empty()
    }
}

/// A line of a submenu at `level`, with its prefix and a newline. A
/// horizontal rule takes the prefix without its trailing space.
pub open spec fn menu_line_text(l: LineView, level: i64) -> Seq<char> {
    (if l.hr {
        dashes(level as int)
    } else {
        line_prefix(level)
    }) + line_text(l) + "\n"@
}

/// The rendering of the first `n` items of `m`; a nested submenu renders at
/// its own level.
pub open spec fn items_text(m: SubMenu, n: int) -> Seq<char>
    decreases m, n,
{
    if n <= 0 || n > m.lines@.len() {
        Seq::empty()
    } else {
        items_text(m, n - 1) + match m.lines@[n - 1] {
            SubMenuItem::Line(l) => menu_line_text(l@, m.level),
            SubMenuItem::SubMenu(c) => items_text(*c, c.lines@.len() as int),
        }
    }
}

/// The rendering of a whole submenu.
pub open spec fn menu_text(m: SubMenu) -> Seq<char> {
    items_text(m, m.lines@.len() as int)
}

impl SubMenu {
    /// An empty submenu at the top level.
    pub fn new() -> (r: Self)
        ensures
            r.level == 0,
            r.lines@.len() == 0,
    {
        SubMenu { level: 0, lines: Vec::new() }
    }

    /// Appends a line.
    pub fn add_line(&mut self, line: Line) -> (r: &mut Self)
        ensures
            r.level == old(self).level,
            r.lines@ == old(self).lines@.push(SubMenuItem::Line(line)),
            *final(self) == *final(r),
    {
        self.lines.push(SubMenuItem::Line(line));
        self
    }

    /// Appends a nested submenu, which keeps its own level.
    pub fn add_sub_menu(&mut self, sub_menu: SubMenu) -> (r: &mut Self)
        ensures
            r.level == old(self).level,
            r.lines@ == old(self).lines@.push(SubMenuItem::SubMenu(Box::new(sub_menu))),
            *final(self) == *final(r),
    {
        self.lines.push(SubMenuItem::SubMenu(Box::new(sub_menu)));
        self
    }

    /// Appends a horizontal rule: a line with the text `---` marked as a rule.
    pub fn add_hr(&mut self) -> (r: &mut Self)
        ensures
            r.level == old(self).level,
            r.lines@.len() == old(self).lines@.len() + 1,
            r.lines@.drop_last() == old(self).lines@,
            match r.lines@.last() {
                SubMenuItem::Line(l) => l@ == (LineView { hr: true, ..plain_line("---"@) }),
                SubMenuItem::SubMenu(_) => false,
            },
            *final(self) == *final(r),
    {
        let line = Line::new_hr();
        self.lines.push(SubMenuItem::Line(line));
        assert(self.lines@.drop_last() =~= old(self).lines@);
        self
    }
}

/// `--` repeated `n` times.
fn dashes_string(n: i64) -> (r: String)
    ensures
        r@ == dashes(n as int),
{
    let mut r = String::new();
    let mut i: i64 = 0;
    while i < n
        invariant
            0 <= i,
            n > 0 ==> i <= n,
            n <= 0 ==> i == 0,
            r@ == dashes(i as int),
        decreases n - i,
    {
        r.append("--");
        i += 1;
    }
    assert(dashes(n as int) == dashes(i as int));
    r
}

/// Renders a submenu and, recursively, the submenus nested in it.
pub fn render_sub_menu(sub_menu: &SubMenu) -> (r: String)
    ensures
        r@ == menu_text(*sub_menu),
    decreases sub_menu,
{
    let mut output = String::new();
    let rule = dashes_string(sub_menu.level);
    let mut prefix = String::new();
    if sub_menu.level > 0 {
        prefix = rule.clone();
        prefix.append(" ");
    }
    assert(prefix@ == line_prefix(sub_menu.level));
    let mut i: usize = 0;
    while i < sub_menu.lines.len()
        invariant
            i <= sub_menu.lines@.len(),
            rule@ == dashes(sub_menu.level as int),
            prefix@ == line_prefix(sub_menu.level),
            output@ == items_text(*sub_menu, i as int),
        decreases sub_menu.lines@.len() - i,
    {
        match &sub_menu.lines[i] {
            SubMenuItem::Line(current_line) => {
                if current_line.is_hr() {
                    output.append(rule.as_str());
                } else {
                    output.append(prefix.as_str());
                }
                let text = current_line.to_string();
                output.append(text.as_str());
                output.append("\n");
            },
            SubMenuItem::SubMenu(current_sub_menu) => {
                let text = render_sub_menu(&**current_sub_menu);
                output.append(text.as_str());
            },
        }
        i += 1;
    }
    output
}

/// `dashes(n)` is `2 * n` hyphens.
pub proof fn lemma_dashes(n: int)
    requires
        n >= 0,
    ensures
        dashes(n).len() == 2 * n,
        forall|j: int| 0 <= j < 2 * n ==> #[trigger] dashes(n)[j] == '-',
    decreases n,
{
    reveal_strlit("--");
    if n > 0 {
        lemma_dashes(n - 1);
        assert forall|j: int| 0 <= j < 2 * n implies #[trigger] dashes(n)[j] == '-' by {
            if j < 2 * (n - 1) {
                assert(dashes(n)[j] == dashes(n - 1)[j]);
            } else {
                assert(dashes(n)[j] == "--"@[j - 2 * (n - 1)]);
            }
        }
    }
}

/// In a submenu at a positive level `L`, a line item renders as `2 * L`
/// hyphens, one space unless the line is a horizontal rule, the line's own
/// rendering and a newline; the items render one after another in order.
pub proof fn lemma_line_item_prefix(m: SubMenu, i: int)
    requires
        m.level > 0,
        0 <= i < m.lines@.len(),
        m.lines@[i] is Line,
    ensures
        ({
            let l = m.lines@[i]->Line_0@;
            &&& items_text(m, i + 1) == items_text(m, i) + menu_line_text(l, m.level)
            &&& menu_line_text(l, m.level) == dashes(m.level as int) + (if l.hr {
                Seq::empty()
            } else {
                " "@
            }) + line_text(l) + "\n"@
            &&& dashes(m.level as int).len() == 2 * m.level
            &&& forall|j: int| 0 <= j < 2 * m.level ==> #[trigger] dashes(m.level as int)[j] == '-'
        }),
{
    lemma_dashes(m.level as int);
    let l = m.lines@[i]->Line_0@;
    if l.hr {
        assert(dashes(m.level as int) + Seq::<char>::empty() =~= dashes(m.level as int));
    }
}

/// At the top level (or below it) no prefix is written before a line.
pub proof fn lemma_top_level_unprefixed(l: LineView, level: i64)
    requires
        level <= 0,
    ensures
        menu_line_text(l, level) == line_text(l) + "\n"@,
{
    assert(dashes(level as int) + line_text(l) =~= line_text(l));
    assert(Seq::<char>::empty() + line_text(l) =~= line_text(l));
}

} // verus!
