//! A single menu line: its text, its style, link and command attributes,
//! and the rendering of those attributes into `key=value` tokens.
use vstd::prelude::*;
use vstd::string::StringExecFns;

use crate::decimal::{decimal, push_decimal};

verus! {

/// Line holds the content, styling and behaviour of a line in a menu,
/// both in the status bar and in submenus.
#[derive(Debug, Clone)]
pub struct Line {
    text: String,
    href: String,
    color: String,
    font: String,
    size: i64,
    terminal: bool,
    refresh: bool,
    drop_down: bool,
    length: i64,
    trim: bool,
    alternate: bool,
    emojize: bool,
    ansi: bool,
    bash: String,
    params: Vec<String>,
    #[allow(dead_code)]
    template_image: String,
    #[allow(dead_code)]
    image: String,
    hr: bool,
}

/// The abstract value of a `Line`.
pub struct LineView {
    pub text: Seq<char>,
    pub href: Seq<char>,
    pub color: Seq<char>,
    pub font: Seq<char>,
    pub size: i64,
    pub terminal: bool,
    pub refresh: bool,
    pub drop_down: bool,
    pub length: i64,
    pub trim: bool,
    pub alternate: bool,
    pub emojize: bool,
    pub ansi: bool,
    pub bash: Seq<char>,
    pub params: Seq<Seq<char>>,
    pub template_image: Seq<char>,
    pub image: Seq<char>,
    pub hr: bool,
}

/// The texts of a sequence of strings.
pub open spec fn texts(v: Seq<String>) -> Seq<Seq<char>> {
    v.map_values(|s: String| s@)
}

impl View for Line {
    type V = LineView;

    closed spec fn view(&self) -> LineView {
        LineView {
            text: self.text@,
            href: self.href@,
            color: self.color@,
            font: self.font@,
            size: self.size,
            terminal: self.terminal,
            refresh: self.refresh,
            drop_down: self.drop_down,
            length: self.length,
            trim: self.trim,
            alternate: self.alternate,
            emojize: self.emojize,
            ansi: self.ansi,
            bash: self.bash@,
            params: texts(self.params@),
            template_image: self.template_image@,
            image: self.image@,
            hr: self.hr,
        }
    }
}

/// A line with the given text and every attribute unset.
pub open spec fn plain_line(text: Seq<char>) -> LineView {
    LineView {
        text,
        href: Seq::empty(),
        color: Seq::empty(),
        font: Seq::empty(),
        size: 0,
        terminal: false,
        refresh: false,
        drop_down: false,
        length: 0,
        trim: false,
        alternate: false,
        emojize: false,
        ansi: false,
        bash: Seq::empty(),
        params: Seq::empty(),
        template_image: Seq::empty(),
        image: Seq::empty(),
        hr: false,
    }
}

/// Style wraps options related to text presentation which can be added to a line.
#[derive(Debug)]
pub struct Style {
    pub color: String,
    pub font: String,
    pub size: i64,
    pub length: i64,
    pub trim: bool,
    pub emojize: bool,
    pub ansi: bool,
}

/// Cmd wraps options related to the command run when a line is clicked.
#[derive(Debug)]
pub struct Cmd {
    pub bash: String,
    pub params: Vec<String>,
    pub terminal: bool,
    pub refresh: bool,
}

impl Style {
    /// An empty style: no color, no font, no size or length, every flag off.
    pub fn new() -> (r: Self)
        ensures
            r.color@.len() == 0,
            r.font@.len() == 0,
            r.size == 0,
            r.length == 0,
            !r.trim,
            !r.emojize,
            !r.ansi,
    {
        Style {
            color: String::new(),
            font: String::new(),
            size: 0,
            length: 0,
            trim: false,
            emojize: false,
            ansi: false,
        }
    }
}

impl Default for Style {
    fn default() -> (r: Self)
        ensures
            r.color@.len() == 0,
            r.font@.len() == 0,
            r.size == 0,
            r.length == 0,
            !r.trim,
            !r.emojize,
            !r.ansi,
    {
        Style::new()
    }
}

impl Default for Cmd {
    fn default() -> (r: Self)
        ensures
            r.bash@.len() == 0,
            r.params@.len() == 0,
            !r.terminal,
            !r.refresh,
    {
        Cmd { bash: String::new(), params: Vec::new(), terminal: false, refresh: false }
    }
}

impl Default for Line {
    fn default() -> (r: Self)
        ensures
            r@ == plain_line(Seq::empty()),
    {
        let r = Line::new(String::new());
        r
    }
}

impl Line {
    /// A line showing `text`, with every attribute unset.
    pub fn new(text: String) -> (r: Self)
        ensures
            r@ == plain_line(text@),
    {
        let r = Line {
            text,
            href: String::new(),
            color: String::new(),
            font: String::new(),
            size: 0,
            terminal: false,
            refresh: false,
            drop_down: false,
            length: 0,
            trim: false,
            alternate: false,
            emojize: false,
            ansi: false,
            bash: String::new(),
            params: Vec::new(),
            template_image: String::new(),
            image: String::new(),
            hr: false,
        };
        assert(r@.params =~= Seq::<Seq<char>>::empty());
        r
    }

    /// A horizontal rule: the fixed text `---`, marked as a rule.
    pub(crate) fn new_hr() -> (r: Self)
        ensures
            r@ == (LineView { hr: true, ..plain_line("---"@) }),
    {
        let mut r = Line::new(String::from_str("---"));
        r.hr = true;
        r
    }

    /// Changes the text of the line.
    pub fn set_text(&mut self, text: String) -> (r: &mut Self)
        ensures
            r@ == (LineView { text: text@, ..old(self)@ }),
            *final(self) == *final(r),
    {
        self.text = text;
        self
    }

    /// Sets every text-presentation option at once from a `Style`.
    pub fn set_style(&mut self, style: Style) -> (r: &mut Self)
        ensures
            r@ == (LineView {
                color: style.color@,
                font: style.font@,
                size: style.size,
                length: style.length,
                trim: style.trim,
                emojize: style.emojize,
                ansi: style.ansi,
                ..old(self)@
            }),
            *final(self) == *final(r),
    {
        self.color = style.color;
        self.font = style.font;
        self.size = style.size;
        self.length = style.length;
        self.trim = style.trim;
        self.emojize = style.emojize;
        self.ansi = style.ansi;
        self
    }

    /// Sets the script, its parameters and the related flags at once from a `Cmd`.
    pub fn set_command(&mut self, cmd: Cmd) -> (r: &mut Self)
        ensures
            r@ == (LineView {
                bash: cmd.bash@,
                params: texts(cmd.params@),
                terminal: cmd.terminal,
                refresh: cmd.refresh,
                ..old(self)@
            }),
            *final(self) == *final(r),
    {
        self.bash = cmd.bash;
        self.params = cmd.params;
        self.terminal = cmd.terminal;
        self.refresh = cmd.refresh;
        self
    }

    /// Adds a URL to the line, which makes it clickable.
    pub fn set_href(&mut self, href: String) -> (r: &mut Self)
        ensures
            r@ == (LineView { href: href@, ..old(self)@ }),
            *final(self) == *final(r),
    {
        self.href = href;
        self
    }

    /// Sets the font color, a name or a hex value.
    pub fn set_color(&mut self, color: String) -> (r: &mut Self)
        ensures
            r@ == (LineView { color: color@, ..old(self)@ }),
            *final(self) == *final(r),
    {
        self.color = color;
        self
    }

    /// Sets the font.
    pub fn set_font(&mut self, font: String) -> (r: &mut Self)
        ensures
            r@ == (LineView { font: font@, ..old(self)@ }),
            *final(self) == *final(r),
    {
        self.font = font;
        self
    }

    /// Sets the font size.
    pub fn set_size(&mut self, size: i64) -> (r: &mut Self)
        ensures
            r@ == (LineView { size, ..old(self)@ }),
            *final(self) == *final(r),
    {
        self.size = size;
        self
    }

    /// Sets the script run when the line is clicked.
    pub fn set_bash(&mut self, bash: String) -> (r: &mut Self)
        ensures
            r@ == (LineView { bash: bash@, ..old(self)@ }),
            *final(self) == *final(r),
    {
        self.bash = bash;
        self
    }

    /// Sets the arguments passed to the script.
    pub fn set_params(&mut self, params: Vec<String>) -> (r: &mut Self)
        ensures
            r@ == (LineView { params: texts(params@), ..old(self)@ }),
            *final(self) == *final(r),
    {
        self.params = params;
        self
    }

    /// Sets whether a terminal is opened when the script runs.
    pub fn set_terminal(&mut self, terminal: bool) -> (r: &mut Self)
        ensures
            r@ == (LineView { terminal, ..old(self)@ }),
            *final(self) == *final(r),
    {
        self.terminal = terminal;
        self
    }

    /// Sets whether clicking the line refreshes the plugin (after the script,
    /// if there is one).
    pub fn set_refresh(&mut self, refresh: bool) -> (r: &mut Self)
        ensures
            r@ == (LineView { refresh, ..old(self)@ }),
            *final(self) == *final(r),
    {
        self.refresh = refresh;
        self
    }

    /// Sets whether the line only appears in the status bar and not in the dropdown.
    pub fn set_drop_down(&mut self, drop_down: bool) -> (r: &mut Self)
        ensures
            r@ == (LineView { drop_down, ..old(self)@ }),
            *final(self) == *final(r),
    {
        self.drop_down = drop_down;
        self
    }

    /// Sets the number of characters after which the line is truncated.
    pub fn set_length(&mut self, length: i64) -> (r: &mut Self)
        ensures
            r@ == (LineView { length, ..old(self)@ }),
            *final(self) == *final(r),
    {
        self.length = length;
        self
    }

    /// Sets whether leading and trailing whitespace is trimmed from the text.
    pub fn set_trim(&mut self, trim: bool) -> (r: &mut Self)
        ensures
            r@ == (LineView { trim, ..old(self)@ }),
            *final(self) == *final(r),
    {
        self.trim = trim;
        self
    }

    /// Marks the line as the alternate of the previous one, shown while the
    /// Option key is held.
    pub fn set_alternate(&mut self, alternate: bool) -> (r: &mut Self)
        ensures
            r@ == (LineView { alternate, ..old(self)@ }),
            *final(self) == *final(r),
    {
        self.alternate = alternate;
        self
    }

    /// Sets whether `:name:` emoji shortcodes in the text are turned into emoji.
    pub fn set_emojize(&mut self, emojize: bool) -> (r: &mut Self)
        ensures
            r@ == (LineView { emojize, ..old(self)@ }),
            *final(self) == *final(r),
    {
        self.emojize = emojize;
        self
    }

    /// Sets whether ANSI codes in the text are interpreted.
    pub fn set_ansi(&mut self, ansi: bool) -> (r: &mut Self)
        ensures
            r@ == (LineView { ansi, ..old(self)@ }),
            *final(self) == *final(r),
    {
        self.ansi = ansi;
        self
    }

    /// Whether the line is a horizontal rule.
    pub(crate) fn is_hr(&self) -> (r: bool)
        ensures
            r == self@.hr,
    {
        self.hr
    }
}

/// One token when `cond` holds, none otherwise.
pub open spec fn token_if(cond: bool, t: Seq<char>) -> Seq<Seq<char>> {
    if cond {
        seq![t]
    } else {
        Seq::empty()
    }
}

/// The style tokens of a line: color, font, size, length, trim, emojize, ansi.
pub open spec fn style_tokens(l: LineView) -> Seq<Seq<char>> {
    token_if(l.color.len() > 0, "color=\""@ + l.color + "\""@)
    + token_if(l.font.len() > 0, "font=\""@ + l.font + "\""@)
    + token_if(l.size > 0, "size="@ + decimal(l.size as nat))
    + token_if(l.length > 0, "length="@ + decimal(l.length as nat))
    + token_if(l.trim, "trim=true"@)
    + token_if(l.emojize, "emojize=true"@)
    + token_if(l.ansi, "ansi=true"@)
}

/// The misc tokens of a line: href, dropdown, alternate.
pub open spec fn misc_tokens(l: LineView) -> Seq<Seq<char>> {
    token_if(l.href.len() > 0, "href='"@ + l.href + "'"@)
    + token_if(l.drop_down, "dropdown=true"@)
    + token_if(l.alternate, "alternate=true"@)
}

/// The token of the parameter at index `i`.
pub open spec fn param_token(i: nat, p: Seq<char>) -> Seq<char> {
    "param"@ + decimal(i) + "="@ + p
}

/// One `param{i}=value` token for each parameter, in order.
pub open spec fn param_tokens(ps: Seq<Seq<char>>) -> Seq<Seq<char>> {
    Seq::new(ps.len(), |i: int| param_token(i as nat, ps[i]))
}

/// The command tokens of a line: bash, the parameters, terminal, refresh.
pub open spec fn command_tokens(l: LineView) -> Seq<Seq<char>> {
    token_if(l.bash.len() > 0, "bash=\""@ + l.bash + "\""@)
    + param_tokens(l.params)
    + token_if(l.terminal, "terminal=true"@)
    + token_if(l.refresh, "refresh=true"@)
}

/// Every attribute token of a line, style first, then misc, then command.
pub open spec fn attribute_tokens(l: LineView) -> Seq<Seq<char>> {
    style_tokens(l) + misc_tokens(l) + command_tokens(l)
}

/// The tokens, each preceded by one space.
pub open spec fn spaced(ts: Seq<Seq<char>>) -> Seq<char>
    decreases ts.len(),
{
    if ts.len() == 0 {
        Seq::empty()
    } else {
        spaced(ts.drop_last()) + " "@ + ts.last()
    }
}

/// The rendered text of a line: its text, then ` |` and the attribute tokens
/// if it has any.
pub open spec fn line_text(l: LineView) -> Seq<char> {
    if attribute_tokens(l).len() == 0 {
        l.text
    } else {
        l.text + " |"@ + spaced(attribute_tokens(l))
    }
}

/// `prefix` followed by `body` and `suffix`, as a new string.
fn affixed(prefix: &str, body: &str, suffix: &str) -> (r: String)
    ensures
        r@ == prefix@ + body@ + suffix@,
{
    let mut r = String::from_str(prefix);
    r.append(body);
    r.append(suffix);
    r
}

/// `prefix` followed by the decimal text of `n`.
fn numbered(prefix: &str, n: u64) -> (r: String)
    ensures
        r@ == prefix@ + decimal(n as nat),
{
    let mut r = String::from_str(prefix);
    push_decimal(&mut r, n);
    r
}

/// Renders the style options of a line, in order.
#[verifier::rlimit(40)]
pub fn render_style_options(line: &Line) -> (r: Vec<String>)
    ensures
        texts(r@) == style_tokens(line@),
{
    let mut v: Vec<String> = Vec::new();
    let ghost l = line@;
    if !line.color.as_str().is_empty() {
        v.push(affixed("color=\"", line.color.as_str(), "\""));
    }
    assert(texts(v@) =~= token_if(l.color.len() > 0, "color=\""@ + l.color + "\""@));
    let ghost t1 = texts(v@);
    if !line.font.as_str().is_empty() {
        v.push(affixed("font=\"", line.font.as_str(), "\""));
    }
    assert(texts(v@) =~= t1 + token_if(l.font.len() > 0, "font=\""@ + l.font + "\""@));
    let ghost t2 = texts(v@);
    if line.size > 0 {
        v.push(numbered("size=", line.size as u64));
    }
    assert(texts(v@) =~= t2 + token_if(l.size > 0, "size="@ + decimal(l.size as nat)));
    let ghost t3 = texts(v@);
    if line.length > 0 {
        v.push(numbered("length=", line.length as u64));
    }
    assert(texts(v@) =~= t3 + token_if(l.length > 0, "length="@ + decimal(l.length as nat)));
    let ghost t4 = texts(v@);
    if line.trim {
        v.push(String::from_str("trim=true"));
    }
    assert(texts(v@) =~= t4 + token_if(l.trim, "trim=true"@));
    let ghost t5 = texts(v@);
    if line.emojize {
        v.push(String::from_str("emojize=true"));
    }
    assert(texts(v@) =~= t5 + token_if(l.emojize, "emojize=true"@));
    let ghost t6 = texts(v@);
    if line.ansi {
        v.push(String::from_str("ansi=true"));
    }
    assert(texts(v@) =~= t6 + token_if(l.ansi, "ansi=true"@));
    v
}

/// Renders the misc options of a line, in order.
pub fn render_misc_options(line: &Line) -> (r: Vec<String>)
    ensures
        texts(r@) == misc_tokens(line@),
{
    let mut v: Vec<String> = Vec::new();
    let ghost l = line@;
    if !line.href.as_str().is_empty() {
        v.push(affixed("href='", line.href.as_str(), "'"));
    }
    assert(texts(v@) =~= token_if(l.href.len() > 0, "href='"@ + l.href + "'"@));
    let ghost t1 = texts(v@);
    if line.drop_down {
        v.push(String::from_str("dropdown=true"));
    }
    assert(texts(v@) =~= t1 + token_if(l.drop_down, "dropdown=true"@));
    let ghost t2 = texts(v@);
    if line.alternate {
        v.push(String::from_str("alternate=true"));
    }
    assert(texts(v@) =~= t2 + token_if(l.alternate, "alternate=true"@));
    v
}

/// Renders the command options of a line, in order.
pub fn render_command_options(line: &Line) -> (r: Vec<String>)
    ensures
        texts(r@) == command_tokens(line@),
{
    let mut v: Vec<String> = Vec::new();
    let ghost l = line@;
    if !line.bash.as_str().is_empty() {
        v.push(affixed("bash=\"", line.bash.as_str(), "\""));
    }
    assert(texts(v@) =~= token_if(l.bash.len() > 0, "bash=\""@ + l.bash + "\""@));
    let ghost t1 = texts(v@);
    let mut i: usize = 0;
    while i < line.params.len()
        invariant
            i <= line.params@.len(),
            l == line@,
            texts(v@) =~= t1 + param_tokens(l.params).take(i as int),
        decreases line.params@.len() - i,
    {
        let mut t = numbered("param", i as u64);
        t.append("=");
        t.append(line.params[i].as_str());
        assert(t@ == param_token(i as nat, l.params[i as int]));
        let ghost before = v@;
        v.push(t);
        assert(texts(v@) =~= texts(before).push(t@));
        i += 1;
        assert(param_tokens(l.params).take(i as int) =~= param_tokens(l.params).take(i - 1)
            .push(param_token((i - 1) as nat, l.params[i - 1])));
    }
    assert(param_tokens(l.params).take(i as int) =~= param_tokens(l.params));
    let ghost t2 = texts(v@);
    if line.terminal {
        v.push(String::from_str("terminal=true"));
    }
    assert(texts(v@) =~= t2 + token_if(l.terminal, "terminal=true"@));
    let ghost t3 = texts(v@);
    if line.refresh {
        v.push(String::from_str("refresh=true"));
    }
    assert(texts(v@) =~= t3 + token_if(l.refresh, "refresh=true"@));
    v
}

impl Line {
    /// The rendered text of the line: `text`, then ` | ` and the attribute
    /// tokens separated by spaces, if there are any.
    pub fn to_string(&self) -> (r: String)
        ensures
            r@ == line_text(self@),
    {
        let mut tokens = render_style_options(self);
        let mut misc = render_misc_options(self);
        let mut command = render_command_options(self);
        tokens.append(&mut misc);
        tokens.append(&mut command);
        assert(texts(tokens@) =~= attribute_tokens(self@));
        let mut out = self.text.clone();
        if tokens.len() > 0 {
            out.append(" |");
            let mut i: usize = 0;
            while i < tokens.len()
                invariant
                    0 < tokens@.len(),
                    i <= tokens@.len(),
                    out@ == self@.text + " |"@ + spaced(texts(tokens@).take(i as int)),
                decreases tokens@.len() - i,
            {
                out.append(" ");
                out.append(tokens[i].as_str());
                i += 1;
                assert(texts(tokens@).take(i as int).drop_last() =~= texts(tokens@).take(i - 1));
            }
            assert(texts(tokens@).take(i as int) =~= texts(tokens@));
        }
        out
    }
}

} // verus!
