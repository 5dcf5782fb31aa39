use rust_bitbar::{render_command_options, render_misc_options, render_style_options, render_sub_menu};
use rust_bitbar::{Cmd, Line, Plugin, Style, SubMenu};

#[test]
fn test_render_command_options() {
    let mut line = Line::new("here is a test".to_string());
    line.set_bash("echo test".to_string())
        .set_params(vec!["params1".to_string(), "params2".to_string()])
        .set_refresh(true);
    let resp = render_command_options(&line);

    assert_eq!(resp[0], r#"bash="echo test""#.to_string());
    assert_eq!(resp[1], r#"param0=params1"#.to_string());
    assert_eq!(resp[2], r#"param1=params2"#.to_string());
    assert_eq!(resp[3], "refresh=true".to_string());
}

#[test]
fn test_line_to_string() {
    let mut line = Line::new("here is a test".to_string());
    line.set_bash("echo test".to_string())
        .set_color("red".to_string())
        .set_params(vec!["params1".to_string(), "params2".to_string()])
        .set_refresh(true);
    let resp = line.to_string();

    assert_eq!(resp, r#"here is a test | color="red" bash="echo test" param0=params1 param1=params2 refresh=true"#.to_string());
}

#[test]
fn plain_line_renders_its_text_only() {
    let line = Line::new("just text".to_string());
    assert_eq!(line.to_string(), "just text");
    let empty = Line::new(String::new());
    assert_eq!(empty.to_string(), "");
}

#[test]
fn color_and_href_scenario() {
    let mut line = Line::new("first line".to_string());
    line.set_color("red".to_string()).set_href("http://google.com".to_string());
    assert_eq!(line.to_string(), r#"first line | color="red" href='http://google.com'"#);
}

#[test]
fn command_block_scenario() {
    let mut line = Line::new("x".to_string());
    line.set_bash("echo test".to_string())
        .set_params(vec!["params1".to_string(), "params2".to_string()])
        .set_refresh(true);
    assert_eq!(
        render_command_options(&line).join(" "),
        r#"bash="echo test" param0=params1 param1=params2 refresh=true"#
    );
    assert_eq!(
        line.to_string(),
        r#"x | bash="echo test" param0=params1 param1=params2 refresh=true"#
    );
}

#[test]
fn groups_render_in_fixed_order() {
    let mut line = Line::new("t".to_string());
    line.set_refresh(true)
        .set_terminal(true)
        .set_alternate(true)
        .set_drop_down(true)
        .set_href("h".to_string())
        .set_ansi(true)
        .set_emojize(true)
        .set_trim(true)
        .set_length(12)
        .set_size(7)
        .set_font("Menlo".to_string())
        .set_color("blue".to_string())
        .set_bash("b".to_string());
    assert_eq!(
        line.to_string(),
        r#"t | color="blue" font="Menlo" size=7 length=12 trim=true emojize=true ansi=true href='h' dropdown=true alternate=true bash="b" terminal=true refresh=true"#
    );
    assert_eq!(line.to_string().matches(" | ").count(), 1);
}

#[test]
fn false_flags_are_never_rendered() {
    let mut line = Line::new("t".to_string());
    line.set_trim(false).set_emojize(false).set_ansi(false).set_drop_down(false);
    line.set_alternate(false).set_terminal(false).set_refresh(false);
    assert_eq!(line.to_string(), "t");
    line.set_trim(true);
    assert_eq!(line.to_string(), "t | trim=true");
    assert!(!line.to_string().contains("=false"));
}

#[test]
fn sizes_render_only_when_positive() {
    let mut line = Line::new("t".to_string());
    line.set_size(0).set_length(-3);
    assert_eq!(line.to_string(), "t");
    assert!(render_style_options(&line).is_empty());
    line.set_size(1).set_length(120);
    assert_eq!(render_style_options(&line), vec!["size=1".to_string(), "length=120".to_string()]);
    line.set_size(i64::MAX);
    assert_eq!(render_style_options(&line)[0], "size=9223372036854775807");
}

#[test]
fn params_are_numbered_from_zero_in_order() {
    let params: Vec<String> = (0..12).map(|i| format!("v{}", i)).collect();
    let mut line = Line::new("t".to_string());
    line.set_params(params).set_terminal(true);
    let toks = render_command_options(&line);
    assert_eq!(toks.len(), 13);
    for i in 0..12 {
        assert_eq!(toks[i], format!("param{}=v{}", i, i));
    }
    assert_eq!(toks[12], "terminal=true");
}

#[test]
fn misc_options_use_single_quotes_and_plain_flags() {
    let mut line = Line::new("t".to_string());
    line.set_href("a b".to_string()).set_drop_down(true).set_alternate(true);
    assert_eq!(
        render_misc_options(&line),
        vec!["href='a b'".to_string(), "dropdown=true".to_string(), "alternate=true".to_string()]
    );
}

#[test]
fn style_and_command_set_all_fields() {
    let mut style = Style::new();
    style.color = "red".to_string();
    style.size = 3;
    style.ansi = true;
    let cmd = Cmd { bash: "run".to_string(), params: vec!["a".to_string()], terminal: true, refresh: false };
    let mut line = Line::new("t".to_string());
    line.set_style(style).set_command(cmd).set_text("u".to_string());
    assert_eq!(line.to_string(), r#"u | color="red" size=3 ansi=true bash="run" param0=a terminal=true"#);
    let empty = Style::default();
    line.set_style(empty).set_command(Cmd::default());
    assert_eq!(line.to_string(), "u");
}

#[test]
fn submenu_levels_prefix_lines() {
    let mut inner = SubMenu::new();
    inner.level = 2;
    inner.add_line(Line::new("deep".to_string())).add_hr();
    let mut mid = SubMenu::new();
    mid.level = 1;
    let mut colored = Line::new("mid".to_string());
    colored.set_color("red".to_string());
    mid.add_line(colored).add_hr().add_sub_menu(inner);
    let mut root = SubMenu::new();
    root.add_line(Line::new("top".to_string())).add_hr().add_sub_menu(mid);
    assert_eq!(
        render_sub_menu(&root),
        "top\n---\n-- mid | color=\"red\"\n-----\n---- deep\n-------\n"
    );
}

#[test]
fn nested_submenu_keeps_its_own_level() {
    let mut inner = SubMenu::new();
    inner.add_line(Line::new("child".to_string()));
    let mut root = SubMenu::new();
    root.level = 3;
    root.add_line(Line::new("a".to_string())).add_sub_menu(inner);
    assert_eq!(render_sub_menu(&root), "------ a\nchild\n");
}

#[test]
fn plugin_scenario() {
    let mut pl = Plugin::new();
    let mut line = Line::new("first line".to_string());
    line.set_color("red".to_string()).set_href("http://google.com".to_string());
    let mut sub_menu = SubMenu::new();
    sub_menu.add_line(line);
    let status_line = Line::new("🍺🍺🍺".to_string());
    pl.set_status_line(status_line).set_sub_menu(sub_menu);
    assert_eq!(
        pl.to_string(),
        "🍺🍺🍺\n---\nfirst line | color=\"red\" href='http://google.com'\n"
    );
}

#[test]
fn empty_plugin_renders_separator_only() {
    assert_eq!(Plugin::new().to_string(), "---\n");
    assert_eq!(Plugin::default().to_string(), "---\n");
}

#[test]
fn plugin_has_one_separator_with_or_without_menu() {
    let mut pl = Plugin::new();
    pl.set_status_line(Line::new("a".to_string())).set_status_line(Line::new("b".to_string()));
    assert_eq!(pl.to_string(), "a\nb\n---\n");
    pl.set_sub_menu(SubMenu::new());
    assert_eq!(pl.to_string(), "a\nb\n---\n");
    let mut m = SubMenu::new();
    m.add_line(Line::new("x".to_string()));
    pl.set_sub_menu(m);
    assert_eq!(pl.to_string(), "a\nb\n---\nx\n");
    assert_eq!(pl.to_string().lines().filter(|l| *l == "---").count(), 1);
}
