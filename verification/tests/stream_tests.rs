use chinstrap::config::Config;
use chinstrap::stream::FileStream;

#[test]
fn write_line_uses_four_spaces_per_block() {
    let mut s = FileStream::new();
    s.write_line("zero");
    s.push_indent();
    s.write_line("one");
    s.push_indent();
    s.write_line("two");
    s.pull_indent();
    s.write_line("one again");
    s.pull_indent();
    s.write_line("zero again");
    let expected: Vec<String> = vec![
        "zero",
        "    one",
        "        two",
        "    one again",
        "zero again",
    ]
    .into_iter()
    .map(String::from)
    .collect();
    assert_eq!(s.lines, expected);
    assert_eq!(s.indent, 0);
}

#[test]
fn base_declaration_opens_a_block() {
    let mut s = FileStream::new();
    s.base_declaration("Header");
    s.write_line("inside");
    s.close_bracket();
    let expected: Vec<String> = vec!["Header", "{", "    inside", "}"]
        .into_iter()
        .map(String::from)
        .collect();
    assert_eq!(s.lines, expected);
    assert_eq!(s.indent, 0);
}

#[test]
fn nested_blocks_indent_each_level() {
    let mut s = FileStream::new();
    s.base_declaration("outer");
    s.base_declaration("inner");
    s.write_line("deep");
    s.close_bracket();
    s.close_bracket();
    let expected: Vec<String> = vec![
        "outer",
        "{",
        "    inner",
        "    {",
        "        deep",
        "    }",
        "}",
    ]
    .into_iter()
    .map(String::from)
    .collect();
    assert_eq!(s.lines, expected);
    assert_eq!(s.indent, 0);
}

#[test]
fn empty_line_keeps_the_indent_prefix() {
    let mut s = FileStream::new();
    s.push_indent();
    s.empty_line();
    assert_eq!(s.lines, vec!["    ".to_string()]);
}

#[test]
fn append_indented_prefixes_every_spliced_line() {
    let mut body = FileStream::new();
    body.write_line("first");
    body.push_indent();
    body.write_line("second");
    body.pull_indent();

    let mut s = FileStream::new();
    s.push_indent();
    s.push_indent();
    s.append_indented(&body);
    let expected: Vec<String> = vec!["        first", "            second"]
        .into_iter()
        .map(String::from)
        .collect();
    assert_eq!(s.lines, expected);
}

#[test]
fn render_terminates_every_line() {
    let mut s = FileStream::new();
    s.write_line("a");
    s.push_indent();
    s.write_line("b");
    assert_eq!(s.render(), "a\n    b\n");
}

#[test]
fn render_of_a_fresh_stream_is_empty() {
    let s = FileStream::new();
    assert_eq!(s.render(), "");
}

#[test]
fn empty_config_has_all_defaults() {
    let c = Config::empty();
    assert_eq!(c.file_name, "");
    assert_eq!(c.file_stem, "");
    assert!(!c.is_open_gl);
    assert!(!c.is_loud);
    assert!(c.other_flags.is_empty());
}
