use cargo_debian::filters::deb_description;
use cargo_debian::filters::strip_newlines;

#[test]
fn description_paragraphs() {
    assert_eq!(deb_description("Hello\n\nWorld"), " Hello\n .\n World");
}

#[test]
fn description_only_blank_lines() {
    assert_eq!(deb_description("\n"), " .");
    assert_eq!(deb_description("\n\n\n"), " .\n .\n .");
    assert_eq!(deb_description("  \n\t\n"), " .\n .");
}

#[test]
fn description_trims_trailing_white_space() {
    assert_eq!(deb_description("A tool.   \nMore text\t\r\n"), " A tool.\n More text");
}

#[test]
fn description_empty() {
    assert_eq!(deb_description(""), "");
}

#[test]
fn description_keeps_leading_space() {
    assert_eq!(deb_description("  indented\nplain"), "   indented\n plain");
}

#[test]
fn strip_newlines_joins_lines() {
    assert_eq!(strip_newlines("a\nb\nc"), "a b c");
}

#[test]
fn strip_newlines_single_line_unchanged() {
    assert_eq!(strip_newlines("just one line"), "just one line");
    assert_eq!(strip_newlines(""), "");
}

#[test]
fn strip_newlines_trailing_newline() {
    assert_eq!(strip_newlines("a\n"), "a ");
}
