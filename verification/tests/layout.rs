use oxc_prettier::doc::{join, Doc, Separator};
use oxc_prettier::options::PrettierOptions;
use oxc_prettier::printer::{contains_hardline, print, LayoutError};

fn t(s: &str) -> Doc {
    Doc::Str(s.to_string())
}

fn opts(width: usize) -> PrettierOptions {
    PrettierOptions::new(width, 2, true, false).unwrap()
}

fn list(open: &str, items: Vec<Doc>, close: &str) -> Doc {
    Doc::Group(vec![
        t(open),
        Doc::Indent(vec![
            Doc::Softline,
            Doc::Array(join(Separator::CommaLine, items)),
            Doc::IfBreak(Box::new(t(","))),
        ]),
        Doc::Softline,
        t(close),
    ])
}

#[test]
fn text_is_printed_as_it_is() {
    assert_eq!(print(&t("hello"), &opts(80)), Ok("hello".to_string()));
}

#[test]
fn text_longer_than_the_width_is_printed_in_full() {
    assert_eq!(print(&Doc::Group(vec![t("abcdefghij")]), &opts(4)), Ok("abcdefghij".to_string()));
}

#[test]
fn concatenation_keeps_the_order() {
    let doc = Doc::Array(vec![t("a"), t("b"), Doc::Array(vec![t("c"), t("d")]), t("e")]);
    assert_eq!(print(&doc, &opts(80)), Ok("abcde".to_string()));
}

#[test]
fn group_that_fits_is_flat() {
    let doc = Doc::Group(vec![t("a"), Doc::Line, t("b"), Doc::Softline, t("c")]);
    assert_eq!(print(&doc, &opts(80)), Ok("a bc".to_string()));
}

#[test]
fn group_that_fits_exactly_is_flat() {
    let doc = Doc::Group(vec![t("ab"), Doc::Line, t("cd")]);
    assert_eq!(print(&doc, &opts(5)), Ok("ab cd".to_string()));
    assert_eq!(print(&doc, &opts(4)), Ok("ab\ncd".to_string()));
}

#[test]
fn group_that_does_not_fit_breaks_every_optional_break() {
    let doc = Doc::Group(vec![t("aaa"), Doc::Line, t("bbb"), Doc::Softline, t("ccc")]);
    assert_eq!(print(&doc, &opts(5)), Ok("aaa\nbbb\nccc".to_string()));
}

#[test]
fn line_outside_a_group_breaks() {
    let doc = Doc::Array(vec![t("a"), Doc::Line, t("b"), Doc::Softline, t("c")]);
    assert_eq!(print(&doc, &opts(80)), Ok("a\nb\nc".to_string()));
}

#[test]
fn hardline_breaks_the_group_around_it() {
    let doc = Doc::Group(vec![t("a"), Doc::Hardline, t("b")]);
    let text = print(&doc, &opts(80)).unwrap();
    assert_eq!(text, "a\nb");
    assert_ne!(text, "a b");
    assert_ne!(text, "ab");
}

#[test]
fn hardline_breaks_every_group_around_it() {
    let inner = Doc::Group(vec![t("b"), Doc::Line, Doc::Indent(vec![Doc::Hardline, t("c")])]);
    let doc = Doc::Group(vec![t("a"), Doc::Line, inner, Doc::Line, t("d")]);
    assert_eq!(print(&doc, &opts(80)), Ok("a\nb\n\n  c\nd".to_string()));
}

#[test]
fn hardline_in_a_sibling_group_leaves_a_group_flat() {
    let first = Doc::Group(vec![t("a"), Doc::Line, t("b")]);
    let second = Doc::Group(vec![t("c"), Doc::Hardline, t("d")]);
    let doc = Doc::Array(vec![first, second]);
    assert_eq!(print(&doc, &opts(80)), Ok("a bc\nd".to_string()));
}

#[test]
fn hardline_inside_if_break_breaks_the_group() {
    let doc = Doc::Group(vec![t("a"), Doc::Line, Doc::IfBreak(Box::new(Doc::Hardline)), t("b")]);
    assert_eq!(print(&doc, &opts(80)), Ok("a\n\nb".to_string()));
}

#[test]
fn contains_hardline_looks_at_every_depth() {
    let deep = Doc::Group(vec![Doc::Indent(vec![Doc::Array(vec![t("x"), Doc::Hardline])])]);
    assert!(contains_hardline(&deep));
    assert!(contains_hardline(&Doc::IfBreak(Box::new(Doc::Hardline))));
    assert!(!contains_hardline(&Doc::Group(vec![t("x"), Doc::Line, Doc::Softline])));
    assert!(!contains_hardline(&t("\n")));
}

#[test]
fn indent_applies_to_breaks_inside_it() {
    let doc = Doc::Array(vec![
        t("{"),
        Doc::Indent(vec![Doc::Hardline, t("a"), Doc::Indent(vec![Doc::Hardline, t("b")])]),
        Doc::Hardline,
        t("}"),
    ]);
    assert_eq!(print(&doc, &opts(80)), Ok("{\n  a\n    b\n}".to_string()));
}

#[test]
fn indent_unit_is_configurable() {
    let doc = Doc::Array(vec![t("{"), Doc::Indent(vec![Doc::Hardline, t("a")]), Doc::Hardline, t("}")]);
    let four = PrettierOptions::new(80, 4, true, false).unwrap();
    assert_eq!(print(&doc, &four), Ok("{\n    a\n}".to_string()));
    let none = PrettierOptions::new(80, 0, true, false).unwrap();
    assert_eq!(print(&doc, &none), Ok("{\na\n}".to_string()));
}

#[test]
fn indent_does_not_move_the_current_line() {
    let doc = Doc::Array(vec![t("a"), Doc::Indent(vec![t("b"), Doc::Hardline, t("c")])]);
    assert_eq!(print(&doc, &opts(80)), Ok("ab\n  c".to_string()));
}

#[test]
fn if_break_is_printed_only_in_a_broken_group() {
    let doc = list("[", vec![t("1"), t("2"), t("3")], "]");
    assert_eq!(print(&doc, &opts(80)), Ok("[1, 2, 3]".to_string()));
    assert_eq!(print(&doc, &opts(5)), Ok("[\n  1,\n  2,\n  3,\n]".to_string()));
}

#[test]
fn if_break_follows_the_nearest_group() {
    let inner = Doc::Group(vec![t("x"), Doc::IfBreak(Box::new(t("!")))]);
    let doc = Doc::Group(vec![t("aaaa"), Doc::Line, t("bbbb"), Doc::Line, inner]);
    assert_eq!(print(&doc, &opts(6)), Ok("aaaa\nbbbb\nx".to_string()));
}

#[test]
fn nested_group_is_checked_at_its_own_column() {
    let inner = Doc::Group(vec![t("b"), Doc::Line, t("c")]);
    let doc = Doc::Group(vec![t("aaaaaa"), Doc::Line, inner, Doc::Line, t("dddddd")]);
    assert_eq!(print(&doc, &opts(8)), Ok("aaaaaa\nb c\ndddddd".to_string()));
}

#[test]
fn what_follows_on_the_line_counts_for_the_check() {
    let group = Doc::Group(vec![t("a"), Doc::Line, t("b")]);
    let doc = Doc::Array(vec![group, t("cccc")]);
    assert_eq!(print(&doc, &opts(7)), Ok("a bcccc".to_string()));
    assert_eq!(print(&doc, &opts(6)), Ok("a\nbcccc".to_string()));
}

#[test]
fn the_check_stops_at_the_next_line_break() {
    let group = Doc::Group(vec![t("a"), Doc::Line, t("b")]);
    let doc = Doc::Array(vec![group, Doc::Line, t("cccccccc")]);
    assert_eq!(print(&doc, &opts(3)), Ok("a b\ncccccccc".to_string()));
    let group = Doc::Group(vec![t("a"), Doc::Line, t("b")]);
    let doc = Doc::Array(vec![group, t(";"), Doc::Hardline, t("cccccccc")]);
    assert_eq!(print(&doc, &opts(4)), Ok("a b;\ncccccccc".to_string()));
    let group = Doc::Group(vec![t("a"), Doc::Line, t("b")]);
    let doc = Doc::Array(vec![group, t(";"), Doc::Hardline, t("cccccccc")]);
    assert_eq!(print(&doc, &opts(3)), Ok("a\nb;\ncccccccc".to_string()));
}

#[test]
fn a_group_that_follows_counts_as_flat() {
    let first = Doc::Group(vec![t("a"), Doc::Line, t("b")]);
    let second = Doc::Group(vec![t("c"), Doc::Line, t("d")]);
    let doc = Doc::Array(vec![first, second]);
    assert_eq!(print(&doc, &opts(6)), Ok("a bc d".to_string()));
    let first = Doc::Group(vec![t("a"), Doc::Line, t("b")]);
    let second = Doc::Group(vec![t("c"), Doc::Line, t("d")]);
    let doc = Doc::Array(vec![first, second]);
    assert_eq!(print(&doc, &opts(5)), Ok("a\nbc d".to_string()));
}

#[test]
fn blanks_before_a_line_break_are_dropped() {
    let doc = Doc::Array(vec![t("a  "), Doc::Hardline, t("b\t "), Doc::Hardline, t("c ")]);
    assert_eq!(print(&doc, &opts(80)), Ok("a\nb\nc ".to_string()));
}

#[test]
fn empty_lines_carry_no_indentation() {
    let doc = Doc::Indent(vec![Doc::Hardline, Doc::Hardline, t("a")]);
    assert_eq!(print(&doc, &opts(80)), Ok("\n\n  a".to_string()));
}

#[test]
fn columns_are_counted_in_characters() {
    let doc = Doc::Group(vec![t("äöü"), Doc::Line, t("ß")]);
    assert_eq!(print(&doc, &opts(5)), Ok("äöü ß".to_string()));
    assert_eq!(print(&doc, &opts(4)), Ok("äöü\nß".to_string()));
}

#[test]
fn column_after_a_break_is_the_indentation() {
    let inner = Doc::Group(vec![t("bbb"), Doc::Line, t("ccc")]);
    let doc = Doc::Array(vec![t("a"), Doc::Indent(vec![Doc::Hardline, inner])]);
    assert_eq!(print(&doc, &opts(9)), Ok("a\n  bbb ccc".to_string()));
    let inner = Doc::Group(vec![t("bbb"), Doc::Line, t("ccc")]);
    let doc = Doc::Array(vec![t("a"), Doc::Indent(vec![Doc::Hardline, inner])]);
    assert_eq!(print(&doc, &opts(8)), Ok("a\n  bbb\n  ccc".to_string()));
}

#[test]
fn indentation_past_the_machine_limit_is_an_error() {
    let wide = PrettierOptions { print_width: 80, indent_width: usize::MAX, semi: true, single_quote: false };
    let once = Doc::Indent(vec![t("a")]);
    assert_eq!(print(&once, &wide), Ok("a".to_string()));
    let twice = Doc::Indent(vec![Doc::Indent(vec![t("a")])]);
    assert_eq!(print(&twice, &wide), Err(LayoutError::IndentOverflow));
    assert_eq!(LayoutError::IndentOverflow.message(), "indentation exceeds the largest column");
}

#[test]
fn empty_document_is_empty_text() {
    assert_eq!(print(&Doc::Array(vec![]), &opts(80)), Ok(String::new()));
    assert_eq!(print(&Doc::Group(vec![]), &opts(1)), Ok(String::new()));
}

#[test]
fn join_puts_the_separator_between_items() {
    let parts = join(Separator::CommaSpace, vec![t("a"), t("b"), t("c")]);
    assert_eq!(parts.len(), 5);
    assert_eq!(print(&Doc::Array(parts), &opts(80)), Ok("a, b, c".to_string()));
    assert_eq!(join(Separator::Hardline, vec![]).len(), 0);
    assert_eq!(join(Separator::Hardline, vec![t("a")]).len(), 1);
    let lines = join(Separator::Hardline, vec![t("a"), t("b")]);
    assert_eq!(print(&Doc::Array(lines), &opts(80)), Ok("a\nb".to_string()));
    let soft = join(Separator::Softline, vec![t("a"), t("b")]);
    assert_eq!(print(&Doc::Group(soft), &opts(80)), Ok("ab".to_string()));
}
