use rfmt::ts::{
    fill_str, is_whitespace, list_len_info_exec, minus_nf_exec, split_lines, str_one_line_len,
    Typesetter,
};

#[test]
fn new_typesetter_is_empty() {
    let r = Typesetter::new().result();
    assert_eq!(r.s, "");
    assert!(r.exceed_lines.is_empty());
    assert!(r.trailing_ws_lines.is_empty());
}

#[test]
fn raw_insert_and_nl_write_lines() {
    let mut ts = Typesetter::new();
    ts.raw_insert("fn main()");
    ts.nl();
    ts.raw_insert("x");
    let r = ts.result();
    assert_eq!(r.s, "fn main()\nx");
}

#[test]
fn exceed_lines_are_recorded() {
    let mut ts = Typesetter::new();
    ts.raw_insert(&"a".repeat(120));
    ts.nl();
    ts.raw_insert(&"b".repeat(121));
    ts.nl();
    let r = ts.result();
    assert_eq!(r.exceed_lines.into_iter().collect::<Vec<u32>>(), vec![2]);
}

#[test]
fn trailing_whitespace_lines_are_recorded() {
    let mut ts = Typesetter::new();
    ts.raw_insert("a ");
    ts.nl();
    ts.raw_insert("b");
    ts.nl();
    ts.raw_insert("c\t");
    ts.nl();
    let r = ts.result();
    assert_eq!(r.trailing_ws_lines.into_iter().collect::<Vec<u32>>(), vec![1, 3]);
}

#[test]
fn outdent_undoes_indent() {
    let mut ts = Typesetter::new();
    ts.indent();
    ts.indent();
    ts.outdent();
    ts.insert_indent();
    ts.raw_insert("x");
    assert_eq!(ts.result().s, "    x");
}

#[test]
fn nl_indent_starts_an_indented_line() {
    let mut ts = Typesetter::new();
    ts.indent();
    ts.raw_insert("a");
    ts.nl_indent();
    ts.raw_insert("b");
    assert_eq!(ts.result().s, "a\n    b");
}

#[test]
fn wrap_goes_to_the_alignment_column() {
    let mut ts = Typesetter::new();
    ts.insert_mark_align("foo(");
    ts.wrap();
    ts.raw_insert("x");
    ts.insert_unmark_align(")");
    assert_eq!(ts.result().s, "foo(\n    x)");
}

#[test]
fn wrap_without_alignment_indents_twice() {
    let mut ts = Typesetter::new();
    ts.indent();
    ts.insert_indent();
    ts.raw_insert("a");
    ts.wrap();
    ts.raw_insert("b");
    assert_eq!(ts.result().s, "    a\n            b");
}

#[test]
fn unmark_undoes_mark() {
    let mut ts = Typesetter::new();
    ts.indent();
    ts.insert_mark_align("(");
    ts.insert_unmark_align(")");
    ts.wrap();
    ts.raw_insert("z");
    assert_eq!(ts.result().s, "()\n            z");
}

#[test]
fn need_wrap_when_the_text_fits_on_a_new_line_only() {
    let mut ts = Typesetter::new();
    ts.raw_insert(&"a".repeat(100));
    let long = "x".repeat(30);
    assert!(ts.need_wrap(&[long.as_str()]));
    assert!(!ts.need_wrap(&["short"]));
    let too_long = "y".repeat(115);
    assert!(!ts.need_wrap(&[too_long.as_str()]));
}

#[test]
fn need_nl_indent_measures_from_the_indentation() {
    let mut ts = Typesetter::new();
    ts.raw_insert(&"a".repeat(100));
    let t = "x".repeat(115);
    assert!(ts.need_nl_indent(&[t.as_str()]));
    assert!(!ts.need_wrap(&[t.as_str()]));
}

#[test]
fn insert_wraps_when_needed() {
    let mut ts = Typesetter::new();
    ts.raw_insert(&"a".repeat(110));
    ts.insert("bbbbbbbbbbbbbbbbbbbb");
    let r = ts.result();
    assert_eq!(r.s, format!("{}\n        {}", "a".repeat(110), "b".repeat(20)));
}

#[test]
fn force_insert_does_not_move_the_column() {
    let mut ts = Typesetter::new();
    ts.force_insert(&"a".repeat(200));
    ts.nl();
    assert!(ts.result().exceed_lines.is_empty());
}

#[test]
fn can_one_line_compares_with_the_room_left() {
    let mut ts = Typesetter::new();
    ts.raw_insert(&"a".repeat(110));
    assert!(ts.can_one_line("12345678"));
    assert!(!ts.can_one_line("123456789"));
}

#[test]
fn split_lines_keeps_the_empty_last_line() {
    assert_eq!(split_lines("a\nb\n"), vec!["a".to_string(), "b".to_string(), String::new()]);
    assert_eq!(split_lines(""), vec![String::new()]);
    assert_eq!(split_lines("one"), vec!["one".to_string()]);
}

#[test]
fn str_one_line_len_counts_bytes_of_the_first_line() {
    assert_eq!(str_one_line_len("ab\ncd"), 2);
    assert_eq!(str_one_line_len("é\n"), 2);
    assert_eq!(str_one_line_len("abc"), 3);
}

#[test]
fn list_len_info_sums_first_lines() {
    assert_eq!(list_len_info_exec(&["ab", "c\nd", "ef"]), (3, 5));
    assert_eq!(list_len_info_exec(&["abc"]), (0, 3));
    assert_eq!(list_len_info_exec(&[]), (0, 0));
}

#[test]
fn fill_str_repeats() {
    assert_eq!(fill_str('x', 3), "xxx");
    assert_eq!(fill_str(' ', 0), "");
}

#[test]
fn whitespace_is_unicode_white_space() {
    assert!(is_whitespace(' '));
    assert!(is_whitespace('\n'));
    assert!(is_whitespace('\u{3000}'));
    assert!(!is_whitespace('a'));
    assert!(!is_whitespace('\u{200B}'));
}

#[test]
fn minus_nf_does_not_go_below_zero() {
    assert_eq!(minus_nf_exec(3, 5), 0);
    assert_eq!(minus_nf_exec(5, 3), 2);
}

#[test]
fn balanced_marks_leave_the_alignment_as_it_was() {
    let mut t = Typesetter::new();
    t.insert_mark_align("foo(");
    t.insert_mark_align("[");
    t.insert_unmark_align("]");
    t.wrap();
    t.raw_insert("x");
    assert_eq!(t.result().s, "foo([]\n    x");
}
