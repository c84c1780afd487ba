use rfmt::ir::{CommentKind, IdentPatten, Loc, MacroStyle, Patten, PattenKind, UseTree, Comment};
use rfmt::tr::{
    crate_mod_name, extern_crate_name, has_patten, is_nl_snippet, macro_style, name_value,
    path_to_string, sort_use_trees, token_to_macro_sep, trans_comments, trans_vis, use_glob_path,
    use_simple_path, CommentStyle, CommentTracker, RawComment, SelfKind, SepToken, VisKind,
};

fn raw(style: CommentStyle, pos: u32, lines: &[&str]) -> RawComment {
    RawComment { style, pos, lines: lines.iter().map(|s| s.to_string()).collect() }
}

fn cmnt(kind: CommentKind, pos: u32, lines: &[&str]) -> Comment {
    Comment { pos, kind, lines: lines.iter().map(|s| s.to_string()).collect() }
}

#[test]
fn blank_line_runs_are_cut_to_one() {
    let cs = vec![
        raw(CommentStyle::Isolated, 1, &["// a"]),
        raw(CommentStyle::BlankLine, 5, &[]),
        raw(CommentStyle::BlankLine, 6, &[]),
        raw(CommentStyle::BlankLine, 7, &[]),
        raw(CommentStyle::Trailing, 9, &["// t"]),
        raw(CommentStyle::BlankLine, 12, &[]),
        raw(CommentStyle::Mixed, 14, &["/* m */"]),
    ];
    let out = trans_comments(cs);
    let poses: Vec<u32> = out.iter().map(|c| c.pos).collect();
    assert_eq!(poses, vec![1, 5, 9, 12, 14]);
    assert_eq!(out[0].kind, CommentKind::Leading);
    assert_eq!(out[2].kind, CommentKind::Trailing);
    assert_eq!(out[4].kind, CommentKind::Leading);
    assert_eq!(out[2].lines, vec!["// t".to_string()]);
}

#[test]
fn a_comment_between_blank_lines_restarts_the_count() {
    let cs = vec![
        raw(CommentStyle::BlankLine, 3, &[]),
        raw(CommentStyle::BlankLine, 4, &[]),
        raw(CommentStyle::Isolated, 5, &["// x"]),
        raw(CommentStyle::BlankLine, 6, &[]),
    ];
    let poses: Vec<u32> = trans_comments(cs).iter().map(|c| c.pos).collect();
    assert_eq!(poses, vec![3, 5, 6]);
}

#[test]
fn comments_are_handed_to_the_nodes() {
    let cs = vec![
        cmnt(CommentKind::Leading, 3, &["// a"]),
        cmnt(CommentKind::Trailing, 12, &["// t", "// u"]),
        cmnt(CommentKind::Leading, 20, &[]),
    ];
    let mut t = CommentTracker::new(cs);
    let l = t.loc(5, 10, false);
    assert_eq!((l.start, l.end, l.nl), (5, 10, false));
    t.set_loc(&l);
    assert_eq!(t.last_end(), 10);
    let _ = t.loc(15, 30, true);
    let (leading, trailing) = t.finish(100);
    assert_eq!(leading.get(&5), Some(&vec!["// a".to_string()]));
    assert_eq!(leading.get(&15), Some(&vec!["// u".to_string()]));
    assert_eq!(leading.get(&100), Some(&vec![String::new()]));
    assert_eq!(leading.len(), 3);
    assert_eq!(trailing.get(&10), Some(&"// t".to_string()));
    assert_eq!(trailing.len(), 1);
}

#[test]
fn leaf_loc_hands_out_up_to_its_end() {
    let cs = vec![cmnt(CommentKind::Leading, 7, &["// in"])];
    let mut t = CommentTracker::new(cs);
    let l = t.leaf_loc(5, 10, false);
    assert_eq!(t.last_end(), 10);
    assert_eq!((l.start, l.end, l.nl), (5, 10, false));
    let (leading, trailing) = t.finish(50);
    assert_eq!(leading.get(&10), Some(&vec!["// in".to_string()]));
    assert!(trailing.is_empty());
}

#[test]
fn is_nl_snippet_needs_only_whitespace_after_the_last_newline() {
    assert!(is_nl_snippet("  \n   "));
    assert!(is_nl_snippet("\n"));
    assert!(is_nl_snippet("x \n\t"));
    assert!(!is_nl_snippet("a\n b"));
    assert!(!is_nl_snippet("abc"));
    assert!(!is_nl_snippet(""));
}

#[test]
fn macro_style_is_the_first_delimiter() {
    assert!(matches!(macro_style("vec![1]"), MacroStyle::Bracket));
    assert!(matches!(macro_style("f!(x[0])"), MacroStyle::Paren));
    assert!(matches!(macro_style("m! { (a) }"), MacroStyle::Brace));
    assert!(matches!(macro_style("none"), MacroStyle::Brace));
}

#[test]
fn crate_mod_name_drops_the_last_extension() {
    assert_eq!(crate_mod_name("lib.rs"), "lib");
    assert_eq!(crate_mod_name("a.b.c"), "a.b");
    assert_eq!(crate_mod_name("noext"), "noext");
}

#[test]
fn path_to_string_joins_segments() {
    let segs = vec![String::new(), "std".to_string(), "io".to_string()];
    assert_eq!(path_to_string(&segs), "::std::io");
    assert_eq!(path_to_string(&vec![]), "");
}

#[test]
fn visibilities() {
    assert_eq!(trans_vis(&VisKind::Public), "pub");
    assert_eq!(trans_vis(&VisKind::PubCrate), "pub(crate)");
    assert_eq!(trans_vis(&VisKind::JustCrate), "crate");
    assert_eq!(trans_vis(&VisKind::Restricted("super".to_string())), "pub(super)");
    assert_eq!(trans_vis(&VisKind::Restricted("a::b".to_string())), "pub(in a::b)");
    assert_eq!(trans_vis(&VisKind::Inherited), "");
}

#[test]
fn names_of_declarations() {
    assert_eq!(extern_crate_name("bar".to_string(), &Some("foo".to_string())), "foo as bar");
    assert_eq!(extern_crate_name("bar".to_string(), &None), "bar");
    let prefix = vec!["a".to_string(), "b".to_string()];
    assert_eq!(use_simple_path(&prefix, &Some("c".to_string())), "a::b as c");
    assert_eq!(use_simple_path(&prefix, &None), "a::b");
    assert_eq!(use_glob_path(&vec!["a".to_string()]), "a::*");
    assert_eq!(use_glob_path(&vec![]), "*");
    assert_eq!(name_value("doc", "\"x\""), "doc = \"x\"");
}

#[test]
fn macro_separators() {
    let s = token_to_macro_sep(SepToken::Comma);
    assert!(s.is_sep && s.s == ",");
    let s = token_to_macro_sep(SepToken::FatArrow);
    assert!(s.is_sep && s.s == " =>");
    let s = token_to_macro_sep(SepToken::DotDotDot);
    assert!(!s.is_sep && s.s == "...");
    let s = token_to_macro_sep(SepToken::Semi);
    assert!(s.is_sep && s.s == ";");
}

fn ident(name: &str) -> Patten {
    Patten {
        loc: Loc { start: 0, end: 0, nl: false },
        patten: PattenKind::Ident(Box::new(IdentPatten {
            is_ref: false,
            is_mut: false,
            name: name.to_string(),
            patten: None,
        })),
    }
}

#[test]
fn arguments_with_patterns() {
    assert!(has_patten(None, &ident("x")));
    assert!(!has_patten(None, &ident("")));
    assert!(!has_patten(Some(SelfKind::Value), &ident("self")));
    assert!(!has_patten(Some(SelfKind::Region), &ident("self")));
    assert!(has_patten(Some(SelfKind::Explicit), &ident("self")));
    let wild = Patten { loc: Loc { start: 0, end: 0, nl: false }, patten: PattenKind::Wildcard };
    assert!(has_patten(None, &wild));
}

#[test]
fn use_trees_put_self_first_then_sort() {
    let tree = |p: &str| UseTree { loc: Loc { start: 0, end: 0, nl: false }, path: p.to_string(), trees: None };
    let sorted = sort_use_trees(vec![tree("b"), tree("self"), tree("a"), tree("selfish"), tree("B")]);
    let paths: Vec<String> = sorted.into_iter().map(|t| t.path).collect();
    assert_eq!(paths, vec!["self", "selfish", "B", "a", "b"]);
}

#[test]
fn equal_use_trees_keep_their_order() {
    let tree = |p: &str, start: u32| UseTree { loc: Loc { start, end: start, nl: false }, path: p.to_string(), trees: None };
    let sorted = sort_use_trees(vec![tree("b", 1), tree("a", 2), tree("b", 3), tree("a", 4)]);
    let got: Vec<(String, u32)> = sorted.into_iter().map(|t| (t.path, t.loc.start)).collect();
    assert_eq!(got, vec![("a".to_string(), 2), ("a".to_string(), 4), ("b".to_string(), 1), ("b".to_string(), 3)]);
}
