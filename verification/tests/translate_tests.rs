use std::collections::HashMap;

use rfmt::ast::{
    Attribute, AttributeKind, BinOp, BinOpKind, Block, BlockCheck, Crate, Expr, ExprKind, FnDecl,
    FnHeader, Generics, Ident, Item, ItemKind, Lit, MetaItem, MetaItemKind, Mod, Path,
    PathSegment, Span, Stmt, StmtKind, Ty, TyKind, UseTree, UseTreeKind,
};
use rfmt::ft::fmt;
use rfmt::ir;
use rfmt::tr::{abi_to_string, binop_to_string, ident_to_string, trans, CommentStyle, RawComment, VisKind};

fn sp(lo: u32, hi: u32) -> Span {
    Span { lo, hi }
}

fn ident(name: &str, lo: u32) -> Ident {
    Ident { span: sp(lo, lo + name.len() as u32), name: name.to_string() }
}

fn path(names: &[(&str, u32)]) -> Path {
    let lo = names.first().map(|n| n.1).unwrap_or(0);
    let hi = names.last().map(|n| n.1 + n.0.len() as u32).unwrap_or(0);
    Path {
        span: sp(lo, hi),
        segments: names.iter().map(|(n, p)| PathSegment { ident: ident(n, *p), args: None }).collect(),
    }
}

fn raw(style: CommentStyle, pos: u32, lines: &[&str]) -> RawComment {
    RawComment { style, pos, lines: lines.iter().map(|s| s.to_string()).collect() }
}

fn generics() -> Generics {
    Generics { params: vec![], where_predicates: vec![] }
}

fn header() -> FnHeader {
    FnHeader { is_unsafe: false, is_async: false, is_const: false, abi: "Rust".to_string() }
}

/// `fn name() -> ret { stmts }`.
fn fn_item(span: Span, name: Ident, ret: Option<Ty>, block: Span, stmts: Vec<Stmt>) -> Item {
    Item {
        span,
        attrs: vec![],
        vis: VisKind::Inherited,
        ident: name,
        kind: ItemKind::Fn(
            FnDecl { inputs: vec![], output: ret },
            header(),
            generics(),
            Block { span: block, rules: BlockCheck::Default, stmts },
        ),
    }
}

fn krate(span: Span, items: Vec<Item>) -> Crate {
    Crate { span, attrs: vec![], module: Mod { inner: span, items, inline: true } }
}

fn fn_of(item: &ir::Item) -> &ir::Fn {
    match &item.item {
        ir::ItemKind::Fn(f) => f,
        _ => panic!("not a function"),
    }
}

#[test]
fn comments_go_to_the_nodes_they_stand_by() {
    let src = "// lead\nfn main() {} // tail\n";
    let item = fn_item(sp(8, 20), ident("main", 11), None, sp(18, 20), vec![]);
    let k = krate(sp(0, 29), vec![item]);
    let cmnts = vec![
        raw(CommentStyle::Isolated, 0, &["// lead"]),
        raw(CommentStyle::Trailing, 21, &["// tail"]),
    ];
    let r = trans(src.to_string(), "main.rs", 29, &k, cmnts);
    assert_eq!(r.leading_cmnts.get(&8), Some(&vec!["// lead".to_string()]));
    assert_eq!(r.leading_cmnts.len(), 1);
    assert_eq!(r.trailing_cmnts.get(&20), Some(&"// tail".to_string()));
    assert_eq!(r.trailing_cmnts.len(), 1);
    let it = &r.krate.module.items[0];
    assert_eq!((it.loc.start, it.loc.end, it.loc.nl), (8, 20, true));
    assert_eq!(r.krate.module.name, "main");
    let out = fmt(r.krate, r.leading_cmnts, r.trailing_cmnts);
    assert_eq!(out.s, "// lead\nfn main() {} // tail\n");
}

#[test]
fn a_blank_line_leads_with_an_empty_line() {
    let src = "\n\nfn a() {}\n";
    let item = fn_item(sp(2, 11), ident("a", 5), None, sp(9, 11), vec![]);
    let k = krate(sp(0, 12), vec![item]);
    let cmnts = vec![raw(CommentStyle::BlankLine, 1, &[])];
    let r = trans(src.to_string(), "a.rs", 12, &k, cmnts);
    assert_eq!(r.leading_cmnts.get(&2), Some(&vec![String::new()]));
    let out = fmt(r.krate, r.leading_cmnts, r.trailing_cmnts);
    assert_eq!(out.s, "\nfn a() {}\n");
}

#[test]
fn the_module_is_named_after_the_file() {
    let k = krate(sp(0, 0), vec![]);
    let r = trans(String::new(), "lib.rs", 0, &k, vec![]);
    assert_eq!(r.krate.module.name, "lib");
    let r = trans(String::new(), "a.b.rs", 0, &k, vec![]);
    assert_eq!(r.krate.module.name, "a.b");
    let r = trans(String::new(), "noext", 0, &k, vec![]);
    assert_eq!(r.krate.module.name, "noext");
}

#[test]
fn a_node_after_a_line_break_starts_a_line() {
    let src = "fn a() {}\nfn b() {}\n";
    let a = fn_item(sp(0, 9), ident("a", 3), None, sp(7, 9), vec![]);
    let b = fn_item(sp(10, 19), ident("b", 13), None, sp(17, 19), vec![]);
    let k = krate(sp(0, 20), vec![a, b]);
    let r = trans(src.to_string(), "x.rs", 20, &k, vec![]);
    assert!(!r.krate.module.items[0].loc.nl);
    assert!(r.krate.module.items[1].loc.nl);
    assert!(!fn_of(&r.krate.module.items[1]).block.loc.nl);
}

fn u8_ty(lo: u32) -> Ty {
    Ty { span: sp(lo, lo + 2), kind: TyKind::Path(None, path(&[("u8", lo)])) }
}

#[test]
fn a_return_type_on_its_own_line() {
    let src = "fn f()\n    -> u8 {}\n";
    let f = fn_item(sp(0, 19), ident("f", 3), Some(u8_ty(14)), sp(17, 19), vec![]);
    let k = krate(sp(0, 20), vec![f]);
    let r = trans(src.to_string(), "x.rs", 20, &k, vec![]);
    let func = fn_of(&r.krate.module.items[0]);
    assert!(func.sig.ret.nl);
    let out = fmt(r.krate, r.leading_cmnts, r.trailing_cmnts);
    assert_eq!(out.s, "fn f()\n-> u8 {}\n");
}

#[test]
fn a_return_type_on_the_same_line() {
    let src = "fn f() -> u8 {}\n";
    let f = fn_item(sp(0, 15), ident("f", 3), Some(u8_ty(10)), sp(13, 15), vec![]);
    let k = krate(sp(0, 16), vec![f]);
    let r = trans(src.to_string(), "x.rs", 16, &k, vec![]);
    let func = fn_of(&r.krate.module.items[0]);
    assert!(!func.sig.ret.nl);
    let out = fmt(r.krate, r.leading_cmnts, r.trailing_cmnts);
    assert_eq!(out.s, "fn f() -> u8 {}\n");
}

fn simple_tree(name: &str, lo: u32) -> UseTree {
    UseTree { span: sp(lo, lo + name.len() as u32), prefix: path(&[(name, lo)]), kind: UseTreeKind::Simple(None) }
}

#[test]
fn nested_use_trees_are_sorted_self_first() {
    // use a::{c, self, b};
    let src = "use a::{c, self, b};\n";
    let tree = UseTree {
        span: sp(4, 19),
        prefix: path(&[("a", 4)]),
        kind: UseTreeKind::Nested(vec![simple_tree("c", 8), simple_tree("self", 11), simple_tree("b", 17)]),
    };
    let item = Item {
        span: sp(0, 20),
        attrs: vec![],
        vis: VisKind::Inherited,
        ident: ident("", 0),
        kind: ItemKind::Use(tree),
    };
    let k = krate(sp(0, 21), vec![item]);
    let r = trans(src.to_string(), "x.rs", 21, &k, vec![]);
    match &r.krate.module.items[0].item {
        ir::ItemKind::Use(u) => {
            assert_eq!(u.path, "a");
            let paths: Vec<&str> = u.trees.as_ref().unwrap().iter().map(|t| t.path.as_str()).collect();
            assert_eq!(paths, vec!["self", "b", "c"]);
        },
        _ => panic!("not a use item"),
    }
    let out = fmt(r.krate, r.leading_cmnts, r.trailing_cmnts);
    assert_eq!(out.s, "use a::{self, b, c};\n");
}

fn lit_expr(text: &str, lo: u32) -> Expr {
    let s = sp(lo, lo + text.len() as u32);
    Expr { span: s, attrs: vec![], kind: ExprKind::Lit(Lit { span: s, text: text.to_string() }) }
}

fn path_expr(name: &str, lo: u32) -> Expr {
    Expr { span: sp(lo, lo + name.len() as u32), attrs: vec![], kind: ExprKind::Path(None, path(&[(name, lo)])) }
}

#[test]
fn operators_keep_their_text() {
    // fn f() {
    //     x += 1;
    //     x <= 2
    // }
    let src = "fn f() {\n    x += 1;\n    x <= 2\n}\n";
    let assign = Expr {
        span: sp(13, 19),
        attrs: vec![],
        kind: ExprKind::AssignOp(
            BinOp { span: sp(15, 17), kind: BinOpKind::Add },
            Box::new(path_expr("x", 13)),
            Box::new(lit_expr("1", 18)),
        ),
    };
    let cmp = Expr {
        span: sp(25, 31),
        attrs: vec![],
        kind: ExprKind::Binary(
            BinOp { span: sp(27, 29), kind: BinOpKind::Le },
            Box::new(path_expr("x", 25)),
            Box::new(lit_expr("2", 30)),
        ),
    };
    let stmts = vec![
        Stmt { span: sp(13, 20), kind: StmtKind::Semi(assign) },
        Stmt { span: sp(25, 31), kind: StmtKind::Expr(cmp) },
    ];
    let f = fn_item(sp(0, 33), ident("f", 3), None, sp(7, 33), stmts);
    let k = krate(sp(0, 34), vec![f]);
    let r = trans(src.to_string(), "x.rs", 34, &k, vec![]);
    let func = fn_of(&r.krate.module.items[0]);
    let ops: Vec<String> = func
        .block
        .stmts
        .iter()
        .map(|s| match &s.stmt {
            ir::StmtKind::Expr(e, _) => match &e.expr {
                ir::ExprKind::ListOp(l) => l.op.s.clone(),
                _ => panic!("not an operator"),
            },
            _ => panic!("not an expression"),
        })
        .collect();
    assert_eq!(ops, vec!["+=".to_string(), "<=".to_string()]);
    assert!(func.block.stmts[1].loc.nl);
    let out = fmt(r.krate, r.leading_cmnts, r.trailing_cmnts);
    assert_eq!(out.s, src);
}

#[test]
fn an_outer_attribute_item_starts_after_its_bracket() {
    let src = "#[test]\nfn t() {}\n";
    let attr = Attribute {
        span: sp(0, 7),
        is_inner: false,
        kind: AttributeKind::Meta(MetaItem { span: sp(1, 6), path: path(&[("test", 2)]), kind: MetaItemKind::Word }),
    };
    let mut f = fn_item(sp(0, 17), ident("t", 11), None, sp(15, 17), vec![]);
    f.attrs = vec![attr];
    let k = krate(sp(0, 18), vec![f]);
    let r = trans(src.to_string(), "x.rs", 18, &k, vec![]);
    match &r.krate.module.items[0].attrs[0] {
        ir::AttrKind::Attr(a) => {
            assert_eq!(a.item.name, "test");
            assert_eq!(a.item.loc.start, 2);
            assert!(!a.is_inner);
        },
        _ => panic!("not an attribute"),
    }
    let out = fmt(r.krate, r.leading_cmnts, r.trailing_cmnts);
    assert_eq!(out.s, src);
}

#[test]
fn small_texts() {
    assert_eq!(abi_to_string("C"), "\"C\"");
    assert_eq!(binop_to_string(BinOpKind::Shl), "<<");
    assert_eq!(ident_to_string(&ident("{{root}}", 0)), "");
    assert_eq!(ident_to_string(&ident("std", 0)), "std");
}

#[test]
fn a_trailing_comment_with_more_lines_leads_the_next_node() {
    let src = "fn a() {} // x\n// y\nfn b() {}\n";
    let a = fn_item(sp(0, 9), ident("a", 3), None, sp(7, 9), vec![]);
    let b = fn_item(sp(20, 29), ident("b", 23), None, sp(27, 29), vec![]);
    let k = krate(sp(0, 30), vec![a, b]);
    let cmnts = vec![raw(CommentStyle::Trailing, 10, &["// x", "// y"])];
    let r = trans(src.to_string(), "x.rs", 30, &k, cmnts);
    assert_eq!(r.trailing_cmnts.get(&9), Some(&"// x".to_string()));
    assert_eq!(r.leading_cmnts.get(&20), Some(&vec!["// y".to_string()]));
    let _ = HashMap::<u32, String>::new();
}
