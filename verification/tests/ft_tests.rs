use std::collections::HashMap;

use rfmt::ft::{fmt, sort_last_unique, str_lt};
use rfmt::ir::{
    Arg, Arm, Attr, AttrKind, Block, Chunk, Crate, Enum, EnumBody, EnumField, Expr, ExprKind,
    ExternCrate, FnCallExpr, FnHeader, FnSig, IdentPatten, IfExpr, Impl, ImplItem, ImplItemKind,
    Item, ItemKind, Let, Loc, Macro, MacroSep, MacroStyle, MatchExpr, MetaItem, MethodImplItem,
    MethodSig, Mod, ModDecl, Path, PathParam, PathSegment, PathType, Patten, PattenKind, Return,
    Stmt, StmtKind, Struct, StructBody, StructField, TupleField, Type, TypeKind, Use, UseTree,
    AngleParam, Generics, Where, Fn, StructExpr,
};

fn loc() -> Loc {
    Loc { start: 0, end: 0, nl: false }
}

fn loc_at(start: u32, end: u32) -> Loc {
    Loc { start, end, nl: false }
}

fn item_at(l: Loc, kind: ItemKind) -> Item {
    Item { loc: l, attrs: vec![], vis: String::new(), item: kind }
}

fn item(kind: ItemKind) -> Item {
    item_at(loc(), kind)
}

fn krate(items: Vec<Item>) -> Crate {
    Crate { loc: loc(), attrs: vec![], module: Mod { loc: loc_at(0, 50), name: "main".to_string(), items } }
}

fn run(k: Crate) -> String {
    fmt(k, HashMap::new(), HashMap::new()).s
}

fn generics() -> Generics {
    Generics { lifetime_defs: vec![], type_params: vec![], wh: Where { clauses: vec![] } }
}

fn header() -> FnHeader {
    FnHeader { is_unsafe: false, is_async: false, is_const: false, abi: "\"Rust\"".to_string() }
}

fn block(stmts: Vec<Stmt>) -> Block {
    Block { loc: loc(), is_unsafe: false, stmts }
}

fn fn_item(name: &str, stmts: Vec<Stmt>) -> ItemKind {
    ItemKind::Fn(Fn {
        header: header(),
        name: name.to_string(),
        generics: generics(),
        sig: FnSig { args: vec![], ret: Return { nl: false, ret: None } },
        block: block(stmts),
    })
}

fn sym(s: &'static str) -> Type {
    Type { loc: loc(), ty: TypeKind::Symbol(s) }
}

fn lit(s: &str) -> Expr {
    Expr { loc: loc(), attrs: vec![], expr: ExprKind::Literal(Chunk::new(s)) }
}

fn path_expr(name: &str) -> Expr {
    Expr {
        loc: loc(),
        attrs: vec![],
        expr: ExprKind::Path(PathType {
            qself: None,
            path: Path {
                loc: loc(),
                segments: vec![PathSegment {
                    name: name.to_string(),
                    param: PathParam::Angle(AngleParam::empty()),
                }],
            },
        }),
    }
}

fn ident(name: &str) -> Patten {
    Patten {
        loc: loc(),
        patten: PattenKind::Ident(Box::new(IdentPatten {
            is_ref: false,
            is_mut: false,
            name: name.to_string(),
            patten: None,
        })),
    }
}

fn attr(name: &str) -> AttrKind {
    AttrKind::Attr(Attr {
        loc: loc(),
        is_inner: false,
        item: MetaItem { loc: loc(), name: name.to_string(), items: None },
    })
}

fn use_item(path: &str) -> Item {
    item(ItemKind::Use(Use { path: path.to_string(), trees: None }))
}

#[test]
fn empty_crate_gives_empty_text() {
    assert_eq!(run(krate(vec![])), "");
}

#[test]
fn use_items_are_sorted_and_deduplicated() {
    let k = krate(vec![use_item("b"), use_item("a"), use_item("b")]);
    assert_eq!(run(k), "use a;\nuse b;\n");
}

#[test]
fn declarations_are_gathered_by_kind() {
    let k = krate(vec![
        item(ItemKind::ModDecl(ModDecl { name: "m".to_string() })),
        use_item("x"),
        item(ItemKind::ExternCrate(ExternCrate { name: "c".to_string() })),
    ]);
    assert_eq!(run(k), "extern crate c;\nuse x;\nmod m;\n");
}

#[test]
fn another_item_ends_a_group() {
    let k = krate(vec![use_item("b"), item(fn_item("f", vec![])), use_item("a")]);
    assert_eq!(run(k), "use b;\nuse a;\nfn f() {}\n");
}

#[test]
fn nested_use_trees() {
    let tree = |p: &str| UseTree { loc: loc(), path: p.to_string(), trees: None };
    let k = krate(vec![item(ItemKind::Use(Use {
        path: "std".to_string(),
        trees: Some(vec![tree("fs"), tree("io")]),
    }))]);
    assert_eq!(run(k), "use std::{fs, io};\n");
}

#[test]
fn function_with_a_let_statement() {
    let stmt = Stmt {
        loc: loc(),
        stmt: StmtKind::Let(Let {
            loc: loc(),
            attrs: vec![],
            patten: ident("x"),
            ty: None,
            init: Some(lit("1")),
        }),
    };
    let k = krate(vec![item(fn_item("main", vec![stmt]))]);
    assert_eq!(run(k), "fn main() {\n    let x = 1;\n}\n");
}

#[test]
fn attributes_are_sorted_and_deduplicated() {
    let mut it = item(fn_item("f", vec![]));
    it.attrs = vec![attr("b"), attr("a"), attr("b")];
    assert_eq!(run(krate(vec![it])), "#[a]\n#[b]\nfn f() {}\n");
}

#[test]
fn doc_comments_split_attribute_groups() {
    let mut it = item(fn_item("f", vec![]));
    it.attrs = vec![attr("b"), AttrKind::Doc(Chunk::new("/// doc")), attr("a")];
    assert_eq!(run(krate(vec![it])), "#[b]\n/// doc\n#[a]\nfn f() {}\n");
}

#[test]
fn leading_and_trailing_comments_are_placed() {
    let k = krate(vec![item_at(loc_at(10, 20), fn_item("f", vec![]))]);
    let mut leading = HashMap::new();
    leading.insert(10u32, vec!["// hello".to_string(), String::new()]);
    let mut trailing = HashMap::new();
    trailing.insert(20u32, "// t".to_string());
    let r = fmt(k, leading, trailing);
    assert_eq!(r.s, "// hello\n\nfn f() {} // t\n");
}

#[test]
fn comments_left_after_the_crate_end_it() {
    let k = krate(vec![item(fn_item("f", vec![]))]);
    let mut leading = HashMap::new();
    leading.insert(100u32, vec!["// end".to_string()]);
    leading.insert(30u32, vec!["// dropped".to_string()]);
    let r = fmt(k, leading, HashMap::new());
    assert_eq!(r.s, "fn f() {}\n// end\n");
}

#[test]
fn struct_fields_go_on_lines_of_their_own() {
    let st = Struct {
        name: "S".to_string(),
        generics: generics(),
        body: StructBody::Struct(vec![StructField {
            loc: loc(),
            attrs: vec![],
            vis: "pub".to_string(),
            name: "a".to_string(),
            ty: sym("u8"),
        }]),
    };
    let mut it = item(ItemKind::Struct(st));
    it.vis = "pub".to_string();
    assert_eq!(run(krate(vec![it])), "pub struct S {\n    pub a: u8,\n}\n");
}

#[test]
fn tuple_struct_ends_with_semicolon() {
    let st = Struct {
        name: "P".to_string(),
        generics: generics(),
        body: StructBody::Tuple(vec![
            TupleField { loc: loc(), attrs: vec![], vis: String::new(), ty: sym("i32") },
            TupleField { loc: loc(), attrs: vec![], vis: String::new(), ty: sym("i32") },
        ]),
    };
    assert_eq!(run(krate(vec![item(ItemKind::Struct(st))])), "struct P(i32, i32);\n");
}

#[test]
fn enum_variants_end_with_commas() {
    let e = Enum {
        name: "E".to_string(),
        generics: generics(),
        body: EnumBody {
            fields: vec![
                EnumField { loc: loc(), attrs: vec![], name: "A".to_string(), body: StructBody::Unit, expr: None },
                EnumField {
                    loc: loc(),
                    attrs: vec![],
                    name: "B".to_string(),
                    body: StructBody::Unit,
                    expr: Some(lit("2")),
                },
            ],
        },
    };
    assert_eq!(run(krate(vec![item(ItemKind::Enum(e))])), "enum E {\n    A,\n    B = 2,\n}\n");
}

#[test]
fn function_arguments_and_return_type() {
    let f = Fn {
        header: header(),
        name: "add".to_string(),
        generics: generics(),
        sig: FnSig {
            args: vec![
                Arg { loc: loc(), patten: ident("a"), ty: sym("u8"), has_patten: true },
                Arg { loc: loc(), patten: ident("b"), ty: sym("u8"), has_patten: true },
            ],
            ret: Return { nl: false, ret: Some(sym("u8")) },
        },
        block: block(vec![Stmt { loc: loc(), stmt: StmtKind::Expr(path_expr("a"), false) }]),
    };
    assert_eq!(
        run(krate(vec![item(ItemKind::Fn(f))])),
        "fn add(a: u8, b: u8) -> u8 {\n    a\n}\n"
    );
}

#[test]
fn impl_with_a_method() {
    let m = ImplItem {
        loc: loc(),
        attrs: vec![],
        vis: "pub".to_string(),
        is_default: false,
        item: ImplItemKind::Method(MethodImplItem {
            sig: MethodSig {
                header: header(),
                name: "new".to_string(),
                generics: generics(),
                sig: FnSig { args: vec![], ret: Return { nl: false, ret: Some(sym("Self")) } },
            },
            block: block(vec![]),
        }),
    };
    let im = Impl {
        is_unsafe: false,
        is_default: false,
        is_neg: false,
        generics: generics(),
        trait_ref: None,
        ty: sym("S"),
        items: vec![m],
    };
    assert_eq!(
        run(krate(vec![item(ItemKind::Impl(im))])),
        "impl S {\n    pub fn new() -> Self {}\n}\n"
    );
}

#[test]
fn if_else_and_match() {
    let if_expr = Expr {
        loc: loc(),
        attrs: vec![],
        expr: ExprKind::If(Box::new(IfExpr {
            expr: path_expr("c"),
            block: block(vec![Stmt { loc: loc(), stmt: StmtKind::Expr(lit("1"), false) }]),
            br: Some(Expr {
                loc: loc(),
                attrs: vec![],
                expr: ExprKind::Block(Box::new(rfmt::ir::BlockExpr {
                    label: None,
                    block: block(vec![Stmt { loc: loc(), stmt: StmtKind::Expr(lit("2"), false) }]),
                })),
            }),
        })),
    };
    let k = krate(vec![item(fn_item("f", vec![Stmt { loc: loc(), stmt: StmtKind::Expr(if_expr, false) }]))]);
    assert_eq!(run(k), "fn f() {\n    if c {\n        1\n    } else {\n        2\n    }\n}\n");

    let arm = |p: &str, v: &str| Arm {
        loc: loc(),
        attrs: vec![],
        pattens: vec![Patten { loc: loc(), patten: PattenKind::Literal(lit(p)) }],
        guard: None,
        body: lit(v),
    };
    let m = Expr {
        loc: loc(),
        attrs: vec![],
        expr: ExprKind::Match(Box::new(MatchExpr { expr: path_expr("x"), arms: vec![arm("0", "a"), arm("_", "b")] })),
    };
    let k = krate(vec![item(fn_item("g", vec![Stmt { loc: loc(), stmt: StmtKind::Expr(m, false) }]))]);
    assert_eq!(run(k), "fn g() {\n    match x {\n        0 => a,\n        _ => b,\n    }\n}\n");
}

#[test]
fn macro_call_with_separators() {
    let mac = Macro {
        name: "println".to_string(),
        style: MacroStyle::Paren,
        exprs: vec![lit("\"{}\""), path_expr("x")],
        seps: vec![MacroSep { is_sep: true, s: "," }],
    };
    let call = Expr { loc: loc(), attrs: vec![], expr: ExprKind::Macro(mac) };
    let k = krate(vec![item(fn_item("f", vec![Stmt { loc: loc(), stmt: StmtKind::Expr(call, true) }]))]);
    assert_eq!(run(k), "fn f() {\n    println!(\"{}\", x);\n}\n");
}

#[test]
fn long_calls_wrap_at_the_alignment_column() {
    let a = "a".repeat(60);
    let b = "b".repeat(60);
    let call = Expr {
        loc: loc(),
        attrs: vec![],
        expr: ExprKind::FnCall(Box::new(FnCallExpr { name: path_expr("f"), args: vec![lit(&a), lit(&b)] })),
    };
    let k = krate(vec![item(fn_item("g", vec![Stmt { loc: loc(), stmt: StmtKind::Expr(call, true) }]))]);
    assert_eq!(run(k), format!("fn g() {{\n    f({},\n      {});\n}}\n", a, b));
}

#[test]
fn formatted_text_ends_with_a_newline() {
    let k = krate(vec![use_item("a"), item(fn_item("f", vec![]))]);
    assert!(run(k).ends_with('\n'));
}

#[test]
fn sort_last_unique_keeps_the_last_of_equal_keys() {
    let keys = vec!["b".to_string(), "a".to_string(), "b".to_string(), "c".to_string()];
    assert_eq!(sort_last_unique(&keys), vec![1, 2, 3]);
    assert_eq!(sort_last_unique(&vec![]), Vec::<usize>::new());
}

#[test]
fn str_lt_is_the_string_order() {
    assert!(str_lt("a", "b"));
    assert!(str_lt("a", "ab"));
    assert!(!str_lt("ab", "a"));
    assert!(!str_lt("a", "a"));
    assert!(str_lt("Z", "a"));
}

#[test]
fn struct_literal_without_fields_is_written_empty() {
    let base = path_expr("base");
    let p = Path {
        loc: loc(),
        segments: vec![PathSegment { name: "S".to_string(), param: PathParam::Angle(AngleParam::empty()) }],
    };
    let e = Expr {
        loc: loc(),
        attrs: vec![],
        expr: ExprKind::Struct(Box::new(StructExpr { path: p, fields: vec![], base: Some(base) })),
    };
    let stmt = Stmt {
        loc: loc(),
        stmt: StmtKind::Let(Let { loc: loc(), attrs: vec![], patten: ident("x"), ty: None, init: Some(e) }),
    };
    let k = krate(vec![item(fn_item("main", vec![stmt]))]);
    assert_eq!(run(k), "fn main() {\n    let x = S {};\n}\n");
}

#[test]
fn a_default_impl_is_written_as_a_plain_impl() {
    let im = Impl {
        is_unsafe: false,
        is_default: true,
        is_neg: false,
        generics: generics(),
        trait_ref: None,
        ty: sym("S"),
        items: vec![],
    };
    assert_eq!(run(krate(vec![item(ItemKind::Impl(im))])), "impl S {}\n");
}
