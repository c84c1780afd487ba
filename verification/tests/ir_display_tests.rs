use rfmt::display::{
    display_expr, display_path_type, display_tuple_field, display_type, fn_head, foreign_head,
    ref_head,
};
use rfmt::ir::{
    AngleParam, Block, Chunk, Expr, ExprKind, Generics, Loc, ParenParam, Path, PathParam,
    PathSegment, PathType, PolyTraitRef, QSelf, RangeExpr, RefType, Stmt, StmtKind, TupleField,
    Type, TypeKind, TypeParamBounds, Where,
};

fn loc() -> Loc {
    Loc { start: 0, end: 0, nl: false }
}

fn seg(name: &str) -> PathSegment {
    PathSegment { name: name.to_string(), param: PathParam::Angle(AngleParam::empty()) }
}

fn path_type(names: &[&str]) -> PathType {
    PathType { qself: None, path: Path { loc: loc(), segments: names.iter().map(|n| seg(n)).collect() } }
}

fn ty(kind: TypeKind) -> Type {
    Type { loc: loc(), ty: kind }
}

fn lit(s: &str) -> Expr {
    Expr { loc: loc(), attrs: vec![], expr: ExprKind::Literal(Chunk::new(s)) }
}

#[test]
fn chunk_new_holds_the_text() {
    let c = Chunk::new("abc");
    assert_eq!(c.s, "abc");
    assert_eq!((c.loc.start, c.loc.end, c.loc.nl), (0, 0, false));
}

#[test]
fn emptiness_of_generics_and_params() {
    let g = Generics { lifetime_defs: vec![], type_params: vec![], wh: Where { clauses: vec![] } };
    assert!(g.is_empty());
    assert!(g.wh.is_empty());
    assert!(TypeParamBounds(vec![]).is_empty());
    assert!(AngleParam::empty().is_empty());
    assert!(seg("a").is_empty());
    let p = ParenParam { loc: loc(), inputs: vec![ty(TypeKind::Symbol("u8"))], output: None };
    assert!(!p.is_empty());
    let s = PathSegment { name: "Fn".to_string(), param: PathParam::Paren(p) };
    assert!(!s.is_empty());
}

#[test]
fn sized_bound() {
    let p = PolyTraitRef::new_sized(Loc { start: 3, end: 9, nl: true });
    assert_eq!((p.loc.start, p.loc.end, p.loc.nl), (3, 9, true));
    assert_eq!(p.trait_ref.segments.len(), 1);
    assert_eq!(p.trait_ref.segments[0].name, "?Sized");
    assert!(p.lifetime_defs.is_empty());
}

#[test]
fn one_literal_block() {
    let b = Block { loc: loc(), is_unsafe: false, stmts: vec![Stmt { loc: loc(), stmt: StmtKind::Expr(lit("1"), false) }] };
    assert!(b.is_one_literal_expr());
    let empty = Block { loc: loc(), is_unsafe: false, stmts: vec![] };
    assert!(!empty.is_one_literal_expr());
}

#[test]
fn heads() {
    assert_eq!(fn_head(true, true, "\"C\""), "unsafe const extern fn");
    assert_eq!(fn_head(false, false, "\"Rust\""), "fn");
    assert_eq!(fn_head(false, false, "\"system\""), "extern \"system\" fn");
    assert_eq!(foreign_head("\"C\""), "extern");
    assert_eq!(foreign_head("\"system\""), "extern \"system\"");
    assert_eq!(ref_head(&Some(Chunk::new("'a")), true), "&'a mut ");
    assert_eq!(ref_head(&None, false), "&");
}

#[test]
fn display_of_types() {
    let r = ty(TypeKind::Ref(Box::new(RefType {
        lifetime: None,
        is_mut: true,
        ty: ty(TypeKind::Path(Box::new(path_type(&["std", "String"])))),
    })));
    assert_eq!(display_type(&r), "&mut std::String");
    let q = PathType {
        qself: Some(QSelf { ty: ty(TypeKind::Symbol("T")), pos: 1 }),
        path: Path { loc: loc(), segments: vec![seg("Iterator"), seg("Item")] },
    };
    assert_eq!(display_path_type(&q), "<T as Iterator>::Item");
    let f = TupleField { loc: loc(), attrs: vec![], vis: "pub".to_string(), ty: ty(TypeKind::Symbol("u8")) };
    assert_eq!(display_tuple_field(&f), "pub u8");
}

#[test]
fn display_of_expressions() {
    let range = Expr {
        loc: loc(),
        attrs: vec![],
        expr: ExprKind::Range(Box::new(RangeExpr { start: Some(lit("0")), end: Some(lit("n")), is_inclusive: true })),
    };
    assert_eq!(display_expr(&range), "0..n");
    let tuple = Expr { loc: loc(), attrs: vec![], expr: ExprKind::Tuple(Box::new(vec![lit("1"), lit("2")])) };
    assert_eq!(display_expr(&tuple), "(1, 2)");
}
