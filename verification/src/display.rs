//! The one-line text of IR nodes.
//!
//! The formatter measures these texts to decide where to break lines, and
//! sorts attributes and `extern crate` / `use` / `mod` declarations by them.
//! Nodes that span lines in the output (blocks, struct literal and pattern
//! bodies, match arms) show their body as `{ .. }` here.

use crate::ir::{
    Arg, Attr, Chunk, Expr, ExprKind, ExternCrate, FnSig, Lifetime, LifetimeDef, Macro, MacroSep,
    MacroStyle, MetaItem, ModDecl, Path, PathParam, PathSegment, PathType, Patten, PattenKind,
    PolyTraitRef, QSelf, Return, Type, TypeBinding, TypeBindingKind, TypeKind, TypeParam,
    TypeParamBound, TypeParamBounds, Use, UseTree, Where, WhereBound, WhereClause, WhereKind,
    AngleParam, ParenParam, Block, MethodCallExpr, TupleField,
};
use vstd::prelude::*;

verus! {

// ---------------------------------------------------------------------------
// Heads
// ---------------------------------------------------------------------------

pub open spec fn s_ptr_head(is_mut: bool) -> Seq<char> {
    if is_mut {
        "*mut "@
    } else {
        "*const "@
    }
}

pub open spec fn s_static_head(is_mut: bool) -> Seq<char> {
    if is_mut {
        "static mut "@
    } else {
        "static "@
    }
}

pub open spec fn s_ref_head(lifetime: Option<Lifetime>, is_mut: bool) -> Seq<char> {
    "&"@ + (match lifetime {
        Some(l) => l.s@ + " "@,
        None => Seq::<char>::empty(),
    }) + (if is_mut {
        "mut "@
    } else {
        Seq::<char>::empty()
    })
}

pub open spec fn s_foreign_head(abi: Seq<char>) -> Seq<char> {
    "extern"@ + (if abi != "\"C\""@ {
        " "@ + abi
    } else {
        Seq::<char>::empty()
    })
}

pub open spec fn s_extern_head(abi: Seq<char>) -> Seq<char> {
    if abi != "\"Rust\""@ {
        "extern "@ + (if abi != "\"C\""@ {
            abi + " "@
        } else {
            Seq::<char>::empty()
        })
    } else {
        Seq::<char>::empty()
    }
}

pub open spec fn s_fn_head(is_unsafe: bool, is_const: bool, abi: Seq<char>) -> Seq<char> {
    (if is_unsafe {
        "unsafe "@
    } else {
        Seq::<char>::empty()
    }) + (if is_const {
        "const "@
    } else {
        Seq::<char>::empty()
    }) + s_extern_head(abi) + "fn"@
}

pub open spec fn s_ident_patten_head(is_ref: bool, is_mut: bool) -> Seq<char> {
    (if is_ref {
        "ref "@
    } else {
        Seq::<char>::empty()
    }) + (if is_mut {
        "mut "@
    } else {
        Seq::<char>::empty()
    })
}

/// `a` and `b` joined by ", ", leaving out either one whose list is empty.
pub open spec fn s_combine(a: Seq<char>, has_a: bool, b: Seq<char>, has_b: bool) -> Seq<char> {
    if has_a && has_b {
        a + ", "@ + b
    } else if has_a {
        a
    } else {
        b
    }
}

pub open spec fn s_opt_label(label: Option<String>) -> Seq<char> {
    match label {
        Some(l) => l@ + ": "@,
        None => Seq::<char>::empty(),
    }
}
pub open spec fn s_macro_delims(style: MacroStyle) -> (Seq<char>, Seq<char>) {
    match style {
        MacroStyle::Paren => ("("@, ")"@),
        MacroStyle::Bracket => ("["@, "]"@),
        MacroStyle::Brace => ("{"@, "}"@),
    }
}

pub open spec fn s_macro_sep(sep: MacroSep) -> Seq<char> {
    sep.s@ + (if sep.is_sep {
        " "@
    } else {
        Seq::<char>::empty()
    })
}

// ---------------------------------------------------------------------------
// Attributes and declarations
// ---------------------------------------------------------------------------

pub closed spec fn s_chunks(v: Seq<Chunk>, sep: Seq<char>) -> Seq<char>
    decreases v.len(),
{
    if v.len() == 0 {
        Seq::<char>::empty()
    } else if v.len() == 1 {
        v[0].s@
    } else {
        s_chunks(v.drop_last(), sep) + sep + v.last().s@
    }
}

pub closed spec fn s_meta_item(m: MetaItem) -> Seq<char>
    decreases m,
{
    m.name@ + match m.items {
        Some(items) => "("@ + s_meta_items(items@) + ")"@,
        None => Seq::<char>::empty(),
    }
}

pub closed spec fn s_meta_items(v: Seq<MetaItem>) -> Seq<char>
    decreases v,
{
    if v.len() == 0 {
        Seq::<char>::empty()
    } else if v.len() == 1 {
        s_meta_item(v[0])
    } else {
        s_meta_items(v.drop_last()) + ", "@ + s_meta_item(v.last())
    }
}

pub open spec fn s_attr(a: Attr) -> Seq<char> {
    "#"@ + (if a.is_inner {
        "!"@
    } else {
        Seq::<char>::empty()
    }) + "["@ + s_meta_item(a.item) + "]"@
}

pub open spec fn s_extern_crate(e: ExternCrate) -> Seq<char> {
    "extern crate "@ + e.name@
}

pub open spec fn s_mod_decl(m: ModDecl) -> Seq<char> {
    "mod "@ + m.name@
}

pub closed spec fn s_use_tree_body(path: Seq<char>, trees: Option<Vec<UseTree>>) -> Seq<char>
    decreases trees,
{
    path + match trees {
        Some(v) => if v@.len() == 0 {
            Seq::<char>::empty()
        } else if v@.len() == 1 {
            "::"@ + s_use_tree(v@[0])
        } else {
            "::{"@ + s_use_trees(v@) + "}"@
        },
        None => Seq::<char>::empty(),
    }
}

pub closed spec fn s_use_tree(t: UseTree) -> Seq<char>
    decreases t,
{
    s_use_tree_body(t.path@, t.trees)
}

pub closed spec fn s_use_trees(v: Seq<UseTree>) -> Seq<char>
    decreases v,
{
    if v.len() == 0 {
        Seq::<char>::empty()
    } else if v.len() == 1 {
        s_use_tree(v[0])
    } else {
        s_use_trees(v.drop_last()) + ", "@ + s_use_tree(v.last())
    }
}

pub open spec fn s_use(u: Use) -> Seq<char> {
    "use "@ + s_use_tree_body(u.path@, u.trees)
}

// ---------------------------------------------------------------------------
// Generics, paths, types, patterns and expressions
// ---------------------------------------------------------------------------

pub open spec fn s_lifetime_def(l: LifetimeDef) -> Seq<char> {
    l.lifetime.s@ + (if l.bounds@.len() > 0 {
        ": "@ + s_chunks(l.bounds@, " + "@)
    } else {
        Seq::<char>::empty()
    })
}

pub closed spec fn s_lifetime_defs(v: Seq<LifetimeDef>) -> Seq<char>
    decreases v.len(),
{
    if v.len() == 0 {
        Seq::<char>::empty()
    } else if v.len() == 1 {
        s_lifetime_def(v[0])
    } else {
        s_lifetime_defs(v.drop_last()) + ", "@ + s_lifetime_def(v.last())
    }
}

pub open spec fn s_for_lifetime_defs(v: Seq<LifetimeDef>) -> Seq<char> {
    if v.len() > 0 {
        "for<"@ + s_lifetime_defs(v) + "> "@
    } else {
        Seq::<char>::empty()
    }
}

pub closed spec fn s_type_param(p: TypeParam) -> Seq<char>
    decreases p,
{
    p.name@ + (if p.bounds.0@.len() > 0 {
        ": "@ + s_bounds(p.bounds)
    } else {
        Seq::<char>::empty()
    }) + match p.default {
        Some(t) => " = "@ + s_type(t),
        None => Seq::<char>::empty(),
    }
}

pub closed spec fn s_type_params(v: Seq<TypeParam>) -> Seq<char>
    decreases v,
{
    if v.len() == 0 {
        Seq::<char>::empty()
    } else if v.len() == 1 {
        s_type_param(v[0])
    } else {
        s_type_params(v.drop_last()) + ", "@ + s_type_param(v.last())
    }
}

pub closed spec fn s_bounds(b: TypeParamBounds) -> Seq<char>
    decreases b,
{
    s_bound_list(b.0@)
}

pub closed spec fn s_bound_list(v: Seq<TypeParamBound>) -> Seq<char>
    decreases v,
{
    if v.len() == 0 {
        Seq::<char>::empty()
    } else if v.len() == 1 {
        s_bound(v[0])
    } else {
        s_bound_list(v.drop_last()) + " + "@ + s_bound(v.last())
    }
}

pub closed spec fn s_bound(b: TypeParamBound) -> Seq<char>
    decreases b,
{
    match b {
        TypeParamBound::Lifetime(l) => l.s@,
        TypeParamBound::PolyTraitRef(p) => s_poly_trait_ref(p),
    }
}

pub closed spec fn s_poly_trait_ref(p: PolyTraitRef) -> Seq<char>
    decreases p,
{
    s_for_lifetime_defs(p.lifetime_defs@) + s_path(p.trait_ref)
}

pub closed spec fn s_where(w: Where) -> Seq<char>
    decreases w,
{
    s_where_clauses(w.clauses@)
}

pub closed spec fn s_where_clauses(v: Seq<WhereClause>) -> Seq<char>
    decreases v,
{
    if v.len() == 0 {
        Seq::<char>::empty()
    } else if v.len() == 1 {
        s_where_clause(v[0])
    } else {
        s_where_clauses(v.drop_last()) + ", "@ + s_where_clause(v.last())
    }
}

pub closed spec fn s_where_clause(c: WhereClause) -> Seq<char>
    decreases c,
{
    match c.clause {
        WhereKind::LifetimeDef(l) => s_lifetime_def(l),
        WhereKind::Bound(b) => s_where_bound(b),
    }
}

pub closed spec fn s_where_bound(b: WhereBound) -> Seq<char>
    decreases b,
{
    s_for_lifetime_defs(b.lifetime_defs@) + s_type(b.ty) + ": "@ + s_bounds(b.bounds)
}

pub closed spec fn s_path(p: Path) -> Seq<char>
    decreases p,
{
    s_segments(p.segments@)
}

/// The segments joined by `::`.
pub closed spec fn s_segments(v: Seq<PathSegment>) -> Seq<char>
    decreases v,
{
    if v.len() == 0 {
        Seq::<char>::empty()
    } else if v.len() == 1 {
        s_segment(v[0])
    } else {
        s_segments(v.drop_last()) + "::"@ + s_segment(v.last())
    }
}

pub closed spec fn s_segment(seg: PathSegment) -> Seq<char>
    decreases seg,
{
    seg.name@ + s_path_param(seg.param)
}

pub closed spec fn s_path_param(p: PathParam) -> Seq<char>
    decreases p,
{
    match p {
        PathParam::Angle(a) => s_angle_param(a),
        PathParam::Paren(pp) => s_paren_param(pp),
    }
}

pub closed spec fn s_angle_param(a: AngleParam) -> Seq<char>
    decreases a,
{
    let nl = a.lifetimes@.len() > 0;
    let nt = a.types@.len() > 0;
    let nb = a.bindings@.len() > 0;
    if !nl && !nt && !nb {
        Seq::<char>::empty()
    } else {
        "<"@ + s_combine(
            s_combine(s_chunks(a.lifetimes@, ", "@), nl, s_types(a.types@), nt),
            nl || nt,
            s_bindings(a.bindings@),
            nb,
        ) + ">"@
    }
}

pub closed spec fn s_bindings(v: Seq<TypeBinding>) -> Seq<char>
    decreases v,
{
    if v.len() == 0 {
        Seq::<char>::empty()
    } else if v.len() == 1 {
        s_binding(v[0])
    } else {
        s_bindings(v.drop_last()) + ", "@ + s_binding(v.last())
    }
}

pub closed spec fn s_binding(b: TypeBinding) -> Seq<char>
    decreases b,
{
    b.name@ + match b.binding {
        TypeBindingKind::Eq(t) => " = "@ + s_type(t),
        TypeBindingKind::Bound(bs) => ": "@ + s_bounds(bs),
    }
}

pub closed spec fn s_paren_param(p: ParenParam) -> Seq<char>
    decreases p,
{
    "("@ + s_types(p.inputs@) + ")"@ + match p.output {
        Some(t) => " -> "@ + s_type(t),
        None => Seq::<char>::empty(),
    }
}

/// The position in the path where the qualified-self part ends; a position
/// past the end counts as the end.
pub open spec fn qself_split(q: QSelf, p: Path) -> int {
    if q.pos <= p.segments@.len() {
        q.pos as int
    } else {
        p.segments@.len() as int
    }
}

pub closed spec fn s_path_type(pt: PathType) -> Seq<char>
    decreases pt,
{
    match pt.qself {
        Some(q) => {
            let k = qself_split(q, pt.path);
            let segs = pt.path.segments@;
            "<"@ + s_type(q.ty) + (if q.pos > 0 {
                " as "@ + (if k == segs.len() {
                    s_segments(segs)
                } else {
                    s_segments(segs.subrange(0, k))
                })
            } else {
                Seq::<char>::empty()
            }) + ">"@ + "::"@ + (if k == 0 {
                s_segments(segs)
            } else {
                s_segments(segs.subrange(k, segs.len() as int))
            })
        },
        None => s_path(pt.path),
    }
}

pub closed spec fn s_types(v: Seq<Type>) -> Seq<char>
    decreases v,
{
    if v.len() == 0 {
        Seq::<char>::empty()
    } else if v.len() == 1 {
        s_type(v[0])
    } else {
        s_types(v.drop_last()) + ", "@ + s_type(v.last())
    }
}

pub closed spec fn s_type(t: Type) -> Seq<char>
    decreases t,
{
    match t.ty {
        TypeKind::Symbol(s) => s@,
        TypeKind::Path(pt) => s_path_type(*pt),
        TypeKind::Ptr(p) => s_ptr_head(p.is_mut) + s_type(p.ty),
        TypeKind::Ref(r) => s_ref_head(r.lifetime, r.is_mut) + s_type(r.ty),
        TypeKind::Tuple(tt) => "("@ + s_types(tt.types@) + ")"@,
        TypeKind::Slice(st) => "["@ + s_type(st.ty) + "]"@,
        TypeKind::Array(a) => "["@ + s_type(a.ty) + "; "@ + s_expr(a.expr) + "]"@,
        TypeKind::Trait(tr) => (if tr.is_dyn {
            "dyn "@
        } else {
            Seq::<char>::empty()
        }) + (if tr.is_impl {
            "impl "@
        } else {
            Seq::<char>::empty()
        }) + s_bounds(tr.bounds),
        TypeKind::BareFn(b) => s_for_lifetime_defs(b.lifetime_defs@) + s_fn_head(
            b.header.is_unsafe,
            false,
            b.header.abi@,
        ) + s_fn_sig(b.sig),
        TypeKind::Macro(m) => s_macro(m),
    }
}

pub closed spec fn s_fn_sig(sig: FnSig) -> Seq<char>
    decreases sig,
{
    "("@ + s_args(sig.args@) + ")"@ + s_return(sig.ret)
}

pub closed spec fn s_args(v: Seq<Arg>) -> Seq<char>
    decreases v,
{
    if v.len() == 0 {
        Seq::<char>::empty()
    } else if v.len() == 1 {
        s_arg(v[0])
    } else {
        s_args(v.drop_last()) + ", "@ + s_arg(v.last())
    }
}

pub closed spec fn s_arg(a: Arg) -> Seq<char>
    decreases a,
{
    if a.has_patten {
        s_patten(a.patten) + ": "@ + s_type(a.ty)
    } else {
        s_type(a.ty)
    }
}

pub closed spec fn s_return(r: Return) -> Seq<char>
    decreases r,
{
    match r.ret {
        Some(t) => " -> "@ + s_type(t),
        None => Seq::<char>::empty(),
    }
}

pub closed spec fn s_pattens(v: Seq<Patten>, sep: Seq<char>) -> Seq<char>
    decreases v,
{
    if v.len() == 0 {
        Seq::<char>::empty()
    } else if v.len() == 1 {
        s_patten(v[0])
    } else {
        s_pattens(v.drop_last(), sep) + sep + s_patten(v.last())
    }
}

pub closed spec fn s_patten(p: Patten) -> Seq<char>
    decreases p,
{
    match p.patten {
        PattenKind::Wildcard => "_"@,
        PattenKind::Symbol(s) => s@,
        PattenKind::Literal(e) => s_expr(e),
        PattenKind::Range(r) => s_expr(r.start) + "..."@ + s_expr(r.end),
        PattenKind::Ref(r) => s_ref_head(None, r.is_mut) + s_patten(r.patten),
        PattenKind::Path(pt) => s_path_type(pt),
        PattenKind::Ident(i) => s_ident_patten_head(i.is_ref, i.is_mut) + i.name@ + match i.patten {
            Some(sub) => " @ "@ + s_patten(sub),
            None => Seq::<char>::empty(),
        },
        PattenKind::Struct(sp) => s_path(sp.path) + " { .. }"@,
        PattenKind::Enum(ep) => s_path(ep.path) + (if ep.pattens@.len() > 0 {
            "("@ + s_pattens(ep.pattens@, ", "@) + ")"@
        } else {
            Seq::<char>::empty()
        }),
        PattenKind::Tuple(tp) => "("@ + s_pattens(tp.pattens@, ", "@) + ")"@,
        PattenKind::Slice(sp) => "["@ + s_pattens(sp.pattens@, ", "@) + "]"@,
        PattenKind::Macro(m) => s_macro(m),
    }
}

pub closed spec fn s_exprs(v: Seq<Expr>, sep: Seq<char>) -> Seq<char>
    decreases v,
{
    if v.len() == 0 {
        Seq::<char>::empty()
    } else if v.len() == 1 {
        s_expr(v[0])
    } else {
        s_exprs(v.drop_last(), sep) + sep + s_expr(v.last())
    }
}

pub closed spec fn s_opt_expr(e: Option<Expr>, before: Seq<char>) -> Seq<char>
    decreases e,
{
    match e {
        Some(x) => before + s_expr(x),
        None => Seq::<char>::empty(),
    }
}

pub open spec fn s_block(b: Block) -> Seq<char> {
    (if b.is_unsafe {
        "unsafe "@
    } else {
        Seq::<char>::empty()
    }) + (if b.stmts@.len() == 0 {
        "{}"@
    } else {
        "{ .. }"@
    })
}

/// The method's receiver is the first argument.
pub closed spec fn s_method_call(m: MethodCallExpr) -> Seq<char>
    decreases m,
{
    let args = m.args@;
    if args.len() == 0 {
        s_method_name(m.path) + "()"@
    } else {
        s_expr(args[0]) + "."@ + s_method_name(m.path) + "("@ + s_exprs(
            args.subrange(1, args.len() as int),
            ", "@,
        ) + ")"@
    }
}

/// A method's name, with its generic arguments in turbofish form.
pub closed spec fn s_method_name(path: PathSegment) -> Seq<char>
    decreases path,
{
    path.name@ + (if s_path_param(path.param).len() > 0 {
        "::"@ + s_path_param(path.param)
    } else {
        Seq::<char>::empty()
    })
}

pub closed spec fn s_closure_args(v: Seq<Arg>) -> Seq<char>
    decreases v,
{
    if v.len() == 0 {
        Seq::<char>::empty()
    } else if v.len() == 1 {
        s_closure_arg(v[0])
    } else {
        s_closure_args(v.drop_last()) + ", "@ + s_closure_arg(v.last())
    }
}

/// A closure argument leaves out an inferred type.
pub closed spec fn s_closure_arg(a: Arg) -> Seq<char>
    decreases a,
{
    s_patten(a.patten) + match a.ty.ty {
        TypeKind::Symbol(s) => if s@ == "_"@ {
            Seq::<char>::empty()
        } else {
            ": "@ + s_type(a.ty)
        },
        _ => ": "@ + s_type(a.ty),
    }
}

pub closed spec fn s_expr(e: Expr) -> Seq<char>
    decreases e,
{
    match e.expr {
        ExprKind::Literal(c) => c.s@,
        ExprKind::Path(pt) => s_path_type(pt),
        ExprKind::Ref(r) => s_ref_head(None, r.is_mut) + s_expr(r.expr),
        ExprKind::UnaryOp(u) => u.op@ + s_expr(u.expr),
        ExprKind::Try(x) => s_expr(*x) + "?"@,
        ExprKind::ListOp(l) => s_exprs(l.exprs@, " "@ + l.op.s@ + " "@),
        ExprKind::Repeat(r) => "["@ + s_expr(r.value) + "; "@ + s_expr(r.len) + "]"@,
        ExprKind::Array(v) => "["@ + s_exprs((*v)@, ", "@) + "]"@,
        ExprKind::Tuple(v) => "("@ + s_exprs((*v)@, ", "@) + ")"@,
        ExprKind::Index(i) => s_expr(i.obj) + "["@ + s_expr(i.index) + "]"@,
        ExprKind::Struct(st) => s_path(st.path) + " { .. }"@,
        ExprKind::Field(f) => s_expr(f.expr) + "."@ + f.field@,
        ExprKind::Type(t) => s_expr(t.expr) + ": "@ + s_type(t.ty),
        ExprKind::Cast(c) => s_expr(c.expr) + " as "@ + s_type(c.ty),
        ExprKind::Range(r) => s_opt_expr(r.start, Seq::<char>::empty()) + ".."@
            + s_opt_expr(r.end, Seq::<char>::empty()),
        ExprKind::Block(b) => s_opt_label(b.label) + s_block(b.block),
        ExprKind::If(i) => "if "@ + s_expr(i.expr) + " "@ + s_block(i.block) + s_opt_expr(
            i.br,
            " else "@,
        ),
        ExprKind::While(w) => s_opt_label(w.label) + "while "@ + s_expr(w.expr) + " "@ + s_block(
            w.block,
        ),
        ExprKind::Let(l) => "let "@ + s_pattens(l.pattens@, " | "@) + " = "@ + s_expr(l.expr),
        ExprKind::For(f) => s_opt_label(f.label) + "for "@ + s_patten(f.patten) + " in "@ + s_expr(
            f.expr,
        ) + " "@ + s_block(f.block),
        ExprKind::Loop(l) => s_opt_label(l.label) + "loop "@ + s_block(l.block),
        ExprKind::Break(b) => "break"@ + match b.label {
            Some(l) => " "@ + l@,
            None => Seq::<char>::empty(),
        } + s_opt_expr(b.expr, " "@),
        ExprKind::Continue(c) => "continue"@ + match c.label {
            Some(l) => " "@ + l@,
            None => Seq::<char>::empty(),
        },
        ExprKind::Match(m) => "match "@ + s_expr(m.expr) + " { .. }"@,
        ExprKind::FnCall(f) => s_expr(f.name) + "("@ + s_exprs(f.args@, ", "@) + ")"@,
        ExprKind::MethodCall(m) => s_method_call(*m),
        ExprKind::Closure(c) => (if c.is_static {
            "static "@
        } else {
            Seq::<char>::empty()
        }) + (if c.is_async {
            "async "@
        } else {
            Seq::<char>::empty()
        }) + (if c.is_move {
            "move "@
        } else {
            Seq::<char>::empty()
        }) + "|"@ + s_closure_args(c.sig.args@) + "|"@ + s_return(c.sig.ret) + " "@ + s_expr(c.expr),
        ExprKind::Return(r) => "return"@ + s_opt_expr(r.ret, " "@),
        ExprKind::Macro(m) => s_macro(m),
    }
}

/// The macro's arguments: each after the first is preceded by its separator;
/// where a separator is missing, none is written.
pub closed spec fn s_macro_args(exprs: Seq<Expr>, seps: Seq<MacroSep>) -> Seq<char>
    decreases exprs,
{
    if exprs.len() == 0 {
        Seq::<char>::empty()
    } else if exprs.len() == 1 {
        s_expr(exprs[0])
    } else {
        let k = exprs.len() - 2;
        s_macro_args(exprs.drop_last(), seps) + (if k < seps.len() {
            s_macro_sep(seps[k])
        } else {
            Seq::<char>::empty()
        }) + s_expr(exprs.last())
    }
}

pub closed spec fn s_macro(m: Macro) -> Seq<char>
    decreases m,
{
    m.name@ + "!"@ + s_macro_delims(m.style).0 + s_macro_args(m.exprs@, m.seps@) + s_macro_delims(
        m.style,
    ).1
}

// ---------------------------------------------------------------------------
// The texts, computed
// ---------------------------------------------------------------------------

/// `a == b` on strings.
pub fn str_eq(a: &str, b: &str) -> (r: bool)
    ensures
        r == (a@ == b@),
{
    a.to_owned() == b.to_owned()
}

pub fn ptr_head(is_mut: bool) -> (r: &'static str)
    ensures
        r@ == s_ptr_head(is_mut),
{
    if is_mut {
        "*mut "
    } else {
        "*const "
    }
}

pub fn static_head(is_mut: bool) -> (r: &'static str)
    ensures
        r@ == s_static_head(is_mut),
{
    if is_mut {
        "static mut "
    } else {
        "static "
    }
}

pub fn ref_head(lifetime: &Option<Lifetime>, is_mut: bool) -> (r: String)
    ensures
        r@ == s_ref_head(*lifetime, is_mut),
{
    let mut head = String::new();
    head.append("&");
    if let Some(lifetime) = lifetime {
        head.append(lifetime.s.as_str());
        head.append(" ");
    }
    if is_mut {
        head.append("mut ");
    }
    head
}

pub fn foreign_head(abi: &str) -> (r: String)
    ensures
        r@ == s_foreign_head(abi@),
{
    let mut head = String::new();
    head.append("extern");
    if !str_eq(abi, "\"C\"") {
        head.append(" ");
        head.append(abi);
    }
    head
}

pub fn extern_head(abi: &str) -> (r: String)
    ensures
        r@ == s_extern_head(abi@),
{
    let mut head = String::new();
    if !str_eq(abi, "\"Rust\"") {
        head.append("extern ");
        if !str_eq(abi, "\"C\"") {
            head.append(abi);
            head.append(" ");
        }
    }
    head
}

pub fn fn_head(is_unsafe: bool, is_const: bool, abi: &str) -> (r: String)
    ensures
        r@ == s_fn_head(is_unsafe, is_const, abi@),
{
    let mut head = String::new();
    if is_unsafe {
        head.append("unsafe ");
    }
    if is_const {
        head.append("const ");
    }
    let e = extern_head(abi);
    head.append(e.as_str());
    head.append("fn");
    head
}

pub fn ident_patten_head(is_ref: bool, is_mut: bool) -> (r: String)
    ensures
        r@ == s_ident_patten_head(is_ref, is_mut),
{
    let mut head = String::new();
    if is_ref {
        head.append("ref ");
    }
    if is_mut {
        head.append("mut ");
    }
    head
}

fn combine(a: String, has_a: bool, b: String, has_b: bool) -> (r: String)
    ensures
        r@ == s_combine(a@, has_a, b@, has_b),
{
    if has_a && has_b {
        let mut r = a;
        r.append(", ");
        r.append(b.as_str());
        r
    } else if has_a {
        a
    } else {
        b
    }
}
fn opt_label(label: &Option<String>) -> (r: String)
    ensures
        r@ == s_opt_label(*label),
{
    let mut r = String::new();
    if let Some(l) = label {
        r.append(l.as_str());
        r.append(": ");
    }
    r
}

pub fn display_chunk(c: &Chunk) -> (r: String)
    ensures
        r@ == c.s@,
{
    c.s.clone()
}

pub fn display_attr(a: &Attr) -> (r: String)
    ensures
        r@ == s_attr(*a),
{
    let mut r = String::new();
    r.append("#");
    if a.is_inner {
        r.append("!");
    }
    r.append("[");
    let m = display_meta_item(&a.item);
    r.append(m.as_str());
    r.append("]");
    r
}

pub fn display_meta_item(m: &MetaItem) -> (r: String)
    ensures
        r@ == s_meta_item(*m),
    decreases m, 0nat,
{
    let mut r = m.name.clone();
    if let Some(items) = &m.items {
        r.append("(");
        let x = display_meta_items(items);
        r.append(x.as_str());
        r.append(")");
    }
    r
}

pub fn display_extern_crate(e: &ExternCrate) -> (r: String)
    ensures
        r@ == s_extern_crate(*e),
{
    let mut r = String::new();
    r.append("extern crate ");
    r.append(e.name.as_str());
    r
}

pub fn display_mod_decl(m: &ModDecl) -> (r: String)
    ensures
        r@ == s_mod_decl(*m),
{
    let mut r = String::new();
    r.append("mod ");
    r.append(m.name.as_str());
    r
}

pub fn display_use(u: &Use) -> (r: String)
    ensures
        r@ == s_use(*u),
{
    let mut r = String::new();
    r.append("use ");
    let b = display_use_tree_body(&u.path, &u.trees);
    r.append(b.as_str());
    r
}

pub fn display_use_tree_body(path: &String, trees: &Option<Vec<UseTree>>) -> (r: String)
    ensures
        r@ == s_use_tree_body(path@, *trees),
    decreases trees, 0nat,
{
    let mut r = path.clone();
    if let Some(v) = trees {
        if v.len() == 1 {
            r.append("::");
            let x = display_use_tree(&v[0]);
            r.append(x.as_str());
        } else if v.len() > 1 {
            r.append("::{");
            let x = display_use_trees(v);
            r.append(x.as_str());
            r.append("}");
        }
    }
    r
}

pub fn display_use_tree(t: &UseTree) -> (r: String)
    ensures
        r@ == s_use_tree(*t),
    decreases t, 0nat,
{
    display_use_tree_body(&t.path, &t.trees)
}

pub fn display_lifetime_def(l: &LifetimeDef) -> (r: String)
    ensures
        r@ == s_lifetime_def(*l),
{
    let mut r = l.lifetime.s.clone();
    if l.bounds.len() > 0 {
        r.append(": ");
        let x = display_chunks(&l.bounds, " + ");
        r.append(x.as_str());
    }
    r
}

pub fn display_for_liftime_defs(v: &Vec<LifetimeDef>) -> (r: String)
    ensures
        r@ == s_for_lifetime_defs(v@),
{
    let mut r = String::new();
    if v.len() > 0 {
        r.append("for<");
        let x = display_lifetime_defs(v);
        r.append(x.as_str());
        r.append("> ");
    }
    r
}

#[verifier::rlimit(40)]
pub fn display_type_param(p: &TypeParam) -> (r: String)
    ensures
        r@ == s_type_param(*p),
    decreases p, 0nat,
{
    let mut r = p.name.clone();
    if p.bounds.0.len() > 0 {
        r.append(": ");
        let x = display_type_param_bounds(&p.bounds);
        r.append(x.as_str());
    }
    if let Some(t) = &p.default {
        r.append(" = ");
        let x = display_type(t);
        r.append(x.as_str());
    }
    r
}

pub fn display_type_param_bounds(b: &TypeParamBounds) -> (r: String)
    ensures
        r@ == s_bounds(*b),
    decreases b, 0nat,
{
    display_bound_list(&b.0)
}

pub fn display_bound(b: &TypeParamBound) -> (r: String)
    ensures
        r@ == s_bound(*b),
    decreases b, 0nat,
{
    match b {
        TypeParamBound::Lifetime(l) => l.s.clone(),
        TypeParamBound::PolyTraitRef(p) => display_poly_trait_ref(p),
    }
}

pub fn display_poly_trait_ref(p: &PolyTraitRef) -> (r: String)
    ensures
        r@ == s_poly_trait_ref(*p),
    decreases p, 0nat,
{
    let mut r = display_for_liftime_defs(&p.lifetime_defs);
    let x = display_path(&p.trait_ref);
    r.append(x.as_str());
    r
}

pub fn display_where(w: &Where) -> (r: String)
    ensures
        r@ == s_where(*w),
    decreases w, 0nat,
{
    display_where_clauses(&w.clauses)
}

pub fn display_where_clause(c: &WhereClause) -> (r: String)
    ensures
        r@ == s_where_clause(*c),
    decreases c, 0nat,
{
    match &c.clause {
        WhereKind::LifetimeDef(l) => display_lifetime_def(l),
        WhereKind::Bound(b) => display_where_bound(b),
    }
}

pub fn display_where_bound(b: &WhereBound) -> (r: String)
    ensures
        r@ == s_where_bound(*b),
    decreases b, 0nat,
{
    let mut r = display_for_liftime_defs(&b.lifetime_defs);
    let t = display_type(&b.ty);
    r.append(t.as_str());
    r.append(": ");
    let x = display_type_param_bounds(&b.bounds);
    r.append(x.as_str());
    r
}

pub fn display_path(p: &Path) -> (r: String)
    ensures
        r@ == s_path(*p),
    decreases p, 0nat,
{
    display_path_segments(&p.segments)
}

pub fn display_segment(seg: &PathSegment) -> (r: String)
    ensures
        r@ == s_segment(*seg),
    decreases seg, 0nat,
{
    let mut r = seg.name.clone();
    let x = display_path_param(&seg.param);
    r.append(x.as_str());
    r
}

pub fn display_path_param(p: &PathParam) -> (r: String)
    ensures
        r@ == s_path_param(*p),
    decreases p, 0nat,
{
    match p {
        PathParam::Angle(a) => display_angle_param(a),
        PathParam::Paren(pp) => display_paren_param(pp),
    }
}

pub fn display_angle_param(a: &AngleParam) -> (r: String)
    ensures
        r@ == s_angle_param(*a),
    decreases a, 0nat,
{
    let nl = a.lifetimes.len() > 0;
    let nt = a.types.len() > 0;
    let nb = a.bindings.len() > 0;
    if !nl && !nt && !nb {
        return String::new();
    }
    let l = display_chunks(&a.lifetimes, ", ");
    let t = display_types(&a.types);
    let b = display_bindings(&a.bindings);
    let lt = combine(l, nl, t, nt);
    let all = combine(lt, nl || nt, b, nb);
    let mut r = String::new();
    r.append("<");
    r.append(all.as_str());
    r.append(">");
    r
}

pub fn display_binding(b: &TypeBinding) -> (r: String)
    ensures
        r@ == s_binding(*b),
    decreases b, 0nat,
{
    let mut r = b.name.clone();
    match &b.binding {
        TypeBindingKind::Eq(t) => {
            r.append(" = ");
            let x = display_type(t);
            r.append(x.as_str());
        },
        TypeBindingKind::Bound(bs) => {
            r.append(": ");
            let x = display_type_param_bounds(bs);
            r.append(x.as_str());
        },
    }
    r
}

pub fn display_paren_param(p: &ParenParam) -> (r: String)
    ensures
        r@ == s_paren_param(*p),
    decreases p, 0nat,
{
    let mut r = display_paren_param_inputs(&p.inputs);
    if let Some(t) = &p.output {
        r.append(" -> ");
        let x = display_type(t);
        r.append(x.as_str());
    }
    r
}

pub fn display_paren_param_inputs(inputs: &Vec<Type>) -> (r: String)
    ensures
        r@ == "("@ + s_types(inputs@) + ")"@,
    decreases inputs, 1nat,
{
    let mut r = String::new();
    r.append("(");
    let x = display_types(inputs);
    r.append(x.as_str());
    r.append(")");
    r
}

/// `segs[lo..hi]` joined by `::`.
fn display_segment_range(segs: &Vec<PathSegment>, lo: usize, hi: usize) -> (r: String)
    requires
        lo <= hi <= segs@.len(),
    ensures
        r@ == s_segments(segs@.subrange(lo as int, hi as int)),
    decreases segs, 0nat,
{
    let ghost sub = segs@.subrange(lo as int, hi as int);
    let mut r = String::new();
    let mut i: usize = lo;
    while i < hi
        invariant
            lo <= i <= hi,
            hi <= segs@.len(),
            sub == segs@.subrange(lo as int, hi as int),
            r@ == s_segments(sub.take(i - lo)),
        decreases hi - i,
    {
        if i > lo {
            r.append("::");
        }
        let x = display_segment(&segs[i]);
        r.append(x.as_str());
        proof {
            assert(sub.take(i + 1 - lo).drop_last() =~= sub.take(i - lo));
            assert(sub.take(i + 1 - lo).last() == segs@[i as int]);
            if i == lo {
                assert(r@ =~= x@);
            }
        }
        i = i + 1;
    }
    proof {
        assert(sub.take(hi - lo) =~= sub);
    }
    r
}

/// The qualified path `<T as A::B>::C::D` of a path type that has a qualified self.
pub fn display_qself(pt: &PathType) -> (r: String)
    requires
        pt.qself is Some,
    ensures
        r@ == s_path_type(*pt),
    decreases pt, 0nat,
{
    let qself = match &pt.qself {
        Some(q) => q,
        None => {
            assert(false);
            return String::new();
        },
    };
    let n = pt.path.segments.len();
    let k = if qself.pos <= n {
        qself.pos
    } else {
        n
    };
    let mut r = String::new();
    r.append("<");
    let t = display_type(&qself.ty);
    r.append(t.as_str());
    if qself.pos > 0 {
        r.append(" as ");
        let x = display_segment_range(&pt.path.segments, 0, k);
        r.append(x.as_str());
    }
    r.append(">");
    r.append("::");
    let x = display_segment_range(&pt.path.segments, k, n);
    r.append(x.as_str());
    proof {
        let segs = pt.path.segments@;
        assert(segs.subrange(0, segs.len() as int) =~= segs);
    }
    r
}

pub fn display_path_type(pt: &PathType) -> (r: String)
    ensures
        r@ == s_path_type(*pt),
    decreases pt, 1nat,
{
    if pt.qself.is_some() {
        display_qself(pt)
    } else {
        display_path(&pt.path)
    }
}

pub fn display_type(t: &Type) -> (r: String)
    ensures
        r@ == s_type(*t),
    decreases t, 0nat,
{
    match &t.ty {
        TypeKind::Symbol(s) => (*s).to_owned(),
        TypeKind::Path(pt) => display_path_type(pt),
        TypeKind::Ptr(p) => {
            let mut r = String::new();
            r.append(ptr_head(p.is_mut));
            let x = display_type(&p.ty);
            r.append(x.as_str());
            r
        },
        TypeKind::Ref(rt) => {
            let mut r = ref_head(&rt.lifetime, rt.is_mut);
            let x = display_type(&rt.ty);
            r.append(x.as_str());
            r
        },
        TypeKind::Tuple(tt) => display_paren_param_inputs(&tt.types),
        TypeKind::Slice(st) => {
            let mut r = String::new();
            r.append("[");
            let x = display_type(&st.ty);
            r.append(x.as_str());
            r.append("]");
            r
        },
        TypeKind::Array(a) => {
            let mut r = String::new();
            r.append("[");
            let x = display_type(&a.ty);
            r.append(x.as_str());
            r.append("; ");
            let y = display_expr(&a.expr);
            r.append(y.as_str());
            r.append("]");
            r
        },
        TypeKind::Trait(tr) => {
            let mut r = String::new();
            if tr.is_dyn {
                r.append("dyn ");
            }
            if tr.is_impl {
                r.append("impl ");
            }
            let x = display_type_param_bounds(&tr.bounds);
            r.append(x.as_str());
            r
        },
        TypeKind::BareFn(b) => {
            let mut r = display_for_liftime_defs(&b.lifetime_defs);
            let h = fn_head(b.header.is_unsafe, false, b.header.abi.as_str());
            r.append(h.as_str());
            let x = display_fn_sig(&b.sig);
            r.append(x.as_str());
            r
        },
        TypeKind::Macro(m) => display_macro(m),
    }
}

pub fn display_fn_sig(sig: &FnSig) -> (r: String)
    ensures
        r@ == s_fn_sig(*sig),
    decreases sig, 0nat,
{
    let mut r = String::new();
    r.append("(");
    let x = display_args(&sig.args);
    r.append(x.as_str());
    r.append(")");
    let y = display_return(&sig.ret);
    r.append(y.as_str());
    r
}

pub fn display_arg(a: &Arg) -> (r: String)
    ensures
        r@ == s_arg(*a),
    decreases a, 0nat,
{
    if a.has_patten {
        let mut r = display_patten(&a.patten);
        r.append(": ");
        let x = display_type(&a.ty);
        r.append(x.as_str());
        r
    } else {
        display_type(&a.ty)
    }
}

pub fn display_return(ret: &Return) -> (r: String)
    ensures
        r@ == s_return(*ret),
    decreases ret, 0nat,
{
    let mut r = String::new();
    if let Some(t) = &ret.ret {
        r.append(" -> ");
        let x = display_type(t);
        r.append(x.as_str());
    }
    r
}

pub fn display_closure_arg(a: &Arg) -> (r: String)
    ensures
        r@ == s_closure_arg(*a),
    decreases a, 0nat,
{
    let mut r = display_patten(&a.patten);
    let infer = match &a.ty.ty {
        TypeKind::Symbol(s) => str_eq(s, "_"),
        _ => false,
    };
    if !infer {
        r.append(": ");
        let x = display_type(&a.ty);
        r.append(x.as_str());
    }
    r
}

pub fn display_patten(p: &Patten) -> (r: String)
    ensures
        r@ == s_patten(*p),
    decreases p, 0nat,
{
    match &p.patten {
        PattenKind::Wildcard => {
            let mut r = String::new();
            r.append("_");
            r
        },
        PattenKind::Symbol(s) => (*s).to_owned(),
        PattenKind::Literal(e) => display_expr(e),
        PattenKind::Range(rp) => {
            let mut r = display_expr(&rp.start);
            r.append("...");
            let x = display_expr(&rp.end);
            r.append(x.as_str());
            r
        },
        PattenKind::Ref(rp) => {
            let mut r = ref_head(&None, rp.is_mut);
            let x = display_patten(&rp.patten);
            r.append(x.as_str());
            r
        },
        PattenKind::Path(pt) => display_path_type(pt),
        PattenKind::Ident(ip) => {
            let mut r = ident_patten_head(ip.is_ref, ip.is_mut);
            r.append(ip.name.as_str());
            if let Some(sub) = &ip.patten {
                r.append(" @ ");
                let x = display_patten(sub);
                r.append(x.as_str());
            }
            r
        },
        PattenKind::Struct(sp) => {
            let mut r = display_path(&sp.path);
            r.append(" { .. }");
            r
        },
        PattenKind::Enum(ep) => {
            let mut r = display_path(&ep.path);
            if ep.pattens.len() > 0 {
                r.append("(");
                let x = display_pattens(&ep.pattens, ", ");
                r.append(x.as_str());
                r.append(")");
            }
            r
        },
        PattenKind::Tuple(tp) => {
            let mut r = String::new();
            r.append("(");
            let x = display_pattens(&tp.pattens, ", ");
            r.append(x.as_str());
            r.append(")");
            r
        },
        PattenKind::Slice(sp) => {
            let mut r = String::new();
            r.append("[");
            let x = display_pattens(&sp.pattens, ", ");
            r.append(x.as_str());
            r.append("]");
            r
        },
        PattenKind::Macro(m) => display_macro(m),
    }
}

fn display_opt_expr(e: &Option<Expr>, before: &str) -> (r: String)
    ensures
        r@ == s_opt_expr(*e, before@),
    decreases e, 0nat,
{
    let mut r = String::new();
    if let Some(x) = e {
        r.append(before);
        let s = display_expr(x);
        r.append(s.as_str());
    }
    r
}

pub fn display_block(b: &Block) -> (r: String)
    ensures
        r@ == s_block(*b),
{
    let mut r = String::new();
    if b.is_unsafe {
        r.append("unsafe ");
    }
    if b.stmts.len() == 0 {
        r.append("{}");
    } else {
        r.append("{ .. }");
    }
    r
}

fn display_method_name(path: &PathSegment) -> (r: String)
    ensures
        r@ == s_method_name(*path),
    decreases path, 0nat,
{
    let mut r = path.name.clone();
    let p = display_path_param(&path.param);
    if p.unicode_len() > 0 {
        r.append("::");
        r.append(p.as_str());
    }
    r
}

fn display_method_call(m: &MethodCallExpr) -> (r: String)
    ensures
        r@ == s_method_call(*m),
    decreases m, 0nat,
{
    let n = m.args.len();
    if n == 0 {
        let mut r = display_method_name(&m.path);
        r.append("()");
        return r;
    }
    let mut r = display_expr(&m.args[0]);
    r.append(".");
    let name = display_method_name(&m.path);
    r.append(name.as_str());
    r.append("(");
    let ghost sub = m.args@.subrange(1, n as int);
    let mut i: usize = 1;
    while i < n
        invariant
            1 <= i <= n,
            n == m.args@.len(),
            sub == m.args@.subrange(1, n as int),
            r@ == s_expr(m.args@[0]) + "."@ + s_method_name(m.path) + "("@ + s_exprs(
                sub.take(i - 1),
                ", "@,
            ),
        decreases n - i,
    {
        let ghost before = r@;
        if i > 1 {
            r.append(", ");
        }
        let x = display_expr(&m.args[i]);
        r.append(x.as_str());
        proof {
            assert(sub.take(i as int).drop_last() =~= sub.take(i - 1));
            assert(sub.take(i as int).last() == m.args@[i as int]);
            if i == 1 {
                assert(sub.take(0) =~= Seq::<Expr>::empty());
                assert(r@ =~= before + x@);
            }
        }
        i = i + 1;
    }
    proof {
        assert(sub.take(n - 1) =~= sub);
    }
    r.append(")");
    r
}

pub fn display_expr(e: &Expr) -> (r: String)
    ensures
        r@ == s_expr(*e),
    decreases e, 0nat,
{
    match &e.expr {
        ExprKind::Literal(c) => c.s.clone(),
        ExprKind::Path(pt) => display_path_type(pt),
        ExprKind::Ref(re) => {
            let mut r = ref_head(&None, re.is_mut);
            let x = display_expr(&re.expr);
            r.append(x.as_str());
            assert(r@ == s_expr(*e));
            r
        },
        ExprKind::UnaryOp(u) => {
            let mut r = (u.op).to_owned();
            let x = display_expr(&u.expr);
            r.append(x.as_str());
            assert(r@ == s_expr(*e));
            r
        },
        ExprKind::Try(x) => {
            let mut r = display_expr(x);
            r.append("?");
            assert(r@ == s_expr(*e));
            r
        },
        ExprKind::ListOp(l) => {
            let mut sep = String::new();
            sep.append(" ");
            sep.append(l.op.s.as_str());
            sep.append(" ");
            display_exprs(&l.exprs, sep.as_str())
        },
        ExprKind::Repeat(rp) => {
            let mut r = String::new();
            r.append("[");
            let x = display_expr(&rp.value);
            r.append(x.as_str());
            r.append("; ");
            let y = display_expr(&rp.len);
            r.append(y.as_str());
            r.append("]");
            assert(r@ == s_expr(*e));
            r
        },
        ExprKind::Array(v) => {
            let mut r = String::new();
            r.append("[");
            let x = display_exprs(v, ", ");
            r.append(x.as_str());
            r.append("]");
            assert(r@ == s_expr(*e));
            r
        },
        ExprKind::Tuple(v) => {
            let mut r = String::new();
            r.append("(");
            let x = display_exprs(v, ", ");
            r.append(x.as_str());
            r.append(")");
            assert(r@ == s_expr(*e));
            r
        },
        ExprKind::Index(ix) => {
            let mut r = display_expr(&ix.obj);
            r.append("[");
            let x = display_expr(&ix.index);
            r.append(x.as_str());
            r.append("]");
            assert(r@ == s_expr(*e));
            r
        },
        ExprKind::Struct(st) => {
            let mut r = display_path(&st.path);
            r.append(" { .. }");
            assert(r@ == s_expr(*e));
            r
        },
        ExprKind::Field(f) => {
            let mut r = display_expr(&f.expr);
            r.append(".");
            r.append(f.field.as_str());
            assert(r@ == s_expr(*e));
            r
        },
        ExprKind::Type(t) => {
            let mut r = display_expr(&t.expr);
            r.append(": ");
            let x = display_type(&t.ty);
            r.append(x.as_str());
            assert(r@ == s_expr(*e));
            r
        },
        ExprKind::Cast(c) => {
            let mut r = display_expr(&c.expr);
            r.append(" as ");
            let x = display_type(&c.ty);
            r.append(x.as_str());
            assert(r@ == s_expr(*e));
            r
        },
        ExprKind::Range(rg) => {
            proof {
                reveal_strlit("");
                assert(""@ =~= Seq::<char>::empty());
            }
            let mut r = display_opt_expr(&rg.start, "");
            r.append("..");
            let x = display_opt_expr(&rg.end, "");
            r.append(x.as_str());
            assert(r@ == s_expr(*e));
            r
        },
        ExprKind::Block(b) => {
            let mut r = opt_label(&b.label);
            let x = display_block(&b.block);
            r.append(x.as_str());
            assert(r@ == s_expr(*e));
            r
        },
        ExprKind::If(i) => {
            let mut r = String::new();
            r.append("if ");
            let x = display_expr(&i.expr);
            r.append(x.as_str());
            r.append(" ");
            let b = display_block(&i.block);
            r.append(b.as_str());
            let y = display_opt_expr(&i.br, " else ");
            r.append(y.as_str());
            assert(r@ == s_expr(*e));
            r
        },
        ExprKind::While(w) => {
            let mut r = opt_label(&w.label);
            r.append("while ");
            let x = display_expr(&w.expr);
            r.append(x.as_str());
            r.append(" ");
            let b = display_block(&w.block);
            r.append(b.as_str());
            assert(r@ == s_expr(*e));
            r
        },
        ExprKind::Let(l) => {
            let mut r = String::new();
            r.append("let ");
            let p = display_pattens(&l.pattens, " | ");
            r.append(p.as_str());
            r.append(" = ");
            let x = display_expr(&l.expr);
            r.append(x.as_str());
            assert(r@ == s_expr(*e));
            r
        },
        ExprKind::For(f) => {
            let mut r = opt_label(&f.label);
            r.append("for ");
            let p = display_patten(&f.patten);
            r.append(p.as_str());
            r.append(" in ");
            let x = display_expr(&f.expr);
            r.append(x.as_str());
            r.append(" ");
            let b = display_block(&f.block);
            r.append(b.as_str());
            assert(r@ == s_expr(*e));
            r
        },
        ExprKind::Loop(l) => {
            let mut r = opt_label(&l.label);
            r.append("loop ");
            let b = display_block(&l.block);
            r.append(b.as_str());
            assert(r@ == s_expr(*e));
            r
        },
        ExprKind::Break(b) => {
            let mut r = String::new();
            r.append("break");
            if let Some(l) = &b.label {
                r.append(" ");
                r.append(l.as_str());
            }
            let x = display_opt_expr(&b.expr, " ");
            r.append(x.as_str());
            assert(r@ == s_expr(*e));
            r
        },
        ExprKind::Continue(c) => {
            let mut r = String::new();
            r.append("continue");
            if let Some(l) = &c.label {
                r.append(" ");
                r.append(l.as_str());
            }
            assert(r@ == s_expr(*e));
            r
        },
        ExprKind::Match(m) => {
            let mut r = String::new();
            r.append("match ");
            let x = display_expr(&m.expr);
            r.append(x.as_str());
            r.append(" { .. }");
            assert(r@ == s_expr(*e));
            r
        },
        ExprKind::FnCall(f) => {
            let mut r = display_expr(&f.name);
            r.append("(");
            let x = display_exprs(&f.args, ", ");
            r.append(x.as_str());
            r.append(")");
            assert(r@ == s_expr(*e));
            r
        },
        ExprKind::MethodCall(m) => display_method_call(m),
        ExprKind::Closure(c) => {
            let mut r = String::new();
            if c.is_static {
                r.append("static ");
            }
            if c.is_async {
                r.append("async ");
            }
            if c.is_move {
                r.append("move ");
            }
            r.append("|");
            let a = display_closure_args(&c.sig.args);
            r.append(a.as_str());
            r.append("|");
            let rt = display_return(&c.sig.ret);
            r.append(rt.as_str());
            r.append(" ");
            let x = display_expr(&c.expr);
            r.append(x.as_str());
            assert(r@ == s_expr(*e));
            r
        },
        ExprKind::Return(rt) => {
            let mut r = String::new();
            r.append("return");
            let x = display_opt_expr(&rt.ret, " ");
            r.append(x.as_str());
            assert(r@ == s_expr(*e));
            r
        },
        ExprKind::Macro(m) => display_macro(m),
    }
}

fn macro_sep(sep: &MacroSep) -> (r: String)
    ensures
        r@ == s_macro_sep(*sep),
{
    let mut r = sep.s.to_owned();
    if sep.is_sep {
        r.append(" ");
    }
    r
}

pub fn display_macro(m: &Macro) -> (r: String)
    ensures
        r@ == s_macro(*m),
    decreases m, 0nat,
{
    let (open, close): (&str, &str) = match m.style {
        MacroStyle::Paren => ("(", ")"),
        MacroStyle::Bracket => ("[", "]"),
        MacroStyle::Brace => ("{", "}"),
    };
    let mut r = m.name.clone();
    r.append("!");
    r.append(open);
    let n = m.exprs.len();
    let mut i: usize = 0;
    while i < n
        invariant
            i <= n,
            n == m.exprs@.len(),
            open@ == s_macro_delims(m.style).0,
            close@ == s_macro_delims(m.style).1,
            r@ == m.name@ + "!"@ + s_macro_delims(m.style).0 + s_macro_args(m.exprs@.take(i as int), m.seps@),
        decreases n - i,
    {
        let ghost before = r@;
        if i > 0 && i - 1 < m.seps.len() {
            let s = macro_sep(&m.seps[i - 1]);
            r.append(s.as_str());
        }
        let x = display_expr(&m.exprs[i]);
        r.append(x.as_str());
        proof {
            assert(m.exprs@.take(i + 1).drop_last() =~= m.exprs@.take(i as int));
            assert(m.exprs@.take(i + 1).last() == m.exprs@[i as int]);
            if i == 0 {
                assert(m.exprs@.take(0) =~= Seq::<Expr>::empty());
                assert(r@ =~= before + x@);
            }
        }
        i = i + 1;
    }
    proof {
        assert(m.exprs@.take(n as int) =~= m.exprs@);
    }
    r.append(close);
    r
}

pub fn display_chunks(v: &Vec<Chunk>, sep: &str) -> (r: String)
    ensures
        r@ == s_chunks(v@, sep@),
    decreases v, 0nat,
{
    let mut r = String::new();
    let mut i: usize = 0;
    while i < v.len()
        invariant
            i <= v@.len(),
            r@ == s_chunks(v@.take(i as int), sep@),
        decreases v@.len() - i,
    {
        if i > 0 {
            r.append(sep);
        }
        let x = display_chunk(&v[i]);
        r.append(x.as_str());
        proof {
            assert(v@.take(i + 1).drop_last() =~= v@.take(i as int));
            assert(v@.take(i + 1).last() == v@[i as int]);
            if i == 0 {
                assert(r@ =~= x@);
            }
        }
        i = i + 1;
    }
    proof {
        assert(v@.take(v@.len() as int) =~= v@);
    }
    r
}

pub fn display_meta_items(v: &Vec<MetaItem>) -> (r: String)
    ensures
        r@ == s_meta_items(v@),
    decreases v, 0nat,
{
    let mut r = String::new();
    let mut i: usize = 0;
    while i < v.len()
        invariant
            i <= v@.len(),
            r@ == s_meta_items(v@.take(i as int)),
        decreases v@.len() - i,
    {
        if i > 0 {
            r.append(", ");
        }
        let x = display_meta_item(&v[i]);
        r.append(x.as_str());
        proof {
            assert(v@.take(i + 1).drop_last() =~= v@.take(i as int));
            assert(v@.take(i + 1).last() == v@[i as int]);
            if i == 0 {
                assert(r@ =~= x@);
            }
        }
        i = i + 1;
    }
    proof {
        assert(v@.take(v@.len() as int) =~= v@);
    }
    r
}

pub fn display_use_trees(v: &Vec<UseTree>) -> (r: String)
    ensures
        r@ == s_use_trees(v@),
    decreases v, 0nat,
{
    let mut r = String::new();
    let mut i: usize = 0;
    while i < v.len()
        invariant
            i <= v@.len(),
            r@ == s_use_trees(v@.take(i as int)),
        decreases v@.len() - i,
    {
        if i > 0 {
            r.append(", ");
        }
        let x = display_use_tree(&v[i]);
        r.append(x.as_str());
        proof {
            assert(v@.take(i + 1).drop_last() =~= v@.take(i as int));
            assert(v@.take(i + 1).last() == v@[i as int]);
            if i == 0 {
                assert(r@ =~= x@);
            }
        }
        i = i + 1;
    }
    proof {
        assert(v@.take(v@.len() as int) =~= v@);
    }
    r
}

pub fn display_lifetime_defs(v: &Vec<LifetimeDef>) -> (r: String)
    ensures
        r@ == s_lifetime_defs(v@),
    decreases v, 0nat,
{
    let mut r = String::new();
    let mut i: usize = 0;
    while i < v.len()
        invariant
            i <= v@.len(),
            r@ == s_lifetime_defs(v@.take(i as int)),
        decreases v@.len() - i,
    {
        if i > 0 {
            r.append(", ");
        }
        let x = display_lifetime_def(&v[i]);
        r.append(x.as_str());
        proof {
            assert(v@.take(i + 1).drop_last() =~= v@.take(i as int));
            assert(v@.take(i + 1).last() == v@[i as int]);
            if i == 0 {
                assert(r@ =~= x@);
            }
        }
        i = i + 1;
    }
    proof {
        assert(v@.take(v@.len() as int) =~= v@);
    }
    r
}

#[verifier::rlimit(40)]
pub fn display_type_params(v: &Vec<TypeParam>) -> (r: String)
    ensures
        r@ == s_type_params(v@),
    decreases v, 0nat,
{
    let mut r = String::new();
    let mut i: usize = 0;
    while i < v.len()
        invariant
            i <= v@.len(),
            r@ == s_type_params(v@.take(i as int)),
        decreases v@.len() - i,
    {
        if i > 0 {
            r.append(", ");
        }
        let x = display_type_param(&v[i]);
        r.append(x.as_str());
        proof {
            assert(v@.take(i + 1).drop_last() =~= v@.take(i as int));
            assert(v@.take(i + 1).last() == v@[i as int]);
            if i == 0 {
                assert(r@ =~= x@);
            }
        }
        i = i + 1;
    }
    proof {
        assert(v@.take(v@.len() as int) =~= v@);
    }
    r
}

pub fn display_bound_list(v: &Vec<TypeParamBound>) -> (r: String)
    ensures
        r@ == s_bound_list(v@),
    decreases v, 0nat,
{
    let mut r = String::new();
    let mut i: usize = 0;
    while i < v.len()
        invariant
            i <= v@.len(),
            r@ == s_bound_list(v@.take(i as int)),
        decreases v@.len() - i,
    {
        if i > 0 {
            r.append(" + ");
        }
        let x = display_bound(&v[i]);
        r.append(x.as_str());
        proof {
            assert(v@.take(i + 1).drop_last() =~= v@.take(i as int));
            assert(v@.take(i + 1).last() == v@[i as int]);
            if i == 0 {
                assert(r@ =~= x@);
            }
        }
        i = i + 1;
    }
    proof {
        assert(v@.take(v@.len() as int) =~= v@);
    }
    r
}

#[verifier::rlimit(100)]
#[verifier::spinoff_prover]
pub fn display_where_clauses(v: &Vec<WhereClause>) -> (r: String)
    ensures
        r@ == s_where_clauses(v@),
    decreases v, 0nat,
{
    let mut r = String::new();
    let mut i: usize = 0;
    while i < v.len()
        invariant
            i <= v@.len(),
            r@ == s_where_clauses(v@.take(i as int)),
        decreases v@.len() - i,
    {
        if i > 0 {
            r.append(", ");
        }
        let x = display_where_clause(&v[i]);
        r.append(x.as_str());
        proof {
            assert(v@.take(i + 1).drop_last() =~= v@.take(i as int));
            assert(v@.take(i + 1).last() == v@[i as int]);
            if i == 0 {
                assert(r@ =~= x@);
            }
        }
        i = i + 1;
    }
    proof {
        assert(v@.take(v@.len() as int) =~= v@);
    }
    r
}

pub fn display_path_segments(v: &Vec<PathSegment>) -> (r: String)
    ensures
        r@ == s_segments(v@),
    decreases v, 0nat,
{
    let mut r = String::new();
    let mut i: usize = 0;
    while i < v.len()
        invariant
            i <= v@.len(),
            r@ == s_segments(v@.take(i as int)),
        decreases v@.len() - i,
    {
        if i > 0 {
            r.append("::");
        }
        let x = display_segment(&v[i]);
        r.append(x.as_str());
        proof {
            assert(v@.take(i + 1).drop_last() =~= v@.take(i as int));
            assert(v@.take(i + 1).last() == v@[i as int]);
            if i == 0 {
                assert(r@ =~= x@);
            }
        }
        i = i + 1;
    }
    proof {
        assert(v@.take(v@.len() as int) =~= v@);
    }
    r
}

pub fn display_bindings(v: &Vec<TypeBinding>) -> (r: String)
    ensures
        r@ == s_bindings(v@),
    decreases v, 0nat,
{
    let mut r = String::new();
    let mut i: usize = 0;
    while i < v.len()
        invariant
            i <= v@.len(),
            r@ == s_bindings(v@.take(i as int)),
        decreases v@.len() - i,
    {
        if i > 0 {
            r.append(", ");
        }
        let x = display_binding(&v[i]);
        r.append(x.as_str());
        proof {
            assert(v@.take(i + 1).drop_last() =~= v@.take(i as int));
            assert(v@.take(i + 1).last() == v@[i as int]);
            if i == 0 {
                assert(r@ =~= x@);
            }
        }
        i = i + 1;
    }
    proof {
        assert(v@.take(v@.len() as int) =~= v@);
    }
    r
}

pub fn display_types(v: &Vec<Type>) -> (r: String)
    ensures
        r@ == s_types(v@),
    decreases v, 0nat,
{
    let mut r = String::new();
    let mut i: usize = 0;
    while i < v.len()
        invariant
            i <= v@.len(),
            r@ == s_types(v@.take(i as int)),
        decreases v@.len() - i,
    {
        if i > 0 {
            r.append(", ");
        }
        let x = display_type(&v[i]);
        r.append(x.as_str());
        proof {
            assert(v@.take(i + 1).drop_last() =~= v@.take(i as int));
            assert(v@.take(i + 1).last() == v@[i as int]);
            if i == 0 {
                assert(r@ =~= x@);
            }
        }
        i = i + 1;
    }
    proof {
        assert(v@.take(v@.len() as int) =~= v@);
    }
    r
}

pub fn display_args(v: &Vec<Arg>) -> (r: String)
    ensures
        r@ == s_args(v@),
    decreases v, 0nat,
{
    let mut r = String::new();
    let mut i: usize = 0;
    while i < v.len()
        invariant
            i <= v@.len(),
            r@ == s_args(v@.take(i as int)),
        decreases v@.len() - i,
    {
        if i > 0 {
            r.append(", ");
        }
        let x = display_arg(&v[i]);
        r.append(x.as_str());
        proof {
            assert(v@.take(i + 1).drop_last() =~= v@.take(i as int));
            assert(v@.take(i + 1).last() == v@[i as int]);
            if i == 0 {
                assert(r@ =~= x@);
            }
        }
        i = i + 1;
    }
    proof {
        assert(v@.take(v@.len() as int) =~= v@);
    }
    r
}

pub fn display_closure_args(v: &Vec<Arg>) -> (r: String)
    ensures
        r@ == s_closure_args(v@),
    decreases v, 0nat,
{
    let mut r = String::new();
    let mut i: usize = 0;
    while i < v.len()
        invariant
            i <= v@.len(),
            r@ == s_closure_args(v@.take(i as int)),
        decreases v@.len() - i,
    {
        if i > 0 {
            r.append(", ");
        }
        let x = display_closure_arg(&v[i]);
        r.append(x.as_str());
        proof {
            assert(v@.take(i + 1).drop_last() =~= v@.take(i as int));
            assert(v@.take(i + 1).last() == v@[i as int]);
            if i == 0 {
                assert(r@ =~= x@);
            }
        }
        i = i + 1;
    }
    proof {
        assert(v@.take(v@.len() as int) =~= v@);
    }
    r
}

pub fn display_pattens(v: &Vec<Patten>, sep: &str) -> (r: String)
    ensures
        r@ == s_pattens(v@, sep@),
    decreases v, 0nat,
{
    let mut r = String::new();
    let mut i: usize = 0;
    while i < v.len()
        invariant
            i <= v@.len(),
            r@ == s_pattens(v@.take(i as int), sep@),
        decreases v@.len() - i,
    {
        if i > 0 {
            r.append(sep);
        }
        let x = display_patten(&v[i]);
        r.append(x.as_str());
        proof {
            assert(v@.take(i + 1).drop_last() =~= v@.take(i as int));
            assert(v@.take(i + 1).last() == v@[i as int]);
            if i == 0 {
                assert(r@ =~= x@);
            }
        }
        i = i + 1;
    }
    proof {
        assert(v@.take(v@.len() as int) =~= v@);
    }
    r
}

pub fn display_exprs(v: &Vec<Expr>, sep: &str) -> (r: String)
    ensures
        r@ == s_exprs(v@, sep@),
    decreases v, 0nat,
{
    let mut r = String::new();
    let mut i: usize = 0;
    while i < v.len()
        invariant
            i <= v@.len(),
            r@ == s_exprs(v@.take(i as int), sep@),
        decreases v@.len() - i,
    {
        if i > 0 {
            r.append(sep);
        }
        let x = display_expr(&v[i]);
        r.append(x.as_str());
        proof {
            assert(v@.take(i + 1).drop_last() =~= v@.take(i as int));
            assert(v@.take(i + 1).last() == v@[i as int]);
            if i == 0 {
                assert(r@ =~= x@);
            }
        }
        i = i + 1;
    }
    proof {
        assert(v@.take(v@.len() as int) =~= v@);
    }
    r
}

/// A field of a tuple struct: its visibility, then its type.
pub open spec fn s_tuple_field(f: TupleField) -> Seq<char> {
    (if f.vis@.len() > 0 {
        f.vis@ + " "@
    } else {
        Seq::<char>::empty()
    }) + s_type(f.ty)
}

pub fn display_tuple_field(f: &TupleField) -> (r: String)
    ensures
        r@ == s_tuple_field(*f),
{
    let mut r = String::new();
    if !f.vis.as_str().is_empty() {
        r.append(f.vis.as_str());
        r.append(" ");
    }
    let x = display_type(&f.ty);
    r.append(x.as_str());
    r
}


// ---------------------------------------------------------------------------
// The defining equations of the one-line texts, for use outside this module
// ---------------------------------------------------------------------------

/// `s_chunks` unfolded one step: its defining equation.
pub proof fn lemma_s_chunks(v: Seq<Chunk>, sep: Seq<char>)
    ensures
        s_chunks(v, sep) == ({
            if v.len() == 0 {
                Seq::<char>::empty()
            } else if v.len() == 1 {
                v[0].s@
            } else {
                s_chunks(v.drop_last(), sep) + sep + v.last().s@
            }
        }),
{
}

/// `s_meta_item` unfolded one step: its defining equation.
pub proof fn lemma_s_meta_item(m: MetaItem)
    ensures
        s_meta_item(m) == ({
            m.name@ + match m.items {
                Some(items) => "("@ + s_meta_items(items@) + ")"@,
                None => Seq::<char>::empty(),
            }
        }),
{
}

/// `s_meta_items` unfolded one step: its defining equation.
pub proof fn lemma_s_meta_items(v: Seq<MetaItem>)
    ensures
        s_meta_items(v) == ({
            if v.len() == 0 {
                Seq::<char>::empty()
            } else if v.len() == 1 {
                s_meta_item(v[0])
            } else {
                s_meta_items(v.drop_last()) + ", "@ + s_meta_item(v.last())
            }
        }),
{
}

/// `s_use_tree_body` unfolded one step: its defining equation.
pub proof fn lemma_s_use_tree_body(path: Seq<char>, trees: Option<Vec<UseTree>>)
    ensures
        s_use_tree_body(path, trees) == ({
            path + match trees {
                Some(v) => if v@.len() == 0 {
                    Seq::<char>::empty()
                } else if v@.len() == 1 {
                    "::"@ + s_use_tree(v@[0])
                } else {
                    "::{"@ + s_use_trees(v@) + "}"@
                },
                None => Seq::<char>::empty(),
            }
        }),
{
}

/// `s_use_tree` unfolded one step: its defining equation.
pub proof fn lemma_s_use_tree(t: UseTree)
    ensures
        s_use_tree(t) == ({
            s_use_tree_body(t.path@, t.trees)
        }),
{
}

/// `s_use_trees` unfolded one step: its defining equation.
pub proof fn lemma_s_use_trees(v: Seq<UseTree>)
    ensures
        s_use_trees(v) == ({
            if v.len() == 0 {
                Seq::<char>::empty()
            } else if v.len() == 1 {
                s_use_tree(v[0])
            } else {
                s_use_trees(v.drop_last()) + ", "@ + s_use_tree(v.last())
            }
        }),
{
}

/// `s_lifetime_defs` unfolded one step: its defining equation.
pub proof fn lemma_s_lifetime_defs(v: Seq<LifetimeDef>)
    ensures
        s_lifetime_defs(v) == ({
            if v.len() == 0 {
                Seq::<char>::empty()
            } else if v.len() == 1 {
                s_lifetime_def(v[0])
            } else {
                s_lifetime_defs(v.drop_last()) + ", "@ + s_lifetime_def(v.last())
            }
        }),
{
}

/// `s_type_param` unfolded one step: its defining equation.
pub proof fn lemma_s_type_param(p: TypeParam)
    ensures
        s_type_param(p) == ({
            p.name@ + (if p.bounds.0@.len() > 0 {
                ": "@ + s_bounds(p.bounds)
            } else {
                Seq::<char>::empty()
            }) + match p.default {
                Some(t) => " = "@ + s_type(t),
                None => Seq::<char>::empty(),
            }
        }),
{
}

/// `s_type_params` unfolded one step: its defining equation.
pub proof fn lemma_s_type_params(v: Seq<TypeParam>)
    ensures
        s_type_params(v) == ({
            if v.len() == 0 {
                Seq::<char>::empty()
            } else if v.len() == 1 {
                s_type_param(v[0])
            } else {
                s_type_params(v.drop_last()) + ", "@ + s_type_param(v.last())
            }
        }),
{
}

/// `s_bounds` unfolded one step: its defining equation.
pub proof fn lemma_s_bounds(b: TypeParamBounds)
    ensures
        s_bounds(b) == ({
            s_bound_list(b.0@)
        }),
{
}

/// `s_bound_list` unfolded one step: its defining equation.
pub proof fn lemma_s_bound_list(v: Seq<TypeParamBound>)
    ensures
        s_bound_list(v) == ({
            if v.len() == 0 {
                Seq::<char>::empty()
            } else if v.len() == 1 {
                s_bound(v[0])
            } else {
                s_bound_list(v.drop_last()) + " + "@ + s_bound(v.last())
            }
        }),
{
}

/// `s_bound` unfolded one step: its defining equation.
pub proof fn lemma_s_bound(b: TypeParamBound)
    ensures
        s_bound(b) == ({
            match b {
                TypeParamBound::Lifetime(l) => l.s@,
                TypeParamBound::PolyTraitRef(p) => s_poly_trait_ref(p),
            }
        }),
{
}

/// `s_poly_trait_ref` unfolded one step: its defining equation.
pub proof fn lemma_s_poly_trait_ref(p: PolyTraitRef)
    ensures
        s_poly_trait_ref(p) == ({
            s_for_lifetime_defs(p.lifetime_defs@) + s_path(p.trait_ref)
        }),
{
}

/// `s_where` unfolded one step: its defining equation.
pub proof fn lemma_s_where(w: Where)
    ensures
        s_where(w) == ({
            s_where_clauses(w.clauses@)
        }),
{
}

/// `s_where_clauses` unfolded one step: its defining equation.
pub proof fn lemma_s_where_clauses(v: Seq<WhereClause>)
    ensures
        s_where_clauses(v) == ({
            if v.len() == 0 {
                Seq::<char>::empty()
            } else if v.len() == 1 {
                s_where_clause(v[0])
            } else {
                s_where_clauses(v.drop_last()) + ", "@ + s_where_clause(v.last())
            }
        }),
{
}

/// `s_where_clause` unfolded one step: its defining equation.
pub proof fn lemma_s_where_clause(c: WhereClause)
    ensures
        s_where_clause(c) == ({
            match c.clause {
                WhereKind::LifetimeDef(l) => s_lifetime_def(l),
                WhereKind::Bound(b) => s_where_bound(b),
            }
        }),
{
}

/// `s_where_bound` unfolded one step: its defining equation.
pub proof fn lemma_s_where_bound(b: WhereBound)
    ensures
        s_where_bound(b) == ({
            s_for_lifetime_defs(b.lifetime_defs@) + s_type(b.ty) + ": "@ + s_bounds(b.bounds)
        }),
{
}

/// `s_path` unfolded one step: its defining equation.
pub proof fn lemma_s_path(p: Path)
    ensures
        s_path(p) == ({
            s_segments(p.segments@)
        }),
{
}

/// `s_segments` unfolded one step: its defining equation.
pub proof fn lemma_s_segments(v: Seq<PathSegment>)
    ensures
        s_segments(v) == ({
            if v.len() == 0 {
                Seq::<char>::empty()
            } else if v.len() == 1 {
                s_segment(v[0])
            } else {
                s_segments(v.drop_last()) + "::"@ + s_segment(v.last())
            }
        }),
{
}

/// `s_segment` unfolded one step: its defining equation.
pub proof fn lemma_s_segment(seg: PathSegment)
    ensures
        s_segment(seg) == ({
            seg.name@ + s_path_param(seg.param)
        }),
{
}

/// `s_path_param` unfolded one step: its defining equation.
pub proof fn lemma_s_path_param(p: PathParam)
    ensures
        s_path_param(p) == ({
            match p {
                PathParam::Angle(a) => s_angle_param(a),
                PathParam::Paren(pp) => s_paren_param(pp),
            }
        }),
{
}

/// `s_angle_param` unfolded one step: its defining equation.
pub proof fn lemma_s_angle_param(a: AngleParam)
    ensures
        s_angle_param(a) == ({
            let nl = a.lifetimes@.len() > 0;
            let nt = a.types@.len() > 0;
            let nb = a.bindings@.len() > 0;
            if !nl && !nt && !nb {
                Seq::<char>::empty()
            } else {
                "<"@ + s_combine(
                    s_combine(s_chunks(a.lifetimes@, ", "@), nl, s_types(a.types@), nt),
                    nl || nt,
                    s_bindings(a.bindings@),
                    nb,
                ) + ">"@
            }
        }),
{
}

/// `s_bindings` unfolded one step: its defining equation.
pub proof fn lemma_s_bindings(v: Seq<TypeBinding>)
    ensures
        s_bindings(v) == ({
            if v.len() == 0 {
                Seq::<char>::empty()
            } else if v.len() == 1 {
                s_binding(v[0])
            } else {
                s_bindings(v.drop_last()) + ", "@ + s_binding(v.last())
            }
        }),
{
}

/// `s_binding` unfolded one step: its defining equation.
pub proof fn lemma_s_binding(b: TypeBinding)
    ensures
        s_binding(b) == ({
            b.name@ + match b.binding {
                TypeBindingKind::Eq(t) => " = "@ + s_type(t),
                TypeBindingKind::Bound(bs) => ": "@ + s_bounds(bs),
            }
        }),
{
}

/// `s_paren_param` unfolded one step: its defining equation.
pub proof fn lemma_s_paren_param(p: ParenParam)
    ensures
        s_paren_param(p) == ({
            "("@ + s_types(p.inputs@) + ")"@ + match p.output {
                Some(t) => " -> "@ + s_type(t),
                None => Seq::<char>::empty(),
            }
        }),
{
}

/// `s_path_type` unfolded one step: its defining equation.
pub proof fn lemma_s_path_type(pt: PathType)
    ensures
        s_path_type(pt) == ({
            match pt.qself {
                Some(q) => {
                    let k = qself_split(q, pt.path);
                    let segs = pt.path.segments@;
                    "<"@ + s_type(q.ty) + (if q.pos > 0 {
                        " as "@ + (if k == segs.len() {
                            s_segments(segs)
                        } else {
                            s_segments(segs.subrange(0, k))
                        })
                    } else {
                        Seq::<char>::empty()
                    }) + ">"@ + "::"@ + (if k == 0 {
                        s_segments(segs)
                    } else {
                        s_segments(segs.subrange(k, segs.len() as int))
                    })
                },
                None => s_path(pt.path),
            }
        }),
{
}

/// `s_types` unfolded one step: its defining equation.
pub proof fn lemma_s_types(v: Seq<Type>)
    ensures
        s_types(v) == ({
            if v.len() == 0 {
                Seq::<char>::empty()
            } else if v.len() == 1 {
                s_type(v[0])
            } else {
                s_types(v.drop_last()) + ", "@ + s_type(v.last())
            }
        }),
{
}

/// `s_type` unfolded one step: its defining equation.
pub proof fn lemma_s_type(t: Type)
    ensures
        s_type(t) == ({
            match t.ty {
                TypeKind::Symbol(s) => s@,
                TypeKind::Path(pt) => s_path_type(*pt),
                TypeKind::Ptr(p) => s_ptr_head(p.is_mut) + s_type(p.ty),
                TypeKind::Ref(r) => s_ref_head(r.lifetime, r.is_mut) + s_type(r.ty),
                TypeKind::Tuple(tt) => "("@ + s_types(tt.types@) + ")"@,
                TypeKind::Slice(st) => "["@ + s_type(st.ty) + "]"@,
                TypeKind::Array(a) => "["@ + s_type(a.ty) + "; "@ + s_expr(a.expr) + "]"@,
                TypeKind::Trait(tr) => (if tr.is_dyn {
                    "dyn "@
                } else {
                    Seq::<char>::empty()
                }) + (if tr.is_impl {
                    "impl "@
                } else {
                    Seq::<char>::empty()
                }) + s_bounds(tr.bounds),
                TypeKind::BareFn(b) => s_for_lifetime_defs(b.lifetime_defs@) + s_fn_head(
                    b.header.is_unsafe,
                    false,
                    b.header.abi@,
                ) + s_fn_sig(b.sig),
                TypeKind::Macro(m) => s_macro(m),
            }
        }),
{
}

/// `s_fn_sig` unfolded one step: its defining equation.
pub proof fn lemma_s_fn_sig(sig: FnSig)
    ensures
        s_fn_sig(sig) == ({
            "("@ + s_args(sig.args@) + ")"@ + s_return(sig.ret)
        }),
{
}

/// `s_args` unfolded one step: its defining equation.
pub proof fn lemma_s_args(v: Seq<Arg>)
    ensures
        s_args(v) == ({
            if v.len() == 0 {
                Seq::<char>::empty()
            } else if v.len() == 1 {
                s_arg(v[0])
            } else {
                s_args(v.drop_last()) + ", "@ + s_arg(v.last())
            }
        }),
{
}

/// `s_arg` unfolded one step: its defining equation.
pub proof fn lemma_s_arg(a: Arg)
    ensures
        s_arg(a) == ({
            if a.has_patten {
                s_patten(a.patten) + ": "@ + s_type(a.ty)
            } else {
                s_type(a.ty)
            }
        }),
{
}

/// `s_return` unfolded one step: its defining equation.
pub proof fn lemma_s_return(r: Return)
    ensures
        s_return(r) == ({
            match r.ret {
                Some(t) => " -> "@ + s_type(t),
                None => Seq::<char>::empty(),
            }
        }),
{
}

/// `s_pattens` unfolded one step: its defining equation.
pub proof fn lemma_s_pattens(v: Seq<Patten>, sep: Seq<char>)
    ensures
        s_pattens(v, sep) == ({
            if v.len() == 0 {
                Seq::<char>::empty()
            } else if v.len() == 1 {
                s_patten(v[0])
            } else {
                s_pattens(v.drop_last(), sep) + sep + s_patten(v.last())
            }
        }),
{
}

/// `s_patten` unfolded one step: its defining equation.
pub proof fn lemma_s_patten(p: Patten)
    ensures
        s_patten(p) == ({
            match p.patten {
                PattenKind::Wildcard => "_"@,
                PattenKind::Symbol(s) => s@,
                PattenKind::Literal(e) => s_expr(e),
                PattenKind::Range(r) => s_expr(r.start) + "..."@ + s_expr(r.end),
                PattenKind::Ref(r) => s_ref_head(None, r.is_mut) + s_patten(r.patten),
                PattenKind::Path(pt) => s_path_type(pt),
                PattenKind::Ident(i) => s_ident_patten_head(i.is_ref, i.is_mut) + i.name@ + match i.patten {
                    Some(sub) => " @ "@ + s_patten(sub),
                    None => Seq::<char>::empty(),
                },
                PattenKind::Struct(sp) => s_path(sp.path) + " { .. }"@,
                PattenKind::Enum(ep) => s_path(ep.path) + (if ep.pattens@.len() > 0 {
                    "("@ + s_pattens(ep.pattens@, ", "@) + ")"@
                } else {
                    Seq::<char>::empty()
                }),
                PattenKind::Tuple(tp) => "("@ + s_pattens(tp.pattens@, ", "@) + ")"@,
                PattenKind::Slice(sp) => "["@ + s_pattens(sp.pattens@, ", "@) + "]"@,
                PattenKind::Macro(m) => s_macro(m),
            }
        }),
{
}

/// `s_exprs` unfolded one step: its defining equation.
pub proof fn lemma_s_exprs(v: Seq<Expr>, sep: Seq<char>)
    ensures
        s_exprs(v, sep) == ({
            if v.len() == 0 {
                Seq::<char>::empty()
            } else if v.len() == 1 {
                s_expr(v[0])
            } else {
                s_exprs(v.drop_last(), sep) + sep + s_expr(v.last())
            }
        }),
{
}

/// `s_opt_expr` unfolded one step: its defining equation.
pub proof fn lemma_s_opt_expr(e: Option<Expr>, before: Seq<char>)
    ensures
        s_opt_expr(e, before) == ({
            match e {
                Some(x) => before + s_expr(x),
                None => Seq::<char>::empty(),
            }
        }),
{
}

/// `s_method_call` unfolded one step: its defining equation.
pub proof fn lemma_s_method_call(m: MethodCallExpr)
    ensures
        s_method_call(m) == ({
            let args = m.args@;
            if args.len() == 0 {
                s_method_name(m.path) + "()"@
            } else {
                s_expr(args[0]) + "."@ + s_method_name(m.path) + "("@ + s_exprs(
                    args.subrange(1, args.len() as int),
                    ", "@,
                ) + ")"@
            }
        }),
{
}

/// `s_method_name` unfolded one step: its defining equation.
pub proof fn lemma_s_method_name(path: PathSegment)
    ensures
        s_method_name(path) == ({
            path.name@ + (if s_path_param(path.param).len() > 0 {
                "::"@ + s_path_param(path.param)
            } else {
                Seq::<char>::empty()
            })
        }),
{
}

/// `s_closure_args` unfolded one step: its defining equation.
pub proof fn lemma_s_closure_args(v: Seq<Arg>)
    ensures
        s_closure_args(v) == ({
            if v.len() == 0 {
                Seq::<char>::empty()
            } else if v.len() == 1 {
                s_closure_arg(v[0])
            } else {
                s_closure_args(v.drop_last()) + ", "@ + s_closure_arg(v.last())
            }
        }),
{
}

/// `s_closure_arg` unfolded one step: its defining equation.
pub proof fn lemma_s_closure_arg(a: Arg)
    ensures
        s_closure_arg(a) == ({
            s_patten(a.patten) + match a.ty.ty {
                TypeKind::Symbol(s) => if s@ == "_"@ {
                    Seq::<char>::empty()
                } else {
                    ": "@ + s_type(a.ty)
                },
                _ => ": "@ + s_type(a.ty),
            }
        }),
{
}

/// `s_expr` unfolded one step: its defining equation.
pub proof fn lemma_s_expr(e: Expr)
    ensures
        s_expr(e) == ({
            match e.expr {
                ExprKind::Literal(c) => c.s@,
                ExprKind::Path(pt) => s_path_type(pt),
                ExprKind::Ref(r) => s_ref_head(None, r.is_mut) + s_expr(r.expr),
                ExprKind::UnaryOp(u) => u.op@ + s_expr(u.expr),
                ExprKind::Try(x) => s_expr(*x) + "?"@,
                ExprKind::ListOp(l) => s_exprs(l.exprs@, " "@ + l.op.s@ + " "@),
                ExprKind::Repeat(r) => "["@ + s_expr(r.value) + "; "@ + s_expr(r.len) + "]"@,
                ExprKind::Array(v) => "["@ + s_exprs((*v)@, ", "@) + "]"@,
                ExprKind::Tuple(v) => "("@ + s_exprs((*v)@, ", "@) + ")"@,
                ExprKind::Index(i) => s_expr(i.obj) + "["@ + s_expr(i.index) + "]"@,
                ExprKind::Struct(st) => s_path(st.path) + " { .. }"@,
                ExprKind::Field(f) => s_expr(f.expr) + "."@ + f.field@,
                ExprKind::Type(t) => s_expr(t.expr) + ": "@ + s_type(t.ty),
                ExprKind::Cast(c) => s_expr(c.expr) + " as "@ + s_type(c.ty),
                ExprKind::Range(r) => s_opt_expr(r.start, Seq::<char>::empty()) + ".."@
                    + s_opt_expr(r.end, Seq::<char>::empty()),
                ExprKind::Block(b) => s_opt_label(b.label) + s_block(b.block),
                ExprKind::If(i) => "if "@ + s_expr(i.expr) + " "@ + s_block(i.block) + s_opt_expr(
                    i.br,
                    " else "@,
                ),
                ExprKind::While(w) => s_opt_label(w.label) + "while "@ + s_expr(w.expr) + " "@ + s_block(
                    w.block,
                ),
                ExprKind::Let(l) => "let "@ + s_pattens(l.pattens@, " | "@) + " = "@ + s_expr(l.expr),
                ExprKind::For(f) => s_opt_label(f.label) + "for "@ + s_patten(f.patten) + " in "@ + s_expr(
                    f.expr,
                ) + " "@ + s_block(f.block),
                ExprKind::Loop(l) => s_opt_label(l.label) + "loop "@ + s_block(l.block),
                ExprKind::Break(b) => "break"@ + match b.label {
                    Some(l) => " "@ + l@,
                    None => Seq::<char>::empty(),
                } + s_opt_expr(b.expr, " "@),
                ExprKind::Continue(c) => "continue"@ + match c.label {
                    Some(l) => " "@ + l@,
                    None => Seq::<char>::empty(),
                },
                ExprKind::Match(m) => "match "@ + s_expr(m.expr) + " { .. }"@,
                ExprKind::FnCall(f) => s_expr(f.name) + "("@ + s_exprs(f.args@, ", "@) + ")"@,
                ExprKind::MethodCall(m) => s_method_call(*m),
                ExprKind::Closure(c) => (if c.is_static {
                    "static "@
                } else {
                    Seq::<char>::empty()
                }) + (if c.is_async {
                    "async "@
                } else {
                    Seq::<char>::empty()
                }) + (if c.is_move {
                    "move "@
                } else {
                    Seq::<char>::empty()
                }) + "|"@ + s_closure_args(c.sig.args@) + "|"@ + s_return(c.sig.ret) + " "@ + s_expr(c.expr),
                ExprKind::Return(r) => "return"@ + s_opt_expr(r.ret, " "@),
                ExprKind::Macro(m) => s_macro(m),
            }
        }),
{
}

/// `s_macro_args` unfolded one step: its defining equation.
pub proof fn lemma_s_macro_args(exprs: Seq<Expr>, seps: Seq<MacroSep>)
    ensures
        s_macro_args(exprs, seps) == ({
            if exprs.len() == 0 {
                Seq::<char>::empty()
            } else if exprs.len() == 1 {
                s_expr(exprs[0])
            } else {
                let k = exprs.len() - 2;
                s_macro_args(exprs.drop_last(), seps) + (if k < seps.len() {
                    s_macro_sep(seps[k])
                } else {
                    Seq::<char>::empty()
                }) + s_expr(exprs.last())
            }
        }),
{
}

/// `s_macro` unfolded one step: its defining equation.
pub proof fn lemma_s_macro(m: Macro)
    ensures
        s_macro(m) == ({
            m.name@ + "!"@ + s_macro_delims(m.style).0 + s_macro_args(m.exprs@, m.seps@) + s_macro_delims(
                m.style,
            ).1
        }),
{
}


/// An identifier pattern's head starts with `ref ` exactly when the pattern
/// binds by reference, and ends with `mut ` exactly when it is mutable; it is
/// nothing else.
pub proof fn law_ident_patten_head(is_ref: bool, is_mut: bool)
    ensures
        ({
            let h = s_ident_patten_head(is_ref, is_mut);
            &&& h.len() == (if is_ref { 4int } else { 0int }) + (if is_mut { 4int } else { 0int })
            &&& is_ref ==> h.take(4) == seq!['r', 'e', 'f', ' ']
            &&& is_mut ==> h.skip(h.len() - 4) == seq!['m', 'u', 't', ' ']
            &&& is_ref && is_mut ==> h == seq!['r', 'e', 'f', ' ', 'm', 'u', 't', ' ']
        }),
{
    reveal_strlit("ref ");
    reveal_strlit("mut ");
    let h = s_ident_patten_head(is_ref, is_mut);
    if is_ref && is_mut {
        assert(h =~= seq!['r', 'e', 'f', ' ', 'm', 'u', 't', ' ']);
    }
    if is_ref {
        assert(h.take(4) =~= seq!['r', 'e', 'f', ' ']);
    }
    if is_mut {
        assert(h.skip(h.len() - 4) =~= seq!['m', 'u', 't', ' ']);
    }
}

} // verus!
