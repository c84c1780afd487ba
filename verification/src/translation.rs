//! What translating the syntax tree does, node by node: to the comment
//! tracker (`t_*`: which comments each node hands out, in which order, and
//! where the last node ended), and to the IR (`gives_*`: the node that
//! translating a node from a given state gives). The translator
//! (`tr::Translator`) follows these steps.
use crate::ast::{
    Arg, Arm, Attribute, Block, Crate, Expr, ExprKind, Field, FieldDef, FieldPat, FnDecl,
    ForeignItem, ForeignItemKind, GenericArg, GenericArgs, GenericBound, GenericParam,
    GenericParamKind, Generics, ImplItem, ImplItemKind, Item, ItemKind, Local, Mac, MetaItem,
    MetaItemKind, Mod, NestedMetaItem, Pat, PatKind, Path, PathSegment, PolyTraitRef, QSelf,
    Span, Stmt, StmtKind, TraitItem, TraitItemKind, TupleFieldDef, Ty, TyKind, UseTree,
    UseTreeKind, Variant, VariantData, WherePredicate, AttributeKind, AssocTyConstraint,
    AssocTyConstraintKind,
};
use crate::ast::{BlockCheck, FnHeader, Ident, UnOp};
use crate::ir;
use crate::ir::{Loc, Pos};
use crate::tr::{
    arrow_at, hand_out, is_nl_text, join, keeps_order_of_equals, spec_binop, spec_has_patten, spec_ident, spec_macro_style,
    spec_vis, use_trees_sorted, SepToken, TrackerView,
};
use vstd::prelude::*;
use vstd::utf8::{decode_utf8, encode_utf8, is_char_boundary};

verus! {

/// The text of the source between the byte positions `lo` and `hi` of its
/// UTF-8 encoding, where `lo <= hi`, `hi` is within the text and both fall on
/// character boundaries; nothing otherwise.
pub open spec fn source_snippet(src: Seq<char>, lo: usize, hi: usize) -> Option<Seq<char>> {
    let b = encode_utf8(src);
    if lo <= hi && hi <= b.len() && is_char_boundary(b, lo as int) && is_char_boundary(b, hi as int) {
        Some(decode_utf8(b.subrange(lo as int, hi as int)))
    } else {
        None
    }
}

/// The translator's state: the comment tracker, and the source text.
pub struct TrState {
    pub v: TrackerView,
    pub src: Seq<char>,
}

/// A node starting at `to` starts a line of its own: the source between the
/// end of the last node and `to` has a line break followed by whitespace only.
#[verifier::opaque]
pub open spec fn nl_at(src: Seq<char>, from: Pos, to: Pos) -> bool {
    match source_snippet(src, from as usize, to as usize) {
        Some(s) => is_nl_text(s),
        None => false,
    }
}

/// The location the translator gives a node spanning `sp`.
pub open spec fn loc_of(s: TrState, sp: Span) -> Loc {
    Loc { start: sp.lo, end: sp.hi, nl: nl_at(s.src, s.v.last_end, sp.lo) }
}

/// Opening a node: the comments before its start are handed out.
#[verifier::opaque]
pub open spec fn tr_open(s: TrState, sp: Span) -> TrState {
    TrState { v: hand_out(s.v, sp.lo), ..s }
}

/// Closing a node: the comments before its end are handed out, and the node
/// is the last one.
#[verifier::opaque]
pub open spec fn tr_close(s: TrState, end: Pos) -> TrState {
    TrState { v: TrackerView { last_end: end, ..hand_out(s.v, end) }, ..s }
}

/// A node without children, opened and closed at once.
pub open spec fn tr_leaf(s: TrState, sp: Span) -> TrState {
    tr_close(tr_open(s, sp), sp.hi)
}

// ---------------------------------------------------------------------------
// Attributes
// ---------------------------------------------------------------------------

pub open spec fn t_attrs(s: TrState, v: Seq<Attribute>, n: int) -> TrState
    decreases v, n,
{
    if n <= 0 || n > v.len() {
        s
    } else {
        t_attr(t_attrs(s, v, n - 1), v[n - 1])
    }
}

pub open spec fn t_attr(s: TrState, a: Attribute) -> TrState
    decreases a, 0int,
{
    match a.kind {
        AttributeKind::Doc(_) => tr_leaf(s, a.span),
        AttributeKind::Meta(m) => {
            let s1 = tr_open(s, a.span);
            let fwd: int = if a.is_inner {
                2
            } else {
                1
            };
            tr_close(t_meta_item(s1, m, fwd), a.span.hi)
        },
    }
}

/// The span of an attribute's item, `fwd` bytes past where the parser puts
/// its start (at most the last position).
pub open spec fn meta_span(m: MetaItem, fwd: int) -> Span {
    Span {
        lo: if m.span.lo + fwd <= u32::MAX {
            (m.span.lo + fwd) as Pos
        } else {
            u32::MAX
        },
        hi: m.span.hi,
    }
}

pub open spec fn t_meta_item(s: TrState, m: MetaItem, fwd: int) -> TrState
    decreases m, 0int,
{
    let sp = meta_span(m, fwd);
    match m.kind {
        MetaItemKind::Word => tr_leaf(s, sp),
        MetaItemKind::NameValue(_) => tr_leaf(s, sp),
        MetaItemKind::List(items) => tr_close(
            t_nested_meta_items(tr_open(s, sp), items@, items@.len() as int),
            sp.hi,
        ),
    }
}

pub open spec fn t_nested_meta_items(s: TrState, v: Seq<NestedMetaItem>, n: int) -> TrState
    decreases v, n,
{
    if n <= 0 || n > v.len() {
        s
    } else {
        let s1 = t_nested_meta_items(s, v, n - 1);
        match v[n - 1] {
            NestedMetaItem::Literal(l) => tr_leaf(s1, l.span),
            NestedMetaItem::MetaItem(m) => t_meta_item(s1, m, 0),
        }
    }
}

// ---------------------------------------------------------------------------
// Modules and items
// ---------------------------------------------------------------------------

/// The crate up to the comments after its last node (the tracker hands
/// those out when it finishes at the end of the file).
pub open spec fn t_crate(s: TrState, k: Crate) -> TrState {
    t_mod(t_attrs(tr_open(s, k.span), k.attrs@, k.attrs@.len() as int), k.module)
}

pub open spec fn t_mod(s: TrState, m: Mod) -> TrState
    decreases m, 1int,
{
    tr_close(t_items(tr_open(s, m.inner), m.items@, m.items@.len() as int), m.inner.hi)
}

pub open spec fn t_items(s: TrState, v: Seq<Item>, n: int) -> TrState
    decreases v, n,
{
    if n <= 0 || n > v.len() {
        s
    } else {
        t_item(t_items(s, v, n - 1), v[n - 1])
    }
}

pub open spec fn t_item(s: TrState, it: Item) -> TrState
    decreases it, 1int,
{
    let s1 = t_attrs(tr_open(s, it.span), it.attrs@, it.attrs@.len() as int);
    tr_close(t_item_kind(s1, it.kind), it.span.hi)
}

pub open spec fn t_item_kind(s: TrState, k: ItemKind) -> TrState
    decreases k, 0int,
{
    match k {
        ItemKind::Mod(m) => if m.inline {
            t_mod(s, m)
        } else {
            s
        },
        ItemKind::ExternCrate(_) => s,
        ItemKind::Use(t) => t_use_tree(s, t),
        ItemKind::Ty(ty, g) => t_type(t_generics(s, g), ty),
        ItemKind::TraitAlias(g, b) => t_bounds(t_generics(s, g), b@, b@.len() as int),
        ItemKind::Existential(b, g) => t_bounds(t_generics(s, g), b@, b@.len() as int),
        ItemKind::Const(ty, e) => t_expr(t_type(s, ty), e),
        ItemKind::Static(ty, _, e) => t_expr(t_type(s, ty), e),
        ItemKind::Struct(vd, g) => t_variant_data(t_generics(s, g), vd),
        ItemKind::Union(fs, g) => t_generics(t_field_defs(s, fs@, fs@.len() as int), g),
        ItemKind::Enum(vs, g) => t_variants(t_generics(s, g), vs@, vs@.len() as int),
        ItemKind::ForeignMod(fm) => t_foreign_items(s, fm.items@, fm.items@.len() as int),
        ItemKind::Fn(d, _, g, b) => t_block(t_fn_decl(t_generics(s, g), d), b),
        ItemKind::Trait(td) => {
            let s1 = t_bounds(t_generics(s, td.generics), td.bounds@, td.bounds@.len() as int);
            t_trait_items(s1, td.items@, td.items@.len() as int)
        },
        ItemKind::Impl(im) => {
            let s1 = t_generics(s, im.generics);
            let s2 = match im.trait_ref {
                Some(p) => t_path(s1, p),
                None => s1,
            };
            t_impl_items(t_type(s2, im.ty), im.items@, im.items@.len() as int)
        },
        ItemKind::MacroDef(_) => s,
        ItemKind::Mac(m) => t_mac(s, m),
    }
}

pub open spec fn t_use_tree(s: TrState, t: UseTree) -> TrState
    decreases t, 0int,
{
    match t.kind {
        UseTreeKind::Nested(ts) => tr_close(
            t_use_trees(tr_open(s, t.span), ts@, ts@.len() as int),
            t.span.hi,
        ),
        _ => tr_leaf(s, t.span),
    }
}

pub open spec fn t_use_trees(s: TrState, v: Seq<UseTree>, n: int) -> TrState
    decreases v, n,
{
    if n <= 0 || n > v.len() {
        s
    } else {
        t_use_tree(t_use_trees(s, v, n - 1), v[n - 1])
    }
}

// ---------------------------------------------------------------------------
// Generics
// ---------------------------------------------------------------------------

pub open spec fn t_generics(s: TrState, g: Generics) -> TrState
    decreases g, 0int,
{
    let ps = g.params@;
    let s1 = t_lifetime_defs(s, ps, ps.len() as int);
    let s2 = t_type_params(s1, ps, ps.len() as int);
    t_where_preds(s2, g.where_predicates@, g.where_predicates@.len() as int)
}

/// The lifetime parameters among the first `n` parameters.
pub open spec fn t_lifetime_defs(s: TrState, v: Seq<GenericParam>, n: int) -> TrState
    decreases v, n,
{
    if n <= 0 || n > v.len() {
        s
    } else {
        let s1 = t_lifetime_defs(s, v, n - 1);
        match v[n - 1].kind {
            GenericParamKind::Lifetime => t_lifetime_def(s1, v[n - 1]),
            _ => s1,
        }
    }
}

pub open spec fn t_lifetime_def(s: TrState, p: GenericParam) -> TrState
    decreases p, 0int,
{
    t_lifetimes(tr_leaf(s, p.ident.span), p.bounds@, p.bounds@.len() as int)
}

/// The lifetimes among the first `n` bounds.
pub open spec fn t_lifetimes(s: TrState, v: Seq<GenericBound>, n: int) -> TrState
    decreases v, n,
{
    if n <= 0 || n > v.len() {
        s
    } else {
        let s1 = t_lifetimes(s, v, n - 1);
        match v[n - 1] {
            GenericBound::Outlives(l) => tr_leaf(s1, l.span),
            _ => s1,
        }
    }
}

/// The type parameters among the first `n` parameters.
pub open spec fn t_type_params(s: TrState, v: Seq<GenericParam>, n: int) -> TrState
    decreases v, n,
{
    if n <= 0 || n > v.len() {
        s
    } else {
        let s1 = t_type_params(s, v, n - 1);
        match v[n - 1].kind {
            GenericParamKind::Type(_) => t_type_param(s1, v[n - 1]),
            _ => s1,
        }
    }
}

pub open spec fn t_type_param(s: TrState, p: GenericParam) -> TrState
    decreases p, 0int,
{
    let s1 = t_bounds(tr_open(s, p.ident.span), p.bounds@, p.bounds@.len() as int);
    let s2 = match p.kind {
        GenericParamKind::Type(Some(ty)) => t_type(s1, ty),
        _ => s1,
    };
    tr_close(s2, p.ident.span.hi)
}

pub open spec fn t_bounds(s: TrState, v: Seq<GenericBound>, n: int) -> TrState
    decreases v, n,
{
    if n <= 0 || n > v.len() {
        s
    } else {
        t_bound(t_bounds(s, v, n - 1), v[n - 1])
    }
}

pub open spec fn t_bound(s: TrState, b: GenericBound) -> TrState
    decreases b, 0int,
{
    match b {
        GenericBound::Outlives(l) => tr_leaf(s, l.span),
        GenericBound::Trait(p, maybe) => t_poly_trait_ref(s, p, maybe),
    }
}

pub open spec fn t_poly_trait_ref(s: TrState, p: PolyTraitRef, maybe: bool) -> TrState
    decreases p, 0int,
{
    if maybe {
        tr_leaf(s, p.span)
    } else {
        let s1 = t_lifetime_defs(
            tr_open(s, p.span),
            p.bound_generic_params@,
            p.bound_generic_params@.len() as int,
        );
        tr_close(t_path(s1, p.trait_ref), p.span.hi)
    }
}

pub open spec fn t_where_preds(s: TrState, v: Seq<WherePredicate>, n: int) -> TrState
    decreases v, n,
{
    if n <= 0 || n > v.len() {
        s
    } else {
        t_where_pred(t_where_preds(s, v, n - 1), v[n - 1])
    }
}

pub open spec fn t_where_pred(s: TrState, w: WherePredicate) -> TrState
    decreases w, 0int,
{
    match w {
        WherePredicate::Region(r) => {
            let s1 = tr_leaf(tr_open(s, r.span), r.lifetime.span);
            tr_close(t_lifetimes(s1, r.bounds@, r.bounds@.len() as int), r.span.hi)
        },
        WherePredicate::Bound(b) => {
            let s1 = t_lifetime_defs(
                tr_open(s, b.span),
                b.bound_generic_params@,
                b.bound_generic_params@.len() as int,
            );
            let s2 = t_type(s1, b.bounded_ty);
            tr_close(t_bounds(s2, b.bounds@, b.bounds@.len() as int), b.span.hi)
        },
    }
}

// ---------------------------------------------------------------------------
// Paths
// ---------------------------------------------------------------------------

pub open spec fn t_path(s: TrState, p: Path) -> TrState
    decreases p, 0int,
{
    tr_close(t_segments(tr_open(s, p.span), p.segments@, p.segments@.len() as int), p.span.hi)
}

pub open spec fn t_segments(s: TrState, v: Seq<PathSegment>, n: int) -> TrState
    decreases v, n,
{
    if n <= 0 || n > v.len() {
        s
    } else {
        t_segment(t_segments(s, v, n - 1), v[n - 1])
    }
}

pub open spec fn t_segment(s: TrState, seg: PathSegment) -> TrState
    decreases seg, 0int,
{
    match seg.args {
        Some(a) => t_generic_args(s, a),
        None => s,
    }
}

pub open spec fn t_generic_args(s: TrState, a: GenericArgs) -> TrState
    decreases a, 0int,
{
    match a {
        GenericArgs::AngleBracketed(ab) => {
            let v = ab.args@;
            let s1 = t_arg_types(t_arg_lifetimes(s, v, v.len() as int), v, v.len() as int);
            t_constraints(s1, ab.constraints@, ab.constraints@.len() as int)
        },
        GenericArgs::Parenthesized(p) => {
            let s1 = t_types(tr_open(s, p.span), p.inputs@, p.inputs@.len() as int);
            let s2 = match p.output {
                Some(t) => t_type(s1, t),
                None => s1,
            };
            tr_close(s2, p.span.hi)
        },
    }
}

/// The lifetimes among the first `n` generic arguments.
pub open spec fn t_arg_lifetimes(s: TrState, v: Seq<GenericArg>, n: int) -> TrState
    decreases v, n,
{
    if n <= 0 || n > v.len() {
        s
    } else {
        let s1 = t_arg_lifetimes(s, v, n - 1);
        match v[n - 1] {
            GenericArg::Lifetime(l) => tr_leaf(s1, l.span),
            _ => s1,
        }
    }
}

/// The types among the first `n` generic arguments.
pub open spec fn t_arg_types(s: TrState, v: Seq<GenericArg>, n: int) -> TrState
    decreases v, n,
{
    if n <= 0 || n > v.len() {
        s
    } else {
        let s1 = t_arg_types(s, v, n - 1);
        match v[n - 1] {
            GenericArg::Type(t) => t_type(s1, t),
            _ => s1,
        }
    }
}

pub open spec fn t_constraints(s: TrState, v: Seq<AssocTyConstraint>, n: int) -> TrState
    decreases v, n,
{
    if n <= 0 || n > v.len() {
        s
    } else {
        t_constraint(t_constraints(s, v, n - 1), v[n - 1])
    }
}

pub open spec fn t_constraint(s: TrState, c: AssocTyConstraint) -> TrState
    decreases c, 0int,
{
    let s1 = tr_open(s, c.span);
    let s2 = match c.kind {
        AssocTyConstraintKind::Equality(t) => t_type(s1, t),
        AssocTyConstraintKind::Bound(b) => t_bounds(s1, b@, b@.len() as int),
    };
    tr_close(s2, c.span.hi)
}

/// The type of a qualified path's `<T as ...>`, where there is one.
pub open spec fn t_qself(s: TrState, q: Option<QSelf>) -> TrState
    decreases q, 0int,
{
    match q {
        Some(q) => t_type(s, *q.ty),
        None => s,
    }
}

// ---------------------------------------------------------------------------
// Types
// ---------------------------------------------------------------------------

pub open spec fn t_types(s: TrState, v: Seq<Ty>, n: int) -> TrState
    decreases v, n,
{
    if n <= 0 || n > v.len() {
        s
    } else {
        t_type(t_types(s, v, n - 1), v[n - 1])
    }
}

pub open spec fn t_type(s: TrState, t: Ty) -> TrState
    decreases t, 0int,
{
    let s1 = tr_open(s, t.span);
    let s2 = match t.kind {
        TyKind::Path(q, p) => t_path(t_qself(s1, q), p),
        TyKind::Ptr(_, ty) => t_type(s1, *ty),
        TyKind::Rptr(l, _, ty) => t_type(
            match l {
                Some(l) => tr_leaf(s1, l.span),
                None => s1,
            },
            *ty,
        ),
        TyKind::Tup(ts) => t_types(s1, ts@, ts@.len() as int),
        TyKind::Paren(ty) => t_type(s1, *ty),
        TyKind::Slice(ty) => t_type(s1, *ty),
        TyKind::Array(ty, e) => t_expr(t_type(s1, *ty), *e),
        TyKind::TraitObject(b, _) => t_bounds(s1, b@, b@.len() as int),
        TyKind::ImplTrait(b) => t_bounds(s1, b@, b@.len() as int),
        TyKind::BareFn(bf) => t_fn_decl(
            t_lifetime_defs(s1, bf.generic_params@, bf.generic_params@.len() as int),
            bf.decl,
        ),
        TyKind::Mac(m) => t_mac(s1, m),
        _ => s1,
    };
    tr_close(s2, t.span.hi)
}

pub open spec fn t_fn_decl(s: TrState, d: FnDecl) -> TrState
    decreases d, 0int,
{
    let s1 = t_args(s, d.inputs@, d.inputs@.len() as int);
    match d.output {
        Some(t) => t_type(s1, t),
        None => s1,
    }
}

pub open spec fn t_args(s: TrState, v: Seq<Arg>, n: int) -> TrState
    decreases v, n,
{
    if n <= 0 || n > v.len() {
        s
    } else {
        let a = v[n - 1];
        t_type(t_pat(t_args(s, v, n - 1), a.pat), a.ty)
    }
}

// ---------------------------------------------------------------------------
// Structs, enums, foreign items, traits, impls
// ---------------------------------------------------------------------------

pub open spec fn t_variant_data(s: TrState, vd: VariantData) -> TrState
    decreases vd, 0int,
{
    match vd {
        VariantData::Struct(fs) => t_field_defs(s, fs@, fs@.len() as int),
        VariantData::Tuple(fs) => t_tuple_field_defs(s, fs@, fs@.len() as int),
        VariantData::Unit => s,
    }
}

pub open spec fn t_field_defs(s: TrState, v: Seq<FieldDef>, n: int) -> TrState
    decreases v, n,
{
    if n <= 0 || n > v.len() {
        s
    } else {
        let f = v[n - 1];
        let s1 = t_attrs(tr_open(t_field_defs(s, v, n - 1), f.span), f.attrs@, f.attrs@.len() as int);
        tr_close(t_type(s1, f.ty), f.span.hi)
    }
}

pub open spec fn t_tuple_field_defs(s: TrState, v: Seq<TupleFieldDef>, n: int) -> TrState
    decreases v, n,
{
    if n <= 0 || n > v.len() {
        s
    } else {
        let f = v[n - 1];
        let s1 = t_attrs(
            tr_open(t_tuple_field_defs(s, v, n - 1), f.span),
            f.attrs@,
            f.attrs@.len() as int,
        );
        tr_close(t_type(s1, f.ty), f.span.hi)
    }
}

pub open spec fn t_variants(s: TrState, v: Seq<Variant>, n: int) -> TrState
    decreases v, n,
{
    if n <= 0 || n > v.len() {
        s
    } else {
        t_variant(t_variants(s, v, n - 1), v[n - 1])
    }
}

pub open spec fn t_variant(s: TrState, va: Variant) -> TrState
    decreases va, 0int,
{
    let s1 = t_attrs(tr_open(s, va.span), va.attrs@, va.attrs@.len() as int);
    let s2 = t_variant_data(s1, va.data);
    let s3 = match va.disr_expr {
        Some(e) => t_expr(s2, e),
        None => s2,
    };
    tr_close(s3, va.span.hi)
}

pub open spec fn t_foreign_items(s: TrState, v: Seq<ForeignItem>, n: int) -> TrState
    decreases v, n,
{
    if n <= 0 || n > v.len() {
        s
    } else {
        t_foreign_item(t_foreign_items(s, v, n - 1), v[n - 1])
    }
}

pub open spec fn t_foreign_item(s: TrState, it: ForeignItem) -> TrState
    decreases it, 0int,
{
    let s1 = t_attrs(tr_open(s, it.span), it.attrs@, it.attrs@.len() as int);
    let s2 = match it.kind {
        ForeignItemKind::Ty => s1,
        ForeignItemKind::Static(ty, _) => t_type(s1, ty),
        ForeignItemKind::Fn(d, g) => t_fn_decl(t_generics(s1, g), d),
        ForeignItemKind::Macro(m) => t_mac(s1, m),
    };
    tr_close(s2, it.span.hi)
}

pub open spec fn t_trait_items(s: TrState, v: Seq<TraitItem>, n: int) -> TrState
    decreases v, n,
{
    if n <= 0 || n > v.len() {
        s
    } else {
        t_trait_item(t_trait_items(s, v, n - 1), v[n - 1])
    }
}

pub open spec fn t_trait_item(s: TrState, it: TraitItem) -> TrState
    decreases it, 0int,
{
    let s1 = t_attrs(tr_open(s, it.span), it.attrs@, it.attrs@.len() as int);
    let s2 = t_generics(s1, it.generics);
    let s3 = match it.kind {
        TraitItemKind::Const(ty, e) => {
            let s4 = t_type(s2, ty);
            match e {
                Some(e) => t_expr(s4, e),
                None => s4,
            }
        },
        TraitItemKind::Type(b, ty) => {
            let s4 = t_bounds(s2, b@, b@.len() as int);
            match ty {
                Some(ty) => t_type(s4, ty),
                None => s4,
            }
        },
        TraitItemKind::Method(sig, blk) => {
            let s4 = t_fn_decl(s2, sig.decl);
            match blk {
                Some(b) => t_block(s4, b),
                None => s4,
            }
        },
        TraitItemKind::Macro(m) => t_mac(s2, m),
    };
    tr_close(s3, it.span.hi)
}

pub open spec fn t_impl_items(s: TrState, v: Seq<ImplItem>, n: int) -> TrState
    decreases v, n,
{
    if n <= 0 || n > v.len() {
        s
    } else {
        t_impl_item(t_impl_items(s, v, n - 1), v[n - 1])
    }
}

pub open spec fn t_impl_item(s: TrState, it: ImplItem) -> TrState
    decreases it, 0int,
{
    let s1 = t_attrs(tr_open(s, it.span), it.attrs@, it.attrs@.len() as int);
    let s2 = t_generics(s1, it.generics);
    let s3 = match it.kind {
        ImplItemKind::Const(ty, e) => t_expr(t_type(s2, ty), e),
        ImplItemKind::Type(ty) => t_type(s2, ty),
        ImplItemKind::Existential(b) => t_bounds(s2, b@, b@.len() as int),
        ImplItemKind::Method(sig, b) => t_block(t_fn_decl(s2, sig.decl), b),
        ImplItemKind::Macro(m) => t_mac(s2, m),
    };
    tr_close(s3, it.span.hi)
}

// ---------------------------------------------------------------------------
// Blocks, statements, patterns
// ---------------------------------------------------------------------------

pub open spec fn t_block(s: TrState, b: Block) -> TrState
    decreases b, 0int,
{
    tr_close(t_stmts(tr_open(s, b.span), b.stmts@, b.stmts@.len() as int), b.span.hi)
}

pub open spec fn t_stmts(s: TrState, v: Seq<Stmt>, n: int) -> TrState
    decreases v, n,
{
    if n <= 0 || n > v.len() {
        s
    } else {
        t_stmt(t_stmts(s, v, n - 1), v[n - 1])
    }
}

pub open spec fn t_stmt(s: TrState, st: Stmt) -> TrState
    decreases st, 0int,
{
    let s1 = tr_open(s, st.span);
    let s2 = match st.kind {
        StmtKind::Item(it) => t_item(s1, it),
        StmtKind::Local(l) => t_local(s1, l),
        StmtKind::Semi(e) => t_expr(s1, e),
        StmtKind::Expr(e) => t_expr(s1, e),
        StmtKind::Mac(m, _, attrs) => {
            let s3 = t_attrs(tr_open(s1, m.span), attrs@, attrs@.len() as int);
            tr_close(t_mac(s3, m), m.span.hi)
        },
    };
    tr_close(s2, st.span.hi)
}

pub open spec fn t_local(s: TrState, l: Local) -> TrState
    decreases l, 0int,
{
    let s1 = t_pat(t_attrs(tr_open(s, l.span), l.attrs@, l.attrs@.len() as int), l.pat);
    let s2 = match l.ty {
        Some(t) => t_type(s1, t),
        None => s1,
    };
    let s3 = match l.init {
        Some(e) => t_expr(s2, e),
        None => s2,
    };
    tr_close(s3, l.span.hi)
}

pub open spec fn t_pats(s: TrState, v: Seq<Pat>, n: int) -> TrState
    decreases v, n,
{
    if n <= 0 || n > v.len() {
        s
    } else {
        t_pat(t_pats(s, v, n - 1), v[n - 1])
    }
}

pub open spec fn t_pat(s: TrState, p: Pat) -> TrState
    decreases p, 0int,
{
    let s1 = tr_open(s, p.span);
    let s2 = match p.kind {
        PatKind::Lit(e) => t_expr(s1, *e),
        PatKind::Range(a, b, _) => t_expr(t_expr(s1, *a), *b),
        PatKind::Ref(q, _) => t_pat(s1, *q),
        PatKind::Path(q, path) => t_path(t_qself(s1, q), path),
        PatKind::Ident(_, _, _, sub) => match sub {
            Some(q) => t_pat(s1, *q),
            None => s1,
        },
        PatKind::Struct(path, fs, _) => t_field_pats(t_path(s1, path), fs@, fs@.len() as int),
        PatKind::TupleStruct(path, ps) => t_pats(t_path(s1, path), ps@, ps@.len() as int),
        PatKind::Paren(q) => t_pat(s1, *q),
        PatKind::Tuple(ps) => t_pats(s1, ps@, ps@.len() as int),
        PatKind::Slice(ps) => t_pats(s1, ps@, ps@.len() as int),
        PatKind::Mac(m) => t_mac(s1, m),
        _ => s1,
    };
    tr_close(s2, p.span.hi)
}

pub open spec fn t_field_pats(s: TrState, v: Seq<FieldPat>, n: int) -> TrState
    decreases v, n,
{
    if n <= 0 || n > v.len() {
        s
    } else {
        let f = v[n - 1];
        tr_close(t_pat(tr_open(t_field_pats(s, v, n - 1), f.span), f.pat), f.span.hi)
    }
}

// ---------------------------------------------------------------------------
// Expressions
// ---------------------------------------------------------------------------

pub open spec fn t_exprs(s: TrState, v: Seq<Expr>, n: int) -> TrState
    decreases v, n,
{
    if n <= 0 || n > v.len() {
        s
    } else {
        t_expr(t_exprs(s, v, n - 1), v[n - 1])
    }
}

pub open spec fn t_opt_expr(s: TrState, e: Option<Box<Expr>>) -> TrState
    decreases e, 0int,
{
    match e {
        Some(x) => t_expr(s, *x),
        None => s,
    }
}

pub open spec fn t_expr(s: TrState, e: Expr) -> TrState
    decreases e, 1int,
{
    let s1 = t_attrs(tr_open(s, e.span), e.attrs@, e.attrs@.len() as int);
    tr_close(t_expr_kind(s1, e.kind), e.span.hi)
}

pub open spec fn t_expr_kind(s: TrState, k: ExprKind) -> TrState
    decreases k, 0int,
{
    match k {
        ExprKind::Lit(l) => tr_leaf(s, l.span),
        ExprKind::Path(q, p) => t_path(t_qself(s, q), p),
        ExprKind::AddrOf(_, x) => t_expr(s, *x),
        ExprKind::Unary(_, x) => t_expr(s, *x),
        ExprKind::Try(x) => t_expr(s, *x),
        ExprKind::Binary(op, a, b) => t_expr(t_expr(tr_leaf(s, op.span), *a), *b),
        ExprKind::Assign(a, b) => t_expr(t_expr(s, *a), *b),
        ExprKind::AssignOp(op, a, b) => t_expr(t_expr(tr_leaf(s, op.span), *a), *b),
        ExprKind::Repeat(a, b) => t_expr(t_expr(s, *a), *b),
        ExprKind::Array(v) => t_exprs(s, v@, v@.len() as int),
        ExprKind::Tup(v) => t_exprs(s, v@, v@.len() as int),
        ExprKind::Paren(x) => t_expr(s, *x),
        ExprKind::Index(a, b) => t_expr(t_expr(s, *a), *b),
        ExprKind::Struct(p, fs, base) => t_opt_expr(
            t_fields(t_path(s, p), fs@, fs@.len() as int),
            base,
        ),
        ExprKind::Field(x, _) => t_expr(s, *x),
        ExprKind::Type(x, t) => t_type(t_expr(s, *x), t),
        ExprKind::Cast(x, t) => t_type(t_expr(s, *x), t),
        ExprKind::Range(a, b, _) => t_opt_expr(t_opt_expr(s, a), b),
        ExprKind::Block(b, _) => t_block(s, b),
        ExprKind::If(c, b, br) => t_opt_expr(t_block(t_expr(s, *c), b), br),
        ExprKind::While(c, b, _) => t_block(t_expr(s, *c), b),
        ExprKind::Let(ps, x) => t_expr(t_pats(s, ps@, ps@.len() as int), *x),
        ExprKind::ForLoop(p, x, b, _) => t_block(t_expr(t_pat(s, p), *x), b),
        ExprKind::Loop(b, _) => t_block(s, b),
        ExprKind::Break(_, x) => t_opt_expr(s, x),
        ExprKind::Continue(_) => s,
        ExprKind::Match(x, arms) => t_arms(t_expr(s, *x), arms@, arms@.len() as int),
        ExprKind::Call(f, args) => t_exprs(t_expr(s, *f), args@, args@.len() as int),
        ExprKind::MethodCall(seg, args) => t_exprs(t_segment(s, seg), args@, args@.len() as int),
        ExprKind::Closure(c) => t_expr(t_fn_decl(s, c.decl), *c.body),
        ExprKind::Ret(x) => t_opt_expr(s, x),
        ExprKind::Mac(m) => t_mac(s, m),
    }
}

pub open spec fn t_fields(s: TrState, v: Seq<Field>, n: int) -> TrState
    decreases v, n,
{
    if n <= 0 || n > v.len() {
        s
    } else {
        let f = v[n - 1];
        tr_close(t_expr(tr_open(t_fields(s, v, n - 1), f.span), f.expr), f.span.hi)
    }
}

pub open spec fn t_arms(s: TrState, v: Seq<Arm>, n: int) -> TrState
    decreases v, n,
{
    if n <= 0 || n > v.len() {
        s
    } else {
        t_arm(t_arms(s, v, n - 1), v[n - 1])
    }
}

pub open spec fn t_arm(s: TrState, a: Arm) -> TrState
    decreases a, 0int,
{
    let s1 = t_pats(t_attrs(s, a.attrs@, a.attrs@.len() as int), a.pats@, a.pats@.len() as int);
    let s2 = match a.guard {
        Some(g) => t_expr(s1, g),
        None => s1,
    };
    t_expr(s2, a.body)
}

pub open spec fn t_mac(s: TrState, m: Mac) -> TrState
    decreases m, 0int,
{
    t_exprs(s, m.exprs@, m.exprs@.len() as int)
}

// ---------------------------------------------------------------------------
// What the translator gives: node by node, the IR that translating a node
// from a state gives
// ---------------------------------------------------------------------------

/// A path's text: the names of its segments joined by `::`.
pub open spec fn path_text(p: Path) -> Seq<char> {
    join(p.segments@.map_values(|g: PathSegment| spec_ident(g.ident)), "::"@)
}

/// The `->` of a return type starting at `to` starts a line of its own: the
/// source from the end of the last node up to the first `->` has a line
/// break followed by whitespace only.
pub open spec fn return_nl(src: Seq<char>, from: Pos, to: Pos) -> bool {
    match source_snippet(src, from as usize, to as usize) {
        Some(t) => exists|k: int|
            #![trigger arrow_at(t, k)]
            arrow_at(t, k) && (forall|j: int| 0 <= j < k ==> !arrow_at(t, j)) && is_nl_text(t.take(k)),
        None => false,
    }
}

pub open spec fn gives_header(h: FnHeader, r: ir::FnHeader) -> bool {
    &&& r.is_unsafe == h.is_unsafe
    &&& r.is_async == h.is_async
    &&& r.is_const == h.is_const
    &&& r.abi@ == "\""@ + h.abi@ + "\""@
}

pub open spec fn gives_lifetime(s: TrState, id: Ident, r: ir::Chunk) -> bool {
    r.loc == loc_of(s, id.span) && r.s@ == id.name@
}

pub open spec fn gives_sep(t: SepToken, r: ir::MacroSep) -> bool {
    match t {
        SepToken::Comma => r.is_sep && r.s@ == ","@,
        SepToken::Semi => r.is_sep && r.s@ == ";"@,
        SepToken::FatArrow => r.is_sep && r.s@ == " =>"@,
        SepToken::DotDotDot => !r.is_sep && r.s@ == "..."@,
    }
}

pub open spec fn gives_attrs(s: TrState, v: Seq<Attribute>, n: int, rs: Seq<ir::AttrKind>) -> bool
    decreases v, n,
{
    if n <= 0 {
        rs.len() == 0
    } else if n > v.len() {
        false
    } else {
        &&& rs.len() > 0
        &&& gives_attrs(s, v, n - 1, rs.drop_last())
        &&& gives_attr(t_attrs(s, v, n - 1), v[n - 1], rs.last())
    }
}

pub open spec fn gives_attr(s: TrState, a: Attribute, r: ir::AttrKind) -> bool
    decreases a, 0int,
{
    match a.kind {
        AttributeKind::Doc(t) => r matches ir::AttrKind::Doc(c) && c.loc == loc_of(s, a.span) && c.s@ == t@,
        AttributeKind::Meta(m) => r matches ir::AttrKind::Attr(at) && at.loc == loc_of(s, a.span)
            && at.is_inner == a.is_inner && gives_meta(
            tr_open(s, a.span),
            m,
            if a.is_inner {
                2
            } else {
                1
            },
            at.item,
        ),
    }
}

pub open spec fn gives_meta(s: TrState, m: MetaItem, fwd: int, r: ir::MetaItem) -> bool
    decreases m, 0int,
{
    let sp = meta_span(m, fwd);
    &&& r.loc == loc_of(s, sp)
    &&& match m.kind {
        MetaItemKind::Word => r.name@ == path_text(m.path) && r.items is None,
        MetaItemKind::NameValue(l) => r.name@ == path_text(m.path) + " = "@ + l.text@ && r.items is None,
        MetaItemKind::List(items) => r.items matches Some(v) && r.name@ == path_text(m.path)
            && gives_nested_metas(tr_open(s, sp), items@, items@.len() as int, v@),
    }
}

pub open spec fn gives_nested_metas(s: TrState, v: Seq<NestedMetaItem>, n: int, rs: Seq<ir::MetaItem>) -> bool
    decreases v, n,
{
    if n <= 0 {
        rs.len() == 0
    } else if n > v.len() {
        false
    } else {
        let st = t_nested_meta_items(s, v, n - 1);
        &&& rs.len() > 0
        &&& gives_nested_metas(s, v, n - 1, rs.drop_last())
        &&& match v[n - 1] {
            NestedMetaItem::Literal(l) => rs.last().loc == loc_of(st, l.span) && rs.last().name@ == l.text@
                && rs.last().items is None,
            NestedMetaItem::MetaItem(m) => gives_meta(st, m, 0, rs.last()),
        }
    }
}

/// The crate: its attributes, then its module, named `name`.
pub open spec fn gives_crate(s: TrState, k: Crate, name: Seq<char>, r: ir::Crate) -> bool {
    let s1 = tr_open(s, k.span);
    &&& r.loc == loc_of(s, k.span)
    &&& gives_attrs(s1, k.attrs@, k.attrs@.len() as int, r.attrs@)
    &&& gives_mod(t_attrs(s1, k.attrs@, k.attrs@.len() as int), k.module, name, r.module)
}

pub open spec fn gives_mod(s: TrState, m: Mod, name: Seq<char>, r: ir::Mod) -> bool
    decreases m, 1int,
{
    &&& r.loc == loc_of(s, m.inner)
    &&& r.name@ == name
    &&& gives_items(tr_open(s, m.inner), m.items@, m.items@.len() as int, r.items@)
}

pub open spec fn gives_items(s: TrState, v: Seq<Item>, n: int, rs: Seq<ir::Item>) -> bool
    decreases v, n,
{
    if n <= 0 {
        rs.len() == 0
    } else if n > v.len() {
        false
    } else {
        &&& rs.len() > 0
        &&& gives_items(s, v, n - 1, rs.drop_last())
        &&& gives_item(t_items(s, v, n - 1), v[n - 1], rs.last())
    }
}

pub open spec fn gives_item(s: TrState, x: Item, r: ir::Item) -> bool
    decreases x, 1int,
{
    let s1 = tr_open(s, x.span);
    &&& r.loc == loc_of(s, x.span)
    &&& gives_attrs(s1, x.attrs@, x.attrs@.len() as int, r.attrs@)
    &&& r.vis@ == spec_vis(x.vis)
    &&& gives_item_kind(t_attrs(s1, x.attrs@, x.attrs@.len() as int), spec_ident(x.ident), x.kind, r.item)
}

pub open spec fn gives_item_kind(s: TrState, name: Seq<char>, k: ItemKind, r: ir::ItemKind) -> bool
    decreases k, 0int,
{
    match k {
        ItemKind::Mod(m) => if m.inline {
            r matches ir::ItemKind::Mod(rm) && gives_mod(s, m, name, rm)
        } else {
            r matches ir::ItemKind::ModDecl(d) && d.name@ == name
        },
        ItemKind::ExternCrate(rename) => r matches ir::ItemKind::ExternCrate(e) && e.name@ == match rename {
            Some(o) => o@ + " as "@ + name,
            None => name,
        },
        ItemKind::Use(t) => r matches ir::ItemKind::Use(u) && gives_use_tree_parts(
            s,
            t,
            loc_of(s, t.span),
            u.path,
            u.trees,
        ),
        ItemKind::Ty(ty, g) => r matches ir::ItemKind::TypeAlias(ta) && ta.name@ == name && gives_generics(
            s,
            g,
            ta.generics,
        ) && gives_type(t_generics(s, g), ty, ta.ty),
        ItemKind::TraitAlias(g, b) => r matches ir::ItemKind::TraitAlias(ta) && ta.name@ == name
            && gives_generics(s, g, ta.generics) && gives_bounds(
            t_generics(s, g),
            b@,
            b@.len() as int,
            ta.bounds.0@,
        ),
        ItemKind::Existential(b, g) => r matches ir::ItemKind::Existential(e) && e.name@ == name
            && gives_generics(s, g, e.generics) && gives_bounds(
            t_generics(s, g),
            b@,
            b@.len() as int,
            e.bounds.0@,
        ),
        ItemKind::Const(ty, e) => r matches ir::ItemKind::Const(c) && c.name@ == name && gives_type(s, ty, c.ty)
            && gives_expr(t_type(s, ty), e, c.expr),
        ItemKind::Static(ty, m, e) => r matches ir::ItemKind::Static(c) && c.name@ == name && c.is_mut == m
            && gives_type(s, ty, c.ty) && gives_expr(t_type(s, ty), e, c.expr),
        ItemKind::Struct(vd, g) => r matches ir::ItemKind::Struct(st) && st.name@ == name && gives_generics(
            s,
            g,
            st.generics,
        ) && gives_variant_data(t_generics(s, g), vd, st.body),
        ItemKind::Union(fs, g) => r matches ir::ItemKind::Union(u) && u.name@ == name && gives_field_defs(
            s,
            fs@,
            fs@.len() as int,
            u.fields@,
        ) && gives_generics(t_field_defs(s, fs@, fs@.len() as int), g, u.generics),
        ItemKind::Enum(vs, g) => r matches ir::ItemKind::Enum(e) && e.name@ == name && gives_generics(
            s,
            g,
            e.generics,
        ) && gives_variants(t_generics(s, g), vs@, vs@.len() as int, e.body.fields@),
        ItemKind::ForeignMod(fm) => r matches ir::ItemKind::ForeignMod(f) && f.abi@ == "\""@ + fm.abi@ + "\""@
            && gives_foreign_items(s, fm.items@, fm.items@.len() as int, f.items@),
        ItemKind::Fn(d, h, g, b) => r matches ir::ItemKind::Fn(f) && f.name@ == name && gives_header(h, f.header)
            && gives_generics(s, g, f.generics) && gives_fn_decl(t_generics(s, g), d, f.sig) && gives_block(
            t_fn_decl(t_generics(s, g), d),
            b,
            f.block,
        ),
        ItemKind::Trait(td) => r matches ir::ItemKind::Trait(t) && t.name@ == name && t.is_auto == td.is_auto
            && t.is_unsafe == td.is_unsafe && gives_generics(s, td.generics, t.generics) && gives_bounds(
            t_generics(s, td.generics),
            td.bounds@,
            td.bounds@.len() as int,
            t.bounds.0@,
        ) && gives_trait_items(
            t_bounds(t_generics(s, td.generics), td.bounds@, td.bounds@.len() as int),
            td.items@,
            td.items@.len() as int,
            t.items@,
        ),
        ItemKind::Impl(im) => {
            let s1 = t_generics(s, im.generics);
            let s2 = match im.trait_ref {
                Some(p) => t_path(s1, p),
                None => s1,
            };
            &&& r matches ir::ItemKind::Impl(i)
            &&& i.is_unsafe == im.is_unsafe && i.is_neg == im.is_neg && i.is_default == im.is_default
            &&& gives_generics(s, im.generics, i.generics)
            &&& match im.trait_ref {
                Some(p) => i.trait_ref matches Some(rp) && gives_path(s1, p, rp),
                None => i.trait_ref is None,
            }
            &&& gives_type(s2, im.ty, i.ty)
            &&& gives_impl_items(t_type(s2, im.ty), im.items@, im.items@.len() as int, i.items@)
        },
        ItemKind::MacroDef(def) => r matches ir::ItemKind::MacroDef(d) && d.name@ == name && d.def@ == def@,
        ItemKind::Mac(m) => r matches ir::ItemKind::Macro(rm) && gives_mac(s, m, rm),
    }
}

/// The parts of a translated `use` tree: the location it was given, its
/// path, and its subtrees (sorted, `self` first, equal ones in the order
/// they came).
pub open spec fn gives_use_tree_parts(
    s: TrState,
    t: UseTree,
    loc: ir::Loc,
    path: String,
    trees: Option<Vec<ir::UseTree>>,
) -> bool
    decreases t, 0int,
{
    let prefix = t.prefix.segments@.map_values(|g: PathSegment| spec_ident(g.ident));
    &&& loc == loc_of(s, t.span)
    &&& match t.kind {
        UseTreeKind::Simple(rename) => trees is None && path@ == join(prefix, "::"@) + match rename {
            Some(n) => " as "@ + spec_ident(n),
            None => Seq::<char>::empty(),
        },
        UseTreeKind::Glob => trees is None && path@ == (if prefix.len() > 0 {
            join(prefix, "::"@) + "::"@
        } else {
            Seq::<char>::empty()
        }) + "*"@,
        UseTreeKind::Nested(ts) => trees matches Some(v) && path@ == join(prefix, "::"@) && exists|u: Seq<ir::UseTree>|
            #![trigger u.to_multiset()]
            gives_use_trees(tr_open(s, t.span), ts@, ts@.len() as int, u) && v@.to_multiset()
                == u.to_multiset() && use_trees_sorted(v@) && exists|perm: Seq<int>|
                keeps_order_of_equals(u, v@, perm),
    }
}

pub open spec fn gives_use_trees(s: TrState, v: Seq<UseTree>, n: int, rs: Seq<ir::UseTree>) -> bool
    decreases v, n,
{
    if n <= 0 {
        rs.len() == 0
    } else if n > v.len() {
        false
    } else {
        let r = rs.last();
        &&& rs.len() > 0
        &&& gives_use_trees(s, v, n - 1, rs.drop_last())
        &&& gives_use_tree_parts(t_use_trees(s, v, n - 1), v[n - 1], r.loc, r.path, r.trees)
    }
}

pub open spec fn gives_generics(s: TrState, g: Generics, r: ir::Generics) -> bool
    decreases g, 0int,
{
    let ps = g.params@;
    let s1 = t_lifetime_defs(s, ps, ps.len() as int);
    let s2 = t_type_params(s1, ps, ps.len() as int);
    &&& gives_lifetime_defs(s, ps, ps.len() as int, r.lifetime_defs@)
    &&& gives_type_params(s1, ps, ps.len() as int, r.type_params@)
    &&& gives_where_preds(s2, g.where_predicates@, g.where_predicates@.len() as int, r.wh.clauses@)
}

pub open spec fn gives_lifetime_defs(s: TrState, v: Seq<GenericParam>, n: int, rs: Seq<ir::LifetimeDef>) -> bool
    decreases v, n,
{
    if n <= 0 {
        rs.len() == 0
    } else if n > v.len() {
        false
    } else {
        match v[n - 1].kind {
            GenericParamKind::Lifetime => rs.len() > 0 && gives_lifetime_defs(s, v, n - 1, rs.drop_last())
                && gives_lifetime_def(t_lifetime_defs(s, v, n - 1), v[n - 1], rs.last()),
            _ => gives_lifetime_defs(s, v, n - 1, rs),
        }
    }
}

pub open spec fn gives_lifetime_def(s: TrState, p: GenericParam, r: ir::LifetimeDef) -> bool
    decreases p, 0int,
{
    &&& gives_lifetime(s, p.ident, r.lifetime)
    &&& r.loc == r.lifetime.loc
    &&& gives_lifetimes(tr_leaf(s, p.ident.span), p.bounds@, p.bounds@.len() as int, r.bounds@)
}

pub open spec fn gives_lifetimes(s: TrState, v: Seq<GenericBound>, n: int, rs: Seq<ir::Chunk>) -> bool
    decreases v, n,
{
    if n <= 0 {
        rs.len() == 0
    } else if n > v.len() {
        false
    } else {
        match v[n - 1] {
            GenericBound::Outlives(l) => rs.len() > 0 && gives_lifetimes(s, v, n - 1, rs.drop_last())
                && gives_lifetime(t_lifetimes(s, v, n - 1), l, rs.last()),
            _ => gives_lifetimes(s, v, n - 1, rs),
        }
    }
}

pub open spec fn gives_type_params(s: TrState, v: Seq<GenericParam>, n: int, rs: Seq<ir::TypeParam>) -> bool
    decreases v, n,
{
    if n <= 0 {
        rs.len() == 0
    } else if n > v.len() {
        false
    } else {
        match v[n - 1].kind {
            GenericParamKind::Type(_) => rs.len() > 0 && gives_type_params(s, v, n - 1, rs.drop_last())
                && gives_type_param(t_type_params(s, v, n - 1), v[n - 1], rs.last()),
            _ => gives_type_params(s, v, n - 1, rs),
        }
    }
}

pub open spec fn gives_type_param(s: TrState, p: GenericParam, r: ir::TypeParam) -> bool
    decreases p, 0int,
{
    let s1 = tr_open(s, p.ident.span);
    let s2 = t_bounds(s1, p.bounds@, p.bounds@.len() as int);
    &&& r.loc == loc_of(s, p.ident.span)
    &&& r.name@ == spec_ident(p.ident)
    &&& gives_bounds(s1, p.bounds@, p.bounds@.len() as int, r.bounds.0@)
    &&& match p.kind {
        GenericParamKind::Type(Some(ty)) => r.default matches Some(d) && gives_type(s2, ty, d),
        _ => r.default is None,
    }
}

pub open spec fn gives_bounds(s: TrState, v: Seq<GenericBound>, n: int, rs: Seq<ir::TypeParamBound>) -> bool
    decreases v, n,
{
    if n <= 0 {
        rs.len() == 0
    } else if n > v.len() {
        false
    } else {
        &&& rs.len() > 0
        &&& gives_bounds(s, v, n - 1, rs.drop_last())
        &&& gives_bound(t_bounds(s, v, n - 1), v[n - 1], rs.last())
    }
}

pub open spec fn gives_bound(s: TrState, b: GenericBound, r: ir::TypeParamBound) -> bool
    decreases b, 0int,
{
    match b {
        GenericBound::Outlives(l) => r matches ir::TypeParamBound::Lifetime(c) && gives_lifetime(s, l, c),
        GenericBound::Trait(p, maybe) => r matches ir::TypeParamBound::PolyTraitRef(pr) && gives_poly_trait_ref(
            s,
            p,
            maybe,
            pr,
        ),
    }
}

pub open spec fn gives_poly_trait_ref(s: TrState, p: PolyTraitRef, maybe: bool, r: ir::PolyTraitRef) -> bool
    decreases p, 0int,
{
    &&& r.loc == loc_of(s, p.span)
    &&& if maybe {
        r.lifetime_defs@.len() == 0 && r.trait_ref.is_sized_path(loc_of(s, p.span))
    } else {
        let s1 = tr_open(s, p.span);
        let gp = p.bound_generic_params@;
        gives_lifetime_defs(s1, gp, gp.len() as int, r.lifetime_defs@) && gives_path(
            t_lifetime_defs(s1, gp, gp.len() as int),
            p.trait_ref,
            r.trait_ref,
        )
    }
}

pub open spec fn gives_where_preds(s: TrState, v: Seq<WherePredicate>, n: int, rs: Seq<ir::WhereClause>) -> bool
    decreases v, n,
{
    if n <= 0 {
        rs.len() == 0
    } else if n > v.len() {
        false
    } else {
        &&& rs.len() > 0
        &&& gives_where_preds(s, v, n - 1, rs.drop_last())
        &&& gives_where_pred(t_where_preds(s, v, n - 1), v[n - 1], rs.last())
    }
}

pub open spec fn gives_where_pred(s: TrState, w: WherePredicate, r: ir::WhereClause) -> bool
    decreases w, 0int,
{
    match w {
        WherePredicate::Region(rg) => {
            let s1 = tr_open(s, rg.span);
            &&& r.loc == loc_of(s, rg.span)
            &&& r.clause matches ir::WhereKind::LifetimeDef(ld)
            &&& gives_lifetime(s1, rg.lifetime, ld.lifetime)
            &&& ld.loc == ld.lifetime.loc
            &&& gives_lifetimes(tr_leaf(s1, rg.lifetime.span), rg.bounds@, rg.bounds@.len() as int, ld.bounds@)
        },
        WherePredicate::Bound(b) => {
            let s1 = tr_open(s, b.span);
            let gp = b.bound_generic_params@;
            let s2 = t_lifetime_defs(s1, gp, gp.len() as int);
            &&& r.loc == loc_of(s, b.span)
            &&& r.clause matches ir::WhereKind::Bound(wb)
            &&& gives_lifetime_defs(s1, gp, gp.len() as int, wb.lifetime_defs@)
            &&& gives_type(s2, b.bounded_ty, wb.ty)
            &&& gives_bounds(t_type(s2, b.bounded_ty), b.bounds@, b.bounds@.len() as int, wb.bounds.0@)
        },
    }
}

pub open spec fn gives_path(s: TrState, p: Path, r: ir::Path) -> bool
    decreases p, 0int,
{
    &&& r.loc == loc_of(s, p.span)
    &&& gives_segments(tr_open(s, p.span), p.segments@, p.segments@.len() as int, r.segments@)
}

pub open spec fn gives_segments(s: TrState, v: Seq<PathSegment>, n: int, rs: Seq<ir::PathSegment>) -> bool
    decreases v, n,
{
    if n <= 0 {
        rs.len() == 0
    } else if n > v.len() {
        false
    } else {
        &&& rs.len() > 0
        &&& gives_segments(s, v, n - 1, rs.drop_last())
        &&& gives_segment(t_segments(s, v, n - 1), v[n - 1], rs.last())
    }
}

pub open spec fn gives_segment(s: TrState, seg: PathSegment, r: ir::PathSegment) -> bool
    decreases seg, 0int,
{
    &&& r.name@ == spec_ident(seg.ident)
    &&& match seg.args {
        Some(a) => gives_generic_args(s, a, r.param),
        None => r.param matches ir::PathParam::Angle(ap) && ap.lifetimes@.len() == 0 && ap.types@.len() == 0
            && ap.bindings@.len() == 0,
    }
}

pub open spec fn gives_generic_args(s: TrState, a: GenericArgs, r: ir::PathParam) -> bool
    decreases a, 0int,
{
    match a {
        GenericArgs::AngleBracketed(ab) => {
            let v = ab.args@;
            let s1 = t_arg_lifetimes(s, v, v.len() as int);
            let s2 = t_arg_types(s1, v, v.len() as int);
            &&& r matches ir::PathParam::Angle(ap)
            &&& gives_arg_lifetimes(s, v, v.len() as int, ap.lifetimes@)
            &&& gives_arg_types(s1, v, v.len() as int, ap.types@)
            &&& gives_constraints(s2, ab.constraints@, ab.constraints@.len() as int, ap.bindings@)
        },
        GenericArgs::Parenthesized(p) => {
            let s1 = tr_open(s, p.span);
            let s2 = t_types(s1, p.inputs@, p.inputs@.len() as int);
            &&& r matches ir::PathParam::Paren(pp)
            &&& pp.loc == loc_of(s, p.span)
            &&& gives_types(s1, p.inputs@, p.inputs@.len() as int, pp.inputs@)
            &&& match p.output {
                Some(t) => pp.output matches Some(o) && gives_type(s2, t, o),
                None => pp.output is None,
            }
        },
    }
}

pub open spec fn gives_arg_lifetimes(s: TrState, v: Seq<GenericArg>, n: int, rs: Seq<ir::Chunk>) -> bool
    decreases v, n,
{
    if n <= 0 {
        rs.len() == 0
    } else if n > v.len() {
        false
    } else {
        match v[n - 1] {
            GenericArg::Lifetime(l) => rs.len() > 0 && gives_arg_lifetimes(s, v, n - 1, rs.drop_last())
                && gives_lifetime(t_arg_lifetimes(s, v, n - 1), l, rs.last()),
            _ => gives_arg_lifetimes(s, v, n - 1, rs),
        }
    }
}

pub open spec fn gives_arg_types(s: TrState, v: Seq<GenericArg>, n: int, rs: Seq<ir::Type>) -> bool
    decreases v, n,
{
    if n <= 0 {
        rs.len() == 0
    } else if n > v.len() {
        false
    } else {
        match v[n - 1] {
            GenericArg::Type(t) => rs.len() > 0 && gives_arg_types(s, v, n - 1, rs.drop_last()) && gives_type(
                t_arg_types(s, v, n - 1),
                t,
                rs.last(),
            ),
            _ => gives_arg_types(s, v, n - 1, rs),
        }
    }
}

pub open spec fn gives_constraints(s: TrState, v: Seq<AssocTyConstraint>, n: int, rs: Seq<ir::TypeBinding>) -> bool
    decreases v, n,
{
    if n <= 0 {
        rs.len() == 0
    } else if n > v.len() {
        false
    } else {
        &&& rs.len() > 0
        &&& gives_constraints(s, v, n - 1, rs.drop_last())
        &&& gives_constraint(t_constraints(s, v, n - 1), v[n - 1], rs.last())
    }
}

pub open spec fn gives_constraint(s: TrState, c: AssocTyConstraint, r: ir::TypeBinding) -> bool
    decreases c, 0int,
{
    let s1 = tr_open(s, c.span);
    &&& r.loc == loc_of(s, c.span)
    &&& r.name@ == spec_ident(c.ident)
    &&& match c.kind {
        AssocTyConstraintKind::Equality(t) => r.binding matches ir::TypeBindingKind::Eq(rt) && gives_type(s1, t, rt),
        AssocTyConstraintKind::Bound(b) => r.binding matches ir::TypeBindingKind::Bound(rb) && gives_bounds(
            s1,
            b@,
            b@.len() as int,
            rb.0@,
        ),
    }
}

pub open spec fn gives_qself(s: TrState, q: Option<QSelf>, r: Option<ir::QSelf>) -> bool
    decreases q, 0int,
{
    match q {
        Some(q) => r matches Some(rq) && rq.pos == q.position && gives_type(s, *q.ty, rq.ty),
        None => r is None,
    }
}

pub open spec fn gives_types(s: TrState, v: Seq<Ty>, n: int, rs: Seq<ir::Type>) -> bool
    decreases v, n,
{
    if n <= 0 {
        rs.len() == 0
    } else if n > v.len() {
        false
    } else {
        &&& rs.len() > 0
        &&& gives_types(s, v, n - 1, rs.drop_last())
        &&& gives_type(t_types(s, v, n - 1), v[n - 1], rs.last())
    }
}

pub open spec fn gives_type(s: TrState, t: Ty, r: ir::Type) -> bool
    decreases t, 0int,
{
    let s1 = tr_open(s, t.span);
    &&& r.loc == loc_of(s, t.span)
    &&& match t.kind {
        TyKind::Infer => r.ty matches ir::TypeKind::Symbol(x) && x@ == "_"@,
        TyKind::Never => r.ty matches ir::TypeKind::Symbol(x) && x@ == "!"@,
        TyKind::CVarArgs => r.ty matches ir::TypeKind::Symbol(x) && x@ == "..."@,
        TyKind::ImplicitSelf => r.ty matches ir::TypeKind::Symbol(x) && x@ == "self"@,
        TyKind::Path(q, p) => r.ty matches ir::TypeKind::Path(pt) && gives_qself(s1, q, pt.qself) && gives_path(
            t_qself(s1, q),
            p,
            pt.path,
        ),
        TyKind::Ptr(m, ty) => r.ty matches ir::TypeKind::Ptr(pt) && pt.is_mut == m && gives_type(s1, *ty, pt.ty),
        TyKind::Rptr(l, m, ty) => r.ty matches ir::TypeKind::Ref(rt) && rt.is_mut == m && match l {
            Some(l) => rt.lifetime matches Some(c) && gives_lifetime(s1, l, c) && gives_type(
                tr_leaf(s1, l.span),
                *ty,
                rt.ty,
            ),
            None => rt.lifetime is None && gives_type(s1, *ty, rt.ty),
        },
        TyKind::Tup(ts) => r.ty matches ir::TypeKind::Tuple(tt) && gives_types(
            s1,
            ts@,
            ts@.len() as int,
            tt.types@,
        ),
        TyKind::Paren(ty) => r.ty matches ir::TypeKind::Tuple(tt) && tt.types@.len() == 1 && gives_type(
            s1,
            *ty,
            tt.types@[0],
        ),
        TyKind::Slice(ty) => r.ty matches ir::TypeKind::Slice(st) && gives_type(s1, *ty, st.ty),
        TyKind::Array(ty, e) => r.ty matches ir::TypeKind::Array(at) && gives_type(s1, *ty, at.ty) && gives_expr(
            t_type(s1, *ty),
            *e,
            at.expr,
        ),
        TyKind::TraitObject(b, d) => r.ty matches ir::TypeKind::Trait(tt) && tt.is_dyn == d && !tt.is_impl
            && gives_bounds(s1, b@, b@.len() as int, tt.bounds.0@),
        TyKind::ImplTrait(b) => r.ty matches ir::TypeKind::Trait(tt) && !tt.is_dyn && tt.is_impl && gives_bounds(
            s1,
            b@,
            b@.len() as int,
            tt.bounds.0@,
        ),
        TyKind::BareFn(bf) => {
            let gp = bf.generic_params@;
            &&& r.ty matches ir::TypeKind::BareFn(b)
            &&& gives_lifetime_defs(s1, gp, gp.len() as int, b.lifetime_defs@)
            &&& b.header.is_unsafe == bf.is_unsafe && !b.header.is_async && !b.header.is_const
            &&& b.header.abi@ == "\""@ + bf.abi@ + "\""@
            &&& gives_fn_decl(t_lifetime_defs(s1, gp, gp.len() as int), bf.decl, b.sig)
        },
        TyKind::Mac(m) => r.ty matches ir::TypeKind::Macro(rm) && gives_mac(s1, m, rm),
    }
}

pub open spec fn gives_fn_decl(s: TrState, d: FnDecl, r: ir::FnSig) -> bool
    decreases d, 0int,
{
    let s1 = t_args(s, d.inputs@, d.inputs@.len() as int);
    &&& gives_args(s, d.inputs@, d.inputs@.len() as int, r.args@)
    &&& match d.output {
        Some(t) => r.ret.ret matches Some(rt) && r.ret.nl == return_nl(s1.src, s1.v.last_end, t.span.lo)
            && gives_type(s1, t, rt),
        None => r.ret.ret is None && !r.ret.nl,
    }
}

pub open spec fn gives_args(s: TrState, v: Seq<Arg>, n: int, rs: Seq<ir::Arg>) -> bool
    decreases v, n,
{
    if n <= 0 {
        rs.len() == 0
    } else if n > v.len() {
        false
    } else {
        let a = v[n - 1];
        let r = rs.last();
        let st = t_args(s, v, n - 1);
        &&& rs.len() > 0
        &&& gives_args(s, v, n - 1, rs.drop_last())
        &&& gives_pat(st, a.pat, r.patten)
        &&& r.loc == r.patten.loc
        &&& r.has_patten == spec_has_patten(a.self_kind, r.patten)
        &&& gives_type(t_pat(st, a.pat), a.ty, r.ty)
    }
}

pub open spec fn gives_variant_data(s: TrState, vd: VariantData, r: ir::StructBody) -> bool
    decreases vd, 0int,
{
    match vd {
        VariantData::Struct(fs) => r matches ir::StructBody::Struct(v) && gives_field_defs(
            s,
            fs@,
            fs@.len() as int,
            v@,
        ),
        VariantData::Tuple(fs) => r matches ir::StructBody::Tuple(v) && gives_tuple_field_defs(
            s,
            fs@,
            fs@.len() as int,
            v@,
        ),
        VariantData::Unit => r is Unit,
    }
}

pub open spec fn gives_field_defs(s: TrState, v: Seq<FieldDef>, n: int, rs: Seq<ir::StructField>) -> bool
    decreases v, n,
{
    if n <= 0 {
        rs.len() == 0
    } else if n > v.len() {
        false
    } else {
        let f = v[n - 1];
        let r = rs.last();
        let st = t_field_defs(s, v, n - 1);
        let s1 = tr_open(st, f.span);
        &&& rs.len() > 0
        &&& gives_field_defs(s, v, n - 1, rs.drop_last())
        &&& r.loc == loc_of(st, f.span)
        &&& gives_attrs(s1, f.attrs@, f.attrs@.len() as int, r.attrs@)
        &&& r.vis@ == spec_vis(f.vis)
        &&& r.name@ == spec_ident(f.ident)
        &&& gives_type(t_attrs(s1, f.attrs@, f.attrs@.len() as int), f.ty, r.ty)
    }
}

pub open spec fn gives_tuple_field_defs(s: TrState, v: Seq<TupleFieldDef>, n: int, rs: Seq<ir::TupleField>) -> bool
    decreases v, n,
{
    if n <= 0 {
        rs.len() == 0
    } else if n > v.len() {
        false
    } else {
        let f = v[n - 1];
        let r = rs.last();
        let st = t_tuple_field_defs(s, v, n - 1);
        let s1 = tr_open(st, f.span);
        &&& rs.len() > 0
        &&& gives_tuple_field_defs(s, v, n - 1, rs.drop_last())
        &&& r.loc == loc_of(st, f.span)
        &&& gives_attrs(s1, f.attrs@, f.attrs@.len() as int, r.attrs@)
        &&& r.vis@ == spec_vis(f.vis)
        &&& gives_type(t_attrs(s1, f.attrs@, f.attrs@.len() as int), f.ty, r.ty)
    }
}

pub open spec fn gives_variants(s: TrState, v: Seq<Variant>, n: int, rs: Seq<ir::EnumField>) -> bool
    decreases v, n,
{
    if n <= 0 {
        rs.len() == 0
    } else if n > v.len() {
        false
    } else {
        &&& rs.len() > 0
        &&& gives_variants(s, v, n - 1, rs.drop_last())
        &&& gives_variant(t_variants(s, v, n - 1), v[n - 1], rs.last())
    }
}

pub open spec fn gives_variant(s: TrState, va: Variant, r: ir::EnumField) -> bool
    decreases va, 0int,
{
    let s1 = tr_open(s, va.span);
    let s2 = t_attrs(s1, va.attrs@, va.attrs@.len() as int);
    &&& r.loc == loc_of(s, va.span)
    &&& gives_attrs(s1, va.attrs@, va.attrs@.len() as int, r.attrs@)
    &&& r.name@ == spec_ident(va.ident)
    &&& gives_variant_data(s2, va.data, r.body)
    &&& match va.disr_expr {
        Some(e) => r.expr matches Some(re) && gives_expr(t_variant_data(s2, va.data), e, re),
        None => r.expr is None,
    }
}

pub open spec fn gives_foreign_items(s: TrState, v: Seq<ForeignItem>, n: int, rs: Seq<ir::ForeignItem>) -> bool
    decreases v, n,
{
    if n <= 0 {
        rs.len() == 0
    } else if n > v.len() {
        false
    } else {
        &&& rs.len() > 0
        &&& gives_foreign_items(s, v, n - 1, rs.drop_last())
        &&& gives_foreign_item(t_foreign_items(s, v, n - 1), v[n - 1], rs.last())
    }
}

pub open spec fn gives_foreign_item(s: TrState, it: ForeignItem, r: ir::ForeignItem) -> bool
    decreases it, 0int,
{
    let s1 = tr_open(s, it.span);
    let s2 = t_attrs(s1, it.attrs@, it.attrs@.len() as int);
    let name = spec_ident(it.ident);
    &&& r.loc == loc_of(s, it.span)
    &&& gives_attrs(s1, it.attrs@, it.attrs@.len() as int, r.attrs@)
    &&& r.vis@ == spec_vis(it.vis)
    &&& match it.kind {
        ForeignItemKind::Ty => r.item matches ir::ForeignKind::Type(t) && t@ == name,
        ForeignItemKind::Static(ty, m) => r.item matches ir::ForeignKind::Static(st) && st.is_mut == m
            && st.name@ == name && gives_type(s2, ty, st.ty),
        ForeignItemKind::Fn(d, g) => r.item matches ir::ForeignKind::Fn(f) && f.name@ == name && gives_generics(
            s2,
            g,
            f.generics,
        ) && gives_fn_decl(t_generics(s2, g), d, f.sig),
        ForeignItemKind::Macro(m) => r.item matches ir::ForeignKind::Macro(rm) && gives_mac(s2, m, rm),
    }
}

pub open spec fn gives_trait_items(s: TrState, v: Seq<TraitItem>, n: int, rs: Seq<ir::TraitItem>) -> bool
    decreases v, n,
{
    if n <= 0 {
        rs.len() == 0
    } else if n > v.len() {
        false
    } else {
        &&& rs.len() > 0
        &&& gives_trait_items(s, v, n - 1, rs.drop_last())
        &&& gives_trait_item(t_trait_items(s, v, n - 1), v[n - 1], rs.last())
    }
}

pub open spec fn gives_trait_item(s: TrState, it: TraitItem, r: ir::TraitItem) -> bool
    decreases it, 0int,
{
    let s1 = tr_open(s, it.span);
    let s2 = t_attrs(s1, it.attrs@, it.attrs@.len() as int);
    let s3 = t_generics(s2, it.generics);
    let name = spec_ident(it.ident);
    &&& r.loc == loc_of(s, it.span)
    &&& gives_attrs(s1, it.attrs@, it.attrs@.len() as int, r.attrs@)
    &&& match it.kind {
        TraitItemKind::Const(ty, e) => r.item matches ir::TraitItemKind::Const(c) && c.name@ == name && gives_type(
            s3,
            ty,
            c.ty,
        ) && match e {
            Some(e) => c.expr matches Some(re) && gives_expr(t_type(s3, ty), e, re),
            None => c.expr is None,
        },
        TraitItemKind::Type(b, ty) => r.item matches ir::TraitItemKind::Type(t) && t.name@ == name
            && gives_generics(s2, it.generics, t.generics) && gives_bounds(s3, b@, b@.len() as int, t.bounds.0@)
            && match ty {
            Some(ty) => t.ty matches Some(rt) && gives_type(t_bounds(s3, b@, b@.len() as int), ty, rt),
            None => t.ty is None,
        },
        TraitItemKind::Method(sig, blk) => r.item matches ir::TraitItemKind::Method(m) && m.sig.name@ == name
            && gives_header(sig.header, m.sig.header) && gives_generics(s2, it.generics, m.sig.generics)
            && gives_fn_decl(s3, sig.decl, m.sig.sig) && match blk {
            Some(b) => m.block matches Some(rb) && gives_block(t_fn_decl(s3, sig.decl), b, rb),
            None => m.block is None,
        },
        TraitItemKind::Macro(mac) => r.item matches ir::TraitItemKind::Macro(rm) && gives_mac(s3, mac, rm),
    }
}

pub open spec fn gives_impl_items(s: TrState, v: Seq<ImplItem>, n: int, rs: Seq<ir::ImplItem>) -> bool
    decreases v, n,
{
    if n <= 0 {
        rs.len() == 0
    } else if n > v.len() {
        false
    } else {
        &&& rs.len() > 0
        &&& gives_impl_items(s, v, n - 1, rs.drop_last())
        &&& gives_impl_item(t_impl_items(s, v, n - 1), v[n - 1], rs.last())
    }
}

pub open spec fn gives_impl_item(s: TrState, it: ImplItem, r: ir::ImplItem) -> bool
    decreases it, 0int,
{
    let s1 = tr_open(s, it.span);
    let s2 = t_attrs(s1, it.attrs@, it.attrs@.len() as int);
    let s3 = t_generics(s2, it.generics);
    let name = spec_ident(it.ident);
    &&& r.loc == loc_of(s, it.span)
    &&& gives_attrs(s1, it.attrs@, it.attrs@.len() as int, r.attrs@)
    &&& r.vis@ == spec_vis(it.vis)
    &&& r.is_default == it.is_default
    &&& match it.kind {
        ImplItemKind::Const(ty, e) => r.item matches ir::ImplItemKind::Const(c) && c.name@ == name && gives_type(
            s3,
            ty,
            c.ty,
        ) && gives_expr(t_type(s3, ty), e, c.expr),
        ImplItemKind::Type(ty) => r.item matches ir::ImplItemKind::Type(t) && t.name@ == name && gives_generics(
            s2,
            it.generics,
            t.generics,
        ) && gives_type(s3, ty, t.ty),
        ImplItemKind::Existential(b) => r.item matches ir::ImplItemKind::Existential(e) && e.name@ == name
            && gives_generics(s2, it.generics, e.generics) && gives_bounds(s3, b@, b@.len() as int, e.bounds.0@),
        ImplItemKind::Method(sig, b) => r.item matches ir::ImplItemKind::Method(m) && m.sig.name@ == name
            && gives_header(sig.header, m.sig.header) && gives_generics(s2, it.generics, m.sig.generics)
            && gives_fn_decl(s3, sig.decl, m.sig.sig) && gives_block(t_fn_decl(s3, sig.decl), b, m.block),
        ImplItemKind::Macro(mac) => r.item matches ir::ImplItemKind::Macro(rm) && gives_mac(s3, mac, rm),
    }
}

pub open spec fn gives_block(s: TrState, b: Block, r: ir::Block) -> bool
    decreases b, 0int,
{
    &&& r.loc == loc_of(s, b.span)
    &&& r.is_unsafe == (b.rules matches BlockCheck::UserUnsafe)
    &&& gives_stmts(tr_open(s, b.span), b.stmts@, b.stmts@.len() as int, r.stmts@)
}

pub open spec fn gives_stmts(s: TrState, v: Seq<Stmt>, n: int, rs: Seq<ir::Stmt>) -> bool
    decreases v, n,
{
    if n <= 0 {
        rs.len() == 0
    } else if n > v.len() {
        false
    } else {
        &&& rs.len() > 0
        &&& gives_stmts(s, v, n - 1, rs.drop_last())
        &&& gives_stmt(t_stmts(s, v, n - 1), v[n - 1], rs.last())
    }
}

pub open spec fn gives_stmt(s: TrState, st: Stmt, r: ir::Stmt) -> bool
    decreases st, 0int,
{
    let s1 = tr_open(s, st.span);
    &&& r.loc == loc_of(s, st.span)
    &&& match st.kind {
        StmtKind::Item(it) => r.stmt matches ir::StmtKind::Item(ri) && gives_item(s1, it, ri),
        StmtKind::Local(l) => r.stmt matches ir::StmtKind::Let(rl) && gives_local(s1, l, rl),
        StmtKind::Semi(e) => r.stmt matches ir::StmtKind::Expr(re, semi) && semi && gives_expr(s1, e, re),
        StmtKind::Expr(e) => r.stmt matches ir::StmtKind::Expr(re, semi) && !semi && gives_expr(s1, e, re),
        StmtKind::Mac(m, semi, attrs) => {
            let s2 = tr_open(s1, m.span);
            &&& r.stmt matches ir::StmtKind::Macro(ms)
            &&& ms.loc == loc_of(s1, m.span)
            &&& ms.is_semi == semi
            &&& gives_attrs(s2, attrs@, attrs@.len() as int, ms.attrs@)
            &&& gives_mac(t_attrs(s2, attrs@, attrs@.len() as int), m, ms.mac)
        },
    }
}

pub open spec fn gives_local(s: TrState, l: Local, r: ir::Let) -> bool
    decreases l, 0int,
{
    let s1 = tr_open(s, l.span);
    let s2 = t_attrs(s1, l.attrs@, l.attrs@.len() as int);
    let s3 = t_pat(s2, l.pat);
    let s4 = match l.ty {
        Some(t) => t_type(s3, t),
        None => s3,
    };
    &&& r.loc == loc_of(s, l.span)
    &&& gives_attrs(s1, l.attrs@, l.attrs@.len() as int, r.attrs@)
    &&& gives_pat(s2, l.pat, r.patten)
    &&& match l.ty {
        Some(t) => r.ty matches Some(rt) && gives_type(s3, t, rt),
        None => r.ty is None,
    }
    &&& match l.init {
        Some(e) => r.init matches Some(re) && gives_expr(s4, e, re),
        None => r.init is None,
    }
}

pub open spec fn gives_pats(s: TrState, v: Seq<Pat>, n: int, rs: Seq<ir::Patten>) -> bool
    decreases v, n,
{
    if n <= 0 {
        rs.len() == 0
    } else if n > v.len() {
        false
    } else {
        &&& rs.len() > 0
        &&& gives_pats(s, v, n - 1, rs.drop_last())
        &&& gives_pat(t_pats(s, v, n - 1), v[n - 1], rs.last())
    }
}

pub open spec fn gives_pat(s: TrState, p: Pat, r: ir::Patten) -> bool
    decreases p, 0int,
{
    let s1 = tr_open(s, p.span);
    &&& r.loc == loc_of(s, p.span)
    &&& match p.kind {
        PatKind::Wild => r.patten is Wildcard,
        PatKind::Lit(e) => r.patten matches ir::PattenKind::Literal(re) && gives_expr(s1, *e, re),
        PatKind::Range(a, b, inc) => r.patten matches ir::PattenKind::Range(rr) && rr.is_inclusive == inc
            && gives_expr(s1, *a, rr.start) && gives_expr(t_expr(s1, *a), *b, rr.end),
        PatKind::Ref(q, m) => r.patten matches ir::PattenKind::Ref(rp) && rp.is_mut == m && gives_pat(
            s1,
            *q,
            rp.patten,
        ),
        PatKind::Path(q, path) => r.patten matches ir::PattenKind::Path(pt) && gives_qself(s1, q, pt.qself)
            && gives_path(t_qself(s1, q), path, pt.path),
        PatKind::Ident(by_ref, m, id, sub) => r.patten matches ir::PattenKind::Ident(ip) && ip.is_ref == by_ref
            && ip.is_mut == m && ip.name@ == spec_ident(id) && match sub {
            Some(q) => ip.patten matches Some(rq) && gives_pat(s1, *q, rq),
            None => ip.patten is None,
        },
        PatKind::Struct(path, fs, omit) => r.patten matches ir::PattenKind::Struct(sp) && sp.omit == omit
            && gives_path(s1, path, sp.path) && gives_field_pats(t_path(s1, path), fs@, fs@.len() as int, sp.fields@),
        PatKind::TupleStruct(path, ps) => r.patten matches ir::PattenKind::Enum(ep) && gives_path(s1, path, ep.path)
            && gives_pats(t_path(s1, path), ps@, ps@.len() as int, ep.pattens@),
        PatKind::Paren(q) => r.patten matches ir::PattenKind::Tuple(tp) && tp.pattens@.len() == 1 && gives_pat(
            s1,
            *q,
            tp.pattens@[0],
        ),
        PatKind::Tuple(ps) => r.patten matches ir::PattenKind::Tuple(tp) && gives_pats(
            s1,
            ps@,
            ps@.len() as int,
            tp.pattens@,
        ),
        PatKind::Slice(ps) => r.patten matches ir::PattenKind::Slice(sp) && gives_pats(
            s1,
            ps@,
            ps@.len() as int,
            sp.pattens@,
        ),
        PatKind::Rest => r.patten matches ir::PattenKind::Symbol(x) && x@ == ".."@,
        PatKind::Mac(m) => r.patten matches ir::PattenKind::Macro(rm) && gives_mac(s1, m, rm),
    }
}

pub open spec fn gives_field_pats(s: TrState, v: Seq<FieldPat>, n: int, rs: Seq<ir::StructFieldPatten>) -> bool
    decreases v, n,
{
    if n <= 0 {
        rs.len() == 0
    } else if n > v.len() {
        false
    } else {
        let f = v[n - 1];
        let r = rs.last();
        let st = t_field_pats(s, v, n - 1);
        &&& rs.len() > 0
        &&& gives_field_pats(s, v, n - 1, rs.drop_last())
        &&& r.loc == loc_of(st, f.span)
        &&& r.name@ == spec_ident(f.ident)
        &&& r.shorthand == f.is_shorthand
        &&& gives_pat(tr_open(st, f.span), f.pat, r.patten)
    }
}

pub open spec fn gives_exprs(s: TrState, v: Seq<Expr>, n: int, rs: Seq<ir::Expr>) -> bool
    decreases v, n,
{
    if n <= 0 {
        rs.len() == 0
    } else if n > v.len() {
        false
    } else {
        &&& rs.len() > 0
        &&& gives_exprs(s, v, n - 1, rs.drop_last())
        &&& gives_expr(t_exprs(s, v, n - 1), v[n - 1], rs.last())
    }
}

pub open spec fn gives_opt_expr(s: TrState, e: Option<Box<Expr>>, r: Option<ir::Expr>) -> bool
    decreases e, 0int,
{
    match e {
        Some(x) => r matches Some(rx) && gives_expr(s, *x, rx),
        None => r is None,
    }
}

pub open spec fn gives_expr(s: TrState, e: Expr, r: ir::Expr) -> bool
    decreases e, 1int,
{
    let s1 = tr_open(s, e.span);
    &&& r.loc == loc_of(s, e.span)
    &&& gives_attrs(s1, e.attrs@, e.attrs@.len() as int, r.attrs@)
    &&& gives_expr_kind(t_attrs(s1, e.attrs@, e.attrs@.len() as int), e.kind, r.expr)
}

pub open spec fn gives_expr_kind(s: TrState, k: ExprKind, r: ir::ExprKind) -> bool
    decreases k, 0int,
{
    match k {
        ExprKind::Lit(l) => r matches ir::ExprKind::Literal(c) && c.loc == loc_of(s, l.span) && c.s@ == l.text@,
        ExprKind::Path(q, p) => r matches ir::ExprKind::Path(pt) && gives_qself(s, q, pt.qself) && gives_path(
            t_qself(s, q),
            p,
            pt.path,
        ),
        ExprKind::AddrOf(m, x) => r matches ir::ExprKind::Ref(re) && re.is_mut == m && gives_expr(s, *x, re.expr),
        ExprKind::Unary(op, x) => r matches ir::ExprKind::UnaryOp(u) && u.op@ == match op {
            UnOp::Deref => "*"@,
            UnOp::Not => "!"@,
            UnOp::Neg => "-"@,
        } && gives_expr(s, *x, u.expr),
        ExprKind::Try(x) => r matches ir::ExprKind::Try(rx) && gives_expr(s, *x, *rx),
        ExprKind::Binary(op, a, b) => {
            let s1 = tr_leaf(s, op.span);
            &&& r matches ir::ExprKind::ListOp(l)
            &&& l.op.loc == loc_of(s, op.span)
            &&& l.op.s@ == spec_binop(op.kind)
            &&& l.exprs@.len() == 2
            &&& gives_expr(s1, *a, l.exprs@[0])
            &&& gives_expr(t_expr(s1, *a), *b, l.exprs@[1])
        },
        ExprKind::Assign(a, b) => {
            &&& r matches ir::ExprKind::ListOp(l)
            &&& l.op.loc.start == 0 && l.op.loc.end == 0 && !l.op.loc.nl
            &&& l.op.s@ == "="@
            &&& l.exprs@.len() == 2
            &&& gives_expr(s, *a, l.exprs@[0])
            &&& gives_expr(t_expr(s, *a), *b, l.exprs@[1])
        },
        ExprKind::AssignOp(op, a, b) => {
            let s1 = tr_leaf(s, op.span);
            &&& r matches ir::ExprKind::ListOp(l)
            &&& l.op.loc == loc_of(s, op.span)
            &&& l.op.s@ == spec_binop(op.kind) + "="@
            &&& l.exprs@.len() == 2
            &&& gives_expr(s1, *a, l.exprs@[0])
            &&& gives_expr(t_expr(s1, *a), *b, l.exprs@[1])
        },
        ExprKind::Repeat(a, b) => r matches ir::ExprKind::Repeat(rr) && gives_expr(s, *a, rr.value) && gives_expr(
            t_expr(s, *a),
            *b,
            rr.len,
        ),
        ExprKind::Array(v) => r matches ir::ExprKind::Array(rv) && gives_exprs(s, v@, v@.len() as int, (*rv)@),
        ExprKind::Tup(v) => r matches ir::ExprKind::Tuple(rv) && gives_exprs(s, v@, v@.len() as int, (*rv)@),
        ExprKind::Paren(x) => r matches ir::ExprKind::Tuple(rv) && (*rv)@.len() == 1 && gives_expr(
            s,
            *x,
            (*rv)@[0],
        ),
        ExprKind::Index(a, b) => r matches ir::ExprKind::Index(ri) && gives_expr(s, *a, ri.obj) && gives_expr(
            t_expr(s, *a),
            *b,
            ri.index,
        ),
        ExprKind::Struct(p, fs, base) => {
            let s1 = t_path(s, p);
            &&& r matches ir::ExprKind::Struct(rs)
            &&& gives_path(s, p, rs.path)
            &&& gives_fields(s1, fs@, fs@.len() as int, rs.fields@)
            &&& gives_opt_expr(t_fields(s1, fs@, fs@.len() as int), base, rs.base)
        },
        ExprKind::Field(x, id) => r matches ir::ExprKind::Field(rf) && rf.field@ == spec_ident(id) && gives_expr(
            s,
            *x,
            rf.expr,
        ),
        ExprKind::Type(x, t) => r matches ir::ExprKind::Type(rt) && gives_expr(s, *x, rt.expr) && gives_type(
            t_expr(s, *x),
            t,
            rt.ty,
        ),
        ExprKind::Cast(x, t) => r matches ir::ExprKind::Cast(rc) && gives_expr(s, *x, rc.expr) && gives_type(
            t_expr(s, *x),
            t,
            rc.ty,
        ),
        ExprKind::Range(a, b, inc) => r matches ir::ExprKind::Range(rr) && rr.is_inclusive == inc
            && gives_opt_expr(s, a, rr.start) && gives_opt_expr(t_opt_expr(s, a), b, rr.end),
        ExprKind::Block(b, label) => r matches ir::ExprKind::Block(rb) && gives_label(label, rb.label)
            && gives_block(s, b, rb.block),
        ExprKind::If(c, b, br) => r matches ir::ExprKind::If(ri) && gives_expr(s, *c, ri.expr) && gives_block(
            t_expr(s, *c),
            b,
            ri.block,
        ) && gives_opt_expr(t_block(t_expr(s, *c), b), br, ri.br),
        ExprKind::While(c, b, label) => r matches ir::ExprKind::While(rw) && gives_label(label, rw.label)
            && gives_expr(s, *c, rw.expr) && gives_block(t_expr(s, *c), b, rw.block),
        ExprKind::Let(ps, x) => r matches ir::ExprKind::Let(rl) && gives_pats(s, ps@, ps@.len() as int, rl.pattens@)
            && gives_expr(t_pats(s, ps@, ps@.len() as int), *x, rl.expr),
        ExprKind::ForLoop(p, x, b, label) => r matches ir::ExprKind::For(rf) && gives_label(label, rf.label)
            && gives_pat(s, p, rf.patten) && gives_expr(t_pat(s, p), *x, rf.expr) && gives_block(
            t_expr(t_pat(s, p), *x),
            b,
            rf.block,
        ),
        ExprKind::Loop(b, label) => r matches ir::ExprKind::Loop(rl) && gives_label(label, rl.label) && gives_block(
            s,
            b,
            rl.block,
        ),
        ExprKind::Break(label, x) => r matches ir::ExprKind::Break(rb) && gives_label(label, rb.label)
            && gives_opt_expr(s, x, rb.expr),
        ExprKind::Continue(label) => r matches ir::ExprKind::Continue(rc) && gives_label(label, rc.label),
        ExprKind::Match(x, arms) => r matches ir::ExprKind::Match(rm) && gives_expr(s, *x, rm.expr) && gives_arms(
            t_expr(s, *x),
            arms@,
            arms@.len() as int,
            rm.arms@,
        ),
        ExprKind::Call(f, args) => r matches ir::ExprKind::FnCall(rc) && gives_expr(s, *f, rc.name) && gives_exprs(
            t_expr(s, *f),
            args@,
            args@.len() as int,
            rc.args@,
        ),
        ExprKind::MethodCall(seg, args) => r matches ir::ExprKind::MethodCall(rm) && gives_segment(s, seg, rm.path)
            && gives_exprs(t_segment(s, seg), args@, args@.len() as int, rm.args@),
        ExprKind::Closure(c) => r matches ir::ExprKind::Closure(rc) && rc.is_static == c.is_static && rc.is_async
            == c.is_async && rc.is_move == c.is_move && gives_fn_decl(s, c.decl, rc.sig) && gives_expr(
            t_fn_decl(s, c.decl),
            *c.body,
            rc.expr,
        ),
        ExprKind::Ret(x) => r matches ir::ExprKind::Return(rr) && gives_opt_expr(s, x, rr.ret),
        ExprKind::Mac(m) => r matches ir::ExprKind::Macro(rm) && gives_mac(s, m, rm),
    }
}

pub open spec fn gives_label(label: Option<Ident>, r: Option<String>) -> bool {
    match label {
        Some(l) => r matches Some(t) && t@ == spec_ident(l),
        None => r is None,
    }
}

pub open spec fn gives_fields(s: TrState, v: Seq<Field>, n: int, rs: Seq<ir::StructFieldExpr>) -> bool
    decreases v, n,
{
    if n <= 0 {
        rs.len() == 0
    } else if n > v.len() {
        false
    } else {
        let f = v[n - 1];
        let r = rs.last();
        let st = t_fields(s, v, n - 1);
        &&& rs.len() > 0
        &&& gives_fields(s, v, n - 1, rs.drop_last())
        &&& r.loc == loc_of(st, f.span)
        &&& r.name@ == spec_ident(f.ident)
        &&& gives_expr(tr_open(st, f.span), f.expr, r.value)
    }
}

pub open spec fn gives_arms(s: TrState, v: Seq<Arm>, n: int, rs: Seq<ir::Arm>) -> bool
    decreases v, n,
{
    if n <= 0 {
        rs.len() == 0
    } else if n > v.len() {
        false
    } else {
        &&& rs.len() > 0
        &&& gives_arms(s, v, n - 1, rs.drop_last())
        &&& gives_arm(t_arms(s, v, n - 1), v[n - 1], rs.last())
    }
}

pub open spec fn gives_arm(s: TrState, a: Arm, r: ir::Arm) -> bool
    decreases a, 0int,
{
    let s1 = t_attrs(s, a.attrs@, a.attrs@.len() as int);
    let s2 = t_pats(s1, a.pats@, a.pats@.len() as int);
    let s3 = match a.guard {
        Some(g) => t_expr(s2, g),
        None => s2,
    };
    &&& gives_attrs(s, a.attrs@, a.attrs@.len() as int, r.attrs@)
    &&& gives_pats(s1, a.pats@, a.pats@.len() as int, r.pattens@)
    &&& match a.guard {
        Some(g) => r.guard matches Some(rg) && gives_expr(s2, g, rg),
        None => r.guard is None,
    }
    &&& gives_expr(s3, a.body, r.body)
    &&& r.loc.start == (if a.pats@.len() > 0 {
        r.pattens@[0].loc.start
    } else {
        r.body.loc.start
    })
    &&& r.loc.end == r.body.loc.end
    &&& !r.loc.nl
}

pub open spec fn gives_mac(s: TrState, m: Mac, r: ir::Macro) -> bool
    decreases m, 0int,
{
    &&& r.name@ == path_text(m.path)
    &&& r.style == spec_macro_style(m.text@)
    &&& r.seps@.len() == m.seps@.len()
    &&& forall|k: int| 0 <= k < m.seps@.len() ==> gives_sep(#[trigger] m.seps@[k], r.seps@[k])
    &&& gives_exprs(s, m.exprs@, m.exprs@.len() as int, r.exprs@)
}

} // verus!
