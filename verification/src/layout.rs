//! The layout that the formatter produces, node by node, as a function of
//! the formatter's abstract state (`FState`): what each formatting step
//! writes, which comments it takes, and how it leaves the flags.

use crate::display::{
    s_arg, s_attr, s_binding, s_bound, s_bounds, s_closure_arg, s_expr, s_extern_crate,
    s_fn_head, s_foreign_head, s_ident_patten_head, s_lifetime_def, s_macro_delims, s_meta_item,
    s_mod_decl, s_path, s_path_type, s_patten, s_ptr_head, s_ref_head, s_segment,
    s_static_head, s_tuple_field, s_type, s_type_param, s_use, s_use_tree, s_where,
    s_where_bound, s_where_clause,
};
use crate::ft::{
    f_close_brace, f_close_list, f_empty_braces, f_indent, f_insert, f_insert_indent,
    f_insert_sep, f_leading, f_maybe_nl, f_maybe_nl_indent, f_maybe_wrap, f_nl, f_nl_indent,
    f_open_body, f_open_brace, f_open_list, f_raw, f_trailing, f_vis, sort_steps, FState,
    GroupKind,
};
use crate::ir::{
    Arg, Arm, Attr, AttrKind, Block, BlockExpr, BreakExpr, CastExpr, Chunk, ClosureExpr, Const,
    ConstTraitItem, Crate, Enum, EnumField, Existential, ExistentialImplItem, Expr, ExprKind, FieldExpr,
    Fn, FnCallExpr, FnHeader, FnSig, ForExpr, ForeignFn, ForeignItem, ForeignKind, ForeignMod,
    ForeignStatic, Generics, IdentPatten, IfExpr, Impl, ImplItem, ImplItemKind, IndexExpr, Item,
    ItemKind, Let, LetExpr, LifetimeDef, ListOpExpr, LoopExpr, Macro, MacroDef, MacroSep,
    MacroStmt, MacroStyle, MatchExpr, MetaItem, MethodCallExpr, MethodImplItem, MethodSig,
    MethodTraitItem, Mod, ParenParam, Path, PathParam, PathSegment, PathType, Patten, PattenKind,
    PolyTraitRef, PtrType, RangeExpr, RangePatten, RefExpr, RefPatten, RefType, RepeatExpr,
    ReturnExpr, Static, Stmt, StmtKind, Struct, StructBody, StructExpr, StructField,
    StructFieldExpr, StructFieldPatten, StructPatten, Trait, TraitAlias, TraitItem, TraitItemKind,
    TraitType, TupleField, Type, TypeAlias, TypeBinding, TypeBindingKind, TypeExpr,
    TypeImplItem, TypeKind, TypeParam, TypeParamBound, TypeParamBounds, TypeTraitItem,
    UnaryOpExpr, Union, UseTree, Use, Where, WhereBound, WhereClause, WhereKind, WhileExpr,
    AngleParam, ArrayType, BareFnType, ModDecl, ExternCrate, EnumPatten, SliceType, Return,
};
use crate::ts::text_lines;
use vstd::prelude::*;

verus! {

// ---------------------------------------------------------------------------
// Chunks, attributes, declarations
// ---------------------------------------------------------------------------

pub open spec fn l_chunk(s: FState, c: Chunk) -> FState {
    f_insert(f_maybe_nl(s, c.loc), c.s@)
}

pub open spec fn l_meta_item(s: FState, m: MetaItem) -> FState
    decreases m, 2int,
{
    let s1 = f_insert(f_maybe_nl(s, m.loc), m.name@);
    match m.items {
        Some(items) => l_meta_items(s1, items@),
        None => s1,
    }
}

pub open spec fn l_meta_items(s: FState, v: Seq<MetaItem>) -> FState
    decreases v, v.len() + 1,
{
    f_close_list(l_meta_fold(f_open_list(s, "("@), v, v.len() as int), ")"@)
}

pub open spec fn l_meta_fold(s: FState, v: Seq<MetaItem>, n: int) -> FState
    decreases v, n,
{
    if n <= 0 || n > v.len() {
        s
    } else {
        let s1 = l_meta_fold(s, v, n - 1);
        let m = v[n - 1];
        l_meta_item(
            if n > 1 {
                f_insert_sep(s1, ","@, m.loc.nl, s_meta_item(m))
            } else {
                s1
            },
            m,
        )
    }
}

pub open spec fn l_attr(s: FState, a: Attr) -> FState {
    let s1 = f_raw(s, "#"@);
    let s2 = if a.is_inner {
        f_raw(s1, "!"@)
    } else {
        s1
    };
    f_raw(l_meta_item(f_raw(s2, "["@), a.item), "]"@)
}

/// The attribute at position `i` (an arbitrary one where that is a doc comment).
pub open spec fn attr_at(attrs: Seq<AttrKind>, i: int) -> Attr {
    match attrs[i] {
        AttrKind::Attr(a) => a,
        AttrKind::Doc(_) => arbitrary(),
    }
}

pub open spec fn attr_keys(attrs: Seq<AttrKind>, group: Seq<usize>) -> Seq<Seq<char>> {
    group.map_values(|i: usize| s_attr(attr_at(attrs, i as int)))
}

/// The attributes of the group, in the order of their texts, each text once.
pub open spec fn l_attr_group(s: FState, attrs: Seq<AttrKind>, group: Seq<usize>) -> FState {
    let order = sort_steps(attr_keys(attrs, group), group.len() as int);
    l_attr_group_fold(s, attrs, group, order, order.len() as int)
}

pub open spec fn l_attr_group_fold(s: FState, attrs: Seq<AttrKind>, group: Seq<usize>, order: Seq<usize>, n: int) -> FState
    decreases n,
{
    if n <= 0 || n > order.len() {
        s
    } else {
        let s1 = l_attr_group_fold(s, attrs, group, order, n - 1);
        let a = attr_at(attrs, group[order[n - 1] as int] as int);
        f_nl(f_trailing(l_attr(f_insert_indent(s1), a), a.loc.end))
    }
}

pub open spec fn l_doc(s: FState, d: Chunk) -> FState {
    f_nl(f_trailing(f_raw(f_insert_indent(f_leading(s, d.loc.start)), d.s@), d.loc.end))
}

/// The state and the pending group of attributes after the first `n` of them.
pub open spec fn l_attrs_scan(s: FState, attrs: Seq<AttrKind>, n: int) -> (FState, Seq<usize>)
    decreases n,
{
    if n <= 0 || n > attrs.len() {
        (s, Seq::empty())
    } else {
        let (s1, g) = l_attrs_scan(s, attrs, n - 1);
        let i = n - 1;
        match attrs[i] {
            AttrKind::Doc(d) => (l_doc(l_attr_group(s1, attrs, g), d), Seq::empty()),
            AttrKind::Attr(a) => if s1.leading.contains_key(a.loc.start) {
                (f_leading(l_attr_group(s1, attrs, g), a.loc.start), seq![i as usize])
            } else {
                (s1, g.push(i as usize))
            },
        }
    }
}

pub open spec fn l_attrs(s: FState, attrs: Seq<AttrKind>) -> FState {
    let (s1, g) = l_attrs_scan(s, attrs, attrs.len() as int);
    l_attr_group(s1, attrs, g)
}

pub open spec fn l_extern_crate(s: FState, e: ExternCrate) -> FState {
    f_insert(s, s_extern_crate(e) + ";"@)
}

pub open spec fn l_mod_decl(s: FState, d: ModDecl) -> FState {
    f_insert(s, s_mod_decl(d) + ";"@)
}

pub open spec fn l_use(s: FState, u: Use) -> FState {
    f_raw(l_use_trees(f_insert(s, "use "@ + u.path@), u.trees), ";"@)
}

pub open spec fn l_use_trees(s: FState, trees: Option<Vec<UseTree>>) -> FState
    decreases trees, 0int,
{
    match trees {
        Some(v) => if v@.len() == 1 {
            l_use_tree(f_insert(s, "::"@), v@[0])
        } else if v@.len() > 1 {
            l_use_tree_list(f_insert(s, "::"@), v@)
        } else {
            s
        },
        None => s,
    }
}

pub open spec fn l_use_tree_list(s: FState, v: Seq<UseTree>) -> FState
    decreases v, v.len() + 1,
{
    f_close_list(l_use_fold(f_open_list(s, "{"@), v, v.len() as int), "}"@)
}

pub open spec fn l_use_fold(s: FState, v: Seq<UseTree>, n: int) -> FState
    decreases v, n,
{
    if n <= 0 || n > v.len() {
        s
    } else {
        let s1 = l_use_fold(s, v, n - 1);
        let t = v[n - 1];
        l_use_tree(
            if n > 1 {
                f_insert_sep(s1, ","@, t.loc.nl, s_use_tree(t))
            } else {
                s1
            },
            t,
        )
    }
}

pub open spec fn l_use_tree(s: FState, t: UseTree) -> FState
    decreases t, 0int,
{
    l_use_trees(f_insert(f_maybe_nl(s, t.loc), t.path@), t.trees)
}

// ---------------------------------------------------------------------------
// Groups of declarations at the head of a module
// ---------------------------------------------------------------------------

/// The text by which an item of the group is sorted (empty for another item).
pub open spec fn group_key_text(item: Item, kind: GroupKind) -> Option<Seq<char>> {
    match (kind, item.item) {
        (GroupKind::ExternCrate, ItemKind::ExternCrate(e)) => Some(s_extern_crate(e)),
        (GroupKind::Use, ItemKind::Use(u)) => Some(s_use(u)),
        (GroupKind::ModDecl, ItemKind::ModDecl(m)) => Some(s_mod_decl(m)),
        _ => None,
    }
}

pub open spec fn group_keys(items: Seq<Item>, group: Seq<usize>, kind: GroupKind) -> Seq<Seq<char>> {
    group.map_values(
        |i: usize|
            match group_key_text(items[i as int], kind) {
                Some(k) => k,
                None => Seq::empty(),
            },
    )
}

pub open spec fn l_group_body(s: FState, item: Item) -> FState {
    match item.item {
        ItemKind::ExternCrate(e) => l_extern_crate(s, e),
        ItemKind::Use(u) => l_use(s, u),
        ItemKind::ModDecl(d) => l_mod_decl(s, d),
        _ => s,
    }
}

pub open spec fn l_item_group(s: FState, items: Seq<Item>, group: Seq<usize>, kind: GroupKind) -> FState {
    let order = sort_steps(group_keys(items, group, kind), group.len() as int);
    l_item_group_fold(s, items, group, order, order.len() as int)
}

pub open spec fn l_item_group_fold(s: FState, items: Seq<Item>, group: Seq<usize>, order: Seq<usize>, n: int) -> FState
    decreases n,
{
    if n <= 0 || n > order.len() {
        s
    } else {
        let s1 = l_item_group_fold(s, items, group, order, n - 1);
        let it = items[group[order[n - 1] as int] as int];
        f_nl(
            f_trailing(
                l_group_body(f_vis(f_insert_indent(l_attrs(s1, it.attrs@)), it.vis@), it),
                it.loc.end,
            ),
        )
    }
}

pub open spec fn l_item_groups_scan(s: FState, items: Seq<Item>, kind: GroupKind, n: int) -> (FState, Seq<usize>)
    decreases n,
{
    if n <= 0 || n > items.len() {
        (s, Seq::empty())
    } else {
        let (s1, g) = l_item_groups_scan(s, items, kind, n - 1);
        let i = n - 1;
        if group_key_text(items[i], kind) is Some {
            if s1.leading.contains_key(items[i].loc.start) {
                (f_leading(l_item_group(s1, items, g, kind), items[i].loc.start), seq![i as usize])
            } else {
                (s1, g.push(i as usize))
            }
        } else {
            (l_item_group(s1, items, g, kind), Seq::empty())
        }
    }
}

pub open spec fn l_item_groups(s: FState, items: Seq<Item>, kind: GroupKind) -> FState {
    let (s1, g) = l_item_groups_scan(s, items, kind, items.len() as int);
    l_item_group(s1, items, g, kind)
}

#[verifier::opaque]
pub open spec fn l_group_items(s: FState, items: Seq<Item>) -> FState {
    l_item_groups(
        l_item_groups(l_item_groups(s, items, GroupKind::ExternCrate), items, GroupKind::Use),
        items,
        GroupKind::ModDecl,
    )
}

// ---------------------------------------------------------------------------
// Small steps outside the recursion over the tree
// ---------------------------------------------------------------------------

/// `async`, then the function head and the name.
pub open spec fn l_fn_head(s: FState, h: FnHeader, name: Seq<char>) -> FState {
    let s1 = if h.is_async {
        f_raw(s, "async "@)
    } else {
        s
    };
    f_insert(s1, s_fn_head(h.is_unsafe, h.is_const, h.abi@) + " "@ + name)
}

pub open spec fn l_label(s: FState, label: Option<String>) -> FState {
    match label {
        Some(l) => f_insert_indent(f_nl(f_insert(s, l@ + ":"@))),
        None => s,
    }
}

pub open spec fn l_jump_label(s: FState, keyword: Seq<char>, label: Option<String>) -> FState {
    match label {
        Some(l) => f_insert(s, keyword + " "@ + l@),
        None => f_insert(s, keyword),
    }
}

pub open spec fn l_lines_fold(s: FState, lines: Seq<Seq<char>>, n: int) -> FState
    decreases n,
{
    if n <= 0 || n > lines.len() {
        s
    } else {
        let s1 = l_lines_fold(s, lines, n - 1);
        f_raw(
            if n > 1 {
                f_nl(s1)
            } else {
                s1
            },
            lines[n - 1],
        )
    }
}

/// `macro_rules! name`, then the lines of the definition as they are, and a
/// semicolon after a definition in parentheses or brackets.
pub open spec fn l_macro_def(s: FState, m: MacroDef) -> FState {
    let s1 = f_insert(s, "macro_rules! "@ + m.name@ + " "@);
    let lines = text_lines(m.def@);
    let s2 = l_lines_fold(s1, lines, lines.len() as int);
    if m.def@.len() > 0 && (m.def@[0] == '(' || m.def@[0] == '[') {
        f_raw(s2, ";"@)
    } else {
        s2
    }
}

pub open spec fn l_lifetime_bounds_fold(s: FState, v: Seq<Chunk>, n: int) -> FState
    decreases n,
{
    if n <= 0 || n > v.len() {
        s
    } else {
        let s1 = l_lifetime_bounds_fold(s, v, n - 1);
        let c = v[n - 1];
        l_chunk(
            if n > 1 {
                f_maybe_wrap(s1, " + "@, "+ "@, c.s@)
            } else {
                s1
            },
            c,
        )
    }
}

pub open spec fn l_lifetime_def(s: FState, ld: LifetimeDef) -> FState {
    let s1 = f_maybe_wrap(f_maybe_nl(s, ld.loc), ""@, ""@, s_lifetime_def(ld));
    let s2 = l_chunk(s1, ld.lifetime);
    if ld.bounds@.len() > 0 {
        l_lifetime_bounds_fold(f_raw(s2, ": "@), ld.bounds@, ld.bounds@.len() as int)
    } else {
        s2
    }
}

pub open spec fn l_lifetime_def_fold(s: FState, v: Seq<LifetimeDef>, n: int) -> FState
    decreases n,
{
    if n <= 0 || n > v.len() {
        s
    } else {
        let s1 = l_lifetime_def_fold(s, v, n - 1);
        let ld = v[n - 1];
        l_lifetime_def(
            if n > 1 {
                f_insert_sep(s1, ","@, ld.loc.nl, s_lifetime_def(ld))
            } else {
                s1
            },
            ld,
        )
    }
}

pub open spec fn l_for_lifetime_defs(s: FState, v: Seq<LifetimeDef>) -> FState {
    if v.len() == 0 {
        s
    } else {
        f_close_list(l_lifetime_def_fold(f_open_list(s, "for<"@), v, v.len() as int), "> "@)
    }
}

pub open spec fn l_lifetime_comma_fold(s: FState, v: Seq<Chunk>, n: int) -> FState
    decreases n,
{
    if n <= 0 || n > v.len() {
        s
    } else {
        let s1 = l_lifetime_comma_fold(s, v, n - 1);
        let c = v[n - 1];
        l_chunk(
            if n > 1 {
                f_insert_sep(s1, ","@, c.loc.nl, c.s@)
            } else {
                s1
            },
            c,
        )
    }
}

/// A type written as `_`: a closure argument leaves it out.
pub open spec fn is_infer(t: Type) -> bool {
    t.ty matches TypeKind::Symbol(x) && x@ == "_"@
}

pub open spec fn segment_is_empty(seg: PathSegment) -> bool {
    match seg.param {
        PathParam::Angle(a) => a.lifetimes@.len() == 0 && a.types@.len() == 0 && a.bindings@.len() == 0,
        PathParam::Paren(p) => p.inputs@.len() == 0,
    }
}

// ---------------------------------------------------------------------------
// The recursion over the tree: modules and items
// ---------------------------------------------------------------------------

/// The crate up to the comments left after it: its leading comments, its
/// attributes, its module.
pub open spec fn l_crate_body(s: FState, k: Crate) -> FState {
    l_mod(l_attrs(f_leading(s, k.loc.start), k.attrs@), k.module)
}

pub open spec fn l_mod(s: FState, m: Mod) -> FState
    decreases m, 0int,
{
    let s1 = l_group_items(s, m.items@);
    l_items(s1, m.items@, m.items@.len() as int)
}

pub open spec fn l_items(s: FState, v: Seq<Item>, n: int) -> FState
    decreases v, n,
{
    if n <= 0 || n > v.len() {
        s
    } else {
        let s1 = l_items(s, v, n - 1);
        let it = v[n - 1];
        match it.item {
            ItemKind::ExternCrate(_) | ItemKind::Use(_) | ItemKind::ModDecl(_) => s1,
            _ => l_item(s1, it),
        }
    }
}

pub open spec fn l_item(s: FState, it: Item) -> FState
    decreases it, 1int,
{
    let s1 = f_vis(f_insert_indent(l_attrs(f_leading(s, it.loc.start), it.attrs@)), it.vis@);
    f_nl(f_trailing(l_item_kind(s1, it.item), it.loc.end))
}

/// The item proper, after its visibility.
pub open spec fn l_item_kind(s: FState, k: ItemKind) -> FState
    decreases k, 0int,
{
    match k {
        ItemKind::Mod(m) => l_sub_mod(s, m),
        ItemKind::ModDecl(d) => l_mod_decl(s, d),
        ItemKind::ExternCrate(e) => l_extern_crate(s, e),
        ItemKind::Use(u) => l_use(s, u),
        ItemKind::TypeAlias(t) => l_type_alias(s, t),
        ItemKind::TraitAlias(t) => l_trait_alias(s, t),
        ItemKind::Existential(e) => l_existential(s, e),
        ItemKind::Const(c) => f_raw(l_const(s, c), ";"@),
        ItemKind::Static(st) => l_static(s, st),
        ItemKind::Struct(st) => l_struct(s, st),
        ItemKind::Union(u) => l_union(s, u),
        ItemKind::Enum(e) => l_enum(s, e),
        ItemKind::ForeignMod(f) => l_foreign_mod(s, f),
        ItemKind::Fn(f) => l_fn(s, f),
        ItemKind::Trait(t) => l_trait(s, t),
        ItemKind::Impl(im) => l_impl(s, im),
        ItemKind::MacroDef(m) => l_macro_def(s, m),
        ItemKind::Macro(m) => {
            let s1 = l_macro(s, m);
            match m.style {
                MacroStyle::Brace => s1,
                _ => f_raw(s1, ";"@),
            }
        },
    }
}

pub open spec fn l_sub_mod(s: FState, m: Mod) -> FState
    decreases m, 1int,
{
    let s1 = f_insert(s, "mod "@ + m.name@);
    if m.items@.len() == 0 {
        f_empty_braces(s1)
    } else {
        f_close_brace(l_mod(f_open_brace(s1), m))
    }
}

pub open spec fn l_type_alias(s: FState, t: TypeAlias) -> FState
    decreases t, 0int,
{
    let s1 = l_where(l_generics(f_insert(s, "type "@ + t.name@), t.generics), t.generics.wh);
    f_raw(l_type(f_maybe_wrap(s1, " = "@, "= "@, s_type(t.ty)), t.ty), ";"@)
}

pub open spec fn l_trait_alias(s: FState, t: TraitAlias) -> FState
    decreases t, 0int,
{
    let s1 = l_generics(f_insert(s, "trait "@ + t.name@), t.generics);
    let s2 = l_bounds(f_maybe_wrap(s1, " = "@, "= "@, s_bounds(t.bounds)), t.bounds);
    f_raw(l_where(s2, t.generics.wh), ";"@)
}

pub open spec fn l_existential(s: FState, e: Existential) -> FState
    decreases e, 0int,
{
    let s1 = l_generics(f_insert(s, "existential type "@ + e.name@), e.generics);
    let s2 = if e.bounds.0@.len() > 0 {
        l_bounds(f_raw(s1, ": "@), e.bounds)
    } else {
        s1
    };
    f_raw(l_where(s2, e.generics.wh), ";"@)
}

// ---------------------------------------------------------------------------
// Generics and paths
// ---------------------------------------------------------------------------

pub open spec fn l_generics(s: FState, g: Generics) -> FState
    decreases g, 0int,
{
    if g.lifetime_defs@.len() == 0 && g.type_params@.len() == 0 {
        s
    } else {
        let s1 = l_lifetime_def_fold(f_open_list(s, "<"@), g.lifetime_defs@, g.lifetime_defs@.len() as int);
        f_close_list(
            l_type_param_fold(s1, g.type_params@, g.type_params@.len() as int, g.lifetime_defs@.len() > 0),
            ">"@,
        )
    }
}

pub open spec fn l_type_param_fold(s: FState, v: Seq<TypeParam>, n: int, has_prev: bool) -> FState
    decreases v, n,
{
    if n <= 0 || n > v.len() {
        s
    } else {
        let s1 = l_type_param_fold(s, v, n - 1, has_prev);
        let tp = v[n - 1];
        l_type_param(
            if n > 1 || has_prev {
                f_insert_sep(s1, ","@, tp.loc.nl, s_type_param(tp))
            } else {
                s1
            },
            tp,
        )
    }
}

pub open spec fn l_type_param(s: FState, tp: TypeParam) -> FState
    decreases tp, 0int,
{
    let s1 = f_insert(f_maybe_wrap(f_maybe_nl(s, tp.loc), ""@, ""@, s_type_param(tp)), tp.name@);
    match tp.default {
        Some(t) => l_type(f_maybe_wrap(s1, " = "@, "= "@, s_type(t)), t),
        None => if tp.bounds.0@.len() > 0 {
            l_bounds(f_raw(s1, ": "@), tp.bounds)
        } else {
            s1
        },
    }
}

pub open spec fn l_bounds(s: FState, b: TypeParamBounds) -> FState
    decreases b, 0int,
{
    l_bound_fold(s, b.0@, b.0@.len() as int)
}

pub open spec fn l_bound_fold(s: FState, v: Seq<TypeParamBound>, n: int) -> FState
    decreases v, n,
{
    if n <= 0 || n > v.len() {
        s
    } else {
        let s1 = l_bound_fold(s, v, n - 1);
        let b = v[n - 1];
        l_bound(
            if n > 1 {
                f_maybe_wrap(s1, " + "@, "+ "@, s_bound(b))
            } else {
                s1
            },
            b,
        )
    }
}

pub open spec fn l_bound(s: FState, b: TypeParamBound) -> FState
    decreases b, 0int,
{
    match b {
        TypeParamBound::Lifetime(l) => l_chunk(s, l),
        TypeParamBound::PolyTraitRef(p) => l_poly_trait_ref(s, p),
    }
}

pub open spec fn l_poly_trait_ref(s: FState, p: PolyTraitRef) -> FState
    decreases p, 0int,
{
    l_path(l_for_lifetime_defs(s, p.lifetime_defs@), p.trait_ref)
}

pub open spec fn l_where(s: FState, w: Where) -> FState
    decreases w, 0int,
{
    if w.clauses@.len() == 0 {
        s
    } else {
        l_where_clauses(f_maybe_nl_indent(s, " where "@, "where "@, s_where(w)), w.clauses@)
    }
}

pub open spec fn l_where_clauses(s: FState, v: Seq<WhereClause>) -> FState
    decreases v, v.len() + 1,
{
    f_close_list(l_where_clause_fold(f_open_list(s, ""@), v, v.len() as int), ""@)
}

pub open spec fn l_where_clause_fold(s: FState, v: Seq<WhereClause>, n: int) -> FState
    decreases v, n,
{
    if n <= 0 || n > v.len() {
        s
    } else {
        let s1 = l_where_clause_fold(s, v, n - 1);
        let c = v[n - 1];
        l_where_clause(
            if n > 1 {
                f_insert_sep(s1, ","@, c.loc.nl, s_where_clause(c))
            } else {
                s1
            },
            c,
        )
    }
}

pub open spec fn l_where_clause(s: FState, c: WhereClause) -> FState
    decreases c, 0int,
{
    match c.clause {
        WhereKind::LifetimeDef(l) => l_lifetime_def(s, l),
        WhereKind::Bound(b) => l_where_bound(s, b),
    }
}

pub open spec fn l_where_bound(s: FState, b: WhereBound) -> FState
    decreases b, 0int,
{
    let s1 = l_for_lifetime_defs(f_maybe_wrap(s, ""@, ""@, s_where_bound(b)), b.lifetime_defs@);
    l_bounds(f_raw(l_type(s1, b.ty), ": "@), b.bounds)
}

pub open spec fn l_path(s: FState, p: Path) -> FState
    decreases p, 0int,
{
    l_seg_fold(f_maybe_nl(s, p.loc), p.segments@, 0, p.segments@.len() as int)
}

/// The segments from `lo` to `hi`, joined by `::`.
pub open spec fn l_seg_fold(s: FState, v: Seq<PathSegment>, lo: int, hi: int) -> FState
    decreases v, hi - lo,
{
    if hi <= lo || lo < 0 || hi > v.len() {
        s
    } else {
        let s1 = l_seg_fold(s, v, lo, hi - 1);
        let seg = v[hi - 1];
        l_path_segment(
            if hi - 1 > lo {
                f_maybe_wrap(s1, "::"@, "::"@, s_segment(seg))
            } else {
                s1
            },
            seg,
        )
    }
}

pub open spec fn l_path_segment(s: FState, seg: PathSegment) -> FState
    decreases seg, 0int,
{
    l_path_param(f_insert(s, seg.name@), seg.param)
}

pub open spec fn l_path_param(s: FState, p: PathParam) -> FState
    decreases p, 0int,
{
    match p {
        PathParam::Angle(a) => l_angle_param(s, a),
        PathParam::Paren(pp) => l_paren_param(s, pp),
    }
}

pub open spec fn l_angle_param(s: FState, a: AngleParam) -> FState
    decreases a, 0int,
{
    let nl = a.lifetimes@.len();
    let nt = a.types@.len();
    let nb = a.bindings@.len();
    if nl == 0 && nt == 0 && nb == 0 {
        s
    } else {
        let s1 = l_lifetime_comma_fold(f_open_list(s, "<"@), a.lifetimes@, nl as int);
        let s2 = l_type_comma_fold(s1, a.types@, nt as int, nl > 0);
        f_close_list(l_binding_fold(s2, a.bindings@, nb as int, nl > 0 || nt > 0), ">"@)
    }
}

pub open spec fn l_type_comma_fold(s: FState, v: Seq<Type>, n: int, has_prev: bool) -> FState
    decreases v, n,
{
    if n <= 0 || n > v.len() {
        s
    } else {
        let s1 = l_type_comma_fold(s, v, n - 1, has_prev);
        let t = v[n - 1];
        l_type(
            if n > 1 || has_prev {
                f_insert_sep(s1, ","@, t.loc.nl, s_type(t))
            } else {
                s1
            },
            t,
        )
    }
}

pub open spec fn l_binding_fold(s: FState, v: Seq<TypeBinding>, n: int, has_prev: bool) -> FState
    decreases v, n,
{
    if n <= 0 || n > v.len() {
        s
    } else {
        let s1 = l_binding_fold(s, v, n - 1, has_prev);
        let b = v[n - 1];
        l_type_binding(
            if n > 1 || has_prev {
                f_insert_sep(s1, ","@, b.loc.nl, s_binding(b))
            } else {
                s1
            },
            b,
        )
    }
}

pub open spec fn l_type_binding(s: FState, b: TypeBinding) -> FState
    decreases b, 0int,
{
    let s1 = f_maybe_wrap(f_maybe_nl(s, b.loc), ""@, ""@, s_binding(b));
    match b.binding {
        TypeBindingKind::Eq(t) => l_type(f_insert(s1, b.name@ + " = "@), t),
        TypeBindingKind::Bound(bs) => l_bounds(f_insert(s1, b.name@ + ": "@), bs),
    }
}

pub open spec fn l_paren_param(s: FState, p: ParenParam) -> FState
    decreases p, 0int,
{
    let s1 = l_type_list(s, "("@, ")"@, p.inputs@);
    match p.output {
        Some(t) => l_type(f_maybe_wrap(s1, " -> "@, "-> "@, s_type(t)), t),
        None => s1,
    }
}

pub open spec fn l_type_list(s: FState, open: Seq<char>, close: Seq<char>, v: Seq<Type>) -> FState
    decreases v, v.len() + 1,
{
    f_close_list(l_type_comma_fold(f_open_list(s, open), v, v.len() as int, false), close)
}

/// The position where the qualified-self part of a path ends.
pub open spec fn qself_end(pos: usize, n: int) -> int {
    if pos <= n {
        pos as int
    } else {
        n
    }
}

pub open spec fn l_qself_path(s: FState, pt: PathType) -> FState
    decreases pt, 0int,
{
    match pt.qself {
        Some(q) => {
            let segs = pt.path.segments@;
            let k = qself_end(q.pos, segs.len() as int);
            let s1 = l_type(f_open_list(s, "<"@), q.ty);
            let s2 = if q.pos > 0 {
                l_seg_fold(f_raw(s1, " as "@), segs, 0, k)
            } else {
                s1
            };
            l_seg_fold(f_insert(f_close_list(s2, ">"@), "::"@), segs, k, segs.len() as int)
        },
        None => s,
    }
}

pub open spec fn l_path_type(s: FState, pt: PathType) -> FState
    decreases pt, 1int,
{
    match pt.qself {
        Some(_) => l_qself_path(f_maybe_wrap(s, ""@, ""@, s_path_type(pt)), pt),
        None => l_path(s, pt.path),
    }
}

// ---------------------------------------------------------------------------
// Types
// ---------------------------------------------------------------------------

pub open spec fn l_type(s: FState, t: Type) -> FState
    decreases t, 0int,
{
    let s1 = f_maybe_nl(s, t.loc);
    match t.ty {
        TypeKind::Symbol(x) => f_insert(s1, x@),
        TypeKind::Path(pt) => l_path_type(s1, *pt),
        TypeKind::Ptr(p) => l_ptr_type(s1, *p),
        TypeKind::Ref(r) => l_ref_type(s1, *r),
        TypeKind::Tuple(tt) => l_type_list(s1, "("@, ")"@, tt.types@),
        TypeKind::Slice(st) => l_slice_type(s1, *st),
        TypeKind::Array(a) => l_array_type(s1, *a),
        TypeKind::Trait(tr) => l_trait_type(s1, *tr),
        TypeKind::BareFn(b) => l_bare_fn_type(s1, *b),
        TypeKind::Macro(m) => l_macro(s1, m),
    }
}

pub open spec fn l_ptr_type(s: FState, p: PtrType) -> FState
    decreases p, 0int,
{
    l_type(f_maybe_wrap(s, s_ptr_head(p.is_mut), s_ptr_head(p.is_mut), s_type(p.ty)), p.ty)
}

pub open spec fn l_ref_type(s: FState, r: RefType) -> FState
    decreases r, 0int,
{
    let head = s_ref_head(r.lifetime, r.is_mut);
    l_type(f_maybe_wrap(s, head, head, s_type(r.ty)), r.ty)
}

pub open spec fn l_slice_type(s: FState, st: SliceType) -> FState
    decreases st, 0int,
{
    f_close_list(l_type(f_open_list(s, "["@), st.ty), "]"@)
}

pub open spec fn l_array_type(s: FState, a: ArrayType) -> FState
    decreases a, 0int,
{
    let s1 = l_type(f_open_list(s, "["@), a.ty);
    f_close_list(l_expr(f_insert_sep(s1, ";"@, a.expr.loc.nl, s_expr(a.expr)), a.expr), "]"@)
}

pub open spec fn l_trait_type(s: FState, t: TraitType) -> FState
    decreases t, 0int,
{
    let s1 = if t.is_dyn {
        f_raw(s, "dyn "@)
    } else {
        s
    };
    let s2 = if t.is_impl {
        f_raw(s1, "impl "@)
    } else {
        s1
    };
    l_bounds(s2, t.bounds)
}

pub open spec fn l_bare_fn_type(s: FState, b: BareFnType) -> FState
    decreases b, 0int,
{
    let s1 = l_for_lifetime_defs(s, b.lifetime_defs@);
    l_fn_sig(f_insert(s1, s_fn_head(b.header.is_unsafe, false, b.header.abi@)), b.sig)
}

// ---------------------------------------------------------------------------
// Foreign modules, constants, statics, structs, unions, enums
// ---------------------------------------------------------------------------

pub open spec fn l_foreign_mod(s: FState, f: ForeignMod) -> FState
    decreases f, 0int,
{
    let s1 = f_insert(s, s_foreign_head(f.abi@));
    if f.items@.len() == 0 {
        f_empty_braces(s1)
    } else {
        f_close_brace(l_foreign_items(f_open_brace(s1), f.items@, f.items@.len() as int))
    }
}

pub open spec fn l_foreign_items(s: FState, v: Seq<ForeignItem>, n: int) -> FState
    decreases v, n,
{
    if n <= 0 || n > v.len() {
        s
    } else {
        let s1 = l_foreign_items(s, v, n - 1);
        let it = v[n - 1];
        let s2 = f_insert_indent(l_attrs(f_leading(s1, it.loc.start), it.attrs@));
        f_nl(f_trailing(l_foreign_item(s2, it), it.loc.end))
    }
}

pub open spec fn l_foreign_item(s: FState, it: ForeignItem) -> FState
    decreases it, 0int,
{
    let s1 = f_vis(s, it.vis@);
    let s2 = match it.item {
        ForeignKind::Type(name) => f_insert(s1, "type "@ + name@),
        ForeignKind::Static(st) => l_foreign_static(s1, st),
        ForeignKind::Fn(f) => l_foreign_fn(s1, f),
        ForeignKind::Macro(m) => l_macro(s1, m),
    };
    f_raw(s2, ";"@)
}

pub open spec fn l_foreign_static(s: FState, st: ForeignStatic) -> FState
    decreases st, 0int,
{
    let s1 = f_insert(s, s_static_head(st.is_mut) + st.name@);
    l_type(f_insert_sep(s1, ":"@, st.ty.loc.nl, s_type(st.ty)), st.ty)
}

pub open spec fn l_foreign_fn(s: FState, f: ForeignFn) -> FState
    decreases f, 0int,
{
    l_fn_sig(l_generics(f_insert(s, "fn "@ + f.name@), f.generics), f.sig)
}

/// `const name: type = expr`, without the semicolon.
pub open spec fn l_const(s: FState, c: Const) -> FState
    decreases c, 0int,
{
    let s1 = f_insert(s, "const "@ + c.name@);
    let s2 = l_type(f_insert_sep(s1, ":"@, c.ty.loc.nl, s_type(c.ty)), c.ty);
    l_expr(f_maybe_wrap(s2, " = "@, "= "@, s_expr(c.expr)), c.expr)
}

pub open spec fn l_static(s: FState, st: Static) -> FState
    decreases st, 0int,
{
    let s1 = f_insert(s, s_static_head(st.is_mut) + st.name@);
    let s2 = l_type(f_insert_sep(s1, ":"@, st.ty.loc.nl, s_type(st.ty)), st.ty);
    f_raw(l_expr(f_maybe_wrap(s2, " = "@, "= "@, s_expr(st.expr)), st.expr), ";"@)
}

pub open spec fn l_struct(s: FState, st: Struct) -> FState
    decreases st, 0int,
{
    let s1 = l_struct_body(l_generics(f_insert(s, "struct "@ + st.name@), st.generics), st.body);
    match st.body {
        StructBody::Struct(_) => s1,
        _ => f_raw(s1, ";"@),
    }
}

pub open spec fn l_union(s: FState, u: Union) -> FState
    decreases u, 0int,
{
    l_struct_field_block(l_generics(f_insert(s, "union "@ + u.name@), u.generics), u.fields@)
}

pub open spec fn l_struct_body(s: FState, b: StructBody) -> FState
    decreases b, 0int,
{
    match b {
        StructBody::Struct(fields) => l_struct_field_block(s, fields@),
        StructBody::Tuple(fields) => l_tuple_fields(s, fields@),
        StructBody::Unit => s,
    }
}

pub open spec fn l_struct_field_block(s: FState, v: Seq<StructField>) -> FState
    decreases v, v.len() + 1,
{
    if v.len() == 0 {
        f_empty_braces(s)
    } else {
        f_close_brace(l_struct_fields(f_open_brace(s), v, v.len() as int))
    }
}

pub open spec fn l_struct_fields(s: FState, v: Seq<StructField>, n: int) -> FState
    decreases v, n,
{
    if n <= 0 || n > v.len() {
        s
    } else {
        let s1 = l_struct_fields(s, v, n - 1);
        let f = v[n - 1];
        let s2 = f_insert_indent(l_attrs(f_leading(s1, f.loc.start), f.attrs@));
        f_nl(f_trailing(l_struct_field(s2, f), f.loc.end))
    }
}

pub open spec fn l_struct_field(s: FState, f: StructField) -> FState
    decreases f, 0int,
{
    let s1 = f_insert(f_vis(s, f.vis@), f.name@);
    f_raw(l_type(f_insert_sep(s1, ":"@, f.ty.loc.nl, s_type(f.ty)), f.ty), ","@)
}

pub open spec fn l_tuple_fields(s: FState, v: Seq<TupleField>) -> FState
    decreases v, v.len() + 1,
{
    f_close_list(l_tuple_field_fold(f_open_list(s, "("@), v, v.len() as int), ")"@)
}

pub open spec fn l_tuple_field_fold(s: FState, v: Seq<TupleField>, n: int) -> FState
    decreases v, n,
{
    if n <= 0 || n > v.len() {
        s
    } else {
        let s1 = l_tuple_field_fold(s, v, n - 1);
        let f = v[n - 1];
        l_tuple_field(
            if n > 1 {
                f_insert_sep(s1, ","@, f.loc.nl, s_tuple_field(f))
            } else {
                s1
            },
            f,
        )
    }
}

pub open spec fn l_tuple_field(s: FState, f: TupleField) -> FState
    decreases f, 0int,
{
    let s1 = l_attrs(f_leading(f_maybe_nl(s, f.loc), f.loc.start), f.attrs@);
    l_type(f_vis(s1, f.vis@), f.ty)
}

pub open spec fn l_enum(s: FState, e: Enum) -> FState
    decreases e, 0int,
{
    let s1 = l_generics(f_insert(s, "enum "@ + e.name@), e.generics);
    let v = e.body.fields@;
    if v.len() == 0 {
        f_empty_braces(s1)
    } else {
        f_close_brace(l_enum_fields(f_open_brace(s1), v, v.len() as int))
    }
}

pub open spec fn l_enum_fields(s: FState, v: Seq<EnumField>, n: int) -> FState
    decreases v, n,
{
    if n <= 0 || n > v.len() {
        s
    } else {
        let s1 = l_enum_fields(s, v, n - 1);
        let f = v[n - 1];
        let s2 = f_insert_indent(l_attrs(f_leading(s1, f.loc.start), f.attrs@));
        f_nl(f_trailing(l_enum_field(s2, f), f.loc.end))
    }
}

pub open spec fn l_enum_field(s: FState, f: EnumField) -> FState
    decreases f, 0int,
{
    let s1 = l_struct_body(f_insert(s, f.name@), f.body);
    let s2 = match f.expr {
        Some(e) => l_expr(f_maybe_wrap(s1, " = "@, "= "@, s_expr(e)), e),
        None => s1,
    };
    f_raw(s2, ","@)
}

// ---------------------------------------------------------------------------
// Functions, traits, impls
// ---------------------------------------------------------------------------

pub open spec fn l_fn(s: FState, f: Fn) -> FState
    decreases f, 0int,
{
    let s1 = l_generics(l_fn_head(s, f.header, f.name@), f.generics);
    l_block(l_where(l_fn_sig(s1, f.sig), f.generics.wh), f.block)
}

/// A trait: `unsafe` where it is so, then `trait` and its name (an `auto`
/// trait is not marked), generics, bounds, `where` and items.
pub open spec fn l_trait(s: FState, t: Trait) -> FState
    decreases t, 0int,
{
    let s1 = if t.is_unsafe {
        f_raw(s, "unsafe "@)
    } else {
        s
    };
    let s3 = l_generics(f_insert(s1, "trait "@ + t.name@), t.generics);
    let s4 = if t.bounds.0@.len() > 0 {
        l_bounds(f_raw(s3, ": "@), t.bounds)
    } else {
        s3
    };
    let s5 = l_where(s4, t.generics.wh);
    if t.items@.len() == 0 {
        f_empty_braces(s5)
    } else {
        f_close_brace(l_trait_items(f_open_brace(s5), t.items@, t.items@.len() as int))
    }
}

pub open spec fn l_trait_items(s: FState, v: Seq<TraitItem>, n: int) -> FState
    decreases v, n,
{
    if n <= 0 || n > v.len() {
        s
    } else {
        let s1 = l_trait_items(s, v, n - 1);
        let it = v[n - 1];
        let s2 = f_insert_indent(l_attrs(f_leading(s1, it.loc.start), it.attrs@));
        f_nl(f_trailing(l_trait_item(s2, it), it.loc.end))
    }
}

pub open spec fn l_trait_item(s: FState, it: TraitItem) -> FState
    decreases it, 0int,
{
    match it.item {
        TraitItemKind::Const(c) => l_const_trait_item(s, c),
        TraitItemKind::Type(t) => l_type_trait_item(s, t),
        TraitItemKind::Method(m) => l_method_trait_item(s, m),
        TraitItemKind::Macro(m) => f_raw(l_macro(s, m), ";"@),
    }
}

pub open spec fn l_const_trait_item(s: FState, c: ConstTraitItem) -> FState
    decreases c, 0int,
{
    let s1 = f_insert(s, "const "@ + c.name@);
    let s2 = l_type(f_insert_sep(s1, ":"@, c.ty.loc.nl, s_type(c.ty)), c.ty);
    let s3 = match c.expr {
        Some(e) => l_expr(f_maybe_wrap(s2, " = "@, "= "@, s_expr(e)), e),
        None => s2,
    };
    f_raw(s3, ";"@)
}

pub open spec fn l_type_trait_item(s: FState, t: TypeTraitItem) -> FState
    decreases t, 0int,
{
    let s1 = l_generics(f_insert(s, "type "@ + t.name@), t.generics);
    let s2 = if t.bounds.0@.len() > 0 {
        l_bounds(f_raw(s1, ": "@), t.bounds)
    } else {
        s1
    };
    let s3 = match t.ty {
        Some(ty) => l_type(f_maybe_wrap(s2, " = "@, "= "@, s_type(ty)), ty),
        None => s2,
    };
    f_raw(s3, ";"@)
}

pub open spec fn l_method_trait_item(s: FState, m: MethodTraitItem) -> FState
    decreases m, 0int,
{
    let s1 = l_method_sig(s, m.sig);
    match m.block {
        Some(b) => l_block(s1, b),
        None => f_raw(s1, ";"@),
    }
}

/// An impl: `unsafe` where it is so, then `impl` (a `default` impl is not
/// marked), generics, the trait and the type, `where` and items.
pub open spec fn l_impl(s: FState, im: Impl) -> FState
    decreases im, 0int,
{
    let s2 = if im.is_unsafe {
        f_raw(s, "unsafe "@)
    } else {
        s
    };
    let s3 = f_raw(l_generics(f_raw(s2, "impl"@), im.generics), " "@);
    let s4 = match im.trait_ref {
        Some(tr) => {
            let a = if im.is_neg {
                f_maybe_wrap(s3, "!"@, "!"@, s_path(tr))
            } else {
                s3
            };
            let b = l_path(a, tr);
            l_type(f_maybe_wrap(b, " for "@, "for "@, s_type(im.ty)), im.ty)
        },
        None => l_type(s3, im.ty),
    };
    let s5 = l_where(s4, im.generics.wh);
    if im.items@.len() == 0 {
        f_empty_braces(s5)
    } else {
        f_close_brace(l_impl_items(f_open_brace(s5), im.items@, im.items@.len() as int))
    }
}

pub open spec fn l_impl_items(s: FState, v: Seq<ImplItem>, n: int) -> FState
    decreases v, n,
{
    if n <= 0 || n > v.len() {
        s
    } else {
        let s1 = l_impl_items(s, v, n - 1);
        let it = v[n - 1];
        let s2 = f_insert_indent(l_attrs(f_leading(s1, it.loc.start), it.attrs@));
        f_nl(f_trailing(l_impl_item(s2, it), it.loc.end))
    }
}

pub open spec fn l_impl_item(s: FState, it: ImplItem) -> FState
    decreases it, 0int,
{
    let s1 = f_vis(s, it.vis@);
    let s2 = if it.is_default {
        f_raw(s1, "default "@)
    } else {
        s1
    };
    match it.item {
        ImplItemKind::Const(c) => f_raw(l_const(s2, c), ";"@),
        ImplItemKind::Type(t) => l_type_impl_item(s2, t),
        ImplItemKind::Existential(e) => l_existential_impl_item(s2, e),
        ImplItemKind::Method(m) => l_method_impl_item(s2, m),
        ImplItemKind::Macro(m) => f_raw(l_macro(s2, m), ";"@),
    }
}

pub open spec fn l_type_impl_item(s: FState, t: TypeImplItem) -> FState
    decreases t, 0int,
{
    let s1 = l_generics(f_insert(s, "type "@ + t.name@), t.generics);
    f_raw(l_type(f_maybe_wrap(s1, " = "@, "= "@, s_type(t.ty)), t.ty), ";"@)
}

pub open spec fn l_existential_impl_item(s: FState, e: ExistentialImplItem) -> FState
    decreases e, 0int,
{
    let s1 = l_generics(f_insert(s, "existential type "@ + e.name@), e.generics);
    let s2 = if e.bounds.0@.len() > 0 {
        l_bounds(f_raw(s1, ": "@), e.bounds)
    } else {
        s1
    };
    f_raw(s2, ";"@)
}

pub open spec fn l_method_impl_item(s: FState, m: MethodImplItem) -> FState
    decreases m, 0int,
{
    l_block(l_method_sig(s, m.sig), m.block)
}

pub open spec fn l_method_sig(s: FState, sig: MethodSig) -> FState
    decreases sig, 0int,
{
    let s1 = l_generics(l_fn_head(s, sig.header, sig.name@), sig.generics);
    l_where(l_fn_sig(s1, sig.sig), sig.generics.wh)
}

pub open spec fn l_fn_sig(s: FState, sig: FnSig) -> FState
    decreases sig, 0int,
{
    l_fn_return(l_args(s, sig.args@), sig.ret)
}

pub open spec fn l_args(s: FState, v: Seq<Arg>) -> FState
    decreases v, v.len() + 1,
{
    f_close_list(l_arg_fold(f_open_list(s, "("@), v, v.len() as int), ")"@)
}

pub open spec fn l_arg_fold(s: FState, v: Seq<Arg>, n: int) -> FState
    decreases v, n,
{
    if n <= 0 || n > v.len() {
        s
    } else {
        let s1 = l_arg_fold(s, v, n - 1);
        let a = v[n - 1];
        l_arg(
            if n > 1 {
                f_insert_sep(s1, ","@, a.loc.nl, s_arg(a))
            } else {
                s1
            },
            a,
        )
    }
}

pub open spec fn l_arg(s: FState, a: Arg) -> FState
    decreases a, 0int,
{
    let s1 = f_maybe_wrap(f_maybe_nl(s, a.loc), ""@, ""@, s_arg(a));
    let s2 = if a.has_patten {
        f_raw(l_patten(s1, a.patten), ": "@)
    } else {
        s1
    };
    l_type(s2, a.ty)
}

pub open spec fn l_fn_return(s: FState, r: Return) -> FState
    decreases r, 0int,
{
    match r.ret {
        Some(t) => {
            let s1 = if r.nl {
                f_raw(f_nl_indent(s), "-> "@)
            } else {
                f_maybe_nl_indent(s, " -> "@, "-> "@, s_type(t))
            };
            l_type(s1, t)
        },
        None => s,
    }
}

// ---------------------------------------------------------------------------
// Blocks and statements
// ---------------------------------------------------------------------------

pub open spec fn l_block(s: FState, b: Block) -> FState
    decreases b, 0int,
{
    let s1 = if b.is_unsafe {
        f_raw(s, "unsafe"@)
    } else {
        s
    };
    if b.stmts@.len() == 0 {
        f_empty_braces(s1)
    } else {
        f_close_brace(l_stmts(f_open_brace(s1), b.stmts@, b.stmts@.len() as int))
    }
}

pub open spec fn l_stmts(s: FState, v: Seq<Stmt>, n: int) -> FState
    decreases v, n,
{
    if n <= 0 || n > v.len() {
        s
    } else {
        l_stmt(l_stmts(s, v, n - 1), v[n - 1])
    }
}

pub open spec fn l_stmt(s: FState, st: Stmt) -> FState
    decreases st, 0int,
{
    let s1 = f_leading(s, st.loc.start);
    match st.stmt {
        StmtKind::Item(it) => l_item(s1, it),
        StmtKind::Let(l) => l_let(s1, l),
        StmtKind::Expr(e, semi) => l_expr_stmt(s1, e, semi),
        StmtKind::Macro(m) => l_macro_stmt(s1, m),
    }
}

pub open spec fn l_let(s: FState, l: Let) -> FState
    decreases l, 0int,
{
    let s1 = f_raw(f_insert_indent(l_attrs(f_leading(s, l.loc.start), l.attrs@)), "let "@);
    let s2 = l_patten(s1, l.patten);
    let s3 = match l.ty {
        Some(t) => l_type(f_maybe_wrap(s2, ": "@, ":"@, s_type(t)), t),
        None => s2,
    };
    let s4 = match l.init {
        Some(e) => l_expr(f_maybe_wrap(s3, " = "@, "= "@, s_expr(e)), e),
        None => s3,
    };
    f_nl(f_trailing(f_raw(s4, ";"@), l.loc.end))
}

pub open spec fn l_expr_stmt(s: FState, e: Expr, is_semi: bool) -> FState
    decreases e, 1int,
{
    let s1 = l_expr(f_insert_indent(l_attrs(f_leading(s, e.loc.start), e.attrs@)), e);
    let s2 = if is_semi {
        f_raw(s1, ";"@)
    } else {
        s1
    };
    f_nl(f_trailing(s2, e.loc.end))
}

pub open spec fn l_macro_stmt(s: FState, m: MacroStmt) -> FState
    decreases m, 0int,
{
    let s1 = l_macro(f_insert_indent(l_attrs(f_leading(s, m.loc.start), m.attrs@)), m.mac);
    let s2 = if m.is_semi {
        f_raw(s1, ";"@)
    } else {
        s1
    };
    f_nl(f_trailing(s2, m.loc.end))
}

// ---------------------------------------------------------------------------
// Patterns
// ---------------------------------------------------------------------------

pub open spec fn l_patten(s: FState, p: Patten) -> FState
    decreases p, 0int,
{
    let s1 = f_maybe_nl(s, p.loc);
    match p.patten {
        PattenKind::Wildcard => f_insert(s1, "_"@),
        PattenKind::Symbol(x) => f_insert(s1, x@),
        PattenKind::Literal(e) => l_expr(s1, e),
        PattenKind::Range(r) => l_range_patten(s1, r),
        PattenKind::Ref(r) => l_ref_patten(s1, *r),
        PattenKind::Path(pt) => l_path_type(s1, pt),
        PattenKind::Ident(ip) => l_ident_patten(s1, *ip),
        PattenKind::Struct(sp) => l_struct_patten(s1, sp),
        PattenKind::Enum(ep) => l_enum_patten(s1, ep),
        PattenKind::Tuple(tp) => l_patten_list(s1, "("@, ")"@, tp.pattens@),
        PattenKind::Slice(sp) => l_patten_list(s1, "["@, "]"@, sp.pattens@),
        PattenKind::Macro(m) => l_macro(s1, m),
    }
}

/// `start...end`: a range pattern is written with `...`, inclusive or not.
pub open spec fn l_range_patten(s: FState, r: RangePatten) -> FState
    decreases r, 0int,
{
    l_expr(f_insert(l_expr(s, r.start), "..."@), r.end)
}

pub open spec fn l_ref_patten(s: FState, r: RefPatten) -> FState
    decreases r, 0int,
{
    l_patten(f_insert(s, s_ref_head(None, r.is_mut)), r.patten)
}

pub open spec fn l_ident_patten(s: FState, ip: IdentPatten) -> FState
    decreases ip, 0int,
{
    let s1 = f_insert(s, s_ident_patten_head(ip.is_ref, ip.is_mut) + ip.name@);
    match ip.patten {
        Some(sub) => l_patten(f_maybe_wrap(s1, " @ "@, "@ "@, s_patten(sub)), sub),
        None => s1,
    }
}

pub open spec fn l_enum_patten(s: FState, ep: EnumPatten) -> FState
    decreases ep, 0int,
{
    let s1 = l_path(s, ep.path);
    if ep.pattens@.len() > 0 {
        l_patten_list(s1, "("@, ")"@, ep.pattens@)
    } else {
        s1
    }
}

pub open spec fn l_patten_list(s: FState, open: Seq<char>, close: Seq<char>, v: Seq<Patten>) -> FState
    decreases v, v.len() + 1,
{
    f_close_list(l_patten_fold(f_open_list(s, open), v, v.len() as int), close)
}

pub open spec fn l_patten_fold(s: FState, v: Seq<Patten>, n: int) -> FState
    decreases v, n,
{
    if n <= 0 || n > v.len() {
        s
    } else {
        let s1 = l_patten_fold(s, v, n - 1);
        let p = v[n - 1];
        l_patten(
            if n > 1 {
                f_insert_sep(s1, ","@, p.loc.nl, s_patten(p))
            } else {
                s1
            },
            p,
        )
    }
}

pub open spec fn l_struct_patten(s: FState, sp: StructPatten) -> FState
    decreases sp, 0int,
{
    let s1 = l_path(s, sp.path);
    if sp.fields@.len() == 0 && !sp.omit {
        f_raw(s1, "{}"@)
    } else {
        let s2 = l_field_pattens(f_open_body(s1), sp.fields@, sp.fields@.len() as int);
        let s3 = if sp.omit {
            f_nl(f_raw(f_insert_indent(s2), ".."@))
        } else {
            s2
        };
        f_close_brace(s3)
    }
}

pub open spec fn l_field_pattens(s: FState, v: Seq<StructFieldPatten>, n: int) -> FState
    decreases v, n,
{
    if n <= 0 || n > v.len() {
        s
    } else {
        let s1 = l_field_pattens(s, v, n - 1);
        let f = v[n - 1];
        f_nl(f_trailing(l_field_patten(f_insert_indent(f_leading(s1, f.loc.start)), f), f.loc.end))
    }
}

pub open spec fn l_field_patten(s: FState, f: StructFieldPatten) -> FState
    decreases f, 0int,
{
    let s1 = if f.shorthand {
        l_patten(s, f.patten)
    } else {
        l_patten(f_maybe_wrap(f_insert(s, f.name@), ": "@, ":"@, s_patten(f.patten)), f.patten)
    };
    f_raw(s1, ","@)
}

// ---------------------------------------------------------------------------
// Expressions
// ---------------------------------------------------------------------------

pub open spec fn l_expr(s: FState, e: Expr) -> FState
    decreases e, 0int,
{
    let s1 = f_maybe_nl(s, e.loc);
    match e.expr {
        ExprKind::Literal(c) => l_chunk(s1, c),
        ExprKind::Path(pt) => l_path_type(s1, pt),
        ExprKind::Ref(r) => l_ref_expr(s1, *r),
        ExprKind::UnaryOp(u) => l_unary_expr(s1, *u),
        ExprKind::Try(x) => f_insert(l_expr(s1, *x), "?"@),
        ExprKind::ListOp(l) => l_list_op_expr(s1, *l),
        ExprKind::Repeat(r) => l_repeat_expr(s1, *r),
        ExprKind::Array(v) => l_expr_list(s1, "["@, "]"@, (*v)@, 0),
        ExprKind::Tuple(v) => l_expr_list(s1, "("@, ")"@, (*v)@, 0),
        ExprKind::Index(ix) => l_index_expr(s1, *ix),
        ExprKind::Struct(st) => l_struct_expr(s1, *st),
        ExprKind::Field(f) => l_field_expr(s1, s_expr(e), *f),
        ExprKind::Type(t) => l_type_expr(s1, *t),
        ExprKind::Cast(c) => l_cast_expr(s1, *c),
        ExprKind::Range(r) => l_range_expr(s1, s_expr(e), *r),
        ExprKind::Block(b) => l_block_expr(s1, *b),
        ExprKind::If(i) => l_if_expr(s1, *i),
        ExprKind::While(w) => l_while_expr(s1, *w),
        ExprKind::Let(l) => l_let_expr(s1, *l),
        ExprKind::For(f) => l_for_expr(s1, *f),
        ExprKind::Loop(l) => l_loop_expr(s1, *l),
        ExprKind::Break(b) => l_break_expr(s1, *b),
        ExprKind::Continue(c) => l_jump_label(s1, "continue"@, c.label),
        ExprKind::Match(m) => l_match_expr(s1, *m),
        ExprKind::FnCall(f) => l_fn_call_expr(s1, *f),
        ExprKind::MethodCall(m) => l_method_call(s1, *m),
        ExprKind::Closure(c) => l_closure(s1, *c),
        ExprKind::Return(r) => l_return_expr(s1, *r),
        ExprKind::Macro(m) => l_macro(s1, m),
    }
}

pub open spec fn l_ref_expr(s: FState, r: RefExpr) -> FState
    decreases r, 0int,
{
    let head = s_ref_head(None, r.is_mut);
    l_expr(f_maybe_wrap(s, head, head, s_expr(r.expr)), r.expr)
}

pub open spec fn l_unary_expr(s: FState, u: UnaryOpExpr) -> FState
    decreases u, 0int,
{
    l_expr(f_maybe_wrap(s, u.op@, u.op@, s_expr(u.expr)), u.expr)
}

pub open spec fn l_list_op_expr(s: FState, l: ListOpExpr) -> FState
    decreases l, 0int,
{
    l_list_op_fold(s, l.op.s@, l.exprs@, l.exprs@.len() as int)
}

pub open spec fn l_list_op_fold(s: FState, op: Seq<char>, v: Seq<Expr>, n: int) -> FState
    decreases v, n,
{
    if n <= 0 || n > v.len() {
        s
    } else {
        let s1 = l_list_op_fold(s, op, v, n - 1);
        let x = v[n - 1];
        l_expr(
            if n > 1 {
                f_maybe_wrap(s1, " "@ + op + " "@, op + " "@, s_expr(x))
            } else {
                s1
            },
            x,
        )
    }
}

pub open spec fn l_repeat_expr(s: FState, r: RepeatExpr) -> FState
    decreases r, 0int,
{
    let s1 = l_expr(f_open_list(s, "["@), r.value);
    f_close_list(l_expr(f_insert_sep(s1, ";"@, r.len.loc.nl, s_expr(r.len)), r.len), "]"@)
}

/// The expressions from position `from` on, between `open` and `close`,
/// separated by commas.
pub open spec fn l_expr_list(s: FState, open: Seq<char>, close: Seq<char>, v: Seq<Expr>, from: int) -> FState
    decreases v, v.len() + 1,
{
    f_close_list(l_expr_fold(f_open_list(s, open), v, from, v.len() as int), close)
}

pub open spec fn l_expr_fold(s: FState, v: Seq<Expr>, from: int, n: int) -> FState
    decreases v, n,
{
    if n <= from || n <= 0 || n > v.len() {
        s
    } else {
        let s1 = l_expr_fold(s, v, from, n - 1);
        let x = v[n - 1];
        l_expr(
            if n - 1 > from {
                f_insert_sep(s1, ","@, x.loc.nl, s_expr(x))
            } else {
                s1
            },
            x,
        )
    }
}

pub open spec fn l_index_expr(s: FState, ix: IndexExpr) -> FState
    decreases ix, 0int,
{
    f_close_list(l_expr(f_open_list(l_expr(s, ix.obj), "["@), ix.index), "]"@)
}

/// A struct literal: `{}` where it has no fields (a base, if any, is not
/// written), else one field per line and the base last.
pub open spec fn l_struct_expr(s: FState, st: StructExpr) -> FState
    decreases st, 0int,
{
    let s1 = l_path(s, st.path);
    if st.fields@.len() == 0 {
        f_insert(s1, " {}"@)
    } else {
        let s2 = l_field_exprs(f_open_body(s1), st.fields@, st.fields@.len() as int);
        let s3 = match st.base {
            Some(b) => f_nl(f_trailing(l_expr(f_insert(f_insert_indent(s2), ".."@), b), b.loc.end)),
            None => s2,
        };
        f_close_brace(s3)
    }
}

pub open spec fn l_field_exprs(s: FState, v: Seq<StructFieldExpr>, n: int) -> FState
    decreases v, n,
{
    if n <= 0 || n > v.len() {
        s
    } else {
        let s1 = l_field_exprs(s, v, n - 1);
        let f = v[n - 1];
        f_nl(f_trailing(l_field_expr_item(f_insert_indent(f_leading(s1, f.loc.start)), f), f.loc.end))
    }
}

pub open spec fn l_field_expr_item(s: FState, f: StructFieldExpr) -> FState
    decreases f, 0int,
{
    let s1 = f_insert(s, f.name@);
    f_raw(l_expr(f_insert_sep(s1, ":"@, f.value.loc.nl, s_expr(f.value)), f.value), ","@)
}

/// `expr.field`; `text` is the text of the whole expression.
pub open spec fn l_field_expr(s: FState, text: Seq<char>, f: FieldExpr) -> FState
    decreases f, 0int,
{
    f_insert(l_expr(f_maybe_wrap(s, ""@, ""@, text), f.expr), "."@ + f.field@)
}

pub open spec fn l_type_expr(s: FState, t: TypeExpr) -> FState
    decreases t, 0int,
{
    l_type(f_maybe_wrap(l_expr(s, t.expr), ": "@, ":"@, s_type(t.ty)), t.ty)
}

pub open spec fn l_cast_expr(s: FState, c: CastExpr) -> FState
    decreases c, 0int,
{
    l_type(f_maybe_wrap(l_expr(s, c.expr), " as "@, "as "@, s_type(c.ty)), c.ty)
}

/// `start..end`, written with `..` whether the range is inclusive or not;
/// `text` is the text of the whole expression.
pub open spec fn l_range_expr(s: FState, text: Seq<char>, r: RangeExpr) -> FState
    decreases r, 0int,
{
    let s1 = f_maybe_wrap(s, ""@, ""@, text);
    let s2 = match r.start {
        Some(x) => l_expr(s1, x),
        None => s1,
    };
    let s3 = f_insert(s2, ".."@);
    match r.end {
        Some(x) => l_expr(s3, x),
        None => s3,
    }
}

pub open spec fn l_block_expr(s: FState, b: BlockExpr) -> FState
    decreases b, 0int,
{
    l_block(FState { block_non_sep: true, ..l_label(s, b.label) }, b.block)
}

pub open spec fn l_if_expr(s: FState, i: IfExpr) -> FState
    decreases i, 0int,
{
    let s1 = l_expr(f_raw(FState { block_non_sep: false, ..s }, "if "@), i.expr);
    let s2 = l_block(s1, i.block);
    match i.br {
        Some(b) => l_expr(f_raw(FState { block_non_sep: true, ..s2 }, " else "@), b),
        None => s2,
    }
}

pub open spec fn l_while_expr(s: FState, w: WhileExpr) -> FState
    decreases w, 0int,
{
    l_block(l_expr(f_raw(l_label(s, w.label), "while "@), w.expr), w.block)
}

pub open spec fn l_let_expr(s: FState, l: LetExpr) -> FState
    decreases l, 0int,
{
    let s1 = l_pattens_alt(f_raw(s, "let "@), l.pattens@, l.pattens@.len() as int);
    l_expr(f_maybe_wrap(s1, " = "@, "= "@, s_expr(l.expr)), l.expr)
}

/// The alternatives of a pattern, joined by `|`.
pub open spec fn l_pattens_alt(s: FState, v: Seq<Patten>, n: int) -> FState
    decreases v, n,
{
    if n <= 0 || n > v.len() {
        s
    } else {
        let s1 = l_pattens_alt(s, v, n - 1);
        let p = v[n - 1];
        l_patten(
            if n > 1 {
                f_maybe_wrap(s1, " | "@, "| "@, s_patten(p))
            } else {
                s1
            },
            p,
        )
    }
}

pub open spec fn l_for_expr(s: FState, f: ForExpr) -> FState
    decreases f, 0int,
{
    let s1 = l_patten(f_raw(l_label(s, f.label), "for "@), f.patten);
    l_block(l_expr(f_maybe_wrap(s1, " in "@, "in "@, s_expr(f.expr)), f.expr), f.block)
}

pub open spec fn l_loop_expr(s: FState, l: LoopExpr) -> FState
    decreases l, 0int,
{
    l_block(f_raw(l_label(s, l.label), "loop"@), l.block)
}

pub open spec fn l_break_expr(s: FState, b: BreakExpr) -> FState
    decreases b, 0int,
{
    let s1 = l_jump_label(s, "break"@, b.label);
    match b.expr {
        Some(x) => l_expr(f_maybe_wrap(s1, " "@, ""@, s_expr(x)), x),
        None => s1,
    }
}

pub open spec fn l_match_expr(s: FState, m: MatchExpr) -> FState
    decreases m, 0int,
{
    let s1 = l_expr(f_raw(s, "match "@), m.expr);
    if m.arms@.len() == 0 {
        f_empty_braces(s1)
    } else {
        f_close_brace(l_arms(f_open_brace(s1), m.arms@, m.arms@.len() as int))
    }
}

pub open spec fn l_arms(s: FState, v: Seq<Arm>, n: int) -> FState
    decreases v, n,
{
    if n <= 0 || n > v.len() {
        s
    } else {
        let s1 = l_arms(s, v, n - 1);
        let a = v[n - 1];
        let s2 = f_insert_indent(l_attrs(f_leading(s1, a.loc.start), a.attrs@));
        f_nl(f_trailing(l_arm(s2, a), a.loc.end))
    }
}

pub open spec fn l_arm(s: FState, a: Arm) -> FState
    decreases a, 0int,
{
    let s1 = l_pattens_alt(s, a.pattens@, a.pattens@.len() as int);
    let s2 = match a.guard {
        Some(g) => l_expr(f_maybe_wrap(s1, " if "@, "if "@, s_expr(g)), g),
        None => s1,
    };
    f_raw(l_expr(f_maybe_wrap(s2, " => "@, "=> "@, s_expr(a.body)), a.body), ","@)
}

pub open spec fn l_fn_call_expr(s: FState, f: FnCallExpr) -> FState
    decreases f, 0int,
{
    l_expr_list(l_expr(s, f.name), "("@, ")"@, f.args@, 0)
}

pub open spec fn l_method_call(s: FState, m: MethodCallExpr) -> FState
    decreases m, 0int,
{
    let s1 = if m.args@.len() > 0 {
        f_insert(l_expr(s, m.args@[0]), "."@ + m.path.name@)
    } else {
        f_insert(s, m.path.name@)
    };
    let s2 = if !segment_is_empty(m.path) {
        l_path_param(f_insert(s1, "::"@), m.path.param)
    } else {
        s1
    };
    l_expr_list(s2, "("@, ")"@, m.args@, 1)
}

pub open spec fn l_closure(s: FState, c: ClosureExpr) -> FState
    decreases c, 0int,
{
    let s1 = if c.is_static {
        f_insert(s, "static "@)
    } else {
        s
    };
    let s2 = if c.is_async {
        f_insert(s1, "async "@)
    } else {
        s1
    };
    let s3 = if c.is_move {
        f_insert(s2, "move "@)
    } else {
        s2
    };
    let s4 = l_fn_return(l_closure_args(s3, c.sig.args@), c.sig.ret);
    l_expr(f_maybe_wrap(s4, " "@, ""@, s_expr(c.expr)), c.expr)
}

pub open spec fn l_closure_args(s: FState, v: Seq<Arg>) -> FState
    decreases v, v.len() + 1,
{
    f_close_list(l_closure_arg_fold(f_open_list(s, "|"@), v, v.len() as int), "|"@)
}

pub open spec fn l_closure_arg_fold(s: FState, v: Seq<Arg>, n: int) -> FState
    decreases v, n,
{
    if n <= 0 || n > v.len() {
        s
    } else {
        let s1 = l_closure_arg_fold(s, v, n - 1);
        let a = v[n - 1];
        l_closure_arg(
            if n > 1 {
                f_insert_sep(s1, ","@, a.loc.nl, s_closure_arg(a))
            } else {
                s1
            },
            a,
        )
    }
}

pub open spec fn l_closure_arg(s: FState, a: Arg) -> FState
    decreases a, 0int,
{
    let s1 = l_patten(f_maybe_wrap(f_maybe_nl(s, a.loc), ""@, ""@, s_closure_arg(a)), a.patten);
    if is_infer(a.ty) {
        s1
    } else {
        l_type(f_maybe_wrap(s1, ": "@, ":"@, s_type(a.ty)), a.ty)
    }
}

pub open spec fn l_return_expr(s: FState, r: ReturnExpr) -> FState
    decreases r, 0int,
{
    let s1 = f_raw(s, "return"@);
    match r.ret {
        Some(x) => l_expr(f_maybe_wrap(s1, " "@, ""@, s_expr(x)), x),
        None => s1,
    }
}

pub open spec fn l_macro(s: FState, m: Macro) -> FState
    decreases m, 0int,
{
    let (open, close) = s_macro_delims(m.style);
    let s1 = f_open_list(f_insert(s, m.name@ + "!"@), open);
    f_close_list(l_macro_fold(s1, m.exprs@, m.seps@, m.exprs@.len() as int), close)
}

/// The macro's arguments, each after the first preceded by its separator
/// (none where it is missing).
pub open spec fn l_macro_fold(s: FState, v: Seq<Expr>, seps: Seq<MacroSep>, n: int) -> FState
    decreases v, n,
{
    if n <= 0 || n > v.len() {
        s
    } else {
        let s1 = l_macro_fold(s, v, seps, n - 1);
        let i = n - 1;
        let x = v[i];
        let s2 = if i > 0 && i - 1 < seps.len() {
            let sep = seps[i - 1];
            if sep.is_sep {
                f_insert_sep(s1, sep.s@, x.loc.nl, s_expr(x))
            } else {
                f_raw(s1, sep.s@)
            }
        } else {
            s1
        };
        l_expr(s2, x)
    }
}

} // verus!
