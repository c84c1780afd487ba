//! The formatter: it walks the IR of a crate and lays it out through the
//! typesetter, placing the comments collected from the source.
//!
//! Every formatting step only appends text, leaves the indentation and the
//! alignment stack as it found them, and only ever takes comments out of the
//! comment maps (see `keeps`).

use std::collections::HashMap;
use crate::ir::{
    AngleParam, Arg, Arm, ArrayType, Pos, Attr, AttrKind, BareFnType, Block, BlockExpr, BreakExpr, CastExpr, Chunk, ClosureExpr, Const, ConstTraitItem, Crate, Enum, EnumField, EnumPatten, Existential, ExistentialImplItem, Expr, ExprKind, ExternCrate, FieldExpr, Fn, FnCallExpr, FnHeader, FnSig, ForExpr, ForeignFn, ForeignItem, ForeignKind, ForeignMod, ForeignStatic, Generics, IdentPatten, IfExpr, Impl, ImplItem, ImplItemKind, IndexExpr, Item, ItemKind, Let, LetExpr, LifetimeDef, ListOpExpr, Loc, LoopExpr, Macro, MacroDef, MacroStmt, MacroStyle, MatchExpr, MetaItem, MethodCallExpr, MethodImplItem, MethodSig, MethodTraitItem, Mod, ModDecl, ParenParam, Path, PathParam, PathSegment, PathType, Patten, PattenKind, PolyTraitRef, PtrType, RangeExpr, RangePatten, RefExpr, RefPatten, RefType, RepeatExpr, Return, ReturnExpr, SliceType, Static, Stmt, StmtKind, Struct, StructBody, StructExpr, StructField, StructFieldExpr, StructFieldPatten, StructPatten, Trait, TraitAlias, TraitItem, TraitItemKind, TraitType, TupleField, Type, TypeAlias, TypeBinding, TypeBindingKind, TypeExpr, TypeImplItem, TypeKind, TypeParam, TypeParamBound, TypeParamBounds, TypeTraitItem, UnaryOpExpr, Union, Use, UseTree, Where, WhereBound, WhereClause, WhereKind, WhileExpr,
};
use crate::ts::{self, Typesetter, TsResult, TsState};
use crate::display::{
    str_eq, display_arg, display_binding, display_bound, display_chunk, display_expr,
    display_lifetime_def, display_path, display_path_type, display_segment, display_tuple_field,
    display_type, display_type_param, display_type_param_bounds, display_where,
    display_where_bound, display_where_clause, fn_head, foreign_head, ptr_head, ref_head,
    static_head, display_attr, display_patten, display_closure_arg, ident_patten_head, display_extern_crate, display_meta_item, display_mod_decl, display_use,
    display_use_tree, s_macro_delims, s_attr, s_extern_crate, s_meta_item, s_mod_decl, s_use, s_use_tree,
};
use crate::layout::{
    attr_at, attr_keys, group_key_text, group_keys, l_angle_param, l_arg, l_arg_fold, l_args, l_arm, l_arms, l_array_type, l_attr, l_attr_group, l_attr_group_fold, l_attrs, l_attrs_scan, l_bare_fn_type, l_binding_fold, l_block, l_block_expr, l_bound, l_bound_fold, l_bounds, l_break_expr, l_cast_expr, l_chunk, l_closure, l_closure_arg, l_closure_arg_fold, l_closure_args, l_const, l_const_trait_item, l_crate_body, l_doc, l_enum, l_enum_field, l_enum_fields, l_enum_patten, l_existential, l_existential_impl_item, l_expr, l_expr_fold, l_expr_list, l_expr_stmt, l_extern_crate, l_field_expr, l_field_expr_item, l_field_exprs, l_field_patten, l_field_pattens, l_fn, l_fn_call_expr, l_fn_head, l_fn_return, l_fn_sig, l_for_expr, l_for_lifetime_defs, l_foreign_fn, l_foreign_item, l_foreign_items, l_foreign_mod, l_foreign_static, l_generics, l_group_body, l_group_items, l_ident_patten, l_if_expr, l_impl, l_impl_item, l_impl_items, l_index_expr, l_item, l_item_group, l_item_group_fold, l_item_groups, l_item_groups_scan, l_item_kind, l_items, l_jump_label, l_label, l_let, l_let_expr, l_lifetime_bounds_fold, l_lifetime_comma_fold, l_lifetime_def, l_lifetime_def_fold, l_lines_fold, l_list_op_expr, l_list_op_fold, l_loop_expr, l_macro, l_macro_def, l_macro_fold, l_macro_stmt, l_match_expr, l_meta_fold, l_meta_item, l_meta_items, l_method_call, l_method_impl_item, l_method_sig, l_method_trait_item, l_mod, l_mod_decl, l_paren_param, l_path, l_path_param, l_path_segment, l_path_type, l_patten, l_patten_fold, l_patten_list, l_pattens_alt, l_poly_trait_ref, l_ptr_type, l_qself_path, l_range_expr, l_range_patten, l_ref_expr, l_ref_patten, l_ref_type, l_repeat_expr, l_return_expr, l_seg_fold, l_slice_type, l_static, l_stmt, l_stmts, l_struct, l_struct_body, l_struct_expr, l_struct_field, l_struct_field_block, l_struct_fields, l_struct_patten, l_sub_mod, l_trait, l_trait_alias, l_trait_item, l_trait_items, l_trait_type, l_tuple_field, l_tuple_field_fold, l_tuple_fields, l_type, l_type_alias, l_type_binding, l_type_comma_fold, l_type_expr, l_type_impl_item, l_type_list, l_type_param, l_type_param_fold, l_type_trait_item, l_unary_expr, l_union, l_use, l_use_fold, l_use_tree, l_use_tree_list, l_use_trees, l_where, l_where_bound, l_where_clause, l_where_clause_fold, l_where_clauses, l_while_expr,
};
use crate::ts::text_lines;
use vstd::prelude::*;

verus! {

broadcast use {
    vstd::std_specs::hash::group_hash_axioms,
    vstd::string::group_string_axioms,
};

// ---------------------------------------------------------------------------
// Ordering of texts
// ---------------------------------------------------------------------------

/// `a` comes before `b` in the order of `String`: character by character,
/// by code point, a proper prefix first.
pub open spec fn seq_lt(a: Seq<char>, b: Seq<char>) -> bool
    decreases a.len(),
{
    if a.len() == 0 {
        b.len() > 0
    } else if b.len() == 0 {
        false
    } else if a[0] != b[0] {
        (a[0] as int) < (b[0] as int)
    } else {
        seq_lt(a.drop_first(), b.drop_first())
    }
}

/// No text comes before itself.
pub proof fn law_seq_lt_irreflexive(a: Seq<char>)
    ensures
        !seq_lt(a, a),
    decreases a.len(),
{
    if a.len() > 0 {
        law_seq_lt_irreflexive(a.drop_first());
    }
}

/// Of two different texts, exactly one comes first.
pub proof fn law_seq_lt_total(a: Seq<char>, b: Seq<char>)
    ensures
        !(seq_lt(a, b) && seq_lt(b, a)),
        a != b ==> seq_lt(a, b) || seq_lt(b, a),
    decreases a.len(),
{
    if a.len() > 0 && b.len() > 0 {
        law_seq_lt_total(a.drop_first(), b.drop_first());
        if a[0] == b[0] && a != b {
            assert(a =~= seq![a[0]] + a.drop_first());
            assert(b =~= seq![b[0]] + b.drop_first());
        }
    } else if a.len() == 0 && b.len() == 0 {
        assert(a =~= b);
    }
}

/// The order of texts is transitive.
pub proof fn law_seq_lt_trans(a: Seq<char>, b: Seq<char>, c: Seq<char>)
    requires
        seq_lt(a, b),
        seq_lt(b, c),
    ensures
        seq_lt(a, c),
    decreases a.len(),
{
    if a.len() > 0 && b.len() > 0 && c.len() > 0 {
        if a[0] == b[0] && b[0] == c[0] {
            law_seq_lt_trans(a.drop_first(), b.drop_first(), c.drop_first());
        }
    }
}

/// Whether `a` comes before `b` in the order of `String`.
pub fn str_lt(a: &str, b: &str) -> (r: bool)
    ensures
        r == seq_lt(a@, b@),
{
    let n = a.unicode_len();
    let m = b.unicode_len();
    let mut i: usize = 0;
    assert(a@.skip(0) =~= a@);
    assert(b@.skip(0) =~= b@);
    while i < n && i < m
        invariant
            n == a@.len(),
            m == b@.len(),
            i <= n,
            i <= m,
            seq_lt(a@, b@) == seq_lt(a@.skip(i as int), b@.skip(i as int)),
        decreases n - i,
    {
        let x = a.get_char(i);
        let y = b.get_char(i);
        assert(a@.skip(i as int)[0] == x);
        assert(b@.skip(i as int)[0] == y);
        if x != y {
            return (x as u32) < (y as u32);
        }
        assert(a@.skip(i as int).drop_first() =~= a@.skip(i + 1));
        assert(b@.skip(i as int).drop_first() =~= b@.skip(i + 1));
        i = i + 1;
    }
    assert(a@.skip(i as int).len() == n - i);
    assert(b@.skip(i as int).len() == m - i);
    i == n && i < m
}

/// The keys of `order` are in strictly ascending order.
pub open spec fn keys_ascending(keys: Seq<Seq<char>>, order: Seq<usize>) -> bool {
    forall|j: int, k: int|
        0 <= j < k < order.len() ==> seq_lt(#[trigger] keys[order[j] as int], #[trigger] keys[order[k] as int])
}

/// Some position listed in `order` holds the key at position `m`.
pub open spec fn covered(keys: Seq<Seq<char>>, order: Seq<usize>, m: int) -> bool {
    exists|j: int| 0 <= j < order.len() && keys[order[j] as int] == keys[m]
}

/// `order` lists, in ascending order of key, one position for each distinct
/// key of `keys`: the last position that holds it.
pub open spec fn is_sorted_last_unique(keys: Seq<Seq<char>>, order: Seq<usize>) -> bool {
    &&& forall|j: int| 0 <= j < order.len() ==> #[trigger] order[j] < keys.len()
    &&& keys_ascending(keys, order)
    &&& forall|m: int| 0 <= m < keys.len() ==> #[trigger] covered(keys, order, m)
    &&& forall|j: int, m: int|
        0 <= j < order.len() && order[j] < m < keys.len() ==> #[trigger] keys[m] != #[trigger] keys[order[j] as int]
}

pub open spec fn strings_view(v: Seq<String>) -> Seq<Seq<char>> {
    v.map(|_i: int, s: String| s@)
}

/// `order` is `is_sorted_last_unique` for the first `i` keys.
pub open spec fn sorted_prefix(ks: Seq<Seq<char>>, order: Seq<usize>, i: int) -> bool {
    &&& forall|j: int| 0 <= j < order.len() ==> #[trigger] order[j] < i
    &&& keys_ascending(ks, order)
    &&& forall|m: int| 0 <= m < i ==> #[trigger] covered(ks, order, m)
    &&& forall|j: int, m: int|
        0 <= j < order.len() && order[j] < m < i ==> #[trigger] ks[m] != #[trigger] ks[order[j] as int]
}

proof fn lemma_sorted_replace(ks: Seq<Seq<char>>, order: Seq<usize>, i: usize, p: int)
    requires
        0 <= i < ks.len(),
        sorted_prefix(ks, order, i as int),
        0 <= p < order.len(),
        forall|j: int| 0 <= j < p ==> seq_lt(#[trigger] ks[order[j] as int], ks[i as int]),
        ks[order[p] as int] == ks[i as int],
    ensures
        sorted_prefix(ks, order.update(p, i), i + 1),
{
    let o2 = order.update(p, i);
    assert forall|j: int, k: int| 0 <= j < k < o2.len() implies seq_lt(
        #[trigger] ks[o2[j] as int],
        #[trigger] ks[o2[k] as int],
    ) by {
        assert(ks[o2[j] as int] == ks[order[j] as int]);
        assert(ks[o2[k] as int] == ks[order[k] as int]);
    }
    assert forall|m: int| 0 <= m < i + 1 implies #[trigger] covered(ks, o2, m) by {
        if m < i {
            assert(covered(ks, order, m));
            let j0 = choose|j: int| 0 <= j < order.len() && ks[order[j] as int] == ks[m];
            assert(ks[o2[j0] as int] == ks[m]);
        } else {
            assert(ks[o2[p] as int] == ks[m]);
        }
    }
    assert forall|j: int, m: int|
        0 <= j < o2.len() && o2[j] < m < i + 1 implies #[trigger] ks[m] != #[trigger] ks[o2[j] as int] by {
        if j != p {
            assert(o2[j] == order[j]);
            if m == i {
                if j < p {
                    law_seq_lt_total(ks[order[j] as int], ks[i as int]);
                } else {
                    assert(seq_lt(ks[order[p] as int], ks[order[j] as int]));
                    law_seq_lt_total(ks[order[p] as int], ks[order[j] as int]);
                }
            }
        }
    }
}

proof fn lemma_asc_insert(ks: Seq<Seq<char>>, order: Seq<usize>, i: usize, p: int)
    requires
        0 <= i < ks.len(),
        keys_ascending(ks, order),
        0 <= p <= order.len(),
        forall|j: int| 0 <= j < p ==> seq_lt(#[trigger] ks[order[j] as int], ks[i as int]),
        p < order.len() ==> seq_lt(ks[i as int], ks[order[p] as int]),
    ensures
        keys_ascending(ks, order.insert(p, i)),
{
    let o2 = order.insert(p, i);
    assert forall|j: int, k: int| 0 <= j < k < o2.len() implies seq_lt(
        #[trigger] ks[o2[j] as int],
        #[trigger] ks[o2[k] as int],
    ) by {
        if k == p {
            assert(o2[j] == order[j]);
        } else if j == p {
            assert(o2[k] == order[k - 1]);
            if k - 1 > p {
                assert(seq_lt(ks[order[p] as int], ks[order[k - 1] as int]));
                law_seq_lt_trans(ks[i as int], ks[order[p] as int], ks[order[k - 1] as int]);
            }
        } else if j < p && k > p {
            assert(o2[j] == order[j]);
            assert(o2[k] == order[k - 1]);
            if k - 1 > p {
                assert(seq_lt(ks[order[p] as int], ks[order[k - 1] as int]));
                law_seq_lt_trans(ks[i as int], ks[order[p] as int], ks[order[k - 1] as int]);
            }
            law_seq_lt_trans(ks[order[j] as int], ks[i as int], ks[order[k - 1] as int]);
        } else if j > p {
            assert(o2[j] == order[j - 1]);
            assert(o2[k] == order[k - 1]);
            assert(seq_lt(ks[order[j - 1] as int], ks[order[k - 1] as int]));
        } else {
            assert(o2[j] == order[j]);
            assert(o2[k] == order[k]);
            assert(seq_lt(ks[order[j] as int], ks[order[k] as int]));
        }
    }
}

proof fn lemma_cover_insert(ks: Seq<Seq<char>>, order: Seq<usize>, i: usize, p: int)
    requires
        0 <= i < ks.len(),
        0 <= p <= order.len(),
        forall|m: int| 0 <= m < i ==> #[trigger] covered(ks, order, m),
    ensures
        forall|m: int| 0 <= m < i + 1 ==> #[trigger] covered(ks, order.insert(p, i), m),
{
    let o2 = order.insert(p, i);
    assert forall|m: int| 0 <= m < i + 1 implies #[trigger] covered(ks, o2, m) by {
        if m < i {
            assert(covered(ks, order, m));
            let j0 = choose|j: int| 0 <= j < order.len() && ks[order[j] as int] == ks[m];
            if j0 < p {
                assert(o2[j0] == order[j0]);
                assert(ks[o2[j0] as int] == ks[m]);
            } else {
                assert(o2[j0 + 1] == order[j0]);
                assert(ks[o2[j0 + 1] as int] == ks[m]);
            }
        } else {
            assert(o2[p] == i);
            assert(ks[o2[p] as int] == ks[m]);
        }
    }
}

proof fn lemma_last_insert(ks: Seq<Seq<char>>, order: Seq<usize>, i: usize, p: int)
    requires
        0 <= i < ks.len(),
        keys_ascending(ks, order),
        0 <= p <= order.len(),
        forall|j: int| 0 <= j < order.len() ==> #[trigger] order[j] < i,
        forall|j: int| 0 <= j < p ==> seq_lt(#[trigger] ks[order[j] as int], ks[i as int]),
        p < order.len() ==> seq_lt(ks[i as int], ks[order[p] as int]),
        forall|j: int, m: int|
            0 <= j < order.len() && order[j] < m < i ==> #[trigger] ks[m] != #[trigger] ks[order[j] as int],
    ensures
        forall|j: int, m: int|
            0 <= j < order.insert(p, i).len() && order.insert(p, i)[j] < m < i + 1 ==> #[trigger] ks[m] != #[trigger] ks[order.insert(p, i)[j] as int],
{
    let o2 = order.insert(p, i);
    assert forall|j: int, m: int|
        0 <= j < o2.len() && o2[j] < m < i + 1 implies #[trigger] ks[m] != #[trigger] ks[o2[j] as int] by {
        if j < p {
            assert(o2[j] == order[j]);
            if m == i {
                assert(seq_lt(ks[order[j] as int], ks[i as int]));
                law_seq_lt_irreflexive(ks[i as int]);
            }
        } else if j > p {
            assert(o2[j] == order[j - 1]);
            if m == i {
                if j - 1 > p {
                    assert(seq_lt(ks[order[p] as int], ks[order[j - 1] as int]));
                    law_seq_lt_trans(ks[i as int], ks[order[p] as int], ks[order[j - 1] as int]);
                }
                law_seq_lt_irreflexive(ks[i as int]);
            }
        }
    }
}

proof fn lemma_sorted_insert(ks: Seq<Seq<char>>, order: Seq<usize>, i: usize, p: int)
    requires
        0 <= i < ks.len(),
        sorted_prefix(ks, order, i as int),
        0 <= p <= order.len(),
        forall|j: int| 0 <= j < p ==> seq_lt(#[trigger] ks[order[j] as int], ks[i as int]),
        p < order.len() ==> !seq_lt(ks[order[p] as int], ks[i as int]) && ks[order[p] as int] != ks[i as int],
    ensures
        sorted_prefix(ks, order.insert(p, i), i + 1),
{
    if p < order.len() {
        law_seq_lt_total(ks[order[p] as int], ks[i as int]);
    }
    lemma_asc_insert(ks, order, i, p);
    lemma_cover_insert(ks, order, i, p);
    lemma_last_insert(ks, order, i, p);
    let o2 = order.insert(p, i);
    assert forall|j: int| 0 <= j < o2.len() implies #[trigger] o2[j] < i + 1 by {
        if j < p {
            assert(o2[j] == order[j]);
        } else if j > p {
            assert(o2[j] == order[j - 1]);
        }
    }
}

proof fn lemma_sorted_done(ks: Seq<Seq<char>>, order: Seq<usize>)
    requires
        sorted_prefix(ks, order, ks.len() as int),
    ensures
        is_sorted_last_unique(ks, order),
{
}

/// Where `key` goes in `order` (from place `p` on): at the first place whose
/// key does not come before it.
pub open spec fn insert_pos(ks: Seq<Seq<char>>, order: Seq<usize>, key: Seq<char>, p: int) -> int
    decreases order.len() - p,
{
    if p < 0 || p >= order.len() {
        p
    } else if seq_lt(ks[order[p] as int], key) {
        insert_pos(ks, order, key, p + 1)
    } else {
        p
    }
}

/// The order of the first `n` keys, built one key at a time: a key already
/// in the order takes the place of the earlier position, a new key is
/// inserted where it goes.
pub open spec fn sort_steps(ks: Seq<Seq<char>>, n: int) -> Seq<usize>
    decreases n,
{
    if n <= 0 {
        Seq::empty()
    } else {
        let order = sort_steps(ks, n - 1);
        let i = n - 1;
        let p = insert_pos(ks, order, ks[i], 0);
        if 0 <= p < order.len() && ks[order[p] as int] == ks[i] {
            order.update(p, i as usize)
        } else {
            order.insert(p, i as usize)
        }
    }
}

/// The positions of `keys` in ascending order of key, keeping one position
/// for each key: the last one. This is the order in which a map from keys,
/// filled in the order of `keys`, is walked.
pub fn sort_last_unique(keys: &Vec<String>) -> (order: Vec<usize>)
    ensures
        is_sorted_last_unique(strings_view(keys@), order@),
        order@ == sort_steps(strings_view(keys@), keys@.len() as int),
{
    let ghost ks = strings_view(keys@);
    let n = keys.len();
    let mut order: Vec<usize> = Vec::new();
    let mut i: usize = 0;
    while i < n
        invariant
            n == keys@.len(),
            ks == strings_view(keys@),
            ks.len() == n,
            i <= n,
            sorted_prefix(ks, order@, i as int),
            order@ == sort_steps(ks, i as int),
        decreases n - i,
    {
        let key = keys[i].as_str();
        assert(key@ == ks[i as int]);
        let mut p: usize = 0;
        while p < order.len() && str_lt(keys[order[p]].as_str(), key)
            invariant
                n == keys@.len(),
                ks == strings_view(keys@),
                ks.len() == n,
                i < n,
                key@ == ks[i as int],
                p <= order@.len(),
                sorted_prefix(ks, order@, i as int),
                order@ == sort_steps(ks, i as int),
                insert_pos(ks, order@, key@, 0) == insert_pos(ks, order@, key@, p as int),
                forall|j: int| 0 <= j < p ==> seq_lt(#[trigger] ks[order@[j] as int], ks[i as int]),
            decreases order@.len() - p,
        {
            assert(ks[order@[p as int] as int] == keys@[order@[p as int] as int]@);
            p = p + 1;
        }
        if p < order.len() {
            assert(ks[order@[p as int] as int] == keys@[order@[p as int] as int]@);
        }
        proof {
            assert(insert_pos(ks, order@, key@, p as int) == p);
            assert(sort_steps(ks, i + 1) == {
                let o = sort_steps(ks, i as int);
                let q = insert_pos(ks, o, ks[i as int], 0);
                if 0 <= q < o.len() && ks[o[q] as int] == ks[i as int] {
                    o.update(q, i)
                } else {
                    o.insert(q, i)
                }
            });
        }
        if p < order.len() && str_eq(keys[order[p]].as_str(), key) {
            proof {
                lemma_sorted_replace(ks, order@, i, p as int);
            }
            order.set(p, i);
        } else {
            proof {
                lemma_sorted_insert(ks, order@, i, p as int);
            }
            order.insert(p, i);
        }
        i = i + 1;
    }
    proof {
        lemma_sorted_done(ks, order@);
    }
    order
}

// ---------------------------------------------------------------------------
// The formatter's state
// ---------------------------------------------------------------------------

struct Formatter {
    ts: Typesetter,
    leading_cmnts: HashMap<Pos, Vec<String>>,
    trailing_cmnts: HashMap<Pos, String>,
    /// The last thing written was the indentation.
    after_indent: bool,
    /// The last thing written was a wrap.
    after_wrap: bool,
    /// The next block opens right where the text stands, with no space before it.
    block_non_sep: bool,
}

/// `b` is `a` with possibly more at its end.
pub open spec fn grows(a: Seq<char>, b: Seq<char>) -> bool {
    &&& a.len() <= b.len()
    &&& forall|i: int| 0 <= i < a.len() ==> #[trigger] b[i] == a[i]
}

/// The comment map `b` is the map `a` with possibly some entries taken out.
pub open spec fn consumed<V>(a: Map<Pos, V>, b: Map<Pos, V>) -> bool {
    forall|k: Pos| #[trigger] b.dom().contains(k) ==> a.dom().contains(k) && b[k] == a[k]
}

/// What every formatting step keeps: the typesetter stays well formed, the
/// indentation and the alignment stack are back as they were, the text only
/// grows, and comments are only taken out of the maps.
spec fn keeps(a: Formatter, b: Formatter) -> bool {
    &&& b.ts.wf()
    &&& b.ts@.indent == a.ts@.indent
    &&& b.ts@.align == a.ts@.align
    &&& grows(a.ts@.text, b.ts@.text)
    &&& consumed(a.leading_cmnts@, b.leading_cmnts@)
    &&& consumed(a.trailing_cmnts@, b.trailing_cmnts@)
}

/// The comment maps and the flags are as they were.
spec fn rest_same(a: Formatter, b: Formatter) -> bool {
    &&& b.leading_cmnts@ == a.leading_cmnts@
    &&& b.trailing_cmnts@ == a.trailing_cmnts@
    &&& b.block_non_sep == a.block_non_sep
}

/// The text ends a line (or is empty).
pub open spec fn at_line_start(text: Seq<char>) -> bool {
    text.len() == 0 || text.last() == ts::NL
}

/// `raw_insert`, which writes nothing for an empty text.
pub open spec fn raw_insert_ne(st: TsState, t: Seq<char>) -> TsState {
    if t.len() == 0 {
        st
    } else {
        ts::raw_insert(st, t)
    }
}

/// `insert`, which writes nothing for an empty text.
pub open spec fn insert_ne(st: TsState, t: Seq<char>) -> TsState {
    if t.len() == 0 {
        st
    } else {
        ts::insert(st, t)
    }
}

/// The typesetter after the leading comment lines `cs`: each non-empty line
/// indented, each line ended.
pub open spec fn st_leading(st: TsState, cs: Seq<String>) -> TsState
    decreases cs.len(),
{
    if cs.len() == 0 {
        st
    } else {
        let s1 = st_leading(st, cs.drop_last());
        let c = cs.last()@;
        ts::nl(
            if c.len() > 0 {
                ts::raw_insert(ts::insert_indent(s1), c)
            } else {
                s1
            },
        )
    }
}

/// The typesetter after the comment lines `cs` left at `pos`, past the end
/// `end` of the crate: each non-empty line written, each line ended. Lines at
/// a position within the crate are dropped.
pub open spec fn st_left_lines(st: TsState, cs: Seq<String>, pos: Pos, end: Pos) -> TsState
    decreases cs.len(),
{
    if cs.len() == 0 {
        st
    } else {
        let s1 = st_left_lines(st, cs.drop_last(), pos, end);
        if pos > end {
            ts::nl(raw_insert_ne(s1, cs.last()@))
        } else {
            s1
        }
    }
}

/// The typesetter after the comments of `m` left at the positions `order`.
pub open spec fn st_left(st: TsState, m: Map<Pos, Vec<String>>, order: Seq<Pos>, end: Pos) -> TsState
    decreases order.len(),
{
    if order.len() == 0 {
        st
    } else {
        let pos = order.last();
        st_left_lines(st_left(st, m, order.drop_last(), end), m[pos]@, pos, end)
    }
}

/// The abstract state of the formatter: the typesetter, the comments not
/// yet written, and the flags.
pub struct FState {
    pub ts: TsState,
    pub leading: Map<Pos, Vec<String>>,
    pub trailing: Map<Pos, String>,
    pub after_indent: bool,
    pub after_wrap: bool,
    pub block_non_sep: bool,
}

impl Formatter {
    spec fn fv(&self) -> FState {
        FState {
            ts: self.ts@,
            leading: self.leading_cmnts@,
            trailing: self.trailing_cmnts@,
            after_indent: self.after_indent,
            after_wrap: self.after_wrap,
            block_non_sep: self.block_non_sep,
        }
    }
}

/// The state the formatter starts in: a fresh typesetter, all comments to
/// place, no flag set.
pub open spec fn f_start(leading: Map<Pos, Vec<String>>, trailing: Map<Pos, String>) -> FState {
    FState {
        ts: ts::ts_start(),
        leading,
        trailing,
        after_indent: false,
        after_wrap: false,
        block_non_sep: false,
    }
}

/// The typesetter once the crate is written from the start state and the
/// comments left after it are written at the positions `order`.
pub open spec fn st_formatted(
    krate: Crate,
    leading: Map<Pos, Vec<String>>,
    trailing: Map<Pos, String>,
    order: Seq<Pos>,
) -> TsState {
    let body = l_crate_body(f_start(leading, trailing), krate);
    st_left(body.ts, body.leading, order, krate.module.loc.end)
}

// ---------------------------------------------------------------------------
// The formatter's steps, on its abstract state
// ---------------------------------------------------------------------------

/// Writes `t` on the line (nothing for an empty text).
#[verifier::opaque]
pub open spec fn f_raw(s: FState, t: Seq<char>) -> FState {
    if t.len() == 0 {
        s
    } else {
        FState { ts: ts::raw_insert(s.ts, t), after_indent: false, after_wrap: false, ..s }
    }
}

/// Writes `t`, wrapping first where it fits on a new line only.
#[verifier::opaque]
pub open spec fn f_insert(s: FState, t: Seq<char>) -> FState {
    if t.len() == 0 {
        s
    } else {
        FState { ts: ts::insert(s.ts, t), after_indent: false, after_wrap: false, ..s }
    }
}

/// Wraps, unless the last thing written was a wrap or the indentation.
#[verifier::opaque]
pub open spec fn f_wrap(s: FState) -> FState {
    if !s.after_indent && !s.after_wrap {
        FState { ts: ts::wrap(s.ts), after_wrap: true, ..s }
    } else {
        s
    }
}

#[verifier::opaque]
pub open spec fn f_nl(s: FState) -> FState {
    FState { ts: ts::nl(s.ts), after_indent: false, after_wrap: false, ..s }
}

/// Starts a new indented line, unless the indentation was the last thing written.
#[verifier::opaque]
pub open spec fn f_nl_indent(s: FState) -> FState {
    if !s.after_indent {
        FState { ts: ts::nl_indent(s.ts), after_indent: true, ..s }
    } else {
        s
    }
}

#[verifier::opaque]
pub open spec fn f_indent(s: FState) -> FState {
    FState { ts: ts::indent(s.ts), ..s }
}

#[verifier::opaque]
pub open spec fn f_outdent(s: FState) -> FState {
    FState { ts: ts::outdent(s.ts), ..s }
}

#[verifier::opaque]
pub open spec fn f_insert_indent(s: FState) -> FState {
    FState { ts: ts::insert_indent(s.ts), after_indent: true, ..s }
}

#[verifier::opaque]
pub open spec fn f_open_list(s: FState, t: Seq<char>) -> FState {
    FState { ts: ts::insert_mark_align(s.ts, t), after_indent: false, after_wrap: false, ..s }
}

#[verifier::opaque]
pub open spec fn f_close_list(s: FState, t: Seq<char>) -> FState {
    FState { ts: ts::insert_unmark_align(s.ts, t), after_indent: false, after_wrap: false, ..s }
}

// ---------------------------------------------------------------------------
// Laws of the formatter's steps
// ---------------------------------------------------------------------------

/// Writing a text on the line: nothing at all for an empty text (the flags
/// are kept); otherwise the typesetter writes it and both flags are cleared.
/// The comments and the block flag are unchanged either way.
pub proof fn law_raw_insert_step(s: FState, t: Seq<char>)
    ensures
        t.len() == 0 ==> f_raw(s, t) == s,
        t.len() > 0 ==> f_raw(s, t) == (FState {
            ts: ts::raw_insert(s.ts, t),
            after_indent: false,
            after_wrap: false,
            ..s
        }),
{
    reveal(f_raw);
}

/// A wrap right after a wrap or right after the indentation adds nothing;
/// otherwise the typesetter wraps and the wrap flag is set.
pub proof fn law_wrap_step(s: FState)
    ensures
        s.after_indent || s.after_wrap ==> f_wrap(s) == s,
        !s.after_indent && !s.after_wrap ==> f_wrap(s) == (FState {
            ts: ts::wrap(s.ts),
            after_wrap: true,
            ..s
        }),
{
    reveal(f_wrap);
}

/// Wrapping twice is wrapping once.
pub proof fn law_wrap_idempotent(s: FState)
    ensures
        f_wrap(f_wrap(s)) == f_wrap(s),
{
    reveal(f_wrap);
}

/// A wrap right after writing the indentation, or after starting a new
/// indented line, adds nothing.
pub proof fn law_wrap_after_indent(s: FState)
    ensures
        f_wrap(f_insert_indent(s)) == f_insert_indent(s),
        f_wrap(f_nl_indent(s)) == f_nl_indent(s),
{
    reveal(f_wrap);
    reveal(f_insert_indent);
    reveal(f_nl_indent);
}

/// The leading comment lines at `pos`, each non-empty one indented, each
/// ended; they leave the map.
#[verifier::opaque]
pub open spec fn f_leading(s: FState, pos: Pos) -> FState {
    if s.leading.contains_key(pos) {
        let cs = s.leading[pos]@;
        FState {
            ts: st_leading(s.ts, cs),
            leading: s.leading.remove(pos),
            after_indent: if cs.len() > 0 {
                false
            } else {
                s.after_indent
            },
            after_wrap: if cs.len() > 0 {
                false
            } else {
                s.after_wrap
            },
            ..s
        }
    } else {
        s
    }
}

/// The trailing comment at `end`, after a space; it leaves the map.
#[verifier::opaque]
pub open spec fn f_trailing(s: FState, end: Pos) -> FState {
    if s.trailing.contains_key(end) {
        FState {
            trailing: s.trailing.remove(end),
            ..f_raw(f_raw(s, " "@), s.trailing[end]@)
        }
    } else {
        s
    }
}

#[verifier::opaque]
pub open spec fn f_maybe_nl(s: FState, loc: Loc) -> FState {
    if loc.nl {
        f_wrap(s)
    } else {
        s
    }
}

#[verifier::opaque]
pub open spec fn f_maybe_wrap(s: FState, sep: Seq<char>, wrap_sep: Seq<char>, t: Seq<char>) -> FState {
    if !ts::need_wrap(s.ts, seq![sep, t]) {
        f_raw(s, sep)
    } else {
        f_raw(f_wrap(s), wrap_sep)
    }
}

#[verifier::opaque]
pub open spec fn f_maybe_nl_indent(s: FState, sep: Seq<char>, wrap_sep: Seq<char>, t: Seq<char>) -> FState {
    if !ts::need_nl_indent(s.ts, seq![sep, t]) {
        f_raw(s, sep)
    } else {
        f_raw(f_nl_indent(s), wrap_sep)
    }
}

#[verifier::opaque]
pub open spec fn f_insert_sep(s: FState, sep: Seq<char>, nl: bool, t: Seq<char>) -> FState {
    let s1 = f_raw(s, sep);
    if !nl && !ts::need_wrap(s1.ts, seq![" "@, t]) {
        f_raw(s1, " "@)
    } else {
        f_wrap(s1)
    }
}

#[verifier::opaque]
pub open spec fn f_open_brace(s: FState) -> FState {
    let s1 = if s.block_non_sep {
        FState { block_non_sep: false, ..f_raw(s, "{"@) }
    } else {
        f_raw(s, " {"@)
    };
    f_nl(f_indent(s1))
}

#[verifier::opaque]
pub open spec fn f_open_body(s: FState) -> FState {
    f_nl(f_indent(f_raw(s, " {"@)))
}

#[verifier::opaque]
pub open spec fn f_close_brace(s: FState) -> FState {
    f_raw(f_insert_indent(f_outdent(s)), "}"@)
}

#[verifier::opaque]
pub open spec fn f_empty_braces(s: FState) -> FState {
    if s.block_non_sep {
        FState { block_non_sep: false, ..f_raw(s, "{}"@) }
    } else {
        f_raw(s, " {}"@)
    }
}

#[verifier::opaque]
pub open spec fn f_vis(s: FState, vis: Seq<char>) -> FState {
    if vis.len() > 0 {
        f_raw(f_raw(s, vis), " "@)
    } else {
        s
    }
}

impl Formatter {
    fn new(leading_cmnts: HashMap<Pos, Vec<String>>, trailing_cmnts: HashMap<Pos, String>) -> (f:
        Formatter)
        ensures
            f.ts.wf(),
            ts::consistent(f.ts@),
            f.ts@.text.len() == 0,
            f.ts@.indent.len() == 0,
            f.ts@.align.len() == 0,
            f.leading_cmnts@ == leading_cmnts@,
            f.trailing_cmnts@ == trailing_cmnts@,
            !f.after_indent,
            !f.after_wrap,
            !f.block_non_sep,
            f.fv() == f_start(leading_cmnts@, trailing_cmnts@),
    {
        Formatter {
            ts: Typesetter::new(),
            leading_cmnts,
            trailing_cmnts,
            after_indent: false,
            after_wrap: false,
            block_non_sep: false,
        }
    }

    // -----------------------------------------------------------------------
    // Writing, with the flags that keep a wrap from following a wrap or an
    // indentation
    // -----------------------------------------------------------------------

    fn clear_flag(&mut self)
        ensures
            *final(self) == (Formatter { after_indent: false, after_wrap: false, ..*old(self) }),
    {
        self.after_indent = false;
        self.after_wrap = false;
    }

    fn raw_insert(&mut self, s: &str)
        requires
            old(self).ts.wf(),
        ensures
            final(self).fv() == f_raw(old(self).fv(), s@),
            final(self).ts.wf(),
            final(self).ts@ == raw_insert_ne(old(self).ts@, s@),
            rest_same(*old(self), *final(self)),
            s@.len() > 0 ==> !final(self).after_indent && !final(self).after_wrap,
            s@.len() == 0 ==> final(self).after_indent == old(self).after_indent
                && final(self).after_wrap == old(self).after_wrap,
            keeps(*old(self), *final(self)),
    {
        proof {
            reveal(f_raw);
            reveal(f_insert);
            reveal(f_wrap);
            reveal(f_nl);
            reveal(f_nl_indent);
            reveal(f_indent);
            reveal(f_outdent);
            reveal(f_insert_indent);
        }
        if !s.is_empty() {
            self.ts.raw_insert(s);
            self.clear_flag();
        }
    }

    fn insert(&mut self, s: &str)
        requires
            old(self).ts.wf(),
        ensures
            final(self).fv() == f_insert(old(self).fv(), s@),
            final(self).ts.wf(),
            final(self).ts@ == insert_ne(old(self).ts@, s@),
            rest_same(*old(self), *final(self)),
            s@.len() > 0 ==> !final(self).after_indent && !final(self).after_wrap,
            s@.len() == 0 ==> final(self).after_indent == old(self).after_indent
                && final(self).after_wrap == old(self).after_wrap,
            keeps(*old(self), *final(self)),
    {
        proof {
            reveal(f_insert);
            reveal(f_raw);
            reveal(f_wrap);
            reveal(f_nl);
            reveal(f_nl_indent);
            reveal(f_indent);
            reveal(f_outdent);
            reveal(f_insert_indent);
        }
        if !s.is_empty() {
            self.ts.insert(s);
            self.clear_flag();
        }
    }

    fn wrap(&mut self)
        requires
            old(self).ts.wf(),
        ensures
            final(self).fv() == f_wrap(old(self).fv()),
            final(self).ts.wf(),
            final(self).ts@ == (if !old(self).after_indent && !old(self).after_wrap {
                ts::wrap(old(self).ts@)
            } else {
                old(self).ts@
            }),
            rest_same(*old(self), *final(self)),
            final(self).after_indent == old(self).after_indent,
            final(self).after_wrap == (old(self).after_wrap || !old(self).after_indent),
            keeps(*old(self), *final(self)),
    {
        proof {
            reveal(f_wrap);
            reveal(f_raw);
            reveal(f_insert);
            reveal(f_nl);
            reveal(f_nl_indent);
            reveal(f_indent);
            reveal(f_outdent);
            reveal(f_insert_indent);
        }
        if !self.after_indent && !self.after_wrap {
            self.ts.wrap();
            self.after_wrap = true;
        }
    }

    fn nl(&mut self)
        requires
            old(self).ts.wf(),
        ensures
            final(self).fv() == f_nl(old(self).fv()),
            final(self).ts.wf(),
            final(self).ts@ == ts::nl(old(self).ts@),
            rest_same(*old(self), *final(self)),
            !final(self).after_indent,
            !final(self).after_wrap,
            keeps(*old(self), *final(self)),
            at_line_start(final(self).ts@.text),
    {
        proof {
            reveal(f_nl);
            reveal(f_raw);
            reveal(f_insert);
            reveal(f_wrap);
            reveal(f_nl_indent);
            reveal(f_indent);
            reveal(f_outdent);
            reveal(f_insert_indent);
        }
        self.ts.nl();
        self.clear_flag();
    }

    fn nl_indent(&mut self)
        requires
            old(self).ts.wf(),
        ensures
            final(self).fv() == f_nl_indent(old(self).fv()),
            final(self).ts.wf(),
            final(self).ts@ == (if !old(self).after_indent {
                ts::nl_indent(old(self).ts@)
            } else {
                old(self).ts@
            }),
            rest_same(*old(self), *final(self)),
            final(self).after_indent,
            final(self).after_wrap == old(self).after_wrap,
            keeps(*old(self), *final(self)),
    {
        proof {
            reveal(f_nl_indent);
            reveal(f_raw);
            reveal(f_insert);
            reveal(f_wrap);
            reveal(f_nl);
            reveal(f_indent);
            reveal(f_outdent);
            reveal(f_insert_indent);
        }
        if !self.after_indent {
            self.ts.nl_indent();
            self.after_indent = true;
        }
    }

    fn indent(&mut self)
        requires
            old(self).ts.wf(),
        ensures
            final(self).fv() == f_indent(old(self).fv()),
            final(self).ts.wf(),
            final(self).ts@ == ts::indent(old(self).ts@),
            rest_same(*old(self), *final(self)),
            final(self).after_indent == old(self).after_indent,
            final(self).after_wrap == old(self).after_wrap,
    {
        proof {
            reveal(f_indent);
            reveal(f_raw);
            reveal(f_insert);
            reveal(f_wrap);
            reveal(f_nl);
            reveal(f_nl_indent);
            reveal(f_outdent);
            reveal(f_insert_indent);
        }
        self.ts.indent();
    }

    fn outdent(&mut self)
        requires
            old(self).ts.wf(),
            old(self).ts@.indent.len() >= ts::INDENT_LEN,
        ensures
            final(self).fv() == f_outdent(old(self).fv()),
            final(self).ts.wf(),
            final(self).ts@ == ts::outdent(old(self).ts@),
            rest_same(*old(self), *final(self)),
            final(self).after_indent == old(self).after_indent,
            final(self).after_wrap == old(self).after_wrap,
    {
        proof {
            reveal(f_outdent);
            reveal(f_raw);
            reveal(f_insert);
            reveal(f_wrap);
            reveal(f_nl);
            reveal(f_nl_indent);
            reveal(f_indent);
            reveal(f_insert_indent);
        }
        self.ts.outdent();
    }

    fn insert_indent(&mut self)
        requires
            old(self).ts.wf(),
        ensures
            final(self).fv() == f_insert_indent(old(self).fv()),
            final(self).ts.wf(),
            final(self).ts@ == ts::insert_indent(old(self).ts@),
            rest_same(*old(self), *final(self)),
            final(self).after_indent,
            final(self).after_wrap == old(self).after_wrap,
            keeps(*old(self), *final(self)),
    {
        proof {
            reveal(f_insert_indent);
            reveal(f_raw);
            reveal(f_insert);
            reveal(f_wrap);
            reveal(f_nl);
            reveal(f_nl_indent);
            reveal(f_indent);
            reveal(f_outdent);
        }
        self.ts.insert_indent();
        self.after_indent = true;
    }

    fn insert_mark_align(&mut self, s: &str)
        requires
            old(self).ts.wf(),
        ensures
            final(self).fv() == f_open_list(old(self).fv(), s@),
            final(self).ts.wf(),
            final(self).ts@ == ts::insert_mark_align(old(self).ts@, s@),
            rest_same(*old(self), *final(self)),
            !final(self).after_indent,
            !final(self).after_wrap,
    {
        proof {
            reveal(f_open_list);
            reveal(f_raw);
            reveal(f_insert);
            reveal(f_wrap);
            reveal(f_nl);
            reveal(f_nl_indent);
            reveal(f_indent);
            reveal(f_outdent);
            reveal(f_insert_indent);
        }
        self.ts.insert_mark_align(s);
        self.clear_flag();
    }

    fn insert_unmark_align(&mut self, s: &str)
        requires
            old(self).ts.wf(),
        ensures
            final(self).fv() == f_close_list(old(self).fv(), s@),
            final(self).ts.wf(),
            final(self).ts@ == ts::insert_unmark_align(old(self).ts@, s@),
            rest_same(*old(self), *final(self)),
            !final(self).after_indent,
            !final(self).after_wrap,
    {
        proof {
            reveal(f_close_list);
            reveal(f_raw);
            reveal(f_insert);
            reveal(f_wrap);
            reveal(f_nl);
            reveal(f_nl_indent);
            reveal(f_indent);
            reveal(f_outdent);
            reveal(f_insert_indent);
        }
        self.ts.insert_unmark_align(s);
        self.clear_flag();
    }

    // -----------------------------------------------------------------------
    // Comments
    // -----------------------------------------------------------------------

    fn has_leading_comments(&self, loc: &Loc) -> (b: bool)
        ensures
            b == self.leading_cmnts@.contains_key(loc.start),
    {
        self.leading_cmnts.contains_key(&loc.start)
    }

    /// Writes the comment lines that stand before `loc`, and takes them out of the map.
    fn fmt_leading_comments(&mut self, loc: &Loc)
        requires
            old(self).ts.wf(),
            old(self).leading_cmnts@.contains_key(loc.start),
        ensures
            final(self).fv() == f_leading(old(self).fv(), loc.start),
            final(self).ts.wf(),
            final(self).ts@ == st_leading(old(self).ts@, old(self).leading_cmnts@[loc.start]@),
            final(self).leading_cmnts@ == old(self).leading_cmnts@.remove(loc.start),
            final(self).trailing_cmnts@ == old(self).trailing_cmnts@,
            final(self).block_non_sep == old(self).block_non_sep,
            keeps(*old(self), *final(self)),
            at_line_start(old(self).ts@.text) ==> at_line_start(final(self).ts@.text),
    {
        proof {
            reveal(f_leading);
            reveal(f_raw);
            reveal(f_insert);
            reveal(f_wrap);
            reveal(f_nl);
            reveal(f_nl_indent);
            reveal(f_indent);
            reveal(f_outdent);
            reveal(f_insert_indent);
        }
        let cmnts = match self.leading_cmnts.remove(&loc.start) {
            Some(c) => c,
            None => {
                assert(false);
                Vec::new()
            },
        };
        let ghost s0 = *self;
        let ghost cs = cmnts@;
        let n = cmnts.len();
        let mut i: usize = 0;
        while i < n
            invariant
                n == cs.len(),
                cs == cmnts@,
                i <= n,
                self.ts.wf(),
                self.ts@ == st_leading(s0.ts@, cs.take(i as int)),
                self.leading_cmnts@ == s0.leading_cmnts@,
                self.trailing_cmnts@ == s0.trailing_cmnts@,
                self.block_non_sep == s0.block_non_sep,
                keeps(s0, *self),
                at_line_start(s0.ts@.text) ==> at_line_start(self.ts@.text),
                i > 0 ==> !self.after_indent && !self.after_wrap,
                i == 0 ==> self.after_indent == s0.after_indent && self.after_wrap == s0.after_wrap,
            decreases n - i,
        {
            let cmnt = cmnts[i].as_str();
            if !cmnt.is_empty() {
                self.insert_indent();
                self.raw_insert(cmnt);
            }
            self.nl();
            proof {
                assert(cs.take(i + 1).drop_last() =~= cs.take(i as int));
                assert(cs.take(i + 1).last() == cs[i as int]);
            }
            i = i + 1;
        }
        assert(cs.take(n as int) =~= cs);
    }

    fn try_fmt_leading_comments(&mut self, loc: &Loc)
        requires
            old(self).ts.wf(),
        ensures
            final(self).fv() == f_leading(old(self).fv(), loc.start),
            final(self).ts.wf(),
            final(self).ts@ == (if old(self).leading_cmnts@.contains_key(loc.start) {
                st_leading(old(self).ts@, old(self).leading_cmnts@[loc.start]@)
            } else {
                old(self).ts@
            }),
            final(self).leading_cmnts@ == old(self).leading_cmnts@.remove(loc.start),
            final(self).trailing_cmnts@ == old(self).trailing_cmnts@,
            final(self).block_non_sep == old(self).block_non_sep,
            keeps(*old(self), *final(self)),
            at_line_start(old(self).ts@.text) ==> at_line_start(final(self).ts@.text),
    {
        proof {
            reveal(f_leading);
            reveal(f_raw);
            reveal(f_insert);
            reveal(f_wrap);
            reveal(f_nl);
            reveal(f_nl_indent);
            reveal(f_indent);
            reveal(f_outdent);
            reveal(f_insert_indent);
        }
        if self.has_leading_comments(loc) {
            self.fmt_leading_comments(loc);
        } else {
            assert(self.leading_cmnts@.remove(loc.start) =~= self.leading_cmnts@);
        }
    }

    /// Writes the comments that are left after the crate, and empties the map.
    fn fmt_left_comments(&mut self, loc: &Loc)
        requires
            old(self).ts.wf(),
        ensures
            final(self).ts.wf(),
            final(self).leading_cmnts@.dom().is_empty(),
            final(self).trailing_cmnts@ == old(self).trailing_cmnts@,
            keeps(*old(self), *final(self)),
            at_line_start(old(self).ts@.text) ==> at_line_start(final(self).ts@.text),
            exists|order: Seq<Pos>|
                #![trigger order.to_set()]
                order.no_duplicates() && order.to_set() == old(self).leading_cmnts@.dom()
                    && final(self).ts@ == st_left(old(self).ts@, old(self).leading_cmnts@, order, loc.end),
    {
        let ghost s0 = *self;
        let ghost m0 = self.leading_cmnts@;
        let keys = self.leading_cmnts.keys();
        let ghost ks = vstd::std_specs::iter::IteratorSpec::remaining(&keys);
        let mut poses: Vec<Pos> = Vec::new();
        for pos in it: keys
            invariant
                it.seq() == ks,
                poses@ == it.seq().take(it.index()).unref(),
        {
            assert(it.seq().take(it.index() + 1).unref() =~= it.seq().take(it.index()).unref().push(*pos));
            poses.push(*pos);
        }
        assert(poses@ =~= ks.unref());
        assert(poses@.to_set() == m0.dom());
        assert(poses@.no_duplicates());
        let n = poses.len();
        let mut i: usize = 0;
        while i < n
            invariant
                i <= n,
                n == poses@.len(),
                poses@.no_duplicates(),
                poses@.to_set() == m0.dom(),
                self.ts.wf(),
                keeps(s0, *self),
                self.trailing_cmnts@ == s0.trailing_cmnts@,
                self.leading_cmnts@ == m0.remove_keys(poses@.take(i as int).to_set()),
                self.ts@ == st_left(s0.ts@, m0, poses@.take(i as int), loc.end),
                at_line_start(s0.ts@.text) ==> at_line_start(self.ts@.text),
            decreases n - i,
        {
            let pos = poses[i];
            proof {
                assert(poses@.to_set().contains(pos));
                assert(!poses@.take(i as int).to_set().contains(pos)) by {
                    if poses@.take(i as int).to_set().contains(pos) {
                        let k = choose|k: int| 0 <= k < i && poses@.take(i as int)[k] == pos;
                        assert(poses@[k] == poses@[i as int]);
                    }
                }
            }
            let cmnts = match self.leading_cmnts.remove(&pos) {
                Some(c) => c,
                None => {
                    assert(false);
                    Vec::new()
                },
            };
            let ghost s1 = *self;
            let m = cmnts.len();
            let mut k: usize = 0;
            while k < m
                invariant
                    k <= m,
                    m == cmnts@.len(),
                    self.ts.wf(),
                    keeps(s1, *self),
                    self.trailing_cmnts@ == s1.trailing_cmnts@,
                    self.leading_cmnts@ == s1.leading_cmnts@,
                    self.ts@ == st_left_lines(s1.ts@, cmnts@.take(k as int), pos, loc.end),
                    at_line_start(s0.ts@.text) ==> at_line_start(self.ts@.text),
                decreases m - k,
            {
                if pos > loc.end {
                    self.raw_insert(cmnts[k].as_str());
                    self.nl();
                }
                proof {
                    assert(cmnts@.take(k + 1).drop_last() =~= cmnts@.take(k as int));
                    assert(cmnts@.take(k + 1).last() == cmnts@[k as int]);
                }
                k = k + 1;
            }
            proof {
                assert(cmnts@.take(m as int) =~= cmnts@);
                assert(poses@.take(i + 1).drop_last() =~= poses@.take(i as int));
                assert(poses@.take(i + 1).last() == pos);
                assert(poses@.take(i + 1).to_set() =~= poses@.take(i as int).to_set().insert(pos));
                assert(self.leading_cmnts@ =~= m0.remove_keys(poses@.take(i + 1).to_set()));
            }
            i = i + 1;
        }
        proof {
            assert(poses@.take(n as int) =~= poses@);
            assert(self.leading_cmnts@.dom() =~= Set::empty());
        }
    }

    fn has_trailing_comment(&self, loc: &Loc) -> (b: bool)
        ensures
            b == self.trailing_cmnts@.contains_key(loc.end),
    {
        self.trailing_cmnts.contains_key(&loc.end)
    }

    /// Writes the comment that follows `loc` on its line, and takes it out of the map.
    fn fmt_trailing_comment(&mut self, loc: &Loc)
        requires
            old(self).ts.wf(),
            old(self).trailing_cmnts@.contains_key(loc.end),
        ensures
            final(self).fv() == f_trailing(old(self).fv(), loc.end),
            final(self).ts.wf(),
            final(self).ts@ == raw_insert_ne(
                ts::raw_insert(old(self).ts@, " "@),
                old(self).trailing_cmnts@[loc.end]@,
            ),
            final(self).trailing_cmnts@ == old(self).trailing_cmnts@.remove(loc.end),
            final(self).leading_cmnts@ == old(self).leading_cmnts@,
            final(self).block_non_sep == old(self).block_non_sep,
            keeps(*old(self), *final(self)),
    {
        proof {
            reveal(f_trailing);
            reveal(f_raw);
            reveal(f_insert);
            reveal(f_wrap);
            reveal(f_nl);
            reveal(f_nl_indent);
            reveal(f_indent);
            reveal(f_outdent);
            reveal(f_insert_indent);
        }
        proof {
            reveal_strlit(" ");
        }
        self.raw_insert(" ");
        let cmnt = match self.trailing_cmnts.remove(&loc.end) {
            Some(c) => c,
            None => {
                assert(false);
                String::new()
            },
        };
        self.raw_insert(cmnt.as_str());
    }

    fn try_fmt_trailing_comment(&mut self, loc: &Loc)
        requires
            old(self).ts.wf(),
        ensures
            final(self).fv() == f_trailing(old(self).fv(), loc.end),
            final(self).ts.wf(),
            final(self).ts@ == (if old(self).trailing_cmnts@.contains_key(loc.end) {
                raw_insert_ne(
                    ts::raw_insert(old(self).ts@, " "@),
                    old(self).trailing_cmnts@[loc.end]@,
                )
            } else {
                old(self).ts@
            }),
            final(self).trailing_cmnts@ == old(self).trailing_cmnts@.remove(loc.end),
            final(self).leading_cmnts@ == old(self).leading_cmnts@,
            final(self).block_non_sep == old(self).block_non_sep,
            keeps(*old(self), *final(self)),
    {
        proof {
            reveal(f_trailing);
            reveal(f_raw);
            reveal(f_insert);
            reveal(f_wrap);
            reveal(f_nl);
            reveal(f_nl_indent);
            reveal(f_indent);
            reveal(f_outdent);
            reveal(f_insert_indent);
        }
        if self.has_trailing_comment(loc) {
            self.fmt_trailing_comment(loc);
        } else {
            assert(self.trailing_cmnts@.remove(loc.end) =~= self.trailing_cmnts@);
        }
    }
}

/// `b` is `a` with one more alignment column pushed.
spec fn opened(a: Formatter, b: Formatter) -> bool {
    &&& b.ts.wf()
    &&& b.ts@.indent == a.ts@.indent
    &&& b.ts@.align.len() == a.ts@.align.len() + 1
    &&& b.ts@.align.drop_last() == a.ts@.align
    &&& grows(a.ts@.text, b.ts@.text)
    &&& consumed(a.leading_cmnts@, b.leading_cmnts@)
    &&& consumed(a.trailing_cmnts@, b.trailing_cmnts@)
}

/// `b` is `a` inside one more level of indentation.
spec fn entered(a: Formatter, b: Formatter) -> bool {
    &&& b.ts.wf()
    &&& b.ts@.indent == ts::spaces(a.ts@.indent.len() + (ts::INDENT_LEN as nat))
    &&& a.ts@.indent == ts::spaces(a.ts@.indent.len())
    &&& b.ts@.align == a.ts@.align
    &&& grows(a.ts@.text, b.ts@.text)
    &&& consumed(a.leading_cmnts@, b.leading_cmnts@)
    &&& consumed(a.trailing_cmnts@, b.trailing_cmnts@)
}

impl Formatter {
    // -----------------------------------------------------------------------
    // Layout decisions
    // -----------------------------------------------------------------------

    /// Whether `a` then `b`, written from here, call for a wrap first.
    fn need_wrap2(&self, a: &str, b: &str) -> (r: bool)
        ensures
            r == ts::need_wrap(self.ts@, seq![a@, b@]),
    {
        let list = [a, b];
        assert(ts::strs_view(list@) =~= seq![a@, b@]);
        self.ts.need_wrap(&list)
    }

    /// Whether `a` then `b`, written from here, call for a new indented line first.
    fn need_nl_indent2(&self, a: &str, b: &str) -> (r: bool)
        ensures
            r == ts::need_nl_indent(self.ts@, seq![a@, b@]),
    {
        let list = [a, b];
        assert(ts::strs_view(list@) =~= seq![a@, b@]);
        self.ts.need_nl_indent(&list)
    }

    /// A wrap where the node started on a new line in the source.
    fn maybe_nl(&mut self, loc: &Loc)
        requires
            old(self).ts.wf(),
        ensures
            final(self).fv() == f_maybe_nl(old(self).fv(), *loc),
            keeps(*old(self), *final(self)),
            rest_same(*old(self), *final(self)),
    {
        proof {
            reveal(f_maybe_nl);
            reveal(f_raw);
            reveal(f_insert);
            reveal(f_wrap);
            reveal(f_nl);
            reveal(f_nl_indent);
            reveal(f_indent);
            reveal(f_outdent);
            reveal(f_insert_indent);
        }
        if loc.nl {
            self.wrap();
        }
    }

    /// Writes `sep` before the text `s`, or wraps and writes `wrap_sep` where
    /// `sep` and `s` do not fit on the line.
    fn maybe_wrap(&mut self, sep: &str, wrap_sep: &str, s: &str)
        requires
            old(self).ts.wf(),
        ensures
            final(self).fv() == f_maybe_wrap(old(self).fv(), sep@, wrap_sep@, s@),
            keeps(*old(self), *final(self)),
            rest_same(*old(self), *final(self)),
    {
        proof {
            reveal(f_maybe_wrap);
            reveal(f_raw);
            reveal(f_insert);
            reveal(f_wrap);
            reveal(f_nl);
            reveal(f_nl_indent);
            reveal(f_indent);
            reveal(f_outdent);
            reveal(f_insert_indent);
        }
        if !self.need_wrap2(sep, s) {
            self.raw_insert(sep);
        } else {
            self.wrap();
            self.raw_insert(wrap_sep);
        }
    }

    /// Writes `sep` before the text `s`, or starts a new indented line and
    /// writes `wrap_sep` where `sep` and `s` do not fit on the line.
    fn maybe_nl_indent(&mut self, sep: &str, wrap_sep: &str, s: &str)
        requires
            old(self).ts.wf(),
        ensures
            final(self).fv() == f_maybe_nl_indent(old(self).fv(), sep@, wrap_sep@, s@),
            keeps(*old(self), *final(self)),
            rest_same(*old(self), *final(self)),
    {
        proof {
            reveal(f_maybe_nl_indent);
            reveal(f_raw);
            reveal(f_insert);
            reveal(f_wrap);
            reveal(f_nl);
            reveal(f_nl_indent);
            reveal(f_indent);
            reveal(f_outdent);
            reveal(f_insert_indent);
        }
        if !self.need_nl_indent2(sep, s) {
            self.raw_insert(sep);
        } else {
            self.nl_indent();
            self.raw_insert(wrap_sep);
        }
    }

    /// Writes the separator `sep` before a node whose text is `s`, then a
    /// space, or a wrap where the node started on a new line or does not fit.
    fn insert_sep(&mut self, sep: &str, nl: bool, s: &str)
        requires
            old(self).ts.wf(),
        ensures
            final(self).fv() == f_insert_sep(old(self).fv(), sep@, nl, s@),
            keeps(*old(self), *final(self)),
            rest_same(*old(self), *final(self)),
    {
        proof {
            reveal(f_insert_sep);
            reveal(f_raw);
            reveal(f_insert);
            reveal(f_wrap);
            reveal(f_nl);
            reveal(f_nl_indent);
            reveal(f_indent);
            reveal(f_outdent);
            reveal(f_insert_indent);
        }
        self.raw_insert(sep);
        if !nl && !self.need_wrap2(" ", s) {
            self.raw_insert(" ");
        } else {
            self.wrap();
        }
    }

    /// Writes `s` and pushes an alignment column.
    fn open_list(&mut self, s: &str)
        requires
            old(self).ts.wf(),
        ensures
            final(self).fv() == f_open_list(old(self).fv(), s@),
            opened(*old(self), *final(self)),
            rest_same(*old(self), *final(self)),
    {
        proof {
            reveal(f_open_list);
            reveal(f_raw);
            reveal(f_insert);
            reveal(f_wrap);
            reveal(f_nl);
            reveal(f_nl_indent);
            reveal(f_indent);
            reveal(f_outdent);
            reveal(f_insert_indent);
        }
        self.insert_mark_align(s);
        assert(self.ts@.align.drop_last() =~= old(self).ts@.align);
    }

    /// Writes `s` and pops the alignment column.
    fn close_list(&mut self, s: &str)
        requires
            old(self).ts.wf(),
            old(self).ts@.align.len() > 0,
        ensures
            final(self).fv() == f_close_list(old(self).fv(), s@),
            final(self).ts.wf(),
            final(self).ts@.indent == old(self).ts@.indent,
            final(self).ts@.align == old(self).ts@.align.drop_last(),
            grows(old(self).ts@.text, final(self).ts@.text),
            rest_same(*old(self), *final(self)),
    {
        proof {
            reveal(f_close_list);
            reveal(f_raw);
            reveal(f_insert);
            reveal(f_wrap);
            reveal(f_nl);
            reveal(f_nl_indent);
            reveal(f_indent);
            reveal(f_outdent);
            reveal(f_insert_indent);
        }
        self.insert_unmark_align(s);
    }

    /// Writes ` {` (or `{` right after a label or an `else`), opens a level of
    /// indentation and ends the line.
    fn open_brace(&mut self)
        requires
            old(self).ts.wf(),
        ensures
            final(self).fv() == f_open_brace(old(self).fv()),
            entered(*old(self), *final(self)),
            !final(self).block_non_sep,
            final(self).leading_cmnts@ == old(self).leading_cmnts@,
            final(self).trailing_cmnts@ == old(self).trailing_cmnts@,
    {
        proof {
            reveal(f_open_brace);
            reveal(f_raw);
            reveal(f_insert);
            reveal(f_wrap);
            reveal(f_nl);
            reveal(f_nl_indent);
            reveal(f_indent);
            reveal(f_outdent);
            reveal(f_insert_indent);
        }
        proof {
            self.ts.lemma_wf_indent();
        }
        if self.block_non_sep {
            self.raw_insert("{");
            self.block_non_sep = false;
        } else {
            self.raw_insert(" {");
        }
        self.indent();
        self.nl();
        assert(self.ts@.indent =~= ts::spaces(old(self).ts@.indent.len() + (ts::INDENT_LEN as nat)));
    }

    /// Closes the level of indentation and writes `}` on its own line.
    fn close_brace(&mut self)
        requires
            old(self).ts.wf(),
            old(self).ts@.indent.len() >= ts::INDENT_LEN,
        ensures
            final(self).fv() == f_close_brace(old(self).fv()),
            final(self).ts.wf(),
            final(self).ts@.indent == ts::spaces((old(self).ts@.indent.len() - ts::INDENT_LEN) as nat),
            final(self).ts@.align == old(self).ts@.align,
            grows(old(self).ts@.text, final(self).ts@.text),
            rest_same(*old(self), *final(self)),
    {
        proof {
            reveal(f_close_brace);
            reveal(f_raw);
            reveal(f_insert);
            reveal(f_wrap);
            reveal(f_nl);
            reveal(f_nl_indent);
            reveal(f_indent);
            reveal(f_outdent);
            reveal(f_insert_indent);
        }
        self.outdent();
        self.insert_indent();
        self.raw_insert("}");
    }

    /// Writes the braces of an empty body.
    fn empty_braces(&mut self)
        requires
            old(self).ts.wf(),
        ensures
            final(self).fv() == f_empty_braces(old(self).fv()),
            keeps(*old(self), *final(self)),
            !final(self).block_non_sep,
    {
        proof {
            reveal(f_empty_braces);
            reveal(f_raw);
            reveal(f_insert);
            reveal(f_wrap);
            reveal(f_nl);
            reveal(f_nl_indent);
            reveal(f_indent);
            reveal(f_outdent);
            reveal(f_insert_indent);
        }
        if self.block_non_sep {
            self.raw_insert("{}");
            self.block_non_sep = false;
        } else {
            self.raw_insert(" {}");
        }
    }

    // -----------------------------------------------------------------------
    // Chunks and attributes
    // -----------------------------------------------------------------------

    fn fmt_chunk(&mut self, chunk: &Chunk)
        requires
            old(self).ts.wf(),
        ensures
            final(self).fv() == l_chunk(old(self).fv(), *chunk),
            keeps(*old(self), *final(self)),
    {
        self.maybe_nl(&chunk.loc);
        self.insert(chunk.s.as_str());
    }

    /// Writes the attributes, one per line: a doc comment stays where it is,
    /// and the attributes between doc comments and leading comments are
    /// sorted by their text, each text once.
    fn fmt_attrs(&mut self, attrs: &Vec<AttrKind>)
        requires
            old(self).ts.wf(),
        ensures
            final(self).fv() == l_attrs(old(self).fv(), attrs@),
            keeps(*old(self), *final(self)),
            at_line_start(old(self).ts@.text) ==> at_line_start(final(self).ts@.text),
    {
        let ghost s0 = *self;
        let mut group: Vec<usize> = Vec::new();
        let n = attrs.len();
        let mut i: usize = 0;
        while i < n
            invariant
                i <= n,
                n == attrs@.len(),
                keeps(s0, *self),
                at_line_start(s0.ts@.text) ==> at_line_start(self.ts@.text),
                (self.fv(), group@) == l_attrs_scan(s0.fv(), attrs@, i as int),
                forall|k: int| 0 <= k < group@.len() ==> #[trigger] group@[k] < i && attrs@[group@[k] as int] is Attr,
            decreases n - i,
        {
            match &attrs[i] {
                AttrKind::Doc(doc) => {
                    self.fmt_attr_group(attrs, &group);
                    group = Vec::new();
                    self.fmt_doc(doc);
                },
                AttrKind::Attr(attr) => {
                    if self.has_leading_comments(&attr.loc) {
                        self.fmt_attr_group(attrs, &group);
                        group = Vec::new();
                        self.fmt_leading_comments(&attr.loc);
                    }
                    group.push(i);
                },
            }
            i = i + 1;
        }
        self.fmt_attr_group(attrs, &group);
    }

    fn fmt_doc(&mut self, doc: &Chunk)
        requires
            old(self).ts.wf(),
        ensures
            final(self).fv() == l_doc(old(self).fv(), *doc),
            keeps(*old(self), *final(self)),
            at_line_start(final(self).ts@.text),
    {
        self.try_fmt_leading_comments(&doc.loc);
        self.insert_indent();
        self.raw_insert(doc.s.as_str());
        self.try_fmt_trailing_comment(&doc.loc);
        self.nl();
    }

    /// Writes the attributes at the positions `group`, in ascending order of
    /// their text; of attributes with the same text, only the last one.
    fn fmt_attr_group(&mut self, attrs: &Vec<AttrKind>, group: &Vec<usize>)
        requires
            old(self).ts.wf(),
            forall|k: int| 0 <= k < group@.len() ==> #[trigger] group@[k] < attrs@.len() && attrs@[group@[k] as int] is Attr,
        ensures
            final(self).fv() == l_attr_group(old(self).fv(), attrs@, group@),
            keeps(*old(self), *final(self)),
            final(self).leading_cmnts@ == old(self).leading_cmnts@,
            at_line_start(old(self).ts@.text) ==> at_line_start(final(self).ts@.text),
    {
        let ghost s0 = *self;
        let mut keys: Vec<String> = Vec::new();
        let n = group.len();
        let mut i: usize = 0;
        while i < n
            invariant
                i <= n,
                n == group@.len(),
                keys@.len() == i,
                forall|k: int| 0 <= k < group@.len() ==> #[trigger] group@[k] < attrs@.len() && attrs@[group@[k] as int] is Attr,
                forall|k: int| 0 <= k < i ==> #[trigger] keys@[k]@ == s_attr(attr_at(attrs@, group@[k] as int)),
            decreases n - i,
        {
            assert(group@[i as int] < attrs@.len());
            match &attrs[group[i]] {
                AttrKind::Attr(a) => keys.push(display_attr(a)),
                AttrKind::Doc(_) => {
                    assert(false);
                },
            }
            i = i + 1;
        }
        let order = sort_last_unique(&keys);
        proof {
            assert(strings_view(keys@) =~= attr_keys(attrs@, group@));
        }
        let m = order.len();
        let mut j: usize = 0;
        while j < m
            invariant
                j <= m,
                m == order@.len(),
                n == group@.len(),
                keys@.len() == n,
                order@ == sort_steps(attr_keys(attrs@, group@), n as int),
                forall|k: int| 0 <= k < m ==> #[trigger] order@[k] < n,
                forall|k: int| 0 <= k < group@.len() ==> #[trigger] group@[k] < attrs@.len() && attrs@[group@[k] as int] is Attr,
                keeps(s0, *self),
                self.leading_cmnts@ == s0.leading_cmnts@,
                at_line_start(s0.ts@.text) ==> at_line_start(self.ts@.text),
                self.fv() == l_attr_group_fold(s0.fv(), attrs@, group@, order@, j as int),
            decreases m - j,
        {
            assert(order@[j as int] < n);
            let gi = group[order[j]];
            match &attrs[gi] {
                AttrKind::Attr(attr) => {
                    self.insert_indent();
                    self.fmt_attr(attr);
                    self.try_fmt_trailing_comment(&attr.loc);
                    self.nl();
                },
                AttrKind::Doc(_) => {
                    assert(false);
                },
            }
            j = j + 1;
        }
    }

    fn fmt_attr(&mut self, attr: &Attr)
        requires
            old(self).ts.wf(),
        ensures
            final(self).fv() == l_attr(old(self).fv(), *attr),
            keeps(*old(self), *final(self)),
            rest_same(*old(self), *final(self)),
    {
        self.raw_insert("#");
        if attr.is_inner {
            self.raw_insert("!");
        }
        self.raw_insert("[");
        self.fmt_meta_item(&attr.item);
        self.raw_insert("]");
    }

    fn fmt_meta_items(&mut self, items: &Vec<MetaItem>)
        requires
            old(self).ts.wf(),
        ensures
            final(self).fv() == l_meta_items(old(self).fv(), items@),
            keeps(*old(self), *final(self)),
            rest_same(*old(self), *final(self)),
        decreases items, 0nat,
    {
        self.open_list("(");
        let ghost s1 = *self;
        let n = items.len();
        let mut i: usize = 0;
        while i < n
            invariant
                i <= n,
                n == items@.len(),
                keeps(s1, *self),
                rest_same(s1, *self),
                self.fv() == l_meta_fold(s1.fv(), items@, i as int),
            decreases n - i,
        {
            if i > 0 {
                let s = display_meta_item(&items[i]);
                self.insert_sep(",", items[i].loc.nl, s.as_str());
            }
            self.fmt_meta_item(&items[i]);
            i = i + 1;
        }
        self.close_list(")");
    }

    fn fmt_meta_item(&mut self, item: &MetaItem)
        requires
            old(self).ts.wf(),
        ensures
            final(self).fv() == l_meta_item(old(self).fv(), *item),
            keeps(*old(self), *final(self)),
            rest_same(*old(self), *final(self)),
        decreases item, 0nat,
    {
        self.maybe_nl(&item.loc);
        self.insert(item.name.as_str());
        if let Some(items) = &item.items {
            self.fmt_meta_items(items);
        }
    }
}

/// `a` followed by `b`.
fn cat(a: &str, b: &str) -> (r: String)
    ensures
        r@ == a@ + b@,
{
    let mut r = String::new();
    r.append(a);
    r.append(b);
    r
}

/// `a`, `b` and `c` in a row.
fn cat3(a: &str, b: &str, c: &str) -> (r: String)
    ensures
        r@ == a@ + b@ + c@,
{
    let mut r = String::new();
    r.append(a);
    r.append(b);
    r.append(c);
    r
}

/// Which declarations a group of items holds.
#[derive(Clone, Copy)]
pub enum GroupKind {
    ExternCrate,
    Use,
    ModDecl,
}

/// Keys of a group: an item has a key exactly when it is a declaration of
/// the group's kind, and two declarations have the same key exactly when
/// they read the same: `mod` and `extern crate` declarations when their
/// names agree, `use` declarations when their texts agree. So declarations
/// that read differently are all kept.
pub proof fn law_group_key(a: Item, b: Item, kind: GroupKind)
    ensures
        (group_key_text(a, kind) is Some) == match (kind, a.item) {
            (GroupKind::ExternCrate, ItemKind::ExternCrate(_)) => true,
            (GroupKind::Use, ItemKind::Use(_)) => true,
            (GroupKind::ModDecl, ItemKind::ModDecl(_)) => true,
            _ => false,
        },
        match (kind, a.item, b.item) {
            (GroupKind::ModDecl, ItemKind::ModDecl(x), ItemKind::ModDecl(y)) =>
                (group_key_text(a, kind) == group_key_text(b, kind)) == (x.name@ == y.name@),
            (GroupKind::ExternCrate, ItemKind::ExternCrate(x), ItemKind::ExternCrate(y)) =>
                (group_key_text(a, kind) == group_key_text(b, kind)) == (x.name@ == y.name@),
            (GroupKind::Use, ItemKind::Use(x), ItemKind::Use(y)) =>
                (group_key_text(a, kind) == group_key_text(b, kind)) == (crate::display::s_use(x)
                    == crate::display::s_use(y)),
            _ => true,
        },
{
    reveal_strlit("mod ");
    reveal_strlit("extern crate ");
    match (kind, a.item, b.item) {
        (GroupKind::ModDecl, ItemKind::ModDecl(x), ItemKind::ModDecl(y)) => {
            let p = "mod "@;
            assert((p + x.name@).skip(4) =~= x.name@);
            assert((p + y.name@).skip(4) =~= y.name@);
        },
        (GroupKind::ExternCrate, ItemKind::ExternCrate(x), ItemKind::ExternCrate(y)) => {
            let p = "extern crate "@;
            assert((p + x.name@).skip(13) =~= x.name@);
            assert((p + y.name@).skip(13) =~= y.name@);
        },
        _ => {},
    }
}

/// A cast is laid out as its operand, then ` as ` (or, where the line is
/// full, a line break and `as `), then its type: the type is laid out from a
/// state whose text is the operand's text followed by a space, nothing, or a
/// new line, and then `as `.
pub proof fn law_cast_writes_as(s: FState, c: CastExpr)
    ensures
        exists|x: FState, w: Seq<char>|
            #![trigger l_type(x, c.ty), w.len()]
            {
                &&& l_cast_expr(s, c) == l_type(x, c.ty)
                &&& (w == seq![' '] || w.len() == 0 || w[0] == ts::NL)
                &&& x.ts.text == l_expr(s, c.expr).ts.text + w + seq!['a', 's', ' ']
            },
{
    reveal(f_maybe_wrap);
    reveal(f_raw);
    reveal(f_wrap);
    reveal_strlit(" as ");
    reveal_strlit("as ");
    let s1 = l_expr(s, c.expr);
    let x = f_maybe_wrap(s1, " as "@, "as "@, crate::display::s_type(c.ty));
    let t1 = s1.ts.text;
    if !ts::need_wrap(s1.ts, seq![" as "@, crate::display::s_type(c.ty)]) {
        let w = seq![' '];
        assert(x.ts.text =~= t1 + w + seq!['a', 's', ' ']);
        assert(l_type(x, c.ty) == l_cast_expr(s, c));
        assert(w.len() == 1);
    } else if s1.after_indent || s1.after_wrap {
        let w = Seq::<char>::empty();
        assert(x.ts.text =~= t1 + w + seq!['a', 's', ' ']);
        assert(l_type(x, c.ty) == l_cast_expr(s, c));
        assert(w.len() == 0);
    } else {
        let s2 = ts::wrap(s1.ts);
        let w = s2.text.skip(t1.len() as int);
        assert(s2.text =~= t1 + w);
        assert(w[0] == ts::NL);
        assert(x.ts.text =~= t1 + w + seq!['a', 's', ' ']);
        assert(l_type(x, c.ty) == l_cast_expr(s, c));
        assert(w.len() > 0);
    }
}

/// The text of the declaration by which an item of the group is sorted.
fn group_key(item: &Item, kind: GroupKind) -> (r: Option<String>)
    ensures
        match r {
            Some(k) => group_key_text(*item, kind) == Some(k@),
            None => group_key_text(*item, kind) is None,
        },
{
    match (kind, &item.item) {
        (GroupKind::ExternCrate, ItemKind::ExternCrate(e)) => Some(display_extern_crate(e)),
        (GroupKind::Use, ItemKind::Use(u)) => Some(display_use(u)),
        (GroupKind::ModDecl, ItemKind::ModDecl(m)) => Some(display_mod_decl(m)),
        _ => None,
    }
}

impl Formatter {
    // -----------------------------------------------------------------------
    // Declarations that are gathered at the head of a module
    // -----------------------------------------------------------------------

    /// Writes the `extern crate` items, then the `use` items, then the `mod`
    /// declarations, each kind in groups that end at another item or at a
    /// leading comment, each group sorted by text.
    fn fmt_group_items(&mut self, items: &Vec<Item>)
        requires
            old(self).ts.wf(),
        ensures
            final(self).fv() == l_group_items(old(self).fv(), items@),
            keeps(*old(self), *final(self)),
            at_line_start(old(self).ts@.text) ==> at_line_start(final(self).ts@.text),
    {
        proof {
            reveal(l_group_items);
        }
        self.fmt_item_groups(items, GroupKind::ExternCrate);
        self.fmt_item_groups(items, GroupKind::Use);
        self.fmt_item_groups(items, GroupKind::ModDecl);
    }

    fn fmt_item_groups(&mut self, items: &Vec<Item>, kind: GroupKind)
        requires
            old(self).ts.wf(),
        ensures
            final(self).fv() == l_item_groups(old(self).fv(), items@, kind),
            keeps(*old(self), *final(self)),
            at_line_start(old(self).ts@.text) ==> at_line_start(final(self).ts@.text),
    {
        let ghost s0 = *self;
        let mut group: Vec<usize> = Vec::new();
        let n = items.len();
        let mut i: usize = 0;
        while i < n
            invariant
                i <= n,
                n == items@.len(),
                forall|k: int| 0 <= k < group@.len() ==> #[trigger] group@[k] < i,
                keeps(s0, *self),
                at_line_start(s0.ts@.text) ==> at_line_start(self.ts@.text),
                (self.fv(), group@) == l_item_groups_scan(s0.fv(), items@, kind, i as int),
            decreases n - i,
        {
            let key = group_key(&items[i], kind);
            if key.is_some() {
                if self.has_leading_comments(&items[i].loc) {
                    self.fmt_item_group(items, &group, kind);
                    group = Vec::new();
                    self.try_fmt_leading_comments(&items[i].loc);
                }
                group.push(i);
            } else {
                self.fmt_item_group(items, &group, kind);
                group = Vec::new();
            }
            i = i + 1;
        }
        self.fmt_item_group(items, &group, kind);
    }

    /// Writes the items at the positions `group`, in ascending order of their
    /// declaration's text; of items with the same text, only the last one.
    fn fmt_item_group(&mut self, items: &Vec<Item>, group: &Vec<usize>, kind: GroupKind)
        requires
            old(self).ts.wf(),
            forall|k: int| 0 <= k < group@.len() ==> #[trigger] group@[k] < items@.len(),
        ensures
            final(self).fv() == l_item_group(old(self).fv(), items@, group@, kind),
            keeps(*old(self), *final(self)),
            at_line_start(old(self).ts@.text) ==> at_line_start(final(self).ts@.text),
    {
        let ghost s0 = *self;
        let mut keys: Vec<String> = Vec::new();
        let n = group.len();
        let mut i: usize = 0;
        while i < n
            invariant
                i <= n,
                n == group@.len(),
                keys@.len() == i,
                forall|k: int| 0 <= k < group@.len() ==> #[trigger] group@[k] < items@.len(),
                forall|k: int| 0 <= k < i ==> #[trigger] keys@[k]@ == group_keys(items@, group@, kind)[k],
            decreases n - i,
        {
            let key = match group_key(&items[group[i]], kind) {
                Some(k) => k,
                None => String::new(),
            };
            keys.push(key);
            i = i + 1;
        }
        let order = sort_last_unique(&keys);
        proof {
            assert(strings_view(keys@) =~= group_keys(items@, group@, kind));
        }
        let m = order.len();
        let mut j: usize = 0;
        while j < m
            invariant
                j <= m,
                m == order@.len(),
                n == group@.len(),
                keys@.len() == n,
                order@ == sort_steps(group_keys(items@, group@, kind), n as int),
                forall|k: int| 0 <= k < m ==> #[trigger] order@[k] < n,
                forall|k: int| 0 <= k < group@.len() ==> #[trigger] group@[k] < items@.len(),
                keeps(s0, *self),
                at_line_start(s0.ts@.text) ==> at_line_start(self.ts@.text),
                self.fv() == l_item_group_fold(s0.fv(), items@, group@, order@, j as int),
            decreases m - j,
        {
            assert(order@[j as int] < n);
            let item = &items[group[order[j]]];
            self.fmt_attrs(&item.attrs);
            self.insert_indent();
            self.fmt_vis(&item.vis);
            self.fmt_group_body(item);
            self.try_fmt_trailing_comment(&item.loc);
            self.nl();
            j = j + 1;
        }
    }

    fn fmt_group_body(&mut self, item: &Item)
        requires
            old(self).ts.wf(),
        ensures
            final(self).fv() == l_group_body(old(self).fv(), *item),
            keeps(*old(self), *final(self)),
    {
        match &item.item {
            ItemKind::ExternCrate(e) => self.fmt_extern_crate(e),
            ItemKind::Use(u) => self.fmt_use(u),
            ItemKind::ModDecl(d) => self.fmt_mod_decl(d),
            _ => {},
        }
    }

    /// Writes the visibility and a space, where there is one.
    fn fmt_vis(&mut self, vis: &String)
        requires
            old(self).ts.wf(),
        ensures
            final(self).fv() == f_vis(old(self).fv(), vis@),
            keeps(*old(self), *final(self)),
            rest_same(*old(self), *final(self)),
    {
        proof {
            reveal(f_vis);
            reveal(f_raw);
            reveal(f_insert);
            reveal(f_wrap);
            reveal(f_nl);
            reveal(f_nl_indent);
            reveal(f_indent);
            reveal(f_outdent);
            reveal(f_insert_indent);
        }
        if !vis.as_str().is_empty() {
            self.raw_insert(vis.as_str());
            self.raw_insert(" ");
        }
    }

    fn fmt_extern_crate(&mut self, item: &ExternCrate)
        requires
            old(self).ts.wf(),
        ensures
            final(self).fv() == l_extern_crate(old(self).fv(), *item),
            rest_same(*old(self), *final(self)),
            keeps(*old(self), *final(self)),
    {
        let s = cat3("extern crate ", item.name.as_str(), ";");
        proof {
            reveal_strlit("extern crate ");
            reveal_strlit(";");
            assert(s@ =~= s_extern_crate(*item) + ";"@);
        }
        self.insert(s.as_str());
    }

    fn fmt_mod_decl(&mut self, item: &ModDecl)
        requires
            old(self).ts.wf(),
        ensures
            final(self).fv() == l_mod_decl(old(self).fv(), *item),
            rest_same(*old(self), *final(self)),
            keeps(*old(self), *final(self)),
    {
        let s = cat3("mod ", item.name.as_str(), ";");
        proof {
            reveal_strlit("mod ");
            reveal_strlit(";");
            assert(s@ =~= s_mod_decl(*item) + ";"@);
        }
        self.insert(s.as_str());
    }

    fn fmt_use(&mut self, item: &Use)
        requires
            old(self).ts.wf(),
        ensures
            final(self).fv() == l_use(old(self).fv(), *item),
            keeps(*old(self), *final(self)),
            rest_same(*old(self), *final(self)),
    {
        let s = cat("use ", item.path.as_str());
        self.insert(s.as_str());
        self.fmt_use_trees(&item.trees);
        self.raw_insert(";");
    }

    fn fmt_use_trees(&mut self, trees: &Option<Vec<UseTree>>)
        requires
            old(self).ts.wf(),
        ensures
            final(self).fv() == l_use_trees(old(self).fv(), *trees),
            keeps(*old(self), *final(self)),
            rest_same(*old(self), *final(self)),
        decreases trees, 0nat,
    {
        if let Some(v) = trees {
            let n = v.len();
            if n == 1 {
                self.insert("::");
                self.fmt_use_tree(&v[0]);
            } else if n > 1 {
                self.insert("::");
                self.fmt_use_tree_list(v);
            }
        }
    }

    fn fmt_use_tree_list(&mut self, trees: &Vec<UseTree>)
        requires
            old(self).ts.wf(),
        ensures
            final(self).fv() == l_use_tree_list(old(self).fv(), trees@),
            keeps(*old(self), *final(self)),
            rest_same(*old(self), *final(self)),
        decreases trees, 0nat,
    {
        self.open_list("{");
        let ghost s1 = *self;
        let n = trees.len();
        let mut i: usize = 0;
        while i < n
            invariant
                i <= n,
                n == trees@.len(),
                keeps(s1, *self),
                rest_same(s1, *self),
                self.fv() == l_use_fold(s1.fv(), trees@, i as int),
            decreases n - i,
        {
            if i > 0 {
                let s = display_use_tree(&trees[i]);
                self.insert_sep(",", trees[i].loc.nl, s.as_str());
            }
            self.fmt_use_tree(&trees[i]);
            i = i + 1;
        }
        self.close_list("}");
    }

    fn fmt_use_tree(&mut self, tree: &UseTree)
        requires
            old(self).ts.wf(),
        ensures
            final(self).fv() == l_use_tree(old(self).fv(), *tree),
            keeps(*old(self), *final(self)),
            rest_same(*old(self), *final(self)),
        decreases tree, 0nat,
    {
        self.maybe_nl(&tree.loc);
        self.insert(tree.path.as_str());
        self.fmt_use_trees(&tree.trees);
    }

    // -----------------------------------------------------------------------
    // Small steps outside the recursion over the tree
    // -----------------------------------------------------------------------

    /// `async`, then the function head and the name.
    fn fmt_fn_head(&mut self, header: &FnHeader, name: &String)
        requires
            old(self).ts.wf(),
        ensures
            final(self).fv() == l_fn_head(old(self).fv(), *header, name@),
            keeps(*old(self), *final(self)),
    {
        if header.is_async {
            self.raw_insert("async ");
        }
        let head = fn_head(header.is_unsafe, header.is_const, header.abi.as_str());
        let s = cat3(head.as_str(), " ", name.as_str());
        self.insert(s.as_str());
    }

    /// A loop label, on a line of its own.
    fn fmt_label(&mut self, label: &Option<String>)
        requires
            old(self).ts.wf(),
        ensures
            final(self).fv() == l_label(old(self).fv(), *label),
            keeps(*old(self), *final(self)),
    {
        if let Some(label) = label {
            let s = cat(label.as_str(), ":");
            self.insert(s.as_str());
            self.nl();
            self.insert_indent();
        }
    }

    fn fmt_jump_label(&mut self, keyword: &str, label: &Option<String>)
        requires
            old(self).ts.wf(),
        ensures
            final(self).fv() == l_jump_label(old(self).fv(), keyword@, *label),
            keeps(*old(self), *final(self)),
    {
        match label {
            Some(l) => {
                let s = cat3(keyword, " ", l.as_str());
                self.insert(s.as_str());
            },
            None => self.insert(keyword),
        }
    }

    fn fmt_macro_def(&mut self, item: &MacroDef)
        requires
            old(self).ts.wf(),
        ensures
            final(self).fv() == l_macro_def(old(self).fv(), *item),
            keeps(*old(self), *final(self)),
    {
        let s = cat3("macro_rules! ", item.name.as_str(), " ");
        self.insert(s.as_str());
        let lines = ts::split_lines(item.def.as_str());
        let ghost lv = text_lines(item.def@);
        let ghost s0 = *self;
        let n = lines.len();
        let mut i: usize = 0;
        while i < n
            invariant
                i <= n,
                n == lines@.len(),
                lines@.map_values(|l: String| l@) == lv,
                keeps(s0, *self),
                self.fv() == l_lines_fold(s0.fv(), lv, i as int),
            decreases n - i,
        {
            if i > 0 {
                self.nl();
            }
            assert(lines@[i as int]@ == lv[i as int]);
            self.raw_insert(lines[i].as_str());
            i = i + 1;
        }
        let d = item.def.as_str();
        if d.unicode_len() > 0 {
            let c = d.get_char(0);
            if c == '(' || c == '[' {
                self.raw_insert(";");
            }
        }
    }

    fn fmt_lifetime_def(&mut self, lifetime_def: &LifetimeDef)
        requires
            old(self).ts.wf(),
        ensures
            final(self).fv() == l_lifetime_def(old(self).fv(), *lifetime_def),
            keeps(*old(self), *final(self)),
    {
        self.maybe_nl(&lifetime_def.loc);
        let s = display_lifetime_def(lifetime_def);
        self.maybe_wrap("", "", s.as_str());
        self.fmt_chunk(&lifetime_def.lifetime);
        if lifetime_def.bounds.len() > 0 {
            self.raw_insert(": ");
            let ghost s1 = *self;
            let n = lifetime_def.bounds.len();
            let mut i: usize = 0;
            while i < n
                invariant
                    i <= n,
                    n == lifetime_def.bounds@.len(),
                    keeps(s1, *self),
                    self.fv() == l_lifetime_bounds_fold(s1.fv(), lifetime_def.bounds@, i as int),
                decreases n - i,
            {
                if i > 0 {
                    let b = display_chunk(&lifetime_def.bounds[i]);
                    self.maybe_wrap(" + ", "+ ", b.as_str());
                }
                self.fmt_chunk(&lifetime_def.bounds[i]);
                i = i + 1;
            }
        }
    }

    /// The lifetime definitions, separated by commas.
    fn fmt_lifetime_def_list(&mut self, lifetime_defs: &Vec<LifetimeDef>)
        requires
            old(self).ts.wf(),
        ensures
            final(self).fv() == l_lifetime_def_fold(old(self).fv(), lifetime_defs@, lifetime_defs@.len() as int),
            keeps(*old(self), *final(self)),
    {
        let ghost s1 = *self;
        let n = lifetime_defs.len();
        let mut i: usize = 0;
        while i < n
            invariant
                i <= n,
                n == lifetime_defs@.len(),
                keeps(s1, *self),
                self.fv() == l_lifetime_def_fold(s1.fv(), lifetime_defs@, i as int),
            decreases n - i,
        {
            if i > 0 {
                let s = display_lifetime_def(&lifetime_defs[i]);
                self.insert_sep(",", lifetime_defs[i].loc.nl, s.as_str());
            }
            self.fmt_lifetime_def(&lifetime_defs[i]);
            i = i + 1;
        }
    }

    fn fmt_for_lifetime_defs(&mut self, lifetime_defs: &Vec<LifetimeDef>)
        requires
            old(self).ts.wf(),
        ensures
            final(self).fv() == l_for_lifetime_defs(old(self).fv(), lifetime_defs@),
            keeps(*old(self), *final(self)),
    {
        if lifetime_defs.len() == 0 {
            return;
        }
        self.open_list("for<");
        self.fmt_lifetime_def_list(lifetime_defs);
        self.close_list("> ");
    }

    /// The lifetimes of a generic argument list, separated by commas.
    fn fmt_lifetime_list(&mut self, lifetimes: &Vec<Chunk>)
        requires
            old(self).ts.wf(),
        ensures
            final(self).fv() == l_lifetime_comma_fold(old(self).fv(), lifetimes@, lifetimes@.len() as int),
            keeps(*old(self), *final(self)),
    {
        let ghost s1 = *self;
        let n = lifetimes.len();
        let mut i: usize = 0;
        while i < n
            invariant
                i <= n,
                n == lifetimes@.len(),
                keeps(s1, *self),
                self.fv() == l_lifetime_comma_fold(s1.fv(), lifetimes@, i as int),
            decreases n - i,
        {
            if i > 0 {
                let s = display_chunk(&lifetimes[i]);
                self.insert_sep(",", lifetimes[i].loc.nl, s.as_str());
            }
            self.fmt_chunk(&lifetimes[i]);
            i = i + 1;
        }
    }
}
impl Formatter {
    // -----------------------------------------------------------------------
    // The crate and its items
    // -----------------------------------------------------------------------

    /// Writes the crate, then the comments left after it.
    fn fmt_crate(&mut self, krate: &Crate)
        requires
            old(self).ts.wf(),
            at_line_start(old(self).ts@.text),
        ensures
            keeps(*old(self), *final(self)),
            at_line_start(final(self).ts@.text),
            final(self).leading_cmnts@.dom().is_empty(),
            exists|order: Seq<Pos>|
                #![trigger order.to_set()]
                order.no_duplicates() && order.to_set() == l_crate_body(old(self).fv(), *krate).leading.dom()
                    && final(self).ts@ == st_left(
                    l_crate_body(old(self).fv(), *krate).ts,
                    l_crate_body(old(self).fv(), *krate).leading,
                    order,
                    krate.module.loc.end,
                ),
    {
        self.try_fmt_leading_comments(&krate.loc);
        self.fmt_attrs(&krate.attrs);
        self.fmt_mod(&krate.module);
        assert(self.fv() == l_crate_body(old(self).fv(), *krate));
        self.fmt_left_comments(&krate.module.loc);
    }

    /// Writes the declarations gathered at the head of the module, then the
    /// other items in their order.
    fn fmt_mod(&mut self, module: &Mod)
        requires
            old(self).ts.wf(),
        ensures
            final(self).fv() == l_mod(old(self).fv(), *module),
            keeps(*old(self), *final(self)),
            at_line_start(old(self).ts@.text) ==> at_line_start(final(self).ts@.text),
        decreases module, 0nat,
    {
        self.fmt_group_items(&module.items);
        self.fmt_items(&module.items);
    }

    fn fmt_items(&mut self, items: &Vec<Item>)
        requires
            old(self).ts.wf(),
        ensures
            final(self).fv() == l_items(old(self).fv(), items@, items@.len() as int),
            keeps(*old(self), *final(self)),
            at_line_start(old(self).ts@.text) ==> at_line_start(final(self).ts@.text),
        decreases items, 0nat,
    {
        let ghost s0 = *self;
        let n = items.len();
        let mut i: usize = 0;
        while i < n
            invariant
                i <= n,
                n == items@.len(),
                keeps(s0, *self),
                at_line_start(s0.ts@.text) ==> at_line_start(self.ts@.text),
                self.fv() == l_items(s0.fv(), items@, i as int),
            decreases n - i,
        {
            match &items[i].item {
                ItemKind::ExternCrate(_) | ItemKind::Use(_) | ItemKind::ModDecl(_) => {},
                _ => self.fmt_item(&items[i]),
            }
            i = i + 1;
        }
    }

    /// Writes an item on lines of its own: its leading comments, its
    /// attributes, the item, its trailing comment.
    fn fmt_item(&mut self, item: &Item)
        requires
            old(self).ts.wf(),
        ensures
            final(self).fv() == l_item(old(self).fv(), *item),
            keeps(*old(self), *final(self)),
            at_line_start(final(self).ts@.text),
        decreases item, 1nat,
    {
        self.try_fmt_leading_comments(&item.loc);
        self.fmt_attrs(&item.attrs);
        self.insert_indent();
        self.fmt_vis(&item.vis);
        self.fmt_item_kind(&item.item);
        self.try_fmt_trailing_comment(&item.loc);
        self.nl();
    }

    fn fmt_item_kind(&mut self, kind: &ItemKind)
        requires
            old(self).ts.wf(),
        ensures
            final(self).fv() == l_item_kind(old(self).fv(), *kind),
            keeps(*old(self), *final(self)),
        decreases kind, 0nat,
    {
        match kind {
            ItemKind::Mod(m) => self.fmt_sub_mod(m),
            ItemKind::ModDecl(d) => self.fmt_mod_decl(d),
            ItemKind::ExternCrate(e) => self.fmt_extern_crate(e),
            ItemKind::Use(u) => self.fmt_use(u),
            ItemKind::TypeAlias(t) => self.fmt_type_alias(t),
            ItemKind::TraitAlias(t) => self.fmt_trait_alias(t),
            ItemKind::Existential(e) => self.fmt_existential(e),
            ItemKind::Const(c) => {
                self.fmt_const(c);
                self.raw_insert(";");
            },
            ItemKind::Static(st) => self.fmt_static(st),
            ItemKind::Struct(st) => self.fmt_struct(st),
            ItemKind::Union(u) => self.fmt_union(u),
            ItemKind::Enum(e) => self.fmt_enum(e),
            ItemKind::ForeignMod(f) => self.fmt_foreign_mod(f),
            ItemKind::Fn(f) => self.fmt_fn(f),
            ItemKind::Trait(t) => self.fmt_trait(t),
            ItemKind::Impl(im) => self.fmt_impl(im),
            ItemKind::MacroDef(m) => self.fmt_macro_def(m),
            ItemKind::Macro(m) => {
                self.fmt_macro(m);
                match m.style {
                    MacroStyle::Brace => {},
                    _ => self.raw_insert(";"),
                }
            },
        }
    }

    fn fmt_sub_mod(&mut self, module: &Mod)
        requires
            old(self).ts.wf(),
        ensures
            final(self).fv() == l_sub_mod(old(self).fv(), *module),
            keeps(*old(self), *final(self)),
        decreases module, 1nat,
    {
        let s = cat("mod ", module.name.as_str());
        self.insert(s.as_str());
        if module.items.len() == 0 {
            self.empty_braces();
            return;
        }
        self.open_brace();
        self.fmt_mod(module);
        self.close_brace();
    }

    fn fmt_type_alias(&mut self, item: &TypeAlias)
        requires
            old(self).ts.wf(),
        ensures
            final(self).fv() == l_type_alias(old(self).fv(), *item),
            keeps(*old(self), *final(self)),
        decreases item, 0nat,
    {
        let s = cat("type ", item.name.as_str());
        self.insert(s.as_str());
        self.fmt_generics(&item.generics);
        self.fmt_where(&item.generics.wh);
        let t = display_type(&item.ty);
        self.maybe_wrap(" = ", "= ", t.as_str());
        self.fmt_type(&item.ty);
        self.raw_insert(";");
    }

    fn fmt_trait_alias(&mut self, item: &TraitAlias)
        requires
            old(self).ts.wf(),
        ensures
            final(self).fv() == l_trait_alias(old(self).fv(), *item),
            keeps(*old(self), *final(self)),
        decreases item, 0nat,
    {
        let s = cat("trait ", item.name.as_str());
        self.insert(s.as_str());
        self.fmt_generics(&item.generics);
        let b = display_type_param_bounds(&item.bounds);
        self.maybe_wrap(" = ", "= ", b.as_str());
        self.fmt_type_param_bounds(&item.bounds);
        self.fmt_where(&item.generics.wh);
        self.raw_insert(";");
    }

    fn fmt_existential(&mut self, item: &Existential)
        requires
            old(self).ts.wf(),
        ensures
            final(self).fv() == l_existential(old(self).fv(), *item),
            keeps(*old(self), *final(self)),
        decreases item, 0nat,
    {
        let s = cat("existential type ", item.name.as_str());
        self.insert(s.as_str());
        self.fmt_generics(&item.generics);
        if !item.bounds.is_empty() {
            self.raw_insert(": ");
            self.fmt_type_param_bounds(&item.bounds);
        }
        self.fmt_where(&item.generics.wh);
        self.raw_insert(";");
    }

    // -----------------------------------------------------------------------
    // Generics
    // -----------------------------------------------------------------------

    fn fmt_generics(&mut self, generics: &Generics)
        requires
            old(self).ts.wf(),
        ensures
            final(self).fv() == l_generics(old(self).fv(), *generics),
            keeps(*old(self), *final(self)),
        decreases generics, 0nat,
    {
        if generics.is_empty() {
            return;
        }
        self.open_list("<");
        let ghost s1 = *self;
        self.fmt_lifetime_def_list(&generics.lifetime_defs);
        let ghost s2 = *self;
        let has_prev = generics.lifetime_defs.len() > 0;
        let m = generics.type_params.len();
        let mut k: usize = 0;
        while k < m
            invariant
                k <= m,
                m == generics.type_params@.len(),
                has_prev == (generics.lifetime_defs@.len() > 0),
                keeps(s1, *self),
                self.fv() == l_type_param_fold(s2.fv(), generics.type_params@, k as int, has_prev),
            decreases m - k,
        {
            if k > 0 || has_prev {
                let s = display_type_param(&generics.type_params[k]);
                self.insert_sep(",", generics.type_params[k].loc.nl, s.as_str());
            }
            self.fmt_type_param(&generics.type_params[k]);
            k = k + 1;
        }
        self.close_list(">");
    }

    /// A type parameter with a default is written with its default and
    /// without its bounds.
    fn fmt_type_param(&mut self, type_param: &TypeParam)
        requires
            old(self).ts.wf(),
        ensures
            final(self).fv() == l_type_param(old(self).fv(), *type_param),
            keeps(*old(self), *final(self)),
        decreases type_param, 0nat,
    {
        self.maybe_nl(&type_param.loc);
        let s = display_type_param(type_param);
        self.maybe_wrap("", "", s.as_str());
        self.insert(type_param.name.as_str());
        if let Some(ty) = &type_param.default {
            let t = display_type(ty);
            self.maybe_wrap(" = ", "= ", t.as_str());
            self.fmt_type(ty);
        } else if !type_param.bounds.is_empty() {
            self.raw_insert(": ");
            self.fmt_type_param_bounds(&type_param.bounds);
        }
    }

    fn fmt_type_param_bounds(&mut self, bounds: &TypeParamBounds)
        requires
            old(self).ts.wf(),
        ensures
            final(self).fv() == l_bounds(old(self).fv(), *bounds),
            keeps(*old(self), *final(self)),
        decreases bounds, 0nat,
    {
        let ghost s0 = *self;
        let n = bounds.0.len();
        let mut i: usize = 0;
        while i < n
            invariant
                i <= n,
                n == bounds.0@.len(),
                keeps(s0, *self),
                self.fv() == l_bound_fold(s0.fv(), bounds.0@, i as int),
            decreases n - i,
        {
            if i > 0 {
                let b = display_bound(&bounds.0[i]);
                self.maybe_wrap(" + ", "+ ", b.as_str());
            }
            self.fmt_type_param_bound(&bounds.0[i]);
            i = i + 1;
        }
    }

    fn fmt_type_param_bound(&mut self, bound: &TypeParamBound)
        requires
            old(self).ts.wf(),
        ensures
            final(self).fv() == l_bound(old(self).fv(), *bound),
            keeps(*old(self), *final(self)),
        decreases bound, 0nat,
    {
        match bound {
            TypeParamBound::Lifetime(lifetime) => self.fmt_chunk(lifetime),
            TypeParamBound::PolyTraitRef(p) => self.fmt_poly_trait_ref(p),
        }
    }

    fn fmt_poly_trait_ref(&mut self, poly_trait_ref: &PolyTraitRef)
        requires
            old(self).ts.wf(),
        ensures
            final(self).fv() == l_poly_trait_ref(old(self).fv(), *poly_trait_ref),
            keeps(*old(self), *final(self)),
        decreases poly_trait_ref, 0nat,
    {
        self.fmt_for_lifetime_defs(&poly_trait_ref.lifetime_defs);
        self.fmt_path(&poly_trait_ref.trait_ref);
    }

    fn fmt_where(&mut self, wh: &Where)
        requires
            old(self).ts.wf(),
        ensures
            final(self).fv() == l_where(old(self).fv(), *wh),
            keeps(*old(self), *final(self)),
        decreases wh, 0nat,
    {
        if wh.is_empty() {
            return;
        }
        let s = display_where(wh);
        self.maybe_nl_indent(" where ", "where ", s.as_str());
        self.fmt_where_clauses(&wh.clauses);
    }

    fn fmt_where_clauses(&mut self, clauses: &Vec<WhereClause>)
        requires
            old(self).ts.wf(),
        ensures
            final(self).fv() == l_where_clauses(old(self).fv(), clauses@),
            keeps(*old(self), *final(self)),
        decreases clauses, 0nat,
    {
        self.open_list("");
        let ghost s1 = *self;
        let n = clauses.len();
        let mut i: usize = 0;
        while i < n
            invariant
                i <= n,
                n == clauses@.len(),
                keeps(s1, *self),
                self.fv() == l_where_clause_fold(s1.fv(), clauses@, i as int),
            decreases n - i,
        {
            if i > 0 {
                let s = display_where_clause(&clauses[i]);
                self.insert_sep(",", clauses[i].loc.nl, s.as_str());
            }
            self.fmt_where_clause(&clauses[i]);
            i = i + 1;
        }
        self.close_list("");
    }

    fn fmt_where_clause(&mut self, clause: &WhereClause)
        requires
            old(self).ts.wf(),
        ensures
            final(self).fv() == l_where_clause(old(self).fv(), *clause),
            keeps(*old(self), *final(self)),
        decreases clause, 0nat,
    {
        match &clause.clause {
            WhereKind::LifetimeDef(l) => self.fmt_lifetime_def(l),
            WhereKind::Bound(b) => self.fmt_where_bound(b),
        }
    }

    fn fmt_where_bound(&mut self, bound: &WhereBound)
        requires
            old(self).ts.wf(),
        ensures
            final(self).fv() == l_where_bound(old(self).fv(), *bound),
            keeps(*old(self), *final(self)),
        decreases bound, 0nat,
    {
        let s = display_where_bound(bound);
        self.maybe_wrap("", "", s.as_str());
        self.fmt_for_lifetime_defs(&bound.lifetime_defs);
        self.fmt_type(&bound.ty);
        self.raw_insert(": ");
        self.fmt_type_param_bounds(&bound.bounds);
    }

    // -----------------------------------------------------------------------
    // Paths
    // -----------------------------------------------------------------------

    fn fmt_path(&mut self, path: &Path)
        requires
            old(self).ts.wf(),
        ensures
            final(self).fv() == l_path(old(self).fv(), *path),
            keeps(*old(self), *final(self)),
        decreases path, 0nat,
    {
        self.maybe_nl(&path.loc);
        self.fmt_path_segments(&path.segments, 0, path.segments.len());
    }

    /// Writes the segments from `lo` to `hi`, joined by `::`.
    fn fmt_path_segments(&mut self, segs: &Vec<PathSegment>, lo: usize, hi: usize)
        requires
            old(self).ts.wf(),
            lo <= hi <= segs@.len(),
        ensures
            final(self).fv() == l_seg_fold(old(self).fv(), segs@, lo as int, hi as int),
            keeps(*old(self), *final(self)),
        decreases segs, 0nat,
    {
        let ghost s0 = *self;
        let mut i: usize = lo;
        while i < hi
            invariant
                lo <= i <= hi,
                hi <= segs@.len(),
                keeps(s0, *self),
                self.fv() == l_seg_fold(s0.fv(), segs@, lo as int, i as int),
            decreases hi - i,
        {
            if i > lo {
                let s = display_segment(&segs[i]);
                self.maybe_wrap("::", "::", s.as_str());
            }
            self.fmt_path_segment(&segs[i]);
            i = i + 1;
        }
    }

    fn fmt_path_segment(&mut self, seg: &PathSegment)
        requires
            old(self).ts.wf(),
        ensures
            final(self).fv() == l_path_segment(old(self).fv(), *seg),
            keeps(*old(self), *final(self)),
        decreases seg, 0nat,
    {
        self.insert(seg.name.as_str());
        self.fmt_path_param(&seg.param);
    }

    fn fmt_path_param(&mut self, param: &PathParam)
        requires
            old(self).ts.wf(),
        ensures
            final(self).fv() == l_path_param(old(self).fv(), *param),
            keeps(*old(self), *final(self)),
        decreases param, 0nat,
    {
        match param {
            PathParam::Angle(a) => self.fmt_angle_param(a),
            PathParam::Paren(p) => self.fmt_paren_param(p),
        }
    }

    fn fmt_angle_param(&mut self, param: &AngleParam)
        requires
            old(self).ts.wf(),
        ensures
            final(self).fv() == l_angle_param(old(self).fv(), *param),
            keeps(*old(self), *final(self)),
        decreases param, 0nat,
    {
        if param.is_empty() {
            return;
        }
        self.open_list("<");
        let ghost s1 = *self;
        self.fmt_lifetime_list(&param.lifetimes);
        let ghost s2 = *self;
        let nl = param.lifetimes.len();
        let nt = param.types.len();
        let mut k: usize = 0;
        while k < nt
            invariant
                k <= nt,
                nt == param.types@.len(),
                nl == param.lifetimes@.len(),
                keeps(s1, *self),
                self.fv() == l_type_comma_fold(s2.fv(), param.types@, k as int, nl > 0),
            decreases nt - k,
        {
            if k > 0 || nl > 0 {
                let s = display_type(&param.types[k]);
                self.insert_sep(",", param.types[k].loc.nl, s.as_str());
            }
            self.fmt_type(&param.types[k]);
            k = k + 1;
        }
        let ghost s3 = *self;
        let nb = param.bindings.len();
        let mut b: usize = 0;
        while b < nb
            invariant
                b <= nb,
                nb == param.bindings@.len(),
                nl == param.lifetimes@.len(),
                nt == param.types@.len(),
                keeps(s1, *self),
                self.fv() == l_binding_fold(s3.fv(), param.bindings@, b as int, nl > 0 || nt > 0),
            decreases nb - b,
        {
            if b > 0 || nl > 0 || nt > 0 {
                let s = display_binding(&param.bindings[b]);
                self.insert_sep(",", param.bindings[b].loc.nl, s.as_str());
            }
            self.fmt_type_binding(&param.bindings[b]);
            b = b + 1;
        }
        self.close_list(">");
    }

    fn fmt_type_binding(&mut self, binding: &TypeBinding)
        requires
            old(self).ts.wf(),
        ensures
            final(self).fv() == l_type_binding(old(self).fv(), *binding),
            keeps(*old(self), *final(self)),
        decreases binding, 0nat,
    {
        self.maybe_nl(&binding.loc);
        let s = display_binding(binding);
        self.maybe_wrap("", "", s.as_str());
        match &binding.binding {
            TypeBindingKind::Eq(ty) => {
                let h = cat(binding.name.as_str(), " = ");
                self.insert(h.as_str());
                self.fmt_type(ty);
            },
            TypeBindingKind::Bound(bounds) => {
                let h = cat(binding.name.as_str(), ": ");
                self.insert(h.as_str());
                self.fmt_type_param_bounds(bounds);
            },
        }
    }

    fn fmt_paren_param(&mut self, param: &ParenParam)
        requires
            old(self).ts.wf(),
        ensures
            final(self).fv() == l_paren_param(old(self).fv(), *param),
            keeps(*old(self), *final(self)),
        decreases param, 0nat,
    {
        self.fmt_type_list("(", ")", &param.inputs);
        if let Some(output) = &param.output {
            let s = display_type(output);
            self.maybe_wrap(" -> ", "-> ", s.as_str());
            self.fmt_type(output);
        }
    }

    /// Writes `<T as A::B>::C::D`; a qualified-self position past the end of
    /// the path counts as the end.
    fn fmt_qself_path(&mut self, pt: &PathType)
        requires
            old(self).ts.wf(),
            pt.qself is Some,
        ensures
            final(self).fv() == l_qself_path(old(self).fv(), *pt),
            keeps(*old(self), *final(self)),
        decreases pt, 0nat,
    {
        let qself = match &pt.qself {
            Some(q) => q,
            None => {
                assert(false);
                return;
            },
        };
        let n = pt.path.segments.len();
        let k = if qself.pos <= n {
            qself.pos
        } else {
            n
        };
        self.open_list("<");
        self.fmt_type(&qself.ty);
        if qself.pos > 0 {
            self.raw_insert(" as ");
            self.fmt_path_segments(&pt.path.segments, 0, k);
        }
        self.close_list(">");
        self.insert("::");
        self.fmt_path_segments(&pt.path.segments, k, n);
    }

    fn fmt_path_type(&mut self, pt: &PathType)
        requires
            old(self).ts.wf(),
        ensures
            final(self).fv() == l_path_type(old(self).fv(), *pt),
            keeps(*old(self), *final(self)),
        decreases pt, 1nat,
    {
        if pt.qself.is_some() {
            let s = display_path_type(pt);
            self.maybe_wrap("", "", s.as_str());
            self.fmt_qself_path(pt);
        } else {
            self.fmt_path(&pt.path);
        }
    }

    // -----------------------------------------------------------------------
    // Types
    // -----------------------------------------------------------------------

    /// Writes the types between `open` and `close`, separated by commas.
    fn fmt_type_list(&mut self, open: &str, close: &str, types: &Vec<Type>)
        requires
            old(self).ts.wf(),
        ensures
            final(self).fv() == l_type_list(old(self).fv(), open@, close@, types@),
            keeps(*old(self), *final(self)),
        decreases types, 0nat,
    {
        self.open_list(open);
        let ghost s1 = *self;
        let n = types.len();
        let mut i: usize = 0;
        while i < n
            invariant
                i <= n,
                n == types@.len(),
                keeps(s1, *self),
                self.fv() == l_type_comma_fold(s1.fv(), types@, i as int, false),
            decreases n - i,
        {
            if i > 0 {
                let s = display_type(&types[i]);
                self.insert_sep(",", types[i].loc.nl, s.as_str());
            }
            self.fmt_type(&types[i]);
            i = i + 1;
        }
        self.close_list(close);
    }

    fn fmt_type(&mut self, ty: &Type)
        requires
            old(self).ts.wf(),
        ensures
            final(self).fv() == l_type(old(self).fv(), *ty),
            keeps(*old(self), *final(self)),
        decreases ty, 0nat,
    {
        self.maybe_nl(&ty.loc);
        match &ty.ty {
            TypeKind::Symbol(s) => self.insert(s),
            TypeKind::Path(pt) => self.fmt_path_type(pt),
            TypeKind::Ptr(p) => self.fmt_ptr_type(p),
            TypeKind::Ref(r) => self.fmt_ref_type(r),
            TypeKind::Tuple(t) => self.fmt_type_list("(", ")", &t.types),
            TypeKind::Slice(st) => self.fmt_slice_type(st),
            TypeKind::Array(a) => self.fmt_array_type(a),
            TypeKind::Trait(t) => self.fmt_trait_type(t),
            TypeKind::BareFn(b) => self.fmt_bare_fn_type(b),
            TypeKind::Macro(m) => self.fmt_macro(m),
        }
    }

    fn fmt_ptr_type(&mut self, p: &PtrType)
        requires
            old(self).ts.wf(),
        ensures
            final(self).fv() == l_ptr_type(old(self).fv(), *p),
            keeps(*old(self), *final(self)),
        decreases p, 0nat,
    {
        let head = ptr_head(p.is_mut);
        let s = display_type(&p.ty);
        self.maybe_wrap(head, head, s.as_str());
        self.fmt_type(&p.ty);
    }

    fn fmt_ref_type(&mut self, r: &RefType)
        requires
            old(self).ts.wf(),
        ensures
            final(self).fv() == l_ref_type(old(self).fv(), *r),
            keeps(*old(self), *final(self)),
        decreases r, 0nat,
    {
        let head = ref_head(&r.lifetime, r.is_mut);
        let s = display_type(&r.ty);
        self.maybe_wrap(head.as_str(), head.as_str(), s.as_str());
        self.fmt_type(&r.ty);
    }

    fn fmt_slice_type(&mut self, st: &SliceType)
        requires
            old(self).ts.wf(),
        ensures
            final(self).fv() == l_slice_type(old(self).fv(), *st),
            keeps(*old(self), *final(self)),
        decreases st, 0nat,
    {
        self.open_list("[");
        self.fmt_type(&st.ty);
        self.close_list("]");
    }

    fn fmt_array_type(&mut self, a: &ArrayType)
        requires
            old(self).ts.wf(),
        ensures
            final(self).fv() == l_array_type(old(self).fv(), *a),
            keeps(*old(self), *final(self)),
        decreases a, 0nat,
    {
        self.open_list("[");
        self.fmt_type(&a.ty);
        let s = display_expr(&a.expr);
        self.insert_sep(";", a.expr.loc.nl, s.as_str());
        self.fmt_expr(&a.expr);
        self.close_list("]");
    }

    fn fmt_trait_type(&mut self, t: &TraitType)
        requires
            old(self).ts.wf(),
        ensures
            final(self).fv() == l_trait_type(old(self).fv(), *t),
            keeps(*old(self), *final(self)),
        decreases t, 0nat,
    {
        if t.is_dyn {
            self.raw_insert("dyn ");
        }
        if t.is_impl {
            self.raw_insert("impl ");
        }
        self.fmt_type_param_bounds(&t.bounds);
    }

    fn fmt_bare_fn_type(&mut self, b: &BareFnType)
        requires
            old(self).ts.wf(),
        ensures
            final(self).fv() == l_bare_fn_type(old(self).fv(), *b),
            keeps(*old(self), *final(self)),
        decreases b, 0nat,
    {
        self.fmt_for_lifetime_defs(&b.lifetime_defs);
        let head = fn_head(b.header.is_unsafe, false, b.header.abi.as_str());
        self.insert(head.as_str());
        self.fmt_fn_sig(&b.sig);
    }

    // -----------------------------------------------------------------------
    // Foreign modules, constants, statics
    // -----------------------------------------------------------------------

    fn fmt_foreign_mod(&mut self, item: &ForeignMod)
        requires
            old(self).ts.wf(),
        ensures
            final(self).fv() == l_foreign_mod(old(self).fv(), *item),
            keeps(*old(self), *final(self)),
        decreases item, 0nat,
    {
        let head = foreign_head(item.abi.as_str());
        self.insert(head.as_str());
        if item.items.len() == 0 {
            self.empty_braces();
            return;
        }
        self.open_brace();
        self.fmt_foreign_items(&item.items);
        self.close_brace();
    }

    fn fmt_foreign_items(&mut self, items: &Vec<ForeignItem>)
        requires
            old(self).ts.wf(),
        ensures
            final(self).fv() == l_foreign_items(old(self).fv(), items@, items@.len() as int),
            keeps(*old(self), *final(self)),
        decreases items, 0nat,
    {
        let ghost s0 = *self;
        let n = items.len();
        let mut i: usize = 0;
        while i < n
            invariant
                i <= n,
                n == items@.len(),
                keeps(s0, *self),
                self.fv() == l_foreign_items(s0.fv(), items@, i as int),
            decreases n - i,
        {
            let item = &items[i];
            self.try_fmt_leading_comments(&item.loc);
            self.fmt_attrs(&item.attrs);
            self.insert_indent();
            self.fmt_foreign_item(item);
            self.try_fmt_trailing_comment(&item.loc);
            self.nl();
            i = i + 1;
        }
    }

    fn fmt_foreign_item(&mut self, item: &ForeignItem)
        requires
            old(self).ts.wf(),
        ensures
            final(self).fv() == l_foreign_item(old(self).fv(), *item),
            keeps(*old(self), *final(self)),
        decreases item, 0nat,
    {
        self.fmt_vis(&item.vis);
        match &item.item {
            ForeignKind::Type(name) => {
                let s = cat("type ", name.as_str());
                self.insert(s.as_str());
            },
            ForeignKind::Static(st) => self.fmt_foreign_static(st),
            ForeignKind::Fn(f) => self.fmt_foreign_fn(f),
            ForeignKind::Macro(m) => self.fmt_macro(m),
        }
        self.raw_insert(";");
    }

    fn fmt_foreign_static(&mut self, item: &ForeignStatic)
        requires
            old(self).ts.wf(),
        ensures
            final(self).fv() == l_foreign_static(old(self).fv(), *item),
            keeps(*old(self), *final(self)),
        decreases item, 0nat,
    {
        let s = cat(static_head(item.is_mut), item.name.as_str());
        self.insert(s.as_str());
        let t = display_type(&item.ty);
        self.insert_sep(":", item.ty.loc.nl, t.as_str());
        self.fmt_type(&item.ty);
    }

    fn fmt_foreign_fn(&mut self, item: &ForeignFn)
        requires
            old(self).ts.wf(),
        ensures
            final(self).fv() == l_foreign_fn(old(self).fv(), *item),
            keeps(*old(self), *final(self)),
        decreases item, 0nat,
    {
        let s = cat("fn ", item.name.as_str());
        self.insert(s.as_str());
        self.fmt_generics(&item.generics);
        self.fmt_fn_sig(&item.sig);
    }

    /// `const name: type = expr`, without the semicolon.
    fn fmt_const(&mut self, item: &Const)
        requires
            old(self).ts.wf(),
        ensures
            final(self).fv() == l_const(old(self).fv(), *item),
            keeps(*old(self), *final(self)),
        decreases item, 0nat,
    {
        let s = cat("const ", item.name.as_str());
        self.insert(s.as_str());
        let t = display_type(&item.ty);
        self.insert_sep(":", item.ty.loc.nl, t.as_str());
        self.fmt_type(&item.ty);
        let e = display_expr(&item.expr);
        self.maybe_wrap(" = ", "= ", e.as_str());
        self.fmt_expr(&item.expr);
    }

    fn fmt_static(&mut self, item: &Static)
        requires
            old(self).ts.wf(),
        ensures
            final(self).fv() == l_static(old(self).fv(), *item),
            keeps(*old(self), *final(self)),
        decreases item, 0nat,
    {
        let s = cat(static_head(item.is_mut), item.name.as_str());
        self.insert(s.as_str());
        let t = display_type(&item.ty);
        self.insert_sep(":", item.ty.loc.nl, t.as_str());
        self.fmt_type(&item.ty);
        let e = display_expr(&item.expr);
        self.maybe_wrap(" = ", "= ", e.as_str());
        self.fmt_expr(&item.expr);
        self.raw_insert(";");
    }

    // -----------------------------------------------------------------------
    // Structs, unions, enums
    // -----------------------------------------------------------------------

    fn fmt_struct(&mut self, item: &Struct)
        requires
            old(self).ts.wf(),
        ensures
            final(self).fv() == l_struct(old(self).fv(), *item),
            keeps(*old(self), *final(self)),
        decreases item, 0nat,
    {
        let s = cat("struct ", item.name.as_str());
        self.insert(s.as_str());
        self.fmt_generics(&item.generics);
        self.fmt_struct_body(&item.body);
        match &item.body {
            StructBody::Tuple(_) | StructBody::Unit => self.raw_insert(";"),
            _ => {},
        }
    }

    fn fmt_union(&mut self, item: &Union)
        requires
            old(self).ts.wf(),
        ensures
            final(self).fv() == l_union(old(self).fv(), *item),
            keeps(*old(self), *final(self)),
        decreases item, 0nat,
    {
        let s = cat("union ", item.name.as_str());
        self.insert(s.as_str());
        self.fmt_generics(&item.generics);
        self.fmt_struct_field_block(&item.fields);
    }

    fn fmt_struct_body(&mut self, body: &StructBody)
        requires
            old(self).ts.wf(),
        ensures
            final(self).fv() == l_struct_body(old(self).fv(), *body),
            keeps(*old(self), *final(self)),
        decreases body, 0nat,
    {
        match body {
            StructBody::Struct(fields) => self.fmt_struct_field_block(fields),
            StructBody::Tuple(fields) => self.fmt_tuple_fields(fields),
            StructBody::Unit => {},
        }
    }

    fn fmt_struct_field_block(&mut self, fields: &Vec<StructField>)
        requires
            old(self).ts.wf(),
        ensures
            final(self).fv() == l_struct_field_block(old(self).fv(), fields@),
            keeps(*old(self), *final(self)),
        decreases fields, 1nat,
    {
        if fields.len() == 0 {
            self.empty_braces();
            return;
        }
        self.open_brace();
        self.fmt_struct_fields(fields);
        self.close_brace();
    }

    fn fmt_struct_fields(&mut self, fields: &Vec<StructField>)
        requires
            old(self).ts.wf(),
        ensures
            final(self).fv() == l_struct_fields(old(self).fv(), fields@, fields@.len() as int),
            keeps(*old(self), *final(self)),
        decreases fields, 0nat,
    {
        let ghost s0 = *self;
        let n = fields.len();
        let mut i: usize = 0;
        while i < n
            invariant
                i <= n,
                n == fields@.len(),
                keeps(s0, *self),
                self.fv() == l_struct_fields(s0.fv(), fields@, i as int),
            decreases n - i,
        {
            let field = &fields[i];
            self.try_fmt_leading_comments(&field.loc);
            self.fmt_attrs(&field.attrs);
            self.insert_indent();
            self.fmt_struct_field(field);
            self.try_fmt_trailing_comment(&field.loc);
            self.nl();
            i = i + 1;
        }
    }

    fn fmt_struct_field(&mut self, field: &StructField)
        requires
            old(self).ts.wf(),
        ensures
            final(self).fv() == l_struct_field(old(self).fv(), *field),
            keeps(*old(self), *final(self)),
        decreases field, 0nat,
    {
        self.fmt_vis(&field.vis);
        self.insert(field.name.as_str());
        let t = display_type(&field.ty);
        self.insert_sep(":", field.ty.loc.nl, t.as_str());
        self.fmt_type(&field.ty);
        self.raw_insert(",");
    }

    fn fmt_tuple_fields(&mut self, fields: &Vec<TupleField>)
        requires
            old(self).ts.wf(),
        ensures
            final(self).fv() == l_tuple_fields(old(self).fv(), fields@),
            keeps(*old(self), *final(self)),
        decreases fields, 0nat,
    {
        self.open_list("(");
        let ghost s1 = *self;
        let n = fields.len();
        let mut i: usize = 0;
        while i < n
            invariant
                i <= n,
                n == fields@.len(),
                keeps(s1, *self),
                self.fv() == l_tuple_field_fold(s1.fv(), fields@, i as int),
            decreases n - i,
        {
            if i > 0 {
                let s = display_tuple_field(&fields[i]);
                self.insert_sep(",", fields[i].loc.nl, s.as_str());
            }
            self.fmt_tuple_field(&fields[i]);
            i = i + 1;
        }
        self.close_list(")");
    }

    fn fmt_tuple_field(&mut self, field: &TupleField)
        requires
            old(self).ts.wf(),
        ensures
            final(self).fv() == l_tuple_field(old(self).fv(), *field),
            keeps(*old(self), *final(self)),
        decreases field, 0nat,
    {
        self.maybe_nl(&field.loc);
        self.try_fmt_leading_comments(&field.loc);
        self.fmt_attrs(&field.attrs);
        self.fmt_vis(&field.vis);
        self.fmt_type(&field.ty);
    }

    fn fmt_enum(&mut self, item: &Enum)
        requires
            old(self).ts.wf(),
        ensures
            final(self).fv() == l_enum(old(self).fv(), *item),
            keeps(*old(self), *final(self)),
        decreases item, 0nat,
    {
        let s = cat("enum ", item.name.as_str());
        self.insert(s.as_str());
        self.fmt_generics(&item.generics);
        if item.body.fields.len() == 0 {
            self.empty_braces();
            return;
        }
        self.open_brace();
        self.fmt_enum_fields(&item.body.fields);
        self.close_brace();
    }

    fn fmt_enum_fields(&mut self, fields: &Vec<EnumField>)
        requires
            old(self).ts.wf(),
        ensures
            final(self).fv() == l_enum_fields(old(self).fv(), fields@, fields@.len() as int),
            keeps(*old(self), *final(self)),
        decreases fields, 0nat,
    {
        let ghost s0 = *self;
        let n = fields.len();
        let mut i: usize = 0;
        while i < n
            invariant
                i <= n,
                n == fields@.len(),
                keeps(s0, *self),
                self.fv() == l_enum_fields(s0.fv(), fields@, i as int),
            decreases n - i,
        {
            let field = &fields[i];
            self.try_fmt_leading_comments(&field.loc);
            self.fmt_attrs(&field.attrs);
            self.insert_indent();
            self.fmt_enum_field(field);
            self.try_fmt_trailing_comment(&field.loc);
            self.nl();
            i = i + 1;
        }
    }

    #[verifier::rlimit(40)]
    fn fmt_enum_field(&mut self, field: &EnumField)
        requires
            old(self).ts.wf(),
        ensures
            final(self).fv() == l_enum_field(old(self).fv(), *field),
            keeps(*old(self), *final(self)),
        decreases field, 0nat,
    {
        self.insert(field.name.as_str());
        self.fmt_struct_body(&field.body);
        if let Some(expr) = &field.expr {
            let e = display_expr(expr);
            self.maybe_wrap(" = ", "= ", e.as_str());
            self.fmt_expr(expr);
        }
        self.raw_insert(",");
    }

    // -----------------------------------------------------------------------
    // Functions, traits, impls
    // -----------------------------------------------------------------------

    fn fmt_fn(&mut self, item: &Fn)
        requires
            old(self).ts.wf(),
        ensures
            final(self).fv() == l_fn(old(self).fv(), *item),
            keeps(*old(self), *final(self)),
        decreases item, 0nat,
    {
        self.fmt_fn_head(&item.header, &item.name);
        self.fmt_generics(&item.generics);
        self.fmt_fn_sig(&item.sig);
        self.fmt_where(&item.generics.wh);
        self.fmt_block(&item.block);
    }

    fn fmt_trait(&mut self, item: &Trait)
        requires
            old(self).ts.wf(),
        ensures
            final(self).fv() == l_trait(old(self).fv(), *item),
            keeps(*old(self), *final(self)),
        decreases item, 0nat,
    {
        if item.is_unsafe {
            self.raw_insert("unsafe ");
        }
        let s = cat("trait ", item.name.as_str());
        self.insert(s.as_str());
        self.fmt_generics(&item.generics);
        if !item.bounds.is_empty() {
            self.raw_insert(": ");
            self.fmt_type_param_bounds(&item.bounds);
        }
        self.fmt_where(&item.generics.wh);
        if item.items.len() == 0 {
            self.empty_braces();
            return;
        }
        self.open_brace();
        self.fmt_trait_items(&item.items);
        self.close_brace();
    }

    fn fmt_trait_items(&mut self, items: &Vec<TraitItem>)
        requires
            old(self).ts.wf(),
        ensures
            final(self).fv() == l_trait_items(old(self).fv(), items@, items@.len() as int),
            keeps(*old(self), *final(self)),
        decreases items, 0nat,
    {
        let ghost s0 = *self;
        let n = items.len();
        let mut i: usize = 0;
        while i < n
            invariant
                i <= n,
                n == items@.len(),
                keeps(s0, *self),
                self.fv() == l_trait_items(s0.fv(), items@, i as int),
            decreases n - i,
        {
            let item = &items[i];
            self.try_fmt_leading_comments(&item.loc);
            self.fmt_attrs(&item.attrs);
            self.insert_indent();
            self.fmt_trait_item(item);
            self.try_fmt_trailing_comment(&item.loc);
            self.nl();
            i = i + 1;
        }
    }

    /// A trait item ends with `;`, but for a method with a body.
    fn fmt_trait_item(&mut self, item: &TraitItem)
        requires
            old(self).ts.wf(),
        ensures
            final(self).fv() == l_trait_item(old(self).fv(), *item),
            keeps(*old(self), *final(self)),
        decreases item, 0nat,
    {
        match &item.item {
            TraitItemKind::Const(c) => self.fmt_const_trait_item(c),
            TraitItemKind::Type(t) => self.fmt_type_trait_item(t),
            TraitItemKind::Method(m) => self.fmt_method_trait_item(m),
            TraitItemKind::Macro(m) => {
                self.fmt_macro(m);
                self.raw_insert(";");
            },
        }
    }

    fn fmt_const_trait_item(&mut self, c: &ConstTraitItem)
        requires
            old(self).ts.wf(),
        ensures
            final(self).fv() == l_const_trait_item(old(self).fv(), *c),
            keeps(*old(self), *final(self)),
        decreases c, 0nat,
    {
        let s = cat("const ", c.name.as_str());
        self.insert(s.as_str());
        let t = display_type(&c.ty);
        self.insert_sep(":", c.ty.loc.nl, t.as_str());
        self.fmt_type(&c.ty);
        if let Some(expr) = &c.expr {
            let e = display_expr(expr);
            self.maybe_wrap(" = ", "= ", e.as_str());
            self.fmt_expr(expr);
        }
        self.raw_insert(";");
    }

    fn fmt_type_trait_item(&mut self, t: &TypeTraitItem)
        requires
            old(self).ts.wf(),
        ensures
            final(self).fv() == l_type_trait_item(old(self).fv(), *t),
            keeps(*old(self), *final(self)),
        decreases t, 0nat,
    {
        let s = cat("type ", t.name.as_str());
        self.insert(s.as_str());
        self.fmt_generics(&t.generics);
        if !t.bounds.is_empty() {
            self.raw_insert(": ");
            self.fmt_type_param_bounds(&t.bounds);
        }
        if let Some(ty) = &t.ty {
            let e = display_type(ty);
            self.maybe_wrap(" = ", "= ", e.as_str());
            self.fmt_type(ty);
        }
        self.raw_insert(";");
    }

    #[verifier::rlimit(40)]
    fn fmt_method_trait_item(&mut self, m: &MethodTraitItem)
        requires
            old(self).ts.wf(),
        ensures
            final(self).fv() == l_method_trait_item(old(self).fv(), *m),
            keeps(*old(self), *final(self)),
        decreases m, 0nat,
    {
        self.fmt_method_sig(&m.sig);
        match &m.block {
            Some(block) => self.fmt_block(block),
            None => self.raw_insert(";"),
        }
    }

    fn fmt_impl(&mut self, item: &Impl)
        requires
            old(self).ts.wf(),
        ensures
            final(self).fv() == l_impl(old(self).fv(), *item),
            keeps(*old(self), *final(self)),
        decreases item, 0nat,
    {
        if item.is_unsafe {
            self.raw_insert("unsafe ");
        }
        self.raw_insert("impl");
        self.fmt_generics(&item.generics);
        self.raw_insert(" ");
        if let Some(trait_ref) = &item.trait_ref {
            if item.is_neg {
                let s = display_path(trait_ref);
                self.maybe_wrap("!", "!", s.as_str());
            }
            self.fmt_path(trait_ref);
            let t = display_type(&item.ty);
            self.maybe_wrap(" for ", "for ", t.as_str());
            self.fmt_type(&item.ty);
        } else {
            self.fmt_type(&item.ty);
        }
        self.fmt_where(&item.generics.wh);
        if item.items.len() == 0 {
            self.empty_braces();
            return;
        }
        self.open_brace();
        self.fmt_impl_items(&item.items);
        self.close_brace();
    }

    fn fmt_impl_items(&mut self, items: &Vec<ImplItem>)
        requires
            old(self).ts.wf(),
        ensures
            final(self).fv() == l_impl_items(old(self).fv(), items@, items@.len() as int),
            keeps(*old(self), *final(self)),
        decreases items, 0nat,
    {
        let ghost s0 = *self;
        let n = items.len();
        let mut i: usize = 0;
        while i < n
            invariant
                i <= n,
                n == items@.len(),
                keeps(s0, *self),
                self.fv() == l_impl_items(s0.fv(), items@, i as int),
            decreases n - i,
        {
            let item = &items[i];
            self.try_fmt_leading_comments(&item.loc);
            self.fmt_attrs(&item.attrs);
            self.insert_indent();
            self.fmt_impl_item(item);
            self.try_fmt_trailing_comment(&item.loc);
            self.nl();
            i = i + 1;
        }
    }

    fn fmt_impl_item(&mut self, item: &ImplItem)
        requires
            old(self).ts.wf(),
        ensures
            final(self).fv() == l_impl_item(old(self).fv(), *item),
            keeps(*old(self), *final(self)),
        decreases item, 0nat,
    {
        self.fmt_vis(&item.vis);
        if item.is_default {
            self.raw_insert("default ");
        }
        match &item.item {
            ImplItemKind::Const(c) => {
                self.fmt_const(c);
                self.raw_insert(";");
            },
            ImplItemKind::Type(t) => self.fmt_type_impl_item(t),
            ImplItemKind::Existential(e) => self.fmt_existential_impl_item(e),
            ImplItemKind::Method(m) => self.fmt_method_impl_item(m),
            ImplItemKind::Macro(m) => {
                self.fmt_macro(m);
                self.raw_insert(";");
            },
        }
    }

    fn fmt_type_impl_item(&mut self, t: &TypeImplItem)
        requires
            old(self).ts.wf(),
        ensures
            final(self).fv() == l_type_impl_item(old(self).fv(), *t),
            keeps(*old(self), *final(self)),
        decreases t, 0nat,
    {
        let s = cat("type ", t.name.as_str());
        self.insert(s.as_str());
        self.fmt_generics(&t.generics);
        let e = display_type(&t.ty);
        self.maybe_wrap(" = ", "= ", e.as_str());
        self.fmt_type(&t.ty);
        self.raw_insert(";");
    }

    fn fmt_existential_impl_item(&mut self, e: &ExistentialImplItem)
        requires
            old(self).ts.wf(),
        ensures
            final(self).fv() == l_existential_impl_item(old(self).fv(), *e),
            keeps(*old(self), *final(self)),
        decreases e, 0nat,
    {
        let s = cat("existential type ", e.name.as_str());
        self.insert(s.as_str());
        self.fmt_generics(&e.generics);
        if !e.bounds.is_empty() {
            self.raw_insert(": ");
            self.fmt_type_param_bounds(&e.bounds);
        }
        self.raw_insert(";");
    }

    fn fmt_method_impl_item(&mut self, m: &MethodImplItem)
        requires
            old(self).ts.wf(),
        ensures
            final(self).fv() == l_method_impl_item(old(self).fv(), *m),
            keeps(*old(self), *final(self)),
        decreases m, 0nat,
    {
        self.fmt_method_sig(&m.sig);
        self.fmt_block(&m.block);
    }

    fn fmt_method_sig(&mut self, sig: &MethodSig)
        requires
            old(self).ts.wf(),
        ensures
            final(self).fv() == l_method_sig(old(self).fv(), *sig),
            keeps(*old(self), *final(self)),
        decreases sig, 0nat,
    {
        self.fmt_fn_head(&sig.header, &sig.name);
        self.fmt_generics(&sig.generics);
        self.fmt_fn_sig(&sig.sig);
        self.fmt_where(&sig.generics.wh);
    }

    fn fmt_fn_sig(&mut self, sig: &FnSig)
        requires
            old(self).ts.wf(),
        ensures
            final(self).fv() == l_fn_sig(old(self).fv(), *sig),
            keeps(*old(self), *final(self)),
        decreases sig, 0nat,
    {
        self.fmt_args(&sig.args);
        self.fmt_fn_return(&sig.ret);
    }

    fn fmt_args(&mut self, args: &Vec<Arg>)
        requires
            old(self).ts.wf(),
        ensures
            final(self).fv() == l_args(old(self).fv(), args@),
            keeps(*old(self), *final(self)),
        decreases args, 0nat,
    {
        self.open_list("(");
        let ghost s1 = *self;
        let n = args.len();
        let mut i: usize = 0;
        while i < n
            invariant
                i <= n,
                n == args@.len(),
                keeps(s1, *self),
                self.fv() == l_arg_fold(s1.fv(), args@, i as int),
            decreases n - i,
        {
            if i > 0 {
                let s = display_arg(&args[i]);
                self.insert_sep(",", args[i].loc.nl, s.as_str());
            }
            self.fmt_arg(&args[i]);
            i = i + 1;
        }
        self.close_list(")");
    }

    fn fmt_arg(&mut self, arg: &Arg)
        requires
            old(self).ts.wf(),
        ensures
            final(self).fv() == l_arg(old(self).fv(), *arg),
            keeps(*old(self), *final(self)),
        decreases arg, 0nat,
    {
        self.maybe_nl(&arg.loc);
        let s = display_arg(arg);
        self.maybe_wrap("", "", s.as_str());
        if arg.has_patten {
            self.fmt_patten(&arg.patten);
            self.raw_insert(": ");
        }
        self.fmt_type(&arg.ty);
    }

    /// ` -> type`, on a new indented line where the source has it there or
    /// where it does not fit.
    fn fmt_fn_return(&mut self, ret: &Return)
        requires
            old(self).ts.wf(),
        ensures
            final(self).fv() == l_fn_return(old(self).fv(), *ret),
            keeps(*old(self), *final(self)),
        decreases ret, 0nat,
    {
        if let Some(ty) = &ret.ret {
            if ret.nl {
                self.nl_indent();
                self.raw_insert("-> ");
            } else {
                let s = display_type(ty);
                self.maybe_nl_indent(" -> ", "-> ", s.as_str());
            }
            self.fmt_type(ty);
        }
    }

    // -----------------------------------------------------------------------
    // Blocks and statements
    // -----------------------------------------------------------------------

    fn fmt_block(&mut self, block: &Block)
        requires
            old(self).ts.wf(),
        ensures
            final(self).fv() == l_block(old(self).fv(), *block),
            keeps(*old(self), *final(self)),
        decreases block, 0nat,
    {
        if block.is_unsafe {
            self.raw_insert("unsafe");
        }
        if block.stmts.len() == 0 {
            self.empty_braces();
            return;
        }
        self.open_brace();
        self.fmt_stmts(&block.stmts);
        self.close_brace();
    }

    fn fmt_stmts(&mut self, stmts: &Vec<Stmt>)
        requires
            old(self).ts.wf(),
        ensures
            final(self).fv() == l_stmts(old(self).fv(), stmts@, stmts@.len() as int),
            keeps(*old(self), *final(self)),
        decreases stmts, 0nat,
    {
        let ghost s0 = *self;
        let n = stmts.len();
        let mut i: usize = 0;
        while i < n
            invariant
                i <= n,
                n == stmts@.len(),
                keeps(s0, *self),
                self.fv() == l_stmts(s0.fv(), stmts@, i as int),
            decreases n - i,
        {
            self.fmt_stmt(&stmts[i]);
            i = i + 1;
        }
    }

    fn fmt_stmt(&mut self, stmt: &Stmt)
        requires
            old(self).ts.wf(),
        ensures
            final(self).fv() == l_stmt(old(self).fv(), *stmt),
            keeps(*old(self), *final(self)),
        decreases stmt, 0nat,
    {
        self.try_fmt_leading_comments(&stmt.loc);
        match &stmt.stmt {
            StmtKind::Item(item) => self.fmt_item(item),
            StmtKind::Let(local) => self.fmt_let(local),
            StmtKind::Expr(expr, is_semi) => self.fmt_expr_stmt(expr, *is_semi),
            StmtKind::Macro(mac) => self.fmt_macro_stmt(mac),
        }
    }

    fn fmt_let(&mut self, local: &Let)
        requires
            old(self).ts.wf(),
        ensures
            final(self).fv() == l_let(old(self).fv(), *local),
            keeps(*old(self), *final(self)),
        decreases local, 0nat,
    {
        self.try_fmt_leading_comments(&local.loc);
        self.fmt_attrs(&local.attrs);
        self.insert_indent();
        self.raw_insert("let ");
        self.fmt_patten(&local.patten);
        if let Some(ty) = &local.ty {
            let s = display_type(ty);
            self.maybe_wrap(": ", ":", s.as_str());
            self.fmt_type(ty);
        }
        if let Some(init) = &local.init {
            let s = display_expr(init);
            self.maybe_wrap(" = ", "= ", s.as_str());
            self.fmt_expr(init);
        }
        self.raw_insert(";");
        self.try_fmt_trailing_comment(&local.loc);
        self.nl();
    }

    fn fmt_expr_stmt(&mut self, expr: &Expr, is_semi: bool)
        requires
            old(self).ts.wf(),
        ensures
            final(self).fv() == l_expr_stmt(old(self).fv(), *expr, is_semi),
            keeps(*old(self), *final(self)),
        decreases expr, 1nat,
    {
        self.try_fmt_leading_comments(&expr.loc);
        self.fmt_attrs(&expr.attrs);
        self.insert_indent();
        self.fmt_expr(expr);
        if is_semi {
            self.raw_insert(";");
        }
        self.try_fmt_trailing_comment(&expr.loc);
        self.nl();
    }

    fn fmt_macro_stmt(&mut self, stmt: &MacroStmt)
        requires
            old(self).ts.wf(),
        ensures
            final(self).fv() == l_macro_stmt(old(self).fv(), *stmt),
            keeps(*old(self), *final(self)),
        decreases stmt, 0nat,
    {
        self.try_fmt_leading_comments(&stmt.loc);
        self.fmt_attrs(&stmt.attrs);
        self.insert_indent();
        self.fmt_macro(&stmt.mac);
        if stmt.is_semi {
            self.raw_insert(";");
        }
        self.try_fmt_trailing_comment(&stmt.loc);
        self.nl();
    }

    // -----------------------------------------------------------------------
    // Patterns
    // -----------------------------------------------------------------------

    fn fmt_patten(&mut self, patten: &Patten)
        requires
            old(self).ts.wf(),
        ensures
            final(self).fv() == l_patten(old(self).fv(), *patten),
            keeps(*old(self), *final(self)),
        decreases patten, 0nat,
    {
        self.maybe_nl(&patten.loc);
        match &patten.patten {
            PattenKind::Wildcard => self.insert("_"),
            PattenKind::Symbol(s) => self.insert(s),
            PattenKind::Literal(e) => self.fmt_expr(e),
            PattenKind::Range(r) => self.fmt_range_patten(r),
            PattenKind::Ref(r) => self.fmt_ref_patten(r),
            PattenKind::Path(pt) => self.fmt_path_type(pt),
            PattenKind::Ident(ip) => self.fmt_ident_patten(ip),
            PattenKind::Struct(sp) => self.fmt_struct_patten(sp),
            PattenKind::Enum(ep) => self.fmt_enum_patten(ep),
            PattenKind::Tuple(tp) => self.fmt_patten_list("(", ")", &tp.pattens),
            PattenKind::Slice(sp) => self.fmt_patten_list("[", "]", &sp.pattens),
            PattenKind::Macro(m) => self.fmt_macro(m),
        }
    }

    fn fmt_range_patten(&mut self, r: &RangePatten)
        requires
            old(self).ts.wf(),
        ensures
            final(self).fv() == l_range_patten(old(self).fv(), *r),
            keeps(*old(self), *final(self)),
        decreases r, 0nat,
    {
        self.fmt_expr(&r.start);
        self.insert("...");
        self.fmt_expr(&r.end);
    }

    fn fmt_ref_patten(&mut self, r: &RefPatten)
        requires
            old(self).ts.wf(),
        ensures
            final(self).fv() == l_ref_patten(old(self).fv(), *r),
            keeps(*old(self), *final(self)),
        decreases r, 0nat,
    {
        let head = ref_head(&None, r.is_mut);
        self.insert(head.as_str());
        self.fmt_patten(&r.patten);
    }

    fn fmt_ident_patten(&mut self, ip: &IdentPatten)
        requires
            old(self).ts.wf(),
        ensures
            final(self).fv() == l_ident_patten(old(self).fv(), *ip),
            keeps(*old(self), *final(self)),
        decreases ip, 0nat,
    {
        let head = ident_patten_head(ip.is_ref, ip.is_mut);
        let s = cat(head.as_str(), ip.name.as_str());
        self.insert(s.as_str());
        if let Some(sub) = &ip.patten {
            let d = display_patten(sub);
            self.maybe_wrap(" @ ", "@ ", d.as_str());
            self.fmt_patten(sub);
        }
    }

    fn fmt_enum_patten(&mut self, ep: &EnumPatten)
        requires
            old(self).ts.wf(),
        ensures
            final(self).fv() == l_enum_patten(old(self).fv(), *ep),
            keeps(*old(self), *final(self)),
        decreases ep, 0nat,
    {
        self.fmt_path(&ep.path);
        if ep.pattens.len() > 0 {
            self.fmt_patten_list("(", ")", &ep.pattens);
        }
    }

    fn fmt_patten_list(&mut self, open: &str, close: &str, pattens: &Vec<Patten>)
        requires
            old(self).ts.wf(),
        ensures
            final(self).fv() == l_patten_list(old(self).fv(), open@, close@, pattens@),
            keeps(*old(self), *final(self)),
        decreases pattens, 0nat,
    {
        self.open_list(open);
        let ghost s1 = *self;
        let n = pattens.len();
        let mut i: usize = 0;
        while i < n
            invariant
                i <= n,
                n == pattens@.len(),
                keeps(s1, *self),
                self.fv() == l_patten_fold(s1.fv(), pattens@, i as int),
            decreases n - i,
        {
            if i > 0 {
                let s = display_patten(&pattens[i]);
                self.insert_sep(",", pattens[i].loc.nl, s.as_str());
            }
            self.fmt_patten(&pattens[i]);
            i = i + 1;
        }
        self.close_list(close);
    }

    /// Writes ` {`, opens a level of indentation and ends the line.
    fn open_body(&mut self)
        requires
            old(self).ts.wf(),
        ensures
            final(self).fv() == f_open_body(old(self).fv()),
            entered(*old(self), *final(self)),
            final(self).leading_cmnts@ == old(self).leading_cmnts@,
            final(self).trailing_cmnts@ == old(self).trailing_cmnts@,
    {
        proof {
            reveal(f_open_body);
            reveal(f_raw);
            reveal(f_insert);
            reveal(f_wrap);
            reveal(f_nl);
            reveal(f_nl_indent);
            reveal(f_indent);
            reveal(f_outdent);
            reveal(f_insert_indent);
        }
        proof {
            self.ts.lemma_wf_indent();
        }
        self.raw_insert(" {");
        self.indent();
        self.nl();
        assert(self.ts@.indent =~= ts::spaces(old(self).ts@.indent.len() + (ts::INDENT_LEN as nat)));
    }

    /// A struct pattern puts each field on a line of its own.
    fn fmt_struct_patten(&mut self, patten: &StructPatten)
        requires
            old(self).ts.wf(),
        ensures
            final(self).fv() == l_struct_patten(old(self).fv(), *patten),
            keeps(*old(self), *final(self)),
        decreases patten, 0nat,
    {
        self.fmt_path(&patten.path);
        if patten.fields.len() == 0 && !patten.omit {
            self.raw_insert("{}");
            return;
        }
        self.open_body();
        self.fmt_struct_field_pattens(&patten.fields);
        if patten.omit {
            self.insert_indent();
            self.raw_insert("..");
            self.nl();
        }
        self.close_brace();
    }

    fn fmt_struct_field_pattens(&mut self, fields: &Vec<StructFieldPatten>)
        requires
            old(self).ts.wf(),
        ensures
            final(self).fv() == l_field_pattens(old(self).fv(), fields@, fields@.len() as int),
            keeps(*old(self), *final(self)),
        decreases fields, 0nat,
    {
        let ghost s0 = *self;
        let n = fields.len();
        let mut i: usize = 0;
        while i < n
            invariant
                i <= n,
                n == fields@.len(),
                keeps(s0, *self),
                self.fv() == l_field_pattens(s0.fv(), fields@, i as int),
            decreases n - i,
        {
            let field = &fields[i];
            self.try_fmt_leading_comments(&field.loc);
            self.insert_indent();
            self.fmt_struct_field_patten(field);
            self.try_fmt_trailing_comment(&field.loc);
            self.nl();
            i = i + 1;
        }
    }

    fn fmt_struct_field_patten(&mut self, field: &StructFieldPatten)
        requires
            old(self).ts.wf(),
        ensures
            final(self).fv() == l_field_patten(old(self).fv(), *field),
            keeps(*old(self), *final(self)),
        decreases field, 0nat,
    {
        if field.shorthand {
            self.fmt_patten(&field.patten);
        } else {
            self.insert(field.name.as_str());
            let s = display_patten(&field.patten);
            self.maybe_wrap(": ", ":", s.as_str());
            self.fmt_patten(&field.patten);
        }
        self.raw_insert(",");
    }

    // -----------------------------------------------------------------------
    // Expressions
    // -----------------------------------------------------------------------

    fn fmt_expr(&mut self, expr: &Expr)
        requires
            old(self).ts.wf(),
        ensures
            final(self).fv() == l_expr(old(self).fv(), *expr),
            keeps(*old(self), *final(self)),
        decreases expr, 0nat,
    {
        self.maybe_nl(&expr.loc);
        match &expr.expr {
            ExprKind::Literal(c) => self.fmt_chunk(c),
            ExprKind::Path(pt) => self.fmt_path_type(pt),
            ExprKind::Ref(r) => self.fmt_ref_expr(r),
            ExprKind::UnaryOp(u) => self.fmt_unary_expr(u),
            ExprKind::Try(x) => {
                self.fmt_expr(x);
                self.insert("?");
            },
            ExprKind::ListOp(l) => self.fmt_list_op_expr(l),
            ExprKind::Repeat(r) => self.fmt_repeat_expr(r),
            ExprKind::Array(v) => self.fmt_expr_list("[", "]", v, 0),
            ExprKind::Tuple(v) => self.fmt_expr_list("(", ")", v, 0),
            ExprKind::Index(ix) => self.fmt_index_expr(ix),
            ExprKind::Struct(st) => self.fmt_struct_expr(st),
            ExprKind::Field(f) => {
                let s = display_expr(expr);
                self.fmt_field_expr(s.as_str(), f);
            },
            ExprKind::Type(t) => self.fmt_type_expr(t),
            ExprKind::Cast(c) => self.fmt_cast_expr(c),
            ExprKind::Range(r) => {
                let s = display_expr(expr);
                self.fmt_range_expr(s.as_str(), r);
            },
            ExprKind::Block(b) => self.fmt_block_expr(b),
            ExprKind::If(ie) => self.fmt_if_expr(ie),
            ExprKind::While(w) => self.fmt_while_expr(w),
            ExprKind::Let(l) => self.fmt_let_expr(l),
            ExprKind::For(f) => self.fmt_for_expr(f),
            ExprKind::Loop(l) => self.fmt_loop_expr(l),
            ExprKind::Break(b) => self.fmt_break_expr(b),
            ExprKind::Continue(c) => self.fmt_jump_label("continue", &c.label),
            ExprKind::Match(m) => self.fmt_match_expr(m),
            ExprKind::FnCall(f) => self.fmt_fn_call_expr(f),
            ExprKind::MethodCall(m) => self.fmt_method_call(m),
            ExprKind::Closure(c) => self.fmt_closure(c),
            ExprKind::Return(r) => self.fmt_return_expr(r),
            ExprKind::Macro(m) => self.fmt_macro(m),
        }
    }

    fn fmt_ref_expr(&mut self, r: &RefExpr)
        requires
            old(self).ts.wf(),
        ensures
            final(self).fv() == l_ref_expr(old(self).fv(), *r),
            keeps(*old(self), *final(self)),
        decreases r, 0nat,
    {
        let head = ref_head(&None, r.is_mut);
        let s = display_expr(&r.expr);
        self.maybe_wrap(head.as_str(), head.as_str(), s.as_str());
        self.fmt_expr(&r.expr);
    }

    fn fmt_unary_expr(&mut self, u: &UnaryOpExpr)
        requires
            old(self).ts.wf(),
        ensures
            final(self).fv() == l_unary_expr(old(self).fv(), *u),
            keeps(*old(self), *final(self)),
        decreases u, 0nat,
    {
        let s = display_expr(&u.expr);
        self.maybe_wrap(u.op, u.op, s.as_str());
        self.fmt_expr(&u.expr);
    }

    /// The operands joined by the operator, each operand on the line where it fits.
    fn fmt_list_op_expr(&mut self, expr: &ListOpExpr)
        requires
            old(self).ts.wf(),
        ensures
            final(self).fv() == l_list_op_expr(old(self).fv(), *expr),
            keeps(*old(self), *final(self)),
        decreases expr, 0nat,
    {
        let sep = cat3(" ", expr.op.s.as_str(), " ");
        let wrap_sep = cat(expr.op.s.as_str(), " ");
        let ghost s0 = *self;
        let n = expr.exprs.len();
        let mut i: usize = 0;
        while i < n
            invariant
                i <= n,
                n == expr.exprs@.len(),
                sep@ == " "@ + expr.op.s@ + " "@,
                wrap_sep@ == expr.op.s@ + " "@,
                keeps(s0, *self),
                self.fv() == l_list_op_fold(s0.fv(), expr.op.s@, expr.exprs@, i as int),
            decreases n - i,
        {
            if i > 0 {
                let s = display_expr(&expr.exprs[i]);
                self.maybe_wrap(sep.as_str(), wrap_sep.as_str(), s.as_str());
            }
            self.fmt_expr(&expr.exprs[i]);
            i = i + 1;
        }
    }

    fn fmt_repeat_expr(&mut self, r: &RepeatExpr)
        requires
            old(self).ts.wf(),
        ensures
            final(self).fv() == l_repeat_expr(old(self).fv(), *r),
            keeps(*old(self), *final(self)),
        decreases r, 0nat,
    {
        self.open_list("[");
        self.fmt_expr(&r.value);
        let s = display_expr(&r.len);
        self.insert_sep(";", r.len.loc.nl, s.as_str());
        self.fmt_expr(&r.len);
        self.close_list("]");
    }

    /// Writes the expressions from position `from` on between `open` and
    /// `close`, separated by commas.
    fn fmt_expr_list(&mut self, open: &str, close: &str, exprs: &Vec<Expr>, from: usize)
        requires
            old(self).ts.wf(),
        ensures
            final(self).fv() == l_expr_list(old(self).fv(), open@, close@, exprs@, from as int),
            keeps(*old(self), *final(self)),
        decreases exprs, 0nat,
    {
        self.open_list(open);
        let ghost s1 = *self;
        let n = exprs.len();
        let mut i: usize = from;
        while i < n
            invariant
                n == exprs@.len(),
                from <= i,
                i <= n || i == from,
                keeps(s1, *self),
                self.fv() == l_expr_fold(s1.fv(), exprs@, from as int, i as int),
            decreases n - i,
        {
            if i > from {
                let s = display_expr(&exprs[i]);
                self.insert_sep(",", exprs[i].loc.nl, s.as_str());
            }
            self.fmt_expr(&exprs[i]);
            i = i + 1;
        }
        assert(l_expr_fold(s1.fv(), exprs@, from as int, n as int) == l_expr_fold(
            s1.fv(),
            exprs@,
            from as int,
            i as int,
        ));
        self.close_list(close);
    }

    fn fmt_index_expr(&mut self, ix: &IndexExpr)
        requires
            old(self).ts.wf(),
        ensures
            final(self).fv() == l_index_expr(old(self).fv(), *ix),
            keeps(*old(self), *final(self)),
        decreases ix, 0nat,
    {
        self.fmt_expr(&ix.obj);
        self.open_list("[");
        self.fmt_expr(&ix.index);
        self.close_list("]");
    }

    /// A struct literal puts each field on a line of its own.
    fn fmt_struct_expr(&mut self, expr: &StructExpr)
        requires
            old(self).ts.wf(),
        ensures
            final(self).fv() == l_struct_expr(old(self).fv(), *expr),
            keeps(*old(self), *final(self)),
        decreases expr, 0nat,
    {
        self.fmt_path(&expr.path);
        if expr.fields.len() == 0 {
            self.insert(" {}");
            return;
        }
        self.open_body();
        self.fmt_struct_field_exprs(&expr.fields);
        if let Some(base) = &expr.base {
            self.insert_indent();
            self.insert("..");
            self.fmt_expr(base);
            self.try_fmt_trailing_comment(&base.loc);
            self.nl();
        }
        self.close_brace();
    }

    fn fmt_struct_field_exprs(&mut self, fields: &Vec<StructFieldExpr>)
        requires
            old(self).ts.wf(),
        ensures
            final(self).fv() == l_field_exprs(old(self).fv(), fields@, fields@.len() as int),
            keeps(*old(self), *final(self)),
        decreases fields, 0nat,
    {
        let ghost s0 = *self;
        let n = fields.len();
        let mut i: usize = 0;
        while i < n
            invariant
                i <= n,
                n == fields@.len(),
                keeps(s0, *self),
                self.fv() == l_field_exprs(s0.fv(), fields@, i as int),
            decreases n - i,
        {
            let field = &fields[i];
            self.try_fmt_leading_comments(&field.loc);
            self.insert_indent();
            self.fmt_struct_field_expr(field);
            self.try_fmt_trailing_comment(&field.loc);
            self.nl();
            i = i + 1;
        }
    }

    fn fmt_struct_field_expr(&mut self, field: &StructFieldExpr)
        requires
            old(self).ts.wf(),
        ensures
            final(self).fv() == l_field_expr_item(old(self).fv(), *field),
            keeps(*old(self), *final(self)),
        decreases field, 0nat,
    {
        self.insert(field.name.as_str());
        let s = display_expr(&field.value);
        self.insert_sep(":", field.value.loc.nl, s.as_str());
        self.fmt_expr(&field.value);
        self.raw_insert(",");
    }

    /// `expr.field`, where `text` is the text of the whole expression.
    fn fmt_field_expr(&mut self, text: &str, f: &FieldExpr)
        requires
            old(self).ts.wf(),
        ensures
            final(self).fv() == l_field_expr(old(self).fv(), text@, *f),
            keeps(*old(self), *final(self)),
        decreases f, 0nat,
    {
        self.maybe_wrap("", "", text);
        self.fmt_expr(&f.expr);
        let field = cat(".", f.field.as_str());
        self.insert(field.as_str());
    }

    fn fmt_type_expr(&mut self, t: &TypeExpr)
        requires
            old(self).ts.wf(),
        ensures
            final(self).fv() == l_type_expr(old(self).fv(), *t),
            keeps(*old(self), *final(self)),
        decreases t, 0nat,
    {
        self.fmt_expr(&t.expr);
        let s = display_type(&t.ty);
        self.maybe_wrap(": ", ":", s.as_str());
        self.fmt_type(&t.ty);
    }

    fn fmt_cast_expr(&mut self, c: &CastExpr)
        requires
            old(self).ts.wf(),
        ensures
            final(self).fv() == l_cast_expr(old(self).fv(), *c),
            keeps(*old(self), *final(self)),
        decreases c, 0nat,
    {
        self.fmt_expr(&c.expr);
        let s = display_type(&c.ty);
        self.maybe_wrap(" as ", "as ", s.as_str());
        self.fmt_type(&c.ty);
    }

    /// `start..end`, where `text` is the text of the whole expression.
    fn fmt_range_expr(&mut self, text: &str, r: &RangeExpr)
        requires
            old(self).ts.wf(),
        ensures
            final(self).fv() == l_range_expr(old(self).fv(), text@, *r),
            keeps(*old(self), *final(self)),
        decreases r, 0nat,
    {
        self.maybe_wrap("", "", text);
        if let Some(start) = &r.start {
            self.fmt_expr(start);
        }
        self.insert("..");
        if let Some(end) = &r.end {
            self.fmt_expr(end);
        }
    }

    fn fmt_block_expr(&mut self, b: &BlockExpr)
        requires
            old(self).ts.wf(),
        ensures
            final(self).fv() == l_block_expr(old(self).fv(), *b),
            keeps(*old(self), *final(self)),
        decreases b, 0nat,
    {
        self.fmt_label(&b.label);
        self.block_non_sep = true;
        self.fmt_block(&b.block);
    }

    fn fmt_if_expr(&mut self, expr: &IfExpr)
        requires
            old(self).ts.wf(),
        ensures
            final(self).fv() == l_if_expr(old(self).fv(), *expr),
            keeps(*old(self), *final(self)),
        decreases expr, 0nat,
    {
        self.block_non_sep = false;
        self.raw_insert("if ");
        self.fmt_expr(&expr.expr);
        self.fmt_block(&expr.block);
        if let Some(br) = &expr.br {
            self.block_non_sep = true;
            self.raw_insert(" else ");
            self.fmt_expr(br);
        }
    }

    fn fmt_while_expr(&mut self, w: &WhileExpr)
        requires
            old(self).ts.wf(),
        ensures
            final(self).fv() == l_while_expr(old(self).fv(), *w),
            keeps(*old(self), *final(self)),
        decreases w, 0nat,
    {
        self.fmt_label(&w.label);
        self.raw_insert("while ");
        self.fmt_expr(&w.expr);
        self.fmt_block(&w.block);
    }

    fn fmt_let_expr(&mut self, l: &LetExpr)
        requires
            old(self).ts.wf(),
        ensures
            final(self).fv() == l_let_expr(old(self).fv(), *l),
            keeps(*old(self), *final(self)),
        decreases l, 0nat,
    {
        self.raw_insert("let ");
        self.fmt_pattens_alt(&l.pattens);
        let s = display_expr(&l.expr);
        self.maybe_wrap(" = ", "= ", s.as_str());
        self.fmt_expr(&l.expr);
    }

    /// The alternatives of a pattern, joined by `|`.
    fn fmt_pattens_alt(&mut self, pattens: &Vec<Patten>)
        requires
            old(self).ts.wf(),
        ensures
            final(self).fv() == l_pattens_alt(old(self).fv(), pattens@, pattens@.len() as int),
            keeps(*old(self), *final(self)),
        decreases pattens, 0nat,
    {
        let ghost s0 = *self;
        let n = pattens.len();
        let mut i: usize = 0;
        while i < n
            invariant
                i <= n,
                n == pattens@.len(),
                keeps(s0, *self),
                self.fv() == l_pattens_alt(s0.fv(), pattens@, i as int),
            decreases n - i,
        {
            if i > 0 {
                let s = display_patten(&pattens[i]);
                self.maybe_wrap(" | ", "| ", s.as_str());
            }
            self.fmt_patten(&pattens[i]);
            i = i + 1;
        }
    }

    fn fmt_for_expr(&mut self, f: &ForExpr)
        requires
            old(self).ts.wf(),
        ensures
            final(self).fv() == l_for_expr(old(self).fv(), *f),
            keeps(*old(self), *final(self)),
        decreases f, 0nat,
    {
        self.fmt_label(&f.label);
        self.raw_insert("for ");
        self.fmt_patten(&f.patten);
        let s = display_expr(&f.expr);
        self.maybe_wrap(" in ", "in ", s.as_str());
        self.fmt_expr(&f.expr);
        self.fmt_block(&f.block);
    }

    fn fmt_loop_expr(&mut self, l: &LoopExpr)
        requires
            old(self).ts.wf(),
        ensures
            final(self).fv() == l_loop_expr(old(self).fv(), *l),
            keeps(*old(self), *final(self)),
        decreases l, 0nat,
    {
        self.fmt_label(&l.label);
        self.raw_insert("loop");
        self.fmt_block(&l.block);
    }

    fn fmt_break_expr(&mut self, b: &BreakExpr)
        requires
            old(self).ts.wf(),
        ensures
            final(self).fv() == l_break_expr(old(self).fv(), *b),
            keeps(*old(self), *final(self)),
        decreases b, 0nat,
    {
        self.fmt_jump_label("break", &b.label);
        if let Some(e) = &b.expr {
            let s = display_expr(e);
            self.maybe_wrap(" ", "", s.as_str());
            self.fmt_expr(e);
        }
    }

    fn fmt_match_expr(&mut self, m: &MatchExpr)
        requires
            old(self).ts.wf(),
        ensures
            final(self).fv() == l_match_expr(old(self).fv(), *m),
            keeps(*old(self), *final(self)),
        decreases m, 0nat,
    {
        self.raw_insert("match ");
        self.fmt_expr(&m.expr);
        if m.arms.len() == 0 {
            self.empty_braces();
        } else {
            self.open_brace();
            self.fmt_arms(&m.arms);
            self.close_brace();
        }
    }

    fn fmt_arms(&mut self, arms: &Vec<Arm>)
        requires
            old(self).ts.wf(),
        ensures
            final(self).fv() == l_arms(old(self).fv(), arms@, arms@.len() as int),
            keeps(*old(self), *final(self)),
        decreases arms, 0nat,
    {
        let ghost s0 = *self;
        let n = arms.len();
        let mut i: usize = 0;
        while i < n
            invariant
                i <= n,
                n == arms@.len(),
                keeps(s0, *self),
                self.fv() == l_arms(s0.fv(), arms@, i as int),
            decreases n - i,
        {
            let arm = &arms[i];
            self.try_fmt_leading_comments(&arm.loc);
            self.fmt_attrs(&arm.attrs);
            self.insert_indent();
            self.fmt_arm(arm);
            self.try_fmt_trailing_comment(&arm.loc);
            self.nl();
            i = i + 1;
        }
    }

    fn fmt_arm(&mut self, arm: &Arm)
        requires
            old(self).ts.wf(),
        ensures
            final(self).fv() == l_arm(old(self).fv(), *arm),
            keeps(*old(self), *final(self)),
        decreases arm, 0nat,
    {
        self.fmt_pattens_alt(&arm.pattens);
        if let Some(guard) = &arm.guard {
            let s = display_expr(guard);
            self.maybe_wrap(" if ", "if ", s.as_str());
            self.fmt_expr(guard);
        }
        let s = display_expr(&arm.body);
        self.maybe_wrap(" => ", "=> ", s.as_str());
        self.fmt_expr(&arm.body);
        self.raw_insert(",");
    }

    fn fmt_fn_call_expr(&mut self, f: &FnCallExpr)
        requires
            old(self).ts.wf(),
        ensures
            final(self).fv() == l_fn_call_expr(old(self).fv(), *f),
            keeps(*old(self), *final(self)),
        decreases f, 0nat,
    {
        self.fmt_expr(&f.name);
        self.fmt_expr_list("(", ")", &f.args, 0);
    }

    /// `receiver.name::<params>(args)`: the receiver is the first argument.
    fn fmt_method_call(&mut self, expr: &MethodCallExpr)
        requires
            old(self).ts.wf(),
        ensures
            final(self).fv() == l_method_call(old(self).fv(), *expr),
            keeps(*old(self), *final(self)),
        decreases expr, 0nat,
    {
        if expr.args.len() > 0 {
            self.fmt_expr(&expr.args[0]);
            let s = cat(".", expr.path.name.as_str());
            self.insert(s.as_str());
        } else {
            self.insert(expr.path.name.as_str());
        }
        if !expr.path.is_empty() {
            self.insert("::");
            self.fmt_path_param(&expr.path.param);
        }
        self.fmt_expr_list("(", ")", &expr.args, 1);
    }

    fn fmt_closure(&mut self, expr: &ClosureExpr)
        requires
            old(self).ts.wf(),
        ensures
            final(self).fv() == l_closure(old(self).fv(), *expr),
            keeps(*old(self), *final(self)),
        decreases expr, 0nat,
    {
        if expr.is_static {
            self.insert("static ");
        }
        if expr.is_async {
            self.insert("async ");
        }
        if expr.is_move {
            self.insert("move ");
        }
        self.fmt_closure_args(&expr.sig.args);
        self.fmt_fn_return(&expr.sig.ret);
        let s = display_expr(&expr.expr);
        self.maybe_wrap(" ", "", s.as_str());
        self.fmt_expr(&expr.expr);
    }

    fn fmt_closure_args(&mut self, args: &Vec<Arg>)
        requires
            old(self).ts.wf(),
        ensures
            final(self).fv() == l_closure_args(old(self).fv(), args@),
            keeps(*old(self), *final(self)),
        decreases args, 0nat,
    {
        self.open_list("|");
        let ghost s1 = *self;
        let n = args.len();
        let mut i: usize = 0;
        while i < n
            invariant
                i <= n,
                n == args@.len(),
                keeps(s1, *self),
                self.fv() == l_closure_arg_fold(s1.fv(), args@, i as int),
            decreases n - i,
        {
            if i > 0 {
                let s = display_closure_arg(&args[i]);
                self.insert_sep(",", args[i].loc.nl, s.as_str());
            }
            self.fmt_closure_arg(&args[i]);
            i = i + 1;
        }
        self.close_list("|");
    }

    /// A closure argument leaves out an inferred type.
    fn fmt_closure_arg(&mut self, arg: &Arg)
        requires
            old(self).ts.wf(),
        ensures
            final(self).fv() == l_closure_arg(old(self).fv(), *arg),
            keeps(*old(self), *final(self)),
        decreases arg, 0nat,
    {
        self.maybe_nl(&arg.loc);
        let s = display_closure_arg(arg);
        self.maybe_wrap("", "", s.as_str());
        self.fmt_patten(&arg.patten);
        let infer = match &arg.ty.ty {
            TypeKind::Symbol(sym) => str_eq(sym, "_"),
            _ => false,
        };
        if !infer {
            let t = display_type(&arg.ty);
            self.maybe_wrap(": ", ":", t.as_str());
            self.fmt_type(&arg.ty);
        }
    }

    fn fmt_return_expr(&mut self, r: &ReturnExpr)
        requires
            old(self).ts.wf(),
        ensures
            final(self).fv() == l_return_expr(old(self).fv(), *r),
            keeps(*old(self), *final(self)),
        decreases r, 0nat,
    {
        self.raw_insert("return");
        if let Some(e) = &r.ret {
            let s = display_expr(e);
            self.maybe_wrap(" ", "", s.as_str());
            self.fmt_expr(e);
        }
    }

    /// `name!(args)`: the arguments between the macro's delimiters, each after
    /// the first preceded by its separator (none where it is missing).
    fn fmt_macro(&mut self, mac: &Macro)
        requires
            old(self).ts.wf(),
        ensures
            final(self).fv() == l_macro(old(self).fv(), *mac),
            keeps(*old(self), *final(self)),
        decreases mac, 0nat,
    {
        let (open, close) = match mac.style {
            MacroStyle::Paren => ("(", ")"),
            MacroStyle::Bracket => ("[", "]"),
            MacroStyle::Brace => ("{", "}"),
        };
        assert((open@, close@) == s_macro_delims(mac.style));
        let head = cat(mac.name.as_str(), "!");
        self.insert(head.as_str());
        self.open_list(open);
        let ghost s1 = *self;
        let n = mac.exprs.len();
        let mut i: usize = 0;
        while i < n
            invariant
                i <= n,
                n == mac.exprs@.len(),
                keeps(s1, *self),
                self.fv() == l_macro_fold(s1.fv(), mac.exprs@, mac.seps@, i as int),
            decreases n - i,
        {
            if i > 0 && i - 1 < mac.seps.len() {
                let sep = &mac.seps[i - 1];
                if sep.is_sep {
                    let s = display_expr(&mac.exprs[i]);
                    self.insert_sep(sep.s, mac.exprs[i].loc.nl, s.as_str());
                } else {
                    self.raw_insert(sep.s);
                }
            }
            self.fmt_expr(&mac.exprs[i]);
            i = i + 1;
        }
        self.close_list(close);
    }
}

/// Formats the crate, placing the leading comments (by the position of the
/// node they stand before) and the trailing comments (by the position where
/// the node they follow ends).
///
/// The result is the layout of the crate (`l_crate_body`) from the start
/// state, followed by the leading comments that no node took, each at its
/// position in some order; only those past the end of the crate are written.
/// The text is empty or ends with a newline.
pub fn fmt(
    krate: Crate,
    leading_cmnts: HashMap<Pos, Vec<String>>,
    trailing_cmnts: HashMap<Pos, String>,
) -> (r: TsResult)
    ensures
        r.s@.len() == 0 || r.s@.last() == ts::NL,
        exists|order: Seq<Pos>|
            #![trigger order.to_set()]
            {
                let st = st_formatted(krate, leading_cmnts@, trailing_cmnts@, order);
                &&& order.no_duplicates()
                &&& order.to_set() == l_crate_body(
                    f_start(leading_cmnts@, trailing_cmnts@),
                    krate,
                ).leading.dom()
                &&& r.s@ == st.text
                &&& r.exceed_lines@ == st.exceed
                &&& r.trailing_ws_lines@ == st.trailing
            },
{
    let ghost lead = leading_cmnts@;
    let ghost trail = trailing_cmnts@;
    let mut f = Formatter::new(leading_cmnts, trailing_cmnts);
    f.fmt_crate(&krate);
    f.ts.result()
}

} // verus!
