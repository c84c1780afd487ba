//! The parts of building the IR from the parser's output that do not depend
//! on the parser: the comment list and its blank lines, the
//! distribution of comments to the nodes they stand before or after, and the
//! texts built from names and source snippets.

use std::collections::HashMap;
use crate::ast;
use crate::ir::{
    AngleParam, Arg, Arm, ArrayType, Attr, AttrKind, BareFnType, Block, BlockExpr, BreakExpr, CastExpr, Chunk, ClosureExpr, Comment, CommentKind, Const, ConstTraitItem, ContinueExpr, Crate, Enum, EnumBody, EnumField, EnumPatten, Existential, ExistentialImplItem, Expr, ExprKind, ExternCrate, FieldExpr, Fn, FnCallExpr, FnHeader, FnSig, ForExpr, ForeignFn, ForeignItem, ForeignKind, ForeignMod, ForeignStatic, Generics, IdentPatten, IfExpr, Impl, ImplItem, ImplItemKind, IndexExpr, Item, ItemKind, Let, LetExpr, LifetimeDef, ListOpExpr, Loc, LoopExpr, Macro, MacroDef, MacroSep, MacroStmt, MacroStyle, MatchExpr, MetaItem, MethodCallExpr, MethodImplItem, MethodSig, MethodTraitItem, Mod, ModDecl, ParenParam, Path, PathParam, PathSegment, PathType, Patten, PattenKind, PolyTraitRef, Pos, PtrType, QSelf, RangeExpr, RangePatten, RefExpr, RefPatten, RefType, RepeatExpr, Return, ReturnExpr, SlicePatten, SliceType, Static, Stmt, StmtKind, Struct, StructBody, StructExpr, StructField, StructFieldExpr, StructFieldPatten, StructPatten, Trait, TraitAlias, TraitItem, TraitItemKind, TraitType, TupleField, TuplePatten, TupleType, Type, TypeAlias, TypeBinding, TypeBindingKind, TypeExpr, TypeImplItem, TypeKind, TypeParam, TypeParamBound, TypeParamBounds, TypeTraitItem, UnaryOpExpr, Union, Use, UseTree, Where, WhereBound, WhereClause, WhereKind, WhileExpr,
};
use crate::translation::{
    loc_of, nl_at, source_snippet, t_arm, t_arms, t_attr, t_attrs, t_block, t_bound, t_bounds,
    t_constraint, t_constraints, t_crate, t_expr, t_expr_kind, t_exprs, t_field_defs, t_field_pats,
    t_fields, t_fn_decl, t_foreign_item, t_foreign_items, t_generic_args, t_generics, t_impl_item,
    t_impl_items, t_item, t_item_kind, t_items, t_lifetime_def, t_lifetime_defs, t_lifetimes,
    t_local, t_mac, t_meta_item, t_mod, t_nested_meta_items, t_opt_expr, t_pat, t_pats, t_path,
    t_poly_trait_ref, t_qself, t_segment, t_segments, t_stmt, t_stmts, t_trait_item, t_trait_items,
    t_tuple_field_defs, t_type, t_type_param, t_type_params, t_types, t_use_tree, t_use_trees,
    t_variant, t_variant_data, t_variants, t_where_pred, t_where_preds, t_arg_lifetimes,
    t_arg_types, t_args, tr_close, tr_leaf, tr_open, meta_span, TrState,
};
use crate::translation::{
    gives_arm, gives_arms, gives_attr, gives_attrs, gives_block, gives_bound, gives_bounds,
    gives_constraint, gives_constraints, gives_expr, gives_expr_kind, gives_exprs, gives_field_defs,
    gives_field_pats, gives_fields, gives_fn_decl, gives_foreign_item, gives_foreign_items,
    gives_generic_args, gives_generics, gives_impl_item, gives_impl_items, gives_item,
    gives_item_kind, gives_items, gives_label, gives_lifetime, gives_lifetime_def,
    gives_lifetime_defs, gives_lifetimes, gives_local, gives_mac, gives_meta, gives_mod,
    gives_nested_metas, gives_opt_expr, gives_pat, gives_pats, gives_path, gives_poly_trait_ref,
    gives_qself, gives_segment, gives_segments, gives_sep, gives_stmt, gives_stmts,
    gives_trait_item, gives_trait_items, gives_tuple_field_defs, gives_type, gives_type_param,
    gives_type_params, gives_types, gives_use_tree_parts, gives_use_trees, gives_variant,
    gives_variant_data, gives_variants, gives_where_pred, gives_where_preds, gives_arg_lifetimes,
    gives_arg_types, gives_args, gives_crate, gives_header, path_text, return_nl,

};
use crate::ft::strings_view;
use crate::ts::is_ws;
use vstd::prelude::*;

verus! {

broadcast use {
    vstd::std_specs::hash::group_hash_axioms,
    vstd::string::group_string_axioms,
};

/// At most this many blank lines in a row are kept.
pub const MAX_BLANK_LINE: u8 = 1;

// ---------------------------------------------------------------------------
// The comment list
// ---------------------------------------------------------------------------

/// How a comment stands in the source, as the parser reports it.
#[derive(Clone, Copy, Debug, PartialEq, Eq, Structural)]
pub enum CommentStyle {
    /// On lines of its own.
    Isolated,
    /// After code, to the end of the line.
    Trailing,
    /// Between code on one line.
    Mixed,
    /// A blank line.
    BlankLine,
}

/// A comment as the parser reports it: its style, its position and its lines.
#[derive(Debug)]
pub struct RawComment {
    pub style: CommentStyle,
    pub pos: Pos,
    pub lines: Vec<String>,
}

/// A trailing comment stays trailing; every other style leads the next node.
pub open spec fn comment_kind(style: CommentStyle) -> CommentKind {
    if style == CommentStyle::Trailing {
        CommentKind::Trailing
    } else {
        CommentKind::Leading
    }
}

/// What a comment holds: its position, its kind and the text of its lines.
pub open spec fn comment_view(c: Comment) -> (Pos, CommentKind, Seq<Seq<char>>) {
    (c.pos, c.kind, strings_view(c.lines@))
}

pub open spec fn comments_view(cs: Seq<Comment>) -> Seq<(Pos, CommentKind, Seq<Seq<char>>)> {
    cs.map_values(|c: Comment| comment_view(c))
}

pub open spec fn raw_view(c: RawComment) -> (Pos, CommentKind, Seq<Seq<char>>) {
    (c.pos, comment_kind(c.style), strings_view(c.lines@))
}

/// The state of the scan over the comment list: the position of the last
/// blank line, the number of blank lines in a row (counted up to 255), and
/// the comments kept so far.
pub open spec fn blank_scan(cs: Seq<RawComment>) -> (int, int, Seq<(Pos, CommentKind, Seq<Seq<char>>)>)
    decreases cs.len(),
{
    if cs.len() == 0 {
        (0, 0, Seq::empty())
    } else {
        let (pre, blank, out) = blank_scan(cs.drop_last());
        let c = cs.last();
        if c.style == CommentStyle::BlankLine {
            if c.pos != pre + 1 {
                (c.pos as int, 1, out.push(raw_view(c)))
            } else {
                let b = if blank < 255 {
                    blank + 1
                } else {
                    255
                };
                (c.pos as int, b, if b <= MAX_BLANK_LINE {
                    out.push(raw_view(c))
                } else {
                    out
                })
            }
        } else {
            (pre, 0, out.push(raw_view(c)))
        }
    }
}

/// The comments in their order, with each run of blank lines (blank lines
/// at consecutive positions) cut to its first `MAX_BLANK_LINE`.
pub fn trans_comments(cmnts: Vec<RawComment>) -> (r: Vec<Comment>)
    ensures
        comments_view(r@) == blank_scan(cmnts@).2,
{
    let ghost cs = cmnts@;
    let mut pre_blank_line_pos: Pos = 0;
    let mut blank_line: u8 = 0;
    let mut out: Vec<Comment> = Vec::new();
    let mut rest = cmnts;
    let n = rest.len();
    let mut k: usize = 0;
    assert(cs.take(0) =~= Seq::<RawComment>::empty());
    assert(cs.skip(0) =~= cs);
    while rest.len() > 0
        invariant
            n == cs.len(),
            k <= n,
            rest@ == cs.skip(k as int),
            blank_scan(cs.take(k as int)) == (pre_blank_line_pos as int, blank_line as int, comments_view(out@)),
        decreases rest@.len(),
    {
        let cmnt = rest.remove(0);
        proof {
            assert(cmnt == cs[k as int]);
            assert(cs.take(k + 1).drop_last() =~= cs.take(k as int));
            assert(cs.take(k + 1).last() == cs[k as int]);
            assert(rest@ =~= cs.skip(k + 1));
        }
        let ghost before = out@;
        if cmnt.style == CommentStyle::BlankLine {
            let cur_pos = cmnt.pos;
            if cur_pos as u64 != pre_blank_line_pos as u64 + 1 {
                blank_line = 1;
                out.push(trans_comment(cmnt));
            } else {
                blank_line = blank_line.saturating_add(1);
                if blank_line <= MAX_BLANK_LINE {
                    out.push(trans_comment(cmnt));
                }
            }
            pre_blank_line_pos = cur_pos;
        } else {
            blank_line = 0;
            out.push(trans_comment(cmnt));
        }
        proof {
            assert(comments_view(out@) =~= comments_view(before).push(raw_view(cs[k as int]))
                || comments_view(out@) =~= comments_view(before));
            if out@.len() > before.len() {
                assert(comments_view(out@) =~= comments_view(before).push(raw_view(cs[k as int])));
            } else {
                assert(comments_view(out@) =~= comments_view(before));
            }
        }
        k = k + 1;
    }
    assert(cs.take(n as int) =~= cs);
    out
}

fn trans_comment(cmnt: RawComment) -> (c: Comment)
    ensures
        comment_view(c) == raw_view(cmnt),
{
    let kind = match cmnt.style {
        CommentStyle::Trailing => CommentKind::Trailing,
        _ => CommentKind::Leading,
    };
    Comment { pos: cmnt.pos, kind, lines: cmnt.lines }
}

// ---------------------------------------------------------------------------
// Handing the comments to the nodes
// ---------------------------------------------------------------------------

/// What a comment tracker holds: the comments, the position of the next one
/// to hand out, where the last node ended, and the comments handed out so
/// far, by position.
pub struct TrackerView {
    pub cmnts: Seq<(Pos, CommentKind, Seq<Seq<char>>)>,
    pub idx: int,
    pub last_end: Pos,
    pub leading: Map<Pos, Seq<Seq<char>>>,
    pub trailing: Map<Pos, Seq<char>>,
}

/// The comments of a file, handed out in the order of their positions: a
/// trailing comment to the end of the node before it, the others (and the
/// further lines of a trailing comment) to the start of the node after them.
pub struct CommentTracker {
    cmnts: Vec<Comment>,
    cmnt_idx: usize,
    last_loc: Loc,
    leading_cmnts: HashMap<Pos, Vec<String>>,
    trailing_cmnts: HashMap<Pos, String>,
}

impl View for CommentTracker {
    type V = TrackerView;

    closed spec fn view(&self) -> TrackerView {
        TrackerView {
            cmnts: comments_view(self.cmnts@),
            idx: self.cmnt_idx as int,
            last_end: self.last_loc.end,
            leading: self.leading_cmnts@.map_values(|v: Vec<String>| strings_view(v@)),
            trailing: self.trailing_cmnts@.map_values(|s: String| s@),
        }
    }
}

/// Every trailing comment has a line.
pub open spec fn trailing_have_lines(cs: Seq<(Pos, CommentKind, Seq<Seq<char>>)>) -> bool {
    forall|i: int| 0 <= i < cs.len() && (#[trigger] cs[i]).1 == CommentKind::Trailing ==> cs[i].2.len() > 0
}

/// From comment `from` on, the comments before `pos`: where they stop, and
/// their lines, an empty line standing for a comment without lines.
pub open spec fn collect_leading(cs: Seq<(Pos, CommentKind, Seq<Seq<char>>)>, from: int, pos: Pos) -> (int, Seq<Seq<char>>)
    decreases cs.len() - from,
{
    if from < 0 || from >= cs.len() || cs[from].0 >= pos {
        (from, Seq::empty())
    } else {
        let lines = if cs[from].2.len() == 0 {
            seq![Seq::<char>::empty()]
        } else {
            cs[from].2
        };
        let (stop, rest) = collect_leading(cs, from + 1, pos);
        (stop, lines + rest)
    }
}

/// The next comment is a trailing one before `pos`.
pub open spec fn trailing_due(v: TrackerView, pos: Pos) -> bool {
    &&& 0 <= v.idx < v.cmnts.len()
    &&& v.cmnts[v.idx].0 < pos
    &&& v.cmnts[v.idx].1 == CommentKind::Trailing
}

/// The tracker after handing out the comments before `pos`: a trailing
/// comment first (its first line to the end of the last node), then all the
/// comments before `pos`, their lines to `pos`.
pub open spec fn hand_out(v: TrackerView, pos: Pos) -> TrackerView {
    let t = trailing_due(v, pos);
    let i1 = if t {
        v.idx + 1
    } else {
        v.idx
    };
    let first = if t {
        v.cmnts[v.idx].2.skip(1)
    } else {
        Seq::empty()
    };
    let (stop, more) = collect_leading(v.cmnts, i1, pos);
    let lines = first + more;
    TrackerView {
        idx: stop,
        trailing: if t {
            v.trailing.insert(v.last_end, v.cmnts[v.idx].2[0])
        } else {
            v.trailing
        },
        leading: if lines.len() > 0 {
            v.leading.insert(pos, lines)
        } else {
            v.leading
        },
        ..v
    }
}

/// Collecting stops at the end of the list or at a comment at or after `pos`,
/// never before `from`.
pub proof fn law_collect_leading_stops(cs: Seq<(Pos, CommentKind, Seq<Seq<char>>)>, from: int, pos: Pos)
    requires
        0 <= from <= cs.len(),
    ensures
        from <= collect_leading(cs, from, pos).0 <= cs.len(),
        collect_leading(cs, from, pos).0 == cs.len() || cs[collect_leading(cs, from, pos).0].0 >= pos,
    decreases cs.len() - from,
{
    if from < cs.len() && cs[from].0 < pos {
        law_collect_leading_stops(cs, from + 1, pos);
    }
}

impl CommentTracker {
    pub closed spec fn wf(&self) -> bool {
        &&& self.cmnt_idx <= self.cmnts@.len()
        &&& trailing_have_lines(self@.cmnts)
    }

    /// A tracker for the comments `cmnts`, none handed out yet.
    pub fn new(cmnts: Vec<Comment>) -> (t: CommentTracker)
        requires
            trailing_have_lines(comments_view(cmnts@)),
        ensures
            t.wf(),
            t@.cmnts == comments_view(cmnts@),
            t@.idx == 0,
            t@.last_end == 0,
            t@.leading.is_empty(),
            t@.trailing.is_empty(),
    {
        let t = CommentTracker {
            cmnts,
            cmnt_idx: 0,
            last_loc: Loc::default(),
            leading_cmnts: HashMap::new(),
            trailing_cmnts: HashMap::new(),
        };
        assert(t@.leading =~= Map::empty());
        assert(t@.trailing =~= Map::empty());
        t
    }

    /// Where the last node ended.
    pub fn last_end(&self) -> (p: Pos)
        ensures
            p == self@.last_end,
    {
        self.last_loc.end
    }

    /// Hands out the comments before `pos`. Afterwards no comment before
    /// `pos` is left to hand out (comments come in the order of their
    /// positions), and none is handed out twice.
    pub fn trans_comments(&mut self, pos: Pos)
        requires
            old(self).wf(),
        ensures
            final(self).wf(),
            final(self)@ == hand_out(old(self)@, pos),
            old(self)@.idx <= final(self)@.idx,
            final(self)@.idx == final(self)@.cmnts.len() || final(self)@.cmnts[final(self)@.idx].0 >= pos,
    {
        let ghost v0 = self@;
        let cmnts = self.trans_trailing_comments(pos);
        let ghost v1 = self@;
        self.trans_leading_comments(pos, cmnts);
        proof {
            let i1 = v1.idx;
            law_collect_leading_stops(v0.cmnts, i1, pos);
            assert(self@ =~= hand_out(v0, pos));
        }
    }

    fn trans_trailing_comments(&mut self, pos: Pos) -> (r: Vec<String>)
        requires
            old(self).wf(),
        ensures
            final(self).wf(),
            strings_view(r@) == (if trailing_due(old(self)@, pos) {
                old(self)@.cmnts[old(self)@.idx].2.skip(1)
            } else {
                Seq::empty()
            }),
            final(self)@ == (TrackerView {
                idx: if trailing_due(old(self)@, pos) {
                    old(self)@.idx + 1
                } else {
                    old(self)@.idx
                },
                trailing: if trailing_due(old(self)@, pos) {
                    old(self)@.trailing.insert(old(self)@.last_end, old(self)@.cmnts[old(self)@.idx].2[0])
                } else {
                    old(self)@.trailing
                },
                ..old(self)@
            }),
    {
        let mut cmnts: Vec<String> = Vec::new();
        if self.cmnt_idx >= self.cmnts.len() {
            assert(strings_view(cmnts@) =~= Seq::empty());
            return cmnts;
        }
        let idx = self.cmnt_idx;
        if self.cmnts[idx].pos >= pos || self.cmnts[idx].kind != CommentKind::Trailing {
            assert(strings_view(cmnts@) =~= Seq::empty());
            return cmnts;
        }
        self.cmnt_idx = idx + 1;
        proof {
            assert(self@.cmnts[idx as int] == comment_view(self.cmnts@[idx as int]));
            assert(self.cmnts@[idx as int].lines@.len() > 0);
        }
        let first = self.cmnts[idx].lines[0].clone();
        let end = self.last_loc.end;
        self.trailing_cmnts.insert(end, first);
        let n = self.cmnts[idx].lines.len();
        let mut k: usize = 1;
        while k < n
            invariant
                idx < self.cmnts@.len(),
                n == self.cmnts@[idx as int].lines@.len(),
                1 <= k <= n,
                strings_view(cmnts@) == strings_view(self.cmnts@[idx as int].lines@).subrange(1, k as int),
            decreases n - k,
        {
            let line = self.cmnts[idx].lines[k].clone();
            let ghost prev = cmnts@;
            cmnts.push(line);
            proof {
                let lv = strings_view(self.cmnts@[idx as int].lines@);
                assert(line@ == lv[k as int]);
                assert(strings_view(cmnts@) =~= strings_view(prev).push(line@));
                assert(lv.subrange(1, k + 1) =~= lv.subrange(1, k as int).push(lv[k as int]));
            }
            k = k + 1;
        }
        proof {
            let lv = strings_view(self.cmnts@[idx as int].lines@);
            assert(lv.subrange(1, n as int) =~= lv.skip(1));
            assert(self@.trailing =~= old(self)@.trailing.insert(old(self)@.last_end, lv[0]));
        }
        cmnts
    }

    fn trans_leading_comments(&mut self, pos: Pos, cmnts: Vec<String>)
        requires
            old(self).wf(),
        ensures
            final(self).wf(),
            ({
                let (stop, more) = collect_leading(old(self)@.cmnts, old(self)@.idx, pos);
                let lines = strings_view(cmnts@) + more;
                final(self)@ == (TrackerView {
                    idx: stop,
                    leading: if lines.len() > 0 {
                        old(self)@.leading.insert(pos, lines)
                    } else {
                        old(self)@.leading
                    },
                    ..old(self)@
                })
            }),
    {
        let ghost v0 = self@;
        let ghost start = cmnts@;
        let mut cmnts = cmnts;
        while self.cmnt_idx < self.cmnts.len()
            invariant_except_break
                self.wf(),
                self@.cmnts == v0.cmnts,
                self@.last_end == v0.last_end,
                self@.leading == v0.leading,
                self@.trailing == v0.trailing,
                v0.idx <= self@.idx,
                collect_leading(v0.cmnts, v0.idx, pos) == (collect_leading(v0.cmnts, self@.idx, pos).0,
                    strings_view(cmnts@).skip(start.len() as int) + collect_leading(v0.cmnts, self@.idx, pos).1),
                strings_view(cmnts@).take(start.len() as int) == strings_view(start),
                start.len() <= cmnts@.len(),
            ensures
                self.wf(),
                self@.cmnts == v0.cmnts,
                self@.last_end == v0.last_end,
                self@.leading == v0.leading,
                self@.trailing == v0.trailing,
                collect_leading(v0.cmnts, v0.idx, pos) == (self@.idx, strings_view(cmnts@).skip(start.len() as int)),
                strings_view(cmnts@).take(start.len() as int) == strings_view(start),
                start.len() <= cmnts@.len(),
            decreases self.cmnts@.len() - self.cmnt_idx,
        {
            let idx = self.cmnt_idx;
            if self.cmnts[idx].pos >= pos {
                proof {
                    assert(self@.cmnts[idx as int].0 >= pos);
                    assert(strings_view(cmnts@).skip(start.len() as int) + Seq::<Seq<char>>::empty() =~= strings_view(cmnts@).skip(start.len() as int));
                }
                break;
            }
            let ghost before = cmnts@;
            let ghost cv = self@.cmnts[idx as int];
            proof {
                assert(cv == comment_view(self.cmnts@[idx as int]));
            }
            let m = self.cmnts[idx].lines.len();
            if m == 0 {
                cmnts.push(String::new());
                proof {
                    assert(strings_view(cmnts@) =~= strings_view(before) + seq![Seq::<char>::empty()]);
                }
            } else {
                let mut k: usize = 0;
                while k < m
                    invariant
                        idx < self.cmnts@.len(),
                        m == self.cmnts@[idx as int].lines@.len(),
                        k <= m,
                        strings_view(cmnts@) == strings_view(before) + strings_view(self.cmnts@[idx as int].lines@).take(k as int),
                    decreases m - k,
                {
                    let line = self.cmnts[idx].lines[k].clone();
                    let ghost prev = cmnts@;
                    cmnts.push(line);
                    proof {
                        let lv = strings_view(self.cmnts@[idx as int].lines@);
                        assert(line@ == lv[k as int]);
                        assert(strings_view(cmnts@) =~= strings_view(prev).push(line@));
                        assert(lv.take(k + 1) =~= lv.take(k as int).push(lv[k as int]));
                        assert(strings_view(cmnts@) =~= strings_view(before) + lv.take(k + 1));
                    }
                    k = k + 1;
                }
                proof {
                    assert(strings_view(self.cmnts@[idx as int].lines@).take(m as int) =~= strings_view(self.cmnts@[idx as int].lines@));
                }
            }
            self.cmnt_idx = idx + 1;
            proof {
                let lines = if cv.2.len() == 0 {
                    seq![Seq::<char>::empty()]
                } else {
                    cv.2
                };
                assert(strings_view(cmnts@) == strings_view(before) + lines);
                let sl = start.len() as int;
                assert(strings_view(cmnts@).skip(sl) =~= strings_view(before).skip(sl) + lines);
                assert(strings_view(cmnts@).take(sl) =~= strings_view(before).take(sl));
                let rest = collect_leading(v0.cmnts, idx + 1, pos);
                assert(collect_leading(v0.cmnts, idx as int, pos) == (rest.0, lines + rest.1));
                assert(strings_view(before).skip(sl) + (lines + rest.1) =~= strings_view(cmnts@).skip(sl) + rest.1);
            }
        }
        proof {
            if self.cmnt_idx >= self.cmnts@.len() {
            }
        }
        let ghost collected = strings_view(cmnts@);
        if !cmnts.is_empty() {
            self.leading_cmnts.insert(pos, cmnts);
        }
        proof {
            let (stop, more) = collect_leading(v0.cmnts, v0.idx, pos);
            let sl = start.len() as int;
            assert(collected =~= strings_view(start) + more) by {
                assert(collected =~= collected.take(sl) + collected.skip(sl));
            }
            if collected.len() > 0 {
                assert(self@.leading =~= v0.leading.insert(pos, collected));
            } else {
                assert(self@.leading =~= v0.leading);
            }
        }
    }

    /// The location of a node that starts at `start` (handing out the comments
    /// before it) and ends at `end`; `nl` tells whether it starts a line.
    pub fn loc(&mut self, start: Pos, end: Pos, nl: bool) -> (loc: Loc)
        requires
            old(self).wf(),
        ensures
            final(self).wf(),
            final(self)@ == hand_out(old(self)@, start),
            loc.start == start,
            loc.end == end,
            loc.nl == nl,
    {
        self.trans_comments(start);
        Loc { start, end, nl }
    }

    /// Closes the node at `loc`: hands out the comments before its end, and
    /// remembers where it ended.
    pub fn set_loc(&mut self, loc: &Loc)
        requires
            old(self).wf(),
        ensures
            final(self).wf(),
            final(self)@ == (TrackerView { last_end: loc.end, ..hand_out(old(self)@, loc.end) }),
    {
        self.trans_comments(loc.end);
        self.last_loc = *loc;
    }

    /// The location of a node without children: opened and closed at once.
    pub fn leaf_loc(&mut self, start: Pos, end: Pos, nl: bool) -> (loc: Loc)
        requires
            old(self).wf(),
        ensures
            final(self).wf(),
            final(self)@ == (TrackerView { last_end: end, ..hand_out(hand_out(old(self)@, start), end) }),
            loc.start == start,
            loc.end == end,
            loc.nl == nl,
    {
        let loc = self.loc(start, end, nl);
        self.set_loc(&loc);
        loc
    }

    /// Hands out the comments before the end of the file, and gives the
    /// leading and the trailing comments by position.
    pub fn finish(self, file_end: Pos) -> (r: (HashMap<Pos, Vec<String>>, HashMap<Pos, String>))
        requires
            self.wf(),
        ensures
            r.0@.map_values(|v: Vec<String>| strings_view(v@)) == hand_out(self@, file_end).leading,
            r.1@.map_values(|s: String| s@) == hand_out(self@, file_end).trailing,
    {
        let mut t = self;
        t.trans_comments(file_end);
        (t.leading_cmnts, t.trailing_cmnts)
    }
}

// ---------------------------------------------------------------------------
// Texts from source snippets and names
// ---------------------------------------------------------------------------

/// The text ends a line and then holds only whitespace: the node that
/// follows it starts a line of its own.
pub open spec fn is_nl_text(s: Seq<char>) -> bool {
    exists|k: int| 0 <= k < s.len() && s[k] == NL && forall|j: int| k < j < s.len() ==> #[trigger] is_ws(s[j])
}

pub const NL: char = '\n';

/// Whether the source between the last node and the next one has a line
/// break after which only whitespace follows.
pub fn is_nl_snippet(snippet: &str) -> (b: bool)
    ensures
        b == is_nl_text(snippet@),
{
    let n = snippet.unicode_len();
    let mut i: usize = n;
    while i > 0
        invariant
            n == snippet@.len(),
            i <= n,
            forall|j: int| i <= j < n ==> is_ws(#[trigger] snippet@[j]) && snippet@[j] != NL,
        decreases i,
    {
        let c = snippet.get_char(i - 1);
        if c == NL {
            proof {
                assert(forall|j: int| i - 1 < j < n ==> #[trigger] is_ws(snippet@[j]));
            }
            return true;
        }
        if !crate::ts::is_whitespace(c) {
            proof {
                assert forall|k: int| 0 <= k < n && snippet@[k] == NL implies !(forall|j: int|
                    k < j < n ==> #[trigger] is_ws(snippet@[j])) by {
                    if k < i - 1 {
                        assert(!is_ws(snippet@[i - 1]));
                    } else if k >= i {
                        assert(is_ws(snippet@[k]) && snippet@[k] != NL);
                    }
                }
            }
            return false;
        }
        i = i - 1;
    }
    proof {
        assert forall|k: int| 0 <= k < n implies snippet@[k] != NL by {
            assert(is_ws(snippet@[k]) && snippet@[k] != NL);
        }
    }
    false
}

/// The position of the first `c` in `s`, or the length of `s` where there is none.
pub open spec fn first_index(s: Seq<char>, c: char) -> int
    decreases s.len(),
{
    if s.len() == 0 {
        0
    } else if s[0] == c {
        0
    } else {
        1 + first_index(s.drop_first(), c)
    }
}

fn first_index_exec(s: &str, c: char) -> (r: usize)
    ensures
        r == first_index(s@, c),
{
    let n = s.unicode_len();
    let mut i: usize = 0;
    assert(s@.skip(0) =~= s@);
    while i < n
        invariant
            n == s@.len(),
            i <= n,
            first_index(s@, c) == i + first_index(s@.skip(i as int), c),
        decreases n - i,
    {
        if s.get_char(i) == c {
            return i;
        }
        assert(s@.skip(i as int).drop_first() =~= s@.skip(i + 1));
        i = i + 1;
    }
    i
}

/// The delimiters of a macro call: those of the first of `(`, `[` and `{`
/// in its source.
pub open spec fn spec_macro_style(s: Seq<char>) -> MacroStyle {
    let paren = first_index(s, '(');
    let bracket = first_index(s, '[');
    let brace = first_index(s, '{');
    if paren < bracket && paren < brace {
        MacroStyle::Paren
    } else if bracket < brace {
        MacroStyle::Bracket
    } else {
        MacroStyle::Brace
    }
}

/// The delimiters of a macro call, from its source text.
pub fn macro_style(snippet: &str) -> (m: MacroStyle)
    ensures
        m == spec_macro_style(snippet@),
{
    let paren = first_index_exec(snippet, '(');
    let bracket = first_index_exec(snippet, '[');
    let brace = first_index_exec(snippet, '{');
    if paren < bracket && paren < brace {
        MacroStyle::Paren
    } else if bracket < brace {
        MacroStyle::Bracket
    } else {
        MacroStyle::Brace
    }
}

/// The name of the crate's module: its file name up to the last dot.
pub open spec fn spec_crate_mod_name(file_name: Seq<char>) -> Seq<char> {
    if exists|k: int| 0 <= k < file_name.len() && file_name[k] == '.' {
        let k = choose|k: int|
            0 <= k < file_name.len() && file_name[k] == '.' && forall|j: int| k < j < file_name.len() ==> file_name[j] != '.';
        file_name.take(k)
    } else {
        file_name
    }
}

/// The name of the crate's module, from the name of its file.
pub fn crate_mod_name(file_name: &str) -> (r: String)
    ensures
        r@ == spec_crate_mod_name(file_name@),
{
    let n = file_name.unicode_len();
    let mut i: usize = n;
    while i > 0
        invariant
            n == file_name@.len(),
            i <= n,
            forall|j: int| i <= j < n ==> file_name@[j] != '.',
        decreases i,
    {
        if file_name.get_char(i - 1) == '.' {
            let k = i - 1;
            proof {
                let fv = file_name@;
                assert(0 <= k < fv.len() && fv[k as int] == '.');
                let k2 = choose|k: int|
                    0 <= k < fv.len() && fv[k] == '.' && forall|j: int| k < j < fv.len() ==> fv[j] != '.';
                assert(k2 == k) by {
                    if k2 < k {
                        assert(fv[k as int] != '.');
                    } else if k2 > k {
                        assert(fv[k2] != '.');
                    }
                }
            }
            return file_name.substring_char(0, k).to_owned();
        }
        i = i - 1;
    }
    file_name.to_owned()
}

/// The strings joined by `sep`.
pub open spec fn join(v: Seq<Seq<char>>, sep: Seq<char>) -> Seq<char>
    decreases v.len(),
{
    if v.len() == 0 {
        Seq::empty()
    } else if v.len() == 1 {
        v[0]
    } else {
        join(v.drop_last(), sep) + sep + v.last()
    }
}

/// A path from the names of its segments, joined by `::` (the root segment
/// has an empty name).
pub fn path_to_string(segments: &Vec<String>) -> (r: String)
    ensures
        r@ == join(strings_view(segments@), "::"@),
{
    let ghost sv = strings_view(segments@);
    let mut r = String::new();
    let n = segments.len();
    let mut i: usize = 0;
    while i < n
        invariant
            n == segments@.len(),
            sv == strings_view(segments@),
            i <= n,
            r@ == join(sv.take(i as int), "::"@),
        decreases n - i,
    {
        if i > 0 {
            r.append("::");
        }
        r.append(segments[i].as_str());
        proof {
            assert(sv.take(i + 1).drop_last() =~= sv.take(i as int));
            assert(sv.take(i + 1).last() == segments@[i as int]@);
            if i == 0 {
                assert(r@ =~= segments@[0]@);
            }
        }
        i = i + 1;
    }
    assert(sv.take(n as int) =~= sv);
    r
}

/// A visibility, as the parser reports it.
#[derive(Debug)]
pub enum VisKind {
    Public,
    PubCrate,
    JustCrate,
    /// `pub(in path)`, with the path's text.
    Restricted(String),
    Inherited,
}

pub open spec fn spec_vis(v: VisKind) -> Seq<char> {
    match v {
        VisKind::Public => "pub"@,
        VisKind::PubCrate => "pub(crate)"@,
        VisKind::JustCrate => "crate"@,
        VisKind::Restricted(p) => if p@ == "self"@ || p@ == "super"@ {
            "pub("@ + p@ + ")"@
        } else {
            "pub(in "@ + p@ + ")"@
        },
        VisKind::Inherited => Seq::empty(),
    }
}

/// The text of a visibility; empty where none is written.
pub fn trans_vis(vis: &VisKind) -> (r: String)
    ensures
        r@ == spec_vis(*vis),
{
    match vis {
        VisKind::Public => "pub".to_owned(),
        VisKind::PubCrate => "pub(crate)".to_owned(),
        VisKind::JustCrate => "crate".to_owned(),
        VisKind::Restricted(path) => {
            let mut r = String::new();
            if crate::display::str_eq(path.as_str(), "self") || crate::display::str_eq(path.as_str(), "super") {
                r.append("pub(");
            } else {
                r.append("pub(in ");
            }
            r.append(path.as_str());
            r.append(")");
            r
        },
        VisKind::Inherited => String::new(),
    }
}

/// The name of an `extern crate` item: `orig as name` where the crate is
/// renamed.
pub fn extern_crate_name(ident: String, rename: &Option<String>) -> (r: String)
    ensures
        r@ == match rename {
            Some(orig) => orig@ + " as "@ + ident@,
            None => ident@,
        },
{
    match rename {
        Some(orig) => {
            let mut r = orig.clone();
            r.append(" as ");
            r.append(ident.as_str());
            r
        },
        None => ident,
    }
}

/// The path of a simple `use` tree: the prefix, and ` as name` where it is renamed.
pub fn use_simple_path(prefix: &Vec<String>, rename: &Option<String>) -> (r: String)
    ensures
        r@ == join(strings_view(prefix@), "::"@) + match rename {
            Some(n) => " as "@ + n@,
            None => Seq::<char>::empty(),
        },
{
    let mut path = path_to_string(prefix);
    if let Some(name) = rename {
        path.append(" as ");
        path.append(name.as_str());
    }
    path
}

/// The path of a glob `use` tree: the prefix and `::` where there is one, then `*`.
pub fn use_glob_path(prefix: &Vec<String>) -> (r: String)
    ensures
        r@ == (if prefix@.len() > 0 {
            join(strings_view(prefix@), "::"@) + "::"@
        } else {
            Seq::<char>::empty()
        }) + "*"@,
{
    let mut path = String::new();
    if prefix.len() > 0 {
        let p = path_to_string(prefix);
        path.append(p.as_str());
        path.append("::");
    }
    path.append("*");
    path
}

/// The value of a `name = value` attribute item, written as one name.
pub fn name_value(name: &str, value: &str) -> (r: String)
    ensures
        r@ == name@ + " = "@ + value@,
{
    let mut r = name.to_owned();
    r.append(" = ");
    r.append(value);
    r
}

/// The tokens that separate the arguments of a macro call.
#[derive(Clone, Copy, Debug)]
pub enum SepToken {
    Comma,
    Semi,
    FatArrow,
    DotDotDot,
}

pub fn token_to_macro_sep(token: SepToken) -> (sep: MacroSep)
    ensures
        match token {
            SepToken::Comma => sep.is_sep && sep.s@ == ","@,
            SepToken::Semi => sep.is_sep && sep.s@ == ";"@,
            SepToken::FatArrow => sep.is_sep && sep.s@ == " =>"@,
            SepToken::DotDotDot => !sep.is_sep && sep.s@ == "..."@,
        },
{
    let (is_sep, s) = match token {
        SepToken::Comma => (true, ","),
        SepToken::Semi => (true, ";"),
        SepToken::FatArrow => (true, " =>"),
        SepToken::DotDotDot => (false, "..."),
    };
    MacroSep { is_sep, s }
}

/// How a method takes `self`, as the parser reports it.
#[derive(Clone, Copy, Debug, PartialEq, Eq, Structural)]
pub enum SelfKind {
    /// `self` or `mut self`.
    Value,
    /// `&self` or `&mut self`.
    Region,
    /// `self: Type`.
    Explicit,
}

/// Whether an argument is written with its pattern: not `self` by value or
/// by reference (written as the pattern alone), and not an argument with an
/// empty name.
pub open spec fn spec_has_patten(self_kind: Option<SelfKind>, patten: Patten) -> bool {
    match self_kind {
        Some(SelfKind::Value) | Some(SelfKind::Region) => false,
        _ => match patten.patten {
            PattenKind::Ident(i) => i.name@.len() > 0,
            _ => true,
        },
    }
}

pub fn has_patten(self_kind: Option<SelfKind>, patten: &Patten) -> (b: bool)
    ensures
        b == spec_has_patten(self_kind, *patten),
{
    match self_kind {
        Some(SelfKind::Value) | Some(SelfKind::Region) => return false,
        _ => {},
    }
    match &patten.patten {
        PattenKind::Ident(ident) => !ident.name.as_str().is_empty(),
        _ => true,
    }
}

// ---------------------------------------------------------------------------
// The order of nested `use` trees
// ---------------------------------------------------------------------------

/// The tree's path starts with `self`.
pub open spec fn self_first(t: UseTree) -> bool {
    t.path@.len() >= 4 && t.path@.take(4) == "self"@
}

/// `a` may stand before `b`: trees whose path starts with `self` come first;
/// the others in ascending order of path.
pub open spec fn use_tree_le(a: UseTree, b: UseTree) -> bool {
    if self_first(a) {
        true
    } else if self_first(b) {
        false
    } else {
        !crate::ft::seq_lt(b.path@, a.path@)
    }
}

pub open spec fn use_trees_sorted(v: Seq<UseTree>) -> bool {
    forall|i: int, j: int| 0 <= i < j < v.len() ==> use_tree_le(#[trigger] v[i], #[trigger] v[j])
}

/// The order of trees is a total preorder.
pub proof fn law_use_tree_le(a: UseTree, b: UseTree, c: UseTree)
    ensures
        use_tree_le(a, b) || use_tree_le(b, a),
        use_tree_le(a, b) && use_tree_le(b, c) ==> use_tree_le(a, c),
{
    crate::ft::law_seq_lt_total(a.path@, b.path@);
    crate::ft::law_seq_lt_total(b.path@, c.path@);
    crate::ft::law_seq_lt_total(a.path@, c.path@);
    if !self_first(a) && !self_first(b) && !self_first(c) && use_tree_le(a, b) && use_tree_le(b, c) {
        if crate::ft::seq_lt(c.path@, a.path@) {
            if a.path@ != b.path@ {
                if b.path@ != c.path@ {
                    crate::ft::law_seq_lt_trans(a.path@, b.path@, c.path@);
                }
            }
        }
    }
}

fn starts_with_self(path: &str) -> (b: bool)
    ensures
        b == (path@.len() >= 4 && path@.take(4) == "self"@),
{
    proof {
        reveal_strlit("self");
    }
    if path.unicode_len() < 4 {
        return false;
    }
    let r = path.get_char(0) == 's' && path.get_char(1) == 'e' && path.get_char(2) == 'l'
        && path.get_char(3) == 'f';
    proof {
        if r {
            assert(path@.take(4) =~= "self"@);
        } else {
            if path@.take(4) == "self"@ {
                assert(path@.take(4)[0] == 's');
                assert(path@.take(4)[1] == 'e');
                assert(path@.take(4)[2] == 'l');
                assert(path@.take(4)[3] == 'f');
            }
        }
    }
    r
}

fn use_tree_le_exec(a: &UseTree, b: &UseTree) -> (r: bool)
    ensures
        r == use_tree_le(*a, *b),
{
    if starts_with_self(a.path.as_str()) {
        true
    } else if starts_with_self(b.path.as_str()) {
        false
    } else {
        !crate::ft::str_lt(b.path.as_str(), a.path.as_str())
    }
}

/// `out` holds the trees of `input`, the tree at `i` being the one at
/// `perm[i]`, and trees that are equal in the order of `use_tree_le` stand
/// in the order they had in `input`.
pub open spec fn keeps_order_of_equals(input: Seq<UseTree>, out: Seq<UseTree>, perm: Seq<int>) -> bool {
    &&& perm.len() == out.len()
    &&& forall|i: int| 0 <= i < perm.len() ==> 0 <= #[trigger] perm[i] < input.len() && out[i] == input[perm[i]]
    &&& forall|i: int, j: int| 0 <= i < j < perm.len() ==> #[trigger] perm[i] != #[trigger] perm[j]
    &&& forall|i: int, j: int|
        0 <= i < j < out.len() && use_tree_le(#[trigger] out[j], #[trigger] out[i]) ==> perm[i] < perm[j]
}

/// The nested trees of a `use` tree in their order: those whose path starts
/// with `self` first, then the others by path; trees that are equal in that
/// order keep their order.
pub fn sort_use_trees(trees: Vec<UseTree>) -> (r: Vec<UseTree>)
    ensures
        r@.to_multiset() == trees@.to_multiset(),
        use_trees_sorted(r@),
        r@.len() == trees@.len(),
        exists|perm: Seq<int>| keeps_order_of_equals(trees@, r@, perm),
{
    broadcast use vstd::seq_lib::group_to_multiset_ensures;
    let ghost input = trees@;
    let mut rest = trees;
    let mut out: Vec<UseTree> = Vec::new();
    let n = rest.len();
    let mut k: usize = 0;
    let ghost mut perm: Seq<int> = Seq::empty();
    assert(input.skip(0) =~= input);
    assert(input.take(0) =~= Seq::<UseTree>::empty());
    while rest.len() > 0
        invariant
            n == input.len(),
            k <= n,
            rest@ == input.skip(k as int),
            out@.to_multiset() == input.take(k as int).to_multiset(),
            use_trees_sorted(out@),
            out@.len() == k,
            keeps_order_of_equals(input, out@, perm),
            forall|i: int| 0 <= i < perm.len() ==> #[trigger] perm[i] < k,
        decreases rest@.len(),
    {
        let t = rest.remove(0);
        proof {
            assert(t == input[k as int]);
            assert(rest@ =~= input.skip(k + 1));
        }
        let mut p: usize = 0;
        while p < out.len() && !(use_tree_le_exec(&t, &out[p]) && !use_tree_le_exec(&out[p], &t))
            invariant
                p <= out@.len(),
                use_trees_sorted(out@),
                forall|i: int| 0 <= i < p ==> use_tree_le(#[trigger] out@[i], t),
            decreases out@.len() - p,
        {
            proof {
                law_use_tree_le(t, out@[p as int], t);
            }
            p = p + 1;
        }
        let ghost old_out = out@;
        let ghost old_perm = perm;
        out.insert(p, t);
        proof {
            perm = old_perm.insert(p as int, k as int);
            assert forall|i: int, j: int|
                0 <= i < j < out@.len() && use_tree_le(#[trigger] out@[j], #[trigger] out@[i]) implies perm[i] < perm[j] by {
                if i < p && j < p {
                    assert(out@[i] == old_out[i] && out@[j] == old_out[j]);
                } else if i < p && j > p {
                    assert(out@[i] == old_out[i] && out@[j] == old_out[j - 1]);
                } else if i > p {
                    assert(out@[i] == old_out[i - 1] && out@[j] == old_out[j - 1]);
                } else if i == p {
                    assert(out@[j] == old_out[j - 1]);
                    assert(use_tree_le(t, old_out[p as int]) && !use_tree_le(old_out[p as int], t));
                    if j - 1 > p {
                        assert(use_tree_le(old_out[p as int], old_out[j - 1]));
                    }
                    law_use_tree_le(old_out[p as int], old_out[j - 1], t);
                    assert(false);
                }
            }
            assert forall|i: int, j: int| 0 <= i < j < perm.len() implies #[trigger] perm[i] != #[trigger] perm[j] by {
                if i < p && j < p {
                } else if i < p && j > p {
                    assert(perm[j] == old_perm[j - 1]);
                } else if i > p {
                    assert(perm[i] == old_perm[i - 1] && perm[j] == old_perm[j - 1]);
                } else if i == p {
                    assert(perm[j] == old_perm[j - 1]);
                } else {
                    assert(perm[i] == old_perm[i]);
                }
            }
            assert forall|i: int| 0 <= i < perm.len() implies 0 <= #[trigger] perm[i] < input.len() && out@[i] == input[perm[i]] && perm[i] < k + 1 by {
                if i < p {
                    assert(perm[i] == old_perm[i] && out@[i] == old_out[i]);
                } else if i > p {
                    assert(perm[i] == old_perm[i - 1] && out@[i] == old_out[i - 1]);
                }
            }

            assert(input.take(k + 1) =~= input.take(k as int).push(t));
            assert(out@ == old_out.insert(p as int, t));
            vstd::seq_lib::to_multiset_insert(old_out, p as int, t);
            vstd::seq_lib::to_multiset_build(input.take(k as int), t);
            assert forall|i: int, j: int| 0 <= i < j < out@.len() implies use_tree_le(#[trigger] out@[i], #[trigger] out@[j]) by {
                if j == p {
                    assert(out@[i] == old_out[i]);
                } else if i == p {
                    assert(out@[j] == old_out[j - 1]);
                    assert(use_tree_le(t, old_out[p as int]));
                    if j - 1 > p {
                        assert(use_tree_le(old_out[p as int], old_out[j - 1]));
                        law_use_tree_le(t, old_out[p as int], old_out[j - 1]);
                    }
                } else if i < p && j > p {
                    assert(out@[i] == old_out[i]);
                    assert(out@[j] == old_out[j - 1]);
                    assert(use_tree_le(old_out[i], old_out[j - 1]));
                } else if i > p {
                    assert(out@[i] == old_out[i - 1]);
                    assert(out@[j] == old_out[j - 1]);
                    assert(use_tree_le(old_out[i - 1], old_out[j - 1]));
                } else {
                    assert(out@[i] == old_out[i]);
                    assert(out@[j] == old_out[j]);
                    assert(use_tree_le(old_out[i], old_out[j]));
                }
            }
        }
        k = k + 1;
    }
    assert(input.take(n as int) =~= input);
    assert(keeps_order_of_equals(input, out@, perm));
    out
}


// ---------------------------------------------------------------------------
// The translator: from the syntax tree to the IR
// ---------------------------------------------------------------------------

/// The source between the byte positions `lo` and `hi`, as `str::get` gives
/// it: nothing where the range is reversed, reaches past the end of the text,
/// or splits a character.
fn source_slice(src: &str, lo: usize, hi: usize) -> (r: Option<String>)
    ensures
        match r {
            Some(t) => source_snippet(src@, lo, hi) == Some(t@),
            None => source_snippet(src@, lo, hi) is None,
        },
{
    broadcast use vstd::utf8::encode_utf8_valid_utf8, vstd::utf8::encode_utf8_decode_utf8, vstd::utf8::decode_utf8_encode_utf8;
    let n = src.as_bytes().len();
    if lo <= hi && hi <= n && src.is_char_boundary(lo) && src.is_char_boundary(hi) {
        let ghost b = vstd::utf8::encode_utf8(src@);
        let (_, rest) = src.split_at(lo);
        proof {
            assert(vstd::utf8::encode_utf8(rest@) =~= b.subrange(lo as int, b.len() as int));
            vstd::utf8::valid_utf8_split(b, lo as int);
            let rb = vstd::utf8::encode_utf8(rest@);
            let k = (hi - lo) as int;
            assert(vstd::utf8::valid_utf8(b));
            assert(vstd::utf8::is_char_boundary(b, hi as int));
            assert(vstd::utf8::valid_utf8(rb));
            assert(rb.len() == b.len() - lo);
            if hi < n {
                assert(rb[k] == b[hi as int]);
                vstd::utf8::is_char_boundary_iff_not_is_continuation_byte(b, hi as int);
                vstd::utf8::is_char_boundary_iff_not_is_continuation_byte(rb, k);
            } else {
                vstd::utf8::is_char_boundary_start_end_of_seq(rb);
            }
            assert(vstd::utf8::is_char_boundary(rb, k));
        }
        let (mid, _) = rest.split_at(hi - lo);
        proof {
            assert(vstd::utf8::encode_utf8(mid@) =~= b.subrange(lo as int, hi as int));
            assert(mid@ == vstd::utf8::decode_utf8(vstd::utf8::encode_utf8(mid@)));
            assert(source_snippet(src@, lo, hi) == Some(vstd::utf8::decode_utf8(b.subrange(lo as int, hi as int))));
        }
        Some(mid.to_owned())
    } else {
        None
    }
}

/// The name of an identifier; the root of a global path has an empty name.
pub fn ident_to_string(ident: &ast::Ident) -> (r: String)
    ensures
        r@ == spec_ident(*ident),
{
    if crate::display::str_eq(ident.name.as_str(), "{{root}}") {
        String::new()
    } else {
        ident.name.clone()
    }
}

pub open spec fn spec_ident(ident: ast::Ident) -> Seq<char> {
    if ident.name@ == "{{root}}"@ {
        Seq::empty()
    } else {
        ident.name@
    }
}

/// The names of a path's segments.
fn segment_names(path: &ast::Path) -> (r: Vec<String>)
    ensures
        r@.len() == path.segments@.len(),
        forall|i: int| 0 <= i < r@.len() ==> #[trigger] r@[i]@ == spec_ident(path.segments@[i].ident),
{
    let mut r: Vec<String> = Vec::new();
    let n = path.segments.len();
    let mut i: usize = 0;
    while i < n
        invariant
            i <= n,
            n == path.segments@.len(),
            r@.len() == i,
            forall|k: int| 0 <= k < i ==> #[trigger] r@[k]@ == spec_ident(path.segments@[k].ident),
        decreases n - i,
    {
        r.push(ident_to_string(&path.segments[i].ident));
        i = i + 1;
    }
    r
}

/// A path's text: its segments' names joined by `::`.
fn path_string(path: &ast::Path) -> (r: String)
    ensures
        r@ == path_text(*path),
{
    let names = segment_names(path);
    proof {
        assert(strings_view(names@) =~= path.segments@.map_values(|g: ast::PathSegment| spec_ident(g.ident)));
    }
    path_to_string(&names)
}

/// An ABI's name, quoted.
pub fn abi_to_string(abi: &str) -> (r: String)
    ensures
        r@ == "\""@ + abi@ + "\""@,
{
    let mut r = String::new();
    r.append("\"");
    r.append(abi);
    r.append("\"");
    r
}

pub fn unop_to_string(op: ast::UnOp) -> (r: &'static str)
    ensures
        r@ == match op {
            ast::UnOp::Deref => "*"@,
            ast::UnOp::Not => "!"@,
            ast::UnOp::Neg => "-"@,
        },
{
    match op {
        ast::UnOp::Deref => "*",
        ast::UnOp::Not => "!",
        ast::UnOp::Neg => "-",
    }
}

pub fn binop_to_string(op: ast::BinOpKind) -> (r: &'static str)
    ensures
        r@ == spec_binop(op),
{
    match op {
        ast::BinOpKind::Add => "+",
        ast::BinOpKind::Sub => "-",
        ast::BinOpKind::Mul => "*",
        ast::BinOpKind::Div => "/",
        ast::BinOpKind::Rem => "%",
        ast::BinOpKind::And => "&&",
        ast::BinOpKind::Or => "||",
        ast::BinOpKind::BitXor => "^",
        ast::BinOpKind::BitAnd => "&",
        ast::BinOpKind::BitOr => "|",
        ast::BinOpKind::Shl => "<<",
        ast::BinOpKind::Shr => ">>",
        ast::BinOpKind::Eq => "==",
        ast::BinOpKind::Lt => "<",
        ast::BinOpKind::Le => "<=",
        ast::BinOpKind::Ne => "!=",
        ast::BinOpKind::Ge => ">=",
        ast::BinOpKind::Gt => ">",
    }
}

pub open spec fn spec_binop(op: ast::BinOpKind) -> Seq<char> {
    match op {
        ast::BinOpKind::Add => "+"@,
        ast::BinOpKind::Sub => "-"@,
        ast::BinOpKind::Mul => "*"@,
        ast::BinOpKind::Div => "/"@,
        ast::BinOpKind::Rem => "%"@,
        ast::BinOpKind::And => "&&"@,
        ast::BinOpKind::Or => "||"@,
        ast::BinOpKind::BitXor => "^"@,
        ast::BinOpKind::BitAnd => "&"@,
        ast::BinOpKind::BitOr => "|"@,
        ast::BinOpKind::Shl => "<<"@,
        ast::BinOpKind::Shr => ">>"@,
        ast::BinOpKind::Eq => "=="@,
        ast::BinOpKind::Lt => "<"@,
        ast::BinOpKind::Le => "<="@,
        ast::BinOpKind::Ne => "!="@,
        ast::BinOpKind::Ge => ">="@,
        ast::BinOpKind::Gt => ">"@,
    }
}

/// The operator a Rust token denotes, where it is a binary operator's token.
pub open spec fn binop_of_token(t: Seq<char>) -> Option<ast::BinOpKind> {
    if t.len() == 1 {
        match t[0] {
            '+' => Some(ast::BinOpKind::Add),
            '-' => Some(ast::BinOpKind::Sub),
            '*' => Some(ast::BinOpKind::Mul),
            '/' => Some(ast::BinOpKind::Div),
            '%' => Some(ast::BinOpKind::Rem),
            '^' => Some(ast::BinOpKind::BitXor),
            '&' => Some(ast::BinOpKind::BitAnd),
            '|' => Some(ast::BinOpKind::BitOr),
            '<' => Some(ast::BinOpKind::Lt),
            '>' => Some(ast::BinOpKind::Gt),
            _ => None,
        }
    } else if t.len() == 2 {
        match (t[0], t[1]) {
            ('&', '&') => Some(ast::BinOpKind::And),
            ('|', '|') => Some(ast::BinOpKind::Or),
            ('<', '<') => Some(ast::BinOpKind::Shl),
            ('>', '>') => Some(ast::BinOpKind::Shr),
            ('=', '=') => Some(ast::BinOpKind::Eq),
            ('<', '=') => Some(ast::BinOpKind::Le),
            ('!', '=') => Some(ast::BinOpKind::Ne),
            ('>', '=') => Some(ast::BinOpKind::Ge),
            _ => None,
        }
    } else {
        None
    }
}

/// An operator's text is the Rust token that denotes it: reading the text
/// back gives the operator. So distinct operators get distinct texts.
pub proof fn law_binop_text_is_its_token(op: ast::BinOpKind)
    ensures
        binop_of_token(spec_binop(op)) == Some(op),
        forall|other: ast::BinOpKind| spec_binop(other) == spec_binop(op) ==> other == op,
{
    reveal_strlit("+");
    reveal_strlit("-");
    reveal_strlit("*");
    reveal_strlit("/");
    reveal_strlit("%");
    reveal_strlit("&&");
    reveal_strlit("||");
    reveal_strlit("^");
    reveal_strlit("&");
    reveal_strlit("|");
    reveal_strlit("<<");
    reveal_strlit(">>");
    reveal_strlit("==");
    reveal_strlit("<");
    reveal_strlit("<=");
    reveal_strlit("!=");
    reveal_strlit(">=");
    reveal_strlit(">");
    assert forall|o: ast::BinOpKind| binop_of_token(#[trigger] spec_binop(o)) == Some(o) by {
        match o {
            ast::BinOpKind::Add => assert(spec_binop(o) =~= seq!['+']),
            ast::BinOpKind::Sub => assert(spec_binop(o) =~= seq!['-']),
            ast::BinOpKind::Mul => assert(spec_binop(o) =~= seq!['*']),
            ast::BinOpKind::Div => assert(spec_binop(o) =~= seq!['/']),
            ast::BinOpKind::Rem => assert(spec_binop(o) =~= seq!['%']),
            ast::BinOpKind::And => assert(spec_binop(o) =~= seq!['&', '&']),
            ast::BinOpKind::Or => assert(spec_binop(o) =~= seq!['|', '|']),
            ast::BinOpKind::BitXor => assert(spec_binop(o) =~= seq!['^']),
            ast::BinOpKind::BitAnd => assert(spec_binop(o) =~= seq!['&']),
            ast::BinOpKind::BitOr => assert(spec_binop(o) =~= seq!['|']),
            ast::BinOpKind::Shl => assert(spec_binop(o) =~= seq!['<', '<']),
            ast::BinOpKind::Shr => assert(spec_binop(o) =~= seq!['>', '>']),
            ast::BinOpKind::Eq => assert(spec_binop(o) =~= seq!['=', '=']),
            ast::BinOpKind::Lt => assert(spec_binop(o) =~= seq!['<']),
            ast::BinOpKind::Le => assert(spec_binop(o) =~= seq!['<', '=']),
            ast::BinOpKind::Ne => assert(spec_binop(o) =~= seq!['!', '=']),
            ast::BinOpKind::Ge => assert(spec_binop(o) =~= seq!['>', '=']),
            ast::BinOpKind::Gt => assert(spec_binop(o) =~= seq!['>']),
        }
    }
    assert forall|other: ast::BinOpKind| spec_binop(other) == spec_binop(op) implies other == op by {
        assert(binop_of_token(spec_binop(other)) == Some(other));
    }
}

/// A block is written `unsafe` where the user wrote it so.
pub fn is_block_unsafe(rules: ast::BlockCheck) -> (b: bool)
    ensures
        b == (rules matches ast::BlockCheck::UserUnsafe),
{
    match rules {
        ast::BlockCheck::UserUnsafe => true,
        _ => false,
    }
}

fn label_string(label: &Option<ast::Ident>) -> (r: Option<String>)
    ensures
        gives_label(*label, r),
{
    match label {
        Some(l) => Some(ident_to_string(l)),
        None => None,
    }
}

/// The position of the first `->` in the text.
pub open spec fn arrow_at(s: Seq<char>, k: int) -> bool {
    0 <= k && k + 1 < s.len() && s[k] == '-' && s[k + 1] == '>'
}

fn find_arrow(s: &str) -> (r: Option<usize>)
    ensures
        match r {
            Some(k) => arrow_at(s@, k as int) && forall|j: int| 0 <= j < k ==> !arrow_at(s@, j),
            None => forall|j: int| 0 <= j < s@.len() ==> !arrow_at(s@, j),
        },
{
    let n = s.unicode_len();
    let mut i: usize = 0;
    while i < n
        invariant
            n == s@.len(),
            i <= n,
            forall|j: int| 0 <= j < i ==> !arrow_at(s@, j),
        decreases n - i,
    {
        if i + 1 < n && s.get_char(i) == '-' && s.get_char(i + 1) == '>' {
            return Some(i);
        }
        i = i + 1;
    }
    None
}

/// The state of the translator: where the comments stand, and the source.
struct Translator {
    tracker: CommentTracker,
    src: String,
}

impl Translator {
    spec fn tv(&self) -> TrState {
        TrState { v: self.tracker@, src: self.src@ }
    }

    spec fn wf(&self) -> bool {
        self.tracker.wf()
    }

    /// Whether a node at `pos` starts a line of its own.
    fn is_nl(&self, pos: Pos) -> (b: bool)
        ensures
            b == nl_at(self.tv().src, self.tv().v.last_end, pos),
    {
        proof {
            reveal(nl_at);
        }
        let from = self.tracker.last_end();
        match source_slice(self.src.as_str(), from as usize, pos as usize) {
            Some(t) => is_nl_snippet(t.as_str()),
            None => false,
        }
    }

    /// Whether the `->` of a return type at `pos` starts a line of its own.
    /// Where the source before the type has no `->`, it does not.
    fn is_return_nl(&self, pos: Pos) -> (b: bool)
        ensures
            b == return_nl(self.tv().src, self.tv().v.last_end, pos),
    {
        let from = self.tracker.last_end();
        match source_slice(self.src.as_str(), from as usize, pos as usize) {
            Some(t) => match find_arrow(t.as_str()) {
                Some(k) => {
                    let before = t.as_str().substring_char(0, k);
                    let b = is_nl_snippet(before);
                    proof {
                        let tv = t@;
                        assert(before@ =~= tv.take(k as int));
                        if !b {
                            assert forall|k2: int|
                                arrow_at(tv, k2) && (forall|j: int| 0 <= j < k2 ==> !arrow_at(tv, j)) implies !is_nl_text(
                                tv.take(k2),
                            ) by {
                                if k2 < k {
                                } else if k2 > k {
                                    assert(!arrow_at(tv, k as int));
                                }
                            }
                        }
                    }
                    b
                },
                None => false,
            },
            None => false,
        }
    }

    fn loc(&mut self, sp: &ast::Span) -> (l: Loc)
        requires
            old(self).wf(),
        ensures
            final(self).wf(),
            final(self).tv() == tr_open(old(self).tv(), *sp),
            l == loc_of(old(self).tv(), *sp),
    {
        proof {
            reveal(tr_open);
        }
        let nl = self.is_nl(sp.lo);
        self.tracker.loc(sp.lo, sp.hi, nl)
    }

    fn set_loc(&mut self, l: &Loc)
        requires
            old(self).wf(),
        ensures
            final(self).wf(),
            final(self).tv() == tr_close(old(self).tv(), l.end),
    {
        proof {
            reveal(tr_close);
        }
        self.tracker.set_loc(l);
    }

    fn leaf_loc(&mut self, sp: &ast::Span) -> (l: Loc)
        requires
            old(self).wf(),
        ensures
            final(self).wf(),
            final(self).tv() == tr_leaf(old(self).tv(), *sp),
            l == loc_of(old(self).tv(), *sp),
    {
        let l = self.loc(sp);
        self.set_loc(&l);
        l
    }

    // -----------------------------------------------------------------------
    // Attributes
    // -----------------------------------------------------------------------

    fn trans_attrs(&mut self, attrs: &Vec<ast::Attribute>) -> (r: Vec<AttrKind>)
        requires
            old(self).wf(),
        ensures
            final(self).wf(),
            final(self).tv() == t_attrs(old(self).tv(), attrs@, attrs@.len() as int),
            r@.len() == attrs@.len(),
            gives_attrs(old(self).tv(), attrs@, attrs@.len() as int, r@),
        decreases attrs, 0nat,
    {
        let ghost s0 = self.tv();
        let mut r: Vec<AttrKind> = Vec::new();
        let n = attrs.len();
        let mut i: usize = 0;
        while i < n
            invariant
                i <= n,
                n == attrs@.len(),
                r@.len() == i,
                self.wf(),
                self.tv() == t_attrs(s0, attrs@, i as int),
                gives_attrs(s0, attrs@, i as int, r@),
            decreases n - i,
        {
            let a = self.trans_attr(&attrs[i]);
            let ghost before = r@;
            r.push(a);
            proof {
                assert(r@.drop_last() =~= before);
            }
            i = i + 1;
        }
        r
    }

    fn trans_attr(&mut self, attr: &ast::Attribute) -> (r: AttrKind)
        requires
            old(self).wf(),
        ensures
            final(self).wf(),
            final(self).tv() == t_attr(old(self).tv(), *attr),
            gives_attr(old(self).tv(), *attr, r),
        decreases attr, 0nat,
    {
        match &attr.kind {
            ast::AttributeKind::Doc(text) => {
                let loc = self.leaf_loc(&attr.span);
                AttrKind::Doc(Chunk { loc, s: text.clone() })
            },
            ast::AttributeKind::Meta(m) => {
                let loc = self.loc(&attr.span);
                let fwd: u32 = if attr.is_inner {
                    2
                } else {
                    1
                };
                let item = self.trans_meta_item(m, fwd);
                self.set_loc(&loc);
                AttrKind::Attr(Attr { loc, is_inner: attr.is_inner, item })
            },
        }
    }

    fn trans_meta_item(&mut self, m: &ast::MetaItem, fwd: u32) -> (r: MetaItem)
        requires
            old(self).wf(),
            fwd <= 2,
        ensures
            final(self).wf(),
            final(self).tv() == t_meta_item(old(self).tv(), *m, fwd as int),
            gives_meta(old(self).tv(), *m, fwd as int, r),
        decreases m, 0nat,
    {
        let name = path_string(&m.path);
        let lo = if m.span.lo <= u32::MAX - fwd {
            m.span.lo + fwd
        } else {
            u32::MAX
        };
        let sp = ast::Span { lo, hi: m.span.hi };
        assert(sp == meta_span(*m, fwd as int));
        match &m.kind {
            ast::MetaItemKind::Word => {
                let loc = self.leaf_loc(&sp);
                MetaItem { loc, name, items: None }
            },
            ast::MetaItemKind::NameValue(lit) => {
                let loc = self.leaf_loc(&sp);
                MetaItem { loc, name: name_value(name.as_str(), lit.text.as_str()), items: None }
            },
            ast::MetaItemKind::List(items) => {
                let loc = self.loc(&sp);
                let r = self.trans_nested_meta_items(items);
                self.set_loc(&loc);
                MetaItem { loc, name, items: Some(r) }
            },
        }
    }

    fn trans_nested_meta_items(&mut self, items: &Vec<ast::NestedMetaItem>) -> (r: Vec<MetaItem>)
        requires
            old(self).wf(),
        ensures
            final(self).wf(),
            final(self).tv() == t_nested_meta_items(old(self).tv(), items@, items@.len() as int),
            gives_nested_metas(old(self).tv(), items@, items@.len() as int, r@),
        decreases items, 0nat,
    {
        let ghost s0 = self.tv();
        let mut r: Vec<MetaItem> = Vec::new();
        let n = items.len();
        let mut i: usize = 0;
        while i < n
            invariant
                i <= n,
                n == items@.len(),
                self.wf(),
                self.tv() == t_nested_meta_items(s0, items@, i as int),
                gives_nested_metas(s0, items@, i as int, r@),
            decreases n - i,
        {
            let ghost before = r@;

            let item = match &items[i] {
                ast::NestedMetaItem::Literal(lit) => {
                    let loc = self.leaf_loc(&lit.span);
                    MetaItem { loc, name: lit.text.clone(), items: None }
                },
                ast::NestedMetaItem::MetaItem(mi) => self.trans_meta_item(mi, 0),
            };
            r.push(item);
            proof {
                assert(r@.drop_last() =~= before);
            }
            i = i + 1;
        }
        r
    }

    // -----------------------------------------------------------------------
    // Modules and items
    // -----------------------------------------------------------------------

    fn trans_mod(&mut self, name: String, module: &ast::Mod) -> (r: Mod)
        requires
            old(self).wf(),
        ensures
            final(self).wf(),
            final(self).tv() == t_mod(old(self).tv(), *module),
            gives_mod(old(self).tv(), *module, name@, r),
            r.loc == loc_of(old(self).tv(), module.inner),
            r.name == name,
            r.items@.len() == module.items@.len(),
            forall|k: int|
                0 <= k < r.items@.len() ==> (#[trigger] r.items@[k]).loc == loc_of(
                    t_items(tr_open(old(self).tv(), module.inner), module.items@, k),
                    module.items@[k].span,
                ) && r.items@[k].vis@ == spec_vis(module.items@[k].vis)
                    && r.items@[k].attrs@.len() == module.items@[k].attrs@.len(),
        decreases module, 1nat,
    {
        let loc = self.loc(&module.inner);
        let items = self.trans_items(&module.items);
        self.set_loc(&loc);
        Mod { loc, name, items }
    }

    fn trans_items(&mut self, items: &Vec<ast::Item>) -> (r: Vec<Item>)
        requires
            old(self).wf(),
        ensures
            final(self).wf(),
            final(self).tv() == t_items(old(self).tv(), items@, items@.len() as int),
            gives_items(old(self).tv(), items@, items@.len() as int, r@),
            r@.len() == items@.len(),
            forall|k: int|
                0 <= k < r@.len() ==> (#[trigger] r@[k]).loc == loc_of(
                    t_items(old(self).tv(), items@, k),
                    items@[k].span,
                ) && r@[k].vis@ == spec_vis(items@[k].vis) && r@[k].attrs@.len() == items@[k].attrs@.len(),
        decreases items, 0nat,
    {
        let ghost s0 = self.tv();
        let mut r: Vec<Item> = Vec::new();
        let n = items.len();
        let mut i: usize = 0;
        while i < n
            invariant
                i <= n,
                n == items@.len(),
                r@.len() == i,
                self.wf(),
                self.tv() == t_items(s0, items@, i as int),
                gives_items(s0, items@, i as int, r@),
                forall|k: int|
                    0 <= k < r@.len() ==> (#[trigger] r@[k]).loc == loc_of(t_items(s0, items@, k), items@[k].span)
                        && r@[k].vis@ == spec_vis(items@[k].vis) && r@[k].attrs@.len() == items@[k].attrs@.len(),
            decreases n - i,
        {
            let it = self.trans_item(&items[i]);
            let ghost before = r@;
            r.push(it);
            proof {
                assert(r@.drop_last() =~= before);
            }
            i = i + 1;
        }
        r
    }

    fn trans_item(&mut self, item: &ast::Item) -> (r: Item)
        requires
            old(self).wf(),
        ensures
            final(self).wf(),
            final(self).tv() == t_item(old(self).tv(), *item),
            gives_item(old(self).tv(), *item, r),
            r.loc == loc_of(old(self).tv(), item.span),
            r.vis@ == spec_vis(item.vis),
            r.attrs@.len() == item.attrs@.len(),
        decreases item, 1nat,
    {
        let loc = self.loc(&item.span);
        let attrs = self.trans_attrs(&item.attrs);
        let vis = trans_vis(&item.vis);
        let ident = ident_to_string(&item.ident);
        let kind = self.trans_item_kind(ident, &item.kind);
        self.set_loc(&loc);
        Item { loc, attrs, vis, item: kind }
    }

    #[verifier::spinoff_prover]
    #[verifier::rlimit(50)]
    fn trans_item_kind(&mut self, ident: String, kind: &ast::ItemKind) -> (r: ItemKind)
        requires
            old(self).wf(),
        ensures
            final(self).wf(),
            final(self).tv() == t_item_kind(old(self).tv(), *kind),
            gives_item_kind(old(self).tv(), ident@, *kind, r),
        decreases kind, 0nat,
    {
        match kind {
            ast::ItemKind::Mod(m) => {
                if m.inline {
                    ItemKind::Mod(self.trans_mod(ident, m))
                } else {
                    ItemKind::ModDecl(ModDecl { name: ident })
                }
            },
            ast::ItemKind::ExternCrate(rename) => ItemKind::ExternCrate(
                ExternCrate { name: extern_crate_name(ident, rename) },
            ),
            ast::ItemKind::Use(t) => {
                let tree = self.trans_use_tree(t);
                ItemKind::Use(Use { path: tree.path, trees: tree.trees })
            },
            ast::ItemKind::Ty(ty, g) => {
                let generics = self.trans_generics(g);
                let ty = self.trans_type(ty);
                ItemKind::TypeAlias(TypeAlias { name: ident, generics, ty })
            },
            ast::ItemKind::TraitAlias(g, b) => {
                let generics = self.trans_generics(g);
                let bounds = self.trans_bounds(b);
                ItemKind::TraitAlias(TraitAlias { name: ident, generics, bounds })
            },
            ast::ItemKind::Existential(b, g) => {
                let generics = self.trans_generics(g);
                let bounds = self.trans_bounds(b);
                ItemKind::Existential(Existential { name: ident, generics, bounds })
            },
            ast::ItemKind::Const(ty, e) => {
                let ty = self.trans_type(ty);
                let expr = self.trans_expr(e);
                ItemKind::Const(Const { name: ident, ty, expr })
            },
            ast::ItemKind::Static(ty, is_mut, e) => {
                let ty = self.trans_type(ty);
                let expr = self.trans_expr(e);
                ItemKind::Static(Static { is_mut: *is_mut, name: ident, ty, expr })
            },
            ast::ItemKind::Struct(vd, g) => {
                let generics = self.trans_generics(g);
                let body = self.trans_variant_data(vd);
                ItemKind::Struct(Struct { name: ident, generics, body })
            },
            ast::ItemKind::Union(fs, g) => {
                let fields = self.trans_field_defs(fs);
                let generics = self.trans_generics(g);
                ItemKind::Union(Union { name: ident, generics, fields })
            },
            ast::ItemKind::Enum(vs, g) => {
                let generics = self.trans_generics(g);
                let fields = self.trans_variants(vs);
                ItemKind::Enum(Enum { name: ident, generics, body: EnumBody { fields } })
            },
            ast::ItemKind::ForeignMod(fm) => {
                let abi = abi_to_string(fm.abi.as_str());
                let items = self.trans_foreign_items(&fm.items);
                ItemKind::ForeignMod(ForeignMod { abi, items })
            },
            ast::ItemKind::Fn(d, h, g, b) => {
                let header = trans_fn_header(h);
                let generics = self.trans_generics(g);
                let sig = self.trans_fn_sig(d);
                let block = self.trans_block(b);
                ItemKind::Fn(Fn { header, name: ident, generics, sig, block })
            },
            ast::ItemKind::Trait(td) => {
                let generics = self.trans_generics(&td.generics);
                let bounds = self.trans_bounds(&td.bounds);
                let items = self.trans_trait_items(&td.items);
                ItemKind::Trait(
                    Trait {
                        is_auto: td.is_auto,
                        is_unsafe: td.is_unsafe,
                        name: ident,
                        generics,
                        bounds,
                        items,
                    },
                )
            },
            ast::ItemKind::Impl(im) => {
                let generics = self.trans_generics(&im.generics);
                let trait_ref = match &im.trait_ref {
                    Some(p) => Some(self.trans_path(p)),
                    None => None,
                };
                let ty = self.trans_type(&im.ty);
                let items = self.trans_impl_items(&im.items);
                ItemKind::Impl(
                    Impl {
                        is_unsafe: im.is_unsafe,
                        is_default: im.is_default,
                        is_neg: im.is_neg,
                        generics,
                        trait_ref,
                        ty,
                        items,
                    },
                )
            },
            ast::ItemKind::MacroDef(def) => ItemKind::MacroDef(MacroDef { name: ident, def: def.clone() }),
            ast::ItemKind::Mac(m) => ItemKind::Macro(self.trans_macro(m)),
        }
    }

    /// A `use` tree; the trees of a nested one are sorted, those starting
    /// with `self` first.
    #[verifier::spinoff_prover]
    #[verifier::rlimit(40)]
    fn trans_use_tree(&mut self, tree: &ast::UseTree) -> (r: UseTree)
        requires
            old(self).wf(),
        ensures
            final(self).wf(),
            final(self).tv() == t_use_tree(old(self).tv(), *tree),
            gives_use_tree_parts(old(self).tv(), *tree, r.loc, r.path, r.trees),
            r.loc == loc_of(old(self).tv(), tree.span),
        decreases tree, 0nat,
    {
        match &tree.kind {
            ast::UseTreeKind::Simple(rename) => {
                let loc = self.leaf_loc(&tree.span);
                let names = segment_names(&tree.prefix);
                proof {
                    assert(strings_view(names@) =~= tree.prefix.segments@.map_values(
                        |g: ast::PathSegment| spec_ident(g.ident),
                    ));
                }
                let rename = label_string(rename);
                UseTree { loc, path: use_simple_path(&names, &rename), trees: None }
            },
            ast::UseTreeKind::Glob => {
                let loc = self.leaf_loc(&tree.span);
                let names = segment_names(&tree.prefix);
                proof {
                    assert(strings_view(names@) =~= tree.prefix.segments@.map_values(
                        |g: ast::PathSegment| spec_ident(g.ident),
                    ));
                }
                UseTree { loc, path: use_glob_path(&names), trees: None }
            },
            ast::UseTreeKind::Nested(trees) => {
                let loc = self.loc(&tree.span);
                let path = path_string(&tree.prefix);
                let r = self.trans_use_trees(trees);
                let ghost u = r@;
                self.set_loc(&loc);
                let sorted = sort_use_trees(r);
                proof {
                    assert(sorted@.to_multiset() == u.to_multiset());
                }
                UseTree { loc, path, trees: Some(sorted) }

            },
        }
    }

    fn trans_use_trees(&mut self, trees: &Vec<ast::UseTree>) -> (r: Vec<UseTree>)
        requires
            old(self).wf(),
        ensures
            final(self).wf(),
            final(self).tv() == t_use_trees(old(self).tv(), trees@, trees@.len() as int),
            gives_use_trees(old(self).tv(), trees@, trees@.len() as int, r@),
        decreases trees, 0nat,
    {
        let ghost s0 = self.tv();
        let mut r: Vec<UseTree> = Vec::new();
        let n = trees.len();
        let mut i: usize = 0;
        while i < n
            invariant
                i <= n,
                n == trees@.len(),
                self.wf(),
                self.tv() == t_use_trees(s0, trees@, i as int),
                gives_use_trees(s0, trees@, i as int, r@),
            decreases n - i,
        {
            let t = self.trans_use_tree(&trees[i]);
            let ghost before = r@;
            r.push(t);
            proof {
                assert(r@.drop_last() =~= before);
            }
            i = i + 1;
        }
        r
    }

    // -----------------------------------------------------------------------
    // Generics
    // -----------------------------------------------------------------------

    fn trans_generics(&mut self, generics: &ast::Generics) -> (r: Generics)
        requires
            old(self).wf(),
        ensures
            final(self).wf(),
            final(self).tv() == t_generics(old(self).tv(), *generics),
            gives_generics(old(self).tv(), *generics, r),
        decreases generics, 0nat,
    {
        let lifetime_defs = self.trans_lifetime_defs(&generics.params);
        let type_params = self.trans_type_params(&generics.params);
        let clauses = self.trans_where_preds(&generics.where_predicates);
        Generics { lifetime_defs, type_params, wh: Where { clauses } }
    }

    fn trans_lifetime_defs(&mut self, params: &Vec<ast::GenericParam>) -> (r: Vec<LifetimeDef>)
        requires
            old(self).wf(),
        ensures
            final(self).wf(),
            final(self).tv() == t_lifetime_defs(old(self).tv(), params@, params@.len() as int),
            gives_lifetime_defs(old(self).tv(), params@, params@.len() as int, r@),
        decreases params, 0nat,
    {
        let ghost s0 = self.tv();
        let mut r: Vec<LifetimeDef> = Vec::new();
        let n = params.len();
        let mut i: usize = 0;
        while i < n
            invariant
                i <= n,
                n == params@.len(),
                self.wf(),
                self.tv() == t_lifetime_defs(s0, params@, i as int),
                gives_lifetime_defs(s0, params@, i as int, r@),
            decreases n - i,
        {
            if let ast::GenericParamKind::Lifetime = &params[i].kind {
                let d = self.trans_lifetime_def(&params[i]);
                let ghost before = r@;
                r.push(d);
                proof {
                    assert(r@.drop_last() =~= before);
                }
            }
            i = i + 1;
        }
        r
    }

    fn trans_lifetime_def(&mut self, param: &ast::GenericParam) -> (r: LifetimeDef)
        requires
            old(self).wf(),
        ensures
            final(self).wf(),
            final(self).tv() == t_lifetime_def(old(self).tv(), *param),
            gives_lifetime_def(old(self).tv(), *param, r),
        decreases param, 0nat,
    {
        let lifetime = self.trans_lifetime(&param.ident);
        let bounds = self.trans_lifetimes(&param.bounds);
        LifetimeDef { loc: lifetime.loc, lifetime, bounds }
    }

    fn trans_lifetime(&mut self, ident: &ast::Ident) -> (r: Chunk)
        requires
            old(self).wf(),
        ensures
            final(self).wf(),
            final(self).tv() == tr_leaf(old(self).tv(), ident.span),
            r.loc == loc_of(old(self).tv(), ident.span),
            r.s@ == ident.name@,
    {
        let loc = self.leaf_loc(&ident.span);
        Chunk { loc, s: ident.name.clone() }
    }

    fn trans_lifetimes(&mut self, bounds: &Vec<ast::GenericBound>) -> (r: Vec<Chunk>)
        requires
            old(self).wf(),
        ensures
            final(self).wf(),
            final(self).tv() == t_lifetimes(old(self).tv(), bounds@, bounds@.len() as int),
            gives_lifetimes(old(self).tv(), bounds@, bounds@.len() as int, r@),
    {
        let ghost s0 = self.tv();
        let mut r: Vec<Chunk> = Vec::new();
        let n = bounds.len();
        let mut i: usize = 0;
        while i < n
            invariant
                i <= n,
                n == bounds@.len(),
                self.wf(),
                self.tv() == t_lifetimes(s0, bounds@, i as int),
                gives_lifetimes(s0, bounds@, i as int, r@),
            decreases n - i,
        {
            if let ast::GenericBound::Outlives(l) = &bounds[i] {
                let c = self.trans_lifetime(l);
                let ghost before = r@;
                r.push(c);
                proof {
                    assert(r@.drop_last() =~= before);
                }
            }
            i = i + 1;
        }
        r
    }

    fn trans_type_params(&mut self, params: &Vec<ast::GenericParam>) -> (r: Vec<TypeParam>)
        requires
            old(self).wf(),
        ensures
            final(self).wf(),
            final(self).tv() == t_type_params(old(self).tv(), params@, params@.len() as int),
            gives_type_params(old(self).tv(), params@, params@.len() as int, r@),
        decreases params, 0nat,
    {
        let ghost s0 = self.tv();
        let mut r: Vec<TypeParam> = Vec::new();
        let n = params.len();
        let mut i: usize = 0;
        while i < n
            invariant
                i <= n,
                n == params@.len(),
                self.wf(),
                self.tv() == t_type_params(s0, params@, i as int),
                gives_type_params(s0, params@, i as int, r@),
            decreases n - i,
        {
            if let ast::GenericParamKind::Type(_) = &params[i].kind {
                let p = self.trans_type_param(&params[i]);
                let ghost before = r@;
                r.push(p);
                proof {
                    assert(r@.drop_last() =~= before);
                }
            }
            i = i + 1;
        }
        r
    }

    fn trans_type_param(&mut self, param: &ast::GenericParam) -> (r: TypeParam)
        requires
            old(self).wf(),
        ensures
            final(self).wf(),
            final(self).tv() == t_type_param(old(self).tv(), *param),
            gives_type_param(old(self).tv(), *param, r),
            r.loc == loc_of(old(self).tv(), param.ident.span),
        decreases param, 0nat,
    {
        let loc = self.loc(&param.ident.span);
        let name = ident_to_string(&param.ident);
        let bounds = self.trans_bounds(&param.bounds);
        let default = match &param.kind {
            ast::GenericParamKind::Type(Some(ty)) => Some(self.trans_type(ty)),
            _ => None,
        };
        self.set_loc(&loc);
        TypeParam { loc, name, bounds, default }
    }

    fn trans_bounds(&mut self, bounds: &Vec<ast::GenericBound>) -> (r: TypeParamBounds)
        requires
            old(self).wf(),
        ensures
            final(self).wf(),
            final(self).tv() == t_bounds(old(self).tv(), bounds@, bounds@.len() as int),
            gives_bounds(old(self).tv(), bounds@, bounds@.len() as int, r.0@),
            r.0@.len() == bounds@.len(),
        decreases bounds, 0nat,
    {
        let ghost s0 = self.tv();
        let mut r: Vec<TypeParamBound> = Vec::new();
        let n = bounds.len();
        let mut i: usize = 0;
        while i < n
            invariant
                i <= n,
                n == bounds@.len(),
                r@.len() == i,
                self.wf(),
                self.tv() == t_bounds(s0, bounds@, i as int),
                gives_bounds(s0, bounds@, i as int, r@),
            decreases n - i,
        {
            let b = self.trans_bound(&bounds[i]);
            let ghost before = r@;
            r.push(b);
            proof {
                assert(r@.drop_last() =~= before);
            }
            i = i + 1;
        }
        TypeParamBounds(r)
    }

    fn trans_bound(&mut self, bound: &ast::GenericBound) -> (r: TypeParamBound)
        requires
            old(self).wf(),
        ensures
            final(self).wf(),
            final(self).tv() == t_bound(old(self).tv(), *bound),
            gives_bound(old(self).tv(), *bound, r),
        decreases bound, 0nat,
    {
        match bound {
            ast::GenericBound::Outlives(l) => TypeParamBound::Lifetime(self.trans_lifetime(l)),
            ast::GenericBound::Trait(p, maybe) => TypeParamBound::PolyTraitRef(
                self.trans_poly_trait_ref(p, *maybe),
            ),
        }
    }

    /// A `?Sized` bound stands for all bounds written with `?`.
    fn trans_poly_trait_ref(&mut self, p: &ast::PolyTraitRef, maybe: bool) -> (r: PolyTraitRef)
        requires
            old(self).wf(),
        ensures
            final(self).wf(),
            final(self).tv() == t_poly_trait_ref(old(self).tv(), *p, maybe),
            gives_poly_trait_ref(old(self).tv(), *p, maybe, r),
            r.loc == loc_of(old(self).tv(), p.span),
        decreases p, 0nat,
    {
        if maybe {
            let loc = self.leaf_loc(&p.span);
            return PolyTraitRef::new_sized(loc);
        }
        let loc = self.loc(&p.span);
        let lifetime_defs = self.trans_lifetime_defs(&p.bound_generic_params);
        let trait_ref = self.trans_path(&p.trait_ref);
        self.set_loc(&loc);
        PolyTraitRef { loc, lifetime_defs, trait_ref }
    }

    fn trans_where_preds(&mut self, preds: &Vec<ast::WherePredicate>) -> (r: Vec<WhereClause>)
        requires
            old(self).wf(),
        ensures
            final(self).wf(),
            final(self).tv() == t_where_preds(old(self).tv(), preds@, preds@.len() as int),
            gives_where_preds(old(self).tv(), preds@, preds@.len() as int, r@),
        decreases preds, 0nat,
    {
        let ghost s0 = self.tv();
        let mut r: Vec<WhereClause> = Vec::new();
        let n = preds.len();
        let mut i: usize = 0;
        while i < n
            invariant
                i <= n,
                n == preds@.len(),
                self.wf(),
                self.tv() == t_where_preds(s0, preds@, i as int),
                gives_where_preds(s0, preds@, i as int, r@),
            decreases n - i,
        {
            let c = self.trans_where_pred(&preds[i]);
            let ghost before = r@;
            r.push(c);
            proof {
                assert(r@.drop_last() =~= before);
            }
            i = i + 1;
        }
        r
    }

    #[verifier::spinoff_prover]
    #[verifier::rlimit(40)]
    fn trans_where_pred(&mut self, pred: &ast::WherePredicate) -> (r: WhereClause)
        requires
            old(self).wf(),
        ensures
            final(self).wf(),
            final(self).tv() == t_where_pred(old(self).tv(), *pred),
            gives_where_pred(old(self).tv(), *pred, r),
        decreases pred, 0nat,
    {
        match pred {
            ast::WherePredicate::Region(region) => {
                let loc = self.loc(&region.span);
                let lifetime = self.trans_lifetime(&region.lifetime);
                let bounds = self.trans_lifetimes(&region.bounds);
                self.set_loc(&loc);
                WhereClause {
                    loc,
                    clause: WhereKind::LifetimeDef(LifetimeDef { loc: lifetime.loc, lifetime, bounds }),
                }
            },
            ast::WherePredicate::Bound(bound) => {
                let loc = self.loc(&bound.span);
                let lifetime_defs = self.trans_lifetime_defs(&bound.bound_generic_params);
                let ty = self.trans_type(&bound.bounded_ty);
                let bounds = self.trans_bounds(&bound.bounds);
                self.set_loc(&loc);
                WhereClause { loc, clause: WhereKind::Bound(WhereBound { lifetime_defs, ty, bounds }) }
            },
        }
    }

    // -----------------------------------------------------------------------
    // Paths
    // -----------------------------------------------------------------------

    fn trans_path(&mut self, path: &ast::Path) -> (r: Path)
        requires
            old(self).wf(),
        ensures
            final(self).wf(),
            final(self).tv() == t_path(old(self).tv(), *path),
            gives_path(old(self).tv(), *path, r),
            r.loc == loc_of(old(self).tv(), path.span),
        decreases path, 0nat,
    {
        let loc = self.loc(&path.span);
        let ghost s0 = self.tv();
        let mut segments: Vec<PathSegment> = Vec::new();
        let n = path.segments.len();
        let mut i: usize = 0;
        while i < n
            invariant
                i <= n,
                n == path.segments@.len(),
                self.wf(),
                self.tv() == t_segments(s0, path.segments@, i as int),
                gives_segments(s0, path.segments@, i as int, segments@),
            decreases n - i,
        {
            let seg = self.trans_segment(&path.segments[i]);
            let ghost before = segments@;
            segments.push(seg);
            proof {
                assert(segments@.drop_last() =~= before);
            }
            i = i + 1;
        }
        self.set_loc(&loc);
        Path { loc, segments }
    }

    fn trans_segment(&mut self, seg: &ast::PathSegment) -> (r: PathSegment)
        requires
            old(self).wf(),
        ensures
            final(self).wf(),
            final(self).tv() == t_segment(old(self).tv(), *seg),
            gives_segment(old(self).tv(), *seg, r),
            r.name@ == spec_ident(seg.ident),
        decreases seg, 0nat,
    {
        let name = ident_to_string(&seg.ident);
        let param = match &seg.args {
            Some(args) => self.trans_generic_args(args),
            None => PathParam::Angle(AngleParam::empty()),
        };
        PathSegment { name, param }
    }

    #[verifier::spinoff_prover]
    #[verifier::rlimit(40)]
    fn trans_generic_args(&mut self, args: &ast::GenericArgs) -> (r: PathParam)
        requires
            old(self).wf(),
        ensures
            final(self).wf(),
            final(self).tv() == t_generic_args(old(self).tv(), *args),
            gives_generic_args(old(self).tv(), *args, r),
        decreases args, 0nat,
    {
        match args {
            ast::GenericArgs::AngleBracketed(ab) => {
                let lifetimes = self.trans_arg_lifetimes(&ab.args);
                let types = self.trans_arg_types(&ab.args);
                let bindings = self.trans_constraints(&ab.constraints);
                PathParam::Angle(AngleParam { lifetimes, types, bindings })
            },
            ast::GenericArgs::Parenthesized(p) => {
                let loc = self.loc(&p.span);
                let inputs = self.trans_types(&p.inputs);
                let output = match &p.output {
                    Some(t) => Some(self.trans_type(t)),
                    None => None,
                };
                self.set_loc(&loc);
                PathParam::Paren(ParenParam { loc, inputs, output })
            },
        }
    }

    fn trans_arg_lifetimes(&mut self, args: &Vec<ast::GenericArg>) -> (r: Vec<Chunk>)
        requires
            old(self).wf(),
        ensures
            final(self).wf(),
            final(self).tv() == t_arg_lifetimes(old(self).tv(), args@, args@.len() as int),
            gives_arg_lifetimes(old(self).tv(), args@, args@.len() as int, r@),
    {
        let ghost s0 = self.tv();
        let mut r: Vec<Chunk> = Vec::new();
        let n = args.len();
        let mut i: usize = 0;
        while i < n
            invariant
                i <= n,
                n == args@.len(),
                self.wf(),
                self.tv() == t_arg_lifetimes(s0, args@, i as int),
                gives_arg_lifetimes(s0, args@, i as int, r@),
            decreases n - i,
        {
            if let ast::GenericArg::Lifetime(l) = &args[i] {
                let c = self.trans_lifetime(l);
                let ghost before = r@;
                r.push(c);
                proof {
                    assert(r@.drop_last() =~= before);
                }
            }
            i = i + 1;
        }
        r
    }

    fn trans_arg_types(&mut self, args: &Vec<ast::GenericArg>) -> (r: Vec<Type>)
        requires
            old(self).wf(),
        ensures
            final(self).wf(),
            final(self).tv() == t_arg_types(old(self).tv(), args@, args@.len() as int),
            gives_arg_types(old(self).tv(), args@, args@.len() as int, r@),
        decreases args, 0nat,
    {
        let ghost s0 = self.tv();
        let mut r: Vec<Type> = Vec::new();
        let n = args.len();
        let mut i: usize = 0;
        while i < n
            invariant
                i <= n,
                n == args@.len(),
                self.wf(),
                self.tv() == t_arg_types(s0, args@, i as int),
                gives_arg_types(s0, args@, i as int, r@),
            decreases n - i,
        {
            if let ast::GenericArg::Type(t) = &args[i] {
                let ty = self.trans_type(t);
                let ghost before = r@;
                r.push(ty);
                proof {
                    assert(r@.drop_last() =~= before);
                }
            }
            i = i + 1;
        }
        r
    }

    fn trans_constraints(&mut self, cs: &Vec<ast::AssocTyConstraint>) -> (r: Vec<TypeBinding>)
        requires
            old(self).wf(),
        ensures
            final(self).wf(),
            final(self).tv() == t_constraints(old(self).tv(), cs@, cs@.len() as int),
            gives_constraints(old(self).tv(), cs@, cs@.len() as int, r@),
        decreases cs, 0nat,
    {
        let ghost s0 = self.tv();
        let mut r: Vec<TypeBinding> = Vec::new();
        let n = cs.len();
        let mut i: usize = 0;
        while i < n
            invariant
                i <= n,
                n == cs@.len(),
                self.wf(),
                self.tv() == t_constraints(s0, cs@, i as int),
                gives_constraints(s0, cs@, i as int, r@),
            decreases n - i,
        {
            let b = self.trans_constraint(&cs[i]);
            let ghost before = r@;
            r.push(b);
            proof {
                assert(r@.drop_last() =~= before);
            }
            i = i + 1;
        }
        r
    }

    fn trans_constraint(&mut self, c: &ast::AssocTyConstraint) -> (r: TypeBinding)
        requires
            old(self).wf(),
        ensures
            final(self).wf(),
            final(self).tv() == t_constraint(old(self).tv(), *c),
            gives_constraint(old(self).tv(), *c, r),
            r.loc == loc_of(old(self).tv(), c.span),
        decreases c, 0nat,
    {
        let loc = self.loc(&c.span);
        let name = ident_to_string(&c.ident);
        let binding = match &c.kind {
            ast::AssocTyConstraintKind::Equality(t) => TypeBindingKind::Eq(self.trans_type(t)),
            ast::AssocTyConstraintKind::Bound(b) => TypeBindingKind::Bound(self.trans_bounds(b)),
        };
        self.set_loc(&loc);
        TypeBinding { loc, name, binding }
    }

    fn trans_qself(&mut self, q: &Option<ast::QSelf>) -> (r: Option<QSelf>)
        requires
            old(self).wf(),
        ensures
            final(self).wf(),
            final(self).tv() == t_qself(old(self).tv(), *q),
            gives_qself(old(self).tv(), *q, r),
        decreases q, 0nat,
    {
        match q {
            Some(q) => {
                let ty = self.trans_type(&q.ty);
                Some(QSelf { ty, pos: q.position })
            },
            None => None,
        }
    }

    // -----------------------------------------------------------------------
    // Types
    // -----------------------------------------------------------------------

    fn trans_types(&mut self, types: &Vec<ast::Ty>) -> (r: Vec<Type>)
        requires
            old(self).wf(),
        ensures
            final(self).wf(),
            final(self).tv() == t_types(old(self).tv(), types@, types@.len() as int),
            gives_types(old(self).tv(), types@, types@.len() as int, r@),
            r@.len() == types@.len(),
        decreases types, 0nat,
    {
        let ghost s0 = self.tv();
        let mut r: Vec<Type> = Vec::new();
        let n = types.len();
        let mut i: usize = 0;
        while i < n
            invariant
                i <= n,
                n == types@.len(),
                r@.len() == i,
                self.wf(),
                self.tv() == t_types(s0, types@, i as int),
                gives_types(s0, types@, i as int, r@),
            decreases n - i,
        {
            let t = self.trans_type(&types[i]);
            let ghost before = r@;
            r.push(t);
            proof {
                assert(r@.drop_last() =~= before);
            }
            i = i + 1;
        }
        r
    }

    #[verifier::spinoff_prover]
    #[verifier::rlimit(40)]
    fn trans_type(&mut self, ty: &ast::Ty) -> (r: Type)
        requires
            old(self).wf(),
        ensures
            final(self).wf(),
            final(self).tv() == t_type(old(self).tv(), *ty),
            gives_type(old(self).tv(), *ty, r),
            r.loc == loc_of(old(self).tv(), ty.span),
        decreases ty, 0nat,
    {
        let loc = self.loc(&ty.span);
        let kind = match &ty.kind {
            ast::TyKind::Infer => TypeKind::Symbol("_"),
            ast::TyKind::Never => TypeKind::Symbol("!"),
            ast::TyKind::CVarArgs => TypeKind::Symbol("..."),
            ast::TyKind::ImplicitSelf => TypeKind::Symbol("self"),
            ast::TyKind::Path(q, p) => {
                let qself = self.trans_qself(q);
                let path = self.trans_path(p);
                TypeKind::Path(Box::new(PathType { qself, path }))
            },
            ast::TyKind::Ptr(is_mut, t) => {
                let ty = self.trans_type(t);
                TypeKind::Ptr(Box::new(PtrType { is_mut: *is_mut, ty }))
            },
            ast::TyKind::Rptr(l, is_mut, t) => {
                let lifetime = match l {
                    Some(l) => Some(self.trans_lifetime(l)),
                    None => None,
                };
                let ty = self.trans_type(t);
                TypeKind::Ref(Box::new(RefType { lifetime, is_mut: *is_mut, ty }))
            },
            ast::TyKind::Tup(ts) => {
                let types = self.trans_types(ts);
                TypeKind::Tuple(Box::new(TupleType { types }))
            },
            ast::TyKind::Paren(t) => {
                let inner = self.trans_type(t);
                let mut types: Vec<Type> = Vec::new();
                types.push(inner);
                TypeKind::Tuple(Box::new(TupleType { types }))
            },
            ast::TyKind::Slice(t) => {
                let ty = self.trans_type(t);
                TypeKind::Slice(Box::new(SliceType { ty }))
            },
            ast::TyKind::Array(t, e) => {
                let ty = self.trans_type(t);
                let expr = self.trans_expr(e);
                TypeKind::Array(Box::new(ArrayType { ty, expr }))
            },
            ast::TyKind::TraitObject(b, is_dyn) => {
                let bounds = self.trans_bounds(b);
                TypeKind::Trait(Box::new(TraitType { is_dyn: *is_dyn, is_impl: false, bounds }))
            },
            ast::TyKind::ImplTrait(b) => {
                let bounds = self.trans_bounds(b);
                TypeKind::Trait(Box::new(TraitType { is_dyn: false, is_impl: true, bounds }))
            },
            ast::TyKind::BareFn(bf) => {
                let lifetime_defs = self.trans_lifetime_defs(&bf.generic_params);
                let header = FnHeader {
                    is_unsafe: bf.is_unsafe,
                    is_async: false,
                    is_const: false,
                    abi: abi_to_string(bf.abi.as_str()),
                };
                let sig = self.trans_fn_sig(&bf.decl);
                TypeKind::BareFn(Box::new(BareFnType { lifetime_defs, header, sig }))
            },
            ast::TyKind::Mac(m) => TypeKind::Macro(self.trans_macro(m)),
        };
        self.set_loc(&loc);
        Type { loc, ty: kind }
    }

    #[verifier::spinoff_prover]
    #[verifier::rlimit(40)]
    fn trans_fn_sig(&mut self, decl: &ast::FnDecl) -> (r: FnSig)
        requires
            old(self).wf(),
        ensures
            final(self).wf(),
            final(self).tv() == t_fn_decl(old(self).tv(), *decl),
            gives_fn_decl(old(self).tv(), *decl, r),
        decreases decl, 0nat,
    {
        let ghost s0 = self.tv();
        let mut args: Vec<Arg> = Vec::new();
        let n = decl.inputs.len();
        let mut i: usize = 0;
        while i < n
            invariant
                i <= n,
                n == decl.inputs@.len(),
                self.wf(),
                self.tv() == t_args(s0, decl.inputs@, i as int),
                gives_args(s0, decl.inputs@, i as int, args@),
            decreases n - i,
        {
            let a = &decl.inputs[i];
            let patten = self.trans_pat(&a.pat);
            let has = has_patten(a.self_kind, &patten);
            let ty = self.trans_type(&a.ty);
            let ghost before = args@;
            args.push(Arg { loc: patten.loc, patten, ty, has_patten: has });
            proof {
                assert(args@.drop_last() =~= before);
            }
            i = i + 1;
        }
        let ret = match &decl.output {
            Some(ty) => {
                let nl = self.is_return_nl(ty.span.lo);
                let t = self.trans_type(ty);
                Return { nl, ret: Some(t) }
            },
            None => Return { nl: false, ret: None },
        };
        FnSig { args, ret }
    }

    // -----------------------------------------------------------------------
    // Structs, enums, foreign items, traits, impls
    // -----------------------------------------------------------------------

    fn trans_variant_data(&mut self, vd: &ast::VariantData) -> (r: StructBody)
        requires
            old(self).wf(),
        ensures
            final(self).wf(),
            final(self).tv() == t_variant_data(old(self).tv(), *vd),
            gives_variant_data(old(self).tv(), *vd, r),
        decreases vd, 0nat,
    {
        match vd {
            ast::VariantData::Struct(fs) => StructBody::Struct(self.trans_field_defs(fs)),
            ast::VariantData::Tuple(fs) => StructBody::Tuple(self.trans_tuple_field_defs(fs)),
            ast::VariantData::Unit => StructBody::Unit,
        }
    }

    fn trans_field_defs(&mut self, fields: &Vec<ast::FieldDef>) -> (r: Vec<StructField>)
        requires
            old(self).wf(),
        ensures
            final(self).wf(),
            final(self).tv() == t_field_defs(old(self).tv(), fields@, fields@.len() as int),
            gives_field_defs(old(self).tv(), fields@, fields@.len() as int, r@),
            r@.len() == fields@.len(),
        decreases fields, 0nat,
    {
        let ghost s0 = self.tv();
        let mut r: Vec<StructField> = Vec::new();
        let n = fields.len();
        let mut i: usize = 0;
        while i < n
            invariant
                i <= n,
                n == fields@.len(),
                r@.len() == i,
                self.wf(),
                self.tv() == t_field_defs(s0, fields@, i as int),
                gives_field_defs(s0, fields@, i as int, r@),
            decreases n - i,
        {
            let f = &fields[i];
            let loc = self.loc(&f.span);
            let attrs = self.trans_attrs(&f.attrs);
            let vis = trans_vis(&f.vis);
            let name = ident_to_string(&f.ident);
            let ty = self.trans_type(&f.ty);
            self.set_loc(&loc);
            let ghost before = r@;
            r.push(StructField { loc, attrs, vis, name, ty });
            proof {
                assert(r@.drop_last() =~= before);
            }
            i = i + 1;
        }
        r
    }

    fn trans_tuple_field_defs(&mut self, fields: &Vec<ast::TupleFieldDef>) -> (r: Vec<TupleField>)
        requires
            old(self).wf(),
        ensures
            final(self).wf(),
            final(self).tv() == t_tuple_field_defs(old(self).tv(), fields@, fields@.len() as int),
            gives_tuple_field_defs(old(self).tv(), fields@, fields@.len() as int, r@),
            r@.len() == fields@.len(),
        decreases fields, 0nat,
    {
        let ghost s0 = self.tv();
        let mut r: Vec<TupleField> = Vec::new();
        let n = fields.len();
        let mut i: usize = 0;
        while i < n
            invariant
                i <= n,
                n == fields@.len(),
                r@.len() == i,
                self.wf(),
                self.tv() == t_tuple_field_defs(s0, fields@, i as int),
                gives_tuple_field_defs(s0, fields@, i as int, r@),
            decreases n - i,
        {
            let f = &fields[i];
            let loc = self.loc(&f.span);
            let attrs = self.trans_attrs(&f.attrs);
            let vis = trans_vis(&f.vis);
            let ty = self.trans_type(&f.ty);
            self.set_loc(&loc);
            let ghost before = r@;
            r.push(TupleField { loc, attrs, vis, ty });
            proof {
                assert(r@.drop_last() =~= before);
            }
            i = i + 1;
        }
        r
    }

    fn trans_variants(&mut self, vars: &Vec<ast::Variant>) -> (r: Vec<EnumField>)
        requires
            old(self).wf(),
        ensures
            final(self).wf(),
            final(self).tv() == t_variants(old(self).tv(), vars@, vars@.len() as int),
            gives_variants(old(self).tv(), vars@, vars@.len() as int, r@),
            r@.len() == vars@.len(),
        decreases vars, 0nat,
    {
        let ghost s0 = self.tv();
        let mut r: Vec<EnumField> = Vec::new();
        let n = vars.len();
        let mut i: usize = 0;
        while i < n
            invariant
                i <= n,
                n == vars@.len(),
                r@.len() == i,
                self.wf(),
                self.tv() == t_variants(s0, vars@, i as int),
                gives_variants(s0, vars@, i as int, r@),
            decreases n - i,
        {
            let f = self.trans_variant(&vars[i]);
            let ghost before = r@;
            r.push(f);
            proof {
                assert(r@.drop_last() =~= before);
            }
            i = i + 1;
        }
        r
    }

    #[verifier::spinoff_prover]
    #[verifier::rlimit(40)]
    fn trans_variant(&mut self, var: &ast::Variant) -> (r: EnumField)
        requires
            old(self).wf(),
        ensures
            final(self).wf(),
            final(self).tv() == t_variant(old(self).tv(), *var),
            gives_variant(old(self).tv(), *var, r),
            r.loc == loc_of(old(self).tv(), var.span),
        decreases var, 0nat,
    {
        let loc = self.loc(&var.span);
        let attrs = self.trans_attrs(&var.attrs);
        let name = ident_to_string(&var.ident);
        let body = self.trans_variant_data(&var.data);
        let expr = match &var.disr_expr {
            Some(e) => Some(self.trans_expr(e)),
            None => None,
        };
        self.set_loc(&loc);
        EnumField { loc, attrs, name, body, expr }
    }

    fn trans_foreign_items(&mut self, items: &Vec<ast::ForeignItem>) -> (r: Vec<ForeignItem>)
        requires
            old(self).wf(),
        ensures
            final(self).wf(),
            final(self).tv() == t_foreign_items(old(self).tv(), items@, items@.len() as int),
            gives_foreign_items(old(self).tv(), items@, items@.len() as int, r@),
            r@.len() == items@.len(),
        decreases items, 0nat,
    {
        let ghost s0 = self.tv();
        let mut r: Vec<ForeignItem> = Vec::new();
        let n = items.len();
        let mut i: usize = 0;
        while i < n
            invariant
                i <= n,
                n == items@.len(),
                r@.len() == i,
                self.wf(),
                self.tv() == t_foreign_items(s0, items@, i as int),
                gives_foreign_items(s0, items@, i as int, r@),
            decreases n - i,
        {
            let it = self.trans_foreign_item(&items[i]);
            let ghost before = r@;
            r.push(it);
            proof {
                assert(r@.drop_last() =~= before);
            }
            i = i + 1;
        }
        r
    }

    #[verifier::spinoff_prover]
    #[verifier::rlimit(40)]
    fn trans_foreign_item(&mut self, item: &ast::ForeignItem) -> (r: ForeignItem)
        requires
            old(self).wf(),
        ensures
            final(self).wf(),
            final(self).tv() == t_foreign_item(old(self).tv(), *item),
            gives_foreign_item(old(self).tv(), *item, r),
            r.loc == loc_of(old(self).tv(), item.span),
        decreases item, 0nat,
    {
        let loc = self.loc(&item.span);
        let attrs = self.trans_attrs(&item.attrs);
        let vis = trans_vis(&item.vis);
        let ident = ident_to_string(&item.ident);
        let kind = match &item.kind {
            ast::ForeignItemKind::Ty => ForeignKind::Type(ident),
            ast::ForeignItemKind::Static(ty, is_mut) => {
                let ty = self.trans_type(ty);
                ForeignKind::Static(ForeignStatic { is_mut: *is_mut, name: ident, ty })
            },
            ast::ForeignItemKind::Fn(d, g) => {
                let generics = self.trans_generics(g);
                let sig = self.trans_fn_sig(d);
                ForeignKind::Fn(ForeignFn { name: ident, generics, sig })
            },
            ast::ForeignItemKind::Macro(m) => ForeignKind::Macro(self.trans_macro(m)),
        };
        self.set_loc(&loc);
        ForeignItem { loc, attrs, vis, item: kind }
    }

    fn trans_trait_items(&mut self, items: &Vec<ast::TraitItem>) -> (r: Vec<TraitItem>)
        requires
            old(self).wf(),
        ensures
            final(self).wf(),
            final(self).tv() == t_trait_items(old(self).tv(), items@, items@.len() as int),
            gives_trait_items(old(self).tv(), items@, items@.len() as int, r@),
            r@.len() == items@.len(),
        decreases items, 0nat,
    {
        let ghost s0 = self.tv();
        let mut r: Vec<TraitItem> = Vec::new();
        let n = items.len();
        let mut i: usize = 0;
        while i < n
            invariant
                i <= n,
                n == items@.len(),
                r@.len() == i,
                self.wf(),
                self.tv() == t_trait_items(s0, items@, i as int),
                gives_trait_items(s0, items@, i as int, r@),
            decreases n - i,
        {
            let it = self.trans_trait_item(&items[i]);
            let ghost before = r@;
            r.push(it);
            proof {
                assert(r@.drop_last() =~= before);
            }
            i = i + 1;
        }
        r
    }

    #[verifier::spinoff_prover]
    #[verifier::rlimit(40)]
    fn trans_trait_item(&mut self, item: &ast::TraitItem) -> (r: TraitItem)
        requires
            old(self).wf(),
        ensures
            final(self).wf(),
            final(self).tv() == t_trait_item(old(self).tv(), *item),
            gives_trait_item(old(self).tv(), *item, r),
            r.loc == loc_of(old(self).tv(), item.span),
        decreases item, 0nat,
    {
        let loc = self.loc(&item.span);
        let attrs = self.trans_attrs(&item.attrs);
        let ident = ident_to_string(&item.ident);
        let generics = self.trans_generics(&item.generics);
        let kind = match &item.kind {
            ast::TraitItemKind::Const(ty, e) => {
                let ty = self.trans_type(ty);
                let expr = match e {
                    Some(e) => Some(self.trans_expr(e)),
                    None => None,
                };
                TraitItemKind::Const(ConstTraitItem { name: ident, ty, expr })
            },
            ast::TraitItemKind::Type(b, ty) => {
                let bounds = self.trans_bounds(b);
                let ty = match ty {
                    Some(t) => Some(self.trans_type(t)),
                    None => None,
                };
                TraitItemKind::Type(TypeTraitItem { name: ident, generics, bounds, ty })
            },
            ast::TraitItemKind::Method(sig, block) => {
                let header = trans_fn_header(&sig.header);
                let fn_sig = self.trans_fn_sig(&sig.decl);
                let block = match block {
                    Some(b) => Some(self.trans_block(b)),
                    None => None,
                };
                TraitItemKind::Method(
                    MethodTraitItem {
                        sig: MethodSig { header, name: ident, generics, sig: fn_sig },
                        block,
                    },
                )
            },
            ast::TraitItemKind::Macro(m) => TraitItemKind::Macro(self.trans_macro(m)),
        };
        self.set_loc(&loc);
        TraitItem { loc, attrs, item: kind }
    }

    fn trans_impl_items(&mut self, items: &Vec<ast::ImplItem>) -> (r: Vec<ImplItem>)
        requires
            old(self).wf(),
        ensures
            final(self).wf(),
            final(self).tv() == t_impl_items(old(self).tv(), items@, items@.len() as int),
            gives_impl_items(old(self).tv(), items@, items@.len() as int, r@),
            r@.len() == items@.len(),
        decreases items, 0nat,
    {
        let ghost s0 = self.tv();
        let mut r: Vec<ImplItem> = Vec::new();
        let n = items.len();
        let mut i: usize = 0;
        while i < n
            invariant
                i <= n,
                n == items@.len(),
                r@.len() == i,
                self.wf(),
                self.tv() == t_impl_items(s0, items@, i as int),
                gives_impl_items(s0, items@, i as int, r@),
            decreases n - i,
        {
            let it = self.trans_impl_item(&items[i]);
            let ghost before = r@;
            r.push(it);
            proof {
                assert(r@.drop_last() =~= before);
            }
            i = i + 1;
        }
        r
    }

    #[verifier::spinoff_prover]
    #[verifier::rlimit(40)]
    fn trans_impl_item(&mut self, item: &ast::ImplItem) -> (r: ImplItem)
        requires
            old(self).wf(),
        ensures
            final(self).wf(),
            final(self).tv() == t_impl_item(old(self).tv(), *item),
            gives_impl_item(old(self).tv(), *item, r),
            r.loc == loc_of(old(self).tv(), item.span),
        decreases item, 0nat,
    {
        let loc = self.loc(&item.span);
        let attrs = self.trans_attrs(&item.attrs);
        let vis = trans_vis(&item.vis);
        let ident = ident_to_string(&item.ident);
        let generics = self.trans_generics(&item.generics);
        let kind = match &item.kind {
            ast::ImplItemKind::Const(ty, e) => {
                let ty = self.trans_type(ty);
                let expr = self.trans_expr(e);
                ImplItemKind::Const(Const { name: ident, ty, expr })
            },
            ast::ImplItemKind::Type(ty) => {
                let ty = self.trans_type(ty);
                ImplItemKind::Type(TypeImplItem { name: ident, generics, ty })
            },
            ast::ImplItemKind::Existential(b) => {
                let bounds = self.trans_bounds(b);
                ImplItemKind::Existential(ExistentialImplItem { name: ident, generics, bounds })
            },
            ast::ImplItemKind::Method(sig, b) => {
                let header = trans_fn_header(&sig.header);
                let fn_sig = self.trans_fn_sig(&sig.decl);
                let block = self.trans_block(b);
                ImplItemKind::Method(
                    MethodImplItem {
                        sig: MethodSig { header, name: ident, generics, sig: fn_sig },
                        block,
                    },
                )
            },
            ast::ImplItemKind::Macro(m) => ImplItemKind::Macro(self.trans_macro(m)),
        };
        self.set_loc(&loc);
        ImplItem { loc, attrs, vis, is_default: item.is_default, item: kind }
    }

    // -----------------------------------------------------------------------
    // Blocks, statements, patterns
    // -----------------------------------------------------------------------

    fn trans_block(&mut self, block: &ast::Block) -> (r: Block)
        requires
            old(self).wf(),
        ensures
            final(self).wf(),
            final(self).tv() == t_block(old(self).tv(), *block),
            gives_block(old(self).tv(), *block, r),
            r.loc == loc_of(old(self).tv(), block.span),
        decreases block, 0nat,
    {
        let loc = self.loc(&block.span);
        let ghost s0 = self.tv();
        let mut stmts: Vec<Stmt> = Vec::new();
        let n = block.stmts.len();
        let mut i: usize = 0;
        while i < n
            invariant
                i <= n,
                n == block.stmts@.len(),
                self.wf(),
                self.tv() == t_stmts(s0, block.stmts@, i as int),
                gives_stmts(s0, block.stmts@, i as int, stmts@),
            decreases n - i,
        {
            let st = self.trans_stmt(&block.stmts[i]);
            let ghost before = stmts@;
            stmts.push(st);
            proof {
                assert(stmts@.drop_last() =~= before);
            }
            i = i + 1;
        }
        self.set_loc(&loc);
        Block { loc, is_unsafe: is_block_unsafe(block.rules), stmts }
    }

    #[verifier::spinoff_prover]
    #[verifier::rlimit(40)]
    fn trans_stmt(&mut self, stmt: &ast::Stmt) -> (r: Stmt)
        requires
            old(self).wf(),
        ensures
            final(self).wf(),
            final(self).tv() == t_stmt(old(self).tv(), *stmt),
            gives_stmt(old(self).tv(), *stmt, r),
            r.loc == loc_of(old(self).tv(), stmt.span),
        decreases stmt, 0nat,
    {
        let loc = self.loc(&stmt.span);
        let kind = match &stmt.kind {
            ast::StmtKind::Item(item) => StmtKind::Item(self.trans_item(item)),
            ast::StmtKind::Local(local) => StmtKind::Let(self.trans_local(local)),
            ast::StmtKind::Semi(e) => StmtKind::Expr(self.trans_expr(e), true),
            ast::StmtKind::Expr(e) => StmtKind::Expr(self.trans_expr(e), false),
            ast::StmtKind::Mac(m, is_semi, attrs) => {
                let mloc = self.loc(&m.span);
                let attrs = self.trans_attrs(attrs);
                let mac = self.trans_macro(m);
                self.set_loc(&mloc);
                StmtKind::Macro(MacroStmt { loc: mloc, attrs, mac, is_semi: *is_semi })
            },
        };
        self.set_loc(&loc);
        Stmt { loc, stmt: kind }
    }

    #[verifier::spinoff_prover]
    #[verifier::rlimit(40)]
    fn trans_local(&mut self, local: &ast::Local) -> (r: Let)
        requires
            old(self).wf(),
        ensures
            final(self).wf(),
            final(self).tv() == t_local(old(self).tv(), *local),
            gives_local(old(self).tv(), *local, r),
            r.loc == loc_of(old(self).tv(), local.span),
        decreases local, 0nat,
    {
        let loc = self.loc(&local.span);
        let attrs = self.trans_attrs(&local.attrs);
        let patten = self.trans_pat(&local.pat);
        let ty = match &local.ty {
            Some(t) => Some(self.trans_type(t)),
            None => None,
        };
        let init = match &local.init {
            Some(e) => Some(self.trans_expr(e)),
            None => None,
        };
        self.set_loc(&loc);
        Let { loc, attrs, patten, ty, init }
    }

    fn trans_pats(&mut self, pats: &Vec<ast::Pat>) -> (r: Vec<Patten>)
        requires
            old(self).wf(),
        ensures
            final(self).wf(),
            final(self).tv() == t_pats(old(self).tv(), pats@, pats@.len() as int),
            gives_pats(old(self).tv(), pats@, pats@.len() as int, r@),
            r@.len() == pats@.len(),
        decreases pats, 0nat,
    {
        let ghost s0 = self.tv();
        let mut r: Vec<Patten> = Vec::new();
        let n = pats.len();
        let mut i: usize = 0;
        while i < n
            invariant
                i <= n,
                n == pats@.len(),
                r@.len() == i,
                self.wf(),
                self.tv() == t_pats(s0, pats@, i as int),
                gives_pats(s0, pats@, i as int, r@),
                forall|k: int| 0 <= k < i ==> (#[trigger] r@[k]).loc.start == pats@[k].span.lo,
            decreases n - i,
        {
            let p = self.trans_pat(&pats[i]);
            let ghost before = r@;
            r.push(p);
            proof {
                assert(r@.drop_last() =~= before);
            }
            i = i + 1;
        }
        r
    }

    #[verifier::spinoff_prover]
    #[verifier::rlimit(40)]
    fn trans_pat(&mut self, pat: &ast::Pat) -> (r: Patten)
        requires
            old(self).wf(),
        ensures
            final(self).wf(),
            final(self).tv() == t_pat(old(self).tv(), *pat),
            gives_pat(old(self).tv(), *pat, r),
            r.loc == loc_of(old(self).tv(), pat.span),
        decreases pat, 0nat,
    {
        let loc = self.loc(&pat.span);
        let kind = match &pat.kind {
            ast::PatKind::Wild => PattenKind::Wildcard,
            ast::PatKind::Lit(e) => PattenKind::Literal(self.trans_expr(e)),
            ast::PatKind::Range(a, b, inclusive) => {
                let start = self.trans_expr(a);
                let end = self.trans_expr(b);
                PattenKind::Range(RangePatten { start, end, is_inclusive: *inclusive })
            },
            ast::PatKind::Ref(p, is_mut) => {
                let patten = self.trans_pat(p);
                PattenKind::Ref(Box::new(RefPatten { is_mut: *is_mut, patten }))
            },
            ast::PatKind::Path(q, p) => {
                let qself = self.trans_qself(q);
                let path = self.trans_path(p);
                PattenKind::Path(PathType { qself, path })
            },
            ast::PatKind::Ident(is_ref, is_mut, ident, sub) => {
                let name = ident_to_string(ident);
                let patten = match sub {
                    Some(p) => Some(self.trans_pat(p)),
                    None => None,
                };
                PattenKind::Ident(
                    Box::new(IdentPatten { is_ref: *is_ref, is_mut: *is_mut, name, patten }),
                )
            },
            ast::PatKind::Struct(p, fields, omit) => {
                let path = self.trans_path(p);
                let fields = self.trans_field_pats(fields);
                PattenKind::Struct(StructPatten { path, fields, omit: *omit })
            },
            ast::PatKind::TupleStruct(p, pats) => {
                let path = self.trans_path(p);
                let pattens = self.trans_pats(pats);
                PattenKind::Enum(EnumPatten { path, pattens })
            },
            ast::PatKind::Paren(p) => {
                let inner = self.trans_pat(p);
                let mut pattens: Vec<Patten> = Vec::new();
                pattens.push(inner);
                PattenKind::Tuple(TuplePatten { pattens })
            },
            ast::PatKind::Tuple(pats) => PattenKind::Tuple(TuplePatten { pattens: self.trans_pats(pats) }),
            ast::PatKind::Slice(pats) => PattenKind::Slice(
                Box::new(SlicePatten { pattens: self.trans_pats(pats) }),
            ),
            ast::PatKind::Rest => PattenKind::Symbol(".."),
            ast::PatKind::Mac(m) => PattenKind::Macro(self.trans_macro(m)),
        };
        self.set_loc(&loc);
        Patten { loc, patten: kind }
    }

    fn trans_field_pats(&mut self, fields: &Vec<ast::FieldPat>) -> (r: Vec<StructFieldPatten>)
        requires
            old(self).wf(),
        ensures
            final(self).wf(),
            final(self).tv() == t_field_pats(old(self).tv(), fields@, fields@.len() as int),
            gives_field_pats(old(self).tv(), fields@, fields@.len() as int, r@),
        decreases fields, 0nat,
    {
        let ghost s0 = self.tv();
        let mut r: Vec<StructFieldPatten> = Vec::new();
        let n = fields.len();
        let mut i: usize = 0;
        while i < n
            invariant
                i <= n,
                n == fields@.len(),
                self.wf(),
                self.tv() == t_field_pats(s0, fields@, i as int),
                gives_field_pats(s0, fields@, i as int, r@),
            decreases n - i,
        {
            let f = &fields[i];
            let loc = self.loc(&f.span);
            let name = ident_to_string(&f.ident);
            let patten = self.trans_pat(&f.pat);
            self.set_loc(&loc);
            let ghost before = r@;
            r.push(StructFieldPatten { loc, name, patten, shorthand: f.is_shorthand });
            proof {
                assert(r@.drop_last() =~= before);
            }
            i = i + 1;
        }
        r
    }

    // -----------------------------------------------------------------------
    // Expressions
    // -----------------------------------------------------------------------

    fn trans_exprs(&mut self, exprs: &Vec<ast::Expr>) -> (r: Vec<Expr>)
        requires
            old(self).wf(),
        ensures
            final(self).wf(),
            final(self).tv() == t_exprs(old(self).tv(), exprs@, exprs@.len() as int),
            gives_exprs(old(self).tv(), exprs@, exprs@.len() as int, r@),
            r@.len() == exprs@.len(),
        decreases exprs, 0nat,
    {
        let ghost s0 = self.tv();
        let mut r: Vec<Expr> = Vec::new();
        let n = exprs.len();
        let mut i: usize = 0;
        while i < n
            invariant
                i <= n,
                n == exprs@.len(),
                r@.len() == i,
                self.wf(),
                self.tv() == t_exprs(s0, exprs@, i as int),
                gives_exprs(s0, exprs@, i as int, r@),
            decreases n - i,
        {
            let e = self.trans_expr(&exprs[i]);
            let ghost before = r@;
            r.push(e);
            proof {
                assert(r@.drop_last() =~= before);
            }
            i = i + 1;
        }
        r
    }

    fn trans_opt_expr(&mut self, e: &Option<Box<ast::Expr>>) -> (r: Option<Expr>)
        requires
            old(self).wf(),
        ensures
            final(self).wf(),
            final(self).tv() == t_opt_expr(old(self).tv(), *e),
            gives_opt_expr(old(self).tv(), *e, r),
        decreases e, 0nat,
    {
        match e {
            Some(x) => Some(self.trans_expr(x)),
            None => None,
        }
    }

    fn trans_expr(&mut self, expr: &ast::Expr) -> (r: Expr)
        requires
            old(self).wf(),
        ensures
            final(self).wf(),
            final(self).tv() == t_expr(old(self).tv(), *expr),
            gives_expr(old(self).tv(), *expr, r),
            r.loc == loc_of(old(self).tv(), expr.span),
        decreases expr, 1nat,
    {
        let loc = self.loc(&expr.span);
        let attrs = self.trans_attrs(&expr.attrs);
        let kind = self.trans_expr_kind(&expr.kind);
        self.set_loc(&loc);
        Expr { loc, attrs, expr: kind }
    }

    #[verifier::spinoff_prover]
    #[verifier::rlimit(40)]
    fn trans_expr_kind(&mut self, kind: &ast::ExprKind) -> (r: ExprKind)
        requires
            old(self).wf(),
        ensures
            final(self).wf(),
            final(self).tv() == t_expr_kind(old(self).tv(), *kind),
            gives_expr_kind(old(self).tv(), *kind, r),
        decreases kind, 0nat,
    {
        match kind {
            ast::ExprKind::Lit(lit) => {
                let loc = self.leaf_loc(&lit.span);
                ExprKind::Literal(Chunk { loc, s: lit.text.clone() })
            },
            ast::ExprKind::Path(q, p) => {
                let qself = self.trans_qself(q);
                let path = self.trans_path(p);
                ExprKind::Path(PathType { qself, path })
            },
            ast::ExprKind::AddrOf(is_mut, x) => {
                let expr = self.trans_expr(x);
                ExprKind::Ref(Box::new(RefExpr { is_mut: *is_mut, expr }))
            },
            ast::ExprKind::Unary(op, x) => {
                let expr = self.trans_expr(x);
                ExprKind::UnaryOp(Box::new(UnaryOpExpr { op: unop_to_string(*op), expr }))
            },
            ast::ExprKind::Try(x) => ExprKind::Try(Box::new(self.trans_expr(x))),
            ast::ExprKind::Binary(op, a, b) => {
                let loc = self.leaf_loc(&op.span);
                let op = Chunk { loc, s: binop_to_string(op.kind).to_owned() };
                let left = self.trans_expr(a);
                let right = self.trans_expr(b);
                ExprKind::ListOp(Box::new(ListOpExpr { op, exprs: vec![left, right] }))
            },
            ast::ExprKind::Assign(a, b) => {
                let op = Chunk::new("=");
                let left = self.trans_expr(a);
                let right = self.trans_expr(b);
                ExprKind::ListOp(Box::new(ListOpExpr { op, exprs: vec![left, right] }))
            },
            ast::ExprKind::AssignOp(op, a, b) => {
                let loc = self.leaf_loc(&op.span);
                let mut s = binop_to_string(op.kind).to_owned();
                s.append("=");
                let op = Chunk { loc, s };
                let left = self.trans_expr(a);
                let right = self.trans_expr(b);
                ExprKind::ListOp(Box::new(ListOpExpr { op, exprs: vec![left, right] }))
            },
            ast::ExprKind::Repeat(a, b) => {
                let value = self.trans_expr(a);
                let len = self.trans_expr(b);
                ExprKind::Repeat(Box::new(RepeatExpr { value, len }))
            },
            ast::ExprKind::Array(v) => ExprKind::Array(Box::new(self.trans_exprs(v))),
            ast::ExprKind::Tup(v) => ExprKind::Tuple(Box::new(self.trans_exprs(v))),
            ast::ExprKind::Paren(x) => {
                let inner = self.trans_expr(x);
                ExprKind::Tuple(Box::new(vec![inner]))
            },
            ast::ExprKind::Index(a, b) => {
                let obj = self.trans_expr(a);
                let index = self.trans_expr(b);
                ExprKind::Index(Box::new(IndexExpr { obj, index }))
            },
            ast::ExprKind::Struct(p, fields, base) => {
                let path = self.trans_path(p);
                let fields = self.trans_fields(fields);
                let base = self.trans_opt_expr(base);
                ExprKind::Struct(Box::new(StructExpr { path, fields, base }))
            },
            ast::ExprKind::Field(x, ident) => {
                let expr = self.trans_expr(x);
                ExprKind::Field(Box::new(FieldExpr { expr, field: ident_to_string(ident) }))
            },
            ast::ExprKind::Type(x, t) => {
                let expr = self.trans_expr(x);
                let ty = self.trans_type(t);
                ExprKind::Type(Box::new(TypeExpr { expr, ty }))
            },
            ast::ExprKind::Cast(x, t) => {
                let expr = self.trans_expr(x);
                let ty = self.trans_type(t);
                ExprKind::Cast(Box::new(CastExpr { expr, ty }))
            },
            ast::ExprKind::Range(a, b, inclusive) => {
                let start = self.trans_opt_expr(a);
                let end = self.trans_opt_expr(b);
                ExprKind::Range(Box::new(RangeExpr { start, end, is_inclusive: *inclusive }))
            },
            ast::ExprKind::Block(b, label) => {
                let label = label_string(label);
                let block = self.trans_block(b);
                ExprKind::Block(Box::new(BlockExpr { label, block }))
            },
            ast::ExprKind::If(c, b, br) => {
                let expr = self.trans_expr(c);
                let block = self.trans_block(b);
                let br = self.trans_opt_expr(br);
                ExprKind::If(Box::new(IfExpr { expr, block, br }))
            },
            ast::ExprKind::While(c, b, label) => {
                let label = label_string(label);
                let expr = self.trans_expr(c);
                let block = self.trans_block(b);
                ExprKind::While(Box::new(WhileExpr { label, expr, block }))
            },
            ast::ExprKind::Let(ps, x) => {
                let pattens = self.trans_pats(ps);
                let expr = self.trans_expr(x);
                ExprKind::Let(Box::new(LetExpr { pattens, expr }))
            },
            ast::ExprKind::ForLoop(p, x, b, label) => {
                let label = label_string(label);
                let patten = self.trans_pat(p);
                let expr = self.trans_expr(x);
                let block = self.trans_block(b);
                ExprKind::For(Box::new(ForExpr { label, patten, expr, block }))
            },
            ast::ExprKind::Loop(b, label) => {
                let label = label_string(label);
                let block = self.trans_block(b);
                ExprKind::Loop(Box::new(LoopExpr { label, block }))
            },
            ast::ExprKind::Break(label, x) => {
                let label = label_string(label);
                let expr = self.trans_opt_expr(x);
                ExprKind::Break(Box::new(BreakExpr { label, expr }))
            },
            ast::ExprKind::Continue(label) => ExprKind::Continue(
                Box::new(ContinueExpr { label: label_string(label) }),
            ),
            ast::ExprKind::Match(x, arms) => {
                let expr = self.trans_expr(x);
                let arms = self.trans_arms(arms);
                ExprKind::Match(Box::new(MatchExpr { expr, arms }))
            },
            ast::ExprKind::Call(f, args) => {
                let name = self.trans_expr(f);
                let args = self.trans_exprs(args);
                ExprKind::FnCall(Box::new(FnCallExpr { name, args }))
            },
            ast::ExprKind::MethodCall(seg, args) => {
                let path = self.trans_segment(seg);
                let args = self.trans_exprs(args);
                ExprKind::MethodCall(Box::new(MethodCallExpr { path, args }))
            },
            ast::ExprKind::Closure(c) => {
                let sig = self.trans_fn_sig(&c.decl);
                let expr = self.trans_expr(&c.body);
                ExprKind::Closure(
                    Box::new(
                        ClosureExpr {
                            is_static: c.is_static,
                            is_async: c.is_async,
                            is_move: c.is_move,
                            sig,
                            expr,
                        },
                    ),
                )
            },
            ast::ExprKind::Ret(x) => {
                let ret = self.trans_opt_expr(x);
                ExprKind::Return(Box::new(ReturnExpr { ret }))
            },
            ast::ExprKind::Mac(m) => ExprKind::Macro(self.trans_macro(m)),
        }
    }

    fn trans_fields(&mut self, fields: &Vec<ast::Field>) -> (r: Vec<StructFieldExpr>)
        requires
            old(self).wf(),
        ensures
            final(self).wf(),
            final(self).tv() == t_fields(old(self).tv(), fields@, fields@.len() as int),
            gives_fields(old(self).tv(), fields@, fields@.len() as int, r@),
        decreases fields, 0nat,
    {
        let ghost s0 = self.tv();
        let mut r: Vec<StructFieldExpr> = Vec::new();
        let n = fields.len();
        let mut i: usize = 0;
        while i < n
            invariant
                i <= n,
                n == fields@.len(),
                self.wf(),
                self.tv() == t_fields(s0, fields@, i as int),
                gives_fields(s0, fields@, i as int, r@),
            decreases n - i,
        {
            let f = &fields[i];
            let loc = self.loc(&f.span);
            let name = ident_to_string(&f.ident);
            let value = self.trans_expr(&f.expr);
            self.set_loc(&loc);
            let ghost before = r@;
            r.push(StructFieldExpr { loc, name, value });
            proof {
                assert(r@.drop_last() =~= before);
            }
            i = i + 1;
        }
        r
    }

    fn trans_arms(&mut self, arms: &Vec<ast::Arm>) -> (r: Vec<Arm>)
        requires
            old(self).wf(),
        ensures
            final(self).wf(),
            final(self).tv() == t_arms(old(self).tv(), arms@, arms@.len() as int),
            gives_arms(old(self).tv(), arms@, arms@.len() as int, r@),
        decreases arms, 0nat,
    {
        let ghost s0 = self.tv();
        let mut r: Vec<Arm> = Vec::new();
        let n = arms.len();
        let mut i: usize = 0;
        while i < n
            invariant
                i <= n,
                n == arms@.len(),
                self.wf(),
                self.tv() == t_arms(s0, arms@, i as int),
                gives_arms(s0, arms@, i as int, r@),
            decreases n - i,
        {
            let a = self.trans_arm(&arms[i]);
            let ghost before = r@;
            r.push(a);
            proof {
                assert(r@.drop_last() =~= before);
            }
            i = i + 1;
        }
        r
    }

    /// An arm spans from its first pattern (or its body, where it has no
    /// pattern) to the end of its body.
    fn trans_arm(&mut self, arm: &ast::Arm) -> (r: Arm)
        requires
            old(self).wf(),
        ensures
            final(self).wf(),
            final(self).tv() == t_arm(old(self).tv(), *arm),
            gives_arm(old(self).tv(), *arm, r),
        decreases arm, 0nat,
    {
        let attrs = self.trans_attrs(&arm.attrs);
        let pattens = self.trans_pats(&arm.pats);
        let guard = match &arm.guard {
            Some(g) => Some(self.trans_expr(g)),
            None => None,
        };
        let body = self.trans_expr(&arm.body);
        let start = if pattens.len() > 0 {
            pattens[0].loc.start
        } else {
            body.loc.start
        };
        let loc = Loc { start, end: body.loc.end, nl: false };
        Arm { loc, attrs, pattens, guard, body }
    }

    /// A macro call: its name, the delimiters its source text opens with,
    /// and its arguments with the separators between them.
    fn trans_macro(&mut self, mac: &ast::Mac) -> (r: Macro)
        requires
            old(self).wf(),
        ensures
            final(self).wf(),
            final(self).tv() == t_mac(old(self).tv(), *mac),
            gives_mac(old(self).tv(), *mac, r),
            r.style == spec_macro_style(mac.text@),
        decreases mac, 0nat,
    {
        let mut seps: Vec<MacroSep> = Vec::new();
        let m = mac.seps.len();
        let mut k: usize = 0;
        while k < m
            invariant
                k <= m,
                m == mac.seps@.len(),
                seps@.len() == k,
                forall|j: int| 0 <= j < k ==> gives_sep(#[trigger] mac.seps@[j], seps@[j]),
            decreases m - k,
        {
            seps.push(token_to_macro_sep(mac.seps[k]));
            k = k + 1;
        }
        let name = path_string(&mac.path);
        let style = macro_style(mac.text.as_str());
        let exprs = self.trans_exprs(&mac.exprs);
        Macro { name, style, exprs, seps }
    }

    /// The crate, up to the comments after its last node.
    fn trans_crate(&mut self, krate: &ast::Crate, file_name: &str) -> (r: Crate)
        requires
            old(self).wf(),
        ensures
            final(self).wf(),
            final(self).tv() == t_crate(old(self).tv(), *krate),
            gives_crate(old(self).tv(), *krate, spec_crate_mod_name(file_name@), r),
    {
        let loc = self.loc(&krate.span);
        let attrs = self.trans_attrs(&krate.attrs);
        let name = crate_mod_name(file_name);
        let module = self.trans_mod(name, &krate.module);
        Crate { loc, attrs, module }
    }
}

/// A function's header: `unsafe`, `async`, `const`, and its ABI, quoted.
fn trans_fn_header(header: &ast::FnHeader) -> (r: FnHeader)
    ensures
        r.is_unsafe == header.is_unsafe,
        r.is_async == header.is_async,
        r.is_const == header.is_const,
        r.abi@ == "\""@ + header.abi@ + "\""@,
{
    FnHeader {
        is_unsafe: header.is_unsafe,
        is_async: header.is_async,
        is_const: header.is_const,
        abi: abi_to_string(header.abi.as_str()),
    }
}

/// Every trailing comment has a line.
pub open spec fn raw_trailing_have_lines(cs: Seq<RawComment>) -> bool {
    forall|i: int| 0 <= i < cs.len() && (#[trigger] cs[i]).style == CommentStyle::Trailing ==> cs[i].lines@.len() > 0
}

/// Dropping blank lines keeps every trailing comment with its lines.
pub proof fn law_blank_scan_trailing(cs: Seq<RawComment>)
    requires
        raw_trailing_have_lines(cs),
    ensures
        trailing_have_lines(blank_scan(cs).2),
    decreases cs.len(),
{
    if cs.len() > 0 {
        let d = cs.drop_last();
        assert forall|i: int| 0 <= i < d.len() && (#[trigger] d[i]).style == CommentStyle::Trailing implies d[i].lines@.len() > 0 by {
            assert(d[i] == cs[i]);
        }
        law_blank_scan_trailing(d);
        let out = blank_scan(cs).2;
        let prev = blank_scan(d).2;
        let c = cs.last();
        assert(cs[cs.len() - 1] == c);
        assert forall|i: int| 0 <= i < out.len() && (#[trigger] out[i]).1 == CommentKind::Trailing implies out[i].2.len() > 0 by {
            if i < prev.len() {
                assert(out[i] == prev[i]);
            } else {
                assert(out[i] == raw_view(c));
                assert(c.style == CommentStyle::Trailing);
            }
        }
    }
}

/// What translating a crate gives: the crate, and the comments by the
/// position of the node they stand before (leading) or after (trailing).
pub struct TrResult {
    pub krate: Crate,
    pub leading_cmnts: HashMap<Pos, Vec<String>>,
    pub trailing_cmnts: HashMap<Pos, String>,
}

/// The translator's state at the start: the comments (blank lines cut) all
/// to hand out, none handed out, no node before.
pub open spec fn tr_start(src: Seq<char>, cmnts: Seq<RawComment>) -> TrState {
    TrState {
        v: TrackerView {
            cmnts: blank_scan(cmnts).2,
            idx: 0,
            last_end: 0,
            leading: Map::empty(),
            trailing: Map::empty(),
        },
        src,
    }
}


/// Translates the crate parsed from `src` (whose file is `file_name` and
/// ends at `file_end`), handing each comment to the node it stands before or
/// after.
///
/// The crate is what the steps of `translation` give (`gives_crate`); the
/// comments go as those steps say, and those after the last node go to the
/// end of the file.
pub fn trans(
    src: String,
    file_name: &str,
    file_end: Pos,
    krate: &ast::Crate,
    cmnts: Vec<RawComment>,
) -> (r: TrResult)
    requires
        raw_trailing_have_lines(cmnts@),
    ensures
        ({
            let s = t_crate(tr_start(src@, cmnts@), *krate);
            &&& r.leading_cmnts@.map_values(|v: Vec<String>| strings_view(v@)) == hand_out(s.v, file_end).leading
            &&& r.trailing_cmnts@.map_values(|c: String| c@) == hand_out(s.v, file_end).trailing
            &&& gives_crate(tr_start(src@, cmnts@), *krate, spec_crate_mod_name(file_name@), r.krate)
        }),
{
    let ghost raw = cmnts@;
    let ghost text = src@;
    proof {
        law_blank_scan_trailing(raw);
    }
    let list = trans_comments(cmnts);
    let tracker = CommentTracker::new(list);
    let mut t = Translator { tracker, src };
    assert(t.tracker@.leading =~= Map::empty());
    assert(t.tracker@.trailing =~= Map::empty());
    assert(t.tv() == tr_start(text, raw));
    let krate = t.trans_crate(krate, file_name);
    let (leading_cmnts, trailing_cmnts) = t.tracker.finish(file_end);
    TrResult { krate, leading_cmnts, trailing_cmnts }
}

} // verus!
