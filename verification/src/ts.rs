//! The typesetter: it appends text to the output line by line, keeps the
//! current indentation and a stack of alignment columns, and records the lines
//! that grow wider than `EXCEED_WIDTH` and the lines that end in whitespace.

use std::collections::BTreeSet;
use vstd::prelude::*;
use vstd::utf8::*;

verus! {

broadcast use {
    vstd::string::group_string_axioms,
    vstd::std_specs::btree::group_btree_axioms,
    vstd::laws_cmp::group_laws_cmp,
};

pub const NL: char = '\n';

pub const EXCEED_WIDTH: usize = 120;

pub const MAX_WIDTH: usize = EXCEED_WIDTH - 1;

pub const MAX_ALIGN_COL: usize = EXCEED_WIDTH / 3;

/// Width, in bytes, of one level of indentation.
pub const INDENT_LEN: usize = 4;

/// Width, in bytes, of the extra indentation of a wrapped line.
pub const WRAP_INDENT_LEN: usize = 8;

// ---------------------------------------------------------------------------
// Text measures
// ---------------------------------------------------------------------------

/// The length in bytes of the UTF-8 encoding of `s`.
pub open spec fn byte_len(s: Seq<char>) -> nat {
    encode_utf8(s).len()
}

/// What `str::len` gives for a string whose characters are `s`.
pub open spec fn str_len(s: Seq<char>) -> usize {
    byte_len(s) as usize
}

/// `n` spaces.
pub open spec fn spaces(n: nat) -> Seq<char> {
    Seq::new(n, |i: int| ' ')
}

pub open spec fn sat_add(a: usize, b: usize) -> usize {
    if a + b > usize::MAX {
        usize::MAX
    } else {
        (a + b) as usize
    }
}

pub open spec fn min_usize(a: int) -> nat {
    if a > usize::MAX {
        usize::MAX as nat
    } else if a < 0 {
        0
    } else {
        a as nat
    }
}

/// `a - b`, or 0 where `b` is not smaller than `a`.
pub open spec fn minus_nf(a: int, b: int) -> nat {
    if a <= b {
        0
    } else {
        (a - b) as nat
    }
}

/// Index of the first newline in `s`, or its length if it has none.
pub open spec fn first_nl(s: Seq<char>) -> nat
    decreases s.len(),
{
    if s.len() == 0 {
        0
    } else if s[0] == NL {
        0
    } else {
        1 + first_nl(s.drop_first())
    }
}

/// The length in bytes of the first line of `s`.
pub open spec fn one_line_len(s: Seq<char>) -> nat {
    byte_len(s.take(first_nl(s) as int))
}

/// The character has no newline.
pub open spec fn no_nl(s: Seq<char>) -> bool {
    forall|i: int| 0 <= i < s.len() ==> s[i] != NL
}

/// Unicode's White_Space property, which `char::is_whitespace` tests.
pub open spec fn is_ws(c: char) -> bool {
    let v = c as u32;
    ||| 0x9 <= v <= 0xD
    ||| v == 0x20
    ||| v == 0x85
    ||| v == 0xA0
    ||| v == 0x1680
    ||| 0x2000 <= v <= 0x200A
    ||| v == 0x2028
    ||| v == 0x2029
    ||| v == 0x202F
    ||| v == 0x205F
    ||| v == 0x3000
}

/// Sum of the first-line lengths of `list[0..k]`.
pub open spec fn sum_one_line(list: Seq<Seq<char>>, k: int) -> nat
    decreases k,
{
    if k <= 0 {
        0
    } else {
        sum_one_line(list, k - 1) + one_line_len(list[k - 1])
    }
}

/// (first-line length of all strings but the last, first-line length of all),
/// each capped at `usize::MAX`.
pub open spec fn list_len_info(list: Seq<Seq<char>>) -> (nat, nat) {
    let prefix = if list.len() > 1 {
        min_usize(sum_one_line(list, list.len() - 1) as int)
    } else {
        0
    };
    (prefix, min_usize(sum_one_line(list, list.len() as int) as int))
}

pub open spec fn strs_view(list: Seq<&str>) -> Seq<Seq<char>> {
    list.map_values(|s: &str| s@)
}

proof fn lemma_byte_len_concat(a: Seq<char>, b: Seq<char>)
    ensures
        byte_len(a + b) == byte_len(a) + byte_len(b),
    decreases a.len(),
{
    if a.len() == 0 {
        assert(a + b =~= b);
    } else {
        assert((a + b).drop_first() =~= a.drop_first() + b);
        lemma_byte_len_concat(a.drop_first(), b);
    }
}

proof fn lemma_byte_len_push(a: Seq<char>, c: char)
    ensures
        byte_len(a.push(c)) == byte_len(a) + encode_scalar(c as u32).len(),
{
    lemma_byte_len_concat(a, seq![c]);
    assert(a.push(c) =~= a + seq![c]);
    assert(seq![c].drop_first() =~= Seq::<char>::empty());
    assert(encode_utf8(Seq::<char>::empty()) =~= Seq::<u8>::empty());
    assert(encode_utf8(seq![c]) =~= encode_scalar(c as u32) + encode_utf8(seq![c].drop_first()));
}

pub proof fn lemma_spaces_byte_len(n: nat)
    ensures
        byte_len(spaces(n)) == n,
    decreases n,
{
    if n > 0 {
        lemma_spaces_byte_len((n - 1) as nat);
        assert(spaces(n) =~= spaces((n - 1) as nat).push(' '));
        lemma_byte_len_push(spaces((n - 1) as nat), ' ');
    }
}

/// Number of bytes in the UTF-8 encoding of `c`.
fn char_len(c: char) -> (n: usize)
    ensures
        n == encode_scalar(c as u32).len(),
        1 <= n <= 4,
{
    proof {
        char_is_scalar(c);
    }
    let v = c as u32;
    if v <= 0x7F {
        1
    } else if v <= 0x7FF {
        2
    } else if v <= 0xFFFF {
        3
    } else {
        4
    }
}

/// Byte length of the first line of `s`, capped at `usize::MAX`.
pub fn str_one_line_len(s: &str) -> (n: usize)
    ensures
        n == min_usize(one_line_len(s@) as int),
{
    let mut it = s.chars();
    let mut n: usize = 0;
    let ghost mut k: int = 0;
    proof {
        lemma_first_nl_bound(s@);
        assert(s@.take(0) =~= Seq::<char>::empty());
        assert(encode_utf8(Seq::<char>::empty()) =~= Seq::<u8>::empty());
        assert(s@.skip(0) =~= s@);
    }
    loop
        invariant
            0 <= k <= first_nl(s@),
            first_nl(s@) <= s@.len(),
            vstd::std_specs::iter::IteratorSpec::remaining(&it) == s@.skip(k),
            n == min_usize(byte_len(s@.take(k)) as int),
        decreases s@.len() - k,
    {
        proof {
            lemma_first_nl_bound(s@);
        }
        let next = it.next();
        match next {
            None => {
                proof {
                    lemma_first_nl_end(s@, k);
                }
                return n;
            },
            Some(c) => {
                proof {
                    assert(s@[k] == c);
                }
                if c == NL {
                    proof {
                        lemma_first_nl_at(s@, k);
                    }
                    return n;
                }
                let w = char_len(c);
                n = n.saturating_add(w);
                proof {
                    lemma_first_nl_past(s@, k);
                    assert(s@.take(k + 1) =~= s@.take(k).push(c));
                    lemma_byte_len_push(s@.take(k), c);
                    k = k + 1;
                }
            },
        }
    }
}

proof fn lemma_first_nl_bound(s: Seq<char>)
    ensures
        first_nl(s) <= s.len(),
        first_nl(s) < s.len() ==> s[first_nl(s) as int] == NL,
        forall|i: int| 0 <= i < first_nl(s) ==> s[i] != NL,
    decreases s.len(),
{
    if s.len() > 0 && s[0] != NL {
        lemma_first_nl_bound(s.drop_first());
        assert forall|i: int| 0 <= i < first_nl(s) implies s[i] != NL by {
            if i > 0 {
                assert(s[i] == s.drop_first()[i - 1]);
            }
        }
    }
}

proof fn lemma_first_nl_end(s: Seq<char>, k: int)
    requires
        0 <= k <= first_nl(s),
        first_nl(s) <= s.len(),
        s.skip(k).len() == 0,
    ensures
        k == first_nl(s),
{
}

proof fn lemma_first_nl_at(s: Seq<char>, k: int)
    requires
        0 <= k <= first_nl(s),
        k < s.len(),
        s[k] == NL,
    ensures
        k == first_nl(s),
{
    lemma_first_nl_bound(s);
}

proof fn lemma_first_nl_past(s: Seq<char>, k: int)
    requires
        0 <= k <= first_nl(s),
        k < s.len(),
        s[k] != NL,
    ensures
        k < first_nl(s),
{
    lemma_first_nl_bound(s);
}

/// (first-line byte length of all strings but the last, of all strings), each
/// sum capped at `usize::MAX`.
pub fn list_len_info_exec(list: &[&str]) -> (r: (usize, usize))
    ensures
        r.0 == list_len_info(strs_view(list@)).0,
        r.1 == list_len_info(strs_view(list@)).1,
{
    let ghost l = strs_view(list@);
    let n = list.len();
    let mut prefix: usize = 0;
    let mut total: usize = 0;
    let mut i: usize = 0;
    while i < n
        invariant
            n == list@.len(),
            l == strs_view(list@),
            i <= n,
            total == min_usize(sum_one_line(l, i as int) as int),
            prefix == (if n > 1 && i == n {
                min_usize(sum_one_line(l, n - 1) as int)
            } else if n > 1 {
                min_usize(sum_one_line(l, i as int) as int)
            } else {
                0
            }),
            n > 1 && i < n ==> prefix == total,
        decreases n - i,
    {
        let w = str_one_line_len(list[i]);
        proof {
            assert(l[i as int] == list@[i as int]@);
        }
        let new_total = total.saturating_add(w);
        if n > 1 && i + 1 < n {
            prefix = new_total;
        }
        total = new_total;
        i = i + 1;
    }
    (prefix, total)
}

/// A string of `count` copies of `ch`.
pub fn fill_str(ch: char, count: usize) -> (s: String)
    ensures
        s@ == Seq::new(count as nat, |i: int| ch),
{
    let mut s = String::new();
    let mut i: usize = 0;
    while i < count
        invariant
            i <= count,
            s@ == Seq::new(i as nat, |j: int| ch),
        decreases count - i,
    {
        push_char(&mut s, ch);
        i = i + 1;
        assert(s@ =~= Seq::new(i as nat, |j: int| ch));
    }
    s
}

/// `String::push`: appends one character.
#[verifier::external_body]
pub(crate) fn push_char(s: &mut String, c: char)
    ensures
        final(s)@ == old(s)@.push(c),
{
    s.push(c);
}

/// `char::is_whitespace`, over the fixed list of White_Space code points.
pub fn is_whitespace(c: char) -> (b: bool)
    ensures
        b == is_ws(c),
{
    let v = c as u32;
    (0x9 <= v && v <= 0xD) || v == 0x20 || v == 0x85 || v == 0xA0 || v == 0x1680 || (0x2000 <= v
        && v <= 0x200A) || v == 0x2028 || v == 0x2029 || v == 0x202F || v == 0x205F || v
        == 0x3000
}

/// The last character of `s`, if any.
fn last_char(s: &str) -> (r: Option<char>)
    ensures
        r == (if s@.len() == 0 {
            None
        } else {
            Some(s@.last())
        }),
{
    let n = s.unicode_len();
    if n == 0 {
        None
    } else {
        Some(s.get_char(n - 1))
    }
}

fn indent_unit() -> (s: &'static str)
    ensures
        s@ == spaces(INDENT_LEN as nat),
{
    proof {
        reveal_strlit("    ");
    }
    let s = "    ";
    assert(s@ =~= spaces(INDENT_LEN as nat));
    s
}

fn wrap_indent_unit() -> (s: &'static str)
    ensures
        s@ == spaces(WRAP_INDENT_LEN as nat),
{
    proof {
        reveal_strlit("        ");
    }
    let s = "        ";
    assert(s@ =~= spaces(WRAP_INDENT_LEN as nat));
    s
}

fn nl_str() -> (s: &'static str)
    ensures
        s@ == seq![NL],
{
    proof {
        reveal_strlit("\n");
    }
    let s = "\n";
    assert(s@ =~= seq![NL]);
    s
}

// ---------------------------------------------------------------------------
// The typesetter's state and its transitions
// ---------------------------------------------------------------------------

/// The abstract state of a typesetter.
pub struct TsState {
    /// The current line, counted from 1.
    pub line: u32,
    /// The current column: bytes written on the current line.
    pub col: usize,
    /// The current indentation.
    pub indent: Seq<char>,
    /// The alignment columns, innermost last.
    pub align: Seq<usize>,
    /// The text written so far.
    pub text: Seq<char>,
    pub exceed: Set<u32>,
    pub trailing: Set<u32>,
}

pub open spec fn left(st: TsState) -> nat {
    minus_nf(MAX_WIDTH as int, st.col as int)
}

pub open spec fn should_align(st: TsState) -> bool {
    st.align.len() > 0 && st.align.last() <= MAX_ALIGN_COL
}

pub open spec fn nl_left(st: TsState) -> nat {
    if should_align(st) {
        minus_nf(MAX_WIDTH as int, st.align.last() as int)
    } else {
        minus_nf(MAX_WIDTH as int, st.indent.len() + WRAP_INDENT_LEN)
    }
}

pub open spec fn nl_indent_left(st: TsState) -> nat {
    minus_nf(MAX_WIDTH as int, st.indent.len() as int)
}

pub open spec fn need_wrap_len(st: TsState, prefix_len: nat, len: nat) -> bool {
    minus_nf(left(st) as int, prefix_len as int) == 0 || (len > left(st) && len <= nl_left(st))
}

pub open spec fn need_nl_indent_len(st: TsState, prefix_len: nat, len: nat) -> bool {
    minus_nf(left(st) as int, prefix_len as int) == 0 || (len > left(st) && len <= nl_indent_left(
        st,
    ))
}

/// Whether the strings, written in a row from the current column, call for a wrap first.
pub open spec fn need_wrap(st: TsState, list: Seq<Seq<char>>) -> bool {
    need_wrap_len(st, list_len_info(list).0, list_len_info(list).1)
}

/// Whether the strings, written in a row, call for a new indented line first.
pub open spec fn need_nl_indent(st: TsState, list: Seq<Seq<char>>) -> bool {
    need_nl_indent_len(st, list_len_info(list).0, list_len_info(list).1)
}

pub open spec fn raw_insert(st: TsState, t: Seq<char>) -> TsState {
    let col = sat_add(st.col, str_len(t));
    TsState {
        text: st.text + t,
        col: col,
        exceed: if col > EXCEED_WIDTH {
            st.exceed.insert(st.line)
        } else {
            st.exceed
        },
        ..st
    }
}

pub open spec fn force_insert(st: TsState, t: Seq<char>) -> TsState {
    TsState { text: st.text + t, ..st }
}

pub open spec fn ends_in_ws(text: Seq<char>) -> bool {
    text.len() > 0 && text.last() != NL && is_ws(text.last())
}

pub open spec fn nl(st: TsState) -> TsState {
    TsState {
        trailing: if ends_in_ws(st.text) {
            st.trailing.insert(st.line)
        } else {
            st.trailing
        },
        text: st.text.push(NL),
        line: if st.line < u32::MAX {
            (st.line + 1) as u32
        } else {
            st.line
        },
        col: 0,
        ..st
    }
}

pub open spec fn insert_indent(st: TsState) -> TsState {
    raw_insert(st, st.indent)
}

pub open spec fn nl_indent(st: TsState) -> TsState {
    insert_indent(nl(st))
}

pub open spec fn wrap(st: TsState) -> TsState {
    let s1 = nl(st);
    if should_align(s1) {
        raw_insert(s1, spaces(s1.align.last() as nat))
    } else {
        raw_insert(insert_indent(s1), spaces(WRAP_INDENT_LEN as nat))
    }
}

pub open spec fn insert(st: TsState, t: Seq<char>) -> TsState {
    if need_wrap(st, seq![t]) {
        raw_insert(wrap(st), t)
    } else {
        raw_insert(st, t)
    }
}

pub open spec fn indent(st: TsState) -> TsState {
    TsState { indent: st.indent + spaces(INDENT_LEN as nat), ..st }
}

pub open spec fn outdent(st: TsState) -> TsState {
    TsState { indent: spaces((st.indent.len() - INDENT_LEN) as nat), ..st }
}

pub open spec fn insert_mark_align(st: TsState, t: Seq<char>) -> TsState {
    let s1 = raw_insert(st, t);
    TsState { align: s1.align.push(s1.col), ..s1 }
}

pub open spec fn insert_unmark_align(st: TsState, t: Seq<char>) -> TsState {
    let s1 = raw_insert(st, t);
    TsState {
        align: if s1.align.len() > 0 {
            s1.align.drop_last()
        } else {
            s1.align
        },
        ..s1
    }
}

/// The indentation is made of whole levels of spaces.
pub open spec fn indent_ok(indent: Seq<char>) -> bool {
    &&& indent == spaces(indent.len())
    &&& indent.len() % (INDENT_LEN as nat) == 0
}

// ---------------------------------------------------------------------------
// Lines of the text, and the laws of the line records
// ---------------------------------------------------------------------------

/// The lines of `s`, split at each newline; there is always at least one.
pub open spec fn text_lines(s: Seq<char>) -> Seq<Seq<char>>
    decreases s.len(),
{
    if s.len() == 0 {
        seq![Seq::<char>::empty()]
    } else {
        let prev = text_lines(s.drop_last());
        if s.last() == NL {
            prev.push(Seq::<char>::empty())
        } else {
            prev.update(prev.len() - 1, prev.last().push(s.last()))
        }
    }
}

/// Numbers (from 1) of the lines whose length in bytes is over `EXCEED_WIDTH`.
pub open spec fn exceed_set(ls: Seq<Seq<char>>) -> Set<u32> {
    Set::new(|l: u32| 1 <= l <= ls.len() && byte_len(ls[l - 1]) > EXCEED_WIDTH)
}

/// Numbers (from 1) of the finished lines that end in a whitespace character.
pub open spec fn trailing_set(ls: Seq<Seq<char>>) -> Set<u32> {
    Set::new(|l: u32| 1 <= l < ls.len() && ls[l - 1].len() > 0 && is_ws(ls[l - 1].last()))
}

/// The position and the line records describe the text: the current line is
/// the last line of the text, the column is its length in bytes (capped at
/// `usize::MAX`), and the recorded lines are exactly the over-wide lines and the
/// finished lines with trailing whitespace.
pub open spec fn consistent(st: TsState) -> bool {
    let ls = text_lines(st.text);
    &&& ls.len() <= u32::MAX
    &&& st.line == ls.len()
    &&& st.col == min_usize(byte_len(ls.last()) as int)
    &&& st.exceed == exceed_set(ls)
    &&& st.trailing == trailing_set(ls)
}

proof fn lemma_text_lines_basic(s: Seq<char>)
    ensures
        text_lines(s).len() >= 1,
        text_lines(s).len() <= s.len() + 1,
        text_lines(s).last().len() > 0 ==> s.len() > 0 && s.last() != NL && s.last()
            == text_lines(s).last().last(),
        text_lines(s).last().len() == 0 ==> s.len() == 0 || s.last() == NL,
    decreases s.len(),
{
    if s.len() > 0 {
        lemma_text_lines_basic(s.drop_last());
    }
}

proof fn lemma_text_lines_nl(s: Seq<char>)
    ensures
        text_lines(s.push(NL)) == text_lines(s).push(Seq::<char>::empty()),
{
    assert(s.push(NL).drop_last() =~= s);
}

proof fn lemma_text_lines_append(s: Seq<char>, t: Seq<char>)
    requires
        no_nl(t),
    ensures
        text_lines(s + t) == text_lines(s).update(
            text_lines(s).len() - 1,
            text_lines(s).last() + t,
        ),
    decreases t.len(),
{
    lemma_text_lines_basic(s);
    let ls = text_lines(s);
    if t.len() == 0 {
        assert(s + t =~= s);
        assert(ls.last() + t =~= ls.last());
        assert(ls.update(ls.len() - 1, ls.last()) =~= ls);
    } else {
        let t1 = t.drop_last();
        let c = t.last();
        assert(c == t[t.len() - 1]);
        assert(no_nl(t1));
        lemma_text_lines_append(s, t1);
        assert((s + t).drop_last() =~= s + t1);
        assert((s + t).last() == c);
        let prev = text_lines(s + t1);
        assert(prev.last() == ls.last() + t1);
        assert(prev.last().push(c) =~= ls.last() + t);
        assert(text_lines(s + t) =~= ls.update(ls.len() - 1, ls.last() + t));
    }
}

/// A new typesetter's records describe its (empty) text.
pub proof fn law_new_consistent(st: TsState)
    requires
        st.line == 1,
        st.col == 0,
        st.text.len() == 0,
        st.exceed.is_empty(),
        st.trailing.is_empty(),
    ensures
        consistent(st),
{
    let ls = text_lines(st.text);
    assert(ls =~= seq![Seq::<char>::empty()]);
    assert(encode_utf8(Seq::<char>::empty()) =~= Seq::<u8>::empty());
    assert(st.exceed =~= exceed_set(ls));
    assert(st.trailing =~= trailing_set(ls));
}

/// Writing text without a newline on the current line keeps the records in
/// agreement with the text: a line is recorded as over-wide exactly when it is.
pub proof fn law_raw_insert_consistent(st: TsState, t: Seq<char>)
    requires
        consistent(st),
        no_nl(t),
        byte_len(t) <= usize::MAX,
    ensures
        consistent(raw_insert(st, t)),
{
    let ls = text_lines(st.text);
    let st2 = raw_insert(st, t);
    lemma_text_lines_basic(st.text);
    lemma_text_lines_append(st.text, t);
    let ls2 = text_lines(st2.text);
    assert(ls2 == ls.update(ls.len() - 1, ls.last() + t));
    lemma_byte_len_concat(ls.last(), t);
    assert(ls2.last() == ls.last() + t);
    assert(st2.col == min_usize(byte_len(ls2.last()) as int));
    assert forall|l: u32| #[trigger] st2.exceed.contains(l) <==> exceed_set(ls2).contains(l) by {
        if 1 <= l < ls.len() {
            assert(ls2[l - 1] == ls[l - 1]);
        }
    }
    assert(st2.exceed =~= exceed_set(ls2));
    assert forall|l: u32| #[trigger] st2.trailing.contains(l) <==> trailing_set(ls2).contains(l) by {
        if 1 <= l < ls.len() {
            assert(ls2[l - 1] == ls[l - 1]);
        }
    }
    assert(st2.trailing =~= trailing_set(ls2));
}

/// Ending a line keeps the records in agreement with the text: the finished
/// line is recorded as ending in whitespace exactly when it does.
pub proof fn law_nl_consistent(st: TsState)
    requires
        consistent(st),
        st.line < u32::MAX,
    ensures
        consistent(nl(st)),
{
    let ls = text_lines(st.text);
    let st2 = nl(st);
    lemma_text_lines_basic(st.text);
    lemma_text_lines_nl(st.text);
    let ls2 = text_lines(st2.text);
    assert(ls2 == ls.push(Seq::<char>::empty()));
    assert(encode_utf8(Seq::<char>::empty()) =~= Seq::<u8>::empty());
    assert forall|l: u32| #[trigger] st2.exceed.contains(l) <==> exceed_set(ls2).contains(l) by {
        if 1 <= l <= ls.len() {
            assert(ls2[l - 1] == ls[l - 1]);
        }
    }
    assert(st2.exceed =~= exceed_set(ls2));
    assert forall|l: u32| #[trigger] st2.trailing.contains(l) <==> trailing_set(ls2).contains(l) by {
        if 1 <= l <= ls.len() {
            assert(ls2[l - 1] == ls[l - 1]);
        }
    }
    assert(st2.trailing =~= trailing_set(ls2));
}

proof fn lemma_spaces_no_nl(n: nat)
    ensures
        no_nl(spaces(n)),
        byte_len(spaces(n)) == n,
{
    lemma_spaces_byte_len(n);
}

/// Writing the indentation keeps the records in agreement with the text.
pub proof fn law_insert_indent_consistent(st: TsState)
    requires
        consistent(st),
        indent_ok(st.indent),
        st.indent.len() <= usize::MAX,
    ensures
        consistent(insert_indent(st)),
{
    lemma_spaces_no_nl(st.indent.len());
    law_raw_insert_consistent(st, st.indent);
}

/// Wrapping keeps the records in agreement with the text.
pub proof fn law_wrap_consistent(st: TsState)
    requires
        consistent(st),
        st.line < u32::MAX,
        indent_ok(st.indent),
        st.indent.len() <= usize::MAX,
    ensures
        consistent(wrap(st)),
{
    law_nl_consistent(st);
    let s1 = nl(st);
    if should_align(s1) {
        lemma_spaces_no_nl(s1.align.last() as nat);
        law_raw_insert_consistent(s1, spaces(s1.align.last() as nat));
    } else {
        law_insert_indent_consistent(s1);
        lemma_spaces_no_nl(WRAP_INDENT_LEN as nat);
        law_raw_insert_consistent(insert_indent(s1), spaces(WRAP_INDENT_LEN as nat));
    }
}

/// Inserting text without a newline, wrapped or not, keeps the records in
/// agreement with the text.
pub proof fn law_insert_consistent(st: TsState, t: Seq<char>)
    requires
        consistent(st),
        st.line < u32::MAX,
        indent_ok(st.indent),
        st.indent.len() <= usize::MAX,
        no_nl(t),
        byte_len(t) <= usize::MAX,
    ensures
        consistent(insert(st, t)),
{
    if need_wrap(st, seq![t]) {
        law_wrap_consistent(st);
        law_raw_insert_consistent(wrap(st), t);
    } else {
        law_raw_insert_consistent(st, t);
    }
}

/// Closing a level of indentation undoes opening one.
pub proof fn law_outdent_undoes_indent(st: TsState)
    requires
        indent_ok(st.indent),
    ensures
        outdent(indent(st)) == st,
{
    assert(spaces(st.indent.len()) =~= st.indent);
    assert(outdent(indent(st)).indent =~= st.indent);
}

/// Popping the alignment column undoes pushing it: the alignment stack is
/// back as it was.
pub proof fn law_unmark_undoes_mark(st: TsState, open: Seq<char>, close: Seq<char>)
    ensures
        insert_unmark_align(insert_mark_align(st, open), close).align == st.align,
{
    let s1 = insert_mark_align(st, open);
    assert(s1.align.drop_last() =~= st.align);
}

// ---------------------------------------------------------------------------
// Runs of calls
// ---------------------------------------------------------------------------

/// A call of a typesetter operation, with its text (`force_insert` aside).
pub enum TsOp {
    RawInsert(Seq<char>),
    Insert(Seq<char>),
    Indent,
    Outdent,
    InsertIndent,
    Nl,
    NlIndent,
    Wrap,
    MarkAlign(Seq<char>),
    UnmarkAlign(Seq<char>),
}

/// What one call does to the typesetter.
pub open spec fn ts_step(st: TsState, op: TsOp) -> TsState {
    match op {
        TsOp::RawInsert(t) => raw_insert(st, t),
        TsOp::Insert(t) => insert(st, t),
        TsOp::Indent => indent(st),
        TsOp::Outdent => outdent(st),
        TsOp::InsertIndent => insert_indent(st),
        TsOp::Nl => nl(st),
        TsOp::NlIndent => nl_indent(st),
        TsOp::Wrap => wrap(st),
        TsOp::MarkAlign(t) => insert_mark_align(st, t),
        TsOp::UnmarkAlign(t) => insert_unmark_align(st, t),
    }
}

/// The typesetter after the calls `ops`, in order.
pub open spec fn ts_run(st: TsState, ops: Seq<TsOp>) -> TsState
    decreases ops.len(),
{
    if ops.len() == 0 {
        st
    } else {
        ts_step(ts_run(st, ops.drop_last()), ops.last())
    }
}

/// The call meets its condition (an outdent only over an indentation), its
/// text has no newline, and the line count and the lengths stay within the
/// machine's integers.
pub open spec fn ts_op_ok(st: TsState, op: TsOp) -> bool {
    let text_ok = |t: Seq<char>| no_nl(t) && byte_len(t) <= usize::MAX;
    let line_ok = st.line < u32::MAX && st.indent.len() <= usize::MAX;
    match op {
        TsOp::RawInsert(t) => text_ok(t),
        TsOp::Insert(t) => text_ok(t) && line_ok,
        TsOp::Indent => true,
        TsOp::Outdent => st.indent.len() >= INDENT_LEN,
        TsOp::InsertIndent => st.indent.len() <= usize::MAX,
        TsOp::Nl => st.line < u32::MAX,
        TsOp::NlIndent => line_ok,
        TsOp::Wrap => line_ok,
        TsOp::MarkAlign(t) => text_ok(t),
        TsOp::UnmarkAlign(t) => text_ok(t),
    }
}

/// Every call of the run meets its condition in the state it is made in.
pub open spec fn ts_ops_ok(st: TsState, ops: Seq<TsOp>) -> bool
    decreases ops.len(),
{
    if ops.len() == 0 {
        true
    } else {
        ts_ops_ok(st, ops.drop_last()) && ts_op_ok(ts_run(st, ops.drop_last()), ops.last())
    }
}

proof fn lemma_step_consistent(st: TsState, op: TsOp)
    requires
        consistent(st),
        indent_ok(st.indent),
        ts_op_ok(st, op),
    ensures
        consistent(ts_step(st, op)),
        indent_ok(ts_step(st, op).indent),
{
    match op {
        TsOp::RawInsert(t) => law_raw_insert_consistent(st, t),
        TsOp::Insert(t) => law_insert_consistent(st, t),
        TsOp::Indent => {
            let n = st.indent.len();
            assert(st.indent + spaces(INDENT_LEN as nat) =~= spaces((n + INDENT_LEN) as nat));
            assert((n + 4) % 4 == 0) by (nonlinear_arith)
                requires
                    n % 4 == 0,
            ;
        },
        TsOp::Outdent => {
            let n = st.indent.len();
            assert((n - 4) % 4 == 0) by (nonlinear_arith)
                requires
                    n % 4 == 0,
                    n >= 4,
            ;
        },
        TsOp::InsertIndent => law_insert_indent_consistent(st),
        TsOp::Nl => law_nl_consistent(st),
        TsOp::NlIndent => {
            law_nl_consistent(st);
            law_insert_indent_consistent(nl(st));
        },
        TsOp::Wrap => law_wrap_consistent(st),
        TsOp::MarkAlign(t) => law_raw_insert_consistent(st, t),
        TsOp::UnmarkAlign(t) => law_raw_insert_consistent(st, t),
    }
}

/// Over any run of calls that meet their conditions, the line records stay
/// in agreement with the text: the over-wide lines and the finished lines
/// that end in whitespace are exactly those recorded, and the position is
/// the end of the text.
pub proof fn law_run_consistent(st: TsState, ops: Seq<TsOp>)
    requires
        consistent(st),
        indent_ok(st.indent),
        ts_ops_ok(st, ops),
    ensures
        consistent(ts_run(st, ops)),
        indent_ok(ts_run(st, ops).indent),
    decreases ops.len(),
{
    if ops.len() > 0 {
        law_run_consistent(st, ops.drop_last());
        lemma_step_consistent(ts_run(st, ops.drop_last()), ops.last());
    }
}

/// A typesetter made by `new` and then used by any run of calls that meet
/// their conditions has records that agree with its text.
pub proof fn law_records_from_start(ops: Seq<TsOp>)
    requires
        ts_ops_ok(ts_start(), ops),
    ensures
        consistent(ts_run(ts_start(), ops)),
{
    law_new_consistent(ts_start());
    assert(spaces(0) =~= Seq::<char>::empty());
    law_run_consistent(ts_start(), ops);
}

/// Alignment marks minus unmarks among the calls.
pub open spec fn align_depth(ops: Seq<TsOp>) -> int
    decreases ops.len(),
{
    if ops.len() == 0 {
        0
    } else {
        align_depth(ops.drop_last()) + match ops.last() {
            TsOp::MarkAlign(_) => 1int,
            TsOp::UnmarkAlign(_) => -1int,
            _ => 0int,
        }
    }
}

/// No prefix of the calls unmarks more than it marks.
pub open spec fn align_never_below(ops: Seq<TsOp>) -> bool
    decreases ops.len(),
{
    ops.len() == 0 || (align_never_below(ops.drop_last()) && align_depth(ops) >= 0)
}

/// The calls mark and unmark the alignment column in balanced pairs.
pub open spec fn align_balanced(ops: Seq<TsOp>) -> bool {
    align_never_below(ops) && align_depth(ops) == 0
}

proof fn lemma_run_align(st: TsState, ops: Seq<TsOp>)
    requires
        align_never_below(ops),
    ensures
        ts_run(st, ops).align.len() == st.align.len() + align_depth(ops),
        ts_run(st, ops).align.subrange(0, st.align.len() as int) == st.align,
    decreases ops.len(),
{
    if ops.len() > 0 {
        let prev = ts_run(st, ops.drop_last());
        lemma_run_align(st, ops.drop_last());
        let n = st.align.len() as int;
        assert(align_never_below(ops.drop_last()));
        if ops.drop_last().len() == 0 {
            assert(align_depth(ops.drop_last()) == 0);
        }
        assert(align_depth(ops.drop_last()) >= 0);
        assert(prev.align.len() >= n);
        match ops.last() {
            TsOp::MarkAlign(t) => {
                let a = raw_insert(prev, t).align;
                assert(a == prev.align);
                assert(a.push(raw_insert(prev, t).col).subrange(0, n) =~= prev.align.subrange(0, n));
            },
            TsOp::UnmarkAlign(t) => {
                assert(raw_insert(prev, t).align == prev.align);
                assert(prev.align.drop_last().subrange(0, n) =~= prev.align.subrange(0, n));
            },
            TsOp::Wrap => {
                assert(nl(prev).align == prev.align);
                assert(insert_indent(nl(prev)).align == prev.align);
            },
            TsOp::Insert(t) => {
                assert(nl(prev).align == prev.align);
                assert(insert_indent(nl(prev)).align == prev.align);
            },
            _ => {},
        }
    }
}

/// Marking an alignment column, then any calls that mark and unmark in
/// balanced pairs, then unmarking, leaves the alignment stack as it was.
pub proof fn law_balanced_marks_restore_align(st: TsState, open: Seq<char>, ops: Seq<TsOp>, close: Seq<char>)
    requires
        align_balanced(ops),
    ensures
        insert_unmark_align(ts_run(insert_mark_align(st, open), ops), close).align == st.align,
{
    let s1 = insert_mark_align(st, open);
    lemma_run_align(s1, ops);
    let s2 = ts_run(s1, ops);
    assert(s2.align =~= s1.align);
    assert(s1.align.drop_last() =~= st.align);
}

/// Pushing the alignment column remembers the column just after the text,
/// where that column fits a `usize`; the rest is as for `raw_insert`.
pub proof fn law_mark_align_pushes_column(st: TsState, t: Seq<char>)
    requires
        st.col + byte_len(t) <= usize::MAX,
    ensures
        insert_mark_align(st, t).align == st.align.push((st.col + byte_len(t)) as usize),
        insert_mark_align(st, t) == (TsState { align: st.align.push((st.col + byte_len(t)) as usize), ..raw_insert(st, t) }),
{
}

/// Popping the alignment column drops its last entry (nothing where there
/// is none); the rest is as for `raw_insert`.
pub proof fn law_unmark_align_pops(st: TsState, t: Seq<char>)
    ensures
        insert_unmark_align(st, t) == (TsState {
            align: if st.align.len() > 0 {
                st.align.drop_last()
            } else {
                st.align
            },
            ..raw_insert(st, t)
        }),
{
}

/// The text a wrap starts the new line with: spaces to the alignment column
/// where one is set and it is at most `MAX_ALIGN_COL` (a third of the width),
/// else the indentation and the wrap indentation.
pub open spec fn wrap_pad(st: TsState) -> Seq<char> {
    if st.align.len() > 0 && st.align.last() <= MAX_ALIGN_COL {
        spaces(st.align.last() as nat)
    } else {
        st.indent + spaces(WRAP_INDENT_LEN as nat)
    }
}

/// A wrap ends the line and writes `wrap_pad`: the text grows by a newline
/// and the padding, the line number by one, the column is the padding's
/// length, and the indentation and the alignment stack are unchanged.
pub proof fn law_wrap_writes_pad(st: TsState)
    requires
        st.line < u32::MAX,
        st.indent.len() + WRAP_INDENT_LEN <= usize::MAX,
        indent_ok(st.indent),
    ensures
        wrap(st).text == st.text.push(NL) + wrap_pad(st),
        wrap(st).line == st.line + 1,
        wrap(st).col == wrap_pad(st).len(),
        wrap(st).indent == st.indent,
        wrap(st).align == st.align,
{
    let s1 = nl(st);
    assert(should_align(s1) == should_align(st));
    if should_align(st) {
        lemma_spaces_no_nl(st.align.last() as nat);
    } else {
        lemma_spaces_no_nl(st.indent.len());
        lemma_spaces_no_nl(WRAP_INDENT_LEN as nat);
        assert(st.indent == spaces(st.indent.len()));
        assert(st.indent + spaces(WRAP_INDENT_LEN as nat) =~= spaces((st.indent.len() + WRAP_INDENT_LEN) as nat));
        lemma_spaces_no_nl((st.indent.len() + WRAP_INDENT_LEN) as nat);
        assert(s1.text + st.indent + spaces(WRAP_INDENT_LEN as nat) =~= s1.text + (st.indent + spaces(WRAP_INDENT_LEN as nat)));
    }
}

// ---------------------------------------------------------------------------
// The typesetter
// ---------------------------------------------------------------------------

pub struct Typesetter {
    line: u32,
    col: usize,
    indent: String,
    align_stack: Vec<usize>,
    s: String,
    exceed_lines: BTreeSet<u32>,
    trailing_ws_lines: BTreeSet<u32>,
    /// The last character of `s`, kept so that `nl` need not scan `s`.
    last: Option<char>,
}

pub struct TsResult {
    pub s: String,
    pub exceed_lines: BTreeSet<u32>,
    pub trailing_ws_lines: BTreeSet<u32>,
}

/// The state of a fresh typesetter: on line 1, at column 0, with nothing
/// written and nothing recorded.
pub open spec fn ts_start() -> TsState {
    TsState {
        line: 1,
        col: 0,
        indent: Seq::empty(),
        align: Seq::empty(),
        text: Seq::empty(),
        exceed: Set::empty(),
        trailing: Set::empty(),
    }
}

impl View for Typesetter {
    type V = TsState;

    closed spec fn view(&self) -> TsState {
        TsState {
            line: self.line,
            col: self.col,
            indent: self.indent@,
            align: self.align_stack@,
            text: self.s@,
            exceed: self.exceed_lines@,
            trailing: self.trailing_ws_lines@,
        }
    }
}

impl Typesetter {
    /// The typesetter's internal invariant; every operation keeps it.
    pub closed spec fn wf(&self) -> bool {
        &&& indent_ok(self.indent@)
        &&& self.last == (if self.s@.len() == 0 {
            None
        } else {
            Some(self.s@.last())
        })
    }

    /// A well-formed typesetter's indentation is made of whole levels of spaces.
    pub proof fn lemma_wf_indent(&self)
        requires
            self.wf(),
        ensures
            indent_ok(self@.indent),
    {
    }

    pub fn new() -> (ts: Typesetter)
        ensures
            ts.wf(),
            consistent(ts@),
            ts@.line == 1,
            ts@.col == 0,
            ts@.indent.len() == 0,
            ts@.align.len() == 0,
            ts@.text.len() == 0,
            ts@.exceed.is_empty(),
            ts@.trailing.is_empty(),
            ts@ == ts_start(),
    {
        let ts = Typesetter {
            line: 1,
            col: 0,
            indent: String::new(),
            align_stack: Vec::new(),
            s: String::new(),
            exceed_lines: BTreeSet::new(),
            trailing_ws_lines: BTreeSet::new(),
            last: None,
        };
        assert(ts.indent@ =~= spaces(0));
        proof {
            law_new_consistent(ts@);
        }
        assert(ts@ =~= ts_start());
        ts
    }

    pub fn result(self) -> (r: TsResult)
        ensures
            r.s@ == self@.text,
            r.exceed_lines@ == self@.exceed,
            r.trailing_ws_lines@ == self@.trailing,
    {
        TsResult { s: self.s, exceed_lines: self.exceed_lines, trailing_ws_lines: self.trailing_ws_lines }
    }

    /// Appends `s` to the text without touching the position.
    pub fn force_insert(&mut self, s: &str)
        requires
            old(self).wf(),
        ensures
            final(self).wf(),
            final(self)@ == force_insert(old(self)@, s@),
    {
        let l = last_char(s);
        self.s.append(s);
        if l.is_some() {
            self.last = l;
        }
    }

    /// Appends `s` on the current line.
    pub fn raw_insert(&mut self, s: &str)
        requires
            old(self).wf(),
        ensures
            final(self).wf(),
            final(self)@ == raw_insert(old(self)@, s@),
    {
        let l = last_char(s);
        self.s.append(s);
        if l.is_some() {
            self.last = l;
        }
        self.col = self.col.saturating_add(s.len());
        if self.col > EXCEED_WIDTH {
            self.exceed_lines.insert(self.line);
        }
        assert(self@.exceed == raw_insert(old(self)@, s@).exceed);
    }

    /// Appends `s`, on a new wrapped line if it would not fit on this one.
    pub fn insert(&mut self, s: &str)
        requires
            old(self).wf(),
        ensures
            final(self).wf(),
            final(self)@ == insert(old(self)@, s@),
    {
        let list = [s];
        assert(strs_view(list@) =~= seq![s@]);
        if self.need_wrap(&list) {
            self.wrap_insert(s);
        } else {
            self.raw_insert(s);
        }
    }

    /// Opens one more level of indentation.
    pub fn indent(&mut self)
        requires
            old(self).wf(),
        ensures
            final(self).wf(),
            final(self)@ == indent(old(self)@),
    {
        self.indent.append(indent_unit());
        proof {
            assert(self.indent@ =~= spaces(self.indent@.len()));
            assert(self.indent@.len() == old(self).indent@.len() + INDENT_LEN);
        }
    }

    /// Closes one level of indentation.
    pub fn outdent(&mut self)
        requires
            old(self).wf(),
            old(self)@.indent.len() >= INDENT_LEN,
        ensures
            final(self).wf(),
            final(self)@ == outdent(old(self)@),
    {
        let ghost old_len = self.indent@.len() as int;
        let len = self.indent.unicode_len();
        self.indent = fill_str(' ', len - INDENT_LEN);
        proof {
            let new_len = self.indent@.len() as int;
            assert(self.indent@ =~= spaces((old_len - INDENT_LEN) as nat));
            assert(new_len % 4 == 0) by (nonlinear_arith)
                requires
                    new_len == old_len - 4,
                    old_len % 4 == 0,
                    old_len >= 4,
            ;
        }
    }

    /// Writes the indentation.
    pub fn insert_indent(&mut self)
        requires
            old(self).wf(),
        ensures
            final(self).wf(),
            final(self)@ == insert_indent(old(self)@),
    {
        let indent = self.indent.clone();
        self.raw_insert(indent.as_str());
    }

    /// Ends the current line.
    pub fn nl(&mut self)
        requires
            old(self).wf(),
        ensures
            final(self).wf(),
            final(self)@ == nl(old(self)@),
    {
        if let Some(ch) = self.last {
            if ch != NL && is_whitespace(ch) {
                self.trailing_ws_lines.insert(self.line);
            }
        }
        self.s.append(nl_str());
        self.last = Some(NL);
        self.line = self.line.saturating_add(1);
        self.col = 0;
        assert(self.s@ =~= old(self).s@.push(NL));
        assert(self@.trailing == nl(old(self)@).trailing);
        assert(self@ == nl(old(self)@));
    }

    /// Ends the current line and writes the indentation.
    pub fn nl_indent(&mut self)
        requires
            old(self).wf(),
        ensures
            final(self).wf(),
            final(self)@ == nl_indent(old(self)@),
    {
        self.nl();
        self.insert_indent();
    }

    /// `s` fits on the rest of the current line.
    pub fn can_one_line(&self, s: &str) -> (b: bool)
        ensures
            b == (left(self@) > str_len(s@)),
    {
        self.left() > s.len()
    }

    pub fn need_wrap(&self, list: &[&str]) -> (b: bool)
        ensures
            b == need_wrap(self@, strs_view(list@)),
    {
        let (prefix_len, len) = list_len_info_exec(list);
        self.need_wrap_len(prefix_len, len)
    }

    pub fn need_nl_indent(&self, list: &[&str]) -> (b: bool)
        ensures
            b == need_nl_indent(self@, strs_view(list@)),
    {
        let (prefix_len, len) = list_len_info_exec(list);
        self.need_nl_indent_len(prefix_len, len)
    }

    /// Ends the line and starts the next one at the alignment column, or at
    /// the indentation plus the wrap indentation.
    pub fn wrap(&mut self)
        requires
            old(self).wf(),
        ensures
            final(self).wf(),
            final(self)@ == wrap(old(self)@),
    {
        self.nl();
        if self.should_align() {
            self.insert_align();
        } else {
            self.insert_indent();
            self.insert_wrap_indent();
        }
    }

    /// Writes `s` and pushes the column after it as the alignment column.
    pub fn insert_mark_align(&mut self, s: &str)
        requires
            old(self).wf(),
        ensures
            final(self).wf(),
            final(self)@ == insert_mark_align(old(self)@, s@),
    {
        self.raw_insert(s);
        self.mark_align();
    }

    /// Writes `s` and pops the innermost alignment column.
    pub fn insert_unmark_align(&mut self, s: &str)
        requires
            old(self).wf(),
        ensures
            final(self).wf(),
            final(self)@ == insert_unmark_align(old(self)@, s@),
    {
        self.raw_insert(s);
        self.unmark_align();
    }

    fn wrap_insert(&mut self, s: &str)
        requires
            old(self).wf(),
        ensures
            final(self).wf(),
            final(self)@ == raw_insert(wrap(old(self)@), s@),
    {
        self.wrap();
        self.raw_insert(s);
    }

    fn need_wrap_len(&self, prefix_len: usize, len: usize) -> (b: bool)
        ensures
            b == need_wrap_len(self@, prefix_len as nat, len as nat),
    {
        (minus_nf_exec(self.left(), prefix_len) == 0) || (len > self.left() && len
            <= self.nl_left())
    }

    fn nl_left(&self) -> (n: usize)
        ensures
            n == nl_left(self@),
    {
        if self.should_align() {
            self.nl_align_left()
        } else {
            self.nl_wrap_left()
        }
    }

    fn should_align(&self) -> (b: bool)
        ensures
            b == should_align(self@),
    {
        let n = self.align_stack.len();
        if n > 0 {
            self.align_stack[n - 1] <= MAX_ALIGN_COL
        } else {
            false
        }
    }

    fn nl_align_left(&self) -> (n: usize)
        requires
            self@.align.len() > 0,
        ensures
            n == minus_nf(MAX_WIDTH as int, self@.align.last() as int),
    {
        let k = self.align_stack.len();
        minus_nf_exec(MAX_WIDTH, self.align_stack[k - 1])
    }

    fn nl_wrap_left(&self) -> (n: usize)
        ensures
            n == minus_nf(MAX_WIDTH as int, self@.indent.len() + WRAP_INDENT_LEN),
    {
        minus_nf_exec(MAX_WIDTH, self.indent.unicode_len().saturating_add(WRAP_INDENT_LEN))
    }

    fn need_nl_indent_len(&self, prefix_len: usize, len: usize) -> (b: bool)
        ensures
            b == need_nl_indent_len(self@, prefix_len as nat, len as nat),
    {
        (minus_nf_exec(self.left(), prefix_len) == 0) || (len > self.left() && len
            <= self.nl_indent_left())
    }

    fn left(&self) -> (n: usize)
        ensures
            n == left(self@),
    {
        minus_nf_exec(MAX_WIDTH, self.col)
    }

    fn nl_indent_left(&self) -> (n: usize)
        ensures
            n == nl_indent_left(self@),
    {
        minus_nf_exec(MAX_WIDTH, self.indent.unicode_len())
    }

    fn insert_wrap_indent(&mut self)
        requires
            old(self).wf(),
        ensures
            final(self).wf(),
            final(self)@ == raw_insert(old(self)@, spaces(WRAP_INDENT_LEN as nat)),
    {
        self.raw_insert(wrap_indent_unit());
    }

    fn insert_align(&mut self)
        requires
            old(self).wf(),
            old(self)@.align.len() > 0,
        ensures
            final(self).wf(),
            final(self)@ == raw_insert(old(self)@, spaces(old(self)@.align.last() as nat)),
    {
        let k = self.align_stack.len();
        let blank = fill_str(' ', self.align_stack[k - 1]);
        assert(blank@ =~= spaces(old(self)@.align.last() as nat));
        self.raw_insert(blank.as_str());
    }

    fn mark_align(&mut self)
        requires
            old(self).wf(),
        ensures
            final(self).wf(),
            final(self)@ == (TsState { align: old(self)@.align.push(old(self)@.col), ..old(self)@ }),
    {
        let col = self.col;
        self.align_stack.push(col);
    }

    fn unmark_align(&mut self)
        requires
            old(self).wf(),
        ensures
            final(self).wf(),
            final(self)@ == (TsState {
                align: if old(self)@.align.len() > 0 {
                    old(self)@.align.drop_last()
                } else {
                    old(self)@.align
                },
                ..old(self)@
            }),
    {
        self.align_stack.pop();
    }
}

/// `a - b`, or 0 where `b` is not smaller than `a`.
pub fn minus_nf_exec(a: usize, b: usize) -> (n: usize)
    ensures
        n == minus_nf(a as int, b as int),
{
    if a <= b {
        0
    } else {
        a - b
    }
}

/// The lines of `s`, split at each newline: as many as `text_lines` counts,
/// the last one after the last newline (empty where `s` ends with one).
pub fn split_lines(s: &str) -> (v: Vec<String>)
    ensures
        v@.map_values(|l: String| l@) == text_lines(s@),
{
    let mut it = s.chars();
    let mut v: Vec<String> = Vec::new();
    let mut cur = String::new();
    let ghost mut k: int = 0;
    proof {
        assert(s@.take(0) =~= Seq::<char>::empty());
        assert(s@.skip(0) =~= s@);
        assert(v@.map_values(|l: String| l@).push(cur@) =~= text_lines(s@.take(0)));
    }
    loop
        invariant
            0 <= k <= s@.len(),
            vstd::std_specs::iter::IteratorSpec::remaining(&it) == s@.skip(k),
            v@.map_values(|l: String| l@).push(cur@) == text_lines(s@.take(k)),
        decreases s@.len() - k,
    {
        let next = it.next();
        match next {
            None => {
                proof {
                    assert(s@.skip(k).len() == 0);
                    assert(s@.take(k) =~= s@);
                }
                v.push(cur);
                return v;
            },
            Some(c) => {
                proof {
                    assert(s@[k] == c);
                    assert(s@.take(k + 1).drop_last() =~= s@.take(k));
                    assert(s@.take(k + 1).last() == c);
                    assert(s@.skip(k).drop_first() =~= s@.skip(k + 1));
                }
                let ghost before = v@.map_values(|l: String| l@);
                if c == NL {
                    v.push(cur);
                    cur = String::new();
                    proof {
                        assert(v@.map_values(|l: String| l@) =~= before.push(
                            text_lines(s@.take(k)).last(),
                        ));
                        assert(v@.map_values(|l: String| l@).push(cur@) =~= text_lines(
                            s@.take(k + 1),
                        ));
                    }
                } else {
                    push_char(&mut cur, c);
                    proof {
                        assert(v@.map_values(|l: String| l@).push(cur@) =~= text_lines(
                            s@.take(k + 1),
                        ));
                    }
                }
                proof {
                    k = k + 1;
                }
            },
        }
    }
}

} // verus!
