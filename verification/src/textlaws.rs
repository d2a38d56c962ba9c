//! Laws about input: what sequences of runes do to the pen and to the
//! cells of the cursor's row, proved from the interpreter's definitions.

use vstd::prelude::*;
use crate::bits::lemma_wrapnext_keeps_origin;
use crate::csi::{csi_args, csi_parsed, digits_end, number, params_end, pen_set, sgr_one};
use crate::dispatch::{names_edit, names_move};
use crate::edit::rune_width;
use crate::glyph::{
    Glyph, TCursor, ATTR_BOLD, ATTR_RENDITION, ATTR_WDUMMY, ATTR_WIDE, ATTR_WRAP, MODE_WRAP,
};
use crate::input::is_control;
use crate::laws::{law_sgr_reset_idempotent, lemma_pen_reset};
use crate::term::{EscState, TermView};

verus! {

/// The runes `ESC [ 0 m`.
pub open spec fn sgr_reset_runes() -> Seq<u32> {
    seq![0x1bu32, 0x5bu32, 0x30u32, 0x6du32]
}

/// The input `ESC [ 0 m`, taken while ordinary text is interpreted, resets
/// the pen and changes nothing else but dropping a control sequence that
/// was collected before; taking it twice is taking it once.
#[verifier::rlimit(50)]
pub proof fn law_sgr_reset_input(s: TermView)
    requires
        s.wf(),
        s.esc == EscState::Ground,
    ensures
        s.fed(sgr_reset_runes(), 0) == (TermView {
            csibuf: Seq::empty(),
            ..s.attrs_set(seq![0i32])
        }),
        s.fed(sgr_reset_runes(), 0).fed(sgr_reset_runes(), 0) == s.fed(sgr_reset_runes(), 0),
{
    lemma_sgr_reset_fed(s);
    let r = s.fed(sgr_reset_runes(), 0);
    lemma_pen_reset(s.c.attr);
    lemma_sgr_reset_fed(r);
    law_sgr_reset_idempotent(s);
    assert(r.attrs_set(seq![0i32]).c.attr == r.c.attr) by {
        lemma_pen_reset(r.c.attr);
        lemma_pen_reset(s.c.attr);
    }
    assert(r.fed(sgr_reset_runes(), 0) =~= r);
}

/// ESC and `[`, taken while ordinary text is interpreted, begin a control
/// sequence with nothing collected.
proof fn lemma_csi_begins(s: TermView)
    requires
        s.esc == EscState::Ground,
    ensures
        s.put(0x1b).put(0x5b) == (TermView { esc: EscState::Csi, csibuf: Seq::empty(), ..s }),
{
    reveal(TermView::controlled);
    reveal(TermView::esc_handled);
    let s1 = s.put(0x1b);
    assert(s1 == TermView { esc: EscState::Start, csibuf: Seq::empty(), ..s });
}

/// A digit or `;` that arrives while a control sequence is collected is
/// appended to it.
proof fn lemma_csi_collects(s: TermView, u: u32)
    requires
        s.esc == EscState::Csi,
        0x30 <= u <= 0x3b,
        s.csibuf.len() + 2 < crate::term::ESC_BUF_SIZ,
    ensures
        s.put(u) == (TermView { csibuf: s.csibuf.push(u), ..s }),
{
    reveal(TermView::csi_put);
}

/// The rune `m` that arrives while a control sequence is collected sets
/// the pen as the collected parameters ask.
proof fn lemma_csi_sgr_ends(s: TermView)
    requires
        s.esc == EscState::Csi,
    ensures
        s.put(0x6d) == (TermView { esc: EscState::Ground, csibuf: Seq::empty(), ..s }).attrs_set(
            csi_parsed(s.csibuf.push(0x6d)).arg,
        ) || csi_parsed(s.csibuf.push(0x6d)).mode0 != 0x6d,
{
    reveal(TermView::csi_put);
    reveal(TermView::csi_set);
    assert(!names_move(0x6d) && !names_edit(0x6d));
}

/// The parameters of `0 m`.
proof fn lemma_parsed_reset()
    ensures
        csi_parsed(seq![0x30u32, 0x6du32]).arg == seq![0i32],
        csi_parsed(seq![0x30u32, 0x6du32]).mode0 == 0x6d,
{
    let buf = seq![0x30u32, 0x6du32];
    assert(buf.len() == 2 && buf[0] == 0x30 && buf[1] == 0x6d);
    assert(digits_end(buf, 1) == 1);
    assert(digits_end(buf, 0) == 1);
    assert(number(buf, 1, 0) == 0);
    assert(number(buf, 0, 0) == 0);
    assert(csi_args(buf, 0, Seq::empty()) == (Seq::<i32>::empty().push(0i32), 1int));
    assert(params_end(buf, 1) == 1);
    assert(csi_parsed(buf).arg =~= seq![0i32]);
}

/// How `ESC [ 0 m` is interpreted rune by rune.
proof fn lemma_sgr_reset_fed(s: TermView)
    requires
        s.csibuf.len() + 1 < crate::term::ESC_BUF_SIZ,
        s.esc == EscState::Ground,
    ensures
        s.fed(sgr_reset_runes(), 0) == (TermView {
            csibuf: Seq::empty(),
            ..s.attrs_set(seq![0i32])
        }),
{
    let r = sgr_reset_runes();
    assert(r.len() == 4 && r[0] == 0x1b && r[1] == 0x5b && r[2] == 0x30 && r[3] == 0x6d);
    let s1 = s.put(0x1b);
    let s2 = s1.put(0x5b);
    lemma_csi_begins(s);
    let s3 = s2.put(0x30);
    lemma_csi_collects(s2, 0x30);
    let s4 = s3.put(0x6d);
    lemma_csi_sgr_ends(s3);
    lemma_parsed_reset();
    assert(s3.csibuf.push(0x6du32) =~= seq![0x30u32, 0x6du32]);
    assert(s.fed(r, 0) == s1.fed(r, 1));
    assert(s1.fed(r, 1) == s2.fed(r, 2));
    assert(s2.fed(r, 2) == s3.fed(r, 3));
    assert(s3.fed(r, 3) == s4.fed(r, 4));
    assert(s4.fed(r, 4) == s4);
    assert(s4 =~= (TermView { csibuf: Seq::empty(), ..s.attrs_set(seq![0i32]) }));
}

/// The cells that the runes from position `i` on take.
pub open spec fn text_width(runes: Seq<u32>, i: int) -> int
    decreases runes.len() - i,
{
    if i < 0 || i >= runes.len() {
        0
    } else {
        rune_width(runes[i]) + text_width(runes, i + 1)
    }
}

/// The column at which rune `j` of a text lands that is written from
/// column 0: the cells that the runes before it take.
pub open spec fn column_of(runes: Seq<u32>, j: int) -> int {
    text_width(runes, 0) - text_width(runes, j)
}

/// What printing needs of the terminal to leave the cells before the
/// cursor alone: the cell before the cursor is no first half of a wide
/// character, whose second half a rune under the cursor would replace.
spec fn printable_on(s: TermView) -> bool {
    &&& printable_base(s)
    &&& s.c.x > 0 ==> !s.line[s.c.y as int][s.c.x - 1].has(ATTR_WIDE)
}

/// What printing needs of the terminal to place a rune under the cursor.
spec fn printable_base(s: TermView) -> bool {
    &&& 0 <= s.c.x < s.col
    &&& 0 <= s.c.y < s.row
    &&& s.line.len() == s.row
    &&& s.dirty.len() == s.row
    &&& s.line[s.c.y as int].len() == s.col
    &&& s.col <= i32::MAX
    &&& s.esc == EscState::Ground
    &&& !s.c.wrapnext()
    &&& s.c.origin() ==> s.top <= s.c.y <= s.bot
}

/// One printable rune that fits in the row before its last cell lands
/// under the cursor and moves the cursor past it.
#[verifier::rlimit(50)]
proof fn lemma_put_prints(s: TermView, u: u32)
    requires
        printable_base(s),
        !is_control(u),
        s.c.x + rune_width(u) < s.col,
    ensures
        printable_on(s.put(u)),
        s.put(u).c.y == s.c.y,
        s.put(u).c.x == s.c.x + rune_width(u),
        s.put(u).c.attr == s.c.attr,
        s.put(u).col == s.col,
        s.put(u).trantbl == s.trantbl,
        s.put(u).charset == s.charset,
        s.put(u).line[s.c.y as int][s.c.x as int].u == s.mapped(u),
        s.put(u).line[s.c.y as int][s.c.x as int].fg == s.c.attr.fg,
        s.put(u).line[s.c.y as int][s.c.x as int].bg == s.c.attr.bg,
        rune_width(u) == 1 ==> s.put(u).line[s.c.y as int][s.c.x as int].mode == s.c.attr.mode
            & ATTR_RENDITION,
        printable_on(s) ==> forall|k: int|
            0 <= k < s.c.x ==> s.put(u).line[s.c.y as int][k] == s.line[s.c.y as int][k],
{
    reveal(TermView::print_prepared);
    reveal(TermView::print_placed);
    let w = rune_width(u);
    let x = s.c.x as int;
    let y = s.c.y as int;
    let s0 = if s.sel.ob.x != -1 && s.sel.ob.y <= s.c.y <= s.sel.oe.y { s.sel_cleared() } else { s };
    assert(s0.line == s.line && s0.c == s.c && s0.col == s.col && s0.mode == s.mode);
    let s2 = s.print_prepared(w);
    assert(s2.c == s.c && s2.col == s.col && s2.row == s.row);
    assert(s2.line.len() == s.row);
    assert(s2.line[y].len() == s.col);
    assert(forall|k: int| 0 <= k < x ==> s2.line[y][k] == s.line[y][k]);
    assert(s2.trantbl == s.trantbl && s2.charset == s.charset && s2.esc == s.esc);
    assert(s2.top == s.top && s2.bot == s.bot);
    let s4 = s2.char_set(u, s2.c.attr, x, y);
    let m = s2.c.attr.mode;
    assert((m & ATTR_RENDITION) & ATTR_WIDE == 0) by (bit_vector);
    assert(ATTR_WDUMMY & ATTR_WIDE == 0) by (bit_vector);
    lemma_wrapnext_keeps_origin(s.c.state);
    assert(s4.line[y][x].u == s.mapped(u));
    assert(!s4.line[y][x].has(ATTR_WIDE));
    assert(printable_on(s) ==> forall|k: int| 0 <= k < x ==> s4.line[y][k] == s.line[y][k]);
    let s5 = if w == 2 { s4.wide_marked() } else { s4 };
    assert(s5.line[y][x].u == s.mapped(u));
    assert(printable_on(s) ==> forall|k: int| 0 <= k < x ==> s5.line[y][k] == s.line[y][k]);
    assert(!s5.line[y][x + w - 1].has(ATTR_WIDE));
    let r = s5.moved_to(x + w, y);
    assert(s.put(u) == r);
    assert(r.line == s5.line);
}

/// Printable runes that fit in the row before its last cell land one
/// after the other from the cursor on.
#[verifier::rlimit(50)]
proof fn lemma_fed_prints(s: TermView, runes: Seq<u32>, i: int)
    requires
        printable_on(s),
        0 <= i <= runes.len(),
        forall|j: int| 0 <= j < runes.len() ==> !is_control(#[trigger] runes[j]),
        s.c.x + text_width(runes, i) < s.col,
    ensures
        s.fed(runes, i).c.y == s.c.y,
        s.fed(runes, i).c.x == s.c.x + text_width(runes, i),
        forall|j: int|
            i <= j < runes.len() ==> (#[trigger] s.fed(runes, i).line[s.c.y as int][s.c.x
                + text_width(runes, i) - text_width(runes, j)]).u == s.mapped(runes[j]),
        forall|k: int|
            0 <= k < s.c.x ==> s.fed(runes, i).line[s.c.y as int][k] == s.line[s.c.y as int][k],
    decreases runes.len() - i,
{
    if i < runes.len() {
        let u = runes[i];
        let w = rune_width(u);
        lemma_text_width_bounds(runes, i + 1);
        lemma_put_prints(s, u);
        let t = s.put(u);
        lemma_fed_prints(t, runes, i + 1);
        let r = s.fed(runes, i);
        assert(r == t.fed(runes, i + 1));
        let y = s.c.y as int;
        assert forall|j: int| i <= j < runes.len() implies (#[trigger] r.line[y][s.c.x
            + text_width(runes, i) - text_width(runes, j)]).u == s.mapped(runes[j]) by {
            if j == i {
                assert(r.line[y][s.c.x as int] == t.line[y][s.c.x as int]);
            } else {
                assert(t.c.x + text_width(runes, i + 1) - text_width(runes, j) == s.c.x
                    + text_width(runes, i) - text_width(runes, j));
                assert(t.mapped(runes[j]) == s.mapped(runes[j]));
            }
        }
    }
}

/// A text takes no fewer cells than it has runes, and no negative number.
pub proof fn lemma_text_width_bounds(runes: Seq<u32>, i: int)
    ensures
        text_width(runes, i) >= 0,
        0 <= i <= runes.len() ==> runes.len() - i <= text_width(runes, i) <= 2 * (runes.len() - i),
    decreases runes.len() - i,
{
    if 0 <= i < runes.len() {
        lemma_text_width_bounds(runes, i + 1);
    }
}

/// Printable runes written from column 0, without a wrap pending and
/// taking fewer cells than the row has, can be read back from the cursor's
/// row: each stands, as the active character set shows it, at the column
/// that the runes before it take, and the cursor stands behind the last.
pub proof fn law_print_readback(s: TermView, runes: Seq<u32>)
    requires
        s.wf(),
        s.esc == EscState::Ground,
        s.c.x == 0,
        !s.c.wrapnext(),
        forall|j: int| 0 <= j < runes.len() ==> !is_control(#[trigger] runes[j]),
        text_width(runes, 0) < s.col,
    ensures
        s.fed(runes, 0).c.y == s.c.y,
        s.fed(runes, 0).c.x == text_width(runes, 0),
        forall|j: int|
            0 <= j < runes.len() ==> (#[trigger] s.fed(runes, 0).line[s.c.y as int][column_of(
                runes,
                j,
            )]).u == s.mapped(runes[j]),
{
    assert(s.line[s.c.y as int].len() == s.col);
    lemma_fed_prints(s, runes, 0);
}

/// In wrap mode a narrow printable rune written in the last column stays
/// there with a wrap pending, and the next narrow printable rune marks that
/// cell as continued and lands in the first column of the next row, where
/// the cursor is not on the last row of the scroll region.
#[verifier::rlimit(50)]
pub proof fn law_wrap_at_last_column(s: TermView, u1: u32, u2: u32)
    requires
        s.wf(),
        s.esc == EscState::Ground,
        s.mode & MODE_WRAP != 0,
        s.c.x == s.col - 1,
        !s.c.wrapnext(),
        s.c.y != s.bot,
        s.c.y < s.row - 1,
        !is_control(u1) && rune_width(u1) == 1,
        !is_control(u2) && rune_width(u2) == 1,
    ensures
        s.put(u1).c.x == s.c.x && s.put(u1).c.y == s.c.y && s.put(u1).c.wrapnext(),
        s.put(u1).put(u2).line[s.c.y as int][s.col - 1].u == s.mapped(u1),
        s.put(u1).put(u2).line[s.c.y as int][s.col - 1].has(ATTR_WRAP),
        s.put(u1).put(u2).line[s.c.y + 1][0].u == s.mapped(u2),
        s.put(u1).put(u2).c.y == s.c.y + 1,
{
    reveal(TermView::print_prepared);
    reveal(TermView::print_placed);
    lemma_wrapnext_keeps_origin(s.c.state);
    let x = s.c.x as int;
    let y = s.c.y as int;
    let p1 = s.print_prepared(1);
    assert(p1.c == s.c && p1.line == s.line && p1.col == s.col && p1.row == s.row);
    assert(p1.mode == s.mode && p1.top == s.top && p1.bot == s.bot && p1.esc == s.esc);
    assert(p1.trantbl == s.trantbl && p1.charset == s.charset);
    let a = s.put(u1);
    assert(a == p1.print_placed(u1));
    assert(a.line[y][x].u == s.mapped(u1));
    assert(a.c.x == s.c.x && a.c.y == s.c.y && a.c.wrapnext());
    assert(a.c.origin() == s.c.origin());
    assert(a.mode == s.mode && a.esc == s.esc && a.col == s.col && a.row == s.row);
    assert(a.top == s.top && a.bot == s.bot);
    assert(a.trantbl == s.trantbl && a.charset == s.charset);
    assert(a.line.len() == s.row);
    assert(a.line[y].len() == s.col);
    assert(a.line[y + 1].len() == s.col);
    let a0 = if a.sel.ob.x != -1 && a.sel.ob.y <= a.c.y <= a.sel.oe.y { a.sel_cleared() } else { a };
    assert(a0.line == a.line && a0.c == a.c && a0.mode == a.mode && a0.col == a.col);
    let m = a0.wrap_marked();
    assert(m.line[y][x].u == s.mapped(u1));
    assert(m.line[y][x].has(ATTR_WRAP)) by {
        let g = a0.line[y][x].mode;
        assert((g | ATTR_WRAP) & ATTR_WRAP != 0) by (bit_vector);
    }
    let n = m.newline(true);
    lemma_wrapnext_keeps_origin(a.c.state);
    assert(n.c.x == 0 && n.c.y == y + 1);
    assert(n.line == m.line);
    let p2 = a.print_prepared(1);
    assert(p2.c.x == 0 && p2.c.y == y + 1);
    assert(p2.line[y] == m.line[y]);
    assert(p2.line.len() == s.row);
    assert(p2.line[y + 1].len() == s.col);
    let b = a.put(u2);
    assert(b == p2.print_placed(u2));
    assert(p2.trantbl == s.trantbl && p2.charset == s.charset);
}

/// The runes `ESC [ 1 ; 3 1 m H i`.
pub open spec fn bold_red_hi() -> Seq<u32> {
    seq![0x1bu32, 0x5bu32, 0x31u32, 0x3bu32, 0x33u32, 0x31u32, 0x6du32, 0x48u32, 0x69u32]
}

/// The parameters of `1 ; 3 1 m`.
proof fn lemma_parsed_bold_red()
    ensures
        csi_parsed(seq![0x31u32, 0x3bu32, 0x33u32, 0x31u32, 0x6du32]).arg == seq![1i32, 31i32],
        csi_parsed(seq![0x31u32, 0x3bu32, 0x33u32, 0x31u32, 0x6du32]).mode0 == 0x6d,
{
    let buf = seq![0x31u32, 0x3bu32, 0x33u32, 0x31u32, 0x6du32];
    assert(buf.len() == 5 && buf[0] == 0x31 && buf[1] == 0x3b && buf[2] == 0x33 && buf[3] == 0x31
        && buf[4] == 0x6d);
    assert(digits_end(buf, 1) == 1);
    assert(digits_end(buf, 0) == 1);
    assert(number(buf, 1, 1) == 1);
    assert(number(buf, 0, 0) == 1);
    assert(digits_end(buf, 4) == 4);
    assert(digits_end(buf, 3) == 4);
    assert(digits_end(buf, 2) == 4);
    assert(number(buf, 4, 31) == 31);
    assert(number(buf, 3, 3) == 31);
    assert(number(buf, 2, 0) == 31);
    let a1 = Seq::<i32>::empty().push(1i32);
    let a2 = a1.push(31i32);
    assert(csi_args(buf, 2, a1) == (a2, 4int));
    assert(csi_args(buf, 0, Seq::empty()) == (a2, 4int));
    assert(params_end(buf, 4) == 4);
    assert(csi_parsed(buf).arg =~= seq![1i32, 31i32]);
}

/// What the parameters 1 and 31 of a graphic rendition do to a pen.
proof fn lemma_pen_bold_red(pen: Glyph)
    ensures
        pen_set(pen, seq![1i32, 31i32], 0) == (Glyph { mode: pen.mode | ATTR_BOLD, fg: 1, ..pen }),
{
    let a2 = seq![1i32, 31i32];
    assert(a2.len() == 2 && a2[0] == 1 && a2[1] == 31);
    assert(pen_set(sgr_one(sgr_one(pen, 1), 31), a2, 2) == sgr_one(sgr_one(pen, 1), 31));
    assert(pen_set(sgr_one(pen, 1), a2, 1) == sgr_one(sgr_one(pen, 1), 31));
    assert(pen_set(pen, a2, 0) == sgr_one(sgr_one(pen, 1), 31));
}

/// How `ESC [ 1 ; 3 1 m` is interpreted rune by rune: the pen becomes bold
/// with palette entry 1 as foreground, and a control sequence collected
/// before is dropped.
proof fn lemma_bold_red_fed(s: TermView)
    requires
        s.csibuf.len() + 1 < crate::term::ESC_BUF_SIZ,
        s.esc == EscState::Ground,
    ensures
        s.fed(bold_red_hi(), 0) == (TermView {
            csibuf: Seq::empty(),
            c: TCursor {
                attr: Glyph { mode: s.c.attr.mode | ATTR_BOLD, fg: 1, ..s.c.attr },
                ..s.c
            },
            ..s
        }).fed(bold_red_hi(), 7),
{
    let r = bold_red_hi();
    assert(r.len() == 9 && r[0] == 0x1b && r[1] == 0x5b && r[2] == 0x31 && r[3] == 0x3b && r[4]
        == 0x33 && r[5] == 0x31 && r[6] == 0x6d);
    let s1 = s.put(0x1b);
    let s2 = s1.put(0x5b);
    lemma_csi_begins(s);
    let s3 = s2.put(0x31);
    lemma_csi_collects(s2, 0x31);
    let s4 = s3.put(0x3b);
    lemma_csi_collects(s3, 0x3b);
    let s5 = s4.put(0x33);
    lemma_csi_collects(s4, 0x33);
    let s6 = s5.put(0x31);
    lemma_csi_collects(s5, 0x31);
    let s7 = s6.put(0x6d);
    lemma_csi_sgr_ends(s6);
    lemma_parsed_bold_red();
    lemma_pen_bold_red(s.c.attr);
    assert(s6.csibuf.push(0x6du32) =~= seq![0x31u32, 0x3bu32, 0x33u32, 0x31u32, 0x6du32]);
    assert(s.fed(r, 0) == s1.fed(r, 1));
    assert(s1.fed(r, 1) == s2.fed(r, 2));
    assert(s2.fed(r, 2) == s3.fed(r, 3));
    assert(s3.fed(r, 3) == s4.fed(r, 4));
    assert(s4.fed(r, 4) == s5.fed(r, 5));
    assert(s5.fed(r, 5) == s6.fed(r, 6));
    assert(s6.fed(r, 6) == s7.fed(r, 7));
    assert(s7 =~= (TermView {
        csibuf: Seq::empty(),
        c: TCursor { attr: Glyph { mode: s.c.attr.mode | ATTR_BOLD, fg: 1, ..s.c.attr }, ..s.c },
        ..s
    }));
}

/// The input `ESC [ 1 ; 3 1 m H i`, taken while ordinary text is
/// interpreted with no wrap pending and two cells free after the cursor's,
/// makes the pen bold with palette entry 1 as foreground, writes `H` and
/// `i`, as the active character set shows them, under the cursor and after
/// it in the new pen, and leaves the cursor two columns further on.
#[verifier::rlimit(50)]
pub proof fn law_bold_red_text(s: TermView)
    requires
        s.wf(),
        s.esc == EscState::Ground,
        !s.c.wrapnext(),
        s.c.x + 2 < s.col,
    ensures
        ({
            let r = s.fed(bold_red_hi(), 0);
            let x = s.c.x as int;
            let y = s.c.y as int;
            &&& r.c.attr == Glyph { mode: s.c.attr.mode | ATTR_BOLD, fg: 1, ..s.c.attr }
            &&& r.c.x == x + 2
            &&& r.c.y == y
            &&& r.line[y][x].u == s.mapped(0x48)
            &&& r.line[y][x + 1].u == s.mapped(0x69)
            &&& r.line[y][x].fg == 1 && r.line[y][x + 1].fg == 1
            &&& r.line[y][x].bg == s.c.attr.bg && r.line[y][x + 1].bg == s.c.attr.bg
            &&& r.line[y][x].has(ATTR_BOLD) && r.line[y][x + 1].has(ATTR_BOLD)
        }),
{
    let runes = bold_red_hi();
    assert(runes.len() == 9 && runes[7] == 0x48 && runes[8] == 0x69);
    lemma_bold_red_fed(s);
    let pen = Glyph { mode: s.c.attr.mode | ATTR_BOLD, fg: 1, ..s.c.attr };
    let a = TermView { csibuf: Seq::empty(), c: TCursor { attr: pen, ..s.c }, ..s };
    let x = s.c.x as int;
    let y = s.c.y as int;
    assert(s.line[y].len() == s.col);
    assert(a.c.wrapnext() == s.c.wrapnext() && a.c.origin() == s.c.origin());
    assert(printable_base(a));
    assert(a.mapped(0x48) == s.mapped(0x48) && a.mapped(0x69) == s.mapped(0x69));
    lemma_put_prints(a, 0x48);
    let b = a.put(0x48);
    lemma_put_prints(b, 0x69);
    let c = b.put(0x69);
    assert(b.mapped(0x69) == s.mapped(0x69));
    assert(a.fed(runes, 7) == b.fed(runes, 8));
    assert(b.fed(runes, 8) == c.fed(runes, 9));
    assert(c.fed(runes, 9) == c);
    let m = s.c.attr.mode;
    assert(((m | ATTR_BOLD) & ATTR_RENDITION) & ATTR_BOLD != 0) by (bit_vector);
}

} // verus!
