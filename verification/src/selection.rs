//! The selection tracker: snapping to words and lines, normalizing the two
//! corners into reading order, following the text when rows scroll, and
//! handing out the selected text.

use vstd::prelude::*;
use crate::config::{DOUBLECLICKTIMEOUT, TRIPLECLICKTIMEOUT};
use crate::glyph::{limit, Coords, Glyph, ATTR_WDUMMY, ATTR_WRAP, MODE_ALTSCREEN, SPACE};
use crate::screen::{lemma_rows_len, limit_i32, selclear, tsetdirt};
use crate::timing::{elapsed, timediff};
use crate::term::{
    Selection, Term, TermView, TimeSpec, SEL_EMPTY, SEL_IDLE, SEL_READY, SEL_RECTANGULAR,
    SEL_REGULAR, SNAP_LINE, SNAP_NONE, SNAP_WORD,
};

verus! {

/// Whether a rune separates words.
pub open spec fn is_delim(u: u32) -> bool {
    u == SPACE
}

/// The length of the first `i` cells of a row without the spaces at their end.
pub open spec fn trimmed_len(l: Seq<Glyph>, i: int) -> int
    decreases i,
{
    if i > 0 && l[i - 1].u == SPACE {
        trimmed_len(l, i - 1)
    } else {
        i
    }
}

/// The used length of a row: the whole row where it continues on the next
/// one, else the row without its trailing spaces.
pub open spec fn line_len(l: Seq<Glyph>) -> int {
    if l[l.len() - 1].has(ATTR_WRAP) {
        l.len() as int
    } else {
        trimmed_len(l, l.len() as int)
    }
}

/// The end of the word that holds the cell, looked for in direction `dir`
/// (-1 towards the start, 1 towards the end) on a grid of `col` columns,
/// across rows that wrap. A word ends where delimiters meet other runes or
/// the used part of a row ends.
pub open spec fn word_end(g: Seq<Seq<Glyph>>, col: int, x: int, y: int, dir: int) -> Coords
    decreases (if dir > 0 { g.len() - y } else { y + 1 }), (if dir > 0 { col - x } else { x + 1 }),
{
    let here = Coords { x: x as i32, y: y as i32 };
    if !(0 <= x < col && 0 <= y < g.len()) || (dir != 1 && dir != -1) {
        here
    } else {
        let wraps = x + dir < 0 || x + dir >= col;
        let ny = if wraps { y + dir } else { y };
        let nx = if !wraps { x + dir } else if dir > 0 { 0 } else { col - 1 };
        if wraps && (ny < 0 || ny >= g.len()) {
            here
        } else if wraps && !(if dir > 0 { g[y][x] } else { g[ny][nx] }).has(ATTR_WRAP) {
            here
        } else if nx >= line_len(g[ny]) {
            here
        } else {
            let gp = g[ny][nx];
            let prev = g[y][x];
            if !gp.has(ATTR_WDUMMY) && (is_delim(gp.u) != is_delim(prev.u) || (is_delim(gp.u)
                && gp.u != prev.u)) {
                here
            } else {
                word_end(g, col, nx, ny, dir)
            }
        }
    }
}

/// The first row of the wrapped line that row `y` belongs to.
pub open spec fn snap_line_up(g: Seq<Seq<Glyph>>, col: int, y: int) -> int
    decreases y,
{
    if 0 < y < g.len() && g[y - 1][col - 1].has(ATTR_WRAP) {
        snap_line_up(g, col, y - 1)
    } else {
        y
    }
}

/// The last row of the wrapped line that row `y` belongs to.
pub open spec fn snap_line_down(g: Seq<Seq<Glyph>>, col: int, y: int) -> int
    decreases g.len() - y,
{
    if 0 <= y < g.len() - 1 && g[y][col - 1].has(ATTR_WRAP) {
        snap_line_down(g, col, y + 1)
    } else {
        y
    }
}

/// A corner of the selection moved outwards as the snap mode asks.
pub open spec fn snapped(g: Seq<Seq<Glyph>>, col: int, snap: i32, x: int, y: int, dir: int) -> Coords {
    if snap == SNAP_WORD {
        word_end(g, col, x, y, dir)
    } else if snap == SNAP_LINE {
        Coords {
            x: if dir < 0 { 0 } else { (col - 1) as i32 },
            y: if dir < 0 { snap_line_up(g, col, y) as i32 } else { snap_line_down(g, col, y) as i32 },
        }
    } else {
        Coords { x: x as i32, y: y as i32 }
    }
}

impl TermView {
    /// The used length of row `y` of the active screen.
    pub open spec fn line_len(self, y: int) -> int {
        line_len(self.line[y])
    }

    /// A corner of the selection moved outwards as its snap mode asks.
    pub open spec fn snapped(self, x: int, y: int, dir: int) -> Coords {
        snapped(self.line, self.col, self.sel.snap, x, y, dir)
    }

    /// The normalized corners computed from the corners as given: put into
    /// reading order, snapped, and for a regular selection stretched over the
    /// unused end of their rows.
    #[verifier::opaque]
    pub open spec fn sel_normalized(self) -> TermView {
        if self.sel.mode == SEL_IDLE {
            self
        } else {
            self.sel_renormalized()
        }
    }

    /// The normalized corners of a selection that is not idle.
    pub open spec fn sel_renormalized(self) -> TermView {
        let sel = self.sel;
        let down = sel.ob.y < sel.oe.y;
        let straight = sel.type_ == SEL_REGULAR && sel.ob.y != sel.oe.y;
        let bx = if straight { if down { sel.ob.x } else { sel.oe.x } } else if sel.ob.x
            < sel.oe.x { sel.ob.x } else { sel.oe.x };
        let ex = if straight { if down { sel.oe.x } else { sel.ob.x } } else if sel.ob.x
            < sel.oe.x { sel.oe.x } else { sel.ob.x };
        let by = if sel.ob.y < sel.oe.y { sel.ob.y } else { sel.oe.y };
        let ey = if sel.ob.y < sel.oe.y { sel.oe.y } else { sel.ob.y };
        let nb = self.snapped(bx as int, by as int, -1);
        let ne = self.snapped(ex as int, ey as int, 1);
        if sel.type_ == SEL_RECTANGULAR {
            TermView { sel: Selection { nb, ne, ..sel }, ..self }
        } else {
            let nbx = if self.line_len(nb.y as int) < nb.x { self.line_len(nb.y as int) as i32 } else { nb.x };
            let nex = if self.line_len(ne.y as int) <= ne.x { (self.col - 1) as i32 } else { ne.x };
            TermView {
                sel: Selection { nb: Coords { x: nbx, y: nb.y }, ne: Coords { x: nex, y: ne.y }, ..sel },
                ..self
            }
        }
    }

    /// The selection after the rows from `orig` to the bottom of the scroll
    /// region moved by `n` rows (up where `n` is negative). A selection with
    /// a corner in those rows moves along; it is given up where it leaves
    /// the region, and cut where it only partly does.
    #[verifier::opaque]
    pub open spec fn sel_scrolled(self, orig: int, n: int) -> TermView {
        let sel = self.sel;
        if sel.ob.x == -1 {
            self
        } else if (orig <= sel.ob.y <= self.bot) || (orig <= sel.oe.y <= self.bot) {
            let oby = sel.ob.y + n;
            let oey = sel.oe.y + n;
            if oby > self.bot || oey < self.top {
                self.sel_cleared()
            } else {
                let rect = sel.type_ == SEL_RECTANGULAR;
                let ob = if oby < self.top {
                    Coords { x: if rect { sel.ob.x } else { 0 }, y: self.top as i32 }
                } else {
                    Coords { x: sel.ob.x, y: oby as i32 }
                };
                let oe = if oey > self.bot {
                    Coords { x: if rect { sel.oe.x } else { (self.col - 1) as i32 }, y: self.bot as i32 }
                } else {
                    Coords { x: sel.oe.x, y: oey as i32 }
                };
                TermView { sel: Selection { ob, oe, ..sel }, ..self }.sel_normalized()
            }
        } else {
            self
        }
    }
}

/// The used length of row `y` of the active screen, `y` limited to the
/// screen.
pub fn tlinelen(term: &Term, y: i32) -> (r: i32)
    requires
        term.wf(),
    ensures
        r == term@.line_len(limit(y as int, 0, term@.row - 1)),
        0 <= r <= term@.col,
{
    linelen_at(term, limit_i32(y, 0, term.row - 1))
}

/// The used length of row `y` of the active screen.
pub(crate) fn linelen_at(term: &Term, y: i32) -> (r: i32)
    requires
        term.wf(),
        0 <= y < term@.row,
    ensures
        r == term@.line_len(y as int),
        0 <= r <= term@.col,
{
    proof {
        lemma_rows_len(term.line, term.col as int, term.row as int);
    }
    let l = &term.line[y as usize];
    let mut i: i32 = term.col;
    if l[(i - 1) as usize].mode & ATTR_WRAP != 0 {
        return i;
    }
    while i > 0 && l[(i - 1) as usize].u == SPACE
        invariant
            0 <= i <= term.col,
            l.len() == term.col,
            trimmed_len(l@, i as int) == trimmed_len(l@, term.col as int),
            l@ == term@.line[y as int],
        decreases i,
    {
        i -= 1;
    }
    i
}

/// Moves a corner of the selection to the end of its word.
#[verifier::rlimit(50)]
pub(crate) fn snap_word(term: &Term, x: i32, y: i32, dir: i32) -> (r: Coords)
    requires
        term.wf(),
        0 <= x < term@.col,
        0 <= y < term@.row,
        dir == 1 || dir == -1,
    ensures
        r == word_end(term@.line, term@.col, x as int, y as int, dir as int),
        0 <= r.x < term@.col,
        0 <= r.y < term@.row,
        dir > 0 ==> r.y >= y,
        dir < 0 ==> r.y <= y,
{
    proof {
        lemma_rows_len(term.line, term.col as int, term.row as int);
    }
    let mut cx: i32 = x;
    let mut cy: i32 = y;
    loop
        invariant
            term.wf(),
            term.line.len() == term.row,
            forall|i: int| 0 <= i < term.line.len() ==> (#[trigger] term.line[i]).len() == term.col,
            0 <= cx < term.col,
            0 <= cy < term.row,
            dir == 1 || dir == -1,
            dir > 0 ==> cy >= y,
            dir < 0 ==> cy <= y,
            word_end(term@.line, term@.col, cx as int, cy as int, dir as int) == word_end(
                term@.line,
                term@.col,
                x as int,
                y as int,
                dir as int,
            ),
        decreases (if dir > 0 { term.row - cy } else { cy + 1 }), (if dir > 0 {
            term.col - cx
        } else {
            cx + 1
        }),
    {
        let mut newx: i32 = cx + dir;
        let mut newy: i32 = cy;
        if newx < 0 || newx > term.col - 1 {
            newy = cy + dir;
            newx = if dir > 0 { 0 } else { term.col - 1 };
            if newy < 0 || newy > term.row - 1 {
                return Coords { x: cx, y: cy };
            }
            let g = if dir > 0 {
                term.line[cy as usize][cx as usize]
            } else {
                term.line[newy as usize][newx as usize]
            };
            if g.mode & ATTR_WRAP == 0 {
                return Coords { x: cx, y: cy };
            }
        }
        if newx >= linelen_at(term, newy) {
            return Coords { x: cx, y: cy };
        }
        let gp = term.line[newy as usize][newx as usize];
        let prev = term.line[cy as usize][cx as usize];
        let delim = gp.u == SPACE;
        let prevdelim = prev.u == SPACE;
        if gp.mode & ATTR_WDUMMY == 0 && (delim != prevdelim || (delim && gp.u != prev.u)) {
            return Coords { x: cx, y: cy };
        }
        cx = newx;
        cy = newy;
    }
}

/// Moves the cell nearest to column `x` of row `y` outwards as the snap
/// mode of the selection asks: towards the end where `dir` is positive,
/// else towards the start.
pub fn selsnap(term: &Term, x: i32, y: i32, dir: i32) -> (r: Coords)
    requires
        term.wf(),
    ensures
        r == term@.snapped(
            limit(x as int, 0, term@.col - 1),
            limit(y as int, 0, term@.row - 1),
            if dir > 0 { 1 } else { -1 },
        ),
        0 <= r.x < term@.col,
        0 <= r.y < term@.row,
{
    snap_at(
        term,
        limit_i32(x, 0, term.col - 1),
        limit_i32(y, 0, term.row - 1),
        if dir > 0 { 1 } else { -1 },
    )
}

/// Moves a corner of the selection outwards as the snap mode asks.
#[verifier::rlimit(50)]
pub(crate) fn snap_at(term: &Term, x: i32, y: i32, dir: i32) -> (r: Coords)
    requires
        term.wf(),
        0 <= x < term@.col,
        0 <= y < term@.row,
        dir == 1 || dir == -1,
    ensures
        r == term@.snapped(x as int, y as int, dir as int),
        0 <= r.x < term@.col,
        0 <= r.y < term@.row,
        dir > 0 ==> r.y >= y,
        dir < 0 ==> r.y <= y,
{
    proof {
        lemma_rows_len(term.line, term.col as int, term.row as int);
    }
    if term.sel.snap == SNAP_WORD {
        snap_word(term, x, y, dir)
    } else if term.sel.snap == SNAP_LINE {
        let mut cy: i32 = y;
        if dir < 0 {
            while cy > 0 && term.line[(cy - 1) as usize][(term.col - 1) as usize].mode & ATTR_WRAP
                != 0
                invariant
                    term.wf(),
                    term.line.len() == term.row,
                    forall|i: int|
                        0 <= i < term.line.len() ==> (#[trigger] term.line[i]).len() == term.col,
                    0 <= cy <= y < term.row,
                    snap_line_up(term@.line, term@.col, cy as int) == snap_line_up(
                        term@.line,
                        term@.col,
                        y as int,
                    ),
                decreases cy,
            {
                cy -= 1;
            }
            Coords { x: 0, y: cy }
        } else {
            while cy < term.row - 1 && term.line[cy as usize][(term.col - 1) as usize].mode
                & ATTR_WRAP != 0
                invariant
                    term.wf(),
                    term.line.len() == term.row,
                    forall|i: int|
                        0 <= i < term.line.len() ==> (#[trigger] term.line[i]).len() == term.col,
                    0 <= y <= cy < term.row,
                    snap_line_down(term@.line, term@.col, cy as int) == snap_line_down(
                        term@.line,
                        term@.col,
                        y as int,
                    ),
                decreases term.row - cy,
            {
                cy += 1;
            }
            Coords { x: term.col - 1, y: cy }
        }
    } else {
        Coords { x, y }
    }
}

/// Recomputes the normalized corners of the selection, if there is one,
/// from the corners as given.
pub fn selnormalize(term: &mut Term)
    requires
        old(term).wf(),
    ensures
        final(term).wf(),
        final(term)@ == old(term)@.sel_normalized(),
{
    if term.sel.mode == SEL_IDLE {
        reveal(TermView::sel_normalized);
        return ;
    }
    normalize(term);
}

/// Recomputes the normalized corners of a selection that is not idle.
#[verifier::rlimit(50)]
pub(crate) fn normalize(term: &mut Term)
    requires
        old(term).wf_core(),
        old(term)@.sel.mode != SEL_IDLE,
    ensures
        final(term).wf(),
        final(term)@ == old(term)@.sel_normalized(),
{
    reveal(TermView::sel_normalized);
    let ob = term.sel.ob;
    let oe = term.sel.oe;
    let bx: i32;
    let ex: i32;
    if term.sel.type_ == SEL_REGULAR && ob.y != oe.y {
        bx = if ob.y < oe.y { ob.x } else { oe.x };
        ex = if ob.y < oe.y { oe.x } else { ob.x };
    } else {
        bx = if ob.x < oe.x { ob.x } else { oe.x };
        ex = if ob.x < oe.x { oe.x } else { ob.x };
    }
    let by: i32 = if ob.y < oe.y { ob.y } else { oe.y };
    let ey: i32 = if ob.y < oe.y { oe.y } else { ob.y };
    term.sel.nb = Coords { x: 0, y: 0 };
    term.sel.ne = Coords { x: 0, y: 0 };
    let mut nb = snap_at(term, bx, by, -1);
    let mut ne = snap_at(term, ex, ey, 1);
    if term.sel.type_ != SEL_RECTANGULAR {
        let i = linelen_at(term, nb.y);
        if i < nb.x {
            nb.x = i;
        }
        if linelen_at(term, ne.y) <= ne.x {
            ne.x = term.col - 1;
        }
    }
    term.sel.nb = nb;
    term.sel.ne = ne;
}

/// Moves the selection along with rows `orig` to the bottom of the scroll
/// region, which moved by `n` rows (up where `n` is negative): a selection
/// with a corner in those rows follows the text, is given up where it left
/// the region, and is cut at the region's edge where it partly did.
#[verifier::rlimit(50)]
pub fn selscroll(term: &mut Term, orig: i32, n: i32)
    requires
        old(term).wf(),
    ensures
        final(term).wf(),
        final(term)@ == old(term)@.sel_scrolled(orig as int, n as int),
{
    reveal(TermView::sel_scrolled);
    if term.sel.ob.x == -1 {
        return ;
    }
    let ob = term.sel.ob;
    let oe = term.sel.oe;
    if (orig <= ob.y && ob.y <= term.bot) || (orig <= oe.y && oe.y <= term.bot) {
        let oby: i64 = ob.y as i64 + n as i64;
        let oey: i64 = oe.y as i64 + n as i64;
        if oby > term.bot as i64 || oey < term.top as i64 {
            selclear(term);
            return ;
        }
        let rect = term.sel.type_ == SEL_RECTANGULAR;
        if oby < term.top as i64 {
            term.sel.ob = Coords { x: if rect { ob.x } else { 0 }, y: term.top };
        } else {
            term.sel.ob = Coords { x: ob.x, y: oby as i32 };
        }
        if oey > term.bot as i64 {
            term.sel.oe = Coords { x: if rect { oe.x } else { term.col - 1 }, y: term.bot };
        } else {
            term.sel.oe = Coords { x: oe.x, y: oey as i32 };
        }
        normalize(term);
    }
}

/// The position of the last cell from `x0` to `last` that is not a
/// space, or `x0 - 1` where all are.
pub open spec fn trim_end(l: Seq<Glyph>, x0: int, last: int) -> int
    decreases last - x0 + 1,
{
    if last >= x0 && l[last].u == SPACE {
        trim_end(l, x0, last - 1)
    } else {
        last
    }
}

/// The runes of the cells from `x0` to `last`, without the second halves
/// of wide characters.
pub open spec fn cell_runes(l: Seq<Glyph>, x0: int, last: int) -> Seq<u32>
    decreases last - x0 + 1,
{
    if x0 > last {
        Seq::empty()
    } else if l[x0].has(ATTR_WDUMMY) {
        cell_runes(l, x0 + 1, last)
    } else {
        seq![l[x0].u] + cell_runes(l, x0 + 1, last)
    }
}

/// A snap mode, or none for a number that names no snap mode.
pub open spec fn snap_or_none(snap: i32) -> i32 {
    if snap == SNAP_WORD || snap == SNAP_LINE {
        snap
    } else {
        SNAP_NONE
    }
}

/// A selection type, or regular for a number that names none.
pub open spec fn type_or_regular(type_: i32) -> i32 {
    if type_ == SEL_RECTANGULAR {
        SEL_RECTANGULAR
    } else {
        SEL_REGULAR
    }
}

/// The snap mode of a click at `now` after clicks at `t1` and, before
/// that, `t2`: a line within the triple-click time of `t2`, else a word
/// within the double-click time of `t1`, else none.
pub open spec fn click_snap(now: TimeSpec, t1: TimeSpec, t2: TimeSpec) -> i32 {
    if elapsed(now, t2) <= TRIPLECLICKTIMEOUT {
        SNAP_LINE
    } else if elapsed(now, t1) <= DOUBLECLICKTIMEOUT {
        SNAP_WORD
    } else {
        SNAP_NONE
    }
}

impl TermView {
    /// The selection before the first click; `now` seeds the click times.
    pub open spec fn sel_init(self, now: TimeSpec) -> TermView {
        TermView {
            sel: Selection {
                mode: SEL_IDLE,
                snap: SNAP_NONE,
                ob: crate::glyph::Coords { x: -1i32, y: self.sel.ob.y },
                tclick1: now,
                tclick2: now,
                ..self.sel
            },
            ..self
        }
    }

    /// A selection begun at the cell nearest to column `x` of row `y` on
    /// the active screen: the one before is given up, the new one is empty
    /// with both given corners on that cell, and its rows become dirty.
    #[verifier::opaque]
    pub open spec fn sel_started(self, x: int, y: int, snap: i32) -> TermView {
        let p = Coords {
            x: limit(x, 0, self.col - 1) as i32,
            y: limit(y, 0, self.row - 1) as i32,
        };
        let s = self.sel_cleared();
        let n = TermView {
            sel: Selection {
                mode: SEL_EMPTY,
                type_: SEL_REGULAR,
                alt: self.altscreen(),
                snap: snap_or_none(snap),
                ob: p,
                oe: p,
                ..s.sel
            },
            ..s
        }.sel_normalized();
        n.dirtied(n.sel.nb.y as int, n.sel.ne.y as int)
    }

    /// The selection extended to the cell nearest to column `x` of row `y`:
    /// nothing where no selection was begun; else the selection is ready,
    /// of the given type, its end on that cell, and the rows that it
    /// covered or covers are dirty.
    #[verifier::opaque]
    pub open spec fn sel_extended(self, x: int, y: int, type_: i32) -> TermView {
        if self.sel.mode == SEL_IDLE {
            self
        } else {
            let p = Coords {
                x: limit(x, 0, self.col - 1) as i32,
                y: limit(y, 0, self.row - 1) as i32,
            };
            let n = TermView {
                sel: Selection {
                    mode: SEL_READY,
                    type_: type_or_regular(type_),
                    alt: self.altscreen(),
                    oe: p,
                    ..self.sel
                },
                ..self
            }.sel_normalized();
            n.dirtied(
                if n.sel.nb.y < self.sel.nb.y { n.sel.nb.y as int } else { self.sel.nb.y as int },
                if n.sel.ne.y > self.sel.ne.y { n.sel.ne.y as int } else { self.sel.ne.y as int },
            )
        }
    }

    /// A click at `now` on the cell nearest to column `x` of row `y`: a
    /// selection begins there, with the snap mode that the times of the
    /// last two clicks give; with a snap mode it is at once extended over
    /// the word or line. The click times move on.
    pub open spec fn sel_clicked(self, x: int, y: int, now: TimeSpec) -> TermView {
        let snap = click_snap(now, self.sel.tclick1, self.sel.tclick2);
        let s = self.sel_started(x, y, snap);
        let e = if snap != SNAP_NONE { s.sel_extended(x, y, SEL_REGULAR) } else { s };
        TermView {
            sel: Selection { tclick2: self.sel.tclick1, tclick1: now, ..e.sel },
            ..e
        }
    }

    /// The selected runes of row `y`, and a line feed after them unless
    /// the row continues on the next one or the selection ends inside the
    /// used part of the row. Spaces at the end of the selected part are
    /// dropped; an unused row gives a line feed alone.
    pub open spec fn sel_row_text(self, y: int) -> Seq<u32> {
        let l = self.line[y];
        let len = self.line_len(y);
        let rect = self.sel.type_ == SEL_RECTANGULAR;
        let x0 = if rect || y == self.sel.nb.y { self.sel.nb.x as int } else { 0 };
        let lastx = if rect || y == self.sel.ne.y { self.sel.ne.x as int } else { self.col - 1 };
        let last = if lastx < len - 1 { lastx } else { len - 1 };
        if len == 0 {
            seq![0x0au32]
        } else {
            cell_runes(l, x0, trim_end(l, x0, last)) + if (y < self.sel.ne.y || lastx >= len)
                && !l[last].has(ATTR_WRAP) {
                seq![0x0au32]
            } else {
                Seq::empty()
            }
        }
    }

    /// The selected text from row `y` to the last row of the selection.
    pub open spec fn sel_text_from(self, y: int) -> Seq<u32>
        decreases self.sel.ne.y - y + 1,
    {
        if y > self.sel.ne.y {
            Seq::empty()
        } else {
            self.sel_row_text(y) + self.sel_text_from(y + 1)
        }
    }

    /// Whether there is selected text to hand out: the selection is ready
    /// and was made on the active screen.
    pub open spec fn sel_active(self) -> bool {
        self.sel.mode == SEL_READY && self.sel.alt == self.altscreen()
    }
}

/// Puts the selection into its state before the first click.
pub fn selinit(term: &mut Term, now: TimeSpec)
    requires
        old(term).wf(),
    ensures
        final(term).wf(),
        final(term)@ == old(term)@.sel_init(now),
{
    term.sel.tclick1 = now;
    term.sel.tclick2 = now;
    term.sel.mode = SEL_IDLE;
    term.sel.snap = SNAP_NONE;
    term.sel.ob.x = -1;
}

/// Begins a selection at the cell nearest to column `x` of row `y`. The
/// selection before is given up; the new one is empty.
#[verifier::rlimit(50)]
pub fn selstart(term: &mut Term, x: i32, y: i32, snap: i32)
    requires
        old(term).wf(),
    ensures
        final(term).wf(),
        final(term)@ == old(term)@.sel_started(x as int, y as int, snap),
{
    reveal(TermView::sel_started);
    let alt = term.mode & MODE_ALTSCREEN != 0;
    selclear(term);
    let p = Coords { x: limit_i32(x, 0, term.col - 1), y: limit_i32(y, 0, term.row - 1) };
    term.sel.mode = SEL_EMPTY;
    term.sel.type_ = SEL_REGULAR;
    term.sel.alt = alt;
    term.sel.snap = if snap == SNAP_WORD || snap == SNAP_LINE { snap } else { SNAP_NONE };
    term.sel.ob = p;
    term.sel.oe = p;
    normalize(term);
    let t = term.sel.nb.y;
    let b = term.sel.ne.y;
    tsetdirt(term, t, b);
}

/// Extends the selection to the cell nearest to column `x` of row `y` and
/// makes it ready; does nothing where no selection was begun.
#[verifier::rlimit(50)]
pub fn selextend(term: &mut Term, x: i32, y: i32, type_: i32)
    requires
        old(term).wf(),
    ensures
        final(term).wf(),
        final(term)@ == old(term)@.sel_extended(x as int, y as int, type_),
{
    reveal(TermView::sel_extended);
    if term.sel.mode == SEL_IDLE {
        return ;
    }
    let oldt = term.sel.nb.y;
    let oldb = term.sel.ne.y;
    term.sel.oe = Coords { x: limit_i32(x, 0, term.col - 1), y: limit_i32(y, 0, term.row - 1) };
    term.sel.type_ = if type_ == SEL_RECTANGULAR { SEL_RECTANGULAR } else { SEL_REGULAR };
    term.sel.alt = term.mode & MODE_ALTSCREEN != 0;
    term.sel.mode = SEL_READY;
    normalize(term);
    let t = if term.sel.nb.y < oldt { term.sel.nb.y } else { oldt };
    let b = if term.sel.ne.y > oldb { term.sel.ne.y } else { oldb };
    tsetdirt(term, t, b);
}

/// Takes a click at `now` on the cell nearest to column `x` of row `y`: a
/// second click within the double-click time selects the word, a third
/// within the triple-click time the line.
#[verifier::rlimit(50)]
pub fn selclick(term: &mut Term, x: i32, y: i32, now: TimeSpec)
    requires
        old(term).wf(),
    ensures
        final(term).wf(),
        final(term)@ == old(term)@.sel_clicked(x as int, y as int, now),
{
    reveal(TermView::sel_started);
    reveal(TermView::sel_extended);
    reveal(TermView::sel_normalized);
    let t1 = term.sel.tclick1;
    let snap = if timediff(now, term.sel.tclick2) <= TRIPLECLICKTIMEOUT {
        SNAP_LINE
    } else if timediff(now, t1) <= DOUBLECLICKTIMEOUT {
        SNAP_WORD
    } else {
        SNAP_NONE
    };
    selstart(term, x, y, snap);
    if snap != SNAP_NONE {
        selextend(term, x, y, SEL_REGULAR);
    }
    term.sel.tclick2 = t1;
    term.sel.tclick1 = now;
}

/// The selected runes of row `y` appended to `out`.
#[verifier::rlimit(50)]
fn getsel_row(term: &Term, y: i32, out: &mut Vec<u32>)
    requires
        term.wf(),
        term@.sel.mode != SEL_IDLE,
        term@.sel.nb.y <= y <= term@.sel.ne.y,
    ensures
        final(out)@ == old(out)@ + term@.sel_row_text(y as int),
{
    proof {
        lemma_rows_len(term.line, term.col as int, term.row as int);
    }
    let len = linelen_at(term, y);
    if len == 0 {
        out.push(0x0a);
        assert(out@ =~= old(out)@ + term@.sel_row_text(y as int));
        return ;
    }
    let l = &term.line[y as usize];
    let rect = term.sel.type_ == SEL_RECTANGULAR;
    let x0: i32 = if rect || y == term.sel.nb.y { term.sel.nb.x } else { 0 };
    let lastx: i32 = if rect || y == term.sel.ne.y { term.sel.ne.x } else { term.col - 1 };
    let last: i32 = if lastx < len - 1 { lastx } else { len - 1 };
    let mut end: i32 = last;
    while end >= x0 && l[end as usize].u == SPACE
        invariant
            0 <= x0,
            x0 - 1 <= end || end == last,
            -1 <= end <= last < l.len(),
            trim_end(l@, x0 as int, end as int) == trim_end(l@, x0 as int, last as int),
        decreases end + 1,
    {
        end -= 1;
    }
    let mut x: i32 = x0;
    let ghost base = out@;
    while x <= end
        invariant
            0 <= x0 <= x,
            end < l.len() <= i32::MAX,
            x <= end + 1 || x == x0,
            base + cell_runes(l@, x0 as int, end as int) == out@ + cell_runes(
                l@,
                x as int,
                end as int,
            ),
        decreases end + 1 - x,
    {
        let g = l[x as usize];
        let ghost prev = out@;
        if g.mode & ATTR_WDUMMY == 0 {
            out.push(g.u);
            proof {
                assert(out@ + cell_runes(l@, x + 1, end as int) =~= prev + (seq![g.u]
                    + cell_runes(l@, x + 1, end as int)));
            }
        }
        x += 1;
    }
    assert(out@ =~= base + cell_runes(l@, x0 as int, end as int));
    if (y < term.sel.ne.y || lastx >= len) && l[last as usize].mode & ATTR_WRAP == 0 {
        out.push(0x0a);
    }
    assert(out@ =~= old(out)@ + term@.sel_row_text(y as int));
}

/// The selected text, or nothing where no selection is ready on the active
/// screen. Rows follow each other with a line feed between them unless a
/// row continues on the next; spaces at the end of a row are dropped, and
/// so are the second halves of wide characters.
#[verifier::rlimit(50)]
pub fn getsel(term: &Term) -> (r: Option<Vec<u32>>)
    requires
        term.wf(),
    ensures
        r.is_some() == term@.sel_active(),
        r.is_some() ==> r.unwrap()@ == term@.sel_text_from(term@.sel.nb.y as int),
{
    if term.sel.mode != SEL_READY || term.sel.alt != (term.mode & MODE_ALTSCREEN != 0) {
        return None;
    }
    let mut out: Vec<u32> = Vec::new();
    let mut y: i32 = term.sel.nb.y;
    let ne = term.sel.ne.y;
    while y <= ne
        invariant
            term.wf(),
            term@.sel.mode == SEL_READY,
            ne == term@.sel.ne.y,
            term@.sel.nb.y <= y <= ne + 1,
            out@ + term@.sel_text_from(y as int) == term@.sel_text_from(term@.sel.nb.y as int),
        decreases ne + 1 - y,
    {
        let ghost before = out@;
        getsel_row(term, y, &mut out);
        proof {
            assert(out@ + term@.sel_text_from(y + 1) =~= before + term@.sel_text_from(y as int));
        }
        y += 1;
    }
    assert(out@ =~= term@.sel_text_from(term@.sel.nb.y as int));
    Some(out)
}

} // verus!
