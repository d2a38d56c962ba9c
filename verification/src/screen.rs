//! Operations on the active screen that do not move rows: dirty flags,
//! cursor placement, the saved cursors, erasing, and the swap of the two
//! screens.

use vstd::prelude::*;
use crate::bits::lemma_wrapnext_keeps_origin;
use crate::glyph::{
    limit, Glyph, TCursor, ATTR_NULL, CURSOR_ORIGIN, CURSOR_WRAPNEXT, MODE_ALTSCREEN,
    SPACE,
};
use crate::term::{
    grid_wf, rows_view, Selection, Term, TermView, SEL_IDLE, SEL_READY, SEL_RECTANGULAR,
};

verus! {

impl Selection {
    /// Whether the cell lies between the normalized corners: in reading
    /// order for a regular selection, inside the box for a rectangular one.
    pub open spec fn covers(self, x: int, y: int) -> bool {
        if self.type_ == SEL_RECTANGULAR {
            self.nb.y <= y <= self.ne.y && self.nb.x <= x <= self.ne.x
        } else {
            &&& self.nb.y <= y <= self.ne.y
            &&& (y != self.nb.y || x >= self.nb.x)
            &&& (y != self.ne.y || x <= self.ne.x)
        }
    }
}

impl TermView {
    /// Rows `top` to `bot`, limited to the screen, marked dirty.
    pub open spec fn dirtied(self, top: int, bot: int) -> TermView {
        let t = limit(top, 0, self.row - 1);
        let b = limit(bot, 0, self.row - 1);
        TermView { dirty: Seq::new(self.row as nat, |y: int| self.dirty[y] || t <= y <= b), ..self }
    }

    /// Every row marked dirty.
    pub open spec fn all_dirtied(self) -> TermView {
        TermView { dirty: Seq::new(self.row as nat, |y: int| true), ..self }
    }

    /// A selection exists and belongs to the screen that is active.
    pub open spec fn sel_enabled(self) -> bool {
        self.sel.ob.x != -1 && self.sel.alt == self.altscreen()
    }

    /// The cell at column `x` of row `y` is part of the selection.
    pub open spec fn selected(self, x: int, y: int) -> bool {
        &&& self.sel.mode == SEL_READY
        &&& self.sel.alt == self.altscreen()
        &&& self.sel.covers(x, y)
    }

    /// The selection given up; its rows become dirty.
    pub open spec fn sel_cleared(self) -> TermView {
        if self.sel.ob.x == -1 {
            self
        } else {
            TermView { sel: self.sel.cleared(), ..self }.dirtied(
                self.sel.nb.y as int,
                self.sel.ne.y as int,
            )
        }
    }

    /// The cursor moved to column `x` of row `y`, limited to the screen, or
    /// to the scroll region in origin mode; a pending wrap is dropped.
    pub open spec fn moved_to(self, x: int, y: int) -> TermView {
        let miny = if self.c.origin() { self.top } else { 0 };
        let maxy = if self.c.origin() { self.bot } else { self.row - 1 };
        TermView {
            c: TCursor {
                x: limit(x, 0, self.col - 1) as i32,
                y: limit(y, miny, maxy) as i32,
                state: self.c.state & !CURSOR_WRAPNEXT,
                ..self.c
            },
            ..self
        }
    }

    /// The cursor moved to column `x` of row `y` counted from the top of
    /// the scroll region in origin mode, from the top of the screen otherwise.
    pub open spec fn moved_abs(self, x: int, y: int) -> TermView {
        self.moved_to(x, y + if self.c.origin() { self.top } else { 0 })
    }

    /// The cursor stored in the slot of the active screen.
    pub open spec fn cursor_saved(self) -> TermView {
        if self.altscreen() {
            TermView { saved_alt: self.c, ..self }
        } else {
            TermView { saved: self.c, ..self }
        }
    }

    /// The cursor taken from the slot of the active screen and limited to
    /// where a cursor may stand.
    pub open spec fn cursor_loaded(self) -> TermView {
        let c = if self.altscreen() { self.saved_alt } else { self.saved };
        TermView { c, ..self }.moved_to(c.x as int, c.y as int)
    }

    /// Some cell of the rectangle is selected.
    pub open spec fn region_selected(self, xa: int, ya: int, xb: int, yb: int) -> bool {
        exists|x: int, y: int| xa <= x <= xb && ya <= y <= yb && #[trigger] self.selected(x, y)
    }

    /// The rectangle between two corners, given in any order and limited to
    /// the screen, erased to blanks in the colours of the cursor's pen. Its
    /// rows become dirty, and a selection that it touches is given up.
    #[verifier::opaque]
    pub open spec fn region_cleared(self, x1: int, y1: int, x2: int, y2: int) -> TermView {
        let xa = limit(if x1 > x2 { x2 } else { x1 }, 0, self.col - 1);
        let xb = limit(if x1 > x2 { x1 } else { x2 }, 0, self.col - 1);
        let ya = limit(if y1 > y2 { y2 } else { y1 }, 0, self.row - 1);
        let yb = limit(if y1 > y2 { y1 } else { y2 }, 0, self.row - 1);
        let s = if self.region_selected(xa, ya, xb, yb) { self.sel_cleared() } else { self };
        TermView {
            line: Seq::new(
                self.row as nat,
                |y: int|
                    if ya <= y <= yb {
                        Seq::new(
                            self.col as nat,
                            |x: int|
                                if xa <= x <= xb {
                                    Glyph::blank(self.c.attr)
                                } else {
                                    self.line[y][x]
                                },
                        )
                    } else {
                        self.line[y]
                    },
            ),
            ..s.dirtied(ya, yb)
        }
    }

    /// The two screens exchanged: the alt-screen bit flips, every row
    /// becomes dirty and the selection is given up.
    pub open spec fn screens_swapped(self) -> TermView {
        TermView {
            line: self.alt,
            alt: self.line,
            mode: self.mode ^ MODE_ALTSCREEN,
            sel: if self.sel.ob.x == -1 { self.sel } else { self.sel.cleared() },
            dirty: Seq::new(self.row as nat, |y: int| true),
            ..self
        }
    }
}

/// The rows of a well-formed grid, seen as vectors, have the grid's width.
pub proof fn lemma_rows_len(v: Vec<Vec<Glyph>>, col: int, row: int)
    requires
        grid_wf(rows_view(v), col, row),
    ensures
        v.len() == row,
        forall|y: int| 0 <= y < v.len() ==> (#[trigger] v[y]).len() == col,
{
    assert forall|y: int| 0 <= y < v.len() implies (#[trigger] v[y]).len() == col by {
        assert(rows_view(v)[y].len() == col);
    }
}

/// `v` limited to the range from `lo` to `hi`.
pub fn limit_i32(v: i32, lo: i32, hi: i32) -> (r: i32)
    ensures
        r == limit(v as int, lo as int, hi as int),
{
    if v < lo {
        lo
    } else if v > hi {
        hi
    } else {
        v
    }
}

/// Sets the flags from `t` to `b`.
pub(crate) fn flags_set(flags: &mut Vec<bool>, t: i32, b: i32)
    requires
        0 <= t,
        b < old(flags).len() <= i32::MAX,
    ensures
        final(flags)@ == Seq::new(old(flags).len() as nat, |y: int| old(flags)[y] || t <= y <= b),
{
    if t > b {
        assert(flags@ =~= Seq::new(flags.len() as nat, |y: int| flags[y] || t <= y <= b));
        return ;
    }
    let mut i: i32 = t;
    while i <= b
        invariant
            0 <= t <= i <= b + 1,
            b < flags.len() <= i32::MAX,
            flags.len() == old(flags).len(),
            flags@ == Seq::new(old(flags).len() as nat, |y: int| old(flags)[y] || t <= y < i),
        decreases b + 1 - i,
    {
        flags[i as usize] = true;
        i += 1;
    }
}

/// Marks rows `top` to `bot`, both limited to the screen, as dirty.
pub fn tsetdirt(term: &mut Term, top: i32, bot: i32)
    requires
        old(term).wf(),
    ensures
        final(term).wf(),
        final(term)@ == old(term)@.dirtied(top as int, bot as int),
{
    let t = limit_i32(top, 0, term.row - 1);
    let b = limit_i32(bot, 0, term.row - 1);
    flags_set(&mut term.dirty, t, b);
}

/// Marks every row as dirty.
pub fn tfulldirt(term: &mut Term)
    requires
        old(term).wf(),
    ensures
        final(term).wf(),
        final(term)@ == old(term)@.all_dirtied(),
{
    let bot = term.row - 1;
    tsetdirt(term, 0, bot);
}

/// Whether a selection exists on the active screen.
pub fn get_ena_sel(term: &Term) -> (r: bool)
    ensures
        r == term@.sel_enabled(),
{
    term.sel.ob.x != -1 && term.sel.alt == (term.mode & MODE_ALTSCREEN != 0)
}

/// Whether the cell at column `x` of row `y` is selected: the selection is
/// ready, was made on the active screen, and covers the cell.
pub fn selected(term: &Term, x: i32, y: i32) -> (r: bool)
    ensures
        r == term@.selected(x as int, y as int),
{
    if term.sel.mode != SEL_READY || term.sel.alt != (term.mode & MODE_ALTSCREEN != 0) {
        return false;
    }
    if term.sel.type_ == SEL_RECTANGULAR {
        return term.sel.nb.y <= y && y <= term.sel.ne.y && term.sel.nb.x <= x && x
            <= term.sel.ne.x;
    }
    term.sel.nb.y <= y && y <= term.sel.ne.y && (y != term.sel.nb.y || x >= term.sel.nb.x) && (y
        != term.sel.ne.y || x <= term.sel.ne.x)
}

/// Gives the selection up and marks its rows as dirty.
pub fn selclear(term: &mut Term)
    requires
        old(term).wf(),
    ensures
        final(term).wf(),
        final(term)@ == old(term)@.sel_cleared(),
{
    if term.sel.ob.x == -1 {
        return ;
    }
    term.sel.mode = SEL_IDLE;
    term.sel.ob.x = -1;
    let t = term.sel.nb.y;
    let b = term.sel.ne.y;
    tsetdirt(term, t, b);
}

/// Moves the cursor to column `x` of row `y`. The column is limited to the
/// screen; the row to the screen, or to the scroll region in origin mode.
pub fn tmoveto(term: &mut Term, x: i32, y: i32)
    requires
        old(term).wf(),
    ensures
        final(term).wf(),
        final(term)@ == old(term)@.moved_to(x as int, y as int),
{
    let miny: i32;
    let maxy: i32;
    if term.c.state & CURSOR_ORIGIN != 0 {
        miny = term.top;
        maxy = term.bot;
    } else {
        miny = 0;
        maxy = term.row - 1;
    }
    proof {
        lemma_wrapnext_keeps_origin(term.c.state);
    }
    term.c.state = term.c.state & !CURSOR_WRAPNEXT;
    term.c.x = limit_i32(x, 0, term.col - 1);
    term.c.y = limit_i32(y, miny, maxy);
}

/// Moves the cursor to an absolute position: in origin mode `y` counts from
/// the top of the scroll region.
pub fn tmoveato(term: &mut Term, x: i32, y: i32)
    requires
        old(term).wf(),
    ensures
        final(term).wf(),
        final(term)@ == old(term)@.moved_abs(x as int, y as int),
{
    let off: i32 = if term.c.state & CURSOR_ORIGIN != 0 { term.top } else { 0 };
    let miny: i32;
    let maxy: i32;
    if term.c.state & CURSOR_ORIGIN != 0 {
        miny = term.top;
        maxy = term.bot;
    } else {
        miny = 0;
        maxy = term.row - 1;
    }
    // the sum may leave the range of the coordinate type; the limit does not
    let yy: i32 = if y > maxy - off { maxy } else if y < miny - off { miny } else { y + off };
    tmoveto(term, x, yy);
}

/// Stores the cursor in the slot of the active screen.
pub fn tsavecursor(term: &mut Term)
    requires
        old(term).wf(),
    ensures
        final(term).wf(),
        final(term)@ == old(term)@.cursor_saved(),
{
    if term.mode & MODE_ALTSCREEN != 0 {
        term.saved_alt = term.c;
    } else {
        term.saved = term.c;
    }
}

/// Takes the cursor back from the slot of the active screen.
pub fn tloadcursor(term: &mut Term)
    requires
        old(term).wf(),
    ensures
        final(term).wf(),
        final(term)@ == old(term)@.cursor_loaded(),
{
    let c = if term.mode & MODE_ALTSCREEN != 0 { term.saved_alt } else { term.saved };
    let miny: i32;
    let maxy: i32;
    if c.state & CURSOR_ORIGIN != 0 {
        miny = term.top;
        maxy = term.bot;
    } else {
        miny = 0;
        maxy = term.row - 1;
    }
    proof {
        lemma_wrapnext_keeps_origin(c.state);
    }
    term.c = TCursor {
        attr: c.attr,
        x: limit_i32(c.x, 0, term.col - 1),
        y: limit_i32(c.y, miny, maxy),
        state: c.state & !CURSOR_WRAPNEXT,
    };
}

/// Exchanges the active and the other screen, flips the alt-screen bit,
/// marks every row as dirty and gives the selection up.
pub fn tswapscreen(term: &mut Term)
    requires
        old(term).wf(),
    ensures
        final(term).wf(),
        final(term)@ == old(term)@.screens_swapped(),
{
    std::mem::swap(&mut term.line, &mut term.alt);
    term.mode = term.mode ^ MODE_ALTSCREEN;
    selclear(term);
    tfulldirt(term);
}

/// Whether any cell of the rectangle, whose corners are on the screen and
/// in order, is selected.
pub(crate) fn region_selected(term: &Term, xa: i32, ya: i32, xb: i32, yb: i32) -> (r: bool)
    requires
        term.wf(),
        0 <= xa <= xb < term@.col,
        0 <= ya <= yb < term@.row,
    ensures
        r == term@.region_selected(xa as int, ya as int, xb as int, yb as int),
{
    if term.sel.mode != SEL_READY || term.sel.alt != (term.mode & MODE_ALTSCREEN != 0) {
        return false;
    }
    let mut y: i32 = ya;
    while y <= yb
        invariant
            term.wf(),
            0 <= xa <= xb < term@.col,
            0 <= ya <= y <= yb + 1,
            yb < term@.row,
            term.sel.mode == SEL_READY,
            term.sel.alt == term@.altscreen(),
            forall|x: int, yy: int| xa <= x <= xb && ya <= yy < y ==> !term@.selected(x, yy),
        decreases yb + 1 - y,
    {
        if term.sel.nb.y <= y && y <= term.sel.ne.y {
            let lo: i32 = if term.sel.type_ == SEL_RECTANGULAR || y == term.sel.nb.y {
                term.sel.nb.x
            } else {
                0
            };
            let hi: i32 = if term.sel.type_ == SEL_RECTANGULAR || y == term.sel.ne.y {
                term.sel.ne.x
            } else {
                term.col - 1
            };
            let from: i32 = if lo > xa { lo } else { xa };
            let to: i32 = if hi < xb { hi } else { xb };
            if from <= to {
                assert(term@.selected(from as int, y as int));
                return true;
            }
        }
        y += 1;
    }
    false
}

/// Overwrites cells `xa` to `xb` of a row with `g`.
pub(crate) fn line_fill(l: &mut Vec<Glyph>, xa: i32, xb: i32, g: Glyph)
    requires
        0 <= xa,
        xb < old(l).len() <= i32::MAX,
    ensures
        final(l)@ == Seq::new(
            old(l).len() as nat,
            |x: int| if xa <= x <= xb { g } else { old(l)[x] },
        ),
{
    if xa > xb {
        assert(l@ =~= Seq::new(l.len() as nat, |x: int| if xa <= x <= xb { g } else { l[x] }));
        return ;
    }
    let mut x: i32 = xa;
    while x <= xb
        invariant
            0 <= xa <= x <= xb + 1,
            xb < l.len() <= i32::MAX,
            l.len() == old(l).len(),
            l@ == Seq::new(old(l).len() as nat, |i: int| if xa <= i < x { g } else { old(l)[i] }),
        decreases xb + 1 - x,
    {
        l[x as usize] = g;
        x += 1;
    }
}

/// Overwrites the rectangle of a grid with `g`.
pub(crate) fn grid_fill(grid: &mut Vec<Vec<Glyph>>, xa: i32, ya: i32, xb: i32, yb: i32, g: Glyph)
    requires
        0 <= xa,
        0 <= ya,
        yb < old(grid).len() <= i32::MAX,
        forall|y: int|
            0 <= y < old(grid).len() ==> xb < (#[trigger] old(grid)[y]).len() <= i32::MAX,
    ensures
        final(grid).len() == old(grid).len(),
        forall|y: int|
            0 <= y < old(grid).len() ==> (#[trigger] final(grid)[y])@ == if ya <= y <= yb {
                Seq::new(
                    old(grid)[y].len() as nat,
                    |x: int| if xa <= x <= xb { g } else { old(grid)[y][x] },
                )
            } else {
                old(grid)[y]@
            },
{
    if ya > yb {
        return ;
    }
    let mut y: i32 = ya;
    while y <= yb
        invariant
            0 <= xa,
            0 <= ya <= y <= yb + 1,
            yb < grid.len() <= i32::MAX,
            grid.len() == old(grid).len(),
            forall|i: int|
                0 <= i < old(grid).len() ==> xb < (#[trigger] old(grid)[i]).len() <= i32::MAX,
            forall|i: int|
                0 <= i < old(grid).len() ==> (#[trigger] grid[i])@ == if ya <= i < y {
                    Seq::new(
                        old(grid)[i].len() as nat,
                        |x: int| if xa <= x <= xb { g } else { old(grid)[i][x] },
                    )
                } else {
                    old(grid)[i]@
                },
        decreases yb + 1 - y,
    {
        line_fill(&mut grid[y as usize], xa, xb, g);
        y += 1;
    }
}

/// Erases the rectangle between two corners, given in any order and limited
/// to the screen: every cell becomes a space in the colours of the cursor's
/// pen, without attributes. The rows of the rectangle become dirty, and a
/// selection that the rectangle touches is given up.
#[verifier::rlimit(50)]
pub fn tclearregion(term: &mut Term, x1: i32, y1: i32, x2: i32, y2: i32)
    requires
        old(term).wf(),
    ensures
        final(term).wf(),
        final(term)@ == old(term)@.region_cleared(x1 as int, y1 as int, x2 as int, y2 as int),
{
    reveal(TermView::region_cleared);
    let xa = limit_i32(if x1 > x2 { x2 } else { x1 }, 0, term.col - 1);
    let xb = limit_i32(if x1 > x2 { x1 } else { x2 }, 0, term.col - 1);
    let ya = limit_i32(if y1 > y2 { y2 } else { y1 }, 0, term.row - 1);
    let yb = limit_i32(if y1 > y2 { y1 } else { y2 }, 0, term.row - 1);
    if region_selected(term, xa, ya, xb, yb) {
        selclear(term);
    }
    tsetdirt(term, ya, yb);
    let g = Glyph { u: SPACE, mode: ATTR_NULL, fg: term.c.attr.fg, bg: term.c.attr.bg };
    proof {
        lemma_rows_len(term.line, term.col as int, term.row as int);
    }
    grid_fill(&mut term.line, xa, ya, xb, yb, g);
    proof {
        let want = old(term)@.region_cleared(x1 as int, y1 as int, x2 as int, y2 as int);
        assert(term@.line =~~= want.line);
        assert(term@.dirty =~= want.dirty);
    }
}

} // verus!
