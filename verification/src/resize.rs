//! Changing the size of the terminal, resetting it, setting the scroll
//! region, and looking at rows through a scrolled-back view.

use vstd::prelude::*;
use crate::config::TABSPACES;
use crate::glyph::{
    limit, Glyph, TCursor, ATTR_NULL, CS_USA, MODE_ALTSCREEN, MODE_WRAP, SPACE,
};
use crate::screen::{
    lemma_rows_len, limit_i32, tclearregion, tfulldirt, tmoveto, tsavecursor, tswapscreen,
};
use crate::term::{
    blank_grid, default_tabs, new_flags, new_line, new_tabs, ring_pos, rows_view, Selection, Term,
    TermView, SEL_IDLE,
};

verus! {

/// A grid cut or padded to `col` by `row` cells, keeping what fits from the
/// top left; new cells are `g`.
pub open spec fn grid_fitted(grid: Seq<Seq<Glyph>>, col: int, row: int, g: Glyph) -> Seq<
    Seq<Glyph>,
> {
    Seq::new(
        row as nat,
        |y: int|
            Seq::new(
                col as nat,
                |x: int|
                    if y < grid.len() && x < grid[y].len() {
                        grid[y][x]
                    } else {
                        g
                    },
            ),
    )
}

impl Selection {
    /// All four corners lie on a grid of `col` by `row` cells.
    pub open spec fn fits(self, col: int, row: int) -> bool {
        &&& Self::inside(self.ob, col, row)
        &&& Self::inside(self.oe, col, row)
        &&& Self::inside(self.nb, col, row)
        &&& Self::inside(self.ne, col, row)
    }
}

impl TermView {
    /// The terminal with `col` columns and `row` rows; unchanged where
    /// either is less than 1. Both screens and the history keep what fits
    /// from the top left, and new cells are blank in the cursor's colours.
    /// Old columns keep their tab stops, new ones get the default stops.
    /// The scroll region becomes the whole screen, every row dirty, the
    /// cursor is limited to the new screen, and a selection that no longer
    /// fits is given up.
    pub open spec fn resized(self, col: int, row: int) -> TermView {
        if col < 1 || row < 1 {
            self
        } else {
            let g = Glyph::blank(self.c.attr);
            TermView {
                col,
                row,
                line: grid_fitted(self.line, col, row, g),
                alt: grid_fitted(self.alt, col, row, g),
                hist: grid_fitted(self.hist, col, self.hist.len() as int, g),
                dirty: Seq::new(row as nat, |y: int| true),
                tabs: Seq::new(
                    col as nat,
                    |x: int| if x < self.col { self.tabs[x] } else { x % (TABSPACES as int) == 0 },
                ),
                top: 0,
                bot: row - 1,
                sel: if self.sel.ob.x == -1 || self.sel.fits(col, row) {
                    self.sel
                } else {
                    self.sel.cleared()
                },
                ..self
            }.moved_to(self.c.x as int, self.c.y as int)
        }
    }

    /// The terminal after a reset: both screens blank in the default
    /// colours and every row dirty, the cursor and both saved cursors at
    /// home with the default pen, default tab stops, the whole screen as
    /// scroll region, only wrap mode set, all character sets ASCII, and no
    /// selection. Size, history and pending output stay.
    pub open spec fn reset(self) -> TermView {
        TermView {
            c: TCursor::initial(),
            saved: TCursor::initial(),
            saved_alt: TCursor::initial(),
            tabs: default_tabs(self.col),
            top: 0,
            bot: self.row - 1,
            mode: MODE_WRAP,
            trantbl: Seq::new(4, |i: int| CS_USA),
            charset: 0,
            line: blank_grid(self.col, self.row, TCursor::initial().attr),
            alt: blank_grid(self.col, self.row, TCursor::initial().attr),
            dirty: Seq::new(self.row as nat, |y: int| true),
            sel: if self.sel.ob.x == -1 { self.sel } else { self.sel.cleared() },
            ..self
        }
    }

    /// The scroll region set to rows `t` to `b`, limited to the screen and
    /// put in order; the cursor is limited to the rows it may stand on.
    pub open spec fn region_set(self, t: int, b: int) -> TermView {
        let t1 = limit(t, 0, self.row - 1);
        let b1 = limit(b, 0, self.row - 1);
        TermView {
            top: if t1 > b1 { b1 } else { t1 },
            bot: if t1 > b1 { t1 } else { b1 },
            ..self
        }.moved_to(self.c.x as int, self.c.y as int)
    }
}

/// Cuts or pads a row to `col` cells; new cells are `g`.
pub(crate) fn line_resize(l: &mut Vec<Glyph>, col: i32, g: Glyph)
    requires
        col >= 0,
    ensures
        final(l)@ == Seq::new(col as nat, |x: int| if x < old(l).len() { old(l)[x] } else { g }),
{
    if l.len() > col as usize {
        l.truncate(col as usize);
        assert(l@ =~= Seq::new(col as nat, |x: int| if x < old(l).len() { old(l)[x] } else { g }));
        return ;
    }
    while l.len() < col as usize
        invariant
            old(l).len() <= l.len() <= col,
            l@ == Seq::new(l.len() as nat, |x: int| if x < old(l).len() { old(l)[x] } else { g }),
        decreases col - l.len(),
    {
        l.push(g);
    }
}

/// Cuts or pads a grid to `col` by `row` cells; new cells are `g`.
#[verifier::rlimit(50)]
pub(crate) fn grid_resize(grid: &mut Vec<Vec<Glyph>>, col: i32, row: i32, g: Glyph)
    requires
        col >= 0,
        row >= 0,
    ensures
        rows_view(*final(grid)) == grid_fitted(rows_view(*old(grid)), col as int, row as int, g),
        final(grid).len() == row,
        forall|y: int| 0 <= y < row ==> (#[trigger] final(grid)[y]).len() == col,
{
    if grid.len() > row as usize {
        grid.truncate(row as usize);
    }
    let keep = grid.len();
    let mut y: usize = 0;
    while y < keep
        invariant
            0 <= y <= keep == grid.len() <= row,
            keep <= old(grid).len(),
            keep == old(grid).len() || keep == row,
            col >= 0,
            forall|i: int|
                0 <= i < y ==> (#[trigger] grid[i])@ == Seq::new(
                    col as nat,
                    |x: int| if x < old(grid)[i].len() { old(grid)[i][x] } else { g },
                ),
            forall|i: int| y <= i < keep ==> #[trigger] grid[i] == old(grid)[i],
        decreases keep - y,
    {
        line_resize(&mut grid[y], col, g);
        y += 1;
    }
    while grid.len() < row as usize
        invariant
            keep <= grid.len() <= row,
            keep <= old(grid).len(),
            col >= 0,
            forall|i: int|
                0 <= i < keep ==> (#[trigger] grid[i])@ == Seq::new(
                    col as nat,
                    |x: int| if x < old(grid)[i].len() { old(grid)[i][x] } else { g },
                ),
            forall|i: int|
                keep <= i < grid.len() ==> (#[trigger] grid[i])@ == Seq::new(col as nat, |x: int| g),
            keep == old(grid).len() || keep == row,
        decreases row - grid.len(),
    {
        let l = new_line(col, g);
        grid.push(l);
    }
    proof {
        let want = grid_fitted(rows_view(*old(grid)), col as int, row as int, g);
        assert forall|i: int| 0 <= i < row implies #[trigger] rows_view(*grid)[i] == want[i] by {
            assert(grid[i]@ =~= want[i]);
        }
        assert(rows_view(*grid) =~= want);
    }
}

/// Cuts or pads the tab stops to `col` columns; new columns get the
/// default stops.
pub(crate) fn tabs_resize(tabs: &mut Vec<bool>, col: i32)
    requires
        col >= 0,
    ensures
        final(tabs)@ == Seq::new(
            col as nat,
            |x: int| if x < old(tabs).len() { old(tabs)[x] } else { x % (TABSPACES as int) == 0 },
        ),
{
    if tabs.len() > col as usize {
        tabs.truncate(col as usize);
        assert(tabs@ =~= Seq::new(
            col as nat,
            |x: int| if x < old(tabs).len() { old(tabs)[x] } else { x % (TABSPACES as int) == 0 },
        ));
        return ;
    }
    while tabs.len() < col as usize
        invariant
            old(tabs).len() <= tabs.len() <= col,
            tabs@ == Seq::new(
                tabs.len() as nat,
                |x: int|
                    if x < old(tabs).len() {
                        old(tabs)[x]
                    } else {
                        x % (TABSPACES as int) == 0
                    },
            ),
        decreases col - tabs.len(),
    {
        let x: i32 = tabs.len() as i32;
        tabs.push(x % TABSPACES == 0);
    }
}

/// Whether a corner lies on a grid of `col` by `row` cells.
fn inside(p: crate::glyph::Coords, col: i32, row: i32) -> (r: bool)
    ensures
        r == Selection::inside(p, col as int, row as int),
{
    0 <= p.x && p.x < col && 0 <= p.y && p.y < row
}

/// Resizes the terminal to `col` columns and `row` rows. A size with a
/// side below 1 is rejected and changes nothing. Otherwise both screens and
/// the history keep what fits from the top left, the scroll region becomes
/// the whole screen and every row dirty.
#[verifier::rlimit(50)]
pub fn tresize(term: &mut Term, col: i32, row: i32)
    requires
        old(term).wf(),
    ensures
        final(term).wf(),
        final(term)@ == old(term)@.resized(col as int, row as int),
{
    if col < 1 || row < 1 {
        return ;
    }
    let ghost s = term@;
    let g = Glyph { u: SPACE, mode: ATTR_NULL, fg: term.c.attr.fg, bg: term.c.attr.bg };
    let cap: i32 = term.hist.len() as i32;
    proof {
        lemma_rows_len(term.line, term.col as int, term.row as int);
        lemma_rows_len(term.alt, term.col as int, term.row as int);
    }
    grid_resize(&mut term.line, col, row, g);
    grid_resize(&mut term.alt, col, row, g);
    grid_resize(&mut term.hist, col, cap, g);
    tabs_resize(&mut term.tabs, col);
    term.dirty = new_flags(row, true);
    term.col = col;
    term.row = row;
    term.top = 0;
    term.bot = row - 1;
    if term.sel.ob.x != -1 && !(inside(term.sel.ob, col, row) && inside(term.sel.oe, col, row)
        && inside(term.sel.nb, col, row) && inside(term.sel.ne, col, row)) {
        term.sel.mode = SEL_IDLE;
        term.sel.ob.x = -1;
    }
    if term.c.x > col - 1 {
        term.c.x = col - 1;
    }
    if term.c.y > row - 1 {
        term.c.y = row - 1;
    }
    proof {
        let want = TermView {
            c: term@.c,
            ..TermView {
                col: col as int,
                row: row as int,
                line: grid_fitted(s.line, col as int, row as int, g),
                alt: grid_fitted(s.alt, col as int, row as int, g),
                hist: grid_fitted(s.hist, col as int, s.hist.len() as int, g),
                dirty: Seq::new(row as nat, |y: int| true),
                tabs: Seq::new(
                    col as nat,
                    |x: int| if x < s.col { s.tabs[x] } else { x % (TABSPACES as int) == 0 },
                ),
                top: 0,
                bot: row - 1,
                sel: if s.sel.ob.x == -1 || s.sel.fits(col as int, row as int) {
                    s.sel
                } else {
                    s.sel.cleared()
                },
                ..s
            }
        };
        assert(term@.hist.len() == want.hist.len());
        assert forall|k: int| 0 <= k < term@.hist.len() implies #[trigger] term@.hist[k]
            == want.hist[k] by {
            let p = ring_pos(term.histi as int, term.histn as int, cap as int, k);
            assert(rows_view(term.hist)[p] == term.hist[p]@);
            assert(rows_view(old(term).hist)[p] == old(term).hist[p]@);
            assert(s.hist[k] == old(term).hist[p]@);
            assert(term@.hist[k] =~= want.hist[k]);
        }
        assert(term@.hist =~= want.hist);
        assert(term@.tabs =~= want.tabs);
        assert(term@ =~= want);
        assert forall|i: int| 0 <= i < term.hist.len() implies (#[trigger] term.hist[i]).len()
            == term.col by {
            assert(rows_view(term.hist)[i] == term.hist[i]@);
        }
    }
    let x = term.c.x;
    let y = term.c.y;
    tmoveto(term, x, y);
    proof {
        assert(term@ =~= s.resized(col as int, row as int));
    }
}

/// Sets the scroll region to rows `t` to `b`, limited to the screen and
/// put in order, and limits the cursor to the rows it may stand on.
pub fn tsetscroll(term: &mut Term, t: i32, b: i32)
    requires
        old(term).wf(),
    ensures
        final(term).wf(),
        final(term)@ == old(term)@.region_set(t as int, b as int),
{
    let t1 = limit_i32(t, 0, term.row - 1);
    let b1 = limit_i32(b, 0, term.row - 1);
    if t1 > b1 {
        term.top = b1;
        term.bot = t1;
    } else {
        term.top = t1;
        term.bot = b1;
    }
    let miny: i32;
    let maxy: i32;
    if term.c.state & crate::glyph::CURSOR_ORIGIN != 0 {
        miny = term.top;
        maxy = term.bot;
    } else {
        miny = 0;
        maxy = term.row - 1;
    }
    proof {
        crate::bits::lemma_wrapnext_keeps_origin(term.c.state);
    }
    term.c.state = term.c.state & !crate::glyph::CURSOR_WRAPNEXT;
    term.c.y = limit_i32(term.c.y, miny, maxy);
}

impl TermView {
    /// The active screen erased with the cursor at home and saved, and the
    /// screens exchanged.
    pub open spec fn screen_reset(self) -> TermView {
        self.moved_to(0, 0).cursor_saved().region_cleared(
            0,
            0,
            self.col - 1,
            self.row - 1,
        ).screens_swapped()
    }

    /// The settings that a reset restores before it erases the screens.
    pub open spec fn settings_reset(self) -> TermView {
        TermView {
            c: TCursor::initial(),
            tabs: default_tabs(self.col),
            top: 0,
            bot: self.row - 1,
            mode: MODE_WRAP,
            trantbl: Seq::new(4, |i: int| CS_USA),
            charset: 0,
            ..self
        }
    }
}

/// Restoring the settings and then erasing and exchanging the screens
/// twice is a reset.
#[verifier::rlimit(50)]
pub proof fn lemma_reset_steps(s: TermView)
    requires
        s.wf(),
    ensures
        s.settings_reset().wf(),
        s.settings_reset().screen_reset().wf(),
        s.settings_reset().screen_reset().screen_reset() == s.reset(),
{
    reveal(TermView::region_cleared);
    assert(MODE_WRAP & MODE_ALTSCREEN == 0) by (bit_vector);
    assert((MODE_WRAP ^ MODE_ALTSCREEN) & MODE_ALTSCREEN != 0) by (bit_vector);
    assert((MODE_WRAP ^ MODE_ALTSCREEN) ^ MODE_ALTSCREEN == MODE_WRAP) by (bit_vector);
    crate::bits::lemma_wrapnext_keeps_origin(0);
    crate::bits::lemma_origin_bit(0);
    assert(0u8 & !crate::glyph::CURSOR_WRAPNEXT == 0u8) by (bit_vector);
    let a = s.settings_reset();
    let b = a.screen_reset();
    let c = b.screen_reset();
    let pen = TCursor::initial().attr;
    assert(a.moved_to(0, 0).c == TCursor::initial());
    assert(b.alt =~~= blank_grid(s.col, s.row, pen));
    assert(b.c == TCursor::initial());
    assert(b.saved == TCursor::initial());
    assert(b.wf());
    assert(b.moved_to(0, 0).c == TCursor::initial());
    assert(c.alt =~~= blank_grid(s.col, s.row, pen));
    assert(c.line =~~= blank_grid(s.col, s.row, pen));
    assert(c.dirty =~= s.reset().dirty);
    assert(c =~= s.reset());
}

/// Resets the terminal: the default pen, tab stops, scroll region and
/// modes, both screens blank, both saved cursors at home, no selection.
#[verifier::rlimit(50)]
pub fn treset(term: &mut Term)
    requires
        old(term).wf(),
    ensures
        final(term).wf(),
        final(term)@ == old(term)@.reset(),
{
    let ghost s = term@;
    proof {
        lemma_reset_steps(s);
    }
    term.c = TCursor::new();
    term.tabs = new_tabs(term.col);
    term.top = 0;
    term.bot = term.row - 1;
    term.mode = MODE_WRAP;
    term.trantbl[0] = CS_USA;
    term.trantbl[1] = CS_USA;
    term.trantbl[2] = CS_USA;
    term.trantbl[3] = CS_USA;
    term.charset = 0;
    assert(term@.trantbl =~= Seq::new(4, |i: int| CS_USA));
    assert(term@ =~= s.settings_reset());
    let mut i: usize = 0;
    while i < 2
        invariant
            0 <= i <= 2,
            s.settings_reset().screen_reset().wf(),
            s.settings_reset().screen_reset().screen_reset() == s.reset(),
            term.wf_core(),
            i == 0 ==> term@ == s.settings_reset(),
            i == 1 ==> term@ == s.settings_reset().screen_reset(),
            i == 2 ==> term@ == s.reset(),
            i < 2 ==> term.wf(),
        decreases 2 - i,
    {
        tmoveto(term, 0, 0);
        tsavecursor(term);
        let right = term.col - 1;
        let bottom = term.row - 1;
        tclearregion(term, 0, 0, right, bottom);
        tswapscreen(term);
        i += 1;
    }
}

/// Scrolls the view back into the history by `n` rows, as far as there are
/// rows, and marks every row dirty where the view moved.
pub fn kscrollup(term: &mut Term, n: i32)
    requires
        old(term).wf(),
    ensures
        final(term).wf(),
        final(term)@ == old(term)@.view_scrolled_up(n as int),
{
    if n <= 0 {
        return ;
    }
    let room: i32 = term.histn as i32;
    let scr: i32 = if n > room - term.scr { room } else { term.scr + n };
    if scr != term.scr {
        term.scr = scr;
        tfulldirt(term);
    }
}

/// Scrolls the view forward towards the screen by `n` rows and marks every
/// row dirty where the view moved.
pub fn kscrolldown(term: &mut Term, n: i32)
    requires
        old(term).wf(),
    ensures
        final(term).wf(),
        final(term)@ == old(term)@.view_scrolled_down(n as int),
{
    if n <= 0 {
        return ;
    }
    let scr: i32 = if n > term.scr { 0 } else { term.scr - n };
    if scr != term.scr {
        term.scr = scr;
        tfulldirt(term);
    }
}

/// Row `y`, limited to the screen, of what is shown: a row of the history
/// while the view is scrolled back that far, else a row of the active
/// screen.
pub fn term_line(term: &Term, y: i32) -> (l: &Vec<Glyph>)
    requires
        term.wf(),
    ensures
        l@ == term@.shown_line(limit(y as int, 0, term@.row - 1)),
        l@.len() == term@.col,
{
    proof {
        lemma_rows_len(term.line, term.col as int, term.row as int);
    }
    let y = limit_i32(y, 0, term.row - 1);
    if y < term.scr {
        let cap = term.hist.len();
        let k: usize = (term.histn - term.scr as usize) + y as usize;
        let p: usize = if term.histi + 1 + k >= term.histn {
            term.histi + 1 + k - term.histn
        } else {
            term.histi + 1 + k + cap - term.histn
        };
        assert(p == ring_pos(term.histi as int, term.histn as int, cap as int, k as int));
        &term.hist[p]
    } else {
        &term.line[(y - term.scr) as usize]
    }
}

/// The cell of the active screen nearest to column `x` of row `y`.
pub fn term_glyph(term: &Term, x: i32, y: i32) -> (g: Glyph)
    requires
        term.wf(),
    ensures
        g == term@.line[limit(y as int, 0, term@.row - 1)][limit(x as int, 0, term@.col - 1)],
{
    proof {
        lemma_rows_len(term.line, term.col as int, term.row as int);
    }
    let x = limit_i32(x, 0, term.col - 1);
    let y = limit_i32(y, 0, term.row - 1);
    term.line[y as usize][x as usize]
}

} // verus!
