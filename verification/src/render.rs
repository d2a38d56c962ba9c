//! The render projection: dirty rows turned into runs of cells that share
//! their attributes, and what to draw for the cursor.

use vstd::prelude::*;
use crate::config::{BORDERPX, CURSORTHICKNESS, DEFAULTBG, DEFAULTCS, DEFAULTFG, DEFAULTRCS};
use crate::glyph::{
    limit, Glyph, ATTR_BLINK, ATTR_BOLD, ATTR_BOLD_FAINT, ATTR_INVISIBLE, ATTR_NULL, ATTR_REVERSE,
    ATTR_WDUMMY, ATTR_WIDE, MODE_BLINK, MODE_HIDE, MODE_REVERSE, SPACE, WIN_FOCUSED, WIN_VISIBLE,
};
use crate::resize::term_line;
use crate::screen::{get_ena_sel, lemma_rows_len, limit_i32, selected};
use crate::term::{Term, TermView};

verus! {

/// What the core reads of the window: its geometry in pixels, its state
/// and the shape of the cursor.
#[derive(Clone, Copy, Debug, PartialEq, Eq, Structural)]
pub struct XWindow {
    /// is fixed geometry?
    pub isfixed: bool,
    /// left and top offset
    pub l: i32,
    pub t: i32,
    /// geometry mask
    pub gm: i32,
    /// tty width and height
    pub tw: i32,
    pub th: i32,
    /// window width and height
    pub w: i32,
    pub h: i32,
    /// char height
    pub ch: i32,
    /// char width
    pub cw: i32,
    /// focus, visible
    pub state: u8,
    /// cursor style
    pub cursor: i32,
}

/// A run of cells of one row that share their attributes.
#[derive(Debug)]
pub struct GlyphRun {
    /// column of the first cell
    pub x: i32,
    pub y: i32,
    /// attributes and colours of every cell of the run
    pub base: Glyph,
    pub runes: Vec<u32>,
}

pub struct RunView {
    pub x: int,
    pub y: int,
    pub base: Glyph,
    pub runes: Seq<u32>,
}

impl View for GlyphRun {
    type V = RunView;

    open spec fn view(&self) -> RunView {
        RunView { x: self.x as int, y: self.y as int, base: self.base, runes: self.runes@ }
    }
}

pub open spec fn runs_view(v: Vec<GlyphRun>) -> Seq<RunView> {
    Seq::new(v.len() as nat, |i: int| v[i]@)
}

/// Two cells differ in an attribute or a colour.
pub open spec fn attrs_differ(a: Glyph, b: Glyph) -> bool {
    a.mode != b.mode || a.fg != b.fg || a.bg != b.bg
}

/// Whether a cell is the second half of a wide character: a placeholder
/// that holds no glyph of its own.
pub open spec fn is_dummy(g: Glyph) -> bool {
    g.has(ATTR_WDUMMY)
}

/// Where the run with attributes `base` that reaches column `x` ends: the
/// first column from `x` on whose cell differs from `base`, second halves
/// of wide characters not counted, or the end of the row.
pub open spec fn run_end(cells: Seq<Glyph>, x: int, base: Glyph) -> int
    decreases cells.len() - x,
{
    if x < 0 || x >= cells.len() {
        cells.len() as int
    } else if !is_dummy(cells[x]) && attrs_differ(base, cells[x]) {
        x
    } else {
        run_end(cells, x + 1, base)
    }
}

/// The runes of the cells from `a` up to `b`, second halves of wide
/// characters left out.
pub open spec fn run_runes(cells: Seq<Glyph>, a: int, b: int) -> Seq<u32>
    decreases b - a,
{
    if a >= b || a < 0 {
        Seq::empty()
    } else if is_dummy(cells[a]) {
        run_runes(cells, a + 1, b)
    } else {
        seq![cells[a].u] + run_runes(cells, a + 1, b)
    }
}

/// The runs of row `y` from column `x` on: each begins at the first cell
/// that the run before did not take and reaches as far as the cells share
/// its attributes.
pub open spec fn runs_from(cells: Seq<Glyph>, x: int, y: int) -> Seq<RunView>
    decreases cells.len() - x,
{
    if x < 0 || x >= cells.len() {
        Seq::empty()
    } else if is_dummy(cells[x]) {
        runs_from(cells, x + 1, y)
    } else {
        let e = run_end(cells, x + 1, cells[x]);
        if x < e <= cells.len() {
            seq![RunView { x, y, base: cells[x], runes: run_runes(cells, x, e) }] + runs_from(
                cells,
                e,
                y,
            )
        } else {
            Seq::empty()
        }
    }
}

impl TermView {
    /// The cell shown at column `x` of row `y` as it is to be drawn:
    /// reversed where it is selected. The second half of a wide character
    /// is a placeholder that is never drawn; it stays as it is stored,
    /// selected or not.
    pub open spec fn effective(self, x: int, y: int) -> Glyph {
        let g = self.shown_line(y)[x];
        if is_dummy(g) {
            g
        } else if self.sel_enabled() && self.selected(x, y) {
            Glyph { mode: g.mode ^ ATTR_REVERSE, ..g }
        } else {
            g
        }
    }

    /// The cells of row `y` as they are to be drawn.
    pub open spec fn effective_line(self, y: int) -> Seq<Glyph> {
        Seq::new(self.col as nat, |x: int| self.effective(x, y))
    }

    /// The runs of the dirty rows from row `y` on, top row first.
    pub open spec fn dirty_runs(self, y: int) -> Seq<RunView>
        decreases self.row - y,
    {
        if y < 0 || y >= self.row {
            Seq::empty()
        } else if self.dirty[y] {
            runs_from(self.effective_line(y), 0, y) + self.dirty_runs(y + 1)
        } else {
            self.dirty_runs(y + 1)
        }
    }

    /// No row is dirty any more.
    pub open spec fn cleaned(self) -> TermView {
        TermView { dirty: Seq::new(self.row as nat, |y: int| false), ..self }
    }
}

/// The cell at column `x` of the shown row `l`, which is row `y`, as it is
/// to be drawn.
fn effective_at(term: &Term, l: &Vec<Glyph>, ena_sel: bool, x: i32, y: i32) -> (g: Glyph)
    requires
        term.wf(),
        0 <= y < term@.row,
        0 <= x < term@.col,
        l@ == term@.shown_line(y as int),
        ena_sel == term@.sel_enabled(),
    ensures
        g == term@.effective(x as int, y as int),
{
    let g = l[x as usize];
    if g.mode & ATTR_WDUMMY != 0 {
        g
    } else if ena_sel && selected(term, x, y) {
        Glyph { u: g.u, mode: g.mode ^ ATTR_REVERSE, fg: g.fg, bg: g.bg }
    } else {
        g
    }
}

/// Appends the runs of row `y` to `out`.
#[verifier::rlimit(50)]
fn draw_line(term: &Term, y: i32, ena_sel: bool, out: &mut Vec<GlyphRun>)
    requires
        term.wf(),
        0 <= y < term@.row,
        ena_sel == term@.sel_enabled(),
    ensures
        runs_view(*final(out)) == runs_view(*old(out)) + runs_from(
            term@.effective_line(y as int),
            0,
            y as int,
        ),
{
    let l = term_line(term, y);
    let ghost cells = term@.effective_line(y as int);
    let ghost before = runs_view(*out);
    let mut x: i32 = 0;
    while x < term.col
        invariant
            term.wf(),
            0 <= y < term@.row,
            0 <= x <= term.col,
            ena_sel == term@.sel_enabled(),
            l@ == term@.shown_line(y as int),
            cells == term@.effective_line(y as int),
            cells.len() == term.col,
            runs_view(*out) + runs_from(cells, x as int, y as int) == before + runs_from(
                cells,
                0,
                y as int,
            ),
        decreases term.col - x,
    {
        let base = effective_at(term, l, ena_sel, x, y);
        assert(base == cells[x as int]);
        if base.mode & ATTR_WDUMMY != 0 {
            x += 1;
        } else {
            let mut runes: Vec<u32> = Vec::new();
            runes.push(base.u);
            let mut j: i32 = x + 1;
            proof {
                let e = run_end(cells, x + 1, base);
                lemma_run_end_at_least(cells, x + 1, base);
                assert(runes@ =~= seq![base.u]);
            }
            while j < term.col
                invariant
                    term.wf(),
                    0 <= y < term@.row,
                    0 <= x < j <= term.col,
                    ena_sel == term@.sel_enabled(),
                    l@ == term@.shown_line(y as int),
                    cells == term@.effective_line(y as int),
                    cells.len() == term.col,
                    run_end(cells, j as int, base) == run_end(cells, x + 1, base),
                    runes@ + run_runes(cells, j as int, run_end(cells, x + 1, base)) == run_runes(
                        cells,
                        x as int,
                        run_end(cells, x + 1, base),
                    ),
                    j <= run_end(cells, x + 1, base) <= term.col,
                    base == cells[x as int],
                    !is_dummy(base),
                ensures
                    x < j <= term.col,
                    j == run_end(cells, x + 1, base),
                    runes@ == run_runes(cells, x as int, j as int),
                decreases term.col - j,
            {
                let g = effective_at(term, l, ena_sel, j, y);
                assert(g == cells[j as int]);
                proof {
                    lemma_run_end_at_least(cells, j + 1, base);
                }
                if g.mode & ATTR_WDUMMY != 0 {
                    j += 1;
                } else if base.mode != g.mode || base.fg != g.fg || base.bg != g.bg {
                    proof {
                        lemma_run_runes_empty(cells, j as int);
                        assert(runes@ + Seq::<u32>::empty() =~= runes@);
                    }
                    break ;
                } else {
                    let ghost prev = runes@;
                    runes.push(g.u);
                    proof {
                        let e = run_end(cells, x + 1, base);
                        assert(runes@ + run_runes(cells, j + 1, e) =~= prev + (seq![g.u]
                            + run_runes(cells, j + 1, e)));
                    }
                    j += 1;
                }
            }
            proof {
                if j >= term.col {
                    lemma_run_runes_empty(cells, j as int);
                    assert(runes@ + Seq::<u32>::empty() =~= runes@);
                }
            }
            let ghost prev = runs_view(*out);
            let run = GlyphRun { x, y, base, runes };
            out.push(run);
            proof {
                let rv = RunView { x: x as int, y: y as int, base, runes: run_runes(
                    cells,
                    x as int,
                    j as int,
                ) };
                assert(runs_view(*out) =~= prev.push(rv));
                assert(prev.push(rv) + runs_from(cells, j as int, y as int) =~= prev + (seq![rv]
                    + runs_from(cells, j as int, y as int)));
            }
            x = j;
        }
    }
    proof {
        assert(runs_view(*out) + Seq::<RunView>::empty() =~= runs_view(*out));
    }
}

/// No runes lie between a column and itself.
proof fn lemma_run_runes_empty(cells: Seq<Glyph>, a: int)
    ensures
        run_runes(cells, a, a) == Seq::<u32>::empty(),
{
}

/// The first row that the run started at `x0` with `base` reaches.
proof fn lemma_run_end_at_least(cells: Seq<Glyph>, x: int, base: Glyph)
    requires
        0 <= x <= cells.len(),
    ensures
        x <= run_end(cells, x, base) <= cells.len(),
    decreases cells.len() - x,
{
    if x < cells.len() && !(!is_dummy(cells[x]) && attrs_differ(base, cells[x])) {
        lemma_run_end_at_least(cells, x + 1, base);
    }
}

/// The runs of every dirty row, top row first, each row cut into runs of
/// cells that share their attributes after the selection reversed the
/// cells it covers; the rows are clean afterwards.
#[verifier::rlimit(50)]
pub fn draw_rows(term: &mut Term) -> (r: Vec<GlyphRun>)
    requires
        old(term).wf(),
    ensures
        final(term).wf(),
        final(term)@ == old(term)@.cleaned(),
        runs_view(r) == old(term)@.dirty_runs(0),
{
    let ena_sel = get_ena_sel(term);
    let mut out: Vec<GlyphRun> = Vec::new();
    let ghost s = term@;
    let mut y: i32 = 0;
    while y < term.row
        invariant
            term.wf(),
            0 <= y <= term.row,
            ena_sel == s.sel_enabled(),
            term@ == (TermView {
                dirty: Seq::new(s.row as nat, |i: int| if i < y { false } else { s.dirty[i] }),
                ..s
            }),
            runs_view(out) + s.dirty_runs(y as int) == s.dirty_runs(0),
        decreases term.row - y,
    {
        if term.dirty[y as usize] {
            term.dirty[y as usize] = false;
            let ghost prev = runs_view(out);
            proof {
                assert(term@.effective_line(y as int) =~= s.effective_line(y as int));
            }
            draw_line(term, y, ena_sel, &mut out);
            proof {
                let rr = runs_from(s.effective_line(y as int), 0, y as int);
                assert((prev + rr) + s.dirty_runs(y + 1) =~= prev + (rr + s.dirty_runs(y + 1)));
            }
        }
        proof {
            assert(term@.dirty =~= Seq::new(
                s.row as nat,
                |i: int| if i < y + 1 { false } else { s.dirty[i] },
            ));
        }
        y += 1;
    }
    proof {
        assert(runs_view(out) + Seq::<RunView>::empty() =~= runs_view(out));
        assert(term@.dirty =~= s.cleaned().dirty);
    }
    out
}

/// A cell to draw at a position.
#[derive(Clone, Copy, Debug, PartialEq, Eq, Structural)]
pub struct GlyphAt {
    pub g: Glyph,
    pub x: i32,
    pub y: i32,
}

/// A filled rectangle in pixels, in the colour of a palette entry.
#[derive(Clone, Copy, Debug, PartialEq, Eq, Structural)]
pub struct Rect {
    pub col: u32,
    pub x: i64,
    pub y: i64,
    pub w: i64,
    pub h: i64,
}

/// What to draw for the cursor.
#[derive(Debug)]
pub struct CursorDraw {
    /// the cell that restores where the cursor was drawn before
    pub erase: GlyphAt,
    /// the cell that shows a block cursor
    pub glyph: Option<GlyphAt>,
    /// the rectangles that show an underline or bar cursor
    pub rects: Vec<Rect>,
}

pub struct CursorView {
    pub erase: GlyphAt,
    pub glyph: Option<GlyphAt>,
    pub rects: Seq<Rect>,
}

impl View for CursorDraw {
    type V = CursorView;

    open spec fn view(&self) -> CursorView {
        CursorView { erase: self.erase, glyph: self.glyph, rects: self.rects@ }
    }
}

/// What one redraw hands to the renderer.
#[derive(Debug)]
pub struct Frame {
    pub runs: Vec<GlyphRun>,
    /// the cursor, unless the view is scrolled back
    pub cursor: Option<CursorDraw>,
    /// palette entry of the colour that fills what lies outside the cells
    pub clear: u32,
}

pub struct FrameView {
    pub runs: Seq<RunView>,
    pub cursor: Option<CursorView>,
    pub clear: u32,
}

impl View for Frame {
    type V = FrameView;

    open spec fn view(&self) -> FrameView {
        FrameView {
            runs: runs_view(self.runs),
            cursor: match self.cursor {
                Some(c) => Some(c@),
                None => None,
            },
            clear: self.clear,
        }
    }
}

/// The pixel at which cell `n` of a row or column of cells of `size`
/// pixels begins, behind the border.
pub open spec fn cell_px(n: int, size: int) -> int {
    BORDERPX + n * size
}

impl TermView {
    /// Column `x` of row `y`, or the column before it where the cell is the
    /// second half of a wide character.
    pub open spec fn on_glyph(self, x: int, y: int) -> int {
        if is_dummy(self.line[y][x]) && x > 0 {
            x - 1
        } else {
            x
        }
    }

    /// The column where the cursor was drawn last, limited to the screen.
    pub open spec fn old_cursor_x(self) -> int {
        self.on_glyph(limit(self.oldx, 0, self.col - 1), limit(self.oldy, 0, self.row - 1))
    }

    /// The cell that restores where the cursor was drawn last.
    pub open spec fn cursor_erase(self) -> GlyphAt {
        let oy = limit(self.oldy, 0, self.row - 1);
        let ox = self.old_cursor_x();
        let og = self.line[oy][ox];
        GlyphAt {
            g: if !is_dummy(og) && self.sel_enabled() && self.selected(ox, oy) {
                Glyph { mode: og.mode ^ ATTR_REVERSE, ..og }
            } else {
                og
            },
            x: ox as i32,
            y: oy as i32,
        }
    }

    /// Whether the cell under the cursor is drawn as selected.
    pub open spec fn cursor_selected(self) -> bool {
        self.sel_enabled() && self.selected(self.c.x as int, self.c.y as int)
    }

    /// The cell of a block cursor without its shape: the rune under the
    /// cursor in the cursor's colours, which reverse video and a selection
    /// under the cursor exchange.
    pub open spec fn cursor_glyph(self) -> Glyph {
        let u = self.line[self.c.y as int][self.c.x as int].u;
        if self.mode & MODE_REVERSE != 0 {
            Glyph {
                u,
                mode: ATTR_NULL | ATTR_REVERSE,
                fg: if self.cursor_selected() { DEFAULTRCS } else { DEFAULTCS },
                bg: DEFAULTFG,
            }
        } else if self.cursor_selected() {
            Glyph { u, mode: ATTR_NULL, fg: DEFAULTFG, bg: DEFAULTRCS }
        } else {
            Glyph { u, mode: ATTR_NULL, fg: DEFAULTBG, bg: DEFAULTCS }
        }
    }

    /// The palette entry of the colour of a cursor drawn as rectangles.
    pub open spec fn cursor_color(self) -> u32 {
        if (self.mode & MODE_REVERSE != 0) != self.cursor_selected() {
            DEFAULTRCS
        } else {
            DEFAULTCS
        }
    }

    /// What to draw for the cursor in window `xw`. What was drawn for it
    /// last is restored. Nothing more is drawn for a hidden cursor or in a
    /// window without the focus. With the focus the cursor is, by its style,
    /// a block that shows the rune under it (0, 1, 2; 7 shows a snowman),
    /// an underline (3, 4) or a bar (5, 6) of the configured thickness. On
    /// the second half of a wide character the cursor is drawn from the
    /// first half.
    #[verifier::opaque]
    pub open spec fn cursor_drawn(self, xw: XWindow) -> CursorView {
        let y = self.c.y as int;
        let curx = self.on_glyph(self.c.x as int, y);
        let col = self.cursor_color();
        let g = self.cursor_glyph();
        let cw = xw.cw as int;
        let ch = xw.ch as int;
        let px = cell_px(curx, cw);
        let py = cell_px(y, ch);
        let none = CursorView { erase: self.cursor_erase(), glyph: None, rects: Seq::empty() };
        if self.mode & MODE_HIDE != 0 {
            none
        } else if xw.state & WIN_FOCUSED != 0 {
            if xw.cursor == 7 || xw.cursor == 0 || xw.cursor == 1 || xw.cursor == 2 {
                CursorView {
                    glyph: Some(
                        GlyphAt {
                            g: Glyph {
                                u: if xw.cursor == 7 { 0x2603 } else { g.u },
                                mode: g.mode | (self.line[y][curx].mode & ATTR_WIDE),
                                ..g
                            },
                            x: self.c.x,
                            y: self.c.y,
                        },
                    ),
                    ..none
                }
            } else if xw.cursor == 3 || xw.cursor == 4 {
                CursorView {
                    rects: seq![
                        Rect {
                            col,
                            x: px as i64,
                            y: (cell_px(y + 1, ch) - CURSORTHICKNESS) as i64,
                            w: cw as i64,
                            h: CURSORTHICKNESS as i64,
                        },
                    ],
                    ..none
                }
            } else if xw.cursor == 5 || xw.cursor == 6 {
                CursorView {
                    rects: seq![
                        Rect {
                            col,
                            x: px as i64,
                            y: py as i64,
                            w: CURSORTHICKNESS as i64,
                            h: ch as i64,
                        },
                    ],
                    ..none
                }
            } else {
                none
            }
        } else {
            none
        }
    }

    /// The terminal after the cursor was drawn: where it was drawn is
    /// remembered, unless it is hidden; what is remembered is on the screen.
    pub open spec fn cursor_noted(self) -> TermView {
        if self.mode & MODE_HIDE != 0 {
            TermView {
                oldx: self.old_cursor_x(),
                oldy: limit(self.oldy, 0, self.row - 1),
                ..self
            }
        } else {
            TermView {
                oldx: self.on_glyph(self.c.x as int, self.c.y as int),
                oldy: self.c.y as int,
                ..self
            }
        }
    }

    /// The palette entry of the colour outside the cells: the default
    /// foreground in reverse video, else the default background.
    pub open spec fn clear_color(self) -> u32 {
        if self.mode & MODE_REVERSE != 0 {
            DEFAULTFG
        } else {
            DEFAULTBG
        }
    }

    /// What a redraw hands to the renderer: the runs of the dirty rows,
    /// the cursor unless the view is scrolled back, and the colour outside
    /// the cells.
    pub open spec fn frame(self, xw: XWindow) -> FrameView {
        FrameView {
            runs: self.dirty_runs(0),
            cursor: if self.scr == 0 { Some(self.cursor_drawn(xw)) } else { None },
            clear: self.clear_color(),
        }
    }

    /// The terminal after a redraw: no row is dirty, and the place of the
    /// cursor is remembered unless the view is scrolled back.
    pub open spec fn drawn(self) -> TermView {
        if self.scr == 0 {
            self.cleaned().cursor_noted()
        } else {
            self.cleaned()
        }
    }
}

/// The product of two coordinates fits in 64 bits with room to spare.
proof fn lemma_cell_px_bounds(n: int, size: int)
    requires
        0 <= n <= 0x8000_0000,
        -0x8000_0000 <= size <= 0x8000_0000,
    ensures
        -0x4000_0000_0000_0000 <= n * size <= 0x4000_0000_0000_0000,
{
    assert(-0x4000_0000_0000_0000 <= n * size <= 0x4000_0000_0000_0000) by (nonlinear_arith)
        requires
            0 <= n <= 0x8000_0000,
            -0x8000_0000 <= size <= 0x8000_0000,
    ;
}

/// The pixel at which cell `n` begins.
fn cellpx(n: i32, size: i32) -> (r: i64)
    requires
        0 <= n,
    ensures
        r == cell_px(n as int, size as int),
        -0x4000_0000_0000_0010 <= r <= 0x4000_0000_0000_0010,
{
    proof {
        lemma_cell_px_bounds(n as int, size as int);
    }
    BORDERPX as i64 + n as i64 * size as i64
}

/// The pixel at which the cell after cell `n` begins.
fn cellpx_next(n: i32, size: i32) -> (r: i64)
    requires
        0 <= n,
    ensures
        r == cell_px(n + 1, size as int),
        -0x4000_0000_0000_0010 <= r <= 0x4000_0000_0000_0010,
{
    proof {
        lemma_cell_px_bounds(n + 1, size as int);
    }
    BORDERPX as i64 + (n as i64 + 1) * size as i64
}

/// Says what to draw for the cursor in window `xw`, and remembers where
/// the cursor is drawn.
#[verifier::rlimit(50)]
pub fn xdrawcursor(term: &mut Term, xw: &XWindow) -> (d: CursorDraw)
    requires
        old(term).wf(),
    ensures
        final(term).wf(),
        d@ == old(term)@.cursor_drawn(*xw),
        final(term)@ == old(term)@.cursor_noted(),
{
    reveal(TermView::cursor_drawn);
    proof {
        lemma_rows_len(term.line, term.col as int, term.row as int);
    }
    let ena_sel = get_ena_sel(term);
    let mut oldx = limit_i32(term.oldx, 0, term.col - 1);
    let oldy = limit_i32(term.oldy, 0, term.row - 1);
    let y = term.c.y;
    let mut curx = term.c.x;
    // adjust position if in dummy
    if term.line[oldy as usize][oldx as usize].mode & ATTR_WDUMMY != 0 && oldx > 0 {
        oldx -= 1;
    }
    if term.line[y as usize][curx as usize].mode & ATTR_WDUMMY != 0 && curx > 0 {
        curx -= 1;
    }
    // remove the old cursor
    let mut og = term.line[oldy as usize][oldx as usize];
    if og.mode & ATTR_WDUMMY == 0 && ena_sel && selected(term, oldx, oldy) {
        og.mode = og.mode ^ ATTR_REVERSE;
    }
    let erase = GlyphAt { g: og, x: oldx, y: oldy };
    let mut g = Glyph { u: SPACE, mode: ATTR_NULL, fg: DEFAULTBG, bg: DEFAULTCS };
    g.u = term.line[y as usize][term.c.x as usize].u;
    // select the right color for the right mode
    let sel_here = ena_sel && selected(term, term.c.x, y);
    let drawcol: u32;
    if term.mode & MODE_REVERSE != 0 {
        g.mode = g.mode | ATTR_REVERSE;
        g.bg = DEFAULTFG;
        if sel_here {
            drawcol = DEFAULTCS;
            g.fg = DEFAULTRCS;
        } else {
            drawcol = DEFAULTRCS;
            g.fg = DEFAULTCS;
        }
    } else if sel_here {
        drawcol = DEFAULTRCS;
        g.fg = DEFAULTFG;
        g.bg = DEFAULTRCS;
    } else {
        drawcol = DEFAULTCS;
    }
    term.oldx = oldx;
    term.oldy = oldy;
    let mut rects: Vec<Rect> = Vec::new();
    if term.mode & MODE_HIDE != 0 {
        return CursorDraw { erase, glyph: None, rects };
    }
    let mut glyph: Option<GlyphAt> = None;
    let px = cellpx(curx, xw.cw);
    let py = cellpx(y, xw.ch);
    // draw the new one
    if xw.state & WIN_FOCUSED != 0 {
        if xw.cursor == 7 {
            g.u = 0x2603;
        }
        if xw.cursor == 7 || xw.cursor == 0 || xw.cursor == 1 || xw.cursor == 2 {
            g.mode = g.mode | (term.line[y as usize][curx as usize].mode & ATTR_WIDE);
            glyph = Some(GlyphAt { g, x: term.c.x, y });
        } else if xw.cursor == 3 || xw.cursor == 4 {
            rects.push(
                Rect {
                    col: drawcol,
                    x: px,
                    y: cellpx_next(y, xw.ch) - CURSORTHICKNESS as i64,
                    w: xw.cw as i64,
                    h: CURSORTHICKNESS as i64,
                },
            );
        } else if xw.cursor == 5 || xw.cursor == 6 {
            rects.push(
                Rect { col: drawcol, x: px, y: py, w: CURSORTHICKNESS as i64, h: xw.ch as i64 },
            );
        }
    }
    term.oldx = curx;
    term.oldy = y;
    let d = CursorDraw { erase, glyph, rects };
    proof {
        assert(d@.rects =~= old(term)@.cursor_drawn(*xw).rects);
    }
    d
}

/// What is drawn for the cursor does not depend on which rows are dirty.
pub proof fn lemma_cursor_ignores_dirty(s: TermView, xw: XWindow)
    ensures
        s.cleaned().cursor_drawn(xw) == s.cursor_drawn(xw),
{
    reveal(TermView::cursor_drawn);
}

/// Redraws: hands out the runs of the dirty rows, which are clean
/// afterwards, what to draw for the cursor unless the view is scrolled
/// back, and the colour outside the cells. Where the window is not visible
/// nothing is drawn and nothing changes.
#[verifier::rlimit(50)]
pub fn draw(term: &mut Term, xw: &XWindow) -> (r: Option<Frame>)
    requires
        old(term).wf(),
    ensures
        final(term).wf(),
        r.is_some() == (xw.state & WIN_VISIBLE != 0),
        r.is_none() ==> final(term)@ == old(term)@,
        r.is_some() ==> final(term)@ == old(term)@.drawn() && r.unwrap()@ == old(term)@.frame(*xw),
{
    if xw.state & WIN_VISIBLE == 0 {
        return None;
    }
    proof {
        lemma_cursor_ignores_dirty(term@, *xw);
    }
    let runs = draw_rows(term);
    let cursor = if term.scr == 0 { Some(xdrawcursor(term, xw)) } else { None };
    let clear = if term.mode & MODE_REVERSE != 0 { DEFAULTFG } else { DEFAULTBG };
    Some(Frame { runs, cursor, clear })
}

/// The colours in which cells with the attributes and colours of `base`
/// are drawn while the terminal has the modes `mode`, foreground first.
/// Bold without faint turns the first eight colours into their bright
/// ones. Reverse video exchanges the default foreground and background.
/// A reversed cell exchanges its two colours. A cell that blinks in the
/// dark phase, and an invisible one, shows its background only.
pub open spec fn shown_colors(mode: u32, base: Glyph) -> (u32, u32) {
    let fg0 = if base.mode & ATTR_BOLD_FAINT == ATTR_BOLD && base.fg <= 7 {
        (base.fg + 8) as u32
    } else {
        base.fg
    };
    let rev = mode & MODE_REVERSE != 0;
    let fg1 = if rev && fg0 == DEFAULTFG { DEFAULTBG } else { fg0 };
    let bg1 = if rev && base.bg == DEFAULTBG { DEFAULTFG } else { base.bg };
    let swap = base.mode & ATTR_REVERSE != 0;
    let fg2 = if swap { bg1 } else { fg1 };
    let bg2 = if swap { fg1 } else { bg1 };
    let dark = (base.mode & ATTR_BLINK != 0 && mode & MODE_BLINK != 0) || base.mode
        & ATTR_INVISIBLE != 0;
    (if dark { bg2 } else { fg2 }, bg2)
}

/// The colours in which a run is drawn, foreground first.
pub fn run_colors(mode: u32, base: Glyph) -> (r: (u32, u32))
    ensures
        r == shown_colors(mode, base),
{
    let mut fg = base.fg;
    let mut bg = base.bg;
    if base.mode & ATTR_BOLD_FAINT == ATTR_BOLD && fg <= 7 {
        fg = fg + 8;
    }
    if mode & MODE_REVERSE != 0 {
        if fg == DEFAULTFG {
            fg = DEFAULTBG;
        }
        if bg == DEFAULTBG {
            bg = DEFAULTFG;
        }
    }
    if base.mode & ATTR_REVERSE != 0 {
        let tmp = fg;
        fg = bg;
        bg = tmp;
    }
    if (base.mode & ATTR_BLINK != 0 && mode & MODE_BLINK != 0) || base.mode & ATTR_INVISIBLE != 0 {
        fg = bg;
    }
    (fg, bg)
}

} // verus!
