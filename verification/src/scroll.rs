//! Moving rows: scrolling inside the scroll region, the scrollback history
//! that receives what leaves the top of the primary screen, line feeds, and
//! inserting and deleting lines.

use vstd::prelude::*;
use crate::glyph::{limit, Glyph, MODE_ALTSCREEN};
use crate::screen::{lemma_rows_len, limit_i32, tclearregion, tmoveto, tsetdirt};
use crate::selection::selscroll;
use crate::term::{blank_line, ring_pos, Term, TermView};

verus! {

/// The newest `cap` rows of `all`.
pub open spec fn kept(all: Seq<Seq<Glyph>>, cap: int) -> Seq<Seq<Glyph>> {
    if all.len() > cap {
        all.subrange(all.len() - cap, all.len() as int)
    } else {
        all
    }
}

impl TermView {
    /// Whether rows that leave the top of a scroll starting at `orig` go to
    /// the history: on the primary screen, with the scroll region covering
    /// the whole screen, and the scroll starting at its top.
    pub open spec fn feeds_history(self, orig: int) -> bool {
        !self.altscreen() && orig == 0 && self.top == 0 && self.bot == self.row - 1
    }

    /// Rows `orig` to the bottom of the scroll region moved up by `n` rows,
    /// `n` limited to the rows there are. What moves in at the bottom is
    /// blank in the cursor's colours. With `copyhist`, rows that leave the
    /// top of the primary screen while the region is the whole screen are
    /// appended to the history, which keeps its newest `histsize` rows; a
    /// scrolled-back view stays on its text. The rows of the region become
    /// dirty and the selection moves along.
    #[verifier::opaque]
    pub open spec fn scrolled_up(self, orig: int, n: int, copyhist: bool) -> TermView {
        let n = limit(n, 0, self.bot - orig + 1);
        if orig < 0 || n <= 0 {
            self
        } else {
            let fed = if copyhist && self.feeds_history(orig) { self.hist_fed(n) } else { self };
            let s0 = if self.region_selected(0, orig, self.col - 1, orig + n - 1) {
                self.sel_cleared()
            } else {
                self
            };
            TermView {
                line: Seq::new(
                    self.row as nat,
                    |y: int|
                        if orig <= y <= self.bot - n {
                            self.line[y + n]
                        } else if self.bot - n < y <= self.bot {
                            blank_line(self.col, self.c.attr)
                        } else {
                            self.line[y]
                        },
                ),
                hist: fed.hist,
                scr: fed.scr,
                ..s0.dirtied(orig, self.bot)
            }.sel_scrolled(orig, -n)
        }
    }

    /// Rows `orig` to the bottom of the scroll region moved down by `n`
    /// rows, `n` limited to the rows there are. What moves in at `orig` is
    /// blank in the cursor's colours; what leaves the bottom is lost. The
    /// rows of the region become dirty and the selection moves along.
    #[verifier::opaque]
    pub open spec fn scrolled_down(self, orig: int, n: int) -> TermView {
        let n = limit(n, 0, self.bot - orig + 1);
        if orig < 0 || n <= 0 {
            self
        } else {
            let s0 = if self.region_selected(0, self.bot - n + 1, self.col - 1, self.bot) {
                self.sel_cleared()
            } else {
                self
            };
            TermView {
                line: Seq::new(
                    self.row as nat,
                    |y: int|
                        if orig + n <= y <= self.bot {
                            self.line[y - n]
                        } else if orig <= y < orig + n {
                            blank_line(self.col, self.c.attr)
                        } else {
                            self.line[y]
                        },
                ),
                ..s0.dirtied(orig, self.bot)
            }.sel_scrolled(orig, n)
        }
    }

    /// The first `n` rows of the screen appended to the history, which keeps
    /// its newest `histsize` rows; a scrolled-back view stays on its text.
    pub open spec fn hist_fed(self, n: int) -> TermView {
        let hist = kept(self.hist + self.line.subrange(0, n), self.histsize);
        TermView {
            hist,
            scr: if self.scr > 0 {
                if self.scr + n < hist.len() { self.scr + n } else { hist.len() as int }
            } else {
                self.scr
            },
            ..self
        }
    }

    /// Rows `orig` to `bot` rotated up by `n`: the first `n` of them end up
    /// at the bottom.
    pub open spec fn rows_rotated_up(self, orig: int, n: int) -> TermView {
        TermView {
            line: Seq::new(
                self.row as nat,
                |y: int|
                    if orig <= y <= self.bot - n {
                        self.line[y + n]
                    } else if self.bot - n < y <= self.bot {
                        self.line[y - (self.bot - n + 1) + orig]
                    } else {
                        self.line[y]
                    },
            ),
            ..self
        }
    }

    /// Rows `orig` to `bot` rotated down by `n`: the last `n` of them end
    /// up at `orig`.
    pub open spec fn rows_rotated_down(self, orig: int, n: int) -> TermView {
        TermView {
            line: Seq::new(
                self.row as nat,
                |y: int|
                    if orig + n <= y <= self.bot {
                        self.line[y - n]
                    } else if orig <= y < orig + n {
                        self.line[y - orig + (self.bot - n + 1)]
                    } else {
                        self.line[y]
                    },
            ),
            ..self
        }
    }

    /// The cursor moved to the next row, scrolling the region up where it
    /// stood on its last row, and to the first column where `first_col` asks.
    pub open spec fn newline(self, first_col: bool) -> TermView {
        let x = if first_col { 0 } else { self.c.x as int };
        if self.c.y == self.bot {
            self.scrolled_up(self.top, 1, true).moved_to(x, self.c.y as int)
        } else {
            self.moved_to(x, self.c.y + 1)
        }
    }

    /// `n` blank lines inserted at the cursor's row, inside the scroll region.
    pub open spec fn lines_inserted(self, n: int) -> TermView {
        if self.top <= self.c.y <= self.bot {
            self.scrolled_down(self.c.y as int, n)
        } else {
            self
        }
    }

    /// `n` lines deleted at the cursor's row, inside the scroll region.
    pub open spec fn lines_deleted(self, n: int) -> TermView {
        if self.top <= self.c.y <= self.bot {
            self.scrolled_up(self.c.y as int, n, false)
        } else {
            self
        }
    }

    /// The view moved back into the history by `n` rows, as far as there
    /// are rows; every row becomes dirty where it moved.
    pub open spec fn view_scrolled_up(self, n: int) -> TermView {
        let scr = limit(self.scr + n, self.scr, self.hist.len() as int);
        if n <= 0 || scr == self.scr {
            self
        } else {
            TermView { scr, ..self }.all_dirtied()
        }
    }

    /// The view moved forward towards the screen by `n` rows.
    pub open spec fn view_scrolled_down(self, n: int) -> TermView {
        let scr = limit(self.scr - n, 0, self.scr);
        if n <= 0 || scr == self.scr {
            self
        } else {
            TermView { scr, ..self }.all_dirtied()
        }
    }

    /// Row `y` of what is shown: history rows while the view is scrolled
    /// back, then the rows of the active screen.
    pub open spec fn shown_line(self, y: int) -> Seq<Glyph> {
        if y < self.scr {
            self.hist[self.hist.len() - self.scr + y]
        } else {
            self.line[y - self.scr]
        }
    }
}

/// Exchanges two different rows of a grid.
pub(crate) fn rows_swap(grid: &mut Vec<Vec<Glyph>>, a: usize, b: usize)
    requires
        a < old(grid).len(),
        b < old(grid).len(),
        a != b,
    ensures
        final(grid)@ == old(grid)@.update(a as int, old(grid)[b as int]).update(
            b as int,
            old(grid)[a as int],
        ),
{
    let mut tmp: Vec<Glyph> = Vec::new();
    std::mem::swap(&mut tmp, &mut grid[a]);
    std::mem::swap(&mut tmp, &mut grid[b]);
    std::mem::swap(&mut tmp, &mut grid[a]);
}

/// Moves rows `orig + n` to `bot` up by `n`, given that the `n` rows from
/// `orig` all look like `b`, which then fill the bottom.
pub(crate) fn grid_rotate_up(grid: &mut Vec<Vec<Glyph>>, orig: i32, bot: i32, n: i32, Ghost(b): Ghost<Seq<Glyph>>)
    requires
        0 <= orig,
        1 <= n <= bot - orig + 1,
        bot < old(grid).len() <= i32::MAX,
        forall|y: int| orig <= y < orig + n ==> (#[trigger] old(grid)[y])@ == b,
    ensures
        final(grid).len() == old(grid).len(),
        forall|y: int|
            0 <= y < old(grid).len() ==> (#[trigger] final(grid)[y])@ == if orig <= y <= bot - n {
                old(grid)[y + n]@
            } else if bot - n < y <= bot {
                b
            } else {
                old(grid)[y]@
            },
{
    let mut i: i32 = orig;
    while i <= bot - n
        invariant
            0 <= orig <= i <= bot - n + 1,
            1 <= n,
            bot < grid.len() <= i32::MAX,
            grid.len() == old(grid).len(),
            forall|y: int|
                0 <= y < old(grid).len() ==> (#[trigger] grid[y])@ == if orig <= y < i {
                    old(grid)[y + n]@
                } else if i <= y < i + n {
                    b
                } else {
                    old(grid)[y]@
                },
        decreases bot - n + 1 - i,
    {
        rows_swap(grid, i as usize, (i + n) as usize);
        i += 1;
    }
}

/// Moves rows `orig` to `bot - n` down by `n`, given that the last `n` rows
/// up to `bot` all look like `b`, which then fill the top.
pub(crate) fn grid_rotate_down(grid: &mut Vec<Vec<Glyph>>, orig: i32, bot: i32, n: i32, Ghost(b): Ghost<Seq<Glyph>>)
    requires
        0 <= orig,
        1 <= n <= bot - orig + 1,
        bot < old(grid).len() <= i32::MAX,
        forall|y: int| bot - n < y <= bot ==> (#[trigger] old(grid)[y])@ == b,
    ensures
        final(grid).len() == old(grid).len(),
        forall|y: int|
            0 <= y < old(grid).len() ==> (#[trigger] final(grid)[y])@ == if orig + n <= y <= bot {
                old(grid)[y - n]@
            } else if orig <= y < orig + n {
                b
            } else {
                old(grid)[y]@
            },
{
    let mut i: i32 = bot;
    while i >= orig + n
        invariant
            0 <= orig,
            orig + n - 1 <= i <= bot,
            1 <= n,
            bot < grid.len() <= i32::MAX,
            grid.len() == old(grid).len(),
            forall|y: int|
                0 <= y < old(grid).len() ==> (#[trigger] grid[y])@ == if i < y <= bot {
                    old(grid)[y - n]@
                } else if i - n < y <= i {
                    b
                } else {
                    old(grid)[y]@
                },
        decreases i,
    {
        rows_swap(grid, i as usize, (i - n) as usize);
        i -= 1;
    }
}

/// Copies the cells of `src` over those of `dst`.
pub(crate) fn line_copy(dst: &mut Vec<Glyph>, src: &Vec<Glyph>)
    requires
        old(dst).len() == src.len(),
    ensures
        final(dst)@ == src@,
{
    let mut x: usize = 0;
    while x < src.len()
        invariant
            0 <= x <= src.len(),
            dst.len() == src.len(),
            forall|i: int| 0 <= i < x ==> dst[i] == src[i],
        decreases src.len() - x,
    {
        dst[x] = src[x];
        x += 1;
    }
    assert(dst@ =~= src@);
}

/// Appends row `y` of the active screen to the history, dropping the oldest
/// row where the history is full.
#[verifier::rlimit(50)]
pub(crate) fn hist_push(term: &mut Term, y: i32)
    requires
        old(term).wf(),
        0 <= y < old(term)@.row,
        old(term).hist.len() > 0,
    ensures
        final(term).wf(),
        final(term)@ == (TermView {
            hist: kept(old(term)@.hist.push(old(term)@.line[y as int]), old(term)@.histsize),
            ..old(term)@
        }),
{
    proof {
        lemma_rows_len(term.line, term.col as int, term.row as int);
    }
    let cap = term.hist.len();
    let idx: usize = if term.histi + 1 >= cap { 0 } else { term.histi + 1 };
    line_copy(&mut term.hist[idx], &term.line[y as usize]);
    term.histi = idx;
    if term.histn < cap {
        term.histn += 1;
    }
    proof {
        let want = kept(old(term)@.hist.push(old(term)@.line[y as int]), old(term)@.histsize);
        assert(term@.hist.len() == want.len());
        assert forall|k: int| 0 <= k < want.len() implies term@.hist[k] == want[k] by {
            let p = ring_pos(term.histi as int, term.histn as int, cap as int, k);
            if k == want.len() - 1 {
                assert(p == idx);
            } else if old(term).histn < cap {
                assert(p == ring_pos(old(term).histi as int, old(term).histn as int, cap as int, k));
            } else {
                assert(p == ring_pos(
                    old(term).histi as int,
                    old(term).histn as int,
                    cap as int,
                    k + 1,
                ));
            }
        }
        assert(term@.hist =~= want);
        assert forall|i: int| 0 <= i < term.hist.len() implies (#[trigger] term.hist[i]).len()
            == term.col by {
            if i != idx {
                assert(term.hist[i] == old(term).hist[i]);
            }
        }
    }
}

/// Appends the first `n` rows of the screen to the history.
#[verifier::rlimit(50)]
pub(crate) fn hist_feed(term: &mut Term, n: i32)
    requires
        old(term).wf(),
        1 <= n <= old(term)@.row,
    ensures
        final(term).wf(),
        final(term)@ == old(term)@.hist_fed(n as int),
{
    let ghost s = term@;
    if term.hist.len() == 0 {
        assert(kept(s.hist + s.line.subrange(0, n as int), 0) =~= s.hist);
        return ;
    }
    let mut i: i32 = 0;
    while i < n
        invariant
            term.wf(),
            term.hist.len() > 0,
            0 <= i <= n <= term.row,
            term@ == (TermView {
                hist: kept(s.hist + s.line.subrange(0, i as int), s.histsize),
                ..s
            }),
        decreases n - i,
    {
        hist_push(term, i);
        proof {
            let a = s.hist + s.line.subrange(0, i as int);
            let b = s.hist + s.line.subrange(0, i + 1);
            assert(b =~= a.push(s.line[i as int]));
            assert(kept(kept(a, s.histsize).push(s.line[i as int]), s.histsize) =~= kept(
                b,
                s.histsize,
            ));
        }
        i += 1;
    }
    if term.scr > 0 {
        let room: i32 = term.histn as i32;
        term.scr = if term.scr < room - n { term.scr + n } else { room };
    }
}

/// Rotates rows `orig` to the bottom of the scroll region up by `n`, given
/// that the first `n` of them are blank in the cursor's colours.
#[verifier::rlimit(50)]
pub(crate) fn rotate_up(term: &mut Term, orig: i32, n: i32)
    requires
        old(term).wf(),
        0 <= orig,
        1 <= n <= old(term)@.bot - orig + 1,
        forall|y: int|
            orig <= y < orig + n ==> #[trigger] old(term)@.line[y] == blank_line(
                old(term)@.col,
                old(term)@.c.attr,
            ),
    ensures
        final(term).wf(),
        final(term)@ == old(term)@.rows_rotated_up(orig as int, n as int),
{
    let ghost b = blank_line(term@.col, term@.c.attr);
    proof {
        lemma_rows_len(term.line, term.col as int, term.row as int);
        assert forall|y: int| orig <= y < orig + n implies (#[trigger] term.line[y])@ == b by {
            assert(term@.line[y] == b);
        }
    }
    let bot = term.bot;
    grid_rotate_up(&mut term.line, orig, bot, n, Ghost(b));
    proof {
        let want = old(term)@.rows_rotated_up(orig as int, n as int);
        assert forall|y: int| 0 <= y < term@.row implies #[trigger] term@.line[y] == want.line[y] by {
            assert(term.line[y]@ == term@.line[y]);
            if orig <= y <= bot - n {
                assert(old(term).line[y + n]@ == old(term)@.line[y + n]);
            } else if bot - n < y <= bot {
                assert(old(term)@.line[y - (bot - n + 1) + orig] == b);
            } else {
                assert(old(term).line[y]@ == old(term)@.line[y]);
            }
        }
        assert(term@.line =~= want.line);
        assert(term@.alt =~= want.alt);
    }
}

/// Rotates rows `orig` to the bottom of the scroll region down by `n`,
/// given that the last `n` of them are blank in the cursor's colours.
#[verifier::rlimit(50)]
pub(crate) fn rotate_down(term: &mut Term, orig: i32, n: i32)
    requires
        old(term).wf(),
        0 <= orig,
        1 <= n <= old(term)@.bot - orig + 1,
        forall|y: int|
            old(term)@.bot - n < y <= old(term)@.bot ==> #[trigger] old(term)@.line[y]
                == blank_line(old(term)@.col, old(term)@.c.attr),
    ensures
        final(term).wf(),
        final(term)@ == old(term)@.rows_rotated_down(orig as int, n as int),
{
    let ghost b = blank_line(term@.col, term@.c.attr);
    let bot = term.bot;
    proof {
        lemma_rows_len(term.line, term.col as int, term.row as int);
        assert forall|y: int| bot - n < y <= bot implies (#[trigger] term.line[y])@ == b by {
            assert(term@.line[y] == b);
        }
    }
    grid_rotate_down(&mut term.line, orig, bot, n, Ghost(b));
    proof {
        let want = old(term)@.rows_rotated_down(orig as int, n as int);
        assert forall|y: int| 0 <= y < term@.row implies #[trigger] term@.line[y] == want.line[y] by {
            assert(term.line[y]@ == term@.line[y]);
            if orig + n <= y <= bot {
                assert(old(term).line[y - n]@ == old(term)@.line[y - n]);
            } else if orig <= y < orig + n {
                assert(old(term)@.line[y - orig + (bot - n + 1)] == b);
            } else {
                assert(old(term).line[y]@ == old(term)@.line[y]);
            }
        }
        assert(term@.line =~= want.line);
        assert(term@.alt =~= want.alt);
    }
}

/// Scrolling up is feeding the history, erasing the rows that leave,
/// marking the others dirty, rotating, and moving the selection along.
#[verifier::rlimit(50)]
pub proof fn lemma_scroll_up_steps(s: TermView, orig: int, n: int, copyhist: bool)
    requires
        s.wf(),
        0 <= orig,
        1 <= n <= s.bot - orig + 1,
    ensures
        ({
            let fed = if copyhist && s.feeds_history(orig) { s.hist_fed(n) } else { s };
            let cleared = fed.region_cleared(0, orig, s.col - 1, orig + n - 1);
            &&& forall|y: int|
                orig <= y < orig + n ==> #[trigger] cleared.dirtied(orig + n, s.bot).line[y]
                    == blank_line(s.col, s.c.attr)
            &&& cleared.dirtied(orig + n, s.bot).rows_rotated_up(orig, n).sel_scrolled(orig, -n)
                == s.scrolled_up(orig, n, copyhist)
        }),
{
    reveal(TermView::region_cleared);
    reveal(TermView::scrolled_up);
    let fed = if copyhist && s.feeds_history(orig) { s.hist_fed(n) } else { s };
    let cleared = fed.region_cleared(0, orig, s.col - 1, orig + n - 1);
    let got = cleared.dirtied(orig + n, s.bot).rows_rotated_up(orig, n);
    let s0 = if s.region_selected(0, orig, s.col - 1, orig + n - 1) { s.sel_cleared() } else { s };
    let want = TermView {
        line: Seq::new(
            s.row as nat,
            |y: int|
                if orig <= y <= s.bot - n {
                    s.line[y + n]
                } else if s.bot - n < y <= s.bot {
                    blank_line(s.col, s.c.attr)
                } else {
                    s.line[y]
                },
        ),
        hist: fed.hist,
        scr: fed.scr,
        ..s0.dirtied(orig, s.bot)
    };
    assert(forall|x: int, y: int| fed.selected(x, y) == s.selected(x, y));
    assert(fed.region_selected(0, orig, s.col - 1, orig + n - 1) == s.region_selected(
        0,
        orig,
        s.col - 1,
        orig + n - 1,
    ));
    assert forall|y: int| orig <= y < orig + n implies #[trigger] cleared.dirtied(
        orig + n,
        s.bot,
    ).line[y] == blank_line(s.col, s.c.attr) by {
        assert(cleared.line[y] =~= blank_line(s.col, s.c.attr));
    }
    assert(got.line =~= want.line);
    assert(got.dirty =~= want.dirty);
    assert(got.sel == want.sel);
    assert(got =~= want);
}

/// Scrolling down is erasing the rows that leave, marking the others
/// dirty, rotating, and moving the selection along.
#[verifier::rlimit(50)]
pub proof fn lemma_scroll_down_steps(s: TermView, orig: int, n: int)
    requires
        s.wf(),
        0 <= orig,
        1 <= n <= s.bot - orig + 1,
    ensures
        ({
            let cleared = s.dirtied(orig, s.bot - n).region_cleared(
                0,
                s.bot - n + 1,
                s.col - 1,
                s.bot,
            );
            &&& forall|y: int|
                s.bot - n < y <= s.bot ==> #[trigger] cleared.line[y] == blank_line(
                    s.col,
                    s.c.attr,
                )
            &&& cleared.rows_rotated_down(orig, n).sel_scrolled(orig, n) == s.scrolled_down(
                orig,
                n,
            )
        }),
{
    reveal(TermView::region_cleared);
    reveal(TermView::scrolled_down);
    let d = s.dirtied(orig, s.bot - n);
    let cleared = d.region_cleared(0, s.bot - n + 1, s.col - 1, s.bot);
    let got = cleared.rows_rotated_down(orig, n);
    let s0 = if s.region_selected(0, s.bot - n + 1, s.col - 1, s.bot) { s.sel_cleared() } else { s };
    let want = TermView {
        line: Seq::new(
            s.row as nat,
            |y: int|
                if orig + n <= y <= s.bot {
                    s.line[y - n]
                } else if orig <= y < orig + n {
                    blank_line(s.col, s.c.attr)
                } else {
                    s.line[y]
                },
        ),
        ..s0.dirtied(orig, s.bot)
    };
    assert(forall|x: int, y: int| d.selected(x, y) == s.selected(x, y));
    assert(d.region_selected(0, s.bot - n + 1, s.col - 1, s.bot) == s.region_selected(
        0,
        s.bot - n + 1,
        s.col - 1,
        s.bot,
    ));
    assert forall|y: int| s.bot - n < y <= s.bot implies #[trigger] cleared.line[y] == blank_line(
        s.col,
        s.c.attr,
    ) by {
        assert(cleared.line[y] =~= blank_line(s.col, s.c.attr));
    }
    assert(got.line =~= want.line);
    assert(got.dirty =~= want.dirty);
    assert(got.sel == want.sel);
    assert(got =~= want);
}

/// Scrolls rows `orig` to the bottom of the scroll region up by `n` rows,
/// `n` limited to the rows there are; does nothing where `orig` is negative
/// or `n` is not positive. With `copyhist`, rows that leave the top of the
/// primary screen while the region is the whole screen go to the history.
#[verifier::rlimit(50)]
pub fn tscrollup(term: &mut Term, orig: i32, n: i32, copyhist: bool)
    requires
        old(term).wf(),
    ensures
        final(term).wf(),
        final(term)@ == old(term)@.scrolled_up(orig as int, n as int, copyhist),
{
    reveal(TermView::scrolled_up);
    reveal(TermView::region_cleared);
    if orig < 0 || orig > term.bot {
        return ;
    }
    let n = limit_i32(n, 0, term.bot - orig + 1);
    if n <= 0 {
        return ;
    }
    let ghost s = term@;
    proof {
        lemma_scroll_up_steps(s, orig as int, n as int, copyhist);
    }
    if copyhist && term.mode & MODE_ALTSCREEN == 0 && orig == 0 && term.top == 0 && term.bot
        == term.row - 1 {
        hist_feed(term, n);
    }
    let ghost fed = term@;
    assert(fed == if copyhist && s.feeds_history(orig as int) { s.hist_fed(n as int) } else { s });
    let last = orig + n - 1;
    let right = term.col - 1;
    tclearregion(term, 0, orig, right, last);
    let bot = term.bot;
    tsetdirt(term, orig + n, bot);
    proof {
        let ready = fed.region_cleared(0, orig as int, s.col - 1, orig + n - 1).dirtied(
            orig + n,
            s.bot,
        );
        assert(term@ == ready);
        assert forall|y: int| orig <= y < orig + n implies #[trigger] term@.line[y] == blank_line(
            term@.col,
            term@.c.attr,
        ) by {
            assert(ready.line[y] == blank_line(s.col, s.c.attr));
        }
    }
    rotate_up(term, orig, n);
    selscroll(term, orig, -n);
}

/// Scrolls rows `orig` to the bottom of the scroll region down by `n` rows,
/// `n` limited to the rows there are; does nothing where `orig` is negative
/// or `n` is not positive.
#[verifier::rlimit(50)]
pub fn tscrolldown(term: &mut Term, orig: i32, n: i32)
    requires
        old(term).wf(),
    ensures
        final(term).wf(),
        final(term)@ == old(term)@.scrolled_down(orig as int, n as int),
{
    reveal(TermView::scrolled_down);
    reveal(TermView::region_cleared);
    if orig < 0 || orig > term.bot {
        return ;
    }
    let n = limit_i32(n, 0, term.bot - orig + 1);
    if n <= 0 {
        return ;
    }
    proof {
        lemma_scroll_down_steps(term@, orig as int, n as int);
    }
    let bot = term.bot;
    let right = term.col - 1;
    tsetdirt(term, orig, bot - n);
    tclearregion(term, 0, bot - n + 1, right, bot);
    rotate_down(term, orig, n);
    selscroll(term, orig, n);
}

/// Moves the cursor to the next row, scrolling the region up where the
/// cursor stood on its last row, and to the first column where `first_col`
/// asks.
pub fn tnewline(term: &mut Term, first_col: bool)
    requires
        old(term).wf(),
    ensures
        final(term).wf(),
        final(term)@ == old(term)@.newline(first_col),
{
    let mut y = term.c.y;
    let x = if first_col { 0 } else { term.c.x };
    if y == term.bot {
        let top = term.top;
        tscrollup(term, top, 1, true);
    } else {
        y += 1;
    }
    tmoveto(term, x, y);
}

/// Inserts `n` blank lines at the cursor's row if it is in the scroll region.
pub fn tinsertblankline(term: &mut Term, n: i32)
    requires
        old(term).wf(),
    ensures
        final(term).wf(),
        final(term)@ == old(term)@.lines_inserted(n as int),
{
    if term.top <= term.c.y && term.c.y <= term.bot {
        let y = term.c.y;
        tscrolldown(term, y, n);
    }
}

/// Deletes `n` lines at the cursor's row if it is in the scroll region.
pub fn tdeleteline(term: &mut Term, n: i32)
    requires
        old(term).wf(),
    ensures
        final(term).wf(),
        final(term)@ == old(term)@.lines_deleted(n as int),
{
    if term.top <= term.c.y && term.c.y <= term.bot {
        let y = term.c.y;
        tscrollup(term, y, n, false);
    }
}

} // verus!
