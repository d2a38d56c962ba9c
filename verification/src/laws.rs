//! Laws that relate several operations of the terminal, stated over its
//! model and proved from the operations' definitions.

use vstd::prelude::*;
use crate::bits::lemma_wrapnext_keeps_origin;
use crate::config::{DEFAULTBG, DEFAULTFG};
use crate::csi::{pen_set, sgr_one};
use crate::glyph::{
    Glyph, TCursor, ATTR_NULL, ATTR_REVERSE, ATTR_WDUMMY, CURSOR_WRAPNEXT, MODE_ALTSCREEN,
};
use crate::render::{attrs_differ, is_dummy, run_end, run_runes, runs_from, RunView};
use crate::term::{blank_line, TermView};

verus! {

/// Saving the cursor, moving it to any position and restoring it brings
/// back its position, its pen and its origin flag; only a pending wrap is
/// dropped, and the rest of the terminal is as it was after the save.
pub proof fn law_save_move_restore(s: TermView, x: int, y: int)
    requires
        s.wf(),
    ensures
        s.cursor_saved().moved_to(x, y).cursor_loaded() == (TermView {
            c: TCursor { state: s.c.state & !CURSOR_WRAPNEXT, ..s.c },
            ..s.cursor_saved()
        }),
        s.cursor_saved().moved_to(x, y).cursor_loaded().c.x == s.c.x,
        s.cursor_saved().moved_to(x, y).cursor_loaded().c.y == s.c.y,
        s.cursor_saved().moved_to(x, y).cursor_loaded().c.attr == s.c.attr,
        s.cursor_saved().moved_to(x, y).cursor_loaded().c.origin() == s.c.origin(),
{
    lemma_wrapnext_keeps_origin(s.c.state);
}

/// Scrolling the whole primary screen up by `n` rows moves the content up:
/// row `y + n` becomes row `y`, the last `n` rows are blank, and the rows
/// that left the top are the newest rows of the history, as many of them
/// as the history can hold.
#[verifier::rlimit(50)]
pub proof fn law_scroll_up_feeds_history(s: TermView, n: int)
    requires
        s.wf(),
        !s.altscreen(),
        s.top == 0,
        s.bot == s.row - 1,
        0 < n <= s.row,
    ensures
        ({
            let r = s.scrolled_up(0, n, true);
            let m = if n < s.histsize { n } else { s.histsize };
            &&& forall|y: int| 0 <= y < s.row - n ==> #[trigger] r.line[y] == s.line[y + n]
            &&& forall|y: int|
                s.row - n <= y < s.row ==> #[trigger] r.line[y] == blank_line(s.col, s.c.attr)
            &&& r.hist.len() >= m
            &&& r.hist.len() <= s.histsize
            &&& forall|k: int|
                0 <= k < m ==> #[trigger] r.hist[r.hist.len() - m + k] == s.line[n - m + k]
        }),
{
    reveal(TermView::scrolled_up);
    reveal(TermView::sel_scrolled);
    reveal(TermView::sel_normalized);
    let r = s.scrolled_up(0, n, true);
    let m = if n < s.histsize { n } else { s.histsize };
    let all = s.hist + s.line.subrange(0, n);
    assert(r.hist == s.hist_fed(n).hist);
    assert forall|k: int| 0 <= k < m implies #[trigger] r.hist[r.hist.len() - m + k] == s.line[n
        - m + k] by {
        assert(all[all.len() - m + k] == s.line.subrange(0, n)[n - m + k]);
    }
}

/// Exchanging the screens twice leaves the content of both screens, the
/// history, the cursor and the modes, the alt-screen bit among them, as
/// they were; every row is dirty and the selection is given up.
pub proof fn law_swap_twice(s: TermView)
    requires
        s.wf(),
    ensures
        s.screens_swapped().screens_swapped() == (TermView {
            dirty: s.all_dirtied().dirty,
            sel: if s.sel.ob.x == -1 { s.sel } else { s.sel.cleared() },
            ..s
        }),
        s.screens_swapped().screens_swapped().line == s.line,
        s.screens_swapped().screens_swapped().alt == s.alt,
        s.screens_swapped().screens_swapped().c == s.c,
        s.screens_swapped().screens_swapped().mode == s.mode,
        s.screens_swapped().altscreen() == !s.altscreen(),
{
    let m = s.mode;
    assert((m ^ MODE_ALTSCREEN) ^ MODE_ALTSCREEN == m) by (bit_vector);
    assert(((m ^ MODE_ALTSCREEN) & MODE_ALTSCREEN != 0) == !(m & MODE_ALTSCREEN != 0))
        by (bit_vector);
    assert(s.screens_swapped().screens_swapped().dirty =~= s.all_dirtied().dirty);
}

/// Right after the screens were exchanged no cell is selected.
pub proof fn law_swap_clears_selection(s: TermView, x: int, y: int)
    requires
        s.wf(),
    ensures
        !s.screens_swapped().selected(x, y),
        s.screens_swapped().sel.idle(),
{
}

/// Resizing to the same size twice in a row is resizing once.
#[verifier::rlimit(50)]
pub proof fn law_resize_idempotent(s: TermView, col: int, row: int)
    requires
        s.wf(),
    ensures
        s.resized(col, row).resized(col, row) == s.resized(col, row),
{
    if col >= 1 && row >= 1 {
        lemma_wrapnext_keeps_origin(s.c.state);
        let a = s.resized(col, row);
        let b = a.resized(col, row);
        assert(a.c.attr == s.c.attr);
        assert(b.line =~~= a.line);
        assert(b.alt =~~= a.alt);
        assert(b.hist =~~= a.hist);
        assert(b.tabs =~= a.tabs);
        assert(b.dirty =~= a.dirty);
        assert(b.c == a.c);
        assert(b.sel == a.sel);
        assert(b =~= a);
    }
}

/// What the parameter 0 of a graphic rendition does to a pen.
pub proof fn lemma_pen_reset(pen: Glyph)
    ensures
        pen_set(pen, seq![0i32], 0) == sgr_one(pen, 0),
        sgr_one(pen, 0).mode == ATTR_NULL,
        sgr_one(sgr_one(pen, 0), 0) == sgr_one(pen, 0),
{
    let a = seq![0i32];
    assert(a.len() == 1 && a[0] == 0);
    assert(pen_set(pen, a, 0) == pen_set(sgr_one(pen, 0), a, 1));
    assert(pen_set(sgr_one(pen, 0), a, 1) == sgr_one(pen, 0));
}

/// Resetting the graphic rendition twice is resetting it once, and leaves
/// the pen without any attribute in the default colours.
pub proof fn law_sgr_reset_idempotent(s: TermView)
    ensures
        s.attrs_set(seq![0i32]).attrs_set(seq![0i32]) == s.attrs_set(seq![0i32]),
        s.attrs_set(seq![0i32]).c.attr.mode == ATTR_NULL,
        s.attrs_set(seq![0i32]).c.attr.fg == DEFAULTFG,
        s.attrs_set(seq![0i32]).c.attr.bg == DEFAULTBG,
        s.attrs_set(seq![0i32]) == (TermView {
            c: TCursor { attr: s.attrs_set(seq![0i32]).c.attr, ..s.c },
            ..s
        }),
{
    lemma_pen_reset(s.c.attr);
    lemma_pen_reset(sgr_one(s.c.attr, 0));
}

/// Erasing the whole screen leaves every cell a space in the colours of
/// the cursor's pen, without attributes, and every row dirty.
#[verifier::rlimit(50)]
pub proof fn law_erase_display_all(s: TermView)
    requires
        s.wf(),
    ensures
        forall|x: int, y: int|
            0 <= x < s.col && 0 <= y < s.row ==> #[trigger] s.display_erased(2).line[y][x]
                == Glyph::blank(s.c.attr),
        forall|y: int| 0 <= y < s.row ==> #[trigger] s.display_erased(2).dirty[y],
        s.display_erased(2).c == s.c,
{
    reveal(TermView::region_cleared);
}

/// The runes of runs, one run after the other.
pub open spec fn runs_text(runs: Seq<RunView>) -> Seq<u32>
    decreases runs.len(),
{
    if runs.len() == 0 {
        Seq::empty()
    } else {
        runs[0].runes + runs_text(runs.subrange(1, runs.len() as int))
    }
}

/// The column after the cells of run `i`: where the next run begins, or
/// the end of the row after the last run.
pub open spec fn run_limit(runs: Seq<RunView>, i: int, len: int) -> int {
    if i + 1 < runs.len() {
        runs[i + 1].x
    } else {
        len
    }
}

/// Where a run ends, the cells before share its attributes, and the cell
/// there, if there is one, does not.
proof fn lemma_run_end(cells: Seq<Glyph>, x: int, base: Glyph)
    requires
        0 <= x <= cells.len(),
    ensures
        x <= run_end(cells, x, base) <= cells.len(),
        forall|k: int|
            x <= k < run_end(cells, x, base) ==> is_dummy(#[trigger] cells[k]) || !attrs_differ(
                base,
                cells[k],
            ),
        run_end(cells, x, base) < cells.len() ==> !is_dummy(cells[run_end(cells, x, base)])
            && attrs_differ(base, cells[run_end(cells, x, base)]),
    decreases cells.len() - x,
{
    if x < cells.len() && !(!is_dummy(cells[x]) && attrs_differ(base, cells[x])) {
        lemma_run_end(cells, x + 1, base);
    }
}

/// The runes of a stretch of cells are those of its two parts.
proof fn lemma_run_runes_split(cells: Seq<Glyph>, a: int, m: int, b: int)
    requires
        0 <= a <= m <= b <= cells.len(),
    ensures
        run_runes(cells, a, b) == run_runes(cells, a, m) + run_runes(cells, m, b),
    decreases m - a,
{
    if a < m {
        lemma_run_runes_split(cells, a + 1, m, b);
        if is_dummy(cells[a]) {
        } else {
            assert(seq![cells[a].u] + (run_runes(cells, a + 1, m) + run_runes(cells, m, b)) =~= (
            seq![cells[a].u] + run_runes(cells, a + 1, m)) + run_runes(cells, m, b));
        }
    } else {
        assert(run_runes(cells, a, m) =~= Seq::<u32>::empty());
        assert(Seq::<u32>::empty() + run_runes(cells, m, b) =~= run_runes(cells, m, b));
    }
}

/// The runs of a row hold, in order, the runes of all its cells but the
/// second halves of wide characters.
#[verifier::rlimit(50)]
pub proof fn law_runs_cover(cells: Seq<Glyph>, x: int, y: int)
    requires
        0 <= x <= cells.len(),
    ensures
        runs_text(runs_from(cells, x, y)) == run_runes(cells, x, cells.len() as int),
    decreases cells.len() - x,
{
    let len = cells.len() as int;
    if x >= len {
        assert(runs_from(cells, x, y) =~= Seq::<RunView>::empty());
    } else if is_dummy(cells[x]) {
        law_runs_cover(cells, x + 1, y);
    } else {
        let e = run_end(cells, x + 1, cells[x]);
        lemma_run_end(cells, x + 1, cells[x]);
        law_runs_cover(cells, e, y);
        lemma_run_runes_split(cells, x, e, len);
        let first = RunView { x, y, base: cells[x], runes: run_runes(cells, x, e) };
        let all = runs_from(cells, x, y);
        assert(all == seq![first] + runs_from(cells, e, y));
        assert(all.len() > 0 && all[0] == first);
        assert(all.subrange(1, all.len() as int) =~= runs_from(cells, e, y));
    }
}

/// Every run of a row lies in that row, begins at a cell that is no second
/// half of a wide character, and has that cell's attributes and colours.
/// The runs follow each other from left to right, every cell between the
/// start of a run and the start of the next shares the run's attributes
/// and colours or is a second half, and two runs that follow each other
/// differ in them: no run could be longer.
#[verifier::rlimit(50)]
pub proof fn law_runs_maximal(cells: Seq<Glyph>, x: int, y: int)
    requires
        0 <= x <= cells.len(),
    ensures
        forall|i: int|
            0 <= i < runs_from(cells, x, y).len() ==> {
                let r = #[trigger] runs_from(cells, x, y)[i];
                &&& r.y == y
                &&& x <= r.x < cells.len()
                &&& r.base == cells[r.x]
                &&& !is_dummy(r.base)
                &&& r.x < run_limit(runs_from(cells, x, y), i, cells.len() as int) <= cells.len()
                &&& r.runes == run_runes(
                    cells,
                    r.x,
                    run_limit(runs_from(cells, x, y), i, cells.len() as int),
                )
                &&& forall|k: int|
                    r.x <= k < run_limit(runs_from(cells, x, y), i, cells.len() as int)
                        ==> is_dummy(#[trigger] cells[k]) || !attrs_differ(r.base, cells[k])
            },
        forall|i: int|
            0 <= i < runs_from(cells, x, y).len() - 1 ==> attrs_differ(
                (#[trigger] runs_from(cells, x, y)[i]).base,
                runs_from(cells, x, y)[i + 1].base,
            ),
    decreases cells.len() - x,
{
    let len = cells.len() as int;
    let all = runs_from(cells, x, y);
    if x >= len {
        assert(all =~= Seq::<RunView>::empty());
    } else if is_dummy(cells[x]) {
        law_runs_maximal(cells, x + 1, y);
        assert(all == runs_from(cells, x + 1, y));
        assert forall|i: int| 0 <= i < all.len() implies x <= (#[trigger] all[i]).x by {
            assert(x + 1 <= runs_from(cells, x + 1, y)[i].x);
        }
    } else {
        let e = run_end(cells, x + 1, cells[x]);
        lemma_run_end(cells, x + 1, cells[x]);
        law_runs_maximal(cells, e, y);
        let rest = runs_from(cells, e, y);
        let first = RunView { x, y, base: cells[x], runes: run_runes(cells, x, e) };
        assert(all == seq![first] + rest);
        assert(all.len() == rest.len() + 1 && all[0] == first);
        assert(forall|i: int| 1 <= i < all.len() ==> all[i] == rest[i - 1]);
        if e < len {
            lemma_run_end(cells, e + 1, cells[e]);
            assert(rest.len() > 0);
            assert(rest[0].x == e && rest[0].base == cells[e]);
        } else {
            assert(rest =~= Seq::<RunView>::empty());
        }
        assert forall|i: int| 0 <= i < all.len() implies {
            let r = #[trigger] all[i];
            &&& r.y == y
            &&& x <= r.x < len
            &&& r.base == cells[r.x]
            &&& !is_dummy(r.base)
            &&& r.x < run_limit(all, i, len) <= len
            &&& r.runes == run_runes(cells, r.x, run_limit(all, i, len))
            &&& forall|k: int|
                r.x <= k < run_limit(all, i, len) ==> is_dummy(#[trigger] cells[k])
                    || !attrs_differ(r.base, cells[k])
        } by {
            if i == 0 {
                assert(run_limit(all, 0, len) == e);
            } else {
                assert(all[i] == rest[i - 1]);
                assert(run_limit(all, i, len) == run_limit(rest, i - 1, len));
            }
        }
        assert forall|i: int| 0 <= i < all.len() - 1 implies attrs_differ(
            (#[trigger] all[i]).base,
            all[i + 1].base,
        ) by {
            if i == 0 {
            } else {
                assert(all[i] == rest[i - 1]);
                assert(all[i + 1] == rest[i]);
            }
        }
    }
}

/// The second half of a wide character is a placeholder whether it is
/// selected or not: a cell is one as it is drawn exactly if it is one as
/// it is stored, and then it is drawn as it is stored. So the runs of a
/// row, which leave the placeholders out, never hold one as a glyph.
pub proof fn law_placeholder_stays(s: TermView, x: int, y: int)
    ensures
        is_dummy(s.effective(x, y)) == is_dummy(s.shown_line(y)[x]),
        is_dummy(s.shown_line(y)[x]) ==> s.effective(x, y) == s.shown_line(y)[x],
{
    let m = s.shown_line(y)[x].mode;
    assert((m ^ ATTR_REVERSE) & ATTR_WDUMMY == m & ATTR_WDUMMY) by (bit_vector);
}

} // verus!
