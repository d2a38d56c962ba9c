//! The geometry of the window in pixels.

use vstd::prelude::*;
use crate::config::BORDERPX;
use crate::glyph::limit;
use crate::render::XWindow;
use crate::resize::tresize;
use crate::term::{Term, TermView};

verus! {

/// Bit of the geometry mask: the horizontal offset counts from the right.
pub const XNEGATIVE: i32 = 0x0010;

/// Bit of the geometry mask: the vertical offset counts from the bottom.
pub const YNEGATIVE: i32 = 0x0020;

/// The pixels that `n` cells of `size` pixels take with the border on
/// both sides.
pub open spec fn span_px(n: int, size: int) -> int {
    2 * BORDERPX + n * size
}

/// `v` limited to what a coordinate can hold.
pub open spec fn coord(v: int) -> i32 {
    limit(v, i32::MIN as int, i32::MAX as int) as i32
}

/// The window sized for a terminal of `col` by `row` cells on a display
/// of `dw` by `dh` pixels: the cells and the border give width and height,
/// and an offset that the geometry mask counts from the right or the
/// bottom is turned into one from the left or the top. Values that do not
/// fit a coordinate stop at its limits.
pub open spec fn window_placed(xw: XWindow, col: int, row: int, dw: int, dh: int) -> XWindow {
    let w = coord(span_px(col, xw.cw as int));
    let h = coord(span_px(row, xw.ch as int));
    XWindow {
        w,
        h,
        l: if xw.gm & XNEGATIVE != 0 { coord(xw.l + dw - w - 2) } else { xw.l },
        t: if xw.gm & YNEGATIVE != 0 { coord(xw.t + dh - h - 2) } else { xw.t },
        ..xw
    }
}

fn coord_of(v: i128) -> (r: i32)
    ensures
        r == coord(v as int),
{
    if v < i32::MIN as i128 {
        i32::MIN
    } else if v > i32::MAX as i128 {
        i32::MAX
    } else {
        v as i32
    }
}

/// Sizes and places the window for a terminal of `col` by `row` cells on
/// a display of `dw` by `dh` pixels.
pub fn xgeometry(xw: &mut XWindow, col: i32, row: i32, dw: i32, dh: i32)
    ensures
        *final(xw) == window_placed(*old(xw), col as int, row as int, dw as int, dh as int),
{
    assert(-0x4000_0000_0000_0000 <= (col as int) * (xw.cw as int) <= 0x4000_0000_0000_0000)
        by (nonlinear_arith)
        requires
            -0x8000_0000 <= col as int <= 0x8000_0000,
            -0x8000_0000 <= xw.cw as int <= 0x8000_0000,
    ;
    assert(-0x4000_0000_0000_0000 <= (row as int) * (xw.ch as int) <= 0x4000_0000_0000_0000)
        by (nonlinear_arith)
        requires
            -0x8000_0000 <= row as int <= 0x8000_0000,
            -0x8000_0000 <= xw.ch as int <= 0x8000_0000,
    ;
    xw.w = coord_of(2 * (BORDERPX as i128) + (col as i128) * (xw.cw as i128));
    xw.h = coord_of(2 * (BORDERPX as i128) + (row as i128) * (xw.ch as i128));
    if xw.gm & XNEGATIVE != 0 {
        xw.l = coord_of(xw.l as i128 + dw as i128 - xw.w as i128 - 2);
    }
    if xw.gm & YNEGATIVE != 0 {
        xw.t = coord_of(xw.t as i128 + dh as i128 - xw.h as i128 - 2);
    }
}

/// The number of cells of `size` pixels that fit into `px` pixels beside
/// the border on both sides; a size below 1 counts as 1.
pub open spec fn cells_in(px: int, size: int) -> int {
    let n = px - 2 * BORDERPX;
    if n <= 0 {
        0
    } else {
        n / (if size < 1 { 1 } else { size })
    }
}

/// The pixels that `n` cells of `size` pixels take, at least 1 and at most
/// what a coordinate can hold.
pub open spec fn cells_px(n: int, size: int) -> i32 {
    if coord(n * size) < 1 {
        1
    } else {
        coord(n * size)
    }
}

/// The window after it was given `width` by `height` pixels, 0 standing for
/// no change, when the terminal then has `col` by `row` cells.
pub open spec fn window_resized(xw: XWindow, width: int, height: int, col: int, row: int) -> XWindow {
    XWindow {
        w: if width != 0 { width as i32 } else { xw.w },
        h: if height != 0 { height as i32 } else { xw.h },
        tw: cells_px(col, xw.cw as int),
        th: cells_px(row, xw.ch as int),
        ..xw
    }
}

impl TermView {
    /// The terminal after its window was given `width` by `height` pixels,
    /// 0 standing for no change: it is resized to the cells that fit, and
    /// stays as it is where none fit.
    pub open spec fn window_fitted(self, xw: XWindow, width: int, height: int) -> TermView {
        let w = if width != 0 { width } else { xw.w as int };
        let h = if height != 0 { height } else { xw.h as int };
        self.resized(cells_in(w, xw.cw as int), cells_in(h, xw.ch as int))
    }
}

fn cells_fit(px: i32, size: i32) -> (r: i32)
    ensures
        r == cells_in(px as int, size as int),
        r >= 0,
{
    let n: i64 = px as i64 - 2 * (BORDERPX as i64);
    if n <= 0 {
        0
    } else {
        let d: i64 = if size < 1 { 1 } else { size as i64 };
        (n / d) as i32
    }
}

fn cells_pixels(n: i32, size: i32) -> (r: i32)
    ensures
        r == cells_px(n as int, size as int),
{
    assert(-0x4000_0000_0000_0000 <= (n as int) * (size as int) <= 0x4000_0000_0000_0000)
        by (nonlinear_arith)
        requires
            -0x8000_0000 <= n as int <= 0x8000_0000,
            -0x8000_0000 <= size as int <= 0x8000_0000,
    ;
    let v = coord_of((n as i128) * (size as i128));
    if v < 1 {
        1
    } else {
        v
    }
}

/// Gives the window `width` by `height` pixels, 0 standing for no change,
/// and resizes the terminal to the cells that fit.
pub fn cresize(term: &mut Term, xw: &mut XWindow, width: i32, height: i32)
    requires
        old(term).wf(),
    ensures
        final(term).wf(),
        final(term)@ == old(term)@.window_fitted(*old(xw), width as int, height as int),
        *final(xw) == window_resized(
            *old(xw),
            width as int,
            height as int,
            final(term)@.col,
            final(term)@.row,
        ),
{
    if width != 0 {
        xw.w = width;
    }
    if height != 0 {
        xw.h = height;
    }
    let col = cells_fit(xw.w, xw.cw);
    let row = cells_fit(xw.h, xw.ch);
    tresize(term, col, row);
    xw.tw = cells_pixels(term.cols(), xw.cw);
    xw.th = cells_pixels(term.rows(), xw.ch);
}

/// The cell under pixel `px` of a row or column of cells of `size` pixels
/// that take `extent` pixels behind the border: pixels before the cells
/// count as the first cell, pixels behind them as the last; a size below 1
/// counts as 1.
pub open spec fn cell_at(px: int, extent: int, size: int) -> int {
    limit(px - BORDERPX, 0, if extent < 1 { 0 } else { extent - 1 }) / (if size < 1 {
        1
    } else {
        size
    })
}

fn cell_under(px: i32, extent: i32, size: i32) -> (r: i32)
    ensures
        r == cell_at(px as int, extent as int, size as int),
        r >= 0,
{
    let hi: i64 = if extent < 1 { 0 } else { extent as i64 - 1 };
    let v: i64 = px as i64 - BORDERPX as i64;
    let v: i64 = if v < 0 { 0 } else if v > hi { hi } else { v };
    let d: i64 = if size < 1 { 1 } else { size as i64 };
    (v / d) as i32
}

/// The column of the cell under pixel `x` of the window.
pub fn x2col(xw: &XWindow, x: i32) -> (r: i32)
    ensures
        r == cell_at(x as int, xw.tw as int, xw.cw as int),
{
    cell_under(x, xw.tw, xw.cw)
}

/// The row of the cell under pixel `y` of the window.
pub fn y2row(xw: &XWindow, y: i32) -> (r: i32)
    ensures
        r == cell_at(y as int, xw.th as int, xw.ch as int),
{
    cell_under(y, xw.th, xw.ch)
}

} // verus!
