//! Writing into a row: storing a character, character-set mapping,
//! the width of a rune, inserting and deleting cells, and tab stops.

use vstd::prelude::*;
use crate::glyph::{limit, Glyph, ATTR_RENDITION, ATTR_WDUMMY, ATTR_WIDE, CS_GRAPHIC0, SPACE};
use crate::screen::{lemma_rows_len, limit_i32, tclearregion};
use crate::term::{Term, TermView};

verus! {

/// The rune that the DEC special graphics set shows for `u`, or `u`
/// itself where the set has none.
pub open spec fn graphic0(u: u32) -> u32 {
    if u == 0x41 {
        0x2191
    } else if u == 0x42 {
        0x2193
    } else if u == 0x43 {
        0x2192
    } else if u == 0x44 {
        0x2190
    } else if u == 0x45 {
        0x2588
    } else if u == 0x46 {
        0x259a
    } else if u == 0x47 {
        0x2603
    } else if u == 0x5f {
        0x20
    } else if u == 0x60 {
        0x25c6
    } else if u == 0x61 {
        0x2592
    } else if u == 0x62 {
        0x2409
    } else if u == 0x63 {
        0x240c
    } else if u == 0x64 {
        0x240d
    } else if u == 0x65 {
        0x240a
    } else if u == 0x66 {
        0x00b0
    } else if u == 0x67 {
        0x00b1
    } else if u == 0x68 {
        0x2424
    } else if u == 0x69 {
        0x240b
    } else if u == 0x6a {
        0x2518
    } else if u == 0x6b {
        0x2510
    } else if u == 0x6c {
        0x250c
    } else if u == 0x6d {
        0x2514
    } else if u == 0x6e {
        0x253c
    } else if u == 0x6f {
        0x23ba
    } else if u == 0x70 {
        0x23bb
    } else if u == 0x71 {
        0x2500
    } else if u == 0x72 {
        0x23bc
    } else if u == 0x73 {
        0x23bd
    } else if u == 0x74 {
        0x251c
    } else if u == 0x75 {
        0x2524
    } else if u == 0x76 {
        0x2534
    } else if u == 0x77 {
        0x252c
    } else if u == 0x78 {
        0x2502
    } else if u == 0x79 {
        0x2264
    } else if u == 0x7a {
        0x2265
    } else if u == 0x7b {
        0x03c0
    } else if u == 0x7c {
        0x2260
    } else if u == 0x7d {
        0x00a3
    } else if u == 0x7e {
        0x00b7
    } else {
        u
    }
}

/// Whether a rune takes two cells: the East Asian wide and full-width
/// blocks.
pub open spec fn is_wide(u: u32) -> bool {
    ||| 0x1100 <= u <= 0x115f
    ||| 0x2e80 <= u <= 0xa4cf && u != 0x303f
    ||| 0xac00 <= u <= 0xd7a3
    ||| 0xf900 <= u <= 0xfaff
    ||| 0xfe30 <= u <= 0xfe6f
    ||| 0xff00 <= u <= 0xff60
    ||| 0xffe0 <= u <= 0xffe6
    ||| 0x20000 <= u <= 0x3fffd
}

/// The number of cells a rune takes: 2 where it is wide, else 1.
pub open spec fn rune_width(u: u32) -> int {
    if is_wide(u) {
        2
    } else {
        1
    }
}

/// The first tab stop right of column `x`, or the number of columns
/// where there is none.
pub open spec fn next_stop(tabs: Seq<bool>, x: int) -> int
    decreases tabs.len() - x,
{
    if x + 1 >= tabs.len() {
        tabs.len() as int
    } else if x + 1 >= 0 && tabs[x + 1] {
        x + 1
    } else {
        next_stop(tabs, x + 1)
    }
}

/// The last tab stop left of column `x`, or 0 where there is none.
pub open spec fn prev_stop(tabs: Seq<bool>, x: int) -> int
    decreases x,
{
    if x - 1 <= 0 {
        0
    } else if x - 1 < tabs.len() && tabs[x - 1] {
        x - 1
    } else {
        prev_stop(tabs, x - 1)
    }
}

/// Column `x` moved forward by `n` tab stops.
pub open spec fn tab_forward(tabs: Seq<bool>, x: int, n: int) -> int
    decreases n,
{
    if x < tabs.len() && n > 0 {
        tab_forward(tabs, next_stop(tabs, x), n - 1)
    } else {
        x
    }
}

/// Column `x` moved backward by `n` tab stops.
pub open spec fn tab_backward(tabs: Seq<bool>, x: int, n: int) -> int
    decreases n,
{
    if x > 0 && n > 0 {
        tab_backward(tabs, prev_stop(tabs, x), n - 1)
    } else {
        x
    }
}

impl TermView {
    /// How the active character set shows rune `u`.
    pub open spec fn mapped(self, u: u32) -> u32 {
        if self.trantbl[self.charset] == CS_GRAPHIC0 && 0x41 <= u <= 0x7e {
            graphic0(u)
        } else {
            u
        }
    }

    /// Rune `u`, mapped by the active character set, stored at column
    /// `x` of row `y` with the colours and rendition attributes of `attr`.
    /// Overwriting one half of a wide character blanks the other half. The
    /// row becomes dirty.
    pub open spec fn char_set(self, u: u32, attr: Glyph, x: int, y: int) -> TermView {
        let l = self.line[y];
        let l1 = if l[x].has(ATTR_WIDE) {
            if x + 1 < self.col {
                l.update(x + 1, Glyph { u: SPACE, mode: l[x + 1].mode & !ATTR_WDUMMY, ..l[x + 1] })
            } else {
                l
            }
        } else if l[x].has(ATTR_WDUMMY) && x > 0 && l[x - 1].has(ATTR_WIDE) {
            l.update(x - 1, Glyph { u: SPACE, mode: l[x - 1].mode & !ATTR_WIDE, ..l[x - 1] })
        } else {
            l
        };
        let g = Glyph {
            u: self.mapped(u),
            mode: attr.mode & ATTR_RENDITION,
            fg: attr.fg,
            bg: attr.bg,
        };
        TermView {
            line: self.line.update(y, l1.update(x, g)),
            dirty: self.dirty.update(y, true),
            ..self
        }
    }

    /// The cells of the cursor's row from the cursor on moved right by `n`;
    /// what passes the end of the row is lost.
    pub open spec fn cells_shifted_right(self, n: int) -> TermView {
        let l = self.line[self.c.y as int];
        TermView {
            line: self.line.update(
                self.c.y as int,
                Seq::new(self.col as nat, |i: int| if i >= self.c.x + n { l[i - n] } else { l[i] }),
            ),
            ..self
        }
    }

    /// The cells of the cursor's row right of the cursor moved left by `n`
    /// onto the cursor.
    pub open spec fn cells_shifted_left(self, n: int) -> TermView {
        let l = self.line[self.c.y as int];
        TermView {
            line: self.line.update(
                self.c.y as int,
                Seq::new(
                    self.col as nat,
                    |i: int| if self.c.x <= i < self.col - n { l[i + n] } else { l[i] },
                ),
            ),
            ..self
        }
    }

    /// `n` blank cells inserted at the cursor, `n` limited to the rest of
    /// the row.
    pub open spec fn blanks_inserted(self, n: int) -> TermView {
        let n = limit(n, 0, self.col - self.c.x);
        if n <= 0 {
            self
        } else {
            self.cells_shifted_right(n).region_cleared(
                self.c.x as int,
                self.c.y as int,
                self.c.x + n - 1,
                self.c.y as int,
            )
        }
    }

    /// `n` cells deleted at the cursor, `n` limited to the rest of the row;
    /// the end of the row is filled with blanks.
    pub open spec fn chars_deleted(self, n: int) -> TermView {
        let n = limit(n, 0, self.col - self.c.x);
        if n <= 0 {
            self
        } else {
            self.cells_shifted_left(n).region_cleared(
                self.col - n,
                self.c.y as int,
                self.col - 1,
                self.c.y as int,
            )
        }
    }

    /// The cursor moved forward by `n` tab stops, backward where `n` is
    /// negative; it stays on its row.
    #[verifier::opaque]
    pub open spec fn tabbed(self, n: int) -> TermView {
        let x = if n > 0 {
            tab_forward(self.tabs, self.c.x as int, n)
        } else if n < 0 {
            tab_backward(self.tabs, self.c.x as int, -n)
        } else {
            self.c.x as int
        };
        TermView {
            c: crate::glyph::TCursor { x: limit(x, 0, self.col - 1) as i32, ..self.c },
            ..self
        }
    }

    /// A tab stop set or cleared at the cursor's column.
    pub open spec fn tab_marked(self, on: bool) -> TermView {
        TermView { tabs: self.tabs.update(self.c.x as int, on), ..self }
    }

    /// Every tab stop cleared.
    pub open spec fn tabs_cleared(self) -> TermView {
        TermView { tabs: Seq::new(self.col as nat, |x: int| false), ..self }
    }
}

/// The rune that the DEC special graphics set shows for `u`.
pub fn graphic0_of(u: u32) -> (r: u32)
    ensures
        r == graphic0(u),
{
    if u == 0x41 {
        0x2191
    } else if u == 0x42 {
        0x2193
    } else if u == 0x43 {
        0x2192
    } else if u == 0x44 {
        0x2190
    } else if u == 0x45 {
        0x2588
    } else if u == 0x46 {
        0x259a
    } else if u == 0x47 {
        0x2603
    } else if u == 0x5f {
        0x20
    } else if u == 0x60 {
        0x25c6
    } else if u == 0x61 {
        0x2592
    } else if u == 0x62 {
        0x2409
    } else if u == 0x63 {
        0x240c
    } else if u == 0x64 {
        0x240d
    } else if u == 0x65 {
        0x240a
    } else if u == 0x66 {
        0x00b0
    } else if u == 0x67 {
        0x00b1
    } else if u == 0x68 {
        0x2424
    } else if u == 0x69 {
        0x240b
    } else if u == 0x6a {
        0x2518
    } else if u == 0x6b {
        0x2510
    } else if u == 0x6c {
        0x250c
    } else if u == 0x6d {
        0x2514
    } else if u == 0x6e {
        0x253c
    } else if u == 0x6f {
        0x23ba
    } else if u == 0x70 {
        0x23bb
    } else if u == 0x71 {
        0x2500
    } else if u == 0x72 {
        0x23bc
    } else if u == 0x73 {
        0x23bd
    } else if u == 0x74 {
        0x251c
    } else if u == 0x75 {
        0x2524
    } else if u == 0x76 {
        0x2534
    } else if u == 0x77 {
        0x252c
    } else if u == 0x78 {
        0x2502
    } else if u == 0x79 {
        0x2264
    } else if u == 0x7a {
        0x2265
    } else if u == 0x7b {
        0x03c0
    } else if u == 0x7c {
        0x2260
    } else if u == 0x7d {
        0x00a3
    } else if u == 0x7e {
        0x00b7
    } else {
        u
    }
}

/// The number of cells that a rune takes.
pub fn wcwidth(u: u32) -> (w: i32)
    ensures
        w == rune_width(u),
{
    if (0x1100 <= u && u <= 0x115f) || (0x2e80 <= u && u <= 0xa4cf && u != 0x303f) || (0xac00
        <= u && u <= 0xd7a3) || (0xf900 <= u && u <= 0xfaff) || (0xfe30 <= u && u <= 0xfe6f) || (
    0xff00 <= u && u <= 0xff60) || (0xffe0 <= u && u <= 0xffe6) || (0x20000 <= u && u <= 0x3fffd) {
        2
    } else {
        1
    }
}

/// Stores rune `u` at the cell nearest to column `x` of row `y` with the
/// colours and rendition attributes of `attr`, after mapping by the
/// active character set.
#[verifier::rlimit(50)]
pub fn tsetchar(term: &mut Term, u: u32, attr: Glyph, x: i32, y: i32)
    requires
        old(term).wf(),
    ensures
        final(term).wf(),
        final(term)@ == old(term)@.char_set(
            u,
            attr,
            limit(x as int, 0, old(term)@.col - 1),
            limit(y as int, 0, old(term)@.row - 1),
        ),
{
    proof {
        lemma_rows_len(term.line, term.col as int, term.row as int);
    }
    let x = limit_i32(x, 0, term.col - 1);
    let y = limit_i32(y, 0, term.row - 1);
    let u1: u32 = if term.trantbl[term.charset] == CS_GRAPHIC0 && 0x41 <= u && u <= 0x7e {
        graphic0_of(u)
    } else {
        u
    };
    let yy = y as usize;
    let xx = x as usize;
    let here = term.line[yy][xx];
    if here.mode & ATTR_WIDE != 0 {
        if x + 1 < term.col {
            let next = term.line[yy][xx + 1];
            term.line[yy][xx + 1] = Glyph {
                u: SPACE,
                mode: next.mode & !ATTR_WDUMMY,
                fg: next.fg,
                bg: next.bg,
            };
        }
    } else if here.mode & ATTR_WDUMMY != 0 && x > 0 {
        let prev = term.line[yy][xx - 1];
        if prev.mode & ATTR_WIDE != 0 {
            term.line[yy][xx - 1] = Glyph {
                u: SPACE,
                mode: prev.mode & !ATTR_WIDE,
                fg: prev.fg,
                bg: prev.bg,
            };
        }
    }
    term.dirty[yy] = true;
    term.line[yy][xx] = Glyph { u: u1, mode: attr.mode & ATTR_RENDITION, fg: attr.fg, bg: attr.bg };
    proof {
        let want = old(term)@.char_set(u, attr, x as int, y as int);
        assert(term@.line[y as int] =~= want.line[y as int]);
        assert(term@.line =~= want.line);
        assert forall|i: int| 0 <= i < term.line.len() implies (#[trigger] term@.line[i]).len()
            == term.col by {
            if i != y {
                assert(term@.line[i] == old(term)@.line[i]);
            }
        }
    }
}

/// Moves the cells of a row from `x` on right by `n`.
pub(crate) fn line_shift_right(l: &mut Vec<Glyph>, x: i32, n: i32)
    requires
        0 <= x,
        1 <= n,
        x + n <= old(l).len() <= i32::MAX,
    ensures
        final(l)@ == Seq::new(
            old(l).len() as nat,
            |i: int| if i >= x + n { old(l)[i - n] } else { old(l)[i] },
        ),
{
    let mut i: i32 = l.len() as i32;
    while i > x + n
        invariant
            0 <= x,
            1 <= n,
            x + n <= i <= l.len() == old(l).len() <= i32::MAX,
            l@ == Seq::new(
                old(l).len() as nat,
                |j: int| if j >= i { old(l)[j - n] } else { old(l)[j] },
            ),
        decreases i,
    {
        i -= 1;
        l[i as usize] = l[(i - n) as usize];
    }
}

/// Moves the cells of a row right of `x` left by `n` onto `x`.
pub(crate) fn line_shift_left(l: &mut Vec<Glyph>, x: i32, n: i32)
    requires
        0 <= x,
        1 <= n,
        x + n <= old(l).len() <= i32::MAX,
    ensures
        final(l)@ == Seq::new(
            old(l).len() as nat,
            |i: int| if x <= i < old(l).len() - n { old(l)[i + n] } else { old(l)[i] },
        ),
{
    let mut i: i32 = x;
    let end: i32 = l.len() as i32 - n;
    while i < end
        invariant
            0 <= x <= i <= end,
            1 <= n,
            end == l.len() - n,
            l.len() == old(l).len() <= i32::MAX,
            l@ == Seq::new(
                old(l).len() as nat,
                |j: int| if x <= j < i { old(l)[j + n] } else { old(l)[j] },
            ),
        decreases end - i,
    {
        l[i as usize] = l[(i + n) as usize];
        i += 1;
    }
}

/// Moves the cells of the cursor's row from the cursor on right by `n`.
pub(crate) fn tshiftright(term: &mut Term, n: i32)
    requires
        old(term).wf(),
        1 <= n <= old(term)@.col - old(term)@.c.x,
    ensures
        final(term).wf(),
        final(term)@ == old(term)@.cells_shifted_right(n as int),
{
    proof {
        lemma_rows_len(term.line, term.col as int, term.row as int);
    }
    let y = term.c.y as usize;
    let x = term.c.x;
    line_shift_right(&mut term.line[y], x, n);
    proof {
        let want = old(term)@.cells_shifted_right(n as int);
        assert(term@.line[y as int] =~= want.line[y as int]);
        assert(term@.line =~= want.line);
        assert forall|i: int| 0 <= i < term.line.len() implies (#[trigger] term@.line[i]).len()
            == term.col by {
            if i != y {
                assert(term@.line[i] == old(term)@.line[i]);
            }
        }
    }
}

/// Moves the cells of the cursor's row right of the cursor left by `n`.
pub(crate) fn tshiftleft(term: &mut Term, n: i32)
    requires
        old(term).wf(),
        1 <= n <= old(term)@.col - old(term)@.c.x,
    ensures
        final(term).wf(),
        final(term)@ == old(term)@.cells_shifted_left(n as int),
{
    proof {
        lemma_rows_len(term.line, term.col as int, term.row as int);
    }
    let y = term.c.y as usize;
    let x = term.c.x;
    line_shift_left(&mut term.line[y], x, n);
    proof {
        let want = old(term)@.cells_shifted_left(n as int);
        assert(term@.line[y as int] =~= want.line[y as int]);
        assert(term@.line =~= want.line);
        assert forall|i: int| 0 <= i < term.line.len() implies (#[trigger] term@.line[i]).len()
            == term.col by {
            if i != y {
                assert(term@.line[i] == old(term)@.line[i]);
            }
        }
    }
}

/// Inserts `n` blank cells at the cursor, `n` limited to the rest of the row.
pub fn tinsertblank(term: &mut Term, n: i32)
    requires
        old(term).wf(),
    ensures
        final(term).wf(),
        final(term)@ == old(term)@.blanks_inserted(n as int),
{
    let n = limit_i32(n, 0, term.col - term.c.x);
    if n <= 0 {
        return ;
    }
    tshiftright(term, n);
    let x = term.c.x;
    let y = term.c.y;
    tclearregion(term, x, y, x + n - 1, y);
}

/// Deletes `n` cells at the cursor, `n` limited to the rest of the row,
/// and fills the end of the row with blanks.
pub fn tdeletechar(term: &mut Term, n: i32)
    requires
        old(term).wf(),
    ensures
        final(term).wf(),
        final(term)@ == old(term)@.chars_deleted(n as int),
{
    let n = limit_i32(n, 0, term.col - term.c.x);
    if n <= 0 {
        return ;
    }
    tshiftleft(term, n);
    let col = term.col;
    let y = term.c.y;
    tclearregion(term, col - n, y, col - 1, y);
}

/// Moves the cursor forward by `n` tab stops, backward where `n` is negative.
#[verifier::rlimit(50)]
pub fn tputtab(term: &mut Term, n: i32)
    requires
        old(term).wf(),
    ensures
        final(term).wf(),
        final(term)@ == old(term)@.tabbed(n as int),
{
    reveal(TermView::tabbed);
    let mut x: i32 = term.c.x;
    let ghost x0 = x as int;
    if n > 0 {
        let mut k: i32 = n;
        while x < term.col && k > 0
            invariant
                term.wf(),
                *term == *old(term),
                0 <= x <= term.col,
                0 <= k <= n,
                tab_forward(term.tabs@, x as int, k as int) == tab_forward(
                    term.tabs@,
                    x0,
                    n as int,
                ),
            decreases k,
        {
            let ghost xs = x as int;
            x += 1;
            while x < term.col && !term.tabs[x as usize]
                invariant
                    term.wf(),
                    *term == *old(term),
                    xs < x <= term.col,
                    0 <= xs,
                    next_stop(term.tabs@, x - 1) == next_stop(term.tabs@, xs),
                decreases term.col - x,
            {
                x += 1;
            }
            k -= 1;
        }
    } else if n < 0 {
        let mut k: i32 = n;
        while x > 0 && k < 0
            invariant
                term.wf(),
                *term == *old(term),
                0 <= x < term.col,
                n <= k <= 0,
                tab_backward(term.tabs@, x as int, -k as int) == tab_backward(
                    term.tabs@,
                    x0,
                    -n as int,
                ),
            decreases -k,
        {
            let ghost xs = x as int;
            x -= 1;
            while x > 0 && !term.tabs[x as usize]
                invariant
                    term.wf(),
                    *term == *old(term),
                    0 <= x < xs < term.col,
                    prev_stop(term.tabs@, x + 1) == prev_stop(term.tabs@, xs),
                decreases x,
            {
                x -= 1;
            }
            k += 1;
        }
    }
    term.c.x = limit_i32(x, 0, term.col - 1);
}

/// Sets or clears the tab stop at the cursor's column.
pub fn tsettab(term: &mut Term, on: bool)
    requires
        old(term).wf(),
    ensures
        final(term).wf(),
        final(term)@ == old(term)@.tab_marked(on),
{
    let x = term.c.x as usize;
    term.tabs[x] = on;
}

/// Clears every tab stop.
pub fn tcleartabs(term: &mut Term)
    requires
        old(term).wf(),
    ensures
        final(term).wf(),
        final(term)@ == old(term)@.tabs_cleared(),
{
    term.tabs = crate::term::new_flags(term.col, false);
}

} // verus!
