//! The commands that a parsed control sequence stands for.

use vstd::prelude::*;
use crate::config::vtiden;
use crate::csi::{
    cursor_report, cursor_report_bytes, tsetattr, ttywrite, vtiden_bytes, CSIEscape, CsiView,
};
use crate::edit::{tcleartabs, tdeletechar, tinsertblank, tputtab, tsettab};
use crate::glyph::{limit, MODE_PRINT};
use crate::modes::{tcursor, tmodbit, trequest, tsetmode};
use crate::resize::tsetscroll;
use crate::screen::{selclear, tclearregion, tmoveato, tmoveto};
use crate::scroll::{tdeleteline, tinsertblankline, tscrolldown, tscrollup};
use crate::term::{RequestKind, Term, TermView};

verus! {

impl TermView {
    /// Part of the screen erased: with 0 from the cursor to the end, with 1
    /// from the start to the cursor, with 2 all of it; any selection is
    /// given up. Another number changes nothing.
    pub open spec fn display_erased(self, a: int) -> TermView {
        let x = self.c.x as int;
        let y = self.c.y as int;
        let s = self.sel_cleared();
        if a == 0 {
            let s1 = s.region_cleared(x, y, self.col - 1, y);
            if y < self.row - 1 {
                s1.region_cleared(0, y + 1, self.col - 1, self.row - 1)
            } else {
                s1
            }
        } else if a == 1 {
            let s1 = if y > 0 { s.region_cleared(0, 0, self.col - 1, y - 1) } else { s };
            s1.region_cleared(0, y, x, y)
        } else if a == 2 {
            s.region_cleared(0, 0, self.col - 1, self.row - 1)
        } else {
            self
        }
    }

    /// Part of the cursor's row erased: with 0 from the cursor to the end,
    /// with 1 from the start to the cursor, with 2 all of it.
    pub open spec fn line_erased(self, a: int) -> TermView {
        let x = self.c.x as int;
        let y = self.c.y as int;
        if a == 0 {
            self.region_cleared(x, y, self.col - 1, y)
        } else if a == 1 {
            self.region_cleared(0, y, x, y)
        } else if a == 2 {
            self.region_cleared(0, y, self.col - 1, y)
        } else {
            self
        }
    }

    /// The terminal after a command that only moves the cursor: up, down,
    /// forward, backward, to a column, a row or a position, or by tab stops.
    #[verifier::opaque]
    pub open spec fn csi_moved(self, p: CsiView) -> TermView {
        let d0 = p.arg_or(0, 1);
        let x = self.c.x as int;
        let y = self.c.y as int;
        let m = p.mode0;
        if m == 0x41 {
            self.moved_to(x, y - d0)
        } else if m == 0x42 || m == 0x65 {
            self.moved_to(x, y + d0)
        } else if m == 0x43 || m == 0x61 {
            self.moved_to(x + d0, y)
        } else if m == 0x44 {
            self.moved_to(x - d0, y)
        } else if m == 0x45 {
            self.moved_to(0, y + d0)
        } else if m == 0x46 {
            self.moved_to(0, y - d0)
        } else if m == 0x47 || m == 0x60 {
            self.moved_to(d0 - 1, y)
        } else if m == 0x48 || m == 0x66 {
            self.moved_abs(p.arg_or(1, 1) - 1, d0 - 1)
        } else if m == 0x49 {
            self.tabbed(d0)
        } else if m == 0x5a {
            self.tabbed(-d0)
        } else {
            self.moved_abs(x, d0 - 1)
        }
    }

    /// The terminal after a command that erases, inserts, deletes or scrolls.
    #[verifier::opaque]
    pub open spec fn csi_edited(self, p: CsiView) -> TermView {
        let a0 = p.arg_at(0);
        let d0 = p.arg_or(0, 1);
        let x = self.c.x as int;
        let y = self.c.y as int;
        let m = p.mode0;
        if m == 0x40 {
            self.blanks_inserted(d0)
        } else if m == 0x4a {
            self.display_erased(a0)
        } else if m == 0x4b {
            self.line_erased(a0)
        } else if m == 0x53 {
            self.scrolled_up(self.top, d0, true)
        } else if m == 0x54 {
            self.scrolled_down(self.top, d0)
        } else if m == 0x4c {
            self.lines_inserted(d0)
        } else if m == 0x4d {
            self.lines_deleted(d0)
        } else if m == 0x58 {
            self.region_cleared(x, y, x + d0 - 1, y)
        } else {
            self.chars_deleted(d0)
        }
    }

    /// The terminal after a command that changes modes, the pen, tab
    /// stops, the scroll region or the saved cursor, or asks for a report.
    #[verifier::opaque]
    pub open spec fn csi_set(self, p: CsiView) -> TermView {
        let a0 = p.arg_at(0);
        let d0 = p.arg_or(0, 1);
        let m = p.mode0;
        if m == 0x69 {
            if a0 == 4 {
                self.mode_bit(false, MODE_PRINT)
            } else if a0 == 5 {
                self.mode_bit(true, MODE_PRINT)
            } else {
                self
            }
        } else if m == 0x63 {
            if a0 == 0 {
                self.replied(vtiden())
            } else {
                self
            }
        } else if m == 0x67 {
            if a0 == 0 {
                self.tab_marked(false)
            } else if a0 == 3 {
                self.tabs_cleared()
            } else {
                self
            }
        } else if m == 0x6c {
            self.modes_set(p.priv_, false, p.arg, 0)
        } else if m == 0x68 {
            self.modes_set(p.priv_, true, p.arg, 0)
        } else if m == 0x6d {
            self.attrs_set(p.arg)
        } else if m == 0x6e {
            if a0 == 6 {
                self.replied(cursor_report(self.c.x as int, self.c.y as int))
            } else {
                self
            }
        } else if m == 0x72 {
            if p.priv_ {
                self
            } else {
                self.region_set(d0 - 1, p.arg_or(1, self.row) - 1).moved_abs(0, 0)
            }
        } else if m == 0x73 {
            self.cursor_saved()
        } else if m == 0x75 {
            self.cursor_loaded()
        } else if m == 0x20 {
            if p.mode1 == 0x71 && 0 <= d0 <= 6 {
                self.requested(RequestKind::CursorStyle, d0 as i32, Seq::empty())
            } else {
                self
            }
        } else {
            self
        }
    }

    /// The terminal after the command of a parsed control sequence. The
    /// rune after the parameters names the command; one that names none
    /// changes nothing.
    pub open spec fn csi_applied(self, p: CsiView) -> TermView {
        if names_move(p.mode0) {
            self.csi_moved(p)
        } else if names_edit(p.mode0) {
            self.csi_edited(p)
        } else {
            self.csi_set(p)
        }
    }
}

/// `v` limited to what a coordinate can hold.
pub(crate) fn sat(v: i64) -> (r: i32)
    ensures
        r == limit(v as int, i32::MIN as int, i32::MAX as int),
{
    if v < i32::MIN as i64 {
        i32::MIN
    } else if v > i32::MAX as i64 {
        i32::MAX
    } else {
        v as i32
    }
}

/// Erases part of the screen and gives any selection up.
#[verifier::rlimit(50)]
pub(crate) fn terasedisplay(term: &mut Term, a: i32)
    requires
        old(term).wf(),
    ensures
        final(term).wf(),
        final(term)@ == old(term)@.display_erased(a as int),
{
    let x = term.c.x;
    let y = term.c.y;
    let right = term.col - 1;
    let bottom = term.row - 1;
    if a == 0 {
        selclear(term);
        tclearregion(term, x, y, right, y);
        if y < bottom {
            tclearregion(term, 0, y + 1, right, bottom);
        }
    } else if a == 1 {
        selclear(term);
        if y > 0 {
            tclearregion(term, 0, 0, right, y - 1);
        }
        tclearregion(term, 0, y, x, y);
    } else if a == 2 {
        selclear(term);
        tclearregion(term, 0, 0, right, bottom);
    }
}

/// Erases part of the cursor's row.
pub(crate) fn teraseline(term: &mut Term, a: i32)
    requires
        old(term).wf(),
    ensures
        final(term).wf(),
        final(term)@ == old(term)@.line_erased(a as int),
{
    let x = term.c.x;
    let y = term.c.y;
    let right = term.col - 1;
    if a == 0 {
        tclearregion(term, x, y, right, y);
    } else if a == 1 {
        tclearregion(term, 0, y, x, y);
    } else if a == 2 {
        tclearregion(term, 0, y, right, y);
    }
}

/// Whether the rune names a command that only moves the cursor.
pub open spec fn names_move(m: u32) -> bool {
    m == 0x41 || m == 0x42 || m == 0x65 || m == 0x43 || m == 0x61 || m == 0x44 || m == 0x45 || m
        == 0x46 || m == 0x47 || m == 0x60 || m == 0x48 || m == 0x66 || m == 0x64 || m == 0x49 || m
        == 0x5a
}

/// Whether the rune names a command that erases, inserts, deletes or scrolls.
pub open spec fn names_edit(m: u32) -> bool {
    m == 0x40 || m == 0x4a || m == 0x4b || m == 0x53 || m == 0x54 || m == 0x4c || m == 0x4d || m
        == 0x58 || m == 0x50
}

/// Carries out a command that only moves the cursor.
#[verifier::rlimit(50)]
fn csi_move(term: &mut Term, csi: &CSIEscape)
    requires
        old(term).wf(),
        names_move(csi.mode0),
    ensures
        final(term).wf(),
        final(term)@ == old(term)@.csi_moved(csi@),
{
    reveal(TermView::csi_moved);
    proof {
        use_type_invariant(csi);
    }
    let d0 = csi.arg_or(0, 1);
    let x = term.c.x;
    let y = term.c.y;
    let m = csi.mode0;
    if m == 0x41 {
        tmoveto(term, x, sat(y as i64 - d0 as i64));
    } else if m == 0x42 || m == 0x65 {
        tmoveto(term, x, sat(y as i64 + d0 as i64));
    } else if m == 0x43 || m == 0x61 {
        tmoveto(term, sat(x as i64 + d0 as i64), y);
    } else if m == 0x44 {
        tmoveto(term, sat(x as i64 - d0 as i64), y);
    } else if m == 0x45 {
        tmoveto(term, 0, sat(y as i64 + d0 as i64));
    } else if m == 0x46 {
        tmoveto(term, 0, sat(y as i64 - d0 as i64));
    } else if m == 0x47 || m == 0x60 {
        tmoveto(term, sat(d0 as i64 - 1), y);
    } else if m == 0x48 || m == 0x66 {
        let d1 = csi.arg_or(1, 1);
        tmoveato(term, sat(d1 as i64 - 1), sat(d0 as i64 - 1));
    } else if m == 0x49 {
        tputtab(term, d0);
    } else if m == 0x5a {
        tputtab(term, -d0);
    } else {
        tmoveato(term, x, sat(d0 as i64 - 1));
    }
}

/// Carries out a command that erases, inserts, deletes or scrolls.
#[verifier::rlimit(50)]
fn csi_edit(term: &mut Term, csi: &CSIEscape)
    requires
        old(term).wf(),
        names_edit(csi.mode0),
    ensures
        final(term).wf(),
        final(term)@ == old(term)@.csi_edited(csi@),
{
    reveal(TermView::csi_edited);
    proof {
        use_type_invariant(csi);
    }
    let a0 = csi.arg_at(0);
    let d0 = csi.arg_or(0, 1);
    let x = term.c.x;
    let y = term.c.y;
    let m = csi.mode0;
    if m == 0x40 {
        tinsertblank(term, d0);
    } else if m == 0x4a {
        terasedisplay(term, a0);
    } else if m == 0x4b {
        teraseline(term, a0);
    } else if m == 0x53 {
        let top = term.top;
        tscrollup(term, top, d0, true);
    } else if m == 0x54 {
        let top = term.top;
        tscrolldown(term, top, d0);
    } else if m == 0x4c {
        tinsertblankline(term, d0);
    } else if m == 0x4d {
        tdeleteline(term, d0);
    } else if m == 0x58 {
        proof {
            reveal(TermView::region_cleared);
        }
        tclearregion(term, x, y, sat(x as i64 + d0 as i64 - 1), y);
    } else {
        tdeletechar(term, d0);
    }
}

/// Carries out a command that changes modes, the pen, tab stops, the
/// scroll region or the saved cursor, or asks for a report.
#[verifier::rlimit(50)]
fn csi_other(term: &mut Term, csi: &CSIEscape)
    requires
        old(term).wf(),
    ensures
        final(term).wf(),
        final(term)@ == old(term)@.csi_set(csi@),
{
    reveal(TermView::csi_set);
    proof {
        use_type_invariant(csi);
    }
    let a0 = csi.arg_at(0);
    let d0 = csi.arg_or(0, 1);
    let x = term.c.x;
    let y = term.c.y;
    let m = csi.mode0;
    if m == 0x69 {
        if a0 == 4 {
            tmodbit(term, false, MODE_PRINT);
        } else if a0 == 5 {
            tmodbit(term, true, MODE_PRINT);
        }
    } else if m == 0x63 {
        if a0 == 0 {
            let id = vtiden_bytes();
            ttywrite(term, &id);
        }
    } else if m == 0x67 {
        if a0 == 0 {
            tsettab(term, false);
        } else if a0 == 3 {
            tcleartabs(term);
        }
    } else if m == 0x6c {
        tsetmode(term, csi.priv_, false, &csi.arg);
    } else if m == 0x68 {
        tsetmode(term, csi.priv_, true, &csi.arg);
    } else if m == 0x6d {
        tsetattr(term, &csi.arg);
    } else if m == 0x6e {
        if a0 == 6 {
            let r = cursor_report_bytes(x as u32, y as u32);
            ttywrite(term, &r);
        }
    } else if m == 0x72 {
        if !csi.priv_ {
            let d1 = csi.arg_or(1, term.row);
            tsetscroll(term, sat(d0 as i64 - 1), sat(d1 as i64 - 1));
            tmoveato(term, 0, 0);
        }
    } else if m == 0x73 {
        tcursor(term, true);
    } else if m == 0x75 {
        tcursor(term, false);
    } else if m == 0x20 {
        if csi.mode1 == 0x71 && 0 <= d0 && d0 <= 6 {
            trequest(term, RequestKind::CursorStyle, d0, Vec::new());
        }
    }
}

/// Carries out the command of a parsed control sequence: cursor movement,
/// erasing, inserting and deleting cells and lines, scrolling, tab stops,
/// modes, graphic rendition, status reports, the scroll region, the saved
/// cursor and the cursor style. A sequence that names no command changes
/// nothing.
#[verifier::rlimit(50)]
pub fn csihandle(term: &mut Term, csi: &CSIEscape)
    requires
        old(term).wf(),
    ensures
        final(term).wf(),
        final(term)@ == old(term)@.csi_applied(csi@),
{
    let m = csi.mode0;
    if m == 0x41 || m == 0x42 || m == 0x65 || m == 0x43 || m == 0x61 || m == 0x44 || m == 0x45
        || m == 0x46 || m == 0x47 || m == 0x60 || m == 0x48 || m == 0x66 || m == 0x64 || m == 0x49
        || m == 0x5a {
        csi_move(term, csi);
    } else if m == 0x40 || m == 0x4a || m == 0x4b || m == 0x53 || m == 0x54 || m == 0x4c || m
        == 0x4d || m == 0x58 || m == 0x50 {
        csi_edit(term, csi);
    } else {
        csi_other(term, csi);
    }
}

} // verus!
