//! The terminal session: both screens, the scrollback history, the cursor,
//! the modes and the selection, together with the mathematical model that
//! every operation of this library is specified against.

use vstd::prelude::*;
use crate::config::TABSPACES;
use crate::glyph::{Coords, Glyph, TCursor, CS_USA, MODE_ALTSCREEN, MODE_WRAP};

verus! {

/// Most runes that a control sequence may hold before it is dispatched.
pub const ESC_BUF_SIZ: usize = 512;

/// Most numeric parameters that a control sequence may carry.
pub const ESC_ARG_SIZ: usize = 16;

/// Most runes that a string sequence may hold.
pub const STR_BUF_SIZ: usize = 512;

/// Most arguments that a string sequence may carry.
pub const STR_ARG_SIZ: usize = 16;

// The modes, types and snap modes of the selection.
pub const SEL_IDLE: i32 = 0;
pub const SEL_EMPTY: i32 = 1;
pub const SEL_READY: i32 = 2;

pub const SEL_REGULAR: i32 = 1;
pub const SEL_RECTANGULAR: i32 = 2;

pub const SNAP_NONE: i32 = 0;
pub const SNAP_WORD: i32 = 1;
pub const SNAP_LINE: i32 = 2;

/// A reading of the monotonic clock.
#[derive(Clone, Copy, Debug, PartialEq, Eq, Structural)]
pub struct TimeSpec {
    pub tv_sec: i64,
    pub tv_nsec: i64,
}

/// The text selection, by coordinates.
#[derive(Clone, Copy, Debug, PartialEq, Eq, Structural)]
pub struct Selection {
    pub mode: i32,
    pub type_: i32,
    pub snap: i32,
    /// normalized coordinates of the beginning of the selection
    pub nb: Coords,
    /// normalized coordinates of the end of the selection
    pub ne: Coords,
    /// coordinates of the beginning of the selection as given
    pub ob: Coords,
    /// coordinates of the end of the selection as given
    pub oe: Coords,
    /// whether the selection was made on the alternate screen
    pub alt: bool,
    pub tclick1: TimeSpec,
    pub tclick2: TimeSpec,
}

/// Where the interpreter stands inside a control sequence.
#[derive(Clone, Copy, Debug, PartialEq, Eq, Structural)]
pub enum EscState {
    /// ordinary text
    Ground,
    /// after ESC
    Start,
    /// after ESC that ended a string sequence; ST completes it
    StartStrEnd,
    /// collecting the parameters of a control sequence
    Csi,
    /// collecting a string sequence
    Str,
    /// after a character-set designator
    AltCharset,
    /// after `ESC #`
    Test,
    /// after `ESC %`
    Utf8,
}

/// What the terminal asks of its host besides drawing.
#[derive(Clone, Copy, Debug, PartialEq, Eq, Structural)]
pub enum RequestKind {
    Bell,
    SetTitle,
    ResetTitle,
    SetColor,
    ResetColor,
    ReloadColors,
    CursorStyle,
}

/// One request to the host, in the order the input stream produced it.
#[derive(Debug)]
pub struct HostRequest {
    pub kind: RequestKind,
    /// colour index or cursor style; -1 where there is none
    pub arg: i32,
    /// title or colour name; empty where there is none
    pub text: Vec<u32>,
}

/// A request to the host as contracts see it.
pub struct HostRequestView {
    pub kind: RequestKind,
    pub arg: i32,
    pub text: Seq<u32>,
}

impl View for HostRequest {
    type V = HostRequestView;

    open spec fn view(&self) -> HostRequestView {
        HostRequestView { kind: self.kind, arg: self.arg, text: self.text@ }
    }
}

/// The terminal as contracts see it.
#[verifier::ext_equal]
pub struct TermView {
    pub row: int,
    pub col: int,
    /// the active screen, top row first
    pub line: Seq<Seq<Glyph>>,
    /// the other screen
    pub alt: Seq<Seq<Glyph>>,
    /// rows scrolled off the primary screen, oldest first
    pub hist: Seq<Seq<Glyph>>,
    /// most rows that `hist` may hold
    pub histsize: int,
    /// how many history rows the view is scrolled back by
    pub scr: int,
    pub dirty: Seq<bool>,
    pub c: TCursor,
    /// the cursor saved on the primary screen
    pub saved: TCursor,
    /// the cursor saved on the alternate screen
    pub saved_alt: TCursor,
    pub top: int,
    pub bot: int,
    pub mode: u32,
    pub esc: EscState,
    pub trantbl: Seq<u8>,
    pub charset: int,
    pub icharset: int,
    pub tabs: Seq<bool>,
    pub sel: Selection,
    pub csibuf: Seq<u32>,
    pub strtype: u32,
    pub strbuf: Seq<u32>,
    /// bytes owed to the child process
    pub reply: Seq<u8>,
    pub requests: Seq<HostRequestView>,
    pub allowaltscreen: bool,
    /// where the cursor was last drawn
    pub oldx: int,
    pub oldy: int,
}

/// A row of `col` blank cells in the colours of `pen`.
pub open spec fn blank_line(col: int, pen: Glyph) -> Seq<Glyph> {
    Seq::new(col as nat, |x: int| Glyph::blank(pen))
}

/// A screen of `row` blank rows.
pub open spec fn blank_grid(col: int, row: int, pen: Glyph) -> Seq<Seq<Glyph>> {
    Seq::new(row as nat, |y: int| blank_line(col, pen))
}

/// The tab stops after a reset: one at every multiple of the tab width but 0.
pub open spec fn default_tabs(col: int) -> Seq<bool> {
    Seq::new(col as nat, |x: int| x > 0 && x % (TABSPACES as int) == 0)
}

/// Every row of `g` has `col` cells and there are `row` of them.
pub open spec fn grid_wf(g: Seq<Seq<Glyph>>, col: int, row: int) -> bool {
    &&& g.len() == row
    &&& forall|y: int| 0 <= y < g.len() ==> (#[trigger] g[y]).len() == col
}

/// The rows of a screen as sequences of cells.
pub open spec fn rows_view(v: Vec<Vec<Glyph>>) -> Seq<Seq<Glyph>> {
    Seq::new(v.len() as nat, |i: int| v[i]@)
}

/// The pending requests as contracts see them.
pub open spec fn requests_view(v: Vec<HostRequest>) -> Seq<HostRequestView> {
    Seq::new(v.len() as nat, |i: int| v[i]@)
}

/// Slot of the ring that holds the `k`-th oldest of `histn` rows when the
/// newest sits at `histi`.
pub open spec fn ring_pos(histi: int, histn: int, cap: int, k: int) -> int {
    let p = histi + 1 - histn + k;
    if p < 0 {
        p + cap
    } else {
        p
    }
}

/// The rows that the ring holds, oldest first.
pub open spec fn ring_view(hist: Vec<Vec<Glyph>>, histi: int, histn: int) -> Seq<Seq<Glyph>> {
    Seq::new(histn as nat, |k: int| hist[ring_pos(histi, histn, hist.len() as int, k)]@)
}

impl Selection {
    /// No selection at all.
    pub open spec fn idle(self) -> bool {
        self.mode == SEL_IDLE
    }

    pub open spec fn inside(p: Coords, col: int, row: int) -> bool {
        0 <= p.x < col && 0 <= p.y < row
    }

    /// The fields hold known values, and the given corners lie on a grid
    /// of `col` by `row` cells unless the selection is idle.
    pub open spec fn origin_wf(self, col: int, row: int) -> bool {
        &&& self.mode == SEL_IDLE || self.mode == SEL_EMPTY || self.mode == SEL_READY
        &&& self.type_ == SEL_REGULAR || self.type_ == SEL_RECTANGULAR
        &&& self.snap == SNAP_NONE || self.snap == SNAP_WORD || self.snap == SNAP_LINE
        &&& (self.mode == SEL_IDLE <==> self.ob.x == -1)
        &&& self.mode != SEL_IDLE ==> Self::inside(self.ob, col, row) && Self::inside(
            self.oe,
            col,
            row,
        )
    }

    /// The normalized corners lie on the grid, the beginning not below the
    /// end, unless the selection is idle.
    pub open spec fn normal_wf(self, col: int, row: int) -> bool {
        self.mode != SEL_IDLE ==> {
            &&& Self::inside(self.nb, col, row)
            &&& Self::inside(self.ne, col, row)
            &&& self.nb.y <= self.ne.y
        }
    }

    pub open spec fn wf(self, col: int, row: int) -> bool {
        self.origin_wf(col, row) && self.normal_wf(col, row)
    }

    /// The selection after it was given up: idle, with the sentinel column.
    pub open spec fn cleared(self) -> Selection {
        Selection { mode: SEL_IDLE, ob: Coords { x: -1i32, y: self.ob.y }, ..self }
    }

    /// The selection before the first click.
    pub open spec fn initial(now: TimeSpec) -> Selection {
        Selection {
            mode: SEL_IDLE,
            type_: SEL_REGULAR,
            snap: SNAP_NONE,
            nb: Coords { x: 0, y: 0 },
            ne: Coords { x: 0, y: 0 },
            ob: Coords { x: -1i32, y: 0 },
            oe: Coords { x: 0, y: 0 },
            alt: false,
            tclick1: now,
            tclick2: now,
        }
    }
}

impl TermView {
    /// The invariant of the model.
    pub open spec fn wf(self) -> bool {
        self.wf_core() && self.sel.normal_wf(self.col, self.row)
    }

    /// The invariant but for the normalized corners of the selection.
    pub open spec fn wf_core(self) -> bool {
        &&& 1 <= self.row <= i32::MAX
        &&& 1 <= self.col <= i32::MAX
        &&& grid_wf(self.line, self.col, self.row)
        &&& grid_wf(self.alt, self.col, self.row)
        &&& self.hist.len() <= self.histsize
        &&& forall|k: int| 0 <= k < self.hist.len() ==> (#[trigger] self.hist[k]).len() == self.col
        &&& 0 <= self.scr <= self.hist.len()
        &&& self.dirty.len() == self.row
        &&& self.tabs.len() == self.col
        &&& 0 <= self.c.x < self.col
        &&& 0 <= self.c.y < self.row
        &&& 0 <= self.top <= self.bot < self.row
        &&& self.c.origin() ==> self.top <= self.c.y <= self.bot
        &&& self.trantbl.len() == 4
        &&& 0 <= self.charset < 4
        &&& 0 <= self.icharset < 4
        &&& self.csibuf.len() + 1 < ESC_BUF_SIZ
        &&& self.strbuf.len() <= STR_BUF_SIZ
        &&& self.sel.origin_wf(self.col, self.row)
    }

    /// Whether the alternate screen is the active one.
    pub open spec fn altscreen(self) -> bool {
        self.mode & MODE_ALTSCREEN != 0
    }

    /// The cell at column `x` of row `y` of the active screen.
    pub open spec fn glyph(self, x: int, y: int) -> Glyph {
        self.line[y][x]
    }

    /// A terminal of `col` by `row` blank cells right after its creation.
    pub open spec fn initial(col: int, row: int, histsize: int, now: TimeSpec) -> TermView {
        TermView {
            row,
            col,
            line: blank_grid(col, row, TCursor::initial().attr),
            alt: blank_grid(col, row, TCursor::initial().attr),
            hist: Seq::empty(),
            histsize,
            scr: 0,
            dirty: Seq::new(row as nat, |y: int| true),
            c: TCursor::initial(),
            saved: TCursor::initial(),
            saved_alt: TCursor::initial(),
            top: 0,
            bot: row - 1,
            mode: MODE_WRAP,
            esc: EscState::Ground,
            trantbl: Seq::new(4, |i: int| CS_USA),
            charset: 0,
            icharset: 0,
            tabs: default_tabs(col),
            sel: Selection::initial(now),
            csibuf: Seq::empty(),
            strtype: 0,
            strbuf: Seq::empty(),
            reply: Seq::empty(),
            requests: Seq::empty(),
            allowaltscreen: true,
            oldx: 0,
            oldy: 0,
        }
    }
}

/// The terminal session.
pub struct Term {
    pub(crate) row: i32,
    pub(crate) col: i32,
    pub(crate) line: Vec<Vec<Glyph>>,
    pub(crate) alt: Vec<Vec<Glyph>>,
    /// ring of rows; its length is the capacity of the history
    pub(crate) hist: Vec<Vec<Glyph>>,
    /// slot of the newest history row
    pub(crate) histi: usize,
    /// number of history rows in use
    pub(crate) histn: usize,
    pub(crate) scr: i32,
    pub(crate) dirty: Vec<bool>,
    pub(crate) c: TCursor,
    pub(crate) saved: TCursor,
    pub(crate) saved_alt: TCursor,
    pub(crate) top: i32,
    pub(crate) bot: i32,
    pub(crate) mode: u32,
    pub(crate) esc: EscState,
    pub(crate) trantbl: Vec<u8>,
    pub(crate) charset: usize,
    pub(crate) icharset: usize,
    pub(crate) tabs: Vec<bool>,
    pub(crate) sel: Selection,
    pub(crate) csibuf: Vec<u32>,
    pub(crate) strtype: u32,
    pub(crate) strbuf: Vec<u32>,
    pub(crate) reply: Vec<u8>,
    pub(crate) requests: Vec<HostRequest>,
    pub(crate) allowaltscreen: bool,
    pub(crate) oldx: i32,
    pub(crate) oldy: i32,
}

impl View for Term {
    type V = TermView;

    open(crate) spec fn view(&self) -> TermView {
        TermView {
            row: self.row as int,
            col: self.col as int,
            line: rows_view(self.line),
            alt: rows_view(self.alt),
            hist: ring_view(self.hist, self.histi as int, self.histn as int),
            histsize: self.hist.len() as int,
            scr: self.scr as int,
            dirty: self.dirty@,
            c: self.c,
            saved: self.saved,
            saved_alt: self.saved_alt,
            top: self.top as int,
            bot: self.bot as int,
            mode: self.mode,
            esc: self.esc,
            trantbl: self.trantbl@,
            charset: self.charset as int,
            icharset: self.icharset as int,
            tabs: self.tabs@,
            sel: self.sel,
            csibuf: self.csibuf@,
            strtype: self.strtype,
            strbuf: self.strbuf@,
            reply: self.reply@,
            requests: requests_view(self.requests),
            allowaltscreen: self.allowaltscreen,
            oldx: self.oldx as int,
            oldy: self.oldy as int,
        }
    }
}

impl Term {
    /// The model is well formed and the history ring is consistent.
    pub open(crate) spec fn wf(&self) -> bool {
        self.wf_core() && self@.sel.normal_wf(self@.col, self@.row)
    }

    /// Well formed but for the normalized corners of the selection.
    pub open(crate) spec fn wf_core(&self) -> bool {
        &&& self@.wf_core()
        &&& self.histn <= self.hist.len()
        &&& self.hist.len() <= i32::MAX
        &&& self.hist.len() > 0 ==> self.histi < self.hist.len()
        &&& forall|i: int| 0 <= i < self.hist.len() ==> (#[trigger] self.hist[i]).len() == self.col
    }
}

/// A fresh row of `col` copies of `g`.
pub(crate) fn new_line(col: i32, g: Glyph) -> (r: Vec<Glyph>)
    requires
        col >= 0,
    ensures
        r@ == Seq::new(col as nat, |x: int| g),
{
    let mut r: Vec<Glyph> = Vec::new();
    let mut x: i32 = 0;
    while x < col
        invariant
            0 <= x <= col,
            r@ == Seq::new(x as nat, |x: int| g),
        decreases col - x,
    {
        r.push(g);
        x += 1;
    }
    r
}

/// A fresh grid of `row` rows of `col` copies of `g`.
pub(crate) fn new_grid(col: i32, row: i32, g: Glyph) -> (r: Vec<Vec<Glyph>>)
    requires
        col >= 0,
        row >= 0,
    ensures
        rows_view(r) == Seq::new(row as nat, |y: int| Seq::new(col as nat, |x: int| g)),
        r.len() == row,
        forall|y: int| 0 <= y < r.len() ==> (#[trigger] r[y]).len() == col,
{
    let mut r: Vec<Vec<Glyph>> = Vec::new();
    let mut y: i32 = 0;
    while y < row
        invariant
            0 <= y <= row,
            col >= 0,
            r.len() == y,
            forall|i: int| 0 <= i < y ==> (#[trigger] r[i])@ == Seq::new(col as nat, |x: int| g),
        decreases row - y,
    {
        let l = new_line(col, g);
        r.push(l);
        y += 1;
    }
    r
}

/// The tab stops after a reset for a row of `col` cells.
pub(crate) fn new_tabs(col: i32) -> (r: Vec<bool>)
    requires
        col >= 0,
    ensures
        r@ == default_tabs(col as int),
{
    let mut r: Vec<bool> = Vec::new();
    let mut x: i32 = 0;
    while x < col
        invariant
            0 <= x <= col,
            r@ == default_tabs(x as int),
        decreases col - x,
    {
        r.push(x > 0 && x % TABSPACES == 0);
        x += 1;
    }
    r
}

/// A vector of `n` copies of `b`.
pub(crate) fn new_flags(n: i32, b: bool) -> (r: Vec<bool>)
    requires
        n >= 0,
    ensures
        r@ == Seq::new(n as nat, |y: int| b),
{
    let mut r: Vec<bool> = Vec::new();
    let mut y: i32 = 0;
    while y < n
        invariant
            0 <= y <= n,
            r@ == Seq::new(y as nat, |y: int| b),
        decreases n - y,
    {
        r.push(b);
        y += 1;
    }
    r
}

/// Creates a terminal of `col` columns and `row` rows, each raised to 1
/// where it is smaller, with room for `histsize` rows of history. Both
/// screens are blank in the default colours, every row is dirty, the cursor
/// is at home, wrap mode is on and nothing is selected; `now` seeds the
/// click times of the selection.
pub fn tnew(col: i32, row: i32, histsize: usize, now: TimeSpec) -> (t: Term)
    requires
        histsize <= i32::MAX,
    ensures
        t.wf(),
        t@ == TermView::initial(
            if col < 1 { 1 } else { col as int },
            if row < 1 { 1 } else { row as int },
            histsize as int,
            now,
        ),
{
    let col: i32 = if col < 1 { 1 } else { col };
    let row: i32 = if row < 1 { 1 } else { row };
    let c = TCursor::new();
    let blank = Glyph { u: crate::glyph::SPACE, mode: crate::glyph::ATTR_NULL, fg: c.attr.fg, bg: c.attr.bg };
    let mut hist: Vec<Vec<Glyph>> = Vec::new();
    let mut i: usize = 0;
    while i < histsize
        invariant
            0 <= i <= histsize,
            col >= 1,
            hist.len() == i,
            forall|k: int| 0 <= k < i ==> (#[trigger] hist[k]).len() == col,
        decreases histsize - i,
    {
        let l = new_line(col, blank);
        hist.push(l);
        i += 1;
    }
    let mut trantbl: Vec<u8> = Vec::new();
    trantbl.push(CS_USA);
    trantbl.push(CS_USA);
    trantbl.push(CS_USA);
    trantbl.push(CS_USA);
    let t = Term {
        row,
        col,
        line: new_grid(col, row, blank),
        alt: new_grid(col, row, blank),
        hist,
        histi: 0,
        histn: 0,
        scr: 0,
        dirty: new_flags(row, true),
        c,
        saved: c,
        saved_alt: c,
        top: 0,
        bot: row - 1,
        mode: MODE_WRAP,
        esc: EscState::Ground,
        trantbl,
        charset: 0,
        icharset: 0,
        tabs: new_tabs(col),
        sel: Selection {
            mode: SEL_IDLE,
            type_: SEL_REGULAR,
            snap: SNAP_NONE,
            nb: Coords { x: 0, y: 0 },
            ne: Coords { x: 0, y: 0 },
            ob: Coords { x: -1, y: 0 },
            oe: Coords { x: 0, y: 0 },
            alt: false,
            tclick1: now,
            tclick2: now,
        },
        csibuf: Vec::new(),
        strtype: 0,
        strbuf: Vec::new(),
        reply: Vec::new(),
        requests: Vec::new(),
        allowaltscreen: true,
        oldx: 0,
        oldy: 0,
    };
    proof {
        crate::bits::lemma_origin_bit(0);
        assert(t@.line =~~= blank_grid(col as int, row as int, TCursor::initial().attr));
        assert(t@.alt =~~= blank_grid(col as int, row as int, TCursor::initial().attr));
        assert(t@.hist =~= Seq::empty());
        assert(t@.trantbl =~= Seq::new(4, |i: int| CS_USA));
        assert(t@.requests =~= Seq::empty());
    }
    t
}

impl TermView {
    /// The terminal after the bytes owed to the child were handed out.
    pub open spec fn reply_taken(self) -> TermView {
        TermView { reply: Seq::empty(), ..self }
    }

    /// The terminal after the requests to the host were handed out.
    pub open spec fn requests_taken(self) -> TermView {
        TermView { requests: Seq::empty(), ..self }
    }
}

impl Term {
    /// The number of rows.
    pub fn rows(&self) -> (r: i32)
        ensures
            r == self@.row,
    {
        self.row
    }

    /// The number of columns.
    pub fn cols(&self) -> (r: i32)
        ensures
            r == self@.col,
    {
        self.col
    }

    /// The cursor.
    pub fn cursor(&self) -> (c: TCursor)
        ensures
            c == self@.c,
    {
        self.c
    }

    /// The cursor saved on the primary screen, or with `alt` on the
    /// alternate one.
    pub fn saved_cursor(&self, alt: bool) -> (c: TCursor)
        ensures
            c == if alt { self@.saved_alt } else { self@.saved },
    {
        if alt {
            self.saved_alt
        } else {
            self.saved
        }
    }

    /// The first row of the scroll region.
    pub fn top(&self) -> (r: i32)
        ensures
            r == self@.top,
    {
        self.top
    }

    /// The last row of the scroll region.
    pub fn bot(&self) -> (r: i32)
        ensures
            r == self@.bot,
    {
        self.bot
    }

    /// The mode bits.
    pub fn mode(&self) -> (r: u32)
        ensures
            r == self@.mode,
    {
        self.mode
    }

    /// Where the interpreter stands inside a control sequence.
    pub fn esc(&self) -> (r: EscState)
        ensures
            r == self@.esc,
    {
        self.esc
    }

    /// The selection.
    pub fn selection(&self) -> (r: Selection)
        ensures
            r == self@.sel,
    {
        self.sel
    }

    /// Whether row `y` is dirty; a row off the screen is not.
    pub fn is_dirty(&self, y: i32) -> (r: bool)
        requires
            self.wf(),
        ensures
            r == (0 <= y < self@.row && self@.dirty[y as int]),
    {
        0 <= y && y < self.row && self.dirty[y as usize]
    }

    /// Whether column `x` has a tab stop; a column off the screen has none.
    pub fn is_tab(&self, x: i32) -> (r: bool)
        requires
            self.wf(),
        ensures
            r == (0 <= x < self@.col && self@.tabs[x as int]),
    {
        0 <= x && x < self.col && self.tabs[x as usize]
    }

    /// The character set in slot `i`, or ASCII for a slot that is none of
    /// the four.
    pub fn charset_of(&self, i: usize) -> (r: u8)
        requires
            self.wf(),
        ensures
            r == if i < 4 { self@.trantbl[i as int] } else { CS_USA },
    {
        if i < 4 {
            self.trantbl[i]
        } else {
            CS_USA
        }
    }

    /// The slot of the active character set.
    pub fn charset(&self) -> (r: usize)
        ensures
            r == self@.charset,
    {
        self.charset
    }

    /// The number of rows in the history.
    pub fn hist_len(&self) -> (r: usize)
        ensures
            r == self@.hist.len(),
    {
        self.histn
    }

    /// The most rows that the history keeps.
    pub fn histsize(&self) -> (r: usize)
        ensures
            r == self@.histsize,
    {
        self.hist.len()
    }

    /// How many history rows the view is scrolled back by.
    pub fn scr(&self) -> (r: i32)
        ensures
            r == self@.scr,
    {
        self.scr
    }

    /// The cell at column `x` of history row `k`, the oldest row being row
    /// 0; nothing where the history has no such cell.
    pub fn hist_glyph(&self, x: i32, k: usize) -> (r: Option<Glyph>)
        requires
            self.wf(),
        ensures
            r == if k < self@.hist.len() && 0 <= x < self@.col {
                Some(self@.hist[k as int][x as int])
            } else {
                None
            },
    {
        if k < self.histn && 0 <= x && x < self.col {
            let cap = self.hist.len();
            let p: usize = if self.histi + 1 + k >= self.histn {
                self.histi + 1 + k - self.histn
            } else {
                self.histi + 1 + k + cap - self.histn
            };
            assert(p == ring_pos(self.histi as int, self.histn as int, cap as int, k as int));
            Some(self.hist[p][x as usize])
        } else {
            None
        }
    }

    /// The cell at column `x` of row `y` of the active screen, or of the
    /// other screen with `other`; nothing where the screen has no such cell.
    pub fn glyph_at(&self, x: i32, y: i32, other: bool) -> (r: Option<Glyph>)
        requires
            self.wf(),
        ensures
            r == if 0 <= x < self@.col && 0 <= y < self@.row {
                Some(if other { self@.alt[y as int][x as int] } else { self@.line[y as int][x as int] })
            } else {
                None
            },
    {
        if 0 <= x && x < self.col && 0 <= y && y < self.row {
            proof {
                assert(rows_view(self.line)[y as int].len() == self.col);
                assert(rows_view(self.alt)[y as int].len() == self.col);
            }
            if other {
                Some(self.alt[y as usize][x as usize])
            } else {
                Some(self.line[y as usize][x as usize])
            }
        } else {
            None
        }
    }

    /// Allows or forbids the switch to the alternate screen.
    pub fn set_allowaltscreen(&mut self, allow: bool)
        requires
            old(self).wf(),
        ensures
            final(self).wf(),
            final(self)@ == (TermView { allowaltscreen: allow, ..old(self)@ }),
    {
        self.allowaltscreen = allow;
    }

    /// Hands out the bytes owed to the child process.
    pub fn take_reply(&mut self) -> (r: Vec<u8>)
        requires
            old(self).wf(),
        ensures
            final(self).wf(),
            r@ == old(self)@.reply,
            final(self)@ == old(self)@.reply_taken(),
    {
        let mut r: Vec<u8> = Vec::new();
        std::mem::swap(&mut r, &mut self.reply);
        r
    }

    /// Hands out the requests to the host, oldest first.
    pub fn take_requests(&mut self) -> (r: Vec<HostRequest>)
        requires
            old(self).wf(),
        ensures
            final(self).wf(),
            requests_view(r) == old(self)@.requests,
            final(self)@ == old(self)@.requests_taken(),
    {
        let mut r: Vec<HostRequest> = Vec::new();
        std::mem::swap(&mut r, &mut self.requests);
        proof {
            assert(self@.requests =~= Seq::empty());
        }
        r
    }
}

} // verus!
