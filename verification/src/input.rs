//! The interpreter: one rune at a time it prints, obeys control
//! characters, and collects and carries out escape, control and string
//! sequences.

use vstd::prelude::*;
use crate::bits::lemma_wrapnext_keeps_origin;
use crate::config::vtiden;
use crate::csi::{csi_parsed, csiparse, number, ttywrite, vtiden_bytes, CSI_ARG_MAX};
use crate::dispatch::csihandle;
use crate::edit::{rune_width, tputtab, tsetchar, tsettab, tshiftright, wcwidth};
use crate::glyph::{
    Glyph, TCursor, ATTR_WDUMMY, ATTR_WIDE, ATTR_WRAP, CS_GRAPHIC0, CS_USA, CURSOR_WRAPNEXT,
    MODE_APPKEYPAD, MODE_CRLF, MODE_INSERT, MODE_WRAP,
};
use crate::modes::{tcursor, tmodbit, trequest};
use crate::resize::treset;
use crate::screen::{lemma_rows_len, selclear, tmoveto};
use crate::scroll::{tnewline, tscrolldown, tscrollup};
use crate::term::{EscState, RequestKind, Term, TermView, ESC_BUF_SIZ, STR_BUF_SIZ};

verus! {

/// A control character of the C0 set, or DEL.
pub open spec fn is_control_c0(u: u32) -> bool {
    u <= 0x1f || u == 0x7f
}

/// A control character of the C1 set.
pub open spec fn is_control_c1(u: u32) -> bool {
    0x80 <= u <= 0x9f
}

pub open spec fn is_control(u: u32) -> bool {
    is_control_c0(u) || is_control_c1(u)
}

/// The position of the first `;` of `buf` at or after `p`, or the length
/// of `buf` where there is none.
pub open spec fn field_end(buf: Seq<u32>, p: int) -> int
    decreases buf.len() - p,
{
    if p < 0 || p >= buf.len() {
        buf.len() as int
    } else if buf[p] == 0x3b {
        p
    } else {
        field_end(buf, p + 1)
    }
}

/// The letter that names the kind of a string sequence begun by `u`, an
/// eight-bit control or the rune after ESC.
pub open spec fn str_kind(u: u32) -> u32 {
    if u == 0x90 {
        0x50
    } else if u == 0x9f {
        0x5f
    } else if u == 0x9e {
        0x5e
    } else if u == 0x9d {
        0x5d
    } else {
        u
    }
}

impl TermView {
    /// The cell under the cursor marked as continuing on the next row.
    pub open spec fn wrap_marked(self) -> TermView {
        let x = self.c.x as int;
        let y = self.c.y as int;
        let g = self.line[y][x];
        TermView {
            line: self.line.update(y, self.line[y].update(x, Glyph { mode: g.mode | ATTR_WRAP, ..g })),
            ..self
        }
    }

    /// The cell under the cursor marked as wide, and the cell after it, if
    /// the row has one, made its empty second half.
    pub open spec fn wide_marked(self) -> TermView {
        let x = self.c.x as int;
        let y = self.c.y as int;
        let g = self.line[y][x];
        let l = self.line[y].update(x, Glyph { mode: g.mode | ATTR_WIDE, ..g });
        TermView {
            line: self.line.update(
                y,
                if x + 1 < self.col {
                    l.update(x + 1, Glyph { u: 0, mode: ATTR_WDUMMY, ..l[x + 1] })
                } else {
                    l
                },
            ),
            ..self
        }
    }

    /// The cursor told to wrap before the next printable rune.
    pub open spec fn wrapnext_set(self) -> TermView {
        TermView { c: TCursor { state: self.c.state | CURSOR_WRAPNEXT, ..self.c }, ..self }
    }

    /// The terminal made ready for a printable rune of width `w`. A
    /// selection on the cursor's rows is given up. With a wrap pending in
    /// wrap mode, the cell under the cursor is marked as continued and the
    /// cursor goes to the start of the next row. In insert mode the rest of
    /// the row moves right by `w`. Where `w` cells do not fit in the rest of
    /// the row, the cursor goes to the start of the next row.
    #[verifier::opaque]
    pub open spec fn print_prepared(self, w: int) -> TermView {
        let s0 = if self.sel.ob.x != -1 && self.sel.ob.y <= self.c.y <= self.sel.oe.y {
            self.sel_cleared()
        } else {
            self
        };
        let s1 = if s0.mode & MODE_WRAP != 0 && s0.c.wrapnext() {
            s0.wrap_marked().newline(true)
        } else {
            s0
        };
        let s2 = if s1.mode & MODE_INSERT != 0 && s1.c.x + w < s1.col {
            s1.cells_shifted_right(w)
        } else {
            s1
        };
        if s2.c.x + w > s2.col {
            s2.newline(true)
        } else {
            s2
        }
    }

    /// A printable rune stored under the cursor with the pen. A wide rune
    /// takes two cells. The cursor then moves past the rune, or, at the end
    /// of the row, stays with a wrap pending.
    #[verifier::opaque]
    pub open spec fn print_placed(self, u: u32) -> TermView {
        let w = rune_width(u);
        let s4 = self.char_set(u, self.c.attr, self.c.x as int, self.c.y as int);
        let s5 = if w == 2 { s4.wide_marked() } else { s4 };
        if s5.c.x + w < s5.col {
            s5.moved_to(s5.c.x + w, s5.c.y as int)
        } else {
            s5.wrapnext_set()
        }
    }

    /// A printable rune written at the cursor: the terminal is made ready
    /// for its width, and the rune is stored.
    pub open spec fn printed(self, u: u32) -> TermView {
        self.print_prepared(rune_width(u)).print_placed(u)
    }

    /// A string sequence of the kind that `u` names begun.
    pub open spec fn str_started(self, u: u32) -> TermView {
        TermView { strbuf: Seq::empty(), strtype: str_kind(u), esc: EscState::Str, ..self }
    }

    /// The collected string sequence carried out; the interpreter returns
    /// to ordinary text. An operating system command `0`, `1` or `2` with a
    /// second field asks the host to set the title to that field; `4` with
    /// three fields to set the colour numbered by the second to the name in
    /// the third, where the name `?` asks for the colour's value; `104` to
    /// reset the colour numbered by the second field, or all with -1 where
    /// there is none. The old title sequence `k` sets the title to its first
    /// field. Every other string is dropped.
    #[verifier::opaque]
    pub open spec fn str_handled(self) -> TermView {
        let buf = self.strbuf;
        let s = TermView { esc: EscState::Ground, ..self };
        let e0 = field_end(buf, 0);
        let e1 = field_end(buf, e0 + 1);
        let e2 = field_end(buf, e1 + 1);
        if self.strtype == 0x5d {
            let par = number(buf, 0, 0);
            if par == 0 || par == 1 || par == 2 {
                if e0 < buf.len() {
                    s.requested(RequestKind::SetTitle, -1i32, buf.subrange(e0 + 1, e1))
                } else {
                    s
                }
            } else if par == 4 {
                if e0 < buf.len() && e1 < buf.len() {
                    s.requested(
                        RequestKind::SetColor,
                        number(buf, e0 + 1, 0) as i32,
                        buf.subrange(e1 + 1, e2),
                    )
                } else {
                    s
                }
            } else if par == 104 {
                s.requested(
                    RequestKind::ResetColor,
                    if e0 < buf.len() { number(buf, e0 + 1, 0) as i32 } else { -1i32 },
                    Seq::empty(),
                )
            } else {
                s
            }
        } else if self.strtype == 0x6b {
            s.requested(RequestKind::SetTitle, -1i32, buf.subrange(0, e0))
        } else {
            s
        }
    }

    /// The control sequence in progress given up.
    pub open spec fn csi_reset(self) -> TermView {
        TermView { csibuf: Seq::empty(), ..self }
    }

    /// The terminal after a control character. Tab, backspace, carriage
    /// return and the line feeds move the cursor; BEL completes a string
    /// sequence that ESC interrupted, else it rings; ESC begins a sequence;
    /// SO and SI pick the character set; CAN and SUB cancel a sequence, SUB
    /// also prints `?`; of the eight-bit controls NEL, HTS and DECID act
    /// as their escape sequences do, and DCS, OSC, PM and APC begin a
    /// string. Every other control character is ignored.
    #[verifier::opaque]
    pub open spec fn controlled(self, u: u32) -> TermView {
        let x = self.c.x as int;
        let y = self.c.y as int;
        if u == 0x09 {
            self.tabbed(1)
        } else if u == 0x08 {
            self.moved_to(x - 1, y)
        } else if u == 0x0d {
            self.moved_to(0, y)
        } else if u == 0x0a || u == 0x0b || u == 0x0c {
            self.newline(self.mode & MODE_CRLF != 0)
        } else if u == 0x07 {
            if self.esc == EscState::StartStrEnd {
                self.str_handled()
            } else {
                self.requested(RequestKind::Bell, -1i32, Seq::empty())
            }
        } else if u == 0x1b {
            TermView {
                esc: if self.esc == EscState::StartStrEnd {
                    EscState::StartStrEnd
                } else {
                    EscState::Start
                },
                ..self.csi_reset()
            }
        } else if u == 0x0e {
            TermView { charset: 1, ..self }
        } else if u == 0x0f {
            TermView { charset: 0, ..self }
        } else if u == 0x1a {
            TermView { esc: EscState::Ground, ..self.char_set(0x3f, self.c.attr, x, y).csi_reset() }
        } else if u == 0x18 {
            TermView { esc: EscState::Ground, ..self.csi_reset() }
        } else if u == 0x85 {
            self.newline(true)
        } else if u == 0x88 {
            self.tab_marked(true)
        } else if u == 0x9a {
            self.replied(vtiden())
        } else if u == 0x90 || u == 0x9d || u == 0x9e || u == 0x9f {
            self.str_started(u)
        } else {
            self
        }
    }

    /// The terminal after the rune that follows ESC. `[` begins a control
    /// sequence; `P`, `_`, `^`, `]` and `k` a string sequence; `(`, `)`,
    /// `*` and `+` the designation of a character set; `#` and `%` take
    /// one more rune. The other runes are commands of their own, after
    /// which the interpreter returns to ordinary text: `n` and `o` pick a
    /// character set, `D` moves down and `M` up, scrolling at the edge of
    /// the region, `E` begins the next line, `H` sets a tab stop, `Z` asks
    /// for the identification, `c` resets the terminal, `=` and `>` switch
    /// the keypad, `7` and `8` save and restore the cursor, and `\` ends a
    /// string. An unknown rune only ends the sequence.
    #[verifier::opaque]
    pub open spec fn esc_handled(self, u: u32) -> TermView {
        let g = TermView { esc: EscState::Ground, ..self };
        let x = self.c.x as int;
        let y = self.c.y as int;
        if u == 0x5b {
            TermView { esc: EscState::Csi, ..self }
        } else if u == 0x23 {
            TermView { esc: EscState::Test, ..self }
        } else if u == 0x25 {
            TermView { esc: EscState::Utf8, ..self }
        } else if u == 0x50 || u == 0x5f || u == 0x5e || u == 0x5d || u == 0x6b {
            self.str_started(u)
        } else if u == 0x6e {
            TermView { charset: 2, ..g }
        } else if u == 0x6f {
            TermView { charset: 3, ..g }
        } else if 0x28 <= u <= 0x2b {
            TermView { icharset: u - 0x28, esc: EscState::AltCharset, ..self }
        } else if u == 0x44 {
            if y == self.bot {
                g.scrolled_up(self.top, 1, true)
            } else {
                g.moved_to(x, y + 1)
            }
        } else if u == 0x45 {
            g.newline(true)
        } else if u == 0x48 {
            g.tab_marked(true)
        } else if u == 0x4d {
            if y == self.top {
                g.scrolled_down(self.top, 1)
            } else {
                g.moved_to(x, y - 1)
            }
        } else if u == 0x5a {
            g.replied(vtiden())
        } else if u == 0x63 {
            g.reset().requested(RequestKind::ResetTitle, -1i32, Seq::empty()).requested(
                RequestKind::ReloadColors,
                -1i32,
                Seq::empty(),
            )
        } else if u == 0x3d {
            g.mode_bit(true, MODE_APPKEYPAD)
        } else if u == 0x3e {
            g.mode_bit(false, MODE_APPKEYPAD)
        } else if u == 0x37 {
            g.cursor_saved()
        } else if u == 0x38 {
            g.cursor_loaded()
        } else if u == 0x5c {
            if self.esc == EscState::StartStrEnd {
                self.str_handled()
            } else {
                g
            }
        } else {
            g
        }
    }

    /// The character set being designated becomes the one that `u` names:
    /// `0` the DEC special graphics, `B` ASCII; another rune changes none.
    #[verifier::opaque]
    pub open spec fn charset_defined(self, u: u32) -> TermView {
        let g = TermView { esc: EscState::Ground, ..self };
        if u == 0x30 {
            TermView { trantbl: self.trantbl.update(self.icharset, CS_GRAPHIC0), ..g }
        } else if u == 0x42 {
            TermView { trantbl: self.trantbl.update(self.icharset, CS_USA), ..g }
        } else {
            g
        }
    }

    /// The terminal after a rune that arrives while a string sequence is
    /// collected. BEL and ST complete the string; ESC interrupts it, and
    /// `\` then completes it; CAN, SUB and the other eight-bit controls
    /// drop it and act as they do elsewhere. Every other rune is appended,
    /// unless the string already holds `STR_BUF_SIZ` runes.
    #[verifier::opaque]
    pub open spec fn str_put(self, u: u32) -> TermView {
        if u == 0x07 || u == 0x9c {
            self.str_handled()
        } else if u == 0x1b {
            TermView { esc: EscState::StartStrEnd, ..self.csi_reset() }
        } else if u == 0x18 || u == 0x1a || is_control_c1(u) {
            TermView { esc: EscState::Ground, ..self }.controlled(u)
        } else if self.strbuf.len() >= STR_BUF_SIZ {
            self
        } else {
            TermView { strbuf: self.strbuf.push(u), ..self }
        }
    }

    /// The terminal after a rune that arrives while a control sequence is
    /// collected. The rune is appended; a rune from `@` to `~` completes
    /// the sequence, which is parsed and carried out, and so does the
    /// sequence reaching its greatest length.
    #[verifier::opaque]
    pub open spec fn csi_put(self, u: u32) -> TermView {
        let buf = self.csibuf.push(u);
        if 0x40 <= u <= 0x7e || buf.len() + 1 >= ESC_BUF_SIZ {
            TermView { esc: EscState::Ground, csibuf: Seq::empty(), ..self }.csi_applied(
                csi_parsed(buf),
            )
        } else {
            TermView { csibuf: buf, ..self }
        }
    }

    /// The terminal after one more rune of input.
    pub open spec fn put(self, u: u32) -> TermView {
        if self.esc == EscState::Str {
            self.str_put(u)
        } else if is_control(u) {
            self.controlled(u)
        } else if self.esc == EscState::Ground {
            self.printed(u)
        } else if self.esc == EscState::Csi {
            self.csi_put(u)
        } else if self.esc == EscState::Start || self.esc == EscState::StartStrEnd {
            self.esc_handled(u)
        } else if self.esc == EscState::AltCharset {
            self.charset_defined(u)
        } else {
            TermView { esc: EscState::Ground, ..self }
        }
    }

    /// The terminal after the runes from position `i` on, one after the other.
    pub open spec fn fed(self, runes: Seq<u32>, i: int) -> TermView
        decreases runes.len() - i,
    {
        if i < 0 || i >= runes.len() {
            self
        } else {
            self.put(runes[i]).fed(runes, i + 1)
        }
    }
}

/// Marks the cell under the cursor as continuing on the next row.
pub(crate) fn twrapmark(term: &mut Term)
    requires
        old(term).wf(),
    ensures
        final(term).wf(),
        final(term)@ == old(term)@.wrap_marked(),
{
    proof {
        lemma_rows_len(term.line, term.col as int, term.row as int);
    }
    let x = term.c.x as usize;
    let y = term.c.y as usize;
    let g = term.line[y][x];
    term.line[y][x] = Glyph { u: g.u, mode: g.mode | ATTR_WRAP, fg: g.fg, bg: g.bg };
    proof {
        let want = old(term)@.wrap_marked();
        assert(term@.line[y as int] =~= want.line[y as int]);
        assert(term@.line =~= want.line);
        assert forall|i: int| 0 <= i < term.line.len() implies (#[trigger] term@.line[i]).len()
            == term.col by {
            if i != y {
                assert(term@.line[i] == old(term)@.line[i]);
            }
        }
    }
}

/// Marks the cell under the cursor as wide and the next as its second half.
pub(crate) fn twidemark(term: &mut Term)
    requires
        old(term).wf(),
    ensures
        final(term).wf(),
        final(term)@ == old(term)@.wide_marked(),
{
    proof {
        lemma_rows_len(term.line, term.col as int, term.row as int);
    }
    let x = term.c.x as usize;
    let y = term.c.y as usize;
    let g = term.line[y][x];
    term.line[y][x] = Glyph { u: g.u, mode: g.mode | ATTR_WIDE, fg: g.fg, bg: g.bg };
    if term.c.x < term.col - 1 {
        let n = term.line[y][x + 1];
        term.line[y][x + 1] = Glyph { u: 0, mode: ATTR_WDUMMY, fg: n.fg, bg: n.bg };
    }
    proof {
        let want = old(term)@.wide_marked();
        assert(term@.line[y as int] =~= want.line[y as int]);
        assert(term@.line =~= want.line);
        assert forall|i: int| 0 <= i < term.line.len() implies (#[trigger] term@.line[i]).len()
            == term.col by {
            if i != y {
                assert(term@.line[i] == old(term)@.line[i]);
            }
        }
    }
}

/// Makes the terminal ready for a printable rune of width `w`.
#[verifier::rlimit(50)]
pub(crate) fn tprintprep(term: &mut Term, w: i32)
    requires
        old(term).wf(),
        1 <= w <= 2,
    ensures
        final(term).wf(),
        final(term)@ == old(term)@.print_prepared(w as int),
{
    reveal(TermView::print_prepared);
    if term.sel.ob.x != -1 && term.sel.ob.y <= term.c.y && term.c.y <= term.sel.oe.y {
        selclear(term);
    }
    if term.mode & MODE_WRAP != 0 && term.c.state & CURSOR_WRAPNEXT != 0 {
        twrapmark(term);
        tnewline(term, true);
    }
    if term.mode & MODE_INSERT != 0 && w < term.col - term.c.x {
        tshiftright(term, w);
    }
    if w > term.col - term.c.x {
        tnewline(term, true);
    }
}

/// Stores a printable rune under the cursor and moves the cursor on.
#[verifier::rlimit(50)]
pub(crate) fn tprintplace(term: &mut Term, u: u32)
    requires
        old(term).wf(),
    ensures
        final(term).wf(),
        final(term)@ == old(term)@.print_placed(u),
{
    reveal(TermView::print_placed);
    let w = wcwidth(u);
    let attr = term.c.attr;
    let x = term.c.x;
    let y = term.c.y;
    tsetchar(term, u, attr, x, y);
    if w == 2 {
        twidemark(term);
    }
    if w < term.col - term.c.x {
        let x = term.c.x;
        let y = term.c.y;
        tmoveto(term, x + w, y);
    } else {
        proof {
            lemma_wrapnext_keeps_origin(term.c.state);
        }
        term.c.state = term.c.state | CURSOR_WRAPNEXT;
    }
}

/// Writes a printable rune at the cursor with the pen: a wrap that is
/// pending is carried out, insert mode makes room, and the cursor ends
/// past the rune or, at the end of the row, with a wrap pending.
pub fn tprint(term: &mut Term, u: u32)
    requires
        old(term).wf(),
    ensures
        final(term).wf(),
        final(term)@ == old(term)@.printed(u),
{
    let w = wcwidth(u);
    tprintprep(term, w);
    tprintplace(term, u);
}

/// The runes of `buf` from `a` up to `b`.
pub(crate) fn runes_copy(buf: &Vec<u32>, a: usize, b: usize) -> (r: Vec<u32>)
    requires
        a <= b <= buf.len(),
    ensures
        r@ == buf@.subrange(a as int, b as int),
{
    let mut r: Vec<u32> = Vec::new();
    let mut i: usize = a;
    while i < b
        invariant
            a <= i <= b <= buf.len(),
            r@ == buf@.subrange(a as int, i as int),
        decreases b - i,
    {
        r.push(buf[i]);
        proof {
            assert(r@ =~= buf@.subrange(a as int, i + 1));
        }
        i += 1;
    }
    r
}

/// The position of the first `;` at or after `p`.
pub(crate) fn field_end_of(buf: &Vec<u32>, p: usize) -> (e: usize)
    ensures
        e == field_end(buf@, p as int),
        e <= buf.len(),
        p <= buf.len() ==> p <= e,
{
    if p >= buf.len() {
        return buf.len();
    }
    let mut i: usize = p;
    while i < buf.len() && buf[i] != 0x3b
        invariant
            p <= i <= buf.len(),
            field_end(buf@, i as int) == field_end(buf@, p as int),
        decreases buf.len() - i,
    {
        i += 1;
    }
    i
}

/// The number that the digits at `p` spell, at most `CSI_ARG_MAX`.
pub(crate) fn number_at(buf: &Vec<u32>, p: usize) -> (v: i32)
    ensures
        v == number(buf@, p as int, 0),
        0 <= v <= CSI_ARG_MAX,
{
    let mut i: usize = p;
    let mut v: i32 = 0;
    while i < buf.len() && 0x30 <= buf[i] && buf[i] <= 0x39
        invariant
            p <= i,
            0 <= v <= CSI_ARG_MAX,
            number(buf@, i as int, v as int) == number(buf@, p as int, 0),
        decreases buf.len() - i,
    {
        let d: i32 = (buf[i] - 0x30) as i32;
        v = if v * 10 + d > CSI_ARG_MAX { CSI_ARG_MAX } else { v * 10 + d };
        i += 1;
    }
    v
}

/// Carries out the collected string sequence and returns to ordinary text.
#[verifier::rlimit(50)]
pub fn strhandle(term: &mut Term)
    requires
        old(term).wf(),
    ensures
        final(term).wf(),
        final(term)@ == old(term)@.str_handled(),
{
    reveal(TermView::str_handled);
    term.esc = EscState::Ground;
    let len = term.strbuf.len();
    let e0 = field_end_of(&term.strbuf, 0);
    let e1 = field_end_of(&term.strbuf, e0 + 1);
    let e2 = field_end_of(&term.strbuf, e1 + 1);
    if term.strtype == 0x5d {
        let par = number_at(&term.strbuf, 0);
        if par == 0 || par == 1 || par == 2 {
            if e0 < len {
                let text = runes_copy(&term.strbuf, e0 + 1, e1);
                trequest(term, RequestKind::SetTitle, -1, text);
            }
        } else if par == 4 {
            if e0 < len && e1 < len {
                let j = number_at(&term.strbuf, e0 + 1);
                let text = runes_copy(&term.strbuf, e1 + 1, e2);
                trequest(term, RequestKind::SetColor, j, text);
            }
        } else if par == 104 {
            let j = if e0 < len { number_at(&term.strbuf, e0 + 1) } else { -1 };
            trequest(term, RequestKind::ResetColor, j, Vec::new());
        }
    } else if term.strtype == 0x6b {
        let text = runes_copy(&term.strbuf, 0, e0);
        trequest(term, RequestKind::SetTitle, -1, text);
    }
}

/// Begins a string sequence of the kind that `u` names.
pub fn tstrsequence(term: &mut Term, u: u32)
    requires
        old(term).wf(),
    ensures
        final(term).wf(),
        final(term)@ == old(term)@.str_started(u),
{
    term.strbuf = Vec::new();
    term.strtype = if u == 0x90 {
        0x50
    } else if u == 0x9f {
        0x5f
    } else if u == 0x9e {
        0x5e
    } else if u == 0x9d {
        0x5d
    } else {
        u
    };
    term.esc = EscState::Str;
}

/// Gives up the control sequence in progress.
pub(crate) fn csireset(term: &mut Term)
    requires
        old(term).wf(),
    ensures
        final(term).wf(),
        final(term)@ == old(term)@.csi_reset(),
{
    term.csibuf = Vec::new();
}

/// Obeys a control character.
#[verifier::rlimit(50)]
pub fn tcontrolcode(term: &mut Term, u: u32)
    requires
        old(term).wf(),
    ensures
        final(term).wf(),
        final(term)@ == old(term)@.controlled(u),
{
    reveal(TermView::controlled);
    let x = term.c.x;
    let y = term.c.y;
    if u == 0x09 {
        tputtab(term, 1);
    } else if u == 0x08 {
        tmoveto(term, x - 1, y);
    } else if u == 0x0d {
        tmoveto(term, 0, y);
    } else if u == 0x0a || u == 0x0b || u == 0x0c {
        let crlf = term.mode & MODE_CRLF != 0;
        tnewline(term, crlf);
    } else if u == 0x07 {
        match term.esc {
            EscState::StartStrEnd => {
                strhandle(term);
            },
            _ => {
                trequest(term, RequestKind::Bell, -1, Vec::new());
            },
        }
    } else if u == 0x1b {
        csireset(term);
        term.esc = match term.esc {
            EscState::StartStrEnd => EscState::StartStrEnd,
            _ => EscState::Start,
        };
    } else if u == 0x0e {
        term.charset = 1;
    } else if u == 0x0f {
        term.charset = 0;
    } else if u == 0x1a {
        let attr = term.c.attr;
        tsetchar(term, 0x3f, attr, x, y);
        csireset(term);
        term.esc = EscState::Ground;
    } else if u == 0x18 {
        csireset(term);
        term.esc = EscState::Ground;
    } else if u == 0x85 {
        tnewline(term, true);
    } else if u == 0x88 {
        tsettab(term, true);
    } else if u == 0x9a {
        let id = vtiden_bytes();
        ttywrite(term, &id);
    } else if u == 0x90 || u == 0x9d || u == 0x9e || u == 0x9f {
        tstrsequence(term, u);
    }
}

/// Carries out the commands after ESC that move the cursor or scroll.
#[verifier::rlimit(50)]
fn esc_motion(term: &mut Term, u: u32)
    requires
        old(term).wf(),
        u == 0x44 || u == 0x45 || u == 0x48 || u == 0x4d || u == 0x5a || u == 0x63,
    ensures
        final(term).wf(),
        final(term)@ == old(term)@.esc_handled(u),
{
    reveal(TermView::esc_handled);
    let x = term.c.x;
    let y = term.c.y;
    term.esc = EscState::Ground;
    if u == 0x44 {
        if y == term.bot {
            let top = term.top;
            tscrollup(term, top, 1, true);
        } else {
            tmoveto(term, x, y + 1);
        }
    } else if u == 0x45 {
        tnewline(term, true);
    } else if u == 0x48 {
        tsettab(term, true);
    } else if u == 0x4d {
        if y == term.top {
            let top = term.top;
            tscrolldown(term, top, 1);
        } else {
            tmoveto(term, x, y - 1);
        }
    } else if u == 0x5a {
        let id = vtiden_bytes();
        ttywrite(term, &id);
    } else {
        treset(term);
        trequest(term, RequestKind::ResetTitle, -1, Vec::new());
        trequest(term, RequestKind::ReloadColors, -1, Vec::new());
    }
}

/// Carries out the rune that follows ESC.
#[verifier::rlimit(50)]
pub fn eschandle(term: &mut Term, u: u32)
    requires
        old(term).wf(),
    ensures
        final(term).wf(),
        final(term)@ == old(term)@.esc_handled(u),
{
    reveal(TermView::esc_handled);
    if u == 0x5b {
        term.esc = EscState::Csi;
    } else if u == 0x23 {
        term.esc = EscState::Test;
    } else if u == 0x25 {
        term.esc = EscState::Utf8;
    } else if u == 0x50 || u == 0x5f || u == 0x5e || u == 0x5d || u == 0x6b {
        tstrsequence(term, u);
    } else if u == 0x6e {
        term.charset = 2;
        term.esc = EscState::Ground;
    } else if u == 0x6f {
        term.charset = 3;
        term.esc = EscState::Ground;
    } else if 0x28 <= u && u <= 0x2b {
        term.icharset = (u - 0x28) as usize;
        term.esc = EscState::AltCharset;
    } else if u == 0x44 || u == 0x45 || u == 0x48 || u == 0x4d || u == 0x5a || u == 0x63 {
        esc_motion(term, u);
    } else if u == 0x3d {
        term.esc = EscState::Ground;
        tmodbit(term, true, MODE_APPKEYPAD);
    } else if u == 0x3e {
        term.esc = EscState::Ground;
        tmodbit(term, false, MODE_APPKEYPAD);
    } else if u == 0x37 {
        term.esc = EscState::Ground;
        tcursor(term, true);
    } else if u == 0x38 {
        term.esc = EscState::Ground;
        tcursor(term, false);
    } else if u == 0x5c {
        match term.esc {
            EscState::StartStrEnd => {
                strhandle(term);
            },
            _ => {
                term.esc = EscState::Ground;
            },
        }
    } else {
        term.esc = EscState::Ground;
    }
}

/// Makes the character set being designated the one that `u` names.
pub fn tdeftran(term: &mut Term, u: u32)
    requires
        old(term).wf(),
    ensures
        final(term).wf(),
        final(term)@ == old(term)@.charset_defined(u),
{
    reveal(TermView::charset_defined);
    term.esc = EscState::Ground;
    let i = term.icharset;
    if u == 0x30 {
        term.trantbl[i] = CS_GRAPHIC0;
    } else if u == 0x42 {
        term.trantbl[i] = CS_USA;
    }
}

/// Takes a rune while a string sequence is collected.
#[verifier::rlimit(50)]
fn tstrput(term: &mut Term, u: u32)
    requires
        old(term).wf(),
    ensures
        final(term).wf(),
        final(term)@ == old(term)@.str_put(u),
{
    reveal(TermView::str_put);
    if u == 0x07 || u == 0x9c {
        strhandle(term);
    } else if u == 0x1b {
        csireset(term);
        term.esc = EscState::StartStrEnd;
    } else if u == 0x18 || u == 0x1a || (0x80 <= u && u <= 0x9f) {
        term.esc = EscState::Ground;
        tcontrolcode(term, u);
    } else if term.strbuf.len() >= STR_BUF_SIZ {
    } else {
        term.strbuf.push(u);
    }
}

/// Takes a rune while a control sequence is collected.
#[verifier::rlimit(50)]
fn tcsiput(term: &mut Term, u: u32)
    requires
        old(term).wf(),
    ensures
        final(term).wf(),
        final(term)@ == old(term)@.csi_put(u),
{
    reveal(TermView::csi_put);
    term.csibuf.push(u);
    if (0x40 <= u && u <= 0x7e) || term.csibuf.len() + 1 >= ESC_BUF_SIZ {
        let csi = csiparse(&term.csibuf);
        term.esc = EscState::Ground;
        term.csibuf = Vec::new();
        csihandle(term, &csi);
    }
}

/// Interprets one rune of input: it is printed, obeyed as a control
/// character, or taken as part of an escape, control or string sequence.
#[verifier::rlimit(50)]
pub fn tputc(term: &mut Term, u: u32)
    requires
        old(term).wf(),
    ensures
        final(term).wf(),
        final(term)@ == old(term)@.put(u),
{
    let control = u <= 0x1f || u == 0x7f || (0x80 <= u && u <= 0x9f);
    match term.esc {
        EscState::Str => {
            tstrput(term, u);
        },
        _ => {
            if control {
                tcontrolcode(term, u);
            } else {
                match term.esc {
                    EscState::Ground => {
                        tprint(term, u);
                    },
                    EscState::Csi => {
                        tcsiput(term, u);
                    },
                    EscState::Start => {
                        eschandle(term, u);
                    },
                    EscState::StartStrEnd => {
                        eschandle(term, u);
                    },
                    EscState::AltCharset => {
                        tdeftran(term, u);
                    },
                    _ => {
                        term.esc = EscState::Ground;
                    },
                }
            }
        },
    }
}

/// Interprets runes one after the other.
pub fn tputs(term: &mut Term, runes: &Vec<u32>)
    requires
        old(term).wf(),
    ensures
        final(term).wf(),
        final(term)@ == old(term)@.fed(runes@, 0),
{
    let mut i: usize = 0;
    while i < runes.len()
        invariant
            0 <= i <= runes.len(),
            term.wf(),
            term@.fed(runes@, i as int) == old(term)@.fed(runes@, 0),
        decreases runes.len() - i,
    {
        tputc(term, runes[i]);
        i += 1;
    }
}

} // verus!
