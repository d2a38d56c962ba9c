//! Terminal modes: the mode bits that control sequences set and reset,
//! origin mode, and the switch to the alternate screen.

use vstd::prelude::*;
use crate::bits::lemma_origin_then_unwrap;
use crate::glyph::{
    TCursor, CURSOR_ORIGIN, CURSOR_WRAPNEXT, MODE_8BIT, MODE_ALTSCREEN, MODE_APPCURSOR,
    MODE_BRCKTPASTE, MODE_CRLF, MODE_ECHO, MODE_FOCUS, MODE_HIDE, MODE_INSERT, MODE_KBDLOCK,
    MODE_MOUSE, MODE_MOUSEBTN, MODE_MOUSEMANY, MODE_MOUSEMOTION, MODE_MOUSESGR, MODE_MOUSEX10,
    MODE_REVERSE, MODE_WRAP,
};
use crate::screen::{tclearregion, tfulldirt, tloadcursor, tsavecursor, tswapscreen};
use crate::term::{HostRequest, HostRequestView, RequestKind, Term, TermView};

verus! {

/// `x` with the bits of `bit` set or cleared.
pub open spec fn modbit(x: u32, set: bool, bit: u32) -> u32 {
    if set {
        x | bit
    } else {
        x & !bit
    }
}

impl TermView {
    /// Mode bits set or cleared.
    pub open spec fn mode_bit(self, set: bool, bit: u32) -> TermView {
        TermView { mode: modbit(self.mode, set, bit), ..self }
    }

    /// One mouse-reporting mode set or cleared; the others are cleared.
    pub open spec fn mouse_mode(self, set: bool, bit: u32) -> TermView {
        TermView { mode: modbit(self.mode & !MODE_MOUSE, set, bit), ..self }
    }

    /// Reverse video set or cleared; every row becomes dirty where it changed.
    pub open spec fn reverse_set(self, set: bool) -> TermView {
        let m = modbit(self.mode, set, MODE_REVERSE);
        if m != self.mode {
            TermView { mode: m, ..self }.all_dirtied()
        } else {
            self
        }
    }

    /// Origin mode set or cleared; the cursor goes to the home position of
    /// the new mode.
    pub open spec fn origin_set(self, set: bool) -> TermView {
        TermView {
            c: TCursor {
                state: if set {
                    self.c.state | CURSOR_ORIGIN
                } else {
                    self.c.state & !CURSOR_ORIGIN
                },
                ..self.c
            },
            ..self
        }.moved_abs(0, 0)
    }

    /// The cursor saved where `set` holds, else restored.
    pub open spec fn cursor_kept(self, set: bool) -> TermView {
        if set {
            self.cursor_saved()
        } else {
            self.cursor_loaded()
        }
    }

    /// The alternate screen entered where `set` holds, else left. The
    /// alternate screen is erased when it is active before the switch, and
    /// the screens are exchanged where the active one is not the one asked
    /// for.
    pub open spec fn alt_switched(self, set: bool) -> TermView {
        let s1 = if self.altscreen() {
            self.region_cleared(0, 0, self.col - 1, self.row - 1)
        } else {
            self
        };
        if set != self.altscreen() {
            s1.screens_swapped()
        } else {
            s1
        }
    }

    /// One mode set or reset: `a` is the mode's number, `priv_` tells the
    /// private modes from the standard ones. A number that names no mode
    /// changes nothing.
    #[verifier::opaque]
    pub open spec fn mode_set(self, priv_: bool, set: bool, a: int) -> TermView {
        if priv_ {
            if a == 1 {
                self.mode_bit(set, MODE_APPCURSOR)
            } else if a == 5 {
                self.reverse_set(set)
            } else if a == 6 {
                self.origin_set(set)
            } else if a == 7 {
                self.mode_bit(set, MODE_WRAP)
            } else if a == 25 {
                self.mode_bit(!set, MODE_HIDE)
            } else if a == 9 {
                self.mouse_mode(set, MODE_MOUSEX10)
            } else if a == 1000 {
                self.mouse_mode(set, MODE_MOUSEBTN)
            } else if a == 1002 {
                self.mouse_mode(set, MODE_MOUSEMOTION)
            } else if a == 1003 {
                self.mouse_mode(set, MODE_MOUSEMANY)
            } else if a == 1004 {
                self.mode_bit(set, MODE_FOCUS)
            } else if a == 1006 {
                self.mode_bit(set, MODE_MOUSESGR)
            } else if a == 1034 {
                self.mode_bit(set, MODE_8BIT)
            } else if a == 1049 {
                if self.allowaltscreen {
                    self.cursor_kept(set).alt_switched(set).cursor_kept(set)
                } else {
                    self
                }
            } else if a == 47 || a == 1047 {
                if self.allowaltscreen {
                    self.alt_switched(set)
                } else {
                    self
                }
            } else if a == 1048 {
                self.cursor_kept(set)
            } else if a == 2004 {
                self.mode_bit(set, MODE_BRCKTPASTE)
            } else {
                self
            }
        } else {
            if a == 2 {
                self.mode_bit(set, MODE_KBDLOCK)
            } else if a == 4 {
                self.mode_bit(set, MODE_INSERT)
            } else if a == 12 {
                self.mode_bit(!set, MODE_ECHO)
            } else if a == 20 {
                self.mode_bit(set, MODE_CRLF)
            } else {
                self
            }
        }
    }

    /// The modes named by the parameters from position `i` on set or reset,
    /// one after the other.
    pub open spec fn modes_set(self, priv_: bool, set: bool, arg: Seq<i32>, i: int) -> TermView
        decreases arg.len() - i,
    {
        if i < 0 || i >= arg.len() {
            self
        } else {
            self.mode_set(priv_, set, arg[i] as int).modes_set(priv_, set, arg, i + 1)
        }
    }

    /// A request to the host appended to the pending ones.
    pub open spec fn requested(self, kind: RequestKind, arg: i32, text: Seq<u32>) -> TermView {
        TermView { requests: self.requests.push(HostRequestView { kind, arg, text }), ..self }
    }
}

/// Sets or clears mode bits.
pub(crate) fn tmodbit(term: &mut Term, set: bool, bit: u32)
    requires
        old(term).wf(),
    ensures
        final(term).wf(),
        final(term)@ == old(term)@.mode_bit(set, bit),
{
    if set {
        term.mode = term.mode | bit;
    } else {
        term.mode = term.mode & !bit;
    }
}

/// Sets or clears one mouse-reporting mode and clears the others.
pub(crate) fn tmousemode(term: &mut Term, set: bool, bit: u32)
    requires
        old(term).wf(),
    ensures
        final(term).wf(),
        final(term)@ == old(term)@.mouse_mode(set, bit),
{
    term.mode = term.mode & !MODE_MOUSE;
    if set {
        term.mode = term.mode | bit;
    } else {
        term.mode = term.mode & !bit;
    }
}

/// Sets or clears origin mode and homes the cursor.
pub(crate) fn torigin(term: &mut Term, set: bool)
    requires
        old(term).wf(),
    ensures
        final(term).wf(),
        final(term)@ == old(term)@.origin_set(set),
{
    proof {
        lemma_origin_then_unwrap(term.c.state);
    }
    let st: u8 = if set { term.c.state | CURSOR_ORIGIN } else { term.c.state & !CURSOR_ORIGIN };
    term.c = TCursor {
        attr: term.c.attr,
        x: 0,
        y: if set { term.top } else { 0 },
        state: st & !CURSOR_WRAPNEXT,
    };
    proof {
        let mid = TermView { c: TCursor { state: st, ..old(term)@.c }, ..old(term)@ };
        assert(mid.c.origin() == set) by {
            crate::bits::lemma_origin_bit(old(term).c.state);
        }
    }
}

/// Enters or leaves the alternate screen.
pub(crate) fn taltswitch(term: &mut Term, set: bool)
    requires
        old(term).wf(),
    ensures
        final(term).wf(),
        final(term)@ == old(term)@.alt_switched(set),
{
    let alt = term.mode & MODE_ALTSCREEN != 0;
    if alt {
        let right = term.col - 1;
        let bottom = term.row - 1;
        tclearregion(term, 0, 0, right, bottom);
    }
    if set != alt {
        tswapscreen(term);
    }
}

/// Saves the cursor where `set` holds, else restores it.
pub(crate) fn tcursor(term: &mut Term, set: bool)
    requires
        old(term).wf(),
    ensures
        final(term).wf(),
        final(term)@ == old(term)@.cursor_kept(set),
{
    if set {
        tsavecursor(term);
    } else {
        tloadcursor(term);
    }
}

/// Sets or resets the mode with number `a`.
#[verifier::rlimit(50)]
pub(crate) fn tsetmode_one(term: &mut Term, priv_: bool, set: bool, a: i32)
    requires
        old(term).wf(),
    ensures
        final(term).wf(),
        final(term)@ == old(term)@.mode_set(priv_, set, a as int),
{
    reveal(TermView::mode_set);
    if priv_ {
        if a == 1 {
            tmodbit(term, set, MODE_APPCURSOR);
        } else if a == 5 {
            let mode = term.mode;
            tmodbit(term, set, MODE_REVERSE);
            if mode != term.mode {
                tfulldirt(term);
            }
        } else if a == 6 {
            torigin(term, set);
        } else if a == 7 {
            tmodbit(term, set, MODE_WRAP);
        } else if a == 25 {
            tmodbit(term, !set, MODE_HIDE);
        } else if a == 9 {
            tmousemode(term, set, MODE_MOUSEX10);
        } else if a == 1000 {
            tmousemode(term, set, MODE_MOUSEBTN);
        } else if a == 1002 {
            tmousemode(term, set, MODE_MOUSEMOTION);
        } else if a == 1003 {
            tmousemode(term, set, MODE_MOUSEMANY);
        } else if a == 1004 {
            tmodbit(term, set, MODE_FOCUS);
        } else if a == 1006 {
            tmodbit(term, set, MODE_MOUSESGR);
        } else if a == 1034 {
            tmodbit(term, set, MODE_8BIT);
        } else if a == 1049 {
            if term.allowaltscreen {
                tcursor(term, set);
                taltswitch(term, set);
                tcursor(term, set);
            }
        } else if a == 47 || a == 1047 {
            if term.allowaltscreen {
                taltswitch(term, set);
            }
        } else if a == 1048 {
            tcursor(term, set);
        } else if a == 2004 {
            tmodbit(term, set, MODE_BRCKTPASTE);
        }
    } else {
        if a == 2 {
            tmodbit(term, set, MODE_KBDLOCK);
        } else if a == 4 {
            tmodbit(term, set, MODE_INSERT);
        } else if a == 12 {
            tmodbit(term, !set, MODE_ECHO);
        } else if a == 20 {
            tmodbit(term, set, MODE_CRLF);
        }
    }
}

/// Sets or resets the modes that the parameters name, one after the other.
/// Private modes: 1 application cursor keys, 5 reverse video, 6 origin, 7
/// wrap, 25 cursor visible, 9, 1000, 1002 and 1003 mouse reporting, 1004
/// focus reporting, 1006 extended mouse coordinates, 1034 eight-bit input,
/// 47, 1047 and 1049 alternate screen, 1048 saved cursor, 2004 bracketed
/// paste. Standard modes: 2 keyboard lock, 4 insert, 12 local echo off, 20
/// line feed with carriage return.
pub fn tsetmode(term: &mut Term, priv_: bool, set: bool, arg: &Vec<i32>)
    requires
        old(term).wf(),
    ensures
        final(term).wf(),
        final(term)@ == old(term)@.modes_set(priv_, set, arg@, 0),
{
    let mut i: usize = 0;
    while i < arg.len()
        invariant
            0 <= i <= arg.len(),
            term.wf(),
            term@.modes_set(priv_, set, arg@, i as int) == old(term)@.modes_set(
                priv_,
                set,
                arg@,
                0,
            ),
        decreases arg.len() - i,
    {
        tsetmode_one(term, priv_, set, arg[i]);
        i += 1;
    }
}

/// Appends a request to the host to the pending ones.
pub(crate) fn trequest(term: &mut Term, kind: RequestKind, arg: i32, text: Vec<u32>)
    requires
        old(term).wf(),
    ensures
        final(term).wf(),
        final(term)@ == old(term)@.requested(kind, arg, text@),
{
    term.requests.push(HostRequest { kind, arg, text });
    proof {
        assert(term@.requests =~= old(term)@.requested(kind, arg, text@).requests);
    }
}

} // verus!
