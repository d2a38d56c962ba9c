//! Time: differences of clock readings, and the decisions of the event
//! loop about blinking, redrawing and how long to wait.

use vstd::prelude::*;
use crate::config::{BLINKTIMEOUT, XFPS};
use crate::glyph::{limit, Glyph, ATTR_BLINK, MODE_BLINK};
use crate::screen::tsetdirt;
use crate::term::{Term, TermView, TimeSpec};

verus! {

/// `a` divided by the positive `b`, rounded towards zero.
pub open spec fn div_trunc(a: int, b: int) -> int {
    if a >= 0 {
        a / b
    } else {
        -((-a) / b)
    }
}

/// The milliseconds from `t2` to `t1`: the seconds times 1000 plus the
/// whole milliseconds in the difference of the nanoseconds.
pub open spec fn time_diff(t1: TimeSpec, t2: TimeSpec) -> int {
    (t1.tv_sec - t2.tv_sec) * 1000 + div_trunc(t1.tv_nsec - t2.tv_nsec, 1_000_000)
}

/// The milliseconds from `t2` to `t1`, limited to what 64 bits can hold.
pub open spec fn elapsed(t1: TimeSpec, t2: TimeSpec) -> int {
    limit(time_diff(t1, t2), i64::MIN as int, i64::MAX as int)
}

/// The milliseconds from `t2` to `t1`, limited to what the result can hold.
pub fn timediff(t1: TimeSpec, t2: TimeSpec) -> (r: i64)
    ensures
        r == elapsed(t1, t2),
{
    let ds: i128 = t1.tv_sec as i128 - t2.tv_sec as i128;
    let dn: i128 = t1.tv_nsec as i128 - t2.tv_nsec as i128;
    let ms: i128 = if dn >= 0 { dn / 1_000_000 } else { -((-dn) / 1_000_000) };
    let d: i128 = ds * 1000 + ms;
    if d < i64::MIN as i128 {
        i64::MIN
    } else if d > i64::MAX as i128 {
        i64::MAX
    } else {
        d as i64
    }
}

/// What the event loop remembers between its rounds.
#[derive(Clone, Copy, Debug, PartialEq, Eq, Structural)]
pub struct RunState {
    /// when a redraw was last due by the frame rate
    pub last: TimeSpec,
    /// when the blink phase last changed
    pub lastblink: TimeSpec,
    /// whether some cell blinked after the last output
    pub blinkset: bool,
}

/// What the event loop does next.
#[derive(Clone, Copy, Debug, PartialEq, Eq)]
pub struct RunStep {
    /// redraw now
    pub dodraw: bool,
    /// how long to wait for input at most; without it, until input comes
    pub timeout: Option<TimeSpec>,
}

/// Some cell of the row has an attribute of `attr`.
pub open spec fn row_has(l: Seq<Glyph>, attr: u16) -> bool {
    exists|x: int| 0 <= x < l.len() && (#[trigger] l[x]).has(attr)
}

/// A duration of `ns` nanoseconds as seconds and the rest.
pub open spec fn nanos(ns: int) -> TimeSpec {
    TimeSpec { tv_sec: (ns / 1_000_000_000) as i64, tv_nsec: (ns % 1_000_000_000) as i64 }
}

/// The longest wait between two redraws while input arrives.
pub open spec fn frame_wait() -> TimeSpec {
    TimeSpec { tv_sec: 0, tv_nsec: (1_000_000_000int / (XFPS as int)) as i64 }
}

impl TermView {
    /// Some cell of the active screen has an attribute of `attr`.
    pub open spec fn attr_present(self, attr: u16) -> bool {
        exists|y: int| 0 <= y < self.row && row_has(#[trigger] self.line[y], attr)
    }

    /// Every row with a cell that has an attribute of `attr` marked dirty.
    pub open spec fn attr_dirtied(self, attr: u16) -> TermView {
        TermView {
            dirty: Seq::new(
                self.row as nat,
                |y: int| self.dirty[y] || row_has(self.line[y], attr),
            ),
            ..self
        }
    }

    /// The terminal after output of the child was interpreted: where a
    /// cell blinks, the blink phase starts over with the cells shown.
    pub open spec fn output_noted(self) -> TermView {
        if BLINKTIMEOUT != 0 && self.attr_present(ATTR_BLINK) {
            TermView { mode: self.mode & !MODE_BLINK, ..self }
        } else {
            self
        }
    }

    /// Whether the blink phase changes at `now`.
    pub open spec fn blink_due(st: RunState, now: TimeSpec) -> bool {
        BLINKTIMEOUT != 0 && elapsed(now, st.lastblink) > BLINKTIMEOUT
    }

    /// The terminal after a round of the event loop at `now`: where the
    /// blink phase changes, the rows with blinking cells become dirty and
    /// the blink bit flips.
    pub open spec fn ticked(self, st: RunState, now: TimeSpec) -> TermView {
        if Self::blink_due(st, now) {
            let d = self.attr_dirtied(ATTR_BLINK);
            TermView { mode: d.mode ^ MODE_BLINK, ..d }
        } else {
            self
        }
    }
}

impl RunState {
    /// What is remembered after output of the child was interpreted on
    /// terminal `s`.
    pub open spec fn output_noted(self, s: TermView) -> RunState {
        if BLINKTIMEOUT != 0 {
            RunState { blinkset: s.attr_present(ATTR_BLINK), ..self }
        } else {
            self
        }
    }

    /// Whether a redraw is due at `now` by the frame rate.
    pub open spec fn frame_due(self, now: TimeSpec) -> bool {
        elapsed(now, self.last) > 1000int / (XFPS as int)
    }

    /// What is remembered after a round at `now`.
    pub open spec fn ticked(self, now: TimeSpec) -> RunState {
        RunState {
            lastblink: if TermView::blink_due(self, now) { now } else { self.lastblink },
            last: if self.frame_due(now) { now } else { self.last },
            ..self
        }
    }

    /// What the loop does after a round at `now` in which the child's
    /// output was or was not ready, and the display's. It redraws where
    /// the blink phase changes or the frame rate asks for it. It then waits
    /// for input no longer than a frame; but after a redraw in a round
    /// without input it waits until the next blink where a cell blinks,
    /// and without limit where none does.
    pub open spec fn step(self, now: TimeSpec, cmd_ready: bool, x_ready: bool) -> RunStep {
        let dodraw = TermView::blink_due(self, now) || self.frame_due(now);
        let after = self.ticked(now);
        RunStep {
            dodraw,
            timeout: if dodraw && !cmd_ready && !x_ready {
                if self.blinkset {
                    if elapsed(now, after.lastblink) > BLINKTIMEOUT {
                        Some(nanos(1000))
                    } else {
                        Some(nanos(1_000_000 * (BLINKTIMEOUT - elapsed(now, after.lastblink))))
                    }
                } else {
                    None
                }
            } else {
                Some(frame_wait())
            },
        }
    }
}

/// Whether some cell of the row has an attribute of `attr`.
fn row_attrset(l: &Vec<Glyph>, attr: u16) -> (r: bool)
    ensures
        r == row_has(l@, attr),
{
    let mut x: usize = 0;
    while x < l.len()
        invariant
            0 <= x <= l.len(),
            forall|i: int| 0 <= i < x ==> !(#[trigger] l[i]).has(attr),
        decreases l.len() - x,
    {
        if l[x].mode & attr != 0 {
            return true;
        }
        x += 1;
    }
    false
}

/// Whether some cell of the active screen has an attribute of `attr`.
pub fn tattrset(term: &Term, attr: u16) -> (r: bool)
    requires
        term.wf(),
    ensures
        r == term@.attr_present(attr),
{
    let mut y: usize = 0;
    while y < term.line.len()
        invariant
            0 <= y <= term.line.len(),
            term.line.len() == term@.row,
            forall|i: int| 0 <= i < y ==> !row_has(#[trigger] term@.line[i], attr),
        decreases term.line.len() - y,
    {
        if row_attrset(&term.line[y], attr) {
            assert(row_has(term@.line[y as int], attr));
            return true;
        }
        y += 1;
    }
    false
}

/// Marks every row with a cell that has an attribute of `attr` as dirty.
#[verifier::rlimit(50)]
pub fn tsetdirtattr(term: &mut Term, attr: u16)
    requires
        old(term).wf(),
    ensures
        final(term).wf(),
        final(term)@ == old(term)@.attr_dirtied(attr),
{
    let ghost s = term@;
    let mut y: i32 = 0;
    while y < term.row
        invariant
            term.wf(),
            0 <= y <= term.row,
            term@ == (TermView {
                dirty: Seq::new(
                    s.row as nat,
                    |i: int| s.dirty[i] || (i < y && row_has(s.line[i], attr)),
                ),
                ..s
            }),
        decreases term.row - y,
    {
        if row_attrset(&term.line[y as usize], attr) {
            tsetdirt(term, y, y);
        }
        proof {
            assert(term@.dirty =~= Seq::new(
                s.row as nat,
                |i: int| s.dirty[i] || (i < y + 1 && row_has(s.line[i], attr)),
            ));
        }
        y += 1;
    }
    proof {
        assert(term@.dirty =~= s.attr_dirtied(attr).dirty);
    }
}

/// A duration of `ns` nanoseconds as seconds and the rest.
fn nanos_of(ns: i128) -> (r: TimeSpec)
    requires
        0 <= ns <= 0x7fff_ffff_ffff_ffff * 1_000_000_000,
    ensures
        r == nanos(ns as int),
{
    TimeSpec { tv_sec: (ns / 1_000_000_000) as i64, tv_nsec: (ns % 1_000_000_000) as i64 }
}

/// Notes that output of the child was interpreted: looks for blinking
/// cells and, where there are some, shows them.
pub fn run_output(term: &mut Term, st: &mut RunState)
    requires
        old(term).wf(),
    ensures
        final(term).wf(),
        final(term)@ == old(term)@.output_noted(),
        *final(st) == old(st).output_noted(old(term)@),
{
    if BLINKTIMEOUT != 0 {
        st.blinkset = tattrset(term, ATTR_BLINK);
        if st.blinkset {
            term.mode = term.mode & !MODE_BLINK;
        }
    }
}

/// One round of the event loop at `now`, after what was ready was read:
/// changes the blink phase where it is due, and says whether to redraw and
/// how long to wait for input.
#[verifier::rlimit(50)]
pub fn run(term: &mut Term, st: &mut RunState, now: TimeSpec, cmd_ready: bool, x_ready: bool) -> (r:
    RunStep)
    requires
        old(term).wf(),
    ensures
        final(term).wf(),
        final(term)@ == old(term)@.ticked(*old(st), now),
        *final(st) == old(st).ticked(now),
        r == old(st).step(now, cmd_ready, x_ready),
{
    let mut dodraw = false;
    let mut timeout = Some(TimeSpec { tv_sec: 0, tv_nsec: 1_000_000_000 / XFPS });
    if BLINKTIMEOUT != 0 && timediff(now, st.lastblink) > BLINKTIMEOUT {
        tsetdirtattr(term, ATTR_BLINK);
        term.mode = term.mode ^ MODE_BLINK;
        st.lastblink = now;
        dodraw = true;
    }
    if timediff(now, st.last) > 1000 / XFPS {
        dodraw = true;
        st.last = now;
    }
    if dodraw && !cmd_ready && !x_ready {
        if st.blinkset {
            let d = timediff(now, st.lastblink);
            if d > BLINKTIMEOUT {
                timeout = Some(nanos_of(1000));
            } else {
                timeout = Some(nanos_of(1_000_000 * (BLINKTIMEOUT as i128 - d as i128)));
            }
        } else {
            timeout = None;
        }
    }
    RunStep { dodraw, timeout }
}

} // verus!
