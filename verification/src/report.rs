//! What the terminal sends to the child process on behalf of the user:
//! typed keys, pasted text and focus reports.

use vstd::prelude::*;
use crate::csi::ttywrite;
use crate::glyph::{MODE_APPCURSOR, MODE_BRCKTPASTE, MODE_CRLF, MODE_FOCUS, MODE_KBDLOCK};
use crate::term::{Term, TermView};

verus! {

/// The marker before pasted text: `ESC [ 2 0 0 ~`.
pub open spec fn paste_start() -> Seq<u8> {
    seq![0x1bu8, 0x5bu8, 0x32u8, 0x30u8, 0x30u8, 0x7eu8]
}

/// The marker after pasted text: `ESC [ 2 0 1 ~`.
pub open spec fn paste_end() -> Seq<u8> {
    seq![0x1bu8, 0x5bu8, 0x32u8, 0x30u8, 0x31u8, 0x7eu8]
}

/// Text as it is pasted: every line feed becomes a carriage return.
pub open spec fn paste_text(text: Seq<u8>) -> Seq<u8> {
    Seq::new(text.len(), |i: int| if text[i] == 0x0a { 0x0du8 } else { text[i] })
}

/// The report of the focus: `ESC [ I` when gained, `ESC [ O` when lost.
pub open spec fn focus_report(focused: bool) -> Seq<u8> {
    seq![0x1bu8, 0x5bu8, if focused { 0x49u8 } else { 0x4fu8 }]
}

impl TermView {
    /// The bytes that go to the child for pasted text: the text with
    /// carriage returns for line feeds, between the paste markers in
    /// bracketed-paste mode.
    pub open spec fn pasted(self, text: Seq<u8>) -> Seq<u8> {
        if self.mode & MODE_BRCKTPASTE != 0 {
            paste_start() + paste_text(text) + paste_end()
        } else {
            paste_text(text)
        }
    }

    /// The terminal after the window gained or lost the focus: in
    /// focus-reporting mode a report is owed to the child.
    pub open spec fn focus_changed(self, focused: bool) -> TermView {
        if self.mode & MODE_FOCUS != 0 {
            self.replied(focus_report(focused))
        } else {
            self
        }
    }
}

/// The bytes to send to the child for pasted text.
pub fn tpaste(term: &Term, text: &Vec<u8>) -> (r: Vec<u8>)
    ensures
        r@ == term@.pasted(text@),
{
    let bracket = term.mode & MODE_BRCKTPASTE != 0;
    let mut r: Vec<u8> = Vec::new();
    if bracket {
        r.push(0x1b);
        r.push(0x5b);
        r.push(0x32);
        r.push(0x30);
        r.push(0x30);
        r.push(0x7e);
        assert(r@ =~= paste_start());
    }
    let ghost head = r@;
    let mut i: usize = 0;
    while i < text.len()
        invariant
            0 <= i <= text.len(),
            r@ == head + paste_text(text@).subrange(0, i as int),
        decreases text.len() - i,
    {
        let b = text[i];
        r.push(if b == 0x0a { 0x0d } else { b });
        proof {
            assert(r@ =~= head + paste_text(text@).subrange(0, i + 1));
        }
        i += 1;
    }
    proof {
        assert(paste_text(text@).subrange(0, text.len() as int) =~= paste_text(text@));
    }
    if bracket {
        let ghost body = r@;
        r.push(0x1b);
        r.push(0x5b);
        r.push(0x32);
        r.push(0x30);
        r.push(0x31);
        r.push(0x7e);
        assert(r@ =~= body + paste_end());
    } else {
        assert(head + paste_text(text@) =~= paste_text(text@));
    }
    r
}

/// Notes that the window gained or lost the focus.
pub fn tfocus(term: &mut Term, focused: bool)
    requires
        old(term).wf(),
    ensures
        final(term).wf(),
        final(term)@ == old(term)@.focus_changed(focused),
{
    if term.mode & MODE_FOCUS != 0 {
        let mut r: Vec<u8> = Vec::new();
        r.push(0x1b);
        r.push(0x5b);
        r.push(if focused { 0x49 } else { 0x4f });
        assert(r@ =~= focus_report(focused));
        ttywrite(term, &r);
    }
}

// The numbers by which the X protocol names the keys that send sequences.
pub const XK_BACKSPACE: u32 = 0xff08;
pub const XK_HOME: u32 = 0xff50;
pub const XK_LEFT: u32 = 0xff51;
pub const XK_UP: u32 = 0xff52;
pub const XK_RIGHT: u32 = 0xff53;
pub const XK_DOWN: u32 = 0xff54;
pub const XK_PAGE_UP: u32 = 0xff55;
pub const XK_PAGE_DOWN: u32 = 0xff56;
pub const XK_END: u32 = 0xff57;
pub const XK_INSERT: u32 = 0xff63;
pub const XK_DELETE: u32 = 0xffff;

/// The sequence `ESC` `a` `b`.
pub open spec fn esc2(a: u8, b: u8) -> Seq<u8> {
    seq![0x1bu8, a, b]
}

/// The sequence `ESC [` `n` `~`.
pub open spec fn esc_tilde(n: u8) -> Seq<u8> {
    seq![0x1bu8, 0x5bu8, n, 0x7eu8]
}

/// The bytes that the key with number `ksym` sends by itself, if any: the
/// arrow keys send `ESC [ A` to `D`, or `ESC O A` to `D` with application
/// cursor keys; Home `ESC [ H`; Insert, Delete, End, Page Up and Page Down
/// `ESC [ 2 ~` to `ESC [ 6 ~`; Backspace sends DEL.
pub open spec fn key_sequence(ksym: u32, appcursor: bool) -> Option<Seq<u8>> {
    let lead = if appcursor { 0x4fu8 } else { 0x5bu8 };
    if ksym == XK_UP {
        Some(esc2(lead, 0x41))
    } else if ksym == XK_DOWN {
        Some(esc2(lead, 0x42))
    } else if ksym == XK_RIGHT {
        Some(esc2(lead, 0x43))
    } else if ksym == XK_LEFT {
        Some(esc2(lead, 0x44))
    } else if ksym == XK_HOME {
        Some(esc2(0x5b, 0x48))
    } else if ksym == XK_INSERT {
        Some(esc_tilde(0x32))
    } else if ksym == XK_DELETE {
        Some(esc_tilde(0x33))
    } else if ksym == XK_END {
        Some(esc_tilde(0x34))
    } else if ksym == XK_PAGE_UP {
        Some(esc_tilde(0x35))
    } else if ksym == XK_PAGE_DOWN {
        Some(esc_tilde(0x36))
    } else if ksym == XK_BACKSPACE {
        Some(seq![0x7fu8])
    } else {
        None
    }
}

impl TermView {
    /// The bytes that go to the child for a pressed key with number `ksym`
    /// for which the input method gives the text `text`: nothing while the
    /// keyboard is locked; the key's own sequence where it has one; else the
    /// text, with a line feed after a lone carriage return in the mode that
    /// asks for it.
    pub open spec fn typed(self, ksym: u32, text: Seq<u8>) -> Seq<u8> {
        if self.mode & MODE_KBDLOCK != 0 {
            Seq::empty()
        } else {
            match key_sequence(ksym, self.mode & MODE_APPCURSOR != 0) {
                Some(s) => s,
                None => {
                    if text == seq![0x0du8] && self.mode & MODE_CRLF != 0 {
                        seq![0x0du8, 0x0au8]
                    } else {
                        text
                    }
                },
            }
        }
    }
}

fn bytes2(a: u8, b: u8) -> (r: Vec<u8>)
    ensures
        r@ == esc2(a, b),
{
    let mut r: Vec<u8> = Vec::new();
    r.push(0x1b);
    r.push(a);
    r.push(b);
    assert(r@ =~= esc2(a, b));
    r
}

fn bytes_tilde(n: u8) -> (r: Vec<u8>)
    ensures
        r@ == esc_tilde(n),
{
    let mut r: Vec<u8> = Vec::new();
    r.push(0x1b);
    r.push(0x5b);
    r.push(n);
    r.push(0x7e);
    assert(r@ =~= esc_tilde(n));
    r
}

/// The bytes to send to the child for a pressed key.
pub fn kpress(term: &Term, ksym: u32, text: &Vec<u8>) -> (r: Vec<u8>)
    ensures
        r@ == term@.typed(ksym, text@),
{
    if term.mode & MODE_KBDLOCK != 0 {
        return Vec::new();
    }
    let lead: u8 = if term.mode & MODE_APPCURSOR != 0 { 0x4f } else { 0x5b };
    if ksym == XK_UP {
        bytes2(lead, 0x41)
    } else if ksym == XK_DOWN {
        bytes2(lead, 0x42)
    } else if ksym == XK_RIGHT {
        bytes2(lead, 0x43)
    } else if ksym == XK_LEFT {
        bytes2(lead, 0x44)
    } else if ksym == XK_HOME {
        bytes2(0x5b, 0x48)
    } else if ksym == XK_INSERT {
        bytes_tilde(0x32)
    } else if ksym == XK_DELETE {
        bytes_tilde(0x33)
    } else if ksym == XK_END {
        bytes_tilde(0x34)
    } else if ksym == XK_PAGE_UP {
        bytes_tilde(0x35)
    } else if ksym == XK_PAGE_DOWN {
        bytes_tilde(0x36)
    } else if ksym == XK_BACKSPACE {
        let mut r: Vec<u8> = Vec::new();
        r.push(0x7f);
        assert(r@ =~= seq![0x7fu8]);
        r
    } else {
        let mut r: Vec<u8> = Vec::new();
        if text.len() == 1 && text[0] == 0x0d && term.mode & MODE_CRLF != 0 {
            r.push(0x0d);
            r.push(0x0a);
            assert(text@ =~= seq![0x0du8]);
            assert(r@ =~= seq![0x0du8, 0x0au8]);
        } else {
            let mut i: usize = 0;
            while i < text.len()
                invariant
                    0 <= i <= text.len(),
                    r@ == text@.subrange(0, i as int),
                decreases text.len() - i,
            {
                r.push(text[i]);
                proof {
                    assert(r@ =~= text@.subrange(0, i + 1));
                }
                i += 1;
            }
            proof {
                assert(text@.subrange(0, text.len() as int) =~= text@);
                if text@ == seq![0x0du8] {
                    assert(text@.len() == 1 && text@[0] == 0x0d);
                }
            }
        }
        r
    }
}

} // verus!
