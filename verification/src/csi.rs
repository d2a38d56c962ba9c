//! Control sequences: parsing the collected runes into parameters, graphic
//! rendition, and the replies that the terminal writes back.

use vstd::prelude::*;
use crate::config::{DEFAULTBG, DEFAULTFG};
use crate::glyph::{
    Glyph, TCursor, ATTR_BLINK, ATTR_BOLD, ATTR_BOLD_FAINT, ATTR_FAINT, ATTR_INVISIBLE,
    ATTR_ITALIC, ATTR_NULL, ATTR_REVERSE, ATTR_STRUCK, ATTR_UNDERLINE,
};
use crate::term::{Term, TermView, ESC_ARG_SIZ};

verus! {

/// Largest value that a numeric parameter can take; longer numbers stop here.
pub const CSI_ARG_MAX: i32 = 65535;

/// A parsed control sequence.
#[derive(Debug)]
pub struct CSIEscape {
    /// the sequence began with `?`
    pub(crate) priv_: bool,
    /// the numeric parameters, at most `ESC_ARG_SIZ`
    pub(crate) arg: Vec<i32>,
    /// the first rune after the parameters
    pub(crate) mode0: u32,
    /// the rune after that, or 0
    pub(crate) mode1: u32,
}

/// A parsed control sequence as contracts see it.
pub struct CsiView {
    pub priv_: bool,
    pub arg: Seq<i32>,
    pub mode0: u32,
    pub mode1: u32,
}

impl View for CSIEscape {
    type V = CsiView;

    open(crate) spec fn view(&self) -> CsiView {
        CsiView { priv_: self.priv_, arg: self.arg@, mode0: self.mode0, mode1: self.mode1 }
    }
}

/// Whether a rune is a decimal digit.
pub open spec fn is_digit(u: u32) -> bool {
    0x30 <= u <= 0x39
}

/// The value, starting from `acc`, of the decimal digits of `buf` from
/// position `p` on; it stops growing at `CSI_ARG_MAX`.
pub open spec fn number(buf: Seq<u32>, p: int, acc: int) -> int
    decreases buf.len() - p,
{
    if 0 <= p < buf.len() && is_digit(buf[p]) {
        let v = acc * 10 + (buf[p] - 0x30);
        number(buf, p + 1, if v > CSI_ARG_MAX { CSI_ARG_MAX as int } else { v })
    } else {
        acc
    }
}

/// The position after the decimal digits of `buf` from position `p` on.
pub open spec fn digits_end(buf: Seq<u32>, p: int) -> int
    decreases buf.len() - p,
{
    if 0 <= p < buf.len() && is_digit(buf[p]) {
        digits_end(buf, p + 1)
    } else {
        p
    }
}

/// The parameters of `buf` from position `p` on, appended to `arg`, and
/// the position after them. Parameters are numbers separated by `;`; an
/// empty one counts as 0; at most `ESC_ARG_SIZ` are taken.
pub open spec fn csi_args(buf: Seq<u32>, p: int, arg: Seq<i32>) -> (Seq<i32>, int)
    decreases buf.len() - p,
{
    if p < 0 || p >= buf.len() {
        (arg, p)
    } else {
        let e = digits_end(buf, p);
        let a = arg.push(number(buf, p, 0) as i32);
        if p <= e < buf.len() && buf[e] == 0x3b && a.len() < ESC_ARG_SIZ {
            csi_args(buf, e + 1, a)
        } else {
            (a, e)
        }
    }
}

/// The position after the digits and `;` of `buf` from position `p` on.
pub open spec fn params_end(buf: Seq<u32>, p: int) -> int
    decreases buf.len() - p,
{
    if 0 <= p < buf.len() && (is_digit(buf[p]) || buf[p] == 0x3b) {
        params_end(buf, p + 1)
    } else {
        p
    }
}

/// The runes of a control sequence, without the introducer, read as: an
/// optional `?`, numeric parameters, of which those after the
/// `ESC_ARG_SIZ`-th are dropped, and then one or two runes that name the
/// command.
pub open spec fn csi_parsed(buf: Seq<u32>) -> CsiView {
    let priv_ = buf.len() > 0 && buf[0] == 0x3f;
    let (arg, e) = csi_args(buf, if priv_ { 1 } else { 0 }, Seq::empty());
    let q = params_end(buf, e);
    CsiView {
        priv_,
        arg,
        mode0: if q < buf.len() { buf[q] } else { 0 },
        mode1: if q + 1 < buf.len() { buf[q + 1] } else { 0 },
    }
}

impl CsiView {
    /// Parameter `i`, or 0 where it is missing.
    pub open spec fn arg_at(self, i: int) -> int {
        if 0 <= i < self.arg.len() {
            self.arg[i] as int
        } else {
            0
        }
    }

    /// Parameter `i`, or `d` where it is missing or 0.
    pub open spec fn arg_or(self, i: int, d: int) -> int {
        if self.arg_at(i) == 0 {
            d
        } else {
            self.arg_at(i)
        }
    }

    pub open spec fn wf(self) -> bool {
        &&& self.arg.len() <= ESC_ARG_SIZ
        &&& forall|i: int| 0 <= i < self.arg.len() ==> 0 <= #[trigger] self.arg[i] <= CSI_ARG_MAX
    }
}

impl CSIEscape {
    /// There are at most `ESC_ARG_SIZ` parameters, none negative and none
    /// above `CSI_ARG_MAX`.
    #[verifier::type_invariant]
    pub open(crate) spec fn inv(self) -> bool {
        self@.wf()
    }

    /// Whether the sequence began with `?`.
    pub fn is_private(&self) -> (r: bool)
        ensures
            r == self@.priv_,
    {
        self.priv_
    }

    /// The numeric parameters.
    pub fn args(&self) -> (r: &Vec<i32>)
        ensures
            r@ == self@.arg,
            self@.wf(),
    {
        proof {
            use_type_invariant(self);
        }
        &self.arg
    }

    /// The first rune after the parameters, which names the command, and
    /// the rune after it; 0 where there is none.
    pub fn mode(&self) -> (r: (u32, u32))
        ensures
            r == (self@.mode0, self@.mode1),
    {
        (self.mode0, self.mode1)
    }

    pub fn arg_at(&self, i: usize) -> (r: i32)
        ensures
            r == self@.arg_at(i as int),
    {
        if i < self.arg.len() {
            self.arg[i]
        } else {
            0
        }
    }

    pub fn arg_or(&self, i: usize, d: i32) -> (r: i32)
        ensures
            r == self@.arg_or(i as int, d as int),
    {
        let v = self.arg_at(i);
        if v == 0 {
            d
        } else {
            v
        }
    }
}

/// Parses the runes of a control sequence.
pub fn csiparse(buf: &Vec<u32>) -> (r: CSIEscape)
    ensures
        r@ == csi_parsed(buf@),
        r@.wf(),
{
    let len = buf.len();
    let priv_ = len > 0 && buf[0] == 0x3f;
    let mut p: usize = if priv_ { 1 } else { 0 };
    let ghost p0 = p as int;
    let mut arg: Vec<i32> = Vec::new();
    while p < len
        invariant_except_break
            p < len ==> arg.len() < ESC_ARG_SIZ,
            csi_args(buf@, p as int, arg@) == csi_args(buf@, p0, Seq::empty()),
        invariant
            0 <= p <= len == buf.len(),
            arg.len() <= ESC_ARG_SIZ,
            forall|i: int| 0 <= i < arg.len() ==> 0 <= #[trigger] arg[i] <= CSI_ARG_MAX,
        ensures
            0 <= p <= len,
            arg.len() <= ESC_ARG_SIZ,
            forall|i: int| 0 <= i < arg.len() ==> 0 <= #[trigger] arg[i] <= CSI_ARG_MAX,
            (arg@, p as int) == csi_args(buf@, p0, Seq::empty()),
        decreases len - p,
    {
        let ghost start = p as int;
        let mut v: i32 = 0;
        while p < len && 0x30 <= buf[p] && buf[p] <= 0x39
            invariant
                start <= p <= len == buf.len(),
                0 <= v <= CSI_ARG_MAX,
                number(buf@, p as int, v as int) == number(buf@, start, 0),
                digits_end(buf@, p as int) == digits_end(buf@, start),
            decreases len - p,
        {
            let d: i32 = (buf[p] - 0x30) as i32;
            v = if v * 10 + d > CSI_ARG_MAX { CSI_ARG_MAX } else { v * 10 + d };
            p += 1;
        }
        assert(digits_end(buf@, p as int) == p);
        arg.push(v);
        if p < len && buf[p] == 0x3b && arg.len() < ESC_ARG_SIZ {
            p += 1;
        } else {
            break ;
        }
    }
    let ghost e = p as int;
    while p < len && ((0x30 <= buf[p] && buf[p] <= 0x39) || buf[p] == 0x3b)
        invariant
            e <= p <= len == buf.len(),
            params_end(buf@, p as int) == params_end(buf@, e),
        decreases len - p,
    {
        p += 1;
    }
    let mode0: u32 = if p < len { buf[p] } else { 0 };
    let mode1: u32 = if p < len && p + 1 < len { buf[p + 1] } else { 0 };
    CSIEscape { priv_, arg, mode0, mode1 }
}

/// The palette entry of a direct colour.
pub open spec fn truecolor(r: int, g: int, b: int) -> int {
    0x1000000 + r * 0x10000 + g * 0x100 + b
}

/// The colour that an extended colour selection at position `i` of the
/// parameters names, or -1 where it names none, and how many parameters
/// after `i` it took. `5;n` names palette entry `n`, `2;r;g;b` a direct
/// colour; each component must be at most 255.
pub open spec fn def_color(arg: Seq<i32>, i: int) -> (int, int) {
    let kind = if i + 1 < arg.len() { arg[i + 1] } else { -1i32 };
    if kind == 2 {
        if i + 4 >= arg.len() {
            (-1, 0)
        } else if !(0 <= arg[i + 2] <= 255 && 0 <= arg[i + 3] <= 255 && 0 <= arg[i + 4] <= 255) {
            (-1, 4)
        } else {
            (truecolor(arg[i + 2] as int, arg[i + 3] as int, arg[i + 4] as int), 4)
        }
    } else if kind == 5 {
        if i + 2 >= arg.len() {
            (-1, 0)
        } else if !(0 <= arg[i + 2] <= 255) {
            (-1, 2)
        } else {
            (arg[i + 2] as int, 2)
        }
    } else {
        (-1, 0)
    }
}

/// The pen after one graphic-rendition parameter that takes no further
/// parameters.
pub open spec fn sgr_one(pen: Glyph, a: int) -> Glyph {
    if a == 0 {
        Glyph { mode: ATTR_NULL, fg: DEFAULTFG, bg: DEFAULTBG, ..pen }
    } else if a == 1 {
        Glyph { mode: pen.mode | ATTR_BOLD, ..pen }
    } else if a == 2 {
        Glyph { mode: pen.mode | ATTR_FAINT, ..pen }
    } else if a == 3 {
        Glyph { mode: pen.mode | ATTR_ITALIC, ..pen }
    } else if a == 4 {
        Glyph { mode: pen.mode | ATTR_UNDERLINE, ..pen }
    } else if a == 5 || a == 6 {
        Glyph { mode: pen.mode | ATTR_BLINK, ..pen }
    } else if a == 7 {
        Glyph { mode: pen.mode | ATTR_REVERSE, ..pen }
    } else if a == 8 {
        Glyph { mode: pen.mode | ATTR_INVISIBLE, ..pen }
    } else if a == 9 {
        Glyph { mode: pen.mode | ATTR_STRUCK, ..pen }
    } else if a == 22 {
        Glyph { mode: pen.mode & !ATTR_BOLD_FAINT, ..pen }
    } else if a == 23 {
        Glyph { mode: pen.mode & !ATTR_ITALIC, ..pen }
    } else if a == 24 {
        Glyph { mode: pen.mode & !ATTR_UNDERLINE, ..pen }
    } else if a == 25 {
        Glyph { mode: pen.mode & !ATTR_BLINK, ..pen }
    } else if a == 27 {
        Glyph { mode: pen.mode & !ATTR_REVERSE, ..pen }
    } else if a == 28 {
        Glyph { mode: pen.mode & !ATTR_INVISIBLE, ..pen }
    } else if a == 29 {
        Glyph { mode: pen.mode & !ATTR_STRUCK, ..pen }
    } else if a == 39 {
        Glyph { fg: DEFAULTFG, ..pen }
    } else if a == 49 {
        Glyph { bg: DEFAULTBG, ..pen }
    } else if 30 <= a <= 37 {
        Glyph { fg: (a - 30) as u32, ..pen }
    } else if 40 <= a <= 47 {
        Glyph { bg: (a - 40) as u32, ..pen }
    } else if 90 <= a <= 97 {
        Glyph { fg: (a - 90 + 8) as u32, ..pen }
    } else if 100 <= a <= 107 {
        Glyph { bg: (a - 100 + 8) as u32, ..pen }
    } else {
        pen
    }
}

/// The pen after the graphic-rendition parameters from position `i` on.
/// 38 and 48 select an extended foreground or background colour and take
/// the parameters that name it; a colour that is out of range is ignored.
pub open spec fn pen_set(pen: Glyph, arg: Seq<i32>, i: int) -> Glyph
    decreases arg.len() - i,
{
    if i < 0 || i >= arg.len() {
        pen
    } else if arg[i] == 38 || arg[i] == 48 {
        let (idx, used) = def_color(arg, i);
        let p = if idx < 0 {
            pen
        } else if arg[i] == 38 {
            Glyph { fg: idx as u32, ..pen }
        } else {
            Glyph { bg: idx as u32, ..pen }
        };
        pen_set(p, arg, i + used + 1)
    } else {
        pen_set(sgr_one(pen, arg[i] as int), arg, i + 1)
    }
}

/// The decimal digits of `n`.
pub open spec fn decimal(n: nat) -> Seq<u8>
    decreases n,
{
    if n < 10 {
        seq![(0x30 + n) as u8]
    } else {
        decimal(n / 10).push((0x30 + n % 10) as u8)
    }
}

/// The report of a cursor at column `x` of row `y`, both counted from 0:
/// `ESC [ row ; column R` with both counted from 1.
pub open spec fn cursor_report(x: int, y: int) -> Seq<u8> {
    seq![0x1bu8, 0x5bu8] + decimal((y + 1) as nat) + seq![0x3bu8] + decimal((x + 1) as nat)
        + seq![0x52u8]
}

impl TermView {
    /// The pen changed by graphic-rendition parameters.
    pub open spec fn attrs_set(self, arg: Seq<i32>) -> TermView {
        TermView { c: TCursor { attr: pen_set(self.c.attr, arg, 0), ..self.c }, ..self }
    }

    /// Bytes appended to what is owed to the child process.
    pub open spec fn replied(self, bytes: Seq<u8>) -> TermView {
        TermView { reply: self.reply + bytes, ..self }
    }
}

/// The colour that an extended colour selection at position `i` names, or
/// -1, and how many parameters it took.
pub fn tdefcolor(arg: &Vec<i32>, i: usize) -> (r: (i32, usize))
    ensures
        (r.0 as int, r.1 as int) == def_color(arg@, i as int),
        r.1 <= 4,
        r.0 >= -1,
{
    let len = arg.len();
    if i >= len {
        return (-1, 0);
    }
    let kind: i32 = if i + 1 < len { arg[i + 1] } else { -1 };
    if kind == 2 {
        if len < 5 || i >= len - 4 {
            return (-1, 0);
        }
        let r = arg[i + 2];
        let g = arg[i + 3];
        let b = arg[i + 4];
        if !(0 <= r && r <= 255 && 0 <= g && g <= 255 && 0 <= b && b <= 255) {
            return (-1, 4);
        }
        (0x1000000 + r * 0x10000 + g * 0x100 + b, 4)
    } else if kind == 5 {
        if len < 3 || i >= len - 2 {
            return (-1, 0);
        }
        let v = arg[i + 2];
        if !(0 <= v && v <= 255) {
            return (-1, 2);
        }
        (v, 2)
    } else {
        (-1, 0)
    }
}

/// The pen after one graphic-rendition parameter.
pub(crate) fn sgr_apply(pen: Glyph, a: i32) -> (r: Glyph)
    ensures
        r == sgr_one(pen, a as int),
{
    let mut p = pen;
    if a == 0 {
        p.mode = ATTR_NULL;
        p.fg = DEFAULTFG;
        p.bg = DEFAULTBG;
    } else if a == 1 {
        p.mode = pen.mode | ATTR_BOLD;
    } else if a == 2 {
        p.mode = pen.mode | ATTR_FAINT;
    } else if a == 3 {
        p.mode = pen.mode | ATTR_ITALIC;
    } else if a == 4 {
        p.mode = pen.mode | ATTR_UNDERLINE;
    } else if a == 5 || a == 6 {
        p.mode = pen.mode | ATTR_BLINK;
    } else if a == 7 {
        p.mode = pen.mode | ATTR_REVERSE;
    } else if a == 8 {
        p.mode = pen.mode | ATTR_INVISIBLE;
    } else if a == 9 {
        p.mode = pen.mode | ATTR_STRUCK;
    } else if a == 22 {
        p.mode = pen.mode & !ATTR_BOLD_FAINT;
    } else if a == 23 {
        p.mode = pen.mode & !ATTR_ITALIC;
    } else if a == 24 {
        p.mode = pen.mode & !ATTR_UNDERLINE;
    } else if a == 25 {
        p.mode = pen.mode & !ATTR_BLINK;
    } else if a == 27 {
        p.mode = pen.mode & !ATTR_REVERSE;
    } else if a == 28 {
        p.mode = pen.mode & !ATTR_INVISIBLE;
    } else if a == 29 {
        p.mode = pen.mode & !ATTR_STRUCK;
    } else if a == 39 {
        p.fg = DEFAULTFG;
    } else if a == 49 {
        p.bg = DEFAULTBG;
    } else if 30 <= a && a <= 37 {
        p.fg = (a - 30) as u32;
    } else if 40 <= a && a <= 47 {
        p.bg = (a - 40) as u32;
    } else if 90 <= a && a <= 97 {
        p.fg = (a - 90 + 8) as u32;
    } else if 100 <= a && a <= 107 {
        p.bg = (a - 100 + 8) as u32;
    }
    p
}

/// Changes the pen as graphic-rendition parameters ask: 0 resets it to no
/// attributes and the default colours, 1 to
/// 9 set and 22 to 29 clear attributes, 30 to 37 and 90 to 97 pick the
/// foreground from the first 16 palette entries, 40 to 47 and 100 to 107
/// the background, 38 and 48 an extended colour, 39 and 49 the defaults.
pub fn tsetattr(term: &mut Term, arg: &Vec<i32>)
    requires
        old(term).wf(),
    ensures
        final(term).wf(),
        final(term)@ == old(term)@.attrs_set(arg@),
{
    let mut pen = term.c.attr;
    let mut i: usize = 0;
    while i < arg.len()
        invariant
            0 <= i,
            pen_set(pen, arg@, i as int) == pen_set(old(term).c.attr, arg@, 0),
        decreases arg.len() - i,
    {
        let a = arg[i];
        if a == 38 || a == 48 {
            let (idx, used) = tdefcolor(arg, i);
            if idx >= 0 {
                if a == 38 {
                    pen.fg = idx as u32;
                } else {
                    pen.bg = idx as u32;
                }
            }
            i = i + used + 1;
        } else {
            pen = sgr_apply(pen, a);
            i += 1;
        }
    }
    term.c.attr = pen;
}

/// Appends the decimal digits of `n`.
pub(crate) fn push_decimal(out: &mut Vec<u8>, n: u64)
    ensures
        final(out)@ == old(out)@ + decimal(n as nat),
    decreases n,
{
    if n >= 10 {
        push_decimal(out, n / 10);
    }
    out.push((0x30 + n % 10) as u8);
    proof {
        if n >= 10 {
            assert(out@ =~= old(out)@ + decimal(n as nat));
        } else {
            assert(out@ =~= old(out)@ + decimal(n as nat));
        }
    }
}

/// Appends bytes to what is owed to the child process.
pub fn ttywrite(term: &mut Term, bytes: &Vec<u8>)
    requires
        old(term).wf(),
    ensures
        final(term).wf(),
        final(term)@ == old(term)@.replied(bytes@),
{
    let mut i: usize = 0;
    while i < bytes.len()
        invariant
            0 <= i <= bytes.len(),
            term.wf(),
            term@ == old(term)@.replied(bytes@.subrange(0, i as int)),
        decreases bytes.len() - i,
    {
        term.reply.push(bytes[i]);
        proof {
            assert(term@.reply =~= old(term)@.reply + bytes@.subrange(0, i + 1));
        }
        i += 1;
    }
    proof {
        assert(bytes@.subrange(0, bytes.len() as int) =~= bytes@);
        assert(old(term)@.replied(bytes@.subrange(0, 0)).reply =~= old(term)@.reply);
    }
}

/// The identification that the terminal gives of itself.
pub fn vtiden_bytes() -> (r: Vec<u8>)
    ensures
        r@ == crate::config::vtiden(),
{
    let mut r: Vec<u8> = Vec::new();
    r.push(0x1b);
    r.push(0x5b);
    r.push(0x3f);
    r.push(0x36);
    r.push(0x63);
    assert(r@ =~= crate::config::vtiden());
    r
}

/// The report of the cursor's position.
pub fn cursor_report_bytes(x: u32, y: u32) -> (r: Vec<u8>)
    ensures
        r@ == cursor_report(x as int, y as int),
{
    let mut r: Vec<u8> = Vec::new();
    r.push(0x1b);
    r.push(0x5b);
    push_decimal(&mut r, y as u64 + 1);
    r.push(0x3b);
    push_decimal(&mut r, x as u64 + 1);
    r.push(0x52);
    assert(r@ =~= cursor_report(x as int, y as int));
    r
}

} // verus!
