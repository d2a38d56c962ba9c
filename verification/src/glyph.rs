//! Character cells, the cursor, and the bit sets that describe them.

use vstd::prelude::*;
use crate::config::{DEFAULTBG, DEFAULTFG};

verus! {

/// A Unicode code point as stored in a cell.
pub type Rune = u32;

// The attributes of a cell, one bit each.
pub const ATTR_NULL: u16 = 0x0000;
pub const ATTR_BOLD: u16 = 0x0001;
pub const ATTR_FAINT: u16 = 0x0002;
pub const ATTR_ITALIC: u16 = 0x0004;
pub const ATTR_UNDERLINE: u16 = 0x0008;
pub const ATTR_BLINK: u16 = 0x0010;
pub const ATTR_REVERSE: u16 = 0x0020;
pub const ATTR_INVISIBLE: u16 = 0x0040;
pub const ATTR_STRUCK: u16 = 0x0080;
pub const ATTR_WRAP: u16 = 0x0100;
pub const ATTR_WIDE: u16 = 0x0200;
pub const ATTR_WDUMMY: u16 = 0x0400;
pub const ATTR_BOLD_FAINT: u16 = 0x0003;
/// Every attribute that a graphic-rendition sequence can set.
pub const ATTR_RENDITION: u16 = 0x00ff;

// The state flags of the cursor.
pub const CURSOR_DEFAULT: u8 = 0;
pub const CURSOR_WRAPNEXT: u8 = 1;
pub const CURSOR_ORIGIN: u8 = 2;

// The modes of the terminal, one bit each.
pub const MODE_WRAP: u32 = 0x000001;
pub const MODE_INSERT: u32 = 0x000002;
pub const MODE_APPKEYPAD: u32 = 0x000004;
pub const MODE_ALTSCREEN: u32 = 0x000008;
pub const MODE_CRLF: u32 = 0x000010;
pub const MODE_MOUSEBTN: u32 = 0x000020;
pub const MODE_MOUSEMOTION: u32 = 0x000040;
pub const MODE_REVERSE: u32 = 0x000080;
pub const MODE_KBDLOCK: u32 = 0x000100;
pub const MODE_HIDE: u32 = 0x000200;
pub const MODE_ECHO: u32 = 0x000400;
pub const MODE_APPCURSOR: u32 = 0x000800;
pub const MODE_MOUSESGR: u32 = 0x001000;
pub const MODE_8BIT: u32 = 0x002000;
pub const MODE_BLINK: u32 = 0x004000;
pub const MODE_FBLINK: u32 = 0x008000;
pub const MODE_FOCUS: u32 = 0x010000;
pub const MODE_MOUSEX10: u32 = 0x020000;
pub const MODE_MOUSEMANY: u32 = 0x040000;
pub const MODE_BRCKTPASTE: u32 = 0x080000;
pub const MODE_PRINT: u32 = 0x100000;
/// Any of the four mouse-reporting modes.
pub const MODE_MOUSE: u32 = 0x060060;

// The character sets that a slot of the character-set table can hold.
pub const CS_GRAPHIC0: u8 = 0;
pub const CS_GRAPHIC1: u8 = 1;
pub const CS_UK: u8 = 2;
pub const CS_USA: u8 = 3;
pub const CS_MULTI: u8 = 4;
pub const CS_GER: u8 = 5;
pub const CS_FIN: u8 = 6;

// The state flags of the window.
pub const WIN_VISIBLE: u8 = 1;
pub const WIN_FOCUSED: u8 = 2;

/// The code point of a blank cell.
pub const SPACE: u32 = 0x20;

/// One character cell.
#[derive(Clone, Copy, Debug, PartialEq, Eq, Structural)]
pub struct Glyph {
    /// character code
    pub u: u32,
    /// attribute flags
    pub mode: u16,
    /// foreground
    pub fg: u32,
    /// background
    pub bg: u32,
}

/// The cursor: where the next character goes and how it will look.
#[derive(Clone, Copy, Debug, PartialEq, Eq, Structural)]
pub struct TCursor {
    /// current char attributes
    pub attr: Glyph,
    pub x: i32,
    pub y: i32,
    pub state: u8,
}

/// A cell position, column then row.
#[derive(Clone, Copy, Debug, PartialEq, Eq, Structural)]
pub struct Coords {
    pub x: i32,
    pub y: i32,
}

impl Glyph {
    /// Whether any bit of `attr` is set on this cell.
    pub open spec fn has(self, attr: u16) -> bool {
        self.mode & attr != 0
    }

    /// The cell that an erase leaves behind under pen `pen`: a space that
    /// keeps the pen's colours and none of its attributes.
    pub open spec fn blank(pen: Glyph) -> Glyph {
        Glyph { u: SPACE, mode: ATTR_NULL, fg: pen.fg, bg: pen.bg }
    }

    pub fn is_set(&self, attr: u16) -> (r: bool)
        ensures
            r == self.has(attr),
    {
        self.mode & attr != 0
    }
}

impl TCursor {
    /// The cursor after a reset: home position, default colours, no flags.
    pub open spec fn initial() -> TCursor {
        TCursor {
            attr: Glyph { u: 0, mode: ATTR_NULL, fg: DEFAULTFG, bg: DEFAULTBG },
            x: 0,
            y: 0,
            state: CURSOR_DEFAULT,
        }
    }

    /// Origin mode: rows are counted from the top of the scroll region.
    pub open spec fn origin(self) -> bool {
        self.state & CURSOR_ORIGIN != 0
    }

    /// The next printable character first moves to the following line.
    pub open spec fn wrapnext(self) -> bool {
        self.state & CURSOR_WRAPNEXT != 0
    }

    pub fn new() -> (c: TCursor)
        ensures
            c == TCursor::initial(),
    {
        TCursor {
            attr: Glyph { u: 0, mode: ATTR_NULL, fg: DEFAULTFG, bg: DEFAULTBG },
            x: 0,
            y: 0,
            state: CURSOR_DEFAULT,
        }
    }
}

/// `v` limited to the range from `lo` to `hi`.
pub open spec fn limit(v: int, lo: int, hi: int) -> int {
    if v < lo {
        lo
    } else if v > hi {
        hi
    } else {
        v
    }
}

} // verus!
