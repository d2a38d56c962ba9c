//! Compile-time configuration of the terminal: sizes, default colours,
//! cursor shape and timing constants.

use vstd::prelude::*;

verus! {

/// Default number of rows kept in the scrollback history.
pub const HISTSIZE: usize = 16;

/// Distance between two default tab stops.
pub const TABSPACES: i32 = 8;

/// Default cursor shape: 2 block, 4 underline, 6 bar, 7 snowman.
pub const CURSORSHAPE: i32 = 2;

/// Thickness in pixels of the underline and bar cursors.
pub const CURSORTHICKNESS: i32 = 2;

/// Width in pixels of the border around the character grid.
pub const BORDERPX: i32 = 2;

/// Number of palette slots: the 256 indexed colours and the extra ones.
pub const COLOURS_SIZE: usize = 258;

/// Palette index of the default foreground.
pub const DEFAULTFG: u32 = 7;

/// Palette index of the default background.
pub const DEFAULTBG: u32 = 0;

/// Palette index of the cursor colour.
pub const DEFAULTCS: u32 = 256;

/// Palette index of the cursor colour in reverse video.
pub const DEFAULTRCS: u32 = 257;

/// Two clicks within this many milliseconds select a word.
pub const DOUBLECLICKTIMEOUT: i64 = 300;

/// Three clicks within this many milliseconds select a line.
pub const TRIPLECLICKTIMEOUT: i64 = 600;

/// Upper bound on redraws per second.
pub const XFPS: i64 = 120;

/// Blink period in milliseconds; 0 disables blinking.
pub const BLINKTIMEOUT: i64 = 800;

/// Reply to a device-attributes request: a VT102.
pub open spec fn vtiden() -> Seq<u8> {
    seq![0x1bu8, 0x5bu8, 0x3fu8, 0x36u8, 0x63u8]
}

} // verus!
