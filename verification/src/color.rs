//! The palette: which colour each of its entries stands for.

use vstd::prelude::*;
use crate::config::COLOURS_SIZE;

verus! {

/// A colour by its components, each from 0 to 0xffff.
#[derive(Clone, Copy, Debug, PartialEq, Eq, Structural)]
pub struct RenderColor {
    pub red: u16,
    pub green: u16,
    pub blue: u16,
    pub alpha: u16,
}

/// How the host finds the colour of a palette entry.
#[derive(Clone, Copy, Debug, PartialEq, Eq)]
pub enum ColorSpec<'a> {
    /// by its components
    Value(RenderColor),
    /// by looking up a name
    Name(&'a str),
    /// the entry has no colour
    Missing,
}

/// The drawing context: the colour of every palette entry.
#[derive(Debug)]
pub struct DC {
    pub col: Vec<ColorSpec<'static>>,
}

/// The intensity, from 0 to 0xffff, of step `x` of the six steps of the
/// colour cube; outside the six steps the value wraps around.
pub open spec fn sixd(x: int) -> int {
    if x == 0 {
        0
    } else {
        (0x3737 + 0x2828 * x) % 0x10000
    }
}

/// The name of palette entry `i` where it has one: the 16 colours at the
/// start of the palette and the extra colours after entry 255.
pub open spec fn colour_name(i: int) -> Option<&'static str> {
    if i == 0 {
        Some("black")
    } else if i == 1 {
        Some("red3")
    } else if i == 2 {
        Some("green3")
    } else if i == 3 {
        Some("yellow3")
    } else if i == 4 {
        Some("blue2")
    } else if i == 5 {
        Some("magenta3")
    } else if i == 6 {
        Some("cyan3")
    } else if i == 7 {
        Some("gray90")
    } else if i == 8 {
        Some("gray50")
    } else if i == 9 {
        Some("red")
    } else if i == 10 {
        Some("green")
    } else if i == 11 {
        Some("yellow")
    } else if i == 12 {
        Some("#5c5cff")
    } else if i == 13 {
        Some("magenta")
    } else if i == 14 {
        Some("cyan")
    } else if i == 15 {
        Some("white")
    } else if i == 256 {
        Some("#cccccc")
    } else if i == 257 {
        Some("#555555")
    } else {
        None
    }
}

/// The colour of entry `i` of the 240 computed entries: entries 16 to 231
/// form a cube of six steps of red, green and blue, entries 232 to 255 a
/// ramp of 24 greys.
pub open spec fn computed_color(i: int) -> RenderColor {
    if i < 6 * 6 * 6 + 16 {
        RenderColor {
            red: sixd(((i - 16) / 36) % 6) as u16,
            green: sixd(((i - 16) / 6) % 6) as u16,
            blue: sixd((i - 16) % 6) as u16,
            alpha: 0xffff,
        }
    } else {
        let v = (0x0808 + 0x0a0a * (i - (6 * 6 * 6 + 16))) as u16;
        RenderColor { red: v, green: v, blue: v, alpha: 0xffff }
    }
}

/// How the host finds the colour of palette entry `i`: by the given name
/// where there is one, by its components for entries 16 to 255, else by
/// the configured name of the entry, if it has one.
pub open spec fn color_spec<'a>(i: int, name: Option<&'a str>) -> ColorSpec<'a> {
    match name {
        Some(n) => ColorSpec::Name(n),
        None => {
            if 16 <= i <= 255 {
                ColorSpec::Value(computed_color(i))
            } else {
                match colour_name(i) {
                    Some(n) => ColorSpec::Name(n),
                    None => ColorSpec::Missing,
                }
            }
        },
    }
}

/// The intensity of step `x` of the colour cube.
pub fn sixd_to_16bit(x: i32) -> (r: u16)
    ensures
        r == sixd(x as int),
{
    if x == 0 {
        0
    } else {
        let v: i64 = 0x3737 + 0x2828 * (x as i64);
        let m: i64 = v % 0x10000;
        let w: i64 = if m < 0 { m + 0x10000 } else { m };
        w as u16
    }
}

/// The configured name of palette entry `i`, if it has one.
pub fn get_colourname(i: i32) -> (r: Option<&'static str>)
    ensures
        r == colour_name(i as int),
{
    if i == 0 {
        Some("black")
    } else if i == 1 {
        Some("red3")
    } else if i == 2 {
        Some("green3")
    } else if i == 3 {
        Some("yellow3")
    } else if i == 4 {
        Some("blue2")
    } else if i == 5 {
        Some("magenta3")
    } else if i == 6 {
        Some("cyan3")
    } else if i == 7 {
        Some("gray90")
    } else if i == 8 {
        Some("gray50")
    } else if i == 9 {
        Some("red")
    } else if i == 10 {
        Some("green")
    } else if i == 11 {
        Some("yellow")
    } else if i == 12 {
        Some("#5c5cff")
    } else if i == 13 {
        Some("magenta")
    } else if i == 14 {
        Some("cyan")
    } else if i == 15 {
        Some("white")
    } else if i == 256 {
        Some("#cccccc")
    } else if i == 257 {
        Some("#555555")
    } else {
        None
    }
}

/// Says how the host finds the colour of palette entry `i`, for which
/// `name` may give a name.
pub fn xloadcolor<'a>(i: i32, name: Option<&'a str>) -> (r: ColorSpec<'a>)
    ensures
        r == color_spec(i as int, name),
{
    match name {
        Some(n) => ColorSpec::Name(n),
        None => {
            if 16 <= i && i <= 255 {
                if i < 6 * 6 * 6 + 16 {
                    // same colors as xterm
                    ColorSpec::Value(
                        RenderColor {
                            red: sixd_to_16bit(((i - 16) / 36) % 6),
                            green: sixd_to_16bit(((i - 16) / 6) % 6),
                            blue: sixd_to_16bit((i - 16) % 6),
                            alpha: 0xffff,
                        },
                    )
                } else {
                    // greyscale
                    let v: u16 = (0x0808 + 0x0a0a * (i - (6 * 6 * 6 + 16))) as u16;
                    ColorSpec::Value(RenderColor { red: v, green: v, blue: v, alpha: 0xffff })
                }
            } else {
                match get_colourname(i) {
                    Some(n) => ColorSpec::Name(n),
                    None => ColorSpec::Missing,
                }
            }
        },
    }
}

/// Fills the palette: entry `i` gets the colour that belongs to it when
/// no name is given.
pub fn xloadcols(dc: &mut DC)
    ensures
        final(dc).col.len() == COLOURS_SIZE,
        forall|i: int|
            0 <= i < COLOURS_SIZE ==> #[trigger] final(dc).col[i] == color_spec(i, None),
{
    let mut col: Vec<ColorSpec<'static>> = Vec::new();
    let mut i: i32 = 0;
    while i < COLOURS_SIZE as i32
        invariant
            0 <= i <= COLOURS_SIZE,
            col.len() == i,
            forall|k: int| 0 <= k < i ==> #[trigger] col[k] == color_spec(k, None),
        decreases COLOURS_SIZE - i,
    {
        let c = xloadcolor(i, None);
        col.push(c);
        i += 1;
    }
    dc.col = col;
}

} // verus!
