//! The core of a terminal emulator: a character grid with scrollback that a
//! stream of runes from a child process mutates through a subset of the
//! VT100/xterm control sequences, a text selection over that grid, and the
//! projection of dirty rows into glyph runs for a renderer.
//!
//! Every operation is specified against a mathematical model of the
//! terminal, `term::TermView`; `laws` proves what holds across operations,
//! and `textlaws` what given input does.

pub mod config;
pub mod glyph;
pub mod bits;
pub mod term;
pub mod screen;
pub mod selection;
pub mod scroll;
pub mod resize;
pub mod edit;
pub mod csi;
pub mod modes;
pub mod dispatch;
pub mod input;
pub mod utf8;
pub mod report;
pub mod render;
pub mod color;
pub mod window;
pub mod events;
pub mod timing;
pub mod laws;
pub mod textlaws;
