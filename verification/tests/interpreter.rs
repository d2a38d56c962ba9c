use stru::glyph::{
    ATTR_BOLD, ATTR_ITALIC, ATTR_REVERSE, ATTR_UNDERLINE, ATTR_WDUMMY, ATTR_WIDE, ATTR_WRAP,
    CS_GRAPHIC0, CS_USA, CURSOR_ORIGIN, CURSOR_WRAPNEXT, MODE_ALTSCREEN, MODE_APPKEYPAD,
    MODE_BRCKTPASTE, MODE_HIDE, MODE_INSERT, MODE_MOUSE, MODE_MOUSEBTN, MODE_MOUSEMANY, MODE_WRAP,
};
use stru::input::{tputc, tputs};
use stru::render::draw_rows;
use stru::term::{tnew, EscState, RequestKind, Term, TimeSpec};

fn zero() -> TimeSpec {
    TimeSpec { tv_sec: 0, tv_nsec: 0 }
}

fn feed(term: &mut Term, s: &str) {
    for ch in s.chars() {
        tputc(term, ch as u32);
    }
}

fn rune(term: &Term, x: i32, y: i32) -> u32 {
    term.glyph_at(x, y, false).unwrap().u
}

fn row_text(term: &Term, y: i32, n: i32) -> String {
    let mut s = String::new();
    for x in 0..n {
        s.push(char::from_u32(rune(term, x, y)).unwrap());
    }
    s
}

#[test]
fn erase_display_all_blanks_every_cell_and_dirties_every_row() {
    let mut t = tnew(80, 24, 16, zero());
    for y in 0..24 {
        feed(&mut t, &format!("\x1b[{};1H", y + 1));
        for _ in 0..80 {
            tputc(&mut t, 'A' as u32);
        }
    }
    for y in 0..24 {
        for x in 0..80 {
            assert_eq!(rune(&t, x, y), 'A' as u32);
        }
    }
    feed(&mut t, "\x1b[44m");
    let _ = draw_rows(&mut t);
    for y in 0..24 {
        assert!(!t.is_dirty(y));
    }
    feed(&mut t, "\x1b[2J");
    for y in 0..24 {
        assert!(t.is_dirty(y));
        for x in 0..80 {
            let g = t.glyph_at(x, y, false).unwrap();
            assert_eq!(g.u, ' ' as u32);
            assert_eq!(g.bg, 4);
            assert_eq!(g.mode, 0);
        }
    }
}

#[test]
fn sgr_bold_red_then_text_advances_cursor_by_two() {
    let mut t = tnew(80, 24, 16, zero());
    feed(&mut t, "\x1b[5;11H");
    let before = t.cursor();
    assert_eq!((before.x, before.y), (10, 4));
    feed(&mut t, "\x1b[1;31mHi");
    let c = t.cursor();
    assert_eq!(c.attr.mode & ATTR_BOLD, ATTR_BOLD);
    assert_eq!(c.attr.fg, 1);
    assert_eq!((c.x, c.y), (12, 4));
    let h = t.glyph_at(10, 4, false).unwrap();
    let i = t.glyph_at(11, 4, false).unwrap();
    assert_eq!(h.u, 'H' as u32);
    assert_eq!(i.u, 'i' as u32);
    assert_eq!(h.mode, ATTR_BOLD);
    assert_eq!(h.fg, 1);
    assert_eq!(i.fg, 1);
    assert_eq!(h.bg, 0);
}

#[test]
fn full_row_then_one_more_wraps_to_next_line() {
    let mut t = tnew(10, 4, 16, zero());
    feed(&mut t, "0123456789");
    let c = t.cursor();
    assert_eq!((c.x, c.y), (9, 0));
    assert_eq!(c.state & CURSOR_WRAPNEXT, CURSOR_WRAPNEXT);
    assert_eq!(t.glyph_at(9, 0, false).unwrap().mode & ATTR_WRAP, 0);
    feed(&mut t, "X");
    assert_eq!(rune(&t, 0, 1), 'X' as u32);
    assert_eq!(t.glyph_at(9, 0, false).unwrap().mode & ATTR_WRAP, ATTR_WRAP);
    assert_eq!(row_text(&t, 0, 10), "0123456789");
    let c = t.cursor();
    assert_eq!((c.x, c.y), (1, 1));
    assert_eq!(c.state & CURSOR_WRAPNEXT, 0);
}

#[test]
fn without_wrap_mode_last_cell_is_overwritten() {
    let mut t = tnew(5, 2, 16, zero());
    feed(&mut t, "\x1b[?7l");
    assert_eq!(t.mode() & MODE_WRAP, 0);
    feed(&mut t, "abcdefg");
    assert_eq!(row_text(&t, 0, 5), "abcdg");
    assert_eq!(row_text(&t, 1, 5), "     ");
    assert_eq!(t.cursor().y, 0);
}

#[test]
fn printed_text_reads_back_from_the_row() {
    let mut t = tnew(20, 3, 16, zero());
    feed(&mut t, "hello, world");
    assert_eq!(row_text(&t, 0, 12), "hello, world");
    assert_eq!(t.cursor().x, 12);
    assert_eq!(t.cursor().y, 0);
}

#[test]
fn wide_rune_takes_two_cells() {
    let mut t = tnew(10, 2, 16, zero());
    tputc(&mut t, 0x4e2d);
    tputc(&mut t, 'a' as u32);
    let w = t.glyph_at(0, 0, false).unwrap();
    let d = t.glyph_at(1, 0, false).unwrap();
    assert_eq!(w.u, 0x4e2d);
    assert_eq!(w.mode & ATTR_WIDE, ATTR_WIDE);
    assert_eq!(d.mode, ATTR_WDUMMY);
    assert_eq!(d.u, 0);
    assert_eq!(rune(&t, 2, 0), 'a' as u32);
    assert_eq!(t.cursor().x, 3);
}

#[test]
fn overwriting_half_of_a_wide_rune_blanks_the_other_half() {
    let mut t = tnew(10, 2, 16, zero());
    tputc(&mut t, 0x4e2d);
    feed(&mut t, "\rx");
    assert_eq!(rune(&t, 0, 0), 'x' as u32);
    let d = t.glyph_at(1, 0, false).unwrap();
    assert_eq!(d.u, ' ' as u32);
    assert_eq!(d.mode & ATTR_WDUMMY, 0);
    tputc(&mut t, 0x4e2d);
    feed(&mut t, "\x1b[1;3Hy");
    let w = t.glyph_at(1, 0, false).unwrap();
    assert_eq!(w.u, ' ' as u32);
    assert_eq!(w.mode & ATTR_WIDE, 0);
    assert_eq!(rune(&t, 2, 0), 'y' as u32);
}

#[test]
fn wide_rune_at_last_column_moves_to_next_row() {
    let mut t = tnew(4, 3, 16, zero());
    feed(&mut t, "abc");
    tputc(&mut t, 0x4e2d);
    assert_eq!(rune(&t, 3, 0), ' ' as u32);
    assert_eq!(rune(&t, 0, 1), 0x4e2d);
    assert_eq!(t.cursor().x, 2);
    assert_eq!(t.cursor().y, 1);
}

#[test]
fn insert_mode_shifts_the_rest_of_the_row() {
    let mut t = tnew(8, 2, 16, zero());
    feed(&mut t, "abcdef\x1b[1;3H\x1b[4hXY");
    assert_eq!(t.mode() & MODE_INSERT, MODE_INSERT);
    assert_eq!(row_text(&t, 0, 8), "abXYcdef");
    feed(&mut t, "\x1b[4l\x1b[1;1HZ");
    assert_eq!(row_text(&t, 0, 8), "ZbXYcdef");
}

#[test]
fn carriage_return_backspace_and_line_feed_move_the_cursor() {
    let mut t = tnew(10, 5, 16, zero());
    feed(&mut t, "abc\x08");
    assert_eq!(t.cursor().x, 2);
    feed(&mut t, "\n");
    assert_eq!((t.cursor().x, t.cursor().y), (2, 1));
    feed(&mut t, "\r");
    assert_eq!((t.cursor().x, t.cursor().y), (0, 1));
    feed(&mut t, "\x08\x08");
    assert_eq!(t.cursor().x, 0);
    feed(&mut t, "\x1b[20h\x1b[1;5H\n");
    assert_eq!((t.cursor().x, t.cursor().y), (0, 1));
}

#[test]
fn tab_moves_to_the_next_stop_of_eight() {
    let mut t = tnew(30, 2, 16, zero());
    feed(&mut t, "\t");
    assert_eq!(t.cursor().x, 8);
    feed(&mut t, "a\t");
    assert_eq!(t.cursor().x, 16);
    feed(&mut t, "\t\t\t");
    assert_eq!(t.cursor().x, 29);
    feed(&mut t, "\x1b[2Z");
    assert_eq!(t.cursor().x, 16);
    feed(&mut t, "\x1b[1;1H\x1b[2I");
    assert_eq!(t.cursor().x, 16);
}

#[test]
fn tab_stops_can_be_set_and_cleared() {
    let mut t = tnew(30, 2, 16, zero());
    assert!(t.is_tab(8));
    assert!(!t.is_tab(0));
    assert!(!t.is_tab(4));
    feed(&mut t, "\x1b[1;5H\x1bH");
    assert!(t.is_tab(4));
    feed(&mut t, "\r\t");
    assert_eq!(t.cursor().x, 4);
    feed(&mut t, "\x1b[g\r\t");
    assert_eq!(t.cursor().x, 8);
    feed(&mut t, "\x1b[3g\r\t");
    assert_eq!(t.cursor().x, 29);
    assert!(!t.is_tab(8));
}

#[test]
fn cursor_movement_sequences_are_clamped_to_the_screen() {
    let mut t = tnew(10, 5, 16, zero());
    feed(&mut t, "\x1b[3;4H");
    assert_eq!((t.cursor().x, t.cursor().y), (3, 2));
    feed(&mut t, "\x1b[A");
    assert_eq!((t.cursor().x, t.cursor().y), (3, 1));
    feed(&mut t, "\x1b[9A");
    assert_eq!(t.cursor().y, 0);
    feed(&mut t, "\x1b[2B");
    assert_eq!(t.cursor().y, 2);
    feed(&mut t, "\x1b[99B");
    assert_eq!(t.cursor().y, 4);
    feed(&mut t, "\x1b[2C");
    assert_eq!(t.cursor().x, 5);
    feed(&mut t, "\x1b[99999999999C");
    assert_eq!(t.cursor().x, 9);
    feed(&mut t, "\x1b[3D");
    assert_eq!(t.cursor().x, 6);
    feed(&mut t, "\x1b[99D");
    assert_eq!(t.cursor().x, 0);
    feed(&mut t, "\x1b[4G");
    assert_eq!(t.cursor().x, 3);
    feed(&mut t, "\x1b[2d");
    assert_eq!((t.cursor().x, t.cursor().y), (3, 1));
    feed(&mut t, "\x1b[2E");
    assert_eq!((t.cursor().x, t.cursor().y), (0, 3));
    feed(&mut t, "\x1b[5C\x1b[F");
    assert_eq!((t.cursor().x, t.cursor().y), (0, 2));
    feed(&mut t, "\x1b[H");
    assert_eq!((t.cursor().x, t.cursor().y), (0, 0));
    feed(&mut t, "\x1b[100;100H");
    assert_eq!((t.cursor().x, t.cursor().y), (9, 4));
}

#[test]
fn erase_in_line_variants() {
    let mut t = tnew(6, 2, 16, zero());
    feed(&mut t, "abcdef\x1b[1;3H\x1b[K");
    assert_eq!(row_text(&t, 0, 6), "ab    ");
    feed(&mut t, "\x1b[1;1Habcdef\x1b[1;3H\x1b[1K");
    assert_eq!(row_text(&t, 0, 6), "   def");
    feed(&mut t, "\x1b[2K");
    assert_eq!(row_text(&t, 0, 6), "      ");
}

#[test]
fn erase_in_display_below_and_above() {
    let mut t = tnew(4, 3, 16, zero());
    feed(&mut t, "aaaa\r\nbbbb\r\ncccc\x1b[2;3H\x1b[J");
    assert_eq!(row_text(&t, 0, 4), "aaaa");
    assert_eq!(row_text(&t, 1, 4), "bb  ");
    assert_eq!(row_text(&t, 2, 4), "    ");
    feed(&mut t, "\x1b[1;1Haaaa\r\nbbbb\r\ncccc\x1b[2;3H\x1b[1J");
    assert_eq!(row_text(&t, 0, 4), "    ");
    assert_eq!(row_text(&t, 1, 4), "   b");
    assert_eq!(row_text(&t, 2, 4), "cccc");
    feed(&mut t, "\x1b[1;1Hzzzz\x1b[5J");
    assert_eq!(row_text(&t, 0, 4), "zzzz");
}

#[test]
fn erase_uses_the_current_background() {
    let mut t = tnew(4, 2, 16, zero());
    feed(&mut t, "abcd\x1b[1;31;42m\x1b[1;1H\x1b[2X");
    let g = t.glyph_at(0, 0, false).unwrap();
    assert_eq!((g.u, g.mode, g.fg, g.bg), (' ' as u32, 0, 1, 2));
    let g = t.glyph_at(2, 0, false).unwrap();
    assert_eq!((g.u, g.fg, g.bg), ('c' as u32, 7, 0));
}

#[test]
fn insert_and_delete_characters() {
    let mut t = tnew(6, 2, 16, zero());
    feed(&mut t, "abcdef\x1b[1;2H\x1b[2@");
    assert_eq!(row_text(&t, 0, 6), "a  bcd");
    feed(&mut t, "\x1b[3P");
    assert_eq!(row_text(&t, 0, 6), "acd   ");
    feed(&mut t, "\x1b[99P");
    assert_eq!(row_text(&t, 0, 6), "a     ");
    feed(&mut t, "\x1b[1;1Habcdef\x1b[1;5H\x1b[99@");
    assert_eq!(row_text(&t, 0, 6), "abcd  ");
}

#[test]
fn insert_and_delete_lines_inside_the_region() {
    let mut t = tnew(2, 4, 16, zero());
    feed(&mut t, "aa\r\nbb\r\ncc\r\ndd\x1b[2;1H\x1b[L");
    assert_eq!(row_text(&t, 0, 2), "aa");
    assert_eq!(row_text(&t, 1, 2), "  ");
    assert_eq!(row_text(&t, 2, 2), "bb");
    assert_eq!(row_text(&t, 3, 2), "cc");
    feed(&mut t, "\x1b[2M");
    assert_eq!(row_text(&t, 1, 2), "cc");
    assert_eq!(row_text(&t, 2, 2), "  ");
    assert_eq!(row_text(&t, 3, 2), "  ");
    assert_eq!(t.hist_len(), 0);
}

#[test]
fn scroll_region_confines_line_feeds() {
    let mut t = tnew(2, 5, 16, zero());
    feed(&mut t, "00\r\n11\r\n22\r\n33\r\n44");
    feed(&mut t, "\x1b[2;4r");
    assert_eq!((t.top(), t.bot()), (1, 3));
    assert_eq!((t.cursor().x, t.cursor().y), (0, 0));
    feed(&mut t, "\x1b[4;1H\n");
    assert_eq!(row_text(&t, 0, 2), "00");
    assert_eq!(row_text(&t, 1, 2), "22");
    assert_eq!(row_text(&t, 2, 2), "33");
    assert_eq!(row_text(&t, 3, 2), "  ");
    assert_eq!(row_text(&t, 4, 2), "44");
    assert_eq!(t.hist_len(), 0);
    feed(&mut t, "\x1b[2;1H\x1bM");
    assert_eq!(row_text(&t, 1, 2), "  ");
    assert_eq!(row_text(&t, 2, 2), "22");
    assert_eq!(row_text(&t, 3, 2), "33");
    feed(&mut t, "\x1b[r");
    assert_eq!((t.top(), t.bot()), (0, 4));
    feed(&mut t, "\x1b[4;2r");
    assert_eq!((t.top(), t.bot()), (1, 3));
}

#[test]
fn origin_mode_counts_rows_from_the_region() {
    let mut t = tnew(5, 6, 16, zero());
    feed(&mut t, "\x1b[3;5r\x1b[?6h");
    assert_eq!(t.cursor().state & CURSOR_ORIGIN, CURSOR_ORIGIN);
    assert_eq!((t.cursor().x, t.cursor().y), (0, 2));
    feed(&mut t, "\x1b[2;2H");
    assert_eq!((t.cursor().x, t.cursor().y), (1, 3));
    feed(&mut t, "\x1b[9;1H");
    assert_eq!(t.cursor().y, 4);
    feed(&mut t, "\x1b[9A");
    assert_eq!(t.cursor().y, 2);
    feed(&mut t, "\x1b[?6l");
    assert_eq!(t.cursor().state & CURSOR_ORIGIN, 0);
    assert_eq!((t.cursor().x, t.cursor().y), (0, 0));
}

#[test]
fn scroll_up_and_down_sequences() {
    let mut t = tnew(2, 3, 16, zero());
    feed(&mut t, "aa\r\nbb\r\ncc\x1b[S");
    assert_eq!(row_text(&t, 0, 2), "bb");
    assert_eq!(row_text(&t, 1, 2), "cc");
    assert_eq!(row_text(&t, 2, 2), "  ");
    assert_eq!(t.hist_len(), 1);
    assert_eq!(t.hist_glyph(0, 0).unwrap().u, 'a' as u32);
    feed(&mut t, "\x1b[2T");
    assert_eq!(row_text(&t, 0, 2), "  ");
    assert_eq!(row_text(&t, 1, 2), "  ");
    assert_eq!(row_text(&t, 2, 2), "bb");
}

#[test]
fn sgr_sets_and_clears_attributes() {
    let mut t = tnew(10, 2, 16, zero());
    feed(&mut t, "\x1b[1;3;4;7m");
    assert_eq!(t.cursor().attr.mode, ATTR_BOLD | ATTR_ITALIC | ATTR_UNDERLINE | ATTR_REVERSE);
    feed(&mut t, "\x1b[22;24m");
    assert_eq!(t.cursor().attr.mode, ATTR_ITALIC | ATTR_REVERSE);
    feed(&mut t, "\x1b[m");
    assert_eq!(t.cursor().attr.mode, 0);
    feed(&mut t, "\x1b[2;5;8;9m");
    assert_eq!(t.cursor().attr.mode, 0x02 | 0x10 | 0x40 | 0x80);
    feed(&mut t, "\x1b[25;28;29;23;27m");
    assert_eq!(t.cursor().attr.mode, 0x02);
}

#[test]
fn sgr_sets_colours() {
    let mut t = tnew(10, 2, 16, zero());
    feed(&mut t, "\x1b[35;46m");
    assert_eq!((t.cursor().attr.fg, t.cursor().attr.bg), (5, 6));
    feed(&mut t, "\x1b[93;104m");
    assert_eq!((t.cursor().attr.fg, t.cursor().attr.bg), (11, 12));
    feed(&mut t, "\x1b[38;5;200;48;5;17m");
    assert_eq!((t.cursor().attr.fg, t.cursor().attr.bg), (200, 17));
    feed(&mut t, "\x1b[38;2;1;2;3m");
    assert_eq!(t.cursor().attr.fg, 0x1000000 + 0x10000 + 0x200 + 3);
    feed(&mut t, "\x1b[48;2;255;255;255m");
    assert_eq!(t.cursor().attr.bg, 0x1ffffff);
    feed(&mut t, "\x1b[39;49m");
    assert_eq!((t.cursor().attr.fg, t.cursor().attr.bg), (7, 0));
}

#[test]
fn sgr_ignores_colours_out_of_range() {
    let mut t = tnew(10, 2, 16, zero());
    feed(&mut t, "\x1b[31m\x1b[38;5;256m");
    assert_eq!(t.cursor().attr.fg, 1);
    feed(&mut t, "\x1b[38;2;0;300;0m");
    assert_eq!(t.cursor().attr.fg, 1);
    feed(&mut t, "\x1b[38;5m");
    assert_eq!(t.cursor().attr.fg, 1);
    assert_eq!(t.cursor().attr.mode, 0x10);
    feed(&mut t, "\x1b[38;9;4m");
    assert_eq!(t.cursor().attr.fg, 1);
    assert_eq!(t.cursor().attr.mode, 0x08 | 0x10 | 0x80);
}

#[test]
fn sgr_reset_twice_is_once() {
    let mut t = tnew(10, 2, 16, zero());
    feed(&mut t, "\x1b[1;4;31;42m\x1b[0m");
    let once = t.cursor();
    feed(&mut t, "\x1b[0m");
    let twice = t.cursor();
    assert_eq!(once, twice);
    assert_eq!((once.attr.mode, once.attr.fg, once.attr.bg), (0, 7, 0));
    assert_eq!(t.esc(), EscState::Ground);
}

#[test]
fn device_status_report_replies_with_cursor_position() {
    let mut t = tnew(80, 24, 16, zero());
    feed(&mut t, "\x1b[12;34H\x1b[6n");
    assert_eq!(t.take_reply(), b"\x1b[12;34R".to_vec());
    assert_eq!(t.take_reply(), Vec::<u8>::new());
    feed(&mut t, "\x1b[5n");
    assert_eq!(t.take_reply(), Vec::<u8>::new());
    feed(&mut t, "\x1b[1;1H\x1b[6n\x1b[6n");
    assert_eq!(t.take_reply(), b"\x1b[1;1R\x1b[1;1R".to_vec());
}

#[test]
fn device_attributes_reply_identifies_the_terminal() {
    let mut t = tnew(80, 24, 16, zero());
    feed(&mut t, "\x1b[c");
    assert_eq!(t.take_reply(), b"\x1b[?6c".to_vec());
    feed(&mut t, "\x1bZ");
    assert_eq!(t.take_reply(), b"\x1b[?6c".to_vec());
    tputc(&mut t, 0x9a);
    assert_eq!(t.take_reply(), b"\x1b[?6c".to_vec());
    feed(&mut t, "\x1b[1c");
    assert_eq!(t.take_reply(), Vec::<u8>::new());
}

#[test]
fn private_modes_set_and_reset() {
    let mut t = tnew(10, 3, 16, zero());
    feed(&mut t, "\x1b[?25l");
    assert_eq!(t.mode() & MODE_HIDE, MODE_HIDE);
    feed(&mut t, "\x1b[?25h");
    assert_eq!(t.mode() & MODE_HIDE, 0);
    feed(&mut t, "\x1b[?1000h");
    assert_eq!(t.mode() & MODE_MOUSE, MODE_MOUSEBTN);
    feed(&mut t, "\x1b[?1003h");
    assert_eq!(t.mode() & MODE_MOUSE, MODE_MOUSEMANY);
    feed(&mut t, "\x1b[?1003l");
    assert_eq!(t.mode() & MODE_MOUSE, 0);
    feed(&mut t, "\x1b[?2004h\x1b=");
    assert_eq!(t.mode() & MODE_BRCKTPASTE, MODE_BRCKTPASTE);
    assert_eq!(t.mode() & MODE_APPKEYPAD, MODE_APPKEYPAD);
    feed(&mut t, "\x1b>\x1b[?2004;7l");
    assert_eq!(t.mode() & (MODE_BRCKTPASTE | MODE_APPKEYPAD | MODE_WRAP), 0);
    feed(&mut t, "\x1b[?4242h");
    assert_eq!(t.mode() & MODE_MOUSE, 0);
}

#[test]
fn alternate_screen_keeps_primary_content() {
    let mut t = tnew(4, 2, 16, zero());
    feed(&mut t, "prim\x1b[?1049h");
    assert_eq!(t.mode() & MODE_ALTSCREEN, MODE_ALTSCREEN);
    assert_eq!(row_text(&t, 0, 4), "    ");
    feed(&mut t, "\x1b[1;1Halt!");
    assert_eq!(row_text(&t, 0, 4), "alt!");
    feed(&mut t, "\x1b[?1049l");
    assert_eq!(t.mode() & MODE_ALTSCREEN, 0);
    assert_eq!(row_text(&t, 0, 4), "prim");
    assert_eq!((t.cursor().x, t.cursor().y), (3, 0));
    feed(&mut t, "\x1b[?1049h");
    assert_eq!(row_text(&t, 0, 4), "    ");
}

#[test]
fn alternate_screen_can_be_forbidden() {
    let mut t = tnew(4, 2, 16, zero());
    t.set_allowaltscreen(false);
    feed(&mut t, "prim\x1b[?1049h\x1b[?47h");
    assert_eq!(t.mode() & MODE_ALTSCREEN, 0);
    assert_eq!(row_text(&t, 0, 4), "prim");
}

#[test]
fn save_and_restore_cursor_by_escape() {
    let mut t = tnew(10, 5, 16, zero());
    feed(&mut t, "\x1b[3;4H\x1b[1;35m\x1b7\x1b[1;1H\x1b[0m\x1b8");
    let c = t.cursor();
    assert_eq!((c.x, c.y, c.attr.fg, c.attr.mode), (3, 2, 5, ATTR_BOLD));
    feed(&mut t, "\x1b[5;5H\x1b[s\x1b[H\x1b[u");
    assert_eq!((t.cursor().x, t.cursor().y), (4, 4));
}

#[test]
fn character_set_graphics_maps_input() {
    let mut t = tnew(10, 2, 16, zero());
    feed(&mut t, "\x1b(0");
    assert_eq!(t.charset_of(0), CS_GRAPHIC0);
    feed(&mut t, "qx_A");
    assert_eq!(rune(&t, 0, 0), 0x2500);
    assert_eq!(rune(&t, 1, 0), 0x2502);
    assert_eq!(rune(&t, 2, 0), 0x20);
    assert_eq!(rune(&t, 3, 0), 0x2191);
    feed(&mut t, "H");
    assert_eq!(rune(&t, 4, 0), 'H' as u32);
    feed(&mut t, "\x1b(Bq");
    assert_eq!(t.charset_of(0), CS_USA);
    assert_eq!(rune(&t, 5, 0), 'q' as u32);
    assert_eq!(rune(&t, 0, 0), 0x2500);
    feed(&mut t, "\x1b)0\x0eq\x0fq");
    assert_eq!(t.charset_of(1), CS_GRAPHIC0);
    assert_eq!(rune(&t, 6, 0), 0x2500);
    assert_eq!(rune(&t, 7, 0), 'q' as u32);
    assert_eq!(t.charset(), 0);
}

#[test]
fn osc_sets_the_title() {
    let mut t = tnew(10, 2, 16, zero());
    feed(&mut t, "\x1b]0;hello\x07");
    let r = t.take_requests();
    assert_eq!(r.len(), 1);
    assert_eq!(r[0].kind, RequestKind::SetTitle);
    assert_eq!(r[0].text, "hello".chars().map(|c| c as u32).collect::<Vec<u32>>());
    assert_eq!(t.esc(), EscState::Ground);
    feed(&mut t, "\x1b]2;a b\x1b\\x");
    let r = t.take_requests();
    assert_eq!(r.len(), 1);
    assert_eq!(r[0].text, "a b".chars().map(|c| c as u32).collect::<Vec<u32>>());
    assert_eq!(rune(&t, 0, 0), 'x' as u32);
    feed(&mut t, "\x1bkold\x1b\\");
    let r = t.take_requests();
    assert_eq!(r[0].kind, RequestKind::SetTitle);
    assert_eq!(r[0].text, "old".chars().map(|c| c as u32).collect::<Vec<u32>>());
    feed(&mut t, "\x1b]0\x07\x1b]77;x\x07\x1bPq123\x1b\\");
    assert_eq!(t.take_requests().len(), 0);
}

#[test]
fn osc_sets_and_resets_colours() {
    let mut t = tnew(10, 2, 16, zero());
    feed(&mut t, "\x1b]4;12;#ff0000\x07\x1b]104;12\x07\x1b]104\x07\x1b]4;3\x07\x1b]4;5;?\x07");
    let r = t.take_requests();
    assert_eq!(r.len(), 4);
    assert_eq!((r[0].kind, r[0].arg), (RequestKind::SetColor, 12));
    assert_eq!(r[0].text, "#ff0000".chars().map(|c| c as u32).collect::<Vec<u32>>());
    assert_eq!((r[1].kind, r[1].arg), (RequestKind::ResetColor, 12));
    assert_eq!((r[2].kind, r[2].arg), (RequestKind::ResetColor, -1));
    assert_eq!((r[3].kind, r[3].arg), (RequestKind::SetColor, 5));
    assert_eq!(r[3].text, vec!['?' as u32]);
}

#[test]
fn string_sequence_is_dropped_by_cancel() {
    let mut t = tnew(10, 2, 16, zero());
    feed(&mut t, "\x1b]0;abc\x18def");
    assert_eq!(t.take_requests().len(), 0);
    assert_eq!(row_text(&t, 0, 3), "def");
    feed(&mut t, "\x1b]0;abc\x1b[1;1Hx");
    assert_eq!(t.take_requests().len(), 0);
    assert_eq!(rune(&t, 0, 0), 'x' as u32);
}

#[test]
fn bell_and_cursor_style_are_requests() {
    let mut t = tnew(10, 2, 16, zero());
    feed(&mut t, "\x07\x1b[4 q\x1b[9 q\x1b[ q");
    let r = t.take_requests();
    assert_eq!(r.len(), 3);
    assert_eq!(r[0].kind, RequestKind::Bell);
    assert_eq!((r[1].kind, r[1].arg), (RequestKind::CursorStyle, 4));
    assert_eq!((r[2].kind, r[2].arg), (RequestKind::CursorStyle, 1));
}

#[test]
fn unknown_sequences_change_nothing() {
    let mut t = tnew(10, 2, 16, zero());
    feed(&mut t, "ab");
    let c = t.cursor();
    let m = t.mode();
    feed(&mut t, "\x1b[5y\x1b[?9999h\x1b[>c\x1bQ\x1b#8\x1b%G");
    assert_eq!(t.cursor(), c);
    assert_eq!(t.mode(), m);
    assert_eq!(row_text(&t, 0, 10), "ab        ");
    assert_eq!(t.esc(), EscState::Ground);
    assert_eq!(t.take_reply(), Vec::<u8>::new());
}

#[test]
fn cancel_aborts_a_control_sequence() {
    let mut t = tnew(10, 2, 16, zero());
    feed(&mut t, "\x1b[3\x18;5Hx");
    assert_eq!(row_text(&t, 0, 4), ";5Hx");
    feed(&mut t, "\x1b[1;2H\x1b[3\x1a");
    assert_eq!(rune(&t, 1, 0), '?' as u32);
    assert_eq!(t.cursor().x, 1);
    feed(&mut t, "C");
    assert_eq!(rune(&t, 1, 0), 'C' as u32);
}

#[test]
fn control_characters_act_inside_a_control_sequence() {
    let mut t = tnew(10, 3, 16, zero());
    feed(&mut t, "\x1b[2\nC");
    assert_eq!((t.cursor().x, t.cursor().y), (2, 1));
}

#[test]
fn parameters_beyond_sixteen_are_dropped() {
    let mut t = tnew(10, 2, 16, zero());
    feed(&mut t, "\x1b[0;0;0;0;0;0;0;0;0;0;0;0;0;0;0;1;4;31m");
    assert_eq!(t.cursor().attr.mode, ATTR_BOLD);
    assert_eq!(t.cursor().attr.fg, 7);
    assert_eq!(t.esc(), EscState::Ground);
}

#[test]
fn reset_escape_restores_the_initial_state() {
    let mut t = tnew(6, 3, 16, zero());
    feed(&mut t, "abc\x1b[2;3r\x1b[1;31m\x1b[?7l\x1b[4h\x1b(0\x1b[3g\x1bc");
    assert_eq!(row_text(&t, 0, 6), "      ");
    assert_eq!((t.top(), t.bot()), (0, 2));
    assert_eq!(t.mode(), MODE_WRAP);
    let c = t.cursor();
    assert_eq!((c.x, c.y, c.state, c.attr.mode, c.attr.fg, c.attr.bg), (0, 0, 0, 0, 7, 0));
    assert_eq!(t.charset_of(0), CS_USA);
    let r = t.take_requests();
    assert_eq!(r.len(), 2);
    assert_eq!(r[0].kind, RequestKind::ResetTitle);
    assert_eq!(r[1].kind, RequestKind::ReloadColors);
    for y in 0..3 {
        assert!(t.is_dirty(y));
    }
}

#[test]
fn tputs_is_tputc_in_turn() {
    let mut a = tnew(10, 3, 16, zero());
    let mut b = tnew(10, 3, 16, zero());
    let runes: Vec<u32> = "x\x1b[2;2Hyz\r\nw".chars().map(|c| c as u32).collect();
    tputs(&mut a, &runes);
    for u in runes.iter() {
        tputc(&mut b, *u);
    }
    for y in 0..3 {
        assert_eq!(row_text(&a, y, 10), row_text(&b, y, 10));
    }
    assert_eq!(a.cursor(), b.cursor());
    assert_eq!(row_text(&a, 1, 10), " yz       ");
    assert_eq!(row_text(&a, 2, 10), "w         ");
}

#[test]
fn index_and_next_line_escapes() {
    let mut t = tnew(4, 2, 16, zero());
    feed(&mut t, "ab\x1bD");
    assert_eq!((t.cursor().x, t.cursor().y), (2, 1));
    feed(&mut t, "cd\x1bE");
    assert_eq!((t.cursor().x, t.cursor().y), (0, 1));
    assert_eq!(row_text(&t, 0, 4), "  cd");
    assert_eq!(t.hist_len(), 1);
    tputc(&mut t, 0x85);
    assert_eq!(row_text(&t, 0, 4), "    ");
    assert_eq!(t.hist_len(), 2);
}
