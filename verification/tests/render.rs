use stru::config::{DEFAULTBG, DEFAULTCS, DEFAULTFG, DEFAULTRCS};
use stru::glyph::{
    Glyph, ATTR_BOLD, ATTR_REVERSE, ATTR_WDUMMY, ATTR_WIDE, MODE_BLINK, MODE_HIDE, MODE_REVERSE,
    WIN_FOCUSED, WIN_VISIBLE,
};
use stru::input::tputc;
use stru::render::{draw, draw_rows, run_colors, xdrawcursor, GlyphAt, Rect, XWindow};
use stru::resize::kscrollup;
use stru::screen::tmoveto;
use stru::scroll::tscrollup;
use stru::selection::{selextend, selstart};
use stru::term::{tnew, Term, TimeSpec, SEL_RECTANGULAR, SEL_REGULAR, SNAP_NONE};
use stru::window::{cresize, x2col, xgeometry, y2row, XNEGATIVE, YNEGATIVE};

fn t0() -> TimeSpec {
    TimeSpec { tv_sec: 0, tv_nsec: 0 }
}

fn say(term: &mut Term, s: &str) {
    for ch in s.chars() {
        tputc(term, ch as u32);
    }
}

fn window(state: u8, cursor: i32) -> XWindow {
    XWindow {
        isfixed: false,
        l: 0,
        t: 0,
        gm: 0,
        tw: 0,
        th: 0,
        w: 0,
        h: 0,
        ch: 20,
        cw: 10,
        state,
        cursor,
    }
}

fn s(v: &Vec<u32>) -> String {
    v.iter().map(|u| char::from_u32(*u).unwrap()).collect()
}

#[test]
fn a_plain_row_is_one_run() {
    let mut t = tnew(5, 1, 4, t0());
    say(&mut t, "abc");
    let runs = draw_rows(&mut t);
    assert_eq!(runs.len(), 1);
    assert_eq!((runs[0].x, runs[0].y), (0, 0));
    assert_eq!(s(&runs[0].runes), "abc  ");
    assert_eq!(runs[0].base.mode, 0);
    assert_eq!((runs[0].base.fg, runs[0].base.bg), (7, 0));
    assert!(!t.is_dirty(0));
    assert_eq!(draw_rows(&mut t).len(), 0);
}

#[test]
fn runs_break_where_attributes_change() {
    let mut t = tnew(8, 2, 4, t0());
    say(&mut t, "ab\x1b[1mcd\x1b[0;31me\x1b[0mf");
    let runs = draw_rows(&mut t);
    assert_eq!(runs.len(), 5);
    assert_eq!((runs[0].x, s(&runs[0].runes)), (0, "ab".to_string()));
    assert_eq!((runs[1].x, s(&runs[1].runes)), (2, "cd".to_string()));
    assert_eq!(runs[1].base.mode, ATTR_BOLD);
    assert_eq!((runs[2].x, s(&runs[2].runes)), (4, "e".to_string()));
    assert_eq!(runs[2].base.fg, 1);
    assert_eq!((runs[3].x, s(&runs[3].runes)), (5, "f  ".to_string()));
    assert_eq!((runs[4].x, runs[4].y, s(&runs[4].runes)), (0, 1, "        ".to_string()));
}

#[test]
fn only_dirty_rows_are_drawn() {
    let mut t = tnew(3, 4, 4, t0());
    let _ = draw_rows(&mut t);
    say(&mut t, "\x1b[2;1Hx\x1b[4;1Hy");
    let runs = draw_rows(&mut t);
    assert_eq!(runs.len(), 2);
    assert_eq!((runs[0].y, s(&runs[0].runes)), (1, "x  ".to_string()));
    assert_eq!((runs[1].y, s(&runs[1].runes)), (3, "y  ".to_string()));
}

#[test]
fn selected_cells_are_drawn_reversed() {
    let mut t = tnew(6, 1, 4, t0());
    say(&mut t, "abcdef");
    selstart(&mut t, 2, 0, SNAP_NONE);
    selextend(&mut t, 3, 0, SEL_REGULAR);
    let runs = draw_rows(&mut t);
    assert_eq!(runs.len(), 3);
    assert_eq!(s(&runs[0].runes), "ab");
    assert_eq!((runs[1].x, s(&runs[1].runes), runs[1].base.mode), (2, "cd".to_string(), ATTR_REVERSE));
    assert_eq!((runs[2].x, s(&runs[2].runes), runs[2].base.mode), (4, "ef".to_string(), 0));
}

#[test]
fn wide_runes_form_their_own_run_without_the_dummy() {
    let mut t = tnew(6, 1, 4, t0());
    tputc(&mut t, 'a' as u32);
    tputc(&mut t, 0x4e2d);
    tputc(&mut t, 0x6587);
    tputc(&mut t, 'b' as u32);
    let runs = draw_rows(&mut t);
    assert_eq!(runs.len(), 3);
    assert_eq!((runs[0].x, runs[0].runes.clone()), (0, vec!['a' as u32]));
    assert_eq!((runs[1].x, runs[1].runes.clone()), (1, vec![0x4e2d, 0x6587]));
    assert_eq!(runs[1].base.mode, ATTR_WIDE);
    assert_eq!((runs[2].x, runs[2].runes.clone()), (5, vec!['b' as u32]));
    assert_ne!(runs[1].base.mode, ATTR_WDUMMY);
}

#[test]
fn draw_does_nothing_when_the_window_is_hidden() {
    let mut t = tnew(3, 2, 4, t0());
    assert!(draw(&mut t, &window(WIN_FOCUSED, 2)).is_none());
    assert!(t.is_dirty(0) && t.is_dirty(1));
    let f = draw(&mut t, &window(WIN_VISIBLE, 2)).unwrap();
    assert_eq!(f.runs.len(), 2);
    assert!(f.cursor.is_some());
    assert_eq!(f.clear, DEFAULTBG);
    assert!(!t.is_dirty(0));
}

#[test]
fn draw_in_reverse_video_clears_with_the_foreground() {
    let mut t = tnew(3, 2, 4, t0());
    let _ = draw_rows(&mut t);
    say(&mut t, "\x1b[?5h");
    assert!(t.is_dirty(0) && t.is_dirty(1));
    let f = draw(&mut t, &window(WIN_VISIBLE | WIN_FOCUSED, 2)).unwrap();
    assert_eq!(f.clear, DEFAULTFG);
    let c = f.cursor.unwrap();
    let g = c.glyph.unwrap().g;
    assert_eq!((g.mode, g.fg, g.bg), (ATTR_REVERSE, DEFAULTCS, DEFAULTFG));
    say(&mut t, "\x1b[?5h");
    assert!(!t.is_dirty(0));
}

#[test]
fn draw_leaves_the_cursor_out_of_a_scrolled_back_view() {
    let mut t = tnew(3, 2, 4, t0());
    say(&mut t, "abc");
    tscrollup(&mut t, 0, 1, true);
    kscrollup(&mut t, 1);
    let f = draw(&mut t, &window(WIN_VISIBLE | WIN_FOCUSED, 2)).unwrap();
    assert!(f.cursor.is_none());
    assert_eq!(s(&f.runs[0].runes), "abc");
    assert_eq!(s(&f.runs[1].runes), "   ");
}

#[test]
fn focused_block_cursor_shows_the_rune_under_it() {
    let mut t = tnew(5, 3, 4, t0());
    say(&mut t, "abc");
    tmoveto(&mut t, 1, 0);
    let d = xdrawcursor(&mut t, &window(WIN_VISIBLE | WIN_FOCUSED, 2));
    assert_eq!(
        d.erase,
        GlyphAt { g: Glyph { u: 'a' as u32, mode: 0, fg: 7, bg: 0 }, x: 0, y: 0 }
    );
    assert_eq!(
        d.glyph,
        Some(GlyphAt {
            g: Glyph { u: 'b' as u32, mode: 0, fg: DEFAULTBG, bg: DEFAULTCS },
            x: 1,
            y: 0
        })
    );
    assert!(d.rects.is_empty());
    tmoveto(&mut t, 2, 1);
    let d = xdrawcursor(&mut t, &window(WIN_VISIBLE | WIN_FOCUSED, 0));
    assert_eq!((d.erase.x, d.erase.y, d.erase.g.u), (1, 0, 'b' as u32));
    assert_eq!(d.glyph.unwrap().g.u, ' ' as u32);
    let d = xdrawcursor(&mut t, &window(WIN_VISIBLE | WIN_FOCUSED, 7));
    assert_eq!((d.erase.x, d.erase.y), (2, 1));
    assert_eq!(d.glyph.unwrap().g.u, 0x2603);
}

#[test]
fn underline_and_bar_cursors_are_rectangles() {
    let mut t = tnew(5, 3, 4, t0());
    tmoveto(&mut t, 3, 2);
    let d = xdrawcursor(&mut t, &window(WIN_VISIBLE | WIN_FOCUSED, 4));
    assert_eq!(d.glyph, None);
    assert_eq!(d.rects, vec![Rect { col: DEFAULTCS, x: 2 + 3 * 10, y: 2 + 3 * 20 - 2, w: 10, h: 2 }]);
    let d = xdrawcursor(&mut t, &window(WIN_VISIBLE | WIN_FOCUSED, 6));
    assert_eq!(d.rects, vec![Rect { col: DEFAULTCS, x: 32, y: 2 + 2 * 20, w: 2, h: 20 }]);
    let d = xdrawcursor(&mut t, &window(WIN_VISIBLE | WIN_FOCUSED, 3));
    assert_eq!(d.rects.len(), 1);
    let d = xdrawcursor(&mut t, &window(WIN_VISIBLE | WIN_FOCUSED, 5));
    assert_eq!(d.rects.len(), 1);
    let d = xdrawcursor(&mut t, &window(WIN_VISIBLE | WIN_FOCUSED, 9));
    assert_eq!(d.rects.len(), 0);
    assert_eq!(d.glyph, None);
}

#[test]
fn unfocused_cursor_is_not_drawn() {
    let mut t = tnew(5, 3, 4, t0());
    say(&mut t, "ab");
    tmoveto(&mut t, 1, 1);
    for shape in 0..9 {
        let d = xdrawcursor(&mut t, &window(WIN_VISIBLE, shape));
        assert_eq!(d.glyph, None);
        assert!(d.rects.is_empty());
    }
    tmoveto(&mut t, 0, 0);
    let d = xdrawcursor(&mut t, &window(WIN_VISIBLE, 2));
    assert_eq!(
        d.erase,
        GlyphAt { g: Glyph { u: ' ' as u32, mode: 0, fg: 7, bg: 0 }, x: 1, y: 1 }
    );
    assert_eq!(d.glyph, None);
    assert!(d.rects.is_empty());
    let d = xdrawcursor(&mut t, &window(WIN_VISIBLE | WIN_FOCUSED, 2));
    assert_eq!((d.erase.x, d.erase.y, d.erase.g.u), (0, 0, 'a' as u32));
    assert_eq!(d.glyph.unwrap().g.u, 'a' as u32);
    let f = draw(&mut t, &window(WIN_VISIBLE, 4)).unwrap();
    let c = f.cursor.unwrap();
    assert_eq!(c.glyph, None);
    assert!(c.rects.is_empty());
}

#[test]
fn hidden_cursor_only_restores_the_old_cell() {
    let mut t = tnew(5, 3, 4, t0());
    tmoveto(&mut t, 2, 2);
    let _ = xdrawcursor(&mut t, &window(WIN_VISIBLE | WIN_FOCUSED, 2));
    say(&mut t, "\x1b[?25l");
    assert_eq!(t.mode() & MODE_HIDE, MODE_HIDE);
    tmoveto(&mut t, 0, 0);
    let d = xdrawcursor(&mut t, &window(WIN_VISIBLE | WIN_FOCUSED, 2));
    assert_eq!((d.erase.x, d.erase.y), (2, 2));
    assert_eq!(d.glyph, None);
    assert!(d.rects.is_empty());
    say(&mut t, "\x1b[?25h");
    let d = xdrawcursor(&mut t, &window(WIN_VISIBLE | WIN_FOCUSED, 2));
    assert_eq!((d.erase.x, d.erase.y), (2, 2));
    assert!(d.glyph.is_some());
}

#[test]
fn cursor_on_a_selected_cell_swaps_its_colours() {
    let mut t = tnew(5, 1, 4, t0());
    say(&mut t, "abcde");
    selstart(&mut t, 1, 0, SNAP_NONE);
    selextend(&mut t, 3, 0, SEL_REGULAR);
    tmoveto(&mut t, 2, 0);
    let d = xdrawcursor(&mut t, &window(WIN_VISIBLE | WIN_FOCUSED, 2));
    let g = d.glyph.unwrap().g;
    assert_eq!((g.u, g.fg, g.bg, g.mode), ('c' as u32, DEFAULTFG, DEFAULTRCS, 0));
    let d = xdrawcursor(&mut t, &window(WIN_VISIBLE | WIN_FOCUSED, 4));
    assert_eq!(d.rects[0].col, DEFAULTRCS);
    assert_eq!(d.erase.g.mode, ATTR_REVERSE);
    say(&mut t, "\x1b[?5h");
    let d = xdrawcursor(&mut t, &window(WIN_VISIBLE | WIN_FOCUSED, 2));
    let g = d.glyph.unwrap().g;
    assert_eq!((g.fg, g.bg, g.mode), (DEFAULTRCS, DEFAULTFG, ATTR_REVERSE));
    let d = xdrawcursor(&mut t, &window(WIN_VISIBLE | WIN_FOCUSED, 4));
    assert_eq!(d.rects[0].col, DEFAULTCS);
}

#[test]
fn cursor_on_the_second_half_of_a_wide_rune_is_drawn_from_the_first() {
    let mut t = tnew(5, 1, 4, t0());
    tputc(&mut t, 0x4e2d);
    tmoveto(&mut t, 1, 0);
    let d = xdrawcursor(&mut t, &window(WIN_VISIBLE | WIN_FOCUSED, 2));
    let g = d.glyph.unwrap();
    assert_eq!((g.x, g.g.mode), (1, ATTR_WIDE));
    let d = xdrawcursor(&mut t, &window(WIN_VISIBLE | WIN_FOCUSED, 4));
    assert_eq!(d.rects[0].x, 2);
    assert_eq!((d.erase.x, d.erase.g.u), (0, 0x4e2d));
}

#[test]
fn cursor_geometry_does_not_overflow() {
    let mut t = tnew(3, 3, 0, t0());
    tmoveto(&mut t, 2, 2);
    let mut w = window(WIN_VISIBLE | WIN_FOCUSED, 4);
    w.cw = i32::MAX;
    w.ch = i32::MIN;
    let d = xdrawcursor(&mut t, &w);
    assert_eq!(d.rects[0].x, 2 + 2 * (i32::MAX as i64));
    assert_eq!(d.rects[0].y, 2 + 3 * (i32::MIN as i64) - 2);
    assert_eq!(d.rects[0].w, i32::MAX as i64);
    w.cursor = 6;
    let d = xdrawcursor(&mut t, &w);
    assert_eq!(d.rects[0].y, 2 + 2 * (i32::MIN as i64));
    assert_eq!(d.rects[0].h, i32::MIN as i64);
}

#[test]
fn a_selected_wide_rune_is_one_glyph() {
    let mut t = tnew(6, 1, 4, t0());
    tputc(&mut t, 'a' as u32);
    tputc(&mut t, 0x4e2d);
    tputc(&mut t, 'b' as u32);
    assert_eq!(t.glyph_at(2, 0, false).unwrap().mode, ATTR_WDUMMY);
    selstart(&mut t, 0, 0, SNAP_NONE);
    selextend(&mut t, 3, 0, SEL_REGULAR);
    let runs = draw_rows(&mut t);
    assert_eq!(runs.len(), 4);
    assert_eq!((runs[0].x, runs[0].runes.clone(), runs[0].base.mode), (0, vec!['a' as u32], ATTR_REVERSE));
    assert_eq!(
        (runs[1].x, runs[1].runes.clone(), runs[1].base.mode),
        (1, vec![0x4e2d], ATTR_WIDE | ATTR_REVERSE)
    );
    assert_eq!((runs[2].x, runs[2].runes.clone(), runs[2].base.mode), (3, vec!['b' as u32], ATTR_REVERSE));
    assert_eq!((runs[3].x, runs[3].runes.clone(), runs[3].base.mode), (4, vec![32, 32], 0));
    let total: usize = runs.iter().map(|r| r.runes.len()).sum();
    assert_eq!(total, 5);
    for r in runs.iter() {
        assert_eq!(r.base.mode & ATTR_WDUMMY, 0);
        assert!(!r.runes.contains(&0));
    }
}

#[test]
fn a_selected_second_half_alone_is_not_drawn() {
    let mut t = tnew(6, 1, 4, t0());
    tputc(&mut t, 'a' as u32);
    tputc(&mut t, 0x4e2d);
    tputc(&mut t, 'b' as u32);
    selstart(&mut t, 2, 0, SNAP_NONE);
    selextend(&mut t, 2, 0, SEL_RECTANGULAR);
    let runs = draw_rows(&mut t);
    assert_eq!(runs.len(), 3);
    assert_eq!((runs[0].x, runs[0].runes.clone()), (0, vec!['a' as u32]));
    assert_eq!((runs[1].x, runs[1].runes.clone(), runs[1].base.mode), (1, vec![0x4e2d], ATTR_WIDE));
    assert_eq!((runs[2].x, runs[2].runes.clone(), runs[2].base.mode), (3, vec!['b' as u32, 32, 32], 0));
    tmoveto(&mut t, 0, 0);
    let _ = xdrawcursor(&mut t, &window(WIN_VISIBLE | WIN_FOCUSED, 2));
}

#[test]
fn a_second_half_with_more_attributes_is_still_skipped() {
    let mut t = tnew(4, 2, 4, t0());
    say(&mut t, "\x1b[1;3H\x1bH\x1b[1;1H");
    tputc(&mut t, 'a' as u32);
    tputc(&mut t, 0x4e2d);
    tputc(&mut t, 'b' as u32);
    say(&mut t, "\x1b[Zc");
    let d = t.glyph_at(2, 0, false).unwrap();
    assert_eq!(d.mode, ATTR_WDUMMY | 0x0100);
    assert_eq!(t.glyph_at(0, 1, false).unwrap().u, 'c' as u32);
    let runs = draw_rows(&mut t);
    let row0: Vec<u32> = runs.iter().filter(|r| r.y == 0).flat_map(|r| r.runes.clone()).collect();
    assert_eq!(row0, vec!['a' as u32, 0x4e2d, 'b' as u32]);
}

#[test]
fn pixels_map_to_cells() {
    let mut w = window(0, 2);
    w.tw = 800;
    w.th = 480;
    assert_eq!((x2col(&w, 2), y2row(&w, 2)), (0, 0));
    assert_eq!((x2col(&w, 11), y2row(&w, 21)), (0, 0));
    assert_eq!((x2col(&w, 12), y2row(&w, 22)), (1, 1));
    assert_eq!((x2col(&w, 801), y2row(&w, 481)), (79, 23));
    assert_eq!((x2col(&w, 100000), y2row(&w, i32::MAX)), (79, 23));
    assert_eq!((x2col(&w, 0), y2row(&w, i32::MIN)), (0, 0));
    w.cw = 0;
    w.ch = -4;
    assert_eq!((x2col(&w, 52), y2row(&w, 32)), (50, 30));
    w.tw = 0;
    w.th = -7;
    assert_eq!((x2col(&w, 52), y2row(&w, 32)), (0, 0));
}

#[test]
fn window_geometry_follows_the_cells() {
    let mut w = window(0, 2);
    xgeometry(&mut w, 80, 24, 1920, 1080);
    assert_eq!((w.w, w.h, w.l, w.t), (804, 484, 0, 0));
    w.gm = XNEGATIVE | YNEGATIVE;
    w.l = -10;
    w.t = -20;
    xgeometry(&mut w, 80, 24, 1920, 1080);
    assert_eq!((w.l, w.t), (1920 - 804 - 2 - 10, 1080 - 484 - 2 - 20));
    let mut w = window(0, 2);
    w.cw = i32::MAX;
    w.gm = XNEGATIVE;
    xgeometry(&mut w, i32::MAX, 1, 0, 0);
    assert_eq!(w.w, i32::MAX);
    assert_eq!(w.l, i32::MIN);
    assert_eq!(w.h, 24);
}

#[test]
fn window_resize_fits_the_cells() {
    let mut t = tnew(80, 24, 0, t0());
    let mut w = window(0, 2);
    cresize(&mut t, &mut w, 804, 484);
    assert_eq!((t.cols(), t.rows()), (80, 24));
    assert_eq!((w.w, w.h, w.tw, w.th), (804, 484, 800, 480));
    cresize(&mut t, &mut w, 0, 250);
    assert_eq!((t.cols(), t.rows()), (80, 12));
    assert_eq!((w.w, w.h, w.tw, w.th), (804, 250, 800, 240));
    cresize(&mut t, &mut w, 13, 0);
    assert_eq!((t.cols(), t.rows()), (80, 12));
    assert_eq!((w.w, w.h), (13, 250));
    cresize(&mut t, &mut w, 14, 0);
    assert_eq!((t.cols(), t.rows()), (1, 12));
    assert_eq!(w.tw, 10);
    cresize(&mut t, &mut w, -5, 3);
    assert_eq!((t.cols(), t.rows()), (1, 12));
    w.cw = 0;
    w.ch = -3;
    cresize(&mut t, &mut w, 9, 9);
    assert_eq!((t.cols(), t.rows()), (5, 5));
    assert_eq!((w.tw, w.th), (1, 1));
}

#[test]
fn run_colours_follow_attributes_and_modes() {
    let g = |mode: u16, fg: u32, bg: u32| Glyph { u: 'x' as u32, mode, fg, bg };
    assert_eq!(run_colors(0, g(0, 3, 4)), (3, 4));
    assert_eq!(run_colors(0, g(ATTR_BOLD, 3, 4)), (11, 4));
    assert_eq!(run_colors(0, g(ATTR_BOLD, 7, 4)), (15, 4));
    assert_eq!(run_colors(0, g(ATTR_BOLD, 8, 4)), (8, 4));
    assert_eq!(run_colors(0, g(ATTR_BOLD | 0x02, 3, 4)), (3, 4));
    assert_eq!(run_colors(0, g(ATTR_REVERSE, 3, 4)), (4, 3));
    assert_eq!(run_colors(MODE_REVERSE, g(0, 7, 0)), (0, 7));
    assert_eq!(run_colors(MODE_REVERSE, g(0, 3, 4)), (3, 4));
    assert_eq!(run_colors(MODE_REVERSE, g(ATTR_REVERSE, 7, 0)), (7, 0));
    assert_eq!(run_colors(0, g(0x40, 3, 4)), (4, 4));
    assert_eq!(run_colors(0, g(0x10, 3, 4)), (3, 4));
    assert_eq!(run_colors(MODE_BLINK, g(0x10, 3, 4)), (4, 4));
    assert_eq!(run_colors(MODE_BLINK, g(0x10 | ATTR_REVERSE, 3, 4)), (3, 3));
    assert_eq!(run_colors(0, g(ATTR_BOLD, 0x1000001, 4)), (0x1000001, 4));
}
