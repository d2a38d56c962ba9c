use stru::glyph::Coords;
use stru::input::tputc;
use stru::render::draw_rows;
use stru::screen::{get_ena_sel, selclear, selected, tmoveto, tswapscreen};
use stru::scroll::{tscrolldown, tscrollup};
use stru::selection::{
    getsel, selclick, selextend, selinit, selnormalize, selscroll, selsnap, selstart, tlinelen,
};
use stru::term::{
    tnew, Term, TimeSpec, SEL_EMPTY, SEL_IDLE, SEL_READY, SEL_RECTANGULAR, SEL_REGULAR, SNAP_LINE,
    SNAP_NONE, SNAP_WORD,
};

fn at(ms: i64) -> TimeSpec {
    TimeSpec { tv_sec: ms / 1000, tv_nsec: (ms % 1000) * 1_000_000 }
}

fn write(term: &mut Term, s: &str) {
    for ch in s.chars() {
        tputc(term, ch as u32);
    }
}

fn text(r: Option<Vec<u32>>) -> Option<String> {
    r.map(|v| v.iter().map(|u| char::from_u32(*u).unwrap()).collect())
}

fn sample() -> Term {
    let mut t = tnew(12, 4, 8, at(0));
    write(&mut t, "hello  world\r\nfoo bar\r\n\r\nlast");
    t
}

#[test]
fn selection_starts_empty_and_extends_to_ready() {
    let mut t = sample();
    assert_eq!(t.selection().mode, SEL_IDLE);
    assert!(!get_ena_sel(&t));
    selstart(&mut t, 2, 0, SNAP_NONE);
    let s = t.selection();
    assert_eq!(s.mode, SEL_EMPTY);
    assert_eq!((s.ob, s.oe), (Coords { x: 2, y: 0 }, Coords { x: 2, y: 0 }));
    assert!(get_ena_sel(&t));
    assert!(!selected(&t, 2, 0));
    assert_eq!(getsel(&t), None);
    selextend(&mut t, 4, 0, SEL_REGULAR);
    let s = t.selection();
    assert_eq!(s.mode, SEL_READY);
    assert_eq!((s.nb, s.ne), (Coords { x: 2, y: 0 }, Coords { x: 4, y: 0 }));
    assert!(selected(&t, 2, 0) && selected(&t, 3, 0) && selected(&t, 4, 0));
    assert!(!selected(&t, 1, 0) && !selected(&t, 5, 0) && !selected(&t, 3, 1));
    assert_eq!(text(getsel(&t)), Some("llo".to_string()));
}

#[test]
fn selection_extend_without_start_does_nothing() {
    let mut t = sample();
    selextend(&mut t, 4, 0, SEL_REGULAR);
    assert_eq!(t.selection().mode, SEL_IDLE);
    assert_eq!(getsel(&t), None);
}

#[test]
fn selection_backwards_is_normalized() {
    let mut t = sample();
    selstart(&mut t, 5, 1, SNAP_NONE);
    selextend(&mut t, 8, 0, SEL_REGULAR);
    let s = t.selection();
    assert_eq!((s.nb, s.ne), (Coords { x: 8, y: 0 }, Coords { x: 5, y: 1 }));
    assert!(selected(&t, 11, 0) && selected(&t, 0, 1) && selected(&t, 5, 1));
    assert!(!selected(&t, 7, 0) && !selected(&t, 6, 1));
    assert_eq!(text(getsel(&t)), Some("orld\nfoo ba".to_string()));
    selstart(&mut t, 6, 0, SNAP_NONE);
    selextend(&mut t, 1, 0, SEL_REGULAR);
    let s = t.selection();
    assert_eq!((s.nb.x, s.ne.x), (1, 6));
    assert_eq!(text(getsel(&t)), Some("ello".to_string()));
}

#[test]
fn selection_coordinates_are_clamped() {
    let mut t = sample();
    selstart(&mut t, -5, -5, SNAP_NONE);
    selextend(&mut t, 999, 999, SEL_REGULAR);
    let s = t.selection();
    assert_eq!((s.ob, s.oe), (Coords { x: 0, y: 0 }, Coords { x: 11, y: 3 }));
    assert_eq!(text(getsel(&t)), Some("hello  world\nfoo bar\n\nlast\n".to_string()));
}

#[test]
fn selection_past_the_text_stretches_to_the_row_end() {
    let mut t = sample();
    selstart(&mut t, 9, 1, SNAP_NONE);
    selextend(&mut t, 10, 1, SEL_REGULAR);
    let s = t.selection();
    assert_eq!((s.nb.x, s.ne.x), (7, 11));
    assert_eq!(text(getsel(&t)), Some("\n".to_string()));
}

#[test]
fn rectangular_selection_covers_a_box() {
    let mut t = sample();
    selstart(&mut t, 4, 1, SNAP_NONE);
    selextend(&mut t, 1, 0, SEL_RECTANGULAR);
    let s = t.selection();
    assert_eq!(s.type_, SEL_RECTANGULAR);
    assert_eq!((s.nb, s.ne), (Coords { x: 1, y: 0 }, Coords { x: 4, y: 1 }));
    assert!(selected(&t, 1, 0) && selected(&t, 4, 1) && selected(&t, 2, 1));
    assert!(!selected(&t, 0, 0) && !selected(&t, 5, 1) && !selected(&t, 5, 0));
    assert_eq!(text(getsel(&t)), Some("ello\noo b".to_string()));
    selextend(&mut t, 1, 0, 77);
    assert_eq!(t.selection().type_, SEL_REGULAR);
}

#[test]
fn word_snap_selects_the_word() {
    let mut t = sample();
    selstart(&mut t, 9, 0, SNAP_WORD);
    assert_eq!(t.selection().mode, SEL_EMPTY);
    selextend(&mut t, 9, 0, SEL_REGULAR);
    let s = t.selection();
    assert_eq!((s.nb, s.ne), (Coords { x: 7, y: 0 }, Coords { x: 11, y: 0 }));
    assert_eq!(text(getsel(&t)), Some("world".to_string()));
    selstart(&mut t, 5, 1, SNAP_WORD);
    selextend(&mut t, 5, 1, SEL_REGULAR);
    assert_eq!(text(getsel(&t)), Some("bar".to_string()));
    selstart(&mut t, 5, 0, SNAP_WORD);
    selextend(&mut t, 5, 0, SEL_REGULAR);
    let s = t.selection();
    assert_eq!((s.nb.x, s.ne.x), (5, 6));
    selstart(&mut t, 1, 1, 99);
    assert_eq!(t.selection().snap, SNAP_NONE);
}

#[test]
fn word_snap_crosses_wrapped_rows() {
    let mut t = tnew(4, 3, 8, at(0));
    write(&mut t, "ab cdefg h");
    selstart(&mut t, 1, 1, SNAP_WORD);
    selextend(&mut t, 1, 1, SEL_REGULAR);
    let s = t.selection();
    assert_eq!((s.nb, s.ne), (Coords { x: 3, y: 0 }, Coords { x: 3, y: 1 }));
    assert_eq!(text(getsel(&t)), Some("cdefg".to_string()));
    assert_eq!(selsnap(&t, 1, 1, -1), Coords { x: 3, y: 0 });
    assert_eq!(selsnap(&t, 1, 1, 1), Coords { x: 3, y: 1 });
    assert_eq!(selsnap(&t, 1, 2, 1), Coords { x: 1, y: 2 });
    assert_eq!(selsnap(&t, 0, 0, -1), Coords { x: 0, y: 0 });
    assert_eq!(selsnap(&t, 0, 0, 1), Coords { x: 1, y: 0 });
}

#[test]
fn line_snap_selects_the_wrapped_line() {
    let mut t = tnew(4, 4, 8, at(0));
    write(&mut t, "abcdefghij\r\nxy");
    selstart(&mut t, 1, 1, SNAP_LINE);
    selextend(&mut t, 1, 1, SEL_REGULAR);
    let s = t.selection();
    assert_eq!((s.nb, s.ne), (Coords { x: 0, y: 0 }, Coords { x: 3, y: 2 }));
    assert_eq!(text(getsel(&t)), Some("abcdefghij\n".to_string()));
    selstart(&mut t, 0, 3, SNAP_LINE);
    selextend(&mut t, 0, 3, SEL_REGULAR);
    assert_eq!(text(getsel(&t)), Some("xy\n".to_string()));
}

#[test]
fn linelen_ignores_trailing_spaces_unless_wrapped() {
    let mut t = tnew(4, 3, 8, at(0));
    write(&mut t, "ab\r\n\r\n");
    assert_eq!(tlinelen(&t, 0), 2);
    assert_eq!(tlinelen(&t, 1), 0);
    write(&mut t, "\x1b[1;1Ha  b c");
    assert_eq!(tlinelen(&t, 0), 4);
    assert_eq!(tlinelen(&t, 1), 2);
    write(&mut t, "\x1b[2;1H\x1b[2K");
    assert_eq!(tlinelen(&t, 0), 4);
    assert_eq!(tlinelen(&t, -3), 4);
    assert_eq!(tlinelen(&t, 99), 0);
}

#[test]
fn clicks_in_quick_succession_select_word_then_line() {
    let mut t = sample();
    selinit(&mut t, at(0));
    selclick(&mut t, 1, 0, at(5000));
    assert_eq!(t.selection().mode, SEL_EMPTY);
    assert_eq!(t.selection().snap, SNAP_NONE);
    selclick(&mut t, 1, 0, at(5200));
    assert_eq!(t.selection().snap, SNAP_WORD);
    assert_eq!(t.selection().mode, SEL_READY);
    assert_eq!(text(getsel(&t)), Some("hello".to_string()));
    selclick(&mut t, 1, 0, at(5400));
    assert_eq!(t.selection().snap, SNAP_LINE);
    assert_eq!(text(getsel(&t)), Some("hello  world".to_string()));
    selclick(&mut t, 1, 0, at(9000));
    assert_eq!(t.selection().snap, SNAP_NONE);
    assert_eq!(t.selection().mode, SEL_EMPTY);
    assert_eq!(t.selection().tclick1, at(9000));
    assert_eq!(t.selection().tclick2, at(5400));
    selclick(&mut t, 1, 0, at(9300));
    assert_eq!(t.selection().snap, SNAP_WORD);
    selclick(&mut t, 1, 0, at(9600));
    assert_eq!(t.selection().snap, SNAP_LINE);
    selclick(&mut t, 1, 0, at(9902));
    assert_eq!(t.selection().snap, SNAP_NONE);
}

#[test]
fn selinit_forgets_the_selection_and_sets_the_click_times() {
    let mut t = sample();
    selstart(&mut t, 2, 0, SNAP_WORD);
    selextend(&mut t, 4, 0, SEL_REGULAR);
    selinit(&mut t, at(1234));
    let s = t.selection();
    assert_eq!((s.mode, s.snap, s.ob.x), (SEL_IDLE, SNAP_NONE, -1));
    assert_eq!((s.tclick1, s.tclick2), (at(1234), at(1234)));
    assert!(!selected(&t, 3, 0));
}

#[test]
fn selclear_marks_the_selected_rows_dirty() {
    let mut t = sample();
    selstart(&mut t, 2, 1, SNAP_NONE);
    selextend(&mut t, 4, 2, SEL_REGULAR);
    let _ = draw_rows(&mut t);
    selclear(&mut t);
    assert_eq!(t.selection().mode, SEL_IDLE);
    let d: Vec<bool> = (0..4).map(|y| t.is_dirty(y)).collect();
    assert_eq!(d, vec![false, true, true, false]);
    let _ = draw_rows(&mut t);
    selclear(&mut t);
    assert!(!t.is_dirty(1));
}

#[test]
fn starting_and_extending_mark_rows_dirty() {
    let mut t = sample();
    let _ = draw_rows(&mut t);
    selstart(&mut t, 2, 1, SNAP_NONE);
    let d: Vec<bool> = (0..4).map(|y| t.is_dirty(y)).collect();
    assert_eq!(d, vec![false, true, false, false]);
    let _ = draw_rows(&mut t);
    selextend(&mut t, 2, 3, SEL_REGULAR);
    let d: Vec<bool> = (0..4).map(|y| t.is_dirty(y)).collect();
    assert_eq!(d, vec![false, true, true, true]);
    let _ = draw_rows(&mut t);
    selextend(&mut t, 2, 2, SEL_REGULAR);
    let d: Vec<bool> = (0..4).map(|y| t.is_dirty(y)).collect();
    assert_eq!(d, vec![false, true, true, true]);
}

#[test]
fn selection_follows_scrolled_text() {
    let mut t = sample();
    selstart(&mut t, 0, 1, SNAP_NONE);
    selextend(&mut t, 2, 1, SEL_REGULAR);
    assert_eq!(text(getsel(&t)), Some("foo".to_string()));
    tscrollup(&mut t, 0, 1, true);
    let s = t.selection();
    assert_eq!((s.ob.y, s.oe.y, s.nb.y, s.ne.y), (0, 0, 0, 0));
    assert_eq!(text(getsel(&t)), Some("foo".to_string()));
    tscrolldown(&mut t, 0, 2);
    assert_eq!(t.selection().nb.y, 2);
    assert_eq!(text(getsel(&t)), Some("foo".to_string()));
    tscrolldown(&mut t, 0, 2);
    assert_eq!(t.selection().mode, SEL_IDLE);
    assert_eq!(getsel(&t), None);
}

#[test]
fn selection_scrolled_off_the_top_is_given_up() {
    let mut t = sample();
    selstart(&mut t, 0, 0, SNAP_NONE);
    selextend(&mut t, 2, 0, SEL_REGULAR);
    tscrollup(&mut t, 0, 1, true);
    assert_eq!(t.selection().mode, SEL_IDLE);
}

#[test]
fn selection_partly_scrolled_off_is_cut() {
    let mut t = sample();
    selstart(&mut t, 3, 0, SNAP_NONE);
    selextend(&mut t, 2, 1, SEL_REGULAR);
    selscroll(&mut t, 0, -1);
    let s = t.selection();
    assert_eq!(s.mode, SEL_READY);
    assert_eq!((s.ob, s.oe), (Coords { x: 0, y: 0 }, Coords { x: 2, y: 0 }));
    selscroll(&mut t, 0, 3);
    let s = t.selection();
    assert_eq!((s.ob.y, s.oe.y), (3, 3));
    selscroll(&mut t, 0, 1);
    assert_eq!(t.selection().mode, SEL_IDLE);
}

#[test]
fn selection_outside_the_scrolled_rows_stays() {
    let mut t = sample();
    selstart(&mut t, 0, 0, SNAP_NONE);
    selextend(&mut t, 2, 0, SEL_REGULAR);
    let before = t.selection();
    selscroll(&mut t, 1, -1);
    assert_eq!(t.selection(), before);
    selscroll(&mut t, 1, 1);
    assert_eq!(t.selection(), before);
}

#[test]
fn selection_made_on_the_other_screen_is_not_shown() {
    let mut t = sample();
    tswapscreen(&mut t);
    tmoveto(&mut t, 0, 0);
    write(&mut t, "alt");
    selstart(&mut t, 0, 0, SNAP_NONE);
    selextend(&mut t, 2, 0, SEL_REGULAR);
    assert!(t.selection().alt);
    assert_eq!(text(getsel(&t)), Some("alt".to_string()));
    tswapscreen(&mut t);
    assert!(!selected(&t, 1, 0));
    assert_eq!(getsel(&t), None);
    assert!(!get_ena_sel(&t));
}

#[test]
fn printing_on_a_selected_row_gives_the_selection_up() {
    let mut t = sample();
    selstart(&mut t, 0, 1, SNAP_NONE);
    selextend(&mut t, 2, 2, SEL_REGULAR);
    tmoveto(&mut t, 0, 3);
    write(&mut t, "x");
    assert_eq!(t.selection().mode, SEL_READY);
    tmoveto(&mut t, 9, 2);
    write(&mut t, "x");
    assert_eq!(t.selection().mode, SEL_IDLE);
}

#[test]
fn selected_text_skips_the_second_half_of_wide_runes() {
    let mut t = tnew(8, 2, 8, at(0));
    tputc(&mut t, 'a' as u32);
    tputc(&mut t, 0x4e2d);
    tputc(&mut t, 'b' as u32);
    selstart(&mut t, 0, 0, SNAP_NONE);
    selextend(&mut t, 3, 0, SEL_REGULAR);
    assert_eq!(getsel(&t), Some(vec!['a' as u32, 0x4e2d, 'b' as u32]));
}

#[test]
fn snapping_takes_the_nearest_cell_and_any_direction() {
    let mut t = sample();
    selstart(&mut t, 0, 0, SNAP_WORD);
    assert_eq!(selsnap(&t, 99, -4, 7), Coords { x: 11, y: 0 });
    assert_eq!(selsnap(&t, 99, -4, 0), Coords { x: 7, y: 0 });
    assert_eq!(selsnap(&t, 99, -4, -9), Coords { x: 7, y: 0 });
    selstart(&mut t, 0, 0, SNAP_NONE);
    assert_eq!(selsnap(&t, 99, 99, 1), Coords { x: 11, y: 3 });
}

#[test]
fn normalize_without_a_selection_changes_nothing() {
    let mut t = sample();
    let before = t.selection();
    selnormalize(&mut t);
    assert_eq!(t.selection(), before);
}

#[test]
fn normalize_puts_the_corners_in_reading_order() {
    let mut t = sample();
    selstart(&mut t, 6, 2, SNAP_NONE);
    selextend(&mut t, 1, 1, SEL_REGULAR);
    selnormalize(&mut t);
    let s = t.selection();
    assert_eq!((s.nb, s.ne), (Coords { x: 1, y: 1 }, Coords { x: 11, y: 2 }));
}
