use stru::color::{get_colourname, sixd_to_16bit, xloadcolor, xloadcols, ColorSpec, RenderColor, DC};
use stru::config::{COLOURS_SIZE, HISTSIZE, TABSPACES};
use stru::csi::{csiparse, cursor_report_bytes, tdefcolor, tsetattr, vtiden_bytes};
use stru::dispatch::csihandle;
use stru::edit::{graphic0_of, tdeletechar, tinsertblank, tputtab, tsetchar, wcwidth};
use stru::glyph::{Glyph, ATTR_BLINK, ATTR_BOLD, ATTR_WRAP, MODE_BLINK};
use stru::input::{tputc, tprint};
use stru::modes::tsetmode;
use stru::render::draw_rows;
use stru::report::{tfocus, tpaste};
use stru::screen::tmoveto;
use stru::term::{tnew, Term, TimeSpec};
use stru::timing::{run, run_output, tattrset, timediff, tsetdirtattr, RunState, RunStep};
use stru::utf8::{twrite, utf8decode, UTF_INVALID};

fn ts(sec: i64, nsec: i64) -> TimeSpec {
    TimeSpec { tv_sec: sec, tv_nsec: nsec }
}

fn ms(v: i64) -> TimeSpec {
    ts(v / 1000, (v % 1000) * 1_000_000)
}

fn type_in(term: &mut Term, s: &str) {
    for ch in s.chars() {
        tputc(term, ch as u32);
    }
}

fn runes(s: &str) -> Vec<u32> {
    s.chars().map(|c| c as u32).collect()
}

#[test]
fn configuration_constants() {
    assert_eq!(HISTSIZE, 16);
    assert_eq!(TABSPACES, 8);
    assert_eq!(COLOURS_SIZE, 258);
}

#[test]
fn colour_cube_steps() {
    assert_eq!(sixd_to_16bit(0), 0);
    assert_eq!(sixd_to_16bit(1), 0x5f5f);
    assert_eq!(sixd_to_16bit(2), 0x8787);
    assert_eq!(sixd_to_16bit(3), 0xafaf);
    assert_eq!(sixd_to_16bit(4), 0xd7d7);
    assert_eq!(sixd_to_16bit(5), 0xffff);
    assert_eq!(sixd_to_16bit(6), 0x2827);
    assert_eq!(sixd_to_16bit(-1), 0x0f0f);
}

#[test]
fn palette_entries_by_index() {
    assert_eq!(xloadcolor(0, None), ColorSpec::Name("black"));
    assert_eq!(xloadcolor(15, None), ColorSpec::Name("white"));
    assert_eq!(
        xloadcolor(16, None),
        ColorSpec::Value(RenderColor { red: 0, green: 0, blue: 0, alpha: 0xffff })
    );
    assert_eq!(
        xloadcolor(196, None),
        ColorSpec::Value(RenderColor { red: 0xffff, green: 0, blue: 0, alpha: 0xffff })
    );
    assert_eq!(
        xloadcolor(110, None),
        ColorSpec::Value(RenderColor { red: 0x8787, green: 0xafaf, blue: 0xd7d7, alpha: 0xffff })
    );
    assert_eq!(
        xloadcolor(231, None),
        ColorSpec::Value(RenderColor { red: 0xffff, green: 0xffff, blue: 0xffff, alpha: 0xffff })
    );
    assert_eq!(
        xloadcolor(232, None),
        ColorSpec::Value(RenderColor { red: 0x0808, green: 0x0808, blue: 0x0808, alpha: 0xffff })
    );
    assert_eq!(
        xloadcolor(255, None),
        ColorSpec::Value(RenderColor { red: 0xeeee, green: 0xeeee, blue: 0xeeee, alpha: 0xffff })
    );
    assert_eq!(xloadcolor(256, None), ColorSpec::Name("#cccccc"));
    assert_eq!(xloadcolor(257, None), ColorSpec::Name("#555555"));
    assert_eq!(xloadcolor(258, None), ColorSpec::Missing);
    assert_eq!(xloadcolor(-1, None), ColorSpec::Missing);
    assert_eq!(xloadcolor(20, Some("pink")), ColorSpec::Name("pink"));
    assert_eq!(xloadcolor(999, Some("pink")), ColorSpec::Name("pink"));
}

#[test]
fn colour_names_of_the_palette() {
    assert_eq!(get_colourname(1), Some("red3"));
    assert_eq!(get_colourname(7), Some("gray90"));
    assert_eq!(get_colourname(12), Some("#5c5cff"));
    assert_eq!(get_colourname(16), None);
    assert_eq!(get_colourname(255), None);
    assert_eq!(get_colourname(258), None);
    assert_eq!(get_colourname(-3), None);
}

#[test]
fn loading_the_palette_fills_every_entry() {
    let mut dc = DC { col: Vec::new() };
    xloadcols(&mut dc);
    assert_eq!(dc.col.len(), 258);
    for i in 0..258 {
        assert_eq!(dc.col[i], xloadcolor(i as i32, None));
        assert_ne!(dc.col[i], ColorSpec::Missing);
    }
    xloadcols(&mut dc);
    assert_eq!(dc.col.len(), 258);
}

fn parsed(s: &str) -> (bool, Vec<i32>, u32, u32) {
    let p = csiparse(&runes(s));
    (p.is_private(), p.args().clone(), p.mode().0, p.mode().1)
}

#[test]
fn csi_parser_reads_parameters() {
    assert_eq!(parsed("12;;3m"), (false, vec![12, 0, 3], 'm' as u32, 0));
    assert_eq!(parsed("?25h"), (true, vec![25], 'h' as u32, 0));
    assert_eq!(parsed("H"), (false, vec![0], 'H' as u32, 0));
    assert_eq!(parsed("2 q"), (false, vec![2], ' ' as u32, 'q' as u32));
    assert_eq!(parsed(""), (false, vec![], 0, 0));
    assert_eq!(parsed("?"), (true, vec![], 0, 0));
    assert_eq!(parsed("5;"), (false, vec![5], 0, 0));
    assert_eq!(parsed("99999999m").1, vec![65535]);
    assert_eq!(parsed("65535m").1, vec![65535]);
    assert_eq!(parsed("65534m").1, vec![65534]);
    let p = parsed("1;2;3;4;5;6;7;8;9;10;11;12;13;14;15;16;17;18X");
    assert_eq!(p.1, vec![1, 2, 3, 4, 5, 6, 7, 8, 9, 10, 11, 12, 13, 14, 15, 16]);
    assert_eq!(p.2, 'X' as u32);
    assert_eq!(parsed("1:2m"), (false, vec![1], ':' as u32, '2' as u32));
    let p = csiparse(&runes("7;;9x"));
    assert_eq!((p.arg_at(0), p.arg_at(1), p.arg_at(2), p.arg_at(3)), (7, 0, 9, 0));
    assert_eq!((p.arg_or(0, 1), p.arg_or(1, 1), p.arg_or(5, 42)), (7, 1, 42));
}

#[test]
fn extended_colour_parameters() {
    assert_eq!(tdefcolor(&vec![38, 5, 100], 0), (100, 2));
    assert_eq!(tdefcolor(&vec![38, 5, 256], 0), (-1, 2));
    assert_eq!(tdefcolor(&vec![38, 5], 0), (-1, 0));
    assert_eq!(tdefcolor(&vec![38], 0), (-1, 0));
    assert_eq!(tdefcolor(&vec![0, 48, 2, 10, 20, 30], 1), (0x10a141e, 4));
    assert_eq!(tdefcolor(&vec![48, 2, 10, 20], 0), (-1, 0));
    assert_eq!(tdefcolor(&vec![48, 2, 10, 20, 256], 0), (-1, 4));
    assert_eq!(tdefcolor(&vec![38, 3, 1, 2, 3], 0), (-1, 0));
    assert_eq!(tdefcolor(&vec![38, 5, 1], 3), (-1, 0));
    assert_eq!(tdefcolor(&vec![], usize::MAX), (-1, 0));
}

#[test]
fn setattr_applies_parameters_in_order() {
    let mut t = tnew(4, 2, 0, ts(0, 0));
    tsetattr(&mut t, &vec![1, 31, 0, 4, 38, 5, 9, 7]);
    let a = t.cursor().attr;
    assert_eq!((a.mode, a.fg, a.bg), (0x08 | 0x20, 9, 0));
    tsetattr(&mut t, &vec![]);
    assert_eq!(t.cursor().attr, a);
    tsetattr(&mut t, &vec![1234, 10, 21]);
    assert_eq!(t.cursor().attr, a);
}

#[test]
fn csihandle_runs_a_parsed_sequence() {
    let mut t = tnew(10, 5, 0, ts(0, 0));
    let p = csiparse(&runes("3;7H"));
    csihandle(&mut t, &p);
    assert_eq!((t.cursor().x, t.cursor().y), (6, 2));
    let p = csiparse(&runes("?7l"));
    csihandle(&mut t, &p);
    assert_eq!(t.mode() & 1, 0);
}

#[test]
fn setmode_sets_standard_modes() {
    let mut t = tnew(10, 5, 0, ts(0, 0));
    tsetmode(&mut t, false, true, &vec![2, 4, 12, 20, 0, 77]);
    assert_eq!(t.mode(), 0x1 | 0x100 | 0x2 | 0x10);
    tsetmode(&mut t, false, false, &vec![12, 4]);
    assert_eq!(t.mode(), 0x1 | 0x100 | 0x400 | 0x10);
}

#[test]
fn replies_are_spelled_in_decimal() {
    assert_eq!(cursor_report_bytes(0, 0), b"\x1b[1;1R".to_vec());
    assert_eq!(cursor_report_bytes(9, 99), b"\x1b[100;10R".to_vec());
    assert_eq!(cursor_report_bytes(65534, 1_000_000), b"\x1b[1000001;65535R".to_vec());
    assert_eq!(
        cursor_report_bytes(u32::MAX, u32::MAX),
        b"\x1b[4294967296;4294967296R".to_vec()
    );
    assert_eq!(vtiden_bytes(), b"\x1b[?6c".to_vec());
}

#[test]
fn rune_widths() {
    assert_eq!(wcwidth('a' as u32), 1);
    assert_eq!(wcwidth(0x4e2d), 2);
    assert_eq!(wcwidth(0x10ff), 1);
    assert_eq!(wcwidth(0x1100), 2);
    assert_eq!(wcwidth(0x303f), 1);
    assert_eq!(wcwidth(0xff21), 2);
    assert_eq!(wcwidth(0xff61), 1);
    assert_eq!(wcwidth(0x20000), 2);
    assert_eq!(wcwidth(0x3fffe), 1);
    assert_eq!(wcwidth(0xe9), 1);
}

#[test]
fn graphics_table() {
    assert_eq!(graphic0_of('j' as u32), 0x2518);
    assert_eq!(graphic0_of('q' as u32), 0x2500);
    assert_eq!(graphic0_of('`' as u32), 0x25c6);
    assert_eq!(graphic0_of('~' as u32), 0x00b7);
    assert_eq!(graphic0_of('H' as u32), 'H' as u32);
    assert_eq!(graphic0_of('G' as u32), 0x2603);
    assert_eq!(graphic0_of(0x7f), 0x7f);
}

#[test]
fn setchar_stores_only_rendition_attributes() {
    let mut t = tnew(4, 2, 0, ts(0, 0));
    let _ = draw_rows(&mut t);
    tsetchar(&mut t, 'z' as u32, Glyph { u: 1, mode: ATTR_BOLD | ATTR_WRAP | 0x600, fg: 3, bg: 4 }, 2, 1);
    assert_eq!(
        t.glyph_at(2, 1, false),
        Some(Glyph { u: 'z' as u32, mode: ATTR_BOLD, fg: 3, bg: 4 })
    );
    assert!(t.is_dirty(1));
    assert!(!t.is_dirty(0));
    assert_eq!((t.cursor().x, t.cursor().y), (0, 0));
}

#[test]
fn tprint_prints_without_interpreting() {
    let mut t = tnew(4, 2, 0, ts(0, 0));
    tprint(&mut t, '[' as u32);
    tprint(&mut t, 'A' as u32);
    assert_eq!(t.glyph_at(0, 0, false).unwrap().u, '[' as u32);
    assert_eq!(t.glyph_at(1, 0, false).unwrap().u, 'A' as u32);
}

#[test]
fn blank_insertion_and_deletion_with_bad_counts() {
    let mut t = tnew(4, 1, 0, ts(0, 0));
    type_in(&mut t, "abcd");
    tmoveto(&mut t, 1, 0);
    tinsertblank(&mut t, 0);
    tinsertblank(&mut t, -4);
    tdeletechar(&mut t, 0);
    tdeletechar(&mut t, -1);
    tputtab(&mut t, 0);
    assert_eq!(t.cursor().x, 1);
    let row: Vec<u32> = (0..4).map(|x| t.glyph_at(x, 0, false).unwrap().u).collect();
    assert_eq!(row, runes("abcd"));
}

#[test]
fn time_differences_in_milliseconds() {
    assert_eq!(timediff(ts(10, 500_000_000), ts(9, 0)), 1500);
    assert_eq!(timediff(ts(9, 0), ts(10, 500_000_000)), -1500);
    assert_eq!(timediff(ts(1, 0), ts(0, 999_999_999)), 1000 - 999);
    assert_eq!(timediff(ts(0, 1_999_999), ts(0, 0)), 1);
    assert_eq!(timediff(ts(0, 0), ts(0, 1_999_999)), -1);
    assert_eq!(timediff(ts(i64::MAX, 0), ts(i64::MIN, 0)), i64::MAX);
    assert_eq!(timediff(ts(i64::MIN, 0), ts(i64::MAX, 0)), i64::MIN);
    assert_eq!(timediff(ts(5, 5), ts(5, 5)), 0);
}

#[test]
fn blinking_cells_are_found_and_dirtied() {
    let mut t = tnew(3, 3, 0, ts(0, 0));
    assert!(!tattrset(&t, ATTR_BLINK));
    type_in(&mut t, "\x1b[3;3H\x1b[5mx");
    assert!(tattrset(&t, ATTR_BLINK));
    assert!(!tattrset(&t, ATTR_BOLD));
    let _ = draw_rows(&mut t);
    tsetdirtattr(&mut t, ATTR_BLINK);
    let d: Vec<bool> = (0..3).map(|y| t.is_dirty(y)).collect();
    assert_eq!(d, vec![false, false, true]);
    tsetdirtattr(&mut t, ATTR_BOLD);
    assert!(!t.is_dirty(0));
}

#[test]
fn event_loop_redraws_at_the_frame_rate() {
    let mut t = tnew(3, 3, 0, ts(0, 0));
    let mut st = RunState { last: ms(1000), lastblink: ms(1000), blinkset: false };
    let frame = Some(ts(0, 1_000_000_000 / 120));
    let r = run(&mut t, &mut st, ms(1008), true, false);
    assert_eq!(r, RunStep { dodraw: false, timeout: frame });
    assert_eq!(st.last, ms(1000));
    let r = run(&mut t, &mut st, ms(1009), true, false);
    assert_eq!(r, RunStep { dodraw: true, timeout: frame });
    assert_eq!(st.last, ms(1009));
    assert_eq!(st.lastblink, ms(1000));
    let r = run(&mut t, &mut st, ms(1020), false, false);
    assert_eq!(r, RunStep { dodraw: true, timeout: None });
    let r = run(&mut t, &mut st, ms(1021), false, false);
    assert_eq!(r, RunStep { dodraw: false, timeout: frame });
}

#[test]
fn event_loop_toggles_the_blink_phase() {
    let mut t = tnew(3, 3, 0, ts(0, 0));
    type_in(&mut t, "\x1b[2;1H\x1b[5mx");
    let mut st = RunState { last: ms(0), lastblink: ms(0), blinkset: false };
    run_output(&mut t, &mut st);
    assert!(st.blinkset);
    assert_eq!(t.mode() & MODE_BLINK, 0);
    let _ = draw_rows(&mut t);
    let r = run(&mut t, &mut st, ms(800), false, true);
    assert!(r.dodraw);
    assert_eq!(t.mode() & MODE_BLINK, 0);
    assert_eq!(st.lastblink, ms(0));
    let _ = draw_rows(&mut t);
    let r = run(&mut t, &mut st, ms(801), false, false);
    assert_eq!(r.dodraw, true);
    assert_eq!(t.mode() & MODE_BLINK, MODE_BLINK);
    assert_eq!(st.lastblink, ms(801));
    assert_eq!(r.timeout, Some(ts(0, 800_000_000)));
    let d: Vec<bool> = (0..3).map(|y| t.is_dirty(y)).collect();
    assert_eq!(d, vec![false, true, false]);
    let r = run(&mut t, &mut st, ms(1301), false, false);
    assert_eq!(r.timeout, Some(ts(0, 300_000_000)));
    let r = run(&mut t, &mut st, ms(1701), false, false);
    assert_eq!(t.mode() & MODE_BLINK, 0);
    assert_eq!(r.timeout, Some(ts(0, 800_000_000)));
    run_output(&mut t, &mut st);
    assert_eq!(t.mode() & MODE_BLINK, 0);
    type_in(&mut t, "\x1b[2;1H\x1b[0m \x1b[2J");
    run_output(&mut t, &mut st);
    assert!(!st.blinkset);
}

#[test]
fn event_loop_waits_long_after_a_clock_jump() {
    let mut t = tnew(3, 3, 0, ts(0, 0));
    let mut st = RunState { last: ms(5000), lastblink: ms(5000), blinkset: true };
    let r = run(&mut t, &mut st, ms(5100), false, false);
    assert_eq!(r, RunStep { dodraw: true, timeout: Some(ts(0, 700_000_000)) });
    let mut st = RunState { last: ms(0), lastblink: ts(100, 0), blinkset: true };
    let r = run(&mut t, &mut st, ts(50, 0), false, false);
    assert_eq!(r, RunStep { dodraw: true, timeout: Some(ts(50, 800_000_000)) });
}

#[test]
fn utf8_decodes_valid_sequences() {
    assert_eq!(utf8decode(&b"a".to_vec(), 0), ('a' as u32, 1));
    assert_eq!(utf8decode(&"é".as_bytes().to_vec(), 0), (0xe9, 2));
    assert_eq!(utf8decode(&"€".as_bytes().to_vec(), 0), (0x20ac, 3));
    assert_eq!(utf8decode(&"😀".as_bytes().to_vec(), 0), (0x1f600, 4));
    assert_eq!(utf8decode(&"xé".as_bytes().to_vec(), 1), (0xe9, 2));
    assert_eq!(utf8decode(&vec![0xf4, 0x8f, 0xbf, 0xbf], 0), (0x10ffff, 4));
    assert_eq!(utf8decode(&vec![0x7f], 0), (0x7f, 1));
    assert_eq!(utf8decode(&vec![0xc2, 0x80], 0), (0x80, 2));
    assert_eq!(utf8decode(&vec![0xe0, 0xa0, 0x80], 0), (0x800, 3));
    assert_eq!(utf8decode(&vec![0xf0, 0x90, 0x80, 0x80], 0), (0x10000, 4));
}

#[test]
fn utf8_replaces_invalid_sequences() {
    assert_eq!(utf8decode(&vec![0x80], 0), (UTF_INVALID, 1));
    assert_eq!(utf8decode(&vec![0xff], 0), (UTF_INVALID, 1));
    assert_eq!(utf8decode(&vec![0xf8, 0x80], 0), (UTF_INVALID, 1));
    assert_eq!(utf8decode(&vec![0xc3, 0x41], 0), (UTF_INVALID, 1));
    assert_eq!(utf8decode(&vec![0xe2, 0x82, 0x41], 0), (UTF_INVALID, 2));
    assert_eq!(utf8decode(&vec![0xc0, 0x80], 0), (UTF_INVALID, 2));
    assert_eq!(utf8decode(&vec![0xc1, 0xbf], 0), (UTF_INVALID, 2));
    assert_eq!(utf8decode(&vec![0xe0, 0x80, 0x80], 0), (UTF_INVALID, 3));
    assert_eq!(utf8decode(&vec![0xed, 0xa0, 0x80], 0), (UTF_INVALID, 3));
    assert_eq!(utf8decode(&vec![0xf4, 0x90, 0x80, 0x80], 0), (UTF_INVALID, 4));
    assert_eq!(utf8decode(&vec![0xf0, 0x80, 0x80, 0x80], 0), (UTF_INVALID, 4));
}

#[test]
fn utf8_reports_incomplete_sequences() {
    assert_eq!(utf8decode(&vec![], 0), (UTF_INVALID, 0));
    assert_eq!(utf8decode(&vec![0x41], 1), (UTF_INVALID, 0));
    assert_eq!(utf8decode(&vec![0x41], 7), (UTF_INVALID, 0));
    assert_eq!(utf8decode(&vec![0xc3], 0), (UTF_INVALID, 0));
    assert_eq!(utf8decode(&vec![0xe2, 0x82], 0), (UTF_INVALID, 0));
    assert_eq!(utf8decode(&vec![0xf0, 0x9f, 0x98], 0), (UTF_INVALID, 0));
}

#[test]
fn twrite_interprets_bytes_and_keeps_an_incomplete_tail() {
    let mut t = tnew(10, 2, 0, ts(0, 0));
    let mut bytes = "aé€".as_bytes().to_vec();
    bytes.push(0xe2);
    bytes.push(0x82);
    let n = twrite(&mut t, &bytes);
    assert_eq!(n, 6);
    assert_eq!(t.glyph_at(0, 0, false).unwrap().u, 'a' as u32);
    assert_eq!(t.glyph_at(1, 0, false).unwrap().u, 0xe9);
    assert_eq!(t.glyph_at(2, 0, false).unwrap().u, 0x20ac);
    assert_eq!(t.cursor().x, 3);
    let rest = vec![0xe2, 0x82, 0xac, b'!'];
    assert_eq!(twrite(&mut t, &rest), 4);
    assert_eq!(t.glyph_at(3, 0, false).unwrap().u, 0x20ac);
    assert_eq!(t.glyph_at(4, 0, false).unwrap().u, '!' as u32);
    assert_eq!(twrite(&mut t, &vec![]), 0);
}

#[test]
fn twrite_resynchronizes_after_invalid_bytes() {
    let mut t = tnew(10, 2, 0, ts(0, 0));
    let n = twrite(&mut t, &vec![b'a', 0xff, 0x80, 0xc3, b'b', 0xc3, 0xa9]);
    assert_eq!(n, 7);
    let row: Vec<u32> = (0..6).map(|x| t.glyph_at(x, 0, false).unwrap().u).collect();
    assert_eq!(row, vec!['a' as u32, 0xfffd, 0xfffd, 0xfffd, 'b' as u32, 0xe9]);
}

#[test]
fn twrite_runs_escape_sequences() {
    let mut t = tnew(10, 3, 0, ts(0, 0));
    let n = twrite(&mut t, &b"\x1b[2;3Hok\x1b[6n".to_vec());
    assert_eq!(n, 12);
    assert_eq!(t.glyph_at(2, 1, false).unwrap().u, 'o' as u32);
    assert_eq!(t.take_reply(), b"\x1b[2;5R".to_vec());
}

#[test]
fn pasted_text_is_bracketed_only_in_bracketed_paste_mode() {
    let mut t = tnew(10, 2, 0, ts(0, 0));
    assert_eq!(tpaste(&t, &b"a\nb\r\n".to_vec()), b"a\rb\r\r".to_vec());
    assert_eq!(tpaste(&t, &vec![]), Vec::<u8>::new());
    type_in(&mut t, "\x1b[?2004h");
    assert_eq!(tpaste(&t, &b"x\ny".to_vec()), b"\x1b[200~x\ry\x1b[201~".to_vec());
    assert_eq!(tpaste(&t, &vec![]), b"\x1b[200~\x1b[201~".to_vec());
}

#[test]
fn focus_is_reported_only_in_focus_mode() {
    let mut t = tnew(10, 2, 0, ts(0, 0));
    tfocus(&mut t, true);
    assert_eq!(t.take_reply(), Vec::<u8>::new());
    type_in(&mut t, "\x1b[?1004h");
    tfocus(&mut t, true);
    tfocus(&mut t, false);
    assert_eq!(t.take_reply(), b"\x1b[I\x1b[O".to_vec());
}
