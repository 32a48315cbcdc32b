use swim::layout::{quadrants, Rect};
use swim::pane::{is_drawable, Pane, HEIGHT, WIDTH};
use swim::render::{ColorPair, Plot, Shade};
use swim::{add1, safe_add, sub1, KeyEvent, RawKey, SwimInterface};

fn type_str(s: &mut SwimInterface, text: &str) {
    for c in text.chars() {
        s.key(KeyEvent::Unicode(c));
    }
}

fn row_text(p: &Pane, r: usize) -> Vec<char> {
    (0..WIDTH).map(|c| p.cell(r, c)).collect()
}

#[test]
fn ring_wraps_forward_and_back() {
    assert_eq!(safe_add::<80>(79, 1), 0);
    assert_eq!(safe_add::<80>(30, 100), 50);
    assert_eq!(add1::<25>(24), 0);
    assert_eq!(add1::<25>(3), 4);
    assert_eq!(sub1::<25>(0), 24);
    assert_eq!(sub1::<25>(7), 6);
}

#[test]
fn drawable_is_printable_low_byte() {
    assert!(is_drawable('A'));
    assert!(is_drawable(' '));
    assert!(is_drawable('~'));
    assert!(!is_drawable('\n'));
    assert!(!is_drawable('\u{7f}'));
    assert!(!is_drawable('\u{1f}'));
    assert!(is_drawable('\u{141}'));
}

#[test]
fn default_console_is_empty_and_focused_on_zero() {
    let s = SwimInterface::default();
    assert_eq!(s.active_id(), 0);
    assert_eq!(s.all_ids(), vec![0, 1, 2, 3]);
    for id in 0..4 {
        let p = s.pane(id);
        assert_eq!(p.cursor_row(), 0);
        assert_eq!(p.next_slot(), 0);
        assert_eq!(p.visible_length(), 0);
        for r in 0..HEIGHT {
            assert!(row_text(p, r).iter().all(|&c| c == '_'));
        }
    }
}

#[test]
fn quadrant_rects_tile_the_grid() {
    let q = quadrants();
    assert_eq!(q[0], Rect { top: 0, left: 0, bottom: 11, right: 39 });
    assert_eq!(q[1], Rect { top: 0, left: 40, bottom: 11, right: 79 });
    assert_eq!(q[2], Rect { top: 12, left: 0, bottom: 24, right: 39 });
    assert_eq!(q[3], Rect { top: 12, left: 40, bottom: 24, right: 79 });
    let s = SwimInterface::new();
    for id in 0..4 {
        assert_eq!(s.rect_of(id), q[id]);
    }
    for x in 0..WIDTH {
        for y in 0..HEIGHT {
            let n = q
                .iter()
                .filter(|r| r.left <= x && x <= r.right && r.top <= y && y <= r.bottom)
                .count();
            assert_eq!(n, 1);
        }
    }
}

#[test]
fn typing_a_goes_to_window_zero() {
    let mut s = SwimInterface::default();
    let out = s.key(KeyEvent::Unicode('A'));
    assert!(out.is_empty());
    assert_eq!(s.pane(0).cell(0, 0), 'A');
    assert_eq!(s.pane(0).next_slot(), 1);
    assert_eq!(s.pane(0).visible_length(), 1);
    for id in 1..4 {
        assert_eq!(s.pane(id).cell(0, 0), '_');
        assert_eq!(s.pane(id).next_slot(), 0);
    }
}

#[test]
fn focus_switch_then_type_b() {
    let mut s = SwimInterface::default();
    s.key(KeyEvent::Unicode('A'));
    s.key(KeyEvent::RawKey(RawKey::F3));
    assert_eq!(s.active_id(), 2);
    s.key(KeyEvent::Unicode('B'));
    let row = s.pane(2).cursor_row();
    assert_eq!(s.pane(2).cell(row, 0), 'B');
    assert_eq!(s.pane(0).cell(0, 0), 'A');
    assert_eq!(s.pane(0).next_slot(), 1);
    assert_eq!(s.pane(1).cell(0, 0), '_');
    assert_eq!(s.pane(3).cell(0, 0), '_');
}

#[test]
fn every_focus_key_targets_its_window() {
    let keys = [RawKey::F1, RawKey::F2, RawKey::F3, RawKey::F4];
    for (id, k) in keys.iter().enumerate() {
        let mut s = SwimInterface::default();
        s.key(KeyEvent::RawKey(*k));
        assert_eq!(s.active_id(), id);
        s.key(KeyEvent::Unicode('z'));
        for other in 0..4 {
            let expect = if other == id { 'z' } else { '_' };
            assert_eq!(s.pane(other).cell(0, 0), expect);
        }
    }
}

#[test]
fn unmapped_raw_key_keeps_focus() {
    let mut s = SwimInterface::default();
    s.key(KeyEvent::RawKey(RawKey::F2));
    s.key(KeyEvent::RawKey(RawKey::Other));
    assert_eq!(s.active_id(), 1);
    s.set_active(7);
    assert_eq!(s.active_id(), 1);
    s.set_active(3);
    assert_eq!(s.active_id(), 3);
}

#[test]
fn undrawable_character_is_dropped() {
    let mut s = SwimInterface::default();
    let out = s.key(KeyEvent::Unicode('\u{7}'));
    assert!(out.is_empty());
    assert_eq!(s.pane(0).next_slot(), 0);
    assert_eq!(s.pane(0).visible_length(), 0);
    assert_eq!(s.pane(0).cell(0, 0), '_');
}

#[test]
fn short_line_counts_each_character() {
    for k in [0usize, 1, 5, 40, WIDTH - 2] {
        let mut s = SwimInterface::default();
        type_str(&mut s, &"q".repeat(k));
        assert_eq!(s.pane(0).next_slot(), k);
        assert_eq!(s.pane(0).visible_length(), k);
        assert_eq!(s.pane(0).cursor_row(), 0);
    }
}

#[test]
fn seventy_nine_characters_advance_one_row() {
    let mut s = SwimInterface::default();
    type_str(&mut s, &"x".repeat(WIDTH - 1));
    assert_eq!(s.pane(0).cursor_row(), 1);
    assert_eq!(s.pane(0).visible_length(), 0);
    assert_eq!(s.pane(0).next_slot(), WIDTH - 1);
    assert!(row_text(s.pane(0), 0)[..WIDTH - 1].iter().all(|&c| c == 'x'));
    s.key(KeyEvent::Unicode('y'));
    assert_eq!(s.pane(0).cell(1, WIDTH - 1), 'y');
    assert_eq!(s.pane(0).next_slot(), 0);
    assert_eq!(s.pane(0).visible_length(), 1);
    assert_eq!(s.pane(0).cursor_row(), 1);
}

#[test]
fn newline_clears_next_row_and_redraws() {
    let mut s = SwimInterface::default();
    type_str(&mut s, "hi");
    let out = s.key(KeyEvent::Unicode('\n'));
    let p = s.pane(0);
    assert_eq!(p.cursor_row(), 1);
    assert_eq!(p.next_slot(), 0);
    assert_eq!(p.visible_length(), 1);
    assert!(row_text(p, 1).iter().all(|&c| c == '_'));
    assert_eq!(p.cell(0, 0), 'h');
    let text = ColorPair { foreground: Shade::Green, background: Shade::Black };
    assert_eq!(out, vec![Plot { ch: '_', x: 1, y: 1, color: text }]);
}

#[test]
fn newline_overwrites_row_after_wrap() {
    let mut s = SwimInterface::default();
    s.key(KeyEvent::RawKey(RawKey::F4));
    type_str(&mut s, "old");
    for _ in 0..HEIGHT - 1 {
        s.key(KeyEvent::Unicode('\n'));
    }
    assert_eq!(s.pane(3).cursor_row(), HEIGHT - 1);
    assert_eq!(s.pane(3).cell(0, 0), 'o');
    s.key(KeyEvent::Unicode('\n'));
    assert_eq!(s.pane(3).cursor_row(), 0);
    assert!(row_text(s.pane(3), 0).iter().all(|&c| c == '_'));
}

#[test]
fn draw_all_windows_stays_inside_the_windows() {
    let s = SwimInterface::default();
    let q = quadrants();
    let out = s.draw_all_windows();
    let per_window = 2 * 40 + 2 * 12 + 2;
    let lower = 2 * 40 + 2 * 13 + 2;
    assert_eq!(out.len(), 2 * per_window + 2 * lower);
    for p in &out {
        assert!(q
            .iter()
            .any(|r| r.left <= p.x && p.x <= r.right && r.top <= p.y && p.y <= r.bottom));
    }
}

#[test]
fn focused_window_is_highlighted_with_title() {
    let mut s = SwimInterface::default();
    s.key(KeyEvent::RawKey(RawKey::F2));
    let hi = ColorPair { foreground: Shade::Black, background: Shade::Green };
    let lo = ColorPair { foreground: Shade::Green, background: Shade::Black };
    let w1 = s.draw_window(1);
    assert!(w1.iter().all(|p| p.color == hi));
    let n = w1.len();
    assert_eq!(w1[n - 2], Plot { ch: 'F', x: 59, y: 0, color: hi });
    assert_eq!(w1[n - 1], Plot { ch: '2', x: 60, y: 0, color: hi });
    let w2 = s.draw_window(2);
    assert!(w2.iter().all(|p| p.color == lo));
    let m = w2.len();
    assert_eq!(w2[m - 1], Plot { ch: '3', x: 20, y: 12, color: lo });
    assert_eq!(w2[0], Plot { ch: '.', x: 0, y: 12, color: lo });
    assert_eq!(w2[1], Plot { ch: '.', x: 0, y: 24, color: lo });
}

#[test]
fn tick_erases_frames_then_draws_live_row() {
    let mut s = SwimInterface::default();
    type_str(&mut s, "ab");
    let out = s.tick();
    let frames = s.draw_all_windows();
    let blank = ColorPair { foreground: Shade::Black, background: Shade::Black };
    let text = ColorPair { foreground: Shade::Green, background: Shade::Black };
    assert_eq!(out.len(), 2 + frames.len() + 2);
    assert_eq!(out[0], Plot { ch: ' ', x: 1, y: 0, color: blank });
    assert_eq!(out[1], Plot { ch: ' ', x: 2, y: 0, color: blank });
    assert_eq!(&out[2..2 + frames.len()], &frames[..]);
    assert_eq!(out[out.len() - 2], Plot { ch: 'a', x: 1, y: 0, color: text });
    assert_eq!(out[out.len() - 1], Plot { ch: 'b', x: 2, y: 0, color: text });
    assert_eq!(s.pane(0).next_slot(), 2);
}

#[test]
fn live_row_is_clipped_at_right_edge() {
    let mut s = SwimInterface::default();
    type_str(&mut s, &"k".repeat(60));
    let out = s.draw_current();
    assert_eq!(out.len(), 38);
    assert!(out.iter().all(|p| p.x < 39));
    s.key(KeyEvent::RawKey(RawKey::F2));
    type_str(&mut s, &"m".repeat(60));
    let out = s.draw_current();
    assert_eq!(out.len(), 38);
    assert_eq!(out[0].x, 41);
    assert!(out.iter().all(|p| p.x < 79 && p.ch == 'm'));
}
