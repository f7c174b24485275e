//! Framebuffer, refresh planning and the debounced page button.

use navdisplay::debouncer::{Debouncer, Transition};
use navdisplay::memory_display::{rev8, transaction_bytes, MemoryDisplay, Transaction};

type Display = MemoryDisplay<12000, 240>;

#[test]
fn rev8_reverses_bits() {
    assert_eq!(rev8(0b0000_0001), 0b1000_0000);
    assert_eq!(rev8(0b1000_0000), 0b0000_0001);
    assert_eq!(rev8(0b1010_0000), 0b0000_0101);
    assert_eq!(rev8(0), 0);
    assert_eq!(rev8(0xff), 0xff);
}

#[test]
fn first_refresh_ships_the_deferred_clear() {
    let mut d = Display::new();
    let ts = d.refresh();
    assert_eq!(ts.len(), 1);
    match &ts[0] {
        Transaction::Clear { vcom } => assert!(*vcom),
        _ => panic!("expected the pending clear"),
    }
    assert_eq!(transaction_bytes(&ts[0]), vec![32 | 64, 0]);
}

#[test]
fn idle_refresh_toggles_polarity() {
    let mut d = Display::new();
    let _ = d.refresh();
    // Nothing dirty, no clear pending: a bare polarity toggle still ships.
    let ts = d.refresh();
    assert_eq!(ts.len(), 1);
    match &ts[0] {
        Transaction::Toggle { vcom } => assert!(!*vcom),
        _ => panic!("expected a polarity toggle"),
    }
    assert_eq!(transaction_bytes(&ts[0]), vec![0, 0]);
    // And it keeps alternating.
    let ts = d.refresh();
    match &ts[0] {
        Transaction::Toggle { vcom } => assert!(*vcom),
        _ => panic!("expected a polarity toggle"),
    }
}

#[test]
fn only_dirty_lines_ship() {
    let mut d = Display::new();
    let _ = d.refresh();

    d.set_pixel(0, 10, true);
    d.set_pixel(399, 10, true);
    d.set_pixel(5, 100, true);
    let ts = d.refresh();
    // Two runs: line 10 and line 100.
    assert_eq!(ts.len(), 2);
    match &ts[0] {
        Transaction::Lines { lines, .. } => {
            assert_eq!(lines.len(), 1);
            assert_eq!(lines[0].y, 10);
            assert_eq!(lines[0].addr, rev8(11));
            assert_eq!(lines[0].pixels.len(), 50);
            // Drawing "on" clears the bit: leftmost pixel of the row.
            assert_eq!(lines[0].pixels[0], 0b0111_1111);
            assert_eq!(lines[0].pixels[49], 0b1111_1110);
        },
        _ => panic!("expected a line run"),
    }
    match &ts[1] {
        Transaction::Lines { lines, .. } => {
            assert_eq!(lines.len(), 1);
            assert_eq!(lines[0].y, 100);
        },
        _ => panic!("expected a line run"),
    }

    // Dirty flags are not consumed by a refresh: the lines ship again
    // until the bitmap is cleared.
    let ts = d.refresh();
    assert_eq!(ts.len(), 2);
}

#[test]
fn consecutive_dirty_lines_form_one_run() {
    let mut d = Display::new();
    let _ = d.refresh();
    d.set_pixel(3, 20, true);
    d.set_pixel(3, 21, true);
    d.set_pixel(3, 22, true);
    let ts = d.refresh();
    assert_eq!(ts.len(), 1);
    match &ts[0] {
        Transaction::Lines { lines, .. } => {
            let ys: Vec<usize> = lines.iter().map(|l| l.y).collect();
            assert_eq!(ys, vec![20, 21, 22]);
        },
        _ => panic!("expected one run"),
    }
}

#[test]
fn line_transaction_bytes_follow_the_wire_format() {
    let mut d = Display::new();
    let _ = d.refresh();
    d.set_pixel(0, 0, true);
    let ts = d.refresh();
    let bytes = transaction_bytes(&ts[0]);
    // mode byte (line mode, polarity low after the clear toggled it high
    // and the idle refresh brought it back), address, 50 pixel bytes, a
    // dummy per line, a trailing dummy.
    assert_eq!(bytes.len(), 1 + 1 + 50 + 1 + 1);
    assert_eq!(bytes[0] & 0b1000_0000, 0b1000_0000);
    assert_eq!(bytes[1], rev8(1));
    assert_eq!(bytes[2], 0b0111_1111);
    assert_eq!(*bytes.last().unwrap(), 0);
}

#[test]
fn clear_to_background_defers_hardware_clear() {
    let mut d = Display::new();
    let _ = d.refresh();
    d.set_pixel(8, 30, true);
    d.clear(false);
    let ts = d.refresh();
    // The clear command ships; no line data is needed.
    assert_eq!(ts.len(), 1);
    assert!(matches!(ts[0], Transaction::Clear { .. }));
}

#[test]
fn fill_with_foreground_marks_every_line() {
    let mut d = Display::new();
    let _ = d.refresh();
    d.clear(true);
    let ts = d.refresh();
    // All 240 lines are dirty and consecutive: one big run.
    assert_eq!(ts.len(), 1);
    match &ts[0] {
        Transaction::Lines { lines, .. } => {
            assert_eq!(lines.len(), 240);
            assert_eq!(lines[0].pixels[0], 0x00);
        },
        _ => panic!("expected one run"),
    }
}

#[test]
fn out_of_bounds_pixels_are_ignored() {
    let mut d = Display::new();
    let _ = d.refresh();
    d.set_pixel(400, 0, true);
    d.set_pixel(0, 240, true);
    let ts = d.refresh();
    assert!(matches!(ts[0], Transaction::Toggle { .. }));
}

#[test]
fn debouncer_waits_for_consistent_samples() {
    let mut db = Debouncer::new(3);
    // Initial sample latches the level without a transition.
    assert_eq!(db.next(true), None);
    // A short glitch does not register.
    assert_eq!(db.next(false), None);
    assert_eq!(db.next(false), None);
    assert_eq!(db.next(true), None);
    // Three consistent lows produce one falling transition.
    assert_eq!(db.next(false), None);
    assert_eq!(db.next(false), None);
    assert_eq!(db.next(false), Some(Transition::ToLow));
    assert_eq!(db.next(false), None);
    // And back up.
    assert_eq!(db.next(true), None);
    assert_eq!(db.next(true), None);
    assert_eq!(db.next(true), Some(Transition::ToHigh));
}
