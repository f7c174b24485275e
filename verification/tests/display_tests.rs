//! Formatting and dirty-tracking text layer.

use navdisplay::layout::{DisplayField, DrawOp, Font, FontId, Layout, Point};
use navdisplay::u8writer::U8Writer;

#[test]
fn writer_basics() {
    let mut w = U8Writer::new(4);
    assert_eq!(w.capacity(), 4);
    assert!(w.empty());
    assert!(!w.full());
    assert!(w.write_char(b'a').is_ok());
    assert_eq!(w.len(), 1);
    w.write_str(b"bcd");
    assert!(w.full());
    assert_eq!(w.as_str(), b"abcd".to_vec());
    // Writes past the capacity are truncated, not an error.
    w.write_str(b"xyz");
    assert_eq!(w.as_str(), b"abcd".to_vec());
    assert!(w.write_char(b'x').is_err());
    w.clear();
    assert!(w.empty());
}

#[test]
fn writer_fill_pads_the_tail() {
    let mut w = U8Writer::new(6);
    w.write_str(b"ab");
    w.fill(b' ');
    assert_eq!(w.buffer().clone(), b"ab    ".to_vec());
    assert_eq!(w.as_str(), b"ab".to_vec());
}

#[test]
fn write_number_pads_and_zero_is_blank() {
    let mut w = U8Writer::new(8);
    assert!(w.write_number(4, b' ', 42).is_ok());
    assert_eq!(w.as_str(), b"  42".to_vec());
    // A zero value contributes no digits: the whole field is padding.
    let mut w = U8Writer::new(8);
    assert!(w.write_number(2, b' ', 0).is_ok());
    assert_eq!(w.as_str(), b"  ".to_vec());
    let mut w = U8Writer::new(8);
    assert!(w.write_number(1, b'0', 0).is_ok());
    assert_eq!(w.as_str(), b"0".to_vec());
    // Truncated at the buffer's end, and reported.
    let mut w = U8Writer::new(3);
    assert!(w.write_number(5, b'0', 12).is_err());
    assert_eq!(w.as_str(), b"000".to_vec());
}

#[test]
fn write_uint_plain_decimal() {
    let mut w = U8Writer::new(12);
    w.write_uint(0);
    w.write_uint(907);
    assert_eq!(w.as_str(), b"0907".to_vec());
}

#[test]
fn field_diffs_and_render_idempotence() {
    let mut f: DisplayField<4> = DisplayField::new();
    // A fresh field is entirely dirty.
    for i in 0..4 {
        assert!(f.getdirtychar(i).is_some());
    }
    f.update_from(b"abcd");
    let layout = Layout::new();
    let mut ops: Vec<DrawOp> = Vec::new();
    layout.render_field(&mut ops, Point::new(0, 0), &mut f);
    assert_eq!(ops.len(), 4);
    for i in 0..4 {
        assert!(f.getdirtychar(i).is_none());
    }
    // Writing the same content twice marks nothing dirty: the next render
    // issues zero draw operations.
    f.update_from(b"abcd");
    for i in 0..4 {
        assert!(f.getdirtychar(i).is_none());
    }
    let mut ops2: Vec<DrawOp> = Vec::new();
    layout.render_field(&mut ops2, Point::new(0, 0), &mut f);
    assert_eq!(ops2.len(), 0);
    // A single changed cell dirties exactly that cell.
    f.update_from(b"abXd");
    assert!(f.getdirtychar(0).is_none());
    assert!(f.getdirtychar(1).is_none());
    assert_eq!(f.getdirtychar(2), Some(b'X'));
    assert!(f.getdirtychar(3).is_none());
}

#[test]
fn field_from_str_pads_with_spaces() {
    let f: DisplayField<6> = DisplayField::from_str(b"hi");
    assert_eq!(f.getdirtychar(0), Some(b'h'));
    assert_eq!(f.getdirtychar(1), Some(b'i'));
    assert_eq!(f.getdirtychar(2), Some(b' '));
    assert_eq!(f.getdirtychar(5), Some(b' '));
}

#[test]
fn field_clear_blanks() {
    let mut f: DisplayField<3> = DisplayField::from_str(b"abc");
    f.clear_dirty();
    f.clear();
    assert_eq!(f.getdirtychar(0), Some(b' '));
    assert_eq!(f.getdirtychar(1), Some(b' '));
    assert_eq!(f.getdirtychar(2), Some(b' '));
}

#[test]
fn glyph_run_advances_by_cell_width() {
    let font = Font { id: FontId::Med };
    let mut ops: Vec<DrawOp> = Vec::new();
    let end = font.write_str(&mut ops, Point::new(10, 20), b"ab");
    assert_eq!(ops.len(), 2);
    assert_eq!(ops[0], DrawOp::Glyph { font: FontId::Med, x: 10, y: 20, ch: b'a' });
    assert_eq!(ops[1], DrawOp::Glyph { font: FontId::Med, x: 26, y: 20, ch: b'b' });
    assert_eq!(end, Point::new(42, 20));
}

#[test]
fn kerned_text_draws_dots_for_points() {
    let font = Font { id: FontId::MedDigits };  // 60x78 cells, dot diameter 11
    let mut ops: Vec<DrawOp> = Vec::new();
    let end = font.write_kerned_str(&mut ops, Point::new(0, 0), b"1.5");
    // glyph '1', dot, glyph '5'
    assert_eq!(ops.len(), 3);
    assert_eq!(ops[0], DrawOp::Glyph { font: FontId::MedDigits, x: 0, y: 0, ch: b'1' });
    match ops[1] {
        DrawOp::Dot { x, y, diameter } => {
            assert_eq!(x, 60);
            assert_eq!(diameter, 78 / 7);
            assert_eq!(y, 78 - 78 / 7 - 4);
        },
        _ => panic!("expected a dot"),
    }
    assert_eq!(ops[2], DrawOp::Glyph { font: FontId::MedDigits, x: 60 + 78 / 7, y: 0, ch: b'5' });
    assert_eq!(end.x, 60 + 78 / 7 + 60);
}

#[test]
fn char_point_uses_cell_grid() {
    let layout = Layout::new();
    let p = layout.char_point(2, 3);
    assert_eq!(p, Point::new(4 + 2 * 16, 10 + 3 * 29));
    let font = Font { id: FontId::Med };
    assert_eq!(font.char_width(), 16);
    assert_eq!(font.char_height(), 29);
}

#[test]
fn layout_clear_is_background_rect() {
    let layout = Layout::new();
    let mut ops: Vec<DrawOp> = Vec::new();
    layout.clear(&mut ops);
    assert_eq!(
        ops,
        vec![DrawOp::Rect { x: 0, y: 0, width: 480, height: 320, fill_on: false }],
    );
}

#[test]
fn kerned_text_without_points_is_one_run() {
    let font = Font { id: FontId::MedDigits };
    let mut ops: Vec<DrawOp> = Vec::new();
    let end = font.write_kerned_str(&mut ops, Point::new(5, 7), b"42");
    assert_eq!(ops.len(), 2);
    assert_eq!(end, Point::new(5 + 2 * 60, 7));
    assert!(ops.iter().all(|op| matches!(op, DrawOp::Glyph { .. })));
}

#[test]
fn kerned_text_edge_cases() {
    let font = Font { id: FontId::MedDigits };
    // Empty text draws nothing and stays put.
    let mut ops: Vec<DrawOp> = Vec::new();
    let end = font.write_kerned_str(&mut ops, Point::new(3, 4), b"");
    assert!(ops.is_empty());
    assert_eq!(end, Point::new(3, 4));
    // A leading point draws the dot before any glyph.
    let mut ops: Vec<DrawOp> = Vec::new();
    font.write_kerned_str(&mut ops, Point::new(0, 0), b".5");
    assert!(matches!(ops[0], DrawOp::Dot { x: 0, .. }));
    assert!(matches!(ops[1], DrawOp::Glyph { ch: b'5', .. }));
    // Two points, two dots.
    let mut ops: Vec<DrawOp> = Vec::new();
    font.write_kerned_str(&mut ops, Point::new(0, 0), b"1.2.3");
    let dots = ops.iter().filter(|op| matches!(op, DrawOp::Dot { .. })).count();
    assert_eq!(dots, 2);
    let glyphs = ops.iter().filter(|op| matches!(op, DrawOp::Glyph { .. })).count();
    assert_eq!(glyphs, 3);
}
