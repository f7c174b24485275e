//! Screen family: battery gauge, status line, page cycling.

use navdisplay::gps::{GpsData, GpsTime};
use navdisplay::layout::DrawOp;
use navdisplay::screens::{
    battery_percent, format_dd_d, format_time, format_vbat, PageId, Screens, Update, Updateable,
};

fn snapshot() -> GpsData {
    GpsData {
        sat_in_use: 5,
        course: Some(2500000),
        speed: 12339,
        max_speed: 15000,
        avg_speed: 11000,
        max_avg_speed: 12000,
        distance_m: 1852,
        hdop: None,
        latitude: Some(523000000),
        longitude: Some(-131000000),
        time: Some(GpsTime { year: 2021, month: 6, day: 15, hour: 12, min: 30, sec: 45 }),
    }
}

#[test]
fn battery_percent_clamps_and_interpolates() {
    // Below the configured minimum: empty.
    assert_eq!(battery_percent(0), 0);
    assert_eq!(battery_percent(3399), 0);
    // At or above the configured maximum: full.
    assert_eq!(battery_percent(4200), 100);
    assert_eq!(battery_percent(5000), 100);
    // Exactly halfway: 50.
    assert_eq!(battery_percent(3800), 50);
    // Linear in between.
    assert_eq!(battery_percent(3400), 0);
    assert_eq!(battery_percent(3600), 25);
    assert_eq!(battery_percent(4000), 75);
}

#[test]
fn updateable_reports_changes_once() {
    let mut u: Updateable<u8> = Updateable::new(4);
    assert_eq!(u.updated(), Some(4));
    assert_eq!(u.updated(), None);
    u.set(4);
    assert_eq!(u.updated(), None);
    u.set(9);
    assert_eq!(u.updated(), Some(9));
    assert_eq!(u.updated(), None);
}

#[test]
fn format_dd_d_examples() {
    assert_eq!(format_dd_d(123), b"12.3".to_vec());
    assert_eq!(format_dd_d(0), b"  .0".to_vec());
    assert_eq!(format_dd_d(7), b"  .7".to_vec());
    assert_eq!(format_dd_d(999), b"99.9".to_vec());
    // Wider values keep all their digits instead of panicking.
    assert_eq!(format_dd_d(12345), b"1234.5".to_vec());
}

#[test]
fn format_time_examples() {
    let t = GpsTime { year: 2021, month: 6, day: 15, hour: 9, min: 5, sec: 7 };
    assert_eq!(format_time(&Some(t)), b"09:05:07".to_vec());
    assert_eq!(format_time(&None), b"--:--:--".to_vec());
}

#[test]
fn format_vbat_example() {
    assert_eq!(format_vbat(3874), b"Vbat: 3874mV".to_vec());
}

#[test]
fn page_cycle_returns_to_start() {
    let mut screens = Screens::new();
    assert_eq!(screens.current_page(), PageId::Speed);
    let mut ops: Vec<DrawOp> = Vec::new();
    screens.next_page(&mut ops);
    assert_eq!(screens.current_page(), PageId::Stats);
    screens.next_page(&mut ops);
    assert_eq!(screens.current_page(), PageId::Cog);
    screens.next_page(&mut ops);
    assert_eq!(screens.current_page(), PageId::Misc);
    screens.next_page(&mut ops);
    assert_eq!(screens.current_page(), PageId::Speed);
}

#[test]
fn fresh_page_paints_in_full() {
    let mut screens = Screens::new();
    let mut ops: Vec<DrawOp> = Vec::new();
    screens.render(&mut ops);
    // The fresh speed page repaints everything: 8 satellite cells, 4 label
    // cells, two digits, the decimal point, and the tenths digit.
    assert_eq!(ops.len(), 8 + 4 + 2 + 1 + 1);

    // A second render with no update in between paints nothing new except
    // the mandatory decimal point.
    let mut ops2: Vec<DrawOp> = Vec::new();
    screens.render(&mut ops2);
    assert_eq!(ops2.len(), 1);
    assert!(matches!(ops2[0], DrawOp::Dot { .. }));

    // Every page turn clears the display and fully repaints the new page.
    let mut ops3: Vec<DrawOp> = Vec::new();
    screens.next_page(&mut ops3);
    assert!(matches!(
        ops3[0],
        DrawOp::Rect { x: 0, y: 0, width: 480, height: 320, fill_on: false }
    ));
    assert!(ops3.len() > 1);
}

#[test]
fn speed_page_shows_rounded_digits() {
    let mut screens = Screens::new();
    let mut ops: Vec<DrawOp> = Vec::new();
    screens.render(&mut ops);

    // 12339 milli-knots -> 123 tenths -> digits 1, 2, 3.
    screens.update_gps(&snapshot());
    let mut ops: Vec<DrawOp> = Vec::new();
    screens.render(&mut ops);
    let glyphs: Vec<u8> = ops
        .iter()
        .filter_map(|op| match op {
            DrawOp::Glyph { font: navdisplay::layout::FontId::BigDigits, ch, .. } => Some(*ch),
            _ => None,
        })
        .collect();
    assert_eq!(glyphs, vec![b'1', b'2', b'3']);
}

#[test]
fn status_line_blinks_without_satellites() {
    let mut screens = Screens::new();
    let mut ops: Vec<DrawOp> = Vec::new();
    screens.render(&mut ops);

    let mut no_fix = snapshot();
    no_fix.sat_in_use = 0;
    no_fix.course = None;

    // First update with zero satellites: the field blanks (blink phase).
    screens.update_gps(&no_fix);
    let mut ops: Vec<DrawOp> = Vec::new();
    screens.render(&mut ops);
    // Second update: the field shows "Sats: 0" again.
    screens.update_gps(&no_fix);
    let mut ops2: Vec<DrawOp> = Vec::new();
    screens.render(&mut ops2);
    // The two renders cannot both be empty: the field alternates.
    assert!(ops.len() + ops2.len() > 0);
}

#[test]
fn vbat_update_draws_battery_gauge() {
    let mut screens = Screens::new();
    let mut ops: Vec<DrawOp> = Vec::new();
    screens.render(&mut ops);

    screens.update_vbat(3800);
    let mut ops: Vec<DrawOp> = Vec::new();
    screens.render(&mut ops);
    let rects: Vec<&DrawOp> = ops.iter().filter(|op| matches!(op, DrawOp::Rect { .. })).collect();
    // The gauge is four rectangles; the fill bar is 24 * 50 / 100 = 12 wide.
    assert_eq!(rects.len(), 4);
    match rects[3] {
        DrawOp::Rect { width, .. } => assert_eq!(*width, 12),
        _ => unreachable!(),
    }
}

#[test]
fn stats_page_renders_values_once() {
    let mut screens = Screens::new();
    let mut ops: Vec<DrawOp> = Vec::new();
    screens.next_page(&mut ops);
    assert_eq!(screens.current_page(), PageId::Stats);

    screens.update(&Update::Gps(snapshot()));
    let mut ops: Vec<DrawOp> = Vec::new();
    screens.render(&mut ops);
    // Lines and labels are always drawn.
    assert!(ops.iter().any(|op| matches!(op, DrawOp::Line { .. })));
    // 1852 m is 1.0 nautical miles -> "10" tenths -> " 1.0".
    // The time is drawn in the text font.
    let med_text: Vec<u8> = ops
        .iter()
        .filter_map(|op| match op {
            DrawOp::Glyph { font: navdisplay::layout::FontId::Med, ch, .. } => Some(*ch),
            _ => None,
        })
        .collect();
    let text = String::from_utf8(med_text).unwrap();
    assert!(text.contains("12:30:45"));
    // The three numbers in the digit font: max 15000 milli-knots is 15.0,
    // the average maximum 12000 is 12.0, and 1852 m is exactly 1.0 nm;
    // their digit glyphs in render order (points are separate dot draws).
    let digit_text: Vec<u8> = ops
        .iter()
        .filter_map(|op| match op {
            DrawOp::Glyph { font: navdisplay::layout::FontId::MedDigits, ch, .. } => Some(*ch),
            _ => None,
        })
        .collect();
    assert_eq!(String::from_utf8(digit_text).unwrap(), "150120 10");
    let dots = ops.iter().filter(|op| matches!(op, DrawOp::Dot { .. })).count();
    assert_eq!(dots, 3);

    // Unchanged values are not redrawn.
    screens.update(&Update::Gps(snapshot()));
    let mut ops2: Vec<DrawOp> = Vec::new();
    screens.render(&mut ops2);
    assert!(ops2.len() < ops.len());
}

#[test]
fn misc_page_shows_position_text() {
    let mut screens = Screens::new();
    let mut ops: Vec<DrawOp> = Vec::new();
    screens.next_page(&mut ops);
    screens.next_page(&mut ops);
    screens.next_page(&mut ops);
    assert_eq!(screens.current_page(), PageId::Misc);
    let mut ops: Vec<DrawOp> = Vec::new();
    screens.render(&mut ops);

    screens.update(&Update::Gps(snapshot()));
    let mut ops: Vec<DrawOp> = Vec::new();
    screens.render(&mut ops);
    let text: Vec<u8> = ops
        .iter()
        .filter_map(|op| match op {
            DrawOp::Glyph { ch, .. } => Some(*ch),
            _ => None,
        })
        .collect();
    let text = String::from_utf8(text).unwrap();
    // 523000000 in 1e-7 degrees is 52.3000000 degrees, six decimals shown.
    assert!(text.contains("52.300000"));
    // The longitude is negative.
    assert!(text.contains("-13.100000"));
    // The smoothed speed in knots.
    assert!(text.contains("12.3"));
}
