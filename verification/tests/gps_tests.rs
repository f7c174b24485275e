//! Aggregator behavior: message handling, snapshot hand-off, smoothing
//! windows, and an end-to-end run through the real protocol decoder.

use navdisplay::gps::{knots_from_raw, FixMessage, Gps, Packet};
use navdisplay::samples::AverageBuffer;

fn fix(sat: u8, ok: bool, speed_raw: u32) -> FixMessage {
    FixMessage {
        sat_in_use: sat,
        fix_ok: ok,
        lat_raw: 523000000,
        lon_raw: 131000000,
        heading_raw: 2500000,
        speed_raw,
        year: 2021,
        month: 6,
        day: 15,
        hour: 12,
        min: 30,
        sec: 45,
    }
}

#[test]
fn knots_conversion_is_fixed_point() {
    // 1 m/s = 1000 mm/s -> 1.943844 kn = 1943 milli-knots (truncated).
    assert_eq!(knots_from_raw(1000), 1943);
    assert_eq!(knots_from_raw(0), 0);
    // 6348 mm/s -> 12339 milli-knots, about 12.34 knots.
    assert_eq!(knots_from_raw(6348), 12339);
}

#[test]
fn take_returns_some_then_none() {
    let mut gps = Gps::new();
    // The initial snapshot is marked updated.
    assert!(gps.take().is_some());
    assert!(gps.take().is_none());
    gps.handle_packet(&Packet::Odometer(1234));
    let first = gps.take();
    assert!(first.is_some());
    assert_eq!(first.unwrap().distance_m, 1234);
    assert!(gps.take().is_none());
}

#[test]
fn maxima_dominate_observed_speeds() {
    let mut gps = Gps::new();
    let speeds = [2000u32, 7000, 4000, 9000, 3000];
    let mut observed_max = 0u64;
    for raw in speeds {
        gps.handle_packet(&Packet::Fix(fix(8, true, raw)));
        let snap = gps.take().unwrap();
        if snap.speed > observed_max {
            observed_max = snap.speed;
        }
        assert!(snap.max_speed >= snap.speed);
        assert!(snap.max_speed >= observed_max);
        assert!(snap.max_avg_speed >= snap.avg_speed);
    }
}

#[test]
fn invalid_fix_clears_position_and_windows() {
    let mut gps = Gps::new();
    gps.handle_packet(&Packet::Fix(fix(9, true, 8000)));
    let snap = gps.take().unwrap();
    assert!(snap.latitude.is_some());
    assert!(snap.longitude.is_some());
    assert!(snap.course.is_some());
    assert!(snap.time.is_some());

    // Loss of fix: position data gone, windows restarted.
    gps.handle_packet(&Packet::Fix(fix(0, false, 0)));
    let snap = gps.take().unwrap();
    assert_eq!(snap.sat_in_use, 0);
    assert!(snap.latitude.is_none());
    assert!(snap.longitude.is_none());
    assert!(snap.course.is_none());
    assert!(snap.hdop.is_none());
    assert!(snap.time.is_none());
    // The short window (2 slots) holds only the post-loss sample (0).
    assert_eq!(snap.speed, 0);

    // One new sample after the loss: the average reflects only it (and the
    // zero slots), never the 8000-raw sample from before the loss.
    gps.handle_packet(&Packet::Fix(fix(4, true, 6000)));
    let snap = gps.take().unwrap();
    let mkn = knots_from_raw(6000);
    // short window: [0, mkn] -> mkn / 2.
    assert_eq!(snap.speed, mkn / 2);
    // long window: 20 slots, one sample.
    assert_eq!(snap.avg_speed, mkn / 20);
}

#[test]
fn multiple_messages_collapse_into_one_snapshot() {
    let mut gps = Gps::new();
    let _ = gps.take();
    gps.handle_packet(&Packet::Odometer(100));
    gps.handle_packet(&Packet::Odometer(250));
    let snap = gps.take().unwrap();
    assert_eq!(snap.distance_m, 250);
    assert!(gps.take().is_none());
}

#[test]
fn ignored_packets_change_nothing() {
    let mut gps = Gps::new();
    let _ = gps.take();
    gps.handle_packet(&Packet::Version);
    gps.handle_packet(&Packet::Other);
    gps.handle_packet(&Packet::Malformed);
    gps.handle_packet(&Packet::Ack { class: 6, msg_id: 0 });
    assert!(gps.take().is_none());
}

#[test]
fn average_buffer_divides_by_full_capacity() {
    let mut buf: AverageBuffer<4> = AverageBuffer::new();
    buf.add(100);
    buf.add(100);
    buf.add(100);
    buf.add(100);
    assert_eq!(buf.avg_value(), 100);
    buf.reset();
    assert_eq!(buf.avg_value(), 0);
    // After a reset, a single sample still divides by the capacity: the
    // untouched zero slots count toward the denominator.
    buf.add(100);
    assert_eq!(buf.avg_value(), 25);
}

#[test]
fn average_buffer_wraps_around() {
    let mut buf: AverageBuffer<2> = AverageBuffer::new();
    buf.add(10);
    buf.add(20);
    buf.add(30);  // overwrites the first slot
    assert_eq!(buf.avg_value(), 25);
}

// ---- end-to-end through the real protocol decoder ----

fn ubx_checksum(data: &[u8]) -> (u8, u8) {
    let mut ck_a = 0u8;
    let mut ck_b = 0u8;
    for b in data {
        ck_a = ck_a.wrapping_add(*b);
        ck_b = ck_b.wrapping_add(ck_a);
    }
    (ck_a, ck_b)
}

fn frame(class: u8, id: u8, payload: &[u8]) -> Vec<u8> {
    let mut out = vec![0xb5, 0x62, class, id];
    out.extend_from_slice(&(payload.len() as u16).to_le_bytes());
    out.extend_from_slice(payload);
    let (ck_a, ck_b) = ubx_checksum(&out[2..]);
    out.push(ck_a);
    out.push(ck_b);
    out
}

/// A NavPvt payload (92 bytes) with the fields the aggregator reads.
fn nav_pvt_payload(sat: u8, fix_ok: bool, ground_speed_mms: u32, heading_1e5: i32) -> Vec<u8> {
    let mut p = vec![0u8; 92];
    p[4..6].copy_from_slice(&2021u16.to_le_bytes()); // year
    p[6] = 6; // month
    p[7] = 15; // day
    p[8] = 12; // hour
    p[9] = 30; // min
    p[10] = 45; // sec
    p[20] = 3; // fix_type: 3D fix (a valid GpsFix variant)
    p[21] = if fix_ok { 1 } else { 0 }; // flags: GPS_FIX_OK
    p[23] = sat;
    p[24..28].copy_from_slice(&131000000i32.to_le_bytes()); // lon (1e-7 deg)
    p[28..32].copy_from_slice(&523000000i32.to_le_bytes()); // lat (1e-7 deg)
    p[60..64].copy_from_slice(&ground_speed_mms.to_le_bytes());
    p[64..68].copy_from_slice(&heading_1e5.to_le_bytes());
    p
}

#[test]
fn scripted_stream_invalid_then_valid_fix() {
    let mut gps = Gps::new();
    let _ = gps.take();

    // One invalid-fix message, then one valid-fix message with ground
    // speed 6348 mm/s (about 12.34 knots) and 7 satellites.
    let mut stream = frame(0x01, 0x07, &nav_pvt_payload(0, false, 6348, 2500000));
    stream.extend(frame(0x01, 0x07, &nav_pvt_payload(7, true, 6348, 2500000)));

    for b in stream {
        gps.parse_u8(b);
    }

    let snap = gps.take().expect("fix messages mark the snapshot dirty");
    assert_eq!(snap.sat_in_use, 7);
    // Both samples entered the 2-slot window: the smoothed speed is the
    // full 12339 milli-knots, about 12.34 knots.
    assert_eq!(snap.speed, 12339);
    assert!(snap.course.is_some());
    assert_eq!(snap.course.unwrap(), 2500000);
    assert!(snap.max_speed >= 12339);
    assert!(gps.take().is_none());
}

#[test]
fn scripted_stream_with_silent_loss_message() {
    // The same stream, but the invalid-fix message reports zero ground
    // speed. Its zero sample still occupies one of the two short-window
    // slots, so the divide-by-full-capacity averaging (the documented
    // window behavior) reads half the new speed until the window refills.
    let mut gps = Gps::new();
    let _ = gps.take();
    let mut stream = frame(0x01, 0x07, &nav_pvt_payload(0, false, 0, 0));
    stream.extend(frame(0x01, 0x07, &nav_pvt_payload(7, true, 6348, 2500000)));
    for b in stream {
        gps.parse_u8(b);
    }
    let snap = gps.take().unwrap();
    assert_eq!(snap.sat_in_use, 7);
    assert_eq!(snap.speed, 12339 / 2);
    // One more valid message fills the window and the full speed shows.
    for b in frame(0x01, 0x07, &nav_pvt_payload(7, true, 6348, 2500000)) {
        gps.parse_u8(b);
    }
    assert_eq!(gps.take().unwrap().speed, 12339);
}

#[test]
fn scripted_stream_odometer() {
    let mut gps = Gps::new();
    let _ = gps.take();
    // NavOdo payload: version, 3 reserved, itow u32, distance u32, ...
    let mut p = vec![0u8; 20];
    p[8..12].copy_from_slice(&5000u32.to_le_bytes());
    for b in frame(0x01, 0x09, &p) {
        gps.parse_u8(b);
    }
    let snap = gps.take().unwrap();
    assert_eq!(snap.distance_m, 5000);
}

#[test]
fn garbage_bytes_are_dropped() {
    let mut gps = Gps::new();
    let _ = gps.take();
    for b in [0x00u8, 0xb5, 0x13, 0xff, 0x42] {
        gps.parse_u8(b);
    }
    assert!(gps.take().is_none());
    // The decoder can be reset after a transport error without losing
    // accumulated state.
    gps.handle_packet(&Packet::Odometer(77));
    gps.parse_clear();
    let snap = gps.take().unwrap();
    assert_eq!(snap.distance_m, 77);
}
