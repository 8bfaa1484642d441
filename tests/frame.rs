use embedded_graphics::prelude::{Point, Size};
use embedded_graphics::primitives::Rectangle;
use rust_clock::reading::ClimateReading;
use rust_clock::render::{climate_ops, frame_ops, layout_ops, render_frame, signal_ops, time_ops, DrawOp};
use rust_clock::signal::{find_signal, record_scan, AccessPoint, ScanError, SignalStatus, WIFI_SSID};
use rust_clock::tracker::WifiSignalTracker;

fn text_of(op: &DrawOp) -> Option<(String, Point)> {
    match op {
        DrawOp::Text(s, p) => Some((s.clone(), *p)),
        _ => None,
    }
}

fn ap(name: &str, s: i32) -> AccessPoint {
    AccessPoint { ssid: name.to_string(), signal_strength: s }
}

#[test]
fn layout_has_three_outlines() {
    let ops = layout_ops();
    let rects: Vec<Rectangle> = ops
        .iter()
        .map(|o| match o {
            DrawOp::Outline(r) => *r,
            _ => panic!("not an outline"),
        })
        .collect();
    assert_eq!(
        rects,
        vec![
            Rectangle::new(Point::new(0, 0), Size::new(65, 33)),
            Rectangle::new(Point::new(64, 0), Size::new(64, 33)),
            Rectangle::new(Point::new(0, 32), Size::new(128, 32)),
        ]
    );
}

#[test]
fn time_text_at_anchor() {
    let ops = time_ops(Some((7, 3)));
    assert_eq!(ops.len(), 1);
    assert_eq!(text_of(&ops[0]), Some(("07:03".to_string(), Point::new(12, 17))));
    assert!(time_ops(None).is_empty());
}

#[test]
fn climate_text_is_calibrated() {
    let ops = climate_ops(Some(ClimateReading { temperature: 250, humidity: 455 }), 40);
    assert_eq!(ops.len(), 2);
    assert_eq!(text_of(&ops[0]), Some(("21.0°C".to_string(), Point::new(78, 11))));
    assert_eq!(text_of(&ops[1]), Some(("45.5%".to_string(), Point::new(78, 25))));
}

#[test]
fn climate_skipped_on_failed_read() {
    assert!(climate_ops(None, 40).is_empty());
}

#[test]
fn signal_draws_pixels_and_average() {
    let pts = [Point::new(0, 40), Point::new(1, 50)];
    let ops = signal_ops(&pts, 45);
    assert_eq!(ops.len(), 3);
    assert!(matches!(ops[0], DrawOp::Pixel(p) if p == Point::new(0, 40)));
    assert!(matches!(ops[1], DrawOp::Pixel(p) if p == Point::new(1, 50)));
    assert_eq!(text_of(&ops[2]), Some(("-45".to_string(), Point::new(108, 44))));
}

#[test]
fn frame_order_and_size() {
    let pts = [Point::new(3, 33)];
    let ops = frame_ops(Some((10, 0)), None, 40, &pts, 33);
    assert!(matches!(ops[0], DrawOp::Clear));
    // clear, three outlines, time, one pixel, average
    assert_eq!(ops.len(), 7);
    assert_eq!(text_of(&ops[4]), Some(("10:00".to_string(), Point::new(12, 17))));
}

#[test]
fn render_frame_uses_tracker_state() {
    let mut t = WifiSignalTracker::new(5);
    t.add_point(0, 40);
    t.add_point(1, 44);
    let ops = render_frame(None, Some(ClimateReading { temperature: -15, humidity: 300 }), 40, &mut t);
    // clear, three outlines, two climate texts, two pixels, average
    assert_eq!(ops.len(), 9);
    assert_eq!(text_of(&ops[4]), Some(("-5.5°C".to_string(), Point::new(78, 11))));
    assert_eq!(text_of(&ops[8]), Some(("-42".to_string(), Point::new(108, 44))));
    assert_eq!(t.get_points().len(), 2);
}

#[test]
fn find_signal_takes_first_match() {
    let aps = vec![ap("other", -30), ap(WIFI_SSID, -60), ap(WIFI_SSID, -70)];
    assert_eq!(find_signal(&aps, &WIFI_SSID.to_string()), Some(-60));
    assert_eq!(find_signal(&aps, &"absent".to_string()), None);
}

#[test]
fn scan_records_scaled_strength_at_cursor() {
    let mut t = WifiSignalTracker::new(5);
    t.increment_x_pos();
    let st = record_scan(&mut t, Ok(vec![ap(WIFI_SSID, -50)]), &WIFI_SSID.to_string());
    assert_eq!(st, SignalStatus::Recorded(48));
    assert_eq!(t.get_points(), &[Point::new(1, 48)]);
    assert_eq!(t.get_x_pos(), 1);
}

#[test]
fn missing_network_leaves_tracker() {
    let mut t = WifiSignalTracker::new(5);
    t.add_point(0, 40);
    let st = record_scan(&mut t, Ok(vec![ap("other", -50)]), &WIFI_SSID.to_string());
    assert_eq!(st, SignalStatus::NotFound);
    assert_eq!(t.get_points(), &[Point::new(0, 40)]);
}

#[test]
fn three_failed_scans_leave_tracker_unchanged() {
    let mut t = WifiSignalTracker::new(5);
    t.add_point(0, 40);
    t.add_point(1, 50);
    let before: Vec<Point> = t.get_points().to_vec();
    for _ in 0..3 {
        let st = record_scan(&mut t, Err(ScanError), &WIFI_SSID.to_string());
        assert_eq!(st, SignalStatus::ScanFailed);
        assert_eq!(t.get_points(), before.as_slice());
    }
}
