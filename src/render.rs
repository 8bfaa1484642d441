use crate::clock::{clock_label, clock_text, lisbon_clock, lisbon_hour_minute};
use crate::reading::{calibrated_temperature, ClimateReading};
use crate::text::{decimal, signed_text, tenths_string, tenths_text};
use crate::tracker::{mean_y, WifiSignalTracker, SCREEN_WIDTH};
use embedded_graphics::prelude::{Point, Size};
use embedded_graphics::primitives::Rectangle;
use vstd::prelude::*;

verus! {

/// One drawing operation on the monochrome canvas.
pub enum DrawOp {
    /// Blank the whole canvas.
    Clear,
    /// Stroke the outline of a rectangle, one pixel wide.
    Outline(Rectangle),
    /// Write text with its baseline starting at the point.
    Text(String, Point),
    /// Turn one pixel on.
    Pixel(Point),
}

/// What a drawing operation does, with text as characters.
pub enum DrawSpec {
    Clear,
    Outline(Rectangle),
    Text(Seq<char>, Point),
    Pixel(Point),
}

impl View for DrawOp {
    type V = DrawSpec;

    open spec fn view(&self) -> DrawSpec {
        match self {
            DrawOp::Clear => DrawSpec::Clear,
            DrawOp::Outline(r) => DrawSpec::Outline(*r),
            DrawOp::Text(s, p) => DrawSpec::Text(s@, *p),
            DrawOp::Pixel(p) => DrawSpec::Pixel(*p),
        }
    }
}

} // verus!

verus! {

/// Height of the display in pixels.
pub const SCREEN_HEIGHT: i32 = 64;

/// The rectangle spanned by two opposite corners, both included.
pub open spec fn corners_rect(a: Point, b: Point) -> Rectangle {
    Rectangle {
        top_left: Point {
            x: if a.x <= b.x { a.x } else { b.x },
            y: if a.y <= b.y { a.y } else { b.y },
        },
        size: Size {
            width: (if a.x <= b.x { b.x - a.x + 1 } else { a.x - b.x + 1 }) as u32,
            height: (if a.y <= b.y { b.y - a.y + 1 } else { a.y - b.y + 1 }) as u32,
        },
    }
}

/// The drawing operations as they act on the canvas.
pub open spec fn ops_view(ops: Seq<DrawOp>) -> Seq<DrawSpec> {
    ops.map_values(|o: DrawOp| o@)
}

/// The three outlines: time at top left, climate at top right, the signal
/// strip across the bottom half.
pub open spec fn layout_spec() -> Seq<DrawSpec> {
    seq![
        DrawSpec::Outline(corners_rect(Point { x: 0, y: 0 }, Point { x: 64, y: 32 })),
        DrawSpec::Outline(corners_rect(Point { x: 64, y: 0 }, Point { x: 127, y: 32 })),
        DrawSpec::Outline(corners_rect(Point { x: 0, y: 32 }, Point { x: 127, y: 63 })),
    ]
}

/// The clock text in the time quadrant, when the time is known.
pub open spec fn time_spec(clock: Option<(u32, u32)>) -> Seq<DrawSpec> {
    match clock {
        Some(hm) => seq![DrawSpec::Text(clock_label(hm.0 as nat, hm.1 as nat), Point { x: 12, y: 17 })],
        None => seq![],
    }
}

/// Calibrated temperature and humidity in the climate quadrant, when the
/// sensor gave a reading; nothing otherwise.
pub open spec fn climate_spec(reading: Option<ClimateReading>, offset: i32) -> Seq<DrawSpec> {
    match reading {
        Some(r) => seq![
            DrawSpec::Text(tenths_text(r.temperature - offset) + seq!['°', 'C'], Point { x: 78, y: 11 }),
            DrawSpec::Text(tenths_text(r.humidity as int) + seq!['%'], Point { x: 78, y: 25 }),
        ],
        None => seq![],
    }
}

/// One pixel per sample, then the average strength as a negative value at
/// the bottom right.
pub open spec fn signal_spec(points: Seq<Point>, average: i32) -> Seq<DrawSpec> {
    points.map_values(|p: Point| DrawSpec::Pixel(p)) + seq![
        DrawSpec::Text(seq!['-'] + decimal(average as int), Point { x: 108, y: 44 }),
    ]
}

/// A whole frame: clear, outlines, time, climate, signal trace.
pub open spec fn frame_spec(
    clock: Option<(u32, u32)>,
    reading: Option<ClimateReading>,
    offset: i32,
    points: Seq<Point>,
    average: i32,
) -> Seq<DrawSpec> {
    seq![DrawSpec::Clear] + layout_spec() + time_spec(clock) + climate_spec(reading, offset)
        + signal_spec(points, average)
}

proof fn lemma_ops_view_push(ops: Seq<DrawOp>, o: DrawOp)
    ensures
        ops_view(ops.push(o)) == ops_view(ops).push(o@),
{
    assert(ops_view(ops.push(o)) =~= ops_view(ops).push(o@));
}

proof fn lemma_ops_view_concat(a: Seq<DrawOp>, b: Seq<DrawOp>)
    ensures
        ops_view(a + b) == ops_view(a) + ops_view(b),
{
    assert(ops_view(a + b) =~= ops_view(a) + ops_view(b));
}

/// Outline of the rectangle between two corners.
fn outline(a: Point, b: Point) -> (r: DrawOp)
    requires
        i32::MIN <= a.x - b.x <= i32::MAX,
        i32::MIN <= a.y - b.y <= i32::MAX,
    ensures
        r@ == DrawSpec::Outline(corners_rect(a, b)),
{
    DrawOp::Outline(Rectangle::with_corners(a, b))
}

/// The fixed outlines that partition the canvas.
pub fn layout_ops() -> (r: Vec<DrawOp>)
    ensures
        ops_view(r@) == layout_spec(),
{
    let w: i32 = SCREEN_WIDTH as i32;
    let mut r: Vec<DrawOp> = Vec::new();
    r.push(outline(Point { x: 0, y: 0 }, Point { x: w / 2, y: SCREEN_HEIGHT / 2 }));
    r.push(outline(Point { x: w / 2, y: 0 }, Point { x: w - 1, y: SCREEN_HEIGHT / 2 }));
    r.push(outline(Point { x: 0, y: SCREEN_HEIGHT / 2 }, Point { x: w - 1, y: SCREEN_HEIGHT - 1 }));
    assert(ops_view(r@) =~= layout_spec());
    r
}

/// The clock text, when the hour and minute are known.
pub fn time_ops(clock: Option<(u32, u32)>) -> (r: Vec<DrawOp>)
    requires
        clock matches Some(hm) ==> hm.0 < 24 && hm.1 < 60,
    ensures
        ops_view(r@) == time_spec(clock),
{
    let mut r: Vec<DrawOp> = Vec::new();
    match clock {
        Some((h, m)) => {
            r.push(DrawOp::Text(clock_text(h, m), Point { x: 12, y: 17 }));
        },
        None => {},
    }
    assert(ops_view(r@) =~= time_spec(clock));
    r
}

/// Temperature (less `offset`) and humidity, when the sensor gave a reading.
pub fn climate_ops(reading: Option<ClimateReading>, offset: i32) -> (r: Vec<DrawOp>)
    ensures
        ops_view(r@) == climate_spec(reading, offset),
{
    let mut r: Vec<DrawOp> = Vec::new();
    match reading {
        Some(c) => {
            let mut t = tenths_string(calibrated_temperature(c, offset));
            let mut h = tenths_string(c.humidity as i64);
            proof {
                reveal_strlit("°C");
                reveal_strlit("%");
            }
            t.append("°C");
            h.append("%");
            r.push(DrawOp::Text(t, Point { x: 78, y: 11 }));
            r.push(DrawOp::Text(h, Point { x: 78, y: 25 }));
            assert(t@ == tenths_text(c.temperature - offset) + seq!['°', 'C']);
            assert(h@ == tenths_text(c.humidity as int) + seq!['%']);
        },
        None => {},
    }
    assert(ops_view(r@) =~= climate_spec(reading, offset));
    r
}

/// A pixel for each sample and the average strength, shown as negative.
pub fn signal_ops(points: &[Point], average: i32) -> (r: Vec<DrawOp>)
    ensures
        ops_view(r@) == signal_spec(points@, average),
{
    let mut r: Vec<DrawOp> = Vec::new();
    let mut i: usize = 0;
    while i < points.len()
        invariant
            0 <= i <= points@.len(),
            ops_view(r@) == points@.subrange(0, i as int).map_values(|p: Point| DrawSpec::Pixel(p)),
        decreases points@.len() - i,
    {
        proof {
            lemma_ops_view_push(r@, DrawOp::Pixel(points@[i as int]));
        }
        r.push(DrawOp::Pixel(points[i]));
        assert(points@.subrange(0, i as int + 1).map_values(|p: Point| DrawSpec::Pixel(p))
            =~= points@.subrange(0, i as int).map_values(|p: Point| DrawSpec::Pixel(p)).push(
            DrawSpec::Pixel(points@[i as int]),
        ));
        i = i + 1;
    }
    assert(points@.subrange(0, i as int) =~= points@);
    assert(ops_view(r@) == points@.map_values(|p: Point| DrawSpec::Pixel(p)));
    let mut t = "-".to_owned();
    let a = signed_text(average as i64);
    proof {
        reveal_strlit("-");
    }
    t.append(a.as_str());
    assert(t@ == seq!['-'] + decimal(average as int));
    proof {
        lemma_ops_view_push(r@, DrawOp::Text(t, Point { x: 108, y: 44 }));
    }
    r.push(DrawOp::Text(t, Point { x: 108, y: 44 }));
    assert(ops_view(r@) =~= signal_spec(points@, average));
    r
}

/// Every operation of one frame, in drawing order.
pub fn frame_ops(
    clock: Option<(u32, u32)>,
    reading: Option<ClimateReading>,
    offset: i32,
    points: &[Point],
    average: i32,
) -> (r: Vec<DrawOp>)
    requires
        clock matches Some(hm) ==> hm.0 < 24 && hm.1 < 60,
    ensures
        ops_view(r@) == frame_spec(clock, reading, offset, points@, average),
{
    let mut r: Vec<DrawOp> = Vec::new();
    r.push(DrawOp::Clear);
    assert(ops_view(r@) =~= seq![DrawSpec::Clear]);
    let mut l = layout_ops();
    proof { lemma_ops_view_concat(r@, l@); }
    r.append(&mut l);
    let mut t = time_ops(clock);
    proof { lemma_ops_view_concat(r@, t@); }
    r.append(&mut t);
    let mut c = climate_ops(reading, offset);
    proof { lemma_ops_view_concat(r@, c@); }
    r.append(&mut c);
    let mut s = signal_ops(points, average);
    proof { lemma_ops_view_concat(r@, s@); }
    r.append(&mut s);
    r
}

/// The frame for the current state: the Lisbon time at `unix_secs` when
/// known, the climate reading when there is one, and the tracker's trace
/// and average. The tracker is left as it was.
pub fn render_frame(
    unix_secs: Option<i64>,
    reading: Option<ClimateReading>,
    offset: i32,
    tracker: &mut WifiSignalTracker,
) -> (r: Vec<DrawOp>)
    requires
        old(tracker).wf(),
    ensures
        ops_view(r@) == frame_spec(
            match unix_secs {
                Some(s) => lisbon_hour_minute(s),
                None => None,
            },
            reading,
            offset,
            old(tracker).points_view(),
            mean_y(old(tracker).points_view()) as i32,
        ),
        *final(tracker) == *old(tracker),
{
    let clock = match unix_secs {
        Some(s) => lisbon_clock(s),
        None => None,
    };
    let average = tracker.get_average_strength();
    frame_ops(clock, reading, offset, tracker.get_points(), average)
}

} // verus!
