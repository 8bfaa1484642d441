use crate::reading::{scale_strength, scaled_row};
use crate::tracker::{push_evict, WifiSignalTracker};
use embedded_graphics::prelude::Point;
use vstd::prelude::*;

verus! {

/// Name of the network whose signal the clock follows.
pub const WIFI_SSID: &'static str = "MEO-BD8310";

/// One network seen by a scan: its name and its signal strength in dBm.
#[derive(Clone, Debug)]
pub struct AccessPoint {
    pub ssid: String,
    pub signal_strength: i32,
}

/// A scan of the air could not be made.
#[derive(Clone, Copy, Debug, PartialEq, Eq)]
pub struct ScanError;

/// What one tick made of the scan.
#[derive(Clone, Copy, Debug, PartialEq, Eq)]
pub enum SignalStatus {
    /// The network was found; its strength was stored at this display row.
    Recorded(u32),
    /// The scan worked but the network was not among its results.
    NotFound,
    /// The scan failed.
    ScanFailed,
}

/// Signal strength of the first network named `ssid`, if any.
pub fn find_signal(aps: &Vec<AccessPoint>, ssid: &String) -> (r: Option<i32>)
    ensures
        match r {
            Some(s) => exists|i: int|
                0 <= i < aps@.len() && aps@[i].ssid@ == ssid@ && aps@[i].signal_strength == s
                    && forall|j: int| 0 <= j < i ==> aps@[j].ssid@ != ssid@,
            None => forall|i: int| 0 <= i < aps@.len() ==> aps@[i].ssid@ != ssid@,
        },
{
    let mut i: usize = 0;
    while i < aps.len()
        invariant
            0 <= i <= aps@.len(),
            forall|j: int| 0 <= j < i ==> aps@[j].ssid@ != ssid@,
        decreases aps@.len() - i,
    {
        if aps[i].ssid.eq(ssid) {
            return Some(aps[i].signal_strength);
        }
        i = i + 1;
    }
    None
}

/// Feeds one scan into the tracker. When the scan worked and holds the
/// network named `ssid`, its strength is scaled to a display row and stored
/// at the tracker's cursor; a failed scan, or one without that network,
/// leaves the tracker as it was. The cursor itself is not moved.
pub fn record_scan(
    tracker: &mut WifiSignalTracker,
    scan: Result<Vec<AccessPoint>, ScanError>,
    ssid: &String,
) -> (r: SignalStatus)
    requires
        old(tracker).wf(),
    ensures
        final(tracker).wf(),
        final(tracker).capacity() == old(tracker).capacity(),
        final(tracker).cursor() == old(tracker).cursor(),
        match scan {
            Err(_) => r == SignalStatus::ScanFailed && final(tracker).points_view()
                == old(tracker).points_view(),
            Ok(aps) => match r {
                SignalStatus::Recorded(row) => exists|i: int|
                    0 <= i < aps@.len() && aps@[i].ssid@ == ssid@ && (forall|j: int|
                        0 <= j < i ==> aps@[j].ssid@ != ssid@) && row == scaled_row(
                        aps@[i].signal_strength as int,
                    ) && final(tracker).points_view() == push_evict(
                        old(tracker).points_view(),
                        old(tracker).capacity(),
                        Point { x: old(tracker).cursor() as i32, y: row as i32 },
                    ),
                SignalStatus::NotFound => (forall|i: int|
                    0 <= i < aps@.len() ==> aps@[i].ssid@ != ssid@) && final(tracker).points_view()
                    == old(tracker).points_view(),
                SignalStatus::ScanFailed => false,
            },
        },
{
    match scan {
        Err(_) => SignalStatus::ScanFailed,
        Ok(aps) => match find_signal(&aps, ssid) {
            Some(raw) => {
                let row = scale_strength(raw);
                let x = tracker.get_x_pos();
                tracker.add_point(x, row);
                SignalStatus::Recorded(row)
            },
            None => SignalStatus::NotFound,
        },
    }
}

} // verus!
