//! Read points from .sdf full waveform files.
//!
//! The sdf reader turns each waveform into discrete points; what comes from
//! it is taken here.

use vstd::prelude::*;
use vstd::std_specs::convert::FromSpecImpl;
use crate::fixed::Fixed;
use crate::point::Intensity;
use crate::point::Point;

verus! {

/// A point discretized from an sdf waveform.
#[derive(Clone, Copy, Debug, PartialEq, Eq, Structural)]
pub struct SdfPoint {
    /// The time that this point was collected, in seconds.
    pub time: Fixed,
    /// The raw range to the point.
    pub range: Fixed,
    /// The mirror scan angle in degrees.
    pub theta: Fixed,
    /// The x coordinate in the scanner's own coordinate system.
    pub x: Fixed,
    /// The y coordinate in the scanner's own coordinate system.
    pub y: Fixed,
    /// The z coordinate in the scanner's own coordinate system.
    pub z: Fixed,
    /// The target number (1-indexed).
    pub target: u8,
    /// The total number of targets in this pulse.
    pub num_target: u8,
    /// The mirror facet used to reflect the laser energy.
    pub facet: u16,
    /// The amplitude of the peak that the point was made from.
    pub amplitude: u16,
    /// Was this point collected on the high channel?
    pub high_channel: bool,
}

impl SdfPoint {
    /// The canonical point of an sdf point. The facet number keeps the low
    /// eight bits of the facet; the range and the scan angle are left behind.
    pub open spec fn canonical(&self) -> Point {
        Point {
            return_number: Some(self.target as usize),
            number_of_returns: Some(self.num_target as usize),
            facet_number: Some((self.facet % 256) as u8),
            high_channel: Some(self.high_channel),
            gps_time: Some(self.time),
            ..Point::bare(
                self.x,
                self.y,
                self.z,
                Intensity {
                    value: Fixed { nanos: (self.amplitude * 1_000_000_000) as i64 },
                    min: Fixed { nanos: 0 },
                    max: Fixed { nanos: 65_535_000_000_000 },
                },
            )
        }
    }
}

impl FromSpecImpl<SdfPoint> for Point {
    open spec fn obeys_from_spec() -> bool {
        true
    }

    open spec fn from_spec(point: SdfPoint) -> Point {
        point.canonical()
    }
}

impl From<SdfPoint> for Point {
    fn from(point: SdfPoint) -> (p: Point)
        ensures
            p == point.canonical(),
    {
        let mut p: Point = Point::new(
            point.x,
            point.y,
            point.z,
            Intensity::from_u16(point.amplitude),
        );
        p.return_number = Some(point.target as usize);
        p.number_of_returns = Some(point.num_target as usize);
        p.facet_number = Some((point.facet % 256) as u8);
        p.high_channel = Some(point.high_channel);
        p.gps_time = Some(point.time);
        p
    }
}

/// Configuration structure for an sdf reader, which has nothing to configure.
#[derive(Clone, Copy, Debug, Default, PartialEq, Eq, Structural)]
pub struct SdfConfig;

/// The number of records from the position `start` to the position `end` of
/// an sdf file, where both are known and the end is not before the start.
pub open spec fn records_between(start: Option<u32>, end: Option<u32>) -> Option<usize> {
    match (start, end) {
        (Some(s), Some(e)) => if s <= e {
            Some((e - s) as usize)
        } else {
            None
        },
        _ => None,
    }
}

/// A guess at the number of records in an sdf file, from the position of its
/// first record and the position of its end. A position is `None` where the
/// file would not tell it.
pub fn source_len(start: Option<u32>, end: Option<u32>) -> (n: Option<usize>)
    ensures
        n == records_between(start, end),
{
    match (start, end) {
        (Some(s), Some(e)) => {
            if s <= e {
                Some((e - s) as usize)
            } else {
                None
            }
        },
        _ => None,
    }
}

} // verus!
