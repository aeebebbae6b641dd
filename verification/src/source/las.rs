//! Source las points.

use vstd::prelude::*;
use vstd::std_specs::convert::FromSpecImpl;
use crate::fixed::Fixed;
use crate::point::Intensity;
use crate::point::Point;
use crate::point::ScanDirection;

verus! {

/// The direction of the mirror in a las point, which knows of two.
#[derive(Clone, Copy, Debug, PartialEq, Eq, Structural)]
pub enum LasScanDirection {
    /// Backward.
    Backward,
    /// Forward.
    Forward,
}

/// A las point, as the las reader gives it and the las writer takes it.
#[derive(Clone, Debug, PartialEq, Eq)]
pub struct LasPoint {
    /// The x coordinate, scale and offset applied.
    pub x: Fixed,
    /// The y coordinate, scale and offset applied.
    pub y: Fixed,
    /// The z coordinate, scale and offset applied.
    pub z: Fixed,
    /// The pulse return magnitude.
    pub intensity: u16,
    /// The pulse return number, from 0 to 5.
    pub return_number: u8,
    /// The number of returns of the pulse, from 0 to 5.
    pub number_of_returns: u8,
    /// The direction of the mirror.
    pub scan_direction: LasScanDirection,
    /// Is this the last point on a scan line?
    pub edge_of_flight_line: bool,
    /// The classification code, from 0 to 31.
    pub classification: u8,
    /// Was this point created by other means than LiDAR collection?
    pub synthetic: bool,
    /// Is this a model key point?
    pub key_point: bool,
    /// Should this point be left out of processing?
    pub withheld: bool,
    /// The scan angle, in whole degrees.
    pub scan_angle_rank: i8,
    /// User data.
    pub user_data: u8,
    /// The id of the source of the point.
    pub point_source_id: u16,
    /// The time, in point formats that have one.
    pub gps_time: Option<Fixed>,
    /// The red channel, in point formats that have colour.
    pub red: Option<u16>,
    /// The green channel, in point formats that have colour.
    pub green: Option<u16>,
    /// The blue channel, in point formats that have colour.
    pub blue: Option<u16>,
    /// Bytes beyond the point format's record.
    pub extra_bytes: Option<Vec<u8>>,
}

impl LasPoint {
    /// Whether the return number, the number of returns and the
    /// classification have a place in a las point.
    pub open spec fn valid(&self) -> bool {
        &&& self.return_number < 6
        &&& self.number_of_returns < 6
        &&& self.classification <= 31
    }

    /// The canonical point of a las point: every las dimension but colour and
    /// extra bytes, the scan angle in whole degrees.
    pub open spec fn canonical(&self) -> Point {
        Point {
            return_number: Some(self.return_number as usize),
            number_of_returns: Some(self.number_of_returns as usize),
            scan_direction: match self.scan_direction {
                LasScanDirection::Forward => ScanDirection::Forward,
                LasScanDirection::Backward => ScanDirection::Backward,
            },
            edge_of_flight_line: self.edge_of_flight_line,
            classification: self.classification,
            synthetic: self.synthetic,
            key_point: self.key_point,
            withheld: self.withheld,
            scan_angle: Some(Fixed { nanos: (self.scan_angle_rank * 1_000_000_000) as i64 }),
            point_source_id: Some(self.point_source_id),
            user_data: Some(self.user_data),
            gps_time: self.gps_time,
            ..Point::bare(
                self.x,
                self.y,
                self.z,
                Intensity {
                    value: Fixed { nanos: (self.intensity * 1_000_000_000) as i64 },
                    min: Fixed { nanos: 0 },
                    max: Fixed { nanos: 65_535_000_000_000 },
                },
            )
        }
    }
}

impl FromSpecImpl<LasPoint> for Point {
    open spec fn obeys_from_spec() -> bool {
        true
    }

    open spec fn from_spec(point: LasPoint) -> Point {
        point.canonical()
    }
}

impl From<LasPoint> for Point {
    fn from(point: LasPoint) -> (p: Point)
        ensures
            p == point.canonical(),
    {
        let mut p: Point = Point::new(
            point.x,
            point.y,
            point.z,
            Intensity::from_u16(point.intensity),
        );
        p.return_number = Some(point.return_number as usize);
        p.number_of_returns = Some(point.number_of_returns as usize);
        p.gps_time = point.gps_time;
        p.scan_direction = match point.scan_direction {
            LasScanDirection::Forward => ScanDirection::Forward,
            LasScanDirection::Backward => ScanDirection::Backward,
        };
        p.edge_of_flight_line = point.edge_of_flight_line;
        p.classification = point.classification;
        p.synthetic = point.synthetic;
        p.key_point = point.key_point;
        p.withheld = point.withheld;
        p.scan_angle = Some(Fixed::from_whole(point.scan_angle_rank as i32));
        p.point_source_id = Some(point.point_source_id);
        p.user_data = Some(point.user_data);
        p
    }
}

} // verus!
