//! Implement source for .sdc, Riegl's simple file-based discrete return format.

use vstd::prelude::*;
use vstd::std_specs::convert::FromSpecImpl;
use crate::fixed::Fixed;
use crate::point::Intensity;
use crate::point::Point;

verus! {

/// How the point was derived from a waveform.
#[derive(Clone, Copy, Debug, PartialEq, Eq, Structural)]
pub enum TargetType {
    /// Center of gravity, coded 0.
    CenterOfGravity,
    /// Parabola, coded 1.
    Parabola,
    /// Gaussian, coded 2.
    Gaussian,
    /// Peak, coded 3.
    Peak,
}

/// An sdc point, as the sdc reader gives it and the sdc writer takes it.
#[derive(Clone, Copy, Debug, PartialEq, Eq, Structural)]
pub struct SdcPoint {
    /// The time of the point, in seconds.
    pub time: Fixed,
    /// The range from the scanner.
    pub range: Fixed,
    /// The scan angle, in degrees.
    pub theta: Fixed,
    /// The x coordinate.
    pub x: Fixed,
    /// The y coordinate.
    pub y: Fixed,
    /// The z coordinate.
    pub z: Fixed,
    /// The amplitude of the return.
    pub amplitude: u16,
    /// The width of the return.
    pub width: u16,
    /// How the point was derived from a waveform.
    pub target_type: TargetType,
    /// The number of this target in its pulse.
    pub target: u8,
    /// The number of targets in the pulse.
    pub num_target: u8,
    /// The range index.
    pub rg_index: u16,
    /// The mirror facet.
    pub facet_number: u8,
    /// Is the point from the high channel?
    pub high_channel: bool,
    /// The class of the point, in versions of the format that have one.
    pub class_id: Option<u8>,
    /// The reflectivity, in versions of the format that have one.
    pub rho: Option<Fixed>,
    /// The reflectance, in versions of the format that have one.
    pub reflectance: Option<i16>,
}

impl SdcPoint {
    /// The canonical point of an sdc point. The width, the target type, the
    /// class, the reflectivity and the reflectance are left behind.
    pub open spec fn canonical(&self) -> Point {
        Point {
            return_number: Some(self.target as usize),
            number_of_returns: Some(self.num_target as usize),
            gps_time: Some(self.time),
            range: Some(self.range),
            scan_angle: Some(self.theta),
            rg_index: Some(Fixed { nanos: (self.rg_index * 1_000_000_000) as i64 }),
            facet_number: Some(self.facet_number),
            high_channel: Some(self.high_channel),
            ..Point::bare(
                self.x,
                self.y,
                self.z,
                Intensity {
                    value: Fixed { nanos: (self.amplitude * 1_000_000_000) as i64 },
                    min: Fixed { nanos: 0 },
                    max: Fixed { nanos: 65_535_000_000_000 },
                },
            )
        }
    }
}

impl FromSpecImpl<SdcPoint> for Point {
    open spec fn obeys_from_spec() -> bool {
        true
    }

    open spec fn from_spec(point: SdcPoint) -> Point {
        point.canonical()
    }
}

impl From<SdcPoint> for Point {
    fn from(point: SdcPoint) -> (p: Point)
        ensures
            p == point.canonical(),
    {
        let mut p: Point = Point::new(
            point.x,
            point.y,
            point.z,
            Intensity::from_u16(point.amplitude),
        );
        p.return_number = Some(point.target as usize);
        p.number_of_returns = Some(point.num_target as usize);
        p.gps_time = Some(point.time);
        p.range = Some(point.range);
        p.scan_angle = Some(point.theta);
        p.rg_index = Some(Fixed::from_whole(point.rg_index as i32));
        p.facet_number = Some(point.facet_number);
        p.high_channel = Some(point.high_channel);
        p
    }
}

/// Configuration structure for an sdc reader, which has nothing to configure.
#[derive(Clone, Copy, Debug, Default, PartialEq, Eq, Structural)]
pub struct SdcConfig;

} // verus!
