//! Get points from an .rxp file or an rxp stream.
//!
//! `rxp` is a data layout format from Riegl.

use vstd::prelude::*;
use vstd::std_specs::convert::FromSpecImpl;
use crate::fixed::clamp;
use crate::fixed::Fixed;
use crate::point::Intensity;
use crate::point::Point;

verus! {

/// The place of an echo among the echoes of its pulse.
#[derive(Clone, Copy, Debug, PartialEq, Eq, Structural)]
pub enum EchoType {
    /// The only echo of the pulse.
    Single,
    /// The first of several echoes.
    First,
    /// Neither the first nor the last of several echoes.
    Interior,
    /// The last of several echoes.
    Last,
}

/// An rxp point, as the rxp stream gives it.
#[derive(Clone, Copy, Debug, PartialEq, Eq, Structural)]
pub struct RxpPoint {
    /// The x coordinate.
    pub x: Fixed,
    /// The y coordinate.
    pub y: Fixed,
    /// The z coordinate.
    pub z: Fixed,
    /// The relative reflectance, in decibels from -50 to 50.
    pub reflectance: Fixed,
    /// The place of the echo among the echoes of its pulse.
    pub echo_type: EchoType,
    /// Is the time synchronized to the pulse-per-second signal?
    pub pps: bool,
    /// The time, in nanoseconds.
    pub time: u64,
}

impl RxpPoint {
    /// The canonical point of an rxp point. The reflectance becomes the
    /// intensity, in its range from -50 to 50. A single echo is return one of
    /// one, a first echo is return one of an unknown number, and of the other
    /// echoes nothing is known. A time is there only where it is
    /// synchronized, told in seconds.
    pub open spec fn canonical(&self) -> Point {
        Point {
            return_number: match self.echo_type {
                EchoType::Single | EchoType::First => Some(1usize),
                _ => None,
            },
            number_of_returns: match self.echo_type {
                EchoType::Single => Some(1usize),
                _ => None,
            },
            gps_time: if self.pps {
                Some(Fixed { nanos: clamp(self.time as int, 0, i64::MAX as int) as i64 })
            } else {
                None
            },
            ..Point::bare(
                self.x,
                self.y,
                self.z,
                Intensity {
                    value: self.reflectance,
                    min: Fixed { nanos: -50_000_000_000i64 },
                    max: Fixed { nanos: 50_000_000_000i64 },
                },
            )
        }
    }
}

impl FromSpecImpl<RxpPoint> for Point {
    open spec fn obeys_from_spec() -> bool {
        true
    }

    open spec fn from_spec(point: RxpPoint) -> Point {
        point.canonical()
    }
}

impl From<RxpPoint> for Point {
    fn from(point: RxpPoint) -> (p: Point)
        ensures
            p == point.canonical(),
    {
        let mut p: Point = Point::new(
            point.x,
            point.y,
            point.z,
            Intensity::new(point.reflectance, Fixed::from_whole(-50), Fixed::from_whole(50)),
        );
        p.return_number = match point.echo_type {
            EchoType::Single | EchoType::First => Some(1),
            _ => None,
        };
        p.number_of_returns = match point.echo_type {
            EchoType::Single => Some(1),
            _ => None,
        };
        p.gps_time = if point.pps {
            Some(Fixed::from_unsigned_nanos(point.time))
        } else {
            None
        };
        p
    }
}

/// Rxp's configuration object.
#[derive(Clone, Copy, Debug, PartialEq, Eq, Structural)]
pub struct RxpConfig {
    /// Whether to synchronize the stream to the pulse-per-second signal.
    pub sync_to_pps: Option<bool>,
}

impl RxpConfig {
    /// Whether a stream opened with the configuration `config` synchronizes
    /// to the pulse-per-second signal: it does unless the configuration says
    /// otherwise.
    pub open spec fn synchronizes(config: Option<RxpConfig>) -> bool {
        match config {
            Some(c) => match c.sync_to_pps {
                Some(b) => b,
                None => true,
            },
            None => true,
        }
    }

    /// Whether a stream opened with the configuration `config` synchronizes
    /// to the pulse-per-second signal.
    pub fn sync_to_pps(config: Option<RxpConfig>) -> (b: bool)
        ensures
            b == RxpConfig::synchronizes(config),
    {
        match config {
            Some(c) => match c.sync_to_pps {
                Some(b) => b,
                None => true,
            },
            None => true,
        }
    }
}

} // verus!
