//! Implement sink for .sdc.

use vstd::prelude::*;
use vstd::string::*;
use crate::error::Error;
use crate::error::SdcError;
use crate::fixed::clamp;
use crate::fixed::norm_of;
use crate::fixed::whole_part;
use crate::fixed::Fixed;
use crate::point::Point;
use crate::sink::Sink;
use crate::sink::las::count_or_zero;
use crate::source::sdc::SdcPoint;
use crate::source::sdc::TargetType;

verus! {

/// The target type with the code `n`, if it is the code of one.
pub open spec fn target_type_coded(n: u8) -> Option<TargetType> {
    if n == 0 {
        Some(TargetType::CenterOfGravity)
    } else if n == 1 {
        Some(TargetType::Parabola)
    } else if n == 2 {
        Some(TargetType::Gaussian)
    } else if n == 3 {
        Some(TargetType::Peak)
    } else {
        None
    }
}

/// `sdc::TargetType::from_u8`: the target type with the code `n`, where `n`
/// is from 0 to 3, and a refusal of any other number.
#[verifier::external_body]
fn sdc_target_type(n: u8) -> (r: Option<TargetType>)
    ensures
        r == target_type_coded(n),
{
    match sdc::TargetType::from_u8(n) {
        Ok(sdc::TargetType::CenterOfGravity) => Some(TargetType::CenterOfGravity),
        Ok(sdc::TargetType::Parabola) => Some(TargetType::Parabola),
        Ok(sdc::TargetType::Gaussian) => Some(TargetType::Gaussian),
        Ok(sdc::TargetType::Peak) => Some(TargetType::Peak),
        Err(_) => None,
    }
}

/// The code of the target type of a point: the point's own, or that of a
/// peak where it has none.
pub open spec fn target_code(point: Point) -> u8 {
    match point.target_type {
        Some(code) => code,
        None => 3u8,
    }
}

/// The whole part of a number as a `u16`, limited to its range, or 0 where
/// there is no number.
pub open spec fn whole_or_zero(number: Option<Fixed>) -> u16 {
    match number {
        Some(n) => clamp(whole_part(n.nanos as int), 0, 65535) as u16,
        None => 0u16,
    }
}

/// Why a point has no sdc point, if it has none: an sdc point needs a time
/// and a scan angle, a return number and a number of returns that fit eight
/// bits, and a target type from 0 to 3.
pub open spec fn sdc_refused(point: Point) -> bool {
    ||| point.gps_time is None
    ||| point.scan_angle is None
    ||| count_or_zero(point.return_number) > 255
    ||| count_or_zero(point.number_of_returns) > 255
    ||| target_code(point) > 3
}

/// The sdc point of a canonical point that has one.
///
/// The range is the point's own, or else the distance of the point from the
/// origin. The width and the range index keep their whole part, limited to
/// sixteen bits, and are 0 where absent, as are the return number, the number
/// of returns and the facet number. A point is from the low channel unless it
/// says otherwise. The class is the point's classification. There is no
/// reflectivity and no reflectance.
pub open spec fn sdc_point_of(point: Point) -> SdcPoint {
    SdcPoint {
        time: point.gps_time->0,
        range: match point.range {
            Some(range) => range,
            None => Fixed {
                nanos: norm_of(point.x.nanos as int, point.y.nanos as int, point.z.nanos as int) as i64,
            },
        },
        theta: point.scan_angle->0,
        x: point.x,
        y: point.y,
        z: point.z,
        amplitude: point.intensity.canonical() as u16,
        width: whole_or_zero(point.width),
        target_type: target_type_coded(target_code(point))->0,
        target: count_or_zero(point.return_number) as u8,
        num_target: count_or_zero(point.number_of_returns) as u8,
        rg_index: whole_or_zero(point.rg_index),
        facet_number: match point.facet_number {
            Some(facet) => facet,
            None => 0u8,
        },
        high_channel: match point.high_channel {
            Some(high) => high,
            None => false,
        },
        class_id: Some(point.classification),
        rho: None,
        reflectance: None,
    }
}

/// Whether `err` is what a point that has no sdc point is refused with.
///
/// A point without a time is refused as missing the dimension `time`; one
/// with a time and without a scan angle as missing the dimension
/// `scan angle`. After these, a return number beyond 255, a number of returns
/// beyond 255 and a target type beyond 3 are refused, in this order.
pub open spec fn sdc_refusal(point: Point, err: Error) -> bool {
    if point.gps_time is None {
        err matches Error::MissingDimension(name) && name@ == "time"@
    } else if point.scan_angle is None {
        err matches Error::MissingDimension(name) && name@ == "scan angle"@
    } else if count_or_zero(point.return_number) > 255 {
        err == Error::Sdc(SdcError::InvalidTarget(count_or_zero(point.return_number)))
    } else if count_or_zero(point.number_of_returns) > 255 {
        err == Error::Sdc(SdcError::InvalidNumberOfTargets(count_or_zero(point.number_of_returns)))
    } else if target_code(point) > 3 {
        err == Error::Sdc(SdcError::InvalidTargetType(target_code(point)))
    } else {
        false
    }
}

/// Converts a point to an sdc point, or refuses it.
pub fn from_point(point: &Point) -> (r: Result<SdcPoint, Error>)
    ensures
        match r {
            Ok(p) => !sdc_refused(*point) && p == sdc_point_of(*point),
            Err(err) => sdc_refused(*point) && sdc_refusal(*point, err),
        },
{
    let time: Fixed = match point.gps_time {
        Some(time) => time,
        None => {
            return Err(Error::MissingDimension(String::from_str("time")));
        },
    };
    let range: Fixed = match point.range {
        Some(range) => range,
        None => Fixed::norm(point.x, point.y, point.z),
    };
    let theta: Fixed = match point.scan_angle {
        Some(angle) => angle,
        None => {
            return Err(Error::MissingDimension(String::from_str("scan angle")));
        },
    };
    let target: usize = match point.return_number {
        Some(n) => n,
        None => 0,
    };
    if target > 255 {
        return Err(Error::Sdc(SdcError::InvalidTarget(target)));
    }
    let num_target: usize = match point.number_of_returns {
        Some(n) => n,
        None => 0,
    };
    if num_target > 255 {
        return Err(Error::Sdc(SdcError::InvalidNumberOfTargets(num_target)));
    }
    let code: u8 = match point.target_type {
        Some(code) => code,
        None => 3,
    };
    let target_type: TargetType = match sdc_target_type(code) {
        Some(target_type) => target_type,
        None => {
            return Err(Error::Sdc(SdcError::InvalidTargetType(code)));
        },
    };
    Ok(
        SdcPoint {
            time,
            range,
            theta,
            x: point.x,
            y: point.y,
            z: point.z,
            amplitude: point.intensity.as_u16(),
            width: match point.width {
                Some(width) => width.to_u16(),
                None => 0,
            },
            target_type,
            target: target as u8,
            num_target: num_target as u8,
            rg_index: match point.rg_index {
                Some(index) => index.to_u16(),
                None => 0,
            },
            facet_number: match point.facet_number {
                Some(facet) => facet,
                None => 0,
            },
            high_channel: match point.high_channel {
                Some(high) => high,
                None => false,
            },
            class_id: Some(point.classification),
            rho: None,
            reflectance: None,
        },
    )
}

/// The sdc points of the given points, each of which has one.
pub open spec fn sdc_points_of(points: Seq<Point>) -> Seq<SdcPoint> {
    Seq::new(points.len(), |i: int| sdc_point_of(points[i]))
}

/// The sdc points that a writer holds, with the points that they were made
/// from.
struct Held {
    records: Vec<SdcPoint>,
    sunk: Ghost<Seq<Point>>,
}

impl Held {
    /// The records are the sdc points of the points sunk.
    #[verifier::type_invariant]
    spec fn records_match(&self) -> bool {
        self.records@ == sdc_points_of(self.sunk@)
    }

    /// Nothing held.
    fn empty() -> (h: Held)
        ensures
            h.sunk@ == Seq::<Point>::empty(),
            h.records@ == Seq::<SdcPoint>::empty(),
    {
        let records: Vec<SdcPoint> = Vec::new();
        assert(records@ =~= sdc_points_of(Seq::<Point>::empty()));
        Held { records, sunk: Ghost(Seq::empty()) }
    }
}

/// The sdc points of the points sunk, held until they are taken to be
/// written.
pub struct Writer {
    held: Held,
}

impl Writer {
    /// The sdc points that the writer holds: those of the points sunk since
    /// the records were last taken, in their order.
    pub open spec fn held(&self) -> Seq<SdcPoint> {
        sdc_points_of(self.sunk())
    }

    /// Creates a writer that holds nothing.
    pub fn new() -> (w: Writer)
        ensures
            w.sunk() == Seq::<Point>::empty(),
    {
        Writer { held: Held::empty() }
    }

    /// Takes the sdc points that the writer holds, leaving it with none.
    pub fn take_records(&mut self) -> (records: Vec<SdcPoint>)
        ensures
            records@ == old(self).held(),
            final(self).sunk() == Seq::<Point>::empty(),
    {
        let mut held: Held = Held::empty();
        std::mem::swap(&mut self.held, &mut held);
        proof {
            use_type_invariant(&held);
        }
        let Held { records, sunk: _ } = held;
        records
    }
}

impl Sink for Writer {
    /// An sdc writer takes the points that have an sdc point.
    open spec fn takes(&self, point: Point) -> bool {
        !sdc_refused(point)
    }

    open spec fn reliable(&self) -> bool {
        true
    }

    closed spec fn sunk(&self) -> Seq<Point> {
        self.held.sunk@
    }

    /// Holds the sdc point of a point, or refuses the point.
    fn sink(&mut self, point: &Point) -> (r: Result<(), Error>)
        ensures
            r matches Err(err) ==> sdc_refusal(*point, err),
    {
        let record: SdcPoint = match from_point(point) {
            Ok(record) => record,
            Err(err) => {
                return Err(err);
            },
        };
        let mut held: Held = Held::empty();
        std::mem::swap(&mut self.held, &mut held);
        proof {
            use_type_invariant(&held);
        }
        let Held { mut records, sunk } = held;
        records.push(record);
        assert(records@ =~= sdc_points_of(sunk@.push(*point)));
        self.held = Held { records, sunk: Ghost(sunk@.push(*point)) };
        Ok(())
    }

    /// Closes the writer. The sdc points that it holds and nobody took are
    /// dropped.
    fn close_sink(self) -> (r: Result<(), Error>)
        ensures
            r is Ok,
    {
        Ok(())
    }
}

/// The sdc points that a writer holds after a point was sunk are those that
/// it held before, and the sdc point of that point.
pub proof fn lemma_sdc_points_push(points: Seq<Point>, point: Point)
    ensures
        sdc_points_of(points.push(point)) == sdc_points_of(points).push(sdc_point_of(point)),
        sdc_points_of(points).len() == points.len(),
        sdc_points_of(Seq::<Point>::empty()) == Seq::<SdcPoint>::empty(),
{
}

/// An sdc point that is made canonical and turned back into an sdc point
/// comes back with its time, range, angle, coordinates, amplitude, targets,
/// range index, facet and channel as they were. The canonical point does not
/// carry the rest: the width comes back as 0, the target type as a peak, the
/// class as 0, and the reflectivity and the reflectance are gone.
pub proof fn lemma_sdc_round_trip(point: SdcPoint)
    ensures
        !sdc_refused(point.canonical()),
        sdc_point_of(point.canonical()) == (SdcPoint {
            width: 0,
            target_type: TargetType::Peak,
            class_id: Some(0u8),
            rho: None,
            reflectance: None,
            ..point
        }),
{
    crate::point::lemma_rescaled_u16(point.amplitude);
}

} // verus!
