//! Sink points into a las file.

use vstd::prelude::*;
use vstd::string::*;
use crate::error::Error;
use crate::error::LasError;
use crate::fixed::clamp;
use crate::fixed::whole_part;
use crate::fixed::Fixed;
use crate::point::Point;
use crate::point::ScanDirection;
use crate::sink::Sink;
use crate::source::las::LasPoint;
use crate::source::las::LasScanDirection;

verus! {

/// `las::ReturnNumber::from_u8`, and `as_u8` on what it gives: a
/// number below 6 comes back as it is, any other is refused.
#[verifier::external_body]
fn las_return_number(n: u8) -> (r: Option<u8>)
    ensures
        r == (if n < 6 {
            Some(n)
        } else {
            None
        }),
{
    match las::ReturnNumber::from_u8(n) {
        Ok(found) => Some(found.as_u8()),
        Err(_) => None,
    }
}

/// `las::NumberOfReturns::from_u8`, and `as_u8` on what it gives: a
/// number below 6 comes back as it is, any other is refused.
#[verifier::external_body]
fn las_number_of_returns(n: u8) -> (r: Option<u8>)
    ensures
        r == (if n < 6 {
            Some(n)
        } else {
            None
        }),
{
    match las::NumberOfReturns::from_u8(n) {
        Ok(found) => Some(found.as_u8()),
        Err(_) => None,
    }
}

/// `las::Classification::from_u8`, and `as_u8` on what it gives: a
/// code up to 31 comes back as it is, any other is refused.
#[verifier::external_body]
fn las_classification(n: u8) -> (r: Option<u8>)
    ensures
        r == (if n <= 31 {
            Some(n)
        } else {
            None
        }),
{
    match las::Classification::from_u8(n) {
        Ok(found) => Some(found.as_u8()),
        Err(_) => None,
    }
}

/// `las::PointFormat::from_u8`, and the number inside what it gives: a
/// format below 4 comes back as it is, any other is refused.
#[verifier::external_body]
fn las_point_format(n: u8) -> (r: Option<u8>)
    ensures
        r == (if n < 4 {
            Some(n)
        } else {
            None
        }),
{
    match las::PointFormat::from_u8(n) {
        Ok(found) => Some(found.0),
        Err(_) => None,
    }
}

/// Whether las points of the point format `format` carry a time: those of the
/// formats 1 and 3 do.
pub open spec fn format_has_time(format: u8) -> bool {
    format == 1 || format == 3
}

/// Whether las points of the point format `format` carry colour: those of the
/// formats 2 and 3 do.
pub open spec fn format_has_color(format: u8) -> bool {
    format == 2 || format == 3
}

/// `las::PointFormat::from_u8`, and `has_time` on what it gives: whether
/// points of a format below 4 carry a time, and a refusal of any other format.
#[verifier::external_body]
fn las_has_time(format: u8) -> (r: Option<bool>)
    ensures
        r == (if format < 4 {
            Some(format_has_time(format))
        } else {
            None
        }),
{
    match las::PointFormat::from_u8(format) {
        Ok(found) => Some(found.has_time()),
        Err(_) => None,
    }
}

/// `las::PointFormat::from_u8`, and `has_color` on what it gives: whether
/// points of a format below 4 carry colour, and a refusal of any other format.
#[verifier::external_body]
fn las_has_color(format: u8) -> (r: Option<bool>)
    ensures
        r == (if format < 4 {
            Some(format_has_color(format))
        } else {
            None
        }),
{
    match las::PointFormat::from_u8(format) {
        Ok(found) => Some(found.has_color()),
        Err(_) => None,
    }
}

/// The number in `count`, or 0 where there is none.
pub open spec fn count_or_zero(count: Option<usize>) -> usize {
    match count {
        Some(n) => n,
        None => 0,
    }
}

/// The las point of a canonical point, or why it has none.
///
/// The return number and the number of returns, 0 where absent, must be
/// below 6, and the classification at most 31; the first of these that is
/// not gives the error. The intensity is rescaled to sixteen bits. An unknown
/// scan direction is written as forward. The scan angle keeps its whole
/// degrees, limited to the range of `i8`, and is 0 where absent, as are the
/// user data and the point source id. There is no colour and there are no
/// extra bytes.
pub open spec fn las_point_of(point: Point) -> Result<LasPoint, Error> {
    let return_number = count_or_zero(point.return_number);
    let number_of_returns = count_or_zero(point.number_of_returns);
    if return_number >= 6 {
        Err(Error::Las(LasError::InvalidReturnNumber(return_number)))
    } else if number_of_returns >= 6 {
        Err(Error::Las(LasError::InvalidNumberOfReturns(number_of_returns)))
    } else if point.classification > 31 {
        Err(Error::Las(LasError::InvalidClassification(point.classification)))
    } else {
        Ok(
            LasPoint {
                x: point.x,
                y: point.y,
                z: point.z,
                intensity: point.intensity.canonical() as u16,
                return_number: return_number as u8,
                number_of_returns: number_of_returns as u8,
                scan_direction: match point.scan_direction {
                    ScanDirection::Forward | ScanDirection::Unknown => LasScanDirection::Forward,
                    ScanDirection::Backward => LasScanDirection::Backward,
                },
                edge_of_flight_line: point.edge_of_flight_line,
                classification: point.classification,
                synthetic: point.synthetic,
                key_point: point.key_point,
                withheld: point.withheld,
                scan_angle_rank: match point.scan_angle {
                    Some(angle) => clamp(whole_part(angle.nanos as int), -128, 127) as i8,
                    None => 0i8,
                },
                user_data: match point.user_data {
                    Some(data) => data,
                    None => 0u8,
                },
                point_source_id: match point.point_source_id {
                    Some(id) => id,
                    None => 0u16,
                },
                gps_time: point.gps_time,
                red: None,
                green: None,
                blue: None,
                extra_bytes: None,
            },
        )
    }
}

/// Converts a point to a las point, or refuses it.
pub fn from_point(point: &Point) -> (r: Result<LasPoint, Error>)
    ensures
        r == las_point_of(*point),
        r matches Ok(p) ==> p.valid(),
{
    let wanted_return: usize = match point.return_number {
        Some(n) => n,
        None => 0,
    };
    if wanted_return > 255 {
        return Err(Error::Las(LasError::InvalidReturnNumber(wanted_return)));
    }
    let return_number: u8 = match las_return_number(wanted_return as u8) {
        Some(n) => n,
        None => {
            return Err(Error::Las(LasError::InvalidReturnNumber(wanted_return)));
        },
    };
    let wanted_returns: usize = match point.number_of_returns {
        Some(n) => n,
        None => 0,
    };
    if wanted_returns > 255 {
        return Err(Error::Las(LasError::InvalidNumberOfReturns(wanted_returns)));
    }
    let number_of_returns: u8 = match las_number_of_returns(wanted_returns as u8) {
        Some(n) => n,
        None => {
            return Err(Error::Las(LasError::InvalidNumberOfReturns(wanted_returns)));
        },
    };
    let classification: u8 = match las_classification(point.classification) {
        Some(c) => c,
        None => {
            return Err(Error::Las(LasError::InvalidClassification(point.classification)));
        },
    };
    Ok(
        LasPoint {
            x: point.x,
            y: point.y,
            z: point.z,
            intensity: point.intensity.as_u16(),
            return_number,
            number_of_returns,
            scan_direction: match point.scan_direction {
                ScanDirection::Forward | ScanDirection::Unknown => LasScanDirection::Forward,
                ScanDirection::Backward => LasScanDirection::Backward,
            },
            edge_of_flight_line: point.edge_of_flight_line,
            classification,
            synthetic: point.synthetic,
            key_point: point.key_point,
            withheld: point.withheld,
            scan_angle_rank: match point.scan_angle {
                Some(angle) => angle.to_i8(),
                None => 0,
            },
            user_data: match point.user_data {
                Some(data) => data,
                None => 0,
            },
            point_source_id: match point.point_source_id {
                Some(id) => id,
                None => 0,
            },
            gps_time: point.gps_time,
            red: None,
            green: None,
            blue: None,
            extra_bytes: None,
        },
    )
}

/// Whether a las writer takes a point: the point has a las point, it has a
/// time where the writer's point format carries one, and the point format
/// carries no colour, which no point has.
pub open spec fn las_takes(point: Point, needs_time: bool, needs_color: bool) -> bool {
    &&& las_point_of(point) is Ok
    &&& needs_time ==> point.gps_time is Some
    &&& !needs_color
}

/// Whether `err` is what a las writer refuses a point with.
///
/// A point that has no las point is refused with the error of its
/// conversion. After that, a point without a time is refused as missing the
/// dimension `time` where the point format carries a time, and any point as
/// missing the dimension `red` where the point format carries colour.
pub open spec fn las_refusal(point: Point, needs_time: bool, needs_color: bool, err: Error) -> bool {
    match las_point_of(point) {
        Err(refusal) => err == refusal,
        Ok(_) => if needs_time && point.gps_time is None {
            err matches Error::MissingDimension(name) && name@ == "time"@
        } else if needs_color {
            err matches Error::MissingDimension(name) && name@ == "red"@
        } else {
            false
        },
    }
}

/// The las points of the given points, each of which has one.
pub open spec fn las_points_of(points: Seq<Point>) -> Seq<LasPoint> {
    Seq::new(points.len(), |i: int| las_point_of(points[i])->Ok_0)
}

/// The las points that a writer holds, with the points that they were made
/// from.
struct Held {
    records: Vec<LasPoint>,
    sunk: Ghost<Seq<Point>>,
}

impl Held {
    /// The records are the las points of the points sunk.
    #[verifier::type_invariant]
    spec fn records_match(&self) -> bool {
        self.records@ == las_points_of(self.sunk@)
    }

    /// Nothing held.
    fn empty() -> (h: Held)
        ensures
            h.sunk@ == Seq::<Point>::empty(),
            h.records@ == Seq::<LasPoint>::empty(),
    {
        let records: Vec<LasPoint> = Vec::new();
        assert(records@ =~= las_points_of(Seq::<Point>::empty()));
        Held { records, sunk: Ghost(Seq::empty()) }
    }
}

/// The las points of the points sunk, held until they are taken to be
/// written in the writer's point format.
pub struct Writer {
    held: Held,
    needs_time: bool,
    needs_color: bool,
}

impl Writer {
    /// The las points that the writer holds: those of the points sunk since
    /// the records were last taken, in their order.
    pub open spec fn held(&self) -> Seq<LasPoint> {
        las_points_of(self.sunk())
    }

    /// Whether the writer's point format carries a time.
    pub closed spec fn needs_time(&self) -> bool {
        self.needs_time
    }

    /// Whether the writer's point format carries colour.
    pub closed spec fn needs_color(&self) -> bool {
        self.needs_color
    }

    /// Creates a writer of points of the given point format, which holds
    /// nothing. A point format of 4 or above is refused.
    pub fn new(point_format: u8) -> (r: Result<Writer, Error>)
        ensures
            match r {
                Ok(w) => {
                    &&& point_format < 4
                    &&& w.needs_time() == format_has_time(point_format)
                    &&& w.needs_color() == format_has_color(point_format)
                    &&& w.sunk() == Seq::<Point>::empty()
                },
                Err(err) => point_format >= 4 && err == Error::Las(
                    LasError::InvalidPointFormat(point_format),
                ),
            },
    {
        match (las_has_time(point_format), las_has_color(point_format)) {
            (Some(needs_time), Some(needs_color)) => Ok(
                Writer { held: Held::empty(), needs_time, needs_color },
            ),
            _ => Err(Error::Las(LasError::InvalidPointFormat(point_format))),
        }
    }

    /// Takes the las points that the writer holds, leaving it with none.
    pub fn take_records(&mut self) -> (records: Vec<LasPoint>)
        ensures
            records@ == old(self).held(),
            final(self).sunk() == Seq::<Point>::empty(),
            final(self).needs_time() == old(self).needs_time(),
            final(self).needs_color() == old(self).needs_color(),
    {
        let mut held: Held = Held::empty();
        std::mem::swap(&mut self.held, &mut held);
        proof {
            use_type_invariant(&held);
        }
        let Held { records, sunk: _ } = held;
        records
    }
}

impl Sink for Writer {
    /// A las writer takes the points that have a las point in its point
    /// format.
    open spec fn takes(&self, point: Point) -> bool {
        las_takes(point, self.needs_time(), self.needs_color())
    }

    open spec fn reliable(&self) -> bool {
        true
    }

    closed spec fn sunk(&self) -> Seq<Point> {
        self.held.sunk@
    }

    /// Holds the las point of a point, or refuses the point.
    fn sink(&mut self, point: &Point) -> (r: Result<(), Error>)
        ensures
            final(self).needs_time() == old(self).needs_time(),
            final(self).needs_color() == old(self).needs_color(),
            r matches Err(err) ==> las_refusal(
                *point,
                old(self).needs_time(),
                old(self).needs_color(),
                err,
            ),
    {
        let record: LasPoint = match from_point(point) {
            Ok(record) => record,
            Err(err) => {
                return Err(err);
            },
        };
        if self.needs_time && point.gps_time.is_none() {
            return Err(Error::MissingDimension(String::from_str("time")));
        }
        if self.needs_color {
            return Err(Error::MissingDimension(String::from_str("red")));
        }
        let mut held: Held = Held::empty();
        std::mem::swap(&mut self.held, &mut held);
        proof {
            use_type_invariant(&held);
        }
        let Held { mut records, sunk } = held;
        records.push(record);
        assert(records@ =~= las_points_of(sunk@.push(*point)));
        self.held = Held { records, sunk: Ghost(sunk@.push(*point)) };
        Ok(())
    }

    /// Closes the writer. The las points that it holds and nobody took are
    /// dropped.
    fn close_sink(self) -> (r: Result<(), Error>)
        ensures
            r is Ok,
    {
        Ok(())
    }
}

/// The las points that a writer holds after a point was sunk are those that
/// it held before, and the las point of that point.
pub proof fn lemma_las_points_push(points: Seq<Point>, point: Point)
    ensures
        las_points_of(points.push(point)) == las_points_of(points).push(
            las_point_of(point)->Ok_0,
        ),
        las_points_of(points).len() == points.len(),
        las_points_of(Seq::<Point>::empty()) == Seq::<LasPoint>::empty(),
{
}

/// Simple wrapper around x, y, and z scale factors.
#[derive(Clone, Copy, Debug, PartialEq, Eq, Structural)]
pub struct ScaleFactors {
    /// The scale factor along x.
    pub x: Fixed,
    /// The scale factor along y.
    pub y: Fixed,
    /// The scale factor along z.
    pub z: Fixed,
}

/// Simple wrapper around version pair.
#[derive(Clone, Copy, Debug, PartialEq, Eq, Structural)]
pub struct Version {
    /// The major version.
    pub major: u8,
    /// The minor version.
    pub minor: u8,
}

/// Configuration of a las writer. What is `None` is left as the writer has it.
#[derive(Clone, Copy, Debug, PartialEq, Eq, Structural)]
pub struct LasConfig {
    /// The scale factors of the three coordinates.
    pub scale_factors: Option<ScaleFactors>,
    /// Whether the writer works the offsets out from the points.
    pub auto_offsets: Option<bool>,
    /// The point format, below 4.
    pub point_format: Option<u8>,
    /// The version of the las format.
    pub version: Option<Version>,
}

impl LasConfig {
    /// The configuration of a sink that was given none: offsets worked out by
    /// the writer, point format 1, las 1.2, and the writer's own scale factors.
    pub open spec fn standard() -> LasConfig {
        LasConfig {
            scale_factors: None,
            auto_offsets: Some(true),
            point_format: Some(1u8),
            version: Some(Version { major: 1, minor: 2 }),
        }
    }

    /// The point format to hand to the writer, or why there is none: a
    /// format of 4 or above is refused.
    pub open spec fn accepted_format(&self) -> Result<Option<u8>, Error> {
        match self.point_format {
            Some(format) => if format < 4 {
                Ok(Some(format))
            } else {
                Err(Error::Las(LasError::InvalidPointFormat(format)))
            },
            None => Ok(None),
        }
    }

    /// The point format to hand to the writer, or why there is none.
    pub fn point_format(&self) -> (r: Result<Option<u8>, Error>)
        ensures
            r == self.accepted_format(),
    {
        match self.point_format {
            Some(format) => match las_point_format(format) {
                Some(f) => Ok(Some(f)),
                None => Err(Error::Las(LasError::InvalidPointFormat(format))),
            },
            None => Ok(None),
        }
    }
}

impl Default for LasConfig {
    fn default() -> (c: LasConfig)
        ensures
            c == LasConfig::standard(),
    {
        LasConfig {
            auto_offsets: Some(true),
            point_format: Some(1),
            version: Some(Version { major: 1, minor: 2 }),
            scale_factors: None,
        }
    }
}

/// A valid las point that is made canonical and turned back into a las
/// point comes back as it was, coordinates and all, but for its colour and
/// its extra bytes, which the canonical point does not carry.
pub proof fn lemma_las_round_trip(point: LasPoint)
    requires
        point.valid(),
    ensures
        las_point_of(point.canonical()) == Ok::<LasPoint, Error>(
            LasPoint { red: None, green: None, blue: None, extra_bytes: None, ..point },
        ),
{
    crate::point::lemma_rescaled_u16(point.intensity);
}

} // verus!
