//! A catchall LiDAR point.

use vstd::prelude::*;
use crate::fixed::clamp;
use crate::fixed::Fixed;

verus! {

/// The largest intensity on the canonical sixteen-bit scale.
pub const FULL_SCALE: u16 = 65535;

/// The direction that the scanner mirror was moving when the pulse was emitted.
#[derive(Clone, Copy, Debug, PartialEq, Eq, Structural)]
pub enum ScanDirection {
    /// Forward.
    Forward,
    /// Backwards.
    Backward,
    /// The scan direction is undefined.
    Unknown,
}

impl Default for ScanDirection {
    fn default() -> (d: ScanDirection)
        ensures
            d == ScanDirection::Unknown,
    {
        ScanDirection::Unknown
    }
}

/// The quotient `num / den`, rounded to the nearest whole number, a half
/// rounded up.
pub open spec fn rounded_quotient(num: int, den: int) -> int
    recommends
        den != 0,
{
    if den > 0 {
        (2 * num + den) / (2 * den)
    } else {
        (2 * (-num) + (-den)) / (2 * (-den))
    }
}

/// An intensity on the canonical sixteen-bit scale: `65535 * (value - min) /
/// (max - min)`, which is 0 at the minimum of the range and 65535 at its
/// maximum, rounded to the nearest whole number and limited to the scale. In
/// a range of no width a value above it is 65535 and any other value is 0.
pub open spec fn rescaled(value: int, min: int, max: int) -> int {
    if max == min {
        if value > min {
            65535
        } else {
            0
        }
    } else {
        clamp(rounded_quotient(65535 * (value - min), max - min), 0, 65535)
    }
}

/// The largest value of a native encoding of `bits` bits: one less than the
/// `bits`-th power of two.
pub open spec fn native_max(bits: nat) -> nat
    decreases bits,
{
    if bits == 0 {
        0
    } else {
        2 * native_max((bits - 1) as nat) + 1
    }
}

/// A wider encoding has a larger largest value.
proof fn lemma_native_max_grows(narrow: nat, wide: nat)
    requires
        narrow <= wide,
    ensures
        native_max(narrow) <= native_max(wide),
    decreases wide,
{
    if narrow < wide {
        lemma_native_max_grows(narrow, (wide - 1) as nat);
    }
}

/// The largest value of sixteen bits is 65535, and that of thirty-two bits is
/// 4294967295.
pub proof fn lemma_native_max_values()
    ensures
        native_max(16) == 65535,
        native_max(32) == 4294967295,
{
    reveal_with_fuel(native_max, 17);
    assert(native_max(16) == 65535);
}

/// An intensity value, with information about its minimum and maximum possible values.
///
/// Nothing holds the value to the range: one outside it is rescaled to the
/// nearest end of the canonical scale.
#[derive(Clone, Copy, Debug, PartialEq, Eq, Structural)]
pub struct Intensity {
    /// The intensity value.
    pub value: Fixed,
    /// The smallest value that the sensor gives.
    pub min: Fixed,
    /// The largest value that the sensor gives.
    pub max: Fixed,
}

/// The rounded place of `num` in `den`, for a numerator inside the range.
fn scale_within(num: u128, den: u128) -> (r: u16)
    requires
        0 < num < den,
        den <= 0xffff_ffff_ffff_ffff,
    ensures
        r == rounded_quotient(65535 * num, den as int),
{
    let top: u128 = 131070 * num + den;
    let bottom: u128 = 2 * den;
    let q: u128 = top / bottom;
    assert(q <= 65535) by (nonlinear_arith)
        requires
            q == top / bottom,
            top == 131070 * num + den,
            bottom == 2 * den,
            0 < num < den,
    ;
    q as u16
}

impl Intensity {
    /// Creates a new intensity with the min and the max set to the u16 bounds:
    /// the range of a native encoding of sixteen bits.
    pub fn from_u16(value: u16) -> (r: Intensity)
        ensures
            r.value.nanos == value * 1_000_000_000,
            r.min.nanos == 0,
            r.max.nanos == 65535 * 1_000_000_000,
            r.max.nanos == native_max(16) * 1_000_000_000,
    {
        proof {
            lemma_native_max_values();
        }
        Intensity::from_dynamic_range(value as u32, 16)
    }

    /// Creates a new intensity whose range is that of a native encoding of
    /// `native_bit_width` bits, from 0 to the largest value of so many bits. A
    /// width beyond 32 bits counts as 32 bits. The value is taken as it is,
    /// within the range or not.
    pub fn from_dynamic_range(value: u32, native_bit_width: u32) -> (r: Intensity)
        ensures
            r.value.nanos == value * 1_000_000_000,
            r.min.nanos == 0,
            r.max.nanos == native_max(
                if native_bit_width < 32 {
                    native_bit_width as nat
                } else {
                    32
                },
            ) * 1_000_000_000,
    {
        let bits: u32 = if native_bit_width < 32 {
            native_bit_width
        } else {
            32
        };
        let mut max: i64 = 0;
        let mut done: u32 = 0;
        while done < bits
            invariant
                done <= bits <= 32,
                max == native_max(done as nat),
            decreases bits - done,
        {
            proof {
                lemma_native_max_grows((done + 1) as nat, 32);
                lemma_native_max_values();
            }
            max = 2 * max + 1;
            done = done + 1;
        }
        proof {
            lemma_native_max_grows(bits as nat, 32);
            lemma_native_max_values();
        }
        Intensity {
            value: Fixed { nanos: value as i64 * 1_000_000_000 },
            min: Fixed { nanos: 0 },
            max: Fixed { nanos: max * 1_000_000_000 },
        }
    }

    /// Creates a new intensity with the value, minimum, and maximum.
    pub fn new(value: Fixed, min: Fixed, max: Fixed) -> (r: Intensity)
        ensures
            r.value == value,
            r.min == min,
            r.max == max,
    {
        Intensity { value, min, max }
    }

    /// The intensity on the canonical sixteen-bit scale.
    pub open spec fn canonical(&self) -> int {
        rescaled(self.value.nanos as int, self.min.nanos as int, self.max.nanos as int)
    }

    /// Returns this intensity value as a u16: rescaled from its own range to
    /// the canonical sixteen-bit scale.
    pub fn as_u16(&self) -> (r: u16)
        ensures
            r == self.canonical(),
    {
        let value: i128 = self.value.nanos as i128;
        let min: i128 = self.min.nanos as i128;
        let max: i128 = self.max.nanos as i128;
        if max == min {
            if value > min {
                FULL_SCALE
            } else {
                0
            }
        } else {
            // The numerator and the denominator, with the denominator positive.
            let num: i128 = if max > min {
                value - min
            } else {
                min - value
            };
            let den: i128 = if max > min {
                max - min
            } else {
                min - max
            };
            if num <= 0 {
                proof {
                    lemma_rounded_low(65535 * num as int, den as int);
                }
                0
            } else if num >= den {
                proof {
                    lemma_rounded_high(num as int, den as int);
                }
                FULL_SCALE
            } else {
                scale_within(num as u128, den as u128)
            }
        }
    }
}

/// A numerator that is not positive rounds to a quotient that is not positive.
proof fn lemma_rounded_low(num: int, den: int)
    by (nonlinear_arith)
    requires
        num <= 0,
        den > 0,
    ensures
        (2 * num + den) / (2 * den) <= 0,
{
}

/// A numerator at or beyond the denominator reaches the end of the scale.
proof fn lemma_rounded_high(num: int, den: int)
    by (nonlinear_arith)
    requires
        num >= den,
        den > 0,
    ensures
        (2 * (65535 * num) + den) / (2 * den) >= 65535,
{
}

/// Where a rescaled intensity lies on the canonical scale, for a value
/// strictly inside its range: it is above 0 exactly where the value is at least
/// half a step above the minimum, and below 65535 exactly where the value is
/// more than half a step below the maximum, a step being the 65535th part of
/// the range.
pub proof fn lemma_rescaled_inside(value: int, min: int, max: int)
    requires
        min < value < max,
    ensures
        0 <= rescaled(value, min, max) <= 65535,
        0 < rescaled(value, min, max) <==> 131070 * (value - min) >= max - min,
        rescaled(value, min, max) < 65535 <==> 131070 * (max - value) > max - min,
{
    let den = max - min;
    let num = 65535 * (value - min);
    let q = (2 * num + den) / (2 * den);
    assert(q > 0 <==> 2 * num >= den) by (nonlinear_arith)
        requires
            den > 0,
            num > 0,
            q == (2 * num + den) / (2 * den),
    ;
    assert(q < 65535 <==> 2 * num + den < 65535 * (2 * den)) by (nonlinear_arith)
        requires
            den > 0,
            q == (2 * num + den) / (2 * den),
    ;
}

/// A value at the minimum of its range rescales to 0, and one at the maximum
/// to 65535.
pub proof fn lemma_rescaled_ends(min: int, max: int)
    requires
        min < max,
    ensures
        rescaled(min, min, max) == 0,
        rescaled(max, min, max) == 65535,
{
    let den = max - min;
    assert((2 * (65535 * 0) + den) / (2 * den) == 0) by (nonlinear_arith)
        requires
            den > 0,
    ;
    assert((2 * (65535 * den) + den) / (2 * den) == 65535) by (nonlinear_arith)
        requires
            den > 0,
    ;
}

/// An intensity made from a sixteen-bit value rescales to that value.
pub proof fn lemma_rescaled_u16(value: u16)
    ensures
        rescaled(value * 1_000_000_000, 0, 65_535_000_000_000) == value,
{
    let den: int = 65_535_000_000_000;
    let num: int = 65535 * (value * 1_000_000_000);
    assert((2 * num + den) / (2 * den) == value) by (nonlinear_arith)
        requires
            den == 65_535_000_000_000,
            num == 65535 * (value * 1_000_000_000),
            0 <= value,
    ;
}

/// A dumb structure of three numbers, one for each axis.
#[derive(Clone, Copy, Debug, PartialEq, Eq, Structural)]
pub struct Xyz {
    /// The part along x.
    pub x: Fixed,
    /// The part along y.
    pub y: Fixed,
    /// The part along z.
    pub z: Fixed,
}

/// A 3x14 collection of partial derivates for the x, y, and z components of a LiDAR point.
#[derive(Clone, Copy, Debug, PartialEq, Eq, Structural)]
pub struct Partials {
    /// With respect to the range.
    pub range: Xyz,
    /// With respect to the scan angle.
    pub scan_angle: Xyz,
    /// With respect to the boresight roll.
    pub boresight_roll: Xyz,
    /// With respect to the boresight pitch.
    pub boresight_pitch: Xyz,
    /// With respect to the boresight yaw.
    pub boresight_yaw: Xyz,
    /// With respect to the lever arm along x.
    pub lever_arm_x: Xyz,
    /// With respect to the lever arm along y.
    pub lever_arm_y: Xyz,
    /// With respect to the lever arm along z.
    pub lever_arm_z: Xyz,
    /// With respect to the platform's roll.
    pub roll: Xyz,
    /// With respect to the platform's pitch.
    pub pitch: Xyz,
    /// With respect to the platform's yaw.
    pub yaw: Xyz,
    /// With respect to the GNSS position along x.
    pub gnss_x: Xyz,
    /// With respect to the GNSS position along y.
    pub gnss_y: Xyz,
    /// With respect to the GNSS position along z.
    pub gnss_z: Xyz,
}

/// A point.
///
/// The coordinates and the intensity are always there. Every other dimension
/// is either there, because the source had data for it, or `None`; the flags
/// and the classification have defaults that mean "nothing known".
#[derive(Clone, Copy, Debug, PartialEq, Eq)]
pub struct Point {
    /// The x dimension of a point. All points must have these.
    pub x: Fixed,
    /// The y dimension of a point. All points must have these.
    pub y: Fixed,
    /// The z dimension of a point. All points must have these.
    pub z: Fixed,
    /// The intensity of the backscattered energy, with the sensor's dynamic range.
    pub intensity: Intensity,
    /// The return number of this point.
    pub return_number: Option<usize>,
    /// The total number of returns in the pulse of this point.
    pub number_of_returns: Option<usize>,
    /// The direction that the scanner mirror was travelling when the point was collected.
    pub scan_direction: ScanDirection,
    /// Is this point at the edge of a flight line?
    pub edge_of_flight_line: bool,
    /// The classification of this point; `0` is "created, never classified".
    pub classification: u8,
    /// Is this a synthetic point?
    pub synthetic: bool,
    /// Is this a model key point?
    pub key_point: bool,
    /// Is this point withheld?
    pub withheld: bool,
    /// The angle of the mirror when the point was captured, in degrees, zero
    /// being straight out of the scanner.
    pub scan_angle: Option<Fixed>,
    /// The id of the source of the point.
    pub point_source_id: Option<u16>,
    /// User data.
    pub user_data: Option<u8>,
    /// GNSS synchronized time, in seconds.
    pub gps_time: Option<Fixed>,
    /// The range of the point from the scanner, which need not be the
    /// cartesian distance to the point.
    pub range: Option<Fixed>,
    /// The width of the received pulse.
    pub width: Option<Fixed>,
    /// The range index.
    pub rg_index: Option<Fixed>,
    /// The number of the mirror facet that was used to send this pulse.
    pub facet_number: Option<u8>,
    /// The target type, as an integer.
    pub target_type: Option<u8>,
    /// Is this point from a high channel?
    pub high_channel: Option<bool>,
    /// The point's partial derivatives with respect to each of the fourteen
    /// degrees of freedom in the LiDAR georeferencing equation.
    pub partials: Option<Partials>,
}

impl Intensity {
    /// The intensity of a format that has no amplitude channel: zero, in a
    /// range of no width.
    pub open spec fn zero() -> Intensity {
        Intensity { value: Fixed { nanos: 0 }, min: Fixed { nanos: 0 }, max: Fixed { nanos: 0 } }
    }
}

impl Default for Intensity {
    fn default() -> (i: Intensity)
        ensures
            i == Intensity::zero(),
    {
        Intensity { value: Fixed { nanos: 0 }, min: Fixed { nanos: 0 }, max: Fixed { nanos: 0 } }
    }
}

impl Point {
    /// The point at `(x, y, z)` with the given intensity, about which nothing
    /// else is known.
    pub open spec fn bare(x: Fixed, y: Fixed, z: Fixed, intensity: Intensity) -> Point {
        Point {
            x,
            y,
            z,
            intensity,
            return_number: None,
            number_of_returns: None,
            scan_direction: ScanDirection::Unknown,
            edge_of_flight_line: false,
            classification: 0,
            synthetic: false,
            key_point: false,
            withheld: false,
            scan_angle: None,
            point_source_id: None,
            user_data: None,
            gps_time: None,
            range: None,
            width: None,
            rg_index: None,
            facet_number: None,
            target_type: None,
            high_channel: None,
            partials: None,
        }
    }

    /// Creates the point at `(x, y, z)` with the given intensity, every other
    /// dimension absent or at its default.
    pub fn new(x: Fixed, y: Fixed, z: Fixed, intensity: Intensity) -> (p: Point)
        ensures
            p == Point::bare(x, y, z, intensity),
    {
        Point {
            x,
            y,
            z,
            intensity,
            return_number: None,
            number_of_returns: None,
            scan_direction: ScanDirection::Unknown,
            edge_of_flight_line: false,
            classification: 0,
            synthetic: false,
            key_point: false,
            withheld: false,
            scan_angle: None,
            point_source_id: None,
            user_data: None,
            gps_time: None,
            range: None,
            width: None,
            rg_index: None,
            facet_number: None,
            target_type: None,
            high_channel: None,
            partials: None,
        }
    }
}

impl Default for Point {
    fn default() -> (p: Point)
        ensures
            p == Point::bare(
                Fixed { nanos: 0 },
                Fixed { nanos: 0 },
                Fixed { nanos: 0 },
                Intensity::zero(),
            ),
    {
        let zero: Fixed = Fixed { nanos: 0 };
        Point::new(zero, zero, zero, Intensity { value: zero, min: zero, max: zero })
    }
}

} // verus!
