//! Fixed-point numbers.
//!
//! Every real-valued quantity of a point (a coordinate, a time, an angle) is
//! held as a whole count of billionths of its unit, so that all arithmetic on
//! it is exact integer arithmetic.

use vstd::prelude::*;
use vstd::string::*;

verus! {

/// The number of billionths in one unit.
pub const NANOS_PER_UNIT: i64 = 1_000_000_000;

/// A number with nine decimal places, held as a count of billionths.
#[derive(Clone, Copy, Debug, PartialEq, Eq, Structural)]
pub struct Fixed {
    /// The value, in billionths of the unit.
    pub nanos: i64,
}

/// The whole part of `nanos` billionths, rounded toward zero.
pub open spec fn whole_part(nanos: int) -> int {
    if nanos >= 0 {
        nanos / 1_000_000_000
    } else {
        -((-nanos) / 1_000_000_000)
    }
}

/// `v`, limited to the range from `lo` to `hi`.
pub open spec fn clamp(v: int, lo: int, hi: int) -> int {
    if v < lo {
        lo
    } else if v > hi {
        hi
    } else {
        v
    }
}

/// The sum of the squares of three numbers.
pub open spec fn sum_of_squares(x: int, y: int, z: int) -> int {
    x * x + y * y + z * z
}

/// Whether `r` is the largest natural number whose square is at most `n`,
/// or `i64::MAX` where that number is larger still.
pub open spec fn is_saturated_root(r: int, n: int) -> bool {
    &&& 0 <= r <= i64::MAX
    &&& r * r <= n
    &&& r < i64::MAX ==> n < (r + 1) * (r + 1)
}

/// The length of the vector `(x, y, z)`, rounded down to a whole number and
/// limited to `i64::MAX`.
pub open spec fn norm_of(x: int, y: int, z: int) -> int {
    choose|r: int| is_saturated_root(r, sum_of_squares(x, y, z))
}

/// No number has two saturated roots.
pub proof fn lemma_saturated_root_unique(a: int, b: int, n: int)
    requires
        is_saturated_root(a, n),
        is_saturated_root(b, n),
    ensures
        a == b,
{
    if a < b {
        assert((a + 1) * (a + 1) <= b * b) by (nonlinear_arith)
            requires
                0 <= a < b,
        ;
    } else if b < a {
        assert((b + 1) * (b + 1) <= a * a) by (nonlinear_arith)
            requires
                0 <= b < a,
        ;
    }
}

/// The character of the decimal digit `d`.
pub open spec fn digit_char(d: int) -> char {
    if d == 0 {
        '0'
    } else if d == 1 {
        '1'
    } else if d == 2 {
        '2'
    } else if d == 3 {
        '3'
    } else if d == 4 {
        '4'
    } else if d == 5 {
        '5'
    } else if d == 6 {
        '6'
    } else if d == 7 {
        '7'
    } else if d == 8 {
        '8'
    } else {
        '9'
    }
}

/// The decimal digits of `n`, most significant first, without leading zeros.
pub open spec fn nat_text(n: nat) -> Seq<char>
    decreases n,
{
    if n < 10 {
        seq![digit_char(n as int)]
    } else {
        nat_text(n / 10).push(digit_char((n % 10) as int))
    }
}

/// The last `width` decimal digits of `n`, most significant first, with
/// leading zeros.
pub open spec fn padded_text(n: nat, width: nat) -> Seq<char>
    decreases width,
{
    if width == 0 {
        Seq::<char>::empty()
    } else {
        padded_text(n / 10, (width - 1) as nat).push(digit_char((n % 10) as int))
    }
}

/// The digits after the decimal point of a fraction of `frac` parts in
/// `10^width`, without trailing zeros.
pub open spec fn fraction_text(frac: nat, width: nat) -> Seq<char>
    decreases width,
{
    if width == 0 || frac == 0 {
        Seq::<char>::empty()
    } else if frac % 10 == 0 {
        fraction_text(frac / 10, (width - 1) as nat)
    } else {
        padded_text(frac, width)
    }
}

/// The decimal text of `nanos` billionths: an optional minus sign, the whole
/// part, and, where the fraction is not zero, a point and the fraction's
/// digits without trailing zeros.
pub open spec fn fixed_text(nanos: int) -> Seq<char> {
    let magnitude: nat = (if nanos < 0 {
        -nanos
    } else {
        nanos
    }) as nat;
    let sign: Seq<char> = if nanos < 0 {
        seq!['-']
    } else {
        Seq::<char>::empty()
    };
    let whole: Seq<char> = nat_text(magnitude / 1_000_000_000);
    let frac: nat = magnitude % 1_000_000_000;
    if frac == 0 {
        sign + whole
    } else {
        sign + whole + seq!['.'] + fraction_text(frac, 9)
    }
}

/// The text of one decimal digit.
fn digit_str(d: u64) -> (s: &'static str)
    requires
        d < 10,
    ensures
        s@ == seq![digit_char(d as int)],
{
    proof {
        reveal_strlit("0");
        reveal_strlit("1");
        reveal_strlit("2");
        reveal_strlit("3");
        reveal_strlit("4");
        reveal_strlit("5");
        reveal_strlit("6");
        reveal_strlit("7");
        reveal_strlit("8");
        reveal_strlit("9");
    }
    if d == 0 {
        "0"
    } else if d == 1 {
        "1"
    } else if d == 2 {
        "2"
    } else if d == 3 {
        "3"
    } else if d == 4 {
        "4"
    } else if d == 5 {
        "5"
    } else if d == 6 {
        "6"
    } else if d == 7 {
        "7"
    } else if d == 8 {
        "8"
    } else {
        "9"
    }
}

/// Appends the decimal digits of `n` to `out`.
pub fn append_nat(out: &mut String, n: u64)
    ensures
        final(out)@ == old(out)@ + nat_text(n as nat),
    decreases n,
{
    if n >= 10 {
        append_nat(out, n / 10);
    }
    out.append(digit_str(n % 10));
}

/// Appends the last `width` decimal digits of `n` to `out`.
fn append_padded(out: &mut String, n: u64, width: u32)
    ensures
        final(out)@ == old(out)@ + padded_text(n as nat, width as nat),
    decreases width,
{
    if width > 0 {
        append_padded(out, n / 10, width - 1);
        out.append(digit_str(n % 10));
    }
}

/// Appends the digits of a fraction of `frac` parts in `10^width` to `out`,
/// leaving trailing zeros out.
fn append_fraction(out: &mut String, frac: u64, width: u32)
    ensures
        final(out)@ == old(out)@ + fraction_text(frac as nat, width as nat),
{
    let mut f: u64 = frac;
    let mut w: u32 = width;
    while w > 0 && f != 0 && f % 10 == 0
        invariant
            fraction_text(f as nat, w as nat) == fraction_text(frac as nat, width as nat),
        decreases w,
    {
        f = f / 10;
        w = w - 1;
    }
    if w > 0 && f != 0 {
        append_padded(out, f, w);
    }
}

/// The magnitude of `v`.
fn magnitude(v: i64) -> (m: u128)
    ensures
        m == (if v < 0 {
            -(v as int)
        } else {
            v as int
        }),
        m <= 0x8000_0000_0000_0000,
{
    if v >= 0 {
        v as u128
    } else if v == i64::MIN {
        0x8000_0000_0000_0000u128
    } else {
        (-v) as u128
    }
}

/// The square of a magnitude.
fn square(m: u128) -> (sq: u128)
    requires
        m <= 0x8000_0000_0000_0000,
    ensures
        sq == m * m,
        sq <= 0x4000_0000_0000_0000_0000_0000_0000_0000,
{
    assert(m * m <= 0x4000_0000_0000_0000_0000_0000_0000_0000) by (nonlinear_arith)
        requires
            m <= 0x8000_0000_0000_0000,
    ;
    m * m
}

/// The largest number whose square is at most `n`.
fn floor_root(n: u128) -> (r: u128)
    ensures
        r * r <= n < (r + 1) * (r + 1),
        r < 0x1_0000_0000_0000_0000,
{
    let mut lo: u128 = 0;
    let mut hi: u128 = 0x1_0000_0000_0000_0000u128;
    while hi - lo > 1
        invariant
            lo < hi <= 0x1_0000_0000_0000_0000,
            lo * lo <= n < hi * hi,
        decreases hi - lo,
    {
        let mid: u128 = lo + (hi - lo) / 2;
        assert(mid * mid <= 0xffff_ffff_ffff_ffff_ffff_ffff_ffff_ffff) by (nonlinear_arith)
            requires
                mid < 0x1_0000_0000_0000_0000,
        ;
        if mid * mid <= n {
            lo = mid;
        } else {
            hi = mid;
        }
    }
    lo
}

impl Fixed {
    /// The number of `nanos` billionths.
    pub fn from_nanos(nanos: i64) -> (r: Fixed)
        ensures
            r.nanos == nanos,
    {
        Fixed { nanos }
    }

    /// The whole number `n`.
    pub fn from_whole(n: i32) -> (r: Fixed)
        ensures
            r.nanos == n * 1_000_000_000,
    {
        let wide: i64 = n as i64;
        Fixed { nanos: wide * NANOS_PER_UNIT }
    }

    /// The number of a count of billionths that is never negative; a
    /// count beyond the largest number gives the largest number.
    pub fn from_unsigned_nanos(count: u64) -> (r: Fixed)
        ensures
            r.nanos == clamp(count as int, 0, i64::MAX as int),
    {
        if count > 9_223_372_036_854_775_807u64 {
            Fixed { nanos: i64::MAX }
        } else {
            Fixed { nanos: count as i64 }
        }
    }

    /// The value in billionths.
    pub fn as_nanos(&self) -> (n: i64)
        ensures
            n == self.nanos,
    {
        self.nanos
    }

    /// The whole part, rounded toward zero.
    pub fn whole(&self) -> (w: i64)
        ensures
            w == whole_part(self.nanos as int),
    {
        if self.nanos >= 0 {
            self.nanos / NANOS_PER_UNIT
        } else if self.nanos == i64::MIN {
            -9_223_372_036i64
        } else {
            let up: i64 = -self.nanos;
            -(up / NANOS_PER_UNIT)
        }
    }

    /// The whole part as an `i8`: rounded toward zero, and limited to the
    /// range of `i8`.
    pub fn to_i8(&self) -> (r: i8)
        ensures
            r == clamp(whole_part(self.nanos as int), -128, 127),
    {
        let w: i64 = self.whole();
        if w < -128 {
            -128i8
        } else if w > 127 {
            127i8
        } else {
            w as i8
        }
    }

    /// The whole part as a `u16`: rounded toward zero, and limited to the
    /// range of `u16`.
    pub fn to_u16(&self) -> (r: u16)
        ensures
            r == clamp(whole_part(self.nanos as int), 0, 65535),
    {
        let w: i64 = self.whole();
        if w < 0 {
            0u16
        } else if w > 65535 {
            65535u16
        } else {
            w as u16
        }
    }

    /// The length of the vector `(x, y, z)`, rounded down to a whole count of
    /// billionths; the largest number where the length is beyond it.
    pub fn norm(x: Fixed, y: Fixed, z: Fixed) -> (r: Fixed)
        ensures
            r.nanos == norm_of(x.nanos as int, y.nanos as int, z.nanos as int),
            is_saturated_root(
                r.nanos as int,
                sum_of_squares(x.nanos as int, y.nanos as int, z.nanos as int),
            ),
    {
        let ghost n: int = sum_of_squares(x.nanos as int, y.nanos as int, z.nanos as int);
        let mx: u128 = magnitude(x.nanos);
        let my: u128 = magnitude(y.nanos);
        let mz: u128 = magnitude(z.nanos);
        let sx: u128 = square(mx);
        let sy: u128 = square(my);
        let sz: u128 = square(mz);
        assert(mx * mx == x.nanos * x.nanos) by (nonlinear_arith)
            requires
                mx == x.nanos || mx == -x.nanos,
        ;
        assert(my * my == y.nanos * y.nanos) by (nonlinear_arith)
            requires
                my == y.nanos || my == -y.nanos,
        ;
        assert(mz * mz == z.nanos * z.nanos) by (nonlinear_arith)
            requires
                mz == z.nanos || mz == -z.nanos,
        ;
        let total: u128 = sx + sy + sz;
        let root: u128 = floor_root(total);
        let r: Fixed = if root >= 0x7fff_ffff_ffff_ffffu128 {
            assert(0x7fff_ffff_ffff_ffff * 0x7fff_ffff_ffff_ffff <= root * root) by (nonlinear_arith)
                requires
                    root >= 0x7fff_ffff_ffff_ffff,
            ;
            Fixed { nanos: i64::MAX }
        } else {
            Fixed { nanos: root as i64 }
        };
        proof {
            lemma_saturated_root_unique(
                r.nanos as int,
                norm_of(x.nanos as int, y.nanos as int, z.nanos as int),
                n,
            );
        }
        r
    }

    /// The decimal text of the number.
    pub fn to_text(&self) -> (s: String)
        ensures
            s@ == fixed_text(self.nanos as int),
    {
        let mut out: String = String::new();
        self.append_to(&mut out);
        out
    }

    /// Appends the decimal text of the number to `out`.
    pub fn append_to(&self, out: &mut String)
        ensures
            final(out)@ == old(out)@ + fixed_text(self.nanos as int),
    {
        let magnitude: u64 = if self.nanos >= 0 {
            self.nanos as u64
        } else if self.nanos == i64::MIN {
            9_223_372_036_854_775_808u64
        } else {
            (-self.nanos) as u64
        };
        if self.nanos < 0 {
            proof {
                reveal_strlit("-");
            }
            out.append("-");
        }
        append_nat(out, magnitude / 1_000_000_000);
        let frac: u64 = magnitude % 1_000_000_000;
        if frac != 0 {
            proof {
                reveal_strlit(".");
            }
            out.append(".");
            append_fraction(out, frac, 9);
        }
    }
}

} // verus!
