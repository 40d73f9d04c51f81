//! The game's 4.12 fixed-point numbers and 2D vectors of them.

use vstd::prelude::*;

verus! {

/// A signed 4.12 fixed-point number.
#[derive(Debug, Copy, Clone, PartialEq, Eq, Hash, PartialOrd, Ord, Structural)]
pub struct Fixed12(pub i16);

/// An unsigned 4.12 fixed-point number.
#[derive(Debug, Copy, Clone, PartialEq, Eq, Hash, PartialOrd, Ord, Structural)]
pub struct UFixed12(pub u16);

/// Rust's division of integers, which rounds toward zero.
pub open spec fn trunc_div(a: int, b: int) -> int {
    let q: int = (vstd::math::abs(a) / vstd::math::abs(b)) as int;
    if (a >= 0) == (b > 0) { q } else { -q }
}

/// The largest `r` with `r * r <= n`.
pub open spec fn is_isqrt(n: int, r: int) -> bool {
    r >= 0 && r * r <= n < (r + 1) * (r + 1)
}

/// Signed quotient rounded toward zero, for a quotient that fits.
fn div_toward_zero(a: i16, b: i16) -> (r: i32)
    requires
        b != 0,
    ensures
        r == trunc_div(a as int, b as int),
{
    let ua: u32 = if a < 0 { (-(a as i32)) as u32 } else { a as u32 };
    let ub: u32 = if b < 0 { (-(b as i32)) as u32 } else { b as u32 };
    let q = (ua / ub) as i32;
    if (a >= 0) == (b > 0) { q } else { -q }
}

impl Fixed12 {
    /// The absolute value (the most negative value has none).
    pub fn abs(&self) -> (r: Self)
        requires
            self.0 != i16::MIN,
        ensures
            r.0 == vstd::math::abs(self.0 as int),
    {
        Self(if self.0 < 0 { -self.0 } else { self.0 })
    }

    /// The absolute value as an unsigned number (defined for every value).
    pub fn unsigned_abs(&self) -> (r: UFixed12)
        ensures
            r.0 == vstd::math::abs(self.0 as int),
    {
        UFixed12(if self.0 < 0 { (-(self.0 as i32)) as u16 } else { self.0 as u16 })
    }

    pub fn add(self, rhs: Self) -> (r: Self)
        requires
            i16::MIN <= self.0 + rhs.0 <= i16::MAX,
        ensures
            r.0 == self.0 + rhs.0,
    {
        Self(self.0 + rhs.0)
    }

    pub fn sub(self, rhs: Self) -> (r: Self)
        requires
            i16::MIN <= self.0 - rhs.0 <= i16::MAX,
        ensures
            r.0 == self.0 - rhs.0,
    {
        Self(self.0 - rhs.0)
    }

    pub fn neg(self) -> (r: Self)
        requires
            self.0 != i16::MIN,
        ensures
            r.0 == -self.0,
    {
        Self(-self.0)
    }

    /// Fixed-point product: the full product shifted right by 12 (rounding down), kept to 16 bits.
    pub fn mul(self, rhs: Self) -> (r: Self)
        ensures
            r.0 == ((((self.0 as i64) * (rhs.0 as i64)) as i64) >> 12i64) as i16,
    {
        let lhs_wide = self.0 as i64;
        let rhs_wide = rhs.0 as i64;
        assert(-0x4000_0000 <= lhs_wide * rhs_wide <= 0x4000_0000) by (nonlinear_arith)
            requires
                -0x8000 <= lhs_wide <= 0x7fff,
                -0x8000 <= rhs_wide <= 0x7fff,
        ;
        Self(((lhs_wide * rhs_wide) >> 12) as i16)
    }

    /// Fixed-point quotient as the game computes it: the integer quotient (rounded toward
    /// zero) shifted left by 12, kept to 16 bits.
    pub fn div(self, rhs: Self) -> (r: Self)
        requires
            rhs.0 != 0,
            !(self.0 == i16::MIN && rhs.0 == -1),
        ensures
            r.0 == ((trunc_div(self.0 as int, rhs.0 as int) * 4096) as i16),
    {
        let q = div_toward_zero(self.0, rhs.0);
        let shifted = (q as i64 * 4096) as i16;
        Self(shifted)
    }

    /// Shift left by `rhs` bits, keeping 16 bits.
    pub fn shl(self, rhs: i32) -> (r: Self)
        requires
            0 <= rhs < 16,
        ensures
            r.0 == self.0 << (rhs as u32),
    {
        Self(self.0 << (rhs as u32))
    }

    /// Arithmetic shift right by `rhs` bits.
    pub fn shr(self, rhs: i32) -> (r: Self)
        requires
            0 <= rhs < 16,
        ensures
            r.0 == self.0 >> (rhs as u32),
    {
        Self(self.0 >> (rhs as u32))
    }

    /// Adds an unsigned number, wrapping to 16 bits.
    pub fn add_unsigned(self, rhs: UFixed12) -> (r: Self)
        ensures
            r.0 == ((self.0 as i32 + rhs.0 as i32) as i16),
    {
        Self((self.0 as i32 + rhs.0 as i32) as i16)
    }

    /// Subtracts an unsigned number, wrapping to 16 bits.
    pub fn sub_unsigned(self, rhs: UFixed12) -> (r: Self)
        ensures
            r.0 == ((self.0 as i32 - rhs.0 as i32) as i16),
    {
        Self((self.0 as i32 - rhs.0 as i32) as i16)
    }

    /// Equal to an unsigned number: never when negative.
    pub fn eq_unsigned(&self, other: &UFixed12) -> (r: bool)
        ensures
            r == (self.0 as int == other.0 as int),
    {
        if self.0 < 0 {
            return false;
        }
        self.0 as u16 == other.0
    }

    /// Less than an unsigned number: always when negative.
    pub fn lt_unsigned(&self, other: &UFixed12) -> (r: bool)
        ensures
            r == ((self.0 as int) < (other.0 as int)),
    {
        if self.0 < 0 {
            return true;
        }
        (self.0 as u16) < other.0
    }
}

fn isqrt_u16(n: u16) -> (r: u16)
    ensures
        is_isqrt(n as int, r as int),
{
    let mut r: u32 = 0;
    loop
        invariant
            r * r <= n,
            r <= 255,
        decreases 256 - r,
    {
        let next = r + 1;
        assert(next * next <= 65536) by (nonlinear_arith)
            requires
                next <= 256,
        ;
        if next * next > n as u32 {
            return r as u16;
        }
        assert(next <= 255) by (nonlinear_arith)
            requires
                next * next <= 65535,
                next >= 0,
        ;
        r = next;
    }
}

impl UFixed12 {
    /// The integer square root of the raw value.
    pub fn sqrt(&self) -> (r: Self)
        ensures
            is_isqrt(self.0 as int, r.0 as int),
    {
        Self(isqrt_u16(self.0))
    }

    pub fn add(self, rhs: Self) -> (r: Self)
        requires
            self.0 + rhs.0 <= u16::MAX,
        ensures
            r.0 == self.0 + rhs.0,
    {
        Self(self.0 + rhs.0)
    }

    pub fn sub(self, rhs: Self) -> (r: Self)
        requires
            self.0 >= rhs.0,
        ensures
            r.0 == self.0 - rhs.0,
    {
        Self(self.0 - rhs.0)
    }

    /// Fixed-point product: the full product shifted right by 12, kept to 16 bits.
    pub fn mul(self, rhs: Self) -> (r: Self)
        ensures
            r.0 == (((self.0 as int) * (rhs.0 as int)) / 4096) as u16,
    {
        let lhs_wide = self.0 as u64;
        let rhs_wide = rhs.0 as u64;
        assert(lhs_wide * rhs_wide <= 0xffff_ffff) by (nonlinear_arith)
            requires
                lhs_wide <= 0xffff,
                rhs_wide <= 0xffff,
        ;
        let p = lhs_wide * rhs_wide;
        assert(p >> 12 == p / 4096) by (bit_vector);
        Self((p >> 12) as u16)
    }

    /// Fixed-point quotient as the game computes it: the integer quotient shifted left by 12,
    /// kept to 16 bits.
    pub fn div(self, rhs: Self) -> (r: Self)
        requires
            rhs.0 != 0,
        ensures
            r.0 == (((self.0 / rhs.0) as int) * 4096) as u16,
    {
        let q = (self.0 / rhs.0) as u32;
        Self((q * 4096) as u16)
    }

    /// Shift left by `rhs` bits, keeping 16 bits.
    pub fn shl(self, rhs: i32) -> (r: Self)
        requires
            0 <= rhs < 16,
        ensures
            r.0 == self.0 << (rhs as u32),
    {
        Self(self.0 << (rhs as u32))
    }

    /// Shift right by `rhs` bits.
    pub fn shr(self, rhs: i32) -> (r: Self)
        requires
            0 <= rhs < 16,
        ensures
            r.0 == self.0 >> (rhs as u32),
    {
        Self(self.0 >> (rhs as u32))
    }

    /// The negation as a signed number (the raw value taken as 16-bit signed first).
    pub fn neg(self) -> (r: Fixed12)
        requires
            self.0 as i16 != i16::MIN,
        ensures
            r.0 == -(self.0 as i16),
    {
        Fixed12(-(self.0 as i16))
    }

    /// Equal to a signed number: never when that is negative.
    pub fn eq_signed(&self, other: &Fixed12) -> (r: bool)
        ensures
            r == (self.0 as int == other.0 as int),
    {
        other.eq_unsigned(self)
    }
}

/// A position or direction on the horizontal plane.
#[derive(Debug, Copy, Clone, PartialEq, Eq, Hash, Structural)]
pub struct Vec2 {
    pub x: Fixed12,
    pub z: Fixed12,
}

/// Adds two 16-bit numbers, clamping to the 16-bit range.
pub open spec fn saturating_add_i16(a: i16, b: i16) -> i16 {
    if a + b > i16::MAX {
        i16::MAX
    } else if a + b < i16::MIN {
        i16::MIN
    } else {
        (a + b) as i16
    }
}

fn sat_add_i16(a: i16, b: i16) -> (r: i16)
    ensures
        r == saturating_add_i16(a, b),
{
    let s = a as i32 + b as i32;
    if s > i16::MAX as i32 {
        i16::MAX
    } else if s < i16::MIN as i32 {
        i16::MIN
    } else {
        s as i16
    }
}

/// The squared length that `len` takes the root of: each coordinate's absolute value is
/// squared in fixed point (product shifted right by 12, kept to 16 bits).
pub open spec fn len_squared(v: Vec2) -> int {
    let x = vstd::math::abs(v.x.0 as int);
    let z = vstd::math::abs(v.z.0 as int);
    (((x * x) / 4096) as u16) + (((z * z) / 4096) as u16)
}

impl Vec2 {
    pub fn new(x: Fixed12, z: Fixed12) -> (r: Self)
        ensures
            r == (Vec2 { x, z }),
    {
        Self { x, z }
    }

    pub fn zero() -> (r: Self)
        ensures
            r == (Vec2 { x: Fixed12(0), z: Fixed12(0) }),
    {
        Self { x: Fixed12(0), z: Fixed12(0) }
    }

    /// Whether both coordinates are zero.
    pub fn is_zero(&self) -> (r: bool)
        ensures
            r == (self.x.0 == 0 && self.z.0 == 0),
    {
        self.x.0 == 0 && self.z.0 == 0
    }

    /// The length, as the square root of the fixed-point sum of squares.
    pub fn len(&self) -> (r: UFixed12)
        requires
            len_squared(*self) <= u16::MAX,
        ensures
            is_isqrt(len_squared(*self), r.0 as int),
    {
        let x_abs = self.x.unsigned_abs();
        let z_abs = self.z.unsigned_abs();
        x_abs.mul(x_abs).add(z_abs.mul(z_abs)).sqrt()
    }

    /// Coordinate-wise sum, clamped to the 16-bit range.
    pub fn saturating_add(&self, rhs: Self) -> (r: Self)
        ensures
            r.x.0 == saturating_add_i16(self.x.0, rhs.x.0),
            r.z.0 == saturating_add_i16(self.z.0, rhs.z.0),
    {
        Self { x: Fixed12(sat_add_i16(self.x.0, rhs.x.0)), z: Fixed12(sat_add_i16(self.z.0, rhs.z.0)) }
    }

    pub fn add(self, rhs: Self) -> (r: Self)
        requires
            i16::MIN <= self.x.0 + rhs.x.0 <= i16::MAX,
            i16::MIN <= self.z.0 + rhs.z.0 <= i16::MAX,
        ensures
            r.x.0 == self.x.0 + rhs.x.0,
            r.z.0 == self.z.0 + rhs.z.0,
    {
        Self { x: self.x.add(rhs.x), z: self.z.add(rhs.z) }
    }

    pub fn sub(self, rhs: Self) -> (r: Self)
        requires
            i16::MIN <= self.x.0 - rhs.x.0 <= i16::MAX,
            i16::MIN <= self.z.0 - rhs.z.0 <= i16::MAX,
        ensures
            r.x.0 == self.x.0 - rhs.x.0,
            r.z.0 == self.z.0 - rhs.z.0,
    {
        Self { x: self.x.sub(rhs.x), z: self.z.sub(rhs.z) }
    }

    pub fn neg(self) -> (r: Self)
        requires
            self.x.0 != i16::MIN,
            self.z.0 != i16::MIN,
        ensures
            r.x.0 == -self.x.0,
            r.z.0 == -self.z.0,
    {
        Self { x: self.x.neg(), z: self.z.neg() }
    }

    /// Scales both coordinates by a fixed-point factor.
    pub fn mul(self, rhs: Fixed12) -> (r: Self)
        ensures
            r.x == self.x.mul_spec(rhs),
            r.z == self.z.mul_spec(rhs),
    {
        Self { x: self.x.mul(rhs), z: self.z.mul(rhs) }
    }

    /// The vector with the given coordinates.
    pub fn from_pair(v: (Fixed12, Fixed12)) -> (r: Self)
        ensures
            r == (Vec2 { x: v.0, z: v.1 }),
    {
        Self { x: v.0, z: v.1 }
    }
}

impl Fixed12 {
    pub open spec fn mul_spec(self, rhs: Self) -> Self {
        Fixed12(((((self.0 as i64) * (rhs.0 as i64)) as i64) >> 12i64) as i16)
    }
}

/// An integer square root is unique.
pub proof fn lemma_isqrt_unique(n: int, r1: int, r2: int)
    requires
        is_isqrt(n, r1),
        is_isqrt(n, r2),
    ensures
        r1 == r2,
{
    if r1 < r2 {
        assert((r1 + 1) * (r1 + 1) <= r2 * r2) by (nonlinear_arith)
            requires 0 <= r1, r1 + 1 <= r2;
    } else if r2 < r1 {
        assert((r2 + 1) * (r2 + 1) <= r1 * r1) by (nonlinear_arith)
            requires 0 <= r2, r2 + 1 <= r1;
    }
}

/// The squared length that `len` measures does not change when the coordinates are swapped or
/// either is negated, so neither does the length (see `lemma_isqrt_unique`); the zero vector
/// has length 0.
pub proof fn lemma_len_symmetric(v: Vec2)
    ensures
        len_squared(Vec2 { x: v.z, z: v.x }) == len_squared(v),
        v.x.0 != i16::MIN ==> len_squared(Vec2 { x: Fixed12((-v.x.0) as i16), z: v.z }) == len_squared(v),
        v.z.0 != i16::MIN ==> len_squared(Vec2 { x: v.x, z: Fixed12((-v.z.0) as i16) }) == len_squared(v),
        len_squared(Vec2 { x: Fixed12(0), z: Fixed12(0) }) == 0,
        forall|r: int| is_isqrt(0, r) ==> r == 0,
{
    assert forall|r: int| is_isqrt(0, r) implies r == 0 by {
        lemma_isqrt_unique(0, r, 0);
    }
}

} // verus!
