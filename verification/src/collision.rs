//! Collision shapes of a room and the game's tests on them: whether a shape contains a point,
//! and where a rectangle stops a moving body.
//!
//! Coordinates are the game's 32-bit fixed-point values, held as their raw `i32`. Sums,
//! differences and products wrap around as the game's arithmetic does. Lengths of vectors
//! come from the game's square-root routine, which is not part of this library: where a test
//! needs one, it hands back the vector to measure (see `PointTest`).

use vstd::prelude::*;
use crate::world::{Floor, ObjectType, WorldVec};
use crate::room::{hex_fixed, push_hex};
use crate::text::{push_signed_decimal, signed_decimal};

verus! {

// ---------------------------------------------------------------------------------------------
// 32-bit arithmetic

/// The game's arithmetic shift right by one: halving, rounded towards negative infinity.
pub open spec fn half(x: i32) -> i32 {
    (x as int / 2) as i32
}

/// Wrapping negation.
pub open spec fn wneg(x: i32) -> i32 {
    0i32.wrapping_sub(x)
}

/// Wrapping absolute value (the most negative value stays as it is).
pub open spec fn wabs(x: i32) -> i32 {
    if x < 0 { wneg(x) } else { x }
}

/// `a < b` when both are read as unsigned 32-bit values.
pub open spec fn unsigned_lt(a: i32, b: i32) -> bool {
    if (a < 0) == (b < 0) { a < b } else { b < 0 }
}

/// Division rounded towards zero.
pub open spec fn trunc_div(a: int, b: int) -> int {
    let q = (if a < 0 { -a } else { a }) / (if b < 0 { -b } else { b });
    if (a < 0) != (b < 0) { -q } else { q }
}

/// Whether `a / b` is defined on `i32`: no division by zero, and no quotient out of range.
pub open spec fn div_defined(a: i32, b: i32) -> bool {
    b != 0 && !(a == i32::MIN && b == -1)
}

pub open spec fn vadd(a: WorldVec, b: WorldVec) -> WorldVec {
    WorldVec { x: a.x.wrapping_add(b.x), z: a.z.wrapping_add(b.z) }
}

pub open spec fn vsub(a: WorldVec, b: WorldVec) -> WorldVec {
    WorldVec { x: a.x.wrapping_sub(b.x), z: a.z.wrapping_sub(b.z) }
}

pub open spec fn vzero() -> WorldVec {
    WorldVec { x: 0, z: 0 }
}

fn halve(x: i32) -> (r: i32)
    ensures
        r == half(x),
{
    assert(x >> 1u32 == x / 2) by (bit_vector);
    x >> 1u32
}

pub(crate) fn neg(x: i32) -> (r: i32)
    ensures
        r == wneg(x),
{
    0i32.wrapping_sub(x)
}

pub(crate) fn abs(x: i32) -> (r: i32)
    ensures
        r == wabs(x),
{
    if x < 0 { neg(x) } else { x }
}

pub(crate) fn lt_unsigned(a: i32, b: i32) -> (r: bool)
    ensures
        r == unsigned_lt(a, b),
{
    assert(((a as u32) < (b as u32)) == (if (a < 0) == (b < 0) { a < b } else { b < 0 }))
        by (bit_vector);
    (a as u32) < (b as u32)
}

/// Division rounded towards zero, as `/` on `i32`.
fn div(a: i32, b: i32) -> (r: i32)
    requires
        div_defined(a, b),
    ensures
        r == trunc_div(a as int, b as int),
{
    if b > 0 {
        a / b
    } else if b == i32::MIN {
        if a == i32::MIN { 1 } else { 0 }
    } else {
        let nb = -b;
        let q = a / nb;
        proof {
            let n: int = if a < 0 { -(a as int) } else { a as int };
            vstd::arithmetic::div_mod::lemma_div_is_ordered_by_denominator(n, 1, nb as int);
            if nb >= 2 {
                vstd::arithmetic::div_mod::lemma_div_is_ordered_by_denominator(n, 2, nb as int);
            }
        }
        -q
    }
}

fn add_vec(a: WorldVec, b: WorldVec) -> (r: WorldVec)
    ensures
        r == vadd(a, b),
{
    WorldVec { x: a.x.wrapping_add(b.x), z: a.z.wrapping_add(b.z) }
}

fn sub_vec(a: WorldVec, b: WorldVec) -> (r: WorldVec)
    ensures
        r == vsub(a, b),
{
    WorldVec { x: a.x.wrapping_sub(b.x), z: a.z.wrapping_sub(b.z) }
}

/// A wrapping sum is the integer sum, or that sum moved by 2^32 back into range.
proof fn lemma_wrapping_add(a: i32, b: i32)
    ensures
        a.wrapping_add(b) == a + b || a.wrapping_add(b) == a + b - 0x1_0000_0000
            || a.wrapping_add(b) == a + b + 0x1_0000_0000,
        i32::MIN <= a + b <= i32::MAX ==> a.wrapping_add(b) == a + b,
{
}

/// A wrapping difference is the integer difference, or that difference moved by 2^32.
proof fn lemma_wrapping_sub(a: i32, b: i32)
    ensures
        a.wrapping_sub(b) == a - b || a.wrapping_sub(b) == a - b - 0x1_0000_0000
            || a.wrapping_sub(b) == a - b + 0x1_0000_0000,
        i32::MIN <= a - b <= i32::MAX ==> a.wrapping_sub(b) == a - b,
{
}

// ---------------------------------------------------------------------------------------------
// Motion

/// A body of the given half-extent moving from one point to another.
#[derive(Debug, Clone, Copy, PartialEq, Eq, Structural)]
pub struct Motion {
    pub from: WorldVec,
    pub to: WorldVec,
    pub size: WorldVec,
}

impl Motion {
    pub fn new(from: WorldVec, to: WorldVec, size: WorldVec) -> (r: Self)
        ensures
            r == (Motion { from, to, size }),
    {
        Self { from, to, size }
    }

    /// A point standing still.
    pub fn point(point: WorldVec) -> (r: Self)
        ensures
            r == (Motion { from: point, to: point, size: vzero() }),
    {
        Self { from: point, to: point, size: WorldVec { x: 0, z: 0 } }
    }

    /// The game's test of whether the destination, grown by the body's size, lands in the
    /// rectangle at `pos` of extent `size`: both offsets compared as unsigned values.
    pub open spec fn destination_in_rect(self, pos: WorldVec, size: WorldVec) -> bool {
        let motion_size = self.size.x.wrapping_add(self.size.x);
        let x_size = size.x.wrapping_add(motion_size);
        let z_size = size.z.wrapping_add(motion_size);
        let rel = vsub(vadd(self.to, self.size), pos);
        unsigned_lt(rel.x, x_size) && unsigned_lt(rel.z, z_size)
    }

    pub fn is_destination_in_rect(&self, pos: WorldVec, size: WorldVec) -> (r: bool)
        ensures
            r == self.destination_in_rect(pos, size),
    {
        // the game uses the x size for both axes
        let motion_size = self.size.x.wrapping_add(self.size.x);
        let x_size = size.x.wrapping_add(motion_size);
        let z_size = size.z.wrapping_add(motion_size);
        let rel = sub_vec(add_vec(self.to, self.size), pos);
        lt_unsigned(rel.x, x_size) && lt_unsigned(rel.z, z_size)
    }
}

// ---------------------------------------------------------------------------------------------
// Rectangle clipping

/// How far the game lets a body be pushed to a rectangle's edge.
pub const RECT_THRESHOLD: i32 = 0x191;

/// Where a body is pushed to get out of a rectangle, given the offsets to the nearest edge on
/// each axis: along the axis whose offset is smaller in magnitude.
pub open spec fn nearest_edge_push(motion: Motion, x_edge: i32, z_edge: i32) -> WorldVec {
    if wabs(x_edge) < wabs(z_edge) {
        WorldVec { x: motion.to.x.wrapping_add(x_edge), z: motion.to.z }
    } else {
        WorldVec { x: motion.to.x, z: motion.to.z.wrapping_add(z_edge) }
    }
}

/// The game's quadrant value: the top two bits of the sign bits of `a` and `c`, read with an
/// arithmetic shift, is never 1, 2 or 3.
proof fn lemma_edge_quadrant(a: i32, c: i32)
    ensures
        (((a >> 1u32) | (c & -0x4000_0001i32)) >> 30u32) == (if a < 0 { -1i32 } else if c < 0 {
            -2i32
        } else {
            0i32
        }),
{
    assert((((a >> 1u32) | (c & -0x4000_0001i32)) >> 30u32) == (if a < 0 { -1i32 } else if c < 0 {
        -2i32
    } else {
        0i32
    })) by (bit_vector);
}

fn push_to_rect_nearest_edge(motion: &Motion, x_edge_offset: i32, z_edge_offset: i32) -> (r: WorldVec)
    ensures
        r == nearest_edge_push(*motion, x_edge_offset, z_edge_offset),
{
    let rel = sub_vec(motion.to, motion.from);
    let x_edge_abs = abs(x_edge_offset);
    let z_edge_abs = abs(z_edge_offset);

    // -0x4000_0001 is the bit pattern 0xbfff_ffff
    let quadrant: i32 = (((rel.x ^ x_edge_offset) >> 1u32) | ((rel.z ^ z_edge_offset) & -0x4000_0001i32))
        >> 30u32;
    proof {
        lemma_edge_quadrant(rel.x ^ x_edge_offset, rel.z ^ z_edge_offset);
    }

    if quadrant == 1 {
        if x_edge_abs < RECT_THRESHOLD {
            return add_vec(motion.to, WorldVec { x: x_edge_offset, z: 0 });
        }
    } else if quadrant == 2 {
        if z_edge_abs < RECT_THRESHOLD {
            return add_vec(motion.to, WorldVec { x: 0, z: z_edge_offset });
        }
    } else if quadrant != 3 {
        return if x_edge_abs < z_edge_abs {
            add_vec(motion.to, WorldVec { x: x_edge_offset, z: 0 })
        } else {
            add_vec(motion.to, WorldVec { x: 0, z: z_edge_offset })
        };
    }

    if x_edge_abs < z_edge_abs {
        if x_edge_abs < RECT_THRESHOLD * 2 {
            return add_vec(motion.to, WorldVec { x: x_edge_offset, z: 0 });
        }
    } else if z_edge_abs < RECT_THRESHOLD * 2 {
        return add_vec(motion.to, WorldVec { x: 0, z: z_edge_offset });
    }

    motion.from
}

/// The offset to the nearer of a rectangle's two edges on one axis: the far one unless it is
/// larger in magnitude than the near one.
pub open spec fn nearer_edge(max_outside: i32, min_outside: i32) -> i32 {
    if max_outside > wneg(min_outside) { min_outside } else { max_outside }
}

/// Where a body inside a rectangle is pushed out to. `directional_size` is the body's extent
/// in the direction of the rectangle, which the game computes from angles.
pub open spec fn push_out(pos: WorldVec, size: WorldVec, motion: Motion, directional_size: i32) -> WorldVec {
    let max_x = size.x.wrapping_sub(motion.to.x).wrapping_add(pos.x.wrapping_add(1)).wrapping_add(
        motion.size.x,
    );
    let min_x = pos.x.wrapping_sub(motion.to.x).wrapping_sub(motion.size.x).wrapping_sub(1);
    let min_z = pos.z.wrapping_sub(motion.to.z).wrapping_sub(directional_size).wrapping_sub(1);
    let max_z = size.z.wrapping_sub(motion.to.z).wrapping_add(pos.z.wrapping_add(1)).wrapping_add(
        directional_size,
    );
    nearest_edge_push(motion, nearer_edge(max_x, min_x), nearer_edge(max_z, min_z))
}

fn push_out_of_rect(pos: WorldVec, size: WorldVec, motion: &Motion, directional_size: i32) -> (r: WorldVec)
    ensures
        r == push_out(pos, size, *motion, directional_size),
{
    let mut max_x_outside = size.x.wrapping_sub(motion.to.x).wrapping_add(pos.x.wrapping_add(1))
        .wrapping_add(motion.size.x);
    let min_x_outside = pos.x.wrapping_sub(motion.to.x).wrapping_sub(motion.size.x).wrapping_sub(1);
    if max_x_outside > neg(min_x_outside) {
        max_x_outside = min_x_outside;
    }

    let min_z_outside = pos.z.wrapping_sub(motion.to.z).wrapping_sub(directional_size).wrapping_sub(1);
    let mut max_z_outside = size.z.wrapping_sub(motion.to.z).wrapping_add(pos.z.wrapping_add(1))
        .wrapping_add(directional_size);
    if max_z_outside > neg(min_z_outside) {
        max_z_outside = min_z_outside;
    }

    push_to_rect_nearest_edge(motion, max_x_outside, max_z_outside)
}

/// Moves one axis of the destination against the rectangle's side that the body came through.
pub open spec fn clip_axis(pos: i32, size: i32, motion_size: i32, from: i32, to: i32) -> i32 {
    let r = half(size);
    let adjustment = r.wrapping_add(1).wrapping_add(motion_size);
    let adjustment = if to.wrapping_sub(from) < 0 { adjustment } else { wneg(adjustment) };
    adjustment.wrapping_add(r).wrapping_add(pos)
}

/// Where a moving body ends up against the rectangle at `pos` of extent `size`.
///
/// A destination outside the rectangle is kept. Otherwise the game looks at where the body
/// started relative to the rectangle grown by the body's size: when it started just outside a
/// side on one axis (one unit off, with the z axis taking precedence), or beyond the far side on
/// either axis, the destination is moved against those sides; when it started within, it is
/// pushed out to the nearest edge.
pub open spec fn rect_clip(pos: WorldVec, size: WorldVec, motion: Motion, directional_size: i32) -> WorldVec {
    if !motion.destination_in_rect(pos, size) {
        motion.to
    } else {
        let rel = vadd(vsub(motion.size, pos), motion.from);
        let total = vadd(size, vadd(motion.size, motion.size));
        let x_touch = rel.x == -1 || rel.x == total.x.wrapping_add(1);
        let z_touch = rel.z == -1 || rel.z == total.z.wrapping_add(1);
        let (clip_x, clip_z) = if z_touch {
            (false, true)
        } else if x_touch {
            (true, false)
        } else {
            (total.x <= rel.x, total.z <= rel.z)
        };
        if !clip_x && !clip_z {
            push_out(pos, size, motion, directional_size)
        } else {
            WorldVec {
                x: if clip_x {
                    clip_axis(pos.x, size.x, motion.size.x, motion.from.x, motion.to.x)
                } else {
                    motion.to.x
                },
                z: if clip_z {
                    clip_axis(pos.z, size.z, motion.size.z, motion.from.z, motion.to.z)
                } else {
                    motion.to.z
                },
            }
        }
    }
}

/// The flags that say which axes to clip, as bits: 2 for x, 1 for z.
proof fn lemma_clip_flags(x: bool, z: bool)
    ensures
        (((if x { 2u32 } else { 0u32 }) | (if z { 1u32 } else { 0u32 })) & 2u32 != 0) == x,
        (((if x { 2u32 } else { 0u32 }) | (if z { 1u32 } else { 0u32 })) & 1u32 != 0) == z,
        (((if x { 2u32 } else { 0u32 }) | (if z { 1u32 } else { 0u32 })) == 0) == (!x && !z),
        2u32 & 2u32 != 0 && 2u32 & 1u32 == 0 && 1u32 & 2u32 == 0 && 1u32 & 1u32 != 0,
{
    assert((0u32 | 0u32) == 0 && (0u32 | 0u32) & 2 == 0 && (0u32 | 0u32) & 1 == 0) by (bit_vector);
    assert((2u32 | 0u32) != 0 && (2u32 | 0u32) & 2 != 0 && (2u32 | 0u32) & 1 == 0) by (bit_vector);
    assert((0u32 | 1u32) != 0 && (0u32 | 1u32) & 2 == 0 && (0u32 | 1u32) & 1 != 0) by (bit_vector);
    assert((2u32 | 1u32) != 0 && (2u32 | 1u32) & 2 != 0 && (2u32 | 1u32) & 1 != 0) by (bit_vector);
    assert(2u32 & 2u32 != 0 && 2u32 & 1u32 == 0 && 1u32 & 2u32 == 0 && 1u32 & 1u32 != 0) by (bit_vector);
}

fn clip_axis_value(pos: i32, size: i32, motion_size: i32, from: i32, to: i32) -> (r: i32)
    ensures
        r == clip_axis(pos, size, motion_size, from, to),
{
    let r = halve(size);
    let mut adjustment = r.wrapping_add(1).wrapping_add(motion_size);
    if !(to.wrapping_sub(from) < 0) {
        adjustment = neg(adjustment);
    }
    adjustment.wrapping_add(r).wrapping_add(pos)
}

/// Where `motion` ends up against the rectangle at `pos` of extent `size`; `directional_size`
/// is the body's extent towards the rectangle, used when the body is pushed out.
pub fn rect_clip_motion(pos: WorldVec, size: WorldVec, motion: &Motion, directional_size: i32) -> (r: WorldVec)
    ensures
        r == rect_clip(pos, size, *motion, directional_size),
{
    if !motion.is_destination_in_rect(pos, size) {
        return motion.to;
    }

    let rel = add_vec(sub_vec(motion.size, pos), motion.from);
    let total_size = add_vec(size, add_vec(motion.size, motion.size));
    let x_out = total_size.x <= rel.x;
    let z_out = total_size.z <= rel.z;
    let mut outside_flags: u32 = (if x_out { 2u32 } else { 0u32 }) | (if z_out { 1u32 } else { 0u32 });
    proof {
        lemma_clip_flags(x_out, z_out);
    }

    let ghost x_touch = rel.x == -1 || rel.x == total_size.x.wrapping_add(1);
    let ghost z_touch = rel.z == -1 || rel.z == total_size.z.wrapping_add(1);
    let ghost clip_x = !z_touch && (x_touch || x_out);
    let ghost clip_z = z_touch || (!x_touch && z_out);

    if rel.x == -1 || rel.x == total_size.x.wrapping_add(1) {
        outside_flags = 2;
    }

    if rel.z == -1 || rel.z == total_size.z.wrapping_add(1) {
        outside_flags = 1;
    } else if outside_flags == 0 {
        assert(!clip_x && !clip_z);
        return push_out_of_rect(pos, size, motion, directional_size);
    }
    assert((outside_flags & 2 != 0) == clip_x);
    assert((outside_flags & 1 != 0) == clip_z);
    assert(clip_x || clip_z);

    let mut clipped = motion.to;
    if outside_flags & 2 != 0 {
        clipped.x = clip_axis_value(pos.x, size.x, motion.size.x, motion.from.x, motion.to.x);
    }

    if outside_flags & 1 != 0 {
        clipped.z = clip_axis_value(pos.z, size.z, motion.size.z, motion.from.z, motion.to.z);
    }

    clipped
}

/// The game's rectangle containment test: a point is inside when clipping it against the
/// rectangle moves it.
pub open spec fn rect_contains(pos: WorldVec, size: WorldVec, point: WorldVec) -> bool {
    rect_clip(pos, size, Motion { from: point, to: point, size: vzero() }, 0) != point
}

/// Whether the rectangle at `pos` of extent `size` contains `point`. A point has no extent, so
/// its size towards the rectangle is zero.
pub fn rect_contains_point(pos: WorldVec, size: WorldVec, point: WorldVec) -> (r: bool)
    ensures
        r == rect_contains(pos, size, point),
{
    let clipped = rect_clip_motion(pos, size, &Motion::point(point), 0);
    !(clipped.x == point.x && clipped.z == point.z)
}

/// A rectangle of non-negative extent contains exactly the points whose (wrapped) offset from
/// its corner is at least zero and less than its extent on both axes.
pub proof fn lemma_rect_contains_box(pos: WorldVec, size: WorldVec, point: WorldVec)
    requires
        size.x >= 0,
        size.z >= 0,
    ensures
        rect_contains(pos, size, point) == (0 <= point.x.wrapping_sub(pos.x) < size.x && 0
            <= point.z.wrapping_sub(pos.z) < size.z),
{
    let m = Motion { from: point, to: point, size: vzero() };
    let rx = point.x.wrapping_sub(pos.x);
    let rz = point.z.wrapping_sub(pos.z);
    lemma_wrapping_add(point.x, 0);
    lemma_wrapping_add(point.z, 0);
    lemma_wrapping_add(size.x, 0);
    lemma_wrapping_add(size.z, 0);
    assert(m.destination_in_rect(pos, size) == (0 <= rx < size.x && 0 <= rz < size.z));
    if 0 <= rx < size.x && 0 <= rz < size.z {
        lemma_wrapping_sub(0, pos.x);
        lemma_wrapping_sub(0, pos.z);
        lemma_wrapping_sub(point.x, pos.x);
        lemma_wrapping_sub(point.z, pos.z);
        lemma_wrapping_add(0i32.wrapping_sub(pos.x), point.x);
        lemma_wrapping_add(0i32.wrapping_sub(pos.z), point.z);
        let rel = vadd(vsub(vzero(), pos), point);
        assert(rel.x == rx && rel.z == rz);
        lemma_wrapping_add(size.x, 1);
        lemma_wrapping_add(size.z, 1);
        assert(vadd(size, vadd(vzero(), vzero())) == size);
        // pushed out along one axis by a non-zero offset
        lemma_push_offset_nonzero(pos.x, size.x, point.x, rx);
        lemma_push_offset_nonzero(pos.z, size.z, point.z, rz);
        let max_x = size.x.wrapping_sub(point.x).wrapping_add(pos.x.wrapping_add(1)).wrapping_add(0);
        let min_x = pos.x.wrapping_sub(point.x).wrapping_sub(0).wrapping_sub(1);
        let max_z = size.z.wrapping_sub(point.z).wrapping_add(pos.z.wrapping_add(1)).wrapping_add(0);
        let min_z = pos.z.wrapping_sub(point.z).wrapping_sub(0).wrapping_sub(1);
        let ex = nearer_edge(max_x, min_x);
        let ez = nearer_edge(max_z, min_z);
        lemma_wrapping_add(point.x, ex);
        lemma_wrapping_add(point.z, ez);
    }
}

/// On one axis, for a point inside the rectangle, the offset to the nearer edge is not zero.
proof fn lemma_push_offset_nonzero(pos: i32, size: i32, p: i32, rel: i32)
    requires
        size >= 0,
        rel == p.wrapping_sub(pos),
        0 <= rel < size,
    ensures
        nearer_edge(
            size.wrapping_sub(p).wrapping_add(pos.wrapping_add(1)).wrapping_add(0),
            pos.wrapping_sub(p).wrapping_sub(0).wrapping_sub(1),
        ) != 0,
{
    lemma_wrapping_sub(p, pos);
    lemma_wrapping_sub(size, p);
    lemma_wrapping_add(pos, 1);
    let a = size.wrapping_sub(p);
    let b = pos.wrapping_add(1);
    lemma_wrapping_add(a, b);
    let c = a.wrapping_add(b);
    lemma_wrapping_add(c, 0);
    lemma_wrapping_sub(pos, p);
    let d = pos.wrapping_sub(p);
    lemma_wrapping_sub(d, 0);
    lemma_wrapping_sub(d.wrapping_sub(0), 1);
    let min_outside = d.wrapping_sub(0).wrapping_sub(1);
    assert(min_outside == -rel - 1);
    lemma_wrapping_sub(0, min_outside);
}

// ---------------------------------------------------------------------------------------------
// Shapes

/// Whether a rectangular collider has rounded ends, and along which axis.
#[derive(Debug, Clone, Copy, PartialEq, Eq, Structural)]
pub enum CapsuleType {
    NoCapsule,
    Horizontal,
    Vertical,
}

/// Rectangular colliders with 3D properties that are drawn as plain rectangles.
#[derive(Debug, Clone, Copy, PartialEq, Eq, Structural)]
pub enum SpecialRectType {
    Plain,
    Ramp,
    HalfPipe,
    Floor,
}

/// Which corner of its bounding box a triangular collider's right angle is in.
#[derive(Debug, Clone, Copy, PartialEq, Eq, Structural)]
pub enum TriangleType {
    BottomLeft,
    BottomRight,
    TopLeft,
    TopRight,
}

/// The outcome of a containment test: decided, or decided by whether `offset` is shorter than
/// `radius`. The game measures that length with its square-root routine, which the caller
/// supplies to `resolve`.
#[derive(Debug, Clone, Copy, PartialEq, Eq, Structural)]
pub enum PointTest {
    Decided(bool),
    WithinRadius { offset: WorldVec, radius: i32 },
}

impl PointTest {
    pub open spec fn resolve_spec(self, offset_length: i32) -> bool {
        match self {
            PointTest::Decided(inside) => inside,
            PointTest::WithinRadius { radius, .. } => offset_length < radius,
        }
    }

    /// The answer, given the length of the offset when there is one to measure.
    pub fn resolve(&self, offset_length: i32) -> (r: bool)
        ensures
            r == self.resolve_spec(offset_length),
    {
        match self {
            PointTest::Decided(inside) => *inside,
            PointTest::WithinRadius { radius, .. } => offset_length < *radius,
        }
    }
}

/// The offset that the game measures for a circle of `radius` whose bounding box starts at
/// `pos`: from the circle's centre to the point.
pub open spec fn circle_offset(pos: WorldVec, radius: i32, point: WorldVec) -> WorldVec {
    vsub(vsub(point, pos), WorldVec { x: radius, z: radius })
}

/// The test of whether the circle of `radius` whose bounding box starts at `pos` contains `point`.
pub open spec fn circle_test(pos: WorldVec, radius: i32, point: WorldVec) -> PointTest {
    PointTest::WithinRadius { offset: circle_offset(pos, radius, point), radius }
}

fn circle_contains_point(pos: WorldVec, radius: i32, point: WorldVec) -> (r: PointTest)
    ensures
        r == circle_test(pos, radius, point),
{
    let rel_point = sub_vec(sub_vec(point, pos), WorldVec { x: radius, z: radius });
    PointTest::WithinRadius { offset: rel_point, radius }
}

/// Which part of a capsule a point falls in along its long axis, read from the sign bits of its
/// offsets `a` from the far cap's centre and `b` from the near cap's centre, as the game does:
/// 3 for the near cap, 0 for the far cap, 2 for the middle.
proof fn lemma_capsule_side(a: i32, b: i32)
    ensures
        ((((a as u32) & 0xbfff_ffffu32) | ((b >> 1u32) as u32)) >> 30u32) == (if b < 0 {
            3u32
        } else if a < 0 {
            2u32
        } else {
            0u32
        }),
{
    assert(((((a as u32) & 0xbfff_ffffu32) | ((b >> 1u32) as u32)) >> 30u32) == (if b < 0 {
        3u32
    } else if a < 0 {
        2u32
    } else {
        0u32
    })) by (bit_vector);
}

/// A rectangle, possibly with rounded ends.
#[derive(Debug, Clone, Copy)]
pub struct RectCollider {
    pub pos: WorldVec,
    pub size: WorldVec,
    pub capsule_type: CapsuleType,
    pub special_rect_type: SpecialRectType,
    pub floor: Floor,
    pub collision_mask: u16,
}

impl RectCollider {
    pub fn new(x: i32, z: i32, width: i32, height: i32, floor: Floor, capsule_type: CapsuleType) -> (r: Self)
        ensures
            r.pos == (WorldVec { x, z }),
            r.size == (WorldVec { x: width, z: height }),
            r.floor == floor,
            r.capsule_type == capsule_type,
            r.special_rect_type == SpecialRectType::Plain,
            r.collision_mask == 0xFFFF,
    {
        Self {
            pos: WorldVec { x, z },
            size: WorldVec { x: width, z: height },
            floor,
            capsule_type,
            special_rect_type: SpecialRectType::Plain,
            collision_mask: 0xFFFF,
        }
    }

    pub fn collision_mask(&self) -> (r: u16)
        ensures
            r == self.collision_mask,
    {
        self.collision_mask
    }

    pub fn with_collision_mask(self, collision_mask: u16) -> (r: Self)
        ensures
            r == (Self { collision_mask, ..self }),
    {
        let mut r = self;
        r.collision_mask = collision_mask;
        r
    }

    pub fn with_special_rect_type(self, special_rect_type: SpecialRectType) -> (r: Self)
        ensures
            r == (Self { special_rect_type, ..self }),
    {
        let mut r = self;
        r.special_rect_type = special_rect_type;
        r
    }

    pub fn set_floor(&mut self, floor: Floor)
        ensures
            *final(self) == (Self { floor, ..*old(self) }),
    {
        self.floor = floor;
    }

    pub fn set_pos(&mut self, pos: WorldVec)
        ensures
            *final(self) == (Self { pos, ..*old(self) }),
    {
        self.pos = pos;
    }

    pub fn set_size(&mut self, size: WorldVec)
        ensures
            *final(self) == (Self { size, ..*old(self) }),
    {
        self.size = size;
    }

    /// The containment test. A capsule tests a point beyond the centre of one of its end caps
    /// against that cap's circle; every other point is tested against the rectangle.
    pub open spec fn point_test(self, point: WorldVec) -> PointTest {
        match self.capsule_type {
            CapsuleType::Horizontal => {
                let r = half(self.size.z);
                let a = point.x.wrapping_sub(self.pos.x.wrapping_sub(r).wrapping_add(self.size.x));
                let b = point.x.wrapping_sub(self.pos.x.wrapping_add(r));
                if b < 0 {
                    circle_test(self.pos, r, point)
                } else if a >= 0 {
                    circle_test(
                        WorldVec { x: self.pos.x.wrapping_sub(self.size.z).wrapping_add(self.size.x), z: self.pos.z },
                        r,
                        point,
                    )
                } else {
                    PointTest::Decided(rect_contains(self.pos, self.size, point))
                }
            },
            CapsuleType::Vertical => {
                let r = half(self.size.x);
                let a = point.z.wrapping_sub(self.pos.z.wrapping_sub(r).wrapping_add(self.size.z));
                let b = point.z.wrapping_sub(self.pos.z.wrapping_add(r));
                if b < 0 {
                    circle_test(self.pos, r, point)
                } else if a >= 0 {
                    circle_test(
                        WorldVec { x: self.pos.x, z: self.pos.z.wrapping_add(self.size.z.wrapping_sub(self.size.x)) },
                        r,
                        point,
                    )
                } else {
                    PointTest::Decided(rect_contains(self.pos, self.size, point))
                }
            },
            CapsuleType::NoCapsule => PointTest::Decided(rect_contains(self.pos, self.size, point)),
        }
    }

    pub fn contains_point(&self, point: WorldVec) -> (r: PointTest)
        ensures
            r == self.point_test(point),
    {
        match self.capsule_type {
            CapsuleType::Horizontal => {
                let z_radius = halve(self.size.z);
                let a = point.x.wrapping_sub(self.pos.x.wrapping_sub(z_radius).wrapping_add(self.size.x));
                let b = point.x.wrapping_sub(self.pos.x.wrapping_add(z_radius));
                let side = (((a as u32) & 0xbfff_ffffu32) | ((b >> 1u32) as u32)) >> 30u32;
                proof {
                    lemma_capsule_side(a, b);
                }
                if side == 0 {
                    let pos = WorldVec {
                        x: self.pos.x.wrapping_sub(self.size.z).wrapping_add(self.size.x),
                        z: self.pos.z,
                    };
                    return circle_contains_point(pos, z_radius, point);
                } else if side == 3 {
                    return circle_contains_point(self.pos, z_radius, point);
                }
            },
            CapsuleType::Vertical => {
                let x_radius = halve(self.size.x);
                let a = point.z.wrapping_sub(self.pos.z.wrapping_sub(x_radius).wrapping_add(self.size.z));
                let b = point.z.wrapping_sub(self.pos.z.wrapping_add(x_radius));
                let side = (((a as u32) & 0xbfff_ffffu32) | ((b >> 1u32) as u32)) >> 30u32;
                proof {
                    lemma_capsule_side(a, b);
                }
                if side == 0 {
                    let pos = WorldVec {
                        x: self.pos.x,
                        z: self.pos.z.wrapping_add(self.size.z.wrapping_sub(self.size.x)),
                    };
                    return circle_contains_point(pos, x_radius, point);
                } else if side == 3 {
                    return circle_contains_point(self.pos, x_radius, point);
                }
            },
            CapsuleType::NoCapsule => {},
        }

        PointTest::Decided(rect_contains_point(self.pos, self.size, point))
    }

    /// Where `motion` ends up against this collider. Only plain rectangles stop a body; the
    /// game's handling of the other kinds is not modelled, and they let it through.
    pub open spec fn clip_spec(self, motion: Motion, directional_size: i32) -> WorldVec {
        if self.capsule_type != CapsuleType::NoCapsule || self.special_rect_type != SpecialRectType::Plain {
            motion.to
        } else {
            rect_clip(self.pos, self.size, motion, directional_size)
        }
    }

    pub fn clip_motion(&self, motion: &Motion, directional_size: i32) -> (r: WorldVec)
        ensures
            r == self.clip_spec(*motion, directional_size),
    {
        if self.capsule_type != CapsuleType::NoCapsule || self.special_rect_type != SpecialRectType::Plain {
            return motion.to;
        }
        rect_clip_motion(self.pos, self.size, motion, directional_size)
    }
}

/// The game's diamond quadrant: bit 1 for a point above the centre (negative z offset), bit 0 for
/// one left of it (negative x offset).
proof fn lemma_diamond_quadrant(dx: i32, dz: i32)
    ensures
        (((dz >> 30u32) & 2i32) | ((dx >> 31u32) & 1i32)) == (if dz < 0 { 2i32 } else { 0i32 }) + (
        if dx < 0 {
            1i32
        } else {
            0i32
        }),
{
    assert((((dz >> 30u32) & 2i32) | ((dx >> 31u32) & 1i32)) == (if dz < 0 { 2i32 } else { 0i32 }) + (
    if dx < 0 {
        1i32
    } else {
        0i32
    })) by (bit_vector);
}

/// A diamond: the rhombus whose corners are the midpoints of the sides of its bounding box.
#[derive(Debug, Clone, Copy)]
pub struct DiamondCollider {
    pub pos: WorldVec,
    pub size: WorldVec,
    pub floor: Floor,
    pub collision_mask: u16,
}

/// The four values of the game's test against one edge of a diamond: the edge's run and the
/// point's run from the edge's start, the edge's rise, and the point's rise from the edge's
/// reference corner.
pub struct EdgeTerms {
    pub run: i32,
    pub point_run: i32,
    pub rise: i32,
    pub point_rise: i32,
}

impl DiamondCollider {
    pub fn new(x: i32, z: i32, width: i32, height: i32, floor: Floor) -> (r: Self)
        ensures
            r.pos == (WorldVec { x, z }),
            r.size == (WorldVec { x: width, z: height }),
            r.floor == floor,
            r.collision_mask == 0xFFFF,
    {
        Self { pos: WorldVec { x, z }, size: WorldVec { x: width, z: height }, floor, collision_mask: 0xFFFF }
    }

    pub fn with_collision_mask(self, collision_mask: u16) -> (r: Self)
        ensures
            r == (Self { collision_mask, ..self }),
    {
        let mut r = self;
        r.collision_mask = collision_mask;
        r
    }

    pub fn collision_mask(&self) -> (r: u16)
        ensures
            r == self.collision_mask,
    {
        self.collision_mask
    }

    pub open spec fn center(self) -> WorldVec {
        WorldVec { x: half(self.size.x).wrapping_add(self.pos.x), z: half(self.size.z).wrapping_add(self.pos.z) }
    }

    /// The terms of the edge that faces the point's quadrant around the centre.
    pub open spec fn edge_terms(self, point: WorldVec) -> EdgeTerms {
        let c = self.center();
        let far_x = self.pos.x.wrapping_add(self.size.x);
        let far_z = self.pos.z.wrapping_add(self.size.z);
        let right = point.x.wrapping_sub(c.x) >= 0;
        let below = point.z.wrapping_sub(c.z) >= 0;
        let (run, point_run) = if right {
            (far_x.wrapping_sub(c.x), point.x.wrapping_sub(c.x))
        } else {
            (c.x.wrapping_sub(self.pos.x), point.x.wrapping_sub(self.pos.x))
        };
        let (rise, point_rise) = if below {
            if right {
                (c.z.wrapping_sub(far_z), point.z.wrapping_sub(far_z))
            } else {
                (far_z.wrapping_sub(c.z), point.z.wrapping_sub(c.z))
            }
        } else {
            if right {
                (c.z.wrapping_sub(self.pos.z), point.z.wrapping_sub(self.pos.z))
            } else {
                (self.pos.z.wrapping_sub(c.z), point.z.wrapping_sub(c.z))
            }
        };
        EdgeTerms { run, point_run, rise, point_rise }
    }

    /// Whether the game's test can be computed for the point: the edge's run is not zero, and the
    /// division of the scaled rise by it stays in range.
    pub open spec fn can_test(self, point: WorldVec) -> bool {
        let t = self.edge_terms(point);
        div_defined(t.point_run.wrapping_mul(t.rise), t.run)
    }

    /// The game's test: the point is on the inner side of the edge facing its quadrant, with the
    /// edge's height at the point's run computed by a division rounded towards zero.
    pub open spec fn contains_spec(self, point: WorldVec) -> bool {
        let t = self.edge_terms(point);
        let edge = trunc_div(t.point_run.wrapping_mul(t.rise) as int, t.run as int);
        if point.z.wrapping_sub(self.center().z) >= 0 {
            edge > t.point_rise
        } else {
            t.point_rise > edge
        }
    }

    pub fn contains_point(&self, point: WorldVec) -> (r: bool)
        requires
            self.can_test(point),
        ensures
            r == self.contains_spec(point),
    {
        let center_x = halve(self.size.x).wrapping_add(self.pos.x);
        let center_z = halve(self.size.z).wrapping_add(self.pos.z);
        let dx = point.x.wrapping_sub(center_x);
        let dz = point.z.wrapping_sub(center_z);

        let quadrant = ((dz >> 30u32) & 2i32) | ((dx >> 31u32) & 1i32);
        proof {
            lemma_diamond_quadrant(dx, dz);
        }
        if quadrant == 0 {
            self.is_point_in_quadrant0(point)
        } else if quadrant == 1 {
            self.is_point_in_quadrant1(point)
        } else if quadrant == 2 {
            self.is_point_in_quadrant2(point)
        } else {
            self.is_point_in_quadrant3(point)
        }
    }

    fn is_point_in_quadrant0(&self, point: WorldVec) -> (r: bool)
        requires
            point.x.wrapping_sub(self.center().x) >= 0,
            point.z.wrapping_sub(self.center().z) >= 0,
            self.can_test(point),
        ensures
            r == self.contains_spec(point),
    {
        let center_x = halve(self.size.x).wrapping_add(self.pos.x);
        let center_z = halve(self.size.z).wrapping_add(self.pos.z);

        let far_x = self.pos.x.wrapping_add(self.size.x);
        let far_z = self.pos.z.wrapping_add(self.size.z);

        let x_diff1 = far_x.wrapping_sub(center_x);
        let x_diff2 = point.x.wrapping_sub(center_x);

        let z_diff1 = center_z.wrapping_sub(far_z);
        let z_diff2 = point.z.wrapping_sub(far_z);

        let term1 = div(x_diff2.wrapping_mul(z_diff1), x_diff1);

        term1 > z_diff2
    }

    fn is_point_in_quadrant1(&self, point: WorldVec) -> (r: bool)
        requires
            point.x.wrapping_sub(self.center().x) < 0,
            point.z.wrapping_sub(self.center().z) >= 0,
            self.can_test(point),
        ensures
            r == self.contains_spec(point),
    {
        let x = self.pos.x;

        let center_x = halve(self.size.x).wrapping_add(self.pos.x);
        let center_z = halve(self.size.z).wrapping_add(self.pos.z);

        let far_z = self.pos.z.wrapping_add(self.size.z);

        let x_diff1 = center_x.wrapping_sub(x);
        let x_diff2 = point.x.wrapping_sub(x);

        let z_diff1 = far_z.wrapping_sub(center_z);
        let z_diff2 = point.z.wrapping_sub(center_z);

        let term1 = div(x_diff2.wrapping_mul(z_diff1), x_diff1);

        term1 > z_diff2
    }

    fn is_point_in_quadrant2(&self, point: WorldVec) -> (r: bool)
        requires
            point.x.wrapping_sub(self.center().x) >= 0,
            point.z.wrapping_sub(self.center().z) < 0,
            self.can_test(point),
        ensures
            r == self.contains_spec(point),
    {
        let z = self.pos.z;

        let center_x = halve(self.size.x).wrapping_add(self.pos.x);
        let center_z = halve(self.size.z).wrapping_add(self.pos.z);

        let far_x = self.pos.x.wrapping_add(self.size.x);

        let x_diff1 = far_x.wrapping_sub(center_x);
        let x_diff2 = point.x.wrapping_sub(center_x);

        let z_diff1 = center_z.wrapping_sub(z);
        let z_diff2 = point.z.wrapping_sub(z);

        let term1 = div(x_diff2.wrapping_mul(z_diff1), x_diff1);

        z_diff2 > term1
    }

    fn is_point_in_quadrant3(&self, point: WorldVec) -> (r: bool)
        requires
            point.x.wrapping_sub(self.center().x) < 0,
            point.z.wrapping_sub(self.center().z) < 0,
            self.can_test(point),
        ensures
            r == self.contains_spec(point),
    {
        let x = self.pos.x;
        let z = self.pos.z;

        let center_x = halve(self.size.x).wrapping_add(self.pos.x);
        let center_z = halve(self.size.z).wrapping_add(self.pos.z);

        let x_diff1 = center_x.wrapping_sub(x);
        let x_diff2 = point.x.wrapping_sub(x);

        let z_diff1 = z.wrapping_sub(center_z);
        let z_diff2 = point.z.wrapping_sub(center_z);

        let term1 = div(x_diff2.wrapping_mul(z_diff1), x_diff1);

        z_diff2 > term1
    }
}

/// A circle, given by its bounding box; the game tests it as a circle of the box's half-width.
#[derive(Debug, Clone, Copy)]
pub struct EllipseCollider {
    pub pos: WorldVec,
    pub size: WorldVec,
    pub floor: Floor,
    pub collision_mask: u16,
}

impl EllipseCollider {
    pub fn new(x: i32, z: i32, width: i32, height: i32, floor: Floor) -> (r: Self)
        ensures
            r.pos == (WorldVec { x, z }),
            r.size == (WorldVec { x: width, z: height }),
            r.floor == floor,
            r.collision_mask == 0xFFFF,
    {
        Self { pos: WorldVec { x, z }, size: WorldVec { x: width, z: height }, floor, collision_mask: 0xFFFF }
    }

    pub fn collision_mask(&self) -> (r: u16)
        ensures
            r == self.collision_mask,
    {
        self.collision_mask
    }

    pub fn with_collision_mask(self, collision_mask: u16) -> (r: Self)
        ensures
            r == (Self { collision_mask, ..self }),
    {
        let mut r = self;
        r.collision_mask = collision_mask;
        r
    }

    pub fn set_floor(&mut self, floor: Floor)
        ensures
            *final(self) == (Self { floor, ..*old(self) }),
    {
        self.floor = floor;
    }

    pub fn pos(&self) -> (r: WorldVec)
        ensures
            r == self.pos,
    {
        self.pos
    }

    pub fn set_pos(&mut self, pos: WorldVec)
        ensures
            *final(self) == (Self { pos, ..*old(self) }),
    {
        self.pos = pos;
    }

    pub fn set_size(&mut self, size: WorldVec)
        ensures
            *final(self) == (Self { size, ..*old(self) }),
    {
        self.size = size;
    }

    pub fn size(&self) -> (r: WorldVec)
        ensures
            r == self.size,
    {
        self.size
    }

    pub fn contains_point(&self, point: WorldVec) -> (r: PointTest)
        ensures
            r == circle_test(self.pos, half(self.size.x), point),
    {
        circle_contains_point(self.pos, halve(self.size.x), point)
    }
}

/// Division by 18 rounded towards zero: the game compares cross products at this coarser scale.
pub open spec fn d18(x: i32) -> i32 {
    trunc_div(x as int, 18) as i32
}

fn div18(x: i32) -> (r: i32)
    ensures
        r == d18(x),
{
    div(x, 0x12)
}

/// A right triangle filling half of its bounding box.
#[derive(Debug, Clone, Copy)]
pub struct TriangleCollider {
    pub pos: WorldVec,
    pub size: WorldVec,
    pub floor: Floor,
    pub type_: TriangleType,
    pub collision_mask: u16,
}

impl TriangleCollider {
    pub fn new(x: i32, z: i32, width: i32, height: i32, floor: Floor, type_: TriangleType) -> (r: Self)
        ensures
            r.pos == (WorldVec { x, z }),
            r.size == (WorldVec { x: width, z: height }),
            r.floor == floor,
            r.type_ == type_,
            r.collision_mask == 0xFFFF,
    {
        Self { pos: WorldVec { x, z }, size: WorldVec { x: width, z: height }, floor, type_, collision_mask: 0xFFFF }
    }

    pub fn collision_mask(&self) -> (r: u16)
        ensures
            r == self.collision_mask,
    {
        self.collision_mask
    }

    pub fn with_collision_mask(self, collision_mask: u16) -> (r: Self)
        ensures
            r == (Self { collision_mask, ..self }),
    {
        let mut r = self;
        r.collision_mask = collision_mask;
        r
    }

    pub open spec fn far(self) -> WorldVec {
        vadd(self.pos, self.size)
    }

    /// The numerator and divisor of the game's first, coarse test of which side of the
    /// hypotenuse the point is on.
    pub open spec fn slope_terms(self, point: WorldVec) -> (i32, i32) {
        let x_dist = point.x.wrapping_sub(self.pos.x);
        match self.type_ {
            TriangleType::TopRight => (self.size.z.wrapping_mul(x_dist), self.size.x),
            TriangleType::BottomLeft => (
                self.pos.z.wrapping_sub(self.far().z).wrapping_mul(x_dist),
                self.far().x.wrapping_sub(self.pos.x),
            ),
            _ => (
                self.far().z.wrapping_sub(self.pos.z).wrapping_mul(x_dist),
                self.far().x.wrapping_sub(self.pos.x),
            ),
        }
    }

    /// Whether the game's test can be computed: the division by the box's width is defined.
    pub open spec fn can_test(self, point: WorldVec) -> bool {
        div_defined(self.slope_terms(point).0, self.slope_terms(point).1)
    }

    /// The game's test, in three steps: the point must be on the triangle's side of the
    /// hypotenuse by the exact slope, then by the cross product at 1/18 scale, and then inside
    /// the bounding box by the rectangle test.
    pub open spec fn contains_spec(self, point: WorldVec) -> bool {
        let x1 = self.pos.x;
        let z1 = self.pos.z;
        let x2 = self.far().x;
        let z2 = self.far().z;
        let px = point.x;
        let pz = point.z;
        let x_dist = px.wrapping_sub(x1);
        let z_dist = pz.wrapping_sub(z1);
        let scaled = trunc_div(self.slope_terms(point).0 as int, self.slope_terms(point).1 as int);
        let in_box = rect_contains(self.pos, self.size, point);
        match self.type_ {
            TriangleType::TopLeft => {
                let cross = d18(px).wrapping_mul(d18(z2).wrapping_sub(d18(z1))).wrapping_sub(
                    d18(pz).wrapping_mul(d18(x2).wrapping_sub(d18(x1))),
                ).wrapping_sub(d18(z2).wrapping_mul(d18(x1))).wrapping_add(d18(x2).wrapping_mul(d18(z1)));
                z_dist > scaled && cross < 0 && x_dist < self.size.x && z_dist < self.size.z && in_box
            },
            TriangleType::TopRight => {
                let cross = d18(px).wrapping_mul(d18(z1).wrapping_sub(d18(z2))).wrapping_sub(
                    d18(pz).wrapping_mul(d18(x2).wrapping_sub(d18(x1))),
                ).wrapping_sub(d18(z1).wrapping_mul(d18(x1))).wrapping_add(d18(x2).wrapping_mul(d18(z2)));
                scaled > wneg(z_dist.wrapping_sub(self.size.z)) && cross < 0 && x_dist < self.size.x
                    && z_dist < self.size.z && in_box
            },
            TriangleType::BottomRight => {
                let cross = d18(px).wrapping_mul(d18(z2).wrapping_sub(d18(z1))).wrapping_sub(
                    d18(pz).wrapping_mul(d18(x2).wrapping_sub(d18(x1))),
                ).wrapping_sub(d18(z2).wrapping_mul(d18(x1))).wrapping_add(d18(x2).wrapping_mul(d18(z1)));
                scaled > z_dist && cross >= 1 && x_dist < self.size.x && z_dist < self.size.z && in_box
            },
            TriangleType::BottomLeft => {
                let cross = d18(px).wrapping_mul(d18(z1).wrapping_sub(d18(z2))).wrapping_sub(
                    d18(pz).wrapping_mul(d18(x2).wrapping_sub(d18(x1))),
                ).wrapping_sub(d18(z1).wrapping_mul(d18(x1))).wrapping_add(d18(x2).wrapping_mul(d18(z2)));
                scaled > pz.wrapping_sub(z2) && cross >= 1 && x_dist < self.size.x && z_dist < self.size.z
                    && in_box
            },
        }
    }

    fn contains_point_top_left(&self, point: WorldVec) -> (r: bool)
        requires
            self.type_ == TriangleType::TopLeft,
            self.can_test(point),
        ensures
            r == self.contains_spec(point),
    {
        let x1 = self.pos.x;
        let z1 = self.pos.z;

        let x2 = self.pos.x.wrapping_add(self.size.x);
        let z2 = self.pos.z.wrapping_add(self.size.z);

        let px = point.x;
        let pz = point.z;

        let width = x2.wrapping_sub(x1);
        let height = z2.wrapping_sub(z1);

        let x_dist = px.wrapping_sub(x1);
        let z_dist = pz.wrapping_sub(z1);

        let scaled_dist = div(height.wrapping_mul(x_dist), width);
        if z_dist <= scaled_dist {
            return false;
        }

        let x1_div = div18(x1);
        let z1_div = div18(z1);
        let z2_div = div18(z2);
        let x2_div = div18(x2);
        let height_div = z2_div.wrapping_sub(z1_div);
        let width_div = x2_div.wrapping_sub(x1_div);

        if div18(px).wrapping_mul(height_div).wrapping_sub(div18(pz).wrapping_mul(width_div)).wrapping_sub(
            z2_div.wrapping_mul(x1_div),
        ).wrapping_add(x2_div.wrapping_mul(z1_div)) < 0 {
            if x_dist < self.size.x && z_dist < self.size.z {
                return rect_contains_point(self.pos, self.size, point);
            }
        }

        false
    }

    fn contains_point_top_right(&self, point: WorldVec) -> (r: bool)
        requires
            self.type_ == TriangleType::TopRight,
            self.can_test(point),
        ensures
            r == self.contains_spec(point),
    {
        let x1 = self.pos.x;
        let z1 = self.pos.z;

        let x2 = self.pos.x.wrapping_add(self.size.x);
        let z2 = self.pos.z.wrapping_add(self.size.z);

        let px = point.x;
        let pz = point.z;

        let width = self.size.x;
        let height = self.size.z;

        let x_dist = px.wrapping_sub(x1);
        let z_dist = pz.wrapping_sub(z1).wrapping_sub(height);

        let scaled_dist = div(height.wrapping_mul(x_dist), width);
        if scaled_dist <= neg(z_dist) {
            return false;
        }

        let x1_div = div18(x1);
        let z1_div = div18(z1);
        let z2_div = div18(z2);
        let x2_div = div18(x2);

        let z1_minus_z2_div = z1_div.wrapping_sub(z2_div);
        let x2_minus_x1_div = x2_div.wrapping_sub(x1_div);

        if div18(px).wrapping_mul(z1_minus_z2_div).wrapping_sub(div18(pz).wrapping_mul(x2_minus_x1_div))
            .wrapping_sub(z1_div.wrapping_mul(x1_div)).wrapping_add(x2_div.wrapping_mul(z2_div)) < 0 {
            if x_dist < self.size.x && pz.wrapping_sub(z1) < self.size.z {
                return rect_contains_point(self.pos, self.size, point);
            }
        }

        false
    }

    fn contains_point_bottom_right(&self, point: WorldVec) -> (r: bool)
        requires
            self.type_ == TriangleType::BottomRight,
            self.can_test(point),
        ensures
            r == self.contains_spec(point),
    {
        let x1 = self.pos.x;
        let z1 = self.pos.z;

        let x2 = self.pos.x.wrapping_add(self.size.x);
        let z2 = self.pos.z.wrapping_add(self.size.z);

        let px = point.x;
        let pz = point.z;

        let width = x2.wrapping_sub(x1);
        let height = z2.wrapping_sub(z1);

        let x_dist = px.wrapping_sub(x1);
        let z_dist = pz.wrapping_sub(z1);

        let scaled_dist = div(height.wrapping_mul(x_dist), width);
        if scaled_dist <= z_dist {
            return false;
        }

        let x1_div = div18(x1);
        let z1_div = div18(z1);
        let z2_div = div18(z2);
        let x2_div = div18(x2);
        let height_div = z2_div.wrapping_sub(z1_div);
        let width_div = x2_div.wrapping_sub(x1_div);

        if div18(px).wrapping_mul(height_div).wrapping_sub(div18(pz).wrapping_mul(width_div)).wrapping_sub(
            z2_div.wrapping_mul(x1_div),
        ).wrapping_add(x2_div.wrapping_mul(z1_div)) >= 1 {
            if x_dist < self.size.x && z_dist < self.size.z {
                return rect_contains_point(self.pos, self.size, point);
            }
        }

        false
    }

    fn contains_point_bottom_left(&self, point: WorldVec) -> (r: bool)
        requires
            self.type_ == TriangleType::BottomLeft,
            self.can_test(point),
        ensures
            r == self.contains_spec(point),
    {
        let x1 = self.pos.x;
        let z1 = self.pos.z;

        let x2 = self.pos.x.wrapping_add(self.size.x);
        let z2 = self.pos.z.wrapping_add(self.size.z);

        let px = point.x;
        let pz = point.z;

        let width = x2.wrapping_sub(x1);
        let height = z1.wrapping_sub(z2);

        let x_dist = px.wrapping_sub(x1);
        let z_dist = pz.wrapping_sub(z1);

        let scaled_dist = div(height.wrapping_mul(x_dist), width);
        if scaled_dist <= pz.wrapping_sub(z2) {
            return false;
        }

        let x1_div = div18(x1);
        let z2_div = div18(z2);
        let x2_div = div18(x2);
        let height_div = div18(z1).wrapping_sub(z2_div);
        let width_div = x2_div.wrapping_sub(x1_div);

        if div18(px).wrapping_mul(height_div).wrapping_sub(div18(pz).wrapping_mul(width_div)).wrapping_sub(
            div18(z1).wrapping_mul(x1_div),
        ).wrapping_add(x2_div.wrapping_mul(z2_div)) >= 1 {
            if x_dist < self.size.x && z_dist < self.size.z {
                return rect_contains_point(self.pos, self.size, point);
            }
        }

        false
    }

    pub fn contains_point(&self, point: WorldVec) -> (r: bool)
        requires
            self.can_test(point),
        ensures
            r == self.contains_spec(point),
    {
        match self.type_ {
            TriangleType::BottomLeft => self.contains_point_bottom_left(point),
            TriangleType::BottomRight => self.contains_point_bottom_right(point),
            TriangleType::TopLeft => self.contains_point_top_left(point),
            TriangleType::TopRight => self.contains_point_top_right(point),
        }
    }
}

/// A quadrilateral given by its four corners in order.
#[derive(Debug, Clone, Copy)]
pub struct QuadCollider {
    pub p1: WorldVec,
    pub p2: WorldVec,
    pub p3: WorldVec,
    pub p4: WorldVec,
    pub floor: Floor,
}

impl QuadCollider {
    pub fn new(x1: i32, z1: i32, x2: i32, z2: i32, x3: i32, z3: i32, x4: i32, z4: i32, floor: Floor) -> (r: Self)
        ensures
            r == (QuadCollider {
                p1: WorldVec { x: x1, z: z1 },
                p2: WorldVec { x: x2, z: z2 },
                p3: WorldVec { x: x3, z: z3 },
                p4: WorldVec { x: x4, z: z4 },
                floor,
            }),
    {
        Self {
            p1: WorldVec { x: x1, z: z1 },
            p2: WorldVec { x: x2, z: z2 },
            p3: WorldVec { x: x3, z: z3 },
            p4: WorldVec { x: x4, z: z4 },
            floor,
        }
    }

    /// The point is inside when, seen from the first corner, it lies between the edges to the
    /// second and fourth corners, and, seen from the third corner, between the edges to the
    /// fourth and second: four cross products compared with wrapping products.
    pub open spec fn contains_spec(self, point: WorldVec) -> bool {
        let a = vsub(point, self.p1);
        let e2 = vsub(self.p2, self.p1);
        let e4 = vsub(self.p4, self.p1);
        let b = vsub(point, self.p3);
        let f2 = vsub(self.p2, self.p3);
        let f4 = vsub(self.p4, self.p3);
        &&& e2.x.wrapping_mul(a.z) <= e2.z.wrapping_mul(a.x)
        &&& e4.z.wrapping_mul(a.x) <= e4.x.wrapping_mul(a.z)
        &&& f2.z.wrapping_mul(b.x) <= f2.x.wrapping_mul(b.z)
        &&& f4.x.wrapping_mul(b.z) <= f4.z.wrapping_mul(b.x)
    }

    pub fn contains_point(&self, point: WorldVec) -> (r: bool)
        ensures
            r == self.contains_spec(point),
    {
        let px_minus_x1 = point.x.wrapping_sub(self.p1.x);
        let pz_minus_z1 = point.z.wrapping_sub(self.p1.z);

        let x2_minus_x1 = self.p2.x.wrapping_sub(self.p1.x);
        let z2_minus_z1 = self.p2.z.wrapping_sub(self.p1.z);

        let x4_minus_x1 = self.p4.x.wrapping_sub(self.p1.x);
        let z4_minus_z1 = self.p4.z.wrapping_sub(self.p1.z);

        if x2_minus_x1.wrapping_mul(pz_minus_z1) <= z2_minus_z1.wrapping_mul(px_minus_x1)
            && z4_minus_z1.wrapping_mul(px_minus_x1) <= x4_minus_x1.wrapping_mul(pz_minus_z1) {
            let px_minus_x3 = point.x.wrapping_sub(self.p3.x);
            let pz_minus_z3 = point.z.wrapping_sub(self.p3.z);

            let x2_minus_x3 = self.p2.x.wrapping_sub(self.p3.x);
            let z2_minus_z3 = self.p2.z.wrapping_sub(self.p3.z);

            let x4_minus_x3 = self.p4.x.wrapping_sub(self.p3.x);
            let z4_minus_z3 = self.p4.z.wrapping_sub(self.p3.z);

            if z2_minus_z3.wrapping_mul(px_minus_x3) <= x2_minus_x3.wrapping_mul(pz_minus_z3)
                && x4_minus_x3.wrapping_mul(pz_minus_z3) <= z4_minus_z3.wrapping_mul(px_minus_x3) {
                return true;
            }
        }

        false
    }
}

/// A product of two values small enough not to wrap is the integer product.
proof fn lemma_small_wrapping_mul(a: i32, b: i32)
    requires
        -0x4000 <= a <= 0x4000,
        -0x10000 <= b <= 0x10000,
    ensures
        a.wrapping_mul(b) == a * b,
{
    assert(-0x4000_0000 <= a * b <= 0x4000_0000) by (nonlinear_arith)
        requires -0x4000 <= a <= 0x4000, -0x10000 <= b <= 0x10000;
    let v = a * b;
    if v < 0 {
        assert(v % 0x1_0000_0000 == v + 0x1_0000_0000);
    } else {
        assert(v % 0x1_0000_0000 == v);
    }
}

/// The sign of a product with a value of known sign.
proof fn lemma_product_sign(c: int, d: int)
    requires
        c != 0,
    ensures
        c > 0 ==> (0 <= c * d <==> 0 <= d),
        c < 0 ==> (0 <= c * d <==> d <= 0),
{
    assert(c > 0 ==> (0 <= c * d <==> 0 <= d)) by (nonlinear_arith)
        requires c != 0;
    assert(c < 0 ==> (0 <= c * d <==> d <= 0)) by (nonlinear_arith)
        requires c != 0;
}

/// A square quad with its sides along the axes, its corners given as the game gives them
/// (from `(x0, z0)` up to `(x0, z0 + s)`, across to `(x0 + s, z0 + s)` and down to `(x0 + s, z0)`),
/// holds exactly the points within its bounds, its edges included: a point inside lies on the
/// inner side of all four edges.
pub proof fn lemma_square_quad_contains(q: QuadCollider, point: WorldVec, x0: i32, z0: i32, s: i32)
    requires
        0 < s <= 0x4000,
        -0x4000 <= x0 <= 0x4000,
        -0x4000 <= z0 <= 0x4000,
        -0x4000 <= point.x <= 0x4000,
        -0x4000 <= point.z <= 0x4000,
        q.p1.x == x0 && q.p1.z == z0,
        q.p2.x == x0 && q.p2.z == z0 + s,
        q.p3.x == x0 + s && q.p3.z == z0 + s,
        q.p4.x == x0 + s && q.p4.z == z0,
    ensures
        q.contains_spec(point) <==> (x0 <= point.x <= x0 + s && z0 <= point.z <= z0 + s),
{
    let a = vsub(point, q.p1);
    let e2 = vsub(q.p2, q.p1);
    let e4 = vsub(q.p4, q.p1);
    let b = vsub(point, q.p3);
    let f2 = vsub(q.p2, q.p3);
    let f4 = vsub(q.p4, q.p3);
    lemma_wrapping_sub(point.x, q.p1.x);
    lemma_wrapping_sub(point.z, q.p1.z);
    lemma_wrapping_sub(q.p2.x, q.p1.x);
    lemma_wrapping_sub(q.p2.z, q.p1.z);
    lemma_wrapping_sub(q.p4.x, q.p1.x);
    lemma_wrapping_sub(q.p4.z, q.p1.z);
    lemma_wrapping_sub(point.x, q.p3.x);
    lemma_wrapping_sub(point.z, q.p3.z);
    lemma_wrapping_sub(q.p2.x, q.p3.x);
    lemma_wrapping_sub(q.p2.z, q.p3.z);
    lemma_wrapping_sub(q.p4.x, q.p3.x);
    lemma_wrapping_sub(q.p4.z, q.p3.z);
    assert(a.x == point.x - x0 && a.z == point.z - z0);
    assert(e2.x == 0 && e2.z == s && e4.x == s && e4.z == 0);
    assert(b.x == point.x - x0 - s && b.z == point.z - z0 - s);
    assert(f2.x == -s && f2.z == 0 && f4.x == 0 && f4.z == -s);
    lemma_small_wrapping_mul(e2.x, a.z);
    lemma_small_wrapping_mul(e2.z, a.x);
    lemma_small_wrapping_mul(e4.z, a.x);
    lemma_small_wrapping_mul(e4.x, a.z);
    lemma_small_wrapping_mul(f2.z, b.x);
    lemma_small_wrapping_mul(f2.x, b.z);
    lemma_small_wrapping_mul(f4.x, b.z);
    lemma_small_wrapping_mul(f4.z, b.x);
    lemma_product_sign(s as int, a.x as int);
    lemma_product_sign(s as int, a.z as int);
    lemma_product_sign(-s, b.z as int);
    lemma_product_sign(-s, b.x as int);
    assert(0 * (a.z as int) == 0 && 0 * (a.x as int) == 0 && 0 * (b.x as int) == 0 && 0 * (b.z as int) == 0);
}

/// One line of a collider's details: its kind, a named coordinate, its floor, or its collision
/// mask when that is not the default.
#[derive(Debug, Clone, Copy)]
pub enum DetailLine {
    Kind(&'static str),
    Value(&'static str, i32),
    Floor(Floor),
    Collision(u16),
}

/// A labelled group of detail lines.
#[derive(Debug, Clone)]
pub struct DetailGroup {
    pub label: &'static str,
    pub lines: Vec<DetailLine>,
}

impl DetailLine {
    /// The line as the tool shows it: the kind's name; a coordinate as its name, a colon and
    /// its value in decimal (the raw fixed-point value); "Floor: " and the floor; "Collision: "
    /// and the mask as four uppercase hexadecimal digits.
    pub open spec fn text_spec(self) -> Seq<char> {
        match self {
            DetailLine::Kind(k) => k@,
            DetailLine::Value(name, v) => name@ + ": "@ + signed_decimal(v as int),
            DetailLine::Floor(f) => "Floor: "@ + f.text_spec(),
            DetailLine::Collision(m) => "Collision: "@ + hex_fixed(m as nat, 4),
        }
    }

    pub fn to_text(&self) -> (s: String)
        ensures
            s@ == self.text_spec(),
    {
        let mut s = String::new();
        match self {
            DetailLine::Kind(k) => {
                s.append(k);
                proof { assert(s@ =~= self.text_spec()); }
            },
            DetailLine::Value(name, v) => {
                s.append(name);
                s.append(": ");
                push_signed_decimal(&mut s, *v);
                proof {
                    reveal_strlit(": ");
                    assert(s@ =~= self.text_spec());
                }
            },
            DetailLine::Floor(f) => {
                s.append("Floor: ");
                let t = f.to_text();
                s.append(t.as_str());
                proof { assert(s@ =~= self.text_spec()); }
            },
            DetailLine::Collision(m) => {
                s.append("Collision: ");
                push_hex(&mut s, *m as u32, 4);
                proof { assert(s@ =~= self.text_spec()); }
            },
        }
        s
    }
}

impl TriangleType {
    /// The triangle's corners in drawing order, each as whether it lies on the far side of the
    /// bounding box along x and along z.
    pub open spec fn corners_spec(self) -> [(bool, bool); 3] {
        match self {
            TriangleType::BottomLeft => [(false, true), (false, false), (true, true)],
            TriangleType::BottomRight => [(false, true), (true, true), (true, false)],
            TriangleType::TopLeft => [(false, true), (false, false), (true, false)],
            TriangleType::TopRight => [(true, true), (true, false), (false, false)],
        }
    }

    pub fn corners(&self) -> (r: [(bool, bool); 3])
        ensures
            r == self.corners_spec(),
    {
        match self {
            TriangleType::BottomLeft => [(false, true), (false, false), (true, true)],
            TriangleType::BottomRight => [(false, true), (true, true), (true, false)],
            TriangleType::TopLeft => [(false, true), (false, false), (true, false)],
            TriangleType::TopRight => [(true, true), (true, false), (false, false)],
        }
    }
}

/// Any collision shape of a room.
#[derive(Debug, Clone, Copy)]
pub enum Collider {
    Rect(RectCollider),
    Diamond(DiamondCollider),
    Ellipse(EllipseCollider),
    Triangle(TriangleCollider),
    Quad(QuadCollider),
}

/// The far coordinate of a corner: `pos`, or `pos + size` when the corner is on the far side.
pub open spec fn corner_coord(pos: i32, size: i32, far: bool) -> i32 {
    pos.wrapping_add(if far { size } else { 0 })
}

impl Collider {
    pub open spec fn type_label(self) -> &'static str {
        match self {
            Collider::Rect(rect) => match rect.capsule_type {
                CapsuleType::NoCapsule => match rect.special_rect_type {
                    SpecialRectType::Plain => "Rectangle",
                    SpecialRectType::Ramp => "Ramp",
                    SpecialRectType::HalfPipe => "Half pipe",
                    SpecialRectType::Floor => "Floor",
                },
                CapsuleType::Horizontal => "Capsule (horizontal)",
                CapsuleType::Vertical => "Capsule (vertical)",
            },
            Collider::Diamond(_) => "Diamond",
            Collider::Ellipse(_) => "Ellipse",
            Collider::Triangle(_) => "Triangle",
            Collider::Quad(_) => "Quadrilateral",
        }
    }

    /// The display name of the shape.
    pub fn kind_name(&self) -> (r: &'static str)
        ensures
            r == self.type_label(),
    {
        match self {
            Collider::Rect(rect) => match rect.capsule_type {
                CapsuleType::NoCapsule => match rect.special_rect_type {
                    SpecialRectType::Plain => "Rectangle",
                    SpecialRectType::Ramp => "Ramp",
                    SpecialRectType::HalfPipe => "Half pipe",
                    SpecialRectType::Floor => "Floor",
                },
                CapsuleType::Horizontal => "Capsule (horizontal)",
                CapsuleType::Vertical => "Capsule (vertical)",
            },
            Collider::Diamond(_) => "Diamond",
            Collider::Ellipse(_) => "Ellipse",
            Collider::Triangle(_) => "Triangle",
            Collider::Quad(_) => "Quadrilateral",
        }
    }

    pub fn name(&self) -> (r: String)
        ensures
            r@ == self.type_label()@,
    {
        self.kind_name().to_owned()
    }

    pub open spec fn object_type_spec(self) -> ObjectType {
        match self {
            Collider::Rect(rect) => if rect.special_rect_type == SpecialRectType::Floor {
                ObjectType::Floor
            } else {
                ObjectType::Collider
            },
            _ => ObjectType::Collider,
        }
    }

    /// Floors are rectangles of the floor kind; every other shape is a collider.
    pub fn object_type(&self) -> (r: ObjectType)
        ensures
            r == self.object_type_spec(),
    {
        if let Collider::Rect(rect) = self {
            if rect.special_rect_type == SpecialRectType::Floor {
                return ObjectType::Floor;
            }
        }
        ObjectType::Collider
    }

    pub open spec fn floor_spec(self) -> Floor {
        match self {
            Collider::Rect(c) => c.floor,
            Collider::Diamond(c) => c.floor,
            Collider::Ellipse(c) => c.floor,
            Collider::Triangle(c) => c.floor,
            Collider::Quad(c) => c.floor,
        }
    }

    pub fn floor(&self) -> (r: Floor)
        ensures
            r == self.floor_spec(),
    {
        match self {
            Collider::Rect(c) => c.floor,
            Collider::Diamond(c) => c.floor,
            Collider::Ellipse(c) => c.floor,
            Collider::Triangle(c) => c.floor,
            Collider::Quad(c) => c.floor,
        }
    }

    pub open spec fn collision_mask_spec(self) -> u16 {
        match self {
            Collider::Rect(c) => c.collision_mask,
            Collider::Diamond(c) => c.collision_mask,
            Collider::Ellipse(c) => c.collision_mask,
            Collider::Triangle(c) => c.collision_mask,
            Collider::Quad(_) => 0xFFFF,
        }
    }

    /// The shape's collision mask; quadrilaterals collide with everything.
    pub fn collision_mask(&self) -> (r: u16)
        ensures
            r == self.collision_mask_spec(),
    {
        match self {
            Collider::Rect(c) => c.collision_mask(),
            Collider::Diamond(c) => c.collision_mask(),
            Collider::Ellipse(c) => c.collision_mask(),
            Collider::Triangle(c) => c.collision_mask(),
            Collider::Quad(_) => 0xFFFF,
        }
    }

    pub open spec fn can_test(self, point: WorldVec) -> bool {
        match self {
            Collider::Diamond(c) => c.can_test(point),
            Collider::Triangle(c) => c.can_test(point),
            _ => true,
        }
    }

    pub open spec fn point_test(self, point: WorldVec) -> PointTest {
        match self {
            Collider::Rect(c) => c.point_test(point),
            Collider::Ellipse(c) => circle_test(c.pos, half(c.size.x), point),
            Collider::Diamond(c) => PointTest::Decided(c.contains_spec(point)),
            Collider::Triangle(c) => PointTest::Decided(c.contains_spec(point)),
            Collider::Quad(c) => PointTest::Decided(c.contains_spec(point)),
        }
    }

    /// The containment test of the shape.
    pub fn contains_point(&self, point: WorldVec) -> (r: PointTest)
        requires
            self.can_test(point),
        ensures
            r == self.point_test(point),
    {
        match self {
            Collider::Rect(c) => c.contains_point(point),
            Collider::Ellipse(c) => c.contains_point(point),
            Collider::Diamond(c) => PointTest::Decided(c.contains_point(point)),
            Collider::Triangle(c) => PointTest::Decided(c.contains_point(point)),
            Collider::Quad(c) => PointTest::Decided(c.contains_point(point)),
        }
    }

    pub open spec fn clip_spec(self, motion: Motion, directional_size: i32) -> WorldVec {
        match self {
            Collider::Rect(c) => c.clip_spec(motion, directional_size),
            _ => motion.to,
        }
    }

    /// Where `motion` ends up against the shape: only rectangles stop a body.
    pub fn clip_motion(&self, motion: &Motion, directional_size: i32) -> (r: WorldVec)
        ensures
            r == self.clip_spec(*motion, directional_size),
    {
        match self {
            Collider::Rect(c) => c.clip_motion(motion, directional_size),
            _ => motion.to,
        }
    }

    /// The shape's defining parameters: its corners for a quadrilateral, otherwise its bounding
    /// box, then its floor and, when not the default, its collision mask.
    pub open spec fn params_spec(self) -> Seq<DetailLine> {
        match self {
            Collider::Quad(q) => seq![
                DetailLine::Value("X1", q.p1.x),
                DetailLine::Value("Z1", q.p1.z),
                DetailLine::Value("X2", q.p2.x),
                DetailLine::Value("Z2", q.p2.z),
                DetailLine::Value("X3", q.p3.x),
                DetailLine::Value("Z3", q.p3.z),
                DetailLine::Value("X4", q.p4.x),
                DetailLine::Value("Z4", q.p4.z),
                DetailLine::Floor(q.floor),
            ],
            _ => {
                let (pos, size) = self.box_spec();
                let base = seq![
                    DetailLine::Value("X", pos.x),
                    DetailLine::Value("Z", pos.z),
                    DetailLine::Value("W", size.x),
                    DetailLine::Value("H", size.z),
                    DetailLine::Floor(self.floor_spec()),
                ];
                if self.collision_mask_spec() != 0xFFFF {
                    base.push(DetailLine::Collision(self.collision_mask_spec()))
                } else {
                    base
                }
            },
        }
    }

    /// The bounding box of a shape given by one (a quadrilateral has none; its first two corners
    /// stand in).
    pub open spec fn box_spec(self) -> (WorldVec, WorldVec) {
        match self {
            Collider::Rect(c) => (c.pos, c.size),
            Collider::Diamond(c) => (c.pos, c.size),
            Collider::Ellipse(c) => (c.pos, c.size),
            Collider::Triangle(c) => (c.pos, c.size),
            Collider::Quad(c) => (c.p1, c.p2),
        }
    }

    /// Geometry derived from the parameters: the centre and radii of an ellipse, and the corners
    /// of a triangle, a diamond or a rectangle that the parameters do not list.
    pub open spec fn calculated_spec(self) -> Seq<DetailLine> {
        match self {
            Collider::Ellipse(e) => {
                let rx = half(e.size.x);
                let rz = half(e.size.z);
                seq![
                    DetailLine::Value("CX", e.pos.x.wrapping_add(rx)),
                    DetailLine::Value("CZ", e.pos.z.wrapping_add(rz)),
                    DetailLine::Value("RX", rx),
                    DetailLine::Value("RZ", rz),
                ]
            },
            Collider::Triangle(t) => {
                let c = t.type_.corners_spec();
                seq![
                    DetailLine::Value("X1", corner_coord(t.pos.x, t.size.x, c[0].0)),
                    DetailLine::Value("Z1", corner_coord(t.pos.z, t.size.z, c[0].1)),
                    DetailLine::Value("X2", corner_coord(t.pos.x, t.size.x, c[1].0)),
                    DetailLine::Value("Z2", corner_coord(t.pos.z, t.size.z, c[1].1)),
                    DetailLine::Value("X3", corner_coord(t.pos.x, t.size.x, c[2].0)),
                    DetailLine::Value("Z3", corner_coord(t.pos.z, t.size.z, c[2].1)),
                ]
            },
            Collider::Diamond(d) => {
                let rx = half(d.size.x);
                let rz = half(d.size.z);
                seq![
                    DetailLine::Value("X1", d.pos.x.wrapping_add(rx)),
                    DetailLine::Value("Z1", d.pos.z),
                    DetailLine::Value("X2", d.pos.x.wrapping_add(d.size.x)),
                    DetailLine::Value("Z2", d.pos.z.wrapping_add(rz)),
                    DetailLine::Value("X3", d.pos.x.wrapping_add(rx)),
                    DetailLine::Value("Z3", d.pos.z.wrapping_add(d.size.z)),
                    DetailLine::Value("X4", d.pos.x),
                    DetailLine::Value("Z4", d.pos.z.wrapping_add(rz)),
                ]
            },
            Collider::Rect(r) => {
                let fx = r.pos.x.wrapping_add(r.size.x);
                let fz = r.pos.z.wrapping_add(r.size.z);
                seq![
                    DetailLine::Value("X2", fx),
                    DetailLine::Value("Z2", r.pos.z),
                    DetailLine::Value("X3", fx),
                    DetailLine::Value("Z3", fz),
                    DetailLine::Value("X4", r.pos.x),
                    DetailLine::Value("Z4", fz),
                ]
            },
            Collider::Quad(_) => seq![],
        }
    }

    /// The groups of details shown for the shape: its kind, its parameters, and, for every shape
    /// but a quadrilateral, the calculated geometry.
    pub open spec fn details_spec(self) -> Seq<(&'static str, Seq<DetailLine>)> {
        let groups = seq![("Type", seq![DetailLine::Kind(self.type_label())]), ("Params", self.params_spec())];
        if self is Quad {
            groups
        } else {
            groups.push(("Calculated", self.calculated_spec()))
        }
    }

    pub fn details(&self) -> (r: Vec<DetailGroup>)
        ensures
            r@.len() == self.details_spec().len(),
            forall|i: int|
                0 <= i < r@.len() ==> #[trigger] r@[i].label == self.details_spec()[i].0 && r@[i].lines@
                    == self.details_spec()[i].1,
    {
        let mut groups: Vec<DetailGroup> = Vec::new();

        groups.push(DetailGroup { label: "Type", lines: vec![DetailLine::Kind(self.kind_name())] });

        let label = "Params";
        match self {
            Collider::Quad(quad) => {
                groups.push(DetailGroup {
                    label,
                    lines: vec![
                        DetailLine::Value("X1", quad.p1.x),
                        DetailLine::Value("Z1", quad.p1.z),
                        DetailLine::Value("X2", quad.p2.x),
                        DetailLine::Value("Z2", quad.p2.z),
                        DetailLine::Value("X3", quad.p3.x),
                        DetailLine::Value("Z3", quad.p3.z),
                        DetailLine::Value("X4", quad.p4.x),
                        DetailLine::Value("Z4", quad.p4.z),
                        DetailLine::Floor(quad.floor),
                    ],
                });
            },
            Collider::Rect(RectCollider { pos, size, floor, .. })
            | Collider::Diamond(DiamondCollider { pos, size, floor, .. })
            | Collider::Ellipse(EllipseCollider { pos, size, floor, .. })
            | Collider::Triangle(TriangleCollider { pos, size, floor, .. }) => {
                let mut params = vec![
                    DetailLine::Value("X", pos.x),
                    DetailLine::Value("Z", pos.z),
                    DetailLine::Value("W", size.x),
                    DetailLine::Value("H", size.z),
                    DetailLine::Floor(*floor),
                ];
                let mask = self.collision_mask();
                if mask != 0xFFFF {
                    params.push(DetailLine::Collision(mask));
                }
                groups.push(DetailGroup { label, lines: params });
            },
        }

        let label = "Calculated";
        match self {
            Collider::Ellipse(ellipse) => {
                let x_radius = halve(ellipse.size.x);
                let z_radius = halve(ellipse.size.z);
                let center_x = ellipse.pos.x.wrapping_add(x_radius);
                let center_z = ellipse.pos.z.wrapping_add(z_radius);
                groups.push(DetailGroup {
                    label,
                    lines: vec![
                        DetailLine::Value("CX", center_x),
                        DetailLine::Value("CZ", center_z),
                        DetailLine::Value("RX", x_radius),
                        DetailLine::Value("RZ", z_radius),
                    ],
                });
            },
            Collider::Triangle(tri) => {
                let corners = tri.type_.corners();
                let x1 = tri.pos.x.wrapping_add(if corners[0].0 { tri.size.x } else { 0 });
                let z1 = tri.pos.z.wrapping_add(if corners[0].1 { tri.size.z } else { 0 });
                let x2 = tri.pos.x.wrapping_add(if corners[1].0 { tri.size.x } else { 0 });
                let z2 = tri.pos.z.wrapping_add(if corners[1].1 { tri.size.z } else { 0 });
                let x3 = tri.pos.x.wrapping_add(if corners[2].0 { tri.size.x } else { 0 });
                let z3 = tri.pos.z.wrapping_add(if corners[2].1 { tri.size.z } else { 0 });
                groups.push(DetailGroup {
                    label,
                    lines: vec![
                        DetailLine::Value("X1", x1),
                        DetailLine::Value("Z1", z1),
                        DetailLine::Value("X2", x2),
                        DetailLine::Value("Z2", z2),
                        DetailLine::Value("X3", x3),
                        DetailLine::Value("Z3", z3),
                    ],
                });
            },
            Collider::Diamond(diamond) => {
                let radius_x = halve(diamond.size.x);
                let radius_z = halve(diamond.size.z);
                let x = diamond.pos.x;
                let z = diamond.pos.z;
                let width = diamond.size.x;
                let height = diamond.size.z;
                groups.push(DetailGroup {
                    label,
                    lines: vec![
                        DetailLine::Value("X1", x.wrapping_add(radius_x)),
                        DetailLine::Value("Z1", z),
                        DetailLine::Value("X2", x.wrapping_add(width)),
                        DetailLine::Value("Z2", z.wrapping_add(radius_z)),
                        DetailLine::Value("X3", x.wrapping_add(radius_x)),
                        DetailLine::Value("Z3", z.wrapping_add(height)),
                        DetailLine::Value("X4", x),
                        DetailLine::Value("Z4", z.wrapping_add(radius_z)),
                    ],
                });
            },
            Collider::Rect(rect) => {
                let nx = rect.pos.x;
                let nz = rect.pos.z;
                let fx = rect.pos.x.wrapping_add(rect.size.x);
                let fz = rect.pos.z.wrapping_add(rect.size.z);
                groups.push(DetailGroup {
                    label,
                    lines: vec![
                        DetailLine::Value("X2", fx),
                        DetailLine::Value("Z2", nz),
                        DetailLine::Value("X3", fx),
                        DetailLine::Value("Z3", fz),
                        DetailLine::Value("X4", nx),
                        DetailLine::Value("Z4", fz),
                    ],
                });
            },
            Collider::Quad(_) => {},
        }

        groups
    }
}

} // verus!
