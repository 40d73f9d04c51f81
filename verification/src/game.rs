//! Values of the game's data structures that the tools read: vectors, matrices, character
//! parts, and the weapon hit ranges.

use vstd::prelude::*;

verus! {

pub const FRAMES_PER_SECOND: u64 = 60;
pub const NUM_CHARACTERS: usize = 34;
pub const NUM_OBJECTS: usize = 32;
pub const OBJECT_CHARACTER_SIZE: usize = 0x1F8;

#[derive(Debug, Clone, Copy, PartialEq, Eq, Structural)]
pub struct SVECTOR {
    pub vx: i16,
    pub vy: i16,
    pub vz: i16,
    pub pad: i16,
}

#[derive(Debug, Clone, Copy, PartialEq, Eq, Structural)]
pub struct SSVECTOR {
    pub vx: i16,
    pub vy: i16,
    pub vz: i16,
}

#[derive(Debug, Clone, Copy, PartialEq, Eq, Structural)]
pub struct VECTOR {
    pub x: i32,
    pub y: i32,
    pub z: i32,
}

#[derive(Debug, Clone, Copy, PartialEq, Eq, Structural)]
pub struct CVECTOR {
    pub r: u8,
    pub g: u8,
    pub b: u8,
    pub cd: u8,
}

/// A 3x3 rotation (fixed point) with a translation.
#[derive(Debug, Clone, Copy, PartialEq, Eq)]
pub struct MATRIX {
    pub m: [i16; 9],
    pub pad: u16,
    pub t: VECTOR,
}

/// Two matrices with the same entries, padding and translation.
pub open spec fn matrix_same(a: MATRIX, b: MATRIX) -> bool {
    a.m@ == b.m@ && a.pad == b.pad && a.t == b.t
}

/// Matrices are equal exactly when their entries, padding and translation are.
pub proof fn lemma_matrix_same_eq(a: MATRIX, b: MATRIX)
    ensures
        matrix_same(a, b) <==> a == b,
{
    if matrix_same(a, b) {
        assert(a.m =~= b.m) by {
            assert forall|i: int| 0 <= i < 9 implies a.m[i] == b.m[i] by {
                assert(a.m@[i] == b.m@[i]);
            }
        }
    }
}

/// Whether two matrices are equal.
pub fn matrix_eq(a: &MATRIX, b: &MATRIX) -> (r: bool)
    ensures
        r == (*a == *b),
{
    proof { lemma_matrix_same_eq(*a, *b); }
    let mut i: usize = 0;
    while i < 9
        invariant
            i <= 9,
            forall|j: int| 0 <= j < i ==> a.m[j] == b.m[j],
        decreases 9 - i,
    {
        if a.m[i] != b.m[i] {
            return false;
        }
        i += 1;
    }
    assert(a.m@ =~= b.m@);
    a.pad == b.pad && a.t == b.t
}

/// Whether two four-byte states are equal.
pub fn bytes4_eq(a: &[u8; 4], b: &[u8; 4]) -> (r: bool)
    ensures
        r == (*a == *b),
{
    let r = a[0] == b[0] && a[1] == b[1] && a[2] == b[2] && a[3] == b[3];
    proof {
        if r {
            assert(*a =~= *b);
        }
    }
    r
}

/// The part of a model part that the recorder reads: its composite transform.
#[derive(Debug, Clone, Copy)]
pub struct ModelPart {
    pub composite_transform: MATRIX,
}

/// One collision part of a character.
#[derive(Debug, Clone, Copy)]
pub struct CharacterPart {
    pub pos: VECTOR,
    pub x_size: u16,
    pub z_size: u16,
    pub unk_x: i16,
    pub unk_z: i16,
    pub unk_y: i16,
    pub size_offset: u16,
    pub unk_18: u16,
    pub y_size: u16,
    pub x_offset: i16,
    pub z_offset: i16,
}

/// The fields of a game character that the recorder tracks.
#[derive(Debug, Clone, Copy)]
pub struct Character {
    pub flags: u32,
    pub state: [u8; 4],
    pub id: u8,
    pub index: u8,
    pub transform: MATRIX,
    pub pos_short: SVECTOR,
    pub base_pos_short: SVECTOR,
    pub motion_angle: i16,
    pub parts: [CharacterPart; 4],
    pub floor: u8,
    pub num_model_parts: u8,
    pub type_: u16,
    pub collision_state: u32,
    pub colliders_hit: u32,
    pub next_x: i16,
    pub next_z: i16,
    pub velocity: SVECTOR,
    pub health: i16,
    pub motion: i16,
    pub num_parts: u32,
    pub weapon_hit_stage_frames: u8,
    pub weapon_hit_stage_index: u8,
    pub distance_to_target: u32,
    pub prev_state: [u8; 4],
}

/// The area in front of the player that a weapon's shot can hit, in the game's units.
#[derive(Debug, Clone, Copy, PartialEq, Eq, Structural)]
pub struct HitBounds {
    pub x: i16,
    pub z: i16,
    pub x_size_half: i16,
    pub z_size_quarter: i16,
}

impl HitBounds {
    /// Bounds with no z offset (most bounds have none).
    pub fn new(x: i16, x_size_half: i16, z_size_quarter: i16) -> (r: Self)
        ensures
            r == (HitBounds { x, z: 0, x_size_half, z_size_quarter }),
    {
        Self { x, z: 0, x_size_half, z_size_quarter }
    }

    pub fn zero() -> (r: Self)
        ensures
            r == (HitBounds { x: 0, z: 0, x_size_half: 0, z_size_quarter: 0 }),
    {
        Self { x: 0, z: 0, x_size_half: 0, z_size_quarter: 0 }
    }

    pub open spec fn has_area_spec(self) -> bool {
        self.x_size_half != 0 && self.z_size_quarter != 0
    }

    /// Whether the bounds cover any area.
    pub fn has_area(&self) -> (r: bool)
        ensures
            r == self.has_area_spec(),
    {
        self.x_size_half != 0 && self.z_size_quarter != 0
    }
}

impl Default for HitBounds {
    fn default() -> (r: Self)
        ensures
            r == (HitBounds { x: 0, z: 0, x_size_half: 0, z_size_quarter: 0 }),
    {
        Self::zero()
    }
}

/// Where the player aims, as the game's bit flags name it.
#[derive(Debug, Clone, Copy, PartialEq, Eq, Hash, Structural)]
pub enum AimZone {
    NoZone,
    LowFar,
    LowMid,
    LowNear,
    Mid,
    HighNear,
    HighMid,
    HighFar,
    KnifeHigh,
}

impl AimZone {
    /// The game's flag for the zone.
    pub fn flag(&self) -> (r: u8)
        ensures
            r == match self {
                AimZone::NoZone => 0x00u8,
                AimZone::LowFar => 0x01u8,
                AimZone::LowMid => 0x02u8,
                AimZone::LowNear => 0x04u8,
                AimZone::Mid => 0x08u8,
                AimZone::HighNear => 0x10u8,
                AimZone::HighMid => 0x20u8,
                AimZone::HighFar => 0x40u8,
                AimZone::KnifeHigh => 0x80u8,
            },
    {
        match self {
            AimZone::NoZone => 0x00,
            AimZone::LowFar => 0x01,
            AimZone::LowMid => 0x02,
            AimZone::LowNear => 0x04,
            AimZone::Mid => 0x08,
            AimZone::HighNear => 0x10,
            AimZone::HighMid => 0x20,
            AimZone::HighFar => 0x40,
            AimZone::KnifeHigh => 0x80,
        }
    }
}

impl Default for AimZone {
    fn default() -> (r: Self)
        ensures
            r == AimZone::NoZone,
    {
        AimZone::NoZone
    }
}

/// Up to three aim zones with the bounds that each can hit.
#[derive(Debug, Clone, Copy)]
pub struct WeaponRange {
    pub unk00: u8,
    pub aim_zones: [AimZone; 3],
    pub hit_bounds: [HitBounds; 3],
}

impl WeaponRange {
    pub fn new(aim_zones: [AimZone; 3], hit_bounds: [HitBounds; 3]) -> (r: Self)
        ensures
            r == (WeaponRange { unk00: 0, aim_zones, hit_bounds }),
    {
        Self { unk00: 0, aim_zones, hit_bounds }
    }

    /// Aiming low: near, mid and far zones.
    pub fn low(bounds0: HitBounds, bounds1: HitBounds, bounds2: HitBounds) -> (r: Self)
        ensures
            r == (WeaponRange {
                unk00: 0,
                aim_zones: [AimZone::LowNear, AimZone::LowMid, AimZone::LowFar],
                hit_bounds: [bounds0, bounds1, bounds2],
            }),
    {
        Self {
            unk00: 0,
            aim_zones: [AimZone::LowNear, AimZone::LowMid, AimZone::LowFar],
            hit_bounds: [bounds0, bounds1, bounds2],
        }
    }

    /// Aiming straight: the mid zone three times.
    pub fn mid(bounds0: HitBounds, bounds1: HitBounds, bounds2: HitBounds) -> (r: Self)
        ensures
            r == (WeaponRange {
                unk00: 0,
                aim_zones: [AimZone::Mid, AimZone::Mid, AimZone::Mid],
                hit_bounds: [bounds0, bounds1, bounds2],
            }),
    {
        Self {
            unk00: 0,
            aim_zones: [AimZone::Mid, AimZone::Mid, AimZone::Mid],
            hit_bounds: [bounds0, bounds1, bounds2],
        }
    }

    /// Aiming high: near, mid and far zones.
    pub fn high(bounds0: HitBounds, bounds1: HitBounds, bounds2: HitBounds) -> (r: Self)
        ensures
            r == (WeaponRange {
                unk00: 0,
                aim_zones: [AimZone::HighNear, AimZone::HighMid, AimZone::HighFar],
                hit_bounds: [bounds0, bounds1, bounds2],
            }),
    {
        Self {
            unk00: 0,
            aim_zones: [AimZone::HighNear, AimZone::HighMid, AimZone::HighFar],
            hit_bounds: [bounds0, bounds1, bounds2],
        }
    }

    /// A single zone.
    pub fn one(aim_zone: AimZone, bounds: HitBounds) -> (r: Self)
        ensures
            r == (WeaponRange {
                unk00: 0,
                aim_zones: [aim_zone, AimZone::NoZone, AimZone::NoZone],
                hit_bounds: [
                    bounds,
                    HitBounds { x: 0, z: 0, x_size_half: 0, z_size_quarter: 0 },
                    HitBounds { x: 0, z: 0, x_size_half: 0, z_size_quarter: 0 },
                ],
            }),
    {
        Self {
            unk00: 0,
            aim_zones: [aim_zone, AimZone::NoZone, AimZone::NoZone],
            hit_bounds: [bounds, HitBounds::zero(), HitBounds::zero()],
        }
    }

    /// No zone at all.
    pub fn none() -> (r: Self)
        ensures
            r.unk00 == 0,
            forall|i: int| 0 <= i < 3 ==> r.aim_zones[i] == AimZone::NoZone,
            forall|i: int| 0 <= i < 3 ==> r.hit_bounds[i] == (HitBounds { x: 0, z: 0, x_size_half: 0, z_size_quarter: 0 }),
    {
        Self {
            unk00: 0,
            aim_zones: [AimZone::NoZone, AimZone::NoZone, AimZone::NoZone],
            hit_bounds: [HitBounds::zero(), HitBounds::zero(), HitBounds::zero()],
        }
    }

    /// Empty when no zone is aimed at, or when no bounds cover any area.
    pub fn is_empty(&self) -> (r: bool)
        ensures
            r == ((self.aim_zones[0] == AimZone::NoZone && self.aim_zones[1] == AimZone::NoZone
                && self.aim_zones[2] == AimZone::NoZone) || !(self.hit_bounds[0].has_area_spec()
                || self.hit_bounds[1].has_area_spec() || self.hit_bounds[2].has_area_spec())),
    {
        (self.aim_zones[0] == AimZone::NoZone && self.aim_zones[1] == AimZone::NoZone && self.aim_zones[2] == AimZone::NoZone)
            || !(self.hit_bounds[0].has_area() || self.hit_bounds[1].has_area() || self.hit_bounds[2].has_area())
    }
}

} // verus!
