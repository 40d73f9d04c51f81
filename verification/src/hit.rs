//! The hit ranges of the player's weapons.

use vstd::prelude::*;
use crate::game::{AimZone, HitBounds, WeaponRange};
use crate::math::{Fixed12, Vec2};
use crate::analysis::InputState;

verus! {

/// The items the player can have equipped, as far as the weapon ranges tell them apart.
#[derive(Debug, Clone, Copy, PartialEq, Eq, Hash, Structural)]
pub enum Item {
    Knife,
    HandgunLeon,
    HandgunClaire,
    CustomHandgun,
    Magnum,
    CustomMagnum,
    Shotgun,
    CustomShotgun,
    ColtSaa,
    Sparkshot,
    SubMachinegun,
    GatlingGun,
    Beretta,
    GrenadeLauncher,
    GrenadeLauncherFlame,
    GrenadeLauncherAcid,
    Bowgun,
    Flamethrower,
    RocketLauncher,
    Other,
}

/// A weapon's hit ranges when aiming low, straight and high.
#[derive(Debug, Clone, Copy)]
pub struct WeaponAimRanges {
    pub low: WeaponRange,
    pub mid: WeaponRange,
    pub high: WeaponRange,
}

impl WeaponAimRanges {
    pub fn new(low: WeaponRange, mid: WeaponRange, high: WeaponRange) -> (r: Self)
        ensures
            r == (WeaponAimRanges { low, mid, high }),
    {
        Self { low, mid, high }
    }
}

pub open spec fn knife_ranges_spec() -> WeaponAimRanges {
    WeaponAimRanges { low: WeaponRange { unk00: 0, aim_zones: [AimZone::Mid, AimZone::NoZone, AimZone::NoZone], hit_bounds: [HitBounds { x: 0x32, z: 0x1F4, x_size_half: 0x146, z_size_quarter: 0x79 }, HitBounds { x: 0, z: 0, x_size_half: 0, z_size_quarter: 0 }, HitBounds { x: 0, z: 0, x_size_half: 0, z_size_quarter: 0 }] }, mid: WeaponRange { unk00: 0, aim_zones: [AimZone::Mid, AimZone::NoZone, AimZone::NoZone], hit_bounds: [HitBounds { x: 0xFA, z: 0x320, x_size_half: 0x1AA, z_size_quarter: 0x79 }, HitBounds { x: 0, z: 0, x_size_half: 0, z_size_quarter: 0 }, HitBounds { x: 0, z: 0, x_size_half: 0, z_size_quarter: 0 }] }, high: WeaponRange { unk00: 0, aim_zones: [AimZone::KnifeHigh, AimZone::NoZone, AimZone::NoZone], hit_bounds: [HitBounds { x: -500i16, z: 0x320, x_size_half: 0x146, z_size_quarter: 0x79 }, HitBounds { x: 0, z: 0, x_size_half: 0, z_size_quarter: 0 }, HitBounds { x: 0, z: 0, x_size_half: 0, z_size_quarter: 0 }] } }
}

fn knife_ranges() -> (r: WeaponAimRanges)
    ensures
        r == knife_ranges_spec(),
{
    WeaponAimRanges { low: WeaponRange { unk00: 0, aim_zones: [AimZone::Mid, AimZone::NoZone, AimZone::NoZone], hit_bounds: [HitBounds { x: 0x32, z: 0x1F4, x_size_half: 0x146, z_size_quarter: 0x79 }, HitBounds { x: 0, z: 0, x_size_half: 0, z_size_quarter: 0 }, HitBounds { x: 0, z: 0, x_size_half: 0, z_size_quarter: 0 }] }, mid: WeaponRange { unk00: 0, aim_zones: [AimZone::Mid, AimZone::NoZone, AimZone::NoZone], hit_bounds: [HitBounds { x: 0xFA, z: 0x320, x_size_half: 0x1AA, z_size_quarter: 0x79 }, HitBounds { x: 0, z: 0, x_size_half: 0, z_size_quarter: 0 }, HitBounds { x: 0, z: 0, x_size_half: 0, z_size_quarter: 0 }] }, high: WeaponRange { unk00: 0, aim_zones: [AimZone::KnifeHigh, AimZone::NoZone, AimZone::NoZone], hit_bounds: [HitBounds { x: -500i16, z: 0x320, x_size_half: 0x146, z_size_quarter: 0x79 }, HitBounds { x: 0, z: 0, x_size_half: 0, z_size_quarter: 0 }, HitBounds { x: 0, z: 0, x_size_half: 0, z_size_quarter: 0 }] } }
}

pub open spec fn handgun_ranges_spec() -> WeaponAimRanges {
    WeaponAimRanges { low: WeaponRange { unk00: 0, aim_zones: [AimZone::LowNear, AimZone::LowMid, AimZone::LowFar], hit_bounds: [HitBounds { x: 0x64, z: 0, x_size_half: 0x3E8, z_size_quarter: 0x177 }, HitBounds { x: 0x1004, z: 0, x_size_half: 0x3E8, z_size_quarter: 0x1F4 }, HitBounds { x: 0x1FA4, z: 0, x_size_half: 0x9C4, z_size_quarter: 0x271 }] }, mid: WeaponRange { unk00: 0, aim_zones: [AimZone::Mid, AimZone::Mid, AimZone::Mid], hit_bounds: [HitBounds { x: 0xC8, z: 0, x_size_half: 0x3E8, z_size_quarter: 0x177 }, HitBounds { x: 0x1068, z: 0, x_size_half: 0x3E8, z_size_quarter: 0x1F4 }, HitBounds { x: 0x2008, z: 0, x_size_half: 0x1D4C, z_size_quarter: 0x271 }] }, high: WeaponRange { unk00: 0, aim_zones: [AimZone::HighNear, AimZone::HighMid, AimZone::HighFar], hit_bounds: [HitBounds { x: 0x64, z: 0, x_size_half: 0x3E8, z_size_quarter: 0x177 }, HitBounds { x: 0x1004, z: 0, x_size_half: 0x3E8, z_size_quarter: 0x1F4 }, HitBounds { x: 0x1FA4, z: 0, x_size_half: 0x9C4, z_size_quarter: 0x271 }] } }
}

fn handgun_ranges() -> (r: WeaponAimRanges)
    ensures
        r == handgun_ranges_spec(),
{
    WeaponAimRanges { low: WeaponRange { unk00: 0, aim_zones: [AimZone::LowNear, AimZone::LowMid, AimZone::LowFar], hit_bounds: [HitBounds { x: 0x64, z: 0, x_size_half: 0x3E8, z_size_quarter: 0x177 }, HitBounds { x: 0x1004, z: 0, x_size_half: 0x3E8, z_size_quarter: 0x1F4 }, HitBounds { x: 0x1FA4, z: 0, x_size_half: 0x9C4, z_size_quarter: 0x271 }] }, mid: WeaponRange { unk00: 0, aim_zones: [AimZone::Mid, AimZone::Mid, AimZone::Mid], hit_bounds: [HitBounds { x: 0xC8, z: 0, x_size_half: 0x3E8, z_size_quarter: 0x177 }, HitBounds { x: 0x1068, z: 0, x_size_half: 0x3E8, z_size_quarter: 0x1F4 }, HitBounds { x: 0x2008, z: 0, x_size_half: 0x1D4C, z_size_quarter: 0x271 }] }, high: WeaponRange { unk00: 0, aim_zones: [AimZone::HighNear, AimZone::HighMid, AimZone::HighFar], hit_bounds: [HitBounds { x: 0x64, z: 0, x_size_half: 0x3E8, z_size_quarter: 0x177 }, HitBounds { x: 0x1004, z: 0, x_size_half: 0x3E8, z_size_quarter: 0x1F4 }, HitBounds { x: 0x1FA4, z: 0, x_size_half: 0x9C4, z_size_quarter: 0x271 }] } }
}

pub open spec fn magnum_ranges_spec() -> WeaponAimRanges {
    WeaponAimRanges { low: WeaponRange { unk00: 0, aim_zones: [AimZone::LowNear, AimZone::LowMid, AimZone::LowFar], hit_bounds: [HitBounds { x: 0x64, z: 0, x_size_half: 0x3E8, z_size_quarter: 0x7D }, HitBounds { x: 0x1004, z: 0, x_size_half: 0x3E8, z_size_quarter: 0x96 }, HitBounds { x: 0x1FA4, z: 0, x_size_half: 0x9C4, z_size_quarter: 0xAF }] }, mid: WeaponRange { unk00: 0, aim_zones: [AimZone::Mid, AimZone::Mid, AimZone::Mid], hit_bounds: [HitBounds { x: 0xC8, z: 0, x_size_half: 0x3E8, z_size_quarter: 0x7D }, HitBounds { x: 0x1068, z: 0, x_size_half: 0x3E8, z_size_quarter: 0x96 }, HitBounds { x: 0x1C20, z: 0, x_size_half: 0x1D4C, z_size_quarter: 0xAF }] }, high: WeaponRange { unk00: 0, aim_zones: [AimZone::HighNear, AimZone::HighMid, AimZone::HighFar], hit_bounds: [HitBounds { x: 0x64, z: 0, x_size_half: 0x3E8, z_size_quarter: 0x7D }, HitBounds { x: 0x1004, z: 0, x_size_half: 0x3E8, z_size_quarter: 0x96 }, HitBounds { x: 0x1FA4, z: 0, x_size_half: 0x9C4, z_size_quarter: 0xAF }] } }
}

fn magnum_ranges() -> (r: WeaponAimRanges)
    ensures
        r == magnum_ranges_spec(),
{
    WeaponAimRanges { low: WeaponRange { unk00: 0, aim_zones: [AimZone::LowNear, AimZone::LowMid, AimZone::LowFar], hit_bounds: [HitBounds { x: 0x64, z: 0, x_size_half: 0x3E8, z_size_quarter: 0x7D }, HitBounds { x: 0x1004, z: 0, x_size_half: 0x3E8, z_size_quarter: 0x96 }, HitBounds { x: 0x1FA4, z: 0, x_size_half: 0x9C4, z_size_quarter: 0xAF }] }, mid: WeaponRange { unk00: 0, aim_zones: [AimZone::Mid, AimZone::Mid, AimZone::Mid], hit_bounds: [HitBounds { x: 0xC8, z: 0, x_size_half: 0x3E8, z_size_quarter: 0x7D }, HitBounds { x: 0x1068, z: 0, x_size_half: 0x3E8, z_size_quarter: 0x96 }, HitBounds { x: 0x1C20, z: 0, x_size_half: 0x1D4C, z_size_quarter: 0xAF }] }, high: WeaponRange { unk00: 0, aim_zones: [AimZone::HighNear, AimZone::HighMid, AimZone::HighFar], hit_bounds: [HitBounds { x: 0x64, z: 0, x_size_half: 0x3E8, z_size_quarter: 0x7D }, HitBounds { x: 0x1004, z: 0, x_size_half: 0x3E8, z_size_quarter: 0x96 }, HitBounds { x: 0x1FA4, z: 0, x_size_half: 0x9C4, z_size_quarter: 0xAF }] } }
}

pub open spec fn shotgun_ranges_spec() -> WeaponAimRanges {
    WeaponAimRanges { low: WeaponRange { unk00: 0, aim_zones: [AimZone::LowNear, AimZone::LowMid, AimZone::LowFar], hit_bounds: [HitBounds { x: 0x64, z: 0, x_size_half: 0x3E8, z_size_quarter: 0x1F4 }, HitBounds { x: 0x1004, z: 0, x_size_half: 0x3E8, z_size_quarter: 0x2EE }, HitBounds { x: 0x1FA4, z: 0, x_size_half: 0x9C4, z_size_quarter: 0x3E8 }] }, mid: WeaponRange { unk00: 0, aim_zones: [AimZone::Mid, AimZone::Mid, AimZone::Mid], hit_bounds: [HitBounds { x: 0xC8, z: 0, x_size_half: 0x3E8, z_size_quarter: 0x271 }, HitBounds { x: 0x1068, z: 0, x_size_half: 0x3E8, z_size_quarter: 0x36B }, HitBounds { x: 0x2008, z: 0, x_size_half: 0x1D4C, z_size_quarter: 0x465 }] }, high: WeaponRange { unk00: 0, aim_zones: [AimZone::HighNear, AimZone::HighMid, AimZone::HighFar], hit_bounds: [HitBounds { x: 0x64, z: 0, x_size_half: 0x2EE, z_size_quarter: 0x1F4 }, HitBounds { x: 0xC1C, z: 0, x_size_half: 0x5DC, z_size_quarter: 0x2EE }, HitBounds { x: 0x238C, z: 0, x_size_half: 0x9C4, z_size_quarter: 0x3E8 }] } }
}

fn shotgun_ranges() -> (r: WeaponAimRanges)
    ensures
        r == shotgun_ranges_spec(),
{
    WeaponAimRanges { low: WeaponRange { unk00: 0, aim_zones: [AimZone::LowNear, AimZone::LowMid, AimZone::LowFar], hit_bounds: [HitBounds { x: 0x64, z: 0, x_size_half: 0x3E8, z_size_quarter: 0x1F4 }, HitBounds { x: 0x1004, z: 0, x_size_half: 0x3E8, z_size_quarter: 0x2EE }, HitBounds { x: 0x1FA4, z: 0, x_size_half: 0x9C4, z_size_quarter: 0x3E8 }] }, mid: WeaponRange { unk00: 0, aim_zones: [AimZone::Mid, AimZone::Mid, AimZone::Mid], hit_bounds: [HitBounds { x: 0xC8, z: 0, x_size_half: 0x3E8, z_size_quarter: 0x271 }, HitBounds { x: 0x1068, z: 0, x_size_half: 0x3E8, z_size_quarter: 0x36B }, HitBounds { x: 0x2008, z: 0, x_size_half: 0x1D4C, z_size_quarter: 0x465 }] }, high: WeaponRange { unk00: 0, aim_zones: [AimZone::HighNear, AimZone::HighMid, AimZone::HighFar], hit_bounds: [HitBounds { x: 0x64, z: 0, x_size_half: 0x2EE, z_size_quarter: 0x1F4 }, HitBounds { x: 0xC1C, z: 0, x_size_half: 0x5DC, z_size_quarter: 0x2EE }, HitBounds { x: 0x238C, z: 0, x_size_half: 0x9C4, z_size_quarter: 0x3E8 }] } }
}

pub open spec fn custom_shotgun_ranges_spec() -> WeaponAimRanges {
    WeaponAimRanges { low: WeaponRange { unk00: 0, aim_zones: [AimZone::LowNear, AimZone::LowMid, AimZone::LowFar], hit_bounds: [HitBounds { x: 0x64, z: 0, x_size_half: 0x3E8, z_size_quarter: 0x1F4 }, HitBounds { x: 0x1004, z: 0, x_size_half: 0x3E8, z_size_quarter: 0x36B }, HitBounds { x: 0x1FA4, z: 0, x_size_half: 0x9C4, z_size_quarter: 0x465 }] }, mid: WeaponRange { unk00: 0, aim_zones: [AimZone::Mid, AimZone::Mid, AimZone::Mid], hit_bounds: [HitBounds { x: 0xC8, z: 0, x_size_half: 0x3E8, z_size_quarter: 0x271 }, HitBounds { x: 0x1068, z: 0, x_size_half: 0x3E8, z_size_quarter: 0x3E8 }, HitBounds { x: 0x2008, z: 0, x_size_half: 0x1D4C, z_size_quarter: 0x4E2 }] }, high: WeaponRange { unk00: 0, aim_zones: [AimZone::HighNear, AimZone::HighMid, AimZone::HighFar], hit_bounds: [HitBounds { x: 0x64, z: 0, x_size_half: 0x2EE, z_size_quarter: 0x1F4 }, HitBounds { x: 0xC1C, z: 0, x_size_half: 0x3E8, z_size_quarter: 0x36B }, HitBounds { x: 0x1BBC, z: 0, x_size_half: 0x9C4, z_size_quarter: 0x465 }] } }
}

fn custom_shotgun_ranges() -> (r: WeaponAimRanges)
    ensures
        r == custom_shotgun_ranges_spec(),
{
    WeaponAimRanges { low: WeaponRange { unk00: 0, aim_zones: [AimZone::LowNear, AimZone::LowMid, AimZone::LowFar], hit_bounds: [HitBounds { x: 0x64, z: 0, x_size_half: 0x3E8, z_size_quarter: 0x1F4 }, HitBounds { x: 0x1004, z: 0, x_size_half: 0x3E8, z_size_quarter: 0x36B }, HitBounds { x: 0x1FA4, z: 0, x_size_half: 0x9C4, z_size_quarter: 0x465 }] }, mid: WeaponRange { unk00: 0, aim_zones: [AimZone::Mid, AimZone::Mid, AimZone::Mid], hit_bounds: [HitBounds { x: 0xC8, z: 0, x_size_half: 0x3E8, z_size_quarter: 0x271 }, HitBounds { x: 0x1068, z: 0, x_size_half: 0x3E8, z_size_quarter: 0x3E8 }, HitBounds { x: 0x2008, z: 0, x_size_half: 0x1D4C, z_size_quarter: 0x4E2 }] }, high: WeaponRange { unk00: 0, aim_zones: [AimZone::HighNear, AimZone::HighMid, AimZone::HighFar], hit_bounds: [HitBounds { x: 0x64, z: 0, x_size_half: 0x2EE, z_size_quarter: 0x1F4 }, HitBounds { x: 0xC1C, z: 0, x_size_half: 0x3E8, z_size_quarter: 0x36B }, HitBounds { x: 0x1BBC, z: 0, x_size_half: 0x9C4, z_size_quarter: 0x465 }] } }
}

pub open spec fn sparkshot_ranges_spec() -> WeaponAimRanges {
    WeaponAimRanges { low: WeaponRange { unk00: 0, aim_zones: [AimZone::LowNear, AimZone::NoZone, AimZone::NoZone], hit_bounds: [HitBounds { x: 0xC8, z: 0, x_size_half: 0xDAC, z_size_quarter: 0x1F4 }, HitBounds { x: 0, z: 0, x_size_half: 0, z_size_quarter: 0 }, HitBounds { x: 0, z: 0, x_size_half: 0, z_size_quarter: 0 }] }, mid: WeaponRange { unk00: 0, aim_zones: [AimZone::Mid, AimZone::NoZone, AimZone::NoZone], hit_bounds: [HitBounds { x: 0xC8, z: 0, x_size_half: 0xDAC, z_size_quarter: 0x1F4 }, HitBounds { x: 0, z: 0, x_size_half: 0, z_size_quarter: 0 }, HitBounds { x: 0, z: 0, x_size_half: 0, z_size_quarter: 0 }] }, high: WeaponRange { unk00: 0, aim_zones: [AimZone::HighNear, AimZone::NoZone, AimZone::NoZone], hit_bounds: [HitBounds { x: 0xC8, z: 0, x_size_half: 0xDAC, z_size_quarter: 0x1F4 }, HitBounds { x: 0, z: 0, x_size_half: 0, z_size_quarter: 0 }, HitBounds { x: 0, z: 0, x_size_half: 0, z_size_quarter: 0 }] } }
}

fn sparkshot_ranges() -> (r: WeaponAimRanges)
    ensures
        r == sparkshot_ranges_spec(),
{
    WeaponAimRanges { low: WeaponRange { unk00: 0, aim_zones: [AimZone::LowNear, AimZone::NoZone, AimZone::NoZone], hit_bounds: [HitBounds { x: 0xC8, z: 0, x_size_half: 0xDAC, z_size_quarter: 0x1F4 }, HitBounds { x: 0, z: 0, x_size_half: 0, z_size_quarter: 0 }, HitBounds { x: 0, z: 0, x_size_half: 0, z_size_quarter: 0 }] }, mid: WeaponRange { unk00: 0, aim_zones: [AimZone::Mid, AimZone::NoZone, AimZone::NoZone], hit_bounds: [HitBounds { x: 0xC8, z: 0, x_size_half: 0xDAC, z_size_quarter: 0x1F4 }, HitBounds { x: 0, z: 0, x_size_half: 0, z_size_quarter: 0 }, HitBounds { x: 0, z: 0, x_size_half: 0, z_size_quarter: 0 }] }, high: WeaponRange { unk00: 0, aim_zones: [AimZone::HighNear, AimZone::NoZone, AimZone::NoZone], hit_bounds: [HitBounds { x: 0xC8, z: 0, x_size_half: 0xDAC, z_size_quarter: 0x1F4 }, HitBounds { x: 0, z: 0, x_size_half: 0, z_size_quarter: 0 }, HitBounds { x: 0, z: 0, x_size_half: 0, z_size_quarter: 0 }] } }
}

pub open spec fn gatling_gun_ranges_spec() -> WeaponAimRanges {
    WeaponAimRanges { low: WeaponRange { unk00: 0, aim_zones: [AimZone::LowNear, AimZone::LowMid, AimZone::LowFar], hit_bounds: [HitBounds { x: 0x64, z: 0, x_size_half: 0x3E8, z_size_quarter: 0x1F4 }, HitBounds { x: 0x1004, z: 0, x_size_half: 0x3E8, z_size_quarter: 0x271 }, HitBounds { x: 0x1FA4, z: 0, x_size_half: 0x9C4, z_size_quarter: 0x271 }] }, mid: WeaponRange { unk00: 0, aim_zones: [AimZone::Mid, AimZone::LowNear, AimZone::HighNear], hit_bounds: [HitBounds { x: 0xC8, z: 0, x_size_half: 0x1D4C, z_size_quarter: 0x1F4 }, HitBounds { x: 0xC8, z: 0, x_size_half: 0x1D4C, z_size_quarter: 0x1F4 }, HitBounds { x: 0xC8, z: 0, x_size_half: 0x1D4C, z_size_quarter: 0x1F4 }] }, high: WeaponRange { unk00: 0, aim_zones: [AimZone::HighNear, AimZone::HighMid, AimZone::HighFar], hit_bounds: [HitBounds { x: 0x64, z: 0, x_size_half: 0x3E8, z_size_quarter: 0x177 }, HitBounds { x: 0x1004, z: 0, x_size_half: 0x3E8, z_size_quarter: 0x1F4 }, HitBounds { x: 0x2008, z: 0, x_size_half: 0x9C4, z_size_quarter: 0x271 }] } }
}

fn gatling_gun_ranges() -> (r: WeaponAimRanges)
    ensures
        r == gatling_gun_ranges_spec(),
{
    WeaponAimRanges { low: WeaponRange { unk00: 0, aim_zones: [AimZone::LowNear, AimZone::LowMid, AimZone::LowFar], hit_bounds: [HitBounds { x: 0x64, z: 0, x_size_half: 0x3E8, z_size_quarter: 0x1F4 }, HitBounds { x: 0x1004, z: 0, x_size_half: 0x3E8, z_size_quarter: 0x271 }, HitBounds { x: 0x1FA4, z: 0, x_size_half: 0x9C4, z_size_quarter: 0x271 }] }, mid: WeaponRange { unk00: 0, aim_zones: [AimZone::Mid, AimZone::LowNear, AimZone::HighNear], hit_bounds: [HitBounds { x: 0xC8, z: 0, x_size_half: 0x1D4C, z_size_quarter: 0x1F4 }, HitBounds { x: 0xC8, z: 0, x_size_half: 0x1D4C, z_size_quarter: 0x1F4 }, HitBounds { x: 0xC8, z: 0, x_size_half: 0x1D4C, z_size_quarter: 0x1F4 }] }, high: WeaponRange { unk00: 0, aim_zones: [AimZone::HighNear, AimZone::HighMid, AimZone::HighFar], hit_bounds: [HitBounds { x: 0x64, z: 0, x_size_half: 0x3E8, z_size_quarter: 0x177 }, HitBounds { x: 0x1004, z: 0, x_size_half: 0x3E8, z_size_quarter: 0x1F4 }, HitBounds { x: 0x2008, z: 0, x_size_half: 0x9C4, z_size_quarter: 0x271 }] } }
}

/// The hit ranges of each weapon that uses the range system (the others have logic of their own).
#[verifier::opaque]
pub open spec fn weapon_aim_ranges_spec(item: Item) -> Option<WeaponAimRanges> {
    match item {
        Item::Knife => Some(knife_ranges_spec()),
        Item::HandgunLeon => Some(handgun_ranges_spec()),
        Item::HandgunClaire => Some(handgun_ranges_spec()),
        Item::CustomHandgun => Some(handgun_ranges_spec()),
        Item::Magnum => Some(magnum_ranges_spec()),
        Item::CustomMagnum => Some(magnum_ranges_spec()),
        Item::Shotgun => Some(shotgun_ranges_spec()),
        Item::CustomShotgun => Some(custom_shotgun_ranges_spec()),
        Item::ColtSaa => Some(handgun_ranges_spec()),
        Item::Sparkshot => Some(sparkshot_ranges_spec()),
        Item::SubMachinegun => Some(handgun_ranges_spec()),
        Item::GatlingGun => Some(gatling_gun_ranges_spec()),
        Item::Beretta => Some(handgun_ranges_spec()),
        _ => None,
    }
}

/// The hit ranges of a weapon, if it uses the range system.
pub fn get_weapon_aim_ranges(item: Item) -> (r: Option<WeaponAimRanges>)
    ensures
        r == weapon_aim_ranges_spec(item),
{
    proof { reveal(weapon_aim_ranges_spec); }
    match item {
        Item::Knife => Some(knife_ranges()),
        Item::HandgunLeon => Some(handgun_ranges()),
        Item::HandgunClaire => Some(handgun_ranges()),
        Item::CustomHandgun => Some(handgun_ranges()),
        Item::Magnum => Some(magnum_ranges()),
        Item::CustomMagnum => Some(magnum_ranges()),
        Item::Shotgun => Some(shotgun_ranges()),
        Item::CustomShotgun => Some(custom_shotgun_ranges()),
        Item::ColtSaa => Some(handgun_ranges()),
        Item::Sparkshot => Some(sparkshot_ranges()),
        Item::SubMachinegun => Some(handgun_ranges()),
        Item::GatlingGun => Some(gatling_gun_ranges()),
        Item::Beretta => Some(handgun_ranges()),
        _ => None,
    }
}

/// The corner and size of hit bounds as two vectors.
pub fn convert_bounds(bounds: &HitBounds) -> (r: (Vec2, Vec2))
    ensures
        r == (Vec2 { x: Fixed12(bounds.x), z: Fixed12(bounds.z) },
            Vec2 { x: Fixed12(bounds.x_size_half), z: Fixed12(bounds.z_size_quarter) }),
{
    (
        Vec2::new(Fixed12(bounds.x), Fixed12(bounds.z)),
        Vec2::new(Fixed12(bounds.x_size_half), Fixed12(bounds.z_size_quarter)),
    )
}

/// The hit ranges of the player's weapon as the tool shows them: where the player stands and
/// faces, and the three hit bounds (position and size) of the range aimed at.
#[derive(Debug, Clone, Copy)]
pub struct WeaponRangeVisualization {
    pub weapon: Item,
    pub pos: Vec2,
    pub angle: Fixed12,
    pub aim_range: [(Vec2, Vec2); 3],
}

/// What the weapon range display reads of the player: position, facing, whether the player
/// is in the weapon state, and the equipped weapon.
#[derive(Debug, Clone, Copy)]
pub struct AimingPlayer {
    pub pos: Vec2,
    pub angle: Fixed12,
    pub is_weapon_state: bool,
    pub weapon: Option<Item>,
}

/// The range aimed at: high when forward is held, low when back is held, straight otherwise.
pub open spec fn selected_range(r: WeaponAimRanges, input: InputState) -> WeaponRange {
    if input.is_forward_pressed { r.high } else if input.is_backward_pressed { r.low } else { r.mid }
}

/// A range that hits nothing: no zone aimed at, or no bounds with an area.
pub open spec fn range_is_empty(r: WeaponRange) -> bool {
    (r.aim_zones[0] == AimZone::NoZone && r.aim_zones[1] == AimZone::NoZone && r.aim_zones[2] == AimZone::NoZone)
        || !(r.hit_bounds[0].has_area_spec() || r.hit_bounds[1].has_area_spec() || r.hit_bounds[2].has_area_spec())
}

/// The largest x (or z) size among `sizes`, and at least zero.
pub open spec fn max_size(sizes: Seq<Vec2>, use_x: bool) -> i16
    decreases sizes.len(),
{
    if sizes.len() == 0 {
        0
    } else {
        let rest = max_size(sizes.drop_last(), use_x);
        let v = if use_x { sizes.last().x.0 } else { sizes.last().z.0 };
        if v > rest { v } else { rest }
    }
}

/// Bounds widened by the given sizes when they have an area (the x size only when `grow_x`).
pub open spec fn grown_bounds(b: HitBounds, dx: i16, dz: i16, grow_x: bool) -> (Vec2, Vec2) {
    let pos = Vec2 { x: Fixed12(b.x), z: Fixed12(b.z) };
    let size = Vec2 { x: Fixed12(b.x_size_half), z: Fixed12(b.z_size_quarter) };
    if b.has_area_spec() {
        (pos, Vec2 {
            x: if grow_x { Fixed12((b.x_size_half + dx) as i16) } else { size.x },
            z: Fixed12((b.z_size_quarter + dz) as i16),
        })
    } else {
        (pos, size)
    }
}

/// The weapon range shown for a weapon with the given ranges: none if the range aimed at hits
/// nothing. The bounds are widened by a quarter of the largest enemy's size: the first in both
/// directions, the others in depth only.
pub open spec fn range_view(w: Item, p: AimingPlayer, ranges: WeaponAimRanges, input: InputState, enemy_sizes: Seq<Vec2>) -> Option<WeaponRangeVisualization> {
    let r = selected_range(ranges, input);
    if range_is_empty(r) {
        None
    } else {
        let dx = max_size(enemy_sizes, true) >> 2u32;
        let dz = max_size(enemy_sizes, false) >> 2u32;
        Some(WeaponRangeVisualization {
            weapon: w,
            pos: p.pos,
            angle: p.angle,
            aim_range: [
                grown_bounds(r.hit_bounds[0], dx, dz, true),
                grown_bounds(r.hit_bounds[1], dx, dz, false),
                grown_bounds(r.hit_bounds[2], dx, dz, false),
            ],
        })
    }
}

/// The weapon range shown for a player: none unless the player is in the weapon state with a
/// weapon that uses ranges and the range aimed at hits something.
pub open spec fn weapon_range_for(player: Option<AimingPlayer>, input: InputState, enemy_sizes: Seq<Vec2>) -> Option<WeaponRangeVisualization> {
    match player {
        None => None,
        Some(p) => if !p.is_weapon_state {
            None
        } else {
            match p.weapon {
                None => None,
                Some(w) => match weapon_aim_ranges_spec(w) {
                    None => None,
                    Some(ranges) => range_view(w, p, ranges, input, enemy_sizes),
                },
            }
        },
    }
}

/// Every hit bound size in the tables is between 0 and 0x2400.
pub open spec fn range_sizes_small(r: WeaponRange) -> bool {
    forall|i: int| 0 <= i < 3 ==> 0 <= #[trigger] r.hit_bounds[i].x_size_half <= 0x2400
        && 0 <= r.hit_bounds[i].z_size_quarter <= 0x2400
}

/// Every range of a weapon's table has small sizes.
pub open spec fn ranges_small(r: WeaponAimRanges) -> bool {
    range_sizes_small(r.low) && range_sizes_small(r.mid) && range_sizes_small(r.high)
}

proof fn lemma_ranges_small(item: Item)
    ensures
        weapon_aim_ranges_spec(item) matches Some(r) ==> ranges_small(r),
{
    reveal(weapon_aim_ranges_spec);
    match item {
        Item::Knife => assert(ranges_small(knife_ranges_spec())),
        Item::HandgunLeon | Item::HandgunClaire | Item::CustomHandgun | Item::ColtSaa | Item::SubMachinegun
            | Item::Beretta => assert(ranges_small(handgun_ranges_spec())),
        Item::Magnum | Item::CustomMagnum => assert(ranges_small(magnum_ranges_spec())),
        Item::Shotgun => assert(ranges_small(shotgun_ranges_spec())),
        Item::CustomShotgun => assert(ranges_small(custom_shotgun_ranges_spec())),
        Item::Sparkshot => assert(ranges_small(sparkshot_ranges_spec())),
        Item::GatlingGun => assert(ranges_small(gatling_gun_ranges_spec())),
        _ => {},
    }
}

fn max_enemy_size(sizes: &[Vec2], use_x: bool) -> (r: i16)
    ensures
        r == max_size(sizes@, use_x),
        r >= 0,
{
    let mut m: i16 = 0;
    let mut i: usize = 0;
    while i < sizes.len()
        invariant
            i <= sizes@.len(),
            m == max_size(sizes@.take(i as int), use_x),
            m >= 0,
        decreases sizes@.len() - i,
    {
        let v = if use_x { sizes[i].x.0 } else { sizes[i].z.0 };
        if v > m {
            m = v;
        }
        proof {
            assert(sizes@.take(i + 1).drop_last() =~= sizes@.take(i as int));
        }
        i += 1;
    }
    assert(sizes@.take(i as int) =~= sizes@);
    m
}

fn grow_bounds(b: &HitBounds, dx: i16, dz: i16, grow_x: bool) -> (r: (Vec2, Vec2))
    requires
        0 <= b.x_size_half <= 0x2400,
        0 <= b.z_size_quarter <= 0x2400,
        0 <= dx <= 0x2000,
        0 <= dz <= 0x2000,
    ensures
        r == grown_bounds(*b, dx, dz, grow_x),
{
    let mut bounds = convert_bounds(b);
    if b.has_area() {
        if grow_x {
            bounds.1.x = Fixed12(bounds.1.x.0 + dx);
        }
        bounds.1.z = Fixed12(bounds.1.z.0 + dz);
    }
    bounds
}

impl WeaponRangeVisualization {
    fn from_ranges(weapon: Item, p: &AimingPlayer, aim_ranges: &WeaponAimRanges, input: &InputState, enemy_sizes: &[Vec2]) -> (r: Option<Self>)
        requires
            ranges_small(*aim_ranges),
        ensures
            r == range_view(weapon, *p, *aim_ranges, *input, enemy_sizes@),
    {
        let aim_range = if input.is_forward_pressed {
            aim_ranges.high
        } else if input.is_backward_pressed {
            aim_ranges.low
        } else {
            aim_ranges.mid
        };
        if aim_range.is_empty() {
            return None;
        }
        let x_max = max_enemy_size(enemy_sizes, true);
        let z_max = max_enemy_size(enemy_sizes, false);
        let x_size = x_max >> 2u32;
        let z_size = z_max >> 2u32;
        assert(0 <= x_size <= 0x2000 && 0 <= z_size <= 0x2000) by (bit_vector)
            requires
                x_size == x_max >> 2u32,
                z_size == z_max >> 2u32,
                x_max >= 0,
                z_max >= 0;
        assert(range_sizes_small(aim_range));
        assert(0 <= aim_range.hit_bounds[0].x_size_half <= 0x2400 && 0 <= aim_range.hit_bounds[0].z_size_quarter <= 0x2400);
        assert(0 <= aim_range.hit_bounds[1].x_size_half <= 0x2400 && 0 <= aim_range.hit_bounds[1].z_size_quarter <= 0x2400);
        assert(0 <= aim_range.hit_bounds[2].x_size_half <= 0x2400 && 0 <= aim_range.hit_bounds[2].z_size_quarter <= 0x2400);
        let bounds0 = grow_bounds(&aim_range.hit_bounds[0], x_size, z_size, true);
        let bounds1 = grow_bounds(&aim_range.hit_bounds[1], x_size, z_size, false);
        let bounds2 = grow_bounds(&aim_range.hit_bounds[2], x_size, z_size, false);
        Some(Self { weapon, pos: p.pos, angle: p.angle, aim_range: [bounds0, bounds1, bounds2] })
    }

    /// The weapon range to show for the player, given the sizes of the enemies in the room.
    pub fn for_state(player: Option<AimingPlayer>, input: &InputState, enemy_sizes: &[Vec2]) -> (r: Option<Self>)
        ensures
            r == weapon_range_for(player, *input, enemy_sizes@),
    {
        let p = match player {
            None => return None,
            Some(p) => p,
        };
        if !p.is_weapon_state {
            return None;
        }
        let weapon = match p.weapon {
            None => return None,
            Some(w) => w,
        };
        let aim_ranges = match get_weapon_aim_ranges(weapon) {
            None => return None,
            Some(r) => r,
        };
        proof { lemma_ranges_small(weapon); }
        Self::from_ranges(weapon, &p, &aim_ranges, input, enemy_sizes)
    }
}

} // verus!
