//! Objects of a room and how they are told apart: floors, collision masks, object kinds.

use vstd::prelude::*;
use crate::ai::BehaviorType;
use crate::text::{decimal, decimal_string, lemma_decimal_nonempty, push_decimal};

verus! {

/// Height of one floor level in the game's units.
pub const FLOOR_HEIGHT: i32 = -1800;

/// Which floors something is on: a mask of floors, a floor number, or an AOT's floor byte
/// (whose high bit means any floor).
#[derive(Debug, Clone, Copy, PartialEq, Eq, Structural)]
pub enum Floor {
    Mask(u32),
    Id(u8),
    Aot(u8),
}

impl Floor {
    /// The AOT floor that matches every floor.
    pub fn any() -> (r: Self)
        ensures
            r == Floor::Aot(0x80),
    {
        Floor::Aot(0x80)
    }

    pub open spec fn matches_any_spec(self) -> bool {
        match self {
            Floor::Aot(f) => f >= 0x80,
            _ => false,
        }
    }

    /// Whether this is an AOT floor with the "any floor" bit.
    pub fn matches_any(&self) -> (r: bool)
        ensures
            r == self.matches_any_spec(),
    {
        if let Floor::Aot(floor) = self {
            assert((*floor & 0x80 != 0) == (*floor >= 0x80)) by (bit_vector);
            *floor & 0x80 != 0
        } else {
            false
        }
    }

    /// The floors as a bit mask: all bits for "any", otherwise the floor's bit (floor numbers
    /// taken modulo 32).
    pub open spec fn mask_spec(self) -> u32 {
        match self {
            Floor::Mask(m) => m,
            Floor::Aot(f) => if f >= 0x80 { 0xFFFF_FFFF } else { 1u32 << ((f % 32) as u32) },
            Floor::Id(f) => 1u32 << ((f % 32) as u32),
        }
    }

    pub fn mask(&self) -> (r: u32)
        ensures
            r == self.mask_spec(),
    {
        match self {
            Floor::Mask(mask) => *mask,
            Floor::Aot(floor) => {
                if self.matches_any() {
                    0xFFFF_FFFF
                } else {
                    1u32 << ((*floor % 32) as u32)
                }
            },
            Floor::Id(floor) => 1u32 << ((*floor % 32) as u32),
        }
    }

    pub open spec fn matches_spec(self, other: Floor) -> bool {
        self.mask_spec() & other.mask_spec() != 0
    }

    /// Whether the two share a floor.
    pub fn matches(&self, other: Floor) -> (r: bool)
        ensures
            r == self.matches_spec(other),
    {
        self.mask() & other.mask() != 0
    }

    /// The height of a single floor (none for masks and "any").
    pub fn y(&self) -> (r: Option<i32>)
        ensures
            r == match self {
                Floor::Id(f) => Some((f * FLOOR_HEIGHT) as i32),
                Floor::Aot(f) => if f >= 0x80 { None } else { Some((f * FLOOR_HEIGHT) as i32) },
                Floor::Mask(_) => None,
            },
    {
        match self {
            Floor::Id(floor) => Some(*floor as i32 * FLOOR_HEIGHT),
            Floor::Aot(floor) => {
                if self.matches_any() {
                    None
                } else {
                    Some(*floor as i32 * FLOOR_HEIGHT)
                }
            },
            Floor::Mask(_) => None,
        }
    }

    /// The text of a floor: its number, "Any" for the AOT floor that matches every floor, and
    /// for a mask the numbers of its floors in increasing order, separated by ", ".
    pub open spec fn text_spec(self) -> Seq<char> {
        match self {
            Floor::Id(f) => decimal(f as nat),
            Floor::Aot(f) => if f >= 0x80 { "Any"@ } else { decimal(f as nat) },
            Floor::Mask(m) => mask_text(m, 32),
        }
    }

    pub fn to_text(&self) -> (s: String)
        ensures
            s@ == self.text_spec(),
    {
        match self {
            Floor::Id(floor) => decimal_string(*floor as u64),
            Floor::Aot(floor) => {
                if self.matches_any() {
                    "Any".to_owned()
                } else {
                    decimal_string(*floor as u64)
                }
            },
            Floor::Mask(mask) => {
                let mut s = String::new();
                let mut wrote = false;
                let mut i: u32 = 0;
                while i < 32
                    invariant
                        i <= 32,
                        s@ == mask_text(*mask, i as nat),
                        wrote == (s@.len() > 0),
                    decreases 32 - i,
                {
                    if *mask & (1u32 << i) != 0 {
                        if wrote {
                            s.append(", ");
                        } else {
                            wrote = true;
                        }
                        push_decimal(&mut s, i as u64);
                        proof {
                            reveal_strlit(", ");
                            lemma_decimal_nonempty(i as nat);
                        }
                    }
                    i = i + 1;
                }
                s
            },
        }
    }
}

/// The numbers of the bits below `n` that are set in `m`, in increasing order, separated by ", ".
pub open spec fn mask_text(m: u32, n: nat) -> Seq<char>
    decreases n,
{
    if n == 0 {
        seq![]
    } else {
        let prev = mask_text(m, (n - 1) as nat);
        let i = (n - 1) as nat;
        if m & (1u32 << (i as u32)) != 0 {
            prev + (if prev.len() > 0 { ", "@ } else { seq![] }) + decimal(i)
        } else {
            prev
        }
    }
}

/// Matching floors is symmetric, and "any" matches every floor.
pub proof fn lemma_floor_matches(a: Floor, b: Floor)
    ensures
        a.matches_spec(b) == b.matches_spec(a),
        Floor::Aot(0x80).matches_spec(b) <==> b.mask_spec() != 0,
{
    let ma = a.mask_spec();
    let mb = b.mask_spec();
    assert((ma & mb != 0) == (mb & ma != 0)) by (bit_vector);
    assert((0xFFFF_FFFFu32 & mb != 0) == (mb != 0)) by (bit_vector);
}

/// A position on the horizontal plane in the game's 32-bit units.
#[derive(Debug, Clone, Copy, PartialEq, Eq, Structural)]
pub struct WorldVec {
    pub x: i32,
    pub z: i32,
}

/// A placed object's footprint, floors and collision masks.
#[derive(Debug, Clone, Copy)]
pub struct WorldPos {
    pub pos: WorldVec,
    pub size: WorldVec,
    pub floor: Floor,
    pub collision_mask: u16,
    pub collision_deny_mask: u16,
    pub quadrant_mask: Option<u16>,
}

impl WorldPos {
    pub fn new(pos: WorldVec, size: WorldVec, floor: Floor, collision_mask: u16, collision_deny_mask: u16) -> (r: Self)
        ensures
            r.pos == pos,
            r.size == size,
            r.floor == floor,
            r.collision_mask == collision_mask,
            r.collision_deny_mask == collision_deny_mask,
            r.quadrant_mask is None,
    {
        Self { pos, size, floor, collision_mask, collision_deny_mask, quadrant_mask: None }
    }

    /// A point that collides with everything on its floors.
    pub fn point(pos: WorldVec, floor: Floor) -> (r: Self)
        ensures
            r.pos == pos,
            r.size == (WorldVec { x: 0, z: 0 }),
            r.floor == floor,
            r.collision_mask == 0xffff,
            r.collision_deny_mask == 0,
            r.quadrant_mask is None,
    {
        Self {
            pos,
            size: WorldVec { x: 0, z: 0 },
            floor,
            collision_mask: 0xffff,
            collision_deny_mask: 0,
            quadrant_mask: None,
        }
    }

    /// A rectangle that collides with everything on its floors.
    pub fn rect(pos: WorldVec, size: WorldVec, floor: Floor) -> (r: Self)
        ensures
            r.pos == pos,
            r.size == size,
            r.floor == floor,
            r.collision_mask == 0xffff,
            r.collision_deny_mask == 0,
            r.quadrant_mask is None,
    {
        Self { pos, size, floor, collision_mask: 0xffff, collision_deny_mask: 0, quadrant_mask: None }
    }

    pub fn with_quadrant_mask(self, quadrant_mask: u16) -> (r: Self)
        ensures
            r.pos == self.pos,
            r.size == self.size,
            r.floor == self.floor,
            r.collision_mask == self.collision_mask,
            r.collision_deny_mask == self.collision_deny_mask,
            r.quadrant_mask == Some(quadrant_mask),
    {
        let mut r = self;
        r.quadrant_mask = Some(quadrant_mask);
        r
    }

    pub open spec fn can_collide_with_spec(self, other: Self) -> bool {
        &&& self.floor.matches_spec(other.floor)
        &&& self.collision_mask & other.collision_mask != 0
        &&& self.collision_deny_mask & other.collision_mask == 0
        &&& self.collision_mask & other.collision_deny_mask == 0
        &&& match (self.quadrant_mask, other.quadrant_mask) {
            (Some(a), Some(b)) => a & b != 0,
            _ => true,
        }
    }

    /// Whether the two can collide: shared floor, overlapping collision masks, neither denying
    /// the other, and overlapping quadrants when both have them.
    pub fn can_collide_with(&self, other: &Self) -> (r: bool)
        ensures
            r == self.can_collide_with_spec(*other),
    {
        self.floor.matches(other.floor) && self.collision_mask & other.collision_mask != 0
            && self.collision_deny_mask & other.collision_mask == 0
            && self.collision_mask & other.collision_deny_mask == 0
            && match (self.quadrant_mask, other.quadrant_mask) {
            (Some(self_mask), Some(other_mask)) => self_mask & other_mask != 0,
            _ => true,
        }
    }

    /// Adds to the collision mask the bit of the quadrant (relative to `cell_center`) that the
    /// position is in: bit 0 for x and z not negative, bit 1 for negative x, bit 2 for
    /// negative z, bit 3 for both negative.
    pub fn set_quadrant_mask(&mut self, cell_center: WorldVec)
        requires
            i32::MIN <= old(self).pos.x - cell_center.x <= i32::MAX,
            i32::MIN <= old(self).pos.z - cell_center.z <= i32::MAX,
        ensures
            final(self).collision_mask == old(self).collision_mask | (1u16 << ((if old(self).pos.x
                - cell_center.x < 0 { 1u16 } else { 0u16 }) + (if old(self).pos.z - cell_center.z < 0 {
                2u16
            } else {
                0u16
            }))),
            final(self).pos == old(self).pos,
            final(self).size == old(self).size,
            final(self).floor == old(self).floor,
            final(self).collision_deny_mask == old(self).collision_deny_mask,
            final(self).quadrant_mask == old(self).quadrant_mask,
    {
        let rel_x = self.pos.x - cell_center.x;
        let rel_z = self.pos.z - cell_center.z;
        let x_bit: u16 = if rel_x < 0 { 1 } else { 0 };
        let z_bits: u16 = if rel_z < 0 { 2 } else { 0 };
        self.collision_mask = self.collision_mask | (1u16 << (x_bit + z_bits));
    }
}

/// Collision is symmetric.
pub proof fn lemma_can_collide_symmetric(a: WorldPos, b: WorldPos)
    ensures
        a.can_collide_with_spec(b) == b.can_collide_with_spec(a),
{
    lemma_floor_matches(a.floor, b.floor);
    let (am, ad, bm, bd) = (a.collision_mask, a.collision_deny_mask, b.collision_mask, b.collision_deny_mask);
    assert((am & bm != 0) == (bm & am != 0)) by (bit_vector);
    assert((ad & bm == 0) == (bm & ad == 0)) by (bit_vector);
    assert((am & bd == 0) == (bd & am == 0)) by (bit_vector);
    if let (Some(x), Some(y)) = (a.quadrant_mask, b.quadrant_mask) {
        assert((x & y != 0) == (y & x != 0)) by (bit_vector);
    }
}

/// The kinds of AOT (area of trigger) in a room script.
#[derive(Debug, Copy, Clone, PartialEq, Eq, Hash, Structural)]
pub enum SceType {
    Auto,
    Door,
    Item,
    Normal,
    Message,
    Event,
    FlagChg,
    Water,
    Move,
    Save,
    ItemBox,
    Damage,
    Status,
    Hikidashi,
    Windows,
    Unknown,
}

impl SceType {
    /// The kind for a script's type byte (anything past 14 is unknown).
    pub fn from_u8(value: u8) -> (r: Self)
        ensures
            r == SceType::from_u8_spec(value),
            value > 14 <==> r == SceType::Unknown,
    {
        match value {
            0 => SceType::Auto,
            1 => SceType::Door,
            2 => SceType::Item,
            3 => SceType::Normal,
            4 => SceType::Message,
            5 => SceType::Event,
            6 => SceType::FlagChg,
            7 => SceType::Water,
            8 => SceType::Move,
            9 => SceType::Save,
            10 => SceType::ItemBox,
            11 => SceType::Damage,
            12 => SceType::Status,
            13 => SceType::Hikidashi,
            14 => SceType::Windows,
            _ => SceType::Unknown,
        }
    }

    /// The script's type byte (0xFF for unknown).
    pub fn to_u8(&self) -> (r: u8)
        ensures
            *self == SceType::Unknown <==> r == 0xFF,
            r != 0xFF ==> SceType::from_u8_spec(r) == *self,
    {
        match self {
            SceType::Auto => 0,
            SceType::Door => 1,
            SceType::Item => 2,
            SceType::Normal => 3,
            SceType::Message => 4,
            SceType::Event => 5,
            SceType::FlagChg => 6,
            SceType::Water => 7,
            SceType::Move => 8,
            SceType::Save => 9,
            SceType::ItemBox => 10,
            SceType::Damage => 11,
            SceType::Status => 12,
            SceType::Hikidashi => 13,
            SceType::Windows => 14,
            SceType::Unknown => 0xFF,
        }
    }

    pub open spec fn from_u8_spec(value: u8) -> Self {
        if value == 0 { SceType::Auto }
        else if value == 1 { SceType::Door }
        else if value == 2 { SceType::Item }
        else if value == 3 { SceType::Normal }
        else if value == 4 { SceType::Message }
        else if value == 5 { SceType::Event }
        else if value == 6 { SceType::FlagChg }
        else if value == 7 { SceType::Water }
        else if value == 8 { SceType::Move }
        else if value == 9 { SceType::Save }
        else if value == 10 { SceType::ItemBox }
        else if value == 11 { SceType::Damage }
        else if value == 12 { SceType::Status }
        else if value == 13 { SceType::Hikidashi }
        else if value == 14 { SceType::Windows }
        else { SceType::Unknown }
    }
}

/// What kind of character something is, as far as collision and display care.
#[derive(Debug, Eq, PartialEq, Copy, Clone, Structural)]
pub enum CharacterType {
    Player,
    Ally,
    Neutral,
    Enemy,
}

/// Everything that can be drawn and selected in a room.
#[derive(Debug, PartialEq, Eq, Hash, Clone, Copy, Structural)]
pub enum ObjectType {
    Floor,
    Collider,
    Auto,
    Door,
    Item,
    Normal,
    Message,
    Event,
    FlagChg,
    Water,
    Move,
    Save,
    ItemBox,
    Damage,
    Status,
    Hikidashi,
    Windows,
    Object,
    Enemy,
    Player,
    Ally,
    Neutral,
    AiHitZone,
    AiAttackZone,
    AiAggroZone,
    AiTacticZone,
    WeaponRange,
    CharacterPath,
}

impl ObjectType {
    pub open spec fn name_spec(self) -> Seq<char> {
        match self {
            ObjectType::Floor => "Floor"@,
            ObjectType::Collider => "Collider"@,
            ObjectType::Auto => "Auto AOT"@,
            ObjectType::Door => "Door"@,
            ObjectType::Item => "Item"@,
            ObjectType::Normal => "Normal AOT"@,
            ObjectType::Message => "Message"@,
            ObjectType::Event => "Event"@,
            ObjectType::FlagChg => "Flag Change"@,
            ObjectType::Water => "Water"@,
            ObjectType::Move => "Move AOT"@,
            ObjectType::Save => "Typewriter"@,
            ObjectType::ItemBox => "Item Box"@,
            ObjectType::Damage => "Damage AOT"@,
            ObjectType::Status => "Status AOT"@,
            ObjectType::Hikidashi => "Hikidashi AOT"@,
            ObjectType::Windows => "Windows"@,
            ObjectType::Object => "Object"@,
            ObjectType::Enemy => "Enemy"@,
            ObjectType::Player => "Player"@,
            ObjectType::Ally => "NPC Ally"@,
            ObjectType::Neutral => "NPC"@,
            ObjectType::AiHitZone => "AI Hit Zone"@,
            ObjectType::AiAttackZone => "AI Attack Zone"@,
            ObjectType::AiAggroZone => "AI Aggro Zone"@,
            ObjectType::AiTacticZone => "AI Tactic Zone"@,
            ObjectType::WeaponRange => "Weapon Range"@,
            ObjectType::CharacterPath => "Character Path"@,
        }
    }

    /// The display name of the kind.
    pub fn name(&self) -> (r: &'static str)
        ensures
            r@ == self.name_spec(),
    {
        match self {
            ObjectType::Floor => "Floor",
            ObjectType::Collider => "Collider",
            ObjectType::Auto => "Auto AOT",
            ObjectType::Door => "Door",
            ObjectType::Item => "Item",
            ObjectType::Normal => "Normal AOT",
            ObjectType::Message => "Message",
            ObjectType::Event => "Event",
            ObjectType::FlagChg => "Flag Change",
            ObjectType::Water => "Water",
            ObjectType::Move => "Move AOT",
            ObjectType::Save => "Typewriter",
            ObjectType::ItemBox => "Item Box",
            ObjectType::Damage => "Damage AOT",
            ObjectType::Status => "Status AOT",
            ObjectType::Hikidashi => "Hikidashi AOT",
            ObjectType::Windows => "Windows",
            ObjectType::Object => "Object",
            ObjectType::Enemy => "Enemy",
            ObjectType::Player => "Player",
            ObjectType::Ally => "NPC Ally",
            ObjectType::Neutral => "NPC",
            ObjectType::AiHitZone => "AI Hit Zone",
            ObjectType::AiAttackZone => "AI Attack Zone",
            ObjectType::AiAggroZone => "AI Aggro Zone",
            ObjectType::AiTacticZone => "AI Tactic Zone",
            ObjectType::WeaponRange => "Weapon Range",
            ObjectType::CharacterPath => "Character Path",
        }
    }

    pub open spec fn is_ai_zone_spec(self) -> bool {
        self is AiAggroZone || self is AiAttackZone || self is AiHitZone || self is AiTacticZone
    }

    pub open spec fn is_aot_spec(self) -> bool {
        self is Auto || self is Door || self is Item || self is Normal || self is Message || self is Event
            || self is FlagChg || self is Water || self is Move || self is Save || self is ItemBox
            || self is Damage || self is Status || self is Hikidashi || self is Windows
    }

    pub open spec fn is_character_spec(self) -> bool {
        self is Enemy || self is Player || self is Ally || self is Neutral
    }

    pub fn is_ai_zone(&self) -> (r: bool)
        ensures
            r == self.is_ai_zone_spec(),
    {
        matches!(self, ObjectType::AiAggroZone | ObjectType::AiAttackZone | ObjectType::AiHitZone | ObjectType::AiTacticZone)
    }

    pub fn is_aot(&self) -> (r: bool)
        ensures
            r == self.is_aot_spec(),
    {
        matches!(
            self,
            ObjectType::Auto | ObjectType::Door | ObjectType::Item | ObjectType::Normal | ObjectType::Message
                | ObjectType::Event | ObjectType::FlagChg | ObjectType::Water | ObjectType::Move | ObjectType::Save
                | ObjectType::ItemBox | ObjectType::Damage | ObjectType::Status | ObjectType::Hikidashi
                | ObjectType::Windows
        )
    }

    pub fn is_character(&self) -> (r: bool)
        ensures
            r == self.is_character_spec(),
    {
        matches!(self, ObjectType::Enemy | ObjectType::Player | ObjectType::Ally | ObjectType::Neutral)
    }

    pub fn is_collider(&self) -> (r: bool)
        ensures
            r == (*self is Collider),
    {
        matches!(self, ObjectType::Collider)
    }

    pub fn is_floor(&self) -> (r: bool)
        ensures
            r == (*self is Floor),
    {
        matches!(self, ObjectType::Floor)
    }

    /// The kind drawn for an AOT type (unknown AOTs are drawn as auto AOTs, flag changes as
    /// events).
    pub open spec fn from_sce_type_spec(value: SceType) -> Self {
        match value {
            SceType::Auto | SceType::Unknown => ObjectType::Auto,
            SceType::Door => ObjectType::Door,
            SceType::Item => ObjectType::Item,
            SceType::Normal => ObjectType::Normal,
            SceType::Message => ObjectType::Message,
            SceType::Event | SceType::FlagChg => ObjectType::Event,
            SceType::Water => ObjectType::Water,
            SceType::Move => ObjectType::Move,
            SceType::Save => ObjectType::Save,
            SceType::ItemBox => ObjectType::ItemBox,
            SceType::Damage => ObjectType::Damage,
            SceType::Status => ObjectType::Status,
            SceType::Hikidashi => ObjectType::Hikidashi,
            SceType::Windows => ObjectType::Windows,
        }
    }

    pub fn from_sce_type(value: SceType) -> (r: Self)
        ensures
            r == Self::from_sce_type_spec(value),
    {
        match value {
            SceType::Auto | SceType::Unknown => ObjectType::Auto,
            SceType::Door => ObjectType::Door,
            SceType::Item => ObjectType::Item,
            SceType::Normal => ObjectType::Normal,
            SceType::Message => ObjectType::Message,
            SceType::Event => ObjectType::Event,
            SceType::FlagChg => ObjectType::Event,
            SceType::Water => ObjectType::Water,
            SceType::Move => ObjectType::Move,
            SceType::Save => ObjectType::Save,
            SceType::ItemBox => ObjectType::ItemBox,
            SceType::Damage => ObjectType::Damage,
            SceType::Status => ObjectType::Status,
            SceType::Hikidashi => ObjectType::Hikidashi,
            SceType::Windows => ObjectType::Windows,
        }
    }

    pub fn from_character_type(value: CharacterType) -> (r: Self)
        ensures
            r == match value {
                CharacterType::Player => ObjectType::Player,
                CharacterType::Ally => ObjectType::Ally,
                CharacterType::Neutral => ObjectType::Neutral,
                CharacterType::Enemy => ObjectType::Enemy,
            },
    {
        match value {
            CharacterType::Player => ObjectType::Player,
            CharacterType::Ally => ObjectType::Ally,
            CharacterType::Neutral => ObjectType::Neutral,
            CharacterType::Enemy => ObjectType::Enemy,
        }
    }

    pub fn from_behavior_type(value: BehaviorType) -> (r: Self)
        ensures
            r == match value {
                BehaviorType::Hit => ObjectType::AiHitZone,
                BehaviorType::Attack => ObjectType::AiAttackZone,
                BehaviorType::Aggro => ObjectType::AiAggroZone,
                BehaviorType::ChangeTactic => ObjectType::AiTacticZone,
            },
    {
        match value {
            BehaviorType::Hit => ObjectType::AiHitZone,
            BehaviorType::Attack => ObjectType::AiAttackZone,
            BehaviorType::Aggro => ObjectType::AiAggroZone,
            BehaviorType::ChangeTactic => ObjectType::AiTacticZone,
        }
    }
}

/// What the user has selected or hovers over.
#[derive(Debug, Clone, Copy, PartialEq, Eq, Structural)]
pub enum SelectedObject {
    NoObject,
    Entity(usize),
    Collider(usize),
    Floor(usize),
    Object(usize),
    Character(usize),
    AiZone(usize),
}

impl SelectedObject {
    pub open spec fn for_object_type_spec(object_type: ObjectType, index: usize) -> Self {
        if object_type.is_character_spec() {
            SelectedObject::Character(index)
        } else if object_type.is_ai_zone_spec() {
            SelectedObject::AiZone(index)
        } else if object_type is Object {
            SelectedObject::Object(index)
        } else if object_type.is_aot_spec() {
            SelectedObject::Entity(index)
        } else if object_type is Collider {
            SelectedObject::Collider(index)
        } else if object_type is Floor {
            SelectedObject::Floor(index)
        } else {
            SelectedObject::NoObject
        }
    }

    /// The selection for the `index`-th object of a kind (nothing for kinds that cannot be
    /// selected).
    pub fn for_object_type(object_type: ObjectType, index: usize) -> (r: Self)
        ensures
            r == Self::for_object_type_spec(object_type, index),
    {
        if object_type.is_character() {
            SelectedObject::Character(index)
        } else if object_type.is_ai_zone() {
            SelectedObject::AiZone(index)
        } else if matches!(object_type, ObjectType::Object) {
            SelectedObject::Object(index)
        } else if object_type.is_aot() {
            SelectedObject::Entity(index)
        } else if object_type.is_collider() {
            SelectedObject::Collider(index)
        } else if object_type.is_floor() {
            SelectedObject::Floor(index)
        } else {
            SelectedObject::NoObject
        }
    }

    /// Whether this selection is the `index`-th object of the given kind (never when nothing
    /// is selected).
    pub fn matches_object(&self, object_type: ObjectType, index: usize) -> (r: bool)
        ensures
            r == (!(*self is NoObject) && *self == Self::for_object_type_spec(object_type, index)),
    {
        if matches!(self, SelectedObject::NoObject) {
            return false;
        }
        *self == Self::for_object_type(object_type, index)
    }
}

impl Default for SelectedObject {
    fn default() -> (r: Self)
        ensures
            r == SelectedObject::NoObject,
    {
        SelectedObject::NoObject
    }
}

/// The tabs of the browser panel.
#[derive(Debug, Clone, Copy, PartialEq, Eq, Structural)]
pub enum BrowserTab {
    Game,
    Room,
    Settings,
    Rng,
    Recording,
    Comparison,
}

impl BrowserTab {
    /// The tabs in display order.
    pub fn list() -> (r: [BrowserTab; 6])
        ensures
            r@ == seq![BrowserTab::Game, BrowserTab::Room, BrowserTab::Comparison, BrowserTab::Recording,
                BrowserTab::Rng, BrowserTab::Settings],
    {
        let r = [BrowserTab::Game, BrowserTab::Room, BrowserTab::Comparison, BrowserTab::Recording, BrowserTab::Rng, BrowserTab::Settings];
        assert(r@ =~= seq![BrowserTab::Game, BrowserTab::Room, BrowserTab::Comparison, BrowserTab::Recording,
                BrowserTab::Rng, BrowserTab::Settings]);
        r
    }

    pub fn name(&self) -> (r: &'static str)
        ensures
            r@ == match self {
                BrowserTab::Game => "Game"@,
                BrowserTab::Room => "Room"@,
                BrowserTab::Settings => "Settings"@,
                BrowserTab::Rng => "RNG"@,
                BrowserTab::Recording => "Recording"@,
                BrowserTab::Comparison => "Comparison"@,
            },
    {
        match self {
            BrowserTab::Game => "Game",
            BrowserTab::Room => "Room",
            BrowserTab::Settings => "Settings",
            BrowserTab::Rng => "RNG",
            BrowserTab::Recording => "Recording",
            BrowserTab::Comparison => "Comparison",
        }
    }
}

/// Per-character display settings.
#[derive(Debug, Copy, Clone, PartialEq, Eq, Structural)]
pub struct CharacterSettings {
    pub show: bool,
    pub show_tooltip: bool,
    pub show_ai: bool,
    pub show_path: bool,
    pub show_rng_rolls: bool,
}

impl CharacterSettings {
    /// The settings for a newly seen character, with tooltips as configured.
    pub fn config_default(default_show_character_tooltips: bool) -> (r: Self)
        ensures
            r == (CharacterSettings {
                show: true,
                show_tooltip: default_show_character_tooltips,
                show_ai: true,
                show_path: false,
                show_rng_rolls: true,
            }),
    {
        Self {
            show: true,
            show_tooltip: default_show_character_tooltips,
            show_ai: true,
            show_path: false,
            show_rng_rolls: true,
        }
    }

    pub fn show_tooltip(&self) -> (r: bool)
        ensures
            r == (self.show && self.show_tooltip),
    {
        self.show && self.show_tooltip
    }

    pub fn show_ai(&self) -> (r: bool)
        ensures
            r == (self.show && self.show_ai),
    {
        self.show && self.show_ai
    }

    pub fn show_path(&self) -> (r: bool)
        ensures
            r == (self.show && self.show_path),
    {
        self.show && self.show_path
    }

    pub fn show_rng_rolls(&self) -> (r: bool)
        ensures
            r == self.show_rng_rolls,
    {
        self.show_rng_rolls
    }
}

impl Default for CharacterSettings {
    fn default() -> (r: Self)
        ensures
            r == (CharacterSettings {
                show: true,
                show_tooltip: true,
                show_ai: true,
                show_path: false,
                show_rng_rolls: true,
            }),
    {
        Self { show: true, show_tooltip: true, show_ai: true, show_path: false, show_rng_rolls: true }
    }
}

/// The default for settings that are on unless the configuration says otherwise.
pub fn default_true() -> (r: bool)
    ensures
        r,
{
    true
}

/// Vertical alignment of a text box against its anchor.
#[derive(Debug, Clone, Copy, PartialEq, Eq, Hash, Structural)]
pub enum VAlign {
    Top,
    Center,
    Bottom,
}

/// Length, first and fourth character of a name: enough to tell the kinds' names apart.
spec fn name_key(s: Seq<char>) -> (nat, char, char) {
    (s.len(), s[0], if s.len() > 3 { s[3] } else { ' ' })
}

spec fn type_key(t: ObjectType) -> (nat, char, char) {
    match t {
        ObjectType::Floor => (5nat, 'F', 'o'),
        ObjectType::Collider => (8nat, 'C', 'l'),
        ObjectType::Auto => (8nat, 'A', 'o'),
        ObjectType::Door => (4nat, 'D', 'r'),
        ObjectType::Item => (4nat, 'I', 'm'),
        ObjectType::Normal => (10nat, 'N', 'm'),
        ObjectType::Message => (7nat, 'M', 's'),
        ObjectType::Event => (5nat, 'E', 'n'),
        ObjectType::FlagChg => (11nat, 'F', 'g'),
        ObjectType::Water => (5nat, 'W', 'e'),
        ObjectType::Move => (8nat, 'M', 'e'),
        ObjectType::Save => (10nat, 'T', 'e'),
        ObjectType::ItemBox => (8nat, 'I', 'm'),
        ObjectType::Damage => (10nat, 'D', 'a'),
        ObjectType::Status => (10nat, 'S', 't'),
        ObjectType::Hikidashi => (13nat, 'H', 'i'),
        ObjectType::Windows => (7nat, 'W', 'd'),
        ObjectType::Object => (6nat, 'O', 'e'),
        ObjectType::Enemy => (5nat, 'E', 'm'),
        ObjectType::Player => (6nat, 'P', 'y'),
        ObjectType::Ally => (8nat, 'N', ' '),
        ObjectType::Neutral => (3nat, 'N', ' '),
        ObjectType::AiHitZone => (11nat, 'A', 'H'),
        ObjectType::AiAttackZone => (14nat, 'A', 'A'),
        ObjectType::AiAggroZone => (13nat, 'A', 'A'),
        ObjectType::AiTacticZone => (14nat, 'A', 'T'),
        ObjectType::WeaponRange => (12nat, 'W', 'p'),
        ObjectType::CharacterPath => (14nat, 'C', 'r'),
    }
}

proof fn lemma_name_key(t: ObjectType)
    ensures
        name_key(t.name_spec()) == type_key(t),
{
    match t {
        ObjectType::Floor => { reveal_strlit("Floor"); },
        ObjectType::Collider => { reveal_strlit("Collider"); },
        ObjectType::Auto => { reveal_strlit("Auto AOT"); },
        ObjectType::Door => { reveal_strlit("Door"); },
        ObjectType::Item => { reveal_strlit("Item"); },
        ObjectType::Normal => { reveal_strlit("Normal AOT"); },
        ObjectType::Message => { reveal_strlit("Message"); },
        ObjectType::Event => { reveal_strlit("Event"); },
        ObjectType::FlagChg => { reveal_strlit("Flag Change"); },
        ObjectType::Water => { reveal_strlit("Water"); },
        ObjectType::Move => { reveal_strlit("Move AOT"); },
        ObjectType::Save => { reveal_strlit("Typewriter"); },
        ObjectType::ItemBox => { reveal_strlit("Item Box"); },
        ObjectType::Damage => { reveal_strlit("Damage AOT"); },
        ObjectType::Status => { reveal_strlit("Status AOT"); },
        ObjectType::Hikidashi => { reveal_strlit("Hikidashi AOT"); },
        ObjectType::Windows => { reveal_strlit("Windows"); },
        ObjectType::Object => { reveal_strlit("Object"); },
        ObjectType::Enemy => { reveal_strlit("Enemy"); },
        ObjectType::Player => { reveal_strlit("Player"); },
        ObjectType::Ally => { reveal_strlit("NPC Ally"); },
        ObjectType::Neutral => { reveal_strlit("NPC"); },
        ObjectType::AiHitZone => { reveal_strlit("AI Hit Zone"); },
        ObjectType::AiAttackZone => { reveal_strlit("AI Attack Zone"); },
        ObjectType::AiAggroZone => { reveal_strlit("AI Aggro Zone"); },
        ObjectType::AiTacticZone => { reveal_strlit("AI Tactic Zone"); },
        ObjectType::WeaponRange => { reveal_strlit("Weapon Range"); },
        ObjectType::CharacterPath => { reveal_strlit("Character Path"); },
    }
}

/// Different kinds of object have different names.
pub proof fn lemma_object_type_names_distinct(a: ObjectType, b: ObjectType)
    requires
        a != b,
    ensures
        a.name_spec() != b.name_spec(),
{
    lemma_name_key(a);
    lemma_name_key(b);
}

} // verus!
