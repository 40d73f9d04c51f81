//! Characters and pushable objects of a room, and how one character pushes another aside.
//!
//! Positions are the game's fixed-point values held as their raw `i32`, and sums and
//! differences wrap around as the game's arithmetic does. Three steps of the push between two
//! characters use routines of the game that are not part of this library: the length of a
//! vector, the scaling of a value by a ratio, and the turning of a vector about the vertical
//! axis. A `CollisionPass` hands out each pair of body parts that touch, and its caller brings
//! back what those routines give for it.

use vstd::prelude::*;
use crate::collision::{abs, lt_unsigned, neg, unsigned_lt, wabs, wneg, CapsuleType, EllipseCollider, RectCollider, SpecialRectType};
use crate::world::{Floor, WorldVec};

verus! {

pub const FLAG_ENABLED: u32 = 1;
pub const FLAG_NO_COLLISION: u32 = 2;
pub const FLAG_COLLISION_RECEIVER: u32 = 4;
pub const FLAG_COLLISION_MUTUAL_EXCLUSION: u32 = 0x1000;
pub const FLAG_LIMIT_COLLISION_DISPLACEMENT: u32 = 0x100000;

/// How far, on each axis, a receiver that limits displacement moves a character in one push.
pub const COLLISION_DISPLACEMENT_LIMIT: i32 = 100;

/// A point or an extent in the game's three dimensions (y points down).
#[derive(Debug, Clone, Copy, PartialEq, Eq, Structural)]
pub struct WorldVec3 {
    pub x: i32,
    pub y: i32,
    pub z: i32,
}

pub open spec fn vadd3(a: WorldVec3, b: WorldVec3) -> WorldVec3 {
    WorldVec3 { x: a.x.wrapping_add(b.x), y: a.y.wrapping_add(b.y), z: a.z.wrapping_add(b.z) }
}

pub open spec fn vsub3(a: WorldVec3, b: WorldVec3) -> WorldVec3 {
    WorldVec3 { x: a.x.wrapping_sub(b.x), y: a.y.wrapping_sub(b.y), z: a.z.wrapping_sub(b.z) }
}

pub open spec fn zero3() -> WorldVec3 {
    WorldVec3 { x: 0, y: 0, z: 0 }
}

impl WorldVec3 {
    pub fn new(x: i32, y: i32, z: i32) -> (r: Self)
        ensures
            r == (WorldVec3 { x, y, z }),
    {
        WorldVec3 { x, y, z }
    }

    pub fn zero() -> (r: Self)
        ensures
            r == zero3(),
    {
        WorldVec3 { x: 0, y: 0, z: 0 }
    }

    /// The horizontal part.
    pub fn xz(&self) -> (r: WorldVec)
        ensures
            r == (WorldVec { x: self.x, z: self.z }),
    {
        WorldVec { x: self.x, z: self.z }
    }
}

fn add3(a: WorldVec3, b: WorldVec3) -> (r: WorldVec3)
    ensures
        r == vadd3(a, b),
{
    WorldVec3 { x: a.x.wrapping_add(b.x), y: a.y.wrapping_add(b.y), z: a.z.wrapping_add(b.z) }
}

fn sub3(a: WorldVec3, b: WorldVec3) -> (r: WorldVec3)
    ensures
        r == vsub3(a, b),
{
    WorldVec3 { x: a.x.wrapping_sub(b.x), y: a.y.wrapping_sub(b.y), z: a.z.wrapping_sub(b.z) }
}

/// A body part of a character: where it is, how large, and the radius it adds in collisions.
#[derive(Debug, Clone, Copy, PartialEq, Eq, Structural)]
pub struct Part {
    pub pos: WorldVec3,
    pub size: WorldVec3,
    pub size_offset: u16,
}

impl Part {
    pub fn new(pos: WorldVec3, size: WorldVec3, size_offset: u16) -> (r: Self)
        ensures
            r == (Part { pos, size, size_offset }),
    {
        Part { pos, size, size_offset }
    }

    pub fn from_pos(pos: WorldVec3) -> (r: Self)
        ensures
            r == (Part { pos, size: zero3(), size_offset: 0 }),
    {
        Part::new(pos, WorldVec3::zero(), 0)
    }

    pub fn from_size(size: WorldVec3, offset: u16) -> (r: Self)
        ensures
            r == (Part { pos: zero3(), size, size_offset: offset }),
    {
        Part::new(WorldVec3::zero(), size, offset)
    }

    pub fn set_pos(&mut self, pos: WorldVec3)
        ensures
            *final(self) == (Part { pos, ..*old(self) }),
    {
        self.pos = pos;
    }

    pub fn set_size(&mut self, x: i32, y: i32, z: i32, offset: u16)
        ensures
            *final(self) == (Part { size: WorldVec3 { x, y, z }, size_offset: offset, ..*old(self) }),
    {
        self.size = WorldVec3::new(x, y, z);
        self.size_offset = offset;
    }
}

/// A character of a room: its flags, where it is now and was on the frame before, its body
/// parts, shapes and state.
#[derive(Debug, Clone)]
pub struct Character {
    pub flags: u32,
    /// The game's character id byte.
    pub id: u8,
    pub center: WorldVec3,
    pub prev_center: WorldVec3,
    /// The body part slots; an empty slot holds no part.
    pub parts: Vec<Option<Part>>,
    pub part_offset: WorldVec,
    pub model_part_centers: Vec<WorldVec>,
    pub size: WorldVec,
    pub shape: EllipseCollider,
    pub outline_shape: RectCollider,
    pub angle: i32,
    pub current_health: i16,
    pub max_health: i16,
    pub state: [u8; 4],
    pub floor: Floor,
    pub velocity: WorldVec,
    pub type_: u8,
    pub index: usize,
}

pub open spec fn flag_set(flags: u32, flag: u32) -> bool {
    flags & flag != 0
}

impl Character {
    pub open spec fn enabled(self) -> bool {
        flag_set(self.flags, FLAG_ENABLED)
    }

    pub open spec fn collides(self) -> bool {
        !flag_set(self.flags, FLAG_NO_COLLISION)
    }

    pub open spec fn receives_collision(self) -> bool {
        flag_set(self.flags, FLAG_COLLISION_RECEIVER)
    }

    pub open spec fn mutually_exclusive(self) -> bool {
        flag_set(self.flags, FLAG_COLLISION_MUTUAL_EXCLUSION)
    }

    pub open spec fn limits_displacement(self) -> bool {
        flag_set(self.flags, FLAG_LIMIT_COLLISION_DISPLACEMENT)
    }

    pub fn is_enabled(&self) -> (r: bool)
        ensures
            r == self.enabled(),
    {
        self.flags & FLAG_ENABLED != 0
    }

    pub fn has_collision(&self) -> (r: bool)
        ensures
            r == self.collides(),
    {
        self.flags & FLAG_NO_COLLISION == 0
    }

    pub fn is_collision_receiver(&self) -> (r: bool)
        ensures
            r == self.receives_collision(),
    {
        self.flags & FLAG_COLLISION_RECEIVER != 0
    }

    pub fn has_collision_mutual_exclusion(&self) -> (r: bool)
        ensures
            r == self.mutually_exclusive(),
    {
        self.flags & FLAG_COLLISION_MUTUAL_EXCLUSION != 0
    }

    pub fn has_limited_collision_displacement(&self) -> (r: bool)
        ensures
            r == self.limits_displacement(),
    {
        self.flags & FLAG_LIMIT_COLLISION_DISPLACEMENT != 0
    }

    /// Whether a push of this character by `receiver` can happen at all: the receiver is
    /// enabled, both take part in collisions, not both exclude each other, and this character
    /// is not itself one that only receives.
    pub open spec fn may_collide_with(self, receiver: Character) -> bool {
        &&& receiver.enabled()
        &&& self.collides() && receiver.collides()
        &&& !(self.mutually_exclusive() && receiver.mutually_exclusive())
        &&& !self.receives_collision()
    }
}

/// A shape's extent from a radius: twice the radius, on 16 bits.
pub open spec fn doubled16(v: u16) -> i32 {
    ((v as int * 2) % 0x10000) as i32
}

fn double16(v: u16) -> (r: i32)
    ensures
        r == doubled16(v),
{
    assert(((v << 1u16) as i32) == ((v as int * 2) % 0x10000) as i32) by (bit_vector);
    (v << 1u16) as i32
}

/// Twice a 32-bit value, as a shift left by one.
pub open spec fn doubled32(v: i32) -> i32 {
    v << 1u32
}

impl Character {
    /// A character centred at `(x, y, z)` with radii `width` and `height`, whose shapes are the
    /// box of those radii about the centre; it has no body parts yet (their slots are added by
    /// whoever reads them).
    pub fn new(
        flags: u32,
        id: u8,
        health: i16,
        x: i32,
        y: i32,
        z: i32,
        width: u16,
        height: u16,
        angle: i16,
        floor: Floor,
        velocity: WorldVec,
    ) -> (r: Self)
        ensures
            r.flags == flags,
            r.id == id,
            r.center == (WorldVec3 { x, y, z }),
            r.prev_center == r.center,
            r.parts@.len() == 0,
            r.part_offset == (WorldVec { x: 0, z: 0 }),
            r.model_part_centers@.len() == 0,
            r.size == (WorldVec { x: width as i32, z: height as i32 }),
            r.shape == (EllipseCollider {
                pos: WorldVec { x: x.wrapping_sub(width as i32), z: z.wrapping_sub(height as i32) },
                size: WorldVec { x: doubled16(width), z: doubled16(height) },
                floor,
                collision_mask: 0xFFFF,
            }),
            r.outline_shape == (RectCollider {
                pos: WorldVec { x: x.wrapping_sub(width as i32), z: z.wrapping_sub(height as i32) },
                size: WorldVec { x: doubled16(width), z: doubled16(height) },
                capsule_type: CapsuleType::NoCapsule,
                special_rect_type: SpecialRectType::Plain,
                floor,
                collision_mask: 0xFFFF,
            }),
            r.angle == angle as i32,
            r.current_health == health,
            r.max_health == health,
            r.state@ == seq![0u8, 0u8, 0u8, 0u8],
            r.floor == floor,
            r.velocity == velocity,
            r.type_ == 0,
            r.index == usize::MAX,
    {
        let game_x = x.wrapping_sub(width as i32);
        let game_z = z.wrapping_sub(height as i32);
        let game_width = double16(width);
        let game_height = double16(height);
        let center = WorldVec3 { x, y, z };
        Character {
            flags,
            id,
            center,
            prev_center: center,
            parts: Vec::new(),
            part_offset: WorldVec { x: 0, z: 0 },
            model_part_centers: Vec::new(),
            size: WorldVec { x: width as i32, z: height as i32 },
            shape: EllipseCollider::new(game_x, game_z, game_width, game_height, floor),
            outline_shape: RectCollider::new(game_x, game_z, game_width, game_height, floor, CapsuleType::NoCapsule),
            angle: angle as i32,
            current_health: health,
            max_health: health,
            state: [0u8, 0u8, 0u8, 0u8],
            floor,
            velocity,
            type_: 0,
            index: usize::MAX,
        }
    }

    /// A disabled character of kind `id` at the origin.
    pub fn empty(id: u8) -> (r: Self)
        ensures
            r.flags == 0,
            r.id == id,
            r.center == zero3(),
            r.prev_center == zero3(),
            r.parts@.len() == 0,
            r.size == (WorldVec { x: 0, z: 0 }),
            r.current_health == 0,
            r.max_health == 0,
            r.floor == Floor::Id(0),
            r.velocity == (WorldVec { x: 0, z: 0 }),
            r.index == usize::MAX,
    {
        Self::new(0, id, 0, 0, 0, 0, 0, 0, 0, Floor::Id(0), WorldVec { x: 0, z: 0 })
    }

    pub fn center(&self) -> (r: WorldVec)
        ensures
            r == (WorldVec { x: self.center.x, z: self.center.z }),
    {
        self.center.xz()
    }

    pub fn center_3d(&self) -> (r: WorldVec3)
        ensures
            r == self.center,
    {
        self.center
    }

    pub fn prev_center(&self) -> (r: WorldVec)
        ensures
            r == (WorldVec { x: self.prev_center.x, z: self.prev_center.z }),
    {
        self.prev_center.xz()
    }

    pub fn prev_center_3d(&self) -> (r: WorldVec3)
        ensures
            r == self.prev_center,
    {
        self.prev_center
    }

    /// Puts the character and both its shapes on `floor`.
    pub fn set_floor(&mut self, floor: Floor)
        ensures
            *final(self) == (Character {
                floor,
                shape: EllipseCollider { floor, ..old(self).shape },
                outline_shape: RectCollider { floor, ..old(self).outline_shape },
                ..*old(self)
            }),
    {
        self.floor = floor;
        self.shape.set_floor(floor);
        self.outline_shape.set_floor(floor);
    }

    pub fn current_health(&self) -> (r: i16)
        ensures
            r == self.current_health,
    {
        self.current_health
    }

    pub fn max_health(&self) -> (r: i16)
        ensures
            r == self.max_health,
    {
        self.max_health
    }

    /// Sets the health; a character without a known maximum takes this as its maximum.
    pub fn set_health(&mut self, health: i16)
        ensures
            *final(self) == (Character {
                current_health: health,
                max_health: if old(self).max_health <= 0 { health } else { old(self).max_health },
                ..*old(self)
            }),
    {
        self.current_health = health;
        if self.max_health <= 0 {
            self.max_health = health;
        }
    }

    pub fn index(&self) -> (r: usize)
        ensures
            r == self.index,
    {
        self.index
    }

    pub fn set_index(&mut self, index: usize)
        ensures
            *final(self) == (Character { index, ..*old(self) }),
    {
        self.index = index;
    }

    pub fn parts(&self) -> (r: &[Option<Part>])
        ensures
            r@ == self.parts@,
    {
        self.parts.as_slice()
    }

    /// The horizontal position of the first body part, or the origin where there is none.
    pub fn part_center(&self) -> (r: WorldVec)
        ensures
            r == if self.parts@.len() > 0 && self.parts@[0] is Some {
                WorldVec { x: self.parts@[0].unwrap().pos.x, z: self.parts@[0].unwrap().pos.z }
            } else {
                WorldVec { x: 0, z: 0 }
            },
    {
        if self.parts.len() > 0 {
            match &self.parts[0] {
                Some(part) => part.pos.xz(),
                None => WorldVec { x: 0, z: 0 },
            }
        } else {
            WorldVec { x: 0, z: 0 }
        }
    }

    pub fn part_offset(&self) -> (r: WorldVec)
        ensures
            r == self.part_offset,
    {
        self.part_offset
    }

    pub fn set_part_offset(&mut self, part_offset: WorldVec)
        ensures
            *final(self) == (Character { part_offset, ..*old(self) }),
    {
        self.part_offset = part_offset;
    }

    pub fn model_part_centers(&self) -> (r: &[WorldVec])
        ensures
            r@ == self.model_part_centers@,
    {
        self.model_part_centers.as_slice()
    }

    /// Sets the centre of model part `i`, first adding parts at the origin up to it where there
    /// are fewer.
    pub fn set_model_part_center(&mut self, i: usize, model_part_center: WorldVec)
        requires
            i < usize::MAX,
        ensures
            final(self).model_part_centers@.len() == if i < old(self).model_part_centers@.len() {
                old(self).model_part_centers@.len() as int
            } else {
                i + 1
            },
            final(self).model_part_centers@[i as int] == model_part_center,
            forall|k: int| 0 <= k < final(self).model_part_centers@.len() && k != i ==>
                #[trigger] final(self).model_part_centers@[k] == if k < old(self).model_part_centers@.len() {
                    old(self).model_part_centers@[k]
                } else {
                    WorldVec { x: 0, z: 0 }
                },
            *final(self) == (Character { model_part_centers: final(self).model_part_centers, ..*old(self) }),
    {
        while self.model_part_centers.len() <= i
            invariant
                i < usize::MAX,
                old(self).model_part_centers@.len() <= self.model_part_centers@.len(),
                self.model_part_centers@.len() <= if i < old(self).model_part_centers@.len() {
                    old(self).model_part_centers@.len() as int
                } else {
                    i + 1
                },
                forall|k: int| 0 <= k < self.model_part_centers@.len() ==>
                    #[trigger] self.model_part_centers@[k] == if k < old(self).model_part_centers@.len() {
                        old(self).model_part_centers@[k]
                    } else {
                        WorldVec { x: 0, z: 0 }
                    },
                *self == (Character { model_part_centers: self.model_part_centers, ..*old(self) }),
            decreases i + 1 - self.model_part_centers@.len(),
        {
            self.model_part_centers.push(WorldVec { x: 0, z: 0 });
        }
        self.model_part_centers.set(i, model_part_center);
    }

    /// Moves the character's centre to `pos`, and its shapes' corners to the centre less the
    /// radii.
    pub fn set_pos(&mut self, pos: WorldVec3)
        ensures
            ({
                let corner = WorldVec { x: pos.x.wrapping_sub(old(self).size.x), z: pos.z.wrapping_sub(old(self).size.z) };
                *final(self) == (Character {
                    center: pos,
                    shape: EllipseCollider { pos: corner, ..old(self).shape },
                    outline_shape: RectCollider { pos: corner, ..old(self).outline_shape },
                    ..*old(self)
                })
            }),
    {
        self.center = pos;
        let corner = WorldVec { x: pos.x.wrapping_sub(self.size.x), z: pos.z.wrapping_sub(self.size.z) };
        self.shape.set_pos(corner);
        self.outline_shape.set_pos(corner);
    }

    pub fn set_prev_pos(&mut self, pos: WorldVec3)
        ensures
            *final(self) == (Character { prev_center: pos, ..*old(self) }),
    {
        self.prev_center = pos;
    }

    /// A copy of the character, field by field.
    pub fn copy(&self) -> (r: Character)
        ensures
            r == (Character { parts: r.parts, model_part_centers: r.model_part_centers, ..*self }),
            r.parts@ == self.parts@,
            r.model_part_centers@ == self.model_part_centers@,
    {
        let mut parts: Vec<Option<Part>> = Vec::new();
        let mut i: usize = 0;
        while i < self.parts.len()
            invariant
                i <= self.parts@.len(),
                parts@ == self.parts@.take(i as int),
            decreases self.parts@.len() - i,
        {
            parts.push(self.parts[i]);
            i += 1;
            assert(parts@ =~= self.parts@.take(i as int));
        }
        assert(parts@ =~= self.parts@);
        let mut centers: Vec<WorldVec> = Vec::new();
        let mut j: usize = 0;
        while j < self.model_part_centers.len()
            invariant
                j <= self.model_part_centers@.len(),
                centers@ == self.model_part_centers@.take(j as int),
            decreases self.model_part_centers@.len() - j,
        {
            centers.push(self.model_part_centers[j]);
            j += 1;
            assert(centers@ =~= self.model_part_centers@.take(j as int));
        }
        assert(centers@ =~= self.model_part_centers@);
        Character {
            flags: self.flags,
            id: self.id,
            center: self.center,
            prev_center: self.prev_center,
            parts,
            part_offset: self.part_offset,
            model_part_centers: centers,
            size: self.size,
            shape: self.shape,
            outline_shape: self.outline_shape,
            angle: self.angle,
            current_health: self.current_health,
            max_health: self.max_health,
            state: self.state,
            floor: self.floor,
            velocity: self.velocity,
            type_: self.type_,
            index: self.index,
        }
    }

    /// The character as it would stand after moving this frame by its own velocity from where
    /// it was: centred at the previous centre plus `directed_velocity`, its parts moved along.
    /// `directed_velocity` is the velocity turned by the character's angle, by the game's
    /// rotation routine, which is not part of this library.
    pub fn clone_for_collision(&self, directed_velocity: WorldVec3) -> (r: Character)
        ensures
            ({
                let motion_center = vadd3(self.prev_center, directed_velocity);
                &&& r == (Character { center: motion_center, parts: r.parts, model_part_centers: r.model_part_centers, ..*self })
                &&& r.model_part_centers@ == self.model_part_centers@
                &&& r.parts@.len() == self.parts@.len()
                &&& forall|k: int| 0 <= k < self.parts@.len() ==> #[trigger] r.parts@[k] == match self.parts@[k] {
                    Some(p) => Some(Part { pos: vadd3(vsub3(p.pos, self.center), motion_center), ..p }),
                    None => None,
                }
            }),
    {
        let mut clone = self.copy();
        let motion_center = add3(self.prev_center, directed_velocity);
        let mut i: usize = 0;
        while i < clone.parts.len()
            invariant
                clone == (Character { parts: clone.parts, model_part_centers: clone.model_part_centers, ..*self }),
                clone.model_part_centers@ == self.model_part_centers@,
                clone.parts@.len() == self.parts@.len(),
                motion_center == vadd3(self.prev_center, directed_velocity),
                i <= clone.parts@.len(),
                forall|k: int| 0 <= k < clone.parts@.len() ==> #[trigger] clone.parts@[k] == if k < i {
                    match self.parts@[k] {
                        Some(p) => Some(Part { pos: vadd3(vsub3(p.pos, self.center), motion_center), ..p }),
                        None => None,
                    }
                } else {
                    self.parts@[k]
                },
            decreases clone.parts@.len() - i,
        {
            match clone.parts[i] {
                Some(p) => {
                    let moved = Part { pos: add3(sub3(p.pos, self.center), motion_center), ..p };
                    clone.parts.set(i, Some(moved));
                },
                None => {},
            }
            i += 1;
        }
        clone.center = motion_center;
        clone
    }

    /// Sets the radii, and the shapes' extents to twice them.
    pub fn set_size(&mut self, width: i32, height: i32)
        ensures
            ({
                let extent = WorldVec { x: doubled32(width), z: doubled32(height) };
                *final(self) == (Character {
                    size: WorldVec { x: width, z: height },
                    shape: EllipseCollider { size: extent, ..old(self).shape },
                    outline_shape: RectCollider { size: extent, ..old(self).outline_shape },
                    ..*old(self)
                })
            }),
    {
        self.size.x = width;
        self.size.z = height;
        let extent = WorldVec { x: width << 1u32, z: height << 1u32 };
        self.shape.set_size(extent);
        self.outline_shape.set_size(extent);
    }
}

/// A pushable object of a room (a crate, a statue): its flags, centre, radii and shape.
#[derive(Debug, Clone, Copy)]
pub struct Object {
    pub flags: u32,
    pub center: WorldVec,
    pub size: WorldVec,
    pub shape: RectCollider,
    pub floor: Floor,
    pub index: usize,
}

impl Object {
    /// An object centred at `(x, z)` with radii `width` and `height`, whose shape is the box of
    /// those radii about the centre.
    pub fn new(flags: u32, x: i32, z: i32, width: u16, height: u16, floor: Floor) -> (r: Self)
        ensures
            r == (Object {
                flags,
                center: WorldVec { x, z },
                size: WorldVec { x: width as i32, z: height as i32 },
                shape: RectCollider {
                    pos: WorldVec { x: x.wrapping_sub(width as i32), z: z.wrapping_sub(height as i32) },
                    size: WorldVec { x: doubled16(width), z: doubled16(height) },
                    capsule_type: CapsuleType::NoCapsule,
                    special_rect_type: SpecialRectType::Plain,
                    floor,
                    collision_mask: 0xFFFF,
                },
                floor,
                index: usize::MAX,
            }),
    {
        let game_x = x.wrapping_sub(width as i32);
        let game_z = z.wrapping_sub(height as i32);
        Object {
            flags,
            center: WorldVec { x, z },
            size: WorldVec { x: width as i32, z: height as i32 },
            shape: RectCollider::new(game_x, game_z, double16(width), double16(height), floor, CapsuleType::NoCapsule),
            floor,
            index: usize::MAX,
        }
    }

    /// An object of no size at the origin.
    pub fn empty() -> (r: Self)
        ensures
            r == Object::empty_value(),
    {
        Self::new(0, 0, 0, 0, 0, Floor::Id(0))
    }

    /// The object that `empty` gives.
    pub open spec fn empty_value() -> Object {
        Object {
            flags: 0,
            center: WorldVec { x: 0, z: 0 },
            size: WorldVec { x: 0, z: 0 },
            shape: RectCollider {
                pos: WorldVec { x: 0, z: 0 },
                size: WorldVec { x: 0, z: 0 },
                capsule_type: CapsuleType::NoCapsule,
                special_rect_type: SpecialRectType::Plain,
                floor: Floor::Id(0),
                collision_mask: 0xFFFF,
            },
            floor: Floor::Id(0),
            index: usize::MAX,
        }
    }

    pub fn set_floor(&mut self, floor: Floor)
        ensures
            *final(self) == (Object { floor, shape: RectCollider { floor, ..old(self).shape }, ..*old(self) }),
    {
        self.floor = floor;
        self.shape.set_floor(floor);
    }

    pub fn index(&self) -> (r: usize)
        ensures
            r == self.index,
    {
        self.index
    }

    pub fn set_index(&mut self, index: usize)
        ensures
            *final(self) == (Object { index, ..*old(self) }),
    {
        self.index = index;
    }

    /// Moves the centre to `(x, z)` and the shape's corner to the centre less the radii.
    pub fn set_pos(&mut self, x: i32, z: i32)
        ensures
            *final(self) == (Object {
                center: WorldVec { x, z },
                shape: RectCollider {
                    pos: WorldVec { x: x.wrapping_sub(old(self).size.x), z: z.wrapping_sub(old(self).size.z) },
                    ..old(self).shape
                },
                ..*old(self)
            }),
    {
        self.center = WorldVec { x, z };
        self.shape.set_pos(WorldVec { x: x.wrapping_sub(self.size.x), z: z.wrapping_sub(self.size.z) });
    }

    /// Sets the radii, and the shape's extent to twice them.
    pub fn set_size(&mut self, width: i32, height: i32)
        ensures
            *final(self) == (Object {
                size: WorldVec { x: width, z: height },
                shape: RectCollider { size: WorldVec { x: doubled32(width), z: doubled32(height) }, ..old(self).shape },
                ..*old(self)
            }),
    {
        self.size = WorldVec { x: width, z: height };
        self.shape.set_size(WorldVec { x: width << 1u32, z: height << 1u32 });
    }

    /// Whether the player can push the object.
    pub fn is_pushable(&self) -> (r: bool)
        ensures
            r == (self.flags & 2 == 0),
    {
        self.flags & 2 == 0
    }
}

/// The positions a character took, frame by frame, drawn up to `limit` frames.
#[derive(Debug, Clone)]
pub struct CharacterPath {
    pub points: Vec<WorldVec>,
    pub character_id: u8,
    pub character_index: usize,
    pub floor: Floor,
    pub limit: usize,
    pub dynamic_color: bool,
}

impl CharacterPath {
    /// A path through `points`, drawn whole, coloured by speed.
    pub fn new(points: Vec<WorldVec>, character_id: u8, character_index: usize, floor: Floor) -> (r: Self)
        ensures
            r.points@ == points@,
            r.character_id == character_id,
            r.character_index == character_index,
            r.floor == floor,
            r.limit == usize::MAX,
            r.dynamic_color,
    {
        CharacterPath { points, character_id, character_index, floor, limit: usize::MAX, dynamic_color: true }
    }

    /// The number of frames the path covers.
    pub fn frames(&self) -> (r: usize)
        ensures
            r == self.points@.len(),
    {
        self.points.len()
    }

    /// The points that are drawn: the first `limit` of them.
    pub fn initial_segment(&self) -> (r: &[WorldVec])
        ensures
            r@ == self.points@.take(if self.limit < self.points@.len() { self.limit as int } else { self.points@.len() as int }),
    {
        let n = self.points.len();
        let end = if self.limit < n { self.limit } else { n };
        let r = vstd::slice::slice_subrange(self.points.as_slice(), 0, end);
        assert(r@ =~= self.points@.take(end as int));
        r
    }
}

// ---------------------------------------------------------------------------------------------
// Pushing a character out of another

/// A pair of body parts that touch: part `collider_part` of the moving character and part
/// `receiver_part` of the character it runs into, with what the push computes from them.
#[derive(Debug, Clone, Copy, PartialEq, Eq, Structural)]
pub struct Contact {
    pub receiver_part: usize,
    pub collider_part: usize,
    /// The collider part's position relative to the receiver part's.
    pub rel: WorldVec3,
    /// The two parts' collision radii together.
    pub combined_size: i32,
    /// Twice the receiver part's collision radius (on 16 bits).
    pub receiver_extent: i32,
    /// The two parts' heights together.
    pub y_size: i32,
    /// The collider part's position relative to the collider's centre.
    pub offset: WorldVec3,
    /// The receiver part's position in height (its y).
    pub receiver_part_y: i32,
}

/// What the push computes from part `c` of `collider` and part `r` of `receiver`.
pub open spec fn contact_of(collider: Character, receiver: Character, r: int, c: int) -> Contact {
    let cp = collider.parts@[c].unwrap();
    let rp = receiver.parts@[r].unwrap();
    Contact {
        receiver_part: r as usize,
        collider_part: c as usize,
        rel: vsub3(cp.pos, rp.pos),
        combined_size: cp.size_offset.wrapping_add(rp.size_offset) as i32,
        receiver_extent: ((rp.size_offset as int * 2) % 0x10000) as i32,
        y_size: cp.size.y.wrapping_add(rp.size.y),
        offset: vsub3(cp.pos, collider.center),
        receiver_part_y: rp.pos.y,
    }
}

/// The parts' square test: the relative position, shifted by the combined radius, lies
/// within twice that radius on both axes (compared as unsigned values).
pub open spec fn within_extent(ct: Contact) -> bool {
    let extent = (ct.combined_size * 2) as i32;
    &&& !unsigned_lt(extent, ct.rel.x.wrapping_add(ct.combined_size))
    &&& !unsigned_lt(extent, ct.rel.z.wrapping_add(ct.combined_size))
}

/// Part `c` of `collider` and part `r` of `receiver` both exist and pass the square test.
pub open spec fn in_contact(collider: Character, receiver: Character, r: int, c: int) -> bool {
    &&& 0 <= r < receiver.parts@.len()
    &&& 0 <= c < collider.parts@.len()
    &&& receiver.parts@[r] is Some
    &&& collider.parts@[c] is Some
    &&& within_extent(contact_of(collider, receiver, r, c))
}

/// Pair `(r1, c1)` comes no later than pair `(r2, c2)`: receiver parts in order, and for each,
/// the collider parts in order.
pub open spec fn pair_le(r1: int, c1: int, r2: int, c2: int) -> bool {
    r1 < r2 || (r1 == r2 && c1 <= c2)
}

fn contact_at(collider: &Character, receiver: &Character, r: usize, c: usize) -> (ct: Contact)
    requires
        r < receiver.parts@.len(),
        c < collider.parts@.len(),
        receiver.parts@[r as int] is Some,
        collider.parts@[c as int] is Some,
    ensures
        ct == contact_of(*collider, *receiver, r as int, c as int),
{
    let cp = collider.parts[c].unwrap();
    let rp = receiver.parts[r].unwrap();
    let so = rp.size_offset;
    assert(((so << 1u16) as i32) == ((so as int * 2) % 0x10000) as i32) by (bit_vector);
    Contact {
        receiver_part: r,
        collider_part: c,
        rel: sub3(cp.pos, rp.pos),
        combined_size: cp.size_offset.wrapping_add(rp.size_offset) as i32,
        receiver_extent: (so << 1u16) as i32,
        y_size: cp.size.y.wrapping_add(rp.size.y),
        offset: sub3(cp.pos, collider.center),
        receiver_part_y: rp.pos.y,
    }
}

fn is_within_extent(ct: &Contact) -> (r: bool)
    requires
        0 <= ct.combined_size <= 0xFFFF,
    ensures
        r == within_extent(*ct),
{
    let extent = ct.combined_size * 2;
    !lt_unsigned(extent, ct.rel.x.wrapping_add(ct.combined_size))
        && !lt_unsigned(extent, ct.rel.z.wrapping_add(ct.combined_size))
}

/// The first pair of parts, from pair `(r, c)` on, that touch.
pub fn find_contact(collider: &Character, receiver: &Character, r: usize, c: usize) -> (res: Option<Contact>)
    ensures
        match res {
            Some(ct) => {
                &&& in_contact(*collider, *receiver, ct.receiver_part as int, ct.collider_part as int)
                &&& ct == contact_of(*collider, *receiver, ct.receiver_part as int, ct.collider_part as int)
                &&& pair_le(r as int, c as int, ct.receiver_part as int, ct.collider_part as int)
                &&& forall|r2: int, c2: int|
                    pair_le(r as int, c as int, r2, c2) && !pair_le(ct.receiver_part as int, ct.collider_part as int, r2, c2)
                        ==> !#[trigger] in_contact(*collider, *receiver, r2, c2)
            },
            None => forall|r2: int, c2: int|
                pair_le(r as int, c as int, r2, c2) ==> !#[trigger] in_contact(*collider, *receiver, r2, c2),
        },
{
    let nr = receiver.parts.len();
    let nc = collider.parts.len();
    let mut i = r;
    let mut j = c;
    while i < nr
        invariant
            nr == receiver.parts@.len(),
            nc == collider.parts@.len(),
            pair_le(r as int, c as int, i as int, j as int),
            forall|r2: int, c2: int|
                pair_le(r as int, c as int, r2, c2) && !pair_le(i as int, j as int, r2, c2)
                    ==> !#[trigger] in_contact(*collider, *receiver, r2, c2),
        decreases nr - i,
    {
        if receiver.parts[i].is_some() {
            while j < nc
                invariant
                    i < nr,
                    nr == receiver.parts@.len(),
                    nc == collider.parts@.len(),
                    receiver.parts@[i as int] is Some,
                    pair_le(r as int, c as int, i as int, j as int),
                    forall|r2: int, c2: int|
                        pair_le(r as int, c as int, r2, c2) && !pair_le(i as int, j as int, r2, c2)
                            ==> !#[trigger] in_contact(*collider, *receiver, r2, c2),
                decreases nc - j,
            {
                if collider.parts[j].is_some() {
                    let ct = contact_at(collider, receiver, i, j);
                    if is_within_extent(&ct) {
                        return Some(ct);
                    }
                }
                j = j + 1;
            }
        }
        proof {
            assert forall|r2: int, c2: int|
                pair_le(r as int, c as int, r2, c2) && !pair_le(i + 1, 0, r2, c2)
                    implies !#[trigger] in_contact(*collider, *receiver, r2, c2) by {
                if r2 == i && c2 >= j {
                    assert(!in_contact(*collider, *receiver, r2, c2));
                }
            }
        }
        i = i + 1;
        j = 0;
    }
    None
}

/// How far the parts overlap, given the length of their horizontal offset as the game measures
/// it: none where the parts, so measured, do not overlap, or do not overlap in height.
pub open spec fn overlap_spec(ct: Contact, distance: i32) -> Option<i32> {
    let overlap = ct.combined_size.wrapping_sub(distance);
    if overlap <= 0 || wneg(ct.y_size) >= ct.rel.y || ct.rel.y >= ct.y_size {
        None
    } else {
        Some(overlap)
    }
}

impl Contact {
    /// How far the parts overlap, given `distance`, the length of `(rel.x, rel.z)` by the
    /// game's routine; `None` where they do not push each other.
    pub fn overlap(&self, distance: i32) -> (r: Option<i32>)
        ensures
            r == overlap_spec(*self, distance),
    {
        let overlap = self.combined_size.wrapping_sub(distance);
        if overlap <= 0 || neg(self.y_size) >= self.rel.y || self.rel.y >= self.y_size {
            None
        } else {
            Some(overlap)
        }
    }
}

/// Parts push each other only where they overlap in height, above as below: whenever the
/// collider part is `y_size` or more above or below the receiver part there is no push, and a
/// push is always by a positive amount. Where the parts do overlap in height and the combined
/// size exceeds the distance (without wrapping), the push is the combined size less the
/// distance.
pub proof fn lemma_overlap_height(ct: Contact, distance: i32)
    requires
        ct.y_size > i32::MIN,
    ensures
        (ct.rel.y <= -(ct.y_size as int) || ct.rel.y >= ct.y_size) ==> overlap_spec(ct, distance) is None,
        overlap_spec(ct, distance) matches Some(o) ==> o > 0 && -(ct.y_size as int) < ct.rel.y < ct.y_size,
        (-(ct.y_size as int) < ct.rel.y < ct.y_size && 0 < ct.combined_size - distance <= i32::MAX)
            ==> overlap_spec(ct, distance) == Some((ct.combined_size - distance) as i32),
{
    assert(wneg(ct.y_size) == -(ct.y_size as int));
}

/// The receiver's centre lies strictly between where the collider was and where it is, on
/// one axis.
pub open spec fn crossed(prev: i32, center: i32, receiver: i32) -> bool {
    (prev < receiver && receiver < center) || (receiver < prev && center < receiver)
}

/// A push shifted by the receiver part's extent against its own direction: `adjust - extent`
/// for a push that is not negative, `adjust + extent` otherwise (both wrapping).
pub open spec fn widen(adjust: i32, extent: i32) -> i32 {
    if adjust >= 0 {
        wneg(wneg(adjust).wrapping_add(extent))
    } else {
        adjust.wrapping_add(extent)
    }
}

/// A push held within the displacement limit (a push whose absolute value wraps around is
/// left as it is).
pub open spec fn limit(adjust: i32) -> i32 {
    if wabs(adjust) > COLLISION_DISPLACEMENT_LIMIT {
        if adjust < 0 { (-COLLISION_DISPLACEMENT_LIMIT) as i32 } else { COLLISION_DISPLACEMENT_LIMIT }
    } else {
        adjust
    }
}

/// The push of `collider` by `receiver` at `ct`, from the scaled offsets `x` and `z` and the
/// height `local_y` of the collider part in the collider's own frame: where the parts are apart
/// in height, an axis on which the collider passed the receiver's centre gets the receiver
/// part's extent added; a receiver that limits displacement holds each axis to the limit.
pub open spec fn displacement(collider: Character, receiver: Character, ct: Contact, x: i32, z: i32, local_y: i32) -> (i32, i32) {
    let y_distance = local_y.wrapping_add(collider.prev_center.y).wrapping_sub(ct.receiver_part_y);
    let apart = y_distance <= wneg(ct.y_size) || ct.y_size <= y_distance;
    let x1 = if apart && crossed(collider.prev_center.x, collider.center.x, receiver.center.x) {
        widen(x, ct.receiver_extent)
    } else {
        x
    };
    let z1 = if apart && crossed(collider.prev_center.z, collider.center.z, receiver.center.z) {
        widen(z, ct.receiver_extent)
    } else {
        z
    };
    if receiver.limits_displacement() {
        (limit(x1), limit(z1))
    } else {
        (x1, z1)
    }
}

fn widen_exec(adjust: i32, extent: i32) -> (r: i32)
    ensures
        r == widen(adjust, extent),
{
    if adjust >= 0 {
        neg(neg(adjust).wrapping_add(extent))
    } else {
        adjust.wrapping_add(extent)
    }
}

fn limit_exec(adjust: i32) -> (r: i32)
    ensures
        r == limit(adjust),
{
    if abs(adjust) > COLLISION_DISPLACEMENT_LIMIT {
        if adjust < 0 { -COLLISION_DISPLACEMENT_LIMIT } else { COLLISION_DISPLACEMENT_LIMIT }
    } else {
        adjust
    }
}

/// A push of one character by another, in progress. Its caller asks it for each pair of parts
/// that touch (`next_contact`), measures the pair with the game's routines, and hands the
/// results back (`Contact::overlap`, then `push`); `finish` gives the character and whether it
/// was pushed.
pub struct CollisionPass<'a> {
    pub collider: Character,
    pub receiver: &'a Character,
    pub receiver_part: usize,
    pub collider_part: usize,
    pub had_collision: bool,
    pub finished: bool,
}

impl Character {
    /// Starts pushing this character out of `receiver`. Where no push can happen (see
    /// `may_collide_with`) the pass is finished at once.
    pub fn collide_with<'a>(self, receiver: &'a Character) -> (pass: CollisionPass<'a>)
        ensures
            pass.collider == self,
            pass.receiver == receiver,
            pass.receiver_part == 0,
            pass.collider_part == 0,
            !pass.had_collision,
            pass.finished == !self.may_collide_with(*receiver),
    {
        let finished = !receiver.is_enabled() || !self.has_collision() || !receiver.has_collision()
            || (self.has_collision_mutual_exclusion() && receiver.has_collision_mutual_exclusion())
            || self.is_collision_receiver();
        CollisionPass { collider: self, receiver, receiver_part: 0, collider_part: 0, had_collision: false, finished }
    }
}

impl<'a> CollisionPass<'a> {
    /// The next pair of parts that touch, in the order of `pair_le`; none once every pair has
    /// been looked at, after which the pass is finished.
    pub fn next_contact(&mut self) -> (res: Option<Contact>)
        ensures
            final(self).collider == old(self).collider,
            final(self).receiver == old(self).receiver,
            final(self).had_collision == old(self).had_collision,
            old(self).finished ==> res is None && *final(self) == *old(self),
            !old(self).finished ==> match res {
                Some(ct) => {
                    &&& in_contact(old(self).collider, *old(self).receiver, ct.receiver_part as int, ct.collider_part as int)
                    &&& ct == contact_of(old(self).collider, *old(self).receiver, ct.receiver_part as int, ct.collider_part as int)
                    &&& pair_le(old(self).receiver_part as int, old(self).collider_part as int, ct.receiver_part as int, ct.collider_part as int)
                    &&& forall|r2: int, c2: int|
                        pair_le(old(self).receiver_part as int, old(self).collider_part as int, r2, c2)
                            && !pair_le(ct.receiver_part as int, ct.collider_part as int, r2, c2)
                            ==> !#[trigger] in_contact(old(self).collider, *old(self).receiver, r2, c2)
                    &&& final(self).receiver_part == ct.receiver_part
                    &&& final(self).collider_part == ct.collider_part + 1
                    &&& !final(self).finished
                },
                None => {
                    &&& forall|r2: int, c2: int|
                        pair_le(old(self).receiver_part as int, old(self).collider_part as int, r2, c2)
                            ==> !#[trigger] in_contact(old(self).collider, *old(self).receiver, r2, c2)
                    &&& final(self).finished
                    &&& final(self).receiver_part == old(self).receiver_part
                    &&& final(self).collider_part == old(self).collider_part
                },
            },
    {
        if self.finished {
            return None;
        }
        let res = find_contact(&self.collider, self.receiver, self.receiver_part, self.collider_part);
        match res {
            Some(ct) => {
                let n = self.collider.parts.len();
                assert(ct.collider_part < n);
                self.receiver_part = ct.receiver_part;
                self.collider_part = ct.collider_part + 1;
            },
            None => {
                self.finished = true;
            },
        }
        res
    }

    /// Moves the collider by the push at `ct`: `x_adjust` and `z_adjust` are the relative
    /// offset's `x` and `z` scaled by the overlap over the measured length plus one, and
    /// `local_y` is the height of the collider part's offset from the centre turned back by the
    /// collider's angle, each by the game's routine. The centre and the part move by
    /// `displacement`.
    pub fn push(&mut self, ct: &Contact, x_adjust: i32, z_adjust: i32, local_y: i32)
        ensures
            final(self).receiver == old(self).receiver,
            final(self).receiver_part == old(self).receiver_part,
            final(self).collider_part == old(self).collider_part,
            final(self).finished == old(self).finished,
            final(self).had_collision,
            ({
                let d = displacement(old(self).collider, *old(self).receiver, *ct, x_adjust, z_adjust, local_y);
                let c = old(self).collider;
                &&& final(self).collider == (Character {
                    center: WorldVec3 { x: c.center.x.wrapping_add(d.0), z: c.center.z.wrapping_add(d.1), ..c.center },
                    parts: final(self).collider.parts,
                    ..c
                })
                &&& final(self).collider.parts@ == if ct.collider_part < c.parts@.len() && c.parts@[ct.collider_part as int] is Some {
                    let p = c.parts@[ct.collider_part as int].unwrap();
                    c.parts@.update(ct.collider_part as int, Some(Part {
                        pos: WorldVec3 { x: p.pos.x.wrapping_add(d.0), z: p.pos.z.wrapping_add(d.1), ..p.pos },
                        ..p
                    }))
                } else {
                    c.parts@
                }
            }),
    {
        let collider = &self.collider;
        let receiver = self.receiver;
        let y_distance = local_y.wrapping_add(collider.prev_center.y).wrapping_sub(ct.receiver_part_y);
        let apart = y_distance <= neg(ct.y_size) || ct.y_size <= y_distance;
        let mut x = x_adjust;
        let mut z = z_adjust;
        if apart {
            let px = collider.prev_center.x;
            let cx = collider.center.x;
            let rx = receiver.center.x;
            if (px < rx && rx < cx) || (rx < px && cx < rx) {
                x = widen_exec(x, ct.receiver_extent);
            }
            let pz = collider.prev_center.z;
            let cz = collider.center.z;
            let rz = receiver.center.z;
            if (pz < rz && rz < cz) || (rz < pz && cz < rz) {
                z = widen_exec(z, ct.receiver_extent);
            }
        }
        if receiver.has_limited_collision_displacement() {
            x = limit_exec(x);
            z = limit_exec(z);
        }
        self.collider.center.x = self.collider.center.x.wrapping_add(x);
        self.collider.center.z = self.collider.center.z.wrapping_add(z);
        let i = ct.collider_part;
        if i < self.collider.parts.len() {
            match self.collider.parts[i] {
                Some(p) => {
                    let mut moved = p;
                    moved.pos.x = p.pos.x.wrapping_add(x);
                    moved.pos.z = p.pos.z.wrapping_add(z);
                    self.collider.parts.set(i, Some(moved));
                },
                None => {},
            }
        }
        self.had_collision = true;
    }

    /// The character after the pass, and whether any part of it was pushed.
    pub fn finish(self) -> (r: (Character, bool))
        ensures
            r.0 == self.collider,
            r.1 == self.had_collision,
    {
        (self.collider, self.had_collision)
    }
}

/// A receiver that limits displacement moves a character by at most the limit on each axis
/// (only a push that is the most negative 32-bit value, whose absolute value wraps around,
/// passes unchanged).
pub proof fn lemma_displacement_limited(collider: Character, receiver: Character, ct: Contact, x: i32, z: i32, local_y: i32)
    requires
        receiver.limits_displacement(),
    ensures
        ({
            let d = displacement(collider, receiver, ct, x, z, local_y);
            &&& -COLLISION_DISPLACEMENT_LIMIT <= d.0 <= COLLISION_DISPLACEMENT_LIMIT || d.0 == i32::MIN
            &&& -COLLISION_DISPLACEMENT_LIMIT <= d.1 <= COLLISION_DISPLACEMENT_LIMIT || d.1 == i32::MIN
        }),
{
}


} // verus!
