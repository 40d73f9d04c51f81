//! The collision section of a room's RDT file: where the header says it is, the room's centre
//! cell, and the colliders listed in it, read from the file's bytes (all little-endian); and the
//! shapes of a room's floors.

use vstd::prelude::*;
use crate::collision::{CapsuleType, Collider, RectCollider, SpecialRectType};
use crate::world::{Floor, WorldVec};

verus! {

/// The size of an RDT header: eight counts of one byte and twenty-three section offsets.
pub const RDT_HEADER_SIZE: usize = 100;

/// Where in the header the collision section's offset is.
pub const COLLISION_OFFSET_POS: usize = 32;

/// The size of the collision section's own fields, before its colliders.
pub const COLLISION_FIELDS_SIZE: usize = 16;

/// The size of one collider.
pub const COLLIDER_SIZE: usize = 16;

/// Why an RDT file could not be read.
#[derive(Debug, Clone, Copy, PartialEq, Eq, Structural)]
pub enum RdtError {
    /// The file is shorter than its header.
    Header,
    /// The collision section does not fit in the file, or lists no entries at all.
    Collision,
}

/// The shape of a collider, from the low four bits of its packed word.
#[derive(Debug, Clone, Copy, PartialEq, Eq, Hash, Structural)]
pub enum CollisionShape {
    Rectangle,
    TriangleTopRight,
    TriangleTopLeft,
    TriangleBottomRight,
    TriangleBottomLeft,
    Diamond,
    Circle,
    RoundedRectangle,
}

impl CollisionShape {
    /// The shape with a code: 0 and 9 to 15 are rectangles, 1 to 4 the triangles (named by the
    /// quadrant of their corner), 5 a diamond, 6 a circle, 7 and 8 rounded rectangles.
    pub open spec fn from_code_spec(value: u32) -> Option<Self> {
        if value == 0 || (9 <= value <= 15) {
            Some(CollisionShape::Rectangle)
        } else if value == 1 {
            Some(CollisionShape::TriangleTopRight)
        } else if value == 2 {
            Some(CollisionShape::TriangleTopLeft)
        } else if value == 3 {
            Some(CollisionShape::TriangleBottomRight)
        } else if value == 4 {
            Some(CollisionShape::TriangleBottomLeft)
        } else if value == 5 {
            Some(CollisionShape::Diamond)
        } else if value == 6 {
            Some(CollisionShape::Circle)
        } else if value == 7 || value == 8 {
            Some(CollisionShape::RoundedRectangle)
        } else {
            None
        }
    }

    /// The shape with a code, none for an unknown code.
    pub fn from_code(value: u32) -> (r: Option<Self>)
        ensures
            r == Self::from_code_spec(value),
    {
        match value {
            0 | 9 | 10 | 11 | 12 | 13 | 14 | 15 => Some(CollisionShape::Rectangle),
            1 => Some(CollisionShape::TriangleTopRight),
            2 => Some(CollisionShape::TriangleTopLeft),
            3 => Some(CollisionShape::TriangleBottomRight),
            4 => Some(CollisionShape::TriangleBottomLeft),
            5 => Some(CollisionShape::Diamond),
            6 => Some(CollisionShape::Circle),
            7 | 8 => Some(CollisionShape::RoundedRectangle),
            _ => None,
        }
    }
}

/// One collider of the collision section.
#[derive(Debug, Clone, Copy, PartialEq, Eq, Structural)]
pub struct ColliderRecord {
    pub x: i16,
    pub z: i16,
    pub w: u16,
    pub h: u16,
    pub packed: u32,
    pub floor: u32,
}

impl ColliderRecord {
    /// The collider's shape: its code is the low four bits of the packed word, so it is always
    /// known.
    pub fn shape(&self) -> (r: CollisionShape)
        ensures
            Some(r) == CollisionShape::from_code_spec(self.packed & 0x0f),
    {
        let packed = self.packed;
        let code = packed & 0x0f;
        assert(code <= 15) by (bit_vector)
            requires
                code == packed & 0x0f;
        match CollisionShape::from_code(code) {
            Some(shape) => shape,
            None => CollisionShape::Rectangle,
        }
    }
}

/// The collision section: the centre of the room's cell, the number of entries (counting a
/// leading dummy one, which the file does not hold), the ceiling, and the colliders.
#[derive(Debug, Clone)]
pub struct CollisionSection {
    pub cell_x: i16,
    pub cell_z: i16,
    pub count: u32,
    pub ceiling: i32,
    pub dummy: u32,
    pub colliders: Vec<ColliderRecord>,
}

/// A room's RDT file, as far as collision goes.
#[derive(Debug, Clone)]
pub struct Rdt {
    pub collision: CollisionSection,
}

/// The unsigned 16-bit value at `i`.
pub open spec fn u16_at(b: Seq<u8>, i: int) -> u16 {
    (b[i] as int + 0x100 * b[i + 1] as int) as u16
}

/// The unsigned 32-bit value at `i`.
pub open spec fn u32_at(b: Seq<u8>, i: int) -> u32 {
    (b[i] as int + 0x100 * b[i + 1] as int + 0x1_0000 * b[i + 2] as int + 0x100_0000 * b[i + 3] as int) as u32
}

/// The collider whose bytes start at `p`.
pub open spec fn collider_at(b: Seq<u8>, p: int) -> ColliderRecord {
    ColliderRecord {
        x: u16_at(b, p) as i16,
        z: u16_at(b, p + 2) as i16,
        w: u16_at(b, p + 4),
        h: u16_at(b, p + 6),
        packed: u32_at(b, p + 8),
        floor: u32_at(b, p + 12),
    }
}

/// The collision section as values.
pub struct CollisionView {
    pub cell_x: i16,
    pub cell_z: i16,
    pub count: u32,
    pub ceiling: i32,
    pub dummy: u32,
    pub colliders: Seq<ColliderRecord>,
}

/// Reading an RDT file: the header must be there, and the collision section at the offset it
/// gives must hold its fields and `count - 1` colliders.
pub open spec fn rdt_spec(b: Seq<u8>) -> Result<CollisionView, RdtError> {
    if b.len() < RDT_HEADER_SIZE {
        Err(RdtError::Header)
    } else {
        let off = u32_at(b, COLLISION_OFFSET_POS as int) as int;
        if off + COLLISION_FIELDS_SIZE > b.len() {
            Err(RdtError::Collision)
        } else {
            let count = u32_at(b, off + 4);
            if count == 0 || off + COLLISION_FIELDS_SIZE + (count - 1) * COLLIDER_SIZE > b.len() {
                Err(RdtError::Collision)
            } else {
                Ok(CollisionView {
                    cell_x: u16_at(b, off) as i16,
                    cell_z: u16_at(b, off + 2) as i16,
                    count,
                    ceiling: u32_at(b, off + 8) as i32,
                    dummy: u32_at(b, off + 12),
                    colliders: Seq::new((count - 1) as nat, |k: int| collider_at(b, off + COLLISION_FIELDS_SIZE + k * COLLIDER_SIZE)),
                })
            }
        }
    }
}

fn read_u16(b: &[u8], i: usize) -> (r: u16)
    requires
        i + 2 <= b@.len(),
    ensures
        r == u16_at(b@, i as int),
{
    b[i] as u16 + (b[i + 1] as u16) * 0x100
}

fn read_u32(b: &[u8], i: usize) -> (r: u32)
    requires
        i + 4 <= b@.len(),
    ensures
        r == u32_at(b@, i as int),
{
    b[i] as u32 + (b[i + 1] as u32) * 0x100 + (b[i + 2] as u32) * 0x1_0000 + (b[i + 3] as u32) * 0x100_0000
}

fn read_collider(b: &[u8], p: usize) -> (r: ColliderRecord)
    requires
        p + COLLIDER_SIZE <= b.len(),
    ensures
        r == collider_at(b@, p as int),
{
    ColliderRecord {
        x: read_u16(b, p) as i16,
        z: read_u16(b, p + 2) as i16,
        w: read_u16(b, p + 4),
        h: read_u16(b, p + 6),
        packed: read_u32(b, p + 8),
        floor: read_u32(b, p + 12),
    }
}

impl Rdt {
    pub open spec fn view_matches(&self, v: CollisionView) -> bool {
        &&& self.collision.cell_x == v.cell_x
        &&& self.collision.cell_z == v.cell_z
        &&& self.collision.count == v.count
        &&& self.collision.ceiling == v.ceiling
        &&& self.collision.dummy == v.dummy
        &&& self.collision.colliders@ == v.colliders
    }

    /// Reads the collision section of an RDT file.
    pub fn read(b: &[u8]) -> (r: Result<Self, RdtError>)
        ensures
            match r {
                Ok(rdt) => rdt_spec(b@) matches Ok(v) && rdt.view_matches(v),
                Err(e) => rdt_spec(b@) == Err::<CollisionView, RdtError>(e),
            },
    {
        if b.len() < RDT_HEADER_SIZE {
            return Err(RdtError::Header);
        }
        let off = read_u32(b, COLLISION_OFFSET_POS) as usize;
        if off > b.len() || b.len() - off < COLLISION_FIELDS_SIZE {
            return Err(RdtError::Collision);
        }
        let cell_x = read_u16(b, off) as i16;
        let cell_z = read_u16(b, off + 2) as i16;
        let count = read_u32(b, off + 4);
        let ceiling = read_u32(b, off + 8) as i32;
        let dummy = read_u32(b, off + 12);
        if count == 0 || ((count - 1) as u64) * 16u64 > (b.len() - off - COLLISION_FIELDS_SIZE) as u64 {
            return Err(RdtError::Collision);
        }
        let n = (count - 1) as usize;
        let start = off + COLLISION_FIELDS_SIZE;
        let mut colliders: Vec<ColliderRecord> = Vec::new();
        let mut k: usize = 0;
        while k < n
            invariant
                k <= n,
                n == count - 1,
                start == off + COLLISION_FIELDS_SIZE,
                start + n * COLLIDER_SIZE <= b.len(),
                colliders@.len() == k,
                forall|j: int| 0 <= j < k ==> #[trigger] colliders@[j] == collider_at(b@, start + j * COLLIDER_SIZE),
            decreases n - k,
        {
            assert(start + k * COLLIDER_SIZE + COLLIDER_SIZE <= b.len()) by (nonlinear_arith)
                requires
                    k < n,
                    start + n * COLLIDER_SIZE <= b.len(),
            ;
            let c = read_collider(b, start + k * COLLIDER_SIZE);
            colliders.push(c);
            k = k + 1;
        }
        let rdt = Rdt { collision: CollisionSection { cell_x, cell_z, count, ceiling, dummy, colliders } };
        proof {
            let v = rdt_spec(b@)->Ok_0;
            assert(rdt.collision.colliders@ =~= v.colliders);
        }
        Ok(rdt)
    }

    /// The centre of the room's collision cell.
    pub fn get_center(&self) -> (r: (i16, i16))
        ensures
            r == (self.collision.cell_x, self.collision.cell_z),
    {
        (self.collision.cell_x, self.collision.cell_z)
    }

    /// The colliders with their shapes, leaving out rounded rectangles.
    pub fn get_colliders(&self) -> (r: Vec<(CollisionShape, ColliderRecord)>)
        ensures
            r@ == shaped_colliders(self.collision.colliders@, self.collision.colliders@.len()),
    {
        let mut shapes: Vec<(CollisionShape, ColliderRecord)> = Vec::new();
        let mut k: usize = 0;
        while k < self.collision.colliders.len()
            invariant
                k <= self.collision.colliders@.len(),
                shapes@ == shaped_colliders(self.collision.colliders@, k as nat),
            decreases self.collision.colliders@.len() - k,
        {
            let c = self.collision.colliders[k];
            let shape = c.shape();
            if shape != CollisionShape::RoundedRectangle {
                shapes.push((shape, c));
            }
            k = k + 1;
        }
        shapes
    }
}

/// The first `n` colliders other than rounded rectangles, each with its shape.
pub open spec fn shaped_colliders(cs: Seq<ColliderRecord>, n: nat) -> Seq<(CollisionShape, ColliderRecord)>
    decreases n,
{
    if n == 0 {
        seq![]
    } else {
        let prev = shaped_colliders(cs, (n - 1) as nat);
        let c = cs[n - 1];
        match CollisionShape::from_code_spec(c.packed & 0x0f) {
            Some(shape) => if shape != CollisionShape::RoundedRectangle { prev.push((shape, c)) } else { prev },
            None => prev,
        }
    }
}

// ---------------------------------------------------------------------------------------------
// Floors of a room

/// A floor record of a room's data: the rectangle it covers and its level.
#[derive(Debug, Clone, Copy, PartialEq, Eq, Structural)]
pub struct FloorRecord {
    pub x: i32,
    pub z: i32,
    pub width: i32,
    pub height: i32,
    pub level: u16,
}

/// The shape a floor record gives: its rectangle, marked as a floor, on the floor of its level
/// (kept to 8 bits).
pub open spec fn floor_collider(f: FloorRecord) -> Collider {
    Collider::Rect(RectCollider {
        pos: WorldVec { x: f.x, z: f.z },
        size: WorldVec { x: f.width, z: f.height },
        capsule_type: CapsuleType::NoCapsule,
        special_rect_type: SpecialRectType::Floor,
        floor: Floor::Id(f.level as u8),
        collision_mask: 0xFFFF,
    })
}

/// The shapes of a room's floors, one for each floor record, in order.
pub fn get_floors(floors: &Vec<FloorRecord>) -> (r: Vec<Collider>)
    ensures
        r@.len() == floors@.len(),
        forall|k: int| 0 <= k < floors@.len() ==> #[trigger] r@[k] == floor_collider(floors@[k]),
{
    let mut out: Vec<Collider> = Vec::new();
    let mut i: usize = 0;
    while i < floors.len()
        invariant
            i <= floors@.len(),
            out@.len() == i,
            forall|k: int| 0 <= k < i ==> #[trigger] out@[k] == floor_collider(floors@[k]),
        decreases floors@.len() - i,
    {
        let f = floors[i];
        let rect = RectCollider::new(f.x, f.z, f.width, f.height, Floor::Id(f.level as u8), CapsuleType::NoCapsule)
            .with_special_rect_type(SpecialRectType::Floor);
        out.push(Collider::Rect(rect));
        i += 1;
    }
    out
}

} // verus!
