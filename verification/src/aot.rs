//! Areas of trigger (AOTs) of a room: doors, items and the other zones that a room's script
//! places, what sets them off, the rooms that a room's doors lead to, and the names that a room's
//! AOTs are listed under.

use vstd::prelude::*;
use crate::collision::{CapsuleType, Collider, PointTest, QuadCollider, RectCollider, SpecialRectType};
use crate::room::RoomId;
use crate::text::{decimal, push_decimal};
use crate::world::{Floor, ObjectType, SceType, WorldVec};

verus! {

/// How many AOTs a room can have.
pub const NUM_AOTS: usize = 32;

/// What an AOT does beyond triggering: a door's destination, an item's contents, or nothing.
#[derive(Debug, Clone, Copy, PartialEq, Eq, Structural)]
pub enum EntityForm {
    Door {
        next_pos_x: i16,
        next_pos_y: i16,
        next_pos_z: i16,
        next_cdir_y: i16,
        next_stage: u8,
        next_room: u8,
        next_n_floor: u8,
    },
    Item { i_item: u16, n_item: u16, flag: u16, md1: u8, action: u8 },
    Other,
}

/// What sets an AOT off, as the room's data gives it: which kinds of character or object can,
/// whether the character's centre (rather than the point in front of it) must be inside, whether
/// the action button must be pressed, and whether the AOT's type triggers at all.
#[derive(Debug, Clone, Copy, PartialEq, Eq, Structural)]
pub struct TriggerFlags {
    pub by_player: bool,
    pub by_ally: bool,
    pub by_npc: bool,
    pub by_object: bool,
    pub on_enter: bool,
    pub on_action: bool,
    pub type_triggers: bool,
}

/// An AOT of a room.
#[derive(Debug, Clone, Copy)]
pub struct Entity {
    pub form: EntityForm,
    pub collider: Collider,
    pub floor: Floor,
    pub id: u8,
    pub sce: SceType,
    pub triggers: TriggerFlags,
}

impl Entity {
    pub fn new(form: EntityForm, collider: Collider, floor: u8, id: u8, sce: u8, triggers: TriggerFlags) -> (r: Self)
        ensures
            r.form == form,
            r.collider == collider,
            r.floor == Floor::Id(floor),
            r.id == id,
            r.sce == SceType::from_u8_spec(sce),
            r.triggers == triggers,
    {
        Self { form, collider, floor: Floor::Id(floor), id, sce: SceType::from_u8(sce), triggers }
    }

    /// Whether the character's centre, rather than its interaction point, sets the AOT off.
    pub fn is_trigger_on_enter(&self) -> (r: bool)
        ensures
            r == self.triggers.on_enter,
    {
        self.triggers.on_enter
    }

    /// Whether the action button must be pressed.
    pub fn is_trigger_on_action(&self) -> (r: bool)
        ensures
            r == self.triggers.on_action,
    {
        self.triggers.on_action
    }

    pub open spec fn can_trigger_spec(self, object_type: ObjectType) -> bool {
        match object_type {
            ObjectType::Player => self.triggers.by_player,
            ObjectType::Ally => self.triggers.by_ally,
            ObjectType::Enemy | ObjectType::Neutral => self.triggers.by_npc,
            ObjectType::Object => self.triggers.by_object,
            _ => false,
        }
    }

    /// Whether something of the given kind can set the AOT off: players, allies, other
    /// characters and objects each by their own flag, nothing else ever.
    pub fn can_object_type_trigger(&self, object_type: ObjectType) -> (r: bool)
        ensures
            r == self.can_trigger_spec(object_type),
    {
        match object_type {
            ObjectType::Player => self.triggers.by_player,
            ObjectType::Ally => self.triggers.by_ally,
            ObjectType::Enemy | ObjectType::Neutral => self.triggers.by_npc,
            ObjectType::Object => self.triggers.by_object,
            _ => false,
        }
    }

    /// Whether a point on `floor` would set the AOT off: the AOT's type triggers, the floors
    /// match, and the AOT's shape contains the point.
    pub open spec fn could_trigger_spec(self, point: WorldVec, floor: Floor) -> PointTest {
        if self.triggers.type_triggers && self.floor.matches_spec(floor) {
            self.collider.point_test(point)
        } else {
            PointTest::Decided(false)
        }
    }

    pub open spec fn can_test(self, point: WorldVec, floor: Floor) -> bool {
        self.triggers.type_triggers && self.floor.matches_spec(floor) ==> self.collider.can_test(point)
    }

    pub fn could_trigger(&self, point: WorldVec, floor: Floor) -> (r: PointTest)
        requires
            self.can_test(point, floor),
        ensures
            r == self.could_trigger_spec(point, floor),
    {
        if self.triggers.type_triggers && self.floor.matches(floor) {
            self.collider.contains_point(point)
        } else {
            PointTest::Decided(false)
        }
    }

    /// The point that the AOT tests for a character: its centre or its interaction point.
    pub open spec fn trigger_point(self, center_point: WorldVec, interaction_point: WorldVec) -> WorldVec {
        if self.triggers.on_enter { center_point } else { interaction_point }
    }

    pub open spec fn is_triggered_spec(
        self,
        object_type: ObjectType,
        center_point: WorldVec,
        interaction_point: WorldVec,
        floor: Floor,
        is_action_pressed: bool,
    ) -> PointTest {
        if !self.can_trigger_spec(object_type) || (self.triggers.on_action && !is_action_pressed) {
            PointTest::Decided(false)
        } else {
            self.could_trigger_spec(self.trigger_point(center_point, interaction_point), floor)
        }
    }

    /// Whether a character or object of the given kind sets the AOT off: it must be of a kind
    /// that can, have the action button pressed when the AOT asks for it, and stand with the
    /// AOT's point (centre or interaction point) in the AOT on a matching floor.
    pub fn is_triggered(
        &self,
        object_type: ObjectType,
        center_point: WorldVec,
        interaction_point: WorldVec,
        floor: Floor,
        is_action_pressed: bool,
    ) -> (r: PointTest)
        requires
            self.can_test(self.trigger_point(center_point, interaction_point), floor),
        ensures
            r == self.is_triggered_spec(object_type, center_point, interaction_point, floor, is_action_pressed),
    {
        if !self.can_object_type_trigger(object_type) {
            return PointTest::Decided(false);
        }

        if self.is_trigger_on_action() && !is_action_pressed {
            return PointTest::Decided(false);
        }

        let point = if self.is_trigger_on_enter() { center_point } else { interaction_point };

        self.could_trigger(point, floor)
    }

    pub fn form(&self) -> (r: &EntityForm)
        ensures
            *r == self.form,
    {
        &self.form
    }

    pub fn floor(&self) -> (r: Floor)
        ensures
            r == self.floor,
    {
        self.floor
    }

    pub fn sce(&self) -> (r: SceType)
        ensures
            r == self.sce,
    {
        self.sce
    }

    pub fn id(&self) -> (r: u8)
        ensures
            r == self.id,
    {
        self.id
    }

    pub open spec fn object_type_spec(self) -> ObjectType {
        ObjectType::from_sce_type_spec(self.sce)
    }

    /// The kind of object the AOT is shown as, from its type.
    pub fn object_type(&self) -> (r: ObjectType)
        ensures
            r == self.object_type_spec(),
    {
        ObjectType::from_sce_type(self.sce)
    }

    /// The containment test of the AOT's shape.
    pub fn contains_point(&self, point: WorldVec) -> (r: PointTest)
        requires
            self.collider.can_test(point),
        ensures
            r == self.collider.point_test(point),
    {
        self.collider.contains_point(point)
    }
}

// ---------------------------------------------------------------------------------------------
// Rooms reached through doors

/// The room a door leads to, for the given player.
pub open spec fn door_target(form: EntityForm, player: u8) -> Option<RoomId> {
    match form {
        EntityForm::Door { next_stage, next_room, .. } => Some(RoomId { stage: next_stage, room: next_room, player }),
        _ => None,
    }
}

/// The rooms that the first `n` entities' doors lead to, other than `this_room`, each once, in
/// the order of their first door.
pub open spec fn connecting_rooms_spec(this_room: RoomId, entities: Seq<Entity>, n: nat) -> Seq<RoomId>
    decreases n,
{
    if n == 0 {
        seq![]
    } else {
        let prev = connecting_rooms_spec(this_room, entities, (n - 1) as nat);
        match door_target(entities[n - 1].form, this_room.player) {
            Some(other) => if other != this_room && !prev.contains(other) { prev.push(other) } else { prev },
            None => prev,
        }
    }
}

fn contains_room(rooms: &Vec<RoomId>, room: RoomId) -> (r: bool)
    ensures
        r == rooms@.contains(room),
{
    let mut i: usize = 0;
    while i < rooms.len()
        invariant
            i <= rooms.len(),
            forall|j: int| 0 <= j < i ==> rooms@[j] != room,
        decreases rooms.len() - i,
    {
        if rooms[i] == room {
            return true;
        }
        i = i + 1;
    }
    false
}

/// The rooms that the doors of the current room lead to (none when no room is loaded): each
/// door's stage and room with the current player, other than the current room, each once, in the
/// order of the doors.
pub fn connecting_rooms(this_room: Option<RoomId>, entities: &Vec<Entity>) -> (r: Vec<RoomId>)
    ensures
        r@ == match this_room {
            Some(room) => connecting_rooms_spec(room, entities@, entities@.len()),
            None => seq![],
        },
{
    let mut rooms: Vec<RoomId> = Vec::new();
    let this_room_id = match this_room {
        Some(room) => room,
        None => return rooms,
    };

    let mut i: usize = 0;
    while i < entities.len()
        invariant
            i <= entities.len(),
            rooms@ == connecting_rooms_spec(this_room_id, entities@, i as nat),
        decreases entities.len() - i,
    {
        if let EntityForm::Door { next_stage, next_room, .. } = entities[i].form {
            let other_room_id = RoomId::new(next_stage, next_room, this_room_id.player);
            if other_room_id != this_room_id && !contains_room(&rooms, other_room_id) {
                rooms.push(other_room_id);
            }
        }
        i = i + 1;
    }
    rooms
}

/// Doors, items and every other AOT are numbered separately in a room's list.
pub open spec fn name_kind(object_type: ObjectType) -> int {
    match object_type {
        ObjectType::Door => 0,
        ObjectType::Item => 1,
        _ => 2,
    }
}

/// How many of the first `n` entities with a valid AOT number are of the given kind.
pub open spec fn kind_count(entities: Seq<Entity>, n: nat, kind: int) -> nat
    decreases n,
{
    if n == 0 {
        0
    } else {
        let prev = kind_count(entities, (n - 1) as nat, kind);
        let e = entities[n - 1];
        if e.id < NUM_AOTS && name_kind(e.object_type_spec()) == kind { prev + 1 } else { prev }
    }
}

/// The name of entity `j` in a room's list: "#" and its AOT number, its kind ("Door", "Item" or
/// "AOT"), and how many of its kind come before it.
pub open spec fn aot_name(entities: Seq<Entity>, j: nat) -> Seq<char> {
    let e = entities[j as int];
    let kind = name_kind(e.object_type_spec());
    "#"@ + decimal(e.id as nat) + (if kind == 0 { " Door "@ } else if kind == 1 { " Item "@ } else { " AOT "@ })
        + decimal(kind_count(entities, j, kind))
}

/// The name that AOT number `aot` has after the first `n` entities: that of the last of them
/// with that number.
pub open spec fn aot_name_after(entities: Seq<Entity>, n: nat, aot: int) -> Option<Seq<char>>
    decreases n,
{
    if n == 0 {
        None
    } else if entities[n - 1].id == aot {
        Some(aot_name(entities, (n - 1) as nat))
    } else {
        aot_name_after(entities, (n - 1) as nat, aot)
    }
}

pub open spec fn opt_string_view(o: Option<String>) -> Option<Seq<char>> {
    match o {
        Some(s) => Some(s@),
        None => None,
    }
}

/// The names of a room's AOTs by AOT number. Entities with a number past the last AOT are
/// skipped and not counted; when two share a number, the later one names it.
pub fn aot_names(entities: &Vec<Entity>) -> (r: Vec<Option<String>>)
    requires
        entities@.len() < u64::MAX,
    ensures
        r@.len() == NUM_AOTS,
        forall|a: int| 0 <= a < NUM_AOTS ==> #[trigger] opt_string_view(r@[a]) == aot_name_after(entities@, entities@.len(), a),
{
    let mut aot_names: Vec<Option<String>> = Vec::new();
    let mut k: usize = 0;
    while k < NUM_AOTS
        invariant
            k <= NUM_AOTS,
            aot_names@.len() == k,
            forall|a: int| 0 <= a < k ==> #[trigger] aot_names@[a] == None::<String>,
        decreases NUM_AOTS - k,
    {
        aot_names.push(None);
        k = k + 1;
    }

    let mut door_count: u64 = 0;
    let mut item_count: u64 = 0;
    let mut other_count: u64 = 0;
    let mut i: usize = 0;
    while i < entities.len()
        invariant
            i <= entities.len(),
            entities@.len() < u64::MAX,
            aot_names@.len() == NUM_AOTS,
            door_count == kind_count(entities@, i as nat, 0),
            item_count == kind_count(entities@, i as nat, 1),
            other_count == kind_count(entities@, i as nat, 2),
            forall|a: int| 0 <= a < NUM_AOTS ==> #[trigger] opt_string_view(aot_names@[a]) == aot_name_after(entities@, i as nat, a),
        decreases entities.len() - i,
    {
        proof {
            lemma_kind_count_bound(entities@, i as nat, 0);
            lemma_kind_count_bound(entities@, i as nat, 1);
            lemma_kind_count_bound(entities@, i as nat, 2);
        }
        let entity = &entities[i];
        let aot = entity.id as usize;
        if aot < NUM_AOTS {
            let mut name = String::new();
            name.append("#");
            push_decimal(&mut name, entity.id as u64);
            let object_type = entity.object_type();
            if object_type == ObjectType::Door {
                name.append(" Door ");
                push_decimal(&mut name, door_count);
                door_count = door_count + 1;
            } else if object_type == ObjectType::Item {
                name.append(" Item ");
                push_decimal(&mut name, item_count);
                item_count = item_count + 1;
            } else {
                name.append(" AOT ");
                push_decimal(&mut name, other_count);
                other_count = other_count + 1;
            }
            proof {
                reveal_strlit("#");
                reveal_strlit(" Door ");
                reveal_strlit(" Item ");
                reveal_strlit(" AOT ");
                assert(name@ =~= aot_name(entities@, i as nat));
            }
            aot_names.set(aot, Some(name));
        }
        i = i + 1;
        proof {
            assert forall|a: int| 0 <= a < NUM_AOTS implies #[trigger] opt_string_view(aot_names@[a])
                == aot_name_after(entities@, i as nat, a) by {
            }
        }
    }
    aot_names
}

proof fn lemma_kind_count_bound(entities: Seq<Entity>, n: nat, kind: int)
    ensures
        kind_count(entities, n, kind) <= n,
    decreases n,
{
    if n > 0 {
        lemma_kind_count_bound(entities, (n - 1) as nat, kind);
    }
}

// ---------------------------------------------------------------------------------------------
// AOTs from a room's script

/// What every AOT-setting instruction of a room script gives: the AOT's id, its type (sce), its
/// trigger bits (the sat byte, decoded by the game's bit assignments) and its floor.
#[derive(Debug, Clone, Copy, PartialEq, Eq, Structural)]
pub struct AotHeader {
    pub aot: u8,
    pub sce: u8,
    pub triggers: TriggerFlags,
    pub n_floor: u8,
}

/// A rectangular AOT: corner and size.
#[derive(Debug, Clone, Copy, PartialEq, Eq, Structural)]
pub struct AotRect {
    pub x: i16,
    pub z: i16,
    pub w: u16,
    pub h: u16,
}

/// A four-cornered AOT.
#[derive(Debug, Clone, Copy, PartialEq, Eq, Structural)]
pub struct AotQuad {
    pub x0: i16,
    pub z0: i16,
    pub x1: i16,
    pub z1: i16,
    pub x2: i16,
    pub z2: i16,
    pub x3: i16,
    pub z3: i16,
}

/// Where a door leads.
#[derive(Debug, Clone, Copy, PartialEq, Eq, Structural)]
pub struct DoorTarget {
    pub next_pos_x: i16,
    pub next_pos_y: i16,
    pub next_pos_z: i16,
    pub next_cdir_y: i16,
    pub next_stage: u8,
    pub next_room: u8,
    pub next_nfloor: u8,
}

/// What an item AOT holds.
#[derive(Debug, Clone, Copy, PartialEq, Eq, Structural)]
pub struct ItemContents {
    pub i_item: u16,
    pub n_item: u16,
    pub flag: u16,
    pub md1: u8,
    pub action: u8,
}

/// An instruction of a room script, as far as AOTs go: each of the instructions that set an
/// AOT with what it sets, and every other instruction.
#[derive(Debug, Clone, Copy, PartialEq, Eq, Structural)]
pub enum AotInstruction {
    AotSet(AotHeader, AotRect),
    DoorAotSet(AotHeader, AotRect, DoorTarget),
    AotSet4p(AotHeader, AotQuad),
    DoorAotSet4p(AotHeader, AotQuad, DoorTarget),
    ItemAotSet(AotHeader, AotRect, ItemContents),
    ItemAotSet2(AotHeader, AotRect, ItemContents),
    ItemAotSet4p(AotHeader, AotQuad, ItemContents),
    Other,
}

/// A rectangle AOT's shape, on the AOT's floor.
pub open spec fn aot_rect_spec(hd: AotHeader, r: AotRect) -> Collider {
    Collider::Rect(RectCollider {
        pos: WorldVec { x: r.x as i32, z: r.z as i32 },
        size: WorldVec { x: r.w as i32, z: r.h as i32 },
        capsule_type: CapsuleType::NoCapsule,
        special_rect_type: SpecialRectType::Plain,
        floor: Floor::Aot(hd.n_floor),
        collision_mask: 0xFFFF,
    })
}

/// A four-cornered AOT's shape, on the AOT's floor.
pub open spec fn aot_quad_spec(hd: AotHeader, q: AotQuad) -> Collider {
    Collider::Quad(QuadCollider {
        p1: WorldVec { x: q.x0 as i32, z: q.z0 as i32 },
        p2: WorldVec { x: q.x1 as i32, z: q.z1 as i32 },
        p3: WorldVec { x: q.x2 as i32, z: q.z2 as i32 },
        p4: WorldVec { x: q.x3 as i32, z: q.z3 as i32 },
        floor: Floor::Aot(hd.n_floor),
    })
}

pub open spec fn door_form(d: DoorTarget) -> EntityForm {
    EntityForm::Door {
        next_pos_x: d.next_pos_x,
        next_pos_y: d.next_pos_y,
        next_pos_z: d.next_pos_z,
        next_cdir_y: d.next_cdir_y,
        next_stage: d.next_stage,
        next_room: d.next_room,
        next_n_floor: d.next_nfloor,
    }
}

pub open spec fn item_form(c: ItemContents) -> EntityForm {
    EntityForm::Item { i_item: c.i_item, n_item: c.n_item, flag: c.flag, md1: c.md1, action: c.action }
}

/// The AOT an instruction sets, with its form and shape.
pub open spec fn aot_entity(hd: AotHeader, form: EntityForm, collider: Collider) -> Entity {
    Entity {
        form,
        collider,
        floor: Floor::Id(hd.n_floor),
        id: hd.aot,
        sce: SceType::from_u8_spec(hd.sce),
        triggers: hd.triggers,
    }
}

/// The AOT an instruction sets: a door, an item or another AOT, rectangular or four-cornered;
/// none for an instruction that sets no AOT.
pub open spec fn entity_of(i: AotInstruction) -> Option<Entity> {
    match i {
        AotInstruction::AotSet(hd, r) => Some(aot_entity(hd, EntityForm::Other, aot_rect_spec(hd, r))),
        AotInstruction::DoorAotSet(hd, r, d) => Some(aot_entity(hd, door_form(d), aot_rect_spec(hd, r))),
        AotInstruction::AotSet4p(hd, q) => Some(aot_entity(hd, EntityForm::Other, aot_quad_spec(hd, q))),
        AotInstruction::DoorAotSet4p(hd, q, d) => Some(aot_entity(hd, door_form(d), aot_quad_spec(hd, q))),
        AotInstruction::ItemAotSet(hd, r, c) => Some(aot_entity(hd, item_form(c), aot_rect_spec(hd, r))),
        AotInstruction::ItemAotSet2(hd, r, c) => Some(aot_entity(hd, item_form(c), aot_rect_spec(hd, r))),
        AotInstruction::ItemAotSet4p(hd, q, c) => Some(aot_entity(hd, item_form(c), aot_quad_spec(hd, q))),
        AotInstruction::Other => None,
    }
}

fn aot_rect(hd: &AotHeader, r: &AotRect) -> (c: Collider)
    ensures
        c == aot_rect_spec(*hd, *r),
{
    Collider::Rect(RectCollider::new(r.x as i32, r.z as i32, r.w as i32, r.h as i32, Floor::Aot(hd.n_floor), CapsuleType::NoCapsule))
}

fn aot_quad(hd: &AotHeader, q: &AotQuad) -> (c: Collider)
    ensures
        c == aot_quad_spec(*hd, *q),
{
    Collider::Quad(QuadCollider::new(
        q.x0 as i32, q.z0 as i32, q.x1 as i32, q.z1 as i32, q.x2 as i32, q.z2 as i32, q.x3 as i32, q.z3 as i32,
        Floor::Aot(hd.n_floor),
    ))
}

fn door(d: &DoorTarget) -> (f: EntityForm)
    ensures
        f == door_form(*d),
{
    EntityForm::Door {
        next_pos_x: d.next_pos_x,
        next_pos_y: d.next_pos_y,
        next_pos_z: d.next_pos_z,
        next_cdir_y: d.next_cdir_y,
        next_stage: d.next_stage,
        next_room: d.next_room,
        next_n_floor: d.next_nfloor,
    }
}

fn item(c: &ItemContents) -> (f: EntityForm)
    ensures
        f == item_form(*c),
{
    EntityForm::Item { i_item: c.i_item, n_item: c.n_item, flag: c.flag, md1: c.md1, action: c.action }
}

fn make_entity(hd: &AotHeader, form: EntityForm, collider: Collider) -> (e: Entity)
    ensures
        e == aot_entity(*hd, form, collider),
{
    Entity::new(form, collider, hd.n_floor, hd.aot, hd.sce, hd.triggers)
}

/// The AOT that a script instruction sets, if it sets one (see `entity_of`).
pub fn to_entity(i: &AotInstruction) -> (r: Option<Entity>)
    ensures
        r == entity_of(*i),
{
    match i {
        AotInstruction::AotSet(hd, r) => Some(make_entity(hd, EntityForm::Other, aot_rect(hd, r))),
        AotInstruction::DoorAotSet(hd, r, d) => Some(make_entity(hd, door(d), aot_rect(hd, r))),
        AotInstruction::AotSet4p(hd, q) => Some(make_entity(hd, EntityForm::Other, aot_quad(hd, q))),
        AotInstruction::DoorAotSet4p(hd, q, d) => Some(make_entity(hd, door(d), aot_quad(hd, q))),
        AotInstruction::ItemAotSet(hd, r, c) => Some(make_entity(hd, item(c), aot_rect(hd, r))),
        AotInstruction::ItemAotSet2(hd, r, c) => Some(make_entity(hd, item(c), aot_rect(hd, r))),
        AotInstruction::ItemAotSet4p(hd, q, c) => Some(make_entity(hd, item(c), aot_quad(hd, q))),
        AotInstruction::Other => None,
    }
}

/// The AOTs that the first `n` instructions of a script set, in script order.
pub open spec fn entities_of(script: Seq<AotInstruction>, n: nat) -> Seq<Entity>
    decreases n,
{
    if n == 0 {
        seq![]
    } else {
        let rest = entities_of(script, (n - 1) as nat);
        match entity_of(script[n - 1]) {
            Some(e) => rest.push(e),
            None => rest,
        }
    }
}

/// The AOTs that a room script sets, in script order.
pub fn script_entities(script: &Vec<AotInstruction>) -> (r: Vec<Entity>)
    ensures
        r@ == entities_of(script@, script@.len()),
{
    let mut entities: Vec<Entity> = Vec::new();
    let mut i: usize = 0;
    while i < script.len()
        invariant
            i <= script@.len(),
            entities@ == entities_of(script@, i as nat),
        decreases script@.len() - i,
    {
        match to_entity(&script[i]) {
            Some(e) => entities.push(e),
            None => {},
        }
        i += 1;
    }
    entities
}

} // verus!
