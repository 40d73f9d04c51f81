//! The whole game state after a frame of a recording: the game changes (see `playback`), and
//! the characters and pushable objects rebuilt from the frame's diffs.
//!
//! How many character slots, object slots and body-part slots the game has are the game's
//! constants; a `State` is made with them.

use vstd::prelude::*;
use crate::character::{zero3, Character, Object, Part, WorldVec3, doubled32};
use crate::collision::{EllipseCollider, RectCollider};
use crate::playback::{next_state_spec, PlaybackState};
use crate::record::{CharacterDiff, CharacterDiffView, CharacterField, FrameRecord, FrameRecordView};
use crate::world::{Floor, WorldVec};
use crate::hit::{AimingPlayer, Item};
use crate::math::{Fixed12, Vec2};

verus! {

/// The character id a slot holds until the recording gives one.
pub const UNKNOWN_CHARACTER_ID: u8 = 0xFF;

/// A character as values.
pub struct CharacterModel {
    pub flags: u32,
    pub id: u8,
    pub center: WorldVec3,
    pub prev_center: WorldVec3,
    pub parts: Seq<Option<Part>>,
    pub part_offset: WorldVec,
    pub model_part_centers: Seq<WorldVec>,
    pub size: WorldVec,
    pub shape: EllipseCollider,
    pub outline_shape: RectCollider,
    pub angle: i32,
    pub current_health: i16,
    pub max_health: i16,
    pub state: [u8; 4],
    pub floor: Floor,
    pub velocity: WorldVec,
    pub type_: u8,
    pub index: usize,
}

impl View for Character {
    type V = CharacterModel;

    open spec fn view(&self) -> CharacterModel {
        CharacterModel {
            flags: self.flags,
            id: self.id,
            center: self.center,
            prev_center: self.prev_center,
            parts: self.parts@,
            part_offset: self.part_offset,
            model_part_centers: self.model_part_centers@,
            size: self.size,
            shape: self.shape,
            outline_shape: self.outline_shape,
            angle: self.angle,
            current_health: self.current_health,
            max_health: self.max_health,
            state: self.state,
            floor: self.floor,
            velocity: self.velocity,
            type_: self.type_,
            index: self.index,
        }
    }
}

/// A character slot as values.
pub open spec fn slot_view(slot: Option<Character>) -> Option<CharacterModel> {
    match slot {
        Some(c) => Some(c@),
        None => None,
    }
}

pub open spec fn slots_view(slots: Seq<Option<Character>>) -> Seq<Option<CharacterModel>> {
    slots.map_values(|s: Option<Character>| slot_view(s))
}

/// The character a slot holds when a diff arrives for an empty slot: a disabled character of
/// unknown id at the origin, with `part_slots` empty body-part slots.
pub open spec fn fresh_model(part_slots: nat) -> CharacterModel {
    CharacterModel {
        flags: 0,
        id: UNKNOWN_CHARACTER_ID,
        center: zero3(),
        prev_center: zero3(),
        parts: Seq::new(part_slots, |i: int| None),
        part_offset: WorldVec { x: 0, z: 0 },
        model_part_centers: Seq::empty(),
        size: WorldVec { x: 0, z: 0 },
        shape: EllipseCollider { pos: WorldVec { x: 0, z: 0 }, size: WorldVec { x: 0, z: 0 }, floor: Floor::Id(0), collision_mask: 0xFFFF },
        outline_shape: RectCollider {
            pos: WorldVec { x: 0, z: 0 },
            size: WorldVec { x: 0, z: 0 },
            capsule_type: crate::collision::CapsuleType::NoCapsule,
            special_rect_type: crate::collision::SpecialRectType::Plain,
            floor: Floor::Id(0),
            collision_mask: 0xFFFF,
        },
        angle: 0,
        current_health: 0,
        max_health: 0,
        state: [0u8, 0u8, 0u8, 0u8],
        floor: Floor::Id(0),
        velocity: WorldVec { x: 0, z: 0 },
        type_: 0,
        index: usize::MAX,
    }
}

/// The model part centres after setting centre `i` (see `Character::set_model_part_center`).
pub open spec fn set_center_at(centers: Seq<WorldVec>, i: int, v: WorldVec) -> Seq<WorldVec> {
    if i < centers.len() {
        centers.update(i, v)
    } else {
        (centers + Seq::new((i - centers.len()) as nat, |k: int| WorldVec { x: 0, z: 0 })).push(v)
    }
}

/// The effect of one recorded change (other than a removal) on a character: the position
/// (which becomes the previous position too, and moves the shapes), a body part's position
/// (adding the part to an empty slot), a model part's centre, the angle, radii, floor,
/// velocity, health, AI state, id, type and flags. The motion value changes nothing.
pub open spec fn apply_field(c: CharacterModel, f: CharacterField) -> CharacterModel {
    match f {
        CharacterField::State(s) => CharacterModel { state: s, ..c },
        CharacterField::Id(id) => CharacterModel { id, ..c },
        CharacterField::Transform(m) => {
            let pos = WorldVec3 { x: m.t.x, y: m.t.y, z: m.t.z };
            let corner = WorldVec { x: pos.x.wrapping_sub(c.size.x), z: pos.z.wrapping_sub(c.size.z) };
            CharacterModel {
                center: pos,
                prev_center: pos,
                shape: EllipseCollider { pos: corner, ..c.shape },
                outline_shape: RectCollider { pos: corner, ..c.outline_shape },
                ..c
            }
        },
        CharacterField::MotionAngle(a) => CharacterModel { angle: a as i32, ..c },
        CharacterField::Motion(_) => c,
        CharacterField::Size(w, h) => {
            let extent = WorldVec { x: doubled32(w as i32), z: doubled32(h as i32) };
            CharacterModel {
                size: WorldVec { x: w as i32, z: h as i32 },
                shape: EllipseCollider { size: extent, ..c.shape },
                outline_shape: RectCollider { size: extent, ..c.outline_shape },
                ..c
            }
        },
        CharacterField::Floor(fl) => CharacterModel {
            floor: Floor::Id(fl),
            shape: EllipseCollider { floor: Floor::Id(fl), ..c.shape },
            outline_shape: RectCollider { floor: Floor::Id(fl), ..c.outline_shape },
            ..c
        },
        CharacterField::Velocity(v) => CharacterModel { velocity: WorldVec { x: v.vx as i32, z: v.vz as i32 }, ..c },
        CharacterField::Health(h) => CharacterModel {
            current_health: h,
            max_health: if c.max_health <= 0 { h } else { c.max_health },
            ..c
        },
        CharacterField::Removed => c,
        CharacterField::Type(t) => CharacterModel { type_: t, ..c },
        CharacterField::Flags(fl) => CharacterModel { flags: fl, ..c },
        CharacterField::PartTranslation(i, v) => {
            let pos = WorldVec3 { x: v.x, y: v.y, z: v.z };
            if (i as int) < c.parts.len() {
                let part = match c.parts[i as int] {
                    Some(p) => Part { pos, ..p },
                    None => Part { pos, size: zero3(), size_offset: 0 },
                };
                CharacterModel { parts: c.parts.update(i as int, Some(part)), ..c }
            } else {
                c
            }
        },
        CharacterField::ModelPartTransform(i, m) => CharacterModel {
            model_part_centers: set_center_at(c.model_part_centers, i as int, WorldVec { x: m.t.x, z: m.t.z }),
            ..c
        },
    }
}

/// A slot after the changes of a diff for slot `index`, in order: a removal empties the slot
/// and ends the diff; any other change first fills an empty slot with a fresh character, marks
/// the character with its slot, then applies the change.
pub open spec fn slot_after_changes(slot: Option<CharacterModel>, index: u8, changes: Seq<CharacterField>, part_slots: nat) -> Option<CharacterModel>
    decreases changes.len(),
{
    if changes.len() == 0 {
        slot
    } else if changes[0] is Removed {
        None
    } else {
        let c = match slot {
            Some(c) => c,
            None => fresh_model(part_slots),
        };
        let c = apply_field(CharacterModel { index: index as usize, ..c }, changes[0]);
        slot_after_changes(Some(c), index, changes.drop_first(), part_slots)
    }
}

/// A slot after a diff.
pub open spec fn slot_after_diff(slot: Option<CharacterModel>, diff: CharacterDiffView, part_slots: nat) -> Option<CharacterModel> {
    slot_after_changes(slot, diff.index, diff.changes, part_slots)
}

/// A character that was in its slot on the frame before keeps where it stood then as its
/// previous position.
pub open spec fn with_previous(slot: Option<CharacterModel>, before: Option<CharacterModel>) -> Option<CharacterModel> {
    match (slot, before) {
        (Some(c), Some(b)) => Some(CharacterModel { prev_center: b.center, ..c }),
        _ => slot,
    }
}

/// The character slots after the first `n` diffs of a frame, from the slots `before` it.
pub open spec fn characters_after(before: Seq<Option<CharacterModel>>, diffs: Seq<CharacterDiffView>, n: nat, part_slots: nat) -> Seq<Option<CharacterModel>>
    decreases n,
{
    if n == 0 {
        before
    } else {
        let cur = characters_after(before, diffs, (n - 1) as nat, part_slots);
        let d = diffs[n - 1];
        let i = d.index as int;
        cur.update(i, with_previous(slot_after_diff(cur[i], d, part_slots), before[i]))
    }
}

/// The effect of one recorded change on an object: its position, radii, floor and flags
/// (objects of this tool hold no body parts; other changes leave them as they are).
pub open spec fn apply_object_field(o: Object, f: CharacterField) -> Object {
    match f {
        CharacterField::Transform(m) => Object {
            center: WorldVec { x: m.t.x, z: m.t.z },
            shape: RectCollider { pos: WorldVec { x: m.t.x.wrapping_sub(o.size.x), z: m.t.z.wrapping_sub(o.size.z) }, ..o.shape },
            ..o
        },
        CharacterField::Size(w, h) => Object {
            size: WorldVec { x: w as i32, z: h as i32 },
            shape: RectCollider { size: WorldVec { x: doubled32(w as i32), z: doubled32(h as i32) }, ..o.shape },
            ..o
        },
        CharacterField::Floor(fl) => Object { floor: Floor::Id(fl), shape: RectCollider { floor: Floor::Id(fl), ..o.shape }, ..o },
        CharacterField::Flags(fl) => Object { flags: fl, ..o },
        _ => o,
    }
}

/// An object slot after the changes of a diff, as for characters.
pub open spec fn object_after_changes(slot: Option<Object>, index: u8, changes: Seq<CharacterField>) -> Option<Object>
    decreases changes.len(),
{
    if changes.len() == 0 {
        slot
    } else if changes[0] is Removed {
        None
    } else {
        let o = match slot {
            Some(o) => o,
            None => Object::empty_value(),
        };
        let o = apply_object_field(Object { index: index as usize, ..o }, changes[0]);
        object_after_changes(Some(o), index, changes.drop_first())
    }
}

/// The object slots after the first `n` diffs of a frame.
pub open spec fn objects_after(before: Seq<Option<Object>>, diffs: Seq<CharacterDiffView>, n: nat) -> Seq<Option<Object>>
    decreases n,
{
    if n == 0 {
        before
    } else {
        let cur = objects_after(before, diffs, (n - 1) as nat);
        let d = diffs[n - 1];
        cur.update(d.index as int, object_after_changes(cur[d.index as int], d.index, d.changes))
    }
}

/// Every diff names a slot that exists.
pub open spec fn diffs_in_range(diffs: Seq<CharacterDiffView>, slots: nat) -> bool {
    forall|k: int| 0 <= k < diffs.len() ==> (#[trigger] diffs[k]).index < slots
}

fn fresh_character(part_slots: usize) -> (c: Character)
    ensures
        c@ == fresh_model(part_slots as nat),
{
    let mut c = Character::new(0, UNKNOWN_CHARACTER_ID, 0, 0, 0, 0, 0, 0, 0, Floor::Id(0), WorldVec { x: 0, z: 0 });
    let mut i: usize = 0;
    while i < part_slots
        invariant
            i <= part_slots,
            c.parts@ =~= Seq::new(i as nat, |k: int| None::<Part>),
            c == (Character { parts: c.parts, ..c }),
            c.flags == 0,
            c.id == UNKNOWN_CHARACTER_ID,
            c.center == zero3(),
            c.prev_center == zero3(),
            c.part_offset == (WorldVec { x: 0, z: 0 }),
            c.model_part_centers@.len() == 0,
            c.size == (WorldVec { x: 0, z: 0 }),
            c.shape == fresh_model(0).shape,
            c.outline_shape == fresh_model(0).outline_shape,
            c.angle == 0,
            c.current_health == 0,
            c.max_health == 0,
            c.state == [0u8, 0u8, 0u8, 0u8],
            c.floor == Floor::Id(0),
            c.velocity == (WorldVec { x: 0, z: 0 }),
            c.type_ == 0,
            c.index == usize::MAX,
        decreases part_slots - i,
    {
        c.parts.push(None);
        i += 1;
    }
    assert(c.model_part_centers@ =~= Seq::<WorldVec>::empty());
    c
}

/// Applies one recorded change (not a removal) to a character.
fn apply_field_exec(c: &mut Character, f: CharacterField)
    ensures
        final(c)@ == apply_field(old(c)@, f),
{
    match f {
        CharacterField::State(st) => c.state = st,
        CharacterField::Id(id) => c.id = id,
        CharacterField::Transform(m) => {
            let pos = WorldVec3::new(m.t.x, m.t.y, m.t.z);
            c.set_pos(pos);
            c.set_prev_pos(pos);
        },
        CharacterField::MotionAngle(a) => c.angle = a as i32,
        CharacterField::Motion(_) => {},
        CharacterField::Size(w, h) => c.set_size(w as i32, h as i32),
        CharacterField::Floor(fl) => c.set_floor(Floor::Id(fl)),
        CharacterField::Velocity(v) => c.velocity = WorldVec { x: v.vx as i32, z: v.vz as i32 },
        CharacterField::Health(h) => c.set_health(h),
        CharacterField::Removed => {},
        CharacterField::Type(t) => c.type_ = t,
        CharacterField::Flags(fl) => c.flags = fl,
        CharacterField::PartTranslation(i, v) => {
            let pos = WorldVec3::new(v.x, v.y, v.z);
            let k = i as usize;
            if k < c.parts.len() {
                let part = match c.parts[k] {
                    Some(p) => Part { pos, ..p },
                    None => Part::from_pos(pos),
                };
                c.parts.set(k, Some(part));
            }
        },
        CharacterField::ModelPartTransform(i, m) => {
            let ghost before = c.model_part_centers@;
            c.set_model_part_center(i as usize, WorldVec { x: m.t.x, z: m.t.z });
            proof {
                assert(c.model_part_centers@ =~= set_center_at(before, i as int, WorldVec { x: m.t.x, z: m.t.z }));
            }
        },
    }
}

/// Applies a diff to a character slot (see `slot_after_diff`); a new character gets
/// `part_slots` body-part slots.
pub fn apply_diff(slot: &mut Option<Character>, diff: &CharacterDiff, part_slots: usize)
    ensures
        slot_view(*final(slot)) == slot_after_diff(slot_view(*old(slot)), diff@, part_slots as nat),
{
    let ghost target = slot_after_diff(slot_view(*old(slot)), diff@, part_slots as nat);
    let mut cur: Option<Character> = None;
    std::mem::swap(&mut cur, slot);
    let n = diff.changes.len();
    let mut i: usize = 0;
    proof {
        assert(diff.changes@.subrange(0, n as int) =~= diff.changes@);
    }
    while i < n
        invariant
            n == diff.changes@.len(),
            i <= n,
            slot_after_changes(slot_view(cur), diff.index, diff.changes@.subrange(i as int, n as int), part_slots as nat) == target,
            target == slot_after_diff(slot_view(*old(slot)), diff@, part_slots as nat),
        decreases n - i,
    {
        let rest = Ghost(diff.changes@.subrange(i as int, n as int));
        proof {
            assert(rest@[0] == diff.changes@[i as int]);
            assert(rest@.drop_first() =~= diff.changes@.subrange(i + 1, n as int));
        }
        let f = diff.changes[i];
        if let CharacterField::Removed = f {
            proof {
                assert(rest@.len() > 0 && rest@[0] is Removed);
                assert(slot_after_changes(slot_view(cur), diff.index, rest@, part_slots as nat) == None::<CharacterModel>);
            }
            *slot = None;
            return;
        }
        let mut c = match cur {
            Some(c) => c,
            None => fresh_character(part_slots),
        };
        c.index = diff.index as usize;
        apply_field_exec(&mut c, f);
        cur = Some(c);
        i += 1;
    }
    proof {
        assert(diff.changes@.subrange(n as int, n as int) =~= Seq::<CharacterField>::empty());
    }
    *slot = cur;
}

/// Applies a diff to an object slot (see `object_after_changes`).
pub fn apply_object_diff(slot: &mut Option<Object>, diff: &CharacterDiff)
    ensures
        *final(slot) == object_after_changes(*old(slot), diff.index, diff.changes@),
{
    let ghost target = object_after_changes(*old(slot), diff.index, diff.changes@);
    let n = diff.changes.len();
    let mut i: usize = 0;
    proof {
        assert(diff.changes@.subrange(0, n as int) =~= diff.changes@);
    }
    while i < n
        invariant
            n == diff.changes@.len(),
            i <= n,
            object_after_changes(*slot, diff.index, diff.changes@.subrange(i as int, n as int)) == target,
            target == object_after_changes(*old(slot), diff.index, diff.changes@),
        decreases n - i,
    {
        let rest = Ghost(diff.changes@.subrange(i as int, n as int));
        proof {
            assert(rest@[0] == diff.changes@[i as int]);
            assert(rest@.drop_first() =~= diff.changes@.subrange(i + 1, n as int));
        }
        let f = diff.changes[i];
        if let CharacterField::Removed = f {
            proof {
                assert(rest@.len() > 0 && rest@[0] is Removed);
                assert(object_after_changes(*slot, diff.index, rest@) == None::<Object>);
            }
            *slot = None;
            return;
        }
        let mut o = match *slot {
            Some(o) => o,
            None => Object::empty(),
        };
        o.index = diff.index as usize;
        match f {
            CharacterField::Transform(m) => o.set_pos(m.t.x, m.t.z),
            CharacterField::Size(w, h) => o.set_size(w as i32, h as i32),
            CharacterField::Floor(fl) => o.set_floor(Floor::Id(fl)),
            CharacterField::Flags(fl) => o.flags = fl,
            _ => {},
        }
        *slot = Some(o);
        i += 1;
    }
    proof {
        assert(diff.changes@.subrange(n as int, n as int) =~= Seq::<CharacterField>::empty());
    }
}

/// The game state after a frame: the game changes, and each character and object slot.
pub struct State {
    pub game: PlaybackState,
    pub characters: Vec<Option<Character>>,
    pub objects: Vec<Option<Object>>,
    /// How many body-part slots a character has.
    pub part_slots: usize,
}

fn copy_slot(slot: &Option<Character>) -> (r: Option<Character>)
    ensures
        slot_view(r) == slot_view(*slot),
{
    match slot {
        Some(c) => Some(c.copy()),
        None => None,
    }
}

impl State {
    /// The state before the first frame: no characters in `num_characters` slots, no objects
    /// in `num_objects` slots.
    pub fn empty(num_characters: usize, num_objects: usize, part_slots: usize) -> (r: Self)
        ensures
            r.game == crate::playback::empty_state(),
            r.characters@.len() == num_characters,
            forall|i: int| 0 <= i < num_characters ==> #[trigger] r.characters@[i] is None,
            r.objects@ == Seq::new(num_objects as nat, |i: int| None::<Object>),
            r.part_slots == part_slots,
    {
        let mut characters: Vec<Option<Character>> = Vec::new();
        let mut i: usize = 0;
        while i < num_characters
            invariant
                i <= num_characters,
                characters@.len() == i,
                forall|k: int| 0 <= k < i ==> #[trigger] characters@[k] is None,
            decreases num_characters - i,
        {
            characters.push(None);
            i += 1;
        }
        let mut objects: Vec<Option<Object>> = Vec::new();
        let mut j: usize = 0;
        while j < num_objects
            invariant
                j <= num_objects,
                objects@ =~= Seq::new(j as nat, |k: int| None::<Object>),
            decreases num_objects - j,
        {
            objects.push(None);
            j += 1;
        }
        State { game: PlaybackState::empty(), characters, objects, part_slots }
    }

    pub fn characters(&self) -> (r: &Vec<Option<Character>>)
        ensures
            r@ == self.characters@,
    {
        &self.characters
    }

    pub fn objects(&self) -> (r: &Vec<Option<Object>>)
        ensures
            r@ == self.objects@,
    {
        &self.objects
    }

    /// The state after the given frame: its game changes (see `PlaybackState::make_next_state`)
    /// and its character and object diffs, in order (see `characters_after`, `objects_after`).
    /// A character that was in its slot before the frame keeps where it stood then as its
    /// previous position.
    pub fn make_next_state(&self, record: &FrameRecord) -> (r: Self)
        requires
            diffs_in_range(record@.character_diffs, self.characters@.len()),
            diffs_in_range(record@.object_diffs, self.objects@.len()),
        ensures
            r.game == next_state_spec(self.game, record@),
            slots_view(r.characters@) == characters_after(slots_view(self.characters@), record@.character_diffs,
                record@.character_diffs.len(), self.part_slots as nat),
            r.objects@ == objects_after(self.objects@, record@.object_diffs, record@.object_diffs.len()),
            r.part_slots == self.part_slots,
    {
        let game = self.game.make_next_state(record);
        let ghost before = slots_view(self.characters@);
        let nc = self.characters.len();
        let mut characters: Vec<Option<Character>> = Vec::new();
        let mut i: usize = 0;
        while i < nc
            invariant
                nc == self.characters@.len(),
                i <= nc,
                characters@.len() == i,
                slots_view(characters@) =~= slots_view(self.characters@.take(i as int)),
            decreases nc - i,
        {
            let ghost old_chars = characters@;
            let slot = copy_slot(&self.characters[i]);
            characters.push(slot);
            proof {
                assert forall|k: int| 0 <= k < i + 1 implies #[trigger] slots_view(characters@)[k] == slots_view(self.characters@.take(i + 1))[k] by {
                    if k < i {
                        assert(characters@[k] == old_chars[k]);
                        assert(slots_view(old_chars)[k] == slots_view(self.characters@.take(i as int))[k]);
                    }
                }
            }
            i += 1;
            proof {
                assert(slots_view(characters@) =~= slots_view(self.characters@.take(i as int)));
            }
        }
        proof {
            assert(self.characters@.take(nc as int) =~= self.characters@);
        }
        let diffs = &record.character_diffs;
        let nd = diffs.len();
        let mut k: usize = 0;
        while k < nd
            invariant
                nd == diffs@.len(),
                k <= nd,
                before == slots_view(self.characters@),
                before.len() == nc,
                diffs_in_range(record@.character_diffs, nc as nat),
                record@.character_diffs == crate::record::diffs_view(diffs@),
                slots_view(characters@) == characters_after(before, record@.character_diffs, k as nat, self.part_slots as nat),
            decreases nd - k,
        {
            let d = &diffs[k];
            proof {
                assert(record@.character_diffs[k as int] == d@);
                assert(d@.index < nc);
                assert(characters_after(before, record@.character_diffs, k as nat, self.part_slots as nat).len() == nc) by {
                    lemma_characters_after_len(before, record@.character_diffs, k as nat, self.part_slots as nat);
                }
            }
            let idx = d.index as usize;
            let ghost cur = slots_view(characters@);
            let mut slot = characters.remove(idx);
            proof {
                assert(slot_view(slot) == cur[idx as int]);
            }
            apply_diff(&mut slot, d, self.part_slots);
            match (&mut slot, &self.characters[idx]) {
                (Some(c), Some(b)) => {
                    c.set_prev_pos(b.center);
                },
                _ => {},
            }
            characters.insert(idx, slot);
            proof {
                assert(slots_view(characters@) =~= cur.update(idx as int,
                    with_previous(slot_after_diff(cur[idx as int], d@, self.part_slots as nat), before[idx as int])));
            }
            k += 1;
        }
        let mut objects: Vec<Option<Object>> = Vec::new();
        let no = self.objects.len();
        let mut j: usize = 0;
        while j < no
            invariant
                no == self.objects@.len(),
                j <= no,
                objects@ =~= self.objects@.take(j as int),
            decreases no - j,
        {
            objects.push(self.objects[j]);
            j += 1;
        }
        proof {
            assert(self.objects@.take(no as int) =~= self.objects@);
        }
        let odiffs = &record.object_diffs;
        let nod = odiffs.len();
        let mut m: usize = 0;
        while m < nod
            invariant
                nod == odiffs@.len(),
                m <= nod,
                no == self.objects@.len(),
                diffs_in_range(record@.object_diffs, no as nat),
                record@.object_diffs == crate::record::diffs_view(odiffs@),
                objects@ == objects_after(self.objects@, record@.object_diffs, m as nat),
            decreases nod - m,
        {
            let d = &odiffs[m];
            proof {
                assert(record@.object_diffs[m as int] == d@);
                lemma_objects_after_len(self.objects@, record@.object_diffs, m as nat);
            }
            let idx = d.index as usize;
            let mut slot = objects[idx];
            apply_object_diff(&mut slot, d);
            objects.set(idx, slot);
            m += 1;
        }
        State { game, characters, objects, part_slots: self.part_slots }
    }
}

/// The player's AI state is the weapon state ("Weapon", see `describe_player_ai_state`).
pub open spec fn in_weapon_state(s: [u8; 4]) -> bool {
    s[0] == 0x01 && s[1] == 0x05
}

/// A horizontal position or size held as 16-bit fixed-point values, as the weapon range
/// display holds them.
pub open spec fn to_vec2(x: i32, z: i32) -> Vec2 {
    Vec2 { x: Fixed12(x as i16), z: Fixed12(z as i16) }
}

/// The sizes of the characters in the first `n` slots that are enemies (`is_enemy[i]` tells
/// whether slot `i` holds an enemy; the game's table of character kinds decides it).
pub open spec fn enemy_sizes_spec(slots: Seq<Option<CharacterModel>>, is_enemy: Seq<bool>, n: nat) -> Seq<Vec2>
    decreases n,
{
    if n == 0 {
        seq![]
    } else {
        let rest = enemy_sizes_spec(slots, is_enemy, (n - 1) as nat);
        let i = n - 1;
        match slots[i] {
            Some(c) => if i < is_enemy.len() && is_enemy[i] { rest.push(to_vec2(c.size.x, c.size.z)) } else { rest },
            None => rest,
        }
    }
}

/// The weapon state is the state that the player's AI state names "Weapon".
pub proof fn lemma_weapon_state_name(s: [u8; 4])
    ensures
        in_weapon_state(s) <==> crate::ai::player_ai_state_name(s) == "Weapon"@,
{
    reveal_strlit("Idle");
    reveal_strlit("Walk");
    reveal_strlit("Run");
    reveal_strlit("Backpedal");
    reveal_strlit("Turn");
    reveal_strlit("Weapon");
    reveal_strlit("Push object");
    reveal_strlit("Grabbed");
    reveal_strlit("Push enemy");
    reveal_strlit("Unknown");
    if !in_weapon_state(s) {
        assert(crate::ai::player_ai_state_name(s).len() != 6 || crate::ai::player_ai_state_name(s)[0] != 'W'
            || crate::ai::player_ai_state_name(s)[1] != 'e');
    }
}

impl State {
    /// What the weapon range display reads of the player, the character in the first slot:
    /// its position and facing, whether it is in the weapon state, and `weapon`, the item it
    /// holds (the item is named by the game's table). None without a character there, or when
    /// that character is not a player (`is_player` tells whether its id is one of the players',
    /// by the game's table of characters): only a player has a weapon state.
    pub fn aiming_player(&self, is_player: bool, weapon: Option<Item>) -> (r: Option<AimingPlayer>)
        ensures
            r == if self.characters@.len() > 0 && self.characters@[0] is Some && is_player {
                let c = self.characters@[0].unwrap();
                Some(AimingPlayer {
                    pos: to_vec2(c.center.x, c.center.z),
                    angle: Fixed12(c.angle as i16),
                    is_weapon_state: in_weapon_state(c.state),
                    weapon,
                })
            } else {
                None
            },
    {
        if !is_player {
            return None;
        }
        if self.characters.len() == 0 {
            return None;
        }
        match &self.characters[0] {
            Some(c) => Some(AimingPlayer {
                pos: Vec2 { x: Fixed12(c.center.x as i16), z: Fixed12(c.center.z as i16) },
                angle: Fixed12(c.angle as i16),
                is_weapon_state: c.state[0] == 0x01 && c.state[1] == 0x05,
                weapon,
            }),
            None => None,
        }
    }

    /// The sizes of the enemies in the state, slot by slot (`is_enemy[i]` tells whether slot
    /// `i` holds an enemy), for the weapon range display.
    pub fn enemy_sizes(&self, is_enemy: &Vec<bool>) -> (r: Vec<Vec2>)
        ensures
            r@ == enemy_sizes_spec(slots_view(self.characters@), is_enemy@, self.characters@.len()),
    {
        let mut sizes: Vec<Vec2> = Vec::new();
        let mut i: usize = 0;
        while i < self.characters.len()
            invariant
                i <= self.characters@.len(),
                sizes@ == enemy_sizes_spec(slots_view(self.characters@), is_enemy@, i as nat),
            decreases self.characters@.len() - i,
        {
            match &self.characters[i] {
                Some(c) => {
                    if i < is_enemy.len() && is_enemy[i] {
                        sizes.push(Vec2 { x: Fixed12(c.size.x as i16), z: Fixed12(c.size.z as i16) });
                    }
                },
                None => {},
            }
            i += 1;
        }
        sizes
    }
}

proof fn lemma_characters_after_len(before: Seq<Option<CharacterModel>>, diffs: Seq<CharacterDiffView>, n: nat, part_slots: nat)
    requires
        n <= diffs.len(),
        diffs_in_range(diffs, before.len()),
    ensures
        characters_after(before, diffs, n, part_slots).len() == before.len(),
    decreases n,
{
    if n > 0 {
        lemma_characters_after_len(before, diffs, (n - 1) as nat, part_slots);
        assert(diffs[n - 1].index < before.len());
    }
}

proof fn lemma_objects_after_len(before: Seq<Option<Object>>, diffs: Seq<CharacterDiffView>, n: nat)
    requires
        n <= diffs.len(),
        diffs_in_range(diffs, before.len()),
    ensures
        objects_after(before, diffs, n).len() == before.len(),
    decreases n,
{
    if n > 0 {
        lemma_objects_after_len(before, diffs, (n - 1) as nat);
        assert(diffs[n - 1].index < before.len());
    }
}

} // verus!
