//! The flight recorder's change tracking: what it remembers of the game and of each
//! character between frames, and the changes it records each frame.

use vstd::prelude::*;
use crate::game::{Character, ModelPart, MATRIX, SVECTOR, VECTOR, matrix_eq, bytes4_eq, NUM_CHARACTERS, NUM_OBJECTS};
use crate::record::{CharacterDiff, CharacterDiffView, CharacterField, FrameRecord, FrameRecordView, GameField, MAX_CHARACTER_CHANGES, RECORD_VERSION, diffs_view};
use crate::codec::{all_wf, diff_wf, frame_wf, wf_diff};

verus! {

/// The composite transforms of a character's model parts.
pub open spec fn transforms_of(parts: Seq<ModelPart>) -> Seq<MATRIX> {
    Seq::new(parts.len(), |i: int| parts[i].composite_transform)
}

/// The model parts whose transforms are recorded for a character id: part 4 of dogs (32),
/// parts 6 and 11 of G2 (49).
pub open spec fn model_parts_needed_spec(id: u8) -> Seq<usize> {
    if id == 32 {
        seq![4usize]
    } else if id == 49 {
        seq![6usize, 11usize]
    } else {
        seq![]
    }
}

/// What the recorder remembers of a character.
#[derive(Debug)]
pub struct CharacterState {
    flags: u32,
    state: [u8; 4],
    id: u8,
    transform: MATRIX,
    part_translation: VECTOR,
    model_part_transforms: Vec<MATRIX>,
    motion_angle: i16,
    motion: i16,
    x_size: u16,
    z_size: u16,
    floor: u8,
    velocity: SVECTOR,
    health: i16,
    type_: u8,
}

/// A character state as values.
pub struct CharacterStateView {
    pub flags: u32,
    pub state: [u8; 4],
    pub id: u8,
    pub transform: MATRIX,
    pub part_translation: VECTOR,
    pub model_part_transforms: Seq<MATRIX>,
    pub motion_angle: i16,
    pub motion: i16,
    pub x_size: u16,
    pub z_size: u16,
    pub floor: u8,
    pub velocity: SVECTOR,
    pub health: i16,
    pub type_: u8,
}

impl View for CharacterState {
    type V = CharacterStateView;

    closed spec fn view(&self) -> CharacterStateView {
        CharacterStateView {
            flags: self.flags,
            state: self.state,
            id: self.id,
            transform: self.transform,
            part_translation: self.part_translation,
            model_part_transforms: self.model_part_transforms@,
            motion_angle: self.motion_angle,
            motion: self.motion,
            x_size: self.x_size,
            z_size: self.z_size,
            floor: self.floor,
            velocity: self.velocity,
            health: self.health,
            type_: self.type_,
        }
    }
}

/// The state remembered of a character first seen with the given model part transforms (its
/// size is that of its first part; its type is the low byte).
pub open spec fn character_state_of(c: Character, t: Seq<MATRIX>) -> CharacterStateView {
    CharacterStateView {
        flags: c.flags,
        state: c.state,
        id: c.id,
        transform: c.transform,
        part_translation: c.parts[0].pos,
        model_part_transforms: t,
        motion_angle: c.motion_angle,
        motion: c.motion,
        x_size: c.parts[0].x_size,
        z_size: c.parts[0].z_size,
        floor: c.floor,
        velocity: c.velocity,
        health: c.health,
        type_: (c.type_ % 256) as u8,
    }
}

/// Every tracked field of a newly seen character, then the transforms of its needed model
/// parts.
pub open spec fn full_delta_spec(s: CharacterStateView) -> Seq<CharacterField> {
    let needed = model_parts_needed_spec(s.id);
    seq![
        CharacterField::State(s.state),
        CharacterField::Id(s.id),
        CharacterField::Transform(s.transform),
        CharacterField::PartTranslation(0, s.part_translation),
        CharacterField::MotionAngle(s.motion_angle),
        CharacterField::Motion(s.motion),
        CharacterField::Size(s.x_size, s.z_size),
        CharacterField::Floor(s.floor),
        CharacterField::Velocity(s.velocity),
        CharacterField::Health(s.health),
        CharacterField::Type(s.type_),
        CharacterField::Flags(s.flags),
    ] + Seq::new(
        needed.len(),
        |k: int| CharacterField::ModelPartTransform(needed[k] as u8, s.model_part_transforms[needed[k] as int]),
    )
}

/// One change if `changed`, none otherwise.
pub open spec fn change_if(changed: bool, f: CharacterField) -> Seq<CharacterField> {
    if changed { seq![f] } else { seq![] }
}

/// The recorded changes among the first `k` model parts: a part whose transform changed, if
/// its transform is needed.
pub open spec fn model_part_changes(old: Seq<MATRIX>, new: Seq<MATRIX>, needed: Seq<usize>, k: nat) -> Seq<CharacterField>
    decreases k,
{
    if k == 0 {
        seq![]
    } else {
        model_part_changes(old, new, needed, (k - 1) as nat) + change_if(
            old[k - 1] != new[k - 1] && needed.contains((k - 1) as usize),
            CharacterField::ModelPartTransform((k - 1) as u8, new[k - 1]),
        )
    }
}

/// The changes to the fields tracked before the model parts.
pub open spec fn head_delta_spec(s: CharacterStateView, c: Character) -> Seq<CharacterField> {
    change_if(s.flags != c.flags, CharacterField::Flags(c.flags))
        + change_if(s.state != c.state, CharacterField::State(c.state))
        + change_if(s.id != c.id, CharacterField::Id(c.id))
        + change_if(s.transform != c.transform, CharacterField::Transform(c.transform))
        + change_if(s.part_translation != c.parts[0].pos, CharacterField::PartTranslation(0, c.parts[0].pos))
}

/// The changes to the fields tracked after the model parts.
pub open spec fn tail_delta_spec(s: CharacterStateView, c: Character) -> Seq<CharacterField> {
    let type_ = (c.type_ % 256) as u8;
    change_if(s.motion_angle != c.motion_angle, CharacterField::MotionAngle(c.motion_angle))
        + change_if(
            s.x_size != c.parts[0].x_size || s.z_size != c.parts[0].z_size,
            CharacterField::Size(c.parts[0].x_size, c.parts[0].z_size),
        )
        + change_if(s.floor != c.floor, CharacterField::Floor(c.floor))
        + change_if(s.velocity != c.velocity, CharacterField::Velocity(c.velocity))
        + change_if(s.health != c.health, CharacterField::Health(c.health))
        + change_if(s.type_ != type_, CharacterField::Type(type_))
}

/// The changes recorded for a tracked character, in the format's order: flags, state, id,
/// transform, first part's translation, needed model parts, motion angle, size, floor,
/// velocity, health, type. The motion value is not tracked.
pub open spec fn char_delta_spec(s: CharacterStateView, c: Character, t: Seq<MATRIX>) -> Seq<CharacterField> {
    head_delta_spec(s, c) + model_part_changes(s.model_part_transforms, t, model_parts_needed_spec(c.id), t.len())
        + tail_delta_spec(s, c)
}

/// The state after tracking: every tracked field takes the character's value, the first
/// model part transforms are replaced, and the motion value is kept.
pub open spec fn char_state_after(s: CharacterStateView, c: Character, t: Seq<MATRIX>) -> CharacterStateView {
    CharacterStateView {
        model_part_transforms: t + s.model_part_transforms.skip(t.len() as int),
        motion: s.motion,
        ..character_state_of(c, t)
    }
}

fn contains_index(needed: &Vec<usize>, i: usize) -> (r: bool)
    ensures
        r == needed@.contains(i),
{
    let mut k: usize = 0;
    while k < needed.len()
        invariant
            k <= needed@.len(),
            forall|j: int| 0 <= j < k ==> needed@[j] != i,
        decreases needed@.len() - k,
    {
        if needed[k] == i {
            return true;
        }
        k += 1;
    }
    false
}

impl CharacterState {
    /// Starts tracking a character.
    pub fn from_character(c: &Character, model_parts: &[ModelPart]) -> (r: Self)
        ensures
            r@ == character_state_of(*c, transforms_of(model_parts@)),
    {
        let mut transforms: Vec<MATRIX> = Vec::new();
        let mut i: usize = 0;
        while i < model_parts.len()
            invariant
                i <= model_parts@.len(),
                transforms@ == transforms_of(model_parts@).subrange(0, i as int),
            decreases model_parts@.len() - i,
        {
            transforms.push(model_parts[i].composite_transform);
            i += 1;
            proof {
                assert(transforms@ =~= transforms_of(model_parts@).subrange(0, i as int));
            }
        }
        proof {
            assert(transforms@ =~= transforms_of(model_parts@));
        }
        Self {
            flags: c.flags,
            state: c.state,
            id: c.id,
            transform: c.transform,
            part_translation: c.parts[0].pos,
            model_part_transforms: transforms,
            motion_angle: c.motion_angle,
            motion: c.motion,
            x_size: c.parts[0].x_size,
            z_size: c.parts[0].z_size,
            floor: c.floor,
            velocity: c.velocity,
            health: c.health,
            type_: (c.type_ % 256) as u8,
        }
    }

    /// The model parts recorded for this character.
    pub fn model_parts_needed(&self) -> (r: Vec<usize>)
        ensures
            r@ == model_parts_needed_spec(self@.id),
    {
        let mut r = Vec::new();
        if self.id == 32 {
            r.push(4);
        } else if self.id == 49 {
            r.push(6);
            r.push(11);
        }
        proof {
            reveal_with_fuel(model_parts_needed_spec, 1);
            assert(r@ =~= model_parts_needed_spec(self@.id));
        }
        r
    }

    /// Every tracked field, for a character that has just appeared.
    pub fn full_delta(&self) -> (r: Vec<CharacterField>)
        requires
            forall|k: int| 0 <= k < model_parts_needed_spec(self@.id).len()
                ==> #[trigger] model_parts_needed_spec(self@.id)[k] < self@.model_part_transforms.len(),
        ensures
            r@ == full_delta_spec(self@),
    {
        let mut delta = Vec::new();
        delta.push(CharacterField::State(self.state));
        delta.push(CharacterField::Id(self.id));
        delta.push(CharacterField::Transform(self.transform));
        delta.push(CharacterField::PartTranslation(0, self.part_translation));
        delta.push(CharacterField::MotionAngle(self.motion_angle));
        delta.push(CharacterField::Motion(self.motion));
        delta.push(CharacterField::Size(self.x_size, self.z_size));
        delta.push(CharacterField::Floor(self.floor));
        delta.push(CharacterField::Velocity(self.velocity));
        delta.push(CharacterField::Health(self.health));
        delta.push(CharacterField::Type(self.type_));
        delta.push(CharacterField::Flags(self.flags));
        let ghost base = delta@;
        let needed = self.model_parts_needed();
        let ghost tail = Seq::new(
            needed@.len(),
            |k: int| CharacterField::ModelPartTransform(needed@[k] as u8, self@.model_part_transforms[needed@[k] as int]),
        );
        let mut k: usize = 0;
        while k < needed.len()
            invariant
                k <= needed@.len(),
                needed@ == model_parts_needed_spec(self@.id),
                forall|j: int| 0 <= j < needed@.len() ==> #[trigger] needed@[j] < self@.model_part_transforms.len(),
                delta@ == base + tail.subrange(0, k as int),
                tail == Seq::new(
                    needed@.len(),
                    |j: int| CharacterField::ModelPartTransform(needed@[j] as u8, self@.model_part_transforms[needed@[j] as int]),
                ),
            decreases needed@.len() - k,
        {
            let i = needed[k];
            assert(needed@[k as int] < self@.model_part_transforms.len());
            delta.push(CharacterField::ModelPartTransform(i as u8, self.model_part_transforms[i]));
            k += 1;
            proof {
                assert(delta@ =~= base + tail.subrange(0, k as int));
            }
        }
        proof {
            assert(tail.subrange(0, k as int) =~= tail);
            assert(delta@ =~= full_delta_spec(self@));
        }
        delta
    }

    fn track_head(&mut self, c: &Character) -> (r: Vec<CharacterField>)
        ensures
            r@ == head_delta_spec(old(self)@, *c),
            final(self)@ == (CharacterStateView {
                flags: c.flags,
                state: c.state,
                id: c.id,
                transform: c.transform,
                part_translation: c.parts[0].pos,
                ..old(self)@
            }),
    {
        let mut fields: Vec<CharacterField> = Vec::with_capacity(MAX_CHARACTER_CHANGES);
        if self.flags != c.flags {
            self.flags = c.flags;
            fields.push(CharacterField::Flags(c.flags));
        }
        if !bytes4_eq(&self.state, &c.state) {
            self.state = c.state;
            fields.push(CharacterField::State(c.state));
        }
        if self.id != c.id {
            self.id = c.id;
            fields.push(CharacterField::Id(c.id));
        }
        if !matrix_eq(&self.transform, &c.transform) {
            self.transform = c.transform;
            fields.push(CharacterField::Transform(c.transform));
        }
        if self.part_translation != c.parts[0].pos {
            self.part_translation = c.parts[0].pos;
            fields.push(CharacterField::PartTranslation(0, c.parts[0].pos));
        }
        proof {
            assert(fields@ =~= head_delta_spec(old(self)@, *c));
        }
        fields
    }

    fn track_model_parts(&mut self, model_parts: &[ModelPart], fields: &mut Vec<CharacterField>)
        requires
            model_parts@.len() <= old(self)@.model_part_transforms.len(),
        ensures
            final(fields)@ == old(fields)@ + model_part_changes(old(self)@.model_part_transforms,
                transforms_of(model_parts@), model_parts_needed_spec(old(self)@.id), model_parts@.len()),
            final(self)@ == (CharacterStateView {
                model_part_transforms: transforms_of(model_parts@)
                    + old(self)@.model_part_transforms.skip(model_parts@.len() as int),
                ..old(self)@
            }),
    {
        let ghost s0 = self@;
        let ghost f0 = fields@;
        let ghost t = transforms_of(model_parts@);
        let model_parts_needed = self.model_parts_needed();
        let mut i: usize = 0;
        while i < model_parts.len()
            invariant
                i <= model_parts@.len(),
                model_parts@.len() <= s0.model_part_transforms.len(),
                t == transforms_of(model_parts@),
                model_parts_needed@ == model_parts_needed_spec(s0.id),
                self.model_part_transforms@ == t.subrange(0, i as int) + s0.model_part_transforms.skip(i as int),
                fields@ == f0 + model_part_changes(s0.model_part_transforms, t, model_parts_needed@, i as nat),
                self@ == (CharacterStateView { model_part_transforms: self.model_part_transforms@, ..s0 }),
            decreases model_parts@.len() - i,
        {
            let part = model_parts[i].composite_transform;
            if !matrix_eq(&self.model_part_transforms[i], &part) {
                self.model_part_transforms.set(i, part);
                if contains_index(&model_parts_needed, i) {
                    fields.push(CharacterField::ModelPartTransform(i as u8, part));
                }
            }
            i += 1;
            proof {
                assert(self.model_part_transforms@ =~= t.subrange(0, i as int) + s0.model_part_transforms.skip(i as int));
                assert(fields@ =~= f0 + model_part_changes(s0.model_part_transforms, t, model_parts_needed@, i as nat));
            }
        }
        proof {
            assert(self.model_part_transforms@ =~= t + s0.model_part_transforms.skip(t.len() as int));
        }
    }

    fn track_tail(&mut self, c: &Character, fields: &mut Vec<CharacterField>)
        ensures
            final(fields)@ == old(fields)@ + tail_delta_spec(old(self)@, *c),
            final(self)@ == (CharacterStateView {
                motion_angle: c.motion_angle,
                x_size: c.parts[0].x_size,
                z_size: c.parts[0].z_size,
                floor: c.floor,
                velocity: c.velocity,
                health: c.health,
                type_: (c.type_ % 256) as u8,
                ..old(self)@
            }),
    {
        let ghost f0 = fields@;
        if self.motion_angle != c.motion_angle {
            self.motion_angle = c.motion_angle;
            fields.push(CharacterField::MotionAngle(c.motion_angle));
        }
        if self.x_size != c.parts[0].x_size || self.z_size != c.parts[0].z_size {
            self.x_size = c.parts[0].x_size;
            self.z_size = c.parts[0].z_size;
            fields.push(CharacterField::Size(c.parts[0].x_size, c.parts[0].z_size));
        }
        if self.floor != c.floor {
            self.floor = c.floor;
            fields.push(CharacterField::Floor(c.floor));
        }
        if self.velocity != c.velocity {
            self.velocity = c.velocity;
            fields.push(CharacterField::Velocity(c.velocity));
        }
        if self.health != c.health {
            self.health = c.health;
            fields.push(CharacterField::Health(c.health));
        }
        let type_ = (c.type_ % 256) as u8;
        if self.type_ != type_ {
            self.type_ = type_;
            fields.push(CharacterField::Type(type_));
        }
        proof {
            assert(fields@ =~= f0 + tail_delta_spec(old(self)@, *c));
        }
    }

    /// Records what changed in a tracked character and remembers its new values.
    pub fn track_delta(&mut self, c: &Character, model_parts: &[ModelPart]) -> (r: Vec<CharacterField>)
        requires
            model_parts@.len() <= old(self)@.model_part_transforms.len(),
        ensures
            r@ == char_delta_spec(old(self)@, *c, transforms_of(model_parts@)),
            final(self)@ == char_state_after(old(self)@, *c, transforms_of(model_parts@)),
    {
        let ghost s0 = self@;
        let mut fields = self.track_head(c);
        self.track_model_parts(model_parts, &mut fields);
        self.track_tail(c, &mut fields);
        proof {
            assert(fields@ =~= char_delta_spec(s0, *c, transforms_of(model_parts@)));
        }
        fields
    }
}

/// A character as read from the game: its fields and its model parts.
#[derive(Debug, Clone)]
pub struct CharacterSnapshot {
    pub character: Character,
    pub model_parts: Vec<ModelPart>,
}

/// The game's values that the recorder reads on a frame.
#[derive(Debug)]
pub struct GameSnapshot {
    pub rng: u32,
    pub keys_down: u32,
    pub keys_down_this_frame: u32,
    pub igt_seconds: u32,
    pub igt_frames: u8,
    pub stage_index: u16,
    pub room_index: u16,
    pub stage_offset: u32,
    pub sound_flags: u8,
    pub is_claire: bool,
    pub characters: Vec<Option<CharacterSnapshot>>,
    pub objects: Vec<Option<CharacterSnapshot>>,
}

/// What the recorder remembers of the game.
#[derive(Debug, Clone, Copy, PartialEq, Eq, Structural)]
pub struct GameState {
    pub rng: u32,
    pub keys_down: u32,
    pub keys_down_this_frame: u32,
    pub stage_index: u16,
    pub room_index: u16,
    pub stage_offset: u32,
    pub scenario: u8,
    pub sound_flags: u8,
}

/// The remembered game state for a snapshot (the scenario is 1 for Claire, 0 for Leon).
pub open spec fn game_state_of(g: GameSnapshot) -> GameState {
    GameState {
        rng: g.rng,
        keys_down: g.keys_down,
        keys_down_this_frame: g.keys_down_this_frame,
        stage_index: g.stage_index,
        room_index: g.room_index,
        stage_offset: g.stage_offset,
        scenario: if g.is_claire { 1 } else { 0 },
        sound_flags: g.sound_flags,
    }
}

/// One change if `changed`, none otherwise.
pub open spec fn game_change_if(changed: bool, f: GameField) -> Seq<GameField> {
    if changed { seq![f] } else { seq![] }
}

/// The changes of the first four game values, appended to `prefix`.
pub open spec fn game_delta_head(prefix: Seq<GameField>, s: GameState, n: GameState) -> Seq<GameField> {
    prefix
        + game_change_if(s.rng != n.rng, GameField::Rng(n.rng as u16))
        + game_change_if(s.keys_down != n.keys_down, GameField::KeysDown(n.keys_down))
        + game_change_if(s.keys_down_this_frame != n.keys_down_this_frame, GameField::KeysDownThisFrame(n.keys_down_this_frame))
        + game_change_if(s.stage_index != n.stage_index, GameField::StageIndex(n.stage_index as u8))
}

/// The changes of the last four game values, appended to `prefix`.
pub open spec fn game_delta_tail(prefix: Seq<GameField>, s: GameState, n: GameState) -> Seq<GameField> {
    prefix
        + game_change_if(s.room_index != n.room_index, GameField::RoomIndex(n.room_index as u8))
        + game_change_if(s.stage_offset != n.stage_offset, GameField::StageOffset(n.stage_offset as u8))
        + game_change_if(s.scenario != n.scenario, GameField::Scenario(n.scenario))
        + game_change_if(s.sound_flags != n.sound_flags, GameField::SoundFlags(n.sound_flags))
}

/// The game changes recorded for a frame, in the order rng, keys down, keys down this frame,
/// stage, room, stage offset, scenario, sound flags; values that the format stores in fewer
/// bits are truncated.
pub open spec fn game_delta_spec(s: GameState, n: GameState) -> Seq<GameField> {
    game_delta_tail(game_delta_head(Seq::empty(), s, n), s, n)
}

fn push_if(fields: &mut Vec<GameField>, changed: bool, f: GameField)
    ensures
        final(fields)@ == old(fields)@ + game_change_if(changed, f),
{
    let ghost f0 = fields@;
    if changed {
        fields.push(f);
    }
    proof {
        assert(fields@ =~= f0 + game_change_if(changed, f));
    }
}

fn update_u32(cur: &mut u32, new: u32) -> (changed: bool)
    ensures
        *final(cur) == new,
        changed == (*old(cur) != new),
{
    let changed = *cur != new;
    *cur = new;
    changed
}

fn update_u16(cur: &mut u16, new: u16) -> (changed: bool)
    ensures
        *final(cur) == new,
        changed == (*old(cur) != new),
{
    let changed = *cur != new;
    *cur = new;
    changed
}

fn update_u8(cur: &mut u8, new: u8) -> (changed: bool)
    ensures
        *final(cur) == new,
        changed == (*old(cur) != new),
{
    let changed = *cur != new;
    *cur = new;
    changed
}

impl GameState {
    pub fn from_game(game: &GameSnapshot) -> (r: Self)
        ensures
            r == game_state_of(*game),
    {
        Self {
            rng: game.rng,
            keys_down: game.keys_down,
            keys_down_this_frame: game.keys_down_this_frame,
            stage_index: game.stage_index,
            room_index: game.room_index,
            stage_offset: game.stage_offset,
            scenario: if game.is_claire { 1 } else { 0 },
            sound_flags: game.sound_flags,
        }
    }

    fn track_head(&mut self, game: &GameSnapshot, fields: &mut Vec<GameField>)
        ensures
            final(fields)@ == game_delta_head(old(fields)@, *old(self), game_state_of(*game)),
            *final(self) == (GameState {
                rng: game.rng,
                keys_down: game.keys_down,
                keys_down_this_frame: game.keys_down_this_frame,
                stage_index: game.stage_index,
                ..*old(self)
            }),
    {
        let c = update_u32(&mut self.rng, game.rng);
        push_if(fields, c, GameField::Rng(game.rng as u16));
        let c = update_u32(&mut self.keys_down, game.keys_down);
        push_if(fields, c, GameField::KeysDown(game.keys_down));
        let c = update_u32(&mut self.keys_down_this_frame, game.keys_down_this_frame);
        push_if(fields, c, GameField::KeysDownThisFrame(game.keys_down_this_frame));
        let c = update_u16(&mut self.stage_index, game.stage_index);
        push_if(fields, c, GameField::StageIndex(game.stage_index as u8));
    }

    fn track_tail(&mut self, game: &GameSnapshot, fields: &mut Vec<GameField>)
        ensures
            final(fields)@ == game_delta_tail(old(fields)@, *old(self), game_state_of(*game)),
            *final(self) == (GameState {
                room_index: game.room_index,
                stage_offset: game.stage_offset,
                scenario: game_state_of(*game).scenario,
                sound_flags: game.sound_flags,
                ..*old(self)
            }),
    {
        let scenario: u8 = if game.is_claire { 1 } else { 0 };
        let c = update_u16(&mut self.room_index, game.room_index);
        push_if(fields, c, GameField::RoomIndex(game.room_index as u8));
        let c = update_u32(&mut self.stage_offset, game.stage_offset);
        push_if(fields, c, GameField::StageOffset(game.stage_offset as u8));
        let c = update_u8(&mut self.scenario, scenario);
        push_if(fields, c, GameField::Scenario(scenario));
        let c = update_u8(&mut self.sound_flags, game.sound_flags);
        push_if(fields, c, GameField::SoundFlags(game.sound_flags));
    }

    /// Records what changed in the game and remembers its new values.
    pub fn track_delta(&mut self, game: &GameSnapshot) -> (r: Vec<GameField>)
        ensures
            r@ == game_delta_spec(*old(self), game_state_of(*game)),
            *final(self) == game_state_of(*game),
    {
        let mut fields: Vec<GameField> = Vec::new();
        self.track_head(game, &mut fields);
        self.track_tail(game, &mut fields);
        fields
    }
}

/// A tracked slot as values.
pub open spec fn slot_view(s: Option<CharacterState>) -> Option<CharacterStateView> {
    match s {
        Some(st) => Some(st@),
        None => None,
    }
}

/// The slots of a tracker as values.
pub open spec fn slots_view(s: Seq<Option<CharacterState>>) -> Seq<Option<CharacterStateView>> {
    s.map_values(|o: Option<CharacterState>| slot_view(o))
}

/// The state remembered of a snapshot that has just appeared.
pub open spec fn snapshot_state(c: CharacterSnapshot) -> CharacterStateView {
    character_state_of(c.character, transforms_of(c.model_parts@))
}

/// Whether the recorder can track a slot without failing: a character seen before has no
/// more model parts than when it appeared, and a new one has the model parts that are
/// recorded for it.
pub open spec fn slot_trackable(c: Option<CharacterSnapshot>, s: Option<CharacterStateView>) -> bool {
    match (c, s) {
        (Some(c), Some(s)) => c.model_parts@.len() <= s.model_part_transforms.len(),
        (Some(c), None) => forall|k: int| 0 <= k < model_parts_needed_spec(c.character.id).len()
            ==> #[trigger] model_parts_needed_spec(c.character.id)[k] < c.model_parts@.len(),
        _ => true,
    }
}

/// What a slot remembers after a frame: nothing once its character is gone, the new
/// character's values when it appears, the updated values otherwise.
pub open spec fn slot_after(c: Option<CharacterSnapshot>, s: Option<CharacterStateView>) -> Option<CharacterStateView> {
    match (c, s) {
        (None, _) => None,
        (Some(c), None) => Some(snapshot_state(c)),
        (Some(c), Some(s)) => Some(char_state_after(s, c.character, transforms_of(c.model_parts@))),
    }
}

/// The diffs recorded for slot `i` on a frame: its removal, every field of a new character,
/// or the changes of a tracked one if there are any.
pub open spec fn slot_diffs(i: int, c: Option<CharacterSnapshot>, s: Option<CharacterStateView>) -> Seq<CharacterDiffView> {
    match (c, s) {
        (None, Some(_)) => seq![CharacterDiffView { index: i as u8, changes: seq![CharacterField::Removed] }],
        (Some(c), None) => seq![CharacterDiffView { index: i as u8, changes: full_delta_spec(snapshot_state(c)) }],
        (Some(c), Some(s)) => {
            let delta = char_delta_spec(s, c.character, transforms_of(c.model_parts@));
            if delta.len() == 0 {
                seq![]
            } else {
                seq![CharacterDiffView { index: i as u8, changes: delta }]
            }
        },
        (None, None) => seq![],
    }
}

/// The diffs recorded for the first `k` slots, in slot order.
pub open spec fn slots_diffs(cs: Seq<Option<CharacterSnapshot>>, ss: Seq<Option<CharacterStateView>>, k: nat) -> Seq<CharacterDiffView>
    decreases k,
{
    if k == 0 {
        seq![]
    } else {
        slots_diffs(cs, ss, (k - 1) as nat) + slot_diffs(k - 1, cs[k - 1], ss[k - 1])
    }
}

/// The number of slots compared on a frame: as many as both the snapshot and the tracker have.
pub open spec fn slots_compared(cs: Seq<Option<CharacterSnapshot>>, ss: Seq<Option<CharacterStateView>>) -> nat {
    if cs.len() <= ss.len() { cs.len() } else { ss.len() }
}

/// The slots after a frame: the compared ones updated, the others kept.
pub open spec fn slots_after(cs: Seq<Option<CharacterSnapshot>>, ss: Seq<Option<CharacterStateView>>) -> Seq<Option<CharacterStateView>> {
    Seq::new(ss.len(), |i: int| if i < cs.len() { slot_after(cs[i], ss[i]) } else { ss[i] })
}

/// Whether every compared slot can be tracked.
pub open spec fn slots_trackable(cs: Seq<Option<CharacterSnapshot>>, ss: Seq<Option<CharacterStateView>>) -> bool {
    forall|i: int| 0 <= i < slots_compared(cs, ss) ==> #[trigger] slot_trackable(cs[i], ss[i])
}

/// The recorder's memory of the game, its characters and its objects.
#[derive(Debug)]
pub struct GameTracker {
    state: GameState,
    characters: Vec<Option<CharacterState>>,
    objects: Vec<Option<CharacterState>>,
}

/// A tracker as values.
pub struct GameTrackerView {
    pub state: GameState,
    pub characters: Seq<Option<CharacterStateView>>,
    pub objects: Seq<Option<CharacterStateView>>,
}

impl View for GameTracker {
    type V = GameTrackerView;

    closed spec fn view(&self) -> GameTrackerView {
        GameTrackerView {
            state: self.state,
            characters: slots_view(self.characters@),
            objects: slots_view(self.objects@),
        }
    }
}

/// `n` empty slots.
fn empty_slots(n: usize) -> (r: Vec<Option<CharacterState>>)
    ensures
        slots_view(r@) == Seq::new(n as nat, |i: int| None::<CharacterStateView>),
{
    let mut r: Vec<Option<CharacterState>> = Vec::new();
    let mut i: usize = 0;
    while i < n
        invariant
            i <= n,
            r@.len() == i,
            forall|j: int| 0 <= j < i ==> r@[j] is None,
        decreases n - i,
    {
        r.push(None);
        i += 1;
    }
    proof {
        assert(slots_view(r@) =~= Seq::new(n as nat, |i: int| None::<CharacterStateView>));
    }
    r
}

impl GameTracker {
    /// Starts tracking a game: its values now, and no characters or objects.
    pub fn new(game: &GameSnapshot) -> (r: Self)
        ensures
            r@.state == game_state_of(*game),
            r@.characters == Seq::new(NUM_CHARACTERS as nat, |i: int| None::<CharacterStateView>),
            r@.objects == Seq::new(NUM_OBJECTS as nat, |i: int| None::<CharacterStateView>),
    {
        Self {
            state: GameState::from_game(game),
            characters: empty_slots(NUM_CHARACTERS),
            objects: empty_slots(NUM_OBJECTS),
        }
    }

    fn track_char_change(i: usize, c: &Option<CharacterSnapshot>, state: Option<CharacterState>, diffs: &mut Vec<CharacterDiff>) -> (r: Option<CharacterState>)
        requires
            i < 256,
            slot_trackable(*c, slot_view(state)),
        ensures
            slot_view(r) == slot_after(*c, slot_view(state)),
            diffs_view(final(diffs)@) == diffs_view(old(diffs)@) + slot_diffs(i as int, *c, slot_view(state)),
    {
        let ghost d0 = diffs@;
        match (c, state) {
            (None, Some(_)) => {
                diffs.push(CharacterDiff::removed(i));
                proof {
                    assert(diffs_view(diffs@) =~= diffs_view(d0) + slot_diffs(i as int, *c, slot_view(state)));
                }
                None
            },
            (Some(snap), None) => {
                let char_state = CharacterState::from_character(&snap.character, snap.model_parts.as_slice());
                let delta = char_state.full_delta();
                diffs.push(CharacterDiff::new(i, delta));
                proof {
                    assert(diffs_view(diffs@) =~= diffs_view(d0) + slot_diffs(i as int, *c, slot_view(state)));
                }
                Some(char_state)
            },
            (Some(snap), Some(mut st)) => {
                let delta = st.track_delta(&snap.character, snap.model_parts.as_slice());
                if delta.len() > 0 {
                    diffs.push(CharacterDiff::new(i, delta));
                }
                proof {
                    assert(diffs_view(diffs@) =~= diffs_view(d0) + slot_diffs(i as int, *c, slot_view(state)));
                }
                Some(st)
            },
            (None, None) => {
                proof {
                    assert(diffs_view(diffs@) =~= diffs_view(d0) + slot_diffs(i as int, *c, slot_view(state)));
                }
                None
            },
        }
    }

    fn track_slots(slots: &mut Vec<Option<CharacterState>>, snaps: &Vec<Option<CharacterSnapshot>>) -> (r: Vec<CharacterDiff>)
        requires
            old(slots)@.len() <= 256,
            slots_trackable(snaps@, slots_view(old(slots)@)),
        ensures
            slots_view(final(slots)@) == slots_after(snaps@, slots_view(old(slots)@)),
            diffs_view(r@) == slots_diffs(snaps@, slots_view(old(slots)@), slots_compared(snaps@, slots_view(old(slots)@))),
    {
        let ghost ss = slots_view(slots@);
        let mut diffs: Vec<CharacterDiff> = Vec::new();
        let mut old_slots: Vec<Option<CharacterState>> = Vec::new();
        std::mem::swap(&mut old_slots, slots);
        let n = old_slots.len();
        let k = if snaps.len() < n { snaps.len() } else { n };
        let mut i: usize = 0;
        while i < n
            invariant
                n == ss.len(),
                n <= 256,
                k == slots_compared(snaps@, ss),
                i <= n,
                slots_trackable(snaps@, ss),
                slots@.len() == i,
                old_slots@.len() == n - i,
                forall|j: int| 0 <= j < n - i ==> #[trigger] slot_view(old_slots@[j]) == ss[i + j],
                forall|j: int| 0 <= j < i ==> #[trigger] slot_view(slots@[j]) == slots_after(snaps@, ss)[j],
                diffs_view(diffs@) == slots_diffs(snaps@, ss, if i <= k { i as nat } else { k as nat }),
            decreases n - i,
        {
            let ghost before = old_slots@;
            let st = old_slots.remove(0);
            assert(slot_view(st) == ss[i as int]) by {
                assert(slot_view(before[0]) == ss[i as int + 0]);
            }
            if i < snaps.len() {
                let ghost d0 = diffs@;
                assert(slot_trackable(snaps@[i as int], ss[i as int]));
                let r = Self::track_char_change(i, &snaps[i], st, &mut diffs);
                slots.push(r);
                proof {
                    assert(diffs_view(diffs@) == slots_diffs(snaps@, ss, (i + 1) as nat));
                }
            } else {
                slots.push(st);
            }
            i += 1;
            proof {
                assert forall|j: int| 0 <= j < n - i implies #[trigger] slot_view(old_slots@[j]) == ss[i + j] by {
                    assert(old_slots@[j] == before[j + 1]);
                    assert(slot_view(before[j + 1]) == ss[(i - 1) + (j + 1)]);
                }
            }
        }
        proof {
            assert(slots_view(slots@) =~= slots_after(snaps@, ss));
        }
        diffs
    }

    /// Records everything that changed in the game since the last frame, and remembers the
    /// new values. The count of RNG rolls is left at zero for the caller to fill in.
    pub fn track_delta(&mut self, game: &GameSnapshot) -> (r: FrameRecord)
        requires
            slots_trackable(game.characters@, old(self)@.characters),
            slots_trackable(game.objects@, old(self)@.objects),
            old(self)@.characters.len() <= 256,
            old(self)@.objects.len() <= 256,
        ensures
            r.igt_seconds == game.igt_seconds,
            r.igt_frames == game.igt_frames,
            r.num_rng_rolls == 0,
            r.game_changes@ == game_delta_spec(old(self)@.state, game_state_of(*game)),
            diffs_view(r.character_diffs@) == slots_diffs(game.characters@, old(self)@.characters,
                slots_compared(game.characters@, old(self)@.characters)),
            diffs_view(r.object_diffs@) == slots_diffs(game.objects@, old(self)@.objects,
                slots_compared(game.objects@, old(self)@.objects)),
            final(self)@.state == game_state_of(*game),
            final(self)@.characters == slots_after(game.characters@, old(self)@.characters),
            final(self)@.objects == slots_after(game.objects@, old(self)@.objects),
    {
        let game_changes = self.state.track_delta(game);
        let character_diffs = Self::track_slots(&mut self.characters, &game.characters);
        let object_diffs = Self::track_slots(&mut self.objects, &game.objects);
        FrameRecord {
            igt_seconds: game.igt_seconds,
            igt_frames: game.igt_frames,
            num_rng_rolls: 0,
            game_changes,
            character_diffs,
            object_diffs,
        }
    }
}

/// Tracking the game again with the same values records nothing.
pub proof fn lemma_game_delta_settles(g: GameSnapshot)
    ensures
        game_delta_spec(game_state_of(g), game_state_of(g)) == Seq::<GameField>::empty(),
{
    assert(game_delta_spec(game_state_of(g), game_state_of(g)) =~= Seq::<GameField>::empty());
}

/// Once a character has been tracked, tracking it again with the same values records
/// nothing.
pub proof fn lemma_track_delta_settles(s: CharacterStateView, c: Character, t: Seq<MATRIX>)
    requires
        t.len() <= s.model_part_transforms.len(),
    ensures
        char_delta_spec(char_state_after(s, c, t), c, t) == Seq::<CharacterField>::empty(),
{
    let s2 = char_state_after(s, c, t);
    assert(s2.model_part_transforms.subrange(0, t.len() as int) =~= t);
    assert forall|k: nat| k <= t.len() implies #[trigger] model_part_changes(s2.model_part_transforms, t,
        model_parts_needed_spec(c.id), k) == Seq::<CharacterField>::empty() by {
        lemma_no_model_part_changes(s2.model_part_transforms, t, model_parts_needed_spec(c.id), k);
    }
    assert(char_delta_spec(s2, c, t) =~= Seq::<CharacterField>::empty());
}

/// Model part changes record only model part transforms.
proof fn lemma_model_part_changes_kind(old: Seq<MATRIX>, new: Seq<MATRIX>, needed: Seq<usize>, k: nat)
    requires
        k <= new.len(),
    ensures
        forall|i: int| 0 <= i < model_part_changes(old, new, needed, k).len()
            ==> #[trigger] model_part_changes(old, new, needed, k)[i] is ModelPartTransform,
    decreases k,
{
    if k > 0 {
        lemma_model_part_changes_kind(old, new, needed, (k - 1) as nat);
    }
}

/// Tracking a character records its health exactly when the health changed, and never records
/// the motion value.
#[verifier::spinoff_prover]
#[verifier::rlimit(100)]
pub proof fn lemma_track_delta_fields(s: CharacterStateView, c: Character, t: Seq<MATRIX>)
    ensures
        forall|i: int| 0 <= i < char_delta_spec(s, c, t).len() ==> !(#[trigger] char_delta_spec(s, c, t)[i] is Motion),
        char_delta_spec(s, c, t).contains(CharacterField::Health(c.health)) <==> s.health != c.health,
{
    let m = model_part_changes(s.model_part_transforms, t, model_parts_needed_spec(c.id), t.len());
    lemma_model_part_changes_kind(s.model_part_transforms, t, model_parts_needed_spec(c.id), t.len());
    let h = head_delta_spec(s, c);
    let type_ = (c.type_ % 256) as u8;
    let ta = change_if(s.motion_angle != c.motion_angle, CharacterField::MotionAngle(c.motion_angle))
        + change_if(
            s.x_size != c.parts[0].x_size || s.z_size != c.parts[0].z_size,
            CharacterField::Size(c.parts[0].x_size, c.parts[0].z_size),
        )
        + change_if(s.floor != c.floor, CharacterField::Floor(c.floor))
        + change_if(s.velocity != c.velocity, CharacterField::Velocity(c.velocity));
    let th = change_if(s.health != c.health, CharacterField::Health(c.health));
    let tt = change_if(s.type_ != type_, CharacterField::Type(type_));
    let a = h + m + ta;
    let d = char_delta_spec(s, c, t);
    assert(d =~= a + th + tt);
    assert forall|i: int| 0 <= i < h.len() implies !(#[trigger] h[i] is Motion) && !(h[i] is Health) by {}
    assert forall|i: int| 0 <= i < ta.len() implies !(#[trigger] ta[i] is Motion) && !(ta[i] is Health) by {}
    assert forall|i: int| 0 <= i < a.len() implies !(#[trigger] a[i] is Motion) && !(a[i] is Health) by {
        if i < h.len() {
            assert(a[i] == h[i]);
        } else if i < h.len() + m.len() {
            assert(a[i] == m[i - h.len()]);
        } else {
            assert(a[i] == ta[i - h.len() - m.len()]);
        }
    }
    assert forall|i: int| 0 <= i < d.len() implies !(#[trigger] d[i] is Motion) by {
        if i < a.len() {
            assert(d[i] == a[i]);
        } else if i < a.len() + th.len() {
            assert(d[i] == th[i - a.len()]);
        } else {
            assert(d[i] == tt[i - a.len() - th.len()]);
        }
    }
    if d.contains(CharacterField::Health(c.health)) {
        let i = choose|i: int| 0 <= i < d.len() && d[i] == CharacterField::Health(c.health);
        if i < a.len() {
            assert(d[i] == a[i]);
        } else if i < a.len() + th.len() {
            assert(d[i] == th[i - a.len()]);
        } else {
            assert(d[i] == tt[i - a.len() - th.len()]);
        }
    }
    if s.health != c.health {
        assert(d[a.len() as int] == CharacterField::Health(c.health));
    }
}

proof fn lemma_contains_concat(a: Seq<CharacterField>, b: Seq<CharacterField>, x: CharacterField)
    ensures
        (a + b).contains(x) <==> a.contains(x) || b.contains(x),
{
    if (a + b).contains(x) {
        let i = choose|i: int| 0 <= i < (a + b).len() && (a + b)[i] == x;
        if i < a.len() {
            assert(a[i] == x);
        } else {
            assert(b[i - a.len()] == x);
        }
    }
    if a.contains(x) {
        let i = choose|i: int| 0 <= i < a.len() && a[i] == x;
        assert((a + b)[i] == x);
    }
    if b.contains(x) {
        let i = choose|i: int| 0 <= i < b.len() && b[i] == x;
        assert((a + b)[a.len() + i] == x);
    }
}

proof fn lemma_change_if_contains(changed: bool, f: CharacterField, x: CharacterField)
    ensures
        change_if(changed, f).contains(x) <==> changed && f == x,
{
    if changed {
        assert(change_if(changed, f)[0] == f);
    }
}

proof fn lemma_model_changes_contain(old: Seq<MATRIX>, new: Seq<MATRIX>, needed: Seq<usize>, k: nat, x: CharacterField)
    requires
        k <= new.len(),
        !(x is ModelPartTransform),
    ensures
        !model_part_changes(old, new, needed, k).contains(x),
{
    lemma_model_part_changes_kind(old, new, needed, k);
}

pub open spec fn head_records(s: CharacterStateView, c: Character, x: CharacterField) -> bool {
    ||| s.flags != c.flags && x == CharacterField::Flags(c.flags)
    ||| s.state != c.state && x == CharacterField::State(c.state)
    ||| s.id != c.id && x == CharacterField::Id(c.id)
    ||| s.transform != c.transform && x == CharacterField::Transform(c.transform)
    ||| s.part_translation != c.parts[0].pos && x == CharacterField::PartTranslation(0, c.parts[0].pos)
}

pub open spec fn tail_records(s: CharacterStateView, c: Character, x: CharacterField) -> bool {
    ||| s.motion_angle != c.motion_angle && x == CharacterField::MotionAngle(c.motion_angle)
    ||| (s.x_size != c.parts[0].x_size || s.z_size != c.parts[0].z_size)
        && x == CharacterField::Size(c.parts[0].x_size, c.parts[0].z_size)
    ||| s.floor != c.floor && x == CharacterField::Floor(c.floor)
    ||| s.velocity != c.velocity && x == CharacterField::Velocity(c.velocity)
    ||| s.health != c.health && x == CharacterField::Health(c.health)
    ||| s.type_ != ((c.type_ % 256) as u8) && x == CharacterField::Type((c.type_ % 256) as u8)
}

proof fn lemma_head_contains(s: CharacterStateView, c: Character, x: CharacterField)
    ensures
        head_delta_spec(s, c).contains(x) <==> head_records(s, c, x),
{
    let h1 = change_if(s.flags != c.flags, CharacterField::Flags(c.flags));
    let h2 = change_if(s.state != c.state, CharacterField::State(c.state));
    let h3 = change_if(s.id != c.id, CharacterField::Id(c.id));
    let h4 = change_if(s.transform != c.transform, CharacterField::Transform(c.transform));
    let h5 = change_if(s.part_translation != c.parts[0].pos, CharacterField::PartTranslation(0, c.parts[0].pos));
    lemma_contains_concat(h1, h2, x);
    lemma_contains_concat(h1 + h2, h3, x);
    lemma_contains_concat(h1 + h2 + h3, h4, x);
    lemma_contains_concat(h1 + h2 + h3 + h4, h5, x);
    lemma_change_if_contains(s.flags != c.flags, CharacterField::Flags(c.flags), x);
    lemma_change_if_contains(s.state != c.state, CharacterField::State(c.state), x);
    lemma_change_if_contains(s.id != c.id, CharacterField::Id(c.id), x);
    lemma_change_if_contains(s.transform != c.transform, CharacterField::Transform(c.transform), x);
    lemma_change_if_contains(s.part_translation != c.parts[0].pos, CharacterField::PartTranslation(0, c.parts[0].pos), x);
}

proof fn lemma_tail_contains(s: CharacterStateView, c: Character, x: CharacterField)
    ensures
        tail_delta_spec(s, c).contains(x) <==> tail_records(s, c, x),
{
    let type_ = (c.type_ % 256) as u8;
    let t1 = change_if(s.motion_angle != c.motion_angle, CharacterField::MotionAngle(c.motion_angle));
    let t2 = change_if(
        s.x_size != c.parts[0].x_size || s.z_size != c.parts[0].z_size,
        CharacterField::Size(c.parts[0].x_size, c.parts[0].z_size),
    );
    let t3 = change_if(s.floor != c.floor, CharacterField::Floor(c.floor));
    let t4 = change_if(s.velocity != c.velocity, CharacterField::Velocity(c.velocity));
    let t5 = change_if(s.health != c.health, CharacterField::Health(c.health));
    let t6 = change_if(s.type_ != type_, CharacterField::Type(type_));
    lemma_contains_concat(t1, t2, x);
    lemma_contains_concat(t1 + t2, t3, x);
    lemma_contains_concat(t1 + t2 + t3, t4, x);
    lemma_contains_concat(t1 + t2 + t3 + t4, t5, x);
    lemma_contains_concat(t1 + t2 + t3 + t4 + t5, t6, x);
    lemma_change_if_contains(s.motion_angle != c.motion_angle, CharacterField::MotionAngle(c.motion_angle), x);
    lemma_change_if_contains(s.x_size != c.parts[0].x_size || s.z_size != c.parts[0].z_size,
        CharacterField::Size(c.parts[0].x_size, c.parts[0].z_size), x);
    lemma_change_if_contains(s.floor != c.floor, CharacterField::Floor(c.floor), x);
    lemma_change_if_contains(s.velocity != c.velocity, CharacterField::Velocity(c.velocity), x);
    lemma_change_if_contains(s.health != c.health, CharacterField::Health(c.health), x);
    lemma_change_if_contains(s.type_ != type_, CharacterField::Type(type_), x);
}

/// A change other than a model part's is recorded exactly when its field changed.
proof fn lemma_delta_contains(s: CharacterStateView, c: Character, t: Seq<MATRIX>, x: CharacterField)
    requires
        !(x is ModelPartTransform),
    ensures
        char_delta_spec(s, c, t).contains(x) <==> head_records(s, c, x) || tail_records(s, c, x),
{
    let h = head_delta_spec(s, c);
    let m = model_part_changes(s.model_part_transforms, t, model_parts_needed_spec(c.id), t.len());
    let tl = tail_delta_spec(s, c);
    lemma_head_contains(s, c, x);
    lemma_tail_contains(s, c, x);
    lemma_model_changes_contain(s.model_part_transforms, t, model_parts_needed_spec(c.id), t.len(), x);
    lemma_contains_concat(h, m, x);
    lemma_contains_concat(h + m, tl, x);
}

/// Tracking a character records each of its flags, AI state, id, transform, motion angle,
/// floor and velocity exactly when that field changed.
pub proof fn lemma_track_delta_reports(s: CharacterStateView, c: Character, t: Seq<MATRIX>)
    ensures
        char_delta_spec(s, c, t).contains(CharacterField::Flags(c.flags)) <==> s.flags != c.flags,
        char_delta_spec(s, c, t).contains(CharacterField::State(c.state)) <==> s.state != c.state,
        char_delta_spec(s, c, t).contains(CharacterField::Id(c.id)) <==> s.id != c.id,
        char_delta_spec(s, c, t).contains(CharacterField::Transform(c.transform)) <==> s.transform != c.transform,
        char_delta_spec(s, c, t).contains(CharacterField::MotionAngle(c.motion_angle)) <==> s.motion_angle != c.motion_angle,
        char_delta_spec(s, c, t).contains(CharacterField::Floor(c.floor)) <==> s.floor != c.floor,
        char_delta_spec(s, c, t).contains(CharacterField::Velocity(c.velocity)) <==> s.velocity != c.velocity,
{
    lemma_delta_contains(s, c, t, CharacterField::Flags(c.flags));
    lemma_delta_contains(s, c, t, CharacterField::State(c.state));
    lemma_delta_contains(s, c, t, CharacterField::Id(c.id));
    lemma_delta_contains(s, c, t, CharacterField::Transform(c.transform));
    lemma_delta_contains(s, c, t, CharacterField::MotionAngle(c.motion_angle));
    lemma_delta_contains(s, c, t, CharacterField::Floor(c.floor));
    lemma_delta_contains(s, c, t, CharacterField::Velocity(c.velocity));
}

proof fn lemma_no_model_part_changes(old: Seq<MATRIX>, new: Seq<MATRIX>, needed: Seq<usize>, k: nat)
    requires
        k <= new.len() <= old.len(),
        old.subrange(0, new.len() as int) == new,
    ensures
        model_part_changes(old, new, needed, k) == Seq::<CharacterField>::empty(),
    decreases k,
{
    if k > 0 {
        lemma_no_model_part_changes(old, new, needed, (k - 1) as nat);
        assert(old[k - 1] == old.subrange(0, new.len() as int)[k - 1]);
        assert(model_part_changes(old, new, needed, k) =~= Seq::<CharacterField>::empty());
    }
}

proof fn lemma_slot_settles(i: int, c: Option<CharacterSnapshot>, s: Option<CharacterStateView>)
    requires
        slot_trackable(c, s),
    ensures
        slot_trackable(c, slot_after(c, s)),
        slot_diffs(i, c, slot_after(c, s)) == Seq::<CharacterDiffView>::empty(),
{
    match (c, s) {
        (Some(c), None) => {
            let t = transforms_of(c.model_parts@);
            let st = snapshot_state(c);
            assert(char_state_after(st, c.character, t) == st) by {
                assert(t + st.model_part_transforms.skip(t.len() as int) =~= t);
            }
            lemma_track_delta_settles(st, c.character, t);
        },
        (Some(c), Some(s)) => {
            lemma_track_delta_settles(s, c.character, transforms_of(c.model_parts@));
        },
        _ => {},
    }
}

proof fn lemma_slots_settle(cs: Seq<Option<CharacterSnapshot>>, ss: Seq<Option<CharacterStateView>>, k: nat)
    requires
        slots_trackable(cs, ss),
        k <= slots_compared(cs, ss),
    ensures
        slots_diffs(cs, slots_after(cs, ss), k) == Seq::<CharacterDiffView>::empty(),
    decreases k,
{
    if k > 0 {
        lemma_slots_settle(cs, ss, (k - 1) as nat);
        assert(slot_trackable(cs[k - 1], ss[k - 1]));
        lemma_slot_settles(k - 1, cs[k - 1], ss[k - 1]);
        assert(slots_after(cs, ss)[k - 1] == slot_after(cs[k - 1], ss[k - 1]));
        assert(slots_diffs(cs, slots_after(cs, ss), k) =~= Seq::<CharacterDiffView>::empty());
    }
}

/// Recording the same game values twice: the second frame can be tracked too, and it records
/// no game change and no character or object diff.
pub proof fn lemma_tracker_settles(t: GameTrackerView, g: GameSnapshot)
    requires
        slots_trackable(g.characters@, t.characters),
        slots_trackable(g.objects@, t.objects),
    ensures
        slots_trackable(g.characters@, slots_after(g.characters@, t.characters)),
        slots_trackable(g.objects@, slots_after(g.objects@, t.objects)),
        game_delta_spec(game_state_of(g), game_state_of(g)) == Seq::<GameField>::empty(),
        slots_diffs(g.characters@, slots_after(g.characters@, t.characters),
            slots_compared(g.characters@, slots_after(g.characters@, t.characters))) == Seq::<CharacterDiffView>::empty(),
        slots_diffs(g.objects@, slots_after(g.objects@, t.objects),
            slots_compared(g.objects@, slots_after(g.objects@, t.objects))) == Seq::<CharacterDiffView>::empty(),
{
    lemma_game_delta_settles(g);
    lemma_slots_settle(g.characters@, t.characters, slots_compared(g.characters@, t.characters));
    lemma_slots_settle(g.objects@, t.objects, slots_compared(g.objects@, t.objects));
    assert forall|i: int| 0 <= i < slots_compared(g.characters@, slots_after(g.characters@, t.characters)) implies
        #[trigger] slot_trackable(g.characters@[i], slots_after(g.characters@, t.characters)[i]) by {
        assert(slot_trackable(g.characters@[i], t.characters[i]));
        lemma_slot_settles(i, g.characters@[i], t.characters[i]);
    }
    assert forall|i: int| 0 <= i < slots_compared(g.objects@, slots_after(g.objects@, t.objects)) implies
        #[trigger] slot_trackable(g.objects@[i], slots_after(g.objects@, t.objects)[i]) by {
        assert(slot_trackable(g.objects@[i], t.objects[i]));
        lemma_slot_settles(i, g.objects@[i], t.objects[i]);
    }
}

/// The number of model part indices below `k` whose transforms are recorded.
pub open spec fn needed_below(needed: Seq<usize>, k: nat) -> nat
    decreases k,
{
    if k == 0 {
        0
    } else {
        needed_below(needed, (k - 1) as nat) + if needed.contains((k - 1) as usize) { 1nat } else { 0nat }
    }
}

proof fn lemma_model_part_changes_len(old: Seq<MATRIX>, new: Seq<MATRIX>, needed: Seq<usize>, k: nat)
    ensures
        model_part_changes(old, new, needed, k).len() <= needed_below(needed, k),
    decreases k,
{
    if k > 0 {
        lemma_model_part_changes_len(old, new, needed, (k - 1) as nat);
    }
}

#[verifier::spinoff_prover]
proof fn lemma_needed_below_bound(id: u8, k: nat)
    requires
        k <= usize::MAX + 1,
    ensures
        needed_below(model_parts_needed_spec(id), k) <= 2,
    decreases k,
{
    let needed = model_parts_needed_spec(id);
    if k > 12 {
        lemma_needed_below_bound(id, (k - 1) as nat);
        assert(((k - 1) as usize) as int == k - 1);
        assert(!needed.contains((k - 1) as usize)) by {
            if needed.contains((k - 1) as usize) {
                let j = choose|j: int| 0 <= j < needed.len() && needed[j] == (k - 1) as usize;
            }
        }
        assert(needed_below(needed, k) == needed_below(needed, (k - 1) as nat));
    } else {
        assert(needed.contains(4usize) ==> id == 32) by {
            if needed.contains(4usize) {
                let j = choose|j: int| 0 <= j < needed.len() && needed[j] == 4usize;
            }
        }
        reveal_with_fuel(needed_below, 13);
        assert forall|j: usize| needed.contains(j) implies (id == 32 && j == 4) || (id == 49 && (j == 6 || j == 11)) by {
            let i = choose|i: int| 0 <= i < needed.len() && needed[i] == j;
        }
        if id == 49 {
            assert(needed.contains(6usize) && needed.contains(11usize)) by {
                assert(needed[0] == 6usize && needed[1] == 11usize);
            }
        }
        if id == 32 {
            assert(needed.contains(4usize)) by {
                assert(needed[0] == 4usize);
            }
        }
    }
}

#[verifier::spinoff_prover]
#[verifier::rlimit(40)]
proof fn lemma_slot_diffs_wf(i: int, c: Option<CharacterSnapshot>, s: Option<CharacterStateView>)
    ensures
        slot_diffs(i, c, s).len() <= 1,
        forall|j: int| 0 <= j < slot_diffs(i, c, s).len() ==> #[trigger] diff_wf(slot_diffs(i, c, s)[j]),
{
    match (c, s) {
        (Some(c), Some(st)) => {
            let t = transforms_of(c.model_parts@);
            assert(c.model_parts@.len() == c.model_parts.len());
            lemma_model_part_changes_len(st.model_part_transforms, t, model_parts_needed_spec(c.character.id), t.len());
            lemma_needed_below_bound(c.character.id, t.len());
        },
        _ => {},
    }
}

proof fn lemma_slots_diffs_wf(cs: Seq<Option<CharacterSnapshot>>, ss: Seq<Option<CharacterStateView>>, k: nat)
    requires
        k <= slots_compared(cs, ss),
    ensures
        slots_diffs(cs, ss, k).len() <= k,
        all_wf(slots_diffs(cs, ss, k), wf_diff()),
    decreases k,
{
    if k > 0 {
        let i = k - 1;
        lemma_slots_diffs_wf(cs, ss, (k - 1) as nat);
        let d = slot_diffs(i, cs[i], ss[i]);
        lemma_slot_diffs_wf(i, cs[i], ss[i]);
        let prev = slots_diffs(cs, ss, (k - 1) as nat);
        assert(all_wf(prev + d, wf_diff())) by {
            assert forall|j: int| 0 <= j < (prev + d).len() implies #[trigger] wf_diff()((prev + d)[j]) by {
                if j < prev.len() {
                    assert(wf_diff()(prev[j]));
                } else {
                    assert(diff_wf(d[j - prev.len()]));
                }
            }
        }
    }
}

/// Every frame the recorder records can be read back from a recording: it has at most eight
/// game changes, at most one diff per slot, and few changes per diff, so every list fits its
/// count byte (when the tracker has fewer than 256 slots of each kind).
pub proof fn lemma_tracked_frame_readable(t: GameTrackerView, g: GameSnapshot, num_rng_rolls: u16)
    requires
        t.characters.len() < 256,
        t.objects.len() < 256,
    ensures
        frame_wf(RECORD_VERSION, FrameRecordView {
            igt_seconds: g.igt_seconds,
            igt_frames: g.igt_frames,
            num_rng_rolls,
            game_changes: game_delta_spec(t.state, game_state_of(g)),
            character_diffs: slots_diffs(g.characters@, t.characters, slots_compared(g.characters@, t.characters)),
            object_diffs: slots_diffs(g.objects@, t.objects, slots_compared(g.objects@, t.objects)),
        }),
{
    lemma_slots_diffs_wf(g.characters@, t.characters, slots_compared(g.characters@, t.characters));
    lemma_slots_diffs_wf(g.objects@, t.objects, slots_compared(g.objects@, t.objects));
    assert(game_delta_spec(t.state, game_state_of(g)).len() <= 8);
}

} // verus!
