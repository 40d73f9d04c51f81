//! The player's animation choice during playback: which animation a movement state plays at
//! the player's health, how fast the player turns in it, and how the frame advances.

use vstd::prelude::*;
use crate::analysis::InputState;
use crate::character::{Character, WorldVec3};
use crate::world::WorldVec;

verus! {

/// Health above which the player moves normally.
pub const CAUTION_THRESHOLD: i16 = 100;
/// Health above which the player moves as when in caution (and below which, in danger).
pub const DANGER_THRESHOLD: i16 = 20;

/// An animation: one of the character model's, one of the weapon's, or one of the room's.
#[derive(Debug, Clone, Copy, PartialEq, Eq, Structural)]
pub enum AnimationId {
    Model(usize),
    Weapon(usize),
    Room(usize),
}

/// The movement set for a health value: 0 normal, 1 caution, 2 danger.
pub open spec fn move_type_spec(health: i16) -> usize {
    if health > CAUTION_THRESHOLD { 0 } else if health > DANGER_THRESHOLD { 1 } else { 2 }
}

pub fn move_type(health: i16) -> (r: usize)
    ensures
        r == move_type_spec(health),
{
    if health > CAUTION_THRESHOLD {
        0
    } else if health > DANGER_THRESHOLD {
        1
    } else {
        2
    }
}

/// The animation a movement state plays and the rate at which holding left or right turns
/// the player (in the game's angle units per frame).
#[derive(Debug, Clone, Copy, PartialEq, Eq, Structural)]
pub struct MotionChoice {
    pub animation_id: Option<AnimationId>,
    pub turn_rate: i32,
}

/// The motion for a player state (idle, walk, run, back up, turn in place) and movement set:
/// idle plays weapon animation 2, 5 or 8; walking 0, 3 or 6; running 1, 4 or 7; backing up
/// model animation 0 or 9. Other states play no tracked animation and do not turn.
pub open spec fn motion_spec(state: [u8; 4], move_type: usize) -> MotionChoice {
    let m = move_type as int;
    if state[0] != 0x01 {
        MotionChoice { animation_id: None, turn_rate: 0 }
    } else if state[1] == 0x00 {
        MotionChoice { animation_id: Some(AnimationId::Weapon((2 + 3 * m) as usize)), turn_rate: 0 }
    } else if state[1] == 0x01 {
        MotionChoice { animation_id: Some(AnimationId::Weapon((3 * m) as usize)),
            turn_rate: if m == 0 { 0x28 } else if m == 1 { 0x20 } else { 0x10 } }
    } else if state[1] == 0x02 {
        MotionChoice { animation_id: Some(AnimationId::Weapon((1 + 3 * m) as usize)),
            turn_rate: if m == 0 { 0x38 } else if m == 1 { 0x30 } else { 0x18 } }
    } else if state[1] == 0x03 {
        MotionChoice { animation_id: Some(AnimationId::Model(if m == 0 { 0 } else { 9 })),
            turn_rate: if m == 0 { 0x28 } else { 0x10 } }
    } else if state[1] == 0x04 {
        MotionChoice { animation_id: None, turn_rate: if m == 0 { 0x50 } else if m == 1 { 0x30 } else { 0x20 } }
    } else {
        MotionChoice { animation_id: None, turn_rate: 0 }
    }
}

/// Chooses the animation and turn rate for a player state at the given health.
pub fn choose_motion(state: [u8; 4], health: i16) -> (r: MotionChoice)
    ensures
        r == motion_spec(state, move_type_spec(health)),
{
    let m = move_type(health);
    let idle: [AnimationId; 3] = [AnimationId::Weapon(2), AnimationId::Weapon(5), AnimationId::Weapon(8)];
    let walk: [AnimationId; 3] = [AnimationId::Weapon(0), AnimationId::Weapon(3), AnimationId::Weapon(6)];
    let run: [AnimationId; 3] = [AnimationId::Weapon(1), AnimationId::Weapon(4), AnimationId::Weapon(7)];
    let back_up: [AnimationId; 3] = [AnimationId::Model(0), AnimationId::Model(9), AnimationId::Model(9)];
    let stand_turn: [i32; 3] = [0x50, 0x30, 0x20];
    let walk_turn: [i32; 3] = [0x28, 0x20, 0x10];
    let run_turn: [i32; 3] = [0x38, 0x30, 0x18];
    let back_up_turn: [i32; 3] = [0x28, 0x10, 0x10];
    if state[0] != 0x01 {
        MotionChoice { animation_id: None, turn_rate: 0 }
    } else if state[1] == 0x00 {
        MotionChoice { animation_id: Some(idle[m]), turn_rate: 0 }
    } else if state[1] == 0x01 {
        MotionChoice { animation_id: Some(walk[m]), turn_rate: walk_turn[m] }
    } else if state[1] == 0x02 {
        MotionChoice { animation_id: Some(run[m]), turn_rate: run_turn[m] }
    } else if state[1] == 0x03 {
        MotionChoice { animation_id: Some(back_up[m]), turn_rate: back_up_turn[m] }
    } else if state[1] == 0x04 {
        MotionChoice { animation_id: None, turn_rate: stand_turn[m] }
    } else {
        MotionChoice { animation_id: None, turn_rate: 0 }
    }
}

/// Where playback stands: the animation playing, if any, and its frame.
#[derive(Debug, Clone, Copy, PartialEq, Eq, Structural)]
pub struct AnimationCursor {
    pub animation_id: Option<AnimationId>,
    pub frame_index: usize,
}

impl AnimationCursor {
    /// No animation.
    pub fn empty() -> (r: Self)
        ensures
            r.animation_id is None,
            r.frame_index == 0,
    {
        Self { animation_id: None, frame_index: 0 }
    }

    /// Stops playing.
    pub fn clear_animation(&mut self)
        ensures
            final(self).animation_id is None,
            final(self).frame_index == 0,
    {
        self.animation_id = None;
        self.frame_index = 0;
    }

    /// The room changed: a room animation belongs to the old room and stops.
    pub fn leave_room(&mut self)
        ensures
            *final(self) == if old(self).animation_id matches Some(AnimationId::Room(_)) {
                AnimationCursor { animation_id: None, frame_index: 0 }
            } else {
                *old(self)
            },
    {
        if let Some(AnimationId::Room(_)) = self.animation_id {
            self.clear_animation();
        }
    }

    /// Moves to the next frame of `animation_id`: the following frame if it is already
    /// playing, its first frame otherwise; with no animation, playback stops.
    pub fn advance(&mut self, animation_id: Option<AnimationId>)
        requires
            old(self).frame_index < usize::MAX,
        ensures
            *final(self) == advanced(*old(self), animation_id),
    {
        if animation_id.is_none() {
            self.clear_animation();
            return;
        }
        if self.animation_id == animation_id {
            self.frame_index += 1;
        } else {
            self.animation_id = animation_id;
            self.frame_index = 0;
        }
    }

    /// Keeps the frame within an animation of `len` frames, looping; an animation with no
    /// frames stops playback.
    pub fn wrap_to(&mut self, len: usize)
        ensures
            *final(self) == if len == 0 {
                AnimationCursor { animation_id: None, frame_index: 0 }
            } else {
                AnimationCursor { animation_id: old(self).animation_id, frame_index: old(self).frame_index % len }
            },
    {
        if len == 0 {
            self.clear_animation();
        } else {
            self.frame_index = self.frame_index % len;
        }
    }
}

/// The angle after a frame of holding right (turning by `turn_rate`) and left (turning back by
/// it), each where it is held.
pub open spec fn turned(angle: i32, turn_rate: i32, inputs: InputState) -> i32 {
    let a = if inputs.is_right_pressed { angle.wrapping_add(turn_rate) } else { angle };
    if inputs.is_left_pressed { a.wrapping_sub(turn_rate) } else { a }
}

/// Where the cursor stands after moving to the next frame of `animation_id` (see `advance`).
pub open spec fn advanced(cursor: AnimationCursor, animation_id: Option<AnimationId>) -> AnimationCursor {
    match animation_id {
        None => AnimationCursor { animation_id: None, frame_index: 0 },
        Some(_) => if cursor.animation_id == animation_id {
            AnimationCursor { animation_id, frame_index: (cursor.frame_index + 1) as usize }
        } else {
            AnimationCursor { animation_id, frame_index: 0 }
        },
    }
}

impl AnimationCursor {
    /// One frame of playback for the player `character`: it turns at its state's rate as the
    /// held buttons ask, and the cursor moves on in its state's animation (see `choose_motion`).
    /// The animation's frames are not part of this library: the caller then keeps the frame
    /// within the animation (`wrap_to`) and takes the frame's velocity (`frame_velocity`).
    pub fn step(&mut self, character: &mut Character, inputs: &InputState)
        requires
            old(self).frame_index < usize::MAX,
        ensures
            ({
                let m = motion_spec(old(character).state, move_type_spec(old(character).current_health));
                &&& *final(character) == (Character { angle: turned(old(character).angle, m.turn_rate, *inputs), ..*old(character) })
                &&& *final(self) == advanced(*old(self), m.animation_id)
            }),
    {
        let motion = choose_motion(character.state, character.current_health);
        if inputs.is_right_pressed {
            character.angle = character.angle.wrapping_add(motion.turn_rate);
        }
        if inputs.is_left_pressed {
            character.angle = character.angle.wrapping_sub(motion.turn_rate);
        }
        self.advance(motion.animation_id);
    }
}

/// The horizontal velocity of frame `frame_index` of an animation whose frames have moved the
/// character by `speeds` from its start: the frame's speed less the previous frame's.
pub open spec fn frame_velocity_spec(speeds: Seq<WorldVec3>, frame_index: int) -> WorldVec {
    let s = speeds[frame_index];
    if frame_index > 0 {
        let p = speeds[frame_index - 1];
        WorldVec { x: s.x.wrapping_sub(p.x), z: s.z.wrapping_sub(p.z) }
    } else {
        WorldVec { x: s.x, z: s.z }
    }
}

pub fn frame_velocity(speeds: &[WorldVec3], frame_index: usize) -> (r: WorldVec)
    requires
        frame_index < speeds@.len(),
    ensures
        r == frame_velocity_spec(speeds@, frame_index as int),
{
    let s = speeds[frame_index];
    if frame_index > 0 {
        let p = speeds[frame_index - 1];
        WorldVec { x: s.x.wrapping_sub(p.x), z: s.z.wrapping_sub(p.z) }
    } else {
        WorldVec { x: s.x, z: s.z }
    }
}

} // verus!
