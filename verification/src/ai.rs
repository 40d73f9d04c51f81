//! The AI zones of enemies: which AI states a zone applies to, the zone tables of lickers and
//! zombies, and the names of AI states.

use vstd::prelude::*;
use crate::math::{Fixed12, UFixed12};

verus! {

/// A condition on one byte of a character's AI state.
#[derive(Debug, Clone, Copy, PartialEq, Eq, Structural)]
pub enum StateMask {
    Any,
    Exactly(u8),
    Either(u8, u8),
    OneOf3(u8, u8, u8),
    OneOf4(u8, u8, u8, u8),
    Between(u8, u8),
}

impl StateMask {
    pub open spec fn matches_spec(self, state: u8) -> bool {
        match self {
            StateMask::Any => true,
            StateMask::Exactly(v) => state == v,
            StateMask::Either(v1, v2) => state == v1 || state == v2,
            StateMask::OneOf3(v1, v2, v3) => state == v1 || state == v2 || state == v3,
            StateMask::OneOf4(v1, v2, v3, v4) => state == v1 || state == v2 || state == v3 || state == v4,
            StateMask::Between(lo, hi) => lo <= state <= hi,
        }
    }

    /// Whether the state byte satisfies the condition.
    pub fn matches(&self, state: u8) -> (r: bool)
        ensures
            r == self.matches_spec(state),
    {
        match self {
            StateMask::Any => true,
            StateMask::Exactly(value) => state == *value,
            StateMask::Either(value1, value2) => state == *value1 || state == *value2,
            StateMask::OneOf3(value1, value2, value3) => state == *value1 || state == *value2 || state == *value3,
            StateMask::OneOf4(value1, value2, value3, value4) => {
                state == *value1 || state == *value2 || state == *value3 || state == *value4
            },
            StateMask::Between(value1, value2) => state >= *value1 && state <= *value2,
        }
    }
}

/// What entering an AI zone leads to.
#[derive(Debug, Copy, Clone, PartialEq, Eq, Structural)]
pub enum BehaviorType {
    Aggro,
    Attack,
    ChangeTactic,
    Hit,
}

/// A cone (or circle, or its outside) around an enemy in which some behaviour triggers.
#[derive(Debug, Clone, Copy)]
pub struct AiCone {
    pub name: &'static str,
    pub description: &'static str,
    pub behavior_type: BehaviorType,
    pub half_angle: Fixed12,
    pub offset_angle: Fixed12,
    pub radius: UFixed12,
    pub inverted: bool,
    pub state_mask: [StateMask; 4],
}

impl AiCone {
    /// Whether the zone applies in the given AI state: every byte meets its condition.
    pub fn check_state(&self, state: &[u8; 4]) -> (r: bool)
        ensures
            r == forall|i: int| 0 <= i < 4 ==> #[trigger] self.state_mask[i].matches_spec(state[i]),
    {
        let mut i: usize = 0;
        while i < 4
            invariant
                i <= 4,
                forall|j: int| 0 <= j < i ==> #[trigger] self.state_mask[j].matches_spec(state[j]),
            decreases 4 - i,
        {
            if !self.state_mask[i].matches(state[i]) {
                return false;
            }
            i += 1;
        }
        true
    }
}

pub open spec fn player_ai_state_name(s: [u8; 4]) -> Seq<char> {
    if s[0] == 0x01 && s[1] == 0x00 { "Idle"@ }
    else if s[0] == 0x01 && s[1] == 0x01 { "Walk"@ }
    else if s[0] == 0x01 && s[1] == 0x02 { "Run"@ }
    else if s[0] == 0x01 && s[1] == 0x03 { "Backpedal"@ }
    else if s[0] == 0x01 && s[1] == 0x04 { "Turn"@ }
    else if s[0] == 0x01 && s[1] == 0x05 { "Weapon"@ }
    else if s[0] == 0x01 && s[1] == 0x0A { "Push object"@ }
    else if s[0] == 0x05 && s[1] == 0x00 && s[2] == 0x03 { "Grabbed"@ }
    else if s[0] == 0x05 && s[1] == 0x00 && s[2] == 0x05 { "Push enemy"@ }
    else { "Unknown"@ }
}

/// The name of the player's AI state.
pub fn describe_player_ai_state(state: &[u8; 4]) -> (r: &'static str)
    ensures
        r@ == player_ai_state_name(*state),
{
    let s0 = state[0];
    let s1 = state[1];
    let s2 = state[2];
    if s0 == 0x01 && s1 == 0x00 { "Idle" }
    else if s0 == 0x01 && s1 == 0x01 { "Walk" }
    else if s0 == 0x01 && s1 == 0x02 { "Run" }
    else if s0 == 0x01 && s1 == 0x03 { "Backpedal" }
    else if s0 == 0x01 && s1 == 0x04 { "Turn" }
    else if s0 == 0x01 && s1 == 0x05 { "Weapon" }
    else if s0 == 0x01 && s1 == 0x0A { "Push object" }
    else if s0 == 0x05 && s1 == 0x00 && s2 == 0x03 { "Grabbed" }
    else if s0 == 0x05 && s1 == 0x00 && s2 == 0x05 { "Push enemy" }
    else { "Unknown" }
}

/// The AI states in which a character's position moves with its animation: walking, running,
/// backpedalling, two further states of the seventh group, the second step of the ninth group,
/// and pushing an object. Only the player's movement is modelled; no other character moves.
pub open spec fn is_moving_spec(is_player: bool, s: [u8; 4]) -> bool {
    is_player && s[0] == 0x01 && (s[1] == 0x01 || s[1] == 0x02 || s[1] == 0x03
        || (s[1] == 0x07 && 0x03 <= s[2] <= 0x07) || (s[1] == 0x09 && s[3] == 0x02)
        || (s[1] == 0x0a && (s[2] == 0x04 || s[2] == 0x05)))
}

/// Whether a character in the given AI state is moving (see `is_moving_spec`).
pub fn is_moving(is_player: bool, state: &[u8; 4]) -> (r: bool)
    ensures
        r == is_moving_spec(is_player, *state),
{
    if !is_player {
        return false;
    }
    let (s0, s1, s2, s3) = (state[0], state[1], state[2], state[3]);
    s0 == 0x01 && (s1 == 0x01 || s1 == 0x02 || s1 == 0x03 || (s1 == 0x07 && 0x03 <= s2 && s2 <= 0x07)
        || (s1 == 0x09 && s3 == 0x02) || (s1 == 0x0a && (s2 == 0x04 || s2 == 0x05)))
}

pub open spec fn crawling_zombie_ai_state_name(s: [u8; 4]) -> Seq<char> {
    if s[0] == 0x01 && s[1] == 0x00 { "Crawl"@ }
    else if s[0] == 0x01 && s[1] == 0x01 { "Bite"@ }
    else if s[0] == 0x02 { "Hit"@ }
    else if s[0] == 0x03 { "Dying"@ }
    else if s[0] == 0x07 { "Dead"@ }
    else { "Unknown"@ }
}

/// The name of a crawling zombie's AI state.
pub fn describe_crawling_zombie_ai_state(state: &[u8; 4]) -> (r: &'static str)
    ensures
        r@ == crawling_zombie_ai_state_name(*state),
{
    let s0 = state[0];
    let s1 = state[1];
    if s0 == 0x01 && s1 == 0x00 { "Crawl" }
    else if s0 == 0x01 && s1 == 0x01 { "Bite" }
    else if s0 == 0x02 { "Hit" }
    else if s0 == 0x03 { "Dying" }
    else if s0 == 0x07 { "Dead" }
    else { "Unknown" }
}

pub open spec fn zombie_ai_state_name(s: [u8; 4]) -> Seq<char> {
    if s[0] == 0x01 && s[1] == 0x00 && s[2] == 0x03 { "Idle wander"@ }
    else if s[0] == 0x01 && s[1] == 0x00 { "Idle"@ }
    else if s[0] == 0x01 && s[1] == 0x01 { "Walk"@ }
    else if s[0] == 0x01 && s[1] == 0x02 { "Walk (arms raised)"@ }
    else if s[0] == 0x01 && s[1] == 0x03 { "Grab"@ }
    else if s[0] == 0x01 && s[1] == 0x05 { "Knockdown"@ }
    else if s[0] == 0x01 && s[1] == 0x08 { "Eat"@ }
    else if s[0] == 0x01 && s[1] == 0x09 { "Knockback"@ }
    else if s[0] == 0x01 && s[1] == 0x0C { "Lunge"@ }
    else if s[0] == 0x01 && s[1] == 0x0E { "Puke"@ }
    else if s[0] == 0x02 { "Hit"@ }
    else if s[0] == 0x03 { "Die"@ }
    else if s[0] == 0x07 { "Dead"@ }
    else { "Unknown"@ }
}

/// The name of a zombie's AI state.
pub fn describe_zombie_ai_state(state: &[u8; 4]) -> (r: &'static str)
    ensures
        r@ == zombie_ai_state_name(*state),
{
    let s0 = state[0];
    let s1 = state[1];
    let s2 = state[2];
    if s0 == 0x01 && s1 == 0x00 && s2 == 0x03 { "Idle wander" }
    else if s0 == 0x01 && s1 == 0x00 { "Idle" }
    else if s0 == 0x01 && s1 == 0x01 { "Walk" }
    else if s0 == 0x01 && s1 == 0x02 { "Walk (arms raised)" }
    else if s0 == 0x01 && s1 == 0x03 { "Grab" }
    else if s0 == 0x01 && s1 == 0x05 { "Knockdown" }
    else if s0 == 0x01 && s1 == 0x08 { "Eat" }
    else if s0 == 0x01 && s1 == 0x09 { "Knockback" }
    else if s0 == 0x01 && s1 == 0x0C { "Lunge" }
    else if s0 == 0x01 && s1 == 0x0E { "Puke" }
    else if s0 == 0x02 { "Hit" }
    else if s0 == 0x03 { "Die" }
    else if s0 == 0x07 { "Dead" }
    else { "Unknown" }
}

pub open spec fn licker_ai_state_name(s: [u8; 4]) -> Seq<char> {
    if s[0] == 0x01 && s[1] == 0x00 { "Idle"@ }
    else if s[0] == 0x01 && s[1] == 0x02 { "Recoil"@ }
    else if s[0] == 0x01 && s[1] == 0x06 { "Threatened"@ }
    else if s[0] == 0x01 && s[1] == 0x08 { "Lick"@ }
    else if s[0] == 0x01 && s[1] == 0x09 { "Slash"@ }
    else if s[0] == 0x01 && s[1] == 0x0A { "Jump"@ }
    else if s[0] == 0x01 && s[1] == 0x0C { "Investigate"@ }
    else if s[0] == 0x01 && s[1] == 0x0E { if s[3] <= 10 { "Pre-alert"@ } else { "Alert"@ } }
    else if s[0] == 0x01 && s[1] == 0x0F { "Try attack"@ }
    else if s[0] == 0x01 && s[1] == 0x14 { "Pursue"@ }
    else { "Unknown"@ }
}

/// The name of a licker's AI state (the alert state is named by its timer).
pub fn describe_licker_ai_state(state: &[u8; 4]) -> (r: &'static str)
    ensures
        r@ == licker_ai_state_name(*state),
{
    let s0 = state[0];
    let s1 = state[1];
    let timer = state[3];
    if s0 == 0x01 && s1 == 0x00 { "Idle" }
    else if s0 == 0x01 && s1 == 0x02 { "Recoil" }
    else if s0 == 0x01 && s1 == 0x06 { "Threatened" }
    else if s0 == 0x01 && s1 == 0x08 { "Lick" }
    else if s0 == 0x01 && s1 == 0x09 { "Slash" }
    else if s0 == 0x01 && s1 == 0x0A { "Jump" }
    else if s0 == 0x01 && s1 == 0x0C { "Investigate" }
    else if s0 == 0x01 && s1 == 0x0E { if timer <= 10 { "Pre-alert" } else { "Alert" } }
    else if s0 == 0x01 && s1 == 0x0F { "Try attack" }
    else if s0 == 0x01 && s1 == 0x14 { "Pursue" }
    else { "Unknown" }
}

// ---------------------------------------------------------------------------------------------
// The AI zone tables

/// A zone of the given name, description, behaviour, angles, radius, inversion and state
/// conditions.
pub open spec fn ai_cone(
    name: &'static str,
    description: &'static str,
    behavior_type: BehaviorType,
    half_angle: i16,
    offset_angle: i16,
    radius: u16,
    inverted: bool,
    state_mask: [StateMask; 4],
) -> AiCone {
    AiCone {
        name,
        description,
        behavior_type,
        half_angle: Fixed12(half_angle),
        offset_angle: Fixed12(offset_angle),
        radius: UFixed12(radius),
        inverted,
        state_mask,
    }
}

fn make_cone(
    name: &'static str,
    description: &'static str,
    behavior_type: BehaviorType,
    half_angle: i16,
    offset_angle: i16,
    radius: u16,
    inverted: bool,
    state_mask: [StateMask; 4],
) -> (c: AiCone)
    ensures
        c == ai_cone(name, description, behavior_type, half_angle, offset_angle, radius, inverted, state_mask),
{
    AiCone {
        name,
        description,
        behavior_type,
        half_angle: Fixed12(half_angle),
        offset_angle: Fixed12(offset_angle),
        radius: UFixed12(radius),
        inverted,
        state_mask,
    }
}

pub open spec fn black_licker_ai_cones_spec() -> Seq<AiCone> {
    seq![
        ai_cone("De-aggro", "Licker may de-aggro outside this range", BehaviorType::ChangeTactic, 0x800, 0, 8000, true, [StateMask::Exactly(0x01), StateMask::Exactly(0x0C), StateMask::Exactly(0x02), StateMask::Any]),
        ai_cone("Investigate aggro", "Licker may attack", BehaviorType::Aggro, 0x800, 0, 2500, false, [StateMask::Exactly(0x01), StateMask::Exactly(0x0C), StateMask::Exactly(0x02), StateMask::Any]),
        ai_cone("Sound aggro", "Licker will hear you if you make an audible sound", BehaviorType::Aggro, 0x800, 0, 5000, false, [StateMask::Exactly(0x01), StateMask::Exactly(0x0E), StateMask::Any, StateMask::Between(0x0B, 0xFF)]),
        ai_cone("Sound aggro", "Licker will hear you if you move at all", BehaviorType::Aggro, 0x800, 0, 3000, false, [StateMask::Exactly(0x01), StateMask::Exactly(0x0E), StateMask::Any, StateMask::Between(0x0B, 0xFF)]),
        ai_cone("Sound alert", "Licker will be alerted if you make an audible sound", BehaviorType::ChangeTactic, 0x800, 0, 3000, false, [StateMask::Exactly(0x01), StateMask::Exactly(0x00), StateMask::Any, StateMask::Any]),
        ai_cone("Slash hit", "Licker's slash attack hits you", BehaviorType::Hit, 0x154, 0, 2800, false, [StateMask::Exactly(0x01), StateMask::Exactly(0x09), StateMask::Any, StateMask::Between(0x02, 0x06)]),
        ai_cone("Lick hit", "Lick attack will hit you", BehaviorType::Hit, 0x100, 0, 2000, false, [StateMask::Exactly(0x01), StateMask::Exactly(0x08), StateMask::Any, StateMask::Exactly(0x19)]),
        ai_cone("Lick hit", "Lick attack will hit you", BehaviorType::Hit, 0x100, 0, 3000, false, [StateMask::Exactly(0x01), StateMask::Exactly(0x08), StateMask::Any, StateMask::Exactly(0x17)]),
        ai_cone("Lick hit", "Lick attack will hit you", BehaviorType::Hit, 0x100, 0, 4200, false, [StateMask::Exactly(0x01), StateMask::Exactly(0x08), StateMask::Any, StateMask::Exactly(0x15)]),
        ai_cone("Lick hit", "Lick attack will hit you", BehaviorType::Hit, 0x100, 0, 4500, false, [StateMask::Exactly(0x01), StateMask::Exactly(0x08), StateMask::Any, StateMask::Exactly(0x14)]),
        ai_cone("Lick hit", "Lick attack will hit you", BehaviorType::Hit, 0x100, 0, 4600, false, [StateMask::Exactly(0x01), StateMask::Exactly(0x08), StateMask::Any, StateMask::Exactly(0x13)]),
        ai_cone("Lick hit", "Lick attack will hit you", BehaviorType::Hit, 0x100, 0, 3500, false, [StateMask::Exactly(0x01), StateMask::Exactly(0x08), StateMask::Any, StateMask::Either(0x12, 0x16)]),
        ai_cone("Lick hit", "Lick attack will hit you", BehaviorType::Hit, 0x100, 0, 2500, false, [StateMask::Exactly(0x01), StateMask::Exactly(0x08), StateMask::Any, StateMask::Either(0x11, 0x18)]),
        ai_cone("Jump hit", "Jump attack will hit you", BehaviorType::Hit, 461, -262i16, 2199, false, [StateMask::Exactly(0x01), StateMask::Exactly(0x0A), StateMask::Either(4, 5), StateMask::Any]),
        ai_cone("Slash", "Licker will slash at you with its claws", BehaviorType::Attack, 0x300, 0, 2000, false, [StateMask::Exactly(0x01), StateMask::Exactly(0x06), StateMask::Any, StateMask::Any]),
        ai_cone("Recoil", "Licker will recoil from you", BehaviorType::ChangeTactic, 0x300, 0, 2000, true, [StateMask::Exactly(0x01), StateMask::Exactly(0x06), StateMask::Any, StateMask::Any]),
        ai_cone("Pursuit aggro", "Licker may attack", BehaviorType::Aggro, 0x800, 0, 2200, false, [StateMask::Exactly(0x01), StateMask::Exactly(0x14), StateMask::Any, StateMask::Any]),
        ai_cone("Jump 62.5%", "Licker has a 62.5% chance to jump at you", BehaviorType::Attack, 0x600, 0, 10000, false, [StateMask::Exactly(0x01), StateMask::Exactly(0x0F), StateMask::Any, StateMask::Any]),
        ai_cone("Caution jump 37.5%", "Licker has a 37.5% chance to jump at you if below fine health", BehaviorType::Attack, 0x200, 0, 6500, false, [StateMask::Exactly(0x01), StateMask::Exactly(0x0F), StateMask::Any, StateMask::Any]),
        ai_cone("Jump 37.5%", "Licker has a 37.5% chance to jump at you", BehaviorType::Attack, 0x100, 0, 6500, false, [StateMask::Exactly(0x01), StateMask::Exactly(0x0F), StateMask::Any, StateMask::Any]),
        ai_cone("Lick 50%", "Licker has a 50% chance to lick at you", BehaviorType::Attack, 0x200, 0, 4500, false, [StateMask::Exactly(0x01), StateMask::Exactly(0x0F), StateMask::Any, StateMask::Any]),
        ai_cone("Lick", "Licker will lick at you", BehaviorType::Attack, 0x100, 0, 4500, false, [StateMask::Exactly(0x01), StateMask::Exactly(0x0F), StateMask::Any, StateMask::Any]),
        ai_cone("Slash 25%", "Licker has a 25% chance to slash at you", BehaviorType::Attack, 0x800, 0, 2500, false, [StateMask::Exactly(0x01), StateMask::Exactly(0x0F), StateMask::Any, StateMask::Any]),
        ai_cone("Slash 50%", "Licker has a 50% chance to slash at you", BehaviorType::Attack, 0x100, 0, 2500, false, [StateMask::Exactly(0x01), StateMask::Exactly(0x0F), StateMask::Any, StateMask::Any]),
    ]
}

/// The AI zones of the black licker.
pub fn black_licker_ai_cones() -> (r: Vec<AiCone>)
    ensures
        r@ == black_licker_ai_cones_spec(),
{
    let mut v: Vec<AiCone> = Vec::new();
    v.push(make_cone("De-aggro", "Licker may de-aggro outside this range", BehaviorType::ChangeTactic, 0x800, 0, 8000, true, [StateMask::Exactly(0x01), StateMask::Exactly(0x0C), StateMask::Exactly(0x02), StateMask::Any]));
    v.push(make_cone("Investigate aggro", "Licker may attack", BehaviorType::Aggro, 0x800, 0, 2500, false, [StateMask::Exactly(0x01), StateMask::Exactly(0x0C), StateMask::Exactly(0x02), StateMask::Any]));
    v.push(make_cone("Sound aggro", "Licker will hear you if you make an audible sound", BehaviorType::Aggro, 0x800, 0, 5000, false, [StateMask::Exactly(0x01), StateMask::Exactly(0x0E), StateMask::Any, StateMask::Between(0x0B, 0xFF)]));
    v.push(make_cone("Sound aggro", "Licker will hear you if you move at all", BehaviorType::Aggro, 0x800, 0, 3000, false, [StateMask::Exactly(0x01), StateMask::Exactly(0x0E), StateMask::Any, StateMask::Between(0x0B, 0xFF)]));
    v.push(make_cone("Sound alert", "Licker will be alerted if you make an audible sound", BehaviorType::ChangeTactic, 0x800, 0, 3000, false, [StateMask::Exactly(0x01), StateMask::Exactly(0x00), StateMask::Any, StateMask::Any]));
    v.push(make_cone("Slash hit", "Licker's slash attack hits you", BehaviorType::Hit, 0x154, 0, 2800, false, [StateMask::Exactly(0x01), StateMask::Exactly(0x09), StateMask::Any, StateMask::Between(0x02, 0x06)]));
    v.push(make_cone("Lick hit", "Lick attack will hit you", BehaviorType::Hit, 0x100, 0, 2000, false, [StateMask::Exactly(0x01), StateMask::Exactly(0x08), StateMask::Any, StateMask::Exactly(0x19)]));
    v.push(make_cone("Lick hit", "Lick attack will hit you", BehaviorType::Hit, 0x100, 0, 3000, false, [StateMask::Exactly(0x01), StateMask::Exactly(0x08), StateMask::Any, StateMask::Exactly(0x17)]));
    v.push(make_cone("Lick hit", "Lick attack will hit you", BehaviorType::Hit, 0x100, 0, 4200, false, [StateMask::Exactly(0x01), StateMask::Exactly(0x08), StateMask::Any, StateMask::Exactly(0x15)]));
    v.push(make_cone("Lick hit", "Lick attack will hit you", BehaviorType::Hit, 0x100, 0, 4500, false, [StateMask::Exactly(0x01), StateMask::Exactly(0x08), StateMask::Any, StateMask::Exactly(0x14)]));
    v.push(make_cone("Lick hit", "Lick attack will hit you", BehaviorType::Hit, 0x100, 0, 4600, false, [StateMask::Exactly(0x01), StateMask::Exactly(0x08), StateMask::Any, StateMask::Exactly(0x13)]));
    v.push(make_cone("Lick hit", "Lick attack will hit you", BehaviorType::Hit, 0x100, 0, 3500, false, [StateMask::Exactly(0x01), StateMask::Exactly(0x08), StateMask::Any, StateMask::Either(0x12, 0x16)]));
    v.push(make_cone("Lick hit", "Lick attack will hit you", BehaviorType::Hit, 0x100, 0, 2500, false, [StateMask::Exactly(0x01), StateMask::Exactly(0x08), StateMask::Any, StateMask::Either(0x11, 0x18)]));
    v.push(make_cone("Jump hit", "Jump attack will hit you", BehaviorType::Hit, 461, -262i16, 2199, false, [StateMask::Exactly(0x01), StateMask::Exactly(0x0A), StateMask::Either(4, 5), StateMask::Any]));
    v.push(make_cone("Slash", "Licker will slash at you with its claws", BehaviorType::Attack, 0x300, 0, 2000, false, [StateMask::Exactly(0x01), StateMask::Exactly(0x06), StateMask::Any, StateMask::Any]));
    v.push(make_cone("Recoil", "Licker will recoil from you", BehaviorType::ChangeTactic, 0x300, 0, 2000, true, [StateMask::Exactly(0x01), StateMask::Exactly(0x06), StateMask::Any, StateMask::Any]));
    v.push(make_cone("Pursuit aggro", "Licker may attack", BehaviorType::Aggro, 0x800, 0, 2200, false, [StateMask::Exactly(0x01), StateMask::Exactly(0x14), StateMask::Any, StateMask::Any]));
    v.push(make_cone("Jump 62.5%", "Licker has a 62.5% chance to jump at you", BehaviorType::Attack, 0x600, 0, 10000, false, [StateMask::Exactly(0x01), StateMask::Exactly(0x0F), StateMask::Any, StateMask::Any]));
    v.push(make_cone("Caution jump 37.5%", "Licker has a 37.5% chance to jump at you if below fine health", BehaviorType::Attack, 0x200, 0, 6500, false, [StateMask::Exactly(0x01), StateMask::Exactly(0x0F), StateMask::Any, StateMask::Any]));
    v.push(make_cone("Jump 37.5%", "Licker has a 37.5% chance to jump at you", BehaviorType::Attack, 0x100, 0, 6500, false, [StateMask::Exactly(0x01), StateMask::Exactly(0x0F), StateMask::Any, StateMask::Any]));
    v.push(make_cone("Lick 50%", "Licker has a 50% chance to lick at you", BehaviorType::Attack, 0x200, 0, 4500, false, [StateMask::Exactly(0x01), StateMask::Exactly(0x0F), StateMask::Any, StateMask::Any]));
    v.push(make_cone("Lick", "Licker will lick at you", BehaviorType::Attack, 0x100, 0, 4500, false, [StateMask::Exactly(0x01), StateMask::Exactly(0x0F), StateMask::Any, StateMask::Any]));
    v.push(make_cone("Slash 25%", "Licker has a 25% chance to slash at you", BehaviorType::Attack, 0x800, 0, 2500, false, [StateMask::Exactly(0x01), StateMask::Exactly(0x0F), StateMask::Any, StateMask::Any]));
    v.push(make_cone("Slash 50%", "Licker has a 50% chance to slash at you", BehaviorType::Attack, 0x100, 0, 2500, false, [StateMask::Exactly(0x01), StateMask::Exactly(0x0F), StateMask::Any, StateMask::Any]));
    assert(v@ =~= black_licker_ai_cones_spec());
    v
}

pub open spec fn red_licker_ai_cones_spec() -> Seq<AiCone> {
    seq![
        ai_cone("Investigate aggro", "Licker may attack", BehaviorType::Aggro, 0x800, 0, 2500, false, [StateMask::Exactly(0x01), StateMask::Exactly(0x0C), StateMask::Exactly(0x02), StateMask::Any]),
        ai_cone("De-aggro", "Licker may de-aggro outside this range", BehaviorType::ChangeTactic, 0x800, 0, 8000, true, [StateMask::Exactly(0x01), StateMask::Exactly(0x0C), StateMask::Exactly(0x02), StateMask::Any]),
        ai_cone("Pursuit aggro", "Licker may attack", BehaviorType::Aggro, 0x800, 0, 2200, false, [StateMask::Exactly(0x01), StateMask::Exactly(0x14), StateMask::Any, StateMask::Any]),
        ai_cone("Sound aggro", "Licker will hear you if you make any audible sound", BehaviorType::Aggro, 0x800, 0, 5000, false, [StateMask::Exactly(0x01), StateMask::Exactly(0x0E), StateMask::Any, StateMask::Between(0x0B, 0xFF)]),
        ai_cone("Sound aggro", "Licker will hear you if you move at all", BehaviorType::Aggro, 0x800, 0, 3000, false, [StateMask::Exactly(0x01), StateMask::Exactly(0x0E), StateMask::Any, StateMask::Between(0x0B, 0xFF)]),
        ai_cone("Sound alert", "Licker will be alerted if you make an audible sound", BehaviorType::ChangeTactic, 0x800, 0, 3000, false, [StateMask::Exactly(0x01), StateMask::Exactly(0x00), StateMask::Any, StateMask::Any]),
        ai_cone("Slash hit", "Licker's slash attack hits you", BehaviorType::Hit, 0x154, 0, 2800, false, [StateMask::Exactly(0x01), StateMask::Exactly(0x09), StateMask::Any, StateMask::Between(0x02, 0x06)]),
        ai_cone("Ranged", "Licker has a random chance to jump or lick outside this range (fine health = 37.5% to jump, 31.25% to lick; lower health = 25% to jump)", BehaviorType::Attack, 0x800, 0, 4000, true, [StateMask::Exactly(0x01), StateMask::Exactly(0x06), StateMask::Any, StateMask::Any]),
        ai_cone("Slash", "Licker will slash at you with its claws", BehaviorType::Attack, 0x300, 0, 2000, false, [StateMask::Exactly(0x01), StateMask::Exactly(0x06), StateMask::Any, StateMask::Any]),
        ai_cone("Recoil", "Licker will recoil from you", BehaviorType::ChangeTactic, 0x300, 0, 2000, true, [StateMask::Exactly(0x01), StateMask::Exactly(0x06), StateMask::Any, StateMask::Any]),
        ai_cone("Jump", "Licker has a random chance to jump (fine health = 62.5% to jump; lower health = 25% to jump)", BehaviorType::Attack, 0x600, 0, 10000, false, [StateMask::Exactly(0x01), StateMask::Exactly(0x0F), StateMask::Any, StateMask::Any]),
        ai_cone("Jump", "Licker has a random chance to jump (fine health = 62.5% to jump; lower health = 25% to jump)", BehaviorType::Attack, 0x100, 0, 6500, false, [StateMask::Exactly(0x01), StateMask::Exactly(0x0F), StateMask::Any, StateMask::Any]),
        ai_cone("Lick", "Licker will lick at you", BehaviorType::Attack, 0x200, 0, 4500, false, [StateMask::Exactly(0x01), StateMask::Exactly(0x0F), StateMask::Any, StateMask::Any]),
        ai_cone("Ranged", "Licker has a random chance to jump or lick (fine health = 37.5% to jump, 31.25% to lick; lower health = 25% to jump)", BehaviorType::Attack, 0x100, 0, 4500, false, [StateMask::Exactly(0x01), StateMask::Exactly(0x0F), StateMask::Any, StateMask::Any]),
        ai_cone("Slash", "Licker will slash at you with its claws", BehaviorType::Attack, 0x800, 0, 2500, false, [StateMask::Exactly(0x01), StateMask::Exactly(0x0F), StateMask::Any, StateMask::Any]),
        ai_cone("Lick hit", "Lick attack will hit you", BehaviorType::Hit, 0x100, 0, 2000, false, [StateMask::Exactly(0x01), StateMask::Exactly(0x08), StateMask::Any, StateMask::Exactly(0x19)]),
        ai_cone("Lick hit", "Lick attack will hit you", BehaviorType::Hit, 0x100, 0, 3000, false, [StateMask::Exactly(0x01), StateMask::Exactly(0x08), StateMask::Any, StateMask::Exactly(0x17)]),
        ai_cone("Lick hit", "Lick attack will hit you", BehaviorType::Hit, 0x100, 0, 4200, false, [StateMask::Exactly(0x01), StateMask::Exactly(0x08), StateMask::Any, StateMask::Exactly(0x15)]),
        ai_cone("Lick hit", "Lick attack will hit you", BehaviorType::Hit, 0x100, 0, 4500, false, [StateMask::Exactly(0x01), StateMask::Exactly(0x08), StateMask::Any, StateMask::Exactly(0x14)]),
        ai_cone("Lick hit", "Lick attack will hit you", BehaviorType::Hit, 0x100, 0, 4600, false, [StateMask::Exactly(0x01), StateMask::Exactly(0x08), StateMask::Any, StateMask::Exactly(0x13)]),
        ai_cone("Lick hit", "Lick attack will hit you", BehaviorType::Hit, 0x100, 0, 3500, false, [StateMask::Exactly(0x01), StateMask::Exactly(0x08), StateMask::Any, StateMask::Either(0x12, 0x16)]),
        ai_cone("Lick hit", "Lick attack will hit you", BehaviorType::Hit, 0x100, 0, 2500, false, [StateMask::Exactly(0x01), StateMask::Exactly(0x08), StateMask::Any, StateMask::Either(0x11, 0x18)]),
        ai_cone("Attack", "Licker will attack if possible", BehaviorType::ChangeTactic, 0x800, 0, 2200, false, [StateMask::Exactly(0x01), StateMask::Exactly(0x14), StateMask::Any, StateMask::Any]),
        ai_cone("Jump hit", "Jump attack will hit you", BehaviorType::Hit, 461, -262i16, 2199, false, [StateMask::Exactly(0x01), StateMask::Exactly(0x0A), StateMask::Either(4, 5), StateMask::Any]),
    ]
}

/// The AI zones of the red licker.
pub fn red_licker_ai_cones() -> (r: Vec<AiCone>)
    ensures
        r@ == red_licker_ai_cones_spec(),
{
    let mut v: Vec<AiCone> = Vec::new();
    v.push(make_cone("Investigate aggro", "Licker may attack", BehaviorType::Aggro, 0x800, 0, 2500, false, [StateMask::Exactly(0x01), StateMask::Exactly(0x0C), StateMask::Exactly(0x02), StateMask::Any]));
    v.push(make_cone("De-aggro", "Licker may de-aggro outside this range", BehaviorType::ChangeTactic, 0x800, 0, 8000, true, [StateMask::Exactly(0x01), StateMask::Exactly(0x0C), StateMask::Exactly(0x02), StateMask::Any]));
    v.push(make_cone("Pursuit aggro", "Licker may attack", BehaviorType::Aggro, 0x800, 0, 2200, false, [StateMask::Exactly(0x01), StateMask::Exactly(0x14), StateMask::Any, StateMask::Any]));
    v.push(make_cone("Sound aggro", "Licker will hear you if you make any audible sound", BehaviorType::Aggro, 0x800, 0, 5000, false, [StateMask::Exactly(0x01), StateMask::Exactly(0x0E), StateMask::Any, StateMask::Between(0x0B, 0xFF)]));
    v.push(make_cone("Sound aggro", "Licker will hear you if you move at all", BehaviorType::Aggro, 0x800, 0, 3000, false, [StateMask::Exactly(0x01), StateMask::Exactly(0x0E), StateMask::Any, StateMask::Between(0x0B, 0xFF)]));
    v.push(make_cone("Sound alert", "Licker will be alerted if you make an audible sound", BehaviorType::ChangeTactic, 0x800, 0, 3000, false, [StateMask::Exactly(0x01), StateMask::Exactly(0x00), StateMask::Any, StateMask::Any]));
    v.push(make_cone("Slash hit", "Licker's slash attack hits you", BehaviorType::Hit, 0x154, 0, 2800, false, [StateMask::Exactly(0x01), StateMask::Exactly(0x09), StateMask::Any, StateMask::Between(0x02, 0x06)]));
    v.push(make_cone("Ranged", "Licker has a random chance to jump or lick outside this range (fine health = 37.5% to jump, 31.25% to lick; lower health = 25% to jump)", BehaviorType::Attack, 0x800, 0, 4000, true, [StateMask::Exactly(0x01), StateMask::Exactly(0x06), StateMask::Any, StateMask::Any]));
    v.push(make_cone("Slash", "Licker will slash at you with its claws", BehaviorType::Attack, 0x300, 0, 2000, false, [StateMask::Exactly(0x01), StateMask::Exactly(0x06), StateMask::Any, StateMask::Any]));
    v.push(make_cone("Recoil", "Licker will recoil from you", BehaviorType::ChangeTactic, 0x300, 0, 2000, true, [StateMask::Exactly(0x01), StateMask::Exactly(0x06), StateMask::Any, StateMask::Any]));
    v.push(make_cone("Jump", "Licker has a random chance to jump (fine health = 62.5% to jump; lower health = 25% to jump)", BehaviorType::Attack, 0x600, 0, 10000, false, [StateMask::Exactly(0x01), StateMask::Exactly(0x0F), StateMask::Any, StateMask::Any]));
    v.push(make_cone("Jump", "Licker has a random chance to jump (fine health = 62.5% to jump; lower health = 25% to jump)", BehaviorType::Attack, 0x100, 0, 6500, false, [StateMask::Exactly(0x01), StateMask::Exactly(0x0F), StateMask::Any, StateMask::Any]));
    v.push(make_cone("Lick", "Licker will lick at you", BehaviorType::Attack, 0x200, 0, 4500, false, [StateMask::Exactly(0x01), StateMask::Exactly(0x0F), StateMask::Any, StateMask::Any]));
    v.push(make_cone("Ranged", "Licker has a random chance to jump or lick (fine health = 37.5% to jump, 31.25% to lick; lower health = 25% to jump)", BehaviorType::Attack, 0x100, 0, 4500, false, [StateMask::Exactly(0x01), StateMask::Exactly(0x0F), StateMask::Any, StateMask::Any]));
    v.push(make_cone("Slash", "Licker will slash at you with its claws", BehaviorType::Attack, 0x800, 0, 2500, false, [StateMask::Exactly(0x01), StateMask::Exactly(0x0F), StateMask::Any, StateMask::Any]));
    v.push(make_cone("Lick hit", "Lick attack will hit you", BehaviorType::Hit, 0x100, 0, 2000, false, [StateMask::Exactly(0x01), StateMask::Exactly(0x08), StateMask::Any, StateMask::Exactly(0x19)]));
    v.push(make_cone("Lick hit", "Lick attack will hit you", BehaviorType::Hit, 0x100, 0, 3000, false, [StateMask::Exactly(0x01), StateMask::Exactly(0x08), StateMask::Any, StateMask::Exactly(0x17)]));
    v.push(make_cone("Lick hit", "Lick attack will hit you", BehaviorType::Hit, 0x100, 0, 4200, false, [StateMask::Exactly(0x01), StateMask::Exactly(0x08), StateMask::Any, StateMask::Exactly(0x15)]));
    v.push(make_cone("Lick hit", "Lick attack will hit you", BehaviorType::Hit, 0x100, 0, 4500, false, [StateMask::Exactly(0x01), StateMask::Exactly(0x08), StateMask::Any, StateMask::Exactly(0x14)]));
    v.push(make_cone("Lick hit", "Lick attack will hit you", BehaviorType::Hit, 0x100, 0, 4600, false, [StateMask::Exactly(0x01), StateMask::Exactly(0x08), StateMask::Any, StateMask::Exactly(0x13)]));
    v.push(make_cone("Lick hit", "Lick attack will hit you", BehaviorType::Hit, 0x100, 0, 3500, false, [StateMask::Exactly(0x01), StateMask::Exactly(0x08), StateMask::Any, StateMask::Either(0x12, 0x16)]));
    v.push(make_cone("Lick hit", "Lick attack will hit you", BehaviorType::Hit, 0x100, 0, 2500, false, [StateMask::Exactly(0x01), StateMask::Exactly(0x08), StateMask::Any, StateMask::Either(0x11, 0x18)]));
    v.push(make_cone("Attack", "Licker will attack if possible", BehaviorType::ChangeTactic, 0x800, 0, 2200, false, [StateMask::Exactly(0x01), StateMask::Exactly(0x14), StateMask::Any, StateMask::Any]));
    v.push(make_cone("Jump hit", "Jump attack will hit you", BehaviorType::Hit, 461, -262i16, 2199, false, [StateMask::Exactly(0x01), StateMask::Exactly(0x0A), StateMask::Either(4, 5), StateMask::Any]));
    assert(v@ =~= red_licker_ai_cones_spec());
    v
}

pub open spec fn crawling_zombie_ai_cones_spec() -> Seq<AiCone> {
    seq![
        ai_cone("Bite", "Zombie will bite you", BehaviorType::Hit, 0x200, 0, 1300, false, [StateMask::Exactly(0x01), StateMask::Either(0x00, 0x02), StateMask::Any, StateMask::Any]),
    ]
}

/// The AI zones of a crawling zombie.
pub fn crawling_zombie_ai_cones() -> (r: Vec<AiCone>)
    ensures
        r@ == crawling_zombie_ai_cones_spec(),
{
    let mut v: Vec<AiCone> = Vec::new();
    v.push(make_cone("Bite", "Zombie will bite you", BehaviorType::Hit, 0x200, 0, 1300, false, [StateMask::Exactly(0x01), StateMask::Either(0x00, 0x02), StateMask::Any, StateMask::Any]));
    assert(v@ =~= crawling_zombie_ai_cones_spec());
    v
}

pub open spec fn zombie_ai_cones_spec() -> Seq<AiCone> {
    seq![
        ai_cone("Passive aggro", "Zombie will begin to pursue you if you are within this zone after a random amount of time", BehaviorType::Aggro, 0x800, 0, 7500, false, [StateMask::Exactly(0x01), StateMask::Exactly(0x00), StateMask::Either(0x01, 0x03), StateMask::Any]),
        ai_cone("Aggro", "Zombie will begin to pursue you", BehaviorType::Aggro, 0x400, 0, 5000, false, [StateMask::Exactly(0x01), StateMask::Exactly(0x00), StateMask::Any, StateMask::Any]),
        ai_cone("Aggro far lunge", "Zombie has a 25% chance to lunge at you each loud sound", BehaviorType::Attack, 0x400, 0, 3500, true, [StateMask::Exactly(0x01), StateMask::Exactly(0x01), StateMask::Any, StateMask::Any]),
        ai_cone("Wander aggro", "Zombie will begin to pursue you if you enter this zone while the zombie is wandering", BehaviorType::Aggro, 0x800, 0, 3000, false, [StateMask::Exactly(0x01), StateMask::Exactly(0x00), StateMask::Exactly(0x03), StateMask::Any]),
        ai_cone("Far lunge", "Zombie has a 50% chance to lunge at you each loud sound", BehaviorType::Attack, 800, 0, 3000, true, [StateMask::Exactly(0x01), StateMask::Exactly(0x00), StateMask::Any, StateMask::Any]),
        ai_cone("Raised arm lunge", "Zombie has a 50% chance to lunge at you each sound", BehaviorType::Attack, 0x400, 0, 3000, true, [StateMask::Exactly(0x01), StateMask::Exactly(0x02), StateMask::Any, StateMask::Any]),
        ai_cone("Aggro near lunge", "Zombie has a 50% chance to lunge at you each sound, in addition to the aggro far lunge chance", BehaviorType::Attack, 0x400, 0, 2500, true, [StateMask::Exactly(0x01), StateMask::Exactly(0x01), StateMask::Any, StateMask::Any]),
        ai_cone("Near lunge", "Zombie has a second 50% chance to lunge at you each sound, in addition to the far lunge chance", BehaviorType::Attack, 0x400, 0, 2000, true, [StateMask::Exactly(0x01), StateMask::Exactly(0x00), StateMask::Any, StateMask::Any]),
        ai_cone("Lunge bite", "Zombie will bite you if you are within this zone", BehaviorType::Hit, 0x200, 0, 1300, false, [StateMask::Exactly(0x01), StateMask::Exactly(0x0C), StateMask::Exactly(0x03), StateMask::Any]),
        ai_cone("Bite", "Zombie will bite you if you are within this zone", BehaviorType::Hit, 0x200, 0, 1200, false, [StateMask::Exactly(0x01), StateMask::Either(0x01, 0x02), StateMask::Any, StateMask::Any]),
    ]
}

/// The AI zones of a zombie.
pub fn zombie_ai_cones() -> (r: Vec<AiCone>)
    ensures
        r@ == zombie_ai_cones_spec(),
{
    let mut v: Vec<AiCone> = Vec::new();
    v.push(make_cone("Passive aggro", "Zombie will begin to pursue you if you are within this zone after a random amount of time", BehaviorType::Aggro, 0x800, 0, 7500, false, [StateMask::Exactly(0x01), StateMask::Exactly(0x00), StateMask::Either(0x01, 0x03), StateMask::Any]));
    v.push(make_cone("Aggro", "Zombie will begin to pursue you", BehaviorType::Aggro, 0x400, 0, 5000, false, [StateMask::Exactly(0x01), StateMask::Exactly(0x00), StateMask::Any, StateMask::Any]));
    v.push(make_cone("Aggro far lunge", "Zombie has a 25% chance to lunge at you each loud sound", BehaviorType::Attack, 0x400, 0, 3500, true, [StateMask::Exactly(0x01), StateMask::Exactly(0x01), StateMask::Any, StateMask::Any]));
    v.push(make_cone("Wander aggro", "Zombie will begin to pursue you if you enter this zone while the zombie is wandering", BehaviorType::Aggro, 0x800, 0, 3000, false, [StateMask::Exactly(0x01), StateMask::Exactly(0x00), StateMask::Exactly(0x03), StateMask::Any]));
    v.push(make_cone("Far lunge", "Zombie has a 50% chance to lunge at you each loud sound", BehaviorType::Attack, 800, 0, 3000, true, [StateMask::Exactly(0x01), StateMask::Exactly(0x00), StateMask::Any, StateMask::Any]));
    v.push(make_cone("Raised arm lunge", "Zombie has a 50% chance to lunge at you each sound", BehaviorType::Attack, 0x400, 0, 3000, true, [StateMask::Exactly(0x01), StateMask::Exactly(0x02), StateMask::Any, StateMask::Any]));
    v.push(make_cone("Aggro near lunge", "Zombie has a 50% chance to lunge at you each sound, in addition to the aggro far lunge chance", BehaviorType::Attack, 0x400, 0, 2500, true, [StateMask::Exactly(0x01), StateMask::Exactly(0x01), StateMask::Any, StateMask::Any]));
    v.push(make_cone("Near lunge", "Zombie has a second 50% chance to lunge at you each sound, in addition to the far lunge chance", BehaviorType::Attack, 0x400, 0, 2000, true, [StateMask::Exactly(0x01), StateMask::Exactly(0x00), StateMask::Any, StateMask::Any]));
    v.push(make_cone("Lunge bite", "Zombie will bite you if you are within this zone", BehaviorType::Hit, 0x200, 0, 1300, false, [StateMask::Exactly(0x01), StateMask::Exactly(0x0C), StateMask::Exactly(0x03), StateMask::Any]));
    v.push(make_cone("Bite", "Zombie will bite you if you are within this zone", BehaviorType::Hit, 0x200, 0, 1200, false, [StateMask::Exactly(0x01), StateMask::Either(0x01, 0x02), StateMask::Any, StateMask::Any]));
    assert(v@ =~= zombie_ai_cones_spec());
    v
}

} // verus!
