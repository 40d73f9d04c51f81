//! Simulation of the RNG in the bus section of the police station run: which zombie crowd
//! appears, how many handgun shots the bus zombies need, and when waiting saves time.

use vstd::prelude::*;
use crate::rng::{RngSequence, ZOMBIE_EAT_ANIMATIONS, ZOMBIE_HEALTHS1, ZOMBIE_ONE_SHOT_STAGGER_THRESHOLD};

verus! {

pub const MIN_FRAMES: usize = 115;
pub const MAX_HANDGUN_DAMAGE: usize = 16;
/// Frames per handgun shot, assuming optimal quick shooting.
pub const HANDGUN_QUICK_SHOT_FRAMES: usize = 11;
pub const MAX_BUS_SHOTS_SAVED: usize = 7 - 2;
pub const MAX_FRAMES: usize = MIN_FRAMES + MAX_BUS_SHOTS_SAVED * HANDGUN_QUICK_SHOT_FRAMES;
/// The largest RNG index a simulation can start from: a run reads at most a few thousand
/// values past its start, and the index must not pass the largest `usize`.
pub const MAX_SIM_START: usize = usize::MAX - 0x1000;
/// 76 frames less the 8 initialisation frames.
pub const ZOMBIE6_STATE_CHANGE: usize = 76 - 8;
pub const ZOMBIE4_STATE_CHANGE: usize = ZOMBIE6_STATE_CHANGE + 20;
pub const ZOMBIE5_STATE_CHANGE: usize = ZOMBIE4_STATE_CHANGE + 50;
pub const ZOMBIE3_STATE_CHANGE: usize = ZOMBIE5_STATE_CHANGE + 20;
pub const ZOMBIE_INIT_FRAMES: usize = 1;
pub const ZOMBIE_RISE_FRAMES: usize = 55;

/// The byte that the game's `index`-th roll reads: the low byte of the seed that follows
/// position `index` in the cycle (wrapping around the cycle).
pub open spec fn rng_spec(seq: Seq<u16>, index: int) -> usize {
    (seq[(index + 1) % (seq.len() as int)] % 256) as usize
}

/// The RNG byte at `index`.
pub fn rng(seq: &RngSequence, index: usize) -> (r: usize)
    requires
        index < usize::MAX,
    ensures
        r == rng_spec(seq@, index as int),
        r < 256,
{
    let len = seq.len();
    (seq.get((index + 1) % len) % 256) as usize
}

/// Whether the RNG byte at `index` has any of the bits of `mask` set.
pub fn bit(seq: &RngSequence, index: usize, mask: usize) -> (r: bool)
    requires
        index < usize::MAX,
    ensures
        r == (rng_spec(seq@, index as int) & mask != 0),
{
    (rng(seq, index) & mask) != 0
}

#[derive(Debug, Copy, Clone, PartialEq, Eq, Hash, PartialOrd, Ord, Structural)]
pub enum Appearance {
    YellowShirt,
    BlackShirt,
    PoliceOfficer,
}

impl Appearance {
    /// The game's number for the appearance (1 to 3).
    pub fn number(&self) -> (r: u8)
        ensures
            r == match self {
                Appearance::YellowShirt => 1u8,
                Appearance::BlackShirt => 2u8,
                Appearance::PoliceOfficer => 3u8,
            },
    {
        match self {
            Appearance::YellowShirt => 1,
            Appearance::BlackShirt => 2,
            Appearance::PoliceOfficer => 3,
        }
    }
}

#[derive(Debug, Copy, Clone, PartialEq, Eq, Hash, PartialOrd, Ord, Structural)]
pub enum Animation {
    SharpEnd,
    HeadsDown,
    Rapid,
}

impl Animation {
    /// The game's animation number (18 to 20).
    pub fn number(&self) -> (r: u8)
        ensures
            r == match self {
                Animation::SharpEnd => 18u8,
                Animation::HeadsDown => 19u8,
                Animation::Rapid => 20u8,
            },
    {
        match self {
            Animation::SharpEnd => 18,
            Animation::HeadsDown => 19,
            Animation::Rapid => 20,
        }
    }

    pub open spec fn num_frames_spec(self) -> usize {
        match self {
            Animation::SharpEnd => 65,
            Animation::HeadsDown => 86,
            Animation::Rapid => 36,
        }
    }

    /// The frames on which the eating animation sprays blood (which rolls the RNG).
    pub open spec fn is_spray_frame_spec(self, i: usize) -> bool {
        match self {
            Animation::SharpEnd => i == 18 || i == 43,
            Animation::HeadsDown => i == 19 || i == 43 || i == 68,
            Animation::Rapid => i == 10 || i == 20,
        }
    }

    /// The length of the animation in frames.
    pub fn num_frames(self) -> (r: usize)
        ensures
            r == self.num_frames_spec(),
    {
        match self {
            Animation::SharpEnd => 65,
            Animation::HeadsDown => 86,
            Animation::Rapid => 36,
        }
    }

    /// Whether frame `i` of the animation sprays blood.
    pub fn is_spray_frame(self, i: usize) -> (r: bool)
        ensures
            r == self.is_spray_frame_spec(i),
    {
        match self {
            Animation::SharpEnd => i == 18 || i == 43,
            Animation::HeadsDown => i == 19 || i == 43 || i == 68,
            Animation::Rapid => i == 10 || i == 20,
        }
    }
}

/// The appearance chosen by the triple roll at `index`.
pub open spec fn appearance_spec(seq: Seq<u16>, index: int) -> Appearance {
    let v = (rng_spec(seq, index + 2) + (rng_spec(seq, index + 1) << (rng_spec(seq, index) % 4))) % 3;
    if v == 0 {
        Appearance::YellowShirt
    } else if v == 1 {
        Appearance::BlackShirt
    } else {
        Appearance::PoliceOfficer
    }
}

/// The eating animation chosen by the roll at `index`.
pub open spec fn animation_spec(seq: Seq<u16>, index: int) -> Animation {
    let v = ZOMBIE_EAT_ANIMATIONS[(rng_spec(seq, index) % 8) as int];
    if v == 18 {
        Animation::SharpEnd
    } else if v == 19 {
        Animation::HeadsDown
    } else {
        Animation::Rapid
    }
}

/// Reads a zombie appearance from the three rolls at `*i` and advances `*i` past them.
pub fn appearance(seq: &RngSequence, i: &mut usize) -> (r: Appearance)
    requires
        *old(i) < usize::MAX - 3,
    ensures
        *final(i) == *old(i) + 3,
        r == appearance_spec(seq@, *old(i) as int),
{
    let j = *i;
    *i = j + 3;
    let r0 = rng(seq, j);
    let r1 = rng(seq, j + 1);
    let r2 = rng(seq, j + 2);
    let k: usize = r0 % 4;
    assert(r1 < 256 && k < 4 ==> r1 << k < 2048) by (bit_vector);
    let v = (r2 + (r1 << k)) % 3 + 1;
    if v == 1 {
        Appearance::YellowShirt
    } else if v == 2 {
        Appearance::BlackShirt
    } else {
        Appearance::PoliceOfficer
    }
}

/// Reads a zombie eating animation from the roll at `*i` and advances `*i` past it.
pub fn animation(seq: &RngSequence, i: &mut usize) -> (r: Animation)
    requires
        *old(i) < usize::MAX - 1,
    ensures
        *final(i) == *old(i) + 1,
        r == animation_spec(seq@, *old(i) as int),
{
    let j = *i;
    *i = j + 1;
    let v = ZOMBIE_EAT_ANIMATIONS[rng(seq, j) % 8];
    if v == 18 {
        Animation::SharpEnd
    } else if v == 19 {
        Animation::HeadsDown
    } else {
        assert(v == 20);
        Animation::Rapid
    }
}

/// Handgun shots a standing zombie takes to stagger, from its stagger-threshold roll.
pub open spec fn shots_to_stagger_spec(seq: Seq<u16>, index: int) -> usize {
    if rng_spec(seq, index) % 16 + 0x10 <= ZOMBIE_ONE_SHOT_STAGGER_THRESHOLD { 1 } else { 2 }
}

pub fn get_shots_to_stagger(seq: &RngSequence, rng_index: usize) -> (r: usize)
    requires
        rng_index < usize::MAX,
    ensures
        r == shots_to_stagger_spec(seq@, rng_index as int),
{
    let stagger_threshold = rng(seq, rng_index) % 16 + 0x10;
    if stagger_threshold <= ZOMBIE_ONE_SHOT_STAGGER_THRESHOLD as usize { 1 } else { 2 }
}

/// Handgun shots for the two bus zombies when the bus room is entered at `index`: the
/// crawling zombie (its table health plus 15, halved, in 16-damage shots, rounded up) and
/// the standing zombie.
pub open spec fn bus_shots_spec(seq: Seq<u16>, index: int) -> (usize, usize) {
    let i = index + 4;
    let standing = shots_to_stagger_spec(seq, i);
    let j = i + 3;
    let health_index = (rng_spec(seq, j + 1) >> (rng_spec(seq, j) % 4)) % 16;
    let health = ZOMBIE_HEALTHS1[health_index as int] as int;
    let misty_health = (health + 15) / 2;
    (((misty_health + MAX_HANDGUN_DAMAGE - 1) / MAX_HANDGUN_DAMAGE as int) as usize, standing)
}

pub fn get_bus_shots(seq: &RngSequence, bus_rng_index: usize) -> (r: (usize, usize))
    requires
        bus_rng_index < usize::MAX - 16,
    ensures
        r == bus_shots_spec(seq@, bus_rng_index as int),
        r.0 <= 5,
        r.1 <= 2,
{
    let mut i = bus_rng_index + 4;
    let standing_shots = get_shots_to_stagger(seq, i);
    i += 3;
    let health_index = (rng(seq, i + 1) >> (rng(seq, i) % 4)) % 16;
    let health_value = ZOMBIE_HEALTHS1[health_index];
    assert(0x28 <= ZOMBIE_HEALTHS1[health_index as int] <= 0x76);
    let health_value = health_value as usize;
    let misty_health = (health_value + 15) / 2;
    let misty_shots = (misty_health + MAX_HANDGUN_DAMAGE - 1) / MAX_HANDGUN_DAMAGE;
    (misty_shots, standing_shots)
}

/// Shots needed to stagger the zombie outside the gun shop, given the RNG index on entering
/// the shop: 64 rolls happen in the shop and 62 on the basketball court before that zombie's
/// stagger threshold is rolled.
pub fn simulate_gate_shot(seq: &RngSequence, rng_index: usize) -> (r: usize)
    requires
        rng_index < usize::MAX - 127,
    ensures
        r == shots_to_stagger_spec(seq@, rng_index + 64 + 62),
{
    get_shots_to_stagger(seq, rng_index + 64 + 62)
}


#[derive(Debug, Copy, Clone, PartialEq, Eq, Hash, PartialOrd, Ord, Structural)]
pub struct ZombieCrowdAppearance(pub Appearance, pub Appearance, pub Appearance, pub Appearance);

/// The appearances and eating animations of the four crowd zombies (numbers 3 to 6).
#[derive(Debug, Copy, Clone, PartialEq, Eq, Hash, PartialOrd, Ord, Structural)]
pub struct ZombieCrowd(
    pub Appearance,
    pub Appearance,
    pub Appearance,
    pub Appearance,
    pub Animation,
    pub Animation,
    pub Animation,
    pub Animation,
);

impl ZombieCrowd {
    pub fn appearance(&self) -> (r: ZombieCrowdAppearance)
        ensures
            r == ZombieCrowdAppearance(self.0, self.1, self.2, self.3),
    {
        ZombieCrowdAppearance(self.0, self.1, self.2, self.3)
    }
}

/// The crowd chosen when the crowd's rolls start at `index`: eight rolls for the dead zombie
/// are skipped, then each zombie has five rolls (health, speed, stagger) before its triple
/// appearance roll, and the four animation rolls follow.
pub open spec fn crowd_spec(seq: Seq<u16>, index: int) -> ZombieCrowd {
    ZombieCrowd(
        appearance_spec(seq, index + 13),
        appearance_spec(seq, index + 21),
        appearance_spec(seq, index + 29),
        appearance_spec(seq, index + 37),
        animation_spec(seq, index + 40),
        animation_spec(seq, index + 41),
        animation_spec(seq, index + 42),
        animation_spec(seq, index + 43),
    )
}

pub fn get_crowd_composition(seq: &RngSequence, crowd_rng_index: usize) -> (r: ZombieCrowd)
    requires
        crowd_rng_index < usize::MAX - 64,
    ensures
        r == crowd_spec(seq@, crowd_rng_index as int),
{
    let mut i = crowd_rng_index;
    i += 8;
    i += 5;
    let zombie3_appearance = appearance(seq, &mut i);
    i += 5;
    let zombie4_appearance = appearance(seq, &mut i);
    i += 5;
    let zombie5_appearance = appearance(seq, &mut i);
    i += 5;
    let zombie6_appearance = appearance(seq, &mut i);
    let zombie3_animation = animation(seq, &mut i);
    let zombie4_animation = animation(seq, &mut i);
    let zombie5_animation = animation(seq, &mut i);
    let zombie6_animation = animation(seq, &mut i);
    ZombieCrowd(
        zombie3_appearance,
        zombie4_appearance,
        zombie5_appearance,
        zombie6_appearance,
        zombie3_animation,
        zombie4_animation,
        zombie5_animation,
        zombie6_animation,
    )
}

/// The bus zombies' shots when the room is entered on a given frame with a given RNG index.
#[derive(Debug, Copy, Clone)]
pub struct BusScenario {
    pub frame_index: usize,
    pub rng_index: usize,
    pub shots: (usize, usize),
}

impl BusScenario {
    pub open spec fn num_shots_spec(self) -> int {
        self.shots.0 + self.shots.1
    }

    pub fn num_shots(&self) -> (r: usize)
        requires
            self.shots.0 + self.shots.1 <= usize::MAX,
        ensures
            r == self.num_shots_spec(),
    {
        self.shots.0 + self.shots.1
    }
}

#[derive(Debug, Copy, Clone, PartialEq, Eq, Structural)]
pub enum ZombieState {
    Init,
    Eating,
    Rising,
    Mobile,
}

/// One of the crowd zombies eating in the bus room.
#[derive(Debug, Copy, Clone, PartialEq, Eq, Structural)]
pub struct Zombie {
    pub appearance: Appearance,
    pub animation: Animation,
    pub eating_frames: usize,
    pub anim_frames_remaining: usize,
    pub state_frames_remaining: usize,
    pub state: ZombieState,
}

/// The animation countdown stays within the current animation.
pub open spec fn zombie_wf(z: Zombie) -> bool {
    1 <= z.anim_frames_remaining <= z.animation.num_frames_spec()
}

/// One frame of the eating animation: the countdown ticks; when it runs out the next
/// animation is rolled; a spray frame uses one roll.
pub open spec fn tick_animation_spec(z: Zombie, seq: Seq<u16>, r: usize) -> (Zombie, usize) {
    let remaining = (z.anim_frames_remaining - 1) as usize;
    let (animation, remaining, r) = if remaining == 0 {
        let a = animation_spec(seq, r as int);
        (a, a.num_frames_spec(), (r + 1) as usize)
    } else {
        (z.animation, remaining, r)
    };
    let frame = (animation.num_frames_spec() - remaining) as usize;
    let r = if animation.is_spray_frame_spec(frame) { (r + 1) as usize } else { r };
    (Zombie { animation, anim_frames_remaining: remaining, ..z }, r)
}

/// The rolls used by a moan attempt: one roll, and one more for each of up to two rolls
/// whose low bit is clear.
pub open spec fn try_moan_spec(seq: Seq<u16>, r: usize) -> usize {
    if rng_spec(seq, r as int) & 1 == 0 {
        if rng_spec(seq, r + 1) & 1 == 0 { (r + 3) as usize } else { (r + 2) as usize }
    } else {
        (r + 1) as usize
    }
}

/// One frame of a zombie: initial wait, eating (with its animation), rising (after a moan
/// attempt), and mobile (which so far only uses five rolls when it starts).
pub open spec fn zombie_tick_spec(z: Zombie, seq: Seq<u16>, r: usize) -> (Zombie, usize) {
    match z.state {
        ZombieState::Init => if z.state_frames_remaining > 0 {
            (Zombie { state_frames_remaining: (z.state_frames_remaining - 1) as usize, ..z }, r)
        } else {
            (Zombie { state: ZombieState::Eating, state_frames_remaining: z.eating_frames, ..z }, r)
        },
        ZombieState::Eating => if z.state_frames_remaining > 0 {
            tick_animation_spec(
                Zombie { state_frames_remaining: (z.state_frames_remaining - 1) as usize, ..z },
                seq,
                r,
            )
        } else {
            (
                Zombie { state: ZombieState::Rising, state_frames_remaining: ZOMBIE_RISE_FRAMES, ..z },
                try_moan_spec(seq, r),
            )
        },
        ZombieState::Rising => if z.state_frames_remaining > 0 {
            (Zombie { state_frames_remaining: (z.state_frames_remaining - 1) as usize, ..z }, r)
        } else {
            (
                Zombie { state: ZombieState::Mobile, state_frames_remaining: usize::MAX, ..z },
                (r + 5) as usize,
            )
        },
        ZombieState::Mobile => (z, r),
    }
}

impl Zombie {
    pub fn new(appearance: Appearance, animation: Animation, eating_frames: usize) -> (r: Self)
        ensures
            r == (Zombie {
                appearance,
                animation,
                eating_frames,
                anim_frames_remaining: animation.num_frames_spec(),
                state_frames_remaining: ZOMBIE_INIT_FRAMES,
                state: ZombieState::Init,
            }),
            zombie_wf(r),
    {
        Self {
            appearance,
            animation,
            eating_frames,
            anim_frames_remaining: animation.num_frames(),
            state_frames_remaining: ZOMBIE_INIT_FRAMES,
            state: ZombieState::Init,
        }
    }

    pub fn tick_animation(&mut self, seq: &RngSequence, rng_index: &mut usize)
        requires
            zombie_wf(*old(self)),
            *old(rng_index) < usize::MAX - 4,
        ensures
            (*final(self), *final(rng_index)) == tick_animation_spec(*old(self), seq@, *old(rng_index)),
            zombie_wf(*final(self)),
            *old(rng_index) <= *final(rng_index) <= *old(rng_index) + 2,
    {
        self.anim_frames_remaining -= 1;
        if self.anim_frames_remaining == 0 {
            self.animation = animation(seq, rng_index);
            self.anim_frames_remaining = self.animation.num_frames();
        }
        let anim_frame_index = self.animation.num_frames() - self.anim_frames_remaining;
        if self.animation.is_spray_frame(anim_frame_index) {
            *rng_index += 1;
        }
    }

    pub fn try_moan(&mut self, seq: &RngSequence, rng_index: &mut usize)
        requires
            *old(rng_index) < usize::MAX - 4,
        ensures
            *final(self) == *old(self),
            *final(rng_index) == try_moan_spec(seq@, *old(rng_index)),
            *old(rng_index) < *final(rng_index) <= *old(rng_index) + 3,
    {
        if !bit(seq, *rng_index, 1) {
            *rng_index += 1;
            if !bit(seq, *rng_index, 1) {
                *rng_index += 1;
            }
        }
        *rng_index += 1;
    }

    pub fn tick(&mut self, seq: &RngSequence, rng_index: &mut usize)
        requires
            zombie_wf(*old(self)),
            *old(rng_index) < usize::MAX - 8,
        ensures
            (*final(self), *final(rng_index)) == zombie_tick_spec(*old(self), seq@, *old(rng_index)),
            zombie_wf(*final(self)),
            *old(rng_index) <= *final(rng_index) <= *old(rng_index) + 5,
    {
        match self.state {
            ZombieState::Init => {
                if self.state_frames_remaining > 0 {
                    self.state_frames_remaining -= 1;
                } else {
                    self.state = ZombieState::Eating;
                    self.state_frames_remaining = self.eating_frames;
                }
            },
            ZombieState::Eating => {
                if self.state_frames_remaining > 0 {
                    self.state_frames_remaining -= 1;
                    self.tick_animation(seq, rng_index);
                } else {
                    self.state = ZombieState::Rising;
                    self.state_frames_remaining = ZOMBIE_RISE_FRAMES;
                    self.try_moan(seq, rng_index);
                }
            },
            ZombieState::Rising => {
                if self.state_frames_remaining > 0 {
                    self.state_frames_remaining -= 1;
                } else {
                    self.state = ZombieState::Mobile;
                    self.state_frames_remaining = usize::MAX;
                    *rng_index += 5;
                }
            },
            ZombieState::Mobile => {},
        }
    }
}


/// The four crowd zombies after each has ticked once, in order, sharing the RNG index.
pub open spec fn zombies_tick_spec(zombies: Seq<Zombie>, seq: Seq<u16>, r: usize, k: nat) -> (Seq<Zombie>, usize)
    decreases k,
{
    if k == 0 {
        (zombies, r)
    } else {
        let (zs, r1) = zombies_tick_spec(zombies, seq, r, (k - 1) as nat);
        let (z, r2) = zombie_tick_spec(zs[k - 1], seq, r1);
        (zs.update(k - 1, z), r2)
    }
}

/// The simulation state as values: zombies, frames elapsed, RNG index, scenarios recorded.
pub type EnvSpec = (Seq<Zombie>, usize, usize, Seq<BusScenario>);

/// The environment when the crowd's rolls start at `start`.
pub open spec fn env_new_spec(seq: Seq<u16>, start: int) -> EnvSpec {
    let c = crowd_spec(seq, start);
    let z = |a: Appearance, anim: Animation, frames: usize| Zombie {
        appearance: a,
        animation: anim,
        eating_frames: frames,
        anim_frames_remaining: anim.num_frames_spec(),
        state_frames_remaining: ZOMBIE_INIT_FRAMES,
        state: ZombieState::Init,
    };
    (
        seq![
            z(c.0, c.4, ZOMBIE3_STATE_CHANGE),
            z(c.1, c.5, ZOMBIE4_STATE_CHANGE),
            z(c.2, c.6, ZOMBIE5_STATE_CHANGE),
            z(c.3, c.7, ZOMBIE6_STATE_CHANGE),
        ],
        6,
        (start + 44) as usize,
        Seq::empty(),
    )
}

/// One frame: every zombie ticks; from the first frame of interest on, the bus scenario is
/// recorded on that first frame and on every frame where the RNG moved.
pub open spec fn env_tick_spec(e: EnvSpec, seq: Seq<u16>) -> EnvSpec {
    let (zs, r) = zombies_tick_spec(e.0, seq, e.2, 4);
    let shots = if e.1 >= MIN_FRAMES && (r != e.2 || e.1 == MIN_FRAMES) {
        e.3.push(BusScenario { frame_index: e.1, rng_index: r, shots: bus_shots_spec(seq, r as int) })
    } else {
        e.3
    };
    (zs, (e.1 + 1) as usize, r, shots)
}

/// Ticks until the last frame of interest.
pub open spec fn env_run_spec(e: EnvSpec, seq: Seq<u16>, fuel: nat) -> EnvSpec
    decreases fuel,
{
    if fuel == 0 || e.1 >= MAX_FRAMES {
        e
    } else {
        env_run_spec(env_tick_spec(e, seq), seq, (fuel - 1) as nat)
    }
}

/// The best plan found so far while scanning the scenarios after the first.
#[derive(Debug, Copy, Clone)]
pub struct ScanState {
    pub num_shots: usize,
    pub frames_saved: usize,
    pub start_frame: usize,
    pub end_frame: usize,
    pub found_range_end: bool,
    pub shots: (usize, usize),
}

pub open spec fn scan_init_spec(expected: BusScenario) -> ScanState {
    ScanState {
        num_shots: expected.num_shots_spec() as usize,
        frames_saved: 0,
        start_frame: expected.frame_index,
        end_frame: MAX_FRAMES,
        found_range_end: false,
        shots: expected.shots,
    }
}

/// A scenario needing more shots than the current plan ends the plan's window (the first
/// time after the plan was chosen); one needing fewer shots becomes the plan if the shots it
/// saves outweigh the wait by more than the current plan does.
pub open spec fn scan_step_spec(st: ScanState, sc: BusScenario, expected: BusScenario) -> ScanState {
    let n = sc.num_shots_spec();
    if n > st.num_shots {
        if !st.found_range_end {
            ScanState { end_frame: (sc.frame_index - 1) as usize, found_range_end: true, ..st }
        } else {
            st
        }
    } else if n < st.num_shots {
        let wait = sc.frame_index - expected.frame_index;
        let saved = (expected.num_shots_spec() - n) * HANDGUN_QUICK_SHOT_FRAMES;
        if saved > wait && saved - wait > st.frames_saved {
            ScanState {
                num_shots: n as usize,
                frames_saved: (saved - wait) as usize,
                start_frame: sc.frame_index,
                end_frame: st.end_frame,
                found_range_end: false,
                shots: sc.shots,
            }
        } else {
            st
        }
    } else {
        st
    }
}

pub open spec fn scan_spec(shots: Seq<BusScenario>, k: nat) -> ScanState
    decreases k,
{
    if k == 0 {
        scan_init_spec(shots[0])
    } else {
        scan_step_spec(scan_spec(shots, (k - 1) as nat), shots[k as int], shots[0])
    }
}

/// Scenarios as the simulation records them: the first on the first frame of interest,
/// frames increasing, shot counts small.
pub open spec fn scenarios_wf(shots: Seq<BusScenario>) -> bool {
    &&& shots.len() >= 1
    &&& shots[0].frame_index == MIN_FRAMES
    &&& forall|i: int| 0 <= i < shots.len() ==> MIN_FRAMES <= #[trigger] shots[i].frame_index < 0x1000_0000
    &&& forall|i: int| 0 <= i < shots.len() ==> #[trigger] shots[i].shots.0 <= 0x1000 && shots[i].shots.1 <= 0x1000
}

/// Frames saved by entering on scenario `i` instead of on the first one.
pub open spec fn saved_by(shots: Seq<BusScenario>, i: int) -> int {
    (shots[0].num_shots_spec() - shots[i].num_shots_spec()) * HANDGUN_QUICK_SHOT_FRAMES
        - (shots[i].frame_index - shots[0].frame_index)
}

proof fn lemma_scan_best(shots: Seq<BusScenario>, k: nat)
    requires
        scenarios_wf(shots),
        k < shots.len(),
        forall|i: int, j: int| 0 <= i < j < shots.len() ==> shots[i].frame_index < shots[j].frame_index,
    ensures
        ({
            let st = scan_spec(shots, k);
            &&& st.num_shots <= shots[0].num_shots_spec()
            &&& st.start_frame <= shots[k as int].frame_index
            &&& shots[0].frame_index <= st.start_frame
            &&& st.frames_saved == (shots[0].num_shots_spec() - st.num_shots) * HANDGUN_QUICK_SHOT_FRAMES
                - (st.start_frame - shots[0].frame_index)
            &&& forall|i: int| 0 <= i <= k ==> saved_by(shots, i) <= st.frames_saved
        }),
    decreases k,
{
    if k > 0 {
        lemma_scan_best(shots, (k - 1) as nat);
        let prev = scan_spec(shots, (k - 1) as nat);
        assert(shots[(k - 1) as int].frame_index < shots[k as int].frame_index);
        let st = scan_spec(shots, k);
        assert forall|i: int| 0 <= i <= k implies saved_by(shots, i) <= st.frames_saved by {
            if i < k {
                assert(saved_by(shots, i) <= prev.frames_saved);
            }
        }
    }
}

/// The plan that the search settles on saves at least as many frames as entering on any of
/// the recorded frames would (entering at once saves none), when the scenarios come in frame
/// order.
pub proof fn lemma_manip_plan_is_best(shots: Seq<BusScenario>)
    requires
        scenarios_wf(shots),
        forall|i: int, j: int| 0 <= i < j < shots.len() ==> shots[i].frame_index < shots[j].frame_index,
    ensures
        forall|i: int| 0 <= i < shots.len() ==> saved_by(shots, i) <= manip_plan_spec(shots).0.frames_saved,
        manip_plan_spec(shots).0.frames_saved == (shots[0].num_shots_spec()
            - manip_plan_spec(shots).0.num_shots) * HANDGUN_QUICK_SHOT_FRAMES
            - (manip_plan_spec(shots).0.start_frame - shots[0].frame_index),
{
    lemma_scan_best(shots, (shots.len() - 1) as nat);
}

/// The outcome of a manipulation search.
#[derive(Debug)]
pub struct BusManipResult {
    pub rng_start_index: usize,
    pub crowd_composition: ZombieCrowd,
    pub expected_shots: (usize, usize),
    pub manip_start_frame: usize,
    pub manip_end_frame: usize,
    pub manipulated_shots: (usize, usize),
    pub all_results: Vec<BusScenario>,
}

impl BusManipResult {
    /// Frames saved by the plan: shots saved at the quick-shot rate, less the frames waited.
    pub open spec fn frames_saved_spec(self) -> int {
        (self.expected_shots.0 + self.expected_shots.1 - (self.manipulated_shots.0 + self.manipulated_shots.1))
            * HANDGUN_QUICK_SHOT_FRAMES - (self.manip_start_frame - MIN_FRAMES)
    }

    /// Defined where no step of the computation overflows or goes below zero.
    pub fn frames_saved(&self) -> (r: usize)
        requires
            self.expected_shots.0 + self.expected_shots.1 <= usize::MAX,
            self.manipulated_shots.0 + self.manipulated_shots.1 <= self.expected_shots.0 + self.expected_shots.1,
            (self.expected_shots.0 + self.expected_shots.1 - (self.manipulated_shots.0 + self.manipulated_shots.1))
                * HANDGUN_QUICK_SHOT_FRAMES <= usize::MAX,
            MIN_FRAMES <= self.manip_start_frame,
            0 <= self.frames_saved_spec(),
        ensures
            r == self.frames_saved_spec(),
    {
        let expected_shots = self.expected_shots.0 + self.expected_shots.1;
        let manipulated_shots = self.manipulated_shots.0 + self.manipulated_shots.1;
        let wait_frames = self.manip_start_frame - MIN_FRAMES;
        (expected_shots - manipulated_shots) * HANDGUN_QUICK_SHOT_FRAMES - wait_frames
    }
}

/// The search's result for recorded scenarios: the expected shots are those of the first
/// scenario, the plan is what the scan settles on, and the window ends at the scan's end
/// frame or at the last frame that still saves time, whichever is earlier.
pub open spec fn manip_plan_spec(shots: Seq<BusScenario>) -> (ScanState, usize) {
    let st = scan_spec(shots, (shots.len() - 1) as nat);
    let saved = (shots[0].num_shots_spec() - st.num_shots) * HANDGUN_QUICK_SHOT_FRAMES
        - (st.start_frame - MIN_FRAMES);
    let max_end = st.start_frame + saved;
    (st, if st.end_frame > max_end { max_end as usize } else { st.end_frame })
}

/// The simulation of the crowd and bus rooms.
pub struct GameEnvironment {
    pub rng_start_index: usize,
    pub initial_crowd: ZombieCrowd,
    pub zombies: [Zombie; 4],
    pub frames_elapsed: usize,
    pub rng_index: usize,
    pub bus_shots: Vec<BusScenario>,
}

impl GameEnvironment {
    /// The simulation state as values.
    pub open spec fn state(&self) -> EnvSpec {
        (self.zombies@, self.frames_elapsed, self.rng_index, self.bus_shots@)
    }

    /// Invariant of a running simulation: zombies well formed, time and RNG within bounds,
    /// and the recorded scenarios as the simulation records them.
    pub open spec fn wf(&self) -> bool {
        &&& forall|k: int| 0 <= k < 4 ==> zombie_wf(#[trigger] self.zombies@[k])
        &&& 6 <= self.frames_elapsed <= MAX_FRAMES
        &&& self.rng_index <= MAX_SIM_START + 44 + 20 * self.frames_elapsed
        &&& forall|i: int| 0 <= i < self.bus_shots@.len() ==>
            MIN_FRAMES <= #[trigger] self.bus_shots@[i].frame_index < self.frames_elapsed
                && self.bus_shots@[i].shots.0 <= 5 && self.bus_shots@[i].shots.1 <= 2
        &&& self.bus_shots@.len() >= 1 ==> self.bus_shots@[0].frame_index == MIN_FRAMES
        &&& self.frames_elapsed > MIN_FRAMES ==> self.bus_shots@.len() >= 1
        &&& forall|i: int, j: int| 0 <= i < j < self.bus_shots@.len()
            ==> self.bus_shots@[i].frame_index < self.bus_shots@[j].frame_index
    }

    pub fn new(seq: &RngSequence, rng_start_index: usize) -> (r: Self)
        requires
            rng_start_index < MAX_SIM_START,
        ensures
            r.state() == env_new_spec(seq@, rng_start_index as int),
            r.rng_start_index == rng_start_index,
            r.initial_crowd == crowd_spec(seq@, rng_start_index as int),
            r.wf(),
    {
        let mut i = rng_start_index;
        i += 8;
        i += 5;
        let zombie3_appearance = appearance(seq, &mut i);
        i += 5;
        let zombie4_appearance = appearance(seq, &mut i);
        i += 5;
        let zombie5_appearance = appearance(seq, &mut i);
        i += 5;
        let zombie6_appearance = appearance(seq, &mut i);
        let zombie3_animation = animation(seq, &mut i);
        let zombie4_animation = animation(seq, &mut i);
        let zombie5_animation = animation(seq, &mut i);
        let zombie6_animation = animation(seq, &mut i);
        let r = Self {
            rng_start_index,
            initial_crowd: ZombieCrowd(
                zombie3_appearance,
                zombie4_appearance,
                zombie5_appearance,
                zombie6_appearance,
                zombie3_animation,
                zombie4_animation,
                zombie5_animation,
                zombie6_animation,
            ),
            zombies: [
                Zombie::new(zombie3_appearance, zombie3_animation, ZOMBIE3_STATE_CHANGE),
                Zombie::new(zombie4_appearance, zombie4_animation, ZOMBIE4_STATE_CHANGE),
                Zombie::new(zombie5_appearance, zombie5_animation, ZOMBIE5_STATE_CHANGE),
                Zombie::new(zombie6_appearance, zombie6_animation, ZOMBIE6_STATE_CHANGE),
            ],
            frames_elapsed: 6,
            rng_index: i,
            bus_shots: Vec::new(),
        };
        proof {
            assert(r.state().0 =~= env_new_spec(seq@, rng_start_index as int).0);
            assert(r.state().3 =~= env_new_spec(seq@, rng_start_index as int).3);
        }
        r
    }

    /// Advances the simulation by one frame.
    pub fn tick(&mut self, seq: &RngSequence)
        requires
            old(self).wf(),
            old(self).frames_elapsed < MAX_FRAMES,
        ensures
            final(self).state() == env_tick_spec(old(self).state(), seq@),
            final(self).rng_start_index == old(self).rng_start_index,
            final(self).initial_crowd == old(self).initial_crowd,
            final(self).wf(),
    {
        let start_index = self.rng_index;
        let ghost zs0 = self.zombies@;
        let mut k: usize = 0;
        while k < 4
            invariant
                k <= 4,
                start_index == old(self).rng_index,
                zs0 == old(self).zombies@,
                (self.zombies@, self.rng_index) == zombies_tick_spec(zs0, seq@, start_index, k as nat),
                forall|j: int| 0 <= j < 4 ==> zombie_wf(#[trigger] self.zombies@[j]),
                start_index <= self.rng_index <= start_index + 5 * k,
                start_index <= MAX_SIM_START + 44 + 20 * MAX_FRAMES,
                self.zombies@.len() == 4,
                self.rng_start_index == old(self).rng_start_index,
                self.initial_crowd == old(self).initial_crowd,
                self.frames_elapsed == old(self).frames_elapsed,
                self.bus_shots@ == old(self).bus_shots@,
                old(self).wf(),
                old(self).frames_elapsed < MAX_FRAMES,
            decreases 4 - k,
        {
            let mut zombie = self.zombies[k];
            let mut rng_index = self.rng_index;
            zombie.tick(seq, &mut rng_index);
            self.zombies[k] = zombie;
            self.rng_index = rng_index;
            k += 1;
        }
        if self.frames_elapsed >= MIN_FRAMES && (self.rng_index != start_index || self.frames_elapsed == MIN_FRAMES) {
            let bus_shots = get_bus_shots(seq, self.rng_index);
            self.bus_shots.push(BusScenario {
                frame_index: self.frames_elapsed,
                rng_index: self.rng_index,
                shots: bus_shots,
            });
        }
        self.frames_elapsed += 1;
    }

    /// Whether the simulation has frames of interest left.
    pub fn is_active(&self) -> (r: bool)
        ensures
            r == (self.frames_elapsed < MAX_FRAMES),
    {
        self.frames_elapsed < MAX_FRAMES
    }

    /// Finds the best time to enter the bus room: the expected shots are those on the first
    /// frame of interest; a later frame with fewer shots is preferred when the shots it saves
    /// outweigh the wait.
    pub fn to_manip_result(self) -> (r: BusManipResult)
        requires
            scenarios_wf(self.bus_shots@),
        ensures
            r.rng_start_index == self.rng_start_index,
            r.crowd_composition == self.initial_crowd,
            r.expected_shots == self.bus_shots@[0].shots,
            r.manipulated_shots == manip_plan_spec(self.bus_shots@).0.shots,
            r.manip_start_frame == manip_plan_spec(self.bus_shots@).0.start_frame,
            r.manip_end_frame == manip_plan_spec(self.bus_shots@).1,
            r.all_results@ == self.bus_shots@,
    {
        let shots = &self.bus_shots;
        let mut all_results: Vec<BusScenario> = Vec::new();
        let mut i: usize = 0;
        while i < shots.len()
            invariant
                i <= shots@.len(),
                all_results@ == shots@.subrange(0, i as int),
            decreases shots@.len() - i,
        {
            all_results.push(shots[i]);
            i += 1;
            proof { assert(all_results@ =~= shots@.subrange(0, i as int)); }
        }
        proof { assert(all_results@ =~= shots@); }
        let expected = shots[0];
        let expected_num_shots = expected.num_shots();
        let mut st = ScanState {
            num_shots: expected_num_shots,
            frames_saved: 0,
            start_frame: expected.frame_index,
            end_frame: MAX_FRAMES,
            found_range_end: false,
            shots: expected.shots,
        };
        let mut k: usize = 1;
        while k < shots.len()
            invariant
                1 <= k <= shots@.len(),
                scenarios_wf(shots@),
                expected == shots@[0],
                expected_num_shots == expected.num_shots_spec(),
                st == scan_spec(shots@, (k - 1) as nat),
                st.num_shots <= expected_num_shots,
                st.num_shots == st.shots.0 + st.shots.1,
                MIN_FRAMES <= st.start_frame < 0x1000_0000,
                st.frames_saved == (expected_num_shots - st.num_shots) * HANDGUN_QUICK_SHOT_FRAMES
                    - (st.start_frame - MIN_FRAMES),
                st.end_frame <= MAX_FRAMES || st.end_frame < 0x1000_0000,
            decreases shots@.len() - k,
        {
            let sc = shots[k];
            let num_shots = sc.num_shots();
            if num_shots > st.num_shots {
                if !st.found_range_end {
                    st.end_frame = sc.frame_index - 1;
                    st.found_range_end = true;
                }
            } else if num_shots < st.num_shots {
                let wait_frames = sc.frame_index - expected.frame_index;
                let shot_frames_saved = (expected_num_shots - num_shots) * HANDGUN_QUICK_SHOT_FRAMES;
                if shot_frames_saved > wait_frames {
                    let total_frames_saved = shot_frames_saved - wait_frames;
                    if total_frames_saved > st.frames_saved {
                        st.frames_saved = total_frames_saved;
                        st.start_frame = sc.frame_index;
                        st.num_shots = num_shots;
                        st.shots = sc.shots;
                        st.found_range_end = false;
                    }
                }
            }
            k += 1;
        }
        let mut result = BusManipResult {
            rng_start_index: self.rng_start_index,
            crowd_composition: self.initial_crowd,
            expected_shots: expected.shots,
            manip_start_frame: st.start_frame,
            manip_end_frame: st.end_frame,
            manipulated_shots: st.shots,
            all_results,
        };
        let max_end_frame = result.manip_start_frame + result.frames_saved();
        if result.manip_end_frame > max_end_frame {
            result.manip_end_frame = max_end_frame;
        }
        result
    }
}

/// Runs the whole simulation for a crowd whose rolls start at `start`.
pub fn simulate_one_bus_manip(seq: &RngSequence, start: usize) -> (r: BusManipResult)
    requires
        start < MAX_SIM_START,
    ensures
        ({
            let e = env_run_spec(env_new_spec(seq@, start as int), seq@, MAX_FRAMES as nat);
            &&& r.rng_start_index == start
            &&& r.crowd_composition == crowd_spec(seq@, start as int)
            &&& r.expected_shots == e.3[0].shots
            &&& r.manipulated_shots == manip_plan_spec(e.3).0.shots
            &&& r.manip_start_frame == manip_plan_spec(e.3).0.start_frame
            &&& r.manip_end_frame == manip_plan_spec(e.3).1
            &&& r.all_results@ == e.3
            &&& scenarios_wf(e.3)
            &&& forall|i: int, j: int| 0 <= i < j < e.3.len() ==> e.3[i].frame_index < e.3[j].frame_index
        }),
{
    let mut env = GameEnvironment::new(seq, start);
    let ghost e0 = env.state();
    let mut fuel: usize = MAX_FRAMES;
    while env.is_active()
        invariant
            env.wf(),
            env.rng_start_index == start,
            env.initial_crowd == crowd_spec(seq@, start as int),
            fuel + env.frames_elapsed >= MAX_FRAMES,
            env_run_spec(env.state(), seq@, fuel as nat)
                == env_run_spec(e0, seq@, MAX_FRAMES as nat),
            e0 == env_new_spec(seq@, start as int),
        decreases MAX_FRAMES - env.frames_elapsed,
    {
        env.tick(seq);
        fuel -= 1;
    }
    proof {
        assert(env_run_spec(env.state(), seq@, fuel as nat) == env.state());
        assert(env.frames_elapsed == MAX_FRAMES);
        let shots = env.bus_shots@;
        assert forall|i: int| 0 <= i < shots.len() implies MIN_FRAMES <= #[trigger] shots[i].frame_index
            < 0x1000_0000 by {
            assert(MIN_FRAMES <= env.bus_shots@[i].frame_index < env.frames_elapsed);
        }
        assert forall|i: int| 0 <= i < shots.len() implies #[trigger] shots[i].shots.0 <= 0x1000
            && shots[i].shots.1 <= 0x1000 by {
            assert(MIN_FRAMES <= env.bus_shots@[i].frame_index < env.frames_elapsed);
        }
        assert(scenarios_wf(env.bus_shots@));
    }
    env.to_manip_result()
}

// ---------------------------------------------------------------------------------------------
// Runs in the RNG cycle

/// The shortest run worth listing.
pub const MIN_RUN_LENGTH: usize = 6;

/// What the RNG bytes of a run have in common: a bit set, a bit clear, or being a multiple of 3.
#[derive(Debug, Clone, Copy, PartialEq, Eq, Structural)]
pub enum RunKind {
    BitSet(u8),
    BitClear(u8),
    MultipleOfThree,
}

/// Whether the RNG byte at position `p` is of the kind.
pub open spec fn run_holds(s: Seq<u16>, kind: RunKind, p: int) -> bool {
    match kind {
        RunKind::BitSet(m) => rng_spec(s, p) & (m as usize) != 0,
        RunKind::BitClear(m) => rng_spec(s, p) & (m as usize) == 0,
        RunKind::MultipleOfThree => rng_spec(s, p) % 3 == 0,
    }
}

/// The first position from `j` on where the kind does not hold, looking no further than `limit`.
pub open spec fn run_end(s: Seq<u16>, kind: RunKind, j: nat, limit: nat) -> nat
    decreases limit - j,
{
    if j >= limit || !run_holds(s, kind, j as int) {
        j
    } else {
        run_end(s, kind, j + 1, limit)
    }
}

/// The runs that a scan of the cycle from position `i` finds: from each position where the kind
/// holds, the stretch up to the first position where it does not (reading on past the end of the
/// cycle, for at most one more cycle), listed when it is at least `MIN_RUN_LENGTH` long; the scan
/// goes on from the end of each stretch.
pub open spec fn runs_from(s: Seq<u16>, kind: RunKind, i: nat) -> Seq<(usize, usize)>
    decreases s.len() - i,
{
    if i >= s.len() {
        seq![]
    } else if !run_holds(s, kind, i as int) {
        runs_from(s, kind, i + 1)
    } else {
        let j = run_end(s, kind, i + 1, i + s.len());
        let rest = if i < j < s.len() { runs_from(s, kind, j) } else { seq![] };
        if j - i >= MIN_RUN_LENGTH { seq![(i as usize, j as usize)] + rest } else { rest }
    }
}

proof fn lemma_run_end_bounds(s: Seq<u16>, kind: RunKind, j: nat, limit: nat)
    requires
        j <= limit,
    ensures
        j <= run_end(s, kind, j, limit) <= limit,
    decreases limit - j,
{
    if j < limit && run_holds(s, kind, j as int) {
        lemma_run_end_bounds(s, kind, j + 1, limit);
    }
}

proof fn lemma_run_end_holds(s: Seq<u16>, kind: RunKind, j: nat, limit: nat)
    requires
        j <= limit,
    ensures
        forall|p: int| j <= p < run_end(s, kind, j, limit) ==> run_holds(s, kind, p),
        run_end(s, kind, j, limit) < limit ==> !run_holds(s, kind, run_end(s, kind, j, limit) as int),
    decreases limit - j,
{
    if j < limit && run_holds(s, kind, j as int) {
        lemma_run_end_holds(s, kind, j + 1, limit);
    }
}

/// Every run found is at least `MIN_RUN_LENGTH` long and starts within the cycle, the kind holds
/// at each of its positions, and it stops at a position where the kind does not hold (unless it
/// spans a whole cycle); the runs come in increasing order without overlapping.
pub proof fn lemma_runs_of_kind(s: Seq<u16>, kind: RunKind, i: nat)
    requires
        s.len() <= 0x8000,
    ensures
        forall|k: int| 0 <= k < runs_from(s, kind, i).len() ==> {
            let r = #[trigger] runs_from(s, kind, i)[k];
            &&& i <= r.0 < s.len()
            &&& r.0 + MIN_RUN_LENGTH <= r.1 <= r.0 + s.len()
            &&& forall|p: int| r.0 <= p < r.1 ==> run_holds(s, kind, p)
            &&& r.1 < r.0 + s.len() ==> !run_holds(s, kind, r.1 as int)
        },
        forall|k: int, l: int| 0 <= k < l < runs_from(s, kind, i).len() ==>
            (#[trigger] runs_from(s, kind, i)[k]).1 <= (#[trigger] runs_from(s, kind, i)[l]).0,
    decreases s.len() - i,
{
    if i >= s.len() {
        assert(runs_from(s, kind, i).len() == 0);
    } else {
        if !run_holds(s, kind, i as int) {
            lemma_runs_of_kind(s, kind, i + 1);
            assert(runs_from(s, kind, i) == runs_from(s, kind, i + 1));
        } else {
            let j = run_end(s, kind, i + 1, i + s.len());
            lemma_run_end_bounds(s, kind, i + 1, i + s.len());
            lemma_run_end_holds(s, kind, i + 1, i + s.len());
            let rest = if i < j < s.len() { runs_from(s, kind, j) } else { seq![] };
            if i < j < s.len() {
                lemma_runs_of_kind(s, kind, j);
            }
            assert(forall|k: int| 0 <= k < rest.len() ==> {
                let r = #[trigger] rest[k];
                &&& j <= r.0 < s.len()
                &&& r.0 + MIN_RUN_LENGTH <= r.1 <= r.0 + s.len()
                &&& forall|p: int| r.0 <= p < r.1 ==> run_holds(s, kind, p)
                &&& r.1 < r.0 + s.len() ==> !run_holds(s, kind, r.1 as int)
            });
            assert(forall|k: int, l: int| 0 <= k < l < rest.len() ==> (#[trigger] rest[k]).1 <= (#[trigger] rest[l]).0);
            if j - i >= MIN_RUN_LENGTH {
                assert(runs_from(s, kind, i) == seq![(i as usize, j as usize)] + rest);
                assert forall|k: int| 0 <= k < runs_from(s, kind, i).len() implies ({
                    let r = #[trigger] runs_from(s, kind, i)[k];
                    &&& i <= r.0 < s.len()
                    &&& r.0 + MIN_RUN_LENGTH <= r.1 <= r.0 + s.len()
                    &&& forall|p: int| r.0 <= p < r.1 ==> run_holds(s, kind, p)
                    &&& r.1 < r.0 + s.len() ==> !run_holds(s, kind, r.1 as int)
                }) by {
                    if k > 0 {
                        assert(runs_from(s, kind, i)[k] == rest[k - 1]);
                    }
                }
                assert forall|k: int, l: int| 0 <= k < l < runs_from(s, kind, i).len() implies (#[trigger] runs_from(s, kind, i)[k]).1 <= (#[trigger] runs_from(s, kind, i)[l]).0 by {
                    assert(runs_from(s, kind, i)[l] == rest[l - 1]);
                    if k > 0 {
                        assert(runs_from(s, kind, i)[k] == rest[k - 1]);
                    }
                }
            } else {
                assert(runs_from(s, kind, i) == rest);
            }
        }
    }
}

fn holds_at(seq: &RngSequence, kind: RunKind, p: usize) -> (r: bool)
    requires
        p < usize::MAX,
    ensures
        r == run_holds(seq@, kind, p as int),
{
    let v = rng(seq, p);
    match kind {
        RunKind::BitSet(m) => v & (m as usize) != 0,
        RunKind::BitClear(m) => v & (m as usize) == 0,
        RunKind::MultipleOfThree => v % 3 == 0,
    }
}

/// The runs of the given kind in the RNG cycle, as half-open ranges of positions (see
/// `runs_from`).
pub fn find_runs(seq: &RngSequence, kind: RunKind) -> (r: Vec<(usize, usize)>)
    ensures
        r@ == runs_from(seq@, kind, 0),
{
    let len = seq.len();
    let mut runs: Vec<(usize, usize)> = Vec::new();
    let mut i: usize = 0;
    while i < len
        invariant
            len == seq@.len(),
            1 <= len <= 0x8000,
            i <= 2 * len,
            runs@ + runs_from(seq@, kind, i as nat) == runs_from(seq@, kind, 0),
        decreases 2 * len - i,
    {
        if !holds_at(seq, kind, i) {
            i = i + 1;
            continue;
        }

        let limit = i + len;
        let mut j = i + 1;
        proof {
            lemma_run_end_bounds(seq@, kind, j as nat, limit as nat);
        }
        while j < limit && holds_at(seq, kind, j)
            invariant
                i < len,
                limit == i + len,
                len <= 0x8000,
                i + 1 <= j <= limit,
                run_end(seq@, kind, j as nat, limit as nat) == run_end(seq@, kind, (i + 1) as nat, limit as nat),
            decreases limit - j,
        {
            j = j + 1;
        }
        let ghost rest = runs_from(seq@, kind, j as nat);
        let ghost before = runs@;
        if j - i >= MIN_RUN_LENGTH {
            runs.push((i, j));
            proof {
                assert(runs@ + rest =~= before + (seq![(i, j)] + rest));
            }
        }
        i = j;
    }
    proof {
        assert(runs_from(seq@, kind, i as nat) == Seq::<(usize, usize)>::empty());
        assert(runs@ + runs_from(seq@, kind, i as nat) =~= runs@);
    }
    runs
}

/// The length of a half-open range (none when it is reversed).
pub open spec fn run_len(r: (usize, usize)) -> int {
    if r.0 < r.1 { r.1 - r.0 } else { 0 }
}

/// The longest run, the last of them when several are as long; none when there are no runs.
pub fn longest_run(runs: &Vec<(usize, usize)>) -> (r: Option<(usize, usize)>)
    ensures
        runs@.len() == 0 <==> r is None,
        r matches Some(best) ==> exists|k: int| 0 <= k < runs@.len() && runs@[k] == best
            && (forall|m: int| 0 <= m < runs@.len() ==> run_len(#[trigger] runs@[m]) <= run_len(best))
            && (forall|m: int| k < m < runs@.len() ==> run_len(#[trigger] runs@[m]) < run_len(best)),
{
    if runs.len() == 0 {
        return None;
    }
    let mut best_index: usize = 0;
    let mut i: usize = 1;
    while i < runs.len()
        invariant
            1 <= i <= runs@.len(),
            best_index < i,
            forall|m: int| 0 <= m < i ==> run_len(#[trigger] runs@[m]) <= run_len(runs@[best_index as int]),
            forall|m: int| best_index < m < i ==> run_len(#[trigger] runs@[m]) < run_len(runs@[best_index as int]),
        decreases runs@.len() - i,
    {
        let (s, e) = runs[i];
        let (bs, be) = runs[best_index];
        let len_i = if s < e { e - s } else { 0 };
        let len_best = if bs < be { be - bs } else { 0 };
        if len_i >= len_best {
            best_index = i;
        }
        i = i + 1;
    }
    Some(runs[best_index])
}

} // verus!
