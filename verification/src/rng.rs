//! The game's pseudo-random number generator and the outcome of each kind of roll.

use vstd::prelude::*;
use crate::roll_type::RollType;
use crate::text::{decimal, signed_decimal, push_decimal, push_signed_decimal};

verus! {

/// A zombie whose stagger threshold is at most this value staggers from one shot.
pub const ZOMBIE_ONE_SHOT_STAGGER_THRESHOLD: u8 = 0x17;

/// The seed the game starts from (its high 16 bits are ignored by the generator).
pub const INITIAL_SEED: u16 = 0x6ca4;

pub const ZOMBIE_SPEED_INDEXES: [u8; 8] = [0, 2, 0, 2, 0, 2, 2, 0];
pub const ZOMBIE_SPEED_INDEXES2: [u8; 8] = [0, 2, 0, 2, 0, 2, 0, 2];

pub const ZOMBIE_HEALTHS1: [i16; 16] = [
    0x46, 0x54, 0x76, 0x41, 0x32, 0x55, 0x30, 0x41, 0x28, 0x49, 0x45, 0x38, 0x46, 0x37, 0x48, 0x37,
];

pub const ZOMBIE_HEALTHS2: [i16; 16] = [
    0x27, 0x0D, 0x1B, 0x27, 0x36, 0x1B, 0x27, 0x55, 0x1B, 0x27, 0x1B, 0x1B, 0x27, 0x1B, 0x27, 0x1B,
];

pub const ZOMBIE_EAT_ANIMATIONS: [u8; 8] = [0x12, 0x13, 0x14, 0x12, 0x13, 0x14, 0x12, 0x13];

pub const IVY_HEALTHS1: [i16; 16] = [
    0x61, 0x77, 0x61, 0x5A, 0x61, 0x5A, 0x77, 0x61, 0x5A, 0x5A, 0x59, 0x77, 0x45, 0x5A, 0x59, 0x77,
];

pub const IVY_HEALTHS2: [i16; 16] = [
    0x59, 0x45, 0x59, 0x4F, 0x63, 0x45, 0x4F, 0x3B, 0x45, 0x3B, 0x3B, 0x45, 0x3B, 0x3B, 0x3B, 0x45,
];

pub const SPIDER_HEALTHS1: [i16; 16] = [
    0x63, 0x63, 0x63, 0x63, 0x77, 0x63, 0x63, 0x77, 0x63, 0x63, 0x63, 0x77, 0x63, 0x59, 0x63, 0x63,
];

pub const SPIDER_HEALTHS2: [i16; 16] = [
    0x4F, 0x59, 0x63, 0x4F, 0x31, 0x59, 0x4F, 0x45, 0x59, 0x45, 0x59, 0x59, 0x63, 0x45, 0x31, 0x4F,
];

pub const DOG_HEALTHS1: [i16; 16] = [
    0x77, 0x55, 0x55, 0x55, 0x77, 0x46, 0x55, 0x55, 0x46, 0x55, 0x3B, 0x46, 0x3B, 0x55, 0x3B, 0x46,
];

pub const DOG_HEALTHS2: [i16; 16] = [
    0x39, 0x39, 0x52, 0x41, 0x52, 0x41, 0x39, 0x3B, 0x41, 0x39, 0x1E, 0x39, 0x1E, 0x39, 0x1E, 0x45,
];

/// One step of the generator: `high` is the high byte of the doubled seed, `low` the low byte
/// of the seed plus `high`, and the result keeps 15 bits of `high:low`.
pub open spec fn roll_spec(seed: u16) -> u16 {
    let high = ((2 * seed) % 0x10000) / 0x100;
    let low = (seed + high) % 0x100;
    ((high * 0x100 + low) % 0x8000) as u16
}

/// The low byte of the next seed, which is what most rolls look at.
pub open spec fn roll8_spec(seed: u16) -> u8 {
    (roll_spec(seed) % 0x100) as u8
}

/// The two bytes of a double roll: the low byte of the recorded seed, then the next roll.
pub open spec fn roll_two_spec(seed: u16) -> (u8, u8) {
    ((seed % 0x100) as u8, roll8_spec(seed))
}

/// The three bytes of a triple roll: the low byte of the seed before the recorded one
/// (reconstructed as low byte minus high byte, modulo 256), the low byte of the recorded
/// seed, and the next roll.
pub open spec fn roll_three_spec(seed: u16) -> (u8, u8, u8) {
    let high = seed / 0x100;
    let low = seed % 0x100;
    (((low - high + 0x100) % 0x100) as u8, low as u8, roll8_spec(seed))
}

/// The 16-bit seed that rolling `p` produces, before the top bit is dropped.
pub open spec fn unmasked_roll(p: u16) -> u16 {
    let high = ((2 * p) % 0x10000) / 0x100;
    (high * 0x100 + (p + high) % 0x100) as u16
}

/// The first value of a triple roll is the low byte of the seed before: the low byte of the
/// seed less its high byte undoes the roll's addition.
pub proof fn lemma_roll_three_previous(p: u16)
    ensures
        roll_three_spec(unmasked_roll(p)).0 == (p % 0x100) as u8,
        roll_spec(p) == unmasked_roll(p) % 0x8000,
{
    let high = ((2 * p) % 0x10000) / 0x100;
    let s = unmasked_roll(p);
    assert(s / 0x100 == high && s % 0x100 == (p + high) % 0x100);
    assert(((p + high) % 0x100 - high + 0x100) % 0x100 == p % 0x100) by (nonlinear_arith)
        requires 0 <= high < 0x100, 0 <= p;
}

/// A double roll: the second byte shifted right by the first byte's low two bits, masked.
pub open spec fn roll_double_spec(seed: u16, mask: u8) -> u8 {
    (roll8_spec(seed) >> ((seed % 4) as u8)) & mask
}

/// Advances the generator by one step.
pub fn roll(seed: u16) -> (r: u16)
    ensures
        r == roll_spec(seed),
        r < 0x8000,
{
    let high: u32 = ((2 * seed as u32) % 0x10000) / 0x100;
    let low: u32 = (seed as u32 + high) % 0x100;
    ((high * 0x100 + low) % 0x8000) as u16
}

/// The low byte of the next seed.
pub fn roll8(seed: u16) -> (r: u8)
    ensures
        r == roll8_spec(seed),
{
    (roll(seed) % 0x100) as u8
}

/// Both bytes of a double roll (the recorded seed is the one before the roll).
pub fn roll_two(seed: u16) -> (r: (u8, u8))
    ensures
        r == roll_two_spec(seed),
{
    ((seed % 0x100) as u8, roll8(seed))
}

/// All three bytes of a triple roll (only the low byte of the earlier seed is needed).
pub fn roll_three(seed: u16) -> (r: (u8, u8, u8))
    ensures
        r == roll_three_spec(seed),
{
    let high = (seed / 0x100) as u8;
    let low = (seed % 0x100) as u8;
    let prev = low.wrapping_sub(high);
    (prev, low, roll8(seed))
}

/// A double roll combined into one value.
pub fn roll_double(seed: u16, mask: u8) -> (r: u8)
    ensures
        r == roll_double_spec(seed, mask),
        r <= mask,
{
    let second = roll8(seed);
    let shift: u8 = (seed % 4) as u8;
    let r = (second >> shift) & mask;
    assert(((second >> shift) & mask) <= mask) by (bit_vector);
    r
}


pub const IVY_TENTACLE_SETS: [[u8; 4]; 4] = [[2, 3, 5, 6], [0, 1, 4, 7], [0, 3, 6, 7], [1, 2, 6, 7]];

/// The kinds of result that a roll can be described by; each names one way of reading the
/// outcome from the recorded seed.
#[derive(Debug, Clone, Copy, PartialEq, Eq, Structural)]
pub enum Outcome {
    ZombieStagger,
    ZombieStaggerHard,
    ZombieStaggerReroll,
    BitOne,
    NotBitOne,
    BitTwo,
    AndThreeZero,
    AndThreeNotZero,
    AndTwoZero,
    ZombieAppearance,
    ZombieAppearance2,
    ZombieHealth,
    ZombieHealthAlt,
    ZombieHealth2,
    DogHealth,
    DogHealth2,
    ZombieAnimationOffset,
    ZombieAnimationOffset16,
    OneIn32,
    ZombieArmRaiseTimer,
    ZombieMoanChoice,
    ZombieEatingAnimation,
    IvyHealth1,
    IvyHealth2,
    HealthBonus,
    IvyTentacleSet,
    IvyAmbush,
    TentacleAnimationOffset,
    TentacleAttachAngle,
    DogAnimationOffset1,
    DogAnimationOffset2,
    DogAnimationOffset3,
    SpiderHealth1,
    SpiderHealth2,
    SpiderPoison3In32,
    ZombieKnockdown93,
    ZombieKnockdownSpeed,
    ZombieKnockdown87,
    ZombieSpeed,
    ZombieSpeed2,
    ZombieBloodSpray,
    LickerHealth,
    LickerJump37,
    LickerJump25,
    LickerJump62,
    LickerJumpOrLick,
    HandgunCrit,
    SpiderMaxTurnTime,
    SpiderTurnDirection,
    SpiderMaxFaceTime,
    SpiderMaxPursueTime,
    SpiderMaxLegTurnTime,
    SpiderMaxLegAttackTime,
    SpiderMaxIdleTime,
    SpiderPursue50,
}

/// "success" or "failure".
pub open spec fn bool_text_spec(value: bool) -> Seq<char> {
    if value { "success"@ } else { "failure"@ }
}

/// A stagger threshold and whether one shot is enough to reach it.
pub open spec fn stagger_text(threshold: nat) -> Seq<char> {
    decimal(threshold) + " ("@ + (if threshold <= ZOMBIE_ONE_SHOT_STAGGER_THRESHOLD {
        "one-shot stagger"@
    } else {
        "two-shot stagger"@
    }) + ")"@
}

/// A value taken from a table, with its index.
pub open spec fn indexed_text(value: Seq<char>, index: nat) -> Seq<char> {
    value + " (index "@ + decimal(index) + ")"@
}

/// A health value taken from a table, with its index.
pub open spec fn health_text(values: Seq<i16>, index: nat) -> Seq<char> {
    indexed_text(signed_decimal(values[index as int] as int), index)
}

/// A set of four tentacle indices in list notation.
pub open spec fn tentacle_set_text(set: [u8; 4]) -> Seq<char> {
    "["@ + decimal(set[0] as nat) + ", "@ + decimal(set[1] as nat) + ", "@ + decimal(set[2] as nat)
        + ", "@ + decimal(set[3] as nat) + "]"@
}

/// The zombie appearance number (1 to 3) chosen by a triple roll.
pub open spec fn zombie_appearance_value(seed: u16) -> nat {
    let (first, second, third) = roll_three_spec(seed);
    ((third as usize + ((second as usize) << ((first % 4) as usize))) % 3 + 1) as nat
}

/// The spider's poison roll succeeds when the low five bits of the roll are 6, 8 or 9.
pub open spec fn spider_poisons(r8: int) -> bool {
    r8 % 32 == 6 || r8 % 32 == 8 || r8 % 32 == 9
}

/// How many of the roll values below `n` poison.
pub open spec fn poisoning_values(n: nat) -> nat
    decreases n,
{
    if n == 0 { 0 } else { poisoning_values((n - 1) as nat) + if spider_poisons(n - 1) { 1nat } else { 0nat } }
}

/// The poisoning values among the first `r` of a block of 32.
pub open spec fn poisoning_in_block(r: nat) -> nat {
    (if r > 6 { 1nat } else { 0nat }) + (if r > 8 { 1nat } else { 0nat }) + (if r > 9 { 1nat } else { 0nat })
}

/// Three values in each block of 32 poison.
proof fn lemma_poisoning_values(n: nat)
    ensures
        poisoning_values(n) == 3 * (n / 32) + poisoning_in_block(n % 32),
    decreases n,
{
    if n > 0 {
        lemma_poisoning_values((n - 1) as nat);
        let m = (n - 1) as nat;
        assert(m % 32 == 31 ==> n / 32 == m / 32 + 1 && n % 32 == 0);
        assert(m % 32 < 31 ==> n / 32 == m / 32 && n % 32 == m % 32 + 1);
    }
}

/// The spider poisons on 24 of the 256 values of a roll: 3 in 32, 9.375%.
pub proof fn lemma_spider_poison_rate()
    ensures
        poisoning_values(256) == 24,
{
    lemma_poisoning_values(256);
}

/// The text that each kind of outcome gives for a recorded seed.
pub open spec fn outcome_text(kind: Outcome, seed: u16) -> Seq<char> {
    let r = roll_spec(seed);
    let r8 = roll8_spec(seed);
    match kind {
        Outcome::ZombieStagger => stagger_text((r8 % 16 + 0x10) as nat),
        Outcome::ZombieStaggerHard => stagger_text((r8 % 16 + 0x20) as nat),
        Outcome::ZombieStaggerReroll => bool_text_spec(roll_double_spec(seed, 0xff) % 3 == 0),
        Outcome::BitOne => bool_text_spec(r % 2 == 1),
        Outcome::NotBitOne => bool_text_spec(r % 2 == 0),
        Outcome::BitTwo => bool_text_spec((r / 2) % 2 == 1),
        Outcome::AndThreeZero => bool_text_spec(r % 4 == 0),
        Outcome::AndThreeNotZero => bool_text_spec(r % 4 != 0),
        Outcome::AndTwoZero => bool_text_spec((r / 2) % 2 == 0),
        Outcome::ZombieAppearance => decimal(zombie_appearance_value(seed)),
        Outcome::ZombieAppearance2 => decimal((r8 % 3 + 1) as nat),
        Outcome::ZombieHealth => health_text(ZOMBIE_HEALTHS1@, roll_double_spec(seed, 0xf) as nat),
        Outcome::ZombieHealthAlt => health_text(ZOMBIE_HEALTHS2@, roll_double_spec(seed, 0xf) as nat),
        Outcome::ZombieHealth2 => health_text(ZOMBIE_HEALTHS1@, (r8 % 16) as nat),
        Outcome::DogHealth => health_text(DOG_HEALTHS1@, (r8 % 16) as nat),
        Outcome::DogHealth2 => health_text(DOG_HEALTHS2@, (r8 % 16) as nat),
        Outcome::ZombieAnimationOffset => decimal((r8 % 32) as nat),
        Outcome::ZombieAnimationOffset16 => decimal((r8 % 16) as nat),
        Outcome::OneIn32 => bool_text_spec(r8 % 32 == 0),
        Outcome::ZombieArmRaiseTimer => decimal((r8 / 8 + 100) as nat),
        Outcome::ZombieMoanChoice => if r8 % 2 == 0 { "short"@ } else { "long"@ },
        Outcome::ZombieEatingAnimation => indexed_text(
            decimal(ZOMBIE_EAT_ANIMATIONS[(r8 % 8) as int] as nat),
            (r8 % 8) as nat,
        ),
        Outcome::IvyHealth1 => health_text(IVY_HEALTHS1@, (r8 % 16) as nat),
        Outcome::IvyHealth2 => health_text(IVY_HEALTHS2@, (r8 % 16) as nat),
        Outcome::HealthBonus => decimal((r8 % 4) as nat),
        Outcome::IvyTentacleSet => indexed_text(
            tentacle_set_text(IVY_TENTACLE_SETS[(r8 % 4) as int]),
            (r8 % 4) as nat,
        ),
        Outcome::IvyAmbush => decimal((r8 % 4) as nat),
        Outcome::TentacleAnimationOffset => decimal((r8 % 16) as nat),
        Outcome::TentacleAttachAngle => decimal((r8 * 2) as nat),
        Outcome::DogAnimationOffset1 => decimal((r8 % 64) as nat),
        Outcome::DogAnimationOffset2 => decimal((r8 % 16) as nat),
        Outcome::DogAnimationOffset3 => decimal((r8 % 32) as nat),
        Outcome::SpiderHealth1 => health_text(SPIDER_HEALTHS1@, (r8 % 16) as nat),
        Outcome::SpiderHealth2 => health_text(SPIDER_HEALTHS2@, (r8 % 16) as nat),
        Outcome::SpiderPoison3In32 => bool_text_spec(spider_poisons(r8 as int)),
        Outcome::ZombieKnockdown93 => bool_text_spec(roll_double_spec(seed, 0xf) != 2),
        Outcome::ZombieKnockdownSpeed => decimal((r8 % 4) as nat),
        Outcome::ZombieKnockdown87 => bool_text_spec(roll_double_spec(seed, 7) != 0),
        Outcome::ZombieSpeed => if ZOMBIE_SPEED_INDEXES[roll_double_spec(seed, 7) as int] == 0 {
            "fast"@
        } else {
            "slow"@
        },
        Outcome::ZombieSpeed2 => if ZOMBIE_SPEED_INDEXES2[(r8 % 8) as int] == 0 {
            "fast"@
        } else {
            "slow"@
        },
        Outcome::ZombieBloodSpray => decimal((r8 * 16) as nat),
        Outcome::LickerHealth => "index "@ + decimal(((r8 % 16) * 2) as nat),
        Outcome::LickerJump37 => bool_text_spec(r8 % 8 < 3),
        Outcome::LickerJump25 => bool_text_spec(r8 % 8 < 2),
        Outcome::LickerJump62 => bool_text_spec(r8 % 8 < 5),
        Outcome::LickerJumpOrLick => if r8 % 8 < 6 { "jump"@ } else { "lick"@ },
        Outcome::HandgunCrit => bool_text_spec(roll_double_spec(seed, 0xf) == 0),
        Outcome::SpiderMaxTurnTime => decimal((((r8 + 10) % 0x100) % 64) as nat),
        Outcome::SpiderTurnDirection => if r8 % 2 == 0 { "clockwise"@ } else { "counterclockwise"@ },
        Outcome::SpiderMaxFaceTime => decimal((r8 % 32 + 0x3c) as nat),
        Outcome::SpiderMaxPursueTime => decimal((r8 & 0x2e) as nat),
        Outcome::SpiderMaxLegTurnTime => decimal((r8 % 32 + 0x14) as nat),
        Outcome::SpiderMaxLegAttackTime => decimal((r8 % 32 + 10) as nat),
        Outcome::SpiderMaxIdleTime => decimal((((r8 + 10) % 0x100) % 32) as nat),
        Outcome::SpiderPursue50 => bool_text_spec(r8 % 2 == 0),
    }
}

fn string_of(text: &str) -> (s: String)
    ensures
        s@ == text@,
{
    String::from_str(text)
}

fn decimal_text(n: u64) -> (s: String)
    ensures
        s@ == decimal(n as nat),
{
    let mut s = String::new();
    push_decimal(&mut s, n);
    proof {
        assert(s@ =~= decimal(n as nat));
    }
    s
}

/// "success" or "failure".
pub fn bool_text(value: bool) -> (s: String)
    ensures
        s@ == bool_text_spec(value),
{
    string_of(if value { "success" } else { "failure" })
}

/// A stagger threshold drawn from the low nibble of the roll plus `base`.
pub fn zombie_stagger_threshold(seed: u16, base: u8) -> (s: String)
    requires
        roll8_spec(seed) % 16 + base <= 255,
    ensures
        s@ == stagger_text((roll8_spec(seed) % 16 + base) as nat),
{
    let threshold: u8 = roll8(seed) % 16 + base;
    let description = if threshold <= ZOMBIE_ONE_SHOT_STAGGER_THRESHOLD {
        "one-shot stagger"
    } else {
        "two-shot stagger"
    };
    let mut s = String::new();
    push_decimal(&mut s, threshold as u64);
    s.append(" (");
    s.append(description);
    s.append(")");
    proof {
        assert(s@ =~= stagger_text((roll8_spec(seed) % 16 + base) as nat));
    }
    s
}

pub fn zombie_stagger(seed: u16) -> (s: String)
    ensures
        s@ == outcome_text(Outcome::ZombieStagger, seed),
{
    zombie_stagger_threshold(seed, 0x10)
}

pub fn zombie_stagger_hard(seed: u16) -> (s: String)
    ensures
        s@ == outcome_text(Outcome::ZombieStaggerHard, seed),
{
    zombie_stagger_threshold(seed, 0x20)
}

pub fn zombie_stagger_reroll(seed: u16) -> (s: String)
    ensures
        s@ == outcome_text(Outcome::ZombieStaggerReroll, seed),
{
    bool_text(roll_double(seed, 0xff) % 3 == 0)
}

pub fn bit_one(seed: u16) -> (s: String)
    ensures
        s@ == outcome_text(Outcome::BitOne, seed),
{
    bool_text(roll(seed) % 2 == 1)
}

pub fn not_bit_one(seed: u16) -> (s: String)
    ensures
        s@ == outcome_text(Outcome::NotBitOne, seed),
{
    bool_text(roll(seed) % 2 == 0)
}

pub fn bit_two(seed: u16) -> (s: String)
    ensures
        s@ == outcome_text(Outcome::BitTwo, seed),
{
    bool_text((roll(seed) / 2) % 2 == 1)
}

pub fn and_three_zero(seed: u16) -> (s: String)
    ensures
        s@ == outcome_text(Outcome::AndThreeZero, seed),
{
    bool_text(roll(seed) % 4 == 0)
}

pub fn and_three_not_zero(seed: u16) -> (s: String)
    ensures
        s@ == outcome_text(Outcome::AndThreeNotZero, seed),
{
    bool_text(roll(seed) % 4 != 0)
}

pub fn and_two_zero(seed: u16) -> (s: String)
    ensures
        s@ == outcome_text(Outcome::AndTwoZero, seed),
{
    bool_text((roll(seed) / 2) % 2 == 0)
}

pub fn zombie_appearance(seed: u16) -> (s: String)
    ensures
        s@ == outcome_text(Outcome::ZombieAppearance, seed),
{
    let (first, second, third) = roll_three(seed);
    let k: usize = (first % 4) as usize;
    let sec: usize = second as usize;
    assert(sec < 256 && k < 4 ==> sec << k < 2048) by (bit_vector);
    let value: usize = (third as usize + (sec << k)) % 3 + 1;
    decimal_text(value as u64)
}

pub fn zombie_appearance2(seed: u16) -> (s: String)
    ensures
        s@ == outcome_text(Outcome::ZombieAppearance2, seed),
{
    decimal_text((roll8(seed) % 3 + 1) as u64)
}

/// A health value from `values` with its index.
pub fn health(index: usize, values: &[i16]) -> (s: String)
    requires
        index < values@.len(),
    ensures
        s@ == health_text(values@, index as nat),
{
    let mut s = String::new();
    push_signed_decimal(&mut s, values[index] as i32);
    s.append(" (index ");
    push_decimal(&mut s, index as u64);
    s.append(")");
    proof {
        assert(s@ =~= health_text(values@, index as nat));
    }
    s
}

/// A double roll masked with 15 is an index into a table of 16.
proof fn lemma_roll_double_index(seed: u16)
    ensures
        roll_double_spec(seed, 0xf) < 16,
{
    let r = roll8_spec(seed);
    let sh = (seed % 4) as u8;
    assert((r >> sh) & 0xf < 16) by (bit_vector);
}

/// Zombie health follows the double roll for every seed: the outcome names the value of the
/// first zombie health table at the double-roll index, then the index; the alternate outcome
/// names the second table's value at the same index, and the second kind of zombie health the
/// first table's value at the next roll's low four bits.
pub proof fn lemma_zombie_health_tables(seed: u16)
    ensures
        ({
            let i = roll_double_spec(seed, 0xf) as int;
            &&& 0 <= i < 16
            &&& outcome_text(Outcome::ZombieHealth, seed) == signed_decimal(ZOMBIE_HEALTHS1@[i] as int)
                + " (index "@ + decimal(i as nat) + ")"@
            &&& outcome_text(Outcome::ZombieHealthAlt, seed) == signed_decimal(ZOMBIE_HEALTHS2@[i] as int)
                + " (index "@ + decimal(i as nat) + ")"@
        }),
        ({
            let k = (roll8_spec(seed) % 16) as int;
            outcome_text(Outcome::ZombieHealth2, seed) == signed_decimal(ZOMBIE_HEALTHS1@[k] as int)
                + " (index "@ + decimal(k as nat) + ")"@
        }),
{
    lemma_roll_double_index(seed);
}

pub fn zombie_health(seed: u16) -> (s: String)
    ensures
        s@ == outcome_text(Outcome::ZombieHealth, seed),
{
    health(roll_double(seed, 0xf) as usize, &ZOMBIE_HEALTHS1)
}

pub fn zombie_health_alt(seed: u16) -> (s: String)
    ensures
        s@ == outcome_text(Outcome::ZombieHealthAlt, seed),
{
    health(roll_double(seed, 0xf) as usize, &ZOMBIE_HEALTHS2)
}

pub fn zombie_health2(seed: u16) -> (s: String)
    ensures
        s@ == outcome_text(Outcome::ZombieHealth2, seed),
{
    health((roll8(seed) % 16) as usize, &ZOMBIE_HEALTHS1)
}

pub fn dog_health(seed: u16) -> (s: String)
    ensures
        s@ == outcome_text(Outcome::DogHealth, seed),
{
    health((roll8(seed) % 16) as usize, &DOG_HEALTHS1)
}

pub fn dog_health2(seed: u16) -> (s: String)
    ensures
        s@ == outcome_text(Outcome::DogHealth2, seed),
{
    health((roll8(seed) % 16) as usize, &DOG_HEALTHS2)
}

pub fn zombie_animation_offset(seed: u16) -> (s: String)
    ensures
        s@ == outcome_text(Outcome::ZombieAnimationOffset, seed),
{
    decimal_text((roll8(seed) % 32) as u64)
}

pub fn zombie_animation_offset16(seed: u16) -> (s: String)
    ensures
        s@ == outcome_text(Outcome::ZombieAnimationOffset16, seed),
{
    decimal_text((roll8(seed) % 16) as u64)
}

pub fn one_in_32(seed: u16) -> (s: String)
    ensures
        s@ == outcome_text(Outcome::OneIn32, seed),
{
    bool_text(roll8(seed) % 32 == 0)
}

pub fn zombie_arm_raise_timer(seed: u16) -> (s: String)
    ensures
        s@ == outcome_text(Outcome::ZombieArmRaiseTimer, seed),
{
    decimal_text((roll8(seed) / 8) as u64 + 100)
}

pub fn zombie_moan_choice(seed: u16) -> (s: String)
    ensures
        s@ == outcome_text(Outcome::ZombieMoanChoice, seed),
{
    string_of(if roll8(seed) % 2 == 0 { "short" } else { "long" })
}

pub fn zombie_eating_animation(seed: u16) -> (s: String)
    ensures
        s@ == outcome_text(Outcome::ZombieEatingAnimation, seed),
{
    let index = (roll8(seed) % 8) as usize;
    let mut s = String::new();
    push_decimal(&mut s, ZOMBIE_EAT_ANIMATIONS[index] as u64);
    s.append(" (index ");
    push_decimal(&mut s, index as u64);
    s.append(")");
    proof {
        assert(s@ =~= outcome_text(Outcome::ZombieEatingAnimation, seed));
    }
    s
}

pub fn ivy_health1(seed: u16) -> (s: String)
    ensures
        s@ == outcome_text(Outcome::IvyHealth1, seed),
{
    health((roll8(seed) % 16) as usize, &IVY_HEALTHS1)
}

pub fn ivy_health2(seed: u16) -> (s: String)
    ensures
        s@ == outcome_text(Outcome::IvyHealth2, seed),
{
    health((roll8(seed) % 16) as usize, &IVY_HEALTHS2)
}

pub fn health_bonus(seed: u16) -> (s: String)
    ensures
        s@ == outcome_text(Outcome::HealthBonus, seed),
{
    decimal_text((roll8(seed) % 4) as u64)
}

pub fn ivy_tentacle_set(seed: u16) -> (s: String)
    ensures
        s@ == outcome_text(Outcome::IvyTentacleSet, seed),
{
    let index = (roll8(seed) % 4) as usize;
    let set = IVY_TENTACLE_SETS[index];
    let mut s = String::new();
    s.append("[");
    push_decimal(&mut s, set[0] as u64);
    s.append(", ");
    push_decimal(&mut s, set[1] as u64);
    s.append(", ");
    push_decimal(&mut s, set[2] as u64);
    s.append(", ");
    push_decimal(&mut s, set[3] as u64);
    s.append("] (index ");
    push_decimal(&mut s, index as u64);
    s.append(")");
    proof {
        reveal_strlit("] (index ");
        reveal_strlit("]");
        reveal_strlit(" (index ");
        assert("] (index "@ =~= "]"@ + " (index "@);
        assert(s@ =~= outcome_text(Outcome::IvyTentacleSet, seed));
    }
    s
}

pub fn ivy_ambush(seed: u16) -> (s: String)
    ensures
        s@ == outcome_text(Outcome::IvyAmbush, seed),
{
    decimal_text((roll8(seed) % 4) as u64)
}

pub fn tentacle_animation_offset(seed: u16) -> (s: String)
    ensures
        s@ == outcome_text(Outcome::TentacleAnimationOffset, seed),
{
    decimal_text((roll8(seed) % 16) as u64)
}

pub fn tentacle_attach_angle(seed: u16) -> (s: String)
    ensures
        s@ == outcome_text(Outcome::TentacleAttachAngle, seed),
{
    decimal_text((roll8(seed) as u16 * 2) as u64)
}

pub fn dog_animation_offset1(seed: u16) -> (s: String)
    ensures
        s@ == outcome_text(Outcome::DogAnimationOffset1, seed),
{
    decimal_text((roll8(seed) % 64) as u64)
}

pub fn dog_animation_offset2(seed: u16) -> (s: String)
    ensures
        s@ == outcome_text(Outcome::DogAnimationOffset2, seed),
{
    decimal_text((roll8(seed) % 16) as u64)
}

pub fn dog_animation_offset3(seed: u16) -> (s: String)
    ensures
        s@ == outcome_text(Outcome::DogAnimationOffset3, seed),
{
    decimal_text((roll8(seed) % 32) as u64)
}

pub fn spider_health1(seed: u16) -> (s: String)
    ensures
        s@ == outcome_text(Outcome::SpiderHealth1, seed),
{
    health((roll8(seed) % 16) as usize, &SPIDER_HEALTHS1)
}

pub fn spider_health2(seed: u16) -> (s: String)
    ensures
        s@ == outcome_text(Outcome::SpiderHealth2, seed),
{
    health((roll8(seed) % 16) as usize, &SPIDER_HEALTHS2)
}

/// Poisoned when the low five bits of the roll select a set bit of the mask 0x340, that is,
/// when they are 6, 8 or 9: 3 chances in 32 (9.375%).
pub fn spider_poison_3_in_32(seed: u16) -> (s: String)
    ensures
        s@ == outcome_text(Outcome::SpiderPoison3In32, seed),
{
    let k: u32 = (roll8(seed) % 32) as u32;
    assert(k < 32 ==> (((1u32 << k) & 0x340u32) != 0 <==> (k == 6 || k == 8 || k == 9))) by (bit_vector);
    bool_text(((1u32 << k) & 0x340) != 0)
}

pub fn zombie_knockdown93(seed: u16) -> (s: String)
    ensures
        s@ == outcome_text(Outcome::ZombieKnockdown93, seed),
{
    bool_text(roll_double(seed, 0xf) != 2)
}

pub fn zombie_knockdown_speed(seed: u16) -> (s: String)
    ensures
        s@ == outcome_text(Outcome::ZombieKnockdownSpeed, seed),
{
    decimal_text((roll8(seed) % 4) as u64)
}

pub fn zombie_knockdown87(seed: u16) -> (s: String)
    ensures
        s@ == outcome_text(Outcome::ZombieKnockdown87, seed),
{
    bool_text(roll_double(seed, 7) != 0)
}

pub fn zombie_speed(seed: u16) -> (s: String)
    ensures
        s@ == outcome_text(Outcome::ZombieSpeed, seed),
{
    let index = roll_double(seed, 7) as usize;
    string_of(if ZOMBIE_SPEED_INDEXES[index] == 0 { "fast" } else { "slow" })
}

pub fn zombie_speed2(seed: u16) -> (s: String)
    ensures
        s@ == outcome_text(Outcome::ZombieSpeed2, seed),
{
    let index = (roll8(seed) % 8) as usize;
    string_of(if ZOMBIE_SPEED_INDEXES2[index] == 0 { "fast" } else { "slow" })
}

pub fn zombie_blood_spray(seed: u16) -> (s: String)
    ensures
        s@ == outcome_text(Outcome::ZombieBloodSpray, seed),
{
    decimal_text((roll8(seed) as u16 * 16) as u64)
}

pub fn licker_health(seed: u16) -> (s: String)
    ensures
        s@ == outcome_text(Outcome::LickerHealth, seed),
{
    let mut s = String::new();
    s.append("index ");
    push_decimal(&mut s, ((roll8(seed) % 16) * 2) as u64);
    s
}

pub fn licker_jump37(seed: u16) -> (s: String)
    ensures
        s@ == outcome_text(Outcome::LickerJump37, seed),
{
    bool_text(roll8(seed) % 8 < 3)
}

pub fn licker_jump25(seed: u16) -> (s: String)
    ensures
        s@ == outcome_text(Outcome::LickerJump25, seed),
{
    bool_text(roll8(seed) % 8 < 2)
}

pub fn licker_jump62(seed: u16) -> (s: String)
    ensures
        s@ == outcome_text(Outcome::LickerJump62, seed),
{
    bool_text(roll8(seed) % 8 < 5)
}

pub fn licker_jump_or_lick(seed: u16) -> (s: String)
    ensures
        s@ == outcome_text(Outcome::LickerJumpOrLick, seed),
{
    string_of(if roll8(seed) % 8 < 6 { "jump" } else { "lick" })
}

pub fn handgun_crit(seed: u16) -> (s: String)
    ensures
        s@ == outcome_text(Outcome::HandgunCrit, seed),
{
    bool_text(roll_double(seed, 0xf) == 0)
}

/// The roll plus 10 is taken in 8-bit arithmetic, as the game does.
pub fn spider_max_turn_time(seed: u16) -> (s: String)
    ensures
        s@ == outcome_text(Outcome::SpiderMaxTurnTime, seed),
{
    decimal_text((roll8(seed).wrapping_add(10) % 64) as u64)
}

pub fn spider_turn_direction(seed: u16) -> (s: String)
    ensures
        s@ == outcome_text(Outcome::SpiderTurnDirection, seed),
{
    string_of(if roll8(seed) % 2 == 0 { "clockwise" } else { "counterclockwise" })
}

pub fn spider_max_face_time(seed: u16) -> (s: String)
    ensures
        s@ == outcome_text(Outcome::SpiderMaxFaceTime, seed),
{
    decimal_text((roll8(seed) % 32 + 0x3c) as u64)
}

pub fn spider_max_pursue_time(seed: u16) -> (s: String)
    ensures
        s@ == outcome_text(Outcome::SpiderMaxPursueTime, seed),
{
    decimal_text((roll8(seed) & 0x2e) as u64)
}

pub fn spider_max_leg_turn_time(seed: u16) -> (s: String)
    ensures
        s@ == outcome_text(Outcome::SpiderMaxLegTurnTime, seed),
{
    decimal_text((roll8(seed) % 32 + 0x14) as u64)
}

pub fn spider_max_leg_attack_time(seed: u16) -> (s: String)
    ensures
        s@ == outcome_text(Outcome::SpiderMaxLegAttackTime, seed),
{
    decimal_text((roll8(seed) % 32 + 10) as u64)
}

pub fn spider_max_idle_time(seed: u16) -> (s: String)
    ensures
        s@ == outcome_text(Outcome::SpiderMaxIdleTime, seed),
{
    decimal_text((roll8(seed).wrapping_add(10) % 32) as u64)
}

pub fn spider_pursue50(seed: u16) -> (s: String)
    ensures
        s@ == outcome_text(Outcome::SpiderPursue50, seed),
{
    bool_text(roll8(seed) % 2 == 0)
}


/// How a kind of roll is described: a fixed text, and optionally which outcome to read from
/// the recorded seed.
#[derive(Debug, Clone, Copy)]
pub struct RollDescription {
    pub description: &'static str,
    pub result_formatter: Option<Outcome>,
}

/// The text of a description: the subject (if any) and the description, then the outcome (if
/// the description reads one) after a colon.
pub open spec fn describe_spec(d: RollDescription, seed: u16, subject: Option<Seq<char>>) -> Seq<char> {
    let base = match subject {
        Some(sub) => sub + " "@ + d.description@,
        None => d.description@,
    };
    match d.result_formatter {
        Some(kind) => base + ": "@ + outcome_text(kind, seed),
        None => base,
    }
}

impl RollDescription {
    /// A description with no outcome.
    pub fn simple(description_template: &'static str) -> (r: Self)
        ensures
            r.description == description_template,
            r.result_formatter is None,
    {
        RollDescription { description: description_template, result_formatter: None }
    }

    /// A description whose outcome is read as `result_formatter` says.
    pub fn new(description_template: &'static str, result_formatter: Outcome) -> (r: Self)
        ensures
            r.description == description_template,
            r.result_formatter == Some(result_formatter),
    {
        RollDescription { description: description_template, result_formatter: Some(result_formatter) }
    }

    /// The outcome text of a roll made from `seed`, for a description that reads one.
    pub fn outcome(&self, seed: u16) -> (r: Option<String>)
        ensures
            match self.result_formatter {
                Some(kind) => r matches Some(s) && s@ == outcome_text(kind, seed),
                None => r is None,
            },
    {
        match self.result_formatter {
            Some(kind) => Some(format_outcome(kind, seed)),
            None => None,
        }
    }

    /// Describes a roll made from `seed`, optionally naming who rolled it.
    pub fn describe(&self, seed: u16, subject: Option<&str>) -> (s: String)
        ensures
            s@ == describe_spec(*self, seed, match subject {
                Some(x) => Some(x@),
                None => None,
            }),
    {
        let mut description = match subject {
            Some(sub) => {
                let mut d = String::from_str(sub);
                d.append(" ");
                d.append(self.description);
                d
            },
            None => String::from_str(self.description),
        };
        match self.result_formatter {
            Some(kind) => {
                let outcome = format_outcome(kind, seed);
                description.append(": ");
                description.append(outcome.as_str());
            },
            None => {},
        }
        description
    }
}

/// Formats the outcome of a roll of the given kind from its recorded seed.
pub fn format_outcome(kind: Outcome, seed: u16) -> (s: String)
    ensures
        s@ == outcome_text(kind, seed),
{
    match kind {
        Outcome::AndThreeNotZero => and_three_not_zero(seed),
        Outcome::AndThreeZero => and_three_zero(seed),
        Outcome::AndTwoZero => and_two_zero(seed),
        Outcome::BitOne => bit_one(seed),
        Outcome::BitTwo => bit_two(seed),
        Outcome::DogAnimationOffset1 => dog_animation_offset1(seed),
        Outcome::DogAnimationOffset2 => dog_animation_offset2(seed),
        Outcome::DogAnimationOffset3 => dog_animation_offset3(seed),
        Outcome::DogHealth => dog_health(seed),
        Outcome::DogHealth2 => dog_health2(seed),
        Outcome::HandgunCrit => handgun_crit(seed),
        Outcome::HealthBonus => health_bonus(seed),
        Outcome::IvyAmbush => ivy_ambush(seed),
        Outcome::IvyHealth1 => ivy_health1(seed),
        Outcome::IvyHealth2 => ivy_health2(seed),
        Outcome::IvyTentacleSet => ivy_tentacle_set(seed),
        Outcome::LickerHealth => licker_health(seed),
        Outcome::LickerJump25 => licker_jump25(seed),
        Outcome::LickerJump37 => licker_jump37(seed),
        Outcome::LickerJump62 => licker_jump62(seed),
        Outcome::LickerJumpOrLick => licker_jump_or_lick(seed),
        Outcome::NotBitOne => not_bit_one(seed),
        Outcome::OneIn32 => one_in_32(seed),
        Outcome::SpiderHealth1 => spider_health1(seed),
        Outcome::SpiderHealth2 => spider_health2(seed),
        Outcome::SpiderMaxFaceTime => spider_max_face_time(seed),
        Outcome::SpiderMaxIdleTime => spider_max_idle_time(seed),
        Outcome::SpiderMaxLegAttackTime => spider_max_leg_attack_time(seed),
        Outcome::SpiderMaxLegTurnTime => spider_max_leg_turn_time(seed),
        Outcome::SpiderMaxPursueTime => spider_max_pursue_time(seed),
        Outcome::SpiderMaxTurnTime => spider_max_turn_time(seed),
        Outcome::SpiderPoison3In32 => spider_poison_3_in_32(seed),
        Outcome::SpiderPursue50 => spider_pursue50(seed),
        Outcome::SpiderTurnDirection => spider_turn_direction(seed),
        Outcome::TentacleAnimationOffset => tentacle_animation_offset(seed),
        Outcome::TentacleAttachAngle => tentacle_attach_angle(seed),
        Outcome::ZombieAnimationOffset => zombie_animation_offset(seed),
        Outcome::ZombieAnimationOffset16 => zombie_animation_offset16(seed),
        Outcome::ZombieAppearance => zombie_appearance(seed),
        Outcome::ZombieAppearance2 => zombie_appearance2(seed),
        Outcome::ZombieArmRaiseTimer => zombie_arm_raise_timer(seed),
        Outcome::ZombieBloodSpray => zombie_blood_spray(seed),
        Outcome::ZombieEatingAnimation => zombie_eating_animation(seed),
        Outcome::ZombieHealth => zombie_health(seed),
        Outcome::ZombieHealth2 => zombie_health2(seed),
        Outcome::ZombieHealthAlt => zombie_health_alt(seed),
        Outcome::ZombieKnockdown87 => zombie_knockdown87(seed),
        Outcome::ZombieKnockdown93 => zombie_knockdown93(seed),
        Outcome::ZombieKnockdownSpeed => zombie_knockdown_speed(seed),
        Outcome::ZombieMoanChoice => zombie_moan_choice(seed),
        Outcome::ZombieSpeed => zombie_speed(seed),
        Outcome::ZombieSpeed2 => zombie_speed2(seed),
        Outcome::ZombieStagger => zombie_stagger(seed),
        Outcome::ZombieStaggerHard => zombie_stagger_hard(seed),
        Outcome::ZombieStaggerReroll => zombie_stagger_reroll(seed),
    }
}

/// The description of each kind of roll.
pub open spec fn roll_description_spec(roll_type: RollType) -> RollDescription {
    match roll_type {
        RollType::Script => RollDescription { description: "Script rolled RNG", result_formatter: None },
        RollType::ZombieStaggerThreshold => RollDescription { description: "rolled for stagger threshold (16-31)", result_formatter: Some(Outcome::ZombieStagger) },
        RollType::ZombieHealth => RollDescription { description: "rolled for health", result_formatter: Some(Outcome::ZombieHealth) },
        RollType::ZombieStaggerThresholdReroll => RollDescription { description: "rolled to re-roll stagger threshold (33%)", result_formatter: Some(Outcome::ZombieStaggerReroll) },
        RollType::ZombieAppearance => RollDescription { description: "rolled for random appearance", result_formatter: Some(Outcome::ZombieAppearance) },
        RollType::AltZombieAppearance => RollDescription { description: "rolled for random appearance (50%)", result_formatter: Some(Outcome::BitOne) },
        RollType::ZombieLunge50 => RollDescription { description: "rolled to lunge (50%)", result_formatter: Some(Outcome::NotBitOne) },
        RollType::ZombieStaggerThresholdHard => RollDescription { description: "rolled for stagger threshold (32-47)", result_formatter: Some(Outcome::ZombieStaggerHard) },
        RollType::ZombieLunge25 => RollDescription { description: "rolled to lunge (25%)", result_formatter: Some(Outcome::AndThreeZero) },
        RollType::ZombieLunge50NotZero => RollDescription { description: "rolled to lunge (50%)", result_formatter: Some(Outcome::BitOne) },
        RollType::DestinationBlock => RollDescription { description: "rolled for destination block", result_formatter: None },
        RollType::ZombieRaiseArms => RollDescription { description: "rolled to raise arms (25% + player must be within 5000 units)", result_formatter: Some(Outcome::AndThreeZero) },
        RollType::ZombieKnockdown25 => RollDescription { description: "rolled to fall down (25%)", result_formatter: Some(Outcome::AndThreeZero) },
        RollType::ZombieKnockdown93 => RollDescription { description: "rolled to fall down (93.75%)", result_formatter: Some(Outcome::ZombieKnockdown93) },
        RollType::ZombieKnockdownSpeed => RollDescription { description: "rolled for knockdown speed", result_formatter: Some(Outcome::ZombieKnockdownSpeed) },
        RollType::ZombieKnockdown87 => RollDescription { description: "rolled to fall down (87.5%)", result_formatter: Some(Outcome::ZombieKnockdown87) },
        RollType::LickerHealth => RollDescription { description: "rolled for health", result_formatter: Some(Outcome::LickerHealth) },
        RollType::LickerJump37 => RollDescription { description: "rolled to jump (37.5%)", result_formatter: Some(Outcome::LickerJump37) },
        RollType::LickerJump25 => RollDescription { description: "rolled to jump (25%)", result_formatter: Some(Outcome::LickerJump25) },
        RollType::LickerLick50 => RollDescription { description: "rolled to lick (50%)", result_formatter: Some(Outcome::AndTwoZero) },
        RollType::LickerConsiderAttack => RollDescription { description: "rolled to consider attacking (75%)", result_formatter: Some(Outcome::AndThreeNotZero) },
        RollType::LickerSlash25 => RollDescription { description: "rolled to slash (25%)", result_formatter: Some(Outcome::AndThreeZero) },
        RollType::LickerJump62 => RollDescription { description: "rolled to jump (62.5%)", result_formatter: Some(Outcome::LickerJump62) },
        RollType::LickerThreatened50 => RollDescription { description: "rolled to transition to threatened (50%)", result_formatter: Some(Outcome::BitOne) },
        RollType::LickerLickOrJump50 => RollDescription { description: "rolled to attack (lick/jump) or not (50%)", result_formatter: Some(Outcome::BitTwo) },
        RollType::LickerJump75Lick25 => RollDescription { description: "rolled to jump (75%) or lick (25%)", result_formatter: Some(Outcome::LickerJumpOrLick) },
        RollType::LickerRecoil25 => RollDescription { description: "rolled to recoil (25%)", result_formatter: Some(Outcome::AndThreeZero) },
        RollType::LickerJump50LowHealth => RollDescription { description: "rolled to jump (50% + player must have <= 100 HP)", result_formatter: Some(Outcome::BitOne) },
        RollType::AltZombieAppearance2 => RollDescription { description: "rolled for random appearance (50%)", result_formatter: Some(Outcome::NotBitOne) },
        RollType::ZombieAppearance2 => RollDescription { description: "rolled for random appearance", result_formatter: Some(Outcome::ZombieAppearance2) },
        RollType::ZombieHealth2 => RollDescription { description: "rolled for health", result_formatter: Some(Outcome::ZombieHealth2) },
        RollType::LickerSlash50 => RollDescription { description: "rolled to slash (50%)", result_formatter: Some(Outcome::NotBitOne) },
        RollType::ZombieSpeed => RollDescription { description: "rolled for speed", result_formatter: Some(Outcome::ZombieSpeed) },
        RollType::ZombieHealthAlt => RollDescription { description: "rolled for health", result_formatter: Some(Outcome::ZombieHealthAlt) },
        RollType::IvyHealth1 => RollDescription { description: "rolled for health", result_formatter: Some(Outcome::IvyHealth1) },
        RollType::IvyHealth2 => RollDescription { description: "rolled for health", result_formatter: Some(Outcome::IvyHealth2) },
        RollType::HealthBonus => RollDescription { description: "rolled for health bonus", result_formatter: Some(Outcome::HealthBonus) },
        RollType::IvyTentacleSet => RollDescription { description: "rolled for tentacle set", result_formatter: Some(Outcome::IvyTentacleSet) },
        RollType::IvyAmbushTentacle => RollDescription { description: "rolled to select ambush tentacle", result_formatter: Some(Outcome::IvyAmbush) },
        RollType::TentacleAnimationOffset => RollDescription { description: "rolled for animation offset", result_formatter: Some(Outcome::TentacleAnimationOffset) },
        RollType::TentacleAttachAngle => RollDescription { description: "rolled for attachment angle", result_formatter: Some(Outcome::TentacleAttachAngle) },
        RollType::ZombieAnimationOffset => RollDescription { description: "rolled for animation offset", result_formatter: Some(Outcome::ZombieAnimationOffset) },
        RollType::ZombieShortMoan => RollDescription { description: "rolled for short moan (3.125%)", result_formatter: Some(Outcome::OneIn32) },
        RollType::ZombieLongMoan => RollDescription { description: "rolled for long moan (3.125%)", result_formatter: Some(Outcome::OneIn32) },
        RollType::ZombieArmRaiseTimer => RollDescription { description: "rolled for arm raise timer", result_formatter: Some(Outcome::ZombieArmRaiseTimer) },
        RollType::ZombieMoanChoice => RollDescription { description: "rolled for moan type (50/50)", result_formatter: Some(Outcome::ZombieMoanChoice) },
        RollType::ZombieEatingAnimation => RollDescription { description: "rolled for eating animation", result_formatter: Some(Outcome::ZombieEatingAnimation) },
        RollType::ZombieTryMoan => RollDescription { description: "rolled to try moan (50%)", result_formatter: Some(Outcome::NotBitOne) },
        RollType::ZombieLongMoan50 => RollDescription { description: "rolled for long moan (50%)", result_formatter: Some(Outcome::BitOne) },
        RollType::ZombieShortMoan50 => RollDescription { description: "rolled for short moan (50%)", result_formatter: Some(Outcome::BitOne) },
        RollType::ZombieEatBloodSpray => RollDescription { description: "rolled for blood spray", result_formatter: Some(Outcome::ZombieBloodSpray) },
        RollType::LickerDrool => RollDescription { description: "rolled to drool (3.125%)", result_formatter: Some(Outcome::OneIn32) },
        RollType::SpiderHealth1 => RollDescription { description: "rolled for health", result_formatter: Some(Outcome::SpiderHealth1) },
        RollType::SpiderHealth2 => RollDescription { description: "rolled for health", result_formatter: Some(Outcome::SpiderHealth2) },
        RollType::SpiderPoison3In32 => RollDescription { description: "rolled to poison (9.375%)", result_formatter: Some(Outcome::SpiderPoison3In32) },
        RollType::ZombieAnimationOffset16 => RollDescription { description: "rolled for animation offset", result_formatter: Some(Outcome::ZombieAnimationOffset16) },
        RollType::ZombieSpeed2 => RollDescription { description: "rolled for speed", result_formatter: Some(Outcome::ZombieSpeed2) },
        RollType::HandgunCrit => RollDescription { description: "Handgun rolled to crit (6.25%)", result_formatter: Some(Outcome::HandgunCrit) },
        RollType::DogHealth1 => RollDescription { description: "rolled for health", result_formatter: Some(Outcome::DogHealth) },
        RollType::DogHealth2 => RollDescription { description: "rolled for health", result_formatter: Some(Outcome::DogHealth2) },
        RollType::DogAnimationOffset1 => RollDescription { description: "rolled for animation offset", result_formatter: Some(Outcome::DogAnimationOffset1) },
        RollType::DogAnimationOffset2 => RollDescription { description: "rolled for animation offset", result_formatter: Some(Outcome::DogAnimationOffset2) },
        RollType::DogAnimationOffset3 => RollDescription { description: "rolled for animation offset", result_formatter: Some(Outcome::DogAnimationOffset3) },
        RollType::SpiderTurnTime => RollDescription { description: "rolled for max turn time", result_formatter: Some(Outcome::SpiderMaxTurnTime) },
        RollType::SpiderTurnDirection => RollDescription { description: "rolled for turn direction", result_formatter: Some(Outcome::SpiderTurnDirection) },
        RollType::SpiderMaxFaceTime => RollDescription { description: "rolled for max facing time", result_formatter: Some(Outcome::SpiderMaxFaceTime) },
        RollType::SpiderMaxPursueTime => RollDescription { description: "rolled for max pursuit time", result_formatter: Some(Outcome::SpiderMaxPursueTime) },
        RollType::SpiderMaxLegTurnTime => RollDescription { description: "rolled for max leg attack turn time", result_formatter: Some(Outcome::SpiderMaxLegTurnTime) },
        RollType::SpiderMaxLegAttackTime => RollDescription { description: "rolled for max leg attack time", result_formatter: Some(Outcome::SpiderMaxLegAttackTime) },
        RollType::SpiderMaxIdleTime => RollDescription { description: "rolled for max idle time", result_formatter: Some(Outcome::SpiderMaxIdleTime) },
        RollType::SpiderPursue50 => RollDescription { description: "rolled to pursue (50%)", result_formatter: Some(Outcome::SpiderPursue50) },
        RollType::G2Position => RollDescription { description: "rolled for position", result_formatter: None },
        RollType::G2Angle => RollDescription { description: "rolled for angle", result_formatter: None },
        RollType::G2RepositionTime => RollDescription { description: "rolled for reposition time", result_formatter: None },
        RollType::G2Swipe50 => RollDescription { description: "rolled to swipe (50%)", result_formatter: None },
        RollType::G2Slash75 => RollDescription { description: "rolled to slash (75%)", result_formatter: None },
        RollType::G2Thrust25 => RollDescription { description: "rolled to thrust (25%)", result_formatter: None },
        RollType::Partial => RollDescription { description: "Partial roll in a larger series", result_formatter: None },
        RollType::Invalid => RollDescription { description: "Invalid roll", result_formatter: None },
    }
}

/// The description of each kind of roll.
pub fn roll_description(roll_type: RollType) -> (r: RollDescription)
    ensures
        r == roll_description_spec(roll_type),
{
    match roll_type {
        RollType::Script => RollDescription { description: "Script rolled RNG", result_formatter: None },
        RollType::ZombieStaggerThreshold => RollDescription { description: "rolled for stagger threshold (16-31)", result_formatter: Some(Outcome::ZombieStagger) },
        RollType::ZombieHealth => RollDescription { description: "rolled for health", result_formatter: Some(Outcome::ZombieHealth) },
        RollType::ZombieStaggerThresholdReroll => RollDescription { description: "rolled to re-roll stagger threshold (33%)", result_formatter: Some(Outcome::ZombieStaggerReroll) },
        RollType::ZombieAppearance => RollDescription { description: "rolled for random appearance", result_formatter: Some(Outcome::ZombieAppearance) },
        RollType::AltZombieAppearance => RollDescription { description: "rolled for random appearance (50%)", result_formatter: Some(Outcome::BitOne) },
        RollType::ZombieLunge50 => RollDescription { description: "rolled to lunge (50%)", result_formatter: Some(Outcome::NotBitOne) },
        RollType::ZombieStaggerThresholdHard => RollDescription { description: "rolled for stagger threshold (32-47)", result_formatter: Some(Outcome::ZombieStaggerHard) },
        RollType::ZombieLunge25 => RollDescription { description: "rolled to lunge (25%)", result_formatter: Some(Outcome::AndThreeZero) },
        RollType::ZombieLunge50NotZero => RollDescription { description: "rolled to lunge (50%)", result_formatter: Some(Outcome::BitOne) },
        RollType::DestinationBlock => RollDescription { description: "rolled for destination block", result_formatter: None },
        RollType::ZombieRaiseArms => RollDescription { description: "rolled to raise arms (25% + player must be within 5000 units)", result_formatter: Some(Outcome::AndThreeZero) },
        RollType::ZombieKnockdown25 => RollDescription { description: "rolled to fall down (25%)", result_formatter: Some(Outcome::AndThreeZero) },
        RollType::ZombieKnockdown93 => RollDescription { description: "rolled to fall down (93.75%)", result_formatter: Some(Outcome::ZombieKnockdown93) },
        RollType::ZombieKnockdownSpeed => RollDescription { description: "rolled for knockdown speed", result_formatter: Some(Outcome::ZombieKnockdownSpeed) },
        RollType::ZombieKnockdown87 => RollDescription { description: "rolled to fall down (87.5%)", result_formatter: Some(Outcome::ZombieKnockdown87) },
        RollType::LickerHealth => RollDescription { description: "rolled for health", result_formatter: Some(Outcome::LickerHealth) },
        RollType::LickerJump37 => RollDescription { description: "rolled to jump (37.5%)", result_formatter: Some(Outcome::LickerJump37) },
        RollType::LickerJump25 => RollDescription { description: "rolled to jump (25%)", result_formatter: Some(Outcome::LickerJump25) },
        RollType::LickerLick50 => RollDescription { description: "rolled to lick (50%)", result_formatter: Some(Outcome::AndTwoZero) },
        RollType::LickerConsiderAttack => RollDescription { description: "rolled to consider attacking (75%)", result_formatter: Some(Outcome::AndThreeNotZero) },
        RollType::LickerSlash25 => RollDescription { description: "rolled to slash (25%)", result_formatter: Some(Outcome::AndThreeZero) },
        RollType::LickerJump62 => RollDescription { description: "rolled to jump (62.5%)", result_formatter: Some(Outcome::LickerJump62) },
        RollType::LickerThreatened50 => RollDescription { description: "rolled to transition to threatened (50%)", result_formatter: Some(Outcome::BitOne) },
        RollType::LickerLickOrJump50 => RollDescription { description: "rolled to attack (lick/jump) or not (50%)", result_formatter: Some(Outcome::BitTwo) },
        RollType::LickerJump75Lick25 => RollDescription { description: "rolled to jump (75%) or lick (25%)", result_formatter: Some(Outcome::LickerJumpOrLick) },
        RollType::LickerRecoil25 => RollDescription { description: "rolled to recoil (25%)", result_formatter: Some(Outcome::AndThreeZero) },
        RollType::LickerJump50LowHealth => RollDescription { description: "rolled to jump (50% + player must have <= 100 HP)", result_formatter: Some(Outcome::BitOne) },
        RollType::AltZombieAppearance2 => RollDescription { description: "rolled for random appearance (50%)", result_formatter: Some(Outcome::NotBitOne) },
        RollType::ZombieAppearance2 => RollDescription { description: "rolled for random appearance", result_formatter: Some(Outcome::ZombieAppearance2) },
        RollType::ZombieHealth2 => RollDescription { description: "rolled for health", result_formatter: Some(Outcome::ZombieHealth2) },
        RollType::LickerSlash50 => RollDescription { description: "rolled to slash (50%)", result_formatter: Some(Outcome::NotBitOne) },
        RollType::ZombieSpeed => RollDescription { description: "rolled for speed", result_formatter: Some(Outcome::ZombieSpeed) },
        RollType::ZombieHealthAlt => RollDescription { description: "rolled for health", result_formatter: Some(Outcome::ZombieHealthAlt) },
        RollType::IvyHealth1 => RollDescription { description: "rolled for health", result_formatter: Some(Outcome::IvyHealth1) },
        RollType::IvyHealth2 => RollDescription { description: "rolled for health", result_formatter: Some(Outcome::IvyHealth2) },
        RollType::HealthBonus => RollDescription { description: "rolled for health bonus", result_formatter: Some(Outcome::HealthBonus) },
        RollType::IvyTentacleSet => RollDescription { description: "rolled for tentacle set", result_formatter: Some(Outcome::IvyTentacleSet) },
        RollType::IvyAmbushTentacle => RollDescription { description: "rolled to select ambush tentacle", result_formatter: Some(Outcome::IvyAmbush) },
        RollType::TentacleAnimationOffset => RollDescription { description: "rolled for animation offset", result_formatter: Some(Outcome::TentacleAnimationOffset) },
        RollType::TentacleAttachAngle => RollDescription { description: "rolled for attachment angle", result_formatter: Some(Outcome::TentacleAttachAngle) },
        RollType::ZombieAnimationOffset => RollDescription { description: "rolled for animation offset", result_formatter: Some(Outcome::ZombieAnimationOffset) },
        RollType::ZombieShortMoan => RollDescription { description: "rolled for short moan (3.125%)", result_formatter: Some(Outcome::OneIn32) },
        RollType::ZombieLongMoan => RollDescription { description: "rolled for long moan (3.125%)", result_formatter: Some(Outcome::OneIn32) },
        RollType::ZombieArmRaiseTimer => RollDescription { description: "rolled for arm raise timer", result_formatter: Some(Outcome::ZombieArmRaiseTimer) },
        RollType::ZombieMoanChoice => RollDescription { description: "rolled for moan type (50/50)", result_formatter: Some(Outcome::ZombieMoanChoice) },
        RollType::ZombieEatingAnimation => RollDescription { description: "rolled for eating animation", result_formatter: Some(Outcome::ZombieEatingAnimation) },
        RollType::ZombieTryMoan => RollDescription { description: "rolled to try moan (50%)", result_formatter: Some(Outcome::NotBitOne) },
        RollType::ZombieLongMoan50 => RollDescription { description: "rolled for long moan (50%)", result_formatter: Some(Outcome::BitOne) },
        RollType::ZombieShortMoan50 => RollDescription { description: "rolled for short moan (50%)", result_formatter: Some(Outcome::BitOne) },
        RollType::ZombieEatBloodSpray => RollDescription { description: "rolled for blood spray", result_formatter: Some(Outcome::ZombieBloodSpray) },
        RollType::LickerDrool => RollDescription { description: "rolled to drool (3.125%)", result_formatter: Some(Outcome::OneIn32) },
        RollType::SpiderHealth1 => RollDescription { description: "rolled for health", result_formatter: Some(Outcome::SpiderHealth1) },
        RollType::SpiderHealth2 => RollDescription { description: "rolled for health", result_formatter: Some(Outcome::SpiderHealth2) },
        RollType::SpiderPoison3In32 => RollDescription { description: "rolled to poison (9.375%)", result_formatter: Some(Outcome::SpiderPoison3In32) },
        RollType::ZombieAnimationOffset16 => RollDescription { description: "rolled for animation offset", result_formatter: Some(Outcome::ZombieAnimationOffset16) },
        RollType::ZombieSpeed2 => RollDescription { description: "rolled for speed", result_formatter: Some(Outcome::ZombieSpeed2) },
        RollType::HandgunCrit => RollDescription { description: "Handgun rolled to crit (6.25%)", result_formatter: Some(Outcome::HandgunCrit) },
        RollType::DogHealth1 => RollDescription { description: "rolled for health", result_formatter: Some(Outcome::DogHealth) },
        RollType::DogHealth2 => RollDescription { description: "rolled for health", result_formatter: Some(Outcome::DogHealth2) },
        RollType::DogAnimationOffset1 => RollDescription { description: "rolled for animation offset", result_formatter: Some(Outcome::DogAnimationOffset1) },
        RollType::DogAnimationOffset2 => RollDescription { description: "rolled for animation offset", result_formatter: Some(Outcome::DogAnimationOffset2) },
        RollType::DogAnimationOffset3 => RollDescription { description: "rolled for animation offset", result_formatter: Some(Outcome::DogAnimationOffset3) },
        RollType::SpiderTurnTime => RollDescription { description: "rolled for max turn time", result_formatter: Some(Outcome::SpiderMaxTurnTime) },
        RollType::SpiderTurnDirection => RollDescription { description: "rolled for turn direction", result_formatter: Some(Outcome::SpiderTurnDirection) },
        RollType::SpiderMaxFaceTime => RollDescription { description: "rolled for max facing time", result_formatter: Some(Outcome::SpiderMaxFaceTime) },
        RollType::SpiderMaxPursueTime => RollDescription { description: "rolled for max pursuit time", result_formatter: Some(Outcome::SpiderMaxPursueTime) },
        RollType::SpiderMaxLegTurnTime => RollDescription { description: "rolled for max leg attack turn time", result_formatter: Some(Outcome::SpiderMaxLegTurnTime) },
        RollType::SpiderMaxLegAttackTime => RollDescription { description: "rolled for max leg attack time", result_formatter: Some(Outcome::SpiderMaxLegAttackTime) },
        RollType::SpiderMaxIdleTime => RollDescription { description: "rolled for max idle time", result_formatter: Some(Outcome::SpiderMaxIdleTime) },
        RollType::SpiderPursue50 => RollDescription { description: "rolled to pursue (50%)", result_formatter: Some(Outcome::SpiderPursue50) },
        RollType::G2Position => RollDescription { description: "rolled for position", result_formatter: None },
        RollType::G2Angle => RollDescription { description: "rolled for angle", result_formatter: None },
        RollType::G2RepositionTime => RollDescription { description: "rolled for reposition time", result_formatter: None },
        RollType::G2Swipe50 => RollDescription { description: "rolled to swipe (50%)", result_formatter: None },
        RollType::G2Slash75 => RollDescription { description: "rolled to slash (75%)", result_formatter: None },
        RollType::G2Thrust25 => RollDescription { description: "rolled to thrust (25%)", result_formatter: None },
        RollType::Partial => RollDescription { description: "Partial roll in a larger series", result_formatter: None },
        RollType::Invalid => RollDescription { description: "Invalid roll", result_formatter: None },
    }
}

/// The generator's orbit from the initial seed: the seed after `n` rolls.
pub open spec fn orbit(n: nat) -> u16
    decreases n,
{
    if n == 0 {
        INITIAL_SEED
    } else {
        roll_spec(orbit((n - 1) as nat))
    }
}

/// Every seed the generator produces is a 15-bit value.
proof fn lemma_orbit_bound(n: nat)
    ensures
        orbit(n) < 0x8000,
{
    if n > 0 {
        assert(roll_spec(orbit((n - 1) as nat)) < 0x8000);
    }
}

/// No two 15-bit seeds roll the same next seed: the generator permutes the 15-bit values.
pub proof fn lemma_roll_injective(a: u16, b: u16)
    requires
        a < 0x8000,
        b < 0x8000,
        roll_spec(a) == roll_spec(b),
    ensures
        a == b,
{
    assert(a < 0x8000 && b < 0x8000 && ({
        let ha = ((2 * a) % 0x10000) / 0x100;
        let hb = ((2 * b) % 0x10000) / 0x100;
        ((ha * 0x100 + (a + ha) % 0x100) % 0x8000) == ((hb * 0x100 + (b + hb) % 0x100) % 0x8000)
    }) ==> a == b) by (bit_vector);
}

/// Equal seeds at steps `i` and `j` of the orbit mean the orbit is back at its start after
/// `j - i` steps.
proof fn lemma_orbit_shift(i: nat, j: nat)
    requires
        i <= j,
        orbit(i) == orbit(j),
    ensures
        orbit(0) == orbit((j - i) as nat),
    decreases i,
{
    if i > 0 {
        lemma_orbit_bound((i - 1) as nat);
        lemma_orbit_bound((j - 1) as nat);
        lemma_roll_injective(orbit((i - 1) as nat), orbit((j - 1) as nat));
        lemma_orbit_shift((i - 1) as nat, (j - 1) as nat);
    }
}

/// The orbit of the initial seed comes back to it within 0x8000 steps.
pub proof fn lemma_orbit_returns()
    ensures
        exists|k: nat| 0 < k <= 0x8000 && orbit(k) == INITIAL_SEED,
{
    let s = Seq::new(0x8001, |i: int| orbit(i as nat) as int);
    if s.no_duplicates() {
        s.unique_seq_to_set();
        assert forall|v: int| s.to_set().contains(v) implies vstd::set_lib::set_int_range(0, 0x8000).contains(v) by {
            let i = choose|i: int| 0 <= i < s.len() && s[i] == v;
            lemma_orbit_bound(i as nat);
        }
        vstd::set_lib::lemma_int_range(0, 0x8000);
        vstd::set_lib::lemma_len_subset(s.to_set(), vstd::set_lib::set_int_range(0, 0x8000));
        assert(false);
    } else {
        let (i, j) = choose|i: int, j: int| 0 <= i < s.len() && 0 <= j < s.len() && i != j && s[i] == s[j];
        if i < j {
            lemma_orbit_shift(i as nat, j as nat);
            assert(orbit((j - i) as nat) == INITIAL_SEED);
        } else {
            lemma_orbit_shift(j as nat, i as nat);
            assert(orbit((i - j) as nat) == INITIAL_SEED);
        }
    }
}

/// `values` lists the orbit from the initial seed, in order.
pub open spec fn is_orbit_prefix(values: Seq<u16>) -> bool {
    forall|i: int| 0 <= i < values.len() ==> #[trigger] values[i] == orbit(i as nat)
}

/// Every seed that the generator passes through from the initial seed until it first comes
/// back to it, in order (the game's RNG cycle).
pub struct RngSequence {
    values: Vec<u16>,
}

impl View for RngSequence {
    type V = Seq<u16>;

    closed spec fn view(&self) -> Seq<u16> {
        self.values@
    }
}

impl RngSequence {
    #[verifier::type_invariant]
    spec fn inv(self) -> bool {
        &&& 1 <= self.values@.len() <= 0x8000
        &&& is_orbit_prefix(self.values@)
        &&& self.values@.no_duplicates()
        &&& roll_spec(self.values@.last()) == INITIAL_SEED
    }

    /// Walks the orbit from the initial seed until it returns to it: every seed of the cycle,
    /// each once, the last one rolling the initial seed again (the walk is bounded by the
    /// 0x8000 15-bit seeds, and the orbit always closes within them).
    pub fn new() -> (r: Self)
        ensures
            1 <= r@.len() <= 0x8000,
            is_orbit_prefix(r@),
            forall|i: int| 0 < i < r@.len() ==> #[trigger] r@[i] != INITIAL_SEED,
            roll_spec(r@.last()) == INITIAL_SEED,
            r@.no_duplicates(),
    {
        let mut values: Vec<u16> = Vec::new();
        values.push(INITIAL_SEED);
        let mut value = roll(INITIAL_SEED);
        assert(orbit(1) == roll_spec(orbit(0)));
        while value != INITIAL_SEED && values.len() < 0x8000
            invariant
                1 <= values@.len() <= 0x8000,
                is_orbit_prefix(values@),
                value == orbit(values@.len() as nat),
                forall|i: int| 0 < i < values@.len() ==> #[trigger] values@[i] != INITIAL_SEED,
            decreases 0x8000 - values@.len(),
        {
            values.push(value);
            value = roll(value);
            assert(orbit(values@.len() as nat) == roll_spec(orbit((values@.len() - 1) as nat)));
        }
        proof {
            lemma_orbit_returns();
            let k = choose|k: nat| 0 < k <= 0x8000 && orbit(k) == INITIAL_SEED;
            if value != INITIAL_SEED {
                assert(values@.len() == 0x8000);
                if k < 0x8000 {
                    assert(values@[k as int] == orbit(k));
                }
                assert(k == 0x8000);
            }
            assert(values@.last() == orbit((values@.len() - 1) as nat));
            assert forall|i: int, j: int| 0 <= i < values@.len() && 0 <= j < values@.len() && i != j
                implies values@[i] != values@[j] by {
                if values@[i] == values@[j] {
                    if i < j {
                        lemma_orbit_shift(i as nat, j as nat);
                        assert(values@[j - i] == orbit((j - i) as nat));
                    } else {
                        lemma_orbit_shift(j as nat, i as nat);
                        assert(values@[i - j] == orbit((i - j) as nat));
                    }
                }
            }
        }
        RngSequence { values }
    }

    /// The number of seeds in the cycle.
    pub fn len(&self) -> (r: usize)
        ensures
            r == self@.len(),
            1 <= r <= 0x8000,
            is_orbit_prefix(self@),
            self@.no_duplicates(),
            roll_spec(self@.last()) == INITIAL_SEED,
    {
        proof { use_type_invariant(self); }
        self.values.len()
    }

    /// The seed at position `i` of the cycle.
    pub fn get(&self, i: usize) -> (r: u16)
        requires
            i < self@.len(),
        ensures
            r == self@[i as int],
    {
        self.values[i]
    }

    /// The position of `value` in the cycle, if it occurs there.
    pub fn position(&self, value: u16) -> (r: Option<usize>)
        ensures
            match r {
                Some(i) => i < self@.len() && self@[i as int] == value
                    && forall|j: int| 0 <= j < self@.len() && j != i ==> self@[j] != value,
                None => forall|j: int| 0 <= j < self@.len() ==> self@[j] != value,
            },
    {
        proof { use_type_invariant(self); }
        let mut i: usize = 0;
        while i < self.values.len()
            invariant
                i <= self.values@.len(),
                self.values@.no_duplicates(),
                forall|j: int| 0 <= j < i ==> self.values@[j] != value,
            decreases self.values@.len() - i,
        {
            if self.values[i] == value {
                proof {
                    assert forall|j: int| 0 <= j < self@.len() && j != i implies self@[j] != value by {
                        if self@[j] == value {
                            assert(self.values@[j] == self.values@[i as int]);
                        }
                    }
                }
                return Some(i);
            }
            i += 1;
        }
        None
    }
}

} // verus!
