use re2line::rng::{
    bit_one, format_outcome, ivy_tentacle_set, licker_health, not_bit_one, roll, roll8, roll_description,
    spider_max_turn_time, spider_poison_3_in_32, zombie_stagger, Outcome, RollDescription, RngSequence, INITIAL_SEED,
};
use re2line::roll_type::{roll_type_from_code, RollType};

#[test]
fn test_sequence() {
    let mut seed = INITIAL_SEED;
    for _i in 0..100000 {
        seed = roll(seed);
        if seed == INITIAL_SEED {
            return;
        }
    }
    panic!("RNG did not loop");
}

#[test]
fn roll_from_initial_seed() {
    assert_eq!(roll(INITIAL_SEED), 0x597d);
    assert_eq!(roll(0x597d), 0x322f);
    assert_eq!(roll8(INITIAL_SEED), 0x7d);
}

#[test]
fn roll_keeps_fifteen_bits() {
    for seed in [0u16, 1, 0x7fff, 0x8000, 0xffff, 0x1234] {
        assert!(roll(seed) < 0x8000);
    }
}

#[test]
fn sequence_is_the_cycle() {
    let seq = RngSequence::new();
    assert_eq!(seq.len(), 24312);
    assert_eq!(seq.get(0), INITIAL_SEED);
    assert_eq!(seq.get(1), 0x597d);
    assert_eq!(seq.get(4), 0x495c);
    assert_eq!(roll(seq.get(seq.len() - 1)), INITIAL_SEED);
    assert_eq!(seq.position(0x597d), Some(1));
    assert_eq!(seq.position(INITIAL_SEED), Some(0));
}

#[test]
fn outcome_texts() {
    assert_eq!(zombie_stagger(INITIAL_SEED), "29 (two-shot stagger)");
    assert_eq!(bit_one(INITIAL_SEED), "success");
    assert_eq!(not_bit_one(INITIAL_SEED), "failure");
    assert_eq!(licker_health(INITIAL_SEED), "index 26");
    assert_eq!(spider_max_turn_time(INITIAL_SEED), "7");
    assert_eq!(ivy_tentacle_set(INITIAL_SEED), "[0, 1, 4, 7] (index 1)");
    assert_eq!(format_outcome(Outcome::BitOne, INITIAL_SEED), "success");
}

#[test]
fn describe_with_and_without_subject() {
    let d = roll_description(RollType::ZombieStaggerThreshold);
    assert_eq!(d.describe(INITIAL_SEED, Some("#1 Zombie")), "#1 Zombie rolled for stagger threshold (16-31): 29 (two-shot stagger)");
    assert_eq!(d.describe(INITIAL_SEED, None), "rolled for stagger threshold (16-31): 29 (two-shot stagger)");
    let s = RollDescription::simple("Script rolled RNG");
    assert_eq!(s.describe(INITIAL_SEED, None), "Script rolled RNG");
    assert_eq!(s.outcome(INITIAL_SEED), None);
    let n = RollDescription::new("rolled", Outcome::NotBitOne);
    assert_eq!(n.outcome(INITIAL_SEED), Some(String::from("failure")));
    assert_eq!(roll_description(RollType::Script).describe(5, None), "Script rolled RNG");
}

#[test]
fn roll_type_codes() {
    assert_eq!(RollType::ZombieStaggerThreshold.code(), 1);
    assert_eq!(RollType::Partial.code(), 0xfffe);
    assert_eq!(roll_type_from_code(1), Some(RollType::ZombieStaggerThreshold));
    assert_eq!(roll_type_from_code(0xffff), Some(RollType::Invalid));
    assert_eq!(roll_type_from_code(200), None);
    assert!(RollType::ZombieHealth.is_character_roll());
    assert!(!RollType::Script.is_character_roll());
    assert!(!RollType::HandgunCrit.is_character_roll());
}

#[test]
fn spider_poisons_three_in_thirty_two() {
    // rolls of 22 (0x16), 38 (0x26) and 73 (0x49)
    assert_eq!(roll8(22), 22);
    assert_eq!(spider_poison_3_in_32(22), "failure");
    assert_eq!(roll8(38), 38);
    assert_eq!(spider_poison_3_in_32(38), "success");
    assert_eq!(roll8(73), 73);
    assert_eq!(spider_poison_3_in_32(73), "success");
    let successes = (0u16..0x8000).filter(|&s| spider_poison_3_in_32(s) == "success").count();
    // each of the 256 roll values comes from 128 seeds; 24 of the values poison
    assert_eq!((0u16..0x8000).filter(|&s| roll8(s) == 6).count(), 128);
    assert_eq!(successes, 24 * 128);
}

#[test]
fn triple_roll_starts_with_the_previous_low_byte() {
    // rolling 0x6ca4 gives the 16-bit seed 0xd97d (0x597d once the top bit is dropped)
    assert_eq!(roll(0x6ca4), 0x597d);
    assert_eq!(re2line::rng::roll_three(0xd97d).0, 0xa4);
}
