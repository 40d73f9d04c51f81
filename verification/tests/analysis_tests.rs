use re2line::world::CharacterSettings;
use re2line::analysis::{is_roll_shown, describe_frame_rolls, FrameRng, InputState, RngDescription, RollCategory, SoundEnvironment, KEY_ACTION, KEY_AIM, KEY_FORWARD};
use re2line::rng::{RngSequence, INITIAL_SEED};
use re2line::roll_type::RollType;
use re2line::record::GameField;

#[test]
fn input_flags() {
    let input = InputState::from_flags(KEY_FORWARD | KEY_ACTION | KEY_AIM);
    assert!(input.is_forward_pressed && input.is_action_pressed && input.is_aim_pressed);
    assert!(!input.is_backward_pressed && !input.is_left_pressed && !input.is_right_pressed && !input.is_run_cancel_pressed);
    let input = InputState::from_flags(0x20e);
    assert!(input.is_right_pressed && input.is_backward_pressed && input.is_left_pressed && input.is_run_cancel_pressed);
    assert!(!input.is_forward_pressed);
}

#[test]
fn sound_bits() {
    let s = SoundEnvironment::new(0x11);
    assert!(s.is_gunshot_audible() && s.is_aim_audible());
    assert!(!s.is_walking_footstep_audible() && !s.is_running_footstep_audible() && !s.is_knife_audible());
    assert!(!s.is_silent());
    assert!(SoundEnvironment::new(0).is_silent());
}

#[test]
fn descriptions_keep_fifteen_bits() {
    let d = RngDescription::unknown(String::from("004B2A91 rolled on ECA4"), 0xeca4);
    assert_eq!(d.start_value, 0x6ca4);
    assert!(d.is_unknown());
    let d = RngDescription::character(String::from("x"), 3, RollType::ZombieHealth, 0x597d);
    assert_eq!(d.category, RollCategory::Character(3));
    assert!(!d.is_unknown());
    let d = RngDescription::new(String::from("x"), RollCategory::NonCharacter, None, 1);
    assert!(d.is_unknown());
}

#[test]
fn nearest_different_outcomes() {
    let seq = RngSequence::new();
    let d = RngDescription::non_character(String::from("appearance"), RollType::AltZombieAppearance, INITIAL_SEED);
    assert_eq!(d.rng_index(&seq), 0);
    assert_eq!(d.next_unique_value(&seq), Some((3, 3, String::from("failure"))));
    assert_eq!(d.prev_unique_value(&seq), Some((24311, -1, String::from("failure"))));
    let none = RngDescription::non_character(String::from("block"), RollType::DestinationBlock, INITIAL_SEED);
    assert_eq!(none.next_unique_value(&seq), None);
}

#[test]
fn values_around_a_roll() {
    let seq = RngSequence::new();
    let d = RngDescription::non_character(String::from("appearance"), RollType::AltZombieAppearance, INITIAL_SEED);
    let values = d.values_in_range(&seq, -2, 2);
    assert_eq!(values, vec![
        (24310, String::from("failure")),
        (24311, String::from("failure")),
        (0, String::from("success")),
        (1, String::from("success")),
        (2, String::from("success")),
    ]);
    let later = RngDescription::non_character(String::from("appearance"), RollType::AltZombieAppearance, 0x597d);
    assert_eq!(later.values_in_range(&seq, 1, 2), vec![(2, String::from("success")), (3, String::from("failure"))]);
    let unknown = RngDescription::unknown(String::from("?"), INITIAL_SEED);
    assert!(unknown.values_in_range(&seq, -2, 2).is_empty());
}

#[test]
fn frame_rng_starts_empty() {
    let f = FrameRng::new(7, String::from("00:01:50"));
    assert_eq!(f.frame_index, 7);
    assert_eq!(f.timestamp, "00:01:50");
    assert!(f.rng_descriptions.is_empty());
}

#[test]
fn frame_rolls_described() {
    let changes = vec![
        GameField::Rng(5),
        GameField::RngRoll(0x004b2a91, 0xeca4),
        GameField::KnownRng { roll_type: RollType::Script, start_value: 0x1234 },
        GameField::CharacterRng { char_index: 1, roll_type: RollType::G2Angle, start_value: 0x8001 },
        GameField::CharacterRng { char_index: 4, roll_type: RollType::DestinationBlock, start_value: 2 },
        GameField::ScriptRng(7),
    ];
    let names = vec![None, Some(String::from("Zombie")), None];
    let frame = describe_frame_rolls(12, String::from("00:01:50"), &changes, &names);
    assert_eq!(frame.frame_index, 12);
    assert_eq!(frame.timestamp, "00:01:50");
    assert_eq!(frame.rng_descriptions.len(), 4);
    assert_eq!(frame.rng_descriptions[0].description, "004B2A91 rolled on ECA4");
    assert_eq!(frame.rng_descriptions[0].category, RollCategory::Unknown);
    assert_eq!(frame.rng_descriptions[1].description, "Script rolled RNG");
    assert_eq!(frame.rng_descriptions[1].category, RollCategory::NonCharacter);
    assert_eq!(frame.rng_descriptions[1].start_value, 0x1234);
    assert_eq!(frame.rng_descriptions[2].description, "#1 Zombie rolled for angle");
    assert_eq!(frame.rng_descriptions[2].category, RollCategory::Character(1));
    assert_eq!(frame.rng_descriptions[2].start_value, 1);
    // a slot without a character name is described without a subject
    assert_eq!(frame.rng_descriptions[3].description, "rolled for destination block");
}

#[test]
fn distribution_around_a_roll() {
    let seq = RngSequence::new();
    let d = RngDescription::non_character(String::from("appearance"), RollType::AltZombieAppearance, INITIAL_SEED);
    // two failures and three successes from -2 to 2
    assert_eq!(d.distribution(&seq, -2, 2), vec![(String::from("success"), 3), (String::from("failure"), 2)]);
    // ties are listed in reverse text order
    let later = RngDescription::non_character(String::from("appearance"), RollType::AltZombieAppearance, 0x597d);
    assert_eq!(later.distribution(&seq, 1, 2), vec![(String::from("success"), 1), (String::from("failure"), 1)]);
    let unknown = RngDescription::unknown(String::from("?"), INITIAL_SEED);
    assert!(unknown.distribution(&seq, -2, 2).is_empty());
}

#[test]
fn distribution_agrees_with_values() {
    let seq = RngSequence::new();
    let d = RngDescription::character(String::from("health"), 2, RollType::ZombieHealth, 0x597d);
    let values = d.values_in_range(&seq, -40, 40);
    let dist = d.distribution(&seq, -40, 40);
    let total: usize = dist.iter().map(|(_, c)| *c).sum();
    assert_eq!(total, values.len());
    for (text, count) in &dist {
        assert_eq!(values.iter().filter(|(_, v)| v == text).count(), *count);
    }
    for pair in dist.windows(2) {
        assert!(pair[0].1 > pair[1].1 || (pair[0].1 == pair[1].1 && pair[0].0 > pair[1].0));
    }
}

#[test]
fn roll_browser_filters() {
    let mut quiet = CharacterSettings::config_default(true);
    quiet.show_rng_rolls = false;
    let settings = vec![None, Some(quiet), Some(CharacterSettings::config_default(true))];
    assert!(is_roll_shown(RollCategory::Character(0), true, false, false, &settings));
    assert!(!is_roll_shown(RollCategory::Character(1), true, true, true, &settings));
    assert!(is_roll_shown(RollCategory::Character(2), true, false, false, &settings));
    assert!(is_roll_shown(RollCategory::Character(9), true, false, false, &settings));
    assert!(!is_roll_shown(RollCategory::Character(2), false, true, true, &settings));
    assert!(is_roll_shown(RollCategory::NonCharacter, false, true, false, &settings));
    assert!(!is_roll_shown(RollCategory::Unknown, true, true, false, &settings));
}
