use re2line::roll_type::RollType;
use re2line::version::{
    current_char_index, find_game_version, is_b_scenario, is_char_valid, is_claire, live_characters, live_objects,
    VersionError,
};

#[test]
fn sourcenext_is_found_by_its_room_path() {
    let v = find_game_version(0x0053ab98).unwrap();
    assert_eq!(v.version_name, "sourcenext11");
    assert_eq!(v.rng_seed, 0x00988610);
    assert_eq!(v.frame_tick_patch, 0x004c3c70);
    assert_eq!(v.known_rng_rolls[0], (0x004e3be1, RollType::Script));
    assert_eq!(v.known_rng_rolls[119], (0x004914f7, RollType::G2Slash75));
    assert_eq!(find_game_version(0x1234).unwrap_err(), VersionError::Unsupported { rdt_path_addr: 0x1234 });
}

#[test]
fn character_slots() {
    assert!(!is_char_valid(0, 50));
    assert!(!is_char_valid(50, 50));
    assert!(is_char_valid(60, 50));
    let chars = [50, 70, 0, 60, 60];
    assert_eq!(current_char_index(60, 50, &chars), Some(3));
    assert_eq!(current_char_index(50, 50, &chars), None);
    assert_eq!(current_char_index(80, 50, &chars), None);
    assert_eq!(live_characters(&chars, 50), vec![None, Some(70), None, Some(60), Some(60)]);
}

#[test]
fn object_slots() {
    let objs = live_objects(0x1000, 0x1000 + 0x1F8 * 2);
    assert_eq!(objs.len(), 32);
    assert_eq!(objs[0], Some(0x1000));
    assert_eq!(objs[1], Some(0x1000 + 0x1F8));
    assert_eq!(objs[2], None);
}

#[test]
fn scenario_flags() {
    assert!(is_claire(0x8000_0000));
    assert!(!is_claire(0x4000_0000));
    assert!(is_b_scenario(0xc000_0000));
    assert!(!is_b_scenario(0x8000_0000));
}
