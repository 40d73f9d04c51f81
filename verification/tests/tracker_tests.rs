use re2line::game::{Character, CharacterPart, ModelPart, MATRIX, SVECTOR, VECTOR};
use re2line::record::{CharacterField, GameField};
use re2line::tracker::{CharacterSnapshot, CharacterState, GameSnapshot, GameState, GameTracker};

fn identity(x: i32) -> MATRIX {
    MATRIX { m: [0x1000, 0, 0, 0, 0x1000, 0, 0, 0, 0x1000], pad: 0, t: VECTOR { x, y: 0, z: 0 } }
}

fn part(x_size: u16, z_size: u16) -> CharacterPart {
    CharacterPart {
        pos: VECTOR { x: 1, y: 2, z: 3 },
        x_size,
        z_size,
        unk_x: 0,
        unk_z: 0,
        unk_y: 0,
        size_offset: 0,
        unk_18: 0,
        y_size: 0,
        x_offset: 0,
        z_offset: 0,
    }
}

fn character(id: u8, health: i16) -> Character {
    let sv = SVECTOR { vx: 0, vy: 0, vz: 0, pad: 0 };
    Character {
        flags: 1,
        state: [1, 0, 0, 0],
        id,
        index: 0,
        transform: identity(100),
        pos_short: sv,
        base_pos_short: sv,
        motion_angle: 0x400,
        parts: [part(400, 500), part(0, 0), part(0, 0), part(0, 0)],
        floor: 0,
        num_model_parts: 0,
        type_: 0x1203,
        collision_state: 0,
        colliders_hit: 0,
        next_x: 0,
        next_z: 0,
        velocity: sv,
        health,
        motion: 7,
        num_parts: 1,
        weapon_hit_stage_frames: 0,
        weapon_hit_stage_index: 0,
        distance_to_target: 0,
        prev_state: [0, 0, 0, 0],
    }
}

fn model_parts(n: i32) -> Vec<ModelPart> {
    (0..n).map(|i| ModelPart { composite_transform: identity(i) }).collect()
}

fn game(rng: u32, room_index: u16, characters: Vec<Option<CharacterSnapshot>>) -> GameSnapshot {
    GameSnapshot {
        rng,
        keys_down: 0,
        keys_down_this_frame: 0,
        igt_seconds: 12,
        igt_frames: 34,
        stage_index: 0,
        room_index,
        stage_offset: 0,
        sound_flags: 0,
        is_claire: false,
        characters,
        objects: vec![None; 32],
    }
}

fn slots(first: Option<CharacterSnapshot>) -> Vec<Option<CharacterSnapshot>> {
    let mut v = vec![None; 34];
    v[0] = first;
    v
}

#[test]
fn game_state_records_changes_in_order() {
    let g = game(0x12345, 4, slots(None));
    let mut state = GameState::from_game(&g);
    assert!(state.track_delta(&g).is_empty());
    let mut g2 = game(0x6ca4, 5, slots(None));
    g2.is_claire = true;
    g2.sound_flags = 3;
    let changes = state.track_delta(&g2);
    assert_eq!(format!("{:?}", changes), format!("{:?}", vec![
        GameField::Rng(0x6ca4),
        GameField::RoomIndex(5),
        GameField::Scenario(1),
        GameField::SoundFlags(3),
    ]));
    assert!(state.track_delta(&g2).is_empty());
}

#[test]
fn rng_is_recorded_in_sixteen_bits() {
    let mut state = GameState::from_game(&game(0, 0, slots(None)));
    let changes = state.track_delta(&game(0x1_2345, 0, slots(None)));
    assert!(matches!(changes[0], GameField::Rng(0x2345)));
}

#[test]
fn new_character_gets_every_field() {
    let c = character(16, 100);
    let state = CharacterState::from_character(&c, &model_parts(0));
    let delta = state.full_delta();
    assert_eq!(delta.len(), 12);
    assert!(matches!(delta[0], CharacterField::State([1, 0, 0, 0])));
    assert!(matches!(delta[1], CharacterField::Id(16)));
    assert!(matches!(delta[6], CharacterField::Size(400, 500)));
    assert!(matches!(delta[10], CharacterField::Type(0x03)));
    assert!(matches!(delta[11], CharacterField::Flags(1)));
}

#[test]
fn dogs_and_g2_record_model_parts() {
    let dog = CharacterState::from_character(&character(32, 50), &model_parts(6));
    let delta = dog.full_delta();
    assert_eq!(delta.len(), 13);
    assert!(matches!(delta[12], CharacterField::ModelPartTransform(4, _)));
    let g2 = CharacterState::from_character(&character(49, 50), &model_parts(12));
    let delta = g2.full_delta();
    assert_eq!(delta.len(), 14);
    assert!(matches!(delta[12], CharacterField::ModelPartTransform(6, _)));
    assert!(matches!(delta[13], CharacterField::ModelPartTransform(11, _)));
    assert_eq!(g2.model_parts_needed(), vec![6, 11]);
}

#[test]
fn character_changes_are_tracked() {
    let c = character(32, 50);
    let parts = model_parts(6);
    let mut state = CharacterState::from_character(&c, &parts);
    assert!(state.track_delta(&c, &parts).is_empty());
    let mut c2 = c;
    c2.health = 40;
    c2.motion = 99;
    c2.parts[0].x_size = 10;
    let mut parts2 = model_parts(6);
    parts2[4].composite_transform = identity(1000);
    parts2[2].composite_transform = identity(2000);
    let delta = state.track_delta(&c2, &parts2);
    assert_eq!(delta.len(), 3);
    assert!(matches!(delta[0], CharacterField::ModelPartTransform(4, _)));
    assert!(matches!(delta[1], CharacterField::Size(10, 500)));
    assert!(matches!(delta[2], CharacterField::Health(40)));
    assert!(state.track_delta(&c2, &parts2).is_empty());
}

#[test]
fn tracker_records_appearing_changing_and_leaving_characters() {
    let g = game(1, 4, slots(None));
    let mut tracker = GameTracker::new(&g);
    let r = tracker.track_delta(&g);
    assert!(r.game_changes.is_empty() && r.character_diffs.is_empty() && r.object_diffs.is_empty());
    assert_eq!(r.igt_seconds, 12);
    assert_eq!(r.igt_frames, 34);
    assert_eq!(r.num_rng_rolls, 0);

    let snap = CharacterSnapshot { character: character(16, 100), model_parts: model_parts(0) };
    let g2 = game(1, 4, slots(Some(snap.clone())));
    let r = tracker.track_delta(&g2);
    assert_eq!(r.character_diffs.len(), 1);
    assert_eq!(r.character_diffs[0].index, 0);
    assert_eq!(r.character_diffs[0].changes.len(), 12);

    // the same values again record nothing
    let r = tracker.track_delta(&g2);
    assert!(r.character_diffs.is_empty());

    let mut hurt = snap.clone();
    hurt.character.health = 90;
    let r = tracker.track_delta(&game(1, 4, slots(Some(hurt))));
    assert_eq!(r.character_diffs.len(), 1);
    assert!(matches!(r.character_diffs[0].changes[..], [CharacterField::Health(90)]));

    let r = tracker.track_delta(&game(2, 4, slots(None)));
    assert!(matches!(r.game_changes[..], [GameField::Rng(2)]));
    assert_eq!(r.character_diffs.len(), 1);
    assert!(matches!(r.character_diffs[0].changes[..], [CharacterField::Removed]));
}
