use re2line::analysis::InputState;
use re2line::hit::{Item, WeaponRangeVisualization};
use re2line::character::WorldVec3;
use re2line::game::{MATRIX, NUM_CHARACTERS, NUM_OBJECTS, SVECTOR, VECTOR};
use re2line::record::{CharacterDiff, CharacterField, FrameRecord, GameField};
use re2line::room::RoomId;
use re2line::state::{apply_diff, State, UNKNOWN_CHARACTER_ID};
use re2line::world::{Floor, WorldVec};

fn matrix(x: i32, y: i32, z: i32) -> MATRIX {
    MATRIX { m: [0; 9], pad: 0, t: VECTOR { x, y, z } }
}

fn frame(changes: Vec<GameField>, characters: Vec<CharacterDiff>, objects: Vec<CharacterDiff>) -> FrameRecord {
    FrameRecord { igt_seconds: 0, igt_frames: 0, num_rng_rolls: 0, game_changes: changes, character_diffs: characters, object_diffs: objects }
}

#[test]
fn characters_appear_move_and_leave() {
    let state = State::empty(NUM_CHARACTERS, NUM_OBJECTS, 4);
    assert!(state.characters().iter().all(|c| c.is_none()));

    let first = frame(
        vec![GameField::RoomIndex(4)],
        vec![CharacterDiff::new(2, vec![
            CharacterField::Id(1),
            CharacterField::Size(300, 300),
            CharacterField::Transform(matrix(1000, -50, 2000)),
            CharacterField::Health(80),
            CharacterField::Floor(1),
            CharacterField::Velocity(SVECTOR { vx: 5, vy: 0, vz: -7, pad: 0 }),
            CharacterField::PartTranslation(0, VECTOR { x: 1000, y: -800, z: 2000 }),
            CharacterField::PartTranslation(9, VECTOR { x: 1, y: 1, z: 1 }),
            CharacterField::ModelPartTransform(1, matrix(10, 20, 30)),
            CharacterField::State([1, 1, 0, 0]),
        ])],
        vec![],
    );
    let s1 = state.make_next_state(&first);
    assert_eq!(s1.game.room_id, RoomId::new(0, 4, 0));
    let c = s1.characters()[2].as_ref().unwrap();
    assert_eq!(c.id, 1);
    assert_eq!(c.index, 2);
    assert_eq!(c.center, WorldVec3::new(1000, -50, 2000));
    assert_eq!(c.prev_center, WorldVec3::new(1000, -50, 2000));
    assert_eq!(c.shape.pos, WorldVec { x: 700, z: 1700 });
    assert_eq!(c.shape.size, WorldVec { x: 600, z: 600 });
    assert_eq!((c.current_health, c.max_health), (80, 80));
    assert_eq!(c.floor, Floor::Id(1));
    assert_eq!(c.velocity, WorldVec { x: 5, z: -7 });
    assert_eq!(c.parts.len(), 4);
    assert_eq!(c.parts[0].unwrap().pos, WorldVec3::new(1000, -800, 2000));
    assert!(c.parts[1].is_none());
    assert_eq!(c.model_part_centers, vec![WorldVec { x: 0, z: 0 }, WorldVec { x: 10, z: 30 }]);
    assert_eq!(c.state, [1, 1, 0, 0]);

    // the next frame moves the character: its previous position is where it stood before
    let second = frame(vec![], vec![CharacterDiff::new(2, vec![CharacterField::Transform(matrix(1100, -50, 2000)), CharacterField::Health(30)])], vec![]);
    let s2 = s1.make_next_state(&second);
    let c = s2.characters()[2].as_ref().unwrap();
    assert_eq!(c.center, WorldVec3::new(1100, -50, 2000));
    assert_eq!(c.prev_center, WorldVec3::new(1000, -50, 2000));
    assert_eq!((c.current_health, c.max_health), (30, 80));
    assert_eq!(s2.game.frame_index, 1);

    let third = frame(vec![], vec![CharacterDiff::removed(2)], vec![]);
    let s3 = s2.make_next_state(&third);
    assert!(s3.characters()[2].is_none());
}

#[test]
fn a_new_slot_starts_unknown() {
    let mut slot = None;
    apply_diff(&mut slot, &CharacterDiff::new(5, vec![CharacterField::Flags(1)]), 4);
    let c = slot.unwrap();
    assert_eq!(c.id, UNKNOWN_CHARACTER_ID);
    assert_eq!(c.flags, 1);
    assert_eq!(c.index, 5);
    assert_eq!(c.parts, vec![None, None, None, None]);
    let mut gone = Some(c);
    apply_diff(&mut gone, &CharacterDiff::new(5, vec![CharacterField::Removed, CharacterField::Flags(3)]), 4);
    assert!(gone.is_none());
}

#[test]
fn objects_follow_their_diffs() {
    let state = State::empty(NUM_CHARACTERS, NUM_OBJECTS, 4);
    let f = frame(vec![], vec![], vec![CharacterDiff::new(3, vec![
        CharacterField::Size(100, 200),
        CharacterField::Transform(matrix(500, 0, 600)),
        CharacterField::Flags(2),
        CharacterField::Health(9),
    ])]);
    let s1 = state.make_next_state(&f);
    let o = s1.objects()[3].unwrap();
    assert_eq!(o.center, WorldVec { x: 500, z: 600 });
    assert_eq!(o.shape.pos, WorldVec { x: 400, z: 400 });
    assert_eq!(o.shape.size, WorldVec { x: 200, z: 400 });
    assert_eq!(o.index, 3);
    assert!(!o.is_pushable());
    let s2 = s1.make_next_state(&frame(vec![], vec![], vec![CharacterDiff::removed(3)]));
    assert!(s2.objects()[3].is_none());
}

#[test]
fn weapon_range_from_the_state() {
    let state = State::empty(NUM_CHARACTERS, NUM_OBJECTS, 4);
    assert!(state.aiming_player(true, Some(Item::HandgunLeon)).is_none());
    let f = frame(vec![], vec![
        CharacterDiff::new(0, vec![CharacterField::Transform(matrix(1000, 0, 2000)), CharacterField::State([1, 5, 0, 0]), CharacterField::MotionAngle(512)]),
        CharacterDiff::new(3, vec![CharacterField::Size(400, 300)]),
    ], vec![]);
    let s = state.make_next_state(&f);
    // a character that is not a player has no weapon state
    assert!(s.aiming_player(false, Some(Item::HandgunLeon)).is_none());
    let player = s.aiming_player(true, Some(Item::HandgunLeon)).unwrap();
    assert!(player.is_weapon_state);
    assert_eq!(player.pos.x.0, 1000);
    assert_eq!(player.angle.0, 512);
    let mut is_enemy = vec![false; NUM_CHARACTERS];
    is_enemy[3] = true;
    let sizes = s.enemy_sizes(&is_enemy);
    assert_eq!(sizes.len(), 1);
    assert_eq!((sizes[0].x.0, sizes[0].z.0), (400, 300));
    let range = WeaponRangeVisualization::for_state(Some(player), &InputState::from_flags(0), &sizes).unwrap();
    assert_eq!(range.weapon, Item::HandgunLeon);
    assert_eq!(range.pos.x.0, 1000);
}
