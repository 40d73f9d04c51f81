use re2line::ai::{black_licker_ai_cones, crawling_zombie_ai_cones, red_licker_ai_cones, zombie_ai_cones, is_moving, describe_licker_ai_state, describe_player_ai_state, describe_zombie_ai_state, AiCone, BehaviorType, StateMask};
use re2line::animation::{choose_motion, move_type, AnimationCursor, AnimationId};
use re2line::analysis::InputState;
use re2line::game::{AimZone, HitBounds, WeaponRange};
use re2line::hit::{get_weapon_aim_ranges, AimingPlayer, Item, WeaponRangeVisualization};
use re2line::math::{Fixed12, UFixed12, Vec2};
use re2line::room::{RoomId, RoomIdError};
use re2line::world::{Floor, ObjectType};

#[test]
fn floors() {
    assert_eq!(Floor::Id(3).mask(), 8);
    assert_eq!(Floor::any().mask(), 0xFFFF_FFFF);
    assert!(Floor::any().matches_any());
    assert!(Floor::Id(2).matches(Floor::Mask(0b100)));
    assert!(!Floor::Id(2).matches(Floor::Id(1)));
    assert!(Floor::any().matches(Floor::Id(31)));
    assert_eq!(Floor::Id(2).y(), Some(-3600));
    assert_eq!(Floor::any().y(), None);
}

#[test]
fn room_names() {
    let id = RoomId::new(0, 4, 0);
    assert_eq!(id.to_text(), "1040");
    assert_eq!(RoomId::new(9, 0x1f, 1).to_text(), "A1F1");
    assert_eq!(RoomId::from_str("1040"), Ok(id));
    assert_eq!(RoomId::from_str("a0f1"), Ok(RoomId::new(9, 0x0f, 1)));
    assert_eq!(RoomId::from_str("12"), Err(RoomIdError::InvalidLength));
    assert_eq!(RoomId::from_str("X001"), Err(RoomIdError::InvalidStage));
    assert_eq!(RoomId::from_str("1ZZ0"), Err(RoomIdError::InvalidRoom));
    assert_eq!(RoomId::from_str("100x"), Err(RoomIdError::InvalidPlayer));
    assert_eq!(RoomId::zero(), RoomId::new(0, 0, 0));
}

#[test]
fn room_name_roundtrip() {
    for stage in 0u8..16 {
        for room in [0u8, 1, 0x1f, 0xff] {
            let id = RoomId::new(stage, room, 1);
            assert_eq!(RoomId::from_str(&id.to_text()), Ok(id));
        }
    }
}

#[test]
fn ai_states() {
    assert_eq!(describe_player_ai_state(&[1, 5, 0, 0]), "Weapon");
    assert_eq!(describe_player_ai_state(&[9, 9, 9, 9]), "Unknown");
    assert!(!describe_zombie_ai_state(&[1, 0, 0, 0]).is_empty());
    assert!(!describe_licker_ai_state(&[1, 0, 0, 0]).is_empty());
    assert!(StateMask::Between(2, 4).matches(3));
    assert!(!StateMask::Either(1, 2).matches(3));
    let cone = AiCone {
        name: "cone",
        description: "test",
        behavior_type: BehaviorType::Attack,
        half_angle: Fixed12(0x200),
        offset_angle: Fixed12(0),
        radius: UFixed12(1000),
        inverted: false,
        state_mask: [StateMask::Exactly(1), StateMask::Any, StateMask::OneOf3(0, 2, 4), StateMask::Any],
    };
    assert!(cone.check_state(&[1, 7, 2, 9]));
    assert!(!cone.check_state(&[1, 7, 3, 9]));
}

#[test]
fn object_types() {
    assert!(ObjectType::from_behavior_type(BehaviorType::Attack).is_ai_zone());
}

#[test]
fn weapon_ranges() {
    let handgun = get_weapon_aim_ranges(Item::HandgunLeon).unwrap();
    assert_eq!(handgun.mid.hit_bounds[0], HitBounds { x: 0xC8, z: 0, x_size_half: 0x3E8, z_size_quarter: 0x177 });
    assert!(get_weapon_aim_ranges(Item::RocketLauncher).is_none());
    assert!(WeaponRange::none().is_empty());
    assert!(!handgun.high.is_empty());
    assert_eq!(AimZone::Mid.flag(), 0x08);
}

#[test]
fn weapon_range_display() {
    let player = AimingPlayer { pos: Vec2::new(Fixed12(10), Fixed12(20)), angle: Fixed12(0x400), is_weapon_state: true, weapon: Some(Item::Knife) };
    let mut input = InputState::from_flags(0);
    let sizes = [Vec2::new(Fixed12(100), Fixed12(40)), Vec2::new(Fixed12(60), Fixed12(80))];
    let v = WeaponRangeVisualization::for_state(Some(player), &input, &sizes).unwrap();
    // knife, straight: the first bounds are widened by a quarter of the largest sizes
    assert_eq!(v.aim_range[0].0, Vec2::new(Fixed12(0xFA), Fixed12(0x320)));
    assert_eq!(v.aim_range[0].1, Vec2::new(Fixed12(0x1AA + 25), Fixed12(0x79 + 20)));
    assert_eq!(v.aim_range[1].1, Vec2::new(Fixed12(0), Fixed12(0)));
    assert_eq!(v.pos, player.pos);
    input.is_forward_pressed = true;
    let high = WeaponRangeVisualization::for_state(Some(player), &input, &[]).unwrap();
    assert_eq!(high.aim_range[0].0, Vec2::new(Fixed12(-500), Fixed12(0x320)));
    let not_aiming = AimingPlayer { is_weapon_state: false, ..player };
    assert!(WeaponRangeVisualization::for_state(Some(not_aiming), &input, &sizes).is_none());
    assert!(WeaponRangeVisualization::for_state(None, &input, &sizes).is_none());
    let unarmed = AimingPlayer { weapon: Some(Item::Other), ..player };
    assert!(WeaponRangeVisualization::for_state(Some(unarmed), &input, &sizes).is_none());
}

#[test]
fn motion_choice() {
    assert_eq!(move_type(101), 0);
    assert_eq!(move_type(100), 1);
    assert_eq!(move_type(20), 2);
    let walk = choose_motion([1, 1, 0, 0], 150);
    assert_eq!(walk.animation_id, Some(AnimationId::Weapon(0)));
    assert_eq!(walk.turn_rate, 0x28);
    let run_danger = choose_motion([1, 2, 0, 0], 10);
    assert_eq!(run_danger.animation_id, Some(AnimationId::Weapon(7)));
    assert_eq!(run_danger.turn_rate, 0x18);
    let back_caution = choose_motion([1, 3, 0, 0], 50);
    assert_eq!(back_caution.animation_id, Some(AnimationId::Model(9)));
    let turn = choose_motion([1, 4, 0, 0], 150);
    assert_eq!(turn.animation_id, None);
    assert_eq!(turn.turn_rate, 0x50);
    assert_eq!(choose_motion([2, 0, 0, 0], 150).turn_rate, 0);
}

#[test]
fn animation_cursor() {
    let mut c = AnimationCursor::empty();
    c.advance(Some(AnimationId::Weapon(1)));
    assert_eq!(c.frame_index, 0);
    c.advance(Some(AnimationId::Weapon(1)));
    assert_eq!(c.frame_index, 1);
    c.wrap_to(1);
    assert_eq!(c.frame_index, 0);
    c.advance(Some(AnimationId::Room(2)));
    c.leave_room();
    assert_eq!(c.animation_id, None);
    c.advance(Some(AnimationId::Model(0)));
    c.leave_room();
    assert_eq!(c.animation_id, Some(AnimationId::Model(0)));
    c.wrap_to(0);
    assert_eq!(c.animation_id, None);
}

#[test]
fn fixed_point() {
    assert_eq!(Fixed12(-5).abs(), Fixed12(5));
    assert_eq!(Fixed12(i16::MIN).unsigned_abs(), UFixed12(0x8000));
    assert_eq!(UFixed12(16).sqrt(), UFixed12(4));
    assert_eq!(Vec2::new(Fixed12(0x300), Fixed12(0x400)).len(), UFixed12(20));
    assert!(Vec2::zero().is_zero());
    assert_eq!(Fixed12(0x2000).mul(Fixed12(0x800)), Fixed12(0x1000));
}

#[test]
fn floor_text() {
    assert_eq!(Floor::Id(3).to_text(), "3");
    assert_eq!(Floor::any().to_text(), "Any");
    assert_eq!(Floor::Aot(5).to_text(), "5");
    assert_eq!(Floor::Mask(0b1011).to_text(), "0, 1, 3");
    assert_eq!(Floor::Mask(0x8000_0000).to_text(), "31");
    assert_eq!(Floor::Mask(0).to_text(), "");
}

#[test]
fn player_movement_states() {
    assert!(is_moving(true, &[0x01, 0x01, 0, 0]));
    assert!(is_moving(true, &[0x01, 0x03, 9, 9]));
    assert!(is_moving(true, &[0x01, 0x07, 0x05, 0]));
    assert!(!is_moving(true, &[0x01, 0x07, 0x02, 0]));
    assert!(is_moving(true, &[0x01, 0x09, 0, 0x02]));
    assert!(!is_moving(true, &[0x01, 0x09, 0, 0x03]));
    assert!(is_moving(true, &[0x01, 0x0a, 0x04, 0]));
    assert!(!is_moving(true, &[0x01, 0x00, 0, 0]));
    assert!(!is_moving(true, &[0x01, 0x08, 0, 0x02]));
    assert!(!is_moving(false, &[0x01, 0x01, 0, 0]));
}

#[test]
fn room_names_ignore_case() {
    assert_eq!(RoomId::from_str("10a1"), Ok(RoomId::new(0, 0x0A, 1)));
    assert_eq!(RoomId::from_str("10A1"), Ok(RoomId::new(0, 0x0A, 1)));
    assert_eq!(RoomId::from_str("g0b2"), RoomId::from_str("G0B2"));
}

#[test]
fn ai_zone_tables() {
    assert_eq!(black_licker_ai_cones().len(), 24);
    assert_eq!(red_licker_ai_cones().len(), 24);
    let crawl = crawling_zombie_ai_cones();
    assert_eq!(crawl.len(), 1);
    assert_eq!(crawl[0].name, "Bite");
    assert_eq!(crawl[0].radius.0, 1300);
    assert_eq!(crawl[0].half_angle.0, 0x200);
    let zombie = zombie_ai_cones();
    assert_eq!(zombie.len(), 10);
    assert_eq!(zombie[0].name, "Passive aggro");
    assert_eq!(zombie[0].radius.0, 7500);
    assert!(zombie[0].check_state(&[1, 0, 3, 9]));
    assert!(!zombie[0].check_state(&[1, 0, 2, 9]));
    assert!(zombie[2].inverted);
}
