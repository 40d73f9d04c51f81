use re2line::character::{find_contact, Character, CharacterPath, Object, Part, WorldVec3};
use re2line::world::{Floor, WorldVec};
use re2line::analysis::InputState;
use re2line::animation::{frame_velocity, AnimationCursor, AnimationId};

fn body(x: i32, y: i32, z: i32, size_y: i32, radius: u16) -> Part {
    Part::new(WorldVec3::new(x, y, z), WorldVec3::new(0, size_y, 0), radius)
}

fn character(flags: u32, center: (i32, i32, i32), parts: Vec<Option<Part>>) -> Character {
    let mut c = Character::new(flags, 1, 100, center.0, center.1, center.2, 100, 100, 0, Floor::Id(0), WorldVec { x: 0, z: 0 });
    c.parts = parts;
    c
}

#[test]
fn touching_parts_push_the_collider_back() {
    let mut collider = character(1, (0, 0, 0), vec![Some(body(0, 0, 0, 100, 200))]);
    collider.set_prev_pos(WorldVec3::new(-50, 0, 0));
    let receiver = character(1, (300, 0, 0), vec![Some(body(300, 0, 0, 100, 200))]);

    let mut pass = collider.collide_with(&receiver);
    assert!(!pass.finished);
    let contact = pass.next_contact().unwrap();
    assert_eq!(contact.receiver_part, 0);
    assert_eq!(contact.collider_part, 0);
    assert_eq!(contact.rel, WorldVec3::new(-300, 0, 0));
    assert_eq!(contact.combined_size, 400);
    assert_eq!(contact.receiver_extent, 400);
    assert_eq!(contact.y_size, 200);

    // The game measures (-300, 0) as 300 long: the parts overlap by 100.
    assert_eq!(contact.overlap(300), Some(100));
    // -300 * 100 / 301, rounded towards zero.
    pass.push(&contact, -99, 0, 0);
    assert!(pass.next_contact().is_none());
    assert!(pass.finished);

    let (moved, pushed) = pass.finish();
    assert!(pushed);
    assert_eq!(moved.center, WorldVec3::new(-99, 0, 0));
    assert_eq!(moved.parts[0].unwrap().pos, WorldVec3::new(-99, 0, 0));
}

#[test]
fn disabled_receiver_pushes_nothing() {
    let collider = character(1, (0, 0, 0), vec![Some(body(0, 0, 0, 100, 200))]);
    let receiver = character(0, (300, 0, 0), vec![Some(body(300, 0, 0, 100, 200))]);
    let mut pass = collider.collide_with(&receiver);
    assert!(pass.finished);
    assert!(pass.next_contact().is_none());
    let (moved, pushed) = pass.finish();
    assert!(!pushed);
    assert_eq!(moved.center, WorldVec3::new(0, 0, 0));
}

#[test]
fn receivers_only_receive() {
    let collider = character(1 | 4, (0, 0, 0), vec![Some(body(0, 0, 0, 100, 200))]);
    let receiver = character(1, (300, 0, 0), vec![Some(body(300, 0, 0, 100, 200))]);
    assert!(collider.is_collision_receiver());
    assert!(collider.collide_with(&receiver).finished);
}

#[test]
fn mutually_exclusive_characters_pass_through() {
    let collider = character(1 | 0x1000, (0, 0, 0), vec![Some(body(0, 0, 0, 100, 200))]);
    let receiver = character(1 | 0x1000, (300, 0, 0), vec![Some(body(300, 0, 0, 100, 200))]);
    assert!(collider.clone().collide_with(&receiver).finished);
    let one_sided = character(1, (300, 0, 0), vec![Some(body(300, 0, 0, 100, 200))]);
    assert!(!collider.collide_with(&one_sided).finished);
}

#[test]
fn limited_receiver_holds_the_push() {
    let collider = character(1, (0, 0, 0), vec![Some(body(0, 0, 0, 100, 200))]);
    let receiver = character(1 | 0x100000, (300, 0, 0), vec![Some(body(300, 0, 0, 100, 200))]);
    let mut pass = collider.collide_with(&receiver);
    let contact = pass.next_contact().unwrap();
    pass.push(&contact, -150, 130, 0);
    let (moved, _) = pass.finish();
    assert_eq!(moved.center, WorldVec3::new(-100, 0, 100));
}

#[test]
fn passing_the_receiver_adds_its_extent() {
    // The collider moved from x = -50 to x = 400, past the receiver at 300, and its part is
    // well above the receiver's.
    let mut collider = character(1, (400, 0, 0), vec![Some(body(400, 0, 0, 100, 200))]);
    collider.set_prev_pos(WorldVec3::new(-50, 0, 0));
    let receiver = character(1, (300, 0, 0), vec![Some(body(300, 0, 0, 100, 200))]);
    let mut pass = collider.collide_with(&receiver);
    let contact = pass.next_contact().unwrap();
    assert_eq!(contact.rel, WorldVec3::new(100, 0, 0));
    pass.push(&contact, 10, 0, 500);
    let (moved, _) = pass.finish();
    // 10 - 400 on x; z was not crossed.
    assert_eq!(moved.center, WorldVec3::new(10, 0, 0));
}

#[test]
fn parts_apart_in_height_do_not_overlap() {
    let collider = character(1, (0, 0, 0), vec![Some(body(0, 300, 0, 100, 200))]);
    let receiver = character(1, (300, 0, 0), vec![Some(body(300, 0, 0, 100, 200))]);
    let mut pass = collider.collide_with(&receiver);
    let contact = pass.next_contact().unwrap();
    assert_eq!(contact.overlap(300), None);
    assert_eq!(contact.overlap(400), None);
}

#[test]
fn contacts_come_in_order_and_skip_missing_parts() {
    let collider = character(1, (0, 0, 0), vec![None, Some(body(0, 0, 0, 100, 200)), Some(body(5000, 0, 0, 100, 200))]);
    let receiver = character(1, (300, 0, 0), vec![Some(body(300, 0, 0, 100, 200)), None, Some(body(0, 0, 100, 100, 200))]);
    let first = find_contact(&collider, &receiver, 0, 0).unwrap();
    assert_eq!((first.receiver_part, first.collider_part), (0, 1));
    let second = find_contact(&collider, &receiver, 0, 2).unwrap();
    assert_eq!((second.receiver_part, second.collider_part), (2, 1));
    assert!(find_contact(&collider, &receiver, 2, 2).is_none());

    let mut pass = collider.collide_with(&receiver);
    let a = pass.next_contact().unwrap();
    let b = pass.next_contact().unwrap();
    assert_eq!(a, first);
    assert_eq!(b, second);
    assert!(pass.next_contact().is_none());
}

#[test]
fn new_character_shapes_surround_the_centre() {
    let c = Character::new(1, 7, 50, 1000, -200, 2000, 300, 400, 90, Floor::Id(1), WorldVec { x: 5, z: 6 });
    assert_eq!(c.center(), WorldVec { x: 1000, z: 2000 });
    assert_eq!(c.prev_center_3d(), WorldVec3::new(1000, -200, 2000));
    assert_eq!(c.shape.pos, WorldVec { x: 700, z: 1600 });
    assert_eq!(c.shape.size, WorldVec { x: 600, z: 800 });
    assert_eq!(c.outline_shape.pos, WorldVec { x: 700, z: 1600 });
    assert_eq!(c.current_health(), 50);
    assert_eq!(c.max_health(), 50);
    assert_eq!(c.index(), usize::MAX);
    assert!(c.is_enabled());
    assert!(c.has_collision());
    assert!(!c.has_limited_collision_displacement());
    assert!(!c.has_collision_mutual_exclusion());
}

#[test]
fn character_moves_its_shapes() {
    let mut c = Character::empty(3);
    c.set_size(100, 50);
    assert_eq!(c.shape.size, WorldVec { x: 200, z: 100 });
    c.set_pos(WorldVec3::new(1000, 0, 1000));
    assert_eq!(c.shape.pos, WorldVec { x: 900, z: 950 });
    assert_eq!(c.outline_shape.pos, WorldVec { x: 900, z: 950 });
    c.set_floor(Floor::Id(2));
    assert_eq!(c.shape.floor, Floor::Id(2));
    assert_eq!(c.outline_shape.floor, Floor::Id(2));
}

#[test]
fn health_sets_a_missing_maximum() {
    let mut c = Character::empty(3);
    c.set_health(80);
    assert_eq!((c.current_health(), c.max_health()), (80, 80));
    c.set_health(20);
    assert_eq!((c.current_health(), c.max_health()), (20, 80));
}

#[test]
fn model_part_centres_grow_as_needed() {
    let mut c = Character::empty(3);
    c.set_model_part_center(2, WorldVec { x: 1, z: 2 });
    assert_eq!(c.model_part_centers(), &[WorldVec { x: 0, z: 0 }, WorldVec { x: 0, z: 0 }, WorldVec { x: 1, z: 2 }]);
    c.set_model_part_center(0, WorldVec { x: 3, z: 4 });
    assert_eq!(c.model_part_centers()[0], WorldVec { x: 3, z: 4 });
    assert_eq!(c.model_part_centers().len(), 3);
}

#[test]
fn part_centre_is_the_first_part() {
    let mut c = Character::empty(3);
    assert_eq!(c.part_center(), WorldVec { x: 0, z: 0 });
    c.parts = vec![Some(Part::from_pos(WorldVec3::new(5, 6, 7)))];
    assert_eq!(c.part_center(), WorldVec { x: 5, z: 7 });
    let mut p = Part::from_size(WorldVec3::new(1, 2, 3), 9);
    p.set_pos(WorldVec3::new(4, 4, 4));
    p.set_size(7, 8, 9, 10);
    assert_eq!(p, Part::new(WorldVec3::new(4, 4, 4), WorldVec3::new(7, 8, 9), 10));
}

#[test]
fn object_shape_follows_its_centre() {
    let mut o = Object::new(0, 500, 600, 100, 200, Floor::Id(0));
    assert_eq!(o.shape.pos, WorldVec { x: 400, z: 400 });
    assert_eq!(o.shape.size, WorldVec { x: 200, z: 400 });
    assert!(o.is_pushable());
    o.set_pos(1000, 1000);
    assert_eq!(o.shape.pos, WorldVec { x: 900, z: 800 });
    o.set_size(10, 20);
    assert_eq!(o.shape.size, WorldVec { x: 20, z: 40 });
    o.set_index(4);
    assert_eq!(o.index(), 4);
    let fixed = Object::new(2, 0, 0, 0, 0, Floor::Id(0));
    assert!(!fixed.is_pushable());
    assert_eq!(Object::empty().index(), usize::MAX);
}

#[test]
fn path_draws_up_to_its_limit() {
    let points = vec![WorldVec { x: 0, z: 0 }, WorldVec { x: 1, z: 0 }, WorldVec { x: 2, z: 0 }];
    let mut path = CharacterPath::new(points, 1, 0, Floor::Id(0));
    assert_eq!(path.frames(), 3);
    assert_eq!(path.initial_segment().len(), 3);
    path.limit = 2;
    assert_eq!(path.initial_segment(), &[WorldVec { x: 0, z: 0 }, WorldVec { x: 1, z: 0 }]);
}

#[test]
fn walking_player_turns_and_animates() {
    let mut c = Character::new(1, 0, 200, 0, 0, 0, 100, 100, 1000, Floor::Id(0), WorldVec { x: 0, z: 0 });
    c.state = [1, 1, 0, 0];
    let mut inputs = InputState::from_flags(0);
    inputs.is_right_pressed = true;
    let mut cursor = AnimationCursor::empty();
    cursor.step(&mut c, &inputs);
    assert_eq!(c.angle, 1000 + 0x28);
    assert_eq!(cursor.animation_id, Some(AnimationId::Weapon(0)));
    assert_eq!(cursor.frame_index, 0);
    cursor.step(&mut c, &inputs);
    assert_eq!(cursor.frame_index, 1);
    inputs.is_left_pressed = true;
    cursor.step(&mut c, &inputs);
    assert_eq!(c.angle, 1000 + 2 * 0x28);

    let speeds = [WorldVec3::new(10, 0, 5), WorldVec3::new(25, 3, 9)];
    assert_eq!(frame_velocity(&speeds, 0), WorldVec { x: 10, z: 5 });
    assert_eq!(frame_velocity(&speeds, 1), WorldVec { x: 15, z: 4 });
}

#[test]
fn collision_clone_moves_by_the_velocity() {
    let mut c = character(1, (100, 0, 100), vec![Some(body(110, -50, 90, 100, 200)), None]);
    c.set_prev_pos(WorldVec3::new(0, 0, 0));
    let moved = c.clone_for_collision(WorldVec3::new(30, 0, -20));
    assert_eq!(moved.center, WorldVec3::new(30, 0, -20));
    assert_eq!(moved.parts[0].unwrap().pos, WorldVec3::new(40, -50, -30));
    assert_eq!(moved.parts[1], None);
    assert_eq!(moved.prev_center, WorldVec3::new(0, 0, 0));
    let same = c.copy();
    assert_eq!(same.parts, c.parts);
    assert_eq!(same.center, c.center);
}
