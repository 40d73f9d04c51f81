use re2line::aot::{aot_names, connecting_rooms, script_entities, to_entity, AotHeader, AotInstruction, AotQuad, AotRect, DoorTarget, Entity, EntityForm, ItemContents, TriggerFlags};
use re2line::collision::SpecialRectType;
use re2line::rdt::{get_floors, FloorRecord};
use re2line::collision::{CapsuleType, Collider, PointTest, RectCollider};
use re2line::room::RoomId;
use re2line::world::{Floor, ObjectType, SceType, WorldVec};

fn v(x: i32, z: i32) -> WorldVec {
    WorldVec { x, z }
}

fn player_flags() -> TriggerFlags {
    TriggerFlags {
        by_player: true,
        by_ally: false,
        by_npc: false,
        by_object: false,
        on_enter: false,
        on_action: true,
        type_triggers: true,
    }
}

fn rect(x: i32, z: i32) -> Collider {
    Collider::Rect(RectCollider::new(x, z, 100, 100, Floor::Id(0), CapsuleType::NoCapsule))
}

fn door(id: u8, stage: u8, room: u8) -> Entity {
    let form = EntityForm::Door {
        next_pos_x: 0,
        next_pos_y: 0,
        next_pos_z: 0,
        next_cdir_y: 0,
        next_stage: stage,
        next_room: room,
        next_n_floor: 0,
    };
    Entity::new(form, rect(0, 0), 0, id, 1, player_flags())
}

fn item(id: u8) -> Entity {
    let form = EntityForm::Item { i_item: 1, n_item: 1, flag: 0, md1: 0, action: 0 };
    Entity::new(form, rect(0, 0), 0, id, 2, player_flags())
}

fn other(id: u8, sce: u8) -> Entity {
    Entity::new(EntityForm::Other, rect(0, 0), 0, id, sce, player_flags())
}

#[test]
fn entity_kinds() {
    assert_eq!(door(0, 1, 2).object_type(), ObjectType::Door);
    assert_eq!(item(0).sce(), SceType::Item);
    assert_eq!(other(0, 6).object_type(), ObjectType::Event);
    assert_eq!(other(0, 99).sce(), SceType::Unknown);
    assert_eq!(door(3, 1, 2).floor(), Floor::Id(0));
}

#[test]
fn trigger_needs_kind_action_point_and_floor() {
    let d = door(0, 1, 2);
    assert!(d.can_object_type_trigger(ObjectType::Player));
    assert!(!d.can_object_type_trigger(ObjectType::Enemy));
    assert!(!d.can_object_type_trigger(ObjectType::Door));
    // the interaction point is inside, the action button is pressed
    assert_eq!(d.is_triggered(ObjectType::Player, v(-50, -50), v(10, 10), Floor::Id(0), true), PointTest::Decided(true));
    // no action
    assert_eq!(d.is_triggered(ObjectType::Player, v(-50, -50), v(10, 10), Floor::Id(0), false), PointTest::Decided(false));
    // an enemy cannot
    assert_eq!(d.is_triggered(ObjectType::Enemy, v(10, 10), v(10, 10), Floor::Id(0), true), PointTest::Decided(false));
    // another floor
    assert_eq!(d.is_triggered(ObjectType::Player, v(10, 10), v(10, 10), Floor::Id(1), true), PointTest::Decided(false));
    // the interaction point is outside
    assert_eq!(d.is_triggered(ObjectType::Player, v(10, 10), v(500, 10), Floor::Id(0), true), PointTest::Decided(false));
}

#[test]
fn trigger_on_enter_uses_centre() {
    let mut flags = player_flags();
    flags.on_enter = true;
    flags.on_action = false;
    let e = Entity::new(EntityForm::Other, rect(0, 0), 0, 0, 0, flags);
    assert_eq!(e.is_triggered(ObjectType::Player, v(10, 10), v(500, 500), Floor::Id(0), false), PointTest::Decided(true));
    assert_eq!(e.is_triggered(ObjectType::Player, v(500, 500), v(10, 10), Floor::Id(0), false), PointTest::Decided(false));
    flags.type_triggers = false;
    let e = Entity::new(EntityForm::Other, rect(0, 0), 0, 0, 0, flags);
    assert_eq!(e.is_triggered(ObjectType::Player, v(10, 10), v(10, 10), Floor::Id(0), false), PointTest::Decided(false));
}

#[test]
fn rooms_through_doors() {
    let this_room = RoomId::new(1, 2, 1);
    let entities = vec![door(0, 1, 3), item(1), door(2, 1, 2), door(3, 1, 3), door(4, 0, 5)];
    let rooms = connecting_rooms(Some(this_room), &entities);
    assert_eq!(rooms, vec![RoomId::new(1, 3, 1), RoomId::new(0, 5, 1)]);
    assert!(connecting_rooms(None, &entities).is_empty());
}

#[test]
fn names_by_kind_and_number() {
    let entities = vec![door(0, 1, 3), item(1), other(2, 4), door(3, 1, 2), other(40, 4), other(5, 3), item(1)];
    let names = aot_names(&entities);
    assert_eq!(names.len(), 32);
    assert_eq!(names[0].as_deref(), Some("#0 Door 0"));
    // the later entity with the same number names it
    assert_eq!(names[1].as_deref(), Some("#1 Item 1"));
    assert_eq!(names[2].as_deref(), Some("#2 AOT 0"));
    assert_eq!(names[3].as_deref(), Some("#3 Door 1"));
    // number 40 is skipped and not counted
    assert_eq!(names[5].as_deref(), Some("#5 AOT 1"));
    assert_eq!(names[4], None);
    assert_eq!(names[31], None);
}

fn header(aot: u8, sce: u8, n_floor: u8) -> AotHeader {
    AotHeader { aot, sce, triggers: player_flags(), n_floor }
}

#[test]
fn script_instructions_set_aots() {
    let rect = AotRect { x: -1000, z: 2000, w: 1500, h: 800 };
    let door = DoorTarget { next_pos_x: 1, next_pos_y: 2, next_pos_z: 3, next_cdir_y: 4, next_stage: 0, next_room: 5, next_nfloor: 0 };
    let e = to_entity(&AotInstruction::DoorAotSet(header(3, 1, 2), rect, door)).unwrap();
    assert_eq!(e.id, 3);
    assert_eq!(e.floor, Floor::Id(2));
    assert_eq!(e.form, EntityForm::Door { next_pos_x: 1, next_pos_y: 2, next_pos_z: 3, next_cdir_y: 4, next_stage: 0, next_room: 5, next_n_floor: 0 });
    match e.collider {
        Collider::Rect(r) => {
            assert_eq!(r.pos, v(-1000, 2000));
            assert_eq!(r.size, v(1500, 800));
            assert_eq!(r.floor, Floor::Aot(2));
            assert_eq!(r.capsule_type, CapsuleType::NoCapsule);
        }
        _ => panic!("a door set by rectangle is a rectangle"),
    }

    let quad = AotQuad { x0: 0, z0: 0, x1: 100, z1: 0, x2: 100, z2: -100, x3: 0, z3: -100 };
    let contents = ItemContents { i_item: 7, n_item: 15, flag: 3, md1: 1, action: 2 };
    let item = to_entity(&AotInstruction::ItemAotSet4p(header(4, 2, 0), quad, contents)).unwrap();
    assert_eq!(item.form, EntityForm::Item { i_item: 7, n_item: 15, flag: 3, md1: 1, action: 2 });
    match item.collider {
        Collider::Quad(q) => {
            assert_eq!(q.p3, v(100, -100));
            assert_eq!(q.floor, Floor::Aot(0));
        }
        _ => panic!("a four-cornered AOT is a quad"),
    }
    assert!(to_entity(&AotInstruction::Other).is_none());

    let script = vec![
        AotInstruction::Other,
        AotInstruction::AotSet(header(1, 3, 0), rect),
        AotInstruction::Other,
        AotInstruction::ItemAotSet2(header(2, 2, 0), rect, contents),
    ];
    let entities = script_entities(&script);
    assert_eq!(entities.len(), 2);
    assert_eq!(entities[0].id, 1);
    assert_eq!(entities[0].form, EntityForm::Other);
    assert_eq!(entities[1].id, 2);
}

#[test]
fn floor_records_become_floor_rectangles() {
    let floors = get_floors(&vec![
        FloorRecord { x: 100, z: 200, width: 300, height: 400, level: 1 },
        FloorRecord { x: -5, z: 0, width: 10, height: 10, level: 0x102 },
    ]);
    assert_eq!(floors.len(), 2);
    match floors[1] {
        Collider::Rect(r) => {
            assert_eq!(r.pos, v(-5, 0));
            assert_eq!(r.special_rect_type, SpecialRectType::Floor);
            assert_eq!(r.floor, Floor::Id(2));
        }
        _ => panic!("a floor is a rectangle"),
    }
}
