use re2line::collision::{
    rect_clip_motion, rect_contains_point, CapsuleType, Collider, DetailLine, DiamondCollider, EllipseCollider, Motion,
    PointTest, QuadCollider, RectCollider, SpecialRectType, TriangleCollider, TriangleType,
};
use re2line::world::{Floor, ObjectType, WorldVec};

fn v(x: i32, z: i32) -> WorldVec {
    WorldVec { x, z }
}

#[test]
fn rect_contains_half_open_box() {
    let pos = v(0, 0);
    let size = v(100, 100);
    assert!(rect_contains_point(pos, size, v(50, 50)));
    assert!(rect_contains_point(pos, size, v(0, 0)));
    assert!(rect_contains_point(pos, size, v(99, 99)));
    assert!(!rect_contains_point(pos, size, v(100, 50)));
    assert!(!rect_contains_point(pos, size, v(50, 100)));
    assert!(!rect_contains_point(pos, size, v(-1, 0)));
    assert!(rect_contains_point(v(-500, 200), v(30, 10), v(-471, 209)));
    assert!(!rect_contains_point(v(-500, 200), v(30, 10), v(-470, 209)));
}

#[test]
fn rect_with_zero_extent_contains_nothing() {
    assert!(!rect_contains_point(v(0, 0), v(0, 100), v(0, 50)));
}

#[test]
fn clip_keeps_destination_outside() {
    let motion = Motion::new(v(-50, 50), v(200, 50), v(0, 0));
    assert_eq!(rect_clip_motion(v(0, 0), v(100, 100), &motion, 0), v(200, 50));
}

#[test]
fn clip_pushes_out_to_nearest_edge() {
    let motion = Motion::new(v(-50, 50), v(10, 50), v(0, 0));
    assert_eq!(rect_clip_motion(v(0, 0), v(100, 100), &motion, 0), v(-1, 50));
}

#[test]
fn clip_against_side_touched() {
    let motion = Motion::new(v(-1, 50), v(10, 50), v(0, 0));
    assert_eq!(rect_clip_motion(v(0, 0), v(100, 100), &motion, 0), v(-1, 50));
}

#[test]
fn clip_from_beyond_far_side() {
    // coming from below the rectangle: z is moved against the far side
    let motion = Motion::new(v(50, 130), v(50, 90), v(0, 0));
    assert_eq!(rect_clip_motion(v(0, 0), v(100, 100), &motion, 0), v(50, 101));
}

#[test]
fn destination_in_rect_grows_by_body() {
    let motion = Motion::new(v(0, 0), v(-5, 50), v(10, 10));
    assert!(motion.is_destination_in_rect(v(0, 0), v(100, 100)));
    let motion = Motion::new(v(0, 0), v(-25, 50), v(10, 10));
    assert!(!motion.is_destination_in_rect(v(0, 0), v(100, 100)));
}

#[test]
fn capsule_caps_use_circles() {
    let capsule = RectCollider::new(0, 0, 200, 100, Floor::Id(0), CapsuleType::Horizontal);
    assert_eq!(capsule.contains_point(v(10, 50)), PointTest::WithinRadius { offset: v(-40, 0), radius: 50 });
    assert_eq!(capsule.contains_point(v(180, 50)), PointTest::WithinRadius { offset: v(30, 0), radius: 50 });
    assert_eq!(capsule.contains_point(v(100, 50)), PointTest::Decided(true));
    assert!(capsule.contains_point(v(10, 50)).resolve(40));
    assert!(!capsule.contains_point(v(10, 50)).resolve(50));

    let vertical = RectCollider::new(0, 0, 100, 200, Floor::Id(0), CapsuleType::Vertical);
    assert_eq!(vertical.contains_point(v(50, 190)), PointTest::WithinRadius { offset: v(0, 40), radius: 50 });
}

#[test]
fn plain_rect_collider() {
    let rect = RectCollider::new(0, 0, 100, 100, Floor::Id(0), CapsuleType::NoCapsule);
    assert_eq!(rect.contains_point(v(20, 20)), PointTest::Decided(true));
    assert_eq!(rect.contains_point(v(120, 20)), PointTest::Decided(false));
    // special rectangles do not stop a body
    let ramp = rect.with_special_rect_type(SpecialRectType::Ramp);
    let motion = Motion::new(v(-50, 50), v(10, 50), v(0, 0));
    assert_eq!(ramp.clip_motion(&motion, 0), v(10, 50));
    assert_eq!(rect.clip_motion(&motion, 0), v(-1, 50));
}

#[test]
fn diamond_contains_inner_rhombus() {
    let diamond = DiamondCollider::new(0, 0, 100, 100, Floor::Id(0));
    assert!(diamond.contains_point(v(50, 50)));
    assert!(diamond.contains_point(v(70, 60)));
    assert!(!diamond.contains_point(v(90, 90)));
    assert!(diamond.contains_point(v(20, 40)));
    assert!(!diamond.contains_point(v(10, 40)));
    assert!(diamond.contains_point(v(20, 60)));
    assert!(!diamond.contains_point(v(5, 5)));
}

#[test]
fn triangle_contains_one_half() {
    let tri = TriangleCollider::new(0, 0, 100, 100, Floor::Id(0), TriangleType::TopLeft);
    assert!(tri.contains_point(v(10, 90)));
    assert!(!tri.contains_point(v(90, 10)));
    let tri = TriangleCollider::new(0, 0, 100, 100, Floor::Id(0), TriangleType::BottomRight);
    assert!(tri.contains_point(v(90, 10)));
    assert!(!tri.contains_point(v(10, 90)));
}

#[test]
fn quad_contains_between_edges() {
    let quad = QuadCollider::new(0, 0, 0, 100, 100, 100, 100, 0, Floor::Id(0));
    assert!(quad.contains_point(v(50, 50)));
    assert!(!quad.contains_point(v(150, 50)));
    assert!(!quad.contains_point(v(50, -10)));
}

#[test]
fn ellipse_tests_circle_of_half_width() {
    let ellipse = EllipseCollider::new(0, 0, 100, 60, Floor::Id(0));
    assert_eq!(ellipse.contains_point(v(60, 30)), PointTest::WithinRadius { offset: v(10, -20), radius: 50 });
}

#[test]
fn collider_names_and_kinds() {
    let floor_rect = Collider::Rect(
        RectCollider::new(0, 0, 10, 10, Floor::Id(1), CapsuleType::NoCapsule).with_special_rect_type(SpecialRectType::Floor),
    );
    assert_eq!(floor_rect.name(), "Floor");
    assert_eq!(floor_rect.object_type(), ObjectType::Floor);
    let capsule = Collider::Rect(RectCollider::new(0, 0, 10, 10, Floor::Id(1), CapsuleType::Vertical));
    assert_eq!(capsule.name(), "Capsule (vertical)");
    assert_eq!(capsule.object_type(), ObjectType::Collider);
    let quad = Collider::Quad(QuadCollider::new(0, 0, 0, 1, 1, 1, 1, 0, Floor::Id(2)));
    assert_eq!(quad.name(), "Quadrilateral");
    assert_eq!(quad.collision_mask(), 0xFFFF);
    assert_eq!(quad.floor(), Floor::Id(2));
}

#[test]
fn rect_details() {
    let rect = Collider::Rect(RectCollider::new(10, 20, 30, 40, Floor::Id(1), CapsuleType::NoCapsule).with_collision_mask(0x00F0));
    let groups = rect.details();
    assert_eq!(groups.len(), 3);
    assert_eq!(groups[0].label, "Type");
    assert!(matches!(groups[0].lines[0], DetailLine::Kind("Rectangle")));
    assert_eq!(groups[1].label, "Params");
    assert_eq!(groups[1].lines.len(), 6);
    assert!(matches!(groups[1].lines[2], DetailLine::Value("W", 30)));
    assert!(matches!(groups[1].lines[5], DetailLine::Collision(0x00F0)));
    assert_eq!(groups[2].label, "Calculated");
    assert!(matches!(groups[2].lines[0], DetailLine::Value("X2", 40)));
    assert!(matches!(groups[2].lines[3], DetailLine::Value("Z3", 60)));
}

#[test]
fn diamond_and_triangle_details() {
    let diamond = Collider::Diamond(DiamondCollider::new(0, 0, 100, 50, Floor::Id(0)));
    let groups = diamond.details();
    assert_eq!(groups[1].lines.len(), 5);
    assert!(matches!(groups[2].lines[0], DetailLine::Value("X1", 50)));
    assert!(matches!(groups[2].lines[3], DetailLine::Value("Z2", 25)));
    let tri = Collider::Triangle(TriangleCollider::new(0, 0, 100, 50, Floor::Id(0), TriangleType::TopRight));
    let groups = tri.details();
    assert!(matches!(groups[2].lines[0], DetailLine::Value("X1", 100)));
    assert!(matches!(groups[2].lines[1], DetailLine::Value("Z1", 50)));
    assert!(matches!(groups[2].lines[5], DetailLine::Value("Z3", 0)));
    let quad = Collider::Quad(QuadCollider::new(0, 0, 0, 1, 1, 1, 1, 0, Floor::Id(2)));
    assert_eq!(quad.details().len(), 2);
}

#[test]
fn detail_lines_as_text() {
    use_lines();
}

fn use_lines() {
    assert_eq!(re2line::collision::DetailLine::Collision(0x8000).to_text(), "Collision: 8000");
    assert_eq!(re2line::collision::DetailLine::Collision(0x1f).to_text(), "Collision: 001F");
    assert_eq!(re2line::collision::DetailLine::Value("X", -12).to_text(), "X: -12");
    assert_eq!(re2line::collision::DetailLine::Floor(re2line::world::Floor::Id(3)).to_text(), "Floor: 3");
    assert_eq!(re2line::collision::DetailLine::Kind("Rectangle").to_text(), "Rectangle");
}
