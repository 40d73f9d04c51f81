use re2line::rdt::{CollisionShape, Rdt, RdtError};

fn rdt_bytes(count: u32, colliders: &[(i16, i16, u16, u16, u32, u32)]) -> Vec<u8> {
    let mut b = vec![0u8; 100];
    b[32..36].copy_from_slice(&100u32.to_le_bytes());
    b.extend_from_slice(&(-5i16).to_le_bytes());
    b.extend_from_slice(&7i16.to_le_bytes());
    b.extend_from_slice(&count.to_le_bytes());
    b.extend_from_slice(&(-100i32).to_le_bytes());
    b.extend_from_slice(&0u32.to_le_bytes());
    for &(x, z, w, h, packed, floor) in colliders {
        b.extend_from_slice(&x.to_le_bytes());
        b.extend_from_slice(&z.to_le_bytes());
        b.extend_from_slice(&w.to_le_bytes());
        b.extend_from_slice(&h.to_le_bytes());
        b.extend_from_slice(&packed.to_le_bytes());
        b.extend_from_slice(&floor.to_le_bytes());
    }
    b
}

#[test]
fn reads_collision_section() {
    let bytes = rdt_bytes(3, &[(10, -20, 30, 40, 0x15, 1), (1, 2, 3, 4, 7, 0)]);
    let rdt = Rdt::read(&bytes).unwrap();
    assert_eq!(rdt.get_center(), (-5, 7));
    assert_eq!(rdt.collision.ceiling, -100);
    assert_eq!(rdt.collision.colliders.len(), 2);
    assert_eq!(rdt.collision.colliders[0].z, -20);
    let shaped = rdt.get_colliders();
    // the rounded rectangle is left out
    assert_eq!(shaped.len(), 1);
    assert_eq!(shaped[0].0, CollisionShape::Diamond);
    assert_eq!(shaped[0].1.w, 30);
}

#[test]
fn shape_codes() {
    assert_eq!(CollisionShape::from_code(0), Some(CollisionShape::Rectangle));
    assert_eq!(CollisionShape::from_code(12), Some(CollisionShape::Rectangle));
    assert_eq!(CollisionShape::from_code(2), Some(CollisionShape::TriangleTopLeft));
    assert_eq!(CollisionShape::from_code(8), Some(CollisionShape::RoundedRectangle));
    assert_eq!(CollisionShape::from_code(16), None);
}

#[test]
fn refuses_short_files() {
    assert_eq!(Rdt::read(&[0u8; 99]).unwrap_err(), RdtError::Header);
    let mut far = vec![0u8; 100];
    far[32..36].copy_from_slice(&200u32.to_le_bytes());
    assert_eq!(Rdt::read(&far).unwrap_err(), RdtError::Collision);
    // no entries at all, not even the dummy one
    assert_eq!(Rdt::read(&rdt_bytes(0, &[])).unwrap_err(), RdtError::Collision);
    // more colliders claimed than the file holds
    assert_eq!(Rdt::read(&rdt_bytes(3, &[(0, 0, 1, 1, 0, 0)])).unwrap_err(), RdtError::Collision);
    // only the dummy entry
    assert!(Rdt::read(&rdt_bytes(1, &[])).unwrap().collision.colliders.is_empty());
}
