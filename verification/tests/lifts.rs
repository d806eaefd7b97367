use wired_script::abi::LiftError;
use wired_script::input::{
    HandSide, InputAction, InputData, INPUT_EVENT_AREA, lift_input_event,
};
use wired_script::math::{
    Quat, Transform, Vec3, lift_quat, lift_transform, lift_vec2, lift_vec3, lower_transform,
};
use wired_script::physics::{Shape, ShapeCylinder, lower_shape};
use wired_script::player::{Player, lift_players, lift_skeleton};
use wired_script::scene::{
    Asset, Composition, Document, find_named, lift_asset, lift_color, lower_asset,
};
use wired_script::shapes::{SphereIco, SphereKind, SphereUv, lift_sphere_kind, lower_sphere_kind};

fn put_u32(mem: &mut [u8], at: usize, v: u32) {
    mem[at..at + 4].copy_from_slice(&v.to_le_bytes());
}

fn put_f32(mem: &mut [u8], at: usize, v: f32) {
    put_u32(mem, at, v.to_bits());
}

#[test]
fn sphere_kind_lifts_each_case() {
    assert_eq!(lift_sphere_kind(&[0, 4, 9]), Ok(SphereKind::Ico(SphereIco { subdivisions: 4 })));
    assert_eq!(lift_sphere_kind(&[1, 32, 16]), Ok(SphereKind::Uv(SphereUv { sectors: 32, stacks: 16 })));
    assert_eq!(lift_sphere_kind(&[0, 1]), Err(LiftError::OutOfBounds));
}

#[test]
fn sphere_kind_lowers_to_tag_and_fields() {
    assert_eq!(lower_sphere_kind(SphereKind::Ico(SphereIco { subdivisions: 5 })), (0, 5, 0));
    assert_eq!(lower_sphere_kind(SphereKind::Uv(SphereUv { sectors: 200, stacks: 7 })), (1, 200, 7));
}

#[test]
fn sphere_kind_round_trips_through_the_area() {
    for kind in [
        SphereKind::Ico(SphereIco { subdivisions: 255 }),
        SphereKind::Uv(SphereUv { sectors: 3, stacks: 250 }),
    ] {
        let (a, b, c) = lower_sphere_kind(kind);
        assert_eq!(lift_sphere_kind(&[a as u8, b as u8, c as u8]), Ok(kind));
    }
}

fn sample_transform() -> Transform {
    Transform {
        rotation: Quat { x: 0.0f32.to_bits(), y: 0.5f32.to_bits(), z: (-0.5f32).to_bits(), w: 1.0f32.to_bits() },
        scale: Vec3 { x: 1.0f32.to_bits(), y: 2.0f32.to_bits(), z: 3.0f32.to_bits() },
        translation: Vec3 { x: 4.0f32.to_bits(), y: 5.0f32.to_bits(), z: 6.0f32.to_bits() },
    }
}

#[test]
fn transforms_lift_rotation_scale_translation() {
    let mut area = vec![0u8; 40];
    let values = [0.0f32, 0.5, -0.5, 1.0, 1.0, 2.0, 3.0, 4.0, 5.0, 6.0];
    for (i, v) in values.iter().enumerate() {
        put_f32(&mut area, 4 * i, *v);
    }
    assert_eq!(lift_transform(&area), Ok(sample_transform()));
    assert_eq!(lift_transform(&area[..39]), Err(LiftError::OutOfBounds));
}

#[test]
fn transforms_round_trip_through_their_parameters() {
    let t = sample_transform();
    let params = lower_transform(t);
    assert_eq!(params[4], 1.0f32.to_bits());
    assert_eq!(params[9], 6.0f32.to_bits());
    let mut area = vec![0u8; 40];
    for (i, p) in params.iter().enumerate() {
        put_u32(&mut area, 4 * i, *p);
    }
    assert_eq!(lift_transform(&area), Ok(t));
}

#[test]
fn shapes_lower_with_zero_padding() {
    let v = Vec3 { x: 1, y: 2, z: 3 };
    assert_eq!(lower_shape(Shape::Cuboid(v)), (0, 1, 2, 3));
    assert_eq!(lower_shape(Shape::Cylinder(ShapeCylinder { height: 9, radius: 8 })), (1, 9, 8, 0));
    assert_eq!(lower_shape(Shape::Sphere(0.5f32.to_bits())), (2, 0.5f32.to_bits(), 0, 0));
}

fn ray_area() -> Vec<u8> {
    let mut area = vec![0u8; INPUT_EVENT_AREA];
    area[0] = 1;
    area[8..16].copy_from_slice(&0x0102_0304_0506_0708u64.to_le_bytes());
    area[16] = 1;
    area[20] = 1;
    for (i, v) in [0.1f32, 0.2, 0.3, 0.9, 7.0, 8.0, 9.0].iter().enumerate() {
        put_f32(&mut area, 24 + 4 * i, *v);
    }
    area
}

#[test]
fn input_event_with_a_ray() {
    let event = lift_input_event(&ray_area()).unwrap().unwrap();
    assert_eq!(event.id, 0x0102_0304_0506_0708);
    assert_eq!(event.action, InputAction::Hover);
    match event.data {
        InputData::Ray(ray) => {
            assert_eq!(f32::from_bits(ray.orientation.w), 0.9);
            assert_eq!(f32::from_bits(ray.origin.x), 7.0);
            assert_eq!(f32::from_bits(ray.origin.z), 9.0);
        },
        InputData::Hand(_) => panic!("expected a ray"),
    }
}

#[test]
fn input_event_with_a_hand() {
    let mut area = vec![0u8; INPUT_EVENT_AREA];
    area[0] = 1;
    area[16] = 0;
    area[20] = 0;
    area[24] = 1;
    put_f32(&mut area, 28, 1.5);
    put_f32(&mut area, 28 + 32 + 28, 2.5);
    put_f32(&mut area, 540 + 96, 3.5);
    put_f32(&mut area, 668 + 12, 4.5);
    put_f32(&mut area, 700 + 28, 5.5);
    area[732] = 1;
    put_f32(&mut area, 736 + 8, 6.5);
    let event = lift_input_event(&area).unwrap().unwrap();
    assert_eq!(event.action, InputAction::Collision);
    match event.data {
        InputData::Hand(hand) => {
            assert_eq!(hand.side, HandSide::Right);
            assert_eq!(f32::from_bits(hand.thumb.tip.translation.x), 1.5);
            assert_eq!(f32::from_bits(hand.thumb.distal.radius), 2.5);
            assert_eq!(f32::from_bits(hand.little.metacarpal.translation.x), 3.5);
            assert_eq!(f32::from_bits(hand.palm.rotation.x), 4.5);
            assert_eq!(f32::from_bits(hand.wrist.radius), 5.5);
            assert_eq!(f32::from_bits(hand.elbow.unwrap().translation.z), 6.5);
        },
        InputData::Ray(_) => panic!("expected a hand"),
    }
    area[732] = 0;
    match lift_input_event(&area).unwrap().unwrap().data {
        InputData::Hand(hand) => assert!(hand.elbow.is_none()),
        InputData::Ray(_) => panic!("expected a hand"),
    }
}

#[test]
fn input_event_absent_or_short() {
    let mut area = ray_area();
    area[0] = 0;
    assert_eq!(lift_input_event(&area), Ok(None));
    assert_eq!(lift_input_event(&ray_area()[..767]), Err(LiftError::OutOfBounds));
}

#[test]
fn skeleton_takes_twenty_handles_in_order() {
    let mut area = vec![0u8; 80];
    for i in 0..20u32 {
        put_u32(&mut area, 4 * i as usize, 100 + i);
    }
    let s = lift_skeleton(&area).unwrap();
    assert_eq!(s.hips.handle(), 100);
    assert_eq!(s.head.handle(), 105);
    assert_eq!(s.left_hand.handle(), 109);
    assert_eq!(s.right_hand.handle(), 113);
    assert_eq!(s.right_foot.handle(), 119);
    assert!(matches!(lift_skeleton(&area[..79]), Err(LiftError::OutOfBounds)));
}

#[test]
fn players_are_a_list_of_handles() {
    let mut area = vec![0u8; 16];
    put_u32(&mut area, 0, 8);
    put_u32(&mut area, 4, 2);
    put_u32(&mut area, 8, 41);
    put_u32(&mut area, 12, 42);
    let players: Vec<Player> = lift_players(&area).unwrap();
    assert_eq!(players.iter().map(|p| p.handle()).collect::<Vec<_>>(), vec![41, 42]);
}

#[test]
fn colors_lift_four_channels() {
    let mut area = vec![0u8; 16];
    for (i, v) in [1.0f32, 0.5, 0.25, 0.75].iter().enumerate() {
        put_f32(&mut area, 4 * i, *v);
    }
    let c = lift_color(&area).unwrap();
    assert_eq!(f32::from_bits(c.g), 0.5);
    assert_eq!(f32::from_bits(c.a), 0.75);
    assert_eq!(lift_color(&area[..12]), Err(LiftError::OutOfBounds));
}

#[test]
fn assets_lift_option_case_and_handle() {
    let mut area = vec![0u8; 12];
    area[0] = 1;
    area[4] = 0;
    put_u32(&mut area, 8, 21);
    match lift_asset(&area).unwrap() {
        Some(Asset::Composition(c)) => assert_eq!(c.handle(), 21),
        _ => panic!("expected a composition"),
    }
    area[4] = 1;
    match lift_asset(&area).unwrap() {
        Some(Asset::Document(d)) => assert_eq!(d.handle(), 21),
        _ => panic!("expected a document"),
    }
    area[0] = 0;
    assert!(matches!(lift_asset(&area), Ok(None)));
    assert!(matches!(lift_asset(&area[..11]), Err(LiftError::OutOfBounds)));
}

#[test]
fn assets_lower_and_hand_over_their_handle() {
    assert_eq!(lower_asset(None), (0, 0, 0));
    assert_eq!(lower_asset(Some(Asset::Composition(Composition::from_handle(5)))), (1, 0, 5));
    assert_eq!(lower_asset(Some(Asset::Document(Document::from_handle(6)))), (1, 1, 6));
    let (tag, case, handle) = lower_asset(Some(Asset::Document(Document::from_handle(77))));
    let mut area = vec![0u8; 12];
    area[0] = tag as u8;
    area[4] = case as u8;
    put_u32(&mut area, 8, handle as u32);
    match lift_asset(&area).unwrap() {
        Some(Asset::Document(d)) => assert_eq!(d.handle(), 77),
        _ => panic!("expected the document back"),
    }
}

#[test]
fn names_are_found_first_match_first() {
    let names = vec![None, Some("core".to_string()), Some("ground".to_string()), Some("ground".to_string())];
    assert_eq!(find_named(&names, &"ground".to_string()), Some(2));
    assert_eq!(find_named(&names, &"core".to_string()), Some(1));
    assert_eq!(find_named(&names, &"sky".to_string()), None);
    assert_eq!(find_named(&Vec::new(), &"core".to_string()), None);
}

#[test]
fn vectors_and_quaternions_lift_from_their_areas() {
    let mut area = vec![0u8; 16];
    for (i, v) in [1.5f32, -2.0, 0.25, 8.0].iter().enumerate() {
        put_f32(&mut area, 4 * i, *v);
    }
    let v2 = lift_vec2(&area).unwrap();
    assert_eq!((f32::from_bits(v2.x), f32::from_bits(v2.y)), (1.5, -2.0));
    let v3 = lift_vec3(&area).unwrap();
    assert_eq!(f32::from_bits(v3.z), 0.25);
    let q = lift_quat(&area).unwrap();
    assert_eq!(f32::from_bits(q.w), 8.0);
    assert_eq!(lift_vec2(&area[..7]), Err(LiftError::OutOfBounds));
    assert_eq!(lift_vec3(&area[..11]), Err(LiftError::OutOfBounds));
    assert_eq!(lift_quat(&area[..15]), Err(LiftError::OutOfBounds));
}
