use wired_script::abi::{
    LiftError, list_buffer, lower_option_resource, lift_handle, lift_handles, lift_option_resource, lift_option_string, lift_option_tag,
    lift_resource_list, lift_string, load_u16, load_u32, load_u64, load_u8, read_u16, read_u32,
    read_u64,
};
use wired_script::layout::{Alignment, Container, Grid, alignment_grid, get_alignment};
use wired_script::log::LogLevel;
use wired_script::physics::RigidBodyType;
use wired_script::rt::{AsI32, INVALID_HANDLE, Resource, as_i32, bool_lift, bool_lower};
use wired_script::scene::Node;

fn put_u32(mem: &mut Vec<u8>, at: usize, v: u32) {
    mem[at..at + 4].copy_from_slice(&v.to_le_bytes());
}

#[test]
fn resource_take_handle_leaves_nothing_owned() {
    let mut r = Resource::from_handle(7);
    assert_eq!(r.handle(), 7);
    assert_eq!(r.drop_handle(), Some(7));
    assert_eq!(r.take_handle(), 7);
    assert_eq!(r.handle(), INVALID_HANDLE);
    assert_eq!(r.drop_handle(), None);
    assert_eq!(r.take_handle(), INVALID_HANDLE);
}

#[test]
fn typed_resources_hand_over_their_handles() {
    let mut c = Container::from_handle(3);
    assert_eq!(c.handle(), 3);
    assert_eq!(c.take_handle(), 3);
    assert_eq!(c.handle(), u32::MAX);
    let mut g = Grid::from_handle(0);
    assert_eq!(g.take_handle(), 0);
    assert_eq!(g.take_handle(), u32::MAX);
}

#[test]
fn as_i32_keeps_bits_and_values() {
    assert_eq!(as_i32(u32::MAX), -1);
    assert_eq!(as_i32(0x8000_0000u32), i32::MIN);
    assert_eq!(as_i32(200u8), 200);
    assert_eq!(as_i32(-5i8), -5);
    assert_eq!(as_i32(65535u16), 65535);
    assert_eq!(as_i32(-300i16), -300);
    assert_eq!(as_i32(42i32), 42);
    assert_eq!(as_i32('A'), 65);
    assert_eq!(as_i32(&7u32), 7);
    assert_eq!(5usize.as_i32(), 5);
    assert_eq!(as_i32(u32::MAX) as u32, u32::MAX);
}

#[test]
fn bool_lift_reads_zero_and_one() {
    assert!(!bool_lift(0));
    assert!(bool_lift(1));
}

#[test]
fn loads_are_little_endian_and_bounded() {
    let mem = vec![0x01, 0x02, 0x03, 0x04, 0x05, 0x06, 0x07, 0x08, 0x09];
    assert_eq!(load_u8(&mem, 0, 8), Ok(0x09));
    assert_eq!(load_u8(&mem, 9, 0), Err(LiftError::OutOfBounds));
    assert_eq!(load_u16(&mem, 1, 0), Ok(0x0302));
    assert_eq!(load_u16(&mem, 8, 0), Err(LiftError::OutOfBounds));
    assert_eq!(load_u32(&mem, 0, 0), Ok(0x0403_0201));
    assert_eq!(load_u32(&mem, 4, 2), Err(LiftError::OutOfBounds));
    assert_eq!(load_u64(&mem, 1, 0), Ok(0x0908_0706_0504_0302));
    assert_eq!(load_u64(&mem, 2, 0), Err(LiftError::OutOfBounds));
    assert_eq!(load_u32(&mem, usize::MAX, 2), Err(LiftError::OutOfBounds));
    assert_eq!(read_u16(&mem, 0), 0x0201);
    assert_eq!(read_u32(&mem, 5), 0x0908_0706);
    assert_eq!(read_u64(&mem, 0), 0x0807_0605_0403_0201);
}

#[test]
fn handles_refuse_the_reserved_value() {
    let mut mem = vec![0u8; 8];
    put_u32(&mut mem, 0, 12);
    put_u32(&mut mem, 4, u32::MAX);
    assert_eq!(lift_handle(&mem, 0, 0), Ok(12));
    assert_eq!(lift_handle(&mem, 0, 4), Err(LiftError::InvalidHandle));
    assert_eq!(lift_handle(&mem, 6, 0), Err(LiftError::OutOfBounds));
}

#[test]
fn option_tags_are_zero_or_one() {
    let mem = vec![0u8, 1, 2];
    assert_eq!(lift_option_tag(&mem, 0, 0), Ok(false));
    assert_eq!(lift_option_tag(&mem, 1, 0), Ok(true));
    assert_eq!(lift_option_tag(&mem, 0, 2), Err(LiftError::InvalidDiscriminant));
}

#[test]
fn option_resource_lifts_tag_then_handle() {
    let mut mem = vec![0u8; 8];
    mem[0] = 1;
    put_u32(&mut mem, 4, 99);
    let node: Option<Node> = lift_option_resource(&mem, 0).unwrap();
    assert_eq!(node.map(|n| n.handle()), Some(99));
    mem[0] = 0;
    let none: Option<Node> = lift_option_resource(&mem, 0).unwrap();
    assert!(none.is_none());
    mem[0] = 1;
    assert!(matches!(lift_option_resource::<Node>(&mem[..6], 0), Err(LiftError::OutOfBounds)));
}

#[test]
fn resource_lists_follow_pointer_and_length() {
    let mut mem = vec![0u8; 32];
    put_u32(&mut mem, 0, 16);
    put_u32(&mut mem, 4, 3);
    put_u32(&mut mem, 16, 5);
    put_u32(&mut mem, 20, 6);
    put_u32(&mut mem, 24, 7);
    let nodes: Vec<Node> = lift_resource_list(&mem, 0).unwrap();
    let handles: Vec<u32> = nodes.iter().map(|n| n.handle()).collect();
    assert_eq!(handles, vec![5, 6, 7]);

    put_u32(&mut mem, 4, 0);
    assert!(lift_resource_list::<Node>(&mem, 0).unwrap().is_empty());

    put_u32(&mut mem, 4, 5);
    assert!(matches!(lift_resource_list::<Node>(&mem, 0), Err(LiftError::OutOfBounds)));

    put_u32(&mut mem, 4, 3);

    let direct: Vec<Node> = lift_handles(&mem, 16, 1).unwrap();
    assert_eq!(direct[0].handle(), 5);
}

#[test]
fn strings_are_pointer_length_and_utf8() {
    let mut mem = vec![0u8; 24];
    put_u32(&mut mem, 0, 16);
    put_u32(&mut mem, 4, 5);
    mem[16..21].copy_from_slice(b"hello");
    assert_eq!(lift_string(&mem, 0, 0), Ok("hello".to_string()));

    put_u32(&mut mem, 4, 0);
    assert_eq!(lift_string(&mem, 0, 0), Ok(String::new()));

    put_u32(&mut mem, 4, 9);
    assert_eq!(lift_string(&mem, 0, 0), Err(LiftError::OutOfBounds));

    put_u32(&mut mem, 4, 2);
    mem[16] = 0xff;
    assert_eq!(lift_string(&mem, 0, 0), Err(LiftError::InvalidUtf8));
}

#[test]
fn option_strings_read_tag_then_string() {
    let mut mem = vec![0u8; 20];
    mem[0] = 1;
    put_u32(&mut mem, 4, 16);
    put_u32(&mut mem, 8, 2);
    mem[16..18].copy_from_slice(b"ok");
    assert_eq!(lift_option_string(&mem, 0, 0), Ok(Some("ok".to_string())));
    mem[0] = 0;
    assert_eq!(lift_option_string(&mem, 0, 0), Ok(None));
    mem[0] = 7;
    assert_eq!(lift_option_string(&mem, 0, 0), Err(LiftError::InvalidDiscriminant));
}

#[test]
fn enums_lift_their_discriminants() {
    assert_eq!(Alignment::_lift(0), Alignment::Center);
    assert_eq!(Alignment::_lift(1), Alignment::End);
    assert_eq!(Alignment::_lift(2), Alignment::Start);
    assert_eq!(Alignment::Start.lower(), 2);
    assert_eq!(LogLevel::_lift(3), LogLevel::Error);
    assert_eq!(LogLevel::Warn.lower(), 2);
    assert_eq!(RigidBodyType::_lift(1), RigidBodyType::Fixed);
    assert_eq!(RigidBodyType::Kinematic.lower(), 2);
    for v in 0..3u8 {
        assert_eq!(Alignment::_lift(v).lower(), v);
        assert_eq!(RigidBodyType::_lift(v).lower(), v);
    }
    for v in 0..4u8 {
        assert_eq!(LogLevel::_lift(v).lower(), v);
    }
}

#[test]
fn alignment_follows_the_index() {
    assert_eq!(get_alignment(0), Alignment::Start);
    assert_eq!(get_alignment(1), Alignment::Center);
    assert_eq!(get_alignment(2), Alignment::End);
    assert_eq!(get_alignment(17), Alignment::End);
}

#[test]
fn optional_resources_lend_their_handle() {
    let node = Node::from_handle(31);
    assert_eq!(lower_option_resource(Some(&node)), (1, 31));
    assert_eq!(lower_option_resource::<Node>(None), (0, 0));
    assert_eq!(node.handle(), 31);
    let (tag, handle) = lower_option_resource(Some(&node));
    let mut mem = vec![0u8; 8];
    mem[0] = tag as u8;
    put_u32(&mut mem, 4, handle as u32);
    let back: Option<Node> = lift_option_resource(&mem, 0).unwrap();
    assert_eq!(back.map(|n| n.handle()), Some(31));
}

#[test]
fn alignment_grid_aligns_by_position() {
    let cells = alignment_grid();
    assert_eq!(cells.len(), 27);
    let c = cells[9 * 2 + 3 * 0 + 1];
    assert_eq!((c.x, c.y, c.z), (2, 0, 1));
    assert_eq!((c.align_x, c.align_y, c.align_z), (Alignment::End, Alignment::Start, Alignment::Center));
    assert_eq!(cells[0].align_x, Alignment::Start);
    assert_eq!(cells[26].align_z, Alignment::End);
}

#[test]
fn bools_lower_to_one_and_zero_and_read_back() {
    assert_eq!(bool_lower(true), 1);
    assert_eq!(bool_lower(false), 0);
    for b in [true, false] {
        assert_eq!(bool_lift(bool_lower(b) as u8), b);
    }
}

#[test]
fn list_buffers_are_freed_unless_empty() {
    assert_eq!(list_buffer(64, 3, 4), Some((64, 12)));
    assert_eq!(list_buffer(64, 0, 56), None);
    assert_eq!(list_buffer(8, u32::MAX, 56), Some((8, u32::MAX as u64 * 56)));
}

#[test]
fn lent_resources_keep_and_release_their_handle() {
    let collider = wired_script::physics::Collider::from_handle(44);
    assert_eq!(lower_option_resource(Some(&collider)), (1, 44));
    assert_eq!(collider.handle(), 44);
    assert_eq!(collider.drop_handle(), Some(44));
    let mut mesh = wired_script::scene::Mesh::from_handle(45);
    assert_eq!(mesh.drop_handle(), Some(45));
    assert_eq!(mesh.take_handle(), 45);
    assert_eq!(mesh.drop_handle(), None);
}
