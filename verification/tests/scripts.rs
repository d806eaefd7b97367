use wired_script::abi::LiftError;
use wired_script::beacon::{
    BeaconState, EMIT_INTERVAL_MS, PULSE_TICKS, beacon_color_seeds, emit_due, find_beacon_id,
};
use wired_script::event::{BeaconReceptor, Event, EventTestStep, EventReceptor, event_test_step, event_matches};
use wired_script::home::document_hash;
use wired_script::kv::Counter;
use wired_script::property::{
    Property, PropertyFailure, check_created, check_created_count, check_created_id, check_removed,
};
use wired_script::vui::{
    Delivery, HiddenCount, PipCache, PipPlacement, PipShape, Planted, PointerAction, Throw,
    pip_runs, pip_visibility, plan_delivery, poll_grabs,
};
use std::cell::RefCell;
use wired_script::gltf_nodes::{NodeCheckFailure, check_count, children_contain, test_nodes};

const HASH_HEX: &str = "00FF10ab20cd30ef40123456789abcdef0123456789abcdef0123456789abcde";

#[test]
fn beacon_id_is_the_first_hex_name() {
    let names = vec![
        None,
        Some("core".to_string()),
        Some(HASH_HEX[..63].to_string()),
        Some(HASH_HEX.to_string()),
        Some("f".repeat(64)),
    ];
    let (i, id) = find_beacon_id(&names).unwrap();
    assert_eq!(i, 3);
    assert_eq!(id[0], 0x00);
    assert_eq!(id[1], 0xff);
    assert_eq!(id[2], 0x10);
    assert_eq!(id[3], 0xab);
    assert_eq!(id[31], 0xde);
    let bad = vec![Some(format!("{}g", &HASH_HEX[..63])), None];
    assert_eq!(find_beacon_id(&bad), None);
    assert_eq!(find_beacon_id(&Vec::new()), None);
}

#[test]
fn beacon_publishes_once_on_grab() {
    let mut s = BeaconState::new();
    assert!(!s.should_publish(false));
    assert!(s.should_publish(true));
    s.mark_published();
    assert!(!s.should_publish(true));
}

#[test]
fn beacon_pulse_wraps_and_redraws_on_change() {
    let mut s = BeaconState::new();
    assert_eq!(s.advance(), 1);
    for _ in 1..89 {
        s.advance();
    }
    assert_eq!(s.advance(), 0);
    assert!(s.update_pulse_step(6));
    assert!(!s.update_pulse_step(6));
    assert!(s.update_pulse_step(7));
    assert_eq!(PULSE_TICKS, 90);
}

#[test]
fn beacon_emits_every_three_seconds() {
    assert!(!emit_due(0));
    assert!(!emit_due(2999));
    assert!(emit_due(EMIT_INTERVAL_MS));
    assert!(emit_due(10_000));
}

#[test]
fn beacon_color_seeds_are_little_endian() {
    let mut id = [0u8; 32];
    id[0..8].copy_from_slice(&0x1122_3344_5566_7788u64.to_le_bytes());
    id[8..10].copy_from_slice(&0xabcdu16.to_le_bytes());
    id[10..12].copy_from_slice(&0x0102u16.to_le_bytes());
    assert_eq!(beacon_color_seeds(&id), (0x1122_3344_5566_7788, 0xabcd, 0x0102));
}

#[test]
fn home_hash_is_the_document_id() {
    let id: Vec<u8> = (0..32).collect();
    let h = document_hash(&id);
    assert_eq!(h.to_vec(), id);
}

#[test]
fn planted_bodies_are_reused_round_robin() {
    let mut pool = Planted::new(vec!["a", "b", "c"]);
    let got: Vec<Option<(usize, bool)>> = (0..7).map(|_| pool.plant()).collect();
    assert_eq!(
        got,
        vec![
            Some((0, false)),
            Some((1, false)),
            Some((2, false)),
            Some((0, true)),
            Some((1, true)),
            Some((2, true)),
            Some((0, true)),
        ]
    );
    assert_eq!(*pool.body(1), "b");
    let mut two = Planted::new(vec![1u8, 2]);
    assert_eq!(two.plant(), Some((0, false)));
    assert_eq!(two.plant(), Some((1, false)));
    assert_eq!(two.plant(), Some((0, true)));
    let mut empty: Planted<&str> = Planted::new(Vec::new());
    assert_eq!(empty.plant(), None);
}

#[test]
fn throws_give_up_after_eight_failures() {
    let mut t = Throw::new();
    let again: Vec<bool> = (0..8).map(|_| t.apply(false)).collect();
    assert_eq!(again, vec![true, true, true, true, true, true, true, false]);
    assert!(!t.apply(false));
    let mut ok = Throw::new();
    assert!(!ok.apply(true));
}

#[test]
fn hidden_count_writes_only_changes() {
    let mut c = HiddenCount::new();
    assert!(!c.update(0));
    assert!(c.update(3));
    assert!(!c.update(3));
    assert!(c.update(4));
    assert!(!c.update(0));
    assert!(c.update(4));
}

#[test]
fn grabs_keep_downs_and_ups_in_order() {
    let actions = vec![
        PointerAction::Other,
        PointerAction::GrabDown,
        PointerAction::Other,
        PointerAction::GrabUp,
        PointerAction::GrabDown,
    ];
    assert_eq!(poll_grabs(&actions), vec![true, false, true]);
    assert!(poll_grabs(&Vec::new()).is_empty());
}

#[test]
fn pips_split_into_group_and_plain_runs() {
    let shape = PipShape { count: 5, groups: 2, overflow: true, placement: PipPlacement::Inside };
    assert_eq!(pip_runs(shape), ((0, 2), (2, 3)));
    assert_eq!(pip_visibility(shape), (true, true, true));
    let leaves = PipShape { count: 3, groups: 0, overflow: false, placement: PipPlacement::Around };
    assert_eq!(pip_visibility(leaves), (false, true, false));
    let mut cache = PipCache::new();
    assert!(cache.update(shape));
    assert!(!cache.update(shape));
    assert!(cache.update(leaves));
}

#[test]
fn deliveries_move_or_mint() {
    assert_eq!(plan_delivery(true, true), Delivery::MovePlaced);
    assert_eq!(plan_delivery(false, true), Delivery::Mint { keep: true });
    assert_eq!(plan_delivery(false, false), Delivery::Mint { keep: false });
}

#[test]
fn beacon_receptor_hands_on_payloads() {
    let receptor = BeaconReceptor::new(EventReceptor::from_handle(4));
    assert_eq!(receptor.receptor().handle(), 4);
    let e = Event { channel: "unavi::beacon::id".to_string(), payload: vec![9, 8, 7] };
    assert_eq!(BeaconReceptor::payload(Some(e)), Some(vec![9, 8, 7]));
    assert_eq!(BeaconReceptor::payload(None), None);
}

#[test]
fn event_round_trip_check() {
    assert_eq!(event_test_step(0), EventTestStep::Emit);
    assert_eq!(event_test_step(1), EventTestStep::Check);
    assert_eq!(event_test_step(2), EventTestStep::Idle);
    let channel = "test:channel".to_string();
    let payload = vec![1u8, 2, 3];
    let good = Event { channel: channel.clone(), payload: payload.clone() };
    assert_eq!(event_matches(&good, &channel, &payload), (true, true));
    let bad = Event { channel: "other".to_string(), payload: vec![1, 2] };
    assert_eq!(event_matches(&bad, &channel, &payload), (false, false));
    let off = Event { channel: channel.clone(), payload: vec![1, 2, 4] };
    assert_eq!(event_matches(&off, &channel, &payload), (true, false));
}

#[test]
fn counter_saturates() {
    let mut c = Counter::default();
    c.tick();
    c.tick();
    assert_eq!(c.ticks, 2);
    let mut full = Counter { ticks: u64::MAX };
    full.tick();
    assert_eq!(full.ticks, u64::MAX);
}

struct Item(u32);

impl Property for Item {
    fn id(&self) -> u32 {
        self.0
    }
}

#[test]
fn property_checks_report_each_failure() {
    assert_eq!(check_created(&vec![Item(4)], &Item(4)), Ok(()));
    assert_eq!(check_created(&vec![], &Item(4)), Err(PropertyFailure::NotCreated { found: 0 }));
    assert_eq!(check_created(&vec![Item(1), Item(4)], &Item(4)), Err(PropertyFailure::NotCreated { found: 2 }));
    assert_eq!(check_created(&vec![Item(1)], &Item(4)), Err(PropertyFailure::WrongItem { found: 1, expected: 4 }));
    assert_eq!(check_removed(0), Ok(()));
    assert_eq!(check_removed(1), Err(PropertyFailure::NotRemoved { remaining: 1 }));
    assert_eq!(check_created_count(1), Ok(()));
    assert_eq!(check_created_count(3), Err(PropertyFailure::NotCreated { found: 3 }));
    assert_eq!(check_created_id(5, 5), Ok(()));
    assert_eq!(check_created_id(5, 6), Err(PropertyFailure::WrongItem { found: 5, expected: 6 }));
}

#[test]
fn property_test_drives_create_list_remove() {
    let store: RefCell<Vec<u32>> = RefCell::new(Vec::new());
    let next = RefCell::new(10u32);
    let r = wired_script::gltf_property::test_property(
        || store.borrow().iter().map(|i| Item(*i)).collect::<Vec<_>>(),
        || {
            let id = *next.borrow();
            *next.borrow_mut() += 1;
            store.borrow_mut().push(id);
            Item(id)
        },
        |item: Item| store.borrow_mut().retain(|i| *i != item.0),
    );
    assert_eq!(r, Ok(()));

    let leaky: RefCell<Vec<u32>> = RefCell::new(Vec::new());
    let r = wired_script::scene_property::test_property(
        || Item(1),
        |item: &Item| leaky.borrow_mut().push(item.0),
        || leaky.borrow().iter().map(|i| Item(*i)).collect::<Vec<_>>(),
        |_item: Item| {},
    );
    assert_eq!(r, Err(PropertyFailure::NotRemoved { remaining: 1 }));

    let r = wired_script::scene_property::test_property(
        || Item(1),
        |_item: &Item| {},
        || Vec::<Item>::new(),
        |_item: Item| {},
    );
    assert_eq!(r, Err(PropertyFailure::NotCreated { found: 0 }));

    let r = wired_script::gltf_property::test_property(
        || vec![Item(8)],
        || Item(9),
        |_item: Item| {},
    );
    assert_eq!(r, Err(PropertyFailure::WrongItem { found: 8, expected: 9 }));
    let _ = LiftError::OutOfBounds;
}

#[test]
fn node_counts_and_children() {
    assert_eq!(check_count(2, 2), Ok(()));
    assert_eq!(check_count(1, 2), Err(NodeCheckFailure::Count { found: 1, expected: 2 }));
    assert!(children_contain(&vec![3, 5, 8], 5));
    assert!(!children_contain(&vec![3, 5, 8], 4));
    assert!(!children_contain(&Vec::new(), 4));
}

/// A host's node store: ids, and each node's parent.
struct Tree {
    nodes: RefCell<Vec<(u32, Option<u32>)>>,
    next: RefCell<u32>,
}

impl Tree {
    fn new() -> Tree {
        Tree { nodes: RefCell::new(Vec::new()), next: RefCell::new(1) }
    }

    fn create(&self) -> Item {
        let id = *self.next.borrow();
        *self.next.borrow_mut() += 1;
        self.nodes.borrow_mut().push((id, None));
        Item(id)
    }

    fn set_parent(&self, child: u32, parent: Option<u32>) {
        for n in self.nodes.borrow_mut().iter_mut() {
            if n.0 == child {
                n.1 = parent;
            }
        }
    }

    fn children(&self, of: u32) -> Vec<Item> {
        self.nodes.borrow().iter().filter(|n| n.1 == Some(of)).map(|n| Item(n.0)).collect()
    }

    fn parent(&self, of: u32) -> Option<Item> {
        self.nodes.borrow().iter().find(|n| n.0 == of).and_then(|n| n.1).map(Item)
    }
}

#[test]
fn node_hierarchy_passes_on_a_correct_host() {
    let tree = Tree::new();
    let r = test_nodes(
        || tree.create(),
        || tree.nodes.borrow().iter().map(|n| Item(n.0)).collect::<Vec<_>>(),
        |n: Item| tree.nodes.borrow_mut().retain(|m| m.0 != n.0),
        |p: &Item, c: &Item| tree.set_parent(c.0, Some(p.0)),
        |p: &Item| tree.children(p.0),
        |c: &Item| tree.parent(c.0),
        |_p: &Item, c: &Item| tree.set_parent(c.0, None),
    );
    assert_eq!(r, Ok(()));
}

#[test]
fn node_hierarchy_reports_a_lost_child() {
    let tree = Tree::new();
    let r = test_nodes(
        || tree.create(),
        || tree.nodes.borrow().iter().map(|n| Item(n.0)).collect::<Vec<_>>(),
        |n: Item| tree.nodes.borrow_mut().retain(|m| m.0 != n.0),
        |_p: &Item, _c: &Item| {},
        |p: &Item| tree.children(p.0),
        |c: &Item| tree.parent(c.0),
        |_p: &Item, c: &Item| tree.set_parent(c.0, None),
    );
    assert_eq!(r, Err(NodeCheckFailure::MissingChild { child: 3 }));
}

#[test]
fn typed_resources_release_their_own_handle_once() {
    let mut c = EventReceptor::from_handle(12);
    assert_eq!(c.drop_handle(), Some(12));
    assert_eq!(c.take_handle(), 12);
    assert_eq!(c.drop_handle(), None);
}
