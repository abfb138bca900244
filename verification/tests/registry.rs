use seascan::creature::Creature;
use seascan::creature::Creatures;
use seascan::creature::PositionUpdate;
use seascan::geom::Vec2;

fn creature_at(id: usize, x: i64, y: i64, scanned: bool) -> Creature {
    let mut c = Creature::from_input(id, 0, 0);
    c.pos = Vec2 { x, y };
    c.scanned = scanned;
    c
}

#[test]
fn load_contiguous_from_base() {
    let records = vec![
        Creature::from_input(3, 1, 2),
        Creature::from_input(4, 0, 1),
        Creature::from_input(5, 2, 0),
    ];
    let reg = Creatures::from_input(records).unwrap();
    assert_eq!(reg.get(3).id, 3);
    assert_eq!(reg.get(4).id, 4);
    assert_eq!(reg.get(4).color, 0);
    assert_eq!(reg.get(4).kind, 1);
    assert_eq!(reg.get(5).id, 5);
    assert_eq!(reg.creatures[1].id, 4);
}

#[test]
fn load_rejects_non_contiguous() {
    let records = vec![Creature::from_input(3, 0, 0), Creature::from_input(5, 0, 0)];
    assert!(Creatures::from_input(records).is_none());
}

#[test]
fn load_rejects_descending() {
    let records = vec![Creature::from_input(5, 0, 0), Creature::from_input(4, 0, 0)];
    assert!(Creatures::from_input(records).is_none());
}

#[test]
fn load_accepts_empty_and_single() {
    assert!(Creatures::from_input(Vec::new()).is_some());
    assert!(Creatures::from_input(vec![Creature::from_input(9, 0, 0)]).is_some());
}

#[test]
fn position_update_by_offset() {
    let records = vec![Creature::from_input(10, 0, 0), Creature::from_input(11, 0, 0)];
    let mut reg = Creatures::from_input(records).unwrap();
    reg.update_creature_from_input(11, 7, 8, -1, -2);
    let c = reg.get(11);
    assert_eq!(c.pos, Vec2 { x: 7, y: 8 });
    assert_eq!(c.speed, Vec2 { x: -1, y: -2 });
    assert!(!c.scanned);
    assert_eq!(reg.get(10).pos, Vec2 { x: 0, y: 0 });
}

#[test]
fn batch_update_last_wins() {
    let records = vec![Creature::from_input(0, 0, 0), Creature::from_input(1, 0, 0)];
    let mut reg = Creatures::from_input(records).unwrap();
    let ups = vec![
        PositionUpdate { id: 0, x: 1, y: 1, vx: 0, vy: 0 },
        PositionUpdate { id: 1, x: 2, y: 2, vx: 3, vy: 3 },
        PositionUpdate { id: 0, x: 9, y: 9, vx: 4, vy: 4 },
    ];
    reg.update_from_input(&ups);
    assert_eq!(reg.get(0).pos, Vec2 { x: 9, y: 9 });
    assert_eq!(reg.get(0).speed, Vec2 { x: 4, y: 4 });
    assert_eq!(reg.get(1).pos, Vec2 { x: 2, y: 2 });
}

#[test]
fn mark_scanned_is_idempotent() {
    let records = vec![Creature::from_input(0, 0, 0), Creature::from_input(1, 0, 0)];
    let mut reg = Creatures::from_input(records).unwrap();
    reg.update_scanned_from_input(&vec![1, 1]);
    assert!(!reg.get(0).scanned);
    assert!(reg.get(1).scanned);
    reg.update_scanned_from_input(&vec![1]);
    assert!(reg.get(1).scanned);
}

#[test]
fn set_scanned_never_resets() {
    let mut c = creature_at(0, 0, 0, false);
    c.set_scanned();
    assert!(c.scanned);
    c.set_scanned();
    assert!(c.scanned);
}

#[test]
fn nearest_unscanned_picks_closest() {
    let reg = Creatures::from_input(vec![
        creature_at(0, 0, 0, false),
        creature_at(1, 10, 10, false),
    ])
    .unwrap();
    assert_eq!(reg.find_target(Vec2 { x: 1, y: 1 }), Some(Vec2 { x: 0, y: 0 }));
    assert_eq!(reg.find_target(Vec2 { x: 9, y: 9 }), Some(Vec2 { x: 10, y: 10 }));
}

#[test]
fn nearest_unscanned_tie_goes_to_first_in_iteration_order() {
    let reg = Creatures::from_input(vec![
        creature_at(5, 2, 0, false),
        creature_at(6, -2, 0, false),
        creature_at(7, 0, 2, false),
    ])
    .unwrap();
    // All three are at squared distance 4 from the origin: the first record wins.
    assert_eq!(reg.find_target(Vec2 { x: 0, y: 0 }), Some(Vec2 { x: 2, y: 0 }));
}

#[test]
fn nearest_unscanned_skips_scanned() {
    let mut reg = Creatures::from_input(vec![
        creature_at(0, 0, 0, false),
        creature_at(1, 10, 10, false),
    ])
    .unwrap();
    reg.get_mut(0).set_scanned();
    assert_eq!(reg.find_target(Vec2 { x: 1, y: 1 }), Some(Vec2 { x: 10, y: 10 }));
    assert_eq!(reg.find_target(Vec2 { x: -100, y: -100 }), Some(Vec2 { x: 10, y: 10 }));
    reg.get_mut(1).set_scanned();
    assert_eq!(reg.find_target(Vec2 { x: 1, y: 1 }), None);
}

#[test]
fn nearest_unscanned_empty_registry() {
    let reg = Creatures::from_input(Vec::new()).unwrap();
    assert_eq!(reg.find_target(Vec2 { x: 0, y: 0 }), None);
}

#[test]
fn squared_distance_exact() {
    let a = Vec2 { x: 3, y: 4 };
    let b = Vec2 { x: 0, y: 0 };
    assert_eq!(a.distance(b), 25);
    assert_eq!(b.distance(a), 25);
    assert_eq!(a.distance(a), 0);
    let c = Vec2 { x: -3, y: 7 };
    assert_eq!(c.distance(Vec2 { x: 1, y: 4 }), 25);
}
