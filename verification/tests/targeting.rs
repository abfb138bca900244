use seascan::creature::Creature;
use seascan::creature::Creatures;
use seascan::drone::Direction;
use seascan::drone::Drone;
use seascan::drone::Drones;
use seascan::geom::Vec2;
use seascan::targeting::apply_radar_blip;
use seascan::targeting::apply_radar_blips;
use seascan::targeting::decide_direct;
use seascan::targeting::decide_radar;
use seascan::targeting::RadarBlip;

fn creature_at(id: usize, x: i64, y: i64, scanned: bool) -> Creature {
    let mut c = Creature::from_input(id, 0, 0);
    c.pos = Vec2 { x, y };
    c.scanned = scanned;
    c
}

fn fleet_of_one(battery: i32) -> Drones {
    let mut drones = Drones::new();
    drones.update_from_input(vec![Drone::from_input(0, 100, 100, 0, battery)]);
    drones
}

#[test]
fn first_hint_acquires_target() {
    let mut drones = fleet_of_one(20);
    apply_radar_blips(
        &mut drones,
        &vec![RadarBlip { drone_id: 0, creature_id: 7, dir: Direction::TopLeft }],
    );
    assert_eq!(drones.drones[0].target, Some(7));
    assert_eq!(drones.drones[0].target_dir, Direction::TopLeft);
}

#[test]
fn second_hint_is_ignored_while_target_unresolved() {
    let mut drones = fleet_of_one(20);
    apply_radar_blips(
        &mut drones,
        &vec![
            RadarBlip { drone_id: 0, creature_id: 7, dir: Direction::TopLeft },
            RadarBlip { drone_id: 0, creature_id: 9, dir: Direction::BottomRight },
        ],
    );
    assert_eq!(drones.drones[0].target, Some(7));
    assert_eq!(drones.drones[0].target_dir, Direction::TopLeft);
    // A later turn's hint changes nothing either.
    apply_radar_blip(
        &mut drones,
        RadarBlip { drone_id: 0, creature_id: 9, dir: Direction::BottomRight },
    );
    assert_eq!(drones.drones[0].target, Some(7));
    assert_eq!(drones.drones[0].target_dir, Direction::TopLeft);
}

#[test]
fn hint_for_personally_scanned_creature_is_ignored() {
    let mut drones = fleet_of_one(20);
    drones.record_scan(0, 7);
    apply_radar_blip(
        &mut drones,
        RadarBlip { drone_id: 0, creature_id: 7, dir: Direction::TopLeft },
    );
    assert_eq!(drones.drones[0].target, None);
    apply_radar_blip(
        &mut drones,
        RadarBlip { drone_id: 0, creature_id: 8, dir: Direction::TopRight },
    );
    assert_eq!(drones.drones[0].target, Some(8));
}

#[test]
fn rebuild_preserves_target_and_history() {
    let mut drones = Drones::new();
    drones.update_from_input(vec![
        Drone::from_input(0, 1, 1, 0, 30),
        Drone::from_input(1, 2, 2, 0, 30),
        Drone::from_input(2, 3, 3, 0, 30),
    ]);
    apply_radar_blip(
        &mut drones,
        RadarBlip { drone_id: 2, creature_id: 7, dir: Direction::BottomRight },
    );
    drones.update_scanned_from_input(&vec![(2, 3), (2, 5)]);
    drones.update_from_input(vec![
        Drone::from_input(0, 10, 10, 0, 5),
        Drone::from_input(1, 20, 20, 0, 5),
        Drone::from_input(2, 30, 30, 0, 5),
    ]);
    let d = &drones.drones[2];
    assert_eq!(d.target, Some(7));
    assert_eq!(d.target_dir, Direction::BottomRight);
    assert_eq!(d.scanned, vec![3, 5]);
    assert_eq!(d.pos, Vec2 { x: 30, y: 30 });
    assert_eq!(d.battery, 5);
    assert_eq!(drones.drones[0].target, None);
}

#[test]
fn rebuild_with_smaller_fleet_keeps_survivors() {
    let mut drones = Drones::new();
    drones.update_from_input(vec![
        Drone::from_input(0, 1, 1, 0, 30),
        Drone::from_input(1, 2, 2, 0, 30),
    ]);
    apply_radar_blip(
        &mut drones,
        RadarBlip { drone_id: 0, creature_id: 4, dir: Direction::TopRight },
    );
    drones.update_from_input(vec![Drone::from_input(0, 9, 9, 0, 1)]);
    assert_eq!(drones.drones.len(), 1);
    assert_eq!(drones.drones[0].target, Some(4));
}

#[test]
fn scan_events_append_in_order_and_filter_foes() {
    let mut drones = Drones::new();
    drones.update_from_input(vec![
        Drone::from_input(0, 1, 1, 0, 30),
        Drone::from_input(1, 2, 2, 0, 30),
    ]);
    // Drone 9 belongs to the opponent's fleet: its events are dropped.
    drones.update_scanned_from_input(&vec![(0, 4), (9, 8), (0, 2), (1, 6)]);
    assert_eq!(drones.drones[0].scanned, vec![4, 2]);
    assert_eq!(drones.drones[1].scanned, vec![6]);
}

#[test]
fn record_scan_ignores_untracked_id() {
    let mut drones = fleet_of_one(20);
    drones.record_scan(5, 7);
    assert_eq!(drones.drones[0].scanned, Vec::<usize>::new());
    let mut empty = Drones::new();
    empty.record_scan(0, 7);
    assert_eq!(empty.drones.len(), 0);
}

#[test]
fn probe_offset_is_quadrant_consistent() {
    let mut d = Drone::from_input(0, 1000, 2000, 0, 20);
    d.target_dir = Direction::TopLeft;
    assert_eq!(d.get_dir_pos(), Vec2 { x: 200, y: 1200 });
    d.target_dir = Direction::TopRight;
    assert_eq!(d.get_dir_pos(), Vec2 { x: 1800, y: 1200 });
    d.target_dir = Direction::BottomLeft;
    assert_eq!(d.get_dir_pos(), Vec2 { x: 200, y: 2800 });
    d.target_dir = Direction::BottomRight;
    assert_eq!(d.get_dir_pos(), Vec2 { x: 1800, y: 2800 });
    // Recomputed from the current position: the probe drifts with the drone.
    d.pos = Vec2 { x: 0, y: 0 };
    assert_eq!(d.get_dir_pos(), Vec2 { x: 800, y: 800 });
}

#[test]
fn radar_strategy_without_target_idles_up() {
    let d = Drone::from_input(0, 4242, 9000, 0, 3);
    let order = decide_radar(&d);
    assert_eq!(order.dest, Vec2 { x: 4242, y: 500 });
    assert!(order.light);
}

#[test]
fn radar_strategy_with_target_probes_quadrant() {
    let mut d = Drone::from_input(0, 1000, 1000, 0, 16);
    d.target = Some(7);
    d.target_dir = Direction::TopLeft;
    let order = decide_radar(&d);
    assert_eq!(order.dest, Vec2 { x: 200, y: 200 });
    assert!(order.light);
    d.battery = 15;
    let order = decide_radar(&d);
    assert_eq!(order.dest, Vec2 { x: 200, y: 200 });
    assert!(!order.light);
}

#[test]
fn direct_strategy_end_to_end() {
    let reg = Creatures::from_input(vec![
        creature_at(0, 0, 0, false),
        creature_at(1, 5000, 5000, false),
        creature_at(2, 1, 1, true),
        creature_at(3, 2, 2, true),
    ])
    .unwrap();
    let mut d = Drone::from_input(0, 100, 100, 0, 15);
    let order = decide_direct(&d, &reg);
    assert_eq!(order.dest, Vec2 { x: 0, y: 0 });
    assert!(!order.light);
    d.battery = 16;
    let order = decide_direct(&d, &reg);
    assert_eq!(order.dest, Vec2 { x: 0, y: 0 });
    assert!(order.light);
}

#[test]
fn direct_strategy_idles_when_all_scanned() {
    let reg = Creatures::from_input(vec![creature_at(0, 0, 0, true)]).unwrap();
    let d = Drone::from_input(0, 777, 4000, 0, 2);
    let order = decide_direct(&d, &reg);
    assert_eq!(order.dest, Vec2 { x: 777, y: 500 });
    assert!(order.light);
}

#[test]
fn direction_tokens_parse_exactly() {
    assert_eq!(Direction::from_str("TL"), Some(Direction::TopLeft));
    assert_eq!(Direction::from_str("TR"), Some(Direction::TopRight));
    assert_eq!(Direction::from_str("BL"), Some(Direction::BottomLeft));
    assert_eq!(Direction::from_str("BR"), Some(Direction::BottomRight));
    assert_eq!(Direction::from_str(""), None);
    assert_eq!(Direction::from_str("T"), None);
    assert_eq!(Direction::from_str("XX"), None);
    assert_eq!(Direction::from_str("TLL"), None);
    assert_eq!(Direction::from_str("tl"), None);
}

#[test]
fn fresh_drone_has_no_targeting_state() {
    let d = Drone::from_input(3, 7, 8, 1, 25);
    assert_eq!(d.id, 3);
    assert_eq!(d.pos, Vec2 { x: 7, y: 8 });
    assert_eq!(d.emergency, 1);
    assert_eq!(d.battery, 25);
    assert_eq!(d.target, None);
    assert_eq!(d.target_dir, Direction::BottomLeft);
    assert!(d.scanned.is_empty());
}

#[test]
fn drone_get_mut_by_offset() {
    let mut drones = Drones::new();
    drones.update_from_input(vec![
        Drone::from_input(2, 1, 1, 0, 30),
        Drone::from_input(3, 2, 2, 0, 30),
    ]);
    let d = drones.get_mut(3);
    assert_eq!(d.id, 3);
    d.add_scanned(11);
    assert_eq!(drones.drones[1].scanned, vec![11]);
    assert_eq!(drones.drones[0].scanned, Vec::<usize>::new());
}
