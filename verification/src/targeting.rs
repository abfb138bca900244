//! Per-drone targeting decisions.
//!
//! Two interchangeable strategies pick a drone's destination each turn:
//! direct nearest-unscanned search when creature positions are known, and
//! radar-quadrant narrowing when only coarse hints are available. Radar
//! acquisition is first-acquire-wins: once a drone has a target it ignores
//! every later hint for the rest of the game.

use vstd::prelude::*;

use crate::creature::Creatures;
use crate::creature::first_min_unscanned_at;
use crate::drone::Direction;
use crate::drone::Drone;
use crate::drone::Drones;
use crate::drone::PROBE_STEP;
use crate::drone::probe_dx;
use crate::drone::probe_dy;
use crate::geom::Vec2;
use crate::geom::dist_fits;

verus! {

/// Depth a drone holds toward when it has no target.
pub const IDLE_Y: i64 = 500;

/// A drone turns its light on only when its battery exceeds this.
pub const LIGHT_BATTERY_THRESHOLD: i32 = 15;

/// One radar hint: a coarse quadrant toward a creature, relative to a drone.
#[derive(Debug, Copy, Clone, PartialEq, Eq, Structural)]
pub struct RadarBlip {
    pub drone_id: usize,
    pub creature_id: usize,
    pub dir: Direction,
}

/// One drone's movement order for the turn.
#[derive(Debug, Copy, Clone, PartialEq, Eq, Structural)]
pub struct Directive {
    pub dest: Vec2,
    pub light: bool,
}

/// The registry `s` after the hint `b`: if `b` names a tracked drone that
/// has no acquired target and has not personally scanned the hinted
/// creature, that drone acquires it; in every other case nothing changes.
pub open spec fn apply_blip_spec(s: Seq<Drone>, b: RadarBlip) -> Seq<Drone> {
    if s.len() > 0 && s[0].id <= b.drone_id < s[0].id + s.len() {
        let i = b.drone_id - s[0].id;
        let d = s[i];
        if d.target is None && !d.scanned@.contains(b.creature_id) {
            s.update(i, Drone { target: Some(b.creature_id), target_dir: b.dir, ..d })
        } else {
            s
        }
    } else {
        s
    }
}

/// The registry `s` after a turn's hints, applied in order.
pub open spec fn apply_blips_spec(s: Seq<Drone>, blips: Seq<RadarBlip>) -> Seq<Drone>
    decreases blips.len(),
{
    if blips.len() == 0 {
        s
    } else {
        apply_blip_spec(apply_blips_spec(s, blips.drop_last()), blips.last())
    }
}

/// The hint `b` is accepted by the drone record `d`: `d` has no acquired
/// target yet and has not personally scanned the hinted creature.
pub open spec fn blip_accepted(d: Drone, b: RadarBlip) -> bool {
    d.target is None && !d.scanned@.contains(b.creature_id)
}

/// Feed one radar hint to the registry. A drone with no acquired target
/// takes the first hint for a creature it has not personally scanned; a
/// drone that already has a target ignores the hint entirely.
pub fn apply_radar_blip(drones: &mut Drones, b: RadarBlip)
    requires
        old(drones).wf(),
        old(drones).in_range(b.drone_id as int),
    ensures
        final(drones).wf(),
        final(drones).drones@ == apply_blip_spec(old(drones).drones@, b),
        final(drones).drones@.len() == old(drones).drones@.len(),
        forall|k: int|
            0 <= k < old(drones).drones@.len() && k != b.drone_id - old(drones).base()
                ==> #[trigger] final(drones).drones@[k] == old(drones).drones@[k],
        blip_accepted(old(drones).drones@[b.drone_id - old(drones).base()], b) ==> {
            &&& final(drones).drones@[b.drone_id - old(drones).base()].target == Some(
                b.creature_id,
            )
            &&& final(drones).drones@[b.drone_id - old(drones).base()].target_dir == b.dir
        },
        !blip_accepted(old(drones).drones@[b.drone_id - old(drones).base()], b)
            ==> final(drones).drones@[b.drone_id - old(drones).base()]
            == old(drones).drones@[b.drone_id - old(drones).base()],
    {
        let base = drones.drones[0].id;
        let idx = b.drone_id - base as usize;
        let no_target = drones.drones[idx].target.is_none();
        let seen = contains_id(&drones.drones[idx].scanned, b.creature_id);
        if no_target && !seen {
            let d = &mut drones.drones[idx];
            d.target = Some(b.creature_id);
            d.target_dir = b.dir;
            proof {
                assert(final(drones).drones@ =~= apply_blip_spec(old(drones).drones@, b));
            }
        }
        proof {
            assert forall|i: int|
                0 <= i < drones.drones@.len() implies #[trigger] drones.drones@[i].id
                == drones.drones@[0].id + i by {
                assert(old(drones).drones@[i].id == old(drones).drones@[0].id + i);
            }
        }
    }

/// Feed a turn's radar hints to the registry, in order.
pub fn apply_radar_blips(drones: &mut Drones, blips: &Vec<RadarBlip>)
    requires
        old(drones).wf(),
        forall|k: int|
            0 <= k < blips@.len() ==> old(drones).in_range(
                (#[trigger] blips@[k]).drone_id as int,
            ),
    ensures
        final(drones).wf(),
        final(drones).drones@ == apply_blips_spec(old(drones).drones@, blips@),
    {
        let n = blips.len();
        for j in 0..n
            invariant
                n == blips@.len(),
                old(drones).wf(),
                drones.wf(),
                forall|k: int|
                    0 <= k < blips@.len() ==> old(drones).in_range(
                        (#[trigger] blips@[k]).drone_id as int,
                    ),
                drones.drones@.len() == old(drones).drones@.len(),
                drones.drones@.len() > 0 ==> drones.drones@[0].id == old(drones).drones@[0].id,
                drones.drones@ == apply_blips_spec(old(drones).drones@, blips@.take(j as int)),
        {
            let b = blips[j];
            apply_radar_blip(drones, b);
            proof {
                assert(blips@.take(j + 1).drop_last() =~= blips@.take(j as int));
                assert(blips@.take(j + 1).last() == b);
            }
        }
        proof {
            assert(blips@.take(n as int) =~= blips@);
        }
    }

/// First-acquire-wins: a drone that already holds an acquired target is left
/// exactly as it is by any sequence of radar hints — no re-targeting, no
/// abandonment, whatever hints arrive later.
pub proof fn lemma_acquired_target_kept(s: Seq<Drone>, blips: Seq<RadarBlip>, i: int)
    requires
        0 <= i < s.len(),
        s[i].target is Some,
    ensures
        apply_blips_spec(s, blips).len() == s.len(),
        apply_blips_spec(s, blips)[i] == s[i],
    decreases blips.len(),
{
    if blips.len() != 0 {
        lemma_acquired_target_kept(s, blips.drop_last(), i);
    }
}

/// Direct strategy: move to the position of the nearest unscanned creature,
/// light on only above the battery threshold; once every creature is
/// scanned, idle toward the default depth with the light on.
pub fn decide_direct(drone: &Drone, creatures: &Creatures) -> (r: Directive)
    requires
        forall|i: int|
            0 <= i < creatures.creatures@.len() ==> dist_fits(
                (#[trigger] creatures.creatures@[i]).pos,
                drone.pos,
            ),
    ensures
        (forall|i: int|
            0 <= i < creatures.creatures@.len() ==> (#[trigger] creatures.creatures@[i]).scanned)
            ==> r == (Directive { dest: Vec2 { x: drone.pos.x, y: IDLE_Y }, light: true }),
        !(forall|i: int|
            0 <= i < creatures.creatures@.len() ==> (#[trigger] creatures.creatures@[i]).scanned)
            ==> exists|i: int|
            #[trigger] first_min_unscanned_at(creatures.creatures@, drone.pos, i) && r
                == (Directive {
                dest: creatures.creatures@[i].pos,
                light: drone.battery > LIGHT_BATTERY_THRESHOLD,
            }),
    {
        match creatures.find_target(drone.pos) {
            None => Directive { dest: Vec2 { x: drone.pos.x, y: IDLE_Y }, light: true },
            Some(dest) => Directive { dest, light: drone.battery > LIGHT_BATTERY_THRESHOLD },
        }
    }

/// Radar-narrowing strategy: with an acquired target, probe one fixed
/// diagonal step toward the hinted quadrant from the drone's current
/// position, light on only above the battery threshold; with no target yet,
/// idle toward the default depth with the light on.
pub fn decide_radar(drone: &Drone) -> (r: Directive)
    requires
        drone.target is Some ==> i64::MIN + PROBE_STEP <= drone.pos.x <= i64::MAX - PROBE_STEP,
        drone.target is Some ==> i64::MIN + PROBE_STEP <= drone.pos.y <= i64::MAX - PROBE_STEP,
    ensures
        drone.target is None ==> r == (Directive {
            dest: Vec2 { x: drone.pos.x, y: IDLE_Y },
            light: true,
        }),
        drone.target is Some ==> {
            &&& r.dest.x == drone.pos.x + probe_dx(drone.target_dir)
            &&& r.dest.y == drone.pos.y + probe_dy(drone.target_dir)
            &&& r.light == (drone.battery > LIGHT_BATTERY_THRESHOLD)
        },
    {
        if drone.target.is_none() {
            Directive { dest: Vec2 { x: drone.pos.x, y: IDLE_Y }, light: true }
        } else {
            Directive {
                dest: drone.get_dir_pos(),
                light: drone.battery > LIGHT_BATTERY_THRESHOLD,
            }
        }
    }

/// Whether `v` holds `x`.
fn contains_id(v: &Vec<usize>, x: usize) -> (r: bool)
    ensures
        r == v@.contains(x),
{
    let n = v.len();
    for i in 0..n
        invariant
            n == v@.len(),
            forall|j: int| 0 <= j < i ==> v@[j] != x,
    {
        if v[i] == x {
            return true;
        }
    }
    false
}

} // verus!
