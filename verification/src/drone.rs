//! The drone registry: a dense array of drone records, rebuilt wholesale
//! every turn.
//!
//! Positions and battery are transient and replaced each turn, but a drone's
//! acquired target, its target direction and its personal scan history are
//! persistent: a rebuild migrates them from the previous record with the
//! same identifier.

use vstd::prelude::*;
use vstd::string::*;

use crate::geom::Vec2;

verus! {

/// Fixed magnitude of one probing step along each axis.
pub const PROBE_STEP: i64 = 800;

/// A coarse quadrant hint relative to a drone. `Top` means smaller `y`,
/// `Left` means smaller `x`.
#[derive(Debug, Copy, Clone, PartialEq, Eq, Structural)]
pub enum Direction {
    TopLeft,
    TopRight,
    BottomLeft,
    BottomRight,
}

/// The quadrant token `s` denotes, if any: `TL`, `TR`, `BL` or `BR`.
pub open spec fn parse_direction(s: Seq<char>) -> Option<Direction> {
    if s == "TL"@ {
        Some(Direction::TopLeft)
    } else if s == "TR"@ {
        Some(Direction::TopRight)
    } else if s == "BL"@ {
        Some(Direction::BottomLeft)
    } else if s == "BR"@ {
        Some(Direction::BottomRight)
    } else {
        None
    }
}

/// Signed x step of one probe toward `dir`.
pub open spec fn probe_dx(dir: Direction) -> int {
    match dir {
        Direction::TopLeft => -(PROBE_STEP as int),
        Direction::TopRight => PROBE_STEP as int,
        Direction::BottomLeft => -(PROBE_STEP as int),
        Direction::BottomRight => PROBE_STEP as int,
    }
}

/// Signed y step of one probe toward `dir`.
pub open spec fn probe_dy(dir: Direction) -> int {
    match dir {
        Direction::TopLeft => -(PROBE_STEP as int),
        Direction::TopRight => -(PROBE_STEP as int),
        Direction::BottomLeft => PROBE_STEP as int,
        Direction::BottomRight => PROBE_STEP as int,
    }
}

impl Direction {
    /// Parse a two-letter quadrant token; any other token is rejected.
    pub fn from_str(s: &str) -> (r: Option<Direction>)
        ensures
            r == parse_direction(s@),
    {
        proof {
            reveal_strlit("TL");
            reveal_strlit("TR");
            reveal_strlit("BL");
            reveal_strlit("BR");
        }
        if s.unicode_len() != 2 {
            return None;
        }
        let c0 = s.get_char(0);
        let c1 = s.get_char(1);
        let r = if c0 == 'T' && c1 == 'L' {
            Some(Direction::TopLeft)
        } else if c0 == 'T' && c1 == 'R' {
            Some(Direction::TopRight)
        } else if c0 == 'B' && c1 == 'L' {
            Some(Direction::BottomLeft)
        } else if c0 == 'B' && c1 == 'R' {
            Some(Direction::BottomRight)
        } else {
            None
        };
        proof {
            if c0 == 'T' && c1 == 'L' {
                assert(s@ =~= "TL"@);
            } else if c0 == 'T' && c1 == 'R' {
                assert(s@ =~= "TR"@);
            } else if c0 == 'B' && c1 == 'L' {
                assert(s@ =~= "BL"@);
            } else if c0 == 'B' && c1 == 'R' {
                assert(s@ =~= "BR"@);
            }
        }
        r
    }
}

/// A controlled or opposing unit. Position, emergency flag and battery are
/// replaced each turn; `target`, `target_dir` and `scanned` survive rebuilds.
#[derive(Debug)]
pub struct Drone {
    pub id: i32,
    pub pos: Vec2,
    pub emergency: i32,
    pub battery: i32,
    pub target: Option<usize>,
    pub target_dir: Direction,
    pub scanned: Vec<usize>,
}

impl Drone {
    /// A fresh record from one turn's snapshot: no acquired target, an empty
    /// scan history, and a default direction.
    pub fn from_input(id: i32, x: i64, y: i64, emergency: i32, battery: i32) -> (d: Drone)
        ensures
            d.id == id,
            d.pos == (Vec2 { x, y }),
            d.emergency == emergency,
            d.battery == battery,
            d.target is None,
            d.target_dir == Direction::BottomLeft,
            d.scanned@ == Seq::<usize>::empty(),
    {
        Drone {
            id,
            pos: Vec2 { x, y },
            emergency,
            battery,
            target: None,
            target_dir: Direction::BottomLeft,
            scanned: Vec::new(),
        }
    }

    /// Append one creature identifier to this drone's personal scan history.
    pub fn add_scanned(&mut self, id: usize)
        ensures
            final(self).scanned@ == old(self).scanned@.push(id),
            final(self).id == old(self).id,
            final(self).pos == old(self).pos,
            final(self).emergency == old(self).emergency,
            final(self).battery == old(self).battery,
            final(self).target == old(self).target,
            final(self).target_dir == old(self).target_dir,
    {
        self.scanned.push(id);
    }

    /// Destination of one fixed-magnitude diagonal probe from the drone's
    /// current position toward its target direction: both axes move by
    /// exactly `PROBE_STEP` in the quadrant's sense.
    pub fn get_dir_pos(&self) -> (r: Vec2)
        requires
            i64::MIN + PROBE_STEP <= self.pos.x <= i64::MAX - PROBE_STEP,
            i64::MIN + PROBE_STEP <= self.pos.y <= i64::MAX - PROBE_STEP,
        ensures
            r.x == self.pos.x + probe_dx(self.target_dir),
            r.y == self.pos.y + probe_dy(self.target_dir),
    {
        match self.target_dir {
            Direction::TopLeft => Vec2 { x: self.pos.x - PROBE_STEP, y: self.pos.y - PROBE_STEP },
            Direction::TopRight => Vec2 { x: self.pos.x + PROBE_STEP, y: self.pos.y - PROBE_STEP },
            Direction::BottomLeft => Vec2 {
                x: self.pos.x - PROBE_STEP,
                y: self.pos.y + PROBE_STEP,
            },
            Direction::BottomRight => Vec2 {
                x: self.pos.x + PROBE_STEP,
                y: self.pos.y + PROBE_STEP,
            },
        }
    }
}

/// Drone identifiers are contiguous ascending and non-negative: the record
/// at index `i` carries identifier `base + i`.
pub open spec fn contiguous_drone_ids(s: Seq<Drone>) -> bool {
    &&& forall|i: int| 0 <= i < s.len() ==> #[trigger] s[i].id == s[0].id + i
    &&& s.len() > 0 ==> s[0].id >= 0
}

/// The new record `n` is the snapshot record `r` with the persistent fields
/// (target, direction, history) migrated from the previous records `prev`
/// when `prev` tracked the same identifier, and taken from `r` otherwise.
pub open spec fn carried_from(prev: Seq<Drone>, r: Drone, n: Drone) -> bool {
    &&& n.id == r.id
    &&& n.pos == r.pos
    &&& n.emergency == r.emergency
    &&& n.battery == r.battery
    &&& if prev.len() > 0 && prev[0].id <= r.id < prev[0].id + prev.len() {
        let p = prev[r.id - prev[0].id];
        n.target == p.target && n.target_dir == p.target_dir && n.scanned@ == p.scanned@
    } else {
        n.target == r.target && n.target_dir == r.target_dir && n.scanned@ == r.scanned@
    }
}

/// `n` is `p` with one creature identifier appended to its scan history and
/// every other field unchanged.
pub open spec fn scan_appended(p: Drone, n: Drone, creature_id: usize) -> bool {
    &&& n.id == p.id
    &&& n.pos == p.pos
    &&& n.emergency == p.emergency
    &&& n.battery == p.battery
    &&& n.target == p.target
    &&& n.target_dir == p.target_dir
    &&& n.scanned@ == p.scanned@.push(creature_id)
}

/// The creature identifiers that `events` credits to the drone `id`, in
/// event order.
pub open spec fn scans_for(events: Seq<(usize, usize)>, id: usize) -> Seq<usize>
    decreases events.len(),
{
    if events.len() == 0 {
        Seq::empty()
    } else {
        let rest = scans_for(events.drop_last(), id);
        if events.last().0 == id {
            rest.push(events.last().1)
        } else {
            rest
        }
    }
}

/// One owner's dense drone registry.
pub struct Drones {
    pub drones: Vec<Drone>,
}

impl Drones {
    /// The registry's indexing invariant.
    pub open spec fn wf(&self) -> bool {
        contiguous_drone_ids(self.drones@)
    }

    /// The first identifier in the registry (meaningful when non-empty).
    pub open spec fn base(&self) -> int {
        self.drones@[0].id as int
    }

    /// `id` belongs to a drone of this fleet.
    pub open spec fn in_range(&self, id: int) -> bool {
        self.drones@.len() > 0 && self.base() <= id < self.base() + self.drones@.len()
    }

    /// An empty registry, filled by the first turn's rebuild.
    pub fn new() -> (d: Drones)
        ensures
            d.drones@.len() == 0,
            d.wf(),
    {
        Drones { drones: Vec::new() }
    }

    /// Offset-indexed mutable lookup: the record for `id` sits at index
    /// `id - base`.
    pub fn get_mut(&mut self, id: usize) -> (r: &mut Drone)
        requires
            old(self).wf(),
            old(self).in_range(id as int),
        ensures
            *r == old(self).drones@[id - old(self).base()],
            final(self).drones@ == old(self).drones@.update(id - old(self).base(), *final(r)),
    {
        let base = self.drones[0].id;
        let idx = id - base as usize;
        &mut self.drones[idx]
    }

    /// Rebuild the registry from one turn's snapshot records. Positions,
    /// emergency flags and battery come from the snapshot; the acquired
    /// target, target direction and scan history of every identifier that
    /// survives the rebuild are migrated from the previous records.
    pub fn update_from_input(&mut self, records: Vec<Drone>)
        requires
            old(self).wf(),
            contiguous_drone_ids(records@),
        ensures
            final(self).drones@.len() == records@.len(),
            forall|i: int|
                0 <= i < records@.len() ==> carried_from(
                    old(self).drones@,
                    records@[i],
                    #[trigger] final(self).drones@[i],
                ),
            final(self).wf(),
    {
        let mut records = records;
        let ghost orig: Seq<Drone> = records@;
        let n = records.len();
        for i in 0..n
            invariant
                n == records@.len(),
                orig.len() == records@.len(),
                old(self).wf(),
                self.drones@ == old(self).drones@,
                forall|k: int| i <= k < n ==> records@[k] == orig[k],
                forall|k: int|
                    0 <= k < i ==> carried_from(old(self).drones@, orig[k], #[trigger] records@[k]),
        {
            let id = records[i].id;
            if self.drones.len() > 0 {
                let base = self.drones[0].id;
                if id >= base && ((id - base) as usize) < self.drones.len() {
                    let j = (id - base) as usize;
                    let t = self.drones[j].target;
                    let td = self.drones[j].target_dir;
                    let sc = clone_ids(&self.drones[j].scanned);
                    let r = &mut records[i];
                    r.target = t;
                    r.target_dir = td;
                    r.scanned = sc;
                }
            }
        }
        self.drones = records;
        proof {
            assert forall|i: int|
                0 <= i < final(self).drones@.len() implies #[trigger] final(self).drones@[i].id
                == final(self).drones@[0].id + i by {
                assert(carried_from(old(self).drones@, orig[i], final(self).drones@[i]));
                assert(carried_from(old(self).drones@, orig[0], final(self).drones@[0]));
                assert(orig[i].id == orig[0].id + i);
            }
            assert(final(self).wf());
        }
    }

    /// Credit one scan event to a drone of this fleet. An identifier this
    /// registry does not track (an opponent's drone in a shared event
    /// stream) is silently ignored: a deliberate filter, not a failure.
    pub fn record_scan(&mut self, drone_id: usize, creature_id: usize)
        requires
            old(self).wf(),
        ensures
            final(self).wf(),
            !old(self).in_range(drone_id as int) ==> final(self).drones@ == old(self).drones@,
            old(self).in_range(drone_id as int) ==> {
                &&& final(self).drones@.len() == old(self).drones@.len()
                &&& forall|k: int|
                    0 <= k < old(self).drones@.len() && k != drone_id - old(self).base()
                        ==> #[trigger] final(self).drones@[k] == old(self).drones@[k]
                &&& scan_appended(
                    old(self).drones@[drone_id - old(self).base()],
                    final(self).drones@[drone_id - old(self).base()],
                    creature_id,
                )
            },
    {
        if self.drones.len() == 0 {
            return;
        }
        let base = self.drones[0].id;
        if drone_id < base as usize {
            return;
        }
        let off = drone_id - base as usize;
        if off >= self.drones.len() {
            return;
        }
        let d = &mut self.drones[off];
        d.add_scanned(creature_id);
        proof {
            assert forall|i: int|
                0 <= i < final(self).drones@.len() implies #[trigger] final(self).drones@[i].id
                == final(self).drones@[0].id + i by {
                assert(old(self).drones@[i].id == old(self).drones@[0].id + i);
            }
        }
    }

    /// Fold one turn's scan events into the per-drone histories: each drone
    /// ends with exactly the creature identifiers the events credit to it,
    /// appended in event order; events for untracked fleets change nothing.
    pub fn update_scanned_from_input(&mut self, events: &Vec<(usize, usize)>)
        requires
            old(self).wf(),
        ensures
            final(self).wf(),
            final(self).drones@.len() == old(self).drones@.len(),
            forall|k: int|
                0 <= k < old(self).drones@.len() ==> {
                    &&& (#[trigger] final(self).drones@[k]).id == old(self).drones@[k].id
                    &&& final(self).drones@[k].pos == old(self).drones@[k].pos
                    &&& final(self).drones@[k].emergency == old(self).drones@[k].emergency
                    &&& final(self).drones@[k].battery == old(self).drones@[k].battery
                    &&& final(self).drones@[k].target == old(self).drones@[k].target
                    &&& final(self).drones@[k].target_dir == old(self).drones@[k].target_dir
                    &&& final(self).drones@[k].scanned@ == old(self).drones@[k].scanned@
                        + scans_for(events@, old(self).drones@[k].id as usize)
                },
    {
        let n = events.len();
        for j in 0..n
            invariant
                n == events@.len(),
                old(self).wf(),
                self.wf(),
                self.drones@.len() == old(self).drones@.len(),
                forall|k: int|
                    0 <= k < old(self).drones@.len() ==> {
                        &&& (#[trigger] self.drones@[k]).id == old(self).drones@[k].id
                        &&& self.drones@[k].pos == old(self).drones@[k].pos
                        &&& self.drones@[k].emergency == old(self).drones@[k].emergency
                        &&& self.drones@[k].battery == old(self).drones@[k].battery
                        &&& self.drones@[k].target == old(self).drones@[k].target
                        &&& self.drones@[k].target_dir == old(self).drones@[k].target_dir
                        &&& self.drones@[k].scanned@ == old(self).drones@[k].scanned@
                            + scans_for(events@.take(j as int), old(self).drones@[k].id as usize)
                    },
        {
            let (drone_id, creature_id) = events[j];
            let ghost pre = self.drones@;
            self.record_scan(drone_id, creature_id);
            proof {
                assert(events@.take(j + 1).drop_last() =~= events@.take(j as int));
                assert(events@.take(j + 1).last() == events@[j as int]);
                assert forall|k: int|
                    0 <= k < old(self).drones@.len() implies scans_for(
                    events@.take(j + 1),
                    (#[trigger] old(self).drones@[k]).id as usize,
                ) == if old(self).drones@[k].id as usize == drone_id {
                    scans_for(events@.take(j as int), old(self).drones@[k].id as usize).push(
                        creature_id,
                    )
                } else {
                    scans_for(events@.take(j as int), old(self).drones@[k].id as usize)
                } by {}
                if self.drones@.len() > 0 && pre[0].id <= drone_id < pre[0].id + pre.len() {
                    assert(pre[drone_id - pre[0].id].id == drone_id);
                } else {
                    assert forall|k: int|
                        0 <= k < old(self).drones@.len() implies (#[trigger] pre[k]).id as usize
                        != drone_id by {
                        assert(pre[k].id == pre[0].id + k);
                    }
                }
            }
        }
        proof {
            assert(events@.take(n as int) =~= events@);
        }
    }
}

/// Copy a vector of identifiers element by element.
fn clone_ids(v: &Vec<usize>) -> (r: Vec<usize>)
    ensures
        r@ == v@,
{
    let mut r: Vec<usize> = Vec::new();
    let n = v.len();
    for i in 0..n
        invariant
            n == v@.len(),
            r@ == v@.take(i as int),
    {
        r.push(v[i]);
        proof {
            assert(v@.take(i + 1) =~= v@.take(i as int).push(v@[i as int]));
        }
    }
    proof {
        assert(v@.take(n as int) =~= v@);
    }
    r
}

} // verus!
