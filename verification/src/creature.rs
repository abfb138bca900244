//! The creature registry: a dense array of creature records indexed by
//! identifier offset.
//!
//! Identifiers are contiguous and ascending, so looking a record up is the
//! arithmetic `id - base`, not a search. Contiguity is validated once at
//! load; a lookup whose identifier falls outside the registry would be a
//! protocol desync, which callers must rule out up front.

use vstd::prelude::*;

use crate::geom::Vec2;
use crate::geom::dist_fits;
use crate::geom::sq_dist;

verus! {

/// A scan target: position, velocity and a monotonic scanned flag.
#[derive(Debug, Default, Copy, Clone, PartialEq, Eq, Structural)]
pub struct Creature {
    pub id: usize,
    pub pos: Vec2,
    pub speed: Vec2,
    pub color: u8,
    pub kind: u8,
    pub scanned: bool,
}

impl Creature {
    /// A fresh record from the initial snapshot: identity only, position and
    /// velocity unknown (zero), not yet scanned.
    pub fn from_input(id: usize, color: u8, kind: u8) -> (c: Creature)
        ensures
            c == (Creature {
                id,
                pos: Vec2 { x: 0, y: 0 },
                speed: Vec2 { x: 0, y: 0 },
                color,
                kind,
                scanned: false,
            }),
    {
        Creature { id, pos: Vec2 { x: 0, y: 0 }, speed: Vec2 { x: 0, y: 0 }, color, kind, scanned: false }
    }

    /// Mark this creature as scanned. Idempotent; the flag never resets.
    pub fn set_scanned(&mut self)
        ensures
            *final(self) == (Creature { scanned: true, ..*old(self) }),
    {
        self.scanned = true;
    }
}

/// Identifiers are contiguous ascending: the record at index `i` carries
/// identifier `base + i`, where `base` is the first record's identifier.
pub open spec fn contiguous_ids(s: Seq<Creature>) -> bool {
    forall|i: int| 0 <= i < s.len() ==> #[trigger] s[i].id == s[0].id + i
}

/// Index `i` holds the first unscanned creature of `s` minimizing squared
/// distance to `from`: no unscanned creature is strictly closer, and every
/// earlier unscanned creature is strictly farther.
pub open spec fn first_min_unscanned_at(s: Seq<Creature>, from: Vec2, i: int) -> bool {
    &&& 0 <= i < s.len()
    &&& !s[i].scanned
    &&& forall|j: int|
        0 <= j < s.len() && !(#[trigger] s[j]).scanned ==> sq_dist(s[i].pos, from) <= sq_dist(
            s[j].pos,
            from,
        )
    &&& forall|j: int|
        0 <= j < i && !(#[trigger] s[j]).scanned ==> sq_dist(s[i].pos, from) < sq_dist(
            s[j].pos,
            from,
        )
}

/// One creature's per-turn visibility record: a fresh position and velocity.
#[derive(Debug, Copy, Clone, PartialEq, Eq, Structural)]
pub struct PositionUpdate {
    pub id: usize,
    pub x: i64,
    pub y: i64,
    pub vx: i64,
    pub vy: i64,
}

/// The most recent update in `ups` that names the creature `id`, if any.
pub open spec fn last_update_for(ups: Seq<PositionUpdate>, id: usize) -> Option<PositionUpdate>
    decreases ups.len(),
{
    if ups.len() == 0 {
        None
    } else if ups.last().id == id {
        Some(ups.last())
    } else {
        last_update_for(ups.drop_last(), id)
    }
}

/// The record `c` after the updates `ups`: position and velocity from the
/// last update naming it, everything else untouched.
pub open spec fn updated_creature(c: Creature, ups: Seq<PositionUpdate>) -> Creature {
    match last_update_for(ups, c.id) {
        None => c,
        Some(u) => Creature { pos: Vec2 { x: u.x, y: u.y }, speed: Vec2 { x: u.vx, y: u.vy }, ..c },
    }
}

/// The dense creature registry.
#[derive(Debug)]
pub struct Creatures {
    pub creatures: Vec<Creature>,
}

impl Creatures {
    /// The registry's indexing invariant: identifiers contiguous ascending.
    pub open spec fn wf(&self) -> bool {
        contiguous_ids(self.creatures@)
    }

    /// The first identifier in the registry (meaningful when non-empty).
    pub open spec fn base(&self) -> int {
        self.creatures@[0].id as int
    }

    /// `id` belongs to a tracked creature.
    pub open spec fn in_range(&self, id: int) -> bool {
        self.creatures@.len() > 0 && self.base() <= id < self.base() + self.creatures@.len()
    }

    /// Load the full population. Succeeds exactly when the records carry
    /// contiguous ascending identifiers; a malformed load is rejected, since
    /// every later lookup would be built on a broken indexing invariant.
    pub fn from_input(records: Vec<Creature>) -> (r: Option<Creatures>)
        ensures
            match r {
                Some(c) => c.creatures@ == records@ && contiguous_ids(records@),
                None => !contiguous_ids(records@),
            },
    {
        let n = records.len();
        if n == 0 {
            return Some(Creatures { creatures: records });
        }
        for i in 1..n
            invariant
                n == records.len(),
                forall|j: int| 0 <= j < i ==> #[trigger] records@[j].id == records@[0].id + j,
        {
            if records[i].id == 0 || records[i].id - 1 != records[i - 1].id {
                proof {
                    assert(records@[i as int - 1].id == records@[0].id + i - 1);
                    assert(!contiguous_ids(records@)) by {
                        if contiguous_ids(records@) {
                            assert(records@[i as int].id == records@[0].id + i);
                        }
                    }
                }
                return None;
            }
        }
        Some(Creatures { creatures: records })
    }

    /// Offset-indexed lookup: the record for `id` sits at index `id - base`.
    pub fn get(&self, id: usize) -> (r: &Creature)
        requires
            self.wf(),
            self.in_range(id as int),
        ensures
            *r == self.creatures@[id - self.base()],
            r.id == id,
    {
        let idx = id - self.creatures[0].id;
        &self.creatures[idx]
    }

    /// Offset-indexed mutable lookup, same indexing contract as `get`.
    pub fn get_mut(&mut self, id: usize) -> (r: &mut Creature)
        requires
            old(self).wf(),
            old(self).in_range(id as int),
        ensures
            *r == old(self).creatures@[id - old(self).base()],
            final(self).creatures@ == old(self).creatures@.update(
                id - old(self).base(),
                *final(r),
            ),
    {
        let idx = id - self.creatures[0].id;
        &mut self.creatures[idx]
    }

    /// Merge one per-turn visibility update: replace the position and
    /// velocity of the creature `id`, leaving identity and the scanned flag
    /// untouched.
    pub fn update_creature_from_input(&mut self, id: usize, x: i64, y: i64, vx: i64, vy: i64)
        requires
            old(self).wf(),
            old(self).in_range(id as int),
        ensures
            final(self).creatures@ == old(self).creatures@.update(
                id - old(self).base(),
                (Creature {
                    pos: Vec2 { x, y },
                    speed: Vec2 { x: vx, y: vy },
                    ..old(self).creatures@[id - old(self).base()]
                }),
            ),
            final(self).wf(),
            final(self).in_range(id as int),
    {
        let c = self.get_mut(id);
        c.pos.x = x;
        c.pos.y = y;
        c.speed.x = vx;
        c.speed.y = vy;
        proof {
            assert(final(self).creatures@[0].id == old(self).creatures@[0].id);
            assert(forall|i: int|
                0 <= i < final(self).creatures@.len() ==> #[trigger] final(self).creatures@[i].id
                    == old(self).creatures@[i].id);
        }
    }

    /// Merge a turn's visibility updates, in order. Each named creature ends
    /// with the position and velocity of the last update naming it; scanned
    /// flags and identities are untouched.
    pub fn update_from_input(&mut self, updates: &Vec<PositionUpdate>)
        requires
            old(self).wf(),
            forall|k: int|
                0 <= k < updates@.len() ==> old(self).in_range(
                    (#[trigger] updates@[k]).id as int,
                ),
        ensures
            final(self).wf(),
            final(self).creatures@.len() == old(self).creatures@.len(),
            forall|i: int|
                0 <= i < old(self).creatures@.len() ==> #[trigger] final(self).creatures@[i]
                    == updated_creature(old(self).creatures@[i], updates@),
    {
        let n = updates.len();
        for j in 0..n
            invariant
                n == updates@.len(),
                old(self).wf(),
                forall|k: int|
                    0 <= k < updates@.len() ==> old(self).in_range(
                        (#[trigger] updates@[k]).id as int,
                    ),
                self.creatures@.len() == old(self).creatures@.len(),
                forall|i: int|
                    0 <= i < old(self).creatures@.len() ==> #[trigger] self.creatures@[i]
                        == updated_creature(old(self).creatures@[i], updates@.take(j as int)),
        {
            let u = updates[j];
            proof {
                assert forall|i: int|
                    0 <= i < self.creatures@.len() implies #[trigger] self.creatures@[i].id
                    == self.creatures@[0].id + i by {
                    assert(old(self).creatures@[i].id == old(self).creatures@[0].id + i);
                }
                assert(self.wf());
                assert(self.creatures@[0].id == old(self).creatures@[0].id);
                assert(self.in_range(u.id as int));
            }
            let ghost pre = self.creatures@;
            self.update_creature_from_input(u.id, u.x, u.y, u.vx, u.vy);
            proof {
                assert(updates@.take(j + 1).drop_last() =~= updates@.take(j as int));
                assert(updates@.take(j + 1).last() == u);
                assert forall|i: int|
                    0 <= i < old(self).creatures@.len() implies #[trigger] self.creatures@[i]
                    == updated_creature(old(self).creatures@[i], updates@.take(j + 1)) by {
                    let c0 = old(self).creatures@[i];
                    if c0.id == u.id {
                        assert(pre[i].id == c0.id);
                        assert(i == u.id - pre[0].id as int);
                    } else {
                        assert(last_update_for(updates@.take(j + 1), c0.id) == last_update_for(
                            updates@.take(j as int),
                            c0.id,
                        ));
                        assert(i != u.id - pre[0].id as int) by {
                            assert(pre[i].id == c0.id);
                            assert(pre[u.id - pre[0].id as int].id == u.id);
                        }
                    }
                }
            }
        }
        proof {
            assert(updates@.take(n as int) =~= updates@);
            assert forall|i: int|
                0 <= i < self.creatures@.len() implies #[trigger] self.creatures@[i].id
                == self.creatures@[0].id + i by {
                assert(old(self).creatures@[i].id == old(self).creatures@[0].id + i);
            }
        }
    }

    /// Mark every creature named in `ids` as scanned. Flags only ever turn
    /// on; identity, position and velocity are untouched.
    pub fn update_scanned_from_input(&mut self, ids: &Vec<usize>)
        requires
            old(self).wf(),
            forall|k: int| 0 <= k < ids@.len() ==> old(self).in_range(#[trigger] ids@[k] as int),
        ensures
            final(self).creatures@.len() == old(self).creatures@.len(),
            forall|i: int|
                0 <= i < old(self).creatures@.len() ==> #[trigger] final(self).creatures@[i]
                    == (Creature {
                    scanned: old(self).creatures@[i].scanned || ids@.contains(
                        old(self).creatures@[i].id,
                    ),
                    ..old(self).creatures@[i]
                }),
            final(self).wf(),
    {
        let n = ids.len();
        for k in 0..n
            invariant
                n == ids@.len(),
                old(self).wf(),
                forall|j: int| 0 <= j < n ==> old(self).in_range(#[trigger] ids@[j] as int),
                self.creatures@.len() == old(self).creatures@.len(),
                forall|i: int|
                    0 <= i < old(self).creatures@.len() ==> #[trigger] self.creatures@[i]
                        == (Creature {
                        scanned: old(self).creatures@[i].scanned || ids@.take(k as int).contains(
                            old(self).creatures@[i].id,
                        ),
                        ..old(self).creatures@[i]
                    }),
        {
            let id = ids[k];
            proof {
                assert(self.creatures@[0].id == old(self).creatures@[0].id);
                assert(forall|i: int|
                    0 <= i < self.creatures@.len() ==> #[trigger] self.creatures@[i].id == old(
                        self,
                    ).creatures@[i].id);
                assert forall|i: int|
                    0 <= i < self.creatures@.len() implies #[trigger] self.creatures@[i].id
                    == self.creatures@[0].id + i by {
                    assert(old(self).creatures@[i].id == old(self).creatures@[0].id + i);
                }
                assert(self.wf());
                assert(self.in_range(id as int));
            }
            let c = self.get_mut(id);
            c.set_scanned();
            proof {
                assert(ids@.take(k + 1).drop_last() =~= ids@.take(k as int));
                assert(ids@.take(k + 1).last() == id);
                assert forall|i: int| 0 <= i < old(self).creatures@.len() implies #[trigger] self
                    .creatures@[i] == (Creature {
                    scanned: old(self).creatures@[i].scanned || ids@.take(k + 1).contains(
                        old(self).creatures@[i].id,
                    ),
                    ..old(self).creatures@[i]
                }) by {
                    let cid = old(self).creatures@[i].id;
                    if cid == id {
                        assert(ids@.take(k + 1)[k as int] == id);
                        assert(ids@.take(k + 1).contains(cid));
                    } else {
                        assert(ids@.take(k + 1).contains(cid) <==> ids@.take(k as int).contains(
                            cid,
                        )) by {
                            if ids@.take(k as int).contains(cid) {
                                let w = choose|w: int|
                                    0 <= w < k && ids@.take(k as int)[w] == cid;
                                assert(ids@.take(k + 1)[w] == cid);
                            }
                            if ids@.take(k + 1).contains(cid) {
                                let w = choose|w: int|
                                    0 <= w < k + 1 && #[trigger] ids@.take(k + 1)[w] == cid;
                                assert(w != k);
                                assert(ids@.take(k as int)[w] == cid);
                            }
                        }
                    }
                }
            }
        }
        proof {
            assert(ids@.take(n as int) =~= ids@);
            assert(forall|i: int|
                0 <= i < self.creatures@.len() ==> #[trigger] self.creatures@[i].id == old(
                    self,
                ).creatures@[i].id);
        }
    }

    /// Position of the first unscanned creature minimizing squared distance
    /// to `pos`; nothing once every creature has been scanned. Ties go to the
    /// earliest record in iteration order.
    pub fn find_target(&self, pos: Vec2) -> (r: Option<Vec2>)
        requires
            forall|i: int|
                0 <= i < self.creatures@.len() ==> dist_fits(
                    (#[trigger] self.creatures@[i]).pos,
                    pos,
                ),
        ensures
            r is None <==> (forall|i: int|
                0 <= i < self.creatures@.len() ==> (#[trigger] self.creatures@[i]).scanned),
            r is Some ==> exists|i: int|
                #[trigger] first_min_unscanned_at(self.creatures@, pos, i) && r == Some(
                    self.creatures@[i].pos,
                ),
    {
        let n = self.creatures.len();
        let mut best: Option<usize> = None;
        let mut best_dist: i64 = 0;
        for i in 0..n
            invariant
                n == self.creatures@.len(),
                forall|k: int|
                    0 <= k < n ==> dist_fits((#[trigger] self.creatures@[k]).pos, pos),
                match best {
                    None => forall|j: int|
                        0 <= j < i ==> (#[trigger] self.creatures@[j]).scanned,
                    Some(b) => {
                        &&& b < i
                        &&& !self.creatures@[b as int].scanned
                        &&& best_dist == sq_dist(self.creatures@[b as int].pos, pos)
                        &&& forall|j: int|
                            0 <= j < i && !(#[trigger] self.creatures@[j]).scanned ==> sq_dist(
                                self.creatures@[b as int].pos,
                                pos,
                            ) <= sq_dist(self.creatures@[j].pos, pos)
                        &&& forall|j: int|
                            0 <= j < b && !(#[trigger] self.creatures@[j]).scanned ==> sq_dist(
                                self.creatures@[b as int].pos,
                                pos,
                            ) < sq_dist(self.creatures@[j].pos, pos)
                    },
                },
        {
            let c = self.creatures[i];
            if !c.scanned {
                let d = c.pos.distance(pos);
                let take = match best {
                    None => true,
                    Some(_) => d < best_dist,
                };
                if take {
                    best = Some(i);
                    best_dist = d;
                }
            }
        }
        match best {
            None => None,
            Some(b) => {
                proof {
                    assert(first_min_unscanned_at(self.creatures@, pos, b as int));
                }
                Some(self.creatures[b].pos)
            },
        }
    }
}

/// Once a creature is marked scanned, the nearest-unscanned search never
/// picks it again: marking index `k` scanned means no query, from any point,
/// can choose `k` as its witness afterwards.
pub proof fn lemma_marked_never_target(
    pre: Seq<Creature>,
    post: Seq<Creature>,
    k: int,
    from: Vec2,
    i: int,
)
    requires
        0 <= k < pre.len(),
        post == pre.update(k, (Creature { scanned: true, ..pre[k] })),
        first_min_unscanned_at(post, from, i),
    ensures
        i != k,
{
    assert(post[k].scanned);
}

} // verus!
