//! The chunk columns a client holds, and the bounded, nearest-first steps that
//! bring them in line with the player's position.

use crate::chunk_set::{in_order, precedes, ChunkSet};
use crate::math::{block_of, chunk_of, BlockPos, ChunkPos, Rotation, Vec3};
use crate::movement::{is_valid_player_position, valid_position};
use vstd::prelude::*;
use vstd::set_lib::{lemma_len_subset, lemma_set_disjoint_lens, lemma_subset_equality};

verus! {

/// Maximum number of chunk columns that one step loads for one player.
pub const MAX_CHUNK_LOADS_PER_UPDATE: usize = 16;

/// Maximum number of departed chunk columns that one step releases.
pub const MAX_CHUNK_UNLOADS_PER_UPDATE: usize = 16;

/// Upper bound of the streamed view distance.
pub const STREAM_VIEW_DISTANCE_MAX: i32 = 32;

/// The Chebyshev (king-move) distance between two columns.
pub open spec fn chebyshev(a: ChunkPos, b: ChunkPos) -> int {
    let dx = if a.x >= b.x {
        a.x - b.x
    } else {
        b.x - a.x
    };
    let dz = if a.z >= b.z {
        a.z - b.z
    } else {
        b.z - a.z
    };
    if dx >= dz {
        dx
    } else {
        dz
    }
}

/// The Chebyshev (king-move) chunk distance between `a` and `b`.
pub fn chebyshev_distance(a: ChunkPos, b: ChunkPos) -> (r: i64)
    ensures
        r == chebyshev(a, b),
{
    let x_difference: i64 = a.x as i64 - b.x as i64;
    let z_difference: i64 = a.z as i64 - b.z as i64;
    let dx: i64 = if x_difference < 0 {
        -x_difference
    } else {
        x_difference
    };
    let dz: i64 = if z_difference < 0 {
        -z_difference
    } else {
        z_difference
    };
    if dx >= dz {
        dx
    } else {
        dz
    }
}

/// The columns no farther than `radius` from `center`.
pub open spec fn square(center: ChunkPos, radius: int) -> Set<ChunkPos> {
    Set::new(|p: ChunkPos| chebyshev(center, p) <= radius)
}

/// The `(2 * radius + 1)` square of chunk columns centred on `center`, as far as
/// the coordinate range reaches.
pub fn desired_chunks(center: ChunkPos, radius: i32) -> (r: ChunkSet)
    ensures
        r.wf(),
        r@ == square(center, radius as int),
{
    if radius < 0 {
        let none = ChunkSet::new();
        assert(none@ =~= square(center, radius as int));
        return none;
    }
    let low_x: i64 = at_least_min(center.x as i64 - radius as i64);
    let high_x: i64 = at_most_max(center.x as i64 + radius as i64);
    let low_z: i64 = at_least_min(center.z as i64 - radius as i64);
    let high_z: i64 = at_most_max(center.z as i64 + radius as i64);
    let mut out: Vec<ChunkPos> = Vec::new();
    let mut x: i64 = low_x;
    while x <= high_x
        invariant
            low_x <= x <= high_x + 1,
            i32::MIN <= low_x,
            high_x <= i32::MAX,
            i32::MIN <= low_z,
            high_z <= i32::MAX,
            low_z <= high_z,
            in_order(out@),
            forall|p: ChunkPos|
                #[trigger] out@.contains(p) == (low_x <= p.x < x && low_z <= p.z <= high_z),
        decreases high_x + 1 - x,
    {
        let mut z: i64 = low_z;
        while z <= high_z
            invariant
                low_x <= x <= high_x,
                i32::MIN <= low_x,
                high_x <= i32::MAX,
                i32::MIN <= low_z,
                high_z <= i32::MAX,
                low_z <= z <= high_z + 1,
                in_order(out@),
                forall|p: ChunkPos|
                    #[trigger] out@.contains(p) == ((low_x <= p.x < x && low_z <= p.z <= high_z)
                        || (p.x == x && low_z <= p.z < z)),
            decreases high_z + 1 - z,
        {
            let pos = ChunkPos { x: x as i32, z: z as i32 };
            let ghost before = out@;
            out.push(pos);
            proof {
                assert forall|i: int, j: int| 0 <= i < j < out@.len() implies precedes(
                    #[trigger] out@[i],
                    #[trigger] out@[j],
                ) by {
                    if j < before.len() {
                        assert(precedes(before[i], before[j]));
                    } else {
                        assert(before.contains(before[i]));
                    }
                }
                assert forall|p: ChunkPos| #[trigger]
                    out@.contains(p) == ((low_x <= p.x < x && low_z <= p.z <= high_z) || (p.x == x
                        && low_z <= p.z < z + 1)) by {
                    if before.contains(p) {
                        assert(out@[before.index_of(p)] == p);
                    }
                    assert(out@[before.len() as int] == pos);
                    if out@.contains(p) && p != pos {
                        assert(before[out@.index_of(p)] == p);
                    }
                }
            }
            z = z + 1;
        }
        x = x + 1;
    }
    proof {
        assert forall|p: ChunkPos| out@.to_set().contains(p) == square(
            center,
            radius as int,
        ).contains(p) by {
            assert(out@.to_set().contains(p) == out@.contains(p));
        }
        assert(out@.to_set() =~= square(center, radius as int));
    }
    ChunkSet::from_ordered(out)
}

fn at_least_min(n: i64) -> (r: i64)
    ensures
        r == if n < i32::MIN {
            i32::MIN as int
        } else {
            n as int
        },
{
    if n < -0x8000_0000 {
        -0x8000_0000
    } else {
        n
    }
}

fn at_most_max(n: i64) -> (r: i64)
    ensures
        r == if n > i32::MAX {
            i32::MAX as int
        } else {
            n as int
        },
{
    if n > 0x7fff_ffff {
        0x7fff_ffff
    } else {
        n
    }
}

/// The order in which missing columns are loaded: by distance from the centre, then
/// by coordinates.
pub open spec fn nearer(center: ChunkPos, a: ChunkPos, b: ChunkPos) -> bool {
    let da = chebyshev(center, a);
    let db = chebyshev(center, b);
    da < db || (da == db && precedes(a, b))
}

fn is_nearer(center: ChunkPos, a: ChunkPos, b: ChunkPos) -> (r: bool)
    ensures
        r == nearer(center, a, b),
{
    let da: i64 = chebyshev_distance(center, a);
    let db: i64 = chebyshev_distance(center, b);
    da < db || (da == db && (a.x < b.x || (a.x == b.x && a.z < b.z)))
}

/// The order of loading around a centre.
pub open spec fn loading_order(center: ChunkPos) -> spec_fn(ChunkPos, ChunkPos) -> bool {
    |a: ChunkPos, b: ChunkPos| nearer(center, a, b)
}

/// The order of unloading.
pub open spec fn unloading_order() -> spec_fn(ChunkPos, ChunkPos) -> bool {
    |a: ChunkPos, b: ChunkPos| precedes(a, b)
}

/// Whether `chosen` are the first columns of a set in an order, as many as `bound`
/// allows.
pub open spec fn leads(
    chosen: Seq<ChunkPos>,
    order: spec_fn(ChunkPos, ChunkPos) -> bool,
    all: Set<ChunkPos>,
    bound: nat,
) -> bool {
    &&& chosen.len() <= bound
    &&& forall|i: int, j: int|
        0 <= i < j < chosen.len() ==> order(#[trigger] chosen[i], #[trigger] chosen[j])
    &&& forall|i: int| 0 <= i < chosen.len() ==> all.contains(#[trigger] chosen[i])
    &&& forall|p: ChunkPos, i: int|
        #![trigger all.contains(p), chosen[i]]
        all.contains(p) && !chosen.contains(p) && 0 <= i < chosen.len() ==> order(chosen[i], p)
    &&& chosen.len() < bound ==> forall|p: ChunkPos| #[trigger] all.contains(p) ==> chosen.contains(p)
}

/// One bounded transition toward the desired chunk square.
#[derive(Debug, PartialEq, Eq)]
pub struct ChunkTransition {
    /// Missing desired columns to acquire, nearest first.
    pub load: Vec<ChunkPos>,
    /// Stale held columns to release, in coordinate order.
    pub unload: Vec<ChunkPos>,
}

impl ChunkTransition {
    /// Whether this is the transition from held columns toward desired ones: the
    /// nearest missing columns and the first stale ones, within their bounds.
    pub open spec fn leads_from(
        self,
        center: ChunkPos,
        desired: Set<ChunkPos>,
        loaded: Set<ChunkPos>,
        load_bound: nat,
        unload_bound: nat,
    ) -> bool {
        &&& leads(self.load@, loading_order(center), desired.difference(loaded), load_bound)
        &&& leads(self.unload@, unloading_order(), loaded.difference(desired), unload_bound)
    }

    /// The held columns once the transition is carried out.
    pub open spec fn applied(self, loaded: Set<ChunkPos>) -> Set<ChunkPos> {
        loaded.difference(self.unload@.to_set()).union(self.load@.to_set())
    }
}

/// The first columns of `candidates` in the loading order.
fn nearest(center: ChunkPos, candidates: &Vec<ChunkPos>, bound: usize) -> (r: Vec<ChunkPos>)
    requires
        candidates@.no_duplicates(),
    ensures
        leads(r@, loading_order(center), candidates@.to_set(), bound as nat),
{
    let mut best: Vec<ChunkPos> = Vec::new();
    let mut i: usize = 0;
    let ghost order = loading_order(center);
    while i < candidates.len()
        invariant
            i <= candidates@.len(),
            candidates@.no_duplicates(),
            order == loading_order(center),
            leads(best@, order, candidates@.take(i as int).to_set(), bound as nat),
        decreases candidates@.len() - i,
    {
        let pos = candidates[i];
        let ghost done = candidates@.take(i as int);
        let ghost more = candidates@.take(i + 1);
        let ghost old_best = best@;
        proof {
            assert forall|p: ChunkPos| more.to_set().contains(p) == (done.to_set().contains(p) || p
                == pos) by {
                if done.contains(p) {
                    assert(more[done.index_of(p)] == p);
                }
                assert(more[i as int] == pos);
                if more.contains(p) && p != pos {
                    assert(done[more.index_of(p)] == p);
                }
            }
            assert(!done.to_set().contains(pos)) by {
                if done.contains(pos) {
                    let k = done.index_of(pos);
                    assert(candidates@[k] == candidates@[i as int]);
                }
            }
        }
        let mut place: usize = 0;
        while place < best.len() && is_nearer(center, best[place], pos)
            invariant
                place <= best@.len(),
                best@ == old_best,
                forall|k: int| 0 <= k < place ==> nearer(center, #[trigger] old_best[k], pos),
            decreases best@.len() - place,
        {
            place = place + 1;
        }
        best.insert(place, pos);
        let ghost inserted = best@;
        proof {
            assert(inserted == old_best.insert(place as int, pos));
            if place < old_best.len() {
                let q = old_best[place as int];
                assert(done.to_set().contains(q));
                assert(q != pos);
                assert(nearer(center, pos, q));
            }
            assert forall|k: int| place <= k < old_best.len() implies nearer(
                center,
                pos,
                #[trigger] old_best[k],
            ) by {
                if k > place {
                    assert(order(old_best[place as int], old_best[k]));
                }
            }
            assert forall|a: int, b: int| 0 <= a < b < inserted.len() implies order(
                #[trigger] inserted[a],
                #[trigger] inserted[b],
            ) by {
                let a0 = if a < place {
                    a
                } else {
                    a - 1
                };
                let b0 = if b < place {
                    b
                } else {
                    b - 1
                };
                if a != place && b != place {
                    assert(order(old_best[a0], old_best[b0]));
                }
            }
            assert forall|k: int| 0 <= k < inserted.len() implies more.to_set().contains(
                #[trigger] inserted[k],
            ) by {
                let k0 = if k < place {
                    k
                } else {
                    k - 1
                };
                if k != place {
                    assert(done.to_set().contains(old_best[k0]));
                }
            }
            assert forall|p: ChunkPos| inserted.contains(p) == (old_best.contains(p) || p
                == pos) by {
                if old_best.contains(p) {
                    let k = old_best.index_of(p);
                    let k1 = if k < place {
                        k
                    } else {
                        k + 1
                    };
                    assert(inserted[k1] == p);
                }
                assert(inserted[place as int] == pos);
                if inserted.contains(p) && p != pos {
                    let k = inserted.index_of(p);
                    let k0 = if k < place {
                        k
                    } else {
                        k - 1
                    };
                    assert(old_best[k0] == p);
                }
            }
            // What was left out before comes after everything that is in now,
            // unless the new column is itself the last one.
            assert forall|p: ChunkPos, k: int|
                #![trigger more.to_set().contains(p), inserted[k]]
                more.to_set().contains(p) && !inserted.contains(p) && 0 <= k < inserted.len() && (
                inserted.last() != pos || inserted[k] != pos) implies order(inserted[k], p) by {
                assert(done.to_set().contains(p));
                let k0 = if k < place {
                    k
                } else {
                    k - 1
                };
                if k != place {
                    assert(order(old_best[k0], p));
                } else {
                    let l = old_best.len() - 1;
                    if inserted.last() != pos {
                        assert(inserted.last() == old_best[l]);
                        assert(order(old_best[l], p));
                        assert(order(inserted[k], inserted.last()));
                    }
                }
            }
        }
        if best.len() > bound {
            best.pop();
            proof {
                let kept = best@;
                assert(kept == inserted.drop_last());
                let gone = inserted.last();
                assert forall|p: ChunkPos| kept.contains(p) == (inserted.contains(p) && p
                    != gone) by {
                    if kept.contains(p) {
                        let k = kept.index_of(p);
                        assert(inserted[k] == p);
                        assert(order(inserted[k], inserted[inserted.len() - 1]));
                    }
                    if inserted.contains(p) && p != gone {
                        assert(kept[inserted.index_of(p)] == p);
                    }
                }
                assert forall|p: ChunkPos, k: int|
                    #![trigger more.to_set().contains(p), kept[k]]
                    more.to_set().contains(p) && !kept.contains(p) && 0 <= k
                        < kept.len() implies order(kept[k], p) by {
                    assert(kept[k] == inserted[k]);
                    if p == gone {
                        assert(order(inserted[k], inserted[inserted.len() - 1]));
                    } else {
                        assert(!inserted.contains(p));
                        if gone == pos {
                            assert(order(inserted[k], inserted[inserted.len() - 1]));
                            assert(inserted[k] != pos);
                        }
                    }
                }
                assert(leads(kept, order, more.to_set(), bound as nat));
            }
        } else {
            proof {
                assert(old_best.len() < bound);
                assert forall|p: ChunkPos| #[trigger] more.to_set().contains(p) implies inserted.contains(
                    p,
                ) by {
                    if done.to_set().contains(p) {
                        assert(old_best.contains(p));
                    }
                }
                assert(leads(inserted, order, more.to_set(), bound as nat));
            }
        }
        i = i + 1;
    }
    assert(candidates@.take(i as int) =~= candidates@);
    best
}

/// Computes one bounded load and unload transition toward `desired`.
///
/// Nothing is kept between calls: each one looks at the newest centre, so a
/// superseded target leaves no backlog.
pub fn next_chunk_transition(
    center: ChunkPos,
    desired: &ChunkSet,
    loaded: &ChunkSet,
    load_bound: usize,
    unload_bound: usize,
) -> (r: ChunkTransition)
    requires
        desired.wf(),
        loaded.wf(),
    ensures
        r.leads_from(center, desired@, loaded@, load_bound as nat, unload_bound as nat),
{
    let missing = desired.difference(loaded);
    proof {
        crate::chunk_set::ordered_columns_are_distinct(missing@);
    }
    let load = nearest(center, &missing, load_bound);
    let mut unload = loaded.difference(desired);
    let ghost stale = unload@;
    unload.truncate(unload_bound);
    proof {
        let kept = unload@;
        let order = unloading_order();
        let all = stale.to_set();
        assert forall|i: int, j: int| 0 <= i < j < kept.len() implies order(
            #[trigger] kept[i],
            #[trigger] kept[j],
        ) by {
            assert(precedes(stale[i], stale[j]));
        }
        assert forall|i: int| 0 <= i < kept.len() implies all.contains(#[trigger] kept[i]) by {
            assert(kept[i] == stale[i]);
        }
        assert forall|p: ChunkPos, i: int|
            #![trigger all.contains(p), kept[i]]
            all.contains(p) && !kept.contains(p) && 0 <= i < kept.len() implies order(
            kept[i],
            p,
        ) by {
            let k = stale.index_of(p);
            if k < kept.len() {
                assert(kept[k] == p);
            }
            assert(precedes(stale[i], stale[k]));
        }
        if kept.len() < unload_bound {
            assert(kept =~= stale);
            assert forall|p: ChunkPos| #[trigger] all.contains(p) implies kept.contains(p) by {}
        }
    }
    ChunkTransition { load, unload }
}

/// The missing columns of a view to load next, nearest first and at most `bound`.
pub fn next_chunk_batch(
    center: ChunkPos,
    view_distance: i32,
    loaded: &ChunkSet,
    bound: usize,
) -> (r: Vec<ChunkPos>)
    requires
        loaded.wf(),
    ensures
        leads(
            r@,
            loading_order(center),
            square(center, view_distance as int).difference(loaded@),
            bound as nat,
        ),
{
    let desired = desired_chunks(center, view_distance);
    let missing = desired.difference(loaded);
    proof {
        crate::chunk_set::ordered_columns_are_distinct(missing@);
    }
    nearest(center, &missing, bound)
}

/// Whether an order puts any two different columns one before the other.
pub open spec fn strictly_orders(order: spec_fn(ChunkPos, ChunkPos) -> bool) -> bool {
    &&& forall|a: ChunkPos, b: ChunkPos| #[trigger] order(a, b) ==> !order(b, a)
    &&& forall|a: ChunkPos, b: ChunkPos| a != b ==> #[trigger] order(a, b) || order(b, a)
}

proof fn chosen_are_distinct(
    chosen: Seq<ChunkPos>,
    order: spec_fn(ChunkPos, ChunkPos) -> bool,
    all: Set<ChunkPos>,
    bound: nat,
)
    requires
        strictly_orders(order),
        leads(chosen, order, all, bound),
    ensures
        chosen.no_duplicates(),
        chosen.to_set().finite(),
        chosen.to_set().len() == chosen.len(),
        chosen.to_set().subset_of(all),
{
    assert forall|i: int, j: int|
        0 <= i < chosen.len() && 0 <= j < chosen.len() && i != j implies chosen[i] != chosen[j] by {
        if i < j {
            assert(order(chosen[i], chosen[j]));
        } else {
            assert(order(chosen[j], chosen[i]));
        }
    }
    chosen.unique_seq_to_set();
    assert forall|p: ChunkPos| chosen.to_set().contains(p) implies all.contains(p) by {
        let i = chosen.index_of(p);
        assert(chosen[i] == p);
    }
}

/// As many columns are chosen as there are, up to the bound.
pub proof fn choice_fills_the_bound(
    chosen: Seq<ChunkPos>,
    order: spec_fn(ChunkPos, ChunkPos) -> bool,
    all: Set<ChunkPos>,
    bound: nat,
)
    requires
        strictly_orders(order),
        all.finite(),
        leads(chosen, order, all, bound),
    ensures
        chosen.len() == if all.len() < bound {
            all.len()
        } else {
            bound
        },
{
    chosen_are_distinct(chosen, order, all, bound);
    lemma_len_subset(chosen.to_set(), all);
    if chosen.len() < bound {
        assert(chosen.to_set() =~= all);
    }
}

/// There is one choice only: the same state always plans the same transition.
pub proof fn choice_is_unique(
    one: Seq<ChunkPos>,
    other: Seq<ChunkPos>,
    order: spec_fn(ChunkPos, ChunkPos) -> bool,
    all: Set<ChunkPos>,
    bound: nat,
)
    requires
        strictly_orders(order),
        all.finite(),
        leads(one, order, all, bound),
        leads(other, order, all, bound),
    ensures
        one == other,
{
    choice_fills_the_bound(one, order, all, bound);
    choice_fills_the_bound(other, order, all, bound);
    assert forall|i: int| 0 <= i < one.len() implies one[i] == other[i] by {
        choice_agrees(one, other, order, all, bound, i);
    }
    assert(one =~= other);
}

proof fn choice_agrees(
    one: Seq<ChunkPos>,
    other: Seq<ChunkPos>,
    order: spec_fn(ChunkPos, ChunkPos) -> bool,
    all: Set<ChunkPos>,
    bound: nat,
    i: int,
)
    requires
        strictly_orders(order),
        leads(one, order, all, bound),
        leads(other, order, all, bound),
        one.len() == other.len(),
        0 <= i < one.len(),
    ensures
        one[i] == other[i],
    decreases i,
{
    assert forall|k: int| 0 <= k < i implies one[k] == other[k] by {
        choice_agrees(one, other, order, all, bound, k);
    }
    let a = one[i];
    let b = other[i];
    if a != b {
        assert(all.contains(a) && all.contains(b));
        if order(a, b) {
            if other.contains(a) {
                let k = other.index_of(a);
                if k < i {
                    assert(one[k] == other[k]);
                    assert(order(one[k], one[i]));
                } else if k > i {
                    assert(order(other[i], other[k]));
                }
            } else {
                assert(order(other[i], a));
            }
        } else {
            assert(order(b, a));
            if one.contains(b) {
                let k = one.index_of(b);
                if k < i {
                    assert(one[k] == other[k]);
                    assert(order(other[k], other[i]));
                } else if k > i {
                    assert(order(one[i], one[k]));
                }
            } else {
                assert(order(one[i], b));
            }
        }
    }
}

/// The orders of loading and of unloading put any two columns one before the other.
pub proof fn stream_orders_are_strict(center: ChunkPos)
    ensures
        strictly_orders(loading_order(center)),
        strictly_orders(unloading_order()),
{
}

proof fn removal_shrinks(all: Set<ChunkPos>, part: Set<ChunkPos>)
    requires
        all.finite(),
        part.subset_of(all),
    ensures
        part.finite(),
        all.difference(part).finite(),
        all.difference(part).len() == all.len() - part.len(),
{
    lemma_len_subset(part, all);
    vstd::set_lib::lemma_set_subset_finite(all, part);
    let rest = all.difference(part);
    lemma_set_disjoint_lens(rest, part);
    assert(rest.union(part) =~= all);
}

/// One transition with both bounds at `bound` loads only missing columns and
/// releases only stale ones. It shrinks the number of missing columns, and that of
/// stale columns, by `bound` or to nothing.
pub proof fn transition_makes_progress(
    center: ChunkPos,
    desired: Set<ChunkPos>,
    loaded: Set<ChunkPos>,
    bound: nat,
    transition: ChunkTransition,
)
    requires
        desired.finite(),
        loaded.finite(),
        transition.leads_from(center, desired, loaded, bound, bound),
    ensures
        transition.load@.to_set().subset_of(desired.difference(loaded)),
        transition.unload@.to_set().subset_of(loaded.difference(desired)),
        transition.load@.no_duplicates() && transition.unload@.no_duplicates(),
        ({
            let after = transition.applied(loaded);
            let missing = desired.difference(loaded).len();
            let stale = loaded.difference(desired).len();
            &&& after.finite()
            &&& after.len() == loaded.len() + transition.load@.len() - transition.unload@.len()
            &&& desired.difference(after).len() == if missing < bound {
                0
            } else {
                missing - bound
            }
            &&& after.difference(desired).len() == if stale < bound {
                0
            } else {
                stale - bound
            }
        }),
{
    let load = transition.load@;
    let unload = transition.unload@;
    let missing = desired.difference(loaded);
    let stale = loaded.difference(desired);
    stream_orders_are_strict(center);
    chosen_are_distinct(load, loading_order(center), missing, bound);
    chosen_are_distinct(unload, unloading_order(), stale, bound);
    choice_fills_the_bound(load, loading_order(center), missing, bound);
    choice_fills_the_bound(unload, unloading_order(), stale, bound);
    removal_shrinks(missing, load.to_set());
    removal_shrinks(stale, unload.to_set());
    let after = transition.applied(loaded);
    assert(desired.difference(after) =~= missing.difference(load.to_set()));
    assert(after.difference(desired) =~= stale.difference(unload.to_set()));
    removal_shrinks(loaded, unload.to_set());
    let rest = loaded.difference(unload.to_set());
    lemma_set_disjoint_lens(rest, load.to_set());
}

/// Equal bounds never let the held columns outgrow the desired square.
pub proof fn transition_keeps_the_size(
    center: ChunkPos,
    desired: Set<ChunkPos>,
    loaded: Set<ChunkPos>,
    bound: nat,
    transition: ChunkTransition,
)
    requires
        desired.finite(),
        loaded.finite(),
        loaded.len() <= desired.len(),
        transition.leads_from(center, desired, loaded, bound, bound),
    ensures
        transition.applied(loaded).len() <= desired.len(),
{
    let after = transition.applied(loaded);
    transition_makes_progress(center, desired, loaded, bound, transition);
    shared_columns(desired, loaded);
    shared_columns(desired, after);
}

/// What two sets do not share differs in size as the sets do.
proof fn shared_columns(a: Set<ChunkPos>, b: Set<ChunkPos>)
    requires
        a.finite(),
        b.finite(),
    ensures
        a.difference(b).len() - b.difference(a).len() == a.len() - b.len(),
{
    let both = a.intersect(b);
    removal_shrinks(a, both);
    removal_shrinks(b, both);
    assert(a.difference(both) =~= a.difference(b));
    assert(b.difference(both) =~= b.difference(a));
}

/// A transition is empty exactly when the client holds the desired square.
pub proof fn empty_transition_means_converged(
    center: ChunkPos,
    desired: Set<ChunkPos>,
    loaded: Set<ChunkPos>,
    load_bound: nat,
    unload_bound: nat,
    transition: ChunkTransition,
)
    requires
        load_bound > 0,
        unload_bound > 0,
        transition.leads_from(center, desired, loaded, load_bound, unload_bound),
    ensures
        (transition.load@.len() == 0 && transition.unload@.len() == 0) == (loaded == desired),
{
    let load = transition.load@;
    let unload = transition.unload@;
    let missing = desired.difference(loaded);
    let stale = loaded.difference(desired);
    if load.len() == 0 && unload.len() == 0 {
        assert forall|p: ChunkPos| loaded.contains(p) == desired.contains(p) by {
            if missing.contains(p) {
                assert(load.contains(p));
            }
            if stale.contains(p) {
                assert(unload.contains(p));
            }
        }
        assert(loaded =~= desired);
    }
    if loaded == desired {
        if load.len() > 0 {
            assert(missing.contains(load[0]));
        }
        if unload.len() > 0 {
            assert(stale.contains(unload[0]));
        }
    }
}

/// A run of pumps around one centre: the held columns before the first pump, then
/// after each.
pub open spec fn is_pump_run(
    center: ChunkPos,
    desired: Set<ChunkPos>,
    bound: nat,
    held: Seq<Set<ChunkPos>>,
    steps: Seq<ChunkTransition>,
) -> bool {
    &&& held.len() == steps.len() + 1
    &&& held[0].finite()
    &&& forall|i: int|
        0 <= i < steps.len() ==> {
            &&& (#[trigger] steps[i]).leads_from(center, desired, held[i], bound, bound)
            &&& held[i + 1] == steps[i].applied(held[i])
        }
}

/// Pumping around one centre converges: once the pumps together had room for every
/// missing and every stale column, the client holds the desired square.
pub proof fn pumping_converges(
    center: ChunkPos,
    desired: Set<ChunkPos>,
    bound: nat,
    held: Seq<Set<ChunkPos>>,
    steps: Seq<ChunkTransition>,
)
    requires
        desired.finite(),
        is_pump_run(center, desired, bound, held, steps),
        desired.difference(held[0]).len() <= bound * steps.len(),
        held[0].difference(desired).len() <= bound * steps.len(),
    ensures
        held.last() == desired,
{
    let n = steps.len() as int;
    pumps_count_down(center, desired, bound, held, steps, n);
    let last = held[n];
    let missing = desired.difference(last);
    let stale = last.difference(desired);
    vstd::set_lib::lemma_set_empty_equivalency_len(missing);
    vstd::set_lib::lemma_set_empty_equivalency_len(stale);
    assert forall|p: ChunkPos| last.contains(p) == desired.contains(p) by {
        assert(!missing.contains(p));
        assert(!stale.contains(p));
    }
    assert(last =~= desired);
}

proof fn pumps_count_down(
    center: ChunkPos,
    desired: Set<ChunkPos>,
    bound: nat,
    held: Seq<Set<ChunkPos>>,
    steps: Seq<ChunkTransition>,
    k: int,
)
    requires
        desired.finite(),
        is_pump_run(center, desired, bound, held, steps),
        0 <= k <= steps.len(),
    ensures
        held[k].finite(),
        ({
            let missing = desired.difference(held[0]).len();
            let stale = held[0].difference(desired).len();
            &&& desired.difference(held[k]).len() == if missing < bound * k {
                0
            } else {
                missing - bound * k
            }
            &&& held[k].difference(desired).len() == if stale < bound * k {
                0
            } else {
                stale - bound * k
            }
        }),
    decreases k,
{
    if k > 0 {
        pumps_count_down(center, desired, bound, held, steps, k - 1);
        transition_makes_progress(center, desired, held[k - 1], bound, steps[k - 1]);
        assert(bound * k == bound * (k - 1) + bound) by (nonlinear_arith);
        assert(bound * (k - 1) >= 0) by (nonlinear_arith)
            requires
                k >= 1,
                bound >= 0,
        ;
    } else {
        assert(bound * 0 == 0);
    }
}

spec fn rectangle(x: int, width: int, z: int, depth: int) -> Set<ChunkPos> {
    Set::new(|p: ChunkPos| x <= p.x < x + width && z <= p.z < z + depth)
}

proof fn line_size(x: int, z: int, depth: nat)
    requires
        i32::MIN <= x <= i32::MAX,
        i32::MIN <= z,
        z + depth <= i32::MAX + 1,
    ensures
        rectangle(x, 1, z, depth as int).finite(),
        rectangle(x, 1, z, depth as int).len() == depth,
    decreases depth,
{
    let whole = rectangle(x, 1, z, depth as int);
    if depth == 0 {
        assert(whole =~= Set::<ChunkPos>::empty());
    } else {
        line_size(x, z, (depth - 1) as nat);
        let shorter = rectangle(x, 1, z, depth - 1);
        let end = ChunkPos { x: x as i32, z: (z + depth - 1) as i32 };
        assert(!shorter.contains(end));
        assert forall|p: ChunkPos| whole.contains(p) == shorter.insert(end).contains(p) by {
            if whole.contains(p) && !shorter.contains(p) {
                assert(p == end);
            }
        }
        assert(whole =~= shorter.insert(end));
    }
}

proof fn rectangle_size(x: int, width: nat, z: int, depth: nat)
    requires
        i32::MIN <= x,
        x + width <= i32::MAX + 1,
        i32::MIN <= z,
        z + depth <= i32::MAX + 1,
    ensures
        rectangle(x, width as int, z, depth as int).finite(),
        rectangle(x, width as int, z, depth as int).len() == width * depth,
    decreases width,
{
    let whole = rectangle(x, width as int, z, depth as int);
    if width == 0 {
        assert(whole =~= Set::<ChunkPos>::empty());
        assert(0 * depth == 0);
    } else {
        rectangle_size(x, (width - 1) as nat, z, depth);
        let narrower = rectangle(x, width - 1, z, depth as int);
        let line = rectangle(x + width - 1, 1, z, depth as int);
        line_size(x + width - 1, z, depth);
        lemma_set_disjoint_lens(narrower, line);
        assert(whole =~= narrower.union(line));
        assert(width * depth == (width - 1) * depth + depth) by (nonlinear_arith)
            requires
                width >= 1,
        ;
    }
}

/// A square that the coordinate range does not cut off holds `(2 * radius + 1)`
/// squared columns.
pub proof fn square_size(center: ChunkPos, radius: int)
    requires
        0 <= radius,
        i32::MIN <= center.x - radius,
        center.x + radius <= i32::MAX,
        i32::MIN <= center.z - radius,
        center.z + radius <= i32::MAX,
    ensures
        square(center, radius).finite(),
        square(center, radius).len() == (2 * radius + 1) * (2 * radius + 1),
{
    let side = (2 * radius + 1) as nat;
    rectangle_size(center.x - radius, side, center.z - radius, side);
    assert(square(center, radius) =~= rectangle(
        center.x - radius,
        side as int,
        center.z - radius,
        side as int,
    ));
}

/// A server-driven position update of the player.
#[derive(Clone, Copy, Debug, PartialEq, Eq, Structural)]
pub struct PositionSync {
    /// The destination.
    pub position: Vec3,
    /// The look at the destination.
    pub rotation: Rotation,
    /// Which components are relative; zero where all are absolute.
    pub flags: u32,
}

impl PositionSync {
    /// Whether the update names a destination that can be trusted: all absolute,
    /// a position that a player may stand at, and a finite look.
    pub open spec fn trustworthy(self) -> bool {
        &&& self.flags == 0
        &&& valid_position(self.position)
        &&& self.rotation.yaw.finite()
        &&& self.rotation.pitch.finite()
    }
}

/// Per-connection chunk-streaming state: which chunk the client is centred on and
/// which chunk columns it currently holds.
#[derive(Debug)]
pub struct ChunkStream {
    /// The chunk the client is currently centred on.
    pub center: ChunkPos,
    /// The radius, in chunks, of the streamed view.
    pub view_distance: i32,
    /// The chunk columns the client currently holds.
    pub loaded: ChunkSet,
    /// The latest accepted position or teleport since the last evaluation.
    pub pending_position: Option<Vec3>,
    /// The latest accepted position or teleport.
    pub last_position: Option<Vec3>,
    /// The block of the latest accepted position or teleport.
    pub last_move_block: Option<BlockPos>,
}

impl ChunkStream {
    /// Whether the view distance is within its bounds and the held columns in order.
    pub open spec fn wf(self) -> bool {
        &&& 0 <= self.view_distance <= STREAM_VIEW_DISTANCE_MAX
        &&& self.loaded.wf()
    }

    /// Whether a player may stand wherever the stream has the player.
    pub open spec fn positions_are_safe(self) -> bool {
        &&& self.pending_position matches Some(position) ==> valid_position(position)
        &&& self.last_position matches Some(position) ==> valid_position(position)
    }

    /// The stream once the player is at a position.
    pub open spec fn moved_to(self, position: Vec3) -> ChunkStream {
        ChunkStream {
            pending_position: Some(position),
            last_position: Some(position),
            last_move_block: Some(position.block()),
            ..self
        }
    }

    /// The blocks that a player who is at a position now has left and entered.
    pub open spec fn crossing(self, position: Vec3) -> Option<(BlockPos, BlockPos)> {
        match self.last_move_block {
            Some(from) if from != position.block() => Some((from, position.block())),
            _ => None,
        }
    }

    /// The stream once a new centre was announced, or could not be.
    pub open spec fn recentered(self, center: ChunkPos, announced: bool) -> ChunkStream {
        if announced {
            ChunkStream { center, ..self }
        } else {
            self
        }
    }

    /// The centre that the pending target asks for, where it is another one.
    pub open spec fn next_center(self) -> Option<ChunkPos> {
        match self.pending_position {
            Some(position) if position.block().column() != self.center => Some(
                position.block().column(),
            ),
            _ => None,
        }
    }

    /// The columns the client should hold.
    pub open spec fn view_square(self) -> Set<ChunkPos> {
        square(self.center, self.view_distance as int)
    }

    /// Seeds the stream: centred on the spawn chunk and already holding the columns
    /// the client received at join.
    pub fn new(spawn_chunk: ChunkPos, view_distance: i32, columns: &Vec<ChunkPos>) -> (r: Self)
        ensures
            r.wf(),
            r.center == spawn_chunk,
            r.view_distance == if view_distance < 0 {
                0
            } else if view_distance > STREAM_VIEW_DISTANCE_MAX {
                STREAM_VIEW_DISTANCE_MAX
            } else {
                view_distance
            },
            r.loaded@ == columns@.to_set(),
            r.pending_position is None,
            r.last_position is None,
            r.last_move_block is None,
    {
        let view_distance: i32 = if view_distance < 0 {
            0
        } else if view_distance > STREAM_VIEW_DISTANCE_MAX {
            STREAM_VIEW_DISTANCE_MAX
        } else {
            view_distance
        };
        ChunkStream {
            center: spawn_chunk,
            view_distance,
            loaded: ChunkSet::from_columns(columns),
            pending_position: None,
            last_position: None,
            last_move_block: None,
        }
    }

    /// Records the client's latest validated and admitted position.
    pub fn observe(&mut self, position: Vec3)
        requires
            old(self).wf(),
        ensures
            final(self).wf(),
            *final(self) == (ChunkStream {
                pending_position: Some(position),
                last_position: Some(position),
                ..*old(self)
            }),
    {
        self.pending_position = Some(position);
        self.last_position = Some(position);
    }

    /// The latest accepted client position or authoritative server teleport, or
    /// `None` if neither occurred.
    pub fn last_position(&self) -> (r: Option<Vec3>)
        ensures
            r == self.last_position,
    {
        self.last_position
    }

    /// Records `position` and returns the blocks left and entered if the player
    /// entered another block since the last call; the first call only sets the
    /// baseline.
    pub fn block_crossing(&mut self, position: Vec3) -> (r: Option<(BlockPos, BlockPos)>)
        requires
            old(self).wf(),
        ensures
            final(self).wf(),
            *final(self) == (ChunkStream {
                last_move_block: Some(position.block()),
                ..*old(self)
            }),
            r == old(self).crossing(position),
            r == match old(self).last_move_block {
                Some(from) if from != position.block() => Some((from, position.block())),
                _ => None,
            },
    {
        let to = block_of(position);
        let crossing = match self.last_move_block {
            Some(from) => if from == to {
                None
            } else {
                Some((from, to))
            },
            None => None,
        };
        self.last_move_block = Some(to);
        crossing
    }

    /// Records one authoritative server teleport for persistence and streaming, and
    /// as the new baseline of block crossings.
    pub fn mirror_teleport(&mut self, position: Vec3)
        requires
            old(self).wf(),
        ensures
            final(self).wf(),
            *final(self) == (ChunkStream {
                pending_position: Some(position),
                last_position: Some(position),
                last_move_block: Some(position.block()),
                ..*old(self)
            }),
    {
        self.pending_position = Some(position);
        self.last_position = Some(position);
        self.last_move_block = Some(block_of(position));
    }

    /// Takes the pending target and returns the centre to announce to the client,
    /// where the target lies in another column.
    pub fn apply_chunk_stream(&mut self) -> (r: Option<ChunkPos>)
        requires
            old(self).wf(),
        ensures
            final(self).wf(),
            *final(self) == (ChunkStream { pending_position: None, ..*old(self) }),
            r == old(self).next_center(),
            r == match old(self).pending_position {
                Some(position) if position.block().column() != old(self).center => Some(
                    position.block().column(),
                ),
                _ => None,
            },
    {
        let target = match self.pending_position {
            Some(position) => {
                let new_center = chunk_of(position);
                if new_center == self.center {
                    None
                } else {
                    Some(new_center)
                }
            },
            None => None,
        };
        self.pending_position = None;
        target
    }

    /// Moves the centre once its announcement is queued.
    ///
    /// The centre is mandatory client state: where its announcement was dropped, the
    /// centre stays and the session must end. Tells whether the session goes on.
    pub fn recenter(&mut self, center: ChunkPos, announced: bool) -> (r: bool)
        requires
            old(self).wf(),
        ensures
            final(self).wf(),
            r == announced,
            *final(self) == old(self).recentered(center, announced),
            *final(self) == if announced {
                ChunkStream { center, ..*old(self) }
            } else {
                *old(self)
            },
    {
        if announced {
            self.center = center;
        }
        announced
    }

    /// Plans the next bounded transition toward the full view and drops the released
    /// columns from the held ones; `None` once the client holds its view.
    pub fn pump_chunk_stream(&mut self) -> (r: Option<ChunkTransition>)
        requires
            old(self).wf(),
        ensures
            final(self).wf(),
            final(self).center == old(self).center,
            final(self).view_distance == old(self).view_distance,
            final(self).pending_position == old(self).pending_position,
            final(self).last_position == old(self).last_position,
            final(self).last_move_block == old(self).last_move_block,
            match r {
                None => {
                    &&& old(self).loaded@ == old(self).view_square()
                    &&& final(self).loaded@ == old(self).loaded@
                },
                Some(transition) => {
                    &&& old(self).loaded@ != old(self).view_square()
                    &&& transition.leads_from(
                        old(self).center,
                        old(self).view_square(),
                        old(self).loaded@,
                        MAX_CHUNK_LOADS_PER_UPDATE as nat,
                        MAX_CHUNK_UNLOADS_PER_UPDATE as nat,
                    )
                    &&& final(self).loaded@ == old(self).loaded@.difference(
                        transition.unload@.to_set(),
                    )
                },
            },
    {
        let desired = desired_chunks(self.center, self.view_distance);
        let transition = next_chunk_transition(
            self.center,
            &desired,
            &self.loaded,
            MAX_CHUNK_LOADS_PER_UPDATE,
            MAX_CHUNK_UNLOADS_PER_UPDATE,
        );
        proof {
            empty_transition_means_converged(
                self.center,
                desired@,
                self.loaded@,
                MAX_CHUNK_LOADS_PER_UPDATE as nat,
                MAX_CHUNK_UNLOADS_PER_UPDATE as nat,
                transition,
            );
        }
        if transition.load.len() == 0 && transition.unload.len() == 0 {
            return None;
        }
        let mut i: usize = 0;
        let ghost held = self.loaded@;
        let ghost gone = transition.unload@;
        assert(held.difference(gone.take(0).to_set()) =~= held);
        while i < transition.unload.len()
            invariant
                i <= gone.len(),
                gone == transition.unload@,
                self.wf(),
                self.center == old(self).center,
                self.view_distance == old(self).view_distance,
                self.pending_position == old(self).pending_position,
                self.last_position == old(self).last_position,
                self.last_move_block == old(self).last_move_block,
                self.loaded@ == held.difference(gone.take(i as int).to_set()),
            decreases gone.len() - i,
        {
            let pos = transition.unload[i];
            self.loaded.remove(pos);
            proof {
                let done = gone.take(i as int);
                let more = gone.take(i + 1);
                assert forall|p: ChunkPos| more.to_set().contains(p) == (done.to_set().contains(p)
                    || p == pos) by {
                    if done.contains(p) {
                        assert(more[done.index_of(p)] == p);
                    }
                    assert(more[i as int] == pos);
                    if more.contains(p) && p != pos {
                        assert(done[more.index_of(p)] == p);
                    }
                }
                assert(held.difference(done.to_set()).remove(pos) =~= held.difference(
                    more.to_set(),
                ));
            }
            i = i + 1;
        }
        assert(gone.take(i as int) =~= gone);
        Some(transition)
    }

    /// Records a column that the simulation built for the client, whether or not its
    /// packet was queued: the column's ticket is taken either way.
    pub fn record_streamed(&mut self, column: ChunkPos)
        requires
            old(self).wf(),
        ensures
            final(self).wf(),
            final(self).loaded@ == old(self).loaded@.insert(column),
            final(self).center == old(self).center,
            final(self).view_distance == old(self).view_distance,
            final(self).pending_position == old(self).pending_position,
            final(self).last_position == old(self).last_position,
            final(self).last_move_block == old(self).last_move_block,
    {
        self.loaded.insert(column);
    }

    /// Records the columns that the simulation built for the client.
    pub fn record_all_streamed(&mut self, columns: &Vec<ChunkPos>)
        requires
            old(self).wf(),
        ensures
            final(self).wf(),
            final(self).loaded@ == old(self).loaded@.union(columns@.to_set()),
            final(self).center == old(self).center,
            final(self).view_distance == old(self).view_distance,
            final(self).pending_position == old(self).pending_position,
            final(self).last_position == old(self).last_position,
            final(self).last_move_block == old(self).last_move_block,
    {
        let mut i: usize = 0;
        let ghost held = self.loaded@;
        assert(held.union(columns@.take(0).to_set()) =~= held);
        while i < columns.len()
            invariant
                i <= columns@.len(),
                self.wf(),
                self.center == old(self).center,
                self.view_distance == old(self).view_distance,
                self.pending_position == old(self).pending_position,
                self.last_position == old(self).last_position,
                self.last_move_block == old(self).last_move_block,
                self.loaded@ == held.union(columns@.take(i as int).to_set()),
            decreases columns@.len() - i,
        {
            let pos = columns[i];
            self.record_streamed(pos);
            proof {
                let done = columns@.take(i as int);
                let more = columns@.take(i + 1);
                assert forall|p: ChunkPos| more.to_set().contains(p) == (done.to_set().contains(p)
                    || p == pos) by {
                    if done.contains(p) {
                        assert(more[done.index_of(p)] == p);
                    }
                    assert(more[i as int] == pos);
                    if more.contains(p) && p != pos {
                        assert(done[more.index_of(p)] == p);
                    }
                }
                assert(held.union(done.to_set()).insert(pos) =~= held.union(more.to_set()));
            }
            i = i + 1;
        }
        assert(columns@.take(i as int) =~= columns@);
    }
}

/// The mirror of the player's look after a server-driven position update.
pub open spec fn look_synced(look: Rotation, sync: PositionSync) -> Rotation {
    if sync.trustworthy() {
        sync.rotation
    } else {
        look
    }
}

/// A teleport that is trusted sets the look as well, yaw as yaw and pitch as pitch; one that
/// is not leaves it. The same teleport again changes nothing more.
pub proof fn teleports_set_the_look(look: Rotation, sync: PositionSync)
    ensures
        sync.trustworthy() ==> look_synced(look, sync).yaw == sync.rotation.yaw && look_synced(
            look,
            sync,
        ).pitch == sync.rotation.pitch,
        !sync.trustworthy() ==> look_synced(look, sync) == look,
        look_synced(look_synced(look, sync), sync) == look_synced(look, sync),
{
}

/// Mirrors a server-driven absolute teleport into the persistence state, so that a
/// later leave-save captures the destination and its look.
///
/// An update that is partly relative, or whose destination is not safe, leaves
/// everything as it is.
pub fn mirror_server_teleport(stream: &mut ChunkStream, look: &mut Rotation, sync: PositionSync)
    requires
        old(stream).wf(),
    ensures
        final(stream).wf(),
        old(stream).positions_are_safe() ==> final(stream).positions_are_safe(),
        *final(stream) == if sync.trustworthy() {
            old(stream).moved_to(sync.position)
        } else {
            *old(stream)
        },
        *final(stream) == if sync.trustworthy() {
            ChunkStream {
                pending_position: Some(sync.position),
                last_position: Some(sync.position),
                last_move_block: Some(sync.position.block()),
                ..*old(stream)
            }
        } else {
            *old(stream)
        },
        *final(look) == look_synced(*old(look), sync),
        *final(look) == if sync.trustworthy() {
            sync.rotation
        } else {
            *old(look)
        },
{
    if sync.flags != 0 || !is_valid_player_position(sync.position) || !sync.rotation.yaw.is_finite()
        || !sync.rotation.pitch.is_finite() {
        return;
    }
    stream.mirror_teleport(sync.position);
    *look = sync.rotation;
}

/// A pump whose planned columns all come back carries its transition out.
pub proof fn completed_pump_applies_its_transition(
    held: Set<ChunkPos>,
    transition: ChunkTransition,
    streamed: Seq<ChunkPos>,
)
    requires
        streamed.to_set() == transition.load@.to_set(),
    ensures
        held.difference(transition.unload@.to_set()).union(streamed.to_set())
            == transition.applied(held),
{
}

/// A client never holds more columns than its view square has: not after a pump, and not
/// where only some of the planned columns came back.
pub proof fn held_columns_stay_bounded(
    center: ChunkPos,
    view_distance: int,
    held: Set<ChunkPos>,
    bound: nat,
    transition: ChunkTransition,
    streamed: Set<ChunkPos>,
)
    requires
        0 <= view_distance,
        i32::MIN <= center.x - view_distance,
        center.x + view_distance <= i32::MAX,
        i32::MIN <= center.z - view_distance,
        center.z + view_distance <= i32::MAX,
        held.finite(),
        held.len() <= (2 * view_distance + 1) * (2 * view_distance + 1),
        transition.leads_from(center, square(center, view_distance), held, bound, bound),
        streamed.subset_of(transition.load@.to_set()),
    ensures
        held.difference(transition.unload@.to_set()).union(streamed).len() <= (2 * view_distance
            + 1) * (2 * view_distance + 1),
{
    let desired = square(center, view_distance);
    square_size(center, view_distance);
    transition_makes_progress(center, desired, held, bound, transition);
    transition_keeps_the_size(center, desired, held, bound, transition);
    let part = held.difference(transition.unload@.to_set()).union(streamed);
    let whole = transition.applied(held);
    assert(part.subset_of(whole));
    lemma_len_subset(part, whole);
}

/// The square around a centre holds the columns that are within the radius along both axes,
/// and no others; distances are the same in both directions.
pub proof fn squares_reach_the_radius(center: ChunkPos, radius: int, p: ChunkPos)
    ensures
        square(center, radius).contains(p) <==> (center.x - radius <= p.x <= center.x + radius
            && center.z - radius <= p.z <= center.z + radius),
        chebyshev(center, p) == chebyshev(p, center),
        chebyshev(center, p) == 0 <==> center == p,
        chebyshev(center, p) >= 0,
{
}

/// A transition takes the nearest first: nothing that is left missing is nearer than anything
/// that is loaded, and each load is no farther than the next; it releases by coordinates, first
/// east and then south. It loads only what is wanted and missing,
/// releases only what is held and not wanted, and keeps both within their bounds.
pub proof fn transitions_take_the_nearest(
    transition: ChunkTransition,
    center: ChunkPos,
    desired: Set<ChunkPos>,
    loaded: Set<ChunkPos>,
    load_bound: nat,
    unload_bound: nat,
)
    requires
        transition.leads_from(center, desired, loaded, load_bound, unload_bound),
    ensures
        transition.load@.len() <= load_bound,
        transition.unload@.len() <= unload_bound,
        forall|i: int|
            #![trigger transition.load@[i]]
            0 <= i < transition.load@.len() ==> desired.contains(transition.load@[i])
                && !loaded.contains(transition.load@[i]),
        forall|i: int|
            #![trigger transition.unload@[i]]
            0 <= i < transition.unload@.len() ==> loaded.contains(transition.unload@[i])
                && !desired.contains(transition.unload@[i]),
        forall|i: int, j: int|
            0 <= i < j < transition.load@.len() ==> chebyshev(
                center,
                #[trigger] transition.load@[i],
            ) <= chebyshev(center, #[trigger] transition.load@[j]),
        forall|i: int, j: int|
            #![trigger transition.unload@[i], transition.unload@[j]]
            0 <= i < j < transition.unload@.len() ==> transition.unload@[i].x
                < transition.unload@[j].x || (transition.unload@[i].x == transition.unload@[j].x
                && transition.unload@[i].z < transition.unload@[j].z),
        forall|p: ChunkPos, i: int|
            #![trigger desired.contains(p), transition.load@[i]]
            desired.contains(p) && !loaded.contains(p) && !transition.load@.contains(p) && 0 <= i
                < transition.load@.len() ==> chebyshev(center, transition.load@[i]) <= chebyshev(
                center,
                p,
            ),
        transition.load@.len() < load_bound ==> forall|p: ChunkPos| #[trigger]
            desired.contains(p) && !loaded.contains(p) ==> transition.load@.contains(p),
        transition.unload@.len() < unload_bound ==> forall|p: ChunkPos| #[trigger]
            loaded.contains(p) && !desired.contains(p) ==> transition.unload@.contains(p),
{
    let order = loading_order(center);
    let missing = desired.difference(loaded);
    let stale = loaded.difference(desired);
    assert forall|i: int| 0 <= i < transition.load@.len() implies desired.contains(
        #[trigger] transition.load@[i],
    ) && !loaded.contains(transition.load@[i]) by {
        assert(missing.contains(transition.load@[i]));
    }
    let release = unloading_order();
    assert forall|i: int, j: int|
        #![trigger transition.unload@[i], transition.unload@[j]]
        0 <= i < j < transition.unload@.len() implies precedes(
        transition.unload@[i],
        transition.unload@[j],
    ) by {
        assert(release(transition.unload@[i], transition.unload@[j]));
    }
    assert forall|i: int| 0 <= i < transition.unload@.len() implies loaded.contains(
        #[trigger] transition.unload@[i],
    ) && !desired.contains(transition.unload@[i]) by {
        assert(stale.contains(transition.unload@[i]));
    }
    assert forall|i: int, j: int| 0 <= i < j < transition.load@.len() implies chebyshev(
        center,
        #[trigger] transition.load@[i],
    ) <= chebyshev(center, #[trigger] transition.load@[j]) by {
        assert(order(transition.load@[i], transition.load@[j]));
    }
    assert forall|p: ChunkPos, i: int|
        #![trigger desired.contains(p), transition.load@[i]]
        desired.contains(p) && !loaded.contains(p) && !transition.load@.contains(p) && 0 <= i
            < transition.load@.len() implies chebyshev(center, transition.load@[i]) <= chebyshev(
        center,
        p,
    ) by {
        assert(missing.contains(p));
        assert(order(transition.load@[i], p));
    }
    if transition.load@.len() < load_bound {
        assert forall|p: ChunkPos| #[trigger] desired.contains(p) && !loaded.contains(p) implies
            transition.load@.contains(p) by {
            assert(missing.contains(p));
        }
    }
    if transition.unload@.len() < unload_bound {
        assert forall|p: ChunkPos| #[trigger] loaded.contains(p) && !desired.contains(p) implies
            transition.unload@.contains(p) by {
            assert(stale.contains(p));
        }
    }
}

/// A teleport is mirrored exactly where it can be trusted: fully absolute, to a place where a
/// player may stand, with a finite look.
pub proof fn trusted_teleports_are_safe(sync: PositionSync)
    ensures
        sync.trustworthy() == (sync.flags == 0 && valid_position(sync.position)
            && sync.rotation.yaw.finite() && sync.rotation.pitch.finite()),
{
}

/// A player who moved is saved, streamed around and watched from the same place: it is their
/// last position, the next target of the stream, and its block the one that a crossing is
/// counted from. The view and the held columns stay. A crossing is told exactly where the
/// block is another one, from the old block to the new; and the same place again crosses
/// nothing.
pub proof fn moves_are_mirrored_everywhere(stream: ChunkStream, position: Vec3, next: Vec3)
    ensures
        ({
            let moved = stream.moved_to(position);
            &&& moved.last_position == Some(position) && moved.pending_position == Some(position)
            &&& moved.center == stream.center && moved.loaded == stream.loaded
            &&& moved.view_distance == stream.view_distance
            &&& moved.crossing(position) is None
            &&& moved.crossing(next) is Some == (next.block() != position.block())
            &&& moved.crossing(next) matches Some((from, to)) ==> from == position.block() && to
                == next.block()
            &&& moved.next_center() is Some == (position.block().column() != stream.center)
            &&& moved.next_center() matches Some(center) ==> center == position.block().column()
            &&& stream.pending_position is None ==> stream.next_center() is None
            &&& stream.last_move_block is None ==> stream.crossing(position) is None
        }),
{
}

/// The centre follows what the client was told: an announcement that was queued moves it, and
/// one that was dropped leaves everything as it is. The held columns never move with it.
pub proof fn centers_follow_announcements(stream: ChunkStream, center: ChunkPos)
    ensures
        stream.recentered(center, false) == stream,
        stream.recentered(center, true).center == center,
        stream.recentered(center, true).loaded == stream.loaded,
        stream.recentered(center, true).last_position == stream.last_position,
        stream.recentered(center, true).view_square() == square(
            center,
            stream.view_distance as int,
        ),
{
}

} // verus!
