//! Sets of chunk columns, kept in coordinate order.

use crate::math::ChunkPos;
use vstd::prelude::*;

verus! {

/// The coordinate order of chunk columns: by `x`, then by `z`.
pub open spec fn precedes(a: ChunkPos, b: ChunkPos) -> bool {
    a.x < b.x || (a.x == b.x && a.z < b.z)
}

/// Whether columns stand in coordinate order, each of them once.
pub open spec fn in_order(s: Seq<ChunkPos>) -> bool {
    forall|i: int, j: int| 0 <= i < j < s.len() ==> precedes(#[trigger] s[i], #[trigger] s[j])
}

fn is_before(a: ChunkPos, b: ChunkPos) -> (r: bool)
    ensures
        r == precedes(a, b),
{
    a.x < b.x || (a.x == b.x && a.z < b.z)
}

/// A set of chunk columns.
#[derive(Debug, PartialEq, Eq)]
pub struct ChunkSet {
    items: Vec<ChunkPos>,
}

impl View for ChunkSet {
    type V = Set<ChunkPos>;

    closed spec fn view(&self) -> Set<ChunkPos> {
        self.items@.to_set()
    }
}

/// Columns in order are all different, so their set has as many members.
pub proof fn ordered_columns_are_distinct(s: Seq<ChunkPos>)
    requires
        in_order(s),
    ensures
        s.no_duplicates(),
        s.to_set().finite(),
        s.to_set().len() == s.len(),
{
    assert(s.no_duplicates());
    s.unique_seq_to_set();
}

impl ChunkSet {
    /// Whether the columns are kept in coordinate order, each of them once.
    pub closed spec fn wf(self) -> bool {
        in_order(self.items@)
    }

    /// The columns in coordinate order.
    pub closed spec fn sequence(self) -> Seq<ChunkPos> {
        self.items@
    }

    /// The set without columns.
    pub fn new() -> (r: ChunkSet)
        ensures
            r.wf(),
            r@ == Set::<ChunkPos>::empty(),
            r@.finite(),
            r.sequence() == Seq::<ChunkPos>::empty(),
    {
        let r = ChunkSet { items: Vec::new() };
        assert(r@ =~= Set::<ChunkPos>::empty());
        r
    }

    /// The columns in coordinate order.
    pub fn columns(&self) -> (r: &Vec<ChunkPos>)
        requires
            self.wf(),
        ensures
            r@ == self.sequence(),
            in_order(r@),
            r@.to_set() == self@,
            r@.len() == self@.len(),
            self@.finite(),
    {
        proof {
            ordered_columns_are_distinct(self.items@);
        }
        &self.items
    }

    /// The number of columns.
    pub fn len(&self) -> (r: usize)
        requires
            self.wf(),
        ensures
            r == self@.len(),
            self@.finite(),
    {
        proof {
            ordered_columns_are_distinct(self.items@);
        }
        self.items.len()
    }

    /// The place of the first column not before `pos`.
    fn place(&self, pos: ChunkPos) -> (r: usize)
        requires
            self.wf(),
        ensures
            r <= self.items@.len(),
            forall|i: int| 0 <= i < r ==> precedes(#[trigger] self.items@[i], pos),
            forall|i: int| r <= i < self.items@.len() ==> !precedes(#[trigger] self.items@[i], pos),
    {
        let mut low: usize = 0;
        let mut high: usize = self.items.len();
        while low < high
            invariant
                low <= high <= self.items@.len(),
                in_order(self.items@),
                forall|i: int| 0 <= i < low ==> precedes(#[trigger] self.items@[i], pos),
                forall|i: int|
                    high <= i < self.items@.len() ==> !precedes(#[trigger] self.items@[i], pos),
            decreases high - low,
        {
            let middle: usize = low + (high - low) / 2;
            let ghost m = self.items@[middle as int];
            if is_before(self.items[middle], pos) {
                assert forall|i: int| 0 <= i < middle + 1 implies precedes(
                    #[trigger] self.items@[i],
                    pos,
                ) by {
                    if i < middle {
                        assert(precedes(self.items@[i], m));
                    }
                }
                low = middle + 1;
            } else {
                assert forall|i: int| middle <= i < self.items@.len() implies !precedes(
                    #[trigger] self.items@[i],
                    pos,
                ) by {
                    if i > middle {
                        assert(precedes(m, self.items@[i]));
                    }
                }
                high = middle;
            }
        }
        low
    }

    /// Whether a column is a member.
    pub fn contains(&self, pos: ChunkPos) -> (r: bool)
        requires
            self.wf(),
        ensures
            r == self@.contains(pos),
    {
        let place = self.place(pos);
        let found = place < self.items.len() && self.items[place] == pos;
        proof {
            if self.items@.contains(pos) {
                let i = self.items@.index_of(pos);
                assert(self.items@[i] == pos);
                if place < i {
                    assert(precedes(self.items@[place as int], self.items@[i]));
                }
            }
        }
        found
    }

    /// Adds a column; tells whether it was not a member before.
    pub fn insert(&mut self, pos: ChunkPos) -> (r: bool)
        requires
            old(self).wf(),
        ensures
            final(self).wf(),
            final(self)@ == old(self)@.insert(pos),
            r == !old(self)@.contains(pos),
    {
        let place = self.place(pos);
        let ghost before = self.items@;
        if place < self.items.len() && self.items[place] == pos {
            assert(before.to_set().contains(before[place as int]));
            assert(before.to_set().insert(pos) =~= before.to_set());
            return false;
        }
        let ghost after = before.insert(place as int, pos);
        proof {
            assert forall|i: int, j: int| 0 <= i < j < after.len() implies precedes(
                #[trigger] after[i],
                #[trigger] after[j],
            ) by {
                let a = if i < place {
                    i
                } else {
                    i - 1
                };
                let b = if j < place {
                    j
                } else {
                    j - 1
                };
                if i == place {
                    let x = before[b];
                    assert(!precedes(x, pos));
                    if x == pos && b > place {
                        assert(precedes(before[place as int], x));
                    }
                } else if j == place {
                    assert(precedes(before[a], pos));
                } else {
                    assert(precedes(before[a], before[b]));
                }
            }
            assert forall|p: ChunkPos| after.to_set().contains(p) == before.to_set().insert(
                pos,
            ).contains(p) by {
                if before.contains(p) {
                    let i = before.index_of(p);
                    let k = if i < place {
                        i
                    } else {
                        i + 1
                    };
                    assert(after[k] == p);
                }
                if p == pos {
                    assert(after[place as int] == p);
                }
                if after.contains(p) && p != pos {
                    let k = after.index_of(p);
                    let i = if k < place {
                        k
                    } else {
                        k - 1
                    };
                    assert(before[i] == p);
                }
            }
            assert(after.to_set() =~= before.to_set().insert(pos));
            if before.contains(pos) {
                let i = before.index_of(pos);
                assert(!precedes(before[i], pos));
                if place < i {
                    assert(precedes(before[place as int], before[i]));
                }
            }
        }
        self.items.insert(place, pos);
        true
    }

    /// Removes a column; tells whether it was a member.
    pub fn remove(&mut self, pos: ChunkPos) -> (r: bool)
        requires
            old(self).wf(),
        ensures
            final(self).wf(),
            final(self)@ == old(self)@.remove(pos),
            r == old(self)@.contains(pos),
    {
        let place = self.place(pos);
        let ghost before = self.items@;
        if place < self.items.len() && self.items[place] == pos {
            let ghost after = before.remove(place as int);
            proof {
                assert forall|i: int, j: int| 0 <= i < j < after.len() implies precedes(
                    #[trigger] after[i],
                    #[trigger] after[j],
                ) by {
                    let a = if i < place {
                        i
                    } else {
                        i + 1
                    };
                    let b = if j < place {
                        j
                    } else {
                        j + 1
                    };
                    assert(precedes(before[a], before[b]));
                }
                assert forall|p: ChunkPos| after.to_set().contains(p) == before.to_set().remove(
                    pos,
                ).contains(p) by {
                    if after.contains(p) {
                        let i = after.index_of(p);
                        let k = if i < place {
                            i
                        } else {
                            i + 1
                        };
                        assert(before[k] == p);
                        if k < place {
                            assert(precedes(before[k], before[place as int]));
                        } else {
                            assert(precedes(before[place as int], before[k]));
                        }
                    }
                    if before.contains(p) && p != pos {
                        let i = before.index_of(p);
                        let k = if i < place {
                            i
                        } else {
                            i - 1
                        };
                        assert(after[k] == p);
                    }
                }
                assert(after.to_set() =~= before.to_set().remove(pos));
                assert(before.contains(before[place as int]));
            }
            self.items.remove(place);
            return true;
        }
        proof {
            if before.contains(pos) {
                let i = before.index_of(pos);
                assert(!precedes(before[i], pos));
                if place < i {
                    assert(precedes(before[place as int], before[i]));
                }
            }
            assert(before.to_set().remove(pos) =~= before.to_set());
        }
        false
    }

    /// The members that another set lacks, in coordinate order.
    pub fn difference(&self, other: &ChunkSet) -> (r: Vec<ChunkPos>)
        requires
            self.wf(),
            other.wf(),
        ensures
            in_order(r@),
            r@.to_set() == self@.difference(other@),
            r@.len() == self@.difference(other@).len(),
            self@.difference(other@).finite(),
    {
        let mut out: Vec<ChunkPos> = Vec::new();
        let mut i: usize = 0;
        while i < self.items.len()
            invariant
                i <= self.items@.len(),
                self.wf(),
                other.wf(),
                in_order(out@),
                forall|p: ChunkPos|
                    #[trigger] out@.contains(p) == (self.items@.take(i as int).contains(p)
                        && !other@.contains(p)),
            decreases self.items@.len() - i,
        {
            let pos = self.items[i];
            let ghost done = self.items@.take(i as int);
            let ghost more = self.items@.take(i + 1);
            let ghost before = out@;
            proof {
                assert(more =~= done.push(pos));
                assert forall|p: ChunkPos| more.contains(p) == (done.contains(p) || p == pos) by {
                    if done.contains(p) {
                        let k = done.index_of(p);
                        assert(more[k] == p);
                    }
                    assert(more[i as int] == pos);
                    if more.contains(p) && p != pos {
                        let k = more.index_of(p);
                        assert(done[k] == p);
                    }
                }
            }
            if !other.contains(pos) {
                out.push(pos);
                proof {
                    assert forall|a: int, b: int| 0 <= a < b < out@.len() implies precedes(
                        #[trigger] out@[a],
                        #[trigger] out@[b],
                    ) by {
                        if b < before.len() {
                            assert(precedes(before[a], before[b]));
                        } else {
                            assert(before.contains(before[a]));
                            let k = done.index_of(before[a]);
                            assert(precedes(self.items@[k], self.items@[i as int]));
                        }
                    }
                    assert forall|p: ChunkPos| #[trigger]
                        out@.contains(p) == (more.contains(p) && !other@.contains(p)) by {
                        if before.contains(p) {
                            let k = before.index_of(p);
                            assert(out@[k] == p);
                        }
                        assert(out@[before.len() as int] == pos);
                        if out@.contains(p) && p != pos {
                            let k = out@.index_of(p);
                            assert(before[k] == p);
                        }
                    }
                }
            } else {
                assert forall|p: ChunkPos| #[trigger]
                    out@.contains(p) == (more.contains(p) && !other@.contains(p)) by {}
            }
            i = i + 1;
        }
        proof {
            assert(self.items@.take(i as int) =~= self.items@);
            assert(out@.to_set() =~= self@.difference(other@));
            ordered_columns_are_distinct(out@);
        }
        out
    }

    /// The set of ordered columns.
    pub fn from_ordered(items: Vec<ChunkPos>) -> (r: ChunkSet)
        requires
            in_order(items@),
        ensures
            r.wf(),
            r@ == items@.to_set(),
            r.sequence() == items@,
    {
        ChunkSet { items }
    }

    /// The set of columns in any order.
    pub fn from_columns(columns: &Vec<ChunkPos>) -> (r: ChunkSet)
        ensures
            r.wf(),
            r@ == columns@.to_set(),
    {
        let mut set = ChunkSet::new();
        let mut i: usize = 0;
        assert(columns@.take(0).to_set() =~= Set::<ChunkPos>::empty());
        while i < columns.len()
            invariant
                i <= columns@.len(),
                set.wf(),
                set@ == columns@.take(i as int).to_set(),
            decreases columns@.len() - i,
        {
            set.insert(columns[i]);
            proof {
                let done = columns@.take(i as int);
                let more = columns@.take(i + 1);
                assert(more =~= done.push(columns@[i as int]));
                assert forall|p: ChunkPos| more.to_set().contains(p) == done.to_set().insert(
                    columns@[i as int],
                ).contains(p) by {
                    if done.contains(p) {
                        assert(more[done.index_of(p)] == p);
                    }
                    assert(more[i as int] == columns@[i as int]);
                    if more.contains(p) && p != columns@[i as int] {
                        assert(done[more.index_of(p)] == p);
                    }
                }
                assert(more.to_set() =~= done.to_set().insert(columns@[i as int]));
            }
            i = i + 1;
        }
        assert(columns@.take(i as int) =~= columns@);
        set
    }
}

/// The coordinate order lists a set in one way only.
pub proof fn order_is_unique(a: Seq<ChunkPos>, b: Seq<ChunkPos>)
    requires
        in_order(a),
        in_order(b),
        a.to_set() == b.to_set(),
    ensures
        a == b,
    decreases a.len(),
{
    ordered_columns_are_distinct(a);
    ordered_columns_are_distinct(b);
    if a.len() > 0 {
        let x = a.last();
        let y = b.last();
        assert(a.to_set().contains(x) && b.to_set().contains(y));
        assert(b.contains(x) && a.contains(y));
        let i = b.index_of(x);
        let j = a.index_of(y);
        if i < b.len() - 1 && j < a.len() - 1 {
            assert(precedes(b[i], b[b.len() - 1]));
            assert(precedes(a[j], a[a.len() - 1]));
        }
        assert(x == y);
        let a1 = a.drop_last();
        let b1 = b.drop_last();
        assert forall|p: ChunkPos| a1.to_set().contains(p) == b1.to_set().contains(p) by {
            if a1.contains(p) {
                let k = a1.index_of(p);
                assert(precedes(a[k], x));
                assert(a.contains(a[k]));
                assert(b.to_set().contains(p));
                let m = b.index_of(p);
                assert(b1[m] == p);
            }
            if b1.contains(p) {
                let k = b1.index_of(p);
                assert(precedes(b[k], y));
                assert(b.contains(b[k]));
                assert(a.to_set().contains(p));
                let m = a.index_of(p);
                assert(a1[m] == p);
            }
        }
        assert(a1.to_set() =~= b1.to_set());
        order_is_unique(a1, b1);
        assert(a =~= a1.push(x));
        assert(b =~= b1.push(x));
    } else {
        assert(a =~= b);
    }
}

} // verus!
