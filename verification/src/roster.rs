//! The connected players, in the order of their identifiers.

use crate::text::same_text;
use vstd::prelude::*;

verus! {

/// A player's identity, as one number.
pub type PlayerId = u128;

/// One connected player.
#[derive(Debug)]
pub struct RosterEntry {
    /// The identity.
    pub player: PlayerId,
    /// The display name.
    pub name: String,
}

/// The connected players.
#[derive(Debug)]
pub struct Roster {
    entries: Vec<RosterEntry>,
}

/// The names by identity in a sequence of entries.
pub open spec fn names_of(entries: Seq<RosterEntry>) -> Map<PlayerId, Seq<char>> {
    Map::new(
        |p: PlayerId| exists|i: int| 0 <= i < entries.len() && (#[trigger] entries[i]).player == p,
        |p: PlayerId|
            {
                let i = choose|i: int|
                    0 <= i < entries.len() && (#[trigger] entries[i]).player == p;
                entries[i].name@
            },
    )
}

/// Whether entries are in the order of their identifiers, each of them once.
pub open spec fn by_identity(entries: Seq<RosterEntry>) -> bool {
    forall|i: int, j: int|
        0 <= i < j < entries.len() ==> (#[trigger] entries[i]).player < (
        #[trigger] entries[j]).player
}

impl View for Roster {
    type V = Map<PlayerId, Seq<char>>;

    closed spec fn view(&self) -> Map<PlayerId, Seq<char>> {
        names_of(self.entries@)
    }
}

/// A roster names every player that it lists by the name of their own entry.
pub proof fn lookup(entries: Seq<RosterEntry>, i: int)
    requires
        by_identity(entries),
        0 <= i < entries.len(),
    ensures
        names_of(entries).contains_key(entries[i].player),
        names_of(entries)[entries[i].player] == entries[i].name@,
{
    let p = entries[i].player;
    assert(entries[i].player == p);
    let k = choose|k: int| 0 <= k < entries.len() && (#[trigger] entries[k]).player == p;
    if k < i {
        assert(entries[k].player < entries[i].player);
    } else if i < k {
        assert(entries[i].player < entries[k].player);
    }
}

impl Roster {
    /// Whether the entries are in the order of their identifiers, each of them once.
    pub closed spec fn wf(self) -> bool {
        by_identity(self.entries@)
    }

    /// The entries in order.
    pub closed spec fn sequence(self) -> Seq<RosterEntry> {
        self.entries@
    }

    /// The roster without players.
    pub fn new() -> (r: Roster)
        ensures
            r.wf(),
            r@ == Map::<PlayerId, Seq<char>>::empty(),
            r.sequence() == Seq::<RosterEntry>::empty(),
    {
        let r = Roster { entries: Vec::new() };
        assert(r@ =~= Map::<PlayerId, Seq<char>>::empty());
        r
    }

    /// The entries in order.
    pub fn entries(&self) -> (r: &Vec<RosterEntry>)
        requires
            self.wf(),
        ensures
            r@ == self.sequence(),
            by_identity(r@),
            names_of(r@) == self@,
    {
        &self.entries
    }

    /// Records a player under a name, in place of an earlier name.
    pub fn insert(&mut self, player: PlayerId, name: String)
        requires
            old(self).wf(),
        ensures
            final(self).wf(),
            final(self)@ == old(self)@.insert(player, name@),
    {
        let ghost before = self.entries@;
        let mut place: usize = 0;
        while place < self.entries.len() && self.entries[place].player < player
            invariant
                place <= self.entries@.len(),
                self.entries@ == before,
                forall|i: int| 0 <= i < place ==> (#[trigger] before[i]).player < player,
            decreases self.entries@.len() - place,
        {
            place = place + 1;
        }
        let ghost entry = RosterEntry { player, name };
        if place < self.entries.len() && self.entries[place].player == player {
            self.entries.set(place, RosterEntry { player, name });
            proof {
                let after = self.entries@;
                assert(after == before.update(place as int, entry));
                assert(by_identity(after)) by {
                    assert forall|i: int, j: int| 0 <= i < j < after.len() implies (
                    #[trigger] after[i]).player < (#[trigger] after[j]).player by {
                        assert(before[i].player < before[j].player);
                    }
                }
                assert forall|p: PlayerId| #[trigger]
                    names_of(after).contains_key(p) == names_of(before).insert(
                        player,
                        name@,
                    ).contains_key(p) by {
                    if names_of(after).contains_key(p) {
                        let k = choose|k: int|
                            0 <= k < after.len() && (#[trigger] after[k]).player == p;
                        assert(before[k].player == p);
                    }
                    if names_of(before).contains_key(p) {
                        let k = choose|k: int|
                            0 <= k < before.len() && (#[trigger] before[k]).player == p;
                        assert(after[k].player == p);
                    }
                    assert(after[place as int].player == player);
                }
                assert forall|p: PlayerId| #[trigger]
                    names_of(after).contains_key(p) implies names_of(after)[p] == names_of(
                    before,
                ).insert(player, name@)[p] by {
                    let k = choose|k: int| 0 <= k < after.len() && (#[trigger] after[k]).player == p;
                    lookup(after, k);
                    lookup(before, k);
                    lookup(after, place as int);
                }
                assert(names_of(after) =~= names_of(before).insert(player, name@));
            }
        } else {
            proof {
                assert forall|i: int| place <= i < before.len() implies player < (
                #[trigger] before[i]).player by {
                    if i > place {
                        assert(before[place as int].player < before[i].player);
                    }
                }
            }
            self.entries.insert(place, RosterEntry { player, name });
            proof {
                let after = self.entries@;
                assert(after == before.insert(place as int, entry));
                assert(by_identity(after)) by {
                    assert forall|i: int, j: int| 0 <= i < j < after.len() implies (
                    #[trigger] after[i]).player < (#[trigger] after[j]).player by {
                        let a = if i < place {
                            i
                        } else {
                            i - 1
                        };
                        let b = if j < place {
                            j
                        } else {
                            j - 1
                        };
                        if i == place {
                            assert(player < before[b].player);
                        } else if j == place {
                            assert(before[a].player < player);
                        } else {
                            assert(before[a].player < before[b].player);
                        }
                    }
                }
                assert forall|p: PlayerId| #[trigger]
                    names_of(after).contains_key(p) == names_of(before).insert(
                        player,
                        name@,
                    ).contains_key(p) by {
                    if names_of(after).contains_key(p) {
                        let k = choose|k: int|
                            0 <= k < after.len() && (#[trigger] after[k]).player == p;
                        let m = if k < place {
                            k
                        } else {
                            k - 1
                        };
                        if k != place {
                            assert(before[m].player == p);
                        }
                    }
                    if names_of(before).contains_key(p) {
                        let k = choose|k: int|
                            0 <= k < before.len() && (#[trigger] before[k]).player == p;
                        let m = if k < place {
                            k
                        } else {
                            k + 1
                        };
                        assert(after[m].player == p);
                    }
                    assert(after[place as int].player == player);
                }
                assert forall|p: PlayerId| #[trigger]
                    names_of(after).contains_key(p) implies names_of(after)[p] == names_of(
                    before,
                ).insert(player, name@)[p] by {
                    let k = choose|k: int| 0 <= k < after.len() && (#[trigger] after[k]).player == p;
                    lookup(after, k);
                    let m = if k < place {
                        k
                    } else {
                        k - 1
                    };
                    if k != place {
                        lookup(before, m);
                    }
                }
                assert(names_of(after) =~= names_of(before).insert(player, name@));
            }
        }
    }

    /// Drops the players who are no longer connected.
    pub fn retain(&mut self, connected: &Vec<PlayerId>)
        requires
            old(self).wf(),
        ensures
            final(self).wf(),
            final(self)@ == old(self)@.restrict(connected@.to_set()),
    {
        let ghost before = self.entries@;
        let ghost listed = connected@.to_set();
        let mut kept: Vec<RosterEntry> = Vec::new();
        let mut i: usize = 0;
        assert(names_of(kept@) =~= names_of(before.take(0)).restrict(listed));
        while i < self.entries.len()
            invariant
                i <= before.len(),
                self.entries@ == before,
                listed == connected@.to_set(),
                by_identity(before),
                by_identity(kept@),
                forall|k: int, m: int|
                    0 <= k < kept@.len() && i <= m < before.len() ==> (#[trigger] kept@[k]).player
                        < (#[trigger] before[m]).player,
                names_of(kept@) == names_of(before.take(i as int)).restrict(listed),
            decreases before.len() - i,
        {
            let player = self.entries[i].player;
            let ghost done = before.take(i as int);
            let ghost more = before.take(i + 1);
            let ghost old_kept = kept@;
            proof {
                assert(more =~= done.push(before[i as int]));
                name_joins(done, before[i as int]);
                assert forall|k: int, m: int|
                    0 <= k < old_kept.len() && i + 1 <= m < before.len() implies (
                #[trigger] old_kept[k]).player < (#[trigger] before[m]).player by {}
                assert(before[i as int].player == player);
            }
            if is_listed(connected, player) {
                let name = self.entries[i].name.clone();
                kept.push(RosterEntry { player, name });
                proof {
                    assert forall|k: int| 0 <= k < old_kept.len() implies (
                    #[trigger] old_kept[k]).player < player by {
                        assert(old_kept[k].player < before[i as int].player);
                    }
                    name_joins(old_kept, kept@.last());
                    assert(kept@ =~= old_kept.push(kept@.last()));
                    assert(names_of(kept@) =~= names_of(more).restrict(listed));
                    assert forall|k: int, m: int|
                        0 <= k < kept@.len() && i + 1 <= m < before.len() implies (
                    #[trigger] kept@[k]).player < (#[trigger] before[m]).player by {
                        if k < old_kept.len() {
                            assert(kept@[k] == old_kept[k]);
                        } else {
                            assert(before[i as int].player < before[m].player);
                        }
                    }
                }
            } else {
                assert(names_of(kept@) =~= names_of(more).restrict(listed));
            }
            i = i + 1;
        }
        assert(before.take(i as int) =~= before);
        self.entries = kept;
    }
}

/// One more entry behind the others adds its name.
proof fn name_joins(entries: Seq<RosterEntry>, entry: RosterEntry)
    requires
        by_identity(entries),
        forall|i: int| 0 <= i < entries.len() ==> (#[trigger] entries[i]).player < entry.player,
    ensures
        by_identity(entries.push(entry)),
        names_of(entries.push(entry)) == names_of(entries).insert(entry.player, entry.name@),
        !names_of(entries).contains_key(entry.player),
{
    let after = entries.push(entry);
    let last = entries.len() as int;
    assert(by_identity(after)) by {
        assert forall|i: int, j: int| 0 <= i < j < after.len() implies (#[trigger] after[i]).player
            < (#[trigger] after[j]).player by {
            if j < last {
                assert(entries[i].player < entries[j].player);
            } else {
                assert(entries[i].player < entry.player);
            }
        }
    }
    let wanted = names_of(entries).insert(entry.player, entry.name@);
    assert forall|p: PlayerId| #[trigger] names_of(after).contains_key(p) == wanted.contains_key(
        p,
    ) by {
        if names_of(after).contains_key(p) {
            let k = choose|k: int| 0 <= k < after.len() && (#[trigger] after[k]).player == p;
            if k < last {
                assert(entries[k].player == p);
            }
        }
        if names_of(entries).contains_key(p) {
            let k = choose|k: int| 0 <= k < entries.len() && (#[trigger] entries[k]).player == p;
            assert(after[k].player == p);
        }
        assert(after[last].player == entry.player);
    }
    assert forall|p: PlayerId| #[trigger] names_of(after).contains_key(p) implies names_of(after)[p]
        == wanted[p] by {
        let k = choose|k: int| 0 <= k < after.len() && (#[trigger] after[k]).player == p;
        lookup(after, k);
        if k < last {
            lookup(entries, k);
            assert(entries[k].player < entry.player);
        }
    }
    assert(names_of(after) =~= wanted);
}

fn is_listed(players: &Vec<PlayerId>, player: PlayerId) -> (r: bool)
    ensures
        r == players@.contains(player),
{
    let mut i: usize = 0;
    while i < players.len()
        invariant
            i <= players@.len(),
            forall|k: int| 0 <= k < i ==> players@[k] != player,
        decreases players@.len() - i,
    {
        if players[i] == player {
            return true;
        }
        i = i + 1;
    }
    false
}

/// Resolves an online player by display name, matched exactly; the one with the
/// smallest identifier where several share the name.
pub fn resolve_online_player(roster: &Roster, name: &str) -> (r: Option<PlayerId>)
    requires
        roster.wf(),
    ensures
        match r {
            Some(player) => {
                &&& roster@.contains_key(player) && roster@[player] == name@
                &&& forall|p: PlayerId|
                    #[trigger] roster@.contains_key(p) && roster@[p] == name@ ==> player <= p
            },
            None => forall|p: PlayerId| #[trigger] roster@.contains_key(p) ==> roster@[p] != name@,
        },
{
    let mut i: usize = 0;
    let ghost entries = roster.entries@;
    while i < roster.entries.len()
        invariant
            i <= entries.len(),
            entries == roster.entries@,
            roster.wf(),
            forall|k: int| 0 <= k < i ==> (#[trigger] entries[k]).name@ != name@,
        decreases entries.len() - i,
    {
        if same_text(roster.entries[i].name.as_str(), name) {
            proof {
                lookup(entries, i as int);
                let player = entries[i as int].player;
                assert forall|p: PlayerId|
                    #[trigger] roster@.contains_key(p) && roster@[p] == name@ implies player
                    <= p by {
                    let k = choose|k: int|
                        0 <= k < entries.len() && (#[trigger] entries[k]).player == p;
                    lookup(entries, k);
                    if i < k {
                        assert(entries[i as int].player < entries[k].player);
                    }
                }
            }
            return Some(roster.entries[i].player);
        }
        i = i + 1;
    }
    proof {
        assert forall|p: PlayerId| #[trigger] roster@.contains_key(p) implies roster@[p]
            != name@ by {
            let k = choose|k: int| 0 <= k < entries.len() && (#[trigger] entries[k]).player == p;
            lookup(entries, k);
        }
    }
    None
}

} // verus!
