use vstd::prelude::*;
use crate::ids::AccountId;

verus! {

/// One immutable record proving that one player joined one tournament
/// exactly once. Created by a successful deposit and never mutated or
/// removed afterwards; `score` is a reserved attribute with no business
/// logic attached here.
#[derive(Clone, Copy, Debug, PartialEq, Eq, Structural)]
pub struct PlayerEntry {
    /// Custodial address of the pool the player joined.
    pub tournament: AccountId,
    /// Identity of the player.
    pub player: AccountId,
    /// Platform timestamp at which the join committed. Set once.
    pub joined_at: i64,
    /// Reserved; always zero in this core.
    pub score: u64,
}

/// The ledger of player entries: at most one entry per
/// (tournament, player) pair. Models the platform's guarantee that the
/// per-pair derived entry record can be allocated at most once.
pub struct EntryLedger {
    pub entries: Vec<PlayerEntry>,
}

impl EntryLedger {
    /// Some entry for this (tournament, player) pair exists.
    pub open spec fn has_entry(self, tournament: AccountId, player: AccountId) -> bool {
        exists|i: int|
            0 <= i < self.entries@.len() && (#[trigger] self.entries@[i]).tournament == tournament
                && self.entries@[i].player == player
    }

    /// Well-formedness: no two entries share a (tournament, player) pair.
    pub open spec fn wf(self) -> bool {
        forall|i: int, j: int|
            #![trigger self.entries@[i], self.entries@[j]]
            0 <= i < j < self.entries@.len() ==> !(self.entries@[i].tournament
                == self.entries@[j].tournament && self.entries@[i].player
                == self.entries@[j].player)
    }

    /// An empty ledger: no entries at all.
    pub fn new() -> (l: EntryLedger)
        ensures
            l.entries@ == Seq::<PlayerEntry>::empty(),
            l.wf(),
    {
        EntryLedger { entries: Vec::new() }
    }

    /// Whether this (tournament, player) pair already holds an entry.
    pub fn contains_entry(&self, tournament: AccountId, player: AccountId) -> (r: bool)
        ensures
            r == self.has_entry(tournament, player),
    {
        let mut i: usize = 0;
        while i < self.entries.len()
            invariant
                i <= self.entries@.len(),
                forall|k: int|
                    0 <= k < i ==> !((#[trigger] self.entries@[k]).tournament == tournament
                        && self.entries@[k].player == player),
            decreases self.entries@.len() - i,
        {
            if self.entries[i].tournament == tournament && self.entries[i].player == player {
                return true;
            }
            i = i + 1;
        }
        false
    }

    /// Record a new entry for a pair that holds none yet. Keeps the
    /// at-most-one-entry-per-pair invariant.
    pub fn record_entry(&mut self, entry: PlayerEntry)
        requires
            old(self).wf(),
            !old(self).has_entry(entry.tournament, entry.player),
        ensures
            final(self).entries@ == old(self).entries@.push(entry),
            final(self).wf(),
            final(self).has_entry(entry.tournament, entry.player),
            forall|t: AccountId, p: AccountId|
                #![trigger final(self).has_entry(t, p)]
                final(self).has_entry(t, p) <==> (old(self).has_entry(t, p) || (t
                    == entry.tournament && p == entry.player)),
    {
        self.entries.push(entry);
        proof {
            let s = self.entries@;
            assert(s[s.len() - 1] == entry);
            assert forall|t: AccountId, p: AccountId| #[trigger]
                self.has_entry(t, p) == (old(self).has_entry(t, p) || (t == entry.tournament && p
                == entry.player)) by {
                if self.has_entry(t, p) {
                    let i = choose|i: int|
                        0 <= i < s.len() && (#[trigger] s[i]).tournament == t && s[i].player == p;
                    if i < s.len() - 1 {
                        assert(old(self).entries@[i] == s[i]);
                        assert(old(self).has_entry(t, p));
                    }
                }
                if old(self).has_entry(t, p) {
                    let i = choose|i: int|
                        0 <= i < old(self).entries@.len() && (#[trigger] old(
                            self,
                        ).entries@[i]).tournament == t && old(self).entries@[i].player == p;
                    assert(s[i] == old(self).entries@[i]);
                    assert(self.has_entry(t, p));
                }
                if t == entry.tournament && p == entry.player {
                    assert(self.has_entry(t, p));
                }
            }
        }
    }
}

} // verus!
