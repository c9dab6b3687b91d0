use vstd::prelude::*;
use crate::errors::PlayrushError;
use crate::ids::AccountId;
use crate::tournament::AssetMode;
use crate::tournament::Tournament;

verus! {

/// The unique identity of a pool: the pair of opaque identifiers from
/// which the platform also derives the pool's custodial address.
pub struct PoolKey {
    pub game_id: String,
    pub tournament_id: String,
}

/// The set of pool identities already in use. Models the platform's
/// guarantee that the record derived from one (game, tournament) pair can
/// be allocated at most once.
pub struct PoolRegistry {
    pub keys: Vec<PoolKey>,
}

impl PoolRegistry {
    /// A pool with this identity exists.
    pub open spec fn has_pool(self, game_id: Seq<char>, tournament_id: Seq<char>) -> bool {
        exists|i: int|
            0 <= i < self.keys@.len() && (#[trigger] self.keys@[i]).game_id@ == game_id
                && self.keys@[i].tournament_id@ == tournament_id
    }

    /// Well-formedness: no two pools share an identity.
    pub open spec fn wf(self) -> bool {
        forall|i: int, j: int|
            #![trigger self.keys@[i], self.keys@[j]]
            0 <= i < j < self.keys@.len() ==> !(self.keys@[i].game_id@ == self.keys@[j].game_id@
                && self.keys@[i].tournament_id@ == self.keys@[j].tournament_id@)
    }

    /// An empty registry: no pool identities in use.
    pub fn new() -> (r: PoolRegistry)
        ensures
            r.keys@.len() == 0,
            r.wf(),
    {
        PoolRegistry { keys: Vec::new() }
    }

    /// Whether this identity is already in use.
    pub fn contains_pool(&self, game_id: &String, tournament_id: &String) -> (r: bool)
        ensures
            r == self.has_pool(game_id@, tournament_id@),
    {
        let mut i: usize = 0;
        while i < self.keys.len()
            invariant
                i <= self.keys@.len(),
                forall|k: int|
                    0 <= k < i ==> !((#[trigger] self.keys@[k]).game_id@ == game_id@
                        && self.keys@[k].tournament_id@ == tournament_id@),
            decreases self.keys@.len() - i,
        {
            if self.keys[i].game_id == *game_id && self.keys[i].tournament_id == *tournament_id {
                return true;
            }
            i = i + 1;
        }
        false
    }
}

/// Allocate a new pool record keyed by (game_id, tournament_id).
///
/// Fails with `DuplicatePool`, registering nothing, if the identity is
/// already in use; otherwise registers the identity and returns the fresh
/// pool: open, empty, owned by `treasury`, fixed to `asset_mode`.
pub fn initialize_tournament(
    registry: &mut PoolRegistry,
    game_id: String,
    tournament_id: String,
    asset_mode: AssetMode,
    treasury: AccountId,
) -> (r: Result<Tournament, PlayrushError>)
    requires
        old(registry).wf(),
    ensures
        final(registry).wf(),
        old(registry).has_pool(game_id@, tournament_id@) ==> r == Err::<
            Tournament,
            PlayrushError,
        >(PlayrushError::DuplicatePool) && *final(registry) == *old(registry),
        !old(registry).has_pool(game_id@, tournament_id@) ==> (r matches Ok(t) && {
            &&& t.authority == treasury
            &&& t.game_id@ == game_id@
            &&& t.tournament_id@ == tournament_id@
            &&& t.asset_mode == asset_mode
            &&& t.total_pool == 0
            &&& t.is_active
            &&& !t.settled
            &&& t.accepted@ == Seq::<u64>::empty()
            &&& t.conserves()
            &&& final(registry).has_pool(game_id@, tournament_id@)
            &&& final(registry).keys@.len() == old(registry).keys@.len() + 1
            &&& forall|g: Seq<char>, tid: Seq<char>|
                #![trigger final(registry).has_pool(g, tid)]
                final(registry).has_pool(g, tid) <==> (old(registry).has_pool(g, tid) || (g
                    == game_id@ && tid == tournament_id@))
        }),
{
    if registry.contains_pool(&game_id, &tournament_id) {
        return Err(PlayrushError::DuplicatePool);
    }
    let key = PoolKey { game_id: game_id.clone(), tournament_id: tournament_id.clone() };
    registry.keys.push(key);
    proof {
        let s = registry.keys@;
        assert forall|g: Seq<char>, tid: Seq<char>| #[trigger]
            registry.has_pool(g, tid) == (old(registry).has_pool(g, tid) || (g == game_id@ && tid
            == tournament_id@)) by {
            if registry.has_pool(g, tid) {
                let i = choose|i: int|
                    0 <= i < s.len() && (#[trigger] s[i]).game_id@ == g && s[i].tournament_id@
                        == tid;
                if i < s.len() - 1 {
                    assert(old(registry).keys@[i] == s[i]);
                    assert(old(registry).has_pool(g, tid));
                }
            }
            if old(registry).has_pool(g, tid) {
                let i = choose|i: int|
                    0 <= i < old(registry).keys@.len() && (#[trigger] old(
                        registry,
                    ).keys@[i]).game_id@ == g && old(registry).keys@[i].tournament_id@ == tid;
                assert(s[i] == old(registry).keys@[i]);
                assert(registry.has_pool(g, tid));
            }
            if g == game_id@ && tid == tournament_id@ {
                assert(s[s.len() - 1].game_id@ == g && s[s.len() - 1].tournament_id@ == tid);
                assert(registry.has_pool(g, tid));
            }
        }
    }
    Ok(Tournament::new(game_id, tournament_id, asset_mode, treasury))
}

} // verus!
