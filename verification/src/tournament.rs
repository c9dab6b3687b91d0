use vstd::prelude::*;
use crate::entries::EntryLedger;
use crate::entries::PlayerEntry;
use crate::errors::PlayrushError;
use crate::ids::AccountId;
use crate::ids::Transfer;
use crate::ids::TokenAccount;
use crate::split::spec_pool_share;
use crate::split::spec_treasury_cut;
use crate::split::split_deposit;
use crate::split::sum_pool_shares;
use crate::split::lemma_sum_pool_shares_push;
use crate::split::lemma_sum_pool_shares_permutation;

verus! {

/// Which asset a pool escrows. Fixed at creation: it decides which
/// deposit and payout path is valid for the life of the pool.
#[derive(Clone, Copy, Debug, PartialEq, Eq, Structural)]
pub enum AssetMode {
    /// The platform's native asset.
    Native,
    /// A fungible token with a single expected token identity.
    FungibleToken,
}

/// The per-event escrow record. `total_pool` grows only by validated
/// deposits and is never decreased here: settlement reads it and the
/// platform moves the funds, so the field remains the record of everything
/// escrowed. The ghost `accepted` history carries the amounts of all
/// accepted deposits, so conservation is an invariant, not a convention.
pub struct Tournament {
    /// Identity of the treasury/operator allowed to close entries.
    /// Immutable after creation.
    pub authority: AccountId,
    /// Opaque game identifier; part of the pool's unique identity.
    pub game_id: String,
    /// Opaque tournament identifier; part of the pool's unique identity.
    pub tournament_id: String,
    /// Which asset this pool escrows. Immutable after creation.
    pub asset_mode: AssetMode,
    /// Escrowed balance: the sum of the pool shares of all accepted
    /// deposits.
    pub total_pool: u64,
    /// True from creation until the authority closes entries.
    pub is_active: bool,
    /// True once ranked payout has run. Hardening addition: makes
    /// settlement one-shot instead of silently double-payable.
    pub settled: bool,
    /// History of the amounts of all accepted deposits.
    pub accepted: Ghost<Seq<u64>>,
}

impl Tournament {
    /// Conservation: the escrowed balance equals the sum of the pool
    /// shares of the accepted deposit history, exactly.
    pub open spec fn conserves(self) -> bool {
        self.total_pool as int == sum_pool_shares(self.accepted@)
    }

    /// A fresh, open, empty pool owned by `treasury`.
    pub fn new(
        game_id: String,
        tournament_id: String,
        asset_mode: AssetMode,
        treasury: AccountId,
    ) -> (t: Tournament)
        ensures
            t.authority == treasury,
            t.game_id == game_id,
            t.tournament_id == tournament_id,
            t.asset_mode == asset_mode,
            t.total_pool == 0,
            t.is_active,
            !t.settled,
            t.accepted@ == Seq::<u64>::empty(),
            t.conserves(),
    {
        Tournament {
            authority: treasury,
            game_id,
            tournament_id,
            asset_mode,
            total_pool: 0,
            is_active: true,
            settled: false,
            accepted: Ghost(Seq::empty()),
        }
    }
}

/// What a successful deposit hands back: the freshly minted entry record
/// and the two transfer orders the platform must execute atomically with
/// the state updates.
#[derive(Clone, Copy, Debug, PartialEq, Eq, Structural)]
pub struct DepositReceipt {
    /// The entry recorded for the joining player.
    pub entry: PlayerEntry,
    /// One tenth of the stake, payable to the operator treasury.
    pub treasury_transfer: Transfer,
    /// The remaining nine tenths, payable into the pool's custody.
    pub pool_transfer: Transfer,
}

/// Why a native-asset deposit is rejected, or `None` if it must be
/// accepted. Checks run in this order: pool open, asset mode, duplicate
/// entry, balance overflow; the first failure decides the error.
pub open spec fn spec_sol_deposit_rejection(
    t: Tournament,
    l: EntryLedger,
    pool_address: AccountId,
    player: AccountId,
    amount: u64,
) -> Option<PlayrushError> {
    if !t.is_active {
        Some(PlayrushError::TournamentClosed)
    } else if t.asset_mode != AssetMode::Native {
        Some(PlayrushError::InvalidJoinMethod)
    } else if l.has_entry(pool_address, player) {
        Some(PlayrushError::DuplicateEntry)
    } else if t.total_pool + spec_pool_share(amount) > u64::MAX {
        Some(PlayrushError::Overflow)
    } else {
        None
    }
}

/// Why a token deposit is rejected, or `None` if it must be accepted.
/// Same order as the native path, with the token-identity check between
/// the asset-mode and duplicate-entry checks: every involved token
/// account must carry the single expected token identity.
pub open spec fn spec_token_deposit_rejection(
    t: Tournament,
    l: EntryLedger,
    player_token_account: TokenAccount,
    pool_token_account: TokenAccount,
    treasury_token_account: TokenAccount,
    expected_mint: AccountId,
    pool_address: AccountId,
    player: AccountId,
    amount: u64,
) -> Option<PlayrushError> {
    if !t.is_active {
        Some(PlayrushError::TournamentClosed)
    } else if t.asset_mode != AssetMode::FungibleToken {
        Some(PlayrushError::InvalidJoinMethod)
    } else if player_token_account.mint != expected_mint || pool_token_account.mint != expected_mint
        || treasury_token_account.mint != expected_mint {
        Some(PlayrushError::InvalidTokenMint)
    } else if l.has_entry(pool_address, player) {
        Some(PlayrushError::DuplicateEntry)
    } else if t.total_pool + spec_pool_share(amount) > u64::MAX {
        Some(PlayrushError::Overflow)
    } else {
        None
    }
}

/// What every accepted deposit guarantees, whichever path took it: the
/// 10/90 split is exact, the pool balance grows by exactly the pool
/// share, the deposit is appended to the accepted history, conservation
/// still holds, the entry is recorded once for the (pool, player) pair,
/// and nothing else about the pool changes.
pub open spec fn spec_deposit_accepted(
    t0: Tournament,
    t1: Tournament,
    l0: EntryLedger,
    l1: EntryLedger,
    r: DepositReceipt,
    pool_address: AccountId,
    player: AccountId,
    amount: u64,
    now: i64,
) -> bool {
    &&& r.entry == (PlayerEntry { tournament: pool_address, player, joined_at: now, score: 0 })
    &&& r.treasury_transfer.amount == spec_treasury_cut(amount)
    &&& r.pool_transfer.amount == spec_pool_share(amount)
    &&& r.treasury_transfer.amount + r.pool_transfer.amount == amount
    &&& t1.total_pool == t0.total_pool + spec_pool_share(amount)
    &&& t1.accepted@ == t0.accepted@.push(amount)
    &&& t1.conserves()
    &&& t1.authority == t0.authority
    &&& t1.game_id == t0.game_id
    &&& t1.tournament_id == t0.tournament_id
    &&& t1.asset_mode == t0.asset_mode
    &&& t1.is_active == t0.is_active
    &&& t1.settled == t0.settled
    &&& l1.entries@ == l0.entries@.push(r.entry)
    &&& l1.wf()
    &&& l1.has_entry(pool_address, player)
}

/// Join a native-asset tournament with a stake of `amount`.
///
/// On acceptance the treasury transfer pays the pool's authority and the
/// pool transfer pays the pool's custodial address `pool_address`; the
/// platform executes both atomically with the state updates, all-or
/// -nothing. On rejection the specific error is returned and no state
/// moves at all.
pub fn join_tournament_sol(
    tournament: &mut Tournament,
    ledger: &mut EntryLedger,
    pool_address: AccountId,
    player: AccountId,
    amount: u64,
    now: i64,
) -> (r: Result<DepositReceipt, PlayrushError>)
    requires
        old(tournament).conserves(),
        old(ledger).wf(),
    ensures
        final(tournament).conserves(),
        final(ledger).wf(),
        spec_sol_deposit_rejection(
            *old(tournament),
            *old(ledger),
            pool_address,
            player,
            amount,
        ) matches Some(e) ==> r == Err::<DepositReceipt, PlayrushError>(e) && *final(tournament)
            == *old(tournament) && *final(ledger) == *old(ledger),
        spec_sol_deposit_rejection(*old(tournament), *old(ledger), pool_address, player, amount)
            is None ==> (r matches Ok(rc) && spec_deposit_accepted(
            *old(tournament),
            *final(tournament),
            *old(ledger),
            *final(ledger),
            rc,
            pool_address,
            player,
            amount,
            now,
        ) && rc.treasury_transfer.from == player && rc.treasury_transfer.to == old(
            tournament,
        ).authority && rc.pool_transfer.from == player && rc.pool_transfer.to == pool_address),
{
    if !tournament.is_active {
        return Err(PlayrushError::TournamentClosed);
    }
    if tournament.asset_mode != AssetMode::Native {
        return Err(PlayrushError::InvalidJoinMethod);
    }
    if ledger.contains_entry(pool_address, player) {
        return Err(PlayrushError::DuplicateEntry);
    }
    let (treasury_cut, pool_share) = split_deposit(amount);
    if tournament.total_pool > u64::MAX - pool_share {
        return Err(PlayrushError::Overflow);
    }
    proof {
        lemma_sum_pool_shares_push(tournament.accepted@, amount);
    }
    tournament.total_pool = tournament.total_pool + pool_share;
    tournament.accepted = Ghost(tournament.accepted@.push(amount));
    let entry = PlayerEntry { tournament: pool_address, player, joined_at: now, score: 0 };
    ledger.record_entry(entry);
    Ok(
        DepositReceipt {
            entry,
            treasury_transfer: Transfer {
                from: player,
                to: tournament.authority,
                amount: treasury_cut,
            },
            pool_transfer: Transfer { from: player, to: pool_address, amount: pool_share },
        },
    )
}

/// Join a fungible-token tournament with a stake of `amount`.
///
/// Every involved token account must carry `expected_mint`. On acceptance
/// the treasury transfer moves the cut from the player's token account to
/// the treasury token account, and the pool transfer moves the share to
/// the pool's token account; the platform executes both atomically with
/// the state updates. On rejection the specific error is returned and no
/// state moves at all.
pub fn join_tournament_token(
    tournament: &mut Tournament,
    ledger: &mut EntryLedger,
    player_token_account: &TokenAccount,
    pool_token_account: &TokenAccount,
    treasury_token_account: &TokenAccount,
    expected_mint: AccountId,
    pool_address: AccountId,
    player: AccountId,
    amount: u64,
    now: i64,
) -> (r: Result<DepositReceipt, PlayrushError>)
    requires
        old(tournament).conserves(),
        old(ledger).wf(),
    ensures
        final(tournament).conserves(),
        final(ledger).wf(),
        spec_token_deposit_rejection(
            *old(tournament),
            *old(ledger),
            *player_token_account,
            *pool_token_account,
            *treasury_token_account,
            expected_mint,
            pool_address,
            player,
            amount,
        ) matches Some(e) ==> r == Err::<DepositReceipt, PlayrushError>(e) && *final(tournament)
            == *old(tournament) && *final(ledger) == *old(ledger),
        spec_token_deposit_rejection(
            *old(tournament),
            *old(ledger),
            *player_token_account,
            *pool_token_account,
            *treasury_token_account,
            expected_mint,
            pool_address,
            player,
            amount,
        ) is None ==> (r matches Ok(rc) && spec_deposit_accepted(
            *old(tournament),
            *final(tournament),
            *old(ledger),
            *final(ledger),
            rc,
            pool_address,
            player,
            amount,
            now,
        ) && rc.treasury_transfer.from == player_token_account.address
            && rc.treasury_transfer.to == treasury_token_account.address && rc.pool_transfer.from
            == player_token_account.address && rc.pool_transfer.to == pool_token_account.address),
{
    if !tournament.is_active {
        return Err(PlayrushError::TournamentClosed);
    }
    if tournament.asset_mode != AssetMode::FungibleToken {
        return Err(PlayrushError::InvalidJoinMethod);
    }
    if player_token_account.mint != expected_mint || pool_token_account.mint != expected_mint
        || treasury_token_account.mint != expected_mint {
        return Err(PlayrushError::InvalidTokenMint);
    }
    if ledger.contains_entry(pool_address, player) {
        return Err(PlayrushError::DuplicateEntry);
    }
    let (treasury_cut, pool_share) = split_deposit(amount);
    if tournament.total_pool > u64::MAX - pool_share {
        return Err(PlayrushError::Overflow);
    }
    proof {
        lemma_sum_pool_shares_push(tournament.accepted@, amount);
    }
    tournament.total_pool = tournament.total_pool + pool_share;
    tournament.accepted = Ghost(tournament.accepted@.push(amount));
    let entry = PlayerEntry { tournament: pool_address, player, joined_at: now, score: 0 };
    ledger.record_entry(entry);
    Ok(
        DepositReceipt {
            entry,
            treasury_transfer: Transfer {
                from: player_token_account.address,
                to: treasury_token_account.address,
                amount: treasury_cut,
            },
            pool_transfer: Transfer {
                from: player_token_account.address,
                to: pool_token_account.address,
                amount: pool_share,
            },
        },
    )
}

/// Law: conservation. A pool's escrowed balance equals the sum of the
/// pool shares of its accepted deposits, exactly, independent of the
/// order in which they arrived: any rearrangement of the accepted
/// history sums to the same balance. The `conserves` invariant is
/// established at creation and preserved by every operation.
pub proof fn lemma_conservation(t: Tournament, history: Seq<u64>)
    requires
        t.conserves(),
        history.to_multiset() == t.accepted@.to_multiset(),
    ensures
        t.total_pool as int == sum_pool_shares(history),
{
    lemma_sum_pool_shares_permutation(t.accepted@, history);
}

/// Close the pool for further entries. Only the pool's authority may do
/// so; any other caller is rejected and the pool stays open. Closing is
/// idempotent in effect, and the result reports whether this call changed
/// state: `Ok(true)` if the pool was open, `Ok(false)` if it was already
/// closed.
pub fn close_entry(tournament: &mut Tournament, caller: AccountId) -> (r: Result<
    bool,
    PlayrushError,
>)
    ensures
        caller != old(tournament).authority ==> r == Err::<bool, PlayrushError>(
            PlayrushError::Unauthorized,
        ) && *final(tournament) == *old(tournament),
        caller == old(tournament).authority ==> {
            &&& r == Ok::<bool, PlayrushError>(old(tournament).is_active)
            &&& !final(tournament).is_active
            &&& final(tournament).authority == old(tournament).authority
            &&& final(tournament).game_id == old(tournament).game_id
            &&& final(tournament).tournament_id == old(tournament).tournament_id
            &&& final(tournament).asset_mode == old(tournament).asset_mode
            &&& final(tournament).total_pool == old(tournament).total_pool
            &&& final(tournament).settled == old(tournament).settled
            &&& final(tournament).accepted@ == old(tournament).accepted@
        },
        old(tournament).conserves() ==> final(tournament).conserves(),
{
    if caller != tournament.authority {
        return Err(PlayrushError::Unauthorized);
    }
    let was_active = tournament.is_active;
    tournament.is_active = false;
    Ok(was_active)
}

} // verus!
