use vstd::prelude::*;
use crate::errors::PlayrushError;
use crate::ids::AccountId;
use crate::ids::TokenAccount;
use crate::ids::Transfer;
use crate::settlement::PERCENT_DIVISOR;

verus! {

/// Of the treasury's new inflow, one tenth (floor) is allocated for
/// redistribution each cycle.
pub const RECURRING_ALLOCATION_DIVISOR: u64 = 10;

/// Fixed payout table for the recurring leaderboard: ranks 1-3 take 25%,
/// 15% and 10% of the allocation, and ranks 4-10 share 50% evenly.
pub const RANK_ONE_PERCENT: u64 = 25;

pub const RANK_TWO_PERCENT: u64 = 15;

pub const RANK_THREE_PERCENT: u64 = 10;

pub const TRAILING_PERCENT: u64 = 50;

pub const TRAILING_RANKS: u64 = 7;

/// How many ranked recipients one recurring distribution pays.
pub const RECURRING_RECIPIENTS: usize = 10;

/// The singleton escrow record of the recurring mode: a snapshot of the
/// treasury balance at the previous distribution, and a lifetime counter
/// of everything allocated so far. The snapshot only ever moves forward,
/// and only as part of a successful distribution.
#[derive(Clone, Copy, Debug, PartialEq, Eq, Structural)]
pub struct Free2EarnPool {
    /// Treasury balance at the previous distribution.
    pub last_recorded_treasury: u64,
    /// Lifetime total of all allocations ever distributed.
    pub total_distributed: u64,
}

/// New treasury inflow since the previous distribution. Negative when the
/// live balance has somehow fallen below the snapshot, which every
/// operation rejects.
pub open spec fn spec_inflow(pool: Free2EarnPool, live_treasury: u64) -> int {
    live_treasury - pool.last_recorded_treasury
}

/// The cycle's allocation: one tenth of the inflow, rounded down.
pub open spec fn spec_allocation(pool: Free2EarnPool, live_treasury: u64) -> int {
    spec_inflow(pool, live_treasury) / RECURRING_ALLOCATION_DIVISOR as int
}

/// Rank 1's share of an allocation: a quarter, rounded down.
pub open spec fn spec_rank_one_share(allocation: int) -> int {
    allocation * RANK_ONE_PERCENT / PERCENT_DIVISOR as int
}

/// Rank 2's share of an allocation: 15 percent, rounded down.
pub open spec fn spec_rank_two_share(allocation: int) -> int {
    allocation * RANK_TWO_PERCENT / PERCENT_DIVISOR as int
}

/// Rank 3's share of an allocation: a tenth, rounded down.
pub open spec fn spec_rank_three_share(allocation: int) -> int {
    allocation * RANK_THREE_PERCENT / PERCENT_DIVISOR as int
}

/// Each of ranks 4-10 gets a seventh of half the allocation, rounded
/// down. The truncation remainders stay in the treasury's custody and
/// are not swept: they are simply never allocated.
pub open spec fn spec_trailing_share(allocation: int) -> int {
    allocation * TRAILING_PERCENT / PERCENT_DIVISOR as int / TRAILING_RANKS as int
}

/// A distribution is owed exactly when there is positive inflow and the
/// checked arithmetic fits: the largest rank multiplier must not wrap,
/// and the lifetime counter must absorb the allocation.
pub open spec fn spec_recurring_accepts(pool: Free2EarnPool, live_treasury: u64) -> bool {
    &&& spec_inflow(pool, live_treasury) > 0
    &&& spec_allocation(pool, live_treasury) * TRAILING_PERCENT <= u64::MAX
    &&& pool.total_distributed + spec_allocation(pool, live_treasury) <= u64::MAX
}

/// The pool after a successful distribution at `live_treasury`: the
/// snapshot catches up to the live balance and the lifetime counter grows
/// by the allocation.
pub open spec fn spec_recurring_next(pool: Free2EarnPool, live_treasury: u64) -> Free2EarnPool {
    Free2EarnPool {
        last_recorded_treasury: live_treasury,
        total_distributed: (pool.total_distributed + spec_allocation(pool, live_treasury)) as u64,
    }
}

/// Law: recurring distribution is idempotent on zero inflow. After a
/// successful distribution at some live balance, a second call at the
/// same unchanged balance sees zero inflow, so it is owed nothing: by
/// `distribute_free2earn_rewards`' contract it transfers nothing and
/// leaves both the snapshot and the lifetime counter unchanged.
pub proof fn lemma_recurring_skim_idempotent(pool: Free2EarnPool, live_treasury: u64)
    requires
        spec_recurring_accepts(pool, live_treasury),
    ensures
        spec_inflow(spec_recurring_next(pool, live_treasury), live_treasury) == 0,
        !spec_recurring_accepts(spec_recurring_next(pool, live_treasury), live_treasury),
{
}

/// One cycle's payout: the allocation taken from the inflow and the ten
/// transfer orders, in rank order, from the treasury's custodial holding
/// to the ten ranked recipients.
#[derive(Clone, Debug)]
pub struct RecurringPayout {
    pub allocation: u64,
    pub transfers: Vec<Transfer>,
}

/// Run one recurring distribution cycle against the live treasury
/// balance read from `treasury_token_account`.
///
/// Rejects with `Overflow` if the live balance has fallen below the
/// snapshot or any checked arithmetic would wrap; reports `Ok(None)` and
/// changes nothing when there is no new inflow. Otherwise allocates one
/// tenth of the inflow, pays 25/15/10 percent of it to ranks 1-3 and a
/// seventh of 50 percent to each of ranks 4-10 (all rounded down), moves
/// the snapshot forward to the live balance, and grows the lifetime
/// counter by the allocation. The ten transfers and the two state updates
/// commit as one atomic unit on the platform.
pub fn distribute_free2earn_rewards(
    pool: &mut Free2EarnPool,
    treasury_token_account: &TokenAccount,
    recipients: &[AccountId; 10],
) -> (r: Result<Option<RecurringPayout>, PlayrushError>)
    ensures
        final(pool).last_recorded_treasury >= old(pool).last_recorded_treasury,
        final(pool).total_distributed >= old(pool).total_distributed,
        spec_inflow(*old(pool), treasury_token_account.amount) < 0 ==> r == Err::<
            Option<RecurringPayout>,
            PlayrushError,
        >(PlayrushError::Overflow) && *final(pool) == *old(pool),
        spec_inflow(*old(pool), treasury_token_account.amount) == 0 ==> r == Ok::<
            Option<RecurringPayout>,
            PlayrushError,
        >(None) && *final(pool) == *old(pool),
        spec_inflow(*old(pool), treasury_token_account.amount) > 0 && !spec_recurring_accepts(
            *old(pool),
            treasury_token_account.amount,
        ) ==> r == Err::<Option<RecurringPayout>, PlayrushError>(PlayrushError::Overflow)
            && *final(pool) == *old(pool),
        spec_recurring_accepts(*old(pool), treasury_token_account.amount) ==> (r matches Ok(o) && o
            matches Some(p) && {
            let live = treasury_token_account.amount;
            let allocation = spec_allocation(*old(pool), live);
            &&& *final(pool) == spec_recurring_next(*old(pool), live)
            &&& spec_inflow(*final(pool), live) == 0
            &&& p.allocation == allocation
            &&& p.transfers@.len() == RECURRING_RECIPIENTS
            &&& forall|i: int|
                0 <= i < p.transfers@.len() ==> (#[trigger] p.transfers@[i]).from
                    == treasury_token_account.address && p.transfers@[i].to == recipients@[i]
            &&& p.transfers@[0].amount == spec_rank_one_share(allocation)
            &&& p.transfers@[1].amount == spec_rank_two_share(allocation)
            &&& p.transfers@[2].amount == spec_rank_three_share(allocation)
            &&& forall|i: int|
                3 <= i < p.transfers@.len() ==> (#[trigger] p.transfers@[i]).amount
                    == spec_trailing_share(allocation)
        }),
{
    let treasury_balance = treasury_token_account.amount;
    if treasury_balance < pool.last_recorded_treasury {
        return Err(PlayrushError::Overflow);
    }
    let inflow = treasury_balance - pool.last_recorded_treasury;
    if inflow == 0 {
        return Ok(None);
    }
    let allocation = inflow / RECURRING_ALLOCATION_DIVISOR;
    if allocation > u64::MAX / TRAILING_PERCENT {
        return Err(PlayrushError::Overflow);
    }
    if pool.total_distributed > u64::MAX - allocation {
        return Err(PlayrushError::Overflow);
    }
    let first = allocation * RANK_ONE_PERCENT / PERCENT_DIVISOR;
    let second = allocation * RANK_TWO_PERCENT / PERCENT_DIVISOR;
    let third = allocation * RANK_THREE_PERCENT / PERCENT_DIVISOR;
    let rest_total = allocation * TRAILING_PERCENT / PERCENT_DIVISOR;
    let rest_share = rest_total / TRAILING_RANKS;
    let amounts: [u64; 10] = [
        first,
        second,
        third,
        rest_share,
        rest_share,
        rest_share,
        rest_share,
        rest_share,
        rest_share,
        rest_share,
    ];
    let mut transfers: Vec<Transfer> = Vec::new();
    let mut i: usize = 0;
    while i < RECURRING_RECIPIENTS
        invariant
            i <= RECURRING_RECIPIENTS,
            transfers@.len() == i,
            amounts@.len() == 10,
            recipients@.len() == 10,
            forall|k: int|
                0 <= k < i ==> (#[trigger] transfers@[k]).from == treasury_token_account.address
                    && transfers@[k].to == recipients@[k] && transfers@[k].amount == amounts@[k],
        decreases RECURRING_RECIPIENTS - i,
    {
        transfers.push(
            Transfer {
                from: treasury_token_account.address,
                to: recipients[i],
                amount: amounts[i],
            },
        );
        i = i + 1;
    }
    pool.last_recorded_treasury = treasury_balance;
    pool.total_distributed = pool.total_distributed + allocation;
    Ok(Some(RecurringPayout { allocation, transfers }))
}

} // verus!
