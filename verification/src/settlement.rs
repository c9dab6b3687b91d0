use vstd::prelude::*;
use crate::errors::PlayrushError;
use crate::ids::AccountId;
use crate::ids::Transfer;
use crate::tournament::Tournament;

verus! {

/// Fixed payout table for ranked settlement: ranks 1-3 take 50%, 30% and
/// 20% of the pool, each rounded down.
pub const FIRST_PLACE_PERCENT: u64 = 50;

pub const SECOND_PLACE_PERCENT: u64 = 30;

pub const THIRD_PLACE_PERCENT: u64 = 20;

pub const PERCENT_DIVISOR: u64 = 100;

/// Rank 1's share: half the pool, rounded down.
pub open spec fn spec_first_share(total: u64) -> int {
    total * FIRST_PLACE_PERCENT / PERCENT_DIVISOR as int
}

/// Rank 2's share: three tenths of the pool, rounded down.
pub open spec fn spec_second_share(total: u64) -> int {
    total * SECOND_PLACE_PERCENT / PERCENT_DIVISOR as int
}

/// Rank 3's share: one fifth of the pool, rounded down.
pub open spec fn spec_third_share(total: u64) -> int {
    total * THIRD_PLACE_PERCENT / PERCENT_DIVISOR as int
}

/// What the three truncated shares leave behind. Policy: this remainder
/// is stranded in the pool's custodial balance, exactly as the shares are
/// computed; it is not swept to any recipient.
pub open spec fn spec_settlement_remainder(total: u64) -> int {
    total - spec_first_share(total) - spec_second_share(total) - spec_third_share(total)
}

/// The three transfer orders of one ranked settlement, from the pool's
/// custodial address to the rank 1, 2 and 3 recipients, to be executed in
/// that order by the platform under the pool's own derived authority.
#[derive(Clone, Copy, Debug, PartialEq, Eq, Structural)]
pub struct RankedPayout {
    pub first: Transfer,
    pub second: Transfer,
    pub third: Transfer,
}

/// Settle a pool: pay 50/30/20 percent of `total_pool` (each rounded
/// down) to the three ranked recipients from the pool's custodial address
/// `pool_address`.
///
/// Settlement is one-shot: the pool must not have been settled before,
/// and a successful call sets the settled flag, so a repeat fails with
/// `AlreadySettled` and pays nothing. The truncation remainder stays in
/// the pool's custody and is not swept; `total_pool` itself is not
/// reduced — it remains the record of everything the pool escrowed, and
/// the settled flag alone prevents a second payout.
pub fn distribute_rewards(
    tournament: &mut Tournament,
    pool_address: AccountId,
    first_place: AccountId,
    second_place: AccountId,
    third_place: AccountId,
) -> (r: Result<RankedPayout, PlayrushError>)
    ensures
        old(tournament).settled ==> r == Err::<RankedPayout, PlayrushError>(
            PlayrushError::AlreadySettled,
        ) && *final(tournament) == *old(tournament),
        !old(tournament).settled && old(tournament).total_pool * FIRST_PLACE_PERCENT > u64::MAX
            ==> r == Err::<RankedPayout, PlayrushError>(PlayrushError::Overflow)
            && *final(tournament) == *old(tournament),
        !old(tournament).settled && old(tournament).total_pool * FIRST_PLACE_PERCENT <= u64::MAX
            ==> (r matches Ok(p) && {
            let total = old(tournament).total_pool;
            &&& p.first == (Transfer {
                from: pool_address,
                to: first_place,
                amount: (spec_first_share(total) as u64),
            })
            &&& p.second == (Transfer {
                from: pool_address,
                to: second_place,
                amount: (spec_second_share(total) as u64),
            })
            &&& p.third == (Transfer {
                from: pool_address,
                to: third_place,
                amount: (spec_third_share(total) as u64),
            })
            &&& p.first.amount + p.second.amount + p.third.amount + spec_settlement_remainder(
                total,
            ) == total
            &&& 0 <= spec_settlement_remainder(total)
            &&& final(tournament).settled
            &&& final(tournament).authority == old(tournament).authority
            &&& final(tournament).game_id == old(tournament).game_id
            &&& final(tournament).tournament_id == old(tournament).tournament_id
            &&& final(tournament).asset_mode == old(tournament).asset_mode
            &&& final(tournament).total_pool == old(tournament).total_pool
            &&& final(tournament).is_active == old(tournament).is_active
            &&& final(tournament).accepted@ == old(tournament).accepted@
        }),
        old(tournament).conserves() ==> final(tournament).conserves(),
{
    if tournament.settled {
        return Err(PlayrushError::AlreadySettled);
    }
    let total = tournament.total_pool;
    if total > u64::MAX / FIRST_PLACE_PERCENT {
        return Err(PlayrushError::Overflow);
    }
    let first_amt = total * FIRST_PLACE_PERCENT / PERCENT_DIVISOR;
    let second_amt = total * SECOND_PLACE_PERCENT / PERCENT_DIVISOR;
    let third_amt = total * THIRD_PLACE_PERCENT / PERCENT_DIVISOR;
    tournament.settled = true;
    Ok(
        RankedPayout {
            first: Transfer { from: pool_address, to: first_place, amount: first_amt },
            second: Transfer { from: pool_address, to: second_place, amount: second_amt },
            third: Transfer { from: pool_address, to: third_place, amount: third_amt },
        },
    )
}

} // verus!
