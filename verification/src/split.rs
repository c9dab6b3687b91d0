use vstd::prelude::*;
use vstd::seq_lib::commutative_foldl;
use vstd::seq_lib::lemma_fold_left_permutation;

verus! {

/// Policy: of every deposit, one tenth (floor) is diverted to the operator
/// treasury and the remaining nine tenths are escrowed in the pool.
pub const TREASURY_SHARE_DIVISOR: u64 = 10;

/// The treasury's cut of a deposit: one tenth, rounded down.
pub open spec fn spec_treasury_cut(amount: u64) -> int {
    amount as int / TREASURY_SHARE_DIVISOR as int
}

/// The pool's share of a deposit: everything the treasury does not take.
pub open spec fn spec_pool_share(amount: u64) -> int {
    amount - spec_treasury_cut(amount)
}

/// The sum of the pool shares of a sequence of deposit amounts.
pub open spec fn sum_pool_shares(amounts: Seq<u64>) -> int {
    amounts.fold_left(0int, |acc: int, a: u64| acc + spec_pool_share(a))
}

/// Appending one accepted deposit grows the pool-share sum by exactly that
/// deposit's pool share.
pub proof fn lemma_sum_pool_shares_push(amounts: Seq<u64>, a: u64)
    ensures
        sum_pool_shares(amounts.push(a)) == sum_pool_shares(amounts) + spec_pool_share(a),
{
    assert(amounts.push(a).drop_last() =~= amounts);
}

/// Law: the pool-share sum is independent of deposit order. Two deposit
/// histories that are rearrangements of one another escrow exactly the
/// same total.
pub proof fn lemma_sum_pool_shares_permutation(s1: Seq<u64>, s2: Seq<u64>)
    requires
        s1.to_multiset() == s2.to_multiset(),
    ensures
        sum_pool_shares(s1) == sum_pool_shares(s2),
{
    let f = |acc: int, a: u64| acc + spec_pool_share(a);
    assert(commutative_foldl(f)) by {
        assert(forall|x: u64, y: u64, v: int| #[trigger] f(f(v, x), y) == f(f(v, y), x));
    }
    lemma_fold_left_permutation(s1, s2, f, 0int);
}

/// Split a deposit into the treasury cut and the pool share. This is the
/// fixed 10/90 policy split applied to every accepted deposit.
pub fn split_deposit(amount: u64) -> (r: (u64, u64))
    ensures
        r.0 == spec_treasury_cut(amount),
        r.1 == spec_pool_share(amount),
        r.0 + r.1 == amount,
{
    let cut = amount / TREASURY_SHARE_DIVISOR;
    (cut, amount - cut)
}

} // verus!
