//! The escrow ledger's arithmetic: what a release hands to each claimant.

use vstd::prelude::*;
use vstd::seq_lib::commutative_foldl;
use vstd::seq_lib::lemma_fold_left_permutation;
use crate::chain::CrossChainUserWithLimit;
use crate::store::Store;
use crate::store::StoreView;
use crate::token::Token;

verus! {

/// The smaller of two amounts.
pub open spec fn min_amount(a: u128, b: u128) -> u128 {
    if a <= b {
        a
    } else {
        b
    }
}

/// The most that a claimant can receive of `token`: the balance of its chain,
/// or its own cap where that is less.
pub open spec fn claim_cap(ledger: StoreView, token: Seq<char>, claimant: CrossChainUserWithLimit) -> u128 {
    let balance = ledger.balance(token, claimant.user.chain_uid@);
    match claimant.limit {
        Some(limit) => min_amount(balance, limit),
        None => balance,
    }
}

/// What a claimant receives when `remaining` is still to be handed out.
pub open spec fn claim_take(
    ledger: StoreView,
    token: Seq<char>,
    remaining: u128,
    claimant: CrossChainUserWithLimit,
) -> u128 {
    min_amount(remaining, claim_cap(ledger, token, claimant))
}

/// What is still to be handed out after a claimant has taken its part.
pub open spec fn after_claim(ledger: StoreView, token: Seq<char>) -> spec_fn(
    u128,
    CrossChainUserWithLimit,
) -> u128 {
    |remaining: u128, claimant: CrossChainUserWithLimit|
        (remaining - claim_take(ledger, token, remaining, claimant)) as u128
}

/// What is left of `amount` after the claimants have taken their parts, one
/// after the other.
pub open spec fn release_remaining(
    ledger: StoreView,
    token: Seq<char>,
    amount: u128,
    claimants: Seq<CrossChainUserWithLimit>,
) -> u128 {
    claimants.fold_left(amount, after_claim(ledger, token))
}

/// What the claimants receive of `amount`, in their order. A claimant that
/// receives nothing is left out.
pub open spec fn release_amounts(
    ledger: StoreView,
    token: Seq<char>,
    amount: u128,
    claimants: Seq<CrossChainUserWithLimit>,
) -> Seq<(u128, CrossChainUserWithLimit)>
    decreases claimants.len(),
{
    if claimants.len() == 0 {
        Seq::empty()
    } else {
        let before = release_amounts(ledger, token, amount, claimants.drop_last());
        let remaining = release_remaining(ledger, token, amount, claimants.drop_last());
        let take = claim_take(ledger, token, remaining, claimants.last());
        if take == 0 {
            before
        } else {
            before.push((take, claimants.last()))
        }
    }
}

/// The sum of the amounts of a list of releases.
pub open spec fn total_released(releases: Seq<(u128, CrossChainUserWithLimit)>) -> nat
    decreases releases.len(),
{
    if releases.len() == 0 {
        0
    } else {
        total_released(releases.drop_last()) + releases.last().0 as nat
    }
}

/// The sum of what the claimants can receive at most.
pub open spec fn total_caps(ledger: StoreView, token: Seq<char>, claimants: Seq<CrossChainUserWithLimit>) -> nat
    decreases claimants.len(),
{
    if claimants.len() == 0 {
        0
    } else {
        total_caps(ledger, token, claimants.drop_last()) + claim_cap(ledger, token, claimants.last()) as nat
    }
}

/// A release loses nothing: what is handed out and what is left add up to the
/// amount. Every release is positive and within its claimant's balance and
/// cap, and what is left is the amount less what the claimants can receive,
/// or nothing.
pub proof fn lemma_release_conserves(
    ledger: StoreView,
    token: Seq<char>,
    amount: u128,
    claimants: Seq<CrossChainUserWithLimit>,
)
    ensures
        release_remaining(ledger, token, amount, claimants) + total_released(
            release_amounts(ledger, token, amount, claimants),
        ) == amount,
        release_remaining(ledger, token, amount, claimants) == if total_caps(ledger, token, claimants)
            <= amount {
            amount - total_caps(ledger, token, claimants)
        } else {
            0
        },
        forall|i: int|
            0 <= i < release_amounts(ledger, token, amount, claimants).len() ==> {
                let row = #[trigger] release_amounts(ledger, token, amount, claimants)[i];
                &&& 0 < row.0 <= amount
                &&& row.0 <= ledger.balance(token, row.1.user.chain_uid@)
                &&& row.1.limit matches Some(limit) ==> row.0 <= limit
                &&& claimants.contains(row.1)
            },
    decreases claimants.len(),
{
    if claimants.len() > 0 {
        lemma_release_conserves(ledger, token, amount, claimants.drop_last());
        let before = release_amounts(ledger, token, amount, claimants.drop_last());
        let remaining = release_remaining(ledger, token, amount, claimants.drop_last());
        let take = claim_take(ledger, token, remaining, claimants.last());
        let rows = release_amounts(ledger, token, amount, claimants);
        assert(release_remaining(ledger, token, amount, claimants) == remaining - take);
        if take != 0 {
            assert(rows.drop_last() =~= before);
        }
        assert forall|i: int| 0 <= i < rows.len() implies {
            let row = #[trigger] rows[i];
            &&& 0 < row.0 <= amount
            &&& row.0 <= ledger.balance(token, row.1.user.chain_uid@)
            &&& row.1.limit matches Some(limit) ==> row.0 <= limit
            &&& claimants.contains(row.1)
        } by {
            if i < before.len() {
                assert(rows[i] == before[i]);
                let earlier = claimants.drop_last();
                assert(earlier.contains(before[i].1));
                let j = choose|j: int| 0 <= j < earlier.len() && earlier[j] == before[i].1;
                assert(claimants[j] == before[i].1);
            } else {
                assert(claimants[claimants.len() - 1] == claimants.last());
            }
        }
    }
}

/// The order of the claimants does not change what is handed out in all, nor
/// what is left: two lists of the same claimants leave the same amount.
pub proof fn lemma_release_order(
    ledger: StoreView,
    token: Seq<char>,
    amount: u128,
    first: Seq<CrossChainUserWithLimit>,
    second: Seq<CrossChainUserWithLimit>,
)
    requires
        first.to_multiset() == second.to_multiset(),
    ensures
        release_remaining(ledger, token, amount, first) == release_remaining(ledger, token, amount, second),
        total_released(release_amounts(ledger, token, amount, first)) == total_released(
            release_amounts(ledger, token, amount, second),
        ),
{
    let f = after_claim(ledger, token);
    assert(commutative_foldl(f)) by {
        assert forall|x: CrossChainUserWithLimit, y: CrossChainUserWithLimit, v: u128| #[trigger]
            f(f(v, x), y) == f(f(v, y), x) by {}
    }
    lemma_fold_left_permutation(first, second, f, amount);
    lemma_release_conserves(ledger, token, amount, first);
    lemma_release_conserves(ledger, token, amount, second);
}

/// What a release of `amount` of `token` would hand to each claimant, and
/// what would be left. The claimants are served in their order; the ledger is
/// read, not changed.
pub fn allocate_release(
    store: &Store,
    token: &Token,
    amount: u128,
    claimants: &Vec<CrossChainUserWithLimit>,
) -> (r: (u128, Vec<(u128, CrossChainUserWithLimit)>))
    ensures
        r.0 == release_remaining(store@, token@, amount, claimants@),
        r.1@ == release_amounts(store@, token@, amount, claimants@),
{
    let mut releases: Vec<(u128, CrossChainUserWithLimit)> = Vec::new();
    let mut remaining: u128 = amount;
    let mut i: usize = 0;
    while i < claimants.len()
        invariant
            i <= claimants.len(),
            remaining == release_remaining(store@, token@, amount, claimants@.take(i as int)),
            releases@ == release_amounts(store@, token@, amount, claimants@.take(i as int)),
        decreases claimants.len() - i,
    {
        let claimant = &claimants[i];
        proof {
            assert(claimants@.take(i + 1).drop_last() =~= claimants@.take(i as int));
            assert(claimants@.take(i + 1).last() == *claimant);
        }
        let balance: u128 = match store.escrow_balance(token, &claimant.user.chain_uid) {
            Some(balance) => balance,
            None => 0,
        };
        let mut take: u128 = if remaining >= balance {
            balance
        } else {
            remaining
        };
        match claimant.limit {
            Some(limit) => {
                if limit < take {
                    take = limit;
                }
            },
            None => {},
        }
        assert(take == claim_take(store@, token@, remaining, *claimant));
        if take != 0 {
            remaining = remaining - take;
            releases.push((take, claimant.clone()));
        }
        i += 1;
    }
    proof {
        assert(claimants@.take(claimants.len() as int) =~= claimants@);
    }
    (remaining, releases)
}

} // verus!
