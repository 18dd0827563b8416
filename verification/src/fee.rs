//! Fees: what pools charge, what has been collected, and what partners take.

use vstd::prelude::*;
use vstd::string::StringExecFns;
use vstd::utf8::encode_utf8;
use cosmwasm_std::CheckedMultiplyFractionError;
use cosmwasm_std::Decimal;
use cosmwasm_std::Uint128;
use crate::chain::CrossChainUser;
use crate::error::ContractError;
use crate::listing::is_listing;
use crate::listing::lemma_listing_unique;
use crate::order::bytes_less;
use crate::order::bytes_lt;
use crate::order::lemma_lt_transitive;
use crate::store::text_raw;
use crate::token::lemma_text_order;
use crate::token::text_lt;

verus! {

/// `cosmwasm_std::CheckedMultiplyFractionError`, taken as it is.
#[verifier::external_type_specification]
#[verifier::external_body]
pub struct ExCheckedMultiplyFractionError(CheckedMultiplyFractionError);

/// The most that a pool may charge, in basis points: 10%.
pub const MAX_FEE_BPS: u64 = 1000;

/// The most that a partner may take of a swap, in basis points: 0.3%.
pub const MAX_PARTNER_FEE_BPS: u64 = 30;

/// What a pool charges.
#[derive(Debug, PartialEq, Eq)]
pub struct Fee {
    /// For those who provide liquidity, in basis points.
    pub lp_fee_bps: u64,
    /// For the protocol's treasury, in basis points.
    pub euclid_fee_bps: u64,
    /// Who receives the treasury's part.
    pub recipient: CrossChainUser,
}

/// What a partner takes of a swap.
#[derive(Debug, PartialEq, Eq)]
pub struct PartnerFee {
    /// The partner's part, in basis points.
    pub partner_fee_bps: u64,
    pub recipient: String,
}

impl Clone for PartnerFee {
    fn clone(&self) -> (r: PartnerFee)
        ensures
            r == *self,
    {
        PartnerFee { partner_fee_bps: self.partner_fee_bps, recipient: self.recipient.clone() }
    }
}

/// The part of `amount` that `bps` basis points make, rounded up.
pub open spec fn bps_of(amount: u128, bps: u64) -> int {
    (amount * bps + 9999) / 10000
}

/// `Uint128::checked_mul_ceil` by `Decimal::bps`: the amount times the basis
/// points over ten thousand, rounded up, or an error if that leaves 128 bits.
#[verifier::external_body]
fn mul_ceil_bps(amount: u128, bps: u64) -> (r: Result<u128, CheckedMultiplyFractionError>)
    ensures
        bps_of(amount, bps) <= u128::MAX ==> r is Ok && r->Ok_0 == bps_of(amount, bps),
        bps_of(amount, bps) > u128::MAX ==> r is Err,
{
    Uint128::new(amount).checked_mul_ceil(Decimal::bps(bps)).map(|fee| fee.u128())
}

/// What a partner takes of `amount` at `bps` basis points, rounded up.
pub fn partner_fee_amount(amount: u128, bps: u64) -> (r: Result<u128, ContractError>)
    ensures
        bps_of(amount, bps) <= u128::MAX ==> r == Ok::<u128, ContractError>(bps_of(amount, bps) as u128),
        bps_of(amount, bps) > u128::MAX ==> r == Err::<u128, ContractError>(ContractError::Overflow),
{
    match mul_ceil_bps(amount, bps) {
        Ok(fee) => Ok(fee),
        Err(_) => Err(ContractError::Overflow),
    }
}

/// A fee of at most ten thousand basis points is at most the amount.
pub proof fn lemma_fee_within_amount(amount: u128, bps: u64)
    requires
        bps <= 10000,
    ensures
        0 <= bps_of(amount, bps) <= amount,
        bps > 0 && amount > 0 ==> bps_of(amount, bps) > 0,
{
    assert(amount * bps <= amount * 10000) by (nonlinear_arith)
        requires
            bps <= 10000,
            amount >= 0,
    ;
    assert(0 <= amount * bps) by (nonlinear_arith)
        requires
            bps >= 0,
            amount >= 0,
    ;
    if bps > 0 && amount > 0 {
        assert(amount * bps >= 1) by (nonlinear_arith)
            requires
                bps >= 1,
                amount >= 1,
        ;
    }
}

/// Whether no denomination is listed twice.
pub open spec fn distinct_denoms(totals: Seq<(String, u128)>) -> bool {
    forall|i: int, j: int|
        0 <= i < j < totals.len() ==> (#[trigger] totals[i]).0@ != (#[trigger] totals[j]).0@
}

/// Whether the denominations are listed in ascending order, each once.
pub open spec fn ascending_denoms(totals: Seq<(String, u128)>) -> bool {
    forall|i: int, j: int|
        0 <= i < j < totals.len() ==> text_lt((#[trigger] totals[i]).0@, (#[trigger] totals[j]).0@)
}

/// The totals as a map from denominations.
pub open spec fn totals_map(totals: Seq<(String, u128)>) -> Map<Seq<char>, u128> {
    Map::new(
        |denom: Seq<char>| exists|i: int| 0 <= i < totals.len() && (#[trigger] totals[i]).0@ == denom,
        |denom: Seq<char>| totals[choose|i: int| 0 <= i < totals.len() && (#[trigger] totals[i]).0@ == denom].1,
    )
}

/// The totals as rows of plain values.
pub open spec fn total_rows(totals: Seq<(String, u128)>) -> Seq<(Seq<char>, u128)> {
    Seq::new(totals.len(), |i: int| (totals[i].0@, totals[i].1))
}

proof fn lemma_ascending_is_distinct(totals: Seq<(String, u128)>)
    requires
        ascending_denoms(totals),
    ensures
        distinct_denoms(totals),
{
    assert forall|i: int, j: int| 0 <= i < j < totals.len() implies (#[trigger] totals[i]).0@ != (
    #[trigger] totals[j]).0@ by {
        lemma_text_order(totals[i].0@, totals[j].0@);
    }
}

proof fn lemma_totals_at(totals: Seq<(String, u128)>, i: int)
    requires
        distinct_denoms(totals),
        0 <= i < totals.len(),
    ensures
        totals_map(totals).contains_key(totals[i].0@),
        totals_map(totals)[totals[i].0@] == totals[i].1,
{
    let denom = totals[i].0@;
    let j = choose|j: int| 0 <= j < totals.len() && (#[trigger] totals[j]).0@ == denom;
    assert(j == i);
}

proof fn lemma_totals_set(totals: Seq<(String, u128)>, i: int, entry: (String, u128))
    requires
        ascending_denoms(totals),
        0 <= i < totals.len(),
        entry.0@ == totals[i].0@,
    ensures
        ascending_denoms(totals.update(i, entry)),
        totals_map(totals.update(i, entry)) == totals_map(totals).insert(entry.0@, entry.1),
{
    let after = totals.update(i, entry);
    assert(ascending_denoms(after)) by {
        assert forall|a: int, b: int| 0 <= a < b < after.len() implies text_lt(
            (#[trigger] after[a]).0@,
            (#[trigger] after[b]).0@,
        ) by {
            assert(after[a].0@ == totals[a].0@);
            assert(after[b].0@ == totals[b].0@);
        }
    }
    lemma_ascending_is_distinct(totals);
    lemma_ascending_is_distinct(after);
    assert forall|denom: Seq<char>|
        totals_map(after).contains_key(denom) == totals_map(totals).insert(entry.0@, entry.1).contains_key(
            denom,
        ) by {
        if totals_map(after).contains_key(denom) {
            let j = choose|j: int| 0 <= j < after.len() && (#[trigger] after[j]).0@ == denom;
            assert(totals[j].0@ == denom);
        }
        if totals_map(totals).contains_key(denom) {
            let j = choose|j: int| 0 <= j < totals.len() && (#[trigger] totals[j]).0@ == denom;
            assert(after[j].0@ == denom);
        }
        if denom == entry.0@ {
            assert(after[i].0@ == denom);
        }
    }
    assert forall|denom: Seq<char>| totals_map(after).contains_key(denom) implies totals_map(after)[denom]
        == totals_map(totals).insert(entry.0@, entry.1)[denom] by {
        let j = choose|j: int| 0 <= j < after.len() && (#[trigger] after[j]).0@ == denom;
        lemma_totals_at(after, j);
        if j != i {
            assert(totals[j].0@ == denom);
            lemma_totals_at(totals, j);
        }
    }
    assert(totals_map(after) =~= totals_map(totals).insert(entry.0@, entry.1));
}

proof fn lemma_totals_insert(totals: Seq<(String, u128)>, i: int, entry: (String, u128))
    requires
        ascending_denoms(totals),
        0 <= i <= totals.len(),
        forall|j: int| 0 <= j < i ==> text_lt((#[trigger] totals[j]).0@, entry.0@),
        forall|j: int| i <= j < totals.len() ==> text_lt(entry.0@, (#[trigger] totals[j]).0@),
    ensures
        ascending_denoms(totals.insert(i, entry)),
        !totals_map(totals).contains_key(entry.0@),
        totals_map(totals.insert(i, entry)) == totals_map(totals).insert(entry.0@, entry.1),
{
    let after = totals.insert(i, entry);
    assert forall|j: int| 0 <= j < after.len() implies (#[trigger] after[j]) == (if j < i {
        totals[j]
    } else if j == i {
        entry
    } else {
        totals[j - 1]
    }) by {}
    assert(ascending_denoms(after)) by {
        assert forall|a: int, b: int| 0 <= a < b < after.len() implies text_lt(
            (#[trigger] after[a]).0@,
            (#[trigger] after[b]).0@,
        ) by {
            if b < i {
                assert(text_lt(totals[a].0@, totals[b].0@));
            } else if b == i {
                assert(text_lt(totals[a].0@, entry.0@));
            } else if a < i {
                assert(text_lt(totals[a].0@, totals[b - 1].0@));
            } else if a == i {
                assert(text_lt(entry.0@, totals[b - 1].0@));
            } else {
                assert(text_lt(totals[a - 1].0@, totals[b - 1].0@));
            }
        }
    }
    lemma_ascending_is_distinct(totals);
    lemma_ascending_is_distinct(after);
    if totals_map(totals).contains_key(entry.0@) {
        let j = choose|j: int| 0 <= j < totals.len() && (#[trigger] totals[j]).0@ == entry.0@;
        lemma_text_order(totals[j].0@, entry.0@);
        assert(false);
    }
    assert forall|denom: Seq<char>|
        totals_map(after).contains_key(denom) == totals_map(totals).insert(entry.0@, entry.1).contains_key(
            denom,
        ) by {
        if totals_map(after).contains_key(denom) {
            let j = choose|j: int| 0 <= j < after.len() && (#[trigger] after[j]).0@ == denom;
            if j < i {
                assert(totals[j].0@ == denom);
            } else if j > i {
                assert(totals[j - 1].0@ == denom);
            }
        }
        if totals_map(totals).contains_key(denom) {
            let j = choose|j: int| 0 <= j < totals.len() && (#[trigger] totals[j]).0@ == denom;
            if j < i {
                assert(after[j].0@ == denom);
            } else {
                assert(after[j + 1].0@ == denom);
            }
        }
        if denom == entry.0@ {
            assert(after[i].0@ == denom);
        }
    }
    assert forall|denom: Seq<char>| totals_map(after).contains_key(denom) implies totals_map(after)[denom]
        == totals_map(totals).insert(entry.0@, entry.1)[denom] by {
        let j = choose|j: int| 0 <= j < after.len() && (#[trigger] after[j]).0@ == denom;
        lemma_totals_at(after, j);
        if j < i {
            assert(totals[j].0@ == denom);
            lemma_totals_at(totals, j);
        } else if j > i {
            assert(totals[j - 1].0@ == denom);
            lemma_totals_at(totals, j - 1);
        }
    }
    assert(totals_map(after) =~= totals_map(totals).insert(entry.0@, entry.1));
}

/// The fees collected, by denomination. A denomination that has collected
/// nothing has a total of zero. The totals are kept in the order of their
/// denominations, so that fees with the same totals are the same value,
/// whatever the order in which they were collected.
#[derive(Debug, PartialEq, Eq)]
pub struct DenomFees {
    totals: Vec<(String, u128)>,
}

impl View for DenomFees {
    type V = Map<Seq<char>, u128>;

    closed spec fn view(&self) -> Map<Seq<char>, u128> {
        totals_map(self.totals@)
    }
}

impl DenomFees {
    /// The denominations are listed in ascending order, each once.
    pub closed spec fn wf(self) -> bool {
        ascending_denoms(self.totals@)
    }

    /// The totals as they are kept: one row for each denomination.
    pub closed spec fn rows(self) -> Seq<(Seq<char>, u128)> {
        total_rows(self.totals@)
    }

    /// The total of a denomination, zero where it has none.
    pub open spec fn total(self, denom: Seq<char>) -> u128 {
        if self@.contains_key(denom) {
            self@[denom]
        } else {
            0
        }
    }

    /// Fees with the same totals are kept as the same rows: what is kept
    /// does not depend on the order in which the fees were collected.
    pub proof fn lemma_totals_determine_rows(self, other: DenomFees)
        requires
            self.wf(),
            other.wf(),
            self@ == other@,
        ensures
            self.rows() == other.rows(),
    {
        self.lemma_rows_list_totals();
        other.lemma_rows_list_totals();
        lemma_listing_unique(self.rows(), other.rows(), self@, text_raw(), None, None);
    }

    proof fn lemma_rows_list_totals(self)
        requires
            self.wf(),
        ensures
            is_listing(self.rows(), self@, text_raw(), None, None),
    {
        let totals = self.totals@;
        let rows = self.rows();
        lemma_ascending_is_distinct(totals);
        assert forall|i: int, j: int| 0 <= i < j < rows.len() implies bytes_lt(
            text_raw()(#[trigger] rows[i].0),
            text_raw()(#[trigger] rows[j].0),
        ) by {
            assert(text_lt(totals[i].0@, totals[j].0@));
        }
        assert forall|i: int| 0 <= i < rows.len() implies self@.contains_key((#[trigger] rows[i]).0) && self@[rows[i].0]
            == rows[i].1 by {
            lemma_totals_at(totals, i);
        }
        assert forall|k: Seq<char>| #[trigger] self@.contains_key(k) implies exists|i: int|
            0 <= i < rows.len() && (#[trigger] rows[i]).0 == k by {
            let i = choose|i: int| 0 <= i < totals.len() && (#[trigger] totals[i]).0@ == k;
            assert(rows[i].0 == k);
        }
    }

    /// No fees.
    pub fn new() -> (r: DenomFees)
        ensures
            r.wf(),
            r@ == Map::<Seq<char>, u128>::empty(),
    {
        let r = DenomFees { totals: Vec::new() };
        proof {
            assert(r@ =~= Map::<Seq<char>, u128>::empty());
        }
        r
    }

    /// Where a denomination stands among the totals, or would stand: the
    /// number of totals whose denominations come before it.
    fn slot(&self, token: &String) -> (r: usize)
        requires
            self.wf(),
        ensures
            r <= self.totals@.len(),
            forall|j: int| 0 <= j < r ==> text_lt((#[trigger] self.totals@[j]).0@, token@),
            forall|j: int| r <= j < self.totals@.len() ==> !text_lt((#[trigger] self.totals@[j]).0@, token@),
    {
        let mut i: usize = 0;
        while i < self.totals.len()
            invariant
                self.wf(),
                i <= self.totals@.len(),
                forall|j: int| 0 <= j < i ==> text_lt((#[trigger] self.totals@[j]).0@, token@),
            decreases self.totals.len() - i,
        {
            if !bytes_less(self.totals[i].0.as_str().as_bytes(), token.as_str().as_bytes()) {
                proof {
                    assert forall|j: int| i <= j < self.totals@.len() implies !text_lt(
                        (#[trigger] self.totals@[j]).0@,
                        token@,
                    ) by {
                        if j > i && text_lt(self.totals@[j].0@, token@) {
                            assert(text_lt(self.totals@[i as int].0@, self.totals@[j].0@));
                            lemma_lt_transitive(
                                encode_utf8(self.totals@[i as int].0@),
                                encode_utf8(self.totals@[j].0@),
                                encode_utf8(token@),
                            );
                        }
                    }
                }
                return i;
            }
            i += 1;
        }
        i
    }

    /// Adds `amount` to the total of a denomination.
    pub fn add_fee(&mut self, token: String, amount: u128)
        requires
            old(self).wf(),
            old(self).total(token@) + amount <= u128::MAX,
        ensures
            final(self).wf(),
            final(self)@ == old(self)@.insert(token@, (old(self).total(token@) + amount) as u128),
    {
        let i: usize = self.slot(&token);
        proof {
            lemma_ascending_is_distinct(self.totals@);
        }
        if i < self.totals.len() && self.totals[i].0 == token {
            let total: u128 = self.totals[i].1;
            proof {
                lemma_totals_at(self.totals@, i as int);
                lemma_totals_set(self.totals@, i as int, (token, (total + amount) as u128));
            }
            self.totals.set(i, (token, total + amount));
        } else {
            proof {
                let totals = self.totals@;
                assert forall|j: int| i <= j < totals.len() implies text_lt(token@, (#[trigger] totals[j]).0@) by {
                    lemma_text_order(totals[i as int].0@, token@);
                    if j > i {
                        assert(text_lt(totals[i as int].0@, totals[j].0@));
                        lemma_lt_transitive(
                            encode_utf8(token@),
                            encode_utf8(totals[i as int].0@),
                            encode_utf8(totals[j].0@),
                        );
                    }
                }
                lemma_totals_insert(totals, i as int, (token, amount));
            }
            self.totals.insert(i, (token, amount));
        }
    }

    /// The total of a denomination, zero where it has none.
    pub fn get_fee(&self, token: &str) -> (r: u128)
        requires
            self.wf(),
        ensures
            r == self.total(token@),
    {
        let token = String::from_str(token);
        let i: usize = self.slot(&token);
        proof {
            lemma_ascending_is_distinct(self.totals@);
        }
        if i < self.totals.len() && self.totals[i].0 == token {
            proof {
                lemma_totals_at(self.totals@, i as int);
            }
            self.totals[i].1
        } else {
            proof {
                if self@.contains_key(token@) {
                    let j = choose|j: int| 0 <= j < self.totals@.len() && (#[trigger] self.totals@[j]).0@ == token@;
                    lemma_text_order(self.totals@[j].0@, token@);
                    if j > i {
                        lemma_text_order(self.totals@[i as int].0@, token@);
                        assert(text_lt(self.totals@[i as int].0@, self.totals@[j].0@));
                    }
                }
            }
            0
        }
    }

    /// The key under which a denomination is filed: marked as a token
    /// contract where the denomination is an address, as a native coin where
    /// it is not.
    pub fn get_key(&self, is_address: bool, denom: &str) -> (r: String)
        ensures
            r@ == (if is_address {
                "smart"@
            } else {
                "native"@
            }) + denom@,
    {
        let prefix = if is_address {
            "smart"
        } else {
            "native"
        };
        String::from_str(prefix).concat(denom)
    }
}

/// The fees that a pool has collected.
#[derive(Debug, PartialEq, Eq)]
pub struct TotalFees {
    /// For those who provide liquidity.
    pub lp_fees: DenomFees,
    /// For the protocol's treasury.
    pub euclid_fees: DenomFees,
}

} // verus!
