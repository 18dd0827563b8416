//! What a chain reports of itself.

use vstd::prelude::*;
use crate::error::ContractError;
use crate::listing::lemma_listing_is;
use crate::listing::listing;
use crate::msgs::factory::AllPoolsResponse;
use crate::msgs::factory::GetPendingLiquidityResponse;
use crate::msgs::factory::GetPendingSwapsResponse;
use crate::msgs::factory::PoolVlpResponse;
use crate::msgs::factory::StateResponse;
use crate::store::pending_record_rows;
use crate::store::vlp_rows;
use crate::store::pair_raw;
use crate::store::section;
use crate::store::text_raw;
use crate::store::text_view;
use crate::store::PendingRecord;
use crate::store::PendingRowView;
use crate::store::Store;
use crate::store::TxType;
use crate::token::Pair;

verus! {

/// What the chain knows of itself. The chain's identifier, the router and
/// the administrator must have been set; the channel to the hub may be
/// missing.
pub fn query_state(store: &Store) -> (r: Result<StateResponse, ContractError>)
    ensures
        store@.chain_uid() is None || !store@.config.contains_key("router_contract"@) || store@.admin() is None
            ==> r == Err::<StateResponse, ContractError>(ContractError::StateNotFound),
        store@.chain_uid() is Some && store@.config.contains_key("router_contract"@) && store@.admin() is Some
            ==> (r matches Ok(state) && Some(state.chain_id@) == store@.chain_uid() && state.router_contract@
            == store@.config["router_contract"@] && Some(state.admin@) == store@.admin() && text_view(
            state.hub_channel,
        ) == store@.hub_channel()),
{
    let chain_id = match store.setting("chain_uid") {
        Some(chain_id) => chain_id,
        None => {
            return Err(ContractError::StateNotFound);
        },
    };
    let router_contract = match store.setting("router_contract") {
        Some(router_contract) => router_contract,
        None => {
            return Err(ContractError::StateNotFound);
        },
    };
    let admin = match store.setting("admin") {
        Some(admin) => admin,
        None => {
            return Err(ContractError::StateNotFound);
        },
    };
    Ok(StateResponse { chain_id, router_contract, hub_channel: store.setting("hub_channel"), admin })
}

/// The rows of a list of pools, as plain values.
pub open spec fn pool_response_rows(v: Seq<PoolVlpResponse>) -> Seq<((Seq<char>, Seq<char>), Seq<char>)> {
    Seq::new(v.len(), |i: int| ((v[i].pair.token_1@, v[i].pair.token_2@), v[i].vlp@))
}

/// All the pools that the chain knows, in the order of their stored keys.
pub fn query_all_pools(store: &Store) -> (r: Result<AllPoolsResponse, ContractError>)
    ensures
        r matches Ok(all) && pool_response_rows(all.pools@) == listing(store@.pair_to_vlp, pair_raw(), None, None),
{
    let rows = store.list_pools();
    proof {
        lemma_listing_is(vlp_rows(rows@), store@.pair_to_vlp, pair_raw(), None, None);
    }
    let mut pools: Vec<PoolVlpResponse> = Vec::new();
    let mut i: usize = 0;
    while i < rows.len()
        invariant
            i <= rows.len(),
            pools.len() == i,
            forall|j: int|
                0 <= j < i ==> (#[trigger] pools@[j]).pair.token_1@ == rows@[j].0.0@ && pools@[j].pair.token_2@
                    == rows@[j].0.1@ && pools@[j].vlp@ == rows@[j].1@,
        decreases rows.len() - i,
    {
        pools.push(
            PoolVlpResponse {
                pair: Pair { token_1: rows[i].0.0.clone(), token_2: rows[i].0.1.clone() },
                vlp: rows[i].1.clone(),
            },
        );
        i += 1;
    }
    proof {
        assert(pool_response_rows(pools@) =~= vlp_rows(rows@));
    }
    Ok(AllPoolsResponse { pools })
}

/// The requests of a listing, without their transaction ids.
pub open spec fn listed_requests(rows: Seq<(Seq<char>, PendingRowView)>) -> Seq<PendingRowView> {
    Seq::new(rows.len(), |i: int| rows[i].1)
}

/// The requests of a list, as plain values.
pub open spec fn request_views(records: Seq<PendingRecord>) -> Seq<PendingRowView> {
    Seq::new(records.len(), |i: int| records[i]@)
}

fn pending_of(store: &Store, kind: TxType, user: &String) -> (r: Vec<PendingRecord>)
    ensures
        request_views(r@) == listed_requests(listing(section(store@.pending[kind], user@), text_raw(), None, None)),
{
    let rows = store.list_pending(kind, user.as_str());
    let ghost listed = pending_record_rows(rows@);
    proof {
        lemma_listing_is(listed, section(store@.pending[kind], user@), text_raw(), None, None);
    }
    let mut records: Vec<PendingRecord> = Vec::new();
    for entry in it: rows.into_iter()
        invariant
            listed == pending_record_rows(it.seq()),
            records@.len() == it.index(),
            forall|j: int| 0 <= j < it.index() ==> (#[trigger] records@[j])@ == listed[j].1,
    {
        records.push(entry.1);
    }
    proof {
        assert(request_views(records@) =~= listed_requests(listed));
    }
    records
}

/// The swap requests that a requester has in flight, in the order of their
/// transaction ids. The bounds are not used.
pub fn pending_swaps(store: &Store, user: String, _lower_limit: Option<u128>, _upper_limit: Option<u128>) -> (r: Result<GetPendingSwapsResponse, ContractError>)
    ensures
        r matches Ok(found) && request_views(found.pending_swaps@) == listed_requests(
            listing(section(store@.pending[TxType::Swap], user@), text_raw(), None, None),
        ),
{
    Ok(GetPendingSwapsResponse { pending_swaps: pending_of(store, TxType::Swap, &user) })
}

/// The requests to add liquidity that a requester has in flight, in the
/// order of their transaction ids. The bounds are not used.
pub fn pending_liquidity(store: &Store, user: String, _lower_limit: Option<u128>, _upper_limit: Option<u128>) -> (r: Result<GetPendingLiquidityResponse, ContractError>)
    ensures
        r matches Ok(found) && request_views(found.pending_liquidity@) == listed_requests(
            listing(section(store@.pending[TxType::AddLiquidity], user@), text_raw(), None, None),
        ),
{
    Ok(GetPendingLiquidityResponse { pending_liquidity: pending_of(store, TxType::AddLiquidity, &user) })
}

} // verus!
