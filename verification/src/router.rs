//! The hub: the registry of pools and chains, the escrow ledger, and the
//! queries that read them.

use vstd::prelude::*;
use crate::chain::ChainUid;
use crate::chain::CrossChainUserWithLimit;
use crate::error::ContractError;
use crate::error::ErrorKind;
use crate::escrow::allocate_release;
use crate::escrow::release_amounts;
use crate::escrow::release_remaining;
use crate::listing::lemma_listing_is;
use crate::listing::listing;
use crate::listing::page_bounds;
use crate::listing::page_of;
use crate::listing::DEFAULT_LIMIT;
use crate::msgs::router::AllChainResponse;
use crate::msgs::router::AllTokensResponse;
use crate::msgs::router::AllVlpResponse;
use crate::msgs::router::ChainResponse;
use crate::msgs::router::QuerySimulateSwap;
use crate::msgs::router::SimulateSwapResponse;
use crate::msgs::router::SimulateEscrowReleaseResponse;
use crate::msgs::router::TokenEscrowChainResponse;
use crate::msgs::router::TokenEscrowsResponse;
use crate::msgs::router::TokenResponse;
use crate::msgs::router::VlpResponse;
use crate::msgs::vlp::GetSwapResponse;
use crate::msgs::vlp::QueryMsg;
use crate::swap::NextSwapPair;
use crate::swap::NextSwapVlp;
use crate::store::balance_rows;
use crate::store::chain_rows;
use crate::store::ledger_rows;
use crate::store::vlp_rows;
use crate::store::chain_bound;
use crate::store::pair_raw;
use crate::store::section;
use crate::store::text_raw;
use crate::store::token_bound;
use crate::store::vlp_bound;
use crate::store::Store;
use crate::store::StoreView;
use crate::token::canonical_key;
use crate::token::lemma_canonical_key_ordered;
use crate::token::lemma_canonical_key_symmetric;
use crate::token::text_lt;
use crate::token::Pair;
use crate::token::Token;
use crate::utils::Pagination;

verus! {

/// Registers a pool for a pair. A pair has one pool: a pair that is already
/// registered is refused, and so is a pair of one token with itself.
pub fn register_vlp(store: &mut Store, pair: &Pair, vlp: &String) -> (r: Result<(), ContractError>)
    ensures
        !pair.is_valid() ==> r == Err::<(), ContractError>(ContractError::DuplicateTokens),
        pair.is_valid() && old(store)@.vlps.contains_key(pair.key()) ==> r == Err::<(), ContractError>(
            ContractError::PoolAlreadyExists,
        ),
        pair.is_valid() && !old(store)@.vlps.contains_key(pair.key()) ==> r == Ok::<(), ContractError>(()),
        r is Err ==> final(store)@ == old(store)@,
        r is Ok ==> final(store)@ == (StoreView { vlps: old(store)@.vlps.insert(pair.key(), vlp@), ..old(store)@ }),
{
    match pair.validate() {
        Ok(_) => {},
        Err(e) => {
            return Err(e);
        },
    }
    let key = pair.get_tupple();
    match store.vlp(&key.0, &key.1) {
        Some(_) => Err(ContractError::PoolAlreadyExists),
        None => {
            proof {
                lemma_canonical_key_ordered(pair.token_1@, pair.token_2@);
            }
            store.set_vlp(&key.0, &key.1, vlp);
            Ok(())
        },
    }
}

/// The pool of a pair, whichever of its tokens is written first.
pub fn query_vlp(store: &Store, pair: Pair) -> (r: Result<VlpResponse, ContractError>)
    ensures
        store@.vlps.contains_key(pair.key()) ==> (r matches Ok(found) && found.vlp@ == store@.vlps[pair.key()]
            && (found.token_1@, found.token_2@) == pair.key()),
        !store@.vlps.contains_key(pair.key()) ==> r == Err::<VlpResponse, ContractError>(
            ContractError::PoolDoesNotExist,
        ),
{
    let key = pair.get_tupple();
    match store.vlp(&key.0, &key.1) {
        Some(vlp) => Ok(VlpResponse { vlp, token_1: key.0, token_2: key.1 }),
        None => Err(ContractError::PoolDoesNotExist),
    }
}

/// A pair resolves to the same pool whichever of its two tokens is written
/// first, in a registry that has the pair and in one that has not.
pub proof fn lemma_pair_symmetry(registry: StoreView, a: Token, b: Token, vlp: Seq<char>)
    requires
        a@ != b@,
    ensures
        (Pair { token_1: a, token_2: b }).key() == (Pair { token_1: b, token_2: a }).key(),
        registry.vlps.contains_key((Pair { token_1: a, token_2: b }).key()) == registry.vlps.contains_key(
            (Pair { token_1: b, token_2: a }).key(),
        ),
        registry.vlps.insert((Pair { token_1: a, token_2: b }).key(), vlp)[(Pair { token_1: b, token_2: a }).key()]
            == vlp,
{
    lemma_canonical_key_symmetric(a@, b@);
}

/// The rows of a page of the registry, as plain values.
pub open spec fn vlp_response_rows(v: Seq<VlpResponse>) -> Seq<((Seq<char>, Seq<char>), Seq<char>)> {
    Seq::new(v.len(), |i: int| ((v[i].token_1@, v[i].token_2@), v[i].vlp@))
}

/// A page of the registry: the pairs from `min` up to, and without, `max`, in
/// the order of their stored keys, without the first `skip` and then at most
/// `limit` of them. Every pair is written with its earlier token first.
pub fn query_all_vlps(store: &Store, pagination: Pagination<(Token, Token)>) -> (r: Result<AllVlpResponse, ContractError>)
    ensures
        r matches Ok(page) && vlp_response_rows(page.vlps@) == page_of(
            listing(store@.vlps, pair_raw(), vlp_bound(pagination.min), vlp_bound(pagination.max)),
            pagination.skip.unwrap_or(0) as nat,
            pagination.limit.unwrap_or(DEFAULT_LIMIT) as nat,
        ),
        r matches Ok(page) ==> forall|i: int|
            0 <= i < page.vlps@.len() ==> text_lt((#[trigger] page.vlps@[i]).token_1@, page.vlps@[i].token_2@),
{
    let rows = store.list_vlps(&pagination.min, &pagination.max);
    proof {
        lemma_listing_is(
            vlp_rows(rows@),
            store@.vlps,
            pair_raw(),
            vlp_bound(pagination.min),
            vlp_bound(pagination.max),
        );
    }
    let (start, end) = page_bounds(rows.len(), pagination.skip, pagination.limit);
    let mut vlps: Vec<VlpResponse> = Vec::new();
    let mut i: usize = start;
    while i < end
        invariant
            start <= i <= end <= rows.len(),
            vlps.len() == i - start,
            forall|j: int|
                0 <= j < i - start ==> (#[trigger] vlps@[j]).token_1@ == rows@[start + j].0.0@
                    && vlps@[j].token_2@ == rows@[start + j].0.1@ && vlps@[j].vlp@ == rows@[start + j].1@,
        decreases end - i,
    {
        vlps.push(
            VlpResponse {
                vlp: rows[i].1.clone(),
                token_1: rows[i].0.0.clone(),
                token_2: rows[i].0.1.clone(),
            },
        );
        i += 1;
    }
    proof {
        assert(vlp_response_rows(vlps@) =~= vlp_rows(rows@).subrange(start as int, end as int));
    }
    Ok(AllVlpResponse { vlps })
}

/// Registers a chain with what is known of it, or replaces what was known.
/// An identifier that does not pass validation is refused.
pub fn register_chain(store: &mut Store, chain_uid: &ChainUid, chain: &String) -> (r: Result<(), ContractError>)
    ensures
        !chain_uid.is_valid() ==> r == Err::<(), ContractError>(ContractError::InvalidChainId) && final(store)@
            == old(store)@,
        chain_uid.is_valid() ==> r == Ok::<(), ContractError>(()) && final(store)@ == (StoreView {
            chains: old(store)@.chains.insert(chain_uid@, chain@),
            ..old(store)@
        }),
{
    match chain_uid.validate() {
        Ok(_) => {},
        Err(e) => {
            return Err(e);
        },
    }
    store.set_chain(chain_uid, chain);
    Ok(())
}

/// The rows of a list of chains, as plain values.
pub open spec fn chain_response_rows(v: Seq<ChainResponse>) -> Seq<(Seq<char>, Seq<char>)> {
    Seq::new(v.len(), |i: int| (v[i].chain_uid@, v[i].chain@))
}

/// All registered chains, in the order of their identifiers.
pub fn query_all_chains(store: &Store) -> (r: Result<AllChainResponse, ContractError>)
    ensures
        r matches Ok(all) && chain_response_rows(all.chains@) == listing(store@.chains, text_raw(), None, None),
{
    let mut rows = store.list_chains();
    proof {
        lemma_listing_is(chain_rows(rows@), store@.chains, text_raw(), None, None);
    }
    let mut chains: Vec<ChainResponse> = Vec::new();
    let mut i: usize = 0;
    while i < rows.len()
        invariant
            i <= rows.len(),
            chains.len() == i,
            forall|j: int|
                0 <= j < i ==> (#[trigger] chains@[j]).chain_uid@ == rows@[j].0@ && chains@[j].chain@
                    == rows@[j].1@,
        decreases rows.len() - i,
    {
        chains.push(ChainResponse { chain: rows[i].1.clone(), chain_uid: rows[i].0.clone() });
        i += 1;
    }
    proof {
        assert(chain_response_rows(chains@) =~= chain_rows(rows@));
    }
    Ok(AllChainResponse { chains })
}

/// What the hub knows of a chain. An identifier that does not pass
/// validation is refused before the registry is read.
pub fn query_chain(store: &Store, chain_uid: ChainUid) -> (r: Result<ChainResponse, ContractError>)
    ensures
        !chain_uid.is_valid() ==> r == Err::<ChainResponse, ContractError>(ContractError::InvalidChainId),
        chain_uid.is_valid() && !store@.chains.contains_key(chain_uid@) ==> r == Err::<
            ChainResponse,
            ContractError,
        >(ContractError::ChainNotFound),
        chain_uid.is_valid() && store@.chains.contains_key(chain_uid@) ==> (r matches Ok(found)
            && found.chain_uid == chain_uid && found.chain@ == store@.chains[chain_uid@]),
{
    match chain_uid.validate() {
        Ok(_) => {},
        Err(e) => {
            return Err(e);
        },
    }
    match store.chain(&chain_uid) {
        Some(chain) => Ok(ChainResponse { chain, chain_uid }),
        None => Err(ContractError::ChainNotFound),
    }
}

/// Adds `amount` to the balance of `token` on a chain. The first deposit
/// creates the entry. A balance that would leave 128 bits is refused.
pub fn deposit_escrow(store: &mut Store, token: &Token, chain_uid: &ChainUid, amount: u128) -> (r: Result<(), ContractError>)
    ensures
        old(store)@.balance(token@, chain_uid@) + amount > u128::MAX ==> r == Err::<(), ContractError>(
            ContractError::Overflow,
        ) && final(store)@ == old(store)@,
        old(store)@.balance(token@, chain_uid@) + amount <= u128::MAX ==> r == Ok::<(), ContractError>(())
            && final(store)@ == (StoreView {
            escrow_balances: old(store)@.escrow_balances.insert(
                (token@, chain_uid@),
                (old(store)@.balance(token@, chain_uid@) + amount) as u128,
            ),
            ..old(store)@
        }),
{
    let balance: u128 = match store.escrow_balance(token, chain_uid) {
        Some(balance) => balance,
        None => 0,
    };
    match balance.checked_add(amount) {
        Some(sum) => {
            store.set_escrow_balance(token, chain_uid, sum);
            Ok(())
        },
        None => Err(ContractError::Overflow),
    }
}

/// Takes `amount` off the balance of `token` on a chain. More than the
/// balance cannot be taken.
pub fn release_escrow(store: &mut Store, token: &Token, chain_uid: &ChainUid, amount: u128) -> (r: Result<(), ContractError>)
    ensures
        amount > old(store)@.balance(token@, chain_uid@) ==> r == Err::<(), ContractError>(
            ContractError::InsufficientFunds,
        ) && final(store)@ == old(store)@,
        amount <= old(store)@.balance(token@, chain_uid@) ==> r == Ok::<(), ContractError>(())
            && final(store)@ == (StoreView {
            escrow_balances: old(store)@.escrow_balances.insert(
                (token@, chain_uid@),
                (old(store)@.balance(token@, chain_uid@) - amount) as u128,
            ),
            ..old(store)@
        }),
{
    let balance: u128 = match store.escrow_balance(token, chain_uid) {
        Some(balance) => balance,
        None => 0,
    };
    match balance.checked_sub(amount) {
        Some(rest) => {
            store.set_escrow_balance(token, chain_uid, rest);
            Ok(())
        },
        None => Err(ContractError::InsufficientFunds),
    }
}

/// What a release of `amount` of `token` would hand to each of the claimants,
/// served in their order, and what would be left. The ledger is not changed.
pub fn query_simulate_escrow_release(
    store: &Store,
    token: Token,
    amount: u128,
    cross_chain_addresses: Vec<CrossChainUserWithLimit>,
) -> (r: Result<SimulateEscrowReleaseResponse, ContractError>)
    ensures
        r matches Ok(release) && release.remaining_amount == release_remaining(
            store@,
            token@,
            amount,
            cross_chain_addresses@,
        ) && release.release_amounts@ == release_amounts(store@, token@, amount, cross_chain_addresses@),
{
    let (remaining_amount, release_amounts) = allocate_release(store, &token, amount, &cross_chain_addresses);
    Ok(SimulateEscrowReleaseResponse { remaining_amount, release_amounts })
}

/// The rows of a page of one token's balances, as plain values.
pub open spec fn escrow_response_rows(v: Seq<TokenEscrowChainResponse>) -> Seq<(Seq<char>, u128)> {
    Seq::new(v.len(), |i: int| (v[i].chain_uid@, v[i].balance))
}

/// A page of the balances of one token: its chains from `min` up to, and
/// without, `max`, in the order of their identifiers, without the first
/// `skip` and then at most `limit` of them.
pub fn query_token_escrows(store: &Store, token: Token, pagination: Pagination<ChainUid>) -> (r: Result<TokenEscrowsResponse, ContractError>)
    ensures
        r matches Ok(page) && escrow_response_rows(page.chains@) == page_of(
            listing(
                section(store@.escrow_balances, token@),
                text_raw(),
                chain_bound(pagination.min),
                chain_bound(pagination.max),
            ),
            pagination.skip.unwrap_or(0) as nat,
            pagination.limit.unwrap_or(DEFAULT_LIMIT) as nat,
        ),
{
    let rows = store.list_token_escrows(&token, &pagination.min, &pagination.max);
    proof {
        lemma_listing_is(
            balance_rows(rows@),
            section(store@.escrow_balances, token@),
            text_raw(),
            chain_bound(pagination.min),
            chain_bound(pagination.max),
        );
    }
    let (start, end) = page_bounds(rows.len(), pagination.skip, pagination.limit);
    let mut chains: Vec<TokenEscrowChainResponse> = Vec::new();
    let mut i: usize = start;
    while i < end
        invariant
            start <= i <= end <= rows.len(),
            chains.len() == i - start,
            forall|j: int|
                0 <= j < i - start ==> (#[trigger] chains@[j]).chain_uid@ == rows@[start + j].0@
                    && chains@[j].balance == rows@[start + j].1,
        decreases end - i,
    {
        chains.push(TokenEscrowChainResponse { balance: rows[i].1, chain_uid: rows[i].0.clone() });
        i += 1;
    }
    proof {
        assert(escrow_response_rows(chains@) =~= balance_rows(rows@).subrange(
            start as int,
            end as int,
        ));
    }
    Ok(TokenEscrowsResponse { chains })
}

/// The keys of a listing of the ledger, as plain values.
pub open spec fn ledger_keys(rows: Seq<((Seq<char>, Seq<char>), u128)>) -> Seq<(Seq<char>, Seq<char>)> {
    Seq::new(rows.len(), |i: int| rows[i].0)
}

/// The rows of a page of tokens, as plain values.
pub open spec fn token_response_rows(v: Seq<TokenResponse>) -> Seq<(Seq<char>, Seq<char>)> {
    Seq::new(v.len(), |i: int| (v[i].token@, v[i].chain_uid@))
}

/// A page of the tokens that the ledger holds, each with a chain on which it
/// holds it: the entries from the first of token `min` up to, and without,
/// the first of token `max`, in the order of their stored keys, without the
/// first `skip` and then at most `limit` of them.
pub fn query_all_tokens(store: &Store, pagination: Pagination<Token>) -> (r: Result<AllTokensResponse, ContractError>)
    ensures
        r matches Ok(page) && token_response_rows(page.tokens@) == ledger_keys(
            page_of(
                listing(
                    store@.escrow_balances,
                    pair_raw(),
                    token_bound(pagination.min),
                    token_bound(pagination.max),
                ),
                pagination.skip.unwrap_or(0) as nat,
                pagination.limit.unwrap_or(DEFAULT_LIMIT) as nat,
            ),
        ),
{
    let rows = store.list_escrows(&pagination.min, &pagination.max);
    proof {
        lemma_listing_is(
            ledger_rows(rows@),
            store@.escrow_balances,
            pair_raw(),
            token_bound(pagination.min),
            token_bound(pagination.max),
        );
    }
    let (start, end) = page_bounds(rows.len(), pagination.skip, pagination.limit);
    let mut tokens: Vec<TokenResponse> = Vec::new();
    let mut i: usize = start;
    while i < end
        invariant
            start <= i <= end <= rows.len(),
            tokens.len() == i - start,
            forall|j: int|
                0 <= j < i - start ==> (#[trigger] tokens@[j]).token@ == rows@[start + j].0.0@
                    && tokens@[j].chain_uid@ == rows@[start + j].0.1@,
        decreases end - i,
    {
        tokens.push(TokenResponse { token: rows[i].0.0.clone(), chain_uid: rows[i].0.1.clone() });
        i += 1;
    }
    proof {
        assert(token_response_rows(tokens@) =~= ledger_keys(
            ledger_rows(rows@).subrange(start as int, end as int),
        ));
    }
    Ok(AllTokensResponse { tokens })
}

/// Why a hop cannot be resolved, if it cannot: it leads from a token to the
/// same token, or its pair has no pool.
pub open spec fn hop_error(registry: StoreView, hop: NextSwapPair) -> Option<ContractError> {
    if hop.token_in@ == hop.token_out@ {
        Some(ContractError::DuplicateTokens)
    } else if !registry.vlps.contains_key(canonical_key(hop.token_in@, hop.token_out@)) {
        Some(ContractError::UnregisteredPool)
    } else {
        None
    }
}

/// Why a route cannot be resolved, if it cannot: the error of its first hop
/// that has one.
pub open spec fn route_error(registry: StoreView, swaps: Seq<NextSwapPair>) -> Option<ContractError>
    decreases swaps.len(),
{
    if swaps.len() == 0 {
        None
    } else {
        match route_error(registry, swaps.drop_last()) {
            Some(e) => Some(e),
            None => hop_error(registry, swaps.last()),
        }
    }
}

/// `resolved` names, hop for hop, the pools of `swaps`, and carries each
/// hop's failure marker along.
pub open spec fn resolves(registry: StoreView, swaps: Seq<NextSwapPair>, resolved: Seq<NextSwapVlp>) -> bool {
    &&& resolved.len() == swaps.len()
    &&& forall|i: int|
        0 <= i < swaps.len() ==> {
            &&& registry.vlps.contains_key(canonical_key(swaps[i].token_in@, swaps[i].token_out@))
            &&& (#[trigger] resolved[i]).vlp_address@ == registry.vlps[canonical_key(
                swaps[i].token_in@,
                swaps[i].token_out@,
            )]
            &&& resolved[i].test_fail == swaps[i].test_fail
        }
}

/// Resolves every hop of a route to its pool. A route without a hop is
/// refused; a hop that cannot be resolved fails the whole route.
pub fn validate_swap_pairs(store: &Store, swaps: &Vec<NextSwapPair>) -> (r: Result<Vec<NextSwapVlp>, ContractError>)
    ensures
        swaps@.len() == 0 ==> r == Err::<Vec<NextSwapVlp>, ContractError>(ContractError::EmptyRoute),
        swaps@.len() > 0 ==> match route_error(store@, swaps@) {
            Some(e) => r == Err::<Vec<NextSwapVlp>, ContractError>(e),
            None => r matches Ok(resolved) && resolves(store@, swaps@, resolved@),
        },
{
    if swaps.len() == 0 {
        return Err(ContractError::EmptyRoute);
    }
    let mut resolved: Vec<NextSwapVlp> = Vec::new();
    let mut i: usize = 0;
    while i < swaps.len()
        invariant
            i <= swaps.len(),
            route_error(store@, swaps@.take(i as int)) is None,
            resolves(store@, swaps@.take(i as int), resolved@),
        decreases swaps.len() - i,
    {
        let swap = &swaps[i];
        proof {
            assert(swaps@.take(i + 1).drop_last() =~= swaps@.take(i as int));
            assert(swaps@.take(i + 1).last() == *swap);
            lemma_route_error_extends(store@, swaps@, i + 1);
        }
        let pair = match Pair::new(swap.token_in.clone(), swap.token_out.clone()) {
            Ok(pair) => pair,
            Err(e) => {
                return Err(e);
            },
        };
        let key = pair.get_tupple();
        let vlp_address = match store.vlp(&key.0, &key.1) {
            Some(vlp) => vlp,
            None => {
                return Err(ContractError::UnregisteredPool);
            },
        };
        resolved.push(NextSwapVlp { vlp_address, test_fail: swap.test_fail });
        i += 1;
    }
    proof {
        assert(swaps@.take(swaps.len() as int) =~= swaps@);
    }
    Ok(resolved)
}

/// The error of the first hops of a route is the error of the route.
proof fn lemma_route_error_extends(registry: StoreView, swaps: Seq<NextSwapPair>, n: int)
    requires
        0 <= n <= swaps.len(),
    ensures
        route_error(registry, swaps.take(n)) is Some ==> route_error(registry, swaps) == route_error(
            registry,
            swaps.take(n),
        ),
    decreases swaps.len() - n,
{
    if n < swaps.len() {
        assert(swaps.take(n + 1).drop_last() =~= swaps.take(n));
        lemma_route_error_extends(registry, swaps, n + 1);
    } else {
        assert(swaps.take(n) =~= swaps);
    }
}

/// Why a simulation is refused before any pool is asked for a price, if it
/// is: the route is empty, it does not start at the declared input asset, it
/// does not end at the declared output asset, or one of its hops has no pool.
pub open spec fn simulate_rejection(registry: StoreView, msg: QuerySimulateSwap) -> Option<ContractError> {
    if msg.swaps@.len() == 0 {
        Some(ContractError::EmptyRoute)
    } else if msg.swaps@.first().token_in@ != msg.asset_in@ {
        Some(ContractError::AssetInMismatch)
    } else if msg.swaps@.last().token_out@ != msg.asset_out@ {
        Some(ContractError::AssetOutMismatch)
    } else if route_error(registry, msg.swaps@) is Some {
        Some(ContractError::UnregisteredPool)
    } else {
        None
    }
}

/// A route with a hop that does not start at the declared input asset, or
/// does not end at the declared output asset, is refused as malformed,
/// whatever the registry holds.
pub proof fn lemma_route_boundary(registry: StoreView, msg: QuerySimulateSwap)
    requires
        msg.swaps@.len() > 0,
        msg.swaps@.first().token_in@ != msg.asset_in@ || msg.swaps@.last().token_out@ != msg.asset_out@,
    ensures
        simulate_rejection(registry, msg) == Some(ContractError::AssetInMismatch) || simulate_rejection(
            registry,
            msg,
        ) == Some(ContractError::AssetOutMismatch),
        simulate_rejection(registry, msg)->Some_0.spec_kind() == ErrorKind::Validation,
{
}

/// `r` is what a simulation answers when the first pool has answered
/// `priced`: the pool's error, or the pool's price if it is in the declared
/// output asset, or a refusal if it is in another.
pub open spec fn answers_priced(
    asset_out: Seq<char>,
    priced: Result<GetSwapResponse, ContractError>,
    r: Result<SimulateSwapResponse, ContractError>,
) -> bool {
    match priced {
        Err(e) => r == Err::<SimulateSwapResponse, ContractError>(e),
        Ok(price) => if price.asset_out@ == asset_out {
            r == Ok::<SimulateSwapResponse, ContractError>(
                SimulateSwapResponse { amount_out: price.amount_out, asset_out: price.asset_out },
            )
        } else {
            r == Err::<SimulateSwapResponse, ContractError>(ContractError::InvalidAssetOut)
        },
    }
}

/// Accepts a pool's price if it is in the declared output asset.
pub fn check_priced_swap(asset_out: &Token, priced: Result<GetSwapResponse, ContractError>) -> (r: Result<SimulateSwapResponse, ContractError>)
    ensures
        answers_priced(asset_out@, priced, r),
{
    match priced {
        Err(e) => Err(e),
        Ok(price) => {
            if price.asset_out == *asset_out {
                Ok(SimulateSwapResponse { amount_out: price.amount_out, asset_out: price.asset_out })
            } else {
                Err(ContractError::InvalidAssetOut)
            }
        },
    }
}

/// `query`, sent to `vlp`, asks the pool of the first hop for the price of the
/// whole route: it names the input asset and amount, and the pools of the
/// other hops in their order.
pub open spec fn asks_first_pool(registry: StoreView, msg: QuerySimulateSwap, vlp: String, query: QueryMsg) -> bool {
    exists|resolved: Seq<NextSwapVlp>|
        {
            &&& #[trigger] resolves(registry, msg.swaps@, resolved)
            &&& vlp == resolved.first().vlp_address
            &&& query matches QueryMsg::SimulateSwap { asset, asset_amount, swaps }
            &&& asset == msg.asset_in
            &&& asset_amount == msg.amount_in
            &&& swaps@ == resolved.drop_first()
        }
}

/// What a swap along a route would give, without changing anything.
///
/// The route is checked first: it has a hop, starts at `asset_in`, ends at
/// `asset_out`, and every hop has a pool. Then `price` is asked once, at the
/// pool of the first hop, for the price of the whole route; it is handed the
/// pools of the other hops. Its answer is accepted if it is in `asset_out`.
pub fn query_simulate_swap<F>(store: &Store, msg: QuerySimulateSwap, price: F) -> (r: Result<SimulateSwapResponse, ContractError>)
    where
        F: FnOnce(String, QueryMsg) -> Result<GetSwapResponse, ContractError>,
    requires
        forall|vlp: String, query: QueryMsg| call_requires(price, (vlp, query)),
    ensures
        simulate_rejection(store@, msg) matches Some(e) ==> r == Err::<SimulateSwapResponse, ContractError>(e),
        msg.swaps@.len() > 0 && (msg.swaps@.first().token_in@ != msg.asset_in@ || msg.swaps@.last().token_out@
            != msg.asset_out@) ==> r is Err && r->Err_0.spec_kind() == ErrorKind::Validation,
        simulate_rejection(store@, msg) is None ==> exists|
            vlp: String,
            query: QueryMsg,
            priced: Result<GetSwapResponse, ContractError>,
        |
            {
                &&& asks_first_pool(store@, msg, vlp, query)
                &&& #[trigger] call_ensures(price, (vlp, query), priced)
                &&& answers_priced(msg.asset_out@, priced, r)
            },
{
    if msg.swaps.len() == 0 {
        return Err(ContractError::EmptyRoute);
    }
    if msg.swaps[0].token_in != msg.asset_in {
        return Err(ContractError::AssetInMismatch);
    }
    if msg.swaps[msg.swaps.len() - 1].token_out != msg.asset_out {
        return Err(ContractError::AssetOutMismatch);
    }
    let mut swap_vlps = match validate_swap_pairs(store, &msg.swaps) {
        Ok(resolved) => resolved,
        Err(_) => {
            return Err(ContractError::UnregisteredPool);
        },
    };
    let ghost resolved = swap_vlps@;
    let first_swap = swap_vlps.remove(0);
    let vlp = first_swap.vlp_address;
    let query = QueryMsg::SimulateSwap { asset: msg.asset_in, asset_amount: msg.amount_in, swaps: swap_vlps };
    let ghost asked = (vlp, query);
    let priced = price(vlp, query);
    let r = check_priced_swap(&msg.asset_out, priced);
    proof {
        assert(swap_vlps@ =~= resolved.drop_first());
        assert(resolves(store@, msg.swaps@, resolved));
        assert(asks_first_pool(store@, msg, asked.0, asked.1));
        assert(call_ensures(price, asked, priced));
        assert(answers_priced(msg.asset_out@, priced, r));
    }
    r
}

} // verus!
