//! The requests that users make of a chain: checked against what the chain
//! knows, recorded as in flight, and sent to the hub.
//!
//! Every kind of request goes the same way. A request whose requester and
//! transaction id are those of a request in flight is refused first. Then the
//! request is checked; the first check that fails refuses it, and a refused
//! request changes nothing. An accepted request is recorded as in flight and
//! answered with a packet for the hub that expires at a set moment.

use vstd::prelude::*;
use vstd::string::StringExecFns;
use crate::chain::ChainUid;
use crate::chain::CrossChainUser;
use crate::chain::CrossChainUserWithLimit;
use crate::error::ContractError;
use crate::error::ErrorKind;
use crate::factory::response::attribute_rows;
use crate::factory::response::names_method;
use crate::factory::response::records_tx;
use crate::factory::response::Coin;
use crate::factory::response::records_swap;
use crate::factory::response::CosmosMsg;
use crate::factory::response::Event;
use crate::factory::response::SwapEvent;
use crate::factory::response::Env;
use crate::factory::response::IbcPacket;
use crate::factory::response::MessageInfo;
use crate::factory::response::Response;
use crate::factory::response::TransferMsg;
use crate::factory::response::TxEvent;
use crate::fee::bps_of;
use crate::fee::lemma_fee_within_amount;
use crate::fee::partner_fee_amount;
use crate::fee::PartnerFee;
use crate::fee::MAX_PARTNER_FEE_BPS;
use crate::ibc::ChainIbcExecuteMsg;
use crate::ibc::ChainIbcRemoveLiquidityExecuteMsg;
use crate::ibc::ChainIbcSwapExecuteMsg;
use crate::msgs::escrow::Cw20ReceiveMsg;
use crate::msgs::escrow::ExecuteMsg;
use crate::store::fits;
use crate::store::text_view;
use crate::store::token_views;
use crate::store::triple_views;
use crate::store::PendingRecord;
use crate::store::PendingRowView;
use crate::store::Store;
use crate::store::StoreView;
use crate::store::TxType;
use crate::swap::NextSwapPair;
use crate::timeout::expiry;
use crate::timeout::expiry_of;
use crate::timeout::get_timeout;
use crate::timeout::timeout_of;
use crate::token::canonical_key;
use crate::token::lemma_canonical_key_ordered;
use crate::token::MAX_ID_LEN;
use crate::token::Pair;
use crate::token::PairWithDenom;
use crate::token::Token;
use crate::token::TokenType;
use crate::token::TokenWithDenom;

verus! {

/// A request to create a pool, as it is made.
#[derive(Debug, PartialEq, Eq)]
pub struct PoolCreateRequest {
    pub pair: PairWithDenom,
    pub timeout: Option<u64>,
    pub tx_id: String,
}

/// A request to add liquidity, as it is made.
#[derive(Debug, PartialEq, Eq)]
pub struct AddLiquidityRequest {
    pub pair_info: PairWithDenom,
    pub token_1_liquidity: u128,
    pub token_2_liquidity: u128,
    pub slippage_tolerance: u64,
    pub timeout: Option<u64>,
    pub tx_id: String,
}

/// A request to take liquidity out, as it is made.
#[derive(Debug, PartialEq, Eq)]
pub struct RemoveLiquidityRequest {
    pub pair: Pair,
    pub lp_allocation: u128,
    pub timeout: Option<u64>,
    pub cross_chain_addresses: Vec<CrossChainUserWithLimit>,
    pub tx_id: String,
}

/// A request to swap, as it is made.
#[derive(Debug, PartialEq, Eq)]
pub struct SwapRequest {
    pub asset_in: TokenWithDenom,
    pub asset_out: Token,
    pub amount_in: u128,
    pub min_amount_out: u128,
    pub swaps: Vec<NextSwapPair>,
    pub timeout: Option<u64>,
    pub cross_chain_addresses: Vec<CrossChainUserWithLimit>,
    pub tx_id: String,
    pub partner_fee: Option<PartnerFee>,
}

/// The chain's state after a request has been recorded as in flight.
pub open spec fn with_pending(
    chain: StoreView,
    kind: TxType,
    sender: Seq<char>,
    tx_id: Seq<char>,
    record: PendingRowView,
) -> StoreView {
    StoreView { pending: chain.pending.insert(kind, chain.pending[kind].insert((sender, tx_id), record)), ..chain }
}

/// An accepted request blocks its key: once a request is recorded under a
/// requester and a transaction id, it is in flight under them, whatever is
/// recorded of it, and so is every request that was in flight before.
pub proof fn lemma_accepted_request_blocks_key(
    chain: StoreView,
    kind: TxType,
    sender: Seq<char>,
    tx_id: Seq<char>,
    record: PendingRowView,
)
    ensures
        with_pending(chain, kind, sender, tx_id, record).is_pending(kind, sender, tx_id),
        forall|other: TxType, s: Seq<char>, t: Seq<char>|
            chain.is_pending(other, s, t) ==> #[trigger] with_pending(chain, kind, sender, tx_id, record).is_pending(
                other,
                s,
                t,
            ),
{
}

fn method_attributes(method: &str) -> (r: Vec<(String, String)>)
    ensures
        names_method(r@, method@),
        r@.len() == 1,
        r@[0].0@ == "method"@,
        r@[0].1@ == method@,
{
    let mut attributes: Vec<(String, String)> = Vec::new();
    attributes.push((String::from_str("method"), String::from_str(method)));
    proof {
        assert(attribute_rows(attributes@) =~= seq![("method"@, method@)]);
    }
    attributes
}

fn tx_events(kind: TxType, sender: &String, tx_id: &String) -> (r: Vec<Event>)
    ensures
        records_tx(r@, kind, sender@, tx_id@),
{
    let mut events: Vec<Event> = Vec::new();
    events.push(Event::Tx(TxEvent { tx_id: tx_id.clone(), sender: sender.clone(), tx_type: kind }));
    events
}

/// Why the requester cannot be named to the hub, if it cannot: its address
/// is too long to stand at the head of a key, or the chain does not know its
/// own identifier.
pub open spec fn requester_rejection(chain: StoreView, info: MessageInfo) -> Option<ContractError> {
    if !fits(info.sender@) {
        Some(ContractError::InvalidAddress)
    } else if chain.chain_uid() is None {
        Some(ContractError::StateNotFound)
    } else {
        None
    }
}

/// Whether `user` names the requester on this chain.
pub open spec fn is_requester(chain: StoreView, info: MessageInfo, user: CrossChainUser) -> bool {
    user.address@ == info.sender@ && chain.chain_uid() == Some(user.chain_uid@)
}

fn requester(store: &Store, info: &MessageInfo) -> (r: Result<CrossChainUser, ContractError>)
    ensures
        requester_rejection(store@, *info) matches Some(e) ==> r == Err::<CrossChainUser, ContractError>(e),
        requester_rejection(store@, *info) is None ==> (r matches Ok(user) && is_requester(store@, *info, user)),
{
    if info.sender.as_str().as_bytes().len() > MAX_ID_LEN {
        return Err(ContractError::InvalidAddress);
    }
    match store.setting("chain_uid") {
        Some(uid) => Ok(CrossChainUser { chain_uid: ChainUid::new(uid), address: info.sender.clone() }),
        None => Err(ContractError::StateNotFound),
    }
}

/// Why a request cannot be sent to the hub, if it cannot: no channel has been
/// set, the time asked for is out of bounds, or the request would expire
/// later than 64 bits can tell.
pub open spec fn dispatch_rejection(chain: StoreView, env: Env, timeout: Option<u64>) -> Option<ContractError> {
    if chain.hub_channel() is None {
        Some(ContractError::ChannelNotFound)
    } else if timeout_of(timeout) is None {
        Some(ContractError::InvalidTimeout)
    } else if expiry_of(env.block_time, timeout) is None {
        Some(ContractError::Overflow)
    } else {
        None
    }
}

fn dispatch(store: &Store, env: &Env, timeout: Option<u64>) -> (r: Result<(String, u64), ContractError>)
    ensures
        dispatch_rejection(store@, *env, timeout) matches Some(e) ==> r == Err::<(String, u64), ContractError>(e),
        dispatch_rejection(store@, *env, timeout) is None ==> (r matches Ok(route) && Some(route.0@)
            == store@.hub_channel() && Some(route.1) == expiry_of(env.block_time, timeout)),
{
    let channel = match store.setting("hub_channel") {
        Some(channel) => channel,
        None => {
            return Err(ContractError::ChannelNotFound);
        },
    };
    let seconds: u64 = match get_timeout(timeout) {
        Ok(seconds) => seconds,
        Err(e) => {
            return Err(e);
        },
    };
    match expiry(env.block_time, seconds) {
        Ok(moment) => Ok((channel, moment)),
        Err(e) => Err(e),
    }
}

/// Whether `packet` goes through the chain's channel to the hub and expires
/// when a request made now with this timeout does.
pub open spec fn is_dispatched(chain: StoreView, env: Env, timeout: Option<u64>, packet: IbcPacket) -> bool {
    Some(packet.channel_id@) == chain.hub_channel() && Some(packet.timeout) == expiry_of(env.block_time, timeout)
}

/// A token of a request as the store holds it: its name, whether a contract
/// holds it, and its denomination.
pub open spec fn token_row_of(token: TokenWithDenom) -> (Seq<char>, bool, Seq<char>) {
    (token.token@, token.token_type is Smart, token.token_type.denom())
}

/// A token of a request as the store holds it when only its name is known.
pub open spec fn bare_token_row_of(token: Token) -> (Seq<char>, bool, Seq<char>) {
    (token@, false, Seq::<char>::empty())
}

/// The claimants of a request as the store holds them: each one's address,
/// chain and cap.
pub open spec fn claimant_rows_of(claimants: Seq<CrossChainUserWithLimit>) -> Seq<(Seq<char>, Seq<char>, Option<u128>)> {
    Seq::new(claimants.len(), |i: int| (claimants[i].user.address@, claimants[i].user.chain_uid@, claimants[i].limit))
}

/// The route of a request as the store holds it: each hop's input, output
/// and failure marker.
pub open spec fn route_rows_of(swaps: Seq<NextSwapPair>) -> Seq<(Seq<char>, Seq<char>, Option<bool>)> {
    Seq::new(swaps.len(), |i: int| (swaps[i].token_in@, swaps[i].token_out@, swaps[i].test_fail))
}

/// The requester as the last of the claimants, without a cap.
pub open spec fn requester_row_of(chain: StoreView, info: MessageInfo) -> (Seq<char>, Seq<char>, Option<u128>) {
    (info.sender@, chain.chain_uid()->Some_0, None)
}

/// Whether `claimants` is `given` followed by the requester without a cap.
pub open spec fn ends_with_requester(
    chain: StoreView,
    info: MessageInfo,
    given: Seq<CrossChainUserWithLimit>,
    claimants: Seq<CrossChainUserWithLimit>,
) -> bool {
    &&& claimants.len() == given.len() + 1
    &&& claimants.drop_last() == given
    &&& is_requester(chain, info, claimants.last().user)
    &&& claimants.last().limit is None
}

fn token_row(token: &TokenWithDenom) -> (r: (String, bool, String))
    ensures
        (r.0@, r.1, r.2@) == token_row_of(*token),
{
    (String::from_str(token.token.as_str()), token.token_type.is_smart(), token.token_type.get_denom())
}

fn bare_token_row(token: &Token) -> (r: (String, bool, String))
    ensures
        (r.0@, r.1, r.2@) == bare_token_row_of(*token),
{
    (String::from_str(token.as_str()), false, String::new())
}

fn claimant_rows(claimants: &Vec<CrossChainUserWithLimit>) -> (r: Vec<(String, String, Option<u128>)>)
    ensures
        triple_views(r@) == claimant_rows_of(claimants@),
{
    let mut rows: Vec<(String, String, Option<u128>)> = Vec::new();
    let mut i: usize = 0;
    while i < claimants.len()
        invariant
            i <= claimants.len(),
            rows@.len() == i,
            forall|j: int|
                0 <= j < i ==> (#[trigger] rows@[j]).0@ == claimants@[j].user.address@ && rows@[j].1@
                    == claimants@[j].user.chain_uid@ && rows@[j].2 == claimants@[j].limit,
        decreases claimants.len() - i,
    {
        let claimant = &claimants[i];
        rows.push(
            (claimant.user.address.clone(), String::from_str(claimant.user.chain_uid.as_str()), claimant.limit),
        );
        i += 1;
    }
    proof {
        assert(triple_views(rows@) =~= claimant_rows_of(claimants@));
    }
    rows
}

fn route_rows(swaps: &Vec<NextSwapPair>) -> (r: Vec<(String, String, Option<bool>)>)
    ensures
        triple_views(r@) == route_rows_of(swaps@),
{
    let mut rows: Vec<(String, String, Option<bool>)> = Vec::new();
    let mut i: usize = 0;
    while i < swaps.len()
        invariant
            i <= swaps.len(),
            rows@.len() == i,
            forall|j: int|
                0 <= j < i ==> (#[trigger] rows@[j]).0@ == swaps@[j].token_in@ && rows@[j].1@
                    == swaps@[j].token_out@ && rows@[j].2 == swaps@[j].test_fail,
        decreases swaps.len() - i,
    {
        let swap = &swaps[i];
        rows.push((String::from_str(swap.token_in.as_str()), String::from_str(swap.token_out.as_str()), swap.test_fail));
        i += 1;
    }
    proof {
        assert(triple_views(rows@) =~= route_rows_of(swaps@));
    }
    rows
}

fn pair_rows(first: (String, bool, String), second: (String, bool, String)) -> (r: Vec<(String, bool, String)>)
    ensures
        token_views(r@) == seq![(first.0@, first.1, first.2@), (second.0@, second.1, second.2@)],
{
    let mut tokens: Vec<(String, bool, String)> = Vec::new();
    tokens.push(first);
    tokens.push(second);
    proof {
        assert(token_views(tokens@) =~= seq![(first.0@, first.1, first.2@), (second.0@, second.1, second.2@)]);
    }
    tokens
}

fn packet_to_hub(channel_id: String, data: ChainIbcExecuteMsg, timeout: u64) -> (r: CosmosMsg)
    ensures
        r == CosmosMsg::Ibc(IbcPacket { channel_id, data, timeout }),
{
    CosmosMsg::Ibc(IbcPacket { channel_id, data, timeout })
}

/// Records the pool that the hub has created for a pair. A pair has one
/// pool: a pair that has one already is refused, and so is a pair of one
/// token with itself.
pub fn register_pool(store: &mut Store, pair: &Pair, vlp: &String) -> (r: Result<(), ContractError>)
    ensures
        !pair.is_valid() ==> r == Err::<(), ContractError>(ContractError::DuplicateTokens),
        pair.is_valid() && old(store)@.pair_to_vlp.contains_key(pair.key()) ==> r == Err::<(), ContractError>(
            ContractError::PoolAlreadyExists,
        ),
        pair.is_valid() && !old(store)@.pair_to_vlp.contains_key(pair.key()) ==> r == Ok::<(), ContractError>(()),
        r is Err ==> final(store)@ == old(store)@,
        r is Ok ==> final(store)@ == (StoreView {
            pair_to_vlp: old(store)@.pair_to_vlp.insert(pair.key(), vlp@),
            ..old(store)@
        }),
{
    match pair.validate() {
        Ok(_) => {},
        Err(e) => {
            return Err(e);
        },
    }
    let key = pair.get_tupple();
    match store.pool_of(&key.0, &key.1) {
        Some(_) => Err(ContractError::PoolAlreadyExists),
        None => {
            proof {
                lemma_canonical_key_ordered(pair.token_1@, pair.token_2@);
            }
            store.set_pool(&key.0, &key.1, vlp);
            Ok(())
        },
    }
}

/// What is kept of an accepted request to create a pool.
pub open spec fn pool_creation_record(env: Env, info: MessageInfo, request: PoolCreateRequest) -> PendingRowView {
    (
        info.sender@,
        request.tx_id@,
        seq![token_row_of(request.pair.token_1), token_row_of(request.pair.token_2)],
        Seq::<u128>::empty(),
        Seq::<(Seq<char>, Seq<char>, Option<bool>)>::empty(),
        Seq::<(Seq<char>, Seq<char>, Option<u128>)>::empty(),
        expiry_of(env.block_time, request.timeout)->Some_0,
        None,
    )
}

/// Why a request to create a pool is refused, if it is. The checks are made
/// in this order.
pub open spec fn pool_creation_rejection(
    chain: StoreView,
    env: Env,
    info: MessageInfo,
    request: PoolCreateRequest,
) -> Option<ContractError> {
    let pair = request.pair;
    if chain.is_pending(TxType::PoolCreation, info.sender@, request.tx_id@) {
        Some(ContractError::TxAlreadyExist)
    } else if pair.token_1.token@ == pair.token_2.token@ {
        Some(ContractError::DuplicateTokens)
    } else if chain.pair_to_vlp.contains_key(canonical_key(pair.token_1.token@, pair.token_2.token@)) {
        Some(ContractError::PoolAlreadyExists)
    } else if requester_rejection(chain, info) is Some {
        requester_rejection(chain, info)
    } else {
        dispatch_rejection(chain, env, request.timeout)
    }
}

/// Whether `response` is the answer to an accepted request to create a pool:
/// one event, the method's name, and one packet to the hub that names the
/// pair, the requester and the transaction.
pub open spec fn answers_pool_creation(
    chain: StoreView,
    env: Env,
    info: MessageInfo,
    request: PoolCreateRequest,
    response: Response,
) -> bool {
    &&& records_tx(response.events@, TxType::PoolCreation, info.sender@, request.tx_id@)
    &&& names_method(response.attributes@, "request_pool_creation"@)
    &&& response.messages@.len() == 1
    &&& response.messages@[0] matches CosmosMsg::Ibc(packet)
    &&& is_dispatched(chain, env, request.timeout, packet)
    &&& packet.data matches ChainIbcExecuteMsg::RequestPoolCreation { pair, sender, tx_id }
    &&& (pair.token_1@, pair.token_2@) == canonical_key(request.pair.token_1.token@, request.pair.token_2.token@)
    &&& is_requester(chain, info, sender)
    &&& tx_id == request.tx_id
}

/// Asks the hub to create a pool for a pair that has none.
///
/// A request that is refused changes nothing. A request that is accepted is
/// recorded as in flight under the requester and the transaction id.
pub fn execute_request_pool_creation(
    store: &mut Store,
    env: &Env,
    info: &MessageInfo,
    pair: PairWithDenom,
    timeout: Option<u64>,
    tx_id: String,
) -> (r: Result<Response, ContractError>)
    ensures
        ({
            let chain = old(store)@;
            let request = PoolCreateRequest { pair, timeout, tx_id };
            &&& chain.is_pending(TxType::PoolCreation, info.sender@, tx_id@) ==> r == Err::<Response, ContractError>(
                ContractError::TxAlreadyExist,
            )
            &&& match pool_creation_rejection(chain, *env, *info, request) {
                Some(e) => r == Err::<Response, ContractError>(e) && final(store)@ == chain,
                None => r is Ok && answers_pool_creation(chain, *env, *info, request, r->Ok_0) && final(store)@
                    == with_pending(
                    chain,
                    TxType::PoolCreation,
                    info.sender@,
                    tx_id@,
                    pool_creation_record(*env, *info, request),
                ),
            }
        }),
{
    if store.is_pending(TxType::PoolCreation, info.sender.as_str(), tx_id.as_str()) {
        return Err(ContractError::TxAlreadyExist);
    }
    let sent = match pair.get_pair() {
        Ok(sent) => sent,
        Err(e) => {
            return Err(e);
        },
    };
    let key = sent.get_tupple();
    if store.pool_of(&key.0, &key.1).is_some() {
        return Err(ContractError::PoolAlreadyExists);
    }
    let sender = match requester(store, info) {
        Ok(sender) => sender,
        Err(e) => {
            return Err(e);
        },
    };
    let (channel_id, moment) = match dispatch(store, env, timeout) {
        Ok(route) => route,
        Err(e) => {
            return Err(e);
        },
    };
    let record = PendingRecord {
        sender: info.sender.clone(),
        tx_id: tx_id.clone(),
        tokens: pair_rows(token_row(&pair.token_1), token_row(&pair.token_2)),
        amounts: Vec::new(),
        route: Vec::new(),
        claimants: Vec::new(),
        timeout: moment,
        partner_fee_recipient: None,
    };
    proof {
        assert(triple_views(record.route@) =~= Seq::<(Seq<char>, Seq<char>, Option<bool>)>::empty());
        assert(triple_views(record.claimants@) =~= Seq::<(Seq<char>, Seq<char>, Option<u128>)>::empty());
    }
    store.record_pending(TxType::PoolCreation, info.sender.as_str(), tx_id.as_str(), record);
    let events = tx_events(TxType::PoolCreation, &info.sender, &tx_id);
    let data = ChainIbcExecuteMsg::RequestPoolCreation { pair: Pair { token_1: key.0, token_2: key.1 }, sender, tx_id };
    let mut messages: Vec<CosmosMsg> = Vec::new();
    messages.push(packet_to_hub(channel_id, data, moment));
    Ok(Response { events, attributes: method_attributes("request_pool_creation"), messages })
}

/// Why a request to take liquidity out is refused, if it is. The checks are
/// made in this order.
pub open spec fn remove_liquidity_rejection(
    chain: StoreView,
    env: Env,
    info: MessageInfo,
    request: RemoveLiquidityRequest,
) -> Option<ContractError> {
    if chain.is_pending(TxType::RemoveLiquidity, info.sender@, request.tx_id@) {
        Some(ContractError::TxAlreadyExist)
    } else if !request.pair.is_valid() {
        Some(ContractError::DuplicateTokens)
    } else if requester_rejection(chain, info) is Some {
        requester_rejection(chain, info)
    } else if !chain.pair_to_vlp.contains_key(request.pair.key()) {
        Some(ContractError::PoolDoesNotExist)
    } else if dispatch_rejection(chain, env, request.timeout) is Some {
        dispatch_rejection(chain, env, request.timeout)
    } else if request.lp_allocation == 0 {
        Some(ContractError::ZeroAssetAmount)
    } else {
        None
    }
}

/// What is kept of an accepted request to take liquidity out.
pub open spec fn remove_liquidity_record(
    chain: StoreView,
    env: Env,
    info: MessageInfo,
    request: RemoveLiquidityRequest,
) -> PendingRowView {
    (
        info.sender@,
        request.tx_id@,
        seq![bare_token_row_of(request.pair.token_1), bare_token_row_of(request.pair.token_2)],
        seq![request.lp_allocation],
        Seq::<(Seq<char>, Seq<char>, Option<bool>)>::empty(),
        claimant_rows_of(request.cross_chain_addresses@).push(requester_row_of(chain, info)),
        expiry_of(env.block_time, request.timeout)->Some_0,
        None,
    )
}

/// Whether `response` is the answer to an accepted request to take
/// liquidity out: one event, the method's name, and one packet to the hub
/// whose claimants end with the requester.
pub open spec fn answers_remove_liquidity(
    chain: StoreView,
    env: Env,
    info: MessageInfo,
    request: RemoveLiquidityRequest,
    response: Response,
) -> bool {
    &&& records_tx(response.events@, TxType::RemoveLiquidity, info.sender@, request.tx_id@)
    &&& names_method(response.attributes@, "remove_liquidity_request"@)
    &&& response.messages@.len() == 1
    &&& response.messages@[0] matches CosmosMsg::Ibc(packet)
    &&& is_dispatched(chain, env, request.timeout, packet)
    &&& packet.data matches ChainIbcExecuteMsg::RemoveLiquidity(sent)
    &&& is_requester(chain, info, sent.sender)
    &&& sent.lp_allocation == request.lp_allocation
    &&& sent.pair == request.pair
    &&& ends_with_requester(chain, info, request.cross_chain_addresses@, sent.cross_chain_addresses@)
    &&& sent.tx_id == request.tx_id
}

/// Asks the hub to take liquidity out of a pair's pool. The requester is
/// added to the claimants as the last of them, without a cap.
///
/// A request that is refused changes nothing. A request that is accepted is
/// recorded as in flight under the requester and the transaction id.
pub fn remove_liquidity_request(
    store: &mut Store,
    info: &MessageInfo,
    env: &Env,
    pair: Pair,
    lp_allocation: u128,
    timeout: Option<u64>,
    cross_chain_addresses: Vec<CrossChainUserWithLimit>,
    tx_id: String,
) -> (r: Result<Response, ContractError>)
    ensures
        ({
            let chain = old(store)@;
            let request = RemoveLiquidityRequest { pair, lp_allocation, timeout, cross_chain_addresses, tx_id };
            &&& chain.is_pending(TxType::RemoveLiquidity, info.sender@, tx_id@) ==> r == Err::<
                Response,
                ContractError,
            >(ContractError::TxAlreadyExist)
            &&& match remove_liquidity_rejection(chain, *env, *info, request) {
                Some(e) => r == Err::<Response, ContractError>(e) && final(store)@ == chain,
                None => r is Ok && answers_remove_liquidity(chain, *env, *info, request, r->Ok_0) && final(store)@
                    == with_pending(
                    chain,
                    TxType::RemoveLiquidity,
                    info.sender@,
                    tx_id@,
                    remove_liquidity_record(chain, *env, *info, request),
                ),
            }
        }),
{
    if store.is_pending(TxType::RemoveLiquidity, info.sender.as_str(), tx_id.as_str()) {
        return Err(ContractError::TxAlreadyExist);
    }
    match pair.validate() {
        Ok(_) => {},
        Err(e) => {
            return Err(e);
        },
    }
    let sender = match requester(store, info) {
        Ok(sender) => sender,
        Err(e) => {
            return Err(e);
        },
    };
    let ghost given = cross_chain_addresses@;
    let mut cross_chain_addresses = cross_chain_addresses;
    cross_chain_addresses.push(CrossChainUserWithLimit { user: sender.clone(), limit: None });
    let key = pair.get_tupple();
    if store.pool_of(&key.0, &key.1).is_none() {
        return Err(ContractError::PoolDoesNotExist);
    }
    let (channel_id, moment) = match dispatch(store, env, timeout) {
        Ok(route) => route,
        Err(e) => {
            return Err(e);
        },
    };
    if lp_allocation == 0 {
        return Err(ContractError::ZeroAssetAmount);
    }
    let mut amounts: Vec<u128> = Vec::new();
    amounts.push(lp_allocation);
    let record = PendingRecord {
        sender: info.sender.clone(),
        tx_id: tx_id.clone(),
        tokens: pair_rows(bare_token_row(&pair.token_1), bare_token_row(&pair.token_2)),
        amounts,
        route: Vec::new(),
        claimants: claimant_rows(&cross_chain_addresses),
        timeout: moment,
        partner_fee_recipient: None,
    };
    proof {
        assert(record.amounts@ =~= seq![lp_allocation]);
        assert(triple_views(record.route@) =~= Seq::<(Seq<char>, Seq<char>, Option<bool>)>::empty());
        assert(claimant_rows_of(cross_chain_addresses@) =~= claimant_rows_of(given).push(
            requester_row_of(old(store)@, *info),
        ));
        assert(cross_chain_addresses@.drop_last() =~= given);
    }
    store.record_pending(TxType::RemoveLiquidity, info.sender.as_str(), tx_id.as_str(), record);
    let events = tx_events(TxType::RemoveLiquidity, &info.sender, &tx_id);
    let data = ChainIbcExecuteMsg::RemoveLiquidity(
        ChainIbcRemoveLiquidityExecuteMsg { sender, lp_allocation, pair, cross_chain_addresses, tx_id },
    );
    let mut messages: Vec<CosmosMsg> = Vec::new();
    messages.push(packet_to_hub(channel_id, data, moment));
    Ok(Response { events, attributes: method_attributes("remove_liquidity_request"), messages })
}

/// The channel to the hub as it is reported: empty if there is none.
pub open spec fn reported_channel(chain: StoreView) -> Seq<char> {
    match chain.hub_channel() {
        Some(channel) => channel,
        None => Seq::<char>::empty(),
    }
}

/// Whether `response` is the answer to a change of the channel to the hub:
/// the method's name, the new channel, and the old channel.
pub open spec fn answers_channel_update(chain: StoreView, new_channel: String, response: Response) -> bool {
    &&& response.events@.len() == 0
    &&& response.messages@.len() == 0
    &&& attribute_rows(response.attributes@) == seq![
        ("method"@, "execute_update_hub_channel"@),
        ("new_channel"@, new_channel@),
        ("old_channel"@, reported_channel(chain)),
    ]
}

/// Sets the channel to the hub. Only the administrator may.
pub fn execute_update_hub_channel(store: &mut Store, info: &MessageInfo, new_channel: String) -> (r: Result<Response, ContractError>)
    ensures
        old(store)@.admin() is None ==> r == Err::<Response, ContractError>(ContractError::StateNotFound)
            && final(store)@ == old(store)@,
        old(store)@.admin() matches Some(admin) && admin != info.sender@ ==> r == Err::<
            Response,
            ContractError,
        >(ContractError::Unauthorized) && final(store)@ == old(store)@,
        old(store)@.admin() == Some(info.sender@) ==> r is Ok && answers_channel_update(
            old(store)@,
            new_channel,
            r->Ok_0,
        ) && final(store)@ == (StoreView {
            config: old(store)@.config.insert("hub_channel"@, new_channel@),
            ..old(store)@
        }),
{
    let admin = match store.setting("admin") {
        Some(admin) => admin,
        None => {
            return Err(ContractError::StateNotFound);
        },
    };
    if info.sender != admin {
        return Err(ContractError::Unauthorized);
    }
    let old_channel = match store.setting("hub_channel") {
        Some(old_channel) => old_channel,
        None => String::new(),
    };
    let ghost before = reported_channel(old(store)@);
    assert(old_channel@ == before);
    store.set_setting("hub_channel", &new_channel);
    let mut attributes = method_attributes("execute_update_hub_channel");
    let ghost named = attributes@;
    attributes.push((String::from_str("new_channel"), new_channel));
    attributes.push((String::from_str("old_channel"), old_channel));
    proof {
        assert(attributes@[0] == named[0]);
        assert(attribute_rows(attributes@) =~= seq![
            ("method"@, "execute_update_hub_channel"@),
            ("new_channel"@, new_channel@),
            ("old_channel"@, before),
        ]);
    }
    Ok(Response { events: Vec::new(), attributes, messages: Vec::new() })
}

/// Handles a transfer that a token contract announces. No such transfer is
/// handled yet.
pub fn receive_cw20(cw20_msg: Cw20ReceiveMsg) -> (r: Result<Response, ContractError>)
    ensures
        r == Err::<Response, ContractError>(ContractError::NotImplemented),
{
    Err(ContractError::NotImplemented)
}

/// Whether `response` asks the escrow of a token to apply `msg`, under the
/// method's name and with the token and its denomination as attributes.
pub open spec fn answers_denom_request(
    chain: StoreView,
    token: TokenWithDenom,
    method: Seq<char>,
    msg: ExecuteMsg,
    response: Response,
) -> bool {
    &&& response.events@.len() == 0
    &&& response.messages@.len() == 1
    &&& response.messages@[0] matches CosmosMsg::Escrow { contract_addr, msg: sent }
    &&& chain.token_to_escrow.contains_key(token.token@)
    &&& contract_addr@ == chain.token_to_escrow[token.token@]
    &&& sent == msg
    &&& attribute_rows(response.attributes@) == seq![
        ("method"@, method),
        ("token"@, token.token@),
        ("denom"@, token.token_type.key()),
    ]
}

fn denom_request(store: &Store, token: &TokenWithDenom, method: &str, msg: ExecuteMsg) -> (r: Result<Response, ContractError>)
    ensures
        !store@.token_to_escrow.contains_key(token.token@) ==> r == Err::<Response, ContractError>(
            ContractError::EscrowDoesNotExist,
        ),
        store@.token_to_escrow.contains_key(token.token@) ==> r is Ok && answers_denom_request(
            store@,
            *token,
            method@,
            msg,
            r->Ok_0,
        ),
{
    let contract_addr = match store.escrow_of(&token.token) {
        Some(escrow) => escrow,
        None => {
            return Err(ContractError::EscrowDoesNotExist);
        },
    };
    let mut messages: Vec<CosmosMsg> = Vec::new();
    messages.push(CosmosMsg::Escrow { contract_addr, msg });
    let mut attributes = method_attributes(method);
    let ghost named = attributes@;
    attributes.push((String::from_str("token"), String::from_str(token.token.as_str())));
    attributes.push((String::from_str("denom"), token.token_type.get_key()));
    proof {
        assert(attributes@[0] == named[0]);
        assert(attribute_rows(attributes@) =~= seq![
            ("method"@, method@),
            ("token"@, token.token@),
            ("denom"@, token.token_type.key()),
        ]);
    }
    Ok(Response { events: Vec::new(), attributes, messages })
}

/// Asks the escrow of a token to allow the token's denomination.
pub fn execute_request_register_denom(store: &Store, token: TokenWithDenom) -> (r: Result<Response, ContractError>)
    ensures
        !store@.token_to_escrow.contains_key(token.token@) ==> r == Err::<Response, ContractError>(
            ContractError::EscrowDoesNotExist,
        ),
        store@.token_to_escrow.contains_key(token.token@) ==> r is Ok && answers_denom_request(
            store@,
            token,
            "request_add_allowed_denom"@,
            ExecuteMsg::AddAllowedDenom { denom: token.token_type },
            r->Ok_0,
        ),
{
    let msg = ExecuteMsg::AddAllowedDenom { denom: token.token_type.clone() };
    denom_request(store, &token, "request_add_allowed_denom", msg)
}

/// Asks the escrow of a token to stop allowing the token's denomination.
pub fn execute_request_deregister_denom(store: &Store, token: TokenWithDenom) -> (r: Result<Response, ContractError>)
    ensures
        !store@.token_to_escrow.contains_key(token.token@) ==> r == Err::<Response, ContractError>(
            ContractError::EscrowDoesNotExist,
        ),
        store@.token_to_escrow.contains_key(token.token@) ==> r is Ok && answers_denom_request(
            store@,
            token,
            "request_disallow_denom"@,
            ExecuteMsg::DisallowDenom { denom: token.token_type },
            r->Ok_0,
        ),
{
    let msg = ExecuteMsg::DisallowDenom { denom: token.token_type.clone() };
    denom_request(store, &token, "request_disallow_denom", msg)
}

/// The amount of the first of the coins that has the denomination.
pub open spec fn funds_of(funds: Seq<Coin>, denom: Seq<char>) -> Option<u128>
    decreases funds.len(),
{
    if funds.len() == 0 {
        None
    } else if funds.first().denom@ == denom {
        Some(funds.first().amount)
    } else {
        funds_of(funds.drop_first(), denom)
    }
}

/// The amount of the first of the coins that has the denomination.
pub fn find_funds(funds: &Vec<Coin>, denom: &String) -> (r: Option<u128>)
    ensures
        r == funds_of(funds@, denom@),
{
    let mut i: usize = 0;
    proof {
        assert(funds@.skip(0) =~= funds@);
    }
    while i < funds.len()
        invariant
            i <= funds.len(),
            funds_of(funds@, denom@) == funds_of(funds@.skip(i as int), denom@),
        decreases funds.len() - i,
    {
        proof {
            assert(funds@.skip(i as int).first() == funds@[i as int]);
            assert(funds@.skip(i as int).drop_first() =~= funds@.skip(i + 1));
        }
        if funds[i].denom == *denom {
            return Some(funds[i].amount);
        }
        i += 1;
    }
    None
}

/// Why an escrow's answer stops a request, if it does: the escrow could not
/// be asked, or it does not allow the denomination.
pub open spec fn answer_rejection(answer: Result<bool, ContractError>) -> Option<ContractError> {
    match answer {
        Err(e) => Some(e),
        Ok(false) => Some(ContractError::UnsupportedDenomination),
        Ok(true) => None,
    }
}

/// Passes on an escrow's answer to whether it allows a denomination.
pub fn check_denom_allowed(answer: Result<bool, ContractError>) -> (r: Result<(), ContractError>)
    ensures
        answer_rejection(answer) matches Some(e) ==> r == Err::<(), ContractError>(e),
        answer_rejection(answer) is None ==> r == Ok::<(), ContractError>(()),
{
    match answer {
        Err(e) => Err(e),
        Ok(false) => Err(ContractError::UnsupportedDenomination),
        Ok(true) => Ok(()),
    }
}

/// `answer` is what the escrow at `escrow` answered when it was asked whether
/// it allows `denom`.
pub open spec fn escrow_answered<F: Fn(String, TokenType) -> Result<bool, ContractError>>(
    is_allowed: F,
    escrow: Seq<char>,
    denom: TokenType,
    answer: Result<bool, ContractError>,
) -> bool {
    exists|address: String| address@ == escrow && #[trigger] call_ensures(is_allowed, (address, denom), answer)
}

/// Why the funds that come with a request do not cover `amount` of a token,
/// if they do not. A token that a contract holds needs no funds.
pub open spec fn deposit_rejection(info: MessageInfo, token_type: TokenType, amount: u128) -> Option<ContractError> {
    if token_type is Smart {
        None
    } else if info.funds@.len() == 0 {
        Some(ContractError::InsufficientDeposit)
    } else {
        match funds_of(info.funds@, token_type.denom()) {
            None => Some(ContractError::DenomNotFound),
            Some(sent) => if sent < amount {
                Some(ContractError::InsufficientDeposit)
            } else {
                None
            },
        }
    }
}

/// The transfer that an accepted request orders for a token: of the amount,
/// to the handling contract, if a contract holds the token; none if the
/// token is native.
pub open spec fn transfers_of(env: Env, token_type: TokenType, amount: u128) -> Seq<CosmosMsg> {
    if token_type is Smart {
        seq![CosmosMsg::Transfer(TransferMsg { token_type, amount, recipient: env.contract_address })]
    } else {
        Seq::empty()
    }
}

fn check_deposit(
    info: &MessageInfo,
    env: &Env,
    token_type: &TokenType,
    amount: u128,
    messages: &mut Vec<CosmosMsg>,
) -> (r: Result<(), ContractError>)
    ensures
        deposit_rejection(*info, *token_type, amount) matches Some(e) ==> r == Err::<(), ContractError>(e),
        deposit_rejection(*info, *token_type, amount) is None ==> r == Ok::<(), ContractError>(()),
        r is Ok ==> final(messages)@ == old(messages)@ + transfers_of(*env, *token_type, amount),
{
    if token_type.is_smart() {
        messages.push(
            CosmosMsg::Transfer(
                TransferMsg { token_type: token_type.clone(), amount, recipient: env.contract_address.clone() },
            ),
        );
        proof {
            assert(final(messages)@ =~= old(messages)@ + transfers_of(*env, *token_type, amount));
        }
        Ok(())
    } else {
        proof {
            assert(messages@ =~= old(messages)@ + transfers_of(*env, *token_type, amount));
        }
        if info.funds.len() == 0 {
            return Err(ContractError::InsufficientDeposit);
        }
        match find_funds(&info.funds, &token_type.get_denom()) {
            None => Err(ContractError::DenomNotFound),
            Some(sent) => {
                if sent < amount {
                    Err(ContractError::InsufficientDeposit)
                } else {
                    Ok(())
                }
            },
        }
    }
}

/// Why a request to add liquidity is refused before any escrow is asked, if
/// it is. The checks are made in this order.
pub open spec fn add_liquidity_rejection(
    chain: StoreView,
    env: Env,
    info: MessageInfo,
    request: AddLiquidityRequest,
) -> Option<ContractError> {
    let pair = request.pair_info;
    if chain.is_pending(TxType::AddLiquidity, info.sender@, request.tx_id@) {
        Some(ContractError::TxAlreadyExist)
    } else if !(1 <= request.slippage_tolerance <= 100) {
        Some(ContractError::InvalidSlippageTolerance)
    } else if requester_rejection(chain, info) is Some {
        requester_rejection(chain, info)
    } else if pair.token_1.token@ == pair.token_2.token@ {
        Some(ContractError::DuplicateTokens)
    } else if !chain.pair_to_vlp.contains_key(canonical_key(pair.token_1.token@, pair.token_2.token@)) {
        Some(ContractError::PoolDoesNotExist)
    } else if dispatch_rejection(chain, env, request.timeout) is Some {
        dispatch_rejection(chain, env, request.timeout)
    } else if request.token_1_liquidity == 0 || request.token_2_liquidity == 0 {
        Some(ContractError::ZeroAssetAmount)
    } else if !chain.token_to_escrow.contains_key(pair.token_1.token@) {
        Some(ContractError::EscrowDoesNotExist)
    } else {
        None
    }
}

/// Why a request to add liquidity is refused once the escrow of the first
/// token has answered `first`, and that of the second token, if it was
/// asked, `second`. The checks are made in this order.
pub open spec fn add_liquidity_late_rejection(
    chain: StoreView,
    info: MessageInfo,
    request: AddLiquidityRequest,
    first: Result<bool, ContractError>,
    second: Result<bool, ContractError>,
) -> Option<ContractError> {
    let pair = request.pair_info;
    if answer_rejection(first) is Some {
        answer_rejection(first)
    } else if !chain.token_to_escrow.contains_key(pair.token_2.token@) {
        Some(ContractError::EscrowDoesNotExist)
    } else if answer_rejection(second) is Some {
        answer_rejection(second)
    } else if deposit_rejection(info, pair.token_1.token_type, request.token_1_liquidity) is Some {
        deposit_rejection(info, pair.token_1.token_type, request.token_1_liquidity)
    } else {
        deposit_rejection(info, pair.token_2.token_type, request.token_2_liquidity)
    }
}

/// What is kept of an accepted request to add liquidity.
pub open spec fn add_liquidity_record(env: Env, info: MessageInfo, request: AddLiquidityRequest) -> PendingRowView {
    (
        info.sender@,
        request.tx_id@,
        seq![token_row_of(request.pair_info.token_1), token_row_of(request.pair_info.token_2)],
        seq![request.token_1_liquidity, request.token_2_liquidity],
        Seq::<(Seq<char>, Seq<char>, Option<bool>)>::empty(),
        Seq::<(Seq<char>, Seq<char>, Option<u128>)>::empty(),
        expiry_of(env.block_time, request.timeout)->Some_0,
        None,
    )
}

/// Whether `response` is the answer to an accepted request to add
/// liquidity: one event, the method's name, the transfers of the tokens that
/// contracts hold, first token first, and then one packet to the hub.
pub open spec fn answers_add_liquidity(
    chain: StoreView,
    env: Env,
    info: MessageInfo,
    request: AddLiquidityRequest,
    response: Response,
) -> bool {
    let pair_info = request.pair_info;
    &&& records_tx(response.events@, TxType::AddLiquidity, info.sender@, request.tx_id@)
    &&& names_method(response.attributes@, "add_liquidity_request"@)
    &&& response.messages@.len() > 0
    &&& response.messages@.drop_last() == transfers_of(
        env,
        pair_info.token_1.token_type,
        request.token_1_liquidity,
    ) + transfers_of(env, pair_info.token_2.token_type, request.token_2_liquidity)
    &&& response.messages@.last() matches CosmosMsg::Ibc(packet)
    &&& is_dispatched(chain, env, request.timeout, packet)
    &&& packet.data matches ChainIbcExecuteMsg::AddLiquidity {
        sender,
        token_1_liquidity,
        token_2_liquidity,
        slippage_tolerance,
        pair,
        tx_id,
    }
    &&& is_requester(chain, info, sender)
    &&& token_1_liquidity == request.token_1_liquidity
    &&& token_2_liquidity == request.token_2_liquidity
    &&& slippage_tolerance == request.slippage_tolerance
    &&& (pair.token_1@, pair.token_2@) == canonical_key(pair_info.token_1.token@, pair_info.token_2.token@)
    &&& tx_id == request.tx_id
}

/// Asks the hub to add liquidity to a pair's pool.
///
/// The escrow of each token is asked through `is_allowed`, with its address
/// and the token's denomination, whether it allows the denomination: the
/// first token's escrow first, the second token's only if the first allows.
/// A native token's amount comes with the request as funds; for a token
/// that a contract holds, a transfer to the handling contract is ordered.
///
/// A request that is refused changes nothing. A request that is accepted is
/// recorded as in flight under the requester and the transaction id.
pub fn add_liquidity_request<F>(
    store: &mut Store,
    info: &MessageInfo,
    env: &Env,
    pair_info: PairWithDenom,
    token_1_liquidity: u128,
    token_2_liquidity: u128,
    slippage_tolerance: u64,
    timeout: Option<u64>,
    tx_id: String,
    is_allowed: F,
) -> (r: Result<Response, ContractError>) where F: Fn(String, TokenType) -> Result<bool, ContractError>
    requires
        forall|escrow: String, denom: TokenType| call_requires(is_allowed, (escrow, denom)),
    ensures
        ({
            let chain = old(store)@;
            let request = AddLiquidityRequest {
                pair_info,
                token_1_liquidity,
                token_2_liquidity,
                slippage_tolerance,
                timeout,
                tx_id,
            };
            &&& chain.is_pending(TxType::AddLiquidity, info.sender@, tx_id@) ==> r == Err::<Response, ContractError>(
                ContractError::TxAlreadyExist,
            )
            &&& !chain.is_pending(TxType::AddLiquidity, info.sender@, tx_id@) && !(1 <= slippage_tolerance <= 100)
                ==> r == Err::<Response, ContractError>(ContractError::InvalidSlippageTolerance)
            &&& r is Err ==> final(store)@ == chain
            &&& r is Ok ==> final(store)@ == with_pending(
                chain,
                TxType::AddLiquidity,
                info.sender@,
                tx_id@,
                add_liquidity_record(*env, *info, request),
            )
            &&& add_liquidity_rejection(chain, *env, *info, request) matches Some(e) ==> r == Err::<
                Response,
                ContractError,
            >(e)
            &&& add_liquidity_rejection(chain, *env, *info, request) is None ==> exists|
                first: Result<bool, ContractError>,
                second: Result<bool, ContractError>,
            |
                {
                    &&& escrow_answered(
                        is_allowed,
                        chain.token_to_escrow[pair_info.token_1.token@],
                        pair_info.token_1.token_type,
                        first,
                    )
                    &&& answer_rejection(first) is None && chain.token_to_escrow.contains_key(
                        pair_info.token_2.token@,
                    ) ==> escrow_answered(
                        is_allowed,
                        chain.token_to_escrow[pair_info.token_2.token@],
                        pair_info.token_2.token_type,
                        second,
                    )
                    &&& match #[trigger] add_liquidity_late_rejection(chain, *info, request, first, second) {
                        Some(e) => r == Err::<Response, ContractError>(e),
                        None => r is Ok && answers_add_liquidity(chain, *env, *info, request, r->Ok_0),
                    }
                }
        }),
{
    let ghost chain = store@;
    let ghost request = AddLiquidityRequest {
        pair_info,
        token_1_liquidity,
        token_2_liquidity,
        slippage_tolerance,
        timeout,
        tx_id,
    };
    if store.is_pending(TxType::AddLiquidity, info.sender.as_str(), tx_id.as_str()) {
        return Err(ContractError::TxAlreadyExist);
    }
    if slippage_tolerance < 1 || slippage_tolerance > 100 {
        return Err(ContractError::InvalidSlippageTolerance);
    }
    let sender = match requester(store, info) {
        Ok(sender) => sender,
        Err(e) => {
            return Err(e);
        },
    };
    let pair = match pair_info.get_pair() {
        Ok(pair) => pair,
        Err(e) => {
            return Err(e);
        },
    };
    let key = pair.get_tupple();
    if store.pool_of(&key.0, &key.1).is_none() {
        return Err(ContractError::PoolDoesNotExist);
    }
    let (channel_id, moment) = match dispatch(store, env, timeout) {
        Ok(route) => route,
        Err(e) => {
            return Err(e);
        },
    };
    if token_1_liquidity == 0 || token_2_liquidity == 0 {
        return Err(ContractError::ZeroAssetAmount);
    }
    let escrow_1 = match store.escrow_of(&pair_info.token_1.token) {
        Some(escrow) => escrow,
        None => {
            return Err(ContractError::EscrowDoesNotExist);
        },
    };
    let ghost asked_1 = (escrow_1, pair_info.token_1.token_type);
    let first = is_allowed(escrow_1, pair_info.token_1.token_type.clone());
    proof {
        assert(call_ensures(is_allowed, asked_1, first));
        assert(escrow_answered(
            is_allowed,
            chain.token_to_escrow[pair_info.token_1.token@],
            pair_info.token_1.token_type,
            first,
        ));
    }
    match check_denom_allowed(first) {
        Ok(_) => {},
        Err(e) => {
            proof {
                assert(add_liquidity_late_rejection(chain, *info, request, first, first) == Some(e));
            }
            return Err(e);
        },
    }
    let escrow_2 = match store.escrow_of(&pair_info.token_2.token) {
        Some(escrow) => escrow,
        None => {
            proof {
                assert(add_liquidity_late_rejection(chain, *info, request, first, first) == Some(
                    ContractError::EscrowDoesNotExist,
                ));
            }
            return Err(ContractError::EscrowDoesNotExist);
        },
    };
    let ghost asked_2 = (escrow_2, pair_info.token_2.token_type);
    let second = is_allowed(escrow_2, pair_info.token_2.token_type.clone());
    proof {
        assert(call_ensures(is_allowed, asked_2, second));
        assert(escrow_answered(
            is_allowed,
            chain.token_to_escrow[pair_info.token_2.token@],
            pair_info.token_2.token_type,
            second,
        ));
    }
    let ghost late = add_liquidity_late_rejection(chain, *info, request, first, second);
    match check_denom_allowed(second) {
        Ok(_) => {},
        Err(e) => {
            proof {
                assert(late == Some(e));
            }
            return Err(e);
        },
    }
    let mut messages: Vec<CosmosMsg> = Vec::new();
    match check_deposit(info, env, &pair_info.token_1.token_type, token_1_liquidity, &mut messages) {
        Ok(_) => {},
        Err(e) => {
            proof {
                assert(late == Some(e));
            }
            return Err(e);
        },
    }
    match check_deposit(info, env, &pair_info.token_2.token_type, token_2_liquidity, &mut messages) {
        Ok(_) => {},
        Err(e) => {
            proof {
                assert(late == Some(e));
            }
            return Err(e);
        },
    }
    let ghost transfers = messages@;
    let mut amounts: Vec<u128> = Vec::new();
    amounts.push(token_1_liquidity);
    amounts.push(token_2_liquidity);
    let record = PendingRecord {
        sender: info.sender.clone(),
        tx_id: tx_id.clone(),
        tokens: pair_rows(token_row(&pair_info.token_1), token_row(&pair_info.token_2)),
        amounts,
        route: Vec::new(),
        claimants: Vec::new(),
        timeout: moment,
        partner_fee_recipient: None,
    };
    proof {
        assert(record.amounts@ =~= seq![token_1_liquidity, token_2_liquidity]);
        assert(triple_views(record.route@) =~= Seq::<(Seq<char>, Seq<char>, Option<bool>)>::empty());
        assert(triple_views(record.claimants@) =~= Seq::<(Seq<char>, Seq<char>, Option<u128>)>::empty());
    }
    store.record_pending(TxType::AddLiquidity, info.sender.as_str(), tx_id.as_str(), record);
    let events = tx_events(TxType::AddLiquidity, &info.sender, &tx_id);
    let data = ChainIbcExecuteMsg::AddLiquidity {
        sender,
        token_1_liquidity,
        token_2_liquidity,
        slippage_tolerance,
        pair: Pair { token_1: key.0, token_2: key.1 },
        tx_id,
    };
    messages.push(packet_to_hub(channel_id, data, moment));
    let response = Response { events, attributes: method_attributes("add_liquidity_request"), messages };
    proof {
        assert(response.messages@.drop_last() =~= transfers);
        assert(transfers =~= transfers_of(*env, pair_info.token_1.token_type, token_1_liquidity) + transfers_of(
            *env,
            pair_info.token_2.token_type,
            token_2_liquidity,
        ));
        assert(late is None);
    }
    Ok(response)
}

impl SwapRequest {
    /// The basis points that the partner takes: none where no partner is
    /// named.
    pub open spec fn partner_bps(self) -> u64 {
        match self.partner_fee {
            Some(fee) => fee.partner_fee_bps,
            None => 0,
        }
    }

    /// What the partner takes of the amount: its part, rounded up.
    pub open spec fn fee(self) -> int {
        bps_of(self.amount_in, self.partner_bps())
    }

    /// What is swapped: the amount without the partner's fee.
    pub open spec fn net_amount(self) -> int {
        self.amount_in - self.fee()
    }
}

/// Why a swap request is refused before the escrow is asked, if it is. The
/// checks are made in this order.
pub open spec fn swap_rejection(
    chain: StoreView,
    env: Env,
    info: MessageInfo,
    request: SwapRequest,
) -> Option<ContractError> {
    if chain.is_pending(TxType::Swap, info.sender@, request.tx_id@) {
        Some(ContractError::TxAlreadyExist)
    } else if requester_rejection(chain, info) is Some {
        requester_rejection(chain, info)
    } else if request.partner_bps() > MAX_PARTNER_FEE_BPS {
        Some(ContractError::InvalidPartnerFee)
    } else if request.net_amount() == 0 {
        Some(ContractError::ZeroAssetAmount)
    } else if request.min_amount_out == 0 {
        Some(ContractError::ZeroAssetAmount)
    } else if request.swaps@.len() == 0 {
        Some(ContractError::EmptyRoute)
    } else if request.swaps@.first().token_in@ != request.asset_in.token@ {
        Some(ContractError::AssetInMismatch)
    } else if request.swaps@.last().token_out@ != request.asset_out@ {
        Some(ContractError::AssetOutMismatch)
    } else if dispatch_rejection(chain, env, request.timeout) is Some {
        dispatch_rejection(chain, env, request.timeout)
    } else if !chain.token_to_escrow.contains_key(request.asset_in.token@) {
        Some(ContractError::EscrowDoesNotExist)
    } else {
        None
    }
}

/// Why the requester may not swap `amount` of a token, if it may not: for a
/// native token, the funds that come with the request do not hold the
/// denomination or hold less than the amount; for a token that a contract
/// holds, the requester is not that contract.
pub open spec fn payment_rejection(info: MessageInfo, token_type: TokenType, amount: int) -> Option<ContractError> {
    if token_type is Native {
        match funds_of(info.funds@, token_type.denom()) {
            None => Some(ContractError::DenomNotFound),
            Some(sent) => if sent < amount {
                Some(ContractError::InsufficientFunds)
            } else {
                None
            },
        }
    } else if info.sender@ != token_type.denom() {
        Some(ContractError::Unauthorized)
    } else {
        None
    }
}

/// Why a swap request is refused once the escrow has answered `allowed`
/// and, where a partner is named, the check of the partner's address has
/// answered `recipient`. The checks are made in this order.
pub open spec fn swap_late_rejection(
    info: MessageInfo,
    request: SwapRequest,
    allowed: Result<bool, ContractError>,
    recipient: Result<String, ContractError>,
) -> Option<ContractError> {
    if answer_rejection(allowed) is Some {
        answer_rejection(allowed)
    } else if payment_rejection(info, request.asset_in.token_type, request.net_amount()) is Some {
        payment_rejection(info, request.asset_in.token_type, request.net_amount())
    } else if request.partner_fee is Some && recipient is Err {
        Some(recipient->Err_0)
    } else {
        None
    }
}

/// What is kept of an accepted swap request: the amounts are what is
/// swapped, the least that must come out, and the partner's fee; the
/// partner's address is the one that the check of it gave back.
pub open spec fn swap_record(
    chain: StoreView,
    env: Env,
    info: MessageInfo,
    request: SwapRequest,
    recipient: Result<String, ContractError>,
) -> PendingRowView {
    (
        info.sender@,
        request.tx_id@,
        seq![token_row_of(request.asset_in), bare_token_row_of(request.asset_out)],
        seq![request.net_amount() as u128, request.min_amount_out, request.fee() as u128],
        route_rows_of(request.swaps@),
        claimant_rows_of(request.cross_chain_addresses@).push(requester_row_of(chain, info)),
        expiry_of(env.block_time, request.timeout)->Some_0,
        if request.partner_fee is Some {
            Some(recipient->Ok_0@)
        } else {
            None
        },
    )
}

/// Whether `response` is the answer to an accepted swap request: two
/// events, that the request was accepted and the swap as it is kept; the
/// method's name; and one packet to the hub that names what is swapped
/// after the partner's fee, and claimants that end with the requester.
pub open spec fn answers_swap(
    chain: StoreView,
    env: Env,
    info: MessageInfo,
    request: SwapRequest,
    recipient: Result<String, ContractError>,
    response: Response,
) -> bool {
    &&& records_swap(
        response.events@,
        info.sender@,
        request.tx_id@,
        swap_record(chain, env, info, request, recipient),
    )
    &&& names_method(response.attributes@, "execute_request_swap"@)
    &&& response.messages@.len() == 1
    &&& response.messages@[0] matches CosmosMsg::Ibc(packet)
    &&& is_dispatched(chain, env, request.timeout, packet)
    &&& packet.data matches ChainIbcExecuteMsg::Swap(sent)
    &&& is_requester(chain, info, sent.sender)
    &&& sent.asset_in == request.asset_in.token
    &&& sent.amount_in == request.net_amount()
    &&& sent.asset_out == request.asset_out
    &&& sent.min_amount_out == request.min_amount_out
    &&& sent.swaps == request.swaps
    &&& ends_with_requester(chain, info, request.cross_chain_addresses@, sent.cross_chain_addresses@)
    &&& sent.tx_id == request.tx_id
}

fn swap_pending_record(
    info: &MessageInfo,
    tx_id: &String,
    asset_in: &TokenWithDenom,
    asset_out: &Token,
    amounts: (u128, u128, u128),
    swaps: &Vec<NextSwapPair>,
    claimants: &Vec<CrossChainUserWithLimit>,
    timeout: u64,
    partner_fee_recipient: &Option<String>,
) -> (r: PendingRecord)
    ensures
        r@ == (
            info.sender@,
            tx_id@,
            seq![token_row_of(*asset_in), bare_token_row_of(*asset_out)],
            seq![amounts.0, amounts.1, amounts.2],
            route_rows_of(swaps@),
            claimant_rows_of(claimants@),
            timeout,
            text_view(*partner_fee_recipient),
        ),
{
    let mut kept: Vec<u128> = Vec::new();
    kept.push(amounts.0);
    kept.push(amounts.1);
    kept.push(amounts.2);
    let recipient: Option<String> = match partner_fee_recipient {
        Some(address) => Some(address.clone()),
        None => None,
    };
    let record = PendingRecord {
        sender: info.sender.clone(),
        tx_id: tx_id.clone(),
        tokens: pair_rows(token_row(asset_in), bare_token_row(asset_out)),
        amounts: kept,
        route: route_rows(swaps),
        claimants: claimant_rows(claimants),
        timeout,
        partner_fee_recipient: recipient,
    };
    proof {
        assert(record.amounts@ =~= seq![amounts.0, amounts.1, amounts.2]);
    }
    record
}

fn check_payment(info: &MessageInfo, token_type: &TokenType, amount: u128) -> (r: Result<(), ContractError>)
    ensures
        payment_rejection(*info, *token_type, amount as int) matches Some(e) ==> r == Err::<(), ContractError>(e),
        payment_rejection(*info, *token_type, amount as int) is None ==> r == Ok::<(), ContractError>(()),
{
    if token_type.is_native() {
        match find_funds(&info.funds, &token_type.get_denom()) {
            None => Err(ContractError::DenomNotFound),
            Some(sent) => {
                if sent < amount {
                    Err(ContractError::InsufficientFunds)
                } else {
                    Ok(())
                }
            },
        }
    } else if info.sender != token_type.get_denom() {
        Err(ContractError::Unauthorized)
    } else {
        Ok(())
    }
}

/// Asks the hub to swap along a route.
///
/// The partner's fee, rounded up, is taken off the amount first; what is
/// left is what is swapped. The escrow of the input token is asked through
/// `is_allowed`, with its address and the token's denomination, whether it
/// allows the denomination. A native token's amount comes with the request
/// as funds; a token that a contract holds is swapped at the request of that
/// contract alone. Where a partner is named, its address is checked through
/// `validate_address` last. The requester is added to the claimants as the
/// last of them, without a cap.
///
/// A request that is refused changes nothing. A request that is accepted is
/// recorded as in flight under the requester and the transaction id, and is
/// answered with two events: that it was accepted, and the swap as it is
/// recorded.
pub fn execute_swap_request<F, G>(
    store: &mut Store,
    info: &MessageInfo,
    env: &Env,
    asset_in: TokenWithDenom,
    asset_out: Token,
    amount_in: u128,
    min_amount_out: u128,
    swaps: Vec<NextSwapPair>,
    timeout: Option<u64>,
    cross_chain_addresses: Vec<CrossChainUserWithLimit>,
    tx_id: String,
    partner_fee: Option<PartnerFee>,
    is_allowed: F,
    validate_address: G,
) -> (r: Result<Response, ContractError>) where
    F: Fn(String, TokenType) -> Result<bool, ContractError>,
    G: Fn(String) -> Result<String, ContractError>,

    requires
        forall|escrow: String, denom: TokenType| call_requires(is_allowed, (escrow, denom)),
        forall|address: String| call_requires(validate_address, (address,)),
    ensures
        ({
            let chain = old(store)@;
            let request = SwapRequest {
                asset_in,
                asset_out,
                amount_in,
                min_amount_out,
                swaps,
                timeout,
                cross_chain_addresses,
                tx_id,
                partner_fee,
            };
            &&& chain.is_pending(TxType::Swap, info.sender@, tx_id@) ==> r == Err::<Response, ContractError>(
                ContractError::TxAlreadyExist,
            )
            &&& r is Err ==> final(store)@ == chain
            &&& r is Ok ==> final(store)@.is_pending(TxType::Swap, info.sender@, tx_id@)
            &&& swap_rejection(chain, *env, *info, request) matches Some(e) ==> r == Err::<Response, ContractError>(e)
            &&& swap_rejection(chain, *env, *info, request) is None ==> exists|
                allowed: Result<bool, ContractError>,
                recipient: Result<String, ContractError>,
            |
                {
                    &&& escrow_answered(
                        is_allowed,
                        chain.token_to_escrow[asset_in.token@],
                        asset_in.token_type,
                        allowed,
                    )
                    &&& partner_fee is Some && answer_rejection(allowed) is None && payment_rejection(
                        *info,
                        asset_in.token_type,
                        request.net_amount(),
                    ) is None ==> call_ensures(validate_address, (partner_fee->Some_0.recipient,), recipient)
                    &&& match #[trigger] swap_late_rejection(*info, request, allowed, recipient) {
                        Some(e) => r == Err::<Response, ContractError>(e),
                        None => r is Ok && answers_swap(chain, *env, *info, request, recipient, r->Ok_0) && final(store)@
                            == with_pending(
                            chain,
                            TxType::Swap,
                            info.sender@,
                            tx_id@,
                            swap_record(chain, *env, *info, request, recipient),
                        ),
                    }
                }
        }),
{
    let ghost chain = store@;
    let ghost request = SwapRequest {
        asset_in,
        asset_out,
        amount_in,
        min_amount_out,
        swaps,
        timeout,
        cross_chain_addresses,
        tx_id,
        partner_fee,
    };
    if store.is_pending(TxType::Swap, info.sender.as_str(), tx_id.as_str()) {
        return Err(ContractError::TxAlreadyExist);
    }
    let sender = match requester(store, info) {
        Ok(sender) => sender,
        Err(e) => {
            return Err(e);
        },
    };
    let mut cross_chain_addresses = cross_chain_addresses;
    cross_chain_addresses.push(CrossChainUserWithLimit { user: sender.clone(), limit: None });
    let partner_fee_bps: u64 = match &partner_fee {
        Some(fee) => fee.partner_fee_bps,
        None => 0,
    };
    if partner_fee_bps > MAX_PARTNER_FEE_BPS {
        return Err(ContractError::InvalidPartnerFee);
    }
    proof {
        lemma_fee_within_amount(amount_in, partner_fee_bps);
    }
    let partner_fee_amount: u128 = match partner_fee_amount(amount_in, partner_fee_bps) {
        Ok(fee) => fee,
        Err(e) => {
            return Err(e);
        },
    };
    let net: u128 = match amount_in.checked_sub(partner_fee_amount) {
        Some(rest) => rest,
        None => {
            return Err(ContractError::Overflow);
        },
    };
    if net == 0 {
        return Err(ContractError::ZeroAssetAmount);
    }
    if min_amount_out == 0 {
        return Err(ContractError::ZeroAssetAmount);
    }
    if swaps.len() == 0 {
        return Err(ContractError::EmptyRoute);
    }
    if swaps[0].token_in != asset_in.token {
        return Err(ContractError::AssetInMismatch);
    }
    if swaps[swaps.len() - 1].token_out != asset_out {
        return Err(ContractError::AssetOutMismatch);
    }
    let (channel_id, moment) = match dispatch(store, env, timeout) {
        Ok(route) => route,
        Err(e) => {
            return Err(e);
        },
    };
    let escrow = match store.escrow_of(&asset_in.token) {
        Some(escrow) => escrow,
        None => {
            return Err(ContractError::EscrowDoesNotExist);
        },
    };
    let ghost asked = (escrow, asset_in.token_type);
    let allowed = is_allowed(escrow, asset_in.token_type.clone());
    proof {
        assert(call_ensures(is_allowed, asked, allowed));
        assert(escrow_answered(is_allowed, chain.token_to_escrow[asset_in.token@], asset_in.token_type, allowed));
    }
    let ghost unasked: Result<String, ContractError> = Err(ContractError::CollaboratorFailed);
    match check_denom_allowed(allowed) {
        Ok(_) => {},
        Err(e) => {
            proof {
                assert(swap_late_rejection(*info, request, allowed, unasked) == Some(e));
            }
            return Err(e);
        },
    }
    match check_payment(info, &asset_in.token_type, net) {
        Ok(_) => {},
        Err(e) => {
            proof {
                assert(swap_late_rejection(*info, request, allowed, unasked) == Some(e));
            }
            return Err(e);
        },
    }
    let partner_fee_recipient: Option<String> = match &partner_fee {
        Some(fee) => {
            let recipient = validate_address(fee.recipient.clone());
            proof {
                assert(call_ensures(validate_address, (fee.recipient,), recipient));
            }
            match recipient {
                Ok(address) => Some(address),
                Err(e) => {
                    proof {
                        assert(swap_late_rejection(*info, request, allowed, recipient) == Some(e));
                    }
                    return Err(e);
                },
            }
        },
        None => None,
    };
    let ghost validated: Result<String, ContractError> = if partner_fee_recipient is Some {
        Ok(partner_fee_recipient->Some_0)
    } else {
        unasked
    };
    let kept = (net, min_amount_out, partner_fee_amount);
    let record = swap_pending_record(
        info,
        &tx_id,
        &asset_in,
        &asset_out,
        kept,
        &swaps,
        &cross_chain_addresses,
        moment,
        &partner_fee_recipient,
    );
    let reported = swap_pending_record(
        info,
        &tx_id,
        &asset_in,
        &asset_out,
        kept,
        &swaps,
        &cross_chain_addresses,
        moment,
        &partner_fee_recipient,
    );
    proof {
        assert(claimant_rows_of(cross_chain_addresses@) =~= claimant_rows_of(request.cross_chain_addresses@).push(
            requester_row_of(chain, *info),
        ));
        assert(cross_chain_addresses@.drop_last() =~= request.cross_chain_addresses@);
        assert(record@ == swap_record(chain, *env, *info, request, validated));
    }
    store.record_pending(TxType::Swap, info.sender.as_str(), tx_id.as_str(), record);
    let mut events = tx_events(TxType::Swap, &info.sender, &tx_id);
    events.push(Event::Swap(SwapEvent { tx_id: tx_id.clone(), swap: reported }));
    let data = ChainIbcExecuteMsg::Swap(
        ChainIbcSwapExecuteMsg {
            sender,
            asset_in: asset_in.token,
            amount_in: net,
            asset_out,
            min_amount_out,
            swaps,
            cross_chain_addresses,
            tx_id,
        },
    );
    let mut messages: Vec<CosmosMsg> = Vec::new();
    messages.push(packet_to_hub(channel_id, data, moment));
    let response = Response { events, attributes: method_attributes("execute_request_swap"), messages };
    proof {
        assert(swap_late_rejection(*info, request, allowed, validated) is None);
    }
    Ok(response)
}

/// A request whose requester and transaction id are those of a request of
/// its kind in flight is refused as a duplicate, whatever else it holds and
/// whatever the chain knows: no other check comes first.
pub proof fn lemma_duplicate_is_conflict(
    chain: StoreView,
    env: Env,
    info: MessageInfo,
    pool_creation: PoolCreateRequest,
    add_liquidity: AddLiquidityRequest,
    remove_liquidity: RemoveLiquidityRequest,
    swap: SwapRequest,
)
    ensures
        chain.is_pending(TxType::PoolCreation, info.sender@, pool_creation.tx_id@) ==> pool_creation_rejection(
            chain,
            env,
            info,
            pool_creation,
        ) == Some(ContractError::TxAlreadyExist),
        chain.is_pending(TxType::AddLiquidity, info.sender@, add_liquidity.tx_id@) ==> add_liquidity_rejection(
            chain,
            env,
            info,
            add_liquidity,
        ) == Some(ContractError::TxAlreadyExist),
        chain.is_pending(TxType::RemoveLiquidity, info.sender@, remove_liquidity.tx_id@)
            ==> remove_liquidity_rejection(chain, env, info, remove_liquidity) == Some(
            ContractError::TxAlreadyExist,
        ),
        chain.is_pending(TxType::Swap, info.sender@, swap.tx_id@) ==> swap_rejection(chain, env, info, swap)
            == Some(ContractError::TxAlreadyExist),
        ContractError::TxAlreadyExist.spec_kind() == ErrorKind::Conflict,
{
}

} // verus!
