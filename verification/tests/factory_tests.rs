use std::cell::Cell;

use euclid::chain::{ChainUid, CrossChainUser, CrossChainUserWithLimit};
use euclid::error::{ContractError, ErrorKind};
use euclid::factory::execute::{
    add_liquidity_request, check_denom_allowed, execute_request_deregister_denom,
    execute_request_pool_creation, execute_request_register_denom, execute_swap_request,
    execute_update_hub_channel, find_funds, receive_cw20, register_pool, remove_liquidity_request,
};
use euclid::factory::response::{
    Coin, CosmosMsg, Env, Event, IbcPacket, MessageInfo, Response, SwapEvent, TransferMsg, TxEvent,
};
use euclid::fee::{partner_fee_amount, PartnerFee};
use euclid::ibc::{ChainIbcExecuteMsg, ChainIbcRemoveLiquidityExecuteMsg, ChainIbcSwapExecuteMsg};
use euclid::msgs::escrow::{Cw20ReceiveMsg, ExecuteMsg};
use euclid::store::{PendingRecord, Store, TxType};
use euclid::swap::NextSwapPair;
use euclid::timeout::{expiry, get_timeout};
use euclid::token::{Pair, PairWithDenom, Token, TokenType, TokenWithDenom};

const NOW: u64 = 1_700_000_000_000_000_000;

fn token(id: &str) -> Token {
    Token::create(id.to_string()).unwrap()
}

fn native(id: &str, denom: &str) -> TokenWithDenom {
    TokenWithDenom { token: token(id), token_type: TokenType::Native { denom: denom.to_string() } }
}

fn smart(id: &str, address: &str) -> TokenWithDenom {
    TokenWithDenom {
        token: token(id),
        token_type: TokenType::Smart { contract_address: address.to_string() },
    }
}

fn env() -> Env {
    Env { block_time: NOW, contract_address: "factory".to_string() }
}

fn info(sender: &str, funds: &[(&str, u128)]) -> MessageInfo {
    MessageInfo {
        sender: sender.to_string(),
        funds: funds.iter().map(|(d, a)| Coin { denom: d.to_string(), amount: *a }).collect(),
    }
}

fn hop(a: &str, b: &str) -> NextSwapPair {
    NextSwapPair { token_in: token(a), token_out: token(b), test_fail: None }
}

fn user(address: &str, chain: &str) -> CrossChainUser {
    CrossChainUser { chain_uid: ChainUid::new(chain.to_string()), address: address.to_string() }
}

/// A chain that knows itself, the hub, the pool of (t1, t2) and an escrow for each of the two.
fn chain() -> Store {
    let mut store = Store::new();
    store.set_setting("chain_uid", &"nibiru".to_string());
    store.set_setting("admin", &"admin".to_string());
    store.set_setting("hub_channel", &"channel-7".to_string());
    register_pool(&mut store, &Pair::new(token("t2"), token("t1")).unwrap(), &"vlp12".to_string()).unwrap();
    store.set_escrow(&token("t1"), &"escrow1".to_string());
    store.set_escrow(&token("t2"), &"escrow2".to_string());
    store
}

fn allow(_: String, _: TokenType) -> Result<bool, ContractError> {
    Ok(true)
}

fn keep(address: String) -> Result<String, ContractError> {
    Ok(address)
}

fn packet(response: &Response) -> &IbcPacket {
    match response.messages.last() {
        Some(CosmosMsg::Ibc(packet)) => packet,
        other => panic!("no packet: {:?}", other),
    }
}

#[test]
fn a_pair_has_one_pool_on_the_chain() {
    let mut store = chain();
    let reversed = Pair { token_1: token("t2"), token_2: token("t1") };
    assert_eq!(register_pool(&mut store, &reversed, &"other".to_string()), Err(ContractError::PoolAlreadyExists));
    let same = Pair { token_1: token("t1"), token_2: token("t1") };
    assert_eq!(register_pool(&mut store, &same, &"other".to_string()), Err(ContractError::DuplicateTokens));
    assert_eq!(store.pool_of(&token("t1"), &token("t2")), Some("vlp12".to_string()));
    assert_eq!(store.pool_of(&token("t2"), &token("t1")), None);
    assert_eq!(register_pool(&mut store, &Pair::new(token("t3"), token("t1")).unwrap(), &"vlp13".to_string()), Ok(()));
    assert_eq!(store.pool_of(&token("t1"), &token("t3")), Some("vlp13".to_string()));
}

#[test]
fn timeout_defaults_and_bounds() {
    assert_eq!(get_timeout(None), Ok(60));
    assert_eq!(get_timeout(Some(30)), Ok(30));
    assert_eq!(get_timeout(Some(240)), Ok(240));
    assert_eq!(get_timeout(Some(29)), Err(ContractError::InvalidTimeout));
    assert_eq!(get_timeout(Some(241)), Err(ContractError::InvalidTimeout));
    assert_eq!(expiry(NOW, 60), Ok(NOW + 60_000_000_000));
    assert_eq!(expiry(u64::MAX - 59_999_999_999, 60), Err(ContractError::Overflow));
    assert_eq!(expiry(u64::MAX - 60_000_000_000, 60), Ok(u64::MAX));
    assert_eq!(expiry(0, u64::MAX), Err(ContractError::Overflow));
}

#[test]
fn partner_fee_rounds_up() {
    assert_eq!(partner_fee_amount(10_000, 30), Ok(30));
    assert_eq!(partner_fee_amount(10_001, 30), Ok(31));
    assert_eq!(partner_fee_amount(1, 1), Ok(1));
    assert_eq!(partner_fee_amount(0, 30), Ok(0));
    assert_eq!(partner_fee_amount(1000, 0), Ok(0));
    assert_eq!(partner_fee_amount(u128::MAX, 10_000), Ok(u128::MAX));
    assert_eq!(partner_fee_amount(u128::MAX, 10_001), Err(ContractError::Overflow));
    assert_eq!(
        partner_fee_amount(u128::MAX, 30),
        Ok(u128::MAX / 10_000 * 30 + (u128::MAX % 10_000 * 30 + 9_999) / 10_000)
    );
}

#[test]
fn funds_are_found_by_denomination() {
    let funds = info("u", &[("a", 1), ("b", 2), ("a", 3)]).funds;
    assert_eq!(find_funds(&funds, &"a".to_string()), Some(1));
    assert_eq!(find_funds(&funds, &"b".to_string()), Some(2));
    assert_eq!(find_funds(&funds, &"c".to_string()), None);
    assert_eq!(find_funds(&vec![], &"a".to_string()), None);
}

#[test]
fn pool_creation_is_recorded_and_sent() {
    let mut store = chain();
    let pair = PairWithDenom { token_1: native("t3", "ut3"), token_2: smart("t1", "cw1") };
    let response =
        execute_request_pool_creation(&mut store, &env(), &info("alice", &[]), pair, None, "tx1".to_string())
            .unwrap();
    assert_eq!(
        response,
        Response {
            events: vec![Event::Tx(TxEvent {
                tx_id: "tx1".to_string(),
                sender: "alice".to_string(),
                tx_type: TxType::PoolCreation
            })],
            attributes: vec![("method".to_string(), "request_pool_creation".to_string())],
            messages: vec![CosmosMsg::Ibc(IbcPacket {
                channel_id: "channel-7".to_string(),
                data: ChainIbcExecuteMsg::RequestPoolCreation {
                    pair: Pair { token_1: token("t1"), token_2: token("t3") },
                    sender: user("alice", "nibiru"),
                    tx_id: "tx1".to_string(),
                },
                timeout: NOW + 60_000_000_000,
            })],
        }
    );
    assert!(store.is_pending(TxType::PoolCreation, "alice", "tx1"));
    assert!(!store.is_pending(TxType::PoolCreation, "alice", "tx2"));
    assert!(!store.is_pending(TxType::Swap, "alice", "tx1"));
}

#[test]
fn pool_creation_rejections() {
    let mut store = chain();
    let new_pair = || PairWithDenom { token_1: native("t3", "ut3"), token_2: native("t1", "ut1") };
    let known = PairWithDenom { token_1: native("t2", "ut2"), token_2: native("t1", "ut1") };
    let same = PairWithDenom { token_1: native("t1", "ut1"), token_2: smart("t1", "cw") };
    let alice = info("alice", &[]);
    let run = |store: &mut Store, pair, timeout| {
        execute_request_pool_creation(store, &env(), &alice, pair, timeout, "tx".to_string())
    };
    assert_eq!(run(&mut store, known, None), Err(ContractError::PoolAlreadyExists));
    assert_eq!(run(&mut store, same, None), Err(ContractError::DuplicateTokens));
    assert_eq!(run(&mut store, new_pair(), Some(10)), Err(ContractError::InvalidTimeout));
    assert!(!store.is_pending(TxType::PoolCreation, "alice", "tx"));

    let mut bare = Store::new();
    assert_eq!(run(&mut bare, new_pair(), None), Err(ContractError::StateNotFound));
    bare.set_setting("chain_uid", &"nibiru".to_string());
    assert_eq!(run(&mut bare, new_pair(), None), Err(ContractError::ChannelNotFound));
    let long = info(&"a".repeat(0x10000), &[]);
    assert_eq!(
        execute_request_pool_creation(&mut bare, &env(), &long, new_pair(), None, "tx".to_string()),
        Err(ContractError::InvalidAddress)
    );
    let late = Env { block_time: u64::MAX, contract_address: "factory".to_string() };
    assert_eq!(
        execute_request_pool_creation(&mut store, &late, &alice, new_pair(), None, "tx".to_string()),
        Err(ContractError::Overflow)
    );
}

#[test]
fn a_requester_is_refused_only_where_its_address_is_too_long() {
    let mut store = chain();
    let pair = || PairWithDenom { token_1: native("t3", "ut3"), token_2: native("t1", "ut1") };
    let nobody = info("", &[("ut1", 100), ("ut2", 100)]);
    let response =
        execute_request_pool_creation(&mut store, &env(), &nobody, pair(), None, "tx".to_string()).unwrap();
    assert_eq!(response.events[0], Event::Tx(TxEvent {
        tx_id: "tx".to_string(),
        sender: String::new(),
        tx_type: TxType::PoolCreation,
    }));
    assert!(store.is_pending(TxType::PoolCreation, "", "tx"));
    let known = || PairWithDenom { token_1: native("t1", "ut1"), token_2: native("t2", "ut2") };
    assert!(add_liquidity_request(&mut store, &nobody, &env(), known(), 1, 1, 1, None, "tx".to_string(), allow).is_ok());
    assert!(remove_liquidity_request(
        &mut store,
        &nobody,
        &env(),
        Pair::new(token("t1"), token("t2")).unwrap(),
        1,
        None,
        vec![],
        "tx".to_string()
    )
    .is_ok());
    assert!(swap_with(&mut store, &nobody, native("t1", "ut1"), 100, 1, vec![hop("t1", "t3")], None).is_ok());
    assert!(store.is_pending(TxType::Swap, "", "tx"));

    let longest = info(&"a".repeat(0xFFFF), &[]);
    assert!(execute_request_pool_creation(&mut store, &env(), &longest, pair(), None, "tx".to_string()).is_ok());
    let too_long = info(&"a".repeat(0x10000), &[("ut1", 100), ("ut2", 100)]);
    assert_eq!(
        execute_request_pool_creation(&mut store, &env(), &too_long, pair(), None, "tx".to_string()),
        Err(ContractError::InvalidAddress)
    );
    assert_eq!(
        add_liquidity_request(&mut store, &too_long, &env(), known(), 1, 1, 1, None, "tx".to_string(), allow),
        Err(ContractError::InvalidAddress)
    );
    assert_eq!(
        swap_with(&mut store, &too_long, native("t1", "ut1"), 100, 1, vec![hop("t1", "t3")], None),
        Err(ContractError::InvalidAddress)
    );
}

#[test]
fn second_request_with_the_same_key_is_a_conflict() {
    let mut store = chain();
    let alice = info("alice", &[("ut1", 100), ("ut2", 100)]);
    let pair = || PairWithDenom { token_1: native("t1", "ut1"), token_2: native("t2", "ut2") };

    execute_request_pool_creation(
        &mut store,
        &env(),
        &alice,
        PairWithDenom { token_1: native("t8", "u8"), token_2: native("t9", "u9") },
        None,
        "tx".to_string(),
    )
    .unwrap();
    // Whatever the second request holds, it is refused as a duplicate.
    assert_eq!(
        execute_request_pool_creation(
            &mut store,
            &env(),
            &alice,
            PairWithDenom { token_1: native("t1", "u"), token_2: native("t1", "u") },
            Some(1),
            "tx".to_string()
        ),
        Err(ContractError::TxAlreadyExist)
    );
    assert_eq!(ContractError::TxAlreadyExist.kind(), ErrorKind::Conflict);

    add_liquidity_request(&mut store, &alice, &env(), pair(), 10, 10, 5, None, "tx".to_string(), allow).unwrap();
    assert_eq!(
        add_liquidity_request(&mut store, &alice, &env(), pair(), 0, 0, 0, Some(1), "tx".to_string(), allow),
        Err(ContractError::TxAlreadyExist)
    );

    remove_liquidity_request(
        &mut store,
        &alice,
        &env(),
        Pair::new(token("t1"), token("t2")).unwrap(),
        5,
        None,
        vec![],
        "tx".to_string(),
    )
    .unwrap();
    assert_eq!(
        remove_liquidity_request(
            &mut store,
            &alice,
            &env(),
            Pair { token_1: token("t1"), token_2: token("t1") },
            0,
            Some(1),
            vec![],
            "tx".to_string()
        ),
        Err(ContractError::TxAlreadyExist)
    );

    let swap = |store: &mut Store, amount: u128, fee: Option<PartnerFee>| {
        execute_swap_request(
            store,
            &alice,
            &env(),
            native("t1", "ut1"),
            token("t2"),
            amount,
            1,
            vec![hop("t1", "t2")],
            None,
            vec![],
            "tx".to_string(),
            fee,
            allow,
            keep,
        )
    };
    swap(&mut store, 50, None).unwrap();
    let too_much = Some(PartnerFee { partner_fee_bps: 10_000, recipient: "p".to_string() });
    assert_eq!(swap(&mut store, 0, too_much), Err(ContractError::TxAlreadyExist));

    // Another requester, or another transaction id, is another key.
    let bob = info("bob", &[]);
    assert!(remove_liquidity_request(
        &mut store,
        &bob,
        &env(),
        Pair::new(token("t1"), token("t2")).unwrap(),
        5,
        None,
        vec![],
        "tx".to_string()
    )
    .is_ok());
    // Once the request is settled, the key is free again.
    store.clear_pending(TxType::Swap, "alice", "tx");
    assert!(!store.is_pending(TxType::Swap, "alice", "tx"));
    assert!(swap(&mut store, 50, None).is_ok());
}

#[test]
fn add_liquidity_with_zero_slippage_is_rejected_before_any_escrow_is_asked() {
    let mut store = chain();
    let asked = Cell::new(0);
    let is_allowed = |_: String, _: TokenType| {
        asked.set(asked.get() + 1);
        Ok(true)
    };
    let pair = || PairWithDenom { token_1: native("t1", "ut1"), token_2: native("t2", "ut2") };
    let alice = info("alice", &[("ut1", 100), ("ut2", 100)]);
    for slippage in [0u64, 101, u64::MAX] {
        assert_eq!(
            add_liquidity_request(&mut store, &alice, &env(), pair(), 10, 10, slippage, None, "tx".to_string(), &is_allowed),
            Err(ContractError::InvalidSlippageTolerance)
        );
    }
    assert_eq!(ContractError::InvalidSlippageTolerance.kind(), ErrorKind::Validation);
    assert_eq!(asked.get(), 0);
    assert!(!store.is_pending(TxType::AddLiquidity, "alice", "tx"));
    for slippage in [1u64, 100] {
        let id = format!("tx{}", slippage);
        assert!(add_liquidity_request(&mut store, &alice, &env(), pair(), 10, 10, slippage, None, id, &is_allowed).is_ok());
    }
    assert_eq!(asked.get(), 4);
}

#[test]
fn add_liquidity_orders_transfers_and_sends_the_packet() {
    let mut store = chain();
    let asked = std::cell::RefCell::new(Vec::new());
    let is_allowed = |escrow: String, denom: TokenType| {
        asked.borrow_mut().push((escrow, denom));
        Ok(true)
    };
    let pair = PairWithDenom { token_1: smart("t2", "cw2"), token_2: native("t1", "ut1") };
    let alice = info("alice", &[("other", 1), ("ut1", 20)]);
    let response =
        add_liquidity_request(&mut store, &alice, &env(), pair, 10, 20, 3, Some(30), "tx".to_string(), &is_allowed)
            .unwrap();
    assert_eq!(
        response,
        Response {
            events: vec![Event::Tx(TxEvent {
                tx_id: "tx".to_string(),
                sender: "alice".to_string(),
                tx_type: TxType::AddLiquidity
            })],
            attributes: vec![("method".to_string(), "add_liquidity_request".to_string())],
            messages: vec![
                CosmosMsg::Transfer(TransferMsg {
                    token_type: TokenType::Smart { contract_address: "cw2".to_string() },
                    amount: 10,
                    recipient: "factory".to_string(),
                }),
                CosmosMsg::Ibc(IbcPacket {
                    channel_id: "channel-7".to_string(),
                    data: ChainIbcExecuteMsg::AddLiquidity {
                        sender: user("alice", "nibiru"),
                        token_1_liquidity: 10,
                        token_2_liquidity: 20,
                        slippage_tolerance: 3,
                        pair: Pair { token_1: token("t1"), token_2: token("t2") },
                        tx_id: "tx".to_string(),
                    },
                    timeout: NOW + 30_000_000_000,
                }),
            ],
        }
    );
    assert_eq!(
        asked.into_inner(),
        vec![
            ("escrow2".to_string(), TokenType::Smart { contract_address: "cw2".to_string() }),
            ("escrow1".to_string(), TokenType::Native { denom: "ut1".to_string() }),
        ]
    );
    assert!(store.is_pending(TxType::AddLiquidity, "alice", "tx"));
}

#[test]
fn add_liquidity_rejections() {
    let mut store = chain();
    let pair = || PairWithDenom { token_1: native("t1", "ut1"), token_2: native("t2", "ut2") };
    let alice = info("alice", &[("ut1", 10), ("ut2", 20)]);
    let run = |store: &mut Store, who: &MessageInfo, pair: PairWithDenom, l1: u128, l2: u128, is_allowed: &dyn Fn(String, TokenType) -> Result<bool, ContractError>| {
        add_liquidity_request(store, who, &env(), pair, l1, l2, 1, None, "tx".to_string(), is_allowed)
    };
    let unknown = PairWithDenom { token_1: native("t1", "ut1"), token_2: native("t3", "ut3") };
    assert_eq!(run(&mut store, &alice, unknown, 1, 1, &allow), Err(ContractError::PoolDoesNotExist));
    assert_eq!(run(&mut store, &alice, pair(), 0, 1, &allow), Err(ContractError::ZeroAssetAmount));
    assert_eq!(run(&mut store, &alice, pair(), 1, 0, &allow), Err(ContractError::ZeroAssetAmount));
    assert_eq!(
        run(&mut store, &alice, pair(), 1, 1, &|_, _| Ok(false)),
        Err(ContractError::UnsupportedDenomination)
    );
    assert_eq!(
        run(&mut store, &alice, pair(), 1, 1, &|escrow, _| Ok(escrow == "escrow1")),
        Err(ContractError::UnsupportedDenomination)
    );
    assert_eq!(
        run(&mut store, &alice, pair(), 1, 1, &|_, _| Err(ContractError::CollaboratorFailed)),
        Err(ContractError::CollaboratorFailed)
    );
    assert_eq!(run(&mut store, &info("alice", &[]), pair(), 1, 1, &allow), Err(ContractError::InsufficientDeposit));
    assert_eq!(
        run(&mut store, &info("alice", &[("ut2", 5)]), pair(), 1, 1, &allow),
        Err(ContractError::DenomNotFound)
    );
    assert_eq!(run(&mut store, &alice, pair(), 11, 1, &allow), Err(ContractError::InsufficientDeposit));
    assert_eq!(run(&mut store, &alice, pair(), 10, 21, &allow), Err(ContractError::InsufficientDeposit));
    assert!(!store.is_pending(TxType::AddLiquidity, "alice", "tx"));
    assert!(run(&mut store, &alice, pair(), 10, 20, &allow).is_ok());

    let mut no_escrow = Store::new();
    no_escrow.set_setting("chain_uid", &"nibiru".to_string());
    no_escrow.set_setting("hub_channel", &"channel-7".to_string());
    register_pool(&mut no_escrow, &Pair::new(token("t1"), token("t2")).unwrap(), &"vlp12".to_string()).unwrap();
    assert_eq!(run(&mut no_escrow, &alice, pair(), 1, 1, &allow), Err(ContractError::EscrowDoesNotExist));
    no_escrow.set_escrow(&token("t1"), &"escrow1".to_string());
    assert_eq!(run(&mut no_escrow, &alice, pair(), 1, 1, &allow), Err(ContractError::EscrowDoesNotExist));
    assert_eq!(ContractError::EscrowDoesNotExist.kind(), ErrorKind::NotFound);
    assert_eq!(check_denom_allowed(Ok(true)), Ok(()));
    assert_eq!(check_denom_allowed(Ok(false)), Err(ContractError::UnsupportedDenomination));
    assert_eq!(check_denom_allowed(Err(ContractError::NotImplemented)), Err(ContractError::NotImplemented));
}

#[test]
fn remove_liquidity_adds_the_requester_to_the_claimants() {
    let mut store = chain();
    let given = vec![CrossChainUserWithLimit { user: user("carol", "osmosis"), limit: Some(7) }];
    let response = remove_liquidity_request(
        &mut store,
        &info("alice", &[]),
        &env(),
        Pair { token_1: token("t2"), token_2: token("t1") },
        9,
        Some(240),
        given.clone(),
        "tx".to_string(),
    )
    .unwrap();
    assert_eq!(
        packet(&response),
        &IbcPacket {
            channel_id: "channel-7".to_string(),
            data: ChainIbcExecuteMsg::RemoveLiquidity(ChainIbcRemoveLiquidityExecuteMsg {
                sender: user("alice", "nibiru"),
                lp_allocation: 9,
                pair: Pair { token_1: token("t2"), token_2: token("t1") },
                cross_chain_addresses: vec![
                    given[0].clone(),
                    CrossChainUserWithLimit { user: user("alice", "nibiru"), limit: None },
                ],
                tx_id: "tx".to_string(),
            }),
            timeout: NOW + 240_000_000_000,
        }
    );
    assert_eq!(response.attributes, vec![("method".to_string(), "remove_liquidity_request".to_string())]);
    assert_eq!(
        response.events,
        vec![Event::Tx(TxEvent {
            tx_id: "tx".to_string(),
            sender: "alice".to_string(),
            tx_type: TxType::RemoveLiquidity
        })]
    );
    assert!(store.is_pending(TxType::RemoveLiquidity, "alice", "tx"));
}

#[test]
fn remove_liquidity_rejections() {
    let mut store = chain();
    let alice = info("alice", &[]);
    let run = |store: &mut Store, pair: Pair, amount: u128| {
        remove_liquidity_request(store, &alice, &env(), pair, amount, None, vec![], "tx".to_string())
    };
    assert_eq!(
        run(&mut store, Pair { token_1: token("t1"), token_2: token("t1") }, 1),
        Err(ContractError::DuplicateTokens)
    );
    assert_eq!(
        run(&mut store, Pair { token_1: token("t1"), token_2: token("t3") }, 1),
        Err(ContractError::PoolDoesNotExist)
    );
    assert_eq!(
        run(&mut store, Pair { token_1: token("t1"), token_2: token("t2") }, 0),
        Err(ContractError::ZeroAssetAmount)
    );
    assert_eq!(ContractError::ZeroAssetAmount.kind(), ErrorKind::Validation);
    assert!(!store.is_pending(TxType::RemoveLiquidity, "alice", "tx"));
}

fn swap_with(
    store: &mut Store,
    who: &MessageInfo,
    asset_in: TokenWithDenom,
    amount_in: u128,
    min_amount_out: u128,
    swaps: Vec<NextSwapPair>,
    partner_fee: Option<PartnerFee>,
) -> Result<Response, ContractError> {
    execute_swap_request(
        store,
        who,
        &env(),
        asset_in,
        token("t3"),
        amount_in,
        min_amount_out,
        swaps,
        None,
        vec![],
        "tx".to_string(),
        partner_fee,
        allow,
        keep,
    )
}

#[test]
fn swap_takes_the_partner_fee_off_first() {
    let mut store = chain();
    let alice = info("alice", &[("ut1", 9_969)]);
    let fee = Some(PartnerFee { partner_fee_bps: 30, recipient: "partner".to_string() });
    let given = vec![CrossChainUserWithLimit { user: user("carol", "osmosis"), limit: None }];
    let response = execute_swap_request(
        &mut store,
        &alice,
        &env(),
        native("t1", "ut1"),
        token("t3"),
        10_001,
        7,
        vec![hop("t1", "t2"), hop("t2", "t3")],
        Some(100),
        given.clone(),
        "tx".to_string(),
        fee,
        allow,
        keep,
    );
    // 31 of 10001 go to the partner: 9970 are needed, 9969 came.
    assert_eq!(response, Err(ContractError::InsufficientFunds));
    let alice = info("alice", &[("ut1", 9_970)]);
    let fee = Some(PartnerFee { partner_fee_bps: 30, recipient: "partner".to_string() });
    let response = execute_swap_request(
        &mut store,
        &alice,
        &env(),
        native("t1", "ut1"),
        token("t3"),
        10_001,
        7,
        vec![hop("t1", "t2"), hop("t2", "t3")],
        Some(100),
        given.clone(),
        "tx".to_string(),
        fee,
        allow,
        keep,
    )
    .unwrap();
    assert_eq!(
        response,
        Response {
            events: vec![
                Event::Tx(TxEvent { tx_id: "tx".to_string(), sender: "alice".to_string(), tx_type: TxType::Swap }),
                Event::Swap(SwapEvent {
                    tx_id: "tx".to_string(),
                    swap: PendingRecord {
                        sender: "alice".to_string(),
                        tx_id: "tx".to_string(),
                        tokens: vec![
                            ("t1".to_string(), false, "ut1".to_string()),
                            ("t3".to_string(), false, String::new()),
                        ],
                        amounts: vec![9_970, 7, 31],
                        route: vec![
                            ("t1".to_string(), "t2".to_string(), None),
                            ("t2".to_string(), "t3".to_string(), None),
                        ],
                        claimants: vec![
                            ("carol".to_string(), "osmosis".to_string(), None),
                            ("alice".to_string(), "nibiru".to_string(), None),
                        ],
                        timeout: NOW + 100_000_000_000,
                        partner_fee_recipient: Some("partner".to_string()),
                    },
                }),
            ],
            attributes: vec![("method".to_string(), "execute_request_swap".to_string())],
            messages: vec![CosmosMsg::Ibc(IbcPacket {
                channel_id: "channel-7".to_string(),
                data: ChainIbcExecuteMsg::Swap(ChainIbcSwapExecuteMsg {
                    sender: user("alice", "nibiru"),
                    asset_in: token("t1"),
                    amount_in: 9_970,
                    asset_out: token("t3"),
                    min_amount_out: 7,
                    swaps: vec![hop("t1", "t2"), hop("t2", "t3")],
                    cross_chain_addresses: vec![
                        given[0].clone(),
                        CrossChainUserWithLimit { user: user("alice", "nibiru"), limit: None },
                    ],
                    tx_id: "tx".to_string(),
                }),
                timeout: NOW + 100_000_000_000,
            })],
        }
    );
    assert!(store.is_pending(TxType::Swap, "alice", "tx"));
    // The swap is reported as it is kept.
    match &response.events[1] {
        Event::Swap(event) => {
            assert_eq!(store.pending_request(TxType::Swap, "alice", "tx").as_ref(), Some(&event.swap))
        }
        other => panic!("no swap event: {:?}", other),
    }
}

#[test]
fn swap_rejections() {
    let mut store = chain();
    let alice = info("alice", &[("ut1", 100)]);
    let route = || vec![hop("t1", "t2"), hop("t2", "t3")];
    let fee = |bps: u64| Some(PartnerFee { partner_fee_bps: bps, recipient: "partner".to_string() });
    assert_eq!(
        swap_with(&mut store, &alice, native("t1", "ut1"), 100, 1, route(), fee(31)),
        Err(ContractError::InvalidPartnerFee)
    );
    assert_eq!(ContractError::InvalidPartnerFee.kind(), ErrorKind::Validation);
    assert_eq!(
        swap_with(&mut store, &alice, native("t1", "ut1"), 0, 1, route(), None),
        Err(ContractError::ZeroAssetAmount)
    );
    // The fee of one unit is one unit: nothing is left to swap.
    assert_eq!(
        swap_with(&mut store, &alice, native("t1", "ut1"), 1, 1, route(), fee(1)),
        Err(ContractError::ZeroAssetAmount)
    );
    assert_eq!(
        swap_with(&mut store, &alice, native("t1", "ut1"), 100, 0, route(), None),
        Err(ContractError::ZeroAssetAmount)
    );
    assert_eq!(
        swap_with(&mut store, &alice, native("t1", "ut1"), 100, 1, vec![], None),
        Err(ContractError::EmptyRoute)
    );
    assert_eq!(
        swap_with(&mut store, &alice, native("t1", "ut1"), 100, 1, vec![hop("t2", "t3")], None),
        Err(ContractError::AssetInMismatch)
    );
    assert_eq!(
        swap_with(&mut store, &alice, native("t1", "ut1"), 100, 1, vec![hop("t1", "t2")], None),
        Err(ContractError::AssetOutMismatch)
    );
    assert_eq!(
        swap_with(&mut store, &alice, native("t3", "ut3"), 100, 1, vec![hop("t3", "t3")], None),
        Err(ContractError::EscrowDoesNotExist)
    );
    assert_eq!(
        swap_with(&mut store, &info("alice", &[("ut2", 100)]), native("t1", "ut1"), 100, 1, route(), None),
        Err(ContractError::DenomNotFound)
    );
    assert_eq!(
        swap_with(&mut store, &info("alice", &[("ut1", 99)]), native("t1", "ut1"), 100, 1, route(), None),
        Err(ContractError::InsufficientFunds)
    );
    assert_eq!(
        swap_with(&mut store, &alice, smart("t1", "cw1"), 100, 1, route(), None),
        Err(ContractError::Unauthorized)
    );
    assert!(swap_with(&mut store, &info("cw1", &[]), smart("t1", "cw1"), 100, 1, route(), None).is_ok());
    assert!(!store.is_pending(TxType::Swap, "alice", "tx"));
    assert!(store.is_pending(TxType::Swap, "cw1", "tx"));
}

#[test]
fn swap_asks_the_collaborators_in_order() {
    let mut store = chain();
    let alice = info("alice", &[("ut1", 100)]);
    let swap = |store: &mut Store, fee: Option<PartnerFee>, is_allowed: &dyn Fn(String, TokenType) -> Result<bool, ContractError>, validate: &dyn Fn(String) -> Result<String, ContractError>| {
        execute_swap_request(
            store,
            &alice,
            &env(),
            native("t1", "ut1"),
            token("t3"),
            100,
            1,
            vec![hop("t1", "t3")],
            None,
            vec![],
            "tx".to_string(),
            fee,
            is_allowed,
            validate,
        )
    };
    let fee = || Some(PartnerFee { partner_fee_bps: 0, recipient: "Partner".to_string() });
    let never = |_: String| -> Result<String, ContractError> { panic!("no partner to check") };
    assert_eq!(swap(&mut store, None, &|_, _| Ok(false), &never), Err(ContractError::UnsupportedDenomination));
    assert_eq!(
        swap(&mut store, fee(), &|_, _| Err(ContractError::CollaboratorFailed), &never),
        Err(ContractError::CollaboratorFailed)
    );
    assert_eq!(
        swap(&mut store, fee(), &allow, &|_| Err(ContractError::InvalidAddress)),
        Err(ContractError::InvalidAddress)
    );
    assert!(!store.is_pending(TxType::Swap, "alice", "tx"));
    let seen = Cell::new(None);
    let validate = |address: String| {
        seen.set(Some(address.clone()));
        Ok(address.to_lowercase())
    };
    let is_allowed = |escrow: String, denom: TokenType| {
        Ok(escrow == "escrow1" && denom == TokenType::Native { denom: "ut1".to_string() })
    };
    assert!(swap(&mut store, fee(), &is_allowed, &validate).is_ok());
    assert_eq!(seen.take(), Some("Partner".to_string()));
}

#[test]
fn hub_channel_is_set_by_the_administrator() {
    let mut store = chain();
    assert_eq!(
        execute_update_hub_channel(&mut store, &info("alice", &[]), "channel-9".to_string()),
        Err(ContractError::Unauthorized)
    );
    assert_eq!(store.setting("hub_channel"), Some("channel-7".to_string()));
    assert_eq!(
        execute_update_hub_channel(&mut store, &info("admin", &[]), "channel-9".to_string()),
        Ok(Response {
            events: vec![],
            attributes: vec![
                ("method".to_string(), "execute_update_hub_channel".to_string()),
                ("new_channel".to_string(), "channel-9".to_string()),
                ("old_channel".to_string(), "channel-7".to_string()),
            ],
            messages: vec![],
        })
    );
    assert_eq!(store.setting("hub_channel"), Some("channel-9".to_string()));
    let mut fresh = Store::new();
    assert_eq!(
        execute_update_hub_channel(&mut fresh, &info("admin", &[]), "c".to_string()),
        Err(ContractError::StateNotFound)
    );
    fresh.set_setting("admin", &"admin".to_string());
    let first = execute_update_hub_channel(&mut fresh, &info("admin", &[]), "c".to_string()).unwrap();
    assert_eq!(first.attributes[2], ("old_channel".to_string(), String::new()));
}

#[test]
fn denominations_are_registered_with_the_escrow() {
    let store = chain();
    assert_eq!(
        execute_request_register_denom(&store, native("t1", "ut1")),
        Ok(Response {
            events: vec![],
            attributes: vec![
                ("method".to_string(), "request_add_allowed_denom".to_string()),
                ("token".to_string(), "t1".to_string()),
                ("denom".to_string(), "native:ut1".to_string()),
            ],
            messages: vec![CosmosMsg::Escrow {
                contract_addr: "escrow1".to_string(),
                msg: ExecuteMsg::AddAllowedDenom { denom: TokenType::Native { denom: "ut1".to_string() } },
            }],
        })
    );
    assert_eq!(
        execute_request_deregister_denom(&store, smart("t2", "cw2")),
        Ok(Response {
            events: vec![],
            attributes: vec![
                ("method".to_string(), "request_disallow_denom".to_string()),
                ("token".to_string(), "t2".to_string()),
                ("denom".to_string(), "smart:cw2".to_string()),
            ],
            messages: vec![CosmosMsg::Escrow {
                contract_addr: "escrow2".to_string(),
                msg: ExecuteMsg::DisallowDenom {
                    denom: TokenType::Smart { contract_address: "cw2".to_string() }
                },
            }],
        })
    );
    assert_eq!(
        execute_request_register_denom(&store, native("t3", "ut3")),
        Err(ContractError::EscrowDoesNotExist)
    );
    assert_eq!(
        execute_request_deregister_denom(&store, native("t3", "ut3")),
        Err(ContractError::EscrowDoesNotExist)
    );
    assert_eq!(
        receive_cw20(Cw20ReceiveMsg { sender: "s".to_string(), amount: 1, msg: vec![] }),
        Err(ContractError::NotImplemented)
    );
}
